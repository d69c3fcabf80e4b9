//! Bringing a node into the mesh: which step comes next, given what the last
//! one returned. The caller starts the node, listens and sends the bootstrap
//! requests; the order, and what each failure means, is decided here.
use vstd::prelude::*;
use crate::position::{decimal, push_decimal};

verus! {

/// Seconds between two sweeps of the local block store.
pub const SWEEP_INTERVAL_SECS: u64 = 600;

/// Number of blocks that the local block store keeps cached.
pub const CACHE_SIZE_BLOCKS: u64 = 10;

/// Where a node stands on its way into the mesh.
#[derive(Clone, Copy, Debug, PartialEq, Eq, Structural)]
pub enum BootstrapState {
    /// The node is being started on its storage.
    Starting,
    /// The node is up and is opening its listener.
    ListenReady,
    /// A bootstrap request against the configured contacts is under way.
    BootstrappingWithConfiguredPeers,
    /// No contact was configured: the node waits for a first connection.
    AwaitingFirstPeer,
    /// A bootstrap request against the peer that connected first is under way.
    BootstrappingWithDiscoveredPeer,
    /// The node is part of the mesh.
    Bootstrapped,
}

/// What the caller reports back.
#[derive(Clone, Copy, Debug, PartialEq, Eq, Structural)]
pub enum BootstrapEvent {
    /// The node was started.
    NodeStarted,
    /// The node could not be started on the storage path.
    StorageFailed,
    /// The listener is open.
    Listening,
    /// The listen address was refused.
    AddressRejected,
    /// A remote peer has connected.
    ConnectionEstablished,
    /// Something else happened on the overlay.
    Unrelated,
    /// The bootstrap request was acknowledged.
    BootstrapAcknowledged,
    /// The bootstrap request was rejected or timed out.
    BootstrapRejected,
}

/// What the caller is to do while the node is in a state.
#[derive(Clone, Copy, Debug, PartialEq, Eq, Structural)]
pub enum BootstrapAction {
    /// Start the node with the derived identity on the storage path.
    StartNode,
    /// Listen on the loopback address with the configured port.
    Listen,
    /// Send a bootstrap request to the configured contacts.
    BootstrapConfigured,
    /// Wait for the next event of the overlay.
    AwaitConnection,
    /// Send a bootstrap request to the peer that has connected.
    BootstrapDiscovered,
    /// Nothing: the node is bootstrapped.
    Done,
}

/// Why a node could not be brought into the mesh.
#[derive(Clone, Copy, Debug, PartialEq, Eq, Structural)]
pub enum BootstrapError {
    InvalidListenAddress,
    BootstrapFailed,
    StorageInitFailed,
}

/// The state that follows `state` on `event`, for a node with `contacts`
/// configured contacts; or the error that ends the attempt. An event that the
/// state does not wait for changes nothing.
pub open spec fn next_state(state: BootstrapState, event: BootstrapEvent, contacts: usize) -> Result<
    BootstrapState,
    BootstrapError,
> {
    match (state, event) {
        (BootstrapState::Starting, BootstrapEvent::NodeStarted) => Ok(BootstrapState::ListenReady),
        (BootstrapState::Starting, BootstrapEvent::StorageFailed) => Err(
            BootstrapError::StorageInitFailed,
        ),
        (BootstrapState::ListenReady, BootstrapEvent::Listening) => if contacts > 0 {
            Ok(BootstrapState::BootstrappingWithConfiguredPeers)
        } else {
            Ok(BootstrapState::AwaitingFirstPeer)
        },
        (BootstrapState::ListenReady, BootstrapEvent::AddressRejected) => Err(
            BootstrapError::InvalidListenAddress,
        ),
        (BootstrapState::AwaitingFirstPeer, BootstrapEvent::ConnectionEstablished) => Ok(
            BootstrapState::BootstrappingWithDiscoveredPeer,
        ),
        (BootstrapState::BootstrappingWithConfiguredPeers, BootstrapEvent::BootstrapAcknowledged)
        | (BootstrapState::BootstrappingWithDiscoveredPeer, BootstrapEvent::BootstrapAcknowledged) => Ok(
            BootstrapState::Bootstrapped,
        ),
        (BootstrapState::BootstrappingWithConfiguredPeers, BootstrapEvent::BootstrapRejected)
        | (BootstrapState::BootstrappingWithDiscoveredPeer, BootstrapEvent::BootstrapRejected) => Err(
            BootstrapError::BootstrapFailed,
        ),
        _ => Ok(state),
    }
}

/// How far a state is from the start: no step leads to a state of a lower
/// rank.
pub open spec fn rank(state: BootstrapState) -> nat {
    match state {
        BootstrapState::Starting => 0,
        BootstrapState::ListenReady => 1,
        BootstrapState::AwaitingFirstPeer => 2,
        BootstrapState::BootstrappingWithConfiguredPeers => 3,
        BootstrapState::BootstrappingWithDiscoveredPeer => 3,
        BootstrapState::Bootstrapped => 4,
    }
}

/// The loopback listen address for `port`, in ASCII: `/ip4/127.0.0.1/tcp/`
/// and the port in decimal.
pub open spec fn listen_address_of(port: u16) -> Seq<u8> {
    seq![47u8, 105, 112, 52, 47, 49, 50, 55, 46, 48, 46, 48, 46, 49, 47, 116, 99, 112, 47]
        + decimal(port as nat)
}

/// The loopback listen address for `port`.
pub fn listen_address(port: u16) -> (address: Vec<u8>)
    ensures
        address@ == listen_address_of(port),
{
    let mut address: Vec<u8> = vec![
        47u8, 105, 112, 52, 47, 49, 50, 55, 46, 48, 46, 48, 46, 49, 47, 116, 99, 112, 47,
    ];
    assert(address@ =~= seq![
        47u8, 105, 112, 52, 47, 49, 50, 55, 46, 48, 46, 48, 46, 49, 47, 116, 99, 112, 47,
    ]);
    push_decimal(&mut address, port as u64);
    address
}

impl BootstrapState {
    /// What the caller is to do in this state.
    pub fn action(self) -> (action: BootstrapAction)
        ensures
            action == match self {
                BootstrapState::Starting => BootstrapAction::StartNode,
                BootstrapState::ListenReady => BootstrapAction::Listen,
                BootstrapState::BootstrappingWithConfiguredPeers => BootstrapAction::BootstrapConfigured,
                BootstrapState::AwaitingFirstPeer => BootstrapAction::AwaitConnection,
                BootstrapState::BootstrappingWithDiscoveredPeer => BootstrapAction::BootstrapDiscovered,
                BootstrapState::Bootstrapped => BootstrapAction::Done,
            },
    {
        match self {
            BootstrapState::Starting => BootstrapAction::StartNode,
            BootstrapState::ListenReady => BootstrapAction::Listen,
            BootstrapState::BootstrappingWithConfiguredPeers => BootstrapAction::BootstrapConfigured,
            BootstrapState::AwaitingFirstPeer => BootstrapAction::AwaitConnection,
            BootstrapState::BootstrappingWithDiscoveredPeer => BootstrapAction::BootstrapDiscovered,
            BootstrapState::Bootstrapped => BootstrapAction::Done,
        }
    }

    /// Takes what the caller reports and gives the state that follows, or the
    /// error that ends the attempt.
    pub fn step(self, event: BootstrapEvent, contacts: usize) -> (next: Result<
        BootstrapState,
        BootstrapError,
    >)
        ensures
            next == next_state(self, event, contacts),
    {
        match self {
            BootstrapState::Starting => match event {
                BootstrapEvent::NodeStarted => Ok(BootstrapState::ListenReady),
                BootstrapEvent::StorageFailed => Err(BootstrapError::StorageInitFailed),
                _ => Ok(self),
            },
            BootstrapState::ListenReady => match event {
                BootstrapEvent::Listening => {
                    if contacts > 0 {
                        Ok(BootstrapState::BootstrappingWithConfiguredPeers)
                    } else {
                        Ok(BootstrapState::AwaitingFirstPeer)
                    }
                },
                BootstrapEvent::AddressRejected => Err(BootstrapError::InvalidListenAddress),
                _ => Ok(self),
            },
            BootstrapState::AwaitingFirstPeer => match event {
                BootstrapEvent::ConnectionEstablished => Ok(
                    BootstrapState::BootstrappingWithDiscoveredPeer,
                ),
                _ => Ok(self),
            },
            BootstrapState::BootstrappingWithConfiguredPeers
            | BootstrapState::BootstrappingWithDiscoveredPeer => match event {
                BootstrapEvent::BootstrapAcknowledged => Ok(BootstrapState::Bootstrapped),
                BootstrapEvent::BootstrapRejected => Err(BootstrapError::BootstrapFailed),
                _ => Ok(self),
            },
            BootstrapState::Bootstrapped => Ok(self),
        }
    }
}

/// No step leads back: the state that follows is never of a lower rank.
pub proof fn lemma_step_never_back(state: BootstrapState, event: BootstrapEvent, contacts: usize)
    ensures
        next_state(state, event, contacts) is Ok ==> rank(next_state(state, event, contacts)->Ok_0)
            >= rank(state),
{
}

/// A bootstrapped node stays bootstrapped, whatever is reported.
pub proof fn lemma_bootstrapped_is_final(event: BootstrapEvent, contacts: usize)
    ensures
        next_state(BootstrapState::Bootstrapped, event, contacts) == Ok::<
            BootstrapState,
            BootstrapError,
        >(BootstrapState::Bootstrapped),
{
}

/// A node waits for a first connection only where no contact was configured,
/// and a bootstrap request goes to the configured contacts only where there
/// is one.
pub proof fn lemma_contacts_decide(event: BootstrapEvent, contacts: usize)
    ensures
        next_state(BootstrapState::ListenReady, event, contacts) == Ok::<
            BootstrapState,
            BootstrapError,
        >(BootstrapState::AwaitingFirstPeer) ==> contacts == 0,
        next_state(BootstrapState::ListenReady, event, contacts) == Ok::<
            BootstrapState,
            BootstrapError,
        >(BootstrapState::BootstrappingWithConfiguredPeers) ==> contacts > 0,
{
}

} // verus!
