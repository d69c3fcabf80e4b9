//! The overlay's events, and the closed vocabulary in which they are
//! reported. Peers and addresses are held in their text form.
use vstd::prelude::*;

verus! {

/// An event of the overlay, with what it carries as plain text.
#[derive(Clone, Debug, PartialEq, Eq)]
pub enum OverlayEvent {
    NewListener,
    NewListenAddr(String),
    ExpiredListenAddr(String),
    ListenerClosed,
    NewExternalAddr(String),
    ExpiredExternalAddr(String),
    Discovered(String),
    Unreachable(String),
    Connected(String),
    Disconnected(String),
    Subscribed(String, String),
    Unsubscribed(String, String),
    Bootstrapped,
    NewInfo(String),
    /// A connection with `peer` stands, and `address` is the remote end.
    ConnectionEstablished { peer: String, address: String },
    /// Any other kind of event, by its name.
    Unknown(String),
}

/// An event as it is reported.
#[derive(Clone, Debug, PartialEq, Eq)]
pub enum Event {
    NewListener,
    NewListenAddr(String),
    ExpiredListenAddr(String),
    ListenerClosed,
    NewExternalAddr(String),
    ExpiredExternalAddr(String),
    Discovered(String),
    Unreachable(String),
    Connected(String),
    Disconnected(String),
    Subscribed(String, String),
    Unsubscribed(String, String),
    Bootstrapped,
    NewInfo(String),
    /// An event of a kind that is not reported on its own.
    Other,
}

/// The report of an overlay event: the event of the same kind with the same
/// content, and `Other` for the kinds that have none.
pub open spec fn report_of(event: OverlayEvent) -> Event {
    match event {
        OverlayEvent::NewListener => Event::NewListener,
        OverlayEvent::NewListenAddr(address) => Event::NewListenAddr(address),
        OverlayEvent::ExpiredListenAddr(address) => Event::ExpiredListenAddr(address),
        OverlayEvent::ListenerClosed => Event::ListenerClosed,
        OverlayEvent::NewExternalAddr(address) => Event::NewExternalAddr(address),
        OverlayEvent::ExpiredExternalAddr(address) => Event::ExpiredExternalAddr(address),
        OverlayEvent::Discovered(peer) => Event::Discovered(peer),
        OverlayEvent::Unreachable(peer) => Event::Unreachable(peer),
        OverlayEvent::Connected(peer) => Event::Connected(peer),
        OverlayEvent::Disconnected(peer) => Event::Disconnected(peer),
        OverlayEvent::Subscribed(peer, topic) => Event::Subscribed(peer, topic),
        OverlayEvent::Unsubscribed(peer, topic) => Event::Unsubscribed(peer, topic),
        OverlayEvent::Bootstrapped => Event::Bootstrapped,
        OverlayEvent::NewInfo(peer) => Event::NewInfo(peer),
        OverlayEvent::ConnectionEstablished { .. } => Event::Other,
        OverlayEvent::Unknown(_) => Event::Other,
    }
}

/// The contact that an event gives a node that waits for its first peer: the
/// peer and the remote address of an established connection, and nothing for
/// any other event.
pub open spec fn contact_of(event: OverlayEvent) -> Option<(String, String)> {
    match event {
        OverlayEvent::ConnectionEstablished { peer, address } => Some((peer, address)),
        _ => None,
    }
}

/// Translates an overlay event into the event to report. Every event has a
/// report: the function never fails.
pub fn translate(event: OverlayEvent) -> (report: Event)
    ensures
        report == report_of(event),
{
    match event {
        OverlayEvent::NewListener => Event::NewListener,
        OverlayEvent::NewListenAddr(address) => Event::NewListenAddr(address),
        OverlayEvent::ExpiredListenAddr(address) => Event::ExpiredListenAddr(address),
        OverlayEvent::ListenerClosed => Event::ListenerClosed,
        OverlayEvent::NewExternalAddr(address) => Event::NewExternalAddr(address),
        OverlayEvent::ExpiredExternalAddr(address) => Event::ExpiredExternalAddr(address),
        OverlayEvent::Discovered(peer) => Event::Discovered(peer),
        OverlayEvent::Unreachable(peer) => Event::Unreachable(peer),
        OverlayEvent::Connected(peer) => Event::Connected(peer),
        OverlayEvent::Disconnected(peer) => Event::Disconnected(peer),
        OverlayEvent::Subscribed(peer, topic) => Event::Subscribed(peer, topic),
        OverlayEvent::Unsubscribed(peer, topic) => Event::Unsubscribed(peer, topic),
        OverlayEvent::Bootstrapped => Event::Bootstrapped,
        OverlayEvent::NewInfo(peer) => Event::NewInfo(peer),
        _ => Event::Other,
    }
}

/// The contact to bootstrap against, where the event is an established
/// connection.
pub fn first_contact(event: OverlayEvent) -> (contact: Option<(String, String)>)
    ensures
        contact == contact_of(event),
{
    match event {
        OverlayEvent::ConnectionEstablished { peer, address } => Some((peer, address)),
        _ => None,
    }
}

} // verus!
