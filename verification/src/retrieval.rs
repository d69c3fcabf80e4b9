//! Retrieval of one cell: from the records found for its reference to a
//! content identifier, and from the block fetched for that identifier to the
//! cell. The lookups and transfers themselves are the caller's; each step
//! here takes what the network returned and says what to do next.
use vstd::prelude::*;
use crate::position::{Cell, Position, CELL_SIZE, reference_of};

verus! {

/// Why a cell could not be retrieved.
#[derive(Clone, Copy, Debug, PartialEq, Eq, Structural)]
pub enum RetrievalError {
    /// The hash table holds no record for the cell's reference.
    RecordNotFound,
    /// The record's value does not decode into a content identifier.
    InvalidIdentifier,
    /// No peer supplied the block.
    FetchFailed,
    /// The block's length is not that of a cell.
    MalformedContent,
}

/// The content identifier that `libipld::Cid::try_from` reads at the start of
/// `value`, in its binary encoding; `None` where it reads none.
pub uninterp spec fn identifier_of(value: Seq<u8>) -> Option<Seq<u8>>;

/// Decodes a record's value with `libipld::Cid::try_from` and returns the
/// identifier's binary encoding (`Cid::to_bytes`). Believed, not proved: the
/// result is `identifier_of` of the value, and is `None` exactly where the
/// decoder returns an error.
#[verifier::external_body]
fn decode_identifier(value: &Vec<u8>) -> (decoded: Option<Vec<u8>>)
    ensures
        decoded is Some <==> identifier_of(value@) is Some,
        decoded is Some ==> decoded->0@ == identifier_of(value@)->0,
{
    match libipld::Cid::try_from(value.clone()) {
        Ok(cid) => Some(cid.to_bytes()),
        Err(_) => None,
    }
}

/// What resolution gives for a decoded value: the identifier, or
/// `InvalidIdentifier` where there is none.
pub fn identifier_outcome(decoded: Option<Vec<u8>>) -> (outcome: Result<Vec<u8>, RetrievalError>)
    ensures
        decoded is Some ==> outcome == Ok::<Vec<u8>, RetrievalError>(decoded->0),
        decoded is None ==> outcome == Err::<Vec<u8>, RetrievalError>(
            RetrievalError::InvalidIdentifier,
        ),
{
    match decoded {
        Some(identifier) => Ok(identifier),
        None => Err(RetrievalError::InvalidIdentifier),
    }
}

/// Resolves the values of the records found for a reference, in the order in
/// which they arrived: the first one counts. No record is `RecordNotFound`; a
/// first value that does not decode is `InvalidIdentifier`.
pub fn resolve_identifier(values: &Vec<Vec<u8>>) -> (outcome: Result<Vec<u8>, RetrievalError>)
    ensures
        values@.len() == 0 ==> outcome == Err::<Vec<u8>, RetrievalError>(
            RetrievalError::RecordNotFound,
        ),
        values@.len() > 0 && identifier_of(values@[0]@) is None ==> outcome == Err::<
            Vec<u8>,
            RetrievalError,
        >(RetrievalError::InvalidIdentifier),
        values@.len() > 0 && identifier_of(values@[0]@) is Some ==> outcome is Ok
            && outcome->Ok_0@ == identifier_of(values@[0]@)->0,
{
    if values.len() == 0 {
        Err(RetrievalError::RecordNotFound)
    } else {
        identifier_outcome(decode_identifier(&values[0]))
    }
}

/// The cell, or the error, that a fetched block gives at `position`: no block
/// is `FetchFailed`, a block of another length than a cell's is
/// `MalformedContent`.
pub open spec fn packaged(position: Position, block: Option<Vec<u8>>) -> Result<
    Cell,
    RetrievalError,
> {
    match block {
        None => Err(RetrievalError::FetchFailed),
        Some(content) => if content@.len() == CELL_SIZE {
            Ok(Cell { position, content })
        } else {
            Err(RetrievalError::MalformedContent)
        },
    }
}

/// Packages the block that the transfer returned, if any, into the cell at
/// `position`. The content is neither cut nor padded.
pub fn package_cell(position: Position, block: Option<Vec<u8>>) -> (outcome: Result<
    Cell,
    RetrievalError,
>)
    ensures
        outcome == packaged(position, block),
        outcome is Ok ==> outcome->Ok_0.wf() && outcome->Ok_0.position == position,
{
    match block {
        None => Err(RetrievalError::FetchFailed),
        Some(content) => {
            if content.len() == CELL_SIZE {
                Ok(Cell { position, content })
            } else {
                Err(RetrievalError::MalformedContent)
            }
        },
    }
}

/// How far the retrieval of one cell has come.
#[derive(Debug)]
pub enum Stage {
    /// The record for the cell's reference is being looked up.
    Resolving,
    /// The block under `identifier` is being fetched.
    Fetching { identifier: Vec<u8> },
    /// The retrieval has ended, with the cell or with the reason for failure.
    Finished(Result<Cell, RetrievalError>),
}

/// What the network returned for the step that was asked for.
#[derive(Debug)]
pub enum TaskEvent {
    /// The values of the records found for the reference; empty where the
    /// lookup found none or failed.
    Records(Vec<Vec<u8>>),
    /// The block's bytes, or `None` where no peer supplied it.
    Block(Option<Vec<u8>>),
}

/// What the caller is to do for a task next.
#[derive(Debug)]
pub enum TaskAction {
    /// Look up the record under `key`, and take the first answer.
    GetRecord { key: Vec<u8> },
    /// Fetch the block under `identifier` from the known peers.
    FetchBlock { identifier: Vec<u8> },
    /// Nothing: the task has ended.
    Stop,
}

/// The retrieval of one cell of one block.
#[derive(Debug)]
pub struct CellTask {
    pub block_number: u64,
    pub position: Position,
    pub stage: Stage,
}

impl CellTask {
    /// A task that has yet to look up its record.
    pub fn new(block_number: u64, position: Position) -> (task: CellTask)
        ensures
            task.block_number == block_number,
            task.position == position,
            task.stage is Resolving,
            task.wf(),
    {
        CellTask { block_number, position, stage: Stage::Resolving }
    }

    /// A task is well formed when the cell it ended with, if any, has the
    /// fixed size and stands at the task's own position.
    pub open spec fn wf(&self) -> bool {
        self.stage is Finished && self.stage->Finished_0 is Ok ==> {
            &&& self.stage->Finished_0->Ok_0.wf()
            &&& self.stage->Finished_0->Ok_0.position == self.position
        }
    }

    /// Whether the task has ended.
    pub open spec fn finished(&self) -> bool {
        self.stage is Finished
    }

    /// Whether `event` answers the step that the task is waiting for.
    pub open spec fn expects(&self, event: TaskEvent) -> bool {
        match self.stage {
            Stage::Resolving => event is Records,
            Stage::Fetching { .. } => event is Block,
            Stage::Finished(_) => false,
        }
    }

    /// The next thing to do: look up the record under the cell's reference,
    /// fetch the block under the identifier found, or stop.
    pub fn action(&self) -> (action: TaskAction)
        ensures
            self.stage is Resolving ==> action is GetRecord && action->key@ == reference_of(
                self.block_number,
                self.position,
            ),
            self.stage is Fetching ==> action is FetchBlock && action->FetchBlock_identifier@
                == self.stage->Fetching_identifier@,
            self.finished() ==> action is Stop,
    {
        match &self.stage {
            Stage::Resolving => TaskAction::GetRecord {
                key: self.position.reference(self.block_number),
            },
            Stage::Fetching { identifier } => TaskAction::FetchBlock {
                identifier: identifier.clone(),
            },
            Stage::Finished(_) => TaskAction::Stop,
        }
    }

    /// Takes what the network returned. Records resolve to an identifier, and
    /// the task goes on to fetch; or they do not, and it ends without a
    /// fetch. A block ends the task, with the cell or with the error. An event
    /// that the task is not waiting for leaves it as it is.
    pub fn step(self, event: TaskEvent) -> (next: CellTask)
        ensures
            next.block_number == self.block_number,
            next.position == self.position,
            self.wf() ==> next.wf(),
            !self.expects(event) ==> next == self,
            self.stage is Resolving && event is Records ==> {
                let values = event->Records_0@;
                &&& values.len() == 0 ==> next.stage == Stage::Finished(
                    Err(RetrievalError::RecordNotFound),
                )
                &&& values.len() > 0 && identifier_of(values[0]@) is None ==> next.stage
                    == Stage::Finished(Err(RetrievalError::InvalidIdentifier))
                &&& values.len() > 0 && identifier_of(values[0]@) is Some ==> next.stage
                    is Fetching && next.stage->Fetching_identifier@ == identifier_of(
                    values[0]@,
                )->0
            },
            self.stage is Fetching && event is Block ==> next.stage == Stage::Finished(
                packaged(self.position, event->Block_0),
            ),
    {
        let CellTask { block_number, position, stage } = self;
        match (stage, event) {
            (Stage::Resolving, TaskEvent::Records(values)) => {
                let stage = match resolve_identifier(&values) {
                    Ok(identifier) => Stage::Fetching { identifier },
                    Err(error) => Stage::Finished(Err(error)),
                };
                CellTask { block_number, position, stage }
            },
            (Stage::Fetching { identifier: _ }, TaskEvent::Block(block)) => {
                CellTask { block_number, position, stage: Stage::Finished(package_cell(position, block)) }
            },
            (stage, _) => CellTask { block_number, position, stage },
        }
    }

    /// The outcome of a task that has ended.
    pub fn outcome(self) -> (outcome: Option<Result<Cell, RetrievalError>>)
        ensures
            self.finished() ==> outcome == Some(self.stage->Finished_0),
            !self.finished() ==> outcome is None,
    {
        match self.stage {
            Stage::Finished(result) => Some(result),
            _ => None,
        }
    }
}

} // verus!
