//! Retrieval of many cells in one round: every position gets a task of its
//! own, and at the end the tasks are parted into the cells that were fetched
//! and the positions that are still missing.
use vstd::prelude::*;
use crate::position::{Cell, Position};
use crate::retrieval::{CellTask, Stage};

verus! {

/// How a round begins.
#[derive(Debug)]
pub enum Batch {
    /// No peer is known: nothing is attempted, and every position is missing.
    NoPeers { unfetched: Vec<Position> },
    /// One task for each position, in the order of the positions.
    Started { tasks: Vec<CellTask> },
}

/// Whether a task ended with its cell.
pub open spec fn succeeded(task: CellTask) -> bool {
    task.stage is Finished && task.stage->Finished_0 is Ok
}

/// The cell of a task that ended with one.
pub open spec fn cell_of(task: CellTask) -> Cell {
    task.stage->Finished_0->Ok_0
}

/// The cells of the tasks that ended with one, in the order of the tasks.
pub open spec fn fetched_of(tasks: Seq<CellTask>) -> Seq<Cell>
    decreases tasks.len(),
{
    if tasks.len() == 0 {
        Seq::empty()
    } else if succeeded(tasks.last()) {
        fetched_of(tasks.drop_last()).push(cell_of(tasks.last()))
    } else {
        fetched_of(tasks.drop_last())
    }
}

/// The positions of the tasks that did not end with a cell, in the order of
/// the tasks.
pub open spec fn unfetched_of(tasks: Seq<CellTask>) -> Seq<Position>
    decreases tasks.len(),
{
    if tasks.len() == 0 {
        Seq::empty()
    } else if succeeded(tasks.last()) {
        unfetched_of(tasks.drop_last())
    } else {
        unfetched_of(tasks.drop_last()).push(tasks.last().position)
    }
}

/// The positions that the tasks were made for.
pub open spec fn requested(tasks: Seq<CellTask>) -> Seq<Position> {
    Seq::new(tasks.len(), |i: int| tasks[i].position)
}

/// The positions of the cells.
pub open spec fn positions_of(cells: Seq<Cell>) -> Seq<Position> {
    Seq::new(cells.len(), |i: int| cells[i].position)
}

/// Whether every task that ended with a cell holds a cell of the fixed size
/// at the task's own position.
pub open spec fn all_wf(tasks: Seq<CellTask>) -> bool {
    forall|i: int| 0 <= i < tasks.len() ==> (#[trigger] tasks[i]).wf()
}

/// Begins a round for `positions` of block `block_number`, given the number
/// of peers known at this moment. Without a peer nothing is attempted.
pub fn start_batch(peer_count: usize, block_number: u64, positions: &Vec<Position>) -> (batch:
    Batch)
    ensures
        peer_count == 0 ==> batch is NoPeers && batch->unfetched@ == positions@,
        peer_count > 0 ==> batch is Started && batch->tasks@.len() == positions@.len(),
        peer_count > 0 ==> forall|i: int|
            0 <= i < positions@.len() ==> (#[trigger] batch->tasks@[i]) == (CellTask {
                block_number,
                position: positions@[i],
                stage: Stage::Resolving,
            }),
{
    if peer_count == 0 {
        return Batch::NoPeers { unfetched: positions.clone() };
    }
    let mut tasks: Vec<CellTask> = Vec::new();
    let mut i: usize = 0;
    while i < positions.len()
        invariant
            i <= positions@.len(),
            tasks@.len() == i,
            forall|k: int|
                0 <= k < i ==> (#[trigger] tasks@[k]) == (CellTask {
                    block_number,
                    position: positions@[k],
                    stage: Stage::Resolving,
                }),
        decreases positions@.len() - i,
    {
        tasks.push(CellTask::new(block_number, positions[i]));
        i += 1;
    }
    Batch::Started { tasks }
}

/// Ends a round: parts the tasks into the cells that were fetched and the
/// positions that were not, each in the order of the tasks. A task that has
/// not ended counts as not fetched. Every task is on one side, and on one
/// only.
pub fn finish_batch(tasks: Vec<CellTask>) -> (parts: (Vec<Cell>, Vec<Position>))
    ensures
        parts.0@ == fetched_of(tasks@),
        parts.1@ == unfetched_of(tasks@),
        parts.0@.len() + parts.1@.len() == tasks@.len(),
        all_wf(tasks@) ==> positions_of(parts.0@).to_multiset().add(parts.1@.to_multiset())
            == requested(tasks@).to_multiset(),
        all_wf(tasks@) ==> forall|a: int| 0 <= a < parts.0@.len() ==> (#[trigger] parts.0@[a]).wf(),
{
    let mut fetched: Vec<Cell> = Vec::new();
    let mut unfetched: Vec<Position> = Vec::new();
    for task in iter: tasks
        invariant
            iter.seq() == tasks@,
            fetched@ == fetched_of(tasks@.take(iter.index() as int)),
            unfetched@ == unfetched_of(tasks@.take(iter.index() as int)),
    {
        proof {
            let done = tasks@.take(iter.index() + 1);
            assert(done.drop_last() =~= tasks@.take(iter.index() as int));
            assert(done.last() == task);
        }
        let position = task.position;
        match task.stage {
            Stage::Finished(Ok(cell)) => fetched.push(cell),
            _ => unfetched.push(position),
        }
    }
    proof {
        assert(tasks@.take(tasks@.len() as int) =~= tasks@);
        lemma_partition_sizes(tasks@);
        if all_wf(tasks@) {
            lemma_partition_complete(tasks@);
            lemma_fetched_well_formed(tasks@);
        }
    }
    (fetched, unfetched)
}

/// Every fetched cell is the cell of a task that ended with one.
pub proof fn lemma_fetched_origin(tasks: Seq<CellTask>, a: int) -> (i: int)
    requires
        0 <= a < fetched_of(tasks).len(),
    ensures
        0 <= i < tasks.len(),
        succeeded(tasks[i]),
        cell_of(tasks[i]) == fetched_of(tasks)[a],
    decreases tasks.len(),
{
    let init = tasks.drop_last();
    if succeeded(tasks.last()) && a == fetched_of(init).len() {
        tasks.len() - 1
    } else {
        lemma_fetched_origin(init, a)
    }
}

/// Every missing position is the position of a task that did not end with a
/// cell.
pub proof fn lemma_unfetched_origin(tasks: Seq<CellTask>, b: int) -> (j: int)
    requires
        0 <= b < unfetched_of(tasks).len(),
    ensures
        0 <= j < tasks.len(),
        !succeeded(tasks[j]),
        tasks[j].position == unfetched_of(tasks)[b],
    decreases tasks.len(),
{
    let init = tasks.drop_last();
    if !succeeded(tasks.last()) && b == unfetched_of(init).len() {
        tasks.len() - 1
    } else {
        lemma_unfetched_origin(init, b)
    }
}

/// The two parts together are as many as the tasks: no task is left out, and
/// none is counted twice.
pub proof fn lemma_partition_sizes(tasks: Seq<CellTask>)
    ensures
        fetched_of(tasks).len() + unfetched_of(tasks).len() == tasks.len(),
    decreases tasks.len(),
{
    if tasks.len() > 0 {
        lemma_partition_sizes(tasks.drop_last());
    }
}

/// The positions of the fetched cells and the missing positions, taken
/// together with their repetitions, are the requested positions: each request
/// is on exactly one side.
pub proof fn lemma_partition_complete(tasks: Seq<CellTask>)
    requires
        all_wf(tasks),
    ensures
        positions_of(fetched_of(tasks)).to_multiset().add(unfetched_of(tasks).to_multiset())
            == requested(tasks).to_multiset(),
    decreases tasks.len(),
{
    broadcast use vstd::multiset::group_multiset_axioms;

    let whole = positions_of(fetched_of(tasks)).to_multiset().add(
        unfetched_of(tasks).to_multiset(),
    );
    if tasks.len() == 0 {
        assert(positions_of(fetched_of(tasks)) =~= Seq::<Position>::empty());
        assert(requested(tasks) =~= Seq::<Position>::empty());
        assert(unfetched_of(tasks) =~= Seq::<Position>::empty());
        let nothing = Seq::<Position>::empty().to_multiset();
        vstd::seq_lib::to_multiset_len(Seq::<Position>::empty());
        vstd::multiset::lemma_multiset_empty_len(nothing);
        assert(whole =~= requested(tasks).to_multiset());
    } else {
        let init = tasks.drop_last();
        let last = tasks.last();
        assert(all_wf(init)) by {
            assert forall|i: int| 0 <= i < init.len() implies (#[trigger] init[i]).wf() by {
                assert(tasks[i].wf());
            }
        }
        lemma_partition_complete(init);
        assert(requested(tasks) =~= requested(init).push(last.position));
        vstd::seq_lib::to_multiset_build(requested(init), last.position);
        if succeeded(last) {
            assert(last.wf());
            assert(positions_of(fetched_of(tasks)) =~= positions_of(fetched_of(init)).push(
                last.position,
            ));
            vstd::seq_lib::to_multiset_build(positions_of(fetched_of(init)), last.position);
        } else {
            vstd::seq_lib::to_multiset_build(unfetched_of(init), last.position);
        }
        assert(whole =~= requested(tasks).to_multiset());
    }
}

/// Where two tasks for the same position never end differently (as when no
/// position is requested twice), no position is on both sides.
pub proof fn lemma_partition_disjoint(tasks: Seq<CellTask>)
    requires
        all_wf(tasks),
        forall|i: int, j: int|
            0 <= i < tasks.len() && 0 <= j < tasks.len() && tasks[i].position
                == tasks[j].position ==> succeeded(tasks[i]) == succeeded(tasks[j]),
    ensures
        forall|a: int, b: int|
            0 <= a < fetched_of(tasks).len() && 0 <= b < unfetched_of(tasks).len() ==> (
            #[trigger] fetched_of(tasks)[a]).position != #[trigger] unfetched_of(tasks)[b],
{
    assert forall|a: int, b: int|
        0 <= a < fetched_of(tasks).len() && 0 <= b < unfetched_of(tasks).len() implies (
    #[trigger] fetched_of(tasks)[a]).position != #[trigger] unfetched_of(tasks)[b] by {
        let i = lemma_fetched_origin(tasks, a);
        let j = lemma_unfetched_origin(tasks, b);
        assert(tasks[i].wf());
    }
}

/// Every fetched cell has the fixed size: a block of another length is never
/// among the fetched.
pub proof fn lemma_fetched_well_formed(tasks: Seq<CellTask>)
    requires
        all_wf(tasks),
    ensures
        forall|a: int| 0 <= a < fetched_of(tasks).len() ==> (#[trigger] fetched_of(tasks)[a]).wf(),
{
    assert forall|a: int| 0 <= a < fetched_of(tasks).len() implies (#[trigger] fetched_of(
        tasks,
    )[a]).wf() by {
        let i = lemma_fetched_origin(tasks, a);
        assert(tasks[i].wf());
    }
}

/// Where no task ended with a cell, as when none was ever started, nothing is
/// fetched and every requested position is missing, in the order requested.
pub proof fn lemma_nothing_fetched(tasks: Seq<CellTask>)
    requires
        forall|i: int| 0 <= i < tasks.len() ==> !succeeded(#[trigger] tasks[i]),
    ensures
        fetched_of(tasks).len() == 0,
        unfetched_of(tasks) == requested(tasks),
    decreases tasks.len(),
{
    if tasks.len() > 0 {
        let init = tasks.drop_last();
        assert forall|i: int| 0 <= i < init.len() implies !succeeded(#[trigger] init[i]) by {
            assert(init[i] == tasks[i]);
        }
        lemma_nothing_fetched(init);
        assert(!succeeded(tasks[tasks.len() - 1]));
        assert(requested(tasks) =~= requested(init).push(tasks.last().position));
    } else {
        assert(requested(tasks) =~= Seq::<Position>::empty());
    }
}

} // verus!
