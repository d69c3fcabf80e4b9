use cell_retrieval::batch::{finish_batch, start_batch, Batch};
use cell_retrieval::position::{Cell, Position, CELL_SIZE};
use cell_retrieval::retrieval::{CellTask, RetrievalError, Stage, TaskAction, TaskEvent};

type Table = Vec<(Vec<u8>, Vec<u8>)>;

fn identifier(tag: u8) -> Vec<u8> {
    let mut bytes = vec![0x12, 0x20];
    bytes.extend(std::iter::repeat(tag).take(32));
    bytes
}

fn content(tag: u8) -> Vec<u8> {
    vec![tag; CELL_SIZE]
}

fn run_task(mut task: CellTask, records: &Table, blocks: &Table, operations: &mut usize) -> CellTask {
    loop {
        match task.action() {
            TaskAction::GetRecord { key } => {
                *operations += 1;
                let values: Vec<Vec<u8>> = records
                    .iter()
                    .filter(|(k, _)| *k == key)
                    .map(|(_, v)| v.clone())
                    .collect();
                task = task.step(TaskEvent::Records(values));
            }
            TaskAction::FetchBlock { identifier } => {
                *operations += 1;
                let block = blocks
                    .iter()
                    .find(|(id, _)| *id == identifier)
                    .map(|(_, b)| b.clone());
                task = task.step(TaskEvent::Block(block));
            }
            TaskAction::Stop => return task,
        }
    }
}

fn run_batch(
    peers: usize,
    block_number: u64,
    positions: &Vec<Position>,
    records: &Table,
    blocks: &Table,
) -> (Vec<Cell>, Vec<Position>, usize) {
    let mut operations = 0;
    match start_batch(peers, block_number, positions) {
        Batch::NoPeers { unfetched } => (vec![], unfetched, operations),
        Batch::Started { tasks } => {
            let done = tasks
                .into_iter()
                .map(|task| run_task(task, records, blocks, &mut operations))
                .collect();
            let (fetched, unfetched) = finish_batch(done);
            (fetched, unfetched, operations)
        }
    }
}

fn at(row: u32, col: u16) -> Position {
    Position { row, col }
}

#[test]
fn record_and_block_present_gives_the_cell() {
    let records = vec![(b"10:2:5".to_vec(), identifier(1))];
    let blocks = vec![(identifier(1), content(7))];
    let (fetched, unfetched, operations) = run_batch(1, 10, &vec![at(2, 5)], &records, &blocks);
    assert_eq!(fetched, vec![Cell { position: at(2, 5), content: content(7) }]);
    assert_eq!(unfetched, vec![]);
    assert_eq!(operations, 2);
}

#[test]
fn missing_record_leaves_the_position_unfetched() {
    let records: Table = vec![];
    let blocks = vec![(identifier(1), content(7))];
    let (fetched, unfetched, operations) = run_batch(1, 10, &vec![at(2, 5)], &records, &blocks);
    assert_eq!(fetched, vec![]);
    assert_eq!(unfetched, vec![at(2, 5)]);
    assert_eq!(operations, 1);
}

#[test]
fn record_of_another_block_does_not_count() {
    let records = vec![(b"11:2:5".to_vec(), identifier(1))];
    let blocks = vec![(identifier(1), content(7))];
    let (fetched, unfetched, _) = run_batch(1, 10, &vec![at(2, 5)], &records, &blocks);
    assert_eq!(fetched, vec![]);
    assert_eq!(unfetched, vec![at(2, 5)]);
}

#[test]
fn unserved_block_leaves_the_position_unfetched() {
    let records = vec![(b"10:2:5".to_vec(), identifier(1))];
    let blocks: Table = vec![];
    let (fetched, unfetched, operations) = run_batch(1, 10, &vec![at(2, 5)], &records, &blocks);
    assert_eq!(fetched, vec![]);
    assert_eq!(unfetched, vec![at(2, 5)]);
    assert_eq!(operations, 2);
}

#[test]
fn five_positions_three_fetched_two_missing() {
    let positions = vec![at(0, 0), at(0, 1), at(1, 0), at(1, 1), at(2, 2)];
    let records = vec![
        (b"42:0:0".to_vec(), identifier(1)),
        (b"42:1:0".to_vec(), identifier(2)),
        (b"42:1:1".to_vec(), identifier(3)),
        (b"42:2:2".to_vec(), identifier(4)),
    ];
    let blocks = vec![
        (identifier(1), content(1)),
        (identifier(2), content(2)),
        (identifier(3), content(3)),
    ];
    let (fetched, unfetched, _) = run_batch(3, 42, &positions, &records, &blocks);
    assert_eq!(fetched.len(), 3);
    assert_eq!(unfetched.len(), 2);
    assert_eq!(
        fetched,
        vec![
            Cell { position: at(0, 0), content: content(1) },
            Cell { position: at(1, 0), content: content(2) },
            Cell { position: at(1, 1), content: content(3) },
        ]
    );
    assert_eq!(unfetched, vec![at(0, 1), at(2, 2)]);
    let mut all: Vec<Position> = fetched.iter().map(|cell| cell.position).collect();
    all.extend(unfetched.iter().copied());
    all.sort();
    let mut expected = positions.clone();
    expected.sort();
    assert_eq!(all, expected);
}

#[test]
fn no_peers_means_no_operation_and_all_unfetched() {
    let positions = vec![at(2, 5), at(3, 1), at(2, 5)];
    let records = vec![(b"10:2:5".to_vec(), identifier(1))];
    let blocks = vec![(identifier(1), content(7))];
    let (fetched, unfetched, operations) = run_batch(0, 10, &positions, &records, &blocks);
    assert_eq!(fetched, vec![]);
    assert_eq!(unfetched, positions);
    assert_eq!(operations, 0);
    assert!(matches!(start_batch(0, 10, &positions), Batch::NoPeers { .. }));
}

#[test]
fn empty_request_gives_two_empty_parts() {
    let (fetched, unfetched, operations) = run_batch(4, 10, &vec![], &vec![], &vec![]);
    assert_eq!(fetched, vec![]);
    assert_eq!(unfetched, vec![]);
    assert_eq!(operations, 0);
    let (fetched, unfetched, _) = run_batch(0, 10, &vec![], &vec![], &vec![]);
    assert_eq!(fetched, vec![]);
    assert_eq!(unfetched, vec![]);
}

#[test]
fn duplicates_are_processed_one_by_one() {
    let positions = vec![at(2, 5), at(9, 9), at(2, 5)];
    let records = vec![(b"10:2:5".to_vec(), identifier(1))];
    let blocks = vec![(identifier(1), content(7))];
    let (fetched, unfetched, operations) = run_batch(1, 10, &positions, &records, &blocks);
    let cell = Cell { position: at(2, 5), content: content(7) };
    assert_eq!(fetched, vec![cell.clone(), cell]);
    assert_eq!(unfetched, vec![at(9, 9)]);
    assert_eq!(fetched.len() + unfetched.len(), positions.len());
    assert_eq!(operations, 5);
    for cell in fetched.iter() {
        assert!(!unfetched.contains(&cell.position));
    }
}

#[test]
fn block_of_wrong_length_is_never_fetched() {
    let positions = vec![at(1, 1), at(1, 2), at(1, 3), at(1, 4)];
    let records = vec![
        (b"7:1:1".to_vec(), identifier(1)),
        (b"7:1:2".to_vec(), identifier(2)),
        (b"7:1:3".to_vec(), identifier(3)),
        (b"7:1:4".to_vec(), identifier(4)),
    ];
    let blocks = vec![
        (identifier(1), vec![1; CELL_SIZE - 1]),
        (identifier(2), vec![2; CELL_SIZE + 1]),
        (identifier(3), vec![]),
        (identifier(4), vec![4; CELL_SIZE]),
    ];
    let (fetched, unfetched, _) = run_batch(2, 7, &positions, &records, &blocks);
    assert_eq!(fetched, vec![Cell { position: at(1, 4), content: vec![4; CELL_SIZE] }]);
    assert_eq!(unfetched, vec![at(1, 1), at(1, 2), at(1, 3)]);
}

#[test]
fn started_batch_has_one_resolving_task_per_position() {
    let positions = vec![at(4, 4), at(5, 5)];
    match start_batch(1, 99, &positions) {
        Batch::Started { tasks } => {
            assert_eq!(tasks.len(), 2);
            for (task, position) in tasks.iter().zip(positions.iter()) {
                assert_eq!(task.block_number, 99);
                assert_eq!(task.position, *position);
                assert!(matches!(task.stage, Stage::Resolving));
            }
        }
        Batch::NoPeers { .. } => panic!("a peer is known"),
    }
}

#[test]
fn unfinished_tasks_count_as_unfetched() {
    let waiting = CellTask::new(1, at(0, 0));
    let fetching = CellTask::new(1, at(0, 1)).step(TaskEvent::Records(vec![identifier(5)]));
    assert!(matches!(fetching.stage, Stage::Fetching { .. }));
    let failed = CellTask::new(1, at(0, 2)).step(TaskEvent::Records(vec![]));
    assert!(matches!(failed.stage, Stage::Finished(Err(RetrievalError::RecordNotFound))));
    let (fetched, unfetched) = finish_batch(vec![waiting, fetching, failed]);
    assert_eq!(fetched, vec![]);
    assert_eq!(unfetched, vec![at(0, 0), at(0, 1), at(0, 2)]);
}
