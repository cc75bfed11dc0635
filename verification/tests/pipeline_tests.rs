use std::collections::{BTreeMap, VecDeque};

use mtg_image_downloader::card::{Card, CardImages};
use mtg_image_downloader::error::{DownloadError, PipelineError, UnexpectedEvent};
use mtg_image_downloader::observer::{
    relay_progress, ObserverAction, ObserverEvent, ProgressObserver,
};
use mtg_image_downloader::pipeline::{
    download_images, JoinOutcome, Pipeline, PipelineAction, PipelineEvent, PipelinePhase,
};
use mtg_image_downloader::progress::DownloadProgress;
use mtg_image_downloader::transfer::{ItemOutcome, TransferAction, TransferEvent};
use mtg_image_downloader::worker::{
    download_images_task, Worker, WorkerAction, WorkerEvent, WorkerExit,
};

fn card(id: &str, name: &str, url: Option<&str>) -> Card {
    Card::new(
        id.to_string(),
        name.to_string(),
        url.map(|u| CardImages::new(u.to_string())),
    )
}

/// What a server answers to a request.
#[derive(Clone)]
struct Response {
    status: u16,
    content_length: Option<u64>,
    chunks: Vec<Vec<u8>>,
    /// Whether the body breaks off after its chunks.
    breaks_off: bool,
}

fn body(bytes: &[u8], chunk: usize) -> Response {
    Response {
        status: 200,
        content_length: Some(bytes.len() as u64),
        chunks: bytes.chunks(chunk).map(|c| c.to_vec()).collect(),
        breaks_off: false,
    }
}

/// A network and a disk in memory. An address without a response fails.
struct World {
    responses: BTreeMap<String, Response>,
    files: BTreeMap<String, Vec<u8>>,
    read_only: Vec<String>,
}

impl World {
    fn new() -> World {
        World { responses: BTreeMap::new(), files: BTreeMap::new(), read_only: Vec::new() }
    }
}

/// One worker task with its channel and its observer.
struct Task {
    worker: Worker,
    action: WorkerAction,
    chunks: VecDeque<Vec<u8>>,
    breaks_off: bool,
    open: Option<String>,
    channel: VecDeque<DownloadProgress>,
    channel_closed: bool,
    sent: Vec<DownloadProgress>,
    settled: Vec<ItemOutcome>,
    exit: Option<WorkerExit>,
    observer: ProgressObserver,
    observer_stopped: bool,
    shown: Vec<DownloadProgress>,
}

struct Pool {
    queue: VecDeque<Card>,
    closed: bool,
    tasks: Vec<Task>,
}

fn spawn(dir: &str) -> Task {
    let mut worker = Worker::new(dir.to_string());
    let action = download_images_task(&mut worker, WorkerEvent::Start).unwrap();
    let mut observer = ProgressObserver::new();
    assert_eq!(relay_progress(&mut observer, ObserverEvent::Start), Ok(ObserverAction::Receive));
    Task {
        worker,
        action,
        chunks: VecDeque::new(),
        breaks_off: false,
        open: None,
        channel: VecDeque::new(),
        channel_closed: false,
        sent: Vec::new(),
        settled: Vec::new(),
        exit: None,
        observer,
        observer_stopped: false,
        shown: Vec::new(),
    }
}

/// Performs the action a worker waits for, if it can be performed now.
fn work(task: &mut Task, queue: &mut VecDeque<Card>, closed: bool, world: &mut World) {
    if task.exit.is_some() {
        return;
    }
    let event = match &task.action {
        WorkerAction::Receive => match queue.pop_front() {
            Some(card) => WorkerEvent::Received(card),
            None if closed => WorkerEvent::QueueClosed,
            None => return,
        },
        WorkerAction::Settle(outcome) => {
            task.settled.push(*outcome);
            task.open = None;
            WorkerEvent::Settled
        }
        WorkerAction::Stop(exit) => {
            task.exit = Some(*exit);
            task.open = None;
            task.channel_closed = true;
            return;
        }
        WorkerAction::Item(action) => WorkerEvent::Item(match action {
            TransferAction::Fetch { url } => match world.responses.get(url) {
                Some(response) => {
                    task.chunks = response.chunks.iter().cloned().collect();
                    task.breaks_off = response.breaks_off;
                    TransferEvent::Responded {
                        status: response.status,
                        content_length: response.content_length,
                    }
                }
                None => TransferEvent::FetchFailed,
            },
            TransferAction::Emit(progress) => {
                task.sent.push(progress.clone());
                task.channel.push_back(progress.clone());
                TransferEvent::Emitted
            }
            TransferAction::CreateFile { path } => {
                if world.read_only.contains(path) {
                    TransferEvent::FileFailed
                } else {
                    world.files.insert(path.clone(), Vec::new());
                    task.open = Some(path.clone());
                    TransferEvent::FileCreated
                }
            }
            TransferAction::ReadChunk => match task.chunks.pop_front() {
                Some(chunk) => TransferEvent::Chunk(chunk),
                None if task.breaks_off => TransferEvent::StreamFailed,
                None => TransferEvent::StreamEnded,
            },
            TransferAction::WriteChunk(bytes) => {
                let path = task.open.clone().expect("a chunk is written to an open file");
                world.files.get_mut(&path).unwrap().extend_from_slice(bytes);
                TransferEvent::Written
            }
            TransferAction::CloseFile => {
                task.open = None;
                TransferEvent::FileClosed
            }
            TransferAction::Finish(_) => unreachable!("a worker settles or stops instead"),
        }),
    };
    task.action = download_images_task(&mut task.worker, event).unwrap();
}

/// Lets an observer take one event off its channel, if there is one.
fn observe(task: &mut Task) {
    if task.observer_stopped {
        return;
    }
    match task.channel.pop_front() {
        Some(progress) => {
            match relay_progress(&mut task.observer, ObserverEvent::Received(progress)) {
                Ok(ObserverAction::Forward(p)) => task.shown.push(p),
                other => panic!("expected a forward, got {:?}", other),
            }
            assert_eq!(
                relay_progress(&mut task.observer, ObserverEvent::Forwarded),
                Ok(ObserverAction::Receive)
            );
        }
        None if task.channel_closed => {
            assert_eq!(
                relay_progress(&mut task.observer, ObserverEvent::SourceClosed),
                Ok(ObserverAction::Stop)
            );
            task.observer_stopped = true;
        }
        None => {}
    }
}

/// Gives every task one turn, and checks that no two workers have the same
/// file open.
fn turn(pool: &mut Pool, world: &mut World) {
    for i in 0..pool.tasks.len() {
        work(&mut pool.tasks[i], &mut pool.queue, pool.closed, world);
        observe(&mut pool.tasks[i]);
        for a in 0..pool.tasks.len() {
            for b in 0..a {
                if let (Some(x), Some(y)) = (&pool.tasks[a].open, &pool.tasks[b].open) {
                    assert_ne!(x, y, "two workers have the same file open");
                }
            }
        }
    }
}

/// Runs the pipeline over `cards` with `pool_size` workers, performing each
/// action it asks for. The workers take turns while the pipeline feeds the
/// queue and until the last of them has stopped.
fn run(
    cards: Vec<Card>,
    pool_size: usize,
    world: &mut World,
) -> (Result<(), PipelineError>, Pool) {
    let mut pipeline = Pipeline::new(cards, pool_size).expect("the pool is not empty");
    let mut pool = Pool { queue: VecDeque::new(), closed: false, tasks: Vec::new() };
    let mut action = download_images(&mut pipeline, PipelineEvent::Start).unwrap();
    loop {
        let event = match action {
            PipelineAction::SpawnPair { index } => {
                assert_eq!(index, pool.tasks.len());
                pool.tasks.push(spawn("./images"));
                PipelineEvent::Spawned
            }
            PipelineAction::Enqueue(card) => {
                assert!(!pool.closed);
                pool.queue.push_back(card);
                turn(&mut pool, world);
                PipelineEvent::Enqueued
            }
            PipelineAction::CloseQueue => {
                pool.closed = true;
                PipelineEvent::QueueClosed
            }
            PipelineAction::JoinWorker { index } => {
                let mut turns = 0;
                while pool.tasks[index].exit.is_none() {
                    turn(&mut pool, world);
                    turns += 1;
                    assert!(turns < 100_000, "the worker does not stop");
                }
                PipelineEvent::WorkerJoined(JoinOutcome::Exited(pool.tasks[index].exit.unwrap()))
            }
            PipelineAction::JoinObserver { index } => {
                let mut turns = 0;
                while !pool.tasks[index].observer_stopped {
                    observe(&mut pool.tasks[index]);
                    turns += 1;
                    assert!(turns < 100_000, "the observer does not stop");
                }
                PipelineEvent::ObserverJoined
            }
            PipelineAction::Return(result) => {
                assert_eq!(pipeline.phase(), PipelinePhase::Finished);
                return (result, pool);
            }
        };
        action = download_images(&mut pipeline, event).unwrap();
    }
}

/// Whether a stream is a run of groups, each an announcement followed by byte
/// counts of the same total that never fall and never pass it.
fn is_well_formed(stream: &[DownloadProgress]) -> bool {
    let mut current: Option<(u64, u64)> = None;
    for progress in stream {
        match progress {
            DownloadProgress::NewDownload(_, total) => current = Some((0, *total)),
            DownloadProgress::Bytes(done, total) => match current {
                Some((before, announced)) => {
                    if *total != announced || *done < before || *done > *total {
                        return false;
                    }
                    current = Some((*done, announced));
                }
                None => return false,
            },
        }
    }
    true
}

fn outcomes(pool: &Pool) -> Vec<ItemOutcome> {
    pool.tasks.iter().flat_map(|t| t.settled.iter().copied()).collect()
}

fn count(pool: &Pool, outcome: ItemOutcome) -> usize {
    outcomes(pool).iter().filter(|o| **o == outcome).count()
}

#[test]
fn empty_pool_is_refused() {
    assert!(Pipeline::new(vec![card("1", "A", None)], 0).is_none());
    assert!(Pipeline::new(Vec::new(), 0).is_none());
    assert!(Pipeline::new(Vec::new(), 1).is_some());
}

#[test]
fn new_pipeline_holds_all_cards() {
    let p = Pipeline::new(vec![card("1", "A", None), card("2", "B", None)], 3).unwrap();
    assert_eq!(p.phase(), PipelinePhase::Idle);
    assert_eq!(p.pool_size(), 3);
    assert_eq!(p.remaining(), 2);
}

#[test]
fn pipeline_keeps_to_its_plan() {
    let cards = vec![card("1", "A", None), card("2", "B", Some("u")), card("3", "C", None)];
    let mut p = Pipeline::new(cards.clone(), 2).unwrap();
    let events = vec![
        PipelineEvent::Start,
        PipelineEvent::Spawned,
        PipelineEvent::Spawned,
        PipelineEvent::Enqueued,
        PipelineEvent::Enqueued,
        PipelineEvent::Enqueued,
        PipelineEvent::QueueClosed,
        PipelineEvent::WorkerJoined(JoinOutcome::Exited(WorkerExit::Drained)),
        PipelineEvent::WorkerJoined(JoinOutcome::Exited(WorkerExit::Drained)),
        PipelineEvent::ObserverJoined,
        PipelineEvent::ObserverJoined,
    ];
    let plan = vec![
        PipelineAction::SpawnPair { index: 0 },
        PipelineAction::SpawnPair { index: 1 },
        PipelineAction::Enqueue(cards[0].clone()),
        PipelineAction::Enqueue(cards[1].clone()),
        PipelineAction::Enqueue(cards[2].clone()),
        PipelineAction::CloseQueue,
        PipelineAction::JoinWorker { index: 0 },
        PipelineAction::JoinWorker { index: 1 },
        PipelineAction::JoinObserver { index: 0 },
        PipelineAction::JoinObserver { index: 1 },
        PipelineAction::Return(Ok(())),
    ];
    assert_eq!(plan.len(), 3 * 2 + 3 + 2);
    let mut actions = Vec::new();
    for event in events {
        actions.push(download_images(&mut p, event).unwrap());
    }
    assert_eq!(actions, plan);
    assert_eq!(p.phase(), PipelinePhase::Finished);
    assert_eq!(p.remaining(), 0);
}

#[test]
fn pipeline_without_cards_closes_the_queue_at_once() {
    let mut p = Pipeline::new(Vec::new(), 1).unwrap();
    assert_eq!(
        download_images(&mut p, PipelineEvent::Start),
        Ok(PipelineAction::SpawnPair { index: 0 })
    );
    assert_eq!(download_images(&mut p, PipelineEvent::Spawned), Ok(PipelineAction::CloseQueue));
    assert_eq!(
        download_images(&mut p, PipelineEvent::QueueClosed),
        Ok(PipelineAction::JoinWorker { index: 0 })
    );
    assert_eq!(
        download_images(&mut p, PipelineEvent::WorkerJoined(JoinOutcome::Exited(WorkerExit::Drained))),
        Ok(PipelineAction::JoinObserver { index: 0 })
    );
    assert_eq!(
        download_images(&mut p, PipelineEvent::ObserverJoined),
        Ok(PipelineAction::Return(Ok(())))
    );
}

#[test]
fn worker_fault_is_returned_as_an_error() {
    let mut p = Pipeline::new(vec![card("1", "A", None)], 3).unwrap();
    for event in vec![
        PipelineEvent::Start,
        PipelineEvent::Spawned,
        PipelineEvent::Spawned,
        PipelineEvent::Spawned,
        PipelineEvent::Enqueued,
        PipelineEvent::QueueClosed,
        PipelineEvent::WorkerJoined(JoinOutcome::Exited(WorkerExit::Drained)),
        PipelineEvent::WorkerJoined(JoinOutcome::Panicked),
        PipelineEvent::WorkerJoined(JoinOutcome::Exited(WorkerExit::Drained)),
        PipelineEvent::ObserverJoined,
        PipelineEvent::ObserverJoined,
    ] {
        let action = download_images(&mut p, event).unwrap();
        assert!(!matches!(action, PipelineAction::Return(_)));
    }
    assert_eq!(
        download_images(&mut p, PipelineEvent::ObserverJoined),
        Ok(PipelineAction::Return(Err(PipelineError::WorkerPanicked)))
    );
}

#[test]
fn pipeline_refuses_what_it_does_not_wait_for() {
    let mut p = Pipeline::new(vec![card("1", "A", None)], 1).unwrap();
    assert_eq!(download_images(&mut p, PipelineEvent::Spawned), Err(UnexpectedEvent {}));
    assert_eq!(p.phase(), PipelinePhase::Idle);
    download_images(&mut p, PipelineEvent::Start).unwrap();
    assert_eq!(download_images(&mut p, PipelineEvent::Start), Err(UnexpectedEvent {}));
    assert_eq!(download_images(&mut p, PipelineEvent::Enqueued), Err(UnexpectedEvent {}));
    assert_eq!(p.phase(), PipelinePhase::Spawning { index: 0 });
    assert_eq!(p.remaining(), 1);
    download_images(&mut p, PipelineEvent::Spawned).unwrap();
    assert_eq!(p.phase(), PipelinePhase::Feeding);
    assert_eq!(download_images(&mut p, PipelineEvent::QueueClosed), Err(UnexpectedEvent {}));
    assert_eq!(
        download_images(&mut p, PipelineEvent::WorkerJoined(JoinOutcome::Panicked)),
        Err(UnexpectedEvent {})
    );
    download_images(&mut p, PipelineEvent::Enqueued).unwrap();
    download_images(&mut p, PipelineEvent::QueueClosed).unwrap();
    assert_eq!(download_images(&mut p, PipelineEvent::ObserverJoined), Err(UnexpectedEvent {}));
    download_images(&mut p, PipelineEvent::WorkerJoined(JoinOutcome::Exited(WorkerExit::Drained))).unwrap();
    download_images(&mut p, PipelineEvent::ObserverJoined).unwrap();
    for event in vec![
        PipelineEvent::Start,
        PipelineEvent::Spawned,
        PipelineEvent::Enqueued,
        PipelineEvent::QueueClosed,
        PipelineEvent::WorkerJoined(JoinOutcome::Exited(WorkerExit::Drained)),
        PipelineEvent::ObserverJoined,
    ] {
        assert_eq!(download_images(&mut p, event), Err(UnexpectedEvent {}));
        assert_eq!(p.phase(), PipelinePhase::Finished);
    }
}

#[test]
fn one_image_and_one_card_without_image() {
    let mut world = World::new();
    world.responses.insert("http://x/a.png".to_string(), body(&[7; 10], 4));
    let cards = vec![card("1", "A", Some("http://x/a.png")), card("2", "B", None)];
    let (result, pool) = run(cards, 2, &mut world);
    assert_eq!(result, Ok(()));
    assert_eq!(world.files.len(), 1);
    assert_eq!(world.files.get("./images/1.png"), Some(&vec![7u8; 10]));
    assert_eq!(count(&pool, ItemOutcome::Completed), 1);
    assert_eq!(count(&pool, ItemOutcome::Skipped), 1);
    assert_eq!(outcomes(&pool).len(), 2);
    let streams: Vec<&Vec<DownloadProgress>> =
        pool.tasks.iter().map(|t| &t.sent).filter(|s| !s.is_empty()).collect();
    assert_eq!(streams.len(), 1);
    assert_eq!(
        streams[0],
        &vec![
            DownloadProgress::NewDownload("A".to_string(), 10),
            DownloadProgress::Bytes(4, 10),
            DownloadProgress::Bytes(8, 10),
            DownloadProgress::Bytes(10, 10),
        ]
    );
    for task in pool.tasks.iter() {
        assert_eq!(task.shown, task.sent);
        assert_eq!(task.exit, Some(WorkerExit::Drained));
    }
}

#[test]
fn network_error_of_one_card_leaves_the_others_alone() {
    let mut world = World::new();
    for id in ["1", "2", "4", "5"] {
        world.responses.insert(format!("http://x/{id}.png"), body(id.as_bytes(), 1));
    }
    let cards: Vec<Card> = ["1", "2", "3", "4", "5"]
        .iter()
        .map(|id| card(id, id, Some(&format!("http://x/{id}.png"))))
        .collect();
    let (result, pool) = run(cards, 2, &mut world);
    assert_eq!(result, Ok(()));
    assert_eq!(count(&pool, ItemOutcome::Completed), 4);
    assert_eq!(count(&pool, ItemOutcome::Abandoned(DownloadError::Network)), 1);
    assert_eq!(world.files.len(), 4);
    assert!(!world.files.contains_key("./images/3.png"));
    for id in ["1", "2", "4", "5"] {
        assert_eq!(world.files.get(&format!("./images/{id}.png")), Some(&id.as_bytes().to_vec()));
    }
    for task in pool.tasks.iter() {
        assert_eq!(task.exit, Some(WorkerExit::Drained));
    }
}

#[test]
fn single_worker_works_off_fifty_cards_one_by_one() {
    let mut world = World::new();
    let mut cards = Vec::new();
    for i in 0..50u8 {
        let url = format!("http://x/{i}.png");
        world.responses.insert(url.clone(), body(&vec![i; i as usize + 1], 7));
        cards.push(card(&format!("{i}"), &format!("Card {i}"), Some(&url)));
    }
    let (result, pool) = run(cards, 1, &mut world);
    assert_eq!(result, Ok(()));
    assert_eq!(pool.tasks.len(), 1);
    assert_eq!(pool.tasks[0].settled, vec![ItemOutcome::Completed; 50]);
    assert_eq!(world.files.len(), 50);
    for i in 0..50u8 {
        assert_eq!(world.files.get(&format!("./images/{i}.png")), Some(&vec![i; i as usize + 1]));
    }
    // One worker takes the cards in the order given.
    let names: Vec<String> = pool.tasks[0]
        .sent
        .iter()
        .filter_map(|p| match p {
            DownloadProgress::NewDownload(name, _) => Some(name.clone()),
            _ => None,
        })
        .collect();
    let expected: Vec<String> = (0..50).map(|i| format!("Card {i}")).collect();
    assert_eq!(names, expected);
    assert!(is_well_formed(&pool.tasks[0].sent));
}

#[test]
fn second_run_overwrites_with_the_same_content() {
    let mut world = World::new();
    let mut cards = Vec::new();
    for i in 0..6u8 {
        let url = format!("http://x/{i}.png");
        world.responses.insert(url.clone(), body(&vec![i; 20], 8));
        cards.push(card(&format!("{i}"), "card", Some(&url)));
    }
    // What an earlier, broken run has left: longer than the image.
    world.files.insert("./images/0.png".to_string(), vec![255; 64]);
    world.files.insert("./images/other.txt".to_string(), vec![1, 2, 3]);
    let (first, _) = run(cards.clone(), 3, &mut world);
    assert_eq!(first, Ok(()));
    let after_first = world.files.clone();
    assert_eq!(after_first.get("./images/0.png"), Some(&vec![0u8; 20]));
    assert_eq!(after_first.get("./images/other.txt"), Some(&vec![1u8, 2, 3]));
    assert_eq!(after_first.len(), 7);
    let (second, _) = run(cards, 3, &mut world);
    assert_eq!(second, Ok(()));
    assert_eq!(world.files, after_first);
}

#[test]
fn every_card_has_an_outcome_whatever_the_pool_size() {
    for pool_size in [1usize, 2, 3, 8, 40] {
        let mut world = World::new();
        let mut cards = Vec::new();
        for i in 0..30u8 {
            let url = format!("http://x/{i}.png");
            match i % 5 {
                0 => cards.push(card(&format!("{i}"), "none", None)),
                1 => cards.push(card(&format!("{i}"), "gone", Some(&url))),
                2 => {
                    world.responses.insert(
                        url.clone(),
                        Response {
                            status: 200,
                            content_length: None,
                            chunks: vec![vec![1]],
                            breaks_off: false,
                        },
                    );
                    cards.push(card(&format!("{i}"), "unsized", Some(&url)));
                }
                3 => {
                    world.responses.insert(
                        url.clone(),
                        Response {
                            status: 200,
                            content_length: Some(9),
                            chunks: vec![vec![1, 2]],
                            breaks_off: true,
                        },
                    );
                    cards.push(card(&format!("{i}"), "broken", Some(&url)));
                }
                _ => {
                    world.responses.insert(url.clone(), body(&[i; 9], 2));
                    cards.push(card(&format!("{i}"), "fine", Some(&url)));
                }
            }
        }
        world.read_only.push("./images/4.png".to_string());
        let (result, pool) = run(cards, pool_size, &mut world);
        assert_eq!(result, Ok(()));
        assert_eq!(pool.tasks.len(), pool_size);
        assert_eq!(outcomes(&pool).len(), 30);
        assert_eq!(count(&pool, ItemOutcome::Skipped), 6);
        assert_eq!(count(&pool, ItemOutcome::Abandoned(DownloadError::Network)), 6);
        assert_eq!(count(&pool, ItemOutcome::Abandoned(DownloadError::MissingLength)), 6);
        assert_eq!(count(&pool, ItemOutcome::Abandoned(DownloadError::Stream)), 6);
        assert_eq!(count(&pool, ItemOutcome::Abandoned(DownloadError::FileIo)), 1);
        assert_eq!(count(&pool, ItemOutcome::Completed), 5);
        // A broken body leaves its file as far as it was written.
        assert_eq!(world.files.get("./images/3.png"), Some(&vec![1u8, 2]));
        assert_eq!(world.files.get("./images/9.png"), Some(&vec![9u8; 9]));
        assert!(!world.files.contains_key("./images/4.png"));
        assert_eq!(world.files.len(), 5 + 6);
        for task in pool.tasks.iter() {
            assert!(is_well_formed(&task.sent));
            assert_eq!(task.shown, task.sent);
            assert_eq!(task.exit, Some(WorkerExit::Drained));
        }
    }
}

#[test]
fn cards_without_image_leave_no_event_and_no_file() {
    let mut world = World::new();
    let cards: Vec<Card> = (0..10).map(|i| card(&format!("{i}"), "none", None)).collect();
    let (result, pool) = run(cards, 4, &mut world);
    assert_eq!(result, Ok(()));
    assert!(world.files.is_empty());
    assert_eq!(outcomes(&pool), vec![ItemOutcome::Skipped; 10]);
    for task in pool.tasks.iter() {
        assert!(task.sent.is_empty());
        assert!(task.shown.is_empty());
    }
}

#[test]
fn last_byte_count_of_a_completed_download_is_the_total() {
    let mut world = World::new();
    world.responses.insert("http://x/a.png".to_string(), body(&[1; 1000], 333));
    world.responses.insert("http://x/b.png".to_string(), body(&[2; 5], 5));
    let cards = vec![
        card("a", "A", Some("http://x/a.png")),
        card("b", "B", Some("http://x/b.png")),
    ];
    let (_, pool) = run(cards, 1, &mut world);
    assert_eq!(
        pool.tasks[0].sent,
        vec![
            DownloadProgress::NewDownload("A".to_string(), 1000),
            DownloadProgress::Bytes(333, 1000),
            DownloadProgress::Bytes(666, 1000),
            DownloadProgress::Bytes(999, 1000),
            DownloadProgress::Bytes(1000, 1000),
            DownloadProgress::NewDownload("B".to_string(), 5),
            DownloadProgress::Bytes(5, 5),
        ]
    );
}

#[test]
fn worker_that_lost_its_observer_is_no_fault() {
    let mut p = Pipeline::new(Vec::new(), 2).unwrap();
    for event in vec![
        PipelineEvent::Start,
        PipelineEvent::Spawned,
        PipelineEvent::Spawned,
        PipelineEvent::QueueClosed,
        PipelineEvent::WorkerJoined(JoinOutcome::Exited(WorkerExit::SinkClosed)),
        PipelineEvent::WorkerJoined(JoinOutcome::Exited(WorkerExit::Drained)),
        PipelineEvent::ObserverJoined,
    ] {
        download_images(&mut p, event).unwrap();
    }
    assert_eq!(
        download_images(&mut p, PipelineEvent::ObserverJoined),
        Ok(PipelineAction::Return(Ok(())))
    );
}

#[test]
fn refused_request_is_a_network_error_and_leaves_no_file() {
    let mut world = World::new();
    world.responses.insert(
        "http://x/1.png".to_string(),
        Response {
            status: 404,
            content_length: Some(3),
            chunks: vec![vec![1, 2, 3]],
            breaks_off: false,
        },
    );
    let (result, pool) = run(vec![card("1", "A", Some("http://x/1.png"))], 2, &mut world);
    assert_eq!(result, Ok(()));
    assert_eq!(outcomes(&pool), vec![ItemOutcome::Abandoned(DownloadError::Network)]);
    assert!(world.files.is_empty());
    for task in pool.tasks.iter() {
        assert!(task.sent.is_empty());
    }
}
