use glowrs::error::EmbedError;
use glowrs::handler::RequestHandler;
use glowrs::queue::{conclude, serve, Queue, QueueCommand, QueueEntry, Served};
use glowrs::worker::{StopCause, WorkerState};
use tokio::sync::mpsc::error::TryRecvError;
use tokio::sync::oneshot;

#[derive(Debug, PartialEq)]
struct Task {
    name: String,
}

impl Task {
    fn new(name: String) -> Self {
        Self { name }
    }
}

struct TaskProcessor;

impl TaskProcessor {
    fn new() -> Result<Self, EmbedError> {
        Ok(Self)
    }
}

impl RequestHandler for TaskProcessor {
    type TReq = Task;
    type TResp = Task;

    fn handle(&mut self, request: Task) -> Result<Task, EmbedError> {
        let new_name = format!("{}-processed", request.name);
        Ok(Task::new(new_name))
    }
}

/// Numbers the requests in the order in which it handles them, and fails on
/// the request 13.
struct Counter {
    seen: Vec<u32>,
}

impl RequestHandler for Counter {
    type TReq = u32;
    type TResp = (usize, u32);

    fn handle(&mut self, request: u32) -> Result<(usize, u32), EmbedError> {
        if request == 13 {
            return Err(EmbedError::Compute);
        }
        self.seen.push(request);
        Ok((self.seen.len(), request))
    }
}

#[test]
fn test_queue() {
    // Create a new processor
    let mut processor = TaskProcessor::new().unwrap();

    // Create a new queue
    let (queue, mut commands): (Queue<TaskProcessor>, _) = Queue::channel();

    // Set a task name
    let name = "test".to_string();

    // Create a new task
    let task = Task::new(name.clone());

    // Send the task to the queue
    let (task_tx, task_rx) = oneshot::channel();
    queue.append(QueueEntry::new(task, task_tx)).unwrap();

    // The worker's turn
    let mut state = WorkerState::Waiting;
    let served = serve(&mut state, &mut processor, commands.blocking_recv());
    assert_eq!(served, Served::Replied { delivered: true });

    // Wait for the response
    let response = task_rx.blocking_recv().unwrap();
    assert_eq!(response, Task::new(format!("{}-processed", name).to_string()));
}

#[test]
fn submit_returns_the_slot_of_the_response() {
    let mut processor = TaskProcessor;
    let (queue, mut commands): (Queue<TaskProcessor>, _) = Queue::channel();
    let slot = queue.submit(Task::new("a".to_string())).unwrap();
    let mut state = WorkerState::Waiting;
    let served = serve(&mut state, &mut processor, commands.blocking_recv());
    assert_eq!(served, Served::Replied { delivered: true });
    assert_eq!(state, WorkerState::Waiting);
    assert_eq!(slot.blocking_recv().unwrap(), Task::new("a-processed".to_string()));
}

#[test]
fn entries_are_handled_in_the_order_of_submission() {
    let mut processor = Counter { seen: Vec::new() };
    let (queue, mut commands): (Queue<Counter>, _) = Queue::channel();
    let other = queue.clone();
    let a = queue.submit(7).unwrap();
    let b = other.submit(5).unwrap();
    let c = queue.submit(9).unwrap();
    let mut state = WorkerState::Waiting;
    for _ in 0..3 {
        let served = serve(&mut state, &mut processor, commands.blocking_recv());
        assert_eq!(served, Served::Replied { delivered: true });
    }
    assert_eq!(processor.seen, vec![7, 5, 9]);
    assert_eq!(a.blocking_recv().unwrap(), (1, 7));
    assert_eq!(b.blocking_recv().unwrap(), (2, 5));
    assert_eq!(c.blocking_recv().unwrap(), (3, 9));
}

#[test]
fn stop_takes_effect_after_the_entries_before_it() {
    let mut processor = Counter { seen: Vec::new() };
    let (queue, mut commands): (Queue<Counter>, _) = Queue::channel();
    let slots: Vec<_> = (0..4).map(|i| queue.submit(i).unwrap()).collect();
    queue.shutdown().unwrap();
    let late = queue.submit(99).unwrap();
    let mut state = WorkerState::Waiting;
    let mut served = Vec::new();
    while state == WorkerState::Waiting {
        served.push(serve(&mut state, &mut processor, commands.blocking_recv()));
    }
    assert_eq!(state, WorkerState::Stopped(StopCause::Requested));
    assert_eq!(served.len(), 5);
    assert_eq!(served[4], Served::Finished);
    assert_eq!(processor.seen, vec![0, 1, 2, 3]);
    for (i, slot) in slots.into_iter().enumerate() {
        assert_eq!(slot.blocking_recv().unwrap(), (i + 1, i as u32));
    }
    // The worker closes its channel when it stops; what was sent after the
    // stop is never handled.
    drop(commands);
    assert!(late.blocking_recv().is_err());
    assert_eq!(queue.submit(100).err(), Some(EmbedError::Delivery));
}

#[test]
fn an_abandoned_reply_does_not_stop_the_worker() {
    let mut processor = Counter { seen: Vec::new() };
    let (queue, mut commands): (Queue<Counter>, _) = Queue::channel();
    let abandoned = queue.submit(1).unwrap();
    let kept = queue.submit(2).unwrap();
    drop(abandoned);
    let mut state = WorkerState::Waiting;
    let first = serve(&mut state, &mut processor, commands.blocking_recv());
    assert_eq!(first, Served::Replied { delivered: false });
    assert_eq!(state, WorkerState::Waiting);
    let second = serve(&mut state, &mut processor, commands.blocking_recv());
    assert_eq!(second, Served::Replied { delivered: true });
    assert_eq!(processor.seen, vec![1, 2]);
    assert_eq!(kept.blocking_recv().unwrap(), (2, 2));
}

#[test]
fn a_failing_handler_stops_the_worker() {
    let mut processor = Counter { seen: Vec::new() };
    let (queue, mut commands): (Queue<Counter>, _) = Queue::channel();
    let good = queue.submit(1).unwrap();
    let bad = queue.submit(13).unwrap();
    let pending = queue.submit(2).unwrap();
    let mut state = WorkerState::Waiting;
    assert_eq!(
        serve(&mut state, &mut processor, commands.blocking_recv()),
        Served::Replied { delivered: true }
    );
    assert_eq!(
        serve(&mut state, &mut processor, commands.blocking_recv()),
        Served::Failed(EmbedError::Compute)
    );
    assert_eq!(state, WorkerState::Stopped(StopCause::HandlerFailed));
    // A stopped worker serves nothing any more.
    assert_eq!(serve(&mut state, &mut processor, commands.blocking_recv()), Served::Finished);
    assert_eq!(state, WorkerState::Stopped(StopCause::HandlerFailed));
    assert_eq!(processor.seen, vec![1]);
    assert_eq!(good.blocking_recv().unwrap(), (1, 1));
    assert!(bad.blocking_recv().is_err());
    assert!(pending.blocking_recv().is_err());
}

#[test]
fn a_closed_channel_stops_the_worker() {
    let mut processor = Counter { seen: Vec::new() };
    let (queue, mut commands): (Queue<Counter>, _) = Queue::channel();
    let slot = queue.submit(4).unwrap();
    drop(queue);
    let mut state = WorkerState::Waiting;
    assert_eq!(
        serve(&mut state, &mut processor, commands.blocking_recv()),
        Served::Replied { delivered: true }
    );
    assert_eq!(serve(&mut state, &mut processor, commands.blocking_recv()), Served::Finished);
    assert_eq!(state, WorkerState::Stopped(StopCause::Disconnected));
    assert_eq!(slot.blocking_recv().unwrap(), (1, 4));
}

#[test]
fn a_queue_without_a_worker_refuses_requests() {
    let (queue, commands): (Queue<Counter>, _) = Queue::channel();
    drop(commands);
    assert_eq!(queue.submit(1).err(), Some(EmbedError::Delivery));
    assert_eq!(queue.shutdown(), Err(EmbedError::Delivery));
    let (tx, _rx) = oneshot::channel();
    assert_eq!(queue.append(QueueEntry::new(1, tx)), Err(EmbedError::Delivery));
}

#[test]
fn shutdown_sends_a_stop_command() {
    let (queue, mut commands): (Queue<Counter>, _) = Queue::channel();
    assert_eq!(commands.try_recv().err(), Some(TryRecvError::Empty));
    queue.shutdown().unwrap();
    assert!(matches!(commands.try_recv(), Ok(QueueCommand::Stop)));
    assert_eq!(commands.try_recv().err(), Some(TryRecvError::Empty));
}

#[test]
fn entries_carry_their_request_and_a_fresh_id() {
    let (tx_a, _rx_a) = oneshot::channel::<(usize, u32)>();
    let (tx_b, _rx_b) = oneshot::channel::<(usize, u32)>();
    let before = std::time::Instant::now();
    let a: QueueEntry<Counter> = QueueEntry::new(10, tx_a);
    let b: QueueEntry<Counter> = QueueEntry::new(20, tx_b);
    assert_eq!(a.request, 10);
    assert_eq!(b.request, 20);
    assert_ne!(a.id, b.id);
    assert!(a.queue_time >= before);
    assert!(b.queue_time >= a.queue_time);
    // Version 4, variant 1.
    assert_eq!((a.id >> 76) & 0xf, 4);
    assert_eq!((a.id >> 62) & 0x3, 2);
}

#[test]
fn conclude_replies_to_a_response_and_stops_on_an_error() {
    let (tx, rx) = oneshot::channel::<(usize, u32)>();
    let mut state = WorkerState::Handling(5);
    let served = conclude::<Counter>(&mut state, Ok((1, 9)), tx);
    assert_eq!(served, Served::Replied { delivered: true });
    assert_eq!(state, WorkerState::Waiting);
    assert_eq!(rx.blocking_recv().unwrap(), (1, 9));

    let (tx, rx) = oneshot::channel::<(usize, u32)>();
    drop(rx);
    let mut state = WorkerState::Handling(5);
    let served = conclude::<Counter>(&mut state, Ok((1, 9)), tx);
    assert_eq!(served, Served::Replied { delivered: false });
    assert_eq!(state, WorkerState::Waiting);

    let (tx, rx) = oneshot::channel::<(usize, u32)>();
    let mut state = WorkerState::Handling(5);
    let served = conclude::<Counter>(&mut state, Err(EmbedError::Tokenization), tx);
    assert_eq!(served, Served::Failed(EmbedError::Tokenization));
    assert_eq!(state, WorkerState::Stopped(StopCause::HandlerFailed));
    assert!(rx.blocking_recv().is_err());
}

#[test]
fn conclude_leaves_a_worker_alone_that_handles_nothing() {
    for before in [
        WorkerState::Waiting,
        WorkerState::Replying(5),
        WorkerState::Stopped(StopCause::Requested),
    ] {
        let (tx, rx) = oneshot::channel::<(usize, u32)>();
        let mut state = before;
        assert_eq!(conclude::<Counter>(&mut state, Ok((1, 9)), tx), Served::Finished);
        assert_eq!(state, before);
        assert!(rx.blocking_recv().is_err());
        let (tx, _rx) = oneshot::channel::<(usize, u32)>();
        let mut state = before;
        let served = conclude::<Counter>(&mut state, Err(EmbedError::Compute), tx);
        assert_eq!(served, Served::Finished);
        assert_eq!(state, before);
    }
}
