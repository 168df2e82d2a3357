use simple_web_server::{Action, JobChannel, Received, Worker, WorkerState};

#[test]
fn new_channel_is_open_and_empty() {
    let mut channel: JobChannel<u8> = JobChannel::new();
    assert!(channel.is_open());
    assert_eq!(channel.len(), 0);
    assert!(matches!(channel.recv(), Received::Empty));
}

#[test]
fn channel_is_first_in_first_out() {
    let mut channel: JobChannel<u8> = JobChannel::new();
    for job in [4u8, 2, 9] {
        assert_eq!(channel.send(job), Ok(()));
    }
    assert_eq!(channel.len(), 3);
    assert!(matches!(channel.recv(), Received::Job(4)));
    assert!(matches!(channel.recv(), Received::Job(2)));
    assert_eq!(channel.send(5), Ok(()));
    assert!(matches!(channel.recv(), Received::Job(9)));
    assert!(matches!(channel.recv(), Received::Job(5)));
    assert!(matches!(channel.recv(), Received::Empty));
    assert_eq!(channel.len(), 0);
}

#[test]
fn closed_channel_drains_then_reports_closed() {
    let mut channel: JobChannel<u8> = JobChannel::new();
    assert_eq!(channel.send(1), Ok(()));
    channel.close();
    assert!(!channel.is_open());
    assert_eq!(channel.send(2), Err(2));
    assert_eq!(channel.len(), 1);
    assert!(matches!(channel.recv(), Received::Job(1)));
    assert!(matches!(channel.recv(), Received::Closed));
    channel.close();
    assert!(matches!(channel.recv(), Received::Closed));
}

#[test]
fn worker_follows_its_loop() {
    let mut channel: JobChannel<u8> = JobChannel::new();
    let mut worker = Worker::new(5);
    assert_eq!(worker.id(), 5);
    assert_eq!(worker.state(), WorkerState::Running);
    assert!(matches!(worker.dequeue(&mut channel), Action::Wait));
    assert_eq!(worker.state(), WorkerState::Running);
    assert_eq!(channel.send(3), Ok(()));
    assert!(matches!(worker.dequeue(&mut channel), Action::Run(3)));
    assert_eq!(worker.state(), WorkerState::Executing);
    worker.finish();
    assert_eq!(worker.state(), WorkerState::Running);
    channel.close();
    assert!(matches!(worker.dequeue(&mut channel), Action::Exit));
    assert_eq!(worker.state(), WorkerState::Terminated);
    assert_eq!(worker.id(), 5);
}

#[test]
fn worker_handle_is_taken_once() {
    let mut worker = Worker::new(0);
    assert!(!worker.is_joined());
    assert!(worker.take_thread());
    assert!(worker.is_joined());
    assert!(!worker.take_thread());
    assert!(worker.is_joined());
    assert_eq!(worker.state(), WorkerState::Running);
}

#[test]
fn worker_lost_to_a_job() {
    let mut channel: JobChannel<u8> = JobChannel::new();
    let mut worker = Worker::new(1);
    assert_eq!(channel.send(3), Ok(()));
    assert!(matches!(worker.dequeue(&mut channel), Action::Run(3)));
    worker.abort();
    assert_eq!(worker.state(), WorkerState::Faulted);
    assert_eq!(worker.id(), 1);
}
