use simple_web_server::{Action, ThreadPool, WorkerState};
use std::cell::RefCell;
use std::collections::BTreeSet;
use std::rc::Rc;

type Job = Box<dyn FnOnce()>;

/// Lets worker `id` take jobs and run them until it is told to wait or exit.
/// Returns whether it was told to exit.
fn run_worker(pool: &mut ThreadPool<Job>, id: usize) -> bool {
    loop {
        assert_eq!(pool.worker(id).unwrap().state(), WorkerState::Running);
        match pool.dequeue(id) {
            Action::Run(job) => {
                assert_eq!(pool.worker(id).unwrap().state(), WorkerState::Executing);
                job();
                pool.complete(id);
            }
            Action::Wait => return false,
            Action::Exit => return true,
        }
    }
}

#[test]
fn new_pool_has_size_running_workers() {
    for size in 1..6usize {
        let pool: ThreadPool<u32> = ThreadPool::new(size);
        assert_eq!(pool.size(), size);
        assert!(pool.is_open());
        assert_eq!(pool.queued(), 0);
        for id in 0..size {
            let worker = pool.worker(id).unwrap();
            assert_eq!(worker.id(), id);
            assert_eq!(worker.state(), WorkerState::Running);
            assert!(!worker.is_joined());
        }
    }
}

#[test]
fn each_worker_of_a_new_pool_can_run_a_job() {
    let mut pool: ThreadPool<u32> = ThreadPool::new(3);
    for job in 0..3u32 {
        pool.execute(job);
    }
    for id in 0..3usize {
        assert!(matches!(pool.dequeue(id), Action::Run(job) if job as usize == id));
    }
    for id in 0..3usize {
        assert_eq!(pool.worker(id).unwrap().state(), WorkerState::Executing);
    }
    assert_eq!(pool.queued(), 0);
}

#[test]
fn zero_workers_is_refused() {
    assert!(ThreadPool::<u32>::try_new(0).is_none());
    let pool = ThreadPool::<u32>::try_new(1);
    assert!(pool.is_some());
    assert_eq!(pool.unwrap().size(), 1);
}

#[test]
fn jobs_are_delivered_in_submission_order() {
    let mut pool: ThreadPool<&'static str> = ThreadPool::new(2);
    pool.execute("first");
    pool.execute("second");
    assert_eq!(pool.queued(), 2);
    assert!(matches!(pool.dequeue(1), Action::Run("first")));
    assert!(matches!(pool.dequeue(0), Action::Run("second")));
    assert_eq!(pool.queued(), 0);
}

#[test]
fn a_delivered_job_is_not_delivered_again() {
    let mut pool: ThreadPool<u32> = ThreadPool::new(2);
    pool.execute(7);
    assert!(matches!(pool.dequeue(0), Action::Run(7)));
    assert!(matches!(pool.dequeue(1), Action::Wait));
    assert_eq!(pool.worker(1).unwrap().state(), WorkerState::Running);
    pool.complete(0);
    assert!(matches!(pool.dequeue(0), Action::Wait));
}

#[test]
fn every_job_runs_exactly_once() {
    let runs: Rc<RefCell<Vec<u32>>> = Rc::new(RefCell::new(vec![0; 20]));
    let mut pool: ThreadPool<Job> = ThreadPool::new(3);
    for index in 0..20usize {
        let runs = Rc::clone(&runs);
        pool.execute(Box::new(move || runs.borrow_mut()[index] += 1));
        if index % 4 == 3 {
            assert!(!run_worker(&mut pool, index % 3));
        }
    }
    assert!(!run_worker(&mut pool, 1));
    assert_eq!(pool.queued(), 0);
    assert_eq!(*runs.borrow(), vec![1; 20]);
}

#[test]
fn two_workers_five_jobs() {
    let seen: Rc<RefCell<Vec<usize>>> = Rc::new(RefCell::new(Vec::new()));
    let mut pool: ThreadPool<Job> = ThreadPool::new(2);
    for index in 0..5usize {
        let seen = Rc::clone(&seen);
        pool.execute(Box::new(move || seen.borrow_mut().push(index)));
    }
    // Both workers take a job before either finishes.
    let first = match pool.dequeue(1) {
        Action::Run(job) => job,
        _ => panic!("a job was pending"),
    };
    let second = match pool.dequeue(0) {
        Action::Run(job) => job,
        _ => panic!("a job was pending"),
    };
    second();
    pool.complete(0);
    first();
    pool.complete(1);
    assert_eq!(pool.shutdown(), vec![0, 1]);
    assert_eq!(pool.queued(), 3);
    assert!(run_worker(&mut pool, 1));
    assert!(run_worker(&mut pool, 0));
    assert_eq!(pool.worker(0).unwrap().state(), WorkerState::Terminated);
    assert_eq!(pool.worker(1).unwrap().state(), WorkerState::Terminated);
    let seen: BTreeSet<usize> = seen.borrow().iter().copied().collect();
    let expected: BTreeSet<usize> = (0..5).collect();
    assert_eq!(seen, expected);
}

#[test]
fn idle_pool_shuts_down_at_once() {
    let mut pool: ThreadPool<Job> = ThreadPool::new(4);
    assert_eq!(pool.shutdown(), vec![0, 1, 2, 3]);
    assert!(!pool.is_open());
    for id in 0..4usize {
        assert!(pool.worker(id).unwrap().is_joined());
        assert!(matches!(pool.dequeue(id), Action::Exit));
        assert_eq!(pool.worker(id).unwrap().state(), WorkerState::Terminated);
    }
}

#[test]
fn shutdown_leaves_pending_jobs_to_the_workers() {
    let mut pool: ThreadPool<u32> = ThreadPool::new(2);
    pool.execute(1);
    pool.execute(2);
    pool.execute(3);
    pool.shutdown();
    assert_eq!(pool.queued(), 3);
    assert!(matches!(pool.dequeue(0), Action::Run(1)));
    assert!(matches!(pool.dequeue(1), Action::Run(2)));
    pool.complete(1);
    assert!(matches!(pool.dequeue(1), Action::Run(3)));
    pool.complete(0);
    assert!(matches!(pool.dequeue(0), Action::Exit));
    pool.complete(1);
    assert!(matches!(pool.dequeue(1), Action::Exit));
}

#[test]
fn second_shutdown_joins_nothing() {
    let mut pool: ThreadPool<u32> = ThreadPool::new(3);
    pool.execute(9);
    assert_eq!(pool.shutdown(), vec![0, 1, 2]);
    assert_eq!(pool.shutdown(), Vec::<usize>::new());
    assert!(!pool.is_open());
    assert_eq!(pool.queued(), 1);
    assert_eq!(pool.size(), 3);
}

#[test]
fn submitting_after_shutdown_fails() {
    let mut pool: ThreadPool<u32> = ThreadPool::new(2);
    assert_eq!(pool.try_execute(1), Ok(()));
    pool.shutdown();
    assert_eq!(pool.try_execute(2), Err(2));
    assert_eq!(pool.try_execute(3), Err(3));
    assert_eq!(pool.queued(), 1);
    assert!(matches!(pool.dequeue(0), Action::Run(1)));
    pool.complete(0);
    assert!(matches!(pool.dequeue(0), Action::Exit));
}

#[test]
fn a_lost_worker_is_not_replaced() {
    let mut pool: ThreadPool<u32> = ThreadPool::new(2);
    pool.execute(1);
    pool.execute(2);
    assert!(matches!(pool.dequeue(0), Action::Run(1)));
    pool.fault(0);
    assert_eq!(pool.worker(0).unwrap().state(), WorkerState::Faulted);
    assert_eq!(pool.size(), 2);
    assert_eq!(pool.queued(), 1);
    assert!(pool.is_open());
    assert!(matches!(pool.dequeue(1), Action::Run(2)));
    pool.complete(1);
    assert_eq!(pool.shutdown(), vec![0, 1]);
    assert!(matches!(pool.dequeue(1), Action::Exit));
    assert_eq!(pool.worker(0).unwrap().state(), WorkerState::Faulted);
}

#[test]
fn there_is_no_worker_beyond_the_size() {
    let pool: ThreadPool<u32> = ThreadPool::new(2);
    assert!(pool.worker(1).is_some());
    assert!(pool.worker(2).is_none());
    assert!(pool.worker(usize::MAX).is_none());
}
