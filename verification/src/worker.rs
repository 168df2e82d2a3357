//! One worker of the pool: its identifier, where it stands in its loop, and
//! whether its thread handle has been taken for joining.

use crate::channel::{JobChannel, Received};
use vstd::prelude::*;

verus! {

/// Where a worker stands in its loop.
#[derive(Clone, Copy, PartialEq, Eq, Structural, Debug)]
pub enum WorkerState {
    /// Free to take the next job.
    Running,
    /// Running a job, outside the queue's critical section.
    Executing,
    /// Left the loop for good, on a closed and drained queue.
    Terminated,
    /// Lost to a job that did not return; never replaced.
    Faulted,
}

/// What a worker's thread has to do after asking for work.
pub enum Action<J> {
    /// Run this job, then report that it finished.
    Run(J),
    /// Nothing is pending and the pool is open: block until woken.
    Wait,
    /// The pool is closed and drained: leave the loop.
    Exit,
}

/// The mathematical content of a [`Worker`].
pub struct WorkerView {
    /// The identifier: the worker's place in construction order.
    pub id: usize,
    /// Where the worker stands in its loop.
    pub state: WorkerState,
    /// Whether the thread handle was taken for joining.
    pub joined: bool,
}

/// A worker's record.
#[derive(Clone, Copy, Debug)]
pub struct Worker {
    id: usize,
    state: WorkerState,
    joined: bool,
}

impl View for Worker {
    type V = WorkerView;

    closed spec fn view(&self) -> WorkerView {
        WorkerView { id: self.id, state: self.state, joined: self.joined }
    }
}

impl Worker {
    /// A running worker with the given identifier whose handle is untaken.
    pub fn new(id: usize) -> (worker: Worker)
        ensures
            worker@ == (WorkerView { id, state: WorkerState::Running, joined: false }),
    {
        Worker { id, state: WorkerState::Running, joined: false }
    }

    /// The identifier, stable for the worker's lifetime.
    pub fn id(&self) -> (id: usize)
        ensures
            id == self@.id,
    {
        self.id
    }

    /// Where the worker stands in its loop.
    pub fn state(&self) -> (state: WorkerState)
        ensures
            state == self@.state,
    {
        self.state
    }

    /// Whether the thread handle was taken for joining.
    pub fn is_joined(&self) -> (joined: bool)
        ensures
            joined == self@.joined,
    {
        self.joined
    }

    /// One turn of a running worker's loop: a receive attempt on `channel`.
    /// A job moves the worker to `Executing`, a closed and drained channel to
    /// `Terminated`; on an empty open channel nothing changes.
    pub fn dequeue<J>(&mut self, channel: &mut JobChannel<J>) -> (action: Action<J>)
        requires
            old(self)@.state == WorkerState::Running,
        ensures
            final(channel)@ == old(channel)@.after_recv(),
            action == next_action(old(channel)@.front()),
            final(self)@ == (WorkerView {
                state: state_after(old(channel)@.front()),
                ..old(self)@
            }),
    {
        match channel.recv() {
            Received::Job(job) => {
                self.state = WorkerState::Executing;
                Action::Run(job)
            },
            Received::Empty => Action::Wait,
            Received::Closed => {
                self.state = WorkerState::Terminated;
                Action::Exit
            },
        }
    }

    /// The job that the worker was running has finished.
    pub fn finish(&mut self)
        requires
            old(self)@.state == WorkerState::Executing,
        ensures
            final(self)@ == (WorkerView { state: WorkerState::Running, ..old(self)@ }),
    {
        self.state = WorkerState::Running;
    }

    /// The job that the worker was running took the worker's thread down
    /// with it.
    pub fn abort(&mut self)
        requires
            old(self)@.state == WorkerState::Executing,
        ensures
            final(self)@ == (WorkerView { state: WorkerState::Faulted, ..old(self)@ }),
    {
        self.state = WorkerState::Faulted;
    }

    /// Takes the worker's thread handle for joining. Returns whether it was
    /// still there: a handle is taken at most once.
    pub fn take_thread(&mut self) -> (taken: bool)
        ensures
            taken == !old(self)@.joined,
            final(self)@ == (WorkerView { joined: true, ..old(self)@ }),
    {
        let taken = !self.joined;
        self.joined = true;
        taken
    }
}

/// What a running worker does on each outcome of a receive attempt.
pub open spec fn next_action<J>(received: Received<J>) -> Action<J> {
    match received {
        Received::Job(job) => Action::Run(job),
        Received::Empty => Action::Wait,
        Received::Closed => Action::Exit,
    }
}

/// The state in which each outcome of a receive attempt leaves a running
/// worker.
pub open spec fn state_after<J>(received: Received<J>) -> WorkerState {
    match received {
        Received::Job(_) => WorkerState::Executing,
        Received::Empty => WorkerState::Running,
        Received::Closed => WorkerState::Terminated,
    }
}

} // verus!
