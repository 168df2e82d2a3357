//! The pool as a mathematical state: its workers, its queue and the history
//! of what was submitted and delivered, with one function per step.

use crate::channel::{ChannelView, Received};
use crate::worker::{next_action, state_after, Action, WorkerState, WorkerView};
use vstd::prelude::*;

verus! {

/// The mathematical content of a pool.
pub struct PoolView<J> {
    /// The workers in construction order.
    pub workers: Seq<WorkerView>,
    /// The queue of pending jobs and whether the pool still takes jobs.
    pub channel: ChannelView<J>,
    /// Every job that was accepted, in submission order.
    pub submitted: Seq<J>,
    /// Every job that was handed to a worker, in delivery order.
    pub delivered: Seq<J>,
}

/// One atomic step of a pool.
pub enum Step<J> {
    /// A producer offers a job.
    Submit(J),
    /// A free worker asks for work.
    Dequeue(usize),
    /// A worker's job returns.
    Complete(usize),
    /// A worker is lost to its job.
    Fault(usize),
    /// The owner shuts the pool down.
    ShutDown,
}

impl<J> PoolView<J> {
    /// A new pool of `size` running workers, open, with an empty history.
    pub open spec fn fresh(size: usize) -> Self {
        PoolView {
            workers: Seq::new(
                size as nat,
                |i: int| WorkerView { id: i as usize, state: WorkerState::Running, joined: false },
            ),
            channel: ChannelView { pending: Seq::empty(), open: true },
            submitted: Seq::empty(),
            delivered: Seq::empty(),
        }
    }

    /// What holds of every pool, whatever steps it has taken.
    ///
    /// The set of workers is not empty and each is identified by its place.
    /// What was submitted is what was delivered followed by what is pending:
    /// no job is lost, none is in two places, and the order is kept. A worker
    /// has terminated, or had its handle taken, only on a closed pool, and a
    /// terminated worker has left nothing pending behind.
    pub open spec fn inv(self) -> bool {
        &&& self.workers.len() > 0
        &&& self.workers.len() <= usize::MAX
        &&& forall|i: int| 0 <= i < self.workers.len() ==> (#[trigger] self.workers[i]).id == i
        &&& self.submitted =~= self.delivered + self.channel.pending
        &&& forall|i: int|
            0 <= i < self.workers.len() ==> (#[trigger] self.workers[i]).state
                == WorkerState::Terminated ==> self.drained()
        &&& forall|i: int|
            0 <= i < self.workers.len() ==> (#[trigger] self.workers[i]).joined
                ==> !self.channel.open
    }

    /// Whether the pool is closed with nothing pending.
    pub open spec fn drained(self) -> bool {
        !self.channel.open && self.channel.pending.len() == 0
    }

    /// Whether `id` names a worker that is in `state`.
    pub open spec fn has_worker(self, id: usize, state: WorkerState) -> bool {
        id < self.workers.len() && self.workers[id as int].state == state
    }

    /// The pool after `job` was offered to it: queued behind all pending
    /// jobs if the pool is open, refused without a trace if it is closed.
    pub open spec fn submit(self, job: J) -> Self {
        if self.channel.open {
            PoolView {
                channel: ChannelView { pending: self.channel.pending.push(job), open: true },
                submitted: self.submitted.push(job),
                ..self
            }
        } else {
            self
        }
    }

    /// What the next worker that asks for work is told.
    pub open spec fn offered(self) -> Action<J> {
        next_action(self.channel.front())
    }

    /// The pool after worker `id` asked for work.
    pub open spec fn dequeue(self, id: usize) -> Self {
        PoolView {
            workers: self.workers.update(
                id as int,
                WorkerView { state: state_after(self.channel.front()), ..self.workers[id as int] },
            ),
            channel: self.channel.after_recv(),
            submitted: self.submitted,
            delivered: match self.channel.front() {
                Received::Job(job) => self.delivered.push(job),
                _ => self.delivered,
            },
        }
    }

    /// The pool after worker `id` moved to `state`.
    pub open spec fn with_state(self, id: usize, state: WorkerState) -> Self {
        PoolView {
            workers: self.workers.update(id as int, WorkerView { state, ..self.workers[id as int] }),
            ..self
        }
    }

    /// The pool after worker `id` finished its job.
    pub open spec fn complete(self, id: usize) -> Self {
        self.with_state(id, WorkerState::Running)
    }

    /// The pool after worker `id` was lost to its job.
    pub open spec fn fault(self, id: usize) -> Self {
        self.with_state(id, WorkerState::Faulted)
    }

    /// The identifiers of those among the first `n` workers whose handle is
    /// untaken, in construction order.
    pub open spec fn unjoined(self, n: nat) -> Seq<usize>
        decreases n,
    {
        if n == 0 {
            Seq::empty()
        } else {
            let before = self.unjoined((n - 1) as nat);
            if self.workers[n - 1].joined {
                before
            } else {
                before.push(self.workers[n - 1].id)
            }
        }
    }

    /// The workers whose threads a shutdown has to join, in joining order.
    pub open spec fn to_join(self) -> Seq<usize> {
        self.unjoined(self.workers.len())
    }

    /// The pool after a shutdown: closed, every handle taken, the queue and
    /// the workers' states untouched.
    pub open spec fn shut_down(self) -> Self {
        PoolView {
            workers: Seq::new(
                self.workers.len(),
                |i: int| WorkerView { joined: true, ..self.workers[i] },
            ),
            channel: ChannelView { pending: self.channel.pending, open: false },
            ..self
        }
    }

    /// Whether `step` can be taken in this pool: only a free worker asks for
    /// work, and only a worker that runs a job ends one.
    pub open spec fn allows(self, step: Step<J>) -> bool {
        match step {
            Step::Submit(_) => true,
            Step::Dequeue(id) => self.has_worker(id, WorkerState::Running),
            Step::Complete(id) => self.has_worker(id, WorkerState::Executing),
            Step::Fault(id) => self.has_worker(id, WorkerState::Executing),
            Step::ShutDown => true,
        }
    }

    /// The pool after `step`.
    pub open spec fn step(self, step: Step<J>) -> Self {
        match step {
            Step::Submit(job) => self.submit(job),
            Step::Dequeue(id) => self.dequeue(id),
            Step::Complete(id) => self.complete(id),
            Step::Fault(id) => self.fault(id),
            Step::ShutDown => self.shut_down(),
        }
    }

    /// The pool after `steps`, taken from first to last.
    pub open spec fn run(self, steps: Seq<Step<J>>) -> Self
        decreases steps.len(),
    {
        if steps.len() == 0 {
            self
        } else {
            self.run(steps.drop_last()).step(steps.last())
        }
    }

    /// Whether each of `steps` can be taken where it stands.
    pub open spec fn admits(self, steps: Seq<Step<J>>) -> bool
        decreases steps.len(),
    {
        steps.len() > 0 ==> self.admits(steps.drop_last()) && self.run(steps.drop_last()).allows(
            steps.last(),
        )
    }

    /// How many of the first `n` workers are still in their loop: running
    /// or executing.
    pub open spec fn alive(self, n: nat) -> nat
        decreases n,
    {
        if n == 0 {
            0
        } else {
            let state = self.workers[n - 1].state;
            let one: nat = if state == WorkerState::Running || state == WorkerState::Executing {
                1
            } else {
                0
            };
            self.alive((n - 1) as nat) + one
        }
    }

    /// What is left to do before every worker has left its loop: the pending
    /// jobs and the workers that are still in it.
    pub open spec fn remaining(self) -> nat {
        self.channel.pending.len() + self.alive(self.workers.len())
    }

    /// The pool after worker `id` took and finished a job `n` times in a row.
    pub open spec fn serve(self, id: usize, n: nat) -> Self
        decreases n,
    {
        if n == 0 {
            self
        } else {
            self.dequeue(id).complete(id).serve(id, (n - 1) as nat)
        }
    }
}

} // verus!
