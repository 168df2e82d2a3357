//! The pool itself: a fixed set of workers around one job channel.

use crate::channel::JobChannel;
use crate::model::PoolView;
use crate::worker::{Action, Worker, WorkerState, WorkerView};
use vstd::prelude::*;

verus! {

/// A pool of a fixed number of workers that share one queue of jobs.
///
/// `J` is the job: an opaque value that the pool stores, hands to exactly one
/// worker, and never looks into.
pub struct ThreadPool<J> {
    workers: Vec<Worker>,
    channel: JobChannel<J>,
    submitted: Ghost<Seq<J>>,
    delivered: Ghost<Seq<J>>,
}

impl<J> View for ThreadPool<J> {
    type V = PoolView<J>;

    closed spec fn view(&self) -> PoolView<J> {
        PoolView {
            workers: self.workers@.map_values(|w: Worker| w@),
            channel: self.channel@,
            submitted: self.submitted@,
            delivered: self.delivered@,
        }
    }
}

impl<J> ThreadPool<J> {
    /// A pool of `size` workers, all running, open for submission.
    pub fn new(size: usize) -> (pool: Self)
        requires
            size > 0,
        ensures
            pool@ == PoolView::<J>::fresh(size),
            pool@.inv(),
    {
        let mut workers: Vec<Worker> = Vec::new();
        let mut id: usize = 0;
        while id < size
            invariant
                id <= size,
                workers@.len() == id,
                forall|k: int|
                    0 <= k < id ==> (#[trigger] workers@[k])@ == (WorkerView {
                        id: k as usize,
                        state: WorkerState::Running,
                        joined: false,
                    }),
            decreases size - id,
        {
            workers.push(Worker::new(id));
            id += 1;
        }
        let pool = ThreadPool {
            workers,
            channel: JobChannel::new(),
            submitted: Ghost(Seq::empty()),
            delivered: Ghost(Seq::empty()),
        };
        proof {
            assert(pool@.workers =~= PoolView::<J>::fresh(size).workers);
            assert(pool@.channel.pending =~= PoolView::<J>::fresh(size).channel.pending);
        }
        pool
    }

    /// A pool of `size` workers, or nothing where `size` is zero.
    pub fn try_new(size: usize) -> (made: Option<Self>)
        ensures
            size == 0 <==> made is None,
            made matches Some(pool) ==> pool@ == PoolView::<J>::fresh(size) && pool@.inv(),
    {
        if size == 0 {
            None
        } else {
            Some(ThreadPool::new(size))
        }
    }

    /// The number of workers, fixed at construction.
    pub fn size(&self) -> (size: usize)
        ensures
            size == self@.workers.len(),
    {
        self.workers.len()
    }

    /// Whether the pool still takes jobs.
    pub fn is_open(&self) -> (open: bool)
        ensures
            open == self@.channel.open,
    {
        self.channel.is_open()
    }

    /// The number of jobs that wait for a worker.
    pub fn queued(&self) -> (n: usize)
        ensures
            n == self@.channel.pending.len(),
    {
        self.channel.len()
    }

    /// The record of worker `id`, if the pool has such a worker.
    pub fn worker(&self, id: usize) -> (worker: Option<Worker>)
        ensures
            id < self@.workers.len() <==> worker is Some,
            worker matches Some(found) ==> found@ == self@.workers[id as int],
    {
        if id < self.workers.len() {
            Some(self.workers[id])
        } else {
            None
        }
    }

    /// Queues `job` behind every pending job.
    pub fn execute(&mut self, job: J)
        requires
            old(self)@.inv(),
            old(self)@.channel.open,
        ensures
            final(self)@ == old(self)@.submit(job),
            final(self)@.inv(),
    {
        let _ = self.try_execute(job);
    }

    /// Queues `job` behind every pending job if the pool is open. A closed
    /// pool is left as it is and hands the job back in `Err`.
    pub fn try_execute(&mut self, job: J) -> (accepted: Result<(), J>)
        requires
            old(self)@.inv(),
        ensures
            accepted == if old(self)@.channel.open {
                Ok::<(), J>(())
            } else {
                Err::<(), J>(job)
            },
            final(self)@ == old(self)@.submit(job),
            final(self)@.inv(),
    {
        let ghost before = self@;
        let sent = self.channel.send(job);
        if sent.is_ok() {
            self.submitted = Ghost(self.submitted@.push(job));
        }
        proof {
            assert(self@.workers == before.workers);
            if before.channel.open {
                assert(self@.submitted =~= self@.delivered + self@.channel.pending);
            }
        }
        sent
    }

    /// Worker `id`, which is free, asks for work. It is told to run the
    /// oldest pending job, which leaves the queue with this call; or to wait,
    /// where nothing is pending on an open pool; or to exit, where nothing is
    /// pending on a closed one.
    pub fn dequeue(&mut self, id: usize) -> (action: Action<J>)
        requires
            old(self)@.inv(),
            old(self)@.has_worker(id, WorkerState::Running),
        ensures
            action == old(self)@.offered(),
            final(self)@ == old(self)@.dequeue(id),
            final(self)@.inv(),
    {
        let ghost before = self@;
        let mut worker = self.workers[id];
        let action = worker.dequeue(&mut self.channel);
        self.workers.set(id, worker);
        proof {
            if before.channel.pending.len() > 0 {
                self.delivered@ = self.delivered@.push(before.channel.pending[0]);
            }
            assert(self@.workers =~= before.dequeue(id).workers);
            assert(self@.submitted =~= self@.delivered + self@.channel.pending);
        }
        action
    }

    /// Worker `id` reports that the job it was running has finished.
    pub fn complete(&mut self, id: usize)
        requires
            old(self)@.inv(),
            old(self)@.has_worker(id, WorkerState::Executing),
        ensures
            final(self)@ == old(self)@.complete(id),
            final(self)@.inv(),
    {
        let ghost before = self@;
        let mut worker = self.workers[id];
        worker.finish();
        self.workers.set(id, worker);
        proof {
            assert(self@.workers =~= before.complete(id).workers);
        }
    }

    /// Worker `id` was lost to the job it was running. The pool goes on with
    /// one worker fewer; what is queued stays queued.
    pub fn fault(&mut self, id: usize)
        requires
            old(self)@.inv(),
            old(self)@.has_worker(id, WorkerState::Executing),
        ensures
            final(self)@ == old(self)@.fault(id),
            final(self)@.inv(),
    {
        let ghost before = self@;
        let mut worker = self.workers[id];
        worker.abort();
        self.workers.set(id, worker);
        proof {
            assert(self@.workers =~= before.fault(id).workers);
        }
    }

    /// Closes the pool, then takes the handle of every worker that still has
    /// one. Returns the identifiers of those workers in construction order:
    /// the threads to join. Pending jobs stay queued for the workers to
    /// drain. A second call finds the pool closed and no handle left.
    pub fn shutdown(&mut self) -> (joins: Vec<usize>)
        requires
            old(self)@.inv(),
        ensures
            joins@ == old(self)@.to_join(),
            final(self)@ == old(self)@.shut_down(),
            final(self)@.inv(),
    {
        let ghost before = self@;
        self.channel.close();
        let mut joins: Vec<usize> = Vec::new();
        let size = self.workers.len();
        let mut i: usize = 0;
        while i < size
            invariant
                i <= size,
                size == before.workers.len(),
                self@.workers.len() == size,
                self@.channel == before.shut_down().channel,
                self@.submitted == before.submitted,
                self@.delivered == before.delivered,
                forall|k: int| 0 <= k < i ==> self@.workers[k] == before.shut_down().workers[k],
                forall|k: int| i <= k < size ==> self@.workers[k] == before.workers[k],
                joins@ == before.unjoined(i as nat),
            decreases size - i,
        {
            let ghost entry = self@;
            let mut worker = self.workers[i];
            if worker.take_thread() {
                joins.push(worker.id());
            }
            self.workers.set(i, worker);
            proof {
                assert(self@.workers =~= entry.workers.update(i as int, worker@));
            }
            i += 1;
        }
        proof {
            assert(self@.workers =~= before.shut_down().workers);
        }
        joins
    }
}

} // verus!
