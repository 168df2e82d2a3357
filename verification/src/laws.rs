//! What holds of a pool across several steps, proved from the steps'
//! definitions.

use crate::model::{PoolView, Step};
use crate::worker::{Action, WorkerState};
use vstd::prelude::*;

verus! {

/// A new pool of `size` workers has exactly `size` workers, each running,
/// identified by its place and with its handle untaken; it is open and
/// nothing was submitted, queued or delivered yet.
pub proof fn lemma_fresh_pool<J>(size: usize)
    requires
        size > 0,
    ensures
        PoolView::<J>::fresh(size).inv(),
        PoolView::<J>::fresh(size).workers.len() == size,
        forall|i: int|
            0 <= i < size ==> {
                let worker = #[trigger] PoolView::<J>::fresh(size).workers[i];
                worker.id == i && worker.state == WorkerState::Running && !worker.joined
            },
        PoolView::<J>::fresh(size).channel.open,
        PoolView::<J>::fresh(size).channel.pending.len() == 0,
        PoolView::<J>::fresh(size).submitted.len() == 0,
        PoolView::<J>::fresh(size).delivered.len() == 0,
{
}

/// Offering a job to a pool keeps the pool's invariant.
pub proof fn lemma_submit_keeps_inv<J>(pool: PoolView<J>, job: J)
    requires
        pool.inv(),
    ensures
        pool.submit(job).inv(),
{
}

/// A free worker's request for work keeps the pool's invariant.
pub proof fn lemma_dequeue_keeps_inv<J>(pool: PoolView<J>, id: usize)
    requires
        pool.inv(),
        pool.has_worker(id, WorkerState::Running),
    ensures
        pool.dequeue(id).inv(),
{
}

/// The end of a job, by its return or by the loss of its worker, keeps the
/// pool's invariant.
pub proof fn lemma_job_end_keeps_inv<J>(pool: PoolView<J>, id: usize)
    requires
        pool.inv(),
        pool.has_worker(id, WorkerState::Executing),
    ensures
        pool.complete(id).inv(),
        pool.fault(id).inv(),
{
}

/// A shutdown keeps the pool's invariant.
pub proof fn lemma_shut_down_keeps_inv<J>(pool: PoolView<J>)
    requires
        pool.inv(),
    ensures
        pool.shut_down().inv(),
{
}

/// Every step that a pool allows keeps the pool's invariant.
pub proof fn lemma_step_keeps_inv<J>(pool: PoolView<J>, step: Step<J>)
    requires
        pool.inv(),
        pool.allows(step),
    ensures
        pool.step(step).inv(),
{
}

/// The invariant holds of every pool that can be reached: of a new pool
/// after any steps, each of which was allowed where it was taken.
pub proof fn lemma_reachable_pool_is_sound<J>(size: usize, steps: Seq<Step<J>>)
    requires
        size > 0,
        PoolView::<J>::fresh(size).admits(steps),
    ensures
        PoolView::<J>::fresh(size).run(steps).inv(),
        PoolView::<J>::fresh(size).run(steps).workers.len() == size,
    decreases steps.len(),
{
    if steps.len() > 0 {
        lemma_reachable_pool_is_sound(size, steps.drop_last());
        lemma_step_keeps_inv(PoolView::<J>::fresh(size).run(steps.drop_last()), steps.last());
    }
}

/// No job is lost and none is delivered twice: the job submitted in place
/// `k` is the job delivered in place `k`, or, if fewer than `k + 1` jobs were
/// delivered so far, it waits in place `k` less the number delivered.
pub proof fn lemma_each_job_in_one_place<J>(pool: PoolView<J>, k: int)
    requires
        pool.inv(),
        0 <= k < pool.submitted.len(),
    ensures
        pool.submitted.len() == pool.delivered.len() + pool.channel.pending.len(),
        k < pool.delivered.len() ==> pool.delivered[k] == pool.submitted[k],
        k >= pool.delivered.len() ==> pool.channel.pending[k - pool.delivered.len()]
            == pool.submitted[k],
{
}

/// A worker that asks for work while jobs are pending is handed the one that
/// was submitted first among them: deliveries follow the submission order.
pub proof fn lemma_oldest_job_first<J>(pool: PoolView<J>, id: usize)
    requires
        pool.inv(),
        pool.has_worker(id, WorkerState::Running),
        pool.channel.pending.len() > 0,
    ensures
        pool.offered() == Action::Run(pool.submitted[pool.delivered.len() as int]),
        pool.dequeue(id).delivered == pool.submitted.take(pool.delivered.len() as int + 1),
        pool.dequeue(id).channel.pending == pool.submitted.skip(pool.delivered.len() as int + 1),
        pool.dequeue(id).has_worker(id, WorkerState::Executing),
{
    assert(pool.dequeue(id).delivered =~= pool.submitted.take(pool.delivered.len() as int + 1));
    assert(pool.dequeue(id).channel.pending =~= pool.submitted.skip(pool.delivered.len() as int + 1));
}

/// Two jobs submitted one after the other to an open pool are queued in that
/// order behind what was pending, and a worker that serves the queue is
/// handed the first of them before the second.
pub proof fn lemma_fifo<J>(pool: PoolView<J>, first: J, second: J, id: usize)
    requires
        pool.inv(),
        pool.channel.open,
        pool.has_worker(id, WorkerState::Running),
    ensures
        pool.submit(first).submit(second).channel.pending == pool.channel.pending.push(
            first,
        ).push(second),
        pool.submit(first).submit(second).serve(id, pool.channel.pending.len()).offered()
            == Action::Run(first),
        pool.submit(first).submit(second).serve(id, pool.channel.pending.len() + 1).offered()
            == Action::Run(second),
{
    let both = pool.submit(first).submit(second);
    let n = pool.channel.pending.len();
    lemma_serve(both, id, n);
    lemma_serve(both, id, n + 1);
}

/// A job leaves the queue with its delivery: after one worker was handed the
/// oldest pending job, the next worker to ask is handed the job behind it,
/// or none.
pub proof fn lemma_no_double_delivery<J>(pool: PoolView<J>, a: usize, b: usize)
    requires
        pool.inv(),
        a != b,
        pool.has_worker(a, WorkerState::Running),
        pool.has_worker(b, WorkerState::Running),
        pool.channel.pending.len() > 0,
    ensures
        pool.offered() == Action::Run(pool.submitted[pool.delivered.len() as int]),
        pool.dequeue(a).has_worker(b, WorkerState::Running),
        pool.dequeue(a).offered() == if pool.channel.pending.len() > 1 {
            Action::Run(pool.submitted[pool.delivered.len() as int + 1])
        } else if pool.channel.open {
            Action::Wait
        } else {
            Action::Exit
        },
        pool.dequeue(a).dequeue(b).delivered.len() <= pool.delivered.len() + 2,
        pool.dequeue(a).dequeue(b).delivered == pool.submitted.take(
            pool.dequeue(a).dequeue(b).delivered.len() as int,
        ),
{
    let one = pool.dequeue(a);
    lemma_oldest_job_first(pool, a);
    if one.channel.pending.len() > 0 {
        lemma_oldest_job_first(one, b);
    } else {
        assert(one.dequeue(b).delivered =~= pool.submitted.take(one.delivered.len() as int));
    }
}

/// A worker that takes and finishes `n` of the pending jobs in a row is
/// handed the `n` oldest in their order and leaves the others queued. The
/// worker is free again afterwards and nothing else has changed.
pub proof fn lemma_serve<J>(pool: PoolView<J>, id: usize, n: nat)
    requires
        pool.inv(),
        pool.has_worker(id, WorkerState::Running),
        n <= pool.channel.pending.len(),
    ensures
        pool.serve(id, n).inv(),
        pool.serve(id, n).workers == pool.workers,
        pool.serve(id, n).channel.open == pool.channel.open,
        pool.serve(id, n).submitted == pool.submitted,
        pool.serve(id, n).delivered == pool.delivered + pool.channel.pending.take(n as int),
        pool.serve(id, n).channel.pending == pool.channel.pending.skip(n as int),
    decreases n,
{
    if n == 0 {
        assert(pool.delivered =~= pool.delivered + pool.channel.pending.take(0));
        assert(pool.channel.pending =~= pool.channel.pending.skip(0));
    } else {
        let next = pool.dequeue(id).complete(id);
        assert(next.workers =~= pool.workers);
        lemma_serve(next, id, (n - 1) as nat);
        let end = pool.serve(id, n);
        assert(end.delivered =~= pool.delivered + pool.channel.pending.take(n as int));
        assert(end.channel.pending =~= pool.channel.pending.skip(n as int));
    }
}

/// A worker has terminated only where the pool is closed and drained: every
/// job that was submitted has been delivered.
pub proof fn lemma_terminated_means_drained<J>(pool: PoolView<J>, id: usize)
    requires
        pool.inv(),
        pool.has_worker(id, WorkerState::Terminated),
    ensures
        !pool.channel.open,
        pool.channel.pending.len() == 0,
        pool.delivered == pool.submitted,
{
    assert(pool.workers[id as int].state == WorkerState::Terminated);
    assert(pool.delivered =~= pool.submitted);
}

/// On a closed pool no worker is told to wait: it is told to run a job while
/// one is pending, and to exit exactly when none is.
pub proof fn lemma_closed_pool_never_waits<J>(pool: PoolView<J>)
    requires
        !pool.channel.open,
    ensures
        pool.offered() != Action::<J>::Wait,
        pool.offered() == Action::<J>::Exit <==> pool.channel.pending.len() == 0,
{
}

/// A shutdown drops no job: a free worker that serves the queue after it is
/// handed every pending job in order, is then told to exit, and terminates
/// with all that was submitted delivered.
pub proof fn lemma_shutdown_drains<J>(pool: PoolView<J>, id: usize)
    requires
        pool.inv(),
        pool.has_worker(id, WorkerState::Running),
    ensures
        ({
            let served = pool.shut_down().serve(id, pool.channel.pending.len());
            &&& served.offered() == Action::<J>::Exit
            &&& served.delivered == pool.submitted
            &&& served.dequeue(id).has_worker(id, WorkerState::Terminated)
            &&& served.dequeue(id).delivered == pool.submitted
            &&& served.dequeue(id).channel.pending.len() == 0
            &&& served.dequeue(id).inv()
        }),
{
    let closed = pool.shut_down();
    let n = pool.channel.pending.len();
    lemma_serve(closed, id, n);
    let served = closed.serve(id, n);
    assert(pool.channel.pending.take(n as int) =~= pool.channel.pending);
    assert(served.delivered =~= pool.submitted);
}

/// Two free workers that ask for work in turn while two jobs are pending
/// both run a job afterwards, at the same time: a job runs outside the
/// queue's critical section.
pub proof fn lemma_jobs_run_side_by_side<J>(pool: PoolView<J>, a: usize, b: usize)
    requires
        pool.inv(),
        a != b,
        pool.has_worker(a, WorkerState::Running),
        pool.has_worker(b, WorkerState::Running),
        pool.channel.pending.len() >= 2,
    ensures
        pool.dequeue(a).dequeue(b).has_worker(a, WorkerState::Executing),
        pool.dequeue(a).dequeue(b).has_worker(b, WorkerState::Executing),
        pool.dequeue(a).dequeue(b).inv(),
{
}

/// The count of workers in their loop after one worker changed its state.
pub proof fn lemma_alive_after<J>(pool: PoolView<J>, id: usize, state: WorkerState, n: nat)
    requires
        id < pool.workers.len(),
        n <= pool.workers.len(),
    ensures
        ({
            let was = pool.workers[id as int].state;
            let was_in = was == WorkerState::Running || was == WorkerState::Executing;
            let is_in = state == WorkerState::Running || state == WorkerState::Executing;
            let left: int = if id < n && was_in {
                1
            } else {
                0
            };
            let came: int = if id < n && is_in {
                1
            } else {
                0
            };
            pool.with_state(id, state).alive(n) == pool.alive(n) - left + came
        }),
    decreases n,
{
    if n > 0 {
        lemma_alive_after(pool, id, state, (n - 1) as nat);
    }
}

/// A closed pool winds down: each time a free worker asks for work, there
/// is one pending job fewer or one worker fewer in its loop, and the end of a
/// job adds nothing. So after a shutdown the workers' loops end after as
/// many requests as there were pending jobs and workers in their loops,
/// however the requests interleave.
pub proof fn lemma_closed_pool_winds_down<J>(pool: PoolView<J>, id: usize)
    requires
        pool.inv(),
        !pool.channel.open,
    ensures
        pool.has_worker(id, WorkerState::Running) ==> pool.dequeue(id).remaining()
            == pool.remaining() - 1,
        pool.has_worker(id, WorkerState::Executing) ==> pool.complete(id).remaining()
            == pool.remaining(),
        pool.has_worker(id, WorkerState::Executing) ==> pool.fault(id).remaining()
            == pool.remaining() - 1,
{
    let n = pool.workers.len();
    if pool.has_worker(id, WorkerState::Running) {
        let after = pool.dequeue(id);
        let moved = pool.with_state(id, after.workers[id as int].state);
        lemma_alive_after(pool, id, after.workers[id as int].state, n);
        lemma_alive_same(moved, after, n);
    }
    if pool.has_worker(id, WorkerState::Executing) {
        lemma_alive_after(pool, id, WorkerState::Running, n);
        lemma_alive_after(pool, id, WorkerState::Faulted, n);
    }
}

/// The count of workers in their loop depends on the workers alone.
pub proof fn lemma_alive_same<J>(one: PoolView<J>, other: PoolView<J>, n: nat)
    requires
        one.workers == other.workers,
    ensures
        one.alive(n) == other.alive(n),
    decreases n,
{
    if n > 0 {
        lemma_alive_same(one, other, (n - 1) as nat);
    }
}

/// The threads that a shutdown joins are those of the workers whose handle
/// was untaken, each once, in construction order.
pub proof fn lemma_to_join<J>(pool: PoolView<J>)
    requires
        pool.inv(),
    ensures
        forall|i: int, j: int|
            0 <= i < j < pool.to_join().len() ==> pool.to_join()[i] < pool.to_join()[j],
        forall|id: usize|
            pool.to_join().contains(id) <==> id < pool.workers.len() && !pool.workers[id as int].joined,
{
    lemma_unjoined(pool, pool.workers.len());
}

/// The same as [`lemma_to_join`], of the first `n` workers.
pub proof fn lemma_unjoined<J>(pool: PoolView<J>, n: nat)
    requires
        pool.inv(),
        n <= pool.workers.len(),
    ensures
        forall|i: int, j: int|
            0 <= i < j < pool.unjoined(n).len() ==> pool.unjoined(n)[i] < pool.unjoined(n)[j],
        forall|id: usize|
            pool.unjoined(n).contains(id) <==> id < n && !pool.workers[id as int].joined,
    decreases n,
{
    if n > 0 {
        let before = pool.unjoined((n - 1) as nat);
        let all = pool.unjoined(n);
        let last = pool.workers[n - 1];
        lemma_unjoined(pool, (n - 1) as nat);
        assert(last.id == n - 1);
        assert forall|k: int| 0 <= k < before.len() implies before[k] < n - 1 by {
            assert(before.contains(before[k]));
        }
        if !last.joined {
            assert(all[before.len() as int] == last.id);
            assert forall|id: usize| all.contains(id) <==> id < n && !pool.workers[id as int].joined by {
                if all.contains(id) {
                    let k = choose|k: int| 0 <= k < all.len() && all[k] == id;
                    if k < before.len() {
                        assert(before[k] == id);
                        assert(before.contains(id));
                    }
                }
                if id < n && !pool.workers[id as int].joined {
                    if id < n - 1 {
                        assert(before.contains(id));
                        let k = choose|k: int| 0 <= k < before.len() && before[k] == id;
                        assert(all[k] == id);
                    }
                }
            }
        }
    }
}

/// A second shutdown finds nothing to do: no thread is left to join and the
/// pool stays as the first shutdown left it.
pub proof fn lemma_shutdown_twice<J>(pool: PoolView<J>)
    requires
        pool.inv(),
    ensures
        pool.shut_down().to_join().len() == 0,
        pool.shut_down().shut_down() == pool.shut_down(),
{
    let closed = pool.shut_down();
    lemma_to_join(closed);
    if closed.to_join().len() > 0 {
        let id = closed.to_join()[0];
        assert(closed.to_join().contains(id));
    }
    assert(closed.shut_down().workers =~= closed.workers);
}

/// A closed pool takes no job: an offer leaves it exactly as it was. This
/// holds in particular of every pool after a shutdown.
pub proof fn lemma_closed_pool_refuses<J>(pool: PoolView<J>, job: J)
    ensures
        !pool.channel.open ==> pool.submit(job) == pool,
        pool.shut_down().submit(job) == pool.shut_down(),
{
}

/// No step opens a closed pool.
pub proof fn lemma_closed_stays_closed<J>(pool: PoolView<J>, id: usize, job: J)
    requires
        !pool.channel.open,
    ensures
        !pool.submit(job).channel.open,
        !pool.dequeue(id).channel.open,
        !pool.complete(id).channel.open,
        !pool.fault(id).channel.open,
        !pool.shut_down().channel.open,
{
}

} // verus!
