//! What the steps of the helper pool and of host ownership do to the accounts.
use vstd::prelude::*;

use crate::config::QuiescenceAck;
use crate::helper::HelperPoolError;
use crate::host::{
    spawned, terminated, HostProcessBroker, HostProcessError, OwnedHostProcess, Remainder,
    Termination,
};
use crate::pool::{HelperProcessPool, PoolConfigError, QueueEvent};

verus! {

/// A pool is made exactly if it has room for a helper and its places can be
/// counted. It begins open, empty and with one handle, with a worker for each
/// helper and a place for every job that may wait or run.
pub proof fn new_pool_is_open_and_empty(
    capacity: usize,
    queue_capacity: usize,
    r: Result<HelperProcessPool, PoolConfigError>,
)
    requires
        HelperProcessPool::made(capacity, queue_capacity, r),
    ensures
        r is Ok <==> capacity > 0 && capacity + queue_capacity <= usize::MAX,
        r is Ok ==> {
            let pool = r->Ok_0;
            &&& pool.capacity == capacity
            &&& pool.workers == capacity
            &&& pool.admission == capacity + queue_capacity
            &&& pool.admission_capacity == capacity + queue_capacity
            &&& !pool.closed
            &&& !pool.poisoned
            &&& pool.handles == 1
            &&& pool.active == 0
            &&& pool.queued == 0
            &&& pool.running == 0
            &&& pool.preparing == 0
            &&& pool.spawning == 0
            &&& pool.owned_children == 0
            &&& pool.idle == 0
            &&& pool.reaping == 0
            &&& pool.stranded == 0
            &&& pool.leaked == 0
            &&& pool.retired == 0
            &&& pool.maximum_active == 0
            &&& pool.maximum_running == 0
        },
        r is Err ==> r->Err_0 == if capacity == 0 {
            PoolConfigError::NoCapacity
        } else {
            PoolConfigError::Overflow
        },
{
}

/// A job is admitted exactly while the pool is open and a place is free; it
/// then waits in the queue and holds its place. A closed or poisoned pool says
/// that it is shutting down, a full one that it is overloaded.
pub proof fn job_is_admitted_to_a_free_place(
    pre: HelperProcessPool,
    post: HelperProcessPool,
    r: Result<(), HelperPoolError>,
)
    requires
        HelperProcessPool::job_admitted(pre, post, r),
        pre.wf(),
    ensures
        r is Ok <==> !pre.closed && !pre.poisoned && pre.admission > 0,
        r is Ok ==> {
            &&& post.admission == pre.admission - 1
            &&& post.queued == pre.queued + 1
            &&& post.active == pre.active + 1
            &&& post.maximum_active >= post.active
            &&& post.maximum_active == pre.maximum_active || post.maximum_active == post.active
            &&& post.maximum_active >= pre.maximum_active
            &&& post.running == pre.running
            &&& post.workers == pre.workers
            &&& post.closed == pre.closed
            &&& post.poisoned == pre.poisoned
            &&& post.owned_children == pre.owned_children
            &&& post.idle == pre.idle
        },
        r is Err ==> post == pre && r->Err_0 == if pre.closed || pre.poisoned {
            HelperPoolError::ShuttingDown
        } else {
            HelperPoolError::Overloaded
        },
{
}

/// A job leaves the queue for a free worker, or gives its place back: with the
/// error of the deadline or of the shutdown.
pub proof fn queued_job_runs_or_gives_way(
    pre: HelperProcessPool,
    post: HelperProcessPool,
    event: QueueEvent,
    r: Result<(), HelperPoolError>,
)
    requires
        HelperProcessPool::queue_left(pre, post, event, r),
        pre.wf(),
        pre.queued > 0,
        event == QueueEvent::WorkerFree ==> pre.workers > 0,
    ensures
        post.queued == pre.queued - 1,
        r is Ok <==> event == QueueEvent::WorkerFree,
        r is Ok ==> {
            &&& post.running == pre.running + 1
            &&& post.workers == pre.workers - 1
            &&& post.active == pre.active
            &&& post.admission == pre.admission
            &&& post.maximum_running >= post.running
            &&& post.maximum_running >= pre.maximum_running
            &&& post.maximum_running == pre.maximum_running || post.maximum_running == post.running
        },
        r is Err ==> {
            &&& post.running == pre.running
            &&& post.workers == pre.workers
            &&& post.active == pre.active - 1
            &&& post.admission == pre.admission + 1
        },
        event == QueueEvent::TimedOut ==> r == Err::<(), HelperPoolError>(
            HelperPoolError::TimedOut,
        ),
        event == QueueEvent::ShuttingDown ==> r == Err::<(), HelperPoolError>(
            HelperPoolError::ShuttingDown,
        ),
        post.closed == pre.closed,
        post.poisoned == pre.poisoned,
        post.owned_children == pre.owned_children,
{
}

/// A running job gets a helper exactly if its request could be framed and one
/// is idle. Without one it fails; in a closed pool, for the shutdown.
pub proof fn framed_job_gets_an_idle_helper(
    pre: HelperProcessPool,
    post: HelperProcessPool,
    framed: bool,
    r: Result<(), HelperPoolError>,
)
    requires
        HelperProcessPool::helper_taken(pre, post, framed, r),
        pre.wf(),
        pre.preparing > 0,
    ensures
        r is Ok <==> framed && pre.idle > 0,
        r is Ok ==> post.idle == pre.idle - 1,
        r is Err ==> post.idle == pre.idle && r->Err_0 == if framed && pre.closed {
            HelperPoolError::ShuttingDown
        } else {
            HelperPoolError::FailedClosed
        },
        post.preparing == pre.preparing - 1,
        post.running == pre.running,
        post.owned_children == pre.owned_children,
        post.active == pre.active,
        post.closed == pre.closed,
{
}

/// A helper goes back to the idle ones exactly while the pool is open.
pub proof fn helper_goes_back_to_an_open_pool(
    pre: HelperProcessPool,
    post: HelperProcessPool,
    r: bool,
)
    requires
        HelperProcessPool::helper_returned(pre, post, r),
        pre.wf(),
        pre.in_use() > 0,
    ensures
        r <==> !pre.closed,
        r ==> post.idle == pre.idle + 1,
        !r ==> post == pre,
        post.owned_children == pre.owned_children,
        post.running == pre.running,
        post.closed == pre.closed,
{
}

/// A helper that has to be terminated for anything but a shutdown closes and
/// poisons the pool; the helper is then being reaped.
pub proof fn failed_helper_poisons_the_pool(
    pre: HelperProcessPool,
    post: HelperProcessPool,
    outcome: HelperPoolError,
)
    requires
        HelperProcessPool::termination_begun(pre, post, outcome),
        pre.wf(),
        pre.in_use() > 0,
    ensures
        outcome != HelperPoolError::ShuttingDown ==> post.closed && post.poisoned,
        outcome == HelperPoolError::ShuttingDown ==> post.closed == pre.closed && post.poisoned
            == pre.poisoned,
        post.reaping == pre.reaping + 1,
        post.owned_children == pre.owned_children,
        post.active == pre.active,
        post.idle == pre.idle,
{
}

/// A helper that was reaped in time ends its job with the error that it was
/// ended for and leaves the account. One that was not fails the quiescence of
/// the pool, which is then poisoned and stays active.
pub proof fn unreaped_helper_keeps_the_pool_active(
    pre: HelperProcessPool,
    post: HelperProcessPool,
    outcome: HelperPoolError,
    reaped: bool,
    r: HelperPoolError,
)
    requires
        HelperProcessPool::termination_ended(pre, post, outcome, reaped, r),
        pre.wf(),
        pre.stranded < pre.reaping,
        !reaped ==> pre.stranded + pre.leaked < pre.reaping + pre.retired,
    ensures
        reaped ==> {
            &&& r == outcome
            &&& post.owned_children == pre.owned_children - 1
            &&& post.reaping == pre.reaping - 1
            &&& post.retired == pre.retired + 1
            &&& post.active == pre.active
            &&& post.closed == pre.closed
            &&& post.poisoned == pre.poisoned
        },
        !reaped ==> {
            &&& r == HelperPoolError::QuiescenceFailed
            &&& post.poisoned
            &&& post.closed
            &&& post.active == pre.active + 1
            &&& post.stranded == pre.stranded + 1
            &&& post.owned_children == pre.owned_children
            &&& post.reaping == pre.reaping
            &&& !post.quiescent()
        },
{
}

/// A kill that failed and a helper that does not go in time poison the pool
/// and keep it active: the first for good, the second until the helper goes.
pub proof fn surviving_helper_fails_quiescence(
    pre: HelperProcessPool,
    post: HelperProcessPool,
    r: HelperPoolError,
)
    requires
        pre.wf(),
        pre.stranded < pre.reaping,
        pre.stranded + pre.leaked < pre.reaping + pre.retired,
    ensures
        HelperProcessPool::kill_missed(pre, post, r) ==> {
            &&& r == HelperPoolError::QuiescenceFailed
            &&& post.poisoned
            &&& post.closed
            &&& post.active == pre.active + 1
            &&& post.leaked == pre.leaked + 1
            &&& post.stranded == pre.stranded
            &&& post.owned_children == pre.owned_children
        },
        HelperProcessPool::reap_missed(pre, post, r) ==> {
            &&& r == HelperPoolError::QuiescenceFailed
            &&& post.poisoned
            &&& post.closed
            &&& post.active == pre.active + 1
            &&& post.stranded == pre.stranded + 1
            &&& post.leaked == pre.leaked
            &&& post.owned_children == pre.owned_children
        },
{
}

/// A helper that has gone leaves the account, and a stranded one no longer
/// keeps the pool active.
pub proof fn gone_helper_leaves_the_account(
    pre: HelperProcessPool,
    post: HelperProcessPool,
    stranded: bool,
)
    requires
        HelperProcessPool::helper_gone(pre, post, stranded),
        pre.wf(),
        pre.reaping > 0,
        stranded ==> pre.stranded > 0,
        !stranded ==> pre.stranded < pre.reaping,
    ensures
        post.owned_children == pre.owned_children - 1,
        post.reaping == pre.reaping - 1,
        post.retired == pre.retired + 1,
        stranded ==> post.active == pre.active - 1 && post.stranded == pre.stranded - 1,
        !stranded ==> post.active == pre.active && post.stranded == pre.stranded,
        post.leaked == pre.leaked,
        post.poisoned == pre.poisoned,
{
}

/// A job that ends gives back its worker and its place.
pub proof fn ended_job_makes_room(pre: HelperProcessPool, post: HelperProcessPool)
    requires
        HelperProcessPool::job_ended(pre, post),
        pre.wf(),
        pre.preparing < pre.running,
    ensures
        post.running == pre.running - 1,
        post.workers == pre.workers + 1,
        post.admission == pre.admission + 1,
        post.active == pre.active - 1,
        post.queued == pre.queued,
        post.preparing == pre.preparing,
        post.closed == pre.closed,
        post.poisoned == pre.poisoned,
        post.owned_children == pre.owned_children,
        post.idle == pre.idle,
{
}

/// A spawn counts while it lasts; a helper that comes of it is owned and idle.
pub proof fn spawned_helper_is_idle(
    pre: HelperProcessPool,
    between: HelperProcessPool,
    post: HelperProcessPool,
    spawned: bool,
)
    requires
        pre.wf(),
        pre.spawning + pre.owned_children + pre.retired < pre.capacity,
        HelperProcessPool::spawn_begun(pre, between),
        HelperProcessPool::spawn_ended(between, post, spawned),
    ensures
        between.spawning == pre.spawning + 1,
        between.owned_children == pre.owned_children,
        post.spawning == pre.spawning,
        spawned ==> post.owned_children == pre.owned_children + 1 && post.idle == pre.idle + 1,
        !spawned ==> post == pre,
        post.active == pre.active,
        post.closed == pre.closed,
{
}

/// Encoding a request is counted until a helper is taken or not.
pub proof fn preparing_is_counted(
    pre: HelperProcessPool,
    between: HelperProcessPool,
    post: HelperProcessPool,
    framed: bool,
    r: Result<(), HelperPoolError>,
)
    requires
        pre.wf(),
        pre.preparing < pre.running,
        HelperProcessPool::preparing_begun(pre, between),
        HelperProcessPool::helper_taken(between, post, framed, r),
    ensures
        between.preparing == pre.preparing + 1,
        between.running == pre.running,
        between.idle == pre.idle,
        post.preparing == pre.preparing,
{
}

/// A pool that is shut down is closed, and every helper that was idle is
/// handed out to be terminated.
pub proof fn shutdown_hands_out_the_idle(pre: HelperProcessPool, post: HelperProcessPool, r: usize)
    requires
        HelperProcessPool::shut_down(pre, post, r),
    ensures
        post.closed,
        r == pre.idle,
        post.idle == 0,
        post.owned_children == pre.owned_children,
        post.active == pre.active,
        post.poisoned == pre.poisoned,
        post.queued == pre.queued,
        post.running == pre.running,
{
}

/// A pool closes with its last handle, and not before.
pub proof fn last_handle_closes_the_pool(
    pre: HelperProcessPool,
    more: HelperProcessPool,
    post: HelperProcessPool,
    r: bool,
)
    requires
        pre.handles > 0,
        pre.handles < usize::MAX,
    ensures
        HelperProcessPool::handle_dropped(pre, post, r) ==> {
            &&& r <==> pre.handles == 1
            &&& r ==> post.closed
            &&& !r ==> post.closed == pre.closed
            &&& post.handles == pre.handles - 1
            &&& post.active == pre.active
            &&& post.idle == pre.idle
        },
        HelperProcessPool::handle_added(pre, more) ==> {
            &&& more.handles == pre.handles + 1
            &&& more.closed == pre.closed
            &&& more.active == pre.active
        },
{
}

/// The counters of a pool are its accounts, each under its own name.
pub proof fn counters_are_the_accounts(pool: HelperProcessPool)
    ensures
        pool.counters().active_jobs == pool.active,
        pool.counters().maximum_active_jobs == pool.maximum_active,
        pool.counters().queued_jobs == pool.queued,
        pool.counters().running_helpers == pool.running,
        pool.counters().maximum_running_helpers == pool.maximum_running,
        pool.counters().preparing_helpers == pool.preparing,
        pool.counters().spawning_helpers == pool.spawning,
        pool.counters().owned_children == pool.owned_children,
        pool.counters().reaping_children == pool.reaping,
        pool.counters().poisoned == pool.poisoned,
{
}

/// A started process is owned under its number and the given identifier, and
/// the account has one more; without a process nothing is owned.
pub proof fn started_process_is_owned(
    pre: HostProcessBroker,
    post: HostProcessBroker,
    started: Option<u32>,
    ownership_id: u128,
    r: Result<OwnedHostProcess, HostProcessError>,
)
    requires
        spawned(pre, post, started, ownership_id, r),
    ensures
        r is Ok <==> started is Some,
        r is Ok ==> {
            &&& Some(r->Ok_0.identity.pid) == started
            &&& r->Ok_0.identity.ownership_id == ownership_id
            &&& r->Ok_0.owned
            &&& r->Ok_0.has_child
            &&& post.active == pre.active + 1
        },
        r is Err ==> r->Err_0 == HostProcessError::Spawn && post.active == pre.active,
{
}

/// A termination is acknowledged, with the process's number, exactly where the
/// owned process was reaped; only then does it leave the account. A process
/// that was killed and not seen to go is to be reaped later.
pub proof fn only_a_reaped_process_is_acknowledged(
    pre: HostProcessBroker,
    post: HostProcessBroker,
    process: OwnedHostProcess,
    outcome: Termination,
    r: (Result<QuiescenceAck, HostProcessError>, Remainder),
)
    requires
        pre.active > 0,
        terminated(pre, post, process, outcome, r),
    ensures
        ({
            let owned = process.owned && process.has_child;
            &&& r.0 is Ok <==> owned && outcome == Termination::Reaped
            &&& r.0 is Ok ==> r.0->Ok_0.generation == process.identity.pid && post.active
                == pre.active - 1
            &&& r.0 is Err ==> post.active == pre.active
            &&& !owned ==> r.0->Err_0 == HostProcessError::Stale
            &&& owned && outcome is KillFailed ==> r.0->Err_0 == outcome->KillFailed_0
            &&& owned && (outcome == Termination::WaitFailed || outcome == Termination::TimedOut)
                ==> r.0->Err_0 == HostProcessError::QuiescenceFailed
            &&& r.1 == Remainder::ReapLater <==> owned && (outcome == Termination::WaitFailed
                || outcome == Termination::TimedOut)
        }),
{
}

} // verus!
