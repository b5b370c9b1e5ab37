//! The accounts of the helper pool: who is admitted, who runs, which helper
//! processes exist, and when everything has come to rest.
use vstd::prelude::*;

use crate::helper::HelperPoolError;

verus! {

/// Why a pool cannot be made.
#[derive(Debug, Clone, Copy, PartialEq, Eq, Structural)]
pub enum PoolConfigError {
    /// The capacity must be positive.
    NoCapacity,
    /// The number of admitted jobs does not fit.
    Overflow,
}

impl PoolConfigError {
    /// The error as a sentence.
    pub open spec fn sentence(self) -> Seq<char> {
        match self {
            PoolConfigError::NoCapacity => "bootstrap helper capacity must be positive"@,
            PoolConfigError::Overflow => "bootstrap helper admission capacity overflow"@,
        }
    }

    /// The error as a sentence.
    pub fn message(&self) -> (r: &'static str)
        ensures
            r@ == self.sentence(),
    {
        match self {
            PoolConfigError::NoCapacity => "bootstrap helper capacity must be positive",
            PoolConfigError::Overflow => "bootstrap helper admission capacity overflow",
        }
    }
}

/// The most permits that an admission gate can hold.
pub open spec fn permit_limit() -> nat {
    (usize::MAX / 8) as nat
}

/// The accounts of a pool. A job is admitted, waits in the queue for a
/// worker, and runs; a helper process is idle, in use, or being reaped.
#[derive(Debug, Clone, Copy, PartialEq, Eq, Structural)]
pub struct HelperProcessPool {
    pub capacity: usize,
    pub admission_capacity: usize,
    /// Free places for admitted jobs and for running ones.
    pub admission: usize,
    pub workers: usize,
    pub closed: bool,
    pub poisoned: bool,
    pub handles: usize,
    pub active: usize,
    pub maximum_active: usize,
    pub queued: usize,
    pub running: usize,
    pub maximum_running: usize,
    pub preparing: usize,
    pub spawning: usize,
    pub owned_children: usize,
    pub idle: usize,
    pub reaping: usize,
    /// Helpers that were not reaped in time and are waited for.
    pub stranded: usize,
    /// Helpers whose process tree may still run; they are never forgotten.
    pub leaked: usize,
    /// Helpers that have gone, the leaked ones among them.
    pub retired: usize,
}

/// The counters of a pool at one moment.
#[derive(Debug, Clone, Copy, PartialEq, Eq, Structural)]
pub struct HelperPoolSnapshot {
    pub active_jobs: usize,
    pub maximum_active_jobs: usize,
    pub queued_jobs: usize,
    pub running_helpers: usize,
    pub maximum_running_helpers: usize,
    pub preparing_helpers: usize,
    pub spawning_helpers: usize,
    pub owned_children: usize,
    pub reaping_children: usize,
    pub poisoned: bool,
}

/// How the wait in the queue ended.
#[derive(Debug, Clone, Copy, PartialEq, Eq, Structural)]
pub enum QueueEvent {
    ShuttingDown,
    TimedOut,
    WorkerFree,
}

/// The larger of two numbers.
pub open spec fn larger(a: usize, b: usize) -> usize {
    if a < b {
        b
    } else {
        a
    }
}

fn max(a: usize, b: usize) -> (r: usize)
    ensures
        r == larger(a, b),
{
    if a < b {
        b
    } else {
        a
    }
}

impl HelperProcessPool {
    /// The accounts add up.
    pub open spec fn wf(self) -> bool {
        &&& 0 < self.capacity <= self.admission_capacity <= permit_limit()
        &&& self.admission + self.queued + self.running == self.admission_capacity
        &&& self.workers + self.running == self.capacity
        &&& self.active == self.queued + self.running + self.stranded + self.leaked
        &&& self.maximum_active <= self.admission_capacity
        &&& self.maximum_running <= self.capacity
        &&& self.running <= self.maximum_running
        &&& self.preparing <= self.running
        &&& self.spawning + self.owned_children + self.retired <= self.capacity
        &&& self.idle + self.reaping <= self.owned_children
        &&& self.stranded <= self.reaping
        &&& self.leaked <= self.reaping + self.retired
        &&& self.stranded + self.leaked <= self.reaping + self.retired
        &&& self.stranded + self.leaked > 0 ==> self.poisoned
        &&& self.poisoned ==> self.closed
    }

    /// Nothing is under way and no helper process is left.
    pub open spec fn quiescent(self) -> bool {
        &&& self.active == 0
        &&& self.queued == 0
        &&& self.running == 0
        &&& self.preparing == 0
        &&& self.spawning == 0
        &&& self.owned_children == 0
        &&& self.reaping == 0
    }

    /// What a wait for the pool to come to rest is answered.
    pub open spec fn rest_answer(self, expired: bool) -> Option<bool> {
        if self.quiescent() {
            Some(true)
        } else if expired {
            Some(false)
        } else {
            None
        }
    }

    /// The pool later on: it keeps its size, and once closed or poisoned it
    /// stays so.
    pub open spec fn stays_closed(self, later: HelperProcessPool) -> bool {
        &&& later.capacity == self.capacity
        &&& later.admission_capacity == self.admission_capacity
        &&& self.closed ==> later.closed
        &&& self.poisoned ==> later.poisoned
    }

    /// What comes of the wish for a pool.
    pub open spec fn made(
        capacity: usize,
        queue_capacity: usize,
        r: Result<HelperProcessPool, PoolConfigError>,
    ) -> bool {
        match r {
            Err(e) => e == if capacity == 0 {
                PoolConfigError::NoCapacity
            } else {
                PoolConfigError::Overflow
            } && (capacity == 0 || capacity + queue_capacity > usize::MAX),
            Ok(pool) => {
                &&& capacity > 0
                &&& capacity + queue_capacity <= usize::MAX
                &&& pool.wf()
                &&& pool == (HelperProcessPool {
                    capacity,
                    admission_capacity: (capacity + queue_capacity) as usize,
                    admission: (capacity + queue_capacity) as usize,
                    workers: capacity,
                    closed: false,
                    poisoned: false,
                    handles: 1,
                    active: 0,
                    maximum_active: 0,
                    queued: 0,
                    running: 0,
                    maximum_running: 0,
                    preparing: 0,
                    spawning: 0,
                    owned_children: 0,
                    idle: 0,
                    reaping: 0,
                    stranded: 0,
                    leaked: 0,
                    retired: 0,
                })
            },
        }
    }

    /// A pool for `capacity` helpers and `queue_capacity` waiting jobs. The
    /// helpers are still to be spawned.
    pub fn new(capacity: usize, queue_capacity: usize) -> (r: Result<Self, PoolConfigError>)
        requires
            capacity == 0 || capacity + queue_capacity > usize::MAX || capacity + queue_capacity
                <= permit_limit(),
        ensures
            Self::made(capacity, queue_capacity, r),
    {
        if capacity == 0 {
            return Err(PoolConfigError::NoCapacity);
        }
        match capacity.checked_add(queue_capacity) {
            None => Err(PoolConfigError::Overflow),
            Some(admission_capacity) => Ok(
                HelperProcessPool {
                    capacity,
                    admission_capacity,
                    admission: admission_capacity,
                    workers: capacity,
                    closed: false,
                    poisoned: false,
                    handles: 1,
                    active: 0,
                    maximum_active: 0,
                    queued: 0,
                    running: 0,
                    maximum_running: 0,
                    preparing: 0,
                    spawning: 0,
                    owned_children: 0,
                    idle: 0,
                    reaping: 0,
                    stranded: 0,
                    leaked: 0,
                    retired: 0,
                },
            ),
        }
    }

    /// What beginning to spawn a helper does.
    pub open spec fn spawn_begun(
        pre: HelperProcessPool,
        post: HelperProcessPool,
    ) -> bool {
        post == (HelperProcessPool {
            spawning: (pre.spawning + 1) as usize,
            ..pre
        })
    }

    /// A helper is about to be spawned; there is room for it.
    pub fn begin_spawn(&mut self)
        requires
            old(self).wf(),
            old(self).spawning + old(self).owned_children + old(self).retired < old(self).capacity,
        ensures
            final(self).wf(),
            old(self).stays_closed(*final(self)),
            Self::spawn_begun(*old(self), *final(self)),
    {
        self.spawning = self.spawning + 1;
    }

    /// What the end of a spawn does.
    pub open spec fn spawn_ended(
        pre: HelperProcessPool,
        post: HelperProcessPool,
        spawned: bool,
    ) -> bool {
        post == if spawned {
            HelperProcessPool {
                spawning: (pre.spawning - 1) as usize,
                owned_children: (pre.owned_children + 1) as usize,
                idle: (pre.idle + 1) as usize,
                ..pre
            }
        } else {
            HelperProcessPool { spawning: (pre.spawning - 1) as usize, ..pre }
        }
    }

    /// The spawn has ended; a helper that came of it is idle.
    pub fn finish_spawn(&mut self, spawned: bool)
        requires
            old(self).wf(),
            old(self).spawning > 0,
        ensures
            final(self).wf(),
            old(self).stays_closed(*final(self)),
            Self::spawn_ended(*old(self), *final(self), spawned),
    {
        self.spawning = self.spawning - 1;
        if spawned {
            self.owned_children = self.owned_children + 1;
            self.idle = self.idle + 1;
        }
    }

    /// Why a job is not admitted, if there is a reason.
    pub open spec fn admission_fault(self) -> Option<HelperPoolError> {
        if self.closed || self.poisoned {
            Some(HelperPoolError::ShuttingDown)
        } else if self.admission == 0 {
            Some(HelperPoolError::Overloaded)
        } else {
            None
        }
    }

    /// What admitting a job does.
    pub open spec fn job_admitted(
        pre: HelperProcessPool,
        post: HelperProcessPool,
        r: Result<(), HelperPoolError>,
    ) -> bool {
        match pre.admission_fault() {
            Some(fault) => r == Err::<(), HelperPoolError>(fault) && post == pre,
            None => r is Ok && post == (HelperProcessPool {
                admission: (pre.admission - 1) as usize,
                active: (pre.active + 1) as usize,
                maximum_active: larger(
                    pre.maximum_active,
                    (pre.active + 1) as usize,
                ),
                queued: (pre.queued + 1) as usize,
                ..pre
            }),
        }
    }

    /// Admits a job into the queue.
    pub fn admit_job(&mut self) -> (r: Result<(), HelperPoolError>)
        requires
            old(self).wf(),
        ensures
            final(self).wf(),
            old(self).stays_closed(*final(self)),
            Self::job_admitted(*old(self), *final(self), r),
    {
        if self.closed || self.poisoned {
            return Err(HelperPoolError::ShuttingDown);
        }
        if self.admission == 0 {
            return Err(HelperPoolError::Overloaded);
        }
        self.admission = self.admission - 1;
        self.active = self.active + 1;
        self.maximum_active = max(self.maximum_active, self.active);
        self.queued = self.queued + 1;
        Ok(())
    }

    /// What leaving the queue does.
    pub open spec fn queue_left(
        pre: HelperProcessPool,
        post: HelperProcessPool,
        event: QueueEvent,
        r: Result<(), HelperPoolError>,
    ) -> bool {
        match event {
            QueueEvent::WorkerFree => r is Ok && post == (HelperProcessPool {
                queued: (pre.queued - 1) as usize,
                workers: (pre.workers - 1) as usize,
                running: (pre.running + 1) as usize,
                maximum_running: larger(
                    pre.maximum_running,
                    (pre.running + 1) as usize,
                ),
                ..pre
            }),
            _ => {
                &&& r == Err::<(), HelperPoolError>(
                    if event == QueueEvent::TimedOut {
                        HelperPoolError::TimedOut
                    } else {
                        HelperPoolError::ShuttingDown
                    },
                )
                &&& post == (HelperProcessPool {
                    queued: (pre.queued - 1) as usize,
                    active: (pre.active - 1) as usize,
                    admission: (pre.admission + 1) as usize,
                    ..pre
                })
            },
        }
    }

    /// A job leaves the queue: it runs, or it is dropped.
    pub fn leave_queue(&mut self, event: QueueEvent) -> (r: Result<(), HelperPoolError>)
        requires
            old(self).wf(),
            old(self).queued > 0,
            event == QueueEvent::WorkerFree ==> old(self).workers > 0,
        ensures
            final(self).wf(),
            old(self).stays_closed(*final(self)),
            Self::queue_left(*old(self), *final(self), event, r),
    {
        self.queued = self.queued - 1;
        match event {
            QueueEvent::WorkerFree => {
                self.workers = self.workers - 1;
                self.running = self.running + 1;
                self.maximum_running = max(self.maximum_running, self.running);
                Ok(())
            },
            QueueEvent::TimedOut => {
                self.active = self.active - 1;
                self.admission = self.admission + 1;
                Err(HelperPoolError::TimedOut)
            },
            QueueEvent::ShuttingDown => {
                self.active = self.active - 1;
                self.admission = self.admission + 1;
                Err(HelperPoolError::ShuttingDown)
            },
        }
    }

    /// What beginning to encode a request does.
    pub open spec fn preparing_begun(
        pre: HelperProcessPool,
        post: HelperProcessPool,
    ) -> bool {
        post == (HelperProcessPool {
            preparing: (pre.preparing + 1) as usize,
            ..pre
        })
    }

    /// A running job begins to encode its request.
    pub fn begin_preparing(&mut self)
        requires
            old(self).wf(),
            old(self).preparing < old(self).running,
        ensures
            final(self).wf(),
            old(self).stays_closed(*final(self)),
            Self::preparing_begun(*old(self), *final(self)),
    {
        self.preparing = self.preparing + 1;
    }

    /// What taking a helper does.
    pub open spec fn helper_taken(
        pre: HelperProcessPool,
        post: HelperProcessPool,
        framed: bool,
        r: Result<(), HelperPoolError>,
    ) -> bool {
        &&& r == if !framed {
            Err::<(), HelperPoolError>(HelperPoolError::FailedClosed)
        } else if pre.idle > 0 {
            Ok(())
        } else if pre.closed {
            Err(HelperPoolError::ShuttingDown)
        } else {
            Err(HelperPoolError::FailedClosed)
        }
        &&& post == (HelperProcessPool {
            preparing: (pre.preparing - 1) as usize,
            idle: if r is Ok {
                (pre.idle - 1) as usize
            } else {
                pre.idle
            },
            ..pre
        })
    }

    /// A running job takes an idle helper, if its request could be framed.
    pub fn take_helper(&mut self, framed: bool) -> (r: Result<(), HelperPoolError>)
        requires
            old(self).wf(),
            old(self).preparing > 0,
        ensures
            final(self).wf(),
            old(self).stays_closed(*final(self)),
            Self::helper_taken(*old(self), *final(self), framed, r),
    {
        self.preparing = self.preparing - 1;
        if !framed {
            return Err(HelperPoolError::FailedClosed);
        }
        if self.idle == 0 {
            return Err(
                if self.closed {
                    HelperPoolError::ShuttingDown
                } else {
                    HelperPoolError::FailedClosed
                },
            );
        }
        self.idle = self.idle - 1;
        Ok(())
    }

    /// A helper is in use: neither idle nor being reaped.
    pub open spec fn in_use(self) -> int {
        self.owned_children - self.idle - self.reaping
    }

    /// What giving a helper back does.
    pub open spec fn helper_returned(
        pre: HelperProcessPool,
        post: HelperProcessPool,
        r: bool,
    ) -> bool {
        &&& r == !pre.closed
        &&& post == if r {
            HelperProcessPool { idle: (pre.idle + 1) as usize, ..pre }
        } else {
            pre
        }
    }

    /// A helper that served its job goes back, unless the pool has closed:
    /// then it is to be terminated.
    pub fn return_helper(&mut self) -> (r: bool)
        requires
            old(self).wf(),
            old(self).in_use() > 0,
        ensures
            final(self).wf(),
            old(self).stays_closed(*final(self)),
            Self::helper_returned(*old(self), *final(self), r),
    {
        if self.closed {
            return false;
        }
        self.idle = self.idle + 1;
        true
    }

    /// What beginning to terminate a helper does.
    pub open spec fn termination_begun(
        pre: HelperProcessPool,
        post: HelperProcessPool,
        outcome: HelperPoolError,
    ) -> bool {
        post == (HelperProcessPool {
            reaping: (pre.reaping + 1) as usize,
            poisoned: pre.poisoned || outcome != HelperPoolError::ShuttingDown,
            closed: pre.closed || outcome != HelperPoolError::ShuttingDown,
            ..pre
        })
    }

    /// A helper is to be terminated. For any reason but a shutdown, the pool
    /// is poisoned: it takes no further job.
    pub fn begin_termination(&mut self, outcome: HelperPoolError)
        requires
            old(self).wf(),
            old(self).in_use() > 0,
        ensures
            final(self).wf(),
            old(self).stays_closed(*final(self)),
            Self::termination_begun(*old(self), *final(self), outcome),
    {
        self.reaping = self.reaping + 1;
        if outcome != HelperPoolError::ShuttingDown {
            self.poisoned = true;
            self.closed = true;
        }
    }

    /// What a kill that failed does.
    pub open spec fn kill_missed(
        pre: HelperProcessPool,
        post: HelperProcessPool,
        r: HelperPoolError,
    ) -> bool {
        &&& r == HelperPoolError::QuiescenceFailed
        &&& post == (HelperProcessPool {
            poisoned: true,
            closed: true,
            active: (pre.active + 1) as usize,
            leaked: (pre.leaked + 1) as usize,
            ..pre
        })
    }

    /// The helper's process tree could not be killed: the pool stays active
    /// for good.
    pub fn kill_failed(&mut self) -> (r: HelperPoolError)
        requires
            old(self).wf(),
            old(self).stranded < old(self).reaping,
            old(self).stranded + old(self).leaked < old(self).reaping + old(self).retired,
        ensures
            final(self).wf(),
            old(self).stays_closed(*final(self)),
            Self::kill_missed(*old(self), *final(self), r),
    {
        self.poisoned = true;
        self.closed = true;
        self.active = self.active + 1;
        self.leaked = self.leaked + 1;
        HelperPoolError::QuiescenceFailed
    }

    /// What a helper that does not go away in time does.
    pub open spec fn reap_missed(
        pre: HelperProcessPool,
        post: HelperProcessPool,
        r: HelperPoolError,
    ) -> bool {
        &&& r == HelperPoolError::QuiescenceFailed
        &&& post == (HelperProcessPool {
            poisoned: true,
            closed: true,
            active: (pre.active + 1) as usize,
            stranded: (pre.stranded + 1) as usize,
            ..pre
        })
    }

    /// The helper was killed but did not go away in time: the pool stays
    /// active until it does.
    pub fn reap_timed_out(&mut self) -> (r: HelperPoolError)
        requires
            old(self).wf(),
            old(self).stranded < old(self).reaping,
            old(self).stranded + old(self).leaked < old(self).reaping + old(self).retired,
        ensures
            final(self).wf(),
            old(self).stays_closed(*final(self)),
            Self::reap_missed(*old(self), *final(self), r),
    {
        self.poisoned = true;
        self.closed = true;
        self.active = self.active + 1;
        self.stranded = self.stranded + 1;
        HelperPoolError::QuiescenceFailed
    }

    /// What the end of a termination does.
    pub open spec fn termination_ended(
        pre: HelperProcessPool,
        post: HelperProcessPool,
        outcome: HelperPoolError,
        reaped: bool,
        r: HelperPoolError,
    ) -> bool {
        &&& r == if reaped {
            outcome
        } else {
            HelperPoolError::QuiescenceFailed
        }
        &&& post == if reaped {
            HelperProcessPool {
                owned_children: (pre.owned_children - 1) as usize,
                reaping: (pre.reaping - 1) as usize,
                retired: (pre.retired + 1) as usize,
                ..pre
            }
        } else {
            HelperProcessPool {
                poisoned: true,
                closed: true,
                active: (pre.active + 1) as usize,
                stranded: (pre.stranded + 1) as usize,
                ..pre
            }
        }
    }

    /// How ending a killed helper ends its job. Where the process was reaped
    /// within its budget, the job ends with the error that the helper was
    /// ended for; otherwise the pool stays active until the process goes.
    pub fn termination_outcome(&mut self, outcome: HelperPoolError, reaped: bool) -> (r:
        HelperPoolError)
        requires
            old(self).wf(),
            old(self).stranded < old(self).reaping,
            !reaped ==> old(self).stranded + old(self).leaked < old(self).reaping + old(
                self,
            ).retired,
        ensures
            final(self).wf(),
            old(self).stays_closed(*final(self)),
            Self::termination_ended(*old(self), *final(self), outcome, reaped, r),
    {
        if reaped {
            self.reaped(false);
            outcome
        } else {
            self.reap_timed_out()
        }
    }

    /// What a helper that has gone does.
    pub open spec fn helper_gone(
        pre: HelperProcessPool,
        post: HelperProcessPool,
        stranded: bool,
    ) -> bool {
        post == (HelperProcessPool {
            owned_children: (pre.owned_children - 1) as usize,
            reaping: (pre.reaping - 1) as usize,
            retired: (pre.retired + 1) as usize,
            active: if stranded {
                (pre.active - 1) as usize
            } else {
                pre.active
            },
            stranded: if stranded {
                (pre.stranded - 1) as usize
            } else {
                pre.stranded
            },
            ..pre
        })
    }

    /// A helper has gone. One that was stranded no longer keeps the pool active.
    pub fn reaped(&mut self, stranded: bool)
        requires
            old(self).wf(),
            old(self).reaping > 0,
            stranded ==> old(self).stranded > 0,
            !stranded ==> old(self).stranded < old(self).reaping,
        ensures
            final(self).wf(),
            old(self).stays_closed(*final(self)),
            Self::helper_gone(*old(self), *final(self), stranded),
    {
        self.owned_children = self.owned_children - 1;
        self.reaping = self.reaping - 1;
        self.retired = self.retired + 1;
        if stranded {
            self.active = self.active - 1;
            self.stranded = self.stranded - 1;
        }
    }

    /// What the end of a running job does.
    pub open spec fn job_ended(
        pre: HelperProcessPool,
        post: HelperProcessPool,
    ) -> bool {
        post == (HelperProcessPool {
            running: (pre.running - 1) as usize,
            workers: (pre.workers + 1) as usize,
            active: (pre.active - 1) as usize,
            admission: (pre.admission + 1) as usize,
            ..pre
        })
    }

    /// A running job ends and makes room for another.
    pub fn finish_job(&mut self)
        requires
            old(self).wf(),
            old(self).preparing < old(self).running,
        ensures
            final(self).wf(),
            old(self).stays_closed(*final(self)),
            Self::job_ended(*old(self), *final(self)),
    {
        self.running = self.running - 1;
        self.workers = self.workers + 1;
        self.active = self.active - 1;
        self.admission = self.admission + 1;
    }

    /// What closing the pool does.
    pub open spec fn shut_down(
        pre: HelperProcessPool,
        post: HelperProcessPool,
        r: usize,
    ) -> bool {
        &&& r == pre.idle
        &&& post == (HelperProcessPool { closed: true, idle: 0, ..pre })
    }

    /// Closes the pool. The idle helpers, whose number is returned, are to be
    /// terminated.
    pub fn shutdown(&mut self) -> (r: usize)
        requires
            old(self).wf(),
        ensures
            final(self).wf(),
            old(self).stays_closed(*final(self)),
            Self::shut_down(*old(self), *final(self), r),
    {
        self.closed = true;
        let idle: usize = self.idle;
        self.idle = 0;
        idle
    }

    /// What another handle does.
    pub open spec fn handle_added(
        pre: HelperProcessPool,
        post: HelperProcessPool,
    ) -> bool {
        post == (HelperProcessPool {
            handles: (pre.handles + 1) as usize,
            ..pre
        })
    }

    /// Another handle on the pool.
    pub fn clone_handle(&mut self)
        requires
            old(self).wf(),
            old(self).handles < usize::MAX,
        ensures
            final(self).wf(),
            old(self).stays_closed(*final(self)),
            Self::handle_added(*old(self), *final(self)),
    {
        self.handles = self.handles + 1;
    }

    /// What dropping a handle does.
    pub open spec fn handle_dropped(
        pre: HelperProcessPool,
        post: HelperProcessPool,
        r: bool,
    ) -> bool {
        &&& r == (pre.handles == 1)
        &&& post == (HelperProcessPool {
            handles: (pre.handles - 1) as usize,
            closed: pre.closed || r,
            ..pre
        })
    }

    /// A handle on the pool goes; with the last one the pool closes.
    pub fn drop_handle(&mut self) -> (r: bool)
        requires
            old(self).wf(),
            old(self).handles > 0,
        ensures
            final(self).wf(),
            old(self).stays_closed(*final(self)),
            Self::handle_dropped(*old(self), *final(self), r),
    {
        self.handles = self.handles - 1;
        if self.handles == 0 {
            self.closed = true;
            true
        } else {
            false
        }
    }

    /// Nothing is under way and no helper process is left.
    pub fn is_quiescent(&self) -> (r: bool)
        ensures
            r == self.quiescent(),
    {
        self.active == 0 && self.queued == 0 && self.running == 0 && self.preparing == 0
            && self.spawning == 0 && self.owned_children == 0 && self.reaping == 0
    }

    /// Answers a wait for the pool to come to rest: it has, the time is up, or
    /// the wait goes on.
    pub fn shutdown_answer(&self, expired: bool) -> (r: Option<bool>)
        ensures
            r == self.rest_answer(expired),
    {
        if self.is_quiescent() {
            Some(true)
        } else if expired {
            Some(false)
        } else {
            None
        }
    }

    /// The counters as they are.
    pub open spec fn counters(self) -> HelperPoolSnapshot {
        HelperPoolSnapshot {
            active_jobs: self.active,
            maximum_active_jobs: self.maximum_active,
            queued_jobs: self.queued,
            running_helpers: self.running,
            maximum_running_helpers: self.maximum_running,
            preparing_helpers: self.preparing,
            spawning_helpers: self.spawning,
            owned_children: self.owned_children,
            reaping_children: self.reaping,
            poisoned: self.poisoned,
        }
    }

    /// The counters as they are.
    pub fn snapshot(&self) -> (r: HelperPoolSnapshot)
        ensures
            r == self.counters(),
    {
        HelperPoolSnapshot {
            active_jobs: self.active,
            maximum_active_jobs: self.maximum_active,
            queued_jobs: self.queued,
            running_helpers: self.running,
            maximum_running_helpers: self.maximum_running,
            preparing_helpers: self.preparing,
            spawning_helpers: self.spawning,
            owned_children: self.owned_children,
            reaping_children: self.reaping,
            poisoned: self.poisoned,
        }
    }
}

} // verus!
