//! Ownership of host processes: each one that was started is terminated and
//! reaped, or stays on the account.
use vstd::prelude::*;

use crate::config::QuiescenceAck;
use crate::files::FileFacts;
use crate::helper::ensure_no_redirects;
use crate::outside::{draw_uuid, is_random_uuid};

verus! {

/// Names one started host process.
#[derive(Debug, Clone, Copy, PartialEq, Eq, Structural)]
pub struct HostProcessIdentity {
    pub pid: u32,
    pub ownership_id: u128,
}

impl HostProcessIdentity {
    pub fn pid(&self) -> (r: u32)
        ensures
            r == self.pid,
    {
        self.pid
    }
}

/// Why a host process could not be started or brought down.
#[derive(Debug, Clone, Copy, PartialEq, Eq, Structural)]
pub enum HostProcessError {
    Spawn,
    QuiescenceFailed,
    Stale,
}

impl HostProcessError {
    /// The error as a sentence.
    pub open spec fn sentence(self) -> Seq<char> {
        match self {
            HostProcessError::Spawn => "host process could not be started"@,
            HostProcessError::QuiescenceFailed =>
                "host process could not be terminated and reaped before the deadline"@,
            HostProcessError::Stale => "host process ownership is stale"@,
        }
    }

    /// The error as a sentence.
    pub fn message(&self) -> (r: &'static str)
        ensures
            r@ == self.sentence(),
    {
        match self {
            HostProcessError::Spawn => "host process could not be started",
            HostProcessError::QuiescenceFailed =>
                "host process could not be terminated and reaped before the deadline",
            HostProcessError::Stale => "host process ownership is stale",
        }
    }
}

/// The account of started host processes.
#[derive(Debug, Clone, Copy, PartialEq, Eq, Structural)]
pub struct HostProcessBroker {
    pub active: usize,
}

pub type HostProcessOwner = HostProcessBroker;

/// A started host process.
#[derive(Debug, PartialEq, Eq)]
#[must_use]
pub struct OwnedHostProcess {
    pub identity: HostProcessIdentity,
    pub owned: bool,
    /// The process can still be waited for.
    pub has_child: bool,
}

/// How the termination of a host process went.
#[derive(Debug, Clone, Copy, PartialEq, Eq, Structural)]
pub enum Termination {
    /// The process tree could not be killed.
    KillFailed(HostProcessError),
    /// The process has gone.
    Reaped,
    /// The process was killed but could not be waited for: nobody has seen it
    /// go.
    WaitFailed,
    /// The process was killed but did not go away in time.
    TimedOut,
}

/// What remains to be done after a termination.
#[derive(Debug, Clone, Copy, PartialEq, Eq, Structural)]
pub enum Remainder {
    Nothing,
    /// Wait for the process in the background and report `reaped_late`.
    ReapLater,
}

/// The account after a process has left it.
pub open spec fn one_less(broker: HostProcessBroker) -> HostProcessBroker {
    HostProcessBroker { active: (broker.active - 1) as usize }
}

impl Default for HostProcessBroker {
    fn default() -> (r: Self)
        ensures
            r.active == 0,
    {
        HostProcessBroker { active: 0 }
    }
}

/// What taking a started process into ownership does: where none was started
/// nothing changes, otherwise one process more is owned.
pub open spec fn spawned(
    pre: HostProcessBroker,
    post: HostProcessBroker,
    started: Option<u32>,
    ownership_id: u128,
    r: Result<OwnedHostProcess, HostProcessError>,
) -> bool {
    match started {
        None => r == Err::<OwnedHostProcess, HostProcessError>(HostProcessError::Spawn) && post
            == pre,
        Some(pid) => r == Ok::<OwnedHostProcess, HostProcessError>(
            OwnedHostProcess {
                identity: HostProcessIdentity { pid, ownership_id },
                owned: true,
                has_child: true,
            },
        ) && post.active == pre.active + 1,
    }
}

/// What ending the ownership of a process does: only a process that was reaped
/// leaves the account.
pub open spec fn terminated(
    pre: HostProcessBroker,
    post: HostProcessBroker,
    process: OwnedHostProcess,
    outcome: Termination,
    r: (Result<QuiescenceAck, HostProcessError>, Remainder),
) -> bool {
    if !process.owned || !process.has_child {
        r == (
            Err::<QuiescenceAck, HostProcessError>(HostProcessError::Stale),
            Remainder::Nothing,
        ) && post == pre
    } else {
        match outcome {
            Termination::KillFailed(e) => r == (
                Err::<QuiescenceAck, HostProcessError>(e),
                Remainder::Nothing,
            ) && post == pre,
            Termination::Reaped => r == (
                Ok::<QuiescenceAck, HostProcessError>(
                    QuiescenceAck { generation: process.identity.pid as u64 },
                ),
                Remainder::Nothing,
            ) && post == one_less(pre),
            Termination::WaitFailed | Termination::TimedOut => r == (
                Err::<QuiescenceAck, HostProcessError>(HostProcessError::QuiescenceFailed),
                Remainder::ReapLater,
            ) && post == pre,
        }
    }
}

impl HostProcessBroker {
    /// The executable may be started.
    pub open spec fn startable(components: Seq<FileFacts>, facts: FileFacts) -> bool {
        &&& forall|i: int|
            0 <= i < components.len() ==> !(#[trigger] components[i]).is_symlink
                && !components[i].is_reparse
        &&& facts.plain_file()
    }

    /// Decides whether an executable may be started: no component of its path
    /// leads elsewhere and it is a regular file.
    pub fn may_spawn(components: &Vec<FileFacts>, facts: FileFacts) -> (r: bool)
        ensures
            r == Self::startable(components@, facts),
    {
        ensure_no_redirects(components) && facts.is_plain_file()
    }

    /// Takes a started process on the account. A start that gave no process
    /// identifier failed.
    pub fn spawn(&mut self, started: Option<u32>) -> (r: Result<OwnedHostProcess, HostProcessError>)
        requires
            old(self).active < usize::MAX,
        ensures
            exists|id: u128| #[trigger]
                is_random_uuid(id) && spawned(*old(self), *final(self), started, id, r),
    {
        let id: u128 = draw_uuid();
        self.spawn_as(started, id)
    }

    /// Takes a started process into ownership under the given identifier.
    pub fn spawn_as(&mut self, started: Option<u32>, ownership_id: u128) -> (r: Result<
        OwnedHostProcess,
        HostProcessError,
    >)
        requires
            old(self).active < usize::MAX,
        ensures
            spawned(*old(self), *final(self), started, ownership_id, r),
    {
        match started {
            None => Err(HostProcessError::Spawn),
            Some(pid) => {
                self.active = self.active + 1;
                Ok(
                    OwnedHostProcess {
                        identity: HostProcessIdentity { pid, ownership_id },
                        owned: true,
                        has_child: true,
                    },
                )
            },
        }
    }

    /// No started process is on the account.
    pub fn is_quiescent(&self) -> (r: bool)
        ensures
            r == (self.active == 0),
    {
        self.active == 0
    }

    /// What a wait for the account to become empty is answered.
    pub open spec fn rest_answer(self, expired: bool) -> Option<bool> {
        if self.active == 0 {
            Some(true)
        } else if expired {
            Some(false)
        } else {
            None
        }
    }

    /// Answers a wait for the account to become empty: it is, the time is up,
    /// or the wait goes on.
    pub fn quiesce(&self, expired: bool) -> (r: Option<bool>)
        ensures
            r == self.rest_answer(expired),
    {
        if self.active == 0 {
            Some(true)
        } else if expired {
            Some(false)
        } else {
            None
        }
    }

    /// What a process that goes in the background does.
    pub open spec fn left_late(pre: HostProcessBroker, post: HostProcessBroker, r: bool) -> bool {
        &&& post == one_less(pre)
        &&& r == (post.active == 0)
    }

    /// A process that was waited for in the background has gone. The result
    /// says whether it was the last one.
    pub fn reaped_late(&mut self) -> (r: bool)
        requires
            old(self).active > 0,
        ensures
            Self::left_late(*old(self), *final(self), r),
    {
        self.active = self.active - 1;
        self.active == 0
    }
}

impl OwnedHostProcess {
    pub fn identity(&self) -> (r: HostProcessIdentity)
        ensures
            r == self.identity,
    {
        self.identity
    }

    /// The process is owned and the identity is its own.
    pub open spec fn answers_to(self, identity: HostProcessIdentity) -> bool {
        self.owned && self.identity == identity
    }

    pub fn matches(&self, identity: &HostProcessIdentity) -> (r: bool)
        ensures
            r == self.answers_to(*identity),
    {
        self.owned && self.identity == *identity
    }

    /// Whether the process can be terminated at all.
    pub open spec fn terminable(self) -> Result<(), HostProcessError> {
        if self.owned && self.has_child {
            Ok::<(), HostProcessError>(())
        } else {
            Err(HostProcessError::Stale)
        }
    }

    /// Whether the process can be terminated at all.
    pub fn may_terminate(&self) -> (r: Result<(), HostProcessError>)
        ensures
            r == self.terminable(),
    {
        if self.owned && self.has_child {
            Ok(())
        } else {
            Err(HostProcessError::Stale)
        }
    }

    /// Ends the ownership of a process after its termination. A process tree
    /// that could not be killed stays on the account for good; a process that
    /// could not be waited for, or did not go away in time, stays on it until
    /// it is seen to have gone. Only a process that was reaped leaves the
    /// account here.
    pub fn terminate_and_reap(self, broker: &mut HostProcessBroker, outcome: Termination) -> (r: (
        Result<QuiescenceAck, HostProcessError>,
        Remainder,
    ))
        requires
            old(broker).active > 0,
        ensures
            terminated(*old(broker), *final(broker), self, outcome, r),
    {
        if !self.owned || !self.has_child {
            return (Err(HostProcessError::Stale), Remainder::Nothing);
        }
        match outcome {
            Termination::KillFailed(e) => (Err(e), Remainder::Nothing),
            Termination::Reaped => {
                broker.active = broker.active - 1;
                (
                    Ok(QuiescenceAck { generation: self.identity.pid as u64 }),
                    Remainder::Nothing,
                )
            },
            Termination::WaitFailed | Termination::TimedOut => (
                Err(HostProcessError::QuiescenceFailed),
                Remainder::ReapLater,
            ),
        }
    }

    /// What letting go of the process leaves to do.
    pub open spec fn remainder(self, can_wait: bool) -> Remainder {
        if self.owned && self.has_child && can_wait {
            Remainder::ReapLater
        } else {
            Remainder::Nothing
        }
    }

    /// Lets go of a process without waiting. It is killed, and where it can be
    /// waited for in the background it leaves the account when it has gone.
    pub fn release(self, can_wait: bool) -> (r: Remainder)
        ensures
            r == self.remainder(can_wait),
    {
        if self.owned && self.has_child && can_wait {
            Remainder::ReapLater
        } else {
            Remainder::Nothing
        }
    }
}

/// The process group that a kill signal goes to, negated.
pub open spec fn killed_group(pid: u32) -> Result<i32, HostProcessError> {
    if pid <= i32::MAX {
        Ok::<i32, HostProcessError>((-(pid as int)) as i32)
    } else {
        Err(HostProcessError::Stale)
    }
}

/// The process group that a kill signal goes to, negated as the system call
/// wants it; an identifier beyond the system's range names no process.
pub fn kill_target(pid: u32) -> (r: Result<i32, HostProcessError>)
    ensures
        r == killed_group(pid),
{
    if pid <= i32::MAX as u32 {
        Ok(-(pid as i32))
    } else {
        Err(HostProcessError::Stale)
    }
}

/// Whether a kill signal reached its group.
pub open spec fn kill_answer(failed: bool, errno: i32) -> Result<(), HostProcessError> {
    if !failed || errno == 3 {
        Ok::<(), HostProcessError>(())
    } else {
        Err(HostProcessError::QuiescenceFailed)
    }
}

/// Whether a kill signal reached its group: it did, or there is no such group
/// any more.
pub fn kill_succeeded(failed: bool, errno: i32) -> (r: Result<(), HostProcessError>)
    ensures
        r == kill_answer(failed, errno),
{
    if !failed || errno == 3 {
        Ok(())
    } else {
        Err(HostProcessError::QuiescenceFailed)
    }
}

} // verus!
