//! What the steps of a configuration transaction do, said of the record of the
//! lease and of the files that were found.
use vstd::prelude::*;

use crate::config::{
    activates, activates_at_once, begins, begins_confirmation, begins_rollback, confirms,
    confirms_at_once, enters_activation, enters_commit, enters_rollback, enters_write, finalizes,
    gives_up, lease_busy, prepares_confirmation, publishes, reserved, sets_out_to_commit, staged,
    ConfigCommitConfirmation, ConfigLease, ConfigPhase, ConfigPublicationPermit,
    ConfigReservation, ConfigRollback, ConfigTransactionError, ConfigTransactionIdentity,
    ConfigWrite, ConfirmingCommit, LeaseModel, OwnerModel, QuiescenceAck, RestoreModel,
    RollbackModel, StagedArtifact, StagedModel, WriteModel,
};
use crate::files::{
    captures, counts_as_written, discard_permitted, removal_permitted, write_permitted,
    CaptureError, FileIdentity, FileObservation, FileReceipt, FileReceiptModel,
};
use crate::outside::sha256_text;

verus! {

/// The record is there, has not been given up, and is that of the lease.
pub open spec fn held_by(record: Option<LeaseModel>, id: ConfigTransactionIdentity) -> bool {
    record is Some && record->0.valid && record->0.identity.generation == id.generation
        && record->0.identity.transaction_id == id.transaction_id
}

/// Nothing but the phase, the attempt and the receipt of the write differs.
pub open spec fn same_lease(a: LeaseModel, b: LeaseModel) -> bool {
    &&& a.identity == b.identity
    &&& a.valid == b.valid
    &&& a.destination == b.destination
    &&& a.expected == b.expected
}

/// A lease is busy while it is not published and is still valid, or has set
/// out to write or written something.
pub proof fn busy_lease_is_unfinished(record: Option<LeaseModel>)
    ensures
        lease_busy(record) <==> {
            &&& record is Some
            &&& record->0.phase != ConfigPhase::Published
            &&& record->0.valid || record->0.attempted is Some || record->0.written is Some
        },
{
}

/// A file is reserved exactly if it is the expected one's path, numbers are
/// left, and neither record is busy. The reservation carries the next number,
/// the given identifier and the expected file; the new lease is the only one
/// on record, valid, and has written nothing.
pub proof fn reservation_is_exclusive(
    pre: OwnerModel,
    post: OwnerModel,
    destination: Seq<char>,
    expected: FileReceiptModel,
    transaction_id: u128,
    r: Result<ConfigReservation, ConfigTransactionError>,
)
    requires
        reserved(pre, post, destination, expected, transaction_id, r),
    ensures
        r is Ok <==> {
            &&& destination == expected.path
            &&& pre.next_generation < u64::MAX
            &&& !lease_busy(pre.active)
            &&& !lease_busy(pre.pending)
        },
        r is Ok ==> {
            &&& r->Ok_0.identity.generation == pre.next_generation + 1
            &&& r->Ok_0.identity.transaction_id == transaction_id
            &&& r->Ok_0.expected@ == expected
            &&& post.pending is None
            &&& held_by(post.active, r->Ok_0.identity)
            &&& post.active->0.phase == ConfigPhase::Active
            &&& post.active->0.destination == destination
            &&& post.active->0.expected == expected
            &&& post.active->0.attempted is None
            &&& post.active->0.written is None
            &&& post.next_generation == pre.next_generation
        },
        r is Err ==> post == pre && r->Err_0 == if destination != expected.path {
            ConfigTransactionError::IdentityChanged
        } else if pre.next_generation == u64::MAX {
            ConfigTransactionError::Io
        } else {
            ConfigTransactionError::Busy
        },
{
}

/// A reserved lease begins exactly if its file was found as expected and its
/// number is still the next one, which is then used up. A file that was found
/// otherwise ends the reservation; one that could not be looked at leaves it.
pub proof fn lease_begins_on_the_expected_file(
    pre: OwnerModel,
    post: OwnerModel,
    id: ConfigTransactionIdentity,
    expected: FileReceiptModel,
    captured: Option<FileReceiptModel>,
    r: Result<ConfigLease, ConfigTransactionError>,
)
    requires
        begins(pre, post, id, expected, captured, r),
    ensures
        r is Ok <==> captured is Some && captured->0 == expected && id.generation
            == pre.next_generation + 1,
        r is Ok ==> {
            &&& r->Ok_0.identity == id
            &&& post.next_generation == id.generation
            &&& post.active == pre.active
            &&& post.pending == pre.pending
        },
        r is Err ==> {
            &&& captured is None ==> r->Err_0 == ConfigTransactionError::Io && post == pre
            &&& captured is Some && captured->0 != expected ==> r->Err_0
                == ConfigTransactionError::IdentityChanged
            &&& captured is Some && captured->0 == expected ==> r->Err_0
                == ConfigTransactionError::Io
            &&& captured is Some && held_by(pre.active, id) ==> post.active is None
            &&& !held_by(pre.active, id) ==> post.active == pre.active
            &&& post.pending == pre.pending
            &&& post.next_generation == pre.next_generation
        },
{
    if held_by(pre.active, id) {
        assert(pre.active->0.identity == id);
    }
}

/// The staged file was found with the length and the digest it was staged
/// with.
pub open spec fn found_as_staged(staged: StagedModel, found: Option<FileReceiptModel>) -> bool {
    &&& found is Some
    &&& found->0.bytes is Some
    &&& found->0.bytes->0.len() == staged.bytes
    &&& found->0.sha256 is Some
    &&& found->0.sha256->0 == staged.sha256
}

/// A staged file is activated exactly by the lease it was staged for, while
/// that lease is the active one and at rest, and if it was found as it was
/// staged. What is then to be written is its content, over the file as it was
/// when the lease began, at the lease's destination.
pub proof fn activation_writes_what_was_staged(
    pre: OwnerModel,
    post: OwnerModel,
    id: ConfigTransactionIdentity,
    staged: StagedModel,
    found: Option<FileReceiptModel>,
    r: Result<ConfigWrite, ConfigTransactionError>,
)
    requires
        activates(pre, post, id, staged, found, r),
    ensures
        r is Ok <==> {
            &&& staged.transaction == id
            &&& held_by(pre.active, id)
            &&& pre.active->0.phase == ConfigPhase::Active
            &&& found_as_staged(staged, found)
        },
        r is Ok ==> {
            &&& r->Ok_0@.bytes == found->0.bytes->0
            &&& r->Ok_0@.destination == pre.active->0.destination
            &&& r->Ok_0@.expected == pre.active->0.expected
            &&& post.active is Some
            &&& same_lease(post.active->0, pre.active->0)
            &&& post.active->0.phase == ConfigPhase::Activating
            &&& post.active->0.attempted == found->0.bytes
            &&& post.active->0.written == pre.active->0.written
            &&& post.pending == pre.pending
            &&& post.next_generation == pre.next_generation
        },
        r is Err ==> {
            &&& post == pre
            &&& r->Err_0 == if staged.transaction != id || !(held_by(pre.active, id) || held_by(
                pre.pending,
                id,
            )) {
                ConfigTransactionError::Stale
            } else if !found_as_staged(staged, found) {
                ConfigTransactionError::IdentityChanged
            } else if !held_by(pre.active, id) {
                ConfigTransactionError::Stale
            } else {
                ConfigTransactionError::Busy
            }
        },
{
    assert(held_by(pre.active, id) ==> pre.active->0.identity == id);
    assert(held_by(pre.pending, id) ==> pre.pending->0.identity == id);
}

/// Activating at once is activating with a last look: it writes only where the
/// file is still as it was when the lease began.
pub proof fn activation_at_once_looks_again(
    pre: OwnerModel,
    post: OwnerModel,
    id: ConfigTransactionIdentity,
    staged: StagedModel,
    found: Option<FileReceiptModel>,
    current: Option<FileReceiptModel>,
    r: Result<ConfigWrite, ConfigTransactionError>,
    apart: Result<ConfigWrite, ConfigTransactionError>,
)
    requires
        activates_at_once(pre, post, id, staged, found, current, r),
        activates(pre, post, id, staged, found, apart),
    ensures
        apart is Err ==> r == apart,
        apart is Ok ==> {
            &&& r is Ok <==> current is Some && current->0 == apart->Ok_0@.expected
            &&& r is Ok ==> r->Ok_0@ == apart->Ok_0@
            &&& r is Err ==> r->Err_0 == if current is None {
                ConfigTransactionError::Io
            } else {
                ConfigTransactionError::IdentityChanged
            }
        },
{
}

/// A write is allowed exactly if it was not cancelled and the file was just
/// found as it is expected to be.
pub proof fn write_needs_the_expected_file(
    write: WriteModel,
    captured: Option<FileReceiptModel>,
    cancelled: bool,
)
    ensures
        write.authorization(captured, cancelled) is Ok <==> captured is Some && captured->0
            == write.expected && !cancelled,
        captured is None ==> write.authorization(captured, cancelled) == Err::<
            (),
            ConfigTransactionError,
        >(ConfigTransactionError::Io),
        captured is Some && captured->0 != write.expected ==> write.authorization(
            captured,
            cancelled,
        ) == Err::<(), ConfigTransactionError>(ConfigTransactionError::IdentityChanged),
        captured is Some && captured->0 == write.expected && cancelled ==> write.authorization(
            captured,
            cancelled,
        ) == Err::<(), ConfigTransactionError>(ConfigTransactionError::Stale),
{
}

/// The outcome of a write is entered exactly if the file at the destination
/// now holds what was written, and the lease, which is the active one, waits
/// for this very write: of its destination and attempt, over the file it began
/// with where it activates, over what it wrote last where it commits. The
/// receipt is kept as what the lease wrote last.
pub proof fn entered_write_is_the_awaited_one(
    pre: OwnerModel,
    post: OwnerModel,
    id: ConfigTransactionIdentity,
    write: WriteModel,
    commit: bool,
    written: Option<FileReceiptModel>,
    r: Result<FileReceipt, ConfigTransactionError>,
)
    requires
        enters_write(pre, post, id, write, commit, written, r),
    ensures
        ({
            let held = pre.active->0;
            let counts = written is Some && written->0.path == write.destination
                && written->0.bytes == Some(write.bytes);
            &&& r is Ok <==> {
                &&& counts
                &&& held_by(pre.active, id)
                &&& held.destination == write.destination
                &&& held.attempted == Some(write.bytes)
                &&& commit ==> held.phase == ConfigPhase::Finalizing && held.written == Some(
                    write.expected,
                )
                &&& !commit ==> held.phase == ConfigPhase::Activating && held.expected
                    == write.expected
            }
            &&& r is Ok ==> {
                &&& r->Ok_0@ == written->0
                &&& post.active is Some
                &&& same_lease(post.active->0, held)
                &&& post.active->0.phase == ConfigPhase::Active
                &&& post.active->0.attempted == held.attempted
                &&& post.active->0.written == written
                &&& post.pending == pre.pending
                &&& post.next_generation == pre.next_generation
            }
            &&& r is Err ==> post == pre && r->Err_0 == if !counts {
                ConfigTransactionError::IdentityChanged
            } else {
                ConfigTransactionError::Stale
            }
        }),
{
    assert(held_by(pre.active, id) ==> pre.active->0.identity == id);
}

/// Entering an activation is entering a write that is no commit; entering a
/// commit is entering one that is.
pub proof fn activation_and_commit_are_writes(
    pre: OwnerModel,
    post: OwnerModel,
    id: ConfigTransactionIdentity,
    write: WriteModel,
    written: Option<FileReceiptModel>,
    r: Result<FileReceipt, ConfigTransactionError>,
)
    ensures
        enters_activation(pre, post, id, write, written, r) ==> enters_write(
            pre,
            post,
            id,
            write,
            false,
            written,
            r,
        ),
        enters_commit(pre, post, id, write, written, r) ==> enters_write(
            pre,
            post,
            id,
            write,
            true,
            written,
            r,
        ),
{
}

/// A lease sets out to commit exactly if it is the active one, at rest, has
/// written something and no other waits to be published. What is then to be
/// written is the committed configuration, over what the lease wrote last.
pub proof fn commit_replaces_what_was_written(
    pre: OwnerModel,
    post: OwnerModel,
    id: ConfigTransactionIdentity,
    committed: Seq<u8>,
    r: Result<ConfigWrite, ConfigTransactionError>,
)
    requires
        sets_out_to_commit(pre, post, id, committed, r),
    ensures
        r is Ok <==> {
            &&& held_by(pre.active, id)
            &&& pre.active->0.phase == ConfigPhase::Active
            &&& pre.active->0.written is Some
            &&& pre.pending is None
        },
        r is Ok ==> {
            &&& r->Ok_0@.bytes == committed
            &&& r->Ok_0@.destination == pre.active->0.destination
            &&& Some(r->Ok_0@.expected) == pre.active->0.written
            &&& post.active is Some
            &&& same_lease(post.active->0, pre.active->0)
            &&& post.active->0.phase == ConfigPhase::Finalizing
            &&& post.active->0.attempted == Some(committed)
            &&& post.active->0.written == pre.active->0.written
            &&& post.pending is None
        },
        r is Err ==> post == pre,
        r is Err ==> r->Err_0 == if !held_by(pre.active, id) && !held_by(pre.pending, id) {
            ConfigTransactionError::Stale
        } else if pre.pending is Some {
            ConfigTransactionError::Busy
        } else if pre.active->0.written is None {
            ConfigTransactionError::Stale
        } else {
            ConfigTransactionError::Busy
        },
{
    assert(held_by(pre.active, id) ==> pre.active->0.identity == id);
    assert(held_by(pre.pending, id) ==> pre.pending->0.identity == id);
}

/// A confirmation is prepared exactly if the lease is the active one and at
/// rest, the receipt is that of what it wrote last, and the file was just
/// found so.
pub proof fn confirmation_is_of_the_last_write(
    owner: OwnerModel,
    id: ConfigTransactionIdentity,
    expected: FileReceiptModel,
    captured: Option<FileReceiptModel>,
    r: Result<ConfigCommitConfirmation, ConfigTransactionError>,
)
    requires
        prepares_confirmation(owner, id, expected, captured, r),
    ensures
        r is Ok <==> {
            &&& held_by(owner.active, id)
            &&& owner.active->0.phase == ConfigPhase::Active
            &&& owner.active->0.written == Some(expected)
            &&& captured == Some(expected)
        },
        r is Ok ==> r->Ok_0.transaction == id && r->Ok_0.expected@ == expected,
        r is Err ==> r->Err_0 == if !held_by(owner.active, id) {
            ConfigTransactionError::Stale
        } else {
            ConfigTransactionError::IdentityChanged
        },
{
    assert(held_by(owner.active, id) ==> owner.active->0.identity == id);
}

/// A confirmation begins exactly with a prepared one of the lease itself that
/// still speaks of its last write; from then on the lease is confirming.
pub proof fn confirming_lease_is_its_own(
    pre: OwnerModel,
    post: OwnerModel,
    id: ConfigTransactionIdentity,
    transaction: ConfigTransactionIdentity,
    expected: FileReceiptModel,
    r: Result<ConfirmingCommit, ConfigTransactionError>,
)
    requires
        begins_confirmation(pre, post, id, transaction, expected, r),
    ensures
        r is Ok <==> {
            &&& transaction == id
            &&& held_by(pre.active, id)
            &&& pre.active->0.written == Some(expected)
            &&& pre.active->0.phase == ConfigPhase::Active
        },
        r is Ok ==> {
            &&& r->Ok_0.destination@ == pre.active->0.destination
            &&& r->Ok_0.expected@ == expected
            &&& post.active is Some
            &&& post.active->0.phase == ConfigPhase::Confirming
            &&& same_lease(post.active->0, pre.active->0)
            &&& post.active->0.written == pre.active->0.written
            &&& post.active->0.attempted == pre.active->0.attempted
            &&& post.pending == pre.pending
        },
        r is Err ==> post == pre && r->Err_0 == if transaction == id && held_by(pre.active, id)
            && pre.active->0.written != Some(expected) {
            ConfigTransactionError::IdentityChanged
        } else {
            ConfigTransactionError::Stale
        },
{
    assert(held_by(pre.active, id) ==> pre.active->0.identity == id);
}

/// A confirmation succeeds exactly if the lease is confirming this very file,
/// which was found once more as it wrote it. The lease then waits for its
/// publication, still valid, and is no longer the active one.
pub proof fn confirmed_lease_waits_for_publication(
    pre: OwnerModel,
    post: OwnerModel,
    id: ConfigTransactionIdentity,
    destination: Seq<char>,
    expected: FileReceiptModel,
    captured: Option<FileReceiptModel>,
    r: Result<ConfigPublicationPermit, ConfigTransactionError>,
)
    requires
        confirms(pre, post, id, destination, expected, captured, r),
    ensures
        r is Ok <==> {
            &&& held_by(pre.active, id)
            &&& pre.active->0.phase == ConfigPhase::Confirming
            &&& pre.active->0.destination == destination
            &&& pre.active->0.written == Some(expected)
            &&& captured == Some(expected)
        },
        r is Ok ==> {
            &&& r->Ok_0.transaction == id
            &&& post.active is None
            &&& held_by(post.pending, id)
            &&& post.pending->0.phase == ConfigPhase::PendingPublication
            &&& same_lease(post.pending->0, pre.active->0)
            &&& post.pending->0.written == pre.active->0.written
            &&& post.pending->0.attempted == pre.active->0.attempted
        },
        r is Err ==> post == pre,
{
    assert(held_by(pre.active, id) ==> pre.active->0.identity == id);
}

/// A transaction is published exactly if it is the one that waits for it. It
/// is then published and no longer valid; the acknowledgement has its number.
pub proof fn publication_is_of_the_waiting_one(
    pre: OwnerModel,
    post: OwnerModel,
    id: ConfigTransactionIdentity,
    r: Result<QuiescenceAck, ConfigTransactionError>,
)
    requires
        publishes(pre, post, id, r),
    ensures
        r is Ok <==> pre.pending is Some && pre.pending->0.identity == id && pre.pending->0.phase
            == ConfigPhase::PendingPublication,
        r is Ok ==> {
            &&& r->Ok_0.generation == id.generation
            &&& post.pending is Some
            &&& post.pending->0.phase == ConfigPhase::Published
            &&& !post.pending->0.valid
            &&& post.pending->0.identity == id
            &&& post.pending->0.written == pre.pending->0.written
            &&& post.active == pre.active
        },
        r is Err ==> r->Err_0 == ConfigTransactionError::Stale && post == pre,
{
}

/// Confirming at once publishes exactly if both looks found what the lease
/// wrote last; a second look that found something else leaves the lease
/// confirming, and unpublished.
pub proof fn confirming_at_once_looks_twice(
    pre: OwnerModel,
    post: OwnerModel,
    id: ConfigTransactionIdentity,
    expected: FileReceiptModel,
    prepared: Option<FileReceiptModel>,
    captured: Option<FileReceiptModel>,
    r: Result<QuiescenceAck, ConfigTransactionError>,
)
    requires
        confirms_at_once(pre, post, id, expected, prepared, captured, r),
    ensures
        r is Ok <==> {
            &&& held_by(pre.active, id)
            &&& pre.active->0.phase == ConfigPhase::Active
            &&& pre.active->0.written == Some(expected)
            &&& prepared == Some(expected)
            &&& captured == Some(expected)
        },
        r is Ok ==> {
            &&& r->Ok_0.generation == id.generation
            &&& post.active is None
            &&& post.pending is Some
            &&& post.pending->0.phase == ConfigPhase::Published
            &&& !post.pending->0.valid
            &&& post.pending->0.identity == id
        },
        r is Err ==> post.pending == pre.pending && post.active is Some == pre.active is Some,
        r is Err && held_by(pre.active, id) ==> held_by(post.active, id),
{
    assert(held_by(pre.active, id) ==> pre.active->0.identity == id);
}

/// Finalizing publishes exactly if the commit can be entered and both looks
/// found the file as it was written; the receipt is that of the write.
pub proof fn finalizing_publishes_what_was_written(
    pre: OwnerModel,
    post: OwnerModel,
    id: ConfigTransactionIdentity,
    write: WriteModel,
    written: Option<FileReceiptModel>,
    prepared: Option<FileReceiptModel>,
    captured: Option<FileReceiptModel>,
    r: Result<FileReceipt, ConfigTransactionError>,
)
    requires
        finalizes(pre, post, id, write, written, prepared, captured, r),
    ensures
        r is Ok <==> {
            &&& written is Some
            &&& written->0.path == write.destination
            &&& written->0.bytes == Some(write.bytes)
            &&& held_by(pre.active, id)
            &&& pre.active->0.phase == ConfigPhase::Finalizing
            &&& pre.active->0.destination == write.destination
            &&& pre.active->0.attempted == Some(write.bytes)
            &&& pre.active->0.written == Some(write.expected)
            &&& prepared == written
            &&& captured == written
        },
        r is Ok ==> {
            &&& r->Ok_0@ == written->0
            &&& post.active is None
            &&& post.pending is Some
            &&& post.pending->0.phase == ConfigPhase::Published
            &&& post.pending->0.written == written
            &&& !post.pending->0.valid
        },
        r is Err ==> post.pending == pre.pending,
        r is Err && held_by(pre.active, id) ==> held_by(post.active, id),
{
    assert(held_by(pre.active, id) ==> pre.active->0.identity == id);
}

/// A rollback begins exactly for a lease that is held, active or awaiting
/// publication, and neither published nor being rolled back. Its plan is what
/// the record says of the file.
pub proof fn rollback_plan_is_the_record(
    pre: OwnerModel,
    post: OwnerModel,
    id: ConfigTransactionIdentity,
    r: Result<ConfigRollback, ConfigTransactionError>,
)
    requires
        begins_rollback(pre, post, id, r),
    ensures
        ({
            let waiting = held_by(pre.pending, id);
            let before = if waiting {
                pre.pending
            } else {
                pre.active
            };
            let after = if waiting {
                post.pending
            } else {
                post.active
            };
            &&& r is Ok <==> held_by(before, id) && before->0.phase != ConfigPhase::Published
                && before->0.phase != ConfigPhase::RollingBack
            &&& r is Ok ==> {
                let plan = r->Ok_0@;
                &&& plan.pending == waiting
                &&& plan.destination == before->0.destination
                &&& plan.expected == before->0.expected
                &&& plan.attempted == before->0.attempted
                &&& plan.written == before->0.written
                &&& after is Some
                &&& after->0.phase == ConfigPhase::RollingBack
                &&& same_lease(after->0, before->0)
                &&& after->0.attempted == before->0.attempted
                &&& after->0.written == before->0.written
                &&& waiting ==> post.active == pre.active
                &&& !waiting ==> post.pending == pre.pending
            }
            &&& r is Err ==> post == pre && r->Err_0 == ConfigTransactionError::Stale
        }),
{
    assert(held_by(pre.active, id) ==> pre.active->0.identity == id);
    assert(held_by(pre.pending, id) ==> pre.pending->0.identity == id);
}

/// A rollback leaves alone a file that was found as the lease found it, or
/// that the lease never touched; it restores exactly a file that was found as
/// the lease wrote it, or with what the lease was writing; it refuses anything
/// else. What it restores is the old content, or that there was no file.
pub proof fn rollback_restores_what_was_there(plan: RollbackModel, captured: Option<FileReceiptModel>)
    ensures
        ({
            let d = plan.decision(captured);
            let now = captured->0;
            let mine = if plan.written is Some {
                now == plan.written->0
            } else {
                plan.attempted is Some && now != plan.expected && now.path == plan.destination
                    && now.identity == plan.expected.identity && now.bytes == plan.attempted
            };
            &&& captured is None ==> d == Err::<RestoreModel, ConfigTransactionError>(
                ConfigTransactionError::Io,
            )
            &&& captured is Some && mine && plan.expected.bytes is Some ==> d == Ok::<
                RestoreModel,
                ConfigTransactionError,
            >(RestoreModel::Write { over: now, bytes: plan.expected.bytes->0 })
            &&& captured is Some && mine && plan.expected.bytes is None ==> d == Ok::<
                RestoreModel,
                ConfigTransactionError,
            >(RestoreModel::Remove { over: now })
            &&& captured is Some && plan.written is None && (plan.attempted is None || now
                == plan.expected) ==> d == Ok::<RestoreModel, ConfigTransactionError>(
                RestoreModel::Nothing,
            )
            &&& captured is Some && !mine && (plan.written is Some || (plan.attempted is Some
                && now != plan.expected)) ==> d == Err::<RestoreModel, ConfigTransactionError>(
                ConfigTransactionError::IdentityChanged,
            )
        }),
{
}

/// A rollback is entered as done exactly if the file was restored and the
/// record is still the one that the plan was made of. The record then goes.
pub proof fn finished_rollback_clears_the_record(
    pre: OwnerModel,
    post: OwnerModel,
    id: ConfigTransactionIdentity,
    plan: RollbackModel,
    restored: bool,
    r: Result<QuiescenceAck, ConfigTransactionError>,
)
    requires
        enters_rollback(pre, post, id, plan, restored, r),
    ensures
        ({
            let record = if plan.pending {
                pre.pending
            } else {
                pre.active
            };
            &&& r is Ok <==> {
                &&& restored
                &&& record is Some
                &&& record->0.identity == id
                &&& record->0.phase == ConfigPhase::RollingBack
                &&& record->0.destination == plan.destination
                &&& record->0.expected == plan.expected
                &&& record->0.attempted == plan.attempted
                &&& record->0.written == plan.written
            }
            &&& r is Ok ==> {
                &&& r->Ok_0.generation == id.generation
                &&& plan.pending ==> post.pending is None && post.active == pre.active
                &&& !plan.pending ==> post.active is None && post.pending == pre.pending
                &&& post.next_generation == pre.next_generation
            }
            &&& r is Err ==> post == pre && r->Err_0 == if !restored {
                ConfigTransactionError::Io
            } else {
                ConfigTransactionError::Stale
            }
        }),
{
}

/// A lease is given up exactly while it is the active one, at rest, and has
/// neither set out to write nor written anything.
pub proof fn untouched_lease_is_given_up(
    pre: OwnerModel,
    post: OwnerModel,
    id: ConfigTransactionIdentity,
    r: Result<QuiescenceAck, ConfigTransactionError>,
)
    requires
        gives_up(pre, post, id, r),
    ensures
        r is Ok <==> {
            &&& held_by(pre.active, id)
            &&& pre.active->0.phase == ConfigPhase::Active
            &&& pre.active->0.attempted is None
            &&& pre.active->0.written is None
        },
        r is Ok ==> r->Ok_0.generation == id.generation && post.active is None && post.pending
            == pre.pending && post.next_generation == pre.next_generation,
        r is Err ==> post == pre && r->Err_0 == if held_by(pre.active, id) {
            ConfigTransactionError::Busy
        } else {
            ConfigTransactionError::Stale
        },
{
    assert(held_by(pre.active, id) ==> pre.active->0.identity == id);
}

/// Abandoning a lease makes its record invalid and changes nothing else of it,
/// and no other record.
pub proof fn abandoned_lease_keeps_its_record(pre: OwnerModel, id: ConfigTransactionIdentity)
    ensures
        ({
            let post = pre.abandoned(id);
            &&& post.next_generation == pre.next_generation
            &&& post.active is Some <==> pre.active is Some
            &&& post.pending is Some <==> pre.pending is Some
            &&& pre.active is Some ==> {
                &&& post.active->0.valid == (pre.active->0.valid && pre.active->0.identity != id)
                &&& post.active->0.identity == pre.active->0.identity
                &&& post.active->0.phase == pre.active->0.phase
                &&& post.active->0.attempted == pre.active->0.attempted
                &&& post.active->0.written == pre.active->0.written
                &&& post.active->0.expected == pre.active->0.expected
                &&& post.active->0.destination == pre.active->0.destination
            }
            &&& pre.pending is Some ==> {
                &&& post.pending->0.valid == (pre.pending->0.valid && pre.pending->0.identity
                    != id)
                &&& post.pending->0.phase == pre.pending->0.phase
                &&& post.pending->0.written == pre.pending->0.written
            }
        }),
{
}

/// A file that is there is staged with its path, length and digest, for the
/// transaction and under the identifier given.
pub proof fn staged_artifact_describes_the_file(
    transaction: ConfigTransactionIdentity,
    staging_id: u128,
    receipt: FileReceiptModel,
    r: Option<StagedArtifact>,
)
    requires
        staged(transaction, staging_id, receipt, r),
    ensures
        r is Some <==> receipt.bytes is Some && receipt.sha256 is Some,
        r is Some ==> {
            &&& r->0@.transaction == transaction
            &&& r->0@.staging_id == staging_id
            &&& r->0@.path == receipt.path
            &&& r->0@.bytes == receipt.bytes->0.len()
            &&& r->0@.sha256 == receipt.sha256->0
        },
{
}

/// A staged file is read exactly if it was found with the length and the
/// digest it was staged with; what is read is what was found. A file that was
/// moved aside is deleted only where it is the very file that was opened.
pub proof fn staged_file_is_read_as_found(
    artifact: StagedArtifact,
    captured: Option<FileReceipt>,
    r: Option<Vec<u8>>,
    owned: FileIdentity,
    aside: FileReceiptModel,
)
    requires
        artifact.reads_exactly(captured, r),
    ensures
        r is Some <==> {
            &&& captured is Some
            &&& captured->0@.bytes is Some
            &&& captured->0@.bytes->0.len() == artifact.bytes
            &&& captured->0@.sha256 == Some(artifact.sha256@)
        },
        r is Some ==> r->0@ == captured->0@.bytes->0,
        discard_permitted(owned, aside) <==> aside.identity is Some && aside.identity->0 == owned,
{
}

// ---------------------------------------------------------------------------
// Files

/// A file is captured exactly if it was a plain file of at most 512 kibibytes,
/// handle and path led to the same file before and after, and its length was
/// that of what was read. The receipt holds the path, the content, its digest
/// and the file; of a path without a file it holds the path alone.
pub proof fn captured_file_is_undisturbed(
    observation: FileObservation,
    r: Result<FileReceipt, CaptureError>,
)
    requires
        captures(observation, r),
    ensures
        observation is Missing ==> {
            &&& r is Ok
            &&& r->Ok_0@.path == observation->path@
            &&& r->Ok_0@.bytes is None
            &&& r->Ok_0@.sha256 is None
            &&& r->Ok_0@.identity is None
        },
        observation is Present ==> {
            let c = observation->Present_0;
            let regular = c.before.is_file && !c.before.is_symlink && !c.before.is_reparse
                && c.before.len <= 524_288;
            &&& r is Ok <==> {
                &&& regular
                &&& c.path_identity == c.handle_identity
                &&& c.handle_identity_after == c.handle_identity
                &&& c.path_identity_after == c.handle_identity
                &&& c.after.is_file
                &&& !c.after.is_symlink
                &&& !c.after.is_reparse
                &&& c.bytes@.len() <= 524_288
                &&& c.handle_len_after == c.bytes@.len()
                &&& c.after.len == c.bytes@.len()
            }
            &&& r is Ok ==> {
                &&& r->Ok_0@.path == c.path@
                &&& r->Ok_0@.bytes == Some(c.bytes@)
                &&& r->Ok_0@.sha256 == Some(sha256_text(c.bytes@))
                &&& r->Ok_0@.identity == Some(c.handle_identity)
            }
            &&& r is Err ==> r->Err_0 == if !regular {
                CaptureError::Unbounded
            } else if c.path_identity != c.handle_identity {
                CaptureError::PathChanged
            } else {
                CaptureError::ContentChanged
            }
        },
{
}

/// A file is overwritten only where it was found exactly as expected, at its
/// own path, through a handle on that very file, and with at most 512
/// kibibytes; every such write is allowed.
pub proof fn overwritten_file_is_the_expected_one(
    path: Seq<char>,
    expected: FileReceiptModel,
    len: nat,
    opened: Option<FileIdentity>,
    captured: FileReceiptModel,
)
    ensures
        write_permitted(path, expected, len, opened, captured) <==> {
            &&& len <= 524_288
            &&& path == expected.path
            &&& captured.path == expected.path
            &&& captured.bytes == expected.bytes
            &&& captured.sha256 == expected.sha256
            &&& captured.identity == expected.identity
            &&& expected.identity is Some ==> opened is Some && opened->0 == expected.identity->0
        },
{
}

/// A file counts as written exactly if the path leads to the file that was
/// opened and it holds what was written; it is removed only where it was found
/// as expected and is the file that was opened.
pub proof fn written_and_removed_files_are_owned(
    owned: FileIdentity,
    bytes: Seq<u8>,
    expected: FileReceiptModel,
    captured: FileReceiptModel,
)
    ensures
        counts_as_written(owned, bytes, captured) <==> captured.identity is Some
            && captured.identity->0 == owned && captured.bytes is Some && captured.bytes->0
            == bytes,
        removal_permitted(expected, owned, captured) <==> captured == expected
            && captured.identity is Some && captured.identity->0 == owned,
{
}

} // verus!
