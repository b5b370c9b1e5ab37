//! What helpers and bootstrap transactions do, said of the requests, the bytes
//! and the files they are given.
use vstd::prelude::*;

use crate::broker::BrokerState;
use crate::config::{ConfigTransactionIdentity, StagedArtifact};
use crate::files::{FileFacts, FileReceipt, FileReceiptModel};
use crate::helper::{
    answers_for, answers_hashing, answers_staging, asks_to_stage, commands, frames, newline_at,
    plain_parents, receipt_in, request_known, response_in, runs, seals, stages_at, undirected,
    FrameBuffer, FrameEnd,
    FrameKind, FrameProgress, HelperCommand, HelperPoolError, HelperProgram, HelperRequest,
    HelperRequestEnvelope, HelperResponse, HelperResponseEnvelope, HelperRunEvent, HelperRunPhase,
    HelperRunStep, StableRead, StagingPlace, WorkerOutcome,
};
use crate::host::{
    kill_answer, killed_group, HostProcessBroker, HostProcessError, OwnedHostProcess, Remainder,
};
use crate::json::{JsonModel, MemberModel};
use crate::outside::{is_random_uuid, sha256_text, uuid_text, uuid_value};
use crate::process::{
    after_command, linux_identity, macos_identity, pause_after, start_ticks, windows_identity,
    StartIdentityError,
};
use crate::receipts::{ObservedHostProcess, PreparedBootstrap};
use crate::settings::{
    default_settings, is_fresh_nonce, uuid_bytes, websocket_url, BindAddress, BrokerConfig,
};
use crate::text::{decimal_text, trim_text, unsigned_value, words};
use crate::transaction::{parts_of, SystemBootstrapTransaction, TransactionError};

verus! {

/// A request travels in version 1 under a UUID and is taken so; what comes
/// back is taken exactly if it is of version 1 and under the same identifier.
pub proof fn envelopes_carry_one_request(
    request_id: u128,
    request: HelperRequest,
    sent: HelperRequestEnvelope,
    back: HelperResponseEnvelope,
)
    requires
        seals(request_id, request, sent),
    ensures
        sent.protocol_version == 1,
        sent.request_id@ == uuid_text(request_id),
        sent.request == request,
        request_known(sent) <==> uuid_value(sent.request_id@) is Some,
        response_in(back, sent.request_id@) is Ok <==> back.protocol_version == 1
            && back.request_id@ == sent.request_id@,
        response_in(back, sent.request_id@) is Ok ==> response_in(back, sent.request_id@)->Ok_0
            == back.response,
        response_in(back, sent.request_id@) is Err ==> response_in(back, sent.request_id@)->Err_0
            == HelperPoolError::FailedClosed,
{
}

/// Only requests of version 1 under a UUID are taken.
pub proof fn foreign_versions_are_refused(envelope: HelperRequestEnvelope)
    ensures
        request_known(envelope) <==> envelope.protocol_version == 1 && uuid_value(
            envelope.request_id@,
        ) is Some,
{
}

/// A request is framed exactly if it is shorter than 512 kibibytes; its frame
/// is the request and a newline.
pub proof fn framed_request_ends_in_a_newline(encoded: Seq<u8>, r: Result<Vec<u8>, HelperPoolError>)
    requires
        frames(encoded, r),
    ensures
        r is Ok <==> encoded.len() < 524_288,
        r is Ok ==> r->Ok_0@ == encoded + seq![10u8],
        r is Err ==> r->Err_0 == HelperPoolError::FailedClosed,
{
    assert(encoded.push(10u8) =~= encoded + seq![10u8]);
}

proof fn first_newline(chunk: Seq<u8>)
    ensures
        newline_at(chunk) <= chunk.len(),
        forall|j: int| 0 <= j < newline_at(chunk) ==> #[trigger] chunk[j] != 10,
        newline_at(chunk) < chunk.len() ==> chunk[newline_at(chunk) as int] == 10,
    decreases chunk.len(),
{
    if chunk.len() > 0 && chunk[0] != 10 {
        let rest = chunk.skip(1);
        first_newline(rest);
        assert forall|j: int| 0 <= j < newline_at(chunk) implies #[trigger] chunk[j] != 10 by {
            if j > 0 {
                assert(rest[j - 1] == chunk[j]);
            }
        }
    }
}

/// A frame ends at the first newline, which is taken and not kept; what was
/// read before it is the frame, without a carriage return at the end of a
/// request. Without a newline all of the chunk is kept. A frame beyond its
/// bound is given up.
pub proof fn frame_is_what_stands_before_the_newline(
    pre: FrameBuffer,
    post: FrameBuffer,
    chunk: Seq<u8>,
    maximum: usize,
    r: FrameProgress,
)
    requires
        FrameBuffer::takes(pre, post, chunk, maximum, r),
    ensures
        post.kind == pre.kind,
        r is More ==> {
            &&& forall|j: int| 0 <= j < chunk.len() ==> #[trigger] chunk[j] != 10
            &&& post.bytes@ == pre.bytes@ + chunk
            &&& pre.kind == FrameKind::Request ==> post.bytes@.len() <= maximum
            &&& pre.kind == FrameKind::Response ==> post.bytes@.len() <= maximum + 1
        },
        r is Complete ==> {
            let n = r->consumed as int;
            let frame = pre.bytes@ + chunk.take(n - 1);
            &&& 1 <= n <= chunk.len()
            &&& chunk[n - 1] == 10
            &&& forall|j: int| 0 <= j < n - 1 ==> #[trigger] chunk[j] != 10
            &&& frame.len() <= maximum
            &&& post.bytes@ == if pre.kind == FrameKind::Request && frame.len() > 0
                && frame[frame.len() - 1] == 13 {
                frame.take(frame.len() - 1)
            } else {
                frame
            }
        },
        r is TooLong ==> post.bytes@ == pre.bytes@ && pre.bytes@.len() + chunk.len() > maximum,
{
    first_newline(chunk);
    let end = newline_at(chunk) as int;
    if end == chunk.len() {
        assert(chunk.take(end) =~= chunk);
    }
    let frame = pre.bytes@ + chunk.take(end);
    if frame.len() > 0 {
        assert(frame.drop_last() =~= frame.take(frame.len() - 1));
    }
}

/// A helper's stream must not end before a newline; a client's may, and what
/// was read is then its last frame, if it is anything.
pub proof fn ended_stream_leaves_the_rest(frame: FrameBuffer, r: FrameEnd)
    requires
        frame.ends_with(r),
    ensures
        r is CutOff <==> frame.kind == FrameKind::Response,
        r is Frame <==> frame.kind == FrameKind::Request && frame.bytes@.len() > 0,
        r is Frame ==> r->Frame_0 == frame.bytes,
        r is Nothing <==> frame.kind == FrameKind::Request && frame.bytes@.len() == 0,
{
}

/// A file that is hashed or staged by a helper counts exactly if it was a
/// regular, bounded file that was the same before and after, read in full.
pub proof fn stable_read_is_undisturbed(read: StableRead, maximum_bytes: u64)
    ensures
        read.stable(maximum_bytes) <==> {
            &&& read.before.is_file
            &&& read.bytes@.len() <= maximum_bytes
            &&& read.bytes@.len() == read.before.len
            &&& read.bytes@.len() == read.len_after
            &&& read.identity == read.identity_after
            &&& read.identity == read.path_identity_after
        },
{
}

/// A staged file lies in a directory of its own, named by its identifier, below
/// the one that all staged files share.
pub proof fn staged_file_lies_in_its_own_directory(place: StagingPlace)
    ensures
        place.path_parts().len() == 3,
        place.path_parts()[0] == "adobepy-bootstrap-staging"@,
        place.path_parts()[1] == place.staging_id@,
        place.path_parts()[2] == "payload.bin"@,
{
}

/// A path is direct exactly if none of its components leads elsewhere, and a
/// file is created below parents that are all plain directories.
pub proof fn direct_paths_have_plain_parents(components: Seq<FileFacts>)
    ensures
        undirected(components) <==> forall|i: int|
            0 <= i < components.len() ==> !(#[trigger] components[i]).is_symlink
                && !components[i].is_reparse,
        plain_parents(components) <==> forall|i: int|
            0 <= i < components.len() ==> (#[trigger] components[i]).is_dir
                && !components[i].is_symlink && !components[i].is_reparse,
{
    if plain_parents(components) {
        assert forall|i: int| 0 <= i < components.len() implies (#[trigger] components[i]).is_dir
            && !components[i].is_symlink && !components[i].is_reparse by {
            assert(components[i].plain_dir());
        }
    }
}

/// A request to stage names its transaction and its place by UUIDs, and
/// carries exactly the bytes; a place exists for any two UUIDs.
pub proof fn staging_request_names_its_transaction(
    transaction: ConfigTransactionIdentity,
    staging_id: u128,
    bytes: Vec<u8>,
    request: HelperRequest,
    place: Option<StagingPlace>,
)
    requires
        asks_to_stage(transaction, staging_id, bytes, request),
        stages_at(request->transaction_id@, request->staging_id@, place),
    ensures
        request is Stage,
        request->generation == transaction.generation,
        request->bytes == bytes,
        request->transaction_id@ == uuid_text(transaction.transaction_id),
        request->staging_id@ == uuid_text(staging_id),
        place is Some,
        place->0.transaction_id@ == uuid_text(transaction.transaction_id),
        place->0.staging_id@ == uuid_text(staging_id),
{
}

/// A place exists for two texts exactly if both are UUIDs.
pub proof fn staging_place_needs_identifiers(
    transaction_id: Seq<char>,
    staging_id: Seq<char>,
    r: Option<StagingPlace>,
)
    requires
        stages_at(transaction_id, staging_id, r),
    ensures
        r is Some <==> uuid_value(transaction_id) is Some && uuid_value(staging_id) is Some,
        r is Some ==> {
            &&& r->0.transaction_id@ == uuid_text(uuid_value(transaction_id)->0)
            &&& r->0.staging_id@ == uuid_text(uuid_value(staging_id)->0)
        },
{
}

/// Staging is answered exactly if the file was found with the very bytes; the
/// answer has their length and digest, and where they are.
pub proof fn staging_answer_describes_the_bytes(
    generation: u64,
    place: StagingPlace,
    path: String,
    bytes: Seq<u8>,
    captured: Option<Vec<u8>>,
    r: Option<HelperResponse>,
)
    requires
        answers_staging(generation, place, path, bytes, captured, r),
    ensures
        r is Some <==> captured is Some && captured->0@ == bytes,
        r is Some ==> {
            &&& r->0 is Staged
            &&& r->0->generation == generation
            &&& r->0->transaction_id == place.transaction_id
            &&& r->0->staging_id == place.staging_id
            &&& r->0->path == path
            &&& r->0->Staged_bytes == bytes.len()
            &&& r->0->Staged_sha256@ == sha256_text(bytes)
        },
{
}

/// Hashing is answered with the length and the digest of the bytes, and the
/// receipt holds both; no other answer is a receipt.
pub proof fn hash_answer_is_a_receipt(bytes: Seq<u8>, r: HelperResponse, other: HelperResponse)
    requires
        answers_hashing(bytes, r),
    ensures
        receipt_in(r) is Ok,
        receipt_in(r)->Ok_0.bytes == bytes.len(),
        receipt_in(r)->Ok_0.sha256@ == sha256_text(bytes),
        receipt_in(other) is Ok <==> other is Hashed,
        receipt_in(other) is Err ==> receipt_in(other)->Err_0 == HelperPoolError::FailedClosed,
{
}

/// What a helper staged is an artifact exactly if its answer names a
/// transaction and a place, and the file was found with the length and the
/// digest that it reports.
pub proof fn artifact_is_what_the_helper_staged(
    response: HelperResponse,
    captured: Option<FileReceiptModel>,
    r: Option<StagedArtifact>,
)
    requires
        StagedArtifact::made_from(response, captured, r),
    ensures
        r is Some <==> {
            &&& response is Staged
            &&& uuid_value(response->transaction_id@) is Some
            &&& uuid_value(response->staging_id@) is Some
            &&& captured is Some
            &&& captured->0.bytes is Some
            &&& captured->0.bytes->0.len() == response->Staged_bytes
            &&& captured->0.sha256 == Some(response->Staged_sha256@)
        },
        r is Some ==> {
            &&& r->0@.transaction.generation == response->generation
            &&& Some(r->0@.transaction.transaction_id) == uuid_value(response->transaction_id@)
            &&& Some(r->0@.staging_id) == uuid_value(response->staging_id@)
            &&& r->0@.path == response->path@
            &&& r->0@.bytes == response->Staged_bytes
            &&& r->0@.sha256 == response->Staged_sha256@
        },
{
}

/// A helper answers with what was done; of a failure or a panic it tells
/// nothing but that it happened.
pub proof fn worker_answers_for_its_outcome(outcome: WorkerOutcome, r: HelperResponse)
    requires
        answers_for(outcome, r),
    ensures
        outcome is Done ==> r == outcome->Done_0,
        outcome is Failed ==> r is Failed && r->code@ == "worker_failed"@,
        outcome is Panicked ==> r is Failed && r->code@ == "worker_panicked"@,
{
}

/// A job gets the response exactly if it was reading and the answer is of
/// version 1 and to its own request. A request that was written is read on;
/// everything else ends the helper: a shutdown and a deadline as what they
/// are, anything unexpected as a failure.
pub proof fn job_gets_the_answer_to_its_request(
    phase: HelperRunPhase,
    event: HelperRunEvent,
    request_id: Seq<char>,
    r: HelperRunStep,
)
    requires
        runs(phase, event, request_id, r),
    ensures
        r is Return <==> {
            &&& phase == HelperRunPhase::Reading
            &&& event is Answered
            &&& event->Answered_0 is Some
            &&& event->Answered_0->0.protocol_version == 1
            &&& event->Answered_0->0.request_id@ == request_id
        },
        r is Return ==> r->Return_0 == event->Answered_0->0.response,
        r is Read <==> phase == HelperRunPhase::Writing && event is Written && event->Written_0,
        r is Terminate ==> r->Terminate_0 == if event is ShuttingDown {
            HelperPoolError::ShuttingDown
        } else if event is TimedOut {
            HelperPoolError::TimedOut
        } else {
            HelperPoolError::FailedClosed
        },
{
}

/// A helper program is run exactly if nothing on its path leads elsewhere, it
/// is a regular file, and an installed one lies beside the current program.
pub proof fn helper_program_is_in_place(
    program: HelperProgram,
    components: Seq<FileFacts>,
    facts: FileFacts,
    resolved_parent: Seq<char>,
    current_parent: Seq<char>,
)
    ensures
        program.runnable(components, facts, resolved_parent, current_parent) <==> {
            &&& forall|i: int|
                0 <= i < components.len() ==> !(#[trigger] components[i]).is_symlink
                    && !components[i].is_reparse
            &&& facts.is_file
            &&& !facts.is_symlink
            &&& !facts.is_reparse
            &&& program.installed_sibling ==> resolved_parent == current_parent
        },
        HostProcessBroker::startable(components, facts) <==> {
            &&& forall|i: int|
                0 <= i < components.len() ==> !(#[trigger] components[i]).is_symlink
                    && !components[i].is_reparse
            &&& facts.is_file
            &&& !facts.is_symlink
            &&& !facts.is_reparse
        },
{
}

/// The helper program serves without arguments, tells its version, panics or
/// holds where it is asked to, and supports nothing else.
pub proof fn helper_program_obeys_its_arguments(args: Seq<String>, r: HelperCommand)
    requires
        commands(args, r),
    ensures
        r is Serve <==> args.len() == 0,
        r is Version <==> args.len() == 1 && args[0]@ == "--version"@,
        r is OrdinaryPanic <==> args.len() == 1 && args[0]@ == "--ordinary-panic"@,
        r is Hold <==> args.len() == 2 && args[0]@ == "--hold-ms"@ && unsigned_value(args[1]@)
            is Some,
        r is Hold ==> Some(r->millis) == unsigned_value(args[1]@),
        r is BadHold <==> args.len() == 2 && args[0]@ == "--hold-ms"@ && unsigned_value(args[1]@)
            is None,
{
    reveal_strlit("--version");
    reveal_strlit("--ordinary-panic");
    if args.len() == 1 {
        assert("--version"@.len() == 9);
        assert("--ordinary-panic"@.len() == 16);
    }
}

// ---------------------------------------------------------------------------
// Bootstrap transactions

/// A prepared bootstrap can be carried out exactly if it is complete and its
/// configuration file still has the content it had when it was prepared; what
/// is carried out is what was prepared. The transaction begins unrevoked, with
/// its lease, and with nothing activated or committed.
pub proof fn transaction_begins_with_what_was_prepared(
    prepared: PreparedBootstrap,
    found: FileReceiptModel,
    lease: ConfigTransactionIdentity,
    staged: StagedArtifact,
    staging_path: String,
)
    ensures
        parts_of(prepared, found) is Some <==> {
            &&& prepared.config_path is Some
            &&& prepared.transient_config is Some
            &&& prepared.committed_config is Some
            &&& prepared.previous_config is Some <==> found.bytes is Some
            &&& prepared.previous_config is Some ==> prepared.previous_config->0@ == found.bytes->0
        },
        parts_of(prepared, found) is Some ==> {
            let parts = parts_of(prepared, found)->0;
            let begun = SystemBootstrapTransaction::begun_with(parts, lease, staged, staging_path);
            &&& Some(parts.path) == prepared.config_path
            &&& Some(parts.transient) == prepared.transient_config
            &&& Some(parts.committed) == prepared.committed_config
            &&& parts.module_sha256 == prepared.module_sha256
            &&& parts.illustrator_receipt == prepared.illustrator_receipt
            &&& Some(begun.committed_config) == prepared.committed_config
            &&& begun.module_sha256 == prepared.module_sha256
            &&& begun.illustrator_receipt == prepared.illustrator_receipt
            &&& begun.lease == Some(lease)
            &&& begun.staged == staged
            &&& begun.staging_path == staging_path
            &&& !begun.cancelled
            &&& !begun.activated
            &&& begun.commit_receipt is None
        },
{
}

/// A transaction may be activated exactly while it is not revoked and has its
/// lease; entering that needs the same lease, and changes nothing else.
pub proof fn unrevoked_transaction_is_activated(
    pre: SystemBootstrapTransaction,
    post: SystemBootstrapTransaction,
    lease: ConfigTransactionIdentity,
    r: Result<(), TransactionError>,
)
    requires
        SystemBootstrapTransaction::activation_entered(pre, post, lease, r),
    ensures
        pre.activation() is Ok <==> !pre.cancelled && pre.lease is Some,
        pre.activation() is Ok ==> Some(pre.activation()->Ok_0) == pre.lease,
        pre.activation() is Err ==> pre.activation()->Err_0 == if pre.cancelled {
            TransactionError::Revoked
        } else {
            TransactionError::LeaseUnavailable
        },
        r is Ok <==> !pre.cancelled && pre.lease == Some(lease),
        r is Ok ==> post.activated && post == (SystemBootstrapTransaction {
            activated: true,
            ..pre
        }),
        r is Err ==> r->Err_0 == TransactionError::Revoked && post == pre,
{
}

/// The final configuration may be written exactly while the transaction is not
/// revoked, its attested files hold, the transient one is active and the lease
/// is there; its receipt is entered for the same lease.
pub proof fn active_transaction_is_finalized(
    pre: SystemBootstrapTransaction,
    post: SystemBootstrapTransaction,
    lease: ConfigTransactionIdentity,
    receipt: FileReceipt,
    files_unchanged: bool,
    r: Result<(), TransactionError>,
)
    requires
        SystemBootstrapTransaction::finalization_entered(pre, post, lease, receipt, r),
    ensures
        ({
            let holds = pre.illustrator_receipt is None || files_unchanged;
            let f = pre.finalization(files_unchanged);
            &&& f is Ok <==> !pre.cancelled && holds && pre.activated && pre.lease is Some
            &&& f is Ok ==> Some(f->Ok_0) == pre.lease
            &&& f is Err ==> f->Err_0 == if pre.cancelled {
                TransactionError::Revoked
            } else if !holds {
                TransactionError::FilesChanged
            } else if !pre.activated {
                TransactionError::NotActive
            } else {
                TransactionError::LeaseUnavailable
            }
        }),
        r is Ok <==> !pre.cancelled && pre.lease == Some(lease),
        r is Ok ==> post.commit_receipt == Some(receipt) && post == (SystemBootstrapTransaction {
            commit_receipt: post.commit_receipt,
            ..pre
        }),
        r is Err ==> r->Err_0 == TransactionError::Revoked && post == pre,
{
}

/// A commit is confirmed exactly while the transaction is not revoked, its
/// attested files hold, and it has its lease and the receipt of its commit,
/// which are what the confirmation is about.
pub proof fn confirmation_needs_the_receipt(
    transaction: SystemBootstrapTransaction,
    lease: ConfigTransactionIdentity,
    files_unchanged: bool,
    r: Result<(ConfigTransactionIdentity, FileReceipt), TransactionError>,
)
    requires
        transaction.confirmation(files_unchanged, r),
    ensures
        ({
            let holds = transaction.illustrator_receipt is None || files_unchanged;
            let c = transaction.confirmable(lease, files_unchanged);
            let p = transaction.publication(files_unchanged);
            &&& r is Ok <==> !transaction.cancelled && holds && transaction.lease is Some
                && transaction.commit_receipt is Some
            &&& r is Ok ==> {
                &&& Some(r->Ok_0.0) == transaction.lease
                &&& r->Ok_0.1@ == transaction.commit_receipt->0@
            }
            &&& r is Err ==> r->Err_0 == if transaction.cancelled {
                TransactionError::Revoked
            } else if !holds {
                TransactionError::FilesChanged
            } else if transaction.lease is None {
                TransactionError::LeaseUnavailable
            } else {
                TransactionError::ReceiptUnavailable
            }
            &&& c is Ok <==> !transaction.cancelled && holds && transaction.lease == Some(lease)
            &&& c is Err ==> c->Err_0 == if transaction.cancelled {
                TransactionError::Revoked
            } else if !holds {
                TransactionError::FilesChanged
            } else {
                TransactionError::LeaseUnavailable
            }
            &&& p is Ok <==> !transaction.cancelled && holds
            &&& p is Err ==> p->Err_0 == if transaction.cancelled {
                TransactionError::Revoked
            } else {
                TransactionError::FilesChanged
            }
        }),
{
}

/// A revoked transaction goes no further, and one that is undone hands its
/// lease over to be rolled back, once.
pub proof fn revoked_transaction_only_rolls_back(
    pre: SystemBootstrapTransaction,
    revoked: SystemBootstrapTransaction,
    undone: SystemBootstrapTransaction,
    r: Option<ConfigTransactionIdentity>,
    files_unchanged: bool,
)
    requires
        SystemBootstrapTransaction::revoked(pre, revoked),
        SystemBootstrapTransaction::undone(revoked, undone, r),
    ensures
        revoked.cancelled,
        revoked.lease == pre.lease,
        revoked.staged == pre.staged,
        revoked.staging_path == pre.staging_path,
        revoked.activation() is Err,
        revoked.finalization(files_unchanged) is Err,
        revoked.publication(files_unchanged) is Err,
        r == pre.lease,
        undone.lease is None,
        undone.cancelled,
        !undone.activated,
        undone.commit_receipt is None,
        undone.staging_path == pre.staging_path,
{
}

// ---------------------------------------------------------------------------
// Processes

/// A process is still there exactly if the system shows one of the same
/// number, the same start and the same executable; a process that goes in the
/// background leaves the account, and it is told when it was the last.
pub proof fn shown_process_is_the_same(
    process: ObservedHostProcess,
    actual: Option<ObservedHostProcess>,
    pre: HostProcessBroker,
    post: HostProcessBroker,
    last: bool,
)
    requires
        pre.active > 0,
        HostProcessBroker::left_late(pre, post, last),
    ensures
        process.shown_as(actual) <==> {
            &&& actual is Some
            &&& actual->0.pid == process.pid
            &&& actual->0.process_start_identity@ == process.process_start_identity@
            &&& actual->0.executable_path@ == process.executable_path@
        },
        post.active == pre.active - 1,
        last <==> post.active == 0,
{
    if actual is Some && actual->0.pid == process.pid && actual->0.process_start_identity@
        == process.process_start_identity@ && actual->0.executable_path@
        == process.executable_path@ {
        assert(actual->0@ =~= process@);
    }
    if process.shown_as(actual) {
        let a = actual->0@;
        let b = process@;
        assert(a.pid == b.pid && a.process_start_identity == b.process_start_identity
            && a.executable_path == b.executable_path);
    }
}

/// A process is let go to be reaped later exactly if it is owned, can be
/// waited for and there is someone to wait. An account is at rest exactly when
/// it is empty.
pub proof fn released_process_is_reaped_later(
    process: OwnedHostProcess,
    can_wait: bool,
    account: HostProcessBroker,
    expired: bool,
)
    ensures
        process.remainder(can_wait) == Remainder::ReapLater <==> process.owned && process.has_child
            && can_wait,
        process.terminable() is Ok <==> process.owned && process.has_child,
        process.terminable() is Err ==> process.terminable()->Err_0 == HostProcessError::Stale,
        account.rest_answer(expired) == Some(true) <==> account.active == 0,
        account.rest_answer(expired) == Some(false) <==> account.active > 0 && expired,
{
}

/// A kill goes to the group of the process itself, whose number is negated; it
/// succeeds also where the group has gone already.
pub proof fn kill_goes_to_the_group(pid: u32, failed: bool, errno: i32)
    ensures
        killed_group(pid) is Ok <==> pid <= 2_147_483_647,
        killed_group(pid) is Ok ==> killed_group(pid)->Ok_0 + pid == 0,
        killed_group(pid) is Err ==> killed_group(pid)->Err_0 == HostProcessError::Stale,
        kill_answer(failed, errno) is Ok <==> !failed || errno == 3,
        kill_answer(failed, errno) is Err ==> kill_answer(failed, errno)->Err_0
            == HostProcessError::QuiescenceFailed,
{
}

proof fn behind_the_command(status: Seq<char>)
    ensures
        after_command(status) is Some ==> {
            let rest = after_command(status)->0;
            &&& rest.len() < status.len()
            &&& status[status.len() - rest.len() - 1] == ')'
            &&& rest == status.skip(status.len() - rest.len())
            &&& forall|i: int| 0 <= i < rest.len() ==> #[trigger] rest[i] != ')'
        },
        after_command(status) is None <==> forall|i: int|
            0 <= i < status.len() ==> #[trigger] status[i] != ')',
    decreases status.len(),
{
    if status.len() > 0 {
        let t = status.drop_last();
        behind_the_command(t);
        if status.last() == ')' {
            assert(status.skip(status.len() as int) =~= Seq::<char>::empty());
            assert(status[status.len() - 1] == ')');
        } else if after_command(t) is Some {
            let part = after_command(t)->0;
            let rest = part.push(status.last());
            assert(status.skip(status.len() - rest.len()) =~= rest);
            assert(t[t.len() - part.len() - 1] == ')');
            assert(status[status.len() - rest.len() - 1] == ')');
        } else {
            assert forall|i: int| 0 <= i < status.len() implies #[trigger] status[i] != ')' by {
                if i < t.len() {
                    assert(t[i] == status[i]);
                }
            }
        }
        if after_command(status) is Some && after_command(t) is Some {
            let k = t.len() - after_command(t)->0.len() - 1;
            assert(status[k] == t[k]);
        }
    }
}

/// The start of a Linux process is identified by its boot, which is a UUID,
/// and by the twentieth word behind its command, which is a number. The
/// command ends at the last closing parenthesis.
pub proof fn linux_start_is_boot_and_ticks(
    status: Seq<char>,
    boot_id: Seq<char>,
    rest: Seq<char>,
    r: Result<String, StartIdentityError>,
)
    requires
        linux_identity(status, boot_id, r),
    ensures
        (forall|i: int| 0 <= i < status.len() ==> #[trigger] status[i] != ')') ==> r == Err::<
            String,
            StartIdentityError,
        >(StartIdentityError::NoCommand),
        after_command(status) == Some(rest) ==> {
            let fields = words(rest);
            let ticks = fields[19];
            &&& rest == status.skip(status.len() - rest.len())
            &&& status[status.len() - rest.len() - 1] == ')'
            &&& forall|i: int| 0 <= i < rest.len() ==> #[trigger] rest[i] != ')'
            &&& fields.len() < 20 ==> r == Err::<String, StartIdentityError>(
                StartIdentityError::NoTicks,
            )
            &&& r is Ok <==> {
                &&& fields.len() >= 20
                &&& forall|i: int| 0 <= i < ticks.len() ==> '0' <= #[trigger] ticks[i] <= '9'
                &&& uuid_value(trim_text(boot_id)) is Some
            }
            &&& r is Ok ==> r->Ok_0@ == "linux:"@ + trim_text(boot_id) + ":"@ + ticks
            &&& r is Err && fields.len() >= 20 ==> r->Err_0 == if start_ticks(status) is Err {
                StartIdentityError::BadTicks
            } else {
                StartIdentityError::BadBoot
            }
        },
        after_command(status) is None <==> forall|i: int|
            0 <= i < status.len() ==> #[trigger] status[i] != ')',
{
    behind_the_command(status);
}

/// The start of a Windows process is its creation time, of a macOS process the
/// second and the microsecond, in six digits at least; a launch is waited for
/// for two seconds, with pauses of twenty milliseconds.
pub proof fn start_times_are_told_in_full(
    high: u32,
    low: u32,
    seconds: u64,
    microseconds: u64,
    r: Option<String>,
    elapsed_ms: u64,
)
    requires
        macos_identity(seconds, microseconds, r),
    ensures
        windows_identity(high, low) == "windows:"@ + decimal_text(
            (high * 4_294_967_296 + low) as nat,
        ),
        r is Some <==> seconds > 0,
        r is Some ==> {
            let digits = decimal_text(microseconds as nat);
            &&& digits.len() >= 6 ==> r->0@ == "macos:"@ + decimal_text(seconds as nat) + ":"@
                + digits
            &&& digits.len() < 6 ==> r->0@ == "macos:"@ + decimal_text(seconds as nat) + ":"@ + (
            Seq::new((6 - digits.len()) as nat, |i: int| '0') + digits)
        },
        pause_after(elapsed_ms) == if elapsed_ms < 2_000 {
            Some(20u64)
        } else {
            None
        },
{
}

// ---------------------------------------------------------------------------
// Settings

/// Photoshop bridges connect over the loopback interface alone: to any address
/// of 127.0.0.0/8, or to the loopback of version 6, at the broker's port.
pub proof fn bridges_connect_by_loopback(address: BindAddress, port: u16, r: Option<String>)
    requires
        websocket_url(address, port, r),
    ensures
        address is V4 ==> {
            &&& r is Some <==> address->a == 127
            &&& r is Some ==> r->0@ == "ws://"@ + (decimal_text(127) + "."@ + decimal_text(
                address->b as nat,
            ) + "."@ + decimal_text(address->c as nat) + "."@ + decimal_text(address->d as nat))
                + ":"@ + decimal_text(port as nat) + "/v1/bridge/photoshop/ws"@
        },
        address is V6 ==> {
            &&& r is Some <==> address->bits == 1
            &&& r is Some ==> r->0@ == "ws://"@ + "[::1]"@ + ":"@ + decimal_text(port as nat)
                + "/v1/bridge/photoshop/ws"@
        },
{
}

/// The report of the health says that all is well, how many bridges are
/// connected and what the broker speaks.
pub proof fn health_counts_the_sessions(state: BrokerState)
    ensures
        state.health_json() == JsonModel::Object(
            seq![
                MemberModel { name: "status"@, value: JsonModel::Text("ok"@) },
                MemberModel {
                    name: "sessions"@,
                    value: JsonModel::Number(decimal_text(state.sessions.size())),
                },
                MemberModel { name: "protocol"@, value: JsonModel::Text("jsonrpc-2.0"@) },
            ],
        ),
{
    assert(state.health_json()->Object_0 =~= seq![
        MemberModel { name: "status"@, value: JsonModel::Text("ok"@) },
        MemberModel {
            name: "sessions"@,
            value: JsonModel::Number(decimal_text(state.sessions.size())),
        },
        MemberModel { name: "protocol"@, value: JsonModel::Text("jsonrpc-2.0"@) },
    ]);
}

/// Without settings a broker listens on its own machine alone, and waits half
/// a minute for a reply. A nonce is the digest of the bytes of two random
/// identifiers.
pub proof fn default_broker_is_local(config: BrokerConfig, nonce: Seq<char>)
    requires
        default_settings(config),
    ensures
        config.address == (BindAddress::V4 { a: 127, b: 0, c: 0, d: 1 }),
        config.port == 47_391,
        config.token@ == "dev-token"@,
        config.default_timeout_ms == 30_000,
        is_fresh_nonce(nonce) ==> {
            &&& nonce.len() == 64
            &&& exists|a: u128, b: u128| #[trigger]
                is_random_uuid(a) && #[trigger] is_random_uuid(b) && nonce == sha256_text(
                    uuid_bytes(a) + uuid_bytes(b),
                )
        },
{
}

/// A UUID is sixteen bytes, the most significant first.
pub proof fn uuid_bytes_are_big_endian(value: u128, i: int)
    requires
        0 <= i < 16,
    ensures
        uuid_bytes(value).len() == 16,
        uuid_bytes(value)[i] == (value >> ((8 * (15 - i)) as u128)) as u8,
{
}

} // verus!
