//! The steps of a bootstrap call. Each step takes what happened since the
//! last one and says what to do next; between steps other calls may run.
use vstd::prelude::*;

use crate::bootstrap::{
    bind_result, bootstrap_conflict_error, bootstrap_identity_ok, bootstrap_recovery_error,
    bootstrap_timeout_error, bound_result, claimed_process, claimed_process_model, conflict_error,
    drop_expired, foreign_error, lost_error, observed_model, recovery_error, timeout_error,
    unavailable_error, unexpired, validate_bootstrap_identity, BootstrapAction, BootstrapCall,
    BootstrapEvent, BootstrapGrant, BootstrapPhase, BootstrapReceipt, BootstrapTask,
    BOOTSTRAP_PAUSE_MS, RECEIPT_LIFETIME_MS,
};
use crate::bootstrap_types::{PhotoshopBootstrapRequest, PhotoshopBootstrapStatus};
use crate::broker::{next_counter, BrokerState};
use crate::identity::{
    bootstrap_request_error, bootstrap_request_ok, fingerprint, identity_fingerprint, stage_fault,
    validate_photoshop_bootstrap_request,
};
use crate::outside::{hyphenate_uuid, uuid_text, uuid_value};
use crate::protocol::{
    session_key, session_key_text, ErrorModel, HostKind, RpcErrorResponse,
    ERROR_BRIDGE_NOT_INSTALLED, ERROR_IDENTITY_STALE, ERROR_IDENTITY_UNAVAILABLE,
};
use crate::receipts::{ObservedHostProcess, PreparedBootstrap};
use crate::runtime::{RuntimeIdentityAttestation, RuntimeIdentityQuery};

verus! {

/// A call after a step, and what to do next.
pub type Step = (BootstrapCall, BootstrapAction);

/// The deadline has passed.
pub open spec fn late(task: BootstrapTask, now: u64) -> bool {
    now >= task.deadline
}

/// The step leads to the phase and asks for the action.
pub open spec fn goes(task: BootstrapTask, r: Step, phase: BootstrapPhase, action: BootstrapAction) -> bool {
    r.0.task == task && r.0.phase == phase && r.1 == action
}

/// The call ends with the error, and nobody else is told.
pub open spec fn ends(task: BootstrapTask, r: Step, e: ErrorModel) -> bool {
    &&& r.0.task == task
    &&& r.0.phase is Finished
    &&& r.1 is Finish
    &&& r.1->publish is None
    &&& r.1->outcome is Err
    &&& r.1->outcome->Err_0@ == e
}

/// The owner's call fails with the error: what was prepared is rolled back
/// first; without anything to roll back the grant is dropped and everyone who
/// follows it is told.
pub open spec fn owner_fails(
    pre: BrokerState,
    post: BrokerState,
    task: BootstrapTask,
    r: Step,
    e: ErrorModel,
) -> bool {
    let grants = pre.bootstrap_grants@;
    let key = task.key@;
    &&& post == (BrokerState { bootstrap_grants: post.bootstrap_grants, ..pre })
    &&& if !grants.dom().contains(key) {
        ends(task, r, e) && post.bootstrap_grants@ == grants
    } else {
        match grants[key].prepared {
            Some(prepared) => {
                &&& r.0.task == task
                &&& r.0.phase is RollingBack
                &&& r.0.phase->RollingBack_error@ == e
                &&& r.1 == (BootstrapAction::Rollback { prepared })
                &&& post.bootstrap_grants@ == grants.insert(
                    key,
                    BootstrapGrant { prepared: None, ..grants[key] },
                )
            },
            None => tells(pre, post, task, r, e),
        }
    }
}

/// The call ends with the error, the grant is dropped, and everyone who
/// follows it is told.
pub open spec fn tells(
    pre: BrokerState,
    post: BrokerState,
    task: BootstrapTask,
    r: Step,
    e: ErrorModel,
) -> bool {
    let grants = pre.bootstrap_grants@;
    &&& r.0.task == task
    &&& r.0.phase is Finished
    &&& r.1 is Finish
    &&& r.1->publish == Some(grants[task.key@].ticket)
    &&& r.1->outcome is Err
    &&& r.1->outcome->Err_0@ == e
    &&& post.bootstrap_grants@ == grants.remove(task.key@)
}

/// The call fails with the error, as an owner or not.
pub open spec fn fails(
    pre: BrokerState,
    post: BrokerState,
    task: BootstrapTask,
    owner: bool,
    r: Step,
    e: ErrorModel,
) -> bool {
    if owner {
        owner_fails(pre, post, task, r, e)
    } else {
        ends(task, r, e) && post == pre
    }
}

/// The query for the bridge of the call's target.
pub open spec fn target_query(task: BootstrapTask) -> RuntimeIdentityQuery {
    RuntimeIdentityQuery {
        host: HostKind::Photoshop,
        target: Some(task.request.target),
        expected: None,
    }
}

/// The attestation came in.
pub open spec fn on_attested(task: BootstrapTask, r: Step, attested: Option<String>, now: u64) -> bool {
    if late(task, now) {
        ends(task, r, timeout_error(task.request@, "attestation"@))
    } else {
        match attested {
            None => ends(
                task,
                r,
                unavailable_error(
                    "the authenticated Photoshop product or fixed UXP bridge is unavailable"@,
                    "attestation"@,
                ),
            ),
            Some(module_sha256) => goes(
                BootstrapTask { module_sha256, ..task },
                r,
                BootstrapPhase::Looking,
                BootstrapAction::Resume,
            ),
        }
    }
}

/// The call joins the bootstrap in progress, conflicts with it, or goes on
/// where there is none.
pub open spec fn on_looked(
    state: BrokerState,
    task: BootstrapTask,
    r: Step,
    now: u64,
    next: BootstrapPhase,
) -> bool {
    let grants = state.bootstrap_grants@;
    let key = task.key@;
    if late(task, now) {
        ends(task, r, timeout_error(task.request@, "reservation"@))
    } else if !grants.dom().contains(key) {
        goes(task, r, next, BootstrapAction::Resume)
    } else if grants[key].request@ != task.request@ {
        ends(task, r, conflict_error(task.request@))
    } else {
        goes(
            task,
            r,
            BootstrapPhase::Finished,
            BootstrapAction::Follow { ticket: grants[key].ticket },
        )
    }
}

/// A connected bridge may already be the requested one; without one the
/// target is reserved.
pub open spec fn on_session_checked(state: BrokerState, task: BootstrapTask, r: Step, now: u64) -> bool {
    if late(task, now) {
        ends(task, r, timeout_error(task.request@, "session"@))
    } else if state.sessions@.dom().contains(task.key@) {
        goes(task, r, BootstrapPhase::LookingAgain, BootstrapAction::Resume)
    } else {
        goes(task, r, BootstrapPhase::Reserving, BootstrapAction::DrawNonce)
    }
}

/// The connected bridge's identity is read and its process looked up.
pub open spec fn on_identity_read(state: BrokerState, task: BootstrapTask, r: Step, now: u64) -> bool {
    if late(task, now) {
        ends(task, r, timeout_error(task.request@, "identity"@))
    } else {
        match state.identity_answer(target_query(task)) {
            Err(e) => ends(task, r, e),
            Ok(identity) => {
                &&& r.0.task == task
                &&& r.0.phase is ValidatingReady
                &&& r.0.phase->ValidatingReady_identity@ == identity
                &&& r.1 is CheckProcesses
                &&& r.1->claimed@ == claimed_process_model(identity)
                &&& r.1->observed is None
            },
        }
    }
}

/// The connected bridge is the requested one, or the call ends.
pub open spec fn on_ready_validated(
    task: BootstrapTask,
    identity: RuntimeIdentityAttestation,
    r: Step,
    claimed_live: bool,
    observed_live: bool,
    now: u64,
) -> bool {
    if late(task, now) {
        ends(task, r, timeout_error(task.request@, "identity_validation"@))
    } else if !bootstrap_identity_ok(
        task.request@,
        identity@,
        None,
        claimed_live,
        observed_live,
    ) {
        ends(task, r, foreign_error())
    } else {
        goes(
            task,
            r,
            BootstrapPhase::HashingBroker {
                identity,
                module_sha256: task.module_sha256,
                status: PhotoshopBootstrapStatus::AlreadyReady,
                owner: false,
            },
            BootstrapAction::HashBroker { executable_path: identity.broker.executable_path },
        )
    }
}

/// The target is reserved for the call, unless another call was faster.
pub open spec fn on_nonce(
    pre: BrokerState,
    post: BrokerState,
    task: BootstrapTask,
    r: Step,
    nonce: String,
    now: u64,
) -> bool {
    let grants = pre.bootstrap_grants@;
    let key = task.key@;
    if !late(task, now) && !grants.dom().contains(key) {
        &&& goes(task, r, BootstrapPhase::Preparing, BootstrapAction::Prepare)
        &&& post.bootstrap_grants@ == grants.insert(
            key,
            BootstrapGrant {
                request: task.request,
                nonce,
                nonce_claimed: false,
                observed: None,
                module_sha256: task.module_sha256,
                prepared: None,
                ticket: pre.next_ticket,
            },
        )
        &&& post.next_ticket == next_counter(pre.next_ticket)
        &&& post == (BrokerState {
            bootstrap_grants: post.bootstrap_grants,
            next_ticket: post.next_ticket,
            ..pre
        })
    } else {
        on_looked(pre, task, r, now, BootstrapPhase::Finished) && post == pre
    }
}

/// The configuration was prepared. It goes into the grant; without a grant it
/// is rolled back at once.
pub open spec fn on_prepared(
    pre: BrokerState,
    post: BrokerState,
    task: BootstrapTask,
    r: Step,
    prepared: Option<PreparedBootstrap>,
    now: u64,
) -> bool {
    let grants = pre.bootstrap_grants@;
    let key = task.key@;
    match prepared {
        None => owner_fails(
            pre,
            post,
            task,
            r,
            if late(task, now) {
                timeout_error(task.request@, "prepare"@)
            } else {
                unavailable_error(
                    "the fixed Photoshop UXP bridge could not be prepared"@,
                    "prepare"@,
                )
            },
        ),
        Some(prepared) => {
            &&& r.0.task == task
            &&& post == (BrokerState { bootstrap_grants: post.bootstrap_grants, ..pre })
            &&& if !grants.dom().contains(key) {
                &&& r.0.phase is Discarding
                &&& r.0.phase->Discarding_error@ == if late(task, now) {
                    timeout_error(task.request@, "prepare"@)
                } else {
                    lost_error("Photoshop bootstrap reservation was cancelled"@, "prepare"@)
                }
                &&& r.1 == (BootstrapAction::Rollback { prepared })
                &&& post.bootstrap_grants@ == grants
            } else if late(task, now) {
                &&& r.0.phase is RollingBack
                &&& r.0.phase->RollingBack_error@ == timeout_error(task.request@, "prepare"@)
                &&& r.1 == (BootstrapAction::Rollback { prepared })
                &&& post.bootstrap_grants@ == grants.insert(
                    key,
                    BootstrapGrant { prepared: None, ..grants[key] },
                )
            } else {
                &&& r.0.phase is Prepared
                &&& r.1 is Resume
                &&& post.bootstrap_grants@ == grants.insert(
                    key,
                    BootstrapGrant {
                        module_sha256: prepared.module_sha256,
                        prepared: Some(prepared),
                        ..grants[key]
                    },
                )
            }
        },
    }
}

/// The call goes on to the next phase if there is time left.
pub open spec fn on_resumed(
    pre: BrokerState,
    post: BrokerState,
    task: BootstrapTask,
    r: Step,
    now: u64,
    stage: Seq<char>,
    next: BootstrapPhase,
    action: BootstrapAction,
) -> bool {
    if late(task, now) {
        owner_fails(pre, post, task, r, timeout_error(task.request@, stage))
    } else {
        goes(task, r, next, action) && post == pre
    }
}

/// The host was started; its process goes into the grant.
pub open spec fn on_launched(
    pre: BrokerState,
    post: BrokerState,
    task: BootstrapTask,
    r: Step,
    launched: Option<ObservedHostProcess>,
    now: u64,
) -> bool {
    let grants = pre.bootstrap_grants@;
    let key = task.key@;
    if late(task, now) {
        owner_fails(pre, post, task, r, timeout_error(task.request@, "launch"@))
    } else {
        match launched {
            None => owner_fails(
                pre,
                post,
                task,
                r,
                unavailable_error(
                    "the selected Photoshop instance could not be launched"@,
                    "launch"@,
                ),
            ),
            Some(observed) => if !grants.dom().contains(key) {
                owner_fails(
                    pre,
                    post,
                    task,
                    r,
                    lost_error("Photoshop bootstrap reservation was cancelled"@, "launch"@),
                )
            } else {
                &&& goes(task, r, BootstrapPhase::Launched, BootstrapAction::Resume)
                &&& post.bootstrap_grants@ == grants.insert(
                    key,
                    BootstrapGrant { observed: Some(observed), ..grants[key] },
                )
                &&& post == (BrokerState { bootstrap_grants: post.bootstrap_grants, ..pre })
            },
        }
    }
}

/// The host process that the grant has seen.
pub open spec fn granted_process(state: BrokerState, key: Seq<char>) -> Option<ObservedHostProcess> {
    let grants = state.bootstrap_grants@;
    if grants.dom().contains(key) {
        grants[key].observed
    } else {
        None
    }
}

/// The bridge is awaited: it is there and its processes are looked up, it is
/// not there yet, or the call fails.
pub open spec fn on_polled(pre: BrokerState, post: BrokerState, task: BootstrapTask, r: Step, now: u64) -> bool {
    if late(task, now) {
        owner_fails(pre, post, task, r, timeout_error(task.request@, "verify"@))
    } else {
        match pre.identity_answer(target_query(task)) {
            Ok(identity) => {
                let observed = granted_process(pre, task.key@);
                &&& post == pre
                &&& r.0.task == task
                &&& r.0.phase is ValidatingLaunched
                &&& r.0.phase->ValidatingLaunched_identity@ == identity
                &&& r.0.phase->ValidatingLaunched_observed == observed
                &&& r.1 is CheckProcesses
                &&& r.1->claimed@ == claimed_process_model(identity)
                &&& r.1->observed == observed
            },
            Err(e) => if e.code == ERROR_IDENTITY_UNAVAILABLE || e.code
                == ERROR_BRIDGE_NOT_INSTALLED {
                &&& goes(
                    task,
                    r,
                    BootstrapPhase::Polling,
                    BootstrapAction::Pause { millis: BOOTSTRAP_PAUSE_MS },
                )
                &&& post == pre
            } else {
                owner_fails(pre, post, task, r, e)
            },
        }
    }
}

/// The new bridge is the requested one and its configuration is committed, or
/// the call fails.
pub open spec fn on_launched_validated(
    pre: BrokerState,
    post: BrokerState,
    task: BootstrapTask,
    identity: RuntimeIdentityAttestation,
    observed: Option<ObservedHostProcess>,
    r: Step,
    claimed_live: bool,
    observed_live: bool,
    now: u64,
) -> bool {
    let grants = pre.bootstrap_grants@;
    let key = task.key@;
    if late(task, now) {
        owner_fails(pre, post, task, r, timeout_error(task.request@, "identity_validation"@))
    } else if !bootstrap_identity_ok(
        task.request@,
        identity@,
        observed_model(observed),
        claimed_live,
        observed_live,
    ) {
        owner_fails(pre, post, task, r, foreign_error())
    } else if !grants.dom().contains(key) || grants[key].prepared is None {
        owner_fails(
            pre,
            post,
            task,
            r,
            lost_error("Photoshop bootstrap reservation is unavailable"@, "commit"@),
        )
    } else {
        goes(task, r, BootstrapPhase::Committing { identity }, BootstrapAction::Finalize) && post
            == pre
    }
}

/// The configuration was committed.
pub open spec fn on_finalized(
    pre: BrokerState,
    post: BrokerState,
    task: BootstrapTask,
    identity: RuntimeIdentityAttestation,
    r: Step,
    finalized: bool,
    now: u64,
) -> bool {
    let grants = pre.bootstrap_grants@;
    let key = task.key@;
    if late(task, now) {
        owner_fails(pre, post, task, r, timeout_error(task.request@, "commit"@))
    } else if !finalized {
        owner_fails(
            pre,
            post,
            task,
            r,
            unavailable_error("Photoshop bootstrap could not be committed"@, "commit"@),
        )
    } else if !grants.dom().contains(key) {
        owner_fails(
            pre,
            post,
            task,
            r,
            lost_error("Photoshop bootstrap reservation is unavailable"@, "commit"@),
        )
    } else {
        &&& goes(
            task,
            r,
            BootstrapPhase::HashingBroker {
                identity,
                module_sha256: grants[key].module_sha256,
                status: PhotoshopBootstrapStatus::Ready,
                owner: true,
            },
            BootstrapAction::HashBroker { executable_path: identity.broker.executable_path },
        )
        &&& post == pre
    }
}

/// The broker's executable was hashed.
pub open spec fn on_broker_hashed(
    pre: BrokerState,
    post: BrokerState,
    task: BootstrapTask,
    phase: BootstrapPhase,
    r: Step,
    hashed: Option<String>,
    now: u64,
) -> bool
    recommends
        phase is HashingBroker,
{
    let owner = phase->HashingBroker_owner;
    let identity = phase->HashingBroker_identity;
    if late(task, now) {
        fails(pre, post, task, owner, r, timeout_error(task.request@, "broker_attestation"@))
    } else {
        match hashed {
            None => fails(
                pre,
                post,
                task,
                owner,
                r,
                unavailable_error(
                    "broker executable identity is unavailable"@,
                    "broker_attestation"@,
                ),
            ),
            Some(broker_sha256) => {
                &&& post == pre
                &&& r.0.task == task
                &&& r.1 is MintReceipt
                &&& r.0.phase is Minting
                &&& r.0.phase->Minting_identity == identity
                &&& r.0.phase->Minting_module_sha256 == phase->HashingBroker_module_sha256
                &&& r.0.phase->Minting_status == phase->HashingBroker_status
                &&& r.0.phase->Minting_owner == owner
                &&& r.0.phase->broker_sha256 == broker_sha256
                &&& r.0.phase->fingerprint@ == fingerprint(identity@)
            },
        }
    }
}

/// A receipt identifier was drawn: the result is made.
pub open spec fn on_receipt_minted(
    pre: BrokerState,
    post: BrokerState,
    task: BootstrapTask,
    phase: BootstrapPhase,
    r: Step,
    receipt: u128,
    now: u64,
    epoch_ms: u64,
) -> bool
    recommends
        phase is Minting,
{
    let owner = phase->Minting_owner;
    let identity = phase->Minting_identity;
    if late(task, now) {
        fails(pre, post, task, owner, r, timeout_error(task.request@, "fingerprint"@))
    } else {
        &&& post == pre
        &&& r.0.task == task
        &&& r.1 is Resume
        &&& r.0.phase is Recording
        &&& r.0.phase->Recording_owner == owner
        &&& r.0.phase->receipt_id@ == uuid_text(receipt)
        &&& uuid_value(r.0.phase->receipt_id@) == Some(receipt)
        &&& r.0.phase->receipt.identity == identity
        &&& r.0.phase->receipt.expires_at_epoch_ms == epoch_ms + RECEIPT_LIFETIME_MS
        &&& r.0.phase->receipt.result@ == bound_result(
            identity@,
            task.request@,
            phase->Minting_module_sha256@,
            phase->Minting_status,
            phase->broker_sha256@,
            phase->fingerprint@,
            uuid_text(receipt),
        )
    }
}

/// The receipt is stored and the call ends with its result; an owner's grant
/// goes at the same moment, and everyone who follows it is told.
pub open spec fn on_recorded(
    pre: BrokerState,
    post: BrokerState,
    task: BootstrapTask,
    phase: BootstrapPhase,
    r: Step,
    now: u64,
    epoch_ms: u64,
) -> bool
    recommends
        phase is Recording,
{
    let grants = pre.bootstrap_grants@;
    let key = task.key@;
    let owner = phase->Recording_owner;
    if late(task, now) {
        fails(pre, post, task, owner, r, timeout_error(task.request@, "receipt"@))
    } else if owner && (!grants.dom().contains(key) || grants[key].prepared is None) {
        owner_fails(
            pre,
            post,
            task,
            r,
            lost_error("Photoshop bootstrap reservation is unavailable"@, "receipt"@),
        )
    } else {
        &&& r.0.task == task
        &&& r.0.phase is Finished
        &&& r.1 is Finish
        &&& r.1->outcome is Ok
        &&& r.1->outcome->Ok_0@ == phase->receipt.result@
        &&& r.1->publish == if owner {
            Some(grants[key].ticket)
        } else {
            None
        }
        &&& post.bootstrap_grants@ == if owner {
            grants.remove(key)
        } else {
            grants
        }
        &&& post.bootstrap_receipts@ == unexpired(
            pre.bootstrap_receipts@,
            epoch_ms as u128,
        ).insert(phase->receipt_id@, phase->receipt)
        &&& post == (BrokerState {
            bootstrap_grants: post.bootstrap_grants,
            bootstrap_receipts: post.bootstrap_receipts,
            ..pre
        })
    }
}

/// The rollback has ended: the call fails with its error, or with that of the
/// rollback.
pub open spec fn on_rolled_back(
    pre: BrokerState,
    post: BrokerState,
    task: BootstrapTask,
    error: RpcErrorResponse,
    r: Step,
    rolled_back: bool,
) -> bool {
    let e = if rolled_back {
        error@
    } else {
        recovery_error("Photoshop bootstrap state could not be recovered"@)
    };
    if pre.bootstrap_grants@.dom().contains(task.key@) {
        &&& tells(pre, post, task, r, e)
        &&& post == (BrokerState { bootstrap_grants: post.bootstrap_grants, ..pre })
    } else {
        ends(task, r, e) && post == pre
    }
}

/// What one step of a call does.
pub open spec fn advanced(
    pre: BrokerState,
    post: BrokerState,
    call: BootstrapCall,
    r: Step,
    event: BootstrapEvent,
    now: u64,
    epoch_ms: u64,
) -> bool {
    let task = call.task;
    match (call.phase, event) {
        (BootstrapPhase::Attesting, BootstrapEvent::Attested(attested)) => on_attested(
            task,
            r,
            attested,
            now,
        ) && post == pre,
        (BootstrapPhase::Looking, BootstrapEvent::Resume) => on_looked(
            pre,
            task,
            r,
            now,
            BootstrapPhase::CheckingSession,
        ) && post == pre,
        (BootstrapPhase::CheckingSession, BootstrapEvent::Resume) => on_session_checked(
            pre,
            task,
            r,
            now,
        ) && post == pre,
        (BootstrapPhase::LookingAgain, BootstrapEvent::Resume) => on_looked(
            pre,
            task,
            r,
            now,
            BootstrapPhase::ReadingIdentity,
        ) && post == pre,
        (BootstrapPhase::ReadingIdentity, BootstrapEvent::Resume) => on_identity_read(
            pre,
            task,
            r,
            now,
        ) && post == pre,
        (
            BootstrapPhase::ValidatingReady { identity },
            BootstrapEvent::ProcessesChecked { claimed_live, observed_live },
        ) => on_ready_validated(task, identity, r, claimed_live, observed_live, now) && post == pre,
        (BootstrapPhase::Reserving, BootstrapEvent::Nonce(nonce)) => on_nonce(
            pre,
            post,
            task,
            r,
            nonce,
            now,
        ),
        (BootstrapPhase::Preparing, BootstrapEvent::Prepared(prepared)) => on_prepared(
            pre,
            post,
            task,
            r,
            prepared,
            now,
        ),
        (BootstrapPhase::Prepared, BootstrapEvent::Resume) => on_resumed(
            pre,
            post,
            task,
            r,
            now,
            "prepare"@,
            BootstrapPhase::Launching,
            BootstrapAction::Launch,
        ),
        (BootstrapPhase::Launching, BootstrapEvent::Launched(launched)) => on_launched(
            pre,
            post,
            task,
            r,
            launched,
            now,
        ),
        (BootstrapPhase::Launched, BootstrapEvent::Resume) => on_resumed(
            pre,
            post,
            task,
            r,
            now,
            "launch"@,
            BootstrapPhase::Polling,
            BootstrapAction::Resume,
        ),
        (BootstrapPhase::Polling, BootstrapEvent::Resume) => on_polled(pre, post, task, r, now),
        (
            BootstrapPhase::ValidatingLaunched { identity, observed },
            BootstrapEvent::ProcessesChecked { claimed_live, observed_live },
        ) => on_launched_validated(
            pre,
            post,
            task,
            identity,
            observed,
            r,
            claimed_live,
            observed_live,
            now,
        ),
        (BootstrapPhase::Committing { identity }, BootstrapEvent::Finalized(finalized)) =>
            on_finalized(pre, post, task, identity, r, finalized, now),
        (BootstrapPhase::HashingBroker { .. }, BootstrapEvent::BrokerHashed(hashed)) =>
            on_broker_hashed(pre, post, task, call.phase, r, hashed, now),
        (BootstrapPhase::Minting { .. }, BootstrapEvent::ReceiptMinted(receipt)) =>
            on_receipt_minted(pre, post, task, call.phase, r, receipt, now, epoch_ms),
        (BootstrapPhase::Recording { .. }, BootstrapEvent::Resume) => on_recorded(
            pre,
            post,
            task,
            call.phase,
            r,
            now,
            epoch_ms,
        ),
        (BootstrapPhase::RollingBack { error }, BootstrapEvent::RolledBack(rolled_back)) =>
            on_rolled_back(pre, post, task, error, r, rolled_back),
        (BootstrapPhase::Discarding { error }, BootstrapEvent::RolledBack(_)) => ends(
            task,
            r,
            error@,
        ) && post == pre,
        _ => r.0 == call && r.1 is Unexpected && post == pre,
    }
}

fn finish_err(task: BootstrapTask, error: RpcErrorResponse) -> (r: Step)
    ensures
        ends(task, r, error@),
{
    (
        BootstrapCall { task, phase: BootstrapPhase::Finished },
        BootstrapAction::Finish { outcome: Err(error), publish: None },
    )
}

fn to(task: BootstrapTask, phase: BootstrapPhase, action: BootstrapAction) -> (r: Step)
    ensures
        goes(task, r, phase, action),
{
    (BootstrapCall { task, phase }, action)
}

fn is_late(task: &BootstrapTask, now: u64) -> (r: bool)
    ensures
        r == late(*task, now),
{
    now as u128 >= task.deadline
}

/// Fails the owner's call.
fn complete_bootstrap_failure(state: &mut BrokerState, task: BootstrapTask, error: RpcErrorResponse) -> (r:
    Step)
    ensures
        owner_fails(*old(state), *final(state), task, r, error@),
{
    match state.bootstrap_grants.remove(task.key.as_str()) {
        None => {
            assert(state.bootstrap_grants@ =~= old(state).bootstrap_grants@);
            finish_err(task, error)
        },
        Some(grant) => {
            let BootstrapGrant {
                request,
                nonce,
                nonce_claimed,
                observed,
                module_sha256,
                prepared,
                ticket,
            } = grant;
            match prepared {
                Some(prepared) => {
                    state.bootstrap_grants.insert(
                        task.key.clone(),
                        BootstrapGrant {
                            request,
                            nonce,
                            nonce_claimed,
                            observed,
                            module_sha256,
                            prepared: None,
                            ticket,
                        },
                    );
                    assert(state.bootstrap_grants@ =~= old(state).bootstrap_grants@.insert(
                        task.key@,
                        BootstrapGrant {
                            prepared: None,
                            ..old(state).bootstrap_grants@[task.key@]
                        },
                    ));
                    (
                        BootstrapCall { task, phase: BootstrapPhase::RollingBack { error } },
                        BootstrapAction::Rollback { prepared },
                    )
                },
                None => (
                    BootstrapCall { task, phase: BootstrapPhase::Finished },
                    BootstrapAction::Finish { outcome: Err(error), publish: Some(ticket) },
                ),
            }
        },
    }
}

fn owner_timeout(state: &mut BrokerState, task: BootstrapTask, stage: &str) -> (r: Step)
    ensures
        owner_fails(*old(state), *final(state), task, r, timeout_error(task.request@, stage@)),
{
    let error = bootstrap_timeout_error(&task.request, stage);
    complete_bootstrap_failure(state, task, error)
}

fn owner_unavailable(state: &mut BrokerState, task: BootstrapTask, message: &str, stage: &str) -> (r:
    Step)
    ensures
        owner_fails(*old(state), *final(state), task, r, unavailable_error(message@, stage@)),
{
    complete_bootstrap_failure(
        state,
        task,
        stage_fault(ERROR_IDENTITY_UNAVAILABLE, message, stage),
    )
}

fn owner_lost(state: &mut BrokerState, task: BootstrapTask, message: &str, stage: &str) -> (r: Step)
    ensures
        owner_fails(*old(state), *final(state), task, r, lost_error(message@, stage@)),
{
    complete_bootstrap_failure(state, task, stage_fault(ERROR_IDENTITY_STALE, message, stage))
}

fn fail(state: &mut BrokerState, task: BootstrapTask, owner: bool, error: RpcErrorResponse) -> (r:
    Step)
    ensures
        fails(*old(state), *final(state), task, owner, r, error@),
{
    if owner {
        complete_bootstrap_failure(state, task, error)
    } else {
        finish_err(task, error)
    }
}

fn attested(task: BootstrapTask, attestation: Option<String>, now: u64) -> (r: Step)
    ensures
        on_attested(task, r, attestation, now),
{
    if is_late(&task, now) {
        let error = bootstrap_timeout_error(&task.request, "attestation");
        return finish_err(task, error);
    }
    match attestation {
        None => finish_err(
            task,
            stage_fault(
                ERROR_IDENTITY_UNAVAILABLE,
                "the authenticated Photoshop product or fixed UXP bridge is unavailable",
                "attestation",
            ),
        ),
        Some(module_sha256) => to(
            BootstrapTask { module_sha256, ..task },
            BootstrapPhase::Looking,
            BootstrapAction::Resume,
        ),
    }
}

fn look(state: &BrokerState, task: BootstrapTask, now: u64, next: BootstrapPhase) -> (r: Step)
    ensures
        on_looked(*state, task, r, now, next),
{
    if is_late(&task, now) {
        let error = bootstrap_timeout_error(&task.request, "reservation");
        return finish_err(task, error);
    }
    match state.bootstrap_grants.get(task.key.as_str()) {
        None => to(task, next, BootstrapAction::Resume),
        Some(grant) => {
            if grant.request.same(&task.request) {
                to(
                    task,
                    BootstrapPhase::Finished,
                    BootstrapAction::Follow { ticket: grant.ticket },
                )
            } else {
                let error = bootstrap_conflict_error(&task.request);
                finish_err(task, error)
            }
        },
    }
}

fn check_session(state: &BrokerState, task: BootstrapTask, now: u64) -> (r: Step)
    ensures
        on_session_checked(*state, task, r, now),
{
    if is_late(&task, now) {
        let error = bootstrap_timeout_error(&task.request, "session");
        return finish_err(task, error);
    }
    if state.sessions.contains(task.key.as_str()) {
        to(task, BootstrapPhase::LookingAgain, BootstrapAction::Resume)
    } else {
        to(task, BootstrapPhase::Reserving, BootstrapAction::DrawNonce)
    }
}

fn query_target(task: &BootstrapTask) -> (r: RuntimeIdentityQuery)
    ensures
        r == target_query(*task),
{
    RuntimeIdentityQuery {
        host: HostKind::Photoshop,
        target: Some(task.request.target.clone()),
        expected: None,
    }
}

fn read_identity(state: &BrokerState, task: BootstrapTask, now: u64) -> (r: Step)
    ensures
        on_identity_read(*state, task, r, now),
{
    if is_late(&task, now) {
        let error = bootstrap_timeout_error(&task.request, "identity");
        return finish_err(task, error);
    }
    let query = query_target(&task);
    match state.runtime_identity(&query) {
        Err(error) => finish_err(task, error),
        Ok(identity) => {
            let claimed = claimed_process(&identity);
            (
                BootstrapCall { task, phase: BootstrapPhase::ValidatingReady { identity } },
                BootstrapAction::CheckProcesses { claimed, observed: None },
            )
        },
    }
}

fn validate_ready(
    task: BootstrapTask,
    identity: RuntimeIdentityAttestation,
    claimed_live: bool,
    observed_live: bool,
    now: u64,
) -> (r: Step)
    ensures
        on_ready_validated(task, identity, r, claimed_live, observed_live, now),
{
    if is_late(&task, now) {
        let error = bootstrap_timeout_error(&task.request, "identity_validation");
        return finish_err(task, error);
    }
    match validate_bootstrap_identity(
        &task.request,
        &identity,
        &None,
        claimed_live,
        observed_live,
    ) {
        Err(error) => finish_err(task, error),
        Ok(()) => {
            let module_sha256 = task.module_sha256.clone();
            let executable_path = identity.broker.executable_path.clone();
            to(
                task,
                BootstrapPhase::HashingBroker {
                    identity,
                    module_sha256,
                    status: PhotoshopBootstrapStatus::AlreadyReady,
                    owner: false,
                },
                BootstrapAction::HashBroker { executable_path },
            )
        },
    }
}

fn reserve(state: &mut BrokerState, task: BootstrapTask, nonce: String, now: u64) -> (r: Step)
    ensures
        on_nonce(*old(state), *final(state), task, r, nonce, now),
{
    if is_late(&task, now) || state.bootstrap_grants.contains(task.key.as_str()) {
        return look(state, task, now, BootstrapPhase::Finished);
    }
    let ticket: u64 = state.next_ticket;
    state.next_ticket = if ticket == u64::MAX {
        0
    } else {
        ticket + 1
    };
    state.bootstrap_grants.insert(
        task.key.clone(),
        BootstrapGrant {
            request: task.request.clone(),
            nonce,
            nonce_claimed: false,
            observed: None,
            module_sha256: task.module_sha256.clone(),
            prepared: None,
            ticket,
        },
    );
    to(task, BootstrapPhase::Preparing, BootstrapAction::Prepare)
}

fn store_prepared(
    state: &mut BrokerState,
    task: BootstrapTask,
    prepared: Option<PreparedBootstrap>,
    now: u64,
) -> (r: Step)
    ensures
        on_prepared(*old(state), *final(state), task, r, prepared, now),
{
    let timed_out = is_late(&task, now);
    let prepared = match prepared {
        Some(prepared) => prepared,
        None => {
            return if timed_out {
                owner_timeout(state, task, "prepare")
            } else {
                owner_unavailable(
                    state,
                    task,
                    "the fixed Photoshop UXP bridge could not be prepared",
                    "prepare",
                )
            };
        },
    };
    match state.bootstrap_grants.remove(task.key.as_str()) {
        None => {
            assert(state.bootstrap_grants@ =~= old(state).bootstrap_grants@);
            let error = if timed_out {
                bootstrap_timeout_error(&task.request, "prepare")
            } else {
                stage_fault(
                    ERROR_IDENTITY_STALE,
                    "Photoshop bootstrap reservation was cancelled",
                    "prepare",
                )
            };
            (
                BootstrapCall { task, phase: BootstrapPhase::Discarding { error } },
                BootstrapAction::Rollback { prepared },
            )
        },
        Some(grant) => {
            if timed_out {
                let error = bootstrap_timeout_error(&task.request, "prepare");
                state.bootstrap_grants.insert(
                    task.key.clone(),
                    BootstrapGrant { prepared: None, ..grant },
                );
                assert(state.bootstrap_grants@ =~= old(state).bootstrap_grants@.insert(
                    task.key@,
                    BootstrapGrant { prepared: None, ..old(state).bootstrap_grants@[task.key@] },
                ));
                (
                    BootstrapCall { task, phase: BootstrapPhase::RollingBack { error } },
                    BootstrapAction::Rollback { prepared },
                )
            } else {
                let module_sha256 = prepared.module_sha256.clone();
                state.bootstrap_grants.insert(
                    task.key.clone(),
                    BootstrapGrant { module_sha256, prepared: Some(prepared), ..grant },
                );
                assert(state.bootstrap_grants@ =~= old(state).bootstrap_grants@.insert(
                    task.key@,
                    BootstrapGrant {
                        module_sha256: prepared.module_sha256,
                        prepared: Some(prepared),
                        ..old(state).bootstrap_grants@[task.key@]
                    },
                ));
                to(task, BootstrapPhase::Prepared, BootstrapAction::Resume)
            }
        },
    }
}

fn resume(
    state: &mut BrokerState,
    task: BootstrapTask,
    now: u64,
    stage: &str,
    next: BootstrapPhase,
    action: BootstrapAction,
) -> (r: Step)
    ensures
        on_resumed(*old(state), *final(state), task, r, now, stage@, next, action),
{
    if is_late(&task, now) {
        owner_timeout(state, task, stage)
    } else {
        to(task, next, action)
    }
}

fn store_launched(
    state: &mut BrokerState,
    task: BootstrapTask,
    launched: Option<ObservedHostProcess>,
    now: u64,
) -> (r: Step)
    ensures
        on_launched(*old(state), *final(state), task, r, launched, now),
{
    if is_late(&task, now) {
        return owner_timeout(state, task, "launch");
    }
    let observed = match launched {
        Some(observed) => observed,
        None => {
            return owner_unavailable(
                state,
                task,
                "the selected Photoshop instance could not be launched",
                "launch",
            );
        },
    };
    if !state.bootstrap_grants.contains(task.key.as_str()) {
        return owner_lost(
            state,
            task,
            "Photoshop bootstrap reservation was cancelled",
            "launch",
        );
    }
    match state.bootstrap_grants.remove(task.key.as_str()) {
        Some(grant) => {
            state.bootstrap_grants.insert(
                task.key.clone(),
                BootstrapGrant { observed: Some(observed), ..grant },
            );
        },
        None => {},
    }
    assert(state.bootstrap_grants@ =~= old(state).bootstrap_grants@.insert(
        task.key@,
        BootstrapGrant {
            observed: Some(observed),
            ..old(state).bootstrap_grants@[task.key@]
        },
    ));
    to(task, BootstrapPhase::Launched, BootstrapAction::Resume)
}

fn clone_observed(o: &Option<ObservedHostProcess>) -> (r: Option<ObservedHostProcess>)
    ensures
        r == *o,
{
    match o {
        Some(seen) => Some(seen.clone()),
        None => None,
    }
}

fn poll(state: &mut BrokerState, task: BootstrapTask, now: u64) -> (r: Step)
    ensures
        on_polled(*old(state), *final(state), task, r, now),
{
    if is_late(&task, now) {
        return owner_timeout(state, task, "verify");
    }
    let query = query_target(&task);
    match state.runtime_identity(&query) {
        Ok(identity) => {
            let claimed = claimed_process(&identity);
            let observed = match state.bootstrap_grants.get(task.key.as_str()) {
                Some(grant) => clone_observed(&grant.observed),
                None => None,
            };
            let again = clone_observed(&observed);
            (
                BootstrapCall {
                    task,
                    phase: BootstrapPhase::ValidatingLaunched { identity, observed },
                },
                BootstrapAction::CheckProcesses { claimed, observed: again },
            )
        },
        Err(error) => {
            if error.error.code == ERROR_IDENTITY_UNAVAILABLE || error.error.code
                == ERROR_BRIDGE_NOT_INSTALLED {
                to(
                    task,
                    BootstrapPhase::Polling,
                    BootstrapAction::Pause { millis: BOOTSTRAP_PAUSE_MS },
                )
            } else {
                complete_bootstrap_failure(state, task, error)
            }
        },
    }
}

fn validate_launched(
    state: &mut BrokerState,
    task: BootstrapTask,
    identity: RuntimeIdentityAttestation,
    observed: Option<ObservedHostProcess>,
    claimed_live: bool,
    observed_live: bool,
    now: u64,
) -> (r: Step)
    ensures
        on_launched_validated(
            *old(state),
            *final(state),
            task,
            identity,
            observed,
            r,
            claimed_live,
            observed_live,
            now,
        ),
{
    if is_late(&task, now) {
        return owner_timeout(state, task, "identity_validation");
    }
    match validate_bootstrap_identity(
        &task.request,
        &identity,
        &observed,
        claimed_live,
        observed_live,
    ) {
        Err(error) => {
            return complete_bootstrap_failure(state, task, error);
        },
        Ok(()) => {},
    }
    let prepared = match state.bootstrap_grants.get(task.key.as_str()) {
        Some(grant) => grant.prepared.is_some(),
        None => false,
    };
    if !prepared {
        return owner_lost(
            state,
            task,
            "Photoshop bootstrap reservation is unavailable",
            "commit",
        );
    }
    to(task, BootstrapPhase::Committing { identity }, BootstrapAction::Finalize)
}

fn finalized(
    state: &mut BrokerState,
    task: BootstrapTask,
    identity: RuntimeIdentityAttestation,
    ok: bool,
    now: u64,
) -> (r: Step)
    ensures
        on_finalized(*old(state), *final(state), task, identity, r, ok, now),
{
    if is_late(&task, now) {
        return owner_timeout(state, task, "commit");
    }
    if !ok {
        return owner_unavailable(
            state,
            task,
            "Photoshop bootstrap could not be committed",
            "commit",
        );
    }
    let module_sha256 = match state.bootstrap_grants.get(task.key.as_str()) {
        Some(grant) => grant.module_sha256.clone(),
        None => {
            return owner_lost(
                state,
                task,
                "Photoshop bootstrap reservation is unavailable",
                "commit",
            );
        },
    };
    let executable_path = identity.broker.executable_path.clone();
    to(
        task,
        BootstrapPhase::HashingBroker {
            identity,
            module_sha256,
            status: PhotoshopBootstrapStatus::Ready,
            owner: true,
        },
        BootstrapAction::HashBroker { executable_path },
    )
}

fn broker_hashed(
    state: &mut BrokerState,
    task: BootstrapTask,
    identity: RuntimeIdentityAttestation,
    module_sha256: String,
    status: PhotoshopBootstrapStatus,
    owner: bool,
    hashed: Option<String>,
    now: u64,
) -> (r: Step)
    ensures
        on_broker_hashed(
            *old(state),
            *final(state),
            task,
            (BootstrapPhase::HashingBroker { identity, module_sha256, status, owner }),
            r,
            hashed,
            now,
        ),
{
    if is_late(&task, now) {
        let error = bootstrap_timeout_error(&task.request, "broker_attestation");
        return fail(state, task, owner, error);
    }
    let broker_sha256 = match hashed {
        Some(broker_sha256) => broker_sha256,
        None => {
            return fail(
                state,
                task,
                owner,
                stage_fault(
                    ERROR_IDENTITY_UNAVAILABLE,
                    "broker executable identity is unavailable",
                    "broker_attestation",
                ),
            );
        },
    };
    let fingerprint = identity_fingerprint(&identity);
    to(
        task,
        BootstrapPhase::Minting {
            identity,
            module_sha256,
            status,
            owner,
            broker_sha256,
            fingerprint,
        },
        BootstrapAction::MintReceipt,
    )
}

fn mint_receipt(
    state: &mut BrokerState,
    task: BootstrapTask,
    identity: RuntimeIdentityAttestation,
    module_sha256: String,
    status: PhotoshopBootstrapStatus,
    owner: bool,
    broker_sha256: String,
    fingerprint: String,
    receipt: u128,
    now: u64,
    epoch_ms: u64,
) -> (r: Step)
    ensures
        on_receipt_minted(
            *old(state),
            *final(state),
            task,
            (BootstrapPhase::Minting {
                identity,
                module_sha256,
                status,
                owner,
                broker_sha256,
                fingerprint,
            }),
            r,
            receipt,
            now,
            epoch_ms,
        ),
{
    if is_late(&task, now) {
        let error = bootstrap_timeout_error(&task.request, "fingerprint");
        return fail(state, task, owner, error);
    }
    let receipt_id = hyphenate_uuid(receipt);
    let result = bind_result(
        &identity,
        &task.request,
        module_sha256,
        status,
        broker_sha256,
        fingerprint,
        receipt_id.clone(),
    );
    let receipt = BootstrapReceipt {
        identity,
        result,
        expires_at_epoch_ms: epoch_ms as u128 + RECEIPT_LIFETIME_MS,
    };
    to(
        task,
        BootstrapPhase::Recording { receipt_id, receipt, owner },
        BootstrapAction::Resume,
    )
}

fn record_bootstrap_result(
    state: &mut BrokerState,
    task: BootstrapTask,
    receipt_id: String,
    receipt: BootstrapReceipt,
    owner: bool,
    now: u64,
    epoch_ms: u64,
) -> (r: Step)
    ensures
        on_recorded(
            *old(state),
            *final(state),
            task,
            (BootstrapPhase::Recording { receipt_id, receipt, owner }),
            r,
            now,
            epoch_ms,
        ),
{
    if is_late(&task, now) {
        let error = bootstrap_timeout_error(&task.request, "receipt");
        return fail(state, task, owner, error);
    }
    let mut publish: Option<u64> = None;
    if owner {
        let ticket = match state.bootstrap_grants.get(task.key.as_str()) {
            Some(grant) => if grant.prepared.is_some() {
                Some(grant.ticket)
            } else {
                None
            },
            None => None,
        };
        if ticket.is_none() {
            return owner_lost(
                state,
                task,
                "Photoshop bootstrap reservation is unavailable",
                "receipt",
            );
        }
        let _ = state.bootstrap_grants.remove(task.key.as_str());
        publish = ticket;
    }
    let result = receipt.result.clone();
    drop_expired(&mut state.bootstrap_receipts, epoch_ms as u128);
    state.bootstrap_receipts.insert(receipt_id, receipt);
    to(
        task,
        BootstrapPhase::Finished,
        BootstrapAction::Finish { outcome: Ok(result), publish },
    )
}

fn rolled_back(state: &mut BrokerState, task: BootstrapTask, error: RpcErrorResponse, ok: bool) -> (r:
    Step)
    ensures
        on_rolled_back(*old(state), *final(state), task, error, r, ok),
{
    let error = if ok {
        error
    } else {
        bootstrap_recovery_error("Photoshop bootstrap state could not be recovered")
    };
    match state.bootstrap_grants.get(task.key.as_str()) {
        Some(grant) => {
            let ticket: u64 = grant.ticket;
            let _ = state.bootstrap_grants.remove(task.key.as_str());
            (
                BootstrapCall { task, phase: BootstrapPhase::Finished },
                BootstrapAction::Finish { outcome: Err(error), publish: Some(ticket) },
            )
        },
        None => finish_err(task, error),
    }
}

impl BootstrapCall {
    /// What comes of a request.
    pub open spec fn begun(
        request: PhotoshopBootstrapRequest,
        now: u64,
        r: Result<BootstrapCall, RpcErrorResponse>,
    ) -> bool {
        match r {
            Err(e) => !bootstrap_request_ok(request@) && e@ == bootstrap_request_error(),
            Ok(call) => {
                &&& bootstrap_request_ok(request@)
                &&& call.task.request == request
                &&& call.task.key@ == session_key_text(HostKind::Photoshop, request.target@)
                &&& call.task.deadline == now + request.timeout_ms
                &&& call.task.module_sha256@.len() == 0
                &&& call.phase is Attesting
            },
        }
    }

    /// Takes a request in. Its time runs from here; the first thing to do is
    /// to attest the product and the plugin files.
    pub fn begin(request: PhotoshopBootstrapRequest, now: u64) -> (r: Result<
        BootstrapCall,
        RpcErrorResponse,
    >)
        ensures
            Self::begun(request, now, r),
    {
        match validate_photoshop_bootstrap_request(&request) {
            Err(e) => Err(e),
            Ok(()) => {
                let key = session_key(HostKind::Photoshop, request.target.as_str());
                let deadline: u128 = now as u128 + request.timeout_ms as u128;
                Ok(
                    BootstrapCall {
                        task: BootstrapTask { request, key, deadline, module_sha256: String::new() },
                        phase: BootstrapPhase::Attesting,
                    },
                )
            },
        }
    }

    /// Takes one step: `event` is what came of the last action, `now` the time
    /// on the clock of the deadline, and `epoch_ms` the time of day.
    pub fn advance(
        self,
        state: &mut BrokerState,
        event: BootstrapEvent,
        now: u64,
        epoch_ms: u64,
    ) -> (r: Step)
        ensures
            advanced(*old(state), *final(state), self, r, event, now, epoch_ms),
    {
        let BootstrapCall { task, phase } = self;
        match (phase, event) {
            (BootstrapPhase::Attesting, BootstrapEvent::Attested(attestation)) => attested(
                task,
                attestation,
                now,
            ),
            (BootstrapPhase::Looking, BootstrapEvent::Resume) => look(
                state,
                task,
                now,
                BootstrapPhase::CheckingSession,
            ),
            (BootstrapPhase::CheckingSession, BootstrapEvent::Resume) => check_session(
                state,
                task,
                now,
            ),
            (BootstrapPhase::LookingAgain, BootstrapEvent::Resume) => look(
                state,
                task,
                now,
                BootstrapPhase::ReadingIdentity,
            ),
            (BootstrapPhase::ReadingIdentity, BootstrapEvent::Resume) => read_identity(
                state,
                task,
                now,
            ),
            (
                BootstrapPhase::ValidatingReady { identity },
                BootstrapEvent::ProcessesChecked { claimed_live, observed_live },
            ) => validate_ready(task, identity, claimed_live, observed_live, now),
            (BootstrapPhase::Reserving, BootstrapEvent::Nonce(nonce)) => reserve(
                state,
                task,
                nonce,
                now,
            ),
            (BootstrapPhase::Preparing, BootstrapEvent::Prepared(prepared)) => store_prepared(
                state,
                task,
                prepared,
                now,
            ),
            (BootstrapPhase::Prepared, BootstrapEvent::Resume) => resume(
                state,
                task,
                now,
                "prepare",
                BootstrapPhase::Launching,
                BootstrapAction::Launch,
            ),
            (BootstrapPhase::Launching, BootstrapEvent::Launched(launched)) => store_launched(
                state,
                task,
                launched,
                now,
            ),
            (BootstrapPhase::Launched, BootstrapEvent::Resume) => resume(
                state,
                task,
                now,
                "launch",
                BootstrapPhase::Polling,
                BootstrapAction::Resume,
            ),
            (BootstrapPhase::Polling, BootstrapEvent::Resume) => poll(state, task, now),
            (
                BootstrapPhase::ValidatingLaunched { identity, observed },
                BootstrapEvent::ProcessesChecked { claimed_live, observed_live },
            ) => validate_launched(
                state,
                task,
                identity,
                observed,
                claimed_live,
                observed_live,
                now,
            ),
            (BootstrapPhase::Committing { identity }, BootstrapEvent::Finalized(ok)) => finalized(
                state,
                task,
                identity,
                ok,
                now,
            ),
            (
                BootstrapPhase::HashingBroker { identity, module_sha256, status, owner },
                BootstrapEvent::BrokerHashed(hashed),
            ) => broker_hashed(state, task, identity, module_sha256, status, owner, hashed, now),
            (
                BootstrapPhase::Minting {
                    identity,
                    module_sha256,
                    status,
                    owner,
                    broker_sha256,
                    fingerprint,
                },
                BootstrapEvent::ReceiptMinted(receipt),
            ) => mint_receipt(
                state,
                task,
                identity,
                module_sha256,
                status,
                owner,
                broker_sha256,
                fingerprint,
                receipt,
                now,
                epoch_ms,
            ),
            (
                BootstrapPhase::Recording { receipt_id, receipt, owner },
                BootstrapEvent::Resume,
            ) => record_bootstrap_result(state, task, receipt_id, receipt, owner, now, epoch_ms),
            (BootstrapPhase::RollingBack { error }, BootstrapEvent::RolledBack(ok)) => rolled_back(
                state,
                task,
                error,
                ok,
            ),
            (BootstrapPhase::Discarding { error }, BootstrapEvent::RolledBack(_)) => finish_err(
                task,
                error,
            ),
            (phase, _) => (BootstrapCall { task, phase }, BootstrapAction::Unexpected),
        }
    }
}

} // verus!
