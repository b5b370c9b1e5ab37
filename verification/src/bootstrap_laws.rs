//! What each step of a bootstrap does, said of what was reported to it and of
//! what it leaves behind.
use vstd::prelude::*;
use vstd::utf8::encode_utf8;

use crate::bootstrap::{
    bootstrap_identity_ok, bound_result, observed_model, timeout_error, unexpired, BootstrapAction,
    BootstrapCall, BootstrapGrant, BootstrapPhase, BootstrapReceipt, BootstrapResult,
};
use crate::bootstrap_outcome::{
    follower_answer, verification_ended, Cancellation, FollowStep, Verification,
};
use crate::bootstrap_types::{
    PhotoshopBootstrapRequest, PhotoshopBootstrapRequestModel, PhotoshopBootstrapStatus,
};
use crate::broker::BrokerState;
use crate::checks::uuid_shape;
use crate::handshake_laws::blames_field;
use crate::history::Moment;
use crate::identity::bootstrap_request_ok;
use crate::json::{render, JsonModel, MemberModel};
use crate::outside::{sha256_text, uuid_text};
use crate::protocol::{ErrorModel, HostKind, RpcErrorResponse};
use crate::receipts::PreparedBootstrap;
use crate::runtime::{RuntimeIdentityAttestationModel, RuntimeIdentityQuery};
use crate::text::decimal_text;

verus! {

/// The error that a step fails with, told at once or after the rollback.
pub open spec fn failure(m: Moment) -> Option<ErrorModel> {
    match m.step.1 {
        BootstrapAction::Finish { outcome: Err(e), .. } => Some(e@),
        BootstrapAction::Rollback { .. } => match m.step.0.phase {
            BootstrapPhase::RollingBack { error } => Some(error@),
            BootstrapPhase::Discarding { error } => Some(error@),
            _ => None,
        },
        _ => None,
    }
}

/// The error answers no request, has the code and the sentence, and names the
/// stage.
pub open spec fn blames_stage(
    e: ErrorModel,
    code: int,
    message: Seq<char>,
    stage: Seq<char>,
) -> bool {
    &&& e.jsonrpc == "2.0"@
    &&& e.id is None
    &&& e.code == code
    &&& e.message == message
    &&& e.data == Some(
        JsonModel::Object(seq![MemberModel { name: "stage"@, value: JsonModel::Text(stage) }]),
    )
    &&& e.diagnostics is None
}

/// The error says that time ran out in the stage.
pub open spec fn ran_out(e: ErrorModel, stage: Seq<char>, timeout_ms: u64) -> bool {
    &&& e.jsonrpc == "2.0"@
    &&& e.id is None
    &&& e.code == -32007
    &&& e.message == "Photoshop UXP bootstrap exceeded its bounded operation deadline"@
    &&& e.data == Some(
        JsonModel::Object(
            seq![
                MemberModel { name: "stage"@, value: JsonModel::Text(stage) },
                MemberModel {
                    name: "timeoutMs"@,
                    value: JsonModel::Number(decimal_text(timeout_ms as nat)),
                },
            ],
        ),
    )
    &&& e.diagnostics is None
}

proof fn time_is_told(m: PhotoshopBootstrapRequestModel, stage: Seq<char>)
    ensures
        ran_out(timeout_error(m, stage), stage, m.timeout_ms),
{
    assert(timeout_error(m, stage).data->0->Object_0 =~= seq![
        MemberModel { name: "stage"@, value: JsonModel::Text(stage) },
        MemberModel {
            name: "timeoutMs"@,
            value: JsonModel::Number(decimal_text(m.timeout_ms as nat)),
        },
    ]);
}

/// The stage that a call is in, by its phase; none once it only undoes what
/// was done.
pub open spec fn stage_of(phase: BootstrapPhase) -> Option<Seq<char>> {
    match phase {
        BootstrapPhase::Attesting => Some("attestation"@),
        BootstrapPhase::Looking | BootstrapPhase::LookingAgain | BootstrapPhase::Reserving => Some(
            "reservation"@,
        ),
        BootstrapPhase::CheckingSession => Some("session"@),
        BootstrapPhase::ReadingIdentity => Some("identity"@),
        BootstrapPhase::ValidatingReady { .. }
        | BootstrapPhase::ValidatingLaunched { .. } => Some("identity_validation"@),
        BootstrapPhase::Preparing | BootstrapPhase::Prepared => Some("prepare"@),
        BootstrapPhase::Launching | BootstrapPhase::Launched => Some("launch"@),
        BootstrapPhase::Polling => Some("verify"@),
        BootstrapPhase::Committing { .. } => Some("commit"@),
        BootstrapPhase::HashingBroker { .. } => Some("broker_attestation"@),
        BootstrapPhase::Minting { .. } => Some("fingerprint"@),
        BootstrapPhase::Recording { .. } => Some("receipt"@),
        _ => None,
    }
}

/// A request is begun exactly if it is in bounds. Its time runs from then, its
/// target's key is Photoshop's, and attestation comes first.
pub proof fn begun_call_has_its_time(
    request: PhotoshopBootstrapRequest,
    now: u64,
    r: Result<BootstrapCall, RpcErrorResponse>,
)
    requires
        BootstrapCall::begun(request, now, r),
    ensures
        r is Ok <==> bootstrap_request_ok(request@),
        r is Ok ==> {
            &&& r->Ok_0.task.request == request
            &&& r->Ok_0.task.key@ == "photoshop:"@ + request.target@
            &&& r->Ok_0.task.deadline == now + request.timeout_ms
            &&& r->Ok_0.phase is Attesting
        },
        r is Err ==> blames_field(
            r->Err_0@,
            -32600,
            "Photoshop bootstrap request is malformed or unbounded"@,
            "request"@,
        ),
{
    reveal_strlit("photoshop:");
    reveal_strlit("photoshop");
    assert("photoshop"@ + seq![':'] + request.target@ =~= "photoshop:"@ + request.target@);
}

/// Whatever is reported to a call at or after its deadline, the call fails for
/// want of time, in the stage that it is in, with the time it had.
pub proof fn late_call_fails_in_its_stage(m: Moment)
    requires
        m.holds(),
        !(m.step.1 is Unexpected),
        m.now >= m.call.task.deadline,
        stage_of(m.call.phase) is Some,
    ensures
        failure(m) is Some,
        ran_out(failure(m)->0, stage_of(m.call.phase)->0, m.call.task.request.timeout_ms),
{
    time_is_told(m.call.task.request@, stage_of(m.call.phase)->0);
}

/// A failing call that owns a grant undoes what was prepared before it tells
/// anyone: the configuration leaves the grant and goes to the rollback. With
/// nothing prepared the grant goes and its followers are told at once. A call
/// that owns no grant ends alone and changes nothing.
pub proof fn failing_owner_undoes_first(m: Moment)
    requires
        m.holds(),
        failure(m) is Some,
        m.call.phase is Launching || m.call.phase is Launched || m.call.phase is Polling
            || m.call.phase is ValidatingLaunched || m.call.phase is Committing || m.call.phase
            is Prepared || (m.call.phase is HashingBroker && m.call.phase->HashingBroker_owner) || (
        m.call.phase is Minting && m.call.phase->Minting_owner) || (m.call.phase is Recording
            && m.call.phase->Recording_owner),
    ensures
        ({
            let key = m.call.task.key@;
            let before = m.pre.bootstrap_grants@;
            let after = m.post.bootstrap_grants@;
            &&& before.dom().contains(key) && before[key].prepared is Some ==> {
                &&& m.step.1 is Rollback
                &&& m.step.1->prepared == before[key].prepared->0
                &&& m.step.0.phase is RollingBack
                &&& after.dom().contains(key)
                &&& after[key].prepared is None
                &&& after[key] == (BootstrapGrant { prepared: None, ..before[key] })
            }
            &&& before.dom().contains(key) && before[key].prepared is None ==> {
                &&& m.step.1 is Finish
                &&& m.step.1->publish == Some(before[key].ticket)
                &&& !after.dom().contains(key)
            }
            &&& !before.dom().contains(key) ==> {
                &&& m.step.1 is Finish
                &&& m.step.1->publish is None
                &&& after == before
            }
            &&& m.post.bootstrap_receipts == m.pre.bootstrap_receipts
            &&& m.post.next_ticket == m.pre.next_ticket
        }),
{
}

/// A call without a grant of its own that fails ends alone and changes
/// nothing.
pub proof fn failing_bystander_changes_nothing(m: Moment)
    requires
        m.holds(),
        failure(m) is Some,
        m.call.phase is Attesting || m.call.phase is Looking || m.call.phase is CheckingSession
            || m.call.phase is LookingAgain || m.call.phase is ReadingIdentity || m.call.phase
            is ValidatingReady || m.call.phase is Reserving || (m.call.phase is HashingBroker
            && !m.call.phase->HashingBroker_owner) || (m.call.phase is Minting
            && !m.call.phase->Minting_owner) || (m.call.phase is Recording
            && !m.call.phase->Recording_owner),
    ensures
        m.step.1 is Finish,
        m.step.1->publish is None,
        m.step.0.phase is Finished,
        m.post == m.pre,
{
}

/// In time, a call goes on from its attestation exactly if a module digest
/// was attested, and carries that digest.
pub proof fn attestation_lets_the_call_go_on(m: Moment)
    requires
        m.holds(),
        m.call.phase is Attesting,
        m.event is Attested,
        m.now < m.call.task.deadline,
    ensures
        m.event->Attested_0 is Some ==> {
            &&& m.step.1 is Resume
            &&& m.step.0.phase is Looking
            &&& m.step.0.task.module_sha256 == m.event->Attested_0->0
        },
        m.event->Attested_0 is None ==> failure(m) is Some && blames_stage(
            failure(m)->0,
            -32010,
            "the authenticated Photoshop product or fixed UXP bridge is unavailable"@,
            "attestation"@,
        ),
        m.post == m.pre,
{
}

/// A call whose target is busy with another request is told so, with the
/// target; a call whose target is free goes on: it looks for a connected
/// bridge, or reads the one it found.
pub proof fn busy_target_is_told(m: Moment)
    requires
        m.holds(),
        m.call.phase is Looking || m.call.phase is LookingAgain,
        m.event is Resume,
        m.now < m.call.task.deadline,
    ensures
        ({
            let grants = m.pre.bootstrap_grants@;
            let key = m.call.task.key@;
            let e = failure(m)->0;
            &&& !grants.dom().contains(key) ==> {
                &&& m.step.1 is Resume
                &&& m.call.phase is Looking ==> m.step.0.phase is CheckingSession
                &&& m.call.phase is LookingAgain ==> m.step.0.phase is ReadingIdentity
            }
            &&& grants.dom().contains(key) && grants[key].request@ != m.call.task.request@ ==> {
                &&& failure(m) is Some
                &&& e.jsonrpc == "2.0"@
                &&& e.id is None
                &&& e.code == -32012
                &&& e.message == "a different Photoshop bootstrap is already active for this target"@
                &&& e.data == Some(
                    JsonModel::Object(
                        seq![
                            MemberModel {
                                name: "target"@,
                                value: JsonModel::Text(m.call.task.request.target@),
                            },
                        ],
                    ),
                )
            }
            &&& grants.dom().contains(key) && grants[key].request@ == m.call.task.request@ ==> {
                &&& m.step.1 is Follow
                &&& m.step.1->ticket == grants[key].ticket
            }
        }),
{
}

/// A call asks for a launch of its own only where no bridge is connected for
/// its target; a connected bridge is looked at first.
pub proof fn connected_bridge_comes_first(m: Moment)
    requires
        m.holds(),
        m.call.phase is CheckingSession,
        m.event is Resume,
        m.now < m.call.task.deadline,
    ensures
        m.pre.sessions@.dom().contains(m.call.task.key@) ==> m.step.0.phase is LookingAgain
            && m.step.1 is Resume,
        !m.pre.sessions@.dom().contains(m.call.task.key@) ==> m.step.0.phase is Reserving
            && m.step.1 is DrawNonce,
        m.post == m.pre,
{
}

/// The query for the Photoshop bridge of the call's target, whoever it is.
pub open spec fn asks_for_target(m: Moment) -> RuntimeIdentityQuery {
    RuntimeIdentityQuery {
        host: HostKind::Photoshop,
        target: Some(m.call.task.request.target),
        expected: None,
    }
}

/// The identity of the bridge that is connected for the target decides: where
/// there is one, the process it names is looked up, and the process that was
/// started along with it; where there is none yet, a call that waits for its
/// bridge waits another twenty milliseconds; every other error ends the call.
pub proof fn identity_of_the_target_is_read(m: Moment)
    requires
        m.holds(),
        m.call.phase is ReadingIdentity || m.call.phase is Polling,
        m.event is Resume,
        m.now < m.call.task.deadline,
    ensures
        ({
            let answer = m.pre.identity_answer(asks_for_target(m));
            let key = m.call.task.key@;
            let waits = m.call.phase is Polling && answer is Err && (answer->Err_0.code == -32010
                || answer->Err_0.code == -32002);
            &&& answer is Ok ==> {
                let id = answer->Ok_0;
                &&& m.step.1 is CheckProcesses
                &&& m.step.1->claimed@.pid == id.host.pid
                &&& m.step.1->claimed@.process_start_identity == id.host.process_start_identity
                &&& m.step.1->claimed@.executable_path == id.host.executable_path
                &&& m.step.1->observed == if m.call.phase is Polling
                    && m.pre.bootstrap_grants@.dom().contains(key) {
                    m.pre.bootstrap_grants@[key].observed
                } else {
                    None
                }
                &&& m.call.phase is ReadingIdentity ==> m.step.0.phase is ValidatingReady
                    && m.step.0.phase->ValidatingReady_identity@ == id
                &&& m.call.phase is Polling ==> m.step.0.phase is ValidatingLaunched
                    && m.step.0.phase->ValidatingLaunched_identity@ == id
                    && m.step.0.phase->ValidatingLaunched_observed == m.step.1->observed
                &&& m.post == m.pre
            }
            &&& waits ==> {
                &&& m.step.1 == (BootstrapAction::Pause { millis: 20 })
                &&& m.step.0.phase is Polling
                &&& m.post == m.pre
            }
            &&& answer is Err && !waits ==> failure(m) == Some(answer->Err_0)
        }),
{
}

/// A bridge that was connected already is confirmed exactly if it is the
/// requested one with its process alive; the broker is hashed next, and the
/// result will say that it was ready. Any other bridge is foreign.
pub proof fn connected_bridge_is_confirmed(m: Moment)
    requires
        m.holds(),
        m.call.phase is ValidatingReady,
        m.event is ProcessesChecked,
        m.now < m.call.task.deadline,
    ensures
        ({
            let id = m.call.phase->ValidatingReady_identity;
            let ok = bootstrap_identity_ok(
                m.call.task.request@,
                id@,
                None,
                m.event->claimed_live,
                m.event->observed_live,
            );
            &&& ok ==> {
                &&& m.step.1 == (BootstrapAction::HashBroker {
                    executable_path: id.broker.executable_path,
                })
                &&& m.step.0.phase == (BootstrapPhase::HashingBroker {
                    identity: id,
                    module_sha256: m.call.task.module_sha256,
                    status: PhotoshopBootstrapStatus::AlreadyReady,
                    owner: false,
                })
            }
            &&& !ok ==> failure(m) is Some && blames_field(
                failure(m)->0,
                -32013,
                "Photoshop bootstrap resolved to a foreign or mismatched instance"@,
                "runtimeIdentity"@,
            )
        }),
        m.post == m.pre,
{
}

/// A free target is reserved for the request with a nonce that nobody has used
/// yet, under a ticket of its own; nothing is prepared and no process is seen.
pub proof fn reservation_holds_the_request(m: Moment)
    requires
        m.holds(),
        m.call.phase is Reserving,
        m.event is Nonce,
        m.now < m.call.task.deadline,
        !m.pre.bootstrap_grants@.dom().contains(m.call.task.key@),
    ensures
        m.step.1 is Prepare,
        m.step.0.phase is Preparing,
        m.post.bootstrap_grants@.dom().contains(m.call.task.key@),
        ({
            let grant = m.post.bootstrap_grants@[m.call.task.key@];
            &&& grant.request == m.call.task.request
            &&& grant.nonce == m.event->Nonce_0
            &&& !grant.nonce_claimed
            &&& grant.observed is None
            &&& grant.prepared is None
            &&& grant.module_sha256 == m.call.task.module_sha256
            &&& grant.ticket == m.pre.next_ticket
        }),
        m.pre.next_ticket < u64::MAX ==> m.post.next_ticket == m.pre.next_ticket + 1,
{
}

/// A prepared configuration goes into the grant with the digest of its module;
/// it is rolled back where the grant is gone. A preparation that failed fails
/// the call.
pub proof fn prepared_configuration_is_kept(m: Moment)
    requires
        m.holds(),
        m.call.phase is Preparing,
        m.event is Prepared,
        m.now < m.call.task.deadline,
    ensures
        ({
            let before = m.pre.bootstrap_grants@;
            let after = m.post.bootstrap_grants@;
            let key = m.call.task.key@;
            let prepared = m.event->Prepared_0;
            &&& prepared is Some && before.dom().contains(key) ==> {
                &&& m.step.1 is Resume
                &&& m.step.0.phase is Prepared
                &&& after.dom().contains(key)
                &&& after[key].prepared == prepared
                &&& after[key].module_sha256 == prepared->0.module_sha256
                &&& after[key].request == before[key].request
                &&& after[key].nonce == before[key].nonce
                &&& after[key].nonce_claimed == before[key].nonce_claimed
                &&& after[key].observed == before[key].observed
                &&& after[key].ticket == before[key].ticket
            }
            &&& prepared is Some && !before.dom().contains(key) ==> {
                &&& m.step.1 == (BootstrapAction::Rollback { prepared: prepared->0 })
                &&& m.step.0.phase is Discarding
                &&& after == before
                &&& blames_stage(
                    failure(m)->0,
                    -32011,
                    "Photoshop bootstrap reservation was cancelled"@,
                    "prepare"@,
                )
            }
            &&& prepared is None ==> failure(m) is Some && blames_stage(
                failure(m)->0,
                -32010,
                "the fixed Photoshop UXP bridge could not be prepared"@,
                "prepare"@,
            )
        }),
{
}

/// A configuration that comes too late is rolled back, as it was prepared.
pub proof fn late_configuration_is_rolled_back(m: Moment)
    requires
        m.holds(),
        m.call.phase is Preparing,
        m.event is Prepared,
        m.event->Prepared_0 is Some,
        m.now >= m.call.task.deadline,
    ensures
        m.step.1 == (BootstrapAction::Rollback { prepared: m.event->Prepared_0->0 }),
        m.pre.bootstrap_grants@.dom().contains(m.call.task.key@) ==> m.step.0.phase is RollingBack
            && m.post.bootstrap_grants@.dom().contains(m.call.task.key@)
            && m.post.bootstrap_grants@[m.call.task.key@].prepared is None,
        !m.pre.bootstrap_grants@.dom().contains(m.call.task.key@) ==> m.step.0.phase is Discarding,
{
}

/// With the configuration in place the host is launched; once launched, its
/// bridge is awaited.
pub proof fn call_goes_on_in_time(m: Moment)
    requires
        m.holds(),
        m.call.phase is Prepared || m.call.phase is Launched,
        m.event is Resume,
        m.now < m.call.task.deadline,
    ensures
        m.call.phase is Prepared ==> m.step.1 is Launch && m.step.0.phase is Launching,
        m.call.phase is Launched ==> m.step.1 is Resume && m.step.0.phase is Polling,
        m.post == m.pre,
{
}

/// The process that was started goes into the grant, and nothing else of the
/// grant changes. Without a process, or without a grant, the call fails.
pub proof fn started_process_is_kept(m: Moment)
    requires
        m.holds(),
        m.call.phase is Launching,
        m.event is Launched,
        m.now < m.call.task.deadline,
    ensures
        ({
            let before = m.pre.bootstrap_grants@;
            let after = m.post.bootstrap_grants@;
            let key = m.call.task.key@;
            &&& m.event->Launched_0 is Some && before.dom().contains(key) ==> {
                &&& m.step.1 is Resume
                &&& m.step.0.phase is Launched
                &&& after.dom().contains(key)
                &&& after[key].observed == m.event->Launched_0
                &&& after[key] == (BootstrapGrant {
                    observed: after[key].observed,
                    ..before[key]
                })
            }
            &&& m.event->Launched_0 is Some && !before.dom().contains(key) ==> failure(m) is Some
                && blames_stage(
                failure(m)->0,
                -32011,
                "Photoshop bootstrap reservation was cancelled"@,
                "launch"@,
            )
            &&& m.event->Launched_0 is None ==> failure(m) is Some && blames_stage(
                failure(m)->0,
                -32010,
                "the selected Photoshop instance could not be launched"@,
                "launch"@,
            )
        }),
{
}

/// The configuration is committed only for the requested bridge in the process
/// that was started, both alive, while the grant still holds it.
pub proof fn only_the_requested_bridge_is_committed(m: Moment)
    requires
        m.holds(),
        m.call.phase is ValidatingLaunched,
        m.event is ProcessesChecked,
        m.now < m.call.task.deadline,
    ensures
        ({
            let id = m.call.phase->ValidatingLaunched_identity;
            let ok = bootstrap_identity_ok(
                m.call.task.request@,
                id@,
                observed_model(m.call.phase->ValidatingLaunched_observed),
                m.event->claimed_live,
                m.event->observed_live,
            );
            let key = m.call.task.key@;
            let held = m.pre.bootstrap_grants@.dom().contains(key)
                && m.pre.bootstrap_grants@[key].prepared is Some;
            &&& m.step.1 is Finalize <==> ok && held
            &&& m.step.1 is Finalize ==> {
                &&& m.step.0.phase == (BootstrapPhase::Committing { identity: id })
                &&& m.post == m.pre
            }
            &&& !ok ==> failure(m) is Some && blames_field(
                failure(m)->0,
                -32013,
                "Photoshop bootstrap resolved to a foreign or mismatched instance"@,
                "runtimeIdentity"@,
            )
            &&& ok && !held ==> failure(m) is Some && blames_stage(
                failure(m)->0,
                -32011,
                "Photoshop bootstrap reservation is unavailable"@,
                "commit"@,
            )
        }),
{
}

/// Once committed, the broker is hashed, and the result will say that the
/// bootstrap made the target ready, with the module digest of the grant. A
/// commit that failed fails the call.
pub proof fn committed_bootstrap_goes_on(m: Moment)
    requires
        m.holds(),
        m.call.phase is Committing,
        m.event is Finalized,
        m.now < m.call.task.deadline,
    ensures
        ({
            let id = m.call.phase->Committing_identity;
            let grants = m.pre.bootstrap_grants@;
            let key = m.call.task.key@;
            &&& m.event->Finalized_0 && grants.dom().contains(key) ==> {
                &&& m.step.1 == (BootstrapAction::HashBroker {
                    executable_path: id.broker.executable_path,
                })
                &&& m.step.0.phase == (BootstrapPhase::HashingBroker {
                    identity: id,
                    module_sha256: grants[key].module_sha256,
                    status: PhotoshopBootstrapStatus::Ready,
                    owner: true,
                })
                &&& m.post == m.pre
            }
            &&& !m.event->Finalized_0 ==> failure(m) is Some && blames_stage(
                failure(m)->0,
                -32010,
                "Photoshop bootstrap could not be committed"@,
                "commit"@,
            )
            &&& m.event->Finalized_0 && !grants.dom().contains(key) ==> failure(m) is Some
                && blames_stage(
                failure(m)->0,
                -32011,
                "Photoshop bootstrap reservation is unavailable"@,
                "commit"@,
            )
        }),
{
}

/// A broker that can be hashed gets a receipt; one that cannot has no
/// identity to bind.
pub proof fn broker_must_be_hashed(m: Moment)
    requires
        m.holds(),
        m.call.phase is HashingBroker,
        m.event is BrokerHashed,
        m.now < m.call.task.deadline,
    ensures
        m.event->BrokerHashed_0 is Some ==> {
            let from = m.call.phase;
            let to = m.step.0.phase;
            &&& m.step.1 is MintReceipt
            &&& to is Minting
            &&& to->Minting_identity == from->HashingBroker_identity
            &&& to->Minting_module_sha256 == from->HashingBroker_module_sha256
            &&& to->Minting_status == from->HashingBroker_status
            &&& to->Minting_owner == from->HashingBroker_owner
            &&& Some(to->broker_sha256) == m.event->BrokerHashed_0
            &&& to->fingerprint@ == sha256_text(
                encode_utf8(render(from->HashingBroker_identity@.json())),
            )
            &&& m.post == m.pre
        },
        m.event->BrokerHashed_0 is None ==> failure(m) is Some && blames_stage(
            failure(m)->0,
            -32010,
            "broker executable identity is unavailable"@,
            "broker_attestation"@,
        ),
{
}

/// A receipt is made for the identity that was confirmed, under the drawn
/// identifier, for two minutes; its result has the status, the fingerprint and
/// the digests that the call has gathered.
pub proof fn receipt_is_made_for_the_identity(m: Moment)
    requires
        m.holds(),
        m.call.phase is Minting,
        m.event is ReceiptMinted,
        m.now < m.call.task.deadline,
    ensures
        ({
            let from = m.call.phase;
            let to = m.step.0.phase;
            let result = to->receipt.result@;
            &&& m.step.1 is Resume
            &&& to is Recording
            &&& to->Recording_owner == from->Minting_owner
            &&& to->receipt_id@ == uuid_text(m.event->ReceiptMinted_0)
            &&& to->receipt.identity == from->Minting_identity
            &&& to->receipt.expires_at_epoch_ms == m.epoch_ms + 120_000
            &&& result.status == from->Minting_status
            &&& result.identity_fingerprint == from->fingerprint@
            &&& result.broker.executable_sha256 == from->broker_sha256@
            &&& result.plugin.module_sha256 == from->Minting_module_sha256@
            &&& result.plugin.instance_id == from->Minting_identity@.bridge.instance_id
            &&& result.broker.instance_id == from->Minting_identity@.broker.instance_id
            &&& result.host.executable_sha256 == m.call.task.request.host.executable_sha256@
            &&& result.continuation.receipt_id == uuid_text(m.event->ReceiptMinted_0)
            &&& m.post == m.pre
        }),
{
}

/// A call keeps its request, its target and its deadline from step to step,
/// and its module digest once that is attested. Where it ends or follows
/// another, it takes no further step.
pub proof fn call_keeps_its_request(m: Moment)
    requires
        m.holds(),
    ensures
        m.step.0.task.request == m.call.task.request,
        m.step.0.task.key == m.call.task.key,
        m.step.0.task.deadline == m.call.task.deadline,
        !(m.call.phase is Attesting) ==> m.step.0.task.module_sha256 == m.call.task.module_sha256,
        m.step.1 is Finish || m.step.1 is Follow ==> m.step.0.phase is Finished,
        m.step.1 is Unexpected ==> m.step.0 == m.call && m.post == m.pre,
{
}

/// A receipt is recorded in time exactly if the call owns no grant, or its
/// grant still holds the configuration. Every receipt that has not expired
/// stays, none that has expired does, and an owner's grant goes while its
/// followers are told.
pub proof fn receipt_is_recorded_with_the_others(m: Moment, other: Seq<char>)
    requires
        m.holds(),
        m.call.phase is Recording,
        m.event is Resume,
        m.now < m.call.task.deadline,
    ensures
        ({
            let key = m.call.task.key@;
            let owner = m.call.phase->Recording_owner;
            let grants = m.pre.bootstrap_grants@;
            let held = grants.dom().contains(key) && grants[key].prepared is Some;
            let before = m.pre.bootstrap_receipts@;
            let after = m.post.bootstrap_receipts@;
            let id = m.call.phase->receipt_id@;
            let ok = m.step.1 is Finish && m.step.1->outcome is Ok;
            &&& ok <==> !owner || held
            &&& ok ==> {
                &&& m.step.1->outcome->Ok_0@ == m.call.phase->receipt.result@
                &&& m.step.1->publish == if owner {
                    Some(grants[key].ticket)
                } else {
                    None
                }
                &&& after.dom().contains(id)
                &&& after[id] == m.call.phase->receipt
                &&& other != id ==> {
                    &&& after.dom().contains(other) <==> before.dom().contains(other)
                        && before[other].expires_at_epoch_ms >= m.epoch_ms
                    &&& after.dom().contains(other) ==> after[other] == before[other]
                }
                &&& owner ==> !m.post.bootstrap_grants@.dom().contains(key)
                &&& !owner ==> m.post.bootstrap_grants@ == grants
            }
            &&& !ok ==> failure(m) is Some && blames_stage(
                failure(m)->0,
                -32011,
                "Photoshop bootstrap reservation is unavailable"@,
                "receipt"@,
            )
        }),
{
}

/// The rollback has the last word: where it succeeded the call fails with the
/// error that led to it, where not with the failed recovery. Either way the
/// grant is gone and its followers hear the same.
pub proof fn rollback_ends_the_call(m: Moment)
    requires
        m.holds(),
        m.call.phase is RollingBack,
        m.event is RolledBack,
    ensures
        m.step.1 is Finish,
        m.step.0.phase is Finished,
        failure(m) is Some,
        m.event->RolledBack_0 ==> failure(m)->0 == m.call.phase->RollingBack_error@,
        !m.event->RolledBack_0 ==> blames_stage(
            failure(m)->0,
            -32011,
            "Photoshop bootstrap state could not be recovered"@,
            "recovery"@,
        ),
        !m.post.bootstrap_grants@.dom().contains(m.call.task.key@),
        m.step.1->publish == if m.pre.bootstrap_grants@.dom().contains(m.call.task.key@) {
            Some(m.pre.bootstrap_grants@[m.call.task.key@].ticket)
        } else {
            None
        },
{
}

/// A call that had nothing left of its grant ends with the error it had, and
/// changes nothing.
pub proof fn discarded_configuration_ends_the_call(m: Moment)
    requires
        m.holds(),
        m.call.phase is Discarding,
        m.event is RolledBack,
    ensures
        failure(m) == Some(m.call.phase->Discarding_error@),
        m.step.1 is Finish,
        m.step.1->publish is None,
        m.post == m.pre,
{
}

/// The result names the parts of the identity and nothing else: the broker's,
/// the host's and the bridge's own fields each in their place.
pub proof fn result_names_the_identity(
    identity: RuntimeIdentityAttestationModel,
    m: PhotoshopBootstrapRequestModel,
    module_sha256: Seq<char>,
    status: PhotoshopBootstrapStatus,
    broker_sha256: Seq<char>,
    digits: Seq<char>,
    receipt_id: Seq<char>,
)
    ensures
        ({
            let r = bound_result(
                identity,
                m,
                module_sha256,
                status,
                broker_sha256,
                digits,
                receipt_id,
            );
            &&& r.bootstrap_version == 1
            &&& r.status == status
            &&& r.identity_fingerprint == digits
            &&& r.broker.pid == identity.broker.pid
            &&& r.broker.process_start_identity == identity.broker.process_start_identity
            &&& r.broker.runtime_version == identity.broker.runtime_version
            &&& r.broker.instance_id == identity.broker.instance_id
            &&& r.broker.executable_sha256 == broker_sha256
            &&& r.host.pid == identity.host.pid
            &&& r.host.process_start_identity == identity.host.process_start_identity
            &&& r.host.host_version == identity.host.host_version
            &&& r.host.profile_id == identity.host.profile_id
            &&& r.host.executable_sha256 == m.host.executable_sha256
            &&& r.plugin.instance_id == identity.bridge.instance_id
            &&& r.plugin.bridge_version == identity.bridge.bridge_version
            &&& r.plugin.module_sha256 == module_sha256
            &&& r.continuation.method == "POST"@
            &&& r.continuation.path == "/v1/photoshop/bootstrap/verify"@
            &&& r.continuation.receipt_id == receipt_id
            &&& r.continuation.timeout_ms == m.timeout_ms
            &&& r.adapter_continuation is None
        }),
{
}

// ---------------------------------------------------------------------------
// Following, cancelling, verifying

/// A follower hears of its owner's outcome, whatever it is, as long as it has
/// time; after that it fails for want of time. An owner that goes without an
/// outcome fails its followers; otherwise they wait.
pub proof fn follower_shares_the_outcome(
    request: PhotoshopBootstrapRequestModel,
    deadline: u128,
    now: u64,
    outcome: Option<BootstrapResult>,
    closed: bool,
    r: FollowStep,
)
    requires
        follower_answer(request, deadline, now, outcome, closed, r),
    ensures
        now < deadline && outcome is Some ==> r == FollowStep::Return(outcome->0),
        now < deadline && outcome is None && closed ==> r is Return && r->Return_0 is Err
            && blames_stage(
            r->Return_0->Err_0@,
            -32011,
            "Photoshop bootstrap transaction ended without a durable outcome"@,
            "transaction"@,
        ),
        r is Wait <==> now < deadline && outcome is None && !closed,
        now >= deadline ==> r is Return && r->Return_0 is Err && ran_out(
            r->Return_0->Err_0@,
            "transaction"@,
            request.timeout_ms,
        ),
{
    time_is_told(request, "transaction"@);
}

/// Cancelling takes what was prepared out of the grant, to be rolled back, and
/// leaves the rest of the grant and every other grant.
pub proof fn cancelling_takes_the_configuration(
    pre: BrokerState,
    post: BrokerState,
    key: Seq<char>,
    r: Option<PreparedBootstrap>,
    other: Seq<char>,
)
    requires
        BrokerState::cancel_begun(pre, post, key, r),
    ensures
        !pre.bootstrap_grants@.dom().contains(key) ==> r is None,
        pre.bootstrap_grants@.dom().contains(key) ==> {
            &&& r == pre.bootstrap_grants@[key].prepared
            &&& post.bootstrap_grants@[key].prepared is None
            &&& post.bootstrap_grants@[key].ticket == pre.bootstrap_grants@[key].ticket
            &&& post.bootstrap_grants@[key].request == pre.bootstrap_grants@[key].request
            &&& post.bootstrap_grants@[key].nonce == pre.bootstrap_grants@[key].nonce
        },
        post.bootstrap_grants@.dom().contains(other) == pre.bootstrap_grants@.dom().contains(other),
        pre.bootstrap_grants@.dom().contains(other) && other != key
            ==> post.bootstrap_grants@[other] == pre.bootstrap_grants@[other],
        post.bootstrap_receipts == pre.bootstrap_receipts,
        post.sessions == pre.sessions,
{
}

/// A cancelled bootstrap is over: its grant is gone and its followers hear
/// that it was cancelled, or that its state could not be recovered.
pub proof fn cancelled_bootstrap_is_over(
    pre: BrokerState,
    post: BrokerState,
    key: Seq<char>,
    rollback_failed: bool,
    r: Option<Cancellation>,
    other: Seq<char>,
)
    requires
        BrokerState::cancel_finished(pre, post, key, rollback_failed, r),
    ensures
        r is Some <==> pre.bootstrap_grants@.dom().contains(key),
        r is Some ==> r->0.ticket == pre.bootstrap_grants@[key].ticket,
        r is Some && rollback_failed ==> blames_stage(
            r->0.error@,
            -32011,
            "cancelled Photoshop bootstrap state could not be recovered"@,
            "recovery"@,
        ),
        r is Some && !rollback_failed ==> blames_stage(
            r->0.error@,
            -32011,
            "Photoshop bootstrap transaction was cancelled"@,
            "cancellation"@,
        ),
        !post.bootstrap_grants@.dom().contains(key),
        other != key ==> {
            &&& post.bootstrap_grants@.dom().contains(other)
                == pre.bootstrap_grants@.dom().contains(other)
            &&& pre.bootstrap_grants@.dom().contains(other) ==> post.bootstrap_grants@[other]
                == pre.bootstrap_grants@[other]
        },
        post.bootstrap_receipts == pre.bootstrap_receipts,
{
}

/// A bootstrap whose configuration could not be published is taken back: its
/// receipt is gone, and no other.
pub proof fn withdrawn_receipt_is_gone(
    pre: BrokerState,
    post: BrokerState,
    receipt_id: Seq<char>,
    rolled_back: bool,
    r: RpcErrorResponse,
    other: Seq<char>,
)
    requires
        BrokerState::withdrawn(pre, post, receipt_id, rolled_back, r),
    ensures
        !post.bootstrap_receipts@.dom().contains(receipt_id),
        other != receipt_id ==> {
            &&& post.bootstrap_receipts@.dom().contains(other)
                == pre.bootstrap_receipts@.dom().contains(other)
            &&& pre.bootstrap_receipts@.dom().contains(other) ==> post.bootstrap_receipts@[other]
                == pre.bootstrap_receipts@[other]
        },
        rolled_back ==> blames_stage(
            r@,
            -32010,
            "Photoshop bootstrap could not be committed"@,
            "commit"@,
        ),
        !rolled_back ==> blames_stage(
            r@,
            -32011,
            "Photoshop bootstrap state could not be recovered"@,
            "recovery"@,
        ),
        post.bootstrap_grants == pre.bootstrap_grants,
        post.sessions == pre.sessions,
{
}

/// A receipt is verified exactly if it is a canonical UUID under which a
/// receipt is kept that has not expired, and the Photoshop bridge of its
/// target still has the very identity it was issued for. The verification
/// then looks at the process of that identity and gives the issued result.
pub proof fn verified_receipt_holds(
    state: BrokerState,
    receipt_id: Seq<char>,
    epoch_ms: u64,
    r: Result<Verification, RpcErrorResponse>,
)
    requires
        state.verified(receipt_id, epoch_ms, r),
    ensures
        ({
            let receipts = state.bootstrap_receipts@;
            let kept = receipts.dom().contains(receipt_id)
                && receipts[receipt_id].expires_at_epoch_ms >= epoch_ms;
            let id = receipts[receipt_id].identity;
            let answer = state.identity_answer(
                RuntimeIdentityQuery {
                    host: HostKind::Photoshop,
                    target: Some(id.bridge.target),
                    expected: Some(id),
                },
            );
            &&& r is Ok <==> uuid_shape(receipt_id) && kept && answer is Ok
            &&& r is Ok ==> {
                &&& answer->Ok_0 == id@
                &&& r->Ok_0.observed@.pid == id.host.pid
                &&& r->Ok_0.observed@.process_start_identity == id.host.process_start_identity@
                &&& r->Ok_0.observed@.executable_path == id.host.executable_path@
                &&& r->Ok_0.result@ == receipts[receipt_id].result@
            }
            &&& r is Err ==> {
                let e = r->Err_0@;
                if !uuid_shape(receipt_id) {
                    blames_field(
                        e,
                        -32600,
                        "Photoshop bootstrap receipt is invalid"@,
                        "receiptId"@,
                    )
                } else if !kept {
                    blames_field(
                        e,
                        -32011,
                        "Photoshop bootstrap receipt is stale or unavailable"@,
                        "receiptId"@,
                    )
                } else {
                    e == answer->Err_0
                }
            }
        }),
{
}

/// A verification succeeds with the issued result exactly if the host process
/// is still alive.
pub proof fn verification_needs_the_process(
    verification: Verification,
    process_live: bool,
    r: BootstrapResult,
)
    requires
        verification_ended(verification, process_live, r),
    ensures
        process_live ==> r is Ok && r->Ok_0 == verification.result,
        !process_live ==> r is Err && blames_field(
            r->Err_0@,
            -32011,
            "Photoshop process identity changed after bootstrap"@,
            "host.processStartIdentity"@,
        ),
{
}

/// A receipt is dropped exactly when the time is past its expiry.
pub proof fn receipts_expire_by_the_clock(
    receipts: Map<Seq<char>, BootstrapReceipt>,
    epoch_ms: u128,
    id: Seq<char>,
)
    ensures
        unexpired(receipts, epoch_ms).dom().contains(id) <==> receipts.dom().contains(id)
            && epoch_ms <= receipts[id].expires_at_epoch_ms,
        unexpired(receipts, epoch_ms).dom().contains(id) ==> unexpired(receipts, epoch_ms)[id]
            == receipts[id],
{
}

} // verus!
