//! Whole bootstrap calls: what holds from the first step of a call to its
//! last, whatever other calls do in between.
use vstd::prelude::*;

use crate::bootstrap::{
    bootstrap_identity_ok, unexpired, BootstrapAction, BootstrapCall, BootstrapEvent, BootstrapGrant,
    BootstrapPhase, BootstrapReceipt, BootstrapTask,
};
use crate::bootstrap_call::{advanced, late, target_query, Step};
use crate::bootstrap_outcome::{follower_answer, FollowStep};
use crate::bootstrap_types::{BootstrapHostBindingModel, PhotoshopBootstrapStatus};
use crate::broker::{BrokerState, Delivery, Dispatch};
use crate::handshake::{BoundHandshake, CheckingHandshake};
use crate::checks::paths_equal;
use crate::identity::fingerprint;
use crate::outside::uuid_text;
use crate::protocol::{BridgeKind, ErrorModel, RpcErrorResponse, RpcRequest};
use crate::runtime::{
    BridgeInbound, RuntimeIdentityAttestation, RuntimeIdentityAttestationModel,
};

verus! {

/// One step of a call: the state before and after it, the call before it, what
/// was reported, and what came of it.
pub ghost struct Moment {
    pub pre: BrokerState,
    pub post: BrokerState,
    pub call: BootstrapCall,
    pub event: BootstrapEvent,
    pub step: Step,
    pub now: u64,
    pub epoch_ms: u64,
}

impl Moment {
    /// The step is one that a call takes.
    pub open spec fn holds(self) -> bool {
        advanced(
            self.pre,
            self.post,
            self.call,
            self.step,
            self.event,
            self.now,
            self.epoch_ms,
        )
    }
}

/// The event reports what came of the action.
pub open spec fn answers(action: BootstrapAction, event: BootstrapEvent) -> bool {
    match action {
        BootstrapAction::Attest => event is Attested,
        BootstrapAction::Resume => event is Resume,
        BootstrapAction::CheckProcesses { .. } => event is ProcessesChecked,
        BootstrapAction::DrawNonce => event is Nonce,
        BootstrapAction::Prepare => event is Prepared,
        BootstrapAction::Launch => event is Launched,
        BootstrapAction::Pause { .. } => event is Resume,
        BootstrapAction::Finalize => event is Finalized,
        BootstrapAction::HashBroker { .. } => event is BrokerHashed,
        BootstrapAction::MintReceipt => event is ReceiptMinted,
        BootstrapAction::Rollback { .. } => event is RolledBack,
        _ => false,
    }
}

/// A call in this phase owns the grant of its target.
pub open spec fn owns(phase: BootstrapPhase) -> bool {
    match phase {
        BootstrapPhase::Preparing
        | BootstrapPhase::Prepared
        | BootstrapPhase::Launching
        | BootstrapPhase::Launched
        | BootstrapPhase::Polling
        | BootstrapPhase::ValidatingLaunched { .. }
        | BootstrapPhase::Committing { .. }
        | BootstrapPhase::RollingBack { .. } => true,
        BootstrapPhase::HashingBroker { owner, .. } => owner,
        BootstrapPhase::Minting { owner, .. } => owner,
        BootstrapPhase::Recording { owner, .. } => owner,
        _ => false,
    }
}

/// A grant is still there and is the same; only its nonce may have been used.
pub open spec fn grant_kept(
    before: Map<Seq<char>, BootstrapGrant>,
    after: Map<Seq<char>, BootstrapGrant>,
    key: Seq<char>,
) -> bool {
    before.dom().contains(key) ==> after.dom().contains(key) && after[key] == (BootstrapGrant {
        nonce_claimed: after[key].nonce_claimed,
        ..before[key]
    })
}

/// A step goes on where another one ended. In between others may have changed
/// the state, but not a grant that the call owns.
pub open spec fn follows(a: Moment, b: Moment) -> bool {
    &&& b.call == a.step.0
    &&& answers(a.step.1, b.event)
    &&& owns(b.call.phase) ==> grant_kept(
        a.post.bootstrap_grants@,
        b.pre.bootstrap_grants@,
        b.call.task.key@,
    )
}

/// Step `i` of a call goes on where the one before it ended.
pub open spec fn linked(h: Seq<Moment>, i: int) -> bool {
    follows(h[i - 1], h[i])
}

/// The steps of one call, from its first one on.
pub open spec fn history(h: Seq<Moment>) -> bool {
    &&& h.len() > 0
    &&& h[0].call.phase is Attesting
    &&& h[0].event is Attested
    &&& forall|i: int| 0 <= i < h.len() ==> (#[trigger] h[i]).holds()
    &&& forall|i: int| 0 < i < h.len() ==> #[trigger] linked(h, i)
}

/// The call has ended, or goes on as the follower of another one.
pub open spec fn ended(h: Seq<Moment>) -> bool {
    h.last().step.1 is Finish || h.last().step.1 is Follow
}

/// Something that a call asks for, or that is done for it.
pub ghost enum Deed {
    /// The configuration is asked to be written.
    Prepare,
    /// The configuration has been written.
    Prepared,
    Launch,
    Finalize,
    Rollback,
}

/// The deed belongs to the step.
pub open spec fn did(m: Moment, deed: Deed) -> bool {
    match deed {
        Deed::Prepare => m.step.1 is Prepare,
        Deed::Prepared => m.event is Prepared && m.event->Prepared_0 is Some,
        Deed::Launch => m.step.1 is Launch,
        Deed::Finalize => m.step.1 is Finalize,
        Deed::Rollback => m.step.1 is Rollback,
    }
}

/// How often the first `n` steps of a call hold the deed.
pub open spec fn tally(h: Seq<Moment>, deed: Deed, n: nat) -> nat
    decreases n,
{
    if n == 0 {
        0
    } else {
        tally(h, deed, (n - 1) as nat) + if did(h[n - 1], deed) {
            1nat
        } else {
            0nat
        }
    }
}

/// The identity is the requested one, its process alive.
pub open spec fn matched(task: BootstrapTask, identity: RuntimeIdentityAttestation) -> bool {
    bootstrap_identity_ok(task.request@, identity@, None, true, true)
}

/// What a call has made sure of by the time it is in its phase.
pub open spec fn sound(call: BootstrapCall) -> bool {
    match call.phase {
        BootstrapPhase::Committing { identity } => matched(call.task, identity),
        BootstrapPhase::HashingBroker { identity, status, owner, .. } => matched(
            call.task,
            identity,
        ) && owner == (status == PhotoshopBootstrapStatus::Ready),
        BootstrapPhase::Minting { identity, status, owner, fingerprint: digits, .. } => matched(
            call.task,
            identity,
        ) && owner == (status == PhotoshopBootstrapStatus::Ready) && digits@ == fingerprint(
            identity@,
        ),
        BootstrapPhase::Recording { receipt, owner, .. } => {
            &&& matched(call.task, receipt.identity)
            &&& owner == (receipt.result@.status == PhotoshopBootstrapStatus::Ready)
            &&& receipt.result@.identity_fingerprint == fingerprint(receipt.identity@)
            &&& receipt.result@.host == (BootstrapHostBindingModel {
                pid: receipt.identity@.host.pid,
                process_start_identity: receipt.identity@.host.process_start_identity,
                host_version: receipt.identity@.host.host_version,
                profile_id: receipt.identity@.host.profile_id,
                executable_sha256: call.task.request@.host.executable_sha256,
            })
        },
        _ => true,
    }
}

/// How often an owner in this phase has asked for the deed.
pub open spec fn asked(phase: BootstrapPhase, deed: Deed) -> nat {
    let prepared = owns(phase) && !(phase is Preparing);
    let launched = prepared && !(phase is Prepared);
    let finalized = launched && !(phase is Launching) && !(phase is Launched) && !(phase is Polling)
        && !(phase is ValidatingLaunched);
    let so = match deed {
        Deed::Prepare => owns(phase),
        Deed::Prepared => prepared,
        Deed::Launch => launched,
        Deed::Finalize => finalized,
        Deed::Rollback => false,
    };
    if so {
        1
    } else {
        0
    }
}

proof fn step_keeps_task(m: Moment)
    requires
        m.holds(),
    ensures
        m.step.0.task.request == m.call.task.request,
        m.step.0.task.key == m.call.task.key,
        m.step.0.task.deadline == m.call.task.deadline,
{
}

proof fn step_keeps_sound(m: Moment)
    requires
        m.holds(),
        sound(m.call),
    ensures
        sound(m.step.0),
{
}

/// The deeds of the first `n` steps are those that the phase stands for.
pub open spec fn tallied(h: Seq<Moment>, phase: BootstrapPhase, n: nat) -> bool {
    &&& tally(h, Deed::Prepare, n) == asked(phase, Deed::Prepare)
    &&& tally(h, Deed::Prepared, n) == asked(phase, Deed::Prepared)
    &&& tally(h, Deed::Launch, n) == asked(phase, Deed::Launch)
    &&& tally(h, Deed::Finalize, n) == asked(phase, Deed::Finalize)
    &&& tally(h, Deed::Rollback, n) == asked(phase, Deed::Rollback)
}

/// What was prepared in one of the first `n` steps is what was rolled back.
pub open spec fn undid_its_own(h: Seq<Moment>, n: int) -> bool {
    forall|j: int, k: int|
        0 <= j < n && 0 <= k < n && did(h[j], Deed::Prepared) && did(h[k], Deed::Rollback)
            ==> (#[trigger] h[k]).step.1->prepared == (#[trigger] h[j]).event->Prepared_0->0
}

/// How a call stands before its step `i`.
pub open spec fn standing(h: Seq<Moment>, i: int) -> bool {
    let m = h[i];
    let phase = m.call.phase;
    let grants = m.pre.bootstrap_grants@;
    let key = m.call.task.key@;
    &&& sound(m.call)
    &&& m.call.task.request == h[0].call.task.request
    &&& m.call.task.key == h[0].call.task.key
    &&& m.call.task.deadline == h[0].call.task.deadline
    &&& !(phase is Discarding) && !(phase is Finished)
    &&& if phase is RollingBack {
        &&& tally(h, Deed::Prepare, i as nat) == 1
        &&& tally(h, Deed::Prepared, i as nat) == 1
        &&& tally(h, Deed::Rollback, i as nat) == 1
        &&& undid_its_own(h, i)
        &&& grants.dom().contains(key)
        &&& grants[key].prepared is None
    } else if owns(phase) {
        &&& tallied(h, phase, i as nat)
        &&& grants.dom().contains(key)
        &&& if phase is Preparing {
            grants[key].prepared is None
        } else {
            &&& grants[key].prepared is Some
            &&& forall|j: int|
                0 <= j < i && did(h[j], Deed::Prepared) ==> grants[key].prepared
                    == (#[trigger] h[j]).event->Prepared_0
        }
    } else {
        tallied(h, phase, i as nat)
    }
}

/// A deed that was done is counted.
proof fn done_is_counted(h: Seq<Moment>, deed: Deed, j: int, n: nat)
    requires
        0 <= j < n,
        did(h[j], deed),
    ensures
        tally(h, deed, n) > 0,
    decreases n,
{
    if j < n - 1 {
        done_is_counted(h, deed, j, (n - 1) as nat);
    }
}

/// A deed that is not counted was not done.
proof fn uncounted_is_not_done(h: Seq<Moment>, deed: Deed, n: nat)
    requires
        tally(h, deed, n) == 0,
    ensures
        forall|j: int| 0 <= j < n ==> !did(#[trigger] h[j], deed),
{
    assert forall|j: int| 0 <= j < n implies !did(#[trigger] h[j], deed) by {
        if did(h[j], deed) {
            done_is_counted(h, deed, j, n);
        }
    }
}

/// Whether a step holds the deed, as a number.
spec fn once(m: Moment, deed: Deed) -> nat {
    if did(m, deed) {
        1
    } else {
        0
    }
}

/// The grant of an owner is there, and holds a configuration from the moment
/// it is prepared until it is rolled back.
spec fn granted(
    phase: BootstrapPhase,
    grants: Map<Seq<char>, BootstrapGrant>,
    key: Seq<char>,
) -> bool {
    owns(phase) ==> {
        &&& grants.dom().contains(key)
        &&& grants[key].prepared is None <==> phase is Preparing || phase is RollingBack
    }
}

/// The call goes on after the step.
spec fn goes_on(m: Moment) -> bool {
    !(m.step.1 is Finish) && !(m.step.1 is Follow) && !(m.step.1 is Unexpected)
}

proof fn step_counts(m: Moment)
    requires
        m.holds(),
        goes_on(m),
        !(m.call.phase is Discarding),
        granted(m.call.phase, m.pre.bootstrap_grants@, m.call.task.key@),
    ensures
        !(m.call.phase is RollingBack),
        !(m.step.0.phase is Discarding),
        !(m.step.0.phase is Finished),
        ({
            let from = m.call.phase;
            let to = m.step.0.phase;
            if to is RollingBack {
                &&& asked(from, Deed::Prepare) == 1
                &&& once(m, Deed::Prepare) == 0
                &&& asked(from, Deed::Prepared) + once(m, Deed::Prepared) == 1
                &&& asked(from, Deed::Rollback) + once(m, Deed::Rollback) == 1
            } else {
                &&& asked(to, Deed::Prepare) == asked(from, Deed::Prepare) + once(m, Deed::Prepare)
                &&& asked(to, Deed::Prepared) == asked(from, Deed::Prepared) + once(
                    m,
                    Deed::Prepared,
                )
                &&& asked(to, Deed::Launch) == asked(from, Deed::Launch) + once(m, Deed::Launch)
                &&& asked(to, Deed::Finalize) == asked(from, Deed::Finalize) + once(
                    m,
                    Deed::Finalize,
                )
                &&& asked(to, Deed::Rollback) == asked(from, Deed::Rollback) + once(
                    m,
                    Deed::Rollback,
                )
            }
        }),
{
}

proof fn step_keeps_grant(m: Moment)
    requires
        m.holds(),
        goes_on(m),
        !(m.call.phase is Discarding),
        granted(m.call.phase, m.pre.bootstrap_grants@, m.call.task.key@),
    ensures
        granted(m.step.0.phase, m.post.bootstrap_grants@, m.call.task.key@),
        ({
            let before = m.pre.bootstrap_grants@[m.call.task.key@].prepared;
            let after = m.post.bootstrap_grants@[m.call.task.key@].prepared;
            let given = if did(m, Deed::Prepared) {
                m.event->Prepared_0
            } else {
                before
            };
            if m.step.0.phase is RollingBack {
                m.step.1 is Rollback && given == Some(m.step.1->prepared)
            } else {
                owns(m.step.0.phase) && !(m.step.0.phase is Preparing) ==> after == given
            }
        }),
{
}

proof fn call_stands(h: Seq<Moment>, i: int)
    requires
        history(h),
        0 <= i < h.len(),
    ensures
        standing(h, i),
    decreases i,
{
    if i > 0 {
        call_stands(h, i - 1);
        let a = h[i - 1];
        assert(a.holds());
        assert(linked(h, i));
        next_stands(h, i);
    }
}

proof fn next_stands(h: Seq<Moment>, i: int)
    requires
        0 < i < h.len(),
        h[i - 1].holds(),
        linked(h, i),
        standing(h, i - 1),
    ensures
        standing(h, i),
{
    let a = h[i - 1];
    let b = h[i];
    let n = i as nat;
    let before = (i - 1) as nat;
    step_keeps_task(a);
    step_keeps_sound(a);
    step_counts(a);
    step_keeps_grant(a);
    assert(tally(h, Deed::Prepare, n) == tally(h, Deed::Prepare, before) + once(a, Deed::Prepare));
    assert(tally(h, Deed::Prepared, n) == tally(h, Deed::Prepared, before) + once(
        a,
        Deed::Prepared,
    ));
    assert(tally(h, Deed::Launch, n) == tally(h, Deed::Launch, before) + once(a, Deed::Launch));
    assert(tally(h, Deed::Finalize, n) == tally(h, Deed::Finalize, before) + once(
        a,
        Deed::Finalize,
    ));
    assert(tally(h, Deed::Rollback, n) == tally(h, Deed::Rollback, before) + once(
        a,
        Deed::Rollback,
    ));
    if tally(h, Deed::Prepared, before) == 0 {
        uncounted_is_not_done(h, Deed::Prepared, before);
    }
    uncounted_is_not_done(h, Deed::Rollback, before);
}

/// A deed that is counted was done.
proof fn counted_is_done(h: Seq<Moment>, deed: Deed, n: nat) -> (j: int)
    requires
        tally(h, deed, n) > 0,
    ensures
        0 <= j < n,
        did(h[j], deed),
    decreases n,
{
    if did(h[n - 1], deed) {
        n - 1
    } else {
        counted_is_done(h, deed, (n - 1) as nat)
    }
}

/// The module digest that a call carries after its first `i` steps: that of
/// the configuration it prepared, or the attested one where it prepared none.
spec fn carries_module(h: Seq<Moment>, i: int, owner: bool, digest: Seq<char>) -> bool {
    if owner {
        forall|j: int|
            0 <= j < i && did(h[j], Deed::Prepared) ==> digest == (#[trigger] h[j]).event->Prepared_0->0.module_sha256@
    } else {
        digest == h[0].event->Attested_0->0@
    }
}

/// The identity was read for the call's target in one of its first `i` steps,
/// and the process it names was found alive in the next one.
pub open spec fn was_verified(h: Seq<Moment>, i: int, identity: RuntimeIdentityAttestationModel) -> bool {
    exists|k: int|
        0 <= k < i - 1 && #[trigger] h[k].pre.identity_answer(target_query(h[k].call.task)) == Ok::<
            RuntimeIdentityAttestationModel,
            ErrorModel,
        >(identity) && h[k + 1].event is ProcessesChecked && h[k + 1].event->claimed_live
}

/// The result in a receipt names the parts of its identity, and the receipt.
spec fn names_its_identity(task: BootstrapTask, receipt_id: Seq<char>, receipt: BootstrapReceipt) -> bool {
    let result = receipt.result@;
    let identity = receipt.identity@;
    &&& result.bootstrap_version == 1
    &&& result.plugin.instance_id == identity.bridge.instance_id
    &&& result.plugin.bridge_version == identity.bridge.bridge_version
    &&& result.broker.pid == identity.broker.pid
    &&& result.broker.process_start_identity == identity.broker.process_start_identity
    &&& result.broker.runtime_version == identity.broker.runtime_version
    &&& result.broker.instance_id == identity.broker.instance_id
    &&& result.continuation.method == "POST"@
    &&& result.continuation.path == "/v1/photoshop/bootstrap/verify"@
    &&& result.continuation.receipt_id == receipt_id
    &&& result.continuation.timeout_ms == task.request.timeout_ms
    &&& result.adapter_continuation is None
}

/// What a call carries along in its phase before its step `i`.
spec fn carried_phase(h: Seq<Moment>, i: int) -> bool {
    match h[i].call.phase {
        BootstrapPhase::ValidatingReady { identity } => i >= 1
            && h[i - 1].pre.identity_answer(target_query(h[i - 1].call.task)) == Ok::<
            RuntimeIdentityAttestationModel,
            ErrorModel,
        >(identity@),
        BootstrapPhase::ValidatingLaunched { identity, .. } => i >= 1
            && h[i - 1].pre.identity_answer(target_query(h[i - 1].call.task)) == Ok::<
            RuntimeIdentityAttestationModel,
            ErrorModel,
        >(identity@),
        BootstrapPhase::Committing { identity } => was_verified(h, i, identity@),
        BootstrapPhase::HashingBroker { identity, module_sha256, owner, .. } => carries_module(
            h,
            i,
            owner,
            module_sha256@,
        ) && was_verified(h, i, identity@),
        BootstrapPhase::Minting { identity, module_sha256, owner, broker_sha256, .. } => {
            &&& carries_module(h, i, owner, module_sha256@)
            &&& was_verified(h, i, identity@)
            &&& i >= 1
            &&& h[i - 1].event is BrokerHashed
            &&& h[i - 1].event->BrokerHashed_0 == Some(broker_sha256)
        },
        BootstrapPhase::Recording { receipt_id, receipt, owner } => {
            &&& carries_module(h, i, owner, receipt.result@.plugin.module_sha256)
            &&& was_verified(h, i, receipt.identity@)
            &&& i >= 2
            &&& h[i - 2].event is BrokerHashed
            &&& h[i - 2].event->BrokerHashed_0 is Some
            &&& receipt.result@.broker.executable_sha256 == h[i - 2].event->BrokerHashed_0->0@
            &&& h[i - 1].event is ReceiptMinted
            &&& receipt_id@ == uuid_text(h[i - 1].event->ReceiptMinted_0)
            &&& receipt.expires_at_epoch_ms == h[i - 1].epoch_ms + 120_000
            &&& names_its_identity(h[i].call.task, receipt_id@, receipt)
        },
        _ => true,
    }
}

/// What a call carries along before its step `i`.
spec fn carried(h: Seq<Moment>, i: int) -> bool {
    let call = h[i].call;
    &&& call.phase is Attesting <==> i == 0
    &&& i > 0 ==> h[0].event->Attested_0 is Some && call.task.module_sha256
        == h[0].event->Attested_0->0
    &&& owns(call.phase) ==> module_granted(h[i].pre.bootstrap_grants@, call.task.key@)
    &&& carried_phase(h, i)
}

/// How a step hands on the module digest and the identity.
spec fn handed_on(m: Moment) -> bool {
    let to = m.step.0.phase;
    let task = m.call.task;
    let grants = m.pre.bootstrap_grants@;
    match to {
        BootstrapPhase::Attesting => false,
        BootstrapPhase::ValidatingReady { identity } => m.pre.identity_answer(target_query(task))
            == Ok::<RuntimeIdentityAttestationModel, ErrorModel>(identity@),
        BootstrapPhase::ValidatingLaunched { identity, .. } => m.pre.identity_answer(
            target_query(task),
        ) == Ok::<RuntimeIdentityAttestationModel, ErrorModel>(identity@),
        BootstrapPhase::Committing { identity } => {
            &&& m.call.phase is ValidatingLaunched
            &&& m.call.phase->ValidatingLaunched_identity == identity
            &&& m.event is ProcessesChecked
            &&& m.event->claimed_live
        },
        BootstrapPhase::HashingBroker { identity, module_sha256, owner, .. } => if owner {
            &&& m.call.phase is Committing
            &&& m.call.phase->Committing_identity == identity
            &&& module_sha256 == grants[task.key@].module_sha256
        } else {
            &&& m.call.phase is ValidatingReady
            &&& m.call.phase->ValidatingReady_identity == identity
            &&& m.event is ProcessesChecked
            &&& m.event->claimed_live
            &&& module_sha256 == task.module_sha256
        },
        BootstrapPhase::Minting { identity, module_sha256, owner, broker_sha256, .. } => {
            &&& m.call.phase is HashingBroker
            &&& m.call.phase->HashingBroker_identity == identity
            &&& m.call.phase->HashingBroker_module_sha256 == module_sha256
            &&& m.call.phase->HashingBroker_owner == owner
            &&& m.event is BrokerHashed
            &&& m.event->BrokerHashed_0 == Some(broker_sha256)
        },
        BootstrapPhase::Recording { receipt_id, receipt, owner } => {
            &&& m.call.phase is Minting
            &&& m.call.phase->Minting_identity == receipt.identity
            &&& m.call.phase->Minting_module_sha256@ == receipt.result@.plugin.module_sha256
            &&& m.call.phase->broker_sha256@ == receipt.result@.broker.executable_sha256
            &&& m.call.phase->Minting_owner == owner
            &&& m.event is ReceiptMinted
            &&& receipt_id@ == uuid_text(m.event->ReceiptMinted_0)
            &&& receipt.expires_at_epoch_ms == m.epoch_ms + 120_000
            &&& names_its_identity(m.call.task, receipt_id@, receipt)
        },
        _ => true,
    }
}

proof fn step_hands_on(m: Moment)
    requires
        m.holds(),
        goes_on(m),
    ensures
        handed_on(m),
{
}

proof fn step_keeps_module(m: Moment)
    requires
        m.holds(),
        goes_on(m),
    ensures
        if m.call.phase is Attesting {
            m.event->Attested_0 is Some && m.step.0.task.module_sha256 == m.event->Attested_0->0
        } else {
            m.step.0.task.module_sha256 == m.call.task.module_sha256
        },
{
}

/// The grant holds the module digest of its configuration.
spec fn module_granted(grants: Map<Seq<char>, BootstrapGrant>, key: Seq<char>) -> bool {
    grants[key].prepared is Some ==> grants[key].module_sha256
        == grants[key].prepared->0.module_sha256
}

proof fn step_keeps_module_granted(m: Moment)
    requires
        m.holds(),
        goes_on(m),
        !(m.call.phase is Discarding),
        granted(m.call.phase, m.pre.bootstrap_grants@, m.call.task.key@),
        owns(m.call.phase) ==> module_granted(m.pre.bootstrap_grants@, m.call.task.key@),
    ensures
        owns(m.step.0.phase) ==> module_granted(m.post.bootstrap_grants@, m.call.task.key@),
{
}

proof fn verified_stays(h: Seq<Moment>, i: int, identity: RuntimeIdentityAttestationModel)
    requires
        was_verified(h, i, identity),
    ensures
        was_verified(h, i + 1, identity),
{
    let k = choose|k: int|
        0 <= k < i - 1 && #[trigger] h[k].pre.identity_answer(target_query(h[k].call.task)) == Ok::<
            RuntimeIdentityAttestationModel,
            ErrorModel,
        >(identity) && h[k + 1].event is ProcessesChecked && h[k + 1].event->claimed_live;
    assert(h[k].pre.identity_answer(target_query(h[k].call.task)) == Ok::<
        RuntimeIdentityAttestationModel,
        ErrorModel,
    >(identity));
}

/// What was prepared in the first `i` steps is what the grant holds.
spec fn prepared_is_granted(h: Seq<Moment>, i: int) -> bool {
    let grants = h[i].pre.bootstrap_grants@;
    let key = h[i].call.task.key@;
    &&& grants[key].prepared is Some
    &&& forall|j: int|
        0 <= j < i && did(h[j], Deed::Prepared) ==> grants[key].prepared
            == (#[trigger] h[j]).event->Prepared_0
}

proof fn committing_is_granted(h: Seq<Moment>, i: int)
    requires
        standing(h, i),
        h[i].call.phase is Committing,
    ensures
        prepared_is_granted(h, i),
{
}

proof fn finalizing_carries(h: Seq<Moment>, i: int)
    requires
        0 < i < h.len(),
        h[i].call == h[i - 1].step.0,
        handed_on(h[i - 1]),
        h[i - 1].call.phase is Committing,
        h[i].call.phase is HashingBroker,
        h[i].call.phase->HashingBroker_owner,
        prepared_is_granted(h, i - 1),
        module_granted(h[i - 1].pre.bootstrap_grants@, h[i - 1].call.task.key@),
        !did(h[i - 1], Deed::Prepared),
    ensures
        carries_module(h, i, true, h[i].call.phase->HashingBroker_module_sha256@),
{
    let digest = h[i].call.phase->HashingBroker_module_sha256;
    assert forall|j: int| 0 <= j < i && did(h[j], Deed::Prepared) implies digest@ == (
    #[trigger] h[j]).event->Prepared_0->0.module_sha256@ by {
        assert(j < i - 1);
    }
}

proof fn module_stays(h: Seq<Moment>, i: int, owner: bool, digest: Seq<char>)
    requires
        carries_module(h, i, owner, digest),
        !did(h[i], Deed::Prepared),
    ensures
        carries_module(h, i + 1, owner, digest),
{
}

proof fn next_carries(h: Seq<Moment>, i: int)
    requires
        0 < i < h.len(),
        history(h),
        carried(h, i - 1),
        standing(h, i - 1),
    ensures
        carried(h, i),
{
    let a = h[i - 1];
    let b = h[i];
    assert(a.holds());
    assert(linked(h, i));
    ending_is_last(h, i - 1);
    step_keeps_task(a);
    step_hands_on(a);
    step_keeps_module(a);
    step_keeps_module_granted(a);
    step_keeps_grant(a);
    if a.call.phase is Committing {
        committing_is_granted(h, i - 1);
    }
    next_carries_phase(h, i);
}

proof fn next_carries_phase(h: Seq<Moment>, i: int)
    requires
        0 < i < h.len(),
        h[i].call == h[i - 1].step.0,
        handed_on(h[i - 1]),
        h[i - 1].step.0.task.request == h[i - 1].call.task.request,
        carried_phase(h, i - 1),
        owns(h[i - 1].call.phase) ==> module_granted(
            h[i - 1].pre.bootstrap_grants@,
            h[i - 1].call.task.key@,
        ),
        h[i - 1].call.phase is Committing ==> prepared_is_granted(h, i - 1)
            && h[i - 1].event is Finalized,
        h[i - 1].call.phase is ValidatingReady ==> h[i - 1].call.task.module_sha256
            == h[0].event->Attested_0->0,
    ensures
        carried_phase(h, i),
{
    let a = h[i - 1];
    match h[i].call.phase {
        BootstrapPhase::Committing { identity } => {
            assert(h[i - 2].pre.identity_answer(target_query(h[i - 2].call.task)) == Ok::<
                RuntimeIdentityAttestationModel,
                ErrorModel,
            >(identity@));
            assert(h[i - 2 + 1].event is ProcessesChecked);
        },
        BootstrapPhase::HashingBroker { identity, owner, .. } => {
            if owner {
                verified_stays(h, i - 1, identity@);
                finalizing_carries(h, i);
            } else {
                assert(h[i - 2].pre.identity_answer(target_query(h[i - 2].call.task)) == Ok::<
                    RuntimeIdentityAttestationModel,
                    ErrorModel,
                >(identity@));
                assert(h[i - 2 + 1].event is ProcessesChecked);
            }
        },
        BootstrapPhase::Minting { identity, owner, module_sha256, .. } => {
            verified_stays(h, i - 1, identity@);
            module_stays(h, i - 1, owner, module_sha256@);
        },
        BootstrapPhase::Recording { receipt, owner, .. } => {
            verified_stays(h, i - 1, receipt.identity@);
            module_stays(h, i - 1, owner, receipt.result@.plugin.module_sha256);
        },
        _ => {},
    }
}

proof fn call_carries(h: Seq<Moment>, i: int)
    requires
        history(h),
        0 <= i < h.len(),
    ensures
        carried(h, i),
    decreases i,
{
    if i > 0 {
        call_carries(h, i - 1);
        call_stands(h, i - 1);
        next_carries(h, i);
    }
}

/// Only a success changes the receipts.
proof fn step_keeps_receipts(m: Moment)
    requires
        m.holds(),
        !(m.step.1 is Finish && m.step.1->outcome is Ok),
    ensures
        m.post.bootstrap_receipts == m.pre.bootstrap_receipts,
{
}

/// A call in this phase waits for an event like this one.
spec fn awaited(phase: BootstrapPhase, event: BootstrapEvent) -> bool {
    match phase {
        BootstrapPhase::Attesting => event is Attested,
        BootstrapPhase::ValidatingReady { .. } | BootstrapPhase::ValidatingLaunched { .. } => event
            is ProcessesChecked,
        BootstrapPhase::Reserving => event is Nonce,
        BootstrapPhase::Preparing => event is Prepared,
        BootstrapPhase::Launching => event is Launched,
        BootstrapPhase::Committing { .. } => event is Finalized,
        BootstrapPhase::HashingBroker { .. } => event is BrokerHashed,
        BootstrapPhase::Minting { .. } => event is ReceiptMinted,
        BootstrapPhase::RollingBack { .. } | BootstrapPhase::Discarding { .. } => event
            is RolledBack,
        BootstrapPhase::Finished => false,
        _ => event is Resume,
    }
}

/// The answer to an action is what the call waits for.
proof fn answer_is_awaited(m: Moment, event: BootstrapEvent)
    requires
        m.holds(),
        answers(m.step.1, event),
    ensures
        awaited(m.step.0.phase, event),
{
}

/// Every event of a call is one that it waits for.
proof fn nothing_is_unexpected(h: Seq<Moment>, i: int)
    requires
        history(h),
        0 <= i < h.len(),
    ensures
        !(h[i].step.1 is Unexpected),
{
    assert(h[i].holds());
    if i > 0 {
        assert(linked(h, i));
        assert(h[i - 1].holds());
        answer_is_awaited(h[i - 1], h[i].event);
    }
    assert(awaited(h[i].call.phase, h[i].event));
}

/// A step that ends the call is its last one.
proof fn ending_is_last(h: Seq<Moment>, i: int)
    requires
        history(h),
        0 <= i < h.len() - 1,
    ensures
        goes_on(h[i]),
{
    assert(linked(h, i + 1));
}

/// Before its last step a call changes no receipt.
proof fn receipts_stay(h: Seq<Moment>)
    requires
        history(h),
    ensures
        forall|i: int|
            0 <= i < h.len() - 1 ==> (#[trigger] h[i]).post.bootstrap_receipts
                == h[i].pre.bootstrap_receipts,
        !(h.last().step.1 is Finish && h.last().step.1->outcome is Ok)
            ==> h.last().post.bootstrap_receipts == h.last().pre.bootstrap_receipts,
{
    assert forall|i: int| 0 <= i < h.len() - 1 implies (#[trigger] h[i]).post.bootstrap_receipts
        == h[i].pre.bootstrap_receipts by {
        ending_is_last(h, i);
        step_keeps_receipts(h[i]);
    }
    let m = h.last();
    assert(h[h.len() - 1].holds());
    if !(m.step.1 is Finish && m.step.1->outcome is Ok) {
        step_keeps_receipts(m);
    }
}

// ---------------------------------------------------------------------------
// What others leave alone

/// A step of a call that does not own the grant of its target leaves every
/// grant as it is, unless it reserves a free target.
pub proof fn only_the_owner_changes_a_grant(m: Moment)
    requires
        m.holds(),
        !owns(m.call.phase),
        !owns(m.step.0.phase),
    ensures
        m.post.bootstrap_grants@ == m.pre.bootstrap_grants@,
{
}

/// A call comes to own a grant only by reserving a target that is free, so
/// that a target has one owner at a time.
pub proof fn ownership_begins_with_a_free_target(m: Moment)
    requires
        m.holds(),
        !owns(m.call.phase),
        owns(m.step.0.phase),
    ensures
        !m.pre.bootstrap_grants@.dom().contains(m.call.task.key@),
        m.post.bootstrap_grants@.dom().contains(m.call.task.key@),
        m.post.bootstrap_grants@[m.call.task.key@].request == m.call.task.request,
        m.step.1 is Prepare,
{
}

/// A step of a call for another target keeps a grant.
pub proof fn other_targets_keep_a_grant(m: Moment, key: Seq<char>)
    requires
        m.holds(),
        m.call.task.key@ != key,
    ensures
        grant_kept(m.pre.bootstrap_grants@, m.post.bootstrap_grants@, key),
{
}

/// Binding a bridge keeps every grant; it only uses up a nonce.
pub proof fn binding_keeps_a_grant(
    pre: BrokerState,
    post: BrokerState,
    checking: CheckingHandshake,
    process_live: bool,
    r: Result<BoundHandshake, RpcErrorResponse>,
    key: Seq<char>,
)
    requires
        BrokerState::bound(pre, post, checking, process_live, r),
    ensures
        grant_kept(pre.bootstrap_grants@, post.bootstrap_grants@, key),
{
}

/// Calls to bridges, their replies and lost connections keep every grant.
pub proof fn traffic_keeps_grants(
    pre: BrokerState,
    post: BrokerState,
    request: RpcRequest,
    dispatch: Result<Dispatch, RpcErrorResponse>,
    message: BridgeInbound,
    delivery: Option<Delivery>,
    key: Seq<char>,
    connection_id: u64,
    reason: Seq<char>,
    deliveries: Seq<Delivery>,
)
    requires
        BrokerState::dispatched(pre, post, request, dispatch) || BrokerState::delivered(
            pre,
            post,
            message,
            delivery,
        ) || BrokerState::disconnected(pre, post, key, connection_id, reason, deliveries),
    ensures
        post.bootstrap_grants == pre.bootstrap_grants,
{
}

// ---------------------------------------------------------------------------
// Whole calls

/// A call that reserved its target and fails leaves no grant and no receipt,
/// and what was prepared for it was rolled back: as often as it was prepared,
/// which is once at most, and with what was prepared. Every follower that
/// still has time hears of the very error.
pub proof fn failed_owner_leaves_nothing(
    h: Seq<Moment>,
    reserved: int,
    deadline: u128,
    now: u64,
    closed: bool,
    answer: FollowStep,
)
    requires
        history(h),
        0 <= reserved < h.len(),
        h[reserved].step.1 is Prepare,
        h.last().step.1 is Finish,
        h.last().step.1->outcome is Err,
        now < deadline,
        follower_answer(
            h.last().call.task.request@,
            deadline,
            now,
            Some(h.last().step.1->outcome),
            closed,
            answer,
        ),
    ensures
        !h.last().post.bootstrap_grants@.dom().contains(h[0].call.task.key@),
        forall|i: int|
            0 <= i < h.len() ==> (#[trigger] h[i]).post.bootstrap_receipts
                == h[i].pre.bootstrap_receipts,
        tally(h, Deed::Rollback, h.len()) == tally(h, Deed::Prepared, h.len()),
        tally(h, Deed::Prepared, h.len()) <= 1,
        undid_its_own(h, h.len() as int),
        h.last().step.1->publish == Some(
            h.last().pre.bootstrap_grants@[h[0].call.task.key@].ticket,
        ),
        answer is Return,
        answer->Return_0 is Err,
        answer->Return_0->Err_0@ == h.last().step.1->outcome->Err_0@,
{
    let l = h.len() - 1;
    let m = h[l];
    call_stands(h, l);
    done_is_counted(h, Deed::Prepare, reserved, l as nat);
    assert(owns(m.call.phase));
    assert(m.holds());
    assert(m.call.phase is Preparing || m.call.phase is RollingBack);
    assert(tally(h, Deed::Rollback, h.len()) == tally(h, Deed::Rollback, l as nat) + once(
        m,
        Deed::Rollback,
    ));
    assert(tally(h, Deed::Prepared, h.len()) == tally(h, Deed::Prepared, l as nat) + once(
        m,
        Deed::Prepared,
    ));
    assert(!did(m, Deed::Rollback) && !did(m, Deed::Prepared));
    if m.call.phase is Preparing {
        uncounted_is_not_done(h, Deed::Rollback, l as nat);
    }
    receipts_stay(h);
}

/// A call that succeeds binds what it verified. The identity in its receipt
/// was read for the target, the process it names was alive, and it agrees with
/// the request. The result's plugin part carries the instance and version of
/// the bridge of that identity and the module digest that was attested for the
/// call; its broker part carries the broker of that identity with the digest
/// that hashing its executable gave; its host part carries the host of that
/// identity with the digest that the request gives. The result names the
/// receipt under which it can be verified for two minutes.
pub proof fn success_binds_what_was_verified(h: Seq<Moment>)
    requires
        history(h),
        h.last().step.1 is Finish,
        h.last().step.1->outcome is Ok,
    ensures
        ({
            let m = h.last();
            let r = m.step.1->outcome->Ok_0;
            let receipt = m.call.phase->receipt;
            let id = receipt.identity;
            let request = h[0].call.task.request;
            let n = h.len() as int;
            &&& n >= 3
            &&& m.call.phase is Recording
            &&& r@ == receipt.result@
            &&& m.post.bootstrap_receipts@.dom().contains(r.continuation.receipt_id@)
            &&& m.post.bootstrap_receipts@[r.continuation.receipt_id@] == receipt
            &&& receipt.expires_at_epoch_ms == h[n - 2].epoch_ms + 120_000
            &&& r.continuation.receipt_id@ == uuid_text(h[n - 2].event->ReceiptMinted_0)
            &&& r.continuation.method@ == "POST"@
            &&& r.continuation.path@ == "/v1/photoshop/bootstrap/verify"@
            &&& r.continuation.timeout_ms == request.timeout_ms
            &&& r.adapter_continuation is None
            &&& r.bootstrap_version == 1
            &&& was_verified(h, n - 1, id@)
            &&& id.bridge.target@ == request.target@
            &&& id.bridge.bridge_kind == BridgeKind::Uxp
            &&& id.bridge.bridge_version@ == request.plugin.bridge_version@
            &&& id.host.host_version@ == request.host.host_version@
            &&& id.host.profile_id@ == request.host.profile_id@
            &&& paths_equal(id.host.executable_path@, request.host.executable_path@)
            &&& paths_equal(
                id.bridge.installed_plugin_root@,
                request.plugin.installed_plugin_root@,
            )
            &&& paths_equal(id.bridge.module_origin@, request.plugin.module_origin@)
            &&& r.plugin.instance_id@ == id.bridge.instance_id@
            &&& r.plugin.bridge_version@ == id.bridge.bridge_version@
            &&& if r.status == PhotoshopBootstrapStatus::Ready {
                exists|j: int|
                    0 <= j < n && did(h[j], Deed::Prepared) && r.plugin.module_sha256@
                        == (#[trigger] h[j]).event->Prepared_0->0.module_sha256@
            } else {
                &&& r.status == PhotoshopBootstrapStatus::AlreadyReady
                &&& forall|j: int| 0 <= j < n ==> !did(#[trigger] h[j], Deed::Prepared)
                &&& h[0].event->Attested_0 is Some
                &&& r.plugin.module_sha256@ == h[0].event->Attested_0->0@
            }
            &&& r.broker.pid == id.broker.pid
            &&& r.broker.process_start_identity@ == id.broker.process_start_identity@
            &&& r.broker.runtime_version@ == id.broker.runtime_version@
            &&& r.broker.instance_id@ == id.broker.instance_id@
            &&& h[n - 3].event is BrokerHashed
            &&& h[n - 3].event->BrokerHashed_0 is Some
            &&& r.broker.executable_sha256@ == h[n - 3].event->BrokerHashed_0->0@
            &&& r.host.pid == id.host.pid
            &&& r.host.process_start_identity@ == id.host.process_start_identity@
            &&& r.host.host_version@ == id.host.host_version@
            &&& r.host.profile_id@ == id.host.profile_id@
            &&& r.host.executable_sha256@ == request.host.executable_sha256@
        }),
{
    let l = h.len() - 1;
    let m = h[l];
    call_stands(h, l);
    call_carries(h, l);
    assert(m.holds());
    assert(m.call.phase is Recording);
    let r = m.step.1->outcome->Ok_0;
    assert(r@ == m.call.phase->receipt.result@);
    if r.status == PhotoshopBootstrapStatus::Ready {
        assert(r@.status == PhotoshopBootstrapStatus::Ready);
        let j = counted_is_done(h, Deed::Prepared, l as nat);
        assert(did(h[j], Deed::Prepared));
    } else {
        assert(r@.status != PhotoshopBootstrapStatus::Ready);
        uncounted_is_not_done(h, Deed::Prepared, l as nat);
        assert(!did(m, Deed::Prepared));
    }
}

/// The target has its bridge, nothing else goes on there, and everything that
/// a call asks about it is answered in time and in its favour.
pub open spec fn target_is_ready(h: Seq<Moment>, identity: RuntimeIdentityAttestationModel) -> bool {
    forall|i: int| 0 <= i < h.len() ==> ready_at(#[trigger] h[i], identity)
}

/// The target is ready at the time of the step.
pub open spec fn ready_at(m: Moment, identity: RuntimeIdentityAttestationModel) -> bool {
    &&& !late(m.call.task, m.now)
    &&& !m.pre.bootstrap_grants@.dom().contains(m.call.task.key@)
    &&& m.pre.sessions@.dom().contains(m.call.task.key@)
    &&& m.pre.identity_answer(target_query(m.call.task)) == Ok::<
        RuntimeIdentityAttestationModel,
        ErrorModel,
    >(identity)
    &&& m.event is Attested ==> m.event->Attested_0 is Some
    &&& m.event is ProcessesChecked ==> m.event->claimed_live
    &&& m.event is BrokerHashed ==> m.event->BrokerHashed_0 is Some
}

/// How a call on a ready target stands.
spec fn confirms(call: BootstrapCall, identity: RuntimeIdentityAttestationModel) -> bool {
    match call.phase {
        BootstrapPhase::Attesting
        | BootstrapPhase::Looking
        | BootstrapPhase::CheckingSession
        | BootstrapPhase::LookingAgain
        | BootstrapPhase::ReadingIdentity => true,
        BootstrapPhase::ValidatingReady { identity: read } => read@ == identity,
        BootstrapPhase::HashingBroker { identity: read, status, owner, .. } => read@ == identity
            && !owner && status == PhotoshopBootstrapStatus::AlreadyReady,
        BootstrapPhase::Minting { identity: read, status, owner, .. } => read@ == identity && !owner
            && status == PhotoshopBootstrapStatus::AlreadyReady,
        BootstrapPhase::Recording { receipt, owner, .. } => receipt.identity@ == identity && !owner
            && receipt.result@.status == PhotoshopBootstrapStatus::AlreadyReady,
        _ => false,
    }
}

proof fn step_confirms(m: Moment, identity: RuntimeIdentityAttestationModel)
    requires
        m.holds(),
        !(m.step.1 is Unexpected),
        ready_at(m, identity),
        bootstrap_identity_ok(m.call.task.request@, identity, None, true, true),
        confirms(m.call, identity),
    ensures
        m.post.bootstrap_grants@ == m.pre.bootstrap_grants@,
        !(m.step.1 is Prepare) && !(m.step.1 is Launch) && !(m.step.1 is Finalize) && !(m.step.1
            is Rollback) && !(m.step.1 is Follow),
        goes_on(m) ==> confirms(m.step.0, identity),
        m.step.1 is Finish ==> m.call.phase is Recording && m.step.1->outcome is Ok
            && m.step.1->outcome->Ok_0@ == m.call.phase->receipt.result@,
{
}

proof fn call_confirms(h: Seq<Moment>, identity: RuntimeIdentityAttestationModel, i: int)
    requires
        history(h),
        target_is_ready(h, identity),
        bootstrap_identity_ok(h[0].call.task.request@, identity, None, true, true),
        0 <= i < h.len(),
    ensures
        confirms(h[i].call, identity),
    decreases i,
{
    if i > 0 {
        call_confirms(h, identity, i - 1);
        call_stands(h, i - 1);
        assert(linked(h, i));
        assert(h[i - 1].holds());
        assert(ready_at(h[i - 1], identity));
        step_confirms(h[i - 1], identity);
    }
}

/// A bootstrap that is repeated while the bridge of the first one is connected
/// writes, launches, commits and undoes nothing and touches no grant. It
/// succeeds with the fingerprint and the host of the first one.
pub proof fn repeated_bootstrap_confirms(first: Seq<Moment>, second: Seq<Moment>)
    requires
        history(first),
        first.last().step.1 is Finish,
        first.last().step.1->outcome is Ok,
        history(second),
        second[0].call.task.request@ == first[0].call.task.request@,
        target_is_ready(second, first.last().call.phase->receipt.identity@),
    ensures
        forall|i: int|
            0 <= i < second.len() ==> {
                &&& !((#[trigger] second[i]).step.1 is Prepare)
                &&& !(second[i].step.1 is Launch)
                &&& !(second[i].step.1 is Finalize)
                &&& !(second[i].step.1 is Rollback)
                &&& second[i].post.bootstrap_grants@ == second[i].pre.bootstrap_grants@
            },
        ended(second) ==> {
            let one = first.last().step.1->outcome->Ok_0@;
            let two = second.last().step.1->outcome->Ok_0@;
            &&& second.last().step.1 is Finish
            &&& second.last().step.1->outcome is Ok
            &&& two.status == PhotoshopBootstrapStatus::AlreadyReady
            &&& two.identity_fingerprint == one.identity_fingerprint
            &&& two.host == one.host
            &&& !second.last().post.bootstrap_grants@.dom().contains(second[0].call.task.key@)
        },
{
    let identity = first.last().call.phase->receipt.identity@;
    let l = first.len() - 1;
    call_stands(first, l);
    assert(first[l].holds());
    assert(first[l].call.phase is Recording);
    assert forall|i: int| 0 <= i < second.len() implies {
        &&& !((#[trigger] second[i]).step.1 is Prepare)
        &&& !(second[i].step.1 is Launch)
        &&& !(second[i].step.1 is Finalize)
        &&& !(second[i].step.1 is Rollback)
        &&& second[i].post.bootstrap_grants@ == second[i].pre.bootstrap_grants@
    } by {
        call_confirms(second, identity, i);
        call_stands(second, i);
        assert(second[i].holds());
        assert(ready_at(second[i], identity));
        nothing_is_unexpected(second, i);
        step_confirms(second[i], identity);
    }
    let k = second.len() - 1;
    call_confirms(second, identity, k);
    call_stands(second, k);
    assert(second[k].holds());
    assert(ready_at(second[k], identity));
    nothing_is_unexpected(second, k);
    step_confirms(second[k], identity);
}

/// A call finds the bootstrap with the ticket, for the same request, in
/// progress at its target before it can reserve the target itself, in time.
pub open spec fn joins_at(m: Moment, ticket: u64) -> bool {
    let grants = m.pre.bootstrap_grants@;
    let key = m.call.task.key@;
    let found = grants.dom().contains(key) && grants[key].ticket == ticket && grants[key].request@
        == m.call.task.request@;
    &&& !late(m.call.task, m.now)
    &&& m.event is Attested ==> m.event->Attested_0 is Some
    &&& m.call.phase is Looking ==> found || !grants.dom().contains(key)
    &&& m.call.phase is CheckingSession ==> !m.pre.sessions@.dom().contains(key)
    &&& m.call.phase is Reserving ==> found
}

spec fn on_its_way(phase: BootstrapPhase) -> bool {
    phase is Attesting || phase is Looking || phase is CheckingSession || phase is Reserving
}

proof fn step_joins(m: Moment, ticket: u64)
    requires
        m.holds(),
        !(m.step.1 is Unexpected),
        joins_at(m, ticket),
        on_its_way(m.call.phase),
    ensures
        m.post == m.pre,
        m.step.1 is Resume || m.step.1 is DrawNonce || m.step.1 == (BootstrapAction::Follow {
            ticket,
        }),
        goes_on(m) ==> on_its_way(m.step.0.phase),
{
}

proof fn call_joins(h: Seq<Moment>, ticket: u64, i: int)
    requires
        history(h),
        forall|j: int| 0 <= j < h.len() ==> joins_at(#[trigger] h[j], ticket),
        0 <= i < h.len(),
    ensures
        on_its_way(h[i].call.phase),
    decreases i,
{
    if i > 0 {
        call_joins(h, ticket, i - 1);
        assert(linked(h, i));
        assert(h[i - 1].holds());
        assert(joins_at(h[i - 1], ticket));
        step_joins(h[i - 1], ticket);
    }
}

/// Two calls with the same request share one launch: where one of them owns
/// the bootstrap and succeeds and the other finds it in progress, the
/// configuration is written, the host launched and the configuration
/// committed once, nothing is rolled back, one receipt is added, no grant is
/// left, and both end with the same result.
pub proof fn equal_requests_share_one_launch(
    owner: Seq<Moment>,
    follower: Seq<Moment>,
    now: u64,
    closed: bool,
    answer: FollowStep,
)
    requires
        history(owner),
        owner.last().step.1 is Finish,
        owner.last().step.1->outcome is Ok,
        owner.last().step.1->publish is Some,
        history(follower),
        ended(follower),
        follower[0].call.task.request@ == owner[0].call.task.request@,
        forall|j: int|
            0 <= j < follower.len() ==> joins_at(
                #[trigger] follower[j],
                owner.last().step.1->publish->0,
            ),
        now < follower[0].call.task.deadline,
        follower_answer(
            follower[0].call.task.request@,
            follower[0].call.task.deadline,
            now,
            Some(owner.last().step.1->outcome),
            closed,
            answer,
        ),
    ensures
        follower.last().step.1 == (BootstrapAction::Follow {
            ticket: owner.last().step.1->publish->0,
        }),
        answer == FollowStep::Return(owner.last().step.1->outcome),
        owner.last().step.1->outcome->Ok_0@.status == PhotoshopBootstrapStatus::Ready,
        tally(owner, Deed::Prepare, owner.len()) == 1,
        tally(owner, Deed::Launch, owner.len()) == 1,
        tally(owner, Deed::Finalize, owner.len()) == 1,
        tally(owner, Deed::Rollback, owner.len()) == 0,
        forall|j: int| 0 <= j < follower.len() ==> (#[trigger] follower[j]).post == follower[j].pre,
        forall|j: int|
            0 <= j < follower.len() ==> {
                &&& !did(#[trigger] follower[j], Deed::Prepare)
                &&& !did(follower[j], Deed::Launch)
                &&& !did(follower[j], Deed::Finalize)
                &&& !did(follower[j], Deed::Rollback)
            },
        forall|i: int|
            0 <= i < owner.len() - 1 ==> (#[trigger] owner[i]).post.bootstrap_receipts
                == owner[i].pre.bootstrap_receipts,
        ({
            let m = owner.last();
            let id = m.call.phase->receipt_id@;
            &&& m.post.bootstrap_receipts@ == unexpired(
                m.pre.bootstrap_receipts@,
                m.epoch_ms as u128,
            ).insert(id, m.call.phase->receipt)
            &&& m.call.phase->receipt.result@ == m.step.1->outcome->Ok_0@
            &&& !m.post.bootstrap_grants@.dom().contains(owner[0].call.task.key@)
        }),
{
    let l = owner.len() - 1;
    let m = owner[l];
    let ticket = owner.last().step.1->publish->0;
    call_stands(owner, l);
    assert(m.holds());
    assert(m.call.phase is Recording && owns(m.call.phase));
    assert(tally(owner, Deed::Prepare, owner.len()) == tally(owner, Deed::Prepare, l as nat) + once(
        m,
        Deed::Prepare,
    ));
    assert(tally(owner, Deed::Launch, owner.len()) == tally(owner, Deed::Launch, l as nat) + once(
        m,
        Deed::Launch,
    ));
    assert(tally(owner, Deed::Finalize, owner.len()) == tally(owner, Deed::Finalize, l as nat)
        + once(m, Deed::Finalize));
    assert(tally(owner, Deed::Rollback, owner.len()) == tally(owner, Deed::Rollback, l as nat)
        + once(m, Deed::Rollback));
    receipts_stay(owner);
    assert forall|j: int| 0 <= j < follower.len() implies {
        &&& (#[trigger] follower[j]).post == follower[j].pre
        &&& !did(follower[j], Deed::Prepare)
        &&& !did(follower[j], Deed::Launch)
        &&& !did(follower[j], Deed::Finalize)
        &&& !did(follower[j], Deed::Rollback)
    } by {
        call_joins(follower, ticket, j);
        assert(follower[j].holds());
        assert(joins_at(follower[j], ticket));
        if j < follower.len() - 1 {
            ending_is_last(follower, j);
        }
        step_joins(follower[j], ticket);
    }
    let k = follower.len() - 1;
    call_joins(follower, ticket, k);
    assert(follower[k].holds());
    assert(joins_at(follower[k], ticket));
    step_joins(follower[k], ticket);
}

} // verus!
