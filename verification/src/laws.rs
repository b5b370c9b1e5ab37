//! What holds of the library as a whole: statements about several operations
//! together, or about every state.
use vstd::prelude::*;

use crate::bootstrap::{
    claimed_process_model, conflict_error, timeout_error, BootstrapAction, BootstrapCall,
    BootstrapEvent, RECEIPT_LIFETIME_MS,
};
use crate::bootstrap_call::{advanced, late, Step};
use crate::bootstrap_outcome::Verification;
use crate::bootstrap_types::{
    BootstrapAdapterContinuationModel, IllustratorBootstrapResultModel,
    PhotoshopBootstrapResultModel,
};
use crate::broker::{dispatch_id_text, BrokerState, Delivery, Dispatch};
use crate::checks::{is_drive_path, module_in_plugin, normal_path, paths_equal};
use crate::config::{
    fresh_lease, is_lease, lease_busy, ConfigPhase, ConfigTransactionError,
    ConfigTransactionIdentity, LeaseModel, OwnerModel, QuiescenceAck, RestoreModel, RollbackModel,
    StagedModel, WriteModel,
};
use crate::files::FileReceiptModel;
use crate::handshake::{binding_fault, nonce_error, BoundHandshake, CheckingHandshake};
use crate::helper::{
    frame_step, newline_at, staged_model, FrameKind, FrameModel, HelperPoolError, HelperRequest,
    HelperResponse, StagingPlace,
};
use crate::host::{
    spawned, terminated, HostProcessBroker, HostProcessError, OwnedHostProcess, Remainder,
    Termination,
};
use crate::identity::{
    bridge_claim_ok, expectation_fault, host_claim_ok, identity_shape, missing_fields,
    module_claim_ok, name_if, session_identity,
};
use crate::json::{texts_json, JsonModel, MemberModel};
use crate::outside::{is_random_uuid, uuid_text, uuid_value};
use crate::pool::HelperProcessPool;
use crate::protocol::{
    host_named, session_key_text, BridgeSessionInfo, HostKind, RequestIdModel, RpcErrorResponse,
    RpcRequest, RpcResponse, ERROR_IDENTITY_STALE,
};
use crate::runtime::{
    BridgeIdentityClaim, BridgeInbound, BrokerRuntimeIdentityModel, RuntimeIdentityAttestationModel,
    RuntimeIdentityQuery,
};
use crate::text::{
    decimal_text, digit_char, digits_value, is_digit_char, lower_char, lower_text, unsigned_digits,
    unsigned_value,
};

verus! {

// ---------------------------------------------------------------------------
// Names and keys

proof fn reveal_host_names()
    ensures
        "photoshop"@ =~= seq!['p', 'h', 'o', 't', 'o', 's', 'h', 'o', 'p'],
        "indesign"@ =~= seq!['i', 'n', 'd', 'e', 's', 'i', 'g', 'n'],
        "premiere"@ =~= seq!['p', 'r', 'e', 'm', 'i', 'e', 'r', 'e'],
        "after-effects"@ =~= seq!['a', 'f', 't', 'e', 'r', '-', 'e', 'f', 'f', 'e', 'c', 't', 's'],
        "illustrator"@ =~= seq!['i', 'l', 'l', 'u', 's', 't', 'r', 'a', 't', 'o', 'r'],
        "lightroom-classic"@ =~= seq![
            'l', 'i', 'g', 'h', 't', 'r', 'o', 'o', 'm', '-', 'c', 'l', 'a', 's', 's', 'i', 'c',
        ],
        "acrobat"@ =~= seq!['a', 'c', 'r', 'o', 'b', 'a', 't'],
        "animate"@ =~= seq!['a', 'n', 'i', 'm', 'a', 't', 'e'],
        "cloud"@ =~= seq!['c', 'l', 'o', 'u', 'd'],
{
    reveal_strlit("photoshop");
    reveal_strlit("indesign");
    reveal_strlit("premiere");
    reveal_strlit("after-effects");
    reveal_strlit("illustrator");
    reveal_strlit("lightroom-classic");
    reveal_strlit("acrobat");
    reveal_strlit("animate");
    reveal_strlit("cloud");
}

proof fn lemma_host_name(host: HostKind)
    ensures
        lower_text(host.name()) == host.name(),
        forall|i: int| 0 <= i < host.name().len() ==> host.name()[i] != ':',
        host.name().len() >= 5,
{
    reveal_host_names();
    assert(lower_text(host.name()) =~= host.name());
}

/// A host is found again under its own name.
pub proof fn host_name_round_trip(host: HostKind)
    ensures
        host_named(lower_text(host.name())) == Some(host),
{
    reveal_host_names();
    lemma_host_name(host);
    reveal_strlit("ps");
    reveal_strlit("id");
    reveal_strlit("pr");
    reveal_strlit("ae");
    reveal_strlit("ai");
    reveal_strlit("lr");
    reveal_strlit("rest");
    reveal_strlit("premiere-pro");
    reveal_strlit("aftereffects");
    reveal_strlit("lightroom");
    let n = host.name();
    assert(n[0] == 'p' || n[0] == 'i' || n[0] == 'a' || n[0] == 'l' || n[0] == 'c');
    assert(n[1] == n[1] && n[2] == n[2]);
}

proof fn lemma_host_names_differ(a: HostKind, b: HostKind)
    requires
        a.name() == b.name(),
    ensures
        a == b,
{
    host_name_round_trip(a);
    host_name_round_trip(b);
}

/// Two sessions have the same key only if they have the same host and target.
pub proof fn session_keys_are_distinct(a: HostKind, s: Seq<char>, b: HostKind, t: Seq<char>)
    requires
        session_key_text(a, s) == session_key_text(b, t),
    ensures
        a == b,
        s == t,
{
    let key = session_key_text(a, s);
    lemma_host_name(a);
    lemma_host_name(b);
    let n = a.name().len();
    let m = b.name().len();
    assert(key[n as int] == ':');
    assert(session_key_text(b, t)[m as int] == ':');
    if n < m {
        assert(session_key_text(b, t)[n as int] == b.name()[n as int]);
    }
    if m < n {
        assert(key[m as int] == a.name()[m as int]);
    }
    assert(a.name() =~= key.take(n as int));
    assert(b.name() =~= session_key_text(b, t).take(m as int));
    lemma_host_names_differ(a, b);
    assert(s =~= key.skip(n as int + 1));
    assert(t =~= session_key_text(b, t).skip(m as int + 1));
}

proof fn lemma_decimal_injective(a: nat, b: nat)
    requires
        decimal_text(a) == decimal_text(b),
    ensures
        a == b,
    decreases a,
{
    let s = decimal_text(a);
    let t = decimal_text(b);
    assert(s.last() == t.last());
    assert(digit_char(a % 10) == s.last()) by {
        if a < 10 {
            assert(a % 10 == a);
        }
    }
    assert(digit_char(b % 10) == t.last()) by {
        if b < 10 {
            assert(b % 10 == b);
        }
    }
    assert(a % 10 == b % 10);
    lemma_decimal_len(a);
    lemma_decimal_len(b);
    if a < 10 {
        assert(s.len() == 1);
        if b >= 10 {
            lemma_decimal_len(b / 10);
            assert(t.len() == decimal_text(b / 10).len() + 1);
        }
    } else {
        lemma_decimal_len(a / 10);
        assert(s.len() == decimal_text(a / 10).len() + 1);
        if b < 10 {
            assert(t.len() == 1);
        } else {
            assert(s.drop_last() =~= decimal_text(a / 10));
            assert(t.drop_last() =~= decimal_text(b / 10));
            lemma_decimal_injective(a / 10, b / 10);
        }
    }
}

proof fn lemma_decimal_len(n: nat)
    ensures
        decimal_text(n).len() >= 1,
    decreases n,
{
    if n >= 10 {
        lemma_decimal_len(n / 10);
    }
}

/// Two requests that were dispatched under different counters have different
/// dispatch identifiers.
pub proof fn dispatch_ids_are_distinct(a: u64, b: u64)
    requires
        dispatch_id_text(a) == dispatch_id_text(b),
    ensures
        a == b,
{
    let prefix = "broker_"@;
    assert(decimal_text(a as nat) =~= dispatch_id_text(a).skip(prefix.len() as int));
    assert(decimal_text(b as nat) =~= dispatch_id_text(b).skip(prefix.len() as int));
    lemma_decimal_injective(a as nat, b as nat);
}

/// One request that a broker took in: the state before and after it and what
/// came of it.
pub ghost struct Intake {
    pub pre: BrokerState,
    pub post: BrokerState,
    pub request: RpcRequest,
    pub outcome: Result<Dispatch, RpcErrorResponse>,
}

/// Request `i` counts on where the one before it ended.
pub open spec fn counted_on(h: Seq<Intake>, i: int) -> bool {
    h[i].pre.next_dispatch_id == h[i - 1].post.next_dispatch_id
}

/// The requests that one broker took in, one after the other. Other operations
/// may run in between; they leave the counter alone.
pub open spec fn intakes(h: Seq<Intake>) -> bool {
    &&& forall|i: int|
        0 <= i < h.len() ==> BrokerState::dispatched(
            (#[trigger] h[i]).pre,
            h[i].post,
            h[i].request,
            h[i].outcome,
        )
    &&& forall|i: int| 0 < i < h.len() ==> #[trigger] counted_on(h, i)
}

proof fn counter_grows(h: Seq<Intake>, i: int, j: int)
    requires
        intakes(h),
        0 <= i <= j < h.len(),
        h[0].pre.next_dispatch_id + h.len() <= u64::MAX + 1,
    ensures
        h[0].pre.next_dispatch_id <= h[i].pre.next_dispatch_id,
        h[i].pre.next_dispatch_id <= h[j].pre.next_dispatch_id <= h[0].pre.next_dispatch_id + j,
        i < j && h[i].outcome is Ok ==> h[i].pre.next_dispatch_id < h[j].pre.next_dispatch_id,
    decreases j,
{
    if j > 0 {
        assert(counted_on(h, j));
        assert(BrokerState::dispatched(
            h[j - 1].pre,
            h[j - 1].post,
            h[j - 1].request,
            h[j - 1].outcome,
        ));
        if i < j {
            counter_grows(h, i, j - 1);
        } else {
            counter_grows(h, j - 1, j - 1);
        }
    }
}

/// Until its counter has gone through all its values, a broker gives no two
/// requests the same dispatch identifier.
pub proof fn dispatch_identifiers_are_not_reused(h: Seq<Intake>, i: int, j: int)
    requires
        intakes(h),
        h[0].pre.next_dispatch_id + h.len() <= u64::MAX + 1,
        0 <= i < j < h.len(),
        h[i].outcome is Ok,
        h[j].outcome is Ok,
    ensures
        h[i].outcome->Ok_0.dispatch_id@ != h[j].outcome->Ok_0.dispatch_id@,
        h[i].outcome->Ok_0.request@.id != h[j].outcome->Ok_0.request@.id,
{
    counter_grows(h, i, j);
    let a = h[i].pre.next_dispatch_id;
    let b = h[j].pre.next_dispatch_id;
    if dispatch_id_text(a) == dispatch_id_text(b) {
        dispatch_ids_are_distinct(a, b);
    }
}

/// Replies, lost connections, bindings and bootstraps leave the counter of
/// dispatches alone.
pub proof fn only_a_dispatch_counts(
    pre: BrokerState,
    post: BrokerState,
    message: BridgeInbound,
    delivery: Option<Delivery>,
    key: Seq<char>,
    connection_id: u64,
    reason: Seq<char>,
    deliveries: Seq<Delivery>,
    checking: CheckingHandshake,
    live: bool,
    bound: Result<BoundHandshake, RpcErrorResponse>,
    call: BootstrapCall,
    step: Step,
    event: BootstrapEvent,
    now: u64,
    epoch_ms: u64,
)
    requires
        BrokerState::delivered(pre, post, message, delivery) || BrokerState::disconnected(
            pre,
            post,
            key,
            connection_id,
            reason,
            deliveries,
        ) || BrokerState::bound(pre, post, checking, live, bound) || advanced(
            pre,
            post,
            call,
            step,
            event,
            now,
            epoch_ms,
        ),
    ensures
        post.next_dispatch_id == pre.next_dispatch_id,
{
}

// ---------------------------------------------------------------------------
// Paths

/// Path equality does not depend on the order of the paths.
pub proof fn path_equality_is_symmetric(a: Seq<char>, b: Seq<char>)
    ensures
        paths_equal(a, b) == paths_equal(b, a),
{
}

/// An absolute path equals itself.
pub proof fn path_equality_is_reflexive(a: Seq<char>)
    requires
        normal_path(a) is Some,
    ensures
        paths_equal(a, a),
{
}

proof fn lemma_fold_keeps_drive(a: Seq<char>, b: Seq<char>)
    requires
        lower_text(a) == lower_text(b),
        is_drive_path(a),
    ensures
        is_drive_path(b),
{
    assert(lower_text(a).len() == a.len());
    assert(lower_text(b).len() == b.len());
    assert(lower_text(a)[0] == lower_char(a[0]));
    assert(lower_text(b)[0] == lower_char(b[0]));
    assert(lower_text(a)[1] == lower_char(a[1]));
    assert(lower_text(b)[1] == lower_char(b[1]));
}

/// Two paths that equal a third equal each other.
pub proof fn path_equality_is_transitive(a: Seq<char>, b: Seq<char>, c: Seq<char>)
    requires
        paths_equal(a, b),
        paths_equal(b, c),
    ensures
        paths_equal(a, c),
{
    let x = normal_path(a)->0;
    let y = normal_path(b)->0;
    let z = normal_path(c)->0;
    if is_drive_path(x) || is_drive_path(y) {
        if is_drive_path(x) {
            lemma_fold_keeps_drive(x, y);
        }
        lemma_fold_keeps_drive(y, z);
    } else if is_drive_path(y) || is_drive_path(z) {
        if is_drive_path(z) {
            lemma_fold_keeps_drive(z, y);
        }
    }
}

/// A module that belongs to a plugin is not the plugin's directory itself.
pub proof fn module_is_not_its_plugin_root(module: Seq<char>, root: Seq<char>)
    requires
        module_in_plugin(module, root),
    ensures
        !paths_equal(module, root),
{
    let m = normal_path(module)->0;
    let r = normal_path(root)->0;
    assert(lower_text(m).len() == m.len());
    assert(lower_text(r).len() == r.len());
    assert(m.len() > r.len());
}

// ---------------------------------------------------------------------------
// Identities

/// An identity meets the expectation of itself, and of no other.
pub proof fn identity_meets_only_itself(
    actual: RuntimeIdentityAttestationModel,
    expected: RuntimeIdentityAttestationModel,
)
    ensures
        expectation_fault(actual, expected) is None <==> actual == expected,
{
}

/// The broker part of an identity has the shape that an expectation must have.
pub open spec fn broker_shape(broker: BrokerRuntimeIdentityModel) -> bool {
    &&& broker.pid > 0
    &&& crate::checks::bounded_start_identity(broker.process_start_identity)
    &&& normal_path(broker.executable_path) is Some
    &&& crate::checks::bounded_text(broker.runtime_version, 64)
    &&& crate::checks::names_instance(broker.instance_id)
}

/// Every identity that the broker gives out is one that it takes back as an
/// expectation.
pub proof fn given_identity_is_accepted(
    broker: BrokerRuntimeIdentityModel,
    session: BridgeSessionInfo,
    claim: Option<BridgeIdentityClaim>,
)
    requires
        broker_shape(broker),
        session.connected_at_epoch_ms > 0,
        session_identity(broker, session, claim) is Ok,
    ensures
        identity_shape(session_identity(broker, session, claim)->Ok_0),
{
    let c = claim->0;
    let fields = missing_fields(c, session.capabilities);
    assert(name_if(c.host.pid is None, "host.pid"@).len() <= fields.len());
    assert(host_claim_ok(c));
    assert(bridge_claim_ok(c));
    assert(module_claim_ok(c));
    assert(c.host.pid is Some);
    assert(c.host.process_start_identity is Some);
    assert(c.host.executable_path is Some);
    assert(c.host.host_version is Some);
    assert(c.host.profile_id is Some);
    assert(c.bridge.instance_id is Some);
    assert(c.bridge.installed_plugin_root is Some);
    assert(c.bridge.module_origin is Some);
}

/// A query that names a target selects at most one session.
pub proof fn exact_target_is_never_ambiguous(state: BrokerState, host: HostKind, target: Seq<char>)
    requires
        state.sessions_keyed(),
    ensures
        state.selected(host, Some(target)).finite(),
        state.selected(host, Some(target)).len() <= 1,
{
    let matching = state.selected(host, Some(target));
    let key = session_key_text(host, target);
    assert forall|k: Seq<char>| matching.contains(k) implies k == key by {
        assert(state.sessions@.dom().contains(k));
    }
    if matching.contains(key) {
        assert(matching =~= set![key]);
    } else {
        assert(matching =~= Set::empty());
    }
}

// ---------------------------------------------------------------------------
// Calls

/// A response to a dispatched request reaches its caller under the caller's
/// own identifier, and the call is then no longer in flight.
pub proof fn response_reaches_its_caller(
    before: BrokerState,
    dispatched: BrokerState,
    after: BrokerState,
    request: RpcRequest,
    dispatch: Dispatch,
    response: RpcResponse,
    delivery: Option<Delivery>,
)
    requires
        BrokerState::dispatched(before, dispatched, request, Ok(dispatch)),
        response.id@ == RequestIdModel::Text(dispatch.dispatch_id@),
        BrokerState::delivered(
            dispatched,
            after,
            BridgeInbound::Response { response },
            delivery,
        ),
    ensures
        delivery is Some,
        delivery->0.dispatch_id@ == dispatch.dispatch_id@,
        delivery->0.reply is Ok,
        delivery->0.reply->Ok_0@.id == request.id@,
        delivery->0.reply->Ok_0@.result == response@.result,
        after.pending@ == before.pending@.remove(dispatch.dispatch_id@),
{
    assert(after.pending@ =~= before.pending@.remove(dispatch.dispatch_id@));
}

/// A second response to the same request goes nowhere.
pub proof fn second_response_is_dropped(
    before: BrokerState,
    between: BrokerState,
    after: BrokerState,
    first: RpcResponse,
    second: RpcResponse,
    delivery: Option<Delivery>,
    again: Option<Delivery>,
)
    requires
        BrokerState::delivered(before, between, BridgeInbound::Response { response: first }, delivery),
        delivery is Some,
        second.id@ == first.id@,
        BrokerState::delivered(between, after, BridgeInbound::Response { response: second }, again),
    ensures
        again is None,
        after.pending@ == between.pending@,
{
}

/// Taking a connection down leaves a newer connection of the same session, and
/// the calls over it, alone.
pub proof fn old_connection_cannot_end_a_new_session(
    before: BrokerState,
    after: BrokerState,
    key: Seq<char>,
    old_connection: u64,
    message: Seq<char>,
    deliveries: Seq<Delivery>,
)
    requires
        BrokerState::disconnected(before, after, key, old_connection, message, deliveries),
        !before.is_current(key, old_connection),
    ensures
        after.sessions@ == before.sessions@,
        after.session_identities@ == before.session_identities@,
        after.bridge_senders@ == before.bridge_senders@,
        forall|id: Seq<char>| #[trigger]
            before.pending@.dom().contains(id) && before.pending@[id].connection_id
                != old_connection ==> after.pending@.dom().contains(id) && after.pending@[id]
                == before.pending@[id],
{
}

/// Once a connection is down, no call waits for it any more, and every call
/// that did was answered.
pub proof fn no_call_waits_for_a_lost_connection(
    before: BrokerState,
    after: BrokerState,
    key: Seq<char>,
    connection_id: u64,
    message: Seq<char>,
    deliveries: Seq<Delivery>,
)
    requires
        BrokerState::disconnected(before, after, key, connection_id, message, deliveries),
    ensures
        after.in_flight(key, connection_id) == Set::<Seq<char>>::empty(),
        forall|id: Seq<char>| #[trigger]
            before.pending@.dom().contains(id) ==> after.pending@.dom().contains(id) || exists|i:
                int|
                0 <= i < deliveries.len() && (#[trigger] deliveries[i]).dispatch_id@ == id,
{
    assert(after.in_flight(key, connection_id) =~= Set::<Seq<char>>::empty());
    assert forall|id: Seq<char>| #[trigger]
        before.pending@.dom().contains(id) && !after.pending@.dom().contains(
            id,
        ) implies before.in_flight(key, connection_id).contains(id) by {}
}

// ---------------------------------------------------------------------------
// Bootstraps

/// A bootstrap never succeeds at or after its deadline.
pub proof fn no_success_after_the_deadline(
    pre: BrokerState,
    post: BrokerState,
    call: BootstrapCall,
    r: Step,
    event: BootstrapEvent,
    now: u64,
    epoch_ms: u64,
)
    requires
        advanced(pre, post, call, r, event, now, epoch_ms),
        late(call.task, now),
    ensures
        !(r.1 is Finish && r.1->outcome is Ok),
{
}

/// A bootstrap that succeeds has stored its receipt, and an owner's grant is
/// gone at the same moment.
pub proof fn success_is_recorded(
    pre: BrokerState,
    post: BrokerState,
    call: BootstrapCall,
    r: Step,
    event: BootstrapEvent,
    now: u64,
    epoch_ms: u64,
)
    requires
        advanced(pre, post, call, r, event, now, epoch_ms),
        r.1 is Finish,
        r.1->outcome is Ok,
    ensures
        call.phase is Recording,
        post.bootstrap_receipts@.dom().contains(call.phase->receipt_id@),
        post.bootstrap_receipts@[call.phase->receipt_id@] == call.phase->receipt,
        r.1->outcome->Ok_0@ == call.phase->receipt.result@,
        call.phase->Recording_owner ==> !post.bootstrap_grants@.dom().contains(call.task.key@),
{
}

/// An outcome is told to followers only by the owner of their grant, and the
/// grant is gone when they hear of it.
pub proof fn followers_hear_of_their_own_grant(
    pre: BrokerState,
    post: BrokerState,
    call: BootstrapCall,
    r: Step,
    event: BootstrapEvent,
    now: u64,
    epoch_ms: u64,
)
    requires
        advanced(pre, post, call, r, event, now, epoch_ms),
        r.1 is Finish,
        r.1->publish is Some,
    ensures
        pre.bootstrap_grants@.dom().contains(call.task.key@),
        r.1->publish == Some(pre.bootstrap_grants@[call.task.key@].ticket),
        post.bootstrap_grants@ == pre.bootstrap_grants@.remove(call.task.key@),
{
}

/// A failure is told only when nothing is left to roll back: either the
/// rollback has just ended, or there was nothing prepared.
pub proof fn failure_is_told_after_the_rollback(
    pre: BrokerState,
    post: BrokerState,
    call: BootstrapCall,
    r: Step,
    event: BootstrapEvent,
    now: u64,
    epoch_ms: u64,
)
    requires
        advanced(pre, post, call, r, event, now, epoch_ms),
        r.1 is Finish,
        r.1->publish is Some,
        r.1->outcome is Err,
    ensures
        call.phase is RollingBack || pre.bootstrap_grants@[call.task.key@].prepared is None,
{
}

/// A request that differs from the bootstrap in progress for its target fails
/// and changes nothing.
pub proof fn conflicting_request_has_no_effect(
    pre: BrokerState,
    post: BrokerState,
    call: BootstrapCall,
    r: Step,
    event: BootstrapEvent,
    now: u64,
    epoch_ms: u64,
)
    requires
        advanced(pre, post, call, r, event, now, epoch_ms),
        (call.phase is Looking || call.phase is LookingAgain) && event is Resume || call.phase
            is Reserving && event is Nonce,
        pre.bootstrap_grants@.dom().contains(call.task.key@),
        pre.bootstrap_grants@[call.task.key@].request@ != call.task.request@,
    ensures
        post == pre,
        r.1 is Finish,
        r.1->publish is None,
        r.1->outcome is Err,
        r.1->outcome->Err_0@ == if late(call.task, now) {
            timeout_error(call.task.request@, "reservation"@)
        } else {
            conflict_error(call.task.request@)
        },
{
}

/// A request identical to the bootstrap in progress follows it and changes
/// nothing.
pub proof fn identical_request_follows_the_owner(
    pre: BrokerState,
    post: BrokerState,
    call: BootstrapCall,
    r: Step,
    event: BootstrapEvent,
    now: u64,
    epoch_ms: u64,
)
    requires
        advanced(pre, post, call, r, event, now, epoch_ms),
        (call.phase is Looking || call.phase is LookingAgain) && event is Resume || call.phase
            is Reserving && event is Nonce,
        pre.bootstrap_grants@.dom().contains(call.task.key@),
        pre.bootstrap_grants@[call.task.key@].request@ == call.task.request@,
        !late(call.task, now),
    ensures
        post == pre,
        r.1 == (BootstrapAction::Follow {
            ticket: pre.bootstrap_grants@[call.task.key@].ticket,
        }),
{
}

/// A bootstrap touches no session, no call in flight and no grant but its own.
pub proof fn bootstrap_keeps_to_its_target(
    pre: BrokerState,
    post: BrokerState,
    call: BootstrapCall,
    r: Step,
    event: BootstrapEvent,
    now: u64,
    epoch_ms: u64,
    other: Seq<char>,
)
    requires
        advanced(pre, post, call, r, event, now, epoch_ms),
        other != call.task.key@,
    ensures
        post.sessions == pre.sessions,
        post.session_identities == pre.session_identities,
        post.bridge_senders == pre.bridge_senders,
        post.pending == pre.pending,
        post.token == pre.token,
        post.bootstrap_grants@.dom().contains(other) == pre.bootstrap_grants@.dom().contains(other),
        pre.bootstrap_grants@.dom().contains(other) ==> post.bootstrap_grants@[other]
            == pre.bootstrap_grants@[other],
{
}

/// A bootstrap nonce binds one bridge: whoever presents it again is refused.
pub proof fn nonce_binds_once(
    before: BrokerState,
    between: BrokerState,
    after: BrokerState,
    first: CheckingHandshake,
    second: CheckingHandshake,
    live: bool,
    bound: BoundHandshake,
    again: Result<BoundHandshake, RpcErrorResponse>,
)
    requires
        BrokerState::bound(before, between, first, true, Ok(bound)),
        second.waiting.target@ == first.waiting.target@,
        second.waiting.nonce@ == first.waiting.nonce@,
        BrokerState::bound(between, after, second, live, again),
    ensures
        again is Err,
        binding_fault(second, live) is None ==> again->Err_0@ == nonce_error(
            ERROR_IDENTITY_STALE,
            "Photoshop bootstrap nonce was already consumed"@,
        ),
        after.bootstrap_grants@ == between.bootstrap_grants@,
{
}

/// A receipt can be verified while its identity is the connected one: the
/// query for it finds that identity.
pub proof fn receipt_finds_its_identity(state: BrokerState, receipt_id: Seq<char>)
    requires
        state.bootstrap_receipts@.dom().contains(receipt_id),
        identity_shape(state.bootstrap_receipts@[receipt_id].identity@),
        state.identity_answer(
            RuntimeIdentityQuery {
                expected: None,
                ..state.receipt_query(receipt_id)
            },
        ) == Ok::<RuntimeIdentityAttestationModel, crate::protocol::ErrorModel>(
            state.bootstrap_receipts@[receipt_id].identity@,
        ),
    ensures
        state.identity_answer(state.receipt_query(receipt_id)) == Ok::<
            RuntimeIdentityAttestationModel,
            crate::protocol::ErrorModel,
        >(state.bootstrap_receipts@[receipt_id].identity@),
{
}

/// A bootstrap that succeeds leaves a receipt that is valid until it expires
/// and that holds the very result.
pub proof fn recorded_receipt_is_valid(
    pre: BrokerState,
    post: BrokerState,
    call: BootstrapCall,
    r: Step,
    event: BootstrapEvent,
    now: u64,
    epoch_ms: u64,
    later: u64,
)
    requires
        advanced(pre, post, call, r, event, now, epoch_ms),
        r.1 is Finish,
        r.1->outcome is Ok,
        later <= call.phase->receipt.expires_at_epoch_ms,
    ensures
        post.receipt_valid(call.phase->receipt_id@, later),
        post.bootstrap_receipts@[call.phase->receipt_id@].result@ == r.1->outcome->Ok_0@,
{
}

/// The receipt of a bootstrap that succeeded is verified until it expires,
/// with the very result, while the bootstrapped identity is the connected one.
pub proof fn issued_receipt_is_verified(
    minting: BrokerState,
    minted: BrokerState,
    call: BootstrapCall,
    step: Step,
    receipt: u128,
    minted_at: u64,
    minted_epoch_ms: u64,
    recording: BrokerState,
    recorded: BrokerState,
    done: Step,
    recorded_at: u64,
    recorded_epoch_ms: u64,
    later: u64,
    verification: Result<Verification, RpcErrorResponse>,
)
    requires
        call.phase is Minting,
        identity_shape(call.phase->Minting_identity@),
        is_random_uuid(receipt),
        advanced(
            minting,
            minted,
            call,
            step,
            BootstrapEvent::ReceiptMinted(receipt),
            minted_at,
            minted_epoch_ms,
        ),
        step.1 is Resume,
        advanced(
            recording,
            recorded,
            step.0,
            done,
            BootstrapEvent::Resume,
            recorded_at,
            recorded_epoch_ms,
        ),
        done.1 is Finish,
        done.1->outcome is Ok,
        later <= minted_epoch_ms + RECEIPT_LIFETIME_MS,
        recorded.identity_answer(
            RuntimeIdentityQuery {
                host: HostKind::Photoshop,
                target: Some(call.phase->Minting_identity.bridge.target),
                expected: None,
            },
        ) == Ok::<RuntimeIdentityAttestationModel, crate::protocol::ErrorModel>(
            call.phase->Minting_identity@,
        ),
        recorded.verified(uuid_text(receipt), later, verification),
    ensures
        verification is Ok,
        verification->Ok_0.observed@ == claimed_process_model(call.phase->Minting_identity@),
        verification->Ok_0.result@ == done.1->outcome->Ok_0@,
{
    assert(is_random_uuid(receipt) ==> receipt != 0) by {
        assert((0u128 >> 76u128) & 0xf == 0) by (bit_vector);
    }
    assert(step.0.phase is Recording);
    let id = step.0.phase->receipt_id@;
    assert(id == uuid_text(receipt));
    receipt_finds_its_identity(recorded, id);
}

/// A receipt stays valid until it expires, whatever other bootstraps do.
pub proof fn receipts_outlive_other_bootstraps(
    pre: BrokerState,
    post: BrokerState,
    call: BootstrapCall,
    r: Step,
    event: BootstrapEvent,
    now: u64,
    epoch_ms: u64,
    receipt_id: Seq<char>,
)
    requires
        advanced(pre, post, call, r, event, now, epoch_ms),
        pre.receipt_valid(receipt_id, epoch_ms),
        call.phase is Recording ==> call.phase->receipt_id@ != receipt_id,
    ensures
        post.receipt_valid(receipt_id, epoch_ms),
        post.bootstrap_receipts@[receipt_id] == pre.bootstrap_receipts@[receipt_id],
{
}

/// Some object inside the value has a member of this name.
pub open spec fn mentions(v: JsonModel, name: Seq<char>) -> bool
    decreases v,
{
    match v {
        JsonModel::Object(members) => exists|i: int|
            0 <= i < members.len() && (members[i].name == name || mentions(
                #[trigger] members[i].value,
                name,
            )),
        JsonModel::List(items) => exists|i: int|
            0 <= i < items.len() && mentions(#[trigger] items[i], name),
        _ => false,
    }
}

/// A value without members of its own.
spec fn is_leaf(v: JsonModel) -> bool {
    v is Text || v is Number
}

proof fn lemma_flat(members: Seq<MemberModel>, name: Seq<char>)
    requires
        forall|i: int|
            0 <= i < members.len() ==> (#[trigger] members[i]).name != name && is_leaf(
                members[i].value,
            ),
    ensures
        !mentions(JsonModel::Object(members), name),
{
    if mentions(JsonModel::Object(members), name) {
        let i = choose|i: int|
            0 <= i < members.len() && (members[i].name == name || mentions(
                #[trigger] members[i].value,
                name,
            ));
        assert(is_leaf(members[i].value));
        assert(!mentions(members[i].value, name));
    }
}

/// The names under which paths and secrets would travel.
pub open spec fn is_private_name(name: Seq<char>) -> bool {
    ||| name == "executablePath"@
    ||| name == "installedPluginRoot"@
    ||| name == "moduleOrigin"@
    ||| name == "token"@
    ||| name == "bootstrapNonce"@
}

proof fn lemma_public_names(name: Seq<char>)
    requires
        is_private_name(name),
    ensures
        name != "bootstrapVersion"@,
        name != "status"@,
        name != "identityFingerprint"@,
        name != "broker"@,
        name != "host"@,
        name != "plugin"@,
        name != "continuation"@,
        name != "adapterContinuation"@,
        name != "pid"@,
        name != "processStartIdentity"@,
        name != "runtimeVersion"@,
        name != "instanceId"@,
        name != "executableSha256"@,
        name != "hostVersion"@,
        name != "profileId"@,
        name != "bridgeVersion"@,
        name != "moduleSha256"@,
        name != "method"@,
        name != "path"@,
        name != "receiptId"@,
        name != "timeoutMs"@,
        name != "kind"@,
        name != "argv"@,
        name != "target"@,
        name != "connectedAtEpochMs"@,
{
    reveal_strlit("executablePath");
    reveal_strlit("installedPluginRoot");
    reveal_strlit("moduleOrigin");
    reveal_strlit("token");
    reveal_strlit("bootstrapNonce");
    reveal_strlit("bootstrapVersion");
    reveal_strlit("status");
    reveal_strlit("identityFingerprint");
    reveal_strlit("broker");
    reveal_strlit("host");
    reveal_strlit("plugin");
    reveal_strlit("continuation");
    reveal_strlit("adapterContinuation");
    reveal_strlit("pid");
    reveal_strlit("processStartIdentity");
    reveal_strlit("runtimeVersion");
    reveal_strlit("instanceId");
    reveal_strlit("executableSha256");
    reveal_strlit("hostVersion");
    reveal_strlit("profileId");
    reveal_strlit("bridgeVersion");
    reveal_strlit("moduleSha256");
    reveal_strlit("method");
    reveal_strlit("path");
    reveal_strlit("receiptId");
    reveal_strlit("timeoutMs");
    reveal_strlit("kind");
    reveal_strlit("argv");
    reveal_strlit("target");
    reveal_strlit("connectedAtEpochMs");
    assert("target"@.len() == 6);
    assert("connectedAtEpochMs"@.len() == 18);
    assert("executablePath"@.len() == 14);
    assert("installedPluginRoot"@.len() == 19);
    assert("moduleOrigin"@.len() == 12);
    assert("token"@.len() == 5);
    assert("bootstrapNonce"@.len() == 14);
    assert("bootstrapVersion"@.len() == 16);
    assert("status"@.len() == 6);
    assert("identityFingerprint"@.len() == 19);
    assert("broker"@.len() == 6);
    assert("host"@.len() == 4);
    assert("plugin"@.len() == 6);
    assert("continuation"@.len() == 12);
    assert("adapterContinuation"@.len() == 19);
    assert("pid"@.len() == 3);
    assert("processStartIdentity"@.len() == 20);
    assert("runtimeVersion"@.len() == 14);
    assert("instanceId"@.len() == 10);
    assert("executableSha256"@.len() == 16);
    assert("hostVersion"@.len() == 11);
    assert("profileId"@.len() == 9);
    assert("bridgeVersion"@.len() == 13);
    assert("moduleSha256"@.len() == 12);
    assert("method"@.len() == 6);
    assert("path"@.len() == 4);
    assert("receiptId"@.len() == 9);
    assert("timeoutMs"@.len() == 9);
    assert("kind"@.len() == 4);
    assert("argv"@.len() == 4);
    assert("executablePath"@[0] != "runtimeVersion"@[0]);
    assert("installedPluginRoot"@[1] != "identityFingerprint"@[1]);
    assert("installedPluginRoot"@[0] != "adapterContinuation"@[0]);
    assert("moduleOrigin"@[0] != "continuation"@[0]);
    assert("moduleOrigin"@[6] != "moduleSha256"@[6]);
    assert("bootstrapNonce"@[0] != "runtimeVersion"@[0]);
}

/// A Photoshop bootstrap result has no member for a path, a token or a nonce.
pub proof fn photoshop_result_is_redacted(m: PhotoshopBootstrapResultModel, name: Seq<char>)
    requires
        is_private_name(name),
    ensures
        !mentions(m.json(), name),
{
    lemma_public_names(name);
    lemma_flat(m.broker.json()->Object_0, name);
    lemma_flat(m.host.json()->Object_0, name);
    lemma_flat(m.plugin.json()->Object_0, name);
    lemma_flat(m.continuation.json()->Object_0, name);
    if m.adapter_continuation is Some {
        lemma_adapter(m.adapter_continuation->0, name);
    }
    lemma_members(m.json()->Object_0, name);
}

proof fn lemma_adapter(m: BootstrapAdapterContinuationModel, name: Seq<char>)
    requires
        is_private_name(name),
    ensures
        !mentions(m.json(), name),
{
    lemma_public_names(name);
    let argv = texts_json(m.argv);
    if mentions(argv, name) {
        let i = choose|i: int|
            0 <= i < argv->List_0.len() && mentions(#[trigger] argv->List_0[i], name);
        assert(argv->List_0[i] is Text);
        assert(false);
    }
    lemma_members(m.json()->Object_0, name);
}

proof fn lemma_members(members: Seq<MemberModel>, name: Seq<char>)
    requires
        forall|i: int|
            0 <= i < members.len() ==> (#[trigger] members[i]).name != name && !mentions(
                members[i].value,
                name,
            ),
    ensures
        !mentions(JsonModel::Object(members), name),
{
    if mentions(JsonModel::Object(members), name) {
        let i = choose|i: int|
            0 <= i < members.len() && (members[i].name == name || mentions(
                #[trigger] members[i].value,
                name,
            ));
        assert(members[i].name != name);
    }
}

/// An Illustrator bootstrap result has no member for a path, a token or a nonce.
pub proof fn illustrator_result_is_redacted(m: IllustratorBootstrapResultModel, name: Seq<char>)
    requires
        is_private_name(name),
    ensures
        !mentions(m.json(), name),
{
    lemma_public_names(name);
    lemma_flat(m.broker.json()->Object_0, name);
    lemma_flat(m.host.json()->Object_0, name);
    lemma_flat(m.plugin.json()->Object_0, name);
    lemma_flat(m.continuation.json()->Object_0, name);
    lemma_adapter(m.adapter_continuation, name);
    lemma_members(m.json()->Object_0, name);
}

// ---------------------------------------------------------------------------
// Configuration transactions

/// An owner is quiescent exactly when nothing on record keeps a new lease out.
pub proof fn quiescent_owner_takes_a_lease(
    owner: OwnerModel,
    destination: Seq<char>,
    expected: FileReceiptModel,
)
    ensures
        owner.quiescent() <==> !lease_busy(owner.active) && !lease_busy(owner.pending),
        owner.quiescent() ==> owner.reserve_fault(destination, expected) != Some(
            ConfigTransactionError::Busy,
        ),
        !owner.quiescent() && destination == expected.path && owner.next_generation < u64::MAX
            ==> owner.reserve_fault(destination, expected) == Some(ConfigTransactionError::Busy),
{
}

/// At most one lease is alive.
pub proof fn one_lease_is_alive(
    owner: OwnerModel,
    a: ConfigTransactionIdentity,
    b: ConfigTransactionIdentity,
)
    requires
        owner.exclusive(),
        owner.alive(a),
        owner.alive(b),
    ensures
        a == b,
{
}

/// While a lease is alive and unpublished, no other lease can be reserved.
pub proof fn living_lease_keeps_others_out(
    owner: OwnerModel,
    id: ConfigTransactionIdentity,
    destination: Seq<char>,
    expected: FileReceiptModel,
)
    requires
        owner.alive(id),
        is_lease(owner.active, id) ==> owner.active->0.phase != ConfigPhase::Published,
        is_lease(owner.pending, id) ==> owner.pending->0.phase != ConfigPhase::Published,
    ensures
        owner.reserve_fault(destination, expected) is Some,
{
}

/// The generations of leases grow: a lease that begins later has a higher one.
pub proof fn generations_grow(
    owner: OwnerModel,
    id: ConfigTransactionIdentity,
    expected: FileReceiptModel,
    captured: Option<FileReceiptModel>,
)
    requires
        owner.begin_fault(id, expected, captured) is None,
    ensures
        id.generation > owner.next_generation,
        id.generation == owner.next_generation + 1,
{
}

/// A file that was staged for another transaction is never activated.
pub proof fn foreign_staging_is_stale(
    owner: OwnerModel,
    id: ConfigTransactionIdentity,
    staged: StagedModel,
    captured: Option<FileReceiptModel>,
)
    requires
        staged.transaction != id,
    ensures
        owner.activate_fault(id, staged, captured) == Some(ConfigTransactionError::Stale),
{
}

/// A rollback writes or removes only a file that was just found, and only one
/// that the lease wrote or was writing; whatever else is found there is left
/// alone.
pub proof fn rollback_undoes_only_its_own(plan: RollbackModel, captured: FileReceiptModel)
    ensures
        match plan.decision(Some(captured)) {
            Ok(RestoreModel::Write { over, bytes }) => {
                &&& over == captured
                &&& plan.expected.bytes == Some(bytes)
                &&& plan.written == Some(captured) || (plan.written is None && captured.bytes
                    == plan.attempted && captured.identity == plan.expected.identity)
            },
            Ok(RestoreModel::Remove { over }) => {
                &&& over == captured
                &&& plan.expected.bytes is None
                &&& plan.written == Some(captured) || (plan.written is None && captured.bytes
                    == plan.attempted && captured.identity == plan.expected.identity)
            },
            Ok(RestoreModel::Nothing) => plan.written is None && (plan.attempted is None || captured
                == plan.expected),
            Err(e) => e == ConfigTransactionError::IdentityChanged && captured != plan.expected
                || plan.written is Some,
        },
{
}

/// A file that someone else has changed after the lease wrote it is not
/// overwritten by a rollback.
pub proof fn rollback_respects_foreign_edits(plan: RollbackModel, captured: FileReceiptModel)
    requires
        plan.written is Some,
        plan.written->0 != captured,
    ensures
        plan.decision(Some(captured)) == Err::<RestoreModel, ConfigTransactionError>(
            ConfigTransactionError::IdentityChanged,
        ),
{
}

/// A lease that is rolled back right after it began leaves the owner as if it
/// had never been.
pub proof fn rollback_after_begin_leaves_no_trace(
    owner: OwnerModel,
    id: ConfigTransactionIdentity,
    destination: Seq<char>,
    expected: FileReceiptModel,
)
    requires
        owner.active == Some(fresh_lease(id, destination, expected)),
        owner.pending is None,
    ensures
        owner.rollback_fault(id) is None,
        ({
            let plan = RollbackModel {
                pending: false,
                destination,
                expected,
                attempted: None,
                written: None,
            };
            let rolling = owner.with_rollback_record(
                false,
                Some(
                    LeaseModel {
                        phase: ConfigPhase::RollingBack,
                        ..fresh_lease(id, destination, expected)
                    },
                ),
            );
            &&& plan.decision(Some(expected)) == Ok::<RestoreModel, ConfigTransactionError>(
                RestoreModel::Nothing,
            )
            &&& rolling.rolled_back_fault(id, plan, true) is None
            &&& rolling.with_rollback_record(false, None).quiescent()
        }),
{
}

/// A published transaction has come to rest: it cannot be rolled back or
/// published again, and it keeps no other lease out.
pub proof fn published_transaction_is_at_rest(owner: OwnerModel, id: ConfigTransactionIdentity)
    requires
        owner.exclusive(),
        owner.pending is Some,
        owner.pending->0.identity == id,
        owner.pending->0.phase == ConfigPhase::Published,
        !owner.pending->0.valid,
    ensures
        owner.quiescent(),
        owner.rollback_fault(id) == Some(ConfigTransactionError::Stale),
        !owner.publishable(id),
        !owner.alive(id),
{
}

/// A lease that is abandoned after it set out to change the file keeps every
/// other lease out for good; one that had not is forgotten.
pub proof fn abandoned_lease_fails_stop(
    owner: OwnerModel,
    id: ConfigTransactionIdentity,
    destination: Seq<char>,
    expected: FileReceiptModel,
)
    requires
        owner.exclusive(),
        is_lease(owner.active, id),
        owner.active->0.phase != ConfigPhase::Published,
    ensures
        owner.active->0.attempted is None && owner.active->0.written is None ==> owner.abandoned(
            id,
        ).quiescent(),
        owner.active->0.attempted is Some || owner.active->0.written is Some ==> owner.abandoned(
            id,
        ).reserve_fault(destination, expected) is Some,
        !owner.abandoned(id).alive(id),
{
}

/// What a lease confirms is what it wrote and what was found in the file.
pub proof fn confirmed_file_is_the_written_one(
    owner: OwnerModel,
    id: ConfigTransactionIdentity,
    destination: Seq<char>,
    expected: FileReceiptModel,
    captured: Option<FileReceiptModel>,
)
    requires
        owner.confirmed_fault(id, destination, expected, captured) is None,
    ensures
        captured == Some(expected),
        owner.active->0.written == captured,
        owner.active->0.phase == ConfigPhase::Confirming,
{
}

/// What a lease enters as written is the receipt of exactly what it set out to
/// write, at its own destination.
pub proof fn written_receipt_is_that_of_the_write(
    owner: OwnerModel,
    id: ConfigTransactionIdentity,
    write: WriteModel,
    commit: bool,
    written: FileReceiptModel,
)
    requires
        owner.complete_fault(id, write, commit, Some(written)) is None,
    ensures
        is_lease(owner.active, id),
        written.path == owner.active->0.destination,
        written.bytes == owner.active->0.attempted,
        written.bytes == Some(write.bytes),
{
}

/// The receipt of a prepared confirmation is what was found in the file at
/// that moment and what the lease wrote last, and the lease can still roll
/// back.
pub proof fn prepared_confirmation_is_of_the_file_found(
    owner: OwnerModel,
    id: ConfigTransactionIdentity,
    expected: FileReceiptModel,
    captured: Option<FileReceiptModel>,
)
    requires
        owner.confirmation_fault(id, expected, captured) is None,
    ensures
        captured == Some(expected),
        owner.active->0.written == captured,
        owner.exclusive() ==> owner.rollback_fault(id) is None,
{
}

/// What a helper stages for a transaction is an artifact of that transaction:
/// the identifiers survive the way to the helper and back.
pub proof fn staged_file_belongs_to_its_transaction(
    transaction: ConfigTransactionIdentity,
    staging_id: u128,
    request: HelperRequest,
    place: StagingPlace,
    response: HelperResponse,
)
    requires
        request is Stage,
        request->generation == transaction.generation,
        uuid_value(request->transaction_id@) == Some(transaction.transaction_id),
        uuid_value(request->staging_id@) == Some(staging_id),
        uuid_value(place.transaction_id@) == uuid_value(request->transaction_id@),
        uuid_value(place.staging_id@) == uuid_value(request->staging_id@),
        response is Staged,
        response->generation == request->generation,
        response->transaction_id == place.transaction_id,
        response->staging_id == place.staging_id,
    ensures
        staged_model(response) is Some,
        staged_model(response)->0.transaction == transaction,
        staged_model(response)->0.staging_id == staging_id,
{
}

// ---------------------------------------------------------------------------
// Helper frames

proof fn lemma_newline_split(a: Seq<u8>, b: Seq<u8>)
    requires
        newline_at(a) == a.len(),
    ensures
        newline_at(a + b) == a.len() + newline_at(b),
        newline_at(b) <= b.len(),
    decreases a.len(),
{
    lemma_newline_bound(b);
    if a.len() == 0 {
        assert(a + b =~= b);
    } else {
        assert(a[0] != 10);
        assert((a + b)[0] == a[0]);
        assert((a + b).skip(1) =~= a.skip(1) + b);
        lemma_newline_bound(a.skip(1));
        lemma_newline_split(a.skip(1), b);
    }
}

proof fn lemma_newline_bound(a: Seq<u8>)
    ensures
        newline_at(a) <= a.len(),
    decreases a.len(),
{
    if a.len() > 0 && a[0] != 10 {
        lemma_newline_bound(a.skip(1));
    }
}

/// A complete frame never exceeds its bound.
pub proof fn frames_are_bounded(kind: FrameKind, read: Seq<u8>, chunk: Seq<u8>, maximum: nat)
    ensures
        frame_step(kind, read, chunk, maximum) matches FrameModel::Complete { frame, consumed }
            ==> frame.len() <= maximum && consumed <= chunk.len(),
{
    lemma_newline_bound(chunk);
}

/// How a stream is cut into chunks makes no difference: two chunks, the first
/// without a newline, do what both together do.
pub proof fn chunks_make_no_difference(
    kind: FrameKind,
    read: Seq<u8>,
    first: Seq<u8>,
    second: Seq<u8>,
    maximum: nat,
)
    requires
        newline_at(first) == first.len(),
    ensures
        match frame_step(kind, read, first, maximum) {
            FrameModel::TooLong => frame_step(kind, read, first + second, maximum)
                is TooLong,
            FrameModel::More { frame } => match frame_step(kind, frame, second, maximum) {
                FrameModel::TooLong => frame_step(kind, read, first + second, maximum) is TooLong,
                FrameModel::More { frame: whole } => frame_step(kind, read, first + second, maximum)
                    == (FrameModel::More { frame: whole }),
                FrameModel::Complete { frame: whole, consumed } => frame_step(
                    kind,
                    read,
                    first + second,
                    maximum,
                ) == (FrameModel::Complete { frame: whole, consumed: first.len() + consumed }),
            },
            FrameModel::Complete { .. } => false,
        },
{
    lemma_newline_split(first, second);
    let end = newline_at(second);
    assert(first.take(first.len() as int) =~= first);
    assert((first + second).take((first.len() + end) as int) =~= first + second.take(end as int));
    assert(read + (first + second.take(end as int)) =~= (read + first) + second.take(end as int));
}

// ---------------------------------------------------------------------------
// The helper pool

/// No more jobs run than there are helpers, and no more are admitted than fit.
pub proof fn pool_keeps_its_bounds(pool: HelperProcessPool)
    requires
        pool.wf(),
    ensures
        pool.running <= pool.capacity,
        pool.maximum_running <= pool.capacity,
        pool.queued + pool.running <= pool.admission_capacity,
        pool.maximum_active <= pool.admission_capacity,
        pool.owned_children <= pool.capacity,
{
}

/// A pool that has a process tree it could not kill never comes to rest and
/// takes no further job.
pub proof fn leaked_helper_fails_stop(pool: HelperProcessPool)
    requires
        pool.wf(),
        pool.leaked > 0,
    ensures
        !pool.quiescent(),
        pool.admission_fault() is Some,
{
}

/// A pool at rest has no job and no helper process, not even one it gave up
/// waiting for.
pub proof fn quiescent_pool_is_empty(pool: HelperProcessPool)
    requires
        pool.wf(),
        pool.quiescent(),
    ensures
        pool.idle == 0,
        pool.stranded == 0,
        pool.leaked == 0,
        pool.admission == pool.admission_capacity,
        pool.workers == pool.capacity,
{
}

/// A wait for the pool to come to rest ends well only when nothing is left,
/// and badly only when its time is up.
pub proof fn rest_is_told_truly(pool: HelperProcessPool, expired: bool)
    ensures
        pool.rest_answer(expired) == Some(true) ==> {
            &&& pool.active == 0
            &&& pool.queued == 0
            &&& pool.running == 0
            &&& pool.preparing == 0
            &&& pool.spawning == 0
            &&& pool.owned_children == 0
            &&& pool.reaping == 0
        },
        pool.rest_answer(expired) == Some(false) ==> expired,
        expired ==> pool.rest_answer(expired) is Some,
{
}

/// Once a pool has been closed, no job is admitted at any later time.
pub proof fn closed_pool_takes_no_job(pool: HelperProcessPool, later: HelperProcessPool)
    requires
        pool.closed,
        pool.stays_closed(later),
    ensures
        later.admission_fault() == Some(HelperPoolError::ShuttingDown),
{
}

/// A host process leaves the account only by being reaped. Whatever else comes
/// of its termination is an error, and the process stays counted.
pub proof fn only_a_reaped_host_leaves_the_account(
    pre: HostProcessBroker,
    post: HostProcessBroker,
    process: OwnedHostProcess,
    outcome: Termination,
    r: (Result<QuiescenceAck, HostProcessError>, Remainder),
)
    requires
        pre.active > 0,
        terminated(pre, post, process, outcome, r),
    ensures
        r.0 is Ok ==> outcome == Termination::Reaped && post.active == pre.active - 1
            && r.0->Ok_0.generation == process.identity.pid,
        r.0 is Err ==> post == pre && post.active > 0,
{
}

/// Host processes that were started under different ownership identifiers
/// answer only to their own identity, even where they have the same number.
pub proof fn host_ownership_is_not_redirected(
    a_pre: HostProcessBroker,
    a_post: HostProcessBroker,
    a_pid: u32,
    a_id: u128,
    a: OwnedHostProcess,
    b_pre: HostProcessBroker,
    b_post: HostProcessBroker,
    b_pid: u32,
    b_id: u128,
    b: OwnedHostProcess,
)
    requires
        spawned(a_pre, a_post, Some(a_pid), a_id, Ok(a)),
        spawned(b_pre, b_post, Some(b_pid), b_id, Ok(b)),
        a_id != b_id,
    ensures
        a.answers_to(a.identity),
        b.answers_to(b.identity),
        !a.answers_to(b.identity),
        !b.answers_to(a.identity),
{
}

/// A number reads back from its decimal text.
pub proof fn decimal_reads_back(n: u64)
    ensures
        unsigned_value(decimal_text(n as nat)) == Some(n),
{
    lemma_decimal_reads_back(n as nat);
    let s = decimal_text(n as nat);
    assert(is_digit_char(s[0]));
    assert(unsigned_digits(s) == s);
}

proof fn lemma_decimal_reads_back(n: nat)
    ensures
        decimal_text(n).len() > 0,
        forall|i: int|
            0 <= i < decimal_text(n).len() ==> is_digit_char(#[trigger] decimal_text(n)[i]),
        digits_value(decimal_text(n)) == n,
    decreases n,
{
    let s = decimal_text(n);
    if n < 10 {
        assert(s.drop_last() =~= Seq::<char>::empty());
        assert(digits_value(Seq::<char>::empty()) == 0);
        assert(s.last() == digit_char(n));
    } else {
        lemma_decimal_reads_back(n / 10);
        assert(s.drop_last() =~= decimal_text(n / 10));
        assert(s.last() == digit_char(n % 10));
    }
}

} // verus!
