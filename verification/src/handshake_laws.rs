//! How a bridge gets its session, said of the greeting it sends.
use vstd::prelude::*;

use crate::bootstrap::BootstrapGrant;
use crate::broker::BrokerState;
use crate::broker_laws::named_target;
use crate::checks::paths_equal;
use crate::handshake::{
    BindingPoll, BoundHandshake, CheckingHandshake, Opening, Registration, WaitingHandshake,
};
use crate::identity::claim_fault;
use crate::json::{JsonModel, MemberModel};
use crate::protocol::{session_key_text, BridgeKind, ErrorModel, HostKind, RpcErrorResponse};
use crate::runtime::BridgeInbound;

verus! {

/// The error answers no request, has the code and the sentence, and names one
/// field.
pub open spec fn blames_field(
    e: ErrorModel,
    code: int,
    message: Seq<char>,
    field: Seq<char>,
) -> bool {
    &&& e.jsonrpc == "2.0"@
    &&& e.id is None
    &&& e.code == code
    &&& e.message == message
    &&& e.data == Some(
        JsonModel::Object(seq![MemberModel { name: "field"@, value: JsonModel::Text(field) }]),
    )
    &&& e.diagnostics is None
}

/// A bootstrap is in progress for the Photoshop target that the greeting
/// names.
pub open spec fn awaited_there(state: BrokerState, target: Option<String>) -> bool {
    state.bootstrap_grants@.dom().contains("photoshop:"@ + named_target(target))
}

proof fn photoshop_key(target: Seq<char>)
    ensures
        session_key_text(HostKind::Photoshop, target) == "photoshop:"@ + target,
{
    reveal_strlit("photoshop:");
    reveal_strlit("photoshop");
    assert("photoshop"@ + seq![':'] + target =~= "photoshop:"@ + target);
}

/// A greeting with the right token from a bridge of the expected host, without
/// a nonce, is bound under the target that it names, or the default one,
/// whatever the host; only a Photoshop bridge whose target a bootstrap in
/// progress awaits is not. It is bound with the capabilities and the identity
/// that it presents.
pub proof fn welcome_greeting_is_bound(
    state: BrokerState,
    expected_host: HostKind,
    message: BridgeInbound,
    r: Opening,
)
    requires
        state.opened(expected_host, message, r),
    ensures
        r is Bound <==> {
            &&& message is Hello
            &&& state.token@.len() == 0 || message->token@ == state.token@
            &&& message->capabilities.host == expected_host
            &&& message->bootstrap_nonce is None
            &&& expected_host == HostKind::Photoshop ==> !awaited_there(state, message->target)
        },
        r is Bound ==> {
            &&& r->Bound_0.target@ == named_target(message->target)
            &&& r->Bound_0.capabilities == message->capabilities
            &&& r->Bound_0.identity == message->identity
        },
{
    if message is Hello {
        photoshop_key(named_target(message->target));
    }
}

/// A greeting waits for its binding exactly if it has the right token, comes
/// from a Photoshop bridge where one is expected, presents a nonce, and a
/// bootstrap is in progress for its target. Nothing that it presents is lost.
pub proof fn nonce_waits_for_its_bootstrap(
    state: BrokerState,
    expected_host: HostKind,
    message: BridgeInbound,
    r: Opening,
)
    requires
        state.opened(expected_host, message, r),
    ensures
        r is Waiting <==> {
            &&& message is Hello
            &&& state.token@.len() == 0 || message->token@ == state.token@
            &&& expected_host == HostKind::Photoshop
            &&& message->capabilities.host == HostKind::Photoshop
            &&& message->bootstrap_nonce is Some
            &&& awaited_there(state, message->target)
        },
        r is Waiting ==> {
            &&& r->Waiting_0.target@ == named_target(message->target)
            &&& r->Waiting_0.capabilities == message->capabilities
            &&& r->Waiting_0.identity == message->identity
            &&& r->Waiting_0.nonce == message->bootstrap_nonce->0
        },
{
    if message is Hello {
        photoshop_key(named_target(message->target));
    }
}

/// A first message that is no greeting is ignored; a greeting never is. A
/// refused greeting is told the first of these that holds: its token is wrong,
/// its host is not the expected one, its nonce has no place with another host,
/// its nonce stands for no bootstrap, or its nonce is missing.
pub proof fn refused_greeting_is_told_why(
    state: BrokerState,
    expected_host: HostKind,
    message: BridgeInbound,
    r: Opening,
)
    requires
        state.opened(expected_host, message, r),
    ensures
        r is Ignored <==> !(message is Hello),
        r is Refused ==> {
            let e = r->Refused_0@;
            let host = message->capabilities.host;
            let nonce = message->bootstrap_nonce;
            if state.token@.len() > 0 && message->token@ != state.token@ {
                &&& e.code == -32009
                &&& e.message == "invalid bridge token"@
                &&& e.jsonrpc == "2.0"@
                &&& e.id is None
                &&& e.data is None
                &&& e.diagnostics is None
            } else if host != expected_host {
                &&& e.code == -32600
                &&& e.message == "bridge host mismatch"@
                &&& e.jsonrpc == "2.0"@
                &&& e.id is None
                &&& e.data is None
                &&& e.diagnostics is None
            } else if host != HostKind::Photoshop {
                nonce is Some && blames_field(
                    e,
                    -32013,
                    "Photoshop bootstrap nonce was presented by a foreign host"@,
                    "host"@,
                )
            } else if !awaited_there(state, message->target) {
                nonce is Some && blames_field(
                    e,
                    -32011,
                    "Photoshop bootstrap nonce is stale"@,
                    "bootstrapNonce"@,
                )
            } else {
                nonce is None && blames_field(
                    e,
                    -32013,
                    "Photoshop bootstrap connection omitted its one-time binding"@,
                    "bootstrapNonce"@,
                )
            }
        },
{
    if message is Hello {
        photoshop_key(named_target(message->target));
    }
}

/// A waiting bridge is checked exactly if the bootstrap of its target has its
/// nonce and has seen its host; it is then checked against that bootstrap's
/// request and that process. Otherwise it waits, for two seconds at most.
pub proof fn waiting_bridge_meets_its_bootstrap(
    state: BrokerState,
    waiting: WaitingHandshake,
    elapsed_ms: u64,
    r: BindingPoll,
)
    requires
        state.polled(waiting, elapsed_ms, r),
    ensures
        ({
            let key = "photoshop:"@ + waiting.target@;
            let grant = state.bootstrap_grants@[key];
            let ready = state.bootstrap_grants@.dom().contains(key) && grant.nonce@ == waiting.nonce@
                && grant.observed is Some;
            &&& r is Check <==> ready
            &&& r is Check ==> {
                &&& r->Check_0.waiting == waiting
                &&& r->Check_0.request == grant.request
                &&& Some(r->Check_0.observed) == grant.observed
            }
            &&& r is Wait <==> !ready && elapsed_ms < 2_000
            &&& r is Wait ==> r->Wait_0 == waiting
            &&& r is Refused ==> blames_field(
                r->Refused_0@,
                -32011,
                "Photoshop bootstrap binding is stale or incomplete"@,
                "bootstrapNonce"@,
            )
        }),
{
    photoshop_key(waiting.target@);
}

/// The bridge and its host are the ones that the bootstrap is for: what it
/// says of the host process agrees with the process that was seen, and
/// profile, plugin, module, kind and versions are the requested ones.
pub open spec fn is_the_awaited(checking: CheckingHandshake) -> bool {
    let claim = checking.waiting.identity->0;
    let capabilities = checking.waiting.capabilities;
    let request = checking.request;
    let seen = checking.observed;
    &&& claim.host.pid is Some ==> claim.host.pid->0 == seen.pid
    &&& claim.host.process_start_identity is Some ==> claim.host.process_start_identity->0@
        == seen.process_start_identity@
    &&& claim.host.executable_path is Some ==> paths_equal(
        claim.host.executable_path->0@,
        seen.executable_path@,
    )
    &&& claim.host.profile_id is Some
    &&& claim.host.profile_id->0@ == request.host.profile_id@
    &&& claim.bridge.installed_plugin_root is Some
    &&& paths_equal(
        claim.bridge.installed_plugin_root->0@,
        request.plugin.installed_plugin_root@,
    )
    &&& claim.bridge.module_origin is Some
    &&& paths_equal(claim.bridge.module_origin->0@, request.plugin.module_origin@)
    &&& capabilities.bridge_kind == BridgeKind::Uxp
    &&& capabilities.bridge_version@ == request.plugin.bridge_version@
    &&& capabilities.host_version is Some
    &&& capabilities.host_version->0@ == request.host.host_version@
}

/// A bridge is bound exactly if its host process is still alive, it presents
/// an identity, it is the awaited one, and the nonce of the bootstrap of its
/// target is its own and unused. It is bound under its target and with its
/// capabilities; of the host it then says what the system showed, of the
/// bridge what it said itself. The nonce is used up, and nothing else changes.
pub proof fn bound_bridge_is_the_awaited_one(
    pre: BrokerState,
    post: BrokerState,
    checking: CheckingHandshake,
    process_live: bool,
    r: Result<BoundHandshake, RpcErrorResponse>,
    other: Seq<char>,
)
    requires
        BrokerState::bound(pre, post, checking, process_live, r),
    ensures
        ({
            let waiting = checking.waiting;
            let key = "photoshop:"@ + waiting.target@;
            let grant = pre.bootstrap_grants@[key];
            &&& r is Ok <==> {
                &&& process_live
                &&& waiting.identity is Some
                &&& is_the_awaited(checking)
                &&& pre.bootstrap_grants@.dom().contains(key)
                &&& grant.nonce@ == waiting.nonce@
                &&& !grant.nonce_claimed
            }
            &&& r is Ok ==> {
                let bound = r->Ok_0;
                let claim = waiting.identity->0;
                &&& bound.target == waiting.target
                &&& bound.capabilities == waiting.capabilities
                &&& bound.identity is Some
                &&& bound.identity->0.host.pid == Some(checking.observed.pid)
                &&& bound.identity->0.host.process_start_identity == Some(
                    checking.observed.process_start_identity,
                )
                &&& bound.identity->0.host.executable_path == Some(
                    checking.observed.executable_path,
                )
                &&& bound.identity->0.host.host_version == Some(checking.request.host.host_version)
                &&& bound.identity->0.host.profile_id == claim.host.profile_id
                &&& bound.identity->0.bridge == claim.bridge
                &&& post.bootstrap_grants@.dom().contains(key)
                &&& post.bootstrap_grants@[key].nonce_claimed
                &&& post.bootstrap_grants@[key] == (BootstrapGrant { nonce_claimed: true, ..grant })
                &&& other != key ==> {
                    &&& post.bootstrap_grants@.dom().contains(other)
                        == pre.bootstrap_grants@.dom().contains(other)
                    &&& pre.bootstrap_grants@.dom().contains(other)
                        ==> post.bootstrap_grants@[other] == pre.bootstrap_grants@[other]
                }
            }
            &&& r is Err ==> post.bootstrap_grants@ == pre.bootstrap_grants@
            &&& post.sessions == pre.sessions
            &&& post.bridge_senders == pre.bridge_senders
            &&& post.pending == pre.pending
        }),
{
    photoshop_key(checking.waiting.target@);
}

/// The error says that one field is missing.
pub open spec fn misses_field(e: ErrorModel, message: Seq<char>, field: Seq<char>) -> bool {
    &&& e.jsonrpc == "2.0"@
    &&& e.id is None
    &&& e.code == -32010
    &&& e.message == message
    &&& e.data == Some(
        JsonModel::Object(
            seq![
                MemberModel {
                    name: "missingFields"@,
                    value: JsonModel::List(seq![JsonModel::Text(field)]),
                },
            ],
        ),
    )
    &&& e.diagnostics is None
}

/// A bridge that is not bound is told the first thing that was wrong.
pub proof fn unbound_bridge_is_told_why(
    pre: BrokerState,
    post: BrokerState,
    checking: CheckingHandshake,
    process_live: bool,
    r: Result<BoundHandshake, RpcErrorResponse>,
)
    requires
        BrokerState::bound(pre, post, checking, process_live, r),
        r is Err,
    ensures
        ({
            let e = r->Err_0@;
            if !process_live {
                blames_field(
                    e,
                    -32011,
                    "selected Photoshop process identity changed before bridge connection"@,
                    "host.processStartIdentity"@,
                )
            } else if checking.waiting.identity is None {
                misses_field(
                    e,
                    "Photoshop UXP bridge omitted its plugin identity"@,
                    "identity.bridge"@,
                )
            } else if checking.waiting.identity->0.host.profile_id is None {
                misses_field(
                    e,
                    "Photoshop bootstrap connection omitted its host profile identity"@,
                    "identity.host.profileId"@,
                )
            } else if !is_the_awaited(checking) {
                blames_field(
                    e,
                    -32013,
                    "Photoshop bootstrap connection is foreign or mismatched"@,
                    "runtimeIdentity"@,
                )
            } else {
                blames_field(
                    e,
                    -32011,
                    "Photoshop bootstrap nonce was already consumed"@,
                    "bootstrapNonce"@,
                )
            }
        }),
{
    assert(seq!["identity.bridge"@].map_values(|t: Seq<char>| JsonModel::Text(t)) =~= seq![
        JsonModel::Text("identity.bridge"@),
    ]);
    assert(seq!["identity.host.profileId"@].map_values(|t: Seq<char>| JsonModel::Text(t)) =~= seq![
        JsonModel::Text("identity.host.profileId"@),
    ]);
}

/// A bridge with a sound claim is registered, and only such a one: under the
/// key of its host and target, as the session's current connection, with the
/// number that is next, with its capabilities, its time and the claim it came
/// with, or none. No other session is touched. A bridge that is refused
/// changes nothing.
pub proof fn registered_bridge_has_its_session(
    pre: BrokerState,
    post: BrokerState,
    bound: BoundHandshake,
    epoch_ms: u128,
    r: Result<Registration, RpcErrorResponse>,
    other: Seq<char>,
)
    requires
        BrokerState::registered(pre, post, bound, epoch_ms, r),
    ensures
        r is Ok <==> claim_fault(bound.target@, bound.capabilities, bound.identity) is None,
        r is Err ==> post == pre && claim_fault(bound.target@, bound.capabilities, bound.identity)
            == Some(r->Err_0@),
        r is Ok ==> {
            let key = bound.capabilities.host.name() + ":"@ + bound.target@;
            let n = pre.next_connection_id;
            let session = post.sessions@[key];
            &&& r->Ok_0.key@ == key
            &&& r->Ok_0.connection_id == n
            &&& post.next_connection_id == if n == u64::MAX {
                0
            } else {
                n + 1
            }
            &&& post.sessions@.dom().contains(key)
            &&& session.target == bound.target
            &&& session.capabilities == bound.capabilities
            &&& session.connected_at_epoch_ms == epoch_ms
            &&& post.bridge_senders@.dom().contains(key)
            &&& post.bridge_senders@[key] == n
            &&& post.session_identities@.dom().contains(key) <==> bound.identity is Some
            &&& bound.identity is Some ==> post.session_identities@[key] == bound.identity->0
            &&& other != key ==> {
                &&& post.sessions@.dom().contains(other) == pre.sessions@.dom().contains(other)
                &&& pre.sessions@.dom().contains(other) ==> post.sessions@[other]
                    == pre.sessions@[other]
                &&& post.session_identities@.dom().contains(other)
                    == pre.session_identities@.dom().contains(other)
                &&& pre.session_identities@.dom().contains(other)
                    ==> post.session_identities@[other] == pre.session_identities@[other]
                &&& post.bridge_senders@.dom().contains(other)
                    == pre.bridge_senders@.dom().contains(other)
                &&& pre.bridge_senders@.dom().contains(other) ==> post.bridge_senders@[other]
                    == pre.bridge_senders@[other]
            }
            &&& post.pending == pre.pending
            &&& post.bootstrap_grants == pre.bootstrap_grants
            &&& post.bootstrap_receipts == pre.bootstrap_receipts
        },
{
    reveal_strlit(":");
    assert(":"@ =~= seq![':']);
}

} // verus!
