//! What calls and queries come to, said of the caller's own request and of the
//! bridges that are connected.
use vstd::prelude::*;

use crate::broker::{BrokerState, Delivery, Dispatch, DispatchOutcome};
use crate::checks::{bounded_identifier, normal_path};
use crate::identity::{expectation_fault, identity_shape, session_identity};
use crate::json::{JsonModel, MemberModel};
use crate::outside::uuid_text;
use crate::protocol::{
    ErrorModel, HostKind, RequestId, RequestIdModel, RpcErrorResponse, RpcRequest, RpcResponse,
};
use crate::runtime::{
    BridgeInbound, BrokerRuntimeIdentity, RuntimeIdentityAttestationModel, RuntimeIdentityQuery,
};
use crate::settings::identifies_broker;
use crate::text::{
    decimal_text, is_space_char, spaces, text_option, texts, trim_text, trim_text_end,
    trim_text_start,
};

verus! {

/// The target that a request names; `default` where it names none.
pub open spec fn named_target(target: Option<String>) -> Seq<char> {
    match target {
        Some(target) => target@,
        None => "default"@,
    }
}

/// Some character of the text is no white space.
pub open spec fn says_something(s: Seq<char>) -> bool {
    exists|i: int| 0 <= i < s.len() && !is_space_char(#[trigger] s[i])
}

/// One of the strings is the text.
pub open spec fn lists(items: Seq<String>, text: Seq<char>) -> bool {
    exists|i: int| 0 <= i < items.len() && (#[trigger] items[i])@ == text
}

proof fn trimmed_end(s: Seq<char>, p: spec_fn(char) -> bool)
    ensures
        trim_text_end(s, p).len() == 0 <==> forall|i: int| 0 <= i < s.len() ==> p(#[trigger] s[i]),
    decreases s.len(),
{
    if s.len() > 0 {
        trimmed_end(s.drop_last(), p);
        if p(s.last()) {
            assert forall|i: int| 0 <= i < s.len() && trim_text_end(s, p).len() == 0 implies p(
                #[trigger] s[i],
            ) by {
                if i < s.len() - 1 {
                    assert(s.drop_last()[i] == s[i]);
                }
            }
            assert forall|i: int|
                0 <= i < s.drop_last().len() && (forall|j: int| 0 <= j < s.len() ==> p(
                    #[trigger] s[j],
                )) implies p(#[trigger] s.drop_last()[i]) by {
                assert(s.drop_last()[i] == s[i]);
            }
        } else {
            assert(!p(s[s.len() - 1]));
        }
    }
}

proof fn trimmed_start(s: Seq<char>, p: spec_fn(char) -> bool)
    ensures
        trim_text_start(s, p).len() == 0 <==> forall|i: int|
            0 <= i < s.len() ==> p(#[trigger] s[i]),
        trim_text_start(s, p).len() > 0 ==> !p(trim_text_start(s, p)[0]),
    decreases s.len(),
{
    if s.len() > 0 {
        let rest = s.skip(1);
        trimmed_start(rest, p);
        if p(s[0]) {
            assert forall|i: int| 0 <= i < s.len() && trim_text_start(s, p).len() == 0 implies p(
                #[trigger] s[i],
            ) by {
                if i > 0 {
                    assert(rest[i - 1] == s[i]);
                }
            }
            assert forall|i: int|
                0 <= i < rest.len() && (forall|j: int| 0 <= j < s.len() ==> p(
                    #[trigger] s[j],
                )) implies p(#[trigger] rest[i]) by {
                assert(rest[i] == s[i + 1]);
            }
        }
    }
}

/// Trimming leaves nothing exactly of a text that is all white space.
pub proof fn only_white_space_trims_away(s: Seq<char>)
    ensures
        trim_text(s).len() == 0 <==> !says_something(s),
{
    trimmed_start(s, spaces());
    trimmed_end(trim_text_start(s, spaces()), spaces());
    if says_something(s) {
        let i = choose|i: int| 0 <= i < s.len() && !is_space_char(#[trigger] s[i]);
        assert(!spaces()(s[i]));
        assert(!spaces()(trim_text_start(s, spaces())[0]));
    }
}

/// A text is among the views of strings exactly if one of them has it.
proof fn listed(items: Seq<String>, text: Seq<char>)
    ensures
        texts(items).contains(text) <==> lists(items, text),
{
    let views = texts(items);
    assert(views.len() == items.len());
    if views.contains(text) {
        let i = choose|i: int| 0 <= i < views.len() && views[i] == text;
        assert(items[i]@ == text);
    }
    if lists(items, text) {
        let i = choose|i: int| 0 <= i < items.len() && (#[trigger] items[i])@ == text;
        assert(views[i] == text);
    }
}

// ---------------------------------------------------------------------------
// Calls

/// The request that goes to a bridge is the caller's: version, host, target,
/// namespace, method, every argument and the options are the caller's own.
/// Only the identifier is another, and the caller's is kept for the reply.
pub proof fn bridge_gets_the_callers_request(
    pre: BrokerState,
    post: BrokerState,
    request: RpcRequest,
    r: Result<Dispatch, RpcErrorResponse>,
)
    requires
        BrokerState::dispatched(pre, post, request, r),
        r is Ok,
    ensures
        ({
            let sent = r->Ok_0.request;
            let n = pre.next_dispatch_id;
            let id = "broker_"@ + decimal_text(n as nat);
            &&& sent.jsonrpc == request.jsonrpc
            &&& sent.host == request.host
            &&& sent.target == request.target
            &&& sent.namespace == request.namespace
            &&& sent.method == request.method
            &&& sent.args == request.args
            &&& sent.options == request.options
            &&& sent.id@ == RequestIdModel::Text(id)
            &&& r->Ok_0.dispatch_id@ == id
            &&& r->Ok_0.original_id@ == request.id@
            &&& post.next_dispatch_id == if n == u64::MAX {
                0
            } else {
                n + 1
            }
        }),
{
}

/// A request is sent over the current connection of the session that it
/// names, and waits as long as it asks to, or as the broker is set to where
/// it does not ask. The call in flight remembers the caller's identifier, the
/// session and the connection; no other call in flight is touched.
pub proof fn call_waits_on_its_connection(
    pre: BrokerState,
    post: BrokerState,
    request: RpcRequest,
    r: Result<Dispatch, RpcErrorResponse>,
    other: Seq<char>,
)
    requires
        BrokerState::dispatched(pre, post, request, r),
        r is Ok,
    ensures
        ({
            let d = r->Ok_0;
            let key = request.host.name() + ":"@ + named_target(request.target);
            let entry = post.pending@[d.dispatch_id@];
            &&& d.connection_id == pre.bridge_senders@[key]
            &&& request.options.timeout_ms is Some ==> d.timeout_ms
                == request.options.timeout_ms->0
            &&& request.options.timeout_ms is None ==> d.timeout_ms == pre.default_timeout_ms
            &&& post.pending@.dom().contains(d.dispatch_id@)
            &&& entry.original_id@ == request.id@
            &&& entry.session_key@ == key
            &&& entry.connection_id == pre.bridge_senders@[key]
            &&& other != d.dispatch_id@ ==> {
                &&& post.pending@.dom().contains(other) == pre.pending@.dom().contains(other)
                &&& pre.pending@.dom().contains(other) ==> post.pending@[other]
                    == pre.pending@[other]
            }
            &&& post.sessions == pre.sessions
            &&& post.session_identities == pre.session_identities
            &&& post.bridge_senders == pre.bridge_senders
            &&& post.bootstrap_receipts == pre.bootstrap_receipts
            &&& post.token == pre.token
        }),
{
    reveal_strlit(":");
    assert(":"@ =~= seq![':']);
    assert(request@.target_name() == named_target(request.target));
}

/// A request is sent exactly if it is of version 2.0, its namespace and its
/// method are more than white space, a bridge is connected for its host and
/// target, is one of that host, and lists the namespace and, under the
/// namespace, the method.
pub proof fn servable_request_is_sent(
    pre: BrokerState,
    post: BrokerState,
    request: RpcRequest,
    r: Result<Dispatch, RpcErrorResponse>,
)
    requires
        BrokerState::dispatched(pre, post, request, r),
    ensures
        ({
            let key = request.host.name() + ":"@ + named_target(request.target);
            let session = pre.sessions@[key];
            let methods = session.capabilities.methods@;
            r is Ok <==> {
                &&& request.jsonrpc@ == "2.0"@
                &&& says_something(request.namespace@)
                &&& says_something(request.method@)
                &&& pre.bridge_senders@.dom().contains(key)
                &&& pre.sessions@.dom().contains(key)
                &&& session.capabilities.host == request.host
                &&& lists(session.capabilities.namespaces@, request.namespace@)
                &&& methods.dom().contains(request.namespace@)
                &&& lists(methods[request.namespace@]@, request.method@)
            }
        }),
        r is Err ==> post == pre,
{
    let key = request.host.name() + ":"@ + named_target(request.target);
    let session = pre.sessions@[key];
    reveal_strlit(":");
    assert(":"@ =~= seq![':']);
    assert(request@.target_name() == named_target(request.target));
    only_white_space_trims_away(request.namespace@);
    only_white_space_trims_away(request.method@);
    listed(session.capabilities.namespaces@, request.namespace@);
    listed(session.capabilities.methods@[request.namespace@]@, request.method@);
}

/// A refused request is answered under its own identifier, with the code and
/// the sentence of the first thing that stands in its way.
pub proof fn refused_request_is_told_why(
    pre: BrokerState,
    post: BrokerState,
    request: RpcRequest,
    r: Result<Dispatch, RpcErrorResponse>,
)
    requires
        BrokerState::dispatched(pre, post, request, r),
        r is Err,
    ensures
        ({
            let e = r->Err_0;
            let target = named_target(request.target);
            let key = request.host.name() + ":"@ + target;
            let session = pre.sessions@[key];
            let said = "host '"@ + request.host.name() + "' target '"@ + target;
            &&& e.jsonrpc@ == "2.0"@
            &&& e.id is Some
            &&& e.id->0@ == request.id@
            &&& e.error.data is None
            &&& e.diagnostics is None
            &&& if request.jsonrpc@ != "2.0"@ {
                e.error.code == -32600 && e.error.message@ == "unsupported JSON-RPC version"@
            } else if !says_something(request.namespace@) || !says_something(request.method@) {
                e.error.code == -32600 && e.error.message@
                    == "request namespace and method must not be empty"@
            } else if !pre.bridge_senders@.dom().contains(key) {
                e.error.code == -32002 && e.error.message@
                    == "no bridge session is connected for "@ + said + "'"@
            } else if !pre.sessions@.dom().contains(key) {
                e.error.code == -32002 && e.error.message@
                    == "bridge session metadata is unavailable"@
            } else if session.capabilities.host != request.host {
                e.error.code == -32003 && e.error.message@ == "connected bridge host mismatch"@
            } else if !lists(session.capabilities.namespaces@, request.namespace@) {
                e.error.code == -32003 && e.error.message@ == said
                    + "' bridge does not support namespace '"@ + request.namespace@ + "'"@
            } else {
                e.error.code == -32003 && e.error.message@ == said
                    + "' bridge does not support method '"@ + request.namespace@ + "."@
                    + request.method@ + "'"@
            }
        }),
{
    let key = request.host.name() + ":"@ + named_target(request.target);
    let session = pre.sessions@[key];
    reveal_strlit(":");
    assert(":"@ =~= seq![':']);
    assert(request@.target_name() == named_target(request.target));
    only_white_space_trims_away(request.namespace@);
    only_white_space_trims_away(request.method@);
    listed(session.capabilities.namespaces@, request.namespace@);
    listed(session.capabilities.methods@[request.namespace@]@, request.method@);
}

/// A call that ends is answered: with the bridge's reply as it is where there
/// is one, and otherwise with an error under the caller's identifier that says
/// what happened. It is then no longer in flight; every other call is.
pub proof fn ended_call_is_answered(
    pre: BrokerState,
    post: BrokerState,
    dispatch_id: Seq<char>,
    original_id: RequestId,
    timeout_ms: u64,
    outcome: DispatchOutcome,
    r: Result<RpcResponse, RpcErrorResponse>,
    other: Seq<char>,
)
    requires
        BrokerState::finished(pre, post, dispatch_id, original_id, timeout_ms, outcome, r),
    ensures
        outcome is Replied ==> r == outcome->Replied_0,
        !(outcome is Replied) ==> {
            &&& r is Err
            &&& r->Err_0.jsonrpc@ == "2.0"@
            &&& r->Err_0.id is Some
            &&& r->Err_0.id->0@ == original_id@
            &&& r->Err_0.error.data is None
            &&& r->Err_0.diagnostics is None
        },
        outcome is SendFailed ==> r->Err_0.error.code == -32002 && r->Err_0.error.message@
            == "bridge disconnected before request could be sent"@,
        outcome is Closed ==> r->Err_0.error.code == -32002 && r->Err_0.error.message@
            == "bridge response channel closed"@,
        outcome is TimedOut ==> r->Err_0.error.code == -32007 && r->Err_0.error.message@
            == "request timed out after "@ + decimal_text(timeout_ms as nat) + "ms"@,
        !post.pending@.dom().contains(dispatch_id),
        other != dispatch_id ==> {
            &&& post.pending@.dom().contains(other) == pre.pending@.dom().contains(other)
            &&& pre.pending@.dom().contains(other) ==> post.pending@[other] == pre.pending@[other]
        },
        post.sessions == pre.sessions,
        post.bridge_senders == pre.bridge_senders,
        post.next_dispatch_id == pre.next_dispatch_id,
{
}

/// A reply reaches the caller as the bridge gave it, under the caller's own
/// identifier. A reply under a number, or under an identifier that no call
/// waits for, is dropped, and so is a second greeting.
pub proof fn reply_is_the_bridges_own(
    pre: BrokerState,
    post: BrokerState,
    message: BridgeInbound,
    r: Option<Delivery>,
)
    requires
        BrokerState::delivered(pre, post, message, r),
    ensures
        message is Hello ==> r is None,
        r is None ==> post.pending@ == pre.pending@,
        message is Response ==> {
            let id = message->response.id;
            &&& r is Some <==> id is String && pre.pending@.dom().contains(id->String_0@)
            &&& r is Some ==> {
                let reply = r->0.reply;
                &&& r->0.dispatch_id@ == id->String_0@
                &&& reply is Ok
                &&& reply->Ok_0.id@ == pre.pending@[id->String_0@].original_id@
                &&& reply->Ok_0.jsonrpc@ == message->response.jsonrpc@
                &&& reply->Ok_0.result@ == message->response.result@
                &&& reply->Ok_0@.diagnostics == message->response@.diagnostics
                &&& post.pending@ == pre.pending@.remove(id->String_0@)
            }
        },
        message is Error ==> {
            let id = message->error.id;
            &&& r is Some <==> id is Some && id->0 is String && pre.pending@.dom().contains(
                id->0->String_0@,
            )
            &&& r is Some ==> {
                let reply = r->0.reply;
                &&& r->0.dispatch_id@ == id->0->String_0@
                &&& reply is Err
                &&& reply->Err_0@.id == Some(pre.pending@[id->0->String_0@].original_id@)
                &&& reply->Err_0.jsonrpc@ == message->error.jsonrpc@
                &&& reply->Err_0.error.code == message->error.error.code
                &&& reply->Err_0.error.message@ == message->error.error.message@
                &&& reply->Err_0@.data == message->error@.data
                &&& reply->Err_0@.diagnostics == message->error@.diagnostics
                &&& post.pending@ == pre.pending@.remove(id->0->String_0@)
            }
        },
        post.sessions == pre.sessions,
        post.bridge_senders == pre.bridge_senders,
{
    if message is Response && r is Some {
        let a = r->0.reply->Ok_0@;
        let b = message->response@;
        assert(a.jsonrpc == b.jsonrpc && a.result == b.result);
    }
    if message is Error && r is Some {
        let a = r->0.reply->Err_0@;
        let b = message->error@;
        assert(a.jsonrpc == b.jsonrpc && a.code == b.code && a.message == b.message);
    }
}

/// A connection that is lost takes exactly its own calls with it, and its
/// session only where no newer connection has taken the session over. Each of
/// those calls is answered once, under the caller's identifier, with the
/// reason.
pub proof fn lost_connection_takes_its_own(
    pre: BrokerState,
    post: BrokerState,
    key: Seq<char>,
    connection_id: u64,
    reason: Seq<char>,
    r: Seq<Delivery>,
    id: Seq<char>,
    session: Seq<char>,
)
    requires
        BrokerState::disconnected(pre, post, key, connection_id, reason, r),
    ensures
        post.pending@.dom().contains(id) <==> pre.pending@.dom().contains(id) && !(
        pre.pending@[id].session_key@ == key && pre.pending@[id].connection_id == connection_id),
        post.pending@.dom().contains(id) ==> post.pending@[id] == pre.pending@[id],
        pre.pending@.dom().contains(id) && !post.pending@.dom().contains(id) ==> exists|i: int|
            0 <= i < r.len() && (#[trigger] r[i]).dispatch_id@ == id,
        forall|i: int|
            0 <= i < r.len() ==> {
                let e = (#[trigger] r[i]).reply->Err_0;
                &&& r[i].reply is Err
                &&& pre.pending@.dom().contains(r[i].dispatch_id@)
                &&& pre.pending@[r[i].dispatch_id@].session_key@ == key
                &&& pre.pending@[r[i].dispatch_id@].connection_id == connection_id
                &&& e@.id == Some(pre.pending@[r[i].dispatch_id@].original_id@)
                &&& e@.jsonrpc == "2.0"@
                &&& e@.code == -32002
                &&& e@.message == reason
                &&& e@.data is None
                &&& e@.diagnostics is None
            },
        forall|i: int, j: int|
            0 <= i < r.len() && 0 <= j < r.len() && i != j ==> (#[trigger] r[i]).dispatch_id@ != (
            #[trigger] r[j]).dispatch_id@,
        ({
            let goes = session == key && pre.bridge_senders@.dom().contains(key)
                && pre.bridge_senders@[key] == connection_id;
            &&& post.bridge_senders@.dom().contains(session) <==> pre.bridge_senders@.dom().contains(
                session,
            ) && !goes
            &&& post.sessions@.dom().contains(session) <==> pre.sessions@.dom().contains(session)
                && !goes
            &&& post.session_identities@.dom().contains(session)
                <==> pre.session_identities@.dom().contains(session) && !goes
            &&& post.bridge_senders@.dom().contains(session) ==> post.bridge_senders@[session]
                == pre.bridge_senders@[session]
            &&& post.sessions@.dom().contains(session) ==> post.sessions@[session]
                == pre.sessions@[session]
            &&& post.session_identities@.dom().contains(session)
                ==> post.session_identities@[session] == pre.session_identities@[session]
        }),
        post.bootstrap_grants == pre.bootstrap_grants,
        post.bootstrap_receipts == pre.bootstrap_receipts,
{
    assert forall|i: int, j: int|
        0 <= i < r.len() && 0 <= j < r.len() && i != j implies (#[trigger] r[i]).dispatch_id@ != (
    #[trigger] r[j]).dispatch_id@ by {
        if i < j {
        } else {
            assert(r[j].dispatch_id@ != r[i].dispatch_id@);
        }
    }
}

/// Callers get in with the broker's token, and with anything or nothing where
/// the broker has none.
pub proof fn only_the_token_lets_in(state: BrokerState, presented: Option<Seq<char>>)
    ensures
        state.admits(presented) <==> state.token@ == Seq::<char>::empty() || (presented is Some
            && presented->0 == state.token@),
{
    assert(state.token@.len() == 0 <==> state.token@ =~= Seq::<char>::empty());
}

/// A new broker has its settings and its identity, no bridge, no call in
/// flight, no bootstrap and no receipt, and counts from one.
pub proof fn new_broker_is_empty(
    state: BrokerState,
    token: String,
    default_timeout_ms: u64,
    identity: BrokerRuntimeIdentity,
    url: String,
    key: Seq<char>,
)
    requires
        state.made_of(token, default_timeout_ms, identity, url),
    ensures
        state.token == token,
        state.default_timeout_ms == default_timeout_ms,
        state.broker_identity == identity,
        state.photoshop_websocket_url == url,
        !state.sessions@.dom().contains(key),
        !state.session_identities@.dom().contains(key),
        !state.bridge_senders@.dom().contains(key),
        !state.pending@.dom().contains(key),
        !state.bootstrap_grants@.dom().contains(key),
        !state.bootstrap_receipts@.dom().contains(key),
        state.next_dispatch_id == 1,
        state.next_connection_id == 1,
        state.next_ticket == 1,
        state.sessions_keyed(),
{
}

/// What identifies a broker is what was captured of it, field by field, under
/// its instance identifier; a broker whose executable has no absolute path has
/// no identity.
pub proof fn broker_is_identified_by_what_was_captured(
    pid: u32,
    process_start_identity: Seq<char>,
    executable_path: Seq<char>,
    runtime_version: Seq<char>,
    instance: u128,
    r: Option<BrokerRuntimeIdentity>,
)
    requires
        identifies_broker(
            pid,
            process_start_identity,
            executable_path,
            runtime_version,
            instance,
            r,
        ),
    ensures
        r is Some <==> normal_path(executable_path) is Some,
        r is Some ==> {
            &&& r->0.pid == pid
            &&& r->0.process_start_identity@ == process_start_identity
            &&& r->0.executable_path@ == executable_path
            &&& r->0.runtime_version@ == runtime_version
            &&& r->0.instance_id@ == uuid_text(instance)
        },
{
    if r is Some {
        let m = r->0@;
        assert(m.pid == pid);
    }
}

// ---------------------------------------------------------------------------
// Queries

/// The sessions of the host that are connected, those of the target alone
/// where one is named.
pub open spec fn sessions_of(state: BrokerState, host: HostKind, target: Option<String>) -> Set<Seq<char>> {
    Set::new(
        |key: Seq<char>|
            state.sessions@.dom().contains(key) && state.sessions@[key].capabilities.host == host
                && (target is Some ==> state.sessions@[key].target@ == target->0@),
    )
}

/// Every session that a query selects belongs to the host that the query
/// names, with a target or without one, and to the target where there is one;
/// and every such session is selected.
pub proof fn selection_keeps_to_the_host(
    state: BrokerState,
    host: HostKind,
    target: Option<String>,
    key: Seq<char>,
)
    ensures
        state.selected(host, text_option(target)).contains(key) <==> {
            &&& state.sessions@.dom().contains(key)
            &&& state.sessions@[key].capabilities.host == host
            &&& target is Some ==> state.sessions@[key].target@ == target->0@
        },
        state.selected(host, text_option(target)) == sessions_of(state, host, target),
        state.selected(host, None).contains(key) ==> state.sessions@[key].capabilities.host == host,
{
    assert(state.selected(host, text_option(target)) =~= sessions_of(state, host, target));
}

/// A query without a target succeeds when exactly one session of the host is
/// connected, whatever sessions of other hosts are: it is answered with the
/// identity of that session. The same holds of a query with a target.
pub proof fn only_session_of_the_host_is_found(
    state: BrokerState,
    query: RuntimeIdentityQuery,
    key: Seq<char>,
)
    requires
        query.target is Some ==> bounded_identifier(query.target->0@, 128),
        query.expected is None,
        state.sessions@.dom().contains(key),
        state.sessions@[key].capabilities.host == query.host,
        query.target is Some ==> state.sessions@[key].target@ == query.target->0@,
        forall|other: Seq<char>|
            #![trigger state.sessions@.dom().contains(other)]
            state.sessions@.dom().contains(other) && state.sessions@[other].capabilities.host
                == query.host && (query.target is Some ==> state.sessions@[other].target@
                == query.target->0@) ==> other == key,
    ensures
        state.identity_answer(query) == session_identity(
            state.broker_identity@,
            state.sessions@[key],
            if state.session_identities@.dom().contains(key) {
                Some(state.session_identities@[key])
            } else {
                None
            },
        ),
{
    let matching = state.selected(query.host, text_option(query.target));
    assert(matching =~= set![key]);
    assert(matching.len() == 1);
    assert(matching.contains(matching.choose()));
}

/// A query that is answered with an identity is answered with that of a
/// connected session of the host, and of the target where one is named; no
/// second session fits, and the identity is the expected one where one is
/// expected.
pub proof fn answered_query_is_about_its_host(
    state: BrokerState,
    query: RuntimeIdentityQuery,
    identity: RuntimeIdentityAttestationModel,
) -> (key: Seq<char>)
    requires
        state.identity_answer(query) == Ok::<RuntimeIdentityAttestationModel, ErrorModel>(identity),
    ensures
        state.sessions@.dom().contains(key),
        state.sessions@[key].capabilities.host == query.host,
        query.target is Some ==> state.sessions@[key].target@ == query.target->0@,
        sessions_of(state, query.host, query.target).len() == 1,
        sessions_of(state, query.host, query.target).contains(key),
        state.session_identities@.dom().contains(key),
        session_identity(
            state.broker_identity@,
            state.sessions@[key],
            Some(state.session_identities@[key]),
        ) == Ok::<RuntimeIdentityAttestationModel, ErrorModel>(identity),
        query.expected is Some ==> query.expected->0@ == identity,
{
    let matching = state.selected(query.host, text_option(query.target));
    selection_keeps_to_the_host(state, query.host, query.target, matching.choose());
    if matching.len() != 0 {
        assert(matching.contains(matching.choose())) by {
            if matching =~= Set::empty() {
                assert(matching.len() == 0);
            }
        }
    }
    matching.choose()
}

/// The object has these two members, in this order.
pub open spec fn two_members(
    data: Option<JsonModel>,
    first: (Seq<char>, JsonModel),
    second: (Seq<char>, JsonModel),
) -> bool {
    data == Some(
        JsonModel::Object(
            seq![
                MemberModel { name: first.0, value: first.1 },
                MemberModel { name: second.0, value: second.1 },
            ],
        ),
    )
}

/// A well-formed query fails as unavailable exactly if no session fits it, and
/// as ambiguous, with their number, exactly if several do.
pub proof fn unanswered_query_is_told_why(state: BrokerState, query: RuntimeIdentityQuery)
    requires
        query.target is Some ==> bounded_identifier(query.target->0@, 128),
        query.expected is Some ==> identity_shape(query.expected->0@),
        sessions_of(state, query.host, query.target).len() != 1,
    ensures
        state.identity_answer(query) is Err,
        ({
            let e = state.identity_answer(query)->Err_0;
            let n = sessions_of(state, query.host, query.target).len();
            let host = ("host"@, JsonModel::Text(query.host.name()));
            &&& e.jsonrpc == "2.0"@
            &&& e.id is None
            &&& e.diagnostics is None
            &&& if n == 0 {
                &&& e.code == -32010
                &&& e.message == "runtime identity is unavailable for the selected host target"@
                &&& two_members(
                    e.data,
                    host,
                    ("missingFields"@, JsonModel::List(seq![JsonModel::Text("bridge.session"@)])),
                )
            } else {
                &&& e.code == -32012
                &&& e.message == "multiple runtime identities match; select an exact target"@
                &&& two_members(e.data, host, ("matchCount"@, JsonModel::Number(decimal_text(n))))
            }
        }),
{
    selection_keeps_to_the_host(state, query.host, query.target, Seq::empty());
    let n = sessions_of(state, query.host, query.target).len();
    let e = state.identity_answer(query)->Err_0;
    assert(seq!["bridge.session"@].map_values(|t: Seq<char>| JsonModel::Text(t)) =~= seq![
        JsonModel::Text("bridge.session"@),
    ]);
    if n == 0 {
        assert(e.data->0->Object_0 =~= seq![
            MemberModel { name: "host"@, value: JsonModel::Text(query.host.name()) },
            MemberModel {
                name: "missingFields"@,
                value: JsonModel::List(seq![JsonModel::Text("bridge.session"@)]),
            },
        ]);
    } else {
        assert(e.data->0->Object_0 =~= seq![
            MemberModel { name: "host"@, value: JsonModel::Text(query.host.name()) },
            MemberModel { name: "matchCount"@, value: JsonModel::Number(decimal_text(n)) },
        ]);
    }
}

/// A query with a target or an expected identity out of bounds is refused
/// before any session is looked at.
pub proof fn malformed_query_is_refused(state: BrokerState, query: RuntimeIdentityQuery)
    ensures
        query.target is Some && !bounded_identifier(query.target->0@, 128) ==> {
            let e = state.identity_answer(query)->Err_0;
            &&& state.identity_answer(query) is Err
            &&& e.code == -32600
            &&& e.message == "runtime identity target is invalid"@
            &&& e.data == Some(
                JsonModel::Object(
                    seq![MemberModel { name: "field"@, value: JsonModel::Text("target"@) }],
                ),
            )
        },
        (query.target is Some ==> bounded_identifier(query.target->0@, 128)) && query.expected
            is Some && !identity_shape(query.expected->0@) ==> {
            let e = state.identity_answer(query)->Err_0;
            &&& state.identity_answer(query) is Err
            &&& e.code == -32600
            &&& e.message == "expected runtime identity is malformed or unbounded"@
            &&& e.data == Some(
                JsonModel::Object(
                    seq![MemberModel { name: "field"@, value: JsonModel::Text("expected"@) }],
                ),
            )
        },
{
}

/// Where an identity is expected, the query fails with what is wrong with the
/// identity that was found, and only where it is another.
pub proof fn expectation_is_held_against_the_session(
    state: BrokerState,
    query: RuntimeIdentityQuery,
    key: Seq<char>,
    actual: RuntimeIdentityAttestationModel,
)
    requires
        query.target is Some ==> bounded_identifier(query.target->0@, 128),
        query.expected is Some,
        identity_shape(query.expected->0@),
        sessions_of(state, query.host, query.target) == set![key],
        state.session_identities@.dom().contains(key),
        session_identity(
            state.broker_identity@,
            state.sessions@[key],
            Some(state.session_identities@[key]),
        ) == Ok::<RuntimeIdentityAttestationModel, ErrorModel>(actual),
    ensures
        state.identity_answer(query) is Ok <==> actual == query.expected->0@,
        state.identity_answer(query) is Ok ==> state.identity_answer(query)->Ok_0 == actual,
        state.identity_answer(query) is Err ==> expectation_fault(actual, query.expected->0@)
            == Some(state.identity_answer(query)->Err_0),
{
    let matching = state.selected(query.host, text_option(query.target));
    selection_keeps_to_the_host(state, query.host, query.target, key);
    assert(matching == set![key]);
    assert(matching.len() == 1);
    assert(matching.contains(matching.choose()));
}

} // verus!
