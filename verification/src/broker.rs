//! The broker's shared state: connected bridges, calls in flight and identities.
use vstd::prelude::*;

use crate::bootstrap::{BootstrapGrant, BootstrapReceipt};
use crate::checks::{bounded_identifier, is_bounded_identifier};
use crate::identity::{
    complete_runtime_identity, expectation_fault, field_error, field_fault, identity_error,
    identity_shape, identity_shape_error, session_identity, validate_expected_identity,
    validate_runtime_identity_shape,
};
use crate::json::{
    member, number, number_json, text_list, texts_json, JsonModel, MemberModel, ObjectBuilder,
};
use crate::protocol::{
    data_error, id_model, plain_error, session_key, session_key_text, BridgeSessionInfo, ErrorModel,
    HostKind, RequestId, RequestIdModel, RpcErrorResponse, RpcRequest, RpcRequestModel, RpcResponse,
    RpcResponseModel, ERROR_BRIDGE_NOT_INSTALLED, ERROR_CAPABILITY, ERROR_IDENTITY_AMBIGUOUS,
    ERROR_IDENTITY_UNAVAILABLE, ERROR_INVALID_REQUEST, ERROR_TIMEOUT, JSONRPC_VERSION,
};
use crate::runtime::{
    BridgeIdentityClaim, BridgeInbound, BrokerRuntimeIdentity, RuntimeIdentityAttestation,
    RuntimeIdentityAttestationModel, RuntimeIdentityQuery,
};
use crate::table::Table;
use crate::text::{
    chars_of, contains_text, decimal, decimal_text, join2, push_text, same_text, text_option, texts,
    trim_chars, trim_text,
};

verus! {

/// A call that waits for its bridge to answer.
#[derive(Debug)]
pub struct PendingRequest {
    pub original_id: RequestId,
    pub session_key: String,
    pub connection_id: u64,
}

/// The state that all connections share.
#[derive(Debug)]
pub struct BrokerState {
    pub token: String,
    pub default_timeout_ms: u64,
    pub broker_identity: BrokerRuntimeIdentity,
    pub photoshop_websocket_url: String,
    /// The connected bridges by session key.
    pub sessions: Table<BridgeSessionInfo>,
    /// The identity claims of connected bridges by session key.
    pub session_identities: Table<BridgeIdentityClaim>,
    /// The current connection of each session.
    pub bridge_senders: Table<u64>,
    /// The calls in flight by dispatch identifier.
    pub pending: Table<PendingRequest>,
    pub next_dispatch_id: u64,
    pub next_connection_id: u64,
    /// The bootstraps in progress by session key.
    pub bootstrap_grants: Table<BootstrapGrant>,
    /// The bootstrap results that can still be verified, by receipt.
    pub bootstrap_receipts: Table<BootstrapReceipt>,
    pub next_ticket: u64,
}

/// What is wrong with the form of a request, if anything.
pub open spec fn request_fault(m: RpcRequestModel) -> Option<ErrorModel> {
    if m.jsonrpc != JSONRPC_VERSION@ {
        Some(plain_error(Some(m.id), ERROR_INVALID_REQUEST, "unsupported JSON-RPC version"@))
    } else if trim_text(m.namespace).len() == 0 || trim_text(m.method).len() == 0 {
        Some(
            plain_error(
                Some(m.id),
                ERROR_INVALID_REQUEST,
                "request namespace and method must not be empty"@,
            ),
        )
    } else {
        None
    }
}

fn request_error(id: &RequestId, code: i32, message: &str) -> (r: RpcErrorResponse)
    ensures
        r@ == plain_error(Some(id@), code, message@),
{
    RpcErrorResponse::new(Some(id.clone()), code, message)
}

/// Checks the form of a request.
pub fn validate_request(request: &RpcRequest) -> (r: Result<(), RpcErrorResponse>)
    ensures
        match r {
            Ok(()) => request_fault(request@) is None,
            Err(e) => request_fault(request@) == Some(e@),
        },
{
    if !same_text(request.jsonrpc.as_str(), JSONRPC_VERSION) {
        return Err(
            request_error(&request.id, ERROR_INVALID_REQUEST, "unsupported JSON-RPC version"),
        );
    }
    let namespace = chars_of(request.namespace.as_str());
    let method = chars_of(request.method.as_str());
    if trim_chars(&namespace).len() == 0 || trim_chars(&method).len() == 0 {
        return Err(
            request_error(
                &request.id,
                ERROR_INVALID_REQUEST,
                "request namespace and method must not be empty",
            ),
        );
    }
    Ok(())
}

/// The bridge offers the method in the namespace.
pub open spec fn offers_method(session: BridgeSessionInfo, namespace: Seq<char>, method: Seq<char>) -> bool {
    let methods = session.capabilities.methods@;
    methods.dom().contains(namespace) && texts(methods[namespace]@).contains(method)
}

/// The start of every sentence about a session.
pub open spec fn session_words(host: HostKind, target: Seq<char>) -> Seq<char> {
    "host '"@ + host.name() + "' target '"@ + target
}

/// Why a bridge cannot serve a request, if there is a reason.
pub open spec fn capability_fault(
    m: RpcRequestModel,
    target: Seq<char>,
    session: BridgeSessionInfo,
) -> Option<ErrorModel> {
    if session.capabilities.host != m.host {
        Some(plain_error(Some(m.id), ERROR_CAPABILITY, "connected bridge host mismatch"@))
    } else if !texts(session.capabilities.namespaces@).contains(m.namespace) {
        Some(
            plain_error(
                Some(m.id),
                ERROR_CAPABILITY,
                session_words(m.host, target) + "' bridge does not support namespace '"@
                    + m.namespace + "'"@,
            ),
        )
    } else if !offers_method(session, m.namespace, m.method) {
        Some(
            plain_error(
                Some(m.id),
                ERROR_CAPABILITY,
                session_words(m.host, target) + "' bridge does not support method '"@ + m.namespace
                    + "."@ + m.method + "'"@,
            ),
        )
    } else {
        None
    }
}

fn write_session_words(host: HostKind, target: &str) -> (r: String)
    ensures
        r@ == session_words(host, target@),
{
    let mut out = join2("host '", host.as_str());
    push_text(&mut out, "' target '");
    push_text(&mut out, target);
    out
}

/// Checks that a bridge can serve a request.
pub fn validate_capability_contract(
    request: &RpcRequest,
    target: &str,
    session: &BridgeSessionInfo,
) -> (r: Result<(), RpcErrorResponse>)
    ensures
        match r {
            Ok(()) => capability_fault(request@, target@, *session) is None,
            Err(e) => capability_fault(request@, target@, *session) == Some(e@),
        },
{
    let capabilities = &session.capabilities;
    if capabilities.host != request.host {
        return Err(request_error(&request.id, ERROR_CAPABILITY, "connected bridge host mismatch"));
    }
    if !contains_text(&capabilities.namespaces, request.namespace.as_str()) {
        let mut message = write_session_words(request.host, target);
        push_text(&mut message, "' bridge does not support namespace '");
        push_text(&mut message, request.namespace.as_str());
        push_text(&mut message, "'");
        return Err(request_error(&request.id, ERROR_CAPABILITY, message.as_str()));
    }
    let offered = match capabilities.methods.get(request.namespace.as_str()) {
        Some(methods) => contains_text(methods, request.method.as_str()),
        None => false,
    };
    if !offered {
        let mut message = write_session_words(request.host, target);
        push_text(&mut message, "' bridge does not support method '");
        push_text(&mut message, request.namespace.as_str());
        push_text(&mut message, ".");
        push_text(&mut message, request.method.as_str());
        push_text(&mut message, "'");
        return Err(request_error(&request.id, ERROR_CAPABILITY, message.as_str()));
    }
    Ok(())
}

/// A request that is to be sent to a bridge.
#[derive(Debug)]
pub struct Dispatch {
    pub dispatch_id: String,
    pub connection_id: u64,
    pub original_id: RequestId,
    pub timeout_ms: u64,
    /// The request as the bridge gets it, under the dispatch identifier.
    pub request: RpcRequest,
}

/// How the sending of a request ended.
#[derive(Debug)]
pub enum DispatchOutcome {
    /// The bridge's connection was gone.
    SendFailed,
    /// A reply was delivered.
    Replied(Result<RpcResponse, RpcErrorResponse>),
    /// The reply channel was dropped without a reply.
    Closed,
    /// No reply came in time.
    TimedOut,
}

/// A reply for a call in flight.
#[derive(Debug)]
pub struct Delivery {
    pub dispatch_id: String,
    pub reply: Result<RpcResponse, RpcErrorResponse>,
}

/// The identifier under which the `n`th request goes to a bridge.
pub open spec fn dispatch_id_text(n: u64) -> Seq<char> {
    "broker_"@ + decimal_text(n as nat)
}

/// The counter that follows `n`.
pub open spec fn next_counter(n: u64) -> u64 {
    if n == u64::MAX {
        0
    } else {
        (n + 1) as u64
    }
}

fn count_up(n: u64) -> (r: u64)
    ensures
        r == next_counter(n),
{
    if n == u64::MAX {
        0
    } else {
        n + 1
    }
}

impl BrokerState {
    /// A broker at its beginning.
    pub open spec fn made_of(
        self,
        token: String,
        default_timeout_ms: u64,
        broker_identity: BrokerRuntimeIdentity,
        photoshop_websocket_url: String,
    ) -> bool {
        &&& self.token == token
        &&& self.default_timeout_ms == default_timeout_ms
        &&& self.broker_identity == broker_identity
        &&& self.photoshop_websocket_url == photoshop_websocket_url
        &&& self.sessions@ == Map::<Seq<char>, BridgeSessionInfo>::empty()
        &&& self.sessions.size() == 0
        &&& self.session_identities@ == Map::<Seq<char>, BridgeIdentityClaim>::empty()
        &&& self.session_identities.size() == 0
        &&& self.bridge_senders@ == Map::<Seq<char>, u64>::empty()
        &&& self.bridge_senders.size() == 0
        &&& self.pending@ == Map::<Seq<char>, PendingRequest>::empty()
        &&& self.pending.size() == 0
        &&& self.bootstrap_grants@ == Map::<Seq<char>, BootstrapGrant>::empty()
        &&& self.bootstrap_grants.size() == 0
        &&& self.bootstrap_receipts@ == Map::<Seq<char>, BootstrapReceipt>::empty()
        &&& self.bootstrap_receipts.size() == 0
        &&& self.next_dispatch_id == 1
        &&& self.next_connection_id == 1
        &&& self.next_ticket == 1
    }

    /// A broker without bridges.
    pub fn new(
        token: String,
        default_timeout_ms: u64,
        broker_identity: BrokerRuntimeIdentity,
        photoshop_websocket_url: String,
    ) -> (r: Self)
        ensures
            r.made_of(token, default_timeout_ms, broker_identity, photoshop_websocket_url),
    {
        BrokerState {
            token,
            default_timeout_ms,
            broker_identity,
            photoshop_websocket_url,
            sessions: Table::new(),
            session_identities: Table::new(),
            bridge_senders: Table::new(),
            pending: Table::new(),
            next_dispatch_id: 1,
            next_connection_id: 1,
            bootstrap_grants: Table::new(),
            bootstrap_receipts: Table::new(),
            next_ticket: 1,
        }
    }

    /// The token lets its bearer in.
    pub open spec fn admits(self, presented: Option<Seq<char>>) -> bool {
        self.token@.len() == 0 || presented == Some(self.token@)
    }

    /// A caller is authorized by the broker's token; an empty token lets
    /// everyone in.
    pub fn authorized(&self, presented: Option<&str>) -> (r: bool)
        ensures
            r == self.admits(
                match presented {
                    Some(token) => Some(token@),
                    None => None,
                },
            ),
    {
        if self.token.as_str().is_empty() {
            return true;
        }
        match presented {
            Some(value) => same_text(value, self.token.as_str()),
            None => false,
        }
    }

    /// Why a request cannot be sent, if there is a reason.
    pub open spec fn dispatch_fault(self, m: RpcRequestModel) -> Option<ErrorModel> {
        let target = m.target_name();
        let key = session_key_text(m.host, target);
        match request_fault(m) {
            Some(fault) => Some(fault),
            None => if !self.bridge_senders@.dom().contains(key) {
                Some(
                    plain_error(
                        Some(m.id),
                        ERROR_BRIDGE_NOT_INSTALLED,
                        "no bridge session is connected for "@ + session_words(m.host, target)
                            + "'"@,
                    ),
                )
            } else if !self.sessions@.dom().contains(key) {
                Some(
                    plain_error(
                        Some(m.id),
                        ERROR_BRIDGE_NOT_INSTALLED,
                        "bridge session metadata is unavailable"@,
                    ),
                )
            } else {
                capability_fault(m, target, self.sessions@[key])
            },
        }
    }

    /// What taking a request in does: it is refused and nothing changes, or it
    /// waits for a reply under a dispatch identifier of its own.
    pub open spec fn dispatched(
        pre: BrokerState,
        post: BrokerState,
        request: RpcRequest,
        r: Result<Dispatch, RpcErrorResponse>,
    ) -> bool {
        match r {
            Err(e) => pre.dispatch_fault(request@) == Some(e@) && post == pre,
            Ok(d) => {
                let id = dispatch_id_text(pre.next_dispatch_id);
                let key = session_key_text(request.host, request@.target_name());
                let entry = post.pending@[id];
                &&& pre.dispatch_fault(request@) is None
                &&& d.dispatch_id@ == id
                &&& d.connection_id == pre.bridge_senders@[key]
                &&& d.original_id@ == request.id@
                &&& d.timeout_ms == match request.options.timeout_ms {
                    Some(ms) => ms,
                    None => pre.default_timeout_ms,
                }
                &&& d.request@ == (RpcRequestModel { id: RequestIdModel::Text(id), ..request@ })
                &&& d.request == (RpcRequest { id: d.request.id, ..request })
                &&& entry.original_id@ == request.id@
                &&& entry.session_key@ == key
                &&& entry.connection_id == d.connection_id
                &&& post.pending@ == pre.pending@.insert(id, entry)
                &&& post.next_dispatch_id == next_counter(pre.next_dispatch_id)
                &&& post == (BrokerState {
                    pending: post.pending,
                    next_dispatch_id: post.next_dispatch_id,
                    ..pre
                })
            },
        }
    }

    /// Takes a request in: it is refused, or it gets a dispatch identifier of
    /// its own and waits for the bridge's reply under it.
    pub fn begin_dispatch(&mut self, request: RpcRequest) -> (r: Result<Dispatch, RpcErrorResponse>)
        ensures
            Self::dispatched(*old(self), *final(self), request, r),
    {
        match validate_request(&request) {
            Ok(()) => {},
            Err(e) => {
                return Err(e);
            },
        }
        let target = request.target_or_default().to_owned();
        let key = session_key(request.host, target.as_str());
        let connection_id: u64 = match self.bridge_senders.get(key.as_str()) {
            Some(connection_id) => *connection_id,
            None => {
                let mut message = "no bridge session is connected for ".to_owned();
                let words = write_session_words(request.host, target.as_str());
                push_text(&mut message, words.as_str());
                push_text(&mut message, "'");
                return Err(
                    request_error(&request.id, ERROR_BRIDGE_NOT_INSTALLED, message.as_str()),
                );
            },
        };
        match self.sessions.get(key.as_str()) {
            Some(session) => {
                match validate_capability_contract(&request, target.as_str(), session) {
                    Ok(()) => {},
                    Err(e) => {
                        return Err(e);
                    },
                }
            },
            None => {
                return Err(
                    request_error(
                        &request.id,
                        ERROR_BRIDGE_NOT_INSTALLED,
                        "bridge session metadata is unavailable",
                    ),
                );
            },
        }
        let timeout_ms: u64 = match request.options.timeout_ms {
            Some(ms) => ms,
            None => self.default_timeout_ms,
        };
        let original_id = request.id.clone();
        let digits = decimal(self.next_dispatch_id as u128);
        let dispatch_id = join2("broker_", digits.as_str());
        self.next_dispatch_id = count_up(self.next_dispatch_id);
        let bridge_request = RpcRequest {
            jsonrpc: request.jsonrpc,
            id: RequestId::from_string(dispatch_id.as_str()),
            host: request.host,
            target: request.target,
            namespace: request.namespace,
            method: request.method,
            args: request.args,
            options: request.options,
        };
        self.pending.insert(
            dispatch_id.clone(),
            PendingRequest { original_id: original_id.clone(), session_key: key, connection_id },
        );
        Ok(Dispatch { dispatch_id, connection_id, original_id, timeout_ms, request: bridge_request })
    }

    /// What the end of a call does: the caller gets the bridge's reply or an
    /// error of its own, and the call is no longer in flight.
    pub open spec fn finished(
        pre: BrokerState,
        post: BrokerState,
        dispatch_id: Seq<char>,
        original_id: RequestId,
        timeout_ms: u64,
        outcome: DispatchOutcome,
        r: Result<RpcResponse, RpcErrorResponse>,
    ) -> bool {
        &&& match outcome {
            DispatchOutcome::Replied(reply) => r == reply,
            DispatchOutcome::SendFailed => r is Err && r->Err_0@ == plain_error(
                Some(original_id@),
                ERROR_BRIDGE_NOT_INSTALLED,
                "bridge disconnected before request could be sent"@,
            ),
            DispatchOutcome::Closed => r is Err && r->Err_0@ == plain_error(
                Some(original_id@),
                ERROR_BRIDGE_NOT_INSTALLED,
                "bridge response channel closed"@,
            ),
            DispatchOutcome::TimedOut => r is Err && r->Err_0@ == plain_error(
                Some(original_id@),
                ERROR_TIMEOUT,
                "request timed out after "@ + decimal_text(timeout_ms as nat) + "ms"@,
            ),
        }
        &&& post.pending@ == pre.pending@.remove(dispatch_id)
        &&& post == (BrokerState { pending: post.pending, ..pre })
    }

    /// Answers the caller of a request once its sending has ended. Whatever
    /// the outcome, the call is then no longer in flight.
    pub fn finish_dispatch(
        &mut self,
        dispatch_id: &str,
        original_id: RequestId,
        timeout_ms: u64,
        outcome: DispatchOutcome,
    ) -> (r: Result<RpcResponse, RpcErrorResponse>)
        ensures
            Self::finished(
                *old(self),
                *final(self),
                dispatch_id@,
                original_id,
                timeout_ms,
                outcome,
                r,
            ),
    {
        let _ = self.pending.remove(dispatch_id);
        match outcome {
            DispatchOutcome::Replied(reply) => reply,
            DispatchOutcome::SendFailed => Err(
                RpcErrorResponse::new(
                    Some(original_id),
                    ERROR_BRIDGE_NOT_INSTALLED,
                    "bridge disconnected before request could be sent",
                ),
            ),
            DispatchOutcome::Closed => Err(
                RpcErrorResponse::new(
                    Some(original_id),
                    ERROR_BRIDGE_NOT_INSTALLED,
                    "bridge response channel closed",
                ),
            ),
            DispatchOutcome::TimedOut => {
                let digits = decimal(timeout_ms as u128);
                let mut message = join2("request timed out after ", digits.as_str());
                push_text(&mut message, "ms");
                Err(RpcErrorResponse::new(Some(original_id), ERROR_TIMEOUT, message.as_str()))
            },
        }
    }

    /// The dispatch identifier that a bridge's reply is for.
    pub open spec fn reply_id(message: BridgeInbound) -> Option<RequestIdModel> {
        match message {
            BridgeInbound::Hello { .. } => None,
            BridgeInbound::Response { response } => Some(response.id@),
            BridgeInbound::Error { error } => id_model(error.id),
        }
    }

    /// What a message of a connected bridge does: a reply to a call in flight
    /// is delivered under the caller's own identifier and the call is no
    /// longer in flight; nothing else has an effect.
    pub open spec fn delivered(
        pre: BrokerState,
        post: BrokerState,
        message: BridgeInbound,
        r: Option<Delivery>,
    ) -> bool {
        &&& post == (BrokerState { pending: post.pending, ..pre })
        &&& match Self::reply_id(message) {
            Some(RequestIdModel::Text(id)) => if pre.pending@.dom().contains(id) {
                let caller = pre.pending@[id].original_id@;
                &&& r is Some
                &&& r->0.dispatch_id@ == id
                &&& match message {
                    BridgeInbound::Response { response } => r->0.reply is Ok && r->0.reply->Ok_0@
                        == (RpcResponseModel { id: caller, ..response@ }),
                    BridgeInbound::Error { error } => r->0.reply is Err && r->0.reply->Err_0@ == (
                    ErrorModel { id: Some(caller), ..error@ }),
                    _ => false,
                }
                &&& post.pending@ == pre.pending@.remove(id)
            } else {
                r is None && post.pending@ == pre.pending@
            },
            _ => r is None && post.pending@ == pre.pending@,
        }
    }

    /// Takes in a message of a connected bridge. A reply to a call in flight
    /// is delivered once, under the caller's own identifier; everything else
    /// is dropped.
    pub fn handle_bridge_message(&mut self, message: BridgeInbound) -> (r: Option<Delivery>)
        ensures
            Self::delivered(*old(self), *final(self), message, r),
    {
        match message {
            BridgeInbound::Hello { .. } => None,
            BridgeInbound::Response { response } => {
                let id = match &response.id {
                    RequestId::String(id) => id.clone(),
                    RequestId::Number(_) => {
                        return None;
                    },
                };
                match self.pending.remove(id.as_str()) {
                    Some(pending) => Some(
                        Delivery {
                            dispatch_id: id,
                            reply: Ok(
                                RpcResponse {
                                    jsonrpc: response.jsonrpc,
                                    id: pending.original_id,
                                    result: response.result,
                                    diagnostics: response.diagnostics,
                                },
                            ),
                        },
                    ),
                    None => {
                        assert(self.pending@ =~= old(self).pending@);
                        None
                    },
                }
            },
            BridgeInbound::Error { error } => {
                let id = match &error.id {
                    Some(RequestId::String(id)) => id.clone(),
                    _ => {
                        return None;
                    },
                };
                match self.pending.remove(id.as_str()) {
                    Some(pending) => Some(
                        Delivery {
                            dispatch_id: id,
                            reply: Err(
                                RpcErrorResponse {
                                    jsonrpc: error.jsonrpc,
                                    id: Some(pending.original_id),
                                    error: error.error,
                                    diagnostics: error.diagnostics,
                                },
                            ),
                        },
                    ),
                    None => {
                        assert(self.pending@ =~= old(self).pending@);
                        None
                    },
                }
            },
        }
    }

    /// Every session stands under the key of its own host and target.
    pub open spec fn sessions_keyed(self) -> bool {
        forall|key: Seq<char>| #[trigger]
            self.sessions@.dom().contains(key) ==> key == session_key_text(
                self.sessions@[key].capabilities.host,
                self.sessions@[key].target@,
            )
    }

    /// The keys of the calls in flight over one connection of a session.
    pub open spec fn in_flight(self, key: Seq<char>, connection_id: u64) -> Set<Seq<char>> {
        Set::new(
            |id: Seq<char>|
                self.pending@.dom().contains(id) && self.pending@[id].session_key@ == key
                    && self.pending@[id].connection_id == connection_id,
        )
    }

    /// `connection_id` is the current connection of the session.
    pub open spec fn is_current(self, key: Seq<char>, connection_id: u64) -> bool {
        self.bridge_senders@.dom().contains(key) && self.bridge_senders@[key] == connection_id
    }

    /// The error for a call whose connection is gone.
    pub open spec fn drained(entry: PendingRequest, message: Seq<char>) -> ErrorModel {
        plain_error(Some(entry.original_id@), ERROR_BRIDGE_NOT_INSTALLED, message)
    }

    /// What taking a connection down does.
    pub open spec fn disconnected(
        pre: BrokerState,
        post: BrokerState,
        key: Seq<char>,
        connection_id: u64,
        message: Seq<char>,
        r: Seq<Delivery>,
    ) -> bool {
        let current = pre.is_current(key, connection_id);
        let gone = pre.in_flight(key, connection_id);
        &&& post.bridge_senders@ == if current {
            pre.bridge_senders@.remove(key)
        } else {
            pre.bridge_senders@
        }
        &&& post.sessions@ == if current {
            pre.sessions@.remove(key)
        } else {
            pre.sessions@
        }
        &&& post.session_identities@ == if current {
            pre.session_identities@.remove(key)
        } else {
            pre.session_identities@
        }
        &&& post.pending@ == pre.pending@.remove_keys(gone)
        &&& forall|id: Seq<char>| #[trigger]
            gone.contains(id) ==> exists|i: int|
                0 <= i < r.len() && (#[trigger] r[i]).dispatch_id@ == id
        &&& forall|i: int|
            0 <= i < r.len() ==> gone.contains((#[trigger] r[i]).dispatch_id@) && r[i].reply is Err
                && r[i].reply->Err_0@ == Self::drained(pre.pending@[r[i].dispatch_id@], message)
        &&& forall|i: int, j: int|
            #![trigger r[i], r[j]]
            0 <= i < j < r.len() ==> r[i].dispatch_id@ != r[j].dispatch_id@
        &&& post == (BrokerState {
            bridge_senders: post.bridge_senders,
            sessions: post.sessions,
            session_identities: post.session_identities,
            pending: post.pending,
            ..pre
        })
    }

    /// Takes a connection down. The session goes with it only if the
    /// connection is the session's current one; the calls in flight over this
    /// connection are answered with an error, one delivery each, and all
    /// others stay.
    pub fn disconnect_session(&mut self, key: &str, connection_id: u64, message: &str) -> (r: Vec<
        Delivery,
    >)
        ensures
            Self::disconnected(*old(self), *final(self), key@, connection_id, message@, r@),
            old(self).sessions_keyed() ==> final(self).sessions_keyed(),
    {
        let current = match self.bridge_senders.get(key) {
            Some(current) => *current == connection_id,
            None => false,
        };
        if current {
            let _ = self.bridge_senders.remove(key);
            let _ = self.sessions.remove(key);
            let _ = self.session_identities.remove(key);
        }
        let mut kept: Table<PendingRequest> = Table::new();
        let mut drained: Vec<Delivery> = Vec::new();
        let ghost gone = old(self).in_flight(key@, connection_id);
        let ghost all = old(self).pending@;
        let mut rest: Table<PendingRequest> = Table::new();
        std::mem::swap(&mut rest, &mut self.pending);
        loop
            invariant
                gone == old(self).in_flight(key@, connection_id),
                all == old(self).pending@,
                forall|id: Seq<char>| #[trigger]
                    rest@.dom().contains(id) ==> all.dom().contains(id) && rest@[id] == all[id],
                forall|id: Seq<char>| #[trigger]
                    kept@.dom().contains(id) ==> all.dom().contains(id) && kept@[id] == all[id]
                        && !gone.contains(id) && !rest@.dom().contains(id),
                forall|id: Seq<char>| #[trigger]
                    all.dom().contains(id) && !gone.contains(id) ==> rest@.dom().contains(id)
                        || kept@.dom().contains(id),
                forall|id: Seq<char>| #[trigger]
                    gone.contains(id) ==> rest@.dom().contains(id) || exists|i: int|
                        0 <= i < drained@.len() && (#[trigger] drained@[i]).dispatch_id@ == id,
                forall|i: int|
                    0 <= i < drained@.len() ==> gone.contains((#[trigger] drained@[i]).dispatch_id@)
                        && drained@[i].reply is Err && drained@[i].reply->Err_0@ == Self::drained(
                        all[drained@[i].dispatch_id@],
                        message@,
                    ) && !rest@.dom().contains(drained@[i].dispatch_id@),
                forall|i: int, j: int|
                    #![trigger drained@[i], drained@[j]]
                    0 <= i < j < drained@.len() ==> drained@[i].dispatch_id@
                        != drained@[j].dispatch_id@,
            ensures
                rest@ == Map::<Seq<char>, PendingRequest>::empty(),
            decreases rest.size(),
        {
            let ghost rest_before = rest@;
            let ghost drained_before = drained@;
            match rest.pop() {
                Some(entry) => {
                    let ghost id = entry.key@;
                    assert(rest_before.dom().contains(id));
                    if same_text(entry.value.session_key.as_str(), key) && entry.value.connection_id
                        == connection_id {
                        assert(gone.contains(id));
                        drained.push(
                            Delivery {
                                dispatch_id: entry.key,
                                reply: Err(
                                    RpcErrorResponse::new(
                                        Some(entry.value.original_id),
                                        ERROR_BRIDGE_NOT_INSTALLED,
                                        message,
                                    ),
                                ),
                            },
                        );
                        assert forall|other: Seq<char>| #[trigger]
                            gone.contains(other) implies rest@.dom().contains(other) || exists|i: int|

                            0 <= i < drained@.len() && (#[trigger] drained@[i]).dispatch_id@
                                == other by {
                            if other == id {
                                assert(drained@[drained@.len() - 1].dispatch_id@ == id);
                            } else if !rest@.dom().contains(other) {
                                let i = choose|i: int|
                                    0 <= i < drained_before.len() && (
                                    #[trigger] drained_before[i]).dispatch_id@ == other;
                                assert(drained@[i] == drained_before[i]);
                            }
                        }
                    } else {
                        assert(!gone.contains(id));
                        kept.insert(entry.key, entry.value);
                    }
                },
                None => {
                    break ;
                },
            }
        }
        self.pending = kept;
        assert(self.pending@ =~= all.remove_keys(gone));
        drained
    }

    /// The session belongs to the host and, where a target is given, to the target.
    pub open spec fn selects(session: BridgeSessionInfo, host: HostKind, target: Option<Seq<char>>) -> bool {
        session.capabilities.host == host && match target {
            Some(target) => session.target@ == target,
            None => true,
        }
    }

    /// The keys of the sessions that a query selects.
    pub open spec fn selected(self, host: HostKind, target: Option<Seq<char>>) -> Set<Seq<char>> {
        Set::new(
            |key: Seq<char>|
                self.sessions@.dom().contains(key) && Self::selects(
                    self.sessions@[key],
                    host,
                    target,
                ),
        )
    }

    /// The identity claim of a session.
    pub open spec fn claim_of(self, key: Seq<char>) -> Option<BridgeIdentityClaim> {
        if self.session_identities@.dom().contains(key) {
            Some(self.session_identities@[key])
        } else {
            None
        }
    }

    /// The identity that a query asks for: the complete identity of the one
    /// session it selects, or the reason why there is none.
    pub open spec fn identity_answer(self, query: RuntimeIdentityQuery) -> Result<
        RuntimeIdentityAttestationModel,
        ErrorModel,
    > {
        let matching = self.selected(query.host, text_option(query.target));
        if query.target is Some && !bounded_identifier(query.target->0@, 128) {
            Err(
                field_error(
                    ERROR_INVALID_REQUEST,
                    "runtime identity target is invalid"@,
                    "target"@,
                ),
            )
        } else if query.expected is Some && !identity_shape(query.expected->0@) {
            Err(identity_shape_error())
        } else if matching.len() == 0 {
            Err(
                data_error(
                    ERROR_IDENTITY_UNAVAILABLE,
                    "runtime identity is unavailable for the selected host target"@,
                    JsonModel::Object(
                        Seq::<MemberModel>::empty().push(
                            member("host"@, JsonModel::Text(query.host.name())),
                        ).push(member("missingFields"@, texts_json(seq!["bridge.session"@]))),
                    ),
                ),
            )
        } else if matching.len() != 1 {
            Err(
                data_error(
                    ERROR_IDENTITY_AMBIGUOUS,
                    "multiple runtime identities match; select an exact target"@,
                    JsonModel::Object(
                        Seq::<MemberModel>::empty().push(
                            member("host"@, JsonModel::Text(query.host.name())),
                        ).push(member("matchCount"@, number_json(matching.len()))),
                    ),
                ),
            )
        } else {
            let key = matching.choose();
            match session_identity(
                self.broker_identity@,
                self.sessions@[key],
                self.claim_of(key),
            ) {
                Err(e) => Err(e),
                Ok(actual) => match query.expected {
                    Some(expected) => match expectation_fault(actual, expected@) {
                        Some(fault) => Err(fault),
                        None => Ok(actual),
                    },
                    None => Ok(actual),
                },
            }
        }
    }

    /// The number of selected sessions, and one of their positions.
    fn count_selected(&self, host: HostKind, target: &Option<String>) -> (r: (usize, usize))
        ensures
            self.selected(host, text_option(*target)).finite(),
            r.0 == self.selected(host, text_option(*target)).len(),
            r.0 > 0 ==> r.1 < self.sessions.size() && self.selected(
                host,
                text_option(*target),
            ).contains(self.sessions.key(r.1 as int)),
    {
        let total: usize = self.sessions.len();
        let mut count: usize = 0;
        let mut last: usize = 0;
        let ghost wanted = self.selected(host, text_option(*target));
        let ghost mut found: Set<Seq<char>> = Set::empty();
        for i in 0..total
            invariant
                total == self.sessions.size(),
                self.sessions.indexed(),
                wanted == self.selected(host, text_option(*target)),
                found.finite(),
                found.len() == count,
                count <= i,
                forall|k: Seq<char>| #[trigger]
                    found.contains(k) <==> wanted.contains(k) && exists|j: int|
                        0 <= j < i && #[trigger] self.sessions.key(j) == k,
                count > 0 ==> last < i && wanted.contains(self.sessions.key(last as int)),
        {
            let entry = self.sessions.at(i);
            let session = &entry.value;
            let fits = match target {
                Some(target) => same_text(target.as_str(), session.target.as_str()),
                None => true,
            };
            let ghost key = self.sessions.key(i as int);
            let ghost before = found;
            if session.capabilities.host == host && fits {
                proof {
                    assert(wanted.contains(key));
                    if before.contains(key) {
                        let j = choose|j: int| 0 <= j < i && #[trigger] self.sessions.key(j) == key;
                        assert(false);
                    }
                    found = before.insert(key);
                }
                count += 1;
                last = i;
            } else {
                assert(!wanted.contains(key));
            }
            assert forall|k: Seq<char>| #[trigger]
                found.contains(k) <==> wanted.contains(k) && exists|j: int|
                    0 <= j < i + 1 && #[trigger] self.sessions.key(j) == k by {
                if found.contains(k) {
                    if k == key {
                        assert(self.sessions.key(i as int) == k);
                    } else {
                        assert(before.contains(k));
                    }
                }
                if wanted.contains(k) && exists|j: int|
                    0 <= j < i + 1 && #[trigger] self.sessions.key(j) == k {
                    let j = choose|j: int| 0 <= j < i + 1 && #[trigger] self.sessions.key(j) == k;
                    if j < i {
                        assert(before.contains(k));
                    }
                }
            }
        }
        assert(found =~= wanted);
        (count, last)
    }

    /// The identity that a query asks for.
    pub fn runtime_identity(&self, query: &RuntimeIdentityQuery) -> (r: Result<
        RuntimeIdentityAttestation,
        RpcErrorResponse,
    >)
        ensures
            match r {
                Ok(attestation) => self.identity_answer(*query) == Ok::<
                    RuntimeIdentityAttestationModel,
                    ErrorModel,
                >(attestation@),
                Err(e) => self.identity_answer(*query) == Err::<
                    RuntimeIdentityAttestationModel,
                    ErrorModel,
                >(e@),
            },
    {
        match &query.target {
            Some(target) => {
                if !is_bounded_identifier(target.as_str(), 128) {
                    return Err(
                        field_fault(
                            ERROR_INVALID_REQUEST,
                            "runtime identity target is invalid",
                            "target",
                        ),
                    );
                }
            },
            None => {},
        }
        match &query.expected {
            Some(expected) => match validate_runtime_identity_shape(expected) {
                Ok(()) => {},
                Err(e) => {
                    return Err(e);
                },
            },
            None => {},
        }
        let (count, position) = self.count_selected(query.host, &query.target);
        if count == 0 {
            let mut data = ObjectBuilder::new();
            data.put_text("host", query.host.as_str());
            let mut fields: Vec<String> = Vec::new();
            fields.push("bridge.session".to_owned());
            assert(texts(fields@) =~= seq!["bridge.session"@]);
            data.put("missingFields", text_list(&fields));
            return Err(
                identity_error(
                    ERROR_IDENTITY_UNAVAILABLE,
                    "runtime identity is unavailable for the selected host target",
                    data.finish(),
                ),
            );
        }
        if count != 1 {
            let mut data = ObjectBuilder::new();
            data.put_text("host", query.host.as_str());
            data.put("matchCount", number(count as u128));
            return Err(
                identity_error(
                    ERROR_IDENTITY_AMBIGUOUS,
                    "multiple runtime identities match; select an exact target",
                    data.finish(),
                ),
            );
        }
        let entry = self.sessions.at(position);
        proof {
            let matching = self.selected(query.host, text_option(query.target));
            let chosen = matching.choose();
            assert(matching.contains(chosen));
            if chosen != entry.key@ {
                assert(matching.remove(chosen).contains(entry.key@));
                assert(matching.remove(chosen).len() == 0);
                assert(false);
            }
        }
        let claim = match self.session_identities.get(entry.key.as_str()) {
            Some(claim) => Some(claim.clone()),
            None => None,
        };
        let actual = match complete_runtime_identity(
            self.broker_identity.clone(),
            &entry.value,
            &claim,
        ) {
            Ok(actual) => actual,
            Err(e) => {
                return Err(e);
            },
        };
        match &query.expected {
            Some(expected) => match validate_expected_identity(&actual, expected) {
                Ok(()) => {},
                Err(e) => {
                    return Err(e);
                },
            },
            None => {},
        }
        Ok(actual)
    }
}

} // verus!
