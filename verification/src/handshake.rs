//! How a bridge connects: the token, the one-time binding to a bootstrap in
//! progress, and the registration of the session.
use vstd::prelude::*;

use crate::bootstrap::BootstrapGrant;
use crate::bootstrap_types::PhotoshopBootstrapRequest;
use crate::broker::{next_counter, BrokerState};
use crate::checks::{normalized_paths_equal, paths_equal};
use crate::identity::{
    claim_fault, field_error, field_fault, identity_error, validate_bridge_identity_claim,
};
use crate::json::{object1, text_list, texts_json, ObjectBuilder};
use crate::protocol::{
    data_error, plain_error, session_key, session_key_text, BridgeKind, BridgeSessionInfo,
    Capabilities, ErrorModel, HostKind, RpcErrorResponse, DEFAULT_TARGET, ERROR_IDENTITY_MISMATCH,
    ERROR_IDENTITY_STALE, ERROR_IDENTITY_UNAVAILABLE, ERROR_INVALID_REQUEST, ERROR_UNAUTHORIZED,
};
use crate::receipts::ObservedHostProcess;
use crate::runtime::{BridgeIdentityClaim, BridgeInbound, HostIdentityClaim};
use crate::text::{text_option, texts};

verus! {

/// How long a bridge waits for the bootstrap that it names.
pub const BINDING_WAIT_MS: u64 = 2_000;

/// How long a waiting bridge pauses before it looks again.
pub const BINDING_PAUSE_MS: u64 = 10;

/// A bridge whose claim is settled and that can be registered.
#[derive(Debug)]
pub struct BoundHandshake {
    pub target: String,
    pub capabilities: Capabilities,
    pub identity: Option<BridgeIdentityClaim>,
}

/// A Photoshop bridge that has presented a nonce while a bootstrap is in
/// progress for its target.
#[derive(Debug)]
pub struct WaitingHandshake {
    pub target: String,
    pub capabilities: Capabilities,
    pub identity: Option<BridgeIdentityClaim>,
    pub nonce: String,
}

/// A waiting bridge with the bootstrap that its nonce belongs to.
#[derive(Debug)]
pub struct CheckingHandshake {
    pub waiting: WaitingHandshake,
    pub request: PhotoshopBootstrapRequest,
    pub observed: ObservedHostProcess,
}

/// What becomes of the first message of a bridge.
#[derive(Debug)]
pub enum Opening {
    /// The message is no greeting; the connection is closed without an answer.
    Ignored,
    Refused(RpcErrorResponse),
    Bound(BoundHandshake),
    Waiting(WaitingHandshake),
}

/// Whether the bootstrap that a waiting bridge names is ready for it.
#[derive(Debug)]
pub enum BindingPoll {
    Wait(WaitingHandshake),
    Check(CheckingHandshake),
    Refused(RpcErrorResponse),
}

/// The session that a bridge was registered under.
#[derive(Debug)]
pub struct Registration {
    pub key: String,
    pub connection_id: u64,
}

/// The target that a greeting names.
pub open spec fn hello_target(target: Option<String>) -> Seq<char> {
    match target {
        Some(target) => target@,
        None => DEFAULT_TARGET@,
    }
}

/// The grant's nonce is the given one and its host process has been seen.
pub open spec fn grant_ready(
    grants: Map<Seq<char>, BootstrapGrant>,
    key: Seq<char>,
    nonce: Seq<char>,
) -> bool {
    grants.dom().contains(key) && grants[key].nonce@ == nonce && grants[key].observed is Some
}

/// The error for a nonce that no longer stands for a bootstrap.
pub open spec fn nonce_error(code: i32, message: Seq<char>) -> ErrorModel {
    field_error(code, message, "bootstrapNonce"@)
}

/// An error that names one missing field.
pub open spec fn one_missing(message: Seq<char>, field: Seq<char>) -> ErrorModel {
    data_error(
        ERROR_IDENTITY_UNAVAILABLE,
        message,
        object1("missingFields"@, texts_json(seq![field])),
    )
}

fn one_missing_error(message: &str, field: &str) -> (r: RpcErrorResponse)
    ensures
        r@ == one_missing(message@, field@),
{
    let mut fields: Vec<String> = Vec::new();
    fields.push(field.to_owned());
    assert(texts(fields@) =~= seq![field@]);
    let mut data = ObjectBuilder::new();
    data.put("missingFields", text_list(&fields));
    assert(data@ =~= object1("missingFields"@, texts_json(seq![field@]))->Object_0);
    identity_error(ERROR_IDENTITY_UNAVAILABLE, message, data.finish())
}

/// The host part of a claim agrees, as far as it goes, with the observed
/// process and the requested profile.
pub open spec fn host_agrees(
    claim: BridgeIdentityClaim,
    request: PhotoshopBootstrapRequest,
    observed: ObservedHostProcess,
) -> bool {
    &&& claim.host.pid is None || claim.host.pid == Some(observed.pid)
    &&& claim.host.process_start_identity is None || claim.host.process_start_identity->0@
        == observed.process_start_identity@
    &&& claim.host.executable_path is None || paths_equal(
        claim.host.executable_path->0@,
        observed.executable_path@,
    )
    &&& claim.host.profile_id is Some && claim.host.profile_id->0@ == request.host.profile_id@
}

/// The bridge part of a claim and the capabilities are the requested ones.
pub open spec fn bridge_agrees(
    claim: BridgeIdentityClaim,
    capabilities: Capabilities,
    request: PhotoshopBootstrapRequest,
) -> bool {
    &&& claim.bridge.installed_plugin_root is Some && paths_equal(
        claim.bridge.installed_plugin_root->0@,
        request.plugin.installed_plugin_root@,
    )
    &&& claim.bridge.module_origin is Some && paths_equal(
        claim.bridge.module_origin->0@,
        request.plugin.module_origin@,
    )
    &&& capabilities.bridge_kind == BridgeKind::Uxp
    &&& capabilities.bridge_version@ == request.plugin.bridge_version@
    &&& text_option(capabilities.host_version) == Some(request.host.host_version@)
}

/// Why a bridge cannot be bound to a bootstrap, the nonce apart.
pub open spec fn binding_fault(checking: CheckingHandshake, process_live: bool) -> Option<ErrorModel> {
    let waiting = checking.waiting;
    if !process_live {
        Some(
            field_error(
                ERROR_IDENTITY_STALE,
                "selected Photoshop process identity changed before bridge connection"@,
                "host.processStartIdentity"@,
            ),
        )
    } else if waiting.identity is None {
        Some(
            one_missing("Photoshop UXP bridge omitted its plugin identity"@, "identity.bridge"@),
        )
    } else if waiting.identity->0.host.profile_id is None {
        Some(
            one_missing(
                "Photoshop bootstrap connection omitted its host profile identity"@,
                "identity.host.profileId"@,
            ),
        )
    } else if !host_agrees(waiting.identity->0, checking.request, checking.observed)
        || !bridge_agrees(waiting.identity->0, waiting.capabilities, checking.request) {
        Some(
            field_error(
                ERROR_IDENTITY_MISMATCH,
                "Photoshop bootstrap connection is foreign or mismatched"@,
                "runtimeIdentity"@,
            ),
        )
    } else {
        None
    }
}

/// The claim of a bound bridge: what the operating system showed of the host
/// process stands in place of what the bridge said of it.
pub open spec fn bound_claim(
    claim: BridgeIdentityClaim,
    request: PhotoshopBootstrapRequest,
    observed: ObservedHostProcess,
) -> BridgeIdentityClaim {
    BridgeIdentityClaim {
        host: HostIdentityClaim {
            pid: Some(observed.pid),
            process_start_identity: Some(observed.process_start_identity),
            executable_path: Some(observed.executable_path),
            host_version: Some(request.host.host_version),
            profile_id: claim.host.profile_id,
        },
        bridge: claim.bridge,
    }
}

fn host_matches(
    claim: &BridgeIdentityClaim,
    request: &PhotoshopBootstrapRequest,
    observed: &ObservedHostProcess,
) -> (r: bool)
    ensures
        r == host_agrees(*claim, *request, *observed),
{
    let pid = match claim.host.pid {
        Some(pid) => pid == observed.pid,
        None => true,
    };
    let start = match &claim.host.process_start_identity {
        Some(value) => *value == observed.process_start_identity,
        None => true,
    };
    let executable = match &claim.host.executable_path {
        Some(value) => normalized_paths_equal(value.as_str(), observed.executable_path.as_str()),
        None => true,
    };
    let profile = match &claim.host.profile_id {
        Some(value) => *value == request.host.profile_id,
        None => false,
    };
    pid && start && executable && profile
}

fn bridge_matches(
    claim: &BridgeIdentityClaim,
    capabilities: &Capabilities,
    request: &PhotoshopBootstrapRequest,
) -> (r: bool)
    ensures
        r == bridge_agrees(*claim, *capabilities, *request),
{
    let root = match &claim.bridge.installed_plugin_root {
        Some(value) => normalized_paths_equal(
            value.as_str(),
            request.plugin.installed_plugin_root.as_str(),
        ),
        None => false,
    };
    let module = match &claim.bridge.module_origin {
        Some(value) => normalized_paths_equal(
            value.as_str(),
            request.plugin.module_origin.as_str(),
        ),
        None => false,
    };
    let version = match &capabilities.host_version {
        Some(value) => *value == request.host.host_version,
        None => false,
    };
    root && module && version && capabilities.bridge_kind == BridgeKind::Uxp
        && capabilities.bridge_version == request.plugin.bridge_version
}

impl BrokerState {
    /// What becomes of a greeting.
    pub open spec fn opening_fault(self, expected_host: HostKind, hello: BridgeInbound) -> Option<
        ErrorModel,
    > {
        let capabilities = hello->capabilities;
        let nonce = hello->bootstrap_nonce;
        let key = session_key_text(HostKind::Photoshop, hello_target(hello->target));
        if self.token@.len() > 0 && hello->token@ != self.token@ {
            Some(plain_error(None, ERROR_UNAUTHORIZED, "invalid bridge token"@))
        } else if capabilities.host != expected_host {
            Some(plain_error(None, ERROR_INVALID_REQUEST, "bridge host mismatch"@))
        } else if capabilities.host != HostKind::Photoshop {
            if nonce is Some {
                Some(
                    field_error(
                        ERROR_IDENTITY_MISMATCH,
                        "Photoshop bootstrap nonce was presented by a foreign host"@,
                        "host"@,
                    ),
                )
            } else {
                None
            }
        } else if !self.bootstrap_grants@.dom().contains(key) {
            if nonce is Some {
                Some(
                    nonce_error(ERROR_IDENTITY_STALE, "Photoshop bootstrap nonce is stale"@),
                )
            } else {
                None
            }
        } else if nonce is None {
            Some(
                nonce_error(
                    ERROR_IDENTITY_MISMATCH,
                    "Photoshop bootstrap connection omitted its one-time binding"@,
                ),
            )
        } else {
            None
        }
    }

    /// What comes of the first message of a bridge.
    pub open spec fn opened(self, expected_host: HostKind, message: BridgeInbound, r: Opening) -> bool {
        match r {
            Opening::Ignored => !(message is Hello),
            Opening::Refused(e) => message is Hello && self.opening_fault(
                expected_host,
                message,
            ) == Some(e@),
            Opening::Bound(bound) => {
                &&& message is Hello
                &&& self.opening_fault(expected_host, message) is None
                &&& message->bootstrap_nonce is None
                &&& bound.target@ == hello_target(message->target)
                &&& bound.capabilities == message->capabilities
                &&& bound.capabilities.host == expected_host
                &&& bound.identity == message->identity
            },
            Opening::Waiting(waiting) => {
                &&& message is Hello
                &&& self.opening_fault(expected_host, message) is None
                &&& message->bootstrap_nonce is Some
                &&& waiting.target@ == hello_target(message->target)
                &&& waiting.capabilities == message->capabilities
                &&& waiting.capabilities.host == HostKind::Photoshop
                &&& waiting.identity == message->identity
                &&& waiting.nonce == message->bootstrap_nonce->0
            },
        }
    }

    /// Takes in the first message of a bridge. A Photoshop bridge that
    /// connects while a bootstrap is in progress for its target has to wait
    /// for its binding; every other bridge is bound as it stands.
    pub fn open_handshake(&self, expected_host: HostKind, message: BridgeInbound) -> (r: Opening)
        ensures
            self.opened(expected_host, message, r),
    {
        let (token, target, capabilities, identity, bootstrap_nonce) = match message {
            BridgeInbound::Hello { token, target, capabilities, identity, bootstrap_nonce } => (
                token,
                target,
                capabilities,
                identity,
                bootstrap_nonce,
            ),
            _ => {
                return Opening::Ignored;
            },
        };
        if !self.token.as_str().is_empty() && token != self.token {
            return Opening::Refused(
                RpcErrorResponse::new(None, ERROR_UNAUTHORIZED, "invalid bridge token"),
            );
        }
        if capabilities.host != expected_host {
            return Opening::Refused(
                RpcErrorResponse::new(None, ERROR_INVALID_REQUEST, "bridge host mismatch"),
            );
        }
        let target = match target {
            Some(target) => target,
            None => DEFAULT_TARGET.to_owned(),
        };
        if capabilities.host != HostKind::Photoshop {
            if bootstrap_nonce.is_some() {
                return Opening::Refused(
                    field_fault(
                        ERROR_IDENTITY_MISMATCH,
                        "Photoshop bootstrap nonce was presented by a foreign host",
                        "host",
                    ),
                );
            }
            return Opening::Bound(BoundHandshake { target, capabilities, identity });
        }
        let key = session_key(HostKind::Photoshop, target.as_str());
        if !self.bootstrap_grants.contains(key.as_str()) {
            if bootstrap_nonce.is_some() {
                return Opening::Refused(
                    field_fault(
                        ERROR_IDENTITY_STALE,
                        "Photoshop bootstrap nonce is stale",
                        "bootstrapNonce",
                    ),
                );
            }
            return Opening::Bound(BoundHandshake { target, capabilities, identity });
        }
        match bootstrap_nonce {
            Some(nonce) => Opening::Waiting(
                WaitingHandshake { target, capabilities, identity, nonce },
            ),
            None => Opening::Refused(
                field_fault(
                    ERROR_IDENTITY_MISMATCH,
                    "Photoshop bootstrap connection omitted its one-time binding",
                    "bootstrapNonce",
                ),
            ),
        }
    }

    /// What comes of a look for the bootstrap that a waiting bridge names.
    pub open spec fn polled(self, waiting: WaitingHandshake, elapsed_ms: u64, r: BindingPoll) -> bool {
        let key = session_key_text(HostKind::Photoshop, waiting.target@);
        let grants = self.bootstrap_grants@;
        if grant_ready(grants, key, waiting.nonce@) {
            r == BindingPoll::Check(
                CheckingHandshake {
                    waiting,
                    request: grants[key].request,
                    observed: grants[key].observed->0,
                },
            )
        } else if elapsed_ms >= BINDING_WAIT_MS {
            r is Refused && r->Refused_0@ == nonce_error(
                ERROR_IDENTITY_STALE,
                "Photoshop bootstrap binding is stale or incomplete"@,
            )
        } else {
            r == BindingPoll::Wait(waiting)
        }
    }

    /// Looks for the bootstrap that a waiting bridge names, `elapsed_ms` after
    /// the bridge began to wait. Until its host process has been seen the
    /// bridge waits on, but not longer than it may.
    pub fn poll_handshake(&self, waiting: WaitingHandshake, elapsed_ms: u64) -> (r: BindingPoll)
        ensures
            self.polled(waiting, elapsed_ms, r),
    {
        let key = session_key(HostKind::Photoshop, waiting.target.as_str());
        match self.bootstrap_grants.get(key.as_str()) {
            Some(grant) => {
                if grant.nonce == waiting.nonce {
                    match &grant.observed {
                        Some(observed) => {
                            return BindingPoll::Check(
                                CheckingHandshake {
                                    waiting,
                                    request: grant.request.clone(),
                                    observed: observed.clone(),
                                },
                            );
                        },
                        None => {},
                    }
                }
            },
            None => {},
        }
        if elapsed_ms >= BINDING_WAIT_MS {
            return BindingPoll::Refused(
                field_fault(
                    ERROR_IDENTITY_STALE,
                    "Photoshop bootstrap binding is stale or incomplete",
                    "bootstrapNonce",
                ),
            );
        }
        BindingPoll::Wait(waiting)
    }

    /// The nonce is that of the bootstrap in progress and has not been used.
    pub open spec fn nonce_unused(self, key: Seq<char>, nonce: Seq<char>) -> bool {
        let grants = self.bootstrap_grants@;
        grants.dom().contains(key) && grants[key].nonce@ == nonce && !grants[key].nonce_claimed
    }

    /// What binding a bridge does: it is refused and nothing changes, or its
    /// nonce is used up and its claim is settled.
    pub open spec fn bound(
        pre: BrokerState,
        post: BrokerState,
        checking: CheckingHandshake,
        process_live: bool,
        r: Result<BoundHandshake, RpcErrorResponse>,
    ) -> bool {
        let waiting = checking.waiting;
        let key = session_key_text(HostKind::Photoshop, waiting.target@);
        let grants = pre.bootstrap_grants@;
        let fault = binding_fault(checking, process_live);
        &&& post == (BrokerState { bootstrap_grants: post.bootstrap_grants, ..pre })
        &&& match r {
            Err(e) => post.bootstrap_grants@ == grants && if fault is Some {
                fault == Some(e@)
            } else {
                !pre.nonce_unused(key, waiting.nonce@) && e@ == nonce_error(
                    ERROR_IDENTITY_STALE,
                    "Photoshop bootstrap nonce was already consumed"@,
                )
            },
            Ok(bound) => {
                &&& fault is None
                &&& pre.nonce_unused(key, waiting.nonce@)
                &&& bound == (BoundHandshake {
                    target: waiting.target,
                    capabilities: waiting.capabilities,
                    identity: Some(
                        bound_claim(waiting.identity->0, checking.request, checking.observed),
                    ),
                })
                &&& post.bootstrap_grants@ == grants.insert(
                    key,
                    BootstrapGrant { nonce_claimed: true, ..grants[key] },
                )
            },
        }
    }

    /// Binds a bridge to the bootstrap that its nonce belongs to. The nonce is
    /// used up only where everything else agrees.
    pub fn bind_photoshop_bootstrap_claim(
        &mut self,
        checking: CheckingHandshake,
        process_live: bool,
    ) -> (r: Result<BoundHandshake, RpcErrorResponse>)
        ensures
            Self::bound(*old(self), *final(self), checking, process_live, r),
    {
        if !process_live {
            return Err(
                field_fault(
                    ERROR_IDENTITY_STALE,
                    "selected Photoshop process identity changed before bridge connection",
                    "host.processStartIdentity",
                ),
            );
        }
        let CheckingHandshake { waiting, request, observed } = checking;
        let WaitingHandshake { target, capabilities, identity, nonce } = waiting;
        let claim = match identity {
            Some(claim) => claim,
            None => {
                return Err(
                    one_missing_error(
                        "Photoshop UXP bridge omitted its plugin identity",
                        "identity.bridge",
                    ),
                );
            },
        };
        if claim.host.profile_id.is_none() {
            return Err(
                one_missing_error(
                    "Photoshop bootstrap connection omitted its host profile identity",
                    "identity.host.profileId",
                ),
            );
        }
        if !host_matches(&claim, &request, &observed) || !bridge_matches(
            &claim,
            &capabilities,
            &request,
        ) {
            return Err(
                field_fault(
                    ERROR_IDENTITY_MISMATCH,
                    "Photoshop bootstrap connection is foreign or mismatched",
                    "runtimeIdentity",
                ),
            );
        }
        let key = session_key(HostKind::Photoshop, target.as_str());
        let unused = match self.bootstrap_grants.get(key.as_str()) {
            Some(grant) => grant.nonce == nonce && !grant.nonce_claimed,
            None => false,
        };
        if !unused {
            return Err(
                field_fault(
                    ERROR_IDENTITY_STALE,
                    "Photoshop bootstrap nonce was already consumed",
                    "bootstrapNonce",
                ),
            );
        }
        match self.bootstrap_grants.remove(key.as_str()) {
            Some(grant) => {
                self.bootstrap_grants.insert(key, BootstrapGrant { nonce_claimed: true, ..grant });
            },
            None => {},
        }
        assert(self.bootstrap_grants@ =~= old(self).bootstrap_grants@.insert(
            key@,
            BootstrapGrant { nonce_claimed: true, ..old(self).bootstrap_grants@[key@] },
        ));
        Ok(
            BoundHandshake {
                target,
                capabilities,
                identity: Some(
                    BridgeIdentityClaim {
                        host: HostIdentityClaim {
                            pid: Some(observed.pid),
                            process_start_identity: Some(observed.process_start_identity),
                            executable_path: Some(observed.executable_path),
                            host_version: Some(request.host.host_version),
                            profile_id: claim.host.profile_id,
                        },
                        bridge: claim.bridge,
                    },
                ),
            },
        )
    }

    /// What registering a bridge does.
    pub open spec fn registered(
        pre: BrokerState,
        post: BrokerState,
        bound: BoundHandshake,
        epoch_ms: u128,
        r: Result<Registration, RpcErrorResponse>,
    ) -> bool {
        match r {
            Err(e) => claim_fault(bound.target@, bound.capabilities, bound.identity) == Some(
                e@,
            ) && post == pre,
            Ok(registration) => {
                let key = session_key_text(bound.capabilities.host, bound.target@);
                &&& claim_fault(bound.target@, bound.capabilities, bound.identity) is None
                &&& registration.key@ == key
                &&& registration.connection_id == pre.next_connection_id
                &&& post.next_connection_id == next_counter(pre.next_connection_id)
                &&& post.sessions@ == pre.sessions@.insert(
                    key,
                    BridgeSessionInfo {
                        target: bound.target,
                        capabilities: bound.capabilities,
                        connected_at_epoch_ms: epoch_ms,
                    },
                )
                &&& post.session_identities@ == match bound.identity {
                    Some(claim) => pre.session_identities@.insert(key, claim),
                    None => pre.session_identities@.remove(key),
                }
                &&& post.bridge_senders@ == pre.bridge_senders@.insert(
                    key,
                    registration.connection_id,
                )
                &&& post == (BrokerState {
                    next_connection_id: post.next_connection_id,
                    sessions: post.sessions,
                    session_identities: post.session_identities,
                    bridge_senders: post.bridge_senders,
                    ..pre
                })
            },
        }
    }

    /// Registers a bridge under a new connection. It takes the place of an
    /// earlier connection of the same session.
    pub fn register_bridge(&mut self, bound: BoundHandshake, epoch_ms: u128) -> (r: Result<
        Registration,
        RpcErrorResponse,
    >)
        ensures
            Self::registered(*old(self), *final(self), bound, epoch_ms, r),
            old(self).sessions_keyed() ==> final(self).sessions_keyed(),
    {
        match validate_bridge_identity_claim(
            bound.target.as_str(),
            &bound.capabilities,
            &bound.identity,
        ) {
            Ok(()) => {},
            Err(e) => {
                return Err(e);
            },
        }
        let key = session_key(bound.capabilities.host, bound.target.as_str());
        let connection_id: u64 = self.next_connection_id();
        self.sessions.insert(
            key.clone(),
            BridgeSessionInfo {
                target: bound.target,
                capabilities: bound.capabilities,
                connected_at_epoch_ms: epoch_ms,
            },
        );
        match bound.identity {
            Some(claim) => {
                self.session_identities.insert(key.clone(), claim);
            },
            None => {
                let _ = self.session_identities.remove(key.as_str());
            },
        }
        self.bridge_senders.insert(key.clone(), connection_id);
        Ok(Registration { key, connection_id })
    }

    /// A number for a new connection.
    pub fn next_connection_id(&mut self) -> (r: u64)
        ensures
            r == old(self).next_connection_id,
            *final(self) == (BrokerState {
                next_connection_id: next_counter(old(self).next_connection_id),
                ..*old(self)
            }),
    {
        let id: u64 = self.next_connection_id;
        self.next_connection_id = if id == u64::MAX {
            0
        } else {
            id + 1
        };
        id
    }
}

} // verus!
