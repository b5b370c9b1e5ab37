//! Calls through the broker and the identities of connected bridges.
use adobepy::broker::{BrokerState, DispatchOutcome};
use adobepy::handshake::{BoundHandshake, Opening};
use adobepy::identity::{
    complete_runtime_identity, identity_fingerprint, validate_bridge_identity_claim,
    validate_expected_identity, validate_runtime_identity_shape,
};
use adobepy::checks::{is_bounded_start_identity, normalized_absolute_path};
use adobepy::json::{to_text, JsonValue};
use adobepy::protocol::{
    session_key, BridgeKind, BridgeSessionInfo, Capabilities, HostKind, RequestId, RpcErrorResponse,
    RpcOptions, RpcRequest, RpcResponse, DEFAULT_TARGET, ERROR_BRIDGE_NOT_INSTALLED,
    ERROR_CAPABILITY, ERROR_HOST_SCRIPT, ERROR_IDENTITY_AMBIGUOUS, ERROR_IDENTITY_MISMATCH,
    ERROR_IDENTITY_STALE, ERROR_IDENTITY_UNAVAILABLE, ERROR_INVALID_REQUEST, ERROR_TIMEOUT,
    ERROR_UNAUTHORIZED, JSONRPC_VERSION,
};
use adobepy::runtime::{
    BridgeIdentityClaim, BridgeInbound, BridgeInstanceClaim, BrokerRuntimeIdentity,
    HostIdentityClaim, RuntimeIdentityQuery,
};
use adobepy::settings::{
    capture_broker_identity, photoshop_websocket_url, serialization_error_text, BindAddress,
    UNAUTHORIZED_MESSAGE,
};
use adobepy::table::Table;

fn broker_identity() -> BrokerRuntimeIdentity {
    capture_broker_identity(
        4100,
        "linux:76db1078-74c9-45c1-87e1-e8258649815e:77".into(),
        "/opt/adobepy/adobepy".into(),
        "0.8.0".into(),
    )
    .expect("capture test broker identity")
}

fn state() -> BrokerState {
    let address = BindAddress::V4 { a: 127, b: 0, c: 0, d: 1 };
    BrokerState::new(
        "t".into(),
        1,
        broker_identity(),
        photoshop_websocket_url(address, 0).unwrap(),
    )
}

fn request() -> RpcRequest {
    RpcRequest {
        jsonrpc: JSONRPC_VERSION.into(),
        id: RequestId::from_string("x"),
        host: HostKind::Photoshop,
        target: Some(DEFAULT_TARGET.into()),
        namespace: "app".into(),
        method: "getVersion".into(),
        args: vec![],
        options: RpcOptions::default(),
    }
}

fn caps() -> Capabilities {
    let mut methods = Table::new();
    methods.insert("app".into(), vec!["getVersion".into()]);
    Capabilities {
        host: HostKind::Photoshop,
        bridge_kind: BridgeKind::Uxp,
        bridge_version: "0.1.0".into(),
        host_version: Some("26.5.1".into()),
        namespaces: vec!["app".into()],
        features: vec![],
        methods,
    }
}

fn session(target: &str, connected_at_epoch_ms: u128) -> BridgeSessionInfo {
    BridgeSessionInfo { target: target.into(), capabilities: caps(), connected_at_epoch_ms }
}

fn connect(state: &mut BrokerState, connection_id: u64) -> String {
    let key = session_key(HostKind::Photoshop, DEFAULT_TARGET);
    state.bridge_senders.insert(key.clone(), connection_id);
    state.sessions.insert(key.clone(), session(DEFAULT_TARGET, 1));
    key
}

fn identity_claim() -> BridgeIdentityClaim {
    BridgeIdentityClaim {
        host: HostIdentityClaim {
            pid: Some(4200),
            process_start_identity: Some("windows:133700000000000100".into()),
            executable_path: Some("C:/Adobe/Photoshop.exe".into()),
            host_version: Some("26.5.1".into()),
            profile_id: Some("profile-production".into()),
        },
        bridge: BridgeInstanceClaim {
            instance_id: Some("9d31eb71-26cb-4c87-8b5a-4cadcc8e2f99".into()),
            installed_plugin_root: Some("C:/UXP/External/com.adobepy.bridge.photoshop".into()),
            module_origin: Some("C:/UXP/External/com.adobepy.bridge.photoshop/dist/main.js".into()),
        },
    }
}

fn insert_identity_session(
    state: &mut BrokerState,
    target: &str,
    connected_at_epoch_ms: u128,
    identity: Option<BridgeIdentityClaim>,
) {
    let key = session_key(HostKind::Photoshop, target);
    state.sessions.insert(key.clone(), session(target, connected_at_epoch_ms));
    if let Some(identity) = identity {
        state.session_identities.insert(key, identity);
    }
}

fn identity_query(target: Option<&str>) -> RuntimeIdentityQuery {
    RuntimeIdentityQuery {
        host: HostKind::Photoshop,
        target: target.map(str::to_owned),
        expected: None,
    }
}

fn data_of(error: &RpcErrorResponse) -> serde_json::Value {
    serde_json::from_str(&to_text(error.error.data.as_ref().unwrap())).unwrap()
}

#[test]
fn endpoints_and_dispatch_errors() {
    let mut state = state();
    let health: serde_json::Value = serde_json::from_str(&to_text(&state.health())).unwrap();
    assert_eq!(health["status"], "ok");
    assert_eq!(health["sessions"], 0);
    assert_eq!(health["protocol"], "jsonrpc-2.0");
    assert!(!state.authorized(None));
    assert!(!state.authorized(Some("")));
    assert!(!state.authorized(Some("tt")));
    assert!(state.authorized(Some("t")));
    let error = state.begin_dispatch(request()).unwrap_err();
    assert_eq!(error.error.code, ERROR_BRIDGE_NOT_INSTALLED);

    let mut invalid = request();
    invalid.jsonrpc = "1.0".into();
    let error = state.begin_dispatch(invalid).unwrap_err();
    assert_eq!(error.error.code, ERROR_INVALID_REQUEST);
}

#[test]
fn dispatch_roundtrip_restores_id() {
    let mut state = state();
    connect(&mut state, 1);
    let dispatch = state.begin_dispatch(request()).unwrap();
    assert_eq!(dispatch.connection_id, 1);
    assert_eq!(dispatch.timeout_ms, 1);
    assert_ne!(dispatch.request.id, RequestId::from_string("x"));
    let delivery = state
        .handle_bridge_message(BridgeInbound::Response {
            response: RpcResponse {
                jsonrpc: JSONRPC_VERSION.into(),
                id: dispatch.request.id,
                result: JsonValue::Text("ok".into()),
                diagnostics: None,
            },
        })
        .unwrap();
    assert_eq!(delivery.dispatch_id, dispatch.dispatch_id);
    let reply = state
        .finish_dispatch(
            &dispatch.dispatch_id,
            dispatch.original_id,
            dispatch.timeout_ms,
            DispatchOutcome::Replied(delivery.reply),
        )
        .unwrap();
    assert_eq!(reply.id, RequestId::from_string("x"));
    assert_eq!(reply.result, JsonValue::Text("ok".into()));
}

#[test]
fn dispatch_enforces_capabilities_and_timeout() {
    let mut state = state();
    connect(&mut state, 1);

    let mut missing = request();
    missing.method = "missing".into();
    let error = state.begin_dispatch(missing).unwrap_err();
    assert_eq!(error.error.code, ERROR_CAPABILITY);

    let dispatch = state.begin_dispatch(request()).unwrap();
    assert!(state.pending.contains(&dispatch.dispatch_id));
    let error = state
        .finish_dispatch(
            &dispatch.dispatch_id,
            dispatch.original_id,
            dispatch.timeout_ms,
            DispatchOutcome::TimedOut,
        )
        .unwrap_err();
    assert_eq!(error.error.code, ERROR_TIMEOUT);
    assert!(!state.pending.contains(&dispatch.dispatch_id));
}

#[test]
fn disconnect_drains_pending_requests_for_current_connection() {
    let mut state = state();
    let key = connect(&mut state, 7);
    let dispatch = state.begin_dispatch(request()).unwrap();
    assert_eq!(dispatch.connection_id, 7);
    let mut deliveries = state.disconnect_session(&key, 7, "bridge closed");
    assert_eq!(deliveries.len(), 1);
    let delivery = deliveries.pop().unwrap();
    assert_eq!(delivery.dispatch_id, dispatch.dispatch_id);
    let error = state
        .finish_dispatch(
            &dispatch.dispatch_id,
            dispatch.original_id,
            dispatch.timeout_ms,
            DispatchOutcome::Replied(delivery.reply),
        )
        .unwrap_err();
    assert_eq!(error.error.code, ERROR_BRIDGE_NOT_INSTALLED);
    assert_eq!(state.sessions.len(), 0);
}

#[test]
fn runtime_identity_requires_one_complete_selected_claim() {
    let mut state = state();
    let error = state.runtime_identity(&identity_query(Some(DEFAULT_TARGET))).unwrap_err();
    assert_eq!(error.error.code, ERROR_IDENTITY_UNAVAILABLE);

    insert_identity_session(&mut state, DEFAULT_TARGET, 10, None);
    let error = state.runtime_identity(&identity_query(Some(DEFAULT_TARGET))).unwrap_err();
    assert_eq!(error.error.code, ERROR_IDENTITY_UNAVAILABLE);

    let mut incomplete = identity_claim();
    incomplete.host.pid = None;
    state
        .session_identities
        .insert(session_key(HostKind::Photoshop, DEFAULT_TARGET), incomplete);
    let error = state.runtime_identity(&identity_query(Some(DEFAULT_TARGET))).unwrap_err();
    assert_eq!(error.error.code, ERROR_IDENTITY_UNAVAILABLE);
    assert_eq!(data_of(&error)["missingFields"][0], "host.pid");

    insert_identity_session(&mut state, "second", 11, Some(identity_claim()));
    let error = state.runtime_identity(&identity_query(None)).unwrap_err();
    assert_eq!(error.error.code, ERROR_IDENTITY_AMBIGUOUS);
}

#[test]
fn runtime_identity_detects_pid_reuse_foreign_target_and_shadowing() {
    let mut state = state();
    insert_identity_session(&mut state, "retouch", 1_720_000_000_000, Some(identity_claim()));
    let actual = state.runtime_identity(&identity_query(Some("retouch"))).unwrap();
    assert_eq!(actual.broker.pid, 4100);
    assert!(is_bounded_start_identity(&actual.broker.process_start_identity));
    assert!(normalized_absolute_path(&actual.broker.executable_path).is_some());
    assert_eq!(actual.host.pid, 4200);
    assert_eq!(actual.bridge.target, "retouch");
    assert!(!to_text(&actual.to_json()).contains("token"));

    let mut exact_query = identity_query(Some("retouch"));
    exact_query.expected = Some(actual.clone());
    assert_eq!(state.runtime_identity(&exact_query).unwrap(), actual);

    let mut stale = actual.clone();
    stale.host.process_start_identity = "windows:133700000000000101".into();
    let mut stale_query = identity_query(Some("retouch"));
    stale_query.expected = Some(stale);
    let error = state.runtime_identity(&stale_query).unwrap_err();
    assert_eq!(error.error.code, ERROR_IDENTITY_STALE);
    assert_eq!(data_of(&error)["field"], "host.processStartIdentity");

    let mut stale_connection = actual.clone();
    stale_connection.bridge.connected_at_epoch_ms += 1;
    let mut stale_connection_query = identity_query(Some("retouch"));
    stale_connection_query.expected = Some(stale_connection);
    let error = state.runtime_identity(&stale_connection_query).unwrap_err();
    assert_eq!(error.error.code, ERROR_IDENTITY_STALE);
    assert_eq!(data_of(&error)["field"], "bridge.connectedAtEpochMs");

    let mut wrong_executable = actual.clone();
    wrong_executable.host.executable_path = "C:/Foreign/Photoshop.exe".into();
    let mut wrong_executable_query = identity_query(Some("retouch"));
    wrong_executable_query.expected = Some(wrong_executable);
    let error = state.runtime_identity(&wrong_executable_query).unwrap_err();
    assert_eq!(error.error.code, ERROR_IDENTITY_MISMATCH);
    assert_eq!(data_of(&error)["field"], "host.executablePath");

    let mut shadowed = actual.clone();
    shadowed.bridge.module_origin =
        "C:/UXP/External/com.adobepy.bridge.photoshop/dist/shadow.js".into();
    let mut shadowed_query = identity_query(Some("retouch"));
    shadowed_query.expected = Some(shadowed);
    let error = state.runtime_identity(&shadowed_query).unwrap_err();
    assert_eq!(error.error.code, ERROR_IDENTITY_MISMATCH);
    assert_eq!(data_of(&error)["field"], "bridge.moduleOrigin");

    let mut wrong_profile = actual.clone();
    wrong_profile.host.profile_id = "foreign-profile".into();
    let mut wrong_profile_query = identity_query(Some("retouch"));
    wrong_profile_query.expected = Some(wrong_profile);
    let error = state.runtime_identity(&wrong_profile_query).unwrap_err();
    assert_eq!(error.error.code, ERROR_IDENTITY_MISMATCH);
    assert_eq!(data_of(&error)["field"], "host.profileId");

    let error = state.runtime_identity(&identity_query(Some("foreign"))).unwrap_err();
    assert_eq!(error.error.code, ERROR_IDENTITY_UNAVAILABLE);
}

#[test]
fn runtime_identity_rejects_unbounded_or_unowned_bridge_claims() {
    let mut shadowed = identity_claim();
    shadowed.bridge.module_origin = Some("C:/Foreign/dist/main.js".into());
    let error = validate_bridge_identity_claim("default", &caps(), &Some(shadowed)).unwrap_err();
    assert_eq!(error.error.code, ERROR_IDENTITY_MISMATCH);

    let mut unbounded = identity_claim();
    unbounded.host.profile_id = Some("x".repeat(257));
    let error = validate_bridge_identity_claim("default", &caps(), &Some(unbounded)).unwrap_err();
    assert_eq!(error.error.code, ERROR_INVALID_REQUEST);

    let mut version_mismatch = identity_claim();
    version_mismatch.host.host_version = Some("25.0".into());
    let error =
        validate_bridge_identity_claim("default", &caps(), &Some(version_mismatch)).unwrap_err();
    assert_eq!(error.error.code, ERROR_IDENTITY_MISMATCH);
}

#[test]
fn runtime_identity_endpoint_is_authenticated_and_secret_free() {
    let mut state = state();
    insert_identity_session(&mut state, "retouch", 1_720_000_000_000, Some(identity_claim()));
    assert!(state.authorized(Some("t")));
    let answer = state.runtime_identity(&identity_query(Some("retouch"))).unwrap();
    let response_text = to_text(&answer.to_json());
    assert!(!response_text.contains("token"));
    assert!(!response_text.contains("top-secret"));
    assert!(!state.authorized(None));
}

#[test]
fn a_broker_without_a_token_is_open() {
    let open = BrokerState::new(String::new(), 1, broker_identity(), "ws://".into());
    assert!(open.authorized(None));
    assert!(open.authorized(Some("anything")));
    assert_eq!(UNAUTHORIZED_MESSAGE, "invalid or missing x-adobepy-token header");
}

#[test]
fn every_request_fault_is_told() {
    let mut state = state();
    connect(&mut state, 1);
    let mut blank_namespace = request();
    blank_namespace.namespace = " \t".into();
    let mut blank_method = request();
    blank_method.method = "\u{2003}".into();
    for bad in [blank_namespace, blank_method] {
        let error = state.begin_dispatch(bad).unwrap_err();
        assert_eq!(error.error.code, ERROR_INVALID_REQUEST);
        assert_eq!(error.id, Some(RequestId::from_string("x")));
    }
    let mut unknown_namespace = request();
    unknown_namespace.namespace = "layers".into();
    let error = state.begin_dispatch(unknown_namespace).unwrap_err();
    assert_eq!(error.error.code, ERROR_CAPABILITY);
    assert_eq!(state.pending.len(), 0);
    let mut elsewhere = request();
    elsewhere.target = Some("elsewhere".into());
    let error = state.begin_dispatch(elsewhere).unwrap_err();
    assert_eq!(error.error.code, ERROR_BRIDGE_NOT_INSTALLED);
}

#[test]
fn a_request_may_name_its_own_timeout() {
    let mut state = state();
    connect(&mut state, 1);
    let mut patient = request();
    patient.options.timeout_ms = Some(250);
    let dispatch = state.begin_dispatch(patient).unwrap();
    assert_eq!(dispatch.timeout_ms, 250);
    let error = state
        .finish_dispatch(&dispatch.dispatch_id, dispatch.original_id, 250, DispatchOutcome::TimedOut)
        .unwrap_err();
    assert!(error.error.message.contains("250"));
}

#[test]
fn calls_in_flight_have_distinct_identifiers() {
    let mut state = state();
    connect(&mut state, 1);
    let first = state.begin_dispatch(request()).unwrap();
    let second = state.begin_dispatch(request()).unwrap();
    assert_ne!(first.dispatch_id, second.dispatch_id);
    assert_eq!(state.pending.len(), 2);
}

#[test]
fn a_failed_send_and_a_closed_channel_are_told_apart_from_a_reply() {
    let mut state = state();
    connect(&mut state, 1);
    let first = state.begin_dispatch(request()).unwrap();
    let error = state
        .finish_dispatch(&first.dispatch_id, first.original_id, 1, DispatchOutcome::SendFailed)
        .unwrap_err();
    assert_eq!(error.error.code, ERROR_BRIDGE_NOT_INSTALLED);
    assert_eq!(error.id, Some(RequestId::from_string("x")));
    let second = state.begin_dispatch(request()).unwrap();
    let error = state
        .finish_dispatch(&second.dispatch_id, second.original_id, 1, DispatchOutcome::Closed)
        .unwrap_err();
    assert_eq!(error.id, Some(RequestId::from_string("x")));
    assert_eq!(state.pending.len(), 0);
}

#[test]
fn an_identifier_is_not_used_again_after_its_call_has_ended() {
    let mut state = state();
    connect(&mut state, 1);
    let mut seen = Vec::new();
    for _ in 0..5 {
        let dispatch = state.begin_dispatch(request()).unwrap();
        assert!(!seen.contains(&dispatch.dispatch_id));
        seen.push(dispatch.dispatch_id.clone());
        let _ = state.finish_dispatch(
            &dispatch.dispatch_id,
            dispatch.original_id,
            1,
            DispatchOutcome::TimedOut,
        );
    }
    assert_eq!(seen, ["broker_1", "broker_2", "broker_3", "broker_4", "broker_5"]);
}

#[test]
fn a_second_answer_to_one_call_is_dropped() {
    let mut state = state();
    connect(&mut state, 1);
    let dispatch = state.begin_dispatch(request()).unwrap();
    let id = dispatch.request.id.clone();
    let mut error = RpcErrorResponse::new(Some(id.clone()), ERROR_HOST_SCRIPT, "boom");
    error.diagnostics = None;
    let first = state.handle_bridge_message(BridgeInbound::Error { error }).unwrap();
    let told = first.reply.unwrap_err();
    assert_eq!(told.error.code, ERROR_HOST_SCRIPT);
    assert_eq!(told.id, Some(RequestId::from_string("x")));
    let again = RpcErrorResponse::new(Some(id), ERROR_HOST_SCRIPT, "boom");
    assert!(state.handle_bridge_message(BridgeInbound::Error { error: again }).is_none());
    let nobody = RpcErrorResponse::new(None, ERROR_HOST_SCRIPT, "boom");
    assert!(state.handle_bridge_message(BridgeInbound::Error { error: nobody }).is_none());
}

#[test]
fn an_old_connection_cannot_end_a_new_session() {
    let mut state = state();
    let key = connect(&mut state, 8);
    let dispatch = state.begin_dispatch(request()).unwrap();
    assert!(state.disconnect_session(&key, 7, "bridge closed").is_empty());
    assert!(state.sessions.contains(&key));
    assert!(state.pending.contains(&dispatch.dispatch_id));
}

#[test]
fn a_bridge_hello_is_checked_before_it_is_bound() {
    let mut state = state();
    let hello = |token: &str, nonce: Option<&str>| BridgeInbound::Hello {
        token: token.into(),
        target: None,
        capabilities: caps(),
        identity: Some(identity_claim()),
        bootstrap_nonce: nonce.map(str::to_owned),
    };
    match state.open_handshake(HostKind::Photoshop, hello("wrong", None)) {
        Opening::Refused(error) => assert_eq!(error.error.code, ERROR_UNAUTHORIZED),
        other => panic!("{other:?}"),
    }
    match state.open_handshake(HostKind::Illustrator, hello("t", None)) {
        Opening::Refused(error) => assert_eq!(error.error.code, ERROR_INVALID_REQUEST),
        other => panic!("{other:?}"),
    }
    match state.open_handshake(HostKind::Photoshop, hello("t", Some("n"))) {
        Opening::Refused(error) => assert_eq!(error.error.code, ERROR_IDENTITY_STALE),
        other => panic!("{other:?}"),
    }
    let mut foreign = caps();
    foreign.host = HostKind::Illustrator;
    let message = BridgeInbound::Hello {
        token: "t".into(),
        target: None,
        capabilities: foreign,
        identity: None,
        bootstrap_nonce: Some("n".into()),
    };
    match state.open_handshake(HostKind::Illustrator, message) {
        Opening::Refused(error) => assert_eq!(error.error.code, ERROR_IDENTITY_MISMATCH),
        other => panic!("{other:?}"),
    }
    let reply = BridgeInbound::Error {
        error: RpcErrorResponse::new(None, ERROR_HOST_SCRIPT, "boom"),
    };
    assert!(matches!(state.open_handshake(HostKind::Photoshop, reply), Opening::Ignored));
    let bound = match state.open_handshake(HostKind::Photoshop, hello("t", None)) {
        Opening::Bound(bound) => bound,
        other => panic!("{other:?}"),
    };
    assert_eq!(bound.target, DEFAULT_TARGET);
    let first = state.register_bridge(bound, 5).unwrap();
    assert_eq!(first.key, "photoshop:default");
    assert_eq!(state.sessions.get(&first.key).unwrap().connected_at_epoch_ms, 5);
    assert_eq!(state.list_capabilities().len(), 1);
    let anonymous =
        BoundHandshake { target: DEFAULT_TARGET.into(), capabilities: caps(), identity: None };
    let second = state.register_bridge(anonymous, 6).unwrap();
    assert_ne!(second.connection_id, first.connection_id);
    assert!(state.session_identities.get(&second.key).is_none());
    assert_eq!(state.sessions.len(), 1);
    let mut broken = identity_claim();
    broken.bridge.instance_id = Some("00000000-0000-0000-0000-000000000000".into());
    let refused =
        BoundHandshake { target: "x".into(), capabilities: caps(), identity: Some(broken) };
    assert!(state.register_bridge(refused, 7).is_err());
    assert_eq!(state.sessions.len(), 1);
}

#[test]
fn a_complete_claim_becomes_an_identity_that_meets_itself() {
    let identity =
        complete_runtime_identity(broker_identity(), &session("retouch", 5), &Some(identity_claim()))
            .unwrap();
    assert!(validate_runtime_identity_shape(&identity).is_ok());
    assert!(validate_expected_identity(&identity, &identity).is_ok());
    assert_eq!(
        complete_runtime_identity(broker_identity(), &session("retouch", 5), &None)
            .unwrap_err()
            .error
            .code,
        ERROR_IDENTITY_UNAVAILABLE
    );
    let mut other = identity.clone();
    other.bridge.connected_at_epoch_ms = 6;
    assert_eq!(
        validate_expected_identity(&identity, &other).unwrap_err().error.code,
        ERROR_IDENTITY_STALE
    );
    assert_ne!(identity_fingerprint(&identity), identity_fingerprint(&other));
    let mut shapeless = identity.clone();
    shapeless.broker.instance_id = "not-a-uuid".into();
    assert!(validate_runtime_identity_shape(&shapeless).is_err());
}

#[test]
fn the_fingerprint_is_the_digest_of_the_identity_text() {
    let mut identity =
        complete_runtime_identity(broker_identity(), &session("retouch", 5), &Some(identity_claim()))
            .unwrap();
    identity.broker.instance_id = "76db1078-74c9-45c1-87e1-e8258649815e".into();
    let text = to_text(&identity.to_json());
    let digest = <sha2::Sha256 as sha2::Digest>::digest(text.as_bytes());
    assert_eq!(identity_fingerprint(&identity), format!("{digest:x}"));
    assert_eq!(identity_fingerprint(&identity).len(), 64);
}

#[test]
fn the_reply_for_an_unwritable_reply_is_fixed() {
    assert_eq!(
        serialization_error_text(None),
        "{\"jsonrpc\":\"2.0\",\"id\":null,\"error\":{\"code\":-32008,\"message\":\"failed to serialize broker response\"}}"
    );
    assert_eq!(
        serialization_error_text(Some(&RequestId::from_string("a\"b"))),
        "{\"jsonrpc\":\"2.0\",\"id\":\"a\\\"b\",\"error\":{\"code\":-32008,\"message\":\"failed to serialize broker response\"}}"
    );
}
