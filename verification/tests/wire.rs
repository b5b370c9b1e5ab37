//! The wire format: names, values and texts that cross the network.
use adobepy::bootstrap_types::{
    BootstrapAdapterContinuation, BootstrapBrokerBinding, BootstrapHostBinding,
    BootstrapPluginBinding, IllustratorBootstrapContinuation, IllustratorBootstrapResult,
    IllustratorBootstrapStatus, IllustratorBrokerBinding, IllustratorHostBinding,
    IllustratorPluginBinding, PhotoshopBootstrapContinuation, PhotoshopBootstrapRequest,
    PhotoshopBootstrapResult, PhotoshopBootstrapStatus, PhotoshopBootstrapVerifyRequest,
    PhotoshopHostTarget, PhotoshopPluginTarget,
};
use adobepy::json::{number, text_list, text_member, to_text, JsonMember, JsonValue, ObjectBuilder};
use adobepy::protocol::{
    session_key, BridgeKind, BridgeOutbound, Diagnostics, HostKind, ProtocolError, RequestId,
    RpcErrorResponse, RpcOptions, RpcRequest, RpcResponse, DEFAULT_TARGET, ERROR_HOST_SCRIPT,
    ERROR_TIMEOUT, ILLUSTRATOR_BOOTSTRAP_VERSION, JSONRPC_VERSION, PHOTOSHOP_BOOTSTRAP_VERSION,
};
use adobepy::runtime::{
    BridgeRuntimeIdentity, BrokerRuntimeIdentity, HostRuntimeIdentity, RuntimeIdentityAttestation,
};
use adobepy::table::Table;
use adobepy::text::{
    all_digits, chars_of, contains_text, decimal, is_alpha, is_control, is_digit, is_lower_hex,
    is_space, join2, lower_chars, parse_unsigned, same_text, signed_decimal, split_chars, text_of, trim_chars,
    trim_chars_end, words_of,
};

const UUID_FOR_TEST: &str = "76db1078-74c9-45c1-87e1-e8258649815e";

fn parsed(value: &JsonValue) -> serde_json::Value {
    serde_json::from_str(&to_text(value)).unwrap()
}

#[test]
fn wire_contracts() {
    assert_eq!("ps".parse::<HostKind>().unwrap(), HostKind::Photoshop);
    assert!("unknown".parse::<HostKind>().is_err());
    let options = RpcOptions {
        modal: true,
        command_name: Some("Hide".into()),
        timeout_ms: Some(1),
        trace_id: None,
    };
    let value = parsed(&options.to_json());
    assert_eq!(value["commandName"], "Hide");
    assert_eq!(RequestId::from_string("x").to_string(), "x");
    assert_eq!(session_key(HostKind::Photoshop, "default"), "photoshop:default");
    let mut line = ObjectBuilder::new();
    line.put("line", number(1));
    let err = RpcErrorResponse::new(Some(RequestId::from_string("x")), ERROR_HOST_SCRIPT, "boom")
        .with_data(line.finish());
    assert_eq!(parsed(&err.error.data.unwrap())["line"], 1);
}

fn identity() -> RuntimeIdentityAttestation {
    RuntimeIdentityAttestation {
        identity_version: 1,
        broker: BrokerRuntimeIdentity {
            pid: 4100,
            process_start_identity: "windows:133700000000000000".into(),
            executable_path: "C:/adobepy/adobepy.exe".into(),
            runtime_version: "0.1.0".into(),
            instance_id: "76db1078-74c9-45c1-87e1-e8258649815e".into(),
        },
        host: HostRuntimeIdentity {
            pid: 4200,
            process_start_identity: "windows:133700000000000100".into(),
            executable_path: "C:/Adobe/Photoshop.exe".into(),
            host_version: "26.5.1".into(),
            profile_id: "profile-production".into(),
        },
        bridge: BridgeRuntimeIdentity {
            target: "retouch".into(),
            bridge_kind: BridgeKind::Uxp,
            bridge_version: "0.1.0".into(),
            connected_at_epoch_ms: 1_720_000_000_000,
            instance_id: "9d31eb71-26cb-4c87-8b5a-4cadcc8e2f99".into(),
            installed_plugin_root: "C:/UXP/External/com.adobepy.bridge.photoshop".into(),
            module_origin: "C:/UXP/External/com.adobepy.bridge.photoshop/dist/main.js".into(),
        },
    }
}

#[test]
fn runtime_identity_contract_is_typed_and_secret_free() {
    let value = parsed(&identity().to_json());
    assert_eq!(value["host"]["pid"], 4200);
    assert_eq!(value["bridge"]["target"], "retouch");
    assert!(!serde_json::to_string(&value).unwrap().contains("token"));
}

#[test]
fn photoshop_bootstrap_contract_is_typed_and_path_redacted() {
    let request = PhotoshopBootstrapRequest {
        bootstrap_version: PHOTOSHOP_BOOTSTRAP_VERSION,
        target: "retouch".into(),
        timeout_ms: 7_000,
        host: PhotoshopHostTarget {
            executable_path: "C:/Adobe/Photoshop.exe".into(),
            executable_bytes: 42,
            executable_sha256: "a".repeat(64),
            host_version: "27.0.1".into(),
            profile_id: "production".into(),
        },
        plugin: PhotoshopPluginTarget {
            installed_plugin_root: "C:/UXP/com.adobepy.bridge.photoshop".into(),
            module_origin: "C:/UXP/com.adobepy.bridge.photoshop/dist/main.js".into(),
            bridge_version: "0.1.0".into(),
            manifest_bytes: 640,
            manifest_sha256: "d".repeat(64),
            index_bytes: 180,
            index_sha256: "e".repeat(64),
            module_bytes: 47_901,
            module_sha256: "f".repeat(64),
        },
    };
    assert_eq!(
        parsed(&request.to_json())["bootstrapVersion"],
        PHOTOSHOP_BOOTSTRAP_VERSION
    );
    let result = PhotoshopBootstrapResult {
        bootstrap_version: PHOTOSHOP_BOOTSTRAP_VERSION,
        status: PhotoshopBootstrapStatus::Ready,
        identity_fingerprint: "b".repeat(64),
        broker: BootstrapBrokerBinding {
            pid: 1,
            process_start_identity: "windows:1".into(),
            runtime_version: "0.7.0".into(),
            instance_id: UUID_FOR_TEST.into(),
            executable_sha256: "c".repeat(64),
        },
        host: BootstrapHostBinding {
            pid: 2,
            process_start_identity: "windows:2".into(),
            host_version: "27.0.1".into(),
            profile_id: "production".into(),
            executable_sha256: "a".repeat(64),
        },
        plugin: BootstrapPluginBinding {
            instance_id: UUID_FOR_TEST.into(),
            bridge_version: "0.1.0".into(),
            module_sha256: "d".repeat(64),
        },
        continuation: PhotoshopBootstrapContinuation {
            method: "POST".into(),
            path: "/v1/photoshop/bootstrap/verify".into(),
            receipt_id: UUID_FOR_TEST.into(),
            timeout_ms: 7_000,
        },
        adapter_continuation: None,
    };
    let wire = to_text(&result.to_json());
    assert!(!wire.contains("executablePath"));
    assert!(!wire.contains("installedPluginRoot"));
    assert!(!wire.to_ascii_lowercase().contains("token"));
}

#[test]
fn illustrator_bootstrap_result_binds_target_epoch_and_fixed_continuation() {
    let result = IllustratorBootstrapResult {
        bootstrap_version: ILLUSTRATOR_BOOTSTRAP_VERSION,
        status: IllustratorBootstrapStatus::Ready,
        identity_fingerprint: "a".repeat(64),
        broker: IllustratorBrokerBinding {
            pid: 1,
            process_start_identity: "windows:1".into(),
            runtime_version: "0.8.0".into(),
            instance_id: UUID_FOR_TEST.into(),
            executable_sha256: "b".repeat(64),
        },
        host: IllustratorHostBinding {
            pid: 2,
            process_start_identity: "windows:2".into(),
            host_version: "30.0.0".into(),
            profile_id: "production".into(),
            instance_id: UUID_FOR_TEST.into(),
            executable_sha256: "c".repeat(64),
        },
        plugin: IllustratorPluginBinding {
            target: "illustration".into(),
            connected_at_epoch_ms: 1_775_000_000_000,
            instance_id: UUID_FOR_TEST.into(),
            bridge_version: "0.1.0".into(),
            module_sha256: "d".repeat(64),
        },
        continuation: IllustratorBootstrapContinuation {
            method: "POST".into(),
            path: "/v1/illustrator/bootstrap/verify".into(),
            receipt_id: UUID_FOR_TEST.into(),
            timeout_ms: 7_000,
        },
        adapter_continuation: BootstrapAdapterContinuation {
            kind: "command".into(),
            argv: vec!["dcc-mcp-illustrator".into(), "verify".into(), "--json".into()],
        },
    };
    let text = to_text(&result.to_json());
    let wire = parsed(&result.to_json());
    assert_eq!(wire["plugin"]["target"], "illustration");
    assert_eq!(wire["plugin"]["connectedAtEpochMs"], 1_775_000_000_000u64);
    assert_eq!(wire["adapterContinuation"]["argv"][1], "verify");
    assert!(!text.contains("executablePath"));
    assert!(!text.contains("installedPluginRoot"));
    assert!(!text.to_ascii_lowercase().contains("token"));
}

#[test]
fn every_host_name_reads_back() {
    let hosts = [
        (HostKind::Photoshop, "photoshop"),
        (HostKind::InDesign, "indesign"),
        (HostKind::Premiere, "premiere"),
        (HostKind::AfterEffects, "after-effects"),
        (HostKind::Illustrator, "illustrator"),
        (HostKind::LightroomClassic, "lightroom-classic"),
        (HostKind::Acrobat, "acrobat"),
        (HostKind::Animate, "animate"),
        (HostKind::Cloud, "cloud"),
    ];
    for (host, name) in hosts {
        assert_eq!(host.as_str(), name);
        assert_eq!(HostKind::parse(name).unwrap(), host);
    }
    match HostKind::parse("unknown") {
        Err(ProtocolError::UnknownHost(name)) => assert_eq!(name, "unknown"),
        Ok(_) => panic!("an unknown host was accepted"),
    }
    assert_eq!(
        ProtocolError::UnknownHost("x y".into()).message(),
        "unknown Adobe host 'x y'"
    );
    assert!(HostKind::parse("").is_err());
    assert!(HostKind::parse("photoshop ").is_err());
    assert_eq!(HostKind::parse("After-EFFECTS").unwrap(), HostKind::AfterEffects);
    assert_eq!(HostKind::parse("premiere-pro").unwrap(), HostKind::Premiere);
    assert_eq!(HostKind::parse("LR").unwrap(), HostKind::LightroomClassic);
    assert_eq!(HostKind::parse("rest").unwrap(), HostKind::Cloud);
}

#[test]
fn a_request_is_written_member_by_member() {
    let request = RpcRequest {
        jsonrpc: JSONRPC_VERSION.into(),
        id: RequestId::Number(-7),
        host: HostKind::AfterEffects,
        target: None,
        namespace: "app".into(),
        method: "getVersion".into(),
        args: vec![JsonValue::Null, JsonValue::Bool(true), number(3)],
        options: RpcOptions::default(),
    };
    assert_eq!(request.target_or_default(), DEFAULT_TARGET);
    let outbound = BridgeOutbound::Request { request };
    let wire = parsed(&outbound.to_json());
    assert_eq!(wire["type"], "request");
    assert_eq!(wire["request"]["id"], -7);
    assert_eq!(wire["request"]["jsonrpc"], "2.0");
    assert_eq!(wire["request"]["host"], "after-effects");
    assert_eq!(wire["request"]["args"][1], true);
    assert_eq!(wire["request"]["args"][2], 3);
    assert_eq!(wire["request"]["options"]["modal"], false);
    assert!(wire["request"].get("target").is_none());
}

#[test]
fn a_response_is_written_member_by_member() {
    let response = RpcResponse {
        jsonrpc: JSONRPC_VERSION.into(),
        id: RequestId::from_string("a\"b"),
        result: JsonValue::List(vec![JsonValue::Text("\n".into())]),
        diagnostics: Some(Diagnostics {
            host_version: Some("26.5.1".into()),
            bridge: None,
            duration_ms: Some(12),
            trace_id: None,
        }),
    };
    let wire = parsed(&response.to_json());
    assert_eq!(wire["id"], "a\"b");
    assert_eq!(wire["result"][0], "\n");
    assert_eq!(wire["diagnostics"]["hostVersion"], "26.5.1");
    assert_eq!(wire["diagnostics"]["durationMs"], 12);
    assert!(wire["diagnostics"].get("bridge").is_none());
}

#[test]
fn an_error_is_written_member_by_member() {
    let error = RpcErrorResponse::new(None, ERROR_TIMEOUT, "late")
        .with_data(text_member("stage", "launch"));
    assert_eq!(
        to_text(&error.to_json()),
        "{\"jsonrpc\":\"2.0\",\"error\":{\"code\":-32007,\"message\":\"late\",\"data\":{\"stage\":\"launch\"}}}"
    );
    let bare = RpcErrorResponse::new(Some(RequestId::Number(1)), ERROR_TIMEOUT, "late");
    assert_eq!(
        to_text(&bare.to_json()),
        "{\"jsonrpc\":\"2.0\",\"id\":1,\"error\":{\"code\":-32007,\"message\":\"late\"}}"
    );
}

#[test]
fn json_texts_are_compact_and_escaped() {
    let value = JsonValue::Object(vec![
        JsonMember { name: "a b".into(), value: JsonValue::List(vec![]) },
        JsonMember { name: "\"".into(), value: JsonValue::Object(vec![]) },
        JsonMember { name: "n".into(), value: JsonValue::Null },
        JsonMember { name: "f".into(), value: JsonValue::Bool(false) },
        JsonMember { name: "x".into(), value: JsonValue::Number("1.5e3".into()) },
    ]);
    assert_eq!(to_text(&value), "{\"a b\":[],\"\\\"\":{},\"n\":null,\"f\":false,\"x\":1.5e3}");
    let list = text_list(&vec!["x".to_owned(), "y\\".to_owned()]);
    assert_eq!(to_text(&list), "[\"x\",\"y\\\\\"]");
    assert_eq!(list.clone(), list);
    assert_eq!(number(u128::MAX), JsonValue::Number("340282366920938463463374607431768211455".into()));
}

#[test]
fn control_characters_are_escaped_and_others_stand_for_themselves() {
    let value = JsonValue::Text("\u{0}\u{7}\u{8}\t\n\u{b}\u{c}\r\u{1f} /\u{7f}\u{e9}\u{1f600}\"\\".into());
    assert_eq!(
        to_text(&value),
        "\"\\u0000\\u0007\\b\\t\\n\\u000b\\f\\r\\u001f /\u{7f}\u{e9}\u{1f600}\\\"\\\\\""
    );
}

#[test]
fn a_fingerprint_text_is_the_identity_in_declaration_order() {
    assert_eq!(
        to_text(&identity().to_json()),
        "{\"identityVersion\":1,\"broker\":{\"pid\":4100,\"processStartIdentity\":\"windows:133700000000000000\",\"executablePath\":\"C:/adobepy/adobepy.exe\",\"runtimeVersion\":\"0.1.0\",\"instanceId\":\"76db1078-74c9-45c1-87e1-e8258649815e\"},\"host\":{\"pid\":4200,\"processStartIdentity\":\"windows:133700000000000100\",\"executablePath\":\"C:/Adobe/Photoshop.exe\",\"hostVersion\":\"26.5.1\",\"profileId\":\"profile-production\"},\"bridge\":{\"target\":\"retouch\",\"bridgeKind\":\"uxp\",\"bridgeVersion\":\"0.1.0\",\"connectedAtEpochMs\":1720000000000,\"instanceId\":\"9d31eb71-26cb-4c87-8b5a-4cadcc8e2f99\",\"installedPluginRoot\":\"C:/UXP/External/com.adobepy.bridge.photoshop\",\"moduleOrigin\":\"C:/UXP/External/com.adobepy.bridge.photoshop/dist/main.js\"}}"
    );
    let verify = PhotoshopBootstrapVerifyRequest { receipt_id: UUID_FOR_TEST.into() };
    assert_eq!(
        to_text(&verify.to_json()),
        "{\"receiptId\":\"76db1078-74c9-45c1-87e1-e8258649815e\"}"
    );
}

#[test]
fn request_identifiers_are_told_apart() {
    assert!(RequestId::from_string("1").same(&RequestId::from_string("1")));
    assert!(!RequestId::from_string("1").same(&RequestId::Number(1)));
    assert_eq!(RequestId::Number(i64::MIN).to_string(), "-9223372036854775808");
    assert_eq!(RequestId::Number(0).to_string(), "0");
    assert_eq!(RequestId::Number(42).clone(), RequestId::Number(42));
    assert_eq!(to_text(&RequestId::from_string("7").to_json()), "\"7\"");
    assert_eq!(to_text(&RequestId::Number(7).to_json()), "7");
}

#[test]
fn session_keys_of_different_hosts_and_targets_differ() {
    assert_eq!(session_key(HostKind::AfterEffects, "a:b"), "after-effects:a:b");
    assert_ne!(session_key(HostKind::Photoshop, "a"), session_key(HostKind::Photoshop, "b"));
    assert_ne!(session_key(HostKind::Photoshop, "a"), session_key(HostKind::Illustrator, "a"));
}

#[test]
fn character_classes_agree_with_the_standard_library() {
    let mut code: u32 = 0;
    while code <= 0x10_ffff {
        if let Some(c) = char::from_u32(code) {
            assert_eq!(is_control(c), c.is_control(), "{code:x}");
            assert_eq!(is_space(c), c.is_whitespace(), "{code:x}");
            assert_eq!(is_digit(c), c.is_ascii_digit(), "{code:x}");
            assert_eq!(is_alpha(c), c.is_ascii_alphabetic(), "{code:x}");
            assert_eq!(
                is_lower_hex(c),
                c.is_ascii_digit() || matches!(c, 'a'..='f'),
                "{code:x}"
            );
        }
        code += 1;
    }
}

#[test]
fn texts_are_split_trimmed_and_folded() {
    let text = "  a\u{2003}bc\t d ";
    let words: Vec<String> = words_of(&chars_of(text)).iter().map(text_of).collect();
    let expected: Vec<String> = text.split_whitespace().map(str::to_owned).collect();
    assert_eq!(words, expected);
    assert_eq!(text_of(&trim_chars(&chars_of(text))), text.trim());
    assert_eq!(text_of(&trim_chars(&chars_of(" \n"))), "");
    let parts: Vec<String> = split_chars(&chars_of("/a//b/"), '/').iter().map(text_of).collect();
    let slices: Vec<String> = "/a//b/".split('/').map(str::to_owned).collect();
    assert_eq!(parts, slices);
    assert_eq!(split_chars(&chars_of(""), '/').len(), 1);
    assert_eq!(text_of(&trim_chars_end(chars_of("a/b//"), '/')), "a/b");
    assert_eq!(text_of(&trim_chars_end(chars_of("//"), '/')), "");
    assert_eq!(text_of(&lower_chars(&chars_of("AbZ\u{c4}9"))), "AbZ\u{c4}9".to_ascii_lowercase());
    assert!(all_digits(&chars_of("0129")));
    assert!(!all_digits(&chars_of("0x")));
    assert!(same_text("ab", "ab"));
    assert!(!same_text("ab", "abc"));
    assert_eq!(join2("a", "b"), "ab");
    assert!(contains_text(&vec!["a".to_owned(), "b".to_owned()], "b"));
    assert!(!contains_text(&vec![], "b"));
}

#[test]
fn numbers_are_written_in_decimal() {
    for n in [0u128, 9, 10, 4_200, 1_720_000_000_000, u128::MAX] {
        assert_eq!(decimal(n), n.to_string());
    }
    for n in [0i64, -1, 10, i64::MIN, i64::MAX] {
        assert_eq!(signed_decimal(n), n.to_string());
    }
}

#[test]
fn a_table_keeps_one_value_per_key() {
    let mut table: Table<u8> = Table::new();
    assert_eq!(table.len(), 0);
    table.insert("a".into(), 1);
    table.insert("b".into(), 2);
    table.insert("a".into(), 3);
    assert_eq!(table.len(), 2);
    assert_eq!(table.get("a"), Some(&3));
    assert!(table.contains("b"));
    assert_eq!(table.remove("b"), Some(2));
    assert_eq!(table.remove("b"), None);
    assert_eq!(table.at(0).key, "a");
    let last = table.pop().unwrap();
    assert_eq!((last.key.as_str(), last.value), ("a", 3));
    assert!(table.pop().is_none());
}

#[test]
fn numbers_are_read_from_decimal() {
    for text in ["0", "1000", "+7", "007", "18446744073709551615"] {
        assert_eq!(parse_unsigned(text), text.parse::<u64>().ok(), "{text}");
        assert!(parse_unsigned(text).is_some(), "{text}");
    }
    for text in ["", "+", "-1", "1 ", "1_0", "18446744073709551616", "99999999999999999999999"] {
        assert_eq!(parse_unsigned(text), text.parse::<u64>().ok(), "{text}");
        assert!(parse_unsigned(text).is_none(), "{text}");
    }
    for n in [0u64, 9, 10, u64::MAX] {
        assert_eq!(parse_unsigned(&decimal(n as u128)), Some(n));
    }
}
