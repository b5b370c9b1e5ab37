//! Attested files, product paths and process identities.
use adobepy::attest::{
    accept_launch, attest_illustrator_request, attest_request, attested_bytes, capture_exact_file,
    capture_path_receipt, digest_file, is_illustrator_install_dir, is_illustrator_product_path,
    is_photoshop_product_path, read_manifest, recapture_illustrator_receipt, same_path,
    validate_exact_file, validate_fixed_manifest, validate_host_file, validate_manifest_fields,
    AttestedRead, BlockingDeadline, ExactFile, IllustratorFindings, PathLook, PhotoshopFindings,
    Platform,
};
use adobepy::bootstrap_types::{
    PhotoshopBootstrapRequest, PhotoshopHostTarget, PhotoshopPluginTarget,
};
use adobepy::checks::{
    is_absolute_path, is_bounded_identifier, is_bounded_start_identity, is_bounded_text,
    is_canonical_version, is_instance_id, is_sha256, is_uuid, module_belongs_to_plugin,
    normalized_absolute_path, normalized_paths_equal,
};
use adobepy::files::{FileFacts, FileIdentity};
use adobepy::process::{
    launch_pause, linux_start_identity, macos_start_identity, windows_start_identity,
    StartIdentityError,
};
use adobepy::receipts::{ObservedHostProcess, PathReceipt};
use adobepy::settings::{
    broker_identity, nonce_of, photoshop_websocket_url, random_nonce, BindAddress, BrokerConfig,
};

fn hash(bytes: &[u8]) -> String {
    format!("{:x}", <sha2::Sha256 as sha2::Digest>::digest(bytes))
}

fn look(path: &str) -> PathLook {
    PathLook {
        requested: path.into(),
        canonical: path.into(),
        direct: true,
        is_dir: false,
        is_file: true,
        links: Some(1),
        filesystem_identity: Some((1, 2)),
    }
}

#[test]
fn illustrator_file_receipts_reject_multi_link_objects() {
    for name in ["manifest.xml", "index.html", "main.js"] {
        let path = format!("/cep/{name}");
        assert!(capture_path_receipt(look(&path), false).is_some());
        let aliased = PathLook { links: Some(2), ..look(&path) };
        assert!(
            capture_path_receipt(aliased, false).is_none(),
            "multi-link {name} must fail closed"
        );
    }
}

#[test]
fn path_receipts_need_a_direct_path_of_the_expected_kind() {
    let receipt = capture_path_receipt(look("/cep/main.js"), false).unwrap();
    assert_eq!(receipt.requested, "/cep/main.js");
    assert_eq!(receipt.filesystem_identity, (1, 2));
    assert!(capture_path_receipt(PathLook { direct: false, ..look("/x") }, false).is_none());
    assert!(capture_path_receipt(look("/x"), true).is_none());
    assert!(capture_path_receipt(PathLook { filesystem_identity: None, ..look("/x") }, false)
        .is_none());
    let directory = PathLook { is_dir: true, is_file: false, links: Some(9), ..look("/cep") };
    assert!(capture_path_receipt(directory, true).is_some());
}

fn path_receipt(path: &str, index: u64) -> PathReceipt {
    PathReceipt {
        requested: path.into(),
        canonical: path.into(),
        filesystem_identity: (1, index),
    }
}

fn exact(path: &str, index: u64, bytes: &[u8]) -> ExactFile {
    ExactFile {
        before: Some(path_receipt(path, index)),
        content: Some(bytes.to_vec()),
        after: Some(path_receipt(path, index)),
    }
}

const EXECUTABLE: &[u8] = b"FAKE SIGNED ILLUSTRATOR FIXTURE";
const MODULE: &[u8] = b"BOUNDED FAKE CEP MODULE";
const MANIFEST: &[u8] = b"<ExtensionManifest/>";
const INDEX: &[u8] = b"<html/>";

fn request(manifest: &[u8], index: &[u8], module: &[u8]) -> PhotoshopBootstrapRequest {
    PhotoshopBootstrapRequest {
        bootstrap_version: 1,
        target: "illustration".into(),
        timeout_ms: 1_000,
        host: PhotoshopHostTarget {
            executable_path: "C:/Adobe/Illustrator.exe".into(),
            executable_bytes: EXECUTABLE.len() as u64,
            executable_sha256: hash(EXECUTABLE),
            host_version: "30.0.0".into(),
            profile_id: "illustrator-production".into(),
        },
        plugin: PhotoshopPluginTarget {
            installed_plugin_root: "C:/cep/com.adobepy.bridge.illustrator".into(),
            module_origin: "C:/cep/com.adobepy.bridge.illustrator/dist/main.js".into(),
            bridge_version: "0.1.0".into(),
            manifest_bytes: manifest.len() as u64,
            manifest_sha256: hash(manifest),
            index_bytes: index.len() as u64,
            index_sha256: hash(index),
            module_bytes: module.len() as u64,
            module_sha256: hash(module),
        },
    }
}

fn findings() -> IllustratorFindings {
    IllustratorFindings {
        product_path: true,
        executable: Some(EXECUTABLE.to_vec()),
        root: Some(path_receipt("/cep", 1)),
        module_in_place: true,
        manifest: exact("/cep/CSXS/manifest.xml", 2, MANIFEST),
        index: exact("/cep/index.html", 3, INDEX),
        module: exact("/cep/dist/main.js", 4, MODULE),
    }
}

#[test]
fn an_illustrator_extension_is_attested_file_by_file() {
    let request = request(MANIFEST, INDEX, MODULE);
    let receipt = attest_illustrator_request(&request, findings(), MANIFEST, INDEX).unwrap();
    assert_eq!(receipt.module.sha256, hash(MODULE));
    assert_eq!(receipt.manifest.bytes, MANIFEST.len() as u64);
    let again = attest_illustrator_request(&request, findings(), MANIFEST, INDEX).unwrap();
    assert!(recapture_illustrator_receipt(&receipt, &again));

    let shadow = IllustratorFindings { product_path: false, ..findings() };
    assert!(attest_illustrator_request(&request, shadow, MANIFEST, INDEX).is_none());
    let moved = IllustratorFindings { module_in_place: false, ..findings() };
    assert!(attest_illustrator_request(&request, moved, MANIFEST, INDEX).is_none());
    let unsigned = IllustratorFindings { executable: Some(b"x".to_vec()), ..findings() };
    assert!(attest_illustrator_request(&request, unsigned, MANIFEST, INDEX).is_none());
    let rootless = IllustratorFindings { root: None, ..findings() };
    assert!(attest_illustrator_request(&request, rootless, MANIFEST, INDEX).is_none());
    let swapped = IllustratorFindings {
        module: ExactFile {
            after: Some(path_receipt("/cep/dist/main.js", 5)),
            ..exact("/cep/dist/main.js", 4, MODULE)
        },
        ..findings()
    };
    assert!(attest_illustrator_request(&request, swapped, MANIFEST, INDEX).is_none());
    assert!(attest_illustrator_request(&request, findings(), b"other", INDEX).is_none());
    assert!(attest_illustrator_request(&request, findings(), MANIFEST, b"other").is_none());

    let replaced = IllustratorFindings {
        module: exact("/cep/dist/main.js", 9, MODULE),
        ..findings()
    };
    let other = attest_illustrator_request(&request, replaced, MANIFEST, INDEX).unwrap();
    assert!(
        !recapture_illustrator_receipt(&receipt, &other),
        "same bytes at a different filesystem identity must fail closed"
    );
}

#[test]
fn exact_files_are_held_to_size_and_digest() {
    assert!(validate_exact_file(Some(b"abc".to_vec()), 3, &hash(b"abc"), 3).is_some());
    assert!(validate_exact_file(Some(b"abc".to_vec()), 3, &hash(b"abd"), 3).is_none());
    assert!(validate_exact_file(Some(b"abc".to_vec()), 4, &hash(b"abc"), 9).is_none());
    assert!(validate_exact_file(Some(b"abc".to_vec()), 3, &hash(b"abc"), 2).is_none());
    assert!(validate_exact_file(None, 0, &hash(b""), 9).is_none());
    let (bytes, receipt) = capture_exact_file(exact("/f", 1, b"abc"), 3, &hash(b"abc"), 9).unwrap();
    assert_eq!(bytes, b"abc");
    assert_eq!(receipt.bytes, 3);
    assert_eq!(receipt.path, path_receipt("/f", 1));
    assert_eq!(digest_file(Some(b"abc".to_vec())), Some(hash(b"abc")));
    assert_eq!(digest_file(None), None);
    let unseen = ExactFile { before: None, ..exact("/f", 1, b"abc") };
    assert!(capture_exact_file(unseen, 3, &hash(b"abc"), 9).is_none());
}

#[test]
fn a_read_counts_where_the_file_held_still() {
    let facts =
        FileFacts { is_file: true, is_dir: false, is_symlink: false, is_reparse: false, len: 3 };
    let identity = FileIdentity { primary: 1, secondary: 2 };
    let read = || AttestedRead {
        before: facts,
        modified: 5,
        identity,
        bytes: b"abc".to_vec(),
        handle_len_after: 3,
        handle_modified_after: 5,
        handle_identity_after: identity,
        after: facts,
        path_modified_after: 5,
        path_identity_after: identity,
        same_handle: true,
    };
    assert_eq!(attested_bytes(read(), 3).unwrap(), b"abc");
    assert!(attested_bytes(read(), 2).is_none());
    assert!(attested_bytes(AttestedRead { same_handle: false, ..read() }, 3).is_none());
    assert!(attested_bytes(AttestedRead { handle_modified_after: 6, ..read() }, 3).is_none());
    assert!(attested_bytes(AttestedRead { bytes: b"ab".to_vec(), ..read() }, 3).is_none());
    let link = FileFacts { is_symlink: true, ..facts };
    assert!(attested_bytes(AttestedRead { after: link, ..read() }, 3).is_none());
}

const PHOTOSHOP_MANIFEST: &[u8] = b"{\"manifestVersion\":5,\"id\":\"com.adobepy.bridge.photoshop\",\"version\":\"0.1.0\",\"host\":{\"app\":\"PS\",\"data\":{\"loadEvent\":\"startup\"}},\"main\":\"index.html\"}";

#[test]
fn a_fixed_manifest_is_recognised() {
    let fields = read_manifest(PHOTOSHOP_MANIFEST);
    assert_eq!(fields.manifest_version, Some(5));
    assert_eq!(fields.id.as_deref(), Some("com.adobepy.bridge.photoshop"));
    assert!(validate_manifest_fields(&fields, "0.1.0"));
    assert!(validate_fixed_manifest(PHOTOSHOP_MANIFEST, "0.1.0"));
    assert!(!validate_fixed_manifest(PHOTOSHOP_MANIFEST, "0.2.0"));
    assert!(!validate_fixed_manifest(b"{}", "0.1.0"));
    assert!(!validate_fixed_manifest(b"not json", "0.1.0"));
    let mut long = PHOTOSHOP_MANIFEST.to_vec();
    long.extend(vec![b' '; 64 * 1024]);
    assert!(!validate_fixed_manifest(&long, "0.1.0"));
}

#[test]
fn a_photoshop_plugin_is_attested() {
    let request = request(PHOTOSHOP_MANIFEST, INDEX, MODULE);
    let found = || PhotoshopFindings {
        product_path: true,
        executable: Some(EXECUTABLE.to_vec()),
        module_in_place: true,
        manifest: Some(PHOTOSHOP_MANIFEST.to_vec()),
        index: Some(INDEX.to_vec()),
        module: Some(MODULE.to_vec()),
    };
    assert_eq!(attest_request(&request, found()), Some(hash(MODULE)));
    for bad in [
        PhotoshopFindings { product_path: false, ..found() },
        PhotoshopFindings { executable: None, ..found() },
        PhotoshopFindings { module_in_place: false, ..found() },
        PhotoshopFindings { manifest: Some(b"{}".to_vec()), ..found() },
        PhotoshopFindings { index: None, ..found() },
        PhotoshopFindings { module: Some(b"other".to_vec()), ..found() },
    ] {
        assert_eq!(attest_request(&request, bad), None);
    }
    assert!(validate_host_file(&request.host, true, Some(EXECUTABLE.to_vec())));
    assert!(!validate_host_file(&request.host, false, Some(EXECUTABLE.to_vec())));
}

fn names(list: &[&str]) -> Vec<String> {
    list.iter().map(|name| (*name).to_owned()).collect()
}

#[test]
fn product_paths_are_recognised() {
    assert!(is_illustrator_install_dir("Adobe Illustrator 2026"));
    assert!(!is_illustrator_install_dir("Adobe Illustrator Shadow"));
    assert!(!is_illustrator_install_dir("Adobe Photoshop 2026"));
    let windows =
        names(&["Illustrator.exe", "Windows", "Contents", "Support Files", "Adobe Illustrator 2026"]);
    assert!(is_illustrator_product_path(Platform::Windows, &windows));
    let shadow =
        names(&["Illustrator.exe", "Windows", "Contents", "Support Files", "Adobe Illustrator Shadow"]);
    assert!(!is_illustrator_product_path(Platform::Windows, &shadow));
    assert!(!is_illustrator_product_path(Platform::Other, &windows));
    assert!(is_photoshop_product_path(
        Platform::Windows,
        Some("Photoshop.exe"),
        Some("Adobe Photoshop 2026"),
        "C:/Program Files/Adobe/Adobe Photoshop 2026/Photoshop.exe"
    ));
    assert!(!is_photoshop_product_path(
        Platform::Windows,
        Some("Photoshop.exe"),
        Some("Elsewhere"),
        "C:/Elsewhere/Photoshop.exe"
    ));
    assert!(!is_photoshop_product_path(Platform::Other, Some("Photoshop.exe"), None, "/x"));
}

#[test]
fn paths_fold_their_case_on_windows_only() {
    assert!(same_path(Platform::Windows, Some("C:/A/b"), Some("c:/a/B")));
    assert!(!same_path(Platform::MacOs, Some("/A/b"), Some("/a/B")));
    assert!(same_path(Platform::MacOs, Some("/A/b"), Some("/A/b")));
    assert!(!same_path(Platform::MacOs, None, Some("/A/b")));
    assert!(accept_launch(Platform::MacOs, Some("/A"), Some("/A"), false));
    assert!(!accept_launch(Platform::MacOs, Some("/A"), Some("/A"), true));
    assert!(!accept_launch(Platform::MacOs, Some("/B"), Some("/A"), false));
    assert!(!accept_launch(Platform::MacOs, None, Some("/A"), false));
}

#[test]
fn a_blocking_deadline_is_passed_or_cancelled() {
    let mut deadline = BlockingDeadline::new(10, 5);
    assert!(deadline.checkpoint(14));
    assert!(!deadline.checkpoint(15));
    deadline.cancel();
    assert!(!deadline.checkpoint(14));
}

#[test]
fn normal_paths_are_absolute_and_free_of_detours() {
    assert_eq!(normalized_absolute_path("C:\\A\\b\\"), Some("C:/A/b".into()));
    assert_eq!(normalized_absolute_path("/opt/A"), Some("/opt/A".into()));
    assert_eq!(normalized_absolute_path("relative/x"), None);
    assert_eq!(normalized_absolute_path("/opt/../x"), None);
    assert_eq!(normalized_absolute_path(""), None);
    assert!(is_absolute_path("C:/x"));
    assert!(!is_absolute_path("C:x"));
    assert!(normalized_paths_equal("C:/A/B", "c:\\a\\b"));
    assert!(!normalized_paths_equal("/A/B", "/a/b"));
    assert!(!normalized_paths_equal("x", "x"));
    assert!(module_belongs_to_plugin("C:/p/dist/main.js", "c:/P"));
    assert!(!module_belongs_to_plugin("C:/p", "C:/p"));
    assert!(!module_belongs_to_plugin("C:/pq/main.js", "C:/p"));
}

#[test]
fn bounded_texts_are_recognised() {
    assert!(is_bounded_text("ab", 2));
    assert!(!is_bounded_text("abc", 2));
    assert!(!is_bounded_text("\u{e4}\u{e4}", 3));
    assert!(!is_bounded_text("", 3));
    assert!(!is_bounded_text("a\nb", 9));
    assert!(is_bounded_identifier("a-B_1.", 9));
    assert!(!is_bounded_identifier("a b", 9));
    assert!(is_bounded_start_identity("windows:133700000000000100"));
    assert!(!is_bounded_start_identity("no colon here"));
    assert!(is_sha256(&"0".repeat(64)));
    assert!(!is_sha256(&"0".repeat(63)));
    assert!(!is_sha256(&"A".repeat(64)));
    assert!(is_canonical_version("26.5.1"));
    assert!(is_canonical_version("0.0"));
    assert!(!is_canonical_version("01.2"));
    assert!(!is_canonical_version("1..2"));
    assert!(!is_canonical_version(""));
    assert!(is_uuid("76db1078-74c9-45c1-87e1-e8258649815e"));
    assert!(!is_uuid("76DB1078-74C9-45C1-87E1-E8258649815E"));
    assert!(!is_uuid("76db107874c945c187e1e8258649815e"));
    assert!(is_instance_id("76db1078-74c9-45c1-87e1-e8258649815e"));
    assert!(!is_instance_id("00000000-0000-0000-0000-000000000000"));
}

#[test]
fn start_identities_are_read() {
    let mut fields: Vec<String> = (3..23).map(|n: u32| n.to_string()).collect();
    fields[0] = "S".into();
    let status = format!("4100 (a) b) {}", fields.join(" "));
    let boot = "76db1078-74c9-45c1-87e1-e8258649815e\n";
    assert_eq!(
        linux_start_identity(&status, boot).unwrap(),
        "linux:76db1078-74c9-45c1-87e1-e8258649815e:22"
    );
    assert_eq!(linux_start_identity("4100", boot).unwrap_err(), StartIdentityError::NoCommand);
    assert_eq!(linux_start_identity("4100 (a) S 1", boot).unwrap_err(), StartIdentityError::NoTicks);
    let bad = status.replace(" 22", " x2");
    assert_eq!(linux_start_identity(&bad, boot).unwrap_err(), StartIdentityError::BadTicks);
    assert_eq!(linux_start_identity(&status, "boot").unwrap_err(), StartIdentityError::BadBoot);
    assert_eq!(windows_start_identity(1, 2), format!("windows:{}", (1u64 << 32) | 2));
    assert_eq!(windows_start_identity(u32::MAX, u32::MAX), format!("windows:{}", u64::MAX));
    assert_eq!(macos_start_identity(1_720_000_000, 42).unwrap(), "macos:1720000000:000042");
    for error in [
        StartIdentityError::NoCommand,
        StartIdentityError::NoTicks,
        StartIdentityError::BadTicks,
        StartIdentityError::BadBoot,
    ] {
        assert!(!error.message().is_empty());
    }
}

#[test]
fn settings_have_their_defaults() {
    let config = BrokerConfig::default();
    assert_eq!(config.address, BindAddress::V4 { a: 127, b: 0, c: 0, d: 1 });
    assert_eq!((config.port, config.default_timeout_ms), (47_391, 30_000));
    assert_eq!(config.token, "dev-token");
    assert_eq!(
        photoshop_websocket_url(config.address, config.port).unwrap(),
        "ws://127.0.0.1:47391/v1/bridge/photoshop/ws"
    );
    assert_eq!(
        photoshop_websocket_url(BindAddress::V6 { bits: 1 }, 8).unwrap(),
        "ws://[::1]:8/v1/bridge/photoshop/ws"
    );
    assert!(photoshop_websocket_url(BindAddress::V4 { a: 10, b: 0, c: 0, d: 1 }, 8).is_none());
    assert!(photoshop_websocket_url(BindAddress::V6 { bits: 0 }, 8).is_none());
}

#[test]
fn a_nonce_is_the_digest_of_two_identifiers() {
    let first = uuid::Uuid::from_u128(0x76db1078_74c9_45c1_87e1_e8258649815e);
    let second = uuid::Uuid::from_u128(0x9d31eb71_26cb_4c87_8b5a_4cadcc8e2f99);
    let mut bytes = first.as_bytes().to_vec();
    bytes.extend_from_slice(second.as_bytes());
    assert_eq!(nonce_of(first.as_u128(), second.as_u128()), hash(&bytes));
    assert!(is_sha256(&random_nonce()));
    assert_ne!(random_nonce(), random_nonce());
}

#[test]
fn a_broker_is_identified_where_its_path_is_absolute() {
    let identity =
        broker_identity(7, "linux:x:1".into(), "/opt/adobepy".into(), "0.8.0".into(), 1).unwrap();
    assert_eq!(identity.instance_id, "00000000-0000-0000-0000-000000000001");
    assert_eq!(identity.pid, 7);
    assert!(broker_identity(7, "linux:x:1".into(), "adobepy".into(), "0.8.0".into(), 1).is_none());
}

#[test]
fn a_started_process_is_looked_for_until_its_time_is_up() {
    assert_eq!(launch_pause(0), Some(20));
    assert_eq!(launch_pause(1_999), Some(20));
    assert_eq!(launch_pause(2_000), None);
}

#[test]
fn a_process_is_the_same_only_in_every_detail() {
    let seen = ObservedHostProcess {
        pid: 4200,
        process_start_identity: "windows:1".into(),
        executable_path: "C:/a.exe".into(),
    };
    assert!(seen.is_shown_as(&Some(seen.clone())));
    assert!(!seen.is_shown_as(&None));
    let reused =
        ObservedHostProcess { process_start_identity: "windows:2".into(), ..seen.clone() };
    assert!(!seen.is_shown_as(&Some(reused)));
    let moved = ObservedHostProcess { executable_path: "C:/b.exe".into(), ..seen.clone() };
    assert!(!seen.is_shown_as(&Some(moved)));
}
