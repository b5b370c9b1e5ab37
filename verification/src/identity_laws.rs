//! What identities are made of and held against, said of the fields of the
//! claim, the request and the expectation.
use vstd::prelude::*;
use vstd::utf8::encode_utf8;

use crate::bootstrap::{bootstrap_identity_ok, claimed_process_model};
use crate::bootstrap_types::PhotoshopBootstrapRequestModel;
use crate::checks::{
    bounded_identifier, bounded_start_identity, bounded_text, canonical_version, module_in_plugin,
    names_instance, normal_path, paths_equal, sha256_shape,
};
use crate::handshake_laws::blames_field;
use crate::identity::{
    bootstrap_request_ok, claim_fault, expectation_fault, fingerprint, identity_shape,
    missing_fields, module_is_fixed, session_identity,
};
use crate::json::{render, texts_json, JsonModel, MemberModel};
use crate::outside::sha256_text;
use crate::protocol::{BridgeKind, BridgeSessionInfo, Capabilities, HostKind};
use crate::receipts::ObservedHostProcessModel;
use crate::runtime::{
    BridgeIdentityClaim, BrokerRuntimeIdentityModel, RuntimeIdentityAttestationModel,
};
use crate::text::decimal_text;

verus! {

/// What the bridge says of its host is well formed as far as it goes.
pub open spec fn host_said_well(claim: BridgeIdentityClaim) -> bool {
    let host = claim.host;
    &&& host.pid is Some ==> host.pid->0 != 0
    &&& host.process_start_identity is Some ==> bounded_start_identity(
        host.process_start_identity->0@,
    )
    &&& host.executable_path is Some ==> normal_path(host.executable_path->0@) is Some
    &&& host.host_version is Some ==> bounded_text(host.host_version->0@, 64)
    &&& host.profile_id is Some ==> bounded_text(host.profile_id->0@, 256)
}

/// What the bridge says of itself is well formed as far as it goes.
pub open spec fn bridge_said_well(claim: BridgeIdentityClaim) -> bool {
    let bridge = claim.bridge;
    &&& bridge.instance_id is Some ==> names_instance(bridge.instance_id->0@)
    &&& bridge.installed_plugin_root is Some ==> normal_path(bridge.installed_plugin_root->0@)
        is Some
    &&& bridge.module_origin is Some ==> normal_path(bridge.module_origin->0@) is Some
}

/// The versions of the host that the claim and the capabilities give are the
/// same, or neither gives one.
pub open spec fn versions_agree(claim: BridgeIdentityClaim, capabilities: Capabilities) -> bool {
    &&& claim.host.host_version is Some <==> capabilities.host_version is Some
    &&& claim.host.host_version is Some ==> claim.host.host_version->0@
        == capabilities.host_version->0@
}

/// Where both are given, the module lies in the plugin.
pub open spec fn module_said_well(claim: BridgeIdentityClaim) -> bool {
    claim.bridge.module_origin is Some && claim.bridge.installed_plugin_root is Some
        ==> module_in_plugin(
        claim.bridge.module_origin->0@,
        claim.bridge.installed_plugin_root->0@,
    )
}

/// A bridge may connect exactly if its target is an identifier of at most 128
/// bytes, its versions are bounded, and everything it claims, if it claims
/// anything, is well formed, agrees with its capabilities, and has the module
/// inside the plugin. Otherwise it is told the first thing that is wrong.
pub proof fn connecting_bridge_is_checked(
    target: Seq<char>,
    capabilities: Capabilities,
    identity: Option<BridgeIdentityClaim>,
)
    ensures
        claim_fault(target, capabilities, identity) is None <==> {
            &&& bounded_identifier(target, 128)
            &&& bounded_text(capabilities.bridge_version@, 64)
            &&& capabilities.host_version is Some ==> bounded_text(
                capabilities.host_version->0@,
                64,
            )
            &&& identity is Some ==> {
                &&& host_said_well(identity->0)
                &&& versions_agree(identity->0, capabilities)
                &&& bridge_said_well(identity->0)
                &&& module_said_well(identity->0)
            }
        },
        claim_fault(target, capabilities, identity) is Some ==> {
            let e = claim_fault(target, capabilities, identity)->0;
            if !bounded_identifier(target, 128) {
                blames_field(e, -32600, "bridge target is invalid"@, "target"@)
            } else if !bounded_text(capabilities.bridge_version@, 64) || (capabilities.host_version
                is Some && !bounded_text(capabilities.host_version->0@, 64)) {
                blames_field(e, -32600, "bridge version identity is invalid"@, "capabilities"@)
            } else if !host_said_well(identity->0) {
                blames_field(
                    e,
                    -32600,
                    "host runtime identity claim is invalid"@,
                    "identity.host"@,
                )
            } else if !versions_agree(identity->0, capabilities) {
                blames_field(
                    e,
                    -32013,
                    "host runtime version does not match bridge capabilities"@,
                    "host.hostVersion"@,
                )
            } else if !bridge_said_well(identity->0) {
                blames_field(
                    e,
                    -32600,
                    "bridge runtime identity claim is invalid"@,
                    "identity.bridge"@,
                )
            } else {
                blames_field(
                    e,
                    -32013,
                    "bridge module origin is outside the installed plugin root"@,
                    "bridge.moduleOrigin"@,
                )
            }
        },
{
}

/// Everything that an identity holds was claimed.
pub open spec fn claimed_in_full(claim: BridgeIdentityClaim, capabilities: Capabilities) -> bool {
    &&& claim.host.pid is Some
    &&& claim.host.process_start_identity is Some
    &&& claim.host.executable_path is Some
    &&& claim.host.host_version is Some
    &&& capabilities.host_version is Some
    &&& claim.host.profile_id is Some
    &&& claim.bridge.instance_id is Some
    &&& claim.bridge.installed_plugin_root is Some
    &&& claim.bridge.module_origin is Some
}

/// One text, or none.
pub open spec fn text_where(so: bool, text: Seq<char>) -> Seq<Seq<char>> {
    if so {
        seq![text]
    } else {
        Seq::empty()
    }
}

/// A session has an identity exactly if its claim is well formed and complete,
/// and a Photoshop bridge is a UXP one. The identity is the broker's own, the
/// host as it was claimed, and the bridge as it connected and was claimed.
pub proof fn identity_is_what_was_claimed(
    broker: BrokerRuntimeIdentityModel,
    session: BridgeSessionInfo,
    identity: Option<BridgeIdentityClaim>,
)
    ensures
        session_identity(broker, session, identity) is Ok <==> {
            &&& claim_fault(session.target@, session.capabilities, identity) is None
            &&& identity is Some
            &&& claimed_in_full(identity->0, session.capabilities)
            &&& session.capabilities.host == HostKind::Photoshop
                ==> session.capabilities.bridge_kind == BridgeKind::Uxp
        },
        session_identity(broker, session, identity) is Ok ==> {
            let r = session_identity(broker, session, identity)->Ok_0;
            let claim = identity->0;
            &&& r.identity_version == 1
            &&& r.broker == broker
            &&& r.host.pid == claim.host.pid->0
            &&& r.host.process_start_identity == claim.host.process_start_identity->0@
            &&& r.host.executable_path == claim.host.executable_path->0@
            &&& r.host.host_version == claim.host.host_version->0@
            &&& r.host.profile_id == claim.host.profile_id->0@
            &&& r.bridge.target == session.target@
            &&& r.bridge.bridge_kind == session.capabilities.bridge_kind
            &&& r.bridge.bridge_version == session.capabilities.bridge_version@
            &&& r.bridge.connected_at_epoch_ms == session.connected_at_epoch_ms
            &&& r.bridge.instance_id == claim.bridge.instance_id->0@
            &&& r.bridge.installed_plugin_root == claim.bridge.installed_plugin_root->0@
            &&& r.bridge.module_origin == claim.bridge.module_origin->0@
        },
{
    if identity is Some {
        completeness(identity->0, session.capabilities);
    }
}

proof fn completeness(claim: BridgeIdentityClaim, capabilities: Capabilities)
    ensures
        missing_fields(claim, capabilities).len() == 0 <==> claimed_in_full(claim, capabilities),
        missing_fields(claim, capabilities) == text_where(claim.host.pid is None, "host.pid"@)
            + text_where(
            claim.host.process_start_identity is None,
            "host.processStartIdentity"@,
        ) + text_where(claim.host.executable_path is None, "host.executablePath"@) + text_where(
            claim.host.host_version is None || capabilities.host_version is None,
            "host.hostVersion"@,
        ) + text_where(claim.host.profile_id is None, "host.profileId"@) + text_where(
            claim.bridge.instance_id is None,
            "bridge.instanceId"@,
        ) + text_where(
            claim.bridge.installed_plugin_root is None,
            "bridge.installedPluginRoot"@,
        ) + text_where(claim.bridge.module_origin is None, "bridge.moduleOrigin"@),
{
}

/// A session without an identity says why: with the fault of its claim, with
/// what is missing of it, or that a Photoshop bridge must be a UXP one.
pub proof fn missing_identity_is_told(
    broker: BrokerRuntimeIdentityModel,
    session: BridgeSessionInfo,
    identity: Option<BridgeIdentityClaim>,
)
    requires
        session_identity(broker, session, identity) is Err,
    ensures
        ({
            let e = session_identity(broker, session, identity)->Err_0;
            let claim = identity->0;
            let fault = claim_fault(session.target@, session.capabilities, identity);
            let missing = if identity is None {
                seq!["identity"@]
            } else {
                text_where(claim.host.pid is None, "host.pid"@) + text_where(
                    claim.host.process_start_identity is None,
                    "host.processStartIdentity"@,
                ) + text_where(claim.host.executable_path is None, "host.executablePath"@)
                    + text_where(
                    claim.host.host_version is None || session.capabilities.host_version is None,
                    "host.hostVersion"@,
                ) + text_where(claim.host.profile_id is None, "host.profileId"@) + text_where(
                    claim.bridge.instance_id is None,
                    "bridge.instanceId"@,
                ) + text_where(
                    claim.bridge.installed_plugin_root is None,
                    "bridge.installedPluginRoot"@,
                ) + text_where(claim.bridge.module_origin is None, "bridge.moduleOrigin"@)
            };
            if fault is Some {
                e == fault->0
            } else if identity is None || !claimed_in_full(claim, session.capabilities) {
                &&& e.jsonrpc == "2.0"@
                &&& e.id is None
                &&& e.code == -32010
                &&& e.message == if identity is None {
                    "bridge did not attest runtime identity"@
                } else {
                    "runtime identity claim is incomplete"@
                }
                &&& e.data == Some(
                    JsonModel::Object(
                        seq![
                            MemberModel {
                                name: "host"@,
                                value: JsonModel::Text(session.capabilities.host.name()),
                            },
                            MemberModel {
                                name: "target"@,
                                value: JsonModel::Text(session.target@),
                            },
                            MemberModel { name: "missingFields"@, value: texts_json(missing) },
                        ],
                    ),
                )
            } else {
                blames_field(
                    e,
                    -32013,
                    "Photoshop runtime identity requires the UXP bridge"@,
                    "bridge.bridgeKind"@,
                )
            }
        }),
{
    let e = session_identity(broker, session, identity)->Err_0;
    if identity is Some {
        completeness(identity->0, session.capabilities);
    }
    if claim_fault(session.target@, session.capabilities, identity) is None && (identity is None
        || !claimed_in_full(identity->0, session.capabilities)) {
        let missing = if identity is None {
            seq!["identity"@]
        } else {
            missing_fields(identity->0, session.capabilities)
        };
        assert(e.data->0->Object_0 =~= seq![
            MemberModel {
                name: "host"@,
                value: JsonModel::Text(session.capabilities.host.name()),
            },
            MemberModel { name: "target"@, value: JsonModel::Text(session.target@) },
            MemberModel { name: "missingFields"@, value: texts_json(missing) },
        ]);
    }
}

/// An identity may be expected exactly if every part of it is in bounds.
pub proof fn expected_identity_is_in_bounds(m: RuntimeIdentityAttestationModel)
    ensures
        identity_shape(m) <==> {
            &&& m.broker.pid != 0
            &&& bounded_start_identity(m.broker.process_start_identity)
            &&& normal_path(m.broker.executable_path) is Some
            &&& bounded_text(m.broker.runtime_version, 64)
            &&& names_instance(m.broker.instance_id)
            &&& m.host.pid != 0
            &&& bounded_start_identity(m.host.process_start_identity)
            &&& normal_path(m.host.executable_path) is Some
            &&& bounded_text(m.host.host_version, 64)
            &&& bounded_text(m.host.profile_id, 256)
            &&& bounded_identifier(m.bridge.target, 128)
            &&& bounded_text(m.bridge.bridge_version, 64)
            &&& m.bridge.connected_at_epoch_ms != 0
            &&& names_instance(m.bridge.instance_id)
            &&& module_in_plugin(m.bridge.module_origin, m.bridge.installed_plugin_root)
        },
{
}

/// An expectation that an instance does not meet is stale where it is about an
/// earlier instance: another broker instance, a process of the same number
/// that started at another time, another connection or another bridge
/// instance. Otherwise it is a mismatch. Either way the first such field is
/// named.
pub proof fn unmet_expectation_is_told_why(
    actual: RuntimeIdentityAttestationModel,
    expected: RuntimeIdentityAttestationModel,
)
    requires
        actual != expected,
    ensures
        ({
            let e = expectation_fault(actual, expected)->0;
            let stale = "runtime identity expectation is stale"@;
            let other = "runtime identity does not match the expected instance"@;
            &&& expectation_fault(actual, expected) is Some
            &&& if actual.broker.instance_id != expected.broker.instance_id {
                blames_field(e, -32011, stale, "broker.instanceId"@)
            } else if actual.broker.pid == expected.broker.pid
                && actual.broker.process_start_identity != expected.broker.process_start_identity {
                blames_field(e, -32011, stale, "broker.processStartIdentity"@)
            } else if actual.host.pid == expected.host.pid && actual.host.process_start_identity
                != expected.host.process_start_identity {
                blames_field(e, -32011, stale, "host.processStartIdentity"@)
            } else if actual.bridge.connected_at_epoch_ms
                != expected.bridge.connected_at_epoch_ms {
                blames_field(e, -32011, stale, "bridge.connectedAtEpochMs"@)
            } else if actual.bridge.instance_id != expected.bridge.instance_id {
                blames_field(e, -32011, stale, "bridge.instanceId"@)
            } else if actual.bridge.connected_at_epoch_ms > u64::MAX {
                blames_field(e, -32013, other, "identity"@)
            } else if actual.identity_version != expected.identity_version {
                blames_field(e, -32013, other, "identityVersion"@)
            } else if actual.broker.pid != expected.broker.pid {
                blames_field(e, -32013, other, "broker.pid"@)
            } else if actual.broker.executable_path != expected.broker.executable_path {
                blames_field(e, -32013, other, "broker.executablePath"@)
            } else if actual.broker.runtime_version != expected.broker.runtime_version {
                blames_field(e, -32013, other, "broker.runtimeVersion"@)
            } else if actual.host.pid != expected.host.pid {
                blames_field(e, -32013, other, "host.pid"@)
            } else if actual.host.executable_path != expected.host.executable_path {
                blames_field(e, -32013, other, "host.executablePath"@)
            } else if actual.host.host_version != expected.host.host_version {
                blames_field(e, -32013, other, "host.hostVersion"@)
            } else if actual.host.profile_id != expected.host.profile_id {
                blames_field(e, -32013, other, "host.profileId"@)
            } else if actual.bridge.target != expected.bridge.target {
                blames_field(e, -32013, other, "bridge.target"@)
            } else if actual.bridge.bridge_kind != expected.bridge.bridge_kind {
                blames_field(e, -32013, other, "bridge.bridgeKind"@)
            } else if actual.bridge.bridge_version != expected.bridge.bridge_version {
                blames_field(e, -32013, other, "bridge.bridgeVersion"@)
            } else if actual.bridge.installed_plugin_root
                != expected.bridge.installed_plugin_root {
                blames_field(e, -32013, other, "bridge.installedPluginRoot"@)
            } else {
                actual.bridge.module_origin != expected.bridge.module_origin && blames_field(
                    e,
                    -32013,
                    other,
                    "bridge.moduleOrigin"@,
                )
            }
        }),
{
}

/// A bootstrap request is taken exactly if it is of version 1 and every part
/// of it is in bounds: the target, a time of 50 milliseconds to half a minute,
/// the executable of up to four gibibytes, manifest and start page of up to
/// one mebibyte, the module of up to 256, and the module is the plugin's own.
pub proof fn bootstrap_request_is_in_bounds(m: PhotoshopBootstrapRequestModel)
    ensures
        bootstrap_request_ok(m) <==> {
            &&& m.bootstrap_version == 1
            &&& bounded_identifier(m.target, 128)
            &&& 50 <= m.timeout_ms
            &&& m.timeout_ms <= 30_000
            &&& normal_path(m.host.executable_path) is Some
            &&& m.host.executable_bytes != 0
            &&& m.host.executable_bytes <= 4_294_967_296
            &&& sha256_shape(m.host.executable_sha256)
            &&& canonical_version(m.host.host_version)
            &&& bounded_text(m.host.profile_id, 256)
            &&& module_is_fixed(m.plugin.installed_plugin_root, m.plugin.module_origin)
            &&& canonical_version(m.plugin.bridge_version)
            &&& m.plugin.manifest_bytes != 0
            &&& m.plugin.manifest_bytes <= 1_048_576
            &&& sha256_shape(m.plugin.manifest_sha256)
            &&& m.plugin.index_bytes != 0
            &&& m.plugin.index_bytes <= 1_048_576
            &&& sha256_shape(m.plugin.index_sha256)
            &&& m.plugin.module_bytes != 0
            &&& m.plugin.module_bytes <= 268_435_456
            &&& sha256_shape(m.plugin.module_sha256)
        },
{
}

/// A connected bridge is the requested one exactly if executable, plugin and
/// module are at the requested paths, the process it names is alive, version,
/// profile, target and bridge version are the requested ones, it is a UXP
/// bridge, and its process is the started one where one was started.
pub proof fn requested_bridge_is_recognised(
    m: PhotoshopBootstrapRequestModel,
    identity: RuntimeIdentityAttestationModel,
    observed: Option<ObservedHostProcessModel>,
    claimed_live: bool,
    observed_live: bool,
)
    ensures
        bootstrap_identity_ok(m, identity, observed, claimed_live, observed_live) <==> {
            &&& claimed_live
            &&& paths_equal(identity.host.executable_path, m.host.executable_path)
            &&& paths_equal(identity.bridge.installed_plugin_root, m.plugin.installed_plugin_root)
            &&& paths_equal(identity.bridge.module_origin, m.plugin.module_origin)
            &&& identity.host.host_version == m.host.host_version
            &&& identity.host.profile_id == m.host.profile_id
            &&& identity.bridge.target == m.target
            &&& identity.bridge.bridge_kind == BridgeKind::Uxp
            &&& identity.bridge.bridge_version == m.plugin.bridge_version
            &&& observed is Some ==> {
                &&& observed_live
                &&& identity.host.pid == observed->0.pid
                &&& identity.host.process_start_identity == observed->0.process_start_identity
                &&& paths_equal(identity.host.executable_path, observed->0.executable_path)
            }
        },
{
}

/// The process that is looked up for an identity is the one its host part
/// names.
pub proof fn identity_names_its_process(identity: RuntimeIdentityAttestationModel)
    ensures
        claimed_process_model(identity).pid == identity.host.pid,
        claimed_process_model(identity).process_start_identity
            == identity.host.process_start_identity,
        claimed_process_model(identity).executable_path == identity.host.executable_path,
{
}

/// On the wire an identity is an object of version, broker, host and bridge,
/// each with its fields under their wire names; its fingerprint is the digest
/// of that object's compact text in UTF-8.
pub proof fn identity_on_the_wire(m: RuntimeIdentityAttestationModel)
    ensures
        fingerprint(m) == sha256_text(encode_utf8(render(m.json()))),
        m.json() == JsonModel::Object(
            seq![
                MemberModel {
                    name: "identityVersion"@,
                    value: JsonModel::Number(decimal_text(m.identity_version as nat)),
                },
                MemberModel { name: "broker"@, value: m.broker.json() },
                MemberModel { name: "host"@, value: m.host.json() },
                MemberModel { name: "bridge"@, value: m.bridge.json() },
            ],
        ),
        m.broker.json() == JsonModel::Object(
            seq![
                MemberModel {
                    name: "pid"@,
                    value: JsonModel::Number(decimal_text(m.broker.pid as nat)),
                },
                MemberModel {
                    name: "processStartIdentity"@,
                    value: JsonModel::Text(m.broker.process_start_identity),
                },
                MemberModel {
                    name: "executablePath"@,
                    value: JsonModel::Text(m.broker.executable_path),
                },
                MemberModel {
                    name: "runtimeVersion"@,
                    value: JsonModel::Text(m.broker.runtime_version),
                },
                MemberModel { name: "instanceId"@, value: JsonModel::Text(m.broker.instance_id) },
            ],
        ),
        m.host.json() == JsonModel::Object(
            seq![
                MemberModel {
                    name: "pid"@,
                    value: JsonModel::Number(decimal_text(m.host.pid as nat)),
                },
                MemberModel {
                    name: "processStartIdentity"@,
                    value: JsonModel::Text(m.host.process_start_identity),
                },
                MemberModel {
                    name: "executablePath"@,
                    value: JsonModel::Text(m.host.executable_path),
                },
                MemberModel { name: "hostVersion"@, value: JsonModel::Text(m.host.host_version) },
                MemberModel { name: "profileId"@, value: JsonModel::Text(m.host.profile_id) },
            ],
        ),
        m.bridge.json() == JsonModel::Object(
            seq![
                MemberModel { name: "target"@, value: JsonModel::Text(m.bridge.target) },
                MemberModel {
                    name: "bridgeKind"@,
                    value: JsonModel::Text(m.bridge.bridge_kind.name()),
                },
                MemberModel {
                    name: "bridgeVersion"@,
                    value: JsonModel::Text(m.bridge.bridge_version),
                },
                MemberModel {
                    name: "connectedAtEpochMs"@,
                    value: JsonModel::Number(
                        decimal_text(m.bridge.connected_at_epoch_ms as nat),
                    ),
                },
                MemberModel { name: "instanceId"@, value: JsonModel::Text(m.bridge.instance_id) },
                MemberModel {
                    name: "installedPluginRoot"@,
                    value: JsonModel::Text(m.bridge.installed_plugin_root),
                },
                MemberModel {
                    name: "moduleOrigin"@,
                    value: JsonModel::Text(m.bridge.module_origin),
                },
            ],
        ),
{
    assert(m.json()->Object_0 =~= seq![
        MemberModel {
            name: "identityVersion"@,
            value: JsonModel::Number(decimal_text(m.identity_version as nat)),
        },
        MemberModel { name: "broker"@, value: m.broker.json() },
        MemberModel { name: "host"@, value: m.host.json() },
        MemberModel { name: "bridge"@, value: m.bridge.json() },
    ]);
    assert(m.broker.json()->Object_0 =~= seq![
        MemberModel { name: "pid"@, value: JsonModel::Number(decimal_text(m.broker.pid as nat)) },
        MemberModel {
            name: "processStartIdentity"@,
            value: JsonModel::Text(m.broker.process_start_identity),
        },
        MemberModel { name: "executablePath"@, value: JsonModel::Text(m.broker.executable_path) },
        MemberModel { name: "runtimeVersion"@, value: JsonModel::Text(m.broker.runtime_version) },
        MemberModel { name: "instanceId"@, value: JsonModel::Text(m.broker.instance_id) },
    ]);
    assert(m.host.json()->Object_0 =~= seq![
        MemberModel { name: "pid"@, value: JsonModel::Number(decimal_text(m.host.pid as nat)) },
        MemberModel {
            name: "processStartIdentity"@,
            value: JsonModel::Text(m.host.process_start_identity),
        },
        MemberModel { name: "executablePath"@, value: JsonModel::Text(m.host.executable_path) },
        MemberModel { name: "hostVersion"@, value: JsonModel::Text(m.host.host_version) },
        MemberModel { name: "profileId"@, value: JsonModel::Text(m.host.profile_id) },
    ]);
    assert(m.bridge.json()->Object_0 =~= seq![
        MemberModel { name: "target"@, value: JsonModel::Text(m.bridge.target) },
        MemberModel { name: "bridgeKind"@, value: JsonModel::Text(m.bridge.bridge_kind.name()) },
        MemberModel { name: "bridgeVersion"@, value: JsonModel::Text(m.bridge.bridge_version) },
        MemberModel {
            name: "connectedAtEpochMs"@,
            value: JsonModel::Number(decimal_text(m.bridge.connected_at_epoch_ms as nat)),
        },
        MemberModel { name: "instanceId"@, value: JsonModel::Text(m.bridge.instance_id) },
        MemberModel {
            name: "installedPluginRoot"@,
            value: JsonModel::Text(m.bridge.installed_plugin_root),
        },
        MemberModel { name: "moduleOrigin"@, value: JsonModel::Text(m.bridge.module_origin) },
    ]);
}

} // verus!
