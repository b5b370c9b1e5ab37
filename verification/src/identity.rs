//! The rules that identity claims, expectations and requests must satisfy.
use vstd::prelude::*;
use vstd::utf8::encode_utf8;

use crate::bootstrap_types::{PhotoshopBootstrapRequest, PhotoshopBootstrapRequestModel};
use crate::checks::{
    bounded_identifier, bounded_start_identity, bounded_text, canonical_version, is_absolute_path,
    is_bounded_identifier, is_bounded_start_identity, is_bounded_text, is_canonical_version,
    is_drive_path, is_instance_id, is_sha256, module_belongs_to_plugin, module_in_plugin,
    names_drive, names_instance, normal_path, normal_path_chars, sha256_shape,
};
use crate::json::{
    member, render, text_list, text_member, text_object, texts_json, to_text, JsonModel, JsonValue,
    MemberModel, ObjectBuilder,
};
use crate::outside::{sha256_hex, sha256_text};
use crate::protocol::{
    data_error, BridgeKind, BridgeSessionInfo, Capabilities, ErrorModel, HostKind,
    RpcErrorResponse, ERROR_IDENTITY_MISMATCH, ERROR_IDENTITY_STALE, ERROR_IDENTITY_UNAVAILABLE,
    ERROR_INVALID_REQUEST, PHOTOSHOP_BOOTSTRAP_VERSION, RUNTIME_IDENTITY_VERSION,
};
use crate::runtime::{
    BridgeIdentityClaim, BridgeRuntimeIdentity, BridgeRuntimeIdentityModel, BrokerRuntimeIdentity,
    BrokerRuntimeIdentityModel, HostRuntimeIdentity, HostRuntimeIdentityModel,
    RuntimeIdentityAttestation, RuntimeIdentityAttestationModel,
};
use crate::text::{
    chars_of, lower_chars, lower_text, same_chars, same_text_option, text_option, texts,
};

verus! {

/// An error that answers no particular request.
pub fn identity_error(code: i32, message: &str, data: JsonValue) -> (r: RpcErrorResponse)
    ensures
        r@ == data_error(code, message@, data@),
{
    RpcErrorResponse::new(None, code, message).with_data(data)
}

/// An error that names the field it is about.
pub open spec fn field_error(code: i32, message: Seq<char>, field: Seq<char>) -> ErrorModel {
    data_error(code, message, text_object("field"@, field))
}

/// An error that names the field it is about.
pub fn field_fault(code: i32, message: &str, field: &str) -> (r: RpcErrorResponse)
    ensures
        r@ == field_error(code, message@, field@),
{
    identity_error(code, message, text_member("field", field))
}

/// An error that names the stage it arose in.
pub open spec fn stage_error(code: i32, message: Seq<char>, stage: Seq<char>) -> ErrorModel {
    data_error(code, message, text_object("stage"@, stage))
}

/// An error that names the stage it arose in.
pub fn stage_fault(code: i32, message: &str, stage: &str) -> (r: RpcErrorResponse)
    ensures
        r@ == stage_error(code, message@, stage@),
{
    identity_error(code, message, text_member("stage", stage))
}

/// An optional text is absent or satisfies `p`.
pub open spec fn if_present(o: Option<String>, p: spec_fn(Seq<char>) -> bool) -> bool {
    match o {
        Some(t) => p(t@),
        None => true,
    }
}

/// The host part of a claim is well formed.
pub open spec fn host_claim_ok(claim: BridgeIdentityClaim) -> bool {
    let host = claim.host;
    &&& host.pid != Some(0u32)
    &&& if_present(host.process_start_identity, |t: Seq<char>| bounded_start_identity(t))
    &&& if_present(host.executable_path, |t: Seq<char>| normal_path(t) is Some)
    &&& if_present(host.host_version, |t: Seq<char>| bounded_text(t, 64))
    &&& if_present(host.profile_id, |t: Seq<char>| bounded_text(t, 256))
}

/// The bridge part of a claim is well formed.
pub open spec fn bridge_claim_ok(claim: BridgeIdentityClaim) -> bool {
    let bridge = claim.bridge;
    &&& if_present(bridge.instance_id, |t: Seq<char>| names_instance(t))
    &&& if_present(bridge.installed_plugin_root, |t: Seq<char>| normal_path(t) is Some)
    &&& if_present(bridge.module_origin, |t: Seq<char>| normal_path(t) is Some)
}

/// Where a claim gives both the module and the plugin root, the module lies
/// below the root.
pub open spec fn module_claim_ok(claim: BridgeIdentityClaim) -> bool {
    match (claim.bridge.module_origin, claim.bridge.installed_plugin_root) {
        (Some(module), Some(root)) => module_in_plugin(module@, root@),
        _ => true,
    }
}

/// What is wrong with the identity under which a bridge connects, if anything.
/// Of several faults the first in this order is reported.
pub open spec fn claim_fault(
    target: Seq<char>,
    capabilities: Capabilities,
    identity: Option<BridgeIdentityClaim>,
) -> Option<ErrorModel> {
    if !bounded_identifier(target, 128) {
        Some(field_error(ERROR_INVALID_REQUEST, "bridge target is invalid"@, "target"@))
    } else if !bounded_text(capabilities.bridge_version@, 64) || !if_present(
        capabilities.host_version,
        |t: Seq<char>| bounded_text(t, 64),
    ) {
        Some(
            field_error(
                ERROR_INVALID_REQUEST,
                "bridge version identity is invalid"@,
                "capabilities"@,
            ),
        )
    } else {
        match identity {
            None => None,
            Some(claim) => if !host_claim_ok(claim) {
                Some(
                    field_error(
                        ERROR_INVALID_REQUEST,
                        "host runtime identity claim is invalid"@,
                        "identity.host"@,
                    ),
                )
            } else if text_option(claim.host.host_version) != text_option(
                capabilities.host_version,
            ) {
                Some(
                    field_error(
                        ERROR_IDENTITY_MISMATCH,
                        "host runtime version does not match bridge capabilities"@,
                        "host.hostVersion"@,
                    ),
                )
            } else if !bridge_claim_ok(claim) {
                Some(
                    field_error(
                        ERROR_INVALID_REQUEST,
                        "bridge runtime identity claim is invalid"@,
                        "identity.bridge"@,
                    ),
                )
            } else if !module_claim_ok(claim) {
                Some(
                    field_error(
                        ERROR_IDENTITY_MISMATCH,
                        "bridge module origin is outside the installed plugin root"@,
                        "bridge.moduleOrigin"@,
                    ),
                )
            } else {
                None
            },
        }
    }
}

fn bounded_option(o: &Option<String>, max_bytes: usize) -> (r: bool)
    ensures
        r == if_present(*o, |t: Seq<char>| bounded_text(t, max_bytes as nat)),
{
    match o {
        Some(t) => is_bounded_text(t.as_str(), max_bytes),
        None => true,
    }
}

fn path_option(o: &Option<String>) -> (r: bool)
    ensures
        r == if_present(*o, |t: Seq<char>| normal_path(t) is Some),
{
    match o {
        Some(t) => is_absolute_path(t.as_str()),
        None => true,
    }
}

/// Checks the identity under which a bridge connects.
pub fn validate_bridge_identity_claim(
    target: &str,
    capabilities: &Capabilities,
    identity: &Option<BridgeIdentityClaim>,
) -> (r: Result<(), RpcErrorResponse>)
    ensures
        match r {
            Ok(()) => claim_fault(target@, *capabilities, *identity) is None,
            Err(e) => claim_fault(target@, *capabilities, *identity) == Some(e@),
        },
{
    if !is_bounded_identifier(target, 128) {
        return Err(field_fault(ERROR_INVALID_REQUEST, "bridge target is invalid", "target"));
    }
    if !is_bounded_text(capabilities.bridge_version.as_str(), 64) || !bounded_option(
        &capabilities.host_version,
        64,
    ) {
        return Err(
            field_fault(
                ERROR_INVALID_REQUEST,
                "bridge version identity is invalid",
                "capabilities",
            ),
        );
    }
    let claim = match identity {
        Some(claim) => claim,
        None => {
            return Ok(());
        },
    };
    let host = &claim.host;
    let bridge = &claim.bridge;
    let pid_ok = match host.pid {
        Some(pid) => pid != 0,
        None => true,
    };
    let start_ok = match &host.process_start_identity {
        Some(t) => is_bounded_start_identity(t.as_str()),
        None => true,
    };
    if !pid_ok || !start_ok || !path_option(&host.executable_path) || !bounded_option(
        &host.host_version,
        64,
    ) || !bounded_option(&host.profile_id, 256) {
        return Err(
            field_fault(
                ERROR_INVALID_REQUEST,
                "host runtime identity claim is invalid",
                "identity.host",
            ),
        );
    }
    if !same_text_option(&host.host_version, &capabilities.host_version) {
        return Err(
            field_fault(
                ERROR_IDENTITY_MISMATCH,
                "host runtime version does not match bridge capabilities",
                "host.hostVersion",
            ),
        );
    }
    let instance_ok = match &bridge.instance_id {
        Some(t) => is_instance_id(t.as_str()),
        None => true,
    };
    if !instance_ok || !path_option(&bridge.installed_plugin_root) || !path_option(
        &bridge.module_origin,
    ) {
        return Err(
            field_fault(
                ERROR_INVALID_REQUEST,
                "bridge runtime identity claim is invalid",
                "identity.bridge",
            ),
        );
    }
    match (&bridge.module_origin, &bridge.installed_plugin_root) {
        (Some(module_origin), Some(plugin_root)) => {
            if !module_belongs_to_plugin(module_origin.as_str(), plugin_root.as_str()) {
                return Err(
                    field_fault(
                        ERROR_IDENTITY_MISMATCH,
                        "bridge module origin is outside the installed plugin root",
                        "bridge.moduleOrigin",
                    ),
                );
            }
        },
        _ => {},
    }
    Ok(())
}

/// The name of a field, where the field is missing.
pub open spec fn name_if(missing: bool, name: Seq<char>) -> Seq<Seq<char>> {
    if missing {
        seq![name]
    } else {
        Seq::empty()
    }
}

/// The names of the fields that a claim leaves out, in this order.
pub open spec fn missing_fields(claim: BridgeIdentityClaim, capabilities: Capabilities) -> Seq<
    Seq<char>,
> {
    name_if(claim.host.pid is None, "host.pid"@) + name_if(
        claim.host.process_start_identity is None,
        "host.processStartIdentity"@,
    ) + name_if(claim.host.executable_path is None, "host.executablePath"@) + name_if(
        claim.host.host_version is None || capabilities.host_version is None,
        "host.hostVersion"@,
    ) + name_if(claim.host.profile_id is None, "host.profileId"@) + name_if(
        claim.bridge.instance_id is None,
        "bridge.instanceId"@,
    ) + name_if(claim.bridge.installed_plugin_root is None, "bridge.installedPluginRoot"@)
        + name_if(claim.bridge.module_origin is None, "bridge.moduleOrigin"@)
}

/// The data of an error about missing identity fields.
pub open spec fn missing_data(host: HostKind, target: Seq<char>, fields: Seq<Seq<char>>) -> JsonModel {
    JsonModel::Object(
        Seq::<MemberModel>::empty().push(member("host"@, JsonModel::Text(host.name()))).push(
            member("target"@, JsonModel::Text(target)),
        ).push(member("missingFields"@, texts_json(fields))),
    )
}

/// The attestation that a complete claim gives rise to.
pub open spec fn attested(
    broker: BrokerRuntimeIdentityModel,
    session: BridgeSessionInfo,
    claim: BridgeIdentityClaim,
) -> RuntimeIdentityAttestationModel {
    RuntimeIdentityAttestationModel {
        identity_version: RUNTIME_IDENTITY_VERSION,
        broker,
        host: HostRuntimeIdentityModel {
            pid: claim.host.pid->0,
            process_start_identity: claim.host.process_start_identity->0@,
            executable_path: claim.host.executable_path->0@,
            host_version: claim.host.host_version->0@,
            profile_id: claim.host.profile_id->0@,
        },
        bridge: BridgeRuntimeIdentityModel {
            target: session.target@,
            bridge_kind: session.capabilities.bridge_kind,
            bridge_version: session.capabilities.bridge_version@,
            connected_at_epoch_ms: session.connected_at_epoch_ms,
            instance_id: claim.bridge.instance_id->0@,
            installed_plugin_root: claim.bridge.installed_plugin_root->0@,
            module_origin: claim.bridge.module_origin->0@,
        },
    }
}

/// The identity of a session: the attestation, or the first reason why there
/// is none.
pub open spec fn session_identity(
    broker: BrokerRuntimeIdentityModel,
    session: BridgeSessionInfo,
    identity: Option<BridgeIdentityClaim>,
) -> Result<RuntimeIdentityAttestationModel, ErrorModel> {
    let capabilities = session.capabilities;
    match claim_fault(session.target@, capabilities, identity) {
        Some(fault) => Err(fault),
        None => match identity {
            None => Err(
                data_error(
                    ERROR_IDENTITY_UNAVAILABLE,
                    "bridge did not attest runtime identity"@,
                    missing_data(capabilities.host, session.target@, seq!["identity"@]),
                ),
            ),
            Some(claim) => if missing_fields(claim, capabilities).len() > 0 {
                Err(
                    data_error(
                        ERROR_IDENTITY_UNAVAILABLE,
                        "runtime identity claim is incomplete"@,
                        missing_data(
                            capabilities.host,
                            session.target@,
                            missing_fields(claim, capabilities),
                        ),
                    ),
                )
            } else if capabilities.host == HostKind::Photoshop && capabilities.bridge_kind
                != BridgeKind::Uxp {
                Err(
                    field_error(
                        ERROR_IDENTITY_MISMATCH,
                        "Photoshop runtime identity requires the UXP bridge"@,
                        "bridge.bridgeKind"@,
                    ),
                )
            } else {
                Ok(attested(broker, session, claim))
            },
        },
    }
}

fn missing_error(session: &BridgeSessionInfo, message: &str, fields: &Vec<String>) -> (r:
    RpcErrorResponse)
    ensures
        r@ == data_error(
            ERROR_IDENTITY_UNAVAILABLE,
            message@,
            missing_data(session.capabilities.host, session.target@, texts(fields@)),
        ),
{
    let mut data = ObjectBuilder::new();
    data.put_text("host", session.capabilities.host.as_str());
    data.put_text("target", session.target.as_str());
    data.put("missingFields", text_list(fields));
    identity_error(ERROR_IDENTITY_UNAVAILABLE, message, data.finish())
}

fn note_missing(fields: &mut Vec<String>, missing: bool, name: &str)
    ensures
        texts(final(fields)@) == texts(old(fields)@) + name_if(missing, name@),
        final(fields)@.len() == old(fields)@.len() + name_if(missing, name@).len(),
{
    if missing {
        fields.push(name.to_owned());
    }
    assert(texts(fields@) =~= texts(old(fields)@) + name_if(missing, name@));
}

/// The identity of a session.
pub fn complete_runtime_identity(
    broker: BrokerRuntimeIdentity,
    session: &BridgeSessionInfo,
    identity: &Option<BridgeIdentityClaim>,
) -> (r: Result<RuntimeIdentityAttestation, RpcErrorResponse>)
    ensures
        match r {
            Ok(attestation) => session_identity(broker@, *session, *identity) == Ok::<
                RuntimeIdentityAttestationModel,
                ErrorModel,
            >(attestation@),
            Err(e) => session_identity(broker@, *session, *identity) == Err::<
                RuntimeIdentityAttestationModel,
                ErrorModel,
            >(e@),
        },
{
    match validate_bridge_identity_claim(session.target.as_str(), &session.capabilities, identity) {
        Ok(()) => {},
        Err(e) => {
            return Err(e);
        },
    }
    let mut missing: Vec<String> = Vec::new();
    assert(texts(missing@) =~= Seq::<Seq<char>>::empty());
    let claim = match identity {
        Some(claim) => claim,
        None => {
            note_missing(&mut missing, true, "identity");
            assert(texts(missing@) =~= seq!["identity"@]);
            return Err(
                missing_error(session, "bridge did not attest runtime identity", &missing),
            );
        },
    };
    note_missing(&mut missing, claim.host.pid.is_none(), "host.pid");
    note_missing(
        &mut missing,
        claim.host.process_start_identity.is_none(),
        "host.processStartIdentity",
    );
    note_missing(&mut missing, claim.host.executable_path.is_none(), "host.executablePath");
    note_missing(
        &mut missing,
        claim.host.host_version.is_none() || session.capabilities.host_version.is_none(),
        "host.hostVersion",
    );
    note_missing(&mut missing, claim.host.profile_id.is_none(), "host.profileId");
    note_missing(&mut missing, claim.bridge.instance_id.is_none(), "bridge.instanceId");
    note_missing(
        &mut missing,
        claim.bridge.installed_plugin_root.is_none(),
        "bridge.installedPluginRoot",
    );
    note_missing(&mut missing, claim.bridge.module_origin.is_none(), "bridge.moduleOrigin");
    assert(texts(missing@) =~= missing_fields(*claim, session.capabilities));
    match (
        claim.host.pid,
        &claim.host.process_start_identity,
        &claim.host.executable_path,
        &claim.host.host_version,
        &claim.host.profile_id,
        &claim.bridge.instance_id,
        &claim.bridge.installed_plugin_root,
        &claim.bridge.module_origin,
    ) {
        (
            Some(pid),
            Some(start),
            Some(executable),
            Some(version),
            Some(profile),
            Some(instance),
            Some(root),
            Some(module),
        ) if missing.len() == 0 => {
            if session.capabilities.host == HostKind::Photoshop && session.capabilities.bridge_kind
                != BridgeKind::Uxp {
                return Err(
                    field_fault(
                        ERROR_IDENTITY_MISMATCH,
                        "Photoshop runtime identity requires the UXP bridge",
                        "bridge.bridgeKind",
                    ),
                );
            }
            Ok(
                RuntimeIdentityAttestation {
                    identity_version: RUNTIME_IDENTITY_VERSION,
                    broker,
                    host: HostRuntimeIdentity {
                        pid,
                        process_start_identity: start.clone(),
                        executable_path: executable.clone(),
                        host_version: version.clone(),
                        profile_id: profile.clone(),
                    },
                    bridge: BridgeRuntimeIdentity {
                        target: session.target.clone(),
                        bridge_kind: session.capabilities.bridge_kind,
                        bridge_version: session.capabilities.bridge_version.clone(),
                        connected_at_epoch_ms: session.connected_at_epoch_ms,
                        instance_id: instance.clone(),
                        installed_plugin_root: root.clone(),
                        module_origin: module.clone(),
                    },
                },
            )
        },
        _ => Err(missing_error(session, "runtime identity claim is incomplete", &missing)),
    }
}

/// The shape that an expected identity must have.
pub open spec fn identity_shape(m: RuntimeIdentityAttestationModel) -> bool {
    &&& m.broker.pid > 0
    &&& bounded_start_identity(m.broker.process_start_identity)
    &&& normal_path(m.broker.executable_path) is Some
    &&& bounded_text(m.broker.runtime_version, 64)
    &&& names_instance(m.broker.instance_id)
    &&& m.host.pid > 0
    &&& bounded_start_identity(m.host.process_start_identity)
    &&& normal_path(m.host.executable_path) is Some
    &&& bounded_text(m.host.host_version, 64)
    &&& bounded_text(m.host.profile_id, 256)
    &&& bounded_identifier(m.bridge.target, 128)
    &&& bounded_text(m.bridge.bridge_version, 64)
    &&& m.bridge.connected_at_epoch_ms > 0
    &&& names_instance(m.bridge.instance_id)
    &&& module_in_plugin(m.bridge.module_origin, m.bridge.installed_plugin_root)
}

/// The error for an expected identity of the wrong shape.
pub open spec fn identity_shape_error() -> ErrorModel {
    field_error(
        ERROR_INVALID_REQUEST,
        "expected runtime identity is malformed or unbounded"@,
        "expected"@,
    )
}

/// Checks the shape of an expected identity.
pub fn validate_runtime_identity_shape(identity: &RuntimeIdentityAttestation) -> (r: Result<
    (),
    RpcErrorResponse,
>)
    ensures
        match r {
            Ok(()) => identity_shape(identity@),
            Err(e) => !identity_shape(identity@) && e@ == identity_shape_error(),
        },
{
    let broker = &identity.broker;
    let host = &identity.host;
    let bridge = &identity.bridge;
    let broker_valid = broker.pid > 0 && is_bounded_start_identity(
        broker.process_start_identity.as_str(),
    ) && is_absolute_path(broker.executable_path.as_str()) && is_bounded_text(
        broker.runtime_version.as_str(),
        64,
    ) && is_instance_id(broker.instance_id.as_str());
    let host_valid = host.pid > 0 && is_bounded_start_identity(
        host.process_start_identity.as_str(),
    ) && is_absolute_path(host.executable_path.as_str()) && is_bounded_text(
        host.host_version.as_str(),
        64,
    ) && is_bounded_text(host.profile_id.as_str(), 256);
    let bridge_valid = is_bounded_identifier(bridge.target.as_str(), 128) && is_bounded_text(
        bridge.bridge_version.as_str(),
        64,
    ) && bridge.connected_at_epoch_ms > 0 && is_instance_id(bridge.instance_id.as_str())
        && module_belongs_to_plugin(
        bridge.module_origin.as_str(),
        bridge.installed_plugin_root.as_str(),
    );
    if !broker_valid || !host_valid || !bridge_valid {
        return Err(
            field_fault(
                ERROR_INVALID_REQUEST,
                "expected runtime identity is malformed or unbounded",
                "expected",
            ),
        );
    }
    Ok(())
}

/// The first field that shows the expectation to be about an earlier instance.
pub open spec fn stale_field(
    actual: RuntimeIdentityAttestationModel,
    expected: RuntimeIdentityAttestationModel,
) -> Option<Seq<char>> {
    if actual.broker.instance_id != expected.broker.instance_id {
        Some("broker.instanceId"@)
    } else if actual.broker.pid == expected.broker.pid && actual.broker.process_start_identity
        != expected.broker.process_start_identity {
        Some("broker.processStartIdentity"@)
    } else if actual.host.pid == expected.host.pid && actual.host.process_start_identity
        != expected.host.process_start_identity {
        Some("host.processStartIdentity"@)
    } else if actual.bridge.connected_at_epoch_ms != expected.bridge.connected_at_epoch_ms {
        Some("bridge.connectedAtEpochMs"@)
    } else if actual.bridge.instance_id != expected.bridge.instance_id {
        Some("bridge.instanceId"@)
    } else {
        None
    }
}

/// The first field in which two identities differ. A connection time beyond
/// 64 bits has no JSON number, and then no field is singled out.
pub open spec fn mismatch_field(
    actual: RuntimeIdentityAttestationModel,
    expected: RuntimeIdentityAttestationModel,
) -> Seq<char> {
    if actual.bridge.connected_at_epoch_ms > u64::MAX {
        "identity"@
    } else if actual.identity_version != expected.identity_version {
        "identityVersion"@
    } else if actual.broker.pid != expected.broker.pid {
        "broker.pid"@
    } else if actual.broker.process_start_identity != expected.broker.process_start_identity {
        "broker.processStartIdentity"@
    } else if actual.broker.executable_path != expected.broker.executable_path {
        "broker.executablePath"@
    } else if actual.broker.runtime_version != expected.broker.runtime_version {
        "broker.runtimeVersion"@
    } else if actual.host.pid != expected.host.pid {
        "host.pid"@
    } else if actual.host.process_start_identity != expected.host.process_start_identity {
        "host.processStartIdentity"@
    } else if actual.host.executable_path != expected.host.executable_path {
        "host.executablePath"@
    } else if actual.host.host_version != expected.host.host_version {
        "host.hostVersion"@
    } else if actual.host.profile_id != expected.host.profile_id {
        "host.profileId"@
    } else if actual.bridge.target != expected.bridge.target {
        "bridge.target"@
    } else if actual.bridge.bridge_kind != expected.bridge.bridge_kind {
        "bridge.bridgeKind"@
    } else if actual.bridge.bridge_version != expected.bridge.bridge_version {
        "bridge.bridgeVersion"@
    } else if actual.bridge.installed_plugin_root != expected.bridge.installed_plugin_root {
        "bridge.installedPluginRoot"@
    } else if actual.bridge.module_origin != expected.bridge.module_origin {
        "bridge.moduleOrigin"@
    } else {
        "identity"@
    }
}

/// What is wrong with the actual identity where another one is expected.
pub open spec fn expectation_fault(
    actual: RuntimeIdentityAttestationModel,
    expected: RuntimeIdentityAttestationModel,
) -> Option<ErrorModel> {
    if actual == expected {
        None
    } else {
        match stale_field(actual, expected) {
            Some(field) => Some(
                field_error(
                    ERROR_IDENTITY_STALE,
                    "runtime identity expectation is stale"@,
                    field,
                ),
            ),
            None => Some(
                field_error(
                    ERROR_IDENTITY_MISMATCH,
                    "runtime identity does not match the expected instance"@,
                    mismatch_field(actual, expected),
                ),
            ),
        }
    }
}

fn find_stale_field(
    actual: &RuntimeIdentityAttestation,
    expected: &RuntimeIdentityAttestation,
) -> (r: Option<&'static str>)
    ensures
        match r {
            Some(field) => stale_field(actual@, expected@) == Some(field@),
            None => stale_field(actual@, expected@) is None,
        },
{
    if actual.broker.instance_id != expected.broker.instance_id {
        Some("broker.instanceId")
    } else if actual.broker.pid == expected.broker.pid && actual.broker.process_start_identity
        != expected.broker.process_start_identity {
        Some("broker.processStartIdentity")
    } else if actual.host.pid == expected.host.pid && actual.host.process_start_identity
        != expected.host.process_start_identity {
        Some("host.processStartIdentity")
    } else if actual.bridge.connected_at_epoch_ms != expected.bridge.connected_at_epoch_ms {
        Some("bridge.connectedAtEpochMs")
    } else if actual.bridge.instance_id != expected.bridge.instance_id {
        Some("bridge.instanceId")
    } else {
        None
    }
}

fn find_mismatch_field(
    actual: &RuntimeIdentityAttestation,
    expected: &RuntimeIdentityAttestation,
) -> (r: &'static str)
    ensures
        r@ == mismatch_field(actual@, expected@),
{
    if actual.bridge.connected_at_epoch_ms > u64::MAX as u128 {
        "identity"
    } else if actual.identity_version != expected.identity_version {
        "identityVersion"
    } else if actual.broker.pid != expected.broker.pid {
        "broker.pid"
    } else if actual.broker.process_start_identity != expected.broker.process_start_identity {
        "broker.processStartIdentity"
    } else if actual.broker.executable_path != expected.broker.executable_path {
        "broker.executablePath"
    } else if actual.broker.runtime_version != expected.broker.runtime_version {
        "broker.runtimeVersion"
    } else if actual.host.pid != expected.host.pid {
        "host.pid"
    } else if actual.host.process_start_identity != expected.host.process_start_identity {
        "host.processStartIdentity"
    } else if actual.host.executable_path != expected.host.executable_path {
        "host.executablePath"
    } else if actual.host.host_version != expected.host.host_version {
        "host.hostVersion"
    } else if actual.host.profile_id != expected.host.profile_id {
        "host.profileId"
    } else if actual.bridge.target != expected.bridge.target {
        "bridge.target"
    } else if actual.bridge.bridge_kind != expected.bridge.bridge_kind {
        "bridge.bridgeKind"
    } else if actual.bridge.bridge_version != expected.bridge.bridge_version {
        "bridge.bridgeVersion"
    } else if actual.bridge.installed_plugin_root != expected.bridge.installed_plugin_root {
        "bridge.installedPluginRoot"
    } else if actual.bridge.module_origin != expected.bridge.module_origin {
        "bridge.moduleOrigin"
    } else {
        "identity"
    }
}

/// Holds the actual identity against an expected one.
pub fn validate_expected_identity(
    actual: &RuntimeIdentityAttestation,
    expected: &RuntimeIdentityAttestation,
) -> (r: Result<(), RpcErrorResponse>)
    ensures
        match r {
            Ok(()) => expectation_fault(actual@, expected@) is None,
            Err(e) => expectation_fault(actual@, expected@) == Some(e@),
        },
{
    if actual.same(expected) {
        return Ok(());
    }
    match find_stale_field(actual, expected) {
        Some(field) => Err(
            field_fault(ERROR_IDENTITY_STALE, "runtime identity expectation is stale", field),
        ),
        None => Err(
            field_fault(
                ERROR_IDENTITY_MISMATCH,
                "runtime identity does not match the expected instance",
                find_mismatch_field(actual, expected),
            ),
        ),
    }
}

/// The digest of the compact wire form of an identity.
pub open spec fn fingerprint(m: RuntimeIdentityAttestationModel) -> Seq<char> {
    sha256_text(encode_utf8(render(m.json())))
}

/// The fingerprint of an identity.
pub fn identity_fingerprint(identity: &RuntimeIdentityAttestation) -> (r: String)
    ensures
        r@ == fingerprint(identity@),
        sha256_shape(r@),
{
    let text = to_text(&identity.to_json());
    sha256_hex(text.as_str().as_bytes())
}

/// The module is the file `dist/main.js` below the plugin root.
pub open spec fn module_is_fixed(root: Seq<char>, module: Seq<char>) -> bool {
    match (normal_path(root), normal_path(module)) {
        (Some(root), Some(module)) => if is_drive_path(root) {
            lower_text(module) == lower_text(root) + "/dist/main.js"@
        } else {
            module == root + "/dist/main.js"@
        },
        _ => false,
    }
}

/// The bounds that a Photoshop bootstrap request must keep.
pub open spec fn bootstrap_request_ok(m: PhotoshopBootstrapRequestModel) -> bool {
    &&& m.bootstrap_version == PHOTOSHOP_BOOTSTRAP_VERSION
    &&& bounded_identifier(m.target, 128)
    &&& 50 <= m.timeout_ms <= 30_000
    &&& 0 < m.host.executable_bytes <= 0x1_0000_0000
    &&& normal_path(m.host.executable_path) is Some
    &&& sha256_shape(m.host.executable_sha256)
    &&& canonical_version(m.host.host_version)
    &&& bounded_text(m.host.profile_id, 256)
    &&& module_is_fixed(m.plugin.installed_plugin_root, m.plugin.module_origin)
    &&& canonical_version(m.plugin.bridge_version)
    &&& 0 < m.plugin.manifest_bytes <= 0x10_0000
    &&& sha256_shape(m.plugin.manifest_sha256)
    &&& 0 < m.plugin.index_bytes <= 0x10_0000
    &&& sha256_shape(m.plugin.index_sha256)
    &&& 0 < m.plugin.module_bytes <= 0x1000_0000
    &&& sha256_shape(m.plugin.module_sha256)
}

/// The error for a bootstrap request out of bounds.
pub open spec fn bootstrap_request_error() -> ErrorModel {
    field_error(
        ERROR_INVALID_REQUEST,
        "Photoshop bootstrap request is malformed or unbounded"@,
        "request"@,
    )
}

fn has_fixed_module(root: &str, module: &str) -> (r: bool)
    ensures
        r == module_is_fixed(root@, module@),
{
    let root = match normal_path_chars(root) {
        Some(chars) => chars,
        None => {
            return false;
        },
    };
    let module = match normal_path_chars(module) {
        Some(chars) => chars,
        None => {
            return false;
        },
    };
    let folds = names_drive(&root);
    let mut expected = if folds {
        lower_chars(&root)
    } else {
        root
    };
    let actual = if folds {
        lower_chars(&module)
    } else {
        module
    };
    let ghost start = expected@;
    let mut tail = chars_of("/dist/main.js");
    let ghost suffix = tail@;
    expected.append(&mut tail);
    assert(expected@ =~= start + suffix);
    same_chars(&actual, &expected)
}

/// Checks the bounds of a Photoshop bootstrap request.
pub fn validate_photoshop_bootstrap_request(request: &PhotoshopBootstrapRequest) -> (r: Result<
    (),
    RpcErrorResponse,
>)
    ensures
        match r {
            Ok(()) => bootstrap_request_ok(request@),
            Err(e) => !bootstrap_request_ok(request@) && e@ == bootstrap_request_error(),
        },
{
    let host = &request.host;
    let plugin = &request.plugin;
    let ok = request.bootstrap_version == PHOTOSHOP_BOOTSTRAP_VERSION && is_bounded_identifier(
        request.target.as_str(),
        128,
    ) && 50 <= request.timeout_ms && request.timeout_ms <= 30_000 && 0 < host.executable_bytes
        && host.executable_bytes <= 0x1_0000_0000 && is_absolute_path(
        host.executable_path.as_str(),
    ) && is_sha256(host.executable_sha256.as_str()) && is_canonical_version(
        host.host_version.as_str(),
    ) && is_bounded_text(host.profile_id.as_str(), 256) && has_fixed_module(
        plugin.installed_plugin_root.as_str(),
        plugin.module_origin.as_str(),
    ) && is_canonical_version(plugin.bridge_version.as_str()) && 0 < plugin.manifest_bytes
        && plugin.manifest_bytes <= 0x10_0000 && is_sha256(plugin.manifest_sha256.as_str()) && 0
        < plugin.index_bytes && plugin.index_bytes <= 0x10_0000 && is_sha256(
        plugin.index_sha256.as_str(),
    ) && 0 < plugin.module_bytes && plugin.module_bytes <= 0x1000_0000 && is_sha256(
        plugin.module_sha256.as_str(),
    );
    if ok {
        Ok(())
    } else {
        Err(
            field_fault(
                ERROR_INVALID_REQUEST,
                "Photoshop bootstrap request is malformed or unbounded",
                "request",
            ),
        )
    }
}

} // verus!
