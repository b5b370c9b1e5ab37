//! The wire forms of requests, replies and results, member by member.
use vstd::prelude::*;

use crate::bootstrap_types::{
    BootstrapAdapterContinuation, BootstrapBrokerBinding, BootstrapHostBinding,
    BootstrapPluginBinding, IllustratorBootstrapContinuation, IllustratorBootstrapRequest,
    IllustratorBootstrapResult, IllustratorBootstrapStatus, IllustratorBootstrapVerifyRequest,
    IllustratorBrokerBinding, IllustratorHostBinding, IllustratorHostTarget,
    IllustratorPluginBinding, IllustratorPluginTarget, PhotoshopBootstrapContinuation,
    PhotoshopBootstrapRequest, PhotoshopBootstrapResult, PhotoshopBootstrapStatus,
    PhotoshopBootstrapVerifyRequest, PhotoshopHostTarget, PhotoshopPluginTarget,
};
use crate::json::{JsonModel, JsonValue, MemberModel};
use crate::protocol::{
    BridgeKind, Diagnostics, RequestId, RpcErrorResponse, RpcOptions, RpcRequest, RpcResponse,
};
use crate::runtime::{
    BridgeRuntimeIdentity, BrokerRuntimeIdentity, HostRuntimeIdentity, RuntimeIdentityAttestation,
};
use crate::text::{decimal_text, signed_decimal_text};

verus! {

/// One member.
pub open spec fn given(name: Seq<char>, value: JsonModel) -> Seq<MemberModel> {
    seq![MemberModel { name, value }]
}

/// One member, or none.
pub open spec fn if_given(so: bool, name: Seq<char>, value: JsonModel) -> Seq<MemberModel> {
    if so {
        seq![MemberModel { name, value }]
    } else {
        Seq::empty()
    }
}

/// On the wire a set of RPC options is an object of exactly these members.
pub proof fn rpc_options_on_the_wire(x: RpcOptions)
    ensures
        x@.json() == JsonModel::Object(
            given("modal"@, JsonModel::Bool(x.modal))
                + if_given(x.command_name is Some, "commandName"@, JsonModel::Text(x.command_name->0@))
                + if_given(x.timeout_ms is Some, "timeoutMs"@, JsonModel::Number(decimal_text(x.timeout_ms->0 as nat)))
                + if_given(x.trace_id is Some, "traceId"@, JsonModel::Text(x.trace_id->0@)),
        ),
{
    assert(x@.json()->Object_0 =~= given("modal"@, JsonModel::Bool(x.modal))
        + if_given(x.command_name is Some, "commandName"@, JsonModel::Text(x.command_name->0@))
        + if_given(x.timeout_ms is Some, "timeoutMs"@, JsonModel::Number(decimal_text(x.timeout_ms->0 as nat)))
        + if_given(x.trace_id is Some, "traceId"@, JsonModel::Text(x.trace_id->0@)));
}

/// On the wire a set of diagnostics is an object of exactly these members.
pub proof fn diagnostics_on_the_wire(x: Diagnostics)
    ensures
        x@.json() == JsonModel::Object(
            if_given(x.host_version is Some, "hostVersion"@, JsonModel::Text(x.host_version->0@))
                + if_given(x.bridge is Some, "bridge"@, JsonModel::Text(x.bridge->0@))
                + if_given(x.duration_ms is Some, "durationMs"@, JsonModel::Number(decimal_text(x.duration_ms->0 as nat)))
                + if_given(x.trace_id is Some, "traceId"@, JsonModel::Text(x.trace_id->0@)),
        ),
{
    assert(x@.json()->Object_0 =~= if_given(x.host_version is Some, "hostVersion"@, JsonModel::Text(x.host_version->0@))
        + if_given(x.bridge is Some, "bridge"@, JsonModel::Text(x.bridge->0@))
        + if_given(x.duration_ms is Some, "durationMs"@, JsonModel::Number(decimal_text(x.duration_ms->0 as nat)))
        + if_given(x.trace_id is Some, "traceId"@, JsonModel::Text(x.trace_id->0@)));
}

/// On the wire an RPC request is an object of exactly these members.
pub proof fn rpc_request_on_the_wire(x: RpcRequest)
    ensures
        x@.json() == JsonModel::Object(
            given("jsonrpc"@, JsonModel::Text(x.jsonrpc@))
                + given("id"@, x.id@.json())
                + given("host"@, JsonModel::Text(x.host.name()))
                + if_given(x.target is Some, "target"@, JsonModel::Text(x.target->0@))
                + given("namespace"@, JsonModel::Text(x.namespace@))
                + given("method"@, JsonModel::Text(x.method@))
                + given("args"@, JsonModel::List(x.args@.map_values(|v: JsonValue| v@)))
                + given("options"@, x.options@.json()),
        ),
{
    assert(x@.json()->Object_0 =~= given("jsonrpc"@, JsonModel::Text(x.jsonrpc@))
        + given("id"@, x.id@.json())
        + given("host"@, JsonModel::Text(x.host.name()))
        + if_given(x.target is Some, "target"@, JsonModel::Text(x.target->0@))
        + given("namespace"@, JsonModel::Text(x.namespace@))
        + given("method"@, JsonModel::Text(x.method@))
        + given("args"@, JsonModel::List(x.args@.map_values(|v: JsonValue| v@)))
        + given("options"@, x.options@.json()));
}

/// On the wire an RPC response is an object of exactly these members.
pub proof fn rpc_response_on_the_wire(x: RpcResponse)
    ensures
        x@.json() == JsonModel::Object(
            given("jsonrpc"@, JsonModel::Text(x.jsonrpc@))
                + given("id"@, x.id@.json())
                + given("result"@, x.result@)
                + if_given(x.diagnostics is Some, "diagnostics"@, x.diagnostics->0@.json()),
        ),
{
    assert(x@.json()->Object_0 =~= given("jsonrpc"@, JsonModel::Text(x.jsonrpc@))
        + given("id"@, x.id@.json())
        + given("result"@, x.result@)
        + if_given(x.diagnostics is Some, "diagnostics"@, x.diagnostics->0@.json()));
}

/// On the wire a Photoshop host target is an object of exactly these members.
pub proof fn photoshop_host_target_on_the_wire(x: PhotoshopHostTarget)
    ensures
        x@.json() == JsonModel::Object(
            given("executablePath"@, JsonModel::Text(x.executable_path@))
                + given("executableBytes"@, JsonModel::Number(decimal_text(x.executable_bytes as nat)))
                + given("executableSha256"@, JsonModel::Text(x.executable_sha256@))
                + given("hostVersion"@, JsonModel::Text(x.host_version@))
                + given("profileId"@, JsonModel::Text(x.profile_id@)),
        ),
{
    assert(x@.json()->Object_0 =~= given("executablePath"@, JsonModel::Text(x.executable_path@))
        + given("executableBytes"@, JsonModel::Number(decimal_text(x.executable_bytes as nat)))
        + given("executableSha256"@, JsonModel::Text(x.executable_sha256@))
        + given("hostVersion"@, JsonModel::Text(x.host_version@))
        + given("profileId"@, JsonModel::Text(x.profile_id@)));
}

/// On the wire a Photoshop plugin target is an object of exactly these members.
pub proof fn photoshop_plugin_target_on_the_wire(x: PhotoshopPluginTarget)
    ensures
        x@.json() == JsonModel::Object(
            given("installedPluginRoot"@, JsonModel::Text(x.installed_plugin_root@))
                + given("moduleOrigin"@, JsonModel::Text(x.module_origin@))
                + given("bridgeVersion"@, JsonModel::Text(x.bridge_version@))
                + given("manifestBytes"@, JsonModel::Number(decimal_text(x.manifest_bytes as nat)))
                + given("manifestSha256"@, JsonModel::Text(x.manifest_sha256@))
                + given("indexBytes"@, JsonModel::Number(decimal_text(x.index_bytes as nat)))
                + given("indexSha256"@, JsonModel::Text(x.index_sha256@))
                + given("moduleBytes"@, JsonModel::Number(decimal_text(x.module_bytes as nat)))
                + given("moduleSha256"@, JsonModel::Text(x.module_sha256@)),
        ),
{
    assert(x@.json()->Object_0 =~= given("installedPluginRoot"@, JsonModel::Text(x.installed_plugin_root@))
        + given("moduleOrigin"@, JsonModel::Text(x.module_origin@))
        + given("bridgeVersion"@, JsonModel::Text(x.bridge_version@))
        + given("manifestBytes"@, JsonModel::Number(decimal_text(x.manifest_bytes as nat)))
        + given("manifestSha256"@, JsonModel::Text(x.manifest_sha256@))
        + given("indexBytes"@, JsonModel::Number(decimal_text(x.index_bytes as nat)))
        + given("indexSha256"@, JsonModel::Text(x.index_sha256@))
        + given("moduleBytes"@, JsonModel::Number(decimal_text(x.module_bytes as nat)))
        + given("moduleSha256"@, JsonModel::Text(x.module_sha256@)));
}

/// On the wire a Photoshop bootstrap request is an object of exactly these members.
pub proof fn photoshop_bootstrap_request_on_the_wire(x: PhotoshopBootstrapRequest)
    ensures
        x@.json() == JsonModel::Object(
            given("bootstrapVersion"@, JsonModel::Number(decimal_text(x.bootstrap_version as nat)))
                + given("target"@, JsonModel::Text(x.target@))
                + given("timeoutMs"@, JsonModel::Number(decimal_text(x.timeout_ms as nat)))
                + given("host"@, x.host@.json())
                + given("plugin"@, x.plugin@.json()),
        ),
{
    assert(x@.json()->Object_0 =~= given("bootstrapVersion"@, JsonModel::Number(decimal_text(x.bootstrap_version as nat)))
        + given("target"@, JsonModel::Text(x.target@))
        + given("timeoutMs"@, JsonModel::Number(decimal_text(x.timeout_ms as nat)))
        + given("host"@, x.host@.json())
        + given("plugin"@, x.plugin@.json()));
}

/// On the wire a bootstrap broker binding is an object of exactly these members.
pub proof fn bootstrap_broker_binding_on_the_wire(x: BootstrapBrokerBinding)
    ensures
        x@.json() == JsonModel::Object(
            given("pid"@, JsonModel::Number(decimal_text(x.pid as nat)))
                + given("processStartIdentity"@, JsonModel::Text(x.process_start_identity@))
                + given("runtimeVersion"@, JsonModel::Text(x.runtime_version@))
                + given("instanceId"@, JsonModel::Text(x.instance_id@))
                + given("executableSha256"@, JsonModel::Text(x.executable_sha256@)),
        ),
{
    assert(x@.json()->Object_0 =~= given("pid"@, JsonModel::Number(decimal_text(x.pid as nat)))
        + given("processStartIdentity"@, JsonModel::Text(x.process_start_identity@))
        + given("runtimeVersion"@, JsonModel::Text(x.runtime_version@))
        + given("instanceId"@, JsonModel::Text(x.instance_id@))
        + given("executableSha256"@, JsonModel::Text(x.executable_sha256@)));
}

/// On the wire a bootstrap host binding is an object of exactly these members.
pub proof fn bootstrap_host_binding_on_the_wire(x: BootstrapHostBinding)
    ensures
        x@.json() == JsonModel::Object(
            given("pid"@, JsonModel::Number(decimal_text(x.pid as nat)))
                + given("processStartIdentity"@, JsonModel::Text(x.process_start_identity@))
                + given("hostVersion"@, JsonModel::Text(x.host_version@))
                + given("profileId"@, JsonModel::Text(x.profile_id@))
                + given("executableSha256"@, JsonModel::Text(x.executable_sha256@)),
        ),
{
    assert(x@.json()->Object_0 =~= given("pid"@, JsonModel::Number(decimal_text(x.pid as nat)))
        + given("processStartIdentity"@, JsonModel::Text(x.process_start_identity@))
        + given("hostVersion"@, JsonModel::Text(x.host_version@))
        + given("profileId"@, JsonModel::Text(x.profile_id@))
        + given("executableSha256"@, JsonModel::Text(x.executable_sha256@)));
}

/// On the wire a bootstrap plugin binding is an object of exactly these members.
pub proof fn bootstrap_plugin_binding_on_the_wire(x: BootstrapPluginBinding)
    ensures
        x@.json() == JsonModel::Object(
            given("instanceId"@, JsonModel::Text(x.instance_id@))
                + given("bridgeVersion"@, JsonModel::Text(x.bridge_version@))
                + given("moduleSha256"@, JsonModel::Text(x.module_sha256@)),
        ),
{
    assert(x@.json()->Object_0 =~= given("instanceId"@, JsonModel::Text(x.instance_id@))
        + given("bridgeVersion"@, JsonModel::Text(x.bridge_version@))
        + given("moduleSha256"@, JsonModel::Text(x.module_sha256@)));
}

/// On the wire a Photoshop bootstrap continuation is an object of exactly these members.
pub proof fn photoshop_bootstrap_continuation_on_the_wire(x: PhotoshopBootstrapContinuation)
    ensures
        x@.json() == JsonModel::Object(
            given("method"@, JsonModel::Text(x.method@))
                + given("path"@, JsonModel::Text(x.path@))
                + given("receiptId"@, JsonModel::Text(x.receipt_id@))
                + given("timeoutMs"@, JsonModel::Number(decimal_text(x.timeout_ms as nat))),
        ),
{
    assert(x@.json()->Object_0 =~= given("method"@, JsonModel::Text(x.method@))
        + given("path"@, JsonModel::Text(x.path@))
        + given("receiptId"@, JsonModel::Text(x.receipt_id@))
        + given("timeoutMs"@, JsonModel::Number(decimal_text(x.timeout_ms as nat))));
}

/// On the wire a bootstrap adapter continuation is an object of exactly these members.
pub proof fn bootstrap_adapter_continuation_on_the_wire(x: BootstrapAdapterContinuation)
    ensures
        x@.json() == JsonModel::Object(
            given("kind"@, JsonModel::Text(x.kind@))
                + given("argv"@, JsonModel::List(x.argv@.map_values(|t: String| JsonModel::Text(t@)))),
        ),
{
    assert(x@.argv.map_values(|t: Seq<char>| JsonModel::Text(t)) =~= x.argv@.map_values(
        |t: String| JsonModel::Text(t@),
    ));
    assert(x@.json()->Object_0 =~= given("kind"@, JsonModel::Text(x.kind@))
        + given("argv"@, JsonModel::List(x.argv@.map_values(|t: String| JsonModel::Text(t@)))));
}

/// On the wire a Photoshop bootstrap result is an object of exactly these members.
pub proof fn photoshop_bootstrap_result_on_the_wire(x: PhotoshopBootstrapResult)
    ensures
        x@.json() == JsonModel::Object(
            given("bootstrapVersion"@, JsonModel::Number(decimal_text(x.bootstrap_version as nat)))
                + given("status"@, JsonModel::Text(x.status.name()))
                + given("identityFingerprint"@, JsonModel::Text(x.identity_fingerprint@))
                + given("broker"@, x.broker@.json())
                + given("host"@, x.host@.json())
                + given("plugin"@, x.plugin@.json())
                + given("continuation"@, x.continuation@.json())
                + if_given(x.adapter_continuation is Some, "adapterContinuation"@, x.adapter_continuation->0@.json()),
        ),
{
    assert(x@.json()->Object_0 =~= given("bootstrapVersion"@, JsonModel::Number(decimal_text(x.bootstrap_version as nat)))
        + given("status"@, JsonModel::Text(x.status.name()))
        + given("identityFingerprint"@, JsonModel::Text(x.identity_fingerprint@))
        + given("broker"@, x.broker@.json())
        + given("host"@, x.host@.json())
        + given("plugin"@, x.plugin@.json())
        + given("continuation"@, x.continuation@.json())
        + if_given(x.adapter_continuation is Some, "adapterContinuation"@, x.adapter_continuation->0@.json()));
}

/// On the wire a Photoshop bootstrap verify request is an object of exactly these members.
pub proof fn photoshop_bootstrap_verify_request_on_the_wire(x: PhotoshopBootstrapVerifyRequest)
    ensures
        x@.json() == JsonModel::Object(
            given("receiptId"@, JsonModel::Text(x.receipt_id@)),
        ),
{
    assert(x@.json()->Object_0 =~= given("receiptId"@, JsonModel::Text(x.receipt_id@)));
}

/// On the wire an Illustrator host target is an object of exactly these members.
pub proof fn illustrator_host_target_on_the_wire(x: IllustratorHostTarget)
    ensures
        x@.json() == JsonModel::Object(
            given("executablePath"@, JsonModel::Text(x.executable_path@))
                + given("executableBytes"@, JsonModel::Number(decimal_text(x.executable_bytes as nat)))
                + given("executableSha256"@, JsonModel::Text(x.executable_sha256@))
                + given("hostVersion"@, JsonModel::Text(x.host_version@))
                + given("profileId"@, JsonModel::Text(x.profile_id@)),
        ),
{
    assert(x@.json()->Object_0 =~= given("executablePath"@, JsonModel::Text(x.executable_path@))
        + given("executableBytes"@, JsonModel::Number(decimal_text(x.executable_bytes as nat)))
        + given("executableSha256"@, JsonModel::Text(x.executable_sha256@))
        + given("hostVersion"@, JsonModel::Text(x.host_version@))
        + given("profileId"@, JsonModel::Text(x.profile_id@)));
}

/// On the wire an Illustrator plugin target is an object of exactly these members.
pub proof fn illustrator_plugin_target_on_the_wire(x: IllustratorPluginTarget)
    ensures
        x@.json() == JsonModel::Object(
            given("installedPluginRoot"@, JsonModel::Text(x.installed_plugin_root@))
                + given("moduleOrigin"@, JsonModel::Text(x.module_origin@))
                + given("bridgeVersion"@, JsonModel::Text(x.bridge_version@))
                + given("manifestBytes"@, JsonModel::Number(decimal_text(x.manifest_bytes as nat)))
                + given("manifestSha256"@, JsonModel::Text(x.manifest_sha256@))
                + given("indexBytes"@, JsonModel::Number(decimal_text(x.index_bytes as nat)))
                + given("indexSha256"@, JsonModel::Text(x.index_sha256@))
                + given("moduleBytes"@, JsonModel::Number(decimal_text(x.module_bytes as nat)))
                + given("moduleSha256"@, JsonModel::Text(x.module_sha256@)),
        ),
{
    assert(x@.json()->Object_0 =~= given("installedPluginRoot"@, JsonModel::Text(x.installed_plugin_root@))
        + given("moduleOrigin"@, JsonModel::Text(x.module_origin@))
        + given("bridgeVersion"@, JsonModel::Text(x.bridge_version@))
        + given("manifestBytes"@, JsonModel::Number(decimal_text(x.manifest_bytes as nat)))
        + given("manifestSha256"@, JsonModel::Text(x.manifest_sha256@))
        + given("indexBytes"@, JsonModel::Number(decimal_text(x.index_bytes as nat)))
        + given("indexSha256"@, JsonModel::Text(x.index_sha256@))
        + given("moduleBytes"@, JsonModel::Number(decimal_text(x.module_bytes as nat)))
        + given("moduleSha256"@, JsonModel::Text(x.module_sha256@)));
}

/// On the wire an Illustrator bootstrap request is an object of exactly these members.
pub proof fn illustrator_bootstrap_request_on_the_wire(x: IllustratorBootstrapRequest)
    ensures
        x@.json() == JsonModel::Object(
            given("bootstrapVersion"@, JsonModel::Number(decimal_text(x.bootstrap_version as nat)))
                + given("target"@, JsonModel::Text(x.target@))
                + given("timeoutMs"@, JsonModel::Number(decimal_text(x.timeout_ms as nat)))
                + given("host"@, x.host@.json())
                + given("plugin"@, x.plugin@.json()),
        ),
{
    assert(x@.json()->Object_0 =~= given("bootstrapVersion"@, JsonModel::Number(decimal_text(x.bootstrap_version as nat)))
        + given("target"@, JsonModel::Text(x.target@))
        + given("timeoutMs"@, JsonModel::Number(decimal_text(x.timeout_ms as nat)))
        + given("host"@, x.host@.json())
        + given("plugin"@, x.plugin@.json()));
}

/// On the wire an Illustrator broker binding is an object of exactly these members.
pub proof fn illustrator_broker_binding_on_the_wire(x: IllustratorBrokerBinding)
    ensures
        x@.json() == JsonModel::Object(
            given("pid"@, JsonModel::Number(decimal_text(x.pid as nat)))
                + given("processStartIdentity"@, JsonModel::Text(x.process_start_identity@))
                + given("runtimeVersion"@, JsonModel::Text(x.runtime_version@))
                + given("instanceId"@, JsonModel::Text(x.instance_id@))
                + given("executableSha256"@, JsonModel::Text(x.executable_sha256@)),
        ),
{
    assert(x@.json()->Object_0 =~= given("pid"@, JsonModel::Number(decimal_text(x.pid as nat)))
        + given("processStartIdentity"@, JsonModel::Text(x.process_start_identity@))
        + given("runtimeVersion"@, JsonModel::Text(x.runtime_version@))
        + given("instanceId"@, JsonModel::Text(x.instance_id@))
        + given("executableSha256"@, JsonModel::Text(x.executable_sha256@)));
}

/// On the wire an Illustrator host binding is an object of exactly these members.
pub proof fn illustrator_host_binding_on_the_wire(x: IllustratorHostBinding)
    ensures
        x@.json() == JsonModel::Object(
            given("pid"@, JsonModel::Number(decimal_text(x.pid as nat)))
                + given("processStartIdentity"@, JsonModel::Text(x.process_start_identity@))
                + given("hostVersion"@, JsonModel::Text(x.host_version@))
                + given("profileId"@, JsonModel::Text(x.profile_id@))
                + given("instanceId"@, JsonModel::Text(x.instance_id@))
                + given("executableSha256"@, JsonModel::Text(x.executable_sha256@)),
        ),
{
    assert(x@.json()->Object_0 =~= given("pid"@, JsonModel::Number(decimal_text(x.pid as nat)))
        + given("processStartIdentity"@, JsonModel::Text(x.process_start_identity@))
        + given("hostVersion"@, JsonModel::Text(x.host_version@))
        + given("profileId"@, JsonModel::Text(x.profile_id@))
        + given("instanceId"@, JsonModel::Text(x.instance_id@))
        + given("executableSha256"@, JsonModel::Text(x.executable_sha256@)));
}

/// On the wire an Illustrator plugin binding is an object of exactly these members.
pub proof fn illustrator_plugin_binding_on_the_wire(x: IllustratorPluginBinding)
    ensures
        x@.json() == JsonModel::Object(
            given("target"@, JsonModel::Text(x.target@))
                + given("connectedAtEpochMs"@, JsonModel::Number(decimal_text(x.connected_at_epoch_ms as nat)))
                + given("instanceId"@, JsonModel::Text(x.instance_id@))
                + given("bridgeVersion"@, JsonModel::Text(x.bridge_version@))
                + given("moduleSha256"@, JsonModel::Text(x.module_sha256@)),
        ),
{
    assert(x@.json()->Object_0 =~= given("target"@, JsonModel::Text(x.target@))
        + given("connectedAtEpochMs"@, JsonModel::Number(decimal_text(x.connected_at_epoch_ms as nat)))
        + given("instanceId"@, JsonModel::Text(x.instance_id@))
        + given("bridgeVersion"@, JsonModel::Text(x.bridge_version@))
        + given("moduleSha256"@, JsonModel::Text(x.module_sha256@)));
}

/// On the wire an Illustrator bootstrap continuation is an object of exactly these members.
pub proof fn illustrator_bootstrap_continuation_on_the_wire(x: IllustratorBootstrapContinuation)
    ensures
        x@.json() == JsonModel::Object(
            given("method"@, JsonModel::Text(x.method@))
                + given("path"@, JsonModel::Text(x.path@))
                + given("receiptId"@, JsonModel::Text(x.receipt_id@))
                + given("timeoutMs"@, JsonModel::Number(decimal_text(x.timeout_ms as nat))),
        ),
{
    assert(x@.json()->Object_0 =~= given("method"@, JsonModel::Text(x.method@))
        + given("path"@, JsonModel::Text(x.path@))
        + given("receiptId"@, JsonModel::Text(x.receipt_id@))
        + given("timeoutMs"@, JsonModel::Number(decimal_text(x.timeout_ms as nat))));
}

/// On the wire an Illustrator bootstrap result is an object of exactly these members.
pub proof fn illustrator_bootstrap_result_on_the_wire(x: IllustratorBootstrapResult)
    ensures
        x@.json() == JsonModel::Object(
            given("bootstrapVersion"@, JsonModel::Number(decimal_text(x.bootstrap_version as nat)))
                + given("status"@, JsonModel::Text(x.status.name()))
                + given("identityFingerprint"@, JsonModel::Text(x.identity_fingerprint@))
                + given("broker"@, x.broker@.json())
                + given("host"@, x.host@.json())
                + given("plugin"@, x.plugin@.json())
                + given("continuation"@, x.continuation@.json())
                + given("adapterContinuation"@, x.adapter_continuation@.json()),
        ),
{
    assert(x@.json()->Object_0 =~= given("bootstrapVersion"@, JsonModel::Number(decimal_text(x.bootstrap_version as nat)))
        + given("status"@, JsonModel::Text(x.status.name()))
        + given("identityFingerprint"@, JsonModel::Text(x.identity_fingerprint@))
        + given("broker"@, x.broker@.json())
        + given("host"@, x.host@.json())
        + given("plugin"@, x.plugin@.json())
        + given("continuation"@, x.continuation@.json())
        + given("adapterContinuation"@, x.adapter_continuation@.json()));
}

/// On the wire an Illustrator bootstrap verify request is an object of exactly these members.
pub proof fn illustrator_bootstrap_verify_request_on_the_wire(x: IllustratorBootstrapVerifyRequest)
    ensures
        x@.json() == JsonModel::Object(
            given("receiptId"@, JsonModel::Text(x.receipt_id@)),
        ),
{
    assert(x@.json()->Object_0 =~= given("receiptId"@, JsonModel::Text(x.receipt_id@)));
}

/// On the wire a broker runtime identity is an object of exactly these members.
pub proof fn broker_runtime_identity_on_the_wire(x: BrokerRuntimeIdentity)
    ensures
        x@.json() == JsonModel::Object(
            given("pid"@, JsonModel::Number(decimal_text(x.pid as nat)))
                + given("processStartIdentity"@, JsonModel::Text(x.process_start_identity@))
                + given("executablePath"@, JsonModel::Text(x.executable_path@))
                + given("runtimeVersion"@, JsonModel::Text(x.runtime_version@))
                + given("instanceId"@, JsonModel::Text(x.instance_id@)),
        ),
{
    assert(x@.json()->Object_0 =~= given("pid"@, JsonModel::Number(decimal_text(x.pid as nat)))
        + given("processStartIdentity"@, JsonModel::Text(x.process_start_identity@))
        + given("executablePath"@, JsonModel::Text(x.executable_path@))
        + given("runtimeVersion"@, JsonModel::Text(x.runtime_version@))
        + given("instanceId"@, JsonModel::Text(x.instance_id@)));
}

/// On the wire a host runtime identity is an object of exactly these members.
pub proof fn host_runtime_identity_on_the_wire(x: HostRuntimeIdentity)
    ensures
        x@.json() == JsonModel::Object(
            given("pid"@, JsonModel::Number(decimal_text(x.pid as nat)))
                + given("processStartIdentity"@, JsonModel::Text(x.process_start_identity@))
                + given("executablePath"@, JsonModel::Text(x.executable_path@))
                + given("hostVersion"@, JsonModel::Text(x.host_version@))
                + given("profileId"@, JsonModel::Text(x.profile_id@)),
        ),
{
    assert(x@.json()->Object_0 =~= given("pid"@, JsonModel::Number(decimal_text(x.pid as nat)))
        + given("processStartIdentity"@, JsonModel::Text(x.process_start_identity@))
        + given("executablePath"@, JsonModel::Text(x.executable_path@))
        + given("hostVersion"@, JsonModel::Text(x.host_version@))
        + given("profileId"@, JsonModel::Text(x.profile_id@)));
}

/// On the wire a bridge runtime identity is an object of exactly these members.
pub proof fn bridge_runtime_identity_on_the_wire(x: BridgeRuntimeIdentity)
    ensures
        x@.json() == JsonModel::Object(
            given("target"@, JsonModel::Text(x.target@))
                + given("bridgeKind"@, JsonModel::Text(x.bridge_kind.name()))
                + given("bridgeVersion"@, JsonModel::Text(x.bridge_version@))
                + given("connectedAtEpochMs"@, JsonModel::Number(decimal_text(x.connected_at_epoch_ms as nat)))
                + given("instanceId"@, JsonModel::Text(x.instance_id@))
                + given("installedPluginRoot"@, JsonModel::Text(x.installed_plugin_root@))
                + given("moduleOrigin"@, JsonModel::Text(x.module_origin@)),
        ),
{
    assert(x@.json()->Object_0 =~= given("target"@, JsonModel::Text(x.target@))
        + given("bridgeKind"@, JsonModel::Text(x.bridge_kind.name()))
        + given("bridgeVersion"@, JsonModel::Text(x.bridge_version@))
        + given("connectedAtEpochMs"@, JsonModel::Number(decimal_text(x.connected_at_epoch_ms as nat)))
        + given("instanceId"@, JsonModel::Text(x.instance_id@))
        + given("installedPluginRoot"@, JsonModel::Text(x.installed_plugin_root@))
        + given("moduleOrigin"@, JsonModel::Text(x.module_origin@)));
}

/// On the wire a runtime identity attestation is an object of exactly these members.
pub proof fn runtime_identity_attestation_on_the_wire(x: RuntimeIdentityAttestation)
    ensures
        x@.json() == JsonModel::Object(
            given("identityVersion"@, JsonModel::Number(decimal_text(x.identity_version as nat)))
                + given("broker"@, x.broker@.json())
                + given("host"@, x.host@.json())
                + given("bridge"@, x.bridge@.json()),
        ),
{
    assert(x@.json()->Object_0 =~= given("identityVersion"@, JsonModel::Number(decimal_text(x.identity_version as nat)))
        + given("broker"@, x.broker@.json())
        + given("host"@, x.host@.json())
        + given("bridge"@, x.bridge@.json()));
}

/// On the wire a failed reply is an object of version, identifier where there
/// is one, the error with code, message and data, and what was reported of the
/// call.
pub proof fn rpc_error_response_on_the_wire(x: RpcErrorResponse)
    ensures
        x@.json() == JsonModel::Object(
            given("jsonrpc"@, JsonModel::Text(x.jsonrpc@))
                + if_given(x.id is Some, "id"@, x.id->0@.json())
                + given(
                "error"@,
                JsonModel::Object(
                    given("code"@, JsonModel::Number(signed_decimal_text(x.error.code as int)))
                        + given("message"@, JsonModel::Text(x.error.message@))
                        + if_given(x.error.data is Some, "data"@, x.error.data->0@),
                ),
            ) + if_given(x.diagnostics is Some, "diagnostics"@, x.diagnostics->0@.json()),
        ),
{
    let inner = given("code"@, JsonModel::Number(signed_decimal_text(x.error.code as int)))
        + given("message"@, JsonModel::Text(x.error.message@)) + if_given(
        x.error.data is Some,
        "data"@,
        x.error.data->0@,
    );
    let e = Seq::<MemberModel>::empty();
    let e = e.push(
        MemberModel {
            name: "code"@,
            value: JsonModel::Number(signed_decimal_text(x.error.code as int)),
        },
    );
    let e = e.push(MemberModel { name: "message"@, value: JsonModel::Text(x.error.message@) });
    let e = if x.error.data is Some {
        e.push(MemberModel { name: "data"@, value: x.error.data->0@ })
    } else {
        e
    };
    assert(e =~= inner);
    assert(x@.json()->Object_0 =~= given("jsonrpc"@, JsonModel::Text(x.jsonrpc@)) + if_given(
        x.id is Some,
        "id"@,
        x.id->0@.json(),
    ) + given("error"@, JsonModel::Object(inner)) + if_given(
        x.diagnostics is Some,
        "diagnostics"@,
        x.diagnostics->0@.json(),
    ));
}

/// An identifier keeps its kind on the wire: a text stays a text, a number a
/// number.
pub proof fn request_id_on_the_wire(x: RequestId)
    ensures
        x is String ==> x@.json() == JsonModel::Text(x->String_0@) && x@.text() == x->String_0@,
        x is Number ==> x@.json() == JsonModel::Number(signed_decimal_text(x->Number_0 as int))
            && x@.text() == signed_decimal_text(x->Number_0 as int),
{
}

/// The names of bridge kinds and outcomes on the wire.
pub proof fn kinds_go_by_their_names()
    ensures
        BridgeKind::Uxp.name() == "uxp"@,
        BridgeKind::Cep.name() == "cep"@,
        BridgeKind::ExtendScript.name() == "extendscript"@,
        BridgeKind::Lua.name() == "lua"@,
        BridgeKind::Native.name() == "native"@,
        BridgeKind::AcrobatJs.name() == "acrobat-js"@,
        BridgeKind::Rest.name() == "rest"@,
        PhotoshopBootstrapStatus::Ready.name() == "ready"@,
        PhotoshopBootstrapStatus::AlreadyReady.name() == "already_ready"@,
        IllustratorBootstrapStatus::Ready.name() == "ready"@,
        IllustratorBootstrapStatus::AlreadyReady.name() == "already_ready"@,
{
}

} // verus!
