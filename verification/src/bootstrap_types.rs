//! The requests and results of the bootstrap operations.
use vstd::prelude::*;

use crate::json::{
    member, number, number_json, text_list, texts_json, JsonModel, JsonValue, MemberModel,
    ObjectBuilder,
};
use crate::text::{clone_texts, texts};

verus! {

/// The exact Photoshop executable to run.
#[derive(Debug, PartialEq, Eq)]
pub struct PhotoshopHostTarget {
    pub executable_path: String,
    pub executable_bytes: u64,
    pub executable_sha256: String,
    pub host_version: String,
    pub profile_id: String,
}

/// The mathematical value behind a [`PhotoshopHostTarget`].
#[verifier::ext_equal]
pub struct PhotoshopHostTargetModel {
    pub executable_path: Seq<char>,
    pub executable_bytes: u64,
    pub executable_sha256: Seq<char>,
    pub host_version: Seq<char>,
    pub profile_id: Seq<char>,
}

impl View for PhotoshopHostTarget {
    type V = PhotoshopHostTargetModel;

    open spec fn view(&self) -> PhotoshopHostTargetModel {
        PhotoshopHostTargetModel {
            executable_path: self.executable_path@,
            executable_bytes: self.executable_bytes,
            executable_sha256: self.executable_sha256@,
            host_version: self.host_version@,
            profile_id: self.profile_id@,
        }
    }
}

impl Clone for PhotoshopHostTarget {
    fn clone(&self) -> (r: Self)
        ensures
            r == *self,
    {
        PhotoshopHostTarget {
            executable_path: self.executable_path.clone(),
            executable_bytes: self.executable_bytes,
            executable_sha256: self.executable_sha256.clone(),
            host_version: self.host_version.clone(),
            profile_id: self.profile_id.clone(),
        }
    }
}

impl PhotoshopHostTarget {
    /// Field-by-field equality.
    pub fn same(&self, other: &Self) -> (r: bool)
        ensures
            r == (self@ == other@),
    {
        self.executable_path == other.executable_path && self.executable_bytes == other.executable_bytes && self.executable_sha256 == other.executable_sha256 && self.host_version == other.host_version && self.profile_id == other.profile_id
    }
}

impl PhotoshopHostTargetModel {
    /// The wire form: one member per field, in this order.
    pub open spec fn json(self) -> JsonModel {
        let s = Seq::<MemberModel>::empty();
        let s = s.push(member("executablePath"@, JsonModel::Text(self.executable_path)));
        let s = s.push(member("executableBytes"@, number_json(self.executable_bytes as nat)));
        let s = s.push(member("executableSha256"@, JsonModel::Text(self.executable_sha256)));
        let s = s.push(member("hostVersion"@, JsonModel::Text(self.host_version)));
        let s = s.push(member("profileId"@, JsonModel::Text(self.profile_id)));
        JsonModel::Object(s)
    }
}

impl PhotoshopHostTarget {
    /// The wire form of the value.
    pub fn to_json(&self) -> (r: JsonValue)
        ensures
            r@ == self@.json(),
    {
        let mut object = ObjectBuilder::new();
        object.put("executablePath", JsonValue::Text(self.executable_path.clone()));
        object.put("executableBytes", number(self.executable_bytes as u128));
        object.put("executableSha256", JsonValue::Text(self.executable_sha256.clone()));
        object.put("hostVersion", JsonValue::Text(self.host_version.clone()));
        object.put("profileId", JsonValue::Text(self.profile_id.clone()));
        object.finish()
    }
}
/// The exact plugin files to load.
#[derive(Debug, PartialEq, Eq)]
pub struct PhotoshopPluginTarget {
    pub installed_plugin_root: String,
    pub module_origin: String,
    pub bridge_version: String,
    pub manifest_bytes: u64,
    pub manifest_sha256: String,
    pub index_bytes: u64,
    pub index_sha256: String,
    pub module_bytes: u64,
    pub module_sha256: String,
}

/// The mathematical value behind a [`PhotoshopPluginTarget`].
#[verifier::ext_equal]
pub struct PhotoshopPluginTargetModel {
    pub installed_plugin_root: Seq<char>,
    pub module_origin: Seq<char>,
    pub bridge_version: Seq<char>,
    pub manifest_bytes: u64,
    pub manifest_sha256: Seq<char>,
    pub index_bytes: u64,
    pub index_sha256: Seq<char>,
    pub module_bytes: u64,
    pub module_sha256: Seq<char>,
}

impl View for PhotoshopPluginTarget {
    type V = PhotoshopPluginTargetModel;

    open spec fn view(&self) -> PhotoshopPluginTargetModel {
        PhotoshopPluginTargetModel {
            installed_plugin_root: self.installed_plugin_root@,
            module_origin: self.module_origin@,
            bridge_version: self.bridge_version@,
            manifest_bytes: self.manifest_bytes,
            manifest_sha256: self.manifest_sha256@,
            index_bytes: self.index_bytes,
            index_sha256: self.index_sha256@,
            module_bytes: self.module_bytes,
            module_sha256: self.module_sha256@,
        }
    }
}

impl Clone for PhotoshopPluginTarget {
    fn clone(&self) -> (r: Self)
        ensures
            r == *self,
    {
        PhotoshopPluginTarget {
            installed_plugin_root: self.installed_plugin_root.clone(),
            module_origin: self.module_origin.clone(),
            bridge_version: self.bridge_version.clone(),
            manifest_bytes: self.manifest_bytes,
            manifest_sha256: self.manifest_sha256.clone(),
            index_bytes: self.index_bytes,
            index_sha256: self.index_sha256.clone(),
            module_bytes: self.module_bytes,
            module_sha256: self.module_sha256.clone(),
        }
    }
}

impl PhotoshopPluginTarget {
    /// Field-by-field equality.
    pub fn same(&self, other: &Self) -> (r: bool)
        ensures
            r == (self@ == other@),
    {
        self.installed_plugin_root == other.installed_plugin_root && self.module_origin == other.module_origin && self.bridge_version == other.bridge_version && self.manifest_bytes == other.manifest_bytes && self.manifest_sha256 == other.manifest_sha256 && self.index_bytes == other.index_bytes && self.index_sha256 == other.index_sha256 && self.module_bytes == other.module_bytes && self.module_sha256 == other.module_sha256
    }
}

impl PhotoshopPluginTargetModel {
    /// The wire form: one member per field, in this order.
    pub open spec fn json(self) -> JsonModel {
        let s = Seq::<MemberModel>::empty();
        let s = s.push(member("installedPluginRoot"@, JsonModel::Text(self.installed_plugin_root)));
        let s = s.push(member("moduleOrigin"@, JsonModel::Text(self.module_origin)));
        let s = s.push(member("bridgeVersion"@, JsonModel::Text(self.bridge_version)));
        let s = s.push(member("manifestBytes"@, number_json(self.manifest_bytes as nat)));
        let s = s.push(member("manifestSha256"@, JsonModel::Text(self.manifest_sha256)));
        let s = s.push(member("indexBytes"@, number_json(self.index_bytes as nat)));
        let s = s.push(member("indexSha256"@, JsonModel::Text(self.index_sha256)));
        let s = s.push(member("moduleBytes"@, number_json(self.module_bytes as nat)));
        let s = s.push(member("moduleSha256"@, JsonModel::Text(self.module_sha256)));
        JsonModel::Object(s)
    }
}

impl PhotoshopPluginTarget {
    /// The wire form of the value.
    pub fn to_json(&self) -> (r: JsonValue)
        ensures
            r@ == self@.json(),
    {
        let mut object = ObjectBuilder::new();
        object.put("installedPluginRoot", JsonValue::Text(self.installed_plugin_root.clone()));
        object.put("moduleOrigin", JsonValue::Text(self.module_origin.clone()));
        object.put("bridgeVersion", JsonValue::Text(self.bridge_version.clone()));
        object.put("manifestBytes", number(self.manifest_bytes as u128));
        object.put("manifestSha256", JsonValue::Text(self.manifest_sha256.clone()));
        object.put("indexBytes", number(self.index_bytes as u128));
        object.put("indexSha256", JsonValue::Text(self.index_sha256.clone()));
        object.put("moduleBytes", number(self.module_bytes as u128));
        object.put("moduleSha256", JsonValue::Text(self.module_sha256.clone()));
        object.finish()
    }
}
/// Asks for one Photoshop instance with one plugin.
#[derive(Debug, PartialEq, Eq)]
pub struct PhotoshopBootstrapRequest {
    pub bootstrap_version: u8,
    pub target: String,
    pub timeout_ms: u64,
    pub host: PhotoshopHostTarget,
    pub plugin: PhotoshopPluginTarget,
}

/// The mathematical value behind a [`PhotoshopBootstrapRequest`].
#[verifier::ext_equal]
pub struct PhotoshopBootstrapRequestModel {
    pub bootstrap_version: u8,
    pub target: Seq<char>,
    pub timeout_ms: u64,
    pub host: PhotoshopHostTargetModel,
    pub plugin: PhotoshopPluginTargetModel,
}

impl View for PhotoshopBootstrapRequest {
    type V = PhotoshopBootstrapRequestModel;

    open spec fn view(&self) -> PhotoshopBootstrapRequestModel {
        PhotoshopBootstrapRequestModel {
            bootstrap_version: self.bootstrap_version,
            target: self.target@,
            timeout_ms: self.timeout_ms,
            host: self.host@,
            plugin: self.plugin@,
        }
    }
}

impl Clone for PhotoshopBootstrapRequest {
    fn clone(&self) -> (r: Self)
        ensures
            r == *self,
    {
        PhotoshopBootstrapRequest {
            bootstrap_version: self.bootstrap_version,
            target: self.target.clone(),
            timeout_ms: self.timeout_ms,
            host: self.host.clone(),
            plugin: self.plugin.clone(),
        }
    }
}

impl PhotoshopBootstrapRequest {
    /// Field-by-field equality.
    pub fn same(&self, other: &Self) -> (r: bool)
        ensures
            r == (self@ == other@),
    {
        self.bootstrap_version == other.bootstrap_version && self.target == other.target && self.timeout_ms == other.timeout_ms && self.host.same(&other.host) && self.plugin.same(&other.plugin)
    }
}

impl PhotoshopBootstrapRequestModel {
    /// The wire form: one member per field, in this order.
    pub open spec fn json(self) -> JsonModel {
        let s = Seq::<MemberModel>::empty();
        let s = s.push(member("bootstrapVersion"@, number_json(self.bootstrap_version as nat)));
        let s = s.push(member("target"@, JsonModel::Text(self.target)));
        let s = s.push(member("timeoutMs"@, number_json(self.timeout_ms as nat)));
        let s = s.push(member("host"@, self.host.json()));
        let s = s.push(member("plugin"@, self.plugin.json()));
        JsonModel::Object(s)
    }
}

impl PhotoshopBootstrapRequest {
    /// The wire form of the value.
    pub fn to_json(&self) -> (r: JsonValue)
        ensures
            r@ == self@.json(),
    {
        let mut object = ObjectBuilder::new();
        object.put("bootstrapVersion", number(self.bootstrap_version as u128));
        object.put("target", JsonValue::Text(self.target.clone()));
        object.put("timeoutMs", number(self.timeout_ms as u128));
        object.put("host", self.host.to_json());
        object.put("plugin", self.plugin.to_json());
        object.finish()
    }
}
/// The broker that a bootstrap result is bound to.
#[derive(Debug, PartialEq, Eq)]
pub struct BootstrapBrokerBinding {
    pub pid: u32,
    pub process_start_identity: String,
    pub runtime_version: String,
    pub instance_id: String,
    pub executable_sha256: String,
}

/// The mathematical value behind a [`BootstrapBrokerBinding`].
#[verifier::ext_equal]
pub struct BootstrapBrokerBindingModel {
    pub pid: u32,
    pub process_start_identity: Seq<char>,
    pub runtime_version: Seq<char>,
    pub instance_id: Seq<char>,
    pub executable_sha256: Seq<char>,
}

impl View for BootstrapBrokerBinding {
    type V = BootstrapBrokerBindingModel;

    open spec fn view(&self) -> BootstrapBrokerBindingModel {
        BootstrapBrokerBindingModel {
            pid: self.pid,
            process_start_identity: self.process_start_identity@,
            runtime_version: self.runtime_version@,
            instance_id: self.instance_id@,
            executable_sha256: self.executable_sha256@,
        }
    }
}

impl Clone for BootstrapBrokerBinding {
    fn clone(&self) -> (r: Self)
        ensures
            r == *self,
    {
        BootstrapBrokerBinding {
            pid: self.pid,
            process_start_identity: self.process_start_identity.clone(),
            runtime_version: self.runtime_version.clone(),
            instance_id: self.instance_id.clone(),
            executable_sha256: self.executable_sha256.clone(),
        }
    }
}

impl BootstrapBrokerBindingModel {
    /// The wire form: one member per field, in this order.
    pub open spec fn json(self) -> JsonModel {
        let s = Seq::<MemberModel>::empty();
        let s = s.push(member("pid"@, number_json(self.pid as nat)));
        let s = s.push(member("processStartIdentity"@, JsonModel::Text(self.process_start_identity)));
        let s = s.push(member("runtimeVersion"@, JsonModel::Text(self.runtime_version)));
        let s = s.push(member("instanceId"@, JsonModel::Text(self.instance_id)));
        let s = s.push(member("executableSha256"@, JsonModel::Text(self.executable_sha256)));
        JsonModel::Object(s)
    }
}

impl BootstrapBrokerBinding {
    /// The wire form of the value.
    pub fn to_json(&self) -> (r: JsonValue)
        ensures
            r@ == self@.json(),
    {
        let mut object = ObjectBuilder::new();
        object.put("pid", number(self.pid as u128));
        object.put("processStartIdentity", JsonValue::Text(self.process_start_identity.clone()));
        object.put("runtimeVersion", JsonValue::Text(self.runtime_version.clone()));
        object.put("instanceId", JsonValue::Text(self.instance_id.clone()));
        object.put("executableSha256", JsonValue::Text(self.executable_sha256.clone()));
        object.finish()
    }
}
/// The host process that a bootstrap result is bound to.
#[derive(Debug, PartialEq, Eq)]
pub struct BootstrapHostBinding {
    pub pid: u32,
    pub process_start_identity: String,
    pub host_version: String,
    pub profile_id: String,
    pub executable_sha256: String,
}

/// The mathematical value behind a [`BootstrapHostBinding`].
#[verifier::ext_equal]
pub struct BootstrapHostBindingModel {
    pub pid: u32,
    pub process_start_identity: Seq<char>,
    pub host_version: Seq<char>,
    pub profile_id: Seq<char>,
    pub executable_sha256: Seq<char>,
}

impl View for BootstrapHostBinding {
    type V = BootstrapHostBindingModel;

    open spec fn view(&self) -> BootstrapHostBindingModel {
        BootstrapHostBindingModel {
            pid: self.pid,
            process_start_identity: self.process_start_identity@,
            host_version: self.host_version@,
            profile_id: self.profile_id@,
            executable_sha256: self.executable_sha256@,
        }
    }
}

impl Clone for BootstrapHostBinding {
    fn clone(&self) -> (r: Self)
        ensures
            r == *self,
    {
        BootstrapHostBinding {
            pid: self.pid,
            process_start_identity: self.process_start_identity.clone(),
            host_version: self.host_version.clone(),
            profile_id: self.profile_id.clone(),
            executable_sha256: self.executable_sha256.clone(),
        }
    }
}

impl BootstrapHostBindingModel {
    /// The wire form: one member per field, in this order.
    pub open spec fn json(self) -> JsonModel {
        let s = Seq::<MemberModel>::empty();
        let s = s.push(member("pid"@, number_json(self.pid as nat)));
        let s = s.push(member("processStartIdentity"@, JsonModel::Text(self.process_start_identity)));
        let s = s.push(member("hostVersion"@, JsonModel::Text(self.host_version)));
        let s = s.push(member("profileId"@, JsonModel::Text(self.profile_id)));
        let s = s.push(member("executableSha256"@, JsonModel::Text(self.executable_sha256)));
        JsonModel::Object(s)
    }
}

impl BootstrapHostBinding {
    /// The wire form of the value.
    pub fn to_json(&self) -> (r: JsonValue)
        ensures
            r@ == self@.json(),
    {
        let mut object = ObjectBuilder::new();
        object.put("pid", number(self.pid as u128));
        object.put("processStartIdentity", JsonValue::Text(self.process_start_identity.clone()));
        object.put("hostVersion", JsonValue::Text(self.host_version.clone()));
        object.put("profileId", JsonValue::Text(self.profile_id.clone()));
        object.put("executableSha256", JsonValue::Text(self.executable_sha256.clone()));
        object.finish()
    }
}
/// The bridge instance that a bootstrap result is bound to.
#[derive(Debug, PartialEq, Eq)]
pub struct BootstrapPluginBinding {
    pub instance_id: String,
    pub bridge_version: String,
    pub module_sha256: String,
}

/// The mathematical value behind a [`BootstrapPluginBinding`].
#[verifier::ext_equal]
pub struct BootstrapPluginBindingModel {
    pub instance_id: Seq<char>,
    pub bridge_version: Seq<char>,
    pub module_sha256: Seq<char>,
}

impl View for BootstrapPluginBinding {
    type V = BootstrapPluginBindingModel;

    open spec fn view(&self) -> BootstrapPluginBindingModel {
        BootstrapPluginBindingModel {
            instance_id: self.instance_id@,
            bridge_version: self.bridge_version@,
            module_sha256: self.module_sha256@,
        }
    }
}

impl Clone for BootstrapPluginBinding {
    fn clone(&self) -> (r: Self)
        ensures
            r == *self,
    {
        BootstrapPluginBinding {
            instance_id: self.instance_id.clone(),
            bridge_version: self.bridge_version.clone(),
            module_sha256: self.module_sha256.clone(),
        }
    }
}

impl BootstrapPluginBindingModel {
    /// The wire form: one member per field, in this order.
    pub open spec fn json(self) -> JsonModel {
        let s = Seq::<MemberModel>::empty();
        let s = s.push(member("instanceId"@, JsonModel::Text(self.instance_id)));
        let s = s.push(member("bridgeVersion"@, JsonModel::Text(self.bridge_version)));
        let s = s.push(member("moduleSha256"@, JsonModel::Text(self.module_sha256)));
        JsonModel::Object(s)
    }
}

impl BootstrapPluginBinding {
    /// The wire form of the value.
    pub fn to_json(&self) -> (r: JsonValue)
        ensures
            r@ == self@.json(),
    {
        let mut object = ObjectBuilder::new();
        object.put("instanceId", JsonValue::Text(self.instance_id.clone()));
        object.put("bridgeVersion", JsonValue::Text(self.bridge_version.clone()));
        object.put("moduleSha256", JsonValue::Text(self.module_sha256.clone()));
        object.finish()
    }
}
/// How a Photoshop bootstrap came to its result.
#[derive(Debug, Clone, Copy, PartialEq, Eq, Structural)]
pub enum PhotoshopBootstrapStatus {
    Ready,
    AlreadyReady,
}

impl PhotoshopBootstrapStatus {
    /// The name of the status on the wire.
    pub open spec fn name(self) -> Seq<char> {
        match self {
            PhotoshopBootstrapStatus::Ready => "ready"@,
            PhotoshopBootstrapStatus::AlreadyReady => "already_ready"@,
        }
    }

    pub fn as_str(self) -> (r: &'static str)
        ensures
            r@ == self.name(),
    {
        match self {
            PhotoshopBootstrapStatus::Ready => "ready",
            PhotoshopBootstrapStatus::AlreadyReady => "already_ready",
        }
    }
}

/// The call that verifies a bootstrap result later.
#[derive(Debug, PartialEq, Eq)]
pub struct PhotoshopBootstrapContinuation {
    pub method: String,
    pub path: String,
    pub receipt_id: String,
    pub timeout_ms: u64,
}

/// The mathematical value behind a [`PhotoshopBootstrapContinuation`].
#[verifier::ext_equal]
pub struct PhotoshopBootstrapContinuationModel {
    pub method: Seq<char>,
    pub path: Seq<char>,
    pub receipt_id: Seq<char>,
    pub timeout_ms: u64,
}

impl View for PhotoshopBootstrapContinuation {
    type V = PhotoshopBootstrapContinuationModel;

    open spec fn view(&self) -> PhotoshopBootstrapContinuationModel {
        PhotoshopBootstrapContinuationModel {
            method: self.method@,
            path: self.path@,
            receipt_id: self.receipt_id@,
            timeout_ms: self.timeout_ms,
        }
    }
}

impl Clone for PhotoshopBootstrapContinuation {
    fn clone(&self) -> (r: Self)
        ensures
            r == *self,
    {
        PhotoshopBootstrapContinuation {
            method: self.method.clone(),
            path: self.path.clone(),
            receipt_id: self.receipt_id.clone(),
            timeout_ms: self.timeout_ms,
        }
    }
}

impl PhotoshopBootstrapContinuationModel {
    /// The wire form: one member per field, in this order.
    pub open spec fn json(self) -> JsonModel {
        let s = Seq::<MemberModel>::empty();
        let s = s.push(member("method"@, JsonModel::Text(self.method)));
        let s = s.push(member("path"@, JsonModel::Text(self.path)));
        let s = s.push(member("receiptId"@, JsonModel::Text(self.receipt_id)));
        let s = s.push(member("timeoutMs"@, number_json(self.timeout_ms as nat)));
        JsonModel::Object(s)
    }
}

impl PhotoshopBootstrapContinuation {
    /// The wire form of the value.
    pub fn to_json(&self) -> (r: JsonValue)
        ensures
            r@ == self@.json(),
    {
        let mut object = ObjectBuilder::new();
        object.put("method", JsonValue::Text(self.method.clone()));
        object.put("path", JsonValue::Text(self.path.clone()));
        object.put("receiptId", JsonValue::Text(self.receipt_id.clone()));
        object.put("timeoutMs", number(self.timeout_ms as u128));
        object.finish()
    }
}
/// The command that an adapter runs next.
#[derive(Debug, PartialEq, Eq)]
pub struct BootstrapAdapterContinuation {
    pub kind: String,
    pub argv: Vec<String>,
}

/// The mathematical value behind a [`BootstrapAdapterContinuation`].
#[verifier::ext_equal]
pub struct BootstrapAdapterContinuationModel {
    pub kind: Seq<char>,
    pub argv: Seq<Seq<char>>,
}

impl View for BootstrapAdapterContinuation {
    type V = BootstrapAdapterContinuationModel;

    open spec fn view(&self) -> BootstrapAdapterContinuationModel {
        BootstrapAdapterContinuationModel {
            kind: self.kind@,
            argv: texts(self.argv@),
        }
    }
}

impl Clone for BootstrapAdapterContinuation {
    fn clone(&self) -> (r: Self)
        ensures
            r@ == self@,
    {
        BootstrapAdapterContinuation {
            kind: self.kind.clone(),
            argv: clone_texts(&self.argv),
        }
    }
}

impl BootstrapAdapterContinuationModel {
    /// The wire form: one member per field, in this order.
    pub open spec fn json(self) -> JsonModel {
        let s = Seq::<MemberModel>::empty();
        let s = s.push(member("kind"@, JsonModel::Text(self.kind)));
        let s = s.push(member("argv"@, texts_json(self.argv)));
        JsonModel::Object(s)
    }
}

impl BootstrapAdapterContinuation {
    /// The wire form of the value.
    pub fn to_json(&self) -> (r: JsonValue)
        ensures
            r@ == self@.json(),
    {
        let mut object = ObjectBuilder::new();
        object.put("kind", JsonValue::Text(self.kind.clone()));
        object.put("argv", text_list(&self.argv));
        object.finish()
    }
}
/// A Photoshop instance that is up and bound. It holds no path and no token.
#[derive(Debug, PartialEq, Eq)]
pub struct PhotoshopBootstrapResult {
    pub bootstrap_version: u8,
    pub status: PhotoshopBootstrapStatus,
    pub identity_fingerprint: String,
    pub broker: BootstrapBrokerBinding,
    pub host: BootstrapHostBinding,
    pub plugin: BootstrapPluginBinding,
    pub continuation: PhotoshopBootstrapContinuation,
    pub adapter_continuation: Option<BootstrapAdapterContinuation>,
}

/// The mathematical value behind a [`PhotoshopBootstrapResult`].
#[verifier::ext_equal]
pub struct PhotoshopBootstrapResultModel {
    pub bootstrap_version: u8,
    pub status: PhotoshopBootstrapStatus,
    pub identity_fingerprint: Seq<char>,
    pub broker: BootstrapBrokerBindingModel,
    pub host: BootstrapHostBindingModel,
    pub plugin: BootstrapPluginBindingModel,
    pub continuation: PhotoshopBootstrapContinuationModel,
    pub adapter_continuation: Option<BootstrapAdapterContinuationModel>,
}

impl View for PhotoshopBootstrapResult {
    type V = PhotoshopBootstrapResultModel;

    open spec fn view(&self) -> PhotoshopBootstrapResultModel {
        PhotoshopBootstrapResultModel {
            bootstrap_version: self.bootstrap_version,
            status: self.status,
            identity_fingerprint: self.identity_fingerprint@,
            broker: self.broker@,
            host: self.host@,
            plugin: self.plugin@,
            continuation: self.continuation@,
            adapter_continuation: match self.adapter_continuation {
                Some(v) => Some(v@),
                None => None,
            },
        }
    }
}

impl Clone for PhotoshopBootstrapResult {
    fn clone(&self) -> (r: Self)
        ensures
            r@ == self@,
    {
        PhotoshopBootstrapResult {
            bootstrap_version: self.bootstrap_version,
            status: self.status,
            identity_fingerprint: self.identity_fingerprint.clone(),
            broker: self.broker.clone(),
            host: self.host.clone(),
            plugin: self.plugin.clone(),
            continuation: self.continuation.clone(),
            adapter_continuation: match &self.adapter_continuation {
                Some(v) => Some(v.clone()),
                None => None,
            },
        }
    }
}

impl PhotoshopBootstrapResultModel {
    /// The wire form: one member per field, in this order.
    pub open spec fn json(self) -> JsonModel {
        let s = Seq::<MemberModel>::empty();
        let s = s.push(member("bootstrapVersion"@, number_json(self.bootstrap_version as nat)));
        let s = s.push(member("status"@, JsonModel::Text(self.status.name())));
        let s = s.push(member("identityFingerprint"@, JsonModel::Text(self.identity_fingerprint)));
        let s = s.push(member("broker"@, self.broker.json()));
        let s = s.push(member("host"@, self.host.json()));
        let s = s.push(member("plugin"@, self.plugin.json()));
        let s = s.push(member("continuation"@, self.continuation.json()));
        let s = match self.adapter_continuation {
            Some(v) => s.push(member("adapterContinuation"@, v.json())),
            None => s,
        };
        JsonModel::Object(s)
    }
}

impl PhotoshopBootstrapResult {
    /// The wire form of the value.
    pub fn to_json(&self) -> (r: JsonValue)
        ensures
            r@ == self@.json(),
    {
        let mut object = ObjectBuilder::new();
        object.put("bootstrapVersion", number(self.bootstrap_version as u128));
        object.put("status", JsonValue::Text(self.status.as_str().to_owned()));
        object.put("identityFingerprint", JsonValue::Text(self.identity_fingerprint.clone()));
        object.put("broker", self.broker.to_json());
        object.put("host", self.host.to_json());
        object.put("plugin", self.plugin.to_json());
        object.put("continuation", self.continuation.to_json());
        match &self.adapter_continuation {
            Some(v) => {
                object.put("adapterContinuation", v.to_json());
            },
            None => {},
        }
        object.finish()
    }
}
/// Asks whether a bootstrap result still holds.
#[derive(Debug, PartialEq, Eq)]
pub struct PhotoshopBootstrapVerifyRequest {
    pub receipt_id: String,
}

/// The mathematical value behind a [`PhotoshopBootstrapVerifyRequest`].
#[verifier::ext_equal]
pub struct PhotoshopBootstrapVerifyRequestModel {
    pub receipt_id: Seq<char>,
}

impl View for PhotoshopBootstrapVerifyRequest {
    type V = PhotoshopBootstrapVerifyRequestModel;

    open spec fn view(&self) -> PhotoshopBootstrapVerifyRequestModel {
        PhotoshopBootstrapVerifyRequestModel {
            receipt_id: self.receipt_id@,
        }
    }
}

impl Clone for PhotoshopBootstrapVerifyRequest {
    fn clone(&self) -> (r: Self)
        ensures
            r == *self,
    {
        PhotoshopBootstrapVerifyRequest {
            receipt_id: self.receipt_id.clone(),
        }
    }
}

impl PhotoshopBootstrapVerifyRequestModel {
    /// The wire form: one member per field, in this order.
    pub open spec fn json(self) -> JsonModel {
        let s = Seq::<MemberModel>::empty();
        let s = s.push(member("receiptId"@, JsonModel::Text(self.receipt_id)));
        JsonModel::Object(s)
    }
}

impl PhotoshopBootstrapVerifyRequest {
    /// The wire form of the value.
    pub fn to_json(&self) -> (r: JsonValue)
        ensures
            r@ == self@.json(),
    {
        let mut object = ObjectBuilder::new();
        object.put("receiptId", JsonValue::Text(self.receipt_id.clone()));
        object.finish()
    }
}
/// The exact Illustrator executable to run.
#[derive(Debug, PartialEq, Eq)]
pub struct IllustratorHostTarget {
    pub executable_path: String,
    pub executable_bytes: u64,
    pub executable_sha256: String,
    pub host_version: String,
    pub profile_id: String,
}

/// The mathematical value behind a [`IllustratorHostTarget`].
#[verifier::ext_equal]
pub struct IllustratorHostTargetModel {
    pub executable_path: Seq<char>,
    pub executable_bytes: u64,
    pub executable_sha256: Seq<char>,
    pub host_version: Seq<char>,
    pub profile_id: Seq<char>,
}

impl View for IllustratorHostTarget {
    type V = IllustratorHostTargetModel;

    open spec fn view(&self) -> IllustratorHostTargetModel {
        IllustratorHostTargetModel {
            executable_path: self.executable_path@,
            executable_bytes: self.executable_bytes,
            executable_sha256: self.executable_sha256@,
            host_version: self.host_version@,
            profile_id: self.profile_id@,
        }
    }
}

impl Clone for IllustratorHostTarget {
    fn clone(&self) -> (r: Self)
        ensures
            r == *self,
    {
        IllustratorHostTarget {
            executable_path: self.executable_path.clone(),
            executable_bytes: self.executable_bytes,
            executable_sha256: self.executable_sha256.clone(),
            host_version: self.host_version.clone(),
            profile_id: self.profile_id.clone(),
        }
    }
}

impl IllustratorHostTarget {
    /// Field-by-field equality.
    pub fn same(&self, other: &Self) -> (r: bool)
        ensures
            r == (self@ == other@),
    {
        self.executable_path == other.executable_path && self.executable_bytes == other.executable_bytes && self.executable_sha256 == other.executable_sha256 && self.host_version == other.host_version && self.profile_id == other.profile_id
    }
}

impl IllustratorHostTargetModel {
    /// The wire form: one member per field, in this order.
    pub open spec fn json(self) -> JsonModel {
        let s = Seq::<MemberModel>::empty();
        let s = s.push(member("executablePath"@, JsonModel::Text(self.executable_path)));
        let s = s.push(member("executableBytes"@, number_json(self.executable_bytes as nat)));
        let s = s.push(member("executableSha256"@, JsonModel::Text(self.executable_sha256)));
        let s = s.push(member("hostVersion"@, JsonModel::Text(self.host_version)));
        let s = s.push(member("profileId"@, JsonModel::Text(self.profile_id)));
        JsonModel::Object(s)
    }
}

impl IllustratorHostTarget {
    /// The wire form of the value.
    pub fn to_json(&self) -> (r: JsonValue)
        ensures
            r@ == self@.json(),
    {
        let mut object = ObjectBuilder::new();
        object.put("executablePath", JsonValue::Text(self.executable_path.clone()));
        object.put("executableBytes", number(self.executable_bytes as u128));
        object.put("executableSha256", JsonValue::Text(self.executable_sha256.clone()));
        object.put("hostVersion", JsonValue::Text(self.host_version.clone()));
        object.put("profileId", JsonValue::Text(self.profile_id.clone()));
        object.finish()
    }
}
/// The exact extension files to load.
#[derive(Debug, PartialEq, Eq)]
pub struct IllustratorPluginTarget {
    pub installed_plugin_root: String,
    pub module_origin: String,
    pub bridge_version: String,
    pub manifest_bytes: u64,
    pub manifest_sha256: String,
    pub index_bytes: u64,
    pub index_sha256: String,
    pub module_bytes: u64,
    pub module_sha256: String,
}

/// The mathematical value behind a [`IllustratorPluginTarget`].
#[verifier::ext_equal]
pub struct IllustratorPluginTargetModel {
    pub installed_plugin_root: Seq<char>,
    pub module_origin: Seq<char>,
    pub bridge_version: Seq<char>,
    pub manifest_bytes: u64,
    pub manifest_sha256: Seq<char>,
    pub index_bytes: u64,
    pub index_sha256: Seq<char>,
    pub module_bytes: u64,
    pub module_sha256: Seq<char>,
}

impl View for IllustratorPluginTarget {
    type V = IllustratorPluginTargetModel;

    open spec fn view(&self) -> IllustratorPluginTargetModel {
        IllustratorPluginTargetModel {
            installed_plugin_root: self.installed_plugin_root@,
            module_origin: self.module_origin@,
            bridge_version: self.bridge_version@,
            manifest_bytes: self.manifest_bytes,
            manifest_sha256: self.manifest_sha256@,
            index_bytes: self.index_bytes,
            index_sha256: self.index_sha256@,
            module_bytes: self.module_bytes,
            module_sha256: self.module_sha256@,
        }
    }
}

impl Clone for IllustratorPluginTarget {
    fn clone(&self) -> (r: Self)
        ensures
            r == *self,
    {
        IllustratorPluginTarget {
            installed_plugin_root: self.installed_plugin_root.clone(),
            module_origin: self.module_origin.clone(),
            bridge_version: self.bridge_version.clone(),
            manifest_bytes: self.manifest_bytes,
            manifest_sha256: self.manifest_sha256.clone(),
            index_bytes: self.index_bytes,
            index_sha256: self.index_sha256.clone(),
            module_bytes: self.module_bytes,
            module_sha256: self.module_sha256.clone(),
        }
    }
}

impl IllustratorPluginTarget {
    /// Field-by-field equality.
    pub fn same(&self, other: &Self) -> (r: bool)
        ensures
            r == (self@ == other@),
    {
        self.installed_plugin_root == other.installed_plugin_root && self.module_origin == other.module_origin && self.bridge_version == other.bridge_version && self.manifest_bytes == other.manifest_bytes && self.manifest_sha256 == other.manifest_sha256 && self.index_bytes == other.index_bytes && self.index_sha256 == other.index_sha256 && self.module_bytes == other.module_bytes && self.module_sha256 == other.module_sha256
    }
}

impl IllustratorPluginTargetModel {
    /// The wire form: one member per field, in this order.
    pub open spec fn json(self) -> JsonModel {
        let s = Seq::<MemberModel>::empty();
        let s = s.push(member("installedPluginRoot"@, JsonModel::Text(self.installed_plugin_root)));
        let s = s.push(member("moduleOrigin"@, JsonModel::Text(self.module_origin)));
        let s = s.push(member("bridgeVersion"@, JsonModel::Text(self.bridge_version)));
        let s = s.push(member("manifestBytes"@, number_json(self.manifest_bytes as nat)));
        let s = s.push(member("manifestSha256"@, JsonModel::Text(self.manifest_sha256)));
        let s = s.push(member("indexBytes"@, number_json(self.index_bytes as nat)));
        let s = s.push(member("indexSha256"@, JsonModel::Text(self.index_sha256)));
        let s = s.push(member("moduleBytes"@, number_json(self.module_bytes as nat)));
        let s = s.push(member("moduleSha256"@, JsonModel::Text(self.module_sha256)));
        JsonModel::Object(s)
    }
}

impl IllustratorPluginTarget {
    /// The wire form of the value.
    pub fn to_json(&self) -> (r: JsonValue)
        ensures
            r@ == self@.json(),
    {
        let mut object = ObjectBuilder::new();
        object.put("installedPluginRoot", JsonValue::Text(self.installed_plugin_root.clone()));
        object.put("moduleOrigin", JsonValue::Text(self.module_origin.clone()));
        object.put("bridgeVersion", JsonValue::Text(self.bridge_version.clone()));
        object.put("manifestBytes", number(self.manifest_bytes as u128));
        object.put("manifestSha256", JsonValue::Text(self.manifest_sha256.clone()));
        object.put("indexBytes", number(self.index_bytes as u128));
        object.put("indexSha256", JsonValue::Text(self.index_sha256.clone()));
        object.put("moduleBytes", number(self.module_bytes as u128));
        object.put("moduleSha256", JsonValue::Text(self.module_sha256.clone()));
        object.finish()
    }
}
/// Asks for one Illustrator instance with one extension.
#[derive(Debug, PartialEq, Eq)]
pub struct IllustratorBootstrapRequest {
    pub bootstrap_version: u8,
    pub target: String,
    pub timeout_ms: u64,
    pub host: IllustratorHostTarget,
    pub plugin: IllustratorPluginTarget,
}

/// The mathematical value behind a [`IllustratorBootstrapRequest`].
#[verifier::ext_equal]
pub struct IllustratorBootstrapRequestModel {
    pub bootstrap_version: u8,
    pub target: Seq<char>,
    pub timeout_ms: u64,
    pub host: IllustratorHostTargetModel,
    pub plugin: IllustratorPluginTargetModel,
}

impl View for IllustratorBootstrapRequest {
    type V = IllustratorBootstrapRequestModel;

    open spec fn view(&self) -> IllustratorBootstrapRequestModel {
        IllustratorBootstrapRequestModel {
            bootstrap_version: self.bootstrap_version,
            target: self.target@,
            timeout_ms: self.timeout_ms,
            host: self.host@,
            plugin: self.plugin@,
        }
    }
}

impl Clone for IllustratorBootstrapRequest {
    fn clone(&self) -> (r: Self)
        ensures
            r == *self,
    {
        IllustratorBootstrapRequest {
            bootstrap_version: self.bootstrap_version,
            target: self.target.clone(),
            timeout_ms: self.timeout_ms,
            host: self.host.clone(),
            plugin: self.plugin.clone(),
        }
    }
}

impl IllustratorBootstrapRequest {
    /// Field-by-field equality.
    pub fn same(&self, other: &Self) -> (r: bool)
        ensures
            r == (self@ == other@),
    {
        self.bootstrap_version == other.bootstrap_version && self.target == other.target && self.timeout_ms == other.timeout_ms && self.host.same(&other.host) && self.plugin.same(&other.plugin)
    }
}

impl IllustratorBootstrapRequestModel {
    /// The wire form: one member per field, in this order.
    pub open spec fn json(self) -> JsonModel {
        let s = Seq::<MemberModel>::empty();
        let s = s.push(member("bootstrapVersion"@, number_json(self.bootstrap_version as nat)));
        let s = s.push(member("target"@, JsonModel::Text(self.target)));
        let s = s.push(member("timeoutMs"@, number_json(self.timeout_ms as nat)));
        let s = s.push(member("host"@, self.host.json()));
        let s = s.push(member("plugin"@, self.plugin.json()));
        JsonModel::Object(s)
    }
}

impl IllustratorBootstrapRequest {
    /// The wire form of the value.
    pub fn to_json(&self) -> (r: JsonValue)
        ensures
            r@ == self@.json(),
    {
        let mut object = ObjectBuilder::new();
        object.put("bootstrapVersion", number(self.bootstrap_version as u128));
        object.put("target", JsonValue::Text(self.target.clone()));
        object.put("timeoutMs", number(self.timeout_ms as u128));
        object.put("host", self.host.to_json());
        object.put("plugin", self.plugin.to_json());
        object.finish()
    }
}
/// How a Illustrator bootstrap came to its result.
#[derive(Debug, Clone, Copy, PartialEq, Eq, Structural)]
pub enum IllustratorBootstrapStatus {
    Ready,
    AlreadyReady,
}

impl IllustratorBootstrapStatus {
    /// The name of the status on the wire.
    pub open spec fn name(self) -> Seq<char> {
        match self {
            IllustratorBootstrapStatus::Ready => "ready"@,
            IllustratorBootstrapStatus::AlreadyReady => "already_ready"@,
        }
    }

    pub fn as_str(self) -> (r: &'static str)
        ensures
            r@ == self.name(),
    {
        match self {
            IllustratorBootstrapStatus::Ready => "ready",
            IllustratorBootstrapStatus::AlreadyReady => "already_ready",
        }
    }
}

/// The broker that an Illustrator result is bound to.
#[derive(Debug, PartialEq, Eq)]
pub struct IllustratorBrokerBinding {
    pub pid: u32,
    pub process_start_identity: String,
    pub runtime_version: String,
    pub instance_id: String,
    pub executable_sha256: String,
}

/// The mathematical value behind a [`IllustratorBrokerBinding`].
#[verifier::ext_equal]
pub struct IllustratorBrokerBindingModel {
    pub pid: u32,
    pub process_start_identity: Seq<char>,
    pub runtime_version: Seq<char>,
    pub instance_id: Seq<char>,
    pub executable_sha256: Seq<char>,
}

impl View for IllustratorBrokerBinding {
    type V = IllustratorBrokerBindingModel;

    open spec fn view(&self) -> IllustratorBrokerBindingModel {
        IllustratorBrokerBindingModel {
            pid: self.pid,
            process_start_identity: self.process_start_identity@,
            runtime_version: self.runtime_version@,
            instance_id: self.instance_id@,
            executable_sha256: self.executable_sha256@,
        }
    }
}

impl Clone for IllustratorBrokerBinding {
    fn clone(&self) -> (r: Self)
        ensures
            r == *self,
    {
        IllustratorBrokerBinding {
            pid: self.pid,
            process_start_identity: self.process_start_identity.clone(),
            runtime_version: self.runtime_version.clone(),
            instance_id: self.instance_id.clone(),
            executable_sha256: self.executable_sha256.clone(),
        }
    }
}

impl IllustratorBrokerBindingModel {
    /// The wire form: one member per field, in this order.
    pub open spec fn json(self) -> JsonModel {
        let s = Seq::<MemberModel>::empty();
        let s = s.push(member("pid"@, number_json(self.pid as nat)));
        let s = s.push(member("processStartIdentity"@, JsonModel::Text(self.process_start_identity)));
        let s = s.push(member("runtimeVersion"@, JsonModel::Text(self.runtime_version)));
        let s = s.push(member("instanceId"@, JsonModel::Text(self.instance_id)));
        let s = s.push(member("executableSha256"@, JsonModel::Text(self.executable_sha256)));
        JsonModel::Object(s)
    }
}

impl IllustratorBrokerBinding {
    /// The wire form of the value.
    pub fn to_json(&self) -> (r: JsonValue)
        ensures
            r@ == self@.json(),
    {
        let mut object = ObjectBuilder::new();
        object.put("pid", number(self.pid as u128));
        object.put("processStartIdentity", JsonValue::Text(self.process_start_identity.clone()));
        object.put("runtimeVersion", JsonValue::Text(self.runtime_version.clone()));
        object.put("instanceId", JsonValue::Text(self.instance_id.clone()));
        object.put("executableSha256", JsonValue::Text(self.executable_sha256.clone()));
        object.finish()
    }
}
/// The host process that an Illustrator result is bound to.
#[derive(Debug, PartialEq, Eq)]
pub struct IllustratorHostBinding {
    pub pid: u32,
    pub process_start_identity: String,
    pub host_version: String,
    pub profile_id: String,
    pub instance_id: String,
    pub executable_sha256: String,
}

/// The mathematical value behind a [`IllustratorHostBinding`].
#[verifier::ext_equal]
pub struct IllustratorHostBindingModel {
    pub pid: u32,
    pub process_start_identity: Seq<char>,
    pub host_version: Seq<char>,
    pub profile_id: Seq<char>,
    pub instance_id: Seq<char>,
    pub executable_sha256: Seq<char>,
}

impl View for IllustratorHostBinding {
    type V = IllustratorHostBindingModel;

    open spec fn view(&self) -> IllustratorHostBindingModel {
        IllustratorHostBindingModel {
            pid: self.pid,
            process_start_identity: self.process_start_identity@,
            host_version: self.host_version@,
            profile_id: self.profile_id@,
            instance_id: self.instance_id@,
            executable_sha256: self.executable_sha256@,
        }
    }
}

impl Clone for IllustratorHostBinding {
    fn clone(&self) -> (r: Self)
        ensures
            r == *self,
    {
        IllustratorHostBinding {
            pid: self.pid,
            process_start_identity: self.process_start_identity.clone(),
            host_version: self.host_version.clone(),
            profile_id: self.profile_id.clone(),
            instance_id: self.instance_id.clone(),
            executable_sha256: self.executable_sha256.clone(),
        }
    }
}

impl IllustratorHostBindingModel {
    /// The wire form: one member per field, in this order.
    pub open spec fn json(self) -> JsonModel {
        let s = Seq::<MemberModel>::empty();
        let s = s.push(member("pid"@, number_json(self.pid as nat)));
        let s = s.push(member("processStartIdentity"@, JsonModel::Text(self.process_start_identity)));
        let s = s.push(member("hostVersion"@, JsonModel::Text(self.host_version)));
        let s = s.push(member("profileId"@, JsonModel::Text(self.profile_id)));
        let s = s.push(member("instanceId"@, JsonModel::Text(self.instance_id)));
        let s = s.push(member("executableSha256"@, JsonModel::Text(self.executable_sha256)));
        JsonModel::Object(s)
    }
}

impl IllustratorHostBinding {
    /// The wire form of the value.
    pub fn to_json(&self) -> (r: JsonValue)
        ensures
            r@ == self@.json(),
    {
        let mut object = ObjectBuilder::new();
        object.put("pid", number(self.pid as u128));
        object.put("processStartIdentity", JsonValue::Text(self.process_start_identity.clone()));
        object.put("hostVersion", JsonValue::Text(self.host_version.clone()));
        object.put("profileId", JsonValue::Text(self.profile_id.clone()));
        object.put("instanceId", JsonValue::Text(self.instance_id.clone()));
        object.put("executableSha256", JsonValue::Text(self.executable_sha256.clone()));
        object.finish()
    }
}
/// The bridge that an Illustrator result is bound to.
#[derive(Debug, PartialEq, Eq)]
pub struct IllustratorPluginBinding {
    pub target: String,
    pub connected_at_epoch_ms: u128,
    pub instance_id: String,
    pub bridge_version: String,
    pub module_sha256: String,
}

/// The mathematical value behind a [`IllustratorPluginBinding`].
#[verifier::ext_equal]
pub struct IllustratorPluginBindingModel {
    pub target: Seq<char>,
    pub connected_at_epoch_ms: u128,
    pub instance_id: Seq<char>,
    pub bridge_version: Seq<char>,
    pub module_sha256: Seq<char>,
}

impl View for IllustratorPluginBinding {
    type V = IllustratorPluginBindingModel;

    open spec fn view(&self) -> IllustratorPluginBindingModel {
        IllustratorPluginBindingModel {
            target: self.target@,
            connected_at_epoch_ms: self.connected_at_epoch_ms,
            instance_id: self.instance_id@,
            bridge_version: self.bridge_version@,
            module_sha256: self.module_sha256@,
        }
    }
}

impl Clone for IllustratorPluginBinding {
    fn clone(&self) -> (r: Self)
        ensures
            r == *self,
    {
        IllustratorPluginBinding {
            target: self.target.clone(),
            connected_at_epoch_ms: self.connected_at_epoch_ms,
            instance_id: self.instance_id.clone(),
            bridge_version: self.bridge_version.clone(),
            module_sha256: self.module_sha256.clone(),
        }
    }
}

impl IllustratorPluginBindingModel {
    /// The wire form: one member per field, in this order.
    pub open spec fn json(self) -> JsonModel {
        let s = Seq::<MemberModel>::empty();
        let s = s.push(member("target"@, JsonModel::Text(self.target)));
        let s = s.push(member("connectedAtEpochMs"@, number_json(self.connected_at_epoch_ms as nat)));
        let s = s.push(member("instanceId"@, JsonModel::Text(self.instance_id)));
        let s = s.push(member("bridgeVersion"@, JsonModel::Text(self.bridge_version)));
        let s = s.push(member("moduleSha256"@, JsonModel::Text(self.module_sha256)));
        JsonModel::Object(s)
    }
}

impl IllustratorPluginBinding {
    /// The wire form of the value.
    pub fn to_json(&self) -> (r: JsonValue)
        ensures
            r@ == self@.json(),
    {
        let mut object = ObjectBuilder::new();
        object.put("target", JsonValue::Text(self.target.clone()));
        object.put("connectedAtEpochMs", number(self.connected_at_epoch_ms as u128));
        object.put("instanceId", JsonValue::Text(self.instance_id.clone()));
        object.put("bridgeVersion", JsonValue::Text(self.bridge_version.clone()));
        object.put("moduleSha256", JsonValue::Text(self.module_sha256.clone()));
        object.finish()
    }
}
/// The call that verifies an Illustrator result later.
#[derive(Debug, PartialEq, Eq)]
pub struct IllustratorBootstrapContinuation {
    pub method: String,
    pub path: String,
    pub receipt_id: String,
    pub timeout_ms: u64,
}

/// The mathematical value behind a [`IllustratorBootstrapContinuation`].
#[verifier::ext_equal]
pub struct IllustratorBootstrapContinuationModel {
    pub method: Seq<char>,
    pub path: Seq<char>,
    pub receipt_id: Seq<char>,
    pub timeout_ms: u64,
}

impl View for IllustratorBootstrapContinuation {
    type V = IllustratorBootstrapContinuationModel;

    open spec fn view(&self) -> IllustratorBootstrapContinuationModel {
        IllustratorBootstrapContinuationModel {
            method: self.method@,
            path: self.path@,
            receipt_id: self.receipt_id@,
            timeout_ms: self.timeout_ms,
        }
    }
}

impl Clone for IllustratorBootstrapContinuation {
    fn clone(&self) -> (r: Self)
        ensures
            r == *self,
    {
        IllustratorBootstrapContinuation {
            method: self.method.clone(),
            path: self.path.clone(),
            receipt_id: self.receipt_id.clone(),
            timeout_ms: self.timeout_ms,
        }
    }
}

impl IllustratorBootstrapContinuationModel {
    /// The wire form: one member per field, in this order.
    pub open spec fn json(self) -> JsonModel {
        let s = Seq::<MemberModel>::empty();
        let s = s.push(member("method"@, JsonModel::Text(self.method)));
        let s = s.push(member("path"@, JsonModel::Text(self.path)));
        let s = s.push(member("receiptId"@, JsonModel::Text(self.receipt_id)));
        let s = s.push(member("timeoutMs"@, number_json(self.timeout_ms as nat)));
        JsonModel::Object(s)
    }
}

impl IllustratorBootstrapContinuation {
    /// The wire form of the value.
    pub fn to_json(&self) -> (r: JsonValue)
        ensures
            r@ == self@.json(),
    {
        let mut object = ObjectBuilder::new();
        object.put("method", JsonValue::Text(self.method.clone()));
        object.put("path", JsonValue::Text(self.path.clone()));
        object.put("receiptId", JsonValue::Text(self.receipt_id.clone()));
        object.put("timeoutMs", number(self.timeout_ms as u128));
        object.finish()
    }
}
/// An Illustrator instance that is up and bound. It holds no path and no token.
#[derive(Debug, PartialEq, Eq)]
pub struct IllustratorBootstrapResult {
    pub bootstrap_version: u8,
    pub status: IllustratorBootstrapStatus,
    pub identity_fingerprint: String,
    pub broker: IllustratorBrokerBinding,
    pub host: IllustratorHostBinding,
    pub plugin: IllustratorPluginBinding,
    pub continuation: IllustratorBootstrapContinuation,
    pub adapter_continuation: BootstrapAdapterContinuation,
}

/// The mathematical value behind a [`IllustratorBootstrapResult`].
#[verifier::ext_equal]
pub struct IllustratorBootstrapResultModel {
    pub bootstrap_version: u8,
    pub status: IllustratorBootstrapStatus,
    pub identity_fingerprint: Seq<char>,
    pub broker: IllustratorBrokerBindingModel,
    pub host: IllustratorHostBindingModel,
    pub plugin: IllustratorPluginBindingModel,
    pub continuation: IllustratorBootstrapContinuationModel,
    pub adapter_continuation: BootstrapAdapterContinuationModel,
}

impl View for IllustratorBootstrapResult {
    type V = IllustratorBootstrapResultModel;

    open spec fn view(&self) -> IllustratorBootstrapResultModel {
        IllustratorBootstrapResultModel {
            bootstrap_version: self.bootstrap_version,
            status: self.status,
            identity_fingerprint: self.identity_fingerprint@,
            broker: self.broker@,
            host: self.host@,
            plugin: self.plugin@,
            continuation: self.continuation@,
            adapter_continuation: self.adapter_continuation@,
        }
    }
}

impl Clone for IllustratorBootstrapResult {
    fn clone(&self) -> (r: Self)
        ensures
            r@ == self@,
    {
        IllustratorBootstrapResult {
            bootstrap_version: self.bootstrap_version,
            status: self.status,
            identity_fingerprint: self.identity_fingerprint.clone(),
            broker: self.broker.clone(),
            host: self.host.clone(),
            plugin: self.plugin.clone(),
            continuation: self.continuation.clone(),
            adapter_continuation: self.adapter_continuation.clone(),
        }
    }
}

impl IllustratorBootstrapResultModel {
    /// The wire form: one member per field, in this order.
    pub open spec fn json(self) -> JsonModel {
        let s = Seq::<MemberModel>::empty();
        let s = s.push(member("bootstrapVersion"@, number_json(self.bootstrap_version as nat)));
        let s = s.push(member("status"@, JsonModel::Text(self.status.name())));
        let s = s.push(member("identityFingerprint"@, JsonModel::Text(self.identity_fingerprint)));
        let s = s.push(member("broker"@, self.broker.json()));
        let s = s.push(member("host"@, self.host.json()));
        let s = s.push(member("plugin"@, self.plugin.json()));
        let s = s.push(member("continuation"@, self.continuation.json()));
        let s = s.push(member("adapterContinuation"@, self.adapter_continuation.json()));
        JsonModel::Object(s)
    }
}

impl IllustratorBootstrapResult {
    /// The wire form of the value.
    pub fn to_json(&self) -> (r: JsonValue)
        ensures
            r@ == self@.json(),
    {
        let mut object = ObjectBuilder::new();
        object.put("bootstrapVersion", number(self.bootstrap_version as u128));
        object.put("status", JsonValue::Text(self.status.as_str().to_owned()));
        object.put("identityFingerprint", JsonValue::Text(self.identity_fingerprint.clone()));
        object.put("broker", self.broker.to_json());
        object.put("host", self.host.to_json());
        object.put("plugin", self.plugin.to_json());
        object.put("continuation", self.continuation.to_json());
        object.put("adapterContinuation", self.adapter_continuation.to_json());
        object.finish()
    }
}
/// Asks whether an Illustrator result still holds.
#[derive(Debug, PartialEq, Eq)]
pub struct IllustratorBootstrapVerifyRequest {
    pub receipt_id: String,
}

/// The mathematical value behind a [`IllustratorBootstrapVerifyRequest`].
#[verifier::ext_equal]
pub struct IllustratorBootstrapVerifyRequestModel {
    pub receipt_id: Seq<char>,
}

impl View for IllustratorBootstrapVerifyRequest {
    type V = IllustratorBootstrapVerifyRequestModel;

    open spec fn view(&self) -> IllustratorBootstrapVerifyRequestModel {
        IllustratorBootstrapVerifyRequestModel {
            receipt_id: self.receipt_id@,
        }
    }
}

impl Clone for IllustratorBootstrapVerifyRequest {
    fn clone(&self) -> (r: Self)
        ensures
            r == *self,
    {
        IllustratorBootstrapVerifyRequest {
            receipt_id: self.receipt_id.clone(),
        }
    }
}

impl IllustratorBootstrapVerifyRequestModel {
    /// The wire form: one member per field, in this order.
    pub open spec fn json(self) -> JsonModel {
        let s = Seq::<MemberModel>::empty();
        let s = s.push(member("receiptId"@, JsonModel::Text(self.receipt_id)));
        JsonModel::Object(s)
    }
}

impl IllustratorBootstrapVerifyRequest {
    /// The wire form of the value.
    pub fn to_json(&self) -> (r: JsonValue)
        ensures
            r@ == self@.json(),
    {
        let mut object = ObjectBuilder::new();
        object.put("receiptId", JsonValue::Text(self.receipt_id.clone()));
        object.finish()
    }
}
// After Effects uses the same fixed-file bootstrap shape as Illustrator. The
// names stay apart so that no adapter can take one host's route for the other's.
pub type AfterEffectsHostTarget = IllustratorHostTarget;

pub type AfterEffectsPluginTarget = IllustratorPluginTarget;

pub type AfterEffectsBootstrapRequest = IllustratorBootstrapRequest;

pub type AfterEffectsBootstrapStatus = IllustratorBootstrapStatus;

pub type AfterEffectsBrokerBinding = IllustratorBrokerBinding;

pub type AfterEffectsHostBinding = IllustratorHostBinding;

pub type AfterEffectsPluginBinding = IllustratorPluginBinding;

pub type AfterEffectsBootstrapContinuation = IllustratorBootstrapContinuation;

pub type AfterEffectsBootstrapResult = IllustratorBootstrapResult;

pub type AfterEffectsBootstrapVerifyRequest = IllustratorBootstrapVerifyRequest;

} // verus!
