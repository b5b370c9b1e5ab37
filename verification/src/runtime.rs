//! What brokers, hosts and bridges say about the instance they run as.
use vstd::prelude::*;

use crate::json::{member, number, number_json, JsonModel, JsonValue, MemberModel, ObjectBuilder};
use crate::protocol::{BridgeKind, Capabilities, HostKind, RpcErrorResponse, RpcResponse};
use crate::text::{clone_text_option, text_option};

verus! {

/// What a bridge claims about the process it runs in.
#[derive(Debug, PartialEq, Eq)]
pub struct HostIdentityClaim {
    pub pid: Option<u32>,
    pub process_start_identity: Option<String>,
    pub executable_path: Option<String>,
    pub host_version: Option<String>,
    pub profile_id: Option<String>,
}

/// The mathematical value behind a [`HostIdentityClaim`].
#[verifier::ext_equal]
pub struct HostIdentityClaimModel {
    pub pid: Option<u32>,
    pub process_start_identity: Option<Seq<char>>,
    pub executable_path: Option<Seq<char>>,
    pub host_version: Option<Seq<char>>,
    pub profile_id: Option<Seq<char>>,
}

impl View for HostIdentityClaim {
    type V = HostIdentityClaimModel;

    open spec fn view(&self) -> HostIdentityClaimModel {
        HostIdentityClaimModel {
            pid: self.pid,
            process_start_identity: text_option(self.process_start_identity),
            executable_path: text_option(self.executable_path),
            host_version: text_option(self.host_version),
            profile_id: text_option(self.profile_id),
        }
    }
}

impl Clone for HostIdentityClaim {
    fn clone(&self) -> (r: Self)
        ensures
            r == *self,
    {
        HostIdentityClaim {
            pid: self.pid,
            process_start_identity: clone_text_option(&self.process_start_identity),
            executable_path: clone_text_option(&self.executable_path),
            host_version: clone_text_option(&self.host_version),
            profile_id: clone_text_option(&self.profile_id),
        }
    }
}
/// What a bridge claims about itself.
#[derive(Debug, PartialEq, Eq)]
pub struct BridgeInstanceClaim {
    pub instance_id: Option<String>,
    pub installed_plugin_root: Option<String>,
    pub module_origin: Option<String>,
}

/// The mathematical value behind a [`BridgeInstanceClaim`].
#[verifier::ext_equal]
pub struct BridgeInstanceClaimModel {
    pub instance_id: Option<Seq<char>>,
    pub installed_plugin_root: Option<Seq<char>>,
    pub module_origin: Option<Seq<char>>,
}

impl View for BridgeInstanceClaim {
    type V = BridgeInstanceClaimModel;

    open spec fn view(&self) -> BridgeInstanceClaimModel {
        BridgeInstanceClaimModel {
            instance_id: text_option(self.instance_id),
            installed_plugin_root: text_option(self.installed_plugin_root),
            module_origin: text_option(self.module_origin),
        }
    }
}

impl Clone for BridgeInstanceClaim {
    fn clone(&self) -> (r: Self)
        ensures
            r == *self,
    {
        BridgeInstanceClaim {
            instance_id: clone_text_option(&self.instance_id),
            installed_plugin_root: clone_text_option(&self.installed_plugin_root),
            module_origin: clone_text_option(&self.module_origin),
        }
    }
}
/// The identity claim that a bridge sends when it connects.
#[derive(Debug, PartialEq, Eq)]
pub struct BridgeIdentityClaim {
    pub host: HostIdentityClaim,
    pub bridge: BridgeInstanceClaim,
}

/// The mathematical value behind a [`BridgeIdentityClaim`].
#[verifier::ext_equal]
pub struct BridgeIdentityClaimModel {
    pub host: HostIdentityClaimModel,
    pub bridge: BridgeInstanceClaimModel,
}

impl View for BridgeIdentityClaim {
    type V = BridgeIdentityClaimModel;

    open spec fn view(&self) -> BridgeIdentityClaimModel {
        BridgeIdentityClaimModel {
            host: self.host@,
            bridge: self.bridge@,
        }
    }
}

impl Clone for BridgeIdentityClaim {
    fn clone(&self) -> (r: Self)
        ensures
            r == *self,
    {
        BridgeIdentityClaim {
            host: self.host.clone(),
            bridge: self.bridge.clone(),
        }
    }
}
/// The broker process.
#[derive(Debug, PartialEq, Eq)]
pub struct BrokerRuntimeIdentity {
    pub pid: u32,
    pub process_start_identity: String,
    pub executable_path: String,
    pub runtime_version: String,
    pub instance_id: String,
}

/// The mathematical value behind a [`BrokerRuntimeIdentity`].
#[verifier::ext_equal]
pub struct BrokerRuntimeIdentityModel {
    pub pid: u32,
    pub process_start_identity: Seq<char>,
    pub executable_path: Seq<char>,
    pub runtime_version: Seq<char>,
    pub instance_id: Seq<char>,
}

impl View for BrokerRuntimeIdentity {
    type V = BrokerRuntimeIdentityModel;

    open spec fn view(&self) -> BrokerRuntimeIdentityModel {
        BrokerRuntimeIdentityModel {
            pid: self.pid,
            process_start_identity: self.process_start_identity@,
            executable_path: self.executable_path@,
            runtime_version: self.runtime_version@,
            instance_id: self.instance_id@,
        }
    }
}

impl Clone for BrokerRuntimeIdentity {
    fn clone(&self) -> (r: Self)
        ensures
            r == *self,
    {
        BrokerRuntimeIdentity {
            pid: self.pid,
            process_start_identity: self.process_start_identity.clone(),
            executable_path: self.executable_path.clone(),
            runtime_version: self.runtime_version.clone(),
            instance_id: self.instance_id.clone(),
        }
    }
}

impl BrokerRuntimeIdentity {
    /// Field-by-field equality.
    pub fn same(&self, other: &Self) -> (r: bool)
        ensures
            r == (self@ == other@),
    {
        self.pid == other.pid && self.process_start_identity == other.process_start_identity && self.executable_path == other.executable_path && self.runtime_version == other.runtime_version && self.instance_id == other.instance_id
    }
}

impl BrokerRuntimeIdentityModel {
    /// The wire form: one member per field, in this order.
    pub open spec fn json(self) -> JsonModel {
        let s = Seq::<MemberModel>::empty();
        let s = s.push(member("pid"@, number_json(self.pid as nat)));
        let s = s.push(member("processStartIdentity"@, JsonModel::Text(self.process_start_identity)));
        let s = s.push(member("executablePath"@, JsonModel::Text(self.executable_path)));
        let s = s.push(member("runtimeVersion"@, JsonModel::Text(self.runtime_version)));
        let s = s.push(member("instanceId"@, JsonModel::Text(self.instance_id)));
        JsonModel::Object(s)
    }
}

impl BrokerRuntimeIdentity {
    /// The wire form of the value.
    pub fn to_json(&self) -> (r: JsonValue)
        ensures
            r@ == self@.json(),
    {
        let mut object = ObjectBuilder::new();
        object.put("pid", number(self.pid as u128));
        object.put("processStartIdentity", JsonValue::Text(self.process_start_identity.clone()));
        object.put("executablePath", JsonValue::Text(self.executable_path.clone()));
        object.put("runtimeVersion", JsonValue::Text(self.runtime_version.clone()));
        object.put("instanceId", JsonValue::Text(self.instance_id.clone()));
        object.finish()
    }
}
/// The host process a bridge runs in.
#[derive(Debug, PartialEq, Eq)]
pub struct HostRuntimeIdentity {
    pub pid: u32,
    pub process_start_identity: String,
    pub executable_path: String,
    pub host_version: String,
    pub profile_id: String,
}

/// The mathematical value behind a [`HostRuntimeIdentity`].
#[verifier::ext_equal]
pub struct HostRuntimeIdentityModel {
    pub pid: u32,
    pub process_start_identity: Seq<char>,
    pub executable_path: Seq<char>,
    pub host_version: Seq<char>,
    pub profile_id: Seq<char>,
}

impl View for HostRuntimeIdentity {
    type V = HostRuntimeIdentityModel;

    open spec fn view(&self) -> HostRuntimeIdentityModel {
        HostRuntimeIdentityModel {
            pid: self.pid,
            process_start_identity: self.process_start_identity@,
            executable_path: self.executable_path@,
            host_version: self.host_version@,
            profile_id: self.profile_id@,
        }
    }
}

impl Clone for HostRuntimeIdentity {
    fn clone(&self) -> (r: Self)
        ensures
            r == *self,
    {
        HostRuntimeIdentity {
            pid: self.pid,
            process_start_identity: self.process_start_identity.clone(),
            executable_path: self.executable_path.clone(),
            host_version: self.host_version.clone(),
            profile_id: self.profile_id.clone(),
        }
    }
}

impl HostRuntimeIdentity {
    /// Field-by-field equality.
    pub fn same(&self, other: &Self) -> (r: bool)
        ensures
            r == (self@ == other@),
    {
        self.pid == other.pid && self.process_start_identity == other.process_start_identity && self.executable_path == other.executable_path && self.host_version == other.host_version && self.profile_id == other.profile_id
    }
}

impl HostRuntimeIdentityModel {
    /// The wire form: one member per field, in this order.
    pub open spec fn json(self) -> JsonModel {
        let s = Seq::<MemberModel>::empty();
        let s = s.push(member("pid"@, number_json(self.pid as nat)));
        let s = s.push(member("processStartIdentity"@, JsonModel::Text(self.process_start_identity)));
        let s = s.push(member("executablePath"@, JsonModel::Text(self.executable_path)));
        let s = s.push(member("hostVersion"@, JsonModel::Text(self.host_version)));
        let s = s.push(member("profileId"@, JsonModel::Text(self.profile_id)));
        JsonModel::Object(s)
    }
}

impl HostRuntimeIdentity {
    /// The wire form of the value.
    pub fn to_json(&self) -> (r: JsonValue)
        ensures
            r@ == self@.json(),
    {
        let mut object = ObjectBuilder::new();
        object.put("pid", number(self.pid as u128));
        object.put("processStartIdentity", JsonValue::Text(self.process_start_identity.clone()));
        object.put("executablePath", JsonValue::Text(self.executable_path.clone()));
        object.put("hostVersion", JsonValue::Text(self.host_version.clone()));
        object.put("profileId", JsonValue::Text(self.profile_id.clone()));
        object.finish()
    }
}
/// A connected bridge instance.
#[derive(Debug, PartialEq, Eq)]
pub struct BridgeRuntimeIdentity {
    pub target: String,
    pub bridge_kind: BridgeKind,
    pub bridge_version: String,
    pub connected_at_epoch_ms: u128,
    pub instance_id: String,
    pub installed_plugin_root: String,
    pub module_origin: String,
}

/// The mathematical value behind a [`BridgeRuntimeIdentity`].
#[verifier::ext_equal]
pub struct BridgeRuntimeIdentityModel {
    pub target: Seq<char>,
    pub bridge_kind: BridgeKind,
    pub bridge_version: Seq<char>,
    pub connected_at_epoch_ms: u128,
    pub instance_id: Seq<char>,
    pub installed_plugin_root: Seq<char>,
    pub module_origin: Seq<char>,
}

impl View for BridgeRuntimeIdentity {
    type V = BridgeRuntimeIdentityModel;

    open spec fn view(&self) -> BridgeRuntimeIdentityModel {
        BridgeRuntimeIdentityModel {
            target: self.target@,
            bridge_kind: self.bridge_kind,
            bridge_version: self.bridge_version@,
            connected_at_epoch_ms: self.connected_at_epoch_ms,
            instance_id: self.instance_id@,
            installed_plugin_root: self.installed_plugin_root@,
            module_origin: self.module_origin@,
        }
    }
}

impl Clone for BridgeRuntimeIdentity {
    fn clone(&self) -> (r: Self)
        ensures
            r == *self,
    {
        BridgeRuntimeIdentity {
            target: self.target.clone(),
            bridge_kind: self.bridge_kind,
            bridge_version: self.bridge_version.clone(),
            connected_at_epoch_ms: self.connected_at_epoch_ms,
            instance_id: self.instance_id.clone(),
            installed_plugin_root: self.installed_plugin_root.clone(),
            module_origin: self.module_origin.clone(),
        }
    }
}

impl BridgeRuntimeIdentity {
    /// Field-by-field equality.
    pub fn same(&self, other: &Self) -> (r: bool)
        ensures
            r == (self@ == other@),
    {
        self.target == other.target && self.bridge_kind == other.bridge_kind && self.bridge_version == other.bridge_version && self.connected_at_epoch_ms == other.connected_at_epoch_ms && self.instance_id == other.instance_id && self.installed_plugin_root == other.installed_plugin_root && self.module_origin == other.module_origin
    }
}

impl BridgeRuntimeIdentityModel {
    /// The wire form: one member per field, in this order.
    pub open spec fn json(self) -> JsonModel {
        let s = Seq::<MemberModel>::empty();
        let s = s.push(member("target"@, JsonModel::Text(self.target)));
        let s = s.push(member("bridgeKind"@, JsonModel::Text(self.bridge_kind.name())));
        let s = s.push(member("bridgeVersion"@, JsonModel::Text(self.bridge_version)));
        let s = s.push(member("connectedAtEpochMs"@, number_json(self.connected_at_epoch_ms as nat)));
        let s = s.push(member("instanceId"@, JsonModel::Text(self.instance_id)));
        let s = s.push(member("installedPluginRoot"@, JsonModel::Text(self.installed_plugin_root)));
        let s = s.push(member("moduleOrigin"@, JsonModel::Text(self.module_origin)));
        JsonModel::Object(s)
    }
}

impl BridgeRuntimeIdentity {
    /// The wire form of the value.
    pub fn to_json(&self) -> (r: JsonValue)
        ensures
            r@ == self@.json(),
    {
        let mut object = ObjectBuilder::new();
        object.put("target", JsonValue::Text(self.target.clone()));
        object.put("bridgeKind", JsonValue::Text(self.bridge_kind.as_str().to_owned()));
        object.put("bridgeVersion", JsonValue::Text(self.bridge_version.clone()));
        object.put("connectedAtEpochMs", number(self.connected_at_epoch_ms as u128));
        object.put("instanceId", JsonValue::Text(self.instance_id.clone()));
        object.put("installedPluginRoot", JsonValue::Text(self.installed_plugin_root.clone()));
        object.put("moduleOrigin", JsonValue::Text(self.module_origin.clone()));
        object.finish()
    }
}
/// The complete identity of one broker, host and bridge.
#[derive(Debug, PartialEq, Eq)]
pub struct RuntimeIdentityAttestation {
    pub identity_version: u8,
    pub broker: BrokerRuntimeIdentity,
    pub host: HostRuntimeIdentity,
    pub bridge: BridgeRuntimeIdentity,
}

/// The mathematical value behind a [`RuntimeIdentityAttestation`].
#[verifier::ext_equal]
pub struct RuntimeIdentityAttestationModel {
    pub identity_version: u8,
    pub broker: BrokerRuntimeIdentityModel,
    pub host: HostRuntimeIdentityModel,
    pub bridge: BridgeRuntimeIdentityModel,
}

impl View for RuntimeIdentityAttestation {
    type V = RuntimeIdentityAttestationModel;

    open spec fn view(&self) -> RuntimeIdentityAttestationModel {
        RuntimeIdentityAttestationModel {
            identity_version: self.identity_version,
            broker: self.broker@,
            host: self.host@,
            bridge: self.bridge@,
        }
    }
}

impl Clone for RuntimeIdentityAttestation {
    fn clone(&self) -> (r: Self)
        ensures
            r == *self,
    {
        RuntimeIdentityAttestation {
            identity_version: self.identity_version,
            broker: self.broker.clone(),
            host: self.host.clone(),
            bridge: self.bridge.clone(),
        }
    }
}

impl RuntimeIdentityAttestation {
    /// Field-by-field equality.
    pub fn same(&self, other: &Self) -> (r: bool)
        ensures
            r == (self@ == other@),
    {
        self.identity_version == other.identity_version && self.broker.same(&other.broker) && self.host.same(&other.host) && self.bridge.same(&other.bridge)
    }
}

impl RuntimeIdentityAttestationModel {
    /// The wire form: one member per field, in this order.
    pub open spec fn json(self) -> JsonModel {
        let s = Seq::<MemberModel>::empty();
        let s = s.push(member("identityVersion"@, number_json(self.identity_version as nat)));
        let s = s.push(member("broker"@, self.broker.json()));
        let s = s.push(member("host"@, self.host.json()));
        let s = s.push(member("bridge"@, self.bridge.json()));
        JsonModel::Object(s)
    }
}

impl RuntimeIdentityAttestation {
    /// The wire form of the value.
    pub fn to_json(&self) -> (r: JsonValue)
        ensures
            r@ == self@.json(),
    {
        let mut object = ObjectBuilder::new();
        object.put("identityVersion", number(self.identity_version as u128));
        object.put("broker", self.broker.to_json());
        object.put("host", self.host.to_json());
        object.put("bridge", self.bridge.to_json());
        object.finish()
    }
}

/// Asks for the identity of the bridge of a host.
#[derive(Debug, PartialEq, Eq)]
pub struct RuntimeIdentityQuery {
    pub host: HostKind,
    pub target: Option<String>,
    pub expected: Option<RuntimeIdentityAttestation>,
}

/// What a bridge sends to the broker.
#[derive(Debug)]
pub enum BridgeInbound {
    Hello {
        token: String,
        target: Option<String>,
        capabilities: Capabilities,
        identity: Option<BridgeIdentityClaim>,
        bootstrap_nonce: Option<String>,
    },
    Response { response: RpcResponse },
    Error { error: RpcErrorResponse },
}

} // verus!
