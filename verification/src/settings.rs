//! The broker's settings, its nonces, and the fixed texts it answers with.
use vstd::prelude::*;

use crate::broker::BrokerState;
use crate::checks::{is_absolute_path, normal_path, sha256_shape};
use crate::json::{member, number, number_json, JsonModel, JsonValue, MemberModel, ObjectBuilder};
use crate::outside::{
    digits_of_uuid, draw_uuid, hyphenate_uuid, is_random_uuid, json_string, quote_json, sha256_hex, sha256_text,
    uuid_digits, uuid_text,
};
use crate::protocol::{BridgeSessionInfo, RequestId, RequestIdModel};
use crate::runtime::{BrokerRuntimeIdentity, BrokerRuntimeIdentityModel};
use crate::text::{decimal, decimal_text, join2, push_text};

verus! {

/// An address to listen on.
#[derive(Debug, Clone, Copy, PartialEq, Eq, Structural)]
pub enum BindAddress {
    V4 { a: u8, b: u8, c: u8, d: u8 },
    /// The 128 bits of the address.
    V6 { bits: u128 },
}

/// The settings of a broker.
#[derive(Debug)]
pub struct BrokerConfig {
    pub address: BindAddress,
    pub port: u16,
    pub token: String,
    pub default_timeout_ms: u64,
}

/// The settings of a broker that was given none.
pub open spec fn default_settings(c: BrokerConfig) -> bool {
    &&& c.address == (BindAddress::V4 { a: 127, b: 0, c: 0, d: 1 })
    &&& c.port == 47_391
    &&& c.token@ == "dev-token"@
    &&& c.default_timeout_ms == 30_000
}

impl Default for BrokerConfig {
    fn default() -> (r: Self)
        ensures
            default_settings(r),
    {
        BrokerConfig {
            address: BindAddress::V4 { a: 127, b: 0, c: 0, d: 1 },
            port: 47_391,
            token: "dev-token".to_owned(),
            default_timeout_ms: 30_000,
        }
    }
}

/// A dotted decimal address.
pub open spec fn dotted(a: u8, b: u8, c: u8, d: u8) -> Seq<char> {
    decimal_text(a as nat) + "."@ + decimal_text(b as nat) + "."@ + decimal_text(c as nat) + "."@
        + decimal_text(d as nat)
}

/// The host part of a URL for an address that only this machine can reach.
pub open spec fn loopback_host(address: BindAddress) -> Option<Seq<char>> {
    match address {
        BindAddress::V4 { a, b, c, d } => if a == 127 {
            Some(dotted(a, b, c, d))
        } else {
            None
        },
        BindAddress::V6 { bits } => if bits == 1 {
            Some("[::1]"@)
        } else {
            None
        },
    }
}

/// The address that Photoshop bridges connect to.
pub open spec fn websocket_url(address: BindAddress, port: u16, r: Option<String>) -> bool {
    match loopback_host(address) {
        Some(host) => r is Some && r->0@ == "ws://"@ + host + ":"@ + decimal_text(port as nat)
            + "/v1/bridge/photoshop/ws"@,
        None => r is None,
    }
}

/// The address that Photoshop bridges connect to. A broker that others could
/// reach has none.
pub fn photoshop_websocket_url(address: BindAddress, port: u16) -> (r: Option<String>)
    ensures
        websocket_url(address, port, r),
{
    let mut out = "ws://".to_owned();
    match address {
        BindAddress::V4 { a, b, c, d } => {
            if a != 127 {
                return None;
            }
            let mut host = join2(decimal(a as u128).as_str(), ".");
            push_text(&mut host, decimal(b as u128).as_str());
            push_text(&mut host, ".");
            push_text(&mut host, decimal(c as u128).as_str());
            push_text(&mut host, ".");
            push_text(&mut host, decimal(d as u128).as_str());
            push_text(&mut out, host.as_str());
        },
        BindAddress::V6 { bits } => {
            if bits != 1 {
                return None;
            }
            push_text(&mut out, "[::1]");
        },
    }
    push_text(&mut out, ":");
    push_text(&mut out, decimal(port as u128).as_str());
    push_text(&mut out, "/v1/bridge/photoshop/ws");
    Some(out)
}

/// Byte `i` of the sixteen bytes of a UUID, the most significant first.
pub open spec fn uuid_byte(value: u128, i: int) -> u8 {
    (value >> ((120 - 8 * i) as u128)) as u8
}

/// The sixteen bytes of a UUID, the most significant first.
pub open spec fn uuid_bytes(value: u128) -> Seq<u8> {
    Seq::new(16, |i: int| uuid_byte(value, i))
}

fn push_uuid(out: &mut Vec<u8>, value: u128)
    ensures
        final(out)@ == old(out)@ + uuid_bytes(value),
{
    let ghost start = out@;
    for i in 0..16usize
        invariant
            out@ == start + uuid_bytes(value).take(i as int),
    {
        let shift: u128 = 120 - 8 * (i as u128);
        out.push((value >> shift) as u8);
        assert(uuid_bytes(value)[i as int] == (value >> shift) as u8);
        assert(uuid_bytes(value).take(i + 1) =~= uuid_bytes(value).take(i as int).push(
            (value >> shift) as u8,
        ));
    }
    assert(uuid_bytes(value).take(16) =~= uuid_bytes(value));
}

/// The nonce made of two random identifiers: the digest of their bytes.
pub fn nonce_of(first: u128, second: u128) -> (r: String)
    ensures
        r@ == sha256_text(uuid_bytes(first) + uuid_bytes(second)),
        sha256_shape(r@),
{
    let mut bytes: Vec<u8> = Vec::new();
    push_uuid(&mut bytes, first);
    push_uuid(&mut bytes, second);
    assert(bytes@ =~= uuid_bytes(first) + uuid_bytes(second));
    sha256_hex(bytes.as_slice())
}

/// The text is the nonce of some two random identifiers.
pub open spec fn is_fresh_nonce(text: Seq<char>) -> bool {
    &&& sha256_shape(text)
    &&& exists|first: u128, second: u128| #[trigger]
        is_random_uuid(first) && #[trigger] is_random_uuid(second) && text == sha256_text(
            uuid_bytes(first) + uuid_bytes(second),
        )
}

/// A new nonce. Which one is left to chance.
pub fn random_nonce() -> (r: String)
    ensures
        is_fresh_nonce(r@),
{
    let first: u128 = draw_uuid();
    let second: u128 = draw_uuid();
    nonce_of(first, second)
}

/// What identifies a broker: all that was captured, provided that its
/// executable has an absolute path.
pub open spec fn identifies_broker(
    pid: u32,
    process_start_identity: Seq<char>,
    executable_path: Seq<char>,
    runtime_version: Seq<char>,
    instance: u128,
    r: Option<BrokerRuntimeIdentity>,
) -> bool {
    match normal_path(executable_path) {
        Some(_) => r is Some && r->0@ == (BrokerRuntimeIdentityModel {
            pid,
            process_start_identity,
            executable_path,
            runtime_version,
            instance_id: uuid_text(instance),
        }),
        None => r is None,
    }
}

/// The broker's own identity. A broker whose executable has no absolute path
/// has none.
pub fn broker_identity(
    pid: u32,
    process_start_identity: String,
    executable_path: String,
    runtime_version: String,
    instance: u128,
) -> (r: Option<BrokerRuntimeIdentity>)
    ensures
        identifies_broker(
            pid,
            process_start_identity@,
            executable_path@,
            runtime_version@,
            instance,
            r,
        ),
{
    if !is_absolute_path(executable_path.as_str()) {
        return None;
    }
    Some(
        BrokerRuntimeIdentity {
            pid,
            process_start_identity,
            executable_path,
            runtime_version,
            instance_id: hyphenate_uuid(instance),
        },
    )
}

/// The broker's own identity under an instance identifier left to chance.
pub fn capture_broker_identity(
    pid: u32,
    process_start_identity: String,
    executable_path: String,
    runtime_version: String,
) -> (r: Option<BrokerRuntimeIdentity>)
    ensures
        exists|instance: u128| #[trigger]
            is_random_uuid(instance) && identifies_broker(
                pid,
                process_start_identity@,
                executable_path@,
                runtime_version@,
                instance,
                r,
            ),
{
    let instance: u128 = draw_uuid();
    broker_identity(pid, process_start_identity, executable_path, runtime_version, instance)
}

/// The name of a hidden file that belongs to the broker.
pub open spec fn hidden_name(id: u128, suffix: Seq<char>) -> Seq<char> {
    ".adobepy."@ + uuid_digits(id) + suffix
}

/// The name of a hidden file that belongs to the broker.
pub fn hidden_file_name(id: u128, suffix: &str) -> (r: String)
    ensures
        r@ == hidden_name(id, suffix@),
{
    let mut out = join2(".adobepy.", digits_of_uuid(id).as_str());
    push_text(&mut out, suffix);
    out
}

/// A new name for a file that is staged beside a configuration. Which one is
/// left to chance.
pub fn staging_file_name() -> (r: String)
    ensures
        exists|id: u128| #[trigger] is_random_uuid(id) && r@ == hidden_name(id, ".stage"@),
{
    let id: u128 = draw_uuid();
    hidden_file_name(id, ".stage")
}

/// A new name for a file that is moved aside before it is removed. Which one
/// is left to chance.
pub fn quarantine_file_name() -> (r: String)
    ensures
        exists|id: u128| #[trigger] is_random_uuid(id) && r@ == hidden_name(id, ".owned"@),
{
    let id: u128 = draw_uuid();
    hidden_file_name(id, ".owned")
}

/// The reply to a request without a valid token.
pub const UNAUTHORIZED_MESSAGE: &'static str = "invalid or missing x-adobepy-token header";

/// The reply where a reply could not be written: the identifier as text, or
/// null.
pub open spec fn serialization_error_reply(id: Option<RequestIdModel>) -> Seq<char> {
    let id_json = match id {
        Some(id) => json_string(id.text()),
        None => "null"@,
    };
    "{\"jsonrpc\":\"2.0\",\"id\":"@ + id_json
        + ",\"error\":{\"code\":-32008,\"message\":\"failed to serialize broker response\"}}"@
}

pub fn serialization_error_text(id: Option<&RequestId>) -> (r: String)
    ensures
        r@ == serialization_error_reply(
            match id {
                Some(id) => Some(id@),
                None => None,
            },
        ),
{
    let id_json = match id {
        Some(id) => quote_json(id.to_string().as_str()),
        None => "null".to_owned(),
    };
    let mut out = join2("{\"jsonrpc\":\"2.0\",\"id\":", id_json.as_str());
    push_text(
        &mut out,
        ",\"error\":{\"code\":-32008,\"message\":\"failed to serialize broker response\"}}",
    );
    out
}

impl BrokerState {
    /// The report of the health.
    pub open spec fn health_json(self) -> JsonModel {
        JsonModel::Object(
            Seq::<MemberModel>::empty().push(member("status"@, JsonModel::Text("ok"@))).push(
                member("sessions"@, number_json(self.sessions.size())),
            ).push(member("protocol"@, JsonModel::Text("jsonrpc-2.0"@))),
        )
    }

    /// The broker's report of its health.
    pub fn health(&self) -> (r: JsonValue)
        ensures
            r@ == self.health_json(),
    {
        let mut report = ObjectBuilder::new();
        report.put_text("status", "ok");
        report.put("sessions", number(self.sessions.len() as u128));
        report.put_text("protocol", "jsonrpc-2.0");
        report.finish()
    }

    /// The connected bridges, each once and in no particular order.
    pub fn list_capabilities(&self) -> (r: Vec<&BridgeSessionInfo>)
        ensures
            r@.len() == self.sessions.size(),
            self.sessions.indexed(),
            forall|i: int|
                0 <= i < r@.len() ==> self.sessions@.dom().contains(
                    #[trigger] self.sessions.key(i),
                ) && *r@[i] == self.sessions@[self.sessions.key(i)],
    {
        let total: usize = self.sessions.len();
        let mut out: Vec<&BridgeSessionInfo> = Vec::new();
        for i in 0..total
            invariant
                total == self.sessions.size(),
                self.sessions.indexed(),
                out@.len() == i,
                forall|j: int|
                    0 <= j < i ==> self.sessions@.dom().contains(
                        #[trigger] self.sessions.key(j),
                    ) && *out@[j] == self.sessions@[self.sessions.key(j)],
        {
            let entry = self.sessions.at(i);
            out.push(&entry.value);
            assert(*out@[i as int] == self.sessions@[self.sessions.key(i as int)]);
        }
        out
    }
}

} // verus!
