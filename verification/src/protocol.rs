//! The JSON-RPC side of the wire protocol: hosts, bridges, requests and replies.
use std::str::FromStr;
use vstd::prelude::*;

use crate::json::{member, number, number_json, JsonModel, JsonValue, MemberModel, ObjectBuilder};
use crate::table::Table;
use crate::text::{
    chars_of, clone_text_option, join2, lower_chars, lower_text, push_text, same_text,
    signed_decimal, signed_decimal_text, text_of, text_option,
};

verus! {

pub const JSONRPC_VERSION: &'static str = "2.0";

pub const DEFAULT_TARGET: &'static str = "default";

pub const ERROR_PARSE: i32 = -32700;

pub const ERROR_INVALID_REQUEST: i32 = -32600;

pub const ERROR_METHOD_NOT_FOUND: i32 = -32601;

pub const ERROR_HOST_NOT_RUNNING: i32 = -32001;

pub const ERROR_BRIDGE_NOT_INSTALLED: i32 = -32002;

pub const ERROR_CAPABILITY: i32 = -32003;

pub const ERROR_HOST_SCRIPT: i32 = -32004;

pub const ERROR_PERMISSION: i32 = -32005;

pub const ERROR_MODAL_REQUIRED: i32 = -32006;

pub const ERROR_TIMEOUT: i32 = -32007;

pub const ERROR_SERIALIZATION: i32 = -32008;

pub const ERROR_UNAUTHORIZED: i32 = -32009;

pub const ERROR_IDENTITY_UNAVAILABLE: i32 = -32010;

pub const ERROR_IDENTITY_STALE: i32 = -32011;

pub const ERROR_IDENTITY_AMBIGUOUS: i32 = -32012;

pub const ERROR_IDENTITY_MISMATCH: i32 = -32013;

pub const RUNTIME_IDENTITY_VERSION: u8 = 1;

pub const PHOTOSHOP_BOOTSTRAP_VERSION: u8 = 1;

pub const ILLUSTRATOR_BOOTSTRAP_VERSION: u8 = 1;

pub const AFTER_EFFECTS_BOOTSTRAP_VERSION: u8 = 1;

/// The Adobe applications a bridge can run in.
#[derive(Debug, Clone, Copy, PartialEq, Eq, PartialOrd, Ord, Hash, Structural)]
pub enum HostKind {
    Photoshop,
    InDesign,
    Premiere,
    AfterEffects,
    Illustrator,
    LightroomClassic,
    Acrobat,
    Animate,
    Cloud,
}

impl HostKind {
    /// The name of the host on the wire.
    pub open spec fn name(self) -> Seq<char> {
        match self {
            HostKind::Photoshop => "photoshop"@,
            HostKind::InDesign => "indesign"@,
            HostKind::Premiere => "premiere"@,
            HostKind::AfterEffects => "after-effects"@,
            HostKind::Illustrator => "illustrator"@,
            HostKind::LightroomClassic => "lightroom-classic"@,
            HostKind::Acrobat => "acrobat"@,
            HostKind::Animate => "animate"@,
            HostKind::Cloud => "cloud"@,
        }
    }

    pub fn as_str(self) -> (r: &'static str)
        ensures
            r@ == self.name(),
    {
        match self {
            HostKind::Photoshop => "photoshop",
            HostKind::InDesign => "indesign",
            HostKind::Premiere => "premiere",
            HostKind::AfterEffects => "after-effects",
            HostKind::Illustrator => "illustrator",
            HostKind::LightroomClassic => "lightroom-classic",
            HostKind::Acrobat => "acrobat",
            HostKind::Animate => "animate",
            HostKind::Cloud => "cloud",
        }
    }

    /// What reading a host name gives.
    pub open spec fn parsed(value: Seq<char>, r: Result<HostKind, ProtocolError>) -> bool {
        match host_named(lower_text(value)) {
            Some(host) => r == Ok::<HostKind, ProtocolError>(host),
            None => r matches Err(ProtocolError::UnknownHost(name)) && name@ == value,
        }
    }

    /// Reads a host name or one of its short forms, without regard to case.
    pub fn parse(value: &str) -> (r: Result<HostKind, ProtocolError>)
        ensures
            Self::parsed(value@, r),
    {
        let folded = text_of(&lower_chars(&chars_of(value)));
        let name = folded.as_str();
        if same_text(name, "photoshop") || same_text(name, "ps") {
            Ok(HostKind::Photoshop)
        } else if same_text(name, "indesign") || same_text(name, "id") {
            Ok(HostKind::InDesign)
        } else if same_text(name, "premiere") || same_text(name, "premiere-pro") || same_text(
            name,
            "pr",
        ) {
            Ok(HostKind::Premiere)
        } else if same_text(name, "after-effects") || same_text(name, "aftereffects") || same_text(
            name,
            "ae",
        ) {
            Ok(HostKind::AfterEffects)
        } else if same_text(name, "illustrator") || same_text(name, "ai") {
            Ok(HostKind::Illustrator)
        } else if same_text(name, "lightroom-classic") || same_text(name, "lightroom") || same_text(
            name,
            "lr",
        ) {
            Ok(HostKind::LightroomClassic)
        } else if same_text(name, "acrobat") {
            Ok(HostKind::Acrobat)
        } else if same_text(name, "animate") {
            Ok(HostKind::Animate)
        } else if same_text(name, "cloud") || same_text(name, "rest") {
            Ok(HostKind::Cloud)
        } else {
            Err(ProtocolError::UnknownHost(value.to_owned()))
        }
    }
}

/// The host that a name or short form in lower case stands for.
pub open spec fn host_named(name: Seq<char>) -> Option<HostKind> {
    if name == "photoshop"@ || name == "ps"@ {
        Some(HostKind::Photoshop)
    } else if name == "indesign"@ || name == "id"@ {
        Some(HostKind::InDesign)
    } else if name == "premiere"@ || name == "premiere-pro"@ || name == "pr"@ {
        Some(HostKind::Premiere)
    } else if name == "after-effects"@ || name == "aftereffects"@ || name == "ae"@ {
        Some(HostKind::AfterEffects)
    } else if name == "illustrator"@ || name == "ai"@ {
        Some(HostKind::Illustrator)
    } else if name == "lightroom-classic"@ || name == "lightroom"@ || name == "lr"@ {
        Some(HostKind::LightroomClassic)
    } else if name == "acrobat"@ {
        Some(HostKind::Acrobat)
    } else if name == "animate"@ {
        Some(HostKind::Animate)
    } else if name == "cloud"@ || name == "rest"@ {
        Some(HostKind::Cloud)
    } else {
        None
    }
}

impl FromStr for HostKind {
    type Err = ProtocolError;

    fn from_str(value: &str) -> (r: Result<Self, ProtocolError>)
        ensures
            HostKind::parsed(value@, r),
    {
        HostKind::parse(value)
    }
}

/// The technologies a bridge can be built on.
#[derive(Debug, Clone, Copy, PartialEq, Eq, Structural)]
pub enum BridgeKind {
    Uxp,
    Cep,
    ExtendScript,
    Lua,
    Native,
    AcrobatJs,
    Rest,
}

impl BridgeKind {
    /// The name of the bridge kind on the wire.
    pub open spec fn name(self) -> Seq<char> {
        match self {
            BridgeKind::Uxp => "uxp"@,
            BridgeKind::Cep => "cep"@,
            BridgeKind::ExtendScript => "extendscript"@,
            BridgeKind::Lua => "lua"@,
            BridgeKind::Native => "native"@,
            BridgeKind::AcrobatJs => "acrobat-js"@,
            BridgeKind::Rest => "rest"@,
        }
    }

    pub fn as_str(self) -> (r: &'static str)
        ensures
            r@ == self.name(),
    {
        match self {
            BridgeKind::Uxp => "uxp",
            BridgeKind::Cep => "cep",
            BridgeKind::ExtendScript => "extendscript",
            BridgeKind::Lua => "lua",
            BridgeKind::Native => "native",
            BridgeKind::AcrobatJs => "acrobat-js",
            BridgeKind::Rest => "rest",
        }
    }
}

/// What can be wrong with a value of the protocol.
#[derive(Debug, PartialEq, Eq)]
pub enum ProtocolError {
    UnknownHost(String),
}

impl ProtocolError {
    /// The error as a sentence.
    pub fn message(&self) -> (r: String)
        ensures
            r@ == "unknown Adobe host '"@ + self->UnknownHost_0@ + "'"@,
    {
        match self {
            ProtocolError::UnknownHost(name) => {
                let mut out = join2("unknown Adobe host '", name.as_str());
                push_text(&mut out, "'");
                out
            },
        }
    }
}

/// The identifier a caller gives a request.
#[derive(Debug, PartialEq, Eq, Hash)]
pub enum RequestId {
    String(String),
    Number(i64),
}

/// The mathematical value behind a [`RequestId`].
pub enum RequestIdModel {
    Text(Seq<char>),
    Number(i64),
}

impl View for RequestId {
    type V = RequestIdModel;

    open spec fn view(&self) -> RequestIdModel {
        match self {
            RequestId::String(text) => RequestIdModel::Text(text@),
            RequestId::Number(number) => RequestIdModel::Number(*number),
        }
    }
}

impl RequestIdModel {
    /// The identifier as text.
    pub open spec fn text(self) -> Seq<char> {
        match self {
            RequestIdModel::Text(text) => text,
            RequestIdModel::Number(number) => signed_decimal_text(number as int),
        }
    }

    /// The identifier on the wire.
    pub open spec fn json(self) -> JsonModel {
        match self {
            RequestIdModel::Text(text) => JsonModel::Text(text),
            RequestIdModel::Number(number) => JsonModel::Number(signed_decimal_text(number as int)),
        }
    }
}

impl Clone for RequestId {
    fn clone(&self) -> (r: Self)
        ensures
            r == *self,
    {
        match self {
            RequestId::String(text) => RequestId::String(text.clone()),
            RequestId::Number(number) => RequestId::Number(*number),
        }
    }
}

impl RequestId {
    pub fn from_string(value: &str) -> (r: Self)
        ensures
            r@ == RequestIdModel::Text(value@),
    {
        RequestId::String(value.to_owned())
    }

    /// The identifier as text.
    pub fn to_string(&self) -> (r: String)
        ensures
            r@ == self@.text(),
    {
        match self {
            RequestId::String(text) => text.clone(),
            RequestId::Number(number) => signed_decimal(*number),
        }
    }

    /// The identifier on the wire.
    pub fn to_json(&self) -> (r: JsonValue)
        ensures
            r@ == self@.json(),
    {
        match self {
            RequestId::String(text) => JsonValue::Text(text.clone()),
            RequestId::Number(number) => JsonValue::Number(signed_decimal(*number)),
        }
    }

    /// Equality of two identifiers.
    pub fn same(&self, other: &Self) -> (r: bool)
        ensures
            r == (self@ == other@),
    {
        match (self, other) {
            (RequestId::String(a), RequestId::String(b)) => *a == *b,
            (RequestId::Number(a), RequestId::Number(b)) => *a == *b,
            _ => false,
        }
    }
}

/// Per-request options.
#[derive(Debug, PartialEq, Eq)]
pub struct RpcOptions {
    pub modal: bool,
    pub command_name: Option<String>,
    pub timeout_ms: Option<u64>,
    pub trace_id: Option<String>,
}

/// The mathematical value behind a [`RpcOptions`].
#[verifier::ext_equal]
pub struct RpcOptionsModel {
    pub modal: bool,
    pub command_name: Option<Seq<char>>,
    pub timeout_ms: Option<u64>,
    pub trace_id: Option<Seq<char>>,
}

impl View for RpcOptions {
    type V = RpcOptionsModel;

    open spec fn view(&self) -> RpcOptionsModel {
        RpcOptionsModel {
            modal: self.modal,
            command_name: text_option(self.command_name),
            timeout_ms: self.timeout_ms,
            trace_id: text_option(self.trace_id),
        }
    }
}

impl Clone for RpcOptions {
    fn clone(&self) -> (r: Self)
        ensures
            r == *self,
    {
        RpcOptions {
            modal: self.modal,
            command_name: clone_text_option(&self.command_name),
            timeout_ms: self.timeout_ms,
            trace_id: clone_text_option(&self.trace_id),
        }
    }
}

impl RpcOptionsModel {
    /// The wire form: one member per field, in this order.
    pub open spec fn json(self) -> JsonModel {
        let s = Seq::<MemberModel>::empty();
        let s = s.push(member("modal"@, JsonModel::Bool(self.modal)));
        let s = match self.command_name {
            Some(v) => s.push(member("commandName"@, JsonModel::Text(v))),
            None => s,
        };
        let s = match self.timeout_ms {
            Some(v) => s.push(member("timeoutMs"@, number_json(v as nat))),
            None => s,
        };
        let s = match self.trace_id {
            Some(v) => s.push(member("traceId"@, JsonModel::Text(v))),
            None => s,
        };
        JsonModel::Object(s)
    }
}

impl RpcOptions {
    /// The wire form of the value.
    pub fn to_json(&self) -> (r: JsonValue)
        ensures
            r@ == self@.json(),
    {
        let mut object = ObjectBuilder::new();
        object.put("modal", JsonValue::Bool(self.modal));
        match &self.command_name {
            Some(v) => {
                object.put("commandName", JsonValue::Text(v.clone()));
            },
            None => {},
        }
        match &self.timeout_ms {
            Some(v) => {
                object.put("timeoutMs", number(*v as u128));
            },
            None => {},
        }
        match &self.trace_id {
            Some(v) => {
                object.put("traceId", JsonValue::Text(v.clone()));
            },
            None => {},
        }
        object.finish()
    }
}
impl Default for RpcOptions {
    fn default() -> (r: Self)
        ensures
            !r.modal,
            r.command_name is None,
            r.timeout_ms is None,
            r.trace_id is None,
    {
        RpcOptions { modal: false, command_name: None, timeout_ms: None, trace_id: None }
    }
}

/// What a bridge reports about how a request was served.
#[derive(Debug, PartialEq, Eq)]
pub struct Diagnostics {
    pub host_version: Option<String>,
    pub bridge: Option<String>,
    pub duration_ms: Option<u64>,
    pub trace_id: Option<String>,
}

/// The mathematical value behind a [`Diagnostics`].
#[verifier::ext_equal]
pub struct DiagnosticsModel {
    pub host_version: Option<Seq<char>>,
    pub bridge: Option<Seq<char>>,
    pub duration_ms: Option<u64>,
    pub trace_id: Option<Seq<char>>,
}

impl View for Diagnostics {
    type V = DiagnosticsModel;

    open spec fn view(&self) -> DiagnosticsModel {
        DiagnosticsModel {
            host_version: text_option(self.host_version),
            bridge: text_option(self.bridge),
            duration_ms: self.duration_ms,
            trace_id: text_option(self.trace_id),
        }
    }
}

impl Clone for Diagnostics {
    fn clone(&self) -> (r: Self)
        ensures
            r == *self,
    {
        Diagnostics {
            host_version: clone_text_option(&self.host_version),
            bridge: clone_text_option(&self.bridge),
            duration_ms: self.duration_ms,
            trace_id: clone_text_option(&self.trace_id),
        }
    }
}

impl DiagnosticsModel {
    /// The wire form: one member per field, in this order.
    pub open spec fn json(self) -> JsonModel {
        let s = Seq::<MemberModel>::empty();
        let s = match self.host_version {
            Some(v) => s.push(member("hostVersion"@, JsonModel::Text(v))),
            None => s,
        };
        let s = match self.bridge {
            Some(v) => s.push(member("bridge"@, JsonModel::Text(v))),
            None => s,
        };
        let s = match self.duration_ms {
            Some(v) => s.push(member("durationMs"@, number_json(v as nat))),
            None => s,
        };
        let s = match self.trace_id {
            Some(v) => s.push(member("traceId"@, JsonModel::Text(v))),
            None => s,
        };
        JsonModel::Object(s)
    }
}

impl Diagnostics {
    /// The wire form of the value.
    pub fn to_json(&self) -> (r: JsonValue)
        ensures
            r@ == self@.json(),
    {
        let mut object = ObjectBuilder::new();
        match &self.host_version {
            Some(v) => {
                object.put("hostVersion", JsonValue::Text(v.clone()));
            },
            None => {},
        }
        match &self.bridge {
            Some(v) => {
                object.put("bridge", JsonValue::Text(v.clone()));
            },
            None => {},
        }
        match &self.duration_ms {
            Some(v) => {
                object.put("durationMs", number(*v as u128));
            },
            None => {},
        }
        match &self.trace_id {
            Some(v) => {
                object.put("traceId", JsonValue::Text(v.clone()));
            },
            None => {},
        }
        object.finish()
    }
}

/// A call of a host method.
#[derive(Debug, PartialEq, Eq)]
pub struct RpcRequest {
    pub jsonrpc: String,
    pub id: RequestId,
    pub host: HostKind,
    pub target: Option<String>,
    pub namespace: String,
    pub method: String,
    pub args: Vec<JsonValue>,
    pub options: RpcOptions,
}

/// The mathematical value behind a [`RpcRequest`].
#[verifier::ext_equal]
pub struct RpcRequestModel {
    pub jsonrpc: Seq<char>,
    pub id: RequestIdModel,
    pub host: HostKind,
    pub target: Option<Seq<char>>,
    pub namespace: Seq<char>,
    pub method: Seq<char>,
    pub args: Seq<JsonModel>,
    pub options: RpcOptionsModel,
}

/// The views of a list of JSON values.
pub open spec fn json_models(items: Seq<JsonValue>) -> Seq<JsonModel> {
    items.map_values(|v: JsonValue| v@)
}

impl View for RpcRequest {
    type V = RpcRequestModel;

    open spec fn view(&self) -> RpcRequestModel {
        RpcRequestModel {
            jsonrpc: self.jsonrpc@,
            id: self.id@,
            host: self.host,
            target: text_option(self.target),
            namespace: self.namespace@,
            method: self.method@,
            args: json_models(self.args@),
            options: self.options@,
        }
    }
}

impl RpcRequestModel {
    /// The target, or the default target where the request names none.
    pub open spec fn target_name(self) -> Seq<char> {
        match self.target {
            Some(target) => target,
            None => DEFAULT_TARGET@,
        }
    }

    /// The wire form: one member per field, in this order.
    pub open spec fn json(self) -> JsonModel {
        let s = Seq::<MemberModel>::empty();
        let s = s.push(member("jsonrpc"@, JsonModel::Text(self.jsonrpc)));
        let s = s.push(member("id"@, self.id.json()));
        let s = s.push(member("host"@, JsonModel::Text(self.host.name())));
        let s = match self.target {
            Some(v) => s.push(member("target"@, JsonModel::Text(v))),
            None => s,
        };
        let s = s.push(member("namespace"@, JsonModel::Text(self.namespace)));
        let s = s.push(member("method"@, JsonModel::Text(self.method)));
        let s = s.push(member("args"@, JsonModel::List(self.args)));
        let s = s.push(member("options"@, self.options.json()));
        JsonModel::Object(s)
    }
}

impl RpcRequest {
    pub fn target_or_default(&self) -> (r: &str)
        ensures
            r@ == self@.target_name(),
    {
        match &self.target {
            Some(target) => target.as_str(),
            None => DEFAULT_TARGET,
        }
    }

    /// The wire form of the request.
    pub fn to_json(self) -> (r: JsonValue)
        ensures
            r@ == self@.json(),
    {
        let ghost models = json_models(self.args@);
        let mut object = ObjectBuilder::new();
        object.put("jsonrpc", JsonValue::Text(self.jsonrpc));
        object.put("id", self.id.to_json());
        object.put("host", JsonValue::Text(self.host.as_str().to_owned()));
        match self.target {
            Some(v) => {
                object.put("target", JsonValue::Text(v));
            },
            None => {},
        }
        object.put("namespace", JsonValue::Text(self.namespace));
        object.put("method", JsonValue::Text(self.method));
        let args = JsonValue::List(self.args);
        assert(args@->List_0 =~= models);
        object.put("args", args);
        object.put("options", self.options.to_json());
        object.finish()
    }
}

/// The result of a call.
#[derive(Debug, PartialEq, Eq)]
pub struct RpcResponse {
    pub jsonrpc: String,
    pub id: RequestId,
    pub result: JsonValue,
    pub diagnostics: Option<Diagnostics>,
}

/// The mathematical value behind a [`RpcResponse`].
#[verifier::ext_equal]
pub struct RpcResponseModel {
    pub jsonrpc: Seq<char>,
    pub id: RequestIdModel,
    pub result: JsonModel,
    pub diagnostics: Option<DiagnosticsModel>,
}

/// The view of optional diagnostics.
pub open spec fn diagnostics_model(d: Option<Diagnostics>) -> Option<DiagnosticsModel> {
    match d {
        Some(d) => Some(d@),
        None => None,
    }
}

impl View for RpcResponse {
    type V = RpcResponseModel;

    open spec fn view(&self) -> RpcResponseModel {
        RpcResponseModel {
            jsonrpc: self.jsonrpc@,
            id: self.id@,
            result: self.result@,
            diagnostics: diagnostics_model(self.diagnostics),
        }
    }
}

impl RpcResponseModel {
    /// The wire form: one member per field, in this order.
    pub open spec fn json(self) -> JsonModel {
        let s = Seq::<MemberModel>::empty();
        let s = s.push(member("jsonrpc"@, JsonModel::Text(self.jsonrpc)));
        let s = s.push(member("id"@, self.id.json()));
        let s = s.push(member("result"@, self.result));
        let s = match self.diagnostics {
            Some(v) => s.push(member("diagnostics"@, v.json())),
            None => s,
        };
        JsonModel::Object(s)
    }
}

impl RpcResponse {
    /// The wire form of the response.
    pub fn to_json(self) -> (r: JsonValue)
        ensures
            r@ == self@.json(),
    {
        let mut object = ObjectBuilder::new();
        object.put("jsonrpc", JsonValue::Text(self.jsonrpc));
        object.put("id", self.id.to_json());
        object.put("result", self.result);
        match &self.diagnostics {
            Some(v) => {
                object.put("diagnostics", v.to_json());
            },
            None => {},
        }
        object.finish()
    }
}

/// What went wrong with a call.
#[derive(Debug, PartialEq, Eq)]
pub struct RpcErrorObject {
    pub code: i32,
    pub message: String,
    pub data: Option<JsonValue>,
}

/// The reply to a call that failed.
#[derive(Debug, PartialEq, Eq)]
pub struct RpcErrorResponse {
    pub jsonrpc: String,
    pub id: Option<RequestId>,
    pub error: RpcErrorObject,
    pub diagnostics: Option<Diagnostics>,
}

/// The mathematical value behind a [`RpcErrorResponse`].
#[verifier::ext_equal]
pub struct ErrorModel {
    pub jsonrpc: Seq<char>,
    pub id: Option<RequestIdModel>,
    pub code: i32,
    pub message: Seq<char>,
    pub data: Option<JsonModel>,
    pub diagnostics: Option<DiagnosticsModel>,
}

/// The view of an optional request identifier.
pub open spec fn id_model(id: Option<RequestId>) -> Option<RequestIdModel> {
    match id {
        Some(id) => Some(id@),
        None => None,
    }
}

impl View for RpcErrorResponse {
    type V = ErrorModel;

    open spec fn view(&self) -> ErrorModel {
        ErrorModel {
            jsonrpc: self.jsonrpc@,
            id: id_model(self.id),
            code: self.error.code,
            message: self.error.message@,
            data: match self.error.data {
                Some(data) => Some(data@),
                None => None,
            },
            diagnostics: diagnostics_model(self.diagnostics),
        }
    }
}

/// An error without data or diagnostics.
pub open spec fn plain_error(id: Option<RequestIdModel>, code: i32, message: Seq<char>) -> ErrorModel {
    ErrorModel { jsonrpc: JSONRPC_VERSION@, id, code, message, data: None, diagnostics: None }
}

/// An error that answers no particular request and carries data.
pub open spec fn data_error(code: i32, message: Seq<char>, data: JsonModel) -> ErrorModel {
    ErrorModel {
        jsonrpc: JSONRPC_VERSION@,
        id: None,
        code,
        message,
        data: Some(data),
        diagnostics: None,
    }
}

impl ErrorModel {
    /// The wire form: an absent identifier is left out.
    pub open spec fn json(self) -> JsonModel {
        let e = Seq::<MemberModel>::empty();
        let e = e.push(member("code"@, JsonModel::Number(signed_decimal_text(self.code as int))));
        let e = e.push(member("message"@, JsonModel::Text(self.message)));
        let e = match self.data {
            Some(v) => e.push(member("data"@, v)),
            None => e,
        };
        let s = Seq::<MemberModel>::empty();
        let s = s.push(member("jsonrpc"@, JsonModel::Text(self.jsonrpc)));
        let s = match self.id {
            Some(v) => s.push(member("id"@, v.json())),
            None => s,
        };
        let s = s.push(member("error"@, JsonModel::Object(e)));
        let s = match self.diagnostics {
            Some(v) => s.push(member("diagnostics"@, v.json())),
            None => s,
        };
        JsonModel::Object(s)
    }
}

impl Clone for RpcErrorResponse {
    fn clone(&self) -> (r: Self)
        ensures
            r@ == self@,
    {
        RpcErrorResponse {
            jsonrpc: self.jsonrpc.clone(),
            id: match &self.id {
                Some(id) => Some(id.clone()),
                None => None,
            },
            error: RpcErrorObject {
                code: self.error.code,
                message: self.error.message.clone(),
                data: match &self.error.data {
                    Some(data) => Some(data.clone()),
                    None => None,
                },
            },
            diagnostics: match &self.diagnostics {
                Some(d) => Some(d.clone()),
                None => None,
            },
        }
    }
}

impl RpcErrorResponse {
    pub fn new(id: Option<RequestId>, code: i32, message: &str) -> (r: Self)
        ensures
            r@ == plain_error(id_model(id), code, message@),
    {
        RpcErrorResponse {
            jsonrpc: JSONRPC_VERSION.to_owned(),
            id,
            error: RpcErrorObject { code, message: message.to_owned(), data: None },
            diagnostics: None,
        }
    }

    pub fn with_data(self, data: JsonValue) -> (r: Self)
        ensures
            r@ == (ErrorModel { data: Some(data@), ..self@ }),
    {
        RpcErrorResponse {
            jsonrpc: self.jsonrpc,
            id: self.id,
            error: RpcErrorObject {
                code: self.error.code,
                message: self.error.message,
                data: Some(data),
            },
            diagnostics: self.diagnostics,
        }
    }

    /// The wire form of the error.
    pub fn to_json(self) -> (r: JsonValue)
        ensures
            r@ == self@.json(),
    {
        let mut error = ObjectBuilder::new();
        error.put("code", JsonValue::Number(signed_decimal(self.error.code as i64)));
        error.put("message", JsonValue::Text(self.error.message));
        match self.error.data {
            Some(v) => {
                error.put("data", v);
            },
            None => {},
        }
        let mut object = ObjectBuilder::new();
        object.put("jsonrpc", JsonValue::Text(self.jsonrpc));
        match &self.id {
            Some(v) => {
                object.put("id", v.to_json());
            },
            None => {},
        }
        object.put("error", error.finish());
        match &self.diagnostics {
            Some(v) => {
                object.put("diagnostics", v.to_json());
            },
            None => {},
        }
        object.finish()
    }
}

/// What a connected bridge can do.
#[derive(Debug)]
pub struct Capabilities {
    pub host: HostKind,
    pub bridge_kind: BridgeKind,
    pub bridge_version: String,
    pub host_version: Option<String>,
    pub namespaces: Vec<String>,
    pub features: Vec<String>,
    pub methods: Table<Vec<String>>,
}

/// A connected bridge.
#[derive(Debug)]
pub struct BridgeSessionInfo {
    pub target: String,
    pub capabilities: Capabilities,
    pub connected_at_epoch_ms: u128,
}

/// What the broker sends to a bridge.
#[derive(Debug, PartialEq, Eq)]
pub enum BridgeOutbound {
    Request { request: RpcRequest },
}

impl BridgeOutbound {
    /// The wire form: the request under a type tag.
    pub fn to_json(self) -> (r: JsonValue)
        ensures
            r@ == JsonModel::Object(
                seq![
                    member("type"@, JsonModel::Text("request"@)),
                    member("request"@, self->request@.json()),
                ],
            ),
    {
        match self {
            BridgeOutbound::Request { request } => {
                let mut object = ObjectBuilder::new();
                object.put_text("type", "request");
                let ghost model = request@.json();
                object.put("request", request.to_json());
                assert(object@ =~= seq![
                    member("type"@, JsonModel::Text("request"@)),
                    member("request"@, model),
                ]);
                object.finish()
            },
        }
    }
}

/// The key of a session: the host's name, a colon and the target.
pub open spec fn session_key_text(host: HostKind, target: Seq<char>) -> Seq<char> {
    host.name() + seq![':'] + target
}

pub fn session_key(host: HostKind, target: &str) -> (r: String)
    ensures
        r@ == session_key_text(host, target@),
{
    let mut out = host.as_str().to_owned();
    out.push(':');
    push_text(&mut out, target);
    assert(out@ =~= session_key_text(host, target@));
    out
}

} // verus!
