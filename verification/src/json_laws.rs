//! How values are written down: JSON texts, numbers, names and the sentences
//! of errors.
use vstd::prelude::*;

use crate::attest::{CONFIG_NAME, MAX_PREVIOUS_CONFIG_BYTES};
use crate::config::ConfigTransactionError;
use crate::handshake::BINDING_PAUSE_MS;
use crate::helper::{
    HelperPoolError, HELPER_REAP_BUDGET_MS, HELPER_VERSION_LINE, MAX_HELPER_RESPONSE_BYTES,
    MAX_HELPER_STDERR_BYTES,
};
use crate::host::HostProcessError;
use crate::json::{render, render_items, render_members, JsonModel, MemberModel};
use crate::laws::host_name_round_trip;
use crate::outside::{escaped, escaped_char, json_string, uuid_digits};
use crate::pool::PoolConfigError;
use crate::process::StartIdentityError;
use crate::protocol::{
    HostKind, ProtocolError, RequestIdModel, AFTER_EFFECTS_BOOTSTRAP_VERSION,
    ERROR_HOST_NOT_RUNNING, ERROR_HOST_SCRIPT, ERROR_METHOD_NOT_FOUND, ERROR_MODAL_REQUIRED,
    ERROR_PARSE, ERROR_PERMISSION, ERROR_SERIALIZATION, ILLUSTRATOR_BOOTSTRAP_VERSION,
};
use crate::settings::{hidden_name, serialization_error_reply, UNAUTHORIZED_MESSAGE};
use crate::text::{
    decimal_text, digits_value, is_digit_char, lower_text, signed_decimal_text, unsigned_value,
};
use crate::transaction::TransactionError;

verus! {

proof fn longer_list_begins_alike(items: Seq<JsonModel>, item: JsonModel, n: nat)
    requires
        n <= items.len(),
    ensures
        render_items(items.push(item), n) == render_items(items, n),
    decreases n,
{
    if n > 0 {
        longer_list_begins_alike(items, item, (n - 1) as nat);
        assert(items.push(item)[n - 1] == items[n - 1]);
    }
}

proof fn longer_object_begins_alike(members: Seq<MemberModel>, m: MemberModel, n: nat)
    requires
        n <= members.len(),
    ensures
        render_members(members.push(m), n) == render_members(members, n),
    decreases n,
{
    if n > 0 {
        longer_object_begins_alike(members, m, (n - 1) as nat);
        assert(members.push(m)[n - 1] == members[n - 1]);
    }
}

/// The compact text of a value without parts: the word, the number as it came,
/// the quoted string, or a pair of brackets.
pub proof fn plain_values_are_written_plainly(v: JsonModel)
    ensures
        v is Null ==> render(v) == "null"@,
        v is Bool && v->Bool_0 ==> render(v) == "true"@,
        v is Bool && !v->Bool_0 ==> render(v) == "false"@,
        v is Number ==> render(v) == v->Number_0,
        v is Text ==> render(v) == "\""@ + escaped(v->Text_0) + "\""@,
        v is List && v->List_0.len() == 0 ==> render(v) == "[]"@,
        v is Object && v->Object_0.len() == 0 ==> render(v) == "{}"@,
{
    reveal_strlit("null");
    reveal_strlit("true");
    reveal_strlit("false");
    reveal_strlit("\"");
    reveal_strlit("[]");
    reveal_strlit("{}");
    assert("null"@ =~= seq!['n', 'u', 'l', 'l']);
    assert("true"@ =~= seq!['t', 'r', 'u', 'e']);
    assert("false"@ =~= seq!['f', 'a', 'l', 's', 'e']);
    assert("\""@ =~= seq!['"']);
    if v is List && v->List_0.len() == 0 {
        assert(render(v) =~= "[]"@);
    }
    if v is Object && v->Object_0.len() == 0 {
        assert(render(v) =~= "{}"@);
    }
}

/// An item more in a list is its text more before the closing bracket, behind
/// a comma where there were others.
pub proof fn list_is_written_item_by_item(items: Seq<JsonModel>, item: JsonModel)
    ensures
        ({
            let before = render(JsonModel::List(items));
            let after = render(JsonModel::List(items.push(item)));
            after == before.drop_last() + (if items.len() > 0 {
                seq![',']
            } else {
                Seq::<char>::empty()
            }) + render(item) + seq![']']
        }),
{
    let n = items.len();
    longer_list_begins_alike(items, item, n);
    let longer = items.push(item);
    assert(longer[n as int] == item);
    let before = render(JsonModel::List(items));
    let after = render(JsonModel::List(longer));
    assert(before.drop_last() =~= seq!['['] + render_items(items, n));
    assert(render_items(longer, (n + 1) as nat) == if n == 0 {
        render_items(longer, n) + render(item)
    } else {
        render_items(longer, n).push(',') + render(item)
    });
    assert(after =~= before.drop_last() + (if n > 0 {
        seq![',']
    } else {
        Seq::<char>::empty()
    }) + render(item) + seq![']']);
}

/// A member more in an object is its quoted name, a colon and its value more
/// before the closing brace, behind a comma where there were others.
pub proof fn object_is_written_member_by_member(members: Seq<MemberModel>, m: MemberModel)
    ensures
        ({
            let before = render(JsonModel::Object(members));
            let after = render(JsonModel::Object(members.push(m)));
            after == before.drop_last() + (if members.len() > 0 {
                seq![',']
            } else {
                Seq::<char>::empty()
            }) + json_string(m.name) + seq![':'] + render(m.value) + seq!['}']
        }),
{
    let n = members.len();
    longer_object_begins_alike(members, m, n);
    let longer = members.push(m);
    assert(longer[n as int] == m);
    let before = render(JsonModel::Object(members));
    let after = render(JsonModel::Object(longer));
    assert(before.drop_last() =~= seq!['{'] + render_members(members, n));
    let head = if n == 0 {
        render_members(longer, n)
    } else {
        render_members(longer, n).push(',')
    };
    assert(render_members(longer, (n + 1) as nat) == head + json_string(m.name).push(':') + render(
        m.value,
    ));
    assert(after =~= before.drop_last() + (if n > 0 {
        seq![',']
    } else {
        Seq::<char>::empty()
    }) + json_string(m.name) + seq![':'] + render(m.value) + seq!['}']);
}

/// Strings are escaped character by character, and every character from the
/// space on but quote and backslash stands for itself.
pub proof fn strings_are_escaped_by_character(text: Seq<char>, c: char)
    ensures
        escaped(text.push(c)) == escaped(text) + escaped_char(c),
        (c as u32) >= 32 && c != '"' && c != '\\' ==> escaped_char(c) == seq![c],
        c == '"' ==> escaped_char(c) == seq!['\\', '"'],
        c == '\\' ==> escaped_char(c) == seq!['\\', '\\'],
        c == '\n' ==> escaped_char(c) == seq!['\\', 'n'],
        c == '\r' ==> escaped_char(c) == seq!['\\', 'r'],
        c == '\t' ==> escaped_char(c) == seq!['\\', 't'],
        (c as u32) < 32 ==> escaped_char(c).len() >= 2 && escaped_char(c)[0] == '\\',
{
    assert(text.push(c).drop_last() =~= text);
}

/// The reply where a reply cannot be written is a JSON text of its own: the
/// identifier as text, or null, and the fixed error.
pub proof fn unwritable_reply_is_fixed(id: Option<RequestIdModel>)
    ensures
        id is None ==> serialization_error_reply(id) == "{\"jsonrpc\":\"2.0\",\"id\":"@ + "null"@
            + ",\"error\":{\"code\":-32008,\"message\":\"failed to serialize broker response\"}}"@,
        id is Some ==> serialization_error_reply(id) == "{\"jsonrpc\":\"2.0\",\"id\":"@
            + json_string(id->0.text())
            + ",\"error\":{\"code\":-32008,\"message\":\"failed to serialize broker response\"}}"@,
{
}

/// A hidden file is named after the digits of its identifier and its purpose.
pub proof fn hidden_files_are_named_alike(id: u128, suffix: Seq<char>)
    ensures
        hidden_name(id, suffix) == ".adobepy."@ + uuid_digits(id) + suffix,
{
}

// ---------------------------------------------------------------------------
// Numbers

/// Each digit is worth ten times the next one.
pub proof fn digits_count_by_tens(s: Seq<char>, c: char)
    requires
        '0' <= c <= '9',
    ensures
        digits_value(Seq::<char>::empty()) == 0,
        digits_value(s.push(c)) == digits_value(s) * 10 + (c as u32 - '0' as u32),
{
    assert(s.push(c).drop_last() =~= s);
}

/// The text without a plus sign at its start.
pub open spec fn without_plus(s: Seq<char>) -> Seq<char> {
    if s.len() > 0 && s[0] == '+' {
        s.skip(1)
    } else {
        s
    }
}

/// One digit or more, and nothing else.
pub open spec fn is_digits(s: Seq<char>) -> bool {
    s.len() > 0 && forall|i: int| 0 <= i < s.len() ==> '0' <= #[trigger] s[i] <= '9'
}

/// A text is a number exactly if it is one digit or more, behind a plus sign
/// or not, and the number fits into 64 bits.
pub proof fn numbers_are_digits(s: Seq<char>)
    ensures
        unsigned_value(s) is Some <==> is_digits(without_plus(s)) && digits_value(without_plus(s))
            <= 18_446_744_073_709_551_615,
        unsigned_value(s) is Some ==> unsigned_value(s)->0 == digits_value(without_plus(s)),
{
    let digits = without_plus(s);
    if unsigned_value(s) is Some {
        assert forall|i: int| 0 <= i < digits.len() implies '0' <= #[trigger] digits[i] <= '9' by {
            assert(is_digit_char(digits[i]));
        }
    }
    if is_digits(digits) {
        assert forall|i: int| 0 <= i < digits.len() implies is_digit_char(#[trigger] digits[i]) by {}
    }
}

/// A negative number is its amount behind a minus sign; the decimal notation
/// of a number appends its last digit to that of its tenth.
pub proof fn decimals_are_written_from_the_left(n: nat)
    ensures
        n >= 10 ==> decimal_text(n) == decimal_text(n / 10).push(
            ('0' as u32 + (n % 10)) as char,
        ),
        n < 10 ==> decimal_text(n) == seq![('0' as u32 + n) as char],
        n > 0 ==> signed_decimal_text(-n) == seq!['-'] + decimal_text(n),
        signed_decimal_text(n as int) == decimal_text(n),
{
}

// ---------------------------------------------------------------------------
// Names and sentences

/// A host is read by its name in any case of letters; a name that is none is
/// given back as it was written.
pub proof fn host_names_ignore_case(
    a: Seq<char>,
    b: Seq<char>,
    r: Result<HostKind, ProtocolError>,
    q: Result<HostKind, ProtocolError>,
)
    requires
        HostKind::parsed(a, r),
        HostKind::parsed(b, q),
        lower_text(a) == lower_text(b),
    ensures
        r is Ok <==> q is Ok,
        r is Ok ==> r->Ok_0 == q->Ok_0,
        r is Err ==> r->Err_0->UnknownHost_0@ == a,
        q is Err ==> q->Err_0->UnknownHost_0@ == b,
{
}

/// A host is read from its own wire name.
pub proof fn host_is_read_from_its_name(host: HostKind, r: Result<HostKind, ProtocolError>)
    requires
        HostKind::parsed(host.name(), r),
    ensures
        r == Ok::<HostKind, ProtocolError>(host),
{
    host_name_round_trip(host);
}

/// What each error of a configuration says.
pub proof fn configuration_errors_speak(e: ConfigTransactionError, t: TransactionError)
    ensures
        e.sentence() == match e {
            ConfigTransactionError::Stale => "configuration transaction is stale"@,
            ConfigTransactionError::Busy => "configuration is owned by another transaction"@,
            ConfigTransactionError::IdentityChanged => "configuration identity changed"@,
            ConfigTransactionError::Io => "configuration transaction I/O failed"@,
        },
        t.sentence() == match t {
            TransactionError::Revoked => "Photoshop bootstrap transaction is revoked"@,
            TransactionError::NotActive => "Photoshop bootstrap transaction is not active"@,
            TransactionError::LeaseUnavailable => "Photoshop config lease is unavailable"@,
            TransactionError::ReceiptUnavailable => "Photoshop commit receipt is unavailable"@,
            TransactionError::FilesChanged =>
                "Illustrator bridge identity changed after attestation"@,
        },
{
}

/// What each error of a process says.
pub proof fn process_errors_speak(
    p: HelperPoolError,
    c: PoolConfigError,
    h: HostProcessError,
    s: StartIdentityError,
)
    ensures
        p.sentence() == match p {
            HelperPoolError::Overloaded => "bootstrap helper admission is full"@,
            HelperPoolError::TimedOut => "bootstrap helper request timed out"@,
            HelperPoolError::ShuttingDown => "bootstrap helper pool is shutting down"@,
            HelperPoolError::FailedClosed => "bootstrap helper failed closed"@,
            HelperPoolError::QuiescenceFailed =>
                "bootstrap helper could not be reaped; the pool is fail-stopped"@,
        },
        c.sentence() == match c {
            PoolConfigError::NoCapacity => "bootstrap helper capacity must be positive"@,
            PoolConfigError::Overflow => "bootstrap helper admission capacity overflow"@,
        },
        h.sentence() == match h {
            HostProcessError::Spawn => "host process could not be started"@,
            HostProcessError::QuiescenceFailed =>
                "host process could not be terminated and reaped before the deadline"@,
            HostProcessError::Stale => "host process ownership is stale"@,
        },
        s.sentence() == match s {
            StartIdentityError::NoCommand =>
                "/proc/self/stat omitted the process command terminator"@,
            StartIdentityError::NoTicks => "/proc/self/stat omitted process start ticks"@,
            StartIdentityError::BadTicks => "/proc/self/stat process start ticks are invalid"@,
            StartIdentityError::BadBoot => "Linux boot identity is invalid"@,
        },
{
}

/// The bounds of what is read, kept and waited for, and the names of what is
/// written.
pub proof fn bounds_and_names_are_fixed()
    ensures
        MAX_PREVIOUS_CONFIG_BYTES == 64 * 1024,
        MAX_HELPER_RESPONSE_BYTES == 64 * 1024,
        MAX_HELPER_STDERR_BYTES == 4 * 1024,
        HELPER_REAP_BUDGET_MS == 150,
        BINDING_PAUSE_MS == 10,
        CONFIG_NAME@ == "adobepy.config.js"@,
        HELPER_VERSION_LINE@ == "adobepy-bootstrap-helper/1"@,
        UNAUTHORIZED_MESSAGE@ == "invalid or missing x-adobepy-token header"@,
        ERROR_PARSE == -32700,
        ERROR_METHOD_NOT_FOUND == -32601,
        ERROR_HOST_NOT_RUNNING == -32001,
        ERROR_HOST_SCRIPT == -32004,
        ERROR_PERMISSION == -32005,
        ERROR_MODAL_REQUIRED == -32006,
        ERROR_SERIALIZATION == -32008,
        ILLUSTRATOR_BOOTSTRAP_VERSION == 1,
        AFTER_EFFECTS_BOOTSTRAP_VERSION == 1,
{
}

} // verus!
