//! The calls into outside crates, each with the facts that the library relies on.
use vstd::arithmetic::power::pow;
use vstd::prelude::*;

use crate::text::{is_lower_hex_char, text_option};

verus! {

/// How a character is written inside a JSON string: quote, backslash and the
/// control characters up to 31 are escaped, everything else stands for itself.
pub open spec fn escaped_char(c: char) -> Seq<char> {
    if c == '"' || c == '\\' {
        seq!['\\', c]
    } else if c == '\u{8}' {
        seq!['\\', 'b']
    } else if c == '\t' {
        seq!['\\', 't']
    } else if c == '\n' {
        seq!['\\', 'n']
    } else if c == '\u{c}' {
        seq!['\\', 'f']
    } else if c == '\r' {
        seq!['\\', 'r']
    } else if (c as u32) < 32 {
        seq!['\\', 'u', '0', '0', hex_char((c as nat) / 16), hex_char((c as nat) % 16)]
    } else {
        seq![c]
    }
}

/// The text with its characters written as inside a JSON string.
pub open spec fn escaped(text: Seq<char>) -> Seq<char>
    decreases text.len(),
{
    if text.len() == 0 {
        Seq::empty()
    } else {
        escaped(text.drop_last()) + escaped_char(text.last())
    }
}

/// The JSON notation of a string, quotes included.
pub open spec fn json_string(text: Seq<char>) -> Seq<char> {
    seq!['"'] + escaped(text) + seq!['"']
}

/// `serde_json::to_string` on a string slice: the compact JSON notation with
/// the escapes of `serde_json`'s table, in lowercase hexadecimal where an
/// escape is numeric. A string slice is always written.
#[verifier::external_body]
pub(crate) fn quote_json(text: &str) -> (r: String)
    ensures
        r@ == json_string(text@),
{
    serde_json::to_string(text).unwrap_or_default()
}

/// The string that `serde_json` finds at a JSON pointer of a JSON text.
pub uninterp spec fn json_text_at(raw: Seq<u8>, pointer: Seq<char>) -> Option<Seq<char>>;

/// `serde_json::from_slice`, then `serde_json::Value::pointer` and `as_str`:
/// the string at the pointer, where the bytes are JSON and there is one. It is
/// a function of the bytes and the pointer alone.
#[verifier::external_body]
pub(crate) fn find_json_text(raw: &[u8], pointer: &str) -> (r: Option<String>)
    ensures
        text_option(r) == json_text_at(raw@, pointer@),
{
    let value: serde_json::Value = serde_json::from_slice(raw).ok()?;
    value.pointer(pointer)?.as_str().map(|text| text.to_owned())
}

/// The unsigned number that `serde_json` finds at a JSON pointer of a JSON text.
pub uninterp spec fn json_number_at(raw: Seq<u8>, pointer: Seq<char>) -> Option<u64>;

/// `serde_json::from_slice`, then `serde_json::Value::pointer` and `as_u64`:
/// the number at the pointer, where the bytes are JSON and there is one that
/// fits. It is a function of the bytes and the pointer alone.
#[verifier::external_body]
pub(crate) fn find_json_number(raw: &[u8], pointer: &str) -> (r: Option<u64>)
    ensures
        r == json_number_at(raw@, pointer@),
{
    let value: serde_json::Value = serde_json::from_slice(raw).ok()?;
    value.pointer(pointer)?.as_u64()
}

/// The lowercase hexadecimal SHA-256 digest of a byte string.
pub uninterp spec fn sha256_text(bytes: Seq<u8>) -> Seq<char>;

/// `sha2::Sha256::digest`, printed in lowercase hexadecimal. The digest is a
/// function of the bytes alone and always has 64 hexadecimal digits; which
/// digits they are is left to `sha2`.
#[verifier::external_body]
pub(crate) fn sha256_hex(bytes: &[u8]) -> (r: String)
    ensures
        r@ == sha256_text(bytes@),
        r@.len() == 64,
        forall|i: int| 0 <= i < 64 ==> is_lower_hex_char(#[trigger] r@[i]),
{
    format!("{:x}", <sha2::Sha256 as sha2::Digest>::digest(bytes))
}

/// The value that `uuid` reads from a text, where the text is a notation of a UUID.
pub uninterp spec fn uuid_value(text: Seq<char>) -> Option<u128>;

/// `uuid::Uuid::parse_str`. Whether the text is accepted, and the value it
/// stands for, are functions of the text alone; the accepted notations are
/// left to `uuid`.
#[verifier::external_body]
pub(crate) fn parse_uuid(text: &str) -> (r: Option<u128>)
    ensures
        r == uuid_value(text@),
{
    uuid::Uuid::parse_str(text).ok().map(|parsed| parsed.as_u128())
}

/// The lowercase hexadecimal digit of `d`.
pub open spec fn hex_char(d: nat) -> char {
    if d < 10 {
        ('0' as u32 + d) as char
    } else {
        ('a' as u32 + (d - 10)) as char
    }
}

/// Digit `k` of the 32 hexadecimal digits of `value`, counted from the left.
pub open spec fn hex_digit_of(value: u128, k: int) -> nat {
    ((value as int / pow(16, (31 - k) as nat)) % 16) as nat
}

/// The 36 characters of a UUID: 32 lowercase hexadecimal digits in groups of
/// 8, 4, 4, 4 and 12 with hyphens between the groups.
pub open spec fn uuid_text(value: u128) -> Seq<char> {
    Seq::new(
        36,
        |i: int|
            if i == 8 || i == 13 || i == 18 || i == 23 {
                '-'
            } else if i < 8 {
                hex_char(hex_digit_of(value, i))
            } else if i < 13 {
                hex_char(hex_digit_of(value, i - 1))
            } else if i < 18 {
                hex_char(hex_digit_of(value, i - 2))
            } else if i < 23 {
                hex_char(hex_digit_of(value, i - 3))
            } else {
                hex_char(hex_digit_of(value, i - 4))
            },
    )
}

/// The `Display` form of `uuid::Uuid::hyphenated`: the hyphenated lowercase
/// notation, which `uuid::Uuid::parse_str` reads back as the same value.
#[verifier::external_body]
pub(crate) fn hyphenate_uuid(value: u128) -> (r: String)
    ensures
        r@ == uuid_text(value),
        uuid_value(r@) == Some(value),
{
    uuid::Uuid::from_u128(value).hyphenated().to_string()
}

/// The 32 lowercase hexadecimal digits of a UUID.
pub open spec fn uuid_digits(value: u128) -> Seq<char> {
    Seq::new(32, |i: int| hex_char(hex_digit_of(value, i)))
}

/// The `Display` form of `uuid::Uuid::simple`: the 32 lowercase hexadecimal
/// digits without hyphens.
#[verifier::external_body]
pub(crate) fn digits_of_uuid(value: u128) -> (r: String)
    ensures
        r@ == uuid_digits(value),
{
    uuid::Uuid::from_u128(value).simple().to_string()
}

/// The bits that mark a random UUID: version 4 and the standard variant.
pub open spec fn is_random_uuid(value: u128) -> bool {
    (value >> 76u128) & 0xf == 4 && (value >> 62u128) & 0x3 == 2
}

/// `uuid::Uuid::new_v4`. All that is said of the value is what holds of every
/// draw: its version and variant bits. The call panics where the operating
/// system has no randomness to give.
#[verifier::external_body]
pub(crate) fn draw_uuid() -> (r: u128)
    ensures
        is_random_uuid(r),
{
    uuid::Uuid::new_v4().as_u128()
}

} // verus!
