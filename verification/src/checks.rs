//! The shape checks that identities, versions, digests and paths must pass.
use vstd::prelude::*;
use vstd::utf8::encode_utf8;

use crate::outside::{hyphenate_uuid, parse_uuid, uuid_text, uuid_value};
use crate::text::{
    all_digits, chars_of, exactly, is_alpha, is_alpha_char, is_control, is_control_char, is_digit,
    is_digit_char, is_lower_hex, is_lower_hex_char, is_space, is_space_char, lower_chars,
    lower_text, parts_view, same_chars, same_text, split_chars, split_text, text_of,
    trim_chars_end, trim_text_end,
};

verus! {

/// Non-empty text of at most `max_bytes` bytes, without white space at its
/// ends and without control characters.
pub open spec fn bounded_text(s: Seq<char>, max_bytes: nat) -> bool {
    &&& s.len() > 0
    &&& encode_utf8(s).len() <= max_bytes
    &&& !is_space_char(s[0])
    &&& !is_space_char(s.last())
    &&& forall|i: int| 0 <= i < s.len() ==> !is_control_char(#[trigger] s[i])
}

/// A character of an identifier: an ASCII letter or digit, `-`, `_` or `.`.
pub open spec fn is_identifier_char(c: char) -> bool {
    is_alpha_char(c) || is_digit_char(c) || c == '-' || c == '_' || c == '.'
}

/// Bounded text made of identifier characters.
pub open spec fn bounded_identifier(s: Seq<char>, max_bytes: nat) -> bool {
    bounded_text(s, max_bytes) && forall|i: int|
        0 <= i < s.len() ==> is_identifier_char(#[trigger] s[i])
}

/// Bounded text of at most 256 bytes made of identifier characters and colons.
pub open spec fn bounded_start_identity(s: Seq<char>) -> bool {
    bounded_text(s, 256) && forall|i: int|
        0 <= i < s.len() ==> is_identifier_char(#[trigger] s[i]) || s[i] == ':'
}

/// The lowercase hexadecimal notation of a SHA-256 digest.
pub open spec fn sha256_shape(s: Seq<char>) -> bool {
    s.len() == 64 && forall|i: int| 0 <= i < s.len() ==> is_lower_hex_char(#[trigger] s[i])
}

/// One component of a canonical version: one to four digits without a
/// superfluous leading zero.
pub open spec fn version_component(s: Seq<char>) -> bool {
    &&& 1 <= s.len() <= 4
    &&& forall|i: int| 0 <= i < s.len() ==> is_digit_char(#[trigger] s[i])
    &&& s[0] == '0' ==> s.len() == 1
}

/// Two to four version components separated by dots, in at most 32 bytes.
pub open spec fn canonical_version(s: Seq<char>) -> bool {
    let parts = split_text(s, exactly('.'));
    &&& bounded_text(s, 32)
    &&& 2 <= parts.len() <= 4
    &&& forall|i: int| 0 <= i < parts.len() ==> version_component(#[trigger] parts[i])
}

/// Backslashes turned into slashes.
pub open spec fn forward_slashes(s: Seq<char>) -> Seq<char> {
    s.map_values(
        |c: char|
            if c == '\\' {
                '/'
            } else {
                c
            },
    )
}

/// A path that starts at a root or at a drive, in forward-slash notation.
pub open spec fn is_absolute(s: Seq<char>) -> bool {
    ||| s.len() >= 1 && s[0] == '/'
    ||| s.len() >= 3 && is_alpha_char(s[0]) && s[1] == ':' && s[2] == '/'
}

/// A path component that would make the path relative to another component.
pub open spec fn is_dot_component(s: Seq<char>) -> bool {
    s == seq!['.'] || s == seq!['.', '.']
}

/// The notation in which absolute paths are compared: forward slashes and no
/// slash at the end. There is none for a path that is not bounded text, is
/// not absolute or has a `.` or `..` component.
pub open spec fn normal_path(s: Seq<char>) -> Option<Seq<char>> {
    let n = forward_slashes(s);
    let parts = split_text(n, exactly('/'));
    if bounded_text(s, 32_768) && is_absolute(n) && forall|i: int|
        0 <= i < parts.len() ==> !is_dot_component(#[trigger] parts[i]) {
        Some(trim_text_end(n, exactly('/')))
    } else {
        None
    }
}

/// A path with a drive letter; such paths compare without regard to case.
pub open spec fn is_drive_path(s: Seq<char>) -> bool {
    s.len() >= 2 && (s[0] as u32) < 128 && s[1] == ':'
}

/// Both paths have a normal form and the forms agree, without regard to case
/// where one of them names a drive.
pub open spec fn paths_equal(left: Seq<char>, right: Seq<char>) -> bool {
    match (normal_path(left), normal_path(right)) {
        (Some(l), Some(r)) => if is_drive_path(l) || is_drive_path(r) {
            lower_text(l) == lower_text(r)
        } else {
            l == r
        },
        _ => false,
    }
}

/// `s` starts with `prefix`.
pub open spec fn has_prefix(s: Seq<char>, prefix: Seq<char>) -> bool {
    s.len() >= prefix.len() && s.take(prefix.len() as int) == prefix
}

/// `path` names something below the directory `root`.
pub open spec fn lies_below(path: Seq<char>, root: Seq<char>) -> bool {
    has_prefix(path, root.push('/')) && path.len() > root.len() + 1
}

/// The module's normal path lies below the plugin root's, without regard to
/// case where the root names a drive.
pub open spec fn module_in_plugin(module_origin: Seq<char>, plugin_root: Seq<char>) -> bool {
    match (normal_path(module_origin), normal_path(plugin_root)) {
        (Some(module), Some(root)) => if is_drive_path(root) {
            lies_below(lower_text(module), lower_text(root))
        } else {
            lies_below(module, root)
        },
        _ => false,
    }
}

/// The canonical notation of a UUID other than the nil UUID.
pub open spec fn uuid_shape(s: Seq<char>) -> bool {
    match uuid_value(s) {
        Some(value) => value != 0 && uuid_text(value) == s,
        None => false,
    }
}

/// Any notation of a UUID other than the nil UUID.
pub open spec fn names_instance(s: Seq<char>) -> bool {
    match uuid_value(s) {
        Some(value) => value != 0,
        None => false,
    }
}

pub fn is_bounded_text(value: &str, max_bytes: usize) -> (r: bool)
    ensures
        r == bounded_text(value@, max_bytes as nat),
{
    let chars = chars_of(value);
    if chars.len() == 0 || value.as_bytes().len() > max_bytes {
        return false;
    }
    if is_space(chars[0]) || is_space(chars[chars.len() - 1]) {
        return false;
    }
    for i in 0..chars.len()
        invariant
            chars@ == value@,
            forall|j: int| 0 <= j < i ==> !is_control_char(#[trigger] value@[j]),
    {
        if is_control(chars[i]) {
            assert(is_control_char(value@[i as int]));
            return false;
        }
    }
    true
}

fn is_identifier(c: char) -> (r: bool)
    ensures
        r == is_identifier_char(c),
{
    is_alpha(c) || is_digit(c) || c == '-' || c == '_' || c == '.'
}

pub fn is_bounded_identifier(value: &str, max_bytes: usize) -> (r: bool)
    ensures
        r == bounded_identifier(value@, max_bytes as nat),
{
    if !is_bounded_text(value, max_bytes) {
        return false;
    }
    let chars = chars_of(value);
    for i in 0..chars.len()
        invariant
            chars@ == value@,
            forall|j: int| 0 <= j < i ==> is_identifier_char(#[trigger] value@[j]),
    {
        if !is_identifier(chars[i]) {
            assert(!is_identifier_char(value@[i as int]));
            return false;
        }
    }
    true
}

pub fn is_bounded_start_identity(value: &str) -> (r: bool)
    ensures
        r == bounded_start_identity(value@),
{
    if !is_bounded_text(value, 256) {
        return false;
    }
    let chars = chars_of(value);
    for i in 0..chars.len()
        invariant
            chars@ == value@,
            forall|j: int| 0 <= j < i ==> is_identifier_char(#[trigger] value@[j]) || value@[j] == ':',
    {
        let c = chars[i];
        if !is_identifier(c) && c != ':' {
            assert(!is_identifier_char(value@[i as int]));
            return false;
        }
    }
    true
}

pub fn is_sha256(value: &str) -> (r: bool)
    ensures
        r == sha256_shape(value@),
{
    let chars = chars_of(value);
    if chars.len() != 64 {
        return false;
    }
    for i in 0..chars.len()
        invariant
            chars@ == value@,
            forall|j: int| 0 <= j < i ==> is_lower_hex_char(#[trigger] value@[j]),
    {
        if !is_lower_hex(chars[i]) {
            assert(!is_lower_hex_char(value@[i as int]));
            return false;
        }
    }
    true
}

pub fn is_canonical_version(value: &str) -> (r: bool)
    ensures
        r == canonical_version(value@),
{
    if !is_bounded_text(value, 32) {
        return false;
    }
    let chars = chars_of(value);
    let parts = split_chars(&chars, '.');
    let ghost models = split_text(value@, exactly('.'));
    if parts.len() < 2 || parts.len() > 4 {
        return false;
    }
    for i in 0..parts.len()
        invariant
            models == split_text(value@, exactly('.')),
            parts_view(parts@) == models,
            forall|j: int| 0 <= j < i ==> version_component(#[trigger] models[j]),
    {
        let part = &parts[i];
        assert(models[i as int] == part@);
        let ok = part.len() >= 1 && part.len() <= 4 && all_digits(part) && (part[0] != '0' || part.len()
            == 1);
        if !ok {
            assert(!version_component(models[i as int]));
            return false;
        }
    }
    true
}

fn slashes_forward(chars: &Vec<char>) -> (r: Vec<char>)
    ensures
        r@ == forward_slashes(chars@),
{
    let mut out: Vec<char> = Vec::new();
    for i in 0..chars.len()
        invariant
            out@ == forward_slashes(chars@).take(i as int),
    {
        let c = if chars[i] == '\\' {
            '/'
        } else {
            chars[i]
        };
        out.push(c);
    }
    out
}

/// The normal form of an absolute path as a vector of characters.
pub fn normal_path_chars(value: &str) -> (r: Option<Vec<char>>)
    ensures
        r is Some <==> normal_path(value@) is Some,
        r is Some ==> r->0@ == normal_path(value@)->0,
{
    if !is_bounded_text(value, 32_768) {
        return None;
    }
    let chars = chars_of(value);
    let normalized = slashes_forward(&chars);
    let n: usize = normalized.len();
    let absolute = (n >= 1 && normalized[0] == '/') || (n >= 3 && is_alpha(normalized[0])
        && normalized[1] == ':' && normalized[2] == '/');
    if !absolute {
        return None;
    }
    let parts = split_chars(&normalized, '/');
    let ghost models = split_text(normalized@, exactly('/'));
    for i in 0..parts.len()
        invariant
            normalized@ == forward_slashes(value@),
            models == split_text(normalized@, exactly('/')),
            parts_view(parts@) == models,
            forall|j: int| 0 <= j < i ==> !is_dot_component(#[trigger] models[j]),
    {
        let part = &parts[i];
        assert(models[i as int] == part@);
        if part.len() == 1 && part[0] == '.' {
            assert(part@ =~= seq!['.']);
            return None;
        }
        if part.len() == 2 && part[0] == '.' && part[1] == '.' {
            assert(part@ =~= seq!['.', '.']);
            return None;
        }
    }
    Some(trim_chars_end(normalized, '/'))
}

/// The normal form of an absolute path.
pub fn normalized_absolute_path(value: &str) -> (r: Option<String>)
    ensures
        r is Some <==> normal_path(value@) is Some,
        r is Some ==> r->0@ == normal_path(value@)->0,
{
    match normal_path_chars(value) {
        Some(chars) => Some(text_of(&chars)),
        None => None,
    }
}

/// True when the path has a normal form.
pub fn is_absolute_path(value: &str) -> (r: bool)
    ensures
        r == (normal_path(value@) is Some),
{
    normal_path_chars(value).is_some()
}

/// True when the path starts with a drive letter.
pub fn names_drive(path: &Vec<char>) -> (r: bool)
    ensures
        r == is_drive_path(path@),
{
    path.len() >= 2 && (path[0] as u32) < 128 && path[1] == ':'
}

pub fn normalized_paths_equal(left: &str, right: &str) -> (r: bool)
    ensures
        r == paths_equal(left@, right@),
{
    let left = match normal_path_chars(left) {
        Some(chars) => chars,
        None => {
            return false;
        },
    };
    let right = match normal_path_chars(right) {
        Some(chars) => chars,
        None => {
            return false;
        },
    };
    if names_drive(&left) || names_drive(&right) {
        same_chars(&lower_chars(&left), &lower_chars(&right))
    } else {
        same_chars(&left, &right)
    }
}

fn is_below(path: &Vec<char>, root: &Vec<char>) -> (r: bool)
    ensures
        r == lies_below(path@, root@),
{
    let n: usize = root.len();
    if path.len() <= n || path.len() - 1 <= n {
        return false;
    }
    if path[n] != '/' {
        assert(path@.take(n + 1)[n as int] != root@.push('/')[n as int]);
        return false;
    }
    for i in 0..n
        invariant
            n == root@.len(),
            path@.len() > n + 1,
            forall|j: int| 0 <= j < i ==> path@[j] == root@[j],
    {
        if path[i] != root[i] {
            assert(path@.take(n + 1)[i as int] != root@.push('/')[i as int]);
            return false;
        }
    }
    assert(path@.take(n + 1) =~= root@.push('/'));
    true
}

pub fn module_belongs_to_plugin(module_origin: &str, plugin_root: &str) -> (r: bool)
    ensures
        r == module_in_plugin(module_origin@, plugin_root@),
{
    let module = match normal_path_chars(module_origin) {
        Some(chars) => chars,
        None => {
            return false;
        },
    };
    let root = match normal_path_chars(plugin_root) {
        Some(chars) => chars,
        None => {
            return false;
        },
    };
    if names_drive(&root) {
        is_below(&lower_chars(&module), &lower_chars(&root))
    } else {
        is_below(&module, &root)
    }
}

pub fn is_uuid(value: &str) -> (r: bool)
    ensures
        r == uuid_shape(value@),
{
    match parse_uuid(value) {
        Some(parsed) => parsed != 0 && same_text(hyphenate_uuid(parsed).as_str(), value),
        None => false,
    }
}

/// True when the text is any notation of a UUID other than the nil UUID.
pub fn is_instance_id(value: &str) -> (r: bool)
    ensures
        r == names_instance(value@),
{
    match parse_uuid(value) {
        Some(parsed) => parsed != 0,
        None => false,
    }
}

} // verus!
