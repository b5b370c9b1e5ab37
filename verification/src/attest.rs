//! The attestation of products and plugins: which files count, what a
//! manifest must say, and the configuration that a plugin is given.
use vstd::prelude::*;
use vstd::utf8::encode_utf8;

use crate::bootstrap_types::{
    PhotoshopBootstrapRequest, PhotoshopBootstrapRequestModel, PhotoshopHostTarget,
};
use crate::bytes::{bytes_option, copy_bytes, same_bytes};
use crate::checks::{has_prefix, is_sha256, sha256_shape};
use crate::files::{FileFacts, FileIdentity};
use crate::outside::{
    find_json_number, find_json_text, json_number_at, json_string, json_text_at, quote_json,
    sha256_hex, sha256_text,
};
use crate::receipts::{
    IllustratorFileReceipt, IllustratorPluginReceipt, PathReceipt, PreparedBootstrap,
};
use crate::text::{
    all_digits, chars_of, is_digit_char, join2, lower_chars, lower_text, push_text, same_chars,
    same_text, text_option,
};

verus! {

/// The largest file that is hashed.
pub const MAX_HASH_BYTES: u64 = 0x1_0000_0000;

/// The largest manifest or start page.
pub const MAX_PAGE_BYTES: u64 = 0x10_0000;

/// The largest module.
pub const MAX_MODULE_BYTES: u64 = 0x1000_0000;

/// The largest Photoshop manifest that is read.
pub const MAX_MANIFEST_BYTES: usize = 0x1_0000;

/// The size that a configuration to be replaced may have.
pub const MAX_PREVIOUS_CONFIG_BYTES: u64 = 0x1_0000;

/// The name of the configuration file in a plugin's directory.
pub const CONFIG_NAME: &'static str = "adobepy.config.js";

/// A file as it was seen while it was attested through one open handle. Times
/// are in nanoseconds.
#[derive(Debug)]
pub struct AttestedRead {
    pub before: FileFacts,
    pub modified: u128,
    pub identity: FileIdentity,
    pub bytes: Vec<u8>,
    pub handle_len_after: u64,
    pub handle_modified_after: u128,
    pub handle_identity_after: FileIdentity,
    pub after: FileFacts,
    pub path_modified_after: u128,
    pub path_identity_after: FileIdentity,
    /// The path still led to the opened file after the read.
    pub same_handle: bool,
}

impl AttestedRead {
    /// The file was regular, not empty and bounded, and neither it nor its
    /// path changed while it was read.
    pub open spec fn steady(self, maximum: u64) -> bool {
        &&& self.before.is_file
        &&& 0 < self.before.len <= maximum
        &&& self.handle_len_after == self.before.len
        &&& self.after.len == self.before.len
        &&& self.bytes@.len() == self.before.len
        &&& self.handle_modified_after == self.modified
        &&& self.path_modified_after == self.modified
        &&& !self.after.is_symlink
        &&& !self.after.is_reparse
        &&& self.same_handle
        &&& self.handle_identity_after == self.identity
        &&& self.path_identity_after == self.identity
    }
}

/// The content of a file, where the read counts.
pub fn attested_bytes(read: AttestedRead, maximum: u64) -> (r: Option<Vec<u8>>)
    ensures
        r == if read.steady(maximum) {
            Some(read.bytes)
        } else {
            None
        },
{
    if !read.before.is_file || read.before.len == 0 || read.before.len > maximum {
        return None;
    }
    if read.before.len != read.handle_len_after || read.modified != read.handle_modified_after
        || read.before.len != read.after.len || read.modified != read.path_modified_after
        || read.after.is_symlink || read.after.is_reparse || !read.same_handle
        || read.handle_identity_after != read.identity || read.path_identity_after != read.identity
        || read.bytes.len() as u64 != read.before.len {
        return None;
    }
    Some(read.bytes)
}

/// The content has the expected size and digest, and what is expected is in
/// bounds.
pub open spec fn is_exact_file(
    content: Seq<u8>,
    expected_bytes: u64,
    expected_sha256: Seq<char>,
    maximum: u64,
) -> bool {
    &&& 0 < expected_bytes <= maximum
    &&& sha256_shape(expected_sha256)
    &&& content.len() == expected_bytes
    &&& sha256_text(content) == expected_sha256
}

/// The content of a file, where it is exactly the expected one.
pub open spec fn exact_content(
    content: Option<Vec<u8>>,
    expected_bytes: u64,
    expected_sha256: Seq<char>,
    maximum: u64,
) -> Option<Vec<u8>> {
    if content is Some && is_exact_file(
        content->0@,
        expected_bytes,
        expected_sha256,
        maximum,
    ) {
        content
    } else {
        None
    }
}

/// The content of a file, where it is exactly the expected one.
pub fn validate_exact_file(
    content: Option<Vec<u8>>,
    expected_bytes: u64,
    expected_sha256: &str,
    maximum: u64,
) -> (r: Option<Vec<u8>>)
    ensures
        r == exact_content(content, expected_bytes, expected_sha256@, maximum),
{
    if expected_bytes == 0 || expected_bytes > maximum || !is_sha256(expected_sha256) {
        return None;
    }
    match content {
        Some(bytes) => {
            if bytes.len() as u64 != expected_bytes || !same_text(
                sha256_hex(bytes.as_slice()).as_str(),
                expected_sha256,
            ) {
                return None;
            }
            Some(bytes)
        },
        None => None,
    }
}

/// The digest of a file, where its read counts.
pub fn digest_file(content: Option<Vec<u8>>) -> (r: Option<String>)
    ensures
        text_option(r) == match content {
            Some(bytes) => Some(sha256_text(bytes@)),
            None => None,
        },
{
    match content {
        Some(bytes) => Some(sha256_hex(bytes.as_slice())),
        None => None,
    }
}

/// The operating systems that products are known on.
#[derive(Debug, Clone, Copy, PartialEq, Eq, Structural)]
pub enum Platform {
    Windows,
    MacOs,
    Other,
}

/// `adobe illustrator ` and a year of this century.
pub open spec fn illustrator_install_dir(name: Seq<char>) -> bool {
    let folded = lower_text(name);
    let year = folded.skip("adobe illustrator "@.len() as int);
    &&& has_prefix(folded, "adobe illustrator "@)
    &&& year.len() == 4
    &&& has_prefix(year, "20"@)
    &&& forall|i: int| 0 <= i < year.len() ==> is_digit_char(#[trigger] year[i])
}

/// Equal without regard to ASCII case.
pub open spec fn same_folded(a: Seq<char>, b: Seq<char>) -> bool {
    lower_text(a) == lower_text(b)
}

/// The first five names of the path, from the file upwards, are those of an
/// Illustrator executable.
pub open spec fn illustrator_product(platform: Platform, names: Seq<String>) -> bool {
    match platform {
        Platform::Windows => {
            &&& names.len() >= 5
            &&& same_folded(names[0]@, "Illustrator.exe"@)
            &&& same_folded(names[1]@, "Windows"@)
            &&& same_folded(names[2]@, "Contents"@)
            &&& same_folded(names[3]@, "Support Files"@)
            &&& illustrator_install_dir(names[4]@)
        },
        Platform::MacOs => {
            &&& names.len() >= 5
            &&& names[0]@ == "Adobe Illustrator"@
            &&& names[1]@ == "MacOS"@
            &&& names[2]@ == "Contents"@
            &&& names[3]@ == "Adobe Illustrator.app"@
            &&& illustrator_install_dir(names[4]@)
        },
        Platform::Other => false,
    }
}

/// `part` occurs somewhere in `s`.
pub open spec fn contains_part(s: Seq<char>, part: Seq<char>) -> bool {
    exists|i: int|
        0 <= i && i + part.len() <= s.len() && #[trigger] s.subrange(i, i + part.len()) == part
}

/// The path is that of a Photoshop executable.
pub open spec fn photoshop_product(
    platform: Platform,
    file_name: Option<Seq<char>>,
    parent_name: Option<Seq<char>>,
    path: Seq<char>,
) -> bool {
    match platform {
        Platform::Windows => {
            &&& file_name is Some
            &&& same_folded(file_name->0, "Photoshop.exe"@)
            &&& parent_name is Some
            &&& has_prefix(parent_name->0, "Adobe Photoshop "@)
        },
        Platform::MacOs => {
            &&& file_name is Some
            &&& has_prefix(file_name->0, "Adobe Photoshop "@)
            &&& contains_part(path, ".app/Contents/MacOS/"@)
        },
        Platform::Other => false,
    }
}

fn starts_with(s: &Vec<char>, prefix: &Vec<char>) -> (r: bool)
    ensures
        r == has_prefix(s@, prefix@),
{
    if s.len() < prefix.len() {
        return false;
    }
    for i in 0..prefix.len()
        invariant
            s@.len() >= prefix@.len(),
            forall|j: int| 0 <= j < i ==> s@[j] == prefix@[j],
    {
        if s[i] != prefix[i] {
            assert(s@.take(prefix@.len() as int)[i as int] != prefix@[i as int]);
            return false;
        }
    }
    assert(s@.take(prefix@.len() as int) =~= prefix@);
    true
}

fn text_starts_with(s: &str, prefix: &str) -> (r: bool)
    ensures
        r == has_prefix(s@, prefix@),
{
    starts_with(&chars_of(s), &chars_of(prefix))
}

fn folds_to(s: &str, other: &str) -> (r: bool)
    ensures
        r == same_folded(s@, other@),
{
    same_chars(&lower_chars(&chars_of(s)), &lower_chars(&chars_of(other)))
}

fn matches_at(s: &Vec<char>, part: &Vec<char>, at: usize) -> (r: bool)
    requires
        at + part@.len() <= s@.len(),
    ensures
        r == (s@.subrange(at as int, at + part@.len()) == part@),
{
    let total: usize = s.len();
    for k in 0..part.len()
        invariant
            total == s@.len(),
            at + part@.len() <= total,
            forall|j: int| 0 <= j < k ==> s@[at + j] == part@[j],
    {
        if s[at + k] != part[k] {
            assert(s@.subrange(at as int, at + part@.len())[k as int] != part@[k as int]);
            return false;
        }
    }
    assert(s@.subrange(at as int, at + part@.len()) =~= part@);
    true
}

fn has_part(s: &str, part: &str) -> (r: bool)
    ensures
        r == contains_part(s@, part@),
{
    let chars = chars_of(s);
    let wanted = chars_of(part);
    if chars.len() < wanted.len() {
        return false;
    }
    let last: usize = chars.len() - wanted.len();
    let mut i: usize = 0;
    loop
        invariant
            chars@ == s@,
            wanted@ == part@,
            last + part@.len() == s@.len(),
            i <= last,
            forall|j: int| 0 <= j < i ==> #[trigger] s@.subrange(j, j + part@.len()) != part@,
        decreases last - i,
    {
        if matches_at(&chars, &wanted, i) {
            assert(s@.subrange(i as int, i + part@.len()) == part@);
            return true;
        }
        if i == last {
            assert forall|j: int| 0 <= j && j + part@.len() <= s@.len() implies
                #[trigger] s@.subrange(j, j + part@.len()) != part@ by {
                assert(j <= last);
            }
            return false;
        }
        i += 1;
    }
}

pub fn is_illustrator_install_dir(value: &str) -> (r: bool)
    ensures
        r == illustrator_install_dir(value@),
{
    let folded = lower_chars(&chars_of(value));
    let prefix = chars_of("adobe illustrator ");
    if !starts_with(&folded, &prefix) {
        return false;
    }
    let mut year: Vec<char> = Vec::new();
    for i in prefix.len()..folded.len()
        invariant
            prefix@.len() <= folded@.len(),
            year@ == folded@.subrange(prefix@.len() as int, i as int),
    {
        year.push(folded[i]);
    }
    assert(year@ =~= folded@.skip(prefix@.len() as int));
    year.len() == 4 && starts_with(&year, &chars_of("20")) && all_digits(&year)
}

/// Decides whether a path is that of an Illustrator executable; `names` are
/// the names of its components from the file upwards.
pub fn is_illustrator_product_path(platform: Platform, names: &Vec<String>) -> (r: bool)
    ensures
        r == illustrator_product(platform, names@),
{
    match platform {
        Platform::Windows => names.len() >= 5 && folds_to(names[0].as_str(), "Illustrator.exe")
            && folds_to(names[1].as_str(), "Windows") && folds_to(names[2].as_str(), "Contents")
            && folds_to(names[3].as_str(), "Support Files") && is_illustrator_install_dir(
            names[4].as_str(),
        ),
        Platform::MacOs => names.len() >= 5 && same_text(names[0].as_str(), "Adobe Illustrator")
            && same_text(names[1].as_str(), "MacOS") && same_text(names[2].as_str(), "Contents")
            && same_text(names[3].as_str(), "Adobe Illustrator.app") && is_illustrator_install_dir(
            names[4].as_str(),
        ),
        Platform::Other => false,
    }
}

/// The view of an optional string slice.
pub open spec fn str_option(o: Option<&str>) -> Option<Seq<char>> {
    match o {
        Some(s) => Some(s@),
        None => None,
    }
}

/// Decides whether a path is that of a Photoshop executable.
pub fn is_photoshop_product_path(
    platform: Platform,
    file_name: Option<&str>,
    parent_name: Option<&str>,
    path: &str,
) -> (r: bool)
    ensures
        r == photoshop_product(platform, str_option(file_name), str_option(parent_name), path@),
{
    match platform {
        Platform::Windows => match (file_name, parent_name) {
            (Some(file), Some(parent)) => folds_to(file, "Photoshop.exe") && text_starts_with(
                parent,
                "Adobe Photoshop ",
            ),
            _ => false,
        },
        Platform::MacOs => match file_name {
            Some(file) => text_starts_with(file, "Adobe Photoshop ") && has_part(
                path,
                ".app/Contents/MacOS/",
            ),
            None => false,
        },
        Platform::Other => false,
    }
}

/// Both paths resolved, and to the same; on Windows case does not count.
pub open spec fn same_resolved(
    platform: Platform,
    left: Option<Seq<char>>,
    right: Option<Seq<char>>,
) -> bool {
    match (left, right) {
        (Some(l), Some(r)) => if platform == Platform::Windows {
            same_folded(l, r)
        } else {
            l == r
        },
        _ => false,
    }
}

/// Decides whether two paths, as they resolved, are the same: a path that did
/// not resolve is the same as none; on Windows case does not count.
pub fn same_path(platform: Platform, left: Option<&str>, right: Option<&str>) -> (r: bool)
    ensures
        r == same_resolved(platform, str_option(left), str_option(right)),
{
    match (left, right) {
        (Some(l), Some(r)) => if platform == Platform::Windows {
            folds_to(l, r)
        } else {
            same_text(l, r)
        },
        _ => false,
    }
}

/// The selected executable's path is that of the product and its content is
/// exactly the requested one.
pub open spec fn host_file_ok(
    target: PhotoshopHostTarget,
    product_path: bool,
    content: Option<Vec<u8>>,
) -> bool {
    product_path && content is Some && is_exact_file(
        content->0@,
        target.executable_bytes,
        target.executable_sha256@,
        MAX_HASH_BYTES,
    )
}

/// Decides whether the selected executable may be used: its path is that of
/// the product and its content is exactly the requested one.
pub fn validate_host_file(
    target: &PhotoshopHostTarget,
    product_path: bool,
    content: Option<Vec<u8>>,
) -> (r: bool)
    ensures
        r == host_file_ok(*target, product_path, content),
{
    product_path && validate_exact_file(
        content,
        target.executable_bytes,
        target.executable_sha256.as_str(),
        MAX_HASH_BYTES,
    ).is_some()
}

/// What a Photoshop manifest says.
#[derive(Debug, PartialEq, Eq)]
pub struct ManifestFields {
    pub manifest_version: Option<u64>,
    pub id: Option<String>,
    pub version: Option<String>,
    pub host_app: Option<String>,
    pub load_event: Option<String>,
    pub main: Option<String>,
}

/// The manifest is that of the Photoshop bridge in the expected version.
pub open spec fn manifest_is_fixed(fields: ManifestFields, expected_version: Seq<char>) -> bool {
    &&& fields.manifest_version == Some(5u64)
    &&& text_option(fields.id) == Some("com.adobepy.bridge.photoshop"@)
    &&& text_option(fields.version) == Some(expected_version)
    &&& text_option(fields.host_app) == Some("PS"@)
    &&& text_option(fields.load_event) == Some("startup"@)
    &&& text_option(fields.main) == Some("index.html"@)
}

/// The manifest fields that a JSON text holds.
pub open spec fn manifest_of(raw: Seq<u8>, fields: ManifestFields) -> bool {
    &&& fields.manifest_version == json_number_at(raw, "/manifestVersion"@)
    &&& text_option(fields.id) == json_text_at(raw, "/id"@)
    &&& text_option(fields.version) == json_text_at(raw, "/version"@)
    &&& text_option(fields.host_app) == json_text_at(raw, "/host/app"@)
    &&& text_option(fields.load_event) == json_text_at(raw, "/host/data/loadEvent"@)
    &&& text_option(fields.main) == json_text_at(raw, "/main"@)
}

fn is_text(o: &Option<String>, expected: &str) -> (r: bool)
    ensures
        r == (text_option(*o) == Some(expected@)),
{
    match o {
        Some(t) => same_text(t.as_str(), expected),
        None => false,
    }
}

/// Decides whether a manifest is that of the Photoshop bridge.
pub fn validate_manifest_fields(fields: &ManifestFields, expected_version: &str) -> (r: bool)
    ensures
        r == manifest_is_fixed(*fields, expected_version@),
{
    fields.manifest_version == Some(5) && is_text(&fields.id, "com.adobepy.bridge.photoshop")
        && is_text(&fields.version, expected_version) && is_text(&fields.host_app, "PS")
        && is_text(&fields.load_event, "startup") && is_text(&fields.main, "index.html")
}

/// Reads the fields of a manifest.
pub fn read_manifest(raw: &[u8]) -> (r: ManifestFields)
    ensures
        manifest_of(raw@, r),
{
    ManifestFields {
        manifest_version: find_json_number(raw, "/manifestVersion"),
        id: find_json_text(raw, "/id"),
        version: find_json_text(raw, "/version"),
        host_app: find_json_text(raw, "/host/app"),
        load_event: find_json_text(raw, "/host/data/loadEvent"),
        main: find_json_text(raw, "/main"),
    }
}

/// The raw manifest is bounded and is that of the Photoshop bridge in the
/// expected version.
pub open spec fn raw_manifest_is_fixed(raw: Seq<u8>, expected_version: Seq<char>) -> bool {
    &&& raw.len() <= MAX_MANIFEST_BYTES
    &&& json_number_at(raw, "/manifestVersion"@) == Some(5u64)
    &&& json_text_at(raw, "/id"@) == Some("com.adobepy.bridge.photoshop"@)
    &&& json_text_at(raw, "/version"@) == Some(expected_version)
    &&& json_text_at(raw, "/host/app"@) == Some("PS"@)
    &&& json_text_at(raw, "/host/data/loadEvent"@) == Some("startup"@)
    &&& json_text_at(raw, "/main"@) == Some("index.html"@)
}

/// Decides whether a raw manifest is that of the Photoshop bridge.
pub fn validate_fixed_manifest(raw: &[u8], expected_version: &str) -> (r: bool)
    ensures
        r == raw_manifest_is_fixed(raw@, expected_version@),
{
    if raw.len() > MAX_MANIFEST_BYTES {
        return false;
    }
    validate_manifest_fields(&read_manifest(raw), expected_version)
}

/// What was found of a Photoshop product and its plugin.
#[derive(Debug)]
pub struct PhotoshopFindings {
    /// The executable's path is that of the product.
    pub product_path: bool,
    pub executable: Option<Vec<u8>>,
    /// The requested module is `dist/main.js` below the plugin root.
    pub module_in_place: bool,
    pub manifest: Option<Vec<u8>>,
    pub index: Option<Vec<u8>>,
    pub module: Option<Vec<u8>>,
}

/// The product and the plugin are exactly the requested ones.
pub open spec fn photoshop_attested(m: PhotoshopBootstrapRequestModel, found: PhotoshopFindings) -> bool {
    &&& found.product_path
    &&& found.executable is Some && is_exact_file(
        found.executable->0@,
        m.host.executable_bytes,
        m.host.executable_sha256,
        MAX_HASH_BYTES,
    )
    &&& found.module_in_place
    &&& found.manifest is Some && is_exact_file(
        found.manifest->0@,
        m.plugin.manifest_bytes,
        m.plugin.manifest_sha256,
        MAX_PAGE_BYTES,
    )
    &&& found.index is Some && is_exact_file(
        found.index->0@,
        m.plugin.index_bytes,
        m.plugin.index_sha256,
        MAX_PAGE_BYTES,
    )
    &&& found.module is Some && is_exact_file(
        found.module->0@,
        m.plugin.module_bytes,
        m.plugin.module_sha256,
        MAX_MODULE_BYTES,
    )
    &&& raw_manifest_is_fixed(found.manifest->0@, m.plugin.bridge_version)
}

/// What an attestation of a Photoshop product and its plugin returns.
pub open spec fn attests_photoshop(
    request: PhotoshopBootstrapRequest,
    found: PhotoshopFindings,
    r: Option<String>,
) -> bool {
    r == if photoshop_attested(request@, found) {
        Some(request.plugin.module_sha256)
    } else {
        None
    }
}

/// Attests a Photoshop product and its plugin; the result is the digest of
/// the module.
pub fn attest_request(request: &PhotoshopBootstrapRequest, found: PhotoshopFindings) -> (r: Option<
    String,
>)
    ensures
        attests_photoshop(*request, found, r),
{
    if !validate_host_file(&request.host, found.product_path, found.executable) {
        return None;
    }
    if !found.module_in_place {
        return None;
    }
    let plugin = &request.plugin;
    let manifest = match validate_exact_file(
        found.manifest,
        plugin.manifest_bytes,
        plugin.manifest_sha256.as_str(),
        MAX_PAGE_BYTES,
    ) {
        Some(manifest) => manifest,
        None => {
            return None;
        },
    };
    if validate_exact_file(
        found.index,
        plugin.index_bytes,
        plugin.index_sha256.as_str(),
        MAX_PAGE_BYTES,
    ).is_none() || validate_exact_file(
        found.module,
        plugin.module_bytes,
        plugin.module_sha256.as_str(),
        MAX_MODULE_BYTES,
    ).is_none() {
        return None;
    }
    if !validate_fixed_manifest(manifest.as_slice(), plugin.bridge_version.as_str()) {
        return None;
    }
    Some(plugin.module_sha256.clone())
}

/// A look at a path that is to be attested.
#[derive(Debug)]
pub struct PathLook {
    pub requested: String,
    pub canonical: String,
    /// No component of either path leads elsewhere.
    pub direct: bool,
    pub is_dir: bool,
    pub is_file: bool,
    pub links: Option<u64>,
    pub filesystem_identity: Option<(u64, u64)>,
}

/// The look counts: the object has the expected type, and a file has no other
/// name.
pub open spec fn look_counts(look: PathLook, expect_directory: bool) -> bool {
    &&& look.direct
    &&& look.is_dir == expect_directory
    &&& expect_directory || (look.is_file && look.links == Some(1u64))
    &&& look.filesystem_identity is Some
}

/// The receipt of a look at a path.
pub open spec fn path_receipt_of(look: PathLook, expect_directory: bool) -> Option<PathReceipt> {
    if look_counts(look, expect_directory) {
        Some(
            PathReceipt {
                requested: look.requested,
                canonical: look.canonical,
                filesystem_identity: look.filesystem_identity->0,
            },
        )
    } else {
        None
    }
}

/// The receipt of a look at a path.
pub fn capture_path_receipt(look: PathLook, expect_directory: bool) -> (r: Option<PathReceipt>)
    ensures
        r == path_receipt_of(look, expect_directory),
{
    if !look.direct || look.is_dir != expect_directory || (!expect_directory && !look.is_file) {
        return None;
    }
    if !expect_directory && look.links != Some(1) {
        return None;
    }
    match look.filesystem_identity {
        Some(filesystem_identity) => Some(
            PathReceipt {
                requested: look.requested,
                canonical: look.canonical,
                filesystem_identity,
            },
        ),
        None => None,
    }
}

/// Two receipts say the same of a path.
pub open spec fn same_path_receipts(a: PathReceipt, b: PathReceipt) -> bool {
    a.requested@ == b.requested@ && a.canonical@ == b.canonical@ && a.filesystem_identity
        == b.filesystem_identity
}

fn path_receipts_agree(a: &PathReceipt, b: &PathReceipt) -> (r: bool)
    ensures
        r == same_path_receipts(*a, *b),
{
    a.requested == b.requested && a.canonical == b.canonical && a.filesystem_identity.0
        == b.filesystem_identity.0 && a.filesystem_identity.1 == b.filesystem_identity.1
}

/// Two receipts say the same of a file.
pub open spec fn same_file_receipts(a: IllustratorFileReceipt, b: IllustratorFileReceipt) -> bool {
    same_path_receipts(a.path, b.path) && a.bytes == b.bytes && a.sha256@ == b.sha256@
}

/// Two receipts say the same of an extension.
pub open spec fn same_plugin_receipts(a: IllustratorPluginReceipt, b: IllustratorPluginReceipt) -> bool {
    same_path_receipts(a.root, b.root) && same_file_receipts(a.manifest, b.manifest)
        && same_file_receipts(a.index, b.index) && same_file_receipts(a.module, b.module)
}

fn file_receipts_agree(a: &IllustratorFileReceipt, b: &IllustratorFileReceipt) -> (r: bool)
    ensures
        r == same_file_receipts(*a, *b),
{
    path_receipts_agree(&a.path, &b.path) && a.bytes == b.bytes && a.sha256 == b.sha256
}

/// Decides whether an extension is still the attested one.
pub fn recapture_illustrator_receipt(
    expected: &IllustratorPluginReceipt,
    current: &IllustratorPluginReceipt,
) -> (r: bool)
    ensures
        r == same_plugin_receipts(*expected, *current),
{
    path_receipts_agree(&expected.root, &current.root) && file_receipts_agree(
        &expected.manifest,
        &current.manifest,
    ) && file_receipts_agree(&expected.index, &current.index) && file_receipts_agree(
        &expected.module,
        &current.module,
    )
}

/// What was found of one file of an extension: its path before and after its
/// content was read.
#[derive(Debug)]
pub struct ExactFile {
    pub before: Option<PathReceipt>,
    pub content: Option<Vec<u8>>,
    pub after: Option<PathReceipt>,
}

/// The file is exactly the expected one and its path did not change.
pub open spec fn exact_file_counts(
    file: ExactFile,
    expected_bytes: u64,
    expected_sha256: Seq<char>,
    maximum: u64,
) -> bool {
    &&& file.before is Some
    &&& file.after is Some
    &&& same_path_receipts(file.before->0, file.after->0)
    &&& file.content is Some
    &&& is_exact_file(file.content->0@, expected_bytes, expected_sha256, maximum)
}

/// What capturing a file of an extension gives.
pub open spec fn captures_exact(
    file: ExactFile,
    expected_bytes: u64,
    expected_sha256: Seq<char>,
    maximum: u64,
    r: Option<(Vec<u8>, IllustratorFileReceipt)>,
) -> bool {
    match r {
        Some((bytes, receipt)) => {
            &&& exact_file_counts(file, expected_bytes, expected_sha256, maximum)
            &&& Some(bytes) == file.content
            &&& receipt.path == file.after->0
            &&& receipt.bytes == expected_bytes
            &&& receipt.sha256@ == expected_sha256
        },
        None => !exact_file_counts(file, expected_bytes, expected_sha256, maximum),
    }
}

/// The content and the receipt of a file of an extension.
pub fn capture_exact_file(
    file: ExactFile,
    expected_bytes: u64,
    expected_sha256: &str,
    maximum: u64,
) -> (r: Option<(Vec<u8>, IllustratorFileReceipt)>)
    ensures
        captures_exact(file, expected_bytes, expected_sha256@, maximum, r),
{
    let content = validate_exact_file(file.content, expected_bytes, expected_sha256, maximum);
    match (file.before, content, file.after) {
        (Some(before), Some(bytes), Some(after)) => {
            if !path_receipts_agree(&before, &after) {
                return None;
            }
            Some(
                (
                    bytes,
                    IllustratorFileReceipt {
                        path: after,
                        bytes: expected_bytes,
                        sha256: expected_sha256.to_owned(),
                    },
                ),
            )
        },
        _ => None,
    }
}

/// What was found of an Illustrator product and its extension.
#[derive(Debug)]
pub struct IllustratorFindings {
    pub product_path: bool,
    pub executable: Option<Vec<u8>>,
    pub root: Option<PathReceipt>,
    pub module_in_place: bool,
    pub manifest: ExactFile,
    pub index: ExactFile,
    pub module: ExactFile,
}

/// The product and the extension are exactly the requested ones, and manifest
/// and start page are the fixed ones.
pub open spec fn illustrator_attested(
    m: PhotoshopBootstrapRequestModel,
    found: IllustratorFindings,
    fixed_manifest: Seq<u8>,
    fixed_index: Seq<u8>,
) -> bool {
    &&& found.product_path
    &&& found.executable is Some && is_exact_file(
        found.executable->0@,
        m.host.executable_bytes,
        m.host.executable_sha256,
        MAX_HASH_BYTES,
    )
    &&& found.root is Some
    &&& found.module_in_place
    &&& exact_file_counts(
        found.manifest,
        m.plugin.manifest_bytes,
        m.plugin.manifest_sha256,
        MAX_PAGE_BYTES,
    )
    &&& exact_file_counts(
        found.index,
        m.plugin.index_bytes,
        m.plugin.index_sha256,
        MAX_PAGE_BYTES,
    )
    &&& exact_file_counts(
        found.module,
        m.plugin.module_bytes,
        m.plugin.module_sha256,
        MAX_MODULE_BYTES,
    )
    &&& found.manifest.content->0@ == fixed_manifest
    &&& found.index.content->0@ == fixed_index
}

/// What an attestation of an Illustrator product and its extension returns.
pub open spec fn attests_illustrator(
    request: PhotoshopBootstrapRequest,
    found: IllustratorFindings,
    fixed_manifest: Seq<u8>,
    fixed_index: Seq<u8>,
    r: Option<IllustratorPluginReceipt>,
) -> bool {
    match r {
        Some(receipt) => {
            let m = request@;
            &&& illustrator_attested(m, found, fixed_manifest, fixed_index)
            &&& Some(receipt.root) == found.root
            &&& Some(receipt.manifest.path) == found.manifest.after
            &&& Some(receipt.index.path) == found.index.after
            &&& Some(receipt.module.path) == found.module.after
            &&& receipt.manifest.bytes == m.plugin.manifest_bytes
            &&& receipt.index.bytes == m.plugin.index_bytes
            &&& receipt.module.bytes == m.plugin.module_bytes
            &&& receipt.manifest.sha256@ == m.plugin.manifest_sha256
            &&& receipt.index.sha256@ == m.plugin.index_sha256
            &&& receipt.module.sha256@ == m.plugin.module_sha256
        },
        None => !illustrator_attested(request@, found, fixed_manifest, fixed_index),
    }
}

/// Attests an Illustrator product and its extension.
pub fn attest_illustrator_request(
    request: &PhotoshopBootstrapRequest,
    found: IllustratorFindings,
    fixed_manifest: &[u8],
    fixed_index: &[u8],
) -> (r: Option<IllustratorPluginReceipt>)
    ensures
        attests_illustrator(*request, found, fixed_manifest@, fixed_index@, r),
{
    if !validate_host_file(&request.host, found.product_path, found.executable) {
        return None;
    }
    let plugin = &request.plugin;
    let root = match found.root {
        Some(root) => root,
        None => {
            return None;
        },
    };
    if !found.module_in_place {
        return None;
    }
    let (manifest, manifest_receipt) = match capture_exact_file(
        found.manifest,
        plugin.manifest_bytes,
        plugin.manifest_sha256.as_str(),
        MAX_PAGE_BYTES,
    ) {
        Some(pair) => pair,
        None => {
            return None;
        },
    };
    let (index, index_receipt) = match capture_exact_file(
        found.index,
        plugin.index_bytes,
        plugin.index_sha256.as_str(),
        MAX_PAGE_BYTES,
    ) {
        Some(pair) => pair,
        None => {
            return None;
        },
    };
    let (_, module_receipt) = match capture_exact_file(
        found.module,
        plugin.module_bytes,
        plugin.module_sha256.as_str(),
        MAX_MODULE_BYTES,
    ) {
        Some(pair) => pair,
        None => {
            return None;
        },
    };
    if !same_bytes(manifest.as_slice(), fixed_manifest) || !same_bytes(
        index.as_slice(),
        fixed_index,
    ) {
        return None;
    }
    Some(
        IllustratorPluginReceipt {
            root,
            manifest: manifest_receipt,
            index: index_receipt,
            module: module_receipt,
        },
    )
}

/// The statement that sets or deletes the nonce.
pub open spec fn nonce_statement(nonce: Option<Seq<char>>) -> Seq<char> {
    match nonce {
        Some(nonce) => "globalThis.__ADOBEPY_BOOTSTRAP_NONCE="@ + json_string(nonce) + ";"@,
        None => "delete globalThis.__ADOBEPY_BOOTSTRAP_NONCE;"@,
    }
}

/// The statements that every plugin configuration starts with.
pub open spec fn config_head(url: Seq<char>, token: Seq<char>, target: Seq<char>) -> Seq<char> {
    "(function(){globalThis.__ADOBEPY_BROKER_URL="@ + json_string(url)
        + ";globalThis.__ADOBEPY_TOKEN="@ + json_string(token) + ";globalThis.__ADOBEPY_TARGET="@
        + json_string(target) + ";"@
}

/// The configuration script of the Photoshop bridge.
pub open spec fn config_text(
    url: Seq<char>,
    token: Seq<char>,
    target: Seq<char>,
    nonce: Option<Seq<char>>,
) -> Seq<char> {
    config_head(url, token, target) + nonce_statement(nonce) + "}());\n"@
}

/// The configuration script of the Illustrator bridge.
pub open spec fn illustrator_config_text(
    url: Seq<char>,
    token: Seq<char>,
    target: Seq<char>,
    profile_id: Seq<char>,
    nonce: Option<Seq<char>>,
) -> Seq<char> {
    config_head(url, token, target) + "globalThis.__ADOBEPY_HOST_IDENTITY={profileId:"@
        + json_string(profile_id) + "};"@ + nonce_statement(nonce) + "}());\n"@
}

fn write_config_head(url: &str, token: &str, target: &str) -> (r: String)
    ensures
        r@ == config_head(url@, token@, target@),
{
    let mut out = join2(
        "(function(){globalThis.__ADOBEPY_BROKER_URL=",
        quote_json(url).as_str(),
    );
    push_text(&mut out, ";globalThis.__ADOBEPY_TOKEN=");
    push_text(&mut out, quote_json(token).as_str());
    push_text(&mut out, ";globalThis.__ADOBEPY_TARGET=");
    push_text(&mut out, quote_json(target).as_str());
    push_text(&mut out, ";");
    out
}

fn write_nonce(nonce: Option<&str>) -> (r: String)
    ensures
        r@ == nonce_statement(str_option(nonce)),
{
    match nonce {
        Some(nonce) => {
            let mut out = join2(
                "globalThis.__ADOBEPY_BOOTSTRAP_NONCE=",
                quote_json(nonce).as_str(),
            );
            push_text(&mut out, ";");
            out
        },
        None => "delete globalThis.__ADOBEPY_BOOTSTRAP_NONCE;".to_owned(),
    }
}

/// The configuration script of the Photoshop bridge.
pub fn bootstrap_config(url: &str, token: &str, target: &str, nonce: Option<&str>) -> (r: String)
    ensures
        r@ == config_text(url@, token@, target@, str_option(nonce)),
{
    let mut out = write_config_head(url, token, target);
    push_text(&mut out, write_nonce(nonce).as_str());
    push_text(&mut out, "}());\n");
    out
}

/// The configuration script of the Illustrator bridge.
pub fn illustrator_bootstrap_config(
    url: &str,
    token: &str,
    target: &str,
    profile_id: &str,
    nonce: Option<&str>,
) -> (r: String)
    ensures
        r@ == illustrator_config_text(url@, token@, target@, profile_id@, str_option(nonce)),
{
    let mut out = write_config_head(url, token, target);
    push_text(&mut out, "globalThis.__ADOBEPY_HOST_IDENTITY={profileId:");
    push_text(&mut out, quote_json(profile_id).as_str());
    push_text(&mut out, "};");
    push_text(&mut out, write_nonce(nonce).as_str());
    push_text(&mut out, "}());\n");
    out
}

fn utf8_bytes(text: &str) -> (r: Vec<u8>)
    ensures
        r@ == encode_utf8(text@),
{
    copy_bytes(text.as_bytes())
}

/// What is prepared for a Photoshop bootstrap.
pub open spec fn prepares_photoshop(
    request: PhotoshopBootstrapRequest,
    module_sha256: String,
    config_path: String,
    previous_config: Option<Vec<u8>>,
    nonce: Seq<char>,
    token: Seq<char>,
    url: Seq<char>,
    r: PreparedBootstrap,
) -> bool {
    &&& r.config_path == Some(config_path)
    &&& r.previous_config == previous_config
    &&& bytes_option(r.transient_config) == Some(
        encode_utf8(config_text(url, token, request.target@, Some(nonce))),
    )
    &&& bytes_option(r.committed_config) == Some(
        encode_utf8(config_text(url, token, request.target@, None)),
    )
    &&& r.module_sha256 == module_sha256
    &&& r.illustrator_receipt is None
}

/// What is prepared for a Photoshop bootstrap: the configuration with the
/// nonce while the host starts, and the one without it for afterwards.
pub fn prepare_photoshop(
    request: &PhotoshopBootstrapRequest,
    module_sha256: String,
    config_path: String,
    previous_config: Option<Vec<u8>>,
    nonce: &str,
    token: &str,
    url: &str,
) -> (r: PreparedBootstrap)
    ensures
        prepares_photoshop(
            *request,
            module_sha256,
            config_path,
            previous_config,
            nonce@,
            token@,
            url@,
            r,
        ),
{
    let target = request.target.as_str();
    let transient = bootstrap_config(url, token, target, Some(nonce));
    let committed = bootstrap_config(url, token, target, None);
    PreparedBootstrap {
        config_path: Some(config_path),
        previous_config,
        transient_config: Some(utf8_bytes(transient.as_str())),
        committed_config: Some(utf8_bytes(committed.as_str())),
        module_sha256,
        illustrator_receipt: None,
    }
}

/// What is prepared for an Illustrator bootstrap.
pub open spec fn prepares_illustrator(
    request: PhotoshopBootstrapRequest,
    receipt: IllustratorPluginReceipt,
    config_path: String,
    previous_config: Option<Vec<u8>>,
    nonce: Seq<char>,
    token: Seq<char>,
    url: Seq<char>,
    r: PreparedBootstrap,
) -> bool {
    &&& r.config_path == Some(config_path)
    &&& r.previous_config == previous_config
    &&& bytes_option(r.transient_config) == Some(
        encode_utf8(
            illustrator_config_text(
                url,
                token,
                request.target@,
                request.host.profile_id@,
                Some(nonce),
            ),
        ),
    )
    &&& bytes_option(r.committed_config) == Some(
        encode_utf8(
            illustrator_config_text(
                url,
                token,
                request.target@,
                request.host.profile_id@,
                None,
            ),
        ),
    )
    &&& r.module_sha256 == receipt.module.sha256
    &&& r.illustrator_receipt == Some(receipt)
}

/// What is prepared for an Illustrator bootstrap.
pub fn prepare_illustrator(
    request: &PhotoshopBootstrapRequest,
    receipt: IllustratorPluginReceipt,
    config_path: String,
    previous_config: Option<Vec<u8>>,
    nonce: &str,
    token: &str,
    url: &str,
) -> (r: PreparedBootstrap)
    ensures
        prepares_illustrator(
            *request,
            receipt,
            config_path,
            previous_config,
            nonce@,
            token@,
            url@,
            r,
        ),
{
    let target = request.target.as_str();
    let profile_id = request.host.profile_id.as_str();
    let transient = illustrator_bootstrap_config(url, token, target, profile_id, Some(nonce));
    let committed = illustrator_bootstrap_config(url, token, target, profile_id, None);
    let module_sha256 = receipt.module.sha256.clone();
    PreparedBootstrap {
        config_path: Some(config_path),
        previous_config,
        transient_config: Some(utf8_bytes(transient.as_str())),
        committed_config: Some(utf8_bytes(committed.as_str())),
        module_sha256,
        illustrator_receipt: Some(receipt),
    }
}

/// The bounds of a blocking operation: it was not cancelled and its deadline
/// has not passed.
#[derive(Debug, Clone, Copy, PartialEq, Eq, Structural)]
pub struct BlockingDeadline {
    /// On the clock that `checkpoint` is given.
    pub deadline: u128,
    pub cancelled: bool,
}

impl BlockingDeadline {
    pub fn new(now: u64, timeout_ms: u64) -> (r: Self)
        ensures
            r.deadline == now + timeout_ms,
            !r.cancelled,
    {
        BlockingDeadline { deadline: now as u128 + timeout_ms as u128, cancelled: false }
    }

    pub fn cancel(&mut self)
        ensures
            final(self).cancelled,
            final(self).deadline == old(self).deadline,
    {
        self.cancelled = true;
    }

    /// The operation may go on.
    pub open spec fn open_at(self, now: u64) -> bool {
        !self.cancelled && now < self.deadline
    }

    /// The operation may go on.
    pub fn checkpoint(&self, now: u64) -> (r: bool)
        ensures
            r == self.open_at(now),
    {
        !self.cancelled && (now as u128) < self.deadline
    }
}

/// The started host was not revoked and its executable is the selected one.
pub open spec fn launch_accepted(
    platform: Platform,
    observed: Option<Seq<char>>,
    selected: Option<Seq<char>>,
    revoked: bool,
) -> bool {
    !revoked && same_resolved(platform, observed, selected)
}

/// Decides whether a started host is the selected one: it was not revoked and
/// its executable is the selected one.
pub fn accept_launch(platform: Platform, observed: Option<&str>, selected: Option<&str>, revoked: bool) -> (r:
    bool)
    ensures
        r == launch_accepted(platform, str_option(observed), str_option(selected), revoked),
{
    same_path(platform, observed, selected) && !revoked
}

} // verus!
