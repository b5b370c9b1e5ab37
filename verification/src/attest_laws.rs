//! What an attestation vouches for, said of the very bytes that were found.
use vstd::prelude::*;
use vstd::utf8::encode_utf8;

use crate::attest::{
    attests_illustrator, attests_photoshop, captures_exact, exact_content, host_file_ok,
    illustrator_install_dir, illustrator_product, launch_accepted, manifest_is_fixed, manifest_of,
    path_receipt_of, photoshop_product, prepares_illustrator, prepares_photoshop,
    raw_manifest_is_fixed, same_folded, same_plugin_receipts, same_resolved, AttestedRead,
    BlockingDeadline, ExactFile, IllustratorFindings, ManifestFields, PathLook, PhotoshopFindings,
    Platform,
};
use crate::bootstrap_types::{PhotoshopBootstrapRequest, PhotoshopHostTarget};
use crate::outside::{json_number_at, json_string, json_text_at, sha256_text};
use crate::receipts::{
    IllustratorFileReceipt, IllustratorPluginReceipt, PathReceipt, PreparedBootstrap,
};
use crate::text::lower_text;

verus! {

/// A text of 64 lowercase hexadecimal digits.
pub open spec fn is_digest(s: Seq<char>) -> bool {
    s.len() == 64 && forall|i: int|
        0 <= i < 64 ==> ('0' <= #[trigger] s[i] <= '9' || 'a' <= s[i] <= 'f')
}

/// A Photoshop bootstrap is attested exactly if the executable's path is the
/// product's, the module is in its place, the executable, the manifest, the
/// start page and the module were found, each with exactly the length and the
/// digest that the request gives for it and within its bound, and the
/// manifest's fields are those of the bridge in the requested version. The
/// attestation's result is the requested digest of the module.
pub proof fn attested_photoshop_is_exact(
    request: PhotoshopBootstrapRequest,
    found: PhotoshopFindings,
    r: Option<String>,
)
    requires
        attests_photoshop(request, found, r),
    ensures
        r is Some ==> r->0@ == request.plugin.module_sha256@,
        r is Some <==> {
            &&& found.product_path
            &&& found.module_in_place
            &&& found.executable is Some
            &&& found.executable->0@.len() == request.host.executable_bytes
            &&& sha256_text(found.executable->0@) == request.host.executable_sha256@
            &&& is_digest(request.host.executable_sha256@)
            &&& 0 < request.host.executable_bytes <= 4_294_967_296
            &&& found.manifest is Some
            &&& found.manifest->0@.len() == request.plugin.manifest_bytes
            &&& sha256_text(found.manifest->0@) == request.plugin.manifest_sha256@
            &&& is_digest(request.plugin.manifest_sha256@)
            &&& 0 < request.plugin.manifest_bytes <= 65_536
            &&& found.index is Some
            &&& found.index->0@.len() == request.plugin.index_bytes
            &&& sha256_text(found.index->0@) == request.plugin.index_sha256@
            &&& is_digest(request.plugin.index_sha256@)
            &&& 0 < request.plugin.index_bytes <= 1_048_576
            &&& found.module is Some
            &&& found.module->0@.len() == request.plugin.module_bytes
            &&& sha256_text(found.module->0@) == request.plugin.module_sha256@
            &&& is_digest(request.plugin.module_sha256@)
            &&& 0 < request.plugin.module_bytes <= 268_435_456
            &&& json_number_at(found.manifest->0@, "/manifestVersion"@) == Some(5u64)
            &&& json_text_at(found.manifest->0@, "/id"@) == Some("com.adobepy.bridge.photoshop"@)
            &&& json_text_at(found.manifest->0@, "/version"@) == Some(
                request.plugin.bridge_version@,
            )
            &&& json_text_at(found.manifest->0@, "/host/app"@) == Some("PS"@)
            &&& json_text_at(found.manifest->0@, "/host/data/loadEvent"@) == Some("startup"@)
            &&& json_text_at(found.manifest->0@, "/main"@) == Some("index.html"@)
        },
{
}

/// The four files of a product and its plugin.
pub ghost enum PluginPart {
    Executable,
    Manifest,
    Index,
    Module,
}

/// The findings with the content of one file replaced.
pub open spec fn with_content(
    found: PhotoshopFindings,
    part: PluginPart,
    content: Option<Vec<u8>>,
) -> PhotoshopFindings {
    match part {
        PluginPart::Executable => PhotoshopFindings { executable: content, ..found },
        PluginPart::Manifest => PhotoshopFindings { manifest: content, ..found },
        PluginPart::Index => PhotoshopFindings { index: content, ..found },
        PluginPart::Module => PhotoshopFindings { module: content, ..found },
    }
}

/// The content that was found of a file.
pub open spec fn content_of(found: PhotoshopFindings, part: PluginPart) -> Option<Vec<u8>> {
    match part {
        PluginPart::Executable => found.executable,
        PluginPart::Manifest => found.manifest,
        PluginPart::Index => found.index,
        PluginPart::Module => found.module,
    }
}

/// A change of any one file shows: where what was found is attested, the same
/// with one file gone, of another length or of another digest is not.
pub proof fn changed_file_is_not_attested(
    request: PhotoshopBootstrapRequest,
    found: PhotoshopFindings,
    part: PluginPart,
    content: Option<Vec<u8>>,
    before: Option<String>,
    after: Option<String>,
)
    requires
        attests_photoshop(request, found, before),
        before is Some,
        content is None || content->0@.len() != content_of(found, part)->0@.len() || sha256_text(
            content->0@,
        ) != sha256_text(content_of(found, part)->0@),
        attests_photoshop(request, with_content(found, part, content), after),
    ensures
        after is None,
{
}

/// A selected executable is used exactly if its path is the product's and its
/// content has the requested length and digest, in at most four gibibytes.
pub proof fn used_executable_is_exact(
    target: PhotoshopHostTarget,
    product_path: bool,
    content: Option<Vec<u8>>,
)
    ensures
        host_file_ok(target, product_path, content) <==> {
            &&& product_path
            &&& content is Some
            &&& content->0@.len() == target.executable_bytes
            &&& 0 < target.executable_bytes <= 4_294_967_296
            &&& is_digest(target.executable_sha256@)
            &&& sha256_text(content->0@) == target.executable_sha256@
        },
{
}

/// The path was found at the same place, with the same file behind it.
pub open spec fn same_place(a: Option<PathReceipt>, b: Option<PathReceipt>) -> bool {
    &&& a is Some
    &&& b is Some
    &&& a->0.requested@ == b->0.requested@
    &&& a->0.canonical@ == b->0.canonical@
    &&& a->0.filesystem_identity == b->0.filesystem_identity
}

/// An Illustrator bootstrap is attested exactly if the executable's path is
/// the product's, the extension's directory was found, the module is in its
/// place, the executable and the extension's three files have exactly the
/// requested lengths and digests, none of the three moved while it was read,
/// and manifest and start page are the fixed ones, byte for byte. The receipt
/// holds where each file is, and its requested length and digest.
pub proof fn attested_illustrator_is_exact(
    request: PhotoshopBootstrapRequest,
    found: IllustratorFindings,
    fixed_manifest: Seq<u8>,
    fixed_index: Seq<u8>,
    r: Option<IllustratorPluginReceipt>,
)
    requires
        attests_illustrator(request, found, fixed_manifest, fixed_index, r),
    ensures
        r is Some <==> {
            &&& found.product_path
            &&& found.module_in_place
            &&& found.root is Some
            &&& found.executable is Some
            &&& found.executable->0@.len() == request.host.executable_bytes
            &&& sha256_text(found.executable->0@) == request.host.executable_sha256@
            &&& is_digest(request.host.executable_sha256@)
            &&& 0 < request.host.executable_bytes <= 4_294_967_296
            &&& same_place(found.manifest.before, found.manifest.after)
            &&& found.manifest.content is Some
            &&& found.manifest.content->0@ == fixed_manifest
            &&& found.manifest.content->0@.len() == request.plugin.manifest_bytes
            &&& sha256_text(found.manifest.content->0@) == request.plugin.manifest_sha256@
            &&& is_digest(request.plugin.manifest_sha256@)
            &&& 0 < request.plugin.manifest_bytes <= 1_048_576
            &&& same_place(found.index.before, found.index.after)
            &&& found.index.content is Some
            &&& found.index.content->0@ == fixed_index
            &&& found.index.content->0@.len() == request.plugin.index_bytes
            &&& sha256_text(found.index.content->0@) == request.plugin.index_sha256@
            &&& is_digest(request.plugin.index_sha256@)
            &&& 0 < request.plugin.index_bytes <= 1_048_576
            &&& same_place(found.module.before, found.module.after)
            &&& found.module.content is Some
            &&& found.module.content->0@.len() == request.plugin.module_bytes
            &&& sha256_text(found.module.content->0@) == request.plugin.module_sha256@
            &&& is_digest(request.plugin.module_sha256@)
            &&& 0 < request.plugin.module_bytes <= 268_435_456
        },
        r is Some ==> {
            &&& r->0.root == found.root->0
            &&& r->0.manifest.path == found.manifest.after->0
            &&& r->0.manifest.bytes == request.plugin.manifest_bytes
            &&& r->0.manifest.sha256@ == request.plugin.manifest_sha256@
            &&& r->0.index.path == found.index.after->0
            &&& r->0.index.bytes == request.plugin.index_bytes
            &&& r->0.index.sha256@ == request.plugin.index_sha256@
            &&& r->0.module.path == found.module.after->0
            &&& r->0.module.bytes == request.plugin.module_bytes
            &&& r->0.module.sha256@ == request.plugin.module_sha256@
        },
{
}

/// An extension counts as unchanged exactly if its directory and its three
/// files are where they were, with the same files behind them, and every file
/// has its former length and digest.
pub proof fn unchanged_extension_is_the_same(a: IllustratorPluginReceipt, b: IllustratorPluginReceipt)
    ensures
        same_plugin_receipts(a, b) <==> {
            &&& a.root.requested@ == b.root.requested@
            &&& a.root.canonical@ == b.root.canonical@
            &&& a.root.filesystem_identity == b.root.filesystem_identity
            &&& a.manifest.path.requested@ == b.manifest.path.requested@
            &&& a.manifest.path.canonical@ == b.manifest.path.canonical@
            &&& a.manifest.path.filesystem_identity == b.manifest.path.filesystem_identity
            &&& a.manifest.bytes == b.manifest.bytes
            &&& a.manifest.sha256@ == b.manifest.sha256@
            &&& a.index.path.requested@ == b.index.path.requested@
            &&& a.index.path.canonical@ == b.index.path.canonical@
            &&& a.index.path.filesystem_identity == b.index.path.filesystem_identity
            &&& a.index.bytes == b.index.bytes
            &&& a.index.sha256@ == b.index.sha256@
            &&& a.module.path.requested@ == b.module.path.requested@
            &&& a.module.path.canonical@ == b.module.path.canonical@
            &&& a.module.path.filesystem_identity == b.module.path.filesystem_identity
            &&& a.module.bytes == b.module.bytes
            &&& a.module.sha256@ == b.module.sha256@
        },
{
}

/// A path is recorded exactly if nothing on it leads elsewhere, it is of the
/// expected type, the system tells its identity and, where it is a file, it
/// has no second name. The receipt holds the path as it was asked for, as it
/// resolved, and that identity.
pub proof fn recorded_path_is_direct(look: PathLook, expect_directory: bool)
    ensures
        path_receipt_of(look, expect_directory) is Some <==> {
            &&& look.direct
            &&& look.filesystem_identity is Some
            &&& expect_directory ==> look.is_dir
            &&& !expect_directory ==> !look.is_dir && look.is_file && look.links == Some(1u64)
        },
        path_receipt_of(look, expect_directory) is Some ==> {
            let r = path_receipt_of(look, expect_directory)->0;
            &&& r.requested@ == look.requested@
            &&& r.canonical@ == look.canonical@
            &&& Some(r.filesystem_identity) == look.filesystem_identity
        },
{
}

/// A file that was read counts exactly if it was a regular file of one to
/// `maximum` bytes, all of which were read, and length, time, identity and
/// path were the same before and after.
pub proof fn counted_read_was_undisturbed(read: AttestedRead, maximum: u64)
    ensures
        read.steady(maximum) <==> {
            &&& read.before.is_file
            &&& 1 <= read.bytes@.len() <= maximum
            &&& read.bytes@.len() == read.before.len
            &&& read.bytes@.len() == read.handle_len_after
            &&& read.bytes@.len() == read.after.len
            &&& read.modified == read.handle_modified_after
            &&& read.modified == read.path_modified_after
            &&& read.identity == read.handle_identity_after
            &&& read.identity == read.path_identity_after
            &&& read.same_handle
            &&& !read.after.is_symlink
            &&& !read.after.is_reparse
        },
{
}

/// A started host is accepted exactly if it was not revoked, both paths
/// resolved and they agree, on Windows but for the case of ASCII letters.
pub proof fn accepted_launch_is_the_selected_host(
    platform: Platform,
    observed: Option<Seq<char>>,
    selected: Option<Seq<char>>,
    revoked: bool,
)
    ensures
        launch_accepted(platform, observed, selected, revoked) <==> !revoked && same_resolved(
            platform,
            observed,
            selected,
        ),
        same_resolved(platform, observed, selected) <==> {
            &&& observed is Some
            &&& selected is Some
            &&& if platform == Platform::Windows {
                &&& observed->0.len() == selected->0.len()
                &&& forall|i: int|
                    0 <= i < observed->0.len() ==> letters_agree(
                        #[trigger] observed->0[i],
                        selected->0[i],
                    )
            } else {
                observed->0 == selected->0
            }
        },
{
    if observed is Some && selected is Some && platform == Platform::Windows {
        folded_texts_agree(observed->0, selected->0);
    }
}

/// Equal characters, or the two cases of one ASCII letter.
pub open spec fn letters_agree(a: char, b: char) -> bool {
    ||| a == b
    ||| 'A' <= a <= 'Z' && b as u32 == a as u32 + 32
    ||| 'A' <= b <= 'Z' && a as u32 == b as u32 + 32
}

/// Two texts fold to the same exactly if they agree but for the case of ASCII
/// letters.
pub proof fn folded_texts_agree(a: Seq<char>, b: Seq<char>)
    ensures
        same_folded(a, b) <==> a.len() == b.len() && forall|i: int|
            0 <= i < a.len() ==> letters_agree(#[trigger] a[i], b[i]),
{
    let x = lower_text(a);
    let y = lower_text(b);
    if same_folded(a, b) {
        assert(x.len() == a.len() && y.len() == b.len());
        assert forall|i: int| 0 <= i < a.len() implies letters_agree(#[trigger] a[i], b[i]) by {
            assert(x[i] == y[i]);
        }
    }
    if a.len() == b.len() && forall|i: int|
        0 <= i < a.len() ==> letters_agree(#[trigger] a[i], b[i]) {
        assert forall|i: int| 0 <= i < a.len() implies x[i] == y[i] by {
            assert(letters_agree(a[i], b[i]));
        }
        assert(x =~= y);
    }
}

/// What is prepared for Photoshop: the configuration goes to the given path,
/// the former one is kept for the way back, and the script sets address,
/// token and target, and the nonce while the host starts; the script that
/// stays deletes it.
pub proof fn prepared_photoshop_script(
    request: PhotoshopBootstrapRequest,
    module_sha256: String,
    config_path: String,
    previous_config: Option<Vec<u8>>,
    nonce: Seq<char>,
    token: Seq<char>,
    url: Seq<char>,
    r: PreparedBootstrap,
)
    requires
        prepares_photoshop(
            request,
            module_sha256,
            config_path,
            previous_config,
            nonce,
            token,
            url,
            r,
        ),
    ensures
        r.config_path == Some(config_path),
        r.previous_config == previous_config,
        r.module_sha256@ == module_sha256@,
        r.illustrator_receipt is None,
        r.transient_config is Some,
        r.transient_config->0@ == encode_utf8(
            "(function(){globalThis.__ADOBEPY_BROKER_URL="@ + json_string(url)
                + ";globalThis.__ADOBEPY_TOKEN="@ + json_string(token)
                + ";globalThis.__ADOBEPY_TARGET="@ + json_string(request.target@) + ";"@ + (
            "globalThis.__ADOBEPY_BOOTSTRAP_NONCE="@ + json_string(nonce) + ";"@) + "}());\n"@,
        ),
        r.committed_config is Some,
        r.committed_config->0@ == encode_utf8(
            "(function(){globalThis.__ADOBEPY_BROKER_URL="@ + json_string(url)
                + ";globalThis.__ADOBEPY_TOKEN="@ + json_string(token)
                + ";globalThis.__ADOBEPY_TARGET="@ + json_string(request.target@) + ";"@
                + "delete globalThis.__ADOBEPY_BOOTSTRAP_NONCE;"@ + "}());\n"@,
        ),
{
}

/// What is prepared for Illustrator: as for Photoshop, with the profile that
/// the request names and the receipt of the attested extension.
pub proof fn prepared_illustrator_script(
    request: PhotoshopBootstrapRequest,
    receipt: IllustratorPluginReceipt,
    config_path: String,
    previous_config: Option<Vec<u8>>,
    nonce: Seq<char>,
    token: Seq<char>,
    url: Seq<char>,
    r: PreparedBootstrap,
)
    requires
        prepares_illustrator(
            request,
            receipt,
            config_path,
            previous_config,
            nonce,
            token,
            url,
            r,
        ),
    ensures
        r.config_path == Some(config_path),
        r.previous_config == previous_config,
        r.module_sha256@ == receipt.module.sha256@,
        r.illustrator_receipt == Some(receipt),
        r.transient_config is Some,
        r.transient_config->0@ == encode_utf8(
            "(function(){globalThis.__ADOBEPY_BROKER_URL="@ + json_string(url)
                + ";globalThis.__ADOBEPY_TOKEN="@ + json_string(token)
                + ";globalThis.__ADOBEPY_TARGET="@ + json_string(request.target@) + ";"@
                + "globalThis.__ADOBEPY_HOST_IDENTITY={profileId:"@ + json_string(
                request.host.profile_id@,
            ) + "};"@ + ("globalThis.__ADOBEPY_BOOTSTRAP_NONCE="@ + json_string(nonce) + ";"@)
                + "}());\n"@,
        ),
        r.committed_config is Some,
        r.committed_config->0@ == encode_utf8(
            "(function(){globalThis.__ADOBEPY_BROKER_URL="@ + json_string(url)
                + ";globalThis.__ADOBEPY_TOKEN="@ + json_string(token)
                + ";globalThis.__ADOBEPY_TARGET="@ + json_string(request.target@) + ";"@
                + "globalThis.__ADOBEPY_HOST_IDENTITY={profileId:"@ + json_string(
                request.host.profile_id@,
            ) + "};"@ + "delete globalThis.__ADOBEPY_BOOTSTRAP_NONCE;"@ + "}());\n"@,
        ),
{
}

/// No path is a Photoshop executable's on another platform; on Windows its
/// file is `Photoshop.exe` in any case, in a directory whose name begins
/// `Adobe Photoshop `; on macOS its file's name begins so and it lies in an
/// application bundle.
pub proof fn photoshop_executable_is_named(
    platform: Platform,
    file_name: Option<Seq<char>>,
    parent_name: Option<Seq<char>>,
    path: Seq<char>,
)
    ensures
        photoshop_product(platform, file_name, parent_name, path) <==> match platform {
            Platform::Windows => {
                &&& file_name is Some
                &&& file_name->0.len() == "Photoshop.exe"@.len()
                &&& forall|i: int|
                    0 <= i < file_name->0.len() ==> letters_agree(
                        #[trigger] file_name->0[i],
                        "Photoshop.exe"@[i],
                    )
                &&& parent_name is Some
                &&& parent_name->0.len() >= "Adobe Photoshop "@.len()
                &&& parent_name->0.take("Adobe Photoshop "@.len() as int) == "Adobe Photoshop "@
            },
            Platform::MacOs => {
                &&& file_name is Some
                &&& file_name->0.len() >= "Adobe Photoshop "@.len()
                &&& file_name->0.take("Adobe Photoshop "@.len() as int) == "Adobe Photoshop "@
                &&& exists|i: int|
                    0 <= i && i + ".app/Contents/MacOS/"@.len() <= path.len()
                        && #[trigger] path.subrange(i, i + ".app/Contents/MacOS/"@.len())
                        == ".app/Contents/MacOS/"@
            },
            Platform::Other => false,
        },
{
    if file_name is Some {
        folded_texts_agree(file_name->0, "Photoshop.exe"@);
    }
}

/// A manifest is the bridge's exactly if it is of version 5, has the bridge's
/// identifier and the expected version, is for Photoshop, is loaded at the
/// start and begins with the start page; the fields are those of the text.
pub proof fn fixed_manifest_is_the_bridges(
    raw: Seq<u8>,
    fields: ManifestFields,
    expected_version: Seq<char>,
)
    ensures
        manifest_is_fixed(fields, expected_version) <==> {
            &&& fields.manifest_version == Some(5u64)
            &&& fields.id is Some
            &&& fields.id->0@ == "com.adobepy.bridge.photoshop"@
            &&& fields.version is Some
            &&& fields.version->0@ == expected_version
            &&& fields.host_app is Some
            &&& fields.host_app->0@ == "PS"@
            &&& fields.load_event is Some
            &&& fields.load_event->0@ == "startup"@
            &&& fields.main is Some
            &&& fields.main->0@ == "index.html"@
        },
        manifest_of(raw, fields) ==> (raw_manifest_is_fixed(raw, expected_version) <==> raw.len()
            <= 65_536 && manifest_is_fixed(fields, expected_version)),
{
}

/// A file of an extension is captured exactly if it was found in one place
/// before and after, with exactly the expected length and digest; its receipt
/// says where it is, and those.
pub proof fn captured_file_is_exact(
    file: ExactFile,
    expected_bytes: u64,
    expected_sha256: Seq<char>,
    maximum: u64,
    r: Option<(Vec<u8>, IllustratorFileReceipt)>,
)
    requires
        captures_exact(file, expected_bytes, expected_sha256, maximum, r),
    ensures
        r is Some <==> {
            &&& same_place(file.before, file.after)
            &&& file.content is Some
            &&& file.content->0@.len() == expected_bytes
            &&& sha256_text(file.content->0@) == expected_sha256
            &&& is_digest(expected_sha256)
            &&& 0 < expected_bytes <= maximum
        },
        r is Some ==> {
            let (content, receipt) = r->0;
            &&& Some(content) == file.content
            &&& Some(receipt.path) == file.after
            &&& receipt.bytes == expected_bytes
            &&& receipt.sha256@ == expected_sha256
        },
        exact_content(file.content, expected_bytes, expected_sha256, maximum) is Some <==> {
            &&& file.content is Some
            &&& file.content->0@.len() == expected_bytes
            &&& sha256_text(file.content->0@) == expected_sha256
            &&& is_digest(expected_sha256)
            &&& 0 < expected_bytes <= maximum
        },
        exact_content(file.content, expected_bytes, expected_sha256, maximum) is Some
            ==> exact_content(file.content, expected_bytes, expected_sha256, maximum)
            == file.content,
{
}

/// An Illustrator executable lies four levels below a directory that is named
/// after the product and a year of this century: on Windows in any case of
/// letters, on macOS but for that directory exactly.
pub proof fn illustrator_executable_is_named(platform: Platform, names: Seq<String>)
    ensures
        illustrator_product(platform, names) <==> match platform {
            Platform::Windows => {
                &&& names.len() >= 5
                &&& fold_alike(names[0]@, "Illustrator.exe"@)
                &&& fold_alike(names[1]@, "Windows"@)
                &&& fold_alike(names[2]@, "Contents"@)
                &&& fold_alike(names[3]@, "Support Files"@)
                &&& is_install_year(names[4]@)
            },
            Platform::MacOs => {
                &&& names.len() >= 5
                &&& names[0]@ == "Adobe Illustrator"@
                &&& names[1]@ == "MacOS"@
                &&& names[2]@ == "Contents"@
                &&& names[3]@ == "Adobe Illustrator.app"@
                &&& is_install_year(names[4]@)
            },
            Platform::Other => false,
        },
{
    if names.len() >= 5 {
        folded_texts_agree(names[0]@, "Illustrator.exe"@);
        folded_texts_agree(names[1]@, "Windows"@);
        folded_texts_agree(names[2]@, "Contents"@);
        folded_texts_agree(names[3]@, "Support Files"@);
        install_years(names[4]@);
    }
}

/// Two texts agree but for the case of ASCII letters.
pub open spec fn fold_alike(a: Seq<char>, b: Seq<char>) -> bool {
    a.len() == b.len() && forall|i: int| 0 <= i < a.len() ==> letters_agree(#[trigger] a[i], b[i])
}

/// `Adobe Illustrator 20` in any case of letters, and two digits.
pub open spec fn is_install_year(name: Seq<char>) -> bool {
    &&& name.len() == 22
    &&& fold_alike(name.take(20), "adobe illustrator 20"@)
    &&& '0' <= name[20] <= '9'
    &&& '0' <= name[21] <= '9'
}

proof fn install_years(name: Seq<char>)
    ensures
        illustrator_install_dir(name) <==> is_install_year(name),
{
    let folded = lower_text(name);
    let head = "adobe illustrator "@;
    let long = "adobe illustrator 20"@;
    reveal_strlit("adobe illustrator ");
    reveal_strlit("adobe illustrator 20");
    reveal_strlit("20");
    assert(head.len() == 18 && long.len() == 20);
    assert(long =~= head + "20"@);
    assert(folded.len() == name.len());
    if name.len() == 22 {
        let year = folded.skip(18);
        folded_texts_agree(name.take(20), long);
        assert(lower_text(name.take(20)) =~= folded.take(20));
        assert(lower_text(long) =~= long);
        assert(same_folded(name.take(20), long) <==> folded.take(20) == long);
        assert(folded.take(20) == long <==> folded.take(18) == head && year.take(2) == "20"@) by {
            assert(folded.take(20).take(18) =~= folded.take(18));
            assert(long.take(18) =~= head);
            assert(folded.take(20).skip(18) =~= year.take(2));
            assert(long.skip(18) =~= "20"@);
            assert(folded.take(20) =~= folded.take(18) + year.take(2));
        }
        assert(year[2] == folded[20] && year[3] == folded[21]);
        assert(year[0] == folded[18] && year[1] == folded[19]);
        if is_install_year(name) {
            assert(year.take(2)[0] == '2' && year.take(2)[1] == '0');
            assert forall|i: int| 0 <= i < year.len() implies '0' <= #[trigger] year[i] <= '9' by {
                if i == 0 {
                    assert(year[0] == year.take(2)[0]);
                } else if i == 1 {
                    assert(year[1] == year.take(2)[1]);
                }
            }
        }
    }
}

/// A blocking operation goes on exactly while it is not cancelled and its
/// deadline has not come.
pub proof fn blocking_operation_is_bounded(deadline: BlockingDeadline, now: u64)
    ensures
        deadline.open_at(now) <==> !deadline.cancelled && now < deadline.deadline,
{
}

} // verus!
