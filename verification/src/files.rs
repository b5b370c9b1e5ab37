//! What was seen of a file, and when a look at a file counts.
use vstd::prelude::*;

use crate::bytes::{bytes_option, copy_bytes_option, same_bytes, same_bytes_option};
use crate::outside::{sha256_hex, sha256_text};
use crate::text::{
    clone_text_option, is_lower_hex_char, same_text, same_text_option, text_option,
};

verus! {

/// The largest configuration file that is read or written.
pub const MAX_CONFIG_BYTES: u64 = 524_288;

/// The volume and the index of a file.
#[derive(Debug, Clone, Copy, PartialEq, Eq, Structural)]
pub struct FileIdentity {
    pub primary: u64,
    pub secondary: u64,
}

/// A file as it was at one moment, or that there was none. Content, digest
/// and identity come together, and the digest is that of the content.
#[derive(Debug, PartialEq, Eq)]
pub struct FileReceipt {
    path: String,
    bytes: Option<Vec<u8>>,
    sha256: Option<String>,
    identity: Option<FileIdentity>,
}

/// The mathematical value behind a [`FileReceipt`].
#[verifier::ext_equal]
pub struct FileReceiptModel {
    pub path: Seq<char>,
    pub bytes: Option<Seq<u8>>,
    pub sha256: Option<Seq<char>>,
    pub identity: Option<FileIdentity>,
}

/// The text is 64 lowercase hexadecimal digits.
pub open spec fn digest_shape(text: Seq<char>) -> bool {
    text.len() == 64 && forall|i: int| 0 <= i < 64 ==> is_lower_hex_char(#[trigger] text[i])
}

impl FileReceiptModel {
    /// Content, digest and identity are all there or all missing, and the
    /// digest is that of the content, in 64 lowercase hexadecimal digits.
    pub open spec fn sound(self) -> bool {
        match self.bytes {
            Some(bytes) => self.sha256 == Some(sha256_text(bytes)) && digest_shape(
                sha256_text(bytes),
            ) && self.identity is Some,
            None => self.sha256 is None && self.identity is None,
        }
    }
}

impl View for FileReceipt {
    type V = FileReceiptModel;

    closed spec fn view(&self) -> FileReceiptModel {
        FileReceiptModel {
            path: self.path@,
            bytes: bytes_option(self.bytes),
            sha256: text_option(self.sha256),
            identity: self.identity,
        }
    }
}

impl Clone for FileReceipt {
    fn clone(&self) -> (r: Self)
        ensures
            r@ == self@,
    {
        proof {
            use_type_invariant(self);
        }
        FileReceipt {
            path: self.path.clone(),
            bytes: copy_bytes_option(&self.bytes),
            sha256: clone_text_option(&self.sha256),
            identity: self.identity,
        }
    }
}

/// What the file system says of a path without following it.
#[derive(Debug, Clone, Copy, PartialEq, Eq, Structural)]
pub struct FileFacts {
    pub is_file: bool,
    pub is_dir: bool,
    pub is_symlink: bool,
    /// A Windows reparse point.
    pub is_reparse: bool,
    pub len: u64,
}

impl FileFacts {
    /// A regular file that stands for itself.
    pub open spec fn plain_file(self) -> bool {
        self.is_file && !self.is_symlink && !self.is_reparse
    }

    /// A directory that stands for itself.
    pub open spec fn plain_dir(self) -> bool {
        self.is_dir && !self.is_symlink && !self.is_reparse
    }

    /// A regular file that stands for itself.
    pub fn is_plain_file(&self) -> (r: bool)
        ensures
            r == self.plain_file(),
    {
        self.is_file && !self.is_symlink && !self.is_reparse
    }

    /// A directory that stands for itself.
    pub fn is_plain_dir(&self) -> (r: bool)
        ensures
            r == self.plain_dir(),
    {
        self.is_dir && !self.is_symlink && !self.is_reparse
    }
}

/// Everything that was seen while a file was read through one open handle.
#[derive(Debug)]
pub struct FileCapture {
    pub path: String,
    /// The path before the file was read.
    pub before: FileFacts,
    pub handle_identity: FileIdentity,
    pub path_identity: FileIdentity,
    pub bytes: Vec<u8>,
    /// The handle and the path after the file was read.
    pub handle_identity_after: FileIdentity,
    pub handle_len_after: u64,
    pub path_identity_after: FileIdentity,
    pub after: FileFacts,
}

/// A look at a path.
#[derive(Debug)]
pub enum FileObservation {
    Missing { path: String },
    Present(FileCapture),
}

/// Why a look at a file does not count.
#[derive(Debug, Clone, Copy, PartialEq, Eq, Structural)]
pub enum CaptureError {
    /// It is not a bounded regular file.
    Unbounded,
    /// The path led to another file than the handle.
    PathChanged,
    /// The file changed while it was read.
    ContentChanged,
}

impl FileCapture {
    /// Nothing changed between the first and the last look.
    pub open spec fn steady(self) -> bool {
        &&& self.handle_identity_after == self.handle_identity
        &&& self.path_identity_after == self.handle_identity
        &&& self.after.plain_file()
        &&& self.handle_len_after == self.bytes@.len()
        &&& self.after.len == self.bytes@.len()
        &&& self.bytes@.len() <= MAX_CONFIG_BYTES
    }

    /// Why the capture does not count, if there is a reason.
    pub open spec fn fault(self) -> Option<CaptureError> {
        if !self.before.plain_file() || self.before.len > MAX_CONFIG_BYTES {
            Some(CaptureError::Unbounded)
        } else if self.handle_identity != self.path_identity {
            Some(CaptureError::PathChanged)
        } else if !self.steady() {
            Some(CaptureError::ContentChanged)
        } else {
            None
        }
    }
}

/// The receipt of a file with the given content.
pub open spec fn receipt_of(path: Seq<char>, bytes: Seq<u8>, identity: FileIdentity) -> FileReceiptModel {
    FileReceiptModel {
        path,
        bytes: Some(bytes),
        sha256: Some(sha256_text(bytes)),
        identity: Some(identity),
    }
}

/// The receipt of a path without a file.
pub open spec fn missing_receipt(path: Seq<char>) -> FileReceiptModel {
    FileReceiptModel { path, bytes: None, sha256: None, identity: None }
}

/// What a look at a path gives.
pub open spec fn captures(observation: FileObservation, r: Result<FileReceipt, CaptureError>) -> bool {
    match observation {
        FileObservation::Missing { path } => r is Ok && r->Ok_0@ == missing_receipt(path@),
        FileObservation::Present(capture) => match capture.fault() {
            Some(fault) => r == Err::<FileReceipt, CaptureError>(fault),
            None => r is Ok && r->Ok_0@ == receipt_of(
                capture.path@,
                capture.bytes@,
                capture.handle_identity,
            ),
        },
    }
}

impl FileReceipt {
    #[verifier::type_invariant]
    spec fn holds_together(self) -> bool {
        self@.sound()
    }

    /// The receipt of a look at a path. A file that was replaced, grew or
    /// shrank while it was read gives none.
    pub fn capture(observation: FileObservation) -> (r: Result<FileReceipt, CaptureError>)
        ensures
            captures(observation, r),
            r is Ok ==> r->Ok_0@.sound(),
    {
        let capture = match observation {
            FileObservation::Missing { path } => {
                return Ok(FileReceipt { path, bytes: None, sha256: None, identity: None });
            },
            FileObservation::Present(capture) => capture,
        };
        if !capture.before.is_plain_file() || capture.before.len > MAX_CONFIG_BYTES {
            return Err(CaptureError::Unbounded);
        }
        if capture.handle_identity != capture.path_identity {
            return Err(CaptureError::PathChanged);
        }
        let len: u64 = capture.bytes.len() as u64;
        if capture.handle_identity_after != capture.handle_identity || capture.path_identity_after
            != capture.handle_identity || !capture.after.is_plain_file() || capture.handle_len_after
            != len || capture.after.len != len || len > MAX_CONFIG_BYTES {
            return Err(CaptureError::ContentChanged);
        }
        let sha256 = sha256_hex(capture.bytes.as_slice());
        Ok(
            FileReceipt {
                path: capture.path,
                bytes: Some(capture.bytes),
                sha256: Some(sha256),
                identity: Some(capture.handle_identity),
            },
        )
    }

    pub fn path(&self) -> (r: &str)
        ensures
            r@ == self@.path,
    {
        self.path.as_str()
    }

    /// The digest of the content, where there is a file.
    pub fn sha256(&self) -> (r: Option<&str>)
        ensures
            match r {
                Some(sha256) => self@.sha256 == Some(sha256@) && self@.bytes is Some && sha256@
                    == sha256_text(self@.bytes->0) && digest_shape(sha256@),
                None => self@.sha256 is None && self@.bytes is None,
            },
            self@.sound(),
    {
        proof {
            use_type_invariant(self);
        }
        match &self.sha256 {
            Some(sha256) => Some(sha256.as_str()),
            None => None,
        }
    }

    pub fn bytes(&self) -> (r: Option<&[u8]>)
        ensures
            match r {
                Some(bytes) => self@.bytes == Some(bytes@),
                None => self@.bytes is None,
            },
    {
        match &self.bytes {
            Some(bytes) => Some(bytes.as_slice()),
            None => None,
        }
    }

    /// The file itself, where there is one.
    pub fn identity(&self) -> (r: Option<FileIdentity>)
        ensures
            r == self@.identity,
    {
        self.identity
    }

    /// Whether the file has the given content; `None` stands for no file.
    pub fn holds(&self, content: &Option<Vec<u8>>) -> (r: bool)
        ensures
            r == (self@.bytes == bytes_option(*content)),
    {
        same_bytes_option(&self.bytes, content)
    }

    /// The path, the content and the digest.
    pub fn into_parts(self) -> (r: (String, Option<(Vec<u8>, String)>))
        ensures
            r.0@ == self@.path,
            match r.1 {
                Some(part) => self@.bytes == Some(part.0@) && self@.sha256 == Some(part.1@),
                None => self@.bytes is None && self@.sha256 is None,
            },
    {
        proof {
            use_type_invariant(&self);
        }
        let content = match (self.bytes, self.sha256) {
            (Some(bytes), Some(sha256)) => Some((bytes, sha256)),
            _ => None,
        };
        (self.path, content)
    }

    /// Equality of two receipts.
    pub fn same(&self, other: &FileReceipt) -> (r: bool)
        ensures
            r == (self@ == other@),
    {
        self.path == other.path && same_bytes_option(&self.bytes, &other.bytes)
            && same_text_option(&self.sha256, &other.sha256) && self.identity == other.identity
    }
}

/// The view of an optional receipt.
pub open spec fn receipt_option(o: Option<FileReceipt>) -> Option<FileReceiptModel> {
    match o {
        Some(receipt) => Some(receipt@),
        None => None,
    }
}

/// A copy of an optional receipt.
pub fn clone_receipt_option(o: &Option<FileReceipt>) -> (r: Option<FileReceipt>)
    ensures
        receipt_option(r) == receipt_option(*o),
{
    match o {
        Some(receipt) => Some(receipt.clone()),
        None => None,
    }
}

/// Equality of two optional receipts.
pub fn same_receipt_option(a: &Option<FileReceipt>, b: &Option<FileReceipt>) -> (r: bool)
    ensures
        r == (receipt_option(*a) == receipt_option(*b)),
{
    match (a, b) {
        (Some(a), Some(b)) => a.same(b),
        (None, None) => true,
        _ => false,
    }
}

/// A configuration file may be overwritten: the new content is bounded, the
/// path is the receipt's, the opened file is the receipt's file, and the file
/// was found exactly as the receipt says. Where the receipt says that there is
/// no file, none may be opened before the new one is created.
pub open spec fn write_permitted(
    path: Seq<char>,
    expected: FileReceiptModel,
    len: nat,
    opened: Option<FileIdentity>,
    captured: FileReceiptModel,
) -> bool {
    &&& len <= MAX_CONFIG_BYTES
    &&& expected.path == path
    &&& expected.identity is Some ==> opened == expected.identity
    &&& captured == expected
}

/// Decides whether a configuration file may be overwritten.
pub fn may_write(
    path: &str,
    expected: &FileReceipt,
    bytes: &[u8],
    opened: Option<FileIdentity>,
    captured: &FileReceipt,
) -> (r: bool)
    ensures
        r == write_permitted(path@, expected@, bytes@.len(), opened, captured@),
{
    if bytes.len() as u64 > MAX_CONFIG_BYTES || !same_text(expected.path.as_str(), path) {
        return false;
    }
    let same_file = match expected.identity {
        Some(identity) => opened == Some(identity),
        None => true,
    };
    same_file && captured.same(expected)
}

/// The path leads to the written file and the file holds what was written.
pub open spec fn counts_as_written(
    owned: FileIdentity,
    bytes: Seq<u8>,
    captured: FileReceiptModel,
) -> bool {
    captured.identity == Some(owned) && captured.bytes == Some(bytes)
}

/// The receipt of a configuration file that was just written: it counts where
/// the path leads to the written file and the file holds what was written.
pub fn accept_written(owned: FileIdentity, bytes: &[u8], captured: FileReceipt) -> (r: Option<
    FileReceipt,
>)
    ensures
        r == if counts_as_written(owned, bytes@, captured@) {
            Some(captured)
        } else {
            None
        },
{
    let same_file = captured.identity == Some(owned);
    let same_content = match &captured.bytes {
        Some(found) => same_bytes(found.as_slice(), bytes),
        None => false,
    };
    if same_file && same_content {
        Some(captured)
    } else {
        None
    }
}

/// The file that was moved aside is the very file that was opened.
pub open spec fn discard_permitted(owned: FileIdentity, aside: FileReceiptModel) -> bool {
    aside.identity == Some(owned)
}

/// Decides whether a file that was moved aside may be deleted: it is the very
/// file that was opened.
pub fn may_discard(owned: FileIdentity, aside: &FileReceipt) -> (r: bool)
    ensures
        r == discard_permitted(owned, aside@),
{
    aside.identity == Some(owned)
}

/// Whether a file has gone from its path.
pub fn is_gone(captured: &FileReceipt) -> (r: bool)
    ensures
        r == (captured@.identity is None),
{
    captured.identity.is_none()
}

/// The file was found exactly as the receipt says and the opened file is the
/// receipt's file.
pub open spec fn removal_permitted(
    expected: FileReceiptModel,
    opened: FileIdentity,
    captured: FileReceiptModel,
) -> bool {
    captured == expected && expected.identity == Some(opened)
}

/// Decides whether a configuration file may be removed: it was found exactly
/// as the receipt says and the opened file is the receipt's file.
pub fn may_remove(expected: &FileReceipt, opened: FileIdentity, captured: &FileReceipt) -> (r: bool)
    ensures
        r == removal_permitted(expected@, opened, captured@),
{
    captured.same(expected) && expected.identity == Some(opened)
}

} // verus!
