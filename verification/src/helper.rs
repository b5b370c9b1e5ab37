//! The helper protocol: requests and responses, the frames they travel in,
//! and what a helper does with a request.
use vstd::prelude::*;

use crate::bytes::same_bytes;
use crate::config::{ConfigTransactionIdentity, StagedArtifact, StagedModel};
use crate::files::{receipt_option, FileFacts, FileIdentity, FileReceipt, FileReceiptModel};
use crate::outside::{
    draw_uuid, hyphenate_uuid, is_random_uuid, parse_uuid, sha256_hex, sha256_text, uuid_text, uuid_value,
};
use crate::text::{parse_unsigned, same_text, texts, unsigned_value};

verus! {

pub const HELPER_PROTOCOL_VERSION: u32 = 1;

/// The largest request frame, its newline apart.
pub const MAX_HELPER_REQUEST_BYTES: usize = 524_288;

/// The largest response frame, its newline apart.
pub const MAX_HELPER_RESPONSE_BYTES: usize = 65_536;

/// The most that is read of a helper's error output.
pub const MAX_HELPER_STDERR_BYTES: usize = 4_096;

/// How long a helper that was killed may take to go away.
pub const HELPER_REAP_BUDGET_MS: u64 = 150;

/// What a helper is asked to do.
#[derive(Debug, PartialEq, Eq)]
pub enum HelperRequest {
    Sleep { millis: u64 },
    Stage { generation: u64, transaction_id: String, staging_id: String, bytes: Vec<u8> },
    HashFile { path: String, maximum_bytes: u64 },
    PanicProbe,
}

/// What a helper answers.
#[derive(Debug, PartialEq, Eq)]
pub enum HelperResponse {
    Completed,
    Staged {
        generation: u64,
        transaction_id: String,
        staging_id: String,
        path: String,
        bytes: u64,
        sha256: String,
    },
    Hashed { bytes: u64, sha256: String },
    Failed { code: String },
}

/// A request on its way to a helper.
#[derive(Debug, PartialEq, Eq)]
pub struct HelperRequestEnvelope {
    pub protocol_version: u32,
    pub request_id: String,
    pub request: HelperRequest,
}

/// A response on its way back.
#[derive(Debug, PartialEq, Eq)]
pub struct HelperResponseEnvelope {
    pub protocol_version: u32,
    pub request_id: String,
    pub response: HelperResponse,
}

/// Why a helper request came to nothing.
#[derive(Debug, Clone, Copy, PartialEq, Eq, Structural)]
pub enum HelperPoolError {
    Overloaded,
    TimedOut,
    ShuttingDown,
    FailedClosed,
    QuiescenceFailed,
}

impl HelperPoolError {
    /// The error as a sentence.
    pub open spec fn sentence(self) -> Seq<char> {
        match self {
            HelperPoolError::Overloaded => "bootstrap helper admission is full"@,
            HelperPoolError::TimedOut => "bootstrap helper request timed out"@,
            HelperPoolError::ShuttingDown => "bootstrap helper pool is shutting down"@,
            HelperPoolError::FailedClosed => "bootstrap helper failed closed"@,
            HelperPoolError::QuiescenceFailed =>
                "bootstrap helper could not be reaped; the pool is fail-stopped"@,
        }
    }

    /// The error as a sentence.
    pub fn message(&self) -> (r: &'static str)
        ensures
            r@ == self.sentence(),
    {
        match self {
            HelperPoolError::Overloaded => "bootstrap helper admission is full",
            HelperPoolError::TimedOut => "bootstrap helper request timed out",
            HelperPoolError::ShuttingDown => "bootstrap helper pool is shutting down",
            HelperPoolError::FailedClosed => "bootstrap helper failed closed",
            HelperPoolError::QuiescenceFailed =>
                "bootstrap helper could not be reaped; the pool is fail-stopped",
        }
    }
}

/// A request for a helper, under an identifier left to chance.
pub fn seal_request(request: HelperRequest) -> (r: HelperRequestEnvelope)
    ensures
        r.protocol_version == HELPER_PROTOCOL_VERSION,
        exists|id: u128| #[trigger] is_random_uuid(id) && r.request_id@ == uuid_text(id),
        r.request == request,
{
    let id: u128 = draw_uuid();
    seal_request_as(id, request)
}

/// The envelope is that of the request under the identifier.
pub open spec fn seals(request_id: u128, request: HelperRequest, r: HelperRequestEnvelope) -> bool {
    &&& r.protocol_version == HELPER_PROTOCOL_VERSION
    &&& r.request_id@ == uuid_text(request_id)
    &&& r.request == request
}

/// The envelope of a request under the given identifier.
pub fn seal_request_as(request_id: u128, request: HelperRequest) -> (r: HelperRequestEnvelope)
    ensures
        seals(request_id, request, r),
{
    HelperRequestEnvelope {
        protocol_version: HELPER_PROTOCOL_VERSION,
        request_id: hyphenate_uuid(request_id),
        request,
    }
}

/// The version is known and the identifier is a UUID.
pub open spec fn request_known(envelope: HelperRequestEnvelope) -> bool {
    envelope.protocol_version == HELPER_PROTOCOL_VERSION && uuid_value(envelope.request_id@) is Some
}

/// Checks a request on the helper's side: the version is known and the
/// identifier is a UUID.
pub fn open_request(envelope: &HelperRequestEnvelope) -> (r: bool)
    ensures
        r == request_known(*envelope),
{
    envelope.protocol_version == HELPER_PROTOCOL_VERSION && parse_uuid(
        envelope.request_id.as_str(),
    ).is_some()
}

/// The response in an envelope, where it answers the request.
pub open spec fn response_in(envelope: HelperResponseEnvelope, request_id: Seq<char>) -> Result<
    HelperResponse,
    HelperPoolError,
> {
    if envelope.protocol_version == HELPER_PROTOCOL_VERSION && envelope.request_id@
        == request_id {
        Ok::<HelperResponse, HelperPoolError>(envelope.response)
    } else {
        Err(HelperPoolError::FailedClosed)
    }
}

/// Takes the response out of its envelope: the version is known and the
/// identifier is that of the request.
pub fn open_response(envelope: HelperResponseEnvelope, request_id: &str) -> (r: Result<
    HelperResponse,
    HelperPoolError,
>)
    ensures
        r == response_in(envelope, request_id@),
{
    if envelope.protocol_version == HELPER_PROTOCOL_VERSION && same_text(
        envelope.request_id.as_str(),
        request_id,
    ) {
        Ok(envelope.response)
    } else {
        Err(HelperPoolError::FailedClosed)
    }
}

/// The frame of an encoded request.
pub open spec fn frames(encoded: Seq<u8>, r: Result<Vec<u8>, HelperPoolError>) -> bool {
    if encoded.len() >= MAX_HELPER_REQUEST_BYTES {
        r == Err::<Vec<u8>, HelperPoolError>(HelperPoolError::FailedClosed)
    } else {
        r is Ok && r->Ok_0@ == encoded.push(10u8)
    }
}

/// An encoded request as a frame: bounded, and ended by a newline.
pub fn frame_request(encoded: Vec<u8>) -> (r: Result<Vec<u8>, HelperPoolError>)
    ensures
        frames(encoded@, r),
{
    if encoded.len() >= MAX_HELPER_REQUEST_BYTES {
        return Err(HelperPoolError::FailedClosed);
    }
    let mut frame = encoded;
    frame.push(10u8);
    Ok(frame)
}

/// The output of a helper that is read for no more than its bound.
pub fn within_bound(bytes: &Vec<u8>, maximum: usize) -> (r: bool)
    ensures
        r == (bytes@.len() <= maximum),
{
    bytes.len() <= maximum
}

/// How a frame is read.
#[derive(Debug, Clone, Copy, PartialEq, Eq, Structural)]
pub enum FrameKind {
    /// From a client: a carriage return before the newline is dropped, and
    /// the stream may end without a newline.
    Request,
    /// From a helper: the stream must not end before the newline.
    Response,
}

/// What a chunk of input does to a frame that is being read.
pub enum FrameModel {
    /// The frame exceeds its bound.
    TooLong,
    /// The frame goes on; all of the chunk belongs to it.
    More { frame: Seq<u8> },
    /// The frame is complete; the first `consumed` bytes of the chunk
    /// belonged to it.
    Complete { frame: Seq<u8>, consumed: nat },
}

/// The position of the first newline, or the length.
pub open spec fn newline_at(chunk: Seq<u8>) -> nat
    decreases chunk.len(),
{
    if chunk.len() == 0 {
        0
    } else if chunk[0] == 10 {
        0
    } else {
        1 + newline_at(chunk.skip(1))
    }
}

/// A complete frame as it is handed on.
pub open spec fn trimmed_frame(kind: FrameKind, frame: Seq<u8>) -> Seq<u8> {
    if kind == FrameKind::Request && frame.len() > 0 && frame.last() == 13 {
        frame.drop_last()
    } else {
        frame
    }
}

/// What a chunk of input does to the bytes read so far: everything up to the
/// first newline belongs to the frame, which may have `maximum` bytes. A
/// response may run one byte over before its newline is seen.
pub open spec fn frame_step(kind: FrameKind, read: Seq<u8>, chunk: Seq<u8>, maximum: nat) -> FrameModel {
    let end = newline_at(chunk);
    let frame = read + chunk.take(end as int);
    if end < chunk.len() {
        if frame.len() > maximum {
            FrameModel::TooLong
        } else {
            FrameModel::Complete { frame: trimmed_frame(kind, frame), consumed: end + 1 }
        }
    } else if frame.len() > maximum + if kind == FrameKind::Response {
        1int
    } else {
        0int
    } {
        FrameModel::TooLong
    } else {
        FrameModel::More { frame }
    }
}

/// What a chunk of input did to a frame.
#[derive(Debug, Clone, Copy, PartialEq, Eq, Structural)]
pub enum FrameProgress {
    TooLong,
    /// All of the chunk was taken.
    More,
    /// The first `consumed` bytes of the chunk were taken.
    Complete { consumed: usize },
}

/// How a stream ended in the middle of reading a frame.
#[derive(Debug)]
pub enum FrameEnd {
    /// There is no further frame.
    Nothing,
    /// What was read is the last frame.
    Frame(Vec<u8>),
    /// The stream was cut off.
    CutOff,
}

proof fn lemma_newline_at(chunk: Seq<u8>, i: nat)
    requires
        i <= chunk.len(),
        forall|j: int| 0 <= j < i ==> chunk[j] != 10,
        i < chunk.len() ==> chunk[i as int] == 10,
    ensures
        newline_at(chunk) == i,
    decreases i,
{
    if i > 0 {
        assert(chunk[0] != 10);
        let rest = chunk.skip(1);
        assert forall|j: int| 0 <= j < i - 1 implies rest[j] != 10 by {
            assert(rest[j] == chunk[j + 1]);
        }
        lemma_newline_at(rest, (i - 1) as nat);
    }
}

/// A frame that is being read.
#[derive(Debug)]
pub struct FrameBuffer {
    pub kind: FrameKind,
    pub bytes: Vec<u8>,
}

impl FrameBuffer {
    pub fn new(kind: FrameKind) -> (r: Self)
        ensures
            r.kind == kind,
            r.bytes@.len() == 0,
    {
        FrameBuffer { kind, bytes: Vec::new() }
    }

    /// What a chunk of input does.
    pub open spec fn takes(
        pre: FrameBuffer,
        post: FrameBuffer,
        chunk: Seq<u8>,
        maximum: usize,
        r: FrameProgress,
    ) -> bool {
        &&& post.kind == pre.kind
        &&& match frame_step(pre.kind, pre.bytes@, chunk, maximum as nat) {
            FrameModel::TooLong => r == FrameProgress::TooLong && post.bytes@ == pre.bytes@,
            FrameModel::More { frame } => r == FrameProgress::More && post.bytes@
                == frame,
            FrameModel::Complete { frame, consumed } => r matches FrameProgress::Complete {
                consumed: taken,
            } && taken == consumed && post.bytes@ == frame,
        }
    }

    /// Takes in a chunk of input.
    pub fn accept(&mut self, chunk: &[u8], maximum: usize) -> (r: FrameProgress)
        ensures
            Self::takes(*old(self), *final(self), chunk@, maximum, r),
    {
        let mut end: usize = 0;
        while end < chunk.len() && chunk[end] != 10
            invariant
                end <= chunk@.len(),
                forall|j: int| 0 <= j < end ==> chunk@[j] != 10,
            decreases chunk@.len() - end,
        {
            end += 1;
        }
        proof {
            lemma_newline_at(chunk@, end as nat);
        }
        let complete = end < chunk.len();
        let room: usize = if self.bytes.len() <= maximum {
            maximum - self.bytes.len()
        } else {
            0
        };
        if complete {
            if self.bytes.len() > maximum || end > room {
                return FrameProgress::TooLong;
            }
        } else if self.kind == FrameKind::Response {
            if (self.bytes.len() > maximum && (self.bytes.len() - maximum > 1 || end > 0)) || (
            self.bytes.len() <= maximum && end > room && end - room > 1) {
                return FrameProgress::TooLong;
            }
        } else if self.bytes.len() > maximum || end > room {
            return FrameProgress::TooLong;
        }
        let ghost start = self.bytes@;
        for i in 0..end
            invariant
                end <= chunk@.len(),
                self.kind == old(self).kind,
                self.bytes@ == start + chunk@.take(i as int),
        {
            self.bytes.push(chunk[i]);
            assert(chunk@.take(i + 1) =~= chunk@.take(i as int).push(chunk@[i as int]));
        }
        if !complete {
            return FrameProgress::More;
        }
        let n: usize = self.bytes.len();
        if self.kind == FrameKind::Request && n > 0 && self.bytes[n - 1] == 13 {
            let ghost whole = self.bytes@;
            let _ = self.bytes.pop();
            assert(self.bytes@ =~= whole.drop_last());
        }
        FrameProgress::Complete { consumed: end + 1 }
    }

    /// What the end of the stream makes of what was read.
    pub open spec fn ends_with(self, r: FrameEnd) -> bool {
        match self.kind {
            FrameKind::Response => r is CutOff,
            FrameKind::Request => if self.bytes@.len() == 0 {
                r is Nothing
            } else {
                r == FrameEnd::Frame(self.bytes)
            },
        }
    }

    /// Takes in that the stream has ended.
    pub fn end(self) -> (r: FrameEnd)
        ensures
            self.ends_with(r),
    {
        match self.kind {
            FrameKind::Response => FrameEnd::CutOff,
            FrameKind::Request => if self.bytes.len() == 0 {
                FrameEnd::Nothing
            } else {
                FrameEnd::Frame(self.bytes)
            },
        }
    }
}

/// A file as it was seen while it was read through one open handle.
#[derive(Debug)]
pub struct StableRead {
    pub before: FileFacts,
    pub identity: FileIdentity,
    pub bytes: Vec<u8>,
    pub len_after: u64,
    pub identity_after: FileIdentity,
    /// The file that the path led to after the read.
    pub path_identity_after: FileIdentity,
}

impl StableRead {
    /// The file was regular and bounded and did not change while it was read.
    pub open spec fn stable(self, maximum_bytes: u64) -> bool {
        &&& self.before.is_file
        &&& self.before.len <= maximum_bytes
        &&& self.identity_after == self.identity
        &&& self.path_identity_after == self.identity
        &&& self.len_after == self.before.len
        &&& self.bytes@.len() == self.before.len
    }
}

/// The content of a file, where the read counts.
pub fn stable_file_bytes(read: StableRead, maximum_bytes: u64) -> (r: Option<Vec<u8>>)
    ensures
        r == if read.stable(maximum_bytes) {
            Some(read.bytes)
        } else {
            None
        },
{
    if !read.before.is_file || read.before.len > maximum_bytes {
        return None;
    }
    if read.identity_after != read.identity || read.path_identity_after != read.identity
        || read.before.len != read.len_after || read.bytes.len() as u64 != read.before.len {
        return None;
    }
    Some(read.bytes)
}

/// No component leads elsewhere.
pub open spec fn undirected(components: Seq<FileFacts>) -> bool {
    forall|i: int|
        0 <= i < components.len() ==> !(#[trigger] components[i]).is_symlink
            && !components[i].is_reparse
}

/// No component of a path leads elsewhere.
pub fn ensure_no_redirects(components: &Vec<FileFacts>) -> (r: bool)
    ensures
        r == undirected(components@),
{
    for i in 0..components.len()
        invariant
            forall|j: int|
                0 <= j < i ==> !(#[trigger] components@[j]).is_symlink
                    && !components@[j].is_reparse,
    {
        if components[i].is_symlink || components[i].is_reparse {
            return false;
        }
    }
    true
}

/// Every parent is a directory that stands for itself.
pub open spec fn plain_parents(parents: Seq<FileFacts>) -> bool {
    forall|i: int| 0 <= i < parents.len() ==> (#[trigger] parents[i]).plain_dir()
}

/// Every parent of a path is a directory that stands for itself.
pub fn ensure_no_redirects_to_parent(parents: &Vec<FileFacts>) -> (r: bool)
    ensures
        r == plain_parents(parents@),
{
    for i in 0..parents.len()
        invariant
            forall|j: int| 0 <= j < i ==> (#[trigger] parents@[j]).plain_dir(),
    {
        if !parents[i].is_plain_dir() {
            return false;
        }
    }
    true
}

/// Where a helper stages a file: the canonical identifiers of the transaction
/// and of the staging directory.
#[derive(Debug, PartialEq, Eq)]
pub struct StagingPlace {
    pub transaction_id: String,
    pub staging_id: String,
}

/// The directory below the system's temporary one that holds staged files.
pub const STAGING_ROOT: &'static str = "adobepy-bootstrap-staging";

/// The name of a staged file in its own directory.
pub const STAGING_FILE: &'static str = "payload.bin";

impl StagingPlace {
    /// The path of the staged file, component by component.
    pub open spec fn path_parts(self) -> Seq<Seq<char>> {
        seq![STAGING_ROOT@, self.staging_id@, STAGING_FILE@]
    }

    /// The path of the staged file below the system's temporary directory: a
    /// directory of its own, named by the staging identifier, and the file.
    pub fn components(&self) -> (r: Vec<String>)
        ensures
            texts(r@) == self.path_parts(),
    {
        let mut out: Vec<String> = Vec::new();
        out.push(STAGING_ROOT.to_owned());
        out.push(self.staging_id.clone());
        out.push(STAGING_FILE.to_owned());
        assert(texts(out@) =~= seq![STAGING_ROOT@, self.staging_id@, STAGING_FILE@]);
        out
    }
}

/// Where a file with these identifiers is staged.
pub open spec fn stages_at(transaction_id: Seq<char>, staging_id: Seq<char>, r: Option<StagingPlace>) -> bool {
    match (uuid_value(transaction_id), uuid_value(staging_id)) {
        (Some(transaction), Some(staging)) => r is Some && r->0.transaction_id@ == uuid_text(
            transaction,
        ) && r->0.staging_id@ == uuid_text(staging) && uuid_value(r->0.transaction_id@) == Some(
            transaction,
        ) && uuid_value(r->0.staging_id@) == Some(staging),
        _ => r is None,
    }
}

/// Reads the identifiers of a request to stage a file.
pub fn staging_place(transaction_id: &str, staging_id: &str) -> (r: Option<StagingPlace>)
    ensures
        stages_at(transaction_id@, staging_id@, r),
{
    match (parse_uuid(transaction_id), parse_uuid(staging_id)) {
        (Some(transaction), Some(staging)) => Some(
            StagingPlace {
                transaction_id: hyphenate_uuid(transaction),
                staging_id: hyphenate_uuid(staging),
            },
        ),
        _ => None,
    }
}

/// The answer to a request to stage a file.
pub open spec fn answers_staging(
    generation: u64,
    place: StagingPlace,
    path: String,
    bytes: Seq<u8>,
    captured: Option<Vec<u8>>,
    r: Option<HelperResponse>,
) -> bool {
    if captured is Some && captured->0@ == bytes {
        &&& r is Some
        &&& r->0 is Staged
        &&& r->0->generation == generation
        &&& r->0->transaction_id == place.transaction_id
        &&& r->0->staging_id == place.staging_id
        &&& r->0->path == path
        &&& r->0->Staged_bytes == bytes.len()
        &&& r->0->Staged_sha256@ == sha256_text(bytes)
    } else {
        r is None
    }
}

/// The answer to a request to stage a file: the file was found with exactly
/// the bytes that were to be staged.
pub fn staged_response(
    generation: u64,
    place: StagingPlace,
    path: String,
    bytes: &[u8],
    captured: &Option<Vec<u8>>,
) -> (r: Option<HelperResponse>)
    ensures
        answers_staging(generation, place, path, bytes@, *captured, r),
{
    let same = match captured {
        Some(found) => same_bytes(found.as_slice(), bytes),
        None => false,
    };
    if !same {
        return None;
    }
    Some(
        HelperResponse::Staged {
            generation,
            transaction_id: place.transaction_id,
            staging_id: place.staging_id,
            path,
            bytes: bytes.len() as u64,
            sha256: sha256_hex(bytes),
        },
    )
}

/// The answer to a request to hash a file.
pub open spec fn answers_hashing(bytes: Seq<u8>, r: HelperResponse) -> bool {
    &&& r is Hashed
    &&& r->Hashed_bytes == bytes.len()
    &&& r->Hashed_sha256@ == sha256_text(bytes)
}

/// The answer to a request to hash a file.
pub fn hashed_response(bytes: &[u8]) -> (r: HelperResponse)
    ensures
        answers_hashing(bytes@, r),
{
    HelperResponse::Hashed { bytes: bytes.len() as u64, sha256: sha256_hex(bytes) }
}

/// How the work on a request ended inside the helper.
#[derive(Debug)]
pub enum WorkerOutcome {
    Done(HelperResponse),
    Failed,
    Panicked,
}

/// The answer for an outcome.
pub open spec fn answers_for(outcome: WorkerOutcome, r: HelperResponse) -> bool {
    match outcome {
        WorkerOutcome::Done(response) => r == response,
        WorkerOutcome::Failed => r is Failed && r->code@ == "worker_failed"@,
        WorkerOutcome::Panicked => r is Failed && r->code@ == "worker_panicked"@,
    }
}

/// What the helper answers; a failure tells nothing but that it happened.
pub fn worker_response(outcome: WorkerOutcome) -> (r: HelperResponse)
    ensures
        answers_for(outcome, r),
{
    match outcome {
        WorkerOutcome::Done(response) => response,
        WorkerOutcome::Failed => HelperResponse::Failed { code: "worker_failed".to_owned() },
        WorkerOutcome::Panicked => HelperResponse::Failed { code: "worker_panicked".to_owned() },
    }
}

/// The answer of a helper with its identifier, on its way back.
pub fn seal_response(request_id: String, response: HelperResponse) -> (r: HelperResponseEnvelope)
    ensures
        r == (HelperResponseEnvelope {
            protocol_version: HELPER_PROTOCOL_VERSION,
            request_id,
            response,
        }),
{
    HelperResponseEnvelope { protocol_version: HELPER_PROTOCOL_VERSION, request_id, response }
}

/// The request to stage bytes for a transaction, under an identifier left to
/// chance.
pub fn stage_request(transaction: ConfigTransactionIdentity, bytes: Vec<u8>) -> (r: HelperRequest)
    ensures
        exists|id: u128| #[trigger]
            is_random_uuid(id) && asks_to_stage(transaction, id, bytes, r),
{
    let id: u128 = draw_uuid();
    stage_request_as(transaction, id, bytes)
}

/// The request asks to stage the bytes for the transaction under the staging
/// identifier, in notations that read back as the same identifiers.
pub open spec fn asks_to_stage(
    transaction: ConfigTransactionIdentity,
    staging_id: u128,
    bytes: Vec<u8>,
    r: HelperRequest,
) -> bool {
    &&& r is Stage
    &&& r->generation == transaction.generation
    &&& r->transaction_id@ == uuid_text(transaction.transaction_id)
    &&& r->staging_id@ == uuid_text(staging_id)
    &&& uuid_value(r->transaction_id@) == Some(transaction.transaction_id)
    &&& uuid_value(r->staging_id@) == Some(staging_id)
    &&& r->bytes == bytes
}

/// The request to stage bytes for a transaction under the given identifier.
pub fn stage_request_as(
    transaction: ConfigTransactionIdentity,
    staging_id: u128,
    bytes: Vec<u8>,
) -> (r: HelperRequest)
    ensures
        asks_to_stage(transaction, staging_id, bytes, r),
{
    HelperRequest::Stage {
        generation: transaction.generation,
        transaction_id: hyphenate_uuid(transaction.transaction_id),
        staging_id: hyphenate_uuid(staging_id),
        bytes,
    }
}

/// The artifact that a response stands for.
pub open spec fn staged_model(response: HelperResponse) -> Option<StagedModel> {
    match response {
        HelperResponse::Staged { generation, transaction_id, staging_id, path, bytes, sha256 } =>
            match (uuid_value(transaction_id@), uuid_value(staging_id@)) {
                (Some(transaction), Some(staging)) => Some(
                    StagedModel {
                        transaction: ConfigTransactionIdentity {
                            generation,
                            transaction_id: transaction,
                        },
                        staging_id: staging,
                        path: path@,
                        bytes,
                        sha256: sha256@,
                    },
                ),
                _ => None,
            },
        _ => None,
    }
}

impl StagedArtifact {
    /// The artifact that a response and a look at its file give.
    pub open spec fn made_from(
        response: HelperResponse,
        captured: Option<FileReceiptModel>,
        r: Option<StagedArtifact>,
    ) -> bool {
        match staged_model(response) {
            Some(model) => if model.found(captured) {
                r is Some && r->0@ == model
            } else {
                r is None
            },
            None => r is None,
        }
    }

    /// The artifact that a helper has staged. Its file, as it was captured,
    /// must have the size and digest that the helper reported.
    pub fn from_helper(response: HelperResponse, captured: Option<FileReceipt>) -> (r: Option<
        StagedArtifact,
    >)
        ensures
            Self::made_from(response, receipt_option(captured), r),
    {
        match response {
            HelperResponse::Staged {
                generation,
                transaction_id,
                staging_id,
                path,
                bytes,
                sha256,
            } => {
                match (parse_uuid(transaction_id.as_str()), parse_uuid(staging_id.as_str())) {
                    (Some(transaction), Some(staging)) => {
                        let artifact = StagedArtifact {
                            transaction: ConfigTransactionIdentity {
                                generation,
                                transaction_id: transaction,
                            },
                            staging_id: staging,
                            path,
                            bytes,
                            sha256,
                        };
                        if artifact.read_exact(captured).is_some() {
                            Some(artifact)
                        } else {
                            None
                        }
                    },
                    _ => None,
                }
            },
            _ => None,
        }
    }
}

/// The size and digest of a file.
#[derive(Debug, PartialEq, Eq)]
pub struct HashReceipt {
    pub bytes: u64,
    pub sha256: String,
}

/// The receipt that a response stands for.
pub open spec fn receipt_in(response: HelperResponse) -> Result<HashReceipt, HelperPoolError> {
    match response {
        HelperResponse::Hashed { bytes, sha256 } => Ok::<HashReceipt, HelperPoolError>(
            HashReceipt { bytes, sha256 },
        ),
        _ => Err::<HashReceipt, HelperPoolError>(HelperPoolError::FailedClosed),
    }
}

/// The receipt that a response stands for.
pub fn hash_receipt(response: HelperResponse) -> (r: Result<HashReceipt, HelperPoolError>)
    ensures
        r == receipt_in(response),
{
    match response {
        HelperResponse::Hashed { bytes, sha256 } => Ok(HashReceipt { bytes, sha256 }),
        _ => Err(HelperPoolError::FailedClosed),
    }
}

/// The program that helpers run.
#[derive(Debug, PartialEq, Eq)]
pub struct HelperProgram {
    pub executable: String,
    pub arguments: Vec<String>,
    pub installed_sibling: bool,
}

impl HelperProgram {
    pub fn new(executable: String, arguments: Vec<String>) -> (r: Self)
        ensures
            r == (HelperProgram { executable, arguments, installed_sibling: false }),
    {
        HelperProgram { executable, arguments, installed_sibling: false }
    }

    /// The helper that is installed in the directory of the current program.
    pub fn sibling(executable: String) -> (r: Self)
        ensures
            r.executable == executable,
            r.arguments@.len() == 0,
            r.installed_sibling,
    {
        HelperProgram { executable, arguments: Vec::new(), installed_sibling: true }
    }

    /// The program may be run.
    pub open spec fn runnable(
        self,
        components: Seq<FileFacts>,
        facts: FileFacts,
        resolved_parent: Seq<char>,
        current_parent: Seq<char>,
    ) -> bool {
        &&& forall|i: int|
            0 <= i < components.len() ==> !(#[trigger] components[i]).is_symlink
                && !components[i].is_reparse
        &&& facts.plain_file()
        &&& self.installed_sibling ==> resolved_parent == current_parent
    }

    /// Decides whether the program may be run: no component of its path leads
    /// elsewhere, it is a regular file, and an installed sibling resolves into
    /// the directory of the current program.
    pub fn may_run(
        &self,
        components: &Vec<FileFacts>,
        facts: FileFacts,
        resolved_parent: &str,
        current_parent: &str,
    ) -> (r: bool)
        ensures
            r == self.runnable(components@, facts, resolved_parent@, current_parent@),
    {
        ensure_no_redirects(components) && facts.is_plain_file() && (!self.installed_sibling
            || same_text(resolved_parent, current_parent))
    }
}

/// How far a job has come with its helper.
#[derive(Debug, Clone, Copy, PartialEq, Eq, Structural)]
pub enum HelperRunPhase {
    Writing,
    Reading,
}

/// What happened to a job that has a helper.
#[derive(Debug)]
pub enum HelperRunEvent {
    ShuttingDown,
    TimedOut,
    /// The request was written, or could not be.
    Written(bool),
    /// A frame was read and decoded, or could not be.
    Answered(Option<HelperResponseEnvelope>),
}

/// What becomes of a job that has a helper.
#[derive(Debug)]
pub enum HelperRunStep {
    /// Read the response.
    Read,
    /// Terminate the helper; the job ends with the error.
    Terminate(HelperPoolError),
    /// The helper goes back; the job ends with the response.
    Return(HelperResponse),
}

/// What becomes of a job with a helper.
pub open spec fn runs(phase: HelperRunPhase, event: HelperRunEvent, request_id: Seq<char>, r: HelperRunStep) -> bool {
    match event {
        HelperRunEvent::ShuttingDown => r == HelperRunStep::Terminate(
            HelperPoolError::ShuttingDown,
        ),
        HelperRunEvent::TimedOut => r == HelperRunStep::Terminate(HelperPoolError::TimedOut),
        HelperRunEvent::Written(written) => if written && phase == HelperRunPhase::Writing {
            r is Read
        } else {
            r == HelperRunStep::Terminate(HelperPoolError::FailedClosed)
        },
        HelperRunEvent::Answered(answer) => if phase == HelperRunPhase::Reading
            && answer is Some && answer->0.protocol_version == HELPER_PROTOCOL_VERSION
            && answer->0.request_id@ == request_id {
            r == HelperRunStep::Return(answer->0.response)
        } else {
            r == HelperRunStep::Terminate(HelperPoolError::FailedClosed)
        },
    }
}

/// One step of a job with its helper: a shutdown or the deadline ends it, and
/// so does anything but the answer to the very request.
pub fn run_helper_step(phase: HelperRunPhase, event: HelperRunEvent, request_id: &str) -> (r:
    HelperRunStep)
    ensures
        runs(phase, event, request_id@, r),
{
    match event {
        HelperRunEvent::ShuttingDown => HelperRunStep::Terminate(HelperPoolError::ShuttingDown),
        HelperRunEvent::TimedOut => HelperRunStep::Terminate(HelperPoolError::TimedOut),
        HelperRunEvent::Written(written) => {
            if written && phase == HelperRunPhase::Writing {
                HelperRunStep::Read
            } else {
                HelperRunStep::Terminate(HelperPoolError::FailedClosed)
            }
        },
        HelperRunEvent::Answered(answer) => {
            if phase != HelperRunPhase::Reading {
                return HelperRunStep::Terminate(HelperPoolError::FailedClosed);
            }
            match answer {
                Some(envelope) => match open_response(envelope, request_id) {
                    Ok(response) => HelperRunStep::Return(response),
                    Err(e) => HelperRunStep::Terminate(e),
                },
                None => HelperRunStep::Terminate(HelperPoolError::FailedClosed),
            }
        },
    }
}

/// What the helper program was started for.
#[derive(Debug, PartialEq, Eq)]
pub enum HelperCommand {
    Version,
    OrdinaryPanic,
    /// Hold for a number of milliseconds.
    Hold { millis: u64 },
    /// Hold for what is no number of milliseconds.
    BadHold,
    /// Serve requests.
    Serve,
    Unsupported,
}

/// The line that the helper program answers a version question with.
pub const HELPER_VERSION_LINE: &'static str = "adobepy-bootstrap-helper/1";

/// What the arguments of the helper program ask for.
pub open spec fn commands(args: Seq<String>, r: HelperCommand) -> bool {
    if args.len() == 1 && args[0]@ == "--version"@ {
        r is Version
    } else if args.len() == 1 && args[0]@ == "--ordinary-panic"@ {
        r is OrdinaryPanic
    } else if args.len() == 2 && args[0]@ == "--hold-ms"@ {
        match unsigned_value(args[1]@) {
            Some(millis) => r == (HelperCommand::Hold { millis }),
            None => r is BadHold,
        }
    } else if args.len() == 0 {
        r is Serve
    } else {
        r is Unsupported
    }
}

/// Reads the arguments of the helper program.
pub fn helper_command(arguments: &Vec<String>) -> (r: HelperCommand)
    ensures
        commands(arguments@, r),
{
    if arguments.len() == 1 && same_text(arguments[0].as_str(), "--version") {
        HelperCommand::Version
    } else if arguments.len() == 1 && same_text(arguments[0].as_str(), "--ordinary-panic") {
        HelperCommand::OrdinaryPanic
    } else if arguments.len() == 2 && same_text(arguments[0].as_str(), "--hold-ms") {
        match parse_unsigned(arguments[1].as_str()) {
            Some(millis) => HelperCommand::Hold { millis },
            None => HelperCommand::BadHold,
        }
    } else if arguments.len() == 0 {
        HelperCommand::Serve
    } else {
        HelperCommand::Unsupported
    }
}

} // verus!
