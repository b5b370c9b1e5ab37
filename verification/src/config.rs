//! Transactions on one configuration file. One lease at a time may change the
//! file; it changes only what it has seen, and it undoes only what it wrote.
use vstd::prelude::*;

use crate::bytes::{bytes_option, copy_bytes, copy_bytes_option, same_bytes, same_bytes_option};
use crate::files::{
    clone_receipt_option, receipt_option, same_receipt_option, FileReceipt, FileReceiptModel,
};
use crate::outside::{draw_uuid, is_random_uuid};
use crate::text::same_text;

verus! {

/// Names one lease among all leases of an owner.
#[derive(Debug, Clone, Copy, PartialEq, Eq, Structural)]
pub struct ConfigTransactionIdentity {
    pub generation: u64,
    pub transaction_id: u128,
}

impl ConfigTransactionIdentity {
    pub fn generation(self) -> (r: u64)
        ensures
            r == self.generation,
    {
        self.generation
    }

    pub fn transaction_id(self) -> (r: u128)
        ensures
            r == self.transaction_id,
    {
        self.transaction_id
    }
}

/// Says that a transaction has come to rest.
#[derive(Debug, Clone, Copy, PartialEq, Eq, Structural)]
pub struct QuiescenceAck {
    pub generation: u64,
}

/// Why a step of a transaction was refused.
#[derive(Debug, Clone, Copy, PartialEq, Eq, Structural)]
pub enum ConfigTransactionError {
    Stale,
    Busy,
    IdentityChanged,
    Io,
}

impl ConfigTransactionError {
    /// The error as a sentence.
    pub open spec fn sentence(self) -> Seq<char> {
        match self {
            ConfigTransactionError::Stale => "configuration transaction is stale"@,
            ConfigTransactionError::Busy => "configuration is owned by another transaction"@,
            ConfigTransactionError::IdentityChanged => "configuration identity changed"@,
            ConfigTransactionError::Io => "configuration transaction I/O failed"@,
        }
    }

    /// The error as a sentence.
    pub fn message(&self) -> (r: &'static str)
        ensures
            r@ == self.sentence(),
    {
        match self {
            ConfigTransactionError::Stale => "configuration transaction is stale",
            ConfigTransactionError::Busy => "configuration is owned by another transaction",
            ConfigTransactionError::IdentityChanged => "configuration identity changed",
            ConfigTransactionError::Io => "configuration transaction I/O failed",
        }
    }
}

/// Where a transaction stands.
#[derive(Debug, Clone, Copy, PartialEq, Eq, Structural)]
pub enum ConfigPhase {
    Active,
    PendingPublication,
    Published,
    RollingBack,
    Activating,
    Finalizing,
    Confirming,
}

/// The owner's record of a lease.
#[derive(Debug)]
pub struct ActiveConfigLease {
    pub identity: ConfigTransactionIdentity,
    pub valid: bool,
    pub phase: ConfigPhase,
    pub destination: String,
    /// The file as it was when the lease began.
    pub expected: FileReceipt,
    /// What the lease last set out to write.
    pub attempted: Option<Vec<u8>>,
    /// What the lease last wrote.
    pub written: Option<FileReceipt>,
}

/// The mathematical value behind an [`ActiveConfigLease`].
#[verifier::ext_equal]
pub struct LeaseModel {
    pub identity: ConfigTransactionIdentity,
    pub valid: bool,
    pub phase: ConfigPhase,
    pub destination: Seq<char>,
    pub expected: FileReceiptModel,
    pub attempted: Option<Seq<u8>>,
    pub written: Option<FileReceiptModel>,
}

impl View for ActiveConfigLease {
    type V = LeaseModel;

    open spec fn view(&self) -> LeaseModel {
        LeaseModel {
            identity: self.identity,
            valid: self.valid,
            phase: self.phase,
            destination: self.destination@,
            expected: self.expected@,
            attempted: bytes_option(self.attempted),
            written: receipt_option(self.written),
        }
    }
}

/// The owner of one configuration file.
#[derive(Debug)]
pub struct ConfigTransactionOwner {
    pub next_generation: u64,
    pub active: Option<ActiveConfigLease>,
    pub pending_publication: Option<ActiveConfigLease>,
}

/// The mathematical value behind a [`ConfigTransactionOwner`].
#[verifier::ext_equal]
pub struct OwnerModel {
    pub next_generation: u64,
    pub active: Option<LeaseModel>,
    pub pending: Option<LeaseModel>,
}

/// The view of an optional lease record.
pub open spec fn lease_option(o: Option<ActiveConfigLease>) -> Option<LeaseModel> {
    match o {
        Some(lease) => Some(lease@),
        None => None,
    }
}

impl View for ConfigTransactionOwner {
    type V = OwnerModel;

    open spec fn view(&self) -> OwnerModel {
        OwnerModel {
            next_generation: self.next_generation,
            active: lease_option(self.active),
            pending: lease_option(self.pending_publication),
        }
    }
}

/// The lease may still change the file, or has changed it without publishing.
pub open spec fn lease_busy(lease: Option<LeaseModel>) -> bool {
    match lease {
        Some(lease) => lease.phase != ConfigPhase::Published && (lease.valid
            || lease.attempted is Some || lease.written is Some),
        None => false,
    }
}

/// The lease has come to rest.
pub open spec fn lease_quiet(lease: Option<LeaseModel>) -> bool {
    match lease {
        Some(lease) => lease.phase == ConfigPhase::Published || (!lease.valid
            && lease.attempted is None && lease.written is None),
        None => true,
    }
}

/// The record is that of the lease, and the lease is valid.
pub open spec fn is_lease(record: Option<LeaseModel>, id: ConfigTransactionIdentity) -> bool {
    record is Some && record->0.identity == id && record->0.valid
}

/// The record of a lease that has just begun.
pub open spec fn fresh_lease(
    id: ConfigTransactionIdentity,
    destination: Seq<char>,
    expected: FileReceiptModel,
) -> LeaseModel {
    LeaseModel {
        identity: id,
        valid: true,
        phase: ConfigPhase::Active,
        destination,
        expected,
        attempted: None,
        written: None,
    }
}

impl OwnerModel {
    /// No lease can still change the file.
    pub open spec fn quiescent(self) -> bool {
        lease_quiet(self.active) && lease_quiet(self.pending)
    }

    /// At most one lease is on record.
    pub open spec fn exclusive(self) -> bool {
        self.active is None || self.pending is None
    }

    /// The lease is valid, as the active one or as the one awaiting publication.
    pub open spec fn alive(self, id: ConfigTransactionIdentity) -> bool {
        is_lease(self.active, id) || is_lease(self.pending, id)
    }

    /// The owner with another record of its active lease.
    pub open spec fn with_active(self, lease: LeaseModel) -> OwnerModel {
        OwnerModel { active: Some(lease), ..self }
    }

    /// The owner without the lease, where it is the active one.
    pub open spec fn without(self, id: ConfigTransactionIdentity) -> OwnerModel {
        if is_lease(self.active, id) {
            OwnerModel { active: None, ..self }
        } else {
            self
        }
    }

    /// Whether a lease can be reserved.
    pub open spec fn reserve_fault(self, destination: Seq<char>, expected: FileReceiptModel) -> Option<
        ConfigTransactionError,
    > {
        if destination != expected.path {
            Some(ConfigTransactionError::IdentityChanged)
        } else if self.next_generation == u64::MAX {
            Some(ConfigTransactionError::Io)
        } else if lease_busy(self.active) || lease_busy(self.pending) {
            Some(ConfigTransactionError::Busy)
        } else {
            None
        }
    }

    /// Whether a reserved lease can begin: the file is still as expected.
    pub open spec fn begin_fault(
        self,
        id: ConfigTransactionIdentity,
        expected: FileReceiptModel,
        captured: Option<FileReceiptModel>,
    ) -> Option<ConfigTransactionError> {
        if captured is None {
            Some(ConfigTransactionError::Io)
        } else if captured->0 != expected {
            Some(ConfigTransactionError::IdentityChanged)
        } else if self.next_generation + 1 != id.generation {
            Some(ConfigTransactionError::Io)
        } else {
            None
        }
    }

    /// Whether a lease can set out to activate a staged file with this content.
    pub open spec fn activate_fault(
        self,
        id: ConfigTransactionIdentity,
        staged: StagedModel,
        captured: Option<FileReceiptModel>,
    ) -> Option<ConfigTransactionError> {
        if staged.transaction != id || !self.alive(id) {
            Some(ConfigTransactionError::Stale)
        } else if !staged.found(captured) {
            Some(ConfigTransactionError::IdentityChanged)
        } else if !is_lease(self.active, id) {
            Some(ConfigTransactionError::Stale)
        } else if self.active->0.phase != ConfigPhase::Active {
            Some(ConfigTransactionError::Busy)
        } else {
            None
        }
    }

    /// Whether a lease can set out to commit.
    pub open spec fn prepare_commit_fault(self, id: ConfigTransactionIdentity) -> Option<
        ConfigTransactionError,
    > {
        if !self.alive(id) {
            Some(ConfigTransactionError::Stale)
        } else if self.pending is Some {
            Some(ConfigTransactionError::Busy)
        } else if !is_lease(self.active, id) || self.active->0.written is None {
            Some(ConfigTransactionError::Stale)
        } else if self.active->0.phase != ConfigPhase::Active {
            Some(ConfigTransactionError::Busy)
        } else {
            None
        }
    }

    /// Whether the outcome of a write can be entered: the receipt is that of
    /// the written content at the destination, and the lease still waits for
    /// this very write.
    pub open spec fn complete_fault(
        self,
        id: ConfigTransactionIdentity,
        write: WriteModel,
        commit: bool,
        written: Option<FileReceiptModel>,
    ) -> Option<ConfigTransactionError> {
        let active = self.active->0;
        if written is None || written->0.path != write.destination || written->0.bytes != Some(
            write.bytes,
        ) {
            Some(ConfigTransactionError::IdentityChanged)
        } else if !is_lease(self.active, id) || active.destination != write.destination
            || active.attempted != Some(write.bytes) || (if commit {
            active.written != Some(write.expected) || active.phase != ConfigPhase::Finalizing
        } else {
            active.expected != write.expected || active.phase != ConfigPhase::Activating
        }) {
            Some(ConfigTransactionError::Stale)
        } else {
            None
        }
    }

    /// Whether a commit can be confirmed: the lease is the active one, the
    /// receipt is that of its last write, and the file was found to be so.
    pub open spec fn confirmation_fault(
        self,
        id: ConfigTransactionIdentity,
        expected: FileReceiptModel,
        captured: Option<FileReceiptModel>,
    ) -> Option<ConfigTransactionError> {
        if !is_lease(self.active, id) {
            Some(ConfigTransactionError::Stale)
        } else if self.active->0.written != Some(expected) || self.active->0.phase
            != ConfigPhase::Active || captured != Some(expected) {
            Some(ConfigTransactionError::IdentityChanged)
        } else {
            None
        }
    }

    /// Whether the confirmation of a commit can begin.
    pub open spec fn confirm_fault(
        self,
        id: ConfigTransactionIdentity,
        transaction: ConfigTransactionIdentity,
        expected: FileReceiptModel,
    ) -> Option<ConfigTransactionError> {
        if transaction != id || !is_lease(self.active, id) {
            Some(ConfigTransactionError::Stale)
        } else if self.active->0.written != Some(expected) {
            Some(ConfigTransactionError::IdentityChanged)
        } else if self.active->0.phase != ConfigPhase::Active {
            Some(ConfigTransactionError::Stale)
        } else {
            None
        }
    }

    /// Whether the confirmation of a commit succeeds.
    pub open spec fn confirmed_fault(
        self,
        id: ConfigTransactionIdentity,
        destination: Seq<char>,
        expected: FileReceiptModel,
        captured: Option<FileReceiptModel>,
    ) -> Option<ConfigTransactionError> {
        if captured is None {
            Some(ConfigTransactionError::IdentityChanged)
        } else if !is_lease(self.active, id) {
            Some(ConfigTransactionError::Stale)
        } else if self.active->0.destination != destination || self.active->0.written != Some(
            expected,
        ) || captured->0 != expected {
            Some(ConfigTransactionError::IdentityChanged)
        } else if self.active->0.phase != ConfigPhase::Confirming {
            Some(ConfigTransactionError::Stale)
        } else {
            None
        }
    }

    /// The transaction waits for its publication.
    pub open spec fn publishable(self, id: ConfigTransactionIdentity) -> bool {
        self.pending is Some && self.pending->0.identity == id && self.pending->0.phase
            == ConfigPhase::PendingPublication
    }

    /// The record that a rollback of the lease is about.
    pub open spec fn rollback_record(self, pending: bool) -> Option<LeaseModel> {
        if pending {
            self.pending
        } else {
            self.active
        }
    }

    /// The owner with another record, where a rollback is about it.
    pub open spec fn with_rollback_record(self, pending: bool, record: Option<LeaseModel>) -> OwnerModel {
        if pending {
            OwnerModel { pending: record, ..self }
        } else {
            OwnerModel { active: record, ..self }
        }
    }

    /// Whether a rollback can begin.
    pub open spec fn rollback_fault(self, id: ConfigTransactionIdentity) -> Option<
        ConfigTransactionError,
    > {
        let record = self.rollback_record(is_lease(self.pending, id));
        if !self.alive(id) || record->0.phase == ConfigPhase::Published || record->0.phase
            == ConfigPhase::RollingBack {
            Some(ConfigTransactionError::Stale)
        } else {
            None
        }
    }

    /// Whether a rollback can be entered as done.
    pub open spec fn rolled_back_fault(
        self,
        id: ConfigTransactionIdentity,
        plan: RollbackModel,
        restored: bool,
    ) -> Option<ConfigTransactionError> {
        let record = self.rollback_record(plan.pending);
        if !restored {
            Some(ConfigTransactionError::Io)
        } else if record is None || record->0.identity != id || record->0.destination
            != plan.destination || record->0.expected != plan.expected || record->0.attempted
            != plan.attempted || record->0.written != plan.written || record->0.phase
            != ConfigPhase::RollingBack {
            Some(ConfigTransactionError::Stale)
        } else {
            None
        }
    }

    /// Whether a lease can be given up without a trace.
    pub open spec fn revoke_fault(self, id: ConfigTransactionIdentity) -> Option<
        ConfigTransactionError,
    > {
        if !is_lease(self.active, id) {
            Some(ConfigTransactionError::Stale)
        } else if self.active->0.phase != ConfigPhase::Active || self.active->0.written is Some
            || self.active->0.attempted is Some {
            Some(ConfigTransactionError::Busy)
        } else {
            None
        }
    }

    /// The owner after a lease was abandoned.
    pub open spec fn abandoned(self, id: ConfigTransactionIdentity) -> OwnerModel {
        OwnerModel {
            active: invalidated(self.active, id),
            pending: invalidated(self.pending, id),
            ..self
        }
    }
}

/// The record, no longer valid where it is that of the lease.
pub open spec fn invalidated(record: Option<LeaseModel>, id: ConfigTransactionIdentity) -> Option<
    LeaseModel,
> {
    match record {
        Some(lease) => if lease.identity == id {
            Some(LeaseModel { valid: false, ..lease })
        } else {
            record
        },
        None => None,
    }
}

/// A file that a helper has staged for one transaction.
#[derive(Debug, PartialEq, Eq)]
pub struct StagedArtifact {
    pub transaction: ConfigTransactionIdentity,
    pub staging_id: u128,
    pub path: String,
    pub bytes: u64,
    pub sha256: String,
}

/// The mathematical value behind a [`StagedArtifact`].
#[verifier::ext_equal]
pub struct StagedModel {
    pub transaction: ConfigTransactionIdentity,
    pub staging_id: u128,
    pub path: Seq<char>,
    pub bytes: u64,
    pub sha256: Seq<char>,
}

impl View for StagedArtifact {
    type V = StagedModel;

    open spec fn view(&self) -> StagedModel {
        StagedModel {
            transaction: self.transaction,
            staging_id: self.staging_id,
            path: self.path@,
            bytes: self.bytes,
            sha256: self.sha256@,
        }
    }
}

impl StagedModel {
    /// The staged file was found with the size and digest it was staged with.
    pub open spec fn found(self, captured: Option<FileReceiptModel>) -> bool {
        captured is Some && captured->0.bytes is Some && captured->0.bytes->0.len() == self.bytes
            && captured->0.sha256 == Some(self.sha256)
    }
}

/// What the artifact for a captured file is: there is one where the file was
/// there, and the file is still found by it.
pub open spec fn staged(
    transaction: ConfigTransactionIdentity,
    staging_id: u128,
    receipt: FileReceiptModel,
    r: Option<StagedArtifact>,
) -> bool {
    match r {
        Some(artifact) => receipt.bytes is Some && receipt.sha256 is Some && artifact@ == (
        StagedModel {
            transaction,
            staging_id,
            path: receipt.path,
            bytes: receipt.bytes->0.len() as u64,
            sha256: receipt.sha256->0,
        }) && artifact@.found(Some(receipt)),
        None => receipt.bytes is None || receipt.sha256 is None,
    }
}

impl StagedArtifact {
    /// The artifact for a file that was just captured, under an identifier
    /// left to chance.
    pub fn capture(transaction: ConfigTransactionIdentity, receipt: FileReceipt) -> (r: Option<
        StagedArtifact,
    >)
        ensures
            exists|id: u128| #[trigger]
                is_random_uuid(id) && staged(transaction, id, receipt@, r),
    {
        let id: u128 = draw_uuid();
        Self::capture_as(transaction, id, receipt)
    }

    /// The artifact for a file that was just captured, under the given
    /// identifier.
    pub fn capture_as(
        transaction: ConfigTransactionIdentity,
        staging_id: u128,
        receipt: FileReceipt,
    ) -> (r: Option<StagedArtifact>)
        ensures
            staged(transaction, staging_id, receipt@, r),
    {
        let (path, content) = receipt.into_parts();
        match content {
            Some((bytes, sha256)) => Some(
                StagedArtifact {
                    transaction,
                    staging_id,
                    path,
                    bytes: bytes.len() as u64,
                    sha256,
                },
            ),
            None => None,
        }
    }

    /// What reading the staged file gives.
    pub open spec fn reads_exactly(self, captured: Option<FileReceipt>, r: Option<Vec<u8>>) -> bool {
        match r {
            Some(bytes) => self@.found(receipt_option(captured)) && Some(bytes@)
                == captured->0@.bytes,
            None => !self@.found(receipt_option(captured)),
        }
    }

    /// The content of the staged file, where it was found unchanged.
    pub fn read_exact(&self, captured: Option<FileReceipt>) -> (r: Option<Vec<u8>>)
        ensures
            self.reads_exactly(captured, r),
    {
        let receipt = match captured {
            Some(receipt) => receipt,
            None => {
                return None;
            },
        };
        match receipt.into_parts().1 {
            Some((bytes, sha256)) => {
                if bytes.len() as u64 == self.bytes && sha256 == self.sha256 {
                    Some(bytes)
                } else {
                    None
                }
            },
            None => None,
        }
    }
}

/// A write that a lease has set out to do. It is done only where the file is
/// still found as `expected`.
#[derive(Debug)]
pub struct ConfigWrite {
    pub destination: String,
    pub expected: FileReceipt,
    pub bytes: Vec<u8>,
}

/// The mathematical value behind a [`ConfigWrite`].
#[verifier::ext_equal]
pub struct WriteModel {
    pub destination: Seq<char>,
    pub expected: FileReceiptModel,
    pub bytes: Seq<u8>,
}

impl View for ConfigWrite {
    type V = WriteModel;

    open spec fn view(&self) -> WriteModel {
        WriteModel {
            destination: self.destination@,
            expected: self.expected@,
            bytes: self.bytes@,
        }
    }
}

impl WriteModel {
    /// Whether the write may be done on a file that is found as `captured`.
    pub open spec fn authorization(self, captured: Option<FileReceiptModel>, cancelled: bool) -> Result<
        (),
        ConfigTransactionError,
    > {
        if captured is None {
            Err(ConfigTransactionError::Io)
        } else if captured->0 != self.expected {
            Err(ConfigTransactionError::IdentityChanged)
        } else if cancelled {
            Err(ConfigTransactionError::Stale)
        } else {
            Ok(())
        }
    }
}

impl ConfigWrite {
    /// The last look before the write.
    pub fn authorize(&self, captured: &Option<FileReceipt>, cancelled: bool) -> (r: Result<
        (),
        ConfigTransactionError,
    >)
        ensures
            r == self@.authorization(receipt_option(*captured), cancelled),
    {
        match captured {
            None => Err(ConfigTransactionError::Io),
            Some(current) => if !current.same(&self.expected) {
                Err(ConfigTransactionError::IdentityChanged)
            } else if cancelled {
                Err(ConfigTransactionError::Stale)
            } else {
                Ok(())
            },
        }
    }
}

/// A reserved lease whose file is about to be looked at.
#[derive(Debug)]
pub struct ConfigReservation {
    pub identity: ConfigTransactionIdentity,
    pub expected: FileReceipt,
}

/// Linear proof that the exact committed file was recaptured while rollback
/// ownership was still active. Dropping it leaves the lease able to roll back.
#[derive(Debug)]
#[must_use]
pub struct ConfigCommitConfirmation {
    pub transaction: ConfigTransactionIdentity,
    pub expected: FileReceipt,
}

/// A confirmation whose file is about to be looked at for the last time.
#[derive(Debug)]
#[must_use]
pub struct ConfirmingCommit {
    pub destination: String,
    pub expected: FileReceipt,
}

/// Linear permission to publish a confirmed transaction.
#[derive(Debug)]
#[must_use]
pub struct ConfigPublicationPermit {
    pub transaction: ConfigTransactionIdentity,
}

/// A rollback that has begun.
#[derive(Debug)]
#[must_use]
pub struct ConfigRollback {
    pub pending: bool,
    pub destination: String,
    pub expected: FileReceipt,
    pub attempted: Option<Vec<u8>>,
    pub written: Option<FileReceipt>,
}

/// The mathematical value behind a [`ConfigRollback`].
#[verifier::ext_equal]
pub struct RollbackModel {
    pub pending: bool,
    pub destination: Seq<char>,
    pub expected: FileReceiptModel,
    pub attempted: Option<Seq<u8>>,
    pub written: Option<FileReceiptModel>,
}

impl View for ConfigRollback {
    type V = RollbackModel;

    open spec fn view(&self) -> RollbackModel {
        RollbackModel {
            pending: self.pending,
            destination: self.destination@,
            expected: self.expected@,
            attempted: bytes_option(self.attempted),
            written: receipt_option(self.written),
        }
    }
}

/// How a file is brought back to what it was.
#[derive(Debug)]
pub enum Restore {
    /// The file is already as it was.
    Nothing,
    /// Write the old content over the file that is found as `over`.
    Write { over: FileReceipt, bytes: Vec<u8> },
    /// Remove the file that is found as `over`.
    Remove { over: FileReceipt },
}

/// The mathematical value behind a [`Restore`].
pub enum RestoreModel {
    Nothing,
    Write { over: FileReceiptModel, bytes: Seq<u8> },
    Remove { over: FileReceiptModel },
}

impl View for Restore {
    type V = RestoreModel;

    open spec fn view(&self) -> RestoreModel {
        match self {
            Restore::Nothing => RestoreModel::Nothing,
            Restore::Write { over, bytes } => RestoreModel::Write { over: over@, bytes: bytes@ },
            Restore::Remove { over } => RestoreModel::Remove { over: over@ },
        }
    }
}

/// How a file that is found as `over` is brought back to `expected`.
pub open spec fn restore_of(over: FileReceiptModel, expected: FileReceiptModel) -> RestoreModel {
    match expected.bytes {
        Some(bytes) => RestoreModel::Write { over, bytes },
        None => RestoreModel::Remove { over },
    }
}

impl RollbackModel {
    /// How the rollback is done on a file that is found as `captured`: only
    /// what the lease wrote, or was writing, is undone.
    pub open spec fn decision(self, captured: Option<FileReceiptModel>) -> Result<
        RestoreModel,
        ConfigTransactionError,
    > {
        if captured is None {
            Err(ConfigTransactionError::Io)
        } else if self.written is Some {
            if captured->0 != self.written->0 {
                Err(ConfigTransactionError::IdentityChanged)
            } else {
                Ok(restore_of(self.written->0, self.expected))
            }
        } else if self.attempted is Some && captured->0 != self.expected {
            if captured->0.path != self.destination || captured->0.identity
                != self.expected.identity || captured->0.bytes != self.attempted {
                Err(ConfigTransactionError::IdentityChanged)
            } else {
                Ok(restore_of(captured->0, self.expected))
            }
        } else {
            Ok(RestoreModel::Nothing)
        }
    }
}

fn restore_over(over: FileReceipt, expected: &FileReceipt) -> (r: Restore)
    ensures
        r@ == restore_of(over@, expected@),
{
    match expected.bytes() {
        Some(bytes) => Restore::Write { over, bytes: copy_bytes(bytes) },
        None => Restore::Remove { over },
    }
}

impl ConfigRollback {
    /// Decides how the rollback is done.
    pub fn decide(&self, captured: Option<FileReceipt>) -> (r: Result<
        Restore,
        ConfigTransactionError,
    >)
        ensures
            match self@.decision(receipt_option(captured)) {
                Ok(model) => r is Ok && r->Ok_0@ == model,
                Err(e) => r == Err::<Restore, ConfigTransactionError>(e),
            },
    {
        let current = match captured {
            Some(current) => current,
            None => {
                return Err(ConfigTransactionError::Io);
            },
        };
        match &self.written {
            Some(written) => {
                if !current.same(written) {
                    return Err(ConfigTransactionError::IdentityChanged);
                }
                Ok(restore_over(current, &self.expected))
            },
            None => {
                if self.attempted.is_none() || current.same(&self.expected) {
                    return Ok(Restore::Nothing);
                }
                if !same_text(current.path(), self.destination.as_str()) || current.identity()
                    != self.expected.identity() || !current.holds(&self.attempted) {
                    return Err(ConfigTransactionError::IdentityChanged);
                }
                Ok(restore_over(current, &self.expected))
            },
        }
    }
}

fn lease_is_busy(lease: &Option<ActiveConfigLease>) -> (r: bool)
    ensures
        r == lease_busy(lease_option(*lease)),
{
    match lease {
        Some(lease) => lease.phase != ConfigPhase::Published && (lease.valid
            || lease.attempted.is_some() || lease.written.is_some()),
        None => false,
    }
}

fn lease_is_quiescent(lease: &Option<ActiveConfigLease>) -> (r: bool)
    ensures
        r == lease_quiet(lease_option(*lease)),
{
    match lease {
        Some(lease) => lease.phase == ConfigPhase::Published || (!lease.valid
            && lease.attempted.is_none() && lease.written.is_none()),
        None => true,
    }
}

fn matches_lease(lease: &Option<ActiveConfigLease>, id: ConfigTransactionIdentity) -> (r: bool)
    ensures
        r == is_lease(lease_option(*lease), id),
{
    match lease {
        Some(lease) => lease.identity == id && lease.valid,
        None => false,
    }
}

fn invalidate(lease: &mut Option<ActiveConfigLease>, id: ConfigTransactionIdentity)
    ensures
        lease_option(*final(lease)) == invalidated(lease_option(*old(lease)), id),
{
    match lease.take() {
        Some(record) => {
            let valid = record.valid && record.identity != id;
            *lease = Some(ActiveConfigLease { valid, ..record });
        },
        None => {
            *lease = None;
        },
    }
}

impl Default for ConfigTransactionOwner {
    fn default() -> (r: Self)
        ensures
            r@ == (OwnerModel { next_generation: 0, active: None, pending: None }),
    {
        ConfigTransactionOwner { next_generation: 0, active: None, pending_publication: None }
    }
}

/// What reserving a file does: it is refused and nothing changes, or the new
/// lease is the only one.
pub open spec fn reserved(
    pre: OwnerModel,
    post: OwnerModel,
    destination: Seq<char>,
    expected: FileReceiptModel,
    transaction_id: u128,
    r: Result<ConfigReservation, ConfigTransactionError>,
) -> bool {
    match pre.reserve_fault(destination, expected) {
        Some(fault) => r == Err::<ConfigReservation, ConfigTransactionError>(fault) && post == pre,
        None => {
            let id = ConfigTransactionIdentity {
                generation: (pre.next_generation + 1) as u64,
                transaction_id,
            };
            &&& r is Ok
            &&& r->Ok_0.identity == id
            &&& r->Ok_0.expected@ == expected
            &&& post == (OwnerModel {
                active: Some(fresh_lease(id, destination, expected)),
                pending: None,
                ..pre
            })
        },
    }
}

/// What beginning a reserved lease does.
pub open spec fn begins(
    pre: OwnerModel,
    post: OwnerModel,
    id: ConfigTransactionIdentity,
    expected: FileReceiptModel,
    captured: Option<FileReceiptModel>,
    r: Result<ConfigLease, ConfigTransactionError>,
) -> bool {
    match pre.begin_fault(id, expected, captured) {
        Some(fault) => r == Err::<ConfigLease, ConfigTransactionError>(fault) && post
            == if captured is None {
            pre
        } else {
            pre.without(id)
        },
        None => r == Ok::<ConfigLease, ConfigTransactionError>(ConfigLease { identity: id })
            && post == (OwnerModel { next_generation: id.generation, ..pre }),
    }
}

/// What publishing a confirmed transaction does.
pub open spec fn publishes(
    pre: OwnerModel,
    post: OwnerModel,
    id: ConfigTransactionIdentity,
    r: Result<QuiescenceAck, ConfigTransactionError>,
) -> bool {
    if pre.publishable(id) {
        &&& r == Ok::<QuiescenceAck, ConfigTransactionError>(
            QuiescenceAck { generation: id.generation },
        )
        &&& post == (OwnerModel {
            pending: Some(
                LeaseModel { phase: ConfigPhase::Published, valid: false, ..pre.pending->0 },
            ),
            ..pre
        })
    } else {
        r == Err::<QuiescenceAck, ConfigTransactionError>(ConfigTransactionError::Stale) && post
            == pre
    }
}

impl ConfigTransactionOwner {
    /// No lease can still change the file.
    pub fn is_quiescent(&self) -> (r: bool)
        ensures
            r == self@.quiescent(),
    {
        lease_is_quiescent(&self.active) && lease_is_quiescent(&self.pending_publication)
    }

    /// Reserves the file at `destination`, which is absolute, for a new lease
    /// under an identifier left to chance.
    pub fn reserve(&mut self, destination: &str, expected: &FileReceipt) -> (r: Result<
        ConfigReservation,
        ConfigTransactionError,
    >)
        ensures
            old(self)@.exclusive() ==> final(self)@.exclusive(),
            exists|id: u128| #[trigger]
                is_random_uuid(id) && reserved(
                    old(self)@,
                    final(self)@,
                    destination@,
                    expected@,
                    id,
                    r,
                ),
    {
        let id: u128 = draw_uuid();
        self.reserve_as(destination, expected, id)
    }

    /// Reserves the file at `destination`, which is absolute, for a new lease
    /// under the given identifier.
    pub fn reserve_as(
        &mut self,
        destination: &str,
        expected: &FileReceipt,
        transaction_id: u128,
    ) -> (r: Result<ConfigReservation, ConfigTransactionError>)
        ensures
            old(self)@.exclusive() ==> final(self)@.exclusive(),
            reserved(old(self)@, final(self)@, destination@, expected@, transaction_id, r),
    {
        if !same_text(destination, expected.path()) {
            return Err(ConfigTransactionError::IdentityChanged);
        }
        if self.next_generation == u64::MAX {
            return Err(ConfigTransactionError::Io);
        }
        if lease_is_busy(&self.active) || lease_is_busy(&self.pending_publication) {
            return Err(ConfigTransactionError::Busy);
        }
        let identity = ConfigTransactionIdentity {
            generation: self.next_generation + 1,
            transaction_id,
        };
        self.pending_publication = None;
        self.active = Some(
            ActiveConfigLease {
                identity,
                valid: true,
                phase: ConfigPhase::Active,
                destination: destination.to_owned(),
                expected: expected.clone(),
                attempted: None,
                written: None,
            },
        );
        Ok(ConfigReservation { identity, expected: expected.clone() })
    }

    /// Begins the reserved lease after a look at its file. A file that could
    /// not be looked at leaves the reservation standing.
    pub fn begin(&mut self, reservation: ConfigReservation, captured: Option<FileReceipt>) -> (r:
        Result<ConfigLease, ConfigTransactionError>)
        ensures
            old(self)@.exclusive() ==> final(self)@.exclusive(),
            begins(
                old(self)@,
                final(self)@,
                reservation.identity,
                reservation.expected@,
                receipt_option(captured),
                r,
            ),
    {
        let current = match captured {
            Some(current) => current,
            None => {
                return Err(ConfigTransactionError::Io);
            },
        };
        let identity = reservation.identity;
        let unchanged = current.same(&reservation.expected);
        if !unchanged || self.next_generation == u64::MAX || self.next_generation + 1
            != identity.generation {
            if matches_lease(&self.active, identity) {
                self.active = None;
            }
            return Err(
                if unchanged {
                    ConfigTransactionError::Io
                } else {
                    ConfigTransactionError::IdentityChanged
                },
            );
        }
        self.next_generation = identity.generation;
        Ok(ConfigLease { identity })
    }

    fn enter_publication(&mut self, permit: ConfigPublicationPermit) -> (r: Result<
        QuiescenceAck,
        ConfigTransactionError,
    >)
        ensures
            old(self)@.exclusive() ==> final(self)@.exclusive(),
            publishes(old(self)@, final(self)@, permit.transaction, r),
    {
        match self.pending_publication.take() {
            Some(record) => {
                if record.identity == permit.transaction && record.phase
                    == ConfigPhase::PendingPublication {
                    self.pending_publication = Some(
                        ActiveConfigLease {
                            phase: ConfigPhase::Published,
                            valid: false,
                            ..record
                        },
                    );
                    Ok(QuiescenceAck { generation: permit.transaction.generation })
                } else {
                    self.pending_publication = Some(record);
                    Err(ConfigTransactionError::Stale)
                }
            },
            None => Err(ConfigTransactionError::Stale),
        }
    }
}

impl ConfigPublicationPermit {
    /// Publishes a confirmed transaction. The file is then no longer undone.
    pub fn publish(self, owner: &mut ConfigTransactionOwner) -> (r: Result<
        QuiescenceAck,
        ConfigTransactionError,
    >)
        ensures
            old(owner)@.exclusive() ==> final(owner)@.exclusive(),
            publishes(old(owner)@, final(owner)@, self.transaction, r),
    {
        owner.enter_publication(self)
    }
}

/// What setting out to activate a staged file does.
pub open spec fn activates(
    pre: OwnerModel,
    post: OwnerModel,
    id: ConfigTransactionIdentity,
    staged: StagedModel,
    found: Option<FileReceiptModel>,
    r: Result<ConfigWrite, ConfigTransactionError>,
) -> bool {
    match pre.activate_fault(id, staged, found) {
        Some(fault) => r == Err::<ConfigWrite, ConfigTransactionError>(fault) && post == pre,
        None => {
            &&& r is Ok
            &&& r->Ok_0@ == (WriteModel {
                destination: pre.active->0.destination,
                expected: pre.active->0.expected,
                bytes: found->0.bytes->0,
            })
            &&& post == pre.with_active(
                LeaseModel {
                    phase: ConfigPhase::Activating,
                    attempted: found->0.bytes,
                    ..pre.active->0
                },
            )
        },
    }
}

/// What setting out to activate with a last look at the file does.
pub open spec fn activates_at_once(
    pre: OwnerModel,
    post: OwnerModel,
    id: ConfigTransactionIdentity,
    staged: StagedModel,
    found: Option<FileReceiptModel>,
    current: Option<FileReceiptModel>,
    r: Result<ConfigWrite, ConfigTransactionError>,
) -> bool {
    match pre.activate_fault(id, staged, found) {
        Some(fault) => r == Err::<ConfigWrite, ConfigTransactionError>(fault) && post == pre,
        None => {
            &&& post == pre.with_active(
                LeaseModel {
                    phase: ConfigPhase::Activating,
                    attempted: found->0.bytes,
                    ..pre.active->0
                },
            )
            &&& if current is None {
                r == Err::<ConfigWrite, ConfigTransactionError>(
                    ConfigTransactionError::Io,
                )
            } else if current->0 != pre.active->0.expected {
                r == Err::<ConfigWrite, ConfigTransactionError>(
                    ConfigTransactionError::IdentityChanged,
                )
            } else {
                r is Ok && r->Ok_0@ == (WriteModel {
                    destination: pre.active->0.destination,
                    expected: pre.active->0.expected,
                    bytes: found->0.bytes->0,
                })
            }
        },
    }
}

/// What entering the outcome of an activation does.
pub open spec fn enters_activation(
    pre: OwnerModel,
    post: OwnerModel,
    id: ConfigTransactionIdentity,
    write: WriteModel,
    written: Option<FileReceiptModel>,
    r: Result<FileReceipt, ConfigTransactionError>,
) -> bool {
    match pre.complete_fault(id, write, false, written) {
        Some(fault) => r == Err::<FileReceipt, ConfigTransactionError>(fault) && post == pre,
        None => {
            &&& r is Ok
            &&& r->Ok_0@ == written->0
            &&& post == pre.with_active(
                LeaseModel {
                    phase: ConfigPhase::Active,
                    written: Some(written->0),
                    ..pre.active->0
                },
            )
        },
    }
}

/// What entering the outcome of a write does.
pub open spec fn enters_write(
    pre: OwnerModel,
    post: OwnerModel,
    id: ConfigTransactionIdentity,
    write: WriteModel,
    commit: bool,
    written: Option<FileReceiptModel>,
    r: Result<FileReceipt, ConfigTransactionError>,
) -> bool {
    match pre.complete_fault(id, write, commit, written) {
        Some(fault) => r == Err::<FileReceipt, ConfigTransactionError>(fault) && post == pre,
        None => {
            &&& r is Ok
            &&& r->Ok_0@ == written->0
            &&& post == pre.with_active(
                LeaseModel {
                    phase: ConfigPhase::Active,
                    written: Some(written->0),
                    ..pre.active->0
                },
            )
        },
    }
}

/// What setting out to commit does.
pub open spec fn sets_out_to_commit(
    pre: OwnerModel,
    post: OwnerModel,
    id: ConfigTransactionIdentity,
    committed: Seq<u8>,
    r: Result<ConfigWrite, ConfigTransactionError>,
) -> bool {
    match pre.prepare_commit_fault(id) {
        Some(fault) => r == Err::<ConfigWrite, ConfigTransactionError>(fault) && post == pre,
        None => {
            &&& r is Ok
            &&& r->Ok_0@ == (WriteModel {
                destination: pre.active->0.destination,
                expected: pre.active->0.written->0,
                bytes: committed,
            })
            &&& post == pre.with_active(
                LeaseModel {
                    phase: ConfigPhase::Finalizing,
                    attempted: Some(committed),
                    ..pre.active->0
                },
            )
        },
    }
}

/// What entering the outcome of a commit does.
pub open spec fn enters_commit(
    pre: OwnerModel,
    post: OwnerModel,
    id: ConfigTransactionIdentity,
    write: WriteModel,
    written: Option<FileReceiptModel>,
    r: Result<FileReceipt, ConfigTransactionError>,
) -> bool {
    match pre.complete_fault(id, write, true, written) {
        Some(fault) => r == Err::<FileReceipt, ConfigTransactionError>(fault) && post == pre,
        None => {
            &&& r is Ok
            &&& r->Ok_0@ == written->0
            &&& post == pre.with_active(
                LeaseModel {
                    phase: ConfigPhase::Active,
                    written: Some(written->0),
                    ..pre.active->0
                },
            )
        },
    }
}

/// What beginning the confirmation of a commit does.
pub open spec fn begins_confirmation(
    pre: OwnerModel,
    post: OwnerModel,
    id: ConfigTransactionIdentity,
    transaction: ConfigTransactionIdentity,
    expected: FileReceiptModel,
    r: Result<ConfirmingCommit, ConfigTransactionError>,
) -> bool {
    match pre.confirm_fault(
        id,
        transaction,
        expected,
    ) {
        Some(fault) => r == Err::<ConfirmingCommit, ConfigTransactionError>(fault)
            && post == pre,
        None => {
            &&& r is Ok
            &&& r->Ok_0.destination@ == pre.active->0.destination
            &&& r->Ok_0.expected@ == expected
            &&& post == pre.with_active(
                LeaseModel { phase: ConfigPhase::Confirming, ..pre.active->0 },
            )
        },
    }
}

/// What ending the confirmation of a commit does.
pub open spec fn confirms(
    pre: OwnerModel,
    post: OwnerModel,
    id: ConfigTransactionIdentity,
    destination: Seq<char>,
    expected: FileReceiptModel,
    captured: Option<FileReceiptModel>,
    r: Result<ConfigPublicationPermit, ConfigTransactionError>,
) -> bool {
    match pre.confirmed_fault(
        id,
        destination,
        expected,
        captured,
    ) {
        Some(fault) => r == Err::<ConfigPublicationPermit, ConfigTransactionError>(
            fault,
        ) && post == pre,
        None => {
            &&& r == Ok::<ConfigPublicationPermit, ConfigTransactionError>(
                ConfigPublicationPermit { transaction: id },
            )
            &&& post == (OwnerModel {
                active: None,
                pending: Some(
                    LeaseModel {
                        phase: ConfigPhase::PendingPublication,
                        ..pre.active->0
                    },
                ),
                ..pre
            })
        },
    }
}

/// What confirming and publishing a commit does.
pub open spec fn confirms_at_once(
    pre: OwnerModel,
    post: OwnerModel,
    id: ConfigTransactionIdentity,
    expected: FileReceiptModel,
    prepared: Option<FileReceiptModel>,
    captured: Option<FileReceiptModel>,
    r: Result<QuiescenceAck, ConfigTransactionError>,
) -> bool {
    match pre.confirmation_fault(id, expected, prepared) {
        Some(fault) => r == Err::<QuiescenceAck, ConfigTransactionError>(fault)
            && post == pre,
        None => if captured is None || captured->0 != expected {
            &&& r == Err::<QuiescenceAck, ConfigTransactionError>(
                ConfigTransactionError::IdentityChanged,
            )
            &&& post == pre.with_active(
                LeaseModel { phase: ConfigPhase::Confirming, ..pre.active->0 },
            )
        } else {
            &&& r == Ok::<QuiescenceAck, ConfigTransactionError>(
                QuiescenceAck { generation: id.generation },
            )
            &&& post == (OwnerModel {
                active: None,
                pending: Some(
                    LeaseModel {
                        phase: ConfigPhase::Published,
                        valid: false,
                        ..pre.active->0
                    },
                ),
                ..pre
            })
        },
    }
}

/// What entering, confirming and publishing a commit does.
pub open spec fn finalizes(
    pre: OwnerModel,
    post: OwnerModel,
    id: ConfigTransactionIdentity,
    write: WriteModel,
    written: Option<FileReceiptModel>,
    prepared: Option<FileReceiptModel>,
    captured: Option<FileReceiptModel>,
    r: Result<FileReceipt, ConfigTransactionError>,
) -> bool {
    match pre.complete_fault(id, write, true, written) {
        Some(fault) => r == Err::<FileReceipt, ConfigTransactionError>(fault) && post == pre,
        None => {
            let committed = LeaseModel {
                phase: ConfigPhase::Active,
                written: Some(written->0),
                ..pre.active->0
            };
            if prepared is None || prepared->0 != written->0 {
                &&& r == Err::<FileReceipt, ConfigTransactionError>(
                    ConfigTransactionError::IdentityChanged,
                )
                &&& post == pre.with_active(committed)
            } else if captured is None || captured->0 != written->0 {
                &&& r == Err::<FileReceipt, ConfigTransactionError>(
                    ConfigTransactionError::IdentityChanged,
                )
                &&& post == pre.with_active(
                    LeaseModel { phase: ConfigPhase::Confirming, ..committed },
                )
            } else {
                &&& r is Ok
                &&& r->Ok_0@ == written->0
                &&& post == (OwnerModel {
                    active: None,
                    pending: Some(
                        LeaseModel {
                            phase: ConfigPhase::Published,
                            valid: false,
                            ..committed
                        },
                    ),
                    ..pre
                })
            }
        },
    }
}

/// What beginning to undo a transaction does.
pub open spec fn begins_rollback(
    pre: OwnerModel,
    post: OwnerModel,
    id: ConfigTransactionIdentity,
    r: Result<ConfigRollback, ConfigTransactionError>,
) -> bool {
    let pending = is_lease(pre.pending, id);
    let record = pre.rollback_record(pending)->0;
    match pre.rollback_fault(id) {
        Some(fault) => r == Err::<ConfigRollback, ConfigTransactionError>(fault)
            && post == pre,
        None => {
            &&& r is Ok
            &&& r->Ok_0@ == (RollbackModel {
                pending,
                destination: record.destination,
                expected: record.expected,
                attempted: record.attempted,
                written: record.written,
            })
            &&& post == pre.with_rollback_record(
                pending,
                Some(LeaseModel { phase: ConfigPhase::RollingBack, ..record }),
            )
        },
    }
}

/// What entering the outcome of a rollback does.
pub open spec fn enters_rollback(
    pre: OwnerModel,
    post: OwnerModel,
    id: ConfigTransactionIdentity,
    plan: RollbackModel,
    restored: bool,
    r: Result<QuiescenceAck, ConfigTransactionError>,
) -> bool {
    match pre.rolled_back_fault(id, plan, restored) {
        Some(fault) => r == Err::<QuiescenceAck, ConfigTransactionError>(fault)
            && post == pre,
        None => r == Ok::<QuiescenceAck, ConfigTransactionError>(
            QuiescenceAck { generation: id.generation },
        ) && post == pre.with_rollback_record(plan.pending, None),
    }
}

/// What giving a lease up does.
pub open spec fn gives_up(
    pre: OwnerModel,
    post: OwnerModel,
    id: ConfigTransactionIdentity,
    r: Result<QuiescenceAck, ConfigTransactionError>,
) -> bool {
    match pre.revoke_fault(id) {
        Some(fault) => r == Err::<QuiescenceAck, ConfigTransactionError>(fault) && post == pre,
        None => r == Ok::<QuiescenceAck, ConfigTransactionError>(
            QuiescenceAck { generation: id.generation },
        ) && post == (OwnerModel { active: None, ..pre }),
    }
}

/// What preparing the confirmation of a commit gives.
pub open spec fn prepares_confirmation(
    owner: OwnerModel,
    id: ConfigTransactionIdentity,
    expected: FileReceiptModel,
    captured: Option<FileReceiptModel>,
    r: Result<ConfigCommitConfirmation, ConfigTransactionError>,
) -> bool {
    match owner.confirmation_fault(id, expected, captured) {
        Some(fault) => r == Err::<ConfigCommitConfirmation, ConfigTransactionError>(fault),
        None => r is Ok && r->Ok_0.transaction == id && r->Ok_0.expected@ == expected,
    }
}

/// The right to change the file.
#[derive(Debug, PartialEq, Eq)]
pub struct ConfigLease {
    pub identity: ConfigTransactionIdentity,
}

impl ConfigLease {
    pub fn generation(&self) -> (r: u64)
        ensures
            r == self.identity.generation,
    {
        self.identity.generation
    }

    pub fn identity(&self) -> (r: ConfigTransactionIdentity)
        ensures
            r == self.identity,
    {
        self.identity
    }

    /// Sets out to write a staged file over the configuration.
    pub fn activate_cancellable(
        &self,
        owner: &mut ConfigTransactionOwner,
        staged: &StagedArtifact,
        captured: Option<FileReceipt>,
    ) -> (r: Result<ConfigWrite, ConfigTransactionError>)
        ensures
            old(owner)@.exclusive() ==> final(owner)@.exclusive(),
            activates(
                old(owner)@,
                final(owner)@,
                self.identity,
                staged@,
                receipt_option(captured),
                r,
            ),
    {
        if staged.transaction != self.identity || !(matches_lease(&owner.active, self.identity)
            || matches_lease(&owner.pending_publication, self.identity)) {
            return Err(ConfigTransactionError::Stale);
        }
        let bytes = match staged.read_exact(captured) {
            Some(bytes) => bytes,
            None => {
                return Err(ConfigTransactionError::IdentityChanged);
            },
        };
        if !matches_lease(&owner.active, self.identity) {
            return Err(ConfigTransactionError::Stale);
        }
        match owner.active.take() {
            Some(record) => {
                if record.phase != ConfigPhase::Active {
                    owner.active = Some(record);
                    return Err(ConfigTransactionError::Busy);
                }
                let write = ConfigWrite {
                    destination: record.destination.clone(),
                    expected: record.expected.clone(),
                    bytes: copy_bytes(bytes.as_slice()),
                };
                owner.active = Some(
                    ActiveConfigLease {
                        phase: ConfigPhase::Activating,
                        attempted: Some(bytes),
                        ..record
                    },
                );
                Ok(write)
            },
            None => Err(ConfigTransactionError::Stale),
        }
    }

    /// Sets out to activate and takes the last look at the file in one go.
    pub fn activate(
        &self,
        owner: &mut ConfigTransactionOwner,
        staged: &StagedArtifact,
        captured: Option<FileReceipt>,
        current: &Option<FileReceipt>,
    ) -> (r: Result<ConfigWrite, ConfigTransactionError>)
        ensures
            old(owner)@.exclusive() ==> final(owner)@.exclusive(),
            activates_at_once(
                old(owner)@,
                final(owner)@,
                self.identity,
                staged@,
                receipt_option(captured),
                receipt_option(*current),
                r,
            ),
    {
        let write = match self.activate_cancellable(owner, staged, captured) {
            Ok(write) => write,
            Err(e) => {
                return Err(e);
            },
        };
        match write.authorize(current, false) {
            Ok(()) => Ok(write),
            Err(e) => Err(e),
        }
    }

    /// Enters the outcome of an activation.
    pub fn complete_activation(
        &self,
        owner: &mut ConfigTransactionOwner,
        write: ConfigWrite,
        written: Option<FileReceipt>,
    ) -> (r: Result<FileReceipt, ConfigTransactionError>)
        ensures
            old(owner)@.exclusive() ==> final(owner)@.exclusive(),
            enters_activation(
                old(owner)@,
                final(owner)@,
                self.identity,
                write@,
                receipt_option(written),
                r,
            ),
    {
        self.complete_write(owner, write, false, written)
    }

    fn complete_write(
        &self,
        owner: &mut ConfigTransactionOwner,
        write: ConfigWrite,
        commit: bool,
        written: Option<FileReceipt>,
    ) -> (r: Result<FileReceipt, ConfigTransactionError>)
        ensures
            old(owner)@.exclusive() ==> final(owner)@.exclusive(),
            enters_write(
                old(owner)@,
                final(owner)@,
                self.identity,
                write@,
                commit,
                receipt_option(written),
                r,
            ),
    {
        let receipt = match written {
            Some(receipt) => receipt,
            None => {
                return Err(ConfigTransactionError::IdentityChanged);
            },
        };
        let holds_the_write = match receipt.bytes() {
            Some(found) => same_bytes(found, write.bytes.as_slice()),
            None => false,
        };
        if !same_text(receipt.path(), write.destination.as_str()) || !holds_the_write {
            return Err(ConfigTransactionError::IdentityChanged);
        }
        if !matches_lease(&owner.active, self.identity) {
            return Err(ConfigTransactionError::Stale);
        }
        match owner.active.take() {
            Some(record) => {
                let same_attempt = match &record.attempted {
                    Some(attempted) => same_bytes(attempted.as_slice(), write.bytes.as_slice()),
                    None => false,
                };
                let same_base = if commit {
                    record.phase == ConfigPhase::Finalizing && match &record.written {
                        Some(written) => written.same(&write.expected),
                        None => false,
                    }
                } else {
                    record.phase == ConfigPhase::Activating && record.expected.same(&write.expected)
                };
                if record.destination != write.destination || !same_attempt || !same_base {
                    owner.active = Some(record);
                    return Err(ConfigTransactionError::Stale);
                }
                owner.active = Some(
                    ActiveConfigLease {
                        phase: ConfigPhase::Active,
                        written: Some(receipt.clone()),
                        ..record
                    },
                );
                Ok(receipt)
            },
            None => Err(ConfigTransactionError::Stale),
        }
    }

    /// Sets out to write the committed configuration over the active one.
    pub fn prepare_commit_cancellable(
        &self,
        owner: &mut ConfigTransactionOwner,
        committed: &[u8],
    ) -> (r: Result<ConfigWrite, ConfigTransactionError>)
        ensures
            old(owner)@.exclusive() ==> final(owner)@.exclusive(),
            sets_out_to_commit(
                old(owner)@,
                final(owner)@,
                self.identity,
                committed@,
                r,
            ),
    {
        if !(matches_lease(&owner.active, self.identity) || matches_lease(
            &owner.pending_publication,
            self.identity,
        )) {
            return Err(ConfigTransactionError::Stale);
        }
        if owner.pending_publication.is_some() {
            return Err(ConfigTransactionError::Busy);
        }
        if !matches_lease(&owner.active, self.identity) {
            return Err(ConfigTransactionError::Stale);
        }
        match owner.active.take() {
            Some(record) => {
                let expected = clone_receipt_option(&record.written);
                let expected = match expected {
                    Some(expected) => expected,
                    None => {
                        owner.active = Some(record);
                        return Err(ConfigTransactionError::Stale);
                    },
                };
                if record.phase != ConfigPhase::Active {
                    owner.active = Some(record);
                    return Err(ConfigTransactionError::Busy);
                }
                let write = ConfigWrite {
                    destination: record.destination.clone(),
                    expected,
                    bytes: copy_bytes(committed),
                };
                owner.active = Some(
                    ActiveConfigLease {
                        phase: ConfigPhase::Finalizing,
                        attempted: Some(copy_bytes(committed)),
                        ..record
                    },
                );
                Ok(write)
            },
            None => Err(ConfigTransactionError::Stale),
        }
    }

    /// Enters the outcome of a commit.
    pub fn complete_commit(
        &self,
        owner: &mut ConfigTransactionOwner,
        write: ConfigWrite,
        written: Option<FileReceipt>,
    ) -> (r: Result<FileReceipt, ConfigTransactionError>)
        ensures
            old(owner)@.exclusive() ==> final(owner)@.exclusive(),
            enters_commit(
                old(owner)@,
                final(owner)@,
                self.identity,
                write@,
                receipt_option(written),
                r,
            ),
    {
        self.complete_write(owner, write, true, written)
    }

    /// Prepares the confirmation of a commit: the file, as it was just
    /// captured, is the one that the lease wrote.
    pub fn prepare_commit_confirmation(
        &self,
        owner: &ConfigTransactionOwner,
        expected: &FileReceipt,
        captured: &Option<FileReceipt>,
    ) -> (r: Result<ConfigCommitConfirmation, ConfigTransactionError>)
        ensures
            prepares_confirmation(
                owner@,
                self.identity,
                expected@,
                receipt_option(*captured),
                r,
            ),
    {
        if !matches_lease(&owner.active, self.identity) {
            return Err(ConfigTransactionError::Stale);
        }
        match &owner.active {
            Some(record) => {
                let wrote_it = match &record.written {
                    Some(written) => written.same(expected),
                    None => false,
                };
                let found_it = match captured {
                    Some(current) => current.same(expected),
                    None => false,
                };
                if !wrote_it || record.phase != ConfigPhase::Active || !found_it {
                    return Err(ConfigTransactionError::IdentityChanged);
                }
                Ok(
                    ConfigCommitConfirmation {
                        transaction: self.identity,
                        expected: expected.clone(),
                    },
                )
            },
            None => Err(ConfigTransactionError::Stale),
        }
    }

    /// Begins the confirmation of a commit: from here on only the last look
    /// at the file or a rollback goes on.
    pub fn begin_confirmation(
        &self,
        owner: &mut ConfigTransactionOwner,
        confirmation: ConfigCommitConfirmation,
    ) -> (r: Result<ConfirmingCommit, ConfigTransactionError>)
        ensures
            old(owner)@.exclusive() ==> final(owner)@.exclusive(),
            begins_confirmation(
                old(owner)@,
                final(owner)@,
                self.identity,
                confirmation.transaction,
                confirmation.expected@,
                r,
            ),
    {
        if confirmation.transaction != self.identity || !matches_lease(
            &owner.active,
            self.identity,
        ) {
            return Err(ConfigTransactionError::Stale);
        }
        match owner.active.take() {
            Some(record) => {
                let wrote_it = match &record.written {
                    Some(written) => written.same(&confirmation.expected),
                    None => false,
                };
                if !wrote_it {
                    owner.active = Some(record);
                    return Err(ConfigTransactionError::IdentityChanged);
                }
                if record.phase != ConfigPhase::Active {
                    owner.active = Some(record);
                    return Err(ConfigTransactionError::Stale);
                }
                let destination = record.destination.clone();
                owner.active = Some(
                    ActiveConfigLease { phase: ConfigPhase::Confirming, ..record },
                );
                Ok(ConfirmingCommit { destination, expected: confirmation.expected })
            },
            None => Err(ConfigTransactionError::Stale),
        }
    }

    /// Ends the confirmation of a commit after the last look at the file. The
    /// transaction then waits for its publication.
    pub fn confirm_prevalidated(
        &self,
        owner: &mut ConfigTransactionOwner,
        confirming: ConfirmingCommit,
        captured: Option<FileReceipt>,
    ) -> (r: Result<ConfigPublicationPermit, ConfigTransactionError>)
        ensures
            old(owner)@.exclusive() ==> final(owner)@.exclusive(),
            confirms(
                old(owner)@,
                final(owner)@,
                self.identity,
                confirming.destination@,
                confirming.expected@,
                receipt_option(captured),
                r,
            ),
    {
        let current = match captured {
            Some(current) => current,
            None => {
                return Err(ConfigTransactionError::IdentityChanged);
            },
        };
        if !matches_lease(&owner.active, self.identity) {
            return Err(ConfigTransactionError::Stale);
        }
        match owner.active.take() {
            Some(record) => {
                let wrote_it = match &record.written {
                    Some(written) => written.same(&confirming.expected),
                    None => false,
                };
                if record.destination != confirming.destination || !wrote_it || !current.same(
                    &confirming.expected,
                ) {
                    owner.active = Some(record);
                    return Err(ConfigTransactionError::IdentityChanged);
                }
                if record.phase != ConfigPhase::Confirming {
                    owner.active = Some(record);
                    return Err(ConfigTransactionError::Stale);
                }
                owner.pending_publication = Some(
                    ActiveConfigLease { phase: ConfigPhase::PendingPublication, ..record },
                );
                Ok(ConfigPublicationPermit { transaction: self.identity })
            },
            None => Err(ConfigTransactionError::Stale),
        }
    }

    /// Confirms and publishes a commit. The file is looked at twice: `prepared`
    /// is what was found when the confirmation was prepared, `captured` what
    /// was found at the moment of the confirmation.
    pub fn confirm_commit(
        &self,
        owner: &mut ConfigTransactionOwner,
        expected: &FileReceipt,
        prepared: &Option<FileReceipt>,
        captured: Option<FileReceipt>,
    ) -> (r: Result<QuiescenceAck, ConfigTransactionError>)
        ensures
            old(owner)@.exclusive() ==> final(owner)@.exclusive(),
            confirms_at_once(
                old(owner)@,
                final(owner)@,
                self.identity,
                expected@,
                receipt_option(*prepared),
                receipt_option(captured),
                r,
            ),
    {
        let confirmation = match self.prepare_commit_confirmation(owner, expected, prepared) {
            Ok(confirmation) => confirmation,
            Err(e) => {
                return Err(e);
            },
        };
        let confirming = match self.begin_confirmation(owner, confirmation) {
            Ok(confirming) => confirming,
            Err(e) => {
                return Err(e);
            },
        };
        let permit = match self.confirm_prevalidated(owner, confirming, captured) {
            Ok(permit) => permit,
            Err(e) => {
                return Err(e);
            },
        };
        permit.publish(owner)
    }

    /// Enters the outcome of a commit, then confirms and publishes it after
    /// two looks at the file.
    pub fn finalize(
        &self,
        owner: &mut ConfigTransactionOwner,
        write: ConfigWrite,
        written: Option<FileReceipt>,
        prepared: &Option<FileReceipt>,
        captured: Option<FileReceipt>,
    ) -> (r: Result<FileReceipt, ConfigTransactionError>)
        ensures
            old(owner)@.exclusive() ==> final(owner)@.exclusive(),
            finalizes(
                old(owner)@,
                final(owner)@,
                self.identity,
                write@,
                receipt_option(written),
                receipt_option(*prepared),
                receipt_option(captured),
                r,
            ),
    {
        let receipt = match self.complete_write(owner, write, true, written) {
            Ok(receipt) => receipt,
            Err(e) => {
                return Err(e);
            },
        };
        match self.confirm_commit(owner, &receipt, prepared, captured) {
            Ok(_) => Ok(receipt),
            Err(e) => Err(e),
        }
    }

    /// Begins to undo the transaction.
    pub fn rollback(&self, owner: &mut ConfigTransactionOwner) -> (r: Result<
        ConfigRollback,
        ConfigTransactionError,
    >)
        ensures
            old(owner)@.exclusive() ==> final(owner)@.exclusive(),
            begins_rollback(
                old(owner)@,
                final(owner)@,
                self.identity,
                r,
            ),
    {
        let pending = matches_lease(&owner.pending_publication, self.identity);
        if !pending && !matches_lease(&owner.active, self.identity) {
            return Err(ConfigTransactionError::Stale);
        }
        let taken = if pending {
            owner.pending_publication.take()
        } else {
            owner.active.take()
        };
        match taken {
            Some(record) => {
                if record.phase == ConfigPhase::Published || record.phase
                    == ConfigPhase::RollingBack {
                    if pending {
                        owner.pending_publication = Some(record);
                    } else {
                        owner.active = Some(record);
                    }
                    return Err(ConfigTransactionError::Stale);
                }
                let plan = ConfigRollback {
                    pending,
                    destination: record.destination.clone(),
                    expected: record.expected.clone(),
                    attempted: copy_bytes_option(&record.attempted),
                    written: clone_receipt_option(&record.written),
                };
                let rolling = ActiveConfigLease { phase: ConfigPhase::RollingBack, ..record };
                if pending {
                    owner.pending_publication = Some(rolling);
                } else {
                    owner.active = Some(rolling);
                }
                Ok(plan)
            },
            None => Err(ConfigTransactionError::Stale),
        }
    }

    /// Enters the outcome of a rollback.
    pub fn complete_rollback(
        &self,
        owner: &mut ConfigTransactionOwner,
        plan: ConfigRollback,
        restored: bool,
    ) -> (r: Result<QuiescenceAck, ConfigTransactionError>)
        ensures
            old(owner)@.exclusive() ==> final(owner)@.exclusive(),
            enters_rollback(
                old(owner)@,
                final(owner)@,
                self.identity,
                plan@,
                restored,
                r,
            ),
    {
        if !restored {
            return Err(ConfigTransactionError::Io);
        }
        let taken = if plan.pending {
            owner.pending_publication.take()
        } else {
            owner.active.take()
        };
        match taken {
            Some(record) => {
                let same = record.identity == self.identity && record.destination
                    == plan.destination && record.expected.same(&plan.expected)
                    && same_bytes_option(&record.attempted, &plan.attempted)
                    && same_receipt_option(&record.written, &plan.written) && record.phase
                    == ConfigPhase::RollingBack;
                if same {
                    return Ok(QuiescenceAck { generation: self.identity.generation });
                }
                if plan.pending {
                    owner.pending_publication = Some(record);
                } else {
                    owner.active = Some(record);
                }
                Err(ConfigTransactionError::Stale)
            },
            None => Err(ConfigTransactionError::Stale),
        }
    }

    /// Gives the lease up; that is only possible before it has set out to
    /// change anything.
    pub fn revoke(&self, owner: &mut ConfigTransactionOwner) -> (r: Result<
        QuiescenceAck,
        ConfigTransactionError,
    >)
        ensures
            old(owner)@.exclusive() ==> final(owner)@.exclusive(),
            gives_up(
                old(owner)@,
                final(owner)@,
                self.identity,
                r,
            ),
    {
        if !matches_lease(&owner.active, self.identity) {
            return Err(ConfigTransactionError::Stale);
        }
        let untouched = match &owner.active {
            Some(record) => record.phase == ConfigPhase::Active && record.written.is_none()
                && record.attempted.is_none(),
            None => false,
        };
        if !untouched {
            return Err(ConfigTransactionError::Busy);
        }
        owner.active = None;
        Ok(QuiescenceAck { generation: self.identity.generation })
    }

    /// Abandons the lease. What it has changed stays as it is, and nobody else
    /// can change the file until someone has seen to it.
    pub fn abandon(self, owner: &mut ConfigTransactionOwner)
        ensures
            old(owner)@.exclusive() ==> final(owner)@.exclusive(),
            final(owner)@ == old(owner)@.abandoned(self.identity),
    {
        invalidate(&mut owner.active, self.identity);
        invalidate(&mut owner.pending_publication, self.identity);
    }
}

} // verus!
