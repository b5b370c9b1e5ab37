//! The configuration side of one bootstrap: activate the transient
//! configuration, commit the final one, publish it, or undo everything.
use vstd::prelude::*;

use crate::bytes::bytes_option;
use crate::config::{ConfigTransactionIdentity, StagedArtifact};
use crate::files::{receipt_option, FileReceipt, FileReceiptModel};
use crate::receipts::{IllustratorPluginReceipt, PreparedBootstrap};

verus! {

/// Why a step of the transaction was refused.
#[derive(Debug, Clone, Copy, PartialEq, Eq, Structural)]
pub enum TransactionError {
    Revoked,
    NotActive,
    LeaseUnavailable,
    ReceiptUnavailable,
    /// The attested files are no longer what they were.
    FilesChanged,
}

impl TransactionError {
    /// The error as a sentence.
    pub open spec fn sentence(self) -> Seq<char> {
        match self {
            TransactionError::Revoked => "Photoshop bootstrap transaction is revoked"@,
            TransactionError::NotActive => "Photoshop bootstrap transaction is not active"@,
            TransactionError::LeaseUnavailable => "Photoshop config lease is unavailable"@,
            TransactionError::ReceiptUnavailable => "Photoshop commit receipt is unavailable"@,
            TransactionError::FilesChanged =>
                "Illustrator bridge identity changed after attestation"@,
        }
    }

    /// The error as a sentence.
    pub fn message(&self) -> (r: &'static str)
        ensures
            r@ == self.sentence(),
    {
        match self {
            TransactionError::Revoked => "Photoshop bootstrap transaction is revoked",
            TransactionError::NotActive => "Photoshop bootstrap transaction is not active",
            TransactionError::LeaseUnavailable => "Photoshop config lease is unavailable",
            TransactionError::ReceiptUnavailable => "Photoshop commit receipt is unavailable",
            TransactionError::FilesChanged =>
                "Illustrator bridge identity changed after attestation",
        }
    }
}

/// The parts of a prepared bootstrap that a transaction needs.
#[derive(Debug)]
pub struct TransactionParts {
    pub path: String,
    pub transient: Vec<u8>,
    pub committed: Vec<u8>,
    pub module_sha256: String,
    pub illustrator_receipt: Option<IllustratorPluginReceipt>,
}

/// A prepared bootstrap is complete and its configuration file was found as it
/// was when the bootstrap was prepared.
pub open spec fn transaction_ready(prepared: PreparedBootstrap, expected: FileReceiptModel) -> bool {
    &&& prepared.config_path is Some
    &&& prepared.transient_config is Some
    &&& prepared.committed_config is Some
    &&& expected.bytes == bytes_option(prepared.previous_config)
}

/// The parts of a prepared bootstrap that is complete and still valid.
pub open spec fn parts_of(prepared: PreparedBootstrap, expected: FileReceiptModel) -> Option<TransactionParts> {
    if transaction_ready(prepared, expected) {
        Some(
            TransactionParts {
                path: prepared.config_path->0,
                transient: prepared.transient_config->0,
                committed: prepared.committed_config->0,
                module_sha256: prepared.module_sha256,
                illustrator_receipt: prepared.illustrator_receipt,
            },
        )
    } else {
        None
    }
}

/// Takes a prepared bootstrap apart, where it is complete and still valid.
pub fn begin_transaction(prepared: PreparedBootstrap, expected: &FileReceipt) -> (r: Option<
    TransactionParts,
>)
    ensures
        r == parts_of(prepared, expected@),
{
    if !expected.holds(&prepared.previous_config) {
        return None;
    }
    match (prepared.config_path, prepared.transient_config, prepared.committed_config) {
        (Some(path), Some(transient), Some(committed)) => Some(
            TransactionParts {
                path,
                transient,
                committed,
                module_sha256: prepared.module_sha256,
                illustrator_receipt: prepared.illustrator_receipt,
            },
        ),
        _ => None,
    }
}

/// A transaction between the lease on the configuration file and the caller
/// who may revoke it at any time.
#[derive(Debug)]
pub struct SystemBootstrapTransaction {
    pub module_sha256: String,
    pub illustrator_receipt: Option<IllustratorPluginReceipt>,
    pub cancelled: bool,
    pub lease: Option<ConfigTransactionIdentity>,
    pub staged: StagedArtifact,
    pub committed_config: Vec<u8>,
    pub staging_path: String,
    pub activated: bool,
    pub commit_receipt: Option<FileReceipt>,
}

impl SystemBootstrapTransaction {
    /// The transaction at its beginning.
    pub open spec fn begun_with(
        parts: TransactionParts,
        lease: ConfigTransactionIdentity,
        staged: StagedArtifact,
        staging_path: String,
    ) -> SystemBootstrapTransaction {
        SystemBootstrapTransaction {
            module_sha256: parts.module_sha256,
            illustrator_receipt: parts.illustrator_receipt,
            cancelled: false,
            lease: Some(lease),
            staged,
            committed_config: parts.committed,
            staging_path,
            activated: false,
            commit_receipt: None,
        }
    }

    /// A transaction whose lease has begun and whose transient configuration
    /// is staged.
    pub fn new(
        parts: TransactionParts,
        lease: ConfigTransactionIdentity,
        staged: StagedArtifact,
        staging_path: String,
    ) -> (r: Self)
        ensures
            r == Self::begun_with(parts, lease, staged, staging_path),
    {
        SystemBootstrapTransaction {
            module_sha256: parts.module_sha256,
            illustrator_receipt: parts.illustrator_receipt,
            cancelled: false,
            lease: Some(lease),
            staged,
            committed_config: parts.committed,
            staging_path,
            activated: false,
            commit_receipt: None,
        }
    }

    pub fn module_sha256(&self) -> (r: &str)
        ensures
            r@ == self.module_sha256@,
    {
        self.module_sha256.as_str()
    }

    /// The attested files of an Illustrator extension still hold. `unchanged`
    /// says what a new look at them showed.
    pub open spec fn files_hold(self, unchanged: bool) -> bool {
        self.illustrator_receipt is None || unchanged
    }

    /// Whether the files have to be looked at again.
    pub fn has_receipt(&self) -> (r: bool)
        ensures
            r == (self.illustrator_receipt is Some),
    {
        self.illustrator_receipt.is_some()
    }

    /// Whether the transient configuration may be activated, and by which lease.
    pub open spec fn activation(self) -> Result<ConfigTransactionIdentity, TransactionError> {
        if self.cancelled {
            Err::<ConfigTransactionIdentity, TransactionError>(TransactionError::Revoked)
        } else if self.lease is None {
            Err(TransactionError::LeaseUnavailable)
        } else {
            Ok(self.lease->0)
        }
    }

    /// Decides whether the transient configuration may be activated.
    pub fn begin_activate(&self) -> (r: Result<ConfigTransactionIdentity, TransactionError>)
        ensures
            r == self.activation(),
    {
        if self.cancelled {
            return Err(TransactionError::Revoked);
        }
        match self.lease {
            Some(lease) => Ok(lease),
            None => Err(TransactionError::LeaseUnavailable),
        }
    }

    /// The transaction is still the lease's and was not revoked.
    pub open spec fn holds(self, lease: ConfigTransactionIdentity) -> bool {
        !self.cancelled && self.lease == Some(lease)
    }

    /// What entering an activation does.
    pub open spec fn activation_entered(
        pre: SystemBootstrapTransaction,
        post: SystemBootstrapTransaction,
        lease: ConfigTransactionIdentity,
        r: Result<(), TransactionError>,
    ) -> bool {
        if pre.holds(lease) {
            r is Ok && post == (SystemBootstrapTransaction {
                activated: true,
                ..pre
            })
        } else {
            r == Err::<(), TransactionError>(TransactionError::Revoked) && post == pre
        }
    }

    /// Enters that the transient configuration is active.
    pub fn finish_activate(&mut self, lease: ConfigTransactionIdentity) -> (r: Result<
        (),
        TransactionError,
    >)
        ensures
            Self::activation_entered(*old(self), *final(self), lease, r),
    {
        if self.cancelled || self.lease != Some(lease) {
            return Err(TransactionError::Revoked);
        }
        self.activated = true;
        Ok(())
    }

    /// Whether the final configuration may be written, and by which lease.
    pub open spec fn finalization(self, files_unchanged: bool) -> Result<ConfigTransactionIdentity, TransactionError> {
        if self.cancelled {
            Err::<ConfigTransactionIdentity, TransactionError>(TransactionError::Revoked)
        } else if !self.files_hold(files_unchanged) {
            Err(TransactionError::FilesChanged)
        } else if !self.activated {
            Err(TransactionError::NotActive)
        } else if self.lease is None {
            Err(TransactionError::LeaseUnavailable)
        } else {
            Ok(self.lease->0)
        }
    }

    /// Decides whether the final configuration may be written.
    pub fn begin_finalize(&self, files_unchanged: bool) -> (r: Result<
        ConfigTransactionIdentity,
        TransactionError,
    >)
        ensures
            r == self.finalization(files_unchanged),
    {
        if self.cancelled {
            return Err(TransactionError::Revoked);
        }
        if self.illustrator_receipt.is_some() && !files_unchanged {
            return Err(TransactionError::FilesChanged);
        }
        if !self.activated {
            return Err(TransactionError::NotActive);
        }
        match self.lease {
            Some(lease) => Ok(lease),
            None => Err(TransactionError::LeaseUnavailable),
        }
    }

    /// What entering the final receipt does.
    pub open spec fn finalization_entered(
        pre: SystemBootstrapTransaction,
        post: SystemBootstrapTransaction,
        lease: ConfigTransactionIdentity,
        receipt: FileReceipt,
        r: Result<(), TransactionError>,
    ) -> bool {
        if pre.holds(lease) {
            r is Ok && post == (SystemBootstrapTransaction {
                commit_receipt: Some(receipt),
                ..pre
            })
        } else {
            r == Err::<(), TransactionError>(TransactionError::Revoked) && post == pre
        }
    }

    /// Enters the receipt of the final configuration.
    pub fn finish_finalize(&mut self, lease: ConfigTransactionIdentity, receipt: FileReceipt) -> (r:
        Result<(), TransactionError>)
        ensures
            Self::finalization_entered(*old(self), *final(self), lease, receipt, r),
    {
        if self.cancelled || self.lease != Some(lease) {
            return Err(TransactionError::Revoked);
        }
        self.commit_receipt = Some(receipt);
        Ok(())
    }

    /// Whether the commit may be confirmed, by which lease and on which receipt.
    pub open spec fn confirmation(
        self,
        files_unchanged: bool,
        r: Result<(ConfigTransactionIdentity, FileReceipt), TransactionError>,
    ) -> bool {
        match r {
            Err(e) => {
                &&& e == if self.cancelled {
                    TransactionError::Revoked
                } else if !self.files_hold(files_unchanged) {
                    TransactionError::FilesChanged
                } else if self.lease is None {
                    TransactionError::LeaseUnavailable
                } else {
                    TransactionError::ReceiptUnavailable
                }
                &&& self.cancelled || !self.files_hold(files_unchanged) || self.lease is None
                    || self.commit_receipt is None
            },
            Ok((lease, receipt)) => {
                &&& self.holds(lease)
                &&& self.files_hold(files_unchanged)
                &&& receipt_option(self.commit_receipt) == Some(receipt@)
            },
        }
    }

    /// Decides whether the commit may be confirmed, and on which receipt.
    pub fn prepare_commit_confirmation(&self, files_unchanged: bool) -> (r: Result<
        (ConfigTransactionIdentity, FileReceipt),
        TransactionError,
    >)
        ensures
            self.confirmation(files_unchanged, r),
    {
        if self.cancelled {
            return Err(TransactionError::Revoked);
        }
        if self.illustrator_receipt.is_some() && !files_unchanged {
            return Err(TransactionError::FilesChanged);
        }
        match self.lease {
            None => Err(TransactionError::LeaseUnavailable),
            Some(lease) => match &self.commit_receipt {
                None => Err(TransactionError::ReceiptUnavailable),
                Some(receipt) => Ok((lease, receipt.clone())),
            },
        }
    }

    /// Whether the confirmation may go on.
    pub open spec fn confirmable(self, lease: ConfigTransactionIdentity, files_unchanged: bool) -> Result<
        (),
        TransactionError,
    > {
        if self.cancelled {
            Err::<(), TransactionError>(TransactionError::Revoked)
        } else if !self.files_hold(files_unchanged) {
            Err(TransactionError::FilesChanged)
        } else if self.lease != Some(lease) {
            Err(TransactionError::LeaseUnavailable)
        } else {
            Ok(())
        }
    }

    /// Decides whether the confirmation may go on.
    pub fn may_confirm(&self, lease: ConfigTransactionIdentity, files_unchanged: bool) -> (r: Result<
        (),
        TransactionError,
    >)
        ensures
            r == self.confirmable(lease, files_unchanged),
    {
        if self.cancelled {
            return Err(TransactionError::Revoked);
        }
        if self.illustrator_receipt.is_some() && !files_unchanged {
            return Err(TransactionError::FilesChanged);
        }
        if self.lease != Some(lease) {
            return Err(TransactionError::LeaseUnavailable);
        }
        Ok(())
    }

    /// Whether the confirmed transaction may be published.
    pub open spec fn publication(self, files_unchanged: bool) -> Result<(), TransactionError> {
        if self.cancelled {
            Err::<(), TransactionError>(TransactionError::Revoked)
        } else if !self.files_hold(files_unchanged) {
            Err(TransactionError::FilesChanged)
        } else {
            Ok(())
        }
    }

    /// Decides whether the confirmed transaction may be published.
    pub fn may_publish(&self, files_unchanged: bool) -> (r: Result<(), TransactionError>)
        ensures
            r == self.publication(files_unchanged),
    {
        if self.cancelled {
            return Err(TransactionError::Revoked);
        }
        if self.illustrator_receipt.is_some() && !files_unchanged {
            return Err(TransactionError::FilesChanged);
        }
        Ok(())
    }

    /// What revoking the transaction does.
    pub open spec fn revoked(pre: SystemBootstrapTransaction, post: SystemBootstrapTransaction) -> bool {
        post == (SystemBootstrapTransaction { cancelled: true, ..pre })
    }

    /// Revokes the transaction; no step but a rollback goes on.
    pub fn revoke(&mut self)
        ensures
            Self::revoked(*old(self), *final(self)),
    {
        self.cancelled = true;
    }

    /// What beginning to undo the transaction does.
    pub open spec fn undone(
        pre: SystemBootstrapTransaction,
        post: SystemBootstrapTransaction,
        r: Option<ConfigTransactionIdentity>,
    ) -> bool {
        &&& r == pre.lease
        &&& post == (SystemBootstrapTransaction {
            cancelled: true,
            lease: None,
            activated: false,
            commit_receipt: None,
            ..pre
        })
    }

    /// Begins to undo the transaction: the lease, if there still is one, is to
    /// be rolled back and the staged file removed.
    pub fn rollback(&mut self) -> (r: Option<ConfigTransactionIdentity>)
        ensures
            Self::undone(*old(self), *final(self), r),
    {
        self.cancelled = true;
        let lease = self.lease;
        self.lease = None;
        self.activated = false;
        self.commit_receipt = None;
        lease
    }
}

} // verus!
