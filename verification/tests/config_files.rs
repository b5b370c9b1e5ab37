//! Transactions on configuration files, on a file system held in memory.
use adobepy::attest::{
    bootstrap_config, illustrator_bootstrap_config, prepare_illustrator, prepare_photoshop,
};
use adobepy::bootstrap_types::{
    PhotoshopBootstrapRequest, PhotoshopHostTarget, PhotoshopPluginTarget,
};
use adobepy::config::{
    ConfigLease, ConfigPhase, ConfigTransactionError, ConfigTransactionIdentity,
    ConfigTransactionOwner, ConfigWrite, QuiescenceAck, Restore, StagedArtifact,
};
use adobepy::files::{
    accept_written, is_gone, may_discard, may_remove, may_write, CaptureError, FileCapture, FileFacts, FileIdentity,
    FileObservation, FileReceipt, MAX_CONFIG_BYTES,
};
use adobepy::helper::{
    ensure_no_redirects, ensure_no_redirects_to_parent, stage_request, staged_response,
    staging_place, HelperRequest, HelperResponse,
};
use adobepy::receipts::{
    IllustratorFileReceipt, IllustratorPluginReceipt, PathReceipt, PreparedBootstrap,
};
use adobepy::settings::{hidden_file_name, quarantine_file_name, staging_file_name};
use adobepy::transaction::{begin_transaction, SystemBootstrapTransaction, TransactionError};
use std::collections::BTreeMap;
use std::time::{Duration, Instant};

const CONFIG: &str = "/srv/config.js";
const STAGED: &str = "/srv/staged.js";

/// Files by path, each with an identity that survives a rewrite but not a
/// replacement.
#[derive(Default)]
struct Disk {
    files: BTreeMap<String, (FileIdentity, Vec<u8>)>,
    next: u64,
}

impl Disk {
    fn write(&mut self, path: &str, bytes: &[u8]) {
        if let Some((_, content)) = self.files.get_mut(path) {
            *content = bytes.to_vec();
            return;
        }
        self.next += 1;
        let identity = FileIdentity { primary: 1, secondary: self.next };
        self.files.insert(path.to_owned(), (identity, bytes.to_vec()));
    }

    fn remove(&mut self, path: &str) {
        self.files.remove(path).unwrap();
    }

    fn rename(&mut self, from: &str, to: &str) {
        let file = self.files.remove(from).unwrap();
        self.files.insert(to.to_owned(), file);
    }

    fn read(&self, path: &str) -> &[u8] {
        &self.files[path].1
    }

    fn holds(&self, path: &str) -> bool {
        self.files.contains_key(path)
    }

    fn observe(&self, path: &str) -> FileObservation {
        match self.files.get(path) {
            None => FileObservation::Missing { path: path.to_owned() },
            Some((identity, bytes)) => FileObservation::Present(capture(path, *identity, bytes)),
        }
    }

    fn look(&self, path: &str) -> Option<FileReceipt> {
        FileReceipt::capture(self.observe(path)).ok()
    }

    fn receipt(&self, path: &str) -> FileReceipt {
        FileReceipt::capture(self.observe(path)).unwrap()
    }

    /// Writes where the library permits it and reports the new receipt.
    fn write_permitted(&mut self, path: &str, over: &FileReceipt, bytes: &[u8]) -> Option<FileReceipt> {
        let opened = self.files.get(path).map(|(identity, _)| *identity);
        let captured = self.receipt(path);
        if !may_write(path, over, bytes, opened, &captured) {
            return None;
        }
        self.write(path, bytes);
        let owned = self.files[path].0;
        accept_written(owned, bytes, self.receipt(path))
    }

    fn remove_permitted(&mut self, path: &str, over: &FileReceipt) -> bool {
        let opened = self.files[path].0;
        let captured = self.receipt(path);
        if !may_remove(over, opened, &captured) {
            return false;
        }
        let aside = "/srv/aside";
        self.rename(path, aside);
        if !may_discard(opened, &self.receipt(aside)) {
            return false;
        }
        self.remove(aside);
        is_gone(&self.receipt(path))
    }
}

fn facts(len: u64) -> FileFacts {
    FileFacts { is_file: true, is_dir: false, is_symlink: false, is_reparse: false, len }
}

fn dir_facts() -> FileFacts {
    FileFacts { is_file: false, is_dir: true, is_symlink: false, is_reparse: false, len: 0 }
}

fn capture(path: &str, identity: FileIdentity, bytes: &[u8]) -> FileCapture {
    FileCapture {
        path: path.to_owned(),
        before: facts(bytes.len() as u64),
        handle_identity: identity,
        path_identity: identity,
        bytes: bytes.to_vec(),
        handle_identity_after: identity,
        handle_len_after: bytes.len() as u64,
        path_identity_after: identity,
        after: facts(bytes.len() as u64),
    }
}

fn begin(
    disk: &Disk,
    owner: &mut ConfigTransactionOwner,
    path: &str,
    expected: &FileReceipt,
) -> Result<ConfigLease, ConfigTransactionError> {
    let reservation = owner.reserve(path, expected)?;
    owner.begin(reservation, disk.look(path))
}

fn write_out(disk: &mut Disk, write: &ConfigWrite) -> Option<FileReceipt> {
    disk.write_permitted(&write.destination, &write.expected, &write.bytes)
}

fn activate_with(
    disk: &mut Disk,
    owner: &mut ConfigTransactionOwner,
    lease: &ConfigLease,
    staged: &StagedArtifact,
    before_write: impl FnOnce(&mut Disk),
) -> Result<FileReceipt, ConfigTransactionError> {
    let found = disk.look(&staged.path);
    let current = disk.look(CONFIG);
    let write = lease.activate(owner, staged, found, &current)?;
    before_write(disk);
    let written = write_out(disk, &write);
    lease.complete_activation(owner, write, written)
}

fn activate(
    disk: &mut Disk,
    owner: &mut ConfigTransactionOwner,
    lease: &ConfigLease,
    staged: &StagedArtifact,
) -> Result<FileReceipt, ConfigTransactionError> {
    activate_with(disk, owner, lease, staged, |_| {})
}

fn prepare_commit(
    disk: &mut Disk,
    owner: &mut ConfigTransactionOwner,
    lease: &ConfigLease,
    committed: &[u8],
) -> Result<FileReceipt, ConfigTransactionError> {
    let write = lease.prepare_commit_cancellable(owner, committed)?;
    write.authorize(&disk.look(&write.destination), false)?;
    let written = write_out(disk, &write);
    lease.complete_commit(owner, write, written)
}

fn finalize(
    disk: &mut Disk,
    owner: &mut ConfigTransactionOwner,
    lease: &ConfigLease,
    committed: &[u8],
) -> Result<FileReceipt, ConfigTransactionError> {
    let write = lease.prepare_commit_cancellable(owner, committed)?;
    write.authorize(&disk.look(&write.destination), false)?;
    let written = write_out(disk, &write);
    let prepared = disk.look(&write.destination);
    let captured = disk.look(&write.destination);
    lease.finalize(owner, write, written, &prepared, captured)
}

fn rollback(
    disk: &mut Disk,
    owner: &mut ConfigTransactionOwner,
    lease: &ConfigLease,
) -> Result<QuiescenceAck, ConfigTransactionError> {
    let plan = lease.rollback(owner)?;
    let restored = match plan.decide(disk.look(&plan.destination))? {
        Restore::Nothing => true,
        Restore::Write { over, bytes } => {
            disk.write_permitted(&plan.destination, &over, &bytes).is_some()
        }
        Restore::Remove { over } => disk.remove_permitted(&plan.destination, &over),
    };
    lease.complete_rollback(owner, plan, restored)
}

/// A disk with a configuration and a staged file, and a lease on it.
fn leased() -> (Disk, ConfigTransactionOwner, ConfigLease, StagedArtifact) {
    let mut disk = Disk::default();
    disk.write(CONFIG, b"old");
    let mut owner = ConfigTransactionOwner::default();
    let expected = disk.receipt(CONFIG);
    let lease = begin(&disk, &mut owner, CONFIG, &expected).unwrap();
    disk.write(STAGED, b"transient");
    let staged = StagedArtifact::capture(lease.identity(), disk.receipt(STAGED)).unwrap();
    (disk, owner, lease, staged)
}

#[test]
fn receipt_rejects_same_identity_growth_beyond_the_bound_after_metadata() {
    let identity = FileIdentity { primary: 1, secondary: 1 };
    let mut grown = capture("/srv/config.js", identity, b"x");
    grown.bytes.extend(vec![b'y'; (MAX_CONFIG_BYTES as usize) + 1]);
    let final_len = grown.bytes.len() as u64;
    grown.handle_len_after = final_len;
    grown.after = facts(final_len);
    let result = FileReceipt::capture(FileObservation::Present(grown));
    assert!(final_len > MAX_CONFIG_BYTES);
    assert!(
        result.is_err(),
        "same-identity growth bypassed the configured receipt bound"
    );
}

#[test]
fn activate_rejects_an_identity_swap_after_the_final_recapture() {
    let (mut disk, mut owner, lease, staged) = leased();
    disk.write("/srv/replacement.js", b"external");
    let error = activate_with(&mut disk, &mut owner, &lease, &staged, |disk| {
        disk.remove(CONFIG);
        disk.rename("/srv/replacement.js", CONFIG);
    })
    .unwrap_err();
    assert_eq!(error, ConfigTransactionError::IdentityChanged);
    assert_eq!(disk.read(CONFIG), b"external");
}

#[test]
fn authoritative_confirmation_moves_active_ownership_to_pending_publication() {
    let (mut disk, mut owner, lease, staged) = leased();
    activate(&mut disk, &mut owner, &lease, &staged).unwrap();
    let receipt = prepare_commit(&mut disk, &mut owner, &lease, b"committed").unwrap();
    let found = disk.look(CONFIG);
    let confirmation = lease.prepare_commit_confirmation(&owner, &receipt, &found).unwrap();

    let confirming = lease.begin_confirmation(&mut owner, confirmation).unwrap();
    let captured = disk.look(CONFIG);
    let publication = lease.confirm_prevalidated(&mut owner, confirming, captured).unwrap();

    assert!(owner.active.is_none());
    assert!(owner.pending_publication.is_some());
    drop(publication);
    rollback(&mut disk, &mut owner, &lease).unwrap();
}

#[test]
fn a_confirmation_is_prepared_only_for_the_file_as_it_was_committed() {
    let (mut disk, mut owner, lease, staged) = leased();
    activate(&mut disk, &mut owner, &lease, &staged).unwrap();
    let receipt = prepare_commit(&mut disk, &mut owner, &lease, b"committed").unwrap();
    let committed = disk.look(CONFIG);
    disk.write(CONFIG, b"edited");
    for found in [disk.look(CONFIG), disk.look("/srv/nowhere.js"), None] {
        assert_eq!(
            lease.prepare_commit_confirmation(&owner, &receipt, &found).unwrap_err(),
            ConfigTransactionError::IdentityChanged
        );
    }
    let found = disk.look(CONFIG);
    assert_eq!(
        lease.confirm_commit(&mut owner, &receipt, &found, committed).unwrap_err(),
        ConfigTransactionError::IdentityChanged
    );
    disk.write(CONFIG, b"committed");
    let found = disk.look(CONFIG);
    drop(lease.prepare_commit_confirmation(&owner, &receipt, &found).unwrap());
    rollback(&mut disk, &mut owner, &lease).unwrap();
    assert_eq!(disk.read(CONFIG), b"old");
}

#[test]
fn only_the_receipt_of_the_write_is_entered() {
    for (path, bytes) in [("/srv/other.js", &b"transient"[..]), (CONFIG, &b"something"[..])] {
        let (mut disk, mut owner, lease, staged) = leased();
        let found = disk.look(STAGED);
        let current = disk.look(CONFIG);
        let write = lease.activate(&mut owner, &staged, found, &current).unwrap();
        disk.write(path, bytes);
        let written = disk.look(path);
        assert_eq!(
            lease.complete_activation(&mut owner, write, written).unwrap_err(),
            ConfigTransactionError::IdentityChanged
        );
        assert!(owner.active.as_ref().unwrap().written.is_none());
    }
}

#[test]
fn helper_stage_can_only_be_redeemed_by_its_exact_config_generation() {
    let mut disk = Disk::default();
    disk.write(CONFIG, b"old");
    let mut owner = ConfigTransactionOwner::default();
    let expected = disk.receipt(CONFIG);
    let lease = begin(&disk, &mut owner, CONFIG, &expected).unwrap();
    let (generation, transaction_id, staging_id, bytes) =
        match stage_request(lease.identity(), b"transient".to_vec()) {
            HelperRequest::Stage { generation, transaction_id, staging_id, bytes } => {
                (generation, transaction_id, staging_id, bytes)
            }
            other => panic!("{other:?}"),
        };
    let place = staging_place(&transaction_id, &staging_id).unwrap();
    disk.write(STAGED, &bytes);
    let found = Some(disk.read(STAGED).to_vec());
    let response = staged_response(generation, place, STAGED.into(), &bytes, &found).unwrap();
    let staged = StagedArtifact::from_helper(response, disk.look(STAGED)).unwrap();
    activate(&mut disk, &mut owner, &lease, &staged).unwrap();
    rollback(&mut disk, &mut owner, &lease).unwrap();
    assert_eq!(disk.read(CONFIG), b"old");
}

#[test]
fn config_generation_rejects_late_staging_and_drop_is_nonblocking() {
    let mut disk = Disk::default();
    disk.write(CONFIG, b"old");
    let mut owner = ConfigTransactionOwner::default();
    let expected = disk.receipt(CONFIG);
    let first = begin(&disk, &mut owner, CONFIG, &expected).unwrap();
    let first_identity = first.identity();
    let started = Instant::now();
    first.abandon(&mut owner);
    assert!(started.elapsed() < Duration::from_millis(10));
    assert!(owner.is_quiescent());

    let expected = disk.receipt(CONFIG);
    let second = begin(&disk, &mut owner, CONFIG, &expected).unwrap();
    disk.write("/srv/late.js", b"late");
    let stale = StagedArtifact::capture(first_identity, disk.receipt("/srv/late.js")).unwrap();
    assert_eq!(
        activate(&mut disk, &mut owner, &second, &stale).unwrap_err(),
        ConfigTransactionError::Stale
    );
    assert_eq!(disk.read(CONFIG), b"old");
    second.revoke(&mut owner).unwrap();
}

#[test]
fn staged_artifact_from_another_owner_with_the_same_generation_is_stale() {
    let mut disk = Disk::default();
    disk.write("/srv/first.js", b"first");
    disk.write("/srv/second.js", b"second");
    disk.write(STAGED, b"foreign");

    let mut first_owner = ConfigTransactionOwner::default();
    let first_expected = disk.receipt("/srv/first.js");
    let first = begin(&disk, &mut first_owner, "/srv/first.js", &first_expected).unwrap();
    let foreign = StagedArtifact::capture(first.identity(), disk.receipt(STAGED)).unwrap();
    first.revoke(&mut first_owner).unwrap();

    let mut second_owner = ConfigTransactionOwner::default();
    let second_expected = disk.receipt("/srv/second.js");
    let second = begin(&disk, &mut second_owner, "/srv/second.js", &second_expected).unwrap();
    assert!(first_owner.is_quiescent());
    assert_eq!(first_expected.path(), "/srv/first.js");
    assert_eq!(second.generation(), 1);
    let found = disk.look(STAGED);
    let current = disk.look("/srv/second.js");
    assert_eq!(
        second.activate(&mut second_owner, &foreign, found, &current).unwrap_err(),
        ConfigTransactionError::Stale
    );
    assert_eq!(disk.read("/srv/second.js"), b"second");
    second.revoke(&mut second_owner).unwrap();
}

#[test]
fn config_claim_is_atomic_and_failed_identity_or_competing_claim_does_not_consume_it() {
    let mut disk = Disk::default();
    disk.write(CONFIG, b"old");
    let mut owner = ConfigTransactionOwner::default();
    let stale = disk.receipt(CONFIG);
    disk.write(CONFIG, b"external");
    assert_eq!(
        begin(&disk, &mut owner, CONFIG, &stale).unwrap_err(),
        ConfigTransactionError::IdentityChanged
    );
    let current = disk.receipt(CONFIG);
    let first = begin(&disk, &mut owner, CONFIG, &current).unwrap();
    assert_eq!(first.generation(), 1);
    assert_eq!(
        begin(&disk, &mut owner, CONFIG, &current).unwrap_err(),
        ConfigTransactionError::Busy
    );
    first.revoke(&mut owner).unwrap();
    let second = begin(&disk, &mut owner, CONFIG, &current).unwrap();
    assert_eq!(second.generation(), 2);
    second.revoke(&mut owner).unwrap();
}

#[test]
fn config_finalize_fails_closed_on_same_bytes_new_identity() {
    let (mut disk, mut owner, lease, staged) = leased();
    activate(&mut disk, &mut owner, &lease, &staged).unwrap();

    disk.write("/srv/replacement.js", b"transient");
    disk.remove(CONFIG);
    disk.rename("/srv/replacement.js", CONFIG);
    assert_eq!(
        finalize(&mut disk, &mut owner, &lease, b"committed").unwrap_err(),
        ConfigTransactionError::IdentityChanged
    );
    assert_eq!(disk.read(CONFIG), b"transient");
    lease.abandon(&mut owner);
    assert!(!owner.is_quiescent());
    let current = disk.receipt(CONFIG);
    assert_eq!(
        begin(&disk, &mut owner, CONFIG, &current).unwrap_err(),
        ConfigTransactionError::Busy
    );
}

#[test]
fn config_finalize_commits_the_exact_receipt_and_quiesces_the_owner() {
    let (mut disk, mut owner, lease, staged) = leased();
    activate(&mut disk, &mut owner, &lease, &staged).unwrap();
    let receipt = finalize(&mut disk, &mut owner, &lease, b"committed").unwrap();

    assert_eq!(receipt, disk.receipt(CONFIG));
    assert_eq!(disk.read(CONFIG), b"committed");
    assert!(owner.is_quiescent());
}

#[test]
fn config_rollback_only_restores_the_receipt_it_owns() {
    let (mut disk, mut owner, lease, staged) = leased();
    activate(&mut disk, &mut owner, &lease, &staged).unwrap();
    disk.write(CONFIG, b"external-edit");

    assert_eq!(
        rollback(&mut disk, &mut owner, &lease).unwrap_err(),
        ConfigTransactionError::IdentityChanged
    );
    assert_eq!(disk.read(CONFIG), b"external-edit");
}

#[test]
fn config_activate_and_rollback_return_an_explicit_quiescence_ack() {
    let (mut disk, mut owner, lease, staged) = leased();
    activate(&mut disk, &mut owner, &lease, &staged).unwrap();
    let generation = lease.generation();
    let acknowledgement = rollback(&mut disk, &mut owner, &lease).unwrap();
    assert_eq!(acknowledgement.generation, generation);
    assert_eq!(disk.read(CONFIG), b"old");
}

#[test]
fn config_rollback_removes_only_the_owned_file_created_from_an_absent_receipt() {
    let mut disk = Disk::default();
    let mut owner = ConfigTransactionOwner::default();
    let expected = disk.receipt(CONFIG);
    let lease = begin(&disk, &mut owner, CONFIG, &expected).unwrap();
    disk.write(STAGED, b"transient");
    let staged = StagedArtifact::capture(lease.identity(), disk.receipt(STAGED)).unwrap();

    activate(&mut disk, &mut owner, &lease, &staged).unwrap();
    assert_eq!(disk.read(CONFIG), b"transient");
    rollback(&mut disk, &mut owner, &lease).unwrap();

    assert!(!disk.holds(CONFIG));
    assert!(owner.is_quiescent());
}

#[test]
fn dropping_an_activated_config_lease_is_nonblocking_and_fail_stops_the_owner() {
    let (mut disk, mut owner, lease, staged) = leased();
    activate(&mut disk, &mut owner, &lease, &staged).unwrap();
    let started = Instant::now();
    lease.abandon(&mut owner);
    assert!(started.elapsed() < Duration::from_millis(10));
    assert!(!owner.is_quiescent());
    let current = disk.receipt(CONFIG);
    assert_eq!(
        begin(&disk, &mut owner, CONFIG, &current).unwrap_err(),
        ConfigTransactionError::Busy
    );
    assert_eq!(disk.read(CONFIG), b"transient");
}

#[test]
fn config_owner_rejects_a_redirected_parent_path_on_unix() {
    let redirect = FileFacts { is_symlink: true, ..dir_facts() };
    assert!(ensure_no_redirects_to_parent(&vec![dir_facts(), dir_facts()]));
    assert!(!ensure_no_redirects_to_parent(&vec![dir_facts(), redirect]));
}

#[test]
fn config_owner_rejects_a_reparse_parent_path_on_windows() {
    let junction = FileFacts { is_reparse: true, ..dir_facts() };
    assert!(!ensure_no_redirects_to_parent(&vec![dir_facts(), junction]));
    assert!(!ensure_no_redirects(&vec![junction, facts(3)]));
    assert!(ensure_no_redirects(&vec![dir_facts(), facts(3)]));
}

#[test]
fn atomic_config_replace_and_nonce_consumption_are_exact() {
    let transient = bootstrap_config(
        "ws://127.0.0.1:47391/v1/bridge/photoshop/ws",
        "secret",
        "retouch",
        Some(&"a".repeat(64)),
    );
    let committed = bootstrap_config(
        "ws://127.0.0.1:47391/v1/bridge/photoshop/ws",
        "secret",
        "retouch",
        None,
    );
    assert!(transient.contains("__ADOBEPY_BOOTSTRAP_NONCE"));
    assert!(!committed.contains(&"a".repeat(64)));
    assert!(committed.contains("delete globalThis.__ADOBEPY_BOOTSTRAP_NONCE"));
}

fn prepared() -> PreparedBootstrap {
    PreparedBootstrap {
        config_path: Some(CONFIG.into()),
        previous_config: Some(b"prior-config".to_vec()),
        transient_config: Some(b"transient-config".to_vec()),
        committed_config: Some(b"committed-config".to_vec()),
        module_sha256: "a".repeat(64),
        illustrator_receipt: None,
    }
}

/// A transaction as a backend runs it: the lease and the caller's view of it.
struct Running {
    disk: Disk,
    owner: ConfigTransactionOwner,
    lease: ConfigLease,
    transaction: SystemBootstrapTransaction,
}

impl Running {
    fn begin(prepared: PreparedBootstrap) -> Running {
        let mut disk = Disk::default();
        disk.write(CONFIG, b"prior-config");
        let expected = disk.receipt(CONFIG);
        let parts = begin_transaction(prepared, &expected).unwrap();
        let mut owner = ConfigTransactionOwner::default();
        let lease = begin(&disk, &mut owner, CONFIG, &expected).unwrap();
        disk.write(STAGED, &parts.transient);
        let staged = StagedArtifact::capture(lease.identity(), disk.receipt(STAGED)).unwrap();
        let transaction =
            SystemBootstrapTransaction::new(parts, lease.identity(), staged, STAGED.into());
        Running { disk, owner, lease, transaction }
    }

    fn activate_with(&mut self, before_write: impl FnOnce(&mut Disk)) -> bool {
        let lease = match self.transaction.begin_activate() {
            Ok(lease) => lease,
            Err(_) => return false,
        };
        let written = activate_with(
            &mut self.disk,
            &mut self.owner,
            &self.lease,
            &self.transaction.staged,
            before_write,
        );
        written.is_ok() && self.transaction.finish_activate(lease).is_ok()
    }

    fn finalize_pending(&mut self) -> Result<(), TransactionError> {
        let lease = self.transaction.begin_finalize(true)?;
        let committed = self.transaction.committed_config.clone();
        match prepare_commit(&mut self.disk, &mut self.owner, &self.lease, &committed) {
            Ok(receipt) => self.transaction.finish_finalize(lease, receipt),
            Err(_) => Err(TransactionError::ReceiptUnavailable),
        }
    }

    fn rollback(&mut self) -> bool {
        match self.transaction.rollback() {
            None => true,
            Some(_) => rollback(&mut self.disk, &mut self.owner, &self.lease).is_ok(),
        }
    }
}

#[test]
fn bootstrap_transaction_never_overwrites_a_foreign_config_change() {
    let mut running = Running::begin(prepared());
    assert!(running.activate_with(|_| {}));

    running.disk.write(CONFIG, b"operator-change");
    assert!(running.finalize_pending().is_err());
    assert_eq!(running.disk.read(CONFIG), b"operator-change");
    assert!(!running.rollback());
    assert_eq!(running.disk.read(CONFIG), b"operator-change");
}

#[test]
fn missing_config_after_activation_is_not_recreated_by_rollback() {
    let mut running = Running::begin(prepared());
    assert!(running.activate_with(|_| {}));
    running.disk.remove(CONFIG);

    assert!(!running.rollback());
    assert!(!running.disk.holds(CONFIG));
}

#[test]
fn public_activation_rejects_a_swap_after_its_final_recapture() {
    let mut running = Running::begin(prepared());
    running.disk.write("/srv/replacement.js", b"external-config");
    assert!(!running.activate_with(|disk| {
        disk.remove(CONFIG);
        disk.rename("/srv/replacement.js", CONFIG);
    }));
    assert_eq!(running.disk.read(CONFIG), b"external-config");
}

#[test]
fn stuck_activation_io_does_not_hold_owner_or_block_transaction_rollback() {
    let mut running = Running::begin(prepared());
    let lease = running.transaction.begin_activate().unwrap();
    let found = running.disk.look(STAGED);
    let current = running.disk.look(CONFIG);
    let write = running
        .lease
        .activate(&mut running.owner, &running.transaction.staged, found, &current)
        .unwrap();

    assert!(
        running.rollback(),
        "stuck activation file I/O blocked the independent rollback lane"
    );
    let written = None;
    let activation_result = running.lease.complete_activation(&mut running.owner, write, written);
    assert!(activation_result.is_err());
    assert!(running.transaction.finish_activate(lease).is_err());
    assert_eq!(running.disk.read(CONFIG), b"prior-config");
}

#[test]
fn a_write_that_finishes_after_the_rollback_does_not_count() {
    let mut running = Running::begin(prepared());
    running.transaction.begin_activate().unwrap();
    let found = running.disk.look(STAGED);
    let current = running.disk.look(CONFIG);
    let write = running
        .lease
        .activate(&mut running.owner, &running.transaction.staged, found, &current)
        .unwrap();
    assert!(running.rollback());
    let written = write_out(&mut running.disk, &write);
    assert_eq!(
        running.lease.complete_activation(&mut running.owner, write, written).unwrap_err(),
        ConfigTransactionError::Stale
    );
}

#[test]
fn every_step_of_a_revoked_transaction_is_refused() {
    let mut running = Running::begin(prepared());
    assert_eq!(running.transaction.begin_finalize(true).unwrap_err(), TransactionError::NotActive);
    assert_eq!(
        running.transaction.prepare_commit_confirmation(true).unwrap_err(),
        TransactionError::ReceiptUnavailable
    );
    assert!(running.activate_with(|_| {}));
    running.finalize_pending().unwrap();
    let (lease, receipt) = running.transaction.prepare_commit_confirmation(true).unwrap();
    assert!(running.transaction.may_confirm(lease, true).is_ok());
    let found = running.disk.look(CONFIG);
    let ack = running.lease.confirm_commit(
        &mut running.owner,
        &receipt,
        &found,
        running.disk.look(CONFIG),
    );
    assert_eq!(ack.unwrap().generation, lease.generation());
    assert!(running.transaction.may_publish(true).is_ok());
    running.transaction.revoke();
    assert_eq!(running.transaction.may_publish(true).unwrap_err(), TransactionError::Revoked);
    assert_eq!(running.transaction.begin_activate().unwrap_err(), TransactionError::Revoked);
    assert_eq!(running.transaction.may_confirm(lease, true).unwrap_err(), TransactionError::Revoked);
    assert_eq!(running.transaction.rollback(), Some(lease));
    assert_eq!(running.transaction.rollback(), None);
    for error in [
        TransactionError::Revoked,
        TransactionError::NotActive,
        TransactionError::LeaseUnavailable,
        TransactionError::ReceiptUnavailable,
        TransactionError::FilesChanged,
    ] {
        assert!(!error.message().is_empty());
    }
}

fn path_receipt(path: &str) -> PathReceipt {
    PathReceipt {
        requested: path.into(),
        canonical: path.into(),
        filesystem_identity: (1, 2),
    }
}

fn file_receipt(path: &str) -> IllustratorFileReceipt {
    IllustratorFileReceipt { path: path_receipt(path), bytes: 3, sha256: "b".repeat(64) }
}

fn plugin_receipt() -> IllustratorPluginReceipt {
    IllustratorPluginReceipt {
        root: path_receipt("/cep"),
        manifest: file_receipt("/cep/CSXS/manifest.xml"),
        index: file_receipt("/cep/index.html"),
        module: file_receipt("/cep/dist/main.js"),
    }
}

#[test]
fn an_extension_that_changed_stops_its_transaction() {
    let with_receipt =
        PreparedBootstrap { illustrator_receipt: Some(plugin_receipt()), ..prepared() };
    let mut running = Running::begin(with_receipt);
    assert!(running.transaction.has_receipt());
    assert_eq!(running.transaction.module_sha256(), "a".repeat(64));
    assert!(running.activate_with(|_| {}));
    assert_eq!(
        running.transaction.begin_finalize(false).unwrap_err(),
        TransactionError::FilesChanged
    );
    running.finalize_pending().unwrap();
    assert_eq!(
        running.transaction.prepare_commit_confirmation(false).unwrap_err(),
        TransactionError::FilesChanged
    );
    assert_eq!(running.transaction.may_publish(false).unwrap_err(), TransactionError::FilesChanged);
    assert!(running.rollback());
    assert_eq!(running.disk.read(CONFIG), b"prior-config");
}

#[test]
fn an_incomplete_preparation_is_not_begun() {
    let mut disk = Disk::default();
    disk.write(CONFIG, b"prior-config");
    let expected = disk.receipt(CONFIG);
    let no_path = PreparedBootstrap { config_path: None, ..prepared() };
    let no_transient = PreparedBootstrap { transient_config: None, ..prepared() };
    let no_committed = PreparedBootstrap { committed_config: None, ..prepared() };
    let changed = PreparedBootstrap { previous_config: Some(b"other".to_vec()), ..prepared() };
    let absent = PreparedBootstrap { previous_config: None, ..prepared() };
    for bad in [no_path, no_transient, no_committed, changed, absent] {
        assert!(begin_transaction(bad, &expected).is_none());
    }
}

#[test]
fn captures_tell_what_changed() {
    let identity = FileIdentity { primary: 1, secondary: 1 };
    let other = FileIdentity { primary: 1, secondary: 2 };
    let present = |change: fn(&mut FileCapture, FileIdentity)| {
        let mut seen = capture("/f", FileIdentity { primary: 1, secondary: 1 }, b"abc");
        change(&mut seen, FileIdentity { primary: 1, secondary: 2 });
        FileReceipt::capture(FileObservation::Present(seen))
    };
    let receipt = present(|_, _| {}).unwrap();
    assert_eq!(receipt.path(), "/f");
    assert_eq!(receipt.bytes(), Some(&b"abc"[..]));
    assert_eq!(
        receipt.sha256(),
        Some("ba7816bf8f01cfea414140de5dae2223b00361a396177a9cb410ff61f20015ad")
    );
    assert_eq!(receipt.identity(), Some(identity));
    assert!(receipt.same(&receipt.clone()));
    let swapped =
        FileReceipt::capture(FileObservation::Present(capture("/f", other, b"abc"))).unwrap();
    assert!(!receipt.same(&swapped));
    assert_eq!(
        present(|seen, _| seen.before.is_symlink = true).unwrap_err(),
        CaptureError::Unbounded
    );
    assert_eq!(
        present(|seen, _| seen.before.len = MAX_CONFIG_BYTES + 1).unwrap_err(),
        CaptureError::Unbounded
    );
    assert_eq!(
        present(|seen, foreign| seen.path_identity = foreign).unwrap_err(),
        CaptureError::PathChanged
    );
    assert_eq!(
        present(|seen, foreign| seen.path_identity_after = foreign).unwrap_err(),
        CaptureError::ContentChanged
    );
    assert_eq!(
        present(|seen, _| seen.handle_len_after = 4).unwrap_err(),
        CaptureError::ContentChanged
    );
    let missing = FileReceipt::capture(FileObservation::Missing { path: "/f".into() }).unwrap();
    assert_eq!((missing.bytes(), missing.sha256()), (None, None));
}

#[test]
fn a_reservation_is_for_the_file_of_its_receipt() {
    let disk = Disk::default();
    let mut owner = ConfigTransactionOwner::default();
    let expected = disk.receipt(CONFIG);
    assert_eq!(
        owner.reserve("/srv/other.js", &expected).unwrap_err(),
        ConfigTransactionError::IdentityChanged
    );
    owner.next_generation = u64::MAX;
    assert_eq!(owner.reserve(CONFIG, &expected).unwrap_err(), ConfigTransactionError::Io);
    owner.next_generation = 4;
    let reservation = owner.reserve_as(CONFIG, &expected, 9).unwrap();
    let identity = ConfigTransactionIdentity { generation: 5, transaction_id: 9 };
    assert_eq!(reservation.identity, identity);
    assert_eq!(owner.begin(reservation, None).unwrap_err(), ConfigTransactionError::Io);
    for error in [
        ConfigTransactionError::Stale,
        ConfigTransactionError::Busy,
        ConfigTransactionError::IdentityChanged,
        ConfigTransactionError::Io,
    ] {
        assert!(!error.message().is_empty());
    }
}

#[test]
fn a_published_transaction_cannot_be_undone() {
    let (mut disk, mut owner, lease, staged) = leased();
    activate(&mut disk, &mut owner, &lease, &staged).unwrap();
    finalize(&mut disk, &mut owner, &lease, b"committed").unwrap();
    assert_eq!(
        rollback(&mut disk, &mut owner, &lease).unwrap_err(),
        ConfigTransactionError::Stale
    );
    assert_eq!(owner.pending_publication.as_ref().unwrap().phase, ConfigPhase::Published);
    let current = disk.receipt(CONFIG);
    let next = begin(&disk, &mut owner, CONFIG, &current).unwrap();
    assert_eq!(next.generation(), 2);
    assert_eq!(disk.read(CONFIG), b"committed");
}

#[test]
fn a_staged_file_that_changed_is_not_activated() {
    let (mut disk, mut owner, lease, staged) = leased();
    disk.write(STAGED, b"transienT");
    assert_eq!(
        activate(&mut disk, &mut owner, &lease, &staged).unwrap_err(),
        ConfigTransactionError::IdentityChanged
    );
    assert_eq!(disk.read(CONFIG), b"old");
    assert!(StagedArtifact::capture(lease.identity(), disk.receipt("/srv/none.js")).is_none());
}

#[test]
fn a_half_done_write_is_undone() {
    let (mut disk, mut owner, lease, staged) = leased();
    let found = disk.look(STAGED);
    let current = disk.look(CONFIG);
    let write = lease.activate(&mut owner, &staged, found, &current).unwrap();
    disk.write(CONFIG, &write.bytes);
    rollback(&mut disk, &mut owner, &lease).unwrap();
    assert_eq!(disk.read(CONFIG), b"old");
}

#[test]
fn helper_answers_are_held_to_the_staged_file() {
    let place = staging_place(
        "76db1078-74c9-45c1-87e1-e8258649815e",
        "9D31EB71-26CB-4C87-8B5A-4CADCC8E2F99",
    )
    .unwrap();
    assert_eq!(place.staging_id, "9d31eb71-26cb-4c87-8b5a-4cadcc8e2f99");
    let bytes = b"PRIVATE_STAGED_CONFIGURATION";
    let response =
        staged_response(42, place, STAGED.into(), bytes, &Some(bytes.to_vec())).unwrap();
    match &response {
        HelperResponse::Staged { generation, bytes, sha256, .. } => {
            assert_eq!(*generation, 42);
            assert_eq!(*bytes, 28);
            assert_eq!(sha256.len(), 64);
        }
        other => panic!("{other:?}"),
    }
    let mut disk = Disk::default();
    disk.write(STAGED, bytes);
    let artifact = StagedArtifact::from_helper(response, disk.look(STAGED)).unwrap();
    assert_eq!(artifact.transaction.generation(), 42);
    assert!(StagedArtifact::from_helper(HelperResponse::Completed, disk.look(STAGED)).is_none());
    assert!(staging_place("x", "9d31eb71-26cb-4c87-8b5a-4cadcc8e2f99").is_none());
    let place = staging_place(
        "76db1078-74c9-45c1-87e1-e8258649815e",
        "9d31eb71-26cb-4c87-8b5a-4cadcc8e2f99",
    )
    .unwrap();
    assert!(staged_response(42, place, STAGED.into(), bytes, &Some(b"x".to_vec())).is_none());
}

#[test]
fn configurations_are_written_out_exactly() {
    let url = "ws://127.0.0.1:47391/v1/bridge/photoshop/ws";
    let nonce = "a".repeat(64);
    let transient = bootstrap_config(url, "se\"cret", "retouch", Some(&nonce));
    assert_eq!(
        transient,
        format!("(function(){{globalThis.__ADOBEPY_BROKER_URL=\"{url}\";globalThis.__ADOBEPY_TOKEN=\"se\\\"cret\";globalThis.__ADOBEPY_TARGET=\"retouch\";globalThis.__ADOBEPY_BOOTSTRAP_NONCE=\"{nonce}\";}}());\n")
    );
    let committed = illustrator_bootstrap_config(url, "secret", "art", "profile", None);
    assert_eq!(
        committed,
        format!("(function(){{globalThis.__ADOBEPY_BROKER_URL=\"{url}\";globalThis.__ADOBEPY_TOKEN=\"secret\";globalThis.__ADOBEPY_TARGET=\"art\";globalThis.__ADOBEPY_HOST_IDENTITY={{profileId:\"profile\"}};delete globalThis.__ADOBEPY_BOOTSTRAP_NONCE;}}());\n")
    );
}

fn request() -> PhotoshopBootstrapRequest {
    PhotoshopBootstrapRequest {
        bootstrap_version: 1,
        target: "retouch".into(),
        timeout_ms: 1_000,
        host: PhotoshopHostTarget {
            executable_path: "C:/Adobe/Photoshop.exe".into(),
            executable_bytes: 42,
            executable_sha256: "a".repeat(64),
            host_version: "26.5.1".into(),
            profile_id: "profile-production".into(),
        },
        plugin: PhotoshopPluginTarget {
            installed_plugin_root: "C:/UXP/External/com.adobepy.bridge.photoshop".into(),
            module_origin: "C:/UXP/External/com.adobepy.bridge.photoshop/dist/main.js".into(),
            bridge_version: "0.1.0".into(),
            manifest_bytes: 640,
            manifest_sha256: "d".repeat(64),
            index_bytes: 180,
            index_sha256: "e".repeat(64),
            module_bytes: 47_901,
            module_sha256: "f".repeat(64),
        },
    }
}

#[test]
fn a_preparation_holds_the_old_and_both_new_configurations() {
    let nonce = "1".repeat(64);
    let prepared = prepare_photoshop(
        &request(),
        "f".repeat(64),
        CONFIG.into(),
        Some(b"old".to_vec()),
        &nonce,
        "secret",
        "ws://x",
    );
    assert_eq!(prepared.config_path.as_deref(), Some(CONFIG));
    assert_eq!(prepared.previous_config.as_deref(), Some(&b"old"[..]));
    assert_eq!(
        prepared.transient_config.unwrap(),
        bootstrap_config("ws://x", "secret", "retouch", Some(&nonce)).into_bytes()
    );
    assert_eq!(
        prepared.committed_config.unwrap(),
        bootstrap_config("ws://x", "secret", "retouch", None).into_bytes()
    );
    assert!(prepared.illustrator_receipt.is_none());
    let prepared = prepare_illustrator(
        &request(),
        plugin_receipt(),
        CONFIG.into(),
        None,
        &nonce,
        "secret",
        "ws://x",
    );
    let profile = "profile-production";
    assert_eq!(
        prepared.transient_config.unwrap(),
        illustrator_bootstrap_config("ws://x", "secret", "retouch", profile, Some(&nonce))
            .into_bytes()
    );
    assert_eq!(prepared.module_sha256, "b".repeat(64));
    assert_eq!(prepared.illustrator_receipt, Some(plugin_receipt()));
}

#[test]
fn hidden_files_are_named_by_their_identifier() {
    assert_eq!(
        hidden_file_name(0x76db1078_74c9_45c1_87e1_e8258649815e, ".stage"),
        ".adobepy.76db107874c945c187e1e8258649815e.stage"
    );
    assert_eq!(hidden_file_name(1, ".owned"), format!(".adobepy.{:032x}.owned", 1));
    assert_ne!(staging_file_name(), staging_file_name());
    assert!(quarantine_file_name().ends_with(".owned"));
}
