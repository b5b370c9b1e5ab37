//! The Photoshop bootstrap: one owner per target prepares, launches, verifies
//! and commits; identical requests follow the owner; every failure is rolled
//! back before anyone hears of it.
use vstd::prelude::*;

use crate::bootstrap_types::{
    BootstrapBrokerBinding, BootstrapBrokerBindingModel, BootstrapHostBinding,
    BootstrapHostBindingModel, BootstrapPluginBinding, BootstrapPluginBindingModel,
    PhotoshopBootstrapContinuation, PhotoshopBootstrapContinuationModel, PhotoshopBootstrapRequest,
    PhotoshopBootstrapRequestModel, PhotoshopBootstrapResult, PhotoshopBootstrapResultModel,
    PhotoshopBootstrapStatus,
};
use crate::checks::{normalized_paths_equal, paths_equal};
use crate::identity::{
    field_error, field_fault, fingerprint, identity_error, identity_fingerprint, stage_error,
    stage_fault,
};
use crate::json::{member, number, number_json, text_member, text_object, JsonModel, MemberModel, ObjectBuilder};
use crate::outside::{draw_uuid, is_random_uuid};
use crate::protocol::{
    data_error, BridgeKind, ErrorModel, RpcErrorResponse, ERROR_IDENTITY_AMBIGUOUS,
    ERROR_IDENTITY_MISMATCH, ERROR_IDENTITY_STALE, ERROR_IDENTITY_UNAVAILABLE, ERROR_TIMEOUT,
    PHOTOSHOP_BOOTSTRAP_VERSION,
};
use crate::receipts::{ObservedHostProcess, ObservedHostProcessModel, PreparedBootstrap};
use crate::runtime::{RuntimeIdentityAttestation, RuntimeIdentityAttestationModel};
use crate::settings::{is_fresh_nonce, random_nonce};
use crate::table::Table;

verus! {

/// How long a bootstrap result can be verified.
pub const RECEIPT_LIFETIME_MS: u128 = 120_000;

/// How long a bootstrap pauses before it looks for its bridge again.
pub const BOOTSTRAP_PAUSE_MS: u64 = 20;

/// A bootstrap in progress for one target.
#[derive(Debug)]
pub struct BootstrapGrant {
    pub request: PhotoshopBootstrapRequest,
    pub nonce: String,
    pub nonce_claimed: bool,
    pub observed: Option<ObservedHostProcess>,
    pub module_sha256: String,
    pub prepared: Option<PreparedBootstrap>,
    /// Names the bootstrap to those who wait for its outcome.
    pub ticket: u64,
}

/// A bootstrap result that can be verified until it expires.
#[derive(Debug)]
pub struct BootstrapReceipt {
    pub identity: RuntimeIdentityAttestation,
    pub result: PhotoshopBootstrapResult,
    pub expires_at_epoch_ms: u128,
}

/// The outcome of a bootstrap.
pub type BootstrapResult = Result<PhotoshopBootstrapResult, RpcErrorResponse>;

/// Where a bootstrap call stands. Up to `Reserving` the call owns nothing;
/// from `Preparing` on it owns the grant of its target.
#[derive(Debug)]
pub enum BootstrapPhase {
    /// The product and the plugin files are being attested.
    Attesting,
    /// Is a bootstrap in progress for the target?
    Looking,
    /// Is a bridge already connected for the target?
    CheckingSession,
    /// A bridge is connected; is a bootstrap in progress after all?
    LookingAgain,
    /// The connected bridge's identity is about to be read.
    ReadingIdentity,
    /// The connected bridge's processes are being looked up.
    ValidatingReady { identity: RuntimeIdentityAttestation },
    /// The target is about to be reserved.
    Reserving,
    /// The plugin configuration is being written.
    Preparing,
    /// The configuration is in place.
    Prepared,
    /// The host is being started.
    Launching,
    /// The host has been started.
    Launched,
    /// The bridge is awaited.
    Polling,
    /// The new bridge's processes are being looked up.
    ValidatingLaunched {
        identity: RuntimeIdentityAttestation,
        observed: Option<ObservedHostProcess>,
    },
    /// The configuration is being committed.
    Committing { identity: RuntimeIdentityAttestation },
    /// The broker's own executable is being hashed.
    HashingBroker {
        identity: RuntimeIdentityAttestation,
        module_sha256: String,
        status: PhotoshopBootstrapStatus,
        owner: bool,
    },
    /// A receipt identifier is being drawn.
    Minting {
        identity: RuntimeIdentityAttestation,
        module_sha256: String,
        status: PhotoshopBootstrapStatus,
        owner: bool,
        broker_sha256: String,
        fingerprint: String,
    },
    /// The receipt is about to be stored.
    Recording { receipt_id: String, receipt: BootstrapReceipt, owner: bool },
    /// The grant's configuration is being rolled back.
    RollingBack { error: RpcErrorResponse },
    /// A configuration whose grant is gone is being rolled back.
    Discarding { error: RpcErrorResponse },
    Finished,
}

/// What the caller of [`BootstrapCall::advance`] has to do next.
#[derive(Debug)]
pub enum BootstrapAction {
    /// Attest the product and the plugin files; report `Attested`.
    Attest,
    /// Report `Resume`.
    Resume,
    /// Look the processes up; report `ProcessesChecked`.
    CheckProcesses { claimed: ObservedHostProcess, observed: Option<ObservedHostProcess> },
    /// Draw a nonce; report `Nonce`.
    DrawNonce,
    /// Write the plugin configuration; report `Prepared`.
    Prepare,
    /// Start the host; report `Launched`.
    Launch,
    /// Pause for so long; report `Resume`.
    Pause { millis: u64 },
    /// Commit the grant's configuration; report `Finalized`.
    Finalize,
    /// Hash the broker's executable; report `BrokerHashed`.
    HashBroker { executable_path: String },
    /// Draw a receipt identifier; report `ReceiptMinted`.
    MintReceipt,
    /// Roll the configuration back; report `RolledBack`.
    Rollback { prepared: PreparedBootstrap },
    /// Wait for the outcome of the bootstrap with this ticket.
    Follow { ticket: u64 },
    /// The call has ended. Where a ticket is given, the outcome is also
    /// handed to everyone who follows it.
    Finish { outcome: BootstrapResult, publish: Option<u64> },
    /// The call does not wait for this event; nothing has changed.
    Unexpected,
}

/// What the caller of [`BootstrapCall::advance`] reports.
#[derive(Debug)]
pub enum BootstrapEvent {
    Attested(Option<String>),
    Resume,
    ProcessesChecked { claimed_live: bool, observed_live: bool },
    Nonce(String),
    Prepared(Option<PreparedBootstrap>),
    Launched(Option<ObservedHostProcess>),
    Finalized(bool),
    BrokerHashed(Option<String>),
    ReceiptMinted(u128),
    RolledBack(bool),
}

impl BootstrapEvent {
    /// A nonce was drawn. Which one is left to chance.
    pub fn fresh_nonce() -> (r: Self)
        ensures
            r is Nonce,
            is_fresh_nonce(r->Nonce_0@),
    {
        BootstrapEvent::Nonce(random_nonce())
    }

    /// A receipt identifier was drawn. Which one is left to chance.
    pub fn fresh_receipt() -> (r: Self)
        ensures
            r is ReceiptMinted,
            is_random_uuid(r->ReceiptMinted_0),
    {
        BootstrapEvent::ReceiptMinted(draw_uuid())
    }
}

/// What a bootstrap call is about.
#[derive(Debug)]
pub struct BootstrapTask {
    pub request: PhotoshopBootstrapRequest,
    /// The session key of the target.
    pub key: String,
    /// On the clock that `advance` is given, in milliseconds.
    pub deadline: u128,
    /// The module digest that was attested.
    pub module_sha256: String,
}

/// One call of the bootstrap operation.
#[derive(Debug)]
pub struct BootstrapCall {
    pub task: BootstrapTask,
    pub phase: BootstrapPhase,
}

/// The error for a bootstrap that ran out of time.
pub open spec fn timeout_error(m: PhotoshopBootstrapRequestModel, stage: Seq<char>) -> ErrorModel {
    data_error(
        ERROR_TIMEOUT,
        "Photoshop UXP bootstrap exceeded its bounded operation deadline"@,
        JsonModel::Object(
            Seq::<MemberModel>::empty().push(member("stage"@, JsonModel::Text(stage))).push(
                member("timeoutMs"@, number_json(m.timeout_ms as nat)),
            ),
        ),
    )
}

/// The error for a bootstrap whose changes could not be undone.
pub open spec fn recovery_error(message: Seq<char>) -> ErrorModel {
    stage_error(ERROR_IDENTITY_STALE, message, "recovery"@)
}

/// The error for a request that differs from the one in progress.
pub open spec fn conflict_error(m: PhotoshopBootstrapRequestModel) -> ErrorModel {
    data_error(
        ERROR_IDENTITY_AMBIGUOUS,
        "a different Photoshop bootstrap is already active for this target"@,
        text_object("target"@, m.target),
    )
}

/// The error for a step of the bootstrap that failed.
pub open spec fn unavailable_error(message: Seq<char>, stage: Seq<char>) -> ErrorModel {
    stage_error(ERROR_IDENTITY_UNAVAILABLE, message, stage)
}

/// The error for a grant that disappeared.
pub open spec fn lost_error(message: Seq<char>, stage: Seq<char>) -> ErrorModel {
    stage_error(ERROR_IDENTITY_STALE, message, stage)
}

pub fn bootstrap_timeout_error(request: &PhotoshopBootstrapRequest, stage: &str) -> (r:
    RpcErrorResponse)
    ensures
        r@ == timeout_error(request@, stage@),
{
    let mut data = ObjectBuilder::new();
    data.put_text("stage", stage);
    data.put("timeoutMs", number(request.timeout_ms as u128));
    identity_error(
        ERROR_TIMEOUT,
        "Photoshop UXP bootstrap exceeded its bounded operation deadline",
        data.finish(),
    )
}

pub fn bootstrap_recovery_error(message: &str) -> (r: RpcErrorResponse)
    ensures
        r@ == recovery_error(message@),
{
    stage_fault(ERROR_IDENTITY_STALE, message, "recovery")
}

pub fn bootstrap_conflict_error(request: &PhotoshopBootstrapRequest) -> (r: RpcErrorResponse)
    ensures
        r@ == conflict_error(request@),
{
    identity_error(
        ERROR_IDENTITY_AMBIGUOUS,
        "a different Photoshop bootstrap is already active for this target",
        text_member("target", request.target.as_str()),
    )
}

/// The identity is that of the requested host, profile, plugin and target,
/// its process is alive, and it is the observed process where one was seen.
pub open spec fn bootstrap_identity_ok(
    m: PhotoshopBootstrapRequestModel,
    identity: RuntimeIdentityAttestationModel,
    observed: Option<ObservedHostProcessModel>,
    claimed_live: bool,
    observed_live: bool,
) -> bool {
    &&& paths_equal(identity.host.executable_path, m.host.executable_path)
    &&& paths_equal(identity.bridge.installed_plugin_root, m.plugin.installed_plugin_root)
    &&& paths_equal(identity.bridge.module_origin, m.plugin.module_origin)
    &&& claimed_live
    &&& match observed {
        Some(seen) => observed_live && identity.host.pid == seen.pid
            && identity.host.process_start_identity == seen.process_start_identity && paths_equal(
            identity.host.executable_path,
            seen.executable_path,
        ),
        None => true,
    }
    &&& identity.host.host_version == m.host.host_version
    &&& identity.host.profile_id == m.host.profile_id
    &&& identity.bridge.target == m.target
    &&& identity.bridge.bridge_kind == BridgeKind::Uxp
    &&& identity.bridge.bridge_version == m.plugin.bridge_version
}

/// The error for a bridge that is not the requested one.
pub open spec fn foreign_error() -> ErrorModel {
    field_error(
        ERROR_IDENTITY_MISMATCH,
        "Photoshop bootstrap resolved to a foreign or mismatched instance"@,
        "runtimeIdentity"@,
    )
}

/// The view of an optional observed process.
pub open spec fn observed_model(o: Option<ObservedHostProcess>) -> Option<
    ObservedHostProcessModel,
> {
    match o {
        Some(seen) => Some(seen@),
        None => None,
    }
}

/// Checks that an identity is the requested one. `claimed_live` and
/// `observed_live` say whether the operating system still shows the process
/// of the identity and the observed process.
pub fn validate_bootstrap_identity(
    request: &PhotoshopBootstrapRequest,
    identity: &RuntimeIdentityAttestation,
    observed: &Option<ObservedHostProcess>,
    claimed_live: bool,
    observed_live: bool,
) -> (r: Result<(), RpcErrorResponse>)
    ensures
        ({
            let ok = bootstrap_identity_ok(
                request@,
                identity@,
                observed_model(*observed),
                claimed_live,
                observed_live,
            );
            match r {
                Ok(()) => ok,
                Err(e) => !ok && e@ == foreign_error(),
            }
        }),
{
    let path_matches = normalized_paths_equal(
        identity.host.executable_path.as_str(),
        request.host.executable_path.as_str(),
    ) && normalized_paths_equal(
        identity.bridge.installed_plugin_root.as_str(),
        request.plugin.installed_plugin_root.as_str(),
    ) && normalized_paths_equal(
        identity.bridge.module_origin.as_str(),
        request.plugin.module_origin.as_str(),
    );
    let observed_matches = claimed_live && match observed {
        Some(seen) => observed_live && identity.host.pid == seen.pid
            && identity.host.process_start_identity == seen.process_start_identity
            && normalized_paths_equal(
            identity.host.executable_path.as_str(),
            seen.executable_path.as_str(),
        ),
        None => true,
    };
    if !path_matches || !observed_matches || identity.host.host_version
        != request.host.host_version || identity.host.profile_id != request.host.profile_id
        || identity.bridge.target != request.target || identity.bridge.bridge_kind
        != BridgeKind::Uxp || identity.bridge.bridge_version != request.plugin.bridge_version {
        return Err(
            field_fault(
                ERROR_IDENTITY_MISMATCH,
                "Photoshop bootstrap resolved to a foreign or mismatched instance",
                "runtimeIdentity",
            ),
        );
    }
    Ok(())
}

/// The process that an identity names.
pub open spec fn claimed_process_model(identity: RuntimeIdentityAttestationModel) -> ObservedHostProcessModel {
    ObservedHostProcessModel {
        pid: identity.host.pid,
        process_start_identity: identity.host.process_start_identity,
        executable_path: identity.host.executable_path,
    }
}

/// The process that an identity names.
pub fn claimed_process(identity: &RuntimeIdentityAttestation) -> (r: ObservedHostProcess)
    ensures
        r@ == claimed_process_model(identity@),
{
    ObservedHostProcess {
        pid: identity.host.pid,
        process_start_identity: identity.host.process_start_identity.clone(),
        executable_path: identity.host.executable_path.clone(),
    }
}

/// The result of a bootstrap that bound the given identity.
pub open spec fn bound_result(
    identity: RuntimeIdentityAttestationModel,
    m: PhotoshopBootstrapRequestModel,
    module_sha256: Seq<char>,
    status: PhotoshopBootstrapStatus,
    broker_sha256: Seq<char>,
    fingerprint: Seq<char>,
    receipt_id: Seq<char>,
) -> PhotoshopBootstrapResultModel {
    PhotoshopBootstrapResultModel {
        bootstrap_version: PHOTOSHOP_BOOTSTRAP_VERSION,
        status,
        identity_fingerprint: fingerprint,
        broker: BootstrapBrokerBindingModel {
            pid: identity.broker.pid,
            process_start_identity: identity.broker.process_start_identity,
            runtime_version: identity.broker.runtime_version,
            instance_id: identity.broker.instance_id,
            executable_sha256: broker_sha256,
        },
        host: BootstrapHostBindingModel {
            pid: identity.host.pid,
            process_start_identity: identity.host.process_start_identity,
            host_version: identity.host.host_version,
            profile_id: identity.host.profile_id,
            executable_sha256: m.host.executable_sha256,
        },
        plugin: BootstrapPluginBindingModel {
            instance_id: identity.bridge.instance_id,
            bridge_version: identity.bridge.bridge_version,
            module_sha256,
        },
        continuation: PhotoshopBootstrapContinuationModel {
            method: "POST"@,
            path: "/v1/photoshop/bootstrap/verify"@,
            receipt_id,
            timeout_ms: m.timeout_ms,
        },
        adapter_continuation: None,
    }
}

pub fn bind_result(
    identity: &RuntimeIdentityAttestation,
    request: &PhotoshopBootstrapRequest,
    module_sha256: String,
    status: PhotoshopBootstrapStatus,
    broker_sha256: String,
    fingerprint: String,
    receipt_id: String,
) -> (r: PhotoshopBootstrapResult)
    ensures
        r@ == bound_result(
            identity@,
            request@,
            module_sha256@,
            status,
            broker_sha256@,
            fingerprint@,
            receipt_id@,
        ),
{
    PhotoshopBootstrapResult {
        bootstrap_version: PHOTOSHOP_BOOTSTRAP_VERSION,
        status,
        identity_fingerprint: fingerprint,
        broker: BootstrapBrokerBinding {
            pid: identity.broker.pid,
            process_start_identity: identity.broker.process_start_identity.clone(),
            runtime_version: identity.broker.runtime_version.clone(),
            instance_id: identity.broker.instance_id.clone(),
            executable_sha256: broker_sha256,
        },
        host: BootstrapHostBinding {
            pid: identity.host.pid,
            process_start_identity: identity.host.process_start_identity.clone(),
            host_version: identity.host.host_version.clone(),
            profile_id: identity.host.profile_id.clone(),
            executable_sha256: request.host.executable_sha256.clone(),
        },
        plugin: BootstrapPluginBinding {
            instance_id: identity.bridge.instance_id.clone(),
            bridge_version: identity.bridge.bridge_version.clone(),
            module_sha256,
        },
        continuation: PhotoshopBootstrapContinuation {
            method: "POST".to_owned(),
            path: "/v1/photoshop/bootstrap/verify".to_owned(),
            receipt_id,
            timeout_ms: request.timeout_ms,
        },
        adapter_continuation: None,
    }
}

/// The receipts that have not expired.
pub open spec fn unexpired(receipts: Map<Seq<char>, BootstrapReceipt>, epoch_ms: u128) -> Map<
    Seq<char>,
    BootstrapReceipt,
> {
    receipts.restrict(
        Set::new(
            |id: Seq<char>|
                receipts.dom().contains(id) && receipts[id].expires_at_epoch_ms >= epoch_ms,
        ),
    )
}

pub fn drop_expired(receipts: &mut Table<BootstrapReceipt>, epoch_ms: u128)
    ensures
        final(receipts)@ == unexpired(old(receipts)@, epoch_ms),
{
    let ghost all = receipts@;
    let mut kept: Table<BootstrapReceipt> = Table::new();
    loop
        invariant
            forall|id: Seq<char>| #[trigger]
                receipts@.dom().contains(id) ==> all.dom().contains(id) && receipts@[id] == all[id],
            forall|id: Seq<char>| #[trigger]
                kept@.dom().contains(id) ==> all.dom().contains(id) && kept@[id] == all[id]
                    && all[id].expires_at_epoch_ms >= epoch_ms,
            forall|id: Seq<char>| #[trigger]
                all.dom().contains(id) && all[id].expires_at_epoch_ms >= epoch_ms
                    ==> receipts@.dom().contains(id) || kept@.dom().contains(id),
        ensures
            receipts@ == Map::<Seq<char>, BootstrapReceipt>::empty(),
        decreases receipts.size(),
    {
        let ghost before = receipts@;
        match receipts.pop() {
            Some(entry) => {
                assert(before.dom().contains(entry.key@));
                if entry.value.expires_at_epoch_ms >= epoch_ms {
                    kept.insert(entry.key, entry.value);
                }
            },
            None => {
                break ;
            },
        }
    }
    *receipts = kept;
    assert(receipts@ =~= unexpired(all, epoch_ms));
}

} // verus!
