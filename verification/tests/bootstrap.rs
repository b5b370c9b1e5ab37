//! The Photoshop bootstrap, driven step by step on a clock of its own.
use adobepy::bootstrap::{
    BootstrapAction, BootstrapCall, BootstrapEvent, BootstrapPhase, BootstrapResult,
    RECEIPT_LIFETIME_MS,
};
use adobepy::bootstrap_outcome::{finish_verify, wait_for_bootstrap_completion, FollowStep};
use adobepy::bootstrap_types::{
    PhotoshopBootstrapRequest, PhotoshopBootstrapStatus, PhotoshopHostTarget, PhotoshopPluginTarget,
};
use adobepy::broker::BrokerState;
use adobepy::handshake::{BindingPoll, BoundHandshake, Opening};
use adobepy::identity::stage_fault;
use adobepy::json::to_text;
use adobepy::protocol::{
    session_key, BridgeKind, BridgeSessionInfo, Capabilities, HostKind, RpcErrorResponse,
    ERROR_IDENTITY_AMBIGUOUS, ERROR_IDENTITY_MISMATCH, ERROR_IDENTITY_STALE,
    ERROR_IDENTITY_UNAVAILABLE, ERROR_INVALID_REQUEST, ERROR_TIMEOUT, PHOTOSHOP_BOOTSTRAP_VERSION,
};
use adobepy::receipts::{ObservedHostProcess, PreparedBootstrap};
use adobepy::runtime::{
    BridgeIdentityClaim, BridgeInbound, BridgeInstanceClaim, HostIdentityClaim,
};
use adobepy::settings::{capture_broker_identity, photoshop_websocket_url, BindAddress};
use adobepy::table::Table;

const EPOCH_MS: u64 = 1_720_000_000_000;

/// A machine that does what the broker asks and counts it.
struct Machine {
    state: BrokerState,
    now: u64,
    attests: usize,
    prepares: usize,
    prepare_fails: bool,
    launches: usize,
    launch_fails: bool,
    finalizes: usize,
    finalize_fails: bool,
    rollbacks: usize,
    rollback_fails: bool,
    process_valid: bool,
    config_state: usize,
    published: Vec<(u64, BootstrapResult)>,
}

impl Machine {
    fn ready() -> Machine {
        let identity = capture_broker_identity(
            4100,
            "linux:76db1078-74c9-45c1-87e1-e8258649815e:77".into(),
            "/opt/adobepy/adobepy".into(),
            "0.8.0".into(),
        )
        .expect("capture test broker identity");
        let address = BindAddress::V4 { a: 127, b: 0, c: 0, d: 1 };
        let url = photoshop_websocket_url(address, 47_391).unwrap();
        Machine {
            state: BrokerState::new("t".into(), 1, identity, url),
            now: 0,
            attests: 0,
            prepares: 0,
            prepare_fails: false,
            launches: 0,
            launch_fails: false,
            finalizes: 0,
            finalize_fails: false,
            rollbacks: 0,
            rollback_fails: false,
            process_valid: true,
            config_state: 1,
            published: vec![],
        }
    }

    fn perform(&mut self, action: &BootstrapAction) -> BootstrapEvent {
        match action {
            BootstrapAction::Attest => {
                self.attests += 1;
                BootstrapEvent::Attested(Some("d".repeat(64)))
            }
            BootstrapAction::Resume | BootstrapAction::Pause { .. } => BootstrapEvent::Resume,
            BootstrapAction::CheckProcesses { .. } => BootstrapEvent::ProcessesChecked {
                claimed_live: self.process_valid,
                observed_live: self.process_valid,
            },
            BootstrapAction::DrawNonce => BootstrapEvent::fresh_nonce(),
            BootstrapAction::Prepare => {
                self.prepares += 1;
                self.config_state = 2;
                if self.prepare_fails {
                    self.rollbacks += 1;
                    self.config_state = 1;
                    return BootstrapEvent::Prepared(None);
                }
                BootstrapEvent::Prepared(Some(prepared()))
            }
            BootstrapAction::Launch => {
                self.launches += 1;
                if self.launch_fails {
                    return BootstrapEvent::Launched(None);
                }
                BootstrapEvent::Launched(Some(launched()))
            }
            BootstrapAction::Finalize => {
                self.finalizes += 1;
                if self.finalize_fails {
                    return BootstrapEvent::Finalized(false);
                }
                self.config_state = 3;
                BootstrapEvent::Finalized(true)
            }
            BootstrapAction::HashBroker { executable_path } => {
                assert_eq!(executable_path, "/opt/adobepy/adobepy");
                BootstrapEvent::BrokerHashed(Some("c".repeat(64)))
            }
            BootstrapAction::MintReceipt => BootstrapEvent::fresh_receipt(),
            BootstrapAction::Rollback { .. } => {
                self.rollbacks += 1;
                if self.rollback_fails {
                    return BootstrapEvent::RolledBack(false);
                }
                self.config_state = 1;
                BootstrapEvent::RolledBack(true)
            }
            other => panic!("nothing to perform for {other:?}"),
        }
    }

    fn grants(&self) -> usize {
        self.state.bootstrap_grants.len()
    }

    fn receipts(&self) -> usize {
        self.state.bootstrap_receipts.len()
    }

    /// The nonce and the observed process of the bootstrap in progress.
    fn grant(&self) -> (String, ObservedHostProcess) {
        let grant = self.state.bootstrap_grants.get(&retouch_key()).unwrap();
        (grant.nonce.clone(), grant.observed.clone().unwrap())
    }

    fn bind(
        &mut self,
        claim: Option<BridgeIdentityClaim>,
        nonce: Option<&str>,
    ) -> Result<BoundHandshake, RpcErrorResponse> {
        let hello = BridgeInbound::Hello {
            token: "t".into(),
            target: Some("retouch".into()),
            capabilities: caps(),
            identity: claim,
            bootstrap_nonce: nonce.map(str::to_owned),
        };
        let waiting = match self.state.open_handshake(HostKind::Photoshop, hello) {
            Opening::Refused(error) => return Err(error),
            Opening::Bound(bound) => return Ok(bound),
            Opening::Waiting(waiting) => waiting,
            Opening::Ignored => panic!("a hello was ignored"),
        };
        let waiting = match self.state.poll_handshake(waiting, 1_999) {
            BindingPoll::Wait(waiting) => waiting,
            BindingPoll::Refused(_) => panic!("a wait ended too early"),
            BindingPoll::Check(checking) => checking.waiting,
        };
        match self.state.poll_handshake(waiting, 2_000) {
            BindingPoll::Refused(error) => Err(error),
            BindingPoll::Wait(_) => panic!("an expired wait went on"),
            BindingPoll::Check(checking) => {
                self.state.bind_photoshop_bootstrap_claim(checking, self.process_valid)
            }
        }
    }

    fn publish_matching_session(&mut self) -> ObservedHostProcess {
        let (nonce, observed) = self.grant();
        let bound = self.bind(Some(identity_claim()), Some(&nonce)).unwrap();
        assert_eq!(bound.identity.as_ref().unwrap().host.pid, Some(observed.pid));
        self.state.register_bridge(bound, EPOCH_MS as u128).unwrap();
        observed
    }

    fn verify(&self, receipt_id: &str) -> BootstrapResult {
        match self.state.begin_verify(receipt_id, EPOCH_MS) {
            Err(error) => Err(error),
            Ok(verification) => finish_verify(verification, self.process_valid),
        }
    }
}

/// One caller of the bootstrap.
struct Caller {
    call: Option<BootstrapCall>,
    action: BootstrapAction,
}

impl Caller {
    fn enter(machine: &Machine, request: PhotoshopBootstrapRequest) -> Caller {
        Caller {
            call: Some(BootstrapCall::begin(request, machine.now).unwrap()),
            action: BootstrapAction::Attest,
        }
    }

    /// Performs the action in hand and hears what comes next.
    fn step(&mut self, machine: &mut Machine) {
        let event = machine.perform(&self.action);
        let call = self.call.take().unwrap();
        let (call, action) = call.advance(&mut machine.state, event, machine.now, EPOCH_MS);
        if let BootstrapAction::Finish { outcome, publish: Some(ticket) } = &action {
            machine.published.push((*ticket, outcome.clone()));
        }
        self.call = Some(call);
        self.action = action;
    }

    /// Steps until the given action is in hand.
    fn reach(&mut self, machine: &mut Machine, stop: fn(&BootstrapAction) -> bool) {
        let mut steps = 0;
        while !stop(&self.action) {
            assert!(steps < 64, "never got there: {:?}", self.action);
            self.step(machine);
            steps += 1;
        }
    }

    fn finish(&mut self, machine: &mut Machine) -> BootstrapResult {
        self.reach(machine, |action| matches!(action, BootstrapAction::Finish { .. }));
        match &self.action {
            BootstrapAction::Finish { outcome, .. } => outcome.clone(),
            other => panic!("{other:?}"),
        }
    }

    fn ticket(&self) -> u64 {
        match self.action {
            BootstrapAction::Follow { ticket } => ticket,
            _ => panic!("not a follower: {:?}", self.action),
        }
    }

    /// What a follower hears now.
    fn listen(&self, machine: &Machine) -> FollowStep {
        let ticket = self.ticket();
        let outcome = machine
            .published
            .iter()
            .find(|(published, _)| *published == ticket)
            .map(|(_, outcome)| outcome.clone());
        let task = &self.call.as_ref().unwrap().task;
        wait_for_bootstrap_completion(&task.request, task.deadline, machine.now, outcome, false)
    }

    fn hear(&self, machine: &Machine) -> BootstrapResult {
        match self.listen(machine) {
            FollowStep::Return(outcome) => outcome,
            FollowStep::Wait => panic!("the follower still waits"),
        }
    }
}

fn is_launch(action: &BootstrapAction) -> bool {
    matches!(action, BootstrapAction::Launch)
}

fn is_prepare(action: &BootstrapAction) -> bool {
    matches!(action, BootstrapAction::Prepare)
}

fn is_pause(action: &BootstrapAction) -> bool {
    matches!(action, BootstrapAction::Pause { millis: 20 })
}

fn is_follow(action: &BootstrapAction) -> bool {
    matches!(action, BootstrapAction::Follow { .. })
}

fn is_finalize(action: &BootstrapAction) -> bool {
    matches!(action, BootstrapAction::Finalize)
}

fn is_rollback(action: &BootstrapAction) -> bool {
    matches!(action, BootstrapAction::Rollback { .. })
}

fn retouch_key() -> String {
    session_key(HostKind::Photoshop, "retouch")
}

fn prepared() -> PreparedBootstrap {
    PreparedBootstrap {
        config_path: None,
        previous_config: None,
        transient_config: None,
        committed_config: None,
        module_sha256: "d".repeat(64),
        illustrator_receipt: None,
    }
}

fn launched() -> ObservedHostProcess {
    ObservedHostProcess {
        pid: 4200,
        process_start_identity: "windows:133700000000000100".into(),
        executable_path: "C:/Adobe/Photoshop.exe".into(),
    }
}

fn bootstrap_request(timeout_ms: u64) -> PhotoshopBootstrapRequest {
    PhotoshopBootstrapRequest {
        bootstrap_version: PHOTOSHOP_BOOTSTRAP_VERSION,
        target: "retouch".into(),
        timeout_ms,
        host: PhotoshopHostTarget {
            executable_path: "C:/Adobe/Photoshop.exe".into(),
            executable_bytes: 42,
            executable_sha256: "a".repeat(64),
            host_version: "26.5.1".into(),
            profile_id: "profile-production".into(),
        },
        plugin: PhotoshopPluginTarget {
            installed_plugin_root: "C:/UXP/External/com.adobepy.bridge.photoshop".into(),
            module_origin: "C:/UXP/External/com.adobepy.bridge.photoshop/dist/main.js".into(),
            bridge_version: "0.1.0".into(),
            manifest_bytes: 640,
            manifest_sha256: "d".repeat(64),
            index_bytes: 180,
            index_sha256: "e".repeat(64),
            module_bytes: 47_901,
            module_sha256: "f".repeat(64),
        },
    }
}

fn caps() -> Capabilities {
    let mut methods = Table::new();
    methods.insert("app".into(), vec!["getVersion".into()]);
    Capabilities {
        host: HostKind::Photoshop,
        bridge_kind: BridgeKind::Uxp,
        bridge_version: "0.1.0".into(),
        host_version: Some("26.5.1".into()),
        namespaces: vec!["app".into()],
        features: vec![],
        methods,
    }
}

fn identity_claim() -> BridgeIdentityClaim {
    BridgeIdentityClaim {
        host: HostIdentityClaim {
            pid: Some(4200),
            process_start_identity: Some("windows:133700000000000100".into()),
            executable_path: Some("C:/Adobe/Photoshop.exe".into()),
            host_version: Some("26.5.1".into()),
            profile_id: Some("profile-production".into()),
        },
        bridge: BridgeInstanceClaim {
            instance_id: Some("9d31eb71-26cb-4c87-8b5a-4cadcc8e2f99".into()),
            installed_plugin_root: Some("C:/UXP/External/com.adobepy.bridge.photoshop".into()),
            module_origin: Some("C:/UXP/External/com.adobepy.bridge.photoshop/dist/main.js".into()),
        },
    }
}

fn profile_only_claim() -> BridgeIdentityClaim {
    let mut claim = identity_claim();
    claim.host.pid = None;
    claim.host.process_start_identity = None;
    claim.host.executable_path = None;
    claim.host.host_version = None;
    claim
}

fn stage_of(error: &RpcErrorResponse) -> String {
    let data: serde_json::Value =
        serde_json::from_str(&to_text(error.error.data.as_ref().unwrap())).unwrap();
    data["stage"].as_str().unwrap().to_owned()
}

#[test]
fn photoshop_bootstrap_binds_exact_instance_and_is_idempotent() {
    let mut machine = Machine::ready();
    let request = bootstrap_request(1_000);
    let mut task = Caller::enter(&machine, request.clone());
    task.reach(&mut machine, is_pause);
    let (nonce, observed) = machine.grant();
    let bound = machine.bind(Some(profile_only_claim()), Some(&nonce)).unwrap();
    let bound_host = &bound.identity.as_ref().unwrap().host;
    assert_eq!(bound_host.pid, Some(observed.pid));
    assert_eq!(
        bound_host.process_start_identity.as_deref(),
        Some("windows:133700000000000100")
    );
    let replay = machine.bind(Some(identity_claim()), Some(&nonce)).unwrap_err();
    assert_eq!(replay.error.code, ERROR_IDENTITY_STALE);
    machine.state.register_bridge(bound, 1_720_000_000_000).unwrap();

    let result = task.finish(&mut machine).unwrap();
    assert_eq!(result.status, PhotoshopBootstrapStatus::Ready);
    assert_eq!(machine.launches, 1);
    let wire = to_text(&result.to_json());
    assert!(!wire.contains("C:/"));
    assert!(!wire.to_ascii_lowercase().contains("token"));

    let verified = machine.verify(&result.continuation.receipt_id).unwrap();
    assert_eq!(verified.identity_fingerprint, result.identity_fingerprint);
    let repeated = Caller::enter(&machine, request).finish(&mut machine).unwrap();
    assert_eq!(repeated.status, PhotoshopBootstrapStatus::AlreadyReady);
    assert_eq!(machine.launches, 1);
    assert_eq!(machine.grants(), 0);
    let error = machine.bind(Some(identity_claim()), Some(&nonce)).unwrap_err();
    assert_eq!(error.error.code, ERROR_IDENTITY_STALE);
    machine.process_valid = false;
    let error = machine.verify(&result.continuation.receipt_id).unwrap_err();
    assert_eq!(error.error.code, ERROR_IDENTITY_STALE);
}

#[test]
fn concurrent_identical_bootstrap_requests_share_one_launch() {
    let mut machine = Machine::ready();
    let request = bootstrap_request(1_000);
    let mut first = Caller::enter(&machine, request.clone());
    let mut second = Caller::enter(&machine, request);
    first.reach(&mut machine, is_prepare);
    second.reach(&mut machine, is_follow);
    machine.now = 100;
    first.reach(&mut machine, is_pause);
    let (nonce, observed) = machine.grant();
    let bound = machine.bind(Some(profile_only_claim()), Some(&nonce)).unwrap();
    assert_eq!(bound.identity.as_ref().unwrap().host.pid, Some(observed.pid));
    machine.state.register_bridge(bound, 1_720_000_000_000).unwrap();

    let first = first.finish(&mut machine).unwrap();
    let second = second.hear(&machine).unwrap();
    assert_eq!(second, first);
    assert_eq!(machine.receipts(), 1);
    let verified = machine.verify(&first.continuation.receipt_id).unwrap();
    assert_eq!(verified, first);
    assert_eq!(machine.prepares, 1);
    assert_eq!(machine.launches, 1);
    assert_eq!(machine.finalizes, 1);
    assert_eq!(machine.rollbacks, 0);
    assert_eq!(machine.grants(), 0);
}

#[test]
fn staggered_follower_uses_its_own_entry_deadline_without_cancelling_owner() {
    let mut machine = Machine::ready();
    let request = bootstrap_request(500);
    let mut first = Caller::enter(&machine, request.clone());
    machine.now = 150;
    let mut owner = Caller::enter(&machine, request);
    owner.reach(&mut machine, is_prepare);
    machine.now = 300;
    first.reach(&mut machine, is_follow);
    assert!(matches!(first.listen(&machine), FollowStep::Wait));

    machine.now = 500;
    let first_error = first.hear(&machine).unwrap_err();
    assert_eq!(first_error.error.code, ERROR_TIMEOUT);
    assert_eq!(stage_of(&first_error), "transaction");
    assert!(is_prepare(&owner.action));
    assert_eq!(machine.rollbacks, 0);
    assert_eq!(machine.receipts(), 0);
    assert!(machine.state.bootstrap_grants.contains(&retouch_key()));

    machine.now = 550;
    owner.reach(&mut machine, is_pause);
    machine.publish_matching_session();
    let owner_result = owner.finish(&mut machine).unwrap();
    assert_eq!(owner_result.status, PhotoshopBootstrapStatus::Ready);
    assert_eq!(machine.prepares, 1);
    assert_eq!(machine.launches, 1);
    assert_eq!(machine.finalizes, 1);
    assert_eq!(machine.rollbacks, 0);
    assert_eq!(machine.receipts(), 1);
    assert_eq!(machine.verify(&owner_result.continuation.receipt_id).unwrap(), owner_result);
    assert_eq!(machine.grants(), 0);
}

#[test]
fn follower_wait_is_race_safe_for_terminal_close_and_its_local_deadline() {
    let request = bootstrap_request(500);
    let terminal =
        stage_fault(ERROR_IDENTITY_UNAVAILABLE, "the owner failed deterministically", "commit");
    let observed = match wait_for_bootstrap_completion(
        &request,
        1_000,
        0,
        Some(Err(terminal.clone())),
        true,
    ) {
        FollowStep::Return(outcome) => outcome.unwrap_err(),
        FollowStep::Wait => panic!("a terminal outcome was not told"),
    };
    assert_eq!(observed.error.code, terminal.error.code);
    assert_eq!(observed.error.data, terminal.error.data);

    let closed = match wait_for_bootstrap_completion(&request, 1_000, 0, None, true) {
        FollowStep::Return(outcome) => outcome.unwrap_err(),
        FollowStep::Wait => panic!("a closed channel was waited for"),
    };
    assert_eq!(closed.error.code, ERROR_IDENTITY_STALE);
    assert_eq!(stage_of(&closed), "transaction");

    assert!(matches!(
        wait_for_bootstrap_completion(&request, 30, 29, None, false),
        FollowStep::Wait
    ));
    let timed_out = match wait_for_bootstrap_completion(&request, 30, 30, None, false) {
        FollowStep::Return(outcome) => outcome.unwrap_err(),
        FollowStep::Wait => panic!("the deadline was passed over"),
    };
    assert_eq!(timed_out.error.code, ERROR_TIMEOUT);
    assert_eq!(stage_of(&timed_out), "transaction");
    let late = match wait_for_bootstrap_completion(&request, 30, 80, Some(Err(terminal)), false) {
        FollowStep::Return(outcome) => outcome.unwrap_err(),
        FollowStep::Wait => panic!("the deadline was passed over"),
    };
    assert_eq!(late.error.code, ERROR_TIMEOUT);
}

#[test]
fn identical_waiter_observes_the_owners_durable_commit_failure() {
    let mut machine = Machine::ready();
    machine.finalize_fails = true;
    let request = bootstrap_request(1_000);
    let mut first = Caller::enter(&machine, request.clone());
    let mut second = Caller::enter(&machine, request);
    first.reach(&mut machine, is_pause);
    second.reach(&mut machine, is_follow);
    machine.publish_matching_session();
    first.reach(&mut machine, is_finalize);
    assert!(
        matches!(second.listen(&machine), FollowStep::Wait),
        "an identical waiter returned before the owner finished finalize"
    );
    machine.now = 150;
    first.step(&mut machine);
    assert!(is_rollback(&first.action));
    assert!(matches!(second.listen(&machine), FollowStep::Wait));
    let errors = [
        first.finish(&mut machine).unwrap_err(),
        second.hear(&machine).unwrap_err(),
    ];
    assert_eq!(errors[0].error.code, ERROR_IDENTITY_UNAVAILABLE);
    assert_eq!(errors[1].error.code, errors[0].error.code);
    assert_eq!(errors[1].error.data, errors[0].error.data);
    assert_eq!(machine.prepares, 1);
    assert_eq!(machine.launches, 1);
    assert_eq!(machine.finalizes, 1);
    assert_eq!(machine.rollbacks, 1);
    assert_eq!(machine.config_state, 1);
    assert_eq!(machine.grants(), 0);
    assert_eq!(machine.receipts(), 0);
}

#[test]
fn late_finalize_failure_is_one_timeout_outcome_for_owner_and_waiter() {
    let mut machine = Machine::ready();
    machine.finalize_fails = true;
    let request = bootstrap_request(200);
    let mut first = Caller::enter(&machine, request.clone());
    let mut second = Caller::enter(&machine, request);
    first.reach(&mut machine, is_pause);
    second.reach(&mut machine, is_follow);
    machine.publish_matching_session();
    first.reach(&mut machine, is_finalize);
    machine.now = 250;
    let errors = [
        second.hear(&machine).unwrap_err(),
        first.finish(&mut machine).unwrap_err(),
    ];
    assert!(errors.iter().all(|error| error.error.code == ERROR_TIMEOUT));
    let mut stages: Vec<String> = errors.iter().map(stage_of).collect();
    stages.sort_unstable();
    assert_eq!(stages, ["commit", "transaction"]);
    assert_eq!(machine.rollbacks, 1);
    assert_eq!(machine.config_state, 1);
    assert_eq!(machine.grants(), 0);
    assert_eq!(machine.receipts(), 0);
}

#[test]
fn receipt_deadline_failure_is_shared_only_after_rollback() {
    let mut machine = Machine::ready();
    let request = bootstrap_request(200);
    let mut first = Caller::enter(&machine, request.clone());
    let mut second = Caller::enter(&machine, request);
    first.reach(&mut machine, is_pause);
    second.reach(&mut machine, is_follow);
    machine.publish_matching_session();
    first.reach(&mut machine, |action| matches!(action, BootstrapAction::MintReceipt));
    first.step(&mut machine);
    machine.now = 250;
    let errors = [
        second.hear(&machine).unwrap_err(),
        first.finish(&mut machine).unwrap_err(),
    ];
    assert!(errors.iter().all(|error| error.error.code == ERROR_TIMEOUT));
    let mut stages: Vec<String> = errors.iter().map(stage_of).collect();
    stages.sort_unstable();
    assert_eq!(stages, ["receipt", "transaction"]);
    assert_eq!(machine.finalizes, 1);
    assert_eq!(machine.rollbacks, 1);
    assert_eq!(machine.config_state, 1);
    assert_eq!(machine.grants(), 0);
    assert_eq!(machine.receipts(), 0);
}

#[test]
fn simultaneous_conflicting_bootstraps_have_one_owner_and_no_second_effects() {
    let mut machine = Machine::ready();
    let first_request = bootstrap_request(1_000);
    let mut second_request = first_request.clone();
    second_request.host.profile_id = "profile-conflict".into();
    let mut first = Caller::enter(&machine, first_request);
    let mut second = Caller::enter(&machine, second_request);
    first.reach(&mut machine, is_prepare);
    machine.now = 100;
    first.reach(&mut machine, is_pause);
    let second_outcome = second.finish(&mut machine);
    let (nonce, observed) = machine.grant();
    let profile_id = {
        let grant = machine.state.bootstrap_grants.get(&retouch_key()).unwrap();
        grant.request.host.profile_id.clone()
    };
    let mut claim = identity_claim();
    claim.host.profile_id = Some(profile_id);
    let bound = machine.bind(Some(claim), Some(&nonce)).unwrap();
    assert_eq!(bound.identity.as_ref().unwrap().host.pid, Some(observed.pid));
    machine.state.register_bridge(bound, 1_720_000_000_000).unwrap();

    let outcomes = [first.finish(&mut machine), second_outcome];
    assert_eq!(outcomes.iter().filter(|value| value.is_ok()).count(), 1);
    assert_eq!(
        outcomes
            .iter()
            .filter(|value| {
                value.as_ref().is_err_and(|error| error.error.code == ERROR_IDENTITY_AMBIGUOUS)
            })
            .count(),
        1
    );
    assert_eq!(machine.prepares, 1);
    assert_eq!(machine.launches, 1);
    assert_eq!(machine.rollbacks, 0);
}

#[test]
fn bootstrap_rejects_an_unobserved_profile_without_request_fallback() {
    let mut machine = Machine::ready();
    let mut task = Caller::enter(&machine, bootstrap_request(50));
    task.reach(&mut machine, is_pause);
    let (nonce, _) = machine.grant();
    let mut missing_profile = identity_claim();
    missing_profile.host.profile_id = None;
    let error = machine.bind(Some(missing_profile), Some(&nonce)).unwrap_err();
    assert_eq!(error.error.code, ERROR_IDENTITY_UNAVAILABLE);
    assert!(to_text(error.error.data.as_ref().unwrap()).contains("identity.host.profileId"));
    machine.now = 50;
    assert_eq!(task.finish(&mut machine).unwrap_err().error.code, ERROR_TIMEOUT);
    assert_eq!(machine.rollbacks, 1);
}

#[test]
fn timeout_budget_starts_at_entry_and_cleans_every_mutating_phase() {
    let mut attest = Machine::ready();
    let mut call = Caller::enter(&attest, bootstrap_request(50));
    attest.now = 80;
    let error = call.finish(&mut attest).unwrap_err();
    assert_eq!(error.error.code, ERROR_TIMEOUT);
    assert_eq!(attest.prepares, 0);
    assert_eq!(attest.launches, 0);

    let mut hash = Machine::ready();
    hash.state.sessions.insert(
        retouch_key(),
        BridgeSessionInfo {
            target: "retouch".into(),
            capabilities: caps(),
            connected_at_epoch_ms: 1_720_000_000_000,
        },
    );
    hash.state.session_identities.insert(retouch_key(), identity_claim());
    let mut call = Caller::enter(&hash, bootstrap_request(50));
    call.reach(&mut hash, |action| matches!(action, BootstrapAction::HashBroker { .. }));
    hash.now = 80;
    let error = call.finish(&mut hash).unwrap_err();
    assert_eq!(error.error.code, ERROR_TIMEOUT);
    assert_eq!(stage_of(&error), "broker_attestation");
    assert_eq!(hash.prepares, 0);
    assert_eq!(hash.launches, 0);

    let mut prepare = Machine::ready();
    let mut call = Caller::enter(&prepare, bootstrap_request(50));
    call.reach(&mut prepare, is_prepare);
    prepare.now = 80;
    let error = call.finish(&mut prepare).unwrap_err();
    assert_eq!(error.error.code, ERROR_TIMEOUT);
    assert_eq!(prepare.prepares, 1);
    assert_eq!(prepare.launches, 0);
    assert_eq!(prepare.rollbacks, 1);
    assert_eq!(prepare.config_state, 1);
    assert_eq!(prepare.grants(), 0);

    let mut launch = Machine::ready();
    let mut call = Caller::enter(&launch, bootstrap_request(50));
    call.reach(&mut launch, is_launch);
    launch.now = 80;
    let error = call.finish(&mut launch).unwrap_err();
    assert_eq!(error.error.code, ERROR_TIMEOUT);
    assert_eq!(launch.prepares, 1);
    assert_eq!(launch.launches, 1);
    assert_eq!(launch.rollbacks, 1);
    assert_eq!(launch.config_state, 1);
    assert_eq!(launch.grants(), 0);

    let mut rollback = Machine::ready();
    let mut call = Caller::enter(&rollback, bootstrap_request(50));
    call.reach(&mut rollback, is_pause);
    rollback.now = 50;
    call.reach(&mut rollback, is_rollback);
    rollback.now = 130;
    let error = call.finish(&mut rollback).unwrap_err();
    assert_eq!(error.error.code, ERROR_TIMEOUT);
    assert_eq!(rollback.rollbacks, 1);
    assert_eq!(rollback.config_state, 1);
    assert_eq!(rollback.grants(), 0);
}

#[test]
fn late_prepare_and_launch_failures_share_timeout_after_exact_recovery() {
    for stage in ["prepare", "launch"] {
        let mut machine = Machine::ready();
        machine.prepare_fails = stage == "prepare";
        machine.launch_fails = stage == "launch";
        let mut first = Caller::enter(&machine, bootstrap_request(200));
        let mut second = Caller::enter(&machine, bootstrap_request(200));
        first.reach(&mut machine, if stage == "prepare" { is_prepare } else { is_launch });
        second.reach(&mut machine, is_follow);
        machine.now = 250;
        let errors = [
            second.hear(&machine).unwrap_err(),
            first.finish(&mut machine).unwrap_err(),
        ];
        assert!(errors.iter().all(|error| error.error.code == ERROR_TIMEOUT), "{stage}");
        let mut stages: Vec<String> = errors.iter().map(stage_of).collect();
        stages.sort_unstable();
        assert_eq!(stages, [stage, "transaction"], "{stage}");
        assert_eq!(machine.prepares, 1, "{stage}");
        assert_eq!(machine.launches, usize::from(stage == "launch"), "{stage}");
        assert_eq!(machine.rollbacks, 1, "{stage}");
        assert_eq!(machine.config_state, 1, "{stage}");
        assert_eq!(machine.grants(), 0, "{stage}");
        assert_eq!(machine.receipts(), 0, "{stage}");
    }
}

#[test]
fn recovery_failure_reaches_a_waiter_that_is_still_within_its_own_deadline() {
    let mut machine = Machine::ready();
    machine.rollback_fails = true;
    let request = bootstrap_request(200);
    let mut owner = Caller::enter(&machine, request.clone());
    owner.reach(&mut machine, is_launch);
    machine.now = 80;
    let mut waiter = Caller::enter(&machine, request);
    waiter.reach(&mut machine, is_follow);
    machine.now = 250;
    let errors = [
        owner.finish(&mut machine).unwrap_err(),
        waiter.hear(&machine).unwrap_err(),
    ];
    assert_eq!(errors[0].error.code, ERROR_IDENTITY_STALE);
    assert_eq!(errors[1].error.code, errors[0].error.code);
    assert_eq!(errors[1].error.data, errors[0].error.data);
    assert_eq!(stage_of(&errors[0]), "recovery");
    assert_eq!(machine.rollbacks, 1);
    assert_eq!(machine.config_state, 2);
    assert_eq!(machine.grants(), 0);
    assert_eq!(machine.receipts(), 0);
}

/// Ends the bootstrap of a target as a cancelled owner does.
fn cancel(machine: &mut Machine) -> Option<(u64, RpcErrorResponse)> {
    let mut failed = false;
    if let Some(prepared) = machine.state.begin_cancel(&retouch_key()) {
        let event = machine.perform(&BootstrapAction::Rollback { prepared });
        failed = !matches!(event, BootstrapEvent::RolledBack(true));
    }
    machine
        .state
        .finish_cancel(&retouch_key(), failed)
        .map(|cancellation| (cancellation.ticket, cancellation.error))
}

#[test]
fn abort_after_prepare_rolls_back_once_and_removes_the_grant() {
    let mut machine = Machine::ready();
    let mut task = Caller::enter(&machine, bootstrap_request(1_000));
    task.reach(&mut machine, is_launch);
    assert_eq!(machine.config_state, 2);
    assert!(cancel(&mut machine).is_some());
    assert_eq!(machine.rollbacks, 1);
    assert_eq!(machine.config_state, 1);
    assert_eq!(machine.grants(), 0);
    assert!(cancel(&mut machine).is_none());
    assert_eq!(machine.rollbacks, 1);
}

#[test]
fn owner_cancellation_rolls_back_before_releasing_identical_waiters() {
    let mut machine = Machine::ready();
    let request = bootstrap_request(1_000);
    let mut owner = Caller::enter(&machine, request.clone());
    owner.reach(&mut machine, is_launch);
    assert_eq!(machine.config_state, 2);
    let mut waiter = Caller::enter(&machine, request);
    waiter.reach(&mut machine, is_follow);
    assert!(matches!(waiter.listen(&machine), FollowStep::Wait));

    let (ticket, told) = cancel(&mut machine).unwrap();
    machine.published.push((ticket, Err(told)));
    let error = waiter.hear(&machine).unwrap_err();
    assert_eq!(error.error.code, ERROR_IDENTITY_STALE);
    assert_eq!(stage_of(&error), "cancellation");
    assert_eq!(machine.rollbacks, 1);
    assert_eq!(machine.config_state, 1);
    assert_eq!(machine.grants(), 0);
    assert_eq!(machine.receipts(), 0);
}

#[test]
fn photoshop_bootstrap_rejects_foreign_stale_and_timed_out_connections() {
    let mut machine = Machine::ready();
    let mut task = Caller::enter(&machine, bootstrap_request(50));
    task.reach(&mut machine, is_pause);
    let (nonce, _) = machine.grant();
    let mut foreign = identity_claim();
    foreign.bridge.module_origin = Some("C:/Foreign/dist/main.js".into());
    let error = machine.bind(Some(foreign), Some(&nonce)).unwrap_err();
    assert_eq!(error.error.code, ERROR_IDENTITY_MISMATCH);
    let mut wrong_profile = identity_claim();
    wrong_profile.host.profile_id = Some("foreign-profile".into());
    let error = machine.bind(Some(wrong_profile), Some(&nonce)).unwrap_err();
    assert_eq!(error.error.code, ERROR_IDENTITY_MISMATCH);

    machine.now = 50;
    let error = task.finish(&mut machine).unwrap_err();
    assert_eq!(error.error.code, ERROR_TIMEOUT);
    assert_eq!(machine.rollbacks, 1);

    let mut machine = Machine::ready();
    let mut task = Caller::enter(&machine, bootstrap_request(1_000));
    task.reach(&mut machine, is_pause);
    let (nonce, _) = machine.grant();
    machine.process_valid = false;
    let error = machine.bind(Some(identity_claim()), Some(&nonce)).unwrap_err();
    assert_eq!(error.error.code, ERROR_IDENTITY_STALE);
}

#[test]
fn a_bridge_without_the_one_time_binding_is_kept_out_while_a_bootstrap_runs() {
    let mut machine = Machine::ready();
    let mut task = Caller::enter(&machine, bootstrap_request(1_000));
    task.reach(&mut machine, is_prepare);
    let early = machine.bind(Some(identity_claim()), Some("0")).unwrap_err();
    assert_eq!(early.error.code, ERROR_IDENTITY_STALE);
    task.reach(&mut machine, is_pause);
    let error = machine.bind(Some(identity_claim()), None).unwrap_err();
    assert_eq!(error.error.code, ERROR_IDENTITY_MISMATCH);
    let (nonce, _) = machine.grant();
    let error = machine.bind(None, Some(&nonce)).unwrap_err();
    assert_eq!(error.error.code, ERROR_IDENTITY_UNAVAILABLE);
}

#[test]
fn a_foreign_instance_is_refused_after_the_launch() {
    let mut machine = Machine::ready();
    let mut task = Caller::enter(&machine, bootstrap_request(1_000));
    task.reach(&mut machine, is_pause);
    let mut foreign = identity_claim();
    foreign.host.pid = Some(9);
    machine.state.sessions.insert(
        retouch_key(),
        BridgeSessionInfo {
            target: "retouch".into(),
            capabilities: caps(),
            connected_at_epoch_ms: 1,
        },
    );
    machine.state.session_identities.insert(retouch_key(), foreign);
    let error = task.finish(&mut machine).unwrap_err();
    assert_eq!(error.error.code, ERROR_IDENTITY_MISMATCH);
    assert_eq!(machine.rollbacks, 1);
    assert_eq!(machine.finalizes, 0);
    assert_eq!(machine.grants(), 0);
}

#[test]
fn a_malformed_request_is_refused_at_the_door() {
    let mut wrong_version = bootstrap_request(1_000);
    wrong_version.bootstrap_version = 2;
    let mut foreign_module = bootstrap_request(1_000);
    foreign_module.plugin.module_origin = "C:/Foreign/dist/main.js".into();
    let mut short_digest = bootstrap_request(1_000);
    short_digest.host.executable_sha256 = "a".repeat(63);
    for request in [wrong_version, foreign_module, short_digest, bootstrap_request(0)] {
        let error = BootstrapCall::begin(request, 0).unwrap_err();
        assert_eq!(error.error.code, ERROR_INVALID_REQUEST);
    }
}

#[test]
fn an_unawaited_event_changes_nothing() {
    let mut machine = Machine::ready();
    let call = BootstrapCall::begin(bootstrap_request(1_000), 0).unwrap();
    let (call, action) =
        call.advance(&mut machine.state, BootstrapEvent::Finalized(true), 0, EPOCH_MS);
    assert!(matches!(action, BootstrapAction::Unexpected));
    assert!(matches!(call.phase, BootstrapPhase::Attesting));
    assert_eq!(machine.grants(), 0);
}

#[test]
fn a_receipt_can_be_verified_until_it_expires() {
    let mut machine = Machine::ready();
    let mut task = Caller::enter(&machine, bootstrap_request(1_000));
    task.reach(&mut machine, is_pause);
    machine.publish_matching_session();
    let result = task.finish(&mut machine).unwrap();
    let receipt_id = result.continuation.receipt_id;
    let last = EPOCH_MS + RECEIPT_LIFETIME_MS as u64;
    assert!(machine.state.begin_verify(&receipt_id, last).is_ok());
    assert_eq!(
        machine.state.begin_verify(&receipt_id, last + 1).unwrap_err().error.code,
        ERROR_IDENTITY_STALE
    );
    assert_eq!(
        machine
            .state
            .begin_verify("76db1078-74c9-45c1-87e1-e8258649815e", EPOCH_MS)
            .unwrap_err()
            .error
            .code,
        ERROR_IDENTITY_STALE
    );
    assert_eq!(
        machine.state.begin_verify("not-a-receipt", EPOCH_MS).unwrap_err().error.code,
        ERROR_INVALID_REQUEST
    );
    machine.state.session_identities.remove(&retouch_key());
    assert!(machine.state.begin_verify(&receipt_id, EPOCH_MS).is_err());
}

#[test]
fn a_bootstrap_that_cannot_be_published_loses_its_receipt() {
    for (rolled_back, code, stage) in [
        (true, ERROR_IDENTITY_UNAVAILABLE, "commit"),
        (false, ERROR_IDENTITY_STALE, "recovery"),
    ] {
        let mut machine = Machine::ready();
        let mut task = Caller::enter(&machine, bootstrap_request(1_000));
        task.reach(&mut machine, is_pause);
        machine.publish_matching_session();
        let receipt_id = task.finish(&mut machine).unwrap().continuation.receipt_id;
        let error = machine.state.withdraw_bootstrap(&receipt_id, rolled_back);
        assert_eq!(error.error.code, code);
        assert_eq!(
            to_text(error.error.data.as_ref().unwrap()),
            format!("{{\"stage\":\"{stage}\"}}")
        );
        assert_eq!(
            machine.state.begin_verify(&receipt_id, EPOCH_MS).unwrap_err().error.code,
            ERROR_IDENTITY_STALE
        );
    }
}

#[test]
fn nonces_and_receipts_are_drawn_anew() {
    let first = BootstrapEvent::fresh_nonce();
    let second = BootstrapEvent::fresh_nonce();
    match (first, second) {
        (BootstrapEvent::Nonce(first), BootstrapEvent::Nonce(second)) => {
            assert_eq!(first.len(), 64);
            assert_ne!(first, second);
        }
        other => panic!("{other:?}"),
    }
    match BootstrapEvent::fresh_receipt() {
        BootstrapEvent::ReceiptMinted(value) => {
            assert_eq!(uuid::Uuid::from_u128(value).get_version_num(), 4);
        }
        other => panic!("{other:?}"),
    }
}
