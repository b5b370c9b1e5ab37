//! Following, cancelling and verifying bootstraps.
use vstd::prelude::*;

use crate::bootstrap::{
    bootstrap_recovery_error, bootstrap_timeout_error, claimed_process, claimed_process_model,
    recovery_error, timeout_error, unavailable_error, BootstrapGrant, BootstrapResult,
};
use crate::bootstrap_types::{
    PhotoshopBootstrapRequest, PhotoshopBootstrapRequestModel, PhotoshopBootstrapResult,
};
use crate::broker::BrokerState;
use crate::checks::{is_uuid, uuid_shape};
use crate::identity::{field_error, field_fault, stage_error, stage_fault};
use crate::protocol::{
    HostKind, RpcErrorResponse, ERROR_IDENTITY_STALE, ERROR_IDENTITY_UNAVAILABLE,
    ERROR_INVALID_REQUEST,
};
use crate::receipts::{ObservedHostProcess, PreparedBootstrap};
use crate::runtime::RuntimeIdentityQuery;

verus! {

/// What a follower does next.
#[derive(Debug)]
pub enum FollowStep {
    /// Wait for news of the owner or for the deadline.
    Wait,
    Return(BootstrapResult),
}

/// What a follower does: its own deadline comes first, then the owner's
/// outcome; an owner that went away without one is an error.
pub open spec fn follower_answer(
    request: PhotoshopBootstrapRequestModel,
    deadline: u128,
    now: u64,
    outcome: Option<BootstrapResult>,
    closed: bool,
    r: FollowStep,
) -> bool {
    if now >= deadline {
        r is Return && r->Return_0 is Err && r->Return_0->Err_0@ == timeout_error(
            request,
            "transaction"@,
        )
    } else if outcome is Some {
        r == FollowStep::Return(outcome->0)
    } else if closed {
        r is Return && r->Return_0 is Err && r->Return_0->Err_0@ == stage_error(
            ERROR_IDENTITY_STALE,
            "Photoshop bootstrap transaction ended without a durable outcome"@,
            "transaction"@,
        )
    } else {
        r is Wait
    }
}

/// A follower's decision.
pub fn wait_for_bootstrap_completion(
    request: &PhotoshopBootstrapRequest,
    deadline: u128,
    now: u64,
    outcome: Option<BootstrapResult>,
    closed: bool,
) -> (r: FollowStep)
    ensures
        follower_answer(request@, deadline, now, outcome, closed, r),
{
    if now as u128 >= deadline {
        return FollowStep::Return(Err(bootstrap_timeout_error(request, "transaction")));
    }
    match outcome {
        Some(outcome) => FollowStep::Return(outcome),
        None => if closed {
            FollowStep::Return(
                Err(
                    stage_fault(
                        ERROR_IDENTITY_STALE,
                        "Photoshop bootstrap transaction ended without a durable outcome",
                        "transaction",
                    ),
                ),
            )
        } else {
            FollowStep::Wait
        },
    }
}

/// The outcome of a cancelled bootstrap, for everyone who follows it.
#[derive(Debug)]
pub struct Cancellation {
    pub ticket: u64,
    pub error: RpcErrorResponse,
}

/// A receipt that was found valid; the host process remains to be looked up.
#[derive(Debug)]
pub struct Verification {
    pub observed: ObservedHostProcess,
    pub result: PhotoshopBootstrapResult,
}

impl BrokerState {
    /// What beginning to cancel does: what was prepared comes out of the grant.
    pub open spec fn cancel_begun(
        pre: BrokerState,
        post: BrokerState,
        key: Seq<char>,
        r: Option<PreparedBootstrap>,
    ) -> bool {
        let grants = pre.bootstrap_grants@;
        &&& if grants.dom().contains(key) {
            &&& r == grants[key].prepared
            &&& post.bootstrap_grants@ == grants.insert(
                key,
                BootstrapGrant { prepared: None, ..grants[key] },
            )
        } else {
            r is None && post.bootstrap_grants@ == grants
        }
        &&& post == (BrokerState { bootstrap_grants: post.bootstrap_grants, ..pre })
    }

    /// Begins to cancel the bootstrap of a target: what was prepared comes
    /// out of the grant and is to be rolled back.
    pub fn begin_cancel(&mut self, key: &str) -> (r: Option<PreparedBootstrap>)
        ensures
            Self::cancel_begun(*old(self), *final(self), key@, r),
    {
        match self.bootstrap_grants.remove(key) {
            Some(grant) => {
                let BootstrapGrant {
                    request,
                    nonce,
                    nonce_claimed,
                    observed,
                    module_sha256,
                    prepared,
                    ticket,
                } = grant;
                self.bootstrap_grants.insert(
                    key.to_owned(),
                    BootstrapGrant {
                        request,
                        nonce,
                        nonce_claimed,
                        observed,
                        module_sha256,
                        prepared: None,
                        ticket,
                    },
                );
                assert(self.bootstrap_grants@ =~= old(self).bootstrap_grants@.insert(
                    key@,
                    BootstrapGrant { prepared: None, ..old(self).bootstrap_grants@[key@] },
                ));
                prepared
            },
            None => {
                assert(self.bootstrap_grants@ =~= old(self).bootstrap_grants@);
                None
            },
        }
    }

    /// What ending a cancelled bootstrap does: the grant goes, and everyone who
    /// follows it is told.
    pub open spec fn cancel_finished(
        pre: BrokerState,
        post: BrokerState,
        key: Seq<char>,
        rollback_failed: bool,
        r: Option<Cancellation>,
    ) -> bool {
        let grants = pre.bootstrap_grants@;
        &&& match r {
            Some(cancellation) => {
                &&& grants.dom().contains(key)
                &&& cancellation.ticket == grants[key].ticket
                &&& cancellation.error@ == if rollback_failed {
                    recovery_error("cancelled Photoshop bootstrap state could not be recovered"@)
                } else {
                    stage_error(
                        ERROR_IDENTITY_STALE,
                        "Photoshop bootstrap transaction was cancelled"@,
                        "cancellation"@,
                    )
                }
            },
            None => !grants.dom().contains(key),
        }
        &&& post.bootstrap_grants@ == grants.remove(key)
        &&& post == (BrokerState { bootstrap_grants: post.bootstrap_grants, ..pre })
    }

    /// Ends the cancelled bootstrap of a target once the rollback, if there
    /// was one, has ended.
    pub fn finish_cancel(&mut self, key: &str, rollback_failed: bool) -> (r: Option<Cancellation>)
        ensures
            Self::cancel_finished(*old(self), *final(self), key@, rollback_failed, r),
    {
        match self.bootstrap_grants.remove(key) {
            Some(grant) => {
                let error = if rollback_failed {
                    bootstrap_recovery_error(
                        "cancelled Photoshop bootstrap state could not be recovered",
                    )
                } else {
                    stage_fault(
                        ERROR_IDENTITY_STALE,
                        "Photoshop bootstrap transaction was cancelled",
                        "cancellation",
                    )
                };
                Some(Cancellation { ticket: grant.ticket, error })
            },
            None => None,
        }
    }

    /// What withdrawing a recorded bootstrap does.
    pub open spec fn withdrawn(
        pre: BrokerState,
        post: BrokerState,
        receipt_id: Seq<char>,
        rolled_back: bool,
        r: RpcErrorResponse,
    ) -> bool {
        &&& r@ == if rolled_back {
            unavailable_error("Photoshop bootstrap could not be committed"@, "commit"@)
        } else {
            recovery_error("Photoshop bootstrap state could not be recovered"@)
        }
        &&& post.bootstrap_receipts@ == pre.bootstrap_receipts@.remove(receipt_id)
        &&& post == (BrokerState { bootstrap_receipts: post.bootstrap_receipts, ..pre })
    }

    /// Takes a recorded bootstrap back whose configuration could not be
    /// published: its receipt goes, and the error says whether the rollback
    /// succeeded.
    pub fn withdraw_bootstrap(&mut self, receipt_id: &str, rolled_back: bool) -> (r:
        RpcErrorResponse)
        ensures
            Self::withdrawn(*old(self), *final(self), receipt_id@, rolled_back, r),
    {
        let _ = self.bootstrap_receipts.remove(receipt_id);
        if rolled_back {
            stage_fault(
                ERROR_IDENTITY_UNAVAILABLE,
                "Photoshop bootstrap could not be committed",
                "commit",
            )
        } else {
            bootstrap_recovery_error("Photoshop bootstrap state could not be recovered")
        }
    }

    /// The receipt exists and has not expired.
    pub open spec fn receipt_valid(self, receipt_id: Seq<char>, epoch_ms: u64) -> bool {
        let receipts = self.bootstrap_receipts@;
        receipts.dom().contains(receipt_id) && receipts[receipt_id].expires_at_epoch_ms >= epoch_ms
    }

    /// The query for the identity that a receipt is bound to.
    pub open spec fn receipt_query(self, receipt_id: Seq<char>) -> RuntimeIdentityQuery {
        let identity = self.bootstrap_receipts@[receipt_id].identity;
        RuntimeIdentityQuery {
            host: HostKind::Photoshop,
            target: Some(identity.bridge.target),
            expected: Some(identity),
        }
    }

    /// What a verification of a receipt finds.
    pub open spec fn verified(
        self,
        receipt_id: Seq<char>,
        epoch_ms: u64,
        r: Result<Verification, RpcErrorResponse>,
    ) -> bool {
        if !uuid_shape(receipt_id) {
            r is Err && r->Err_0@ == field_error(
                ERROR_INVALID_REQUEST,
                "Photoshop bootstrap receipt is invalid"@,
                "receiptId"@,
            )
        } else if !self.receipt_valid(receipt_id, epoch_ms) {
            r is Err && r->Err_0@ == field_error(
                ERROR_IDENTITY_STALE,
                "Photoshop bootstrap receipt is stale or unavailable"@,
                "receiptId"@,
            )
        } else {
            match self.identity_answer(self.receipt_query(receipt_id)) {
                Err(e) => r is Err && r->Err_0@ == e,
                Ok(actual) => {
                    &&& r is Ok
                    &&& r->Ok_0.observed@ == claimed_process_model(actual)
                    &&& r->Ok_0.result@ == self.bootstrap_receipts@[receipt_id].result@
                },
            }
        }
    }

    /// Looks up whether a bootstrap result still holds: the receipt is valid
    /// and the very identity it is bound to is connected.
    pub fn begin_verify(&self, receipt_id: &str, epoch_ms: u64) -> (r: Result<
        Verification,
        RpcErrorResponse,
    >)
        ensures
            self.verified(receipt_id@, epoch_ms, r),
    {
        if !is_uuid(receipt_id) {
            return Err(
                field_fault(
                    ERROR_INVALID_REQUEST,
                    "Photoshop bootstrap receipt is invalid",
                    "receiptId",
                ),
            );
        }
        let receipt = match self.bootstrap_receipts.get(receipt_id) {
            Some(receipt) => if receipt.expires_at_epoch_ms >= epoch_ms as u128 {
                Some(receipt)
            } else {
                None
            },
            None => None,
        };
        let receipt = match receipt {
            Some(receipt) => receipt,
            None => {
                return Err(
                    field_fault(
                        ERROR_IDENTITY_STALE,
                        "Photoshop bootstrap receipt is stale or unavailable",
                        "receiptId",
                    ),
                );
            },
        };
        let query = RuntimeIdentityQuery {
            host: HostKind::Photoshop,
            target: Some(receipt.identity.bridge.target.clone()),
            expected: Some(receipt.identity.clone()),
        };
        match self.runtime_identity(&query) {
            Err(e) => Err(e),
            Ok(actual) => Ok(
                Verification {
                    observed: claimed_process(&actual),
                    result: receipt.result.clone(),
                },
            ),
        }
    }
}

/// What a verification comes to once the host process has been looked up.
pub open spec fn verification_ended(
    verification: Verification,
    process_live: bool,
    r: BootstrapResult,
) -> bool {
    if process_live {
        r == Ok::<PhotoshopBootstrapResult, RpcErrorResponse>(verification.result)
    } else {
        r is Err && r->Err_0@ == field_error(
            ERROR_IDENTITY_STALE,
            "Photoshop process identity changed after bootstrap"@,
            "host.processStartIdentity"@,
        )
    }
}

/// Ends the verification once the host process has been looked up.
pub fn finish_verify(verification: Verification, process_live: bool) -> (r: BootstrapResult)
    ensures
        verification_ended(verification, process_live, r),
{
    if process_live {
        Ok(verification.result)
    } else {
        Err(
            field_fault(
                ERROR_IDENTITY_STALE,
                "Photoshop process identity changed after bootstrap",
                "host.processStartIdentity",
            ),
        )
    }
}

} // verus!
