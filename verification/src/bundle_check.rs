//! The check of one bundle that a peer gossiped.
//!
//! Like the check of a receipt, the check of a bundle is a state machine
//! that asks the node for what the core cannot do itself: which executor the
//! primary runtime elected, whether the transaction pool has an extrinsic
//! ready, and the submission of proofs.

use vstd::prelude::*;
use crate::bundle::{
    bundle_known, equivocation_proof, find_equivocation, is_bundle_known, BundleEquivocationProof,
    SeenBundle, SignedBundle, SignedBundleView,
};
use crate::crypto::{sr25519_signature_valid, sr25519_verify};
use crate::error::{GossipMessageError, GossipMessageErrorView};
use crate::primitives::{h256_equal, ExecutorId, H256};
use crate::verdict::{duplicate_verdict, verdict_view, Action};

verus! {

/// What the node reports back to the check of a bundle.
#[derive(Debug)]
pub enum BundleEvent {
    /// The primary runtime named the executor elected at the asked block.
    ExecutorId(ExecutorId),
    /// The call into the primary runtime failed, with this message.
    RuntimeApiFailed(String),
    /// Whether the transaction pool has the asked extrinsic ready.
    InPool(bool),
    /// The proof was handed to the primary chain.
    ProofSubmitted,
}

/// The mathematical value of a [`BundleEvent`].
pub ghost enum BundleEventView {
    ExecutorId(ExecutorId),
    RuntimeApiFailed(Seq<char>),
    InPool(bool),
    ProofSubmitted,
}

impl View for BundleEvent {
    type V = BundleEventView;

    open spec fn view(&self) -> BundleEventView {
        match *self {
            BundleEvent::ExecutorId(id) => BundleEventView::ExecutorId(id),
            BundleEvent::RuntimeApiFailed(message) => BundleEventView::RuntimeApiFailed(message@),
            BundleEvent::InPool(ready) => BundleEventView::InPool(ready),
            BundleEvent::ProofSubmitted => BundleEventView::ProofSubmitted,
        }
    }
}

/// What the check of a bundle asks the node to do next.
#[derive(Debug)]
pub enum BundleRequest {
    /// Submit this equivocation proof to the primary chain.
    SubmitBundleEquivocationProof { proof: BundleEquivocationProof },
    /// Ask the primary runtime which executor is elected at this primary block.
    ExecutorId { primary_hash: H256 },
    /// Ask the transaction pool whether it has the extrinsic with this index
    /// in the bundle ready.
    PoolStatus { extrinsic_index: usize },
    /// Submit a proof that the extrinsic with this index in the bundle is invalid.
    SubmitInvalidTransactionProof { extrinsic_index: usize },
    /// Nothing: the check is over, with this outcome.
    Finish { verdict: Result<Action, GossipMessageError> },
}

/// The mathematical value of a [`BundleRequest`].
pub ghost enum BundleRequestView {
    SubmitBundleEquivocationProof { proof: BundleEquivocationProof },
    ExecutorId { primary_hash: H256 },
    PoolStatus { extrinsic_index: usize },
    SubmitInvalidTransactionProof { extrinsic_index: usize },
    Finish { verdict: Result<Action, GossipMessageErrorView> },
}

impl View for BundleRequest {
    type V = BundleRequestView;

    open spec fn view(&self) -> BundleRequestView {
        match *self {
            BundleRequest::SubmitBundleEquivocationProof { proof } => (
                BundleRequestView::SubmitBundleEquivocationProof { proof }
            ),
            BundleRequest::ExecutorId { primary_hash } => BundleRequestView::ExecutorId {
                primary_hash,
            },
            BundleRequest::PoolStatus { extrinsic_index } => BundleRequestView::PoolStatus {
                extrinsic_index,
            },
            BundleRequest::SubmitInvalidTransactionProof { extrinsic_index } => (
                BundleRequestView::SubmitInvalidTransactionProof { extrinsic_index }
            ),
            BundleRequest::Finish { verdict } => BundleRequestView::Finish {
                verdict: verdict_view(verdict),
            },
        }
    }
}

/// The state of the check of one remote bundle.
#[derive(Debug)]
pub enum BundleCheck {
    /// The bundle is an equivocation; the proof of that is being submitted.
    SubmittingEquivocationProof { proof: BundleEquivocationProof },
    /// The signature is good; the elected executor is being asked for.
    AwaitingExecutorId { primary_hash: H256, signer: ExecutorId, extrinsics: usize },
    /// The author is the elected executor; the pool is being asked about the
    /// extrinsic with index `next`, out of `extrinsics`.
    CheckingPool { next: usize, extrinsics: usize },
    /// The pool does not know the extrinsic with index `next`; the proof that
    /// it is invalid is being submitted.
    SubmittingInvalidTransactionProof { next: usize, extrinsics: usize },
    /// The check is over.
    Finished { verdict: Result<Action, GossipMessageError> },
}

/// The mathematical value of a [`BundleCheck`].
pub ghost enum BundleCheckView {
    SubmittingEquivocationProof { proof: BundleEquivocationProof },
    AwaitingExecutorId { primary_hash: H256, signer: ExecutorId, extrinsics: usize },
    CheckingPool { next: usize, extrinsics: usize },
    SubmittingInvalidTransactionProof { next: usize, extrinsics: usize },
    Finished { verdict: Result<Action, GossipMessageErrorView> },
}

impl View for BundleCheck {
    type V = BundleCheckView;

    open spec fn view(&self) -> BundleCheckView {
        match *self {
            BundleCheck::SubmittingEquivocationProof { proof } => (
                BundleCheckView::SubmittingEquivocationProof { proof }
            ),
            BundleCheck::AwaitingExecutorId { primary_hash, signer, extrinsics } => (
                BundleCheckView::AwaitingExecutorId { primary_hash, signer, extrinsics }
            ),
            BundleCheck::CheckingPool { next, extrinsics } => BundleCheckView::CheckingPool {
                next,
                extrinsics,
            },
            BundleCheck::SubmittingInvalidTransactionProof { next, extrinsics } => (
                BundleCheckView::SubmittingInvalidTransactionProof { next, extrinsics }
            ),
            BundleCheck::Finished { verdict } => BundleCheckView::Finished {
                verdict: verdict_view(verdict),
            },
        }
    }
}

/// Where the check goes when the pool is to be asked about the extrinsic
/// with index `next`: once every extrinsic has been asked about, the bundle
/// is to be rebroadcast.
pub open spec fn pool_check_from(next: int, extrinsics: usize) -> BundleCheckView {
    if next < extrinsics {
        BundleCheckView::CheckingPool { next: next as usize, extrinsics }
    } else {
        BundleCheckView::Finished { verdict: Ok(Action::RebroadcastBundle) }
    }
}

/// Where the check of a bundle starts. A bundle that equivocates with a seen
/// one has the proof of that submitted. A bundle that has been seen is
/// dropped. A bundle with a bad signature is rejected. For any other the
/// elected executor is asked for.
pub open spec fn bundle_check_started(
    signed: SignedBundleView,
    bundle_hash: H256,
    seen: Seq<SeenBundle>,
    signature_valid: bool,
) -> BundleCheckView {
    match equivocation_proof(seen, signed.bundle.header.slot_number, signed.signer, bundle_hash) {
        Some(proof) => BundleCheckView::SubmittingEquivocationProof { proof },
        None => if bundle_known(seen, bundle_hash) {
            BundleCheckView::Finished { verdict: Ok(Action::Empty) }
        } else if !signature_valid {
            BundleCheckView::Finished { verdict: Err(GossipMessageErrorView::BadBundleSignature) }
        } else {
            BundleCheckView::AwaitingExecutorId {
                primary_hash: signed.bundle.header.primary_hash,
                signer: signed.signer,
                extrinsics: signed.bundle.extrinsics.len() as usize,
            }
        },
    }
}

/// The state that follows `check` when `event` comes in.
pub open spec fn bundle_check_step(check: BundleCheckView, event: BundleEventView) -> BundleCheckView {
    match check {
        BundleCheckView::SubmittingEquivocationProof { proof } => match event {
            BundleEventView::ProofSubmitted => BundleCheckView::Finished {
                verdict: Err(GossipMessageErrorView::BundleEquivocation),
            },
            _ => check,
        },
        BundleCheckView::AwaitingExecutorId { primary_hash, signer, extrinsics } => match event {
            BundleEventView::ExecutorId(expected) => if signer == expected {
                pool_check_from(0, extrinsics)
            } else {
                BundleCheckView::Finished {
                    verdict: Err(
                        GossipMessageErrorView::InvalidBundleAuthor { got: signer, expected },
                    ),
                }
            },
            BundleEventView::RuntimeApiFailed(message) => BundleCheckView::Finished {
                verdict: Err(GossipMessageErrorView::RuntimeApi(message)),
            },
            _ => check,
        },
        BundleCheckView::CheckingPool { next, extrinsics } => match event {
            BundleEventView::InPool(ready) => if ready {
                pool_check_from(next + 1, extrinsics)
            } else {
                BundleCheckView::SubmittingInvalidTransactionProof { next, extrinsics }
            },
            _ => check,
        },
        BundleCheckView::SubmittingInvalidTransactionProof { next, extrinsics } => match event {
            BundleEventView::ProofSubmitted => pool_check_from(next + 1, extrinsics),
            _ => check,
        },
        BundleCheckView::Finished { .. } => check,
    }
}

/// What the check of a bundle in the given state asks the node to do.
pub open spec fn bundle_check_request(check: BundleCheckView) -> BundleRequestView {
    match check {
        BundleCheckView::SubmittingEquivocationProof { proof } => (
            BundleRequestView::SubmitBundleEquivocationProof { proof }
        ),
        BundleCheckView::AwaitingExecutorId { primary_hash, .. } => BundleRequestView::ExecutorId {
            primary_hash,
        },
        BundleCheckView::CheckingPool { next, .. } => BundleRequestView::PoolStatus {
            extrinsic_index: next,
        },
        BundleCheckView::SubmittingInvalidTransactionProof { next, .. } => (
            BundleRequestView::SubmitInvalidTransactionProof { extrinsic_index: next }
        ),
        BundleCheckView::Finished { verdict } => BundleRequestView::Finish { verdict },
    }
}

/// Goes on to the extrinsic after the one with index `checked`.
fn check_pool_after(checked: usize, extrinsics: usize) -> (next: BundleCheck)
    ensures
        next@ == pool_check_from(checked + 1, extrinsics),
{
    if checked < extrinsics && checked + 1 < extrinsics {
        BundleCheck::CheckingPool { next: checked + 1, extrinsics }
    } else {
        BundleCheck::Finished { verdict: Ok(Action::RebroadcastBundle) }
    }
}

impl BundleCheck {
    /// Starts the check of a bundle with hash `bundle_hash` against the
    /// bundles seen so far, given whether its signature is valid.
    pub fn start_with(
        signed_bundle: &SignedBundle,
        bundle_hash: &H256,
        seen: &Vec<SeenBundle>,
        signature_valid: bool,
    ) -> (check: BundleCheck)
        ensures
            check@ == bundle_check_started(signed_bundle@, *bundle_hash, seen@, signature_valid),
    {
        match find_equivocation(
            seen,
            signed_bundle.bundle.header.slot_number,
            &signed_bundle.signer,
            bundle_hash,
        ) {
            Some(proof) => BundleCheck::SubmittingEquivocationProof { proof },
            None => if is_bundle_known(seen, bundle_hash) {
                BundleCheck::Finished { verdict: Ok(Action::Empty) }
            } else if !signature_valid {
                BundleCheck::Finished { verdict: Err(GossipMessageError::BadBundleSignature) }
            } else {
                BundleCheck::AwaitingExecutorId {
                    primary_hash: signed_bundle.bundle.header.primary_hash,
                    signer: signed_bundle.signer,
                    extrinsics: signed_bundle.bundle.extrinsics.len(),
                }
            },
        }
    }

    /// Starts the check of a bundle with hash `bundle_hash` against the
    /// bundles seen so far. The signature of the author over the hash is
    /// verified unless the bundle is an equivocation or has been seen.
    pub fn start(signed_bundle: &SignedBundle, bundle_hash: &H256, seen: &Vec<SeenBundle>) -> (check:
        BundleCheck)
        ensures
            check@ == bundle_check_started(
                signed_bundle@,
                *bundle_hash,
                seen@,
                sr25519_signature_valid(signed_bundle.signer@, bundle_hash@, signed_bundle.signature@),
            ),
    {
        let undecided = find_equivocation(
            seen,
            signed_bundle.bundle.header.slot_number,
            &signed_bundle.signer,
            bundle_hash,
        ).is_none() && !is_bundle_known(seen, bundle_hash);
        let signature_valid = undecided && sr25519_verify(
            &signed_bundle.signer,
            bundle_hash,
            &signed_bundle.signature,
        );
        BundleCheck::start_with(signed_bundle, bundle_hash, seen, signature_valid)
    }

    /// Moves the check on by what the node reports.
    pub fn advance(self, event: BundleEvent) -> (next: BundleCheck)
        ensures
            next@ == bundle_check_step(self@, event@),
    {
        match self {
            BundleCheck::SubmittingEquivocationProof { proof } => match event {
                BundleEvent::ProofSubmitted => BundleCheck::Finished {
                    verdict: Err(GossipMessageError::BundleEquivocation),
                },
                _ => BundleCheck::SubmittingEquivocationProof { proof },
            },
            BundleCheck::AwaitingExecutorId { primary_hash, signer, extrinsics } => match event {
                BundleEvent::ExecutorId(expected) => if h256_equal(&signer, &expected) {
                    if extrinsics > 0 {
                        BundleCheck::CheckingPool { next: 0, extrinsics }
                    } else {
                        BundleCheck::Finished { verdict: Ok(Action::RebroadcastBundle) }
                    }
                } else {
                    BundleCheck::Finished {
                        verdict: Err(GossipMessageError::InvalidBundleAuthor { got: signer, expected }),
                    }
                },
                BundleEvent::RuntimeApiFailed(message) => BundleCheck::Finished {
                    verdict: Err(GossipMessageError::RuntimeApi(message)),
                },
                _ => BundleCheck::AwaitingExecutorId { primary_hash, signer, extrinsics },
            },
            BundleCheck::CheckingPool { next, extrinsics } => match event {
                BundleEvent::InPool(ready) => if ready {
                    check_pool_after(next, extrinsics)
                } else {
                    BundleCheck::SubmittingInvalidTransactionProof { next, extrinsics }
                },
                _ => BundleCheck::CheckingPool { next, extrinsics },
            },
            BundleCheck::SubmittingInvalidTransactionProof { next, extrinsics } => match event {
                BundleEvent::ProofSubmitted => check_pool_after(next, extrinsics),
                _ => BundleCheck::SubmittingInvalidTransactionProof { next, extrinsics },
            },
            BundleCheck::Finished { verdict } => BundleCheck::Finished { verdict },
        }
    }

    /// What the check asks the node to do next.
    pub fn request(&self) -> (request: BundleRequest)
        ensures
            request@ == bundle_check_request(self@),
    {
        match self {
            BundleCheck::SubmittingEquivocationProof { proof } => (
                BundleRequest::SubmitBundleEquivocationProof { proof: *proof }
            ),
            BundleCheck::AwaitingExecutorId { primary_hash, signer, extrinsics } => (
                BundleRequest::ExecutorId { primary_hash: *primary_hash }
            ),
            BundleCheck::CheckingPool { next, extrinsics } => BundleRequest::PoolStatus {
                extrinsic_index: *next,
            },
            BundleCheck::SubmittingInvalidTransactionProof { next, extrinsics } => (
                BundleRequest::SubmitInvalidTransactionProof { extrinsic_index: *next }
            ),
            BundleCheck::Finished { verdict } => BundleRequest::Finish {
                verdict: duplicate_verdict(verdict),
            },
        }
    }
}

} // verus!
