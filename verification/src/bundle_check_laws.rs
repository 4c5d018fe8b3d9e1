//! What holds of every check of a bundle, whatever the node reports to it.

use vstd::prelude::*;
use crate::bundle::{bundle_known, equivocation_proof, SeenBundle, SignedBundleView};
use crate::bundle_check::{
    bundle_check_started, bundle_check_step, pool_check_from, BundleCheckView, BundleEventView,
};
use crate::error::GossipMessageErrorView;
use crate::primitives::{ExecutorId, H256};
use crate::verdict::Action;

verus! {

/// The state that the check of a bundle is in after a sequence of events.
pub open spec fn bundle_check_run(check: BundleCheckView, events: Seq<BundleEventView>) -> BundleCheckView
    decreases events.len(),
{
    if events.len() == 0 {
        check
    } else {
        bundle_check_run(bundle_check_step(check, events[0]), events.drop_first())
    }
}

/// Whether the check of a bundle is over with the given verdict.
pub open spec fn bundle_check_ended_with(
    check: BundleCheckView,
    verdict: Result<Action, GossipMessageErrorView>,
) -> bool {
    check is Finished && check->Finished_verdict == verdict
}

/// Whether the runtime named `signer` as the elected executor in one of the
/// events.
pub open spec fn elected(events: Seq<BundleEventView>, signer: ExecutorId) -> bool {
    exists|k: int| 0 <= k < events.len() && #[trigger] events[k] == BundleEventView::ExecutorId(signer)
}

/// A check that is over stays as it is.
pub proof fn lemma_finished_bundle_check_is_final(check: BundleCheckView, events: Seq<BundleEventView>)
    requires
        check is Finished,
    ensures
        bundle_check_run(check, events) == check,
    decreases events.len(),
{
    if events.len() > 0 {
        lemma_finished_bundle_check_is_final(check, events.drop_first());
    }
}

/// A check that submits an equivocation proof never lets the bundle be
/// rebroadcast.
proof fn lemma_equivocation_is_not_rebroadcast(check: BundleCheckView, events: Seq<BundleEventView>)
    requires
        check is SubmittingEquivocationProof,
    ensures
        !bundle_check_ended_with(bundle_check_run(check, events), Ok(Action::RebroadcastBundle)),
    decreases events.len(),
{
    if events.len() > 0 {
        let next = bundle_check_step(check, events[0]);
        if next is Finished {
            lemma_finished_bundle_check_is_final(next, events.drop_first());
        } else {
            lemma_equivocation_is_not_rebroadcast(next, events.drop_first());
        }
    }
}

/// A check that waits to hear which executor is elected lets the bundle be
/// rebroadcast only if it hears that the signer is.
proof fn lemma_rebroadcast_needs_election(check: BundleCheckView, events: Seq<BundleEventView>)
    requires
        check is AwaitingExecutorId,
        bundle_check_ended_with(bundle_check_run(check, events), Ok(Action::RebroadcastBundle)),
    ensures
        elected(events, check->AwaitingExecutorId_signer),
    decreases events.len(),
{
    let signer = check->AwaitingExecutorId_signer;
    if events.len() > 0 {
        let next = bundle_check_step(check, events[0]);
        if events[0] == BundleEventView::ExecutorId(signer) {
            assert(events[0] == BundleEventView::ExecutorId(signer));
        } else if next is Finished {
            lemma_finished_bundle_check_is_final(next, events.drop_first());
        } else {
            assert(next == check);
            lemma_rebroadcast_needs_election(next, events.drop_first());
            let k = choose|k: int|
                0 <= k < events.drop_first().len() && #[trigger] events.drop_first()[k]
                    == BundleEventView::ExecutorId(signer);
            assert(events[k + 1] == BundleEventView::ExecutorId(signer));
        }
    }
}

/// A bundle is rebroadcast only if its signature is valid and the primary
/// runtime, asked at the primary block of the bundle, named its signer as the
/// elected executor. Such a bundle is neither an equivocation nor one that
/// has been seen.
pub proof fn lemma_rebroadcast_bundle_is_authentic(
    signed: SignedBundleView,
    bundle_hash: H256,
    seen: Seq<SeenBundle>,
    signature_valid: bool,
    events: Seq<BundleEventView>,
)
    requires
        bundle_check_ended_with(
            bundle_check_run(
                bundle_check_started(signed, bundle_hash, seen, signature_valid),
                events,
            ),
            Ok(Action::RebroadcastBundle),
        ),
    ensures
        signature_valid,
        elected(events, signed.signer),
        equivocation_proof(seen, signed.bundle.header.slot_number, signed.signer, bundle_hash)
            is None,
        !bundle_known(seen, bundle_hash),
{
    let start = bundle_check_started(signed, bundle_hash, seen, signature_valid);
    if start is SubmittingEquivocationProof {
        lemma_equivocation_is_not_rebroadcast(start, events);
    } else if start is Finished {
        lemma_finished_bundle_check_is_final(start, events);
    } else {
        lemma_rebroadcast_needs_election(start, events);
    }
}

/// What the node reports while the pool is asked about the extrinsics of a
/// bundle, given for each extrinsic whether the pool has it ready: the answer
/// of the pool and, for an extrinsic that is not ready, that the proof of
/// its invalidity was submitted.
pub open spec fn pool_events(ready: Seq<bool>) -> Seq<BundleEventView>
    decreases ready.len(),
{
    if ready.len() == 0 {
        Seq::empty()
    } else if ready[0] {
        seq![BundleEventView::InPool(true)] + pool_events(ready.drop_first())
    } else {
        seq![BundleEventView::InPool(false), BundleEventView::ProofSubmitted] + pool_events(
            ready.drop_first(),
        )
    }
}

/// The extrinsics, by their index in the bundle, that a check has proofs of
/// invalidity submitted for over a sequence of events, oldest first.
pub open spec fn invalid_transaction_proofs(
    check: BundleCheckView,
    events: Seq<BundleEventView>,
) -> Seq<usize>
    decreases events.len(),
{
    if events.len() == 0 {
        Seq::empty()
    } else {
        let rest = invalid_transaction_proofs(
            bundle_check_step(check, events[0]),
            events.drop_first(),
        );
        match check {
            BundleCheckView::SubmittingInvalidTransactionProof { next, .. } => if events[0]
                is ProofSubmitted {
                seq![next] + rest
            } else {
                rest
            },
            _ => rest,
        }
    }
}

/// The extrinsics from index `from` on that the pool does not have ready, by
/// their index in the bundle.
pub open spec fn not_ready_from(ready: Seq<bool>, from: int) -> Seq<usize>
    decreases ready.len(),
{
    if ready.len() == 0 {
        Seq::empty()
    } else if ready[0] {
        not_ready_from(ready.drop_first(), from + 1)
    } else {
        seq![from as usize] + not_ready_from(ready.drop_first(), from + 1)
    }
}

/// Once the author of a bundle is known to be the elected executor, every
/// extrinsic of the bundle is looked at once and in order: those that the pool
/// does not have ready get a proof of invalidity each, the others none, and
/// the bundle is rebroadcast at the end.
pub proof fn lemma_each_extrinsic_is_checked_once(next: usize, extrinsics: usize, ready: Seq<bool>)
    requires
        next + ready.len() == extrinsics,
    ensures
        bundle_check_run(pool_check_from(next as int, extrinsics), pool_events(ready))
            == (BundleCheckView::Finished { verdict: Ok(Action::RebroadcastBundle) }),
        invalid_transaction_proofs(pool_check_from(next as int, extrinsics), pool_events(ready))
            == not_ready_from(ready, next as int),
    decreases ready.len(),
{
    let check = pool_check_from(next as int, extrinsics);
    let events = pool_events(ready);
    if ready.len() > 0 {
        let after = pool_check_from(next + 1, extrinsics);
        lemma_each_extrinsic_is_checked_once((next + 1) as usize, extrinsics, ready.drop_first());
        let rest = pool_events(ready.drop_first());
        if ready[0] {
            assert(events.drop_first() =~= rest);
            assert(bundle_check_step(check, events[0]) == after);
            assert(bundle_check_run(check, events) == bundle_check_run(after, rest));
        } else {
            let submitting = bundle_check_step(check, events[0]);
            let acked = events.drop_first();
            assert(acked =~= seq![BundleEventView::ProofSubmitted] + rest);
            assert(acked.drop_first() =~= rest);
            assert(acked[0] == BundleEventView::ProofSubmitted);
            assert(bundle_check_step(submitting, acked[0]) == after);
            assert(bundle_check_run(check, events) == bundle_check_run(submitting, acked));
            assert(bundle_check_run(submitting, acked) == bundle_check_run(after, rest));
            assert(invalid_transaction_proofs(check, events) == invalid_transaction_proofs(
                submitting,
                acked,
            ));
            assert(invalid_transaction_proofs(submitting, acked) == seq![next]
                + invalid_transaction_proofs(after, rest));
        }
    } else {
        assert(events =~= Seq::empty());
    }
}

} // verus!
