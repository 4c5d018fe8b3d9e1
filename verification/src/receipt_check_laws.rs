//! What holds of every check of an execution receipt, whatever the node
//! reports to it.

use vstd::prelude::*;
use crate::codec::{h256_of, is_h256, new_header_encoding};
use crate::error::GossipMessageErrorView;
use crate::fraud_proof::{
    apply_extrinsic_phase, phase_kind_at, pre_state_root_at, ExecutionPhaseView, FraudProofView,
    HeaderInfoView, PhaseKind, ProofFrameView, StateDelta,
};
use crate::receipt::{
    first_mismatch, is_first_mismatch, lemma_no_mismatch_means_agreement, traces_agree,
    ExecutionReceiptView, SignedExecutionReceiptView,
};
use crate::receipt_check::{
    receipt_check_request, receipt_check_started, receipt_check_step, receipts_compared,
    ReceiptCheckView, ReceiptEventView, ReceiptRequestView,
};
use crate::primitives::ExecutorId;
use crate::receipt_store::receipt_is_pruned;
use crate::verdict::Action;

verus! {

/// The state that a check is in after a sequence of events.
pub open spec fn receipt_check_run(check: ReceiptCheckView, events: Seq<ReceiptEventView>) -> ReceiptCheckView
    decreases events.len(),
{
    if events.len() == 0 {
        check
    } else {
        receipt_check_run(receipt_check_step(check, events[0]), events.drop_first())
    }
}

/// How many fraud proofs a check hands to the primary chain over a sequence
/// of events.
pub open spec fn fraud_proofs_submitted(check: ReceiptCheckView, events: Seq<ReceiptEventView>) -> nat
    decreases events.len(),
{
    if events.len() == 0 {
        0
    } else {
        let submitted: nat = if check is SubmittingFraudProof && events[0]
            is FraudProofSubmitted {
            1
        } else {
            0
        };
        submitted + fraud_proofs_submitted(
            receipt_check_step(check, events[0]),
            events.drop_first(),
        )
    }
}

/// Whether a check has noted that the two traces differ in length.
pub open spec fn noted_length_mismatch(check: ReceiptCheckView) -> bool {
    match check {
        ReceiptCheckView::AwaitingHeader { divergence } => divergence.trace_lengths_differ,
        ReceiptCheckView::AwaitingParentHeader { divergence, .. } => divergence.trace_lengths_differ,
        ReceiptCheckView::AwaitingBlockBody { trace_lengths_differ, .. } => trace_lengths_differ,
        ReceiptCheckView::AwaitingProof { trace_lengths_differ, .. } => trace_lengths_differ,
        ReceiptCheckView::SubmittingFraudProof { trace_lengths_differ, .. } => trace_lengths_differ,
        ReceiptCheckView::Finished { trace_lengths_differ, .. } => trace_lengths_differ,
        _ => false,
    }
}

/// Whether a check is over with the given verdict.
pub open spec fn ended_with(
    check: ReceiptCheckView,
    verdict: Result<Action, GossipMessageErrorView>,
) -> bool {
    check is Finished && check->Finished_verdict == verdict
}

/// Whether a check has a local receipt to go by: it is past the comparison
/// of the traces.
pub open spec fn past_comparison(check: ReceiptCheckView) -> bool {
    check is AwaitingHeader || check is AwaitingParentHeader || check is AwaitingBlockBody
        || check is AwaitingProof || check is SubmittingFraudProof
}

/// A check lets a receipt be rebroadcast only at the step that compares it
/// with a local receipt, and only if the two traces hold the same root at
/// every position that both have. Unless the check notes that the lengths
/// differ, the two traces are then equal.
pub proof fn lemma_rebroadcast_means_agreement(check: ReceiptCheckView, event: ReceiptEventView)
    requires
        !(check is Finished),
        ended_with(receipt_check_step(check, event), Ok(Action::RebroadcastExecutionReceipt)),
    ensures
        check is AwaitingLocalReceipt || check is WaitingForLocalReceipt,
        event is LocalReceipt,
        ({
            let receipt = match check {
                ReceiptCheckView::AwaitingLocalReceipt { receipt } => receipt,
                ReceiptCheckView::WaitingForLocalReceipt { receipt } => receipt,
                _ => arbitrary(),
            };
            let local = event->LocalReceipt_0;
            &&& traces_agree(local.trace, receipt.trace)
            &&& noted_length_mismatch(receipt_check_step(check, event)) == (local.trace.len()
                != receipt.trace.len())
            &&& !noted_length_mismatch(receipt_check_step(check, event)) ==> local.trace
                == receipt.trace
        }),
{
    match check {
        ReceiptCheckView::AwaitingLocalReceipt { receipt } => {
            if let ReceiptEventView::LocalReceipt(local) = event {
                lemma_no_mismatch_means_agreement(local.trace, receipt.trace);
            }
        },
        ReceiptCheckView::WaitingForLocalReceipt { receipt } => {
            if let ReceiptEventView::LocalReceipt(local) = event {
                lemma_no_mismatch_means_agreement(local.trace, receipt.trace);
            }
        },
        _ => {},
    }
}

/// The phase that a fraud proof about trace entry `trace_index` disputes:
/// `initialize_block` with the encoded header of the disputed block for the
/// first entry, `finalize_block` for the last, and for an entry in between
/// the extrinsic before it.
pub open spec fn disputed_phase(
    trace_index: int,
    trace_len: int,
    header: HeaderInfoView,
    parent: HeaderInfoView,
    extrinsics: Seq<Seq<u8>>,
) -> ExecutionPhaseView {
    if trace_index == 0 {
        ExecutionPhaseView::InitializeBlock {
            call_data: new_header_encoding(header.number, parent.hash@),
        }
    } else if trace_index == trace_len - 1 {
        ExecutionPhaseView::FinalizeBlock
    } else {
        ExecutionPhaseView::ApplyExtrinsic { call_data: extrinsics[trace_index - 1] }
    }
}

/// The state that a proof of the phase behind trace entry `trace_index`
/// starts from.
pub open spec fn disputed_delta(trace_index: int, trace_len: int) -> StateDelta {
    if trace_index == 0 {
        StateDelta::Untouched
    } else if trace_index == trace_len - 1 {
        StateDelta::BeforeFinalizeBlock
    } else {
        StateDelta::BeforeExtrinsic { index: (trace_index - 1) as usize }
    }
}

/// What the node reports while a fraud proof about trace entry `trace_index`
/// is put together, when nothing fails: the header of the disputed block, the
/// header of its parent, the body of the block unless the first entry is
/// disputed, and the storage proof.
pub open spec fn synthesis_events(
    trace_index: int,
    header: HeaderInfoView,
    parent: HeaderInfoView,
    extrinsics: Seq<Seq<u8>>,
    proof: Seq<Seq<u8>>,
) -> Seq<ReceiptEventView> {
    if trace_index == 0 {
        seq![
            ReceiptEventView::Header(header),
            ReceiptEventView::Header(parent),
            ReceiptEventView::ExecutionProved(proof),
        ]
    } else {
        seq![
            ReceiptEventView::Header(header),
            ReceiptEventView::Header(parent),
            ReceiptEventView::BlockBody(extrinsics),
            ReceiptEventView::ExecutionProved(proof),
        ]
    }
}

/// Whether a fraud proof about trace entry `trace_index` can be put
/// together: the two state roots around the disputed phase are 32-byte
/// hashes, and a disputed extrinsic is in the body of the block.
pub open spec fn fraud_proof_possible(
    local_trace: Seq<Seq<u8>>,
    trace_index: int,
    parent: HeaderInfoView,
    extrinsics: Seq<Seq<u8>>,
) -> bool {
    &&& is_h256(pre_state_root_at(local_trace, parent.state_root, trace_index))
    &&& is_h256(local_trace[trace_index])
    &&& 0 < trace_index < local_trace.len() - 1 ==> trace_index - 1 < extrinsics.len()
}

/// The fraud proof about trace entry `trace_index`: it leads from the local
/// root before that entry (the parent's state root for the first entry) to
/// the local root at that entry and disputes the phase that the entry is the
/// result of.
pub open spec fn fraud_proof_about(
    local_trace: Seq<Seq<u8>>,
    trace_index: int,
    header: HeaderInfoView,
    parent: HeaderInfoView,
    extrinsics: Seq<Seq<u8>>,
    proof: Seq<Seq<u8>>,
) -> FraudProofView {
    FraudProofView {
        frame: ProofFrameView {
            parent_number: parent.number,
            parent_hash: parent.hash,
            pre_state_root: h256_of(pre_state_root_at(local_trace, parent.state_root, trace_index)),
            post_state_root: h256_of(local_trace[trace_index]),
        },
        proof,
        execution_phase: disputed_phase(
            trace_index,
            local_trace.len() as int,
            header,
            parent,
            extrinsics,
        ),
    }
}

/// Nothing is lost between a disagreement and the fraud proof about it. If
/// the local trace first differs from the remote one at `trace_index` and the
/// node finds the headers, the body and a storage proof, the check arrives at
/// a fraud proof exactly if one is possible, and then it is the fraud proof
/// about that entry, proved on the state that the disputed phase starts
/// from. Where none is possible the check ends with the reason. Below the
/// first mismatch the remote trace holds the same roots, so the pre-state
/// root is the remote one as well.
pub proof fn lemma_fraud_proof_is_lossless(
    receipt: ExecutionReceiptView,
    local: ExecutionReceiptView,
    trace_index: int,
    header: HeaderInfoView,
    parent: HeaderInfoView,
    extrinsics: Seq<Seq<u8>>,
    proof: Seq<Seq<u8>>,
)
    requires
        local.trace.len() <= usize::MAX,
        is_first_mismatch(local.trace, receipt.trace, trace_index),
    ensures
        trace_index > 0 ==> pre_state_root_at(local.trace, parent.state_root, trace_index)
            == receipt.trace[trace_index - 1],
        ({
            let events = synthesis_events(trace_index, header, parent, extrinsics, proof);
            let asking = receipt_check_run(
                receipts_compared(receipt, local),
                events.drop_last(),
            );
            let end = receipt_check_run(receipts_compared(receipt, local), events);
            let possible = fraud_proof_possible(local.trace, trace_index, parent, extrinsics);
            &&& end is SubmittingFraudProof <==> possible
            &&& possible ==> receipt_check_request(asking) == (ReceiptRequestView::ProveExecution {
                at: parent.hash,
                parent_number: parent.number,
                phase: disputed_phase(
                    trace_index,
                    local.trace.len() as int,
                    header,
                    parent,
                    extrinsics,
                ),
                delta: disputed_delta(trace_index, local.trace.len() as int),
            })
            &&& possible ==> receipt_check_request(end) == (ReceiptRequestView::SubmitFraudProof {
                fraud_proof: fraud_proof_about(
                    local.trace,
                    trace_index,
                    header,
                    parent,
                    extrinsics,
                    proof,
                ),
            })
            &&& !possible ==> ended_with(end, Err(GossipMessageErrorView::InvalidStateRootType))
                || ended_with(
                end,
                Err(
                    GossipMessageErrorView::InvalidExtrinsicIndex {
                        index: (trace_index - 1) as usize,
                        max: crate::fraud_proof::max_extrinsic_index(extrinsics.len()),
                    },
                ),
            )
        }),
{
    lemma_no_mismatch_means_agreement(local.trace, receipt.trace);
    crate::receipt::lemma_first_mismatch_unique(
        local.trace,
        receipt.trace,
        trace_index,
        first_mismatch(local.trace, receipt.trace).unwrap(),
    );
    let events = synthesis_events(trace_index, header, parent, extrinsics, proof);
    let start = receipts_compared(receipt, local);
    let after_header = receipt_check_step(start, events[0]);
    let after_parent = receipt_check_step(after_header, events[1]);
    reveal_with_fuel(receipt_check_run, 6);
    if trace_index == 0 {
        assert(events.drop_last() =~= seq![events[0], events[1]]);
        assert(events.drop_first() =~= seq![events[1], events[2]]);
        assert(events.drop_first().drop_first() =~= seq![events[2]]);
        assert(events.drop_first().drop_first().drop_first() =~= Seq::empty());
        assert(events.drop_last().drop_first() =~= seq![events[1]]);
        assert(events.drop_last().drop_first().drop_first() =~= Seq::empty());
    } else {
        assert(events.drop_last() =~= seq![events[0], events[1], events[2]]);
        assert(events.drop_first() =~= seq![events[1], events[2], events[3]]);
        assert(events.drop_first().drop_first() =~= seq![events[2], events[3]]);
        assert(events.drop_first().drop_first().drop_first() =~= seq![events[3]]);
        assert(events.drop_first().drop_first().drop_first().drop_first() =~= Seq::empty());
        assert(events.drop_last().drop_first() =~= seq![events[1], events[2]]);
        assert(events.drop_last().drop_first().drop_first() =~= seq![events[2]]);
        assert(events.drop_last().drop_first().drop_first().drop_first() =~= Seq::empty());
    }
}

/// A disagreement at the first trace entry is about `initialize_block`: the
/// proof is asked for on the state of the parent as it is, without reading
/// the body of the block, and the fraud proof starts from the parent's state
/// root.
pub proof fn lemma_dispute_at_initialize(
    receipt: ExecutionReceiptView,
    local: ExecutionReceiptView,
    header: HeaderInfoView,
    parent: HeaderInfoView,
    proof: Seq<Seq<u8>>,
)
    requires
        local.trace.len() <= usize::MAX,
        is_first_mismatch(local.trace, receipt.trace, 0),
        is_h256(parent.state_root),
        is_h256(local.trace[0]),
    ensures
        ({
            let compared = receipts_compared(receipt, local);
            let asking = receipt_check_run(
                compared,
                seq![ReceiptEventView::Header(header), ReceiptEventView::Header(parent)],
            );
            let phase = ExecutionPhaseView::InitializeBlock {
                call_data: new_header_encoding(header.number, parent.hash@),
            };
            &&& receipt_check_request(asking) == (ReceiptRequestView::ProveExecution {
                at: parent.hash,
                parent_number: parent.number,
                phase,
                delta: StateDelta::Untouched,
            })
            &&& receipt_check_request(
                receipt_check_step(asking, ReceiptEventView::ExecutionProved(proof)),
            ) == (ReceiptRequestView::SubmitFraudProof {
                fraud_proof: FraudProofView {
                    frame: ProofFrameView {
                        parent_number: parent.number,
                        parent_hash: parent.hash,
                        pre_state_root: h256_of(parent.state_root),
                        post_state_root: h256_of(local.trace[0]),
                    },
                    proof,
                    execution_phase: phase,
                },
            })
        }),
{
    let extrinsics = Seq::<Seq<u8>>::empty();
    lemma_fraud_proof_is_lossless(receipt, local, 0, header, parent, extrinsics, proof);
    let events = synthesis_events(0, header, parent, extrinsics, proof);
    let compared = receipts_compared(receipt, local);
    assert(events.drop_last() =~= seq![
        ReceiptEventView::Header(header),
        ReceiptEventView::Header(parent),
    ]);
    lemma_run_then_step(compared, events);
}

/// A disagreement at the last trace entry, where it is not the first, is
/// about `finalize_block`: the proof is asked for on the state after every
/// extrinsic of the block, and the fraud proof starts from the local root
/// before the last.
pub proof fn lemma_dispute_at_finalize(
    receipt: ExecutionReceiptView,
    local: ExecutionReceiptView,
    header: HeaderInfoView,
    parent: HeaderInfoView,
    extrinsics: Seq<Seq<u8>>,
    proof: Seq<Seq<u8>>,
)
    requires
        1 < local.trace.len() <= usize::MAX,
        is_first_mismatch(local.trace, receipt.trace, local.trace.len() - 1),
        is_h256(local.trace[local.trace.len() - 2]),
        is_h256(local.trace.last()),
    ensures
        ({
            let compared = receipts_compared(receipt, local);
            let asking = receipt_check_run(
                compared,
                seq![
                    ReceiptEventView::Header(header),
                    ReceiptEventView::Header(parent),
                    ReceiptEventView::BlockBody(extrinsics),
                ],
            );
            &&& receipt_check_request(asking) == (ReceiptRequestView::ProveExecution {
                at: parent.hash,
                parent_number: parent.number,
                phase: ExecutionPhaseView::FinalizeBlock,
                delta: StateDelta::BeforeFinalizeBlock,
            })
            &&& receipt_check_request(
                receipt_check_step(asking, ReceiptEventView::ExecutionProved(proof)),
            ) == (ReceiptRequestView::SubmitFraudProof {
                fraud_proof: FraudProofView {
                    frame: ProofFrameView {
                        parent_number: parent.number,
                        parent_hash: parent.hash,
                        pre_state_root: h256_of(local.trace[local.trace.len() - 2]),
                        post_state_root: h256_of(local.trace.last()),
                    },
                    proof,
                    execution_phase: ExecutionPhaseView::FinalizeBlock,
                },
            })
        }),
{
    let last = local.trace.len() - 1;
    lemma_fraud_proof_is_lossless(receipt, local, last, header, parent, extrinsics, proof);
    let events = synthesis_events(last, header, parent, extrinsics, proof);
    let compared = receipts_compared(receipt, local);
    assert(events.drop_last() =~= seq![
        ReceiptEventView::Header(header),
        ReceiptEventView::Header(parent),
        ReceiptEventView::BlockBody(extrinsics),
    ]);
    lemma_run_then_step(compared, events);
}

/// Running a check over events is running it over all but the last and
/// taking one more step.
pub proof fn lemma_run_then_step(check: ReceiptCheckView, events: Seq<ReceiptEventView>)
    requires
        events.len() > 0,
    ensures
        receipt_check_run(check, events) == receipt_check_step(
            receipt_check_run(check, events.drop_last()),
            events.last(),
        ),
    decreases events.len(),
{
    if events.len() == 1 {
        assert(events.drop_last() =~= Seq::empty());
        assert(events.drop_first() =~= Seq::empty());
        assert(receipt_check_run(receipt_check_step(check, events[0]), events.drop_first())
            == receipt_check_step(check, events[0]));
    } else {
        let next = receipt_check_step(check, events[0]);
        lemma_run_then_step(next, events.drop_first());
        assert(events.drop_first().drop_last() =~= events.drop_last().drop_first());
        assert(events.drop_last()[0] == events[0]);
    }
}

/// A check that is over stays as it is and submits nothing more.
pub proof fn lemma_finished_is_final(check: ReceiptCheckView, events: Seq<ReceiptEventView>)
    requires
        check is Finished,
    ensures
        receipt_check_run(check, events) == check,
        fraud_proofs_submitted(check, events) == 0,
    decreases events.len(),
{
    if events.len() > 0 {
        lemma_finished_is_final(check, events.drop_first());
    }
}

/// Whatever the node reports, a check hands at most one fraud proof to the
/// primary chain, and one that did ends with the receipt dropped.
pub proof fn lemma_at_most_one_fraud_proof(check: ReceiptCheckView, events: Seq<ReceiptEventView>)
    ensures
        fraud_proofs_submitted(check, events) <= 1,
        fraud_proofs_submitted(check, events) == 1 ==> ended_with(
            receipt_check_run(check, events),
            Ok(Action::Empty),
        ),
    decreases events.len(),
{
    if events.len() > 0 {
        let next = receipt_check_step(check, events[0]);
        if check is SubmittingFraudProof && events[0] is FraudProofSubmitted {
            lemma_finished_is_final(next, events.drop_first());
        } else {
            lemma_at_most_one_fraud_proof(next, events.drop_first());
        }
    }
}

/// Checking a receipt is repeatable: two checks of the same signed receipt
/// that are told the same things end in the same state, with the same
/// verdict, and each of them submits at most one fraud proof.
pub proof fn lemma_check_is_idempotent(
    first: SignedExecutionReceiptView,
    first_signature_valid: bool,
    first_events: Seq<ReceiptEventView>,
    second: SignedExecutionReceiptView,
    second_signature_valid: bool,
    second_events: Seq<ReceiptEventView>,
)
    requires
        first == second,
        first_signature_valid == second_signature_valid,
        first_events == second_events,
    ensures
        receipt_check_run(receipt_check_started(first, first_signature_valid), first_events)
            == receipt_check_run(
            receipt_check_started(second, second_signature_valid),
            second_events,
        ),
        fraud_proofs_submitted(receipt_check_started(first, first_signature_valid), first_events)
            <= 1,
        fraud_proofs_submitted(
            receipt_check_started(second, second_signature_valid),
            second_events,
        ) <= 1,
{
    lemma_at_most_one_fraud_proof(
        receipt_check_started(first, first_signature_valid),
        first_events,
    );
}

/// From the comparison of the traces on, a check keeps what it noted about
/// their lengths.
pub proof fn lemma_length_note_is_kept(check: ReceiptCheckView, events: Seq<ReceiptEventView>)
    requires
        past_comparison(check) || check is Finished,
    ensures
        noted_length_mismatch(receipt_check_run(check, events)) == noted_length_mismatch(check),
        past_comparison(receipt_check_run(check, events)) || receipt_check_run(check, events)
            is Finished,
    decreases events.len(),
{
    if events.len() > 0 {
        lemma_length_note_is_kept(receipt_check_step(check, events[0]), events.drop_first());
    }
}

/// Traces of different lengths do not go unnoticed: once a remote receipt
/// has been compared with a local one, the check says whether their traces
/// differ in length, in every state up to and including the last.
pub proof fn lemma_length_mismatch_surfaces(
    receipt: ExecutionReceiptView,
    local: ExecutionReceiptView,
    events: Seq<ReceiptEventView>,
)
    ensures
        noted_length_mismatch(receipt_check_run(receipts_compared(receipt, local), events)) == (
        local.trace.len() != receipt.trace.len()),
{
    lemma_length_note_is_kept(receipts_compared(receipt, local), events);
}

/// Whether the runtime named `signer` as the elected executor in one of the
/// events.
pub open spec fn receipt_signer_elected(events: Seq<ReceiptEventView>, signer: ExecutorId) -> bool {
    exists|k: int|
        0 <= k < events.len() && #[trigger] events[k] == ReceiptEventView::ExecutorId(signer)
}

/// A check that waits to hear which executor is elected goes beyond that
/// only if it hears that the signer is.
proof fn lemma_progress_needs_election(check: ReceiptCheckView, events: Seq<ReceiptEventView>)
    requires
        check is AwaitingExecutorId,
        ({
            let end = receipt_check_run(check, events);
            (end is Finished && end->Finished_verdict is Ok) || end is SubmittingFraudProof
        }),
    ensures
        receipt_signer_elected(events, check->AwaitingExecutorId_signer),
    decreases events.len(),
{
    let signer = check->AwaitingExecutorId_signer;
    if events.len() > 0 {
        let next = receipt_check_step(check, events[0]);
        if events[0] == ReceiptEventView::ExecutorId(signer) {
            assert(events[0] == ReceiptEventView::ExecutorId(signer));
        } else if next is Finished {
            lemma_finished_is_final(next, events.drop_first());
        } else {
            assert(next == check);
            lemma_progress_needs_election(next, events.drop_first());
            let k = choose|k: int|
                0 <= k < events.drop_first().len() && #[trigger] events.drop_first()[k]
                    == ReceiptEventView::ExecutorId(signer);
            assert(events[k + 1] == ReceiptEventView::ExecutorId(signer));
        }
    }
}

/// A receipt is rebroadcast, dropped or disputed with a fraud proof only if
/// its signature is valid and the primary runtime, asked at the primary block
/// of the receipt, named its signer as the elected executor.
pub proof fn lemma_checked_receipt_is_authentic(
    signed: SignedExecutionReceiptView,
    signature_valid: bool,
    events: Seq<ReceiptEventView>,
)
    requires
        ({
            let end = receipt_check_run(receipt_check_started(signed, signature_valid), events);
            (end is Finished && end->Finished_verdict is Ok) || end is SubmittingFraudProof
        }),
    ensures
        signature_valid,
        receipt_signer_elected(events, signed.signer),
{
    let start = receipt_check_started(signed, signature_valid);
    if start is Finished {
        lemma_finished_is_final(start, events);
    } else {
        lemma_progress_needs_election(start, events);
    }
}

/// A check that had to wait for the local receipt goes on, once the receipt
/// is there, as it would have gone on had the receipt been there at once.
pub proof fn lemma_waiting_then_comparing(receipt: ExecutionReceiptView, local: ExecutionReceiptView)
    ensures
        ({
            let asked = ReceiptCheckView::AwaitingLocalReceipt { receipt };
            let waiting = receipt_check_step(asked, ReceiptEventView::LocalReceiptNotFound);
            &&& receipt_check_request(waiting) == (ReceiptRequestView::WaitForLocalReceipt {
                secondary_hash: receipt.secondary_hash,
                secondary_number: receipt.primary_number,
            })
            &&& receipt_check_step(waiting, ReceiptEventView::LocalReceipt(local))
                == receipts_compared(receipt, local)
            &&& receipt_check_step(asked, ReceiptEventView::LocalReceipt(local)) == receipts_compared(
                receipt,
                local,
            )
        }),
{
}

/// Where the local trace has one entry for `initialize_block`, one for each
/// extrinsic of the block body and one for `finalize_block`, a disagreement
/// never points at an extrinsic that the body lacks.
pub proof fn lemma_complete_trace_has_every_extrinsic(
    receipt: ExecutionReceiptView,
    local: ExecutionReceiptView,
    trace_index: int,
    extrinsics: Seq<Seq<u8>>,
)
    requires
        local.trace.len() <= usize::MAX,
        local.trace.len() == extrinsics.len() + 2,
        is_first_mismatch(local.trace, receipt.trace, trace_index),
    ensures
        phase_kind_at(trace_index as usize, local.trace.len() as usize) matches PhaseKind::ApplyExtrinsic {
            index,
        } ==> apply_extrinsic_phase(index, extrinsics) == Ok::<
            ExecutionPhaseView,
            GossipMessageErrorView,
        >(ExecutionPhaseView::ApplyExtrinsic { call_data: extrinsics[trace_index - 1] }),
{
}

/// How far a check has come: from the check of the author over the pruning
/// filter, the match with the local receipt and the steps of a dispute to
/// the end.
pub open spec fn receipt_check_progress(check: ReceiptCheckView) -> nat {
    match check {
        ReceiptCheckView::AwaitingExecutorId { .. } => 0,
        ReceiptCheckView::AwaitingBestExecutionChainNumber { .. } => 1,
        ReceiptCheckView::AwaitingLocalReceipt { .. } => 2,
        ReceiptCheckView::WaitingForLocalReceipt { .. } => 3,
        ReceiptCheckView::AwaitingHeader { .. } => 4,
        ReceiptCheckView::AwaitingParentHeader { .. } => 5,
        ReceiptCheckView::AwaitingBlockBody { .. } => 6,
        ReceiptCheckView::AwaitingProof { .. } => 7,
        ReceiptCheckView::SubmittingFraudProof { .. } => 8,
        ReceiptCheckView::Finished { .. } => 9,
    }
}

/// A check never goes back: an event either leaves it where it is or takes
/// it further. So a check asks the node for at most nine things before it
/// is over.
pub proof fn lemma_check_moves_forward(check: ReceiptCheckView, event: ReceiptEventView)
    ensures
        receipt_check_step(check, event) == check || receipt_check_progress(
            receipt_check_step(check, event),
        ) > receipt_check_progress(check),
        receipt_check_progress(check) <= 9,
        receipt_check_progress(check) == 9 <==> check is Finished,
{
}

/// A receipt beyond the pruning horizon is ignored: once the runtime has
/// given a best execution chain number that leaves the receipt more than the
/// pruning depth behind, the check is over with the receipt dropped, and
/// whatever the node reports after that, no fraud proof is submitted.
pub proof fn lemma_pruned_receipt_is_ignored(
    receipt: ExecutionReceiptView,
    best_exec_number: u32,
    events: Seq<ReceiptEventView>,
)
    requires
        receipt_is_pruned(best_exec_number as int, receipt.primary_number as int),
    ensures
        ({
            let filtered = receipt_check_step(
                ReceiptCheckView::AwaitingBestExecutionChainNumber { receipt },
                ReceiptEventView::BestExecutionChainNumber(best_exec_number),
            );
            &&& ended_with(filtered, Ok(Action::Empty))
            &&& receipt_check_run(filtered, events) == filtered
            &&& fraud_proofs_submitted(filtered, events) == 0
        }),
{
    let filtered = receipt_check_step(
        ReceiptCheckView::AwaitingBestExecutionChainNumber { receipt },
        ReceiptEventView::BestExecutionChainNumber(best_exec_number),
    );
    lemma_finished_is_final(filtered, events);
}

} // verus!
