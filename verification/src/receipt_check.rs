//! The check of one execution receipt that a peer gossiped.
//!
//! A check is a state machine. Each state other than the last asks for one
//! thing that only the node around the core can do: a call into the primary
//! runtime, a look into the secondary chain's database, the wait for a local
//! receipt, the proof of an execution, the submission of a fraud proof. The
//! node does it and hands back what came of it as an event, and the check
//! moves on. An event that does not answer what the check asked for leaves
//! the check where it is.

use vstd::prelude::*;
use crate::crypto::{sr25519_signature_valid, sr25519_verify};
use crate::error::{ClientError, ClientErrorView, GossipMessageError, GossipMessageErrorView};
use crate::fraud_proof::{
    apply_extrinsic_phase, create_apply_extrinsic_phase, create_initialize_block_phase,
    frame_fraud_proof, initialize_block_phase, phase_kind_at, classify_trace_index, proof_frame,
    ExecutionPhase, ExecutionPhaseView, FraudProof, FraudProofView, HeaderInfo, HeaderInfoView,
    PhaseKind, ProofFrame, ProofFrameView, StateDelta, StorageProof,
};
use crate::primitives::{byte_strings, clone_bytes, h256_equal, BlockNumber, ExecutorId, H256};
use crate::receipt::{
    find_first_mismatch, first_mismatch, ExecutionReceipt, ExecutionReceiptView,
    SignedExecutionReceipt, SignedExecutionReceiptView,
};
use crate::receipt_store::{receipt_is_pruned, target_receipt_is_pruned};
use crate::verdict::{duplicate_verdict, verdict_view, Action};

verus! {

/// A disagreement between the local trace of a block and a remote one.
#[derive(Debug)]
pub struct Divergence {
    /// Hash of the secondary block whose execution is disputed.
    pub block: H256,
    /// The phase whose result the traces disagree on.
    pub kind: PhaseKind,
    /// The local state root before that phase, as the trace has it; `None`
    /// where the phase starts from the state of the parent block.
    pub pre_root: Option<Vec<u8>>,
    /// The local state root after that phase.
    pub post_root: Vec<u8>,
    /// Whether the two traces have different lengths as well.
    pub trace_lengths_differ: bool,
}

/// The mathematical value of a [`Divergence`].
pub ghost struct DivergenceView {
    pub block: H256,
    pub kind: PhaseKind,
    pub pre_root: Option<Seq<u8>>,
    pub post_root: Seq<u8>,
    pub trace_lengths_differ: bool,
}

impl View for Divergence {
    type V = DivergenceView;

    open spec fn view(&self) -> DivergenceView {
        DivergenceView {
            block: self.block,
            kind: self.kind,
            pre_root: match self.pre_root {
                Some(root) => Some(root@),
                None => None,
            },
            post_root: self.post_root@,
            trace_lengths_differ: self.trace_lengths_differ,
        }
    }
}

/// What the node reports back to a check.
#[derive(Debug)]
pub enum ReceiptEvent {
    /// The primary runtime named the executor elected at the asked block.
    ExecutorId(ExecutorId),
    /// The primary runtime gave its best execution chain number.
    BestExecutionChainNumber(BlockNumber),
    /// A call into the primary runtime failed, with this message.
    RuntimeApiFailed(String),
    /// The local receipt that was asked or waited for.
    LocalReceipt(ExecutionReceipt),
    /// No local receipt is stored for the asked block.
    LocalReceiptNotFound,
    /// The wait for the local receipt ended without an answer.
    WaitDisconnected,
    /// The header that was asked for.
    Header(HeaderInfo),
    /// No header is stored for the asked block.
    HeaderNotFound,
    /// The encoded extrinsics of the block that was asked for.
    BlockBody(Vec<Vec<u8>>),
    /// No body is stored for the asked block.
    BlockBodyNotFound,
    /// The storage proof of the execution that was to be proved.
    ExecutionProved(StorageProof),
    /// The secondary chain client failed at what was asked of it.
    ClientFailed(ClientError),
    /// The fraud proof was handed to the primary chain.
    FraudProofSubmitted,
}

/// The mathematical value of a [`ReceiptEvent`].
pub ghost enum ReceiptEventView {
    ExecutorId(ExecutorId),
    BestExecutionChainNumber(BlockNumber),
    RuntimeApiFailed(Seq<char>),
    LocalReceipt(ExecutionReceiptView),
    LocalReceiptNotFound,
    WaitDisconnected,
    Header(HeaderInfoView),
    HeaderNotFound,
    BlockBody(Seq<Seq<u8>>),
    BlockBodyNotFound,
    ExecutionProved(Seq<Seq<u8>>),
    ClientFailed(ClientErrorView),
    FraudProofSubmitted,
}

impl View for ReceiptEvent {
    type V = ReceiptEventView;

    open spec fn view(&self) -> ReceiptEventView {
        match *self {
            ReceiptEvent::ExecutorId(id) => ReceiptEventView::ExecutorId(id),
            ReceiptEvent::BestExecutionChainNumber(number) => (
                ReceiptEventView::BestExecutionChainNumber(number)
            ),
            ReceiptEvent::RuntimeApiFailed(message) => ReceiptEventView::RuntimeApiFailed(message@),
            ReceiptEvent::LocalReceipt(receipt) => ReceiptEventView::LocalReceipt(receipt@),
            ReceiptEvent::LocalReceiptNotFound => ReceiptEventView::LocalReceiptNotFound,
            ReceiptEvent::WaitDisconnected => ReceiptEventView::WaitDisconnected,
            ReceiptEvent::Header(header) => ReceiptEventView::Header(header@),
            ReceiptEvent::HeaderNotFound => ReceiptEventView::HeaderNotFound,
            ReceiptEvent::BlockBody(extrinsics) => ReceiptEventView::BlockBody(
                byte_strings(extrinsics@),
            ),
            ReceiptEvent::BlockBodyNotFound => ReceiptEventView::BlockBodyNotFound,
            ReceiptEvent::ExecutionProved(proof) => ReceiptEventView::ExecutionProved(proof@),
            ReceiptEvent::ClientFailed(error) => ReceiptEventView::ClientFailed(error@),
            ReceiptEvent::FraudProofSubmitted => ReceiptEventView::FraudProofSubmitted,
        }
    }
}

/// What a check asks the node to do next.
#[derive(Debug)]
pub enum ReceiptRequest {
    /// Ask the primary runtime which executor is elected at this primary block.
    ExecutorId { primary_hash: H256 },
    /// Ask the primary runtime, at the best primary block, for the best
    /// execution chain number.
    BestExecutionChainNumber,
    /// Look up the local receipt of this secondary block.
    LocalReceipt { secondary_hash: H256 },
    /// Wait until the local receipt of this secondary block exists, or the
    /// local chain has reached this height.
    WaitForLocalReceipt { secondary_hash: H256, secondary_number: BlockNumber },
    /// Look up the header of this secondary block.
    Header { hash: H256 },
    /// Look up the body of this secondary block.
    BlockBody { hash: H256 },
    /// Prove the execution of `phase` on top of the block `at`, starting from
    /// the state that `delta` describes.
    ProveExecution { at: H256, parent_number: BlockNumber, phase: ExecutionPhase, delta: StateDelta },
    /// Submit this fraud proof to the primary chain.
    SubmitFraudProof { fraud_proof: FraudProof },
    /// Nothing: the check is over, with this outcome.
    Finish { verdict: Result<Action, GossipMessageError>, trace_lengths_differ: bool },
}

/// The mathematical value of a [`ReceiptRequest`].
pub ghost enum ReceiptRequestView {
    ExecutorId { primary_hash: H256 },
    BestExecutionChainNumber,
    LocalReceipt { secondary_hash: H256 },
    WaitForLocalReceipt { secondary_hash: H256, secondary_number: BlockNumber },
    Header { hash: H256 },
    BlockBody { hash: H256 },
    ProveExecution {
        at: H256,
        parent_number: BlockNumber,
        phase: ExecutionPhaseView,
        delta: StateDelta,
    },
    SubmitFraudProof { fraud_proof: FraudProofView },
    Finish { verdict: Result<Action, GossipMessageErrorView>, trace_lengths_differ: bool },
}

impl View for ReceiptRequest {
    type V = ReceiptRequestView;

    open spec fn view(&self) -> ReceiptRequestView {
        match *self {
            ReceiptRequest::ExecutorId { primary_hash } => ReceiptRequestView::ExecutorId {
                primary_hash,
            },
            ReceiptRequest::BestExecutionChainNumber => ReceiptRequestView::BestExecutionChainNumber,
            ReceiptRequest::LocalReceipt { secondary_hash } => ReceiptRequestView::LocalReceipt {
                secondary_hash,
            },
            ReceiptRequest::WaitForLocalReceipt { secondary_hash, secondary_number } => (
                ReceiptRequestView::WaitForLocalReceipt { secondary_hash, secondary_number }
            ),
            ReceiptRequest::Header { hash } => ReceiptRequestView::Header { hash },
            ReceiptRequest::BlockBody { hash } => ReceiptRequestView::BlockBody { hash },
            ReceiptRequest::ProveExecution { at, parent_number, phase, delta } => (
                ReceiptRequestView::ProveExecution { at, parent_number, phase: phase@, delta }
            ),
            ReceiptRequest::SubmitFraudProof { fraud_proof } => (
                ReceiptRequestView::SubmitFraudProof { fraud_proof: fraud_proof@ }
            ),
            ReceiptRequest::Finish { verdict, trace_lengths_differ } => ReceiptRequestView::Finish {
                verdict: verdict_view(verdict),
                trace_lengths_differ,
            },
        }
    }
}

/// The state of the check of one remote execution receipt.
#[derive(Debug)]
pub enum ReceiptCheck {
    /// The signature is good; the elected executor is being asked for.
    AwaitingExecutorId { receipt: ExecutionReceipt, signer: ExecutorId },
    /// The author is the elected executor; the pruning horizon is being asked for.
    AwaitingBestExecutionChainNumber { receipt: ExecutionReceipt },
    /// The receipt is recent enough; the local receipt is being looked up.
    AwaitingLocalReceipt { receipt: ExecutionReceipt },
    /// No local receipt exists yet; the node waits for it.
    WaitingForLocalReceipt { receipt: ExecutionReceipt },
    /// The traces disagree; the header of the disputed block is being looked up.
    AwaitingHeader { divergence: Divergence },
    /// The header of the parent of the disputed block is being looked up.
    AwaitingParentHeader { divergence: Divergence, number: BlockNumber, parent_hash: H256 },
    /// The body of the disputed block is being looked up, to prove the
    /// extrinsic with the given index, or `finalize_block` where none is given.
    AwaitingBlockBody {
        block: H256,
        extrinsic_index: Option<usize>,
        frame: ProofFrame,
        trace_lengths_differ: bool,
    },
    /// The execution of the disputed phase is being proved.
    AwaitingProof {
        frame: ProofFrame,
        phase: ExecutionPhase,
        delta: StateDelta,
        trace_lengths_differ: bool,
    },
    /// The fraud proof is being submitted.
    SubmittingFraudProof { fraud_proof: FraudProof, trace_lengths_differ: bool },
    /// The check is over.
    Finished { verdict: Result<Action, GossipMessageError>, trace_lengths_differ: bool },
}

/// The mathematical value of a [`ReceiptCheck`].
pub ghost enum ReceiptCheckView {
    AwaitingExecutorId { receipt: ExecutionReceiptView, signer: ExecutorId },
    AwaitingBestExecutionChainNumber { receipt: ExecutionReceiptView },
    AwaitingLocalReceipt { receipt: ExecutionReceiptView },
    WaitingForLocalReceipt { receipt: ExecutionReceiptView },
    AwaitingHeader { divergence: DivergenceView },
    AwaitingParentHeader { divergence: DivergenceView, number: BlockNumber, parent_hash: H256 },
    AwaitingBlockBody {
        block: H256,
        extrinsic_index: Option<usize>,
        frame: ProofFrameView,
        trace_lengths_differ: bool,
    },
    AwaitingProof {
        frame: ProofFrameView,
        phase: ExecutionPhaseView,
        delta: StateDelta,
        trace_lengths_differ: bool,
    },
    SubmittingFraudProof { fraud_proof: FraudProofView, trace_lengths_differ: bool },
    Finished { verdict: Result<Action, GossipMessageErrorView>, trace_lengths_differ: bool },
}

impl View for ReceiptCheck {
    type V = ReceiptCheckView;

    open spec fn view(&self) -> ReceiptCheckView {
        match *self {
            ReceiptCheck::AwaitingExecutorId { receipt, signer } => (
                ReceiptCheckView::AwaitingExecutorId { receipt: receipt@, signer }
            ),
            ReceiptCheck::AwaitingBestExecutionChainNumber { receipt } => (
                ReceiptCheckView::AwaitingBestExecutionChainNumber { receipt: receipt@ }
            ),
            ReceiptCheck::AwaitingLocalReceipt { receipt } => ReceiptCheckView::AwaitingLocalReceipt {
                receipt: receipt@,
            },
            ReceiptCheck::WaitingForLocalReceipt { receipt } => (
                ReceiptCheckView::WaitingForLocalReceipt { receipt: receipt@ }
            ),
            ReceiptCheck::AwaitingHeader { divergence } => ReceiptCheckView::AwaitingHeader {
                divergence: divergence@,
            },
            ReceiptCheck::AwaitingParentHeader { divergence, number, parent_hash } => (
                ReceiptCheckView::AwaitingParentHeader { divergence: divergence@, number, parent_hash }
            ),
            ReceiptCheck::AwaitingBlockBody { block, extrinsic_index, frame, trace_lengths_differ } => (
                ReceiptCheckView::AwaitingBlockBody {
                    block,
                    extrinsic_index,
                    frame: frame@,
                    trace_lengths_differ,
                }
            ),
            ReceiptCheck::AwaitingProof { frame, phase, delta, trace_lengths_differ } => (
                ReceiptCheckView::AwaitingProof {
                    frame: frame@,
                    phase: phase@,
                    delta,
                    trace_lengths_differ,
                }
            ),
            ReceiptCheck::SubmittingFraudProof { fraud_proof, trace_lengths_differ } => (
                ReceiptCheckView::SubmittingFraudProof {
                    fraud_proof: fraud_proof@,
                    trace_lengths_differ,
                }
            ),
            ReceiptCheck::Finished { verdict, trace_lengths_differ } => ReceiptCheckView::Finished {
                verdict: verdict_view(verdict),
                trace_lengths_differ,
            },
        }
    }
}

/// The state that ends a check with the given outcome.
pub open spec fn finished(
    verdict: Result<Action, GossipMessageErrorView>,
    trace_lengths_differ: bool,
) -> ReceiptCheckView {
    ReceiptCheckView::Finished { verdict, trace_lengths_differ }
}

/// Where a check starts: a receipt whose signature is bad is rejected at
/// once, for any other the elected executor is asked for.
pub open spec fn receipt_check_started(
    signed: SignedExecutionReceiptView,
    signature_valid: bool,
) -> ReceiptCheckView {
    if signature_valid {
        ReceiptCheckView::AwaitingExecutorId {
            receipt: signed.execution_receipt,
            signer: signed.signer,
        }
    } else {
        finished(Err(GossipMessageErrorView::BadExecutionReceiptSignature), false)
    }
}

/// The disagreement of a local trace with a remote one at `trace_index`.
pub open spec fn divergence_at(
    receipt: ExecutionReceiptView,
    local: ExecutionReceiptView,
    trace_index: int,
) -> DivergenceView {
    DivergenceView {
        block: receipt.secondary_hash,
        kind: phase_kind_at(trace_index as usize, local.trace.len() as usize),
        pre_root: if trace_index == 0 {
            None
        } else {
            Some(local.trace[trace_index - 1])
        },
        post_root: local.trace[trace_index],
        trace_lengths_differ: local.trace.len() != receipt.trace.len(),
    }
}

/// Where a check goes once the local receipt is there: traces without a
/// mismatch let the remote receipt be rebroadcast, a mismatch starts the
/// synthesis of a fraud proof.
pub open spec fn receipts_compared(
    receipt: ExecutionReceiptView,
    local: ExecutionReceiptView,
) -> ReceiptCheckView {
    match first_mismatch(local.trace, receipt.trace) {
        None => finished(
            Ok(Action::RebroadcastExecutionReceipt),
            local.trace.len() != receipt.trace.len(),
        ),
        Some(trace_index) => ReceiptCheckView::AwaitingHeader {
            divergence: divergence_at(receipt, local, trace_index),
        },
    }
}

/// Where a check goes once the parent header of the disputed block is there.
pub open spec fn proof_planned(
    divergence: DivergenceView,
    number: BlockNumber,
    parent: HeaderInfoView,
) -> ReceiptCheckView {
    let pre_root = match divergence.pre_root {
        Some(root) => root,
        None => parent.state_root,
    };
    match proof_frame(parent, pre_root, divergence.post_root) {
        Err(error) => finished(Err(error), divergence.trace_lengths_differ),
        Ok(frame) => match divergence.kind {
            PhaseKind::InitializeBlock => ReceiptCheckView::AwaitingProof {
                frame,
                phase: initialize_block_phase(number, parent.hash),
                delta: StateDelta::Untouched,
                trace_lengths_differ: divergence.trace_lengths_differ,
            },
            PhaseKind::ApplyExtrinsic { index } => ReceiptCheckView::AwaitingBlockBody {
                block: divergence.block,
                extrinsic_index: Some(index),
                frame,
                trace_lengths_differ: divergence.trace_lengths_differ,
            },
            PhaseKind::FinalizeBlock => ReceiptCheckView::AwaitingBlockBody {
                block: divergence.block,
                extrinsic_index: None,
                frame,
                trace_lengths_differ: divergence.trace_lengths_differ,
            },
        },
    }
}

/// Where a check goes once the body of the disputed block is there.
pub open spec fn body_loaded(
    extrinsic_index: Option<usize>,
    frame: ProofFrameView,
    trace_lengths_differ: bool,
    extrinsics: Seq<Seq<u8>>,
) -> ReceiptCheckView {
    match extrinsic_index {
        None => ReceiptCheckView::AwaitingProof {
            frame,
            phase: ExecutionPhaseView::FinalizeBlock,
            delta: StateDelta::BeforeFinalizeBlock,
            trace_lengths_differ,
        },
        Some(index) => match apply_extrinsic_phase(index, extrinsics) {
            Ok(phase) => ReceiptCheckView::AwaitingProof {
                frame,
                phase,
                delta: StateDelta::BeforeExtrinsic { index },
                trace_lengths_differ,
            },
            Err(error) => finished(Err(error), trace_lengths_differ),
        },
    }
}

/// The state that follows `check` when `event` comes in.
pub open spec fn receipt_check_step(check: ReceiptCheckView, event: ReceiptEventView) -> ReceiptCheckView {
    match check {
        ReceiptCheckView::AwaitingExecutorId { receipt, signer } => match event {
            ReceiptEventView::ExecutorId(expected) => if signer == expected {
                ReceiptCheckView::AwaitingBestExecutionChainNumber { receipt }
            } else {
                finished(
                    Err(
                        GossipMessageErrorView::InvalidExecutionReceiptAuthor {
                            got: signer,
                            expected,
                        },
                    ),
                    false,
                )
            },
            ReceiptEventView::RuntimeApiFailed(message) => finished(
                Err(GossipMessageErrorView::RuntimeApi(message)),
                false,
            ),
            _ => check,
        },
        ReceiptCheckView::AwaitingBestExecutionChainNumber { receipt } => match event {
            ReceiptEventView::BestExecutionChainNumber(best) => if receipt_is_pruned(
                best as int,
                receipt.primary_number as int,
            ) {
                finished(Ok(Action::Empty), false)
            } else {
                ReceiptCheckView::AwaitingLocalReceipt { receipt }
            },
            ReceiptEventView::RuntimeApiFailed(message) => finished(
                Err(GossipMessageErrorView::RuntimeApi(message)),
                false,
            ),
            _ => check,
        },
        ReceiptCheckView::AwaitingLocalReceipt { receipt } => match event {
            ReceiptEventView::LocalReceipt(local) => receipts_compared(receipt, local),
            ReceiptEventView::LocalReceiptNotFound => ReceiptCheckView::WaitingForLocalReceipt {
                receipt,
            },
            ReceiptEventView::ClientFailed(error) => finished(
                Err(GossipMessageErrorView::Client(error)),
                false,
            ),
            _ => check,
        },
        ReceiptCheckView::WaitingForLocalReceipt { receipt } => match event {
            ReceiptEventView::LocalReceipt(local) => receipts_compared(receipt, local),
            ReceiptEventView::WaitDisconnected => finished(
                Err(GossipMessageErrorView::RecvError),
                false,
            ),
            ReceiptEventView::ClientFailed(error) => finished(
                Err(GossipMessageErrorView::Client(error)),
                false,
            ),
            _ => check,
        },
        ReceiptCheckView::AwaitingHeader { divergence } => match event {
            ReceiptEventView::Header(header) => ReceiptCheckView::AwaitingParentHeader {
                divergence,
                number: header.number,
                parent_hash: header.parent_hash,
            },
            ReceiptEventView::HeaderNotFound => finished(
                Err(
                    GossipMessageErrorView::Client(ClientErrorView::HeaderNotFound(divergence.block)),
                ),
                divergence.trace_lengths_differ,
            ),
            ReceiptEventView::ClientFailed(error) => finished(
                Err(GossipMessageErrorView::Client(error)),
                divergence.trace_lengths_differ,
            ),
            _ => check,
        },
        ReceiptCheckView::AwaitingParentHeader { divergence, number, parent_hash } => match event {
            ReceiptEventView::Header(parent) => proof_planned(divergence, number, parent),
            ReceiptEventView::HeaderNotFound => finished(
                Err(GossipMessageErrorView::Client(ClientErrorView::HeaderNotFound(parent_hash))),
                divergence.trace_lengths_differ,
            ),
            ReceiptEventView::ClientFailed(error) => finished(
                Err(GossipMessageErrorView::Client(error)),
                divergence.trace_lengths_differ,
            ),
            _ => check,
        },
        ReceiptCheckView::AwaitingBlockBody { block, extrinsic_index, frame, trace_lengths_differ } => match event {
            ReceiptEventView::BlockBody(extrinsics) => body_loaded(
                extrinsic_index,
                frame,
                trace_lengths_differ,
                extrinsics,
            ),
            ReceiptEventView::BlockBodyNotFound => finished(
                Err(GossipMessageErrorView::Client(ClientErrorView::BlockBodyNotFound(block))),
                trace_lengths_differ,
            ),
            ReceiptEventView::ClientFailed(error) => finished(
                Err(GossipMessageErrorView::Client(error)),
                trace_lengths_differ,
            ),
            _ => check,
        },
        ReceiptCheckView::AwaitingProof { frame, phase, delta, trace_lengths_differ } => match event {
            ReceiptEventView::ExecutionProved(proof) => ReceiptCheckView::SubmittingFraudProof {
                fraud_proof: FraudProofView { frame, proof, execution_phase: phase },
                trace_lengths_differ,
            },
            ReceiptEventView::ClientFailed(error) => finished(
                Err(GossipMessageErrorView::Client(error)),
                trace_lengths_differ,
            ),
            _ => check,
        },
        ReceiptCheckView::SubmittingFraudProof { fraud_proof, trace_lengths_differ } => match event {
            ReceiptEventView::FraudProofSubmitted => finished(Ok(Action::Empty), trace_lengths_differ),
            _ => check,
        },
        ReceiptCheckView::Finished { .. } => check,
    }
}

/// What a check in the given state asks the node to do.
pub open spec fn receipt_check_request(check: ReceiptCheckView) -> ReceiptRequestView {
    match check {
        ReceiptCheckView::AwaitingExecutorId { receipt, signer } => ReceiptRequestView::ExecutorId {
            primary_hash: receipt.primary_hash,
        },
        ReceiptCheckView::AwaitingBestExecutionChainNumber { receipt } => (
            ReceiptRequestView::BestExecutionChainNumber
        ),
        ReceiptCheckView::AwaitingLocalReceipt { receipt } => ReceiptRequestView::LocalReceipt {
            secondary_hash: receipt.secondary_hash,
        },
        ReceiptCheckView::WaitingForLocalReceipt { receipt } => (
            ReceiptRequestView::WaitForLocalReceipt {
                secondary_hash: receipt.secondary_hash,
                secondary_number: receipt.primary_number,
            }
        ),
        ReceiptCheckView::AwaitingHeader { divergence } => ReceiptRequestView::Header {
            hash: divergence.block,
        },
        ReceiptCheckView::AwaitingParentHeader { divergence, number, parent_hash } => (
            ReceiptRequestView::Header { hash: parent_hash }
        ),
        ReceiptCheckView::AwaitingBlockBody { block, extrinsic_index, frame, trace_lengths_differ } => (
            ReceiptRequestView::BlockBody { hash: block }
        ),
        ReceiptCheckView::AwaitingProof { frame, phase, delta, trace_lengths_differ } => (
            ReceiptRequestView::ProveExecution {
                at: frame.parent_hash,
                parent_number: frame.parent_number,
                phase,
                delta,
            }
        ),
        ReceiptCheckView::SubmittingFraudProof { fraud_proof, trace_lengths_differ } => (
            ReceiptRequestView::SubmitFraudProof { fraud_proof }
        ),
        ReceiptCheckView::Finished { verdict, trace_lengths_differ } => ReceiptRequestView::Finish {
            verdict,
            trace_lengths_differ,
        },
    }
}

/// Compares a remote receipt with the local one of the same block.
fn compare_receipts(receipt: ExecutionReceipt, local: ExecutionReceipt) -> (next: ReceiptCheck)
    ensures
        next@ == receipts_compared(receipt@, local@),
{
    let trace_lengths_differ = local.trace.len() != receipt.trace.len();
    match find_first_mismatch(&local.trace, &receipt.trace) {
        None => ReceiptCheck::Finished {
            verdict: Ok(Action::RebroadcastExecutionReceipt),
            trace_lengths_differ,
        },
        Some(trace_index) => {
            proof {
                crate::receipt::lemma_no_mismatch_means_agreement(
                    byte_strings(local.trace@),
                    byte_strings(receipt.trace@),
                );
            }
            let kind = classify_trace_index(trace_index, local.trace.len());
            let pre_root = if trace_index == 0 {
                None
            } else {
                Some(clone_bytes(&local.trace[trace_index - 1]))
            };
            let post_root = clone_bytes(&local.trace[trace_index]);
            ReceiptCheck::AwaitingHeader {
                divergence: Divergence {
                    block: receipt.secondary_hash,
                    kind,
                    pre_root,
                    post_root,
                    trace_lengths_differ,
                },
            }
        },
    }
}

/// Decides what is to be proved about a disagreement, once the parent of the
/// disputed block is known.
fn plan_proof(divergence: Divergence, number: BlockNumber, parent: HeaderInfo) -> (next: ReceiptCheck)
    ensures
        next@ == proof_planned(divergence@, number, parent@),
{
    let trace_lengths_differ = divergence.trace_lengths_differ;
    let framed = match &divergence.pre_root {
        Some(root) => frame_fraud_proof(&parent, root, &divergence.post_root),
        None => frame_fraud_proof(&parent, &parent.state_root, &divergence.post_root),
    };
    match framed {
        Err(error) => ReceiptCheck::Finished { verdict: Err(error), trace_lengths_differ },
        Ok(frame) => match divergence.kind {
            PhaseKind::InitializeBlock => ReceiptCheck::AwaitingProof {
                frame,
                phase: create_initialize_block_phase(number, &parent.hash),
                delta: StateDelta::Untouched,
                trace_lengths_differ,
            },
            PhaseKind::ApplyExtrinsic { index } => ReceiptCheck::AwaitingBlockBody {
                block: divergence.block,
                extrinsic_index: Some(index),
                frame,
                trace_lengths_differ,
            },
            PhaseKind::FinalizeBlock => ReceiptCheck::AwaitingBlockBody {
                block: divergence.block,
                extrinsic_index: None,
                frame,
                trace_lengths_differ,
            },
        },
    }
}

/// Fixes the phase to be proved, once the body of the disputed block is known.
fn load_body(
    extrinsic_index: Option<usize>,
    frame: ProofFrame,
    trace_lengths_differ: bool,
    extrinsics: Vec<Vec<u8>>,
) -> (next: ReceiptCheck)
    ensures
        next@ == body_loaded(extrinsic_index, frame@, trace_lengths_differ, byte_strings(extrinsics@)),
{
    match extrinsic_index {
        None => ReceiptCheck::AwaitingProof {
            frame,
            phase: ExecutionPhase::FinalizeBlock,
            delta: StateDelta::BeforeFinalizeBlock,
            trace_lengths_differ,
        },
        Some(index) => match create_apply_extrinsic_phase(index, &extrinsics) {
            Ok(phase) => ReceiptCheck::AwaitingProof {
                frame,
                phase,
                delta: StateDelta::BeforeExtrinsic { index },
                trace_lengths_differ,
            },
            Err(error) => ReceiptCheck::Finished { verdict: Err(error), trace_lengths_differ },
        },
    }
}

impl ReceiptCheck {
    /// Starts the check of a receipt whose signature has been verified, with
    /// the result of that verification.
    pub fn start_with(signed_execution_receipt: SignedExecutionReceipt, signature_valid: bool) -> (check:
        ReceiptCheck)
        ensures
            check@ == receipt_check_started(signed_execution_receipt@, signature_valid),
    {
        if signature_valid {
            ReceiptCheck::AwaitingExecutorId {
                receipt: signed_execution_receipt.execution_receipt,
                signer: signed_execution_receipt.signer,
            }
        } else {
            ReceiptCheck::Finished {
                verdict: Err(GossipMessageError::BadExecutionReceiptSignature),
                trace_lengths_differ: false,
            }
        }
    }

    /// Starts the check of a receipt: verifies the signature of its author
    /// over `receipt_hash`, the hash of the encoded receipt.
    pub fn start(signed_execution_receipt: SignedExecutionReceipt, receipt_hash: &H256) -> (check:
        ReceiptCheck)
        ensures
            check@ == receipt_check_started(
                signed_execution_receipt@,
                sr25519_signature_valid(
                    signed_execution_receipt.signer@,
                    receipt_hash@,
                    signed_execution_receipt.signature@,
                ),
            ),
    {
        let signature_valid = sr25519_verify(
            &signed_execution_receipt.signer,
            receipt_hash,
            &signed_execution_receipt.signature,
        );
        ReceiptCheck::start_with(signed_execution_receipt, signature_valid)
    }

    /// Moves the check on by what the node reports.
    pub fn advance(self, event: ReceiptEvent) -> (next: ReceiptCheck)
        ensures
            next@ == receipt_check_step(self@, event@),
    {
        match self {
            ReceiptCheck::AwaitingExecutorId { receipt, signer } => match event {
                ReceiptEvent::ExecutorId(expected) => if h256_equal(&signer, &expected) {
                    ReceiptCheck::AwaitingBestExecutionChainNumber { receipt }
                } else {
                    ReceiptCheck::Finished {
                        verdict: Err(
                            GossipMessageError::InvalidExecutionReceiptAuthor {
                                got: signer,
                                expected,
                            },
                        ),
                        trace_lengths_differ: false,
                    }
                },
                ReceiptEvent::RuntimeApiFailed(message) => ReceiptCheck::Finished {
                    verdict: Err(GossipMessageError::RuntimeApi(message)),
                    trace_lengths_differ: false,
                },
                _ => ReceiptCheck::AwaitingExecutorId { receipt, signer },
            },
            ReceiptCheck::AwaitingBestExecutionChainNumber { receipt } => match event {
                ReceiptEvent::BestExecutionChainNumber(best) => if target_receipt_is_pruned(
                    best,
                    receipt.primary_number,
                ) {
                    ReceiptCheck::Finished { verdict: Ok(Action::Empty), trace_lengths_differ: false }
                } else {
                    ReceiptCheck::AwaitingLocalReceipt { receipt }
                },
                ReceiptEvent::RuntimeApiFailed(message) => ReceiptCheck::Finished {
                    verdict: Err(GossipMessageError::RuntimeApi(message)),
                    trace_lengths_differ: false,
                },
                _ => ReceiptCheck::AwaitingBestExecutionChainNumber { receipt },
            },
            ReceiptCheck::AwaitingLocalReceipt { receipt } => match event {
                ReceiptEvent::LocalReceipt(local) => compare_receipts(receipt, local),
                ReceiptEvent::LocalReceiptNotFound => ReceiptCheck::WaitingForLocalReceipt { receipt },
                ReceiptEvent::ClientFailed(error) => ReceiptCheck::Finished {
                    verdict: Err(GossipMessageError::Client(error)),
                    trace_lengths_differ: false,
                },
                _ => ReceiptCheck::AwaitingLocalReceipt { receipt },
            },
            ReceiptCheck::WaitingForLocalReceipt { receipt } => match event {
                ReceiptEvent::LocalReceipt(local) => compare_receipts(receipt, local),
                ReceiptEvent::WaitDisconnected => ReceiptCheck::Finished {
                    verdict: Err(GossipMessageError::RecvError),
                    trace_lengths_differ: false,
                },
                ReceiptEvent::ClientFailed(error) => ReceiptCheck::Finished {
                    verdict: Err(GossipMessageError::Client(error)),
                    trace_lengths_differ: false,
                },
                _ => ReceiptCheck::WaitingForLocalReceipt { receipt },
            },
            ReceiptCheck::AwaitingHeader { divergence } => match event {
                ReceiptEvent::Header(header) => ReceiptCheck::AwaitingParentHeader {
                    divergence,
                    number: header.number,
                    parent_hash: header.parent_hash,
                },
                ReceiptEvent::HeaderNotFound => ReceiptCheck::Finished {
                    verdict: Err(
                        GossipMessageError::Client(ClientError::HeaderNotFound(divergence.block)),
                    ),
                    trace_lengths_differ: divergence.trace_lengths_differ,
                },
                ReceiptEvent::ClientFailed(error) => ReceiptCheck::Finished {
                    verdict: Err(GossipMessageError::Client(error)),
                    trace_lengths_differ: divergence.trace_lengths_differ,
                },
                _ => ReceiptCheck::AwaitingHeader { divergence },
            },
            ReceiptCheck::AwaitingParentHeader { divergence, number, parent_hash } => match event {
                ReceiptEvent::Header(parent) => plan_proof(divergence, number, parent),
                ReceiptEvent::HeaderNotFound => ReceiptCheck::Finished {
                    verdict: Err(GossipMessageError::Client(ClientError::HeaderNotFound(parent_hash))),
                    trace_lengths_differ: divergence.trace_lengths_differ,
                },
                ReceiptEvent::ClientFailed(error) => ReceiptCheck::Finished {
                    verdict: Err(GossipMessageError::Client(error)),
                    trace_lengths_differ: divergence.trace_lengths_differ,
                },
                _ => ReceiptCheck::AwaitingParentHeader { divergence, number, parent_hash },
            },
            ReceiptCheck::AwaitingBlockBody { block, extrinsic_index, frame, trace_lengths_differ } => match event {
                ReceiptEvent::BlockBody(extrinsics) => load_body(
                    extrinsic_index,
                    frame,
                    trace_lengths_differ,
                    extrinsics,
                ),
                ReceiptEvent::BlockBodyNotFound => ReceiptCheck::Finished {
                    verdict: Err(GossipMessageError::Client(ClientError::BlockBodyNotFound(block))),
                    trace_lengths_differ,
                },
                ReceiptEvent::ClientFailed(error) => ReceiptCheck::Finished {
                    verdict: Err(GossipMessageError::Client(error)),
                    trace_lengths_differ,
                },
                _ => ReceiptCheck::AwaitingBlockBody {
                    block,
                    extrinsic_index,
                    frame,
                    trace_lengths_differ,
                },
            },
            ReceiptCheck::AwaitingProof { frame, phase, delta, trace_lengths_differ } => match event {
                ReceiptEvent::ExecutionProved(proof) => ReceiptCheck::SubmittingFraudProof {
                    fraud_proof: FraudProof::assemble(frame, phase, proof),
                    trace_lengths_differ,
                },
                ReceiptEvent::ClientFailed(error) => ReceiptCheck::Finished {
                    verdict: Err(GossipMessageError::Client(error)),
                    trace_lengths_differ,
                },
                _ => ReceiptCheck::AwaitingProof { frame, phase, delta, trace_lengths_differ },
            },
            ReceiptCheck::SubmittingFraudProof { fraud_proof, trace_lengths_differ } => match event {
                ReceiptEvent::FraudProofSubmitted => ReceiptCheck::Finished {
                    verdict: Ok(Action::Empty),
                    trace_lengths_differ,
                },
                _ => ReceiptCheck::SubmittingFraudProof { fraud_proof, trace_lengths_differ },
            },
            ReceiptCheck::Finished { verdict, trace_lengths_differ } => ReceiptCheck::Finished {
                verdict,
                trace_lengths_differ,
            },
        }
    }

    /// What the check asks the node to do next.
    pub fn request(&self) -> (request: ReceiptRequest)
        ensures
            request@ == receipt_check_request(self@),
    {
        match self {
            ReceiptCheck::AwaitingExecutorId { receipt, signer } => ReceiptRequest::ExecutorId {
                primary_hash: receipt.primary_hash,
            },
            ReceiptCheck::AwaitingBestExecutionChainNumber { receipt } => (
                ReceiptRequest::BestExecutionChainNumber
            ),
            ReceiptCheck::AwaitingLocalReceipt { receipt } => ReceiptRequest::LocalReceipt {
                secondary_hash: receipt.secondary_hash,
            },
            ReceiptCheck::WaitingForLocalReceipt { receipt } => ReceiptRequest::WaitForLocalReceipt {
                secondary_hash: receipt.secondary_hash,
                secondary_number: receipt.primary_number,
            },
            ReceiptCheck::AwaitingHeader { divergence } => ReceiptRequest::Header {
                hash: divergence.block,
            },
            ReceiptCheck::AwaitingParentHeader { divergence, number, parent_hash } => (
                ReceiptRequest::Header { hash: *parent_hash }
            ),
            ReceiptCheck::AwaitingBlockBody { block, extrinsic_index, frame, trace_lengths_differ } => (
                ReceiptRequest::BlockBody { hash: *block }
            ),
            ReceiptCheck::AwaitingProof { frame, phase, delta, trace_lengths_differ } => (
                ReceiptRequest::ProveExecution {
                    at: frame.parent_hash,
                    parent_number: frame.parent_number,
                    phase: phase.duplicate(),
                    delta: *delta,
                }
            ),
            ReceiptCheck::SubmittingFraudProof { fraud_proof, trace_lengths_differ } => (
                ReceiptRequest::SubmitFraudProof { fraud_proof: fraud_proof.duplicate() }
            ),
            ReceiptCheck::Finished { verdict, trace_lengths_differ } => ReceiptRequest::Finish {
                verdict: duplicate_verdict(verdict),
                trace_lengths_differ: *trace_lengths_differ,
            },
        }
    }
}

} // verus!
