//! Fraud proofs: which phase of a block's execution a disagreement falls in,
//! between which state roots, and what is to be proved about it.

use vstd::prelude::*;
use crate::codec::{as_h256, h256_of, initialize_block_call_data, is_h256, new_header_encoding};
use crate::error::{GossipMessageError, GossipMessageErrorView};
use crate::primitives::{byte_strings, clone_byte_strings, clone_bytes, BlockNumber, H256};

verus! {

/// One step of the execution of a block, with the data that the step is
/// called with.
#[derive(Debug)]
pub enum ExecutionPhase {
    /// The call of `initialize_block`, with the encoded header of the new block.
    InitializeBlock { call_data: Vec<u8> },
    /// The application of one extrinsic, given in its encoded form.
    ApplyExtrinsic { call_data: Vec<u8> },
    /// The call of `finalize_block`.
    FinalizeBlock,
}

/// The mathematical value of an [`ExecutionPhase`].
pub ghost enum ExecutionPhaseView {
    InitializeBlock { call_data: Seq<u8> },
    ApplyExtrinsic { call_data: Seq<u8> },
    FinalizeBlock,
}

impl View for ExecutionPhase {
    type V = ExecutionPhaseView;

    open spec fn view(&self) -> ExecutionPhaseView {
        match *self {
            ExecutionPhase::InitializeBlock { call_data } => ExecutionPhaseView::InitializeBlock {
                call_data: call_data@,
            },
            ExecutionPhase::ApplyExtrinsic { call_data } => ExecutionPhaseView::ApplyExtrinsic {
                call_data: call_data@,
            },
            ExecutionPhase::FinalizeBlock => ExecutionPhaseView::FinalizeBlock,
        }
    }
}

impl ExecutionPhase {
    /// Copies the phase.
    pub fn duplicate(&self) -> (copy: ExecutionPhase)
        ensures
            copy@ == self@,
    {
        match self {
            ExecutionPhase::InitializeBlock { call_data } => ExecutionPhase::InitializeBlock {
                call_data: clone_bytes(call_data),
            },
            ExecutionPhase::ApplyExtrinsic { call_data } => ExecutionPhase::ApplyExtrinsic {
                call_data: clone_bytes(call_data),
            },
            ExecutionPhase::FinalizeBlock => ExecutionPhase::FinalizeBlock,
        }
    }
}

/// The position of a trace entry within the execution of its block.
#[derive(Clone, Copy, Debug, PartialEq, Eq)]
pub enum PhaseKind {
    /// The entry is the state root after `initialize_block`.
    InitializeBlock,
    /// The entry is the state root after the extrinsic with this index.
    ApplyExtrinsic { index: usize },
    /// The entry is the state root after `finalize_block`.
    FinalizeBlock,
}

/// The changes on top of the parent state that a proof starts from.
#[derive(Clone, Copy, Debug, PartialEq, Eq)]
pub enum StateDelta {
    /// No changes: the parent state as it is.
    Untouched,
    /// The changes made by `initialize_block` and by the extrinsics before
    /// the one with this index.
    BeforeExtrinsic { index: usize },
    /// The changes made by `initialize_block` and by every extrinsic of the
    /// block.
    BeforeFinalizeBlock,
}

/// A storage proof: the trie nodes that an execution read.
#[derive(Debug)]
pub struct StorageProof {
    pub trie_nodes: Vec<Vec<u8>>,
}

impl View for StorageProof {
    type V = Seq<Seq<u8>>;

    open spec fn view(&self) -> Seq<Seq<u8>> {
        byte_strings(self.trie_nodes@)
    }
}

/// What a stored block header tells the executor core.
#[derive(Debug)]
pub struct HeaderInfo {
    /// Hash of the header.
    pub hash: H256,
    /// Hash of the parent block.
    pub parent_hash: H256,
    /// Number of the block.
    pub number: BlockNumber,
    /// State root after the block, as the chain encodes it.
    pub state_root: Vec<u8>,
}

/// The mathematical value of a [`HeaderInfo`].
pub ghost struct HeaderInfoView {
    pub hash: H256,
    pub parent_hash: H256,
    pub number: BlockNumber,
    pub state_root: Seq<u8>,
}

impl View for HeaderInfo {
    type V = HeaderInfoView;

    open spec fn view(&self) -> HeaderInfoView {
        HeaderInfoView {
            hash: self.hash,
            parent_hash: self.parent_hash,
            number: self.number,
            state_root: self.state_root@,
        }
    }
}

/// The part of a fraud proof that is known before anything is proved: the
/// parent block and the state roots before and after the disputed step.
#[derive(Clone, Copy, Debug)]
pub struct ProofFrame {
    pub parent_number: BlockNumber,
    pub parent_hash: H256,
    pub pre_state_root: H256,
    pub post_state_root: H256,
}

/// The mathematical value of a [`ProofFrame`].
pub ghost struct ProofFrameView {
    pub parent_number: BlockNumber,
    pub parent_hash: H256,
    pub pre_state_root: Seq<u8>,
    pub post_state_root: Seq<u8>,
}

impl View for ProofFrame {
    type V = ProofFrameView;

    open spec fn view(&self) -> ProofFrameView {
        ProofFrameView {
            parent_number: self.parent_number,
            parent_hash: self.parent_hash,
            pre_state_root: self.pre_state_root@,
            post_state_root: self.post_state_root@,
        }
    }
}

/// Evidence that one step of a block's execution does not lead from the
/// pre-state root to the post-state root that a receipt claims.
#[derive(Debug)]
pub struct FraudProof {
    /// Number of the parent of the disputed block.
    pub parent_number: BlockNumber,
    /// Hash of the parent of the disputed block.
    pub parent_hash: H256,
    /// State root before the disputed step.
    pub pre_state_root: H256,
    /// State root after the disputed step, as computed locally.
    pub post_state_root: H256,
    /// What the step read from the state.
    pub proof: StorageProof,
    /// The disputed step.
    pub execution_phase: ExecutionPhase,
}

/// The mathematical value of a [`FraudProof`].
pub ghost struct FraudProofView {
    pub frame: ProofFrameView,
    pub proof: Seq<Seq<u8>>,
    pub execution_phase: ExecutionPhaseView,
}

impl View for FraudProof {
    type V = FraudProofView;

    open spec fn view(&self) -> FraudProofView {
        FraudProofView {
            frame: ProofFrameView {
                parent_number: self.parent_number,
                parent_hash: self.parent_hash,
                pre_state_root: self.pre_state_root@,
                post_state_root: self.post_state_root@,
            },
            proof: self.proof@,
            execution_phase: self.execution_phase@,
        }
    }
}

impl FraudProof {
    /// Puts a fraud proof together from its frame, the disputed phase and the
    /// storage proof of that phase.
    pub fn assemble(frame: ProofFrame, execution_phase: ExecutionPhase, proof: StorageProof) -> (fraud_proof:
        FraudProof)
        ensures
            fraud_proof@ == (FraudProofView {
                frame: frame@,
                proof: proof@,
                execution_phase: execution_phase@,
            }),
    {
        FraudProof {
            parent_number: frame.parent_number,
            parent_hash: frame.parent_hash,
            pre_state_root: frame.pre_state_root,
            post_state_root: frame.post_state_root,
            proof,
            execution_phase,
        }
    }

    /// Copies the fraud proof.
    pub fn duplicate(&self) -> (copy: FraudProof)
        ensures
            copy@ == self@,
    {
        FraudProof {
            parent_number: self.parent_number,
            parent_hash: self.parent_hash,
            pre_state_root: self.pre_state_root,
            post_state_root: self.post_state_root,
            proof: StorageProof { trie_nodes: clone_byte_strings(&self.proof.trie_nodes) },
            execution_phase: self.execution_phase.duplicate(),
        }
    }
}

/// The phase that entry `trace_index` of a trace of `trace_len` entries is
/// the result of: the first entry belongs to `initialize_block`, the last to
/// `finalize_block`, and entry `i` in between to the extrinsic `i - 1`.
pub open spec fn phase_kind_at(trace_index: usize, trace_len: usize) -> PhaseKind {
    if trace_index == 0 {
        PhaseKind::InitializeBlock
    } else if trace_index == trace_len - 1 {
        PhaseKind::FinalizeBlock
    } else {
        PhaseKind::ApplyExtrinsic { index: (trace_index - 1) as usize }
    }
}

/// Tells which phase of the execution a trace entry is the result of.
pub fn classify_trace_index(trace_index: usize, trace_len: usize) -> (kind: PhaseKind)
    ensures
        kind == phase_kind_at(trace_index, trace_len),
{
    if trace_index == 0 {
        PhaseKind::InitializeBlock
    } else if trace_len > 0 && trace_index == trace_len - 1 {
        PhaseKind::FinalizeBlock
    } else {
        PhaseKind::ApplyExtrinsic { index: trace_index - 1 }
    }
}

/// The encoded state root that the phase behind trace entry `trace_index`
/// starts from: the parent's state root for the first entry, the entry before
/// it otherwise.
pub open spec fn pre_state_root_at(
    local_trace: Seq<Seq<u8>>,
    parent_state_root: Seq<u8>,
    trace_index: int,
) -> Seq<u8> {
    if trace_index == 0 {
        parent_state_root
    } else {
        local_trace[trace_index - 1]
    }
}

/// The frame of a fraud proof about a step that leads from the encoded state
/// root `pre_root` to `post_root` on top of the block `parent`, or the failure
/// to read one of the two roots as a 32-byte hash.
pub open spec fn proof_frame(parent: HeaderInfoView, pre_root: Seq<u8>, post_root: Seq<u8>) -> Result<
    ProofFrameView,
    GossipMessageErrorView,
> {
    if is_h256(pre_root) && is_h256(post_root) {
        Ok(
            ProofFrameView {
                parent_number: parent.number,
                parent_hash: parent.hash,
                pre_state_root: h256_of(pre_root),
                post_state_root: h256_of(post_root),
            },
        )
    } else {
        Err(GossipMessageErrorView::InvalidStateRootType)
    }
}

/// Works out the frame of a fraud proof: the parent block, the state root
/// that the disputed step starts from and the state root that local
/// execution arrived at, both as 32-byte hashes.
pub fn frame_fraud_proof(parent: &HeaderInfo, pre_root: &Vec<u8>, post_root: &Vec<u8>) -> (frame:
    Result<ProofFrame, GossipMessageError>)
    ensures
        frame is Ok <==> proof_frame(parent@, pre_root@, post_root@) is Ok,
        frame matches Ok(f) ==> Ok::<ProofFrameView, GossipMessageErrorView>(f@) == proof_frame(
            parent@,
            pre_root@,
            post_root@,
        ),
        frame matches Err(e) ==> Err::<ProofFrameView, GossipMessageErrorView>(e@) == proof_frame(
            parent@,
            pre_root@,
            post_root@,
        ),
{
    let pre_state_root = match as_h256(pre_root) {
        Ok(root) => root,
        Err(error) => {
            return Err(error);
        },
    };
    let post_state_root = match as_h256(post_root) {
        Ok(root) => root,
        Err(error) => {
            return Err(error);
        },
    };
    Ok(
        ProofFrame {
            parent_number: parent.number,
            parent_hash: parent.hash,
            pre_state_root,
            post_state_root,
        },
    )
}

/// The phase of `initialize_block` for a block with the given number on top
/// of the given parent.
pub open spec fn initialize_block_phase(number: BlockNumber, parent_hash: H256) -> ExecutionPhaseView {
    ExecutionPhaseView::InitializeBlock { call_data: new_header_encoding(number, parent_hash@) }
}

/// Builds the phase of `initialize_block` for a block with the given number
/// on top of the given parent: its call data is the encoded header of a
/// block that has this number and parent and nothing else.
pub fn create_initialize_block_phase(number: BlockNumber, parent_hash: &H256) -> (phase:
    ExecutionPhase)
    ensures
        phase@ == initialize_block_phase(number, *parent_hash),
{
    ExecutionPhase::InitializeBlock { call_data: initialize_block_call_data(number, parent_hash) }
}

/// The largest index that an extrinsic of a block body can have; 0 for an
/// empty body.
pub open spec fn max_extrinsic_index(body_len: nat) -> usize {
    if body_len == 0 {
        0
    } else {
        (body_len - 1) as usize
    }
}

/// The phase that applies the extrinsic with the given index of a block
/// body, or the failure that the body has no such extrinsic.
pub open spec fn apply_extrinsic_phase(extrinsic_index: usize, extrinsics: Seq<Seq<u8>>) -> Result<
    ExecutionPhaseView,
    GossipMessageErrorView,
> {
    if extrinsic_index < extrinsics.len() {
        Ok(ExecutionPhaseView::ApplyExtrinsic { call_data: extrinsics[extrinsic_index as int] })
    } else {
        Err(
            GossipMessageErrorView::InvalidExtrinsicIndex {
                index: extrinsic_index,
                max: max_extrinsic_index(extrinsics.len()),
            },
        )
    }
}

/// Picks the extrinsic whose application is to be proved out of the encoded
/// extrinsics of a block, and fails if the block has none with that index.
pub fn create_apply_extrinsic_phase(extrinsic_index: usize, extrinsics: &Vec<Vec<u8>>) -> (phase:
    Result<ExecutionPhase, GossipMessageError>)
    ensures
        phase is Ok <==> apply_extrinsic_phase(extrinsic_index, byte_strings(extrinsics@)) is Ok,
        phase matches Ok(p) ==> Ok::<ExecutionPhaseView, GossipMessageErrorView>(p@)
            == apply_extrinsic_phase(extrinsic_index, byte_strings(extrinsics@)),
        phase matches Err(e) ==> Err::<ExecutionPhaseView, GossipMessageErrorView>(e@)
            == apply_extrinsic_phase(extrinsic_index, byte_strings(extrinsics@)),
{
    if extrinsic_index < extrinsics.len() {
        Ok(ExecutionPhase::ApplyExtrinsic { call_data: clone_bytes(&extrinsics[extrinsic_index]) })
    } else {
        let max = if extrinsics.len() == 0 {
            0
        } else {
            extrinsics.len() - 1
        };
        Err(GossipMessageError::InvalidExtrinsicIndex { index: extrinsic_index, max })
    }
}

} // verus!
