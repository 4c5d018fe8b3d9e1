//! How the trace of a block is made up of the state roots of its execution.

use vstd::prelude::*;
use crate::fraud_proof::{phase_kind_at, PhaseKind};
use crate::primitives::{byte_strings, BlockNumber, H256};
use crate::receipt::{ExecutionReceipt, ExecutionReceiptView};

verus! {

/// The trace of a block: the state root after `initialize_block`, the state
/// roots after each of its extrinsics in their order, and the state root
/// after `finalize_block`.
pub open spec fn trace_of(
    after_initialize: Seq<u8>,
    after_extrinsics: Seq<Seq<u8>>,
    after_finalize: Seq<u8>,
) -> Seq<Seq<u8>> {
    seq![after_initialize] + after_extrinsics + seq![after_finalize]
}

/// The trace of a block with `k` extrinsics has `k + 2` entries: the first is
/// the result of `initialize_block`, the last that of `finalize_block`, and
/// entry `i` in between that of extrinsic `i - 1`.
pub proof fn lemma_trace_shape(
    after_initialize: Seq<u8>,
    after_extrinsics: Seq<Seq<u8>>,
    after_finalize: Seq<u8>,
)
    requires
        after_extrinsics.len() + 2 <= usize::MAX,
    ensures
        trace_of(after_initialize, after_extrinsics, after_finalize).len() == after_extrinsics.len()
            + 2,
        trace_of(after_initialize, after_extrinsics, after_finalize)[0] == after_initialize,
        trace_of(after_initialize, after_extrinsics, after_finalize).last() == after_finalize,
        forall|i: int|
            #![trigger trace_of(after_initialize, after_extrinsics, after_finalize)[i]]
            0 < i <= after_extrinsics.len() ==> {
                &&& trace_of(after_initialize, after_extrinsics, after_finalize)[i]
                    == after_extrinsics[i - 1]
                &&& phase_kind_at(i as usize, (after_extrinsics.len() + 2) as usize)
                    == (PhaseKind::ApplyExtrinsic { index: (i - 1) as usize })
            },
        phase_kind_at(0, (after_extrinsics.len() + 2) as usize) == PhaseKind::InitializeBlock,
        phase_kind_at((after_extrinsics.len() + 1) as usize, (after_extrinsics.len() + 2) as usize)
            == PhaseKind::FinalizeBlock,
{
}

/// Puts the trace of a block together from the state roots that its
/// execution went through.
pub fn execution_trace(
    after_initialize: Vec<u8>,
    after_extrinsics: Vec<Vec<u8>>,
    after_finalize: Vec<u8>,
) -> (trace: Vec<Vec<u8>>)
    ensures
        byte_strings(trace@) == trace_of(
            after_initialize@,
            byte_strings(after_extrinsics@),
            after_finalize@,
        ),
        trace.len() == after_extrinsics.len() + 2,
{
    let mut trace: Vec<Vec<u8>> = Vec::new();
    trace.push(after_initialize);
    let mut rest = after_extrinsics;
    let ghost extrinsic_roots = rest@;
    trace.append(&mut rest);
    trace.push(after_finalize);
    assert(byte_strings(trace@) =~= trace_of(
        after_initialize@,
        byte_strings(extrinsic_roots),
        after_finalize@,
    ));
    trace
}

/// The receipt of a secondary block, from what identifies the block and the
/// trace of its execution.
pub fn execution_receipt(
    primary_number: BlockNumber,
    primary_hash: H256,
    secondary_hash: H256,
    trace: Vec<Vec<u8>>,
) -> (receipt: ExecutionReceipt)
    ensures
        receipt@ == (ExecutionReceiptView {
            primary_number,
            primary_hash,
            secondary_hash,
            trace: byte_strings(trace@),
        }),
{
    ExecutionReceipt { primary_number, primary_hash, secondary_hash, trace }
}

} // verus!
