//! What an executor puts out: a bundle on a slot, and the receipt of a block
//! it has executed.

use vstd::prelude::*;
use crate::bundle::{Bundle, BundleHeader, BundleHeaderView, BundleView};
use crate::primitives::{byte_strings, h256_equal, ExecutorId, H256};
use crate::receipt::ExecutionReceiptView;

verus! {

/// The bundle for a slot on top of the tip of the primary chain: the given
/// extrinsics, and no receipts.
pub open spec fn bundle_for_slot(
    slot_number: u64,
    primary_hash: H256,
    extrinsics: Seq<Seq<u8>>,
) -> BundleView {
    BundleView {
        header: BundleHeaderView {
            primary_hash,
            slot_number,
            receipts: Seq::<ExecutionReceiptView>::empty(),
        },
        extrinsics,
    }
}

/// Produces the bundle for a slot out of the extrinsics that the transaction
/// pool has ready, on top of the tip of the primary chain. A node that is
/// no authority produces none.
pub fn produce_bundle(
    is_authority: bool,
    slot_number: u64,
    primary_hash: H256,
    ready_extrinsics: Vec<Vec<u8>>,
) -> (bundle: Option<Bundle>)
    ensures
        bundle is Some <==> is_authority,
        bundle matches Some(produced) ==> produced@ == bundle_for_slot(
            slot_number,
            primary_hash,
            byte_strings(ready_extrinsics@),
        ),
{
    if is_authority {
        let bundle = Bundle {
            header: BundleHeader { primary_hash, slot_number, receipts: Vec::new() },
            extrinsics: ready_extrinsics,
        };
        assert(bundle@.header.receipts =~= Seq::<ExecutionReceiptView>::empty());
        Some(bundle)
    } else {
        None
    }
}

/// Whether a node publishes the receipt of a block that it has executed: an
/// authority does, where it is the executor elected for the primary block.
pub fn publishes_receipt(is_authority: bool, own_id: &ExecutorId, elected: &ExecutorId) -> (publishes:
    bool)
    ensures
        publishes == (is_authority && *own_id == *elected),
{
    is_authority && h256_equal(own_id, elected)
}

} // verus!
