//! Bundles, and the record of the bundles that have been seen.

use vstd::prelude::*;
use crate::primitives::{byte_strings, h256_equal, ExecutorId, H256, Signature};
use crate::receipt::{ExecutionReceipt, ExecutionReceiptView};

verus! {

/// The header of a bundle.
#[derive(Debug)]
pub struct BundleHeader {
    /// Hash of the primary block that the bundle was built on.
    pub primary_hash: H256,
    /// The slot that the bundle was produced for.
    pub slot_number: u64,
    /// Execution receipts that the bundle carries.
    pub receipts: Vec<ExecutionReceipt>,
}

/// The mathematical value of a [`BundleHeader`].
pub ghost struct BundleHeaderView {
    pub primary_hash: H256,
    pub slot_number: u64,
    pub receipts: Seq<ExecutionReceiptView>,
}

impl View for BundleHeader {
    type V = BundleHeaderView;

    open spec fn view(&self) -> BundleHeaderView {
        BundleHeaderView {
            primary_hash: self.primary_hash,
            slot_number: self.slot_number,
            receipts: self.receipts@.map_values(|receipt: ExecutionReceipt| receipt@),
        }
    }
}

/// A batch of extrinsics that an executor proposes for one slot.
#[derive(Debug)]
pub struct Bundle {
    pub header: BundleHeader,
    /// The extrinsics, each in its encoded form.
    pub extrinsics: Vec<Vec<u8>>,
}

/// The mathematical value of a [`Bundle`].
pub ghost struct BundleView {
    pub header: BundleHeaderView,
    pub extrinsics: Seq<Seq<u8>>,
}

impl View for Bundle {
    type V = BundleView;

    open spec fn view(&self) -> BundleView {
        BundleView { header: self.header@, extrinsics: byte_strings(self.extrinsics@) }
    }
}

/// A bundle with the identity and signature of its author. The signature is
/// over the hash of the bundle.
#[derive(Debug)]
pub struct SignedBundle {
    pub bundle: Bundle,
    pub signature: Signature,
    pub signer: ExecutorId,
}

/// The mathematical value of a [`SignedBundle`].
pub ghost struct SignedBundleView {
    pub bundle: BundleView,
    pub signature: Signature,
    pub signer: ExecutorId,
}

impl View for SignedBundle {
    type V = SignedBundleView;

    open spec fn view(&self) -> SignedBundleView {
        SignedBundleView { bundle: self.bundle@, signature: self.signature, signer: self.signer }
    }
}

/// What is remembered of a bundle that has been seen.
#[derive(Clone, Copy, Debug)]
pub struct SeenBundle {
    pub slot_number: u64,
    pub signer: ExecutorId,
    pub bundle_hash: H256,
}

/// Evidence that an executor signed two distinct bundles for one slot.
#[derive(Clone, Copy, Debug)]
pub struct BundleEquivocationProof {
    /// The slot that both bundles were produced for.
    pub slot_number: u64,
    /// The executor that signed both.
    pub offender: ExecutorId,
    /// Hash of the bundle that was seen first.
    pub first_bundle_hash: H256,
    /// Hash of the bundle that was seen second.
    pub second_bundle_hash: H256,
}

/// Whether a bundle with the given hash has been seen.
pub open spec fn bundle_known(seen: Seq<SeenBundle>, bundle_hash: H256) -> bool {
    exists|i: int| 0 <= i < seen.len() && #[trigger] seen[i].bundle_hash == bundle_hash
}

/// Whether the bundle seen earlier and a bundle with the given slot, signer
/// and hash are two distinct bundles of one executor for one slot.
pub open spec fn equivocates(
    earlier: SeenBundle,
    slot_number: u64,
    signer: ExecutorId,
    bundle_hash: H256,
) -> bool {
    earlier.slot_number == slot_number && earlier.signer == signer && earlier.bundle_hash
        != bundle_hash
}

/// Whether the bundle at `index` is the first seen bundle that a bundle with
/// the given slot, signer and hash equivocates with.
pub open spec fn is_first_equivocation(
    seen: Seq<SeenBundle>,
    slot_number: u64,
    signer: ExecutorId,
    bundle_hash: H256,
    index: int,
) -> bool {
    &&& 0 <= index < seen.len()
    &&& equivocates(seen[index], slot_number, signer, bundle_hash)
    &&& forall|j: int| 0 <= j < index ==> !equivocates(seen[j], slot_number, signer, bundle_hash)
}

/// The proof that a bundle with the given slot, signer and hash is an
/// equivocation, made of it and of the first seen bundle that it equivocates
/// with; `None` if it equivocates with none.
pub open spec fn equivocation_proof(
    seen: Seq<SeenBundle>,
    slot_number: u64,
    signer: ExecutorId,
    bundle_hash: H256,
) -> Option<BundleEquivocationProof> {
    if exists|index: int| is_first_equivocation(seen, slot_number, signer, bundle_hash, index) {
        let first = choose|index: int|
            is_first_equivocation(seen, slot_number, signer, bundle_hash, index);
        Some(
            BundleEquivocationProof {
                slot_number,
                offender: signer,
                first_bundle_hash: seen[first].bundle_hash,
                second_bundle_hash: bundle_hash,
            },
        )
    } else {
        None
    }
}

/// A bundle equivocates with some seen bundle exactly if there is a first one
/// that it equivocates with.
pub proof fn lemma_equivocation_proof_exists(
    seen: Seq<SeenBundle>,
    slot_number: u64,
    signer: ExecutorId,
    bundle_hash: H256,
)
    ensures
        equivocation_proof(seen, slot_number, signer, bundle_hash) is Some <==> exists|i: int|
            0 <= i < seen.len() && equivocates(#[trigger] seen[i], slot_number, signer, bundle_hash),
{
    if exists|i: int|
        0 <= i < seen.len() && equivocates(#[trigger] seen[i], slot_number, signer, bundle_hash) {
        let i = choose|i: int|
            0 <= i < seen.len() && equivocates(#[trigger] seen[i], slot_number, signer, bundle_hash);
        lemma_first_equivocation_below(seen, slot_number, signer, bundle_hash, i);
    }
}

/// If a bundle equivocates with the seen bundle at `index`, there is a first
/// seen bundle that it equivocates with.
proof fn lemma_first_equivocation_below(
    seen: Seq<SeenBundle>,
    slot_number: u64,
    signer: ExecutorId,
    bundle_hash: H256,
    index: int,
)
    requires
        0 <= index < seen.len(),
        equivocates(seen[index], slot_number, signer, bundle_hash),
    ensures
        exists|first: int| is_first_equivocation(seen, slot_number, signer, bundle_hash, first),
    decreases index,
{
    if exists|j: int| 0 <= j < index && equivocates(seen[j], slot_number, signer, bundle_hash) {
        let j = choose|j: int| 0 <= j < index && equivocates(seen[j], slot_number, signer, bundle_hash);
        lemma_first_equivocation_below(seen, slot_number, signer, bundle_hash, j);
    } else {
        assert(is_first_equivocation(seen, slot_number, signer, bundle_hash, index));
    }
}

/// Tells whether a bundle with the given hash has been seen.
pub fn is_bundle_known(seen: &Vec<SeenBundle>, bundle_hash: &H256) -> (known: bool)
    ensures
        known == bundle_known(seen@, *bundle_hash),
{
    let mut i: usize = 0;
    while i < seen.len()
        invariant
            i <= seen.len(),
            forall|j: int| 0 <= j < i ==> seen@[j].bundle_hash != *bundle_hash,
        decreases seen.len() - i,
    {
        if h256_equal(&seen[i].bundle_hash, bundle_hash) {
            return true;
        }
        i += 1;
    }
    false
}

/// Looks for a seen bundle of the same signer and slot with another hash, and
/// makes the equivocation proof out of the first one there is.
pub fn find_equivocation(
    seen: &Vec<SeenBundle>,
    slot_number: u64,
    signer: &ExecutorId,
    bundle_hash: &H256,
) -> (found: Option<BundleEquivocationProof>)
    ensures
        found == equivocation_proof(seen@, slot_number, *signer, *bundle_hash),
{
    let mut i: usize = 0;
    while i < seen.len()
        invariant
            i <= seen.len(),
            forall|j: int| 0 <= j < i ==> !equivocates(seen@[j], slot_number, *signer, *bundle_hash),
        decreases seen.len() - i,
    {
        let earlier = &seen[i];
        if earlier.slot_number == slot_number && h256_equal(&earlier.signer, signer) && !h256_equal(
            &earlier.bundle_hash,
            bundle_hash,
        ) {
            proof {
                assert(is_first_equivocation(seen@, slot_number, *signer, *bundle_hash, i as int));
                let first = choose|index: int|
                    is_first_equivocation(seen@, slot_number, *signer, *bundle_hash, index);
                assert(first == i);
            }
            return Some(
                BundleEquivocationProof {
                    slot_number,
                    offender: *signer,
                    first_bundle_hash: earlier.bundle_hash,
                    second_bundle_hash: *bundle_hash,
                },
            );
        }
        i += 1;
    }
    proof {
        assert forall|index: int|
            !is_first_equivocation(seen@, slot_number, *signer, *bundle_hash, index) by {}
    }
    None
}

} // verus!
