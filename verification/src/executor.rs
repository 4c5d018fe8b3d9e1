//! The executor core: what it starts from, and the checks of gossiped
//! bundles and execution receipts that it begins.

use vstd::prelude::*;
use crate::active_leaves::{active_leaves, active_leaves_of, BlockInfo, LeafCandidate};
use crate::bundle::{SeenBundle, SignedBundle};
use crate::bundle_check::{bundle_check_started, BundleCheck};
use crate::crypto::sr25519_signature_valid;
use crate::primitives::H256;
use crate::receipt::SignedExecutionReceipt;
use crate::receipt_check::{receipt_check_started, ReceiptCheck};

verus! {

/// The core of an executor of the secondary chain.
#[derive(Debug)]
pub struct Executor {
    active_leaves: Vec<BlockInfo>,
    seen_bundles: Vec<SeenBundle>,
}

impl Executor {
    /// The primary blocks that the worker of this executor was started with.
    pub closed spec fn leaves(&self) -> Seq<BlockInfo> {
        self.active_leaves@
    }

    /// The bundles that this executor remembers, oldest first.
    pub closed spec fn seen(&self) -> Seq<SeenBundle> {
        self.seen_bundles@
    }

    /// Create a new instance, from the best block of the primary chain and
    /// the leaves that the chain selection reports. It starts from the active
    /// leaves among them and remembers no bundle.
    pub fn new(best_block: &BlockInfo, leaves: &Vec<LeafCandidate>) -> (executor: Executor)
        ensures
            executor.leaves() == active_leaves_of(*best_block, leaves@),
            executor.seen() == Seq::<SeenBundle>::empty(),
    {
        Executor { active_leaves: active_leaves(best_block, leaves), seen_bundles: Vec::new() }
    }

    /// The primary blocks to start the worker with, oldest first, the best
    /// block last.
    pub fn active_leaves(&self) -> (leaves: &Vec<BlockInfo>)
        ensures
            leaves@ == self.leaves(),
    {
        &self.active_leaves
    }

    /// Begins the check of a bundle from the network; `bundle_hash` is the
    /// hash of the encoded bundle.
    pub fn on_bundle(&self, signed_bundle: &SignedBundle, bundle_hash: &H256) -> (check: BundleCheck)
        ensures
            check@ == bundle_check_started(
                signed_bundle@,
                *bundle_hash,
                self.seen(),
                sr25519_signature_valid(signed_bundle.signer@, bundle_hash@, signed_bundle.signature@),
            ),
    {
        BundleCheck::start(signed_bundle, bundle_hash, &self.seen_bundles)
    }

    /// Remembers a bundle, so that a later bundle with the same hash counts
    /// as seen and a later bundle of the same signer for the same slot with
    /// another hash as an equivocation.
    pub fn note_bundle(&mut self, signed_bundle: &SignedBundle, bundle_hash: &H256)
        ensures
            final(self).seen() == old(self).seen().push(
                SeenBundle {
                    slot_number: signed_bundle.bundle.header.slot_number,
                    signer: signed_bundle.signer,
                    bundle_hash: *bundle_hash,
                },
            ),
            final(self).leaves() == old(self).leaves(),
    {
        self.seen_bundles.push(
            SeenBundle {
                slot_number: signed_bundle.bundle.header.slot_number,
                signer: signed_bundle.signer,
                bundle_hash: *bundle_hash,
            },
        );
    }

    /// Begins the check of an execution receipt from the network;
    /// `receipt_hash` is the hash of the encoded receipt.
    pub fn on_execution_receipt(
        &self,
        signed_execution_receipt: SignedExecutionReceipt,
        receipt_hash: &H256,
    ) -> (check: ReceiptCheck)
        ensures
            check@ == receipt_check_started(
                signed_execution_receipt@,
                sr25519_signature_valid(
                    signed_execution_receipt.signer@,
                    receipt_hash@,
                    signed_execution_receipt.signature@,
                ),
            ),
    {
        ReceiptCheck::start(signed_execution_receipt, receipt_hash)
    }
}

} // verus!
