//! Execution receipts and the comparison of two execution traces.

use vstd::prelude::*;
use crate::primitives::{byte_strings, bytes_equal, clone_byte_strings, BlockNumber, ExecutorId, H256, Signature};

verus! {

/// What an executor claims about the execution of one secondary block: the
/// state roots after `initialize_block`, after each extrinsic and after
/// `finalize_block`, in that order.
#[derive(Debug)]
pub struct ExecutionReceipt {
    /// Number of the primary block that the secondary block was derived from.
    pub primary_number: BlockNumber,
    /// Hash of that primary block.
    pub primary_hash: H256,
    /// Hash of the secondary block.
    pub secondary_hash: H256,
    /// The intermediate state roots, each as the chain encodes it.
    pub trace: Vec<Vec<u8>>,
}

/// The mathematical value of an [`ExecutionReceipt`].
pub ghost struct ExecutionReceiptView {
    pub primary_number: BlockNumber,
    pub primary_hash: H256,
    pub secondary_hash: H256,
    pub trace: Seq<Seq<u8>>,
}

impl View for ExecutionReceipt {
    type V = ExecutionReceiptView;

    open spec fn view(&self) -> ExecutionReceiptView {
        ExecutionReceiptView {
            primary_number: self.primary_number,
            primary_hash: self.primary_hash,
            secondary_hash: self.secondary_hash,
            trace: byte_strings(self.trace@),
        }
    }
}

impl ExecutionReceipt {
    /// Copies the receipt.
    pub fn duplicate(&self) -> (copy: ExecutionReceipt)
        ensures
            copy@ == self@,
    {
        ExecutionReceipt {
            primary_number: self.primary_number,
            primary_hash: self.primary_hash,
            secondary_hash: self.secondary_hash,
            trace: clone_byte_strings(&self.trace),
        }
    }
}

/// An execution receipt with the identity and signature of its author. The
/// signature is over the hash of the receipt.
#[derive(Debug)]
pub struct SignedExecutionReceipt {
    pub execution_receipt: ExecutionReceipt,
    pub signature: Signature,
    pub signer: ExecutorId,
}

/// The mathematical value of a [`SignedExecutionReceipt`].
pub ghost struct SignedExecutionReceiptView {
    pub execution_receipt: ExecutionReceiptView,
    pub signature: Signature,
    pub signer: ExecutorId,
}

impl View for SignedExecutionReceipt {
    type V = SignedExecutionReceiptView;

    open spec fn view(&self) -> SignedExecutionReceiptView {
        SignedExecutionReceiptView {
            execution_receipt: self.execution_receipt@,
            signature: self.signature,
            signer: self.signer,
        }
    }
}

/// Whether two traces hold the same root at every index that both have.
pub open spec fn traces_agree(local: Seq<Seq<u8>>, remote: Seq<Seq<u8>>) -> bool {
    forall|j: int| 0 <= j < local.len() && j < remote.len() ==> local[j] == remote[j]
}

/// Whether `index` is the first position at which both traces have a root and
/// the roots differ.
pub open spec fn is_first_mismatch(local: Seq<Seq<u8>>, remote: Seq<Seq<u8>>, index: int) -> bool {
    &&& 0 <= index < local.len()
    &&& index < remote.len()
    &&& local[index] != remote[index]
    &&& forall|j: int| 0 <= j < index ==> local[j] == remote[j]
}

/// The first position at which two traces differ, if they differ at a
/// position that both have.
pub open spec fn first_mismatch(local: Seq<Seq<u8>>, remote: Seq<Seq<u8>>) -> Option<int> {
    if exists|index: int| is_first_mismatch(local, remote, index) {
        Some(choose|index: int| is_first_mismatch(local, remote, index))
    } else {
        None
    }
}

/// Two traces have at most one first mismatch.
pub proof fn lemma_first_mismatch_unique(
    local: Seq<Seq<u8>>,
    remote: Seq<Seq<u8>>,
    first: int,
    second: int,
)
    requires
        is_first_mismatch(local, remote, first),
        is_first_mismatch(local, remote, second),
    ensures
        first == second,
{
}

/// Traces without a first mismatch agree wherever both have a root; traces of
/// one length that agree are equal.
pub proof fn lemma_no_mismatch_means_agreement(local: Seq<Seq<u8>>, remote: Seq<Seq<u8>>)
    ensures
        first_mismatch(local, remote) is None <==> traces_agree(local, remote),
        first_mismatch(local, remote) is None && local.len() == remote.len() ==> local == remote,
        first_mismatch(local, remote) matches Some(index) ==> is_first_mismatch(
            local,
            remote,
            index,
        ),
{
    if traces_agree(local, remote) {
        assert forall|index: int| !is_first_mismatch(local, remote, index) by {}
        if local.len() == remote.len() {
            assert(local =~= remote);
        }
    } else {
        lemma_disagreement_has_first_mismatch(local, remote, 0);
    }
}

/// If two traces agree below `from` and disagree somewhere, a first mismatch
/// exists.
proof fn lemma_disagreement_has_first_mismatch(local: Seq<Seq<u8>>, remote: Seq<Seq<u8>>, from: int)
    requires
        0 <= from,
        forall|j: int| 0 <= j < from ==> local[j] == remote[j],
        !traces_agree(local, remote),
    ensures
        exists|index: int| is_first_mismatch(local, remote, index),
    decreases local.len() - from,
{
    if from < local.len() && from < remote.len() {
        if local[from] != remote[from] {
            assert(is_first_mismatch(local, remote, from));
        } else {
            lemma_disagreement_has_first_mismatch(local, remote, from + 1);
        }
    } else {
        assert(traces_agree(local, remote));
    }
}

/// Walks two traces in step and finds the first position at which they
/// differ. Roots beyond the end of the shorter trace are not looked at.
pub fn find_first_mismatch(local: &Vec<Vec<u8>>, remote: &Vec<Vec<u8>>) -> (found: Option<usize>)
    ensures
        found is Some <==> first_mismatch(byte_strings(local@), byte_strings(remote@)) is Some,
        found matches Some(index) ==> first_mismatch(byte_strings(local@), byte_strings(remote@))
            == Some(index as int),
{
    let ghost l = byte_strings(local@);
    let ghost r = byte_strings(remote@);
    let mut i: usize = 0;
    while i < local.len() && i < remote.len()
        invariant
            l == byte_strings(local@),
            r == byte_strings(remote@),
            forall|j: int| 0 <= j < i ==> l[j] == r[j],
        decreases local.len() - i,
    {
        if !bytes_equal(&local[i], &remote[i]) {
            proof {
                assert(is_first_mismatch(l, r, i as int));
                lemma_first_mismatch_unique(l, r, i as int, first_mismatch(l, r).unwrap());
            }
            return Some(i);
        }
        i += 1;
    }
    proof {
        assert(traces_agree(l, r));
        lemma_no_mismatch_means_agreement(l, r);
    }
    None
}

} // verus!
