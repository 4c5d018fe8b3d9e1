//! The store of locally produced execution receipts, keyed by the hash of
//! the secondary block, and its pruning horizon.

use vstd::prelude::*;
use crate::primitives::{h256_equal, BlockNumber, H256};
use crate::receipt::{ExecutionReceipt, ExecutionReceiptView};

verus! {

/// How far behind the best execution chain number a receipt may lie before it
/// counts as pruned.
pub const PRUNING_DEPTH: BlockNumber = 256;

/// Whether the receipt of primary block `target_primary_number` lies beyond
/// the pruning horizon, given the best execution chain number.
pub open spec fn receipt_is_pruned(best_exec_number: int, target_primary_number: int) -> bool {
    best_exec_number - target_primary_number > PRUNING_DEPTH as int
}

/// Decides whether a receipt is too old to be checked.
pub fn target_receipt_is_pruned(best_exec_number: BlockNumber, target_primary_number: BlockNumber) -> (pruned:
    bool)
    ensures
        pruned == receipt_is_pruned(best_exec_number as int, target_primary_number as int),
{
    best_exec_number > target_primary_number && best_exec_number - target_primary_number
        > PRUNING_DEPTH
}

/// What storing receipts one after the other leads to: every block hash has
/// the receipt that was stored for it first.
pub open spec fn receipts_stored(stored: Seq<(H256, ExecutionReceiptView)>) -> Map<
    H256,
    ExecutionReceiptView,
>
    decreases stored.len(),
{
    if stored.len() == 0 {
        Map::empty()
    } else {
        let earlier = receipts_stored(stored.drop_last());
        if earlier.contains_key(stored.last().0) {
            earlier
        } else {
            earlier.insert(stored.last().0, stored.last().1)
        }
    }
}

/// Whether the receipt at `index` is the first that was stored for a block
/// hash.
pub open spec fn is_first_stored(
    stored: Seq<(H256, ExecutionReceiptView)>,
    secondary_hash: H256,
    index: int,
) -> bool {
    &&& 0 <= index < stored.len()
    &&& stored[index].0 == secondary_hash
    &&& forall|j: int| 0 <= j < index ==> (#[trigger] stored[j]).0 != secondary_hash
}

/// A block hash has a receipt exactly if one was stored for it.
pub proof fn lemma_stored_receipt_is_there(
    stored: Seq<(H256, ExecutionReceiptView)>,
    secondary_hash: H256,
)
    ensures
        receipts_stored(stored).contains_key(secondary_hash) <==> exists|i: int|
            0 <= i < stored.len() && (#[trigger] stored[i]).0 == secondary_hash,
    decreases stored.len(),
{
    if stored.len() > 0 {
        let front = stored.drop_last();
        lemma_stored_receipt_is_there(front, secondary_hash);
        if receipts_stored(front).contains_key(secondary_hash) {
            let k = choose|k: int| 0 <= k < front.len() && (#[trigger] front[k]).0 == secondary_hash;
            assert(stored[k].0 == secondary_hash);
        } else if stored.last().0 == secondary_hash {
            assert(stored[stored.len() - 1].0 == secondary_hash);
        } else {
            assert forall|i: int| 0 <= i < stored.len() implies (#[trigger] stored[i]).0
                != secondary_hash by {
                if i < front.len() {
                    assert(front[i].0 != secondary_hash);
                }
            }
        }
    }
}

/// The receipt of a block hash is the first that was stored for it: a
/// receipt is never replaced.
pub proof fn lemma_first_stored_receipt_stays(
    stored: Seq<(H256, ExecutionReceiptView)>,
    secondary_hash: H256,
    index: int,
)
    requires
        is_first_stored(stored, secondary_hash, index),
    ensures
        receipts_stored(stored).contains_key(secondary_hash),
        receipts_stored(stored)[secondary_hash] == stored[index].1,
    decreases stored.len(),
{
    let front = stored.drop_last();
    if index == stored.len() - 1 {
        lemma_stored_receipt_is_there(front, secondary_hash);
        if receipts_stored(front).contains_key(secondary_hash) {
            let k = choose|k: int| 0 <= k < front.len() && (#[trigger] front[k]).0 == secondary_hash;
            assert(stored[k].0 != secondary_hash);
        }
    } else {
        assert(front[index] == stored[index]);
        assert forall|j: int| 0 <= j < index implies (#[trigger] front[j]).0 != secondary_hash by {
            assert(stored[j].0 != secondary_hash);
        }
        lemma_first_stored_receipt_stays(front, secondary_hash, index);
    }
}

/// Whether every block has one receipt only, however often it was stored.
pub open spec fn one_receipt_per_block(stored: Seq<(H256, ExecutionReceiptView)>) -> bool {
    forall|i: int, j: int|
        0 <= i < stored.len() && 0 <= j < stored.len() && (#[trigger] stored[i]).0 == (
        #[trigger] stored[j]).0 ==> stored[i].1 == stored[j].1
}

/// Whether every receipt that was stored in one sequence was stored in the
/// other.
pub open spec fn all_stored_in(
    stored: Seq<(H256, ExecutionReceiptView)>,
    other: Seq<(H256, ExecutionReceiptView)>,
) -> bool {
    forall|i: int| 0 <= i < stored.len() ==> other.contains(#[trigger] stored[i])
}

/// If a receipt was stored for a block hash at `index`, one was stored for it
/// first.
proof fn lemma_some_receipt_is_first(
    stored: Seq<(H256, ExecutionReceiptView)>,
    secondary_hash: H256,
    index: int,
)
    requires
        0 <= index < stored.len(),
        stored[index].0 == secondary_hash,
    ensures
        exists|first: int| is_first_stored(stored, secondary_hash, first),
    decreases index,
{
    if exists|j: int| 0 <= j < index && (#[trigger] stored[j]).0 == secondary_hash {
        let j = choose|j: int| 0 <= j < index && (#[trigger] stored[j]).0 == secondary_hash;
        lemma_some_receipt_is_first(stored, secondary_hash, j);
    } else {
        assert(is_first_stored(stored, secondary_hash, index));
    }
}

/// Two nodes that executed the same blocks hold the same receipts. If each
/// block has one receipt only, which is so where execution is deterministic,
/// and each node stored every receipt that the other stored, in whatever
/// order, then both have the same receipt, or none, for every block hash.
pub proof fn lemma_same_receipts_on_both_nodes(
    stored_here: Seq<(H256, ExecutionReceiptView)>,
    stored_there: Seq<(H256, ExecutionReceiptView)>,
)
    requires
        one_receipt_per_block(stored_here),
        all_stored_in(stored_here, stored_there),
        all_stored_in(stored_there, stored_here),
    ensures
        receipts_stored(stored_here) == receipts_stored(stored_there),
{
    let here = receipts_stored(stored_here);
    let there = receipts_stored(stored_there);
    assert forall|hash: H256|
        #![trigger here.dom().contains(hash)]
        #![trigger there.dom().contains(hash)]
        here.dom().contains(hash) == there.dom().contains(hash) && (here.dom().contains(hash)
            ==> here[hash] == there[hash]) by {
        lemma_stored_receipt_is_there(stored_here, hash);
        lemma_stored_receipt_is_there(stored_there, hash);
        if here.contains_key(hash) {
            let i = choose|i: int| 0 <= i < stored_here.len() && (#[trigger] stored_here[i]).0 == hash;
            assert(stored_there.contains(stored_here[i]));
            let j = choose|j: int| 0 <= j < stored_there.len() && stored_there[j] == stored_here[i];
            assert(stored_there[j].0 == hash);
            lemma_some_receipt_is_first(stored_here, hash, i);
            lemma_some_receipt_is_first(stored_there, hash, j);
            let first_here = choose|first: int| is_first_stored(stored_here, hash, first);
            let first_there = choose|first: int| is_first_stored(stored_there, hash, first);
            lemma_first_stored_receipt_stays(stored_here, hash, first_here);
            lemma_first_stored_receipt_stays(stored_there, hash, first_there);
            assert(stored_here.contains(stored_there[first_there]));
            let back = choose|k: int|
                0 <= k < stored_here.len() && stored_here[k] == stored_there[first_there];
            assert(stored_here[back].0 == stored_here[first_here].0);
        } else if there.contains_key(hash) {
            let j = choose|j: int|
                0 <= j < stored_there.len() && (#[trigger] stored_there[j]).0 == hash;
            assert(stored_here.contains(stored_there[j]));
            let i = choose|i: int| 0 <= i < stored_here.len() && stored_here[i] == stored_there[j];
            assert(stored_here[i].0 == hash);
        }
    }
    assert(here =~= there);
}

/// A receipt in the store, with the hash of its secondary block.
#[derive(Debug)]
struct StoredReceipt {
    secondary_hash: H256,
    receipt: ExecutionReceipt,
}

/// The execution receipts that this node produced, by the hash of their
/// secondary block. A receipt that is stored is never replaced.
#[derive(Debug)]
pub struct ReceiptStore {
    entries: Vec<StoredReceipt>,
}

impl ReceiptStore {
    /// The receipts that were handed to the store, in the order they came in.
    pub closed spec fn stored(&self) -> Seq<(H256, ExecutionReceiptView)> {
        self.entries@.map_values(|entry: StoredReceipt| (entry.secondary_hash, entry.receipt@))
    }

    /// An empty store.
    pub fn new() -> (store: ReceiptStore)
        ensures
            store@ == Map::<H256, ExecutionReceiptView>::empty(),
            store.stored() == Seq::<(H256, ExecutionReceiptView)>::empty(),
    {
        let store = ReceiptStore { entries: Vec::new() };
        assert(store.stored() =~= Seq::<(H256, ExecutionReceiptView)>::empty());
        store
    }

    /// The position of the receipt of a block, if there is one.
    fn position(&self, secondary_hash: &H256) -> (found: Option<usize>)
        ensures
            found is Some <==> self@.contains_key(*secondary_hash),
            found matches Some(i) ==> i < self.entries@.len() && self.entries@[i as int].receipt@
                == self@[*secondary_hash],
    {
        let mut i: usize = 0;
        while i < self.entries.len()
            invariant
                i <= self.entries@.len(),
                forall|j: int| 0 <= j < i ==> (#[trigger] self.stored()[j]).0 != *secondary_hash,
            decreases self.entries@.len() - i,
        {
            if h256_equal(&self.entries[i].secondary_hash, secondary_hash) {
                proof {
                    assert(self.stored()[i as int].0 == *secondary_hash);
                    lemma_first_stored_receipt_stays(self.stored(), *secondary_hash, i as int);
                }
                return Some(i);
            }
            i += 1;
        }
        proof {
            lemma_stored_receipt_is_there(self.stored(), *secondary_hash);
        }
        None
    }

    /// Stores the receipt of a secondary block, unless the block has one;
    /// tells whether it was stored.
    pub fn store(&mut self, secondary_hash: H256, receipt: ExecutionReceipt) -> (was_stored: bool)
        ensures
            was_stored == !old(self)@.contains_key(secondary_hash),
            was_stored ==> final(self)@ == old(self)@.insert(secondary_hash, receipt@),
            !was_stored ==> final(self)@ == old(self)@,
            final(self).stored() == old(self).stored().push((secondary_hash, receipt@)),
    {
        let was_stored = self.position(&secondary_hash).is_none();
        let ghost before = self.stored();
        let ghost view = receipt@;
        self.entries.push(StoredReceipt { secondary_hash, receipt });
        proof {
            assert(self.stored() =~= before.push((secondary_hash, view)));
            assert(self.stored().drop_last() =~= before);
        }
        was_stored
    }

    /// Loads the receipt of a secondary block, if one is stored.
    pub fn load(&self, secondary_hash: &H256) -> (receipt: Option<ExecutionReceipt>)
        ensures
            receipt is Some <==> self@.contains_key(*secondary_hash),
            receipt matches Some(found) ==> found@ == self@[*secondary_hash],
    {
        match self.position(secondary_hash) {
            Some(i) => Some(self.entries[i].receipt.duplicate()),
            None => None,
        }
    }
}

impl View for ReceiptStore {
    type V = Map<H256, ExecutionReceiptView>;

    closed spec fn view(&self) -> Map<H256, ExecutionReceiptView> {
        receipts_stored(self.stored())
    }
}

} // verus!
