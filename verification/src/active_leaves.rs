//! The primary blocks that the executor's worker starts from.

use vstd::prelude::*;
use crate::primitives::{h256_equal, BlockNumber, H256};

verus! {

/// The largest number of active leaves that the worker is started with.
pub const MAX_ACTIVE_LEAVES: usize = 4;

/// A primary block as the worker knows it.
#[derive(Clone, Copy, Debug)]
pub struct BlockInfo {
    /// Hash of the block.
    pub hash: H256,
    /// Hash of its parent.
    pub parent_hash: H256,
    /// Number of the block.
    pub number: BlockNumber,
}

/// A leaf of the primary chain, with what the client could tell of it.
#[derive(Clone, Copy, Debug)]
pub struct LeafCandidate {
    /// Hash of the leaf.
    pub hash: H256,
    /// Number of the leaf, if the client knows it.
    pub number: Option<BlockNumber>,
    /// Hash of the parent of the leaf, if the client has the header.
    pub parent_hash: Option<H256>,
}

/// Whether a leaf counts as active beside the best block: the client knows
/// its number and header, it is no more than one block behind the best
/// block, and it is not the best block itself.
pub open spec fn leaf_is_active(leaf: LeafCandidate, best: BlockInfo) -> bool {
    &&& leaf.number is Some
    &&& leaf.parent_hash is Some
    &&& leaf.number.unwrap() >= best.number - 1
    &&& leaf.hash != best.hash
}

/// The block that an active leaf is.
pub open spec fn leaf_block(leaf: LeafCandidate) -> BlockInfo {
    BlockInfo {
        hash: leaf.hash,
        parent_hash: leaf.parent_hash.unwrap(),
        number: leaf.number.unwrap(),
    }
}

/// The active ones among the leaves, in the order of the leaves.
pub open spec fn active_among(leaves: Seq<LeafCandidate>, best: BlockInfo) -> Seq<BlockInfo>
    decreases leaves.len(),
{
    if leaves.len() == 0 {
        Seq::empty()
    } else if leaf_is_active(leaves.last(), best) {
        active_among(leaves.drop_last(), best).push(leaf_block(leaves.last()))
    } else {
        active_among(leaves.drop_last(), best)
    }
}

/// A sequence of blocks with one more block put in behind the last block
/// whose number is not larger.
pub open spec fn inserted_by_number(blocks: Seq<BlockInfo>, block: BlockInfo) -> Seq<BlockInfo>
    decreases blocks.len(),
{
    if blocks.len() == 0 {
        seq![block]
    } else if blocks.last().number <= block.number {
        blocks.push(block)
    } else {
        inserted_by_number(blocks.drop_last(), block).push(blocks.last())
    }
}

/// The blocks in ascending order of their numbers, blocks of one number in
/// the order they came in.
pub open spec fn sorted_by_number(blocks: Seq<BlockInfo>) -> Seq<BlockInfo>
    decreases blocks.len(),
{
    if blocks.len() == 0 {
        blocks
    } else {
        inserted_by_number(sorted_by_number(blocks.drop_last()), blocks.last())
    }
}

/// Whether the numbers of the blocks never go down.
pub open spec fn ascending(blocks: Seq<BlockInfo>) -> bool {
    forall|i: int, j: int| 0 <= i <= j < blocks.len() ==> blocks[i].number <= blocks[j].number
}

/// The last `count` of the blocks, or all of them if there are fewer.
pub open spec fn last_of(blocks: Seq<BlockInfo>, count: int) -> Seq<BlockInfo> {
    if blocks.len() <= count {
        blocks
    } else {
        blocks.subrange(blocks.len() - count, blocks.len() as int)
    }
}

/// The active leaves to start the worker with: nothing at genesis; otherwise
/// the active leaves in ascending order of their numbers and the best block
/// behind them, cut down to the last [`MAX_ACTIVE_LEAVES`].
pub open spec fn active_leaves_of(best: BlockInfo, leaves: Seq<LeafCandidate>) -> Seq<BlockInfo> {
    if best.number == 0 {
        Seq::empty()
    } else {
        last_of(
            sorted_by_number(active_among(leaves, best)).push(best),
            MAX_ACTIVE_LEAVES as int,
        )
    }
}

/// Putting a block into ascending blocks gives the blocks with the new one at
/// the place behind the last block whose number is not larger.
proof fn lemma_inserted_at(blocks: Seq<BlockInfo>, block: BlockInfo, place: int)
    requires
        0 <= place <= blocks.len(),
        place > 0 ==> blocks[place - 1].number <= block.number,
        forall|j: int| place <= j < blocks.len() ==> blocks[j].number > block.number,
    ensures
        inserted_by_number(blocks, block) == blocks.insert(place, block),
    decreases blocks.len(),
{
    if blocks.len() == 0 {
        assert(blocks.insert(place, block) =~= seq![block]);
    } else if place == blocks.len() {
        assert(blocks.insert(place, block) =~= blocks.push(block));
    } else {
        lemma_inserted_at(blocks.drop_last(), block, place);
        assert(blocks.insert(place, block) =~= blocks.drop_last().insert(place, block).push(
            blocks.last(),
        ));
    }
}

/// Putting a block into ascending blocks keeps them ascending and adds
/// nothing but that block.
pub proof fn lemma_inserted_is_ascending(blocks: Seq<BlockInfo>, block: BlockInfo)
    requires
        ascending(blocks),
    ensures
        ascending(inserted_by_number(blocks, block)),
        inserted_by_number(blocks, block).to_multiset() == blocks.to_multiset().insert(block),
    decreases blocks.len(),
{
    broadcast use vstd::seq_lib::group_to_multiset_ensures;

    if blocks.len() == 0 {
        assert(seq![block] =~= Seq::<BlockInfo>::empty().push(block));
        assert(blocks =~= Seq::<BlockInfo>::empty());
    } else if blocks.last().number <= block.number {
    } else {
        let front = blocks.drop_last();
        lemma_inserted_is_ascending(front, block);
        let inner = inserted_by_number(front, block);
        assert(blocks =~= front.push(blocks.last()));
        assert forall|x: BlockInfo| inner.contains(x) implies x.number <= blocks.last().number by {
            assert(inner.to_multiset().count(x) > 0);
            if x != block {
                assert(front.to_multiset().count(x) > 0);
                assert(front.contains(x));
                let i = choose|i: int| 0 <= i < front.len() && front[i] == x;
                assert(blocks[i] == x);
            }
        }
        assert forall|i: int, j: int| 0 <= i <= j < inner.push(blocks.last()).len() implies inner.push(
            blocks.last(),
        )[i].number <= inner.push(blocks.last())[j].number by {
            if j == inner.len() {
                if i < inner.len() {
                    assert(inner.contains(inner[i]));
                }
            }
        }
        assert(front.to_multiset().insert(block).insert(blocks.last()) =~= front.to_multiset().insert(
            blocks.last(),
        ).insert(block));
    }
}

/// Sorting by number gives the same blocks in ascending order.
pub proof fn lemma_sorted_is_ascending_permutation(blocks: Seq<BlockInfo>)
    ensures
        ascending(sorted_by_number(blocks)),
        sorted_by_number(blocks).to_multiset() == blocks.to_multiset(),
        sorted_by_number(blocks).len() == blocks.len(),
    decreases blocks.len(),
{
    broadcast use vstd::seq_lib::group_to_multiset_ensures;

    if blocks.len() > 0 {
        lemma_sorted_is_ascending_permutation(blocks.drop_last());
        lemma_inserted_is_ascending(sorted_by_number(blocks.drop_last()), blocks.last());
        assert(blocks =~= blocks.drop_last().push(blocks.last()));
    }
    sorted_by_number(blocks).to_multiset_ensures();
    blocks.to_multiset_ensures();
}

/// The blocks with the given number, in the order they stand in.
pub open spec fn with_number(blocks: Seq<BlockInfo>, number: BlockNumber) -> Seq<BlockInfo>
    decreases blocks.len(),
{
    if blocks.len() == 0 {
        Seq::empty()
    } else if blocks.last().number == number {
        with_number(blocks.drop_last(), number).push(blocks.last())
    } else {
        with_number(blocks.drop_last(), number)
    }
}

/// Putting a block into a sequence puts it behind the blocks of its own
/// number and leaves the blocks of every other number as they stand.
proof fn lemma_inserted_keeps_order(blocks: Seq<BlockInfo>, block: BlockInfo, number: BlockNumber)
    ensures
        with_number(inserted_by_number(blocks, block), number) == if block.number == number {
            with_number(blocks, number).push(block)
        } else {
            with_number(blocks, number)
        },
    decreases blocks.len(),
{
    if blocks.len() == 0 {
        assert(seq![block].drop_last() =~= blocks);
    } else if blocks.last().number <= block.number {
        assert(blocks.push(block).drop_last() =~= blocks);
    } else {
        let inner = inserted_by_number(blocks.drop_last(), block);
        lemma_inserted_keeps_order(blocks.drop_last(), block, number);
        assert(inner.push(blocks.last()).drop_last() =~= inner);
    }
}

/// Sorting by number is stable: the blocks of one number stand in the order
/// they came in.
pub proof fn lemma_sorted_is_stable(blocks: Seq<BlockInfo>, number: BlockNumber)
    ensures
        with_number(sorted_by_number(blocks), number) == with_number(blocks, number),
    decreases blocks.len(),
{
    if blocks.len() > 0 {
        lemma_sorted_is_stable(blocks.drop_last(), number);
        lemma_inserted_keeps_order(sorted_by_number(blocks.drop_last()), blocks.last(), number);
    }
}

/// There are at most [`MAX_ACTIVE_LEAVES`] active leaves. At genesis there
/// are none; otherwise the best block is the last of them and the leaves
/// before it stand in ascending order of their numbers.
pub proof fn lemma_active_leaves_shape(best: BlockInfo, leaves: Seq<LeafCandidate>)
    ensures
        active_leaves_of(best, leaves).len() <= MAX_ACTIVE_LEAVES,
        best.number == 0 ==> active_leaves_of(best, leaves).len() == 0,
        best.number > 0 ==> active_leaves_of(best, leaves).len() >= 1 && active_leaves_of(
            best,
            leaves,
        ).last() == best && ascending(active_leaves_of(best, leaves).drop_last()),
{
    if best.number > 0 {
        let sorted = sorted_by_number(active_among(leaves, best));
        lemma_sorted_is_ascending_permutation(active_among(leaves, best));
        let all = sorted.push(best);
        let active = active_leaves_of(best, leaves);
        if all.len() <= MAX_ACTIVE_LEAVES {
            assert(active.drop_last() =~= sorted);
        } else {
            let from = all.len() - MAX_ACTIVE_LEAVES;
            assert(active.drop_last() =~= sorted.subrange(from, sorted.len() as int));
        }
    }
}

/// Puts a block into ascending blocks, behind the last block whose number is
/// not larger.
fn insert_by_number(blocks: &mut Vec<BlockInfo>, block: BlockInfo)
    requires
        ascending(old(blocks)@),
    ensures
        final(blocks)@ == inserted_by_number(old(blocks)@, block),
{
    let mut place: usize = blocks.len();
    while place > 0 && blocks[place - 1].number > block.number
        invariant
            place <= blocks.len(),
            blocks@ == old(blocks)@,
            forall|j: int| place <= j < blocks.len() ==> blocks@[j].number > block.number,
        decreases place,
    {
        place -= 1;
    }
    proof {
        lemma_inserted_at(blocks@, block, place as int);
    }
    blocks.insert(place, block);
}

/// Picks the active leaves to start the worker with, out of the best block
/// of the primary chain and the leaves that the chain selection reports.
pub fn active_leaves(best_block: &BlockInfo, leaves: &Vec<LeafCandidate>) -> (active: Vec<BlockInfo>)
    ensures
        active@ == active_leaves_of(*best_block, leaves@),
{
    if best_block.number == 0 {
        return Vec::new();
    }
    let mut sorted: Vec<BlockInfo> = Vec::new();
    let mut i: usize = 0;
    while i < leaves.len()
        invariant
            i <= leaves.len(),
            best_block.number > 0,
            sorted@ == sorted_by_number(active_among(leaves@.take(i as int), *best_block)),
            ascending(sorted@),
        decreases leaves.len() - i,
    {
        let leaf = &leaves[i];
        proof {
            assert(leaves@.take(i + 1).drop_last() =~= leaves@.take(i as int));
            assert(leaves@.take(i + 1).last() == leaves@[i as int]);
        }
        match (leaf.number, leaf.parent_hash) {
            (Some(number), Some(parent_hash)) => {
                if number >= best_block.number - 1 && !h256_equal(&leaf.hash, &best_block.hash) {
                    let block = BlockInfo { hash: leaf.hash, parent_hash, number };
                    proof {
                        let before = active_among(leaves@.take(i as int), *best_block);
                        assert(before.push(block).drop_last() =~= before);
                        lemma_inserted_is_ascending(sorted@, block);
                    }
                    insert_by_number(&mut sorted, block);
                }
            },
            _ => {},
        }
        i += 1;
    }
    proof {
        assert(leaves@.take(leaves.len() as int) =~= leaves@);
    }
    sorted.push(*best_block);
    let len = sorted.len();
    if len <= MAX_ACTIVE_LEAVES {
        sorted
    } else {
        let mut kept: Vec<BlockInfo> = Vec::new();
        let mut k: usize = len - MAX_ACTIVE_LEAVES;
        while k < len
            invariant
                len == sorted.len(),
                len > MAX_ACTIVE_LEAVES,
                len - MAX_ACTIVE_LEAVES <= k <= len,
                kept@ == sorted@.subrange(len - MAX_ACTIVE_LEAVES, k as int),
            decreases len - k,
        {
            kept.push(sorted[k]);
            assert(kept@ =~= sorted@.subrange(len - MAX_ACTIVE_LEAVES, k + 1));
            k += 1;
        }
        kept
    }
}

} // verus!
