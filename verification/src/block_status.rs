//! Whether a secondary block can be built on.

use vstd::prelude::*;
use crate::primitives::BlockNumber;

verus! {

/// What the client knows of a block.
#[derive(Clone, Copy, Debug, PartialEq, Eq)]
pub enum BlockStatus {
    /// The block is queued for import.
    Queued,
    /// The block is part of the chain and its state is there.
    InChainWithState,
    /// The block is part of the chain and its state has been pruned.
    InChainPruned,
    /// The block has been found to be bad.
    KnownBad,
    /// The client knows nothing of the block.
    Unknown,
}

/// Why a block can or cannot be built on.
#[derive(Clone, Copy, Debug, PartialEq, Eq)]
pub enum BlockAvailability {
    /// The block is in the chain with its state.
    Ready,
    /// The block still waits to be imported.
    StillQueued,
    /// The state of the block is gone.
    AlreadyPruned,
    /// The block is tagged as bad.
    TaggedBad,
    /// The block is the genesis block and the database has no header for it.
    GenesisMissing,
    /// The block is unknown.
    NotFound,
    /// The client could not tell the status.
    StatusUnavailable,
}

/// What the status of the block with the given number, or the failure to get
/// it (`None`), means for building on that block.
pub open spec fn availability_of(status: Option<BlockStatus>, number: BlockNumber) -> BlockAvailability {
    match status {
        Some(BlockStatus::Queued) => BlockAvailability::StillQueued,
        Some(BlockStatus::InChainWithState) => BlockAvailability::Ready,
        Some(BlockStatus::InChainPruned) => BlockAvailability::AlreadyPruned,
        Some(BlockStatus::KnownBad) => BlockAvailability::TaggedBad,
        Some(BlockStatus::Unknown) => if number == 0 {
            BlockAvailability::GenesisMissing
        } else {
            BlockAvailability::NotFound
        },
        None => BlockAvailability::StatusUnavailable,
    }
}

/// Tells what the status of a block means for building on it.
pub fn block_availability(status: Option<BlockStatus>, number: BlockNumber) -> (availability:
    BlockAvailability)
    ensures
        availability == availability_of(status, number),
{
    match status {
        Some(BlockStatus::Queued) => BlockAvailability::StillQueued,
        Some(BlockStatus::InChainWithState) => BlockAvailability::Ready,
        Some(BlockStatus::InChainPruned) => BlockAvailability::AlreadyPruned,
        Some(BlockStatus::KnownBad) => BlockAvailability::TaggedBad,
        Some(BlockStatus::Unknown) => if number == 0 {
            BlockAvailability::GenesisMissing
        } else {
            BlockAvailability::NotFound
        },
        None => BlockAvailability::StatusUnavailable,
    }
}

/// Checks the status of a secondary block: `true` if the block could be
/// found and is good to be built on, which is the case exactly for a block
/// that is in the chain with its state.
pub fn check_block_status(status: Option<BlockStatus>, number: BlockNumber) -> (good: bool)
    ensures
        good == (status == Some(BlockStatus::InChainWithState)),
        good == (availability_of(status, number) == BlockAvailability::Ready),
{
    match block_availability(status, number) {
        BlockAvailability::Ready => true,
        _ => false,
    }
}

} // verus!
