//! The wait for a local execution receipt.
//!
//! A receipt from the network may be about a block that the local node has
//! not executed yet. The node then polls the receipt store until the receipt
//! of that very block is there, or until the local chain has reached the
//! height of that block: from then on the receipt of the local block at that
//! height is the one to compare with. The wait is a state machine of the same
//! kind as the check of a receipt: it asks, the node does and reports back.

use vstd::prelude::*;
use crate::error::{ClientError, ClientErrorView, GossipMessageError, GossipMessageErrorView};
use crate::primitives::{BlockNumber, H256};
use crate::receipt::{ExecutionReceipt, ExecutionReceiptView};
use crate::receipt_check::{ReceiptEvent, ReceiptEventView};

verus! {

/// How long the wait sleeps between two looks into the receipt store, in
/// milliseconds.
pub const LOCAL_RECEIPT_POLL_INTERVAL_MILLIS: u64 = 100;

/// What the node reports back to a wait.
#[derive(Debug)]
pub enum WaitEvent {
    /// The receipt that was looked up.
    Receipt(ExecutionReceipt),
    /// No receipt is stored for the block that was looked up.
    ReceiptNotFound,
    /// The number of the best block of the local secondary chain.
    BestNumber(BlockNumber),
    /// The hash of the local block at the asked height.
    BlockHash(H256),
    /// The sleep is over.
    Slept,
    /// The result was handed to the check that waits for it.
    Sent,
    /// The result could not be handed over: the check is gone.
    ReceiverGone,
    /// The secondary chain client failed at what was asked of it.
    ClientFailed(ClientError),
}

/// The mathematical value of a [`WaitEvent`].
pub ghost enum WaitEventView {
    Receipt(ExecutionReceiptView),
    ReceiptNotFound,
    BestNumber(BlockNumber),
    BlockHash(H256),
    Slept,
    Sent,
    ReceiverGone,
    ClientFailed(ClientErrorView),
}

impl View for WaitEvent {
    type V = WaitEventView;

    open spec fn view(&self) -> WaitEventView {
        match *self {
            WaitEvent::Receipt(receipt) => WaitEventView::Receipt(receipt@),
            WaitEvent::ReceiptNotFound => WaitEventView::ReceiptNotFound,
            WaitEvent::BestNumber(number) => WaitEventView::BestNumber(number),
            WaitEvent::BlockHash(hash) => WaitEventView::BlockHash(hash),
            WaitEvent::Slept => WaitEventView::Slept,
            WaitEvent::Sent => WaitEventView::Sent,
            WaitEvent::ReceiverGone => WaitEventView::ReceiverGone,
            WaitEvent::ClientFailed(error) => WaitEventView::ClientFailed(error@),
        }
    }
}

/// The mathematical value of what a wait hands to the check.
pub open spec fn delivery_view(delivery: Result<ExecutionReceipt, ClientError>) -> Result<
    ExecutionReceiptView,
    ClientErrorView,
> {
    match delivery {
        Ok(receipt) => Ok(receipt@),
        Err(error) => Err(error@),
    }
}

/// The mathematical value of how a wait ended.
pub open spec fn wait_result_view(result: Result<(), GossipMessageError>) -> Result<
    (),
    GossipMessageErrorView,
> {
    match result {
        Ok(()) => Ok(()),
        Err(error) => Err(error@),
    }
}

/// What a wait asks the node to do next.
#[derive(Debug)]
pub enum WaitRequest {
    /// Look up the receipt of this secondary block.
    LoadReceipt { secondary_hash: H256 },
    /// Tell the number of the best block of the local secondary chain.
    BestNumber,
    /// Sleep for this many milliseconds.
    Sleep { millis: u64 },
    /// Tell the hash of the local block at this height.
    BlockHash { number: BlockNumber },
    /// Hand this to the check that waits.
    Send { delivery: Result<ExecutionReceipt, ClientError> },
    /// Nothing: the wait is over, with this result.
    Finish { result: Result<(), GossipMessageError> },
}

/// The mathematical value of a [`WaitRequest`].
pub ghost enum WaitRequestView {
    LoadReceipt { secondary_hash: H256 },
    BestNumber,
    Sleep { millis: u64 },
    BlockHash { number: BlockNumber },
    Send { delivery: Result<ExecutionReceiptView, ClientErrorView> },
    Finish { result: Result<(), GossipMessageErrorView> },
}

impl View for WaitRequest {
    type V = WaitRequestView;

    open spec fn view(&self) -> WaitRequestView {
        match *self {
            WaitRequest::LoadReceipt { secondary_hash } => WaitRequestView::LoadReceipt {
                secondary_hash,
            },
            WaitRequest::BestNumber => WaitRequestView::BestNumber,
            WaitRequest::Sleep { millis } => WaitRequestView::Sleep { millis },
            WaitRequest::BlockHash { number } => WaitRequestView::BlockHash { number },
            WaitRequest::Send { delivery } => WaitRequestView::Send {
                delivery: delivery_view(delivery),
            },
            WaitRequest::Finish { result } => WaitRequestView::Finish {
                result: wait_result_view(result),
            },
        }
    }
}

/// The state of the wait for the local receipt of one block.
#[derive(Debug)]
pub enum LocalReceiptWait {
    /// The receipt of the awaited block is being looked up.
    LoadingReceipt { secondary_hash: H256, secondary_number: BlockNumber },
    /// No receipt yet; the height of the local chain is being asked for.
    CheckingBestNumber { secondary_hash: H256, secondary_number: BlockNumber },
    /// The local chain is not that far yet; the wait sleeps.
    Sleeping { secondary_hash: H256, secondary_number: BlockNumber },
    /// The local chain has reached the height; the local block at that
    /// height is being asked for.
    ResolvingBlockHash { secondary_number: BlockNumber },
    /// The receipt of the local block at that height is being looked up.
    LoadingReceiptAtHeight { local_hash: H256 },
    /// The outcome is being handed to the check.
    Sending { delivery: Result<ExecutionReceipt, ClientError> },
    /// The wait is over.
    Finished { result: Result<(), GossipMessageError> },
}

/// The mathematical value of a [`LocalReceiptWait`].
pub ghost enum LocalReceiptWaitView {
    LoadingReceipt { secondary_hash: H256, secondary_number: BlockNumber },
    CheckingBestNumber { secondary_hash: H256, secondary_number: BlockNumber },
    Sleeping { secondary_hash: H256, secondary_number: BlockNumber },
    ResolvingBlockHash { secondary_number: BlockNumber },
    LoadingReceiptAtHeight { local_hash: H256 },
    Sending { delivery: Result<ExecutionReceiptView, ClientErrorView> },
    Finished { result: Result<(), GossipMessageErrorView> },
}

impl View for LocalReceiptWait {
    type V = LocalReceiptWaitView;

    open spec fn view(&self) -> LocalReceiptWaitView {
        match *self {
            LocalReceiptWait::LoadingReceipt { secondary_hash, secondary_number } => (
                LocalReceiptWaitView::LoadingReceipt { secondary_hash, secondary_number }
            ),
            LocalReceiptWait::CheckingBestNumber { secondary_hash, secondary_number } => (
                LocalReceiptWaitView::CheckingBestNumber { secondary_hash, secondary_number }
            ),
            LocalReceiptWait::Sleeping { secondary_hash, secondary_number } => (
                LocalReceiptWaitView::Sleeping { secondary_hash, secondary_number }
            ),
            LocalReceiptWait::ResolvingBlockHash { secondary_number } => (
                LocalReceiptWaitView::ResolvingBlockHash { secondary_number }
            ),
            LocalReceiptWait::LoadingReceiptAtHeight { local_hash } => (
                LocalReceiptWaitView::LoadingReceiptAtHeight { local_hash }
            ),
            LocalReceiptWait::Sending { delivery } => LocalReceiptWaitView::Sending {
                delivery: delivery_view(delivery),
            },
            LocalReceiptWait::Finished { result } => LocalReceiptWaitView::Finished {
                result: wait_result_view(result),
            },
        }
    }
}

/// The state that follows `wait` when `event` comes in.
pub open spec fn local_receipt_wait_step(wait: LocalReceiptWaitView, event: WaitEventView) -> LocalReceiptWaitView {
    match wait {
        LocalReceiptWaitView::LoadingReceipt { secondary_hash, secondary_number } => match event {
            WaitEventView::Receipt(receipt) => LocalReceiptWaitView::Sending { delivery: Ok(receipt) },
            WaitEventView::ReceiptNotFound => LocalReceiptWaitView::CheckingBestNumber {
                secondary_hash,
                secondary_number,
            },
            WaitEventView::ClientFailed(error) => LocalReceiptWaitView::Sending {
                delivery: Err(error),
            },
            _ => wait,
        },
        LocalReceiptWaitView::CheckingBestNumber { secondary_hash, secondary_number } => match event {
            WaitEventView::BestNumber(best_number) => if best_number >= secondary_number {
                LocalReceiptWaitView::ResolvingBlockHash { secondary_number }
            } else {
                LocalReceiptWaitView::Sleeping { secondary_hash, secondary_number }
            },
            _ => wait,
        },
        LocalReceiptWaitView::Sleeping { secondary_hash, secondary_number } => match event {
            WaitEventView::Slept => LocalReceiptWaitView::LoadingReceipt {
                secondary_hash,
                secondary_number,
            },
            _ => wait,
        },
        LocalReceiptWaitView::ResolvingBlockHash { secondary_number } => match event {
            WaitEventView::BlockHash(local_hash) => LocalReceiptWaitView::LoadingReceiptAtHeight {
                local_hash,
            },
            WaitEventView::ClientFailed(error) => LocalReceiptWaitView::Finished {
                result: Err(GossipMessageErrorView::Client(error)),
            },
            _ => wait,
        },
        LocalReceiptWaitView::LoadingReceiptAtHeight { local_hash } => match event {
            WaitEventView::Receipt(receipt) => LocalReceiptWaitView::Sending { delivery: Ok(receipt) },
            WaitEventView::ReceiptNotFound => LocalReceiptWaitView::Sending {
                delivery: Err(ClientErrorView::ExecutionReceiptNotFound(local_hash)),
            },
            WaitEventView::ClientFailed(error) => LocalReceiptWaitView::Finished {
                result: Err(GossipMessageErrorView::Client(error)),
            },
            _ => wait,
        },
        LocalReceiptWaitView::Sending { delivery } => match event {
            WaitEventView::Sent => LocalReceiptWaitView::Finished { result: Ok(()) },
            WaitEventView::ReceiverGone => LocalReceiptWaitView::Finished {
                result: Err(GossipMessageErrorView::SendError),
            },
            _ => wait,
        },
        LocalReceiptWaitView::Finished { .. } => wait,
    }
}

/// What a wait in the given state asks the node to do.
pub open spec fn local_receipt_wait_request(wait: LocalReceiptWaitView) -> WaitRequestView {
    match wait {
        LocalReceiptWaitView::LoadingReceipt { secondary_hash, secondary_number } => (
            WaitRequestView::LoadReceipt { secondary_hash }
        ),
        LocalReceiptWaitView::CheckingBestNumber { .. } => WaitRequestView::BestNumber,
        LocalReceiptWaitView::Sleeping { .. } => WaitRequestView::Sleep {
            millis: LOCAL_RECEIPT_POLL_INTERVAL_MILLIS,
        },
        LocalReceiptWaitView::ResolvingBlockHash { secondary_number } => WaitRequestView::BlockHash {
            number: secondary_number,
        },
        LocalReceiptWaitView::LoadingReceiptAtHeight { local_hash } => WaitRequestView::LoadReceipt {
            secondary_hash: local_hash,
        },
        LocalReceiptWaitView::Sending { delivery } => WaitRequestView::Send { delivery },
        LocalReceiptWaitView::Finished { result } => WaitRequestView::Finish { result },
    }
}

/// What the check of a receipt is told when its wait for the local receipt
/// ends: the receipt or the failure that the wait handed over, or that the
/// wait went away without handing over anything.
pub open spec fn wait_outcome_event(
    received: Option<Result<ExecutionReceiptView, ClientErrorView>>,
) -> ReceiptEventView {
    match received {
        Some(Ok(receipt)) => ReceiptEventView::LocalReceipt(receipt),
        Some(Err(error)) => ReceiptEventView::ClientFailed(error),
        None => ReceiptEventView::WaitDisconnected,
    }
}

/// Turns what came out of the wait for the local receipt into the event for
/// the check that waited; `None` stands for a wait that handed over nothing.
pub fn local_receipt_received(received: Option<Result<ExecutionReceipt, ClientError>>) -> (event:
    ReceiptEvent)
    ensures
        event@ == wait_outcome_event(
            match received {
                Some(delivery) => Some(delivery_view(delivery)),
                None => None,
            },
        ),
{
    match received {
        Some(Ok(receipt)) => ReceiptEvent::LocalReceipt(receipt),
        Some(Err(error)) => ReceiptEvent::ClientFailed(error),
        None => ReceiptEvent::WaitDisconnected,
    }
}

impl LocalReceiptWait {
    /// Starts the wait for the local receipt that is to be compared with a
    /// remote receipt of the block with the given hash and number.
    pub fn wait_for_local_future_receipt(secondary_block_hash: H256, secondary_block_number: BlockNumber) -> (wait:
        LocalReceiptWait)
        ensures
            wait@ == (LocalReceiptWaitView::LoadingReceipt {
                secondary_hash: secondary_block_hash,
                secondary_number: secondary_block_number,
            }),
    {
        LocalReceiptWait::LoadingReceipt {
            secondary_hash: secondary_block_hash,
            secondary_number: secondary_block_number,
        }
    }

    /// Moves the wait on by what the node reports.
    pub fn advance(self, event: WaitEvent) -> (next: LocalReceiptWait)
        ensures
            next@ == local_receipt_wait_step(self@, event@),
    {
        match self {
            LocalReceiptWait::LoadingReceipt { secondary_hash, secondary_number } => match event {
                WaitEvent::Receipt(receipt) => LocalReceiptWait::Sending { delivery: Ok(receipt) },
                WaitEvent::ReceiptNotFound => LocalReceiptWait::CheckingBestNumber {
                    secondary_hash,
                    secondary_number,
                },
                WaitEvent::ClientFailed(error) => LocalReceiptWait::Sending { delivery: Err(error) },
                _ => LocalReceiptWait::LoadingReceipt { secondary_hash, secondary_number },
            },
            LocalReceiptWait::CheckingBestNumber { secondary_hash, secondary_number } => match event {
                WaitEvent::BestNumber(best_number) => if best_number >= secondary_number {
                    LocalReceiptWait::ResolvingBlockHash { secondary_number }
                } else {
                    LocalReceiptWait::Sleeping { secondary_hash, secondary_number }
                },
                _ => LocalReceiptWait::CheckingBestNumber { secondary_hash, secondary_number },
            },
            LocalReceiptWait::Sleeping { secondary_hash, secondary_number } => match event {
                WaitEvent::Slept => LocalReceiptWait::LoadingReceipt {
                    secondary_hash,
                    secondary_number,
                },
                _ => LocalReceiptWait::Sleeping { secondary_hash, secondary_number },
            },
            LocalReceiptWait::ResolvingBlockHash { secondary_number } => match event {
                WaitEvent::BlockHash(local_hash) => LocalReceiptWait::LoadingReceiptAtHeight {
                    local_hash,
                },
                WaitEvent::ClientFailed(error) => LocalReceiptWait::Finished {
                    result: Err(GossipMessageError::Client(error)),
                },
                _ => LocalReceiptWait::ResolvingBlockHash { secondary_number },
            },
            LocalReceiptWait::LoadingReceiptAtHeight { local_hash } => match event {
                WaitEvent::Receipt(receipt) => LocalReceiptWait::Sending { delivery: Ok(receipt) },
                WaitEvent::ReceiptNotFound => LocalReceiptWait::Sending {
                    delivery: Err(ClientError::ExecutionReceiptNotFound(local_hash)),
                },
                WaitEvent::ClientFailed(error) => LocalReceiptWait::Finished {
                    result: Err(GossipMessageError::Client(error)),
                },
                _ => LocalReceiptWait::LoadingReceiptAtHeight { local_hash },
            },
            LocalReceiptWait::Sending { delivery } => match event {
                WaitEvent::Sent => LocalReceiptWait::Finished { result: Ok(()) },
                WaitEvent::ReceiverGone => LocalReceiptWait::Finished {
                    result: Err(GossipMessageError::SendError),
                },
                _ => LocalReceiptWait::Sending { delivery },
            },
            LocalReceiptWait::Finished { result } => LocalReceiptWait::Finished { result },
        }
    }

    /// What the wait asks the node to do next.
    pub fn request(&self) -> (request: WaitRequest)
        ensures
            request@ == local_receipt_wait_request(self@),
    {
        match self {
            LocalReceiptWait::LoadingReceipt { secondary_hash, secondary_number } => (
                WaitRequest::LoadReceipt { secondary_hash: *secondary_hash }
            ),
            LocalReceiptWait::CheckingBestNumber { secondary_hash, secondary_number } => (
                WaitRequest::BestNumber
            ),
            LocalReceiptWait::Sleeping { secondary_hash, secondary_number } => WaitRequest::Sleep {
                millis: LOCAL_RECEIPT_POLL_INTERVAL_MILLIS,
            },
            LocalReceiptWait::ResolvingBlockHash { secondary_number } => WaitRequest::BlockHash {
                number: *secondary_number,
            },
            LocalReceiptWait::LoadingReceiptAtHeight { local_hash } => WaitRequest::LoadReceipt {
                secondary_hash: *local_hash,
            },
            LocalReceiptWait::Sending { delivery } => WaitRequest::Send {
                delivery: match delivery {
                    Ok(receipt) => Ok(receipt.duplicate()),
                    Err(error) => Err(error.duplicate()),
                },
            },
            LocalReceiptWait::Finished { result } => WaitRequest::Finish {
                result: match result {
                    Ok(()) => Ok(()),
                    Err(error) => Err(error.duplicate()),
                },
            },
        }
    }
}

/// The state that a wait is in after a sequence of events.
pub open spec fn local_receipt_wait_run(wait: LocalReceiptWaitView, events: Seq<WaitEventView>) -> LocalReceiptWaitView
    decreases events.len(),
{
    if events.len() == 0 {
        wait
    } else {
        local_receipt_wait_run(local_receipt_wait_step(wait, events[0]), events.drop_first())
    }
}

/// While the receipt is not there and the local chain is below the height of
/// the awaited block, one round of the wait (look up, ask for the height,
/// sleep) ends where it began, having slept for the poll interval.
pub proof fn lemma_poll_round_starts_over(
    secondary_hash: H256,
    secondary_number: BlockNumber,
    best_number: BlockNumber,
)
    requires
        best_number < secondary_number,
    ensures
        ({
            let start = LocalReceiptWaitView::LoadingReceipt { secondary_hash, secondary_number };
            let asleep = local_receipt_wait_run(
                start,
                seq![WaitEventView::ReceiptNotFound, WaitEventView::BestNumber(best_number)],
            );
            &&& local_receipt_wait_request(asleep) == (WaitRequestView::Sleep {
                millis: LOCAL_RECEIPT_POLL_INTERVAL_MILLIS,
            })
            &&& local_receipt_wait_step(asleep, WaitEventView::Slept) == start
        }),
{
    let start = LocalReceiptWaitView::LoadingReceipt { secondary_hash, secondary_number };
    let events = seq![WaitEventView::ReceiptNotFound, WaitEventView::BestNumber(best_number)];
    reveal_with_fuel(local_receipt_wait_run, 3);
    assert(events.drop_first() =~= seq![WaitEventView::BestNumber(best_number)]);
    assert(events.drop_first().drop_first() =~= Seq::empty());
}

/// Once the local chain has reached the height of the awaited block, the
/// wait hands over the receipt of the local block at that height, or the
/// failure that no receipt is stored for that block.
pub proof fn lemma_wait_falls_back_to_height(
    secondary_hash: H256,
    secondary_number: BlockNumber,
    best_number: BlockNumber,
    local_hash: H256,
    stored: Option<ExecutionReceiptView>,
)
    requires
        best_number >= secondary_number,
    ensures
        ({
            let start = LocalReceiptWaitView::LoadingReceipt { secondary_hash, secondary_number };
            let resolving = local_receipt_wait_run(
                start,
                seq![WaitEventView::ReceiptNotFound, WaitEventView::BestNumber(best_number)],
            );
            let loading = local_receipt_wait_step(resolving, WaitEventView::BlockHash(local_hash));
            &&& local_receipt_wait_request(resolving) == (WaitRequestView::BlockHash {
                number: secondary_number,
            })
            &&& local_receipt_wait_request(loading) == (WaitRequestView::LoadReceipt {
                secondary_hash: local_hash,
            })
            &&& local_receipt_wait_request(
                local_receipt_wait_step(
                    loading,
                    match stored {
                        Some(receipt) => WaitEventView::Receipt(receipt),
                        None => WaitEventView::ReceiptNotFound,
                    },
                ),
            ) == (WaitRequestView::Send {
                delivery: match stored {
                    Some(receipt) => Ok(receipt),
                    None => Err(ClientErrorView::ExecutionReceiptNotFound(local_hash)),
                },
            })
        }),
{
    let start = LocalReceiptWaitView::LoadingReceipt { secondary_hash, secondary_number };
    let events = seq![WaitEventView::ReceiptNotFound, WaitEventView::BestNumber(best_number)];
    reveal_with_fuel(local_receipt_wait_run, 3);
    assert(events.drop_first() =~= seq![WaitEventView::BestNumber(best_number)]);
    assert(events.drop_first().drop_first() =~= Seq::empty());
}

} // verus!
