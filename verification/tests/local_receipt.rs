use cirrus_executor::error::{ClientError, GossipMessageError};
use cirrus_executor::local_receipt::{
    local_receipt_received, LocalReceiptWait, WaitEvent, WaitRequest,
    LOCAL_RECEIPT_POLL_INTERVAL_MILLIS,
};
use cirrus_executor::receipt::{ExecutionReceipt, SignedExecutionReceipt};
use cirrus_executor::receipt_check::{ReceiptCheck, ReceiptEvent, ReceiptRequest};
use cirrus_executor::verdict::Action;
use sp_core::Pair;

fn local_receipt(secondary_hash: [u8; 32], trace: Vec<Vec<u8>>) -> ExecutionReceipt {
    ExecutionReceipt { primary_number: 7, primary_hash: [4u8; 32], secondary_hash, trace }
}

#[test]
fn wait_hands_over_a_receipt_that_is_there() {
    let wait = LocalReceiptWait::wait_for_local_future_receipt([9u8; 32], 7);
    assert!(matches!(
        wait.request(),
        WaitRequest::LoadReceipt { secondary_hash } if secondary_hash == [9u8; 32]
    ));
    let wait = wait.advance(WaitEvent::Receipt(local_receipt([9u8; 32], vec![vec![1u8; 32]])));
    match wait.request() {
        WaitRequest::Send { delivery: Ok(receipt) } => {
            assert_eq!(receipt.secondary_hash, [9u8; 32]);
            assert_eq!(receipt.primary_number, 7);
            assert_eq!(receipt.trace, vec![vec![1u8; 32]]);
        },
        _ => panic!("the receipt should be handed over"),
    }
    let wait = wait.advance(WaitEvent::Sent);
    assert!(matches!(wait.request(), WaitRequest::Finish { result: Ok(()) }));
}

#[test]
fn wait_sleeps_while_the_chain_is_behind() {
    let mut wait = LocalReceiptWait::wait_for_local_future_receipt([9u8; 32], 7);
    for best in [3u32, 5, 6] {
        wait = wait.advance(WaitEvent::ReceiptNotFound);
        assert!(matches!(wait.request(), WaitRequest::BestNumber));
        wait = wait.advance(WaitEvent::BestNumber(best));
        assert!(matches!(wait.request(), WaitRequest::Sleep { millis: 100 }));
        wait = wait.advance(WaitEvent::Slept);
        assert!(matches!(
            wait.request(),
            WaitRequest::LoadReceipt { secondary_hash } if secondary_hash == [9u8; 32]
        ));
    }
    assert_eq!(LOCAL_RECEIPT_POLL_INTERVAL_MILLIS, 100);
}

#[test]
fn wait_takes_the_local_block_once_the_height_is_reached() {
    let wait = LocalReceiptWait::wait_for_local_future_receipt([9u8; 32], 7);
    let wait = wait.advance(WaitEvent::ReceiptNotFound);
    let wait = wait.advance(WaitEvent::BestNumber(7));
    assert!(matches!(wait.request(), WaitRequest::BlockHash { number: 7 }));
    let wait = wait.advance(WaitEvent::BlockHash([10u8; 32]));
    assert!(matches!(
        wait.request(),
        WaitRequest::LoadReceipt { secondary_hash } if secondary_hash == [10u8; 32]
    ));
    let wait = wait.advance(WaitEvent::Receipt(local_receipt([10u8; 32], vec![vec![2u8; 32]])));
    assert!(matches!(
        wait.request(),
        WaitRequest::Send { delivery: Ok(receipt) } if receipt.secondary_hash == [10u8; 32]
    ));
}

#[test]
fn wait_reports_a_missing_receipt_at_the_height() {
    let wait = LocalReceiptWait::wait_for_local_future_receipt([9u8; 32], 7);
    let wait = wait.advance(WaitEvent::ReceiptNotFound);
    let wait = wait.advance(WaitEvent::BestNumber(8));
    let wait = wait.advance(WaitEvent::BlockHash([10u8; 32]));
    let wait = wait.advance(WaitEvent::ReceiptNotFound);
    assert!(matches!(
        wait.request(),
        WaitRequest::Send {
            delivery: Err(ClientError::ExecutionReceiptNotFound(hash))
        } if hash == [10u8; 32]
    ));
}

#[test]
fn wait_hands_over_the_failure_of_the_first_lookup() {
    let wait = LocalReceiptWait::wait_for_local_future_receipt([9u8; 32], 7);
    let wait = wait.advance(WaitEvent::ClientFailed(ClientError::Backend(String::from("disk"))));
    assert!(matches!(
        wait.request(),
        WaitRequest::Send { delivery: Err(ClientError::Backend(message)) } if message == "disk"
    ));
}

#[test]
fn wait_gives_up_on_failures_at_the_height() {
    let wait = LocalReceiptWait::wait_for_local_future_receipt([9u8; 32], 7);
    let wait = wait.advance(WaitEvent::ReceiptNotFound);
    let wait = wait.advance(WaitEvent::BestNumber(8));
    let failed = wait.advance(WaitEvent::ClientFailed(ClientError::Backend(String::from("gone"))));
    assert!(matches!(
        failed.request(),
        WaitRequest::Finish {
            result: Err(GossipMessageError::Client(ClientError::Backend(message)))
        } if message == "gone"
    ));

    let wait = LocalReceiptWait::wait_for_local_future_receipt([9u8; 32], 7);
    let wait = wait.advance(WaitEvent::ReceiptNotFound);
    let wait = wait.advance(WaitEvent::BestNumber(8));
    let wait = wait.advance(WaitEvent::BlockHash([10u8; 32]));
    let failed = wait.advance(WaitEvent::ClientFailed(ClientError::Backend(String::from("bad"))));
    assert!(matches!(
        failed.request(),
        WaitRequest::Finish {
            result: Err(GossipMessageError::Client(ClientError::Backend(message)))
        } if message == "bad"
    ));
}

#[test]
fn wait_fails_when_nobody_listens() {
    let wait = LocalReceiptWait::wait_for_local_future_receipt([9u8; 32], 7);
    let wait = wait.advance(WaitEvent::Receipt(local_receipt([9u8; 32], Vec::new())));
    let wait = wait.advance(WaitEvent::ReceiverGone);
    assert!(matches!(
        wait.request(),
        WaitRequest::Finish { result: Err(GossipMessageError::SendError) }
    ));
    let wait = wait.advance(WaitEvent::Sent);
    assert!(matches!(
        wait.request(),
        WaitRequest::Finish { result: Err(GossipMessageError::SendError) }
    ));
}

#[test]
fn outcome_of_the_wait_becomes_an_event() {
    assert!(matches!(
        local_receipt_received(Some(Ok(local_receipt([9u8; 32], Vec::new())))),
        ReceiptEvent::LocalReceipt(receipt) if receipt.secondary_hash == [9u8; 32]
    ));
    assert!(matches!(
        local_receipt_received(Some(Err(ClientError::HeaderNotFound([1u8; 32])))),
        ReceiptEvent::ClientFailed(ClientError::HeaderNotFound(hash)) if hash == [1u8; 32]
    ));
    assert!(matches!(local_receipt_received(None), ReceiptEvent::WaitDisconnected));
}

#[test]
fn receipt_ahead_of_local_execution_is_compared_after_the_wait() {
    let pair = sp_core::sr25519::Pair::from_seed(&[1u8; 32]);
    let hash = [3u8; 32];
    let trace = vec![vec![1u8; 32], vec![2u8; 32], vec![3u8; 32]];
    let remote = SignedExecutionReceipt {
        execution_receipt: ExecutionReceipt {
            primary_number: 7,
            primary_hash: [4u8; 32],
            secondary_hash: [9u8; 32],
            trace: trace.clone(),
        },
        signature: pair.sign(&hash[..]).0,
        signer: pair.public().0,
    };
    let check = ReceiptCheck::start(remote, &hash);
    let check = check.advance(ReceiptEvent::ExecutorId(pair.public().0));
    let check = check.advance(ReceiptEvent::BestExecutionChainNumber(7));
    let check = check.advance(ReceiptEvent::LocalReceiptNotFound);
    let (secondary_hash, secondary_number) = match check.request() {
        ReceiptRequest::WaitForLocalReceipt { secondary_hash, secondary_number } => {
            (secondary_hash, secondary_number)
        },
        _ => panic!("the check should wait"),
    };
    assert_eq!(secondary_hash, [9u8; 32]);
    assert_eq!(secondary_number, 7);

    let wait = LocalReceiptWait::wait_for_local_future_receipt(secondary_hash, secondary_number);
    let wait = wait.advance(WaitEvent::ReceiptNotFound);
    let wait = wait.advance(WaitEvent::BestNumber(6));
    let wait = wait.advance(WaitEvent::Slept);
    let wait = wait.advance(WaitEvent::Receipt(local_receipt([9u8; 32], trace)));
    let delivery = match wait.request() {
        WaitRequest::Send { delivery } => delivery,
        _ => panic!("the wait should hand over the receipt"),
    };
    let check = check.advance(local_receipt_received(Some(delivery)));
    assert!(matches!(
        check.request(),
        ReceiptRequest::Finish {
            verdict: Ok(Action::RebroadcastExecutionReceipt),
            trace_lengths_differ: false
        }
    ));
}
