use cirrus_executor::local_receipt::{
    local_receipt_received, LocalReceiptWait, WaitEvent, WaitRequest,
};
use cirrus_executor::receipt::{ExecutionReceipt, SignedExecutionReceipt};
use cirrus_executor::receipt_check::{ReceiptCheck, ReceiptEvent, ReceiptRequest};
use cirrus_executor::receipt_store::ReceiptStore;
use cirrus_executor::trace::{execution_receipt, execution_trace};
use cirrus_executor::verdict::Action;
use sp_core::Pair;

fn executor_key() -> sp_core::sr25519::Pair {
    sp_core::sr25519::Pair::from_seed(&[21u8; 32])
}

fn sign(receipt: ExecutionReceipt, hash: &[u8; 32]) -> SignedExecutionReceipt {
    SignedExecutionReceipt {
        execution_receipt: receipt,
        signature: executor_key().sign(&hash[..]).0,
        signer: executor_key().public().0,
    }
}

/// The receipt that a node arrives at for the first block, with two extrinsics.
fn first_block_receipt() -> ExecutionReceipt {
    let trace = execution_trace(vec![1u8; 32], vec![vec![2u8; 32], vec![3u8; 32]], vec![4u8; 32]);
    execution_receipt(1, [0xaa; 32], [0xbb; 32], trace)
}

fn store_event(store: &ReceiptStore, secondary_hash: &[u8; 32]) -> WaitEvent {
    match store.load(secondary_hash) {
        Some(receipt) => WaitEvent::Receipt(receipt),
        None => WaitEvent::ReceiptNotFound,
    }
}

#[test]
fn two_nodes_that_agree_rebroadcast_without_a_proof() {
    let mut local_store = ReceiptStore::new();
    assert!(local_store.store([0xbb; 32], first_block_receipt()));
    let remote = first_block_receipt();
    assert_eq!(remote.trace.len(), 4);

    let hash = [0x11; 32];
    let mut check = ReceiptCheck::start(sign(remote, &hash), &hash);
    let mut proofs_submitted = 0;
    let verdict = loop {
        let event = match check.request() {
            ReceiptRequest::ExecutorId { .. } => ReceiptEvent::ExecutorId(executor_key().public().0),
            ReceiptRequest::BestExecutionChainNumber => ReceiptEvent::BestExecutionChainNumber(1),
            ReceiptRequest::LocalReceipt { secondary_hash } => {
                match local_store.load(&secondary_hash) {
                    Some(receipt) => ReceiptEvent::LocalReceipt(receipt),
                    None => ReceiptEvent::LocalReceiptNotFound,
                }
            },
            ReceiptRequest::SubmitFraudProof { .. } => {
                proofs_submitted += 1;
                ReceiptEvent::FraudProofSubmitted
            },
            ReceiptRequest::Finish { verdict, trace_lengths_differ } => {
                assert!(!trace_lengths_differ);
                break verdict;
            },
            _ => panic!("nothing else should be asked for"),
        };
        check = check.advance(event);
    };
    assert!(matches!(verdict, Ok(Action::RebroadcastExecutionReceipt)));
    assert_eq!(proofs_submitted, 0);
}

#[test]
fn receipt_that_arrives_early_is_compared_once_the_block_is_executed() {
    let mut local_store = ReceiptStore::new();
    let hash = [0x11; 32];
    let check = ReceiptCheck::start(sign(first_block_receipt(), &hash), &hash);
    let check = check.advance(ReceiptEvent::ExecutorId(executor_key().public().0));
    let check = check.advance(ReceiptEvent::BestExecutionChainNumber(1));
    let check = match check.request() {
        ReceiptRequest::LocalReceipt { secondary_hash } => {
            assert!(local_store.load(&secondary_hash).is_none());
            check.advance(ReceiptEvent::LocalReceiptNotFound)
        },
        _ => panic!("the local receipt should be looked up"),
    };
    let (secondary_hash, secondary_number) = match check.request() {
        ReceiptRequest::WaitForLocalReceipt { secondary_hash, secondary_number } => {
            (secondary_hash, secondary_number)
        },
        _ => panic!("the check should wait"),
    };

    let mut wait = LocalReceiptWait::wait_for_local_future_receipt(secondary_hash, secondary_number);
    let mut polls = 0;
    let delivery = loop {
        let event = match wait.request() {
            WaitRequest::LoadReceipt { secondary_hash } => {
                polls += 1;
                if polls == 3 {
                    assert!(local_store.store([0xbb; 32], first_block_receipt()));
                }
                store_event(&local_store, &secondary_hash)
            },
            WaitRequest::BestNumber => WaitEvent::BestNumber(0),
            WaitRequest::Sleep { millis } => {
                assert_eq!(millis, 100);
                WaitEvent::Slept
            },
            WaitRequest::Send { delivery } => break delivery,
            _ => panic!("nothing else should be asked for"),
        };
        wait = wait.advance(event);
    };
    assert_eq!(polls, 3);
    let wait = wait.advance(WaitEvent::Sent);
    assert!(matches!(wait.request(), WaitRequest::Finish { result: Ok(()) }));

    let check = check.advance(local_receipt_received(Some(delivery)));
    assert!(matches!(
        check.request(),
        ReceiptRequest::Finish {
            verdict: Ok(Action::RebroadcastExecutionReceipt),
            trace_lengths_differ: false
        }
    ));
}

#[test]
fn stored_receipt_is_never_replaced() {
    let mut store = ReceiptStore::new();
    assert!(store.load(&[1u8; 32]).is_none());
    assert!(store.store([1u8; 32], execution_receipt(1, [2u8; 32], [1u8; 32], vec![vec![7u8; 32]])));
    assert!(store.store([3u8; 32], execution_receipt(2, [4u8; 32], [3u8; 32], vec![vec![8u8; 32]])));
    assert!(!store.store([1u8; 32], execution_receipt(9, [9u8; 32], [1u8; 32], vec![vec![9u8; 32]])));
    let first = store.load(&[1u8; 32]).expect("a receipt was stored");
    assert_eq!(first.primary_number, 1);
    assert_eq!(first.primary_hash, [2u8; 32]);
    assert_eq!(first.trace, vec![vec![7u8; 32]]);
    let second = store.load(&[3u8; 32]).expect("a receipt was stored");
    assert_eq!(second.primary_number, 2);
    assert_eq!(second.trace, vec![vec![8u8; 32]]);
    assert!(store.load(&[5u8; 32]).is_none());
}

#[test]
fn nodes_that_store_the_same_receipts_load_the_same() {
    let receipts = vec![
        ([1u8; 32], execution_receipt(1, [2u8; 32], [1u8; 32], vec![vec![7u8; 32], vec![8u8; 32]])),
        ([3u8; 32], execution_receipt(2, [4u8; 32], [3u8; 32], vec![vec![9u8; 32], vec![6u8; 32]])),
        ([5u8; 32], execution_receipt(3, [6u8; 32], [5u8; 32], vec![vec![5u8; 32], vec![4u8; 32]])),
    ];
    let mut here = ReceiptStore::new();
    let mut there = ReceiptStore::new();
    for (hash, receipt) in receipts.iter() {
        here.store(*hash, receipt.duplicate());
    }
    for (hash, receipt) in receipts.iter().rev() {
        there.store(*hash, receipt.duplicate());
    }
    for hash in [[1u8; 32], [3u8; 32], [5u8; 32], [7u8; 32]] {
        match (here.load(&hash), there.load(&hash)) {
            (Some(ours), Some(theirs)) => {
                assert_eq!(ours.primary_number, theirs.primary_number);
                assert_eq!(ours.primary_hash, theirs.primary_hash);
                assert_eq!(ours.secondary_hash, theirs.secondary_hash);
                assert_eq!(ours.trace, theirs.trace);
            },
            (None, None) => assert_eq!(hash, [7u8; 32]),
            _ => panic!("both nodes should have the same receipts"),
        }
    }
}
