use cirrus_executor::error::{ClientError, GossipMessageError};
use cirrus_executor::fraud_proof::{ExecutionPhase, HeaderInfo, StateDelta, StorageProof};
use cirrus_executor::receipt::{ExecutionReceipt, SignedExecutionReceipt};
use cirrus_executor::receipt_check::{ReceiptCheck, ReceiptEvent, ReceiptRequest};
use cirrus_executor::verdict::Action;
use sp_core::Pair;

fn root(tag: u8) -> Vec<u8> {
    vec![tag; 32]
}

fn receipt(primary_number: u32, trace: Vec<Vec<u8>>) -> ExecutionReceipt {
    ExecutionReceipt {
        primary_number,
        primary_hash: [7u8; 32],
        secondary_hash: [9u8; 32],
        trace,
    }
}

fn signed(receipt: ExecutionReceipt, hash: &[u8; 32]) -> SignedExecutionReceipt {
    let pair = sp_core::sr25519::Pair::from_seed(&[1u8; 32]);
    SignedExecutionReceipt {
        execution_receipt: receipt,
        signature: pair.sign(&hash[..]).0,
        signer: pair.public().0,
    }
}

fn elected() -> [u8; 32] {
    sp_core::sr25519::Pair::from_seed(&[1u8; 32]).public().0
}

fn header(hash: [u8; 32], parent_hash: [u8; 32], number: u32, state_root: Vec<u8>) -> HeaderInfo {
    HeaderInfo { hash, parent_hash, number, state_root }
}

/// Drives a check up to the comparison with the local receipt.
fn compared(remote: ExecutionReceipt, local: ExecutionReceipt) -> ReceiptCheck {
    let hash = [3u8; 32];
    let check = ReceiptCheck::start(signed(remote, &hash), &hash);
    let check = check.advance(ReceiptEvent::ExecutorId(elected()));
    let check = check.advance(ReceiptEvent::BestExecutionChainNumber(1));
    check.advance(ReceiptEvent::LocalReceipt(local))
}

#[test]
fn agreeing_receipt_is_rebroadcast() {
    let trace = vec![root(1), root(2), root(3), root(4)];
    let hash = [3u8; 32];
    let check = ReceiptCheck::start(signed(receipt(1, trace.clone()), &hash), &hash);
    assert!(matches!(
        check.request(),
        ReceiptRequest::ExecutorId { primary_hash } if primary_hash == [7u8; 32]
    ));
    let check = check.advance(ReceiptEvent::ExecutorId(elected()));
    assert!(matches!(check.request(), ReceiptRequest::BestExecutionChainNumber));
    let check = check.advance(ReceiptEvent::BestExecutionChainNumber(1));
    assert!(matches!(
        check.request(),
        ReceiptRequest::LocalReceipt { secondary_hash } if secondary_hash == [9u8; 32]
    ));
    let check = check.advance(ReceiptEvent::LocalReceipt(receipt(1, trace)));
    assert!(matches!(
        check.request(),
        ReceiptRequest::Finish {
            verdict: Ok(Action::RebroadcastExecutionReceipt),
            trace_lengths_differ: false
        }
    ));
}

#[test]
fn bad_receipt_signature_is_rejected() {
    let hash = [3u8; 32];
    let other_hash = [4u8; 32];
    let check = ReceiptCheck::start(signed(receipt(1, vec![root(1), root(2)]), &hash), &other_hash);
    assert!(matches!(
        check.request(),
        ReceiptRequest::Finish {
            verdict: Err(GossipMessageError::BadExecutionReceiptSignature),
            trace_lengths_differ: false
        }
    ));
}

#[test]
fn receipt_of_another_author_is_rejected() {
    let hash = [3u8; 32];
    let check = ReceiptCheck::start(signed(receipt(1, vec![root(1), root(2)]), &hash), &hash);
    let check = check.advance(ReceiptEvent::ExecutorId([5u8; 32]));
    match check.request() {
        ReceiptRequest::Finish {
            verdict: Err(GossipMessageError::InvalidExecutionReceiptAuthor { got, expected }),
            ..
        } => {
            assert_eq!(got, elected());
            assert_eq!(expected, [5u8; 32]);
        },
        _ => panic!("the receipt should have been rejected"),
    }
}

#[test]
fn pruned_receipt_is_dropped() {
    let hash = [3u8; 32];
    let check = ReceiptCheck::start(signed(receipt(10, vec![root(1), root(2)]), &hash), &hash);
    let check = check.advance(ReceiptEvent::ExecutorId(elected()));
    let check = check.advance(ReceiptEvent::BestExecutionChainNumber(1000));
    assert!(matches!(
        check.request(),
        ReceiptRequest::Finish { verdict: Ok(Action::Empty), trace_lengths_differ: false }
    ));
}

#[test]
fn divergence_mid_block_disputes_the_extrinsic() {
    let local = vec![root(1), root(2), root(3), root(4)];
    let remote = vec![root(1), root(2), root(30), root(4)];
    let check = compared(receipt(1, remote), receipt(1, local));
    assert!(matches!(check.request(), ReceiptRequest::Header { hash } if hash == [9u8; 32]));
    let check = check.advance(ReceiptEvent::Header(header([9u8; 32], [8u8; 32], 1, root(4))));
    assert!(matches!(check.request(), ReceiptRequest::Header { hash } if hash == [8u8; 32]));
    let check = check.advance(ReceiptEvent::Header(header([8u8; 32], [0u8; 32], 0, root(0))));
    assert!(matches!(check.request(), ReceiptRequest::BlockBody { hash } if hash == [9u8; 32]));
    let check = check.advance(ReceiptEvent::BlockBody(vec![vec![0xa0], vec![0xa1, 0xa2]]));
    match check.request() {
        ReceiptRequest::ProveExecution { at, parent_number, phase, delta } => {
            assert_eq!(at, [8u8; 32]);
            assert_eq!(parent_number, 0);
            assert!(matches!(
                phase,
                ExecutionPhase::ApplyExtrinsic { call_data } if call_data == vec![0xa1, 0xa2]
            ));
            assert_eq!(delta, StateDelta::BeforeExtrinsic { index: 1 });
        },
        _ => panic!("a proof should have been asked for"),
    }
    let check = check.advance(ReceiptEvent::ExecutionProved(StorageProof {
        trie_nodes: vec![vec![1, 2, 3]],
    }));
    match check.request() {
        ReceiptRequest::SubmitFraudProof { fraud_proof } => {
            assert_eq!(fraud_proof.parent_number, 0);
            assert_eq!(fraud_proof.parent_hash, [8u8; 32]);
            assert_eq!(fraud_proof.pre_state_root, [2u8; 32]);
            assert_eq!(fraud_proof.post_state_root, [3u8; 32]);
            assert_eq!(fraud_proof.proof.trie_nodes, vec![vec![1, 2, 3]]);
            assert!(matches!(
                fraud_proof.execution_phase,
                ExecutionPhase::ApplyExtrinsic { call_data } if call_data == vec![0xa1, 0xa2]
            ));
        },
        _ => panic!("a fraud proof should have been put together"),
    }
    let check = check.advance(ReceiptEvent::FraudProofSubmitted);
    assert!(matches!(
        check.request(),
        ReceiptRequest::Finish { verdict: Ok(Action::Empty), trace_lengths_differ: false }
    ));
}

#[test]
fn divergence_at_initialize_disputes_the_new_header() {
    let local = vec![root(1), root(2), root(3)];
    let remote = vec![root(10), root(2), root(3)];
    let check = compared(receipt(1, remote), receipt(1, local));
    let check = check.advance(ReceiptEvent::Header(header([9u8; 32], [8u8; 32], 5, root(3))));
    let check = check.advance(ReceiptEvent::Header(header([8u8; 32], [0u8; 32], 4, root(0x55))));
    let mut expected_call_data = vec![8u8; 32];
    expected_call_data.push(5 << 2);
    expected_call_data.extend_from_slice(&[0u8; 64]);
    expected_call_data.push(0);
    match check.request() {
        ReceiptRequest::ProveExecution { at, parent_number, phase, delta } => {
            assert_eq!(at, [8u8; 32]);
            assert_eq!(parent_number, 4);
            assert!(matches!(
                phase,
                ExecutionPhase::InitializeBlock { call_data } if call_data == expected_call_data
            ));
            assert_eq!(delta, StateDelta::Untouched);
        },
        _ => panic!("a proof should have been asked for"),
    }
    let check = check.advance(ReceiptEvent::ExecutionProved(StorageProof { trie_nodes: vec![] }));
    match check.request() {
        ReceiptRequest::SubmitFraudProof { fraud_proof } => {
            assert_eq!(fraud_proof.pre_state_root, [0x55u8; 32]);
            assert_eq!(fraud_proof.post_state_root, [1u8; 32]);
            assert_eq!(fraud_proof.parent_number, 4);
        },
        _ => panic!("a fraud proof should have been put together"),
    }
}

#[test]
fn divergence_at_finalize_starts_from_all_extrinsics() {
    let local = vec![root(1), root(2), root(3), root(4)];
    let remote = vec![root(1), root(2), root(3), root(40)];
    let check = compared(receipt(1, remote), receipt(1, local));
    let check = check.advance(ReceiptEvent::Header(header([9u8; 32], [8u8; 32], 1, root(4))));
    let check = check.advance(ReceiptEvent::Header(header([8u8; 32], [0u8; 32], 0, root(0))));
    assert!(matches!(check.request(), ReceiptRequest::BlockBody { hash } if hash == [9u8; 32]));
    let check = check.advance(ReceiptEvent::BlockBody(vec![vec![0xa0], vec![0xa1]]));
    match check.request() {
        ReceiptRequest::ProveExecution { phase, delta, .. } => {
            assert!(matches!(phase, ExecutionPhase::FinalizeBlock));
            assert_eq!(delta, StateDelta::BeforeFinalizeBlock);
        },
        _ => panic!("a proof should have been asked for"),
    }
    let check = check.advance(ReceiptEvent::ExecutionProved(StorageProof { trie_nodes: vec![] }));
    match check.request() {
        ReceiptRequest::SubmitFraudProof { fraud_proof } => {
            assert_eq!(fraud_proof.pre_state_root, [3u8; 32]);
            assert_eq!(fraud_proof.post_state_root, [4u8; 32]);
            assert!(matches!(fraud_proof.execution_phase, ExecutionPhase::FinalizeBlock));
        },
        _ => panic!("a fraud proof should have been put together"),
    }
}

#[test]
fn missing_header_ends_the_check() {
    let check = compared(receipt(1, vec![root(1), root(2)]), receipt(1, vec![root(1), root(3)]));
    let check = check.advance(ReceiptEvent::HeaderNotFound);
    assert!(matches!(
        check.request(),
        ReceiptRequest::Finish {
            verdict: Err(GossipMessageError::Client(ClientError::HeaderNotFound(hash))),
            ..
        } if hash == [9u8; 32]
    ));
}

#[test]
fn shorter_remote_trace_is_noted_and_rebroadcast() {
    let local = vec![root(1), root(2), root(3), root(4)];
    let remote = vec![root(1), root(2), root(3)];
    let check = compared(receipt(1, remote), receipt(1, local));
    assert!(matches!(
        check.request(),
        ReceiptRequest::Finish {
            verdict: Ok(Action::RebroadcastExecutionReceipt),
            trace_lengths_differ: true
        }
    ));
}

#[test]
fn length_mismatch_is_kept_through_a_dispute() {
    let local = vec![root(1), root(2), root(3)];
    let remote = vec![root(10), root(2)];
    let check = compared(receipt(1, remote), receipt(1, local));
    let check = check.advance(ReceiptEvent::Header(header([9u8; 32], [8u8; 32], 1, root(3))));
    let check = check.advance(ReceiptEvent::Header(header([8u8; 32], [0u8; 32], 0, root(0))));
    let check = check.advance(ReceiptEvent::ExecutionProved(StorageProof { trie_nodes: vec![] }));
    let check = check.advance(ReceiptEvent::FraudProofSubmitted);
    assert!(matches!(
        check.request(),
        ReceiptRequest::Finish { verdict: Ok(Action::Empty), trace_lengths_differ: true }
    ));
}

#[test]
fn state_root_that_is_no_hash_ends_the_check() {
    let local = vec![root(1), vec![2u8; 16], root(3)];
    let remote = vec![root(1), root(2), root(3)];
    let check = compared(receipt(1, remote), receipt(1, local));
    let check = check.advance(ReceiptEvent::Header(header([9u8; 32], [8u8; 32], 1, root(3))));
    let check = check.advance(ReceiptEvent::Header(header([8u8; 32], [0u8; 32], 0, root(0))));
    assert!(matches!(
        check.request(),
        ReceiptRequest::Finish { verdict: Err(GossipMessageError::InvalidStateRootType), .. }
    ));
}

#[test]
fn parent_state_root_that_is_no_hash_ends_the_check() {
    let local = vec![root(1), root(2)];
    let remote = vec![root(9), root(2)];
    let check = compared(receipt(1, remote), receipt(1, local));
    let check = check.advance(ReceiptEvent::Header(header([9u8; 32], [8u8; 32], 1, root(2))));
    let check = check.advance(ReceiptEvent::Header(header([8u8; 32], [0u8; 32], 0, vec![1, 2, 3])));
    assert!(matches!(
        check.request(),
        ReceiptRequest::Finish { verdict: Err(GossipMessageError::InvalidStateRootType), .. }
    ));
}

#[test]
fn extrinsic_missing_from_the_body_ends_the_check() {
    let local = vec![root(1), root(2), root(3), root(4), root(5)];
    let remote = vec![root(1), root(2), root(3), root(40), root(5)];
    let check = compared(receipt(1, remote), receipt(1, local));
    let check = check.advance(ReceiptEvent::Header(header([9u8; 32], [8u8; 32], 1, root(5))));
    let check = check.advance(ReceiptEvent::Header(header([8u8; 32], [0u8; 32], 0, root(0))));
    let check = check.advance(ReceiptEvent::BlockBody(vec![vec![0xa0], vec![0xa1]]));
    assert!(matches!(
        check.request(),
        ReceiptRequest::Finish {
            verdict: Err(GossipMessageError::InvalidExtrinsicIndex { index: 2, max: 1 }),
            ..
        }
    ));
}

#[test]
fn missing_body_ends_the_check() {
    let local = vec![root(1), root(2), root(3)];
    let remote = vec![root(1), root(20), root(3)];
    let check = compared(receipt(1, remote), receipt(1, local));
    let check = check.advance(ReceiptEvent::Header(header([9u8; 32], [8u8; 32], 1, root(3))));
    let check = check.advance(ReceiptEvent::Header(header([8u8; 32], [0u8; 32], 0, root(0))));
    let check = check.advance(ReceiptEvent::BlockBodyNotFound);
    assert!(matches!(
        check.request(),
        ReceiptRequest::Finish {
            verdict: Err(GossipMessageError::Client(ClientError::BlockBodyNotFound(hash))),
            ..
        } if hash == [9u8; 32]
    ));
}

#[test]
fn missing_parent_header_ends_the_check() {
    let check = compared(receipt(1, vec![root(1), root(2)]), receipt(1, vec![root(1), root(3)]));
    let check = check.advance(ReceiptEvent::Header(header([9u8; 32], [8u8; 32], 1, root(3))));
    let check = check.advance(ReceiptEvent::HeaderNotFound);
    assert!(matches!(
        check.request(),
        ReceiptRequest::Finish {
            verdict: Err(GossipMessageError::Client(ClientError::HeaderNotFound(hash))),
            ..
        } if hash == [8u8; 32]
    ));
}

#[test]
fn failing_prover_ends_the_check() {
    let check = compared(receipt(1, vec![root(1), root(2)]), receipt(1, vec![root(9), root(2)]));
    let check = check.advance(ReceiptEvent::Header(header([9u8; 32], [8u8; 32], 1, root(2))));
    let check = check.advance(ReceiptEvent::Header(header([8u8; 32], [0u8; 32], 0, root(0))));
    let check =
        check.advance(ReceiptEvent::ClientFailed(ClientError::Backend(String::from("trap"))));
    assert!(matches!(
        check.request(),
        ReceiptRequest::Finish {
            verdict: Err(GossipMessageError::Client(ClientError::Backend(message))),
            ..
        } if message == "trap"
    ));
}

#[test]
fn failing_runtime_ends_the_receipt_check() {
    let hash = [3u8; 32];
    let check = ReceiptCheck::start(signed(receipt(1, vec![root(1)]), &hash), &hash);
    let failed = check.advance(ReceiptEvent::RuntimeApiFailed(String::from("no api")));
    assert!(matches!(
        failed.request(),
        ReceiptRequest::Finish {
            verdict: Err(GossipMessageError::RuntimeApi(message)),
            ..
        } if message == "no api"
    ));
    let check = ReceiptCheck::start(signed(receipt(1, vec![root(1)]), &hash), &hash);
    let check = check.advance(ReceiptEvent::ExecutorId(elected()));
    let failed = check.advance(ReceiptEvent::RuntimeApiFailed(String::from("later")));
    assert!(matches!(
        failed.request(),
        ReceiptRequest::Finish {
            verdict: Err(GossipMessageError::RuntimeApi(message)),
            ..
        } if message == "later"
    ));
}

#[test]
fn failing_receipt_lookup_ends_the_check() {
    let hash = [3u8; 32];
    let check = ReceiptCheck::start(signed(receipt(1, vec![root(1)]), &hash), &hash);
    let check = check.advance(ReceiptEvent::ExecutorId(elected()));
    let check = check.advance(ReceiptEvent::BestExecutionChainNumber(1));
    let check =
        check.advance(ReceiptEvent::ClientFailed(ClientError::Backend(String::from("aux"))));
    assert!(matches!(
        check.request(),
        ReceiptRequest::Finish {
            verdict: Err(GossipMessageError::Client(ClientError::Backend(message))),
            ..
        } if message == "aux"
    ));
}

#[test]
fn wait_that_goes_away_ends_the_check() {
    let hash = [3u8; 32];
    let check = ReceiptCheck::start(signed(receipt(5, vec![root(1)]), &hash), &hash);
    let check = check.advance(ReceiptEvent::ExecutorId(elected()));
    let check = check.advance(ReceiptEvent::BestExecutionChainNumber(1));
    let check = check.advance(ReceiptEvent::LocalReceiptNotFound);
    assert!(matches!(
        check.request(),
        ReceiptRequest::WaitForLocalReceipt { secondary_hash, secondary_number: 5 }
            if secondary_hash == [9u8; 32]
    ));
    let check = check.advance(ReceiptEvent::WaitDisconnected);
    assert!(matches!(
        check.request(),
        ReceiptRequest::Finish { verdict: Err(GossipMessageError::RecvError), .. }
    ));
}

#[test]
fn unsolicited_event_leaves_the_receipt_check_alone() {
    let hash = [3u8; 32];
    let check = ReceiptCheck::start(signed(receipt(1, vec![root(1)]), &hash), &hash);
    let check = check.advance(ReceiptEvent::BestExecutionChainNumber(100_000));
    let check = check.advance(ReceiptEvent::FraudProofSubmitted);
    let check = check.advance(ReceiptEvent::LocalReceipt(receipt(1, vec![root(2)])));
    assert!(matches!(check.request(), ReceiptRequest::ExecutorId { .. }));
    let check = check.advance(ReceiptEvent::ExecutorId(elected()));
    let check = check.advance(ReceiptEvent::ExecutorId([0u8; 32]));
    assert!(matches!(check.request(), ReceiptRequest::BestExecutionChainNumber));
}

#[test]
fn checking_twice_gives_the_same_verdict_and_one_proof_each() {
    let mut verdicts = Vec::new();
    for _ in 0..2 {
        let local = vec![root(1), root(2), root(3)];
        let remote = vec![root(1), root(2), root(30)];
        let mut check = compared(receipt(1, remote), receipt(1, local));
        let events = vec![
            ReceiptEvent::Header(header([9u8; 32], [8u8; 32], 1, root(3))),
            ReceiptEvent::Header(header([8u8; 32], [0u8; 32], 0, root(0))),
            ReceiptEvent::BlockBody(vec![vec![0xa0]]),
            ReceiptEvent::ExecutionProved(StorageProof { trie_nodes: vec![vec![1]] }),
            ReceiptEvent::FraudProofSubmitted,
            ReceiptEvent::FraudProofSubmitted,
            ReceiptEvent::ExecutionProved(StorageProof { trie_nodes: vec![vec![2]] }),
        ];
        let mut submitted = 0;
        for event in events {
            let submitting = matches!(check.request(), ReceiptRequest::SubmitFraudProof { .. });
            if submitting && matches!(event, ReceiptEvent::FraudProofSubmitted) {
                submitted += 1;
            }
            check = check.advance(event);
        }
        assert_eq!(submitted, 1);
        match check.request() {
            ReceiptRequest::Finish { verdict: Ok(action), trace_lengths_differ } => {
                verdicts.push((action, trace_lengths_differ));
            },
            _ => panic!("the check should be over"),
        }
    }
    assert_eq!(verdicts, vec![(Action::Empty, false), (Action::Empty, false)]);
}

#[test]
fn start_with_takes_the_outcome_of_the_receipt_verification() {
    let hash = [3u8; 32];
    let check = ReceiptCheck::start_with(signed(receipt(1, vec![root(1)]), &hash), false);
    assert!(matches!(
        check.request(),
        ReceiptRequest::Finish {
            verdict: Err(GossipMessageError::BadExecutionReceiptSignature),
            ..
        }
    ));
    let check = ReceiptCheck::start_with(signed(receipt(1, vec![root(1)]), &hash), true);
    assert!(matches!(check.request(), ReceiptRequest::ExecutorId { .. }));
}

#[test]
fn tampered_receipt_signature_is_rejected() {
    let hash = [3u8; 32];
    let mut tampered = signed(receipt(1, vec![root(1)]), &hash);
    tampered.signature[10] ^= 0x40;
    let check = ReceiptCheck::start(tampered, &hash);
    assert!(matches!(
        check.request(),
        ReceiptRequest::Finish {
            verdict: Err(GossipMessageError::BadExecutionReceiptSignature),
            ..
        }
    ));
    let mut other_signer = signed(receipt(1, vec![root(1)]), &hash);
    other_signer.signer = sp_core::sr25519::Pair::from_seed(&[2u8; 32]).public().0;
    let check = ReceiptCheck::start(other_signer, &hash);
    assert!(matches!(
        check.request(),
        ReceiptRequest::Finish {
            verdict: Err(GossipMessageError::BadExecutionReceiptSignature),
            ..
        }
    ));
}
