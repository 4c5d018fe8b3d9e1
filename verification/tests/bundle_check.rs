use cirrus_executor::bundle::{
    find_equivocation, is_bundle_known, Bundle, BundleHeader, SeenBundle, SignedBundle,
};
use cirrus_executor::bundle_check::{BundleCheck, BundleEvent, BundleRequest};
use cirrus_executor::error::GossipMessageError;
use cirrus_executor::executor::Executor;
use cirrus_executor::active_leaves::BlockInfo;
use cirrus_executor::verdict::Action;
use sp_core::Pair;

fn author() -> sp_core::sr25519::Pair {
    sp_core::sr25519::Pair::from_seed(&[11u8; 32])
}

fn signed_bundle(slot_number: u64, extrinsics: Vec<Vec<u8>>, hash: &[u8; 32]) -> SignedBundle {
    SignedBundle {
        bundle: Bundle {
            header: BundleHeader { primary_hash: [5u8; 32], slot_number, receipts: Vec::new() },
            extrinsics,
        },
        signature: author().sign(&hash[..]).0,
        signer: author().public().0,
    }
}

fn executor() -> Executor {
    let genesis = BlockInfo { hash: [0u8; 32], parent_hash: [0u8; 32], number: 0 };
    Executor::new(&genesis, &Vec::new())
}

fn finished_with(check: &BundleCheck) -> Result<Action, GossipMessageError> {
    match check.request() {
        BundleRequest::Finish { verdict } => verdict,
        _ => panic!("the check should be over"),
    }
}

#[test]
fn bundle_of_the_elected_executor_is_rebroadcast() {
    let hash = [1u8; 32];
    let bundle = signed_bundle(3, vec![vec![1], vec![2]], &hash);
    let check = executor().on_bundle(&bundle, &hash);
    assert!(matches!(
        check.request(),
        BundleRequest::ExecutorId { primary_hash } if primary_hash == [5u8; 32]
    ));
    let check = check.advance(BundleEvent::ExecutorId(author().public().0));
    assert!(matches!(check.request(), BundleRequest::PoolStatus { extrinsic_index: 0 }));
    let check = check.advance(BundleEvent::InPool(true));
    assert!(matches!(check.request(), BundleRequest::PoolStatus { extrinsic_index: 1 }));
    let check = check.advance(BundleEvent::InPool(true));
    assert!(matches!(finished_with(&check), Ok(Action::RebroadcastBundle)));
}

#[test]
fn bundle_without_extrinsics_is_rebroadcast_at_once() {
    let hash = [1u8; 32];
    let bundle = signed_bundle(3, Vec::new(), &hash);
    let check = executor().on_bundle(&bundle, &hash);
    let check = check.advance(BundleEvent::ExecutorId(author().public().0));
    assert!(matches!(finished_with(&check), Ok(Action::RebroadcastBundle)));
}

#[test]
fn extrinsic_unknown_to_the_pool_gets_a_proof() {
    let hash = [1u8; 32];
    let bundle = signed_bundle(3, vec![vec![1], vec![2], vec![3]], &hash);
    let check = executor().on_bundle(&bundle, &hash);
    let check = check.advance(BundleEvent::ExecutorId(author().public().0));
    let check = check.advance(BundleEvent::InPool(true));
    let check = check.advance(BundleEvent::InPool(false));
    assert!(matches!(
        check.request(),
        BundleRequest::SubmitInvalidTransactionProof { extrinsic_index: 1 }
    ));
    let check = check.advance(BundleEvent::ProofSubmitted);
    assert!(matches!(check.request(), BundleRequest::PoolStatus { extrinsic_index: 2 }));
    let check = check.advance(BundleEvent::InPool(false));
    assert!(matches!(
        check.request(),
        BundleRequest::SubmitInvalidTransactionProof { extrinsic_index: 2 }
    ));
    let check = check.advance(BundleEvent::ProofSubmitted);
    assert!(matches!(finished_with(&check), Ok(Action::RebroadcastBundle)));
}

#[test]
fn bundle_with_bad_signature_is_rejected() {
    let hash = [1u8; 32];
    let mut bundle = signed_bundle(3, vec![vec![1]], &hash);
    bundle.signature[0] ^= 1;
    let check = executor().on_bundle(&bundle, &hash);
    assert!(matches!(finished_with(&check), Err(GossipMessageError::BadBundleSignature)));
    let bundle = signed_bundle(3, vec![vec![1]], &hash);
    let check = executor().on_bundle(&bundle, &[2u8; 32]);
    assert!(matches!(finished_with(&check), Err(GossipMessageError::BadBundleSignature)));
}

#[test]
fn bundle_of_another_author_is_rejected() {
    let hash = [1u8; 32];
    let bundle = signed_bundle(3, vec![vec![1]], &hash);
    let check = executor().on_bundle(&bundle, &hash);
    let check = check.advance(BundleEvent::ExecutorId([6u8; 32]));
    match finished_with(&check) {
        Err(GossipMessageError::InvalidBundleAuthor { got, expected }) => {
            assert_eq!(got, author().public().0);
            assert_eq!(expected, [6u8; 32]);
        },
        _ => panic!("the bundle should have been rejected"),
    }
}

#[test]
fn failing_runtime_ends_the_bundle_check() {
    let hash = [1u8; 32];
    let bundle = signed_bundle(3, vec![vec![1]], &hash);
    let check = executor().on_bundle(&bundle, &hash);
    let check = check.advance(BundleEvent::RuntimeApiFailed(String::from("no runtime")));
    assert!(matches!(
        finished_with(&check),
        Err(GossipMessageError::RuntimeApi(message)) if message == "no runtime"
    ));
}

#[test]
fn seen_bundle_is_dropped() {
    let hash = [1u8; 32];
    let bundle = signed_bundle(3, vec![vec![1]], &hash);
    let mut executor = executor();
    executor.note_bundle(&bundle, &hash);
    let check = executor.on_bundle(&bundle, &hash);
    assert!(matches!(finished_with(&check), Ok(Action::Empty)));
}

#[test]
fn second_bundle_for_a_slot_is_an_equivocation() {
    let first_hash = [1u8; 32];
    let second_hash = [2u8; 32];
    let first = signed_bundle(3, vec![vec![1]], &first_hash);
    let second = signed_bundle(3, vec![vec![2]], &second_hash);
    let mut executor = executor();
    executor.note_bundle(&first, &first_hash);
    let check = executor.on_bundle(&second, &second_hash);
    match check.request() {
        BundleRequest::SubmitBundleEquivocationProof { proof } => {
            assert_eq!(proof.slot_number, 3);
            assert_eq!(proof.offender, author().public().0);
            assert_eq!(proof.first_bundle_hash, first_hash);
            assert_eq!(proof.second_bundle_hash, second_hash);
        },
        _ => panic!("an equivocation proof should have been made"),
    }
    let check = check.advance(BundleEvent::ProofSubmitted);
    assert!(matches!(finished_with(&check), Err(GossipMessageError::BundleEquivocation)));
}

#[test]
fn bundle_for_another_slot_is_no_equivocation() {
    let first_hash = [1u8; 32];
    let second_hash = [2u8; 32];
    let first = signed_bundle(3, vec![vec![1]], &first_hash);
    let second = signed_bundle(4, vec![vec![2]], &second_hash);
    let mut executor = executor();
    executor.note_bundle(&first, &first_hash);
    let check = executor.on_bundle(&second, &second_hash);
    assert!(matches!(check.request(), BundleRequest::ExecutorId { .. }));
}

#[test]
fn unsolicited_event_leaves_the_bundle_check_alone() {
    let hash = [1u8; 32];
    let bundle = signed_bundle(3, vec![vec![1]], &hash);
    let check = executor().on_bundle(&bundle, &hash);
    let check = check.advance(BundleEvent::InPool(true));
    let check = check.advance(BundleEvent::ProofSubmitted);
    assert!(matches!(check.request(), BundleRequest::ExecutorId { .. }));
    let check = check.advance(BundleEvent::ExecutorId(author().public().0));
    let check = check.advance(BundleEvent::ExecutorId([0u8; 32]));
    assert!(matches!(check.request(), BundleRequest::PoolStatus { extrinsic_index: 0 }));
    let check = check.advance(BundleEvent::InPool(true));
    let check = check.advance(BundleEvent::InPool(false));
    assert!(matches!(finished_with(&check), Ok(Action::RebroadcastBundle)));
}

#[test]
fn start_with_takes_the_outcome_of_the_verification() {
    let hash = [1u8; 32];
    let bundle = signed_bundle(3, vec![vec![1]], &hash);
    let check = BundleCheck::start_with(&bundle, &hash, &Vec::new(), false);
    assert!(matches!(finished_with(&check), Err(GossipMessageError::BadBundleSignature)));
    let check = BundleCheck::start_with(&bundle, &hash, &Vec::new(), true);
    assert!(matches!(check.request(), BundleRequest::ExecutorId { .. }));
}

#[test]
fn seen_bundles_are_searched_in_order() {
    let seen = vec![
        SeenBundle { slot_number: 1, signer: [1u8; 32], bundle_hash: [10u8; 32] },
        SeenBundle { slot_number: 2, signer: [1u8; 32], bundle_hash: [11u8; 32] },
        SeenBundle { slot_number: 2, signer: [1u8; 32], bundle_hash: [12u8; 32] },
        SeenBundle { slot_number: 2, signer: [2u8; 32], bundle_hash: [13u8; 32] },
    ];
    assert!(is_bundle_known(&seen, &[12u8; 32]));
    assert!(!is_bundle_known(&seen, &[14u8; 32]));
    assert!(!is_bundle_known(&Vec::new(), &[12u8; 32]));
    let proof = find_equivocation(&seen, 2, &[1u8; 32], &[12u8; 32]).expect("an equivocation");
    assert_eq!(proof.first_bundle_hash, [11u8; 32]);
    assert_eq!(proof.second_bundle_hash, [12u8; 32]);
    assert_eq!(proof.slot_number, 2);
    assert_eq!(proof.offender, [1u8; 32]);
    assert!(find_equivocation(&seen, 1, &[1u8; 32], &[10u8; 32]).is_none());
    assert!(find_equivocation(&seen, 3, &[1u8; 32], &[12u8; 32]).is_none());
    assert!(find_equivocation(&seen, 2, &[3u8; 32], &[12u8; 32]).is_none());
}

#[test]
fn authority_produces_a_bundle_without_receipts() {
    let bundle = cirrus_executor::production::produce_bundle(
        true,
        17,
        [4u8; 32],
        vec![vec![1, 2], vec![3]],
    )
    .expect("an authority produces a bundle");
    assert_eq!(bundle.header.slot_number, 17);
    assert_eq!(bundle.header.primary_hash, [4u8; 32]);
    assert!(bundle.header.receipts.is_empty());
    assert_eq!(bundle.extrinsics, vec![vec![1, 2], vec![3]]);
    assert!(cirrus_executor::production::produce_bundle(false, 17, [4u8; 32], vec![vec![1]])
        .is_none());
}

#[test]
fn only_the_elected_authority_publishes_its_receipt() {
    let own = [1u8; 32];
    assert!(cirrus_executor::production::publishes_receipt(true, &own, &[1u8; 32]));
    assert!(!cirrus_executor::production::publishes_receipt(true, &own, &[2u8; 32]));
    assert!(!cirrus_executor::production::publishes_receipt(false, &own, &[1u8; 32]));
    assert!(!cirrus_executor::production::publishes_receipt(false, &own, &[2u8; 32]));
}
