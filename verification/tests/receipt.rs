use cirrus_executor::error::{ClientError, GossipMessageError};
use cirrus_executor::primitives::{bytes_equal, clone_byte_strings, clone_bytes, h256_equal};
use cirrus_executor::receipt::find_first_mismatch;
use cirrus_executor::verdict::{duplicate_verdict, Action};

fn root(tag: u8) -> Vec<u8> {
    vec![tag; 32]
}

#[test]
fn equal_traces_have_no_mismatch() {
    let trace = vec![root(1), root(2), root(3)];
    assert_eq!(find_first_mismatch(&trace, &trace.clone()), None);
    assert_eq!(find_first_mismatch(&Vec::new(), &Vec::new()), None);
}

#[test]
fn first_of_several_mismatches_is_found() {
    let local = vec![root(1), root(2), root(3), root(4)];
    let remote = vec![root(1), root(20), root(3), root(40)];
    assert_eq!(find_first_mismatch(&local, &remote), Some(1));
    let remote = vec![root(10), root(20), root(30), root(40)];
    assert_eq!(find_first_mismatch(&local, &remote), Some(0));
    let remote = vec![root(1), root(2), root(3), root(40)];
    assert_eq!(find_first_mismatch(&local, &remote), Some(3));
}

#[test]
fn roots_beyond_the_shorter_trace_are_not_compared() {
    let local = vec![root(1), root(2), root(3)];
    assert_eq!(find_first_mismatch(&local, &vec![root(1), root(2)]), None);
    assert_eq!(find_first_mismatch(&vec![root(1)], &local), None);
    assert_eq!(find_first_mismatch(&local, &Vec::new()), None);
    assert_eq!(find_first_mismatch(&local, &vec![root(1), root(9)]), Some(1));
}

#[test]
fn roots_of_different_lengths_differ() {
    let local = vec![root(1), vec![2u8; 32]];
    let remote = vec![root(1), vec![2u8; 33]];
    assert_eq!(find_first_mismatch(&local, &remote), Some(1));
}

#[test]
fn byte_strings_are_compared_and_copied() {
    assert!(bytes_equal(&vec![1, 2, 3], &vec![1, 2, 3]));
    assert!(bytes_equal(&Vec::new(), &Vec::new()));
    assert!(!bytes_equal(&vec![1, 2, 3], &vec![1, 2, 4]));
    assert!(!bytes_equal(&vec![1, 2, 3], &vec![1, 2]));
    assert!(h256_equal(&[5u8; 32], &[5u8; 32]));
    let mut other = [5u8; 32];
    other[31] = 6;
    assert!(!h256_equal(&[5u8; 32], &other));
    assert_eq!(clone_bytes(&vec![9, 8, 7]), vec![9, 8, 7]);
    assert_eq!(clone_byte_strings(&vec![vec![1], vec![], vec![2, 3]]), vec![vec![1], vec![], vec![2, 3]]);
}

#[test]
fn errors_are_copied_and_wrapped() {
    let wrapped = GossipMessageError::from(ClientError::BlockBodyNotFound([3u8; 32]));
    assert!(matches!(
        wrapped.duplicate(),
        GossipMessageError::Client(ClientError::BlockBodyNotFound(hash)) if hash == [3u8; 32]
    ));
    let backend = ClientError::Backend(String::from("io"));
    assert!(matches!(backend.duplicate(), ClientError::Backend(message) if message == "io"));
    assert!(matches!(
        GossipMessageError::InvalidExtrinsicIndex { index: 4, max: 2 }.duplicate(),
        GossipMessageError::InvalidExtrinsicIndex { index: 4, max: 2 }
    ));
    assert!(matches!(
        GossipMessageError::RuntimeApi(String::from("api")).duplicate(),
        GossipMessageError::RuntimeApi(message) if message == "api"
    ));
    assert!(matches!(
        duplicate_verdict(&Ok(Action::RebroadcastBundle)),
        Ok(Action::RebroadcastBundle)
    ));
    assert!(matches!(
        duplicate_verdict(&Err(GossipMessageError::SendError)),
        Err(GossipMessageError::SendError)
    ));
}
