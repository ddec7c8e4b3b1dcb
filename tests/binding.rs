use sha2::{Digest, Sha256};
use zkm_sdk::error::ZKMProverError;
use zkm_sdk::public_inputs::{bind_userdata, update_public_inputs_with_bincode, PublicInputs, Roots};

fn public_values(userdata: Vec<u8>) -> PublicInputs {
    PublicInputs {
        roots_before: Roots { root: vec![1, 2, 3] },
        roots_after: Roots { root: vec![4, 5, 6] },
        userdata,
    }
}

fn digest(data: &[u8]) -> Vec<u8> {
    Sha256::digest(data).to_vec()
}

#[test]
fn matching_commitment_publishes_literal_input() {
    let input = vec![9u8, 8, 7];
    let out = update_public_inputs_with_bincode(input.clone(), public_values(digest(&input))).unwrap();
    assert_eq!(out.userdata, input);
    assert_eq!(out.roots_before.root, vec![1, 2, 3]);
    assert_eq!(out.roots_after.root, vec![4, 5, 6]);
}

#[test]
fn empty_input_publishes_zero_sentinel() {
    let out = update_public_inputs_with_bincode(vec![], public_values(vec![0xAB; 32])).unwrap();
    assert_eq!(out.userdata, vec![0u8; 32]);
}

#[test]
fn mismatched_commitment_is_refused() {
    let r = update_public_inputs_with_bincode(vec![1, 2], public_values(digest(&[1, 3])));
    assert!(matches!(r, Err(ZKMProverError::PublicInputsMismatch)));
}

#[test]
fn digest_is_computed_not_copied() {
    // A commitment equal to the input itself (not to its digest) must not bind.
    let input = vec![7u8; 32];
    let r = update_public_inputs_with_bincode(input.clone(), public_values(input));
    assert!(matches!(r, Err(ZKMProverError::PublicInputsMismatch)));
}

#[test]
fn bind_with_given_digest() {
    let out = bind_userdata(vec![5, 5], &[1, 2, 3], public_values(vec![1, 2, 3])).unwrap();
    assert_eq!(out.userdata, vec![5, 5]);
    let out = bind_userdata(vec![], &[1, 2, 3], public_values(vec![1, 2])).unwrap();
    assert_eq!(out.userdata, vec![0u8; 32]);
    let r = bind_userdata(vec![5], &[1, 2, 3], public_values(vec![1, 2]));
    assert!(matches!(r, Err(ZKMProverError::PublicInputsMismatch)));
}

#[test]
fn empty_input_matching_its_digest_publishes_empty_input() {
    let out = update_public_inputs_with_bincode(vec![], public_values(digest(&[]))).unwrap();
    assert!(out.userdata.is_empty());
}
