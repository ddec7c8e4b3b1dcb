use sha2::{Digest, Sha256};
use zkm_sdk::client::{is_local_prover, names_local, needs_key_setup, ProverClient, ProverMode};
use zkm_sdk::error::{ConfigField, ZKMProverError};
use zkm_sdk::guest::{Data, DataId, MemAllocVecInput, Sha2GoInput, Sha2RustInput};
use zkm_sdk::input::GuestInput;
use zkm_sdk::prover::{ClientCfg, ProverInput, ProverResult};
use zkm_sdk::public_inputs::{PublicInputs, Roots};

fn cfg(mode: &str) -> ClientCfg {
    ClientCfg {
        zkm_prover_type: mode.to_string(),
        endpoint: Some("http://prover".to_string()),
        ca_cert_path: Some("".to_string()),
        cert_path: Some("".to_string()),
        key_path: Some("/keys".to_string()),
        domain_name: None,
        proof_network_privkey: Some("4c0883a69102937d6231471b5dbb6204fe5129617082792ae468d01a3f362318".to_string()),
    }
}

fn public_values(userdata: Vec<u8>) -> PublicInputs {
    PublicInputs { roots_before: Roots { root: vec![1] }, roots_after: Roots { root: vec![2] }, userdata }
}

#[test]
fn prover_mode_names() {
    assert!(is_local_prover("local"));
    assert!(is_local_prover("LoCaL"));
    assert!(!is_local_prover("network"));
    assert!(!is_local_prover("locale"));
    assert!(names_local("local"));
    assert!(!names_local("LOCAL"));
}

#[test]
fn construction_selects_mode() {
    assert_eq!(ProverClient::new(&cfg("local")).unwrap().prover_mode(), ProverMode::Local);
    assert_eq!(ProverClient::new(&cfg("network")).unwrap().prover_mode(), ProverMode::Network);
    assert!(matches!(ProverClient::new(&cfg("remote")), Err(ZKMProverError::InvalidProverType)));
    let mut c = cfg("local");
    c.key_path = None;
    assert!(matches!(ProverClient::new(&c), Err(ZKMProverError::MissingConfig(ConfigField::KeyPath))));
}

#[test]
fn empty_wrapped_proof_is_a_segment_size_error() {
    let input = ProverInput::new(vec![1], 65536, false, false);
    let local = ProverClient::local("/keys");
    let r = local.check_outcome(&input, Ok(Some(ProverResult::default())));
    assert!(matches!(r, Err(ZKMProverError::SegSizeTooBig)));
    let network = ProverClient::network(&cfg("network")).unwrap();
    let r = network.check_outcome(&input, Ok(Some(ProverResult::default())));
    assert!(matches!(r, Err(ZKMProverError::SegSizeOutOfRange)));
    let r = local.process_proof_results(&ProverResult::default(), &input, public_values(vec![]));
    assert!(matches!(r, Err(ZKMProverError::SegSizeTooBig)));
}

#[test]
fn outcome_checks() {
    let local = ProverClient::local("/keys");
    let exec = ProverInput::new(vec![1], 65536, true, false);
    assert!(local.check_outcome(&exec, Ok(Some(ProverResult::default()))).is_ok());
    assert!(matches!(local.check_outcome(&exec, Ok(None)), Err(ZKMProverError::ProvingResultNone)));
    assert_eq!(local.check_outcome(&exec, Err("boom".to_string())).err(), Some(ZKMProverError::ProvingError("boom".to_string())));
}

#[test]
fn artifacts_for_local_and_network() {
    let mut input = ProverInput::new(vec![1], 65536, false, false);
    input.public_inputstream = vec![3, 1, 4];
    input.proof_results_path = "../contracts".to_string();
    let commitment = Sha256::digest([3u8, 1, 4]).to_vec();
    let mut result = ProverResult::default();
    result.proof_with_public_inputs = vec![7, 7];
    result.solidity_verifier = vec![8];
    let local = ProverClient::local("/keys");
    let a = local.process_proof_results(&result, &input, public_values(commitment.clone())).unwrap();
    assert_eq!(a.verifier_dir, "../contracts/verifier");
    assert_eq!(a.proof_with_public_inputs, vec![7, 7]);
    assert_eq!(a.public_inputs.userdata, vec![3, 1, 4]);
    assert!(a.contract_dir.is_none());
    let network = ProverClient::network(&cfg("network")).unwrap();
    let a = network.process_proof_results(&result, &input, public_values(commitment)).unwrap();
    assert_eq!(a.contract_dir, Some("../contracts/src".to_string()));
    assert_eq!(a.solidity_verifier, vec![8]);
    let r = network.process_proof_results(&result, &input, public_values(vec![0; 32]));
    assert!(matches!(r, Err(ZKMProverError::PublicInputsMismatch)));
}

#[test]
fn empty_public_input_persists_zero_userdata() {
    let input = ProverInput::new(vec![1], 65536, false, false);
    let mut result = ProverResult::default();
    result.proof_with_public_inputs = vec![1];
    let a = ProverClient::local("/keys").process_proof_results(&result, &input, public_values(vec![5; 32])).unwrap();
    assert_eq!(a.public_inputs.userdata, vec![0u8; 32]);
}

#[test]
fn guest_output_check() {
    let c = ProverClient::local("/keys");
    let mut r = ProverResult::default();
    assert_eq!(c.print_guest_execution_output(true, &r), Err(ZKMProverError::OutputTooShort));
    assert_eq!(c.print_guest_execution_output(false, &r), Ok(()));
    r.output_stream = vec![1];
    assert_eq!(c.print_guest_execution_output(true, &r), Ok(()));
}

#[test]
fn key_setup_needed_unless_both_keys_present() {
    assert!(!needs_key_setup(true, true));
    assert!(needs_key_setup(true, false));
    assert!(needs_key_setup(false, true));
    assert!(needs_key_setup(false, false));
}

#[test]
fn guest_input_round_trip() {
    let mut g = GuestInput::new();
    assert!(g.buffer.is_empty());
    g.write_slice(&[1, 2, 3]);
    g.write_vec(vec![4, 5]);
    let mut a = [0u8; 3];
    g.read_slice(&mut a);
    assert_eq!(a, [1, 2, 3]);
    let mut b = [0u8; 2];
    g.read_slice(&mut b);
    assert_eq!(b, [4, 5]);
    assert_eq!(g.ptr, 2);
    let f = GuestInput::from(&[9]);
    assert_eq!(f.buffer, vec![vec![9]]);
    assert_eq!(f.ptr, 0);
}

#[test]
fn guest_input_encoding() {
    let mut input = ProverInput::new(vec![], 0, false, false);
    input.set_guest_input(vec![vec![1, 2], vec![]]);
    let mut expected = vec![2u8, 0, 0, 0, 0, 0, 0, 0];
    expected.extend_from_slice(&[2, 0, 0, 0, 0, 0, 0, 0, 1, 2]);
    expected.extend_from_slice(&[0, 0, 0, 0, 0, 0, 0, 0]);
    assert_eq!(input.private_inputstream, expected);
    input.set_elf(&[0x7f, 0x45]);
    assert_eq!(input.elf, vec![0x7f, 0x45]);
}

#[test]
fn sha2_rust_inputs() {
    let mut input = ProverInput::new(vec![], 0, false, false);
    Sha2RustInput.process(&mut input);
    let message = vec![5u8; 1024];
    let mut public = vec![32u8, 0, 0, 0, 0, 0, 0, 0];
    public.extend_from_slice(&Sha256::digest(&message));
    assert_eq!(input.public_inputstream, public);
    assert_eq!(input.private_inputstream.len(), 8 + 1024);
    assert_eq!(&input.private_inputstream[..8], &[0, 4, 0, 0, 0, 0, 0, 0]);
    let before = input.private_inputstream.clone();
    MemAllocVecInput.process(&mut input);
    assert_eq!(input.private_inputstream, before);
}

#[test]
fn sample_record() {
    let d = Data::new();
    assert_eq!(d.input1, [1, 2, 3, 4, 5, 6, 7, 8, 9, 10]);
    assert_eq!(d.input4, 0x1122);
    assert_eq!(d.input8, 0x1122334455);
    assert_eq!(d.input9, -1);
    assert_eq!(d.input10, vec![2, 3]);
    assert_eq!(d.input11, DataId::TYPE3);
    assert_eq!(d.input12, "hello");
}

#[test]
fn sha2_go_record() {
    let d = Sha2GoInput.record("0a0BfF", "hello-world").unwrap();
    assert_eq!(d.input10, vec![0x0a, 0x0b, 0xff]);
    assert_eq!(d.input12, "hello-world");
    assert_eq!(d.input2, 0x11);
    assert!(matches!(Sha2GoInput.record("abc", "x"), Err(ZKMProverError::InvalidHex)));
    assert!(matches!(Sha2GoInput.record("0g", "x"), Err(ZKMProverError::InvalidHex)));
}
