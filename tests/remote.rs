use zkm_sdk::error::{ConfigField, ZKMProverError};
use zkm_sdk::network::{
    build_request, decode_step, pending_downloads, poll_error, signing_payload, success_result, attach_artifact,
    Artifact, GetStatusResponse, NetworkProver, PollAction, RemoteWait, Step, STATUS_COMPUTING, STATUS_SUCCESS,
};
use zkm_sdk::prover::{ClientCfg, ProverInput};

const KEY: &str = "4c0883a69102937d6231471b5dbb6204fe5129617082792ae468d01a3f362318";

fn network_cfg() -> ClientCfg {
    ClientCfg {
        zkm_prover_type: "network".to_string(),
        endpoint: Some("https://prover.example:20002".to_string()),
        ca_cert_path: Some("".to_string()),
        cert_path: Some("".to_string()),
        key_path: Some("".to_string()),
        domain_name: Some("stage".to_string()),
        proof_network_privkey: Some(KEY.to_string()),
    }
}

fn response(status: i32) -> GetStatusResponse {
    GetStatusResponse {
        proof_id: "job".to_string(),
        status,
        step: 6,
        output_stream: vec![1],
        proof_with_public_inputs: vec![2, 2],
        stark_proof_url: "http://blobs/stark".to_string(),
        solidity_verifier_url: "".to_string(),
        public_values_url: "http://blobs/pv".to_string(),
        total_steps: 1234,
        receipt: vec![3],
        elf_id: vec![4],
    }
}

#[test]
fn poll_sequence_ends_in_populated_result() {
    let mut w = RemoteWait::new(1000);
    let steps = [(0, Step::Init, 1000u64), (1, Step::InSplit, 2000), (2, Step::InProve, 5000), (3, Step::InAgg, 6000), (5, Step::InFinal, 7000), (6, Step::End, 8000)];
    for (wire, step, now) in steps {
        assert_eq!(w.on_status(now, STATUS_COMPUTING, wire), PollAction::Continue { step });
    }
    let action = w.on_status(9000, STATUS_SUCCESS, 6);
    assert_eq!(action, PollAction::Finished { split_cost_ms: 3000 });
    let resp = response(STATUS_SUCCESS);
    let mut result = success_result(&resp, 3000);
    assert_eq!(result.total_steps, 1234);
    assert_eq!(result.split_cost, 3000);
    assert_eq!(result.proof_with_public_inputs, vec![2, 2]);
    assert_eq!(result.receipt, vec![3]);
    assert_eq!(result.elf_id, vec![4]);
    let downloads = pending_downloads(&resp);
    assert_eq!(
        downloads,
        vec![(Artifact::StarkProof, "http://blobs/stark".to_string()), (Artifact::PublicValues, "http://blobs/pv".to_string())]
    );
    attach_artifact(&mut result, Artifact::StarkProof, vec![8]);
    attach_artifact(&mut result, Artifact::PublicValues, vec![9]);
    assert_eq!(result.stark_proof, vec![8]);
    assert_eq!(result.public_values, vec![9]);
    assert!(result.solidity_verifier.is_empty());
}

#[test]
fn unknown_status_is_an_error() {
    let mut w = RemoteWait::new(0);
    let action = w.on_status(10, 99, 0);
    assert_eq!(action, PollAction::Failed { error_code: 99, unknown_step: false });
    assert_eq!(poll_error(99, false), ZKMProverError::RemoteFailure(99));
}

#[test]
fn unknown_step_is_an_error() {
    let mut w = RemoteWait::new(0);
    assert_eq!(w.on_status(10, STATUS_COMPUTING, 42), PollAction::Failed { error_code: 42, unknown_step: true });
    assert_eq!(poll_error(42, true), ZKMProverError::UnknownStep(42));
    assert_eq!(decode_step(4), Some(Step::InAggAll));
    assert_eq!(decode_step(-1), None);
}

#[test]
fn remote_timeout() {
    let w = RemoteWait::new(1000);
    assert!(!w.timed_out(5000, None));
    assert!(!w.timed_out(2000, Some(1000)));
    assert!(w.timed_out(2001, Some(1000)));
}

#[test]
fn payload_text() {
    let id = "4d1c-job".to_string();
    assert_eq!(signing_payload(&id, None, 65536), "4d1c-job&65536");
    assert_eq!(signing_payload(&id, Some(7), 0), "4d1c-job&7&0");
    assert_eq!(signing_payload(&id, Some(u64::MAX), u32::MAX), "4d1c-job&18446744073709551615&4294967295");
    assert_eq!(signing_payload(&id, None, 1090), "4d1c-job&1090");
}

#[test]
fn signed_request() {
    let prover = NetworkProver::new(&network_cfg()).unwrap();
    assert!(prover.tls.is_none());
    let mut input = ProverInput::new(vec![1, 2, 3], 65536, false, false);
    input.public_inputstream = vec![4];
    input.receipts = vec![vec![5]];
    let req = prover.signed_request("job-1".to_string(), &input).unwrap();
    assert_eq!(req.proof_id, "job-1");
    assert_eq!(req.elf_data, vec![1, 2, 3]);
    assert_eq!(req.seg_size, 65536);
    assert_eq!(req.public_input_stream, vec![4]);
    assert_eq!(req.receipt, vec![vec![5]]);
    assert_eq!(req.signature.len(), 130);
    let again = prover.signed_request("job-1".to_string(), &input).unwrap();
    assert_eq!(req.signature, again.signature);
    let other = prover.signed_request("job-2".to_string(), &input).unwrap();
    assert_ne!(req.signature, other.signature);
    let fresh = prover.request_proof(&input).unwrap();
    assert_eq!(fresh.proof_id.len(), 36);
    assert_eq!(fresh.signature.len(), 130);
    assert_eq!(fresh.elf_data, vec![1, 2, 3]);
}

#[test]
fn bad_key_is_a_configuration_error() {
    let mut cfg = network_cfg();
    cfg.proof_network_privkey = Some("not-hex".to_string());
    assert!(matches!(NetworkProver::new(&cfg), Err(ZKMProverError::InvalidConfig(ConfigField::PrivateKey))));
    let mut cfg = network_cfg();
    cfg.proof_network_privkey = Some("00".repeat(32));
    assert!(matches!(NetworkProver::new(&cfg), Err(ZKMProverError::InvalidConfig(ConfigField::PrivateKey))));
}

#[test]
fn bad_key_cannot_sign() {
    let prover = NetworkProver { endpoint: "http://prover".to_string(), tls: None, private_key: "not-hex".to_string() };
    let mut req = build_request("job".to_string(), &ProverInput::new(vec![], 1, false, false));
    assert_eq!(prover.sign_ecdsa(&mut req), Err(ZKMProverError::SigningFailed));
    assert!(req.signature.is_empty());
}

#[test]
fn sign_sets_signature() {
    let prover = NetworkProver::new(&network_cfg()).unwrap();
    let mut req = build_request("job".to_string(), &ProverInput::new(vec![], 1, false, false));
    req.block_no = Some(42);
    assert_eq!(prover.sign_ecdsa(&mut req), Ok(()));
    assert_eq!(req.signature.len(), 130);
    assert_eq!(req.block_no, Some(42));
}

#[test]
fn missing_settings() {
    let mut cfg = network_cfg();
    cfg.endpoint = None;
    assert!(matches!(NetworkProver::new(&cfg), Err(ZKMProverError::MissingConfig(ConfigField::Endpoint))));
    let mut cfg = network_cfg();
    cfg.proof_network_privkey = Some("".to_string());
    assert!(matches!(NetworkProver::new(&cfg), Err(ZKMProverError::MissingConfig(ConfigField::PrivateKey))));
    let mut cfg = network_cfg();
    cfg.ca_cert_path = Some("/certs/ca.pem".to_string());
    cfg.domain_name = None;
    assert!(matches!(NetworkProver::new(&cfg), Err(ZKMProverError::MissingConfig(ConfigField::DomainName))));
    cfg.domain_name = Some("stage".to_string());
    let p = NetworkProver::new(&cfg).unwrap();
    assert_eq!(p.tls.unwrap().ca_cert_path, "/certs/ca.pem");
}

#[test]
fn network_setup_is_unsupported() {
    let prover = NetworkProver::new(&network_cfg()).unwrap();
    assert_eq!(prover.setup_and_generate_sol_verifier(), Err(ZKMProverError::Unsupported));
}
