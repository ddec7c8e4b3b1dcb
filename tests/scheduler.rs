use zkm_sdk::error::ZKMProverError;
use zkm_sdk::local::{complete_result, deadline_passed, wrap_decision, LocalProver, Receipt, WrapDecision, WrappedProof};
use zkm_sdk::prover::{ProverInput, ProverResult};

fn input() -> ProverInput {
    ProverInput::new(vec![0x7f, b'E', b'L', b'F'], 65536, false, false)
}

fn result_with_proof(proof: &[u8]) -> ProverResult {
    let mut r = ProverResult::default();
    r.total_steps = 150000;
    r.proof_with_public_inputs = proof.to_vec();
    r
}

#[test]
fn pending_job_yields_nothing_yet() {
    let mut p = LocalProver::new("/tmp/keys");
    let id = p.request_proof(&input()).unwrap();
    p.wait_begin(&id).unwrap();
    assert!(matches!(p.wait_poll(&id), Ok(None)));
}

#[test]
fn result_reaches_every_waiter() {
    let mut p = LocalProver::new("/tmp/keys");
    let id = p.request_proof(&input()).unwrap();
    p.wait_begin(&id).unwrap();
    p.wait_begin(&id).unwrap();
    p.record_result(&id, Ok(result_with_proof(&[1, 2, 3]))).unwrap();
    let first = p.wait_poll(&id).unwrap().unwrap();
    assert_eq!(first.proof_with_public_inputs, vec![1, 2, 3]);
    assert_eq!(first.total_steps, 150000);
    // the job has handed its result out: a new await fails
    assert!(matches!(p.wait_begin(&id), Err(ZKMProverError::JobNotFound)));
    let second = p.wait_poll(&id).unwrap().unwrap();
    assert_eq!(second.proof_with_public_inputs, vec![1, 2, 3]);
    assert_eq!(second.total_steps, 150000);
    // both waiters served: the job is gone
    assert!(matches!(p.wait_poll(&id), Err(ZKMProverError::JobNotFound)));
    assert!(matches!(p.wait_begin(&id), Err(ZKMProverError::JobNotFound)));
}

#[test]
fn result_is_written_once() {
    let mut p = LocalProver::new("/tmp/keys");
    let id = p.request_proof(&input()).unwrap();
    p.record_result(&id, Ok(result_with_proof(&[1]))).unwrap();
    assert!(matches!(p.record_result(&id, Ok(result_with_proof(&[2]))), Err(ZKMProverError::JobAlreadyDone)));
    p.wait_begin(&id).unwrap();
    assert_eq!(p.wait_poll(&id).unwrap().unwrap().proof_with_public_inputs, vec![1]);
}

#[test]
fn unknown_job_is_an_error() {
    let mut p = LocalProver::new("/tmp/keys");
    let id = "no-such-job".to_string();
    assert!(matches!(p.wait_begin(&id), Err(ZKMProverError::JobNotFound)));
    assert!(matches!(p.wait_poll(&id), Err(ZKMProverError::JobNotFound)));
    assert!(matches!(p.record_result(&id, Ok(ProverResult::default())), Err(ZKMProverError::JobNotFound)));
}

#[test]
fn duplicate_identifier_is_refused() {
    let mut p = LocalProver::new("/tmp/keys");
    p.submit("job-1".to_string(), &input()).unwrap();
    assert!(matches!(p.submit("job-1".to_string(), &input()), Err(ZKMProverError::DuplicateJob)));
    p.submit("job-2".to_string(), &input()).unwrap();
}

#[test]
fn fresh_identifiers_differ() {
    let mut p = LocalProver::new("/tmp/keys");
    let a = p.request_proof(&input()).unwrap();
    let b = p.request_proof(&input()).unwrap();
    assert_ne!(a, b);
    assert_eq!(a.len(), 36);
}

#[test]
fn abandoning_keeps_the_job() {
    let mut p = LocalProver::new("/tmp/keys");
    let id = p.request_proof(&input()).unwrap();
    p.wait_begin(&id).unwrap();
    p.wait_abandon(&id);
    assert!(matches!(p.wait_poll(&id), Err(ZKMProverError::JobNotFound)));
    p.record_result(&id, Ok(result_with_proof(&[4]))).unwrap();
    p.wait_begin(&id).unwrap();
    assert_eq!(p.wait_poll(&id).unwrap().unwrap().proof_with_public_inputs, vec![4]);
}

#[test]
fn deadline() {
    assert!(!deadline_passed(10, None));
    assert!(!deadline_passed(10, Some(10)));
    assert!(deadline_passed(11, Some(10)));
}

#[test]
fn wrap_decisions() {
    let mut i = input();
    assert_eq!(wrap_decision(&i, 1), WrapDecision::SingleSegment);
    assert_eq!(wrap_decision(&i, 3), WrapDecision::Wrap { setup: false });
    i.snark_setup = true;
    assert_eq!(wrap_decision(&i, 3), WrapDecision::Wrap { setup: true });
    i.composite_proof = true;
    assert_eq!(wrap_decision(&i, 3), WrapDecision::Composite);
    i.execute_only = true;
    assert_eq!(wrap_decision(&i, 3), WrapDecision::ExecuteOnly);
}

#[test]
fn completed_results() {
    let mut base = result_with_proof(&[9]);
    base.solidity_verifier = vec![1];
    base.stark_proof = vec![2];
    let r = complete_result(base, WrapDecision::ExecuteOnly, None, None).unwrap();
    assert!(r.proof_with_public_inputs.is_empty() && r.stark_proof.is_empty() && r.solidity_verifier.is_empty());
    let w = WrappedProof { stark_proof: vec![3], proof_with_public_inputs: vec![4], public_values: vec![5] };
    let rc = Receipt { receipt: vec![6], elf_id: vec![7] };
    let r = complete_result(ProverResult::default(), WrapDecision::Wrap { setup: false }, Some(Ok(w)), Some(rc))
        .unwrap();
    assert_eq!((r.stark_proof, r.proof_with_public_inputs, r.public_values), (vec![3], vec![4], vec![5]));
    assert_eq!((r.receipt, r.elf_id), (vec![6], vec![7]));
    let r = complete_result(ProverResult::default(), WrapDecision::SingleSegment, None, None).unwrap();
    assert!(r.proof_with_public_inputs.is_empty());
    let failed = complete_result(
        ProverResult::default(),
        WrapDecision::Wrap { setup: true },
        Some(Err("groth16 failed".to_string())),
        None,
    );
    assert_eq!(failed.err(), Some("groth16 failed".to_string()));
}

#[test]
fn backend_failure_reaches_every_waiter() {
    let mut p = LocalProver::new("/tmp/keys");
    let id = p.request_proof(&input()).unwrap();
    p.wait_begin(&id).unwrap();
    p.wait_begin(&id).unwrap();
    p.record_result(&id, Err("segment 2 failed".to_string())).unwrap();
    for _ in 0..2 {
        assert_eq!(p.wait_poll(&id).err(), Some(ZKMProverError::ProvingError("segment 2 failed".to_string())));
    }
    assert!(matches!(p.wait_poll(&id), Err(ZKMProverError::JobNotFound)));
}

#[test]
fn empty_table_always_accepts_a_submission() {
    let mut p = LocalProver::new("/tmp/keys");
    assert!(p.request_proof(&input()).is_ok());
}
