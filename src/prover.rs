use vstd::prelude::*;

use crate::bytes::{chunks_view, copy_bytes, copy_chunks, copy_string};
use crate::codec::{encode_chunks, spec_encode_chunks};

verus! {

/// How the client reaches a prover: the prover mode (`local` or `network`)
/// and, for the network, the endpoint and the transport and signing
/// credentials.
#[derive(Debug, Clone)]
pub struct ClientCfg {
    pub zkm_prover_type: String,
    pub endpoint: Option<String>,
    pub ca_cert_path: Option<String>,
    pub cert_path: Option<String>,
    pub key_path: Option<String>,
    pub domain_name: Option<String>,
    pub proof_network_privkey: Option<String>,
}

/// A proving job as the caller describes it.
#[derive(Debug, Clone)]
pub struct ProverInput {
    pub elf: Vec<u8>,
    pub public_inputstream: Vec<u8>,
    pub private_inputstream: Vec<u8>,
    /// Steps per segment; zero keeps the whole run in one segment.
    pub seg_size: u32,
    pub execute_only: bool,
    pub snark_setup: bool,
    /// Ask for a composable receipt instead of a wrapped proof.
    pub composite_proof: bool,
    /// Inputs of the programs whose receipts are carried as assumptions.
    pub receipt_inputs: Vec<Vec<u8>>,
    pub receipts: Vec<Vec<u8>>,
    pub proof_results_path: String,
}

pub struct ProverInputView {
    pub elf: Seq<u8>,
    pub public_inputstream: Seq<u8>,
    pub private_inputstream: Seq<u8>,
    pub seg_size: u32,
    pub execute_only: bool,
    pub snark_setup: bool,
    pub composite_proof: bool,
    pub receipt_inputs: Seq<Seq<u8>>,
    pub receipts: Seq<Seq<u8>>,
    pub proof_results_path: Seq<char>,
}

impl View for ProverInput {
    type V = ProverInputView;

    open spec fn view(&self) -> ProverInputView {
        ProverInputView {
            elf: self.elf@,
            public_inputstream: self.public_inputstream@,
            private_inputstream: self.private_inputstream@,
            seg_size: self.seg_size,
            execute_only: self.execute_only,
            snark_setup: self.snark_setup,
            composite_proof: self.composite_proof,
            receipt_inputs: chunks_view(self.receipt_inputs@),
            receipts: chunks_view(self.receipts@),
            proof_results_path: self.proof_results_path@,
        }
    }
}

/// What a finished job hands back.
#[derive(Debug, Clone)]
pub struct ProverResult {
    pub total_steps: u64,
    pub split_cost: u64,
    pub output_stream: Vec<u8>,
    pub proof_with_public_inputs: Vec<u8>,
    pub stark_proof: Vec<u8>,
    pub solidity_verifier: Vec<u8>,
    pub public_values: Vec<u8>,
    pub receipt: Vec<u8>,
    pub elf_id: Vec<u8>,
}

pub struct ProverResultView {
    pub total_steps: u64,
    pub split_cost: u64,
    pub output_stream: Seq<u8>,
    pub proof_with_public_inputs: Seq<u8>,
    pub stark_proof: Seq<u8>,
    pub solidity_verifier: Seq<u8>,
    pub public_values: Seq<u8>,
    pub receipt: Seq<u8>,
    pub elf_id: Seq<u8>,
}

impl View for ProverResult {
    type V = ProverResultView;

    open spec fn view(&self) -> ProverResultView {
        ProverResultView {
            total_steps: self.total_steps,
            split_cost: self.split_cost,
            output_stream: self.output_stream@,
            proof_with_public_inputs: self.proof_with_public_inputs@,
            stark_proof: self.stark_proof@,
            solidity_verifier: self.solidity_verifier@,
            public_values: self.public_values@,
            receipt: self.receipt@,
            elf_id: self.elf_id@,
        }
    }
}

/// The result of a job that has produced nothing yet.
pub open spec fn empty_result_view() -> ProverResultView {
    ProverResultView {
        total_steps: 0,
        split_cost: 0,
        output_stream: Seq::empty(),
        proof_with_public_inputs: Seq::empty(),
        stark_proof: Seq::empty(),
        solidity_verifier: Seq::empty(),
        public_values: Seq::empty(),
        receipt: Seq::empty(),
        elf_id: Seq::empty(),
    }
}

impl Default for ProverResult {
    fn default() -> (r: ProverResult)
        ensures
            r@ == empty_result_view(),
    {
        ProverResult {
            total_steps: 0,
            split_cost: 0,
            output_stream: Vec::new(),
            proof_with_public_inputs: Vec::new(),
            stark_proof: Vec::new(),
            solidity_verifier: Vec::new(),
            public_values: Vec::new(),
            receipt: Vec::new(),
            elf_id: Vec::new(),
        }
    }
}

impl Default for ProverInput {
    fn default() -> (r: ProverInput)
        ensures
            r@.elf.len() == 0,
            r@.public_inputstream.len() == 0,
            r@.private_inputstream.len() == 0,
            r@.seg_size == 0,
            !r@.execute_only,
            !r@.snark_setup,
            !r@.composite_proof,
            r@.receipt_inputs.len() == 0,
            r@.receipts.len() == 0,
            r@.proof_results_path.len() == 0,
    {
        ProverInput::new(Vec::new(), 0, false, false)
    }
}

impl ProverResult {
    /// An independent copy of the result.
    pub fn duplicate(&self) -> (r: ProverResult)
        ensures
            r@ == self@,
    {
        ProverResult {
            total_steps: self.total_steps,
            split_cost: self.split_cost,
            output_stream: copy_bytes(self.output_stream.as_slice()),
            proof_with_public_inputs: copy_bytes(self.proof_with_public_inputs.as_slice()),
            stark_proof: copy_bytes(self.stark_proof.as_slice()),
            solidity_verifier: copy_bytes(self.solidity_verifier.as_slice()),
            public_values: copy_bytes(self.public_values.as_slice()),
            receipt: copy_bytes(self.receipt.as_slice()),
            elf_id: copy_bytes(self.elf_id.as_slice()),
        }
    }
}

impl ProverInput {
    /// An input for `elf` with empty input streams, no receipts and the
    /// given segment size and flags.
    pub fn new(elf: Vec<u8>, seg_size: u32, execute_only: bool, snark_setup: bool) -> (r: ProverInput)
        ensures
            r@.elf == elf@,
            r@.public_inputstream.len() == 0,
            r@.private_inputstream.len() == 0,
            r@.seg_size == seg_size,
            r@.execute_only == execute_only,
            r@.snark_setup == snark_setup,
            !r@.composite_proof,
            r@.receipt_inputs.len() == 0,
            r@.receipts.len() == 0,
            r@.proof_results_path.len() == 0,
    {
        let r = ProverInput {
            elf,
            public_inputstream: Vec::new(),
            private_inputstream: Vec::new(),
            seg_size,
            execute_only,
            snark_setup,
            composite_proof: false,
            receipt_inputs: Vec::new(),
            receipts: Vec::new(),
            proof_results_path: String::new(),
        };
        assert(chunks_view(r.receipts@) =~= Seq::empty());
        assert(chunks_view(r.receipt_inputs@) =~= Seq::empty());
        r
    }

    /// An independent copy of the input.
    pub fn duplicate(&self) -> (r: ProverInput)
        ensures
            r@ == self@,
    {
        ProverInput {
            elf: copy_bytes(self.elf.as_slice()),
            public_inputstream: copy_bytes(self.public_inputstream.as_slice()),
            private_inputstream: copy_bytes(self.private_inputstream.as_slice()),
            seg_size: self.seg_size,
            execute_only: self.execute_only,
            snark_setup: self.snark_setup,
            composite_proof: self.composite_proof,
            receipt_inputs: copy_chunks(&self.receipt_inputs),
            receipts: copy_chunks(&self.receipts),
            proof_results_path: copy_string(&self.proof_results_path),
        }
    }

    /// Replace the program binary.
    pub fn set_elf(&mut self, elf: &[u8])
        ensures
            final(self)@ == (ProverInputView { elf: elf@, ..old(self)@ }),
    {
        self.elf = copy_bytes(elf);
    }

    /// Replace the private input stream with the encoding of `input`, a
    /// length-prefixed list of length-prefixed byte chunks.
    pub fn set_guest_input(&mut self, input: Vec<Vec<u8>>)
        ensures
            final(self)@ == (ProverInputView {
                private_inputstream: spec_encode_chunks(chunks_view(input@)),
                ..old(self)@
            }),
    {
        self.private_inputstream = encode_chunks(&input);
    }
}

} // verus!
