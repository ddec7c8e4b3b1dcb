use vstd::prelude::*;

use crate::bytes::{chunks_view, copy_bytes, copy_chunks, copy_string};
use crate::error::{ConfigField, ZKMProverError};
use crate::local::new_proof_id;
use crate::prover::{ClientCfg, ProverInput, ProverResult, ProverResultView};

verus! {

/// Wire value of the service's "success" status.
pub const STATUS_SUCCESS: i32 = 0;

/// Wire value of the service's "computing" status.
pub const STATUS_COMPUTING: i32 = 2;

/// Seconds the client sleeps between two polls.
pub const POLL_INTERVAL_SECS: u64 = 30;

/// Progress of a remote job while it is computing.
#[derive(Clone, Copy, Debug, PartialEq, Eq, Structural)]
pub enum Step {
    Init,
    InSplit,
    InProve,
    InAgg,
    InAggAll,
    InFinal,
    End,
}

/// The step a wire value stands for.
pub open spec fn spec_step(v: i32) -> Option<Step> {
    if v == 0 {
        Some(Step::Init)
    } else if v == 1 {
        Some(Step::InSplit)
    } else if v == 2 {
        Some(Step::InProve)
    } else if v == 3 {
        Some(Step::InAgg)
    } else if v == 4 {
        Some(Step::InAggAll)
    } else if v == 5 {
        Some(Step::InFinal)
    } else if v == 6 {
        Some(Step::End)
    } else {
        None
    }
}

/// Decode a step's wire value.
pub fn decode_step(v: i32) -> (r: Option<Step>)
    ensures
        r == spec_step(v),
{
    if v == 0 {
        Some(Step::Init)
    } else if v == 1 {
        Some(Step::InSplit)
    } else if v == 2 {
        Some(Step::InProve)
    } else if v == 3 {
        Some(Step::InAgg)
    } else if v == 4 {
        Some(Step::InAggAll)
    } else if v == 5 {
        Some(Step::InFinal)
    } else if v == 6 {
        Some(Step::End)
    } else {
        None
    }
}

/// What the client does after one status response.
#[derive(Clone, Copy, Debug, PartialEq, Eq, Structural)]
pub enum PollAction {
    /// The job is still computing at `step`: sleep, then poll again.
    Continue { step: Step },
    /// The job succeeded; `split_cost_ms` is the time the service spent
    /// splitting, as the client observed it.
    Finished { split_cost_ms: u64 },
    /// The job failed, or the service answered with something unknown.
    Failed { error_code: i32, unknown_step: bool },
}

/// The client's side of the poll loop of one remote job.
pub struct RemoteWait {
    pub started_ms: u64,
    pub last_step: i32,
    pub split_start_ms: u64,
    pub split_end_ms: u64,
}

pub open spec fn elapsed(from: u64, to: u64) -> u64 {
    if to >= from {
        (to - from) as u64
    } else {
        0
    }
}

impl RemoteWait {
    /// The loop of a job submitted at `now_ms`.
    pub fn new(now_ms: u64) -> (r: RemoteWait)
        ensures
            r == (RemoteWait {
                started_ms: now_ms,
                last_step: 0,
                split_start_ms: now_ms,
                split_end_ms: now_ms,
            }),
    {
        RemoteWait { started_ms: now_ms, last_step: 0, split_start_ms: now_ms, split_end_ms: now_ms }
    }

    /// Whether the caller's bound has passed at `now_ms`; the remote job is
    /// not cancelled either way.
    pub fn timed_out(&self, now_ms: u64, timeout_ms: Option<u64>) -> (r: bool)
        ensures
            r == match timeout_ms {
                Some(t) => elapsed(self.started_ms, now_ms) > t,
                None => false,
            },
    {
        let spent = if now_ms >= self.started_ms {
            now_ms - self.started_ms
        } else {
            0
        };
        crate::local::deadline_passed(spent, timeout_ms)
    }

    /// Take in one status response received at `now_ms`. While computing,
    /// the split phase is timed from the first splitting step after queuing
    /// to the first proving step after splitting.
    pub fn on_status(&mut self, now_ms: u64, status: i32, step: i32) -> (r: PollAction)
        ensures
            status == STATUS_COMPUTING ==> match spec_step(step) {
                Some(s) => r == PollAction::Continue { step: s } && final(self).last_step == step
                    && final(self).started_ms == old(self).started_ms
                    && final(self).split_start_ms == (if s == Step::InSplit && old(self).last_step == 0 {
                        now_ms
                    } else {
                        old(self).split_start_ms
                    }) && final(self).split_end_ms == (if s == Step::InProve && old(self).last_step
                        == 1 {
                        now_ms
                    } else {
                        old(self).split_end_ms
                    }),
                None => r == (PollAction::Failed { error_code: step, unknown_step: true })
                    && *final(self) == *old(self),
            },
            status == STATUS_SUCCESS ==> r == (PollAction::Finished {
                split_cost_ms: elapsed(old(self).split_start_ms, old(self).split_end_ms),
            }) && *final(self) == *old(self),
            status != STATUS_COMPUTING && status != STATUS_SUCCESS ==> r == (PollAction::Failed {
                error_code: status,
                unknown_step: false,
            }) && *final(self) == *old(self),
    {
        if status == STATUS_COMPUTING {
            match decode_step(step) {
                Some(s) => {
                    if s == Step::InSplit && self.last_step == 0 {
                        self.split_start_ms = now_ms;
                    }
                    if s == Step::InProve && self.last_step == 1 {
                        self.split_end_ms = now_ms;
                    }
                    self.last_step = step;
                    PollAction::Continue { step: s }
                },
                None => PollAction::Failed { error_code: step, unknown_step: true },
            }
        } else if status == STATUS_SUCCESS {
            let cost = if self.split_end_ms >= self.split_start_ms {
                self.split_end_ms - self.split_start_ms
            } else {
                0
            };
            PollAction::Finished { split_cost_ms: cost }
        } else {
            PollAction::Failed { error_code: status, unknown_step: false }
        }
    }
}

/// The error a failed poll surfaces to the caller.
pub fn poll_error(error_code: i32, unknown_step: bool) -> (r: ZKMProverError)
    ensures
        r == if unknown_step {
            ZKMProverError::UnknownStep(error_code)
        } else {
            ZKMProverError::RemoteFailure(error_code)
        },
{
    if unknown_step {
        ZKMProverError::UnknownStep(error_code)
    } else {
        ZKMProverError::RemoteFailure(error_code)
    }
}

/// A status response of the proving service.
pub struct GetStatusResponse {
    pub proof_id: String,
    pub status: i32,
    pub step: i32,
    pub output_stream: Vec<u8>,
    pub proof_with_public_inputs: Vec<u8>,
    pub stark_proof_url: String,
    pub solidity_verifier_url: String,
    pub public_values_url: String,
    pub total_steps: u64,
    pub receipt: Vec<u8>,
    pub elf_id: Vec<u8>,
}

/// A large artifact the service stores out of band.
#[derive(Clone, Copy, Debug, PartialEq, Eq, Structural)]
pub enum Artifact {
    StarkProof,
    SolidityVerifier,
    PublicValues,
}

/// The result of a successful job, before its large artifacts are fetched:
/// the inline fields of the response, the observed split cost, and empty
/// slots for the artifacts.
pub fn success_result(resp: &GetStatusResponse, split_cost_ms: u64) -> (r: ProverResult)
    ensures
        r@ == (ProverResultView {
            total_steps: resp.total_steps,
            split_cost: split_cost_ms,
            output_stream: resp.output_stream@,
            proof_with_public_inputs: resp.proof_with_public_inputs@,
            stark_proof: Seq::empty(),
            solidity_verifier: Seq::empty(),
            public_values: Seq::empty(),
            receipt: resp.receipt@,
            elf_id: resp.elf_id@,
        }),
{
    ProverResult {
        total_steps: resp.total_steps,
        split_cost: split_cost_ms,
        output_stream: copy_bytes(resp.output_stream.as_slice()),
        proof_with_public_inputs: copy_bytes(resp.proof_with_public_inputs.as_slice()),
        stark_proof: Vec::new(),
        solidity_verifier: Vec::new(),
        public_values: Vec::new(),
        receipt: copy_bytes(resp.receipt.as_slice()),
        elf_id: copy_bytes(resp.elf_id.as_slice()),
    }
}

/// The artifacts to fetch after success, in order: those whose URL is not
/// empty.
pub fn pending_downloads(resp: &GetStatusResponse) -> (r: Vec<(Artifact, String)>)
    ensures
        r@.len() <= 3,
        forall|i: int|
            0 <= i < r@.len() ==> (#[trigger] r@[i]).1@ == match r@[i].0 {
                Artifact::StarkProof => resp.stark_proof_url@,
                Artifact::SolidityVerifier => resp.solidity_verifier_url@,
                Artifact::PublicValues => resp.public_values_url@,
            },
        r@.map_values(|p: (Artifact, String)| p.0) == (if resp.stark_proof_url@.len() > 0 {
            seq![Artifact::StarkProof]
        } else {
            Seq::empty()
        }) + (if resp.solidity_verifier_url@.len() > 0 {
            seq![Artifact::SolidityVerifier]
        } else {
            Seq::empty()
        }) + (if resp.public_values_url@.len() > 0 {
            seq![Artifact::PublicValues]
        } else {
            Seq::empty()
        }),
{
    let mut r: Vec<(Artifact, String)> = Vec::new();
    let ghost mut kinds: Seq<Artifact> = Seq::empty();
    if !resp.stark_proof_url.as_str().is_empty() {
        r.push((Artifact::StarkProof, copy_string(&resp.stark_proof_url)));
    }
    let ghost k1 = r@.map_values(|p: (Artifact, String)| p.0);
    if !resp.solidity_verifier_url.as_str().is_empty() {
        r.push((Artifact::SolidityVerifier, copy_string(&resp.solidity_verifier_url)));
    }
    let ghost k2 = r@.map_values(|p: (Artifact, String)| p.0);
    if !resp.public_values_url.as_str().is_empty() {
        r.push((Artifact::PublicValues, copy_string(&resp.public_values_url)));
    }
    assert(r@.map_values(|p: (Artifact, String)| p.0) =~= (if resp.stark_proof_url@.len() > 0 {
        seq![Artifact::StarkProof]
    } else {
        Seq::empty()
    }) + (if resp.solidity_verifier_url@.len() > 0 {
        seq![Artifact::SolidityVerifier]
    } else {
        Seq::empty()
    }) + (if resp.public_values_url@.len() > 0 {
        seq![Artifact::PublicValues]
    } else {
        Seq::empty()
    }));
    r
}

/// Store a fetched artifact in its slot of the result.
pub fn attach_artifact(result: &mut ProverResult, kind: Artifact, content: Vec<u8>)
    ensures
        final(result)@ == match kind {
            Artifact::StarkProof => ProverResultView { stark_proof: content@, ..old(result)@ },
            Artifact::SolidityVerifier => ProverResultView {
                solidity_verifier: content@,
                ..old(result)@
            },
            Artifact::PublicValues => ProverResultView { public_values: content@, ..old(result)@ },
        },
{
    match kind {
        Artifact::StarkProof => result.stark_proof = content,
        Artifact::SolidityVerifier => result.solidity_verifier = content,
        Artifact::PublicValues => result.public_values = content,
    }
}

/// A job submission as the proving service receives it.
pub struct GenerateProofRequest {
    pub proof_id: String,
    pub elf_data: Vec<u8>,
    pub seg_size: u32,
    pub public_input_stream: Vec<u8>,
    pub private_input_stream: Vec<u8>,
    pub execute_only: bool,
    pub precompile: bool,
    pub receipt: Vec<Vec<u8>>,
    pub receipt_input: Vec<Vec<u8>>,
    pub signature: String,
    pub block_no: Option<u64>,
}

/// The submission of `input` under `proof_id`, not yet signed.
pub fn build_request(proof_id: String, input: &ProverInput) -> (r: GenerateProofRequest)
    ensures
        r.proof_id@ == proof_id@,
        r.elf_data@ == input@.elf,
        r.seg_size == input.seg_size,
        r.public_input_stream@ == input@.public_inputstream,
        r.private_input_stream@ == input@.private_inputstream,
        r.execute_only == input.execute_only,
        r.precompile == input.composite_proof,
        chunks_view(r.receipt@) == input@.receipts,
        chunks_view(r.receipt_input@) == input@.receipt_inputs,
        r.signature@.len() == 0,
        r.block_no.is_none(),
{
    GenerateProofRequest {
        proof_id,
        elf_data: copy_bytes(input.elf.as_slice()),
        seg_size: input.seg_size,
        public_input_stream: copy_bytes(input.public_inputstream.as_slice()),
        private_input_stream: copy_bytes(input.private_inputstream.as_slice()),
        execute_only: input.execute_only,
        precompile: input.composite_proof,
        receipt: copy_chunks(&input.receipts),
        receipt_input: copy_chunks(&input.receipt_inputs),
        signature: String::new(),
        block_no: None,
    }
}

pub open spec fn digit_char(d: nat) -> char {
    if d == 0 {
        '0'
    } else if d == 1 {
        '1'
    } else if d == 2 {
        '2'
    } else if d == 3 {
        '3'
    } else if d == 4 {
        '4'
    } else if d == 5 {
        '5'
    } else if d == 6 {
        '6'
    } else if d == 7 {
        '7'
    } else if d == 8 {
        '8'
    } else {
        '9'
    }
}

/// Decimal digits of `n`, without leading zeros.
pub open spec fn decimal(n: nat) -> Seq<char>
    decreases n,
{
    if n < 10 {
        seq![digit_char(n)]
    } else {
        decimal(n / 10).push(digit_char(n % 10))
    }
}

fn digit_str(d: u64) -> (r: &'static str)
    requires
        d < 10,
    ensures
        r@ == seq![digit_char(d as nat)],
{
    proof {
        reveal_strlit("0");
        reveal_strlit("1");
        reveal_strlit("2");
        reveal_strlit("3");
        reveal_strlit("4");
        reveal_strlit("5");
        reveal_strlit("6");
        reveal_strlit("7");
        reveal_strlit("8");
        reveal_strlit("9");
    }
    if d == 0 {
        assert("0"@ =~= seq!['0']);
        "0"
    } else if d == 1 {
        assert("1"@ =~= seq!['1']);
        "1"
    } else if d == 2 {
        assert("2"@ =~= seq!['2']);
        "2"
    } else if d == 3 {
        assert("3"@ =~= seq!['3']);
        "3"
    } else if d == 4 {
        assert("4"@ =~= seq!['4']);
        "4"
    } else if d == 5 {
        assert("5"@ =~= seq!['5']);
        "5"
    } else if d == 6 {
        assert("6"@ =~= seq!['6']);
        "6"
    } else if d == 7 {
        assert("7"@ =~= seq!['7']);
        "7"
    } else if d == 8 {
        assert("8"@ =~= seq!['8']);
        "8"
    } else {
        assert("9"@ =~= seq!['9']);
        "9"
    }
}

/// Append the decimal digits of `n` to `s`.
fn append_decimal(s: &mut String, n: u64)
    ensures
        final(s)@ == old(s)@ + decimal(n as nat),
    decreases n,
{
    if n >= 10 {
        append_decimal(s, n / 10);
    }
    s.append(digit_str(n % 10));
    assert(final(s)@ =~= old(s)@ + decimal(n as nat));
}

/// The canonical text a submission's signature covers: the job identifier,
/// the block number when there is one, and the segment size, joined by `&`.
pub open spec fn spec_signing_payload(proof_id: Seq<char>, block_no: Option<u64>, seg_size: u32) -> Seq<
    char,
> {
    match block_no {
        Some(b) => proof_id + seq!['&'] + decimal(b as nat) + seq!['&'] + decimal(seg_size as nat),
        None => proof_id + seq!['&'] + decimal(seg_size as nat),
    }
}

pub fn signing_payload(proof_id: &String, block_no: Option<u64>, seg_size: u32) -> (r: String)
    ensures
        r@ == spec_signing_payload(proof_id@, block_no, seg_size),
{
    proof {
        reveal_strlit("&");
    }
    let mut r = copy_string(proof_id);
    r.append("&");
    match block_no {
        Some(b) => {
            append_decimal(&mut r, b);
            r.append("&");
        },
        None => {},
    }
    append_decimal(&mut r, seg_size as u64);
    assert(r@ =~= spec_signing_payload(proof_id@, block_no, seg_size));
    r
}

/// The Ethereum personal-message signature of `message` under the secp256k1
/// key given in hex by `private_key`, as 130 hex digits; nothing when the key
/// does not parse or signing fails.
pub uninterp spec fn eth_signature_of(private_key: Seq<char>, message: Seq<char>) -> Option<
    Seq<char>,
>;

/// Whether a text is a hex secp256k1 private key.
pub uninterp spec fn wallet_key_valid(private_key: Seq<char>) -> bool;

/// Relies on `<LocalWallet as FromStr>::from_str`: whether the text is a
/// 32-byte hex key that secp256k1 accepts.
#[verifier::external_body]
fn key_parses(private_key: &str) -> (r: bool)
    ensures
        r == wallet_key_valid(private_key@),
{
    private_key.parse::<ethers::signers::LocalWallet>().is_ok()
}

/// Relies on ethers' `LocalWallet`: `FromStr` reads the hex private key, and
/// `sign_hash(hash_message(m))` is what its `Signer::sign_message` does
/// (deterministic RFC 6979 signing of the prefixed Keccak digest); the
/// signature's `Display` gives its hex form. `None` when the key does not
/// parse or signing fails.
#[verifier::external_body]
fn sign_message(private_key: &str, message: &str) -> (r: Option<String>)
    ensures
        opt_view(r) == eth_signature_of(private_key@, message@),
{
    match private_key.parse::<ethers::signers::LocalWallet>() {
        Ok(wallet) => match wallet.sign_hash(ethers::utils::hash_message(message)) {
            Ok(sig) => Some(sig.to_string()),
            Err(_) => None,
        },
        Err(_) => None,
    }
}

/// Transport security for the connection to the proving service.
pub struct TlsSettings {
    pub ca_cert_path: String,
    pub cert_path: String,
    pub key_path: String,
    pub domain_name: String,
}

/// The remote prover: where the service is, how to reach it, and the
/// credential that signs submissions.
pub struct NetworkProver {
    pub endpoint: String,
    pub tls: Option<TlsSettings>,
    /// Hex secp256k1 key that signs submissions.
    pub private_key: String,
}

pub open spec fn opt_view(o: Option<String>) -> Option<Seq<char>> {
    match o {
        Some(s) => Some(s@),
        None => None,
    }
}

/// The configuration error the network prover raises at construction, if
/// any: a missing setting, or a signing key that does not parse.
pub open spec fn network_config_error(cfg: &ClientCfg) -> Option<ZKMProverError> {
    match missing_network_setting(cfg) {
        Some(f) => Some(ZKMProverError::MissingConfig(f)),
        None => if wallet_key_valid(cfg.proof_network_privkey.unwrap()@) {
            None
        } else {
            Some(ZKMProverError::InvalidConfig(ConfigField::PrivateKey))
        },
    }
}

/// The first setting, in the order they are read, that the network prover
/// lacks: the certificate and key paths and the endpoint must be given, the
/// domain name too when a CA certificate path is set, and the signing key
/// must be given and not empty.
pub open spec fn missing_network_setting(cfg: &ClientCfg) -> Option<ConfigField> {
    if cfg.ca_cert_path.is_none() {
        Some(ConfigField::CaCertPath)
    } else if cfg.cert_path.is_none() {
        Some(ConfigField::CertPath)
    } else if cfg.key_path.is_none() {
        Some(ConfigField::KeyPath)
    } else if cfg.endpoint.is_none() {
        Some(ConfigField::Endpoint)
    } else if cfg.ca_cert_path.unwrap()@.len() > 0 && cfg.domain_name.is_none() {
        Some(ConfigField::DomainName)
    } else if cfg.proof_network_privkey.is_none() || cfg.proof_network_privkey.unwrap()@.len()
        == 0 {
        Some(ConfigField::PrivateKey)
    } else {
        None
    }
}

fn take_setting(o: &Option<String>, field: ConfigField) -> (r: Result<String, ZKMProverError>)
    ensures
        match o {
            Some(s) => r matches Ok(v) && v@ == s@,
            None => r == Err::<String, ZKMProverError>(ZKMProverError::MissingConfig(field)),
        },
{
    match o {
        Some(s) => Ok(copy_string(s)),
        None => Err(ZKMProverError::MissingConfig(field)),
    }
}

impl NetworkProver {
    /// The prover holds the endpoint and signing key of `cfg`, and transport
    /// settings exactly when `cfg` names a CA certificate.
    pub open spec fn built_from(&self, cfg: &ClientCfg) -> bool {
        &&& self.endpoint@ == cfg.endpoint.unwrap()@
        &&& self.private_key@ == cfg.proof_network_privkey.unwrap()@
        &&& if cfg.ca_cert_path.unwrap()@.len() == 0 {
            self.tls.is_none()
        } else {
            match self.tls {
                Some(t) => {
                    &&& t.ca_cert_path@ == cfg.ca_cert_path.unwrap()@
                    &&& t.cert_path@ == cfg.cert_path.unwrap()@
                    &&& t.key_path@ == cfg.key_path.unwrap()@
                    &&& t.domain_name@ == cfg.domain_name.unwrap()@
                },
                None => false,
            }
        }
    }

    /// Check the client configuration and take from it what the network
    /// prover needs. Transport security is used exactly when the CA
    /// certificate path is not empty.
    pub fn new(cfg: &ClientCfg) -> (r: Result<NetworkProver, ZKMProverError>)
        ensures
            match network_config_error(cfg) {
                Some(e) => r == Err::<NetworkProver, ZKMProverError>(e),
                None => r matches Ok(p) && p.built_from(cfg),
            },
    {
        let ca_cert_path = take_setting(&cfg.ca_cert_path, ConfigField::CaCertPath)?;
        let cert_path = take_setting(&cfg.cert_path, ConfigField::CertPath)?;
        let key_path = take_setting(&cfg.key_path, ConfigField::KeyPath)?;
        let endpoint = take_setting(&cfg.endpoint, ConfigField::Endpoint)?;
        let tls = if ca_cert_path.as_str().is_empty() {
            None
        } else {
            let domain_name = take_setting(&cfg.domain_name, ConfigField::DomainName)?;
            Some(TlsSettings { ca_cert_path, cert_path, key_path, domain_name })
        };
        let private_key = take_setting(&cfg.proof_network_privkey, ConfigField::PrivateKey)?;
        if private_key.as_str().is_empty() {
            return Err(ZKMProverError::MissingConfig(ConfigField::PrivateKey));
        }
        if !key_parses(private_key.as_str()) {
            return Err(ZKMProverError::InvalidConfig(ConfigField::PrivateKey));
        }
        Ok(NetworkProver { endpoint, tls, private_key })
    }

    /// Sign `request` with the prover's credential over its canonical
    /// payload. When no signature exists the request is left as it was.
    pub fn sign_ecdsa(&self, request: &mut GenerateProofRequest) -> (r: Result<(), ZKMProverError>)
        ensures
            match eth_signature_of(
                self.private_key@,
                spec_signing_payload(
                    old(request).proof_id@,
                    old(request).block_no,
                    old(request).seg_size,
                ),
            ) {
                Some(sig) => r is Ok && final(request).signature@ == sig,
                None => r == Err::<(), ZKMProverError>(ZKMProverError::SigningFailed)
                    && final(request).signature == old(request).signature,
            },
            final(request).proof_id == old(request).proof_id,
            final(request).elf_data == old(request).elf_data,
            final(request).seg_size == old(request).seg_size,
            final(request).public_input_stream == old(request).public_input_stream,
            final(request).private_input_stream == old(request).private_input_stream,
            final(request).execute_only == old(request).execute_only,
            final(request).precompile == old(request).precompile,
            final(request).receipt == old(request).receipt,
            final(request).receipt_input == old(request).receipt_input,
            final(request).block_no == old(request).block_no,
    {
        let payload = signing_payload(&request.proof_id, request.block_no, request.seg_size);
        match sign_message(self.private_key.as_str(), payload.as_str()) {
            Some(sig) => {
                request.signature = sig;
                Ok(())
            },
            None => Err(ZKMProverError::SigningFailed),
        }
    }

    /// The signed submission of `input` under `proof_id`.
    pub fn signed_request(&self, proof_id: String, input: &ProverInput) -> (r: Result<
        GenerateProofRequest,
        ZKMProverError,
    >)
        ensures
            match r {
                Ok(req) => req.proof_id@ == proof_id@ && req.elf_data@ == input@.elf
                    && req.seg_size == input.seg_size && req.public_input_stream@
                    == input@.public_inputstream && req.private_input_stream@
                    == input@.private_inputstream && req.execute_only == input.execute_only
                    && req.precompile == input.composite_proof && chunks_view(req.receipt@)
                    == input@.receipts && chunks_view(req.receipt_input@) == input@.receipt_inputs
                    && req.block_no.is_none() && Some(req.signature@) == eth_signature_of(
                    self.private_key@,
                    spec_signing_payload(proof_id@, None, input.seg_size),
                ),
                Err(e) => e == ZKMProverError::SigningFailed,
            },
            r is Ok <==> eth_signature_of(
                self.private_key@,
                spec_signing_payload(proof_id@, None, input.seg_size),
            ) is Some,
    {
        let mut req = build_request(proof_id, input);
        match self.sign_ecdsa(&mut req) {
            Ok(()) => Ok(req),
            Err(e) => Err(e),
        }
    }

    /// The signed submission of `input` under a fresh random identifier;
    /// it fails only when the credential yields no signature for the
    /// identifier drawn (see `signed_request`).
    pub fn request_proof(&self, input: &ProverInput) -> (r: Result<GenerateProofRequest, ZKMProverError>)
        ensures
            match r {
                Ok(req) => req.elf_data@ == input@.elf && req.seg_size == input.seg_size
                    && req.public_input_stream@ == input@.public_inputstream
                    && req.private_input_stream@ == input@.private_inputstream
                    && req.execute_only == input.execute_only && req.precompile
                    == input.composite_proof && chunks_view(req.receipt@) == input@.receipts
                    && chunks_view(req.receipt_input@) == input@.receipt_inputs
                    && req.block_no.is_none() && Some(req.signature@) == eth_signature_of(
                    self.private_key@,
                    spec_signing_payload(req.proof_id@, None, input.seg_size),
                ),
                Err(e) => e == ZKMProverError::SigningFailed,
            },
    {
        self.signed_request(new_proof_id(), input)
    }

    /// Key generation is not offered by the proving service.
    pub fn setup_and_generate_sol_verifier(&self) -> (r: Result<(), ZKMProverError>)
        ensures
            r == Err::<(), ZKMProverError>(ZKMProverError::Unsupported),
    {
        Err(ZKMProverError::Unsupported)
    }
}

} // verus!
