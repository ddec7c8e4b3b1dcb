use vstd::prelude::*;

use crate::bytes::{copy_bytes, copy_string};
use crate::error::{ConfigField, ZKMProverError};
use crate::local::LocalProver;
use crate::network::{network_config_error, NetworkProver};
use crate::prover::{ClientCfg, ProverInput, ProverResult};
use crate::public_inputs::{sha256_of, spec_bind, update_public_inputs_with_bincode, PublicInputs};

verus! {

/// The text naming the local prover mode.
pub open spec fn local_name() -> Seq<char> {
    seq!['l', 'o', 'c', 'a', 'l']
}

/// The text naming the network prover mode.
pub open spec fn network_name() -> Seq<char> {
    seq!['n', 'e', 't', 'w', 'o', 'r', 'k']
}

/// Lower-case form of a text, as Unicode defines it.
pub uninterp spec fn lower_of(s: Seq<char>) -> Seq<char>;

/// Relies on `str::to_lowercase`: the result depends on the characters
/// alone.
#[verifier::external_body]
fn lowercase(s: &str) -> (r: String)
    ensures
        r@ == lower_of(s@),
{
    s.to_lowercase()
}

/// Whether an already lower-cased mode name names the local prover.
pub fn names_local(lowered: &str) -> (r: bool)
    ensures
        r == (lowered@ == local_name()),
{
    proof {
        reveal_strlit("local");
        assert("local"@ =~= local_name());
    }
    let given = String::from_str(lowered);
    let local = String::from_str("local");
    given == local
}

/// Whether a prover mode name names the local prover, ignoring case.
pub fn is_local_prover(zkm_prover: &str) -> (r: bool)
    ensures
        r == (lower_of(zkm_prover@) == local_name()),
{
    let lowered = lowercase(zkm_prover);
    names_local(lowered.as_str())
}

/// Which prover a client drives.
#[derive(Clone, Copy, Debug, PartialEq, Eq, Structural)]
pub enum ProverMode {
    Local,
    Network,
}

/// The prover a client drives, chosen once, at construction.
pub enum ProverBackend {
    Local(LocalProver),
    Network(NetworkProver),
}

/// The proving service facade.
pub struct ProverClient {
    pub prover: ProverBackend,
}

/// Where the artifacts of a proof go, and what they hold.
pub struct ResultArtifacts {
    /// `<results path>/verifier`: receives the wrapped proof and the public
    /// inputs.
    pub verifier_dir: String,
    pub proof_with_public_inputs: Vec<u8>,
    /// The public values with the public input bound in.
    pub public_inputs: PublicInputs,
    /// `<results path>/src` for a network proof, which receives the verifier
    /// contract source.
    pub contract_dir: Option<String>,
    pub solidity_verifier: Vec<u8>,
}

/// The prover mode a configuration names, exactly as written.
pub open spec fn spec_mode_of(name: Seq<char>) -> Option<ProverMode> {
    if name == local_name() {
        Some(ProverMode::Local)
    } else if name == network_name() {
        Some(ProverMode::Network)
    } else {
        None
    }
}

/// The error a configuration that cannot yield a client raises, if any.
pub open spec fn spec_client_error(cfg: &ClientCfg) -> Option<ZKMProverError> {
    match spec_mode_of(cfg.zkm_prover_type@) {
        None => Some(ZKMProverError::InvalidProverType),
        Some(ProverMode::Local) => if cfg.key_path.is_none() {
            Some(ZKMProverError::MissingConfig(ConfigField::KeyPath))
        } else {
            None
        },
        Some(ProverMode::Network) => network_config_error(cfg),
    }
}

/// Path `dir` joined with a sub-directory name.
pub open spec fn joined(dir: Seq<char>, name: Seq<char>) -> Seq<char> {
    dir + seq!['/'] + name
}

pub open spec fn verifier_name() -> Seq<char> {
    seq!['v', 'e', 'r', 'i', 'f', 'i', 'e', 'r']
}

pub open spec fn src_name() -> Seq<char> {
    seq!['s', 'r', 'c']
}

fn mode_of(name: &String) -> (r: Option<ProverMode>)
    ensures
        r == spec_mode_of(name@),
{
    proof {
        reveal_strlit("local");
        reveal_strlit("network");
        assert("local"@ =~= local_name());
        assert("network"@ =~= network_name());
    }
    if *name == String::from_str("local") {
        Some(ProverMode::Local)
    } else if *name == String::from_str("network") {
        Some(ProverMode::Network)
    } else {
        None
    }
}

fn join_dir(dir: &String, name: &str) -> (r: String)
    ensures
        r@ == joined(dir@, name@),
{
    proof {
        reveal_strlit("/");
    }
    let mut r = copy_string(dir);
    r.append("/");
    r.append(name);
    r
}

impl ProverClient {
    pub open spec fn mode(&self) -> ProverMode {
        match self.prover {
            ProverBackend::Local(_) => ProverMode::Local,
            ProverBackend::Network(_) => ProverMode::Network,
        }
    }

    /// Which prover this client drives.
    pub fn prover_mode(&self) -> (r: ProverMode)
        ensures
            r == self.mode(),
    {
        match self.prover {
            ProverBackend::Local(_) => ProverMode::Local,
            ProverBackend::Network(_) => ProverMode::Network,
        }
    }

    /// A client for the mode the configuration names (`local` or
    /// `network`, exactly); any other name, or a missing setting of the
    /// chosen mode, is a configuration error.
    pub fn new(client_config: &ClientCfg) -> (r: Result<ProverClient, ZKMProverError>)
        ensures
            match spec_client_error(client_config) {
                Some(e) => r == Err::<ProverClient, ZKMProverError>(e),
                None => r matches Ok(c) && Some(c.mode()) == spec_mode_of(
                    client_config.zkm_prover_type@,
                ) && match c.prover {
                    ProverBackend::Local(p) => p.wf() && p.jobs().is_empty()
                        && p.key_path_view() == client_config.key_path.unwrap()@,
                    ProverBackend::Network(p) => p.built_from(client_config),
                },
            },
    {
        match mode_of(&client_config.zkm_prover_type) {
            None => Err(ZKMProverError::InvalidProverType),
            Some(ProverMode::Local) => match &client_config.key_path {
                None => Err(ZKMProverError::MissingConfig(ConfigField::KeyPath)),
                Some(key_path) => {
                    let p = LocalProver::new(key_path.as_str());
                    Ok(ProverClient { prover: ProverBackend::Local(p) })
                },
            },
            Some(ProverMode::Network) => match NetworkProver::new(client_config) {
                Ok(p) => Ok(ProverClient { prover: ProverBackend::Network(p) }),
                Err(e) => Err(e),
            },
        }
    }

    /// A client for the local prover with key material under `key_path`.
    pub fn local(key_path: &str) -> (r: ProverClient)
        ensures
            r.mode() == ProverMode::Local,
            r.prover matches ProverBackend::Local(p) && p.wf() && p.jobs().is_empty()
                && p.key_path_view() == key_path@,
    {
        ProverClient { prover: ProverBackend::Local(LocalProver::new(key_path)) }
    }

    /// A client for the proving service the configuration describes.
    pub fn network(client_config: &ClientCfg) -> (r: Result<ProverClient, ZKMProverError>)
        ensures
            match network_config_error(client_config) {
                Some(e) => r == Err::<ProverClient, ZKMProverError>(e),
                None => r matches Ok(c) && c.prover matches ProverBackend::Network(p)
                    && p.built_from(client_config),
            },
    {
        match NetworkProver::new(client_config) {
            Ok(p) => Ok(ProverClient { prover: ProverBackend::Network(p) }),
            Err(e) => Err(e),
        }
    }

    /// The error an empty wrapped proof stands for in this mode: the local
    /// prover's segment size is too large, the service's range does not hold
    /// it.
    pub open spec fn empty_proof_error(&self) -> ZKMProverError {
        match self.mode() {
            ProverMode::Local => ZKMProverError::SegSizeTooBig,
            ProverMode::Network => ZKMProverError::SegSizeOutOfRange,
        }
    }

    pub open spec fn spec_check_outcome(
        &self,
        execute_only: bool,
        outcome: Result<Option<ProverResult>, String>,
    ) -> Result<ProverResult, ZKMProverError> {
        match outcome {
            Ok(Some(res)) => if !execute_only && res.proof_with_public_inputs@.len() == 0 {
                Err(self.empty_proof_error())
            } else {
                Ok(res)
            },
            Ok(None) => Err(ZKMProverError::ProvingResultNone),
            Err(m) => Err(ZKMProverError::ProvingError(m)),
        }
    }

    /// What a finished proving call yields to the caller: the backend's
    /// error as a proving error, a missing result as such, and, unless only
    /// execution was asked for, an empty wrapped proof as a segment-size
    /// error.
    pub fn check_outcome(
        &self,
        input: &ProverInput,
        outcome: Result<Option<ProverResult>, String>,
    ) -> (r: Result<ProverResult, ZKMProverError>)
        ensures
            r == self.spec_check_outcome(input.execute_only, outcome),
    {
        match outcome {
            Ok(Some(res)) => {
                if !input.execute_only && res.proof_with_public_inputs.len() == 0 {
                    Err(self.seg_size_error())
                } else {
                    Ok(res)
                }
            },
            Ok(None) => Err(ZKMProverError::ProvingResultNone),
            Err(m) => Err(ZKMProverError::ProvingError(m)),
        }
    }

    fn seg_size_error(&self) -> (r: ZKMProverError)
        ensures
            r == self.empty_proof_error(),
    {
        match self.prover {
            ProverBackend::Local(_) => ZKMProverError::SegSizeTooBig,
            ProverBackend::Network(_) => ZKMProverError::SegSizeOutOfRange,
        }
    }

    /// Turn a finished proof into the artifacts to persist: an empty wrapped
    /// proof is a segment-size error; otherwise the public input must bind to
    /// the proof's commitment, and the proof, the bound public values and,
    /// for a network proof, the verifier contract go under
    /// `input.proof_results_path`.
    pub fn process_proof_results(
        &self,
        prover_result: &ProverResult,
        input: &ProverInput,
        public_inputs: PublicInputs,
    ) -> (r: Result<ResultArtifacts, ZKMProverError>)
        ensures
            prover_result.proof_with_public_inputs@.len() == 0 ==> r == Err::<
                ResultArtifacts,
                ZKMProverError,
            >(self.empty_proof_error()),
            prover_result.proof_with_public_inputs@.len() > 0 ==> match spec_bind(
                input@.public_inputstream,
                sha256_of(input@.public_inputstream),
                public_inputs@,
            ) {
                Err(e) => r == Err::<ResultArtifacts, ZKMProverError>(e),
                Ok(bound) => r matches Ok(a) && a.verifier_dir@ == joined(
                    input@.proof_results_path,
                    verifier_name(),
                ) && a.proof_with_public_inputs@ == prover_result.proof_with_public_inputs@
                    && a.public_inputs@ == bound && a.solidity_verifier@
                    == prover_result.solidity_verifier@ && match self.mode() {
                    ProverMode::Local => a.contract_dir.is_none(),
                    ProverMode::Network => a.contract_dir matches Some(d) && d@ == joined(
                        input@.proof_results_path,
                        src_name(),
                    ),
                },
            },
    {
        if prover_result.proof_with_public_inputs.len() == 0 {
            return Err(self.seg_size_error());
        }
        let stream = copy_bytes(input.public_inputstream.as_slice());
        let bound = match update_public_inputs_with_bincode(stream, public_inputs) {
            Ok(b) => b,
            Err(e) => return Err(e),
        };
        proof {
            reveal_strlit("verifier");
            reveal_strlit("src");
        }
        let verifier_dir = join_dir(&input.proof_results_path, "verifier");
        let contract_dir = match self.prover {
            ProverBackend::Local(_) => None,
            ProverBackend::Network(_) => Some(join_dir(&input.proof_results_path, "src")),
        };
        Ok(ResultArtifacts {
            verifier_dir,
            proof_with_public_inputs: copy_bytes(prover_result.proof_with_public_inputs.as_slice()),
            public_inputs: bound,
            contract_dir,
            solidity_verifier: copy_bytes(prover_result.solidity_verifier.as_slice()),
        })
    }

    /// After an execute-only run: a guest expected to produce output must
    /// have produced some.
    pub fn print_guest_execution_output(&self, has_output: bool, prover_result: &ProverResult) -> (r:
        Result<(), ZKMProverError>)
        ensures
            r == if has_output && prover_result.output_stream@.len() == 0 {
                Err::<(), ZKMProverError>(ZKMProverError::OutputTooShort)
            } else {
                Ok(())
            },
    {
        if has_output && prover_result.output_stream.len() == 0 {
            Err(ZKMProverError::OutputTooShort)
        } else {
            Ok(())
        }
    }
}

/// Key material must be generated unless both the proving and the
/// verifying key are already present.
pub fn needs_key_setup(proving_key_present: bool, verifying_key_present: bool) -> (r: bool)
    ensures
        r == !(proving_key_present && verifying_key_present),
{
    !(proving_key_present && verifying_key_present)
}

/// A completed run that was asked for a proof but hands back an empty
/// wrapped proof is reported as a segment-size problem, never as a generic
/// failure: `SegSizeTooBig` by the local prover, `SegSizeOutOfRange` by the
/// proving service.
pub proof fn lemma_empty_proof_is_seg_size_error(client: &ProverClient, res: ProverResult)
    requires
        res.proof_with_public_inputs@.len() == 0,
    ensures
        client.mode() == ProverMode::Local ==> client.spec_check_outcome(false, Ok(Some(res)))
            == Err::<ProverResult, ZKMProverError>(ZKMProverError::SegSizeTooBig),
        client.mode() == ProverMode::Network ==> client.spec_check_outcome(false, Ok(Some(res)))
            == Err::<ProverResult, ZKMProverError>(ZKMProverError::SegSizeOutOfRange),
{
}

} // verus!
