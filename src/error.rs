use vstd::prelude::*;

verus! {

/// A setting the network prover cannot start without.
#[derive(Clone, Copy, Debug, PartialEq, Eq, Structural)]
pub enum ConfigField {
    CaCertPath,
    CertPath,
    KeyPath,
    Endpoint,
    DomainName,
    PrivateKey,
}

/// Everything that can go wrong between submitting a job and publishing its
/// artifacts.
#[derive(Clone, Debug, PartialEq, Eq)]
pub enum ZKMProverError {
    /// The backend failed; its own message is carried along.
    ProvingError(String),
    /// The prover finished without a result.
    ProvingResultNone,
    /// A local run produced no wrapped proof: the segment size is too large
    /// and should be halved.
    SegSizeTooBig,
    /// A network run produced no wrapped proof: the segment size lies outside
    /// the range the proving service accepts.
    SegSizeOutOfRange,
    /// Reading or writing an artifact failed.
    IoError(String),
    /// The public input does not hash to the commitment inside the proof.
    PublicInputsMismatch,
    /// The guest was expected to produce output and produced none.
    OutputTooShort,
    /// The prover mode is neither `local` nor `network`.
    InvalidProverType,
    /// A setting the network prover needs is absent or empty.
    MissingConfig(ConfigField),
    /// A setting is present but unusable.
    InvalidConfig(ConfigField),
    /// No job is tracked under the identifier (never submitted, or its result
    /// was already taken).
    JobNotFound,
    /// A job with the identifier is already tracked.
    DuplicateJob,
    /// The job's result was already recorded.
    JobAlreadyDone,
    /// The job has not finished yet.
    JobPending,
    /// The caller's time bound passed before the job finished.
    Timeout,
    /// The proving service reported a status other than computing or success.
    RemoteFailure(i32),
    /// The proving service reported a step this client does not know.
    UnknownStep(i32),
    /// The operation is not offered by this prover.
    Unsupported,
    /// The signing credential could not sign the request.
    SigningFailed,
    /// A text meant to be hexadecimal is not.
    InvalidHex,
}

} // verus!
