use vstd::prelude::*;

use crate::error::ZKMProverError;

verus! {

/// Width in bytes of the commitment to the public input.
pub const COMMITMENT_LEN: usize = 32;

/// An execution-state commitment.
#[derive(Debug, Clone)]
pub struct Roots {
    pub root: Vec<u64>,
}

/// The public values of a proof: the state range it attests to and the user
/// data bound into it.
#[derive(Debug, Clone)]
pub struct PublicInputs {
    pub roots_before: Roots,
    pub roots_after: Roots,
    pub userdata: Vec<u8>,
}

pub struct PublicInputsView {
    pub roots_before: Seq<u64>,
    pub roots_after: Seq<u64>,
    pub userdata: Seq<u8>,
}

impl View for PublicInputs {
    type V = PublicInputsView;

    open spec fn view(&self) -> PublicInputsView {
        PublicInputsView {
            roots_before: self.roots_before.root@,
            roots_after: self.roots_after.root@,
            userdata: self.userdata@,
        }
    }
}

/// SHA-256 digest of a byte string.
pub uninterp spec fn sha256_of(data: Seq<u8>) -> Seq<u8>;

/// Relies on `sha2::Sha256`: the digest of `data`, always 32 bytes.
#[verifier::external_body]
pub(crate) fn sha256(data: &[u8]) -> (r: Vec<u8>)
    ensures
        r@ == sha256_of(data@),
        r@.len() == COMMITMENT_LEN,
{
    <sha2::Sha256 as sha2::Digest>::digest(data).to_vec()
}

/// The all-zero placeholder of the commitment's width.
pub open spec fn zero_sentinel() -> Seq<u8> {
    Seq::new(COMMITMENT_LEN as nat, |i: int| 0u8)
}

/// The user data to publish for `input`, given the digest of the input and
/// the commitment found in the proof: the literal input when the commitment
/// matches, the zero placeholder when there is no public input, nothing
/// otherwise.
pub open spec fn spec_bound_userdata(input: Seq<u8>, digest: Seq<u8>, commitment: Seq<u8>) -> Option<
    Seq<u8>,
> {
    if commitment == digest {
        Some(input)
    } else if input.len() == 0 {
        Some(zero_sentinel())
    } else {
        None
    }
}

/// The public values after binding: the same state range, with the user data
/// replaced.
pub open spec fn spec_bind(
    input: Seq<u8>,
    digest: Seq<u8>,
    public_inputs: PublicInputsView,
) -> Result<PublicInputsView, ZKMProverError> {
    match spec_bound_userdata(input, digest, public_inputs.userdata) {
        Some(u) => Ok(PublicInputsView { userdata: u, ..public_inputs }),
        None => Err(ZKMProverError::PublicInputsMismatch),
    }
}

pub open spec fn result_view(
    r: Result<PublicInputs, ZKMProverError>,
) -> Result<PublicInputsView, ZKMProverError> {
    match r {
        Ok(p) => Ok(p@),
        Err(e) => Err(e),
    }
}

fn bytes_equal(a: &[u8], b: &[u8]) -> (r: bool)
    ensures
        r == (a@ == b@),
{
    if a.len() != b.len() {
        return false;
    }
    let n = a.len();
    let mut i: usize = 0;
    while i < n
        invariant
            n == a@.len(),
            n == b@.len(),
            i <= n,
            a@.subrange(0, i as int) == b@.subrange(0, i as int),
        decreases n - i,
    {
        if a[i] != b[i] {
            assert(a@[i as int] != b@[i as int]);
            return false;
        }
        assert(a@.subrange(0, i + 1) =~= a@.subrange(0, i as int).push(a@[i as int]));
        assert(b@.subrange(0, i + 1) =~= b@.subrange(0, i as int).push(b@[i as int]));
        i = i + 1;
    }
    assert(a@ =~= a@.subrange(0, n as int));
    assert(b@ =~= b@.subrange(0, n as int));
    true
}

/// Bind the public input into the proof's public values, given the digest
/// of the input: the commitment in `public_inputs.userdata` is replaced by
/// the literal input when it equals `digest`, by the zero placeholder when
/// the input is empty, and the binding fails otherwise.
pub fn bind_userdata(
    public_inputstream: Vec<u8>,
    digest: &[u8],
    public_inputs: PublicInputs,
) -> (r: Result<PublicInputs, ZKMProverError>)
    ensures
        result_view(r) == spec_bind(public_inputstream@, digest@, public_inputs@),
{
    let mut public_inputs = public_inputs;
    if bytes_equal(public_inputs.userdata.as_slice(), digest) {
        public_inputs.userdata = public_inputstream;
    } else if public_inputstream.len() == 0 {
        let mut zeros: Vec<u8> = Vec::new();
        let mut i: usize = 0;
        while i < COMMITMENT_LEN
            invariant
                i <= COMMITMENT_LEN,
                zeros@ == Seq::new(i as nat, |j: int| 0u8),
            decreases COMMITMENT_LEN - i,
        {
            zeros.push(0u8);
            i = i + 1;
            assert(zeros@ =~= Seq::new(i as nat, |j: int| 0u8));
        }
        public_inputs.userdata = zeros;
    } else {
        return Err(ZKMProverError::PublicInputsMismatch);
    }
    Ok(public_inputs)
}

/// Check the proof's commitment against the SHA-256 digest of the public
/// input stream and bind the input into the public values.
pub fn update_public_inputs_with_bincode(
    public_inputstream: Vec<u8>,
    public_inputs: PublicInputs,
) -> (r: Result<PublicInputs, ZKMProverError>)
    ensures
        result_view(r) == spec_bind(
            public_inputstream@,
            sha256_of(public_inputstream@),
            public_inputs@,
        ),
{
    let digest = sha256(public_inputstream.as_slice());
    bind_userdata(public_inputstream, digest.as_slice(), public_inputs)
}

/// The binding gate: a commitment equal to the digest of the public input
/// publishes the literal input; otherwise an empty input publishes the zero
/// placeholder of the commitment's width; any other pairing is refused and
/// yields no user data at all.
pub proof fn lemma_binding_gate(input: Seq<u8>, digest: Seq<u8>, public_inputs: PublicInputsView)
    ensures
        public_inputs.userdata == digest ==> spec_bind(input, digest, public_inputs) == Ok::<
            PublicInputsView,
            ZKMProverError,
        >(PublicInputsView { userdata: input, ..public_inputs }),
        public_inputs.userdata != digest && input.len() == 0 ==> spec_bind(
            input,
            digest,
            public_inputs,
        ) == Ok::<PublicInputsView, ZKMProverError>(
            PublicInputsView { userdata: zero_sentinel(), ..public_inputs },
        ),
        public_inputs.userdata != digest && input.len() != 0 ==> spec_bind(
            input,
            digest,
            public_inputs,
        ) == Err::<PublicInputsView, ZKMProverError>(ZKMProverError::PublicInputsMismatch),
        zero_sentinel().len() == COMMITMENT_LEN,
        forall|i: int| 0 <= i < COMMITMENT_LEN ==> #[trigger] zero_sentinel()[i] == 0u8,
{
}

} // verus!
