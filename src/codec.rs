use vstd::prelude::*;

use crate::bytes::chunks_view;

verus! {

/// The `k` low bytes of `n`, least significant first.
pub open spec fn le_bytes(n: nat, k: nat) -> Seq<u8>
    decreases k,
{
    if k == 0 {
        Seq::empty()
    } else {
        seq![(n % 256) as u8] + le_bytes(n / 256, (k - 1) as nat)
    }
}

/// A byte string preceded by its length as a little-endian `u64`.
pub open spec fn spec_encode_bytes(b: Seq<u8>) -> Seq<u8> {
    le_bytes(b.len(), 8) + b
}

/// The encodings of the chunks, one after the other.
pub open spec fn encode_chunk_list(s: Seq<Seq<u8>>) -> Seq<u8>
    decreases s.len(),
{
    if s.len() == 0 {
        Seq::empty()
    } else {
        encode_chunk_list(s.drop_last()) + spec_encode_bytes(s.last())
    }
}

/// A list of byte chunks preceded by their number as a little-endian `u64`.
pub open spec fn spec_encode_chunks(s: Seq<Seq<u8>>) -> Seq<u8> {
    le_bytes(s.len(), 8) + encode_chunk_list(s)
}

/// Relies on `bincode::serialize` (fixed-width little-endian lengths, the
/// default of its `serialize` function) for a `Vec<Vec<u8>>`: the number of
/// chunks as a `u64`, then each chunk's length as a `u64` and its bytes.
/// Writing into a vector without a size limit cannot fail.
#[verifier::external_body]
pub(crate) fn encode_chunks(v: &Vec<Vec<u8>>) -> (r: Vec<u8>)
    ensures
        r@ == spec_encode_chunks(chunks_view(v@)),
{
    bincode::serialize(v).expect("serialization into memory cannot fail")
}

/// Relies on `bincode::serialize` for a `Vec<u8>`: its length as a
/// little-endian `u64`, then its bytes. Writing into a vector without a size
/// limit cannot fail.
#[verifier::external_body]
pub(crate) fn encode_bytes(v: &Vec<u8>) -> (r: Vec<u8>)
    ensures
        r@ == spec_encode_bytes(v@),
{
    bincode::serialize(v).expect("serialization into memory cannot fail")
}

} // verus!
