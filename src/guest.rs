use vstd::prelude::*;

use crate::codec::{encode_bytes, spec_encode_bytes};
use crate::error::ZKMProverError;
use crate::prover::{ProverInput, ProverInputView};
use crate::public_inputs::{sha256, sha256_of};

verus! {

/// Variant tag carried by the sample guest record.
#[derive(Clone, Copy, Debug, PartialEq, Eq, Structural)]
pub enum DataId {
    TYPE1,
    TYPE2,
    TYPE3,
}

/// The sample record exchanged with the Go SHA-2 guest: one field of each
/// integer width, a byte array, a byte vector, a tag and a text.
#[derive(Debug, Clone)]
pub struct Data {
    pub input1: [u8; 10],
    pub input2: u8,
    pub input3: i8,
    pub input4: u16,
    pub input5: i16,
    pub input6: u32,
    pub input7: i32,
    pub input8: u64,
    pub input9: i64,
    pub input10: Vec<u8>,
    pub input11: DataId,
    pub input12: String,
}

impl Default for Data {
    fn default() -> (r: Data)
        ensures
            r.input1@ == seq![1u8, 2u8, 3u8, 4u8, 5u8, 6u8, 7u8, 8u8, 9u8, 10u8],
            r.input2 == 0x11u8,
            r.input3 == -1i8,
            r.input4 == 0x1122u16,
            r.input5 == -1i16,
            r.input6 == 0x112233u32,
            r.input7 == -1i32,
            r.input8 == 0x1122334455u64,
            r.input9 == -1i64,
            r.input10@ == seq![2u8, 3u8],
            r.input11 == DataId::TYPE3,
            r.input12@ == seq!['h', 'e', 'l', 'l', 'o'],
    {
        Data::new()
    }
}

impl Data {
    /// The record with its fixed sample values.
    pub fn new() -> (r: Data)
        ensures
            r.input1@ == seq![1u8, 2u8, 3u8, 4u8, 5u8, 6u8, 7u8, 8u8, 9u8, 10u8],
            r.input2 == 0x11u8,
            r.input3 == -1i8,
            r.input4 == 0x1122u16,
            r.input5 == -1i16,
            r.input6 == 0x112233u32,
            r.input7 == -1i32,
            r.input8 == 0x1122334455u64,
            r.input9 == -1i64,
            r.input10@ == seq![2u8, 3u8],
            r.input11 == DataId::TYPE3,
            r.input12@ == seq!['h', 'e', 'l', 'l', 'o'],
    {
        proof {
            reveal_strlit("hello");
        }
        let array: [u8; 10] = [1u8, 2u8, 3u8, 4u8, 5u8, 6u8, 7u8, 8u8, 9u8, 10u8];
        let mut input10: Vec<u8> = Vec::new();
        input10.push(array[1]);
        input10.push(array[2]);
        let r = Data {
            input1: array,
            input2: 0x11u8,
            input3: -1i8,
            input4: 0x1122u16,
            input5: -1i16,
            input6: 0x112233u32,
            input7: -1i32,
            input8: 0x1122334455u64,
            input9: -1i64,
            input10,
            input11: DataId::TYPE3,
            input12: String::from_str("hello"),
        };
        assert(r.input1@ =~= seq![1u8, 2u8, 3u8, 4u8, 5u8, 6u8, 7u8, 8u8, 9u8, 10u8]);
        assert(r.input10@ =~= seq![2u8, 3u8]);
        assert(r.input12@ =~= seq!['h', 'e', 'l', 'l', 'o']);
        r
    }
}

/// Number of bytes the Rust SHA-2 guest hashes.
pub const SHA2_MESSAGE_LEN: usize = 1024;

/// The message the Rust SHA-2 guest hashes: the byte 5, repeated.
pub open spec fn sha2_message() -> Seq<u8> {
    Seq::new(SHA2_MESSAGE_LEN as nat, |i: int| 5u8)
}

fn filled(byte: u8, n: usize) -> (r: Vec<u8>)
    ensures
        r@ == Seq::new(n as nat, |i: int| byte),
{
    let mut r: Vec<u8> = Vec::with_capacity(n);
    let mut i: usize = 0;
    while i < n
        invariant
            i <= n,
            r@ == Seq::new(i as nat, |j: int| byte),
        decreases n - i,
    {
        r.push(byte);
        i = i + 1;
        assert(r@ =~= Seq::new(i as nat, |j: int| byte));
    }
    r
}

/// Inputs of the Rust SHA-2 guest: the message privately, its digest
/// publicly, both length-prefixed.
pub struct Sha2RustInput;

/// Inputs of the Go SHA-2 guest: a sample record whose byte field and text
/// come from the command line.
pub struct Sha2GoInput;

/// Inputs of the EVM interpreter guest: a JSON test file read from disk.
pub struct RevmeInput;

/// The allocation test guest takes no input.
pub struct MemAllocVecInput;

impl Sha2RustInput {
    pub fn process(&self, input: &mut ProverInput)
        ensures
            final(input)@ == (ProverInputView {
                public_inputstream: spec_encode_bytes(sha256_of(sha2_message())),
                private_inputstream: spec_encode_bytes(sha2_message()),
                ..old(input)@
            }),
    {
        let message = filled(5u8, SHA2_MESSAGE_LEN);
        let digest = sha256(message.as_slice());
        input.public_inputstream = encode_bytes(&digest);
        input.private_inputstream = encode_bytes(&message);
    }
}

impl MemAllocVecInput {
    pub fn process(&self, input: &mut ProverInput)
        ensures
            final(input)@ == old(input)@,
    {
    }
}

/// Value of a hexadecimal digit, in either case.
pub open spec fn hex_value(c: char) -> Option<u8> {
    if '0' <= c && c <= '9' {
        Some((c as u32 - '0' as u32) as u8)
    } else if 'a' <= c && c <= 'f' {
        Some((c as u32 - 'a' as u32 + 10) as u8)
    } else if 'A' <= c && c <= 'F' {
        Some((c as u32 - 'A' as u32 + 10) as u8)
    } else {
        None
    }
}

/// The bytes a text of hexadecimal digit pairs spells, most significant
/// digit first; nothing for an odd length or a non-digit.
pub open spec fn spec_hex_decode(s: Seq<char>) -> Option<Seq<u8>> {
    if s.len() % 2 != 0 {
        None
    } else if exists|i: int| 0 <= i < s.len() && (#[trigger] hex_value(s[i])).is_none() {
        None
    } else {
        Some(
            Seq::new(
                s.len() / 2,
                |i: int| (hex_value(s[2 * i]).unwrap() * 16 + hex_value(s[2 * i + 1]).unwrap()) as u8,
            ),
        )
    }
}

pub open spec fn opt_bytes_view(o: Option<Vec<u8>>) -> Option<Seq<u8>> {
    match o {
        Some(v) => Some(v@),
        None => None,
    }
}

/// Relies on `hex::decode`: an odd length or a character outside
/// `0-9a-fA-F` is an error; otherwise each pair of digits gives one byte,
/// high digit first.
#[verifier::external_body]
fn hex_decode(s: &str) -> (r: Option<Vec<u8>>)
    ensures
        opt_bytes_view(r) == spec_hex_decode(s@),
{
    hex::decode(s).ok()
}

impl Sha2GoInput {
    /// The record the Go SHA-2 guest reads: the sample record with the bytes
    /// `hash_hex` spells and the text to hash. `hash_hex` must be
    /// hexadecimal.
    pub fn record(&self, hash_hex: &str, text: &str) -> (r: Result<Data, ZKMProverError>)
        ensures
            match spec_hex_decode(hash_hex@) {
                Some(b) => r matches Ok(d) && d.input10@ == b && d.input12@ == text@
                    && d.input1@ == seq![1u8, 2u8, 3u8, 4u8, 5u8, 6u8, 7u8, 8u8, 9u8, 10u8]
                    && d.input2 == 0x11u8 && d.input3 == -1i8 && d.input4 == 0x1122u16
                    && d.input5 == -1i16 && d.input6 == 0x112233u32 && d.input7 == -1i32
                    && d.input8 == 0x1122334455u64 && d.input9 == -1i64 && d.input11
                    == DataId::TYPE3,
                None => r == Err::<Data, ZKMProverError>(ZKMProverError::InvalidHex),
            },
    {
        match hex_decode(hash_hex) {
            Some(bytes) => {
                let mut data = Data::new();
                data.input10 = bytes;
                data.input12 = String::from_str(text);
                Ok(data)
            },
            None => Err(ZKMProverError::InvalidHex),
        }
    }
}

} // verus!
