//! The computation result and its canonical encoding: three 32-byte
//! big-endian ABI words `(uint32 n, uint32 a, uint32 b)`.

use vstd::prelude::*;
use alloy_sol_types::sol_data::Uint;
use alloy_sol_types::SolType;

verus! {

/// Length in bytes of an encoded result.
pub const ENCODED_LEN: usize = 96;

/// The committed outcome of one kernel run.
#[derive(Clone, Copy, Debug, PartialEq, Eq, Structural)]
pub struct PublicValues {
    pub n: u32,
    pub a: u32,
    pub b: u32,
}

/// The four big-endian bytes of `x`.
pub open spec fn be_bytes(x: u32) -> Seq<u8> {
    seq![(x >> 24u32) as u8, (x >> 16u32) as u8, (x >> 8u32) as u8, x as u8]
}

/// One ABI word holding `x`: 28 zero bytes, then `x` big-endian.
pub open spec fn abi_word(x: u32) -> Seq<u8> {
    Seq::new(28, |i: int| 0u8) + be_bytes(x)
}

/// The canonical encoding of `(n, a, b)`.
pub open spec fn abi_encoding(n: u32, a: u32, b: u32) -> Seq<u8> {
    abi_word(n) + abi_word(a) + abi_word(b)
}

/// The integer held in the last four bytes of the word at `at`.
pub open spec fn word_low(s: Seq<u8>, at: int) -> u32 {
    ((s[at + 28] as u32) << 24u32) | ((s[at + 29] as u32) << 16u32) | ((s[at + 30] as u32)
        << 8u32) | (s[at + 31] as u32)
}

/// What a strict decoder makes of `s`: the triple read from the three
/// words, kept only where encoding it again gives back `s` exactly.
pub open spec fn abi_decoded(s: Seq<u8>) -> Option<(u32, u32, u32)> {
    let t = (word_low(s, 0), word_low(s, 32), word_low(s, 64));
    if s.len() == 96 && abi_encoding(t.0, t.1, t.2) == s {
        Some(t)
    } else {
        None
    }
}

impl PublicValues {
    pub open spec fn encoding(self) -> Seq<u8> {
        abi_encoding(self.n, self.a, self.b)
    }
}

/// Relies on alloy_sol_types' `SolType::abi_encode` for the tuple
/// `(uint32, uint32, uint32)`: a static tuple is laid out as its three
/// words, each the value right-aligned big-endian.
#[verifier::external_body]
fn abi_encode_triple(n: u32, a: u32, b: u32) -> (r: Vec<u8>)
    ensures
        r@ == abi_encoding(n, a, b),
{
    <(Uint<32>, Uint<32>, Uint<32>) as SolType>::abi_encode(&(n, a, b))
}

/// Relies on alloy_sol_types' `SolType::abi_decode` with validation on
/// for `(uint32, uint32, uint32)`: it succeeds only when every word fits
/// 32 bits and re-encoding the decoded values reproduces the input.
#[verifier::external_body]
fn abi_decode_triple(data: &[u8]) -> (r: Option<(u32, u32, u32)>)
    ensures
        r == abi_decoded(data@),
{
    <(Uint<32>, Uint<32>, Uint<32>) as SolType>::abi_decode(data, true).ok()
}

proof fn lemma_word_low(x: u32, s: Seq<u8>, at: int)
    requires
        0 <= at,
        at + 32 <= s.len(),
        s.subrange(at, at + 32) == abi_word(x),
    ensures
        word_low(s, at) == x,
{
    assert(s[at + 28] == abi_word(x)[28]);
    assert(s[at + 29] == abi_word(x)[29]);
    assert(s[at + 30] == abi_word(x)[30]);
    assert(s[at + 31] == abi_word(x)[31]);
    let b0 = (x >> 24u32) as u8;
    let b1 = (x >> 16u32) as u8;
    let b2 = (x >> 8u32) as u8;
    let b3 = x as u8;
    assert(((b0 as u32) << 24u32) | ((b1 as u32) << 16u32) | ((b2 as u32) << 8u32) | (b3 as u32)
        == x) by (bit_vector)
        requires
            b0 == (x >> 24u32) as u8,
            b1 == (x >> 16u32) as u8,
            b2 == (x >> 8u32) as u8,
            b3 == x as u8,
    ;
}

/// Decoding the encoding of a result gives the same result back.
pub proof fn lemma_public_values_round_trip(v: PublicValues)
    ensures
        abi_decoded(v.encoding()) == Some((v.n, v.a, v.b)),
{
    let s = v.encoding();
    assert(s.subrange(0, 32) =~= abi_word(v.n));
    assert(s.subrange(32, 64) =~= abi_word(v.a));
    assert(s.subrange(64, 96) =~= abi_word(v.b));
    lemma_word_low(v.n, s, 0);
    lemma_word_low(v.a, s, 32);
    lemma_word_low(v.b, s, 64);
}

impl PublicValues {
    /// The canonical encoding of this result.
    pub fn encode(&self) -> (r: Vec<u8>)
        ensures
            r@ == self.encoding(),
            r@.len() == ENCODED_LEN,
    {
        abi_encode_triple(self.n, self.a, self.b)
    }

    /// Reads a result back from its canonical encoding; `None` for any
    /// byte string that is not exactly such an encoding.
    pub fn decode(bytes: &[u8]) -> (r: Option<PublicValues>)
        ensures
            r.is_some() <==> abi_decoded(bytes@).is_some(),
            r matches Some(v) ==> abi_decoded(bytes@) == Some((v.n, v.a, v.b)),
            r matches Some(v) ==> bytes@ == v.encoding(),
    {
        match abi_decode_triple(bytes) {
            Some(t) => Some(PublicValues { n: t.0, a: t.1, b: t.2 }),
            None => None,
        }
    }
}

} // verus!
