//! The on-chain verification client: reads a call-data document, decodes
//! its arguments, and judges what the verifier contract answered.

use vstd::prelude::*;
use crate::config::text_eq;
use crate::fib::{fib_pair, fibonacci, MAX_N};
use crate::hexstr::{hex_decode, hex_decoded, hex_encode, hex_text, lemma_hex_round_trip};
use crate::public_values::{abi_decoded, PublicValues};

verus! {

/// Why a remote verification did not succeed.
#[derive(Clone, Copy, Debug, PartialEq, Eq, Structural)]
pub enum ClientError {
    /// No call-data document exists yet: proving has not been run.
    ArtifactNotFound,
    /// The document lacks an argument, or an argument is not well-formed.
    DecodingError,
    /// The verifier reverted: the proof or its data were refused.
    VerificationRejected,
    /// The call failed on the way, without a verdict.
    TransportError,
    /// The verifier answered with values that break `(a, b) == fib_pair(n)`.
    InconsistentResult,
}

/// The two arguments of the verification call, decoded.
#[derive(Debug)]
pub struct CallPayload {
    pub proof: Vec<u8>,
    pub public_values: Vec<u8>,
    /// What the public values say.
    pub expected: PublicValues,
}

/// `s` without a leading `0x`, if it has one.
pub open spec fn without_hex_prefix(s: Seq<char>) -> Seq<char> {
    if s.len() >= 2 && s[0] == '0' && s[1] == 'x' {
        s.subrange(2, s.len() as int)
    } else {
        s
    }
}

/// Drops a leading `0x`.
pub fn strip_hex_prefix(s: &str) -> (r: &str)
    ensures
        r@ == without_hex_prefix(s@),
{
    let len = s.unicode_len();
    if len >= 2 && s.get_char(0) == '0' && s.get_char(1) == 'x' {
        s.substring_char(2, len)
    } else {
        s.substring_char(0, len)
    }
}

/// The string value at `document.section.key`, if the document is JSON and
/// holds a string there.
pub uninterp spec fn json_string_at(document: Seq<char>, section: Seq<char>, key: Seq<char>) -> Option<Seq<char>>;

/// Relies on `serde_json::from_str` into a `Value`, its indexing and
/// `Value::as_str`: the result depends on the three texts alone.
#[verifier::external_body]
fn json_string_field(document: &str, section: &str, key: &str) -> (r: Option<String>)
    ensures
        r matches Some(s) ==> json_string_at(document@, section@, key@) == Some(s@),
        r is None ==> json_string_at(document@, section@, key@) is None,
{
    let v: serde_json::Value = serde_json::from_str(document).ok()?;
    v[section][key].as_str().map(|s| s.to_string())
}

/// The payload that two argument texts stand for: both hex with an
/// optional `0x`, the public values a canonical result encoding.
pub open spec fn payload_of(proof_text: Seq<char>, pv_text: Seq<char>) -> Option<(Seq<u8>, Seq<u8>)> {
    match (hex_decoded(without_hex_prefix(proof_text)), hex_decoded(without_hex_prefix(pv_text))) {
        (Some(p), Some(v)) => if abi_decoded(v) is Some {
            Some((p, v))
        } else {
            None
        },
        _ => None,
    }
}

/// Decodes the two argument texts of a call-data document.
pub fn decode_call_arguments(proof_text: &str, pv_text: &str) -> (r: Result<CallPayload, ClientError>)
    ensures
        r is Err <==> payload_of(proof_text@, pv_text@) is None,
        r matches Err(e) ==> e == ClientError::DecodingError,
        r matches Ok(p) ==> payload_of(proof_text@, pv_text@) == Some((p.proof@, p.public_values@))
            && abi_decoded(p.public_values@) == Some((p.expected.n, p.expected.a, p.expected.b)),
{
    let proof = match hex_decode(strip_hex_prefix(proof_text)) {
        Some(b) => b,
        None => return Err(ClientError::DecodingError),
    };
    let public_values = match hex_decode(strip_hex_prefix(pv_text)) {
        Some(b) => b,
        None => return Err(ClientError::DecodingError),
    };
    match PublicValues::decode(public_values.as_slice()) {
        Some(expected) => Ok(CallPayload { proof, public_values, expected }),
        None => Err(ClientError::DecodingError),
    }
}

/// The argument texts written into a call-data document (`0x` and the
/// hex of the bytes) decode back to those bytes, whenever the public
/// values are a canonical result encoding.
pub proof fn lemma_call_arguments_round_trip(proof: Seq<u8>, public_values: Seq<u8>)
    requires
        abi_decoded(public_values) is Some,
    ensures
        payload_of("0x"@ + hex_text(proof), "0x"@ + hex_text(public_values)) == Some((proof, public_values)),
{
    reveal_strlit("0x");
    assert(without_hex_prefix("0x"@ + hex_text(proof)) =~= hex_text(proof));
    assert(without_hex_prefix("0x"@ + hex_text(public_values)) =~= hex_text(public_values));
    lemma_hex_round_trip(proof);
    lemma_hex_round_trip(public_values);
}

/// What a call-data document, or its absence, yields.
pub open spec fn loaded_payload(document: Option<&str>) -> Result<(Seq<u8>, Seq<u8>), ClientError> {
    match document {
        None => Err(ClientError::ArtifactNotFound),
        Some(d) => match (
            json_string_at(d@, "parameters"@, "proofBytes"@),
            json_string_at(d@, "parameters"@, "publicValues"@),
        ) {
            (Some(p), Some(v)) => match payload_of(p, v) {
                Some(t) => Ok(t),
                None => Err(ClientError::DecodingError),
            },
            _ => Err(ClientError::DecodingError),
        },
    }
}

/// Reads the call arguments from the document's `parameters` section;
/// `None` stands for a document that does not exist.
pub fn load_call_data(document: Option<&str>) -> (r: Result<CallPayload, ClientError>)
    ensures
        r matches Ok(p) ==> loaded_payload(document) == Ok::<(Seq<u8>, Seq<u8>), ClientError>((p.proof@, p.public_values@)),
        r matches Err(e) ==> loaded_payload(document) == Err::<(Seq<u8>, Seq<u8>), ClientError>(e),
{
    let d = match document {
        Some(d) => d,
        None => return Err(ClientError::ArtifactNotFound),
    };
    let proof_text = match json_string_field(d, "parameters", "proofBytes") {
        Some(s) => s,
        None => return Err(ClientError::DecodingError),
    };
    let pv_text = match json_string_field(d, "parameters", "publicValues") {
        Some(s) => s,
        None => return Err(ClientError::DecodingError),
    };
    decode_call_arguments(proof_text.as_str(), pv_text.as_str())
}

/// Whether `pattern` occurs in `s`.
pub open spec fn occurs_in(pattern: Seq<char>, s: Seq<char>) -> bool {
    exists|i: int| 0 <= i && i + pattern.len() <= s.len() && #[trigger] s.subrange(i, i + pattern.len()) == pattern
}

/// Whether `pattern` occurs in `s`.
pub fn contains_text(s: &str, pattern: &str) -> (r: bool)
    ensures
        r == occurs_in(pattern@, s@),
{
    let n = s.unicode_len();
    let m = pattern.unicode_len();
    if m > n {
        return false;
    }
    if m == 0 {
        assert(s@.subrange(0int, 0int + pattern@.len()) =~= pattern@);
        return true;
    }
    let mut i: usize = 0;
    while i <= n - m
        invariant
            n == s@.len(),
            m == pattern@.len(),
            0 < m <= n,
            i <= n - m + 1,
            forall|j: int| 0 <= j < i ==> #[trigger] s@.subrange(j, j + pattern@.len()) != pattern@,
        decreases n - m + 1 - i,
    {
        if text_eq(s.substring_char(i, i + m), pattern) {
            assert(s@.subrange(i as int, i + pattern@.len()) == pattern@);
            return true;
        }
        i = i + 1;
    }
    assert forall|j: int| 0 <= j && j + pattern@.len() <= s@.len() implies #[trigger] s@.subrange(j, j + pattern@.len()) != pattern@ by {
        assert(j < i);
    }
    false
}

/// What the verifier call came back with.
#[derive(Debug)]
pub enum RemoteReply {
    /// The decoded return values `(n, a, b)`.
    Returned(u32, u32, u32),
    /// The call failed, with the transport's error message.
    Failed(String),
}

/// The verdict on a reply.
pub open spec fn reply_verdict(reply: RemoteReply) -> Result<PublicValues, ClientError> {
    match reply {
        RemoteReply::Returned(n, a, b) => if n <= MAX_N && fib_pair(n as nat) == (a, b) {
            Ok(PublicValues { n, a, b })
        } else {
            Err(ClientError::InconsistentResult)
        },
        RemoteReply::Failed(m) => if occurs_in("revert"@, m@) {
            Err(ClientError::VerificationRejected)
        } else {
            Err(ClientError::TransportError)
        },
    }
}

/// Judges the verifier's reply. Success is reported only for returned
/// values that satisfy the Fibonacci relation; a failure is a rejection
/// when its message reports a revert, and a transport error otherwise.
pub fn judge_reply(reply: &RemoteReply) -> (r: Result<PublicValues, ClientError>)
    ensures
        r == reply_verdict(*reply),
{
    match reply {
        RemoteReply::Returned(n, a, b) => {
            if *n > MAX_N {
                return Err(ClientError::InconsistentResult);
            }
            let (fa, fb) = fibonacci(*n);
            if fa == *a && fb == *b {
                Ok(PublicValues { n: *n, a: *a, b: *b })
            } else {
                Err(ClientError::InconsistentResult)
            }
        },
        RemoteReply::Failed(m) => {
            if contains_text(m.as_str(), "revert") {
                Err(ClientError::VerificationRejected)
            } else {
                Err(ClientError::TransportError)
            }
        },
    }
}

/// Whether the key recorded by the contract is the expected one, given as
/// hex with an optional `0x`. A mismatch is for diagnostics only.
pub fn vkey_matches(expected: &str, onchain: &[u8]) -> (r: bool)
    ensures
        r == (without_hex_prefix(expected@) == hex_text(onchain@)),
{
    let recorded = hex_encode(onchain);
    text_eq(strip_hex_prefix(expected), recorded.as_str())
}

} // verus!
