//! The artifact bundle of one proving run: file paths keyed by the proof
//! system and `n`, and the text of the call-data and summary documents.

use vstd::prelude::*;
use crate::config::{system_spelling, system_title, ProofRequest, ProofSystem};
use crate::hexstr::{hex_encode, hex_text};
use vstd::slice::slice_to_vec;

verus! {

/// The decimal digit character for `d < 10`.
pub open spec fn digit_char(d: nat) -> char {
    (d + 48) as char
}

/// Decimal text of `n`, without leading zeros.
pub open spec fn decimal(n: nat) -> Seq<char>
    decreases n,
{
    if n < 10 {
        seq![digit_char(n)]
    } else {
        decimal(n / 10).push(digit_char(n % 10))
    }
}

/// The number that decimal digits `s` spell.
pub open spec fn digits_value(s: Seq<char>) -> nat
    decreases s.len(),
{
    if s.len() == 0 {
        0
    } else {
        digits_value(s.drop_last()) * 10 + (s.last() as u32 - 48) as nat
    }
}

proof fn lemma_decimal_value(n: nat)
    ensures
        digits_value(decimal(n)) == n,
    decreases n,
{
    let d = n % 10;
    assert(digit_char(d) as u32 == d + 48);
    if n < 10 {
        assert(decimal(n).drop_last() =~= Seq::<char>::empty());
        assert(decimal(n).last() == digit_char(n));
        assert(digits_value(Seq::<char>::empty()) == 0);
        assert(digits_value(decimal(n)) == digits_value(decimal(n).drop_last()) * 10 + (decimal(n).last() as u32 - 48) as nat);
    } else {
        lemma_decimal_value(n / 10);
        assert(decimal(n).drop_last() =~= decimal(n / 10));
        assert(decimal(n).last() == digit_char(d));
        assert(digits_value(decimal(n)) == digits_value(decimal(n).drop_last()) * 10 + (decimal(n).last() as u32 - 48) as nat);
        assert((n / 10) * 10 + d == n);
    }
}

/// Distinct numbers have distinct decimal text.
pub proof fn lemma_decimal_injective(m: nat, n: nat)
    requires
        decimal(m) == decimal(n),
    ensures
        m == n,
{
    lemma_decimal_value(m);
    lemma_decimal_value(n);
}

fn digit_text(d: u64) -> (r: &'static str)
    requires
        d < 10,
    ensures
        r@ == seq![digit_char(d as nat)],
{
    proof {
        reveal_strlit("0");
        reveal_strlit("1");
        reveal_strlit("2");
        reveal_strlit("3");
        reveal_strlit("4");
        reveal_strlit("5");
        reveal_strlit("6");
        reveal_strlit("7");
        reveal_strlit("8");
        reveal_strlit("9");
    }
    let r = if d == 0 {
        "0"
    } else if d == 1 {
        "1"
    } else if d == 2 {
        "2"
    } else if d == 3 {
        "3"
    } else if d == 4 {
        "4"
    } else if d == 5 {
        "5"
    } else if d == 6 {
        "6"
    } else if d == 7 {
        "7"
    } else if d == 8 {
        "8"
    } else {
        "9"
    };
    assert(r@ =~= seq![digit_char(d as nat)]);
    r
}

/// Decimal text of `n`.
pub fn decimal_text(n: u64) -> (r: String)
    ensures
        r@ == decimal(n as nat),
    decreases n,
{
    if n < 10 {
        String::from_str(digit_text(n))
    } else {
        let mut s = decimal_text(n / 10);
        s.append(digit_text(n % 10));
        assert(s@ =~= decimal(n as nat));
        s
    }
}

/// `<dir>/proof_<system>_n<n>.bin`
pub open spec fn proof_path(dir: Seq<char>, system: ProofSystem, n: nat) -> Seq<char> {
    dir + "/proof_"@ + system_spelling(system) + "_n"@ + decimal(n) + ".bin"@
}

/// `<dir>/public_values_n<n>.bin`
pub open spec fn public_values_path(dir: Seq<char>, n: nat) -> Seq<char> {
    dir + "/public_values_n"@ + decimal(n) + ".bin"@
}

/// `<dir>/verification_key.txt`
pub open spec fn vkey_path(dir: Seq<char>) -> Seq<char> {
    dir + "/verification_key.txt"@
}

/// `<dir>/contract_call_data_n<n>.json`
pub open spec fn call_data_path(dir: Seq<char>, n: nat) -> Seq<char> {
    dir + "/contract_call_data_n"@ + decimal(n) + ".json"@
}

/// `<dir>/summary_n<n>.txt`
pub open spec fn summary_path(dir: Seq<char>, n: nat) -> Seq<char> {
    dir + "/summary_n"@ + decimal(n) + ".txt"@
}

proof fn lemma_middle_equal(a: Seq<char>, x: Seq<char>, y: Seq<char>, b: Seq<char>)
    requires
        a + x + b == a + y + b,
    ensures
        x == y,
{
    let s = a + x + b;
    assert(s.len() == (a + y + b).len());
    assert((a + x).len() == a.len() + x.len());
    assert((a + y).len() == a.len() + y.len());
    assert(x.len() == y.len());
    assert(s.subrange(a.len() as int, a.len() + x.len() as int) =~= x);
    assert((a + y + b).subrange(a.len() as int, a.len() + y.len() as int) =~= y);
}

/// Requests that differ in `n` write no common file but the verification
/// key; the proof file is further keyed by the proof system.
pub proof fn lemma_artifact_paths_distinct(dir: Seq<char>, s1: ProofSystem, m: nat, s2: ProofSystem, n: nat)
    ensures
        proof_path(dir, s1, m) == proof_path(dir, s2, n) ==> s1 == s2 && m == n,
        public_values_path(dir, m) == public_values_path(dir, n) ==> m == n,
        call_data_path(dir, m) == call_data_path(dir, n) ==> m == n,
        summary_path(dir, m) == summary_path(dir, n) ==> m == n,
{
    if public_values_path(dir, m) == public_values_path(dir, n) {
        lemma_middle_equal(dir + "/public_values_n"@, decimal(m), decimal(n), ".bin"@);
        lemma_decimal_injective(m, n);
    }
    if call_data_path(dir, m) == call_data_path(dir, n) {
        lemma_middle_equal(dir + "/contract_call_data_n"@, decimal(m), decimal(n), ".json"@);
        lemma_decimal_injective(m, n);
    }
    if summary_path(dir, m) == summary_path(dir, n) {
        lemma_middle_equal(dir + "/summary_n"@, decimal(m), decimal(n), ".txt"@);
        lemma_decimal_injective(m, n);
    }
    if proof_path(dir, s1, m) == proof_path(dir, s2, n) {
        let x = system_spelling(s1) + "_n"@ + decimal(m);
        let y = system_spelling(s2) + "_n"@ + decimal(n);
        assert(dir + "/proof_"@ + system_spelling(s1) + "_n"@ + decimal(m) + ".bin"@ =~= dir
            + "/proof_"@ + x + ".bin"@);
        assert(dir + "/proof_"@ + system_spelling(s2) + "_n"@ + decimal(n) + ".bin"@ =~= dir
            + "/proof_"@ + y + ".bin"@);
        lemma_middle_equal(dir + "/proof_"@, x, y, ".bin"@);
        reveal_strlit("groth16");
        reveal_strlit("plonk");
        if s1 != s2 {
            assert(x[0] != y[0]);
        }
        lemma_middle_equal(system_spelling(s1) + "_n"@, decimal(m), decimal(n), Seq::<char>::empty());
        lemma_decimal_injective(m, n);
    }
}

/// Path of the proof file.
pub fn proof_file_path(dir: &str, system: ProofSystem, n: u32) -> (r: String)
    ensures
        r@ == proof_path(dir@, system, n as nat),
{
    let mut s = String::from_str(dir);
    s.append("/proof_");
    s.append(system.name());
    s.append("_n");
    s.append(decimal_text(n as u64).as_str());
    s.append(".bin");
    s
}

/// Path of the public-values file.
pub fn public_values_file_path(dir: &str, n: u32) -> (r: String)
    ensures
        r@ == public_values_path(dir@, n as nat),
{
    let mut s = String::from_str(dir);
    s.append("/public_values_n");
    s.append(decimal_text(n as u64).as_str());
    s.append(".bin");
    s
}

/// Path of the verification-key file.
pub fn vkey_file_path(dir: &str) -> (r: String)
    ensures
        r@ == vkey_path(dir@),
{
    let mut s = String::from_str(dir);
    s.append("/verification_key.txt");
    s
}

/// Path of the call-data document.
pub fn call_data_file_path(dir: &str, n: u32) -> (r: String)
    ensures
        r@ == call_data_path(dir@, n as nat),
{
    let mut s = String::from_str(dir);
    s.append("/contract_call_data_n");
    s.append(decimal_text(n as u64).as_str());
    s.append(".json");
    s
}

/// Path of the summary document.
pub fn summary_file_path(dir: &str, n: u32) -> (r: String)
    ensures
        r@ == summary_path(dir@, n as nat),
{
    let mut s = String::from_str(dir);
    s.append("/summary_n");
    s.append(decimal_text(n as u64).as_str());
    s.append(".txt");
    s
}

/// The call-data document: a JSON object naming the contract function,
/// its two hex-encoded arguments, the expected `n` and the return shape.
pub open spec fn call_data_document(public_values: Seq<u8>, proof: Seq<u8>, n: nat) -> Seq<char> {
    "{\n  \"contract_interface\": {\n    \"function_signature\": \"verifyFibonacciProof(bytes,bytes)\",\n    \"returns\": \"(uint32,uint32,uint32)\"\n  },\n  \"expected_output\": {\n    \"decoded_from_public_values\": \"Use abi.decode(publicValues, (PublicValuesStruct))\",\n    \"n\": "@
        + decimal(n)
        + "\n  },\n  \"function\": \"verifyFibonacciProof\",\n  \"parameters\": {\n    \"proofBytes\": \"0x"@
        + hex_text(proof) + "\",\n    \"publicValues\": \"0x"@ + hex_text(public_values)
        + "\"\n  }\n}"@
}

/// Renders the call-data document; it depends on the proof and `n` alone.
pub fn render_call_data(public_values: &[u8], proof: &[u8], n: u32) -> (r: String)
    ensures
        r@ == call_data_document(public_values@, proof@, n as nat),
{
    let mut s = String::from_str(
        "{\n  \"contract_interface\": {\n    \"function_signature\": \"verifyFibonacciProof(bytes,bytes)\",\n    \"returns\": \"(uint32,uint32,uint32)\"\n  },\n  \"expected_output\": {\n    \"decoded_from_public_values\": \"Use abi.decode(publicValues, (PublicValuesStruct))\",\n    \"n\": ",
    );
    s.append(decimal_text(n as u64).as_str());
    s.append(
        "\n  },\n  \"function\": \"verifyFibonacciProof\",\n  \"parameters\": {\n    \"proofBytes\": \"0x",
    );
    s.append(hex_encode(proof).as_str());
    s.append("\",\n    \"publicValues\": \"0x");
    s.append(hex_encode(public_values).as_str());
    s.append("\"\n  }\n}");
    s
}

/// The human-readable summary of a run.
pub open spec fn summary_document(
    system: ProofSystem,
    n: nat,
    vk_hash: Seq<char>,
    public_values: Seq<u8>,
    proof: Seq<u8>,
) -> Seq<char> {
    "SP1 "@ + system_title(system) + " Proof Summary\n===================\nInput: "@ + decimal(n)
        + "\nSystem: "@ + system_spelling(system) + "\nVerification Key: 0x"@ + vk_hash
        + "\nPublic Values: 0x"@ + hex_text(public_values) + "\nProof: 0x"@ + hex_text(proof)
        + "\nProof Size: "@ + decimal(proof.len()) + " bytes\n\nTo verify on-chain:\n1. Deploy Fibonacci contract with VKey: 0x"@
        + vk_hash + "\n2. Call verifyFibonacciProof(publicValues, proof)\n3. Public Values: 0x"@
        + hex_text(public_values) + "\n4. Proof: 0x"@ + hex_text(proof) + "\n"@
}

/// Renders the summary document.
pub fn render_summary(
    system: ProofSystem,
    n: u32,
    vk_hash: &str,
    public_values: &[u8],
    proof: &[u8],
) -> (r: String)
    ensures
        r@ == summary_document(system, n as nat, vk_hash@, public_values@, proof@),
{
    let pv_hex = hex_encode(public_values);
    let proof_hex = hex_encode(proof);
    let mut s = String::from_str("SP1 ");
    s.append(system.title());
    s.append(" Proof Summary\n===================\nInput: ");
    s.append(decimal_text(n as u64).as_str());
    s.append("\nSystem: ");
    s.append(system.name());
    s.append("\nVerification Key: 0x");
    s.append(vk_hash);
    s.append("\nPublic Values: 0x");
    s.append(pv_hex.as_str());
    s.append("\nProof: 0x");
    s.append(proof_hex.as_str());
    s.append("\nProof Size: ");
    s.append(decimal_text(proof.len() as u64).as_str());
    s.append(
        " bytes\n\nTo verify on-chain:\n1. Deploy Fibonacci contract with VKey: 0x",
    );
    s.append(vk_hash);
    s.append("\n2. Call verifyFibonacciProof(publicValues, proof)\n3. Public Values: 0x");
    s.append(pv_hex.as_str());
    s.append("\n4. Proof: 0x");
    s.append(proof_hex.as_str());
    s.append("\n");
    s
}

/// The verification key as stored: `0x` followed by the bare hex digest.
pub open spec fn vkey_document(vk_hash: Seq<char>) -> Seq<char> {
    "0x"@ + vk_hash
}

/// The contents of one artifact file.
#[derive(Debug)]
pub enum ArtifactContents {
    Bytes(Vec<u8>),
    Text(String),
}

/// One file of the bundle, in the order it is written.
#[derive(Debug)]
pub struct Artifact {
    pub path: String,
    pub contents: ArtifactContents,
}

impl Artifact {
    pub open spec fn holds_bytes(&self, path: Seq<char>, bytes: Seq<u8>) -> bool {
        &&& self.path@ == path
        &&& self.contents matches ArtifactContents::Bytes(b) && b@ == bytes
    }

    pub open spec fn holds_text(&self, path: Seq<char>, text: Seq<char>) -> bool {
        &&& self.path@ == path
        &&& self.contents matches ArtifactContents::Text(t) && t@ == text
    }
}

/// The five files of the bundle, in write order, as a function of the
/// request's directory, system and `n`, the proof, its public values and
/// the bare verification-key digest.
pub open spec fn is_bundle(
    r: Seq<Artifact>,
    dir: Seq<char>,
    system: ProofSystem,
    n: nat,
    proof: Seq<u8>,
    public_values: Seq<u8>,
    vk_hash: Seq<char>,
) -> bool {
    &&& r.len() == 5
    &&& r[0].holds_bytes(proof_path(dir, system, n), proof)
    &&& r[1].holds_bytes(public_values_path(dir, n), public_values)
    &&& r[2].holds_text(vkey_path(dir), vkey_document(vk_hash))
    &&& r[3].holds_text(call_data_path(dir, n), call_data_document(public_values, proof, n))
    &&& r[4].holds_text(summary_path(dir, n), summary_document(system, n, vk_hash, public_values, proof))
}

/// Lays out the bundle for a completed run. Writing stops at the first
/// failed file, so a reader checks every path before trusting a bundle.
pub fn bundle(request: &ProofRequest, proof: &[u8], public_values: &[u8], vk_hash: &str) -> (r: Vec<Artifact>)
    ensures
        is_bundle(r@, request.output_dir@, request.system, request.n as nat, proof@, public_values@, vk_hash@),
{
    let dir = request.output_dir.as_str();
    let n = request.n;
    let mut vkey = String::from_str("0x");
    vkey.append(vk_hash);
    let mut r: Vec<Artifact> = Vec::new();
    r.push(Artifact { path: proof_file_path(dir, request.system, n), contents: ArtifactContents::Bytes(slice_to_vec(proof)) });
    r.push(Artifact { path: public_values_file_path(dir, n), contents: ArtifactContents::Bytes(slice_to_vec(public_values)) });
    r.push(Artifact { path: vkey_file_path(dir), contents: ArtifactContents::Text(vkey) });
    r.push(Artifact { path: call_data_file_path(dir, n), contents: ArtifactContents::Text(render_call_data(public_values, proof, n)) });
    r.push(Artifact { path: summary_file_path(dir, n), contents: ArtifactContents::Text(render_summary(request.system, n, vk_hash, public_values, proof)) });
    r
}

/// Two runs with the same directory, system, `n`, proof and key lay out
/// the same bundle, file for file.
pub proof fn lemma_bundle_determined(
    a: Seq<Artifact>,
    b: Seq<Artifact>,
    dir: Seq<char>,
    system: ProofSystem,
    n: nat,
    proof: Seq<u8>,
    public_values: Seq<u8>,
    vk_hash: Seq<char>,
)
    requires
        is_bundle(a, dir, system, n, proof, public_values, vk_hash),
        is_bundle(b, dir, system, n, proof, public_values, vk_hash),
    ensures
        forall|i: int| 0 <= i < 5 ==> (#[trigger] a[i]).path@ == b[i].path@,
        forall|i: int| 0 <= i < 5 ==> match ((#[trigger] a[i]).contents, b[i].contents) {
            (ArtifactContents::Bytes(x), ArtifactContents::Bytes(y)) => x@ == y@,
            (ArtifactContents::Text(x), ArtifactContents::Text(y)) => x@ == y@,
            _ => false,
        },
{
    assert forall|i: int| 0 <= i < 5 implies (#[trigger] a[i]).path@ == b[i].path@ by {
        if i == 0 {} else if i == 1 {} else if i == 2 {} else if i == 3 {} else {}
    }
    assert forall|i: int| 0 <= i < 5 implies match ((#[trigger] a[i]).contents, b[i].contents) {
        (ArtifactContents::Bytes(x), ArtifactContents::Bytes(y)) => x@ == y@,
        (ArtifactContents::Text(x), ArtifactContents::Text(y)) => x@ == y@,
        _ => false,
    } by {
        if i == 0 {} else if i == 1 {} else if i == 2 {} else if i == 3 {} else {}
    }
}

} // verus!
