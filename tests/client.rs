use fibonacci_proof::artifacts::render_call_data;
use fibonacci_proof::client::{
    contains_text, decode_call_arguments, judge_reply, load_call_data, strip_hex_prefix,
    vkey_matches, ClientError, RemoteReply,
};
use fibonacci_proof::public_values::PublicValues;

fn encoded_ten() -> Vec<u8> {
    PublicValues { n: 10, a: 55, b: 89 }.encode()
}

#[test]
fn hex_prefix_is_optional() {
    assert_eq!(strip_hex_prefix("0xabc"), "abc");
    assert_eq!(strip_hex_prefix("abc"), "abc");
    assert_eq!(strip_hex_prefix("0"), "0");
    assert_eq!(strip_hex_prefix("0x"), "");
}

#[test]
fn missing_document_is_artifact_not_found() {
    assert_eq!(load_call_data(None).err(), Some(ClientError::ArtifactNotFound));
}

#[test]
fn rendered_document_loads_back() {
    let pv = encoded_ten();
    let proof = vec![0xde, 0xad, 0xbe, 0xef];
    let doc = render_call_data(&pv, &proof, 10);
    let payload = load_call_data(Some(&doc)).unwrap();
    assert_eq!(payload.proof, proof);
    assert_eq!(payload.public_values, pv);
    assert_eq!(payload.expected, PublicValues { n: 10, a: 55, b: 89 });
}

#[test]
fn document_without_arguments_is_a_decoding_error() {
    assert_eq!(load_call_data(Some("{}")).err(), Some(ClientError::DecodingError));
    assert_eq!(load_call_data(Some("not json")).err(), Some(ClientError::DecodingError));
    let doc = r#"{"parameters": {"proofBytes": "0x00"}}"#;
    assert_eq!(load_call_data(Some(doc)).err(), Some(ClientError::DecodingError));
}

#[test]
fn decodes_arguments_in_either_case() {
    let pv_hex = format!("0x{}", hex::encode(encoded_ten()));
    let payload = decode_call_arguments("0xABcd", &pv_hex).unwrap();
    assert_eq!(payload.proof, vec![0xab, 0xcd]);
    assert_eq!(payload.expected.n, 10);
    let bare = decode_call_arguments("abcd", &pv_hex[2..]).unwrap();
    assert_eq!(bare.public_values, encoded_ten());
}

#[test]
fn corrupted_proof_text_is_a_decoding_error() {
    let pv_hex = hex::encode(encoded_ten());
    assert_eq!(decode_call_arguments("0xabc", &pv_hex).err(), Some(ClientError::DecodingError));
    assert_eq!(decode_call_arguments("0xzz", &pv_hex).err(), Some(ClientError::DecodingError));
}

#[test]
fn truncated_public_values_are_a_decoding_error() {
    let pv_hex = hex::encode(encoded_ten());
    let truncated = &pv_hex[..pv_hex.len() - 2];
    assert_eq!(decode_call_arguments("00", truncated).err(), Some(ClientError::DecodingError));
}

#[test]
fn accepts_the_fibonacci_pair_of_ten() {
    let r = judge_reply(&RemoteReply::Returned(10, 55, 89));
    assert_eq!(r, Ok(PublicValues { n: 10, a: 55, b: 89 }));
    assert_eq!(judge_reply(&RemoteReply::Returned(0, 0, 1)), Ok(PublicValues { n: 0, a: 0, b: 1 }));
}

#[test]
fn refuses_inconsistent_returns() {
    assert_eq!(judge_reply(&RemoteReply::Returned(10, 55, 90)), Err(ClientError::InconsistentResult));
    assert_eq!(judge_reply(&RemoteReply::Returned(10, 34, 55)), Err(ClientError::InconsistentResult));
    assert_eq!(judge_reply(&RemoteReply::Returned(20000, 0, 0)), Err(ClientError::InconsistentResult));
}

#[test]
fn classifies_failures() {
    let revert = RemoteReply::Failed("server returned an error response: execution reverted".to_string());
    assert_eq!(judge_reply(&revert), Err(ClientError::VerificationRejected));
    let transport = RemoteReply::Failed("error sending request: connection refused".to_string());
    assert_eq!(judge_reply(&transport), Err(ClientError::TransportError));
}

#[test]
fn substring_search() {
    assert!(contains_text("execution reverted", "revert"));
    assert!(contains_text("revert", "revert"));
    assert!(!contains_text("rever", "revert"));
    assert!(contains_text("abc", ""));
    assert!(!contains_text("", "a"));
}

#[test]
fn vkey_comparison() {
    assert!(vkey_matches("0x00ff", &[0x00, 0xff]));
    assert!(vkey_matches("00ff", &[0x00, 0xff]));
    assert!(!vkey_matches("0x00fe", &[0x00, 0xff]));
}
