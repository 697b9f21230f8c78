use fibonacci_proof::config::{text_eq, ConfigError, ProofRequest, ProofSystem, ProverMode};

#[test]
fn parses_proof_systems() {
    assert_eq!(ProofSystem::parse("groth16"), Some(ProofSystem::Groth16));
    assert_eq!(ProofSystem::parse("plonk"), Some(ProofSystem::Plonk));
    assert_eq!(ProofSystem::parse("stark"), None);
    assert_eq!(ProofSystem::parse("Groth16"), None);
    assert_eq!(ProofSystem::parse(""), None);
}

#[test]
fn system_spellings() {
    assert_eq!(ProofSystem::Groth16.name(), "groth16");
    assert_eq!(ProofSystem::Plonk.name(), "plonk");
    assert_eq!(ProofSystem::Groth16.title(), "GROTH16");
    assert_eq!(ProofSystem::Plonk.title(), "PLONK");
}

#[test]
fn parses_prover_modes() {
    assert_eq!(ProverMode::parse("mock"), Some(ProverMode::Mock));
    assert_eq!(ProverMode::parse("cpu"), Some(ProverMode::Cpu));
    assert_eq!(ProverMode::parse("network"), Some(ProverMode::Network));
    assert_eq!(ProverMode::parse("gpu"), None);
}

#[test]
fn unknown_system_is_refused_first() {
    let r = ProofRequest::from_config(10, "stark", "mock", true, "artifacts".to_string());
    assert_eq!(r.err(), Some(ConfigError::UnknownSystem));
    let r = ProofRequest::from_config(20000, "stark", "bogus", true, "artifacts".to_string());
    assert_eq!(r.err(), Some(ConfigError::UnknownSystem));
}

#[test]
fn unknown_mode_is_refused() {
    let r = ProofRequest::from_config(10, "plonk", "bogus", true, "artifacts".to_string());
    assert_eq!(r.err(), Some(ConfigError::UnknownMode));
}

#[test]
fn oversized_input_is_refused() {
    let r = ProofRequest::from_config(10001, "plonk", "cpu", true, "artifacts".to_string());
    assert_eq!(r.err(), Some(ConfigError::InputTooLarge));
}

#[test]
fn valid_request() {
    let q = ProofRequest::from_config(10, "groth16", "network", false, "out".to_string()).unwrap();
    assert_eq!(q.n, 10);
    assert_eq!(q.system, ProofSystem::Groth16);
    assert_eq!(q.mode, ProverMode::Network);
    assert!(!q.persist_artifacts);
    assert_eq!(q.output_dir, "out");
}

#[test]
fn text_equality() {
    assert!(text_eq("abc", "abc"));
    assert!(!text_eq("abc", "abd"));
    assert!(!text_eq("abc", "ab"));
    assert!(text_eq("", ""));
}
