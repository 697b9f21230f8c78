use fibonacci_proof::config::{ProofRequest, ProofSystem};
use fibonacci_proof::kernel::run_kernel;
use fibonacci_proof::orchestrator::{Action, Event, Orchestrator, Phase, PipelineError};
use fibonacci_proof::public_values::PublicValues;

fn request(n: u32, system: &str, persist: bool) -> ProofRequest {
    ProofRequest::from_config(n, system, "mock", persist, "artifacts".to_string()).unwrap()
}

fn committed(n: u32) -> Vec<u8> {
    run_kernel(n).unwrap().committed
}

#[test]
fn full_run_with_artifacts() {
    let (mut o, first) = Orchestrator::start(request(10, "plonk", true));
    assert_eq!(first, Action::Execute);
    assert_eq!(o.step(Event::DryRun(Some(committed(10)))), Action::Prove(ProofSystem::Plonk));
    assert_eq!(o.step(Event::Proved(Some(committed(10)))), Action::VerifyLocally);
    assert_eq!(o.step(Event::LocalCheck(true)), Action::Persist);
    let v = PublicValues { n: 10, a: 55, b: 89 };
    assert_eq!(o.step(Event::Persisted(true)), Action::Complete(v));
    assert_eq!(o.phase, Phase::Finished(v));
}

#[test]
fn run_without_artifacts_finishes_after_local_check() {
    let (mut o, _) = Orchestrator::start(request(1, "groth16", false));
    assert_eq!(o.step(Event::DryRun(Some(committed(1)))), Action::Prove(ProofSystem::Groth16));
    assert_eq!(o.step(Event::Proved(Some(committed(1)))), Action::VerifyLocally);
    assert_eq!(o.step(Event::LocalCheck(true)), Action::Complete(PublicValues { n: 1, a: 1, b: 1 }));
}

#[test]
fn failed_dry_run_never_proves() {
    let (mut o, _) = Orchestrator::start(request(5, "groth16", true));
    assert_eq!(o.step(Event::DryRun(None)), Action::Abort(PipelineError::ExecutionError));
    assert_eq!(o.step(Event::Proved(Some(committed(5)))), Action::Abort(PipelineError::ExecutionError));
}

#[test]
fn undecodable_dry_run_never_proves() {
    let (mut o, _) = Orchestrator::start(request(5, "groth16", true));
    assert_eq!(o.step(Event::DryRun(Some(vec![1, 2, 3]))), Action::Abort(PipelineError::ExecutionError));
}

#[test]
fn dry_run_for_another_input_is_an_execution_error() {
    let (mut o, _) = Orchestrator::start(request(5, "groth16", true));
    assert_eq!(o.step(Event::DryRun(Some(committed(6)))), Action::Abort(PipelineError::ExecutionError));
}

#[test]
fn proving_failure_is_reported() {
    let (mut o, _) = Orchestrator::start(request(5, "plonk", true));
    o.step(Event::DryRun(Some(committed(5))));
    assert_eq!(o.step(Event::Proved(None)), Action::Abort(PipelineError::ProvingError));
}

#[test]
fn proof_with_other_public_values_is_a_decoding_error() {
    let (mut o, _) = Orchestrator::start(request(5, "plonk", true));
    o.step(Event::DryRun(Some(committed(5))));
    let other = PublicValues { n: 5, a: 5, b: 9 }.encode();
    assert_eq!(o.step(Event::Proved(Some(other))), Action::Abort(PipelineError::DecodingError));
}

#[test]
fn local_verification_failure_is_fatal() {
    let (mut o, _) = Orchestrator::start(request(5, "plonk", true));
    o.step(Event::DryRun(Some(committed(5))));
    o.step(Event::Proved(Some(committed(5))));
    assert_eq!(o.step(Event::LocalCheck(false)), Action::Abort(PipelineError::LocalVerificationFailure));
}

#[test]
fn persistence_failure_is_reported() {
    let (mut o, _) = Orchestrator::start(request(5, "plonk", true));
    o.step(Event::DryRun(Some(committed(5))));
    o.step(Event::Proved(Some(committed(5))));
    o.step(Event::LocalCheck(true));
    assert_eq!(o.step(Event::Persisted(false)), Action::Abort(PipelineError::PersistenceError));
}

#[test]
fn out_of_order_event_repeats_the_pending_action() {
    let (mut o, _) = Orchestrator::start(request(5, "plonk", true));
    assert_eq!(o.step(Event::LocalCheck(true)), Action::Execute);
    assert_eq!(o.phase, Phase::AwaitingDryRun);
    assert_eq!(o.pending_action(), Action::Execute);
}
