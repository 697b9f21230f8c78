//! Decisions of one proving run, as a state machine. The host performs
//! each returned action (dry run, proving, local verification, writing
//! the bundle) and reports its outcome back as an event.

use vstd::prelude::*;
use crate::config::{ProofRequest, ProofSystem};
use crate::public_values::{abi_decoded, PublicValues};

verus! {

/// Why a run stopped.
#[derive(Clone, Copy, Debug, PartialEq, Eq, Structural)]
pub enum PipelineError {
    /// The dry run aborted, or its public values did not decode to a
    /// result for the requested `n`.
    ExecutionError,
    /// The backend failed to produce a proof.
    ProvingError,
    /// The public values carried by the proof differ from the dry run's.
    DecodingError,
    /// A proof this run produced failed verification against its own key.
    LocalVerificationFailure,
    /// Writing the artifact bundle failed.
    PersistenceError,
}

/// Where a run stands. The result is the one the dry run established.
#[derive(Clone, Copy, Debug, PartialEq, Eq, Structural)]
pub enum Phase {
    AwaitingDryRun,
    AwaitingProof(PublicValues),
    AwaitingLocalCheck(PublicValues),
    AwaitingPersist(PublicValues),
    Finished(PublicValues),
    Failed(PipelineError),
}

/// The outcome of the last action, as the host observed it.
#[derive(Debug)]
pub enum Event {
    /// The committed public values of the dry run; `None` if it aborted.
    DryRun(Option<Vec<u8>>),
    /// The public values embedded in the new proof; `None` if proving failed.
    Proved(Option<Vec<u8>>),
    /// Whether the proof verified against the program's key.
    LocalCheck(bool),
    /// Whether every artifact file was written.
    Persisted(bool),
}

/// What the host is to do next.
#[derive(Clone, Copy, Debug, PartialEq, Eq, Structural)]
pub enum Action {
    Execute,
    Prove(ProofSystem),
    VerifyLocally,
    Persist,
    Complete(PublicValues),
    Abort(PipelineError),
}

/// The action owed in a phase.
pub open spec fn pending(phase: Phase, system: ProofSystem) -> Action {
    match phase {
        Phase::AwaitingDryRun => Action::Execute,
        Phase::AwaitingProof(_) => Action::Prove(system),
        Phase::AwaitingLocalCheck(_) => Action::VerifyLocally,
        Phase::AwaitingPersist(_) => Action::Persist,
        Phase::Finished(v) => Action::Complete(v),
        Phase::Failed(e) => Action::Abort(e),
    }
}

/// The triple of a result.
pub open spec fn triple(v: PublicValues) -> (u32, u32, u32) {
    (v.n, v.a, v.b)
}

/// The phase that follows `phase` on `event`. An event that does not
/// answer the pending action leaves the phase as it is.
pub open spec fn next_phase(req: ProofRequest, phase: Phase, event: Event) -> Phase {
    match (phase, event) {
        (Phase::AwaitingDryRun, Event::DryRun(Some(bytes))) => match abi_decoded(bytes@) {
            Some(t) => if t.0 == req.n {
                Phase::AwaitingProof(PublicValues { n: t.0, a: t.1, b: t.2 })
            } else {
                Phase::Failed(PipelineError::ExecutionError)
            },
            None => Phase::Failed(PipelineError::ExecutionError),
        },
        (Phase::AwaitingDryRun, Event::DryRun(None)) => Phase::Failed(PipelineError::ExecutionError),
        (Phase::AwaitingProof(v), Event::Proved(Some(bytes))) => if abi_decoded(bytes@) == Some(triple(v)) {
            Phase::AwaitingLocalCheck(v)
        } else {
            Phase::Failed(PipelineError::DecodingError)
        },
        (Phase::AwaitingProof(_), Event::Proved(None)) => Phase::Failed(PipelineError::ProvingError),
        (Phase::AwaitingLocalCheck(v), Event::LocalCheck(ok)) => if !ok {
            Phase::Failed(PipelineError::LocalVerificationFailure)
        } else if req.persist_artifacts {
            Phase::AwaitingPersist(v)
        } else {
            Phase::Finished(v)
        },
        (Phase::AwaitingPersist(v), Event::Persisted(ok)) => if ok {
            Phase::Finished(v)
        } else {
            Phase::Failed(PipelineError::PersistenceError)
        },
        _ => phase,
    }
}

/// A proving run over one validated request.
#[derive(Debug)]
pub struct Orchestrator {
    pub request: ProofRequest,
    pub phase: Phase,
}

impl Orchestrator {
    /// Every result a phase carries is for the requested `n`.
    pub open spec fn wf(&self) -> bool {
        &&& self.request.wf()
        &&& match self.phase {
            Phase::AwaitingProof(v) | Phase::AwaitingLocalCheck(v) | Phase::AwaitingPersist(v)
            | Phase::Finished(v) => v.n == self.request.n,
            _ => true,
        }
    }

    /// Starts a run; the first action is always the dry run.
    pub fn start(request: ProofRequest) -> (r: (Orchestrator, Action))
        requires
            request.wf(),
        ensures
            r.0.wf(),
            r.0.request == request,
            r.0.phase == Phase::AwaitingDryRun,
            r.1 == Action::Execute,
    {
        (Orchestrator { request, phase: Phase::AwaitingDryRun }, Action::Execute)
    }

    /// The action owed in the current phase.
    pub fn pending_action(&self) -> (r: Action)
        ensures
            r == pending(self.phase, self.request.system),
    {
        match self.phase {
            Phase::AwaitingDryRun => Action::Execute,
            Phase::AwaitingProof(_) => Action::Prove(self.request.system),
            Phase::AwaitingLocalCheck(_) => Action::VerifyLocally,
            Phase::AwaitingPersist(_) => Action::Persist,
            Phase::Finished(v) => Action::Complete(v),
            Phase::Failed(e) => Action::Abort(e),
        }
    }

    /// Takes the outcome of the last action and returns the next one.
    /// Proving is asked for only in the phase that is entered from a dry
    /// run whose public values decoded to a result for the requested `n`.
    pub fn step(&mut self, event: Event) -> (r: Action)
        requires
            old(self).wf(),
        ensures
            final(self).wf(),
            final(self).request == old(self).request,
            final(self).phase == next_phase(old(self).request, old(self).phase, event),
            r == pending(final(self).phase, final(self).request.system),
            r is Prove ==> final(self).phase is AwaitingProof,
            final(self).phase is AwaitingProof ==> old(self).phase == final(self).phase || (
            old(self).phase == Phase::AwaitingDryRun && (event matches Event::DryRun(Some(bytes))
                && abi_decoded(bytes@) matches Some(t) && t.0 == old(self).request.n)),
    {
        let next = match (self.phase, &event) {
            (Phase::AwaitingDryRun, Event::DryRun(Some(bytes))) => match PublicValues::decode(
                bytes.as_slice(),
            ) {
                Some(v) => if v.n == self.request.n {
                    Phase::AwaitingProof(v)
                } else {
                    Phase::Failed(PipelineError::ExecutionError)
                },
                None => Phase::Failed(PipelineError::ExecutionError),
            },
            (Phase::AwaitingDryRun, Event::DryRun(None)) => Phase::Failed(
                PipelineError::ExecutionError,
            ),
            (Phase::AwaitingProof(v), Event::Proved(Some(bytes))) => match PublicValues::decode(
                bytes.as_slice(),
            ) {
                Some(w) => if w == v {
                    Phase::AwaitingLocalCheck(v)
                } else {
                    Phase::Failed(PipelineError::DecodingError)
                },
                None => Phase::Failed(PipelineError::DecodingError),
            },
            (Phase::AwaitingProof(_), Event::Proved(None)) => Phase::Failed(
                PipelineError::ProvingError,
            ),
            (Phase::AwaitingLocalCheck(v), Event::LocalCheck(ok)) => if !*ok {
                Phase::Failed(PipelineError::LocalVerificationFailure)
            } else if self.request.persist_artifacts {
                Phase::AwaitingPersist(v)
            } else {
                Phase::Finished(v)
            },
            (Phase::AwaitingPersist(v), Event::Persisted(ok)) => if *ok {
                Phase::Finished(v)
            } else {
                Phase::Failed(PipelineError::PersistenceError)
            },
            _ => self.phase,
        };
        self.phase = next;
        self.pending_action()
    }
}

} // verus!
