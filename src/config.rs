//! Configuration values of one proving run, validated once at the boundary.

use vstd::prelude::*;
use crate::fib::MAX_N;

verus! {

/// Whether `s` and `t` hold the same characters.
pub fn text_eq(s: &str, t: &str) -> (r: bool)
    ensures
        r == (s@ == t@),
{
    let len = s.unicode_len();
    if len != t.unicode_len() {
        return false;
    }
    let mut i: usize = 0;
    while i < len
        invariant
            len == s@.len(),
            len == t@.len(),
            i <= len,
            forall|j: int| 0 <= j < i ==> s@[j] == t@[j],
        decreases len - i,
    {
        if s.get_char(i) != t.get_char(i) {
            return false;
        }
        i = i + 1;
    }
    assert(s@ =~= t@);
    true
}

/// The succinct proof construction a proof is wrapped in.
#[derive(Clone, Copy, Debug, PartialEq, Eq, Structural)]
pub enum ProofSystem {
    Groth16,
    Plonk,
}

/// Where proving runs: a fast insecure stand-in, the local CPU, or a
/// remote proving service.
#[derive(Clone, Copy, Debug, PartialEq, Eq, Structural)]
pub enum ProverMode {
    Mock,
    Cpu,
    Network,
}

pub open spec fn system_spelling(s: ProofSystem) -> Seq<char> {
    match s {
        ProofSystem::Groth16 => "groth16"@,
        ProofSystem::Plonk => "plonk"@,
    }
}

pub open spec fn system_title(s: ProofSystem) -> Seq<char> {
    match s {
        ProofSystem::Groth16 => "GROTH16"@,
        ProofSystem::Plonk => "PLONK"@,
    }
}

/// The proof system spelled `s`, if any.
pub open spec fn system_named(s: Seq<char>) -> Option<ProofSystem> {
    if s == "groth16"@ {
        Some(ProofSystem::Groth16)
    } else if s == "plonk"@ {
        Some(ProofSystem::Plonk)
    } else {
        None
    }
}

/// The prover mode spelled `s`, if any.
pub open spec fn mode_named(s: Seq<char>) -> Option<ProverMode> {
    if s == "mock"@ {
        Some(ProverMode::Mock)
    } else if s == "cpu"@ {
        Some(ProverMode::Cpu)
    } else if s == "network"@ {
        Some(ProverMode::Network)
    } else {
        None
    }
}

impl ProofSystem {
    /// Recognises `groth16` and `plonk`; anything else is `None`.
    pub fn parse(s: &str) -> (r: Option<ProofSystem>)
        ensures
            r == system_named(s@),
    {
        if text_eq(s, "groth16") {
            Some(ProofSystem::Groth16)
        } else if text_eq(s, "plonk") {
            Some(ProofSystem::Plonk)
        } else {
            None
        }
    }

    /// The lower-case spelling, as used in file names.
    pub fn name(&self) -> (r: &'static str)
        ensures
            r@ == system_spelling(*self),
    {
        match self {
            ProofSystem::Groth16 => "groth16",
            ProofSystem::Plonk => "plonk",
        }
    }

    /// The upper-case spelling, as used in titles.
    pub fn title(&self) -> (r: &'static str)
        ensures
            r@ == system_title(*self),
    {
        match self {
            ProofSystem::Groth16 => "GROTH16",
            ProofSystem::Plonk => "PLONK",
        }
    }
}

impl ProverMode {
    /// Recognises `mock`, `cpu` and `network`; anything else is `None`.
    pub fn parse(s: &str) -> (r: Option<ProverMode>)
        ensures
            r == mode_named(s@),
    {
        if text_eq(s, "mock") {
            Some(ProverMode::Mock)
        } else if text_eq(s, "cpu") {
            Some(ProverMode::Cpu)
        } else if text_eq(s, "network") {
            Some(ProverMode::Network)
        } else {
            None
        }
    }
}

/// A configuration value that was refused before any work began.
#[derive(Clone, Copy, Debug, PartialEq, Eq, Structural)]
pub enum ConfigError {
    /// The proof system is neither `groth16` nor `plonk`.
    UnknownSystem,
    /// The prover mode is not `mock`, `cpu` or `network`.
    UnknownMode,
    /// The input exceeds `MAX_N`.
    InputTooLarge,
}

/// One validated proving request.
#[derive(Debug)]
pub struct ProofRequest {
    pub n: u32,
    pub system: ProofSystem,
    pub mode: ProverMode,
    pub persist_artifacts: bool,
    pub output_dir: String,
}

impl ProofRequest {
    pub open spec fn wf(&self) -> bool {
        self.n <= MAX_N
    }

    /// Validates raw configuration values: the system first, then the
    /// mode, then the bound on `n`.
    pub fn from_config(
        n: u32,
        system: &str,
        mode: &str,
        persist_artifacts: bool,
        output_dir: String,
    ) -> (r: Result<ProofRequest, ConfigError>)
        ensures
            system_named(system@) is None <==> r == Err::<ProofRequest, ConfigError>(
                ConfigError::UnknownSystem,
            ),
            system_named(system@) is Some && mode_named(mode@) is None <==> r == Err::<
                ProofRequest,
                ConfigError,
            >(ConfigError::UnknownMode),
            system_named(system@) is Some && mode_named(mode@) is Some && n > MAX_N <==> r
                == Err::<ProofRequest, ConfigError>(ConfigError::InputTooLarge),
            r is Ok <==> system_named(system@) is Some && mode_named(mode@) is Some && n <= MAX_N,
            r matches Ok(q) ==> q.wf() && q.n == n && Some(q.system) == system_named(system@)
                && Some(q.mode) == mode_named(mode@) && q.persist_artifacts == persist_artifacts
                && q.output_dir@ == output_dir@,
    {
        let system = match ProofSystem::parse(system) {
            Some(s) => s,
            None => return Err(ConfigError::UnknownSystem),
        };
        let mode = match ProverMode::parse(mode) {
            Some(m) => m,
            None => return Err(ConfigError::UnknownMode),
        };
        if n > MAX_N {
            return Err(ConfigError::InputTooLarge);
        }
        Ok(ProofRequest { n, system, mode, persist_artifacts, output_dir })
    }
}

} // verus!
