//! Verified core of a proof-generation pipeline around a Fibonacci kernel:
//! the kernel and its public-values encoding, request configuration, the
//! proving orchestration state machine, artifact naming and rendering, and
//! the client that prepares and judges a remote verification call.

pub mod fib;
pub mod public_values;
pub mod kernel;
pub mod config;
pub mod hexstr;
pub mod artifacts;
pub mod orchestrator;
pub mod client;
