//! The provable program: checks its input, computes the Fibonacci pair
//! and commits the encoded result.

use vstd::prelude::*;
use crate::fib::{fib_pair, fibonacci, MAX_N};
use crate::public_values::{abi_decoded, lemma_public_values_round_trip, PublicValues};

verus! {

/// Why a kernel run aborted.
#[derive(Clone, Copy, Debug, PartialEq, Eq, Structural)]
pub enum KernelError {
    /// The input exceeds `MAX_N`.
    InputTooLarge,
}

/// What a completed kernel run commits.
#[derive(Debug)]
pub struct KernelOutput {
    pub result: PublicValues,
    /// The public values as committed: the canonical encoding of `result`.
    pub committed: Vec<u8>,
}

/// The result the kernel owes for an accepted `n`.
pub open spec fn kernel_result(n: u32) -> PublicValues {
    PublicValues { n, a: fib_pair(n as nat).0, b: fib_pair(n as nat).1 }
}

/// Runs the kernel on `n`. Inputs above `MAX_N` abort the run before
/// anything is computed or committed.
pub fn run_kernel(n: u32) -> (r: Result<KernelOutput, KernelError>)
    ensures
        n > MAX_N <==> r is Err,
        r matches Err(e) ==> e == KernelError::InputTooLarge,
        r matches Ok(out) ==> out.result == kernel_result(n) && out.committed@
            == out.result.encoding(),
{
    if n > MAX_N {
        return Err(KernelError::InputTooLarge);
    }
    let (a, b) = fibonacci(n);
    proof {
        reveal_with_fuel(crate::fib::fib, 3);
        if n == 0 {
            assert(a == 0 && b == 1);
        } else if n == 1 {
            assert(a == 1 && b == 1);
        }
    }
    let result = PublicValues { n, a, b };
    let committed = result.encode();
    Ok(KernelOutput { result, committed })
}

/// Every accepted input yields the Fibonacci pair, and the committed bytes
/// decode back to exactly `(n, a, b)`.
pub proof fn lemma_kernel_output_decodes(n: u32)
    requires
        n <= MAX_N,
    ensures
        abi_decoded(kernel_result(n).encoding()) == Some((n, fib_pair(n as nat).0, fib_pair(n as nat).1)),
{
    lemma_public_values_round_trip(kernel_result(n));
}

} // verus!
