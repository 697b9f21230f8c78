//! The Fibonacci pair that the provable kernel computes, in 32-bit
//! wrapping arithmetic.

use vstd::prelude::*;

verus! {

/// Largest input the kernel accepts.
pub const MAX_N: u32 = 10000;

/// The Fibonacci sequence with `fib(0) == 0` and `fib(1) == 1`.
pub open spec fn fib(k: nat) -> nat
    decreases k,
{
    if k == 0 {
        0
    } else if k == 1 {
        1
    } else {
        fib((k - 2) as nat) + fib((k - 1) as nat)
    }
}

/// `fib(k)` reduced to a 32-bit word.
pub open spec fn fib_word(k: nat) -> u32 {
    (fib(k) % 0x1_0000_0000) as u32
}

/// The pair `(a, b)` that the kernel reports for `n`: `a` is the term
/// before `b`, starting from `(0, 1)` at `n == 0`.
pub open spec fn fib_pair(n: nat) -> (u32, u32) {
    (fib_word(n), fib_word(n + 1))
}

proof fn lemma_fib_word_step(k: nat)
    ensures
        fib_word(k + 2) == (fib_word(k) as int + fib_word(k + 1) as int) % 0x1_0000_0000,
{
    let m: int = 0x1_0000_0000;
    assert(fib(k + 2) == fib(k) + fib(k + 1));
    vstd::arithmetic::div_mod::lemma_add_mod_noop(fib(k) as int, fib(k + 1) as int, m);
}

/// Computes `(fib(n), fib(n + 1))`, each wrapped to 32 bits.
pub fn fibonacci(n: u32) -> (r: (u32, u32))
    ensures
        r == fib_pair(n as nat),
{
    let mut a: u32 = 0;
    let mut b: u32 = 1;
    let mut i: u32 = 0;
    while i < n
        invariant
            i <= n,
            a == fib_word(i as nat),
            b == fib_word(i as nat + 1),
        decreases n - i,
    {
        proof {
            lemma_fib_word_step(i as nat);
        }
        let c = a.wrapping_add(b);
        a = b;
        b = c;
        i = i + 1;
    }
    (a, b)
}

} // verus!
