//! Two pure, stateless entry points: a fixed greeting and unsigned
//! addition on the native word size. The host-facing binding layer that
//! exports them lives outside this crate and forwards to these functions.

use vstd::prelude::*;
use vstd::string::StringExecFns;

verus! {

/// The mathematical value that `sum` computes.
pub open spec fn spec_sum(a: int, b: int) -> int {
    a + b
}

/// Returns the fixed text "Hello World"; every call yields the same value.
pub fn hello_world() -> (r: String)
    ensures
        r@ == "Hello World"@,
{
    String::from_str("Hello World")
}

/// Adds two native unsigned integers. Overflow of the native range is
/// ruled out by the caller, so the result is the exact arithmetic sum.
pub fn sum(a: usize, b: usize) -> (r: usize)
    requires
        a + b <= usize::MAX,
    ensures
        r == spec_sum(a as int, b as int),
{
    a + b
}

/// Addition is commutative: for all valid operands, swapping them
/// leaves the value of `sum` unchanged.
pub proof fn lemma_sum_commutative(a: usize, b: usize)
    requires
        a + b <= usize::MAX,
    ensures
        spec_sum(a as int, b as int) == spec_sum(b as int, a as int),
{
}

} // verus!
