//! Uniform randomness, drawn from the process-wide generator.

use vstd::prelude::*;

verus! {

/// Relies on `rand::random_range` over `0..n`: the result always lies in that
/// range (the function panics only on an empty range, which `n >= 1`
/// excludes). Uniformity and independence across calls are statistical
/// properties of the generator and are not modelled here; callers state only
/// what holds of every outcome.
#[verifier::external_body]
pub(crate) fn rand_below(n: u64) -> (r: u64)
    requires
        n >= 1,
    ensures
        r < n,
{
    rand::random_range(0..n)
}

} // verus!
