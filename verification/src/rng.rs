//! Trusted access to the process-wide randomness source. Nothing can be
//! promised about a random value beyond its range, so callers take these
//! results as arguments and are verified for every value.

use vstd::prelude::*;

verus! {

/// Relies on rand's `Rng::gen_range` over the thread-local generator: the
/// result lies in the inclusive range; the call panics on an empty range,
/// which the precondition rules out.
#[verifier::external_body]
pub(crate) fn rand_range_i32(low: i32, high: i32) -> (r: i32)
    requires
        low <= high,
    ensures
        low <= r <= high,
{
    rand::Rng::gen_range(&mut rand::thread_rng(), low..=high)
}

/// Relies on rand's `Rng::gen_range` over the thread-local generator: the
/// result is a valid index below `n`; the call panics on an empty range,
/// which the precondition rules out.
#[verifier::external_body]
pub(crate) fn rand_below(n: usize) -> (r: usize)
    requires
        n >= 1,
    ensures
        r < n,
{
    rand::Rng::gen_range(&mut rand::thread_rng(), 0..n)
}

} // verus!
