//! The two draws the games take from the rand crate: a uniform lane
//! index and a uniform timer reset. Nothing is assumed about the draws
//! beyond their range; every caller is verified for every value the
//! contracts admit.

use vstd::prelude::*;
use rand::Rng;

verus! {

/// Relies on rand's `Uniform::new(0, n)` and `Rng::sample`: the sample
/// of that distribution lies in `[0, n)`. `Uniform::new` panics on an
/// empty range, so one is ruled out here.
#[verifier::external_body]
pub(crate) fn rand_index(n: usize) -> (r: usize)
    requires
        n >= 1,
    ensures
        r < n,
{
    let uniform = rand::distributions::Uniform::new(0usize, n);
    rand::thread_rng().sample(uniform)
}

/// Relies on rand's `Rng::gen_range`: the result of `gen_range(lo..hi)`
/// lies in `[lo, hi)`. The call panics on an empty range, so one is
/// ruled out here.
#[verifier::external_body]
pub(crate) fn rand_range_u32(lo: u32, hi: u32) -> (r: u32)
    requires
        lo < hi,
    ensures
        lo <= r < hi,
{
    rand::thread_rng().gen_range(lo..hi)
}

} // verus!
