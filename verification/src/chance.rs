//! Random numbers, drawn from the generator of the calling thread.

use rand::Rng;
use vstd::prelude::*;

verus! {

/// `Rng::gen` on `rand::thread_rng()`, at `u64`: a number drawn evenly from
/// all of `u64`. Nothing is promised of it.
#[verifier::external_body]
pub(crate) fn any_u64() -> (n: u64) {
    rand::thread_rng().gen::<u64>()
}

/// `Rng::gen_range` on `rand::thread_rng()`, at `u64`: a number from `low`
/// up to, but not including, `high`. The outside function panics unless
/// `low < high`.
#[verifier::external_body]
pub(crate) fn u64_between(low: u64, high: u64) -> (n: u64)
    requires
        low < high,
    ensures
        low <= n,
        n < high,
{
    rand::thread_rng().gen_range(low, high)
}

} // verus!
