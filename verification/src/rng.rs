//! Randomness for the spawners. The one outside call is wrapped here with
//! a contract that states only what holds of every outcome: the sampled
//! value lies in the half-open range it was asked for.

use vstd::prelude::*;

use rand::Rng;

verus! {

/// Relies on `rand::Rng::gen_range` over an `i64` range: the sample lies
/// in `[lo, hi)`; the call panics only on an empty range, which the
/// precondition rules out. Nothing more is assumed — in particular not
/// which value comes back, so callers hold for every outcome.
#[verifier::external_body]
pub(crate) fn rand_i64(lo: i64, hi: i64) -> (r: i64)
    requires
        lo < hi,
    ensures
        lo <= r < hi,
{
    rand::thread_rng().gen_range(lo..hi)
}

} // verus!
