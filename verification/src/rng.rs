use vstd::prelude::*;
use rand::RngExt;

verus! {

/// Relies on `rand::rng` and `rand::RngExt::random_range`: on the non-empty
/// range `0..n` the call returns a uniformly chosen value of that range, so
/// the result is below `n`. Uniformity is not stated: nothing here depends
/// on which value comes back.
#[verifier::external_body]
pub(crate) fn random_below(n: usize) -> (r: usize)
    requires
        n > 0,
    ensures
        r < n,
{
    rand::rng().random_range(0..n)
}

} // verus!
