//! The one source of randomness: the process-global generator.

use vstd::prelude::*;

verus! {

/// Relies on `fastrand::u64` on the range `..n`: the result is drawn from
/// the crate's global generator and always lies below `n`. Nothing more is
/// assumed of it; every caller states what holds whatever value comes back.
#[verifier::external_body]
pub(crate) fn random_below(n: u64) -> (r: u64)
    requires
        n >= 1,
    ensures
        r < n,
{
    fastrand::u64(..n)
}

} // verus!
