//! The crate's single source of randomness: a thin wrapper over the `rand`
//! crate's thread-local generator.

use rand::RngExt;
use vstd::prelude::*;

verus! {

/// Relies on `rand::rng()` and `RngExt::random_range`: sampling an inclusive
/// integer range returns a value inside it, and panics only when the range is
/// empty, which the precondition rules out. Nothing is claimed about which
/// value comes back: every caller must handle each value in the range.
#[verifier::external_body]
pub(crate) fn random_in_range(lo: i32, hi: i32) -> (r: i32)
    requires
        lo <= hi,
    ensures
        lo <= r <= hi,
{
    rand::rng().random_range(lo..=hi)
}

} // verus!
