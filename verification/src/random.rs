//! The game's source of chance.

use vstd::prelude::*;

verus! {

/// Draws a number below `r`. Calls `fastrand::u64` with the range `0..r`,
/// which draws from the thread's generator, returns a number of the range
/// and panics on an empty one. Nothing more can be said of the number.
#[verifier::external_body]
pub fn random(r: u64) -> (n: u64)
    requires
        r > 0,
    ensures
        n < r,
{
    fastrand::u64(0..r)
}

} // verus!
