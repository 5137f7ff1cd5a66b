//! The one source of randomness in the simulation.
//!
//! The scheduler draws the enemy-variant decider and spawn offsets, jumpers
//! draw their exit impulse, and firing draws the spent weapon's recoil, all
//! through this wrapper. Nothing is promised of the value beyond its range,
//! so every caller is verified for every outcome.

use vstd::prelude::*;

use rand::Rng;

verus! {

/// A uniformly random value in the half-open range `lo..hi`.
///
/// Relies on rand's `Rng::gen_range` on an `i64` range: it returns a value
/// within the given half-open range, and panics only on an empty range,
/// which the precondition rules out.
#[verifier::external_body]
pub fn rand_in_range(lo: i64, hi: i64) -> (r: i64)
    requires
        lo < hi,
    ensures
        lo <= r < hi,
{
    rand::thread_rng().gen_range(lo..hi)
}

} // verus!
