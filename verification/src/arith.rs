//! Saturating fixed-point arithmetic for world coordinates and sprite scale.
//!
//! Positions, velocities and scales are `i64` fixed-point values. Every
//! accumulation clamps at the representable range instead of overflowing, so
//! no verified function can panic on arithmetic.

use vstd::prelude::*;

verus! {

/// The value of `x` clamped to the `i64` range.
pub open spec fn clip(x: int) -> int {
    if x > i64::MAX {
        i64::MAX as int
    } else if x < i64::MIN {
        i64::MIN as int
    } else {
        x
    }
}

/// Saturating addition: the mathematical sum clamped to the `i64` range.
pub fn add_clip(a: i64, b: i64) -> (r: i64)
    ensures
        r == clip(a + b),
{
    let s: i128 = a as i128 + b as i128;
    if s > i64::MAX as i128 {
        i64::MAX
    } else if s < i64::MIN as i128 {
        i64::MIN
    } else {
        s as i64
    }
}

/// The smaller of two fixed-point values.
pub open spec fn spec_min_i64(a: i64, b: i64) -> i64 {
    if a <= b {
        a
    } else {
        b
    }
}

/// The smaller of two fixed-point values.
pub fn min_i64(a: i64, b: i64) -> (r: i64)
    ensures
        r == spec_min_i64(a, b),
{
    if a <= b {
        a
    } else {
        b
    }
}

} // verus!
