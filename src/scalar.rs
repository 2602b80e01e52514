//! Scene numbers are IEEE-754 single-precision values. The library holds each
//! one as its bit pattern (`u32`): equality is then bit identity, and the few
//! comparisons the editing rules need are decided on the pattern itself.
use vstd::prelude::*;

verus! {

/// Bit pattern of `1.0`.
pub const ONE: u32 = 0x3F80_0000;

/// Bit pattern of positive infinity; every larger pattern with a clear sign
/// bit is a NaN.
pub const POS_INFINITY: u32 = 0x7F80_0000;

/// Bit pattern of `0.0`.
pub const ZERO: u32 = 0;

/// The value is a number (not NaN) greater than or equal to `1.0`.
pub open spec fn is_at_least_one(bits: u32) -> bool {
    ONE <= bits <= POS_INFINITY
}

/// The value `max(v, 1.0)` takes, where a NaN yields `1.0`.
pub open spec fn clamp_extent_spec(bits: u32) -> u32 {
    if is_at_least_one(bits) {
        bits
    } else {
        ONE
    }
}

/// The value is a number (not NaN) strictly greater than zero.
pub open spec fn is_positive_spec(bits: u32) -> bool {
    0 < bits <= POS_INFINITY
}

/// Clamps a width, height or font size to at least `1.0`.
pub fn clamp_extent(bits: u32) -> (r: u32)
    ensures
        r == clamp_extent_spec(bits),
{
    if ONE <= bits && bits <= POS_INFINITY {
        bits
    } else {
        ONE
    }
}

/// Whether the value is strictly greater than zero.
pub fn is_positive(bits: u32) -> (r: bool)
    ensures
        r == is_positive_spec(bits),
{
    0 < bits && bits <= POS_INFINITY
}

} // verus!
