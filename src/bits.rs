//! Single-precision values held as IEEE-754 bit patterns.
use vstd::prelude::*;

verus! {

/// The bit pattern of `0.0`.
pub const ZERO: u32 = 0x0000_0000;

/// The bit pattern of `1.0`.
pub const ONE: u32 = 0x3F80_0000;

/// The bit pattern of `-1.0`.
pub const MINUS_ONE: u32 = 0xBF80_0000;

/// The bit pattern of `-2.0`.
pub const MINUS_TWO: u32 = 0xC000_0000;

/// The bit pattern of the single-precision value nearest to pi.
pub const PI: u32 = 0x4049_0FDB;

/// The bit pattern of the single-precision value nearest to pi / 3.
pub const FRAC_PI_3: u32 = 0x3F86_0A92;

/// The bit pattern of `0.02`.
pub const NEAR_PLANE: u32 = 0x3CA3_D70A;

/// The bit pattern of `1024.0`.
pub const FAR_PLANE: u32 = 0x4480_0000;

/// The bit pattern of `0.25`.
pub const QUARTER: u32 = 0x3E80_0000;

/// The value with bit pattern `b` lies strictly between zero and the value
/// with bit pattern `hi`, for a finite positive `hi`.
///
/// Among patterns with a clear sign bit, the order of the patterns is the
/// numeric order, and every NaN pattern lies above every finite one; every
/// pattern with the sign bit set (negative values, negative zero, NaNs with
/// the sign bit) lies above `hi`. So the comparison of patterns excludes
/// zero, negative values and NaNs.
pub open spec fn strictly_between_zero_and(b: u32, hi: u32) -> bool {
    0 < b < hi
}

/// Decides `strictly_between_zero_and(b, hi)`.
pub fn is_strictly_between_zero_and(b: u32, hi: u32) -> (r: bool)
    ensures
        r == strictly_between_zero_and(b, hi),
{
    0 < b && b < hi
}

} // verus!
