//! Fixed-point helpers shared by the camera and the colour mapping.

use vstd::prelude::*;

verus! {

/// Steps in one whole unit for quantities stored in millionths.
pub const PPM: i64 = 1_000_000;

/// `v` limited to the closed interval `[lo, hi]`.
pub open spec fn clamp_int(v: int, lo: int, hi: int) -> int {
    if v < lo {
        lo
    } else if v > hi {
        hi
    } else {
        v
    }
}

/// `v` limited to the range of `i64`.
pub open spec fn saturate_i64(v: int) -> int {
    clamp_int(v, i64::MIN as int, i64::MAX as int)
}

/// Limits `v` to `[lo, hi]`.
pub fn clamp_i128(v: i128, lo: i128, hi: i128) -> (r: i128)
    requires
        lo <= hi,
    ensures
        r == clamp_int(v as int, lo as int, hi as int),
        lo <= r <= hi,
{
    if v < lo {
        lo
    } else if v > hi {
        hi
    } else {
        v
    }
}

/// Limits `v` to the range of `i64`.
pub fn saturating_i64(v: i128) -> (r: i64)
    ensures
        r == saturate_i64(v as int),
{
    clamp_i128(v, i64::MIN as i128, i64::MAX as i128) as i64
}

} // verus!
