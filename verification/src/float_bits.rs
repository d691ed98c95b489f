//! Comparisons of IEEE 754 binary floating-point numbers, carried as their bit
//! patterns (`f32::to_bits`, `f64::to_bits`).
//!
//! A pattern with the sign bit set is negative; the other bits give the
//! magnitude, whose order is that of the numbers it encodes. A magnitude above
//! that of infinity is a NaN, which compares false with everything; `+0.0` and
//! `-0.0` are equal.
use vstd::prelude::*;

verus! {

/// The sign bit of a 32-bit pattern.
pub const F32_SIGN: u32 = 0x8000_0000;

/// The pattern of `f32::INFINITY`.
pub const F32_INFINITY: u32 = 0x7f80_0000;

/// The sign bit of a 64-bit pattern.
pub const F64_SIGN: u64 = 0x8000_0000_0000_0000;

/// The pattern of `f64::INFINITY`.
pub const F64_INFINITY: u64 = 0x7ff0_0000_0000_0000;

/// The pattern of `0.0_f64`.
pub const F64_ZERO: u64 = 0;

/// The pattern of `0.5_f32`.
pub const F32_HALF: u32 = 0x3f00_0000;

/// The pattern of `5.0_f64`.
pub const F64_FIVE: u64 = 0x4014_0000_0000_0000;

/// The pattern of `10.0_f64`.
pub const F64_TEN: u64 = 0x4024_0000_0000_0000;

pub open spec fn f32_magnitude(bits: u32) -> int {
    if bits >= F32_SIGN {
        bits - F32_SIGN
    } else {
        bits as int
    }
}

pub open spec fn f32_is_nan(bits: u32) -> bool {
    f32_magnitude(bits) > F32_INFINITY
}

/// Where the number that `bits` encodes stands on the number line, in units
/// that keep its order.
pub open spec fn f32_rank(bits: u32) -> int {
    if bits >= F32_SIGN {
        -f32_magnitude(bits)
    } else {
        f32_magnitude(bits)
    }
}

/// `a < b` on the numbers that the patterns encode.
pub open spec fn f32_lt(a: u32, b: u32) -> bool {
    !f32_is_nan(a) && !f32_is_nan(b) && f32_rank(a) < f32_rank(b)
}

pub open spec fn f64_magnitude(bits: u64) -> int {
    if bits >= F64_SIGN {
        bits - F64_SIGN
    } else {
        bits as int
    }
}

pub open spec fn f64_is_nan(bits: u64) -> bool {
    f64_magnitude(bits) > F64_INFINITY
}

/// Where the number that `bits` encodes stands on the number line, in units
/// that keep its order.
pub open spec fn f64_rank(bits: u64) -> int {
    if bits >= F64_SIGN {
        -f64_magnitude(bits)
    } else {
        f64_magnitude(bits)
    }
}

/// `a < b` on the numbers that the patterns encode.
pub open spec fn f64_lt(a: u64, b: u64) -> bool {
    !f64_is_nan(a) && !f64_is_nan(b) && f64_rank(a) < f64_rank(b)
}

/// `a == b` on the numbers that the patterns encode.
pub open spec fn f64_eq(a: u64, b: u64) -> bool {
    !f64_is_nan(a) && !f64_is_nan(b) && f64_rank(a) == f64_rank(b)
}

/// `a < b` for two `f32` given by their patterns.
pub fn f32_less(a: u32, b: u32) -> (r: bool)
    ensures
        r == f32_lt(a, b),
{
    let a_neg = a >= F32_SIGN;
    let b_neg = b >= F32_SIGN;
    let a_mag = if a_neg { a - F32_SIGN } else { a };
    let b_mag = if b_neg { b - F32_SIGN } else { b };
    if a_mag > F32_INFINITY || b_mag > F32_INFINITY {
        false
    } else if !a_neg && !b_neg {
        a_mag < b_mag
    } else if a_neg && b_neg {
        b_mag < a_mag
    } else if a_neg {
        a_mag != 0 || b_mag != 0
    } else {
        false
    }
}

/// `a < b` for two `f64` given by their patterns.
pub fn f64_less(a: u64, b: u64) -> (r: bool)
    ensures
        r == f64_lt(a, b),
{
    let a_neg = a >= F64_SIGN;
    let b_neg = b >= F64_SIGN;
    let a_mag = if a_neg { a - F64_SIGN } else { a };
    let b_mag = if b_neg { b - F64_SIGN } else { b };
    if a_mag > F64_INFINITY || b_mag > F64_INFINITY {
        false
    } else if !a_neg && !b_neg {
        a_mag < b_mag
    } else if a_neg && b_neg {
        b_mag < a_mag
    } else if a_neg {
        a_mag != 0 || b_mag != 0
    } else {
        false
    }
}

/// `a == b` for two `f64` given by their patterns.
pub fn f64_equal(a: u64, b: u64) -> (r: bool)
    ensures
        r == f64_eq(a, b),
{
    let a_neg = a >= F64_SIGN;
    let b_neg = b >= F64_SIGN;
    let a_mag = if a_neg { a - F64_SIGN } else { a };
    let b_mag = if b_neg { b - F64_SIGN } else { b };
    if a_mag > F64_INFINITY || b_mag > F64_INFINITY {
        false
    } else if a_neg == b_neg {
        a_mag == b_mag
    } else {
        a_mag == 0 && b_mag == 0
    }
}

} // verus!
