//! IEEE-754 binary32 numbers as bit patterns.
//!
//! A pattern is a sign bit, eight exponent bits and twenty-three fraction
//! bits. Everything here is stated on the pattern as an unsigned integer.

use vstd::prelude::*;

verus! {

/// The pattern with only the sign bit set: negative zero.
pub const SIGN_BIT: u32 = 0x8000_0000;

/// The pattern of positive infinity: all exponent bits set, no fraction bit.
pub const INFINITY: u32 = 0x7f80_0000;

/// The pattern of 1.0: exponent field 127, no fraction bit.
pub const ONE: u32 = 0x3f80_0000;

/// The pattern of 2.0: exponent field 128, no fraction bit.
pub const TWO: u32 = 0x4000_0000;

/// The number of patterns between one power of two and the next: 2^23.
pub const FRACTION_STEPS: u32 = 0x0080_0000;

/// Whether the sign bit of `bits` is set.
pub open spec fn sign_negative(bits: u32) -> bool {
    bits >= SIGN_BIT
}

/// The pattern without its sign bit: the pattern of the absolute value.
pub open spec fn magnitude(bits: u32) -> u32 {
    if bits >= SIGN_BIT {
        (bits - SIGN_BIT) as u32
    } else {
        bits
    }
}

/// Whether `bits` is a NaN: all exponent bits set and some fraction bit.
pub open spec fn is_nan(bits: u32) -> bool {
    magnitude(bits) > INFINITY
}

/// Whether `bits` is a finite number greater than zero.
pub open spec fn is_positive_finite(bits: u32) -> bool {
    0 < bits < INFINITY
}

/// Where a pattern that is not a NaN stands on the number line.
///
/// Among patterns of one sign a larger magnitude is further from zero, and the
/// two zeros stand at the same place, so for patterns that are not NaN the rank
/// orders as the numbers do.
pub open spec fn rank(bits: u32) -> int {
    if sign_negative(bits) {
        -(magnitude(bits) as int)
    } else {
        magnitude(bits) as int
    }
}

/// The order `<` of binary32 on patterns: false whenever a NaN takes part.
pub open spec fn less_than(a: u32, b: u32) -> bool {
    !is_nan(a) && !is_nan(b) && rank(a) < rank(b)
}

/// Whether `bits` is a number in the half-open interval from 1.0 to 2.0.
pub open spec fn in_one_to_two(bits: u32) -> bool {
    ONE <= bits < TWO
}

/// For a pattern in the interval from 1.0 to 2.0, the numerator `n` of the
/// number `1 + n / 2^23` that it denotes.
pub open spec fn numerator_above_one(bits: u32) -> int {
    bits - ONE
}

fn without_sign(bits: u32) -> (m: u32)
    ensures
        m == magnitude(bits),
{
    if bits >= SIGN_BIT {
        bits - SIGN_BIT
    } else {
        bits
    }
}

/// Tells whether `bits` is a NaN.
pub fn nan(bits: u32) -> (r: bool)
    ensures
        r == is_nan(bits),
{
    without_sign(bits) > INFINITY
}

/// Tells whether `bits` is a finite number greater than zero.
pub fn positive_finite(bits: u32) -> (r: bool)
    ensures
        r == is_positive_finite(bits),
{
    0 < bits && bits < INFINITY
}

/// Compares two patterns as binary32 compares the numbers with `<`.
pub fn lt(a: u32, b: u32) -> (r: bool)
    ensures
        r == less_than(a, b),
{
    let ma: u32 = without_sign(a);
    let mb: u32 = without_sign(b);
    if ma > INFINITY || mb > INFINITY {
        false
    } else if a >= SIGN_BIT {
        if b >= SIGN_BIT {
            mb < ma
        } else {
            ma != 0 || mb != 0
        }
    } else {
        b < SIGN_BIT && ma < mb
    }
}

} // verus!
