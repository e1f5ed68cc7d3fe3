//! Comparisons of IEEE-754 binary64 values held as their bit patterns.
//!
//! Message bodies carry prices as the raw 64-bit pattern of a binary64 value
//! (the bytes a little-endian `f64` occupies on the wire). The checks that
//! message validation performs on prices are order comparisons, and IEEE-754
//! defines those on the pattern alone: a NaN is unordered, both zeros are
//! equal, positive values order as their patterns and negative values order
//! as their patterns reversed.

use vstd::prelude::*;

verus! {

/// Sign bit of a binary64 pattern.
pub const SIGN_BIT: u64 = 0x8000_0000_0000_0000;

/// Pattern of positive infinity; patterns above it (without sign) are NaN.
pub const POSITIVE_INFINITY: u64 = 0x7FF0_0000_0000_0000;

/// The magnitude part of a pattern (all bits but the sign).
pub open spec fn magnitude(bits: u64) -> int {
    (bits as int) % 0x8000_0000_0000_0000
}

/// The pattern is a NaN.
pub open spec fn is_nan(bits: u64) -> bool {
    magnitude(bits) > POSITIVE_INFINITY
}

/// The pattern has its sign bit set.
pub open spec fn is_negative_pattern(bits: u64) -> bool {
    bits >= SIGN_BIT
}

/// The pattern is +0 or -0.
pub open spec fn is_zero(bits: u64) -> bool {
    magnitude(bits) == 0
}

/// `a < b` on the binary64 values of the patterns.
pub open spec fn spec_lt(a: u64, b: u64) -> bool {
    if is_nan(a) || is_nan(b) || (is_zero(a) && is_zero(b)) {
        false
    } else if !is_negative_pattern(a) && !is_negative_pattern(b) {
        a < b
    } else if is_negative_pattern(a) && is_negative_pattern(b) {
        a > b
    } else {
        is_negative_pattern(a)
    }
}

/// `a == b` on the binary64 values of the patterns.
pub open spec fn spec_eq(a: u64, b: u64) -> bool {
    !is_nan(a) && !is_nan(b) && (a == b || (is_zero(a) && is_zero(b)))
}

/// `a <= b` on the binary64 values of the patterns.
pub open spec fn spec_le(a: u64, b: u64) -> bool {
    spec_lt(a, b) || spec_eq(a, b)
}

proof fn lemma_magnitude(bits: u64)
    ensures
        (bits & 0x7FFF_FFFF_FFFF_FFFF) as int == magnitude(bits),
        (bits >= SIGN_BIT) == (bits as int >= 0x8000_0000_0000_0000),
{
    assert((bits & 0x7FFF_FFFF_FFFF_FFFF) == bits % 0x8000_0000_0000_0000) by (bit_vector);
}

/// `a < b` for the binary64 values with patterns `a` and `b`.
pub fn lt(a: u64, b: u64) -> (r: bool)
    ensures
        r == spec_lt(a, b),
{
    proof {
        lemma_magnitude(a);
        lemma_magnitude(b);
    }
    let ma = a & 0x7FFF_FFFF_FFFF_FFFF;
    let mb = b & 0x7FFF_FFFF_FFFF_FFFF;
    if ma > POSITIVE_INFINITY || mb > POSITIVE_INFINITY || (ma == 0 && mb == 0) {
        false
    } else if a < SIGN_BIT && b < SIGN_BIT {
        a < b
    } else if a >= SIGN_BIT && b >= SIGN_BIT {
        a > b
    } else {
        a >= SIGN_BIT
    }
}

/// `a <= b` for the binary64 values with patterns `a` and `b`.
pub fn le(a: u64, b: u64) -> (r: bool)
    ensures
        r == spec_le(a, b),
{
    proof {
        lemma_magnitude(a);
        lemma_magnitude(b);
    }
    let ma = a & 0x7FFF_FFFF_FFFF_FFFF;
    let mb = b & 0x7FFF_FFFF_FFFF_FFFF;
    let eq = ma <= POSITIVE_INFINITY && mb <= POSITIVE_INFINITY && (a == b || (ma == 0 && mb == 0));
    lt(a, b) || eq
}

/// The pattern is neither an infinity nor a NaN.
pub open spec fn is_finite(bits: u64) -> bool {
    magnitude(bits) < POSITIVE_INFINITY
}

/// Whether the value with pattern `bits` is finite.
pub fn finite(bits: u64) -> (r: bool)
    ensures
        r == is_finite(bits),
{
    proof {
        lemma_magnitude(bits);
    }
    (bits & 0x7FFF_FFFF_FFFF_FFFF) < POSITIVE_INFINITY
}

} // verus!
