//! IEEE-754 double-precision comparison over raw bit patterns.
//!
//! The engine never holds a floating-point value: every double enters as its
//! IEEE-754 bit pattern, a `u64`. A pattern is sign-magnitude: the top bit is
//! the sign, the remaining 63 bits (exponent then mantissa) are the magnitude.
//! The ordinary comparison operators on doubles are reconstructed here from
//! the patterns alone:
//!
//! - a pattern whose magnitude lies above the infinity encoding is a NaN, and
//!   any comparison with a NaN operand is false;
//! - both zero patterns (`+0.0` and `-0.0`) compare equal;
//! - otherwise patterns order by value, mapped to a common unsigned key:
//!   non-negative patterns keep their magnitude above the midpoint, negative
//!   ones mirror theirs below it.

use vstd::prelude::*;

verus! {

/// Sign bit of a double-precision pattern; also the order key of both zeros.
pub const SIGN_BIT: u64 = 0x8000_0000_0000_0000;

/// Magnitude (exponent and mantissa bits) of either infinity.
pub const INF_MAGNITUDE: u64 = 0x7FF0_0000_0000_0000;

/// The magnitude of a pattern: the pattern with its sign bit cleared.
pub open spec fn magnitude(bits: u64) -> int {
    if bits >= SIGN_BIT {
        bits - SIGN_BIT
    } else {
        bits as int
    }
}

/// A pattern encodes NaN when its magnitude lies above the infinity encoding.
pub open spec fn is_nan(bits: u64) -> bool {
    magnitude(bits) > INF_MAGNITUDE
}

/// Key under which non-NaN patterns order exactly as their doubles do.
///
/// Negative patterns mirror below the midpoint `SIGN_BIT`, non-negative ones
/// sit above it; `+0.0` and `-0.0` both land on the midpoint itself, so the
/// two zeros compare equal.
pub open spec fn order_key(bits: u64) -> int {
    if bits >= SIGN_BIT {
        SIGN_BIT - magnitude(bits)
    } else {
        SIGN_BIT + magnitude(bits)
    }
}

/// `a < b` on double bit patterns, with IEEE-754 semantics: false whenever
/// either operand is NaN, and `-0.0 < +0.0` is false.
pub open spec fn double_lt(a: u64, b: u64) -> bool {
    &&& !is_nan(a)
    &&& !is_nan(b)
    &&& order_key(a) < order_key(b)
}

/// `a > b` on double bit patterns: exactly `b < a`.
pub open spec fn double_gt(a: u64, b: u64) -> bool {
    double_lt(b, a)
}

/// Decides `a < b` on double bit patterns.
pub fn lt_bits(a: u64, b: u64) -> (r: bool)
    ensures
        r == double_lt(a, b),
{
    let mag_a: u64 = if a >= SIGN_BIT {
        a - SIGN_BIT
    } else {
        a
    };
    let mag_b: u64 = if b >= SIGN_BIT {
        b - SIGN_BIT
    } else {
        b
    };
    if mag_a > INF_MAGNITUDE || mag_b > INF_MAGNITUDE {
        return false;
    }
    let key_a: u64 = if a >= SIGN_BIT {
        SIGN_BIT - mag_a
    } else {
        SIGN_BIT + mag_a
    };
    let key_b: u64 = if b >= SIGN_BIT {
        SIGN_BIT - mag_b
    } else {
        SIGN_BIT + mag_b
    };
    key_a < key_b
}

/// Decides `a > b` on double bit patterns.
pub fn gt_bits(a: u64, b: u64) -> (r: bool)
    ensures
        r == double_gt(a, b),
{
    lt_bits(b, a)
}

/// A NaN operand makes every ordered comparison false.
pub proof fn lemma_nan_compares_false(a: u64, b: u64)
    requires
        is_nan(a) || is_nan(b),
    ensures
        !double_lt(a, b),
        !double_gt(a, b),
{
}

} // verus!
