//! The three tests on IEEE-754 binary32 and binary64 values, read through
//! their bit patterns.
//!
//! IEEE-754 comparison and absolute value are exact operations on a pattern's
//! sign and magnitude, and are stated and computed here on the patterns. The
//! rounded arithmetic that the tests need (the difference `a - b`, and each
//! magnitude scaled by the relative tolerance) is computed by the caller in
//! the floating-point type, and its result handed in as a pattern: every
//! decision taken on those values is made here.
//!
//! A NaN compares unequal to everything, itself included, so no test passes
//! on a NaN operand once the arithmetic has propagated it. In the ULPs test a
//! NaN, or two values of opposite sign, are never close in ULPs; otherwise the
//! values are close when their patterns are at most `max_ulps` apart.
//! Same-signed patterns are ordered as their values' magnitudes, so that
//! distance counts the representable values between them.

use vstd::prelude::*;

use crate::abs_diff_eq::dist;

verus! {

/// The default number of ULPs tolerated between floating-point values far
/// apart.
pub const DEFAULT_MAX_ULPS: u32 = 4;

/// The machine epsilon of binary64, `2^-52`: the default absolute and
/// relative tolerance of binary64 values.
pub const BINARY64_EPSILON: u64 = 0x3cb0_0000_0000_0000;

/// The machine epsilon of binary32, `2^-23`: the default absolute and
/// relative tolerance of binary32 values.
pub const BINARY32_EPSILON: u32 = 0x3400_0000;

/// The sign bit of a binary64 pattern.
pub const BINARY64_SIGN: u64 = 0x8000_0000_0000_0000;

/// The exponent field of a binary64 pattern.
pub const BINARY64_EXPONENT: u64 = 0x7ff0_0000_0000_0000;

/// The fraction field of a binary64 pattern.
pub const BINARY64_FRACTION: u64 = 0x000f_ffff_ffff_ffff;

/// Every bit of a binary64 pattern but the sign.
pub const BINARY64_MAGNITUDE: u64 = 0x7fff_ffff_ffff_ffff;

/// The pattern of positive infinity in binary64.
pub const BINARY64_INFINITY: u64 = 0x7ff0_0000_0000_0000;

/// The pattern of negative infinity in binary64.
pub const BINARY64_NEG_INFINITY: u64 = 0xfff0_0000_0000_0000;

/// A binary64 pattern is a NaN when its exponent bits are all set and its
/// fraction is not zero.
pub open spec fn binary64_is_nan(bits: u64) -> bool {
    &&& bits & BINARY64_EXPONENT == BINARY64_EXPONENT
    &&& bits & BINARY64_FRACTION != 0
}

/// A binary64 pattern has its sign bit set (negative values, `-0.0`, `-inf`).
pub open spec fn binary64_is_negative(bits: u64) -> bool {
    bits & BINARY64_SIGN != 0
}

/// The absolute value of a binary64 value: its pattern with the sign cleared.
pub open spec fn binary64_abs(bits: u64) -> u64 {
    bits & BINARY64_MAGNITUDE
}

/// A binary64 pattern encodes `+0.0` or `-0.0`.
pub open spec fn binary64_is_zero(bits: u64) -> bool {
    binary64_abs(bits) == 0
}

/// IEEE-754 equality of two binary64 values: neither is a NaN, and their
/// patterns are equal or both are zeros.
pub open spec fn binary64_eq(x: u64, y: u64) -> bool {
    &&& !binary64_is_nan(x)
    &&& !binary64_is_nan(y)
    &&& (x == y || (binary64_is_zero(x) && binary64_is_zero(y)))
}

/// IEEE-754 `x <= y` on two binary64 values: neither is a NaN, and either
/// both are zeros or, by sign and magnitude, `x` does not lie above `y`.
pub open spec fn binary64_le(x: u64, y: u64) -> bool {
    &&& !binary64_is_nan(x)
    &&& !binary64_is_nan(y)
    &&& {
        ||| (binary64_is_zero(x) && binary64_is_zero(y))
        ||| (binary64_is_negative(x) && !binary64_is_negative(y))
        ||| (!binary64_is_negative(x) && !binary64_is_negative(y) && binary64_abs(x)
            <= binary64_abs(y))
        ||| (binary64_is_negative(x) && binary64_is_negative(y) && binary64_abs(x)
            >= binary64_abs(y))
    }
}

/// IEEE-754 `x < y` on two binary64 values.
pub open spec fn binary64_lt(x: u64, y: u64) -> bool {
    binary64_le(x, y) && !binary64_eq(x, y)
}

/// The absolute test on binary64 values whose difference has the pattern
/// `diff`: `|diff| <= epsilon`.
pub open spec fn abs_diff_eq_binary64_spec(diff: u64, epsilon: u64) -> bool {
    binary64_le(binary64_abs(diff), epsilon)
}

/// The relative test on binary64 values `a` and `b`.
///
/// `diff` is the pattern of `a - b`, and `a_scaled` and `b_scaled` those of
/// `|a| * max_relative` and `|b| * max_relative`. The values are equal when
/// they are equal as floats (equal infinities included), or their difference
/// is within `epsilon`; otherwise, unless they are opposite infinities, when
/// the difference is within the larger magnitude scaled.
pub open spec fn relative_eq_binary64_spec(
    a: u64,
    b: u64,
    diff: u64,
    epsilon: u64,
    a_scaled: u64,
    b_scaled: u64,
) -> bool {
    let abs_diff = binary64_abs(diff);
    let abs_a = binary64_abs(a);
    let abs_b = binary64_abs(b);
    ||| binary64_eq(a, b)
    ||| binary64_le(abs_diff, epsilon)
    ||| {
        &&& !(binary64_eq(abs_a, abs_b) && binary64_eq(abs_diff, abs_a))
        &&& binary64_le(abs_diff, if binary64_lt(abs_a, abs_b) { b_scaled } else { a_scaled })
    }
}

/// The ULPs test on binary64 values `a` and `b`, where `diff` is the pattern
/// of `a - b`.
pub open spec fn ulps_eq_binary64_spec(a: u64, b: u64, diff: u64, epsilon: u64, max_ulps: u32) -> bool {
    ||| abs_diff_eq_binary64_spec(diff, epsilon)
    ||| {
        &&& !binary64_is_nan(a)
        &&& !binary64_is_nan(b)
        &&& binary64_is_negative(a) == binary64_is_negative(b)
        &&& dist(a as int, b as int) <= max_ulps as int
    }
}

/// u64hether a binary64 pattern is a NaN.
pub fn is_nan_binary64(bits: u64) -> (r: bool)
    ensures
        r == binary64_is_nan(bits),
{
    bits & BINARY64_EXPONENT == BINARY64_EXPONENT && bits & BINARY64_FRACTION != 0
}

/// u64hether a binary64 pattern has its sign bit set.
pub fn is_negative_binary64(bits: u64) -> (r: bool)
    ensures
        r == binary64_is_negative(bits),
{
    bits & BINARY64_SIGN != 0
}

/// The absolute value of a binary64 value.
pub fn abs_binary64(bits: u64) -> (r: u64)
    ensures
        r == binary64_abs(bits),
{
    bits & BINARY64_MAGNITUDE
}

/// IEEE-754 equality of two binary64 values.
pub fn eq_binary64(x: u64, y: u64) -> (r: bool)
    ensures
        r == binary64_eq(x, y),
{
    if is_nan_binary64(x) || is_nan_binary64(y) {
        return false;
    }
    x == y || (abs_binary64(x) == 0 && abs_binary64(y) == 0)
}

/// IEEE-754 `x <= y` on two binary64 values.
pub fn le_binary64(x: u64, y: u64) -> (r: bool)
    ensures
        r == binary64_le(x, y),
{
    if is_nan_binary64(x) || is_nan_binary64(y) {
        return false;
    }
    let abs_x = abs_binary64(x);
    let abs_y = abs_binary64(y);
    if abs_x == 0 && abs_y == 0 {
        return true;
    }
    let negative_x = is_negative_binary64(x);
    let negative_y = is_negative_binary64(y);
    if negative_x != negative_y {
        negative_x
    } else if negative_x {
        abs_x >= abs_y
    } else {
        abs_x <= abs_y
    }
}

/// IEEE-754 `x < y` on two binary64 values.
pub fn lt_binary64(x: u64, y: u64) -> (r: bool)
    ensures
        r == binary64_lt(x, y),
{
    le_binary64(x, y) && !eq_binary64(x, y)
}

/// The absolute test on binary64 values whose difference has the pattern
/// `diff`.
pub fn abs_diff_eq_binary64(diff: u64, epsilon: u64) -> (r: bool)
    ensures
        r == abs_diff_eq_binary64_spec(diff, epsilon),
{
    le_binary64(abs_binary64(diff), epsilon)
}

/// The relative test on binary64 values `a` and `b`, given the patterns of
/// `a - b`, `|a| * max_relative` and `|b| * max_relative`.
pub fn relative_eq_binary64(a: u64, b: u64, diff: u64, epsilon: u64, a_scaled: u64, b_scaled: u64) -> (r:
    bool)
    ensures
        r == relative_eq_binary64_spec(a, b, diff, epsilon, a_scaled, b_scaled),
{
    // Equal values, equal infinities included.
    if eq_binary64(a, b) {
        return true;
    }
    // Values close together, near zero in particular.
    let abs_diff = abs_binary64(diff);
    if le_binary64(abs_diff, epsilon) {
        return true;
    }
    // Opposite infinities: their difference is as large as either of them.
    let abs_a = abs_binary64(a);
    let abs_b = abs_binary64(b);
    if eq_binary64(abs_a, abs_b) && eq_binary64(abs_diff, abs_a) {
        return false;
    }
    let scaled = if lt_binary64(abs_a, abs_b) {
        b_scaled
    } else {
        a_scaled
    };
    le_binary64(abs_diff, scaled)
}

/// The ULPs test on binary64 values `a` and `b`, given the pattern of `a - b`.
pub fn ulps_eq_binary64(a: u64, b: u64, diff: u64, epsilon: u64, max_ulps: u32) -> (r: bool)
    ensures
        r == ulps_eq_binary64_spec(a, b, diff, epsilon, max_ulps),
{
    if abs_diff_eq_binary64(diff, epsilon) {
        return true;
    }
    // A NaN has no sign to agree on, and values of opposite sign are never
    // close in ULPs.
    if is_nan_binary64(a) || is_nan_binary64(b) || is_negative_binary64(a)
        != is_negative_binary64(b) {
        return false;
    }
    if a <= b {
        b - a <= max_ulps as u64
    } else {
        a - b <= max_ulps as u64
    }
}

/// The sign bit of a binary32 pattern.
pub const BINARY32_SIGN: u32 = 0x8000_0000;

/// The exponent field of a binary32 pattern.
pub const BINARY32_EXPONENT: u32 = 0x7f80_0000;

/// The fraction field of a binary32 pattern.
pub const BINARY32_FRACTION: u32 = 0x007f_ffff;

/// Every bit of a binary32 pattern but the sign.
pub const BINARY32_MAGNITUDE: u32 = 0x7fff_ffff;

/// The pattern of positive infinity in binary32.
pub const BINARY32_INFINITY: u32 = 0x7f80_0000;

/// The pattern of negative infinity in binary32.
pub const BINARY32_NEG_INFINITY: u32 = 0xff80_0000;

/// A binary32 pattern is a NaN when its exponent bits are all set and its
/// fraction is not zero.
pub open spec fn binary32_is_nan(bits: u32) -> bool {
    &&& bits & BINARY32_EXPONENT == BINARY32_EXPONENT
    &&& bits & BINARY32_FRACTION != 0
}

/// A binary32 pattern has its sign bit set (negative values, `-0.0`, `-inf`).
pub open spec fn binary32_is_negative(bits: u32) -> bool {
    bits & BINARY32_SIGN != 0
}

/// The absolute value of a binary32 value: its pattern with the sign cleared.
pub open spec fn binary32_abs(bits: u32) -> u32 {
    bits & BINARY32_MAGNITUDE
}

/// A binary32 pattern encodes `+0.0` or `-0.0`.
pub open spec fn binary32_is_zero(bits: u32) -> bool {
    binary32_abs(bits) == 0
}

/// IEEE-754 equality of two binary32 values: neither is a NaN, and their
/// patterns are equal or both are zeros.
pub open spec fn binary32_eq(x: u32, y: u32) -> bool {
    &&& !binary32_is_nan(x)
    &&& !binary32_is_nan(y)
    &&& (x == y || (binary32_is_zero(x) && binary32_is_zero(y)))
}

/// IEEE-754 `x <= y` on two binary32 values: neither is a NaN, and either
/// both are zeros or, by sign and magnitude, `x` does not lie above `y`.
pub open spec fn binary32_le(x: u32, y: u32) -> bool {
    &&& !binary32_is_nan(x)
    &&& !binary32_is_nan(y)
    &&& {
        ||| (binary32_is_zero(x) && binary32_is_zero(y))
        ||| (binary32_is_negative(x) && !binary32_is_negative(y))
        ||| (!binary32_is_negative(x) && !binary32_is_negative(y) && binary32_abs(x)
            <= binary32_abs(y))
        ||| (binary32_is_negative(x) && binary32_is_negative(y) && binary32_abs(x)
            >= binary32_abs(y))
    }
}

/// IEEE-754 `x < y` on two binary32 values.
pub open spec fn binary32_lt(x: u32, y: u32) -> bool {
    binary32_le(x, y) && !binary32_eq(x, y)
}

/// The absolute test on binary32 values whose difference has the pattern
/// `diff`: `|diff| <= epsilon`.
pub open spec fn abs_diff_eq_binary32_spec(diff: u32, epsilon: u32) -> bool {
    binary32_le(binary32_abs(diff), epsilon)
}

/// The relative test on binary32 values `a` and `b`.
///
/// `diff` is the pattern of `a - b`, and `a_scaled` and `b_scaled` those of
/// `|a| * max_relative` and `|b| * max_relative`. The values are equal when
/// they are equal as floats (equal infinities included), or their difference
/// is within `epsilon`; otherwise, unless they are opposite infinities, when
/// the difference is within the larger magnitude scaled.
pub open spec fn relative_eq_binary32_spec(
    a: u32,
    b: u32,
    diff: u32,
    epsilon: u32,
    a_scaled: u32,
    b_scaled: u32,
) -> bool {
    let abs_diff = binary32_abs(diff);
    let abs_a = binary32_abs(a);
    let abs_b = binary32_abs(b);
    ||| binary32_eq(a, b)
    ||| binary32_le(abs_diff, epsilon)
    ||| {
        &&& !(binary32_eq(abs_a, abs_b) && binary32_eq(abs_diff, abs_a))
        &&& binary32_le(abs_diff, if binary32_lt(abs_a, abs_b) { b_scaled } else { a_scaled })
    }
}

/// The ULPs test on binary32 values `a` and `b`, where `diff` is the pattern
/// of `a - b`.
pub open spec fn ulps_eq_binary32_spec(a: u32, b: u32, diff: u32, epsilon: u32, max_ulps: u32) -> bool {
    ||| abs_diff_eq_binary32_spec(diff, epsilon)
    ||| {
        &&& !binary32_is_nan(a)
        &&& !binary32_is_nan(b)
        &&& binary32_is_negative(a) == binary32_is_negative(b)
        &&& dist(a as int, b as int) <= max_ulps as int
    }
}

/// u32hether a binary32 pattern is a NaN.
pub fn is_nan_binary32(bits: u32) -> (r: bool)
    ensures
        r == binary32_is_nan(bits),
{
    bits & BINARY32_EXPONENT == BINARY32_EXPONENT && bits & BINARY32_FRACTION != 0
}

/// u32hether a binary32 pattern has its sign bit set.
pub fn is_negative_binary32(bits: u32) -> (r: bool)
    ensures
        r == binary32_is_negative(bits),
{
    bits & BINARY32_SIGN != 0
}

/// The absolute value of a binary32 value.
pub fn abs_binary32(bits: u32) -> (r: u32)
    ensures
        r == binary32_abs(bits),
{
    bits & BINARY32_MAGNITUDE
}

/// IEEE-754 equality of two binary32 values.
pub fn eq_binary32(x: u32, y: u32) -> (r: bool)
    ensures
        r == binary32_eq(x, y),
{
    if is_nan_binary32(x) || is_nan_binary32(y) {
        return false;
    }
    x == y || (abs_binary32(x) == 0 && abs_binary32(y) == 0)
}

/// IEEE-754 `x <= y` on two binary32 values.
pub fn le_binary32(x: u32, y: u32) -> (r: bool)
    ensures
        r == binary32_le(x, y),
{
    if is_nan_binary32(x) || is_nan_binary32(y) {
        return false;
    }
    let abs_x = abs_binary32(x);
    let abs_y = abs_binary32(y);
    if abs_x == 0 && abs_y == 0 {
        return true;
    }
    let negative_x = is_negative_binary32(x);
    let negative_y = is_negative_binary32(y);
    if negative_x != negative_y {
        negative_x
    } else if negative_x {
        abs_x >= abs_y
    } else {
        abs_x <= abs_y
    }
}

/// IEEE-754 `x < y` on two binary32 values.
pub fn lt_binary32(x: u32, y: u32) -> (r: bool)
    ensures
        r == binary32_lt(x, y),
{
    le_binary32(x, y) && !eq_binary32(x, y)
}

/// The absolute test on binary32 values whose difference has the pattern
/// `diff`.
pub fn abs_diff_eq_binary32(diff: u32, epsilon: u32) -> (r: bool)
    ensures
        r == abs_diff_eq_binary32_spec(diff, epsilon),
{
    le_binary32(abs_binary32(diff), epsilon)
}

/// The relative test on binary32 values `a` and `b`, given the patterns of
/// `a - b`, `|a| * max_relative` and `|b| * max_relative`.
pub fn relative_eq_binary32(a: u32, b: u32, diff: u32, epsilon: u32, a_scaled: u32, b_scaled: u32) -> (r:
    bool)
    ensures
        r == relative_eq_binary32_spec(a, b, diff, epsilon, a_scaled, b_scaled),
{
    // Equal values, equal infinities included.
    if eq_binary32(a, b) {
        return true;
    }
    // Values close together, near zero in particular.
    let abs_diff = abs_binary32(diff);
    if le_binary32(abs_diff, epsilon) {
        return true;
    }
    // Opposite infinities: their difference is as large as either of them.
    let abs_a = abs_binary32(a);
    let abs_b = abs_binary32(b);
    if eq_binary32(abs_a, abs_b) && eq_binary32(abs_diff, abs_a) {
        return false;
    }
    let scaled = if lt_binary32(abs_a, abs_b) {
        b_scaled
    } else {
        a_scaled
    };
    le_binary32(abs_diff, scaled)
}

/// The ULPs test on binary32 values `a` and `b`, given the pattern of `a - b`.
pub fn ulps_eq_binary32(a: u32, b: u32, diff: u32, epsilon: u32, max_ulps: u32) -> (r: bool)
    ensures
        r == ulps_eq_binary32_spec(a, b, diff, epsilon, max_ulps),
{
    if abs_diff_eq_binary32(diff, epsilon) {
        return true;
    }
    // A NaN has no sign to agree on, and values of opposite sign are never
    // close in ULPs.
    if is_nan_binary32(a) || is_nan_binary32(b) || is_negative_binary32(a)
        != is_negative_binary32(b) {
        return false;
    }
    if a <= b {
        b - a <= max_ulps as u32
    } else {
        a - b <= max_ulps as u32
    }
}

/// The absolute value of a binary64 pattern has no sign, is its own absolute
/// value, and is a NaN or infinite exactly when the pattern is; a pattern that
/// is not a NaN has a magnitude no larger than infinity's.
pub proof fn lemma_binary64_abs(x: u64)
    ensures
        !binary64_is_negative(binary64_abs(x)),
        binary64_abs(binary64_abs(x)) == binary64_abs(x),
        binary64_is_nan(binary64_abs(x)) == binary64_is_nan(x),
        !binary64_is_nan(x) ==> binary64_abs(x) <= BINARY64_INFINITY,
        binary64_is_zero(x) ==> !binary64_is_nan(x),
{
    assert(x & 0x7fff_ffff_ffff_ffffu64 == 0 ==> !(x & 0x7ff0_0000_0000_0000u64 == 0x7ff0_0000_0000_0000u64 && x & 0x000f_ffff_ffff_ffffu64 != 0)) by (bit_vector);
    assert((x & 0x7fff_ffff_ffff_ffffu64) & 0x8000_0000_0000_0000u64 == 0) by (bit_vector);
    assert((x & 0x7fff_ffff_ffff_ffffu64) & 0x7fff_ffff_ffff_ffffu64 == x & 0x7fff_ffff_ffff_ffffu64) by (bit_vector);
    assert(((x & 0x7fff_ffff_ffff_ffffu64) & 0x7ff0_0000_0000_0000u64 == 0x7ff0_0000_0000_0000u64 && (x & 0x7fff_ffff_ffff_ffffu64) & 0x000f_ffff_ffff_ffffu64 != 0) == (x & 0x7ff0_0000_0000_0000u64
        == 0x7ff0_0000_0000_0000u64 && x & 0x000f_ffff_ffff_ffffu64 != 0)) by (bit_vector);
    assert(!(x & 0x7ff0_0000_0000_0000u64 == 0x7ff0_0000_0000_0000u64 && x & 0x000f_ffff_ffff_ffffu64 != 0) ==> x & 0x7fff_ffff_ffff_ffffu64 <= 0x7ff0_0000_0000_0000u64)
        by (bit_vector);
}

/// IEEE-754 `<=` on binary64 values is transitive.
pub proof fn lemma_binary64_le_transitive(x: u64, y: u64, z: u64)
    requires
        binary64_le(x, y),
        binary64_le(y, z),
    ensures
        binary64_le(x, z),
{
}

/// A binary64 value that is not a NaN passes the relative and ULPs tests
/// against itself, whatever the arithmetic gave; its difference from itself
/// being a zero, it passes the absolute test at a zero tolerance too.
pub proof fn lemma_binary64_reflexive(
    a: u64,
    diff: u64,
    epsilon: u64,
    a_scaled: u64,
    b_scaled: u64,
    max_ulps: u32,
)
    requires
        !binary64_is_nan(a),
    ensures
        relative_eq_binary64_spec(a, a, diff, epsilon, a_scaled, b_scaled),
        ulps_eq_binary64_spec(a, a, diff, epsilon, max_ulps),
        binary64_is_zero(diff) && binary64_is_zero(epsilon) ==> abs_diff_eq_binary64_spec(
            diff,
            epsilon,
        ),
{
    lemma_binary64_abs(diff);
    lemma_binary64_abs(epsilon);
}

/// The three binary64 tests do not depend on the order of the operands.
///
/// `diff_ab` and `diff_ba` are the patterns of `a - b` and `b - a`, which
/// IEEE-754 makes negations of each other, and a NaN operand makes them NaNs;
/// `a_scaled` and `b_scaled` are `|a|` and `|b|` scaled by one tolerance, so
/// equal magnitudes give equal bounds.
pub proof fn lemma_binary64_symmetric(
    a: u64,
    b: u64,
    diff_ab: u64,
    diff_ba: u64,
    epsilon: u64,
    a_scaled: u64,
    b_scaled: u64,
    max_ulps: u32,
)
    requires
        binary64_abs(diff_ab) == binary64_abs(diff_ba),
        binary64_is_nan(a) || binary64_is_nan(b) ==> binary64_is_nan(diff_ab),
        binary64_abs(a) == binary64_abs(b) ==> a_scaled == b_scaled,
    ensures
        abs_diff_eq_binary64_spec(diff_ab, epsilon) == abs_diff_eq_binary64_spec(diff_ba, epsilon),
        relative_eq_binary64_spec(a, b, diff_ab, epsilon, a_scaled, b_scaled)
            == relative_eq_binary64_spec(b, a, diff_ba, epsilon, b_scaled, a_scaled),
        ulps_eq_binary64_spec(a, b, diff_ab, epsilon, max_ulps) == ulps_eq_binary64_spec(
            b,
            a,
            diff_ba,
            epsilon,
            max_ulps,
        ),
{
    lemma_binary64_abs(a);
    lemma_binary64_abs(b);
    lemma_binary64_abs(diff_ab);
}

/// No binary64 test passes when an operand is a NaN and the difference has
/// become a NaN, as IEEE-754 arithmetic makes it.
pub proof fn lemma_binary64_nan(
    a: u64,
    b: u64,
    diff: u64,
    epsilon: u64,
    a_scaled: u64,
    b_scaled: u64,
    max_ulps: u32,
)
    requires
        binary64_is_nan(a) || binary64_is_nan(b),
        binary64_is_nan(diff),
    ensures
        !abs_diff_eq_binary64_spec(diff, epsilon),
        !relative_eq_binary64_spec(a, b, diff, epsilon, a_scaled, b_scaled),
        !ulps_eq_binary64_spec(a, b, diff, epsilon, max_ulps),
{
    lemma_binary64_abs(diff);
}

/// `+0.0` and `-0.0` pass all three binary64 tests at a zero tolerance, their
/// difference being a zero; the ULPs test joins them exactly when the absolute
/// test does, since their signs differ.
pub proof fn lemma_binary64_signed_zero(
    diff: u64,
    epsilon: u64,
    a_scaled: u64,
    b_scaled: u64,
    max_ulps: u32,
)
    ensures
        binary64_is_zero(diff) && binary64_is_zero(epsilon) ==> {
            &&& abs_diff_eq_binary64_spec(diff, epsilon)
            &&& relative_eq_binary64_spec(0, BINARY64_SIGN, diff, epsilon, a_scaled, b_scaled)
            &&& ulps_eq_binary64_spec(0, BINARY64_SIGN, diff, epsilon, max_ulps)
        },
        ulps_eq_binary64_spec(0, BINARY64_SIGN, diff, epsilon, max_ulps)
            == abs_diff_eq_binary64_spec(diff, epsilon),
{
    lemma_binary64_abs(diff);
    lemma_binary64_abs(epsilon);
    assert(0 & 0x8000_0000_0000_0000u64 == 0 && 0 & 0x7fff_ffff_ffff_ffffu64 == 0 && 0 & 0x7ff0_0000_0000_0000u64 != 0x7ff0_0000_0000_0000u64) by (bit_vector);
    assert(0x8000_0000_0000_0000u64 & 0x8000_0000_0000_0000u64 != 0 && 0x8000_0000_0000_0000u64 & 0x7fff_ffff_ffff_ffffu64 == 0 && 0x8000_0000_0000_0000u64 & 0x7ff0_0000_0000_0000u64 != 0x7ff0_0000_0000_0000u64)
        by (bit_vector);
}

/// Positive infinity passes the relative test against itself, whatever the
/// tolerances.
pub proof fn lemma_binary64_equal_infinities(diff: u64, epsilon: u64, a_scaled: u64, b_scaled: u64)
    ensures
        relative_eq_binary64_spec(
            BINARY64_INFINITY,
            BINARY64_INFINITY,
            diff,
            epsilon,
            a_scaled,
            b_scaled,
        ),
{
    assert(0x7ff0_0000_0000_0000u64 & 0x7ff0_0000_0000_0000u64 == 0x7ff0_0000_0000_0000u64 && 0x7ff0_0000_0000_0000u64 & 0x000f_ffff_ffff_ffffu64 == 0) by (bit_vector);
}

/// Positive and negative infinity fail the relative test under any finite
/// absolute tolerance, whatever the relative one: their difference is
/// infinite, as large as either of them.
pub proof fn lemma_binary64_opposite_infinities(diff: u64, epsilon: u64, a_scaled: u64, b_scaled: u64)
    requires
        binary64_abs(diff) == BINARY64_INFINITY,
        !binary64_is_nan(epsilon),
        binary64_abs(epsilon) != BINARY64_INFINITY,
    ensures
        !relative_eq_binary64_spec(
            BINARY64_INFINITY,
            BINARY64_NEG_INFINITY,
            diff,
            epsilon,
            a_scaled,
            b_scaled,
        ),
{
    lemma_binary64_abs(epsilon);
    assert(0x7ff0_0000_0000_0000u64 & 0x7ff0_0000_0000_0000u64 == 0x7ff0_0000_0000_0000u64 && 0x7ff0_0000_0000_0000u64 & 0x000f_ffff_ffff_ffffu64 == 0 && 0x7ff0_0000_0000_0000u64 & 0x8000_0000_0000_0000u64 == 0
        && 0x7ff0_0000_0000_0000u64 & 0x7fff_ffff_ffff_ffffu64 == 0x7ff0_0000_0000_0000u64) by (bit_vector);
    assert(0xfff0_0000_0000_0000u64 & 0x7ff0_0000_0000_0000u64 == 0x7ff0_0000_0000_0000u64 && 0xfff0_0000_0000_0000u64 & 0x000f_ffff_ffff_ffffu64 == 0 && 0xfff0_0000_0000_0000u64 & 0x8000_0000_0000_0000u64 != 0
        && 0xfff0_0000_0000_0000u64 & 0x7fff_ffff_ffff_ffffu64 == 0x7ff0_0000_0000_0000u64) by (bit_vector);
}

/// u64idening the tolerances never turns a pass of the binary64 relative test
/// into a failure.
///
/// `epsilon2` is no smaller than `epsilon`, and each scaled magnitude is no
/// smaller than before, as rounding makes it when the relative tolerance
/// grows; a NaN bound passes nothing, so any bound widens it.
pub proof fn lemma_binary64_relative_monotonic(
    a: u64,
    b: u64,
    diff: u64,
    epsilon: u64,
    a_scaled: u64,
    b_scaled: u64,
    epsilon2: u64,
    a_scaled2: u64,
    b_scaled2: u64,
)
    requires
        relative_eq_binary64_spec(a, b, diff, epsilon, a_scaled, b_scaled),
        binary64_is_nan(epsilon) || binary64_le(epsilon, epsilon2),
        binary64_is_nan(a_scaled) || binary64_le(a_scaled, a_scaled2),
        binary64_is_nan(b_scaled) || binary64_le(b_scaled, b_scaled2),
    ensures
        relative_eq_binary64_spec(a, b, diff, epsilon2, a_scaled2, b_scaled2),
{
    let abs_diff = binary64_abs(diff);
    if binary64_le(abs_diff, epsilon) {
        lemma_binary64_le_transitive(abs_diff, epsilon, epsilon2);
    }
    if binary64_le(abs_diff, a_scaled) {
        lemma_binary64_le_transitive(abs_diff, a_scaled, a_scaled2);
    }
    if binary64_le(abs_diff, b_scaled) {
        lemma_binary64_le_transitive(abs_diff, b_scaled, b_scaled2);
    }
}

/// u64idening the ULP tolerance never turns a pass of the binary64 ULPs test
/// into a failure.
pub proof fn lemma_binary64_ulps_monotonic(
    a: u64,
    b: u64,
    diff: u64,
    epsilon: u64,
    max_ulps: u32,
    wider: u32,
)
    requires
        ulps_eq_binary64_spec(a, b, diff, epsilon, max_ulps),
        max_ulps <= wider,
    ensures
        ulps_eq_binary64_spec(a, b, diff, epsilon, wider),
{
}

/// Adjacent binary64 values of the same sign, whose patterns differ by one,
/// pass the ULPs test at a zero absolute tolerance with one ULP, and fail it
/// with none: distinct values have a difference that is not a zero.
pub proof fn lemma_binary64_adjacent(a: u64, b: u64, diff: u64, epsilon: u64)
    requires
        !binary64_is_nan(a),
        !binary64_is_nan(b),
        binary64_is_negative(a) == binary64_is_negative(b),
        dist(a as int, b as int) == 1,
        !binary64_is_zero(diff),
        binary64_is_zero(epsilon),
    ensures
        ulps_eq_binary64_spec(a, b, diff, epsilon, 1),
        !ulps_eq_binary64_spec(a, b, diff, epsilon, 0),
{
    lemma_binary64_abs(diff);
}

/// The absolute value of a binary32 pattern has no sign, is its own absolute
/// value, and is a NaN or infinite exactly when the pattern is; a pattern that
/// is not a NaN has a magnitude no larger than infinity's.
pub proof fn lemma_binary32_abs(x: u32)
    ensures
        !binary32_is_negative(binary32_abs(x)),
        binary32_abs(binary32_abs(x)) == binary32_abs(x),
        binary32_is_nan(binary32_abs(x)) == binary32_is_nan(x),
        !binary32_is_nan(x) ==> binary32_abs(x) <= BINARY32_INFINITY,
        binary32_is_zero(x) ==> !binary32_is_nan(x),
{
    assert(x & 0x7fff_ffffu32 == 0 ==> !(x & 0x7f80_0000u32 == 0x7f80_0000u32 && x & 0x007f_ffffu32 != 0)) by (bit_vector);
    assert((x & 0x7fff_ffffu32) & 0x8000_0000u32 == 0) by (bit_vector);
    assert((x & 0x7fff_ffffu32) & 0x7fff_ffffu32 == x & 0x7fff_ffffu32) by (bit_vector);
    assert(((x & 0x7fff_ffffu32) & 0x7f80_0000u32 == 0x7f80_0000u32 && (x & 0x7fff_ffffu32) & 0x007f_ffffu32 != 0) == (x & 0x7f80_0000u32
        == 0x7f80_0000u32 && x & 0x007f_ffffu32 != 0)) by (bit_vector);
    assert(!(x & 0x7f80_0000u32 == 0x7f80_0000u32 && x & 0x007f_ffffu32 != 0) ==> x & 0x7fff_ffffu32 <= 0x7f80_0000u32)
        by (bit_vector);
}

/// IEEE-754 `<=` on binary32 values is transitive.
pub proof fn lemma_binary32_le_transitive(x: u32, y: u32, z: u32)
    requires
        binary32_le(x, y),
        binary32_le(y, z),
    ensures
        binary32_le(x, z),
{
}

/// A binary32 value that is not a NaN passes the relative and ULPs tests
/// against itself, whatever the arithmetic gave; its difference from itself
/// being a zero, it passes the absolute test at a zero tolerance too.
pub proof fn lemma_binary32_reflexive(
    a: u32,
    diff: u32,
    epsilon: u32,
    a_scaled: u32,
    b_scaled: u32,
    max_ulps: u32,
)
    requires
        !binary32_is_nan(a),
    ensures
        relative_eq_binary32_spec(a, a, diff, epsilon, a_scaled, b_scaled),
        ulps_eq_binary32_spec(a, a, diff, epsilon, max_ulps),
        binary32_is_zero(diff) && binary32_is_zero(epsilon) ==> abs_diff_eq_binary32_spec(
            diff,
            epsilon,
        ),
{
    lemma_binary32_abs(diff);
    lemma_binary32_abs(epsilon);
}

/// The three binary32 tests do not depend on the order of the operands.
///
/// `diff_ab` and `diff_ba` are the patterns of `a - b` and `b - a`, which
/// IEEE-754 makes negations of each other, and a NaN operand makes them NaNs;
/// `a_scaled` and `b_scaled` are `|a|` and `|b|` scaled by one tolerance, so
/// equal magnitudes give equal bounds.
pub proof fn lemma_binary32_symmetric(
    a: u32,
    b: u32,
    diff_ab: u32,
    diff_ba: u32,
    epsilon: u32,
    a_scaled: u32,
    b_scaled: u32,
    max_ulps: u32,
)
    requires
        binary32_abs(diff_ab) == binary32_abs(diff_ba),
        binary32_is_nan(a) || binary32_is_nan(b) ==> binary32_is_nan(diff_ab),
        binary32_abs(a) == binary32_abs(b) ==> a_scaled == b_scaled,
    ensures
        abs_diff_eq_binary32_spec(diff_ab, epsilon) == abs_diff_eq_binary32_spec(diff_ba, epsilon),
        relative_eq_binary32_spec(a, b, diff_ab, epsilon, a_scaled, b_scaled)
            == relative_eq_binary32_spec(b, a, diff_ba, epsilon, b_scaled, a_scaled),
        ulps_eq_binary32_spec(a, b, diff_ab, epsilon, max_ulps) == ulps_eq_binary32_spec(
            b,
            a,
            diff_ba,
            epsilon,
            max_ulps,
        ),
{
    lemma_binary32_abs(a);
    lemma_binary32_abs(b);
    lemma_binary32_abs(diff_ab);
}

/// No binary32 test passes when an operand is a NaN and the difference has
/// become a NaN, as IEEE-754 arithmetic makes it.
pub proof fn lemma_binary32_nan(
    a: u32,
    b: u32,
    diff: u32,
    epsilon: u32,
    a_scaled: u32,
    b_scaled: u32,
    max_ulps: u32,
)
    requires
        binary32_is_nan(a) || binary32_is_nan(b),
        binary32_is_nan(diff),
    ensures
        !abs_diff_eq_binary32_spec(diff, epsilon),
        !relative_eq_binary32_spec(a, b, diff, epsilon, a_scaled, b_scaled),
        !ulps_eq_binary32_spec(a, b, diff, epsilon, max_ulps),
{
    lemma_binary32_abs(diff);
}

/// `+0.0` and `-0.0` pass all three binary32 tests at a zero tolerance, their
/// difference being a zero; the ULPs test joins them exactly when the absolute
/// test does, since their signs differ.
pub proof fn lemma_binary32_signed_zero(
    diff: u32,
    epsilon: u32,
    a_scaled: u32,
    b_scaled: u32,
    max_ulps: u32,
)
    ensures
        binary32_is_zero(diff) && binary32_is_zero(epsilon) ==> {
            &&& abs_diff_eq_binary32_spec(diff, epsilon)
            &&& relative_eq_binary32_spec(0, BINARY32_SIGN, diff, epsilon, a_scaled, b_scaled)
            &&& ulps_eq_binary32_spec(0, BINARY32_SIGN, diff, epsilon, max_ulps)
        },
        ulps_eq_binary32_spec(0, BINARY32_SIGN, diff, epsilon, max_ulps)
            == abs_diff_eq_binary32_spec(diff, epsilon),
{
    lemma_binary32_abs(diff);
    lemma_binary32_abs(epsilon);
    assert(0 & 0x8000_0000u32 == 0 && 0 & 0x7fff_ffffu32 == 0 && 0 & 0x7f80_0000u32 != 0x7f80_0000u32) by (bit_vector);
    assert(0x8000_0000u32 & 0x8000_0000u32 != 0 && 0x8000_0000u32 & 0x7fff_ffffu32 == 0 && 0x8000_0000u32 & 0x7f80_0000u32 != 0x7f80_0000u32)
        by (bit_vector);
}

/// Positive infinity passes the relative test against itself, whatever the
/// tolerances.
pub proof fn lemma_binary32_equal_infinities(diff: u32, epsilon: u32, a_scaled: u32, b_scaled: u32)
    ensures
        relative_eq_binary32_spec(
            BINARY32_INFINITY,
            BINARY32_INFINITY,
            diff,
            epsilon,
            a_scaled,
            b_scaled,
        ),
{
    assert(0x7f80_0000u32 & 0x7f80_0000u32 == 0x7f80_0000u32 && 0x7f80_0000u32 & 0x007f_ffffu32 == 0) by (bit_vector);
}

/// Positive and negative infinity fail the relative test under any finite
/// absolute tolerance, whatever the relative one: their difference is
/// infinite, as large as either of them.
pub proof fn lemma_binary32_opposite_infinities(diff: u32, epsilon: u32, a_scaled: u32, b_scaled: u32)
    requires
        binary32_abs(diff) == BINARY32_INFINITY,
        !binary32_is_nan(epsilon),
        binary32_abs(epsilon) != BINARY32_INFINITY,
    ensures
        !relative_eq_binary32_spec(
            BINARY32_INFINITY,
            BINARY32_NEG_INFINITY,
            diff,
            epsilon,
            a_scaled,
            b_scaled,
        ),
{
    lemma_binary32_abs(epsilon);
    assert(0x7f80_0000u32 & 0x7f80_0000u32 == 0x7f80_0000u32 && 0x7f80_0000u32 & 0x007f_ffffu32 == 0 && 0x7f80_0000u32 & 0x8000_0000u32 == 0
        && 0x7f80_0000u32 & 0x7fff_ffffu32 == 0x7f80_0000u32) by (bit_vector);
    assert(0xff80_0000u32 & 0x7f80_0000u32 == 0x7f80_0000u32 && 0xff80_0000u32 & 0x007f_ffffu32 == 0 && 0xff80_0000u32 & 0x8000_0000u32 != 0
        && 0xff80_0000u32 & 0x7fff_ffffu32 == 0x7f80_0000u32) by (bit_vector);
}

/// u32idening the tolerances never turns a pass of the binary32 relative test
/// into a failure.
///
/// `epsilon2` is no smaller than `epsilon`, and each scaled magnitude is no
/// smaller than before, as rounding makes it when the relative tolerance
/// grows; a NaN bound passes nothing, so any bound widens it.
pub proof fn lemma_binary32_relative_monotonic(
    a: u32,
    b: u32,
    diff: u32,
    epsilon: u32,
    a_scaled: u32,
    b_scaled: u32,
    epsilon2: u32,
    a_scaled2: u32,
    b_scaled2: u32,
)
    requires
        relative_eq_binary32_spec(a, b, diff, epsilon, a_scaled, b_scaled),
        binary32_is_nan(epsilon) || binary32_le(epsilon, epsilon2),
        binary32_is_nan(a_scaled) || binary32_le(a_scaled, a_scaled2),
        binary32_is_nan(b_scaled) || binary32_le(b_scaled, b_scaled2),
    ensures
        relative_eq_binary32_spec(a, b, diff, epsilon2, a_scaled2, b_scaled2),
{
    let abs_diff = binary32_abs(diff);
    if binary32_le(abs_diff, epsilon) {
        lemma_binary32_le_transitive(abs_diff, epsilon, epsilon2);
    }
    if binary32_le(abs_diff, a_scaled) {
        lemma_binary32_le_transitive(abs_diff, a_scaled, a_scaled2);
    }
    if binary32_le(abs_diff, b_scaled) {
        lemma_binary32_le_transitive(abs_diff, b_scaled, b_scaled2);
    }
}

/// u32idening the ULP tolerance never turns a pass of the binary32 ULPs test
/// into a failure.
pub proof fn lemma_binary32_ulps_monotonic(
    a: u32,
    b: u32,
    diff: u32,
    epsilon: u32,
    max_ulps: u32,
    wider: u32,
)
    requires
        ulps_eq_binary32_spec(a, b, diff, epsilon, max_ulps),
        max_ulps <= wider,
    ensures
        ulps_eq_binary32_spec(a, b, diff, epsilon, wider),
{
}

/// Adjacent binary32 values of the same sign, whose patterns differ by one,
/// pass the ULPs test at a zero absolute tolerance with one ULP, and fail it
/// with none: distinct values have a difference that is not a zero.
pub proof fn lemma_binary32_adjacent(a: u32, b: u32, diff: u32, epsilon: u32)
    requires
        !binary32_is_nan(a),
        !binary32_is_nan(b),
        binary32_is_negative(a) == binary32_is_negative(b),
        dist(a as int, b as int) == 1,
        !binary32_is_zero(diff),
        binary32_is_zero(epsilon),
    ensures
        ulps_eq_binary32_spec(a, b, diff, epsilon, 1),
        !ulps_eq_binary32_spec(a, b, diff, epsilon, 0),
{
    lemma_binary32_abs(diff);
}

} // verus!
