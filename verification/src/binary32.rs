//! IEEE-754 binary32 numbers, held by their bit patterns.
//!
//! Only what the viewer needs is here: telling a NaN apart, the order of two
//! numbers, and clamping to an interval.

use vstd::prelude::*;

verus! {

/// The bit that carries the sign.
pub const SIGN_BIT: u32 = 0x8000_0000;

/// Positive infinity. A pattern with a larger magnitude is a NaN.
pub const INFINITY_BITS: u32 = 0x7f80_0000;

/// The pattern with its sign bit cleared.
pub open spec fn magnitude(bits: u32) -> int {
    if bits >= SIGN_BIT {
        bits - SIGN_BIT
    } else {
        bits as int
    }
}

/// Whether the pattern is a NaN.
pub open spec fn is_nan(bits: u32) -> bool {
    magnitude(bits) > INFINITY_BITS
}

/// An integer that orders the patterns as the numbers are ordered: of two
/// patterns that are not NaN, the one with the smaller rank is the smaller
/// number, and equal ranks are equal numbers. Both zeros have rank 0.
pub open spec fn rank(bits: u32) -> int {
    if bits >= SIGN_BIT {
        -magnitude(bits)
    } else {
        magnitude(bits)
    }
}

/// The comparison `a < b` of the two numbers, which is false as soon as one
/// of them is a NaN.
pub open spec fn less(a: u32, b: u32) -> bool {
    !is_nan(a) && !is_nan(b) && rank(a) < rank(b)
}

/// Whether `lo` and `hi` bound an interval: neither is a NaN and `lo` is not
/// above `hi`.
pub open spec fn valid_bounds(lo: u32, hi: u32) -> bool {
    !is_nan(lo) && !is_nan(hi) && rank(lo) <= rank(hi)
}

/// Whether `x` is a number of the interval from `lo` to `hi`, ends included.
pub open spec fn in_range(x: u32, lo: u32, hi: u32) -> bool {
    !is_nan(x) && rank(lo) <= rank(x) <= rank(hi)
}

/// `x` restricted to the interval from `lo` to `hi`: `lo` where `x` is below
/// it, `hi` where `x` is above it, and `x` itself otherwise. A NaN is below
/// and above nothing, so it stays.
pub open spec fn clamped(x: u32, lo: u32, hi: u32) -> u32 {
    if less(x, lo) {
        lo
    } else if less(hi, x) {
        hi
    } else {
        x
    }
}

/// Tells whether `bits` is a NaN.
pub fn check_nan(bits: u32) -> (r: bool)
    ensures
        r == is_nan(bits),
{
    if bits >= SIGN_BIT {
        bits - SIGN_BIT > INFINITY_BITS
    } else {
        bits > INFINITY_BITS
    }
}

/// Computes the rank of a pattern.
pub fn rank_of(bits: u32) -> (r: i64)
    ensures
        r == rank(bits),
{
    if bits >= SIGN_BIT {
        let m: u32 = bits - SIGN_BIT;
        0 - (m as i64)
    } else {
        bits as i64
    }
}

/// Compares two numbers: `a < b`.
pub fn less_than(a: u32, b: u32) -> (r: bool)
    ensures
        r == less(a, b),
{
    !check_nan(a) && !check_nan(b) && rank_of(a) < rank_of(b)
}

/// Restricts `x` to the interval from `lo` to `hi`.
pub fn clamp(x: u32, lo: u32, hi: u32) -> (r: u32)
    requires
        valid_bounds(lo, hi),
    ensures
        r == clamped(x, lo, hi),
{
    if less_than(x, lo) {
        lo
    } else if less_than(hi, x) {
        hi
    } else {
        x
    }
}

/// Clamping a number gives a number of the interval.
pub proof fn lemma_clamped_in_range(x: u32, lo: u32, hi: u32)
    requires
        valid_bounds(lo, hi),
        !is_nan(x),
    ensures
        in_range(clamped(x, lo, hi), lo, hi),
{
}

/// Clamping leaves a number of the interval as it is.
pub proof fn lemma_clamped_keeps_in_range(x: u32, lo: u32, hi: u32)
    requires
        in_range(x, lo, hi),
    ensures
        clamped(x, lo, hi) == x,
{
}

/// Clamping twice is clamping once.
pub proof fn lemma_clamped_idempotent(x: u32, lo: u32, hi: u32)
    requires
        valid_bounds(lo, hi),
    ensures
        clamped(clamped(x, lo, hi), lo, hi) == clamped(x, lo, hi),
{
}

/// A NaN passes through a clamp unchanged.
pub proof fn lemma_clamped_nan(x: u32, lo: u32, hi: u32)
    requires
        is_nan(x),
    ensures
        clamped(x, lo, hi) == x,
{
}

} // verus!
