//! Real values as the library carries them: IEEE 754 binary64 numbers, held
//! as their 64-bit patterns.
//!
//! The library never does arithmetic on a value. It only moves values, tells
//! them apart, and orders them. Ordering needs no arithmetic: a pattern with
//! a clear sign bit grows with the number it encodes, and one with the sign
//! bit set shrinks as its remaining bits grow. `rank` turns that into a
//! single integer per pattern, and every comparison below is stated over it.

use vstd::prelude::*;

verus! {

/// The sign bit of a pattern.
pub const SIGN_BIT: u64 = 0x8000_0000_0000_0000;

/// Positive zero.
pub const ZERO: u64 = 0;

/// Positive infinity. Every pattern whose magnitude is larger encodes a NaN.
pub const POSITIVE_INFINITY: u64 = 0x7ff0_0000_0000_0000;

/// Negative infinity.
pub const NEGATIVE_INFINITY: u64 = 0xfff0_0000_0000_0000;

/// The pattern without its sign bit.
pub open spec fn magnitude(bits: u64) -> int {
    if bits >= SIGN_BIT {
        bits - SIGN_BIT
    } else {
        bits as int
    }
}

/// Whether the pattern encodes a NaN.
pub open spec fn is_nan(bits: u64) -> bool {
    magnitude(bits) > POSITIVE_INFINITY
}

/// The place of a pattern in the order of the numbers.
///
/// For two patterns that are not NaN, the encoded numbers compare as their
/// ranks do. Both zeros have rank 0, as they compare equal.
pub open spec fn rank(bits: u64) -> int {
    if bits >= SIGN_BIT {
        -(bits - SIGN_BIT)
    } else {
        bits as int
    }
}

/// The larger of two values, where a NaN never wins over a number and the
/// left operand is kept when both compare equal.
pub open spec fn larger_of(a: u64, b: u64) -> u64 {
    if is_nan(b) {
        a
    } else if is_nan(a) {
        b
    } else if rank(a) < rank(b) {
        b
    } else {
        a
    }
}

/// A value limited to the closed range from `low` to `high`. A NaN is not
/// ordered and stays as it is.
pub open spec fn clamped(bits: u64, low: u64, high: u64) -> u64 {
    if is_nan(bits) {
        bits
    } else if rank(bits) < rank(low) {
        low
    } else if rank(high) < rank(bits) {
        high
    } else {
        bits
    }
}

/// The larger of a value and zero: a number above zero stays as it is, and
/// everything else, either zero and a NaN included, becomes positive zero.
pub open spec fn rectified(bits: u64) -> u64 {
    if !is_nan(bits) && rank(bits) > 0 {
        bits
    } else {
        ZERO
    }
}

/// Tells whether a pattern encodes a NaN.
pub fn holds_nan(bits: u64) -> (r: bool)
    ensures
        r == is_nan(bits),
{
    if bits >= SIGN_BIT {
        bits - SIGN_BIT > POSITIVE_INFINITY
    } else {
        bits > POSITIVE_INFINITY
    }
}

/// Tells whether `a` comes strictly before `b` in the order of ranks.
pub fn ranks_below(a: u64, b: u64) -> (r: bool)
    ensures
        r == (rank(a) < rank(b)),
{
    if a >= SIGN_BIT {
        if b >= SIGN_BIT {
            b < a
        } else {
            a > SIGN_BIT || b > 0
        }
    } else {
        if b >= SIGN_BIT {
            false
        } else {
            a < b
        }
    }
}

/// Computes `larger_of`.
pub fn larger(a: u64, b: u64) -> (r: u64)
    ensures
        r == larger_of(a, b),
{
    if holds_nan(b) {
        a
    } else if holds_nan(a) {
        b
    } else if ranks_below(a, b) {
        b
    } else {
        a
    }
}

/// Computes `rectified`.
pub fn rectify(bits: u64) -> (r: u64)
    ensures
        r == rectified(bits),
{
    if !holds_nan(bits) && ranks_below(ZERO, bits) {
        bits
    } else {
        ZERO
    }
}

/// Computes `clamped`.
pub fn clamp(bits: u64, low: u64, high: u64) -> (r: u64)
    ensures
        r == clamped(bits, low, high),
{
    if holds_nan(bits) {
        bits
    } else if ranks_below(bits, low) {
        low
    } else if ranks_below(high, bits) {
        high
    } else {
        bits
    }
}

/// `larger_of` never turns a number into a NaN, returns one of its operands,
/// and its result ranks at least as high as every operand that is a number.
pub proof fn lemma_larger_of_bounds(a: u64, b: u64)
    ensures
        larger_of(a, b) == a || larger_of(a, b) == b,
        !is_nan(a) ==> !is_nan(larger_of(a, b)),
        !is_nan(a) ==> rank(a) <= rank(larger_of(a, b)),
        !is_nan(a) && !is_nan(b) ==> rank(b) <= rank(larger_of(a, b)),
{
}

/// `rectified` gives the maximum of zero and its argument: the result is
/// never a NaN and never ranks below zero, a number is sent to the larger of
/// its own rank and 0, and a number above zero is returned bit for bit.
pub proof fn lemma_rectified_is_max_with_zero(bits: u64)
    ensures
        !is_nan(rectified(bits)),
        rank(rectified(bits)) >= 0,
        !is_nan(bits) ==> rank(rectified(bits)) == if rank(bits) > 0 {
            rank(bits)
        } else {
            0
        },
        !is_nan(bits) && rank(bits) > 0 ==> rectified(bits) == bits,
{
}

/// Rectifying twice is the same as rectifying once.
pub proof fn lemma_rectified_idempotent(bits: u64)
    ensures
        rectified(rectified(bits)) == rectified(bits),
{
}

/// Between bounds that are numbers in rising order, `clamped` sends every
/// number into the range, leaves alone what is already inside it, and is
/// idempotent.
pub proof fn lemma_clamped_in_range(bits: u64, low: u64, high: u64)
    requires
        !is_nan(low),
        !is_nan(high),
        rank(low) <= rank(high),
    ensures
        !is_nan(bits) ==> rank(low) <= rank(clamped(bits, low, high)) <= rank(high),
        !is_nan(bits) ==> !is_nan(clamped(bits, low, high)),
        !is_nan(bits) && rank(low) <= rank(bits) <= rank(high) ==> clamped(bits, low, high) == bits,
        clamped(clamped(bits, low, high), low, high) == clamped(bits, low, high),
{
}

} // verus!
