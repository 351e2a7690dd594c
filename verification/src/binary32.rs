//! IEEE-754 binary32 numbers as bit patterns: their order, their sign and the
//! canonical form of a NaN.

use vstd::prelude::*;

verus! {

/// The sign bit of a binary32 number.
pub const SIGN_BIT: u32 = 0x8000_0000;

/// Positive infinity: the largest magnitude that is not a NaN.
pub const INFINITY: u32 = 0x7f80_0000;

/// The NaN under which every NaN that arithmetic produces is stored.
pub const QUIET_NAN: u32 = 0x7fc0_0000;

/// Positive zero.
pub const ZERO: u32 = 0;

/// The number one.
pub const ONE: u32 = 0x3f80_0000;

/// The bit pattern without its sign bit.
pub open spec fn magnitude(bits: u32) -> int {
    if bits >= SIGN_BIT {
        bits - SIGN_BIT
    } else {
        bits as int
    }
}

/// Whether the sign bit is set.
pub open spec fn is_negative(bits: u32) -> bool {
    bits >= SIGN_BIT
}

/// Whether the bit pattern is a NaN: its magnitude lies above infinity.
pub open spec fn is_nan(bits: u32) -> bool {
    magnitude(bits) > INFINITY
}

/// The place of a number in the numeric order. Both zeros have rank 0; the
/// rank of a NaN has no meaning.
pub open spec fn rank(bits: u32) -> int {
    if is_negative(bits) {
        -magnitude(bits)
    } else {
        magnitude(bits)
    }
}

/// `a > b` as IEEE-754 defines it: false when either side is a NaN.
pub open spec fn greater(a: u32, b: u32) -> bool {
    !is_nan(a) && !is_nan(b) && rank(a) > rank(b)
}

/// `a <= b` as IEEE-754 defines it: false when either side is a NaN.
pub open spec fn at_most(a: u32, b: u32) -> bool {
    !is_nan(a) && !is_nan(b) && rank(a) <= rank(b)
}

/// The bit pattern with its sign bit flipped.
pub open spec fn negated(bits: u32) -> u32 {
    if bits >= SIGN_BIT {
        (bits - SIGN_BIT) as u32
    } else {
        (bits + SIGN_BIT) as u32
    }
}

/// The bit pattern itself, or `QUIET_NAN` in place of any NaN.
pub open spec fn canonical(bits: u32) -> u32 {
    if is_nan(bits) {
        QUIET_NAN
    } else {
        bits
    }
}

/// Tells whether `bits` is a NaN.
pub fn is_nan_bits(bits: u32) -> (r: bool)
    ensures
        r == is_nan(bits),
{
    if bits >= SIGN_BIT {
        bits - SIGN_BIT > INFINITY
    } else {
        bits > INFINITY
    }
}

/// The rank of `bits` as a machine integer.
fn rank_of(bits: u32) -> (r: i64)
    ensures
        r == rank(bits),
{
    if bits >= SIGN_BIT {
        let m: u32 = bits - SIGN_BIT;
        -(m as i64)
    } else {
        bits as i64
    }
}

/// Tells whether `a > b`.
pub fn is_greater(a: u32, b: u32) -> (r: bool)
    ensures
        r == greater(a, b),
{
    !is_nan_bits(a) && !is_nan_bits(b) && rank_of(a) > rank_of(b)
}

/// Tells whether `a <= b`.
pub fn is_at_most(a: u32, b: u32) -> (r: bool)
    ensures
        r == at_most(a, b),
{
    !is_nan_bits(a) && !is_nan_bits(b) && rank_of(a) <= rank_of(b)
}

/// Flips the sign bit.
pub fn negate(bits: u32) -> (r: u32)
    ensures
        r == negated(bits),
{
    if bits >= SIGN_BIT {
        bits - SIGN_BIT
    } else {
        bits + SIGN_BIT
    }
}

/// Replaces a NaN by `QUIET_NAN` and leaves every other number as it is.
pub fn canonicalize(bits: u32) -> (r: u32)
    ensures
        r == canonical(bits),
{
    if is_nan_bits(bits) {
        QUIET_NAN
    } else {
        bits
    }
}

/// `>` is a strict order: no number is greater than itself, no two numbers
/// are each greater than the other, and `a > b > c` gives `a > c`.
pub proof fn lemma_greater_is_strict_order(a: u32, b: u32, c: u32)
    ensures
        !greater(a, a),
        !(greater(a, b) && greater(b, a)),
        greater(a, b) && greater(b, c) ==> greater(a, c),
{
}

/// Of two numbers of which neither is a NaN, exactly one of `a > b` and
/// `a <= b` holds.
pub proof fn lemma_order_total(a: u32, b: u32)
    requires
        !is_nan(a),
        !is_nan(b),
    ensures
        greater(a, b) != at_most(a, b),
{
}

} // verus!
