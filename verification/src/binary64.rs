//! Ordering of IEEE-754 binary64 values, each given by its 64-bit pattern.
//!
//! A pattern is a sign bit followed by 63 bits of magnitude. For patterns that are
//! not NaN, the numeric order is the order of the signed magnitude: positive values
//! (and infinity) grow with their pattern, negative values shrink with it, and
//! positive and negative zero are equal. A NaN compares false with everything.
use vstd::prelude::*;

verus! {

/// The sign bit of a binary64 pattern.
pub const SIGN_BIT: u64 = 0x8000_0000_0000_0000;

/// The pattern of positive infinity: every magnitude above it is a NaN.
pub const POSITIVE_INFINITY: u64 = 0x7FF0_0000_0000_0000;

/// The pattern of positive zero.
pub const POSITIVE_ZERO: u64 = 0;

/// The 63 low bits of a pattern.
pub open spec fn magnitude(bits: u64) -> int {
    if bits >= SIGN_BIT {
        bits - SIGN_BIT
    } else {
        bits as int
    }
}

/// Whether a pattern is a NaN: all exponent bits set and a non-zero fraction.
pub open spec fn is_nan(bits: u64) -> bool {
    magnitude(bits) > POSITIVE_INFINITY
}

/// An integer that orders patterns as their numeric values are ordered
/// (meaningful for patterns that are not NaN).
pub open spec fn order_key(bits: u64) -> int {
    if bits >= SIGN_BIT {
        -magnitude(bits)
    } else {
        magnitude(bits)
    }
}

/// IEEE-754 `a < b`.
pub open spec fn value_lt(a: u64, b: u64) -> bool {
    !is_nan(a) && !is_nan(b) && order_key(a) < order_key(b)
}

/// IEEE-754 `a <= b`.
pub open spec fn value_le(a: u64, b: u64) -> bool {
    !is_nan(a) && !is_nan(b) && order_key(a) <= order_key(b)
}

/// IEEE-754 `a > b`.
pub open spec fn value_gt(a: u64, b: u64) -> bool {
    value_lt(b, a)
}

/// IEEE-754 `a >= b`.
pub open spec fn value_ge(a: u64, b: u64) -> bool {
    value_le(b, a)
}

fn key(bits: u64) -> (k: i128)
    ensures
        k == order_key(bits),
{
    if bits >= SIGN_BIT {
        -((bits - SIGN_BIT) as i128)
    } else {
        bits as i128
    }
}

/// Whether `bits` is the pattern of a NaN.
pub fn is_nan_bits(bits: u64) -> (r: bool)
    ensures
        r == is_nan(bits),
{
    let m: u64 = if bits >= SIGN_BIT {
        bits - SIGN_BIT
    } else {
        bits
    };
    m > POSITIVE_INFINITY
}

/// `a < b` on the values that the patterns stand for.
pub fn lt(a: u64, b: u64) -> (r: bool)
    ensures
        r == value_lt(a, b),
{
    !is_nan_bits(a) && !is_nan_bits(b) && key(a) < key(b)
}

/// `a <= b` on the values that the patterns stand for.
pub fn le(a: u64, b: u64) -> (r: bool)
    ensures
        r == value_le(a, b),
{
    !is_nan_bits(a) && !is_nan_bits(b) && key(a) <= key(b)
}

/// `a > b` on the values that the patterns stand for.
pub fn gt(a: u64, b: u64) -> (r: bool)
    ensures
        r == value_gt(a, b),
{
    lt(b, a)
}

/// `a >= b` on the values that the patterns stand for.
pub fn ge(a: u64, b: u64) -> (r: bool)
    ensures
        r == value_ge(a, b),
{
    le(b, a)
}

/// The strict order is irreflexive and transitive, and `<` and `>=` never both hold.
pub proof fn lemma_lt_strict_order(a: u64, b: u64, c: u64)
    ensures
        !value_lt(a, a),
        value_lt(a, b) && value_lt(b, c) ==> value_lt(a, c),
        value_lt(a, b) ==> !value_ge(a, b),
        value_lt(a, b) ==> value_le(a, b),
{
}

/// The order on patterns, stated on the bits: the NaNs are the patterns whose 63
/// magnitude bits exceed those of infinity; among non-negative patterns a larger
/// pattern is a larger value, among negative patterns a larger pattern is a smaller
/// value, every negative value is below every non-negative one except that the two
/// zeros are equal; `<=` is `<` or equal value, and `>`, `>=` are `<`, `<=` swapped.
pub proof fn lemma_order_on_bits(a: u64, b: u64)
    ensures
        is_nan(a) <==> ((POSITIVE_INFINITY < a && a < SIGN_BIT) || a > SIGN_BIT + POSITIVE_INFINITY),
        (!is_nan(a) && !is_nan(b) && a < SIGN_BIT && b < SIGN_BIT) ==> (value_lt(a, b) <==> a < b),
        (!is_nan(a) && !is_nan(b) && a >= SIGN_BIT && b >= SIGN_BIT) ==> (value_lt(a, b) <==> a > b),
        (!is_nan(a) && !is_nan(b) && a >= SIGN_BIT && b < SIGN_BIT) ==> (value_lt(a, b) <==> !(a == SIGN_BIT && b == POSITIVE_ZERO)),
        (!is_nan(a) && !is_nan(b) && a < SIGN_BIT && b >= SIGN_BIT) ==> !value_lt(a, b),
        value_le(a, b) <==> (value_lt(a, b) || (!is_nan(a) && !is_nan(b) && (a == b
            || (a == SIGN_BIT && b == POSITIVE_ZERO) || (a == POSITIVE_ZERO && b == SIGN_BIT)))),
        value_gt(a, b) <==> value_lt(b, a),
        value_ge(a, b) <==> value_le(b, a),
{
}

} // verus!
