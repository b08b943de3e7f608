//! Ordering of single-precision floats given by their bit patterns.
use vstd::prelude::*;

verus! {

/// The sign bit of a single-precision value.
pub const SIGN_BIT: u32 = 0x8000_0000;

/// The bit pattern of positive infinity; every larger magnitude is a NaN.
pub const INFINITY_BITS: u32 = 0x7f80_0000;

/// Magnitude of the value: its bits without the sign.
pub open spec fn magnitude(b: u32) -> int {
    if b >= SIGN_BIT {
        b - SIGN_BIT
    } else {
        b as int
    }
}

/// The pattern encodes a NaN.
pub open spec fn is_nan(b: u32) -> bool {
    magnitude(b) > INFINITY_BITS
}

/// A key whose integer order is the order of the (non-NaN) values:
/// sign and magnitude, with both zeros mapped to zero.
pub open spec fn order_key(b: u32) -> int {
    if b >= SIGN_BIT {
        -magnitude(b)
    } else {
        magnitude(b)
    }
}

/// `a < b` on the encoded values; false when either is NaN.
pub open spec fn float_lt(a: u32, b: u32) -> bool {
    !is_nan(a) && !is_nan(b) && order_key(a) < order_key(b)
}

/// `a <= b` on the encoded values; false when either is NaN.
pub open spec fn float_le(a: u32, b: u32) -> bool {
    !is_nan(a) && !is_nan(b) && order_key(a) <= order_key(b)
}

/// `a` clamped to `[lo, hi]`: `lo` if below, `hi` if above, else `a` itself
/// (a NaN is neither below nor above, and is kept).
pub open spec fn clamp_spec(a: u32, lo: u32, hi: u32) -> u32 {
    if float_lt(a, lo) {
        lo
    } else if float_lt(hi, a) {
        hi
    } else {
        a
    }
}

fn key_of(b: u32) -> (r: i64)
    ensures
        r == order_key(b),
        !is_nan(b) <==> (-(INFINITY_BITS as int) <= r <= INFINITY_BITS),
{
    if b >= SIGN_BIT {
        -((b - SIGN_BIT) as i64)
    } else {
        b as i64
    }
}

fn nan(b: u32) -> (r: bool)
    ensures
        r == is_nan(b),
{
    let m = if b >= SIGN_BIT {
        b - SIGN_BIT
    } else {
        b
    };
    m > INFINITY_BITS
}

/// Strict order of two encoded values, false when either is NaN.
pub fn less_than(a: u32, b: u32) -> (r: bool)
    ensures
        r == float_lt(a, b),
{
    !nan(a) && !nan(b) && key_of(a) < key_of(b)
}

/// Clamps the encoded value `a` to `[lo, hi]`.
pub fn clamp(a: u32, lo: u32, hi: u32) -> (r: u32)
    ensures
        r == clamp_spec(a, lo, hi),
{
    if less_than(a, lo) {
        lo
    } else if less_than(hi, a) {
        hi
    } else {
        a
    }
}

/// A clamped non-NaN value lies in `[lo, hi]` whenever `lo <= hi`, and a value
/// beyond either bound is replaced by exactly that bound.
pub proof fn lemma_clamp_in_range(a: u32, lo: u32, hi: u32)
    requires
        !is_nan(a),
        float_le(lo, hi),
    ensures
        float_le(lo, clamp_spec(a, lo, hi)),
        float_le(clamp_spec(a, lo, hi), hi),
        float_lt(hi, a) ==> clamp_spec(a, lo, hi) == hi,
        float_lt(a, lo) ==> clamp_spec(a, lo, hi) == lo,
        float_le(lo, a) && float_le(a, hi) ==> clamp_spec(a, lo, hi) == a,
{
}

} // verus!
