use vstd::prelude::*;

verus! {

// An IEEE-754 binary64 value is carried through the core as its 64-bit
// pattern: one sign bit, eleven exponent bits, fifty-two fraction bits.
pub const SIGN_MASK: u64 = 0x8000_0000_0000_0000;

pub const EXP_MASK: u64 = 0x7FF0_0000_0000_0000;

pub const FRAC_MASK: u64 = 0x000F_FFFF_FFFF_FFFF;

/// Every bit but the sign.
pub const ABS_MASK: u64 = 0x7FFF_FFFF_FFFF_FFFF;

/// The bit pattern of negative infinity, the smallest value in the order.
pub const NEG_INF_BITS: u64 = 0xFFF0_0000_0000_0000;

/// The bit pattern of the 64-bit value nearest the mathematical pi.
pub const PI_BITS: u64 = 0x4009_21FB_5444_2D18;

/// The pattern encodes a NaN: exponent all ones, fraction nonzero.
pub open spec fn is_nan_bits(b: u64) -> bool {
    b & EXP_MASK == EXP_MASK && b & FRAC_MASK != 0
}

/// A key that orders non-NaN patterns as the values they encode, with the
/// negative zero just below the positive zero: flipping all bits of a
/// negative pattern reverses the order of the negative range, and setting
/// the top bit of a non-negative pattern places it above that range.
pub open spec fn sort_key(b: u64) -> u64 {
    if b & SIGN_MASK == 0 {
        b | SIGN_MASK
    } else {
        !b
    }
}

/// The value encoded by `b` is strictly below zero.  Patterns above the
/// negative zero and up to negative infinity are the negative numbers;
/// anything beyond encodes a NaN, which is not below zero.
pub open spec fn is_neg_bits(b: u64) -> bool {
    SIGN_MASK < b <= NEG_INF_BITS
}

/// The smaller of two encoded values; a NaN loses to any number, as with
/// the IEEE-754 minimum-number operation.  A tie between the two zeros
/// resolves to the negative one.
pub open spec fn min_bits(a: u64, b: u64) -> u64 {
    if is_nan_bits(a) {
        b
    } else if is_nan_bits(b) {
        a
    } else if sort_key(a) <= sort_key(b) {
        a
    } else {
        b
    }
}

/// The larger of two encoded values; a NaN loses to any number.
pub open spec fn max_bits(a: u64, b: u64) -> u64 {
    if is_nan_bits(a) {
        b
    } else if is_nan_bits(b) {
        a
    } else if sort_key(a) <= sort_key(b) {
        b
    } else {
        a
    }
}

/// Both bounds are numbers and the lower one does not exceed the upper.
pub open spec fn valid_clamp_bounds(lo: u64, hi: u64) -> bool {
    &&& !is_nan_bits(lo)
    &&& !is_nan_bits(hi)
    &&& sort_key(lo) <= sort_key(hi)
}

/// `v` forced into the closed range from `lo` to `hi`; a NaN passes through.
pub open spec fn clamp_bits(v: u64, lo: u64, hi: u64) -> u64 {
    if is_nan_bits(v) {
        v
    } else if sort_key(v) < sort_key(lo) {
        lo
    } else if sort_key(v) > sort_key(hi) {
        hi
    } else {
        v
    }
}

/// The encoded value with its sign cleared, which is its absolute value;
/// on a NaN this clears the sign as well.
pub open spec fn abs_bits(b: u64) -> u64 {
    b & ABS_MASK
}

/// The pattern encodes a NaN.
pub fn is_nan_bits_exec(b: u64) -> (r: bool)
    ensures
        r == is_nan_bits(b),
{
    b & EXP_MASK == EXP_MASK && b & FRAC_MASK != 0
}

/// The order key of a non-NaN pattern.
pub fn sort_key_exec(b: u64) -> (r: u64)
    ensures
        r == sort_key(b),
{
    if b & SIGN_MASK == 0 {
        b | SIGN_MASK
    } else {
        !b
    }
}

/// The value encoded by `b` is strictly below zero.
pub fn is_neg_bits_exec(b: u64) -> (r: bool)
    ensures
        r == is_neg_bits(b),
{
    SIGN_MASK < b && b <= NEG_INF_BITS
}

/// The smaller of two encoded values.
pub fn min_bits_exec(a: u64, b: u64) -> (r: u64)
    ensures
        r == min_bits(a, b),
{
    if is_nan_bits_exec(a) {
        b
    } else if is_nan_bits_exec(b) {
        a
    } else if sort_key_exec(a) <= sort_key_exec(b) {
        a
    } else {
        b
    }
}

/// The larger of two encoded values.
pub fn max_bits_exec(a: u64, b: u64) -> (r: u64)
    ensures
        r == max_bits(a, b),
{
    if is_nan_bits_exec(a) {
        b
    } else if is_nan_bits_exec(b) {
        a
    } else if sort_key_exec(a) <= sort_key_exec(b) {
        b
    } else {
        a
    }
}

/// Both bounds are numbers and the lower one does not exceed the upper.
pub fn valid_clamp_bounds_exec(lo: u64, hi: u64) -> (r: bool)
    ensures
        r == valid_clamp_bounds(lo, hi),
{
    !is_nan_bits_exec(lo) && !is_nan_bits_exec(hi) && sort_key_exec(lo) <= sort_key_exec(hi)
}

/// `v` forced into the closed range from `lo` to `hi`.
pub fn clamp_bits_exec(v: u64, lo: u64, hi: u64) -> (r: u64)
    ensures
        r == clamp_bits(v, lo, hi),
{
    if is_nan_bits_exec(v) {
        v
    } else if sort_key_exec(v) < sort_key_exec(lo) {
        lo
    } else if sort_key_exec(v) > sort_key_exec(hi) {
        hi
    } else {
        v
    }
}

/// The encoded value with its sign cleared.
pub fn abs_bits_exec(b: u64) -> (r: u64)
    ensures
        r == abs_bits(b),
{
    b & ABS_MASK
}

} // verus!
