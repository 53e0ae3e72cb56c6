//! IEEE 754 single-precision numbers, read as their 32-bit encodings.
//!
//! An encoding has a sign bit, an 8-bit exponent field and a 23-bit fraction
//! field. With exponent field `e` and fraction field `f` it stands for
//!
//! * `±f · 2^-149` when `e == 0` (zero and the subnormal numbers),
//! * `±(2^23 + f) · 2^(e - 150)` when `0 < e < 255`,
//! * `±∞` when `e == 255` and `f == 0`,
//! * not-a-number when `e == 255` and `f != 0`.
//!
//! The predicates below classify an encoding without ever decoding it.

use vstd::prelude::*;

verus! {

/// The encoding of `+0.0`.
pub const POSITIVE_ZERO: u32 = 0;

/// The encoding of `1.0`.
pub const ONE: u32 = 0x3f80_0000;

/// The exponent field: bits 23 to 30.
pub open spec fn exponent_field(bits: u32) -> nat {
    ((bits / 0x80_0000) % 0x100) as nat
}

/// The fraction field: bits 0 to 22.
pub open spec fn fraction_field(bits: u32) -> nat {
    (bits % 0x80_0000) as nat
}

/// Whether the sign bit, bit 31, is set.
pub open spec fn sign_set(bits: u32) -> bool {
    bits >= 0x8000_0000
}

/// The integer that the fraction field contributes to the magnitude: the
/// magnitude of a finite encoding is `significand · 2^k` for a `k` that the
/// exponent field alone decides.
pub open spec fn significand(bits: u32) -> nat {
    if exponent_field(bits) == 0 {
        fraction_field(bits)
    } else {
        fraction_field(bits) + 0x80_0000
    }
}

/// The encoding is a not-a-number.
pub open spec fn nan(bits: u32) -> bool {
    exponent_field(bits) == 0xff && fraction_field(bits) != 0
}

/// The encoding is a number, not an infinity and not a not-a-number.
pub open spec fn finite(bits: u32) -> bool {
    exponent_field(bits) != 0xff
}

/// The encoding is `+0.0` or `-0.0`.
pub open spec fn zero(bits: u32) -> bool {
    finite(bits) && significand(bits) == 0
}

/// The encoding is a finite number greater than zero.
pub open spec fn positive(bits: u32) -> bool {
    finite(bits) && !sign_set(bits) && significand(bits) > 0
}

/// The encoding is less than zero: a negative number or `-∞`.
pub open spec fn negative(bits: u32) -> bool {
    !nan(bits) && sign_set(bits) && !zero(bits)
}

/// The encoding of the number with the opposite sign.
pub open spec fn negated(bits: u32) -> u32 {
    if sign_set(bits) {
        (bits - 0x8000_0000) as u32
    } else {
        (bits + 0x8000_0000) as u32
    }
}

/// Two encodings stand for the same thing: they are equal, or both are a
/// not-a-number. Arithmetic fixes its result up to this relation and leaves
/// only the sign and payload of a not-a-number open.
pub open spec fn same_number(a: u32, b: u32) -> bool {
    a == b || (nan(a) && nan(b))
}

/// Tells whether `bits` encodes a number rather than an infinity or a
/// not-a-number.
pub fn is_finite(bits: u32) -> (r: bool)
    ensures
        r == finite(bits),
{
    assert((bits >> 23) & 0xff == (bits / 0x80_0000) % 0x100) by (bit_vector);
    (bits >> 23) & 0xff != 0xff
}

/// Tells whether `bits` encodes a not-a-number.
pub fn is_nan(bits: u32) -> (r: bool)
    ensures
        r == nan(bits),
{
    assert((bits & 0x7fff_ffff > 0x7f80_0000) <==> ((bits / 0x80_0000) % 0x100 == 0xff && bits
        % 0x80_0000 != 0)) by (bit_vector);
    bits & 0x7fff_ffff > 0x7f80_0000
}

/// Tells whether `bits` encodes `+0.0` or `-0.0`.
pub fn is_zero(bits: u32) -> (r: bool)
    ensures
        r == zero(bits),
{
    assert((bits & 0x7fff_ffff == 0) <==> ((bits / 0x80_0000) % 0x100 == 0 && bits % 0x80_0000
        == 0)) by (bit_vector);
    bits & 0x7fff_ffff == 0
}

/// Tells whether `bits` encodes a finite number greater than zero.
pub fn is_positive(bits: u32) -> (r: bool)
    ensures
        r == positive(bits),
{
    assert((0 < bits && bits < 0x7f80_0000) <==> ((bits / 0x80_0000) % 0x100 != 0xff && bits
        < 0x8000_0000 && !((bits / 0x80_0000) % 0x100 == 0 && bits % 0x80_0000 == 0)))
        by (bit_vector);
    0 < bits && bits < 0x7f80_0000
}

/// Tells whether `bits` encodes a negative number or `-∞`.
pub fn is_negative(bits: u32) -> (r: bool)
    ensures
        r == negative(bits),
{
    assert((0x8000_0000 < bits && bits <= 0xff80_0000) <==> (!((bits / 0x80_0000) % 0x100
        == 0xff && bits % 0x80_0000 != 0) && bits >= 0x8000_0000 && !((bits / 0x80_0000) % 0x100
        == 0 && bits % 0x80_0000 == 0))) by (bit_vector);
    0x8000_0000 < bits && bits <= 0xff80_0000
}

/// Flipping the sign changes neither the exponent field nor the fraction
/// field, so it keeps a number finite, a zero zero and a not-a-number one;
/// flipping twice gives the encoding back.
pub proof fn lemma_negated(bits: u32)
    ensures
        exponent_field(negated(bits)) == exponent_field(bits),
        fraction_field(negated(bits)) == fraction_field(bits),
        sign_set(negated(bits)) == !sign_set(bits),
        negated(negated(bits)) == bits,
{
    let flipped = bits ^ 0x8000_0000;
    assert(flipped == negated(bits)) by {
        assert(bits >= 0x8000_0000 ==> bits ^ 0x8000_0000 == bits - 0x8000_0000) by (bit_vector);
        assert(bits < 0x8000_0000 ==> bits ^ 0x8000_0000 == bits + 0x8000_0000) by (bit_vector);
    }
    assert(((bits ^ 0x8000_0000) / 0x80_0000) % 0x100 == (bits / 0x80_0000) % 0x100)
        by (bit_vector);
    assert((bits ^ 0x8000_0000) % 0x80_0000 == bits % 0x80_0000) by (bit_vector);
    assert(((bits ^ 0x8000_0000) >= 0x8000_0000) == !(bits >= 0x8000_0000)) by (bit_vector);
    assert((bits ^ 0x8000_0000) ^ 0x8000_0000 == bits) by (bit_vector);
}

} // verus!
