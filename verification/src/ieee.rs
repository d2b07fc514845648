//! Double-precision values held as their IEEE-754 bit patterns.
//!
//! The engine never performs floating-point arithmetic itself: it decides,
//! classifies and bookkeeps. Every double therefore travels through the
//! library as its 64-bit pattern, on which classification (finite, NaN,
//! zero, negative) and sign manipulation are exact integer operations.

use vstd::prelude::*;

use vstd::arithmetic::mul::lemma_mul_strictly_positive;
use vstd::arithmetic::power2::lemma2_to64;
use vstd::arithmetic::power2::lemma2_to64_rest;
use vstd::arithmetic::power2::lemma_pow2_adds;
use vstd::arithmetic::power2::lemma_pow2_pos;
use vstd::arithmetic::power2::pow2;

verus! {

/// Bit pattern of +1.0.
pub const ONE_BITS: u64 = 0x3FF0000000000000;

/// Bit pattern of +0.0.
pub const ZERO_BITS: u64 = 0;

/// A double-precision floating-point value, as its IEEE-754 bit pattern.
#[derive(Clone, Copy, PartialEq, Eq, Structural, Debug)]
pub struct Real {
    pub bits: u64,
}

/// A complex double-precision value: real and imaginary coordinates.
#[derive(Clone, Copy, PartialEq, Eq, Structural, Debug)]
pub struct Complex {
    pub re: Real,
    pub im: Real,
}

/// The 11-bit biased exponent field.
pub open spec fn exponent_field(b: u64) -> u64 {
    (b >> 52) & 0x7ff
}

/// The 52-bit fraction field.
pub open spec fn fraction_field(b: u64) -> u64 {
    b & 0xf_ffff_ffff_ffff
}

/// The sign bit.
pub open spec fn sign_field(b: u64) -> u64 {
    b >> 63
}

/// Finite: the exponent field is not all ones (neither infinite nor NaN).
pub open spec fn is_finite_bits(b: u64) -> bool {
    exponent_field(b) != 0x7ff
}

/// NaN: exponent all ones and a non-zero fraction.
pub open spec fn is_nan_bits(b: u64) -> bool {
    exponent_field(b) == 0x7ff && fraction_field(b) != 0
}

/// Zero of either sign.
pub open spec fn is_zero_bits(b: u64) -> bool {
    b & 0x7fff_ffff_ffff_ffff == 0
}

/// Strictly negative: sign bit set and not a zero. NaN patterns with the
/// sign bit set also satisfy this; callers that care test finiteness first.
pub open spec fn is_negative_bits(b: u64) -> bool {
    sign_field(b) == 1 && !is_zero_bits(b)
}

/// The bit pattern of the absolute value: the sign bit cleared.
pub open spec fn abs_bits(b: u64) -> u64 {
    b & 0x7fff_ffff_ffff_ffff
}

/// The bit pattern of the negated absolute value: the sign bit set.
pub open spec fn neg_abs_bits(b: u64) -> u64 {
    b | 0x8000_0000_0000_0000
}

impl Real {
    /// The value +0.0.
    pub fn zero() -> (r: Real)
        ensures
            r.bits == ZERO_BITS,
    {
        Real { bits: ZERO_BITS }
    }

    /// The value +1.0.
    pub fn one() -> (r: Real)
        ensures
            r.bits == ONE_BITS,
    {
        Real { bits: ONE_BITS }
    }

    pub fn is_finite(&self) -> (r: bool)
        ensures
            r == is_finite_bits(self.bits),
    {
        (self.bits >> 52) & 0x7ff != 0x7ff
    }

    pub fn is_nan(&self) -> (r: bool)
        ensures
            r == is_nan_bits(self.bits),
    {
        (self.bits >> 52) & 0x7ff == 0x7ff && self.bits & 0xf_ffff_ffff_ffff != 0
    }

    pub fn is_zero(&self) -> (r: bool)
        ensures
            r == is_zero_bits(self.bits),
    {
        self.bits & 0x7fff_ffff_ffff_ffff == 0
    }

    pub fn is_negative(&self) -> (r: bool)
        ensures
            r == is_negative_bits(self.bits),
    {
        self.bits >> 63 == 1 && !(self.bits & 0x7fff_ffff_ffff_ffff == 0)
    }

    /// The absolute value: exact on the bit pattern.
    pub fn abs(&self) -> (r: Real)
        ensures
            r.bits == abs_bits(self.bits),
    {
        Real { bits: self.bits & 0x7fff_ffff_ffff_ffff }
    }

    /// The negated absolute value: exact on the bit pattern.
    pub fn neg_abs(&self) -> (r: Real)
        ensures
            r.bits == neg_abs_bits(self.bits),
    {
        Real { bits: self.bits | 0x8000_0000_0000_0000 }
    }
}

/// The magnitude of a bit pattern as an exact integer, in units of the
/// smallest subnormal 2^-1074: the bare fraction for a subnormal pattern,
/// and the fraction with its hidden bit, shifted by the exponent, for a
/// normal one. On finite patterns this is exactly the encoded magnitude;
/// every finite double is an integer multiple of 2^-1074.
pub open spec fn fixed_magnitude(b: u64) -> int {
    if exponent_field(b) == 0 {
        fraction_field(b) as int
    } else {
        (fraction_field(b) + 0x10_0000_0000_0000) * (pow2((exponent_field(b) - 1) as nat) as int)
    }
}

/// The exact real value of a finite bit pattern, in units of 2^-1074.
pub open spec fn fixed_value(b: u64) -> int {
    if sign_field(b) == 1 {
        -fixed_magnitude(b)
    } else {
        fixed_magnitude(b)
    }
}

/// The magnitude is never negative, and vanishes exactly when both the
/// exponent and the fraction field do.
pub proof fn lemma_fixed_magnitude_zero(b: u64)
    ensures
        fixed_magnitude(b) >= 0,
        fixed_magnitude(b) == 0 <==> (exponent_field(b) == 0 && fraction_field(b) == 0),
{
    if exponent_field(b) != 0 {
        let m = fraction_field(b) + 0x10_0000_0000_0000;
        let p = pow2((exponent_field(b) - 1) as nat) as int;
        lemma_pow2_pos((exponent_field(b) - 1) as nat);
        lemma_mul_strictly_positive(m as int, p);
    }
}

/// Law: a pattern is a zero exactly when its value in the exact model is
/// zero.
pub proof fn lemma_zero_iff_value_zero(b: u64)
    ensures
        is_zero_bits(b) <==> fixed_value(b) == 0,
{
    assert((b & 0x7fff_ffff_ffff_ffff == 0) <==> ((b >> 52) & 0x7ff == 0 && b
        & 0xf_ffff_ffff_ffff == 0)) by (bit_vector);
    lemma_fixed_magnitude_zero(b);
}

/// Law: a pattern is negative exactly when its value in the exact model is
/// negative.
pub proof fn lemma_negative_iff_value_negative(b: u64)
    ensures
        is_negative_bits(b) <==> fixed_value(b) < 0,
{
    assert((b & 0x7fff_ffff_ffff_ffff == 0) <==> ((b >> 52) & 0x7ff == 0 && b
        & 0xf_ffff_ffff_ffff == 0)) by (bit_vector);
    assert(b >> 63 == 0 || b >> 63 == 1) by (bit_vector);
    lemma_fixed_magnitude_zero(b);
}

/// Law: clearing the sign bit takes the value to its absolute value, and
/// setting it to the negated absolute value.
pub proof fn lemma_sign_ops_value(b: u64)
    ensures
        fixed_value(abs_bits(b)) == vstd::math::abs(fixed_value(b)),
        fixed_value(neg_abs_bits(b)) == -vstd::math::abs(fixed_value(b)),
{
    assert(((b & 0x7fff_ffff_ffff_ffff) >> 52) & 0x7ff == (b >> 52) & 0x7ff) by (bit_vector);
    assert((b & 0x7fff_ffff_ffff_ffff) & 0xf_ffff_ffff_ffff == b & 0xf_ffff_ffff_ffff)
        by (bit_vector);
    assert((b & 0x7fff_ffff_ffff_ffff) >> 63 == 0) by (bit_vector);
    assert(((b | 0x8000_0000_0000_0000) >> 52) & 0x7ff == (b >> 52) & 0x7ff) by (bit_vector);
    assert((b | 0x8000_0000_0000_0000) & 0xf_ffff_ffff_ffff == b & 0xf_ffff_ffff_ffff)
        by (bit_vector);
    assert((b | 0x8000_0000_0000_0000) >> 63 == 1) by (bit_vector);
    lemma_fixed_magnitude_zero(b);
}

/// Law: the unit pattern has the exact value one: 2^1074 in units of the
/// smallest subnormal.
pub proof fn lemma_one_value()
    ensures
        fixed_value(ONE_BITS) == pow2(1074),
{
    assert((0x3FF0000000000000u64 >> 52) & 0x7ff == 0x3ff) by (bit_vector);
    assert(0x3FF0000000000000u64 & 0xf_ffff_ffff_ffff == 0) by (bit_vector);
    assert(0x3FF0000000000000u64 >> 63 == 0) by (bit_vector);
    lemma2_to64();
    lemma2_to64_rest();
    lemma_pow2_adds(52, 1022);
    assert(exponent_field(ONE_BITS) == 0x3ff);
    assert(fraction_field(ONE_BITS) == 0);
    assert(sign_field(ONE_BITS) == 0);
    assert(fixed_magnitude(ONE_BITS) == 0x10_0000_0000_0000 * (pow2(1022) as int));
    assert(pow2(52) == 0x10_0000_0000_0000);
    assert(pow2(1074) == pow2(52) * pow2(1022));
}

/// Clearing or setting the sign bit never changes the exponent field, so
/// the absolute value and the negated absolute value of a finite pattern
/// stay finite, and of a non-finite one stay non-finite.
pub proof fn lemma_sign_ops_preserve_finiteness(b: u64)
    ensures
        is_finite_bits(abs_bits(b)) == is_finite_bits(b),
        is_finite_bits(neg_abs_bits(b)) == is_finite_bits(b),
{
    assert(((b & 0x7fff_ffff_ffff_ffff) >> 52) & 0x7ff == (b >> 52) & 0x7ff) by (bit_vector);
    assert(((b | 0x8000_0000_0000_0000) >> 52) & 0x7ff == (b >> 52) & 0x7ff) by (bit_vector);
}

/// Both coordinates are finite.
pub open spec fn complex_is_finite(z: Complex) -> bool {
    is_finite_bits(z.re.bits) && is_finite_bits(z.im.bits)
}

/// Both coordinates are zero (of either sign).
pub open spec fn complex_is_zero(z: Complex) -> bool {
    is_zero_bits(z.re.bits) && is_zero_bits(z.im.bits)
}

impl Complex {
    pub fn new(re: Real, im: Real) -> (z: Complex)
        ensures
            z == (Complex { re, im }),
    {
        Complex { re, im }
    }

    /// The value 0 + 0i.
    pub fn zero() -> (z: Complex)
        ensures
            z.re.bits == ZERO_BITS && z.im.bits == ZERO_BITS,
    {
        Complex { re: Real { bits: ZERO_BITS }, im: Real { bits: ZERO_BITS } }
    }

    /// The value 1 + 0i.
    pub fn one() -> (z: Complex)
        ensures
            z.re.bits == ONE_BITS && z.im.bits == ZERO_BITS,
    {
        Complex { re: Real { bits: ONE_BITS }, im: Real { bits: ZERO_BITS } }
    }

    pub fn is_finite(&self) -> (r: bool)
        ensures
            r == complex_is_finite(*self),
    {
        self.re.is_finite() && self.im.is_finite()
    }

    pub fn is_zero(&self) -> (r: bool)
        ensures
            r == complex_is_zero(*self),
    {
        self.re.is_zero() && self.im.is_zero()
    }
}

} // verus!
