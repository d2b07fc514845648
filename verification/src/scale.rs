//! Selection of the exponential scale factor per function family.
//!
//! In scaled mode every returned value is the exact value multiplied by a
//! family-specific decaying exponential, so that magnitudes stay
//! representable: exp(-|Im z|) for J and Y, exp(-|Re z|) for I, exp(z) for
//! K, exp(zeta) for Ai and exp(-|Re zeta|) for Bi, with zeta the Airy
//! transform of the argument. The factor is determined by the family and
//! the argument alone; it is never a tunable. What is exact, and therefore
//! verified here, is the selection of the exponent: the exponential itself
//! is floating-point work for the kernel's side.

use vstd::prelude::*;

use crate::bessel::Family;
use crate::ieee::Complex;
use crate::ieee::Real;
use crate::ieee::ZERO_BITS;
use crate::ieee::neg_abs_bits;

verus! {

/// The exponent of the scale factor of a Bessel family: the scaled value
/// is the exact value times exp of this complex number.
pub open spec fn spec_scale_exponent(family: Family, z: Complex) -> Complex {
    match family {
        Family::J | Family::Y => Complex {
            re: Real { bits: neg_abs_bits(z.im.bits) },
            im: Real { bits: ZERO_BITS },
        },
        Family::I => Complex {
            re: Real { bits: neg_abs_bits(z.re.bits) },
            im: Real { bits: ZERO_BITS },
        },
        Family::K => z,
    }
}

/// The exponent of the scale factor for a family at an argument.
///
/// J and Y scale by exp(-|Im z|) and I by exp(-|Re z|), both real; K
/// decays like exp(-z), so its scaled value carries the full complex
/// factor exp(z). The negated absolute values are exact sign-bit
/// operations.
pub fn scale_exponent(family: Family, z: Complex) -> (a: Complex)
    ensures
        a == spec_scale_exponent(family, z),
{
    match family {
        Family::J | Family::Y => Complex { re: z.im.neg_abs(), im: Real { bits: ZERO_BITS } },
        Family::I => Complex { re: z.re.neg_abs(), im: Real { bits: ZERO_BITS } },
        Family::K => z,
    }
}

/// Law: for a finite argument the scale exponent is finite in every
/// family, so scaling never asks the kernel to exponentiate a non-finite
/// number.
pub proof fn lemma_scale_exponent_finite(family: Family, z: Complex)
    requires
        crate::ieee::complex_is_finite(z),
    ensures
        crate::ieee::complex_is_finite(spec_scale_exponent(family, z)),
{
    crate::ieee::lemma_sign_ops_preserve_finiteness(z.im.bits);
    crate::ieee::lemma_sign_ops_preserve_finiteness(z.re.bits);
    assert((0u64 >> 52) & 0x7ff != 0x7ff) by (bit_vector);
    assert(crate::ieee::is_finite_bits(ZERO_BITS));
}

/// Law: in the exact integer model of the bit patterns, the selected
/// exponent is -|Im z| for J and Y and -|Re z| for I, in both cases purely
/// real, and z itself for K.
pub proof fn lemma_scale_exponent_value(family: Family, z: Complex)
    ensures
        ({
            let a = spec_scale_exponent(family, z);
            match family {
                Family::J | Family::Y => crate::ieee::fixed_value(a.re.bits)
                    == -vstd::math::abs(crate::ieee::fixed_value(z.im.bits))
                    && crate::ieee::fixed_value(a.im.bits) == 0,
                Family::I => crate::ieee::fixed_value(a.re.bits) == -vstd::math::abs(
                    crate::ieee::fixed_value(z.re.bits),
                ) && crate::ieee::fixed_value(a.im.bits) == 0,
                Family::K => a == z,
            }
        }),
{
    crate::ieee::lemma_sign_ops_value(z.im.bits);
    crate::ieee::lemma_sign_ops_value(z.re.bits);
    assert((0u64 & 0x7fff_ffff_ffff_ffff) == 0) by (bit_vector);
    crate::ieee::lemma_zero_iff_value_zero(ZERO_BITS);
}

} // verus!
