//! Airy requests: validation, the branch-point closed forms, and assembly.
//!
//! Ai and Bi (and their first derivatives) are evaluated through the
//! modified Bessel functions of the transformed argument
//! zeta = (2/3) z^(3/2), a mapping that is singular at the origin. At the
//! origin the engine therefore answers in closed form with the classical
//! branch-point values; everywhere else the kernel runs. Scaling multiplies
//! Ai by exp(zeta) and Bi by exp(-|Re zeta|); at the origin zeta is zero
//! and both factors are exactly one, so the closed forms hold in either
//! mode.

use vstd::prelude::*;

use crate::error::BesselError;
use crate::ieee::Complex;
use crate::ieee::Real;
use crate::ieee::ZERO_BITS;
use crate::ieee::complex_is_finite;
use crate::ieee::complex_is_zero;
use crate::ieee::neg_abs_bits;

verus! {

/// Bit pattern of Ai(0) = 1 / (3^(2/3) Gamma(2/3)).
pub const AI_ORIGIN_BITS: u64 = 0x3FD6B8C7962715B8;

/// Bit pattern of Ai'(0) = -1 / (3^(1/3) Gamma(1/3)).
pub const AI_DERIV_ORIGIN_BITS: u64 = 0xBFD0907F42B70F8B;

/// Bit pattern of Bi(0) = 1 / (3^(1/6) Gamma(2/3)).
pub const BI_ORIGIN_BITS: u64 = 0x3FE3AD7A9B4A3EA9;

/// Bit pattern of Bi'(0) = 3^(1/6) / Gamma(1/3).
pub const BI_DERIV_ORIGIN_BITS: u64 = 0x3FDCB0C1A680C8A1;

/// The two Airy functions.
#[derive(Clone, Copy, PartialEq, Eq, Structural, Debug)]
pub enum AiryKind {
    Ai,
    Bi,
}

/// What the caller must do to answer an Airy request.
#[derive(Debug)]
pub enum AiryPlan {
    /// The request is answered in closed form; no kernel run is needed.
    Done(Complex),
    /// Evaluate the function (or its first derivative) at the argument
    /// with the kernel, multiply by the scale factor if `scaled`, then
    /// assemble the single value.
    Evaluate { derivative: bool, scaled: bool },
}

/// The derivative selector: 0 is the function, 1 its first derivative.
pub open spec fn derivative_ok(id: i32) -> bool {
    id == 0 || id == 1
}

/// A well-formed Airy request: a finite argument and known selectors.
pub open spec fn airy_params_ok(z: Complex, id: i32, kode: i32) -> bool {
    &&& complex_is_finite(z)
    &&& derivative_ok(id)
    &&& crate::bessel::scaling_ok(kode)
}

/// The branch-point value at the origin for a kind and derivative choice.
pub open spec fn airy_origin_value(kind: AiryKind, id: i32) -> Complex {
    Complex {
        re: Real {
            bits: match kind {
                AiryKind::Ai => if id == 0 {
                    AI_ORIGIN_BITS
                } else {
                    AI_DERIV_ORIGIN_BITS
                },
                AiryKind::Bi => if id == 0 {
                    BI_ORIGIN_BITS
                } else {
                    BI_DERIV_ORIGIN_BITS
                },
            },
        },
        im: Real { bits: ZERO_BITS },
    }
}

/// Validate an Airy request and decide how it is answered.
///
/// A malformed request is refused before any evaluation runs: a non-finite
/// argument, or an unknown derivative or scaling selector. At the origin
/// the transformed argument vanishes and the connection through the
/// modified Bessel functions is singular, so the request is answered with
/// the exact branch-point value (the scale factor there is exactly one);
/// everywhere else the caller is told to run the kernel.
pub fn prepare_airy(kind: AiryKind, z: Complex, id: i32, kode: i32) -> (r: Result<
    AiryPlan,
    BesselError,
>)
    ensures
        r is Err <==> !airy_params_ok(z, id, kode),
        r matches Err(e) ==> e is InvalidParameter,
        airy_params_ok(z, id, kode) && complex_is_zero(z) ==> r == Ok::<AiryPlan, BesselError>(
            AiryPlan::Done(airy_origin_value(kind, id)),
        ),
        airy_params_ok(z, id, kode) && !complex_is_zero(z) ==> r == Ok::<AiryPlan, BesselError>(
            AiryPlan::Evaluate { derivative: id == 1, scaled: kode == 2 },
        ),
{
    if !z.is_finite() {
        return Err(BesselError::InvalidParameter("z must be finite".to_string()));
    }
    if id != 0 && id != 1 {
        return Err(BesselError::InvalidParameter("id must be 0 or 1".to_string()));
    }
    if kode != 1 && kode != 2 {
        return Err(BesselError::InvalidParameter("kode must be 1 or 2".to_string()));
    }
    if z.is_zero() {
        let bits: u64 = match kind {
            AiryKind::Ai => if id == 0 {
                AI_ORIGIN_BITS
            } else {
                AI_DERIV_ORIGIN_BITS
            },
            AiryKind::Bi => if id == 0 {
                BI_ORIGIN_BITS
            } else {
                BI_DERIV_ORIGIN_BITS
            },
        };
        return Ok(AiryPlan::Done(Complex { re: Real { bits }, im: Real { bits: ZERO_BITS } }));
    }
    Ok(AiryPlan::Evaluate { derivative: id == 1, scaled: kode == 2 })
}

/// The exponent of the Airy scale factor, from the transformed argument:
/// Ai scales by exp(zeta), Bi by exp(-|Re zeta|).
pub open spec fn spec_airy_scale_exponent(kind: AiryKind, zeta: Complex) -> Complex {
    match kind {
        AiryKind::Ai => zeta,
        AiryKind::Bi => Complex {
            re: Real { bits: neg_abs_bits(zeta.re.bits) },
            im: Real { bits: ZERO_BITS },
        },
    }
}

/// The exponent of the scale factor for an Airy kind, from zeta.
pub fn airy_scale_exponent(kind: AiryKind, zeta: Complex) -> (a: Complex)
    ensures
        a == spec_airy_scale_exponent(kind, zeta),
{
    match kind {
        AiryKind::Ai => zeta,
        AiryKind::Bi => Complex { re: zeta.re.neg_abs(), im: Real { bits: ZERO_BITS } },
    }
}

/// Law: in the exact integer model of the bit patterns, the scale exponent
/// for Ai is zeta itself and for Bi it is -|Re zeta|, purely real.
pub proof fn lemma_airy_scale_exponent_value(kind: AiryKind, zeta: Complex)
    ensures
        ({
            let a = spec_airy_scale_exponent(kind, zeta);
            match kind {
                AiryKind::Ai => a == zeta,
                AiryKind::Bi => crate::ieee::fixed_value(a.re.bits) == -vstd::math::abs(
                    crate::ieee::fixed_value(zeta.re.bits),
                ) && crate::ieee::fixed_value(a.im.bits) == 0,
            }
        }),
{
    crate::ieee::lemma_sign_ops_value(zeta.re.bits);
    assert((0u64 & 0x7fff_ffff_ffff_ffff) == 0) by (bit_vector);
    crate::ieee::lemma_zero_iff_value_zero(ZERO_BITS);
}

/// Assemble the kernel's single Airy value from its raw coordinates.
///
/// A value outside the representable range means the call failed; there is
/// no underflow bookkeeping for Airy requests.
pub fn assemble_airy(re: u64, im: u64) -> (r: Result<Complex, BesselError>)
    ensures
        r is Ok <==> crate::ieee::is_finite_bits(re) && crate::ieee::is_finite_bits(im),
        r matches Ok(c) ==> c == (Complex { re: Real { bits: re }, im: Real { bits: im } }),
        r matches Err(e) ==> e is ComputationError,
{
    let c = Complex { re: Real { bits: re }, im: Real { bits: im } };
    if !c.is_finite() {
        return Err(
            BesselError::ComputationError("a result left the representable range".to_string()),
        );
    }
    Ok(c)
}

} // verus!
