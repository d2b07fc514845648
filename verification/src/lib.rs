//! Decision, bookkeeping and validation core of a complex Bessel and Airy
//! function engine.
//!
//! The engine evaluates the Bessel functions J, Y, I, K of a complex
//! argument and a real order, and the Airy functions Ai and Bi, with an
//! optional exponential scaling that keeps magnitudes representable. The
//! floating-point kernel that sums series lives outside this crate; what is
//! verified here is everything around it: request validation, the closed
//! forms at the origin, the family-specific scale-factor selection, and the
//! assembly of raw kernel output into a result with overflow detection and
//! underflow bookkeeping. Doubles travel through the library as their
//! IEEE-754 bit patterns, on which all of those decisions are exact.

mod airy;
mod bessel;
mod error;
mod ieee;
mod scale;

pub use airy::AI_DERIV_ORIGIN_BITS;
pub use airy::AI_ORIGIN_BITS;
pub use airy::AiryKind;
pub use airy::AiryPlan;
pub use airy::BI_DERIV_ORIGIN_BITS;
pub use airy::BI_ORIGIN_BITS;
pub use airy::airy_origin_value;
pub use airy::airy_params_ok;
pub use airy::airy_scale_exponent;
pub use airy::assemble_airy;
pub use airy::derivative_ok;
pub use airy::lemma_airy_scale_exponent_value;
pub use airy::prepare_airy;
pub use airy::spec_airy_scale_exponent;

pub use bessel::BesselPlan;
pub use bessel::BesselResult;
pub use bessel::Family;
pub use bessel::MAX_BATCH;
pub use bessel::argument_ok;
pub use bessel::assemble_bessel;
pub use bessel::bessel_params_ok;
pub use bessel::count_ok;
pub use bessel::entry_zero;
pub use bessel::lemma_entry_zero_value;
pub use bessel::lemma_origin_entry_value;
pub use bessel::lemma_order_ok_value;
pub use bessel::lemma_zero_count_push;
pub use bessel::order_ok;
pub use bessel::origin_entry;
pub use bessel::origin_ok;
pub use bessel::prepare_bessel;
pub use bessel::scaling_ok;
pub use bessel::zero_count;

pub use error::BesselError;
pub use error::spec_message;

pub use ieee::Complex;
pub use ieee::ONE_BITS;
pub use ieee::Real;
pub use ieee::ZERO_BITS;
pub use ieee::abs_bits;
pub use ieee::complex_is_finite;
pub use ieee::complex_is_zero;
pub use ieee::exponent_field;
pub use ieee::fraction_field;
pub use ieee::is_finite_bits;
pub use ieee::is_nan_bits;
pub use ieee::is_negative_bits;
pub use ieee::is_zero_bits;
pub use ieee::fixed_magnitude;
pub use ieee::fixed_value;
pub use ieee::lemma_fixed_magnitude_zero;
pub use ieee::lemma_negative_iff_value_negative;
pub use ieee::lemma_one_value;
pub use ieee::lemma_sign_ops_preserve_finiteness;
pub use ieee::lemma_sign_ops_value;
pub use ieee::lemma_zero_iff_value_zero;
pub use ieee::neg_abs_bits;
pub use ieee::sign_field;

pub use scale::lemma_scale_exponent_finite;
pub use scale::lemma_scale_exponent_value;
pub use scale::scale_exponent;
pub use scale::spec_scale_exponent;
