//! The failure taxonomy of the engine.
//!
//! Every failure is returned as a value, never raised: an invalid request
//! is refused before any evaluation runs, and a result that left the
//! representable range is reported as a computation failure.

use vstd::prelude::*;

verus! {

/// Why a request failed.
#[derive(Debug, Clone)]
pub enum BesselError {
    /// The request itself is malformed: a zero count, a non-finite or
    /// negative order, a non-finite argument, an unknown scaling or
    /// derivative selector, or an argument at a singular point.
    InvalidParameter(String),
    /// The evaluation produced a value outside the representable range.
    ComputationError(String),
}

/// The text carried by either variant.
pub open spec fn spec_message(e: BesselError) -> Seq<char> {
    match e {
        BesselError::InvalidParameter(m) => m@,
        BesselError::ComputationError(m) => m@,
    }
}

impl BesselError {
    /// Human-readable description of the failure.
    pub fn message(&self) -> (m: &String)
        ensures
            m@ == spec_message(*self),
    {
        match self {
            BesselError::InvalidParameter(m) => m,
            BesselError::ComputationError(m) => m,
        }
    }

    /// Whether the failure was detected before any evaluation ran.
    pub fn is_invalid_parameter(&self) -> (r: bool)
        ensures
            r == (self is InvalidParameter),
    {
        match self {
            BesselError::InvalidParameter(_) => true,
            BesselError::ComputationError(_) => false,
        }
    }
}

} // verus!
