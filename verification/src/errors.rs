//! The error taxonomy of the engine.
//!
//! Every rejection carries a distinct, stable code so that a caller can tell
//! "too early" from "too late", "already settled" and "value too low" instead
//! of receiving one generic failure.

use vstd::prelude::*;

verus! {

/// Why an invocation of the engine was rejected.
#[derive(Clone, Copy, Debug, PartialEq, Eq, Structural)]
pub enum CustodyError {
    /// The host time signal could not be fetched.
    OracleUnavailable,
    /// Two time readings of different variants met in one decision.
    SignalMismatch,
    /// Persisted account bytes do not decode to the expected layout.
    CorruptRecord,
    /// The instruction payload does not decode to a known action.
    InvalidInstruction,
    /// A balance update would overflow or underflow.
    ArithmeticFault,
    /// The gating time has not been reached yet.
    TooEarly,
    /// The gating time is already past.
    TooLate,
    /// The record was settled before; no further transfer applies.
    AlreadySettled,
    /// A proposed value does not improve on the current custody amount.
    ValueTooLow,
    /// The record expired without settlement; only reclaiming remains legal.
    Expired,
}

impl CustodyError {
    /// True for the ordinary policy rejections (the record and the request
    /// are well formed, but the transition is not currently legal).
    pub open spec fn spec_is_policy_violation(self) -> bool {
        match self {
            CustodyError::TooEarly => true,
            CustodyError::TooLate => true,
            CustodyError::AlreadySettled => true,
            CustodyError::ValueTooLow => true,
            CustodyError::Expired => true,
            _ => false,
        }
    }

    /// Executable twin of [`Self::spec_is_policy_violation`].
    pub fn is_policy_violation(&self) -> (r: bool)
        ensures
            r == self.spec_is_policy_violation(),
    {
        match self {
            CustodyError::TooEarly => true,
            CustodyError::TooLate => true,
            CustodyError::AlreadySettled => true,
            CustodyError::ValueTooLow => true,
            CustodyError::Expired => true,
            _ => false,
        }
    }

    /// The stable numeric code of this rejection; distinct per variant.
    pub fn code(&self) -> (c: u32)
        ensures
            c == self.spec_code(),
    {
        match self {
            CustodyError::OracleUnavailable => 1,
            CustodyError::SignalMismatch => 2,
            CustodyError::CorruptRecord => 3,
            CustodyError::InvalidInstruction => 4,
            CustodyError::ArithmeticFault => 5,
            CustodyError::TooEarly => 6,
            CustodyError::TooLate => 7,
            CustodyError::AlreadySettled => 8,
            CustodyError::ValueTooLow => 9,
            CustodyError::Expired => 10,
        }
    }

    /// The diagnostic line each variant carries.
    pub open spec fn spec_describe(self) -> Seq<char> {
        match self {
            CustodyError::OracleUnavailable => "the host time signal could not be fetched"@,
            CustodyError::SignalMismatch => "time readings of different signals were mixed"@,
            CustodyError::CorruptRecord => "the stored account bytes do not decode"@,
            CustodyError::InvalidInstruction => "the instruction payload does not decode"@,
            CustodyError::ArithmeticFault => "a balance update would overflow or underflow"@,
            CustodyError::TooEarly => "the gating time has not been reached yet"@,
            CustodyError::TooLate => "the gating time is already past"@,
            CustodyError::AlreadySettled => "the record was settled before"@,
            CustodyError::ValueTooLow => "the proposed value does not improve custody"@,
            CustodyError::Expired => "the record expired without settlement"@,
        }
    }

    /// A short human-readable diagnostic for this rejection. Informational
    /// only; the stable code is authoritative.
    pub fn describe(&self) -> (s: String)
        ensures
            s@ == self.spec_describe(),
    {
        match self {
            CustodyError::OracleUnavailable => "the host time signal could not be fetched".to_owned(),
            CustodyError::SignalMismatch => "time readings of different signals were mixed".to_owned(),
            CustodyError::CorruptRecord => "the stored account bytes do not decode".to_owned(),
            CustodyError::InvalidInstruction => "the instruction payload does not decode".to_owned(),
            CustodyError::ArithmeticFault => "a balance update would overflow or underflow".to_owned(),
            CustodyError::TooEarly => "the gating time has not been reached yet".to_owned(),
            CustodyError::TooLate => "the gating time is already past".to_owned(),
            CustodyError::AlreadySettled => "the record was settled before".to_owned(),
            CustodyError::ValueTooLow => "the proposed value does not improve custody".to_owned(),
            CustodyError::Expired => "the record expired without settlement".to_owned(),
        }
    }

    /// The code each variant maps to.
    pub open spec fn spec_code(self) -> u32 {
        match self {
            CustodyError::OracleUnavailable => 1,
            CustodyError::SignalMismatch => 2,
            CustodyError::CorruptRecord => 3,
            CustodyError::InvalidInstruction => 4,
            CustodyError::ArithmeticFault => 5,
            CustodyError::TooEarly => 6,
            CustodyError::TooLate => 7,
            CustodyError::AlreadySettled => 8,
            CustodyError::ValueTooLow => 9,
            CustodyError::Expired => 10,
        }
    }
}

} // verus!
