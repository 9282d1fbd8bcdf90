//! Error taxonomy of the decoder.
//!
//! Every fatal condition of the protocol is represented as a variant here;
//! the driver that owns the process decides what to do with one (the
//! protocol convention is to terminate with a distinguished exit status).

use vstd::prelude::*;

verus! {

/// Which structural invariant of a completed record failed, in the order the
/// cross-field validator checks them.
#[derive(Debug, PartialEq, Eq, Structural, Clone, Copy)]
pub enum InvariantKind {
    /// Event-log severity, message and date sequences differ in length.
    EventLogLengths,
    /// The three voltage phase sequences differ in length.
    VoltagePhases,
    /// The three current phase sequences differ in length.
    CurrentPhases,
    /// The three power phase sequences differ in length.
    PowerPhases,
    /// Voltage, current and power phase-1 sequences differ in length.
    ElectricityAlignment,
    /// Energy consumption and production sequences differ in length.
    EnergyLengths,
    /// The root record holds no date entry.
    NoDates,
    /// Information type declares water data but the water channel is empty.
    InfoWaterMissing,
    /// Information type declares electricity data but the channel is empty.
    InfoElectricityMissing,
    /// Information type declares gas data but the gas channel is empty.
    InfoGasMissing,
}

/// A fatal decode error. The `String` payloads carry the offending token.
#[derive(Debug, PartialEq, Eq)]
pub enum DecodeError {
    /// The two version digits are neither of the supported codes.
    Version(String),
    /// An id token matched no classification rule.
    Classification(String),
    /// A unit-suffixed payload failed to parse as a number.
    NumericParse(String),
    /// A date string does not follow the fixed date grammar.
    DateParse(String),
    /// A gas consumption reading arrived before any gas model code
    /// in the same nesting context.
    MissingGasModel(String),
    /// The most recent gas model code names no known scale factor.
    UnknownGasModel(String),
    /// A structural invariant of the completed record failed.
    Invariant(InvariantKind),
}

/// Mathematical model of a `DecodeError`: the same variants over `Seq<char>`.
pub enum ErrorModel {
    Version(Seq<char>),
    Classification(Seq<char>),
    NumericParse(Seq<char>),
    DateParse(Seq<char>),
    MissingGasModel(Seq<char>),
    UnknownGasModel(Seq<char>),
    Invariant(InvariantKind),
}

impl View for DecodeError {
    type V = ErrorModel;

    open spec fn view(&self) -> ErrorModel {
        match self {
            DecodeError::Version(s) => ErrorModel::Version(s@),
            DecodeError::Classification(s) => ErrorModel::Classification(s@),
            DecodeError::NumericParse(s) => ErrorModel::NumericParse(s@),
            DecodeError::DateParse(s) => ErrorModel::DateParse(s@),
            DecodeError::MissingGasModel(s) => ErrorModel::MissingGasModel(s@),
            DecodeError::UnknownGasModel(s) => ErrorModel::UnknownGasModel(s@),
            DecodeError::Invariant(k) => ErrorModel::Invariant(*k),
        }
    }
}

/// Lifts a result whose success value needs no modelling to one whose error
/// is the error's model.
pub open spec fn res_view<T>(r: Result<T, DecodeError>) -> Result<T, ErrorModel> {
    match r {
        Ok(t) => Ok(t),
        Err(e) => Err(e@),
    }
}

impl DecodeError {
    /// A short human-readable description, for diagnostics at the outermost
    /// driver. The offending token is carried by the variant, not
    /// interpolated here.
    pub fn describe(&self) -> (r: &'static str)
        ensures
            r@ == match self {
                DecodeError::Version(_) => "unsupported telegram version"@,
                DecodeError::Classification(_) => "authentication failed: unrecognized id token"@,
                DecodeError::NumericParse(_) => "failed to parse numeric payload"@,
                DecodeError::DateParse(_) => "failed to parse date and time"@,
                DecodeError::MissingGasModel(_) => "gas consumption without a preceding gas model"@,
                DecodeError::UnknownGasModel(_) => "unknown gas model code"@,
                DecodeError::Invariant(_) => "record invariant violated"@,
            },
    {
        match self {
            DecodeError::Version(_) => "unsupported telegram version",
            DecodeError::Classification(_) => "authentication failed: unrecognized id token",
            DecodeError::NumericParse(_) => "failed to parse numeric payload",
            DecodeError::DateParse(_) => "failed to parse date and time",
            DecodeError::MissingGasModel(_) => "gas consumption without a preceding gas model",
            DecodeError::UnknownGasModel(_) => "unknown gas model code",
            DecodeError::Invariant(_) => "record invariant violated",
        }
    }
}

} // verus!
