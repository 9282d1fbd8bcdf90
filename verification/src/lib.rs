//! Verified decoder for a line-oriented smart-meter telegram protocol.
//!
//! The library decodes telegram text into a validated, unit-normalized
//! measurement record: version and extension dispatch, key classification,
//! nested child-telegram tracking, gas-consumption normalization,
//! hex-encoded log-message decoding, date parsing, cross-field validation,
//! and delta/windowing transforms for charting.
//!
//! Fractional readings are held as exact fixed-point integers in millionths
//! of a unit, so that scaling and differencing are verified exactly.

pub mod date;
pub mod decode;
pub mod error;
pub mod hexmsg;
pub mod keys;
pub mod numbers;
pub mod record;
pub mod split;
pub mod text;
pub mod transforms;
pub mod validate;
