//! Protocol versions, extensions, and the key classifier.
//!
//! The classifier maps an id token to a semantic key. Terminal start/end
//! markers are version-dependent: the older version uses two-level ids,
//! the newer one child-aware three-level ids. The event-log families match
//! by prefix because they repeat with a running counter; everything else
//! matches exactly. An id matching no rule is a fatal classification error.

use vstd::prelude::*;
use crate::error::DecodeError;
use crate::error::ErrorModel;
use crate::error::res_view;
use crate::text::chars_eq_str;
use crate::text::chars_starts_with_str;
use crate::text::chars_to_string;
use crate::text::spec_starts_with;
use crate::text::str_to_chars;

verus! {

/// Protocol versions, read from the two digits at character positions 2
/// and 3 of the telegram text.
#[derive(Debug, PartialEq, Eq, Structural, Clone, Copy)]
pub enum Versions {
    V10,
    V12,
}

/// Optional sub-protocols a telegram may carry, read from the extension
/// code at character positions 6 and 7.
#[derive(Debug, PartialEq, Eq, Structural, Clone, Copy)]
pub enum Extensions {
    Gas,
    Recursive,
    GasRecursive,
}

/// One of the three child-telegram slots.
#[derive(Debug, PartialEq, Eq, Structural, Clone, Copy)]
pub enum ChildSlot {
    Slot1,
    Slot2,
    Slot3,
}

/// The semantic keys an id token can classify to.
#[derive(Debug, PartialEq, Eq, Structural, Clone, Copy)]
pub enum Keys {
    Start,
    Date,
    End,
    EventLogSeverity,
    EventLogMessage,
    EventLogDate,
    InformationType,
    GasModel,
    GasConsumption,
    WaterConsumption,
    VoltageP1,
    VoltageP2,
    VoltageP3,
    CurrentP1,
    CurrentP2,
    CurrentP3,
    PowerP1,
    PowerP2,
    PowerP3,
    EnergyConsumption,
    EnergyProduction,
    LineBreak,
    ChildStart(ChildSlot),
    ChildEnd(ChildSlot),
}

/// Classification of the two version digits.
pub open spec fn spec_telegram_ver(s: Seq<char>) -> Option<Versions> {
    if s == "10"@ {
        Some(Versions::V10)
    } else if s == "12"@ {
        Some(Versions::V12)
    } else {
        None
    }
}

/// Classification of the two extension characters.
pub open spec fn spec_version_ext(s: Seq<char>) -> Option<Extensions> {
    if s == "g\r"@ {
        Some(Extensions::Gas)
    } else if s == "r\r"@ {
        Some(Extensions::Recursive)
    } else if s == "gr"@ {
        Some(Extensions::GasRecursive)
    } else {
        None
    }
}

/// Version-aware classification of an id token. The rules are evaluated
/// in order: exact terminal markers, event-log prefixes, exact leaf ids,
/// the line-break sentinel, child start and end markers.
pub open spec fn spec_classify(id: Seq<char>, v: Versions) -> Option<Keys> {
    if v == Versions::V10 && id == "1.1"@ {
        Some(Keys::Start)
    } else if v == Versions::V12 && id == "1.1.0"@ {
        Some(Keys::Start)
    } else if id == "2.1"@ {
        Some(Keys::Date)
    } else if v == Versions::V10 && id == "1.2"@ {
        Some(Keys::End)
    } else if v == Versions::V12 && id == "1.2.0"@ {
        Some(Keys::End)
    } else if spec_starts_with(id, "3.1."@) {
        Some(Keys::EventLogSeverity)
    } else if spec_starts_with(id, "3.2."@) {
        Some(Keys::EventLogMessage)
    } else if spec_starts_with(id, "3.3."@) {
        Some(Keys::EventLogDate)
    } else if id == "4.1"@ {
        Some(Keys::InformationType)
    } else if id == "5.1"@ {
        Some(Keys::GasModel)
    } else if id == "5.2"@ {
        Some(Keys::GasConsumption)
    } else if id == "6.1"@ {
        Some(Keys::WaterConsumption)
    } else if id == "7.1.1"@ {
        Some(Keys::VoltageP1)
    } else if id == "7.1.2"@ {
        Some(Keys::VoltageP2)
    } else if id == "7.1.3"@ {
        Some(Keys::VoltageP3)
    } else if id == "7.2.1"@ {
        Some(Keys::CurrentP1)
    } else if id == "7.2.2"@ {
        Some(Keys::CurrentP2)
    } else if id == "7.2.3"@ {
        Some(Keys::CurrentP3)
    } else if id == "7.3.1"@ {
        Some(Keys::PowerP1)
    } else if id == "7.3.2"@ {
        Some(Keys::PowerP2)
    } else if id == "7.3.3"@ {
        Some(Keys::PowerP3)
    } else if id == "7.4.1"@ {
        Some(Keys::EnergyConsumption)
    } else if id == "7.4.2"@ {
        Some(Keys::EnergyProduction)
    } else if id == "LineBreak"@ {
        Some(Keys::LineBreak)
    } else if v == Versions::V12 && id == "1.1.1"@ {
        Some(Keys::ChildStart(ChildSlot::Slot1))
    } else if v == Versions::V12 && id == "1.1.2"@ {
        Some(Keys::ChildStart(ChildSlot::Slot2))
    } else if v == Versions::V12 && id == "1.1.3"@ {
        Some(Keys::ChildStart(ChildSlot::Slot3))
    } else if v == Versions::V12 && id == "1.2.1"@ {
        Some(Keys::ChildEnd(ChildSlot::Slot1))
    } else if v == Versions::V12 && id == "1.2.2"@ {
        Some(Keys::ChildEnd(ChildSlot::Slot2))
    } else if v == Versions::V12 && id == "1.2.3"@ {
        Some(Keys::ChildEnd(ChildSlot::Slot3))
    } else {
        None
    }
}

/// Classifies the two version digits; any other code is fatal.
pub fn telegram_ver(telegram_version: &str) -> (r: Result<Versions, DecodeError>)
    ensures
        res_view(r) == match spec_telegram_ver(telegram_version@) {
            Some(v) => Result::<Versions, ErrorModel>::Ok(v),
            None => Result::<Versions, ErrorModel>::Err(
                ErrorModel::Version(telegram_version@),
            ),
        },
{
    let v = str_to_chars(telegram_version);
    if chars_eq_str(v.as_slice(), "10") {
        Ok(Versions::V10)
    } else if chars_eq_str(v.as_slice(), "12") {
        Ok(Versions::V12)
    } else {
        Err(DecodeError::Version(chars_to_string(v.as_slice())))
    }
}

/// Classifies the two extension characters; any other code is rejected
/// (the decoder treats that as "no extension", not as a fatal error).
pub fn version_ext(version_extension: &str) -> (r: Result<Extensions, DecodeError>)
    ensures
        res_view(r) == match spec_version_ext(version_extension@) {
            Some(e) => Result::<Extensions, ErrorModel>::Ok(e),
            None => Result::<Extensions, ErrorModel>::Err(
                ErrorModel::Classification(version_extension@),
            ),
        },
{
    let v = str_to_chars(version_extension);
    if chars_eq_str(v.as_slice(), "g\r") {
        Ok(Extensions::Gas)
    } else if chars_eq_str(v.as_slice(), "r\r") {
        Ok(Extensions::Recursive)
    } else if chars_eq_str(v.as_slice(), "gr") {
        Ok(Extensions::GasRecursive)
    } else {
        Err(DecodeError::Classification(chars_to_string(v.as_slice())))
    }
}

/// Classifies an id token under the given protocol version.
pub fn classify_key(id: &str, v: Versions) -> (r: Result<Keys, DecodeError>)
    ensures
        res_view(r) == match spec_classify(id@, v) {
            Some(k) => Result::<Keys, ErrorModel>::Ok(k),
            None => Result::<Keys, ErrorModel>::Err(ErrorModel::Classification(id@)),
        },
{
    let cs = str_to_chars(id);
    let c = cs.as_slice();
    let v10 = match v {
        Versions::V10 => true,
        Versions::V12 => false,
    };
    if v10 && chars_eq_str(c, "1.1") {
        Ok(Keys::Start)
    } else if !v10 && chars_eq_str(c, "1.1.0") {
        Ok(Keys::Start)
    } else if chars_eq_str(c, "2.1") {
        Ok(Keys::Date)
    } else if v10 && chars_eq_str(c, "1.2") {
        Ok(Keys::End)
    } else if !v10 && chars_eq_str(c, "1.2.0") {
        Ok(Keys::End)
    } else if chars_starts_with_str(c, "3.1.") {
        Ok(Keys::EventLogSeverity)
    } else if chars_starts_with_str(c, "3.2.") {
        Ok(Keys::EventLogMessage)
    } else if chars_starts_with_str(c, "3.3.") {
        Ok(Keys::EventLogDate)
    } else if chars_eq_str(c, "4.1") {
        Ok(Keys::InformationType)
    } else if chars_eq_str(c, "5.1") {
        Ok(Keys::GasModel)
    } else if chars_eq_str(c, "5.2") {
        Ok(Keys::GasConsumption)
    } else if chars_eq_str(c, "6.1") {
        Ok(Keys::WaterConsumption)
    } else if chars_eq_str(c, "7.1.1") {
        Ok(Keys::VoltageP1)
    } else if chars_eq_str(c, "7.1.2") {
        Ok(Keys::VoltageP2)
    } else if chars_eq_str(c, "7.1.3") {
        Ok(Keys::VoltageP3)
    } else if chars_eq_str(c, "7.2.1") {
        Ok(Keys::CurrentP1)
    } else if chars_eq_str(c, "7.2.2") {
        Ok(Keys::CurrentP2)
    } else if chars_eq_str(c, "7.2.3") {
        Ok(Keys::CurrentP3)
    } else if chars_eq_str(c, "7.3.1") {
        Ok(Keys::PowerP1)
    } else if chars_eq_str(c, "7.3.2") {
        Ok(Keys::PowerP2)
    } else if chars_eq_str(c, "7.3.3") {
        Ok(Keys::PowerP3)
    } else if chars_eq_str(c, "7.4.1") {
        Ok(Keys::EnergyConsumption)
    } else if chars_eq_str(c, "7.4.2") {
        Ok(Keys::EnergyProduction)
    } else if chars_eq_str(c, "LineBreak") {
        Ok(Keys::LineBreak)
    } else if !v10 && chars_eq_str(c, "1.1.1") {
        Ok(Keys::ChildStart(ChildSlot::Slot1))
    } else if !v10 && chars_eq_str(c, "1.1.2") {
        Ok(Keys::ChildStart(ChildSlot::Slot2))
    } else if !v10 && chars_eq_str(c, "1.1.3") {
        Ok(Keys::ChildStart(ChildSlot::Slot3))
    } else if !v10 && chars_eq_str(c, "1.2.1") {
        Ok(Keys::ChildEnd(ChildSlot::Slot1))
    } else if !v10 && chars_eq_str(c, "1.2.2") {
        Ok(Keys::ChildEnd(ChildSlot::Slot2))
    } else if !v10 && chars_eq_str(c, "1.2.3") {
        Ok(Keys::ChildEnd(ChildSlot::Slot3))
    } else {
        Err(DecodeError::Classification(chars_to_string(c)))
    }
}

/// Classifies an id token under the newer, child-aware protocol version.
pub fn version_key(id: &str) -> (r: Result<Keys, DecodeError>)
    ensures
        res_view(r) == match spec_classify(id@, Versions::V12) {
            Some(k) => Result::<Keys, ErrorModel>::Ok(k),
            None => Result::<Keys, ErrorModel>::Err(ErrorModel::Classification(id@)),
        },
{
    classify_key(id, Versions::V12)
}

} // verus!
