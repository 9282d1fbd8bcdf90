//! The cross-field validator: structural invariants checked once, in a
//! fixed order, on the completed record (after child data is merged). The
//! first failing check aborts decoding; no partial result survives.

use vstd::prelude::*;
use crate::error::DecodeError;
use crate::error::ErrorModel;
use crate::error::InvariantKind;
use crate::record::Telegram;
use crate::record::TelegramModel;
use crate::record::strs_view;
use crate::text::str_to_chars;

verus! {

/// Does the character occur in the text?
pub open spec fn spec_contains_char(s: Seq<char>, c: char) -> bool {
    exists|i: int| 0 <= i < s.len() && s[i] == c
}

/// Does any information-type entry carry the marker character? The
/// markers are `W` for water, `E` for electricity, `G` for gas.
pub open spec fn spec_declares(info: Seq<Seq<char>>, c: char) -> bool {
    exists|i: int| 0 <= i < info.len() && spec_contains_char(info[i], c)
}

/// The invariant checks of the completed record, in the order they run;
/// the result names the first one that fails.
pub open spec fn spec_validate(m: TelegramModel) -> Result<(), InvariantKind> {
    if m.event_log_severity.len() != m.event_log_message.len() || m.event_log_severity.len()
        != m.event_log_date.len() {
        Err(InvariantKind::EventLogLengths)
    } else if m.voltage_p1.len() != m.voltage_p2.len() || m.voltage_p1.len()
        != m.voltage_p3.len() {
        Err(InvariantKind::VoltagePhases)
    } else if m.current_p1.len() != m.current_p2.len() || m.current_p1.len()
        != m.current_p3.len() {
        Err(InvariantKind::CurrentPhases)
    } else if m.power_p1.len() != m.power_p2.len() || m.power_p1.len() != m.power_p3.len() {
        Err(InvariantKind::PowerPhases)
    } else if m.voltage_p1.len() != m.current_p1.len() || m.voltage_p1.len()
        != m.power_p1.len() {
        Err(InvariantKind::ElectricityAlignment)
    } else if m.energy_consumption.len() != m.energy_production.len() {
        Err(InvariantKind::EnergyLengths)
    } else if m.telegram_date.len() == 0 {
        Err(InvariantKind::NoDates)
    } else if spec_declares(m.information_type, 'W') && m.water_consumption.len() == 0 {
        Err(InvariantKind::InfoWaterMissing)
    } else if spec_declares(m.information_type, 'E') && m.voltage_p1.len() == 0 {
        Err(InvariantKind::InfoElectricityMissing)
    } else if spec_declares(m.information_type, 'G') && m.gas_consumption.len() == 0 {
        Err(InvariantKind::InfoGasMissing)
    } else {
        Ok(())
    }
}

/// Scans the information-type entries for a marker character.
fn info_declares(info: &Vec<String>, c: char) -> (r: bool)
    ensures
        r == spec_declares(strs_view(info@), c),
{
    let n = info.len();
    let mut i: usize = 0;
    while i < n
        invariant
            n == info@.len(),
            i <= n,
            forall|j: int| 0 <= j < i ==> !spec_contains_char(strs_view(info@)[j], c),
        decreases n - i,
    {
        let cs = str_to_chars(info[i].as_str());
        let m = cs.len();
        let mut k: usize = 0;
        while k < m
            invariant
                m == cs@.len(),
                cs@ == info@[i as int]@,
                i < n,
                n == info@.len(),
                k <= m,
                forall|j: int| 0 <= j < k ==> cs@[j] != c,
            decreases m - k,
        {
            if cs[k] == c {
                proof {
                    assert(strs_view(info@)[i as int] == info@[i as int]@);
                    assert(spec_contains_char(strs_view(info@)[i as int], c));
                }
                return true;
            }
            k = k + 1;
        }
        proof {
            assert(strs_view(info@)[i as int] == info@[i as int]@);
            assert(!spec_contains_char(strs_view(info@)[i as int], c));
        }
        i = i + 1;
    }
    proof {
        if spec_declares(strs_view(info@), c) {
            let w = choose|j: int|
                0 <= j < strs_view(info@).len() && spec_contains_char(strs_view(info@)[j], c);
            assert(!spec_contains_char(strs_view(info@)[w], c));
        }
    }
    false
}

/// Runs the invariant checks on a completed record, in fixed order,
/// returning the first violation.
pub fn validate(t: &Telegram) -> (r: Result<(), DecodeError>)
    ensures
        match spec_validate(t@) {
            Ok(_u) => r is Ok,
            Err(k) => r matches Err(e) && e@ == ErrorModel::Invariant(k),
        },
{
    if t.event_log_severity.len() != t.event_log_message.len() || t.event_log_severity.len()
        != t.event_log_date.len() {
        return Err(DecodeError::Invariant(InvariantKind::EventLogLengths));
    }
    if t.voltage_p1.len() != t.voltage_p2.len() || t.voltage_p1.len() != t.voltage_p3.len() {
        return Err(DecodeError::Invariant(InvariantKind::VoltagePhases));
    }
    if t.current_p1.len() != t.current_p2.len() || t.current_p1.len() != t.current_p3.len() {
        return Err(DecodeError::Invariant(InvariantKind::CurrentPhases));
    }
    if t.power_p1.len() != t.power_p2.len() || t.power_p1.len() != t.power_p3.len() {
        return Err(DecodeError::Invariant(InvariantKind::PowerPhases));
    }
    if t.voltage_p1.len() != t.current_p1.len() || t.voltage_p1.len() != t.power_p1.len() {
        return Err(DecodeError::Invariant(InvariantKind::ElectricityAlignment));
    }
    if t.energy_consumption.len() != t.energy_production.len() {
        return Err(DecodeError::Invariant(InvariantKind::EnergyLengths));
    }
    if t.telegram_date.len() == 0 {
        return Err(DecodeError::Invariant(InvariantKind::NoDates));
    }
    if info_declares(&t.information_type, 'W') && t.water_consumption.len() == 0 {
        return Err(DecodeError::Invariant(InvariantKind::InfoWaterMissing));
    }
    if info_declares(&t.information_type, 'E') && t.voltage_p1.len() == 0 {
        return Err(DecodeError::Invariant(InvariantKind::InfoElectricityMissing));
    }
    if info_declares(&t.information_type, 'G') && t.gas_consumption.len() == 0 {
        return Err(DecodeError::Invariant(InvariantKind::InfoGasMissing));
    }
    Ok(())
}

/// A record whose voltage phase sequences differ in length never passes
/// the validator, whatever else it holds.
pub proof fn lemma_validator_rejects_phase_mismatch(m: TelegramModel)
    requires
        m.voltage_p1.len() != m.voltage_p2.len() || m.voltage_p1.len() != m.voltage_p3.len(),
    ensures
        spec_validate(m) is Err,
{
}

/// A record that satisfies every structural invariant — aligned event
/// logs, equal phase lengths for voltage, current and power, phase-1
/// alignment across the three electric quantities, aligned energy
/// sequences, at least one date, and every declared channel non-empty —
/// passes the validator.
pub proof fn lemma_validator_accepts(m: TelegramModel)
    requires
        m.event_log_severity.len() == m.event_log_message.len(),
        m.event_log_severity.len() == m.event_log_date.len(),
        m.voltage_p1.len() == m.voltage_p2.len(),
        m.voltage_p1.len() == m.voltage_p3.len(),
        m.current_p1.len() == m.current_p2.len(),
        m.current_p1.len() == m.current_p3.len(),
        m.power_p1.len() == m.power_p2.len(),
        m.power_p1.len() == m.power_p3.len(),
        m.voltage_p1.len() == m.current_p1.len(),
        m.voltage_p1.len() == m.power_p1.len(),
        m.energy_consumption.len() == m.energy_production.len(),
        m.telegram_date.len() > 0,
        spec_declares(m.information_type, 'W') ==> m.water_consumption.len() > 0,
        spec_declares(m.information_type, 'E') ==> m.voltage_p1.len() > 0,
        spec_declares(m.information_type, 'G') ==> m.gas_consumption.len() > 0,
    ensures
        spec_validate(m) is Ok,
{
}

} // verus!
