//! The telegram record: the root measurement record, its child records,
//! and the handlers that fold classified lines into them.
//!
//! Fractional readings are fixed-point integers in millionths of a unit
//! (see `numbers`); water readings are whole litres; timestamps are epoch
//! seconds.

use vstd::prelude::*;
use crate::error::DecodeError;
use crate::error::ErrorModel;
use crate::keys::ChildSlot;
use crate::keys::Extensions;
use crate::keys::Versions;
use crate::numbers::spec_parse_decimal;
use crate::numbers::spec_parse_u64;
use crate::numbers::parse_decimal_chars;
use crate::numbers::parse_u64_chars;
use crate::text::chars_to_string;
use crate::text::spec_strip_suffix;
use crate::text::str_to_chars;
use crate::text::strip_suffix_chars;

verus! {

/// The sequence of character views of a vector of strings.
pub open spec fn strs_view(s: Seq<String>) -> Seq<Seq<char>> {
    Seq::new(s.len(), |i: int| s[i]@)
}

pub proof fn lemma_strs_view_push(s: Seq<String>, x: String)
    ensures
        strs_view(s.push(x)) == strs_view(s).push(x@),
{
    assert(strs_view(s.push(x)) =~= strs_view(s).push(x@));
}

/// Which record a context-sensitive key is routed to: the root record, or
/// one of the three child records.
#[derive(Debug, PartialEq, Eq, Structural, Clone, Copy)]
pub enum NestingContext {
    Root,
    InChild(ChildSlot),
}

/// One of the three electricity phases.
#[derive(Debug, PartialEq, Eq, Structural, Clone, Copy)]
pub enum Phase {
    P1,
    P2,
    P3,
}

/// Direction of an energy reading.
#[derive(Debug, PartialEq, Eq, Structural, Clone, Copy)]
pub enum EnergyKind {
    Consumption,
    Production,
}

/// A nested child-telegram record: an auxiliary meter sharing the parent's
/// format, delimited by start and end markers in the same line stream.
#[derive(Debug, PartialEq, Eq, Clone)]
pub struct ChildTelegram {
    pub telegram_start: Vec<String>,
    pub telegram_date: Vec<String>,
    pub gas_model: Vec<String>,
    /// Unit-scaled gas readings, in millionths of a cubic metre.
    pub gas_consumption: Vec<i64>,
    pub telegram_end: Vec<String>,
}

/// Mathematical model of a child record.
#[verifier::ext_equal]
pub struct ChildModel {
    pub telegram_start: Seq<Seq<char>>,
    pub telegram_date: Seq<Seq<char>>,
    pub gas_model: Seq<Seq<char>>,
    pub gas_consumption: Seq<i64>,
    pub telegram_end: Seq<Seq<char>>,
}

impl View for ChildTelegram {
    type V = ChildModel;

    open spec fn view(&self) -> ChildModel {
        ChildModel {
            telegram_start: strs_view(self.telegram_start@),
            telegram_date: strs_view(self.telegram_date@),
            gas_model: strs_view(self.gas_model@),
            gas_consumption: self.gas_consumption@,
            telegram_end: strs_view(self.telegram_end@),
        }
    }
}

pub open spec fn spec_empty_child() -> ChildModel {
    ChildModel {
        telegram_start: Seq::empty(),
        telegram_date: Seq::empty(),
        gas_model: Seq::empty(),
        gas_consumption: Seq::empty(),
        telegram_end: Seq::empty(),
    }
}

impl ChildTelegram {
    pub fn empty() -> (c: ChildTelegram)
        ensures
            c@ == spec_empty_child(),
    {
        let c = ChildTelegram {
            telegram_start: Vec::new(),
            telegram_date: Vec::new(),
            gas_model: Vec::new(),
            gas_consumption: Vec::new(),
            telegram_end: Vec::new(),
        };
        proof {
            assert(c@ =~= spec_empty_child());
        }
        c
    }
}

impl core::default::Default for ChildTelegram {
    /// An empty child record.
    fn default() -> (c: ChildTelegram)
        ensures
            c@ == spec_empty_child(),
    {
        ChildTelegram::empty()
    }
}

/// The root telegram record. Channel sequences hold measurements in
/// line-arrival order; the event-log sequences are index-aligned; the
/// timestamp sequence is index-aligned with the date sequence.
#[derive(Debug, PartialEq, Eq, Clone)]
pub struct Telegram {
    pub telegram_version: Option<Versions>,
    pub telegram_extensions: Option<Extensions>,
    pub telegram_start: Vec<String>,
    pub telegram_date: Vec<String>,
    pub event_log_severity: Vec<String>,
    pub event_log_message: Vec<String>,
    pub event_log_date: Vec<String>,
    pub information_type: Vec<String>,
    pub gas_model: Vec<String>,
    /// Unit-scaled gas readings, in millionths of a cubic metre.
    pub gas_consumption: Vec<i64>,
    /// Water readings in whole litres.
    pub water_consumption: Vec<u64>,
    pub voltage_p1: Vec<i64>,
    pub voltage_p2: Vec<i64>,
    pub voltage_p3: Vec<i64>,
    pub current_p1: Vec<i64>,
    pub current_p2: Vec<i64>,
    pub current_p3: Vec<i64>,
    pub power_p1: Vec<i64>,
    pub power_p2: Vec<i64>,
    pub power_p3: Vec<i64>,
    pub energy_consumption: Vec<i64>,
    pub energy_production: Vec<i64>,
    pub telegram_end: Vec<String>,
    /// Epoch timestamps derived from the date sequence.
    pub time_stamp: Vec<i64>,
    pub child_telegram1: ChildTelegram,
    pub child_telegram2: ChildTelegram,
    pub child_telegram3: ChildTelegram,
}

/// Mathematical model of the root record.
#[verifier::ext_equal]
pub struct TelegramModel {
    pub telegram_version: Option<Versions>,
    pub telegram_extensions: Option<Extensions>,
    pub telegram_start: Seq<Seq<char>>,
    pub telegram_date: Seq<Seq<char>>,
    pub event_log_severity: Seq<Seq<char>>,
    pub event_log_message: Seq<Seq<char>>,
    pub event_log_date: Seq<Seq<char>>,
    pub information_type: Seq<Seq<char>>,
    pub gas_model: Seq<Seq<char>>,
    pub gas_consumption: Seq<i64>,
    pub water_consumption: Seq<u64>,
    pub voltage_p1: Seq<i64>,
    pub voltage_p2: Seq<i64>,
    pub voltage_p3: Seq<i64>,
    pub current_p1: Seq<i64>,
    pub current_p2: Seq<i64>,
    pub current_p3: Seq<i64>,
    pub power_p1: Seq<i64>,
    pub power_p2: Seq<i64>,
    pub power_p3: Seq<i64>,
    pub energy_consumption: Seq<i64>,
    pub energy_production: Seq<i64>,
    pub telegram_end: Seq<Seq<char>>,
    pub time_stamp: Seq<i64>,
    pub child_telegram1: ChildModel,
    pub child_telegram2: ChildModel,
    pub child_telegram3: ChildModel,
}

impl View for Telegram {
    type V = TelegramModel;

    open spec fn view(&self) -> TelegramModel {
        TelegramModel {
            telegram_version: self.telegram_version,
            telegram_extensions: self.telegram_extensions,
            telegram_start: strs_view(self.telegram_start@),
            telegram_date: strs_view(self.telegram_date@),
            event_log_severity: strs_view(self.event_log_severity@),
            event_log_message: strs_view(self.event_log_message@),
            event_log_date: strs_view(self.event_log_date@),
            information_type: strs_view(self.information_type@),
            gas_model: strs_view(self.gas_model@),
            gas_consumption: self.gas_consumption@,
            water_consumption: self.water_consumption@,
            voltage_p1: self.voltage_p1@,
            voltage_p2: self.voltage_p2@,
            voltage_p3: self.voltage_p3@,
            current_p1: self.current_p1@,
            current_p2: self.current_p2@,
            current_p3: self.current_p3@,
            power_p1: self.power_p1@,
            power_p2: self.power_p2@,
            power_p3: self.power_p3@,
            energy_consumption: self.energy_consumption@,
            energy_production: self.energy_production@,
            telegram_end: strs_view(self.telegram_end@),
            time_stamp: self.time_stamp@,
            child_telegram1: self.child_telegram1@,
            child_telegram2: self.child_telegram2@,
            child_telegram3: self.child_telegram3@,
        }
    }
}

pub open spec fn spec_empty_record() -> TelegramModel {
    TelegramModel {
        telegram_version: Option::<Versions>::None,
        telegram_extensions: Option::<Extensions>::None,
        telegram_start: Seq::empty(),
        telegram_date: Seq::empty(),
        event_log_severity: Seq::empty(),
        event_log_message: Seq::empty(),
        event_log_date: Seq::empty(),
        information_type: Seq::empty(),
        gas_model: Seq::empty(),
        gas_consumption: Seq::empty(),
        water_consumption: Seq::empty(),
        voltage_p1: Seq::empty(),
        voltage_p2: Seq::empty(),
        voltage_p3: Seq::empty(),
        current_p1: Seq::empty(),
        current_p2: Seq::empty(),
        current_p3: Seq::empty(),
        power_p1: Seq::empty(),
        power_p2: Seq::empty(),
        power_p3: Seq::empty(),
        energy_consumption: Seq::empty(),
        energy_production: Seq::empty(),
        telegram_end: Seq::empty(),
        time_stamp: Seq::empty(),
        child_telegram1: spec_empty_child(),
        child_telegram2: spec_empty_child(),
        child_telegram3: spec_empty_child(),
    }
}

/// The model of the child record a context routes to.
pub open spec fn spec_ctx_child(m: TelegramModel, k: ChildSlot) -> ChildModel {
    match k {
        ChildSlot::Slot1 => m.child_telegram1,
        ChildSlot::Slot2 => m.child_telegram2,
        ChildSlot::Slot3 => m.child_telegram3,
    }
}

/// The model with the child record of slot `k` replaced.
pub open spec fn spec_with_child(m: TelegramModel, k: ChildSlot, c: ChildModel) -> TelegramModel {
    match k {
        ChildSlot::Slot1 => TelegramModel { child_telegram1: c, ..m },
        ChildSlot::Slot2 => TelegramModel { child_telegram2: c, ..m },
        ChildSlot::Slot3 => TelegramModel { child_telegram3: c, ..m },
    }
}

/// The gas-model sequence of the currently active context.
pub open spec fn spec_ctx_gas_models(m: TelegramModel, ctx: NestingContext) -> Seq<Seq<char>> {
    match ctx {
        NestingContext::Root => m.gas_model,
        NestingContext::InChild(k) => spec_ctx_child(m, k).gas_model,
    }
}

/// A date payload routed by context.
pub open spec fn spec_push_date(m: TelegramModel, ctx: NestingContext, p: Seq<char>)
    -> TelegramModel {
    match ctx {
        NestingContext::Root => TelegramModel { telegram_date: m.telegram_date.push(p), ..m },
        NestingContext::InChild(k) => spec_with_child(
            m,
            k,
            ChildModel { telegram_date: spec_ctx_child(m, k).telegram_date.push(p), ..spec_ctx_child(m, k) },
        ),
    }
}

/// A gas-model payload routed by context.
pub open spec fn spec_push_gas_model(m: TelegramModel, ctx: NestingContext, p: Seq<char>)
    -> TelegramModel {
    match ctx {
        NestingContext::Root => TelegramModel { gas_model: m.gas_model.push(p), ..m },
        NestingContext::InChild(k) => spec_with_child(
            m,
            k,
            ChildModel { gas_model: spec_ctx_child(m, k).gas_model.push(p), ..spec_ctx_child(m, k) },
        ),
    }
}

/// A scaled gas reading routed by context.
pub open spec fn spec_push_gas(m: TelegramModel, ctx: NestingContext, x: i64) -> TelegramModel {
    match ctx {
        NestingContext::Root => TelegramModel { gas_consumption: m.gas_consumption.push(x), ..m },
        NestingContext::InChild(k) => spec_with_child(
            m,
            k,
            ChildModel {
                gas_consumption: spec_ctx_child(m, k).gas_consumption.push(x),
                ..spec_ctx_child(m, k)
            },
        ),
    }
}

/// A child-start marker: the payload lands in that child's start sequence.
pub open spec fn spec_push_child_start(m: TelegramModel, k: ChildSlot, p: Seq<char>)
    -> TelegramModel {
    spec_with_child(
        m,
        k,
        ChildModel { telegram_start: spec_ctx_child(m, k).telegram_start.push(p), ..spec_ctx_child(m, k) },
    )
}

/// A child-end marker: the payload lands in that child's end sequence.
pub open spec fn spec_push_child_end(m: TelegramModel, k: ChildSlot, p: Seq<char>)
    -> TelegramModel {
    spec_with_child(
        m,
        k,
        ChildModel { telegram_end: spec_ctx_child(m, k).telegram_end.push(p), ..spec_ctx_child(m, k) },
    )
}

/// Scale factor the gas model declares, in whole units.
pub open spec fn spec_gas_scale(model: Seq<char>) -> Option<i64> {
    if model == "G4"@ {
        Some(1)
    } else if model == "G5"@ {
        Some(10)
    } else if model == "G6"@ {
        Some(100)
    } else {
        None
    }
}

impl Telegram {
    /// A record with no fields populated, as decoding starts from.
    pub fn empty() -> (t: Telegram)
        ensures
            t@ == spec_empty_record(),
    {
        let t = Telegram {
            telegram_version: None,
            telegram_extensions: None,
            telegram_start: Vec::new(),
            telegram_date: Vec::new(),
            event_log_severity: Vec::new(),
            event_log_message: Vec::new(),
            event_log_date: Vec::new(),
            information_type: Vec::new(),
            gas_model: Vec::new(),
            gas_consumption: Vec::new(),
            water_consumption: Vec::new(),
            voltage_p1: Vec::new(),
            voltage_p2: Vec::new(),
            voltage_p3: Vec::new(),
            current_p1: Vec::new(),
            current_p2: Vec::new(),
            current_p3: Vec::new(),
            power_p1: Vec::new(),
            power_p2: Vec::new(),
            power_p3: Vec::new(),
            energy_consumption: Vec::new(),
            energy_production: Vec::new(),
            telegram_end: Vec::new(),
            time_stamp: Vec::new(),
            child_telegram1: ChildTelegram::empty(),
            child_telegram2: ChildTelegram::empty(),
            child_telegram3: ChildTelegram::empty(),
        };
        proof {
            assert(t@ =~= spec_empty_record());
        }
        t
    }

    pub fn set_version(&mut self, v: Versions)
        ensures
            final(self)@ == (TelegramModel { telegram_version: Some(v), ..old(self)@ }),
    {
        self.telegram_version = Some(v);
        proof {
            assert(self@ =~= (TelegramModel { telegram_version: Some(v), ..old(self)@ }));
        }
    }

    pub fn set_extensions(&mut self, e: Option<Extensions>)
        ensures
            final(self)@ == (TelegramModel { telegram_extensions: e, ..old(self)@ }),
    {
        self.telegram_extensions = e;
        proof {
            assert(self@ =~= (TelegramModel { telegram_extensions: e, ..old(self)@ }));
        }
    }

    pub fn push_start(&mut self, p: String)
        ensures
            final(self)@ == (TelegramModel {
                telegram_start: old(self)@.telegram_start.push(p@),
                ..old(self)@
            }),
    {
        proof {
            lemma_strs_view_push(self.telegram_start@, p);
        }
        self.telegram_start.push(p);
        proof {
            assert(self@ =~= (TelegramModel {
                telegram_start: old(self)@.telegram_start.push(p@),
                ..old(self)@
            }));
        }
    }

    pub fn push_end(&mut self, p: String)
        ensures
            final(self)@ == (TelegramModel {
                telegram_end: old(self)@.telegram_end.push(p@),
                ..old(self)@
            }),
    {
        proof {
            lemma_strs_view_push(self.telegram_end@, p);
        }
        self.telegram_end.push(p);
        proof {
            assert(self@ =~= (TelegramModel {
                telegram_end: old(self)@.telegram_end.push(p@),
                ..old(self)@
            }));
        }
    }

    pub fn push_event_log_severity(&mut self, p: String)
        ensures
            final(self)@ == (TelegramModel {
                event_log_severity: old(self)@.event_log_severity.push(p@),
                ..old(self)@
            }),
    {
        proof {
            lemma_strs_view_push(self.event_log_severity@, p);
        }
        self.event_log_severity.push(p);
        proof {
            assert(self@ =~= (TelegramModel {
                event_log_severity: old(self)@.event_log_severity.push(p@),
                ..old(self)@
            }));
        }
    }

    pub fn push_event_log_message(&mut self, p: String)
        ensures
            final(self)@ == (TelegramModel {
                event_log_message: old(self)@.event_log_message.push(p@),
                ..old(self)@
            }),
    {
        proof {
            lemma_strs_view_push(self.event_log_message@, p);
        }
        self.event_log_message.push(p);
        proof {
            assert(self@ =~= (TelegramModel {
                event_log_message: old(self)@.event_log_message.push(p@),
                ..old(self)@
            }));
        }
    }

    pub fn push_event_log_date(&mut self, p: String)
        ensures
            final(self)@ == (TelegramModel {
                event_log_date: old(self)@.event_log_date.push(p@),
                ..old(self)@
            }),
    {
        proof {
            lemma_strs_view_push(self.event_log_date@, p);
        }
        self.event_log_date.push(p);
        proof {
            assert(self@ =~= (TelegramModel {
                event_log_date: old(self)@.event_log_date.push(p@),
                ..old(self)@
            }));
        }
    }

    pub fn push_information_type(&mut self, p: String)
        ensures
            final(self)@ == (TelegramModel {
                information_type: old(self)@.information_type.push(p@),
                ..old(self)@
            }),
    {
        proof {
            lemma_strs_view_push(self.information_type@, p);
        }
        self.information_type.push(p);
        proof {
            assert(self@ =~= (TelegramModel {
                information_type: old(self)@.information_type.push(p@),
                ..old(self)@
            }));
        }
    }

    /// Routes a date payload to the active context's date sequence.
    pub fn push_date(&mut self, ctx: NestingContext, p: String)
        ensures
            final(self)@ == spec_push_date(old(self)@, ctx, p@),
    {
        match ctx {
            NestingContext::Root => {
                proof {
                    lemma_strs_view_push(self.telegram_date@, p);
                }
                self.telegram_date.push(p);
            },
            NestingContext::InChild(ChildSlot::Slot1) => {
                proof {
                    lemma_strs_view_push(self.child_telegram1.telegram_date@, p);
                }
                self.child_telegram1.telegram_date.push(p);
            },
            NestingContext::InChild(ChildSlot::Slot2) => {
                proof {
                    lemma_strs_view_push(self.child_telegram2.telegram_date@, p);
                }
                self.child_telegram2.telegram_date.push(p);
            },
            NestingContext::InChild(ChildSlot::Slot3) => {
                proof {
                    lemma_strs_view_push(self.child_telegram3.telegram_date@, p);
                }
                self.child_telegram3.telegram_date.push(p);
            },
        }
        proof {
            assert(self@ =~= spec_push_date(old(self)@, ctx, p@));
        }
    }

    /// Routes a gas-model payload to the active context's model sequence.
    pub fn handle_gas_model(&mut self, payload: &str, ctx: NestingContext)
        ensures
            final(self)@ == spec_push_gas_model(old(self)@, ctx, payload@),
    {
        let p = chars_to_string(str_to_chars(payload).as_slice());
        match ctx {
            NestingContext::Root => {
                proof {
                    lemma_strs_view_push(self.gas_model@, p);
                }
                self.gas_model.push(p);
            },
            NestingContext::InChild(ChildSlot::Slot1) => {
                proof {
                    lemma_strs_view_push(self.child_telegram1.gas_model@, p);
                }
                self.child_telegram1.gas_model.push(p);
            },
            NestingContext::InChild(ChildSlot::Slot2) => {
                proof {
                    lemma_strs_view_push(self.child_telegram2.gas_model@, p);
                }
                self.child_telegram2.gas_model.push(p);
            },
            NestingContext::InChild(ChildSlot::Slot3) => {
                proof {
                    lemma_strs_view_push(self.child_telegram3.gas_model@, p);
                }
                self.child_telegram3.gas_model.push(p);
            },
        }
        proof {
            assert(self@ =~= spec_push_gas_model(old(self)@, ctx, payload@));
        }
    }

    /// Opens child context `k`: the payload lands in that child's start
    /// sequence.
    pub fn push_child_start(&mut self, k: ChildSlot, p: String)
        ensures
            final(self)@ == spec_push_child_start(old(self)@, k, p@),
    {
        match k {
            ChildSlot::Slot1 => {
                proof {
                    lemma_strs_view_push(self.child_telegram1.telegram_start@, p);
                }
                self.child_telegram1.telegram_start.push(p);
            },
            ChildSlot::Slot2 => {
                proof {
                    lemma_strs_view_push(self.child_telegram2.telegram_start@, p);
                }
                self.child_telegram2.telegram_start.push(p);
            },
            ChildSlot::Slot3 => {
                proof {
                    lemma_strs_view_push(self.child_telegram3.telegram_start@, p);
                }
                self.child_telegram3.telegram_start.push(p);
            },
        }
        proof {
            assert(self@ =~= spec_push_child_start(old(self)@, k, p@));
        }
    }

    /// Closes child context `k`: the payload lands in that child's end
    /// sequence.
    pub fn push_child_end(&mut self, k: ChildSlot, p: String)
        ensures
            final(self)@ == spec_push_child_end(old(self)@, k, p@),
    {
        match k {
            ChildSlot::Slot1 => {
                proof {
                    lemma_strs_view_push(self.child_telegram1.telegram_end@, p);
                }
                self.child_telegram1.telegram_end.push(p);
            },
            ChildSlot::Slot2 => {
                proof {
                    lemma_strs_view_push(self.child_telegram2.telegram_end@, p);
                }
                self.child_telegram2.telegram_end.push(p);
            },
            ChildSlot::Slot3 => {
                proof {
                    lemma_strs_view_push(self.child_telegram3.telegram_end@, p);
                }
                self.child_telegram3.telegram_end.push(p);
            },
        }
        proof {
            assert(self@ =~= spec_push_child_end(old(self)@, k, p@));
        }
    }

    /// The most recent gas model of the active context, if any.
    pub fn last_gas_model(&self, ctx: NestingContext) -> (r: Option<String>)
        ensures
            match r {
                Some(s) => spec_ctx_gas_models(self@, ctx).len() > 0 && s@ == spec_ctx_gas_models(
                    self@,
                    ctx,
                ).last(),
                None => spec_ctx_gas_models(self@, ctx).len() == 0,
            },
    {
        let models = match ctx {
            NestingContext::Root => &self.gas_model,
            NestingContext::InChild(ChildSlot::Slot1) => &self.child_telegram1.gas_model,
            NestingContext::InChild(ChildSlot::Slot2) => &self.child_telegram2.gas_model,
            NestingContext::InChild(ChildSlot::Slot3) => &self.child_telegram3.gas_model,
        };
        let n = models.len();
        if n == 0 {
            None
        } else {
            Some(models[n - 1].clone())
        }
    }

    /// Parses a water payload (`*L` litres) and appends it; a payload that
    /// is not a whole number of litres is a fatal numeric parse error.
    pub fn handle_water(&mut self, payload: &str) -> (r: Result<(), DecodeError>)
        ensures
            match spec_parse_u64(spec_strip_suffix(payload@, "*L"@)) {
                Some(x) => r is Ok && final(self)@ == (TelegramModel {
                    water_consumption: old(self)@.water_consumption.push(x),
                    ..old(self)@
                }),
                None => r matches Err(e) && e@ == ErrorModel::NumericParse(payload@) && final(self)@
                    == old(self)@,
            },
    {
        let cs = str_to_chars(payload);
        proof {
            reveal_strlit("*L");
        }
        let stripped = strip_suffix_chars(cs.as_slice(), "*L");
        match parse_u64_chars(stripped.as_slice()) {
            Some(x) => {
                self.water_consumption.push(x);
                proof {
                    assert(self@ =~= (TelegramModel {
                        water_consumption: old(self)@.water_consumption.push(x),
                        ..old(self)@
                    }));
                }
                Ok(())
            },
            None => Err(DecodeError::NumericParse(chars_to_string(cs.as_slice()))),
        }
    }

    /// Parses a voltage payload (`*V`) and appends it to the given phase.
    pub fn handle_voltage(&mut self, payload: &str, phase: Phase) -> (r: Result<(), DecodeError>)
        ensures
            match spec_parse_decimal(spec_strip_suffix(payload@, "*V"@)) {
                Some(x) => r is Ok && final(self)@ == (match phase {
                    Phase::P1 => TelegramModel {
                        voltage_p1: old(self)@.voltage_p1.push(x),
                        ..old(self)@
                    },
                    Phase::P2 => TelegramModel {
                        voltage_p2: old(self)@.voltage_p2.push(x),
                        ..old(self)@
                    },
                    Phase::P3 => TelegramModel {
                        voltage_p3: old(self)@.voltage_p3.push(x),
                        ..old(self)@
                    },
                }),
                None => r matches Err(e) && e@ == ErrorModel::NumericParse(payload@) && final(self)@
                    == old(self)@,
            },
    {
        let cs = str_to_chars(payload);
        proof {
            reveal_strlit("*V");
        }
        let stripped = strip_suffix_chars(cs.as_slice(), "*V");
        match parse_decimal_chars(stripped.as_slice()) {
            Some(x) => {
                match phase {
                    Phase::P1 => self.voltage_p1.push(x),
                    Phase::P2 => self.voltage_p2.push(x),
                    Phase::P3 => self.voltage_p3.push(x),
                }
                proof {
                    assert(self@ =~= (match phase {
                        Phase::P1 => TelegramModel {
                            voltage_p1: old(self)@.voltage_p1.push(x),
                            ..old(self)@
                        },
                        Phase::P2 => TelegramModel {
                            voltage_p2: old(self)@.voltage_p2.push(x),
                            ..old(self)@
                        },
                        Phase::P3 => TelegramModel {
                            voltage_p3: old(self)@.voltage_p3.push(x),
                            ..old(self)@
                        },
                    }));
                }
                Ok(())
            },
            None => Err(DecodeError::NumericParse(chars_to_string(cs.as_slice()))),
        }
    }

    /// Parses a current payload (`*A`) and appends it to the given phase.
    pub fn handle_current(&mut self, payload: &str, phase: Phase) -> (r: Result<(), DecodeError>)
        ensures
            match spec_parse_decimal(spec_strip_suffix(payload@, "*A"@)) {
                Some(x) => r is Ok && final(self)@ == (match phase {
                    Phase::P1 => TelegramModel {
                        current_p1: old(self)@.current_p1.push(x),
                        ..old(self)@
                    },
                    Phase::P2 => TelegramModel {
                        current_p2: old(self)@.current_p2.push(x),
                        ..old(self)@
                    },
                    Phase::P3 => TelegramModel {
                        current_p3: old(self)@.current_p3.push(x),
                        ..old(self)@
                    },
                }),
                None => r matches Err(e) && e@ == ErrorModel::NumericParse(payload@) && final(self)@
                    == old(self)@,
            },
    {
        let cs = str_to_chars(payload);
        proof {
            reveal_strlit("*A");
        }
        let stripped = strip_suffix_chars(cs.as_slice(), "*A");
        match parse_decimal_chars(stripped.as_slice()) {
            Some(x) => {
                match phase {
                    Phase::P1 => self.current_p1.push(x),
                    Phase::P2 => self.current_p2.push(x),
                    Phase::P3 => self.current_p3.push(x),
                }
                proof {
                    assert(self@ =~= (match phase {
                        Phase::P1 => TelegramModel {
                            current_p1: old(self)@.current_p1.push(x),
                            ..old(self)@
                        },
                        Phase::P2 => TelegramModel {
                            current_p2: old(self)@.current_p2.push(x),
                            ..old(self)@
                        },
                        Phase::P3 => TelegramModel {
                            current_p3: old(self)@.current_p3.push(x),
                            ..old(self)@
                        },
                    }));
                }
                Ok(())
            },
            None => Err(DecodeError::NumericParse(chars_to_string(cs.as_slice()))),
        }
    }

    /// Parses a power payload (`*kW`) and appends it to the given phase.
    pub fn handle_power(&mut self, payload: &str, phase: Phase) -> (r: Result<(), DecodeError>)
        ensures
            match spec_parse_decimal(spec_strip_suffix(payload@, "*kW"@)) {
                Some(x) => r is Ok && final(self)@ == (match phase {
                    Phase::P1 => TelegramModel {
                        power_p1: old(self)@.power_p1.push(x),
                        ..old(self)@
                    },
                    Phase::P2 => TelegramModel {
                        power_p2: old(self)@.power_p2.push(x),
                        ..old(self)@
                    },
                    Phase::P3 => TelegramModel {
                        power_p3: old(self)@.power_p3.push(x),
                        ..old(self)@
                    },
                }),
                None => r matches Err(e) && e@ == ErrorModel::NumericParse(payload@) && final(self)@
                    == old(self)@,
            },
    {
        let cs = str_to_chars(payload);
        proof {
            reveal_strlit("*kW");
        }
        let stripped = strip_suffix_chars(cs.as_slice(), "*kW");
        match parse_decimal_chars(stripped.as_slice()) {
            Some(x) => {
                match phase {
                    Phase::P1 => self.power_p1.push(x),
                    Phase::P2 => self.power_p2.push(x),
                    Phase::P3 => self.power_p3.push(x),
                }
                proof {
                    assert(self@ =~= (match phase {
                        Phase::P1 => TelegramModel {
                            power_p1: old(self)@.power_p1.push(x),
                            ..old(self)@
                        },
                        Phase::P2 => TelegramModel {
                            power_p2: old(self)@.power_p2.push(x),
                            ..old(self)@
                        },
                        Phase::P3 => TelegramModel {
                            power_p3: old(self)@.power_p3.push(x),
                            ..old(self)@
                        },
                    }));
                }
                Ok(())
            },
            None => Err(DecodeError::NumericParse(chars_to_string(cs.as_slice()))),
        }
    }

    /// Parses an energy payload (`*kWh`) and appends it to the given
    /// direction's sequence.
    pub fn handle_energy(&mut self, payload: &str, kind: EnergyKind) -> (r: Result<
        (),
        DecodeError,
    >)
        ensures
            match spec_parse_decimal(spec_strip_suffix(payload@, "*kWh"@)) {
                Some(x) => r is Ok && final(self)@ == (match kind {
                    EnergyKind::Consumption => TelegramModel {
                        energy_consumption: old(self)@.energy_consumption.push(x),
                        ..old(self)@
                    },
                    EnergyKind::Production => TelegramModel {
                        energy_production: old(self)@.energy_production.push(x),
                        ..old(self)@
                    },
                }),
                None => r matches Err(e) && e@ == ErrorModel::NumericParse(payload@) && final(self)@
                    == old(self)@,
            },
    {
        let cs = str_to_chars(payload);
        proof {
            reveal_strlit("*kWh");
        }
        let stripped = strip_suffix_chars(cs.as_slice(), "*kWh");
        match parse_decimal_chars(stripped.as_slice()) {
            Some(x) => {
                match kind {
                    EnergyKind::Consumption => self.energy_consumption.push(x),
                    EnergyKind::Production => self.energy_production.push(x),
                }
                proof {
                    assert(self@ =~= (match kind {
                        EnergyKind::Consumption => TelegramModel {
                            energy_consumption: old(self)@.energy_consumption.push(x),
                            ..old(self)@
                        },
                        EnergyKind::Production => TelegramModel {
                            energy_production: old(self)@.energy_production.push(x),
                            ..old(self)@
                        },
                    }));
                }
                Ok(())
            },
            None => Err(DecodeError::NumericParse(chars_to_string(cs.as_slice()))),
        }
    }

    /// Scales a parsed gas reading by the factor the most recent gas model
    /// declares and appends it to the active context's gas sequence; a
    /// model that is none of G4, G5, G6 is fatal.
    pub fn handle_gas_consumption(
        &mut self,
        parsed_value: i64,
        last_gas_model: &str,
        ctx: NestingContext,
    ) -> (r: Result<(), DecodeError>)
        requires
            -10_000_000_000_000_000i64 < parsed_value < 10_000_000_000_000_000i64,
        ensures
            match spec_gas_scale(last_gas_model@) {
                Some(f) => r is Ok && final(self)@ == spec_push_gas(
                    old(self)@,
                    ctx,
                    (parsed_value * f) as i64,
                ),
                None => r matches Err(e) && e@ == ErrorModel::UnknownGasModel(last_gas_model@)
                    && final(self)@ == old(self)@,
            },
    {
        let cs = str_to_chars(last_gas_model);
        let c = cs.as_slice();
        let scaled: i64;
        if crate::text::chars_eq_str(c, "G4") {
            scaled = parsed_value;
        } else if crate::text::chars_eq_str(c, "G5") {
            scaled = parsed_value * 10;
        } else if crate::text::chars_eq_str(c, "G6") {
            scaled = parsed_value * 100;
        } else {
            return Err(DecodeError::UnknownGasModel(chars_to_string(c)));
        }
        match ctx {
            NestingContext::Root => self.gas_consumption.push(scaled),
            NestingContext::InChild(ChildSlot::Slot1) => self.child_telegram1.gas_consumption.push(
                scaled,
            ),
            NestingContext::InChild(ChildSlot::Slot2) => self.child_telegram2.gas_consumption.push(
                scaled,
            ),
            NestingContext::InChild(ChildSlot::Slot3) => self.child_telegram3.gas_consumption.push(
                scaled,
            ),
        }
        proof {
            assert(self@ =~= spec_push_gas(
                old(self)@,
                ctx,
                (parsed_value * spec_gas_scale(last_gas_model@).unwrap()) as i64,
            ));
        }
        Ok(())
    }

    /// Appends the gas readings of all three child records onto the root's
    /// gas sequence, in slot order, as the final merge step of decoding.
    pub fn merge_child_gas(&mut self)
        ensures
            final(self)@ == spec_merge_gas(old(self)@),
    {
        let ghost m0 = self@;
        let n1 = self.child_telegram1.gas_consumption.len();
        let mut j: usize = 0;
        while j < n1
            invariant
                n1 == self.child_telegram1.gas_consumption@.len(),
                j <= n1,
                self@ == (TelegramModel {
                    gas_consumption: m0.gas_consumption
                        + m0.child_telegram1.gas_consumption.take(j as int),
                    ..m0
                }),
            decreases n1 - j,
        {
            let x = self.child_telegram1.gas_consumption[j];
            self.gas_consumption.push(x);
            j = j + 1;
            proof {
                assert(m0.gas_consumption + m0.child_telegram1.gas_consumption.take(j as int)
                    =~= (m0.gas_consumption + m0.child_telegram1.gas_consumption.take(j - 1)).push(
                    x,
                ));
                assert(self@ =~= (TelegramModel {
                    gas_consumption: m0.gas_consumption
                        + m0.child_telegram1.gas_consumption.take(j as int),
                    ..m0
                }));
            }
        }
        proof {
            assert(m0.child_telegram1.gas_consumption.take(n1 as int)
                =~= m0.child_telegram1.gas_consumption);
        }
        let ghost m1 = self@;
        let n2 = self.child_telegram2.gas_consumption.len();
        let mut j2: usize = 0;
        while j2 < n2
            invariant
                n2 == self.child_telegram2.gas_consumption@.len(),
                j2 <= n2,
                self@ == (TelegramModel {
                    gas_consumption: m1.gas_consumption
                        + m1.child_telegram2.gas_consumption.take(j2 as int),
                    ..m1
                }),
            decreases n2 - j2,
        {
            let x = self.child_telegram2.gas_consumption[j2];
            self.gas_consumption.push(x);
            j2 = j2 + 1;
            proof {
                assert(m1.gas_consumption + m1.child_telegram2.gas_consumption.take(j2 as int)
                    =~= (m1.gas_consumption + m1.child_telegram2.gas_consumption.take(j2 - 1)).push(
                    x,
                ));
                assert(self@ =~= (TelegramModel {
                    gas_consumption: m1.gas_consumption
                        + m1.child_telegram2.gas_consumption.take(j2 as int),
                    ..m1
                }));
            }
        }
        proof {
            assert(m1.child_telegram2.gas_consumption.take(n2 as int)
                =~= m1.child_telegram2.gas_consumption);
        }
        let ghost m2 = self@;
        let n3 = self.child_telegram3.gas_consumption.len();
        let mut j3: usize = 0;
        while j3 < n3
            invariant
                n3 == self.child_telegram3.gas_consumption@.len(),
                j3 <= n3,
                self@ == (TelegramModel {
                    gas_consumption: m2.gas_consumption
                        + m2.child_telegram3.gas_consumption.take(j3 as int),
                    ..m2
                }),
            decreases n3 - j3,
        {
            let x = self.child_telegram3.gas_consumption[j3];
            self.gas_consumption.push(x);
            j3 = j3 + 1;
            proof {
                assert(m2.gas_consumption + m2.child_telegram3.gas_consumption.take(j3 as int)
                    =~= (m2.gas_consumption + m2.child_telegram3.gas_consumption.take(j3 - 1)).push(
                    x,
                ));
                assert(self@ =~= (TelegramModel {
                    gas_consumption: m2.gas_consumption
                        + m2.child_telegram3.gas_consumption.take(j3 as int),
                    ..m2
                }));
            }
        }
        proof {
            assert(m2.child_telegram3.gas_consumption.take(n3 as int)
                =~= m2.child_telegram3.gas_consumption);
            assert(self@ =~= spec_merge_gas(m0));
        }
    }
}

impl core::default::Default for Telegram {
    /// An empty record.
    fn default() -> (t: Telegram)
        ensures
            t@ == spec_empty_record(),
    {
        Telegram::empty()
    }
}

/// The completed record with every child's gas readings appended onto the
/// root's gas sequence, in slot order.
pub open spec fn spec_merge_gas(m: TelegramModel) -> TelegramModel {
    TelegramModel {
        gas_consumption: m.gas_consumption + m.child_telegram1.gas_consumption
            + m.child_telegram2.gas_consumption + m.child_telegram3.gas_consumption,
        ..m
    }
}

} // verus!
