//! The telegram decoder: a strict left-to-right fold over the input lines.
//!
//! `spec_decode` is the mathematical decoder: it reads the version and
//! extension from their fixed character positions, folds every line
//! through the key classifier and the record handlers while tracking the
//! nesting context, derives epoch timestamps from the root's dates, and
//! merges child gas readings onto the root. `parse` computes exactly that.

use vstd::prelude::*;
use vstd::string::StringExecFns;
use crate::date::spec_timestamps;
use crate::date::parse_datetime;
use crate::date::timestamp_of;
use crate::error::DecodeError;
use crate::error::ErrorModel;
use crate::hexmsg::spec_hex_decode;
use crate::hexmsg::hex_string;
use crate::keys::Keys;
use crate::keys::Versions;
use crate::keys::classify_key;
use crate::keys::spec_classify;
use crate::keys::spec_telegram_ver;
use crate::keys::spec_version_ext;
use crate::keys::telegram_ver;
use crate::keys::version_ext;
use crate::numbers::lemma_parse_decimal_bound;
use crate::numbers::parse_decimal_chars;
use crate::numbers::spec_parse_decimal;
use crate::numbers::spec_parse_u64;
use crate::record::EnergyKind;
use crate::record::NestingContext;
use crate::record::Phase;
use crate::record::Telegram;
use crate::record::TelegramModel;
use crate::record::spec_ctx_gas_models;
use crate::record::spec_empty_record;
use crate::record::spec_gas_scale;
use crate::record::spec_merge_gas;
use crate::record::spec_push_child_end;
use crate::record::spec_push_child_start;
use crate::record::spec_push_date;
use crate::record::spec_push_gas;
use crate::record::spec_push_gas_model;
use crate::record::strs_view;
use crate::split::chars_vecs_view;
use crate::split::spec_lines;
use crate::split::spec_split;
use crate::split::split_into_lines;
use crate::split::split_on;
use crate::text::chars_of_slice;
use crate::text::chars_to_string;
use crate::text::spec_strip_suffix;
use crate::text::spec_trim_parens;
use crate::text::str_to_chars;
use crate::text::strip_suffix_chars;
use crate::text::trim_parens_chars;
use crate::validate::spec_validate;
use crate::validate::validate;

verus! {

/// A split line: the id token before the `#`, and the payload after it
/// with enclosing parentheses stripped. A line without exactly one `#` is
/// the line-break sentinel with an empty payload.
pub open spec fn spec_split_line(line: Seq<char>) -> (Seq<char>, Seq<char>) {
    let parts = spec_split(line, '#');
    if parts.len() == 2 {
        (parts[0], spec_trim_parens(parts[1]))
    } else {
        ("LineBreak"@, Seq::empty())
    }
}

/// Splits a raw line into its id token and payload.
fn split_line_chars(v: &[char]) -> (r: (String, String))
    ensures
        (r.0@, r.1@) == spec_split_line(v@),
{
    let parts = split_on(v, '#');
    if parts.len() == 2 {
        proof {
            assert(parts@[0]@ == spec_split(v@, '#')[0]);
            assert(parts@[1]@ == spec_split(v@, '#')[1]);
        }
        let id = chars_to_string(parts[0].as_slice());
        let trimmed = trim_parens_chars(parts[1].as_slice());
        let payload = chars_to_string(trimmed.as_slice());
        (id, payload)
    } else {
        (String::from_str("LineBreak"), String::new())
    }
}

/// Splits a raw line into its id token and payload.
pub fn process_lines(lines: &str) -> (r: (String, String))
    ensures
        (r.0@, r.1@) == spec_split_line(lines@),
{
    let cs = str_to_chars(lines);
    split_line_chars(cs.as_slice())
}

/// State of the fold: the record built so far and the active nesting
/// context.
#[verifier::ext_equal]
pub struct DecState {
    pub rec: TelegramModel,
    pub ctx: NestingContext,
}

/// One step of the fold: split the line, classify its id under the given
/// version, and route the payload. Classification failure, a numeric or
/// gas fault is fatal and carries the offending token.
pub open spec fn spec_step(v: Versions, st: DecState, line: Seq<char>) -> Result<
    DecState,
    ErrorModel,
> {
    let idp = spec_split_line(line);
    let id = idp.0;
    let payload = idp.1;
    match spec_classify(id, v) {
        None => Err(ErrorModel::Classification(id)),
        Some(k) => match k {
            Keys::Start => Ok(
                DecState {
                    rec: TelegramModel {
                        telegram_start: st.rec.telegram_start.push(payload),
                        ..st.rec
                    },
                    ..st
                },
            ),
            Keys::Date => Ok(DecState { rec: spec_push_date(st.rec, st.ctx, payload), ..st }),
            Keys::End => Ok(
                DecState {
                    rec: TelegramModel { telegram_end: st.rec.telegram_end.push(payload), ..st.rec },
                    ..st
                },
            ),
            Keys::EventLogSeverity => Ok(
                DecState {
                    rec: TelegramModel {
                        event_log_severity: st.rec.event_log_severity.push(payload),
                        ..st.rec
                    },
                    ..st
                },
            ),
            Keys::EventLogMessage => Ok(
                DecState {
                    rec: TelegramModel {
                        event_log_message: st.rec.event_log_message.push(spec_hex_decode(payload)),
                        ..st.rec
                    },
                    ..st
                },
            ),
            Keys::EventLogDate => Ok(
                DecState {
                    rec: TelegramModel {
                        event_log_date: st.rec.event_log_date.push(payload),
                        ..st.rec
                    },
                    ..st
                },
            ),
            Keys::InformationType => Ok(
                DecState {
                    rec: TelegramModel {
                        information_type: st.rec.information_type.push(payload),
                        ..st.rec
                    },
                    ..st
                },
            ),
            Keys::GasModel => Ok(
                DecState { rec: spec_push_gas_model(st.rec, st.ctx, payload), ..st },
            ),
            Keys::GasConsumption => match spec_parse_decimal(
                spec_strip_suffix(payload, "*m3"@),
            ) {
                None => Err(ErrorModel::NumericParse(payload)),
                Some(x) => {
                    let models = spec_ctx_gas_models(st.rec, st.ctx);
                    if models.len() == 0 {
                        Err(ErrorModel::MissingGasModel(payload))
                    } else {
                        match spec_gas_scale(models.last()) {
                            Some(f) => Ok(
                                DecState {
                                    rec: spec_push_gas(st.rec, st.ctx, (x * f) as i64),
                                    ..st
                                },
                            ),
                            None => Err(ErrorModel::UnknownGasModel(models.last())),
                        }
                    }
                },
            },
            Keys::WaterConsumption => match spec_parse_u64(spec_strip_suffix(payload, "*L"@)) {
                Some(x) => Ok(
                    DecState {
                        rec: TelegramModel {
                            water_consumption: st.rec.water_consumption.push(x),
                            ..st.rec
                        },
                        ..st
                    },
                ),
                None => Err(ErrorModel::NumericParse(payload)),
            },
            Keys::VoltageP1 => match spec_parse_decimal(spec_strip_suffix(payload, "*V"@)) {
                Some(x) => Ok(
                    DecState {
                        rec: TelegramModel { voltage_p1: st.rec.voltage_p1.push(x), ..st.rec },
                        ..st
                    },
                ),
                None => Err(ErrorModel::NumericParse(payload)),
            },
            Keys::VoltageP2 => match spec_parse_decimal(spec_strip_suffix(payload, "*V"@)) {
                Some(x) => Ok(
                    DecState {
                        rec: TelegramModel { voltage_p2: st.rec.voltage_p2.push(x), ..st.rec },
                        ..st
                    },
                ),
                None => Err(ErrorModel::NumericParse(payload)),
            },
            Keys::VoltageP3 => match spec_parse_decimal(spec_strip_suffix(payload, "*V"@)) {
                Some(x) => Ok(
                    DecState {
                        rec: TelegramModel { voltage_p3: st.rec.voltage_p3.push(x), ..st.rec },
                        ..st
                    },
                ),
                None => Err(ErrorModel::NumericParse(payload)),
            },
            Keys::CurrentP1 => match spec_parse_decimal(spec_strip_suffix(payload, "*A"@)) {
                Some(x) => Ok(
                    DecState {
                        rec: TelegramModel { current_p1: st.rec.current_p1.push(x), ..st.rec },
                        ..st
                    },
                ),
                None => Err(ErrorModel::NumericParse(payload)),
            },
            Keys::CurrentP2 => match spec_parse_decimal(spec_strip_suffix(payload, "*A"@)) {
                Some(x) => Ok(
                    DecState {
                        rec: TelegramModel { current_p2: st.rec.current_p2.push(x), ..st.rec },
                        ..st
                    },
                ),
                None => Err(ErrorModel::NumericParse(payload)),
            },
            Keys::CurrentP3 => match spec_parse_decimal(spec_strip_suffix(payload, "*A"@)) {
                Some(x) => Ok(
                    DecState {
                        rec: TelegramModel { current_p3: st.rec.current_p3.push(x), ..st.rec },
                        ..st
                    },
                ),
                None => Err(ErrorModel::NumericParse(payload)),
            },
            Keys::PowerP1 => match spec_parse_decimal(spec_strip_suffix(payload, "*kW"@)) {
                Some(x) => Ok(
                    DecState {
                        rec: TelegramModel { power_p1: st.rec.power_p1.push(x), ..st.rec },
                        ..st
                    },
                ),
                None => Err(ErrorModel::NumericParse(payload)),
            },
            Keys::PowerP2 => match spec_parse_decimal(spec_strip_suffix(payload, "*kW"@)) {
                Some(x) => Ok(
                    DecState {
                        rec: TelegramModel { power_p2: st.rec.power_p2.push(x), ..st.rec },
                        ..st
                    },
                ),
                None => Err(ErrorModel::NumericParse(payload)),
            },
            Keys::PowerP3 => match spec_parse_decimal(spec_strip_suffix(payload, "*kW"@)) {
                Some(x) => Ok(
                    DecState {
                        rec: TelegramModel { power_p3: st.rec.power_p3.push(x), ..st.rec },
                        ..st
                    },
                ),
                None => Err(ErrorModel::NumericParse(payload)),
            },
            Keys::EnergyConsumption => match spec_parse_decimal(
                spec_strip_suffix(payload, "*kWh"@),
            ) {
                Some(x) => Ok(
                    DecState {
                        rec: TelegramModel {
                            energy_consumption: st.rec.energy_consumption.push(x),
                            ..st.rec
                        },
                        ..st
                    },
                ),
                None => Err(ErrorModel::NumericParse(payload)),
            },
            Keys::EnergyProduction => match spec_parse_decimal(
                spec_strip_suffix(payload, "*kWh"@),
            ) {
                Some(x) => Ok(
                    DecState {
                        rec: TelegramModel {
                            energy_production: st.rec.energy_production.push(x),
                            ..st.rec
                        },
                        ..st
                    },
                ),
                None => Err(ErrorModel::NumericParse(payload)),
            },
            Keys::LineBreak => Ok(st),
            Keys::ChildStart(slot) => Ok(
                DecState {
                    rec: spec_push_child_start(st.rec, slot, payload),
                    ctx: NestingContext::InChild(slot),
                },
            ),
            Keys::ChildEnd(slot) => Ok(
                DecState {
                    rec: spec_push_child_end(st.rec, slot, payload),
                    ctx: NestingContext::Root,
                },
            ),
        },
    }
}

/// The fold of `spec_step` over the lines, stopping at the first error.
pub open spec fn spec_fold(v: Versions, lines: Seq<Seq<char>>, init: DecState) -> Result<
    DecState,
    ErrorModel,
>
    decreases lines.len(),
{
    if lines.len() == 0 {
        Ok(init)
    } else {
        match spec_fold(v, lines.drop_last(), init) {
            Err(e) => Err(e),
            Ok(st) => spec_step(v, st, lines.last()),
        }
    }
}

/// The header facts `parse` establishes before folding: a long-enough
/// input, a recognized version, and the initial state built from the
/// header.
pub open spec fn spec_decode_header(input: Seq<char>, v: Versions, init: DecState) -> bool {
    &&& input.len() >= 8
    &&& spec_telegram_ver(input.subrange(2, 4)) == Some(v)
    &&& init == DecState {
        rec: TelegramModel {
            telegram_version: Some(v),
            telegram_extensions: spec_version_ext(input.subrange(6, 8)),
            ..spec_empty_record()
        },
        ctx: NestingContext::Root,
    }
}

/// The mathematical decoder: what decoding one telegram text returns,
/// for every input.
pub open spec fn spec_decode(input: Seq<char>) -> Result<TelegramModel, ErrorModel> {
    if input.len() < 8 {
        Err(ErrorModel::Version(Seq::empty()))
    } else {
        let vcode = input.subrange(2, 4);
        match spec_telegram_ver(vcode) {
            None => Err(ErrorModel::Version(vcode)),
            Some(v) => {
                let init = DecState {
                    rec: TelegramModel {
                        telegram_version: Some(v),
                        telegram_extensions: spec_version_ext(input.subrange(6, 8)),
                        ..spec_empty_record()
                    },
                    ctx: NestingContext::Root,
                };
                match spec_fold(v, spec_lines(input), init) {
                    Err(e) => Err(e),
                    Ok(st) => match spec_timestamps(st.rec.telegram_date) {
                        Err(e) => Err(e),
                        Ok(ts) => Ok(
                            spec_merge_gas(
                                TelegramModel { time_stamp: st.rec.time_stamp + ts, ..st.rec },
                            ),
                        ),
                    },
                }
            },
        }
    }
}

/// The model of a decode result: the record's model on success, the
/// error's model on failure.
pub open spec fn spec_result_model(r: Result<Telegram, DecodeError>) -> Result<
    TelegramModel,
    ErrorModel,
> {
    match r {
        Ok(t) => Ok(t@),
        Err(e) => Err(e@),
    }
}

/// An error reached at any prefix of the fold is the fold's result.
proof fn lemma_fold_err_persists(v: Versions, lines: Seq<Seq<char>>, init: DecState, i: int)
    requires
        0 <= i <= lines.len(),
        spec_fold(v, lines.take(i), init) is Err,
    ensures
        spec_fold(v, lines, init) == spec_fold(v, lines.take(i), init),
    decreases lines.len() - i,
{
    if i == lines.len() {
        assert(lines.take(i) =~= lines);
    } else {
        assert(lines.take(i + 1).drop_last() =~= lines.take(i));
        assert(spec_fold(v, lines.take(i + 1), init) == spec_fold(v, lines.take(i), init));
        lemma_fold_err_persists(v, lines, init, i + 1);
    }
}

/// A failing step at line `i` decides the whole decode.
proof fn lemma_decode_err_from_step(
    input: Seq<char>,
    v: Versions,
    init: DecState,
    i: int,
    st: DecState,
    e: ErrorModel,
)
    requires
        spec_decode_header(input, v, init),
        0 <= i < spec_lines(input).len(),
        spec_fold(v, spec_lines(input).take(i), init) == Ok::<DecState, ErrorModel>(st),
        spec_step(v, st, spec_lines(input)[i]) == Err::<DecState, ErrorModel>(e),
    ensures
        spec_decode(input) == Err::<TelegramModel, ErrorModel>(e),
{
    let lv = spec_lines(input);
    assert(lv.take(i + 1).drop_last() =~= lv.take(i));
    assert(lv.take(i + 1).last() == lv[i]);
    assert(spec_fold(v, lv.take(i + 1), init) == Err::<DecState, ErrorModel>(e));
    lemma_fold_err_persists(v, lv, init, i + 1);
}

/// Derives the timestamps of a date sequence, in order, stopping at the
/// first date that fails to parse.
fn timestamps_of(dates: &Vec<String>) -> (r: Result<Vec<i64>, DecodeError>)
    ensures
        match spec_timestamps(strs_view(dates@)) {
            Ok(ts) => r matches Ok(v) && v@ == ts,
            Err(e) => r matches Err(er) && er@ == e,
        },
{
    let ghost ds = strs_view(dates@);
    let n = dates.len();
    let mut out: Vec<i64> = Vec::new();
    let mut i: usize = 0;
    proof {
        assert(ds.skip(0) =~= ds);
        if spec_timestamps(ds) is Ok {
            assert(out@ + spec_timestamps(ds)->Ok_0 =~= spec_timestamps(ds)->Ok_0);
        }
    }
    while i < n
        invariant
            n == dates@.len(),
            ds == strs_view(dates@),
            i <= n,
            match spec_timestamps(ds.skip(i as int)) {
                Ok(rest) => spec_timestamps(ds) == Ok::<Seq<i64>, ErrorModel>(out@ + rest),
                Err(e) => spec_timestamps(ds) == Err::<Seq<i64>, ErrorModel>(e),
            },
        decreases n - i,
    {
        proof {
            assert(ds.skip(i as int)[0] == ds[i as int]);
            assert(ds[i as int] == dates@[i as int]@);
        }
        match parse_datetime(dates[i].as_str()) {
            None => {
                proof {
                    assert(spec_timestamps(ds.skip(i as int)) == Err::<Seq<i64>, ErrorModel>(
                        ErrorModel::DateParse(ds[i as int]),
                    ));
                }
                return Err(DecodeError::DateParse(dates[i].clone()));
            },
            Some(t) => {
                let ts = timestamp_of(t);
                let ghost prev = out@;
                out.push(ts);
                i = i + 1;
                proof {
                    let tail = ds.skip(i - 1);
                    assert(tail.drop_first() =~= ds.skip(i as int));
                    match spec_timestamps(ds.skip(i as int)) {
                        Ok(rest) => {
                            assert(spec_timestamps(tail) == Ok::<Seq<i64>, ErrorModel>(seq![ts] + rest));
                            assert(prev + (seq![ts] + rest) =~= out@ + rest);
                        },
                        Err(e) => {
                            assert(spec_timestamps(tail) == Err::<Seq<i64>, ErrorModel>(e));
                        },
                    }
                }
            },
        }
    }
    proof {
        assert(ds.skip(n as int) =~= Seq::<Seq<char>>::empty());
        assert(spec_timestamps(ds.skip(n as int)) == Ok::<Seq<i64>, ErrorModel>(Seq::<i64>::empty()));
        assert(out@ + Seq::<i64>::empty() =~= out@);
    }
    Ok(out)
}

/// Parses every root date string and appends the derived epoch
/// timestamps, in order; the first date that fails the grammar is fatal
/// and leaves the record unchanged.
pub fn parse_dates_and_timestamps(telegram: &mut Telegram) -> (r: Result<(), DecodeError>)
    ensures
        match spec_timestamps(old(telegram)@.telegram_date) {
            Ok(ts) => r is Ok && final(telegram)@ == (TelegramModel {
                time_stamp: old(telegram)@.time_stamp + ts,
                ..old(telegram)@
            }),
            Err(e) => r matches Err(er) && er@ == e && final(telegram)@ == old(telegram)@,
        },
{
    let mut ts = match timestamps_of(&telegram.telegram_date) {
        Ok(v) => v,
        Err(e) => {
            return Err(e);
        },
    };
    let ghost before = telegram@;
    telegram.time_stamp.append(&mut ts);
    proof {
        assert(telegram@ =~= (TelegramModel {
            time_stamp: before.time_stamp + (spec_timestamps(before.telegram_date)->Ok_0),
            ..before
        }));
    }
    Ok(())
}

/// Decodes one telegram text into its record, or the first fatal error:
/// exactly `spec_decode` of the input.
#[verifier::rlimit(100)]
pub fn parse(input: &str) -> (r: Result<Telegram, DecodeError>)
    ensures
        spec_result_model(r) == spec_decode(input@),
{
    let cs = str_to_chars(input);
    if cs.len() < 8 {
        return Err(DecodeError::Version(String::new()));
    }
    let vcode_chars = chars_of_slice(&cs.as_slice()[2..4]);
    let vcode = chars_to_string(vcode_chars.as_slice());
    proof {
        assert(vcode@ == input@.subrange(2, 4));
    }
    let version = match telegram_ver(vcode.as_str()) {
        Ok(v) => v,
        Err(e) => {
            return Err(e);
        },
    };
    let ecode_chars = chars_of_slice(&cs.as_slice()[6..8]);
    let ecode = chars_to_string(ecode_chars.as_slice());
    proof {
        assert(ecode@ == input@.subrange(6, 8));
    }
    let ext = match version_ext(ecode.as_str()) {
        Ok(e) => Some(e),
        Err(_) => None,
    };
    let mut telegram = Telegram::empty();
    telegram.set_version(version);
    telegram.set_extensions(ext);
    let mut ctx = NestingContext::Root;
    let ghost init = DecState { rec: telegram@, ctx: ctx };
    proof {
        assert(init.rec =~= (TelegramModel {
            telegram_version: Some(version),
            telegram_extensions: spec_version_ext(input@.subrange(6, 8)),
            ..spec_empty_record()
        }));
        assert(spec_decode_header(input@, version, init));
    }
    let lines = split_into_lines(cs.as_slice());
    let ghost lv = spec_lines(input@);
    let n = lines.len();
    let mut i: usize = 0;
    proof {
        assert(chars_vecs_view(lines@).len() == lines@.len());
        assert(lv.take(0) =~= Seq::<Seq<char>>::empty());
    }
    while i < n
        invariant
            spec_decode_header(input@, version, init),
            lv == spec_lines(input@),
            chars_vecs_view(lines@) == lv,
            n == lines@.len(),
            n == lv.len(),
            i <= n,
            spec_fold(version, lv.take(i as int), init) == Ok::<DecState, ErrorModel>(
                DecState { rec: telegram@, ctx: ctx },
            ),
        decreases n - i,
    {
        let ghost pre = DecState { rec: telegram@, ctx: ctx };
        proof {
            assert(lines@[i as int]@ == lv[i as int]);
        }
        let lp = split_line_chars(lines[i].as_slice());
        let id = lp.0;
        let payload = lp.1;
        match classify_key(id.as_str(), version) {
            Err(e) => {
                proof {
                    lemma_decode_err_from_step(input@, version, init, i as int, pre, e@);
                }
                return Err(e);
            },
            Ok(key) => {
                match key {
                    Keys::Start => {
                        telegram.push_start(payload);
                    },
                    Keys::Date => {
                        telegram.push_date(ctx, payload);
                    },
                    Keys::End => {
                        telegram.push_end(payload);
                    },
                    Keys::EventLogSeverity => {
                        telegram.push_event_log_severity(payload);
                    },
                    Keys::EventLogMessage => {
                        let msg = hex_string(payload.as_str());
                        telegram.push_event_log_message(msg);
                    },
                    Keys::EventLogDate => {
                        telegram.push_event_log_date(payload);
                    },
                    Keys::InformationType => {
                        telegram.push_information_type(payload);
                    },
                    Keys::GasModel => {
                        telegram.handle_gas_model(payload.as_str(), ctx);
                    },
                    Keys::GasConsumption => {
                        let pcs = str_to_chars(payload.as_str());
                        proof {
                            reveal_strlit("*m3");
                        }
                        let stripped = strip_suffix_chars(pcs.as_slice(), "*m3");
                        match parse_decimal_chars(stripped.as_slice()) {
                            None => {
                                let e = DecodeError::NumericParse(payload);
                                proof {
                                    lemma_decode_err_from_step(
                                        input@,
                                        version,
                                        init,
                                        i as int,
                                        pre,
                                        e@,
                                    );
                                }
                                return Err(e);
                            },
                            Some(x) => {
                                match telegram.last_gas_model(ctx) {
                                    None => {
                                        let e = DecodeError::MissingGasModel(payload);
                                        proof {
                                            lemma_decode_err_from_step(
                                                input@,
                                                version,
                                                init,
                                                i as int,
                                                pre,
                                                e@,
                                            );
                                        }
                                        return Err(e);
                                    },
                                    Some(model) => {
                                        proof {
                                            lemma_parse_decimal_bound(
                                                spec_strip_suffix(payload@, "*m3"@),
                                            );
                                        }
                                        match telegram.handle_gas_consumption(
                                            x,
                                            model.as_str(),
                                            ctx,
                                        ) {
                                            Ok(_u) => {
                                            },
                                            Err(e) => {
                                                proof {
                                                    lemma_decode_err_from_step(
                                                        input@,
                                                        version,
                                                        init,
                                                        i as int,
                                                        pre,
                                                        e@,
                                                    );
                                                }
                                                return Err(e);
                                            },
                                        }
                                    },
                                }
                            },
                        }
                    },
                    Keys::WaterConsumption => {
                        match telegram.handle_water(payload.as_str()) {
                            Ok(_u) => {
                            },
                            Err(e) => {
                                proof {
                                    lemma_decode_err_from_step(
                                        input@,
                                        version,
                                        init,
                                        i as int,
                                        pre,
                                        e@,
                                    );
                                }
                                return Err(e);
                            },
                        }
                    },
                    Keys::VoltageP1 => {
                        match telegram.handle_voltage(payload.as_str(), Phase::P1) {
                            Ok(_u) => {
                            },
                            Err(e) => {
                                proof {
                                    lemma_decode_err_from_step(
                                        input@,
                                        version,
                                        init,
                                        i as int,
                                        pre,
                                        e@,
                                    );
                                }
                                return Err(e);
                            },
                        }
                    },
                    Keys::VoltageP2 => {
                        match telegram.handle_voltage(payload.as_str(), Phase::P2) {
                            Ok(_u) => {
                            },
                            Err(e) => {
                                proof {
                                    lemma_decode_err_from_step(
                                        input@,
                                        version,
                                        init,
                                        i as int,
                                        pre,
                                        e@,
                                    );
                                }
                                return Err(e);
                            },
                        }
                    },
                    Keys::VoltageP3 => {
                        match telegram.handle_voltage(payload.as_str(), Phase::P3) {
                            Ok(_u) => {
                            },
                            Err(e) => {
                                proof {
                                    lemma_decode_err_from_step(
                                        input@,
                                        version,
                                        init,
                                        i as int,
                                        pre,
                                        e@,
                                    );
                                }
                                return Err(e);
                            },
                        }
                    },
                    Keys::CurrentP1 => {
                        match telegram.handle_current(payload.as_str(), Phase::P1) {
                            Ok(_u) => {
                            },
                            Err(e) => {
                                proof {
                                    lemma_decode_err_from_step(
                                        input@,
                                        version,
                                        init,
                                        i as int,
                                        pre,
                                        e@,
                                    );
                                }
                                return Err(e);
                            },
                        }
                    },
                    Keys::CurrentP2 => {
                        match telegram.handle_current(payload.as_str(), Phase::P2) {
                            Ok(_u) => {
                            },
                            Err(e) => {
                                proof {
                                    lemma_decode_err_from_step(
                                        input@,
                                        version,
                                        init,
                                        i as int,
                                        pre,
                                        e@,
                                    );
                                }
                                return Err(e);
                            },
                        }
                    },
                    Keys::CurrentP3 => {
                        match telegram.handle_current(payload.as_str(), Phase::P3) {
                            Ok(_u) => {
                            },
                            Err(e) => {
                                proof {
                                    lemma_decode_err_from_step(
                                        input@,
                                        version,
                                        init,
                                        i as int,
                                        pre,
                                        e@,
                                    );
                                }
                                return Err(e);
                            },
                        }
                    },
                    Keys::PowerP1 => {
                        match telegram.handle_power(payload.as_str(), Phase::P1) {
                            Ok(_u) => {
                            },
                            Err(e) => {
                                proof {
                                    lemma_decode_err_from_step(
                                        input@,
                                        version,
                                        init,
                                        i as int,
                                        pre,
                                        e@,
                                    );
                                }
                                return Err(e);
                            },
                        }
                    },
                    Keys::PowerP2 => {
                        match telegram.handle_power(payload.as_str(), Phase::P2) {
                            Ok(_u) => {
                            },
                            Err(e) => {
                                proof {
                                    lemma_decode_err_from_step(
                                        input@,
                                        version,
                                        init,
                                        i as int,
                                        pre,
                                        e@,
                                    );
                                }
                                return Err(e);
                            },
                        }
                    },
                    Keys::PowerP3 => {
                        match telegram.handle_power(payload.as_str(), Phase::P3) {
                            Ok(_u) => {
                            },
                            Err(e) => {
                                proof {
                                    lemma_decode_err_from_step(
                                        input@,
                                        version,
                                        init,
                                        i as int,
                                        pre,
                                        e@,
                                    );
                                }
                                return Err(e);
                            },
                        }
                    },
                    Keys::EnergyConsumption => {
                        match telegram.handle_energy(payload.as_str(), EnergyKind::Consumption) {
                            Ok(_u) => {
                            },
                            Err(e) => {
                                proof {
                                    lemma_decode_err_from_step(
                                        input@,
                                        version,
                                        init,
                                        i as int,
                                        pre,
                                        e@,
                                    );
                                }
                                return Err(e);
                            },
                        }
                    },
                    Keys::EnergyProduction => {
                        match telegram.handle_energy(payload.as_str(), EnergyKind::Production) {
                            Ok(_u) => {
                            },
                            Err(e) => {
                                proof {
                                    lemma_decode_err_from_step(
                                        input@,
                                        version,
                                        init,
                                        i as int,
                                        pre,
                                        e@,
                                    );
                                }
                                return Err(e);
                            },
                        }
                    },
                    Keys::LineBreak => {
                    },
                    Keys::ChildStart(slot) => {
                        telegram.push_child_start(slot, payload);
                        ctx = NestingContext::InChild(slot);
                    },
                    Keys::ChildEnd(slot) => {
                        telegram.push_child_end(slot, payload);
                        ctx = NestingContext::Root;
                    },
                }
                proof {
                    assert(spec_step(version, pre, lv[i as int]) == Ok::<DecState, ErrorModel>(
                        DecState { rec: telegram@, ctx: ctx },
                    ));
                }
            },
        }
        i = i + 1;
        proof {
            assert(lv.take(i as int).drop_last() =~= lv.take(i - 1));
            assert(lv.take(i as int).last() == lv[i - 1]);
            assert(spec_fold(version, lv.take(i as int), init) == Ok::<DecState, ErrorModel>(
                DecState { rec: telegram@, ctx: ctx },
            ));
        }
    }
    proof {
        assert(lv.take(n as int) =~= lv);
    }
    let ghost folded = DecState { rec: telegram@, ctx: ctx };
    match parse_dates_and_timestamps(&mut telegram) {
        Ok(_u) => {
        },
        Err(e) => {
            return Err(e);
        },
    }
    telegram.merge_child_gas();
    proof {
        assert(spec_result_model(Ok(telegram)) == spec_decode(input@));
    }
    Ok(telegram)
}

/// The decoder followed by the cross-field validator: the record on
/// success, the first fatal error (decode or invariant) otherwise.
pub open spec fn spec_decode_checked(input: Seq<char>) -> Result<TelegramModel, ErrorModel> {
    match spec_decode(input) {
        Err(e) => Err(e),
        Ok(m) => match spec_validate(m) {
            Ok(_u) => Ok(m),
            Err(k) => Err(ErrorModel::Invariant(k)),
        },
    }
}

/// Decodes one telegram text and validates the completed record: exactly
/// `spec_decode_checked` of the input.
pub fn decode(input: &str) -> (r: Result<Telegram, DecodeError>)
    ensures
        spec_result_model(r) == spec_decode_checked(input@),
{
    match parse(input) {
        Err(e) => Err(e),
        Ok(t) => match validate(&t) {
            Ok(_u) => Ok(t),
            Err(e) => Err(e),
        },
    }
}

/// Decoding is a pure function of the telegram text: two runs of the
/// decoder on the same input yield the identical result, record for
/// record and byte for byte.
pub proof fn lemma_decode_deterministic(
    input: Seq<char>,
    r1: Result<TelegramModel, ErrorModel>,
    r2: Result<TelegramModel, ErrorModel>,
)
    requires
        r1 == spec_decode(input),
        r2 == spec_decode(input),
    ensures
        r1 == r2,
{
}

} // verus!
