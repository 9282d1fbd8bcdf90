//! The date parser and the calendar collaborator.
//!
//! A date string has the fixed shape `YY-Mon-DD HH:MM:SS (S)` (or `(W)`):
//! three whitespace-separated tokens, a dash-separated date with a
//! three-letter English month abbreviation, a colon-separated time, and a
//! parenthesized daylight-saving flag that is set exactly on `S`. The
//! two-digit year counts from 2000. Conversion of the parsed calendar
//! tuple to an epoch timestamp is delegated to the external calendar
//! collaborator.

use vstd::prelude::*;
use crate::error::ErrorModel;
use crate::numbers::parse_u16_chars;
use crate::numbers::parse_u8_chars;
use crate::numbers::spec_parse_u16;
use crate::numbers::spec_parse_u8;
use crate::split::chars_vecs_view;
use crate::split::spec_split;
use crate::split::spec_split_ws;
use crate::split::split_on;
use crate::split::split_ws;
use crate::text::chars_eq_str;
use crate::text::spec_trim_parens;
use crate::text::str_to_chars;
use crate::text::trim_parens_chars;

verus! {

/// The month number a three-letter English abbreviation stands for.
pub open spec fn spec_month_num(tok: Seq<char>) -> Option<u8> {
    if tok == "Jan"@ {
        Some(1u8)
    } else if tok == "Feb"@ {
        Some(2u8)
    } else if tok == "Mar"@ {
        Some(3u8)
    } else if tok == "Apr"@ {
        Some(4u8)
    } else if tok == "May"@ {
        Some(5u8)
    } else if tok == "Jun"@ {
        Some(6u8)
    } else if tok == "Jul"@ {
        Some(7u8)
    } else if tok == "Aug"@ {
        Some(8u8)
    } else if tok == "Sep"@ {
        Some(9u8)
    } else if tok == "Oct"@ {
        Some(10u8)
    } else if tok == "Nov"@ {
        Some(11u8)
    } else if tok == "Dec"@ {
        Some(12u8)
    } else {
        None
    }
}

fn month_of(v: &[char]) -> (r: Option<u8>)
    ensures
        r == spec_month_num(v@),
{
    if chars_eq_str(v, "Jan") {
        Some(1)
    } else if chars_eq_str(v, "Feb") {
        Some(2)
    } else if chars_eq_str(v, "Mar") {
        Some(3)
    } else if chars_eq_str(v, "Apr") {
        Some(4)
    } else if chars_eq_str(v, "May") {
        Some(5)
    } else if chars_eq_str(v, "Jun") {
        Some(6)
    } else if chars_eq_str(v, "Jul") {
        Some(7)
    } else if chars_eq_str(v, "Aug") {
        Some(8)
    } else if chars_eq_str(v, "Sep") {
        Some(9)
    } else if chars_eq_str(v, "Oct") {
        Some(10)
    } else if chars_eq_str(v, "Nov") {
        Some(11)
    } else if chars_eq_str(v, "Dec") {
        Some(12)
    } else {
        None
    }
}

/// The calendar tuple a date string parses to: year, month, day, hour,
/// minute, second, daylight-saving flag. `None` when the token count, the
/// date- or time-component count, a numeric component, or the month
/// abbreviation is wrong.
pub open spec fn spec_parse_datetime(s: Seq<char>) -> Option<(u16, u8, u8, u8, u8, u8, bool)> {
    let toks = spec_split_ws(s);
    if toks.len() != 3 {
        None
    } else {
        let dp = spec_split(toks[0], '-');
        let tp = spec_split(toks[1], ':');
        if dp.len() != 3 || tp.len() != 3 {
            None
        } else {
            match (spec_parse_u16(dp[0]), spec_month_num(dp[1]), spec_parse_u8(dp[2])) {
                (Some(y0), Some(month), Some(day)) => if y0 <= 63535 {
                    match (spec_parse_u8(tp[0]), spec_parse_u8(tp[1]), spec_parse_u8(tp[2])) {
                        (Some(hour), Some(minute), Some(second)) => Some(
                            (
                                (y0 + 2000) as u16,
                                month,
                                day,
                                hour,
                                minute,
                                second,
                                spec_trim_parens(toks[2]) == "S"@,
                            ),
                        ),
                        _ => None,
                    }
                } else {
                    None
                },
                _ => None,
            }
        }
    }
}

/// Parses a date string of the fixed grammar into its calendar components.
pub fn parse_datetime(input: &str) -> (r: Option<(u16, u8, u8, u8, u8, u8, bool)>)
    ensures
        r == spec_parse_datetime(input@),
{
    let cs = str_to_chars(input);
    let toks = split_ws(cs.as_slice());
    let ghost toks_v = spec_split_ws(input@);
    if toks.len() != 3 {
        return None;
    }
    proof {
        assert(toks@[0]@ == toks_v[0]);
        assert(toks@[1]@ == toks_v[1]);
        assert(toks@[2]@ == toks_v[2]);
    }
    let dp = split_on(toks[0].as_slice(), '-');
    let ghost dp_v = spec_split(toks_v[0], '-');
    let tp = split_on(toks[1].as_slice(), ':');
    let ghost tp_v = spec_split(toks_v[1], ':');
    if dp.len() != 3 || tp.len() != 3 {
        return None;
    }
    proof {
        assert(dp@[0]@ == dp_v[0]);
        assert(dp@[1]@ == dp_v[1]);
        assert(dp@[2]@ == dp_v[2]);
        assert(tp@[0]@ == tp_v[0]);
        assert(tp@[1]@ == tp_v[1]);
        assert(tp@[2]@ == tp_v[2]);
    }
    let y0 = match parse_u16_chars(dp[0].as_slice()) {
        Some(x) => x,
        None => {
            return None;
        },
    };
    let month = match month_of(dp[1].as_slice()) {
        Some(x) => x,
        None => {
            return None;
        },
    };
    let day = match parse_u8_chars(dp[2].as_slice()) {
        Some(x) => x,
        None => {
            return None;
        },
    };
    if y0 > 63535 {
        return None;
    }
    let hour = match parse_u8_chars(tp[0].as_slice()) {
        Some(x) => x,
        None => {
            return None;
        },
    };
    let minute = match parse_u8_chars(tp[1].as_slice()) {
        Some(x) => x,
        None => {
            return None;
        },
    };
    let second = match parse_u8_chars(tp[2].as_slice()) {
        Some(x) => x,
        None => {
            return None;
        },
    };
    let flag = trim_parens_chars(toks[2].as_slice());
    let dst = chars_eq_str(flag.as_slice(), "S");
    Some((y0 + 2000, month, day, hour, minute, second, dst))
}

/// The epoch timestamp the calendar collaborator computes for a calendar
/// tuple, or nothing for components that name no real date or time.
pub uninterp spec fn epoch_of(
    year: u16,
    month: u8,
    day: u8,
    hour: u8,
    minute: u8,
    second: u8,
    dst: bool,
) -> Option<i64>;

/// Relies on `tudelft_dsmr_output_generator::date_to_timestamp`: the
/// timestamp it returns is a function of the calendar components alone,
/// computed against a fixed offset (one hour east, two under daylight
/// saving), and it returns nothing exactly when the components name no
/// real calendar date or time of day.
#[verifier::external_body]
fn calendar_timestamp(
    year: u16,
    month: u8,
    day: u8,
    hour: u8,
    minute: u8,
    second: u8,
    dst: bool,
) -> (r: Option<i64>)
    ensures
        r == epoch_of(year, month, day, hour, minute, second, dst),
{
    tudelft_dsmr_output_generator::date_to_timestamp(year, month, day, hour, minute, second, dst)
}

/// The timestamp recorded for a parsed date: the collaborator's answer,
/// or zero where it has none.
pub open spec fn spec_timestamp_of(t: (u16, u8, u8, u8, u8, u8, bool)) -> i64 {
    match epoch_of(t.0, t.1, t.2, t.3, t.4, t.5, t.6) {
        Some(x) => x,
        None => 0,
    }
}

/// Computes the timestamp recorded for a parsed date.
pub fn timestamp_of(t: (u16, u8, u8, u8, u8, u8, bool)) -> (r: i64)
    ensures
        r == spec_timestamp_of(t),
{
    match calendar_timestamp(t.0, t.1, t.2, t.3, t.4, t.5, t.6) {
        Some(x) => x,
        None => 0,
    }
}

/// The timestamps derived from a date sequence, or the first date that
/// fails to parse.
pub open spec fn spec_timestamps(dates: Seq<Seq<char>>) -> Result<Seq<i64>, ErrorModel>
    decreases dates.len(),
{
    if dates.len() == 0 {
        Ok(Seq::empty())
    } else {
        match spec_parse_datetime(dates[0]) {
            None => Err(ErrorModel::DateParse(dates[0])),
            Some(t) => match spec_timestamps(dates.drop_first()) {
                Err(e) => Err(e),
                Ok(rest) => Ok(seq![spec_timestamp_of(t)] + rest),
            },
        }
    }
}

} // verus!
