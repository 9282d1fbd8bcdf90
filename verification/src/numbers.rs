//! Numeric payload parsing.
//!
//! Whole-number payloads (water readings) parse to `u64`. Fractional
//! payloads (voltage, current, power, energy, gas) parse to an exact
//! fixed-point value in millionths of a unit, held in an `i64`, so that
//! unit scaling and differencing stay exact integer arithmetic.

use vstd::prelude::*;
use crate::split::first_idx;
use crate::split::lemma_first_idx_at;
use crate::split::lemma_first_idx_bounds;
use crate::split::spec_split;

verus! {

/// One million: the fixed-point denominator of fractional readings.
pub const MICRO: i64 = 1_000_000;

pub open spec fn is_digit(c: char) -> bool {
    '0' <= c && c <= '9'
}

pub open spec fn digit_val(c: char) -> int {
    c as int - '0' as int
}

pub open spec fn all_digits(s: Seq<char>) -> bool {
    forall|j: int| 0 <= j < s.len() ==> is_digit(s[j])
}

/// Value of a digit string, most significant digit first.
pub open spec fn digits_val(s: Seq<char>) -> int
    decreases s.len(),
{
    if s.len() == 0 {
        0
    } else {
        digits_val(s.drop_last()) * 10 + digit_val(s[s.len() - 1])
    }
}

pub open spec fn pow10(n: nat) -> int
    decreases n,
{
    if n == 0 {
        1
    } else {
        10 * pow10((n - 1) as nat)
    }
}

pub proof fn lemma_digits_val_bounds(s: Seq<char>)
    requires
        all_digits(s),
    ensures
        0 <= digits_val(s) < pow10(s.len()),
    decreases s.len(),
{
    if s.len() == 0 {
    } else {
        let t = s.drop_last();
        assert(all_digits(t));
        lemma_digits_val_bounds(t);
        assert(0 <= digit_val(s[s.len() - 1]) <= 9);
    }
}

pub proof fn lemma_pow10_pos(a: nat)
    ensures
        pow10(a) >= 1,
    decreases a,
{
    if a > 0 {
        lemma_pow10_pos((a - 1) as nat);
    }
}

pub proof fn lemma_pow10_mono(a: nat, b: nat)
    requires
        a <= b,
    ensures
        1 <= pow10(a) <= pow10(b),
    decreases b,
{
    lemma_pow10_pos(a);
    if a < b {
        lemma_pow10_mono(a, (b - 1) as nat);
        lemma_pow10_pos((b - 1) as nat);
    }
}

proof fn lemma_pow10_add(a: nat, b: nat)
    ensures
        pow10(a) * pow10(b) == pow10((a + b) as nat),
    decreases a,
{
    if a == 0 {
    } else {
        lemma_pow10_add((a - 1) as nat, b);
        assert(pow10(a) * pow10(b) == 10 * (pow10((a - 1) as nat) * pow10(b))) by (nonlinear_arith)
            requires
                pow10(a) == 10 * pow10((a - 1) as nat),
        ;
    }
}

proof fn lemma_pow10_mul_bound(fr: Seq<char>, e: nat)
    requires
        all_digits(fr),
        fr.len() + e == 6,
    ensures
        0 <= digits_val(fr) * pow10(e) < 1_000_000,
{
    lemma_digits_val_bounds(fr);
    lemma_pow10_mono(0, e);
    assert(digits_val(fr) * pow10(e) <= (pow10(fr.len()) - 1) * pow10(e)) by (nonlinear_arith)
        requires
            0 <= digits_val(fr) <= pow10(fr.len()) - 1,
            pow10(e) >= 1,
    ;
    assert(digits_val(fr) * pow10(e) >= 0) by (nonlinear_arith)
        requires
            digits_val(fr) >= 0,
            pow10(e) >= 1,
    ;
    assert(pow10(fr.len()) * pow10(e) == pow10(6)) by {
        lemma_pow10_add(fr.len(), e);
    }
    assert((pow10(fr.len()) - 1) * pow10(e) == pow10(fr.len()) * pow10(e) - pow10(e))
        by (nonlinear_arith);
    reveal_with_fuel(pow10, 7);
}

/// Every split of a text has at least one token.
proof fn lemma_spec_split_min_len(s: Seq<char>, sep: char)
    ensures
        spec_split(s, sep).len() >= 1,
    decreases s.len(),
{
    lemma_first_idx_bounds(s, sep);
    if first_idx(s, sep) < s.len() {
        lemma_spec_split_min_len(s.subrange(first_idx(s, sep) + 1, s.len() as int), sep);
    }
}

/// Parses up to `max_len` digits; `None` on any non-digit or if too long.
fn parse_digits_bounded(v: &[char], max_len: u32) -> (r: Option<u64>)
    requires
        max_len <= 18,
    ensures
        match r {
            Some(x) => all_digits(v@) && v@.len() <= max_len && x == digits_val(v@),
            None => v@.len() > max_len || !all_digits(v@),
        },
{
    let n = v.len();
    if n > max_len as usize {
        return None;
    }
    let mut acc: u64 = 0;
    let mut i: usize = 0;
    proof {
        reveal_with_fuel(pow10, 19);
        assert(v@.take(0) =~= Seq::<char>::empty());
    }
    while i < n
        invariant
            n == v@.len(),
            n <= 18,
            i <= n,
            all_digits(v@.take(i as int)),
            acc == digits_val(v@.take(i as int)),
            acc < pow10(i as nat),
            pow10(18) == 1_000_000_000_000_000_000,
        decreases n - i,
    {
        let c = v[i];
        if !('0' <= c && c <= '9') {
            proof {
                assert(!is_digit(v@[i as int]));
            }
            return None;
        }
        let d: u64 = (c as u32 - '0' as u32) as u64;
        proof {
            assert(v@.take(i + 1).drop_last() =~= v@.take(i as int));
            assert(v@.take(i + 1)[i as int] == v@[i as int]);
            lemma_pow10_mono(i as nat, 17);
        }
        acc = acc * 10 + d;
        i = i + 1;
    }
    proof {
        assert(v@.take(n as int) =~= v@);
    }
    Some(acc)
}

/// A whole-number payload: between one and eighteen decimal digits.
pub open spec fn spec_parse_u64(s: Seq<char>) -> Option<u64> {
    if 1 <= s.len() <= 18 && all_digits(s) {
        Some(digits_val(s) as u64)
    } else {
        None
    }
}

/// Parses a whole-number payload.
pub fn parse_u64_chars(v: &[char]) -> (r: Option<u64>)
    ensures
        r == spec_parse_u64(v@),
{
    if v.len() < 1 {
        return None;
    }
    match parse_digits_bounded(v, 18) {
        Some(x) => {
            proof {
                reveal_with_fuel(pow10, 19);
                lemma_digits_val_bounds(v@);
                lemma_pow10_mono(v@.len() as nat, 18);
            }
            Some(x)
        },
        None => None,
    }
}

/// A small whole number of up to five digits that fits a `u16`.
pub open spec fn spec_parse_u16(s: Seq<char>) -> Option<u16> {
    if 1 <= s.len() <= 5 && all_digits(s) && digits_val(s) <= 65535 {
        Some(digits_val(s) as u16)
    } else {
        None
    }
}

/// Parses a small whole number to `u16`.
pub fn parse_u16_chars(v: &[char]) -> (r: Option<u16>)
    ensures
        r == spec_parse_u16(v@),
{
    if v.len() < 1 {
        return None;
    }
    match parse_digits_bounded(v, 5) {
        Some(x) => {
            proof {
                reveal_with_fuel(pow10, 6);
                lemma_digits_val_bounds(v@);
                lemma_pow10_mono(v@.len() as nat, 5);
            }
            if x <= 65535 {
                Some(x as u16)
            } else {
                None
            }
        },
        None => None,
    }
}

/// A small whole number of up to three digits that fits a `u8`.
pub open spec fn spec_parse_u8(s: Seq<char>) -> Option<u8> {
    if 1 <= s.len() <= 3 && all_digits(s) && digits_val(s) <= 255 {
        Some(digits_val(s) as u8)
    } else {
        None
    }
}

/// Parses a small whole number to `u8`.
pub fn parse_u8_chars(v: &[char]) -> (r: Option<u8>)
    ensures
        r == spec_parse_u8(v@),
{
    if v.len() < 1 {
        return None;
    }
    match parse_digits_bounded(v, 3) {
        Some(x) => {
            proof {
                reveal_with_fuel(pow10, 4);
                lemma_digits_val_bounds(v@);
                lemma_pow10_mono(v@.len() as nat, 3);
            }
            if x <= 255 {
                Some(x as u8)
            } else {
                None
            }
        },
        None => None,
    }
}

/// Magnitude of a fractional payload: an integer part of up to ten digits,
/// optionally followed by a point and up to six fractional digits. The
/// result is in millionths.
pub open spec fn spec_parse_dec_mag(s: Seq<char>) -> Option<i64> {
    let parts = spec_split(s, '.');
    if parts.len() == 1 && 1 <= s.len() <= 10 && all_digits(s) {
        Some((digits_val(s) * MICRO) as i64)
    } else if parts.len() == 2 && 1 <= parts[0].len() <= 10 && all_digits(parts[0]) && parts[1].len()
        <= 6 && all_digits(parts[1]) {
        Some(
            (digits_val(parts[0]) * MICRO + digits_val(parts[1]) * pow10(
                (6 - parts[1].len()) as nat,
            )) as i64,
        )
    } else {
        None
    }
}

/// A fractional payload: the magnitude with an optional leading sign.
pub open spec fn spec_parse_decimal(s: Seq<char>) -> Option<i64> {
    if s.len() > 0 && (s[0] == '-' || s[0] == '+') {
        match spec_parse_dec_mag(s.drop_first()) {
            Some(m) => Some(if s[0] == '-' { (-m) as i64 } else { m }),
            None => None,
        }
    } else {
        spec_parse_dec_mag(s)
    }
}

/// Every parsed magnitude is far below the scale at which the gas
/// normalizer's hundredfold factor could overflow.
pub proof fn lemma_parse_dec_mag_bound(s: Seq<char>)
    ensures
        match spec_parse_dec_mag(s) {
            Some(m) => 0 <= m < 10_000_000_000_000_000i64,
            None => true,
        },
{
    reveal_with_fuel(pow10, 11);
    let parts = spec_split(s, '.');
    if parts.len() == 1 && 1 <= s.len() <= 10 && all_digits(s) {
        lemma_digits_val_bounds(s);
        lemma_pow10_mono(s.len(), 10);
    } else if parts.len() == 2 && 1 <= parts[0].len() <= 10 && all_digits(parts[0]) && parts[1].len()
        <= 6 && all_digits(parts[1]) {
        lemma_digits_val_bounds(parts[0]);
        lemma_pow10_mono(parts[0].len(), 10);
        lemma_pow10_mul_bound(parts[1], (6 - parts[1].len()) as nat);
    }
}

/// The same bound for a signed payload.
pub proof fn lemma_parse_decimal_bound(s: Seq<char>)
    ensures
        match spec_parse_decimal(s) {
            Some(m) => -10_000_000_000_000_000i64 < m < 10_000_000_000_000_000i64,
            None => true,
        },
{
    if s.len() > 0 && (s[0] == '-' || s[0] == '+') {
        lemma_parse_dec_mag_bound(s.drop_first());
    } else {
        lemma_parse_dec_mag_bound(s);
    }
}

/// Ten to a small power, executably.
fn pow10_u64(e: u32) -> (r: u64)
    requires
        e <= 6,
    ensures
        r == pow10(e as nat),
{
    proof {
        reveal_with_fuel(pow10, 7);
    }
    let mut r: u64 = 1;
    let mut i: u32 = 0;
    while i < e
        invariant
            i <= e,
            e <= 6,
            r == pow10(i as nat),
            pow10(6) == 1_000_000,
        decreases e - i,
    {
        proof {
            lemma_pow10_mono(i as nat, 5);
        }
        r = r * 10;
        i = i + 1;
    }
    r
}

/// Parses the magnitude of a fractional payload to millionths.
fn parse_dec_mag_chars(v: &[char]) -> (r: Option<i64>)
    ensures
        r == spec_parse_dec_mag(v@),
{
    let n = v.len();
    // Scan to the first point, if any.
    let mut i: usize = 0;
    while i < n && v[i] != '.'
        invariant
            n == v@.len(),
            i <= n,
            forall|j: int| 0 <= j < i ==> v@[j] != '.',
        decreases n - i,
    {
        i = i + 1;
    }
    let dot = i;
    proof {
        reveal_with_fuel(pow10, 11);
        lemma_first_idx_at(v@, '.', dot as int);
    }
    if dot == n {
        proof {
            assert(spec_split(v@, '.') =~= seq![v@]);
        }
        // No point: a whole number of units.
        if n < 1 || n > 10 {
            return None;
        }
        match parse_digits_bounded(v, 10) {
            Some(ip) => {
                proof {
                    lemma_digits_val_bounds(v@);
                    lemma_pow10_mono(v@.len() as nat, 10);
                }
                Some((ip as i64) * MICRO)
            },
            None => None,
        }
    } else {
        let ip_part = &v[0..dot];
        let fp_part = &v[dot + 1..n];
        let ghost parts = spec_split(v@, '.');
        proof {
            lemma_spec_split_min_len(fp_part@, '.');
            assert(parts[0] == v@.subrange(0, dot as int));
            assert(parts.subrange(1, parts.len() as int) =~= spec_split(fp_part@, '.'));
        }
        // A second point in the tail makes three parts; no branch of the
        // grammar accepts that.
        let mut j: usize = 0;
        let fn_ = fp_part.len();
        while j < fn_ && fp_part[j] != '.'
            invariant
                fn_ == fp_part@.len(),
                j <= fn_,
                forall|k: int| 0 <= k < j ==> fp_part@[k] != '.',
            decreases fn_ - j,
        {
            j = j + 1;
        }
        if j < fn_ {
            proof {
                lemma_first_idx_at(fp_part@, '.', j as int);
                assert(first_idx(fp_part@, '.') < fp_part@.len());
                lemma_spec_split_min_len(
                    fp_part@.subrange(j + 1, fp_part@.len() as int),
                    '.',
                );
                assert(spec_split(fp_part@, '.').len() >= 2);
                assert(parts.len() >= 3);
            }
            return None;
        }
        proof {
            lemma_first_idx_at(fp_part@, '.', fn_ as int);
            assert(spec_split(fp_part@, '.') =~= seq![fp_part@]);
            assert(parts.len() == 2);
            assert(parts[1] == fp_part@);
        }
        let ipn = ip_part.len();
        if ipn < 1 || ipn > 10 || fn_ > 6 {
            return None;
        }
        match parse_digits_bounded(ip_part, 10) {
            Some(ip) => {
                match parse_digits_bounded(fp_part, 6) {
                    Some(fp) => {
                        let scale = pow10_u64(6 - fn_ as u32);
                        proof {
                            reveal_with_fuel(pow10, 11);
                            lemma_digits_val_bounds(ip_part@);
                            lemma_pow10_mono(ip_part@.len() as nat, 10);
                            lemma_digits_val_bounds(fp_part@);
                            lemma_pow10_mono(fp_part@.len() as nat, 6);
                            lemma_pow10_mono((6 - fp_part@.len()) as nat, 6);
                            lemma_pow10_mul_bound(fp_part@, (6 - fp_part@.len()) as nat);
                            assert((fp as int) * (scale as int) == digits_val(fp_part@) * pow10(
                                (6 - fp_part@.len()) as nat,
                            ));
                        }
                        Some((ip as i64) * MICRO + (fp as i64) * (scale as i64))
                    },
                    None => None,
                }
            },
            None => None,
        }
    }
}

/// Parses a fractional payload (optional sign, digits, optional point and
/// up to six fractional digits) to millionths of a unit.
pub fn parse_decimal_chars(v: &[char]) -> (r: Option<i64>)
    ensures
        r == spec_parse_decimal(v@),
{
    if v.len() > 0 && (v[0] == '-' || v[0] == '+') {
        let neg = v[0] == '-';
        let mag = parse_dec_mag_chars(&v[1..v.len()]);
        proof {
            assert(v@.subrange(1, v@.len() as int) =~= v@.drop_first());
            lemma_parse_dec_mag_bound(v@.drop_first());
        }
        match mag {
            Some(m) => if neg {
                Some(-m)
            } else {
                Some(m)
            },
            None => None,
        }
    } else {
        parse_dec_mag_chars(v)
    }
}

} // verus!
