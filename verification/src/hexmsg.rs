//! Hex decoder for event-log message payloads.
//!
//! Pairs of hex digits decode to one byte each, reinterpreted as a
//! character. A malformed pair, or an odd trailing character, is silently
//! dropped: that leniency is part of the protocol, not an error path.

use vstd::prelude::*;
use crate::text::push_char;
use crate::text::str_to_chars;

verus! {

pub open spec fn is_hex_digit(c: char) -> bool {
    ('0' <= c && c <= '9') || ('a' <= c && c <= 'f') || ('A' <= c && c <= 'F')
}

pub open spec fn hex_val(c: char) -> int {
    if '0' <= c && c <= '9' {
        c as int - '0' as int
    } else if 'a' <= c && c <= 'f' {
        c as int - 'a' as int + 10
    } else {
        c as int - 'A' as int + 10
    }
}

/// The character a pair of hex digits decodes to: the byte value,
/// reinterpreted as a character of the same code point.
pub open spec fn hex_pair_char(c1: char, c2: char) -> char {
    ((hex_val(c1) * 16 + hex_val(c2)) as u8) as char
}

/// The decoded text of a hex payload: two characters at a time, valid
/// pairs decode to a byte, anything else is dropped.
pub open spec fn spec_hex_decode(s: Seq<char>) -> Seq<char>
    decreases s.len(),
{
    if s.len() < 2 {
        Seq::empty()
    } else {
        let rest = spec_hex_decode(s.skip(2));
        if is_hex_digit(s[0]) && is_hex_digit(s[1]) {
            seq![hex_pair_char(s[0], s[1])] + rest
        } else {
            rest
        }
    }
}

/// Value of an executable hex digit, or 255 for anything else.
fn hex_digit_value(c: char) -> (r: u8)
    ensures
        is_hex_digit(c) ==> r == hex_val(c),
        !is_hex_digit(c) ==> r == 255,
{
    if '0' <= c && c <= '9' {
        (c as u32 - '0' as u32) as u8
    } else if 'a' <= c && c <= 'f' {
        (c as u32 - 'a' as u32 + 10) as u8
    } else if 'A' <= c && c <= 'F' {
        (c as u32 - 'A' as u32 + 10) as u8
    } else {
        255
    }
}

/// Decodes a string of hex-digit pairs into the message text.
pub fn hex_string(hex_str: &str) -> (r: String)
    ensures
        r@ == spec_hex_decode(hex_str@),
{
    let v = str_to_chars(hex_str);
    let n = v.len();
    let mut out = String::new();
    let mut i: usize = 0;
    proof {
        assert(v@.skip(0) =~= v@);
        assert(out@ + spec_hex_decode(v@) =~= spec_hex_decode(v@));
    }
    while i + 1 < n
        invariant
            n == v@.len(),
            i <= n,
            i % 2 == 0,
            spec_hex_decode(v@) == out@ + spec_hex_decode(v@.skip(i as int)),
        decreases n - i,
    {
        let c1 = v[i];
        let c2 = v[i + 1];
        let d1 = hex_digit_value(c1);
        let d2 = hex_digit_value(c2);
        proof {
            let rest = v@.skip(i as int);
            assert(rest[0] == v@[i as int]);
            assert(rest[1] == v@[i + 1]);
            assert(rest.skip(2) =~= v@.skip(i + 2));
        }
        if d1 <= 15 && d2 <= 15 {
            proof {
                assert(is_hex_digit(c1) && is_hex_digit(c2));
            }
            let b: u8 = d1 * 16 + d2;
            let ghost prev = out@;
            push_char(&mut out, b as char);
            proof {
                assert(out@ =~= prev + seq![hex_pair_char(c1, c2)]);
                assert(prev + (seq![hex_pair_char(c1, c2)] + spec_hex_decode(v@.skip(i + 2)))
                    =~= out@ + spec_hex_decode(v@.skip(i + 2)));
            }
        } else {
            proof {
                assert(!(is_hex_digit(c1) && is_hex_digit(c2)));
            }
        }
        i = i + 2;
    }
    proof {
        assert(v@.skip(i as int).len() < 2);
        assert(spec_hex_decode(v@.skip(i as int)) =~= Seq::<char>::empty());
        assert(out@ + Seq::<char>::empty() =~= out@);
    }
    out
}

} // verus!
