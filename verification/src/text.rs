//! Character-level text utilities shared by the telegram parsers.
//!
//! The parsers work over `Vec<char>` so that every step is visible to the
//! verifier; conversion from and to `String` happens at the edges.

use vstd::prelude::*;

verus! {

/// Whitespace as the date grammar uses it: blank, tab, carriage return,
/// line feed.
pub open spec fn is_ws_char(c: char) -> bool {
    c == ' ' || c == '\t' || c == '\r' || c == '\n'
}

/// The payload delimiters stripped from a split line.
pub open spec fn is_paren_char(c: char) -> bool {
    c == '(' || c == ')'
}

/// Relies on `String::push`: appends exactly one character at the end.
#[verifier::external_body]
pub(crate) fn push_char(s: &mut String, c: char)
    ensures
        final(s)@ == old(s)@.push(c),
{
    s.push(c);
}

/// Collects the characters of a string slice into a vector.
pub fn str_to_chars(s: &str) -> (v: Vec<char>)
    ensures
        v@ == s@,
{
    let n = s.unicode_len();
    let mut v: Vec<char> = Vec::new();
    let mut i: usize = 0;
    while i < n
        invariant
            n == s@.len(),
            i <= n,
            v@ == s@.take(i as int),
        decreases n - i,
    {
        let c = s.get_char(i);
        v.push(c);
        i = i + 1;
        proof {
            assert(s@.take(i as int) =~= s@.take(i - 1).push(s@[i - 1]));
        }
    }
    proof {
        assert(s@.take(n as int) =~= s@);
    }
    v
}

/// Builds a `String` holding exactly the given characters.
pub fn chars_to_string(v: &[char]) -> (s: String)
    ensures
        s@ == v@,
{
    let mut s = String::new();
    let n = v.len();
    let mut i: usize = 0;
    while i < n
        invariant
            n == v@.len(),
            i <= n,
            s@ == v@.take(i as int),
        decreases n - i,
    {
        push_char(&mut s, v[i]);
        i = i + 1;
        proof {
            assert(v@.take(i as int) =~= v@.take(i - 1).push(v@[i - 1]));
        }
    }
    proof {
        assert(v@.take(n as int) =~= v@);
    }
    s
}

/// Copies a slice of characters into a fresh vector.
pub fn chars_of_slice(v: &[char]) -> (r: Vec<char>)
    ensures
        r@ == v@,
{
    let mut r: Vec<char> = Vec::new();
    let n = v.len();
    let mut i: usize = 0;
    while i < n
        invariant
            n == v@.len(),
            i <= n,
            r@ == v@.take(i as int),
        decreases n - i,
    {
        r.push(v[i]);
        i = i + 1;
        proof {
            assert(v@.take(i as int) =~= v@.take(i - 1).push(v@[i - 1]));
        }
    }
    proof {
        assert(v@.take(n as int) =~= v@);
    }
    r
}

/// Compares a character slice with a string slice.
pub fn chars_eq_str(v: &[char], s: &str) -> (r: bool)
    ensures
        r == (v@ == s@),
{
    let n = s.unicode_len();
    if v.len() != n {
        proof {
            assert(v@.len() != s@.len());
        }
        return false;
    }
    let mut i: usize = 0;
    while i < n
        invariant
            n == s@.len(),
            n == v@.len(),
            i <= n,
            forall|j: int| 0 <= j < i ==> v@[j] == s@[j],
        decreases n - i,
    {
        if v[i] != s.get_char(i) {
            proof {
                assert(v@[i as int] != s@[i as int]);
            }
            return false;
        }
        i = i + 1;
    }
    proof {
        assert(v@ =~= s@);
    }
    true
}

/// Does `s` stand at the start of `v`?
pub open spec fn spec_starts_with(v: Seq<char>, p: Seq<char>) -> bool {
    p.len() <= v.len() && v.subrange(0, p.len() as int) == p
}

/// Checks whether the character slice starts with the given string.
pub fn chars_starts_with_str(v: &[char], p: &str) -> (r: bool)
    ensures
        r == spec_starts_with(v@, p@),
{
    let m = p.unicode_len();
    if v.len() < m {
        return false;
    }
    let mut i: usize = 0;
    while i < m
        invariant
            m == p@.len(),
            m <= v@.len(),
            i <= m,
            forall|j: int| 0 <= j < i ==> v@[j] == p@[j],
        decreases m - i,
    {
        if v[i] != p.get_char(i) {
            proof {
                assert(v@.subrange(0, m as int)[i as int] != p@[i as int]);
            }
            return false;
        }
        i = i + 1;
    }
    proof {
        assert(v@.subrange(0, m as int) =~= p@);
    }
    true
}

/// Leading and trailing `(` / `)` characters removed, as the line splitter
/// strips a payload.
pub open spec fn spec_trim_parens(s: Seq<char>) -> Seq<char>
    decreases s.len(),
{
    if s.len() > 0 && is_paren_char(s[0]) {
        spec_trim_parens(s.drop_first())
    } else if s.len() > 0 && is_paren_char(s[s.len() - 1]) {
        spec_trim_parens(s.drop_last())
    } else {
        s
    }
}

proof fn lemma_trim_parens_subrange(s: Seq<char>, lo: int, hi: int)
    requires
        0 <= lo <= hi <= s.len(),
        forall|j: int| 0 <= j < lo ==> is_paren_char(s[j]),
        forall|j: int| hi <= j < s.len() ==> is_paren_char(s[j]),
        lo < hi ==> !is_paren_char(s[lo]) && !is_paren_char(s[hi - 1]),
    ensures
        spec_trim_parens(s) == s.subrange(lo, hi),
    decreases s.len(),
{
    if s.len() == 0 {
        assert(s.subrange(lo, hi) =~= s);
    } else if is_paren_char(s[0]) {
        let t = s.drop_first();
        if lo == 0 {
            // The front character is a paren, so the token is empty.
            assert(lo == hi);
            lemma_trim_parens_subrange(t, 0, 0);
            assert(t.subrange(0, 0) =~= s.subrange(lo, hi));
        } else {
            lemma_trim_parens_subrange(t, lo - 1, hi - 1);
            assert(t.subrange(lo - 1, hi - 1) =~= s.subrange(lo, hi));
        }
    } else if is_paren_char(s[s.len() - 1]) {
        assert(hi <= s.len() - 1) by {
            if hi == s.len() {
                assert(lo < hi);
                assert(!is_paren_char(s[hi - 1]));
            }
        }
        let t = s.drop_last();
        lemma_trim_parens_subrange(t, lo, hi);
        assert(t.subrange(lo, hi) =~= s.subrange(lo, hi));
    } else {
        assert(lo == 0);
        assert(hi == s.len());
        assert(s.subrange(0, s.len() as int) =~= s);
    }
}

/// Strips any enclosing parenthesis characters from both ends.
pub fn trim_parens_chars(v: &[char]) -> (r: Vec<char>)
    ensures
        r@ == spec_trim_parens(v@),
{
    let n = v.len();
    let mut lo: usize = 0;
    while lo < n && (v[lo] == '(' || v[lo] == ')')
        invariant
            n == v@.len(),
            lo <= n,
            forall|j: int| 0 <= j < lo ==> is_paren_char(v@[j]),
        decreases n - lo,
    {
        lo = lo + 1;
    }
    if lo == n {
        proof {
            lemma_trim_parens_subrange(v@, n as int, n as int);
            assert(v@.subrange(n as int, n as int) =~= Seq::<char>::empty());
        }
        return Vec::new();
    }
    let mut hi: usize = n;
    while hi > lo && (v[hi - 1] == '(' || v[hi - 1] == ')')
        invariant
            n == v@.len(),
            lo <= hi <= n,
            lo < n,
            !is_paren_char(v@[lo as int]),
            forall|j: int| hi <= j < n ==> is_paren_char(v@[j]),
        decreases hi,
    {
        hi = hi - 1;
    }
    proof {
        assert(hi > lo);
        lemma_trim_parens_subrange(v@, lo as int, hi as int);
    }
    chars_of_slice(&v[lo..hi])
}

/// The unit suffix `sfx` removed from the end of `s` as many times as it
/// stands there, the way a payload's unit is stripped before numeric parsing.
pub open spec fn spec_strip_suffix(s: Seq<char>, sfx: Seq<char>) -> Seq<char>
    decreases s.len(),
{
    if sfx.len() > 0 && sfx.len() <= s.len() && s.subrange(s.len() - sfx.len(), s.len() as int)
        == sfx {
        spec_strip_suffix(s.subrange(0, s.len() - sfx.len()), sfx)
    } else {
        s
    }
}

/// Checks whether the character slice ends with the given string.
pub fn chars_ends_with_str(v: &[char], s: &str) -> (r: bool)
    ensures
        r == (s@.len() <= v@.len() && v@.subrange(v@.len() - s@.len(), v@.len() as int) == s@),
{
    let m = s.unicode_len();
    let n = v.len();
    if n < m {
        return false;
    }
    let mut i: usize = 0;
    while i < m
        invariant
            m == s@.len(),
            n == v@.len(),
            m <= n,
            i <= m,
            forall|j: int| 0 <= j < i ==> v@[n - m + j] == s@[j],
        decreases m - i,
    {
        if v[n - m + i] != s.get_char(i) {
            proof {
                assert(v@.subrange(n - m, n as int)[i as int] != s@[i as int]);
            }
            return false;
        }
        i = i + 1;
    }
    proof {
        assert(v@.subrange(n - m, n as int) =~= s@);
    }
    true
}

/// Strips every trailing occurrence of the unit suffix.
pub fn strip_suffix_chars(v: &[char], sfx: &str) -> (r: Vec<char>)
    requires
        sfx@.len() > 0,
    ensures
        r@ == spec_strip_suffix(v@, sfx@),
{
    let m = sfx.unicode_len();
    let mut hi: usize = v.len();
    proof {
        assert(v@.subrange(0, v@.len() as int) =~= v@);
    }
    loop
        invariant
            m == sfx@.len(),
            m > 0,
            hi <= v@.len(),
            spec_strip_suffix(v@, sfx@) == spec_strip_suffix(v@.subrange(0, hi as int), sfx@),
        ensures
            hi <= v@.len(),
            spec_strip_suffix(v@, sfx@) == v@.subrange(0, hi as int),
        decreases hi,
    {
        let sub = &v[0..hi];
        if chars_ends_with_str(sub, sfx) {
            proof {
                assert(sub@.subrange(0, hi - m) =~= v@.subrange(0, hi - m));
            }
            hi = hi - m;
        } else {
            proof {
                assert(spec_strip_suffix(sub@, sfx@) == sub@);
            }
            break;
        }
    }
    chars_of_slice(&v[0..hi])
}

} // verus!
