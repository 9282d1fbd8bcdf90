//! Splitting text into lines and tokens.
//!
//! `spec_split` mirrors splitting on a separator character (every separator
//! produces a boundary, so empty tokens are kept); `spec_lines` mirrors
//! line splitting (a trailing carriage return is stripped from each line and
//! a final empty segment is dropped); `spec_split_ws` mirrors whitespace
//! tokenization (runs of whitespace separate tokens, no empty tokens).

use vstd::prelude::*;
use crate::text::chars_of_slice;
use crate::text::is_ws_char;

verus! {

/// The sequence of character views of a vector of character vectors.
pub open spec fn chars_vecs_view(s: Seq<Vec<char>>) -> Seq<Seq<char>> {
    Seq::new(s.len(), |i: int| s[i]@)
}

pub proof fn lemma_chars_vecs_view_push(s: Seq<Vec<char>>, x: Vec<char>)
    ensures
        chars_vecs_view(s.push(x)) == chars_vecs_view(s).push(x@),
{
    assert(chars_vecs_view(s.push(x)) =~= chars_vecs_view(s).push(x@));
}

/// Index of the first occurrence of `sep` in `s`, or `s.len()` if none.
pub open spec fn first_idx(s: Seq<char>, sep: char) -> int
    decreases s.len(),
{
    if s.len() == 0 {
        0
    } else if s[0] == sep {
        0
    } else {
        1 + first_idx(s.drop_first(), sep)
    }
}

pub proof fn lemma_first_idx_bounds(s: Seq<char>, sep: char)
    ensures
        0 <= first_idx(s, sep) <= s.len(),
        forall|j: int| 0 <= j < first_idx(s, sep) ==> s[j] != sep,
        first_idx(s, sep) < s.len() ==> s[first_idx(s, sep)] == sep,
    decreases s.len(),
{
    if s.len() == 0 {
    } else if s[0] == sep {
    } else {
        lemma_first_idx_bounds(s.drop_first(), sep);
        assert forall|j: int| 0 <= j < first_idx(s, sep) implies s[j] != sep by {
            if j > 0 {
                assert(s.drop_first()[j - 1] != sep);
            }
        }
    }
}

/// `first_idx` is the unique boundary: no separator before `k`, and either
/// the end of the text or a separator at `k`.
pub proof fn lemma_first_idx_at(s: Seq<char>, sep: char, k: int)
    requires
        0 <= k <= s.len(),
        forall|j: int| 0 <= j < k ==> s[j] != sep,
        k < s.len() ==> s[k] == sep,
    ensures
        first_idx(s, sep) == k,
    decreases s.len(),
{
    if k == 0 {
    } else {
        assert(s[0] != sep);
        let t = s.drop_first();
        assert forall|j: int| 0 <= j < k - 1 implies t[j] != sep by {
            assert(t[j] == s[j + 1]);
        }
        lemma_first_idx_at(t, sep, k - 1);
    }
}

/// `s` split at every occurrence of `sep`; empty tokens are kept, so the
/// result always holds one more token than there are separators.
pub open spec fn spec_split(s: Seq<char>, sep: char) -> Seq<Seq<char>>
    decreases s.len(),
    via spec_split_dec
{
    let i = first_idx(s, sep);
    if i >= s.len() {
        seq![s]
    } else {
        seq![s.subrange(0, i)] + spec_split(s.subrange(i + 1, s.len() as int), sep)
    }
}

#[via_fn]
proof fn spec_split_dec(s: Seq<char>, sep: char) {
    lemma_first_idx_bounds(s, sep);
}

/// Splits a character slice at every occurrence of `sep`.
pub fn split_on(v: &[char], sep: char) -> (parts: Vec<Vec<char>>)
    ensures
        chars_vecs_view(parts@) == spec_split(v@, sep),
{
    let n = v.len();
    let mut parts: Vec<Vec<char>> = Vec::new();
    let mut cur: Vec<char> = Vec::new();
    let mut start: usize = 0;
    let mut i: usize = 0;
    proof {
        assert(v@.subrange(0, n as int) =~= v@);
        assert(chars_vecs_view(parts@) + spec_split(v@, sep) =~= spec_split(v@, sep));
        assert(cur@ =~= v@.subrange(0, 0));
    }
    while i < n
        invariant
            n == v@.len(),
            start <= i <= n,
            cur@ == v@.subrange(start as int, i as int),
            forall|j: int| start <= j < i ==> v@[j] != sep,
            spec_split(v@, sep) == chars_vecs_view(parts@) + spec_split(
                v@.subrange(start as int, n as int),
                sep,
            ),
        decreases n - i,
    {
        if v[i] == sep {
            proof {
                let rest = v@.subrange(start as int, n as int);
                assert forall|j: int| 0 <= j < i - start implies rest[j] != sep by {
                    assert(rest[j] == v@[start + j]);
                }
                lemma_first_idx_at(rest, sep, i - start);
                assert(rest.subrange(0, i - start) =~= v@.subrange(start as int, i as int));
                assert(rest.subrange(i - start + 1, rest.len() as int) =~= v@.subrange(
                    i + 1,
                    n as int,
                ));
                lemma_chars_vecs_view_push(parts@, cur);
                assert((chars_vecs_view(parts@) + seq![cur@]) + spec_split(
                    v@.subrange(i + 1, n as int),
                    sep,
                ) =~= chars_vecs_view(parts@) + (seq![cur@] + spec_split(
                    v@.subrange(i + 1, n as int),
                    sep,
                )));
            }
            parts.push(cur);
            cur = Vec::new();
            i = i + 1;
            start = i;
            proof {
                assert(cur@ =~= v@.subrange(start as int, i as int));
            }
        } else {
            cur.push(v[i]);
            i = i + 1;
            proof {
                assert(cur@ =~= v@.subrange(start as int, i as int));
            }
        }
    }
    proof {
        let rest = v@.subrange(start as int, n as int);
        assert forall|j: int| 0 <= j < rest.len() implies rest[j] != sep by {
            assert(rest[j] == v@[start + j]);
        }
        lemma_first_idx_at(rest, sep, rest.len() as int);
        assert(spec_split(rest, sep) == seq![rest]);
        lemma_chars_vecs_view_push(parts@, cur);
        assert(chars_vecs_view(parts@) + seq![cur@] =~= chars_vecs_view(parts@.push(cur)));
    }
    parts.push(cur);
    parts
}

/// One trailing carriage return removed, as line splitting strips it.
pub open spec fn spec_strip_cr(s: Seq<char>) -> Seq<char> {
    if s.len() > 0 && s[s.len() - 1] == '\r' {
        s.drop_last()
    } else {
        s
    }
}

/// The lines of `s`: split at every line feed, drop a final empty segment
/// (so a trailing newline does not produce an extra line), and strip one
/// trailing carriage return from each line.
pub open spec fn spec_lines(s: Seq<char>) -> Seq<Seq<char>> {
    let raw = spec_split(s, '\n');
    let kept = if raw.len() > 0 && raw[raw.len() - 1].len() == 0 {
        raw.drop_last()
    } else {
        raw
    };
    Seq::new(kept.len(), |i: int| spec_strip_cr(kept[i]))
}

/// Splits telegram text into its lines.
pub fn split_into_lines(v: &[char]) -> (lines: Vec<Vec<char>>)
    ensures
        chars_vecs_view(lines@) == spec_lines(v@),
{
    let mut raw = split_on(v, '\n');
    let raw_n = raw.len();
    proof {
        assert(chars_vecs_view(raw@).len() == raw@.len());
    }
    if raw_n > 0 && raw[raw_n - 1].len() == 0 {
        proof {
            assert(raw@[raw_n - 1]@ == chars_vecs_view(raw@)[raw_n - 1]);
        }
        let ghost prev = raw@;
        raw.pop();
        proof {
            assert(raw@ =~= prev.drop_last());
            assert(chars_vecs_view(prev.drop_last()) =~= chars_vecs_view(prev).drop_last());
        }
    }
    let ghost kept = chars_vecs_view(raw@);
    let n = raw.len();
    let mut lines: Vec<Vec<char>> = Vec::new();
    let mut i: usize = 0;
    while i < n
        invariant
            n == raw@.len(),
            i <= n,
            kept == chars_vecs_view(raw@),
            chars_vecs_view(lines@) =~= Seq::new(i as nat, |j: int| spec_strip_cr(kept[j])),
        decreases n - i,
    {
        let m = raw[i].len();
        let ghost prev_lines = lines@;
        if m > 0 && raw[i][m - 1] == '\r' {
            let line = chars_of_slice(&raw[i].as_slice()[0..m - 1]);
            proof {
                assert(raw@[i as int]@ == kept[i as int]);
                assert(line@ =~= spec_strip_cr(kept[i as int]));
            }
            lines.push(line);
        } else {
            let line = chars_of_slice(raw[i].as_slice());
            proof {
                assert(raw@[i as int]@ == kept[i as int]);
                assert(line@ =~= spec_strip_cr(kept[i as int]));
            }
            lines.push(line);
        }
        i = i + 1;
        proof {
            lemma_chars_vecs_view_push(prev_lines, lines@[lines@.len() - 1]);
            assert(lines@ == prev_lines.push(lines@[lines@.len() - 1]));
            assert(chars_vecs_view(lines@) =~= Seq::new(i as nat, |j: int| spec_strip_cr(kept[j])));
        }
    }
    proof {
        assert(chars_vecs_view(lines@) =~= spec_lines(v@));
    }
    lines
}

/// Index of the first whitespace character in `s`, or `s.len()` if none.
pub open spec fn first_ws(s: Seq<char>) -> int
    decreases s.len(),
{
    if s.len() == 0 {
        0
    } else if is_ws_char(s[0]) {
        0
    } else {
        1 + first_ws(s.drop_first())
    }
}

pub proof fn lemma_first_ws_bounds(s: Seq<char>)
    ensures
        0 <= first_ws(s) <= s.len(),
        forall|j: int| 0 <= j < first_ws(s) ==> !is_ws_char(s[j]),
        first_ws(s) < s.len() ==> is_ws_char(s[first_ws(s)]),
    decreases s.len(),
{
    if s.len() == 0 {
    } else if is_ws_char(s[0]) {
    } else {
        lemma_first_ws_bounds(s.drop_first());
        assert forall|j: int| 0 <= j < first_ws(s) implies !is_ws_char(s[j]) by {
            if j > 0 {
                assert(!is_ws_char(s.drop_first()[j - 1]));
            }
        }
    }
}

pub proof fn lemma_first_ws_at(s: Seq<char>, k: int)
    requires
        0 <= k <= s.len(),
        forall|j: int| 0 <= j < k ==> !is_ws_char(s[j]),
        k < s.len() ==> is_ws_char(s[k]),
    ensures
        first_ws(s) == k,
    decreases s.len(),
{
    if k == 0 {
    } else {
        assert(!is_ws_char(s[0]));
        let t = s.drop_first();
        assert forall|j: int| 0 <= j < k - 1 implies !is_ws_char(t[j]) by {
            assert(t[j] == s[j + 1]);
        }
        lemma_first_ws_at(t, k - 1);
    }
}

/// `s` tokenized at whitespace: runs of whitespace separate tokens and are
/// discarded; no token is empty.
pub open spec fn spec_split_ws(s: Seq<char>) -> Seq<Seq<char>>
    decreases s.len(),
    via spec_split_ws_dec
{
    if s.len() == 0 {
        seq![]
    } else if is_ws_char(s[0]) {
        spec_split_ws(s.drop_first())
    } else {
        let i = first_ws(s);
        seq![s.subrange(0, i)] + spec_split_ws(s.subrange(i, s.len() as int))
    }
}

#[via_fn]
proof fn spec_split_ws_dec(s: Seq<char>) {
    if s.len() > 0 && !is_ws_char(s[0]) {
        lemma_first_ws_bounds(s);
        assert(first_ws(s) >= 1);
    }
}

/// Tokenizes a character slice at whitespace.
pub fn split_ws(v: &[char]) -> (toks: Vec<Vec<char>>)
    ensures
        chars_vecs_view(toks@) == spec_split_ws(v@),
{
    let n = v.len();
    let mut toks: Vec<Vec<char>> = Vec::new();
    let mut i: usize = 0;
    proof {
        assert(v@.subrange(0, n as int) =~= v@);
        assert(chars_vecs_view(toks@) + spec_split_ws(v@) =~= spec_split_ws(v@));
    }
    while i < n
        invariant
            n == v@.len(),
            i <= n,
            spec_split_ws(v@) == chars_vecs_view(toks@) + spec_split_ws(
                v@.subrange(i as int, n as int),
            ),
        decreases n - i,
    {
        let c = v[i];
        if c == ' ' || c == '\t' || c == '\r' || c == '\n' {
            proof {
                let rest = v@.subrange(i as int, n as int);
                assert(is_ws_char(rest[0]));
                assert(rest.drop_first() =~= v@.subrange(i + 1, n as int));
            }
            i = i + 1;
        } else {
            let start = i;
            let mut cur: Vec<char> = Vec::new();
            while i < n && !(v[i] == ' ' || v[i] == '\t' || v[i] == '\r' || v[i] == '\n')
                invariant
                    n == v@.len(),
                    start <= i <= n,
                    cur@ == v@.subrange(start as int, i as int),
                    forall|j: int| start <= j < i ==> !is_ws_char(v@[j]),
                decreases n - i,
            {
                cur.push(v[i]);
                i = i + 1;
                proof {
                    assert(cur@ =~= v@.subrange(start as int, i as int));
                }
            }
            proof {
                let rest = v@.subrange(start as int, n as int);
                assert(!is_ws_char(rest[0]));
                assert forall|j: int| 0 <= j < i - start implies !is_ws_char(rest[j]) by {
                    assert(rest[j] == v@[start + j]);
                }
                if i < n {
                    assert(is_ws_char(rest[i - start]));
                }
                lemma_first_ws_at(rest, i - start);
                assert(rest.subrange(0, i - start) =~= v@.subrange(start as int, i as int));
                assert(rest.subrange(i - start, rest.len() as int) =~= v@.subrange(
                    i as int,
                    n as int,
                ));
                lemma_chars_vecs_view_push(toks@, cur);
                assert((chars_vecs_view(toks@) + seq![cur@]) + spec_split_ws(
                    v@.subrange(i as int, n as int),
                ) =~= chars_vecs_view(toks@) + (seq![cur@] + spec_split_ws(
                    v@.subrange(i as int, n as int),
                )));
            }
            toks.push(cur);
        }
    }
    proof {
        assert(v@.subrange(n as int, n as int) =~= Seq::<char>::empty());
        assert(chars_vecs_view(toks@) + spec_split_ws(Seq::<char>::empty()) =~= chars_vecs_view(
            toks@,
        ));
    }
    toks
}

} // verus!
