//! Small verified string helpers: exact and ASCII-case-insensitive equality,
//! and splitting on a separator character.
//!
//! Everything here works character by character over the string views, so
//! each helper's contract is an exact statement about those views.

use vstd::prelude::*;
use vstd::string::*;

verus! {

/// ASCII lowercase folding of one character: maps 'A'..='Z' onto 'a'..='z'
/// and leaves every other character unchanged.
pub open spec fn lower_char_spec(c: char) -> char {
    if 'A' <= c && c <= 'Z' {
        ((c as u32) + 32) as char
    } else {
        c
    }
}

/// ASCII lowercase folding of a whole character sequence.
pub open spec fn lower_seq(s: Seq<char>) -> Seq<char> {
    s.map_values(|c: char| lower_char_spec(c))
}

/// Whether two character sequences agree up to ASCII case.
pub open spec fn eq_ignore_ascii_case_spec(a: Seq<char>, b: Seq<char>) -> bool {
    lower_seq(a) == lower_seq(b)
}

/// The ASCII code of `c` after lowercase folding.
fn lower_code(c: char) -> (code: u32)
    ensures
        code == lower_char_spec(c) as u32,
{
    let raw = c as u32;
    if 65 <= raw && raw <= 90 {
        raw + 32
    } else {
        raw
    }
}

/// Exact string equality, stated over the character views.
pub fn str_eq(a: &str, b: &str) -> (equal: bool)
    ensures
        equal == (a@ == b@),
{
    let n = a.unicode_len();
    if n != b.unicode_len() {
        return false;
    }
    let mut i: usize = 0;
    while i < n
        invariant
            i <= n,
            n == a@.len(),
            n == b@.len(),
            forall|j: int| 0 <= j < i ==> a@[j] == b@[j],
        decreases n - i,
    {
        if a.get_char(i) != b.get_char(i) {
            return false;
        }
        i = i + 1;
    }
    proof {
        assert(a@ =~= b@);
    }
    true
}

/// String equality up to ASCII case, stated over the character views.
pub fn str_eq_ignore_ascii_case(a: &str, b: &str) -> (equal: bool)
    ensures
        equal == eq_ignore_ascii_case_spec(a@, b@),
{
    let n = a.unicode_len();
    if n != b.unicode_len() {
        proof {
            assert(lower_seq(a@).len() != lower_seq(b@).len());
        }
        return false;
    }
    let mut i: usize = 0;
    while i < n
        invariant
            i <= n,
            n == a@.len(),
            n == b@.len(),
            forall|j: int| 0 <= j < i ==> lower_char_spec(a@[j]) == lower_char_spec(b@[j]),
        decreases n - i,
    {
        if lower_code(a.get_char(i)) != lower_code(b.get_char(i)) {
            proof {
                assert(lower_seq(a@)[i as int] != lower_seq(b@)[i as int]);
            }
            return false;
        }
        i = i + 1;
    }
    proof {
        assert(lower_seq(a@) =~= lower_seq(b@));
    }
    true
}

/// First index at or after `from` where `s` holds `sep`, or `s.len()`.
pub open spec fn find_from(s: Seq<char>, sep: char, from: int) -> int
    decreases s.len() - from,
{
    if from < 0 || from >= s.len() {
        s.len() as int
    } else if s[from] == sep {
        from
    } else {
        find_from(s, sep, from + 1)
    }
}

pub proof fn lemma_find_from_props(s: Seq<char>, sep: char, from: int)
    requires
        0 <= from <= s.len(),
    ensures
        from <= find_from(s, sep, from) <= s.len(),
        forall|j: int| from <= j < find_from(s, sep, from) ==> s[j] != sep,
        find_from(s, sep, from) < s.len() ==> s[find_from(s, sep, from)] == sep,
    decreases s.len() - from,
{
    if from < s.len() && s[from] != sep {
        lemma_find_from_props(s, sep, from + 1);
    }
}

/// `find_from` is pinned by its characterisation: if nothing before `k`
/// matches and `k` is a match or the end, the find lands exactly on `k`.
pub proof fn lemma_find_from_is(s: Seq<char>, sep: char, from: int, k: int)
    requires
        0 <= from <= k <= s.len(),
        forall|j: int| from <= j < k ==> s[j] != sep,
        k < s.len() ==> s[k] == sep,
    ensures
        find_from(s, sep, from) == k,
    decreases k - from,
{
    if from < k {
        lemma_find_from_is(s, sep, from + 1, k);
    }
}

/// First index at or after `from` where `s` holds `sep`, or the length of
/// `s` when no later occurrence exists.
pub fn find_char(s: &str, sep: char, from: usize) -> (found: usize)
    requires
        from <= s@.len(),
    ensures
        found as int == find_from(s@, sep, from as int),
        from <= found <= s@.len(),
{
    let n = s.unicode_len();
    let mut i: usize = from;
    while i < n
        invariant
            from <= i <= n,
            n == s@.len(),
            forall|j: int| from <= j < i ==> s@[j] != sep,
        decreases n - i,
    {
        if s.get_char(i) == sep {
            proof {
                lemma_find_from_is(s@, sep, from as int, i as int);
            }
            return i;
        }
        i = i + 1;
    }
    proof {
        lemma_find_from_is(s@, sep, from as int, n as int);
    }
    n
}

/// The segments of `s` between occurrences of `sep`: splitting never loses a
/// character, and `n` separators give `n + 1` segments (an empty `s` gives
/// one empty segment).
pub open spec fn split_char_spec(s: Seq<char>, sep: char) -> Seq<Seq<char>>
    decreases s.len(),
    via split_char_spec_decreases
{
    let i = find_from(s, sep, 0);
    if i >= s.len() {
        seq![s]
    } else {
        seq![s.subrange(0, i)] + split_char_spec(s.subrange(i + 1, s.len() as int), sep)
    }
}

#[via_fn]
proof fn split_char_spec_decreases(s: Seq<char>, sep: char) {
    lemma_find_from_props(s, sep, 0);
}

/// Split `s` at every occurrence of `sep`.
pub fn split_char(s: &str, sep: char) -> (parts: Vec<String>)
    ensures
        parts.deep_view() == split_char_spec(s@, sep),
{
    let n = s.unicode_len();
    let mut parts: Vec<String> = Vec::new();
    let mut seg_start: usize = 0;
    let mut i: usize = 0;
    proof {
        assert(s@.subrange(0, n as int) =~= s@);
        assert(parts.deep_view() + split_char_spec(s@, sep) =~= split_char_spec(s@, sep));
    }
    while i < n
        invariant
            seg_start <= i <= n,
            n == s@.len(),
            forall|j: int| seg_start <= j < i ==> s@[j] != sep,
            split_char_spec(s@, sep) == parts.deep_view() + split_char_spec(
                s@.subrange(seg_start as int, n as int),
                sep,
            ),
        decreases n - i,
    {
        if s.get_char(i) == sep {
            let segment = String::from_str(s.substring_char(seg_start, i));
            proof {
                let tail = s@.subrange(seg_start as int, n as int);
                let cut = i - seg_start;
                lemma_find_from_is(tail, sep, 0, cut);
                assert(tail.subrange(0, cut) =~= s@.subrange(seg_start as int, i as int));
                assert(tail.subrange(cut + 1, tail.len() as int) =~= s@.subrange(
                    i + 1 as int,
                    n as int,
                ));
            }
            parts.push(segment);
            proof {
                let old_views = parts.deep_view().drop_last();
                assert(parts.deep_view() =~= old_views + seq![s@.subrange(
                    seg_start as int,
                    i as int,
                )]);
                assert(parts.deep_view() + split_char_spec(
                    s@.subrange(i + 1 as int, n as int),
                    sep,
                ) =~= old_views + (seq![s@.subrange(seg_start as int, i as int)]
                    + split_char_spec(s@.subrange(i + 1 as int, n as int), sep)));
            }
            seg_start = i + 1;
        }
        i = i + 1;
    }
    let last = String::from_str(s.substring_char(seg_start, n));
    proof {
        let tail = s@.subrange(seg_start as int, n as int);
        lemma_find_from_is(tail, sep, 0, tail.len() as int);
        assert(tail =~= last@);
    }
    parts.push(last);
    proof {
        assert(parts.deep_view() =~= parts.deep_view().drop_last() + seq![last@]);
    }
    parts
}

} // verus!
