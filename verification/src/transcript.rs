//! Assembling a transcript from the segments the speech engine returns.
//!
//! The engine yields one piece of text per segment; the transcript is all
//! segments joined with single spaces and stripped of leading and trailing
//! blanks. An empty result means "no speech detected" and is not an error.

use vstd::prelude::*;
use vstd::string::*;

verus! {

/// The raw concatenation of the segments, each followed by one space.
pub open spec fn joined_segments(segments: Seq<Seq<char>>) -> Seq<char>
    decreases segments.len(),
{
    if segments.len() == 0 {
        Seq::<char>::empty()
    } else {
        joined_segments(segments.drop_last()) + segments.last() + seq![' ']
    }
}

/// The blank characters trimmed from a transcript's ends.
pub open spec fn is_blank(c: char) -> bool {
    c == ' ' || c == '\t' || c == '\n' || c == '\r'
}

/// `s` with its leading blanks removed.
pub open spec fn trim_front(s: Seq<char>) -> Seq<char>
    decreases s.len(),
{
    if s.len() > 0 && is_blank(s[0]) {
        trim_front(s.drop_first())
    } else {
        s
    }
}

/// `s` with its trailing blanks removed.
pub open spec fn trim_back(s: Seq<char>) -> Seq<char>
    decreases s.len(),
{
    if s.len() > 0 && is_blank(s.last()) {
        trim_back(s.drop_last())
    } else {
        s
    }
}

/// `s` with blanks removed from both ends.
pub open spec fn trim_spec(s: Seq<char>) -> Seq<char> {
    trim_back(trim_front(s))
}

/// Trimming the front keeps exactly the tail from the first non-blank on:
/// if everything before `k` is blank and `k` is the end or non-blank, the
/// front-trimmed string is the tail from `k`.
proof fn lemma_trim_front_is(s: Seq<char>, k: int)
    requires
        0 <= k <= s.len(),
        forall|j: int| 0 <= j < k ==> is_blank(s[j]),
        k < s.len() ==> !is_blank(s[k]),
    ensures
        trim_front(s) =~= s.subrange(k, s.len() as int),
    decreases k,
{
    if k == 0 {
        assert(s.subrange(0, s.len() as int) =~= s);
    } else {
        let rest = s.drop_first();
        assert(forall|j: int| 0 <= j < k - 1 ==> is_blank(#[trigger] rest[j]));
        lemma_trim_front_is(rest, k - 1);
        assert(rest.subrange(k - 1, rest.len() as int) =~= s.subrange(k, s.len() as int));
    }
}

/// Trimming the back keeps exactly the head up to the last non-blank:
/// if everything from `e` on is blank and `e` is the start or preceded by a
/// non-blank, the back-trimmed string is the head up to `e`.
proof fn lemma_trim_back_is(s: Seq<char>, e: int)
    requires
        0 <= e <= s.len(),
        forall|j: int| e <= j < s.len() ==> is_blank(s[j]),
        e > 0 ==> !is_blank(s[e - 1]),
    ensures
        trim_back(s) =~= s.subrange(0, e),
    decreases s.len(),
{
    if e < s.len() {
        let head = s.drop_last();
        assert(forall|j: int| e <= j < head.len() ==> is_blank(#[trigger] head[j]));
        lemma_trim_back_is(head, e);
        assert(head.subrange(0, e) =~= s.subrange(0, e));
    } else {
        assert(s.subrange(0, s.len() as int) =~= s);
    }
}

/// Whether `c` is one of the blanks trimmed from a transcript's ends.
fn is_blank_char(c: char) -> (blank: bool)
    ensures
        blank == is_blank(c),
{
    c == ' ' || c == '\t' || c == '\n' || c == '\r'
}

/// Assemble the transcript of a finished recording: every segment the
/// engine produced, joined with single spaces, with leading and trailing
/// blanks trimmed away. Empty segments in, empty transcript out — an empty
/// transcript signifies "no speech detected", never an error.
pub fn assemble_transcription(segments: &Vec<String>) -> (text: String)
    ensures
        text@ == trim_spec(joined_segments(segments.deep_view())),
{
    let ghost views = segments.deep_view();
    let mut out = String::new();
    let mut i: usize = 0;
    proof {
        assert(views.subrange(0, 0) =~= Seq::<Seq<char>>::empty());
        reveal_strlit(" ");
        assert(" "@ =~= seq![' ']);
    }
    while i < segments.len()
        invariant
            i <= segments@.len(),
            views == segments.deep_view(),
            " "@ =~= seq![' '],
            out@ == joined_segments(views.subrange(0, i as int)),
        decreases segments@.len() - i,
    {
        let segment = &segments[i];
        out.append(segment.as_str());
        out.append(" ");
        proof {
            let pre = views.subrange(0, i as int);
            let post = views.subrange(0, i + 1 as int);
            assert(post.drop_last() =~= pre);
            assert(post.last() == views[i as int]);
            assert(views[i as int] == segments@[i as int]@);
            assert(out@ =~= joined_segments(pre) + segment@ + seq![' ']);
        }
        i = i + 1;
    }
    proof {
        assert(views.subrange(0, segments@.len() as int) =~= views);
    }

    let joined = out.as_str();
    let n = joined.unicode_len();
    let mut start: usize = 0;
    while start < n
        invariant
            0 <= start <= n,
            n == joined@.len(),
            forall|j: int| 0 <= j < start ==> is_blank(joined@[j]),
        ensures
            0 <= start <= n,
            forall|j: int| 0 <= j < start ==> is_blank(joined@[j]),
            start < n ==> !is_blank(joined@[start as int]),
        decreases n - start,
    {
        if !is_blank_char(joined.get_char(start)) {
            break ;
        }
        start = start + 1;
    }

    let mut end: usize = n;
    while end > start
        invariant
            start <= end <= n,
            n == joined@.len(),
            forall|j: int| end <= j < n ==> is_blank(joined@[j]),
        ensures
            start <= end <= n,
            forall|j: int| end <= j < n ==> is_blank(joined@[j]),
            end > start ==> !is_blank(joined@[end - 1]),
        decreases end,
    {
        if !is_blank_char(joined.get_char(end - 1)) {
            break ;
        }
        end = end - 1;
    }

    let text = String::from_str(joined.substring_char(start, end));
    proof {
        lemma_trim_front_is(joined@, start as int);
        let tail = joined@.subrange(start as int, n as int);
        assert(forall|j: int|
            end - start <= j < tail.len() ==> is_blank(#[trigger] tail[j]));
        lemma_trim_back_is(tail, end - start);
        assert(tail.subrange(0, end - start) =~= joined@.subrange(start as int, end as int));
    }
    text
}

} // verus!
