//! Turning the text segments that the model produced into one transcript.

use vstd::prelude::*;
use vstd::string::*;

verus! {

/// Whether `c` has the Unicode `White_Space` property, as `char::is_whitespace`
/// and `str::trim` decide it: tab through carriage return, space, next line,
/// no-break space, Ogham space mark, the spaces U+2000 to U+200A, line and
/// paragraph separators, narrow no-break space, medium mathematical space and
/// ideographic space.
pub open spec fn unicode_white_space(c: char) -> bool {
    let v = c as u32;
    ||| 0x09 <= v <= 0x0D
    ||| v == 0x20
    ||| v == 0x85
    ||| v == 0xA0
    ||| v == 0x1680
    ||| 0x2000 <= v <= 0x200A
    ||| v == 0x2028
    ||| v == 0x2029
    ||| v == 0x202F
    ||| v == 0x205F
    ||| v == 0x3000
}

/// `s` without its leading and trailing characters for which `white_space`
/// holds.
pub open spec fn trimmed(s: Seq<char>, white_space: spec_fn(char) -> bool) -> Seq<char>
    decreases s.len(),
{
    if s.len() > 0 && white_space(s[0]) {
        trimmed(s.drop_first(), white_space)
    } else if s.len() > 0 && white_space(s.last()) {
        trimmed(s.drop_last(), white_space)
    } else {
        s
    }
}

/// What `trimmed` leaves neither starts nor ends with a character for which
/// `white_space` holds, and is a contiguous part of its input.
pub proof fn lemma_trimmed_shape(s: Seq<char>, white_space: spec_fn(char) -> bool)
    ensures
        trimmed(s, white_space).len() <= s.len(),
        trimmed(s, white_space).len() > 0 ==> {
            &&& !white_space(trimmed(s, white_space)[0])
            &&& !white_space(trimmed(s, white_space).last())
        },
        exists|i: int| 0 <= i <= s.len() - trimmed(s, white_space).len()
            && #[trigger] s.subrange(i, i + trimmed(s, white_space).len()) == trimmed(s, white_space),
    decreases s.len(),
{
    if s.len() > 0 && white_space(s[0]) {
        lemma_trimmed_shape(s.drop_first(), white_space);
        let t = trimmed(s.drop_first(), white_space);
        let i = choose|i: int| 0 <= i <= s.drop_first().len() - t.len()
            && #[trigger] s.drop_first().subrange(i, i + t.len()) == t;
        assert(s.subrange(i + 1, i + 1 + t.len()) == s.drop_first().subrange(i, i + t.len()));
        assert(trimmed(s, white_space) == t);
        assert(s.subrange(i + 1, i + 1 + trimmed(s, white_space).len()) == trimmed(s, white_space));
    } else if s.len() > 0 && white_space(s.last()) {
        lemma_trimmed_shape(s.drop_last(), white_space);
        let t = trimmed(s.drop_last(), white_space);
        let i = choose|i: int| 0 <= i <= s.drop_last().len() - t.len()
            && #[trigger] s.drop_last().subrange(i, i + t.len()) == t;
        assert(s.subrange(i, i + t.len()) == s.drop_last().subrange(i, i + t.len()));
        assert(trimmed(s, white_space) == t);
        assert(s.subrange(i, i + trimmed(s, white_space).len()) == trimmed(s, white_space));
    } else {
        assert(trimmed(s, white_space) == s);
        assert(s.subrange(0int, 0int + trimmed(s, white_space).len()) == trimmed(s, white_space));
    }
}

/// Leading white space does not change what trimming gives: trimming `s` is
/// trimming `s` without its first `i` characters, where those are all white
/// space.
proof fn lemma_trim_front(s: Seq<char>, white_space: spec_fn(char) -> bool, i: int)
    requires
        0 <= i <= s.len(),
        forall|k: int| 0 <= k < i ==> white_space(#[trigger] s[k]),
    ensures
        trimmed(s, white_space) == trimmed(s.subrange(i, s.len() as int), white_space),
    decreases i,
{
    if i > 0 {
        assert(white_space(s[0]));
        let rest = s.drop_first();
        assert forall|k: int| 0 <= k < i - 1 implies white_space(#[trigger] rest[k]) by {
            assert(rest[k] == s[k + 1]);
        }
        lemma_trim_front(rest, white_space, i - 1);
        assert(rest.subrange(i - 1, rest.len() as int) == s.subrange(i, s.len() as int));
    } else {
        assert(s.subrange(0, s.len() as int) == s);
    }
}

/// Where `s` does not start with white space, trimming it drops exactly its
/// trailing white space: what is left is `s` up to `j`, its last character
/// that is not white space included.
proof fn lemma_trim_back(s: Seq<char>, white_space: spec_fn(char) -> bool, j: int)
    requires
        0 < j <= s.len(),
        !white_space(s[0]),
        !white_space(s[j - 1]),
        forall|k: int| j <= k < s.len() ==> white_space(#[trigger] s[k]),
    ensures
        trimmed(s, white_space) == s.subrange(0, j),
    decreases s.len() - j,
{
    if j < s.len() {
        assert(white_space(s[s.len() - 1]));
        let shorter = s.drop_last();
        assert forall|k: int| j <= k < shorter.len() implies white_space(#[trigger] shorter[k]) by {
            assert(shorter[k] == s[k]);
        }
        lemma_trim_back(shorter, white_space, j);
        assert(shorter.subrange(0, j) == s.subrange(0, j));
    } else {
        assert(s.subrange(0, j) == s);
    }
}

/// Whether `c` has the Unicode `White_Space` property.
pub fn is_white_space(c: char) -> (b: bool)
    ensures
        b == unicode_white_space(c),
{
    let v = c as u32;
    (0x09 <= v && v <= 0x0D) || v == 0x20 || v == 0x85 || v == 0xA0 || v == 0x1680
        || (0x2000 <= v && v <= 0x200A) || v == 0x2028 || v == 0x2029 || v == 0x202F
        || v == 0x205F || v == 0x3000
}

/// `s` without its leading and trailing characters that have the Unicode
/// `White_Space` property, as an owned string (what `str::trim` gives).
pub fn trim_to_string(s: &str) -> (t: String)
    ensures
        t@ == trimmed(s@, |c: char| unicode_white_space(c)),
{
    let ghost ws = |c: char| unicode_white_space(c);
    let n = s.unicode_len();
    let mut i: usize = 0;
    while i < n && is_white_space(s.get_char(i))
        invariant
            n == s@.len(),
            i <= n,
            forall|k: int| 0 <= k < i ==> unicode_white_space(#[trigger] s@[k]),
        decreases n - i,
    {
        assert(unicode_white_space(s@[i as int]));
        i = i + 1;
    }
    let mut j: usize = n;
    while j > i && is_white_space(s.get_char(j - 1))
        invariant
            n == s@.len(),
            i <= j <= n,
            forall|k: int| j <= k < n ==> unicode_white_space(#[trigger] s@[k]),
        decreases j,
    {
        assert(unicode_white_space(s@[j - 1]));
        j = j - 1;
    }
    proof {
        lemma_trim_front(s@, ws, i as int);
        let rest = s@.subrange(i as int, n as int);
        if i < n {
            assert(!ws(s@[i as int]));
            assert(j > i);
            assert(!ws(s@[j - 1]));
            assert forall|k: int| j - i <= k < rest.len() implies ws(#[trigger] rest[k]) by {
                assert(rest[k] == s@[k + i]);
            }
            lemma_trim_back(rest, ws, j - i);
            assert(rest.subrange(0, j - i) == s@.subrange(i as int, j as int));
        } else {
            assert(rest.len() == 0);
            assert(trimmed(rest, ws) == rest);
        }
    }
    String::from_str(s.substring_char(i, j))
}

/// The segments that were produced, joined in order; failed segments add
/// nothing.
pub open spec fn joined_segments(segments: Seq<Option<String>>) -> Seq<char>
    decreases segments.len(),
{
    if segments.len() == 0 {
        Seq::empty()
    } else {
        let rest = joined_segments(segments.drop_last());
        match segments.last() {
            Some(text) => rest + text@,
            None => rest,
        }
    }
}

/// Joining is concatenation: the segments of `a` followed by those of `b`
/// join to the join of `a` followed by the join of `b`; one produced segment
/// joins to its text, and one failed segment to nothing. So every produced
/// segment, at any position, is in the transcript, in order.
pub proof fn lemma_joined_segments_concatenate(a: Seq<Option<String>>, b: Seq<Option<String>>, text: String)
    ensures
        joined_segments(a + b) == joined_segments(a) + joined_segments(b),
        joined_segments(seq![Some(text)]) == text@,
        joined_segments(seq![None::<String>]) == Seq::<char>::empty(),
    decreases b.len(),
{
    let one = seq![Some(text)];
    assert(one.drop_last() =~= Seq::<Option<String>>::empty());
    assert(joined_segments(one) == joined_segments(one.drop_last()) + text@);
    let none = seq![None::<String>];
    assert(none.drop_last() =~= Seq::<Option<String>>::empty());
    if b.len() == 0 {
        assert(a + b =~= a);
        assert(joined_segments(a) + joined_segments(b) =~= joined_segments(a));
    } else {
        lemma_joined_segments_concatenate(a, b.drop_last(), text);
        assert((a + b).drop_last() =~= a + b.drop_last());
        assert((a + b).last() == b.last());
        match b.last() {
            Some(t) => {
                assert(joined_segments(a) + (joined_segments(b.drop_last()) + t@)
                    =~= joined_segments(a) + joined_segments(b.drop_last()) + t@);
            },
            None => {},
        }
    }
}

/// The transcript of a run of the model: its segment texts joined in order,
/// skipping the segments whose text could not be read, then trimmed of
/// surrounding white space.
pub fn assemble_transcript(segments: &Vec<Option<String>>) -> (transcript: String)
    ensures
        transcript@ == trimmed(joined_segments(segments@), |c: char| unicode_white_space(c)),
        transcript@.len() > 0 ==> {
            &&& !unicode_white_space(transcript@[0])
            &&& !unicode_white_space(transcript@.last())
        },
{
    let mut joined = String::new();
    let n = segments.len();
    for i in 0..n
        invariant
            n == segments@.len(),
            joined@ == joined_segments(segments@.take(i as int)),
    {
        assert(segments@.take(i + 1).drop_last() == segments@.take(i as int));
        match &segments[i] {
            Some(text) => joined.append(text.as_str()),
            None => {},
        }
    }
    assert(segments@.take(n as int) == segments@);
    let transcript = trim_to_string(joined.as_str());
    proof {
        lemma_trimmed_shape(joined@, |c: char| unicode_white_space(c));
    }
    transcript
}

} // verus!
