//! The newline-formatting rule for text nodes, and small string helpers.
//!
//! A newline inside a text node is turned into an explicit line break when it
//! is flanked by text on both sides, that is, when the character before it and
//! the character after it exist and are not themselves newlines. Leading and
//! trailing newlines, and newlines next to other newlines, stay literal.

use vstd::prelude::*;

verus! {

use crate::view::Inline;
use crate::view::InlineV;

/// A newline at position `i` of `s` becomes a line break exactly when text
/// stands immediately on both sides of it.
pub open spec fn is_break_at(s: Seq<char>, i: int) -> bool {
    &&& 0 < i
    &&& i + 1 < s.len()
    &&& s[i] == '\n'
    &&& s[i - 1] != '\n'
    &&& s[i + 1] != '\n'
}

/// Segments of `s` from position `i` on, where the text run in progress
/// started at position `start`.
pub open spec fn spec_format_from(s: Seq<char>, start: int, i: int) -> Seq<InlineV>
    decreases s.len() - i,
{
    if i >= s.len() {
        seq![InlineV::Run(s.subrange(start, s.len() as int))]
    } else if is_break_at(s, i) {
        seq![InlineV::Run(s.subrange(start, i)), InlineV::Break] + spec_format_from(s, i + 1, i + 1)
    } else {
        spec_format_from(s, start, i + 1)
    }
}

/// The newline rule applied to a whole text: the text split at each newline
/// that `is_break_at` accepts, a `Break` marker standing for each such
/// newline, every other character kept literally.
pub open spec fn spec_format(s: Seq<char>) -> Seq<InlineV> {
    spec_format_from(s, 0, 0)
}

/// Text with no newline flanked by text on both sides passes through the
/// newline rule unchanged: one literal run, no break markers.
pub proof fn lemma_format_no_breaks(s: Seq<char>)
    requires
        forall|i: int| !is_break_at(s, i),
    ensures
        spec_format(s) == seq![InlineV::Run(s)],
{
    lemma_format_from_no_breaks(s, 0, 0);
    assert(s.subrange(0, s.len() as int) =~= s);
}

proof fn lemma_format_from_no_breaks(s: Seq<char>, start: int, i: int)
    requires
        forall|j: int| !is_break_at(s, j),
        0 <= start <= i,
    ensures
        spec_format_from(s, start, i) == seq![InlineV::Run(s.subrange(start, s.len() as int))],
    decreases s.len() - i,
{
    if i < s.len() {
        lemma_format_from_no_breaks(s, start, i + 1);
    }
}

/// Applies the newline rule to `s`: every newline flanked by text on both
/// sides becomes a `Break` marker between the two runs; all other characters,
/// leading and trailing newlines included, are kept literally.
pub fn format_text(s: &str) -> (out: Vec<Inline>)
    ensures
        crate::view::view_inlines(out@) == spec_format(s@),
{
    let n = s.unicode_len();
    let mut out: Vec<Inline> = Vec::new();
    let mut start: usize = 0;
    let mut i: usize = 0;
    while i < n
        invariant
            n == s@.len(),
            0 <= start <= i <= n,
            crate::view::view_inlines(out@) + spec_format_from(s@, start as int, i as int)
                =~= spec_format(s@),
        decreases n - i,
    {
        let c = s.get_char(i);
        let is_break = c == '\n' && i > 0 && i + 1 < n && s.get_char(i - 1) != '\n'
            && s.get_char(i + 1) != '\n';
        if is_break {
            let run = s.substring_char(start, i);
            out.push(Inline::Run(run.to_owned()));
            out.push(Inline::Break);
            start = i + 1;
        }
        i = i + 1;
    }
    let tail = s.substring_char(start, n);
    out.push(Inline::Run(tail.to_owned()));
    out
}

/// The separators of class tokens: ASCII whitespace.
pub open spec fn is_space(c: char) -> bool {
    c == ' ' || c == '\t' || c == '\n' || c == '\r' || c == '\x0c'
}

/// Tokens of `s` from position `i` on, where the token in progress started at
/// position `start` (`start == i` when none is in progress).
pub open spec fn spec_split_from(s: Seq<char>, start: int, i: int) -> Seq<Seq<char>>
    decreases s.len() - i,
{
    if i >= s.len() {
        if start < i {
            seq![s.subrange(start, i)]
        } else {
            Seq::empty()
        }
    } else if is_space(s[i]) {
        if start < i {
            seq![s.subrange(start, i)] + spec_split_from(s, i + 1, i + 1)
        } else {
            spec_split_from(s, i + 1, i + 1)
        }
    } else {
        spec_split_from(s, start, i + 1)
    }
}

/// The maximal runs of non-whitespace characters of `s`, in order: the class
/// attribute's tokens, kept in order and not deduplicated.
pub open spec fn spec_split_ws(s: Seq<char>) -> Seq<Seq<char>> {
    spec_split_from(s, 0, 0)
}

/// Splits `s` into its maximal runs of non-whitespace characters.
pub fn split_ws(s: &str) -> (out: Vec<String>)
    ensures
        out.deep_view() == spec_split_ws(s@),
{
    let n = s.unicode_len();
    let mut out: Vec<String> = Vec::new();
    let mut start: usize = 0;
    let mut i: usize = 0;
    while i < n
        invariant
            n == s@.len(),
            0 <= start <= i <= n,
            out.deep_view() + spec_split_from(s@, start as int, i as int) =~= spec_split_ws(s@),
        decreases n - i,
    {
        let c = s.get_char(i);
        let sp = c == ' ' || c == '\t' || c == '\n' || c == '\r' || c == '\x0c';
        if sp {
            if start < i {
                let tok = s.substring_char(start, i);
                out.push(tok.to_owned());
            }
            start = i + 1;
        }
        i = i + 1;
    }
    if start < n {
        let tok = s.substring_char(start, n);
        out.push(tok.to_owned());
    }
    out
}

/// The tokens joined with a single space between each pair.
pub open spec fn spec_join_sp(ts: Seq<Seq<char>>) -> Seq<char>
    decreases ts.len(),
{
    if ts.len() == 0 {
        Seq::empty()
    } else if ts.len() == 1 {
        ts[0]
    } else {
        spec_join_sp(ts.subrange(0, ts.len() - 1)) + seq![' '] + ts[ts.len() - 1]
    }
}

/// Joins tokens with a single space between each pair.
pub fn join_sp(ts: &Vec<String>) -> (out: String)
    ensures
        out@ == spec_join_sp(ts.deep_view()),
{
    let mut out = String::new();
    let mut i: usize = 0;
    while i < ts.len()
        invariant
            0 <= i <= ts@.len(),
            out@ =~= spec_join_sp(ts.deep_view().subrange(0, i as int)),
        decreases ts@.len() - i,
    {
        if i > 0 {
            out.append(" ");
        }
        out.append(ts[i].as_str());
        proof {
            reveal_strlit(" ");
            let full = ts.deep_view();
            assert(full[i as int] == ts@[i as int]@);
            assert(full.subrange(0, i + 1).subrange(0, i as int) =~= full.subrange(0, i as int));
            assert(full.subrange(0, i + 1)[i as int] == full[i as int]);
            if i > 0 {
                assert(out@ =~= spec_join_sp(full.subrange(0, i + 1)));
            } else {
                assert(out@ =~= full[0]);
                assert(out@ =~= spec_join_sp(full.subrange(0, 1)));
            }
        }
        i = i + 1;
    }
    proof {
        assert(ts.deep_view().subrange(0, ts@.len() as int) =~= ts.deep_view());
    }
    out
}

/// Whether `a` and `b` hold the same characters.
pub fn str_eq(a: &str, b: &str) -> (r: bool)
    ensures
        r == (a@ == b@),
{
    let n = a.unicode_len();
    let m = b.unicode_len();
    if n != m {
        assert(a@ != b@) by {
            assert(a@.len() != b@.len());
        }
        return false;
    }
    let mut i: usize = 0;
    while i < n
        invariant
            n == a@.len() == b@.len(),
            0 <= i <= n,
            forall|j: int| 0 <= j < i ==> a@[j] == b@[j],
        decreases n - i,
    {
        if a.get_char(i) != b.get_char(i) {
            return false;
        }
        i = i + 1;
    }
    proof {
        assert(a@ =~= b@);
    }
    true
}

} // verus!
