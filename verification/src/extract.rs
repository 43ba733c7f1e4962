//! Positional field extraction from raw page text.
//!
//! The portal pages are never parsed as markup: a field is the text of the
//! n-th span that starts right after a literal start marker and runs to the
//! next literal end marker, scanning left to right without overlap.

use vstd::prelude::*;
use crate::scan::{find_from, find_sub_from};

verus! {

/// The n-th (1-based) complete span at or after `from`: the position right
/// after its start marker and the position of its end marker. Counting
/// resumes after the end marker of each earlier span.
pub open spec fn nth_span(
    text: Seq<char>,
    start: Seq<char>,
    end: Seq<char>,
    n: nat,
    from: int,
) -> Option<(int, int)>
    decreases n,
{
    match find_from(text, start, from) {
        None => None,
        Some(s) => {
            let cs = s + start.len();
            match find_from(text, end, cs) {
                None => None,
                Some(e) => if n <= 1 {
                    Some((cs, e))
                } else {
                    nth_span(text, start, end, (n - 1) as nat, e + end.len())
                },
            }
        },
    }
}

/// The text of the n-th (1-based) marker-delimited span, or `None` when
/// fewer than `n` complete spans exist; asking for the 0-th span finds
/// nothing.
pub open spec fn spec_nth_between(
    text: Seq<char>,
    start: Seq<char>,
    end: Seq<char>,
    n: nat,
) -> Option<Seq<char>> {
    if n == 0 {
        None
    } else {
        match nth_span(text, start, end, n, 0) {
            None => None,
            Some(span) => Some(text.subrange(span.0, span.1)),
        }
    }
}

/// The last three characters of the first marker-delimited span, or the
/// whole span when it is shorter than three characters.
pub open spec fn spec_suffix_between(
    text: Seq<char>,
    start: Seq<char>,
    end: Seq<char>,
) -> Option<Seq<char>> {
    match nth_span(text, start, end, 1, 0) {
        None => None,
        Some(span) => {
            let full = text.subrange(span.0, span.1);
            if full.len() >= 3 {
                Some(full.subrange(full.len() - 3, full.len() as int))
            } else {
                Some(full)
            }
        },
    }
}

/// The suffix extractor locates the same first span as `extract_nth_between`
/// with `n == 1`, and keeps exactly its last three characters, or the whole
/// span when it is shorter than three.
pub proof fn lemma_suffix_is_span_suffix(text: Seq<char>, start: Seq<char>, end: Seq<char>)
    ensures
        (spec_suffix_between(text, start, end) is Some)
            == (spec_nth_between(text, start, end, 1) is Some),
        spec_nth_between(text, start, end, 1) matches Some(full)
            ==> spec_suffix_between(text, start, end) == Some(
                if full.len() >= 3 {
                    full.subrange(full.len() - 3, full.len() as int)
                } else {
                    full
                },
            ),
{
}

/// The text of the n-th (1-based) non-overlapping span that begins right
/// after `start` and runs to the next `end`, scanning left to right, or
/// `None` when fewer than `n` complete spans exist.
pub fn extract_nth_between(text: &str, start: &str, end: &str, n: usize) -> (r: Option<String>)
    ensures
        (r is Some) == (spec_nth_between(text@, start@, end@, n as nat) is Some),
        r matches Some(g) ==> spec_nth_between(text@, start@, end@, n as nat) == Some(g@),
{
    if n == 0 {
        return None;
    }
    let tlen = text.unicode_len();
    let start_len = start.unicode_len();
    let end_len = end.unicode_len();
    let mut pos: usize = 0;
    let mut k: usize = n;
    loop
        invariant
            1 <= k <= n,
            tlen == text@.len(),
            pos <= tlen,
            start_len == start@.len(),
            end_len == end@.len(),
            nth_span(text@, start@, end@, n as nat, 0)
                == nth_span(text@, start@, end@, k as nat, pos as int),
        decreases k,
    {
        match find_sub_from(text, start, pos) {
            None => {
                return None;
            },
            Some(s) => {
                let cs = s + start_len;
                match find_sub_from(text, end, cs) {
                    None => {
                        return None;
                    },
                    Some(e) => {
                        if k == 1 {
                            let span = text.substring_char(cs, e);
                            return Some(span.to_owned());
                        }
                        k = k - 1;
                        pos = e + end_len;
                    },
                }
            },
        }
    }
}

/// The last three characters (or the whole span when shorter) of the first
/// span between `start` and `end`, or `None` when no complete span exists.
pub fn extract_attendance(text: &str, start: &str, end: &str) -> (r: Option<String>)
    ensures
        (r is Some) == (spec_suffix_between(text@, start@, end@) is Some),
        r matches Some(g) ==> spec_suffix_between(text@, start@, end@) == Some(g@),
{
    let tlen = text.unicode_len();
    let start_len = start.unicode_len();
    match find_sub_from(text, start, 0) {
        None => None,
        Some(s) => {
            let cs = s + start_len;
            match find_sub_from(text, end, cs) {
                None => None,
                Some(e) => {
                    let full_len = e - cs;
                    if full_len >= 3 {
                        let span = text.substring_char(e - 3, e);
                        assert(text@.subrange(e - 3, e as int)
                            =~= text@.subrange(cs as int, e as int)
                                .subrange(full_len - 3, full_len as int));
                        Some(span.to_owned())
                    } else {
                        let span = text.substring_char(cs, e);
                        Some(span.to_owned())
                    }
                },
            }
        },
    }
}

} // verus!
