//! Literal, case-sensitive substring scanning over character sequences.
//!
//! These are the only text primitives the extraction layer uses: find the
//! first occurrence of a pattern at or after a position, and delete every
//! occurrence of a pattern, scanning left to right without overlap.

use vstd::prelude::*;

verus! {

/// The pattern occurs in `text` starting exactly at position `i`.
pub open spec fn match_at(text: Seq<char>, pat: Seq<char>, i: int) -> bool {
    0 <= i && i + pat.len() <= text.len() && text.subrange(i, i + pat.len()) == pat
}

/// Position of the first occurrence of `pat` at or after `from`,
/// or `None` when there is none.
pub open spec fn find_from(text: Seq<char>, pat: Seq<char>, from: int) -> Option<int>
    decreases text.len() - from,
    via find_from_decreases
{
    if from < 0 || from + pat.len() > text.len() {
        None
    } else if match_at(text, pat, from) {
        Some(from)
    } else {
        find_from(text, pat, from + 1)
    }
}

#[via_fn]
proof fn find_from_decreases(text: Seq<char>, pat: Seq<char>, from: int) {
    if 0 <= from && from + pat.len() <= text.len() && pat.len() == 0 {
        assert(text.subrange(from, from) =~= pat);
    }
}

/// What `find_from` returns is a match, is the first match, and `None`
/// means there is no match at all at or after `from`.
pub proof fn lemma_find_from_first(text: Seq<char>, pat: Seq<char>, from: int)
    requires
        0 <= from,
    ensures
        match find_from(text, pat, from) {
            Some(i) => from <= i && match_at(text, pat, i)
                && forall|j: int| from <= j < i ==> !match_at(text, pat, j),
            None => forall|j: int| from <= j ==> !match_at(text, pat, j),
        },
    decreases text.len() - from,
{
    if from < 0 || from + pat.len() > text.len() {
    } else if match_at(text, pat, from) {
    } else {
        if pat.len() == 0 {
            assert(text.subrange(from, from + pat.len()) =~= pat);
        }
        lemma_find_from_first(text, pat, from + 1);
    }
}

/// Every occurrence of `pat` deleted from `text[from..]`, scanning left to
/// right without overlap; with an empty pattern nothing is deleted.
pub open spec fn remove_all_from(text: Seq<char>, pat: Seq<char>, from: int) -> Seq<char>
    decreases text.len() - from,
        when 0 <= from <= text.len()
    via remove_all_from_decreases
{
    if pat.len() == 0 {
        text.subrange(from, text.len() as int)
    } else {
        match find_from(text, pat, from) {
            None => text.subrange(from, text.len() as int),
            Some(i) => text.subrange(from, i) + remove_all_from(text, pat, i + pat.len()),
        }
    }
}

#[via_fn]
proof fn remove_all_from_decreases(text: Seq<char>, pat: Seq<char>, from: int) {
    if pat.len() > 0 {
        lemma_find_from_first(text, pat, from);
    }
}

/// Every occurrence of `pat` deleted from `text`.
pub open spec fn remove_all(text: Seq<char>, pat: Seq<char>) -> Seq<char> {
    remove_all_from(text, pat, 0)
}

/// Whether the pattern occurs at position `i`, by comparing characters.
fn is_match_at(text: &str, pat: &str, i: usize, tlen: usize, plen: usize) -> (b: bool)
    requires
        tlen == text@.len(),
        plen == pat@.len(),
        i + plen <= tlen,
    ensures
        b == match_at(text@, pat@, i as int),
{
    let mut j: usize = 0;
    while j < plen
        invariant
            j <= plen,
            plen == pat@.len(),
            tlen == text@.len(),
            i + plen <= tlen,
            forall|k: int| 0 <= k < j ==> text@[i + k] == pat@[k],
        decreases plen - j,
    {
        if text.get_char(i + j) != pat.get_char(j) {
            assert(text@.subrange(i as int, i + plen)[j as int] != pat@[j as int]);
            return false;
        }
        j = j + 1;
    }
    assert(text@.subrange(i as int, i + plen) =~= pat@);
    true
}

/// Position of the first occurrence of `pat` in `text` at or after `from`.
pub fn find_sub_from(text: &str, pat: &str, from: usize) -> (r: Option<usize>)
    requires
        from <= text@.len(),
    ensures
        (r is Some) == (find_from(text@, pat@, from as int) is Some),
        r matches Some(i) ==> find_from(text@, pat@, from as int) == Some(i as int)
            && from <= i && i + pat@.len() <= text@.len()
            && match_at(text@, pat@, i as int),
{
    let tlen = text.unicode_len();
    let plen = pat.unicode_len();
    if plen > tlen {
        return None;
    }
    if plen == 0 {
        assert(text@.subrange(from as int, from as int) =~= pat@);
        return Some(from);
    }
    let mut i: usize = from;
    while i <= tlen - plen
        invariant
            from <= i,
            0 < plen <= tlen,
            tlen == text@.len(),
            plen == pat@.len(),
            i <= tlen + 1,
            find_from(text@, pat@, from as int) == find_from(text@, pat@, i as int),
        decreases tlen + 1 - i,
    {
        if is_match_at(text, pat, i, tlen, plen) {
            return Some(i);
        }
        i = i + 1;
    }
    None
}

/// Whether two strings hold the same characters.
pub fn str_eq(a: &str, b: &str) -> (r: bool)
    ensures
        r == (a@ == b@),
{
    let alen = a.unicode_len();
    let blen = b.unicode_len();
    if alen != blen {
        return false;
    }
    let m = is_match_at(a, b, 0, alen, blen);
    proof {
        assert(a@.subrange(0, alen as int) =~= a@);
    }
    m
}

/// Whether `pat` occurs anywhere in `text`.
pub fn contains_sub(text: &str, pat: &str) -> (b: bool)
    ensures
        b == (find_from(text@, pat@, 0) is Some),
{
    find_sub_from(text, pat, 0).is_some()
}

/// A copy of `text` with every occurrence of `pat` deleted, scanning left
/// to right without overlap.
pub fn remove_occurrences(text: &str, pat: &str) -> (r: String)
    ensures
        r@ == remove_all(text@, pat@),
{
    let tlen = text.unicode_len();
    let plen = pat.unicode_len();
    let mut out = String::new();
    if plen == 0 {
        out.append(text);
        assert(out@ =~= remove_all(text@, pat@));
        return out;
    }
    let mut pos: usize = 0;
    loop
        invariant
            pos <= tlen,
            tlen == text@.len(),
            plen == pat@.len(),
            plen > 0,
            remove_all(text@, pat@) == out@ + remove_all_from(text@, pat@, pos as int),
        decreases tlen - pos,
    {
        match find_sub_from(text, pat, pos) {
            None => {
                let tail = text.substring_char(pos, tlen);
                out.append(tail);
                assert(out@ =~= remove_all(text@, pat@));
                return out;
            },
            Some(i) => {
                let piece = text.substring_char(pos, i);
                out.append(piece);
                proof {
                    lemma_find_from_first(text@, pat@, pos as int);
                }
                pos = i + plen;
                assert(remove_all(text@, pat@) =~= out@ + remove_all_from(text@, pat@, pos as int));
            },
        }
    }
}

} // verus!
