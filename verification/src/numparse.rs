//! Decimal text to scaled integers and back.
//!
//! Scraped grades and attendance percentages are decimal strings such as
//! `"6.5"` or `"100"`. The library carries them as integer tenths, so a
//! string parses exactly when it is a run of digits, optionally followed by
//! a dot and one more digit, and its value is at most 100.0 (1000 tenths).
//! Anything written otherwise (further decimals, a sign, an exponent) is
//! unparseable: the callers skip it or default it to zero, and it never
//! enters a mean.

use vstd::prelude::*;

verus! {

/// Largest value, in tenths, that the parser accepts.
pub const MAX_TENTHS: u32 = 1000;

pub open spec fn is_digit(c: char) -> bool {
    48 <= c as int <= 57
}

pub open spec fn digit_val(c: char) -> int {
    c as int - 48
}

pub open spec fn all_digits(s: Seq<char>) -> bool {
    forall|i: int| 0 <= i < s.len() ==> is_digit(#[trigger] s[i])
}

/// The number written by a run of digits, most significant first.
pub open spec fn digits_val(s: Seq<char>) -> int
    decreases s.len(),
{
    if s.len() == 0 {
        0
    } else {
        digits_val(s.drop_last()) * 10 + digit_val(s.last())
    }
}

pub proof fn lemma_digits_val_nonneg(s: Seq<char>)
    requires
        all_digits(s),
    ensures
        digits_val(s) >= 0,
    decreases s.len(),
{
    if s.len() > 0 {
        assert(all_digits(s.drop_last()));
        lemma_digits_val_nonneg(s.drop_last());
    }
}

/// A digit run is worth at least any of its prefixes.
proof fn lemma_digits_val_prefix(s: Seq<char>, j: int)
    requires
        all_digits(s),
        0 <= j <= s.len(),
    ensures
        digits_val(s.subrange(0, j)) <= digits_val(s),
    decreases s.len() - j,
{
    if j == s.len() {
        assert(s.subrange(0, j) =~= s);
    } else {
        let t = s.subrange(0, j + 1);
        assert(all_digits(t));
        assert(t.drop_last() =~= s.subrange(0, j));
        lemma_digits_val_nonneg(t.drop_last());
        lemma_digits_val_prefix(s, j + 1);
    }
}

/// The tenths value of a decimal string: a nonempty digit run, optionally
/// followed by `'.'` and exactly one more digit, worth at most
/// `MAX_TENTHS`; every other string is worth nothing.
pub open spec fn spec_parse_tenths(s: Seq<char>) -> Option<u32> {
    if s.len() > 0 && all_digits(s) {
        if digits_val(s) * 10 <= MAX_TENTHS {
            Some((digits_val(s) * 10) as u32)
        } else {
            None
        }
    } else if s.len() >= 3 && s[s.len() - 2] == '.' && all_digits(s.subrange(0, s.len() - 2))
        && is_digit(s.last()) {
        if digits_val(s.subrange(0, s.len() - 2)) * 10 + digit_val(s.last()) <= MAX_TENTHS {
            Some((digits_val(s.subrange(0, s.len() - 2)) * 10 + digit_val(s.last())) as u32)
        } else {
            None
        }
    } else {
        None
    }
}

/// Whatever parses is at most `MAX_TENTHS`.
pub proof fn lemma_parse_tenths_bound(s: Seq<char>)
    ensures
        spec_parse_tenths(s) matches Some(v) ==> 0 <= v <= MAX_TENTHS,
{
    if s.len() > 0 && all_digits(s) {
        lemma_digits_val_nonneg(s);
    } else if s.len() >= 3 && s[s.len() - 2] == '.' && all_digits(s.subrange(0, s.len() - 2))
        && is_digit(s.last()) {
        lemma_digits_val_nonneg(s.subrange(0, s.len() - 2));
    }
}

/// The value of the digit run `s[from..to]`, capped: `None` when some
/// character there is not a digit or the value exceeds `cap`.
fn scan_digits(s: &str, from: usize, to: usize, cap: u32, len: usize) -> (r: Option<u32>)
    requires
        from <= to <= len,
        len == s@.len(),
    ensures
        (r is Some) == (all_digits(s@.subrange(from as int, to as int))
            && digits_val(s@.subrange(from as int, to as int)) <= cap),
        r matches Some(v) ==> v == digits_val(s@.subrange(from as int, to as int)),
{
    let ghost d = s@.subrange(from as int, to as int);
    let mut acc: u32 = 0;
    let mut j: usize = from;
    while j < to
        invariant
            from <= j <= to <= len,
            len == s@.len(),
            d == s@.subrange(from as int, to as int),
            all_digits(d.subrange(0, j - from)),
            acc == digits_val(d.subrange(0, j - from)),
            acc <= cap,
        decreases to - j,
    {
        let c = s.get_char(j);
        let u = c as u32;
        assert(c == d[j - from]);
        if u < 48 || u > 57 {
            assert(!is_digit(d[j - from]));
            return None;
        }
        proof {
            assert(d.subrange(0, j - from + 1).drop_last() =~= d.subrange(0, j - from));
        }
        let dig = u - 48;
        let next = (acc as u64) * 10 + (dig as u64);
        if next > cap as u64 {
            proof {
                if all_digits(d) {
                    lemma_digits_val_prefix(d, j - from + 1);
                }
            }
            return None;
        }
        acc = acc * 10 + dig;
        j = j + 1;
    }
    assert(d.subrange(0, to - from) =~= d);
    Some(acc)
}

/// The tenths value of the decimal string `s`, exactly when
/// `spec_parse_tenths` gives one.
pub fn parse_tenths(s: &str) -> (r: Option<u32>)
    ensures
        r == spec_parse_tenths(s@),
{
    let len = s.unicode_len();
    if len == 0 {
        return None;
    }
    match scan_digits(s, 0, len, MAX_TENTHS / 10, len) {
        Some(v) => {
            assert(s@.subrange(0, len as int) =~= s@);
            return Some(v * 10);
        },
        None => {},
    }
    assert(s@.subrange(0, len as int) =~= s@);
    if len >= 3 {
        let dot = s.get_char(len - 2);
        if dot == '.' {
            let last = s.get_char(len - 1);
            let u = last as u32;
            if u >= 48 && u <= 57 {
                let dig = u - 48;
                match scan_digits(s, 0, len - 2, MAX_TENTHS / 10, len) {
                    Some(v) => {
                        let total = v * 10 + dig;
                        if total <= MAX_TENTHS {
                            return Some(total);
                        } else {
                            return None;
                        }
                    },
                    None => {
                        proof {
                            let ip = s@.subrange(0, len - 2);
                            if all_digits(ip) {
                                lemma_digits_val_nonneg(ip);
                            }
                        }
                        return None;
                    },
                }
            }
        }
    }
    None
}

/// The decimal digits of `n`, most significant first.
pub open spec fn dec_rep(n: nat) -> Seq<char>
    decreases n,
{
    if n < 10 {
        seq![((n + 48) as u8) as char]
    } else {
        dec_rep(n / 10).push((((n % 10) + 48) as u8) as char)
    }
}

fn append_digit(out: &mut String, d: u32)
    requires
        d < 10,
    ensures
        final(out)@ == old(out)@.push((((d as nat) + 48) as u8) as char),
{
    match d {
        0 => out.append("0"),
        1 => out.append("1"),
        2 => out.append("2"),
        3 => out.append("3"),
        4 => out.append("4"),
        5 => out.append("5"),
        6 => out.append("6"),
        7 => out.append("7"),
        8 => out.append("8"),
        _ => out.append("9"),
    }
    proof {
        reveal_strlit("0");
        reveal_strlit("1");
        reveal_strlit("2");
        reveal_strlit("3");
        reveal_strlit("4");
        reveal_strlit("5");
        reveal_strlit("6");
        reveal_strlit("7");
        reveal_strlit("8");
        reveal_strlit("9");
        assert(out@ =~= old(out)@.push((((d as nat) + 48) as u8) as char));
    }
}

fn append_decimal(out: &mut String, n: u32)
    ensures
        final(out)@ == old(out)@ + dec_rep(n as nat),
    decreases n,
{
    if n < 10 {
        append_digit(out, n);
        assert(out@ =~= old(out)@ + dec_rep(n as nat));
    } else {
        append_decimal(out, n / 10);
        append_digit(out, n % 10);
        assert(out@ =~= old(out)@ + dec_rep(n as nat));
    }
}

/// `n` written in decimal.
pub fn u32_to_decimal(n: u32) -> (r: String)
    ensures
        r@ == dec_rep(n as nat),
{
    let mut out = String::new();
    append_decimal(&mut out, n);
    assert(out@ =~= dec_rep(n as nat));
    out
}

} // verus!
