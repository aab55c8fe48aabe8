//! Verified text utilities: character-level string equality and prefix tests,
//! separator splitting with the usual "empty pieces are kept" semantics, and
//! decimal parsing of unsigned integers.

use vstd::prelude::*;

verus! {

/// The pieces of `s` between occurrences of `sep`, in order. Empty pieces are
/// kept: a leading, trailing or doubled separator yields an empty piece, and
/// an empty input yields one empty piece.
pub open spec fn spec_split(s: Seq<char>, sep: char) -> Seq<Seq<char>>
    decreases s.len(),
{
    if s.len() == 0 {
        seq![Seq::<char>::empty()]
    } else {
        let rest = spec_split(s.drop_last(), sep);
        if s.last() == sep {
            rest.push(Seq::<char>::empty())
        } else {
            rest.update(rest.len() - 1, rest.last().push(s.last()))
        }
    }
}

/// A split always yields at least one piece.
pub proof fn lemma_spec_split_len(s: Seq<char>, sep: char)
    ensures
        spec_split(s, sep).len() >= 1,
    decreases s.len(),
{
    if s.len() > 0 {
        lemma_spec_split_len(s.drop_last(), sep);
    }
}

/// Character-for-character string equality, stated over the views.
pub fn str_eq(a: &str, b: &str) -> (r: bool)
    ensures
        r == (a@ == b@),
{
    let an = a.unicode_len();
    let bn = b.unicode_len();
    if an != bn {
        return false;
    }
    let mut i: usize = 0;
    while i < an
        invariant
            0 <= i <= an,
            an == a@.len(),
            an == b@.len(),
            forall|j: int| 0 <= j < i ==> a@[j] == b@[j],
        decreases an - i,
    {
        if a.get_char(i) != b.get_char(i) {
            return false;
        }
        i = i + 1;
    }
    proof {
        assert(a@ =~= b@);
    }
    true
}

/// Whether `p` is a prefix of `s`, compared character by character.
pub fn has_prefix(s: &str, p: &str) -> (r: bool)
    ensures
        r == p@.is_prefix_of(s@),
{
    let pn = p.unicode_len();
    let sn = s.unicode_len();
    if pn > sn {
        return false;
    }
    let mut i: usize = 0;
    while i < pn
        invariant
            0 <= i <= pn,
            pn == p@.len(),
            sn == s@.len(),
            pn <= sn,
            forall|j: int| 0 <= j < i ==> p@[j] == s@[j],
        decreases pn - i,
    {
        if p.get_char(i) != s.get_char(i) {
            proof {
                assert(!(p@ =~= s@.subrange(0, pn as int)));
            }
            return false;
        }
        i = i + 1;
    }
    proof {
        assert(p@ =~= s@.subrange(0, pn as int));
    }
    true
}

/// Splits `s` on every occurrence of `sep`, keeping empty pieces, exactly as
/// [`spec_split`] describes.
pub fn split_chars(s: &str, sep: char) -> (toks: Vec<String>)
    ensures
        toks.deep_view() == spec_split(s@, sep),
{
    let n = s.unicode_len();
    let mut toks: Vec<String> = Vec::new();
    let mut start: usize = 0;
    let mut i: usize = 0;
    proof {
        assert(toks.deep_view().push(s@.subrange(0, 0)) =~~= spec_split(s@.take(0), sep));
    }
    while i < n
        invariant
            0 <= start <= i <= n,
            n == s@.len(),
            toks.deep_view().push(s@.subrange(start as int, i as int)) =~~= spec_split(
                s@.take(i as int),
                sep,
            ),
        decreases n - i,
    {
        let ghost prev = toks.deep_view();
        let ghost cur = s@.subrange(start as int, i as int);
        proof {
            assert(s@.take(i as int + 1).drop_last() =~= s@.take(i as int));
            assert(s@.take(i as int + 1).last() == s@[i as int]);
        }
        if s.get_char(i) == sep {
            let tok = s.substring_char(start, i).to_owned();
            toks.push(tok);
            start = i + 1;
            proof {
                assert(toks.deep_view() =~~= prev.push(cur));
                assert(spec_split(s@.take(i as int + 1), sep) =~~= prev.push(cur).push(
                    Seq::<char>::empty(),
                ));
                assert(s@.subrange(start as int, i as int + 1) =~= Seq::<char>::empty());
            }
        } else {
            proof {
                let rest = spec_split(s@.take(i as int), sep);
                lemma_spec_split_len(s@.take(i as int), sep);
                assert(rest.last() =~~= cur);
                assert(spec_split(s@.take(i as int + 1), sep) =~~= rest.update(
                    rest.len() - 1,
                    rest.last().push(s@[i as int]),
                ));
                assert(rest.update(rest.len() - 1, rest.last().push(s@[i as int])) =~~= prev.push(
                    cur.push(s@[i as int]),
                ));
                assert(s@.subrange(start as int, i as int + 1) =~= cur.push(s@[i as int]));
            }
        }
        i = i + 1;
    }
    let tok = s.substring_char(start, n).to_owned();
    let ghost prev = toks.deep_view();
    toks.push(tok);
    proof {
        assert(s@.take(n as int) =~= s@);
        assert(toks.deep_view() =~~= prev.push(s@.subrange(start as int, n as int)));
        assert(toks.deep_view() =~~= spec_split(s@, sep));
    }
    toks
}

/// A decimal digit.
pub open spec fn spec_is_digit(c: char) -> bool {
    48 <= c as u32 && c as u32 <= 57
}

/// The numeric value of a decimal digit.
pub open spec fn spec_digit_val(c: char) -> nat {
    (c as u32 - 48) as nat
}

/// The number a sequence of decimal digits denotes, most significant first.
pub open spec fn spec_digits_val(s: Seq<char>) -> nat
    decreases s.len(),
{
    if s.len() == 0 {
        0
    } else {
        spec_digits_val(s.drop_last()) * 10 + spec_digit_val(s.last())
    }
}

pub open spec fn spec_all_digits(s: Seq<char>) -> bool {
    forall|i: int| 0 <= i < s.len() ==> spec_is_digit(s[i])
}

/// The digit portion of a decimal integer literal: everything after an
/// optional leading `+`.
pub open spec fn spec_u64_digits(s: Seq<char>) -> Seq<char> {
    if s.len() > 0 && s[0] == '+' {
        s.skip(1)
    } else {
        s
    }
}

/// What `parse_u64` accepts: an optional leading `+`, then one or more
/// decimal digits whose value fits in a `u64`; anything else is rejected.
pub open spec fn spec_parse_u64(s: Seq<char>) -> Option<u64> {
    let digits = spec_u64_digits(s);
    if digits.len() > 0 && spec_all_digits(digits) && spec_digits_val(digits) <= u64::MAX {
        Some(spec_digits_val(digits) as u64)
    } else {
        None
    }
}

/// The value of a digit string never shrinks as the string grows to the
/// right: every prefix denotes at most what the whole string denotes.
proof fn lemma_digits_val_prefix_le(s: Seq<char>, k: int)
    requires
        0 <= k <= s.len(),
    ensures
        spec_digits_val(s.take(k)) <= spec_digits_val(s),
    decreases s.len() - k,
{
    if k < s.len() {
        assert(s.take(k + 1).drop_last() =~= s.take(k));
        assert(spec_digits_val(s.take(k + 1)) == spec_digits_val(s.take(k)) * 10 + spec_digit_val(
            s.take(k + 1).last(),
        ));
        lemma_digits_val_prefix_le(s, k + 1);
    } else {
        assert(s.take(k) =~= s);
    }
}

/// Parses a decimal `u64`: an optional leading `+`, then one or more digits.
/// Rejects empty input, any other character, and values over `u64::MAX`.
pub fn parse_u64(s: &str) -> (r: Option<u64>)
    ensures
        r == spec_parse_u64(s@),
{
    let n = s.unicode_len();
    let mut i: usize = 0;
    if n > 0 && s.get_char(0) == '+' {
        i = 1;
    }
    let ghost digits = spec_u64_digits(s@);
    proof {
        assert(digits =~= s@.subrange(i as int, n as int));
    }
    if i == n {
        // No digits at all.
        return None;
    }
    let mut acc: u64 = 0;
    let mut j: usize = i;
    while j < n
        invariant
            i <= j <= n,
            n == s@.len(),
            digits == spec_u64_digits(s@),
            digits =~= s@.subrange(i as int, n as int),
            spec_all_digits(digits.take(j - i)),
            acc == spec_digits_val(digits.take(j - i)),
        decreases n - j,
    {
        let c = s.get_char(j);
        let cv = c as u32;
        proof {
            assert(digits[j - i] == s@[j as int]);
            assert(digits.take(j - i + 1).drop_last() =~= digits.take(j - i));
        }
        if cv < 48 || cv > 57 {
            // A non-digit character anywhere makes the whole input invalid.
            proof {
                assert(0 <= j - i < digits.len() && !spec_is_digit(digits[j - i]));
            }
            return None;
        }
        let d = (cv - 48) as u64;
        let m = acc.checked_mul(10);
        let next = match m {
            Some(v) => v.checked_add(d),
            None => None,
        };
        match next {
            Some(v) => {
                acc = v;
            },
            None => {
                // The value no longer fits in a u64, and appending further
                // digits can only grow it.
                proof {
                    assert(spec_digits_val(digits.take(j - i + 1)) > u64::MAX);
                    lemma_digits_val_prefix_le(digits, j - i + 1);
                }
                return None;
            },
        }
        j = j + 1;
    }
    proof {
        assert(digits.take(n - i) =~= digits);
    }
    Some(acc)
}

} // verus!
