//! Decimal numerals as `usize` values, with the grammar that `str::parse::<usize>`
//! documents: an optional `+` sign followed by one or more ASCII digits, with no
//! other character anywhere, whose value fits in `usize`.
use vstd::prelude::*;

verus! {

/// `c` is one of the ASCII digits `0` to `9`.
pub open spec fn is_ascii_digit(c: char) -> bool {
    '0' <= c && c <= '9'
}

/// The value of the ASCII digit `c`.
pub open spec fn digit_value(c: char) -> nat {
    (c as nat - '0' as nat) as nat
}

/// Every character of `s` is an ASCII digit.
pub open spec fn all_ascii_digits(s: Seq<char>) -> bool {
    forall|i: int| 0 <= i < s.len() ==> is_ascii_digit(#[trigger] s[i])
}

/// The value of the digit string `d` read in base ten, most significant digit first.
pub open spec fn decimal_value(d: Seq<char>) -> nat
    decreases d.len(),
{
    if d.len() == 0 {
        0
    } else {
        decimal_value(d.drop_last()) * 10 + digit_value(d.last())
    }
}

/// How many leading characters of `s` form the sign: one for a leading `+`, else none.
pub open spec fn sign_len(s: Seq<char>) -> int {
    if s.len() > 0 && s[0] == '+' {
        1
    } else {
        0
    }
}

/// The part of `s` that should hold the digits: `s` without its leading `+`.
pub open spec fn digits_part(s: Seq<char>) -> Seq<char> {
    s.subrange(sign_len(s), s.len() as int)
}

/// `s` is well-formed: an optional `+` and at least one ASCII digit, nothing else.
pub open spec fn is_decimal_numeral(s: Seq<char>) -> bool {
    digits_part(s).len() > 0 && all_ascii_digits(digits_part(s))
}

/// What parsing `s` as a `usize` gives: the value of a well-formed numeral that
/// fits in `usize`, and `None` for any other string.
pub open spec fn parsed_usize(s: Seq<char>) -> Option<usize> {
    if is_decimal_numeral(s) && decimal_value(digits_part(s)) <= usize::MAX {
        Some(decimal_value(digits_part(s)) as usize)
    } else {
        None
    }
}

/// A leading `+` is optional: it does not change what a string of digits parses to.
pub proof fn plus_sign_is_optional(d: Seq<char>)
    requires
        d.len() > 0,
        d[0] != '+',
    ensures
        parsed_usize(seq!['+'] + d) == parsed_usize(d),
{
    let s = seq!['+'] + d;
    assert(digits_part(s) =~= d);
    assert(digits_part(d) =~= d);
}

/// Parses `s` as a decimal `usize`: `Some` of its value exactly when `s` is an
/// optional `+` followed by one or more ASCII digits whose value fits in `usize`.
pub fn parse_usize(s: &str) -> (r: Option<usize>)
    ensures
        r == parsed_usize(s@),
{
    broadcast use vstd::string::group_string_axioms;

    let ghost chars = s@;
    let ghost start = sign_len(chars);
    let mut value: usize = 0;
    let mut ok: bool = true;
    let mut saw_digit: bool = false;
    let mut first: bool = true;
    let mut signed: bool = false;

    for c in iter: s.chars()
        invariant
            iter.seq() == chars,
            first <==> iter.index() == 0,
            signed ==> iter.index() >= 1 && start == 1,
            iter.index() >= 1 ==> (signed <==> start == 1),
            iter.index() >= start ==> (saw_digit <==> iter.index() > start),
            iter.index() < start ==> !saw_digit,
            iter.index() < start ==> ok && value == 0,
            iter.index() >= start && ok ==> all_ascii_digits(chars.subrange(start, iter.index()))
                && value == decimal_value(chars.subrange(start, iter.index())),
            iter.index() >= start && !ok ==> !all_ascii_digits(
                chars.subrange(start, iter.index()),
            ) || decimal_value(chars.subrange(start, iter.index())) > usize::MAX,
            start == sign_len(chars),
            chars == s@,
            iter.index() <= chars.len(),
    {
        let ghost k = iter.index();
        assert(c == chars[k]);
        assert(k < chars.len());
        if first && c == '+' {
            signed = true;
            assert(chars.subrange(start, k + 1) =~= Seq::<char>::empty());
        } else {
            assert(k >= start);
            let ghost prev = chars.subrange(start, k);
            let ghost next = chars.subrange(start, k + 1);
            assert(next.drop_last() =~= prev);
            if '0' <= c && c <= '9' {
                let d: usize = (c as u32 - '0' as u32) as usize;
                assert(d == digit_value(c));
                if ok {
                    match value.checked_mul(10) {
                        Some(v10) => match v10.checked_add(d) {
                            Some(v) => {
                                value = v;
                            },
                            None => {
                                ok = false;
                            },
                        },
                        None => {
                            ok = false;
                        },
                    }
                }
                assert forall|i: int| 0 <= i < next.len() && all_ascii_digits(prev) implies
                    is_ascii_digit(#[trigger] next[i]) by {
                    if i < prev.len() {
                        assert(next[i] == prev[i]);
                    }
                }
            } else {
                ok = false;
                assert(!is_ascii_digit(next[next.len() - 1]));
            }
            saw_digit = true;
        }
        first = false;
    }
    assert(digits_part(chars) =~= chars.subrange(start, chars.len() as int));
    if ok && saw_digit {
        Some(value)
    } else {
        None
    }
}

} // verus!
