//! Text building blocks: decimal rendering of integers and trimming of a
//! repeated character from both ends of a string.

use vstd::prelude::*;

verus! {

/// The character of a decimal digit.
pub open spec fn digit_char(d: nat) -> char
    recommends
        d < 10,
{
    ((48 + d) as u8) as char
}

/// The decimal numeral of a natural number, most significant digit first,
/// without leading zeros.
pub open spec fn decimal_digits(n: nat) -> Seq<char>
    decreases n,
{
    if n < 10 {
        seq![digit_char(n)]
    } else {
        decimal_digits(n / 10).push(digit_char(n % 10))
    }
}

/// The decimal numeral of an integer: a minus sign before the numeral of the
/// magnitude where the integer is negative.
pub open spec fn signed_decimal_digits(n: int) -> Seq<char> {
    if n < 0 {
        seq!['-'] + decimal_digits((-n) as nat)
    } else {
        decimal_digits(n as nat)
    }
}

/// A sequence with every leading occurrence of `c` removed.
pub open spec fn trim_leading(s: Seq<char>, c: char) -> Seq<char>
    decreases s.len(),
{
    if s.len() > 0 && s[0] == c {
        trim_leading(s.drop_first(), c)
    } else {
        s
    }
}

/// A sequence with every trailing occurrence of `c` removed.
pub open spec fn trim_trailing(s: Seq<char>, c: char) -> Seq<char>
    decreases s.len(),
{
    if s.len() > 0 && s.last() == c {
        trim_trailing(s.drop_last(), c)
    } else {
        s
    }
}

/// A sequence with `c` removed from both ends, as often as it occurs there.
pub open spec fn trim_both(s: Seq<char>, c: char) -> Seq<char> {
    trim_trailing(trim_leading(s, c), c)
}

/// Every element of `s` before `upto` is `c`.
pub open spec fn all_before(s: Seq<char>, upto: int, c: char) -> bool {
    forall|k: int| 0 <= k < upto ==> s[k] == c
}

/// Every element of `s` from `from` on is `c`.
pub open spec fn all_from(s: Seq<char>, from: int, c: char) -> bool {
    forall|k: int| from <= k < s.len() ==> s[k] == c
}

/// Dropping a run of `c` from the front of `s` that ends before a different
/// element, or at the end of `s`, is what `trim_leading` does.
pub proof fn lemma_trim_leading_is_suffix(s: Seq<char>, c: char, start: int)
    requires
        0 <= start <= s.len(),
        all_before(s, start, c),
        start < s.len() ==> s[start] != c,
    ensures
        trim_leading(s, c) == s.subrange(start, s.len() as int),
    decreases s.len(),
{
    if start > 0 {
        lemma_trim_leading_is_suffix(s.drop_first(), c, start - 1);
    }
}

/// Dropping a run of `c` from the back of `s` that starts after a different
/// element, or at the front of `s`, is what `trim_trailing` does.
pub proof fn lemma_trim_trailing_is_prefix(s: Seq<char>, c: char, end: int)
    requires
        0 <= end <= s.len(),
        all_from(s, end, c),
        end > 0 ==> s[end - 1] != c,
    ensures
        trim_trailing(s, c) == s.subrange(0, end),
    decreases s.len(),
{
    if end < s.len() {
        lemma_trim_trailing_is_prefix(s.drop_last(), c, end);
    }
}

/// A trimmed sequence neither starts nor ends with `c`.
pub proof fn lemma_trim_both_has_clean_ends(s: Seq<char>, c: char)
    ensures
        trim_both(s, c).len() > 0 ==> trim_both(s, c).first() != c && trim_both(s, c).last() != c,
        trim_both(s, c).len() <= s.len(),
{
    lemma_trim_leading_shape(s, c);
    lemma_trim_trailing_shape(trim_leading(s, c), c);
}

/// `trim_leading` returns a suffix that does not start with `c`.
pub proof fn lemma_trim_leading_shape(s: Seq<char>, c: char)
    ensures
        trim_leading(s, c).len() <= s.len(),
        trim_leading(s, c) == s.subrange(s.len() - trim_leading(s, c).len(), s.len() as int),
        trim_leading(s, c).len() > 0 ==> trim_leading(s, c).first() != c,
    decreases s.len(),
{
    if s.len() > 0 && s[0] == c {
        let rest = s.drop_first();
        lemma_trim_leading_shape(rest, c);
        let kept = trim_leading(rest, c).len();
        assert(rest.subrange(rest.len() - kept, rest.len() as int) =~= s.subrange(
            s.len() - kept,
            s.len() as int,
        ));
    }
}

/// `trim_trailing` returns a prefix that does not end with `c`.
pub proof fn lemma_trim_trailing_shape(s: Seq<char>, c: char)
    ensures
        trim_trailing(s, c).len() <= s.len(),
        trim_trailing(s, c) == s.subrange(0, trim_trailing(s, c).len() as int),
        trim_trailing(s, c).len() > 0 ==> trim_trailing(s, c).last() != c,
        trim_trailing(s, c).len() > 0 ==> trim_trailing(s, c).first() == s.first(),
    decreases s.len(),
{
    if s.len() > 0 && s.last() == c {
        lemma_trim_trailing_shape(s.drop_last(), c);
    }
}

/// The one-character text of a decimal digit.
fn digit_text(d: u8) -> (text: &'static str)
    requires
        d < 10,
    ensures
        text@ == seq![digit_char(d as nat)],
{
    proof {
        reveal_strlit("0");
        reveal_strlit("1");
        reveal_strlit("2");
        reveal_strlit("3");
        reveal_strlit("4");
        reveal_strlit("5");
        reveal_strlit("6");
        reveal_strlit("7");
        reveal_strlit("8");
        reveal_strlit("9");
    }
    match d {
        0 => "0",
        1 => "1",
        2 => "2",
        3 => "3",
        4 => "4",
        5 => "5",
        6 => "6",
        7 => "7",
        8 => "8",
        _ => "9",
    }
}

/// Renders an unsigned integer in decimal.
pub fn decimal(n: u64) -> (text: String)
    ensures
        text@ == decimal_digits(n as nat),
    decreases n,
{
    if n < 10 {
        digit_text(n as u8).to_owned()
    } else {
        decimal(n / 10).concat(digit_text((n % 10) as u8))
    }
}

/// Renders a signed integer in decimal.
pub fn signed_decimal(n: i64) -> (text: String)
    ensures
        text@ == signed_decimal_digits(n as int),
{
    if n >= 0 {
        decimal(n as u64)
    } else {
        let magnitude: u64 = if n == i64::MIN {
            9223372036854775808u64
        } else {
            (-n) as u64
        };
        proof {
            reveal_strlit("-");
        }
        "-".to_owned().concat(decimal(magnitude).as_str())
    }
}

/// Removes `c` from both ends of `s`, as often as it occurs there.
pub fn trim_char(s: &str, c: char) -> (trimmed: &str)
    ensures
        trimmed@ == trim_both(s@, c),
{
    let mut start: usize = 0;
    let mut end: usize = 0;
    let mut seen: usize = 0;
    let total = s.unicode_len();
    for ch in it: s.chars()
        invariant
            it.seq() == s@,
            s@.len() == total,
            seen == it.index(),
            start <= seen,
            end <= seen,
            all_before(s@, start as int, c),
            start < seen ==> s@[start as int] != c,
            start < seen ==> start < end,
            forall|k: int| end <= k < seen ==> s@[k] == c,
            end > 0 ==> s@[end - 1] != c,
    {
        if ch != c {
            end = seen + 1;
        } else if start == seen {
            start = seen + 1;
        }
        seen = seen + 1;
    }
    if end < start {
        end = start;
    }
    proof {
        lemma_trim_leading_is_suffix(s@, c, start as int);
        lemma_trim_trailing_is_prefix(
            s@.subrange(start as int, s@.len() as int),
            c,
            end - start,
        );
    }
    s.substring_char(start, end)
}

} // verus!
