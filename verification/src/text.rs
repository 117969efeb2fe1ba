//! Text as a sequence of characters: the questions that header values and
//! command line values are asked, each with its mathematical meaning.

use vstd::prelude::*;
use vstd::slice::slice_subrange;

verus! {

/// The `White_Space` property of Unicode.
pub open spec fn white_space(c: char) -> bool {
    ||| '\u{9}' <= c <= '\u{d}'
    ||| c == ' '
    ||| c == '\u{85}'
    ||| c == '\u{a0}'
    ||| c == '\u{1680}'
    ||| '\u{2000}' <= c <= '\u{200a}'
    ||| c == '\u{2028}'
    ||| c == '\u{2029}'
    ||| c == '\u{202f}'
    ||| c == '\u{205f}'
    ||| c == '\u{3000}'
}

/// `s` without its longest prefix of characters that satisfy `drop`.
pub open spec fn trimmed_start(s: Seq<char>, drop: spec_fn(char) -> bool) -> Seq<char>
    decreases s.len(),
{
    if s.len() > 0 && drop(s[0]) {
        trimmed_start(s.drop_first(), drop)
    } else {
        s
    }
}

/// `s` without its longest suffix of characters that satisfy `drop`.
pub open spec fn trimmed_end(s: Seq<char>, drop: spec_fn(char) -> bool) -> Seq<char>
    decreases s.len(),
{
    if s.len() > 0 && drop(s.last()) {
        trimmed_end(s.drop_last(), drop)
    } else {
        s
    }
}

/// `s` without the characters at both its ends that satisfy `drop`.
pub open spec fn trimmed(s: Seq<char>, drop: spec_fn(char) -> bool) -> Seq<char> {
    trimmed_end(trimmed_start(s, drop), drop)
}

/// `s` without white space at both its ends.
pub open spec fn trimmed_space(s: Seq<char>) -> Seq<char> {
    trimmed(s, |c: char| white_space(c))
}

/// The index of the first `wanted` in `s`, or the length of `s`.
pub open spec fn first_index(s: Seq<char>, wanted: char) -> int
    decreases s.len(),
{
    if s.len() == 0 || s[0] == wanted {
        0
    } else {
        1 + first_index(s.drop_first(), wanted)
    }
}

/// The two sides of the first `separator` in `s`.
pub open spec fn sides(s: Seq<char>, separator: char) -> Option<(Seq<char>, Seq<char>)> {
    let at = first_index(s, separator);
    if at < s.len() {
        Some((s.take(at), s.skip(at + 1)))
    } else {
        None
    }
}

/// What stands between the separators in `s`, in order.
pub open spec fn pieces(s: Seq<char>, separator: char) -> Seq<Seq<char>>
    decreases s.len(),
{
    let at = first_index(s, separator);
    if 0 <= at < s.len() {
        seq![s.take(at)] + pieces(s.skip(at + 1), separator)
    } else {
        seq![s]
    }
}

/// The lower case form of an ASCII letter; any other character as it is.
pub open spec fn ascii_lower(c: char) -> char {
    if 'A' <= c <= 'Z' {
        (c as u32 + 32) as char
    } else {
        c
    }
}

/// Whether two texts are equal when the case of ASCII letters is ignored.
pub open spec fn same_ignoring_ascii_case(a: Seq<char>, b: Seq<char>) -> bool {
    &&& a.len() == b.len()
    &&& forall|i: int| 0 <= i < a.len() ==> ascii_lower(#[trigger] a[i]) == ascii_lower(b[i])
}

pub open spec fn digit(c: char) -> bool {
    '0' <= c <= '9'
}

/// The number that a sequence of decimal digits writes.
pub open spec fn decimal(s: Seq<char>) -> int
    decreases s.len(),
{
    if s.len() == 0 {
        0
    } else {
        10 * decimal(s.drop_last()) + (s.last() as u32 - '0' as u32)
    }
}

/// The digits of an unsigned number: what follows its optional plus sign.
pub open spec fn unsigned_digits(s: Seq<char>) -> Seq<char> {
    if s.len() > 0 && s[0] == '+' {
        s.drop_first()
    } else {
        s
    }
}

/// The number that `s` writes as an optional plus sign and one or more decimal
/// digits, if it does and the number fits.
pub open spec fn unsigned_number(s: Seq<char>) -> Option<u64> {
    let digits = unsigned_digits(s);
    if digits.len() > 0 && (forall|i: int| 0 <= i < digits.len() ==> digit(#[trigger] digits[i]))
        && decimal(digits) <= u64::MAX {
        Some(decimal(digits) as u64)
    } else {
        None
    }
}

/// What the index of the first `wanted` means.
pub proof fn lemma_first_index(s: Seq<char>, wanted: char)
    ensures
        0 <= first_index(s, wanted) <= s.len(),
        forall|i: int| 0 <= i < first_index(s, wanted) ==> #[trigger] s[i] != wanted,
        first_index(s, wanted) < s.len() ==> s[first_index(s, wanted)] == wanted,
    decreases s.len(),
{
    if s.len() > 0 && s[0] != wanted {
        let rest = s.drop_first();
        lemma_first_index(rest, wanted);
        assert forall|i: int| 0 <= i < first_index(s, wanted) implies #[trigger] s[i] != wanted by {
            if i > 0 {
                assert(s[i] == rest[i - 1]);
            }
        }
    }
}

/// An index at which `wanted` stands, with none before it, is the first.
pub proof fn lemma_first_index_is(s: Seq<char>, wanted: char, at: int)
    requires
        0 <= at <= s.len(),
        forall|i: int| 0 <= i < at ==> #[trigger] s[i] != wanted,
        at < s.len() ==> s[at] == wanted,
    ensures
        first_index(s, wanted) == at,
{
    lemma_first_index(s, wanted);
    let found = first_index(s, wanted);
    if found < at {
        assert(s[found] != wanted);
    }
    if at < found {
        assert(s[at] != wanted);
    }
}

proof fn lemma_decimal_prefix(s: Seq<char>, n: int)
    requires
        0 <= n <= s.len(),
        forall|i: int| 0 <= i < s.len() ==> digit(#[trigger] s[i]),
    ensures
        0 <= decimal(s.take(n)) <= decimal(s),
    decreases s.len(),
{
    if n == s.len() {
        assert(s.take(n) =~= s);
        if n > 0 {
            assert(s.last() == s[s.len() - 1]);
            lemma_decimal_prefix(s.drop_last(), n - 1);
            assert(s.drop_last().take(n - 1) =~= s.drop_last());
        }
    } else {
        assert(s.last() == s[s.len() - 1]);
        lemma_decimal_prefix(s.drop_last(), n);
        assert(s.drop_last().take(n) =~= s.take(n));
    }
}

/// The characters of `text`, in order.
pub fn chars_of(text: &str) -> (chars: Vec<char>)
    ensures
        chars@ == text@,
{
    let mut chars: Vec<char> = Vec::new();
    for c in it: text.chars()
        invariant
            chars@ == it.seq().take(it.index()),
            it.seq() == text@,
    {
        chars.push(c);
    }
    chars
}

/// Whether `c` is white space.
pub fn is_white_space(c: char) -> (yes: bool)
    ensures
        yes == white_space(c),
{
    ('\u{9}' <= c && c <= '\u{d}') || c == ' ' || c == '\u{85}' || c == '\u{a0}' || c == '\u{1680}'
        || ('\u{2000}' <= c && c <= '\u{200a}') || c == '\u{2028}' || c == '\u{2029}' || c
        == '\u{202f}' || c == '\u{205f}' || c == '\u{3000}'
}

/// `s` without the white space it starts with.
pub fn trim_start(s: &[char]) -> (rest: &[char])
    ensures
        rest@ == trimmed_start(s@, |c: char| white_space(c)),
{
    let ghost drop = |c: char| white_space(c);
    let mut start: usize = 0;
    assert(s@.skip(0) =~= s@);
    while start < s.len() && is_white_space(s[start])
        invariant
            start <= s.len(),
            drop == (|c: char| white_space(c)),
            trimmed_start(s@, drop) == trimmed_start(s@.skip(start as int), drop),
        decreases s.len() - start,
    {
        assert(drop(s@.skip(start as int)[0]));
        assert(s@.skip(start as int).drop_first() =~= s@.skip(start + 1));
        start = start + 1;
    }
    assert(start < s.len() ==> s@.skip(start as int)[0] == s@[start as int]);
    assert(s@.subrange(start as int, s.len() as int) =~= s@.skip(start as int));
    slice_subrange(s, start, s.len())
}

/// `s` without white space at both its ends.
pub fn trim(s: &[char]) -> (middle: &[char])
    ensures
        middle@ == trimmed_space(s@),
{
    let ghost drop = |c: char| white_space(c);
    let rest = trim_start(s);
    let mut end: usize = rest.len();
    assert(rest@.take(end as int) =~= rest@);
    while end > 0 && is_white_space(rest[end - 1])
        invariant
            end <= rest.len(),
            drop == (|c: char| white_space(c)),
            trimmed_end(rest@, drop) == trimmed_end(rest@.take(end as int), drop),
        decreases end,
    {
        assert(drop(rest@.take(end as int).last()));
        assert(rest@.take(end as int).drop_last() =~= rest@.take(end - 1));
        end = end - 1;
    }
    assert(end > 0 ==> rest@.take(end as int).last() == rest@[end - 1]);
    assert(rest@.subrange(0, end as int) =~= rest@.take(end as int));
    slice_subrange(rest, 0, end)
}

/// `s` without the occurrences of `unwanted` at both its ends.
pub fn trim_matches(s: &[char], unwanted: char) -> (middle: &[char])
    ensures
        middle@ == trimmed(s@, |c: char| c == unwanted),
{
    let ghost drop = |c: char| c == unwanted;
    let mut start: usize = 0;
    assert(s@.skip(0) =~= s@);
    while start < s.len() && s[start] == unwanted
        invariant
            start <= s.len(),
            drop == (|c: char| c == unwanted),
            trimmed_start(s@, drop) == trimmed_start(s@.skip(start as int), drop),
        decreases s.len() - start,
    {
        assert(drop(s@.skip(start as int)[0]));
        assert(s@.skip(start as int).drop_first() =~= s@.skip(start + 1));
        start = start + 1;
    }
    assert(start < s.len() ==> s@.skip(start as int)[0] == s@[start as int]);
    let rest = slice_subrange(s, start, s.len());
    assert(rest@ =~= s@.skip(start as int));
    let mut end: usize = rest.len();
    assert(rest@.take(end as int) =~= rest@);
    while end > 0 && rest[end - 1] == unwanted
        invariant
            end <= rest.len(),
            drop == (|c: char| c == unwanted),
            trimmed_end(rest@, drop) == trimmed_end(rest@.take(end as int), drop),
        decreases end,
    {
        assert(drop(rest@.take(end as int).last()));
        assert(rest@.take(end as int).drop_last() =~= rest@.take(end - 1));
        end = end - 1;
    }
    assert(end > 0 ==> rest@.take(end as int).last() == rest@[end - 1]);
    assert(rest@.subrange(0, end as int) =~= rest@.take(end as int));
    slice_subrange(rest, 0, end)
}

/// The index of the first `wanted` in `s`, or the length of `s`.
pub fn find(s: &[char], wanted: char) -> (at: usize)
    ensures
        at == first_index(s@, wanted),
{
    let mut at: usize = 0;
    while at < s.len() && s[at] != wanted
        invariant
            at <= s.len(),
            forall|i: int| 0 <= i < at ==> #[trigger] s@[i] != wanted,
        decreases s.len() - at,
    {
        at = at + 1;
    }
    proof {
        lemma_first_index_is(s@, wanted, at as int);
    }
    at
}

/// The two sides of the first `separator` in `s`.
pub fn split_once(s: &[char], separator: char) -> (parts: Option<(&[char], &[char])>)
    ensures
        match parts {
            Some((left, right)) => sides(s@, separator) == Some((left@, right@)),
            None => sides(s@, separator) is None,
        },
{
    let at = find(s, separator);
    if at < s.len() {
        let left = slice_subrange(s, 0, at);
        let right = slice_subrange(s, at + 1, s.len());
        assert(left@ =~= s@.take(at as int));
        assert(right@ =~= s@.skip(at + 1));
        Some((left, right))
    } else {
        None
    }
}

/// Whether two texts are equal when the case of ASCII letters is ignored.
pub fn eq_ignore_ascii_case(a: &[char], b: &[char]) -> (same: bool)
    ensures
        same == same_ignoring_ascii_case(a@, b@),
{
    if a.len() != b.len() {
        return false;
    }
    let mut i: usize = 0;
    while i < a.len()
        invariant
            i <= a.len(),
            a.len() == b.len(),
            forall|j: int| 0 <= j < i ==> ascii_lower(#[trigger] a@[j]) == ascii_lower(b@[j]),
        decreases a.len() - i,
    {
        if to_ascii_lower(a[i]) != to_ascii_lower(b[i]) {
            return false;
        }
        i = i + 1;
    }
    true
}

fn to_ascii_lower(c: char) -> (code: u32)
    ensures
        code == ascii_lower(c) as u32,
{
    if 'A' <= c && c <= 'Z' {
        c as u32 + 32
    } else {
        c as u32
    }
}

/// Reads an optional plus sign and one or more decimal digits as a number.
pub fn parse_unsigned(s: &[char]) -> (number: Option<u64>)
    ensures
        number == unsigned_number(s@),
{
    let ghost digits = unsigned_digits(s@);
    let mut i: usize = 0;
    if s.len() > 0 && s[0] == '+' {
        i = 1;
    }
    let start: usize = i;
    assert(digits =~= s@.skip(start as int));
    if start == s.len() {
        return None;
    }
    let mut number: u64 = 0;
    while i < s.len()
        invariant
            start <= i <= s.len(),
            start <= 1,
            digits == s@.skip(start as int),
            digits == unsigned_digits(s@),
            digits.len() > 0,
            forall|j: int| 0 <= j < i - start ==> digit(#[trigger] digits[j]),
            number == decimal(digits.take(i - start)),
        decreases s.len() - i,
    {
        let c = s[i];
        assert(c == digits[i - start]);
        if !('0' <= c && c <= '9') {
            return None;
        }
        let value: u64 = (c as u32 - '0' as u32) as u64;
        proof {
            let longer = digits.take(i - start + 1);
            assert(longer.drop_last() =~= digits.take(i - start));
            assert(longer.last() == c);
            assert(decimal(longer) == 10 * number + value);
            if 10 * number + value > u64::MAX && (forall|j: int|
                0 <= j < digits.len() ==> digit(#[trigger] digits[j])) {
                lemma_decimal_prefix(digits, i - start + 1);
            }
        }
        match number.checked_mul(10) {
            None => {
                return None;
            },
            Some(tens) => {
                match tens.checked_add(value) {
                    None => {
                        return None;
                    },
                    Some(sum) => {
                        number = sum;
                    },
                }
            },
        }
        i = i + 1;
    }
    assert(digits.take(i - start) =~= digits);
    Some(number)
}

/// Whether two texts have the same characters.
pub fn same_text(a: &str, b: &str) -> (same: bool)
    ensures
        same == (a@ == b@),
{
    let left = chars_of(a);
    let right = chars_of(b);
    if left.len() != right.len() {
        return false;
    }
    let mut i: usize = 0;
    while i < left.len()
        invariant
            i <= left.len(),
            left.len() == right.len(),
            left@ == a@,
            right@ == b@,
            forall|j: int| 0 <= j < i ==> left@[j] == right@[j],
        decreases left.len() - i,
    {
        if left[i] != right[i] {
            return false;
        }
        i = i + 1;
    }
    assert(a@ =~= b@);
    true
}

} // verus!
