//! What holds of text, said of its characters.

use vstd::prelude::*;

use crate::text;

verus! {

/// The white space characters, by their numbers.
pub proof fn white_space_is_that_of_unicode(c: char)
    ensures
        text::white_space(c) <==> {
            let n = c as u32;
            ||| 9 <= n <= 13
            ||| n == 0x20 || n == 0x85 || n == 0xa0 || n == 0x1680
            ||| 0x2000 <= n <= 0x200a
            ||| n == 0x2028 || n == 0x2029 || n == 0x202f || n == 0x205f || n == 0x3000
        },
{
}

/// What is trimmed at the start is what is dropped, and all of it.
pub proof fn trimming_drops_the_longest_prefix(
    dropped: Seq<char>,
    rest: Seq<char>,
    drop: spec_fn(char) -> bool,
)
    requires
        forall|i: int| 0 <= i < dropped.len() ==> drop(#[trigger] dropped[i]),
        rest.len() > 0 ==> !drop(rest[0]),
    ensures
        text::trimmed_start(dropped + rest, drop) == rest,
    decreases dropped.len(),
{
    let all = dropped + rest;
    if dropped.len() == 0 {
        assert(all =~= rest);
    } else {
        assert(all[0] == dropped[0]);
        assert(all.drop_first() =~= dropped.drop_first() + rest);
        assert forall|i: int| 0 <= i < dropped.drop_first().len() implies drop(
            #[trigger] dropped.drop_first()[i],
        ) by {
            assert(drop(dropped[i + 1]));
        }
        trimming_drops_the_longest_prefix(dropped.drop_first(), rest, drop);
    }
}

proof fn lemma_trimmed_end(kept: Seq<char>, dropped: Seq<char>, drop: spec_fn(char) -> bool)
    requires
        forall|i: int| 0 <= i < dropped.len() ==> drop(#[trigger] dropped[i]),
        kept.len() > 0 ==> !drop(kept.last()),
    ensures
        text::trimmed_end(kept + dropped, drop) == kept,
    decreases dropped.len(),
{
    let all = kept + dropped;
    if dropped.len() == 0 {
        assert(all =~= kept);
    } else {
        assert(all.last() == dropped.last());
        assert(drop(dropped[dropped.len() - 1]));
        assert(all.drop_last() =~= kept + dropped.drop_last());
        lemma_trimmed_end(kept, dropped.drop_last(), drop);
    }
}

/// Trimming both ends leaves what stands between what is dropped at the start and what
/// is dropped at the end.
pub proof fn trimming_leaves_the_middle(
    before: Seq<char>,
    middle: Seq<char>,
    after: Seq<char>,
    drop: spec_fn(char) -> bool,
)
    requires
        forall|i: int| 0 <= i < before.len() ==> drop(#[trigger] before[i]),
        forall|i: int| 0 <= i < after.len() ==> drop(#[trigger] after[i]),
        middle.len() > 0 ==> !drop(middle[0]) && !drop(middle.last()),
    ensures
        text::trimmed(before + middle + after, drop) == middle,
{
    if middle.len() > 0 {
        assert(before + middle + after =~= before + (middle + after));
        assert((middle + after)[0] == middle[0]);
        trimming_drops_the_longest_prefix(before, middle + after, drop);
        lemma_trimmed_end(middle, after, drop);
    } else {
        let all = before + middle + after;
        assert forall|i: int| 0 <= i < all.len() implies drop(#[trigger] all[i]) by {
            if i < before.len() {
                assert(drop(before[i]));
            } else {
                assert(drop(after[i - before.len()]));
            }
        }
        assert(all =~= all + Seq::<char>::empty());
        trimming_drops_the_longest_prefix(all, Seq::empty(), drop);
        assert(middle =~= Seq::empty());
    }
}

/// Trimming white space leaves what stands between white space.
pub proof fn trimming_space_leaves_the_middle(
    before: Seq<char>,
    middle: Seq<char>,
    after: Seq<char>,
)
    requires
        forall|i: int| 0 <= i < before.len() ==> text::white_space(#[trigger] before[i]),
        forall|i: int| 0 <= i < after.len() ==> text::white_space(#[trigger] after[i]),
        middle.len() > 0 ==> !text::white_space(middle[0]) && !text::white_space(middle.last()),
    ensures
        text::trimmed_space(before + middle + after) == middle,
{
    let drop = |c: char| text::white_space(c);
    assert forall|i: int| 0 <= i < before.len() implies drop(#[trigger] before[i]) by {}
    assert forall|i: int| 0 <= i < after.len() implies drop(#[trigger] after[i]) by {}
    trimming_leaves_the_middle(before, middle, after, drop);
}

/// What stands on both sides of the first separator is told apart.
pub proof fn the_first_separator_parts_the_sides(
    left: Seq<char>,
    right: Seq<char>,
    separator: char,
)
    requires
        !left.contains(separator),
    ensures
        text::sides(left + seq![separator] + right, separator) == Some((left, right)),
        text::sides(left, separator) is None,
{
    let all = left + seq![separator] + right;
    assert forall|i: int| 0 <= i < left.len() implies #[trigger] left[i] != separator by {}
    assert forall|i: int| 0 <= i < left.len() implies #[trigger] all[i] != separator by {
        assert(all[i] == left[i]);
    }
    text::lemma_first_index_is(all, separator, left.len() as int);
    text::lemma_first_index_is(left, separator, left.len() as int);
    assert(all.take(left.len() as int) =~= left);
    assert(all.skip(left.len() as int + 1) =~= right);
}

/// Text is taken apart at each separator, and at nothing else.
pub proof fn pieces_stand_between_separators(
    piece: Seq<char>,
    rest: Seq<char>,
    separator: char,
)
    requires
        !piece.contains(separator),
    ensures
        text::pieces(piece, separator) == seq![piece],
        text::pieces(piece + seq![separator] + rest, separator) == seq![piece] + text::pieces(
            rest,
            separator,
        ),
{
    let all = piece + seq![separator] + rest;
    assert forall|i: int| 0 <= i < piece.len() implies #[trigger] piece[i] != separator by {}
    assert forall|i: int| 0 <= i < piece.len() implies #[trigger] all[i] != separator by {
        assert(all[i] == piece[i]);
    }
    text::lemma_first_index_is(all, separator, piece.len() as int);
    text::lemma_first_index_is(piece, separator, piece.len() as int);
    assert(all.take(piece.len() as int) =~= piece);
    assert(all.skip(piece.len() as int + 1) =~= rest);
}

/// Two texts are the same but for case where each character is the same or the two are
/// the upper and the lower case form of one ASCII letter.
pub proof fn only_ascii_letters_have_case(a: Seq<char>, b: Seq<char>)
    ensures
        text::same_ignoring_ascii_case(a, b) <==> a.len() == b.len() && forall|i: int|
            0 <= i < a.len() ==> {
                let x = #[trigger] a[i];
                let y = b[i];
                ||| x == y
                ||| 65 <= x as u32 <= 90 && y as u32 == x as u32 + 32
                ||| 65 <= y as u32 <= 90 && x as u32 == y as u32 + 32
            },
{
    if a.len() == b.len() {
        assert forall|i: int| 0 <= i < a.len() implies (text::ascii_lower(#[trigger] a[i])
            == text::ascii_lower(b[i]) <==> {
            let x = a[i];
            let y = b[i];
            ||| x == y
            ||| 65 <= x as u32 <= 90 && y as u32 == x as u32 + 32
            ||| 65 <= y as u32 <= 90 && x as u32 == y as u32 + 32
        }) by {
            lemma_lower(a[i]);
            lemma_lower(b[i]);
        }
        if text::same_ignoring_ascii_case(a, b) {
            assert forall|i: int| 0 <= i < a.len() implies {
                let x = #[trigger] a[i];
                let y = b[i];
                ||| x == y
                ||| 65 <= x as u32 <= 90 && y as u32 == x as u32 + 32
                ||| 65 <= y as u32 <= 90 && x as u32 == y as u32 + 32
            } by {
                assert(text::ascii_lower(a[i]) == text::ascii_lower(b[i]));
            }
        }
    }
}

proof fn lemma_lower(c: char)
    ensures
        text::ascii_lower(c) as u32 == (if 65 <= c as u32 <= 90 {
            (c as u32 + 32) as u32
        } else {
            c as u32
        }),
{
}

/// A number is read digit by digit: another digit makes it ten times as large and adds
/// the digit.
pub proof fn a_digit_more_makes_ten_times_as_much(digits: Seq<char>, digit: char)
    ensures
        text::decimal(Seq::empty()) == 0,
        text::decimal(digits.push(digit)) == 10 * text::decimal(digits) + (digit as u32 - 48),
{
    assert(digits.push(digit).drop_last() =~= digits);
}

/// One or more digits are a number, if it fits, with or without one plus sign before
/// them; nothing else is.
pub proof fn digits_are_a_number(s: Seq<char>)
    ensures
        ({
            let all_digits = s.len() > 0 && forall|i: int|
                0 <= i < s.len() ==> '0' <= #[trigger] s[i] <= '9';
            let signed = seq!['+'] + s;
            let number = if all_digits && text::decimal(s) <= u64::MAX {
                Some(text::decimal(s) as u64)
            } else {
                None
            };
            &&& text::unsigned_number(signed) == number
            &&& s.len() == 0 || s[0] != '+' ==> text::unsigned_number(s) == number
        }),
{
    let signed = seq!['+'] + s;
    assert(signed.drop_first() =~= s);
    assert forall|i: int| 0 <= i < s.len() implies text::digit(#[trigger] s[i]) == ('0' <= s[i]
        <= '9') by {}
}

} // verus!
