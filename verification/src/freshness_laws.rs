//! What holds of header values and of how long a response is used.

use vstd::prelude::*;

use crate::http_cache;
use crate::http_cache::Headers;
use crate::text;
use crate::text_laws;

verus! {

/// The value of a name is the one that stands with the first header of exactly that
/// name.
pub proof fn a_value_is_found_by_its_exact_name(
    before: Headers,
    name: Seq<char>,
    value: Seq<char>,
    after: Headers,
)
    requires
        forall|i: int| 0 <= i < before.len() ==> (#[trigger] before[i]).0 != name,
    ensures
        http_cache::header_value(before + seq![(name, value)] + after, name) == Some(value),
        http_cache::header_value(before, name) is None,
    decreases before.len(),
{
    let all = before + seq![(name, value)] + after;
    if before.len() > 0 {
        let rest = before.drop_first();
        assert(before[0].0 != name);
        assert forall|i: int| 0 <= i < rest.len() implies (#[trigger] rest[i]).0 != name by {
            assert(before[i + 1].0 != name);
        }
        a_value_is_found_by_its_exact_name(rest, name, value, after);
        assert(all[0] == before[0]);
        assert(all.drop_first() =~= rest + seq![(name, value)] + after);
    } else {
        assert(all[0] == (name, value));
    }
}

/// The directives of a response are those of its `Cache-Control` headers, one header
/// after the other; no other header holds any.
pub proof fn directives_come_from_cache_control_headers(
    before: Headers,
    name: Seq<char>,
    value: Seq<char>,
)
    ensures
        http_cache::directives(Seq::empty()) == Seq::<Seq<char>>::empty(),
        text::same_ignoring_ascii_case(name, "cache-control"@) ==> http_cache::directives(
            before.push((name, value)),
        ) == http_cache::directives(before) + http_cache::value_directives(value),
        !text::same_ignoring_ascii_case(name, "cache-control"@) ==> http_cache::directives(
            before.push((name, value)),
        ) == http_cache::directives(before),
{
    assert(before.push((name, value)).drop_last() =~= before);
}

/// Directives are parted by commas, and the white space round them is no part of them.
pub proof fn directives_are_parted_by_commas(directive: Seq<char>, rest: Seq<char>)
    requires
        !directive.contains(','),
    ensures
        http_cache::value_directives(directive) == seq![text::trimmed_space(directive)],
        http_cache::value_directives(directive + seq![','] + rest) == seq![
            text::trimmed_space(directive),
        ] + http_cache::value_directives(rest),
{
    text_laws::pieces_stand_between_separators(directive, rest, ',');
    assert(http_cache::value_directives(directive) =~= seq![text::trimmed_space(directive)]);
    assert(http_cache::value_directives(directive + seq![','] + rest) =~= seq![
        text::trimmed_space(directive),
    ] + http_cache::value_directives(rest));
}

/// What stands before the first equals sign decides whether a directive is a `max-age`,
/// and what stands behind it is the number, which may be quoted. Without an equals sign
/// a directive has none.
pub proof fn a_max_age_is_told_by_its_name(name: Seq<char>, value: Seq<char>)
    requires
        !name.contains('='),
    ensures
        text::same_ignoring_ascii_case(text::trimmed_space(name), "max-age"@)
            ==> http_cache::directive_max_age(name + seq!['='] + value) == text::unsigned_number(
            text::trimmed(text::trimmed_space(value), |c: char| c == '"'),
        ),
        !text::same_ignoring_ascii_case(text::trimmed_space(name), "max-age"@)
            ==> http_cache::directive_max_age(name + seq!['='] + value) is None,
        http_cache::directive_max_age(name) is None,
{
    text_laws::the_first_separator_parts_the_sides(name, value, '=');
}

proof fn lemma_first_max_age(directives: Seq<Seq<char>>, i: int)
    requires
        0 <= i <= directives.len(),
        forall|j: int|
            0 <= j < i ==> http_cache::directive_max_age(#[trigger] directives[j]) is None,
        i < directives.len() ==> http_cache::directive_max_age(directives[i]) is Some,
    ensures
        http_cache::max_age(directives) == (if i < directives.len() {
            http_cache::directive_max_age(directives[i])
        } else {
            None
        }),
    decreases i,
{
    if i > 0 {
        let rest = directives.drop_first();
        assert(http_cache::directive_max_age(directives[0]) is None);
        assert forall|j: int| 0 <= j < i - 1 implies http_cache::directive_max_age(
            #[trigger] rest[j],
        ) is None by {
            assert(http_cache::directive_max_age(directives[j + 1]) is None);
        }
        lemma_first_max_age(rest, i - 1);
    }
}

proof fn lemma_no_max_age(directive: Seq<char>)
    requires
        forall|before: Seq<char>, after: Seq<char>|
            !before.contains('=') && directive == #[trigger] (before + seq!['='] + after)
                ==> !text::same_ignoring_ascii_case(text::trimmed_space(before), "max-age"@)
                || text::unsigned_number(
                text::trimmed(text::trimmed_space(after), |c: char| c == '"'),
            ) is None,
    ensures
        http_cache::directive_max_age(directive) is None,
{
    let at = text::first_index(directive, '=');
    text::lemma_first_index(directive, '=');
    if at < directive.len() {
        let before = directive.take(at);
        let after = directive.skip(at + 1);
        assert(directive =~= before + seq!['='] + after);
        assert forall|i: int| 0 <= i < before.len() implies #[trigger] before[i] != '=' by {
            assert(directive[i] != '=');
        }
        a_max_age_is_told_by_its_name(before, after);
    }
}

/// A response with an `immutable` directive is used for the seconds of its first
/// `max-age` directive that can be read, where they are more than the default, and for
/// the default otherwise. A directive of another name before it makes no difference,
/// nor does any directive behind it.
pub proof fn an_immutable_response_is_used_for_its_first_max_age(
    headers: Headers,
    marked: int,
    aged: int,
    name: Seq<char>,
    value: Seq<char>,
    seconds: u64,
)
    requires
        ({
            let all = http_cache::directives(headers);
            &&& 0 <= marked < all.len()
            &&& text::same_ignoring_ascii_case(all[marked], "immutable"@)
            &&& 0 <= aged < all.len()
            &&& all[aged] == name + seq!['='] + value
            &&& !name.contains('=')
            &&& text::same_ignoring_ascii_case(text::trimmed_space(name), "max-age"@)
            &&& text::unsigned_number(
                text::trimmed(text::trimmed_space(value), |c: char| c == '"'),
            ) == Some(seconds)
        }),
        forall|j: int, before: Seq<char>, after: Seq<char>|
            0 <= j < aged && !before.contains('=') && #[trigger] http_cache::directives(headers)[j]
                == #[trigger] (before + seq!['='] + after) ==> !text::same_ignoring_ascii_case(
                text::trimmed_space(before),
                "max-age"@,
            ) || text::unsigned_number(
                text::trimmed(text::trimmed_space(after), |c: char| c == '"'),
            ) is None,
    ensures
        seconds >= 3600 ==> http_cache::lifetime(headers) == seconds,
        seconds < 3600 ==> http_cache::lifetime(headers) == 3600,
{
    let all = http_cache::directives(headers);
    a_max_age_is_told_by_its_name(name, value);
    assert forall|j: int| 0 <= j < aged implies http_cache::directive_max_age(
        #[trigger] all[j],
    ) is None by {
        lemma_no_max_age(all[j]);
    }
    lemma_first_max_age(all, aged);
}

/// A response without a `max-age` directive that can be read is used for the default,
/// `immutable` or not.
pub proof fn a_response_without_a_max_age_is_used_for_the_default(headers: Headers)
    requires
        forall|j: int, before: Seq<char>, after: Seq<char>|
            0 <= j < http_cache::directives(headers).len() && !before.contains('=')
                && #[trigger] http_cache::directives(headers)[j] == #[trigger] (before + seq!['=']
                + after) ==> !text::same_ignoring_ascii_case(
                text::trimmed_space(before),
                "max-age"@,
            ) || text::unsigned_number(
                text::trimmed(text::trimmed_space(after), |c: char| c == '"'),
            ) is None,
    ensures
        http_cache::lifetime(headers) == 3600,
{
    let all = http_cache::directives(headers);
    assert forall|j: int| 0 <= j < all.len() implies http_cache::directive_max_age(
        #[trigger] all[j],
    ) is None by {
        lemma_no_max_age(all[j]);
    }
    lemma_first_max_age(all, all.len() as int);
}

/// A response none of whose directives is the word `immutable` is used for the default,
/// whatever its other directives say.
pub proof fn a_response_that_may_change_is_used_for_the_default(headers: Headers)
    requires
        forall|j: int|
            0 <= j < http_cache::directives(headers).len() ==> !text::same_ignoring_ascii_case(
                #[trigger] http_cache::directives(headers)[j],
                "immutable"@,
            ),
    ensures
        http_cache::lifetime(headers) == 3600,
{
}

/// Once a response is `immutable` and has a `max-age`, no header behind them changes how
/// long it is used.
pub proof fn later_headers_make_no_difference(
    headers: Headers,
    marked: int,
    aged: int,
    name: Seq<char>,
    value: Seq<char>,
    seconds: u64,
    later: (Seq<char>, Seq<char>),
)
    requires
        ({
            let all = http_cache::directives(headers);
            &&& 0 <= marked < all.len()
            &&& text::same_ignoring_ascii_case(all[marked], "immutable"@)
            &&& 0 <= aged < all.len()
            &&& all[aged] == name + seq!['='] + value
            &&& !name.contains('=')
            &&& text::same_ignoring_ascii_case(text::trimmed_space(name), "max-age"@)
            &&& text::unsigned_number(
                text::trimmed(text::trimmed_space(value), |c: char| c == '"'),
            ) == Some(seconds)
        }),
    ensures
        http_cache::lifetime(headers.push(later)) == http_cache::lifetime(headers),
{
    let all = http_cache::directives(headers);
    let more = http_cache::directives(headers.push(later));
    assert(headers.push(later).drop_last() =~= headers);
    assert forall|j: int| 0 <= j < all.len() implies #[trigger] more[j] == all[j] by {}
    assert(text::same_ignoring_ascii_case(more[marked], "immutable"@));
    a_max_age_is_told_by_its_name(name, value);
    lemma_common_max_age(all, more, aged);
}

proof fn lemma_common_max_age(some: Seq<Seq<char>>, more: Seq<Seq<char>>, aged: int)
    requires
        0 <= aged < some.len() <= more.len(),
        forall|j: int| 0 <= j < some.len() ==> #[trigger] more[j] == some[j],
        http_cache::directive_max_age(some[aged]) is Some,
    ensures
        http_cache::max_age(more) == http_cache::max_age(some),
    decreases aged,
{
    assert(more[0] == some[0]);
    if http_cache::directive_max_age(some[0]) is None {
        let fewer = some.drop_first();
        let rest = more.drop_first();
        assert forall|j: int| 0 <= j < fewer.len() implies #[trigger] rest[j] == fewer[j] by {
            assert(more[j + 1] == some[j + 1]);
        }
        lemma_common_max_age(fewer, rest, aged - 1);
    }
}

/// A cached response whose time of writing is not known is always checked, and one whose
/// time is known from the moment on that its seconds are over.
pub proof fn a_response_is_checked_once_its_seconds_are_over(
    headers: Headers,
    time: u64,
    now: u64,
)
    ensures
        !http_cache::fresh(headers, None, now),
        http_cache::fresh(headers, Some(time), now) <==> now < time + http_cache::lifetime(headers),
{
    http_cache::a_written_response_is_fresh_for_its_lifetime(headers, time, now);
}

} // verus!
