//! What is known of a downloaded file, and how long it may be used before its
//! URL is asked again.

use vstd::prelude::*;

use crate::text;

verus! {

/// How long a downloaded remote file is used before its URL is checked for
/// changes. Remote configuration is often pinned to a branch whose content
/// changes over time, so a cached copy can't be used forever.
pub const REMOTE_FILE_MAX_AGE_SECS: u64 = 3600;

/// The headers of a response: names and values, in order.
pub type Headers = Seq<(Seq<char>, Seq<char>)>;

/// Whether no name occurs twice.
pub open spec fn distinct_names(headers: Headers) -> bool {
    forall|i: int, j: int|
        0 <= i < j < headers.len() ==> (#[trigger] headers[i]).0 != (#[trigger] headers[j]).0
}

/// The value that stands with `name`.
pub open spec fn header_value(headers: Headers, name: Seq<char>) -> Option<Seq<char>>
    decreases headers.len(),
{
    if headers.len() == 0 {
        None
    } else if headers[0].0 == name {
        Some(headers[0].1)
    } else {
        header_value(headers.drop_first(), name)
    }
}

/// The headers with `value` standing with `name`.
pub open spec fn with_header(headers: Headers, name: Seq<char>, value: Seq<char>) -> Headers
    decreases headers.len(),
{
    if headers.len() == 0 {
        seq![(name, value)]
    } else if headers[0].0 == name {
        headers.update(0, (name, value))
    } else {
        seq![headers[0]] + with_header(headers.drop_first(), name, value)
    }
}

/// The directives that a `Cache-Control` header with this value holds.
pub open spec fn value_directives(value: Seq<char>) -> Seq<Seq<char>> {
    text::pieces(value, ',').map_values(|piece: Seq<char>| text::trimmed_space(piece))
}

/// The directives of all `Cache-Control` headers, whatever the case of their
/// names, in order.
pub open spec fn directives(headers: Headers) -> Seq<Seq<char>>
    decreases headers.len(),
{
    if headers.len() == 0 {
        Seq::empty()
    } else {
        let before = directives(headers.drop_last());
        let (name, value) = headers.last();
        if text::same_ignoring_ascii_case(name, "cache-control"@) {
            before + value_directives(value)
        } else {
            before
        }
    }
}

/// The number of seconds that a `max-age` directive writes; `None` of any other
/// directive and where the number can't be read.
pub open spec fn directive_max_age(directive: Seq<char>) -> Option<u64> {
    match text::sides(directive, '=') {
        Some((name, value)) => if text::same_ignoring_ascii_case(text::trimmed_space(name), "max-age"@) {
            text::unsigned_number(text::trimmed(text::trimmed_space(value), |c: char| c == '"'))
        } else {
            None
        },
        None => None,
    }
}

/// The seconds of the first `max-age` directive that can be read.
pub open spec fn max_age(directives: Seq<Seq<char>>) -> Option<u64>
    decreases directives.len(),
{
    if directives.len() == 0 {
        None
    } else {
        match directive_max_age(directives[0]) {
            Some(seconds) => Some(seconds),
            None => max_age(directives.drop_first()),
        }
    }
}

/// Whether some directive is `immutable`.
pub open spec fn immutable(directives: Seq<Seq<char>>) -> bool {
    exists|i: int|
        0 <= i < directives.len() && text::same_ignoring_ascii_case(
            #[trigger] directives[i],
            "immutable"@,
        )
}

/// How long a response with these headers is used before it's checked.
pub open spec fn lifetime(headers: Headers) -> u64 {
    if immutable(directives(headers)) {
        match max_age(directives(headers)) {
            Some(seconds) => if seconds > REMOTE_FILE_MAX_AGE_SECS {
                seconds
            } else {
                REMOTE_FILE_MAX_AGE_SECS
            },
            None => REMOTE_FILE_MAX_AGE_SECS,
        }
    } else {
        REMOTE_FILE_MAX_AGE_SECS
    }
}

/// A cached response.
pub ghost struct CacheEntryView {
    pub headers: Headers,
    pub url: Seq<char>,
    pub time: Option<u64>,
    pub content: Seq<u8>,
}

/// Whether a cached response is used at the time `now` without being checked.
pub open spec fn fresh(headers: Headers, time: Option<u64>, now: u64) -> bool {
    match time {
        Some(time) => now - time < lifetime(headers),
        None => false,
    }
}

/// The headers of a response. No name occurs twice; names that differ in case
/// only are different names.
#[derive(Debug, PartialEq, Eq)]
pub struct HeadersMap {
    entries: Vec<(String, String)>,
}

spec fn entry_texts(entries: Seq<(String, String)>) -> Headers {
    Seq::new(entries.len(), |i: int| (entries[i].0@, entries[i].1@))
}

impl View for HeadersMap {
    type V = Headers;

    closed spec fn view(&self) -> Headers {
        entry_texts(self.entries@)
    }
}

proof fn lemma_header_value_at(headers: Headers, name: Seq<char>, value: Seq<char>, at: int)
    requires
        0 <= at <= headers.len(),
        forall|i: int| 0 <= i < at ==> (#[trigger] headers[i]).0 != name,
        at < headers.len() ==> headers[at].0 == name,
    ensures
        header_value(headers, name) == (if at < headers.len() {
            Some(headers[at].1)
        } else {
            None
        }),
        with_header(headers, name, value) == (if at < headers.len() {
            headers.update(at, (name, value))
        } else {
            headers.push((name, value))
        }),
    decreases headers.len(),
{
    if headers.len() == 0 {
        assert(headers.push((name, value)) =~= seq![(name, value)]);
    } else if at > 0 {
        let rest = headers.drop_first();
        assert forall|i: int| 0 <= i < at - 1 implies (#[trigger] rest[i]).0 != name by {
            assert(rest[i] == headers[i + 1]);
        }
        assert(headers[0].0 != name);
        lemma_header_value_at(rest, name, value, at - 1);
        if at < headers.len() {
            assert(seq![headers[0]] + rest.update(at - 1, (name, value)) =~= headers.update(
                at,
                (name, value),
            ));
        } else {
            assert(seq![headers[0]] + rest.push((name, value)) =~= headers.push((name, value)));
        }
    }
}

/// A value that was put in is read back, and the values of all other names stay.
pub proof fn with_header_reads_back(
    headers: Headers,
    name: Seq<char>,
    value: Seq<char>,
    other: Seq<char>,
)
    ensures
        header_value(with_header(headers, name, value), name) == Some(value),
        other != name ==> header_value(with_header(headers, name, value), other) == header_value(
            headers,
            other,
        ),
    decreases headers.len(),
{
    let after = with_header(headers, name, value);
    if headers.len() == 0 {
        assert(after.drop_first() =~= headers);
    } else if headers[0].0 == name {
        assert(after.drop_first() =~= headers.drop_first());
    } else {
        with_header_reads_back(headers.drop_first(), name, value, other);
        assert(after.drop_first() =~= with_header(headers.drop_first(), name, value));
    }
}

/// Putting a value in leaves no name that occurs twice.
pub proof fn with_header_keeps_names_distinct(headers: Headers, name: Seq<char>, value: Seq<char>)
    requires
        distinct_names(headers),
    ensures
        distinct_names(with_header(headers, name, value)),
    decreases headers.len(),
{
    let after = with_header(headers, name, value);
    if headers.len() > 0 && headers[0].0 != name {
        let rest = headers.drop_first();
        assert forall|i: int, j: int| 0 <= i < j < rest.len() implies (#[trigger] rest[i]).0 != (
        #[trigger] rest[j]).0 by {
            assert(rest[i] == headers[i + 1]);
            assert(rest[j] == headers[j + 1]);
        }
        with_header_keeps_names_distinct(rest, name, value);
        let changed = with_header(rest, name, value);
        lemma_other_names(rest, name, value);
        assert forall|i: int, j: int| 0 <= i < j < after.len() implies (#[trigger] after[i]).0 != (
        #[trigger] after[j]).0 by {
            assert(after[j] == changed[j - 1]);
            if i > 0 {
                assert(after[i] == changed[i - 1]);
            } else if changed[j - 1].0 != name {
                let k = choose|k: int|
                    0 <= k < rest.len() && (#[trigger] rest[k]).0 == changed[j - 1].0;
                assert(rest[k] == headers[k + 1]);
            }
        }
    }
}

proof fn lemma_other_names(headers: Headers, name: Seq<char>, value: Seq<char>)
    ensures
        forall|j: int|
            0 <= j < with_header(headers, name, value).len() && (#[trigger] with_header(
                headers,
                name,
                value,
            )[j]).0 != name ==> exists|k: int|
                0 <= k < headers.len() && (#[trigger] headers[k]).0 == with_header(
                    headers,
                    name,
                    value,
                )[j].0,
    decreases headers.len(),
{
    let after = with_header(headers, name, value);
    if headers.len() > 0 {
        let rest = headers.drop_first();
        lemma_other_names(rest, name, value);
        assert forall|j: int| 0 <= j < after.len() && (#[trigger] after[j]).0
            != name implies exists|k: int|
            0 <= k < headers.len() && (#[trigger] headers[k]).0 == after[j].0 by {
            if headers[0].0 == name {
                assert(headers[j].0 == after[j].0);
            } else if j == 0 {
                assert(headers[0].0 == after[0].0);
            } else {
                let changed = with_header(rest, name, value);
                assert(after[j] == changed[j - 1]);
                let k = choose|k: int|
                    0 <= k < rest.len() && (#[trigger] rest[k]).0 == changed[j - 1].0;
                assert(headers[k + 1].0 == after[j].0);
            }
        }
    }
}

impl HeadersMap {
    #[verifier::type_invariant]
    spec fn valid(self) -> bool {
        distinct_names(self@)
    }

    /// No headers.
    pub fn new() -> (headers: HeadersMap)
        ensures
            headers@ == Headers::empty(),
    {
        let headers = HeadersMap { entries: Vec::new() };
        assert(headers@ =~= Headers::empty());
        headers
    }

    fn position(entries: &Vec<(String, String)>, name: &str) -> (at: usize)
        ensures
            at <= entries@.len(),
            forall|i: int| 0 <= i < at ==> (#[trigger] entry_texts(entries@)[i]).0 != name@,
            at < entries@.len() ==> entry_texts(entries@)[at as int].0 == name@,
    {
        let mut at: usize = 0;
        while at < entries.len() && !text::same_text(entries[at].0.as_str(), name)
            invariant
                at <= entries.len(),
                forall|i: int| 0 <= i < at ==> (#[trigger] entry_texts(entries@)[i]).0 != name@,
            decreases entries.len() - at,
        {
            at = at + 1;
        }
        at
    }

    /// Puts `value` with `name`, in place of the value that stood there.
    pub fn insert(&mut self, name: String, value: String)
        ensures
            final(self)@ == with_header(old(self)@, name@, value@),
    {
        proof {
            use_type_invariant(&*self);
        }
        let mut entries: Vec<(String, String)> = Vec::new();
        std::mem::swap(&mut entries, &mut self.entries);
        let ghost before = entry_texts(entries@);
        let at = HeadersMap::position(&entries, name.as_str());
        proof {
            lemma_header_value_at(before, name@, value@, at as int);
            with_header_keeps_names_distinct(before, name@, value@);
        }
        let ghost after = with_header(before, name@, value@);
        if at < entries.len() {
            entries[at] = (name, value);
        } else {
            entries.push((name, value));
        }
        assert(entry_texts(entries@) =~= after);
        self.entries = entries;
    }

    /// The value that stands with `name`.
    pub fn get(&self, name: &str) -> (value: Option<&str>)
        ensures
            match value {
                Some(value) => header_value(self@, name@) == Some(value@),
                None => header_value(self@, name@) is None,
            },
    {
        let at = HeadersMap::position(&self.entries, name);
        proof {
            lemma_header_value_at(self@, name@, name@, at as int);
        }
        if at < self.entries.len() {
            Some(self.entries[at].1.as_str())
        } else {
            None
        }
    }
}

impl Clone for HeadersMap {
    fn clone(&self) -> (copy: Self)
        ensures
            copy@ == self@,
    {
        proof {
            use_type_invariant(self);
        }
        let mut entries: Vec<(String, String)> = Vec::new();
        let mut i: usize = 0;
        while i < self.entries.len()
            invariant
                i <= self.entries.len(),
                entries@.len() == i,
                forall|j: int|
                    0 <= j < i ==> (#[trigger] entries@[j]).0@ == self.entries@[j].0@
                        && entries@[j].1@ == self.entries@[j].1@,
            decreases self.entries.len() - i,
        {
            let name = self.entries[i].0.clone();
            let value = self.entries[i].1.clone();
            entries.push((name, value));
            i = i + 1;
        }
        assert(entry_texts(entries@) =~= self@);
        HeadersMap { entries }
    }
}

/// What the cache records of a response beside its content. `time` is when the
/// response was written, in seconds since the Unix epoch, where that is known.
#[derive(Debug, PartialEq, Eq)]
pub struct SerializedCachedUrlMetadata {
    pub headers: HeadersMap,
    pub url: String,
    pub time: Option<u64>,
}

/// A cached response.
#[derive(Debug, PartialEq, Eq)]
pub struct CacheEntry {
    pub metadata: SerializedCachedUrlMetadata,
    pub content: Vec<u8>,
}

impl View for CacheEntry {
    type V = CacheEntryView;

    open spec fn view(&self) -> CacheEntryView {
        CacheEntryView {
            headers: self.metadata.headers@,
            url: self.metadata.url@,
            time: self.metadata.time,
            content: self.content@,
        }
    }
}

spec fn char_lists(lists: Seq<Vec<char>>) -> Seq<Seq<char>> {
    Seq::new(lists.len(), |i: int| lists[i]@)
}

proof fn lemma_value_directives(value: Seq<char>)
    ensures
        ({
            let at = text::first_index(value, ',');
            value_directives(value) == (if at < value.len() {
                seq![text::trimmed_space(value.take(at))] + value_directives(value.skip(at + 1))
            } else {
                seq![text::trimmed_space(value)]
            })
        }),
{
    let at = text::first_index(value, ',');
    text::lemma_first_index(value, ',');
    if at < value.len() {
        assert(value_directives(value) =~= seq![text::trimmed_space(value.take(at))] + value_directives(
            value.skip(at + 1),
        ));
    } else {
        assert(value_directives(value) =~= seq![text::trimmed_space(value)]);
    }
}

fn push_directives(value: &[char], list: &mut Vec<Vec<char>>)
    ensures
        char_lists(final(list)@) == char_lists(old(list)@) + value_directives(value@),
{
    let ghost before = char_lists(list@);
    let mut rest = value;
    loop
        invariant_except_break
            char_lists(list@) + value_directives(rest@) == before + value_directives(value@),
        ensures
            char_lists(list@) == before + value_directives(value@),
        decreases rest@.len(),
    {
        proof {
            lemma_value_directives(rest@);
            text::lemma_first_index(rest@, ',');
        }
        let at = text::find(rest, ',');
        let piece = vstd::slice::slice_subrange(rest, 0, at);
        assert(piece@ =~= rest@.take(at as int));
        let ghost listed = char_lists(list@);
        let directive = vstd::slice::slice_to_vec(text::trim(piece));
        list.push(directive);
        assert(char_lists(list@) =~= listed.push(text::trimmed_space(rest@.take(at as int))));
        if at < rest.len() {
            let tail = vstd::slice::slice_subrange(rest, at + 1, rest.len());
            assert(tail@ =~= rest@.skip(at + 1));
            assert(char_lists(list@) + value_directives(tail@) =~= listed + value_directives(rest@));
            rest = tail;
        } else {
            assert(rest@.take(at as int) =~= rest@);
            assert(char_lists(list@) =~= listed + value_directives(rest@));
            break;
        }
    }
}

fn collect_directives(headers: &HeadersMap) -> (list: Vec<Vec<char>>)
    ensures
        char_lists(list@) == directives(headers@),
{
    let wanted = text::chars_of("cache-control");
    let mut list: Vec<Vec<char>> = Vec::new();
    let mut i: usize = 0;
    assert(headers@.take(0) =~= Headers::empty());
    assert(char_lists(list@) =~= directives(headers@.take(0)));
    while i < headers.entries.len()
        invariant
            i <= headers.entries.len(),
            headers@.len() == headers.entries.len(),
            wanted@ == "cache-control"@,
            char_lists(list@) == directives(headers@.take(i as int)),
        decreases headers.entries.len() - i,
    {
        let ghost longer = headers@.take(i + 1);
        assert(longer.drop_last() =~= headers@.take(i as int));
        assert(longer.last() == headers@[i as int]);
        let name = text::chars_of(headers.entries[i].0.as_str());
        if text::eq_ignore_ascii_case(name.as_slice(), wanted.as_slice()) {
            let value = text::chars_of(headers.entries[i].1.as_str());
            push_directives(value.as_slice(), &mut list);
        }
        i = i + 1;
    }
    assert(headers@.take(i as int) =~= headers@);
    list
}

fn read_max_age(directive: &[char]) -> (seconds: Option<u64>)
    ensures
        seconds == directive_max_age(directive@),
{
    let wanted = text::chars_of("max-age");
    match text::split_once(directive, '=') {
        Some((name, value)) => if text::eq_ignore_ascii_case(text::trim(name), wanted.as_slice()) {
            text::parse_unsigned(text::trim_matches(text::trim(value), '"'))
        } else {
            None
        },
        None => None,
    }
}

/// How long a cached response is used before it's checked for changes. A
/// response marked `Cache-Control: immutable` (ex. a CDN URL pinned to a tag or
/// commit) promises not to change for its `max-age`, so it's trusted for that
/// long when that's longer than the default.
pub fn freshness_lifetime_secs(headers: &HeadersMap) -> (seconds: u64)
    ensures
        seconds == lifetime(headers@),
{
    let wanted = text::chars_of("immutable");
    let list = collect_directives(headers);
    let ghost all = directives(headers@);
    let mut is_immutable = false;
    let mut i: usize = 0;
    while i < list.len()
        invariant
            i <= list.len(),
            char_lists(list@) == all,
            wanted@ == "immutable"@,
            is_immutable == exists|j: int|
                0 <= j < i && text::same_ignoring_ascii_case(#[trigger] all[j], "immutable"@),
        decreases list.len() - i,
    {
        assert(all[i as int] == list@[i as int]@);
        if text::eq_ignore_ascii_case(list[i].as_slice(), wanted.as_slice()) {
            is_immutable = true;
        }
        i = i + 1;
    }
    if !is_immutable {
        return REMOTE_FILE_MAX_AGE_SECS;
    }
    let mut seconds: u64 = REMOTE_FILE_MAX_AGE_SECS;
    let mut next: usize = 0;
    assert(all.skip(0) =~= all);
    let mut found = false;
    while next < list.len() && !found
        invariant
            next <= list.len(),
            char_lists(list@) == all,
            found ==> max_age(all) is Some && seconds == (if max_age(all)->0
                > REMOTE_FILE_MAX_AGE_SECS {
                max_age(all)->0
            } else {
                REMOTE_FILE_MAX_AGE_SECS
            }),
            !found ==> seconds == REMOTE_FILE_MAX_AGE_SECS && max_age(all) == max_age(
                all.skip(next as int),
            ),
        decreases list.len() - next,
    {
        assert(all.skip(next as int)[0] == list@[next as int]@);
        assert(all.skip(next as int).drop_first() =~= all.skip(next + 1));
        match read_max_age(list[next].as_slice()) {
            Some(age) => {
                found = true;
                if age > REMOTE_FILE_MAX_AGE_SECS {
                    seconds = age;
                }
            },
            None => {},
        }
        next = next + 1;
    }
    seconds
}

/// Whether a cached response is used at the time `now_secs`, in seconds since the
/// Unix epoch, without checking its URL for changes.
pub fn is_cache_entry_fresh(entry: &CacheEntry, now_secs: u64) -> (yes: bool)
    ensures
        yes == fresh(entry@.headers, entry@.time, now_secs),
{
    match entry.metadata.time {
        Some(time) => now_secs.saturating_sub(time) < freshness_lifetime_secs(
            &entry.metadata.headers,
        ),
        None => false,
    }
}

/// No response is checked sooner than the default, whatever its headers say.
pub proof fn lifetime_is_never_below_the_default(headers: Headers)
    ensures
        lifetime(headers) >= REMOTE_FILE_MAX_AGE_SECS,
{
}

/// A `max-age` alone isn't trusted: only an `immutable` response lives longer than
/// the default.
pub proof fn lifetime_is_the_default_unless_immutable(headers: Headers)
    requires
        !immutable(directives(headers)),
    ensures
        lifetime(headers) == REMOTE_FILE_MAX_AGE_SECS,
{
}

/// A response that need not be checked yet needed no check at any earlier time,
/// so one that has become stale stays stale.
pub proof fn freshness_only_ends(headers: Headers, time: Option<u64>, earlier: u64, later: u64)
    requires
        earlier <= later,
        fresh(headers, time, later),
    ensures
        fresh(headers, time, earlier),
{
}

/// A response is fresh for less than its lifetime after it was written, also where
/// the clock has gone backwards since.
pub proof fn a_written_response_is_fresh_for_its_lifetime(headers: Headers, time: u64, now: u64)
    ensures
        fresh(headers, Some(time), now) <==> now < time + lifetime(headers),
        now <= time ==> fresh(headers, Some(time), now),
{
    lifetime_is_never_below_the_default(headers);
}

/// The case of ASCII letters in header names does not matter to the lifetime.
pub proof fn lifetime_ignores_the_case_of_names(a: Headers, b: Headers)
    requires
        a.len() == b.len(),
        forall|i: int|
            0 <= i < a.len() ==> text::same_ignoring_ascii_case((#[trigger] a[i]).0, b[i].0) && a[i].1
                == b[i].1,
    ensures
        lifetime(a) == lifetime(b),
{
    lemma_directives_ignore_the_case_of_names(a, b);
}

proof fn lemma_directives_ignore_the_case_of_names(a: Headers, b: Headers)
    requires
        a.len() == b.len(),
        forall|i: int|
            0 <= i < a.len() ==> text::same_ignoring_ascii_case((#[trigger] a[i]).0, b[i].0) && a[i].1
                == b[i].1,
    ensures
        directives(a) == directives(b),
    decreases a.len(),
{
    if a.len() > 0 {
        let last = a.len() - 1;
        lemma_directives_ignore_the_case_of_names(a.drop_last(), b.drop_last());
        let x = a[last].0;
        let y = b[last].0;
        let wanted = "cache-control"@;
        assert(text::same_ignoring_ascii_case(x, y));
        if text::same_ignoring_ascii_case(x, wanted) {
            assert forall|i: int| 0 <= i < y.len() implies text::ascii_lower(#[trigger] y[i])
                == text::ascii_lower(wanted[i]) by {
                assert(text::ascii_lower(x[i]) == text::ascii_lower(y[i]));
            }
        }
        if text::same_ignoring_ascii_case(y, wanted) {
            assert forall|i: int| 0 <= i < x.len() implies text::ascii_lower(#[trigger] x[i])
                == text::ascii_lower(wanted[i]) by {
                assert(text::ascii_lower(y[i]) == text::ascii_lower(wanted[i]));
            }
        }
    }
}

} // verus!
