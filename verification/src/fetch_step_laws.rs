//! What each step of a fetch does, said of the headers and URLs that it gets.

use vstd::prelude::*;

use crate::errors::ResolveErrorView;
use crate::http_cache;
use crate::http_cache::{CacheEntryView, Headers};
use crate::paths::PathSourceView;
use crate::remote_file;
use crate::remote_file::{CacheWriteView, DownloadView, FetchStepView, FetchView};
use crate::remote_url;
use crate::resolved_file::FileBytesView;

verus! {

/// A fetch starts at the URL that was asked for, with nothing to write, and looks at up
/// to eleven URLs.
pub proof fn a_fetch_starts_at_its_url(url: Seq<char>, now: u64)
    ensures
        ({
            let fetch = remote_file::initial(url, now);
            &&& fetch.url == url
            &&& fetch.current == url
            &&& fetch.now == now
            &&& fetch.pending.len() == 0
            &&& fetch.previous is None
            &&& !fetch.changed
            &&& fetch.attempts == 11
        }),
{
}

/// What is not cached is downloaded with nothing to check it against, and a cache that
/// can't be read ends the fetch with its error.
pub proof fn what_is_not_cached_is_downloaded<E>(fetch: FetchView, error: E)
    ensures
        remote_file::lookup_step::<E>(fetch, Ok(None)) == FetchStepView::<E>::Download(fetch, None),
        remote_file::lookup_step(fetch, Err(error)) == FetchStepView::Failed(
            ResolveErrorView::Environment(error),
        ),
{
}

/// A cached entry whose seconds are over is downloaded again, whatever it holds, and the
/// entry is what the download is checked against.
pub proof fn a_stale_entry_is_downloaded_again<E>(fetch: FetchView, entry: CacheEntryView)
    requires
        match entry.time {
            Some(time) => fetch.now >= time + http_cache::lifetime(entry.headers),
            None => true,
        },
    ensures
        remote_file::lookup_step::<E>(fetch, Ok(Some(entry))) == FetchStepView::<E>::Download(
            fetch,
            Some(entry),
        ),
{
}

/// A fresh cached entry with a `location` leads to that location, as it stands in the
/// header, joined to the URL of the entry. The rest of the fetch stays as it is, with one
/// URL less to look at; there the fetch fails if this was the last.
pub proof fn a_fresh_redirect_leads_to_its_location<E>(
    fetch: FetchView,
    entry: CacheEntryView,
    time: u64,
    location: Seq<char>,
)
    requires
        entry.time == Some(time),
        fetch.now < time + http_cache::lifetime(entry.headers),
        http_cache::header_value(entry.headers, "location"@) == Some(location),
    ensures
        match remote_url::url_join(fetch.current, location) {
            Ok(to) => if fetch.attempts > 1 {
                remote_file::lookup_step::<E>(fetch, Ok(Some(entry))) == FetchStepView::<E>::LookUp(
                    FetchView { current: to, attempts: fetch.attempts - 1, ..fetch },
                )
            } else {
                remote_file::lookup_step::<E>(fetch, Ok(Some(entry))) == FetchStepView::<E>::Failed(
                    ResolveErrorView::TooManyRedirects(fetch.url),
                )
            },
            Err(message) => remote_file::lookup_step::<E>(fetch, Ok(Some(entry)))
                == FetchStepView::<E>::Failed(ResolveErrorView::InvalidUrl(message)),
        },
{
}

/// A fresh cached entry without a `location` is the file. Its source is the URL that the
/// entry records, or the one it was found under where that can't be read, and it counts as
/// a first download only where a redirect on the way leads elsewhere than it did.
pub proof fn fresh_content_is_the_file<E>(fetch: FetchView, entry: CacheEntryView, time: u64)
    requires
        entry.time == Some(time),
        fetch.now < time + http_cache::lifetime(entry.headers),
        http_cache::header_value(entry.headers, "location"@) is None,
    ensures
        match remote_file::lookup_step::<E>(fetch, Ok(Some(entry))) {
            FetchStepView::Done(file, writes) => {
                &&& file.content == entry.content
                &&& file.is_first_download == fetch.changed
                &&& writes == fetch.pending
                &&& remote_url::url_parse(entry.url) matches Ok(url) ==> file.source
                    == PathSourceView::Remote { url }
                &&& remote_url::url_parse(entry.url) is Err ==> file.source
                    == PathSourceView::Remote { url: fetch.current }
            },
            _ => false,
        },
{
}

/// A response with a `location` leads to that location, as it stands in the header,
/// joined to the current URL. It is to be written, under the current URL and without
/// content. Where nothing cached was checked the rest of the fetch stays as it is, with
/// one URL less to look at; the fetch fails if this was the last.
pub proof fn a_new_redirect_leads_to_its_location<E>(
    fetch: FetchView,
    response: DownloadView,
    location: Seq<char>,
)
    requires
        http_cache::header_value(response.headers, "location"@) == Some(location),
    ensures
        ({
            let (step, warning) = remote_file::download_step::<E>(fetch, None, Ok(Some(response)));
            &&& warning is None
            &&& match remote_url::url_join(fetch.current, location) {
                Ok(to) => if fetch.attempts > 1 {
                    step == FetchStepView::<E>::LookUp(
                        FetchView {
                            current: to,
                            attempts: fetch.attempts - 1,
                            pending: fetch.pending.push(
                                CacheWriteView {
                                    url: fetch.current,
                                    headers: response.headers,
                                    content: Seq::empty(),
                                },
                            ),
                            ..fetch
                        },
                    )
                } else {
                    step == FetchStepView::<E>::Failed(
                        ResolveErrorView::TooManyRedirects(fetch.url),
                    )
                },
                Err(message) => step == FetchStepView::<E>::Failed(
                    ResolveErrorView::InvalidUrl(message),
                ),
            }
        }),
{
}

/// A response with a `location` that a cached entry is checked against leads to that
/// location, as it stands in the header. Where the entry's own `location`, as it stands in
/// its header, joins to the same URL, nothing has changed. Where it joins to another, or
/// there is none, the chain has changed, and the entry with its URL is what the fetch can
/// fall back to.
pub proof fn a_checked_redirect_leads_to_its_location<E>(
    fetch: FetchView,
    entry: CacheEntryView,
    response: DownloadView,
    location: Seq<char>,
    to: Seq<char>,
)
    requires
        fetch.attempts > 1,
        http_cache::header_value(response.headers, "location"@) == Some(location),
        remote_url::url_join(fetch.current, location) == Ok::<Seq<char>, Seq<char>>(to),
    ensures
        ({
            let (step, warning) = remote_file::download_step::<E>(
                fetch,
                Some(entry),
                Ok(Some(response)),
            );
            let pending = fetch.pending.push(
                CacheWriteView {
                    url: fetch.current,
                    headers: response.headers,
                    content: Seq::empty(),
                },
            );
            let same = FetchView {
                current: to,
                attempts: fetch.attempts - 1,
                pending,
                ..fetch
            };
            let other = FetchView {
                current: to,
                attempts: fetch.attempts - 1,
                pending,
                changed: true,
                previous: Some((fetch.current, entry)),
                ..fetch
            };
            &&& warning is None
            &&& match http_cache::header_value(entry.headers, "location"@) {
                Some(cached) => match remote_url::url_join(fetch.current, cached) {
                    Ok(before) => {
                        &&& before == to ==> step == FetchStepView::<E>::LookUp(same)
                        &&& before != to ==> step == FetchStepView::<E>::LookUp(other)
                    },
                    Err(message) => step == FetchStepView::<E>::Failed(
                        ResolveErrorView::InvalidUrl(message),
                    ),
                },
                None => step == FetchStepView::<E>::LookUp(other),
            }
        }),
{
}

/// A response whose `location` can't be joined to the current URL ends the fetch, and so
/// does one that redirects from the last URL that may be looked at, whatever was cached;
/// an entry whose own `location` can't be joined ends it too.
pub proof fn a_redirect_that_cant_be_followed_ends_the_fetch<E>(
    fetch: FetchView,
    stale: Option<CacheEntryView>,
    response: DownloadView,
    location: Seq<char>,
)
    requires
        http_cache::header_value(response.headers, "location"@) == Some(location),
    ensures
        ({
            let (step, warning) = remote_file::download_step::<E>(fetch, stale, Ok(Some(response)));
            &&& warning is None
            &&& remote_url::url_join(fetch.current, location) matches Err(message) ==> step
                == FetchStepView::<E>::Failed(ResolveErrorView::InvalidUrl(message))
            &&& remote_url::url_join(fetch.current, location) is Ok && fetch.attempts <= 1 && (
            stale matches Some(entry) ==> (http_cache::header_value(entry.headers, "location"@)
                matches Some(cached) ==> remote_url::url_join(fetch.current, cached) is Ok))
                ==> step == FetchStepView::<E>::Failed(
                ResolveErrorView::TooManyRedirects(fetch.url),
            )
        }),
{
}

/// A response without a `location` is the file, and comes from the current URL. It is
/// written after the redirects that led to it. It counts as a first download where the
/// chain has changed, where nothing cached was checked and where the content differs from
/// what was cached, and not otherwise.
pub proof fn downloaded_content_is_the_file<E>(
    fetch: FetchView,
    stale: Option<CacheEntryView>,
    response: DownloadView,
)
    requires
        http_cache::header_value(response.headers, "location"@) is None,
    ensures
        ({
            let (step, warning) = remote_file::download_step::<E>(fetch, stale, Ok(Some(response)));
            &&& warning is None
            &&& match step {
                FetchStepView::Done(file, writes) => {
                    &&& file.source == PathSourceView::Remote { url: fetch.current }
                    &&& file.content == response.content
                    &&& fetch.changed ==> file.is_first_download
                    &&& stale is None ==> file.is_first_download
                    &&& !fetch.changed ==> (stale matches Some(entry) ==> (file.is_first_download
                        <==> entry.content != response.content))
                    &&& writes == fetch.pending + seq![
                        CacheWriteView {
                            url: fetch.current,
                            headers: response.headers,
                            content: response.content,
                        },
                    ]
                },
                _ => false,
            }
        }),
{
    assert(fetch.pending.push(
        CacheWriteView {
            url: fetch.current,
            headers: response.headers,
            content: response.content,
        },
    ) =~= fetch.pending + seq![
        CacheWriteView {
            url: fetch.current,
            headers: response.headers,
            content: response.content,
        },
    ]);
}

/// A URL where nothing is ends the fetch, whatever was cached: the URL that was asked for
/// is what could not be found.
pub proof fn nothing_there_ends_the_fetch<E>(fetch: FetchView, stale: Option<CacheEntryView>)
    ensures
        remote_file::download_step::<E>(fetch, stale, Ok(None)) == (
            FetchStepView::<E>::Failed(ResolveErrorView::NotFound(fetch.url)),
            None::<E>,
        ),
{
}

/// Where a download fails and an entry was checked, the fetch goes on with the entry as if
/// it were fresh, warns of the error, and writes nothing of what led there. The entry's
/// `location`, as it stands in its header, is joined to the current URL.
pub proof fn a_failed_check_goes_on_with_the_entry<E>(
    fetch: FetchView,
    entry: CacheEntryView,
    error: E,
)
    ensures
        ({
            let (step, warning) = remote_file::download_step(fetch, Some(entry), Err(error));
            match http_cache::header_value(entry.headers, "location"@) {
                Some(location) => match remote_url::url_join(fetch.current, location) {
                    Ok(to) => warning == Some(error) && step == if fetch.attempts > 1 {
                        FetchStepView::<E>::LookUp(
                            FetchView {
                                current: to,
                                attempts: fetch.attempts - 1,
                                pending: Seq::empty(),
                                ..fetch
                            },
                        )
                    } else {
                        FetchStepView::<E>::Failed(ResolveErrorView::TooManyRedirects(fetch.url))
                    },
                    Err(message) => warning is None && step == FetchStepView::<E>::Failed(
                        ResolveErrorView::InvalidUrl(message),
                    ),
                },
                None => warning == Some(error) && step == FetchStepView::<E>::Done(
                    FileBytesView {
                        source: PathSourceView::Remote {
                            url: match remote_url::url_parse(entry.url) {
                                Ok(url) => url,
                                Err(_) => fetch.current,
                            },
                        },
                        is_first_download: fetch.changed,
                        content: entry.content,
                    },
                    Seq::empty(),
                ),
            }
        }),
{
}

/// Where a download fails, nothing was checked, and a redirect on the way had changed, the
/// fetch goes on with what that redirect was before, as if it were fresh and nothing had
/// changed. Its `location`, as it stands in its header, is joined to the URL that it was
/// cached under.
pub proof fn a_failed_download_goes_back_to_the_chain_before<E>(
    fetch: FetchView,
    url: Seq<char>,
    entry: CacheEntryView,
    error: E,
)
    requires
        fetch.previous == Some((url, entry)),
    ensures
        ({
            let (step, warning) = remote_file::download_step(fetch, None, Err(error));
            match http_cache::header_value(entry.headers, "location"@) {
                Some(location) => match remote_url::url_join(url, location) {
                    Ok(to) => warning == Some(error) && step == if fetch.attempts > 1 {
                        FetchStepView::<E>::LookUp(
                            FetchView {
                                current: to,
                                attempts: fetch.attempts - 1,
                                pending: Seq::empty(),
                                previous: None,
                                changed: false,
                                ..fetch
                            },
                        )
                    } else {
                        FetchStepView::<E>::Failed(ResolveErrorView::TooManyRedirects(fetch.url))
                    },
                    Err(message) => warning is None && step == FetchStepView::<E>::Failed(
                        ResolveErrorView::InvalidUrl(message),
                    ),
                },
                None => warning == Some(error) && step == FetchStepView::<E>::Done(
                    FileBytesView {
                        source: PathSourceView::Remote {
                            url: match remote_url::url_parse(entry.url) {
                                Ok(parsed) => parsed,
                                Err(_) => url,
                            },
                        },
                        is_first_download: false,
                        content: entry.content,
                    },
                    Seq::empty(),
                ),
            }
        }),
{
}

/// Where a download fails with nothing to fall back to, its error ends the fetch.
pub proof fn a_failed_download_without_a_fallback_ends_the_fetch<E>(fetch: FetchView, error: E)
    requires
        fetch.previous is None,
    ensures
        remote_file::download_step(fetch, None, Err(error)) == (
            FetchStepView::Failed(ResolveErrorView::Environment(error)),
            None::<E>,
        ),
{
}

/// Two responses from one URL, with the same `location`, lead to the same URL, whatever
/// else they hold; and a fresh cached entry with that `location` leads there too.
pub proof fn a_location_means_the_same_in_a_response_and_in_the_cache<E>(
    fetch: FetchView,
    response: DownloadView,
    entry: CacheEntryView,
    time: u64,
    location: Seq<char>,
)
    requires
        fetch.attempts > 1,
        http_cache::header_value(response.headers, "location"@) == Some(location),
        http_cache::header_value(entry.headers, "location"@) == Some(location),
        entry.time == Some(time),
        fetch.now < time + http_cache::lifetime(entry.headers),
        remote_url::url_join(fetch.current, location) is Ok,
    ensures
        match (
            remote_file::download_step::<E>(fetch, None, Ok(Some(response))).0,
            remote_file::lookup_step::<E>(fetch, Ok(Some(entry))),
        ) {
            (FetchStepView::LookUp(downloaded), FetchStepView::LookUp(cached)) => {
                &&& remote_url::url_join(fetch.current, location) == Ok::<Seq<char>, Seq<char>>(
                    downloaded.current,
                )
                &&& cached.current == downloaded.current
            },
            _ => false,
        },
{
}

/// Where a response redirects to is told by its `location` alone: `None` without one, and
/// otherwise the location, as it stands in the header, joined to the URL of the response.
/// A cached entry leads to the same place, or holds the content where it has no `location`.
pub proof fn a_location_is_joined_as_it_stands(
    current: Seq<char>,
    headers: Headers,
    entry: CacheEntryView,
)
    requires
        entry.headers == headers,
    ensures
        match http_cache::header_value(headers, "location"@) {
            Some(location) => {
                &&& remote_file::redirect_location(current, headers) == Some(
                    remote_url::url_join(current, location),
                )
                &&& remote_url::url_join(current, location) matches Ok(to)
                    ==> remote_file::entry_target(current, entry)
                    == remote_file::TargetView::Redirect(to)
                &&& remote_url::url_join(current, location) matches Err(message)
                    ==> remote_file::entry_target(current, entry)
                    == remote_file::TargetView::Invalid(message)
            },
            None => {
                &&& remote_file::redirect_location(current, headers) is None
                &&& remote_file::entry_target(current, entry) is Content
            },
        },
{
}

} // verus!
