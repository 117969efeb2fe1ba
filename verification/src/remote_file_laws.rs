//! What holds of a whole fetch, from its first step to its last.

use vstd::prelude::*;

use crate::errors::ResolveErrorView;
use crate::http_cache;
use crate::http_cache::CacheEntryView;
use crate::paths::PathSourceView;
use crate::remote_file;
use crate::remote_file::{CacheWriteView, DownloadView, FetchStepView, FetchView, TargetView};
use crate::remote_url;
use crate::resolved_file::FileBytesView;

verus! {

/// What the cache answers when it is asked for the entry of a URL. Nothing is
/// written to the cache while a file is fetched, so the answer stays the same.
pub type Cache<E> = spec_fn(Seq<char>) -> Result<Option<CacheEntryView>, E>;

/// What the network answers when a URL is downloaded. The number of URLs that may
/// still be looked at tells the downloads of one fetch apart, so that a URL may
/// answer differently each time.
pub type Network<E> = spec_fn(int, Seq<char>) -> Result<Option<DownloadView>, E>;

/// What comes of a fetch.
pub ghost struct Outcome<E> {
    pub result: Result<FileBytesView, ResolveErrorView<E>>,
    /// What is written to the cache.
    pub writes: Seq<CacheWriteView>,
    /// The errors that were warned of.
    pub warnings: Seq<E>,
    /// How often the cache was asked.
    pub lookups: nat,
    /// How often the network was asked.
    pub downloads: nat,
}

/// A bound on the steps that are left.
pub open spec fn steps_left<E>(step: FetchStepView<E>) -> nat {
    match step {
        FetchStepView::LookUp(fetch) => if fetch.attempts > 0 {
            (2 * fetch.attempts + 2) as nat
        } else {
            2
        },
        FetchStepView::Download(fetch, _) => if fetch.attempts > 0 {
            (2 * fetch.attempts + 1) as nat
        } else {
            1
        },
        _ => 0,
    }
}

/// What comes of a fetch that stands at `step`, with this cache and network.
pub open spec fn run<E>(
    step: FetchStepView<E>,
    cache: Cache<E>,
    network: Network<E>,
) -> Outcome<E>
    decreases steps_left(step),
{
    match step {
        FetchStepView::LookUp(fetch) => {
            let rest = run(
                remote_file::lookup_step(fetch, cache(fetch.current)),
                cache,
                network,
            );
            Outcome { lookups: rest.lookups + 1, ..rest }
        },
        FetchStepView::Download(fetch, stale) => {
            let (next, warning) = remote_file::download_step(
                fetch,
                stale,
                network(fetch.attempts, fetch.current),
            );
            let rest = run(next, cache, network);
            Outcome {
                downloads: rest.downloads + 1,
                warnings: match warning {
                    Some(error) => seq![error] + rest.warnings,
                    None => rest.warnings,
                },
                ..rest
            }
        },
        FetchStepView::Done(file, writes) => Outcome {
            result: Ok(file),
            writes,
            warnings: Seq::empty(),
            lookups: 0,
            downloads: 0,
        },
        FetchStepView::Failed(error) => Outcome {
            result: Err(error),
            writes: Seq::empty(),
            warnings: Seq::empty(),
            lookups: 0,
            downloads: 0,
        },
    }
}

/// What comes of fetching `url` at the time `now`.
pub open spec fn fetch_outcome<E>(
    url: Seq<char>,
    now: u64,
    cache: Cache<E>,
    network: Network<E>,
) -> Outcome<E> {
    run(FetchStepView::LookUp(remote_file::initial(url, now)), cache, network)
}

proof fn lemma_bounded<E>(step: FetchStepView<E>, cache: Cache<E>, network: Network<E>)
    ensures
        ({
            let outcome = run(step, cache, network);
            match step {
                FetchStepView::LookUp(fetch) => {
                    &&& outcome.lookups <= (if fetch.attempts > 1 { fetch.attempts } else { 1 })
                    &&& outcome.downloads <= outcome.lookups
                },
                FetchStepView::Download(fetch, _) => {
                    &&& outcome.lookups <= (if fetch.attempts > 1 { fetch.attempts - 1 } else { 0 })
                    &&& outcome.downloads <= outcome.lookups + 1
                },
                _ => outcome.lookups == 0 && outcome.downloads == 0,
            }
        }),
    decreases steps_left(step),
{
    match step {
        FetchStepView::LookUp(fetch) => {
            lemma_bounded(
                remote_file::lookup_step(fetch, cache(fetch.current)),
                cache,
                network,
            );
        },
        FetchStepView::Download(fetch, stale) => {
            lemma_bounded(
                remote_file::download_step(
                    fetch,
                    stale,
                    network(fetch.attempts, fetch.current),
                ).0,
                cache,
                network,
            );
        },
        _ => {},
    }
}

/// However the redirects lead, at most one URL more than the number of redirects
/// that are followed is looked at, and each is downloaded at most once.
pub proof fn a_fetch_is_bounded<E>(
    url: Seq<char>,
    now: u64,
    cache: Cache<E>,
    network: Network<E>,
)
    ensures
        ({
            let outcome = fetch_outcome(url, now, cache, network);
            &&& outcome.lookups <= remote_file::MAX_REDIRECTS + 1
            &&& outcome.downloads <= outcome.lookups
        }),
{
    lemma_bounded(FetchStepView::LookUp(remote_file::initial(url, now)), cache, network);
}

proof fn lemma_failure_writes_nothing<E>(
    step: FetchStepView<E>,
    cache: Cache<E>,
    network: Network<E>,
)
    ensures
        run(step, cache, network).result is Err ==> run(step, cache, network).writes.len() == 0,
    decreases steps_left(step),
{
    match step {
        FetchStepView::LookUp(fetch) => {
            lemma_failure_writes_nothing(
                remote_file::lookup_step(fetch, cache(fetch.current)),
                cache,
                network,
            );
        },
        FetchStepView::Download(fetch, stale) => {
            lemma_failure_writes_nothing(
                remote_file::download_step(
                    fetch,
                    stale,
                    network(fetch.attempts, fetch.current),
                ).0,
                cache,
                network,
            );
        },
        _ => {},
    }
}

/// Redirects are written only once the content is reached: a fetch that fails on
/// the way leaves the cache as it was.
pub proof fn a_failed_fetch_writes_nothing<E>(
    url: Seq<char>,
    now: u64,
    cache: Cache<E>,
    network: Network<E>,
)
    ensures
        fetch_outcome(url, now, cache, network).result is Err ==> fetch_outcome(
            url,
            now,
            cache,
            network,
        ).writes.len() == 0,
{
    lemma_failure_writes_nothing(
        FetchStepView::LookUp(remote_file::initial(url, now)),
        cache,
        network,
    );
}

/// Where a check fails and the cached version is used, none of what was downloaded
/// before the failure is ever written.
pub proof fn a_failed_check_forgets_what_was_downloaded<E>(
    fetch: FetchView,
    stale: Option<CacheEntryView>,
    error: E,
)
    ensures
        match remote_file::download_step(fetch, stale, Err::<Option<DownloadView>, E>(error)).0 {
            FetchStepView::LookUp(rest) => rest.pending.len() == 0,
            FetchStepView::Done(_, writes) => writes.len() == 0,
            FetchStepView::Download(..) => false,
            FetchStepView::Failed(_) => true,
        },
{
}

/// A download that fails is warned of, and the fetch goes on with what is cached,
/// unless too many URLs were looked at. Only where nothing is cached to go on with is
/// it an error, and then the one that came; and only where what is cached redirects to
/// no URL is that the error. Then nothing is warned of.
pub proof fn a_failed_download_is_warned_of_or_an_error<E>(
    fetch: FetchView,
    stale: Option<CacheEntryView>,
    error: E,
)
    ensures
        ({
            let (step, warning) = remote_file::download_step(
                fetch,
                stale,
                Err::<Option<DownloadView>, E>(error),
            );
            match remote_file::fallback(fetch, stale) {
                None => step == FetchStepView::<E>::Failed(ResolveErrorView::Environment(error))
                    && warning is None,
                Some((url, entry, _)) => match remote_file::entry_target(url, entry) {
                    TargetView::Invalid(message) => step == FetchStepView::<E>::Failed(
                        ResolveErrorView::InvalidUrl(message),
                    ) && warning is None,
                    TargetView::Content(_) => step is Done && warning == Some(error),
                    TargetView::Redirect(_) => warning == Some(error) && if fetch.attempts > 1 {
                        step is LookUp
                    } else {
                        step == FetchStepView::<E>::Failed(
                            ResolveErrorView::TooManyRedirects(fetch.url),
                        )
                    },
                },
            }
        }),
        remote_file::fallback(fetch, stale) is None <==> stale is None && fetch.previous is None,
{
}

/// A file that is gone is an error, also where a copy of it is cached.
pub proof fn a_missing_file_is_not_served_from_the_cache<E>(
    fetch: FetchView,
    stale: Option<CacheEntryView>,
)
    ensures
        remote_file::download_step(fetch, stale, Ok::<Option<DownloadView>, E>(None)).0
            == FetchStepView::<E>::Failed(ResolveErrorView::NotFound(fetch.url)),
{
}

/// Whether the cache holds a chain of redirects through `urls`, the last of which
/// is cached with its content.
pub open spec fn cached_chain<E>(cache: Cache<E>, urls: Seq<Seq<char>>) -> bool {
    &&& urls.len() > 0
    &&& forall|i: int|
        0 <= i < urls.len() ==> match #[trigger] cache(urls[i]) {
            Ok(Some(entry)) => match remote_file::entry_target(urls[i], entry) {
                TargetView::Redirect(to) => i < urls.len() - 1 && to == urls[i + 1],
                TargetView::Content(_) => i == urls.len() - 1,
                TargetView::Invalid(_) => false,
            },
            _ => false,
        }
}

/// The entry of the cache for the URL that a chain ends with.
pub open spec fn chain_end<E>(cache: Cache<E>, urls: Seq<Seq<char>>) -> CacheEntryView {
    cache(urls.last())->Ok_0->0
}

/// The file that a cached chain leads to.
pub open spec fn chain_file<E>(cache: Cache<E>, urls: Seq<Seq<char>>) -> FileBytesView {
    FileBytesView {
        source: PathSourceView::Remote {
            url: remote_file::entry_target(urls.last(), chain_end(cache, urls))->Content_0,
        },
        is_first_download: false,
        content: chain_end(cache, urls).content,
    }
}

/// Whether all entries of a cached chain are used at the time `now` unchecked.
pub open spec fn chain_fresh<E>(cache: Cache<E>, urls: Seq<Seq<char>>, now: u64) -> bool {
    forall|i: int|
        0 <= i < urls.len() ==> match #[trigger] cache(urls[i]) {
            Ok(Some(entry)) => http_cache::fresh(entry.headers, entry.time, now),
            _ => false,
        }
}

/// Whether the network can't be reached any more once no more than `attempts` URLs
/// may still be looked at.
pub open spec fn offline<E>(network: Network<E>, attempts: int) -> bool {
    forall|left: int, url: Seq<char>| left <= attempts ==> #[trigger] network(left, url) is Err
}

proof fn lemma_chain_rest<E>(cache: Cache<E>, urls: Seq<Seq<char>>, now: u64)
    requires
        cached_chain(cache, urls),
        urls.len() > 1,
    ensures
        cached_chain(cache, urls.drop_first()),
        chain_file(cache, urls.drop_first()) == chain_file(cache, urls),
        chain_fresh(cache, urls, now) ==> chain_fresh(cache, urls.drop_first(), now),
        cache(urls[0]) matches Ok(Some(entry)) && remote_file::entry_target(urls[0], entry)
            == TargetView::Redirect(urls.drop_first()[0]),
{
    let rest = urls.drop_first();
    assert(cache(urls[0]) is Ok);
    assert forall|i: int| 0 <= i < rest.len() implies match #[trigger] cache(rest[i]) {
        Ok(Some(entry)) => match remote_file::entry_target(rest[i], entry) {
            TargetView::Redirect(to) => i < rest.len() - 1 && to == rest[i + 1],
            TargetView::Content(_) => i == rest.len() - 1,
            TargetView::Invalid(_) => false,
        },
        _ => false,
    } by {
        assert(rest[i] == urls[i + 1]);
        assert(cache(urls[i + 1]) is Ok);
    }
    if chain_fresh(cache, urls, now) {
        assert forall|i: int| 0 <= i < rest.len() implies match #[trigger] cache(rest[i]) {
            Ok(Some(entry)) => http_cache::fresh(entry.headers, entry.time, now),
            _ => false,
        } by {
            assert(rest[i] == urls[i + 1]);
            assert(cache(urls[i + 1]) is Ok);
        }
    }
}

proof fn lemma_chain_run<E>(
    fetch: FetchView,
    urls: Seq<Seq<char>>,
    cache: Cache<E>,
    network: Network<E>,
)
    requires
        cached_chain(cache, urls),
        fetch.current == urls[0],
        fetch.attempts >= urls.len(),
        !fetch.changed,
        fetch.pending.len() == 0,
        chain_fresh(cache, urls, fetch.now) || offline(network, fetch.attempts),
    ensures
        ({
            let outcome = run(FetchStepView::LookUp(fetch), cache, network);
            &&& outcome.result == Ok::<FileBytesView, ResolveErrorView<E>>(chain_file(cache, urls))
            &&& outcome.writes.len() == 0
            &&& chain_fresh(cache, urls, fetch.now) ==> outcome.downloads == 0
                && outcome.warnings.len() == 0
        }),
    decreases urls.len(),
{
    reveal_with_fuel(run, 3);
    assert(cache(urls[0]) is Ok);
    assert(fetch.pending =~= Seq::empty());
    if urls.len() > 1 {
        lemma_chain_rest(cache, urls, fetch.now);
        let rest = urls.drop_first();
        let fetch_on = FetchView { current: rest[0], attempts: fetch.attempts - 1, ..fetch };
        lemma_chain_run(fetch_on, rest, cache, network);
        let emptied = FetchView { pending: Seq::empty(), ..fetch };
        assert(FetchView { current: rest[0], attempts: emptied.attempts - 1, ..emptied }
            == fetch_on);
    }
}

/// A file whose chain of redirects is cached, with no entry stale, is served from
/// the cache: nothing is downloaded or written, and it is no first download.
pub proof fn a_fresh_chain_is_served_from_the_cache<E>(
    urls: Seq<Seq<char>>,
    now: u64,
    cache: Cache<E>,
    network: Network<E>,
)
    requires
        cached_chain(cache, urls),
        chain_fresh(cache, urls, now),
        urls.len() <= remote_file::MAX_REDIRECTS + 1,
    ensures
        ({
            let outcome = fetch_outcome(urls[0], now, cache, network);
            &&& outcome.result == Ok::<FileBytesView, ResolveErrorView<E>>(chain_file(cache, urls))
            &&& outcome.writes.len() == 0
            &&& outcome.warnings.len() == 0
            &&& outcome.downloads == 0
        }),
{
    lemma_chain_run(remote_file::initial(urls[0], now), urls, cache, network);
}

/// A file whose chain of redirects is cached is still there when the network is
/// not, however old the entries are. Nothing is written, so that it is checked
/// again the next time.
pub proof fn a_cached_chain_is_served_offline<E>(
    urls: Seq<Seq<char>>,
    now: u64,
    cache: Cache<E>,
    network: Network<E>,
)
    requires
        cached_chain(cache, urls),
        offline(network, remote_file::MAX_REDIRECTS + 1),
        urls.len() <= remote_file::MAX_REDIRECTS + 1,
    ensures
        ({
            let outcome = fetch_outcome(urls[0], now, cache, network);
            &&& outcome.result == Ok::<FileBytesView, ResolveErrorView<E>>(chain_file(cache, urls))
            &&& outcome.writes.len() == 0
        }),
{
    lemma_chain_run(remote_file::initial(urls[0], now), urls, cache, network);
}

/// Whether the network answers each of the URLs with a redirect to the next one, and
/// the last with the content.
pub open spec fn serves<E>(network: Network<E>, urls: Seq<Seq<char>>, content: Seq<u8>) -> bool {
    &&& urls.len() > 0
    &&& forall|attempts: int, i: int|
        0 <= i < urls.len() ==> match #[trigger] network(attempts, urls[i]) {
            Ok(Some(response)) => if i < urls.len() - 1 {
                remote_file::redirect_location(urls[i], response.headers) == Some(
                    Ok::<Seq<char>, Seq<char>>(urls[i + 1]),
                )
            } else {
                &&& remote_file::redirect_location(urls[i], response.headers) is None
                &&& response.content == content
            },
            _ => false,
        }
}

/// Whether the network answers the URLs of a cached chain with what is cached of
/// them: the same redirects, and the same content at the end.
pub open spec fn unchanged<E>(
    cache: Cache<E>,
    network: Network<E>,
    urls: Seq<Seq<char>>,
) -> bool {
    serves(network, urls, chain_end(cache, urls).content)
}

proof fn lemma_serves_rest<E>(network: Network<E>, urls: Seq<Seq<char>>, content: Seq<u8>)
    requires
        serves(network, urls, content),
        urls.len() > 1,
    ensures
        serves(network, urls.drop_first(), content),
{
    let rest = urls.drop_first();
    assert forall|attempts: int, i: int| 0 <= i < rest.len() implies match #[trigger] network(
        attempts,
        rest[i],
    ) {
        Ok(Some(response)) => if i < rest.len() - 1 {
            remote_file::redirect_location(rest[i], response.headers) == Some(
                Ok::<Seq<char>, Seq<char>>(rest[i + 1]),
            )
        } else {
            &&& remote_file::redirect_location(rest[i], response.headers) is None
            &&& response.content == content
        },
        _ => false,
    } by {
        assert(rest[i] == urls[i + 1]);
        assert(network(attempts, urls[i + 1]) is Ok);
    }
}

proof fn lemma_download_run<E>(
    fetch: FetchView,
    urls: Seq<Seq<char>>,
    content: Seq<u8>,
    cache: Cache<E>,
    network: Network<E>,
)
    requires
        serves(network, urls, content),
        forall|i: int|
            0 <= i < urls.len() ==> #[trigger] cache(urls[i]) == Ok::<Option<CacheEntryView>, E>(
                None,
            ),
        fetch.current == urls[0],
        fetch.attempts >= urls.len(),
    ensures
        ({
            let outcome = run(FetchStepView::LookUp(fetch), cache, network);
            let before = fetch.pending.len();
            &&& outcome.result == Ok::<FileBytesView, ResolveErrorView<E>>(
                FileBytesView {
                    source: PathSourceView::Remote { url: urls.last() },
                    is_first_download: true,
                    content,
                },
            )
            &&& outcome.warnings.len() == 0
            &&& outcome.downloads == urls.len()
            &&& outcome.writes.len() == before + urls.len()
            &&& forall|i: int|
                before <= i < outcome.writes.len() ==> (#[trigger] outcome.writes[i]).url
                    == urls[i - before]
            &&& outcome.writes.last().content == content
        }),
    decreases urls.len(),
{
    reveal_with_fuel(run, 3);
    assert(cache(urls[0]) is Ok);
    assert(network(fetch.attempts, urls[0]) is Ok);
    let response = network(fetch.attempts, urls[0])->Ok_0->0;
    let outcome = run(FetchStepView::LookUp(fetch), cache, network);
    if urls.len() > 1 {
        let rest = urls.drop_first();
        lemma_serves_rest(network, urls, content);
        assert forall|i: int| 0 <= i < rest.len() implies #[trigger] cache(rest[i]) == Ok::<
            Option<CacheEntryView>,
            E,
        >(None) by {
            assert(rest[i] == urls[i + 1]);
            assert(cache(urls[i + 1]) is Ok);
        }
        let on = FetchView {
            current: rest[0],
            attempts: fetch.attempts - 1,
            pending: fetch.pending.push(
                CacheWriteView {
                    url: urls[0],
                    headers: response.headers,
                    content: Seq::empty(),
                },
            ),
            ..fetch
        };
        lemma_download_run(on, rest, content, cache, network);
        lemma_pending_is_written(on, cache, network);
        let before = fetch.pending.len();
        assert forall|i: int| before <= i < outcome.writes.len() implies (
        #[trigger] outcome.writes[i]).url == urls[i - before] by {
            if i == before {
                assert(outcome.writes[i] == on.pending[i]);
            } else {
                assert(rest[i - before - 1] == urls[i - before]);
            }
        }
    }
}

proof fn lemma_pending_is_written<E>(fetch: FetchView, cache: Cache<E>, network: Network<E>)
    requires
        run(FetchStepView::LookUp(fetch), cache, network).result is Ok,
        run(FetchStepView::LookUp(fetch), cache, network).warnings.len() == 0,
    ensures
        fetch.pending.is_prefix_of(run(FetchStepView::LookUp(fetch), cache, network).writes),
    decreases fetch.attempts,
{
    reveal_with_fuel(run, 3);
    let step = after_current(fetch, cache, network);
    assert(fetch.pending.is_prefix_of(pending_of(step)));
    if let FetchStepView::LookUp(next) = step {
        if fetch.attempts > 0 {
            lemma_pending_is_written(next, cache, network);
        }
    }
}

/// A file of which nothing is cached is downloaded, through as many redirects as are
/// followed, and is a first download. All that was downloaded is written.
pub proof fn a_file_that_is_not_cached_is_downloaded<E>(
    urls: Seq<Seq<char>>,
    content: Seq<u8>,
    now: u64,
    cache: Cache<E>,
    network: Network<E>,
)
    requires
        serves(network, urls, content),
        urls.len() <= remote_file::MAX_REDIRECTS + 1,
        forall|i: int|
            0 <= i < urls.len() ==> #[trigger] cache(urls[i]) == Ok::<Option<CacheEntryView>, E>(
                None,
            ),
    ensures
        ({
            let outcome = fetch_outcome(urls[0], now, cache, network);
            &&& outcome.result == Ok::<FileBytesView, ResolveErrorView<E>>(
                FileBytesView {
                    source: PathSourceView::Remote { url: urls.last() },
                    is_first_download: true,
                    content,
                },
            )
            &&& outcome.warnings.len() == 0
            &&& outcome.downloads == urls.len()
            &&& outcome.writes.len() == urls.len()
            &&& forall|i: int|
                0 <= i < urls.len() ==> (#[trigger] outcome.writes[i]).url == urls[i]
            &&& outcome.writes.last().content == content
        }),
{
    lemma_download_run(remote_file::initial(urls[0], now), urls, content, cache, network);
}

proof fn lemma_unchanged_run<E>(
    fetch: FetchView,
    urls: Seq<Seq<char>>,
    cache: Cache<E>,
    network: Network<E>,
)
    requires
        cached_chain(cache, urls),
        unchanged(cache, network, urls),
        fetch.current == urls[0],
        fetch.attempts >= urls.len(),
        !fetch.changed,
    ensures
        ({
            let outcome = run(FetchStepView::LookUp(fetch), cache, network);
            &&& outcome.result matches Ok(file) && !file.is_first_download && file.content
                == chain_file(cache, urls).content
            &&& outcome.warnings.len() == 0
        }),
    decreases urls.len(),
{
    reveal_with_fuel(run, 3);
    let entry = cache(urls[0])->Ok_0->0;
    assert(cache(urls[0]) is Ok);
    assert(network(fetch.attempts, urls[0]) is Ok);
    if urls.len() > 1 {
        lemma_chain_rest(cache, urls, fetch.now);
        let rest = urls.drop_first();
        lemma_serves_rest(network, urls, chain_end(cache, urls).content);
        let plain = FetchView { current: rest[0], attempts: fetch.attempts - 1, ..fetch };
        lemma_unchanged_run(plain, rest, cache, network);
        let response = network(fetch.attempts, urls[0])->Ok_0->0;
        let noted = FetchView {
            pending: fetch.pending.push(
                CacheWriteView {
                    url: urls[0],
                    headers: response.headers,
                    content: Seq::empty(),
                },
            ),
            ..plain
        };
        lemma_unchanged_run(noted, rest, cache, network);
    }
}

/// A file that is cached and has not changed since is no first download, whether
/// its entries are fresh or were checked.
pub proof fn an_unchanged_file_is_no_first_download<E>(
    urls: Seq<Seq<char>>,
    now: u64,
    cache: Cache<E>,
    network: Network<E>,
)
    requires
        cached_chain(cache, urls),
        unchanged(cache, network, urls),
        urls.len() <= remote_file::MAX_REDIRECTS + 1,
    ensures
        ({
            let outcome = fetch_outcome(urls[0], now, cache, network);
            &&& outcome.result matches Ok(file) && !file.is_first_download && file.content
                == chain_file(cache, urls).content
            &&& outcome.warnings.len() == 0
        }),
{
    lemma_unchanged_run(remote_file::initial(urls[0], now), urls, cache, network);
}

/// Where a URL that a changed redirect has led to can't be downloaded, and nothing is
/// cached of it, the chain that was cached before is used, as if nothing had changed:
/// what it leads to is no first download. Where the rest of that chain needs no check
/// or can't be checked either, nothing is written, so that the new redirect is
/// followed once its target is available.
pub proof fn the_previous_chain_is_used_where_the_new_target_fails<E>(
    fetch: FetchView,
    urls: Seq<Seq<char>>,
    cache: Cache<E>,
    network: Network<E>,
)
    requires
        network(fetch.attempts, fetch.current) is Err,
        cached_chain(cache, urls),
        fetch.previous == Some((urls[0], cache(urls[0])->Ok_0->0)),
        fetch.attempts >= urls.len(),
        urls.len() == 1 || chain_fresh(cache, urls.drop_first(), fetch.now) || offline(
            network,
            fetch.attempts - 1,
        ) || unchanged(cache, network, urls.drop_first()),
    ensures
        ({
            let outcome = run(FetchStepView::Download(fetch, None), cache, network);
            &&& outcome.result matches Ok(file) && file.content == chain_file(cache, urls).content
                && !file.is_first_download
            &&& outcome.warnings.len() > 0
            &&& urls.len() == 1 || chain_fresh(cache, urls.drop_first(), fetch.now) || offline(
                network,
                fetch.attempts - 1,
            ) ==> outcome.result == Ok::<FileBytesView, ResolveErrorView<E>>(
                chain_file(cache, urls),
            ) && outcome.writes.len() == 0
        }),
{
    reveal_with_fuel(run, 2);
    assert(cache(urls[0]) is Ok);
    if urls.len() > 1 {
        lemma_chain_rest(cache, urls, fetch.now);
        let rest = urls.drop_first();
        let back = FetchView {
            current: rest[0],
            attempts: fetch.attempts - 1,
            pending: Seq::empty(),
            previous: None,
            changed: false,
            ..fetch
        };
        assert(remote_file::download_step::<E>(
            fetch,
            None,
            network(fetch.attempts, fetch.current),
        ).0 == FetchStepView::<E>::LookUp(back));
        if chain_fresh(cache, rest, fetch.now) || offline(network, back.attempts) {
            lemma_chain_run(back, rest, cache, network);
        } else {
            lemma_unchanged_run(back, rest, cache, network);
        }
    }
}

/// Where a check finds that a cached URL now redirects elsewhere, to a URL of which
/// nothing is cached and which can't be downloaded, what was cached is used, as if
/// nothing had changed: whether the rest of the cached chain needs no check, is checked
/// and has not changed, or can't be checked either.
pub proof fn a_new_redirect_is_forgotten_where_its_target_fails<E>(
    fetch: FetchView,
    urls: Seq<Seq<char>>,
    to: Seq<char>,
    cache: Cache<E>,
    network: Network<E>,
)
    requires
        cached_chain(cache, urls),
        fetch.current == urls[0],
        fetch.attempts > urls.len(),
        cache(urls[0]) matches Ok(Some(entry)) && !http_cache::fresh(
            entry.headers,
            entry.time,
            fetch.now,
        ) && remote_file::redirect_location(urls[0], entry.headers) != Some(
            Ok::<Seq<char>, Seq<char>>(to),
        ),
        network(fetch.attempts, urls[0]) matches Ok(Some(response))
            && remote_file::redirect_location(urls[0], response.headers) == Some(
            Ok::<Seq<char>, Seq<char>>(to),
        ),
        cache(to) == Ok::<Option<CacheEntryView>, E>(None),
        network(fetch.attempts - 1, to) is Err,
        urls.len() == 1 || chain_fresh(cache, urls.drop_first(), fetch.now) || offline(
            network,
            fetch.attempts - 2,
        ) || unchanged(cache, network, urls.drop_first()),
    ensures
        ({
            let outcome = run(FetchStepView::LookUp(fetch), cache, network);
            &&& outcome.result matches Ok(file) && file.content == chain_file(cache, urls).content
                && !file.is_first_download
            &&& outcome.warnings.len() > 0
            &&& urls.len() == 1 || chain_fresh(cache, urls.drop_first(), fetch.now) || offline(
                network,
                fetch.attempts - 2,
            ) ==> outcome.result == Ok::<FileBytesView, ResolveErrorView<E>>(
                chain_file(cache, urls),
            ) && outcome.writes.len() == 0
        }),
{
    reveal_with_fuel(run, 4);
    let entry = cache(urls[0])->Ok_0->0;
    let response = network(fetch.attempts, urls[0])->Ok_0->0;
    let moved = FetchView {
        current: to,
        attempts: fetch.attempts - 1,
        pending: fetch.pending.push(
            CacheWriteView {
                url: urls[0],
                headers: response.headers,
                content: Seq::empty(),
            },
        ),
        previous: Some((urls[0], entry)),
        changed: true,
        ..fetch
    };
    assert(remote_file::lookup_step::<E>(fetch, cache(urls[0])) == FetchStepView::<E>::Download(
        fetch,
        Some(entry),
    ));
    assert(remote_file::download_step::<E>(
        fetch,
        Some(entry),
        network(fetch.attempts, urls[0]),
    ).0 == FetchStepView::<E>::LookUp(moved));
    assert(remote_file::lookup_step::<E>(moved, cache(to)) == FetchStepView::<E>::Download(
        moved,
        None,
    ));
    the_previous_chain_is_used_where_the_new_target_fails(moved, urls, cache, network);
}

/// Whether the network answers `url` with a redirect to `to`, which can't be downloaded.
pub open spec fn redirects_to_failure<E>(
    network: Network<E>,
    url: Seq<char>,
    to: Seq<char>,
) -> bool {
    forall|attempts: int|
        {
            &&& #[trigger] network(attempts, url) matches Ok(Some(response))
                && remote_file::redirect_location(url, response.headers) == Some(
                Ok::<Seq<char>, Seq<char>>(to),
            )
            &&& network(attempts, to) is Err
        }
}

/// Whether nothing is written of either URL.
pub open spec fn writes_neither(
    writes: Seq<CacheWriteView>,
    url: Seq<char>,
    to: Seq<char>,
) -> bool {
    forall|i: int|
        0 <= i < writes.len() ==> (#[trigger] writes[i]).url != url && writes[i].url != to
}

spec fn step_writes_neither<E>(
    step: FetchStepView<E>,
    url: Seq<char>,
    to: Seq<char>,
    now: u64,
) -> bool {
    match step {
        FetchStepView::LookUp(fetch) => fetch.now == now && (fetch.current == to
            || writes_neither(fetch.pending, url, to)),
        FetchStepView::Download(fetch, _) => fetch.now == now && (fetch.current == to
            || writes_neither(fetch.pending, url, to)),
        FetchStepView::Done(_, writes) => writes_neither(writes, url, to),
        FetchStepView::Failed(_) => true,
    }
}

proof fn lemma_writes_neither<E>(
    step: FetchStepView<E>,
    url: Seq<char>,
    to: Seq<char>,
    now: u64,
    cache: Cache<E>,
    network: Network<E>,
)
    requires
        redirects_to_failure(network, url, to),
        cache(url) is Ok,
        !cached_fresh(cache, url, now),
        cache(to) == Ok::<Option<CacheEntryView>, E>(None),
        step_writes_neither(step, url, to, now),
    ensures
        writes_neither(run(step, cache, network).writes, url, to),
    decreases steps_left(step),
{
    match step {
        FetchStepView::LookUp(fetch) => {
            lemma_writes_neither(
                remote_file::lookup_step(fetch, cache(fetch.current)),
                url,
                to,
                now,
                cache,
                network,
            );
        },
        FetchStepView::Download(fetch, stale) => {
            assert(network(fetch.attempts, url) is Ok);
            let next = remote_file::download_step(
                fetch,
                stale,
                network(fetch.attempts, fetch.current),
            ).0;
            assert(step_writes_neither(next, url, to, now));
            lemma_writes_neither(next, url, to, now, cache, network);
        },
        _ => {},
    }
}

/// Where a URL without a fresh entry redirects to one of which nothing is cached and
/// which can't be downloaded, nothing is written of either, whatever is fetched and
/// however the fetch ends.
pub proof fn a_redirect_is_not_written_while_its_target_fails<E>(
    asked: Seq<char>,
    url: Seq<char>,
    to: Seq<char>,
    now: u64,
    cache: Cache<E>,
    network: Network<E>,
)
    requires
        redirects_to_failure(network, url, to),
        cache(url) is Ok,
        !cached_fresh(cache, url, now),
        cache(to) == Ok::<Option<CacheEntryView>, E>(None),
    ensures
        writes_neither(fetch_outcome(asked, now, cache, network).writes, url, to),
{
    lemma_writes_neither(
        FetchStepView::LookUp(remote_file::initial(asked, now)),
        url,
        to,
        now,
        cache,
        network,
    );
}

/// A redirect whose target could not be downloaded is followed once the target is
/// available: the next fetch takes the content from the new target, as a first
/// download and without a warning, whatever was used in the meantime.
pub proof fn a_new_redirect_is_followed_once_its_target_is_available<E>(
    url: Seq<char>,
    to: Seq<char>,
    content: Seq<u8>,
    now: u64,
    cache: Cache<E>,
    network: Network<E>,
    written: u64,
    later: u64,
    later_network: Network<E>,
)
    requires
        redirects_to_failure(network, url, to),
        cache(url) matches Ok(Some(entry)) && !http_cache::fresh(entry.headers, entry.time, now)
            && match remote_file::redirect_location(url, entry.headers) {
            Some(Ok(before)) => before != to,
            Some(Err(_)) => false,
            None => true,
        },
        cache(to) == Ok::<Option<CacheEntryView>, E>(None),
        now <= later,
        serves(later_network, seq![url, to], content),
    ensures
        ({
            let meantime = fetch_outcome(url, now, cache, network);
            let outcome = fetch_outcome(
                url,
                later,
                cache_after(cache, meantime.writes, written),
                later_network,
            );
            &&& outcome.result == Ok::<FileBytesView, ResolveErrorView<E>>(
                FileBytesView {
                    source: PathSourceView::Remote { url: to },
                    is_first_download: true,
                    content,
                },
            )
            &&& outcome.warnings.len() == 0
            &&& outcome.writes.len() == 2
            &&& outcome.writes[0].url == url
            &&& outcome.writes[1].url == to
            &&& outcome.writes[1].content == content
        }),
{
    reveal_with_fuel(run, 5);
    let writes = fetch_outcome(url, now, cache, network).writes;
    let after = cache_after(cache, writes, written);
    a_redirect_is_not_written_while_its_target_fails(url, url, to, now, cache, network);
    lemma_no_write(writes, url);
    lemma_no_write(writes, to);
    let urls = seq![url, to];
    let start = remote_file::initial(url, later);
    assert(later_network(start.attempts, urls[0]) is Ok);
    assert(later_network(start.attempts - 1, urls[1]) is Ok);
    let entry = cache(url)->Ok_0->0;
    assert(!http_cache::fresh(entry.headers, entry.time, later));
    let response = later_network(start.attempts, url)->Ok_0->0;
    let moved = FetchView {
        current: to,
        attempts: start.attempts - 1,
        pending: start.pending.push(
            CacheWriteView { url, headers: response.headers, content: Seq::empty() },
        ),
        previous: Some((url, entry)),
        changed: true,
        ..start
    };
    assert(remote_file::lookup_step::<E>(start, after(url)) == FetchStepView::<E>::Download(
        start,
        Some(entry),
    ));
    assert(remote_file::download_step::<E>(
        start,
        Some(entry),
        later_network(start.attempts, url),
    ).0 == FetchStepView::<E>::LookUp(moved));
    assert(remote_file::lookup_step::<E>(moved, after(to)) == FetchStepView::<E>::Download(
        moved,
        None,
    ));
}

/// Whether a fetch has met a redirect that leads elsewhere than it did.
pub open spec fn has_changed<E>(step: FetchStepView<E>) -> bool {
    match step {
        FetchStepView::LookUp(fetch) => fetch.changed,
        FetchStepView::Download(fetch, _) => fetch.changed,
        FetchStepView::Done(file, _) => file.is_first_download,
        FetchStepView::Failed(_) => true,
    }
}

proof fn lemma_changed_stays<E>(step: FetchStepView<E>, cache: Cache<E>, network: Network<E>)
    requires
        has_changed(step),
        run(step, cache, network).warnings.len() == 0,
    ensures
        run(step, cache, network).result matches Ok(file) ==> file.is_first_download,
    decreases steps_left(step),
{
    match step {
        FetchStepView::LookUp(fetch) => {
            lemma_changed_stays(
                remote_file::lookup_step(fetch, cache(fetch.current)),
                cache,
                network,
            );
        },
        FetchStepView::Download(fetch, stale) => {
            lemma_changed_stays(
                remote_file::download_step(
                    fetch,
                    stale,
                    network(fetch.attempts, fetch.current),
                ).0,
                cache,
                network,
            );
        },
        _ => {},
    }
}

/// Where a check finds that a redirect leads elsewhere than it did, the content
/// that it leads to is a first download, even when it was already cached, unless
/// the cached version is fallen back to.
pub proof fn a_changed_redirect_leads_to_a_first_download<E>(
    fetch: FetchView,
    entry: CacheEntryView,
    to: Seq<char>,
    cache: Cache<E>,
    network: Network<E>,
)
    requires
        network(fetch.attempts, fetch.current) matches Ok(Some(response))
            && remote_file::redirect_location(fetch.current, response.headers) == Some(
            Ok::<Seq<char>, Seq<char>>(to),
        ),
        remote_file::redirect_location(fetch.current, entry.headers) != Some(
            Ok::<Seq<char>, Seq<char>>(to),
        ),
    ensures
        ({
            let outcome = run(FetchStepView::Download(fetch, Some(entry)), cache, network);
            outcome.warnings.len() == 0 ==> (outcome.result matches Ok(file)
                ==> file.is_first_download)
        }),
{
    let step = FetchStepView::<E>::Download(fetch, Some(entry));
    let next = remote_file::download_step(
        fetch,
        Some(entry),
        network(fetch.attempts, fetch.current),
    ).0;
    if run(step, cache, network).warnings.len() == 0 {
        lemma_changed_stays(next, cache, network);
    }
}

/// Content that is downloaded is a first download if it was not cached or differs
/// from what was, or if a redirect on the way to it has changed; and only then.
pub proof fn new_content_is_a_first_download<E>(
    fetch: FetchView,
    stale: Option<CacheEntryView>,
    response: DownloadView,
)
    requires
        remote_file::redirect_location(fetch.current, response.headers) is None,
    ensures
        remote_file::download_step(
            fetch,
            stale,
            Ok::<Option<DownloadView>, E>(Some(response)),
        ).0 matches FetchStepView::Done(file, _) && file.content == response.content && (
        file.is_first_download <==> fetch.changed || !(stale matches Some(entry) && entry.content
            == response.content)),
{
}

/// Whether the URL `from` is known at the time `now` to redirect to `to`: from the cache,
/// without a check, or from the network, where nothing is cached.
pub open spec fn leads<E>(
    cache: Cache<E>,
    network: Network<E>,
    now: u64,
    from: Seq<char>,
    to: Seq<char>,
) -> bool {
    match cache(from) {
        Ok(Some(entry)) => http_cache::fresh(entry.headers, entry.time, now)
            && remote_file::entry_target(from, entry) == TargetView::Redirect(to),
        Ok(None) => forall|attempts: int|
            #[trigger] network(attempts, from) matches Ok(Some(response))
                && remote_file::redirect_location(from, response.headers) == Some(
                Ok::<Seq<char>, Seq<char>>(to),
            ),
        Err(_) => false,
    }
}

proof fn lemma_too_many_redirects<E>(
    fetch: FetchView,
    urls: Seq<Seq<char>>,
    cache: Cache<E>,
    network: Network<E>,
)
    requires
        fetch.attempts >= 1,
        urls.len() > fetch.attempts,
        fetch.current == urls[0],
        forall|i: int|
            0 <= i < fetch.attempts ==> leads(
                cache,
                network,
                fetch.now,
                #[trigger] urls[i],
                urls[i + 1],
            ),
    ensures
        ({
            let outcome = run(FetchStepView::LookUp(fetch), cache, network);
            &&& outcome.result == Err::<FileBytesView, ResolveErrorView<E>>(
                ResolveErrorView::TooManyRedirects(fetch.url),
            )
            &&& outcome.writes.len() == 0
            &&& outcome.warnings.len() == 0
        }),
    decreases fetch.attempts,
{
    reveal_with_fuel(run, 4);
    assert(leads(cache, network, fetch.now, urls[0], urls[1]));
    if cache(urls[0]) == Ok::<Option<CacheEntryView>, E>(None) {
        assert(network(fetch.attempts, urls[0]) is Ok);
    }
    if fetch.attempts > 1 {
        let rest = urls.drop_first();
        assert(rest[0] == urls[1]);
        assert forall|i: int| 0 <= i < fetch.attempts - 1 implies leads(
            cache,
            network,
            fetch.now,
            #[trigger] rest[i],
            rest[i + 1],
        ) by {
            assert(leads(cache, network, fetch.now, urls[i + 1], urls[i + 2]));
        }
        let plain = FetchView { current: rest[0], attempts: fetch.attempts - 1, ..fetch };
        lemma_too_many_redirects(plain, rest, cache, network);
        let response = network(fetch.attempts, urls[0])->Ok_0->0;
        let noted = FetchView {
            pending: fetch.pending.push(
                CacheWriteView {
                    url: urls[0],
                    headers: response.headers,
                    content: Seq::empty(),
                },
            ),
            ..plain
        };
        lemma_too_many_redirects(noted, rest, cache, network);
    }
}

/// A chain with more redirects than are followed, cached or not, is an error that names
/// the URL asked for, and nothing is written of it.
pub proof fn too_many_redirects_are_an_error<E>(
    urls: Seq<Seq<char>>,
    now: u64,
    cache: Cache<E>,
    network: Network<E>,
)
    requires
        urls.len() > remote_file::MAX_REDIRECTS + 1,
        forall|i: int|
            0 <= i < remote_file::MAX_REDIRECTS + 1 ==> leads(
                cache,
                network,
                now,
                #[trigger] urls[i],
                urls[i + 1],
            ),
    ensures
        ({
            let outcome = fetch_outcome(urls[0], now, cache, network);
            &&& outcome.result == Err::<FileBytesView, ResolveErrorView<E>>(
                ResolveErrorView::TooManyRedirects(urls[0]),
            )
            &&& outcome.writes.len() == 0
            &&& outcome.warnings.len() == 0
        }),
{
    lemma_too_many_redirects(remote_file::initial(urls[0], now), urls, cache, network);
}

/// What was written of a URL last.
pub open spec fn last_write(writes: Seq<CacheWriteView>, url: Seq<char>) -> Option<CacheWriteView>
    decreases writes.len(),
{
    if writes.len() == 0 {
        None
    } else if writes.last().url == url {
        Some(writes.last())
    } else {
        last_write(writes.drop_last(), url)
    }
}

/// The cache after these writes were made to it, in order, at the time `written`.
pub open spec fn cache_after<E>(
    cache: Cache<E>,
    writes: Seq<CacheWriteView>,
    written: u64,
) -> Cache<E> {
    |url: Seq<char>|
        match last_write(writes, url) {
            Some(write) => Ok(
                Some(
                    CacheEntryView {
                        headers: write.headers,
                        url,
                        time: Some(written),
                        content: write.content,
                    },
                ),
            ),
            None => cache(url),
        }
}

/// Whether the cache holds an entry of the URL that is used at the time `now`
/// unchecked.
pub open spec fn cached_fresh<E>(cache: Cache<E>, url: Seq<char>, now: u64) -> bool {
    cache(url) matches Ok(Some(entry)) && http_cache::fresh(entry.headers, entry.time, now)
}

/// The source of a file behind the URL `url` once it is served from the cache: the
/// URL as it is read back from the cache.
pub open spec fn source_read_back(url: Seq<char>) -> PathSourceView {
    PathSourceView::Remote {
        url: match remote_url::url_parse(url) {
            Ok(url) => url,
            Err(_) => url,
        },
    }
}

/// Whether a fetch came to the content of `file` without the network, and wrote
/// nothing. The source is the same too, where its URL is read back as it is.
pub open spec fn served_again<E>(outcome: Outcome<E>, file: FileBytesView) -> bool {
    &&& outcome.result matches Ok(again) && again.content == file.content
        && !again.is_first_download && (again.source == file.source || (
    file.source matches PathSourceView::Remote { url } && remote_url::url_parse(url) != Ok::<
        Seq<char>,
        Seq<char>,
    >(url) && again.source == source_read_back(url)))
    &&& outcome.downloads == 0
    &&& outcome.writes.len() == 0
    &&& outcome.warnings.len() == 0
}

/// Whether each URL that is looked up from `step` on has an entry in the cache `after`
/// that is used at the time `later` unchecked.
pub open spec fn looked_up_fresh<E>(
    step: FetchStepView<E>,
    cache: Cache<E>,
    network: Network<E>,
    after: Cache<E>,
    later: u64,
) -> bool
    decreases steps_left(step),
{
    match step {
        FetchStepView::LookUp(fetch) => cached_fresh(after, fetch.current, later)
            && looked_up_fresh(
            remote_file::lookup_step(fetch, cache(fetch.current)),
            cache,
            network,
            after,
            later,
        ),
        FetchStepView::Download(fetch, stale) => looked_up_fresh(
            remote_file::download_step(
                fetch,
                stale,
                network(fetch.attempts, fetch.current),
            ).0,
            cache,
            network,
            after,
            later,
        ),
        _ => true,
    }
}

proof fn lemma_last_write(writes: Seq<CacheWriteView>, url: Seq<char>, at: int)
    requires
        0 <= at < writes.len(),
        writes[at].url == url,
        forall|i: int| at < i < writes.len() ==> (#[trigger] writes[i]).url != url,
    ensures
        last_write(writes, url) == Some(writes[at]),
    decreases writes.len(),
{
    if at < writes.len() - 1 {
        assert(writes.last() == writes[writes.len() - 1]);
        lemma_last_write(writes.drop_last(), url, at);
    }
}

proof fn lemma_no_write(writes: Seq<CacheWriteView>, url: Seq<char>)
    requires
        forall|i: int| 0 <= i < writes.len() ==> (#[trigger] writes[i]).url != url,
    ensures
        last_write(writes, url) is None,
    decreases writes.len(),
{
    if writes.len() > 0 {
        assert(writes.last() == writes[writes.len() - 1]);
        lemma_no_write(writes.drop_last(), url);
    }
}

/// What a step has yet to write, where it goes on.
spec fn pending_of<E>(step: FetchStepView<E>) -> Seq<CacheWriteView> {
    match step {
        FetchStepView::LookUp(fetch) => fetch.pending,
        FetchStepView::Download(fetch, _) => fetch.pending,
        FetchStepView::Done(_, writes) => writes,
        FetchStepView::Failed(_) => Seq::empty(),
    }
}

/// Whether only URLs without a fresh entry are written.
spec fn writes_stale<E>(cache: Cache<E>, writes: Seq<CacheWriteView>, now: u64) -> bool {
    forall|i: int| 0 <= i < writes.len() ==> !cached_fresh(cache, (#[trigger] writes[i]).url, now)
}

proof fn lemma_writes<E>(
    step: FetchStepView<E>,
    now: u64,
    cache: Cache<E>,
    network: Network<E>,
)
    requires
        run(step, cache, network).result is Ok,
        run(step, cache, network).warnings.len() == 0,
        writes_stale(cache, pending_of(step), now),
        match step {
            FetchStepView::LookUp(fetch) => fetch.now == now,
            FetchStepView::Download(fetch, _) => fetch.now == now && !cached_fresh(
                cache,
                fetch.current,
                now,
            ),
            _ => true,
        },
    ensures
        pending_of(step).is_prefix_of(run(step, cache, network).writes),
        writes_stale(cache, run(step, cache, network).writes, now),
    decreases steps_left(step),
{
    match step {
        FetchStepView::LookUp(fetch) => {
            let next = remote_file::lookup_step(fetch, cache(fetch.current));
            lemma_writes(next, now, cache, network);
        },
        FetchStepView::Download(fetch, stale) => {
            let next = remote_file::download_step(
                fetch,
                stale,
                network(fetch.attempts, fetch.current),
            ).0;
            lemma_writes(next, now, cache, network);
            let longer = pending_of(next);
            assert(fetch.pending.is_prefix_of(longer));
        },
        _ => {},
    }
}

/// What follows a URL that the cache or the network has answered: the next URL to
/// look at, or the end.
spec fn after_current<E>(
    fetch: FetchView,
    cache: Cache<E>,
    network: Network<E>,
) -> FetchStepView<E> {
    match remote_file::lookup_step(fetch, cache(fetch.current)) {
        FetchStepView::Download(fetch, stale) => remote_file::download_step(
            fetch,
            stale,
            network(fetch.attempts, fetch.current),
        ).0,
        step => step,
    }
}

proof fn lemma_served_again<E>(
    fetch: FetchView,
    again: FetchView,
    written: u64,
    cache: Cache<E>,
    network: Network<E>,
    network_again: Network<E>,
)
    requires
        ({
            let outcome = run(FetchStepView::LookUp(fetch), cache, network);
            &&& outcome.result is Ok
            &&& outcome.warnings.len() == 0
            &&& again.current == fetch.current || exists|i: int|
                fetch.pending.len() <= i < outcome.writes.len() && (
                #[trigger] outcome.writes[i]).url == again.current
        }),
        writes_stale(cache, fetch.pending, fetch.now),
        fetch.attempts >= 1,
        again.attempts >= fetch.attempts,
        again.pending.len() == 0,
        !again.changed,
        looked_up_fresh(
            FetchStepView::LookUp(fetch),
            cache,
            network,
            cache_after(
                cache,
                run(FetchStepView::LookUp(fetch), cache, network).writes,
                written,
            ),
            again.now,
        ),
    ensures
        ({
            let outcome = run(FetchStepView::LookUp(fetch), cache, network);
            served_again(
                run(
                    FetchStepView::LookUp(again),
                    cache_after(cache, outcome.writes, written),
                    network_again,
                ),
                outcome.result->Ok_0,
            )
        }),
    decreases fetch.attempts,
{
    reveal_with_fuel(run, 3);
    reveal_with_fuel(looked_up_fresh, 3);
    let start = FetchStepView::<E>::LookUp(fetch);
    let outcome = run(start, cache, network);
    let writes = outcome.writes;
    let file = outcome.result->Ok_0;
    let later = cache_after(cache, writes, written);
    lemma_writes(start, fetch.now, cache, network);
    let step = after_current(fetch, cache, network);
    let answered = cached_fresh(cache, fetch.current, fetch.now);
    assert(run(step, cache, network).writes == writes);
    assert(run(step, cache, network).result == outcome.result);
    assert(run(step, cache, network).warnings.len() == 0);
    if !answered {
        assert(step is LookUp || step is Done);
        assert(pending_of(step).drop_last() =~= fetch.pending);
        assert(pending_of(step).last().url == fetch.current);
        assert(writes_stale(cache, pending_of(step), fetch.now));
        lemma_writes(step, fetch.now, cache, network);
        assert(writes[fetch.pending.len() as int] == pending_of(step).last());
    }
    let after = pending_of(step).len();
    if exists|i: int|
        after <= i < writes.len() && (#[trigger] writes[i]).url == again.current {
        // The URL is written again further on: what is written there counts.
        if step is LookUp {
            lemma_served_again(step->LookUp_0, again, written, cache, network, network_again);
        }
    } else {
        assert(again.current == fetch.current) by {
            if again.current != fetch.current {
                let i = choose|i: int|
                    fetch.pending.len() <= i < writes.len() && (#[trigger] writes[i]).url
                        == again.current;
                assert(after <= i);
            }
        }
        if answered {
            assert forall|i: int| 0 <= i < writes.len() implies (#[trigger] writes[i]).url
                != fetch.current by {}
            lemma_no_write(writes, fetch.current);
        } else {
            lemma_last_write(writes, fetch.current, fetch.pending.len() as int);
        }
        assert(cached_fresh(later, fetch.current, again.now));
        match step {
            FetchStepView::LookUp(rest) => {
                let again_on = FetchView {
                    current: rest.current,
                    attempts: again.attempts - 1,
                    ..again
                };
                lemma_served_again(rest, again_on, written, cache, network, network_again);
                assert(remote_file::lookup_step::<E>(again, later(again.current))
                    == FetchStepView::<E>::LookUp(again_on));
            },
            _ => {
                assert(again.pending =~= Seq::empty());
            },
        }
    }
}

/// A file that was fetched without a failed check is served from the cache when it is
/// fetched again, for as long as each URL that was looked up has a fresh entry, which
/// may be one that the first fetch wrote: the same content from the same source, without
/// asking the network and without writing. It is then no first download. The cache keeps
/// the URL of the source as text; only where that text is not read back as the same URL
/// is the source what is read back.
pub proof fn a_fetched_file_is_served_again<E>(
    url: Seq<char>,
    now: u64,
    cache: Cache<E>,
    network: Network<E>,
    written: u64,
    later: u64,
    later_network: Network<E>,
)
    requires
        fetch_outcome(url, now, cache, network).result is Ok,
        fetch_outcome(url, now, cache, network).warnings.len() == 0,
        looked_up_fresh(
            FetchStepView::LookUp(remote_file::initial(url, now)),
            cache,
            network,
            cache_after(cache, fetch_outcome(url, now, cache, network).writes, written),
            later,
        ),
    ensures
        ({
            let outcome = fetch_outcome(url, now, cache, network);
            served_again(
                fetch_outcome(
                    url,
                    later,
                    cache_after(cache, outcome.writes, written),
                    later_network,
                ),
                outcome.result->Ok_0,
            )
        }),
{
    lemma_served_again(
        remote_file::initial(url, now),
        remote_file::initial(url, later),
        written,
        cache,
        network,
        later_network,
    );
}

} // verus!
