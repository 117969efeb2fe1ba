//! Reading a file behind a URL through the cache.
//!
//! The cache and the network are not reached from here. A fetch says what it needs
//! next, and is told what came of it, until it is done or has failed.

use vstd::prelude::*;
use vstd::string::StringExecFns;

use crate::errors::{ResolveError, ResolveErrorView};
use crate::http_cache;
use crate::http_cache::{CacheEntry, CacheEntryView, Headers, HeadersMap};
use crate::paths::{PathSource, PathSourceView};
use crate::remote_url;
use crate::remote_url::RemoteUrl;
use crate::resolved_file::{FileBytesView, ResolvedFilePathWithBytes};

verus! {

/// How many redirects are followed before giving up.
pub const MAX_REDIRECTS: usize = 10;

/// What came back from the network.
pub ghost struct DownloadView {
    pub headers: Headers,
    pub content: Seq<u8>,
}

/// What came back from the network.
#[derive(Debug, PartialEq, Eq)]
pub struct DownloadResult {
    pub headers: HeadersMap,
    pub content: Vec<u8>,
}

impl View for DownloadResult {
    type V = DownloadView;

    open spec fn view(&self) -> DownloadView {
        DownloadView { headers: self.headers@, content: self.content@ }
    }
}

/// Where a cache entry leads.
pub ghost enum TargetView {
    Redirect(Seq<char>),
    Content(Seq<char>),
    Invalid(Seq<char>),
}

/// Where a cache entry leads.
#[derive(Debug, PartialEq, Eq)]
pub enum Target {
    /// The entry redirects to this URL.
    Redirect(RemoteUrl),
    /// The entry holds the content of this URL.
    Content(RemoteUrl),
    /// The entry redirects to what is no URL, for the reason given.
    Invalid(String),
}

impl View for Target {
    type V = TargetView;

    open spec fn view(&self) -> TargetView {
        match self {
            Target::Redirect(url) => TargetView::Redirect(url@),
            Target::Content(url) => TargetView::Content(url@),
            Target::Invalid(message) => TargetView::Invalid(message@),
        }
    }
}

/// Where the cache entry of the URL `current` leads.
pub open spec fn entry_target(current: Seq<char>, entry: CacheEntryView) -> TargetView {
    match http_cache::header_value(entry.headers, "location"@) {
        Some(location) => match remote_url::url_join(current, location) {
            Ok(url) => TargetView::Redirect(url),
            Err(message) => TargetView::Invalid(message),
        },
        None => TargetView::Content(
            match remote_url::url_parse(entry.url) {
                Ok(url) => url,
                Err(_) => current,
            },
        ),
    }
}

/// Where the response with these headers from the URL `current` redirects to.
pub open spec fn redirect_location(current: Seq<char>, headers: Headers) -> Option<
    Result<Seq<char>, Seq<char>>,
> {
    match http_cache::header_value(headers, "location"@) {
        Some(location) => Some(remote_url::url_join(current, location)),
        None => None,
    }
}

/// What is to be written to the cache.
#[verifier::ext_equal]
pub ghost struct CacheWriteView {
    pub url: Seq<char>,
    pub headers: Headers,
    pub content: Seq<u8>,
}

/// What is to be written to the cache.
#[derive(Debug, PartialEq, Eq)]
pub struct CacheWrite {
    pub url: RemoteUrl,
    pub headers: HeadersMap,
    pub content: Vec<u8>,
}

impl View for CacheWrite {
    type V = CacheWriteView;

    open spec fn view(&self) -> CacheWriteView {
        CacheWriteView { url: self.url@, headers: self.headers@, content: self.content@ }
    }
}

/// What a list of writes writes.
pub open spec fn writes_view(writes: Seq<CacheWrite>) -> Seq<CacheWriteView> {
    Seq::new(writes.len(), |i: int| writes[i]@)
}

/// A fetch in progress.
pub ghost struct FetchView {
    /// The URL that was asked for.
    pub url: Seq<char>,
    /// The time that counts as now.
    pub now: u64,
    /// The URL that the redirects have led to.
    pub current: Seq<char>,
    /// Redirects downloaded on the way, to be written once the content is reached.
    pub pending: Seq<CacheWriteView>,
    /// The cached entry of the last URL whose response has come to lead elsewhere.
    pub previous: Option<(Seq<char>, CacheEntryView)>,
    /// Whether a redirect that was checked leads elsewhere than it did.
    pub changed: bool,
    /// How many URLs may still be looked at, the current one included.
    pub attempts: int,
}

/// What a fetch needs next.
pub ghost enum FetchStepView<E> {
    LookUp(FetchView),
    Download(FetchView, Option<CacheEntryView>),
    Done(FileBytesView, Seq<CacheWriteView>),
    Failed(ResolveErrorView<E>),
}

/// A fetch of `url` before its first step.
pub open spec fn initial(url: Seq<char>, now: u64) -> FetchView {
    FetchView {
        url,
        now,
        current: url,
        pending: Seq::empty(),
        previous: None,
        changed: false,
        attempts: MAX_REDIRECTS + 1,
    }
}

/// Goes on to the URL `to`, unless too many were looked at.
pub open spec fn next<E>(fetch: FetchView, to: Seq<char>) -> FetchStepView<E> {
    if fetch.attempts <= 1 {
        FetchStepView::Failed(ResolveErrorView::TooManyRedirects(fetch.url))
    } else {
        FetchStepView::LookUp(FetchView { current: to, attempts: fetch.attempts - 1, ..fetch })
    }
}

/// The content of the URL `url`, with what is to be written.
pub open spec fn done<E>(
    url: Seq<char>,
    is_first_download: bool,
    content: Seq<u8>,
    writes: Seq<CacheWriteView>,
) -> FetchStepView<E> {
    FetchStepView::Done(
        FileBytesView { source: PathSourceView::Remote { url }, is_first_download, content },
        writes,
    )
}

/// What follows where the cache holds `entry`, which leads to `target`.
pub open spec fn after_lookup<E>(
    fetch: FetchView,
    entry: CacheEntryView,
    target: TargetView,
) -> FetchStepView<E> {
    if http_cache::fresh(entry.headers, entry.time, fetch.now) {
        match target {
            TargetView::Redirect(to) => next(fetch, to),
            TargetView::Content(url) => done(url, fetch.changed, entry.content, fetch.pending),
            TargetView::Invalid(message) => FetchStepView::Failed(
                ResolveErrorView::InvalidUrl(message),
            ),
        }
    } else {
        FetchStepView::Download(fetch, Some(entry))
    }
}

/// What is fallen back to where a download fails: a URL, its cached entry, and the
/// fetch that goes on from there.
pub open spec fn fallback(fetch: FetchView, stale: Option<CacheEntryView>) -> Option<
    (Seq<char>, CacheEntryView, FetchView),
> {
    match stale {
        Some(entry) => Some(
            (fetch.current, entry, FetchView { pending: Seq::empty(), ..fetch }),
        ),
        None => match fetch.previous {
            Some((url, entry)) => Some(
                (
                    url,
                    entry,
                    FetchView {
                        pending: Seq::empty(),
                        previous: None,
                        changed: false,
                        ..fetch
                    },
                ),
            ),
            None => None,
        },
    }
}

/// What follows a download that failed, where the entry fallen back to leads to
/// `target`. The error is shown as a warning where the fetch goes on without it.
pub open spec fn after_failed_download<E>(
    fetch: FetchView,
    stale: Option<CacheEntryView>,
    error: E,
    target: TargetView,
) -> (FetchStepView<E>, Option<E>) {
    match fallback(fetch, stale) {
        Some((_, entry, rest)) => match target {
            TargetView::Redirect(to) => (next(rest, to), Some(error)),
            TargetView::Content(url) => (
                done(url, rest.changed, entry.content, Seq::empty()),
                Some(error),
            ),
            TargetView::Invalid(message) => (
                FetchStepView::Failed(ResolveErrorView::InvalidUrl(message)),
                None,
            ),
        },
        None => (FetchStepView::Failed(ResolveErrorView::Environment(error)), None),
    }
}

/// What follows a response that redirects to `location`, where the stale entry
/// redirected to `cached_location`.
pub open spec fn after_redirect<E>(
    fetch: FetchView,
    stale: Option<CacheEntryView>,
    headers: Headers,
    location: Result<Seq<char>, Seq<char>>,
    cached_location: Option<Result<Seq<char>, Seq<char>>>,
) -> FetchStepView<E> {
    match location {
        Err(message) => FetchStepView::Failed(ResolveErrorView::InvalidUrl(message)),
        Ok(to) => {
            let pending = fetch.pending.push(
                CacheWriteView { url: fetch.current, headers, content: Seq::empty() },
            );
            match stale {
                None => next(FetchView { pending, ..fetch }, to),
                Some(entry) => match cached_location {
                    Some(Err(message)) => FetchStepView::Failed(
                        ResolveErrorView::InvalidUrl(message),
                    ),
                    Some(Ok(cached)) if cached == to => next(FetchView { pending, ..fetch }, to),
                    _ => next(
                        FetchView {
                            pending,
                            previous: Some((fetch.current, entry)),
                            changed: true,
                            ..fetch
                        },
                        to,
                    ),
                },
            }
        },
    }
}

/// Whether content that was downloaded is new, given the stale entry that it was
/// checked against.
pub open spec fn is_new(changed: bool, stale: Option<CacheEntryView>, content: Seq<u8>) -> bool {
    changed || match stale {
        Some(entry) => entry.content != content,
        None => true,
    }
}

/// What follows a response that holds the content.
pub open spec fn after_content<E>(
    fetch: FetchView,
    stale: Option<CacheEntryView>,
    response: DownloadView,
) -> FetchStepView<E> {
    done(
        fetch.current,
        is_new(fetch.changed, stale, response.content),
        response.content,
        fetch.pending.push(
            CacheWriteView {
                url: fetch.current,
                headers: response.headers,
                content: response.content,
            },
        ),
    )
}

/// What follows a look into the cache.
pub open spec fn lookup_step<E>(
    fetch: FetchView,
    outcome: Result<Option<CacheEntryView>, E>,
) -> FetchStepView<E> {
    match outcome {
        Ok(Some(entry)) => after_lookup(fetch, entry, entry_target(fetch.current, entry)),
        Ok(None) => FetchStepView::Download(fetch, None),
        Err(error) => FetchStepView::Failed(ResolveErrorView::Environment(error)),
    }
}

/// What follows a download; where it failed and the fetch goes on, with the error.
pub open spec fn download_step<E>(
    fetch: FetchView,
    stale: Option<CacheEntryView>,
    outcome: Result<Option<DownloadView>, E>,
) -> (FetchStepView<E>, Option<E>) {
    match outcome {
        Ok(Some(response)) => (
            match redirect_location(fetch.current, response.headers) {
                Some(location) => after_redirect(
                    fetch,
                    stale,
                    response.headers,
                    location,
                    match stale {
                        Some(entry) => redirect_location(fetch.current, entry.headers),
                        None => None,
                    },
                ),
                None => after_content(fetch, stale, response),
            },
            None,
        ),
        Ok(None) => (FetchStepView::Failed(ResolveErrorView::NotFound(fetch.url)), None),
        Err(error) => after_failed_download(
            fetch,
            stale,
            error,
            match fallback(fetch, stale) {
                Some((url, entry, _)) => entry_target(url, entry),
                None => TargetView::Invalid(Seq::empty()),
            },
        ),
    }
}

/// A fetch that waits for a look into the cache.
#[derive(Debug, PartialEq, Eq)]
pub struct RemoteFetch {
    url: RemoteUrl,
    now_secs: u64,
    current_url: RemoteUrl,
    pending_redirects: Vec<CacheWrite>,
    previous_chain: Option<(RemoteUrl, CacheEntry)>,
    chain_changed: bool,
    attempts: usize,
}

/// A URL with its cached entry.
pub open spec fn chain_view(chain: Option<(RemoteUrl, CacheEntry)>) -> Option<
    (Seq<char>, CacheEntryView),
> {
    match chain {
        Some((url, entry)) => Some((url@, entry@)),
        None => None,
    }
}

/// A cached entry that may not be there.
pub open spec fn entry_view(entry: Option<CacheEntry>) -> Option<CacheEntryView> {
    match entry {
        Some(entry) => Some(entry@),
        None => None,
    }
}

impl View for RemoteFetch {
    type V = FetchView;

    closed spec fn view(&self) -> FetchView {
        FetchView {
            url: self.url@,
            now: self.now_secs,
            current: self.current_url@,
            pending: writes_view(self.pending_redirects@),
            previous: chain_view(self.previous_chain),
            changed: self.chain_changed,
            attempts: self.attempts as int,
        }
    }
}

/// A fetch that waits for a download, with the stale entry that is checked.
#[derive(Debug, PartialEq, Eq)]
pub struct PendingDownload {
    fetch: RemoteFetch,
    stale_entry: Option<CacheEntry>,
}

impl PendingDownload {
    pub closed spec fn fetch(self) -> FetchView {
        self.fetch@
    }

    pub closed spec fn stale(self) -> Option<CacheEntryView> {
        entry_view(self.stale_entry)
    }
}

/// What a fetch needs next.
#[derive(Debug, PartialEq, Eq)]
pub enum FetchStep<E> {
    /// The cache is to be asked for the entry of the current URL.
    LookUp(RemoteFetch),
    /// The current URL is to be downloaded, without following redirects.
    Download(PendingDownload),
    /// The file is there. The writes are to be made in order; whether they succeed
    /// does not matter.
    Done { file: ResolvedFilePathWithBytes, writes: Vec<CacheWrite> },
    /// The file can't be had.
    Failed(ResolveError<E>),
}

impl<E> View for FetchStep<E> {
    type V = FetchStepView<E>;

    open spec fn view(&self) -> FetchStepView<E> {
        match self {
            FetchStep::LookUp(fetch) => FetchStepView::LookUp(fetch@),
            FetchStep::Download(download) => FetchStepView::Download(
                download.fetch(),
                download.stale(),
            ),
            FetchStep::Done { file, writes } => FetchStepView::Done(file@, writes_view(writes@)),
            FetchStep::Failed(error) => FetchStepView::Failed(error@),
        }
    }
}

/// Where the cache entry of the URL `current` leads.
pub fn use_cache_entry(current: &RemoteUrl, entry: &CacheEntry) -> (target: Target)
    ensures
        target@ == entry_target(current@, entry@),
{
    match entry.metadata.headers.get("location") {
        Some(location) => match current.join(location) {
            Ok(url) => Target::Redirect(url),
            Err(message) => Target::Invalid(message),
        },
        None => match RemoteUrl::parse(entry.metadata.url.as_str()) {
            Ok(url) => Target::Content(url),
            Err(_) => Target::Content(current.clone()),
        },
    }
}

/// The outcome of resolving a redirect that may not be there.
pub open spec fn location_view(location: Option<Result<RemoteUrl, String>>) -> Option<
    Result<Seq<char>, Seq<char>>,
> {
    match location {
        Some(joined) => Some(remote_url::url_view(joined)),
        None => None,
    }
}

/// Where a response with these headers from the URL `current` redirects to.
pub fn location_of(current: &RemoteUrl, headers: &HeadersMap) -> (location: Option<
    Result<RemoteUrl, String>,
>)
    ensures
        location_view(location) == redirect_location(current@, headers@),
{
    match headers.get("location") {
        Some(location) => Some(current.join(location)),
        None => None,
    }
}

fn same_bytes(a: &Vec<u8>, b: &Vec<u8>) -> (same: bool)
    ensures
        same == (a@ == b@),
{
    if a.len() != b.len() {
        return false;
    }
    let mut i: usize = 0;
    while i < a.len()
        invariant
            i <= a.len(),
            a.len() == b.len(),
            forall|j: int| 0 <= j < i ==> a@[j] == b@[j],
        decreases a.len() - i,
    {
        if a[i] != b[i] {
            return false;
        }
        i = i + 1;
    }
    assert(a@ =~= b@);
    true
}

impl RemoteFetch {
    /// Starts to fetch `url` at the time `now_secs`, in seconds since the Unix epoch.
    pub fn new(url: RemoteUrl, now_secs: u64) -> (fetch: RemoteFetch)
        ensures
            fetch@ == initial(url@, now_secs),
    {
        let current_url = url.clone();
        let fetch = RemoteFetch {
            url,
            now_secs,
            current_url,
            pending_redirects: Vec::new(),
            previous_chain: None,
            chain_changed: false,
            attempts: MAX_REDIRECTS + 1,
        };
        assert(fetch@.pending =~= Seq::empty());
        fetch
    }

    /// The URL that the redirects have led to.
    pub fn current_url(&self) -> (url: &RemoteUrl)
        ensures
            url@ == self@.current,
    {
        &self.current_url
    }

    fn next<E>(self, to: RemoteUrl) -> (step: FetchStep<E>)
        ensures
            step@ == next::<E>(self@, to@),
    {
        if self.attempts <= 1 {
            FetchStep::Failed(ResolveError::TooManyRedirects(self.url))
        } else {
            FetchStep::LookUp(
                RemoteFetch { current_url: to, attempts: self.attempts - 1, ..self },
            )
        }
    }

    /// Goes on with the cached entry that was found. `target` is where the entry
    /// leads.
    pub fn after_lookup<E>(self, entry: CacheEntry, target: Target) -> (step: FetchStep<E>)
        ensures
            step@ == after_lookup::<E>(self@, entry@, target@),
    {
        if !http_cache::is_cache_entry_fresh(&entry, self.now_secs) {
            return FetchStep::Download(
                PendingDownload { fetch: self, stale_entry: Some(entry) },
            );
        }
        match target {
            Target::Redirect(to) => self.next(to),
            Target::Content(url) => FetchStep::Done {
                file: ResolvedFilePathWithBytes {
                    source: PathSource::new_remote(url),
                    is_first_download: self.chain_changed,
                    content: entry.content,
                },
                writes: self.pending_redirects,
            },
            Target::Invalid(message) => FetchStep::Failed(ResolveError::InvalidUrl(message)),
        }
    }

    /// Goes on with what the cache held of the current URL.
    pub fn on_lookup<E>(self, outcome: Result<Option<CacheEntry>, E>) -> (step: FetchStep<E>)
        ensures
            step@ == lookup_step(
                self@,
                match outcome {
                    Ok(found) => Ok(entry_view(found)),
                    Err(error) => Err(error),
                },
            ),
    {
        match outcome {
            Ok(Some(entry)) => {
                let target = use_cache_entry(&self.current_url, &entry);
                self.after_lookup(entry, target)
            },
            Ok(None) => FetchStep::Download(PendingDownload { fetch: self, stale_entry: None }),
            Err(error) => FetchStep::Failed(ResolveError::Environment(error)),
        }
    }
}

/// What a download leads to: the next step and, where the download failed and the
/// fetch goes on with the cached version, the error to warn of.
#[derive(Debug, PartialEq, Eq)]
pub struct AfterDownload<E> {
    pub step: FetchStep<E>,
    pub warning: Option<E>,
}

impl<E> View for AfterDownload<E> {
    type V = (FetchStepView<E>, Option<E>);

    open spec fn view(&self) -> (FetchStepView<E>, Option<E>) {
        (self.step@, self.warning)
    }
}

/// The warning that the cached version of `url` is used, because of the error with
/// this message.
pub fn stale_warning(url: &str, error: &str) -> (warning: String)
    ensures
        warning@ == "Using the cached version of "@ + url@
            + " because checking it for changes failed. "@ + error@,
{
    crate::errors::framed(
        "Using the cached version of ",
        url,
        " because checking it for changes failed. ",
    ).concat(error)
}

impl PendingDownload {
    /// The URL to download.
    pub fn current_url(&self) -> (url: &RemoteUrl)
        ensures
            url@ == self.fetch().current,
    {
        &self.fetch.current_url
    }

    /// The URL that was asked for at first.
    pub fn requested_url(&self) -> (url: &RemoteUrl)
        ensures
            url@ == self.fetch().url,
    {
        &self.fetch.url
    }

    /// Whether a cached entry is checked for changes.
    pub fn checks_for_changes(&self) -> (yes: bool)
        ensures
            yes == (self.stale() is Some),
    {
        self.stale_entry.is_some()
    }

    /// Goes on where the download failed. `target` is where the entry fallen back
    /// to leads.
    pub fn after_failed_download<E>(self, error: E, target: Target) -> (after: AfterDownload<E>)
        ensures
            after@ == after_failed_download(self.fetch(), self.stale(), error, target@),
    {
        let PendingDownload { fetch, stale_entry } = self;
        let (entry, rest) = match stale_entry {
            Some(entry) => (entry, RemoteFetch { pending_redirects: Vec::new(), ..fetch }),
            None => match fetch.previous_chain {
                Some((_, entry)) => (
                    entry,
                    RemoteFetch {
                        pending_redirects: Vec::new(),
                        previous_chain: None,
                        chain_changed: false,
                        ..fetch
                    },
                ),
                None => {
                    return AfterDownload {
                        step: FetchStep::Failed(ResolveError::Environment(error)),
                        warning: None,
                    };
                },
            },
        };
        assert(rest@.pending =~= Seq::empty());
        match target {
            Target::Redirect(to) => AfterDownload { step: rest.next(to), warning: Some(error) },
            Target::Content(url) => {
                let writes: Vec<CacheWrite> = Vec::new();
                assert(writes_view(writes@) =~= Seq::empty());
                AfterDownload {
                    step: FetchStep::Done {
                        file: ResolvedFilePathWithBytes {
                            source: PathSource::new_remote(url),
                            is_first_download: rest.chain_changed,
                            content: entry.content,
                        },
                        writes,
                    },
                    warning: Some(error),
                }
            },
            Target::Invalid(message) => AfterDownload {
                step: FetchStep::Failed(ResolveError::InvalidUrl(message)),
                warning: None,
            },
        }
    }

    /// Goes on where the response redirects to `location`, and the stale entry
    /// redirected to `cached_location`.
    pub fn after_redirect<E>(
        self,
        headers: HeadersMap,
        location: Result<RemoteUrl, String>,
        cached_location: Option<Result<RemoteUrl, String>>,
    ) -> (step: FetchStep<E>)
        ensures
            step@ == after_redirect::<E>(
                self.fetch(),
                self.stale(),
                headers@,
                remote_url::url_view(location),
                location_view(cached_location),
            ),
    {
        let to = match location {
            Ok(to) => to,
            Err(message) => {
                return FetchStep::Failed(ResolveError::InvalidUrl(message));
            },
        };
        let PendingDownload { fetch, stale_entry } = self;
        let ghost before = fetch@;
        let RemoteFetch {
            url,
            now_secs,
            current_url,
            pending_redirects,
            previous_chain,
            chain_changed,
            attempts,
        } = fetch;
        let mut pending = pending_redirects;
        let content: Vec<u8> = Vec::new();
        pending.push(CacheWrite { url: current_url.clone(), headers, content });
        assert(writes_view(pending@) =~= before.pending.push(
            CacheWriteView { url: before.current, headers: headers@, content: Seq::empty() },
        ));
        let mut previous = previous_chain;
        let mut changed = chain_changed;
        if let Some(entry) = stale_entry {
            let same = match &cached_location {
                Some(Ok(cached)) => cached.same(&to),
                Some(Err(message)) => {
                    return FetchStep::Failed(ResolveError::InvalidUrl(message.clone()));
                },
                None => false,
            };
            if !same {
                changed = true;
                previous = Some((current_url, entry));
            }
        }
        let rest = RemoteFetch {
            url,
            now_secs,
            current_url: to.clone(),
            pending_redirects: pending,
            previous_chain: previous,
            chain_changed: changed,
            attempts,
        };
        rest.next(to)
    }

    /// Goes on where the response holds the content.
    pub fn after_content<E>(self, response: DownloadResult) -> (step: FetchStep<E>)
        ensures
            step@ == after_content::<E>(self.fetch(), self.stale(), response@),
    {
        let PendingDownload { fetch, stale_entry } = self;
        let ghost before = fetch@;
        let is_changed = fetch.chain_changed || match &stale_entry {
            Some(entry) => !same_bytes(&entry.content, &response.content),
            None => true,
        };
        let mut writes = fetch.pending_redirects;
        let content = response.content.clone();
        assert(content@ =~= response.content@);
        writes.push(
            CacheWrite { url: fetch.current_url.clone(), headers: response.headers, content },
        );
        assert(writes_view(writes@) =~= before.pending.push(
            CacheWriteView {
                url: before.current,
                headers: response@.headers,
                content: response@.content,
            },
        ));
        FetchStep::Done {
            file: ResolvedFilePathWithBytes {
                source: PathSource::new_remote(fetch.current_url),
                is_first_download: is_changed,
                content: response.content,
            },
            writes,
        }
    }

    /// Goes on with what came of the download; `Ok(None)` is that nothing is there.
    pub fn on_download<E>(self, outcome: Result<Option<DownloadResult>, E>) -> (after:
        AfterDownload<E>)
        ensures
            after@ == download_step(
                self.fetch(),
                self.stale(),
                match outcome {
                    Ok(Some(response)) => Ok(Some(response@)),
                    Ok(None) => Ok(None),
                    Err(error) => Err(error),
                },
            ),
    {
        match outcome {
            Ok(Some(response)) => {
                let location = location_of(&self.fetch.current_url, &response.headers);
                let step = match location {
                    Some(location) => {
                        let cached_location = match &self.stale_entry {
                            Some(entry) => location_of(
                                &self.fetch.current_url,
                                &entry.metadata.headers,
                            ),
                            None => None,
                        };
                        self.after_redirect(response.headers, location, cached_location)
                    },
                    None => self.after_content(response),
                };
                AfterDownload { step, warning: None }
            },
            Ok(None) => AfterDownload {
                step: FetchStep::Failed(ResolveError::NotFound(self.fetch.url)),
                warning: None,
            },
            Err(error) => {
                let target = match &self.stale_entry {
                    Some(entry) => use_cache_entry(&self.fetch.current_url, entry),
                    None => match &self.fetch.previous_chain {
                        Some((url, entry)) => use_cache_entry(url, entry),
                        None => {
                            return AfterDownload {
                                step: FetchStep::Failed(ResolveError::Environment(error)),
                                warning: None,
                            };
                        },
                    },
                };
                self.after_failed_download(error, target)
            },
        }
    }
}

} // verus!
