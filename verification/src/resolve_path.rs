//! What a URL or a file path refers to, given where it was written.

use std::path::PathBuf;
use vstd::prelude::*;
use vstd::string::StrSliceExecFns;

use crate::errors::{ResolveError, ResolveErrorView};
use crate::paths;
use crate::paths::{LocalPath, LocalPathSource, LocalPathView, PathSource, PathSourceView};
use crate::remote_file;
use crate::remote_file::{FetchView, RemoteFetch};
use crate::remote_url;
use crate::remote_url::RemoteUrl;
use crate::resolved_file::{FileBytesView, ResolvedFilePathWithBytes};
use crate::text;

verus! {

/// What `char::is_alphabetic` says of `c`: whether it has the `Alphabetic` property
/// of Unicode.
pub uninterp spec fn alphabetic(c: char) -> bool;

/// Calls `char::is_alphabetic`.
///
/// Believed of it: the answer depends on `c` alone, and of the ASCII characters it
/// is true of the letters and of no other.
#[verifier::external_body]
fn is_alphabetic(c: char) -> (yes: bool)
    ensures
        yes == alphabetic(c),
        c as u32 <= 0x7f ==> yes == ('a' <= c <= 'z' || 'A' <= c <= 'Z'),
{
    c.is_alphabetic()
}

/// Whether a slash of either kind stands at `index`.
pub open spec fn slash_at(s: Seq<char>, index: int) -> bool {
    0 <= index < s.len() && (s[index] == '/' || s[index] == '\\')
}

/// Whether a colon and exactly one slash follow the first character, as they do in
/// a path that starts with a Windows drive.
pub open spec fn after_drive(s: Seq<char>) -> bool {
    s.len() > 1 && s[1] == ':' && slash_at(s, 2) && !slash_at(s, 3)
}

/// Whether `s` is an absolute Windows path: a drive letter, a colon and exactly one
/// slash.
pub open spec fn absolute_windows_path(s: Seq<char>) -> bool {
    after_drive(s) && alphabetic(s[0])
}

fn is_slash(chars: &[char], index: usize) -> (yes: bool)
    ensures
        yes == slash_at(chars@, index as int),
{
    index < chars.len() && (chars[index] == '/' || chars[index] == '\\')
}

/// Whether a colon and exactly one slash follow the first character.
pub fn follows_drive(value: &str) -> (yes: bool)
    ensures
        yes == after_drive(value@),
{
    let chars = text::chars_of(value);
    chars.len() > 1 && chars[1] == ':' && is_slash(chars.as_slice(), 2) && !is_slash(
        chars.as_slice(),
        3,
    )
}

/// Whether `value` is an absolute Windows path (ex. `C:/file.json`) rather than a
/// URL with a scheme of one letter.
pub fn is_absolute_windows_file_path(value: &str) -> (yes: bool)
    ensures
        yes == absolute_windows_path(value@),
        yes ==> after_drive(value@),
        after_drive(value@) && value@[0] as u32 <= 0x7f ==> yes == ('a' <= value@[0] <= 'z' || 'A'
            <= value@[0] <= 'Z'),
{
    if !follows_drive(value) {
        return false;
    }
    is_alphabetic(value.get_char(0))
}

/// The URL that `text` is, unless it is an absolute Windows path.
pub open spec fn url_of(text: Seq<char>) -> Option<Seq<char>> {
    if absolute_windows_path(text) {
        None
    } else {
        match remote_url::url_parse(text) {
            Ok(url) => Some(url),
            Err(_) => None,
        }
    }
}

/// The text of a URL that may not be there.
pub open spec fn optional_url(url: Option<RemoteUrl>) -> Option<Seq<char>> {
    match url {
        Some(url) => Some(url@),
        None => None,
    }
}

/// Reads `text` as a URL, unless it is an absolute Windows path.
pub fn try_parse_url(text: &str) -> (url: Option<RemoteUrl>)
    ensures
        optional_url(url) == url_of(text@),
{
    if is_absolute_windows_file_path(text) {
        return None;
    }
    match RemoteUrl::parse(text) {
        Ok(url) => Some(url),
        Err(_) => None,
    }
}

/// What follows `~/` in `text`, if it starts so.
pub open spec fn in_home(text: Seq<char>) -> Option<Seq<char>> {
    if text.len() >= 2 && text[0] == '~' && text[1] == '/' {
        Some(text.skip(2))
    } else {
        None
    }
}

/// What follows `~/` in `text`, if it starts so.
pub fn strip_home_prefix(text: &str) -> (rest: Option<&str>)
    ensures
        match rest {
            Some(rest) => in_home(text@) == Some(rest@),
            None => in_home(text@) is None,
        },
{
    let length: usize = text.unicode_len();
    if length >= 2 && text.get_char(0) == '~' && text.get_char(1) == '/' {
        let rest = text.substring_char(2, length);
        assert(rest@ =~= text@.skip(2));
        Some(rest)
    } else {
        None
    }
}

/// How a URL or file path is written.
pub ghost enum ReferenceView {
    /// A URL that names a file of this machine.
    FileUrl,
    /// Any other absolute URL.
    Remote(Seq<char>),
    /// A path in the home directory.
    Home(Seq<char>),
    /// Anything else: it is relative to where it was written.
    Relative,
}

/// How a URL or file path is written.
#[derive(Debug, PartialEq, Eq)]
pub enum Reference {
    /// A URL that names a file of this machine.
    FileUrl,
    /// Any other absolute URL.
    Remote(RemoteUrl),
    /// A path in the home directory.
    Home(String),
    /// Anything else: it is relative to where it was written.
    Relative,
}

impl View for Reference {
    type V = ReferenceView;

    open spec fn view(&self) -> ReferenceView {
        match self {
            Reference::FileUrl => ReferenceView::FileUrl,
            Reference::Remote(url) => ReferenceView::Remote(url@),
            Reference::Home(rest) => ReferenceView::Home(rest@),
            Reference::Relative => ReferenceView::Relative,
        }
    }
}

/// How `text` is written, where `url` is the URL that it is.
pub open spec fn reference_kind(text: Seq<char>, url: Option<Seq<char>>) -> ReferenceView {
    match url {
        Some(url) => if remote_url::opaque(url) {
            ReferenceView::Relative
        } else if remote_url::scheme_of(url) == "file"@ {
            ReferenceView::FileUrl
        } else {
            ReferenceView::Remote(url)
        },
        None => match in_home(text) {
            Some(rest) => ReferenceView::Home(rest),
            None => ReferenceView::Relative,
        },
    }
}

/// How `text` is written.
pub open spec fn reference_of(text: Seq<char>) -> ReferenceView {
    reference_kind(text, url_of(text))
}

/// How `text` is written, where `url` is the URL that it is.
pub fn classify(text: &str, url: Option<RemoteUrl>) -> (reference: Reference)
    ensures
        reference@ == reference_kind(text@, optional_url(url)),
{
    match url {
        Some(url) => if url.cannot_be_a_base() {
            Reference::Relative
        } else if url.is_file() {
            Reference::FileUrl
        } else {
            Reference::Remote(url)
        },
        None => match strip_home_prefix(text) {
            Some(rest) => Reference::Home(rest.to_owned()),
            None => Reference::Relative,
        },
    }
}

/// Where a file is, as far as that is known without the file system.
pub ghost enum LocatedView {
    Source(PathSourceView),
    Canonicalize(LocalPathView),
}

/// Where a file is, as far as that is known without the file system.
#[derive(Debug, PartialEq, Eq)]
pub enum Located {
    /// The file is here.
    Source(PathSource),
    /// The file is at the canonical form of this path.
    Canonicalize(LocalPath),
}

impl View for Located {
    type V = LocatedView;

    open spec fn view(&self) -> LocatedView {
        match self {
            Located::Source(source) => LocatedView::Source(source@),
            Located::Canonicalize(path) => LocatedView::Canonicalize(path@),
        }
    }
}

/// The outcome of locating a file.
pub open spec fn located_view<E>(located: Result<Located, ResolveError<E>>) -> Result<
    LocatedView,
    ResolveErrorView<E>,
> {
    match located {
        Ok(located) => Ok(located@),
        Err(error) => Err(error@),
    }
}

/// Where the file URL `text` leads, where it is converted to `path`.
pub open spec fn file_url_location<E>(text: Seq<char>, path: Option<PathBuf>) -> Result<
    LocatedView,
    ResolveErrorView<E>,
> {
    match path {
        Some(path) => Ok(LocatedView::Canonicalize(LocalPathView::whole(path))),
        None => Err(ResolveErrorView::NotAFilePath(text)),
    }
}

/// Where `rest` leads in the home directory. The home directory itself is taken
/// as it is.
pub open spec fn home_location<E>(rest: Seq<char>, home_dir: Option<PathBuf>) -> Result<
    LocatedView,
    ResolveErrorView<E>,
> {
    match home_dir {
        Some(home_dir) => Ok(
            if rest.len() == 0 {
                LocatedView::Source(
                    PathSourceView::Local { path: LocalPathView::whole(home_dir), origin: None },
                )
            } else {
                LocatedView::Canonicalize(LocalPathView::whole(home_dir).join(rest))
            },
        ),
        None => Err(ResolveErrorView::NoHomeDirectory),
    }
}

/// Where a relative URL leads that was resolved to `joined`.
pub open spec fn joined_location<E>(joined: Result<Seq<char>, Seq<char>>) -> Result<
    LocatedView,
    ResolveErrorView<E>,
> {
    match joined {
        Ok(url) => Ok(LocatedView::Source(PathSourceView::Remote { url })),
        Err(message) => Err(ResolveErrorView::InvalidUrl(message)),
    }
}

/// Where `text` leads that is relative to `base`.
pub open spec fn relative_location<E>(text: Seq<char>, base: PathSourceView) -> Result<
    LocatedView,
    ResolveErrorView<E>,
> {
    match base {
        PathSourceView::Remote { url } => joined_location(remote_url::url_join(url, text)),
        PathSourceView::Local { path, .. } => Ok(LocatedView::Canonicalize(path.join(text))),
        PathSourceView::Npm { .. } => Err(ResolveErrorView::NpmIsNoBase),
    }
}

/// Where `text` leads, seen from `base`, where `file_path` is what a file URL is
/// converted to.
pub open spec fn location<E>(
    text: Seq<char>,
    base: PathSourceView,
    home_dir: Option<PathBuf>,
    file_path: Option<PathBuf>,
) -> Result<LocatedView, ResolveErrorView<E>> {
    match reference_of(text) {
        ReferenceView::FileUrl => file_url_location(text, file_path),
        ReferenceView::Remote(url) => Ok(LocatedView::Source(PathSourceView::Remote { url })),
        ReferenceView::Home(rest) => home_location(rest, home_dir),
        ReferenceView::Relative => relative_location(text, base),
    }
}

/// Where the file URL `text` leads, where it is converted to `path`.
pub fn locate_file_url<E>(text: &str, path: Option<PathBuf>) -> (located: Result<
    Located,
    ResolveError<E>,
>)
    ensures
        located_view(located) == file_url_location::<E>(text@, path),
{
    match path {
        Some(path) => Ok(Located::Canonicalize(LocalPath::new(path))),
        None => Err(ResolveError::NotAFilePath(text.to_owned())),
    }
}

/// Where `rest` leads in the home directory.
pub fn locate_in_home<E>(rest: &str, home_dir: Option<PathBuf>) -> (located: Result<
    Located,
    ResolveError<E>,
>)
    ensures
        located_view(located) == home_location::<E>(rest@, home_dir),
{
    match home_dir {
        Some(home_dir) => if rest.is_empty() {
            Ok(Located::Source(PathSource::new_local(LocalPath::new(home_dir))))
        } else {
            Ok(Located::Canonicalize(LocalPath::new(home_dir).join(rest)))
        },
        None => Err(ResolveError::NoHomeDirectory),
    }
}

/// Where a relative URL leads that was resolved to `joined`.
pub fn locate_joined<E>(joined: Result<RemoteUrl, String>) -> (located: Result<
    Located,
    ResolveError<E>,
>)
    ensures
        located_view(located) == joined_location::<E>(remote_url::url_view(joined)),
{
    match joined {
        Ok(url) => Ok(Located::Source(PathSource::new_remote(url))),
        Err(message) => Err(ResolveError::InvalidUrl(message)),
    }
}

/// Where `text` leads that is relative to `base`.
pub fn locate_relative<E>(text: &str, base: &PathSource) -> (located: Result<
    Located,
    ResolveError<E>,
>)
    ensures
        located_view(located) == relative_location::<E>(text@, base@),
{
    match base {
        PathSource::Remote(remote) => locate_joined(remote.url.join(text)),
        PathSource::Local(local) => Ok(Located::Canonicalize(local.path.join(text))),
        PathSource::Npm(_) => Err(ResolveError::NpmIsNoBase),
    }
}

/// Where the URL or file path `text` leads, seen from `base`. `home_dir` is the home
/// directory, where it is known.
pub fn resolve_url_or_file_path_to_path_source<E>(
    text: &str,
    base: &PathSource,
    home_dir: Option<PathBuf>,
) -> (located: Result<Located, ResolveError<E>>)
    ensures
        exists|file_path: Option<PathBuf>|
            located_view(located) == #[trigger] location::<E>(text@, base@, home_dir, file_path)
                && (reference_of(text@) is FileUrl ==> remote_url::converted(text@, file_path)),
{
    match classify(text, try_parse_url(text)) {
        Reference::FileUrl => {
            let path = remote_url::to_file_path(text);
            let located = locate_file_url(text, path);
            assert(located_view(located) == location::<E>(text@, base@, home_dir, path));
            located
        },
        Reference::Remote(url) => {
            let located = Ok(Located::Source(PathSource::new_remote(url)));
            assert(located_view(located) == location::<E>(text@, base@, home_dir, None));
            located
        },
        Reference::Home(rest) => {
            let located = locate_in_home(rest.as_str(), home_dir);
            assert(located_view(located) == location::<E>(text@, base@, home_dir, None));
            located
        },
        Reference::Relative => {
            let located = locate_relative(text, base);
            assert(located_view(located) == location::<E>(text@, base@, home_dir, None));
            located
        },
    }
}

/// The source of the file whose path was to be canonicalized.
pub open spec fn canonicalized_source<E>(outcome: Result<PathBuf, E>) -> Result<
    PathSourceView,
    ResolveErrorView<E>,
> {
    match outcome {
        Ok(path) => Ok(PathSourceView::Local { path: LocalPathView::whole(path), origin: None }),
        Err(error) => Err(ResolveErrorView::Environment(error)),
    }
}

/// The outcome of finding where a file is.
pub open spec fn source_view<E>(source: Result<PathSource, ResolveError<E>>) -> Result<
    PathSourceView,
    ResolveErrorView<E>,
> {
    match source {
        Ok(source) => Ok(source@),
        Err(error) => Err(error@),
    }
}

/// The source of the file whose path was to be canonicalized.
pub fn on_canonicalized<E>(outcome: Result<PathBuf, E>) -> (source: Result<
    PathSource,
    ResolveError<E>,
>)
    ensures
        source_view(source) == canonicalized_source(outcome),
{
    match outcome {
        Ok(path) => Ok(PathSource::new_local(LocalPath::new(path))),
        Err(error) => Err(ResolveError::Environment(error)),
    }
}

/// What reading a file needs next.
pub ghost enum FileStepView<E> {
    Canonicalize { path: LocalPathView, now: u64 },
    Read { path: LocalPathView, origin: Option<Seq<char>> },
    Fetch(FetchView),
    Failed(ResolveErrorView<E>),
}

/// A file whose path is to be canonicalized.
#[derive(Debug, PartialEq, Eq)]
pub struct PendingPath {
    pub path: LocalPath,
    /// The time that counts as now, in seconds since the Unix epoch.
    pub now_secs: u64,
}

/// A file on this machine that is to be read.
#[derive(Debug, PartialEq, Eq)]
pub struct PendingRead {
    pub local: LocalPathSource,
}

/// What reading a file needs next.
#[derive(Debug, PartialEq, Eq)]
pub enum FileStep<E> {
    /// The canonical form of the path is needed.
    Canonicalize(PendingPath),
    /// The bytes at the path are needed.
    Read(PendingRead),
    /// The file is fetched through the cache.
    Fetch(RemoteFetch),
    /// The file can't be had.
    Failed(ResolveError<E>),
}

impl<E> View for FileStep<E> {
    type V = FileStepView<E>;

    open spec fn view(&self) -> FileStepView<E> {
        match self {
            FileStep::Canonicalize(pending) => FileStepView::Canonicalize {
                path: pending.path@,
                now: pending.now_secs,
            },
            FileStep::Read(pending) => FileStepView::Read {
                path: pending.local.path@,
                origin: paths::optional_text(pending.local.origin),
            },
            FileStep::Fetch(fetch) => FileStepView::Fetch(fetch@),
            FileStep::Failed(error) => FileStepView::Failed(error@),
        }
    }
}

/// How the file at `source` is read.
pub open spec fn file_step<E>(source: PathSourceView, now: u64) -> FileStepView<E> {
    match source {
        PathSourceView::Remote { url } => FileStepView::Fetch(remote_file::initial(url, now)),
        PathSourceView::Local { path, origin } => FileStepView::Read { path, origin },
        PathSourceView::Npm { .. } => FileStepView::Failed(ResolveErrorView::NpmNotUrlOrFilePath),
    }
}

/// How a file is read once it is known where it is.
pub open spec fn located_step<E>(
    located: Result<LocatedView, ResolveErrorView<E>>,
    now: u64,
) -> FileStepView<E> {
    match located {
        Ok(LocatedView::Source(source)) => file_step(source, now),
        Ok(LocatedView::Canonicalize(path)) => FileStepView::Canonicalize { path, now },
        Err(error) => FileStepView::Failed(error),
    }
}

/// How the file at `source` is read at the time `now_secs`: one behind a URL through
/// the cache, one on this machine from the file system.
pub fn resolve_path_source_to_file_with_cache<E>(source: PathSource, now_secs: u64) -> (step:
    FileStep<E>)
    ensures
        step@ == file_step::<E>(source@, now_secs),
{
    match source {
        PathSource::Remote(remote) => FileStep::Fetch(RemoteFetch::new(remote.url, now_secs)),
        PathSource::Local(local) => FileStep::Read(PendingRead { local }),
        PathSource::Npm(_) => FileStep::Failed(ResolveError::NpmNotUrlOrFilePath),
    }
}

/// How a file is read once it is known where it is.
pub fn after_locating<E>(located: Result<Located, ResolveError<E>>, now_secs: u64) -> (step:
    FileStep<E>)
    ensures
        step@ == located_step(located_view(located), now_secs),
{
    match located {
        Ok(Located::Source(source)) => resolve_path_source_to_file_with_cache(source, now_secs),
        Ok(Located::Canonicalize(path)) => FileStep::Canonicalize(PendingPath { path, now_secs }),
        Err(error) => FileStep::Failed(error),
    }
}

/// How the file is read that the URL or file path `text` leads to, seen from `base`.
pub fn resolve_url_or_file_path_to_file_with_cache<E>(
    text: &str,
    base: &PathSource,
    home_dir: Option<PathBuf>,
    now_secs: u64,
) -> (step: FileStep<E>)
    ensures
        exists|file_path: Option<PathBuf>|
            step@ == located_step(
                #[trigger] location::<E>(text@, base@, home_dir, file_path),
                now_secs,
            ) && (reference_of(text@) is FileUrl ==> remote_url::converted(text@, file_path)),
{
    after_locating(resolve_url_or_file_path_to_path_source(text, base, home_dir), now_secs)
}

impl PendingPath {
    /// Goes on with the canonical form of the path.
    pub fn on_canonicalized<E>(self, outcome: Result<PathBuf, E>) -> (step: FileStep<E>)
        ensures
            step@ == (match canonicalized_source(outcome) {
                Ok(source) => file_step(source, self.now_secs),
                Err(error) => FileStepView::Failed(error),
            }),
    {
        match on_canonicalized(outcome) {
            Ok(source) => resolve_path_source_to_file_with_cache(source, self.now_secs),
            Err(error) => FileStep::Failed(error),
        }
    }
}

/// The outcome of reading a file.
pub open spec fn file_view<E>(file: Result<ResolvedFilePathWithBytes, ResolveError<E>>) -> Result<
    FileBytesView,
    ResolveErrorView<E>,
> {
    match file {
        Ok(file) => Ok(file@),
        Err(error) => Err(error@),
    }
}

impl PendingRead {
    /// The file with the bytes that were read. It was not downloaded.
    pub fn on_read<E>(self, outcome: Result<Vec<u8>, E>) -> (file: Result<
        ResolvedFilePathWithBytes,
        ResolveError<E>,
    >)
        ensures
            file_view(file) == (match outcome {
                Ok(content) => Ok(
                    FileBytesView {
                        source: PathSourceView::Local {
                            path: self.local.path@,
                            origin: paths::optional_text(self.local.origin),
                        },
                        is_first_download: false,
                        content: content@,
                    },
                ),
                Err(error) => Err(ResolveErrorView::Environment(error)),
            }),
    {
        match outcome {
            Ok(content) => Ok(
                ResolvedFilePathWithBytes {
                    source: PathSource::Local(self.local),
                    is_first_download: false,
                    content,
                },
            ),
            Err(error) => Err(ResolveError::Environment(error)),
        }
    }
}

/// Where the bytes of a file are to be had from.
#[derive(Debug, PartialEq, Eq)]
pub enum BytesAction {
    /// The URL is to be downloaded, past the cache; that nothing is there is an error.
    Download(RemoteUrl),
    /// The bytes at the path are to be read.
    Read(LocalPath),
}

/// Where the bytes of the file at `source` are to be had from, past the cache.
pub fn fetch_file_or_url_bytes<E>(source: &PathSource) -> (action: Result<
    BytesAction,
    ResolveError<E>,
>)
    ensures
        match source@ {
            PathSourceView::Remote { url } => action matches Ok(BytesAction::Download(from))
                && from@ == url,
            PathSourceView::Local { path, .. } => action matches Ok(BytesAction::Read(from))
                && from@ == path,
            PathSourceView::Npm { .. } => action matches Err(error) && error@
                == ResolveErrorView::<E>::NpmHasNoBytes,
        },
{
    match source {
        PathSource::Remote(remote) => Ok(BytesAction::Download(remote.url.clone())),
        PathSource::Local(local) => Ok(BytesAction::Read(local.path.clone())),
        PathSource::Npm(_) => Err(ResolveError::NpmHasNoBytes),
    }
}

/// An absolute Windows path is never taken for a URL, nor for a path in the home
/// directory, whatever `url::Url` makes of it.
pub proof fn a_windows_path_is_no_url(text: Seq<char>)
    requires
        absolute_windows_path(text),
    ensures
        reference_of(text) == ReferenceView::Relative,
{
}

/// What is not relative leads to the same place wherever it was written.
pub proof fn only_relative_references_depend_on_the_base<E>(
    text: Seq<char>,
    base: PathSourceView,
    other: PathSourceView,
    home_dir: Option<PathBuf>,
    file_path: Option<PathBuf>,
)
    requires
        !(reference_of(text) is Relative),
    ensures
        location::<E>(text, base, home_dir, file_path) == location::<E>(
            text,
            other,
            home_dir,
            file_path,
        ),
{
}

/// A path that is relative to a local file stays on this machine, and one that is
/// relative to a URL never reaches the file system.
pub proof fn relative_references_stay_where_they_were_written<E>(
    text: Seq<char>,
    base: PathSourceView,
    home_dir: Option<PathBuf>,
    file_path: Option<PathBuf>,
)
    requires
        reference_of(text) is Relative,
    ensures
        match location::<E>(text, base, home_dir, file_path) {
            Ok(LocatedView::Canonicalize(path)) => base is Local && path.base
                == base->path.base,
            Ok(LocatedView::Source(source)) => base is Remote && source is Remote,
            Err(_) => !(base is Local),
        },
{
}

/// A file on this machine is read from the file system and never fetched.
pub proof fn a_local_file_is_never_fetched<E>(source: PathSourceView, now: u64)
    requires
        source is Local,
    ensures
        file_step::<E>(source, now) is Read,
{
}

} // verus!
