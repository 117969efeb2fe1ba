//! The configuration that `--config` names or holds.

use std::path::PathBuf;
use vstd::prelude::*;
use vstd::string::{StrSliceExecFns, StringExecFns};

use crate::cli;
use crate::cli::{ConfigArg, SubCommand};
use crate::errors::{ResolveError, ResolveErrorView};
use crate::file_search;
use crate::paths;
use crate::paths::{LocalPath, LocalPathView, PathSource, PathSourceView};
use crate::remote_url;
use crate::remote_url::RemoteUrl;
use crate::resolve_path;
use crate::resolve_path::{Located, LocatedView, ReferenceView};
use crate::resolved_file;
use crate::resolved_file::{
    FileBytesView, FileTextView, ResolvedFilePathWithBytes, ResolvedFilePathWithText,
};
use crate::text;

verus! {

/// What a path names.
#[derive(Debug, Clone, Copy, PartialEq, Eq, Structural)]
pub enum PathKind {
    File,
    Dir,
}

/// What is known of a path without opening it.
#[derive(Debug, Clone, Copy, PartialEq, Eq, Structural)]
pub struct PathFacts {
    pub exists: bool,
    pub is_file: bool,
    pub kind: Option<PathKind>,
}

/// Whether the path names something to read as a stream.
pub open spec fn stream(facts: PathFacts) -> bool {
    facts.exists && !facts.is_file && facts.kind != Some(PathKind::Dir)
}

/// Whether the path names something to read as a stream rather than an ordinary
/// file. A directory isn't a regular file either, but it isn't a stream: it
/// should keep failing on the read the way it always has.
pub fn is_stream_path(facts: &PathFacts) -> (yes: bool)
    ensures
        yes == stream(*facts),
{
    facts.exists && !facts.is_file && !matches!(facts.kind, Some(PathKind::Dir))
}

/// Where configuration is going to come from.
pub ghost enum ConfigArgSourceView {
    Text { text: Seq<char>, display: Seq<char> },
    File(PathSourceView),
    Stream { path: LocalPathView, display: Seq<char> },
}

/// Where the configuration named by `--config` is going to come from, worked
/// out before any of it is read.
#[derive(Debug, PartialEq, Eq)]
pub enum ConfigArgSource {
    /// Text provided inline or already read from stdin.
    Text { text: String, display: String },
    /// A regular file or a url, read the usual way.
    File(PathSource),
    /// A pipe: a fifo, or something like the `/dev/fd/63` of a `<(...)` process
    /// substitution that can be read but not canonicalized.
    Stream { path: LocalPath, display: String },
}

impl View for ConfigArgSource {
    type V = ConfigArgSourceView;

    open spec fn view(&self) -> ConfigArgSourceView {
        match self {
            ConfigArgSource::Text { text, display } => ConfigArgSourceView::Text {
                text: text@,
                display: display@,
            },
            ConfigArgSource::File(source) => ConfigArgSourceView::File(source@),
            ConfigArgSource::Stream { path, display } => ConfigArgSourceView::Stream {
                path: path@,
                display: display@,
            },
        }
    }
}

/// How to describe configuration that didn't come from a file.
pub open spec fn virtual_text(source: ConfigArgSourceView) -> Option<Seq<char>> {
    match source {
        ConfigArgSourceView::Text { display, .. } => Some(display),
        ConfigArgSourceView::Stream { display, .. } => Some(display),
        ConfigArgSourceView::File(_) => None,
    }
}

impl ConfigArgSource {
    /// How to describe the configuration when it didn't come from a file dprint
    /// could also write back to, or `None` when it did.
    pub fn virtual_display(&self) -> (display: Option<&str>)
        ensures
            match display {
                Some(display) => virtual_text(self@) == Some(display@),
                None => virtual_text(self@) is None,
            },
    {
        match self {
            ConfigArgSource::Text { display, .. } => Some(display.as_str()),
            ConfigArgSource::Stream { display, .. } => Some(display.as_str()),
            ConfigArgSource::File(_) => None,
        }
    }
}

/// The source of configuration text that didn't come from a file.
pub open spec fn virtual_source(cwd: PathBuf, origin: Seq<char>) -> PathSourceView {
    PathSourceView::Local {
        path: LocalPathView::whole(cwd).join("<config>"@),
        origin: Some(origin),
    }
}

/// The source used for configuration text that didn't come from a file
/// dprint opened by path (provided inline, on stdin, or through a pipe).
///
/// There's no configuration directory in that case, so relative paths within
/// the configuration (`extends`, plugin paths and `${configDir}`) resolve
/// against the current working directory, as if the configuration were a
/// file sitting in it. The name of that file can't collide with a real
/// configuration file, since nothing should read or write it.
pub fn virtual_config_source(cwd: PathBuf, origin: String) -> (source: PathSource)
    ensures
        source@ == virtual_source(cwd, origin@),
{
    PathSource::new_local_virtual(LocalPath::new(cwd).join("<config>"), origin)
}

/// The local path that a `--config` value names, where `url` is the URL that it is
/// and `file_path` what a file URL is converted to.
pub open spec fn uncanonicalized_path(
    config: Seq<char>,
    cwd: PathBuf,
    home_dir: Option<PathBuf>,
    url: Result<Seq<char>, Seq<char>>,
    file_path: Option<PathBuf>,
) -> Option<LocalPathView> {
    match resolve_path::in_home(config) {
        Some(rest) => match home_dir {
            Some(home_dir) => Some(LocalPathView::whole(home_dir).join(rest)),
            None => None,
        },
        None => match url {
            Ok(url) if remote_url::scheme_of(url).len() > 1 => if remote_url::scheme_of(url)
                == "file"@ {
                match file_path {
                    Some(path) => Some(LocalPathView::whole(path)),
                    None => None,
                }
            } else {
                None
            },
            _ => Some(LocalPathView::whole(cwd).join(config)),
        },
    }
}

/// The local path that a `--config` value names, where `url` is the URL that it is
/// and `file_path` what a file URL is converted to.
pub fn uncanonicalized_local_path(
    config: &str,
    cwd: &PathBuf,
    home_dir: Option<PathBuf>,
    url: Result<RemoteUrl, String>,
    file_path: Option<PathBuf>,
) -> (path: Option<LocalPath>)
    ensures
        paths::optional_path(path) == uncanonicalized_path(
            config@,
            *cwd,
            home_dir,
            remote_url::url_view(url),
            file_path,
        ),
{
    if let Some(rest) = resolve_path::strip_home_prefix(config) {
        return match home_dir {
            Some(home_dir) => Some(LocalPath::new(home_dir).join(rest)),
            None => None,
        };
    }
    if let Ok(url) = url {
        // a single letter scheme is a Windows drive rather than a url (ex. `C:/config.json`)
        if url.scheme().unicode_len() > 1 {
            return if url.is_file() {
                match file_path {
                    Some(path) => Some(LocalPath::new(path)),
                    None => None,
                }
            } else {
                None
            };
        }
    }
    Some(LocalPath::new(cwd.clone()).join(config))
}

/// Makes a local `--config` value absolute without canonicalizing it, or
/// `None` when it doesn't name a local path at all.
pub fn resolve_uncanonicalized_local_path(
    config: &str,
    cwd: &PathBuf,
    home_dir: Option<PathBuf>,
) -> (path: Option<LocalPath>)
    ensures
        exists|file_path: Option<PathBuf>|
            paths::optional_path(path) == #[trigger] uncanonicalized_path(
                config@,
                *cwd,
                home_dir,
                remote_url::url_parse(config@),
                file_path,
            ) && remote_url::converted(config@, file_path),
{
    let url = RemoteUrl::parse(config);
    let file_path = remote_url::to_file_path(config);
    let path = uncanonicalized_local_path(config, cwd, home_dir, url, file_path);
    assert(paths::optional_path(path) == uncanonicalized_path(
        config@,
        *cwd,
        home_dir,
        remote_url::url_parse(config@),
        file_path,
    ));
    path
}

/// What the configuration is for.
#[derive(Debug, PartialEq, Eq)]
pub struct ConfigUse {
    pub cwd: PathBuf,
    /// Whether only a file will do.
    pub needs_file: bool,
}

/// What reading the configuration needs next.
pub ghost enum ArgStepView<E> {
    Canonicalize {
        config: Seq<char>,
        home_dir: Option<PathBuf>,
        config_use: ConfigUse,
        path: LocalPathView,
    },
    Inspect {
        config_use: ConfigUse,
        path: LocalPathView,
        otherwise: Result<PathSourceView, ResolveErrorView<E>>,
    },
    ReadStream { cwd: PathBuf, path: LocalPathView, display: Seq<char> },
    ReadFile(PathSourceView),
    Done(FileTextView),
    Failed(ResolveErrorView<E>),
}

/// A `--config` value whose path is to be canonicalized.
#[derive(Debug, PartialEq, Eq)]
pub struct ArgPath {
    pub config: String,
    pub home_dir: Option<PathBuf>,
    pub config_use: ConfigUse,
    pub path: LocalPath,
}

/// A path of which it is to be found out whether it names a stream, with what
/// follows where it does not.
#[derive(Debug, PartialEq, Eq)]
pub struct ArgInspection<E> {
    pub config_use: ConfigUse,
    pub path: LocalPath,
    pub otherwise: Result<PathSource, ResolveError<E>>,
}

/// A stream that is to be read.
#[derive(Debug, PartialEq, Eq)]
pub struct ArgStream {
    pub cwd: PathBuf,
    pub path: LocalPath,
    pub display: String,
}

/// What reading the configuration needs next.
#[derive(Debug, PartialEq, Eq)]
pub enum ArgStep<E> {
    /// The path is to be canonicalized.
    Canonicalize(ArgPath),
    /// It is to be found out what the path names.
    Inspect(ArgInspection<E>),
    /// All that the stream at the path holds is to be read.
    ReadStream(ArgStream),
    /// The file is to be read, through the cache where it is behind a URL.
    ReadFile(PathSource),
    /// The configuration is there.
    Done(ResolvedFilePathWithText),
    /// The configuration can't be had.
    Failed(ResolveError<E>),
}

impl<E> View for ArgStep<E> {
    type V = ArgStepView<E>;

    open spec fn view(&self) -> ArgStepView<E> {
        match self {
            ArgStep::Canonicalize(pending) => ArgStepView::Canonicalize {
                config: pending.config@,
                home_dir: pending.home_dir,
                config_use: pending.config_use,
                path: pending.path@,
            },
            ArgStep::Inspect(pending) => ArgStepView::Inspect {
                config_use: pending.config_use,
                path: pending.path@,
                otherwise: resolve_path::source_view(pending.otherwise),
            },
            ArgStep::ReadStream(stream) => ArgStepView::ReadStream {
                cwd: stream.cwd,
                path: stream.path@,
                display: stream.display@,
            },
            ArgStep::ReadFile(source) => ArgStepView::ReadFile(source@),
            ArgStep::Done(file) => ArgStepView::Done(file@),
            ArgStep::Failed(error) => ArgStepView::Failed(error@),
        }
    }
}

/// What follows once it is known where the configuration comes from. What is not a
/// file is turned away here, before any of it is read, where only a file will do.
pub open spec fn read_source<E>(
    source: ConfigArgSourceView,
    config_use: ConfigUse,
) -> ArgStepView<E> {
    match virtual_text(source) {
        Some(display) if config_use.needs_file => ArgStepView::Failed(
            ResolveErrorView::ConfigNeedsFile(display),
        ),
        _ => match source {
            ConfigArgSourceView::Text { text, display } => ArgStepView::Done(
                FileTextView {
                    source: virtual_source(config_use.cwd, display),
                    is_first_download: false,
                    content: text,
                },
            ),
            ConfigArgSourceView::Stream { path, display } => ArgStepView::ReadStream {
                cwd: config_use.cwd,
                path,
                display,
            },
            ConfigArgSourceView::File(source) => ArgStepView::ReadFile(source),
        },
    }
}

/// What follows once a `--config` value is known to lead to `source`.
pub open spec fn after_path_source<E>(
    source: PathSourceView,
    config_use: ConfigUse,
) -> ArgStepView<E> {
    match source {
        PathSourceView::Local { path, .. } => ArgStepView::Inspect {
            config_use,
            path,
            otherwise: Ok(source),
        },
        _ => read_source(ConfigArgSourceView::File(source), config_use),
    }
}

/// What follows where a `--config` value leads nowhere, and `path` is the local path
/// that it names.
pub open spec fn after_path_error<E>(
    error: ResolveErrorView<E>,
    config_use: ConfigUse,
    path: Option<LocalPathView>,
) -> ArgStepView<E> {
    match path {
        Some(path) => ArgStepView::Inspect { config_use, path, otherwise: Err(error) },
        None => ArgStepView::Failed(error),
    }
}

/// What follows once it is known what the path, which is shown as `display`, names.
pub open spec fn after_inspection<E>(
    config_use: ConfigUse,
    path: LocalPathView,
    otherwise: Result<PathSourceView, ResolveErrorView<E>>,
    facts: PathFacts,
    display: Seq<char>,
) -> ArgStepView<E> {
    if stream(facts) {
        read_source(ConfigArgSourceView::Stream { path, display }, config_use)
    } else {
        match otherwise {
            Ok(source) => read_source(ConfigArgSourceView::File(source), config_use),
            Err(error) => ArgStepView::Failed(error),
        }
    }
}

/// What follows once it is known, as far as it can be without the file system, where
/// a `--config` value leads. `path` is the local path that it names.
pub open spec fn after_locating<E>(
    config: Seq<char>,
    home_dir: Option<PathBuf>,
    config_use: ConfigUse,
    located: Result<LocatedView, ResolveErrorView<E>>,
    path: Option<LocalPathView>,
) -> ArgStepView<E> {
    match located {
        Ok(LocatedView::Source(source)) => after_path_source(source, config_use),
        Ok(LocatedView::Canonicalize(path)) => ArgStepView::Canonicalize {
            config,
            home_dir,
            config_use,
            path,
        },
        Err(error) => after_path_error(error, config_use, path),
    }
}

/// What follows once the path of a `--config` value was canonicalized. `path` is the
/// local path that it names.
pub open spec fn after_canonicalizing<E>(
    config_use: ConfigUse,
    outcome: Result<PathBuf, E>,
    path: Option<LocalPathView>,
) -> ArgStepView<E> {
    match resolve_path::canonicalized_source(outcome) {
        Ok(source) => after_path_source(source, config_use),
        Err(error) => after_path_error(error, config_use, path),
    }
}

/// Goes on once it is known where the configuration comes from.
pub fn read_config_source<E>(source: ConfigArgSource, config_use: ConfigUse) -> (step: ArgStep<E>)
    ensures
        step@ == read_source::<E>(source@, config_use),
{
    if config_use.needs_file {
        if let Some(display) = source.virtual_display() {
            return ArgStep::Failed(ResolveError::ConfigNeedsFile(display.to_owned()));
        }
    }
    match source {
        ConfigArgSource::Text { text, display } => ArgStep::Done(
            ResolvedFilePathWithText {
                content: text,
                source: virtual_config_source(config_use.cwd, display),
                is_first_download: false,
            },
        ),
        ConfigArgSource::Stream { path, display } => ArgStep::ReadStream(
            ArgStream { cwd: config_use.cwd, path, display },
        ),
        ConfigArgSource::File(source) => ArgStep::ReadFile(source),
    }
}

/// Goes on once a `--config` value is known to lead to `source`.
pub fn on_path_source<E>(source: PathSource, config_use: ConfigUse) -> (step: ArgStep<E>)
    ensures
        step@ == after_path_source::<E>(source@, config_use),
{
    let path = match source.maybe_local_path() {
        Some(path) => Some(path.clone()),
        None => None,
    };
    match path {
        // a fifo has an ordinary path that canonicalizes, but its text came from
        // whatever wrote to it rather than from that directory
        Some(path) => ArgStep::Inspect(ArgInspection { config_use, path, otherwise: Ok(source) }),
        None => read_config_source(ConfigArgSource::File(source), config_use),
    }
}

/// Goes on where a `--config` value leads nowhere, and `path` is the local path that
/// it names.
///
/// A pipe with no path of its own (the `/dev/fd/63` of a process substitution)
/// can be stat'd and read, but not canonicalized. A regular file that can't
/// be canonicalized (ex. on an unusual file system) isn't a stream though,
/// so it keeps the error rather than losing its directory.
pub fn on_path_error<E>(
    error: ResolveError<E>,
    config_use: ConfigUse,
    path: Option<LocalPath>,
) -> (step: ArgStep<E>)
    ensures
        step@ == after_path_error(error@, config_use, paths::optional_path(path)),
{
    match path {
        Some(path) => ArgStep::Inspect(ArgInspection { config_use, path, otherwise: Err(error) }),
        None => ArgStep::Failed(error),
    }
}

/// Whether the paths that a `--config` value is located and named by are those that it
/// is converted to, as far as they matter: the first where it is a file URL, the second
/// where it leads nowhere.
pub open spec fn paths_converted<E>(
    config: Seq<char>,
    home_dir: Option<PathBuf>,
    cwd: PathBuf,
    located_path: Option<PathBuf>,
    named_path: Option<PathBuf>,
) -> bool {
    &&& resolve_path::reference_of(config) is FileUrl ==> remote_url::converted(
        config,
        located_path,
    )
    &&& resolve_path::location::<E>(
        config,
        PathSourceView::Local { path: LocalPathView::whole(cwd), origin: None },
        home_dir,
        located_path,
    ) is Err ==> remote_url::converted(config, named_path)
}

/// Works out where the value of `--config` leads, seen from the current directory.
pub fn resolve_config_arg_source<E>(
    config: &str,
    home_dir: Option<PathBuf>,
    config_use: ConfigUse,
) -> (step: ArgStep<E>)
    ensures
        exists|located_path: Option<PathBuf>, named_path: Option<PathBuf>|
            step@ == after_locating(
                config@,
                home_dir,
                config_use,
                #[trigger] resolve_path::location::<E>(
                    config@,
                    PathSourceView::Local {
                        path: LocalPathView::whole(config_use.cwd),
                        origin: None,
                    },
                    home_dir,
                    located_path,
                ),
                #[trigger] uncanonicalized_path(
                    config@,
                    config_use.cwd,
                    home_dir,
                    remote_url::url_parse(config@),
                    named_path,
                ),
            ) && paths_converted::<E>(
                config@,
                home_dir,
                config_use.cwd,
                located_path,
                named_path,
            ),
{
    let base = PathSource::new_local(LocalPath::new(config_use.cwd.clone()));
    let located = resolve_path::resolve_url_or_file_path_to_path_source(
        config,
        &base,
        clone_path(&home_dir),
    );
    let ghost unnamed = uncanonicalized_path(
        config@,
        config_use.cwd,
        home_dir,
        remote_url::url_parse(config@),
        None,
    );
    match located {
        Ok(Located::Source(source)) => on_path_source(source, config_use),
        Ok(Located::Canonicalize(path)) => ArgStep::Canonicalize(
            ArgPath { config: config.to_owned(), home_dir, config_use, path },
        ),
        Err(error) => {
            let path = resolve_uncanonicalized_local_path(config, &config_use.cwd, home_dir);
            on_path_error(error, config_use, path)
        },
    }
}

fn clone_path(path: &Option<PathBuf>) -> (copy: Option<PathBuf>)
    ensures
        copy == *path,
{
    match path {
        Some(path) => Some(path.clone()),
        None => None,
    }
}

impl ArgPath {
    /// Goes on with the canonical path.
    pub fn on_canonicalized<E>(self, outcome: Result<PathBuf, E>) -> (step: ArgStep<E>)
        ensures
            exists|named_path: Option<PathBuf>|
                step@ == after_canonicalizing(
                    self.config_use,
                    outcome,
                    #[trigger] uncanonicalized_path(
                        self.config@,
                        self.config_use.cwd,
                        self.home_dir,
                        remote_url::url_parse(self.config@),
                        named_path,
                    ),
                ) && remote_url::converted(self.config@, named_path),
    {
        let path = resolve_uncanonicalized_local_path(
            self.config.as_str(),
            &self.config_use.cwd,
            self.home_dir,
        );
        match resolve_path::on_canonicalized(outcome) {
            Ok(source) => on_path_source(source, self.config_use),
            Err(error) => on_path_error(error, self.config_use, path),
        }
    }
}

impl<E> ArgInspection<E> {
    /// Goes on with what is known of the path, which is shown as `display`.
    pub fn after_inspection(self, facts: PathFacts, display: String) -> (step: ArgStep<E>)
        ensures
            step@ == after_inspection(
                self.config_use,
                self.path@,
                resolve_path::source_view(self.otherwise),
                facts,
                display@,
            ),
    {
        if is_stream_path(&facts) {
            read_config_source(
                ConfigArgSource::Stream { path: self.path, display },
                self.config_use,
            )
        } else {
            match self.otherwise {
                Ok(source) => read_config_source(ConfigArgSource::File(source), self.config_use),
                Err(error) => ArgStep::Failed(error),
            }
        }
    }

    /// Goes on with what is known of the path.
    pub fn on_inspected(self, facts: PathFacts) -> (step: ArgStep<E>)
        ensures
            exists|display: Seq<char>| #[trigger]
                paths::shown(self.path@, display) && step@ == after_inspection(
                    self.config_use,
                    self.path@,
                    resolve_path::source_view(self.otherwise),
                    facts,
                    display,
                ),
    {
        let display = self.path.display();
        self.after_inspection(facts, display)
    }
}

/// The text of a stream that was read.
pub open spec fn stream_text<E>(
    cwd: PathBuf,
    display: Seq<char>,
    outcome: Result<Seq<u8>, E>,
) -> Result<FileTextView, ResolveErrorView<E>> {
    match outcome {
        Ok(bytes) => if vstd::utf8::valid_utf8(bytes) {
            Ok(
                FileTextView {
                    source: virtual_source(cwd, display),
                    is_first_download: false,
                    content: vstd::utf8::decode_utf8(bytes),
                },
            )
        } else {
            Err(ResolveErrorView::NotUtf8 { display, reason: resolved_file::utf8_error(bytes) })
        },
        Err(error) => Err(ResolveErrorView::Environment(error)),
    }
}

/// The text of a file that was read.
pub open spec fn file_text<E>(outcome: Result<FileBytesView, ResolveErrorView<E>>) -> Result<
    FileTextView,
    ResolveErrorView<E>,
> {
    match outcome {
        Ok(file) => if vstd::utf8::valid_utf8(file.content) {
            Ok(
                FileTextView {
                    source: file.source,
                    is_first_download: file.is_first_download,
                    content: vstd::utf8::decode_utf8(file.content),
                },
            )
        } else {
            Err(
                ResolveErrorView::FileNotUtf8 {
                    source: file.source,
                    reason: resolved_file::utf8_error(file.content),
                },
            )
        },
        Err(error) => Err(error),
    }
}

/// The last step, with what came of reading the configuration.
pub open spec fn finished<E>(outcome: Result<FileTextView, ResolveErrorView<E>>) -> ArgStepView<E> {
    match outcome {
        Ok(file) => ArgStepView::Done(file),
        Err(error) => ArgStepView::Failed(error),
    }
}

impl ArgStream {
    /// Goes on with what the stream held.
    pub fn on_read<E>(self, outcome: Result<Vec<u8>, E>) -> (step: ArgStep<E>)
        ensures
            step@ == finished(
                stream_text(
                    self.cwd,
                    self.display@,
                    match outcome {
                        Ok(bytes) => Ok(bytes@),
                        Err(error) => Err(error),
                    },
                ),
            ),
    {
        match outcome {
            Ok(bytes) => match resolved_file::string_from_utf8(bytes) {
                Ok(content) => ArgStep::Done(
                    ResolvedFilePathWithText {
                        content,
                        source: virtual_config_source(self.cwd, self.display),
                        is_first_download: false,
                    },
                ),
                Err(reason) => ArgStep::Failed(
                    ResolveError::NotUtf8 { display: self.display, reason },
                ),
            },
            Err(error) => ArgStep::Failed(ResolveError::Environment(error)),
        }
    }
}

/// Goes on with the file that the configuration is in.
pub fn on_file<E>(outcome: Result<ResolvedFilePathWithBytes, ResolveError<E>>) -> (step: ArgStep<E>)
    ensures
        step@ == finished(file_text(resolve_path::file_view(outcome))),
{
    match outcome {
        Ok(file) => match file.into_text() {
            Ok(file) => ArgStep::Done(file),
            Err(error) => ArgStep::Failed(
                ResolveError::FileNotUtf8 { source: error.source, reason: error.reason },
            ),
        },
        Err(error) => ArgStep::Failed(error),
    }
}

/// Reads the configuration that `--config` names or holds. Where it comes from is
/// worked out before any of it is read: reading a pipe blocks until it's written to,
/// so a sub command that can't accept one has to turn it away first.
pub fn read_config_arg<E>(
    config: &ConfigArg,
    cwd: PathBuf,
    home_dir: Option<PathBuf>,
    sub_command: &SubCommand,
) -> (step: ArgStep<E>)
    ensures
        ({
            let config_use = ConfigUse { cwd, needs_file: cli::needs_config_file(*sub_command) };
            match *config {
                ConfigArg::Text(config) => step@ == read_source::<E>(
                    ConfigArgSourceView::Text { text: config.text@, display: config.origin@ },
                    config_use,
                ),
                ConfigArg::PathOrUrl(config) => exists|
                    located_path: Option<PathBuf>,
                    named_path: Option<PathBuf>,
                |
                    step@ == after_locating(
                        config@,
                        home_dir,
                        config_use,
                        #[trigger] resolve_path::location::<E>(
                            config@,
                            PathSourceView::Local {
                                path: LocalPathView::whole(cwd),
                                origin: None,
                            },
                            home_dir,
                            located_path,
                        ),
                        #[trigger] uncanonicalized_path(
                            config@,
                            cwd,
                            home_dir,
                            remote_url::url_parse(config@),
                            named_path,
                        ),
                    ) && paths_converted::<E>(
                        config@,
                        home_dir,
                        cwd,
                        located_path,
                        named_path,
                    ),
            }
        }),
{
    let config_use = ConfigUse { cwd, needs_file: cli::sub_command_needs_config_file(sub_command) };
    match config {
        ConfigArg::Text(config) => read_config_source(
            ConfigArgSource::Text { text: config.text.clone(), display: config.origin.clone() },
            config_use,
        ),
        ConfigArg::PathOrUrl(config) => resolve_config_arg_source(
            config.as_str(),
            home_dir,
            config_use,
        ),
    }
}

/// Whether a `--config` value opens like a json object.
pub open spec fn opens_like_json(config: Seq<char>) -> bool {
    let rest = text::trimmed_start(config, |c: char| text::white_space(c));
    rest.len() > 0 && rest[0] == '{'
}

/// What is said of the text heuristic.
pub open spec fn hint_text() -> Seq<char> {
    "\n\nThe --config value is only read as the configuration itself when it starts with `{` and ends with `}`. Use --config - to read the configuration from stdin instead."@
}

/// Whether a `--config` value opens like a json object.
pub fn is_like_json(config: &str) -> (yes: bool)
    ensures
        yes == opens_like_json(config@),
{
    let chars = text::chars_of(config);
    let rest = text::trim_start(chars.as_slice());
    rest.len() > 0 && rest[0] == '{'
}

/// Explains the text heuristic when a value that opens like a json object was
/// resolved as a path and didn't work out.
pub fn add_config_text_hint(message: String, config: &str) -> (hinted: String)
    ensures
        hinted@ == (if opens_like_json(config@) {
            message@ + hint_text()
        } else {
            message@
        }),
{
    if !is_like_json(config) {
        return message;
    }
    message.concat(
        "\n\nThe --config value is only read as the configuration itself when it starts with `{` and ends with `}`. Use --config - to read the configuration from stdin instead.",
    )
}

/// A sub command that needs a file never reads a pipe: it is turned away before that,
/// told how the pipe is shown.
pub proof fn a_pipe_is_never_read_where_a_file_is_needed<E>(
    config_use: ConfigUse,
    path: LocalPathView,
    otherwise: Result<PathSourceView, ResolveErrorView<E>>,
    facts: PathFacts,
    display: Seq<char>,
)
    requires
        config_use.needs_file,
    ensures
        !(after_inspection(config_use, path, otherwise, facts, display) is ReadStream),
        stream(facts) ==> after_inspection(config_use, path, otherwise, facts, display)
            == ArgStepView::<E>::Failed(ResolveErrorView::ConfigNeedsFile(display)),
{
}

/// Configuration text is used exactly where no file is needed, as it was given.
pub proof fn config_text_is_used_as_it_is<E>(
    text: Seq<char>,
    display: Seq<char>,
    config_use: ConfigUse,
)
    ensures
        match read_source::<E>(ConfigArgSourceView::Text { text, display }, config_use) {
            ArgStepView::Done(file) => !config_use.needs_file && file.content == text
                && file.source == virtual_source(config_use.cwd, display)
                && !file.is_first_download,
            ArgStepView::Failed(error) => config_use.needs_file && error
                == ResolveErrorView::<E>::ConfigNeedsFile(display),
            _ => false,
        },
{
}

/// A regular file, a directory and what does not exist are never read as a stream.
pub proof fn only_what_is_neither_file_nor_directory_is_a_stream(facts: PathFacts)
    requires
        !facts.exists || facts.is_file || facts.kind == Some(PathKind::Dir),
    ensures
        !stream(facts),
{
}

/// Where a path can't be canonicalized and names no stream, the error stays the one
/// that came.
pub proof fn a_path_that_is_no_stream_keeps_its_error<E>(
    config_use: ConfigUse,
    path: LocalPathView,
    error: ResolveErrorView<E>,
    facts: PathFacts,
    display: Seq<char>,
)
    requires
        !stream(facts),
    ensures
        after_inspection(
            config_use,
            path,
            Err::<PathSourceView, ResolveErrorView<E>>(error),
            facts,
            display,
        ) == ArgStepView::<E>::Failed(error),
{
}

/// The file system is not asked about configuration behind a URL.
pub proof fn a_url_is_not_inspected<E>(source: PathSourceView, config_use: ConfigUse)
    requires
        source is Remote,
    ensures
        after_path_source::<E>(source, config_use) == ArgStepView::<E>::ReadFile(source),
{
}

/// Configuration that came from no file counts as a file that sits in the current
/// directory: its path is a single name joined to that.
pub proof fn virtual_configuration_sits_in_the_current_directory(
    cwd: PathBuf,
    origin: Seq<char>,
)
    ensures
        virtual_source(cwd, origin) matches PathSourceView::Local { path, .. } && path.base == cwd
            && path.joined.len() == 1,
{
}

/// The name that configuration from no file counts as having is none that a real
/// configuration file has.
pub proof fn virtual_configuration_collides_with_no_file(
    cwd: PathBuf,
    origin: Seq<char>,
    name: Seq<char>,
)
    requires
        file_search::config_file_names().contains(name)
            || file_search::global_config_file_names().contains(name),
    ensures
        virtual_source(cwd, origin) matches PathSourceView::Local { path, .. } && path.joined[0]
            != name,
{
    reveal_strlit("<config>");
    reveal_strlit("dprint.json");
    reveal_strlit("dprint.jsonc");
    reveal_strlit(".dprint.json");
    reveal_strlit(".dprint.jsonc");
    let path = LocalPathView::whole(cwd).join("<config>"@);
    assert(path.joined[0] == "<config>"@);
    assert(name.len() > "<config>"@.len());
}

/// Whether text came from no file but counts as standing at a path.
pub open spec fn is_virtual(source: PathSourceView) -> bool {
    source matches PathSourceView::Local { origin: Some(_), .. }
}

/// Whether only configuration that is in a file can come of a step.
pub open spec fn file_only<E>(step: ArgStepView<E>) -> bool {
    match step {
        ArgStepView::Canonicalize { config_use, .. } => config_use.needs_file,
        ArgStepView::Inspect { config_use, otherwise, .. } => config_use.needs_file && (
        otherwise matches Ok(source) ==> !is_virtual(source)),
        ArgStepView::ReadStream { .. } => false,
        ArgStepView::ReadFile(source) => !is_virtual(source),
        ArgStepView::Done(file) => !is_virtual(file.source),
        ArgStepView::Failed(_) => true,
    }
}

/// Where a file is needed, only configuration that is in one can come of the first
/// step.
pub proof fn a_needed_file_is_looked_for_from_the_start<E>(
    config: Seq<char>,
    home_dir: Option<PathBuf>,
    config_use: ConfigUse,
    located_path: Option<PathBuf>,
    named_path: Option<LocalPathView>,
    text: Seq<char>,
    display: Seq<char>,
)
    requires
        config_use.needs_file,
    ensures
        file_only(
            after_locating(
                config,
                home_dir,
                config_use,
                resolve_path::location::<E>(
                    config,
                    PathSourceView::Local {
                        path: LocalPathView::whole(config_use.cwd),
                        origin: None,
                    },
                    home_dir,
                    located_path,
                ),
                named_path,
            ),
        ),
        file_only(read_source::<E>(ConfigArgSourceView::Text { text, display }, config_use)),
{
}

/// Every step keeps that only configuration in a file can come of it, whatever the
/// file system answers. A file that was read is where it was read from.
pub proof fn every_step_keeps_to_files<E>(
    config_use: ConfigUse,
    path: LocalPathView,
    named_path: Option<LocalPathView>,
    otherwise: Result<PathSourceView, ResolveErrorView<E>>,
    canonical: Result<PathBuf, E>,
    facts: PathFacts,
    display: Seq<char>,
    file: Result<FileBytesView, ResolveErrorView<E>>,
)
    requires
        file_only(ArgStepView::Inspect { config_use, path, otherwise }),
        file matches Ok(file) ==> file_only(ArgStepView::<E>::ReadFile(file.source)),
    ensures
        file_only(after_canonicalizing(config_use, canonical, named_path)),
        file_only(after_inspection(config_use, path, otherwise, facts, display)),
        file_only(finished(file_text(file))),
{
}

/// What the machine answers while configuration is read.
pub ghost struct Machine<E> {
    /// What a path is canonicalized to.
    pub canonical: spec_fn(LocalPathView) -> Result<PathBuf, E>,
    /// What is known of a path.
    pub facts: spec_fn(LocalPathView) -> PathFacts,
    /// How a path is shown.
    pub displays: spec_fn(LocalPathView) -> Seq<char>,
    /// What a stream holds.
    pub streams: spec_fn(LocalPathView) -> Result<Seq<u8>, E>,
    /// What comes of reading a file, through the cache where it is behind a URL.
    pub files: spec_fn(PathSourceView) -> Result<FileBytesView, ResolveErrorView<E>>,
    /// What a file URL is converted to.
    pub file_urls: spec_fn(Seq<char>) -> Option<PathBuf>,
}

/// The local path that a `--config` value names on the machine.
pub open spec fn named_path<E>(
    config: Seq<char>,
    cwd: PathBuf,
    home_dir: Option<PathBuf>,
    machine: Machine<E>,
) -> Option<LocalPathView> {
    uncanonicalized_path(
        config,
        cwd,
        home_dir,
        remote_url::url_parse(config),
        (machine.file_urls)(config),
    )
}

/// The first step where `--config` has this value.
pub open spec fn read_value<E>(
    config: Seq<char>,
    home_dir: Option<PathBuf>,
    config_use: ConfigUse,
    machine: Machine<E>,
) -> ArgStepView<E> {
    after_locating(
        config,
        home_dir,
        config_use,
        resolve_path::location::<E>(
            config,
            PathSourceView::Local { path: LocalPathView::whole(config_use.cwd), origin: None },
            home_dir,
            (machine.file_urls)(config),
        ),
        named_path(config, config_use.cwd, home_dir, machine),
    )
}

/// What comes of reading the configuration, where that stands at `step`.
pub open spec fn arg_outcome<E>(step: ArgStepView<E>, machine: Machine<E>) -> Result<
    FileTextView,
    ResolveErrorView<E>,
>
    decreases
            match step {
                ArgStepView::Canonicalize { .. } => 3nat,
                ArgStepView::Inspect { .. } => 2,
                ArgStepView::ReadStream { .. } => 1,
                ArgStepView::ReadFile(_) => 1,
                _ => 0,
            },
{
    match step {
        ArgStepView::Canonicalize { config, home_dir, config_use, path } => arg_outcome(
            after_canonicalizing(
                config_use,
                (machine.canonical)(path),
                named_path(config, config_use.cwd, home_dir, machine),
            ),
            machine,
        ),
        ArgStepView::Inspect { config_use, path, otherwise } => arg_outcome(
            after_inspection(
                config_use,
                path,
                otherwise,
                (machine.facts)(path),
                (machine.displays)(path),
            ),
            machine,
        ),
        ArgStepView::ReadStream { cwd, path, display } => arg_outcome(
            finished(stream_text(cwd, display, (machine.streams)(path))),
            machine,
        ),
        ArgStepView::ReadFile(source) => arg_outcome(finished(file_text((machine.files)(source))), machine),
        ArgStepView::Done(file) => Ok(file),
        ArgStepView::Failed(error) => Err(error),
    }
}

/// The text of a pipe, or that a pipe won't do.
pub open spec fn pipe_text<E>(
    config_use: ConfigUse,
    path: LocalPathView,
    machine: Machine<E>,
) -> Result<FileTextView, ResolveErrorView<E>> {
    let display = (machine.displays)(path);
    if config_use.needs_file {
        Err(ResolveErrorView::ConfigNeedsFile(display))
    } else {
        stream_text(config_use.cwd, display, (machine.streams)(path))
    }
}

/// A path that is relative to the current directory and can be canonicalized is read
/// as the file that it is, or as the pipe that it is.
pub proof fn a_path_is_read_as_what_it_names<E>(
    config: Seq<char>,
    home_dir: Option<PathBuf>,
    config_use: ConfigUse,
    path: PathBuf,
    machine: Machine<E>,
)
    requires
        resolve_path::reference_of(config) is Relative,
        (machine.canonical)(LocalPathView::whole(config_use.cwd).join(config)) == Ok::<PathBuf, E>(
            path,
        ),
    ensures
        ({
            let canonical = LocalPathView::whole(path);
            arg_outcome(read_value(config, home_dir, config_use, machine), machine) == (if stream(
                (machine.facts)(canonical),
            ) {
                pipe_text(config_use, canonical, machine)
            } else {
                file_text(
                    (machine.files)(PathSourceView::Local { path: canonical, origin: None }),
                )
            })
        }),
{
    reveal_with_fuel(arg_outcome, 4);
}

/// A path that is relative to the current directory and can't be canonicalized is read
/// as a pipe if it names one; otherwise why it can't be canonicalized is the error.
pub proof fn a_pipe_needs_no_canonical_path<E>(
    config: Seq<char>,
    home_dir: Option<PathBuf>,
    config_use: ConfigUse,
    error: E,
    machine: Machine<E>,
)
    requires
        resolve_path::reference_of(config) is Relative,
        resolve_path::in_home(config) is None,
        remote_url::url_parse(config) matches Ok(url) ==> remote_url::scheme_of(url).len() <= 1,
        (machine.canonical)(LocalPathView::whole(config_use.cwd).join(config)) == Err::<PathBuf, E>(
            error,
        ),
    ensures
        ({
            let path = LocalPathView::whole(config_use.cwd).join(config);
            arg_outcome(read_value(config, home_dir, config_use, machine), machine) == (if stream(
                (machine.facts)(path),
            ) {
                pipe_text(config_use, path, machine)
            } else {
                Err(ResolveErrorView::Environment(error))
            })
        }),
{
    reveal_with_fuel(arg_outcome, 4);
    let path = LocalPathView::whole(config_use.cwd).join(config);
    assert(named_path(config, config_use.cwd, home_dir, machine) == Some(path));
}

/// Configuration behind a URL is the text of the file there, whatever the file system
/// holds.
pub proof fn a_url_is_read_as_the_file_behind_it<E>(
    config: Seq<char>,
    home_dir: Option<PathBuf>,
    config_use: ConfigUse,
    url: Seq<char>,
    machine: Machine<E>,
)
    requires
        resolve_path::reference_of(config) == ReferenceView::Remote(url),
    ensures
        arg_outcome(read_value(config, home_dir, config_use, machine), machine) == file_text(
            (machine.files)(PathSourceView::Remote { url }),
        ),
{
    reveal_with_fuel(arg_outcome, 3);
}

} // verus!
