//! Why a file could not be resolved.

use vstd::prelude::*;
use vstd::string::StringExecFns;

use crate::paths::{PathSource, PathSourceView};
use crate::remote_url::RemoteUrl;

verus! {

/// Why a file could not be resolved. `E` is the error of the file system, the
/// cache or the network, which is passed on as it came.
#[derive(Debug, PartialEq, Eq)]
pub enum ResolveError<E> {
    /// An operation of the environment failed.
    Environment(E),
    /// A URL can't be read, for the reason given.
    InvalidUrl(String),
    /// Nothing is behind the URL.
    NotFound(RemoteUrl),
    /// Following redirects from the URL did not come to an end.
    TooManyRedirects(RemoteUrl),
    /// An npm specifier was given where a URL or a file path is needed.
    NpmNotUrlOrFilePath,
    /// The bytes of an npm specifier were asked for.
    NpmHasNoBytes,
    /// A relative path was to be resolved against an npm specifier.
    NpmIsNoBase,
    /// The file URL names no path.
    NotAFilePath(String),
    /// The home directory is not known.
    NoHomeDirectory,
    /// What was read from the place described is not UTF-8, for the reason given.
    NotUtf8 { display: String, reason: String },
    /// The content of the file is not UTF-8, for the reason given.
    FileNotUtf8 { source: PathSource, reason: String },
    /// The sub command can't use the configuration described.
    ConfigNeedsFile(String),
}

/// Why a file could not be resolved.
pub ghost enum ResolveErrorView<E> {
    Environment(E),
    InvalidUrl(Seq<char>),
    NotFound(Seq<char>),
    TooManyRedirects(Seq<char>),
    NpmNotUrlOrFilePath,
    NpmHasNoBytes,
    NpmIsNoBase,
    NotAFilePath(Seq<char>),
    NoHomeDirectory,
    NotUtf8 { display: Seq<char>, reason: Seq<char> },
    FileNotUtf8 { source: PathSourceView, reason: Seq<char> },
    ConfigNeedsFile(Seq<char>),
}

impl<E> View for ResolveError<E> {
    type V = ResolveErrorView<E>;

    open spec fn view(&self) -> ResolveErrorView<E> {
        match self {
            ResolveError::Environment(error) => ResolveErrorView::Environment(*error),
            ResolveError::InvalidUrl(message) => ResolveErrorView::InvalidUrl(message@),
            ResolveError::NotFound(url) => ResolveErrorView::NotFound(url@),
            ResolveError::TooManyRedirects(url) => ResolveErrorView::TooManyRedirects(url@),
            ResolveError::NpmNotUrlOrFilePath => ResolveErrorView::NpmNotUrlOrFilePath,
            ResolveError::NpmHasNoBytes => ResolveErrorView::NpmHasNoBytes,
            ResolveError::NpmIsNoBase => ResolveErrorView::NpmIsNoBase,
            ResolveError::NotAFilePath(url) => ResolveErrorView::NotAFilePath(url@),
            ResolveError::NoHomeDirectory => ResolveErrorView::NoHomeDirectory,
            ResolveError::NotUtf8 { display, reason } => ResolveErrorView::NotUtf8 {
                display: display@,
                reason: reason@,
            },
            ResolveError::FileNotUtf8 { source, reason } => ResolveErrorView::FileNotUtf8 {
                source: source@,
                reason: reason@,
            },
            ResolveError::ConfigNeedsFile(display) => ResolveErrorView::ConfigNeedsFile(display@),
        }
    }
}

/// What a sub command is told that was handed configuration it can't use.
pub open spec fn needs_file_text(display: Seq<char>) -> Seq<char> {
    "Cannot use the configuration provided by --config ("@ + display
        + ") with this sub command because it needs a configuration file it can read again or write back to. Specify a file path instead (ex. --config dprint.json)."@
}

/// What is said of text that is not UTF-8.
pub open spec fn not_utf8_text(display: Seq<char>) -> Seq<char> {
    "Failed converting '"@ + display + "' to string."@
}

/// The message of an error, without the reason that may stand behind it. An error of
/// the environment has a message of its own, and how a source is displayed is not
/// decided here.
pub open spec fn error_text<E>(error: ResolveErrorView<E>) -> Option<Seq<char>> {
    match error {
        ResolveErrorView::Environment(_) => None,
        ResolveErrorView::InvalidUrl(message) => Some(message),
        ResolveErrorView::NotFound(url) => Some(
            "Error downloading "@ + url + " - 404 Not Found"@,
        ),
        ResolveErrorView::TooManyRedirects(url) => Some("Too many redirects for "@ + url),
        ResolveErrorView::NpmNotUrlOrFilePath => Some(
            "Cannot resolve npm specifier as a URL or file path"@,
        ),
        ResolveErrorView::NpmHasNoBytes => Some(
            "Cannot fetch bytes directly for an npm specifier"@,
        ),
        ResolveErrorView::NpmIsNoBase => Some(
            "Cannot resolve a relative path against an npm specifier"@,
        ),
        ResolveErrorView::NotAFilePath(url) => Some(
            "Problem converting file url `"@ + url + "` to file path."@,
        ),
        ResolveErrorView::NoHomeDirectory => Some("Failed to get home directory path"@),
        ResolveErrorView::NotUtf8 { display, .. } => Some(not_utf8_text(display)),
        ResolveErrorView::FileNotUtf8 { .. } => None,
        ResolveErrorView::ConfigNeedsFile(display) => Some(needs_file_text(display)),
    }
}

/// `middle` between `before` and `after`.
pub fn framed(before: &str, middle: &str, after: &str) -> (text: String)
    ensures
        text@ == before@ + middle@ + after@,
{
    before.to_owned().concat(middle).concat(after)
}

/// Told to a sub command that was handed configuration it can't use.
pub fn config_needs_file_message(display: &str) -> (message: String)
    ensures
        message@ == needs_file_text(display@),
{
    framed(
        "Cannot use the configuration provided by --config (",
        display,
        ") with this sub command because it needs a configuration file it can read again or write back to. Specify a file path instead (ex. --config dprint.json).",
    )
}

/// Told where what was read from the place described is not UTF-8.
pub fn not_utf8_message(display: &str) -> (message: String)
    ensures
        message@ == not_utf8_text(display@),
{
    framed("Failed converting '", display, "' to string.")
}

impl<E> ResolveError<E> {
    /// The message of the error, without the reason that may stand behind it; `None`
    /// of an error of the environment, which has
    /// a message of its own, and of a file that is not UTF-8, whose message is
    /// `not_utf8_message` of how its source is displayed.
    pub fn message(&self) -> (message: Option<String>)
        ensures
            match message {
                Some(message) => error_text(self@) == Some(message@),
                None => error_text(self@) is None,
            },
    {
        match self {
            ResolveError::Environment(_) => None,
            ResolveError::InvalidUrl(message) => Some(message.clone()),
            ResolveError::NotFound(url) => Some(
                framed("Error downloading ", url.as_str(), " - 404 Not Found"),
            ),
            ResolveError::TooManyRedirects(url) => Some(
                "Too many redirects for ".to_owned().concat(url.as_str()),
            ),
            ResolveError::NpmNotUrlOrFilePath => Some(
                "Cannot resolve npm specifier as a URL or file path".to_owned(),
            ),
            ResolveError::NpmHasNoBytes => Some(
                "Cannot fetch bytes directly for an npm specifier".to_owned(),
            ),
            ResolveError::NpmIsNoBase => Some(
                "Cannot resolve a relative path against an npm specifier".to_owned(),
            ),
            ResolveError::NotAFilePath(url) => Some(
                framed("Problem converting file url `", url.as_str(), "` to file path."),
            ),
            ResolveError::NoHomeDirectory => Some("Failed to get home directory path".to_owned()),
            ResolveError::NotUtf8 { display, .. } => Some(not_utf8_message(display.as_str())),
            ResolveError::FileNotUtf8 { .. } => None,
            ResolveError::ConfigNeedsFile(display) => Some(
                config_needs_file_message(display.as_str()),
            ),
        }
    }
}

/// A message holds what the error is about as it stands, between words that do not depend
/// on it.
pub proof fn a_message_holds_what_the_error_is_about<E>(
    about: Seq<char>,
    reason: Seq<char>,
    source: PathSourceView,
    error: E,
)
    ensures
        error_text(ResolveErrorView::<E>::InvalidUrl(about)) == Some(about),
        error_text(ResolveErrorView::<E>::NotFound(about)) == Some(
            "Error downloading "@ + about + " - 404 Not Found"@,
        ),
        error_text(ResolveErrorView::<E>::TooManyRedirects(about)) == Some(
            "Too many redirects for "@ + about,
        ),
        error_text(ResolveErrorView::<E>::NotAFilePath(about)) == Some(
            "Problem converting file url `"@ + about + "` to file path."@,
        ),
        error_text(ResolveErrorView::<E>::ConfigNeedsFile(about)) == Some(
            "Cannot use the configuration provided by --config ("@ + about
                + ") with this sub command because it needs a configuration file it can read again or write back to. Specify a file path instead (ex. --config dprint.json)."@,
        ),
        ({
            let stream = ResolveErrorView::<E>::NotUtf8 { display: about, reason };
            let file = ResolveErrorView::<E>::FileNotUtf8 { source, reason };
            &&& error_text(stream) == Some("Failed converting '"@ + about + "' to string."@)
            &&& error_text(file) is None
        }),
        error_text(ResolveErrorView::Environment(error)) is None,
{
}

} // verus!
