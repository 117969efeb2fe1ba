//! URLs, of which the library reads their serialization.

use std::path::PathBuf;
use vstd::prelude::*;

use crate::paths;
use crate::paths::LocalPathView;
use crate::text;

verus! {

/// The scheme of the URL whose serialization is `text`: what stands before its
/// first colon.
pub open spec fn scheme_of(text: Seq<char>) -> Seq<char> {
    text.take(text::first_index(text, ':'))
}

/// Whether the URL whose serialization is `text` has no slash after its scheme
/// and colon, so that no relative URL can be resolved against it.
pub open spec fn opaque(text: Seq<char>) -> bool {
    let slash = text::first_index(text, ':') + 1;
    !(slash < text.len() && text[slash] == '/')
}

/// What `url::Url::parse` makes of `input`: the serialization of the URL, or the
/// message of the error.
pub uninterp spec fn url_parse(input: Seq<char>) -> Result<Seq<char>, Seq<char>>;

/// What `url::Url::join` makes of `input` with the URL whose serialization is `base`
/// as its base: the serialization of the URL, or the message of the error.
pub uninterp spec fn url_join(base: Seq<char>, input: Seq<char>) -> Result<Seq<char>, Seq<char>>;

/// What `url::Url::to_file_path` makes of the URL that `input` parses to on the
/// operating system `os`.
pub uninterp spec fn file_path_on(os: Seq<char>, input: Seq<char>) -> Option<LocalPathView>;

/// Whether `path` is what the file URL `input` is converted to.
pub open spec fn converted(input: Seq<char>, path: Option<PathBuf>) -> bool {
    exists|os: Seq<char>| #[trigger] file_path_on(os, input) == paths::whole_path(path)
}

/// `url::Url`, of which only its serialization is read.
#[verifier::external_type_specification]
#[verifier::external_body]
pub struct ExUrl(url::Url);

/// The serialization of a URL, as `url::Url::as_str` gives it.
pub uninterp spec fn serialization(url: url::Url) -> Seq<char>;

/// `url::Url::as_str`. Believed of it: the text depends on the URL alone.
pub assume_specification[ url::Url::as_str ](url: &url::Url) -> (serialized: &str)
    ensures
        serialized@ == serialization(*url),
;

/// `url::Url::scheme`. Believed of it: it is what stands before the first colon of the
/// serialization.
pub assume_specification[ url::Url::scheme ](url: &url::Url) -> (scheme: &str)
    ensures
        scheme@ == scheme_of(serialization(*url)),
;

/// `url::Url::cannot_be_a_base`. Believed of it: it says that no slash follows the first
/// colon of the serialization.
pub assume_specification[ url::Url::cannot_be_a_base ](url: &url::Url) -> (yes: bool)
    ensures
        yes == opaque(serialization(*url)),
;

/// `url::Url::clone`. Believed of it: the copy is the same URL.
pub assume_specification[ <url::Url as Clone>::clone ](url: &url::Url) -> (copy: url::Url)
    ensures
        copy == *url,
;

/// The outcome of reading or joining a URL with `url::Url`.
pub open spec fn outside_view(outcome: Result<url::Url, String>) -> Result<Seq<char>, Seq<char>> {
    match outcome {
        Ok(url) => Ok(serialization(url)),
        Err(message) => Err(message@),
    }
}

/// Calls `url::Url::parse`.
///
/// Believed of it: the serialization of the URL, or the message of the error, depends on
/// `input` alone.
#[verifier::external_body]
fn parse_url(input: &str) -> (url: Result<url::Url, String>)
    ensures
        outside_view(url) == url_parse(input@),
{
    url::Url::parse(input).map_err(|err| err.to_string())
}

/// Calls `url::Url::join`.
///
/// Believed of it: the serialization of the URL, or the message of the error, depends on
/// the serialization of `base` and on `input` alone.
#[verifier::external_body]
fn join_url(base: &url::Url, input: &str) -> (url: Result<url::Url, String>)
    ensures
        outside_view(url) == url_join(serialization(*base), input@),
{
    base.join(input).map_err(|err| err.to_string())
}

/// Calls `url::Url::to_file_path` on the URL that `input` parses to.
///
/// Believed of it: on one operating system the answer depends on `input` alone, and on
/// all of them there is no path where `input` is no URL, nor where no slash follows the
/// scheme of the URL and its colon. Otherwise they differ (a host other than
/// `localhost` is refused on all but Windows, where a path has to start with a drive).
#[verifier::external_body]
pub(crate) fn to_file_path(input: &str) -> (path: Option<PathBuf>)
    ensures
        exists|os: Seq<char>| #[trigger] file_path_on(os, input@) == paths::whole_path(path),
        url_parse(input@) is Err ==> path is None,
        url_parse(input@) matches Ok(url) && opaque(url) ==> path is None,
{
    url::Url::parse(input).ok()?.to_file_path().ok()
}

/// A URL.
#[derive(Debug, PartialEq, Eq)]
pub struct RemoteUrl {
    url: url::Url,
}

impl View for RemoteUrl {
    type V = Seq<char>;

    /// The serialization of the URL.
    closed spec fn view(&self) -> Seq<char> {
        serialization(self.url)
    }
}

/// The outcome of reading or joining a URL.
pub open spec fn url_view(outcome: Result<RemoteUrl, String>) -> Result<Seq<char>, Seq<char>> {
    match outcome {
        Ok(url) => Ok(url@),
        Err(message) => Err(message@),
    }
}

impl RemoteUrl {
    /// Reads an absolute URL, or says in the error's words why it is none.
    pub fn parse(input: &str) -> (url: Result<RemoteUrl, String>)
        ensures
            url_view(url) == url_parse(input@),
    {
        match parse_url(input) {
            Ok(url) => Ok(RemoteUrl { url }),
            Err(message) => Err(message),
        }
    }

    /// Resolves `input` with this URL as the base.
    pub fn join(&self, input: &str) -> (url: Result<RemoteUrl, String>)
        ensures
            url_view(url) == url_join(self@, input@),
    {
        match join_url(&self.url, input) {
            Ok(url) => Ok(RemoteUrl { url }),
            Err(message) => Err(message),
        }
    }

    /// The serialization of the URL.
    pub fn as_str(&self) -> (text: &str)
        ensures
            text@ == self@,
    {
        self.url.as_str()
    }

    /// The scheme of the URL, without its colon.
    pub fn scheme(&self) -> (scheme: &str)
        ensures
            scheme@ == scheme_of(self@),
    {
        self.url.scheme()
    }

    /// Whether the URL names a file of this machine.
    pub fn is_file(&self) -> (yes: bool)
        ensures
            yes == (scheme_of(self@) == "file"@),
    {
        text::same_text(self.scheme(), "file")
    }

    /// Whether no relative URL can be resolved against this one.
    pub fn cannot_be_a_base(&self) -> (yes: bool)
        ensures
            yes == opaque(self@),
    {
        self.url.cannot_be_a_base()
    }

    /// Whether two URLs have the same serialization.
    pub fn same(&self, other: &RemoteUrl) -> (same: bool)
        ensures
            same == (self@ == other@),
    {
        text::same_text(self.as_str(), other.as_str())
    }
}

impl Clone for RemoteUrl {
    fn clone(&self) -> (copy: Self)
        ensures
            copy@ == self@,
    {
        RemoteUrl { url: self.url.clone() }
    }
}

} // verus!
