//! A file with its content and where it came from.

use vstd::prelude::*;

use crate::paths::{PathSource, PathSourceView};

verus! {

/// A file with its content as bytes.
pub ghost struct FileBytesView {
    pub source: PathSourceView,
    pub is_first_download: bool,
    pub content: Seq<u8>,
}

/// A file with its content as text.
pub ghost struct FileTextView {
    pub source: PathSourceView,
    pub is_first_download: bool,
    pub content: Seq<char>,
}

/// A file with its content as bytes.
#[derive(Debug, PartialEq, Eq)]
pub struct ResolvedFilePathWithBytes {
    pub source: PathSource,
    /// Whether the file was downloaded rather than served from the cache. This
    /// is false when a stale cache entry was checked for changes and had none.
    pub is_first_download: bool,
    pub content: Vec<u8>,
}

impl View for ResolvedFilePathWithBytes {
    type V = FileBytesView;

    open spec fn view(&self) -> FileBytesView {
        FileBytesView {
            source: self.source@,
            is_first_download: self.is_first_download,
            content: self.content@,
        }
    }
}

/// A file with its content as text.
#[derive(Debug, PartialEq, Eq)]
pub struct ResolvedFilePathWithText {
    pub source: PathSource,
    pub is_first_download: bool,
    pub content: String,
}

impl View for ResolvedFilePathWithText {
    type V = FileTextView;

    open spec fn view(&self) -> FileTextView {
        FileTextView {
            source: self.source@,
            is_first_download: self.is_first_download,
            content: self.content@,
        }
    }
}

impl Clone for ResolvedFilePathWithBytes {
    fn clone(&self) -> (copy: Self)
        ensures
            copy@ == self@,
    {
        let content = self.content.clone();
        assert(content@ =~= self.content@);
        ResolvedFilePathWithBytes {
            source: self.source.clone(),
            is_first_download: self.is_first_download,
            content,
        }
    }
}

impl Clone for ResolvedFilePathWithText {
    fn clone(&self) -> (copy: Self)
        ensures
            copy@ == self@,
    {
        ResolvedFilePathWithText {
            source: self.source.clone(),
            is_first_download: self.is_first_download,
            content: self.content.clone(),
        }
    }
}

/// A view of a file's source and text.
#[derive(Debug, Clone, Copy)]
pub struct ResolvedFilePathWithTextRef<'a> {
    pub source: &'a PathSource,
    pub content: &'a str,
}

/// What `String::from_utf8` says of bytes that are not UTF-8: the message of its error.
pub uninterp spec fn utf8_error(bytes: Seq<u8>) -> Seq<char>;

/// Calls `String::from_utf8`.
///
/// Believed of it: the bytes make a string if and only if they are valid UTF-8, and
/// it is the one that they encode. Otherwise the message of the error depends on the
/// bytes alone.
#[verifier::external_body]
pub(crate) fn string_from_utf8(bytes: Vec<u8>) -> (text: Result<String, String>)
    ensures
        match text {
            Ok(text) => vstd::utf8::valid_utf8(bytes@) && text@ == vstd::utf8::decode_utf8(bytes@),
            Err(message) => !vstd::utf8::valid_utf8(bytes@) && message@ == utf8_error(bytes@),
        },
{
    String::from_utf8(bytes).map_err(|err| err.to_string())
}

/// A file that is not UTF-8, and why it is not.
#[derive(Debug, PartialEq, Eq)]
pub struct NotUtf8File {
    pub source: PathSource,
    pub reason: String,
}

impl ResolvedFilePathWithBytes {
    /// The file with its content as text, unless that is not UTF-8.
    pub fn into_text(self) -> (file: Result<ResolvedFilePathWithText, NotUtf8File>)
        ensures
            match file {
                Ok(file) => {
                    &&& vstd::utf8::valid_utf8(self@.content)
                    &&& file@ == (FileTextView {
                        source: self@.source,
                        is_first_download: self@.is_first_download,
                        content: vstd::utf8::decode_utf8(self@.content),
                    })
                },
                Err(error) => {
                    &&& !vstd::utf8::valid_utf8(self@.content)
                    &&& error.source == self.source
                    &&& error.reason@ == utf8_error(self@.content)
                },
            },
    {
        match string_from_utf8(self.content) {
            Ok(content) => Ok(
                ResolvedFilePathWithText {
                    source: self.source,
                    is_first_download: self.is_first_download,
                    content,
                },
            ),
            Err(reason) => Err(NotUtf8File { source: self.source, reason }),
        }
    }
}

impl ResolvedFilePathWithText {
    /// A view of the file's source and text.
    pub fn as_ref(&self) -> (file: ResolvedFilePathWithTextRef<'_>)
        ensures
            *file.source == self.source,
            file.content@ == self.content@,
    {
        ResolvedFilePathWithTextRef { source: &self.source, content: self.content.as_str() }
    }
}

/// Text that was encoded is read back as it was.
pub proof fn encoded_text_is_read_back(text: Seq<char>)
    ensures
        vstd::utf8::valid_utf8(vstd::utf8::encode_utf8(text)),
        vstd::utf8::decode_utf8(vstd::utf8::encode_utf8(text)) == text,
{
    vstd::utf8::encode_utf8_valid_utf8(text);
    vstd::utf8::encode_utf8_decode_utf8(text);
}

} // verus!
