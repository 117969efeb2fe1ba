//! A configuration file that was found.

use std::path::PathBuf;
use vstd::prelude::*;

use crate::paths::{PathSource, PathSourceView};
use crate::resolved_file::ResolvedFilePathWithTextRef;

verus! {

/// A configuration file that was found.
pub ghost struct ConfigView {
    pub source: PathSourceView,
    pub is_first_download: bool,
    pub content: Seq<char>,
    pub base_path: PathBuf,
    pub is_global_config: bool,
}

/// A configuration file that was found, with the directory that the file patterns
/// in it are relative to.
#[derive(Debug, PartialEq, Eq)]
pub struct ResolvedConfigPathWithText {
    pub source: PathSource,
    pub is_first_download: bool,
    pub content: String,
    pub base_path: PathBuf,
    pub is_global_config: bool,
}

impl View for ResolvedConfigPathWithText {
    type V = ConfigView;

    open spec fn view(&self) -> ConfigView {
        ConfigView {
            source: self.source@,
            is_first_download: self.is_first_download,
            content: self.content@,
            base_path: self.base_path,
            is_global_config: self.is_global_config,
        }
    }
}

/// A configuration file that may not be there.
pub open spec fn optional_config(config: Option<ResolvedConfigPathWithText>) -> Option<ConfigView> {
    match config {
        Some(config) => Some(config@),
        None => None,
    }
}

impl ResolvedConfigPathWithText {
    /// A view of the file's source and text.
    pub fn as_file_path_with_text_ref(&self) -> (file: ResolvedFilePathWithTextRef<'_>)
        ensures
            *file.source == self.source,
            file.content@ == self.content@,
    {
        ResolvedFilePathWithTextRef { content: self.content.as_str(), source: &self.source }
    }
}

} // verus!
