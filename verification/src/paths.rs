//! Where files are: local paths, remote URLs and npm specifiers.

use std::path::PathBuf;
use vstd::prelude::*;

use crate::remote_url::RemoteUrl;

verus! {

/// `std::path::PathBuf`, carried through unread.
#[verifier::external_type_specification]
#[verifier::external_body]
pub struct ExPathBuf(std::path::PathBuf);

/// `PathBuf::clone`. Believed of it: the copy is the same path.
pub assume_specification[ <std::path::PathBuf as Clone>::clone ](
    path: &std::path::PathBuf,
) -> (copy: std::path::PathBuf)
    ensures
        copy == *path,
;

/// What `Path::join` makes of a path and `name` on the operating system `os`.
pub uninterp spec fn join_on(os: Seq<char>, path: LocalPathView, name: Seq<char>) -> LocalPathView;

/// What `Path::parent` makes of a path on the operating system `os`.
pub uninterp spec fn parent_on(os: Seq<char>, path: LocalPathView) -> Option<LocalPathView>;

/// What `Path::file_name` makes of a path on the operating system `os`.
pub uninterp spec fn file_name_on(os: Seq<char>, path: LocalPathView) -> Option<Seq<char>>;

/// What `Path::ancestors` makes of a path on the operating system `os`.
pub uninterp spec fn ancestors_on(os: Seq<char>, path: LocalPathView) -> Seq<LocalPathView>;

/// What `Path::display` shows of a path on the operating system `os`.
pub uninterp spec fn display_on(os: Seq<char>, path: LocalPathView) -> Seq<char>;

/// What `OsStr::is_empty` says of the text of a path.
pub uninterp spec fn empty_path(path: LocalPathView) -> bool;

/// What `PathBuf::from` makes of `text`.
pub uninterp spec fn path_of(text: Seq<char>) -> LocalPathView;

/// Calls `Path::join`.
///
/// Believed of it: on one operating system the path depends on `path` and `name` alone.
#[verifier::external_body]
fn join_path(path: &PathBuf, name: &str) -> (joined: PathBuf)
    ensures
        exists|os: Seq<char>|
            #[trigger] join_on(os, LocalPathView::whole(*path), name@) == LocalPathView::whole(
                joined,
            ),
{
    path.join(name)
}

/// Calls `Path::parent`.
///
/// Believed of it: on one operating system the answer depends on `path` alone.
#[verifier::external_body]
pub(crate) fn parent_path(path: &PathBuf) -> (parent: Option<PathBuf>)
    ensures
        exists|os: Seq<char>|
            #[trigger] parent_on(os, LocalPathView::whole(*path)) == whole_path(parent),
{
    path.parent().map(|parent| parent.to_path_buf())
}

/// Calls `Path::file_name`, and replaces what is not Unicode in the name.
///
/// Believed of it: on one operating system the answer depends on `path` alone.
#[verifier::external_body]
pub(crate) fn path_file_name(path: &PathBuf) -> (name: Option<String>)
    ensures
        exists|os: Seq<char>|
            #[trigger] file_name_on(os, LocalPathView::whole(*path)) == optional_text(name),
{
    path.file_name().map(|name| name.to_string_lossy().to_string())
}

/// Calls `Path::ancestors`.
///
/// Believed of it: on one operating system the paths depend on `path` alone, and the
/// first of them is `path` itself.
#[verifier::external_body]
pub(crate) fn path_ancestors(path: &PathBuf) -> (dirs: Vec<PathBuf>)
    ensures
        dirs@.len() > 0,
        dirs@[0] == *path,
        exists|os: Seq<char>|
            #[trigger] ancestors_on(os, LocalPathView::whole(*path)) == whole_paths(dirs@),
{
    path.ancestors().map(|dir| dir.to_path_buf()).collect()
}

/// Calls `Path::display`.
///
/// Believed of it: on one operating system the text depends on `path` alone.
#[verifier::external_body]
fn display_path(path: &PathBuf) -> (display: String)
    ensures
        exists|os: Seq<char>|
            #[trigger] display_on(os, LocalPathView::whole(*path)) == display@,
{
    path.display().to_string()
}

/// Calls `OsStr::is_empty` on the text of the path.
///
/// Believed of it: the answer depends on `path` alone.
#[verifier::external_body]
pub(crate) fn is_empty_path(path: &PathBuf) -> (yes: bool)
    ensures
        yes == empty_path(LocalPathView::whole(*path)),
{
    path.as_os_str().is_empty()
}

/// Calls `PathBuf::from`.
///
/// Believed of it: the path depends on `text` alone.
#[verifier::external_body]
pub(crate) fn path_from(text: &str) -> (path: PathBuf)
    ensures
        LocalPathView::whole(path) == path_of(text@),
{
    PathBuf::from(text)
}

/// The texts of a list of strings.
pub open spec fn texts(strings: Seq<String>) -> Seq<Seq<char>> {
    Seq::new(strings.len(), |i: int| strings[i]@)
}

/// What a local path is made of.
#[verifier::ext_equal]
pub ghost struct LocalPathView {
    pub base: PathBuf,
    pub joined: Seq<Seq<char>>,
}

impl LocalPathView {
    /// The path that is `base` itself.
    pub open spec fn whole(base: PathBuf) -> LocalPathView {
        LocalPathView { base, joined: Seq::empty() }
    }

    /// The path with `name` joined to it.
    pub open spec fn join(self, name: Seq<char>) -> LocalPathView {
        LocalPathView { base: self.base, joined: self.joined.push(name) }
    }
}

/// The path that is `path` itself, if there is one.
pub open spec fn whole_path(path: Option<PathBuf>) -> Option<LocalPathView> {
    match path {
        Some(path) => Some(LocalPathView::whole(path)),
        None => None,
    }
}

/// The paths that are these themselves.
pub open spec fn whole_paths(paths: Seq<PathBuf>) -> Seq<LocalPathView> {
    Seq::new(paths.len(), |i: int| LocalPathView::whole(paths[i]))
}

/// Whether `joined` is `path` with `name` joined to it.
pub open spec fn joins(path: PathBuf, name: Seq<char>, joined: PathBuf) -> bool {
    exists|os: Seq<char>|
        #[trigger] join_on(os, LocalPathView::whole(path), name) == LocalPathView::whole(joined)
}

/// Whether `path` is `base` with each of `names` joined to it in turn.
pub open spec fn joins_all(base: PathBuf, names: Seq<Seq<char>>, path: PathBuf) -> bool
    decreases names.len(),
{
    if names.len() == 0 {
        path == base
    } else {
        exists|before: PathBuf|
            joins_all(base, names.drop_last(), before) && #[trigger] joins(
                before,
                names.last(),
                path,
            )
    }
}

/// Whether `parent` is what `path` without its last component is.
pub open spec fn parents(path: PathBuf, parent: Option<PathBuf>) -> bool {
    exists|os: Seq<char>|
        #[trigger] parent_on(os, LocalPathView::whole(path)) == whole_path(parent)
}

/// Whether `name` is the last component of `path`.
pub open spec fn names(path: PathBuf, name: Option<Seq<char>>) -> bool {
    exists|os: Seq<char>| #[trigger] file_name_on(os, LocalPathView::whole(path)) == name
}

/// Whether `display` is how `path` is shown.
pub open spec fn displays(path: PathBuf, display: Seq<char>) -> bool {
    exists|os: Seq<char>| #[trigger] display_on(os, LocalPathView::whole(path)) == display
}

/// Whether `display` is how the path that `path` stands for is shown.
pub open spec fn shown(path: LocalPathView, display: Seq<char>) -> bool {
    exists|whole: PathBuf|
        joins_all(path.base, path.joined, whole) && #[trigger] displays(whole, display)
}

/// Whether `dirs` are `start` and the directories above it, the nearest first.
pub open spec fn climbs(start: PathBuf, dirs: Seq<PathBuf>) -> bool {
    &&& dirs.len() > 0
    &&& dirs[0] == start
    &&& exists|os: Seq<char>|
        #[trigger] ancestors_on(os, LocalPathView::whole(start)) == whole_paths(dirs)
}

/// A local path: `base` with each of `joined` joined to it in turn. How two paths are
/// joined differs between operating systems, so it is done when the path is opened.
#[derive(Debug, PartialEq, Eq)]
pub struct LocalPath {
    pub base: PathBuf,
    pub joined: Vec<String>,
}

impl View for LocalPath {
    type V = LocalPathView;

    open spec fn view(&self) -> LocalPathView {
        LocalPathView { base: self.base, joined: texts(self.joined@) }
    }
}

impl LocalPath {
    /// The path that is `base` itself.
    pub fn new(base: PathBuf) -> (path: LocalPath)
        ensures
            path@ == LocalPathView::whole(base),
    {
        let path = LocalPath { base, joined: Vec::new() };
        assert(path@ =~= LocalPathView::whole(base));
        path
    }

    /// The path with `name` joined to it.
    pub fn join(&self, name: &str) -> (path: LocalPath)
        ensures
            path@ == self@.join(name@),
    {
        let mut path = self.clone();
        let ghost before = path.joined@;
        path.joined.push(name.to_owned());
        assert(texts(path.joined@) =~= texts(before).push(name@));
        path
    }
}

impl LocalPath {
    /// The path on this operating system.
    pub fn to_path_buf(&self) -> (path: PathBuf)
        ensures
            joins_all(self@.base, self@.joined, path),
    {
        let ghost all = self@.joined;
        let mut path = self.base.clone();
        let mut i: usize = 0;
        assert(all.take(0).len() == 0);
        while i < self.joined.len()
            invariant
                i <= self.joined.len(),
                all == texts(self.joined@),
                joins_all(self.base, all.take(i as int), path),
            decreases self.joined.len() - i,
        {
            let joined = join_path(&path, self.joined[i].as_str());
            proof {
                let longer = all.take(i + 1);
                assert(longer.drop_last() =~= all.take(i as int));
                assert(longer.last() == self.joined@[i as int]@);
                assert(joins_all(self.base, longer.drop_last(), path));
                assert(joins(path, longer.last(), joined));
                assert(joins_all(self.base, longer, joined));
            }
            path = joined;
            i = i + 1;
        }
        assert(all.take(i as int) =~= all);
        path
    }

    /// How the path is shown.
    pub fn display(&self) -> (display: String)
        ensures
            shown(self@, display@),
    {
        let path = self.to_path_buf();
        let display = display_path(&path);
        assert(displays(path, display@));
        display
    }
}

impl Clone for LocalPath {
    fn clone(&self) -> (copy: Self)
        ensures
            copy@ == self@,
    {
        let mut joined: Vec<String> = Vec::new();
        let mut i: usize = 0;
        while i < self.joined.len()
            invariant
                i <= self.joined.len(),
                joined@.len() == i,
                forall|j: int| 0 <= j < i ==> joined@[j]@ == self.joined@[j]@,
            decreases self.joined.len() - i,
        {
            joined.push(self.joined[i].clone());
            i = i + 1;
        }
        assert(texts(joined@) =~= texts(self.joined@));
        LocalPath { base: self.base.clone(), joined }
    }
}

/// A local path that may not be there.
pub open spec fn optional_path(path: Option<LocalPath>) -> Option<LocalPathView> {
    match path {
        Some(path) => Some(path@),
        None => None,
    }
}

/// Where a file is.
pub ghost enum PathSourceView {
    Local { path: LocalPathView, origin: Option<Seq<char>> },
    Remote { url: Seq<char> },
    Npm { specifier: Seq<char> },
}

/// A file on this machine. Where `origin` is given nothing stands at `path`: the
/// text came from the origin that it describes, and `path` only says against
/// which directory relative paths in it resolve.
#[derive(Debug, PartialEq, Eq)]
pub struct LocalPathSource {
    pub path: LocalPath,
    pub origin: Option<String>,
}

/// A file behind a URL.
#[derive(Debug, PartialEq, Eq)]
pub struct RemotePathSource {
    pub url: RemoteUrl,
}

/// A file of an npm package.
#[derive(Debug, PartialEq, Eq)]
pub struct NpmPathSource {
    pub specifier: String,
}

/// Where a file is.
#[derive(Debug, PartialEq, Eq)]
pub enum PathSource {
    Local(LocalPathSource),
    Remote(RemotePathSource),
    Npm(NpmPathSource),
}

/// The text of an optional string.
pub open spec fn optional_text(string: Option<String>) -> Option<Seq<char>> {
    match string {
        Some(string) => Some(string@),
        None => None,
    }
}

impl View for PathSource {
    type V = PathSourceView;

    open spec fn view(&self) -> PathSourceView {
        match self {
            PathSource::Local(local) => PathSourceView::Local {
                path: local.path@,
                origin: optional_text(local.origin),
            },
            PathSource::Remote(remote) => PathSourceView::Remote { url: remote.url@ },
            PathSource::Npm(npm) => PathSourceView::Npm { specifier: npm.specifier@ },
        }
    }
}

impl Clone for PathSource {
    fn clone(&self) -> (copy: Self)
        ensures
            copy@ == self@,
    {
        match self {
            PathSource::Local(local) => PathSource::Local(
                LocalPathSource {
                    path: local.path.clone(),
                    origin: match &local.origin {
                        Some(origin) => Some(origin.clone()),
                        None => None,
                    },
                },
            ),
            PathSource::Remote(remote) => PathSource::Remote(
                RemotePathSource { url: remote.url.clone() },
            ),
            PathSource::Npm(npm) => PathSource::Npm(
                NpmPathSource { specifier: npm.specifier.clone() },
            ),
        }
    }
}

impl PathSource {
    /// The file at a local path.
    pub fn new_local(path: LocalPath) -> (source: PathSource)
        ensures
            source@ == (PathSourceView::Local { path: path@, origin: None }),
    {
        PathSource::Local(LocalPathSource { path, origin: None })
    }

    /// Text that came from `origin` and counts as standing at `path`.
    pub fn new_local_virtual(path: LocalPath, origin: String) -> (source: PathSource)
        ensures
            source@ == (PathSourceView::Local { path: path@, origin: Some(origin@) }),
    {
        PathSource::Local(LocalPathSource { path, origin: Some(origin) })
    }

    /// The file behind a URL.
    pub fn new_remote(url: RemoteUrl) -> (source: PathSource)
        ensures
            source@ == (PathSourceView::Remote { url: url@ }),
    {
        PathSource::Remote(RemotePathSource { url })
    }

    /// The local path of the file, if it is on this machine.
    pub fn maybe_local_path(&self) -> (path: Option<&LocalPath>)
        ensures
            match path {
                Some(path) => self@ matches PathSourceView::Local { path: local, .. } && local
                    == path@,
                None => !(self@ is Local),
            },
    {
        match self {
            PathSource::Local(local) => Some(&local.path),
            _ => None,
        }
    }
}

} // verus!
