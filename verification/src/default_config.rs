//! The configuration file that applies where none was named: the one in the
//! directory where the search starts, or the nearest one above the current one.

use std::path::PathBuf;
use vstd::prelude::*;

use crate::cli::SubCommand;
use crate::config_file;
use crate::config_file::{ConfigView, ResolvedConfigPathWithText};
use crate::file_search;
use crate::file_search::{
    CandidateView, FileSearch, Files, FoundFile, FoundFileView, SearchStep, SearchStepView,
};
use crate::paths;
use crate::paths::{LocalPath, LocalPathView, PathSource, PathSourceView};

verus! {

/// A configuration file of this machine that was found at the canonical path
/// `path`.
pub open spec fn local_config(path: PathBuf, content: Seq<char>, base_path: PathBuf) -> ConfigView {
    ConfigView {
        source: PathSourceView::Local { path: LocalPathView::whole(path), origin: None },
        is_first_download: false,
        content,
        base_path,
        is_global_config: false,
    }
}

fn new_local_config(path: PathBuf, content: String, base_path: PathBuf) -> (config:
    ResolvedConfigPathWithText)
    ensures
        config@ == local_config(path, content@, base_path),
{
    ResolvedConfigPathWithText {
        source: PathSource::new_local(LocalPath::new(path)),
        is_first_download: false,
        content,
        base_path,
        is_global_config: false,
    }
}

/// What the search through the directories above needs next.
pub ghost enum AncestorStepView<E> {
    Read(Seq<CandidateView>),
    CanonicalizeFile(FoundFileView),
    CanonicalizeDir(FoundFileView, PathBuf),
    Done(Option<ConfigView>),
    Failed(E),
}

/// A search through the directories above that waits for a file to be read.
#[derive(Debug, PartialEq, Eq)]
pub struct AncestorRead {
    pub search: FileSearch,
}

/// A configuration file whose path is to be canonicalized.
#[derive(Debug, PartialEq, Eq)]
pub struct AncestorFile {
    pub found: FoundFile,
}

/// A configuration file, with its canonical path, whose directory is to be
/// canonicalized.
#[derive(Debug, PartialEq, Eq)]
pub struct AncestorDir {
    pub found: FoundFile,
    pub path: PathBuf,
}

/// What the search through the directories above needs next.
#[derive(Debug, PartialEq, Eq)]
pub enum AncestorStep<E> {
    /// The file at the path of the search is to be read, if it exists.
    Read(AncestorRead),
    /// The path of the file is to be canonicalized.
    CanonicalizeFile(AncestorFile),
    /// The directory of the file is to be canonicalized.
    CanonicalizeDir(AncestorDir),
    /// The search is over.
    Done(Option<ResolvedConfigPathWithText>),
    /// The file system failed.
    Failed(E),
}

impl<E> View for AncestorStep<E> {
    type V = AncestorStepView<E>;

    open spec fn view(&self) -> AncestorStepView<E> {
        match self {
            AncestorStep::Read(read) => AncestorStepView::Read(read.search@),
            AncestorStep::CanonicalizeFile(file) => AncestorStepView::CanonicalizeFile(
                file.found@,
            ),
            AncestorStep::CanonicalizeDir(dir) => AncestorStepView::CanonicalizeDir(
                dir.found@,
                dir.path,
            ),
            AncestorStep::Done(config) => AncestorStepView::Done(
                config_file::optional_config(*config),
            ),
            AncestorStep::Failed(error) => AncestorStepView::Failed(*error),
        }
    }
}

/// What follows a step of the search for the file.
pub open spec fn after_ancestor_search<E>(step: SearchStepView<E>) -> AncestorStepView<E> {
    match step {
        SearchStepView::Read(candidates) => AncestorStepView::Read(candidates),
        SearchStepView::Found(found) => AncestorStepView::CanonicalizeFile(found),
        SearchStepView::NotFound => AncestorStepView::Done(None),
        SearchStepView::Failed(error) => AncestorStepView::Failed(error),
    }
}

/// What follows once the path of the file was canonicalized.
pub open spec fn after_ancestor_file<E>(
    found: FoundFileView,
    outcome: Result<PathBuf, E>,
) -> AncestorStepView<E> {
    match outcome {
        Ok(path) => AncestorStepView::CanonicalizeDir(found, path),
        Err(error) => AncestorStepView::Failed(error),
    }
}

/// What follows once the directory of the file was canonicalized.
pub open spec fn after_ancestor_dir<E>(
    found: FoundFileView,
    path: PathBuf,
    outcome: Result<PathBuf, E>,
) -> AncestorStepView<E> {
    match outcome {
        Ok(dir) => AncestorStepView::Done(Some(local_config(path, found.content, dir))),
        Err(error) => AncestorStepView::Failed(error),
    }
}

fn ancestor_step<E>(step: SearchStep<E>) -> (next: AncestorStep<E>)
    ensures
        next@ == after_ancestor_search(step@),
{
    match step {
        SearchStep::Read(search) => AncestorStep::Read(AncestorRead { search }),
        SearchStep::Found(found) => AncestorStep::CanonicalizeFile(AncestorFile { found }),
        SearchStep::NotFound => AncestorStep::Done(None),
        SearchStep::Failed(error) => AncestorStep::Failed(error),
    }
}

/// Looks for the nearest configuration file in these directories, the nearest first.
pub fn search_directories<E>(dirs: &Vec<PathBuf>) -> (step: AncestorStep<E>)
    ensures
        step@ == ancestor_search::<E>(dirs@),
{
    ancestor_step(file_search::get_config_file_in_dirs(dirs))
}

/// Looks for the nearest configuration file in the directory `start_dir` and those
/// above it.
pub fn get_default_config_file_in_ancestor_directories<E>(start_dir: &PathBuf) -> (step:
    AncestorStep<E>)
    ensures
        exists|dirs: Seq<PathBuf>| #[trigger]
            paths::climbs(*start_dir, dirs) && step@ == ancestor_search::<E>(dirs),
{
    let dirs = paths::path_ancestors(start_dir);
    assert(paths::climbs(*start_dir, dirs@));
    search_directories(&dirs)
}

impl AncestorRead {
    /// Goes on with the text of the file; `Ok(None)` is that it does not exist.
    pub fn on_read<E>(self, outcome: Result<Option<String>, E>) -> (step: AncestorStep<E>)
        ensures
            step@ == after_ancestor_search(
                file_search::search_step(self.search@, file_search::read_view(outcome)),
            ),
    {
        ancestor_step(self.search.on_read(outcome))
    }
}

impl AncestorFile {
    /// Goes on with the canonical path of the file.
    pub fn on_canonicalized<E>(self, outcome: Result<PathBuf, E>) -> (step: AncestorStep<E>)
        ensures
            step@ == after_ancestor_file(self.found@, outcome),
    {
        match outcome {
            Ok(path) => AncestorStep::CanonicalizeDir(AncestorDir { found: self.found, path }),
            Err(error) => AncestorStep::Failed(error),
        }
    }
}

impl AncestorDir {
    /// Goes on with the canonical path of the directory.
    pub fn on_canonicalized<E>(self, outcome: Result<PathBuf, E>) -> (step: AncestorStep<E>)
        ensures
            step@ == after_ancestor_dir(self.found@, self.path, outcome),
    {
        match outcome {
            Ok(dir) => AncestorStep::Done(
                Some(new_local_config(self.path, self.found.content, dir)),
            ),
            Err(error) => AncestorStep::Failed(error),
        }
    }
}

/// The directory where the search starts.
#[derive(Debug, PartialEq, Eq)]
pub enum StartDirectory {
    /// The canonical form of this directory.
    Canonicalize(PathBuf),
    /// This directory.
    Known(PathBuf),
}

/// The directory where the search starts.
pub open spec fn start_directory(
    sub_command: SubCommand,
    is_absolute: bool,
    parent: Option<PathBuf>,
    cwd: PathBuf,
) -> StartDirectory {
    match parent {
        Some(parent) if sub_command is StdInFmt && is_absolute => StartDirectory::Canonicalize(
            parent,
        ),
        _ => StartDirectory::Known(cwd),
    }
}

/// The directory where the search starts, where `parent` is the directory of the file
/// path provided to the command.
pub fn start_search_directory(
    sub_command: &SubCommand,
    is_absolute: bool,
    parent: Option<PathBuf>,
    cwd: PathBuf,
) -> (start: StartDirectory)
    ensures
        start == start_directory(*sub_command, is_absolute, parent, cwd),
{
    if let SubCommand::StdInFmt(_) = sub_command {
        if is_absolute {
            if let Some(parent) = parent {
                return StartDirectory::Canonicalize(parent);
            }
        }
    }
    StartDirectory::Known(cwd)
}

/// Whether `parent` is the directory of the file path `text`.
pub open spec fn directory_of(text: Seq<char>, parent: Option<PathBuf>) -> bool {
    exists|path: PathBuf|
        LocalPathView::whole(path) == paths::path_of(text) && #[trigger] paths::parents(
            path,
            parent,
        )
}

/// The directory where the search starts: the current one, but when formatting via
/// stdin the one of the file path provided to the command, if that is absolute. This
/// is done for people who format files in their editor. `is_absolute` is whether that
/// file path is absolute.
pub fn get_start_search_directory(
    sub_command: &SubCommand,
    is_absolute: bool,
    cwd: PathBuf,
) -> (start: StartDirectory)
    ensures
        match *sub_command {
            SubCommand::StdInFmt(command) => exists|parent: Option<PathBuf>| #[trigger]
                directory_of(command.file_name_or_path@, parent) && start == start_directory(
                    *sub_command,
                    is_absolute,
                    parent,
                    cwd,
                ),
            _ => start == StartDirectory::Known(cwd),
        },
{
    match sub_command {
        SubCommand::StdInFmt(command) => {
            let path = paths::path_from(command.file_name_or_path.as_str());
            let parent = paths::parent_path(&path);
            assert(paths::parents(path, parent));
            assert(directory_of(command.file_name_or_path@, parent));
            start_search_directory(sub_command, is_absolute, parent, cwd)
        },
        _ => StartDirectory::Known(cwd),
    }
}

/// What the search for the configuration that applies needs next.
pub ghost enum DefaultsStepView<E> {
    CanonicalizeStart { dir: PathBuf, above: Seq<PathBuf> },
    Read { candidates: Seq<CandidateView>, dir: PathBuf, above: Seq<PathBuf> },
    CanonicalizeFile { found: FoundFileView, dir: PathBuf },
    Ancestors(AncestorStepView<E>),
    Done(ConfigView),
    Failed(E),
}

/// A search whose first directory is to be canonicalized.
#[derive(Debug, PartialEq, Eq)]
pub struct StartDir {
    pub dir: PathBuf,
    /// The current directory and those above it, the nearest first.
    pub above: Vec<PathBuf>,
}

/// A search in its first directory that waits for a file to be read.
#[derive(Debug, PartialEq, Eq)]
pub struct StartRead {
    pub search: FileSearch,
    pub dir: PathBuf,
    pub above: Vec<PathBuf>,
}

/// A configuration file in the first directory whose path is to be canonicalized.
#[derive(Debug, PartialEq, Eq)]
pub struct StartFile {
    pub found: FoundFile,
    pub dir: PathBuf,
}

/// What the search for the configuration that applies needs next.
#[derive(Debug, PartialEq, Eq)]
pub enum DefaultsStep<E> {
    /// The first directory is to be canonicalized.
    CanonicalizeStart(StartDir),
    /// The file at the path of the search is to be read, if it exists.
    Read(StartRead),
    /// The path of the file is to be canonicalized.
    CanonicalizeFile(StartFile),
    /// Nothing is in the first directory: the search goes on above the current one.
    Ancestors(AncestorStep<E>),
    /// The search is over.
    Done(ResolvedConfigPathWithText),
    /// The file system failed.
    Failed(E),
}

impl<E> View for DefaultsStep<E> {
    type V = DefaultsStepView<E>;

    open spec fn view(&self) -> DefaultsStepView<E> {
        match self {
            DefaultsStep::CanonicalizeStart(start) => DefaultsStepView::CanonicalizeStart {
                dir: start.dir,
                above: start.above@,
            },
            DefaultsStep::Read(read) => DefaultsStepView::Read {
                candidates: read.search@,
                dir: read.dir,
                above: read.above@,
            },
            DefaultsStep::CanonicalizeFile(file) => DefaultsStepView::CanonicalizeFile {
                found: file.found@,
                dir: file.dir,
            },
            DefaultsStep::Ancestors(step) => DefaultsStepView::Ancestors(step@),
            DefaultsStep::Done(config) => DefaultsStepView::Done(config@),
            DefaultsStep::Failed(error) => DefaultsStepView::Failed(*error),
        }
    }
}

/// The search through the current directory and those above it.
pub open spec fn ancestor_search<E>(above: Seq<PathBuf>) -> AncestorStepView<E> {
    after_ancestor_search(
        file_search::search::<E>(
            file_search::files_in_all(above, file_search::config_file_names()),
        ),
    )
}

/// What follows a step of the search in the first directory.
pub open spec fn after_start_search<E>(
    step: SearchStepView<E>,
    dir: PathBuf,
    above: Seq<PathBuf>,
) -> DefaultsStepView<E> {
    match step {
        SearchStepView::Read(candidates) => DefaultsStepView::Read { candidates, dir, above },
        SearchStepView::Found(found) => DefaultsStepView::CanonicalizeFile { found, dir },
        SearchStepView::NotFound => DefaultsStepView::Ancestors(ancestor_search(above)),
        SearchStepView::Failed(error) => DefaultsStepView::Failed(error),
    }
}

/// The search in the first directory.
pub open spec fn search_start<E>(dir: PathBuf, above: Seq<PathBuf>) -> DefaultsStepView<E> {
    after_start_search(
        file_search::search(
            file_search::files_in(LocalPathView::whole(dir), file_search::config_file_names()),
        ),
        dir,
        above,
    )
}

/// The search that starts in this directory.
pub open spec fn search_defaults<E>(start: StartDirectory, above: Seq<PathBuf>) -> DefaultsStepView<
    E,
> {
    match start {
        StartDirectory::Canonicalize(dir) => DefaultsStepView::CanonicalizeStart { dir, above },
        StartDirectory::Known(dir) => search_start(dir, above),
    }
}

fn start_step<E>(step: SearchStep<E>, dir: PathBuf, above: Vec<PathBuf>) -> (next: DefaultsStep<E>)
    ensures
        next@ == after_start_search(step@, dir, above@),
{
    match step {
        SearchStep::Read(search) => DefaultsStep::Read(StartRead { search, dir, above }),
        SearchStep::Found(found) => DefaultsStep::CanonicalizeFile(StartFile { found, dir }),
        SearchStep::NotFound => DefaultsStep::Ancestors(search_directories(&above)),
        SearchStep::Failed(error) => DefaultsStep::Failed(error),
    }
}

fn read_start<E>(dir: PathBuf, above: Vec<PathBuf>) -> (step: DefaultsStep<E>)
    ensures
        step@ == search_start::<E>(dir, above@),
{
    let path = LocalPath::new(dir.clone());
    start_step(file_search::get_config_file_in_dir(&path), dir, above)
}

/// Looks for a configuration file in the first directory and then in those `above`, the
/// nearest first.
pub fn search_from<E>(start: StartDirectory, above: Vec<PathBuf>) -> (step: DefaultsStep<E>)
    ensures
        step@ == search_defaults::<E>(start, above@),
{
    match start {
        StartDirectory::Canonicalize(dir) => DefaultsStep::CanonicalizeStart(
            StartDir { dir, above },
        ),
        StartDirectory::Known(dir) => read_start(dir, above),
    }
}

/// Looks for a configuration file in the first directory and then in the current
/// directory `cwd` and those above it.
pub fn get_default_paths<E>(start: StartDirectory, cwd: &PathBuf) -> (step: DefaultsStep<E>)
    ensures
        exists|above: Seq<PathBuf>| #[trigger]
            paths::climbs(*cwd, above) && step@ == search_defaults::<E>(start, above),
{
    let above = paths::path_ancestors(cwd);
    assert(paths::climbs(*cwd, above@));
    search_from(start, above)
}

impl StartDir {
    /// Goes on with the canonical path of the first directory.
    pub fn on_canonicalized<E>(self, outcome: Result<PathBuf, E>) -> (step: DefaultsStep<E>)
        ensures
            step@ == (match outcome {
                Ok(dir) => search_start::<E>(dir, self.above@),
                Err(error) => DefaultsStepView::Failed(error),
            }),
    {
        match outcome {
            Ok(dir) => read_start(dir, self.above),
            Err(error) => DefaultsStep::Failed(error),
        }
    }
}

impl StartRead {
    /// Goes on with the text of the file; `Ok(None)` is that it does not exist.
    pub fn on_read<E>(self, outcome: Result<Option<String>, E>) -> (step: DefaultsStep<E>)
        ensures
            step@ == after_start_search(
                file_search::search_step(self.search@, file_search::read_view(outcome)),
                self.dir,
                self.above@,
            ),
    {
        start_step(self.search.on_read(outcome), self.dir, self.above)
    }
}

impl StartFile {
    /// Goes on with the canonical path of the file.
    pub fn on_canonicalized<E>(self, outcome: Result<PathBuf, E>) -> (step: DefaultsStep<E>)
        ensures
            step@ == (match outcome {
                Ok(path) => DefaultsStepView::Done(
                    local_config(path, self.found@.content, self.dir),
                ),
                Err(error) => DefaultsStepView::Failed(error),
            }),
    {
        match outcome {
            Ok(path) => DefaultsStep::Done(
                new_local_config(path, self.found.content, self.dir),
            ),
            Err(error) => DefaultsStep::Failed(error),
        }
    }
}

/// What the file system answers when a path is canonicalized.
pub type Canonical<E> = spec_fn(LocalPathView) -> Result<PathBuf, E>;

/// What comes of the search through the directories above that stands at `step`.
pub open spec fn ancestor_outcome<E>(
    step: AncestorStepView<E>,
    files: Files<E>,
    canonical: Canonical<E>,
) -> Result<Option<ConfigView>, E>
    decreases
            match step {
                AncestorStepView::Read(candidates) => candidates.len() + 2,
                AncestorStepView::CanonicalizeFile(_) => 2,
                AncestorStepView::CanonicalizeDir(..) => 1,
                _ => 0nat,
            },
{
    match step {
        AncestorStepView::Read(candidates) => if candidates.len() == 0 {
            Ok(None)
        } else {
            ancestor_outcome(
                after_ancestor_search(
                    file_search::search_step(candidates, files(candidates[0].path())),
                ),
                files,
                canonical,
            )
        },
        AncestorStepView::CanonicalizeFile(found) => ancestor_outcome(
            after_ancestor_file(found, canonical(found.file.path())),
            files,
            canonical,
        ),
        AncestorStepView::CanonicalizeDir(found, path) => ancestor_outcome(
            after_ancestor_dir(found, path, canonical(found.file.dir)),
            files,
            canonical,
        ),
        AncestorStepView::Done(config) => Ok(config),
        AncestorStepView::Failed(error) => Err(error),
    }
}

/// What comes of the search for the configuration that applies, where it stands at
/// `step`.
pub open spec fn defaults_outcome<E>(
    step: DefaultsStepView<E>,
    files: Files<E>,
    canonical: Canonical<E>,
) -> Result<Option<ConfigView>, E>
    decreases
            match step {
                DefaultsStepView::CanonicalizeStart { .. } => 2nat,
                DefaultsStepView::Read { .. } => 1,
                _ => 0,
            },
            match step {
                DefaultsStepView::Read { candidates, .. } => candidates.len(),
                DefaultsStepView::CanonicalizeFile { .. } => 1,
                _ => 0,
            },
{
    match step {
        DefaultsStepView::CanonicalizeStart { dir, above } => match canonical(
            LocalPathView::whole(dir),
        ) {
            Ok(dir) => defaults_outcome(search_start(dir, above), files, canonical),
            Err(error) => Err(error),
        },
        DefaultsStepView::Read { candidates, dir, above } => if candidates.len() == 0 {
            Ok(None)
        } else {
            defaults_outcome(
                after_start_search(
                    file_search::search_step(candidates, files(candidates[0].path())),
                    dir,
                    above,
                ),
                files,
                canonical,
            )
        },
        DefaultsStepView::CanonicalizeFile { found, dir } => match canonical(found.file.path()) {
            Ok(path) => Ok(Some(local_config(path, found.content, dir))),
            Err(error) => Err(error),
        },
        DefaultsStepView::Ancestors(step) => ancestor_outcome(step, files, canonical),
        DefaultsStepView::Done(config) => Ok(Some(config)),
        DefaultsStepView::Failed(error) => Err(error),
    }
}

/// The configuration that a file found above makes.
pub open spec fn found_above<E>(found: FoundFileView, canonical: Canonical<E>) -> Result<
    Option<ConfigView>,
    E,
> {
    match canonical(found.file.path()) {
        Ok(path) => match canonical(found.file.dir) {
            Ok(dir) => Ok(Some(local_config(path, found.content, dir))),
            Err(error) => Err(error),
        },
        Err(error) => Err(error),
    }
}

proof fn lemma_ancestor_outcome<E>(
    step: SearchStepView<E>,
    files: Files<E>,
    canonical: Canonical<E>,
)
    ensures
        ancestor_outcome(after_ancestor_search(step), files, canonical) == (
        match file_search::search_outcome(step, files) {
            SearchStepView::Found(found) => found_above(found, canonical),
            SearchStepView::NotFound => Ok(None),
            SearchStepView::Failed(error) => Err(error),
            SearchStepView::Read(_) => Ok(None),
        }),
    decreases
            match step {
                SearchStepView::Read(candidates) => candidates.len() + 1,
                _ => 0,
            },
{
    reveal_with_fuel(ancestor_outcome, 3);
    if let SearchStepView::Read(candidates) = step {
        if candidates.len() > 0 {
            lemma_ancestor_outcome(
                file_search::search_step(candidates, files(candidates[0].path())),
                files,
                canonical,
            );
        }
    }
}

/// The configuration found above is the one in the nearest directory that has one,
/// with the most preferred name among those in that directory. Its directory is
/// what the file patterns in it are relative to.
pub proof fn the_nearest_config_applies<E>(
    above: Seq<PathBuf>,
    i: int,
    j: int,
    content: Seq<char>,
    files: Files<E>,
    canonical: Canonical<E>,
)
    requires
        0 <= i < above.len(),
        0 <= j < file_search::config_file_names().len(),
        forall|k: int, l: int|
            (0 <= k < i && 0 <= l < file_search::config_file_names().len()) || (k == i && 0 <= l
                < j) ==> files(
                LocalPathView::whole(#[trigger] above[k]).join(
                    #[trigger] file_search::config_file_names()[l],
                ),
            ) == Ok::<Option<Seq<char>>, E>(None),
        files(LocalPathView::whole(above[i]).join(file_search::config_file_names()[j])) == Ok::<
            Option<Seq<char>>,
            E,
        >(Some(content)),
    ensures
        ancestor_outcome(ancestor_search(above), files, canonical) == found_above(
            FoundFileView {
                file: CandidateView {
                    dir: LocalPathView::whole(above[i]),
                    name: file_search::config_file_names()[j],
                },
                content,
            },
            canonical,
        ),
{
    let names = file_search::config_file_names();
    file_search::the_nearest_config_file_is_found(above, names, i, j, content, files);
    lemma_ancestor_outcome(
        file_search::search(file_search::files_in_all(above, names)),
        files,
        canonical,
    );
}

/// There is no configuration above if and only if none of the directories has a
/// file with one of the names.
pub proof fn no_config_applies_where_no_file_exists<E>(
    above: Seq<PathBuf>,
    files: Files<E>,
    canonical: Canonical<E>,
)
    ensures
        ({
            let candidates = file_search::files_in_all(above, file_search::config_file_names());
            ancestor_outcome(ancestor_search(above), files, canonical) == Ok::<
                Option<ConfigView>,
                E,
            >(None) <==> file_search::none_of_first(candidates, candidates.len() as int, files)
        }),
{
    let candidates = file_search::files_in_all(above, file_search::config_file_names());
    lemma_ancestor_outcome(file_search::search(candidates), files, canonical);
    lemma_search_ends(file_search::search(candidates), files);
    file_search::a_search_finds_nothing_where_nothing_is(candidates, files);
}

proof fn lemma_search_ends<E>(step: SearchStepView<E>, files: Files<E>)
    ensures
        !(file_search::search_outcome(step, files) is Read),
    decreases
            match step {
                SearchStepView::Read(candidates) => candidates.len() + 1,
                _ => 0,
            },
{
    if let SearchStepView::Read(candidates) = step {
        if candidates.len() > 0 {
            lemma_search_ends(
                file_search::search_step(candidates, files(candidates[0].path())),
                files,
            );
        }
    }
}

proof fn lemma_defaults_outcome<E>(
    step: SearchStepView<E>,
    dir: PathBuf,
    above: Seq<PathBuf>,
    files: Files<E>,
    canonical: Canonical<E>,
)
    ensures
        defaults_outcome(after_start_search(step, dir, above), files, canonical) == (
        match file_search::search_outcome(step, files) {
            SearchStepView::Found(found) => match canonical(found.file.path()) {
                Ok(path) => Ok(Some(local_config(path, found.content, dir))),
                Err(error) => Err(error),
            },
            SearchStepView::NotFound => if step is Read && step->Read_0.len() == 0 {
                Ok(None)
            } else {
                ancestor_outcome(ancestor_search(above), files, canonical)
            },
            SearchStepView::Failed(error) => Err(error),
            SearchStepView::Read(_) => Ok(None),
        }),
    decreases
            match step {
                SearchStepView::Read(candidates) => candidates.len() + 1,
                _ => 0,
            },
{
    reveal_with_fuel(defaults_outcome, 2);
    if let SearchStepView::Read(candidates) = step {
        if candidates.len() > 0 {
            lemma_defaults_outcome(
                file_search::search_step(candidates, files(candidates[0].path())),
                dir,
                above,
                files,
                canonical,
            );
        }
    }
}

/// A configuration file in the first directory is the one that applies, whatever is
/// in the directories above the current one. The first directory is what the file
/// patterns in it are relative to.
pub proof fn the_first_directory_comes_first<E>(
    dir: PathBuf,
    above: Seq<PathBuf>,
    j: int,
    content: Seq<char>,
    files: Files<E>,
    canonical: Canonical<E>,
)
    requires
        0 <= j < file_search::config_file_names().len(),
        forall|l: int|
            0 <= l < j ==> files(
                LocalPathView::whole(dir).join(#[trigger] file_search::config_file_names()[l]),
            ) == Ok::<Option<Seq<char>>, E>(None),
        files(LocalPathView::whole(dir).join(file_search::config_file_names()[j])) == Ok::<
            Option<Seq<char>>,
            E,
        >(Some(content)),
    ensures
        defaults_outcome(search_start(dir, above), files, canonical) == (match canonical(
            LocalPathView::whole(dir).join(file_search::config_file_names()[j]),
        ) {
            Ok(path) => Ok::<Option<ConfigView>, E>(Some(local_config(path, content, dir))),
            Err(error) => Err(error),
        }),
{
    let names = file_search::config_file_names();
    let candidates = file_search::files_in(LocalPathView::whole(dir), names);
    assert forall|l: int| 0 <= l < j implies files(#[trigger] candidates[l].path()) == Ok::<
        Option<Seq<char>>,
        E,
    >(None) by {
        assert(candidates[l].name == names[l]);
    }
    file_search::a_search_finds_the_first_file(candidates, j, content, files);
    lemma_defaults_outcome(file_search::search(candidates), dir, above, files, canonical);
}

/// Where the first directory has no configuration file, the search goes on above
/// the current one.
pub proof fn the_directories_above_come_next<E>(
    dir: PathBuf,
    above: Seq<PathBuf>,
    files: Files<E>,
    canonical: Canonical<E>,
)
    requires
        ({
            let candidates = file_search::files_in(
                LocalPathView::whole(dir),
                file_search::config_file_names(),
            );
            file_search::none_of_first(candidates, candidates.len() as int, files)
        }),
    ensures
        defaults_outcome(search_start(dir, above), files, canonical) == ancestor_outcome(
            ancestor_search(above),
            files,
            canonical,
        ),
{
    let candidates = file_search::files_in(
        LocalPathView::whole(dir),
        file_search::config_file_names(),
    );
    file_search::a_search_finds_nothing_where_nothing_is(candidates, files);
    lemma_defaults_outcome(file_search::search(candidates), dir, above, files, canonical);
}

proof fn lemma_local_above<E>(step: SearchStepView<E>, files: Files<E>, canonical: Canonical<E>)
    ensures
        ancestor_outcome(after_ancestor_search(step), files, canonical) matches Ok(Some(config))
            ==> !config.is_global_config && !config.is_first_download && config.source is Local,
{
    lemma_ancestor_outcome(step, files, canonical);
}

/// Configuration that applies to a directory is neither marked as the global one nor
/// as a download.
pub proof fn the_configuration_of_a_directory_is_local<E>(
    dir: PathBuf,
    above: Seq<PathBuf>,
    files: Files<E>,
    canonical: Canonical<E>,
)
    ensures
        defaults_outcome(search_start(dir, above), files, canonical) matches Ok(Some(config))
            ==> !config.is_global_config && !config.is_first_download && config.source is Local,
{
    let names = file_search::config_file_names();
    lemma_defaults_outcome(
        file_search::search(file_search::files_in(LocalPathView::whole(dir), names)),
        dir,
        above,
        files,
        canonical,
    );
    lemma_local_above(
        file_search::search(file_search::files_in_all(above, names)),
        files,
        canonical,
    );
}

} // verus!
