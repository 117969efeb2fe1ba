//! The configuration file that applies everywhere, and the directory it is in.

use std::path::PathBuf;
use vstd::prelude::*;
use vstd::string::StringExecFns;

use crate::config_file;
use crate::config_file::{ConfigView, ResolvedConfigPathWithText};
use crate::file_search;
use crate::file_search::{CandidateView, FileSearch, Files, FoundFileView, SearchStep, SearchStepView};
use crate::paths;
use crate::paths::{LocalPath, LocalPathView, PathSource, PathSourceView};
use crate::text;

verus! {

/// The folder that an environment variable with this value names.
pub open spec fn env_folder(variable: Option<PathBuf>) -> Option<PathBuf> {
    match variable {
        Some(folder) if !paths::empty_path(LocalPathView::whole(folder)) => Some(folder),
        _ => None,
    }
}

/// The folder, unless its path is empty.
pub fn unless_empty(folder: PathBuf, is_empty: bool) -> (named: Option<PathBuf>)
    ensures
        named == (if is_empty {
            None
        } else {
            Some(folder)
        }),
{
    if is_empty {
        None
    } else {
        Some(folder)
    }
}

/// The folder that an environment variable with this value names; none where it is
/// empty.
pub fn resolve_env_var_folder(variable: Option<PathBuf>) -> (folder: Option<PathBuf>)
    ensures
        folder == env_folder(variable),
{
    match variable {
        Some(folder) => {
            let is_empty = paths::is_empty_path(&folder);
            unless_empty(folder, is_empty)
        },
        None => None,
    }
}

/// What is known of the directories that the system keeps configuration in.
#[derive(Debug, PartialEq, Eq)]
pub struct SystemDirs {
    /// The environment variable `XDG_CONFIG_HOME`.
    pub xdg_config_home: Option<PathBuf>,
    /// The directory that the system has for configuration.
    pub config_dir: Option<PathBuf>,
    /// Whether the folder that `dprint_dir` makes of that directory exists.
    pub dprint_dir_exists: bool,
    pub home_dir: Option<PathBuf>,
}

/// The directory for configuration on macOS.
pub open spec fn mac_system_dir(dirs: SystemDirs) -> Option<LocalPathView> {
    match env_folder(dirs.xdg_config_home) {
        Some(xdg_config_home) => Some(LocalPathView::whole(xdg_config_home)),
        None => match dirs.config_dir {
            Some(config_dir) if dirs.dprint_dir_exists => Some(LocalPathView::whole(config_dir)),
            _ => match dirs.home_dir {
                Some(home_dir) => Some(LocalPathView::whole(home_dir).join(".config"@)),
                None => None,
            },
        },
    }
}

/// The directory for configuration.
pub open spec fn system_dir(os: Seq<char>, dirs: SystemDirs) -> Option<LocalPathView> {
    if os == "macos"@ {
        mac_system_dir(dirs)
    } else {
        match dirs.config_dir {
            Some(config_dir) => Some(LocalPathView::whole(config_dir)),
            None => None,
        }
    }
}

/// For macOS, use XDG_CONFIG_HOME if available, otherwise the system config
/// directory if `dprint` exists in it, but fall back to $HOME/.config if it doesn't.
pub fn resolve_mac_system_config_dir(dirs: SystemDirs) -> (dir: Option<LocalPath>)
    ensures
        paths::optional_path(dir) == mac_system_dir(dirs),
{
    if let Some(xdg_config_home) = resolve_env_var_folder(dirs.xdg_config_home) {
        return Some(LocalPath::new(xdg_config_home));
    }
    if let Some(config_dir) = dirs.config_dir {
        if dirs.dprint_dir_exists {
            return Some(LocalPath::new(config_dir));
        }
    }
    match dirs.home_dir {
        Some(home_dir) => Some(LocalPath::new(home_dir).join(".config")),
        None => None,
    }
}

/// The directory for configuration on the operating system `os`.
pub fn resolve_system_config_dir(os: &str, dirs: SystemDirs) -> (dir: Option<LocalPath>)
    ensures
        paths::optional_path(dir) == system_dir(os@, dirs),
{
    if text::same_text(os, "macos") {
        resolve_mac_system_config_dir(dirs)
    } else {
        match dirs.config_dir {
            Some(config_dir) => Some(LocalPath::new(config_dir)),
            None => None,
        }
    }
}

/// What comes of canonicalizing the path of a folder.
#[derive(Debug, PartialEq, Eq)]
pub enum FolderOutcome<E> {
    /// The canonical path.
    Canonical(PathBuf),
    /// The folder does not exist.
    NotFound(E),
    /// The file system failed.
    Failed(E),
}

/// What finding a folder needs next.
pub ghost enum FolderStepView<E> {
    Canonicalize(LocalPathView),
    CreateParent { parent: PathBuf, file_name: Seq<char> },
    Resolved(LocalPathView),
    Failed(E),
}

/// A folder whose path is to be canonicalized.
#[derive(Debug, PartialEq, Eq)]
pub struct PendingFolder {
    pub path: LocalPath,
}

/// A folder whose parent is to be created and canonicalized.
#[derive(Debug, PartialEq, Eq)]
pub struct PendingParent {
    pub parent: PathBuf,
    pub file_name: String,
}

/// What finding a folder needs next.
#[derive(Debug, PartialEq, Eq)]
pub enum FolderStep<E> {
    /// The path is to be canonicalized.
    Canonicalize(PendingFolder),
    /// The parent is to be created with all folders above it; whether that succeeds
    /// does not matter. Then it is to be canonicalized.
    CreateParent(PendingParent),
    /// The folder is here.
    Resolved(LocalPath),
    /// The folder can't be had.
    Failed(E),
}

impl<E> View for FolderStep<E> {
    type V = FolderStepView<E>;

    open spec fn view(&self) -> FolderStepView<E> {
        match self {
            FolderStep::Canonicalize(folder) => FolderStepView::Canonicalize(folder.path@),
            FolderStep::CreateParent(pending) => FolderStepView::CreateParent {
                parent: pending.parent,
                file_name: pending.file_name@,
            },
            FolderStep::Resolved(path) => FolderStepView::Resolved(path@),
            FolderStep::Failed(error) => FolderStepView::Failed(*error),
        }
    }
}

/// What follows where a folder does not exist that is called `file_name` in `parent`.
pub open spec fn after_missing_folder<E>(
    error: E,
    parent: Option<PathBuf>,
    file_name: Option<Seq<char>>,
) -> FolderStepView<E> {
    match (parent, file_name) {
        (Some(parent), Some(file_name)) => FolderStepView::CreateParent { parent, file_name },
        _ => FolderStepView::Failed(error),
    }
}

/// What follows once the path of a folder that is called `file_name` in `parent` was
/// canonicalized.
pub open spec fn after_folder<E>(
    outcome: FolderOutcome<E>,
    parent: Option<PathBuf>,
    file_name: Option<Seq<char>>,
) -> FolderStepView<E> {
    match outcome {
        FolderOutcome::Canonical(path) => FolderStepView::Resolved(LocalPathView::whole(path)),
        FolderOutcome::NotFound(error) => after_missing_folder(error, parent, file_name),
        FolderOutcome::Failed(error) => FolderStepView::Failed(error),
    }
}

/// Whether the path leads to what is called `file_name` in `parent`.
pub open spec fn path_parts(
    path: LocalPathView,
    parent: Option<PathBuf>,
    file_name: Option<Seq<char>>,
) -> bool {
    exists|whole: PathBuf|
        #[trigger] paths::joins_all(path.base, path.joined, whole) && paths::parents(whole, parent)
            && paths::names(whole, file_name)
}

/// What follows once the parent of a folder was canonicalized.
pub open spec fn after_parent<E>(
    file_name: Seq<char>,
    outcome: Result<PathBuf, E>,
) -> FolderStepView<E> {
    match outcome {
        Ok(parent) => FolderStepView::Resolved(LocalPathView::whole(parent).join(file_name)),
        Err(error) => FolderStepView::Failed(error),
    }
}

/// Finds the folder at `path`. Where it does not exist, the folder that it is in is
/// created.
pub fn resolve_or_create_folder<E>(path: LocalPath) -> (step: FolderStep<E>)
    ensures
        step@ == FolderStepView::<E>::Canonicalize(path@),
{
    FolderStep::Canonicalize(PendingFolder { path })
}

/// Goes on where a folder does not exist that is called `file_name` in `parent`.
pub fn create_missing_folder<E>(
    error: E,
    parent: Option<PathBuf>,
    file_name: Option<String>,
) -> (step: FolderStep<E>)
    ensures
        step@ == after_missing_folder(error, parent, paths::optional_text(file_name)),
{
    match parent {
        Some(parent) => match file_name {
            Some(file_name) => FolderStep::CreateParent(PendingParent { parent, file_name }),
            None => FolderStep::Failed(error),
        },
        None => FolderStep::Failed(error),
    }
}

impl PendingFolder {
    /// Goes on with the canonical path of the folder.
    pub fn on_canonicalized<E>(self, outcome: FolderOutcome<E>) -> (step: FolderStep<E>)
        ensures
            exists|parent: Option<PathBuf>, file_name: Option<Seq<char>>| #[trigger]
                path_parts(self.path@, parent, file_name) && step@ == after_folder(
                    outcome,
                    parent,
                    file_name,
                ),
    {
        let path = self.path.to_path_buf();
        let parent = paths::parent_path(&path);
        let file_name = paths::path_file_name(&path);
        assert(path_parts(self.path@, parent, paths::optional_text(file_name)));
        match outcome {
            FolderOutcome::Canonical(path) => FolderStep::Resolved(LocalPath::new(path)),
            FolderOutcome::NotFound(error) => create_missing_folder(error, parent, file_name),
            FolderOutcome::Failed(error) => FolderStep::Failed(error),
        }
    }
}

impl PendingParent {
    /// Goes on with the canonical path of the parent.
    pub fn on_canonicalized<E>(self, outcome: Result<PathBuf, E>) -> (step: FolderStep<E>)
        ensures
            step@ == after_parent(self.file_name@, outcome),
    {
        match outcome {
            Ok(parent) => FolderStep::Resolved(
                LocalPath::new(parent).join(self.file_name.as_str()),
            ),
            Err(error) => FolderStep::Failed(error),
        }
    }
}

/// Why there is no directory for the global configuration.
#[derive(Debug, PartialEq, Eq)]
pub enum GlobalDirError<E> {
    /// The file system failed.
    Environment(E),
    /// The system has no directory for configuration.
    NoSystemDirectory,
}

impl<E> GlobalDirError<E> {
    /// The message of the error; `None` of an error of the file system, which has a
    /// message of its own.
    pub fn message(&self) -> (message: Option<String>)
        ensures
            match message {
                Some(message) => self is NoSystemDirectory && message@
                    == "Could not find system config directory."@,
                None => self is Environment,
            },
    {
        match self {
            GlobalDirError::Environment(_) => None,
            GlobalDirError::NoSystemDirectory => Some(
                "Could not find system config directory.".to_owned(),
            ),
        }
    }
}

/// What finding the directory for the global configuration needs next.
pub ghost enum GlobalDirStepView<E> {
    /// The folder at the path is to be resolved or created. Where that fails, the
    /// directory of the system is fallen back to, if that was not it.
    Resolve { path: LocalPathView, fallback: Option<Option<LocalPathView>> },
    Done(LocalPathView),
    Failed(GlobalDirError<E>),
}

/// A search for the directory that waits for a folder.
#[derive(Debug, PartialEq, Eq)]
pub struct PendingGlobalDir {
    pub path: LocalPath,
    pub fallback: Option<Option<LocalPath>>,
}

/// What finding the directory for the global configuration needs next.
#[derive(Debug, PartialEq, Eq)]
pub enum GlobalDirStep<E> {
    /// The folder at the path is to be resolved or created.
    Resolve(PendingGlobalDir),
    /// The directory is here.
    Done(LocalPath),
    /// There is no directory.
    Failed(GlobalDirError<E>),
}

impl<E> View for GlobalDirStep<E> {
    type V = GlobalDirStepView<E>;

    open spec fn view(&self) -> GlobalDirStepView<E> {
        match self {
            GlobalDirStep::Resolve(pending) => GlobalDirStepView::Resolve {
                path: pending.path@,
                fallback: match pending.fallback {
                    Some(system) => Some(paths::optional_path(system)),
                    None => None,
                },
            },
            GlobalDirStep::Done(dir) => GlobalDirStepView::Done(dir@),
            GlobalDirStep::Failed(error) => GlobalDirStepView::Failed(*error),
        }
    }
}

/// What follows a folder: the next step and, where the folder that was named could
/// not be had and the directory of the system is fallen back to, the error.
#[derive(Debug, PartialEq, Eq)]
pub struct AfterFolder<E> {
    pub step: GlobalDirStep<E>,
    pub warning: Option<E>,
}

/// The search for the directory in that of the system.
pub open spec fn search_system_dir<E>(system: Option<LocalPathView>) -> GlobalDirStepView<E> {
    match system {
        Some(dir) => GlobalDirStepView::Resolve { path: dir.join("dprint"@), fallback: None },
        None => GlobalDirStepView::Failed(GlobalDirError::NoSystemDirectory),
    }
}

/// The search for the directory.
pub open spec fn search_global_dir<E>(
    variable: Option<PathBuf>,
    system: Option<LocalPathView>,
) -> GlobalDirStepView<E> {
    match env_folder(variable) {
        Some(folder) => GlobalDirStepView::Resolve {
            path: LocalPathView::whole(folder),
            fallback: Some(system),
        },
        None => search_system_dir(system),
    }
}

/// What follows a folder.
pub open spec fn after_global_folder<E>(
    fallback: Option<Option<LocalPathView>>,
    outcome: Result<LocalPathView, E>,
) -> (GlobalDirStepView<E>, Option<E>) {
    match outcome {
        Ok(dir) => (GlobalDirStepView::Done(dir), None),
        Err(error) => match fallback {
            Some(system) => (search_system_dir(system), Some(error)),
            None => (GlobalDirStepView::Failed(GlobalDirError::Environment(error)), None),
        },
    }
}

/// The folder for the global configuration in a directory for configuration.
pub fn dprint_dir(dir: &LocalPath) -> (folder: LocalPath)
    ensures
        folder@ == dir@.join("dprint"@),
{
    dir.join("dprint")
}

fn look_in_system_dir<E>(system: Option<LocalPath>) -> (step: GlobalDirStep<E>)
    ensures
        step@ == search_system_dir::<E>(paths::optional_path(system)),
{
    match system {
        Some(dir) => GlobalDirStep::Resolve(
            PendingGlobalDir { path: dprint_dir(&dir), fallback: None },
        ),
        None => GlobalDirStep::Failed(GlobalDirError::NoSystemDirectory),
    }
}

/// Finds the directory for the global configuration: the one that the environment
/// variable `DPRINT_CONFIG_DIR` names or, where that can't be had, `dprint` in the
/// directory for configuration of the system.
pub fn resolve_global_config_dir<E>(variable: Option<PathBuf>, system: Option<LocalPath>) -> (step:
    GlobalDirStep<E>)
    ensures
        step@ == search_global_dir::<E>(variable, paths::optional_path(system)),
{
    match resolve_env_var_folder(variable) {
        Some(folder) => GlobalDirStep::Resolve(
            PendingGlobalDir { path: LocalPath::new(folder), fallback: Some(system) },
        ),
        None => look_in_system_dir(system),
    }
}

/// The outcome of finding a folder.
pub open spec fn folder_view<E>(outcome: Result<LocalPath, E>) -> Result<LocalPathView, E> {
    match outcome {
        Ok(path) => Ok(path@),
        Err(error) => Err(error),
    }
}

impl PendingGlobalDir {
    /// Goes on with the folder at the path.
    pub fn on_folder<E>(self, outcome: Result<LocalPath, E>) -> (after: AfterFolder<E>)
        ensures
            (after.step@, after.warning) == after_global_folder(
                match self.fallback {
                    Some(system) => Some(paths::optional_path(system)),
                    None => None,
                },
                folder_view(outcome),
            ),
    {
        match outcome {
            Ok(dir) => AfterFolder { step: GlobalDirStep::Done(dir), warning: None },
            Err(error) => match self.fallback {
                Some(system) => AfterFolder {
                    step: look_in_system_dir(system),
                    warning: Some(error),
                },
                None => AfterFolder {
                    step: GlobalDirStep::Failed(GlobalDirError::Environment(error)),
                    warning: None,
                },
            },
        }
    }
}

/// Whether `shown` is `text` as it is shown in yellow: between the codes of a terminal,
/// or as it is where colors are not used.
pub open spec fn in_yellow(text: Seq<char>, shown: Seq<char>) -> bool {
    shown == text || shown == "\u{1b}[0m\u{1b}[33m"@ + text + "\u{1b}[0m"@
}

/// Calls `deno_terminal::colors::yellow`.
///
/// Believed of it: the text stands between the codes that make a terminal show yellow
/// and that end it or, depending on the environment, alone.
#[verifier::external_body]
fn yellow(text: &str) -> (shown: String)
    ensures
        in_yellow(text@, shown@),
{
    deno_terminal::colors::yellow(text).to_string()
}

/// What is said of the folder `folder` after `label`.
pub open spec fn config_dir_text(label: Seq<char>, folder: Seq<char>) -> Seq<char> {
    label + " Could not resolve DPRINT_CONFIG_DIR value '"@ + folder
        + "'. Falling back to system configuration directory."@
}

/// The warning that the folder `folder`, which `DPRINT_CONFIG_DIR` names, can't be
/// had. `label` says that it is a warning.
pub fn labelled_config_dir_warning(label: &str, folder: &str) -> (warning: String)
    ensures
        warning@ == config_dir_text(label@, folder@),
{
    label.to_owned().concat(" Could not resolve DPRINT_CONFIG_DIR value '").concat(folder).concat(
        "'. Falling back to system configuration directory.",
    )
}

/// The warning that the folder `folder`, which `DPRINT_CONFIG_DIR` names, can't be
/// had.
pub fn config_dir_warning(folder: &LocalPath) -> (warning: String)
    ensures
        exists|label: Seq<char>, display: Seq<char>|
            #![trigger config_dir_text(label, display)]
            in_yellow("Warning"@, label) && paths::shown(folder@, display) && warning@
                == config_dir_text(label, display),
{
    let label = yellow("Warning");
    labelled_config_dir_warning(label.as_str(), folder.display().as_str())
}

/// What comes of looking for the global configuration.
pub ghost enum GlobalConfigView<E> {
    Found(ConfigView),
    NotFound,
    FailedResolvingSystemDir(GlobalDirError<E>),
}

/// What comes of looking for the global configuration.
#[derive(Debug, PartialEq, Eq)]
pub enum ResolveGlobalConfigPathResult<E> {
    Found(ResolvedConfigPathWithText),
    NotFound,
    FailedResolvingSystemDir(GlobalDirError<E>),
}

impl<E> View for ResolveGlobalConfigPathResult<E> {
    type V = GlobalConfigView<E>;

    open spec fn view(&self) -> GlobalConfigView<E> {
        match self {
            ResolveGlobalConfigPathResult::Found(config) => GlobalConfigView::Found(config@),
            ResolveGlobalConfigPathResult::NotFound => GlobalConfigView::NotFound,
            ResolveGlobalConfigPathResult::FailedResolvingSystemDir(
                error,
            ) => GlobalConfigView::FailedResolvingSystemDir(*error),
        }
    }
}

/// What looking for the global configuration needs next.
pub ghost enum GlobalStepView<E> {
    Read { candidates: Seq<CandidateView>, cwd: PathBuf },
    Done(GlobalConfigView<E>),
    Failed(E),
}

/// A search for the global configuration that waits for a file to be read.
#[derive(Debug, PartialEq, Eq)]
pub struct GlobalRead {
    pub search: FileSearch,
    pub cwd: PathBuf,
}

/// What looking for the global configuration needs next.
#[derive(Debug, PartialEq, Eq)]
pub enum GlobalStep<E> {
    /// The file at the path of the search is to be read, if it exists.
    Read(GlobalRead),
    /// The search is over.
    Done(ResolveGlobalConfigPathResult<E>),
    /// A file could not be read.
    Failed(E),
}

impl<E> View for GlobalStep<E> {
    type V = GlobalStepView<E>;

    open spec fn view(&self) -> GlobalStepView<E> {
        match self {
            GlobalStep::Read(read) => GlobalStepView::Read {
                candidates: read.search@,
                cwd: read.cwd,
            },
            GlobalStep::Done(result) => GlobalStepView::Done(result@),
            GlobalStep::Failed(error) => GlobalStepView::Failed(*error),
        }
    }
}

/// The global configuration that a file makes. File patterns in it are relative to
/// the current directory.
pub open spec fn global_config(found: FoundFileView, cwd: PathBuf) -> ConfigView {
    ConfigView {
        source: PathSourceView::Local { path: found.file.path(), origin: None },
        is_first_download: false,
        content: found.content,
        base_path: cwd,
        is_global_config: true,
    }
}

/// What follows a step of the search for the file.
pub open spec fn after_global_search<E>(step: SearchStepView<E>, cwd: PathBuf) -> GlobalStepView<
    E,
> {
    match step {
        SearchStepView::Read(candidates) => GlobalStepView::Read { candidates, cwd },
        SearchStepView::Found(found) => GlobalStepView::Done(
            GlobalConfigView::Found(global_config(found, cwd)),
        ),
        SearchStepView::NotFound => GlobalStepView::Done(GlobalConfigView::NotFound),
        SearchStepView::Failed(error) => GlobalStepView::Failed(error),
    }
}

/// The search for the global configuration in a directory.
pub open spec fn search_global_config<E>(
    dir: Result<LocalPathView, GlobalDirError<E>>,
    cwd: PathBuf,
) -> GlobalStepView<E> {
    match dir {
        Ok(dir) => after_global_search(
            file_search::search(
                file_search::files_in(dir, file_search::global_config_file_names()),
            ),
            cwd,
        ),
        Err(error) => GlobalStepView::Done(GlobalConfigView::FailedResolvingSystemDir(error)),
    }
}

fn global_step<E>(step: SearchStep<E>, cwd: PathBuf) -> (next: GlobalStep<E>)
    ensures
        next@ == after_global_search(step@, cwd),
{
    match step {
        SearchStep::Read(search) => GlobalStep::Read(GlobalRead { search, cwd }),
        SearchStep::Found(found) => GlobalStep::Done(
            ResolveGlobalConfigPathResult::Found(
                ResolvedConfigPathWithText {
                    source: PathSource::new_local(found.file.path()),
                    is_first_download: false,
                    content: found.content,
                    base_path: cwd,
                    is_global_config: true,
                },
            ),
        ),
        SearchStep::NotFound => GlobalStep::Done(ResolveGlobalConfigPathResult::NotFound),
        SearchStep::Failed(error) => GlobalStep::Failed(error),
    }
}

/// Looks for the global configuration in its directory, if there is one.
pub fn resolve_global_config_path_and_text_detail<E>(
    dir: Result<LocalPath, GlobalDirError<E>>,
    cwd: PathBuf,
) -> (step: GlobalStep<E>)
    ensures
        step@ == search_global_config(folder_view(dir), cwd),
{
    match dir {
        Ok(dir) => global_step(file_search::get_global_config_file_in_dir(&dir), cwd),
        Err(error) => GlobalStep::Done(
            ResolveGlobalConfigPathResult::FailedResolvingSystemDir(error),
        ),
    }
}

impl GlobalRead {
    /// Goes on with the text of the file; `Ok(None)` is that it does not exist.
    pub fn on_read<E>(self, outcome: Result<Option<String>, E>) -> (step: GlobalStep<E>)
        ensures
            step@ == after_global_search(
                file_search::search_step(self.search@, file_search::read_view(outcome)),
                self.cwd,
            ),
    {
        global_step(self.search.on_read(outcome), self.cwd)
    }
}

/// The global configuration, if there is one.
pub fn resolve_global_config_path_and_text<E>(
    outcome: Result<ResolveGlobalConfigPathResult<E>, E>,
) -> (config: Result<Option<ResolvedConfigPathWithText>, E>)
    ensures
        match outcome {
            Ok(result) => config matches Ok(config) && config_file::optional_config(config) == (
            match result@ {
                GlobalConfigView::Found(config) => Some(config),
                _ => None,
            }),
            Err(error) => config == Err::<Option<ResolvedConfigPathWithText>, E>(error),
        },
{
    match outcome {
        Ok(ResolveGlobalConfigPathResult::Found(config)) => Ok(Some(config)),
        Ok(_) => Ok(None),
        Err(error) => Err(error),
    }
}

/// Why there is no global configuration.
#[derive(Debug, PartialEq, Eq)]
pub enum GlobalConfigError<E> {
    /// The file system failed.
    Environment(E),
    /// There is no file.
    NotFound,
    /// There is no directory, for the reason given.
    NoDirectory(GlobalDirError<E>),
}

impl<E> GlobalConfigError<E> {
    /// The message of the error; `None` of an error of the file system, which has a
    /// message of its own.
    pub fn message(&self) -> (message: Option<String>)
        ensures
            match *self {
                GlobalConfigError::Environment(_) => message is None,
                GlobalConfigError::NotFound => message matches Some(message) && message@
                    == "Could not find global dprint.json file. Create one with `dprint init --global`"@,
                GlobalConfigError::NoDirectory(_) => message matches Some(message) && message@
                    == "Could not find system config directory. Maybe specify the DPRINT_CONFIG_DIR environment variable to say where to store the global dprint configuration file."@,
            },
    {
        match self {
            GlobalConfigError::Environment(_) => None,
            GlobalConfigError::NotFound => Some(
                "Could not find global dprint.json file. Create one with `dprint init --global`".to_owned(),
            ),
            GlobalConfigError::NoDirectory(_) => Some(
                "Could not find system config directory. Maybe specify the DPRINT_CONFIG_DIR environment variable to say where to store the global dprint configuration file.".to_owned(),
            ),
        }
    }
}

/// The outcome of looking for a global configuration that there has to be.
pub open spec fn required_view<E>(
    config: Result<ResolvedConfigPathWithText, GlobalConfigError<E>>,
) -> Result<ConfigView, GlobalConfigError<E>> {
    match config {
        Ok(config) => Ok(config@),
        Err(error) => Err(error),
    }
}

/// The global configuration, which there has to be.
pub open spec fn required_config<E>(outcome: Result<GlobalConfigView<E>, E>) -> Result<
    ConfigView,
    GlobalConfigError<E>,
> {
    match outcome {
        Ok(GlobalConfigView::Found(config)) => Ok(config),
        Ok(GlobalConfigView::NotFound) => Err(GlobalConfigError::NotFound),
        Ok(GlobalConfigView::FailedResolvingSystemDir(error)) => Err(
            GlobalConfigError::NoDirectory(error),
        ),
        Err(error) => Err(GlobalConfigError::Environment(error)),
    }
}

/// The outcome of looking for the global configuration.
pub open spec fn global_view<E>(outcome: Result<ResolveGlobalConfigPathResult<E>, E>) -> Result<
    GlobalConfigView<E>,
    E,
> {
    match outcome {
        Ok(result) => Ok(result@),
        Err(error) => Err(error),
    }
}

/// The global configuration, which there has to be.
pub fn resolve_global_config_path_or_error<E>(
    outcome: Result<ResolveGlobalConfigPathResult<E>, E>,
) -> (config: Result<ResolvedConfigPathWithText, GlobalConfigError<E>>)
    ensures
        required_view(config) == required_config(global_view(outcome)),
{
    match outcome {
        Ok(ResolveGlobalConfigPathResult::Found(config)) => Ok(config),
        Ok(ResolveGlobalConfigPathResult::NotFound) => Err(GlobalConfigError::NotFound),
        Ok(ResolveGlobalConfigPathResult::FailedResolvingSystemDir(error)) => Err(
            GlobalConfigError::NoDirectory(error),
        ),
        Err(error) => Err(GlobalConfigError::Environment(error)),
    }
}

/// An environment variable that is empty counts as one that is not set.
pub proof fn an_empty_variable_counts_as_unset<E>(
    variable: PathBuf,
    system: Option<LocalPathView>,
)
    requires
        paths::empty_path(LocalPathView::whole(variable)),
    ensures
        env_folder(Some(variable)) == env_folder(None),
        search_global_dir::<E>(Some(variable), system) == search_global_dir::<E>(None, system),
{
}

/// On macOS `XDG_CONFIG_HOME` comes before the directory of the system, even where
/// `dprint` exists in that.
pub proof fn xdg_config_home_comes_first(dirs: SystemDirs, folder: PathBuf)
    requires
        env_folder(dirs.xdg_config_home) == Some(folder),
    ensures
        system_dir("macos"@, dirs) == Some(LocalPathView::whole(folder)),
{
}

/// On macOS the directory of the system is only used where `dprint` exists in it, so
/// that nothing new is put there; otherwise it is as if the system had none.
pub proof fn nothing_new_is_put_in_the_mac_config_dir(dirs: SystemDirs)
    requires
        !dirs.dprint_dir_exists,
    ensures
        system_dir("macos"@, dirs) == system_dir(
            "macos"@,
            SystemDirs { config_dir: None, ..dirs },
        ),
{
}

/// On other systems only the directory of the system counts.
pub proof fn only_the_config_dir_counts_elsewhere(os: Seq<char>, dirs: SystemDirs, other: SystemDirs)
    requires
        os != "macos"@,
        dirs.config_dir == other.config_dir,
    ensures
        system_dir(os, dirs) == system_dir(os, other),
{
}

/// What comes of finding the directory, where `folders` says what comes of resolving
/// or creating a folder.
pub open spec fn global_dir_outcome<E>(
    step: GlobalDirStepView<E>,
    folders: spec_fn(LocalPathView) -> Result<LocalPathView, E>,
) -> Result<LocalPathView, GlobalDirError<E>>
    decreases
            match step {
                GlobalDirStepView::Resolve { fallback: Some(_), .. } => 2nat,
                GlobalDirStepView::Resolve { fallback: None, .. } => 1,
                _ => 0,
            },
{
    match step {
        GlobalDirStepView::Resolve { path, fallback } => global_dir_outcome(
            after_global_folder(fallback, folders(path)).0,
            folders,
        ),
        GlobalDirStepView::Done(dir) => Ok(dir),
        GlobalDirStepView::Failed(error) => Err(error),
    }
}

/// Where the folder that `DPRINT_CONFIG_DIR` names can be had, it is the directory;
/// where it can't, it is as if the variable were not set.
pub proof fn a_config_dir_that_cannot_be_had_is_ignored<E>(
    variable: Option<PathBuf>,
    system: Option<LocalPathView>,
    folder: PathBuf,
    folders: spec_fn(LocalPathView) -> Result<LocalPathView, E>,
)
    requires
        env_folder(variable) == Some(folder),
    ensures
        global_dir_outcome(search_global_dir(variable, system), folders) == (match folders(
            LocalPathView::whole(folder),
        ) {
            Ok(dir) => Ok(dir),
            Err(_) => global_dir_outcome(search_global_dir(None, system), folders),
        }),
{
    reveal_with_fuel(global_dir_outcome, 3);
}

/// A folder that exists is found as it is: nothing is created for it. Where one does
/// not exist, only the folder that it is in is created.
pub proof fn an_existing_folder_is_left_alone<E>(
    outcome: FolderOutcome<E>,
    parent: Option<PathBuf>,
    file_name: Option<Seq<char>>,
)
    ensures
        after_folder(outcome, parent, file_name) is CreateParent ==> outcome is NotFound,
        outcome matches FolderOutcome::Canonical(path) ==> after_folder(outcome, parent, file_name)
            == FolderStepView::<E>::Resolved(LocalPathView::whole(path)),
{
}

/// What comes of looking for the global configuration.
pub open spec fn global_outcome<E>(step: GlobalStepView<E>, files: Files<E>) -> Result<
    GlobalConfigView<E>,
    E,
>
    decreases
            match step {
                GlobalStepView::Read { candidates, .. } => candidates.len() + 1,
                _ => 0,
            },
{
    match step {
        GlobalStepView::Read { candidates, cwd } => if candidates.len() == 0 {
            Ok(GlobalConfigView::NotFound)
        } else {
            global_outcome(
                after_global_search(
                    file_search::search_step(candidates, files(candidates[0].path())),
                    cwd,
                ),
                files,
            )
        },
        GlobalStepView::Done(result) => Ok(result),
        GlobalStepView::Failed(error) => Err(error),
    }
}

proof fn lemma_global_outcome<E>(step: SearchStepView<E>, cwd: PathBuf, files: Files<E>)
    ensures
        global_outcome(after_global_search(step, cwd), files) == (
        match file_search::search_outcome(step, files) {
            SearchStepView::Found(found) => Ok(
                GlobalConfigView::<E>::Found(global_config(found, cwd)),
            ),
            SearchStepView::Failed(error) => Err(error),
            _ => Ok(GlobalConfigView::NotFound),
        }),
    decreases
            match step {
                SearchStepView::Read(candidates) => candidates.len() + 1,
                _ => 0,
            },
{
    if let SearchStepView::Read(candidates) = step {
        if candidates.len() > 0 {
            lemma_global_outcome(
                file_search::search_step(candidates, files(candidates[0].path())),
                cwd,
                files,
            );
        }
    }
}

/// In its directory the global configuration is `dprint.jsonc` or, where that does
/// not exist, `dprint.json`, or there is none.
pub proof fn the_global_config_is_the_first_of_its_names<E>(
    dir: LocalPathView,
    cwd: PathBuf,
    files: Files<E>,
)
    ensures
        ({
            let first = CandidateView { dir, name: "dprint.jsonc"@ };
            let second = CandidateView { dir, name: "dprint.json"@ };
            global_outcome(search_global_config(Ok(dir), cwd), files) == (match files(
                first.path(),
            ) {
                Ok(Some(content)) => Ok(
                    GlobalConfigView::<E>::Found(
                        global_config(FoundFileView { file: first, content }, cwd),
                    ),
                ),
                Err(error) => Err(error),
                Ok(None) => match files(second.path()) {
                    Ok(Some(content)) => Ok(
                        GlobalConfigView::Found(
                            global_config(FoundFileView { file: second, content }, cwd),
                        ),
                    ),
                    Err(error) => Err(error),
                    Ok(None) => Ok(GlobalConfigView::NotFound),
                },
            })
        }),
{
    let candidates = file_search::files_in(dir, file_search::global_config_file_names());
    lemma_global_outcome(file_search::search(candidates), cwd, files);
    reveal_with_fuel(file_search::search_outcome, 4);
    assert(candidates.drop_first()[0] == candidates[1]);
}

/// The global configuration is marked as such, and file patterns in it are relative to
/// the current directory.
pub proof fn the_global_configuration_is_marked_global<E>(
    dir: Result<LocalPathView, GlobalDirError<E>>,
    cwd: PathBuf,
    files: Files<E>,
)
    ensures
        global_outcome(search_global_config(dir, cwd), files) matches Ok(
            GlobalConfigView::Found(config),
        ) ==> config.is_global_config && config.base_path == cwd,
{
    if let Ok(dir) = dir {
        the_global_config_is_the_first_of_its_names(dir, cwd, files);
    }
}

} // verus!
