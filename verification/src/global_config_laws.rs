//! Where the global configuration is, said of what the environment and the file system
//! answer, and what each step of the search for it does.

use std::path::PathBuf;
use vstd::prelude::*;

use crate::config_file::ConfigView;
use crate::file_search::{CandidateView, FoundFileView, SearchStepView};
use crate::global_config;
use crate::global_config::{
    FolderOutcome, FolderStepView, GlobalConfigError, GlobalConfigView, GlobalDirError,
    GlobalDirStepView, GlobalStepView, SystemDirs,
};
use crate::paths;
use crate::paths::{LocalPathView, PathSourceView};

verus! {

/// An environment variable names the folder that is its value, unless that is empty or the
/// variable is not set.
pub proof fn a_variable_names_its_value(folder: PathBuf)
    ensures
        ({
            let whole = LocalPathView { base: folder, joined: Seq::empty() };
            &&& !paths::empty_path(whole) ==> global_config::env_folder(Some(folder)) == Some(folder)
            &&& paths::empty_path(whole) ==> global_config::env_folder(Some(folder)) is None
            &&& global_config::env_folder(None) is None
        }),
{
}

/// On macOS the directory for configuration is the one that `XDG_CONFIG_HOME` names; where
/// that is empty or not set, the one of the system if `dprint` exists in it; and otherwise
/// `.config` in the home directory, if there is one.
pub proof fn the_mac_directory_is_the_first_of_three(
    folder: PathBuf,
    config_dir: PathBuf,
    home_dir: PathBuf,
    dirs: SystemDirs,
)
    ensures
        ({
            let whole = LocalPathView { base: folder, joined: Seq::empty() };
            let named = dirs.xdg_config_home == Some(folder) && !paths::empty_path(whole);
            let unnamed = dirs.xdg_config_home is None || dirs.xdg_config_home == Some(folder)
                && paths::empty_path(whole);
            let dir = global_config::system_dir("macos"@, dirs);
            &&& named ==> dir == Some(whole)
            &&& unnamed && dirs.config_dir == Some(config_dir) && dirs.dprint_dir_exists ==> dir
                == Some(LocalPathView { base: config_dir, joined: Seq::empty() })
            &&& unnamed && (dirs.config_dir is None || !dirs.dprint_dir_exists) && dirs.home_dir
                == Some(home_dir) ==> dir == Some(
                LocalPathView { base: home_dir, joined: seq![".config"@] },
            )
            &&& unnamed && (dirs.config_dir is None || !dirs.dprint_dir_exists) && dirs.home_dir
                is None ==> dir is None
        }),
{
    assert(Seq::<Seq<char>>::empty().push(".config"@) =~= seq![".config"@]);
}

/// On any other system the directory for configuration is the one of the system, if there
/// is one, whatever `XDG_CONFIG_HOME`, the home directory and `dprint` in it are.
pub proof fn elsewhere_the_directory_is_the_one_of_the_system(
    os: Seq<char>,
    config_dir: PathBuf,
    dirs: SystemDirs,
)
    requires
        os != "macos"@,
    ensures
        ({
            let dir = global_config::system_dir(os, dirs);
            &&& dirs.config_dir == Some(config_dir) ==> dir == Some(
                LocalPathView { base: config_dir, joined: Seq::empty() },
            )
            &&& dirs.config_dir is None ==> dir is None
        }),
{
}

/// The folder for the global configuration is the one that `DPRINT_CONFIG_DIR` names, as it
/// is, with the directory of the system to fall back to. Where the variable is empty or not
/// set it is `dprint` in the directory of the system, with nothing to fall back to; and
/// without such a directory there is an error.
pub proof fn the_variable_comes_before_the_system<E>(
    folder: PathBuf,
    variable: Option<PathBuf>,
    system: LocalPathView,
    anything: Option<LocalPathView>,
)
    ensures
        ({
            let whole = LocalPathView { base: folder, joined: Seq::empty() };
            let unnamed = variable is None || variable == Some(folder) && paths::empty_path(whole);
            &&& variable == Some(folder) && !paths::empty_path(whole)
                ==> global_config::search_global_dir::<E>(variable, anything)
                == GlobalDirStepView::<E>::Resolve { path: whole, fallback: Some(anything) }
            &&& unnamed ==> global_config::search_global_dir::<E>(variable, Some(system))
                == GlobalDirStepView::<E>::Resolve {
                path: LocalPathView { base: system.base, joined: system.joined.push("dprint"@) },
                fallback: None,
            }
            &&& unnamed ==> global_config::search_global_dir::<E>(variable, None)
                == GlobalDirStepView::<E>::Failed(GlobalDirError::NoSystemDirectory)
        }),
{
}

/// A folder that could be had is the directory. One that could not is warned of where the
/// directory of the system is fallen back to, and is the error where it is not.
pub proof fn a_folder_that_cant_be_had_is_warned_of<E>(
    dir: LocalPathView,
    fallback: Option<Option<LocalPathView>>,
    system: LocalPathView,
    error: E,
)
    ensures
        ({
            let (found, silent) = global_config::after_global_folder::<E>(fallback, Ok(dir));
            let (next, warning) = global_config::after_global_folder(
                Some(Some(system)),
                Err(error),
            );
            let (nowhere, warned) = global_config::after_global_folder(Some(None), Err(error));
            let (failed, passed) = global_config::after_global_folder(None, Err(error));
            &&& found == GlobalDirStepView::<E>::Done(dir)
            &&& silent is None
            &&& next == GlobalDirStepView::<E>::Resolve {
                path: LocalPathView { base: system.base, joined: system.joined.push("dprint"@) },
                fallback: None,
            }
            &&& warning == Some(error)
            &&& nowhere == GlobalDirStepView::<E>::Failed(GlobalDirError::NoSystemDirectory)
            &&& warned == Some(error)
            &&& failed == GlobalDirStepView::<E>::Failed(GlobalDirError::Environment(error))
            &&& passed is None
        }),
{
}

/// A folder that exists is its canonical path. Where it does not exist its parent is
/// created, if it has a parent and a name, and the folder is that name in the canonical
/// parent. Every other failure is passed on.
pub proof fn a_missing_folder_is_the_name_in_its_parent<E>(
    path: PathBuf,
    parent: PathBuf,
    file_name: Seq<char>,
    any_parent: Option<PathBuf>,
    any_name: Option<Seq<char>>,
    canonical: PathBuf,
    error: E,
)
    ensures
        ({
            let whole = LocalPathView { base: path, joined: Seq::empty() };
            let named = LocalPathView { base: canonical, joined: seq![file_name] };
            &&& global_config::after_folder(
                FolderOutcome::<E>::Canonical(path),
                any_parent,
                any_name,
            ) == FolderStepView::<E>::Resolved(whole)
            &&& global_config::after_folder(
                FolderOutcome::NotFound(error),
                Some(parent),
                Some(file_name),
            ) == FolderStepView::<E>::CreateParent { parent, file_name }
            &&& any_parent is None || any_name is None ==> global_config::after_folder(
                FolderOutcome::NotFound(error),
                any_parent,
                any_name,
            ) == FolderStepView::<E>::Failed(error)
            &&& global_config::after_folder(FolderOutcome::Failed(error), any_parent, any_name)
                == FolderStepView::<E>::Failed(error)
            &&& global_config::after_parent::<E>(file_name, Ok(canonical)) == FolderStepView::<
                E,
            >::Resolved(named)
            &&& global_config::after_parent(file_name, Err(error)) == FolderStepView::<E>::Failed(
                error,
            )
        }),
{
    assert(Seq::<Seq<char>>::empty().push(file_name) =~= seq![file_name]);
}

/// The parent and the name of a path are those of the path that joining its names makes on
/// one machine.
pub proof fn the_parts_of_a_path_are_those_of_the_whole(
    base: PathBuf,
    parent: Option<PathBuf>,
    file_name: Option<Seq<char>>,
)
    ensures
        ({
            let path = LocalPathView { base, joined: Seq::empty() };
            global_config::path_parts(path, parent, file_name) <==> (exists|os: Seq<char>|
                #[trigger] paths::parent_on(os, path) == paths::whole_path(parent)) && (exists|
                os: Seq<char>,
            | #[trigger] paths::file_name_on(os, path) == file_name)
        }),
{
    let path = LocalPathView { base, joined: Seq::<Seq<char>>::empty() };
    assert(path == LocalPathView::whole(base));
    if paths::parents(base, parent) && paths::names(base, file_name) {
        assert(paths::joins_all(path.base, path.joined, base));
    }
}

/// The file that is found in the directory is the global configuration: it is read where it
/// is, file patterns in it are relative to the current directory, and it is marked as the
/// global one. Without a file, or without a directory, there is none.
pub proof fn the_file_that_is_found_is_the_global_configuration<E>(
    found: FoundFileView,
    candidates: Seq<CandidateView>,
    dir: LocalPathView,
    cwd: PathBuf,
    error: E,
    missing: GlobalDirError<E>,
)
    ensures
        ({
            let path = LocalPathView {
                base: found.file.dir.base,
                joined: found.file.dir.joined.push(found.file.name),
            };
            let config = ConfigView {
                source: PathSourceView::Local { path, origin: None },
                is_first_download: false,
                content: found.content,
                base_path: cwd,
                is_global_config: true,
            };
            &&& global_config::after_global_search(SearchStepView::<E>::Found(found), cwd)
                == GlobalStepView::<E>::Done(GlobalConfigView::Found(config))
            &&& global_config::after_global_search(SearchStepView::<E>::Read(candidates), cwd)
                == GlobalStepView::<E>::Read { candidates, cwd }
            &&& global_config::after_global_search(SearchStepView::<E>::NotFound, cwd)
                == GlobalStepView::<E>::Done(GlobalConfigView::NotFound)
            &&& global_config::after_global_search(SearchStepView::<E>::Failed(error), cwd)
                == GlobalStepView::<E>::Failed(error)
            &&& global_config::search_global_config(
                Err::<LocalPathView, GlobalDirError<E>>(missing),
                cwd,
            ) == GlobalStepView::<E>::Done(GlobalConfigView::FailedResolvingSystemDir(missing))
            &&& match global_config::search_global_config::<E>(Ok(dir), cwd) {
                GlobalStepView::Read { candidates, cwd: base } => {
                    &&& candidates == seq![
                        CandidateView { dir, name: "dprint.jsonc"@ },
                        CandidateView { dir, name: "dprint.json"@ },
                    ]
                    &&& base == cwd
                },
                _ => false,
            }
        }),
{
    match global_config::search_global_config::<E>(Ok(dir), cwd) {
        GlobalStepView::Read { candidates, .. } => {
            assert(candidates =~= seq![
                CandidateView { dir, name: "dprint.jsonc"@ },
                CandidateView { dir, name: "dprint.json"@ },
            ]);
        },
        _ => {},
    }
}

/// Where there has to be a global configuration, that there is none, or no directory for
/// it, is an error, and so is a failure of the search.
pub proof fn a_required_global_configuration_has_to_be_found<E>(
    config: ConfigView,
    missing: GlobalDirError<E>,
    error: E,
)
    ensures
        global_config::required_config::<E>(Ok(GlobalConfigView::Found(config))) == Ok::<
            ConfigView,
            GlobalConfigError<E>,
        >(config),
        global_config::required_config::<E>(Ok(GlobalConfigView::NotFound)) == Err::<
            ConfigView,
            GlobalConfigError<E>,
        >(GlobalConfigError::NotFound),
        global_config::required_config(Ok(GlobalConfigView::FailedResolvingSystemDir(missing)))
            == Err::<ConfigView, GlobalConfigError<E>>(GlobalConfigError::NoDirectory(missing)),
        global_config::required_config(Err(error)) == Err::<ConfigView, GlobalConfigError<E>>(
            GlobalConfigError::Environment(error),
        ),
{
}

/// The warning of a folder that can't be had holds the label and the folder as they stand.
pub proof fn the_warning_names_the_folder(label: Seq<char>, folder: Seq<char>)
    ensures
        global_config::config_dir_text(label, folder) == label
            + " Could not resolve DPRINT_CONFIG_DIR value '"@ + folder
            + "'. Falling back to system configuration directory."@,
{
}

} // verus!
