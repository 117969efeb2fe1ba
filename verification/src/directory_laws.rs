//! Which configuration file applies to a directory, said of the names and directories that
//! are looked at, and what each step of the search does.

use std::path::PathBuf;
use vstd::prelude::*;

use crate::cli::SubCommand;
use crate::config_file::ConfigView;
use crate::default_config;
use crate::default_config::{AncestorStepView, Canonical, DefaultsStepView, StartDirectory};
use crate::file_search;
use crate::file_search::{CandidateView, Files, FoundFileView, SearchStepView};
use crate::paths;
use crate::paths::{LocalPathView, PathSourceView};

verus! {

/// A name is joined to a path behind all that was joined to it before.
pub proof fn a_name_is_joined_last(base: PathBuf, path: LocalPathView, name: Seq<char>)
    ensures
        LocalPathView::whole(base).base == base,
        LocalPathView::whole(base).joined.len() == 0,
        path.join(name).base == path.base,
        path.join(name).joined == path.joined + seq![name],
{
    assert(path.joined.push(name) =~= path.joined + seq![name]);
}

/// Nothing joined to a path leaves it as it is, and the last of several names is joined to
/// what the others make.
pub proof fn names_are_joined_in_turn(
    base: PathBuf,
    names: Seq<Seq<char>>,
    before: PathBuf,
    name: Seq<char>,
    path: PathBuf,
    os: Seq<char>,
)
    ensures
        paths::joins_all(base, Seq::empty(), path) <==> path == base,
        paths::joins_all(base, names, before) && paths::join_on(
            os,
            LocalPathView::whole(before),
            name,
        ) == LocalPathView::whole(path) ==> paths::joins_all(base, names.push(name), path),
        paths::joins_all(base, names.push(name), path) ==> exists|middle: PathBuf, on: Seq<char>|
            paths::joins_all(base, names, middle) && #[trigger] paths::join_on(
                on,
                LocalPathView::whole(middle),
                name,
            ) == LocalPathView::whole(path),
{
    let longer = names.push(name);
    assert(longer.drop_last() =~= names);
    assert(longer.last() == name);
    if paths::joins_all(base, names, before) && paths::join_on(
        os,
        LocalPathView::whole(before),
        name,
    ) == LocalPathView::whole(path) {
        assert(paths::joins(before, name, path));
    }
    if paths::joins_all(base, longer, path) {
        let middle = choose|middle: PathBuf|
            paths::joins_all(base, longer.drop_last(), middle) && #[trigger] paths::joins(
                middle,
                longer.last(),
                path,
            );
        assert(paths::joins_all(base, names, middle));
        assert(paths::joins(middle, name, path));
        let on = choose|on: Seq<char>|
            #[trigger] paths::join_on(on, LocalPathView::whole(middle), name)
                == LocalPathView::whole(path);
        assert(paths::join_on(on, LocalPathView::whole(middle), name) == LocalPathView::whole(
            path,
        ));
    }
}

/// In a directory the names are tried in this order: `dprint.json`, `dprint.jsonc`,
/// `.dprint.json`, `.dprint.jsonc`, and no other.
pub proof fn the_names_are_tried_in_order(dir: LocalPathView)
    ensures
        ({
            let files = file_search::files_in(dir, file_search::config_file_names());
            &&& files.len() == 4
            &&& forall|i: int| 0 <= i < 4 ==> (#[trigger] files[i]).dir == dir
            &&& files[0].name == "dprint.json"@
            &&& files[1].name == "dprint.jsonc"@
            &&& files[2].name == ".dprint.json"@
            &&& files[3].name == ".dprint.jsonc"@
        }),
        ({
            let files = file_search::files_in(dir, file_search::global_config_file_names());
            &&& files.len() == 2
            &&& forall|i: int| 0 <= i < 2 ==> (#[trigger] files[i]).dir == dir
            &&& files[0].name == "dprint.jsonc"@
            &&& files[1].name == "dprint.json"@
        }),
{
}

/// Another directory is searched behind all those before it.
pub proof fn another_directory_is_searched_last(dirs: Seq<PathBuf>, dir: PathBuf)
    ensures
        file_search::files_in_all(Seq::empty(), file_search::config_file_names()) == Seq::<
            CandidateView,
        >::empty(),
        file_search::files_in_all(dirs.push(dir), file_search::config_file_names())
            == file_search::files_in_all(dirs, file_search::config_file_names())
            + file_search::files_in(LocalPathView::whole(dir), file_search::config_file_names()),
{
    assert(dirs.push(dir).drop_last() =~= dirs);
}

/// A search reads its files one after the other, and ends with the first that is there or
/// can't be read.
pub proof fn a_search_reads_one_file_after_the_other<E>(
    candidate: CandidateView,
    rest: Seq<CandidateView>,
    content: Seq<char>,
    error: E,
)
    ensures
        ({
            let all = seq![candidate] + rest;
            &&& file_search::search::<E>(Seq::empty()) == SearchStepView::<E>::NotFound
            &&& file_search::search::<E>(all) == SearchStepView::<E>::Read(all)
            &&& file_search::search_step::<E>(all, Ok(Some(content))) == SearchStepView::<E>::Found(
                FoundFileView { file: candidate, content },
            )
            &&& file_search::search_step::<E>(all, Ok(None)) == file_search::search::<E>(rest)
            &&& file_search::search_step(all, Err(error)) == SearchStepView::<E>::Failed(error)
            &&& candidate.path().base == candidate.dir.base
            &&& candidate.path().joined == candidate.dir.joined.push(candidate.name)
        }),
{
    let all = seq![candidate] + rest;
    assert(all[0] == candidate);
    assert(all.drop_first() =~= rest);
}

/// The search starts in the current directory, whatever the sub command. Only where stdin
/// is formatted as a file with an absolute path does it start in the canonical form of the
/// directory of that file, if it has one.
pub proof fn only_formatting_stdin_starts_elsewhere(
    sub_command: SubCommand,
    parent: PathBuf,
    anything: Option<PathBuf>,
    is_absolute: bool,
    cwd: PathBuf,
)
    ensures
        sub_command is StdInFmt ==> default_config::start_directory(
            sub_command,
            true,
            Some(parent),
            cwd,
        ) == StartDirectory::Canonicalize(parent),
        default_config::start_directory(sub_command, false, anything, cwd) == StartDirectory::Known(
            cwd,
        ),
        default_config::start_directory(sub_command, is_absolute, None, cwd)
            == StartDirectory::Known(cwd),
        match sub_command {
            SubCommand::StdInFmt(_) => true,
            SubCommand::Config(_) => default_config::start_directory(
                sub_command,
                is_absolute,
                anything,
                cwd,
            ) == StartDirectory::Known(cwd),
            SubCommand::EditorService(_) => default_config::start_directory(
                sub_command,
                is_absolute,
                anything,
                cwd,
            ) == StartDirectory::Known(cwd),
            SubCommand::Lsp => default_config::start_directory(
                sub_command,
                is_absolute,
                anything,
                cwd,
            ) == StartDirectory::Known(cwd),
            SubCommand::EditorInfo => default_config::start_directory(
                sub_command,
                is_absolute,
                anything,
                cwd,
            ) == StartDirectory::Known(cwd),
            SubCommand::Version => default_config::start_directory(
                sub_command,
                is_absolute,
                anything,
                cwd,
            ) == StartDirectory::Known(cwd),
            SubCommand::Other => default_config::start_directory(
                sub_command,
                is_absolute,
                anything,
                cwd,
            ) == StartDirectory::Known(cwd),
        },
{
}

/// The directory of a file path is what `Path::parent` makes of the path that its text is
/// read as, and the directories above one start with it and are what `Path::ancestors`
/// makes of it.
pub proof fn directories_are_those_of_the_path(
    text: Seq<char>,
    parent: Option<PathBuf>,
    start: PathBuf,
    dirs: Seq<PathBuf>,
)
    ensures
        default_config::directory_of(text, parent) ==> exists|os: Seq<char>|
            #[trigger] paths::parent_on(os, paths::path_of(text)) == paths::whole_path(parent),
        paths::climbs(start, dirs) ==> dirs.len() > 0 && dirs[0] == start && exists|os: Seq<char>|
            #[trigger] paths::ancestors_on(os, LocalPathView::whole(start)) == paths::whole_paths(
                dirs,
            ),
{
    if default_config::directory_of(text, parent) {
        let path = choose|path: PathBuf|
            LocalPathView::whole(path) == paths::path_of(text) && #[trigger] paths::parents(
                path,
                parent,
            );
        let os = choose|os: Seq<char>|
            #[trigger] paths::parent_on(os, LocalPathView::whole(path)) == paths::whole_path(
                parent,
            );
        assert(paths::parent_on(os, paths::path_of(text)) == paths::whole_path(parent));
    }
}

/// The configuration that a file of the directory where the search starts makes is read
/// from the canonical path of that file, and file patterns in it are relative to the
/// directory. It is neither a download nor the global one.
pub proof fn a_file_of_the_first_directory_applies<E>(
    found: FoundFileView,
    dir: PathBuf,
    path: PathBuf,
    error: E,
    files: Files<E>,
    canonical: Canonical<E>,
)
    ensures
        ({
            let step = DefaultsStepView::CanonicalizeFile { found, dir };
            let outcome = default_config::defaults_outcome(step, files, canonical);
            &&& canonical(found.file.path()) == Ok::<PathBuf, E>(path) ==> outcome == Ok::<
                Option<ConfigView>,
                E,
            >(
                Some(
                    ConfigView {
                        source: PathSourceView::Local {
                            path: LocalPathView { base: path, joined: Seq::empty() },
                            origin: None,
                        },
                        is_first_download: false,
                        content: found.content,
                        base_path: dir,
                        is_global_config: false,
                    },
                ),
            )
            &&& canonical(found.file.path()) == Err::<PathBuf, E>(error) ==> outcome == Err::<
                Option<ConfigView>,
                E,
            >(error)
        }),
{
}

/// The configuration that a file found above makes is read from the canonical path of that
/// file, and file patterns in it are relative to the canonical form of its directory. It is
/// neither a download nor the global one.
pub proof fn a_file_found_above_applies<E>(
    found: FoundFileView,
    path: PathBuf,
    dir: PathBuf,
    error: E,
    files: Files<E>,
    canonical: Canonical<E>,
)
    ensures
        ({
            let step = AncestorStepView::<E>::CanonicalizeFile(found);
            let outcome = default_config::ancestor_outcome(step, files, canonical);
            &&& canonical(found.file.path()) == Err::<PathBuf, E>(error) ==> outcome == Err::<
                Option<ConfigView>,
                E,
            >(error)
            &&& canonical(found.file.path()) == Ok::<PathBuf, E>(path) && canonical(found.file.dir)
                == Err::<PathBuf, E>(error) ==> outcome == Err::<Option<ConfigView>, E>(error)
            &&& canonical(found.file.path()) == Ok::<PathBuf, E>(path) && canonical(found.file.dir)
                == Ok::<PathBuf, E>(dir) ==> outcome == Ok::<Option<ConfigView>, E>(
                Some(
                    ConfigView {
                        source: PathSourceView::Local {
                            path: LocalPathView { base: path, joined: Seq::empty() },
                            origin: None,
                        },
                        is_first_download: false,
                        content: found.content,
                        base_path: dir,
                        is_global_config: false,
                    },
                ),
            )
        }),
{
    reveal_with_fuel(default_config::ancestor_outcome, 3);
}

/// Each step of the search above passes on what the step before it found: a file that was
/// found is made canonical, then its directory; where there is none the search is over, and
/// an error ends it.
pub proof fn the_search_above_goes_on_step_by_step<E>(
    candidates: Seq<CandidateView>,
    found: FoundFileView,
    path: PathBuf,
    error: E,
)
    ensures
        default_config::after_ancestor_search(SearchStepView::<E>::Read(candidates))
            == AncestorStepView::<E>::Read(candidates),
        default_config::after_ancestor_search(SearchStepView::<E>::Found(found))
            == AncestorStepView::<E>::CanonicalizeFile(found),
        default_config::after_ancestor_search(SearchStepView::<E>::NotFound)
            == AncestorStepView::<E>::Done(None),
        default_config::after_ancestor_search(SearchStepView::<E>::Failed(error))
            == AncestorStepView::<E>::Failed(error),
        default_config::after_ancestor_file::<E>(found, Ok(path))
            == AncestorStepView::<E>::CanonicalizeDir(found, path),
        default_config::after_ancestor_file(found, Err(error)) == AncestorStepView::<E>::Failed(
            error,
        ),
        default_config::after_ancestor_dir(found, path, Err(error))
            == AncestorStepView::<E>::Failed(error),
{
}

/// The search that starts in a known directory looks for the four names there, with the
/// directory as what file patterns are relative to; one whose first directory has to be
/// canonical waits for that, and fails where that does.
pub proof fn the_search_starts_where_it_is_told_to<E>(
    dir: PathBuf,
    canonical_dir: PathBuf,
    above: Seq<PathBuf>,
    error: E,
    files: Files<E>,
    canonical: Canonical<E>,
)
    ensures
        ({
            let known = default_config::search_defaults::<E>(StartDirectory::Known(dir), above);
            let waiting = default_config::search_defaults::<E>(
                StartDirectory::Canonicalize(dir),
                above,
            );
            let whole = LocalPathView { base: dir, joined: Seq::empty() };
            &&& match known {
                DefaultsStepView::Read { candidates, dir: base, above: rest } => {
                    &&& candidates.len() == 4
                    &&& forall|i: int| 0 <= i < 4 ==> (#[trigger] candidates[i]).dir == whole
                    &&& candidates[0].name == "dprint.json"@
                    &&& candidates[1].name == "dprint.jsonc"@
                    &&& candidates[2].name == ".dprint.json"@
                    &&& candidates[3].name == ".dprint.jsonc"@
                    &&& base == dir
                    &&& rest == above
                },
                _ => false,
            }
            &&& waiting == DefaultsStepView::<E>::CanonicalizeStart { dir, above }
            &&& canonical(whole) == Ok::<PathBuf, E>(canonical_dir)
                ==> default_config::defaults_outcome(waiting, files, canonical)
                == default_config::defaults_outcome(
                default_config::search_defaults::<E>(StartDirectory::Known(canonical_dir), above),
                files,
                canonical,
            )
            &&& canonical(whole) == Err::<PathBuf, E>(error) ==> default_config::defaults_outcome(
                waiting,
                files,
                canonical,
            ) == Err::<Option<ConfigView>, E>(error)
        }),
{
    reveal_with_fuel(default_config::defaults_outcome, 2);
}

/// What the first directory answers decides: a file that is there is made canonical, an
/// error ends the search, and where there is none the directories above are searched, the
/// first of them first.
pub proof fn the_first_directory_is_followed_by_those_above<E>(
    candidates: Seq<CandidateView>,
    found: FoundFileView,
    dir: PathBuf,
    nearest: PathBuf,
    farther: Seq<PathBuf>,
    error: E,
)
    ensures
        ({
            let above = seq![nearest] + farther;
            let nearest_dir = LocalPathView { base: nearest, joined: Seq::empty() };
            &&& default_config::after_start_search(
                SearchStepView::<E>::Read(candidates),
                dir,
                above,
            ) == DefaultsStepView::<E>::Read { candidates, dir, above }
            &&& default_config::after_start_search(SearchStepView::<E>::Found(found), dir, above)
                == DefaultsStepView::<E>::CanonicalizeFile { found, dir }
            &&& default_config::after_start_search(SearchStepView::<E>::Failed(error), dir, above)
                == DefaultsStepView::<E>::Failed(error)
            &&& match default_config::after_start_search(SearchStepView::<E>::NotFound, dir, above) {
                DefaultsStepView::Ancestors(AncestorStepView::Read(files)) => {
                    &&& files.len() == 4 * above.len()
                    &&& files[0] == (CandidateView { dir: nearest_dir, name: "dprint.json"@ })
                    &&& files[1] == (CandidateView { dir: nearest_dir, name: "dprint.jsonc"@ })
                    &&& files[2] == (CandidateView { dir: nearest_dir, name: ".dprint.json"@ })
                    &&& files[3] == (CandidateView { dir: nearest_dir, name: ".dprint.jsonc"@ })
                },
                _ => false,
            }
        }),
{
    let above = seq![nearest] + farther;
    let names = file_search::config_file_names();
    lemma_four_files_each(above);
    file_search::directories_are_searched_in_order(above, names, 0, 0);
    file_search::directories_are_searched_in_order(above, names, 0, 1);
    file_search::directories_are_searched_in_order(above, names, 0, 2);
    file_search::directories_are_searched_in_order(above, names, 0, 3);
}

proof fn lemma_four_files_each(dirs: Seq<PathBuf>)
    ensures
        file_search::files_in_all(dirs, file_search::config_file_names()).len() == 4 * dirs.len(),
    decreases dirs.len(),
{
    if dirs.len() > 0 {
        lemma_four_files_each(dirs.drop_last());
    }
}

} // verus!
