//! The search for the first of several files that exists.

use std::path::PathBuf;
use vstd::prelude::*;

use crate::paths::{LocalPath, LocalPathView};

verus! {

/// A file to look for.
pub ghost struct CandidateView {
    pub dir: LocalPathView,
    pub name: Seq<char>,
}

impl CandidateView {
    /// The path of the file.
    pub open spec fn path(self) -> LocalPathView {
        self.dir.join(self.name)
    }
}

/// A file to look for.
#[derive(Debug, PartialEq, Eq)]
pub struct Candidate {
    pub dir: LocalPath,
    pub name: String,
}

impl View for Candidate {
    type V = CandidateView;

    open spec fn view(&self) -> CandidateView {
        CandidateView { dir: self.dir@, name: self.name@ }
    }
}

impl Clone for Candidate {
    fn clone(&self) -> (copy: Self)
        ensures
            copy@ == self@,
    {
        Candidate { dir: self.dir.clone(), name: self.name.clone() }
    }
}

impl Candidate {
    /// The path of the file.
    pub fn path(&self) -> (path: LocalPath)
        ensures
            path@ == self@.path(),
    {
        self.dir.join(self.name.as_str())
    }
}

/// What a list of files to look for says.
pub open spec fn candidates_view(candidates: Seq<Candidate>) -> Seq<CandidateView> {
    Seq::new(candidates.len(), |i: int| candidates[i]@)
}

/// A file that was found, with its text.
pub ghost struct FoundFileView {
    pub file: CandidateView,
    pub content: Seq<char>,
}

/// A file that was found, with its text.
#[derive(Debug, PartialEq, Eq)]
pub struct FoundFile {
    pub file: Candidate,
    pub content: String,
}

impl View for FoundFile {
    type V = FoundFileView;

    open spec fn view(&self) -> FoundFileView {
        FoundFileView { file: self.file@, content: self.content@ }
    }
}

/// What a search needs next.
pub ghost enum SearchStepView<E> {
    /// The first of the files that are left is to be read.
    Read(Seq<CandidateView>),
    Found(FoundFileView),
    NotFound,
    Failed(E),
}

/// A search for the first of these files.
pub open spec fn search<E>(candidates: Seq<CandidateView>) -> SearchStepView<E> {
    if candidates.len() == 0 {
        SearchStepView::NotFound
    } else {
        SearchStepView::Read(candidates)
    }
}

/// What follows once the first of these files was looked at.
pub open spec fn search_step<E>(
    candidates: Seq<CandidateView>,
    outcome: Result<Option<Seq<char>>, E>,
) -> SearchStepView<E> {
    match outcome {
        Ok(Some(content)) => SearchStepView::Found(FoundFileView { file: candidates[0], content }),
        Ok(None) => search(candidates.drop_first()),
        Err(error) => SearchStepView::Failed(error),
    }
}

/// A search that waits for a file to be read.
#[derive(Debug, PartialEq, Eq)]
pub struct FileSearch {
    candidates: Vec<Candidate>,
    next: usize,
}

impl View for FileSearch {
    type V = Seq<CandidateView>;

    /// The files that are left.
    closed spec fn view(&self) -> Seq<CandidateView> {
        candidates_view(self.candidates@).skip(self.next as int)
    }
}

/// What a search needs next.
#[derive(Debug, PartialEq, Eq)]
pub enum SearchStep<E> {
    /// The file at the path of the search is to be read, if it exists.
    Read(FileSearch),
    /// This is the first file that exists.
    Found(FoundFile),
    /// None of the files exists.
    NotFound,
    /// A file could not be read.
    Failed(E),
}

impl<E> View for SearchStep<E> {
    type V = SearchStepView<E>;

    open spec fn view(&self) -> SearchStepView<E> {
        match self {
            SearchStep::Read(search) => SearchStepView::Read(search@),
            SearchStep::Found(found) => SearchStepView::Found(found@),
            SearchStep::NotFound => SearchStepView::NotFound,
            SearchStep::Failed(error) => SearchStepView::Failed(*error),
        }
    }
}

/// The text of a file that may not exist, or why it could not be read.
pub open spec fn read_view<E>(outcome: Result<Option<String>, E>) -> Result<Option<Seq<char>>, E> {
    match outcome {
        Ok(Some(content)) => Ok(Some(content@)),
        Ok(None) => Ok(None),
        Err(error) => Err(error),
    }
}

impl FileSearch {
    #[verifier::type_invariant]
    spec fn valid(self) -> bool {
        self.next < self.candidates@.len()
    }

    fn at<E>(candidates: Vec<Candidate>, next: usize) -> (step: SearchStep<E>)
        requires
            next <= candidates@.len(),
        ensures
            step@ == search::<E>(candidates_view(candidates@).skip(next as int)),
    {
        if next < candidates.len() {
            SearchStep::Read(FileSearch { candidates, next })
        } else {
            SearchStep::NotFound
        }
    }

    /// Starts to look for the first of these files.
    pub fn start<E>(candidates: Vec<Candidate>) -> (step: SearchStep<E>)
        ensures
            step@ == search::<E>(candidates_view(candidates@)),
    {
        assert(candidates_view(candidates@).skip(0) =~= candidates_view(candidates@));
        FileSearch::at(candidates, 0)
    }

    /// The path of the file to read.
    pub fn path(&self) -> (path: LocalPath)
        ensures
            self@.len() > 0,
            path@ == self@[0].path(),
    {
        proof {
            use_type_invariant(self);
        }
        self.candidates[self.next].path()
    }

    /// Goes on with the text of the file; `Ok(None)` is that it does not exist.
    pub fn on_read<E>(self, outcome: Result<Option<String>, E>) -> (step: SearchStep<E>)
        ensures
            step@ == search_step(self@, read_view(outcome)),
    {
        proof {
            use_type_invariant(&self);
        }
        match outcome {
            Ok(Some(content)) => SearchStep::Found(
                FoundFile { file: self.candidates[self.next].clone(), content },
            ),
            Ok(None) => {
                assert(self@.drop_first() =~= candidates_view(self.candidates@).skip(
                    self.next + 1,
                ));
                let next: usize = self.next;
                assert(next < self.candidates.len());
                FileSearch::at(self.candidates, next + 1)
            },
            Err(error) => SearchStep::Failed(error),
        }
    }
}

/// The names that a configuration file may have, the preferred one first.
pub open spec fn config_file_names() -> Seq<Seq<char>> {
    seq!["dprint.json"@, "dprint.jsonc"@, ".dprint.json"@, ".dprint.jsonc"@]
}

/// The names that a global configuration file may have, the preferred one first.
pub open spec fn global_config_file_names() -> Seq<Seq<char>> {
    seq!["dprint.jsonc"@, "dprint.json"@]
}

/// The files with these names in a directory.
pub open spec fn files_in(dir: LocalPathView, names: Seq<Seq<char>>) -> Seq<CandidateView> {
    Seq::new(names.len(), |i: int| CandidateView { dir, name: names[i] })
}

/// The files with these names in each of the directories in turn.
pub open spec fn files_in_all(dirs: Seq<PathBuf>, names: Seq<Seq<char>>) -> Seq<CandidateView>
    decreases dirs.len(),
{
    if dirs.len() == 0 {
        Seq::empty()
    } else {
        files_in_all(dirs.drop_last(), names) + files_in(LocalPathView::whole(dirs.last()), names)
    }
}

fn push_file(candidates: &mut Vec<Candidate>, dir: &LocalPath, name: &str)
    ensures
        candidates_view(final(candidates)@) == candidates_view(old(candidates)@).push(
            CandidateView { dir: dir@, name: name@ },
        ),
{
    let ghost before = candidates@;
    candidates.push(Candidate { dir: dir.clone(), name: name.to_owned() });
    assert(candidates_view(candidates@) =~= candidates_view(before).push(
        CandidateView { dir: dir@, name: name@ },
    ));
}

fn push_config_files(candidates: &mut Vec<Candidate>, dir: &LocalPath)
    ensures
        candidates_view(final(candidates)@) == candidates_view(old(candidates)@) + files_in(
            dir@,
            config_file_names(),
        ),
{
    let ghost before = candidates_view(candidates@);
    push_file(candidates, dir, "dprint.json");
    push_file(candidates, dir, "dprint.jsonc");
    push_file(candidates, dir, ".dprint.json");
    push_file(candidates, dir, ".dprint.jsonc");
    assert(candidates_view(candidates@) =~= before + files_in(dir@, config_file_names()));
}

/// Looks for a configuration file in a directory.
pub fn get_config_file_in_dir<E>(dir: &LocalPath) -> (step: SearchStep<E>)
    ensures
        step@ == search::<E>(files_in(dir@, config_file_names())),
{
    let mut candidates: Vec<Candidate> = Vec::new();
    push_config_files(&mut candidates, dir);
    assert(candidates_view(candidates@) =~= files_in(dir@, config_file_names()));
    FileSearch::start(candidates)
}

/// Looks for a configuration file in each of the directories in turn.
pub fn get_config_file_in_dirs<E>(dirs: &Vec<PathBuf>) -> (step: SearchStep<E>)
    ensures
        step@ == search::<E>(files_in_all(dirs@, config_file_names())),
{
    let mut candidates: Vec<Candidate> = Vec::new();
    let mut i: usize = 0;
    assert(candidates_view(candidates@) =~= files_in_all(dirs@.take(0), config_file_names()));
    while i < dirs.len()
        invariant
            i <= dirs.len(),
            candidates_view(candidates@) == files_in_all(dirs@.take(i as int), config_file_names()),
        decreases dirs.len() - i,
    {
        assert(dirs@.take(i + 1).drop_last() =~= dirs@.take(i as int));
        assert(dirs@.take(i + 1).last() == dirs@[i as int]);
        let dir = LocalPath::new(dirs[i].clone());
        push_config_files(&mut candidates, &dir);
        i = i + 1;
    }
    assert(dirs@.take(i as int) =~= dirs@);
    FileSearch::start(candidates)
}

/// Looks for a global configuration file in a directory.
pub fn get_global_config_file_in_dir<E>(dir: &LocalPath) -> (step: SearchStep<E>)
    ensures
        step@ == search::<E>(files_in(dir@, global_config_file_names())),
{
    let mut candidates: Vec<Candidate> = Vec::new();
    push_file(&mut candidates, dir, "dprint.jsonc");
    push_file(&mut candidates, dir, "dprint.json");
    assert(candidates_view(candidates@) =~= files_in(dir@, global_config_file_names()));
    FileSearch::start(candidates)
}

/// What the file system answers when a file is read that may not exist.
pub type Files<E> = spec_fn(LocalPathView) -> Result<Option<Seq<char>>, E>;

/// What comes of a search that stands at `step`, with these files.
pub open spec fn search_outcome<E>(step: SearchStepView<E>, files: Files<E>) -> SearchStepView<E>
    decreases
            match step {
                SearchStepView::Read(candidates) => candidates.len() + 1,
                _ => 0,
            },
{
    match step {
        SearchStepView::Read(candidates) => if candidates.len() == 0 {
            SearchStepView::NotFound
        } else {
            search_outcome(search_step(candidates, files(candidates[0].path())), files)
        },
        _ => step,
    }
}

/// Whether none of the first `count` files exists.
pub open spec fn none_of_first<E>(
    candidates: Seq<CandidateView>,
    count: int,
    files: Files<E>,
) -> bool {
    forall|i: int|
        0 <= i < count ==> files(#[trigger] candidates[i].path()) == Ok::<Option<Seq<char>>, E>(None)
}

/// A search finds the first file that exists.
pub proof fn a_search_finds_the_first_file<E>(
    candidates: Seq<CandidateView>,
    at: int,
    content: Seq<char>,
    files: Files<E>,
)
    requires
        0 <= at < candidates.len(),
        none_of_first(candidates, at, files),
        files(candidates[at].path()) == Ok::<Option<Seq<char>>, E>(Some(content)),
    ensures
        search_outcome(search(candidates), files) == SearchStepView::<E>::Found(
            FoundFileView { file: candidates[at], content },
        ),
    decreases candidates.len(),
{
    reveal_with_fuel(search_outcome, 2);
    if at > 0 {
        let rest = candidates.drop_first();
        assert(files(candidates[0].path()) == Ok::<Option<Seq<char>>, E>(None));
        assert forall|i: int| 0 <= i < at - 1 implies files(#[trigger] rest[i].path()) == Ok::<
            Option<Seq<char>>,
            E,
        >(None) by {
            assert(rest[i] == candidates[i + 1]);
        }
        a_search_finds_the_first_file(rest, at - 1, content, files);
    }
}

/// A search finds nothing if and only if none of the files exists.
pub proof fn a_search_finds_nothing_where_nothing_is<E>(
    candidates: Seq<CandidateView>,
    files: Files<E>,
)
    ensures
        search_outcome(search(candidates), files) == SearchStepView::<E>::NotFound
            <==> none_of_first(candidates, candidates.len() as int, files),
    decreases candidates.len(),
{
    reveal_with_fuel(search_outcome, 2);
    if candidates.len() > 0 {
        let rest = candidates.drop_first();
        a_search_finds_nothing_where_nothing_is(rest, files);
        if none_of_first(candidates, candidates.len() as int, files) {
            assert(files(candidates[0].path()) == Ok::<Option<Seq<char>>, E>(None));
            assert forall|i: int| 0 <= i < rest.len() implies files(#[trigger] rest[i].path())
                == Ok::<Option<Seq<char>>, E>(None) by {
                assert(rest[i] == candidates[i + 1]);
            }
        } else if files(candidates[0].path()) == Ok::<Option<Seq<char>>, E>(None)
            && none_of_first(rest, rest.len() as int, files) {
            assert forall|i: int|
                0 <= i < candidates.len() implies files(#[trigger] candidates[i].path()) == Ok::<
                Option<Seq<char>>,
                E,
            >(None) by {
                if i > 0 {
                    assert(rest[i - 1] == candidates[i]);
                }
            }
        }
    }
}

/// A search stops at a file that can't be read, where nothing was found before it.
pub proof fn a_search_stops_at_a_file_that_cannot_be_read<E>(
    candidates: Seq<CandidateView>,
    at: int,
    error: E,
    files: Files<E>,
)
    requires
        0 <= at < candidates.len(),
        none_of_first(candidates, at, files),
        files(candidates[at].path()) == Err::<Option<Seq<char>>, E>(error),
    ensures
        search_outcome(search(candidates), files) == SearchStepView::<E>::Failed(error),
    decreases candidates.len(),
{
    reveal_with_fuel(search_outcome, 2);
    if at > 0 {
        let rest = candidates.drop_first();
        assert(files(candidates[0].path()) == Ok::<Option<Seq<char>>, E>(None));
        assert forall|i: int| 0 <= i < at - 1 implies files(#[trigger] rest[i].path()) == Ok::<
            Option<Seq<char>>,
            E,
        >(None) by {
            assert(rest[i] == candidates[i + 1]);
        }
        a_search_stops_at_a_file_that_cannot_be_read(rest, at - 1, error, files);
    }
}

proof fn lemma_files_in_all_length(dirs: Seq<PathBuf>, names: Seq<Seq<char>>)
    ensures
        files_in_all(dirs, names).len() == dirs.len() * names.len(),
    decreases dirs.len(),
{
    if dirs.len() > 0 {
        lemma_files_in_all_length(dirs.drop_last(), names);
        assert(dirs.len() * names.len() == (dirs.len() - 1) * names.len() + names.len())
            by (nonlinear_arith);
    } else {
        assert(0 * names.len() == 0) by (nonlinear_arith);
    }
}

/// Directories are searched one after the other, and in each of them the names in
/// their order: the file with the name `j` in the directory `i` comes after all
/// files of the directories before it and after the files before it in its own.
pub proof fn directories_are_searched_in_order(
    dirs: Seq<PathBuf>,
    names: Seq<Seq<char>>,
    i: int,
    j: int,
)
    requires
        0 <= i < dirs.len(),
        0 <= j < names.len(),
    ensures
        0 <= i * names.len() + j < files_in_all(dirs, names).len(),
        files_in_all(dirs, names)[i * names.len() + j] == (CandidateView {
            dir: LocalPathView::whole(dirs[i]),
            name: names[j],
        }),
    decreases dirs.len(),
{
    let front = dirs.drop_last();
    lemma_files_in_all_length(dirs, names);
    lemma_files_in_all_length(front, names);
    assert(0 <= i * names.len()) by (nonlinear_arith)
        requires
            0 <= i,
    ;
    assert(dirs.len() * names.len() == (dirs.len() - 1) * names.len() + names.len())
        by (nonlinear_arith);
    if i < dirs.len() - 1 {
        directories_are_searched_in_order(front, names, i, j);
        assert(front[i] == dirs[i]);
    } else {
        assert(dirs.last() == dirs[i]);
    }
}

/// The configuration file that is found is the one in the nearest directory that
/// has one, with the most preferred name among those in that directory.
pub proof fn the_nearest_config_file_is_found<E>(
    dirs: Seq<PathBuf>,
    names: Seq<Seq<char>>,
    i: int,
    j: int,
    content: Seq<char>,
    files: Files<E>,
)
    requires
        0 <= i < dirs.len(),
        0 <= j < names.len(),
        forall|k: int, l: int|
            (0 <= k < i && 0 <= l < names.len()) || (k == i && 0 <= l < j) ==> files(
                LocalPathView::whole(#[trigger] dirs[k]).join(#[trigger] names[l]),
            ) == Ok::<Option<Seq<char>>, E>(None),
        files(LocalPathView::whole(dirs[i]).join(names[j])) == Ok::<Option<Seq<char>>, E>(
            Some(content),
        ),
    ensures
        search_outcome(search(files_in_all(dirs, names)), files) == SearchStepView::<E>::Found(
            FoundFileView {
                file: CandidateView { dir: LocalPathView::whole(dirs[i]), name: names[j] },
                content,
            },
        ),
{
    let candidates = files_in_all(dirs, names);
    let count = names.len() as int;
    let at = i * count + j;
    directories_are_searched_in_order(dirs, names, i, j);
    assert forall|m: int| 0 <= m < at implies files(#[trigger] candidates[m].path()) == Ok::<
        Option<Seq<char>>,
        E,
    >(None) by {
        let k = m / count;
        let l = m % count;
        assert(m == k * count + l && 0 <= l < count && 0 <= k) by (nonlinear_arith)
            requires
                k == m / count,
                l == m % count,
                count > 0,
                0 <= m,
        ;
        assert(k < i || (k == i && l < j)) by (nonlinear_arith)
            requires
                k * count + l < i * count + j,
                0 <= l < count,
                0 <= j < count,
        ;
        directories_are_searched_in_order(dirs, names, k, l);
        assert(dirs[k] == dirs[k] && names[l] == names[l]);
    }
    a_search_finds_the_first_file(candidates, at, content, files);
}

} // verus!
