//! What a value stands for is all that it holds: no view leaves a field out, and none tells
//! an outcome apart by what it holds.

use std::path::PathBuf;
use vstd::prelude::*;

use crate::config_arg::{ArgInspection, ArgPath, ArgStep, ArgStepView, ArgStream};
use crate::config_arg::{ConfigArgSource, ConfigArgSourceView};
use crate::config_file;
use crate::config_file::{ConfigView, ResolvedConfigPathWithText};
use crate::default_config::{AncestorDir, AncestorFile, AncestorRead, AncestorStep};
use crate::default_config::{AncestorStepView, DefaultsStep, DefaultsStepView};
use crate::default_config::{StartDir, StartFile, StartRead};
use crate::errors::{ResolveError, ResolveErrorView};
use crate::file_search;
use crate::file_search::{Candidate, FileSearch, FoundFile, SearchStep, SearchStepView};
use crate::global_config;
use crate::global_config::{FolderStep, FolderStepView, GlobalConfigError, GlobalConfigView};
use crate::global_config::{GlobalDirError, GlobalDirStep, GlobalDirStepView, GlobalRead};
use crate::global_config::{GlobalStep, GlobalStepView, PendingFolder, PendingGlobalDir};
use crate::global_config::{PendingParent, ResolveGlobalConfigPathResult};
use crate::http_cache::CacheEntry;
use crate::main_config;
use crate::main_config::{MainError, MainErrorView, MainStep, MainStepView, PendingArg};
use crate::main_config::{PendingDefaults, PendingGlobal, PendingRequiredGlobal};
use crate::paths;
use crate::paths::{LocalPath, LocalPathView, PathSource, PathSourceView};
use crate::remote_file;
use crate::remote_file::{AfterDownload, CacheWrite, DownloadResult, FetchStep, FetchStepView};
use crate::remote_file::{PendingDownload, RemoteFetch, Target, TargetView};
use crate::remote_url;
use crate::remote_url::RemoteUrl;
use crate::resolve_path;
use crate::resolve_path::{FileStep, FileStepView, Located, LocatedView, PendingPath};
use crate::resolve_path::{PendingRead, Reference, ReferenceView};
use crate::resolved_file::{ResolvedFilePathWithBytes, ResolvedFilePathWithText};

verus! {

/// Paths, and where files are, stand for all that they hold.
pub proof fn paths_stand_for_what_they_hold(
    path: LocalPath,
    paths: Seq<PathBuf>,
    strings: Seq<String>,
    source: PathSource,
)
    ensures
        path@.base == path.base,
        path@.joined == paths::texts(path.joined@),
        paths::texts(strings).len() == strings.len(),
        forall|i: int| 0 <= i < strings.len() ==> #[trigger] paths::texts(strings)[i] == strings[i]@,
        paths::whole_paths(paths).len() == paths.len(),
        forall|i: int|
            0 <= i < paths.len() ==> (#[trigger] paths::whole_paths(paths)[i]).base == paths[i]
                && paths::whole_paths(paths)[i].joined.len() == 0,
        match source {
            PathSource::Local(local) => source@ matches PathSourceView::Local { path, origin }
                && path == local.path@ && origin == paths::optional_text(local.origin),
            PathSource::Remote(remote) => source@ matches PathSourceView::Remote { url } && url
                == remote.url@,
            PathSource::Npm(npm) => source@ matches PathSourceView::Npm { specifier } && specifier
                == npm.specifier@,
        },
{
}

/// What may not be there stands for what it is where it is there, whatever that holds.
pub proof fn what_is_there_stands_for_itself(
    string: String,
    path: LocalPath,
    whole: PathBuf,
    url: RemoteUrl,
    config: ResolvedConfigPathWithText,
    entry: CacheEntry,
)
    ensures
        paths::optional_text(Some(string)) == Some(string@),
        paths::optional_text(None) is None,
        paths::optional_path(Some(path)) == Some(path@),
        paths::optional_path(None) is None,
        paths::whole_path(Some(whole)) == Some(LocalPathView::whole(whole)),
        paths::whole_path(None) is None,
        resolve_path::optional_url(Some(url)) == Some(url@),
        resolve_path::optional_url(None) is None,
        config_file::optional_config(Some(config)) == Some(config@),
        config_file::optional_config(None) is None,
        remote_file::entry_view(Some(entry)) == Some(entry@),
        remote_file::entry_view(None) is None,
        remote_file::chain_view(Some((url, entry))) == Some((url@, entry@)),
        remote_file::chain_view(None) is None,
{
}

/// An outcome stands for what came of it, whatever that holds: a success for what was had,
/// a failure for its error.
pub proof fn outcomes_stand_for_what_came_of_them<E>(
    url: RemoteUrl,
    string: String,
    located: Located,
    source: PathSource,
    file: ResolvedFilePathWithBytes,
    text: ResolvedFilePathWithText,
    path: LocalPath,
    failure: ResolveError<E>,
    error: E,
)
    ensures
        remote_url::url_view(Ok(url)) == Ok::<Seq<char>, Seq<char>>(url@),
        remote_url::url_view(Err(string)) == Err::<Seq<char>, Seq<char>>(string@),
        remote_file::location_view(None) is None,
        remote_file::location_view(Some(Ok(url))) == Some(Ok::<Seq<char>, Seq<char>>(url@)),
        remote_file::location_view(Some(Err(string))) == Some(
            Err::<Seq<char>, Seq<char>>(string@),
        ),
        resolve_path::located_view::<E>(Ok(located)) == Ok::<LocatedView, ResolveErrorView<E>>(
            located@,
        ),
        resolve_path::located_view::<E>(Err(failure)) == Err::<LocatedView, ResolveErrorView<E>>(
            failure@,
        ),
        resolve_path::source_view::<E>(Ok(source)) == Ok::<PathSourceView, ResolveErrorView<E>>(
            source@,
        ),
        resolve_path::source_view::<E>(Err(failure)) == Err::<PathSourceView, ResolveErrorView<E>>(
            failure@,
        ),
        resolve_path::file_view::<E>(Ok(file)) matches Ok(shown) && shown == file@,
        resolve_path::file_view::<E>(Err(failure)) matches Err(shown) && shown == failure@,
        main_config::text_view::<E>(Ok(text)) matches Ok(shown) && shown == text@,
        main_config::text_view::<E>(Err(failure)) matches Err(shown) && shown == failure@,
        global_config::folder_view::<E>(Ok(path)) == Ok::<LocalPathView, E>(path@),
        global_config::folder_view::<E>(Err(error)) == Err::<LocalPathView, E>(error),
        file_search::read_view::<E>(Ok(Some(string))) == Ok::<Option<Seq<char>>, E>(Some(string@)),
        file_search::read_view::<E>(Ok(None)) == Ok::<Option<Seq<char>>, E>(None),
        file_search::read_view::<E>(Err(error)) == Err::<Option<Seq<char>>, E>(error),
{
}

/// What comes of looking for configuration stands for what was found, or for why there is
/// none.
pub proof fn found_configuration_stands_for_itself<E>(
    config: ResolvedConfigPathWithText,
    missing: GlobalDirError<E>,
    result: ResolveGlobalConfigPathResult<E>,
    failure: GlobalConfigError<E>,
    error: E,
)
    ensures
        config@ == (ConfigView {
            source: config.source@,
            is_first_download: config.is_first_download,
            content: config.content@,
            base_path: config.base_path,
            is_global_config: config.is_global_config,
        }),
        ResolveGlobalConfigPathResult::<E>::Found(config)@ == GlobalConfigView::<E>::Found(config@),
        ResolveGlobalConfigPathResult::<E>::NotFound@ == GlobalConfigView::<E>::NotFound,
        ResolveGlobalConfigPathResult::FailedResolvingSystemDir(missing)@
            == GlobalConfigView::FailedResolvingSystemDir(missing),
        global_config::global_view::<E>(Ok(result)) == Ok::<GlobalConfigView<E>, E>(result@),
        global_config::global_view::<E>(Err(error)) == Err::<GlobalConfigView<E>, E>(error),
        global_config::required_view::<E>(Ok(config)) == Ok::<ConfigView, GlobalConfigError<E>>(
            config@,
        ),
        global_config::required_view(Err(failure)) == Err::<ConfigView, GlobalConfigError<E>>(
            failure,
        ),
        main_config::defaults_view::<E>(Ok(Some(config))) == Ok::<Option<ConfigView>, E>(
            Some(config@),
        ),
        main_config::defaults_view::<E>(Ok(None)) == Ok::<Option<ConfigView>, E>(None),
        main_config::defaults_view::<E>(Err(error)) == Err::<Option<ConfigView>, E>(error),
{
}

/// Files with their content, cached entries, responses and writes stand for all that they
/// hold.
pub proof fn files_stand_for_what_they_hold(
    bytes: ResolvedFilePathWithBytes,
    text: ResolvedFilePathWithText,
    entry: CacheEntry,
    response: DownloadResult,
    write: CacheWrite,
    writes: Seq<CacheWrite>,
    target: Target,
)
    ensures
        bytes@.source == bytes.source@,
        bytes@.is_first_download == bytes.is_first_download,
        bytes@.content == bytes.content@,
        text@.source == text.source@,
        text@.is_first_download == text.is_first_download,
        text@.content == text.content@,
        entry@.headers == entry.metadata.headers@,
        entry@.url == entry.metadata.url@,
        entry@.time == entry.metadata.time,
        entry@.content == entry.content@,
        response@.headers == response.headers@,
        response@.content == response.content@,
        write@.url == write.url@,
        write@.headers == write.headers@,
        write@.content == write.content@,
        remote_file::writes_view(writes).len() == writes.len(),
        forall|i: int|
            0 <= i < writes.len() ==> #[trigger] remote_file::writes_view(writes)[i] == writes[i]@,
        match target {
            Target::Redirect(url) => target@ == TargetView::Redirect(url@),
            Target::Content(url) => target@ == TargetView::Content(url@),
            Target::Invalid(message) => target@ == TargetView::Invalid(message@),
        },
{
}

/// A step of a fetch, and of reading a file, stands for what it asks for or ends with.
pub proof fn steps_of_a_file_stand_for_what_they_ask<E>(
    fetch: RemoteFetch,
    download: PendingDownload,
    file: ResolvedFilePathWithBytes,
    writes: Vec<CacheWrite>,
    failure: ResolveError<E>,
    after: AfterDownload<E>,
    pending: PendingPath,
    read: PendingRead,
)
    ensures
        FetchStep::<E>::LookUp(fetch)@ == FetchStepView::<E>::LookUp(fetch@),
        FetchStep::<E>::Download(download)@ == FetchStepView::<E>::Download(
            download.fetch(),
            download.stale(),
        ),
        ({
            let done = FetchStep::<E>::Done { file, writes };
            done@ == FetchStepView::<E>::Done(file@, remote_file::writes_view(writes@))
        }),
        FetchStep::Failed(failure)@ == FetchStepView::Failed(failure@),
        after@ == (after.step@, after.warning),
        ({
            let step = FileStep::<E>::Canonicalize(pending);
            step@ == FileStepView::<E>::Canonicalize {
                path: pending.path@,
                now: pending.now_secs,
            }
        }),
        ({
            let step = FileStep::<E>::Read(read);
            step@ == FileStepView::<E>::Read {
                path: read.local.path@,
                origin: paths::optional_text(read.local.origin),
            }
        }),
        FileStep::<E>::Fetch(fetch)@ == FileStepView::<E>::Fetch(fetch@),
        FileStep::Failed(failure)@ == FileStepView::Failed(failure@),
{
}

/// How a value is written, and where it leads, stand for all that they hold.
pub proof fn references_stand_for_what_they_hold(
    url: RemoteUrl,
    rest: String,
    source: PathSource,
    path: LocalPath,
    text: String,
    display: String,
)
    ensures
        Reference::FileUrl@ == ReferenceView::FileUrl,
        Reference::Remote(url)@ == ReferenceView::Remote(url@),
        Reference::Home(rest)@ == ReferenceView::Home(rest@),
        Reference::Relative@ == ReferenceView::Relative,
        Located::Source(source)@ == LocatedView::Source(source@),
        Located::Canonicalize(path)@ == LocatedView::Canonicalize(path@),
        ({
            let given = ConfigArgSource::Text { text, display };
            let piped = ConfigArgSource::Stream { path, display };
            &&& given@ == (ConfigArgSourceView::Text { text: text@, display: display@ })
            &&& piped@ == (ConfigArgSourceView::Stream { path: path@, display: display@ })
            &&& ConfigArgSource::File(source)@ == ConfigArgSourceView::File(source@)
        }),
{
}

/// A step of reading what `--config` names stands for what it asks for or ends with.
pub proof fn steps_of_a_value_stand_for_what_they_ask<E>(
    path: ArgPath,
    inspection: ArgInspection<E>,
    stream: ArgStream,
    source: PathSource,
    text: ResolvedFilePathWithText,
    failure: ResolveError<E>,
)
    ensures
        ({
            let step = ArgStep::<E>::Canonicalize(path);
            step@ == ArgStepView::<E>::Canonicalize {
                config: path.config@,
                home_dir: path.home_dir,
                config_use: path.config_use,
                path: path.path@,
            }
        }),
        ({
            let step = ArgStep::Inspect(inspection);
            step@ == ArgStepView::Inspect {
                config_use: inspection.config_use,
                path: inspection.path@,
                otherwise: resolve_path::source_view(inspection.otherwise),
            }
        }),
        ({
            let step = ArgStep::<E>::ReadStream(stream);
            step@ == ArgStepView::<E>::ReadStream {
                cwd: stream.cwd,
                path: stream.path@,
                display: stream.display@,
            }
        }),
        ArgStep::<E>::ReadFile(source)@ == ArgStepView::<E>::ReadFile(source@),
        ArgStep::<E>::Done(text)@ == ArgStepView::<E>::Done(text@),
        ArgStep::Failed(failure)@ == ArgStepView::Failed(failure@),
{
}

/// A step of a search for a file stands for what it asks for or ends with.
pub proof fn steps_of_a_search_stand_for_what_they_ask<E>(
    candidate: Candidate,
    candidates: Seq<Candidate>,
    found: FoundFile,
    search: FileSearch,
    read: AncestorRead,
    file: AncestorFile,
    dir: AncestorDir,
    config: ResolvedConfigPathWithText,
    error: E,
)
    ensures
        candidate@.dir == candidate.dir@,
        candidate@.name == candidate.name@,
        file_search::candidates_view(candidates).len() == candidates.len(),
        forall|i: int|
            0 <= i < candidates.len() ==> #[trigger] file_search::candidates_view(candidates)[i]
                == candidates[i]@,
        found@.file == found.file@,
        found@.content == found.content@,
        SearchStep::<E>::Read(search)@ == SearchStepView::<E>::Read(search@),
        SearchStep::<E>::Found(found)@ == SearchStepView::<E>::Found(found@),
        SearchStep::<E>::NotFound@ == SearchStepView::<E>::NotFound,
        SearchStep::Failed(error)@ == SearchStepView::Failed(error),
        AncestorStep::<E>::Read(read)@ == AncestorStepView::<E>::Read(read.search@),
        AncestorStep::<E>::CanonicalizeFile(file)@ == AncestorStepView::<E>::CanonicalizeFile(
            file.found@,
        ),
        AncestorStep::<E>::CanonicalizeDir(dir)@ == AncestorStepView::<E>::CanonicalizeDir(
            dir.found@,
            dir.path,
        ),
        AncestorStep::<E>::Done(Some(config))@ == AncestorStepView::<E>::Done(Some(config@)),
        AncestorStep::<E>::Done(None)@ == AncestorStepView::<E>::Done(None),
        AncestorStep::Failed(error)@ == AncestorStepView::Failed(error),
{
}

/// A step of the search for the configuration that applies stands for what it asks for or
/// ends with.
pub proof fn steps_of_the_defaults_stand_for_what_they_ask<E>(
    start: StartDir,
    read: StartRead,
    file: StartFile,
    above: AncestorStep<E>,
    config: ResolvedConfigPathWithText,
    error: E,
)
    ensures
        ({
            let step = DefaultsStep::<E>::CanonicalizeStart(start);
            step@ == DefaultsStepView::<E>::CanonicalizeStart {
                dir: start.dir,
                above: start.above@,
            }
        }),
        ({
            let step = DefaultsStep::<E>::Read(read);
            step@ == DefaultsStepView::<E>::Read {
                candidates: read.search@,
                dir: read.dir,
                above: read.above@,
            }
        }),
        ({
            let step = DefaultsStep::<E>::CanonicalizeFile(file);
            step@ == DefaultsStepView::<E>::CanonicalizeFile { found: file.found@, dir: file.dir }
        }),
        DefaultsStep::Ancestors(above)@ == DefaultsStepView::Ancestors(above@),
        DefaultsStep::<E>::Done(config)@ == DefaultsStepView::<E>::Done(config@),
        DefaultsStep::Failed(error)@ == DefaultsStepView::Failed(error),
{
}

/// A step of the search for the global configuration stands for what it asks for or ends
/// with.
pub proof fn steps_of_the_global_search_stand_for_what_they_ask<E>(
    folder: PendingFolder,
    parent: PendingParent,
    path: LocalPath,
    dir: PendingGlobalDir,
    missing: GlobalDirError<E>,
    read: GlobalRead,
    result: ResolveGlobalConfigPathResult<E>,
    error: E,
)
    ensures
        FolderStep::<E>::Canonicalize(folder)@ == FolderStepView::<E>::Canonicalize(folder.path@),
        ({
            let step = FolderStep::<E>::CreateParent(parent);
            step@ == FolderStepView::<E>::CreateParent {
                parent: parent.parent,
                file_name: parent.file_name@,
            }
        }),
        FolderStep::<E>::Resolved(path)@ == FolderStepView::<E>::Resolved(path@),
        FolderStep::Failed(error)@ == FolderStepView::Failed(error),
        ({
            let step = GlobalDirStep::<E>::Resolve(dir);
            match step@ {
                GlobalDirStepView::Resolve { path, fallback } => {
                    &&& path == dir.path@
                    &&& match dir.fallback {
                        Some(system) => fallback == Some(paths::optional_path(system)),
                        None => fallback is None,
                    }
                },
                _ => false,
            }
        }),
        GlobalDirStep::<E>::Done(path)@ == GlobalDirStepView::<E>::Done(path@),
        GlobalDirStep::Failed(missing)@ == GlobalDirStepView::Failed(missing),
        ({
            let step = GlobalStep::<E>::Read(read);
            step@ == GlobalStepView::<E>::Read { candidates: read.search@, cwd: read.cwd }
        }),
        GlobalStep::Done(result)@ == GlobalStepView::Done(result@),
        GlobalStep::Failed(error)@ == GlobalStepView::Failed(error),
{
}

/// A step of the search for the main configuration stands for what it asks for or ends
/// with.
pub proof fn steps_of_the_main_search_stand_for_what_they_ask<E>(
    arg: PendingArg,
    global: PendingGlobal,
    required: PendingRequiredGlobal,
    defaults: PendingDefaults,
    config: ResolvedConfigPathWithText,
    failure: MainError<E>,
)
    ensures
        ({
            let step = MainStep::<E>::ReadArg(arg);
            step@ == MainStepView::<E>::ReadArg { cwd: arg.cwd, hinted: arg.hinted }
        }),
        ({
            let step = MainStep::<E>::SearchDefaults(defaults);
            step@ == MainStepView::<E>::SearchDefaults { global_next: defaults.global_next }
        }),
        MainStep::<E>::RequireGlobal(required)@ == MainStepView::<E>::RequireGlobal,
        MainStep::<E>::SearchGlobal(global)@ == MainStepView::<E>::SearchGlobal,
        MainStep::<E>::Done(Some(config))@ == MainStepView::<E>::Done(Some(config@)),
        MainStep::<E>::Done(None)@ == MainStepView::<E>::Done(None),
        MainStep::Failed(failure)@ == MainStepView::Failed(failure@),
        match failure {
            MainError::Arg { error, hinted } => failure@ matches MainErrorView::Arg {
                error: shown,
                hinted: explained,
            } && shown == error@ && explained == hinted,
            MainError::Global(error) => failure@ == MainErrorView::Global(error),
            MainError::Environment(error) => failure@ == MainErrorView::Environment(error),
        },
{
}

/// An error stands for what it is about.
pub proof fn errors_stand_for_what_they_are_about<E>(failure: ResolveError<E>)
    ensures
        match failure {
            ResolveError::Environment(error) => failure@ == ResolveErrorView::Environment(error),
            ResolveError::InvalidUrl(message) => failure@ == ResolveErrorView::<E>::InvalidUrl(
                message@,
            ),
            ResolveError::NotFound(url) => failure@ == ResolveErrorView::<E>::NotFound(url@),
            ResolveError::TooManyRedirects(url) => failure@
                == ResolveErrorView::<E>::TooManyRedirects(url@),
            ResolveError::NpmNotUrlOrFilePath => failure@
                == ResolveErrorView::<E>::NpmNotUrlOrFilePath,
            ResolveError::NpmHasNoBytes => failure@ == ResolveErrorView::<E>::NpmHasNoBytes,
            ResolveError::NpmIsNoBase => failure@ == ResolveErrorView::<E>::NpmIsNoBase,
            ResolveError::NotAFilePath(url) => failure@ == ResolveErrorView::<E>::NotAFilePath(url@),
            ResolveError::NoHomeDirectory => failure@ == ResolveErrorView::<E>::NoHomeDirectory,
            ResolveError::NotUtf8 { display, reason } => failure@ matches ResolveErrorView::NotUtf8 {
                display: shown,
                reason: why,
            } && shown == display@ && why == reason@,
            ResolveError::FileNotUtf8 { source, reason } => failure@
                matches ResolveErrorView::FileNotUtf8 { source: from, reason: why } && from
                == source@ && why == reason@,
            ResolveError::ConfigNeedsFile(display) => failure@
                == ResolveErrorView::<E>::ConfigNeedsFile(display@),
        },
{
}

} // verus!
