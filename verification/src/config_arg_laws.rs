//! What is done with the value of `--config`, said of the value, the sub command and what
//! the file system answers.

use std::path::PathBuf;
use vstd::prelude::*;

use crate::cli;
use crate::cli::SubCommand;
use crate::config_arg;
use crate::config_arg::{
    ArgStepView, ConfigArgSourceView, ConfigUse, Machine, PathFacts, PathKind,
};
use crate::errors::ResolveErrorView;
use crate::paths::{LocalPathView, PathSourceView};
use crate::remote_url;
use crate::resolve_path;
use crate::resolve_path::LocatedView;
use crate::resolved_file;
use crate::resolved_file::{FileBytesView, FileTextView};
use crate::text;
use crate::text_laws;

verus! {

/// What changes configuration files, an editor service and a language server need a file,
/// and so refuse configuration text, told how it is described. Every other sub command
/// uses the text as it was given, as if it stood in a file of the current directory.
pub proof fn each_sub_command_takes_text_or_refuses_it<E>(
    sub_command: SubCommand,
    cwd: PathBuf,
    content: Seq<char>,
    display: Seq<char>,
)
    ensures
        ({
            let config_use = ConfigUse { cwd, needs_file: cli::needs_config_file(sub_command) };
            let step = config_arg::read_source::<E>(
                ConfigArgSourceView::Text { text: content, display },
                config_use,
            );
            let refused = ArgStepView::<E>::Failed(ResolveErrorView::ConfigNeedsFile(display));
            let used = ArgStepView::<E>::Done(
                FileTextView {
                    source: PathSourceView::Local {
                        path: LocalPathView { base: cwd, joined: seq!["<config>"@] },
                        origin: Some(display),
                    },
                    is_first_download: false,
                    content,
                },
            );
            match sub_command {
                SubCommand::Config(_) => step == refused,
                SubCommand::EditorService(_) => step == refused,
                SubCommand::Lsp => step == refused,
                SubCommand::EditorInfo => step == used,
                SubCommand::Version => step == used,
                SubCommand::StdInFmt(_) => step == used,
                SubCommand::Other => step == used,
            }
        }),
{
    assert(Seq::<Seq<char>>::empty().push("<config>"@) =~= seq!["<config>"@]);
}

/// The sub commands that refuse configuration text refuse a pipe before it is read, and
/// every other one reads it: a pipe is what exists and is neither a regular file nor a
/// directory.
pub proof fn each_sub_command_reads_a_pipe_or_refuses_it<E>(
    sub_command: SubCommand,
    cwd: PathBuf,
    path: LocalPathView,
    otherwise: Result<PathSourceView, ResolveErrorView<E>>,
    facts: PathFacts,
    display: Seq<char>,
)
    requires
        facts.exists,
        !facts.is_file,
        facts.kind != Some(PathKind::Dir),
    ensures
        ({
            let config_use = ConfigUse { cwd, needs_file: cli::needs_config_file(sub_command) };
            let step = config_arg::after_inspection(config_use, path, otherwise, facts, display);
            let refused = ArgStepView::<E>::Failed(ResolveErrorView::ConfigNeedsFile(display));
            let read = ArgStepView::<E>::ReadStream { cwd, path, display };
            match sub_command {
                SubCommand::Config(_) => step == refused,
                SubCommand::EditorService(_) => step == refused,
                SubCommand::Lsp => step == refused,
                SubCommand::EditorInfo => step == read,
                SubCommand::Version => step == read,
                SubCommand::StdInFmt(_) => step == read,
                SubCommand::Other => step == read,
            }
        }),
{
}

/// What does not exist, a regular file and a directory are no pipe: the file is read where
/// the value leads to one, whatever the sub command, and otherwise the error stays.
pub proof fn what_is_no_pipe_is_read_as_a_file<E>(
    config_use: ConfigUse,
    path: LocalPathView,
    source: PathSourceView,
    error: ResolveErrorView<E>,
    facts: PathFacts,
    display: Seq<char>,
)
    requires
        !facts.exists || facts.is_file || facts.kind == Some(PathKind::Dir),
    ensures
        config_arg::after_inspection(
            config_use,
            path,
            Ok::<PathSourceView, ResolveErrorView<E>>(source),
            facts,
            display,
        ) == ArgStepView::<E>::ReadFile(source),
        config_arg::after_inspection(
            config_use,
            path,
            Err::<PathSourceView, ResolveErrorView<E>>(error),
            facts,
            display,
        ) == ArgStepView::<E>::Failed(error),
{
}

/// Only how text and pipes are described stands in for a file: a file has no such
/// description.
pub proof fn only_text_and_pipes_are_described(
    content: Seq<char>,
    display: Seq<char>,
    path: LocalPathView,
    source: PathSourceView,
)
    ensures
        ({
            let given = ConfigArgSourceView::Text { text: content, display };
            let piped = ConfigArgSourceView::Stream { path, display };
            &&& config_arg::virtual_text(given) == Some(display)
            &&& config_arg::virtual_text(piped) == Some(display)
            &&& config_arg::virtual_text(ConfigArgSourceView::File(source)) is None
        }),
{
}

/// A file on this machine is inspected before it is read, and any other is read at once,
/// whatever the sub command. What has to be canonical is made so first. What leads nowhere
/// is inspected as the local path that it names, and is an error where it names none.
pub proof fn a_value_is_followed_where_it_leads<E>(
    config: Seq<char>,
    home_dir: Option<PathBuf>,
    config_use: ConfigUse,
    local: LocalPathView,
    origin: Option<Seq<char>>,
    source: PathSourceView,
    error: ResolveErrorView<E>,
    named: LocalPathView,
    anything: Option<LocalPathView>,
)
    ensures
        ({
            let here = PathSourceView::Local { path: local, origin };
            &&& config_arg::after_locating(
                config,
                home_dir,
                config_use,
                Ok::<LocatedView, ResolveErrorView<E>>(LocatedView::Source(here)),
                anything,
            ) == ArgStepView::<E>::Inspect { config_use, path: local, otherwise: Ok(here) }
            &&& !(source is Local) ==> config_arg::after_locating(
                config,
                home_dir,
                config_use,
                Ok::<LocatedView, ResolveErrorView<E>>(LocatedView::Source(source)),
                anything,
            ) == ArgStepView::<E>::ReadFile(source)
            &&& config_arg::after_locating(
                config,
                home_dir,
                config_use,
                Ok::<LocatedView, ResolveErrorView<E>>(LocatedView::Canonicalize(local)),
                anything,
            ) == ArgStepView::<E>::Canonicalize { config, home_dir, config_use, path: local }
            &&& config_arg::after_locating(
                config,
                home_dir,
                config_use,
                Err::<LocatedView, ResolveErrorView<E>>(error),
                Some(named),
            ) == ArgStepView::<E>::Inspect { config_use, path: named, otherwise: Err(error) }
            &&& config_arg::after_locating(
                config,
                home_dir,
                config_use,
                Err::<LocatedView, ResolveErrorView<E>>(error),
                None,
            ) == ArgStepView::<E>::Failed(error)
        }),
{
}

/// A path that could be made canonical is inspected and read in that form. One that could
/// not is inspected as the local path that the value names, and the error stays where it
/// names none.
pub proof fn a_path_that_cant_be_canonical_is_inspected_as_it_is_named<E>(
    config_use: ConfigUse,
    canonical: PathBuf,
    error: E,
    named: LocalPathView,
    anything: Option<LocalPathView>,
)
    ensures
        ({
            let path = LocalPathView { base: canonical, joined: Seq::empty() };
            let failure = ResolveErrorView::Environment(error);
            &&& config_arg::after_canonicalizing::<E>(config_use, Ok(canonical), anything)
                == ArgStepView::<E>::Inspect {
                config_use,
                path,
                otherwise: Ok(PathSourceView::Local { path, origin: None }),
            }
            &&& config_arg::after_canonicalizing(config_use, Err(error), Some(named))
                == ArgStepView::<E>::Inspect { config_use, path: named, otherwise: Err(failure) }
            &&& config_arg::after_canonicalizing(config_use, Err(error), None)
                == ArgStepView::<E>::Failed(failure)
        }),
{
}

/// The local path that a value names is one in the home directory where it starts with
/// `~/`, if there is a home directory.
pub proof fn a_value_names_a_path_in_the_home_directory(
    rest: Seq<char>,
    cwd: PathBuf,
    home_dir: PathBuf,
    url: Result<Seq<char>, Seq<char>>,
    file_path: Option<PathBuf>,
)
    ensures
        ({
            let config = seq!['~', '/'] + rest;
            &&& config_arg::uncanonicalized_path(config, cwd, Some(home_dir), url, file_path)
                == Some(LocalPathView { base: home_dir, joined: seq![rest] })
            &&& config_arg::uncanonicalized_path(config, cwd, None, url, file_path) is None
        }),
{
    let config = seq!['~', '/'] + rest;
    assert(config[1] == '/');
    assert(config.skip(2) =~= rest);
    assert(Seq::<Seq<char>>::empty().push(rest) =~= seq![rest]);
}

/// A value that does not start with `~/` names the path that it is converted to where it
/// is a `file` URL, and none where it is a URL of another scheme; a scheme of one letter
/// counts as a drive. Anything else names a path of the current directory.
pub proof fn a_value_names_a_path_of_the_current_directory(
    config: Seq<char>,
    cwd: PathBuf,
    home_dir: Option<PathBuf>,
    url: Seq<char>,
    message: Seq<char>,
    path: PathBuf,
)
    requires
        config.len() < 2 || config[0] != '~' || config[1] != '/',
    ensures
        ({
            let here = LocalPathView { base: cwd, joined: seq![config] };
            let scheme = remote_url::scheme_of(url);
            &&& config_arg::uncanonicalized_path(config, cwd, home_dir, Err(message), Some(path))
                == Some(here)
            &&& scheme.len() <= 1 ==> config_arg::uncanonicalized_path(
                config,
                cwd,
                home_dir,
                Ok(url),
                Some(path),
            ) == Some(here)
            &&& scheme == "file"@ ==> config_arg::uncanonicalized_path(
                config,
                cwd,
                home_dir,
                Ok(url),
                Some(path),
            ) == Some(LocalPathView { base: path, joined: Seq::empty() })
            &&& scheme == "file"@ ==> config_arg::uncanonicalized_path(
                config,
                cwd,
                home_dir,
                Ok(url),
                None,
            ) is None
            &&& scheme.len() > 1 && scheme != "file"@ ==> config_arg::uncanonicalized_path(
                config,
                cwd,
                home_dir,
                Ok(url),
                Some(path),
            ) is None
        }),
{
    reveal_strlit("file");
    assert(Seq::<Seq<char>>::empty().push(config) =~= seq![config]);
}

/// What a pipe held is the configuration, as if it stood in a file of the current
/// directory. Bytes that are no UTF-8 are an error that says how the pipe is shown, and a
/// pipe that can't be read is one too.
pub proof fn a_pipe_holds_text<E>(cwd: PathBuf, display: Seq<char>, bytes: Seq<u8>, error: E)
    ensures
        ({
            let outcome = config_arg::stream_text::<E>(cwd, display, Ok(bytes));
            &&& vstd::utf8::valid_utf8(bytes) ==> outcome == Ok::<FileTextView, ResolveErrorView<E>>(
                FileTextView {
                    source: PathSourceView::Local {
                        path: LocalPathView { base: cwd, joined: seq!["<config>"@] },
                        origin: Some(display),
                    },
                    is_first_download: false,
                    content: vstd::utf8::decode_utf8(bytes),
                },
            )
            &&& !vstd::utf8::valid_utf8(bytes) ==> outcome == Err::<
                FileTextView,
                ResolveErrorView<E>,
            >(ResolveErrorView::NotUtf8 { display, reason: resolved_file::utf8_error(bytes) })
            &&& config_arg::stream_text(cwd, display, Err(error)) == Err::<
                FileTextView,
                ResolveErrorView<E>,
            >(ResolveErrorView::Environment(error))
        }),
{
    assert(Seq::<Seq<char>>::empty().push("<config>"@) =~= seq!["<config>"@]);
}

/// What a file holds is the configuration, from where the file is, and new where the file
/// is. Bytes that are no UTF-8 are an error that says where the file is, and what kept the
/// file from being read stays the error.
pub proof fn a_file_holds_text<E>(file: FileBytesView, error: ResolveErrorView<E>)
    ensures
        ({
            let outcome = config_arg::file_text::<E>(Ok(file));
            &&& vstd::utf8::valid_utf8(file.content) ==> outcome == Ok::<
                FileTextView,
                ResolveErrorView<E>,
            >(
                FileTextView {
                    source: file.source,
                    is_first_download: file.is_first_download,
                    content: vstd::utf8::decode_utf8(file.content),
                },
            )
            &&& !vstd::utf8::valid_utf8(file.content) ==> outcome == Err::<
                FileTextView,
                ResolveErrorView<E>,
            >(
                ResolveErrorView::FileNotUtf8 {
                    source: file.source,
                    reason: resolved_file::utf8_error(file.content),
                },
            )
            &&& config_arg::file_text(Err(error)) == Err::<FileTextView, ResolveErrorView<E>>(error)
        }),
{
}

/// What was read, or why it could not be, is what comes of the last step.
pub proof fn the_last_step_is_what_was_read<E>(
    outcome: Result<FileTextView, ResolveErrorView<E>>,
    machine: Machine<E>,
)
    ensures
        config_arg::arg_outcome(config_arg::finished(outcome), machine) == outcome,
{
}

/// A value opens like a json object where its first character that is no white space is an
/// opening brace.
pub proof fn an_opening_brace_may_follow_white_space(space: Seq<char>, rest: Seq<char>)
    requires
        forall|i: int| 0 <= i < space.len() ==> text::white_space(#[trigger] space[i]),
        rest.len() > 0 ==> !text::white_space(rest[0]),
    ensures
        config_arg::opens_like_json(space + rest) <==> rest.len() > 0 && rest[0] == '{',
{
    let drop = |c: char| text::white_space(c);
    assert forall|i: int| 0 <= i < space.len() implies drop(#[trigger] space[i]) by {}
    text_laws::trimming_drops_the_longest_prefix(space, rest, drop);
}

/// An absolute URL of any scheme but `file` is read as the file behind it, whatever the
/// sub command and whatever the file system holds.
pub proof fn a_url_is_read_through_the_network<E>(
    config: Seq<char>,
    home_dir: Option<PathBuf>,
    config_use: ConfigUse,
    url: Seq<char>,
    machine: Machine<E>,
)
    requires
        !resolve_path::absolute_windows_path(config),
        remote_url::url_parse(config) == Ok::<Seq<char>, Seq<char>>(url),
        !remote_url::opaque(url),
        remote_url::scheme_of(url) != "file"@,
    ensures
        ({
            let behind = PathSourceView::Remote { url };
            config_arg::arg_outcome(
                config_arg::read_value(config, home_dir, config_use, machine),
                machine,
            ) == config_arg::file_text((machine.files)(behind))
        }),
{
    reveal_with_fuel(config_arg::arg_outcome, 3);
}

/// The paths that a value is located and named by are those that the value itself is
/// converted to: a `file` URL is located by one, and what leads nowhere is named by one.
pub proof fn a_value_is_located_and_named_by_what_it_is_converted_to<E>(
    config: Seq<char>,
    url: Seq<char>,
    home_dir: Option<PathBuf>,
    cwd: PathBuf,
    located_path: Option<PathBuf>,
    named_path: Option<PathBuf>,
)
    requires
        !resolve_path::absolute_windows_path(config),
        remote_url::url_parse(config) == Ok::<Seq<char>, Seq<char>>(url),
        !remote_url::opaque(url),
        remote_url::scheme_of(url) == "file"@,
        config_arg::paths_converted::<E>(config, home_dir, cwd, located_path, named_path),
    ensures
        remote_url::converted(config, located_path),
        located_path is None ==> remote_url::converted(config, named_path),
{
}

} // verus!
