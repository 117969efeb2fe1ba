//! The main configuration: which of the places that it can be in are looked at, and
//! in what order.

use std::path::PathBuf;
use vstd::prelude::*;

use crate::cli::{CliArgs, ConfigArg, DiscoveryMode};
use crate::config_arg;
use crate::config_file;
use crate::config_file::{ConfigView, ResolvedConfigPathWithText};
use crate::errors::{ResolveError, ResolveErrorView};
use crate::global_config;
use crate::global_config::{GlobalConfigError, GlobalConfigView, ResolveGlobalConfigPathResult};
use crate::resolved_file::{FileTextView, ResolvedFilePathWithText};

verus! {

/// Why there is no main configuration.
pub ghost enum MainErrorView<E> {
    Arg { error: ResolveErrorView<E>, hinted: bool },
    Global(GlobalConfigError<E>),
    Environment(E),
}

/// Why there is no main configuration.
#[derive(Debug, PartialEq, Eq)]
pub enum MainError<E> {
    /// What `--config` names can't be had. The text heuristic is to be explained
    /// where the value opens like a json object but was taken for a path: that is
    /// rarely what was meant.
    Arg { error: ResolveError<E>, hinted: bool },
    /// There is no global configuration, but there has to be.
    Global(GlobalConfigError<E>),
    /// The file system failed.
    Environment(E),
}

impl<E> View for MainError<E> {
    type V = MainErrorView<E>;

    open spec fn view(&self) -> MainErrorView<E> {
        match self {
            MainError::Arg { error, hinted } => MainErrorView::Arg {
                error: error@,
                hinted: *hinted,
            },
            MainError::Global(error) => MainErrorView::Global(*error),
            MainError::Environment(error) => MainErrorView::Environment(*error),
        }
    }
}

/// What finding the main configuration needs next.
pub ghost enum MainStepView<E> {
    ReadArg { cwd: PathBuf, hinted: bool },
    RequireGlobal,
    SearchDefaults { global_next: bool },
    SearchGlobal,
    Done(Option<ConfigView>),
    Failed(MainErrorView<E>),
}

/// The configuration of `--config` is to be read.
#[derive(Debug, PartialEq, Eq)]
pub struct PendingArg {
    pub cwd: PathBuf,
    /// Whether the text heuristic is to be explained where that fails.
    pub hinted: bool,
}

/// The configuration that applies to the directory is to be looked for.
#[derive(Debug, PartialEq, Eq)]
pub struct PendingDefaults {
    /// Whether the global one is looked for where there is none.
    pub global_next: bool,
}

/// The global configuration is to be looked for, and has to be there.
#[derive(Debug, PartialEq, Eq)]
pub struct PendingRequiredGlobal {}

/// The global configuration is to be looked for.
#[derive(Debug, PartialEq, Eq)]
pub struct PendingGlobal {}

/// What finding the main configuration needs next.
#[derive(Debug, PartialEq, Eq)]
pub enum MainStep<E> {
    ReadArg(PendingArg),
    RequireGlobal(PendingRequiredGlobal),
    SearchDefaults(PendingDefaults),
    SearchGlobal(PendingGlobal),
    /// The search is over.
    Done(Option<ResolvedConfigPathWithText>),
    /// There is no main configuration.
    Failed(MainError<E>),
}

impl<E> View for MainStep<E> {
    type V = MainStepView<E>;

    open spec fn view(&self) -> MainStepView<E> {
        match self {
            MainStep::ReadArg(arg) => MainStepView::ReadArg { cwd: arg.cwd, hinted: arg.hinted },
            MainStep::RequireGlobal(_) => MainStepView::RequireGlobal,
            MainStep::SearchDefaults(defaults) => MainStepView::SearchDefaults {
                global_next: defaults.global_next,
            },
            MainStep::SearchGlobal(_) => MainStepView::SearchGlobal,
            MainStep::Done(config) => MainStepView::Done(config_file::optional_config(*config)),
            MainStep::Failed(error) => MainStepView::Failed(error@),
        }
    }
}

/// Whether the global configuration applies where no other does.
pub open spec fn global_applies(args: CliArgs) -> bool {
    args.config_discovery.mode == DiscoveryMode::Default && args.plugins@.len() == 0
}

/// What follows where no configuration applies to the directory.
pub open spec fn without_defaults<E>(global_next: bool) -> MainStepView<E> {
    if global_next {
        MainStepView::SearchGlobal
    } else {
        MainStepView::Done(None)
    }
}

/// The first step to the main configuration.
pub open spec fn find_main<E>(args: CliArgs, cwd: PathBuf) -> MainStepView<E> {
    match args.config {
        Some(ConfigArg::Text(_)) => MainStepView::ReadArg { cwd, hinted: false },
        Some(ConfigArg::PathOrUrl(value)) => MainStepView::ReadArg {
            cwd,
            hinted: config_arg::opens_like_json(value@),
        },
        None => if args.config_discovery.mode == DiscoveryMode::Global {
            MainStepView::RequireGlobal
        } else if args.config_discovery.traverse_ancestors {
            MainStepView::SearchDefaults { global_next: global_applies(args) }
        } else {
            without_defaults(global_applies(args))
        },
    }
}

/// What follows the configuration of `--config`.
pub open spec fn after_arg<E>(
    cwd: PathBuf,
    hinted: bool,
    outcome: Result<FileTextView, ResolveErrorView<E>>,
) -> MainStepView<E> {
    match outcome {
        Ok(file) => MainStepView::Done(
            Some(
                ConfigView {
                    source: file.source,
                    is_first_download: file.is_first_download,
                    content: file.content,
                    base_path: cwd,
                    is_global_config: false,
                },
            ),
        ),
        Err(error) => MainStepView::Failed(MainErrorView::Arg { error, hinted }),
    }
}

/// What follows the global configuration that has to be there.
pub open spec fn after_required_global<E>(outcome: Result<GlobalConfigView<E>, E>) -> MainStepView<
    E,
> {
    match global_config::required_config(outcome) {
        Ok(config) => MainStepView::Done(Some(config)),
        Err(error) => MainStepView::Failed(MainErrorView::Global(error)),
    }
}

/// What follows the configuration that applies to the directory.
pub open spec fn after_defaults<E>(
    global_next: bool,
    outcome: Result<Option<ConfigView>, E>,
) -> MainStepView<E> {
    match outcome {
        Ok(Some(config)) => MainStepView::Done(Some(config)),
        Ok(None) => without_defaults(global_next),
        Err(error) => MainStepView::Failed(MainErrorView::Environment(error)),
    }
}

/// What follows the global configuration.
pub open spec fn after_global<E>(outcome: Result<GlobalConfigView<E>, E>) -> MainStepView<E> {
    match outcome {
        Ok(GlobalConfigView::Found(config)) => MainStepView::Done(Some(config)),
        Ok(_) => MainStepView::Done(None),
        Err(error) => MainStepView::Failed(MainErrorView::Environment(error)),
    }
}

fn continue_without_defaults<E>(global_next: bool) -> (step: MainStep<E>)
    ensures
        step@ == without_defaults::<E>(global_next),
{
    if global_next {
        MainStep::SearchGlobal(PendingGlobal {  })
    } else {
        MainStep::Done(None)
    }
}

/// Starts to look for the main configuration in the current directory `cwd`.
pub fn resolve_main_config_path_and_bytes<E>(args: &CliArgs, cwd: PathBuf) -> (step: MainStep<E>)
    ensures
        step@ == find_main::<E>(*args, cwd),
{
    let global_next = matches!(args.config_discovery.mode, DiscoveryMode::Default)
        && args.plugins.len() == 0;
    match &args.config {
        Some(ConfigArg::Text(_)) => MainStep::ReadArg(PendingArg { cwd, hinted: false }),
        Some(ConfigArg::PathOrUrl(value)) => MainStep::ReadArg(
            PendingArg { cwd, hinted: config_arg::is_like_json(value.as_str()) },
        ),
        None => if matches!(args.config_discovery.mode, DiscoveryMode::Global) {
            MainStep::RequireGlobal(PendingRequiredGlobal {  })
        } else if args.config_discovery.traverse_ancestors {
            MainStep::SearchDefaults(PendingDefaults { global_next })
        } else {
            continue_without_defaults(global_next)
        },
    }
}

/// The outcome of reading the configuration of `--config`.
pub open spec fn text_view<E>(outcome: Result<ResolvedFilePathWithText, ResolveError<E>>) -> Result<
    FileTextView,
    ResolveErrorView<E>,
> {
    match outcome {
        Ok(file) => Ok(file@),
        Err(error) => Err(error@),
    }
}

impl PendingArg {
    /// Goes on with the configuration of `--config`. File patterns in it are relative
    /// to the current directory.
    pub fn on_arg<E>(self, outcome: Result<ResolvedFilePathWithText, ResolveError<E>>) -> (step:
        MainStep<E>)
        ensures
            step@ == after_arg(self.cwd, self.hinted, text_view(outcome)),
    {
        match outcome {
            Ok(file) => MainStep::Done(
                Some(
                    ResolvedConfigPathWithText {
                        content: file.content,
                        source: file.source,
                        is_first_download: file.is_first_download,
                        base_path: self.cwd,
                        is_global_config: false,
                    },
                ),
            ),
            Err(error) => MainStep::Failed(MainError::Arg { error, hinted: self.hinted }),
        }
    }
}

impl PendingRequiredGlobal {
    /// Goes on with the global configuration.
    pub fn on_global<E>(self, outcome: Result<ResolveGlobalConfigPathResult<E>, E>) -> (step:
        MainStep<E>)
        ensures
            step@ == after_required_global(global_config::global_view(outcome)),
    {
        match global_config::resolve_global_config_path_or_error(outcome) {
            Ok(config) => MainStep::Done(Some(config)),
            Err(error) => MainStep::Failed(MainError::Global(error)),
        }
    }
}

/// The outcome of looking for the configuration that applies to the directory.
pub open spec fn defaults_view<E>(
    outcome: Result<Option<ResolvedConfigPathWithText>, E>,
) -> Result<Option<ConfigView>, E> {
    match outcome {
        Ok(config) => Ok(config_file::optional_config(config)),
        Err(error) => Err(error),
    }
}

impl PendingDefaults {
    /// Goes on with the configuration that applies to the directory.
    pub fn on_defaults<E>(self, outcome: Result<Option<ResolvedConfigPathWithText>, E>) -> (step:
        MainStep<E>)
        ensures
            step@ == after_defaults(self.global_next, defaults_view(outcome)),
    {
        match outcome {
            Ok(Some(config)) => MainStep::Done(Some(config)),
            Ok(None) => continue_without_defaults(self.global_next),
            Err(error) => MainStep::Failed(MainError::Environment(error)),
        }
    }
}

impl PendingGlobal {
    /// Goes on with the global configuration.
    pub fn on_global<E>(self, outcome: Result<ResolveGlobalConfigPathResult<E>, E>) -> (step:
        MainStep<E>)
        ensures
            step@ == after_global(global_config::global_view(outcome)),
    {
        match global_config::resolve_global_config_path_and_text(outcome) {
            Ok(config) => MainStep::Done(config),
            Err(error) => MainStep::Failed(MainError::Environment(error)),
        }
    }
}

/// What the places are that the main configuration can be in.
pub ghost struct Places<E> {
    /// What comes of reading the configuration of `--config`.
    pub arg: Result<FileTextView, ResolveErrorView<E>>,
    /// What comes of looking for the one that applies to the directory.
    pub defaults: Result<Option<ConfigView>, E>,
    /// What comes of looking for the global one.
    pub global: Result<GlobalConfigView<E>, E>,
}

/// What comes of looking for the main configuration.
pub open spec fn main_outcome<E>(step: MainStepView<E>, places: Places<E>) -> Result<
    Option<ConfigView>,
    MainErrorView<E>,
>
    decreases
            match step {
                MainStepView::Done(_) => 0nat,
                MainStepView::Failed(_) => 0,
                MainStepView::SearchDefaults { .. } => 2,
                _ => 1,
            },
{
    match step {
        MainStepView::ReadArg { cwd, hinted } => main_outcome(
            after_arg(cwd, hinted, places.arg),
            places,
        ),
        MainStepView::RequireGlobal => main_outcome(after_required_global(places.global), places),
        MainStepView::SearchDefaults { global_next } => main_outcome(
            after_defaults(global_next, places.defaults),
            places,
        ),
        MainStepView::SearchGlobal => main_outcome(after_global(places.global), places),
        MainStepView::Done(config) => Ok(config),
        MainStepView::Failed(error) => Err(error),
    }
}

/// Where `--config` is given nothing else is looked at: neither how configuration is
/// looked for otherwise nor what is there makes a difference.
pub proof fn a_named_configuration_is_the_only_one_looked_at<E>(
    args: CliArgs,
    other: CliArgs,
    cwd: PathBuf,
    places: Places<E>,
    elsewhere: Places<E>,
)
    requires
        args.config is Some,
        other.config == args.config,
        elsewhere.arg == places.arg,
    ensures
        main_outcome(find_main(args, cwd), places) == main_outcome(
            find_main(other, cwd),
            elsewhere,
        ),
        places.arg is Ok <==> main_outcome(find_main(args, cwd), places) is Ok,
        main_outcome(find_main(args, cwd), places) matches Ok(config) ==> config is Some,
{
    reveal_with_fuel(main_outcome, 2);
}

/// Where the global configuration is asked for it has to be there, and the one that
/// applies to the directory is not looked at.
pub proof fn the_global_configuration_has_to_be_there_where_it_is_asked_for<E>(
    args: CliArgs,
    cwd: PathBuf,
    places: Places<E>,
)
    requires
        args.config is None,
        args.config_discovery.mode == DiscoveryMode::Global,
    ensures
        main_outcome(find_main(args, cwd), places) == (match places.global {
            Ok(GlobalConfigView::Found(config)) => Ok(Some(config)),
            Ok(GlobalConfigView::NotFound) => Err(
                MainErrorView::Global(GlobalConfigError::NotFound),
            ),
            Ok(GlobalConfigView::FailedResolvingSystemDir(error)) => Err(
                MainErrorView::Global(GlobalConfigError::NoDirectory(error)),
            ),
            Err(error) => Err(MainErrorView::Global(GlobalConfigError::Environment(error))),
        }),
{
    reveal_with_fuel(main_outcome, 2);
}

/// A configuration that applies to the directory comes before the global one.
pub proof fn the_directory_comes_before_the_global_configuration<E>(
    args: CliArgs,
    cwd: PathBuf,
    config: ConfigView,
    places: Places<E>,
)
    requires
        args.config is None,
        args.config_discovery.mode != DiscoveryMode::Global,
        args.config_discovery.traverse_ancestors,
        places.defaults == Ok::<Option<ConfigView>, E>(Some(config)),
    ensures
        main_outcome(find_main(args, cwd), places) == Ok::<Option<ConfigView>, MainErrorView<E>>(
            Some(config),
        ),
{
    reveal_with_fuel(main_outcome, 3);
}

/// The global configuration is fallen back to only where configuration is looked for
/// in the default way and no plugins are given; whether it can be had is then no
/// error. Otherwise it makes no difference.
pub proof fn the_global_configuration_is_a_fallback<E>(
    args: CliArgs,
    cwd: PathBuf,
    places: Places<E>,
)
    requires
        args.config is None,
        args.config_discovery.mode != DiscoveryMode::Global,
        !args.config_discovery.traverse_ancestors || places.defaults == Ok::<
            Option<ConfigView>,
            E,
        >(None),
    ensures
        main_outcome(find_main(args, cwd), places) == (if global_applies(args) {
            match places.global {
                Ok(GlobalConfigView::Found(config)) => Ok(Some(config)),
                Ok(_) => Ok(None),
                Err(error) => Err(MainErrorView::Environment(error)),
            }
        } else {
            Ok(None)
        }),
{
    reveal_with_fuel(main_outcome, 3);
}

/// The text heuristic is explained only where a value that opens like a json object
/// was taken for a path and that failed.
pub proof fn the_heuristic_is_explained_only_of_a_path<E>(
    args: CliArgs,
    cwd: PathBuf,
    places: Places<E>,
)
    ensures
        main_outcome(find_main(args, cwd), places) matches Err(
            MainErrorView::Arg { error, hinted },
        ) ==> places.arg == Err::<FileTextView, ResolveErrorView<E>>(error) && (hinted <==> (
        args.config matches Some(ConfigArg::PathOrUrl(value)) && config_arg::opens_like_json(
            value@,
        ))),
{
    reveal_with_fuel(main_outcome, 3);
}

/// Configuration is marked as the global one exactly where it is, provided that it is
/// so marked where it is found.
pub proof fn only_the_global_configuration_is_marked_global<E>(
    args: CliArgs,
    cwd: PathBuf,
    places: Places<E>,
)
    requires
        places.defaults matches Ok(Some(config)) ==> !config.is_global_config,
        places.global matches Ok(GlobalConfigView::Found(config)) ==> config.is_global_config,
    ensures
        main_outcome(find_main(args, cwd), places) matches Ok(Some(config)) ==> (
        config.is_global_config <==> args.config is None && places.global == Ok::<
            GlobalConfigView<E>,
            E,
        >(GlobalConfigView::Found(config))),
{
    reveal_with_fuel(main_outcome, 3);
}

} // verus!
