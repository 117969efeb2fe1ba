//! Which configuration is the main one, said of what the command line holds.

use std::path::PathBuf;
use vstd::prelude::*;

use crate::cli::{CliArgs, ConfigArg, DiscoveryMode};
use crate::config_file::ConfigView;
use crate::errors::ResolveErrorView;
use crate::global_config::GlobalConfigView;
use crate::main_config;
use crate::main_config::{MainErrorView, MainStepView, Places};
use crate::resolved_file::FileTextView;
use crate::text;
use crate::text_laws;

verus! {

/// Where no configuration is named, configuration is looked for in the default way, no
/// plugins are given and none applies to the directory, the global configuration that is
/// found is the main one, whatever the sub command.
pub proof fn the_global_configuration_is_found_whatever_the_sub_command<E>(
    args: CliArgs,
    cwd: PathBuf,
    config: ConfigView,
    places: Places<E>,
)
    requires
        args.config is None,
        args.config_discovery.mode == DiscoveryMode::Default,
        args.plugins@.len() == 0,
        !args.config_discovery.traverse_ancestors || places.defaults == Ok::<
            Option<ConfigView>,
            E,
        >(None),
        places.global == Ok::<GlobalConfigView<E>, E>(GlobalConfigView::Found(config)),
    ensures
        main_config::main_outcome(main_config::find_main(args, cwd), places) == Ok::<
            Option<ConfigView>,
            MainErrorView<E>,
        >(Some(config)),
{
    reveal_with_fuel(main_config::main_outcome, 3);
}

/// There is no main configuration, and that is no error, where the global one would do but
/// is not there or has no directory. A failure to look for it is an error.
pub proof fn a_missing_global_configuration_is_no_error<E>(
    args: CliArgs,
    cwd: PathBuf,
    places: Places<E>,
)
    requires
        args.config is None,
        args.config_discovery.mode == DiscoveryMode::Default,
        args.plugins@.len() == 0,
        !args.config_discovery.traverse_ancestors || places.defaults == Ok::<
            Option<ConfigView>,
            E,
        >(None),
    ensures
        ({
            let outcome = main_config::main_outcome(main_config::find_main(args, cwd), places);
            &&& places.global matches Ok(found) ==> !(found is Found) ==> outcome == Ok::<
                Option<ConfigView>,
                MainErrorView<E>,
            >(None)
            &&& places.global matches Err(error) ==> outcome == Err::<
                Option<ConfigView>,
                MainErrorView<E>,
            >(MainErrorView::Environment(error))
        }),
{
    reveal_with_fuel(main_config::main_outcome, 3);
}

/// Where plugins are given, or configuration is looked for neither in the default way nor
/// globally, and none applies to the directory, there is no main configuration, whatever
/// the global one is.
pub proof fn given_plugins_rule_the_global_configuration_out<E>(
    args: CliArgs,
    cwd: PathBuf,
    places: Places<E>,
)
    requires
        args.config is None,
        args.config_discovery.mode != DiscoveryMode::Global,
        args.plugins@.len() > 0 || args.config_discovery.mode != DiscoveryMode::Default,
        !args.config_discovery.traverse_ancestors || places.defaults == Ok::<
            Option<ConfigView>,
            E,
        >(None),
    ensures
        main_config::main_outcome(main_config::find_main(args, cwd), places) == Ok::<
            Option<ConfigView>,
            MainErrorView<E>,
        >(None),
{
    reveal_with_fuel(main_config::main_outcome, 3);
}

/// The sub command makes no difference to which configuration is the main one, nor do the
/// plugins beyond whether there are any.
pub proof fn the_sub_command_makes_no_difference<E>(
    args: CliArgs,
    other: CliArgs,
    cwd: PathBuf,
    places: Places<E>,
)
    requires
        args.config == other.config,
        args.config_discovery == other.config_discovery,
        args.plugins@.len() == 0 <==> other.plugins@.len() == 0,
    ensures
        main_config::find_main::<E>(args, cwd) == main_config::find_main::<E>(other, cwd),
        main_config::main_outcome(main_config::find_main(args, cwd), places)
            == main_config::main_outcome(main_config::find_main(other, cwd), places),
{
}

/// Where the directory is searched, what is found there is the main configuration, and a
/// failure of the search is an error, whatever the global configuration is, the sub command
/// and the plugins are.
pub proof fn the_directory_decides_where_it_is_searched<E>(
    args: CliArgs,
    cwd: PathBuf,
    places: Places<E>,
)
    requires
        args.config is None,
        args.config_discovery.mode != DiscoveryMode::Global,
        args.config_discovery.traverse_ancestors,
    ensures
        ({
            let outcome = main_config::main_outcome(main_config::find_main(args, cwd), places);
            &&& places.defaults matches Ok(Some(config)) ==> outcome == Ok::<
                Option<ConfigView>,
                MainErrorView<E>,
            >(Some(config))
            &&& places.defaults matches Err(error) ==> outcome == Err::<
                Option<ConfigView>,
                MainErrorView<E>,
            >(MainErrorView::Environment(error))
        }),
{
    reveal_with_fuel(main_config::main_outcome, 3);
}

/// Where the directory is not searched, what applies to it makes no difference.
pub proof fn the_directory_makes_no_difference_where_it_is_not_searched<E>(
    args: CliArgs,
    cwd: PathBuf,
    places: Places<E>,
    elsewhere: Places<E>,
)
    requires
        !args.config_discovery.traverse_ancestors || args.config_discovery.mode
            == DiscoveryMode::Global || args.config is Some,
        places.arg == elsewhere.arg,
        places.global == elsewhere.global,
    ensures
        main_config::main_outcome(main_config::find_main(args, cwd), places)
            == main_config::main_outcome(main_config::find_main(args, cwd), elsewhere),
{
    reveal_with_fuel(main_config::main_outcome, 3);
}

/// Configuration that was named is used as it was read: file patterns in it are relative to
/// the current directory, and it is not the global one, whatever the sub command, the
/// plugins and how configuration is looked for otherwise.
pub proof fn named_configuration_is_used_as_it_was_read<E>(
    args: CliArgs,
    cwd: PathBuf,
    file: FileTextView,
    places: Places<E>,
)
    requires
        args.config is Some,
        places.arg == Ok::<FileTextView, ResolveErrorView<E>>(file),
    ensures
        main_config::main_outcome(main_config::find_main(args, cwd), places) == Ok::<
            Option<ConfigView>,
            MainErrorView<E>,
        >(
            Some(
                ConfigView {
                    source: file.source,
                    is_first_download: file.is_first_download,
                    content: file.content,
                    base_path: cwd,
                    is_global_config: false,
                },
            ),
        ),
{
    reveal_with_fuel(main_config::main_outcome, 2);
}

/// Named configuration that can't be read is an error, and the text heuristic is explained
/// of a path or URL whose first character that is no white space is an opening brace, but
/// never of text.
pub proof fn named_configuration_that_cant_be_read_is_an_error<E>(
    args: CliArgs,
    cwd: PathBuf,
    error: ResolveErrorView<E>,
    places: Places<E>,
    space: Seq<char>,
    rest: Seq<char>,
)
    requires
        places.arg == Err::<FileTextView, ResolveErrorView<E>>(error),
        forall|i: int| 0 <= i < space.len() ==> text::white_space(#[trigger] space[i]),
        rest.len() > 0 ==> !text::white_space(rest[0]),
        match args.config {
            Some(ConfigArg::PathOrUrl(value)) => value@ == space + rest,
            Some(ConfigArg::Text(_)) => true,
            None => false,
        },
    ensures
        ({
            let hinted = args.config matches Some(ConfigArg::PathOrUrl(_)) && rest.len() > 0
                && rest[0] == '{';
            main_config::main_outcome(main_config::find_main(args, cwd), places) == Err::<
                Option<ConfigView>,
                MainErrorView<E>,
            >(MainErrorView::Arg { error, hinted })
        }),
{
    reveal_with_fuel(main_config::main_outcome, 2);
    let drop = |c: char| text::white_space(c);
    assert forall|i: int| 0 <= i < space.len() implies drop(#[trigger] space[i]) by {}
    text_laws::trimming_drops_the_longest_prefix(space, rest, drop);
}

/// The first step asks for the one place that comes first: what `--config` names, else the
/// global configuration where it is asked for, else what applies to the directory where
/// that is searched.
pub proof fn the_first_place_is_asked_first<E>(args: CliArgs, cwd: PathBuf)
    ensures
        main_config::find_main::<E>(args, cwd) is ReadArg <==> args.config is Some,
        main_config::find_main::<E>(args, cwd) is RequireGlobal <==> args.config is None
            && args.config_discovery.mode == DiscoveryMode::Global,
        main_config::find_main::<E>(args, cwd) is SearchDefaults <==> args.config is None
            && args.config_discovery.mode != DiscoveryMode::Global
            && args.config_discovery.traverse_ancestors,
        main_config::find_main::<E>(args, cwd) matches MainStepView::SearchDefaults { global_next }
            ==> (global_next <==> args.config_discovery.mode == DiscoveryMode::Default
            && args.plugins@.len() == 0),
{
}

} // verus!
