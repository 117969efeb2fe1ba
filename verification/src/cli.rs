//! What the command line says of the configuration.

use vstd::prelude::*;

verus! {

/// What is done with a configuration file.
#[derive(Debug, PartialEq, Eq)]
pub enum ConfigSubCommand {
    Init,
    Update,
    Add,
    Edit,
}

/// An editor service, which lives as long as the process that started it.
#[derive(Debug, PartialEq, Eq)]
pub struct EditorServiceSubCommand {
    pub parent_pid: u32,
}

/// Formatting of what is read from stdin, as if it were the file named.
#[derive(Debug, PartialEq, Eq)]
pub struct StdInFmtSubCommand {
    pub file_name_or_path: String,
}

/// A sub command, as far as finding the configuration depends on it.
#[derive(Debug, PartialEq, Eq)]
pub enum SubCommand {
    Config(ConfigSubCommand),
    EditorService(EditorServiceSubCommand),
    Lsp,
    EditorInfo,
    Version,
    StdInFmt(StdInFmtSubCommand),
    Other,
}

/// Configuration that was given as text, with how to describe where it is from.
#[derive(Debug, PartialEq, Eq)]
pub struct ConfigText {
    pub text: String,
    pub origin: String,
}

/// The value of `--config`.
#[derive(Debug, PartialEq, Eq)]
pub enum ConfigArg {
    /// The configuration itself, given inline or read from stdin.
    Text(ConfigText),
    /// Where the configuration is.
    PathOrUrl(String),
}

/// How configuration is looked for that was not named.
#[derive(Debug, Clone, Copy, PartialEq, Eq, Structural)]
pub enum DiscoveryMode {
    Default,
    Global,
    Other,
}

/// How configuration is looked for that was not named.
#[derive(Debug, Clone, Copy, PartialEq, Eq, Structural)]
pub struct ConfigDiscovery {
    pub mode: DiscoveryMode,
    /// Whether the directories above the current one are searched.
    pub traverse_ancestors: bool,
}

/// What the command line says of the configuration.
#[derive(Debug, PartialEq, Eq)]
pub struct CliArgs {
    pub config: Option<ConfigArg>,
    pub sub_command: SubCommand,
    pub plugins: Vec<String>,
    pub config_discovery: ConfigDiscovery,
}

/// Whether the sub command needs a configuration file rather than one-shot text.
pub open spec fn needs_config_file(sub_command: SubCommand) -> bool {
    sub_command is Config || sub_command is EditorService || sub_command is Lsp
}

/// Whether the sub command needs a configuration file rather than one-shot
/// text: it either writes the file back, or runs long enough to read it again.
pub fn sub_command_needs_config_file(sub_command: &SubCommand) -> (needed: bool)
    ensures
        needed == needs_config_file(*sub_command),
{
    matches!(sub_command, SubCommand::Config(_) | SubCommand::EditorService(_) | SubCommand::Lsp)
}

} // verus!
