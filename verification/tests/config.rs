use dprint::cli::{
    sub_command_needs_config_file, CliArgs, ConfigArg, ConfigDiscovery, ConfigSubCommand,
    ConfigText, DiscoveryMode, EditorServiceSubCommand, StdInFmtSubCommand, SubCommand,
};
use dprint::config_arg::{
    add_config_text_hint, is_stream_path, on_file, read_config_arg,
    resolve_uncanonicalized_local_path, ArgStep, PathFacts, PathKind,
};
use dprint::config_file::ResolvedConfigPathWithText;
use dprint::default_config::{
    get_default_config_file_in_ancestor_directories, get_default_paths, get_start_search_directory,
    start_search_directory, AncestorStep, DefaultsStep, StartDirectory,
};
use dprint::errors::{config_needs_file_message, not_utf8_message, ResolveError};
use dprint::global_config::{
    config_dir_warning, create_missing_folder, dprint_dir, labelled_config_dir_warning,
    resolve_env_var_folder, resolve_global_config_dir,
    resolve_global_config_path_and_text, resolve_global_config_path_and_text_detail,
    resolve_mac_system_config_dir, resolve_or_create_folder, resolve_system_config_dir, FolderOutcome, FolderStep, GlobalConfigError, GlobalDirError, GlobalDirStep, GlobalStep,
    unless_empty, ResolveGlobalConfigPathResult, SystemDirs,
};
use dprint::main_config::{resolve_main_config_path_and_bytes, MainError, MainStep};
use dprint::paths::{LocalPath, PathSource};
use dprint::remote_url::RemoteUrl;
use dprint::resolve_path::{resolve_path_source_to_file_with_cache, FileStep};
use dprint::resolved_file::{ResolvedFilePathWithBytes, ResolvedFilePathWithText};
use std::collections::{BTreeMap, BTreeSet};
use std::path::{Path, PathBuf};

/// Files, directories, pipes and settings that only exist in memory.
struct Environment {
    files: BTreeMap<PathBuf, Vec<u8>>,
    pipes: BTreeMap<PathBuf, Vec<u8>>,
    dirs: BTreeSet<PathBuf>,
    unreadable: BTreeSet<PathBuf>,
    env_vars: BTreeMap<String, String>,
    os: String,
    cwd: PathBuf,
    home_dir: Option<PathBuf>,
    config_dir: Option<PathBuf>,
    stderr: Vec<String>,
    reads: Vec<PathBuf>,
}

type Error = String;

impl Environment {
    fn new() -> Environment {
        Environment {
            files: BTreeMap::new(),
            pipes: BTreeMap::new(),
            dirs: BTreeSet::new(),
            unreadable: BTreeSet::new(),
            env_vars: BTreeMap::new(),
            os: "linux".to_string(),
            cwd: PathBuf::from("/"),
            home_dir: Some(PathBuf::from("/home")),
            config_dir: Some(PathBuf::from("/config")),
            stderr: Vec::new(),
            reads: Vec::new(),
        }
    }

    fn set_os(&mut self, os: &str) {
        self.os = os.to_string();
    }

    fn set_env_var(&mut self, name: &str, value: Option<&str>) {
        match value {
            Some(value) => {
                self.env_vars.insert(name.to_string(), value.to_string());
            }
            None => {
                self.env_vars.remove(name);
            }
        }
    }

    fn env_var(&self, name: &str) -> Option<PathBuf> {
        self.env_vars.get(name).map(PathBuf::from)
    }

    fn mk_dir_all(&mut self, path: &Path) {
        for dir in path.ancestors() {
            self.dirs.insert(dir.to_path_buf());
        }
    }

    fn write_file(&mut self, path: &str, text: &str) {
        self.write_bytes(path, text.as_bytes());
    }

    fn write_bytes(&mut self, path: &str, bytes: &[u8]) {
        let path = PathBuf::from(path);
        self.mk_dir_all(path.parent().unwrap());
        self.files.insert(path, bytes.to_vec());
    }

    fn path_exists(&self, path: &Path) -> bool {
        self.files.contains_key(path) || self.dirs.contains(path) || self.pipes.contains_key(path)
    }

    fn canonicalize(&self, path: &Path) -> Result<PathBuf, Error> {
        if path.starts_with("/dev/fd") || !self.path_exists(path) {
            Err(format!("can't canonicalize {}", path.display()))
        } else {
            Ok(path.to_path_buf())
        }
    }

    fn maybe_read_file(&mut self, path: &Path) -> Result<Option<String>, Error> {
        self.reads.push(path.to_path_buf());
        if self.unreadable.contains(path) {
            return Err(format!("can't read {}", path.display()));
        }
        Ok(self.files.get(path).map(|bytes| String::from_utf8(bytes.clone()).unwrap()))
    }

    fn read_file_bytes(&mut self, path: &Path) -> Result<Vec<u8>, Error> {
        self.reads.push(path.to_path_buf());
        match self.files.get(path).or_else(|| self.pipes.get(path)) {
            Some(bytes) => Ok(bytes.clone()),
            None => Err(format!("can't read {}", path.display())),
        }
    }

    fn facts(&self, path: &Path) -> PathFacts {
        PathFacts {
            exists: self.path_exists(path),
            is_file: self.files.contains_key(path),
            kind: if self.files.contains_key(path) {
                Some(PathKind::File)
            } else if self.dirs.contains(path) {
                Some(PathKind::Dir)
            } else {
                None
            },
        }
    }

    fn system_dirs(&self) -> SystemDirs {
        SystemDirs {
            xdg_config_home: self.env_var("XDG_CONFIG_HOME"),
            config_dir: self.config_dir.clone(),
            dprint_dir_exists: match &self.config_dir {
                Some(config_dir) => self.path_exists(&real_path(&dprint_dir(&LocalPath::new(
                    config_dir.clone(),
                )))),
                None => false,
            },
            home_dir: self.home_dir.clone(),
        }
    }

    fn system_config_dir(&self) -> Option<PathBuf> {
        resolve_system_config_dir(&self.os, self.system_dirs()).map(|dir| real_path(&dir))
    }

    fn mac_system_config_dir(&self) -> Option<PathBuf> {
        resolve_mac_system_config_dir(self.system_dirs()).map(|dir| real_path(&dir))
    }

    fn run_folder(&mut self, path: LocalPath) -> Result<LocalPath, Error> {
        let mut step = resolve_or_create_folder(path);
        loop {
            step = match step {
                FolderStep::Canonicalize(folder) => {
                    let path = real_path(&folder.path);
                    let outcome = match self.canonicalize(&path) {
                        Ok(path) => FolderOutcome::Canonical(path),
                        Err(error) => FolderOutcome::NotFound(error),
                    };
                    folder.on_canonicalized(outcome)
                }
                FolderStep::CreateParent(pending) => {
                    let parent = pending.parent.clone();
                    if !self.unreadable.contains(&parent) {
                        self.mk_dir_all(&parent);
                    }
                    let outcome = self.canonicalize(&parent);
                    pending.on_canonicalized(outcome)
                }
                FolderStep::Resolved(path) => return Ok(path),
                FolderStep::Failed(error) => return Err(error),
            };
        }
    }

    fn global_dir(&mut self) -> Result<LocalPath, GlobalDirError<Error>> {
        let system = resolve_system_config_dir(&self.os, self.system_dirs());
        let mut step = resolve_global_config_dir(self.env_var("DPRINT_CONFIG_DIR"), system);
        loop {
            step = match step {
                GlobalDirStep::Resolve(pending) => {
                    let folder = pending.path.clone();
                    let outcome = self.run_folder(folder.clone());
                    let after = pending.on_folder(outcome);
                    if after.warning.is_some() {
                        self.stderr.push(config_dir_warning(&folder));
                    }
                    after.step
                }
                GlobalDirStep::Done(dir) => return Ok(dir),
                GlobalDirStep::Failed(error) => return Err(error),
            };
        }
    }

    fn global_config(&mut self) -> Result<ResolveGlobalConfigPathResult<Error>, Error> {
        let dir = self.global_dir();
        let mut step = resolve_global_config_path_and_text_detail(dir, self.cwd.clone());
        loop {
            step = match step {
                GlobalStep::Read(read) => {
                    let outcome = self.maybe_read_file(&real_path(&read.search.path()));
                    read.on_read(outcome)
                }
                GlobalStep::Done(result) => return Ok(result),
                GlobalStep::Failed(error) => return Err(error),
            };
        }
    }

    fn run_ancestors(
        &mut self,
        mut step: AncestorStep<Error>,
    ) -> Result<Option<ResolvedConfigPathWithText>, Error> {
        loop {
            step = match step {
                AncestorStep::Read(read) => {
                    let outcome = self.maybe_read_file(&real_path(&read.search.path()));
                    read.on_read(outcome)
                }
                AncestorStep::CanonicalizeFile(file) => {
                    let outcome = self.canonicalize(&real_path(&file.found.file.path()));
                    file.on_canonicalized(outcome)
                }
                AncestorStep::CanonicalizeDir(dir) => {
                    let outcome = self.canonicalize(&real_path(&dir.found.file.dir));
                    dir.on_canonicalized(outcome)
                }
                AncestorStep::Done(config) => return Ok(config),
                AncestorStep::Failed(error) => return Err(error),
            };
        }
    }

    fn default_paths(
        &mut self,
        args: &CliArgs,
    ) -> Result<Option<ResolvedConfigPathWithText>, Error> {
        let is_absolute = match &args.sub_command {
            SubCommand::StdInFmt(command) => Path::new(&command.file_name_or_path).is_absolute(),
            _ => false,
        };
        let start = get_start_search_directory(&args.sub_command, is_absolute, self.cwd.clone());
        let mut step = get_default_paths(start, &self.cwd);
        loop {
            step = match step {
                DefaultsStep::CanonicalizeStart(start) => {
                    let outcome = self.canonicalize(&start.dir);
                    start.on_canonicalized(outcome)
                }
                DefaultsStep::Read(read) => {
                    let outcome = self.maybe_read_file(&real_path(&read.search.path()));
                    read.on_read(outcome)
                }
                DefaultsStep::CanonicalizeFile(file) => {
                    let outcome = self.canonicalize(&real_path(&file.found.file.path()));
                    file.on_canonicalized(outcome)
                }
                DefaultsStep::Ancestors(step) => return self.run_ancestors(step),
                DefaultsStep::Done(config) => return Ok(Some(config)),
                DefaultsStep::Failed(error) => return Err(error),
            };
        }
    }

    fn run_local_file(
        &mut self,
        source: PathSource,
    ) -> Result<ResolvedFilePathWithBytes, ResolveError<Error>> {
        match resolve_path_source_to_file_with_cache(source, 0) {
            FileStep::Read(pending) => {
                let outcome = self.read_file_bytes(&real_path(&pending.local.path));
                pending.on_read(outcome)
            }
            FileStep::Failed(error) => Err(error),
            _ => panic!("expected a local file"),
        }
    }

    fn config_arg(
        &mut self,
        config: &ConfigArg,
        sub_command: &SubCommand,
    ) -> Result<ResolvedFilePathWithText, ResolveError<Error>> {
        let mut step =
            read_config_arg(config, self.cwd.clone(), self.home_dir.clone(), sub_command);
        loop {
            step = match step {
                ArgStep::Canonicalize(pending) => {
                    let outcome = self.canonicalize(&real_path(&pending.path));
                    pending.on_canonicalized(outcome)
                }
                ArgStep::Inspect(pending) => {
                    let facts = self.facts(&real_path(&pending.path));
                    pending.on_inspected(facts)
                }
                ArgStep::ReadStream(stream) => {
                    let outcome = self.read_file_bytes(&real_path(&stream.path));
                    stream.on_read(outcome)
                }
                ArgStep::ReadFile(source) => on_file(self.run_local_file(source)),
                ArgStep::Done(file) => return Ok(file),
                ArgStep::Failed(error) => return Err(error),
            };
        }
    }

    fn main_config(
        &mut self,
        args: &CliArgs,
    ) -> Result<Option<ResolvedConfigPathWithText>, MainError<Error>> {
        let mut step = resolve_main_config_path_and_bytes(args, self.cwd.clone());
        loop {
            step = match step {
                MainStep::ReadArg(pending) => {
                    let config = args.config.as_ref().unwrap();
                    let outcome = self.config_arg(config, &args.sub_command);
                    pending.on_arg(outcome)
                }
                MainStep::RequireGlobal(pending) => pending.on_global(self.global_config()),
                MainStep::SearchDefaults(pending) => pending.on_defaults(self.default_paths(args)),
                MainStep::SearchGlobal(pending) => pending.on_global(self.global_config()),
                MainStep::Done(config) => return Ok(config),
                MainStep::Failed(error) => return Err(error),
            };
        }
    }
}

fn real_path(path: &LocalPath) -> PathBuf {
    path.to_path_buf()
}

fn source_path(source: &PathSource) -> PathBuf {
    real_path(source.maybe_local_path().unwrap())
}

fn args(mode: DiscoveryMode, traverse_ancestors: bool) -> CliArgs {
    CliArgs {
        config: None,
        sub_command: SubCommand::Other,
        plugins: Vec::new(),
        config_discovery: ConfigDiscovery { mode, traverse_ancestors },
    }
}

fn args_with_config(config: &str) -> CliArgs {
    let mut args = args(DiscoveryMode::Default, true);
    args.config = Some(ConfigArg::PathOrUrl(config.to_string()));
    args
}

#[test]
fn test_sub_command_needs_config_file() {
    // these either write the configuration file back or run long enough to
    // read it again, so one-shot text and pipes are no good to them
    assert!(sub_command_needs_config_file(&SubCommand::Config(ConfigSubCommand::Edit)));
    assert!(sub_command_needs_config_file(&SubCommand::Lsp));
    assert!(sub_command_needs_config_file(&SubCommand::EditorService(EditorServiceSubCommand {
        parent_pid: 1
    })));
    assert!(!sub_command_needs_config_file(&SubCommand::EditorInfo));
    assert!(!sub_command_needs_config_file(&SubCommand::Version));
}

#[test]
fn test_resolve_system_config_dir_macos_with_xdg_config_home() {
    let mut env = Environment::new();
    env.set_os("macos");
    env.set_env_var("XDG_CONFIG_HOME", Some("/custom/xdg/config"));

    let result = env.system_config_dir();
    assert_eq!(result, Some(PathBuf::from("/custom/xdg/config")));
}

#[test]
fn test_resolve_system_config_dir_macos_with_empty_xdg_config_home() {
    let mut env = Environment::new();
    env.set_os("macos");
    env.set_env_var("XDG_CONFIG_HOME", Some(""));

    // Empty XDG_CONFIG_HOME should be ignored, fall back to $HOME/.config
    let result = env.system_config_dir();
    assert_eq!(result, Some(PathBuf::from("/home/.config")));
}

#[test]
fn test_resolve_system_config_dir_macos_with_existing_dprint_dir() {
    let mut env = Environment::new();
    env.set_os("macos");
    env.mk_dir_all(Path::new("/config/dprint"));

    let result = env.system_config_dir();
    assert_eq!(result, Some(PathBuf::from("/config")));
}

#[test]
fn test_resolve_system_config_dir_macos_without_existing_dprint_dir() {
    let mut env = Environment::new();
    env.set_os("macos");
    // Don't create /config/dprint

    // Should fall back to $HOME/.config
    let result = env.system_config_dir();
    assert_eq!(result, Some(PathBuf::from("/home/.config")));
}

#[test]
fn test_resolve_system_config_dir_macos_priority_xdg_over_existing() {
    let mut env = Environment::new();
    env.set_os("macos");
    env.set_env_var("XDG_CONFIG_HOME", Some("/custom/xdg"));
    env.mk_dir_all(Path::new("/config/dprint"));

    // XDG_CONFIG_HOME should take priority even if dprint dir exists
    let result = env.system_config_dir();
    assert_eq!(result, Some(PathBuf::from("/custom/xdg")));
}

#[test]
fn test_resolve_system_config_dir_linux() {
    let mut env = Environment::new();
    env.set_os("linux");

    // Non-macOS should use config_dir
    let result = env.system_config_dir();
    assert_eq!(result, Some(PathBuf::from("/config")));
}

#[test]
fn test_resolve_system_config_dir_windows() {
    let mut env = Environment::new();
    env.set_os("windows");

    // Non-macOS should use config_dir
    let result = env.system_config_dir();
    assert_eq!(result, Some(PathBuf::from("/config")));
}

#[test]
fn test_resolve_mac_system_config_dir_xdg_priority() {
    let mut env = Environment::new();
    env.set_env_var("XDG_CONFIG_HOME", Some("/xdg"));
    env.mk_dir_all(Path::new("/config/dprint"));

    let result = env.mac_system_config_dir();
    assert_eq!(result, Some(PathBuf::from("/xdg")));
}

#[test]
fn test_resolve_mac_system_config_dir_existing_dprint_priority() {
    let mut env = Environment::new();
    env.mk_dir_all(Path::new("/config/dprint"));

    let result = env.mac_system_config_dir();
    assert_eq!(result, Some(PathBuf::from("/config")));
}

#[test]
fn test_resolve_mac_system_config_dir_home_fallback() {
    let env = Environment::new();
    // No XDG_CONFIG_HOME, no existing dprint dir

    let result = env.mac_system_config_dir();
    assert_eq!(result, Some(PathBuf::from("/home/.config")));
}

#[test]
fn a_mac_without_any_directory_has_none() {
    let mut env = Environment::new();
    env.home_dir = None;
    assert_eq!(env.mac_system_config_dir(), None);
}

#[test]
fn test_resolve_env_var_folder_with_value() {
    let mut env = Environment::new();
    env.set_env_var("TEST_VAR", Some("/some/path"));

    let result = resolve_env_var_folder(env.env_var("TEST_VAR"));
    assert_eq!(result, Some(PathBuf::from("/some/path")));
}

#[test]
fn test_resolve_env_var_folder_with_empty_value() {
    let mut env = Environment::new();
    env.set_env_var("TEST_VAR", Some(""));

    let result = resolve_env_var_folder(env.env_var("TEST_VAR"));
    assert_eq!(result, None);
}

#[test]
fn test_resolve_env_var_folder_not_set() {
    let env = Environment::new();

    let result = resolve_env_var_folder(env.env_var("NONEXISTENT_VAR"));
    assert_eq!(result, None);
    assert_eq!(unless_empty(PathBuf::from("/a"), false), Some(PathBuf::from("/a")));
    assert_eq!(unless_empty(PathBuf::from("/a"), true), None);
}

#[test]
fn the_nearest_file_with_the_preferred_name_is_found() {
    let mut env = Environment::new();
    env.cwd = PathBuf::from("/a/b/c");
    env.write_file("/dprint.json", "root");
    env.write_file("/a/.dprint.jsonc", "hidden");
    env.write_file("/a/dprint.jsonc", "plain");
    env.mk_dir_all(Path::new("/a/b/c"));
    let step = get_default_config_file_in_ancestor_directories(&env.cwd);
    let config = env.run_ancestors(step).unwrap().unwrap();
    assert_eq!(source_path(&config.source), PathBuf::from("/a/dprint.jsonc"));
    assert_eq!(config.content, "plain");
    assert_eq!(config.base_path, PathBuf::from("/a"));
    assert_eq!(config.is_global_config, false);
    assert_eq!(config.is_first_download, false);
    // every name of the nearer directories was tried first, in order
    let tried: Vec<String> = env.reads.iter().map(|path| path.display().to_string()).collect();
    assert_eq!(
        tried,
        vec![
            "/a/b/c/dprint.json",
            "/a/b/c/dprint.jsonc",
            "/a/b/c/.dprint.json",
            "/a/b/c/.dprint.jsonc",
            "/a/b/dprint.json",
            "/a/b/dprint.jsonc",
            "/a/b/.dprint.json",
            "/a/b/.dprint.jsonc",
            "/a/dprint.json",
            "/a/dprint.jsonc",
        ]
    );
}

#[test]
fn nothing_is_found_where_nothing_is() {
    let mut env = Environment::new();
    env.cwd = PathBuf::from("/a");
    let step = get_default_config_file_in_ancestor_directories(&env.cwd);
    assert_eq!(env.run_ancestors(step).unwrap(), None);
    assert_eq!(env.reads.len(), 8);
}

#[test]
fn a_file_that_cannot_be_read_ends_the_search() {
    let mut env = Environment::new();
    env.write_file("/dprint.jsonc", "");
    env.unreadable.insert(PathBuf::from("/dprint.json"));
    let result = env.main_config(&args(DiscoveryMode::Default, true));
    assert_eq!(result, Err(MainError::Environment("can't read /dprint.json".to_string())));
}

#[test]
fn formatting_stdin_starts_at_the_file_path() {
    let mut env = Environment::new();
    env.cwd = PathBuf::from("/work");
    env.write_file("/work/dprint.json", "work");
    env.write_file("/editor/dprint.json", "editor");
    let mut args = args(DiscoveryMode::Default, true);
    let stdin_fmt = |path: &str| {
        SubCommand::StdInFmt(StdInFmtSubCommand { file_name_or_path: path.to_string() })
    };

    args.sub_command = stdin_fmt("/editor/file.ts");
    let config = env.main_config(&args).unwrap().unwrap();
    assert_eq!(config.content, "editor");
    assert_eq!(config.base_path, PathBuf::from("/editor"));
    assert_eq!(source_path(&config.source), PathBuf::from("/editor/dprint.json"));

    // a relative path says nothing
    args.sub_command = stdin_fmt("editor/file.ts");
    assert_eq!(env.main_config(&args).unwrap().unwrap().content, "work");

    // nor does the root, which has no parent
    args.sub_command = stdin_fmt("/");
    assert_eq!(env.main_config(&args).unwrap().unwrap().content, "work");

    // where nothing is next to the file, the current directory is searched
    env.mk_dir_all(Path::new("/empty"));
    args.sub_command = stdin_fmt("/empty/file.ts");
    assert_eq!(env.main_config(&args).unwrap().unwrap().content, "work");

    // and a directory that does not exist is an error
    args.sub_command = stdin_fmt("/missing/file.ts");
    assert_eq!(
        env.main_config(&args),
        Err(MainError::Environment("can't canonicalize /missing".to_string()))
    );
}

#[test]
fn only_formatting_stdin_starts_elsewhere() {
    let cwd = PathBuf::from("/work");
    assert_eq!(
        get_start_search_directory(&SubCommand::Lsp, true, cwd.clone()),
        StartDirectory::Known(cwd.clone())
    );
    let parent = Some(PathBuf::from("/editor"));
    assert_eq!(
        start_search_directory(&SubCommand::Lsp, true, parent, cwd.clone()),
        StartDirectory::Known(cwd.clone())
    );
    let stdin_fmt = SubCommand::StdInFmt(StdInFmtSubCommand {
        file_name_or_path: "/editor/sub/file.ts".to_string(),
    });
    assert_eq!(
        get_start_search_directory(&stdin_fmt, true, cwd.clone()),
        StartDirectory::Canonicalize(PathBuf::from("/editor/sub"))
    );
    assert_eq!(
        get_start_search_directory(&stdin_fmt, false, cwd.clone()),
        StartDirectory::Known(cwd)
    );
}

#[test]
fn the_global_configuration_is_found_in_the_system_directory() {
    let mut env = Environment::new();
    env.cwd = PathBuf::from("/work");
    env.write_file("/config/dprint/dprint.json", "json");
    let config = env.main_config(&args(DiscoveryMode::Default, true)).unwrap().unwrap();
    assert_eq!(config.content, "json");
    assert_eq!(config.is_global_config, true);
    assert_eq!(config.base_path, PathBuf::from("/work"));
    assert_eq!(source_path(&config.source), PathBuf::from("/config/dprint/dprint.json"));

    // dprint.jsonc is preferred
    env.write_file("/config/dprint/dprint.jsonc", "jsonc");
    let config = env.main_config(&args(DiscoveryMode::Global, false)).unwrap().unwrap();
    assert_eq!(config.content, "jsonc");
}

#[test]
fn a_file_in_the_directory_comes_before_the_global_configuration() {
    let mut env = Environment::new();
    env.write_file("/config/dprint/dprint.json", "global");
    env.write_file("/dprint.json", "local");
    let config = env.main_config(&args(DiscoveryMode::Default, true)).unwrap().unwrap();
    assert_eq!(config.content, "local");
    // but not where the global one is asked for
    let config = env.main_config(&args(DiscoveryMode::Global, true)).unwrap().unwrap();
    assert_eq!(config.content, "global");
    // nor where directories are not searched
    let config = env.main_config(&args(DiscoveryMode::Default, false)).unwrap().unwrap();
    assert_eq!(config.content, "global");
}

#[test]
fn plugins_on_the_command_line_replace_the_global_configuration() {
    let mut env = Environment::new();
    env.write_file("/config/dprint/dprint.json", "global");
    let mut args = args(DiscoveryMode::Default, true);
    args.plugins.push("plugin.wasm".to_string());
    assert_eq!(env.main_config(&args).unwrap(), None);
}

#[test]
fn other_ways_to_look_do_not_fall_back_to_the_global_configuration() {
    let mut env = Environment::new();
    env.write_file("/config/dprint/dprint.json", "global");
    assert_eq!(env.main_config(&args(DiscoveryMode::Other, true)).unwrap(), None);
    assert_eq!(env.main_config(&args(DiscoveryMode::Other, false)).unwrap(), None);
}

#[test]
fn a_global_configuration_that_is_asked_for_has_to_be_there() {
    let mut env = Environment::new();
    let error = env.main_config(&args(DiscoveryMode::Global, false)).err().unwrap();
    assert_eq!(error, MainError::Global(GlobalConfigError::NotFound));
    assert_eq!(
        GlobalConfigError::<String>::NotFound.message().unwrap(),
        "Could not find global dprint.json file. Create one with `dprint init --global`"
    );

    env.config_dir = None;
    let error = env.main_config(&args(DiscoveryMode::Global, false)).err().unwrap();
    match error {
        MainError::Global(GlobalConfigError::NoDirectory(reason)) => {
            assert_eq!(
                reason.message().unwrap(),
                "Could not find system config directory."
            );
            assert_eq!(
                GlobalConfigError::NoDirectory(reason).message().unwrap(),
                "Could not find system config directory. Maybe specify the DPRINT_CONFIG_DIR environment variable to say where to store the global dprint configuration file."
            );
        }
        _ => panic!("expected that there is no directory"),
    }
    // otherwise that is no error
    assert_eq!(env.main_config(&args(DiscoveryMode::Default, true)).unwrap(), None);
    assert_eq!(resolve_global_config_path_and_text(env.global_config()), Ok(None));
}

#[test]
fn a_global_configuration_that_cannot_be_read_is_an_error() {
    let mut env = Environment::new();
    env.unreadable.insert(PathBuf::from("/config/dprint/dprint.jsonc"));
    let message = "can't read /config/dprint/dprint.jsonc".to_string();
    assert_eq!(
        env.main_config(&args(DiscoveryMode::Global, false)),
        Err(MainError::Global(GlobalConfigError::Environment(message.clone())))
    );
    assert_eq!(
        env.main_config(&args(DiscoveryMode::Default, true)),
        Err(MainError::Environment(message.clone()))
    );
    assert_eq!(GlobalConfigError::Environment(message).message(), None);
}

#[test]
fn the_directory_of_the_environment_variable_comes_first() {
    let mut env = Environment::new();
    env.set_env_var("DPRINT_CONFIG_DIR", Some("/custom/dir"));
    env.write_file("/custom/dir/dprint.json", "custom");
    env.write_file("/config/dprint/dprint.json", "system");
    let config = env.main_config(&args(DiscoveryMode::Global, false)).unwrap().unwrap();
    assert_eq!(config.content, "custom");
    env.set_env_var("DPRINT_CONFIG_DIR", Some(""));
    let config = env.main_config(&args(DiscoveryMode::Global, false)).unwrap().unwrap();
    assert_eq!(config.content, "system");
    assert_eq!(env.stderr, Vec::<String>::new());
}

#[test]
fn a_folder_that_is_missing_is_named_after_its_parent() {
    let mut env = Environment::new();
    env.set_env_var("DPRINT_CONFIG_DIR", Some("/new/folder"));
    let dir = env.global_dir().unwrap();
    assert_eq!(real_path(&dir), PathBuf::from("/new/folder"));
    assert!(env.dirs.contains(Path::new("/new")));
    // the folder itself is not created
    assert!(!env.dirs.contains(Path::new("/new/folder")));
}

#[test]
fn a_folder_that_cannot_be_had_is_warned_of() {
    let mut env = Environment::new();
    env.set_env_var("DPRINT_CONFIG_DIR", Some("/locked/folder"));
    env.unreadable.insert(PathBuf::from("/locked"));
    let dir = env.global_dir().unwrap();
    assert_eq!(real_path(&dir), PathBuf::from("/config/dprint"));
    let text = " Could not resolve DPRINT_CONFIG_DIR value '/locked/folder'. Falling back to system configuration directory.";
    assert_eq!(env.stderr.len(), 1);
    assert!(
        env.stderr[0] == format!("Warning{}", text)
            || env.stderr[0] == format!("\u{1b}[0m\u{1b}[33mWarning\u{1b}[0m{}", text)
    );
    assert_eq!(
        labelled_config_dir_warning("Warning", "/locked/folder"),
        format!("Warning{}", text)
    );
    // the directory of the system has nothing to fall back to
    env.config_dir = Some(PathBuf::from("/locked"));
    assert_eq!(
        env.global_dir(),
        Err(GlobalDirError::Environment("can't canonicalize /locked".to_string()))
    );
    assert_eq!(GlobalDirError::Environment("a".to_string()).message(), None);
}

#[test]
fn folders_keep_the_error_that_came() {
    let folder = || match resolve_or_create_folder::<String>(LocalPath::new(PathBuf::from("/"))) {
        FolderStep::Canonicalize(folder) => folder,
        _ => panic!("expected that the path is canonicalized"),
    };
    // a path without a parent can't be created
    assert_eq!(
        folder().on_canonicalized(FolderOutcome::NotFound("missing".to_string())),
        FolderStep::Failed("missing".to_string())
    );
    assert_eq!(
        create_missing_folder("missing".to_string(), Some(PathBuf::from("/")), None),
        FolderStep::Failed("missing".to_string())
    );
    assert_eq!(
        folder().on_canonicalized(FolderOutcome::Failed("denied".to_string())),
        FolderStep::Failed("denied".to_string())
    );
}

#[test]
fn a_named_configuration_comes_before_all_others() {
    let mut env = Environment::new();
    env.cwd = PathBuf::from("/work");
    env.write_file("/work/dprint.json", "default");
    env.write_file("/work/sub/other.json", "named");
    let mut args = args_with_config("sub/other.json");
    let config = env.main_config(&args).unwrap().unwrap();
    assert_eq!(config.content, "named");
    assert_eq!(config.base_path, PathBuf::from("/work"));
    assert_eq!(config.is_global_config, false);
    assert_eq!(source_path(&config.source), PathBuf::from("/work/sub/other.json"));
    let file = config.as_file_path_with_text_ref();
    assert_eq!(file.content, "named");
    assert_eq!(source_path(file.source), PathBuf::from("/work/sub/other.json"));
    args.config_discovery.mode = DiscoveryMode::Global;
    assert_eq!(env.main_config(&args).unwrap().unwrap().content, "named");
}

#[test]
fn a_named_configuration_in_the_home_directory_is_found() {
    let mut env = Environment::new();
    env.write_file("/home/other.json", "home");
    let config = env.main_config(&args_with_config("~/other.json")).unwrap().unwrap();
    assert_eq!(config.content, "home");
}

#[test]
fn a_named_configuration_has_to_be_there() {
    let mut env = Environment::new();
    let error = ResolveError::Environment("can't canonicalize /other.json".to_string());
    assert_eq!(
        env.main_config(&args_with_config("other.json")),
        Err(MainError::Arg { error, hinted: false })
    );
    // a directory fails when it is read
    env.mk_dir_all(Path::new("/dir"));
    let error = ResolveError::Environment("can't read /dir".to_string());
    assert_eq!(
        env.main_config(&args_with_config("dir")),
        Err(MainError::Arg { error, hinted: false })
    );
}

#[test]
fn text_that_was_taken_for_a_path_is_explained() {
    let mut env = Environment::new();
    let error = ResolveError::Environment("can't canonicalize / {\"a\":1".to_string());
    assert_eq!(
        env.main_config(&args_with_config(" {\"a\":1")),
        Err(MainError::Arg { error, hinted: true })
    );
    assert_eq!(
        add_config_text_hint("failed".to_string(), " {\"a\":1"),
        "failed\n\nThe --config value is only read as the configuration itself when it starts with `{` and ends with `}`. Use --config - to read the configuration from stdin instead."
    );
    assert_eq!(add_config_text_hint("failed".to_string(), "a{"), "failed");
    assert_eq!(add_config_text_hint("failed".to_string(), ""), "failed");
}

#[test]
fn configuration_text_counts_as_a_file_in_the_current_directory() {
    let mut env = Environment::new();
    env.cwd = PathBuf::from("/work");
    let mut args = args(DiscoveryMode::Default, true);
    args.config = Some(ConfigArg::Text(ConfigText {
        text: "{}".to_string(),
        origin: "stdin".to_string(),
    }));
    let config = env.main_config(&args).unwrap().unwrap();
    assert_eq!(config.content, "{}");
    assert_eq!(source_path(&config.source), PathBuf::from("/work/<config>"));
    match config.source {
        PathSource::Local(local) => assert_eq!(local.origin, Some("stdin".to_string())),
        _ => panic!("expected a local source"),
    }

    // but it won't do where a file is needed
    args.sub_command = SubCommand::Lsp;
    let error = ResolveError::ConfigNeedsFile("stdin".to_string());
    assert_eq!(
        error.message().unwrap(),
        "Cannot use the configuration provided by --config (stdin) with this sub command because it needs a configuration file it can read again or write back to. Specify a file path instead (ex. --config dprint.json)."
    );
    assert_eq!(error.message().unwrap(), config_needs_file_message("stdin"));
    assert_eq!(env.main_config(&args), Err(MainError::Arg { error, hinted: false }));
}

#[test]
fn pipes_are_read_as_streams() {
    let mut env = Environment::new();
    env.cwd = PathBuf::from("/work");
    env.pipes.insert(PathBuf::from("/work/fifo"), "piped".as_bytes().to_vec());
    // this one can't be canonicalized
    env.pipes.insert(PathBuf::from("/dev/fd/63"), "substituted".as_bytes().to_vec());
    for (config, path, text) in
        [("fifo", "/work/fifo", "piped"), ("/dev/fd/63", "/dev/fd/63", "substituted")]
    {
        let mut args = args_with_config(config);
        let config = env.main_config(&args).unwrap().unwrap();
        assert_eq!(config.content, text);
        assert_eq!(source_path(&config.source), PathBuf::from("/work/<config>"));
        match config.source {
            PathSource::Local(local) => assert_eq!(local.origin, Some(path.to_string())),
            _ => panic!("expected a local source"),
        }

        // a sub command that needs a file turns it away before it is read
        args.sub_command = SubCommand::Config(ConfigSubCommand::Update);
        env.reads.clear();
        assert_eq!(
            env.main_config(&args),
            Err(MainError::Arg {
                error: ResolveError::ConfigNeedsFile(path.to_string()),
                hinted: false
            })
        );
        assert_eq!(env.reads, Vec::<PathBuf>::new());
    }
}

#[test]
fn text_has_to_be_utf8() {
    let mut env = Environment::new();
    env.pipes.insert(PathBuf::from("/fifo"), vec![0xff]);
    let error = ResolveError::NotUtf8 {
        display: "/fifo".to_string(),
        reason: "invalid utf-8 sequence of 1 bytes from index 0".to_string(),
    };
    assert_eq!(error.message().unwrap(), "Failed converting '/fifo' to string.");
    assert_eq!(
        env.main_config(&args_with_config("fifo")),
        Err(MainError::Arg { error, hinted: false })
    );
    env.write_bytes("/file.json", &[b'a', 0xe9]);
    let error = ResolveError::FileNotUtf8 {
        source: PathSource::new_local(LocalPath::new(PathBuf::from("/file.json"))),
        reason: "incomplete utf-8 byte sequence from index 1".to_string(),
    };
    assert_eq!(error.message(), None);
    assert_eq!(not_utf8_message("/file.json"), "Failed converting '/file.json' to string.");
    assert_eq!(
        env.main_config(&args_with_config("file.json")),
        Err(MainError::Arg { error, hinted: false })
    );
    env.write_bytes("/file.json", "é".as_bytes());
    let config = env.main_config(&args_with_config("file.json")).unwrap().unwrap();
    assert_eq!(config.content, "é");
}

#[test]
fn configuration_behind_a_url_is_fetched() {
    let config = ConfigArg::PathOrUrl("https://dprint.dev/dprint.json".to_string());
    let url = RemoteUrl::parse("https://dprint.dev/dprint.json").unwrap();
    let step =
        read_config_arg::<String>(&config, PathBuf::from("/work"), None, &SubCommand::Lsp);
    assert_eq!(step, ArgStep::ReadFile(PathSource::new_remote(url.clone())));
    let file = ResolvedFilePathWithBytes {
        source: PathSource::new_remote(url),
        is_first_download: true,
        content: "{}".as_bytes().to_vec(),
    };
    match on_file::<String>(Ok(file.clone())) {
        ArgStep::Done(text) => {
            assert_eq!(text.source, file.source);
            assert_eq!(text.is_first_download, true);
            assert_eq!(text.content, "{}");
            assert_eq!(text.clone(), text);
        }
        _ => panic!("expected the configuration"),
    }
    assert_eq!(
        on_file::<String>(Err(ResolveError::NpmNotUrlOrFilePath)),
        ArgStep::Failed(ResolveError::NpmNotUrlOrFilePath)
    );
}

#[test]
fn streams_are_neither_files_nor_directories() {
    let facts = |exists: bool, is_file: bool, kind: Option<PathKind>| PathFacts {
        exists,
        is_file,
        kind,
    };
    assert!(is_stream_path(&facts(true, false, None)));
    assert!(is_stream_path(&facts(true, false, Some(PathKind::File))));
    assert!(!is_stream_path(&facts(true, true, Some(PathKind::File))));
    assert!(!is_stream_path(&facts(true, false, Some(PathKind::Dir))));
    assert!(!is_stream_path(&facts(false, false, None)));
}

#[test]
fn paths_are_joined_name_by_name() {
    assert_eq!(LocalPath::new(PathBuf::from("/a")).join("b").display(), "/a/b");
    let path = LocalPath::new(PathBuf::from("/a"));
    assert_eq!(path.to_path_buf(), PathBuf::from("/a"));
    assert_eq!(path.join("b").join("c/d").to_path_buf(), PathBuf::from("/a/b/c/d"));
    assert_eq!(path.join("/b").to_path_buf(), PathBuf::from("/b"));
}

#[test]
fn local_values_are_made_absolute() {
    let cwd = PathBuf::from("/work");
    let home = Some(PathBuf::from("/home"));
    let resolve = |config: &str, home: Option<PathBuf>| {
        resolve_uncanonicalized_local_path(config, &cwd, home).map(|path| real_path(&path))
    };
    assert_eq!(resolve("~/a.json", home.clone()), Some(PathBuf::from("/home/a.json")));
    assert_eq!(resolve("~/a.json", None), None);
    assert_eq!(resolve("a.json", home.clone()), Some(PathBuf::from("/work/a.json")));
    assert_eq!(resolve("/dev/fd/63", home.clone()), Some(PathBuf::from("/dev/fd/63")));
    assert_eq!(resolve("https://dprint.dev/a.json", home.clone()), None);
    assert_eq!(resolve("file:///a.json", home.clone()), Some(PathBuf::from("/a.json")));
    assert_eq!(resolve("file://machine/a.json", home.clone()), None);
    // a single letter is a drive
    assert_eq!(resolve("C:/a.json", home), Some(PathBuf::from("/work/C:/a.json")));
}

#[test]
fn files_are_turned_into_text_with_their_source() {
    let file = ResolvedFilePathWithBytes {
        source: PathSource::new_local(LocalPath::new(PathBuf::from("/a.json"))),
        is_first_download: true,
        content: "ä".as_bytes().to_vec(),
    };
    let text = file.into_text().unwrap();
    assert_eq!(text.content, "ä");
    assert_eq!(text.is_first_download, true);
    assert_eq!(source_path(&text.source), PathBuf::from("/a.json"));
    assert_eq!(text.as_ref().content, "ä");
    assert_eq!(source_path(text.as_ref().source), PathBuf::from("/a.json"));
}
