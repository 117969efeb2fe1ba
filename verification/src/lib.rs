//! Resolution of the configuration files of the dprint formatter.

pub mod cli;
pub mod config_arg;
pub mod config_arg_laws;
pub mod config_file;
pub mod default_config;
pub mod directory_laws;
pub mod errors;
pub mod fetch_step_laws;
pub mod file_search;
pub mod freshness_laws;
pub mod global_config;
pub mod global_config_laws;
pub mod http_cache;
pub mod location_laws;
pub mod main_config;
pub mod main_config_laws;
pub mod paths;
pub mod remote_file;
pub mod remote_file_laws;
pub mod remote_url;
pub mod resolve_path;
pub mod resolved_file;
pub mod stdin_reader;
pub mod text;
pub mod text_laws;
pub mod view_laws;
