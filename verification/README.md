# dprint configuration resolution

Finds the configuration file of the dprint formatter and reads the files that it
refers to, verified with Verus.

`src/` decides; it never touches the file system, the network or the clock. Each
operation that has to is a small state machine: a step says what is needed next (a
path to canonicalize, a file to read, a URL to look up in the cache or to download),
and is handed what came of it. What every step does is stated exactly in the contract
of the function that takes it; what holds of a whole run is proved in the public proof
functions.

- `text`, `remote_url`, `paths`: characters, URLs and local paths
- `http_cache`: what is cached of a response, and for how long it is used unchecked
- `remote_file`, `remote_file_laws`: a file behind a URL, through cache and redirects
- `resolve_path`: what a URL or file path refers to, seen from where it was written
- `resolved_file`, `config_file`, `errors`: what comes of it
- `file_search`, `default_config`, `global_config`, `config_arg`: the places that
  configuration can be in
- `main_config`, `cli`: which of them are looked at, and in what order
- `stdin_reader`: what is piped in

`app/` performs the steps on a real machine.
