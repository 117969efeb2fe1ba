use dprint::errors::ResolveError;
use dprint::http_cache::{
    CacheEntry, HeadersMap, SerializedCachedUrlMetadata, REMOTE_FILE_MAX_AGE_SECS,
};
use dprint::paths::{LocalPath, NpmPathSource, PathSource};
use dprint::remote_file::{
    location_of, stale_warning, use_cache_entry, DownloadResult, FetchStep, RemoteFetch, Target,
    MAX_REDIRECTS,
};
use dprint::remote_url::RemoteUrl;
use dprint::resolve_path::{
    fetch_file_or_url_bytes, is_absolute_windows_file_path, on_canonicalized,
    resolve_path_source_to_file_with_cache, resolve_url_or_file_path_to_file_with_cache,
    resolve_url_or_file_path_to_path_source, try_parse_url, BytesAction, FileStep, Located,
};
use dprint::resolved_file::ResolvedFilePathWithBytes;
use std::collections::HashMap;
use std::path::{Path, PathBuf};

enum Remote {
    File(Vec<u8>),
    Redirect(String),
    Error(String),
}

struct CachedFile {
    headers: HeadersMap,
    time: u64,
    content: Vec<u8>,
}

/// Files, a network, a cache and a clock that only exist in memory.
struct Environment {
    files: HashMap<PathBuf, Vec<u8>>,
    remote: HashMap<String, Remote>,
    cache: HashMap<String, CachedFile>,
    now_secs: u64,
    home_dir: Option<PathBuf>,
    stderr: Vec<String>,
    downloads: usize,
    /// Whether paths are those of Windows.
    windows: bool,
}

impl Environment {
    fn new() -> Environment {
        Environment {
            files: HashMap::new(),
            remote: HashMap::new(),
            cache: HashMap::new(),
            now_secs: 0,
            home_dir: Some(PathBuf::from("/home")),
            stderr: Vec::new(),
            downloads: 0,
            windows: false,
        }
    }

    fn windows() -> Environment {
        Environment { windows: true, ..Environment::new() }
    }

    fn real_path(&self, path: &LocalPath) -> PathBuf {
        if self.windows {
            path.joined.iter().fold(path.base.clone(), |path, name| windows_join(&path, name))
        } else {
            path.to_path_buf()
        }
    }

    fn write_file(&mut self, path: &str, text: &str) {
        self.files.insert(PathBuf::from(path), text.as_bytes().to_vec());
    }

    fn add_remote_file(&mut self, url: &str, content: &[u8]) {
        self.remote.insert(url.to_string(), Remote::File(content.to_vec()));
    }

    fn add_remote_file_redirect(&mut self, url: &str, to: &str) {
        self.remote.insert(url.to_string(), Remote::Redirect(to.to_string()));
    }

    fn add_remote_file_error(&mut self, url: &str, message: &str) {
        self.remote.insert(url.to_string(), Remote::Error(message.to_string()));
    }

    fn remove_remote_file(&mut self, url: &str) {
        self.remote.remove(url);
    }

    fn set_time(&mut self, now_secs: u64) {
        self.now_secs = now_secs;
    }

    fn take_stderr_messages(&mut self) -> Vec<String> {
        std::mem::take(&mut self.stderr)
    }

    fn canonicalize(&self, path: &LocalPath) -> Result<PathBuf, String> {
        let path = self.real_path(path);
        if self.files.keys().any(|file| file.starts_with(&path)) {
            Ok(path)
        } else {
            Err(format!("no such file: {}", path.display()))
        }
    }

    fn read_file_bytes(&self, path: &LocalPath) -> Result<Vec<u8>, String> {
        let path = self.real_path(path);
        match self.files.get(&path) {
            Some(content) => Ok(content.clone()),
            None => Err(format!("no such file: {}", path.display())),
        }
    }

    fn cached(&self, url: &RemoteUrl) -> Option<CacheEntry> {
        let file = self.cache.get(url.as_str())?;
        Some(CacheEntry {
            metadata: SerializedCachedUrlMetadata {
                headers: file.headers.clone(),
                url: url.as_str().to_string(),
                time: Some(file.time),
            },
            content: file.content.clone(),
        })
    }

    fn download_file_no_redirects(&mut self, url: &RemoteUrl) -> Result<Option<DownloadResult>, String> {
        self.downloads += 1;
        let mut headers = HeadersMap::new();
        match self.remote.get(url.as_str()) {
            Some(Remote::File(content)) => {
                Ok(Some(DownloadResult { headers, content: content.clone() }))
            }
            Some(Remote::Redirect(to)) => {
                headers.insert("location".to_string(), to.clone());
                Ok(Some(DownloadResult { headers, content: Vec::new() }))
            }
            Some(Remote::Error(message)) => Err(message.clone()),
            None => Ok(None),
        }
    }

    fn run_fetch(
        &mut self,
        fetch: RemoteFetch,
    ) -> Result<ResolvedFilePathWithBytes, ResolveError<String>> {
        let mut step = FetchStep::LookUp(fetch);
        loop {
            step = match step {
                FetchStep::LookUp(fetch) => {
                    let entry = self.cached(fetch.current_url());
                    fetch.on_lookup(Ok(entry))
                }
                FetchStep::Download(download) => {
                    let requested_url = download.requested_url().as_str().to_string();
                    let url = download.current_url().clone();
                    let after = download.on_download(self.download_file_no_redirects(&url));
                    if let Some(error) = after.warning {
                        self.stderr.push(stale_warning(&requested_url, &error));
                    }
                    after.step
                }
                FetchStep::Done { file, writes } => {
                    for write in writes {
                        self.cache.insert(
                            write.url.as_str().to_string(),
                            CachedFile {
                                headers: write.headers,
                                time: self.now_secs,
                                content: write.content,
                            },
                        );
                    }
                    return Ok(file);
                }
                FetchStep::Failed(error) => return Err(error),
            };
        }
    }

    fn run_file(
        &mut self,
        mut step: FileStep<String>,
    ) -> Result<ResolvedFilePathWithBytes, ResolveError<String>> {
        loop {
            step = match step {
                FileStep::Canonicalize(pending) => {
                    let outcome = self.canonicalize(&pending.path);
                    pending.on_canonicalized(outcome)
                }
                FileStep::Read(pending) => {
                    let outcome = self.read_file_bytes(&pending.local.path);
                    return pending.on_read(outcome);
                }
                FileStep::Fetch(fetch) => return self.run_fetch(fetch),
                FileStep::Failed(error) => return Err(error),
            };
        }
    }

    fn resolve_file(
        &mut self,
        text: &str,
        base: &PathSource,
    ) -> Result<ResolvedFilePathWithBytes, ResolveError<String>> {
        let step = resolve_url_or_file_path_to_file_with_cache(
            text,
            base,
            self.home_dir.clone(),
            self.now_secs,
        );
        self.run_file(step)
    }

    fn resolve_source(
        &self,
        text: &str,
        base: &PathSource,
    ) -> Result<PathSource, ResolveError<String>> {
        match resolve_url_or_file_path_to_path_source(text, base, self.home_dir.clone())? {
            Located::Source(source) => Ok(source),
            Located::Canonicalize(path) => on_canonicalized(self.canonicalize(&path)),
        }
    }
}

/// A path that starts with a drive replaces the one that it is joined to.
fn windows_join(path: &Path, name: &str) -> PathBuf {
    let name = name.replace('/', "\\");
    if name.chars().nth(1) == Some(':') {
        PathBuf::from(name)
    } else {
        PathBuf::from(format!("{}\\{}", path.display(), name))
    }
}

fn local(path: &str) -> PathSource {
    PathSource::new_local(LocalPath::new(PathBuf::from(path)))
}

fn remote(url: &str) -> PathSource {
    PathSource::new_remote(RemoteUrl::parse(url).unwrap())
}

fn is_remote(source: &PathSource) -> bool {
    matches!(source, PathSource::Remote(_))
}

fn local_path(source: &PathSource) -> PathBuf {
    source.maybe_local_path().unwrap().to_path_buf()
}

#[test]
fn should_resolve_a_url() {
    let mut environment = Environment::new();
    environment.add_remote_file("https://dprint.dev/test.json", "t".as_bytes());
    let base = local("/");
    let url = "https://dprint.dev/test.json";
    let result = environment.resolve_file(url, &base).unwrap();
    assert_eq!(is_remote(&result.source), true);
    assert_eq!(result.is_first_download, true);
    assert_eq!(result.content, "t".as_bytes());

    // should get a second time from the cache
    let result = environment.resolve_file(url, &base).unwrap();
    assert_eq!(is_remote(&result.source), true);
    assert_eq!(result.is_first_download, false);
    assert_eq!(result.content, "t".as_bytes());
    assert_eq!(environment.downloads, 1);
}

#[test]
fn should_resolve_a_relative_path_to_base_url() {
    let mut environment = Environment::new();
    environment.add_remote_file("https://dprint.dev/asdf/test/test.json", "t".as_bytes());
    let base = remote("https://dprint.dev/asdf/");
    let result = environment.resolve_file("test/test.json", &base).unwrap();
    assert_eq!(is_remote(&result.source), true);
    assert_eq!(result.source, remote("https://dprint.dev/asdf/test/test.json"));
    assert_eq!(result.content, "t".as_bytes());
}

#[test]
fn should_resolve_a_file_url_on_unix() {
    let mut environment = Environment::new();
    environment.write_file("/test/test.json", "{}");
    let result = environment.resolve_file("file:///test/test.json", &local("/")).unwrap();
    assert_eq!(is_remote(&result.source), false);
    assert_eq!(local_path(&result.source), PathBuf::from("/test/test.json"));
}

#[test]
fn should_resolve_an_absolute_path_on_windows() {
    let mut environment = Environment::windows();
    environment.write_file("C:\\test\\test.json", "{}");
    let result = environment.resolve_file("C:\\test\\test.json", &local("V:\\")).unwrap();
    assert_eq!(is_remote(&result.source), false);
    assert_eq!(local_path(&result.source), PathBuf::from("C:\\test\\test.json"));
}

#[test]
fn should_resolve_an_absolute_path_on_windows_using_forward_slashes() {
    let mut environment = Environment::windows();
    environment.write_file("C:\\test\\test.json", "{}");
    let result = environment.resolve_file("C:/test/test.json", &local("V:\\")).unwrap();
    assert_eq!(is_remote(&result.source), false);
    assert_eq!(local_path(&result.source), PathBuf::from("C:\\test\\test.json"));
}

#[test]
fn should_resolve_a_relative_file_path() {
    let mut environment = Environment::new();
    environment.write_file("/test/test.json", "{}");
    let result = environment.resolve_file("test/test.json", &local("/")).unwrap();
    assert_eq!(is_remote(&result.source), false);
    assert_eq!(local_path(&result.source), PathBuf::from("/test/test.json"));
}

#[test]
fn should_resolve_a_file_path_relative_to_base_path() {
    let mut environment = Environment::new();
    environment.write_file("/other/test/test.json", "{}");
    let result = environment.resolve_file("test/test.json", &local("/other")).unwrap();
    assert_eq!(is_remote(&result.source), false);
    assert_eq!(local_path(&result.source), PathBuf::from("/other/test/test.json"));
}

#[test]
fn should_error_when_url_cannot_be_resolved() {
    let mut environment = Environment::new();
    let err = environment
        .resolve_file("https://dprint.dev/test.json", &local("/other"))
        .err()
        .unwrap();
    assert_eq!(
        err.message().unwrap(),
        "Error downloading https://dprint.dev/test.json - 404 Not Found"
    );
}

#[test]
fn should_resolve_url_using_redirected_url() {
    let mut environment = Environment::new();
    environment.add_remote_file("https://cdn.example.com/v1/plugin.json", "content".as_bytes());
    environment.add_remote_file_redirect(
        "https://example.com/plugin.json",
        "https://cdn.example.com/v1/plugin.json",
    );
    let base = local("/");
    let result = environment.resolve_file("https://example.com/plugin.json", &base).unwrap();
    assert_eq!(is_remote(&result.source), true);
    assert_eq!(result.is_first_download, true);
    assert_eq!(result.content, "content".as_bytes());
    // the resolved path source should use the redirected URL
    assert_eq!(result.source, remote("https://cdn.example.com/v1/plugin.json"));
    // relative paths should resolve against the redirected URL
    let parent = match &result.source {
        PathSource::Remote(source) => PathSource::new_remote(source.url.join("./").unwrap()),
        _ => panic!("expected a remote source"),
    };
    let relative_result = environment.resolve_source("downloads/plugin.zip", &parent).unwrap();
    assert_eq!(relative_result, remote("https://cdn.example.com/v1/downloads/plugin.zip"));

    // should get from cache on second request and still have correct redirect URL
    let result2 = environment.resolve_file("https://example.com/plugin.json", &base).unwrap();
    assert_eq!(result2.is_first_download, false);
    assert_eq!(result2.source, remote("https://cdn.example.com/v1/plugin.json"));
}

#[test]
fn should_check_for_changes_once_cache_entry_is_stale() {
    const START: u64 = 1_000_000;
    let mut environment = Environment::new();
    let url = "https://dprint.dev/test.json";
    environment.add_remote_file(url, "1".as_bytes());
    environment.set_time(START);
    let base = local("/");
    let result = environment.resolve_file(url, &base).unwrap();
    assert_eq!(result.content, "1".as_bytes());
    assert_eq!(result.is_first_download, true);

    // a fresh cache entry is used even though the remote file changed
    environment.add_remote_file(url, "2".as_bytes());
    environment.set_time(START + REMOTE_FILE_MAX_AGE_SECS - 1);
    let result = environment.resolve_file(url, &base).unwrap();
    assert_eq!(result.content, "1".as_bytes());
    assert_eq!(result.is_first_download, false);

    // once stale, the url is checked for changes
    environment.set_time(START + REMOTE_FILE_MAX_AGE_SECS);
    let result = environment.resolve_file(url, &base).unwrap();
    assert_eq!(result.content, "2".as_bytes());
    assert_eq!(result.is_first_download, true);

    // checking an unchanged file is not a first download
    environment.set_time(START + REMOTE_FILE_MAX_AGE_SECS * 2);
    let result = environment.resolve_file(url, &base).unwrap();
    assert_eq!(result.content, "2".as_bytes());
    assert_eq!(result.is_first_download, false);

    // the check made the entry fresh again
    environment.add_remote_file(url, "3".as_bytes());
    environment.set_time(START + REMOTE_FILE_MAX_AGE_SECS * 3 - 1);
    let result = environment.resolve_file(url, &base).unwrap();
    assert_eq!(result.content, "2".as_bytes());
    assert_eq!(result.is_first_download, false);

    environment.set_time(START + REMOTE_FILE_MAX_AGE_SECS * 3);
    let result = environment.resolve_file(url, &base).unwrap();
    assert_eq!(result.content, "3".as_bytes());
    assert_eq!(result.is_first_download, true);
    assert_eq!(environment.take_stderr_messages(), Vec::<String>::new());
}

#[test]
fn should_use_stale_cache_entry_when_checking_for_changes_fails() {
    const START: u64 = 1_000_000;
    let mut environment = Environment::new();
    let url = "https://dprint.dev/test.json";
    environment.add_remote_file(url, "1".as_bytes());
    environment.set_time(START);
    let base = local("/");
    let result = environment.resolve_file(url, &base).unwrap();
    assert_eq!(result.content, "1".as_bytes());

    environment.add_remote_file_error(url, "network down");
    environment.set_time(START + REMOTE_FILE_MAX_AGE_SECS);
    let result = environment.resolve_file(url, &base).unwrap();
    assert_eq!(result.content, "1".as_bytes());
    assert_eq!(result.is_first_download, false);
    assert_eq!(result.source, remote(url));
    assert_eq!(
        environment.take_stderr_messages(),
        vec!["Using the cached version of https://dprint.dev/test.json because checking it for changes failed. network down".to_string()]
    );

    // the failure doesn't refresh the entry, so it's checked again next time
    environment.add_remote_file(url, "2".as_bytes());
    let result = environment.resolve_file(url, &base).unwrap();
    assert_eq!(result.content, "2".as_bytes());
    assert_eq!(result.is_first_download, true);
}

#[test]
fn should_error_when_stale_remote_file_no_longer_exists() {
    const START: u64 = 1_000_000;
    let mut environment = Environment::new();
    let url = "https://dprint.dev/test.json";
    environment.add_remote_file(url, "1".as_bytes());
    environment.set_time(START);
    let base = local("/");
    environment.resolve_file(url, &base).unwrap();

    environment.remove_remote_file(url);
    environment.set_time(START + REMOTE_FILE_MAX_AGE_SECS);
    let err = environment.resolve_file(url, &base).err().unwrap();
    assert_eq!(
        err.message().unwrap(),
        "Error downloading https://dprint.dev/test.json - 404 Not Found"
    );
}

#[test]
fn should_check_stale_redirect_for_changes() {
    const START: u64 = 1_000_000;
    let mut environment = Environment::new();
    let url = "https://example.com/plugin.json";
    environment.add_remote_file("https://cdn.example.com/v1/plugin.json", "v1".as_bytes());
    environment.add_remote_file("https://cdn.example.com/v2/plugin.json", "v2".as_bytes());
    environment.add_remote_file_redirect(url, "https://cdn.example.com/v1/plugin.json");
    environment.set_time(START);
    let base = local("/");
    let result = environment.resolve_file(url, &base).unwrap();
    assert_eq!(result.content, "v1".as_bytes());

    // the cached redirect is used while fresh
    environment.add_remote_file_redirect(url, "https://cdn.example.com/v2/plugin.json");
    environment.set_time(START + REMOTE_FILE_MAX_AGE_SECS - 1);
    let result = environment.resolve_file(url, &base).unwrap();
    assert_eq!(result.content, "v1".as_bytes());
    assert_eq!(result.is_first_download, false);

    // then checked for changes
    environment.set_time(START + REMOTE_FILE_MAX_AGE_SECS);
    let result = environment.resolve_file(url, &base).unwrap();
    assert_eq!(result.content, "v2".as_bytes());
    assert_eq!(result.is_first_download, true);
    assert_eq!(result.source, remote("https://cdn.example.com/v2/plugin.json"));
}

#[test]
fn should_count_changed_redirect_to_cached_target_as_first_download() {
    const START: u64 = 1_000_000;
    let mut environment = Environment::new();
    let url = "https://example.com/plugin.json";
    let v1_url = "https://cdn.example.com/v1/plugin.json";
    let v2_url = "https://cdn.example.com/v2/plugin.json";
    environment.add_remote_file(v1_url, "v1".as_bytes());
    environment.add_remote_file(v2_url, "v2".as_bytes());
    environment.add_remote_file_redirect(url, v1_url);
    environment.set_time(START);
    let base = local("/");
    let result = environment.resolve_file(url, &base).unwrap();
    assert_eq!(result.content, "v1".as_bytes());

    // the new target is cached and fresh, but it's new for this url
    environment.set_time(START + REMOTE_FILE_MAX_AGE_SECS - 1);
    let result = environment.resolve_file(v2_url, &base).unwrap();
    assert_eq!(result.is_first_download, true);
    environment.add_remote_file_redirect(url, v2_url);
    environment.set_time(START + REMOTE_FILE_MAX_AGE_SECS);
    let result = environment.resolve_file(url, &base).unwrap();
    assert_eq!(result.content, "v2".as_bytes());
    assert_eq!(result.is_first_download, true);
    assert_eq!(result.source, remote(v2_url));

    // the re-checked redirect was cached, so the remote redirect isn't consulted again
    environment.add_remote_file_redirect(url, "https://cdn.example.com/v3/plugin.json");
    let result = environment.resolve_file(url, &base).unwrap();
    assert_eq!(result.content, "v2".as_bytes());
    assert_eq!(result.is_first_download, false);
    assert_eq!(environment.take_stderr_messages(), Vec::<String>::new());
}

#[test]
fn should_use_previous_redirect_chain_when_new_target_fails() {
    const START: u64 = 1_000_000;
    let mut environment = Environment::new();
    let url = "https://example.com/plugin.json";
    let v1_url = "https://cdn.example.com/v1/plugin.json";
    let v2_url = "https://cdn.example.com/v2/plugin.json";
    environment.add_remote_file(v1_url, "v1".as_bytes());
    environment.add_remote_file_redirect(url, v1_url);
    environment.set_time(START);
    let base = local("/");
    environment.resolve_file(url, &base).unwrap();

    // the redirect now points at a target that can't be downloaded
    environment.add_remote_file_redirect(url, v2_url);
    environment.add_remote_file_error(v2_url, "network down");
    environment.set_time(START + REMOTE_FILE_MAX_AGE_SECS);
    let result = environment.resolve_file(url, &base).unwrap();
    assert_eq!(result.content, "v1".as_bytes());
    assert_eq!(result.is_first_download, false);
    assert_eq!(result.source, remote(v1_url));
    assert_eq!(
        environment.take_stderr_messages(),
        vec!["Using the cached version of https://example.com/plugin.json because checking it for changes failed. network down".to_string()]
    );

    // also when the previous target can't be re-checked either
    environment.add_remote_file_error(v1_url, "network down");
    environment.set_time(START + REMOTE_FILE_MAX_AGE_SECS * 2);
    let result = environment.resolve_file(url, &base).unwrap();
    assert_eq!(result.content, "v1".as_bytes());
    assert_eq!(result.is_first_download, false);
    assert_eq!(environment.take_stderr_messages().len(), 2);

    // the new redirect wasn't cached, so it's picked up once its target is available
    environment.add_remote_file(v2_url, "v2".as_bytes());
    let result = environment.resolve_file(url, &base).unwrap();
    assert_eq!(result.content, "v2".as_bytes());
    assert_eq!(result.is_first_download, true);
    assert_eq!(result.source, remote(v2_url));
    assert_eq!(environment.take_stderr_messages(), Vec::<String>::new());
}

#[test]
fn should_use_previous_content_when_it_becomes_a_redirect_whose_target_fails() {
    const START: u64 = 1_000_000;
    let mut environment = Environment::new();
    let url = "https://example.com/plugin.json";
    let v2_url = "https://cdn.example.com/v2/plugin.json";
    environment.add_remote_file(url, "v1".as_bytes());
    environment.set_time(START);
    let base = local("/");
    environment.resolve_file(url, &base).unwrap();

    // the url now redirects to a target that can't be downloaded
    environment.add_remote_file_redirect(url, v2_url);
    environment.add_remote_file_error(v2_url, "network down");
    environment.set_time(START + REMOTE_FILE_MAX_AGE_SECS);
    let result = environment.resolve_file(url, &base).unwrap();
    assert_eq!(result.content, "v1".as_bytes());
    assert_eq!(result.is_first_download, false);
    assert_eq!(result.source, remote(url));
    assert_eq!(
        environment.take_stderr_messages(),
        vec!["Using the cached version of https://example.com/plugin.json because checking it for changes failed. network down".to_string()]
    );

    // then the redirect is followed once its target is available
    environment.add_remote_file(v2_url, "v2".as_bytes());
    let result = environment.resolve_file(url, &base).unwrap();
    assert_eq!(result.content, "v2".as_bytes());
    assert_eq!(result.is_first_download, true);
    assert_eq!(result.source, remote(v2_url));
    assert_eq!(environment.take_stderr_messages(), Vec::<String>::new());
}

#[test]
fn should_get_if_absolute_windows_file_path() {
    assert!(is_absolute_windows_file_path("C:/test"));
    assert!(is_absolute_windows_file_path("C:\\test"));
    assert!(!is_absolute_windows_file_path("C://test"));
    assert!(!is_absolute_windows_file_path("C:\\\\test"));
}

#[test]
fn should_resolve_home_dir() {
    let mut environment = Environment::new();
    let base = local("/other");
    let cases = [
        ("~/file.json", "/home/file.json"),
        ("~/other/file.json", "/home/other/file.json"),
        ("~/a/file.json", "/home/a/file.json"),
    ];
    for (input, expected) in cases {
        environment.write_file(expected, "");
        let result = environment.resolve_file(input, &base).unwrap();
        assert_eq!(is_remote(&result.source), false);
        assert_eq!(local_path(&result.source), Path::new(expected));
    }
}

#[test]
fn the_home_directory_itself_is_not_canonicalized() {
    let environment = Environment::new();
    let source = environment.resolve_source("~/", &local("/other")).unwrap();
    assert_eq!(source, local("/home"));
}

#[test]
fn a_path_in_an_unknown_home_directory_is_an_error() {
    let mut environment = Environment::new();
    environment.home_dir = None;
    let err = environment.resolve_source("~/file.json", &local("/")).err().unwrap();
    assert_eq!(err, ResolveError::NoHomeDirectory);
    assert_eq!(err.message().unwrap(), "Failed to get home directory path");
}

#[test]
fn windows_paths_are_not_urls() {
    assert!(try_parse_url("C:/test").is_none());
    // any letter may name a drive, and only a letter
    assert!(is_absolute_windows_file_path("z:/test"));
    assert!(is_absolute_windows_file_path("é:/test"));
    assert!(!is_absolute_windows_file_path("1:/test"));
    assert!(!is_absolute_windows_file_path("CC:/test"));
    assert!(!is_absolute_windows_file_path("C:test"));
    assert!(!is_absolute_windows_file_path("C"));
    assert!(!is_absolute_windows_file_path(""));
    assert!(is_absolute_windows_file_path("C:/"));
    // with two slashes it is a url with a scheme of one letter
    assert_eq!(try_parse_url("C://test").unwrap().as_str(), "c://test");
}

#[test]
fn urls_are_read_and_joined() {
    let url = RemoteUrl::parse("HTTPS://Dprint.dev/a/../b.json").unwrap();
    assert_eq!(url.as_str(), "https://dprint.dev/b.json");
    assert_eq!(url.scheme(), "https");
    assert!(!url.cannot_be_a_base());
    assert_eq!(url.join("c.json").unwrap().as_str(), "https://dprint.dev/c.json");
    assert!(RemoteUrl::parse("mailto:someone@dprint.dev").unwrap().cannot_be_a_base());
    assert_eq!(RemoteUrl::parse("not a url").err().unwrap(), "relative URL without a base");
    assert_eq!(url.join("https://[").err().unwrap(), "invalid IPv6 address");
    assert!(url.same(&url.clone()));
    assert_eq!(RemoteUrl::parse(url.as_str()).unwrap(), url);
}

#[test]
fn a_url_without_slashes_is_relative_to_where_it_was_written() {
    let mut environment = Environment::new();
    environment.write_file("/other/npm:test", "");
    let source = environment.resolve_source("npm:test", &local("/other")).unwrap();
    assert_eq!(source, local("/other/npm:test"));
    let source = environment.resolve_source("npm:test", &remote("https://dprint.dev/a")).unwrap();
    assert_eq!(source, remote("npm:test"));
}

#[test]
fn only_relative_paths_need_a_base() {
    let environment = Environment::new();
    let npm = PathSource::Npm(NpmPathSource { specifier: "npm:dprint".to_string() });
    let source = environment.resolve_source("https://dprint.dev/", &npm).unwrap();
    assert_eq!(source, remote("https://dprint.dev/"));
    let err = environment.resolve_source("test.json", &npm).err().unwrap();
    assert_eq!(
        err.message().unwrap(),
        "Cannot resolve a relative path against an npm specifier"
    );
}

#[test]
fn a_file_url_of_another_machine_is_an_error() {
    let environment = Environment::new();
    let err = environment.resolve_source("file://machine/test.json", &local("/")).err().unwrap();
    assert_eq!(
        err.message().unwrap(),
        "Problem converting file url `file://machine/test.json` to file path."
    );
}

#[test]
fn an_invalid_relative_url_is_an_error() {
    let environment = Environment::new();
    let err = environment
        .resolve_source("//[", &remote("https://dprint.dev/"))
        .err()
        .unwrap();
    assert_eq!(err, ResolveError::InvalidUrl("invalid IPv6 address".to_string()));
    assert_eq!(err.message().unwrap(), "invalid IPv6 address");
}

#[test]
fn a_missing_local_file_is_an_error_of_the_environment() {
    let mut environment = Environment::new();
    let err = environment.resolve_file("missing.json", &local("/")).err().unwrap();
    assert_eq!(err, ResolveError::Environment("no such file: /missing.json".to_string()));
    assert_eq!(err.message(), None);
}

#[test]
fn an_npm_specifier_is_no_file() {
    let mut environment = Environment::new();
    let npm = PathSource::Npm(NpmPathSource { specifier: "npm:dprint".to_string() });
    let action = fetch_file_or_url_bytes::<String>(&npm);
    assert_eq!(
        action.err().unwrap().message().unwrap(),
        "Cannot fetch bytes directly for an npm specifier"
    );
    let err = environment
        .run_file(resolve_path_source_to_file_with_cache(npm, 0))
        .err()
        .unwrap();
    assert_eq!(
        err.message().unwrap(),
        "Cannot resolve npm specifier as a URL or file path"
    );
}

#[test]
fn bytes_are_fetched_past_the_cache() {
    assert_eq!(
        fetch_file_or_url_bytes::<String>(&remote("https://dprint.dev/a.wasm")).unwrap(),
        BytesAction::Download(RemoteUrl::parse("https://dprint.dev/a.wasm").unwrap())
    );
    assert_eq!(
        fetch_file_or_url_bytes::<String>(&local("/a.wasm")).unwrap(),
        BytesAction::Read(LocalPath::new(PathBuf::from("/a.wasm")))
    );
}

fn redirect_chain(environment: &mut Environment, length: usize) -> String {
    for i in 0..length {
        environment.add_remote_file_redirect(
            &format!("https://dprint.dev/{}", i),
            &format!("https://dprint.dev/{}", i + 1),
        );
    }
    environment.add_remote_file(&format!("https://dprint.dev/{}", length), "end".as_bytes());
    "https://dprint.dev/0".to_string()
}

#[test]
fn as_many_redirects_as_allowed_are_followed() {
    let mut environment = Environment::new();
    let url = redirect_chain(&mut environment, MAX_REDIRECTS);
    let result = environment.resolve_file(&url, &local("/")).unwrap();
    assert_eq!(result.content, "end".as_bytes());
    assert_eq!(environment.downloads, 11);
    // and all of them are served from the cache again
    let result = environment.resolve_file(&url, &local("/")).unwrap();
    assert_eq!(result.content, "end".as_bytes());
    assert_eq!(result.is_first_download, false);
    assert_eq!(environment.downloads, 11);
}

#[test]
fn an_immutable_file_is_served_again_for_its_max_age() {
    let mut environment = Environment::new();
    let url = "https://cdn.example.com/v1/plugin.json";
    let mut headers = HeadersMap::new();
    headers.insert("cache-control".to_string(), "immutable, max-age=31536000".to_string());
    let fetch = RemoteFetch::new(RemoteUrl::parse(url).unwrap(), 0);
    let step: FetchStep<String> = match fetch.on_lookup::<String>(Ok(None)) {
        FetchStep::Download(download) => download
            .on_download(Ok(Some(DownloadResult { headers, content: "v1".as_bytes().to_vec() })))
            .step,
        _ => panic!("expected a download"),
    };
    match step {
        FetchStep::Done { writes, .. } => {
            for write in writes {
                environment.cache.insert(
                    write.url.as_str().to_string(),
                    CachedFile { headers: write.headers, time: 0, content: write.content },
                );
            }
        }
        _ => panic!("expected the file"),
    }
    environment.set_time(31535999);
    let result = environment.resolve_file(url, &local("/")).unwrap();
    assert_eq!(result.content, "v1".as_bytes());
    assert_eq!(result.source, remote(url));
    assert_eq!(result.is_first_download, false);
    assert_eq!(environment.downloads, 0);
    environment.set_time(31536000);
    environment.add_remote_file(url, "v2".as_bytes());
    let result = environment.resolve_file(url, &local("/")).unwrap();
    assert_eq!(result.content, "v2".as_bytes());
}

#[test]
fn too_many_redirects_are_an_error_and_leave_the_cache_alone() {
    let mut environment = Environment::new();
    let url = redirect_chain(&mut environment, MAX_REDIRECTS + 1);
    let err = environment.resolve_file(&url, &local("/")).err().unwrap();
    assert_eq!(err.message().unwrap(), "Too many redirects for https://dprint.dev/0");
    assert!(environment.cache.is_empty());
}

#[test]
fn a_circle_of_redirects_ends() {
    let mut environment = Environment::new();
    environment.add_remote_file_redirect("https://dprint.dev/a", "https://dprint.dev/b");
    environment.add_remote_file_redirect("https://dprint.dev/b", "https://dprint.dev/a");
    let err = environment.resolve_file("https://dprint.dev/a", &local("/")).err().unwrap();
    assert_eq!(err.message().unwrap(), "Too many redirects for https://dprint.dev/a");
}

#[test]
fn a_first_download_that_fails_is_an_error() {
    let mut environment = Environment::new();
    environment.add_remote_file_error("https://dprint.dev/a", "network down");
    let err = environment.resolve_file("https://dprint.dev/a", &local("/")).err().unwrap();
    assert_eq!(err, ResolveError::Environment("network down".to_string()));
    assert_eq!(environment.take_stderr_messages(), Vec::<String>::new());
}

#[test]
fn a_redirect_that_fails_part_way_is_not_cached() {
    let mut environment = Environment::new();
    environment.add_remote_file_redirect("https://dprint.dev/a", "https://dprint.dev/b");
    environment.add_remote_file_error("https://dprint.dev/b", "network down");
    environment.resolve_file("https://dprint.dev/a", &local("/")).err().unwrap();
    assert!(environment.cache.is_empty());
}

#[test]
fn a_redirect_to_no_url_is_an_error() {
    let mut environment = Environment::new();
    environment.add_remote_file_redirect("https://dprint.dev/a", "https://[");
    let err = environment.resolve_file("https://dprint.dev/a", &local("/")).err().unwrap();
    assert_eq!(err, ResolveError::InvalidUrl("invalid IPv6 address".to_string()));
}

#[test]
fn a_cache_that_fails_is_an_error() {
    let fetch = RemoteFetch::new(RemoteUrl::parse("https://dprint.dev/a").unwrap(), 0);
    assert_eq!(
        fetch.on_lookup(Err("disk full".to_string())),
        FetchStep::Failed(ResolveError::Environment("disk full".to_string()))
    );
}

#[test]
fn relative_redirects_lead_from_where_they_were_met() {
    let mut environment = Environment::new();
    environment.add_remote_file_redirect("https://dprint.dev/a/b", "../c");
    environment.add_remote_file("https://dprint.dev/c", "c".as_bytes());
    let result = environment.resolve_file("https://dprint.dev/a/b", &local("/")).unwrap();
    assert_eq!(result.source, remote("https://dprint.dev/c"));
}

#[test]
fn relative_urls_are_joined_to_the_url_itself() {
    // the host is lost when this one is read from its text
    let url = RemoteUrl::parse("file://host//C:").unwrap();
    assert_eq!(url.as_str(), "file://host/C:");
    assert_eq!(url.join("x").unwrap().as_str(), "file://host/C:/x");
    assert_eq!(RemoteUrl::parse(url.as_str()).unwrap().as_str(), "file:///C:");

    // and this one can't be read from its text at all
    let label: String = (0..1000u32).filter_map(|i| char::from_u32(0x4e00 + 20 * i)).collect();
    let url = RemoteUrl::parse(&format!("https://{}/", label)).unwrap();
    assert!(RemoteUrl::parse(url.as_str()).is_err());
    assert_eq!(url.join("x").unwrap().as_str(), format!("{}x", url.as_str()));
}

#[test]
fn cache_entries_lead_to_content_or_elsewhere() {
    let url = RemoteUrl::parse("https://dprint.dev/a").unwrap();
    let entry = |location: Option<&str>, url: &str| {
        let mut headers = HeadersMap::new();
        if let Some(location) = location {
            headers.insert("location".to_string(), location.to_string());
        }
        CacheEntry {
            metadata: SerializedCachedUrlMetadata { headers, url: url.to_string(), time: None },
            content: Vec::new(),
        }
    };
    assert_eq!(
        use_cache_entry(&url, &entry(Some("b"), "")),
        Target::Redirect(RemoteUrl::parse("https://dprint.dev/b").unwrap())
    );
    assert_eq!(
        use_cache_entry(&url, &entry(Some("https://["), "")),
        Target::Invalid("invalid IPv6 address".to_string())
    );
    assert_eq!(
        use_cache_entry(&url, &entry(None, "https://dprint.dev/other")),
        Target::Content(RemoteUrl::parse("https://dprint.dev/other").unwrap())
    );
    assert_eq!(use_cache_entry(&url, &entry(None, "no url")), Target::Content(url.clone()));
    assert!(location_of(&url, &HeadersMap::new()).is_none());
}
