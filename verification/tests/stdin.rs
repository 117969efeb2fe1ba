use dprint::stdin_reader::{is_stdin, FileIdentity, NonEmptyLines, StdInReader};
use std::path::{Path, PathBuf};

fn identity(is_file: bool, device: u64, inode: u64) -> Option<FileIdentity> {
    Some(FileIdentity { is_file, device, inode })
}

#[test]
fn a_regular_file_is_never_stdin() {
    assert!(!is_stdin(identity(true, 1, 2), identity(true, 1, 2)));
    assert!(is_stdin(identity(false, 1, 2), identity(false, 1, 2)));
    assert!(!is_stdin(identity(false, 1, 2), identity(false, 1, 3)));
    assert!(!is_stdin(identity(false, 1, 2), identity(false, 2, 2)));
    assert!(!is_stdin(None, identity(false, 1, 2)));
    assert!(!is_stdin(identity(false, 1, 2), None));
}

#[derive(Clone)]
struct TextReader {
    text: String,
    stdin_paths: Vec<PathBuf>,
}

impl StdInReader<String> for TextReader {
    fn read(&self) -> Result<Vec<u8>, String> {
        Ok(self.text.clone().into_bytes())
    }

    fn is_terminal(&self) -> bool {
        false
    }

    fn is_stdin_path(&self, path: &PathBuf) -> bool {
        self.stdin_paths.contains(path)
    }

    fn read_non_empty_lines(&self) -> Result<Vec<String>, String> {
        let mut lines = NonEmptyLines::new();
        for line in self.text.lines() {
            lines.push(line.to_string());
        }
        Ok(lines.into_lines())
    }
}

#[test]
fn blank_lines_are_skipped() {
    let reader = TextReader {
        text: "a\n\nb c\n \n\n".to_string(),
        stdin_paths: vec![PathBuf::from("/dev/stdin")],
    };
    assert_eq!(reader.read_non_empty_lines().unwrap(), vec!["a", "b c", " "]);
    assert_eq!(reader.read().unwrap(), "a\n\nb c\n \n\n".as_bytes());
    assert!(reader.is_stdin_path(&Path::new("/dev/stdin").to_path_buf()));
    assert!(!reader.is_terminal());
}

#[test]
fn no_lines_stay_no_lines() {
    let mut lines = NonEmptyLines::new();
    lines.push(String::new());
    assert_eq!(lines.into_lines(), Vec::<String>::new());
}
