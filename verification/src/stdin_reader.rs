//! Reading what is piped in.

use std::path::PathBuf;
use vstd::prelude::*;

verus! {

/// Reads stdin. `E` is the error of a failed read.
pub trait StdInReader<E>: Clone + Send + Sync {
    /// Reads stdin to its end.
    fn read(&self) -> Result<Vec<u8>, E>;

    /// Whether stdin is attached to a terminal, in which case there's no
    /// piped input waiting to be read.
    fn is_terminal(&self) -> bool;

    /// Whether the path names stdin itself rather than a file of its own (ex.
    /// a symlink to `/dev/stdin`, or `/proc/thread-self/fd/0`), so that
    /// reading it reads stdin. A regular file never is, even when stdin is
    /// redirected from it.
    fn is_stdin_path(&self, path: &PathBuf) -> bool;

    /// Reads stdin line by line, skipping blank lines, without buffering the
    /// entire input into a single string. Useful for large lists of file paths.
    fn read_non_empty_lines(&self) -> Result<Vec<String>, E>;
}

/// What an open file or a path is, however it is spelled.
#[derive(Debug, Clone, Copy, PartialEq, Eq, Structural)]
pub struct FileIdentity {
    /// Whether it is a regular file.
    pub is_file: bool,
    /// The device that it is on.
    pub device: u64,
    /// Its number on that device.
    pub inode: u64,
}

/// Whether a path is stdin, by what the two are; `None` where that can't be found
/// out.
pub open spec fn same_stream(path: Option<FileIdentity>, stdin: Option<FileIdentity>) -> bool {
    match (path, stdin) {
        (Some(path), Some(stdin)) => !path.is_file && path.device == stdin.device && path.inode
            == stdin.inode,
        _ => false,
    }
}

/// Whether a path is stdin, by what the two are; `None` where that can't be found
/// out. A regular file is a file of its own even when stdin happens to be redirected
/// from it: opening it by path reads it independently, from its own directory. Only
/// a pipe, terminal or other device is stdin itself.
pub fn is_stdin(path: Option<FileIdentity>, stdin: Option<FileIdentity>) -> (yes: bool)
    ensures
        yes == same_stream(path, stdin),
{
    match path {
        Some(path) => {
            if path.is_file {
                return false;
            }
            match stdin {
                Some(stdin) => path.device == stdin.device && path.inode == stdin.inode,
                None => false,
            }
        },
        None => false,
    }
}

/// The lines that are not blank, in order.
pub open spec fn non_empty(lines: Seq<Seq<char>>) -> Seq<Seq<char>> {
    lines.filter(|line: Seq<char>| line.len() > 0)
}

/// The lines of some input that are not blank.
#[derive(Debug, PartialEq, Eq)]
pub struct NonEmptyLines {
    lines: Vec<String>,
}

impl View for NonEmptyLines {
    type V = Seq<Seq<char>>;

    closed spec fn view(&self) -> Seq<Seq<char>> {
        crate::paths::texts(self.lines@)
    }
}

impl NonEmptyLines {
    /// No lines.
    pub fn new() -> (lines: NonEmptyLines)
        ensures
            lines@ == Seq::<Seq<char>>::empty(),
    {
        let lines = NonEmptyLines { lines: Vec::new() };
        assert(lines@ =~= Seq::<Seq<char>>::empty());
        lines
    }

    /// Adds the next line of the input, unless it is blank.
    pub fn push(&mut self, line: String)
        ensures
            final(self)@ == old(self)@ + non_empty(seq![line@]),
    {
        let ghost before = self@;
        let ghost text = line@;
        proof {
            reveal_with_fuel(Seq::filter, 2);
            assert(seq![text].drop_last() =~= Seq::<Seq<char>>::empty());
        }
        if !line.as_str().is_empty() {
            self.lines.push(line);
            assert(non_empty(seq![text]) =~= seq![text]);
            assert(self@ =~= before + seq![text]);
        } else {
            assert(non_empty(seq![text]) =~= Seq::<Seq<char>>::empty());
            assert(self@ =~= before + non_empty(seq![text]));
        }
    }

    /// The lines.
    pub fn into_lines(self) -> (lines: Vec<String>)
        ensures
            crate::paths::texts(lines@) == self@,
    {
        self.lines
    }
}

/// Lines that are added one after the other are the lines of the whole input that
/// are not blank.
pub proof fn lines_are_collected_one_by_one(lines: Seq<Seq<char>>, line: Seq<char>)
    ensures
        non_empty(lines) + non_empty(seq![line]) == non_empty(lines.push(line)),
        non_empty(Seq::empty()) == Seq::<Seq<char>>::empty(),
{
    reveal_with_fuel(Seq::filter, 2);
    assert(lines.push(line).drop_last() =~= lines);
    assert(seq![line].drop_last() =~= Seq::<Seq<char>>::empty());
    assert(non_empty(lines) + non_empty(seq![line]) =~= non_empty(lines.push(line)));
}

/// A line is kept as it is where it holds a character, white space or not, and skipped
/// where it holds none. The lines before it make no difference to that.
pub proof fn only_a_line_without_characters_is_skipped(lines: Seq<Seq<char>>, line: Seq<char>)
    ensures
        line.len() > 0 ==> non_empty(lines.push(line)) == non_empty(lines) + seq![line],
        line.len() == 0 ==> non_empty(lines.push(line)) == non_empty(lines),
        non_empty(Seq::empty()) == Seq::<Seq<char>>::empty(),
{
    reveal_with_fuel(Seq::filter, 2);
    assert(lines.push(line).drop_last() =~= lines);
    if line.len() > 0 {
        assert(non_empty(lines.push(line)) =~= non_empty(lines) + seq![line]);
    }
}

/// Two files are one stream exactly where the path is no regular file and both are the same
/// number on the same device; whether stdin is a regular file makes no difference.
pub proof fn a_stream_is_told_by_device_and_number(
    device: u64,
    inode: u64,
    other_device: u64,
    other_inode: u64,
    redirected: bool,
)
    ensures
        ({
            let path = FileIdentity { is_file: false, device, inode };
            let file = FileIdentity { is_file: true, device, inode };
            let stdin = FileIdentity {
                is_file: redirected,
                device: other_device,
                inode: other_inode,
            };
            &&& same_stream(Some(path), Some(stdin)) <==> device == other_device && inode
                == other_inode
            &&& !same_stream(Some(file), Some(stdin))
            &&& !same_stream(Some(path), None)
            &&& !same_stream(None, Some(stdin))
            &&& !same_stream(None, None)
        }),
{
}

/// A regular file is never stdin, nor is a path of which nothing is known.
pub proof fn a_regular_file_is_never_stdin(
    path: Option<FileIdentity>,
    stdin: Option<FileIdentity>,
)
    requires
        path matches Some(path) ==> path.is_file,
    ensures
        !same_stream(path, stdin),
{
}

} // verus!
