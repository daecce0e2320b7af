//! The remote executor: the shell that is spawned in the workspace, how its
//! output is rendered, and what its exit amounts to.

use vstd::prelude::*;
use vstd::string::*;

verus! {

/// One of the two output streams of the remote child.
#[derive(Debug, Clone, Copy, PartialEq, Eq, Structural)]
pub enum StreamKind {
    Stdout,
    Stderr,
}

/// What a standard stream of the remote child is connected to.
#[derive(Debug, Clone, Copy, PartialEq, Eq, Structural)]
pub enum StdioMode {
    /// A pipe to the local process.
    Piped,
    /// Nothing.
    Null,
    /// The local process's own stream.
    Inherit,
}

/// A remote shell to spawn.
#[derive(Debug, PartialEq, Eq)]
pub struct ShellRequest {
    /// What the remote shell runs.
    pub script: String,
    pub stdin: StdioMode,
    pub stdout: StdioMode,
    pub stderr: StdioMode,
}

/// What a `ShellRequest` holds, as plain values.
pub struct ShellRequestView {
    pub script: Seq<char>,
    pub stdin: StdioMode,
    pub stdout: StdioMode,
    pub stderr: StdioMode,
}

impl View for ShellRequest {
    type V = ShellRequestView;

    open spec fn view(&self) -> ShellRequestView {
        ShellRequestView {
            script: self.script@,
            stdin: self.stdin,
            stdout: self.stdout,
            stderr: self.stderr,
        }
    }
}

/// What the remote shell runs: a change to the workspace, then the command,
/// which is passed on as it is.
pub open spec fn shell_script(workspace: Seq<char>, command: Seq<char>) -> Seq<char> {
    "cd "@ + workspace + " && "@ + command
}

/// The shell for `command` in `workspace`, with all three streams piped.
pub open spec fn shell_request_of(command: Seq<char>, workspace: Seq<char>) -> ShellRequestView {
    ShellRequestView {
        script: shell_script(workspace, command),
        stdin: StdioMode::Piped,
        stdout: StdioMode::Piped,
        stderr: StdioMode::Piped,
    }
}

/// The remote shell to spawn for the user's command in the workspace.
pub fn start_shell(initial_command: &str, tmp_repository_location: &str) -> (request:
    ShellRequest)
    ensures
        request@ == shell_request_of(initial_command@, tmp_repository_location@),
{
    let script = String::from_str("cd ").concat(tmp_repository_location).concat(" && ").concat(
        initial_command,
    );
    ShellRequest {
        script,
        stdin: StdioMode::Piped,
        stdout: StdioMode::Piped,
        stderr: StdioMode::Piped,
    }
}

/// The prefix of a rendered line: `"> "` for stdout, `"! "` for stderr.
pub open spec fn stream_prefix(kind: StreamKind) -> Seq<char> {
    match kind {
        StreamKind::Stdout => "> "@,
        StreamKind::Stderr => "! "@,
    }
}

/// A remote line as it is shown locally: the stream's prefix, then the line.
pub open spec fn rendered(kind: StreamKind, line: Seq<char>) -> Seq<char> {
    stream_prefix(kind) + line
}

/// The lines of one stream as they are shown locally: each line rendered, in
/// the order produced.
pub open spec fn relayed(kind: StreamKind, lines: Seq<Seq<char>>) -> Seq<Seq<char>> {
    lines.map_values(|line: Seq<char>| rendered(kind, line))
}

/// Renders one line of remote output.
pub fn render_line(kind: StreamKind, line: &str) -> (out: String)
    ensures
        out@ == rendered(kind, line@),
{
    let prefix = match kind {
        StreamKind::Stdout => "> ",
        StreamKind::Stderr => "! ",
    };
    String::from_str(prefix).concat(line)
}

/// The prefixes are two characters long, and differ between the streams.
pub proof fn lemma_stream_prefixes()
    ensures
        stream_prefix(StreamKind::Stdout) == seq!['>', ' '],
        stream_prefix(StreamKind::Stderr) == seq!['!', ' '],
        stream_prefix(StreamKind::Stdout) != stream_prefix(StreamKind::Stderr),
{
    reveal_strlit("> ");
    reveal_strlit("! ");
    assert("> "@ =~= seq!['>', ' ']);
    assert("! "@ =~= seq!['!', ' ']);
    assert(seq!['>', ' '][0] != seq!['!', ' '][0]);
}

/// Every line of a stream is shown exactly once, with the stream's prefix,
/// in the order produced: the rendered lines are as many as the lines, the
/// line at each index is the prefix followed by the line at that index, and
/// dropping the prefix gives the line back.
pub proof fn lemma_relay_is_faithful(kind: StreamKind, lines: Seq<Seq<char>>)
    ensures
        relayed(kind, lines).len() == lines.len(),
        forall|i: int|
            0 <= i < lines.len() ==> #[trigger] relayed(kind, lines)[i] == stream_prefix(kind)
                + lines[i],
        forall|i: int|
            0 <= i < lines.len() ==> (#[trigger] relayed(kind, lines)[i]).skip(2) == lines[i],
{
    lemma_stream_prefixes();
    assert forall|i: int| 0 <= i < lines.len() implies (#[trigger] relayed(kind, lines)[i]).skip(
        2,
    ) == lines[i] by {
        assert((stream_prefix(kind) + lines[i]).skip(2) =~= lines[i]);
    }
}

/// The exit code that a finished child amounts to: its own code, or 1 when it
/// ended without one.
pub open spec fn remote_exit_code(status: Option<i32>) -> i32 {
    match status {
        Some(code) => code,
        None => crate::error::EXIT_FAILURE,
    }
}

/// The exit code that a finished child amounts to.
pub fn exit_code_of_child(status: Option<i32>) -> (code: i32)
    ensures
        code == remote_exit_code(status),
{
    match status {
        Some(code) => code,
        None => crate::error::EXIT_FAILURE,
    }
}

} // verus!
