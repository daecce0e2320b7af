//! The argument parser: from the process's argument vector to the host and
//! the remote command.

use vstd::prelude::*;
use vstd::string::*;
use crate::error::{ErrorKind, Failure, FailureView};
use crate::text::{flattened, is_single_line, join_from, joined, lemma_single_line_concat, single_line, texts};

verus! {

/// What the user asked for: the host to run on and the command to run there.
/// Both are non-empty.
#[derive(Debug, PartialEq, Eq)]
pub struct Invocation {
    pub host: String,
    pub command: String,
}

/// What an `Invocation` holds, as plain values.
pub struct InvocationView {
    pub host: Seq<char>,
    pub command: Seq<char>,
}

impl View for Invocation {
    type V = InvocationView;

    open spec fn view(&self) -> InvocationView {
        InvocationView { host: self.host@, command: self.command@ }
    }
}

impl InvocationView {
    /// Host and command are both present.
    pub open spec fn wf(self) -> bool {
        self.host.len() > 0 && self.command.len() > 0
    }
}

/// The command that an argument vector asks for: the tokens after the host,
/// joined by single spaces.
pub open spec fn command_of(args: Seq<Seq<char>>) -> Seq<char> {
    joined(args.skip(2), " "@)
}

/// What parsing an argument vector gives. The vector holds the program's name,
/// then the host, then at least one token of the command; host and command
/// must not be empty.
pub open spec fn parsed(args: Seq<Seq<char>>) -> Result<InvocationView, FailureView> {
    if args.len() < 3 {
        Err(FailureView { kind: ErrorKind::UsageError, reason: "Not enough arguments"@ })
    } else if args[1].len() == 0 {
        Err(FailureView { kind: ErrorKind::UsageError, reason: "Empty hostname"@ })
    } else if command_of(args).len() == 0 {
        Err(FailureView { kind: ErrorKind::UsageError, reason: "Empty command"@ })
    } else {
        Ok(InvocationView { host: args[1], command: command_of(args) })
    }
}

/// The view of a parse result.
pub open spec fn parse_view(r: Result<Invocation, Failure>) -> Result<InvocationView, FailureView> {
    match r {
        Ok(inv) => Ok(inv@),
        Err(f) => Err(f@),
    }
}

/// Splits the argument vector into host and command. Fewer than two tokens
/// after the program's name, an empty host or an empty command are usage
/// errors.
pub fn parse_args(args: Vec<String>) -> (r: Result<Invocation, Failure>)
    ensures
        parse_view(r) == parsed(texts(args@)),
        r matches Ok(inv) ==> inv@.wf(),
        r matches Err(f) ==> f@.kind == ErrorKind::UsageError,
{
    if args.len() < 3 {
        return Err(Failure::new(ErrorKind::UsageError, "Not enough arguments"));
    }
    if args[1].as_str().is_empty() {
        return Err(Failure::new(ErrorKind::UsageError, "Empty hostname"));
    }
    let command = join_from(&args, 2, " ");
    if command.as_str().is_empty() {
        return Err(Failure::new(ErrorKind::UsageError, "Empty command"));
    }
    let host = args[1].clone();
    Ok(Invocation { host, command })
}

/// The usage line for a program called `program`.
pub open spec fn usage_text(program: Seq<char>) -> Seq<char> {
    "Usage: "@ + flattened(program) + " <hostname> <command>"@
}

/// The one-line usage string that is shown after a usage error.
pub fn usage_line(program: &str) -> (out: String)
    ensures
        out@ == usage_text(program@),
        is_single_line(out@),
{
    proof {
        reveal_strlit("Usage: ");
        reveal_strlit(" <hostname> <command>");
    }
    let name = single_line(program);
    let mut out = String::from_str("Usage: ");
    out.append(name.as_str());
    proof {
        lemma_single_line_concat("Usage: "@, name@);
    }
    let ghost head = out@;
    out.append(" <hostname> <command>");
    proof {
        lemma_single_line_concat(head, " <hostname> <command>"@);
    }
    out
}

} // verus!
