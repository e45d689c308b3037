//! Classification of a finished command into success or a diagnostic.
use vstd::prelude::*;
use vstd::string::StringExecFns;
use vstd::utf8::{decode_utf8, valid_utf8};

use crate::normalize::{strip_newline, strip_trailing_newline, NEWLINE};
use crate::text::{
    decimal, decimal_string, escape_line_breaks, escaped, lemma_concat_lacks,
    lemma_decimal_single_line, lemma_decode_single_line, lemma_escaped_single_line, utf8_string,
};

verus! {

/// The longest standard error, in bytes, that a diagnostic quotes.
pub const MAX_QUOTED_STDERR: usize = 500;

/// How a child process ended.
#[derive(Clone, Copy, Debug, PartialEq, Eq, Structural)]
pub enum Termination {
    /// It exited with this status code.
    Exited(i32),
    /// It was killed by this signal.
    Signaled(i32),
    /// It did not exit and the platform does not tell which signal ended it.
    Unknown,
}

/// What a command left behind: its two output streams and how it ended.
#[derive(Debug)]
pub struct ExecutionResult {
    pub stdout: Vec<u8>,
    pub stderr: Vec<u8>,
    pub status: Termination,
}

/// Why a resolution failed. Every variant but the last carries, or stands
/// for, a single-line message for the build's diagnostics.
#[derive(Debug)]
pub enum ResolveError {
    /// The argument list held no command.
    MissingArgument,
    /// The command could not be started; the message quotes the system error.
    SpawnFailure(String),
    /// The command exited with a non-zero status.
    NonZeroExit(i32, String),
    /// The command was killed by a signal.
    KilledBySignal(i32, String),
    /// The command ended abnormally and no signal number is known.
    KilledUnknown(String),
    /// Text was asked for, but the output is not valid UTF-8.
    InvalidUtf8,
}

/// The mathematical value of a `ResolveError`, with messages as characters.
pub enum Failure {
    MissingArgument,
    SpawnFailure(Seq<char>),
    NonZeroExit(i32, Seq<char>),
    KilledBySignal(i32, Seq<char>),
    KilledUnknown(Seq<char>),
    InvalidUtf8,
}

impl View for ResolveError {
    type V = Failure;

    open spec fn view(&self) -> Failure {
        match self {
            ResolveError::MissingArgument => Failure::MissingArgument,
            ResolveError::SpawnFailure(m) => Failure::SpawnFailure(m@),
            ResolveError::NonZeroExit(c, m) => Failure::NonZeroExit(*c, m@),
            ResolveError::KilledBySignal(s, m) => Failure::KilledBySignal(*s, m@),
            ResolveError::KilledUnknown(m) => Failure::KilledUnknown(m@),
            ResolveError::InvalidUtf8 => Failure::InvalidUtf8,
        }
    }
}

/// The single-line text of a failure, for the build's diagnostics.
pub open spec fn failure_message(f: Failure) -> Seq<char> {
    match f {
        Failure::MissingArgument => "missing required argument: command"@,
        Failure::SpawnFailure(m) => m,
        Failure::NonZeroExit(_, m) => m,
        Failure::KilledBySignal(_, m) => m,
        Failure::KilledUnknown(m) => m,
        Failure::InvalidUtf8 => "invalid UTF-8 in command output"@,
    }
}

impl ResolveError {
    /// The single-line text of this failure.
    pub fn message(&self) -> (r: String)
        ensures
            r@ == failure_message(self@),
    {
        match self {
            ResolveError::MissingArgument => String::from_str("missing required argument: command"),
            ResolveError::SpawnFailure(m) => m.clone(),
            ResolveError::NonZeroExit(_, m) => m.clone(),
            ResolveError::KilledBySignal(_, m) => m.clone(),
            ResolveError::KilledUnknown(m) => m.clone(),
            ResolveError::InvalidUtf8 => String::from_str("invalid UTF-8 in command output"),
        }
    }
}

/// Every diagnostic of the classifier is a single line: the command's line
/// breaks are escaped, a numeral holds none, and standard error is quoted
/// only when it holds no line feed.
pub proof fn lemma_failure_single_line(command: Seq<char>, status: Termination, stderr: Seq<u8>)
    ensures
        failure_of(command, status, stderr) matches Some(f) ==> !failure_message(f).contains('\n'),
{
    reveal_strlit(" exited with status ");
    reveal_strlit(": ");
    reveal_strlit(" killed by signal ");
    reveal_strlit(" killed by signal");
    let name = escaped(command);
    lemma_escaped_single_line(command);
    match status {
        Termination::Exited(c) => {
            if c != 0 {
                let words = " exited with status "@;
                lemma_decimal_single_line(c as int);
                lemma_concat_lacks(name, words, '\n');
                lemma_concat_lacks(name + words, decimal(c as int), '\n');
                let head = name + words + decimal(c as int);
                let m = strip_newline(stderr);
                if quotable(m) {
                    lemma_decode_single_line(m);
                    lemma_concat_lacks(head, ": "@, '\n');
                    lemma_concat_lacks(head + ": "@, decode_utf8(m), '\n');
                }
            }
        },
        Termination::Signaled(sig) => {
            let words = " killed by signal "@;
            lemma_decimal_single_line(sig as int);
            lemma_concat_lacks(name, words, '\n');
            lemma_concat_lacks(name + words, decimal(sig as int), '\n');
        },
        Termination::Unknown => {
            lemma_concat_lacks(name, " killed by signal"@, '\n');
        },
    }
}

/// Whether the stripped standard error `m` is quoted in a diagnostic: it is
/// non-empty, short, a single line and valid UTF-8.
pub open spec fn quotable(m: Seq<u8>) -> bool {
    &&& 0 < m.len() <= MAX_QUOTED_STDERR
    &&& !m.contains(NEWLINE)
    &&& valid_utf8(m)
}

/// The diagnostic for `command` exiting with `code`, given its standard error.
/// The command is written with its line breaks escaped.
pub open spec fn exit_message(command: Seq<char>, code: i32, stderr: Seq<u8>) -> Seq<char> {
    let head = escaped(command) + " exited with status "@ + decimal(code as int);
    let m = strip_newline(stderr);
    if quotable(m) {
        head + ": "@ + decode_utf8(m)
    } else {
        head
    }
}

/// The diagnostic for `command` killed by `signal`.
pub open spec fn signal_message(command: Seq<char>, signal: i32) -> Seq<char> {
    escaped(command) + " killed by signal "@ + decimal(signal as int)
}

/// The diagnostic for `command` ended abnormally by an unknown cause.
pub open spec fn unknown_signal_message(command: Seq<char>) -> Seq<char> {
    escaped(command) + " killed by signal"@
}

/// The failure that ending with `status` means for `command`, or `None` when
/// it exited successfully.
pub open spec fn failure_of(command: Seq<char>, status: Termination, stderr: Seq<u8>) -> Option<
    Failure,
> {
    match status {
        Termination::Exited(c) => if c == 0 {
            None
        } else {
            Some(Failure::NonZeroExit(c, exit_message(command, c, stderr)))
        },
        Termination::Signaled(s) => Some(Failure::KilledBySignal(s, signal_message(command, s))),
        Termination::Unknown => Some(Failure::KilledUnknown(unknown_signal_message(command))),
    }
}

/// Whether `m` holds a line feed.
fn contains_newline(m: &Vec<u8>) -> (r: bool)
    ensures
        r == m@.contains(NEWLINE),
{
    let mut i: usize = 0;
    while i < m.len()
        invariant
            i <= m.len(),
            forall|j: int| 0 <= j < i ==> m@[j] != NEWLINE,
        decreases m.len() - i,
    {
        if m[i] == NEWLINE {
            assert(m@[i as int] == NEWLINE);
            return true;
        }
        i = i + 1;
    }
    false
}

/// Checks whether `command` ran successfully. On success the output comes
/// back unchanged; otherwise the error carries a single-line diagnostic.
pub fn verbose_command_error(command: &str, output: ExecutionResult) -> (r: Result<
    ExecutionResult,
    ResolveError,
>)
    ensures
        failure_of(command@, output.status, output.stderr@) matches Some(f) ==> (r matches Err(e)
            && e@ == f),
        failure_of(command@, output.status, output.stderr@) is None ==> r == Ok::<
            ExecutionResult,
            ResolveError,
        >(output),
        r matches Err(e) ==> !failure_message(e@).contains('\n'),
{
    proof {
        lemma_failure_single_line(command@, output.status, output.stderr@);
    }
    match output.status {
        Termination::Exited(code) => {
            if code == 0 {
                return Ok(output);
            }
            let mut message = escape_line_breaks(command);
            message.append(" exited with status ");
            let numeral = decimal_string(code);
            message.append(numeral.as_str());
            let m = strip_trailing_newline(output.stderr);
            if 0 < m.len() && m.len() <= MAX_QUOTED_STDERR && !contains_newline(&m) {
                match utf8_string(m) {
                    Some(quoted) => {
                        message.append(": ");
                        message.append(quoted.as_str());
                    },
                    None => {},
                }
            }
            Err(ResolveError::NonZeroExit(code, message))
        },
        Termination::Signaled(signal) => {
            let mut message = escape_line_breaks(command);
            message.append(" killed by signal ");
            let numeral = decimal_string(signal);
            message.append(numeral.as_str());
            Err(ResolveError::KilledBySignal(signal, message))
        },
        Termination::Unknown => {
            let mut message = escape_line_breaks(command);
            message.append(" killed by signal");
            Err(ResolveError::KilledUnknown(message))
        },
    }
}

/// A standard error that spans more than one line is never quoted: the
/// diagnostic names only the command and its status.
pub proof fn lemma_multiline_stderr_not_quoted(command: Seq<char>, code: i32, stderr: Seq<u8>)
    requires
        strip_newline(stderr).contains(NEWLINE),
    ensures
        exit_message(command, code, stderr) == escaped(command) + " exited with status "@ + decimal(
            code as int,
        ),
{
}

} // verus!
