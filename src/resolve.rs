//! The two entry points: resolving a finished command into a byte literal or
//! a text literal.
use vstd::prelude::*;
use vstd::string::StringExecFns;
use vstd::utf8::{
    decode_utf8, decode_utf8_split, is_char_boundary_iff_is_leading_byte, valid_utf8,
    valid_utf8_split,
};

use crate::diagnostic::{
    failure_message, failure_of, verbose_command_error, ExecutionResult, Failure, ResolveError,
    Termination,
};
use crate::literal::{EmbeddedLiteral, LiteralValue};
use crate::normalize::{strip_newline, strip_trailing_newline, NEWLINE};
use crate::text::{escape_line_breaks, escaped, lemma_concat_lacks, lemma_escaped_single_line, utf8_string};

verus! {

/// A non-empty list of arguments: the command first, then what it is given,
/// each used verbatim.
pub struct ArgList {
    args: Vec<String>,
}

impl View for ArgList {
    type V = Seq<String>;

    closed spec fn view(&self) -> Seq<String> {
        self.args@
    }
}

impl ArgList {
    #[verifier::type_invariant]
    spec fn has_command(&self) -> bool {
        self.args.len() > 0
    }

    /// Takes `tokens` as an argument list; fails when there is no command.
    pub fn parse(tokens: Vec<String>) -> (r: Result<ArgList, ResolveError>)
        ensures
            r is Err <==> tokens@.len() == 0,
            r matches Err(e) ==> e@ == Failure::MissingArgument,
            r matches Err(e) ==> !failure_message(e@).contains('\n'),
            r matches Ok(a) ==> a@ == tokens@,
    {
        proof {
            reveal_strlit("missing required argument: command");
        }
        if tokens.len() == 0 {
            Err(ResolveError::MissingArgument)
        } else {
            Ok(ArgList { args: tokens })
        }
    }

    /// The command to run.
    pub fn command(&self) -> (r: &String)
        ensures
            self@.len() > 0,
            r == self@[0],
    {
        proof {
            use_type_invariant(self);
        }
        &self.args[0]
    }

    /// The command followed by its arguments.
    pub fn as_slice(&self) -> (r: &[String])
        ensures
            r@ == self@,
            r@.len() > 0,
    {
        proof {
            use_type_invariant(self);
        }
        self.args.as_slice()
    }
}

/// The diagnostic for a command that could not be started, quoting the
/// system's error with its line breaks escaped.
pub open spec fn spawn_message(error: Seq<char>) -> Seq<char> {
    "failed to execute command: "@ + escaped(error)
}

/// What a resolution of `command` ends in, given what running it gave,
/// before the standard output is turned into a literal.
pub open spec fn run_outcome(command: Seq<char>, executed: Result<ExecutionResult, String>) -> Result<
    Seq<u8>,
    Failure,
> {
    match executed {
        Err(e) => Err(Failure::SpawnFailure(spawn_message(e@))),
        Ok(o) => match failure_of(command, o.status, o.stderr@) {
            Some(f) => Err(f),
            None => Ok(strip_newline(o.stdout@)),
        },
    }
}

/// The value of a byte-mode resolution.
pub open spec fn bytes_outcome(command: Seq<char>, executed: Result<ExecutionResult, String>) -> Result<
    LiteralValue,
    Failure,
> {
    match run_outcome(command, executed) {
        Err(f) => Err(f),
        Ok(b) => Ok(LiteralValue::Bytes(b)),
    }
}

/// The value of a text-mode resolution.
pub open spec fn text_outcome(command: Seq<char>, executed: Result<ExecutionResult, String>) -> Result<
    LiteralValue,
    Failure,
> {
    match run_outcome(command, executed) {
        Err(f) => Err(f),
        Ok(b) => if valid_utf8(b) {
            Ok(LiteralValue::Text(decode_utf8(b)))
        } else {
            Err(Failure::InvalidUtf8)
        },
    }
}

/// The mathematical value of a resolution's result.
pub open spec fn result_view(r: Result<EmbeddedLiteral, ResolveError>) -> Result<
    LiteralValue,
    Failure,
> {
    match r {
        Ok(l) => Ok(l@),
        Err(e) => Err(e@),
    }
}

/// Classifies what running the command gave and returns its normalized
/// standard output.
fn checked_output(input: &ArgList, executed: Result<ExecutionResult, String>) -> (r: Result<
    Vec<u8>,
    ResolveError,
>)
    ensures
        match run_outcome(input@[0]@, executed) {
            Ok(b) => r matches Ok(v) && v@ == b,
            Err(f) => r matches Err(e) && e@ == f,
        },
        r matches Err(e) ==> !failure_message(e@).contains('\n'),
{
    let command = input.command();
    match executed {
        Err(error) => {
            let mut message = String::from_str("failed to execute command: ");
            let quoted = escape_line_breaks(error.as_str());
            message.append(quoted.as_str());
            proof {
                reveal_strlit("failed to execute command: ");
                lemma_escaped_single_line(error@);
                lemma_concat_lacks("failed to execute command: "@, escaped(error@), '\n');
            }
            Err(ResolveError::SpawnFailure(message))
        },
        Ok(output) => match verbose_command_error(command.as_str(), output) {
            Err(e) => Err(e),
            Ok(output) => Ok(strip_trailing_newline(output.stdout)),
        },
    }
}

/// Resolves `input`, whose command ran with the result `executed`, into a
/// byte literal: standard output with one trailing newline removed.
pub fn run_command(input: &ArgList, executed: Result<ExecutionResult, String>) -> (r: Result<
    EmbeddedLiteral,
    ResolveError,
>)
    ensures
        result_view(r) == bytes_outcome(input@[0]@, executed),
        r matches Err(e) ==> !failure_message(e@).contains('\n'),
{
    match checked_output(input, executed) {
        Err(e) => Err(e),
        Ok(bytes) => Ok(EmbeddedLiteral::Bytes(bytes)),
    }
}

/// Resolves `input`, whose command ran with the result `executed`, into a
/// text literal: standard output with one trailing newline removed, decoded
/// as UTF-8.
pub fn run_command_str(input: &ArgList, executed: Result<ExecutionResult, String>) -> (r: Result<
    EmbeddedLiteral,
    ResolveError,
>)
    ensures
        result_view(r) == text_outcome(input@[0]@, executed),
        r matches Err(e) ==> !failure_message(e@).contains('\n'),
{
    proof {
        reveal_strlit("invalid UTF-8 in command output");
    }
    match checked_output(input, executed) {
        Err(e) => Err(e),
        Ok(bytes) => match utf8_string(bytes) {
            Some(text) => Ok(EmbeddedLiteral::Text(text)),
            None => Err(ResolveError::InvalidUtf8),
        },
    }
}

/// When the command exits successfully, the byte literal is its standard
/// output with at most one trailing newline removed, and the text literal,
/// where that output is valid UTF-8, is its decoding.
pub proof fn lemma_success_outcomes(command: Seq<char>, output: ExecutionResult)
    requires
        output.status == Termination::Exited(0),
    ensures
        bytes_outcome(command, Ok(output)) == Ok::<LiteralValue, Failure>(
            LiteralValue::Bytes(strip_newline(output.stdout@)),
        ),
        valid_utf8(strip_newline(output.stdout@)) ==> text_outcome(command, Ok(output)) == Ok::<
            LiteralValue,
            Failure,
        >(LiteralValue::Text(decode_utf8(strip_newline(output.stdout@)))),
{
}

/// Decoding commutes with normalization: when the whole output is valid
/// UTF-8 and ends with a line feed, the text literal is its decoding with
/// exactly that one final line feed removed.
pub proof fn lemma_text_drops_one_line_feed(command: Seq<char>, output: ExecutionResult)
    requires
        output.status == Termination::Exited(0),
        valid_utf8(output.stdout@),
        output.stdout@.len() > 0,
        output.stdout@.last() == NEWLINE,
    ensures
        text_outcome(command, Ok(output)) == Ok::<LiteralValue, Failure>(
            LiteralValue::Text(decode_utf8(strip_newline(output.stdout@))),
        ),
        decode_utf8(output.stdout@) == decode_utf8(strip_newline(output.stdout@)) + seq!['\n'],
{
    let b = output.stdout@;
    let k = b.len() - 1;
    is_char_boundary_iff_is_leading_byte(b, k);
    valid_utf8_split(b, k);
    decode_utf8_split(b, k);
    let tail = b.subrange(k, b.len() as int);
    assert(tail =~= seq![NEWLINE]);
    assert(b.subrange(0, k) =~= strip_newline(b));
    assert(NEWLINE & 0x7f == NEWLINE) by (bit_vector);
    assert(decode_utf8(tail.subrange(1, 1)) == Seq::<char>::empty());
    assert(tail.subrange(1, 1) =~= Seq::<u8>::empty());
    assert(decode_utf8(tail) =~= seq!['\n']);
}

/// A successful command with no output gives an empty literal in both modes,
/// not an error.
pub proof fn lemma_empty_output(command: Seq<char>, output: ExecutionResult)
    requires
        output.status == Termination::Exited(0),
        output.stdout@.len() == 0,
    ensures
        bytes_outcome(command, Ok(output)) == Ok::<LiteralValue, Failure>(
            LiteralValue::Bytes(Seq::empty()),
        ),
        text_outcome(command, Ok(output)) == Ok::<LiteralValue, Failure>(
            LiteralValue::Text(Seq::empty()),
        ),
{
    assert(strip_newline(output.stdout@) =~= Seq::<u8>::empty());
}

} // verus!
