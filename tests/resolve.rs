use compile_time_run::diagnostic::{verbose_command_error, ExecutionResult, ResolveError, Termination};
use compile_time_run::literal::EmbeddedLiteral;
use compile_time_run::normalize::strip_trailing_newline;
use compile_time_run::resolve::{run_command, run_command_str, ArgList};
use compile_time_run::text::escape_line_breaks;

fn arg_list(tokens: &[&str]) -> ArgList {
    ArgList::parse(tokens.iter().map(|t| t.to_string()).collect()).unwrap()
}

fn ran(stdout: &[u8], stderr: &[u8], status: Termination) -> Result<ExecutionResult, String> {
    Ok(ExecutionResult { stdout: stdout.to_vec(), stderr: stderr.to_vec(), status })
}

/// What `echo` prints for its arguments: them joined by spaces, then a newline.
fn echo_output(tokens: &[&str]) -> Result<ExecutionResult, String> {
    let mut out = tokens[1..].join(" ");
    out.push('\n');
    ran(out.as_bytes(), b"", Termination::Exited(0))
}

fn bytes_of(r: Result<EmbeddedLiteral, ResolveError>) -> Vec<u8> {
    match r.unwrap() {
        EmbeddedLiteral::Bytes(b) => b,
        other => panic!("expected bytes, got {:?}", other),
    }
}

fn text_of(r: Result<EmbeddedLiteral, ResolveError>) -> String {
    match r.unwrap() {
        EmbeddedLiteral::Text(t) => t,
        other => panic!("expected text, got {:?}", other),
    }
}

fn message_of(r: Result<EmbeddedLiteral, ResolveError>) -> String {
    match r.unwrap_err() {
        ResolveError::NonZeroExit(_, m) => m,
        ResolveError::KilledBySignal(_, m) => m,
        ResolveError::KilledUnknown(m) => m,
        ResolveError::SpawnFailure(m) => m,
        other => panic!("expected a diagnostic, got {:?}", other),
    }
}

#[test]
fn echo() {
    let tokens = ["echo"];
    let args = arg_list(&tokens);
    assert!(bytes_of(run_command(&args, echo_output(&tokens))) == b"");
    assert!(text_of(run_command_str(&args, echo_output(&tokens))) == "");
}

#[test]
fn echo_foo() {
    let tokens = ["echo", "foo"];
    let args = arg_list(&tokens);
    assert!(bytes_of(run_command(&args, echo_output(&tokens))) == b"foo");
    assert!(text_of(run_command_str(&args, echo_output(&tokens))) == "foo");
}

#[test]
fn echo_foo_bar() {
    let tokens = ["echo", "foo", "bar"];
    let args = arg_list(&tokens);
    assert_eq!(bytes_of(run_command(&args, echo_output(&tokens))), b"foo bar");
    assert_eq!(text_of(run_command_str(&args, echo_output(&tokens))), "foo bar");
}

#[test]
fn empty_argument_list_is_missing_argument() {
    assert!(matches!(ArgList::parse(vec![]), Err(ResolveError::MissingArgument)));
}

#[test]
fn argument_list_keeps_tokens_verbatim() {
    let args = arg_list(&["printf", "%s %s", "a b"]);
    assert_eq!(args.command(), "printf");
    assert_eq!(args.as_slice().to_vec(), vec!["printf".to_string(), "%s %s".to_string(), "a b".to_string()]);
}

#[test]
fn empty_output_gives_empty_literals() {
    let args = arg_list(&["true"]);
    assert_eq!(bytes_of(run_command(&args, ran(b"", b"", Termination::Exited(0)))), b"");
    assert_eq!(text_of(run_command_str(&args, ran(b"", b"", Termination::Exited(0)))), "");
}

#[test]
fn only_one_trailing_newline_is_removed() {
    let args = arg_list(&["cmd"]);
    assert_eq!(bytes_of(run_command(&args, ran(b"a\n\n", b"", Termination::Exited(0)))), b"a\n");
    assert_eq!(bytes_of(run_command(&args, ran(b"\na", b"", Termination::Exited(0)))), b"\na");
}

#[test]
fn strip_is_idempotent_on_single_newline() {
    let once = strip_trailing_newline(b"line\n".to_vec());
    assert_eq!(once, b"line");
    assert_eq!(strip_trailing_newline(once.clone()), once);
    assert_eq!(strip_trailing_newline(b"".to_vec()), b"");
    assert_eq!(strip_trailing_newline(b"\n".to_vec()), b"");
}

#[test]
fn status_one_quotes_single_line_stderr() {
    let args = arg_list(&["false"]);
    let m = message_of(run_command(&args, ran(b"", b"boom\n", Termination::Exited(1))));
    assert!(m.contains("status 1: boom"));
    assert_eq!(m, "false exited with status 1: boom");
    let e = run_command_str(&args, ran(b"", b"boom", Termination::Exited(1))).unwrap_err();
    assert!(matches!(e, ResolveError::NonZeroExit(1, _)));
}

#[test]
fn status_two_hides_multi_line_stderr() {
    let args = arg_list(&["cmd"]);
    let m = message_of(run_command(&args, ran(b"", b"first\nsecond\n", Termination::Exited(2))));
    assert!(m.contains("status 2"));
    assert!(!m.contains("first"));
    assert!(!m.contains("second"));
    assert_eq!(m, "cmd exited with status 2");
}

#[test]
fn stderr_length_bound() {
    let args = arg_list(&["cmd"]);
    let at_bound = "x".repeat(500);
    let m = message_of(run_command(&args, ran(b"", at_bound.as_bytes(), Termination::Exited(3))));
    assert_eq!(m, format!("cmd exited with status 3: {}", at_bound));
    let over = "x".repeat(501);
    let m = message_of(run_command(&args, ran(b"", over.as_bytes(), Termination::Exited(3))));
    assert_eq!(m, "cmd exited with status 3");
}

#[test]
fn empty_or_binary_stderr_is_not_quoted() {
    let args = arg_list(&["cmd"]);
    let m = message_of(run_command(&args, ran(b"", b"\n", Termination::Exited(4))));
    assert_eq!(m, "cmd exited with status 4");
    let m = message_of(run_command(&args, ran(b"", b"\xff\xfe", Termination::Exited(4))));
    assert_eq!(m, "cmd exited with status 4");
}

#[test]
fn negative_status_is_written_with_sign() {
    let args = arg_list(&["cmd"]);
    let m = message_of(run_command(&args, ran(b"", b"bad", Termination::Exited(-1))));
    assert_eq!(m, "cmd exited with status -1: bad");
}

#[test]
fn signal_diagnostics() {
    let args = arg_list(&["sleep", "100"]);
    let e = run_command(&args, ran(b"partial", b"", Termination::Signaled(9))).unwrap_err();
    assert!(matches!(&e, ResolveError::KilledBySignal(9, m) if m == "sleep killed by signal 9"));
    let m = message_of(run_command_str(&args, ran(b"", b"", Termination::Unknown)));
    assert_eq!(m, "sleep killed by signal");
}

#[test]
fn spawn_failure_quotes_system_error() {
    let args = arg_list(&["no-such-command"]);
    let r = run_command(&args, Err("No such file or directory (os error 2)".to_string()));
    assert!(matches!(&r, Err(ResolveError::SpawnFailure(_))));
    assert_eq!(message_of(r), "failed to execute command: No such file or directory (os error 2)");
}

#[test]
fn text_mode_rejects_invalid_utf8_but_byte_mode_keeps_it() {
    let args = arg_list(&["cmd"]);
    let e = run_command_str(&args, ran(b"\xff\n", b"", Termination::Exited(0))).unwrap_err();
    assert!(matches!(e, ResolveError::InvalidUtf8));
    assert_eq!(bytes_of(run_command(&args, ran(b"\xff\n", b"", Termination::Exited(0)))), b"\xff");
}

#[test]
fn text_mode_decodes_multibyte_output() {
    let args = arg_list(&["cmd"]);
    let out = "h\u{e9}llo \u{1f600}\n";
    assert_eq!(text_of(run_command_str(&args, ran(out.as_bytes(), b"", Termination::Exited(0)))), "h\u{e9}llo \u{1f600}");
}

#[test]
fn classifier_passes_successful_output_through() {
    let out = ExecutionResult { stdout: b"x\n".to_vec(), stderr: b"warning\n".to_vec(), status: Termination::Exited(0) };
    let back = verbose_command_error("cmd", out).unwrap();
    assert_eq!(back.stdout, b"x\n");
    assert_eq!(back.stderr, b"warning\n");
    assert_eq!(back.status, Termination::Exited(0));
}

#[test]
fn literal_source_text() {
    assert_eq!(EmbeddedLiteral::Text("foo".to_string()).to_source(), "\"foo\"");
    assert_eq!(EmbeddedLiteral::Text("a\"b".to_string()).to_source(), "\"a\\\"b\"");
    assert_eq!(EmbeddedLiteral::Text(String::new()).to_source(), "\"\"");
}

#[test]
fn literal_source_bytes() {
    assert_eq!(EmbeddedLiteral::Bytes(vec![]).to_source(), "&[0u8; 0]");
    assert_eq!(EmbeddedLiteral::Bytes(b"foo bar".to_vec()).to_source(), "b\"foo bar\"");
    assert_eq!(EmbeddedLiteral::Bytes(b"a\n\xff".to_vec()).to_source(), "b\"a\\n\\xFF\"");
}

#[test]
fn error_messages() {
    assert_eq!(ResolveError::MissingArgument.message(), "missing required argument: command");
    assert_eq!(ResolveError::InvalidUtf8.message(), "invalid UTF-8 in command output");
    assert_eq!(ResolveError::KilledUnknown("cmd killed by signal".to_string()).message(), "cmd killed by signal");
}

#[test]
fn line_breaks_are_escaped() {
    assert_eq!(escape_line_breaks("a\nb\rc"), "a\\nb\\rc");
    assert_eq!(escape_line_breaks("plain"), "plain");
    assert_eq!(escape_line_breaks(""), "");
    assert_eq!(escape_line_breaks("\u{e9}\n"), "\u{e9}\\n");
}

#[test]
fn command_with_line_feed_gives_single_line_diagnostics() {
    let args = arg_list(&["a\nb"]);
    let m = message_of(run_command(&args, ran(b"", b"boom", Termination::Exited(1))));
    assert_eq!(m, "a\\nb exited with status 1: boom");
    let m = message_of(run_command(&args, ran(b"", b"", Termination::Signaled(15))));
    assert_eq!(m, "a\\nb killed by signal 15");
    let m = message_of(run_command_str(&args, ran(b"", b"", Termination::Unknown)));
    assert_eq!(m, "a\\nb killed by signal");
    assert!(!m.contains('\n'));
}

#[test]
fn spawn_failure_with_line_break_is_escaped() {
    let args = arg_list(&["cmd"]);
    let m = message_of(run_command(&args, Err("first\r\nsecond".to_string())));
    assert_eq!(m, "failed to execute command: first\\r\\nsecond");
}

#[test]
fn text_drops_only_final_line_feed() {
    let args = arg_list(&["cmd"]);
    assert_eq!(text_of(run_command_str(&args, ran(b"a\nb\n", b"", Termination::Exited(0)))), "a\nb");
}

#[test]
fn literal_source_text_escapes() {
    assert_eq!(EmbeddedLiteral::Text("\u{1b}".to_string()).to_source(), "\"\\u{1b}\"");
    assert_eq!(EmbeddedLiteral::Text("a\0b".to_string()).to_source(), "\"a\\0b\"");
    assert_eq!(EmbeddedLiteral::Text("it's \u{1f600}\t".to_string()).to_source(), "\"it's \u{1f600}\\t\"");
    assert_eq!(EmbeddedLiteral::Text("back\\slash\r".to_string()).to_source(), "\"back\\\\slash\\r\"");
}

#[test]
fn literal_source_byte_escapes() {
    assert_eq!(EmbeddedLiteral::Bytes(vec![0, b'7']).to_source(), "b\"\\x007\"");
    assert_eq!(EmbeddedLiteral::Bytes(vec![0, b'a']).to_source(), "b\"\\0a\"");
    assert_eq!(EmbeddedLiteral::Bytes(b"q\"\\\t\r".to_vec()).to_source(), "b\"q\\\"\\\\\\t\\r\"");
}
