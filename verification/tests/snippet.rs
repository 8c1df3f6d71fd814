use plippet::config::SnippetConfig;
use plippet::snippet::{command_output_text, resolve_snippet, Resolution, SnippetError};
use plippet::text::trim_trailing_newlines;

fn body(key: &str, name: &str, body: &str) -> SnippetConfig {
    SnippetConfig { key: key.into(), name: name.into(), body: Some(body.into()), command: None }
}

fn cmd(key: &str, name: &str, command: &str) -> SnippetConfig {
    SnippetConfig { key: key.into(), name: name.into(), body: None, command: Some(command.into()) }
}

fn text_of(r: Result<Resolution, SnippetError>) -> String {
    match r.unwrap() {
        Resolution::Text(t) => t,
        Resolution::RunCommand(c) => panic!("expected text, got command {c}"),
    }
}

#[test]
fn body_snippet_returns_verbatim() {
    let s = body("k", "n", "hello");
    assert_eq!(text_of(resolve_snippet(&s)), "hello");
}

#[test]
fn body_snippet_with_trailing_newline_is_preserved() {
    let s = body("k", "n", "hello\n");
    assert_eq!(text_of(resolve_snippet(&s)), "hello\n");
}

#[test]
fn invalid_snippet_neither_field_errors() {
    let s = SnippetConfig { key: "k".into(), name: "n".into(), body: None, command: None };
    let err = match resolve_snippet(&s) {
        Err(e) => e.message(),
        Ok(_) => panic!("expected an error"),
    };
    assert!(err.contains("invalid snippet"), "{err}");
}

#[test]
fn command_snippet_trims_trailing_newline() {
    let s = cmd("d", "Date-ish", "printf 'hello\\n'");
    match resolve_snippet(&s).unwrap() {
        Resolution::RunCommand(c) => assert_eq!(c, "printf 'hello\\n'"),
        Resolution::Text(_) => panic!("expected a command"),
    }
    // what `printf 'hello\n'` writes on standard output
    assert_eq!(command_output_text("d", true, b"hello\n", b"").unwrap(), "hello");
}

#[test]
fn command_snippet_failure_propagates() {
    let s = cmd("x", "Bad", "exit 7");
    assert!(matches!(resolve_snippet(&s), Ok(Resolution::RunCommand(_))));
    // `exit 7` fails with nothing on either stream
    let err = command_output_text("x", false, b"", b"").unwrap_err().message();
    assert!(err.contains("command snippet 'x' failed"), "{err}");
}

#[test]
fn trim_trailing_newlines_handles_crlf() {
    assert_eq!(trim_trailing_newlines("a\r\n\r\n".into()), "a");
    assert_eq!(trim_trailing_newlines("a".into()), "a");
    assert_eq!(trim_trailing_newlines("a \n".into()), "a ");
}

#[test]
fn body_wins_over_command() {
    let s = SnippetConfig {
        key: "k".into(),
        name: "n".into(),
        body: Some("b".into()),
        command: Some("c".into()),
    };
    assert_eq!(text_of(resolve_snippet(&s)), "b");
}

#[test]
fn command_output_keeps_other_trailing_whitespace() {
    assert_eq!(command_output_text("k", true, b"a \t\r\n\n", b"").unwrap(), "a \t");
    assert_eq!(command_output_text("k", true, b"\n\n", b"").unwrap(), "");
}

#[test]
fn command_failure_carries_stderr() {
    let err = command_output_text("k", false, b"out", b"boom\n").unwrap_err();
    assert_eq!(err.message(), "command snippet 'k' failed: boom\n");
}

#[test]
fn command_output_replaces_invalid_utf8() {
    assert_eq!(command_output_text("k", true, b"a\xffb\n", b"").unwrap(), "a\u{fffd}b");
}

#[test]
fn trimming_twice_is_trimming_once() {
    let once = trim_trailing_newlines("x\r\n \n\r".into());
    assert_eq!(once, "x\r\n ");
    assert_eq!(trim_trailing_newlines(once.clone()), once);
}
