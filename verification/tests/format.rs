use command_relay::format::{render, render_streams, usage};
use command_relay::outcome::ExecutionResult;

fn text(s: &str) -> String {
    s.to_string()
}

#[test]
fn success_without_warnings() {
    let result = ExecutionResult::Success { stdout: text("5"), warnings: None };
    assert_eq!(render(&result), "Output:\n5");
}

#[test]
fn success_with_warnings() {
    let result = ExecutionResult::Success { stdout: text("5\n"), warnings: Some(text("unused var")) };
    assert_eq!(render(&result), "Output:\n5\n\nWarnings:\nunused var");
}

#[test]
fn failure_without_warnings() {
    let result = ExecutionResult::Failure { errors: text("syntax error"), warnings: None };
    assert_eq!(render(&result), "Error:\nsyntax error");
}

#[test]
fn failure_with_warnings() {
    let result = ExecutionResult::Failure {
        errors: text("syntax error"),
        warnings: Some(text("unused var")),
    };
    assert_eq!(render(&result), "Error:\nsyntax error\nWarnings:\nunused var");
}

#[test]
fn empty_texts_keep_the_headings() {
    let result = ExecutionResult::Success { stdout: text(""), warnings: Some(text("")) };
    assert_eq!(render(&result), "Output:\n\nWarnings:\n");
    let result = ExecutionResult::Failure { errors: text(""), warnings: None };
    assert_eq!(render(&result), "Error:\n");
}

#[test]
fn streams_are_both_shown() {
    assert_eq!(render_streams("out", "err"), "*STDERR:*\n`err`\n*STDOUT*:\n`out`");
}

#[test]
fn empty_streams_are_shown_too() {
    assert_eq!(render_streams("", ""), "*STDERR:*\n``\n*STDOUT*:\n``");
    assert_eq!(render_streams("hi\n", ""), "*STDERR:*\n``\n*STDOUT*:\n`hi\n`");
    assert_eq!(render_streams("", "oops"), "*STDERR:*\n`oops`\n*STDOUT*:\n``");
}

#[test]
fn usage_names_the_command() {
    assert_eq!(usage("/sh"), "Format: /sh code");
    assert_eq!(usage("/rustexec"), "Format: /rustexec code");
    assert_eq!(usage(""), "Format:  code");
}
