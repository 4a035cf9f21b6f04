use command_relay::local::{invocation, report, settle, Invocation, Ran, Shell};
use command_relay::message::{Markup, Outbound};
use command_relay::outcome::Fault;

fn text(s: &str) -> String {
    s.to_string()
}

#[test]
fn posix_shell_takes_the_command_after_c() {
    assert_eq!(
        invocation(Shell::Posix, "echo hi"),
        Invocation { program: text("sh"), args: vec![text("-c"), text("echo hi")] }
    );
}

#[test]
fn windows_shell_takes_the_command_after_slash_c() {
    assert_eq!(
        invocation(Shell::Windows, "echo hi"),
        Invocation { program: text("cmd"), args: vec![text("/C"), text("echo hi")] }
    );
}

#[test]
fn command_is_one_argument_and_unquoted() {
    let command = " ls -la 'a b' \"c\" ; echo $HOME\n";
    let call = invocation(Shell::Posix, command);
    assert_eq!(call.args.len(), 2);
    assert_eq!(call.args[1], command);
}

#[test]
fn echo_hi_is_reported() {
    let ran = Ran::Finished { stdout: b"hi\n".to_vec(), stderr: Vec::new() };
    assert_eq!(
        settle(5, &ran),
        Ok(Outbound {
            chat: 5,
            text: text("*STDERR:*\n``\n*STDOUT*:\n`hi\n`"),
            markup: Markup::Markdown,
        })
    );
}

#[test]
fn both_streams_are_reported() {
    let ran = Ran::Finished { stdout: b"out".to_vec(), stderr: b"warning: x\n".to_vec() };
    assert_eq!(
        settle(5, &ran),
        Ok(Outbound {
            chat: 5,
            text: text("*STDERR:*\n`warning: x\n`\n*STDOUT*:\n`out`"),
            markup: Markup::Markdown,
        })
    );
}

#[test]
fn silent_process_is_reported_too() {
    let ran = Ran::Finished { stdout: Vec::new(), stderr: Vec::new() };
    assert_eq!(settle(5, &ran).unwrap().text, "*STDERR:*\n``\n*STDOUT*:\n``");
}

#[test]
fn bytes_that_are_no_text_are_replaced() {
    let ran = Ran::Finished { stdout: vec![b'a', 0xff, b'b'], stderr: vec![0xc3] };
    assert_eq!(
        settle(5, &ran).unwrap().text,
        "*STDERR:*\n`\u{fffd}`\n*STDOUT*:\n`a\u{fffd}b`"
    );
}

#[test]
fn text_beyond_ascii_is_kept() {
    let ran = Ran::Finished { stdout: "é 日本".as_bytes().to_vec(), stderr: Vec::new() };
    assert_eq!(settle(5, &ran).unwrap().text, "*STDERR:*\n``\n*STDOUT*:\n`é 日本`");
}

#[test]
fn process_that_did_not_start_is_a_failure() {
    let ran = Ran::NotStarted { reason: text("No such file or directory (os error 2)") };
    assert_eq!(
        settle(5, &ran),
        Ok(Outbound {
            chat: 5,
            text: text("Error:\nNo such file or directory (os error 2)"),
            markup: Markup::Plain,
        })
    );
}

#[test]
fn unwritten_source_is_silent() {
    assert_eq!(settle(5, &Ran::NotWritten), Err(Fault::Write));
}

#[test]
fn report_is_marked_up() {
    let out = report(9, "o", "e");
    assert_eq!(
        out,
        Outbound { chat: 9, text: text("*STDERR:*\n`e`\n*STDOUT*:\n`o`"), markup: Markup::Markdown }
    );
}
