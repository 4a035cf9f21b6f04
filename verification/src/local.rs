//! Running a command on this machine: how the shell is called, and the
//! reply made of what the process wrote.

use vstd::prelude::*;
use vstd::string::StringExecFns;
use vstd::utf8::{decode_utf8, valid_utf8};
use crate::format::{render, render_streams, rendered, rendered_streams};
use crate::message::{Markup, Outbound, OutboundModel};
use crate::outcome::{ExecutionModel, ExecutionResult, Fault};

verus! {

/// The family of command interpreter that the machine offers.
#[derive(Clone, Copy, Debug, PartialEq, Eq, Structural)]
pub enum Shell {
    /// `sh`, which takes a command after `-c`.
    Posix,
    /// `cmd`, which takes a command after `/C`.
    Windows,
}

/// A program to start, with its arguments in order.
#[derive(Clone, Debug, PartialEq, Eq)]
pub struct Invocation {
    pub program: String,
    pub args: Vec<String>,
}

/// An [`Invocation`] with its texts as sequences of characters.
pub struct InvocationModel {
    pub program: Seq<char>,
    pub args: Seq<Seq<char>>,
}

impl View for Invocation {
    type V = InvocationModel;

    open spec fn view(&self) -> InvocationModel {
        InvocationModel {
            program: self.program@,
            args: Seq::new(self.args@.len(), |i: int| self.args@[i]@),
        }
    }
}

/// The call that hands `command` to the shell, whole and as one argument:
/// nothing in it is quoted or escaped.
pub open spec fn shell_call(shell: Shell, command: Seq<char>) -> InvocationModel {
    match shell {
        Shell::Posix => InvocationModel { program: "sh"@, args: seq!["-c"@, command] },
        Shell::Windows => InvocationModel { program: "cmd"@, args: seq!["/C"@, command] },
    }
}

/// Builds the call that hands `command` to the shell.
pub fn invocation(shell: Shell, command: &str) -> (call: Invocation)
    ensures
        call@ == shell_call(shell, command@),
{
    let mut args: Vec<String> = Vec::new();
    let program = match shell {
        Shell::Posix => {
            args.push(String::from_str("-c"));
            String::from_str("sh")
        },
        Shell::Windows => {
            args.push(String::from_str("/C"));
            String::from_str("cmd")
        },
    };
    args.push(String::from_str(command));
    let call = Invocation { program, args };
    assert(call@.args =~= shell_call(shell, command@).args);
    call
}

/// The text that a process's output is read as: the bytes decoded as UTF-8,
/// with a replacement character where they are not.
pub uninterp spec fn lossy_text(bytes: Seq<u8>) -> Seq<char>;

/// `String::from_utf8_lossy`: the result depends on the bytes alone, and
/// bytes that are valid UTF-8 come out as the text they encode.
#[verifier::external_body]
pub(crate) fn decode_lossy(bytes: &[u8]) -> (text: String)
    ensures
        text@ == lossy_text(bytes@),
        valid_utf8(bytes@) ==> text@ == decode_utf8(bytes@),
{
    String::from_utf8_lossy(bytes).into_owned()
}

/// How a local command ended.
#[derive(Clone, Debug, PartialEq, Eq)]
pub enum Ran {
    /// The process ran to its end and wrote this.
    Finished { stdout: Vec<u8>, stderr: Vec<u8> },
    /// The process could not be started.
    NotStarted { reason: String },
    /// The source file could not be written, so nothing was started.
    NotWritten,
}

/// The end of a local command. What a process wrote is always sent back,
/// both streams, marked up. A process that could not be started is reported
/// as a failed execution. An unwritten source file stays silent.
pub open spec fn settled(chat: i64, ran: Ran) -> Result<OutboundModel, Fault> {
    match ran {
        Ran::Finished { stdout, stderr } => Ok(
            OutboundModel {
                chat,
                text: rendered_streams(lossy_text(stdout@), lossy_text(stderr@)),
                markup: Markup::Markdown,
            },
        ),
        Ran::NotStarted { reason } => Ok(
            OutboundModel {
                chat,
                text: rendered(ExecutionModel::Failure { errors: reason@, warnings: None }),
                markup: Markup::Plain,
            },
        ),
        Ran::NotWritten => Err(Fault::Write),
    }
}

/// The reply for the two streams of a process, already read as text.
pub fn report(chat: i64, stdout: &str, stderr: &str) -> (out: Outbound)
    ensures
        out@ == (OutboundModel {
            chat,
            text: rendered_streams(stdout@, stderr@),
            markup: Markup::Markdown,
        }),
{
    Outbound { chat, text: render_streams(stdout, stderr), markup: Markup::Markdown }
}

/// Ends a local command with the reply for `chat`, or with the fault that
/// keeps it silent. Output that is valid UTF-8 is shown as the text that
/// it encodes.
pub fn settle(chat: i64, ran: &Ran) -> (out: Result<Outbound, Fault>)
    ensures
        match out {
            Ok(o) => settled(chat, *ran) == Ok::<OutboundModel, Fault>(o@),
            Err(fault) => settled(chat, *ran) == Err::<OutboundModel, Fault>(fault),
        },
        match *ran {
            Ran::Finished { stdout, stderr } => valid_utf8(stdout@) && valid_utf8(stderr@) ==> {
                &&& out is Ok
                &&& out->Ok_0@.text == rendered_streams(decode_utf8(stdout@), decode_utf8(stderr@))
            },
            _ => true,
        },
{
    match ran {
        Ran::Finished { stdout, stderr } => {
            let stdout = decode_lossy(stdout.as_slice());
            let stderr = decode_lossy(stderr.as_slice());
            Ok(report(chat, stdout.as_str(), stderr.as_str()))
        },
        Ran::NotStarted { reason } => {
            let failure = ExecutionResult::Failure {
                errors: String::from_str(reason.as_str()),
                warnings: None,
            };
            Ok(Outbound { chat, text: render(&failure), markup: Markup::Plain })
        },
        Ran::NotWritten => Err(Fault::Write),
    }
}

} // verus!
