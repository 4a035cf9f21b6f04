//! The texts sent back to a chat.

use vstd::prelude::*;
use vstd::string::StringExecFns;
use crate::outcome::{ExecutionModel, ExecutionResult};

verus! {

/// The warnings as they follow an output or an error, or nothing.
pub open spec fn warnings_part(warnings: Option<Seq<char>>) -> Seq<char> {
    match warnings {
        Some(w) => "\nWarnings:\n"@ + w,
        None => Seq::<char>::empty(),
    }
}

/// The reply for the outcome of an execution.
pub open spec fn rendered(result: ExecutionModel) -> Seq<char> {
    match result {
        ExecutionModel::Success { stdout, warnings } => "Output:\n"@ + stdout + warnings_part(
            warnings,
        ),
        ExecutionModel::Failure { errors, warnings } => "Error:\n"@ + errors + warnings_part(
            warnings,
        ),
    }
}

/// The reply for what a local process wrote: always both streams, an empty
/// one too.
pub open spec fn rendered_streams(stdout: Seq<char>, stderr: Seq<char>) -> Seq<char> {
    "*STDERR:*\n`"@ + stderr + "`\n*STDOUT*:\n`"@ + stdout + "`"@
}

/// The reply to a command that came without anything to run.
pub open spec fn usage_text(prefix: Seq<char>) -> Seq<char> {
    "Format: "@ + prefix + " code"@
}

/// Appends the warnings, where there are any.
fn push_warnings(text: &mut String, warnings: &Option<String>)
    ensures
        final(text)@ == old(text)@ + warnings_part(crate::message::text_view(*warnings)),
{
    match warnings {
        Some(w) => {
            text.append("\nWarnings:\n");
            text.append(w.as_str());
            assert(old(text)@ + "\nWarnings:\n"@ + w@ =~= old(text)@ + ("\nWarnings:\n"@ + w@));
        },
        None => {
            assert(old(text)@ + Seq::<char>::empty() =~= old(text)@);
        },
    }
}

/// Writes the reply for the outcome of an execution.
pub fn render(result: &ExecutionResult) -> (text: String)
    ensures
        text@ == rendered(result@),
{
    match result {
        ExecutionResult::Success { stdout, warnings } => {
            let mut text = String::from_str("Output:\n");
            text.append(stdout.as_str());
            push_warnings(&mut text, warnings);
            text
        },
        ExecutionResult::Failure { errors, warnings } => {
            let mut text = String::from_str("Error:\n");
            text.append(errors.as_str());
            push_warnings(&mut text, warnings);
            text
        },
    }
}

/// Writes the reply for what a local process wrote.
pub fn render_streams(stdout: &str, stderr: &str) -> (text: String)
    ensures
        text@ == rendered_streams(stdout@, stderr@),
{
    let mut text = String::from_str("*STDERR:*\n`");
    text.append(stderr);
    text.append("`\n*STDOUT*:\n`");
    text.append(stdout);
    text.append("`");
    text
}

/// Writes the reply to a command that came without anything to run.
pub fn usage(prefix: &str) -> (text: String)
    ensures
        text@ == usage_text(prefix@),
{
    let mut text = String::from_str("Format: ");
    text.append(prefix);
    text.append(" code");
    text
}

} // verus!
