//! What an execution backend reports, and the ways a command can end
//! without a reply.

use vstd::prelude::*;
use crate::message::text_view;

verus! {

/// The outcome of running a program: either it ran and printed `stdout`, or
/// it did not and `errors` says why. Warnings may come with either.
#[derive(Clone, Debug, PartialEq, Eq)]
pub enum ExecutionResult {
    Success { stdout: String, warnings: Option<String> },
    Failure { errors: String, warnings: Option<String> },
}

/// An [`ExecutionResult`] with its texts as sequences of characters.
pub enum ExecutionModel {
    Success { stdout: Seq<char>, warnings: Option<Seq<char>> },
    Failure { errors: Seq<char>, warnings: Option<Seq<char>> },
}

impl View for ExecutionResult {
    type V = ExecutionModel;

    open spec fn view(&self) -> ExecutionModel {
        match self {
            ExecutionResult::Success { stdout, warnings } => ExecutionModel::Success {
                stdout: stdout@,
                warnings: text_view(*warnings),
            },
            ExecutionResult::Failure { errors, warnings } => ExecutionModel::Failure {
                errors: errors@,
                warnings: text_view(*warnings),
            },
        }
    }
}

/// Why a command ended without a reply. Each of these is contained in the
/// command that met it: the caller may log it, and goes on.
#[derive(Clone, Copy, Debug, PartialEq, Eq, Structural)]
pub enum Fault {
    /// The request to the remote service did not complete, or its response
    /// could not be read as text.
    Transport,
    /// The response is not the text of one JSON object.
    NotJson,
    /// `Warnings`, `Errors` or `Result` holds something other than a string
    /// or `null`, or `Stats` holds something other than a string.
    Field,
    /// The response has no `Stats`.
    NoStats,
    /// The response has neither a `Result` nor `Errors`.
    NoOutcome,
    /// The source file of the build scaffold could not be written.
    Write,
}

} // verus!
