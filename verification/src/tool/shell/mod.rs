//! The `run_command` tool: capability matching, approval, sandboxed execution
//! and retry.

use vstd::prelude::*;
use crate::model::execution::{
    debug_network_context, network_context_debug, ExecutionFailure, ExecutionFailureModel,
    ExecutionResult, ExecutionResultModel,
};
use crate::text::{i64_to_string, int_text};

pub mod approval;
pub mod execution;
pub mod flow;
pub mod registry;
pub mod retry;

verus! {

/// The arguments of a `run_command` tool call.
///
/// The model only supplies the command text and why it wants it; cwd,
/// capability, sandbox and network policy are assembled by the host.
#[derive(Debug)]
pub struct RunCommandArgs {
    pub command: String,
    pub justification: Option<String>,
}

/// Where a shell command ends up: approval, sandbox and retry are all folded
/// into one of these three outcomes.
pub enum RunCommandResult {
    Finished { output: String },
    Failed { error: String },
    Denied { reason: String },
}

/// The mathematical value of a [`RunCommandResult`].
pub enum RunCommandResultModel {
    Finished { output: Seq<char> },
    Failed { error: Seq<char> },
    Denied { reason: Seq<char> },
}

impl View for RunCommandResult {
    type V = RunCommandResultModel;

    open spec fn view(&self) -> RunCommandResultModel {
        match self {
            RunCommandResult::Finished { output } => RunCommandResultModel::Finished {
                output: output@,
            },
            RunCommandResult::Failed { error } => RunCommandResultModel::Failed { error: error@ },
            RunCommandResult::Denied { reason } => RunCommandResultModel::Denied {
                reason: reason@,
            },
        }
    }
}

/// How an execution failure ends a command: a failure of the command is a
/// failure, a sandbox denial is a denial.
pub open spec fn outcome_of_failure(f: ExecutionFailureModel) -> RunCommandResultModel {
    match f {
        ExecutionFailureModel::CommandFailed { exit_code, stderr } => RunCommandResultModel::Failed {
            error: "exit_code: "@ + int_text(exit_code as int) + ", stderr: "@ + stderr,
        },
        ExecutionFailureModel::SandboxDenied { output, network_context } =>
            RunCommandResultModel::Denied {
            reason: "denied: "@ + output + ", network_context: "@ + network_context_debug(
                network_context,
            ),
        },
    }
}

/// How an execution result ends a command.
pub open spec fn outcome_of_result(r: ExecutionResultModel) -> RunCommandResultModel {
    match r {
        ExecutionResultModel::Success { stdout } => RunCommandResultModel::Finished {
            output: stdout,
        },
        ExecutionResultModel::Failure(f) => outcome_of_failure(f),
    }
}

impl RunCommandResult {
    /// Folds an execution failure into the command's outcome.
    pub fn from_failure(value: ExecutionFailure) -> (r: RunCommandResult)
        ensures
            r@ == outcome_of_failure(value@),
    {
        match value {
            ExecutionFailure::CommandFailed { exit_code, stderr } => {
                let mut error = "exit_code: ".to_string();
                error.append(i64_to_string(exit_code as i64).as_str());
                error.append(", stderr: ");
                error.append(stderr.as_str());
                RunCommandResult::Failed { error }
            },
            ExecutionFailure::SandboxDenied { output, network_context } => {
                let mut reason = "denied: ".to_string();
                reason.append(output.as_str());
                reason.append(", network_context: ");
                reason.append(debug_network_context(&network_context).as_str());
                RunCommandResult::Denied { reason }
            },
        }
    }

    /// Folds an execution result into the command's outcome.
    pub fn from_result(value: ExecutionResult) -> (r: RunCommandResult)
        ensures
            r@ == outcome_of_result(value@),
    {
        match value {
            ExecutionResult::Success { stdout } => RunCommandResult::Finished { output: stdout },
            ExecutionResult::Failure(failure) => RunCommandResult::from_failure(failure),
        }
    }
}

} // verus!
