//! The sandbox runner interface of the first command runtime, and its
//! rule-table implementation.

use vstd::prelude::*;
use crate::model::command_request::CommandRequest;
use crate::model::event::ExecutionAttempt;
use crate::model::execution::ExecutionResult;

pub mod simulated_sandbox_runner;

verus! {

/// Runs one attempt of a command in or out of a sandbox.
pub trait SandboxRunner {
    /// Runs the command for the given attempt.
    fn run(&self, request: &CommandRequest, attempt: &ExecutionAttempt) -> ExecutionResult;
}

} // verus!
