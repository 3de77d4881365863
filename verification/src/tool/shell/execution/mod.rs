//! Command execution: the runner interface, a rule-table runner for tests and
//! demos, and the decisions of the operating-system runner.

use vstd::prelude::*;
use crate::model::command_request::CommandRequest;
use crate::model::event::ExecutionAttempt;
use crate::model::execution::ExecutionResult;

pub mod os_execution_runner;
pub mod simulated_execution_runner;

verus! {

/// Runs one attempt of a command.
///
/// The rule-table runner lets the approval, sandbox and retry state machine be
/// checked without a real sandbox; the operating-system runner implements the
/// same interface.
pub trait ExecutionRunner {
    /// Runs the command for the given attempt.
    fn run(&self, request: &CommandRequest, attempt: &ExecutionAttempt) -> ExecutionResult;
}

} // verus!
