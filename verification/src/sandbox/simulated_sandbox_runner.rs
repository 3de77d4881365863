//! A sandbox runner that looks commands up in a rule table.

use vstd::prelude::*;
use crate::model::command_request::CommandRequest;
use crate::model::event::ExecutionAttempt;
use crate::model::execution::ExecutionResult;
use crate::sandbox::SandboxRunner;
use crate::tool::shell::execution::simulated_execution_runner::{
    common_rule_table, common_rules, run_rules, simulated_result, SimulatedRule, SimulatedRuleModel,
};

verus! {

/// The simulated sandbox runner: a sandboxed read succeeds, a failing test
/// fails, a sandboxed install is denied its network, an unsandboxed install
/// succeeds, and anything else fails with exit code 127.
pub struct SimulatedSandboxRunner {
    rules: Vec<SimulatedRule>,
}

impl View for SimulatedSandboxRunner {
    type V = Seq<SimulatedRuleModel>;

    closed spec fn view(&self) -> Seq<SimulatedRuleModel> {
        self.rules@.map_values(|r: SimulatedRule| r@)
    }
}

impl SimulatedSandboxRunner {
    /// The runner with its built-in rules.
    pub fn new() -> (r: Self)
        ensures
            r@ == common_rules(),
    {
        SimulatedSandboxRunner { rules: common_rule_table() }
    }

    /// Looks the request and attempt up in the rules.
    pub fn run_attempt(&self, request: &CommandRequest, attempt: &ExecutionAttempt) -> (r:
        ExecutionResult)
        ensures
            r@ == simulated_result(self@, request@, attempt@),
    {
        run_rules(&self.rules, request, attempt)
    }
}

impl Default for SimulatedSandboxRunner {
    /// The runner with the common rules.
    fn default() -> (r: Self)
        ensures
            r@ == common_rules(),
    {
        SimulatedSandboxRunner::new()
    }
}

impl SandboxRunner for SimulatedSandboxRunner {
    fn run(&self, request: &CommandRequest, attempt: &ExecutionAttempt) -> (r: ExecutionResult)
        ensures
            r@ == simulated_result(self@, request@, attempt@),
    {
        self.run_attempt(request, attempt)
    }
}

} // verus!
