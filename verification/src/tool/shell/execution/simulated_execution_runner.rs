//! A runner that executes nothing: it looks `argv` and the attempt up in a
//! table of rules, so that the approval, sandbox and retry flow can be driven
//! without an operating-system sandbox.

use vstd::prelude::*;
use crate::model::approval::SandboxProfile;
use crate::model::command_request::{CommandRequest, CommandRequestModel};
use crate::model::event::{ExecutionAttempt, ExecutionAttemptModel};
use crate::model::execution::{
    duplicate_network_context, network_context_model, ExecutionFailure, ExecutionFailureModel,
    ExecutionResult, ExecutionResultModel, NetworkApprovalContext, NetworkApprovalContextModel,
};
use crate::tool::shell::execution::ExecutionRunner;
use crate::tool::shell::registry::{words1, words2, words4};
use crate::util::{args_has_prefix, has_prefix};

verus! {

/// The simulated runner.
pub struct SimulatedExecutionRunner {
    rules: Vec<SimulatedRule>,
}

/// One rule: a command prefix and an attempt kind that must both match, and
/// the result they give.
pub struct SimulatedRule {
    pub command_prefix: Vec<String>,
    pub attempt: SimulatedAttempt,
    pub result: SimulatedResult,
}

/// The attempt kinds the simulation tells apart: a sandbox profile, or no
/// sandbox at all (a first unsandboxed attempt and a retry are the same).
#[derive(Debug, Clone, Copy, PartialEq, Eq, Structural)]
pub enum SimulatedAttempt {
    Sandbox(SandboxProfile),
    NoSandbox,
}

/// The result a rule gives.
pub enum SimulatedResult {
    Success { stdout: String },
    CommandFailed { exit_code: i32, stderr: String },
    SandboxDenied { output: String, network_context: Option<NetworkApprovalContext> },
}

/// The mathematical value of a [`SimulatedResult`].
pub enum SimulatedResultModel {
    Success { stdout: Seq<char> },
    CommandFailed { exit_code: i32, stderr: Seq<char> },
    SandboxDenied { output: Seq<char>, network_context: Option<NetworkApprovalContextModel> },
}

/// The mathematical value of a [`SimulatedRule`].
pub struct SimulatedRuleModel {
    pub command_prefix: Seq<Seq<char>>,
    pub attempt: SimulatedAttempt,
    pub result: SimulatedResultModel,
}

impl View for SimulatedResult {
    type V = SimulatedResultModel;

    open spec fn view(&self) -> SimulatedResultModel {
        match self {
            SimulatedResult::Success { stdout } => SimulatedResultModel::Success { stdout: stdout@ },
            SimulatedResult::CommandFailed { exit_code, stderr } =>
                SimulatedResultModel::CommandFailed { exit_code: *exit_code, stderr: stderr@ },
            SimulatedResult::SandboxDenied { output, network_context } =>
                SimulatedResultModel::SandboxDenied {
                output: output@,
                network_context: network_context_model(*network_context),
            },
        }
    }
}

impl View for SimulatedRule {
    type V = SimulatedRuleModel;

    open spec fn view(&self) -> SimulatedRuleModel {
        SimulatedRuleModel {
            command_prefix: self.command_prefix.deep_view(),
            attempt: self.attempt,
            result: self.result@,
        }
    }
}

impl View for SimulatedExecutionRunner {
    type V = Seq<SimulatedRuleModel>;

    closed spec fn view(&self) -> Seq<SimulatedRuleModel> {
        self.rules@.map_values(|r: SimulatedRule| r@)
    }
}

/// The attempt kind of an execution attempt.
pub open spec fn attempt_kind(attempt: ExecutionAttemptModel) -> SimulatedAttempt {
    match attempt {
        ExecutionAttemptModel::SandboxFirst { sandbox_profile } => SimulatedAttempt::Sandbox(
            sandbox_profile,
        ),
        _ => SimulatedAttempt::NoSandbox,
    }
}

impl SimulatedAttempt {
    /// The label of an attempt kind in error messages.
    pub open spec fn label_text(self) -> Seq<char> {
        match self {
            SimulatedAttempt::Sandbox(p) => "sandbox:"@ + p.debug_text(),
            SimulatedAttempt::NoSandbox => "no-sandbox"@,
        }
    }

    /// The kind of an execution attempt.
    pub fn from_attempt(attempt: &ExecutionAttempt) -> (r: SimulatedAttempt)
        ensures
            r == attempt_kind(attempt@),
    {
        match attempt {
            ExecutionAttempt::SandboxFirst { sandbox_profile } => SimulatedAttempt::Sandbox(
                *sandbox_profile,
            ),
            ExecutionAttempt::NoSandboxFirst { .. } | ExecutionAttempt::NoSandboxRetry { .. } =>
                SimulatedAttempt::NoSandbox,
        }
    }

    /// The label of this attempt kind in error messages.
    pub fn label(&self) -> (r: String)
        ensures
            r@ == self.label_text(),
    {
        match self {
            SimulatedAttempt::Sandbox(profile) => {
                let mut r = "sandbox:".to_string();
                r.append(profile.debug_string().as_str());
                r
            },
            SimulatedAttempt::NoSandbox => "no-sandbox".to_string(),
        }
    }
}

/// The execution result a rule's result gives for a command.
pub open spec fn rendered(result: SimulatedResultModel, raw_command: Seq<char>) -> ExecutionResultModel {
    match result {
        SimulatedResultModel::Success { stdout } => ExecutionResultModel::Success {
            stdout: stdout + ". raw_command: "@ + raw_command,
        },
        SimulatedResultModel::CommandFailed { exit_code, stderr } => ExecutionResultModel::Failure(
            ExecutionFailureModel::CommandFailed {
                exit_code,
                stderr: stderr + ". raw_command: "@ + raw_command,
            },
        ),
        SimulatedResultModel::SandboxDenied { output, network_context } =>
            ExecutionResultModel::Failure(
            ExecutionFailureModel::SandboxDenied {
                output: output + ". raw_command: "@ + raw_command,
                network_context,
            },
        ),
    }
}

impl SimulatedResult {
    /// Renders this result for a request: the text is followed by the command.
    pub fn render(&self, request: &CommandRequest) -> (r: ExecutionResult)
        ensures
            r@ == rendered(self@, request@.raw_command),
    {
        match self {
            SimulatedResult::Success { stdout } => {
                let mut s = stdout.clone();
                s.append(". raw_command: ");
                s.append(request.raw_command.as_str());
                ExecutionResult::Success { stdout: s }
            },
            SimulatedResult::CommandFailed { exit_code, stderr } => {
                let mut s = stderr.clone();
                s.append(". raw_command: ");
                s.append(request.raw_command.as_str());
                ExecutionResult::Failure(
                    ExecutionFailure::CommandFailed { exit_code: *exit_code, stderr: s },
                )
            },
            SimulatedResult::SandboxDenied { output, network_context } => {
                let mut s = output.clone();
                s.append(". raw_command: ");
                s.append(request.raw_command.as_str());
                ExecutionResult::Failure(
                    ExecutionFailure::SandboxDenied {
                        output: s,
                        network_context: duplicate_network_context(network_context),
                    },
                )
            },
        }
    }
}

/// The first rule matching a command's argv and attempt kind.
pub open spec fn first_rule(
    rules: Seq<SimulatedRuleModel>,
    argv: Seq<Seq<char>>,
    kind: SimulatedAttempt,
) -> Option<SimulatedRuleModel>
    decreases rules.len(),
{
    if rules.len() == 0 {
        None
    } else if has_prefix(argv, rules[0].command_prefix) && rules[0].attempt == kind {
        Some(rules[0])
    } else {
        first_rule(rules.drop_first(), argv, kind)
    }
}

/// What the simulation gives for a request and attempt: the first matching
/// rule's result, or exit code 127 when no rule matches.
pub open spec fn simulated_result(
    rules: Seq<SimulatedRuleModel>,
    request: CommandRequestModel,
    attempt: ExecutionAttemptModel,
) -> ExecutionResultModel {
    let kind = attempt_kind(attempt);
    match first_rule(rules, request.argv, kind) {
        Some(rule) => rendered(rule.result, request.raw_command),
        None => ExecutionResultModel::Failure(
            ExecutionFailureModel::CommandFailed {
                exit_code: 127,
                stderr: "unsupported simulated command: `"@ + request.raw_command
                    + "` for attempt `"@ + kind.label_text()
                    + "`; no SimulatedRule matched argv prefix"@,
            },
        ),
    }
}

/// The rule model with the given fields.
pub open spec fn rule(
    command_prefix: Seq<Seq<char>>,
    attempt: SimulatedAttempt,
    result: SimulatedResultModel,
) -> SimulatedRuleModel {
    SimulatedRuleModel { command_prefix, attempt, result }
}

/// The simulated network target of a package install.
pub open spec fn npm_registry() -> NetworkApprovalContextModel {
    NetworkApprovalContextModel { host: "registry.npmjs.org"@, protocol: "https"@ }
}

/// The rules shared by both simulated runners: a sandboxed read succeeds, a
/// failing test fails, a sandboxed install is denied its network, and an
/// unsandboxed install succeeds.
pub open spec fn common_rules() -> Seq<SimulatedRuleModel> {
    seq![
        rule(
            seq!["cat"@],
            SimulatedAttempt::Sandbox(SandboxProfile::ReadOnly),
            SimulatedResultModel::Success { stdout: "simulated read success"@ },
        ),
        rule(
            seq!["npm"@, "test"@, "--"@, "fail"@],
            SimulatedAttempt::Sandbox(SandboxProfile::WorkspaceWrite),
            SimulatedResultModel::CommandFailed { exit_code: 1, stderr: "simulated command failed"@ },
        ),
        rule(
            seq!["npm"@, "install"@],
            SimulatedAttempt::Sandbox(SandboxProfile::WorkspaceWrite),
            SimulatedResultModel::SandboxDenied {
                output: "network access denied by simulated sandbox"@,
                network_context: Some(npm_registry()),
            },
        ),
        rule(
            seq!["npm"@, "install"@],
            SimulatedAttempt::NoSandbox,
            SimulatedResultModel::Success { stdout: "simulated install success without sandbox"@ },
        ),
    ]
}

/// The rules of the simulated execution runner: the common rules, then a
/// sandboxed `echo approval-test` that succeeds.
pub open spec fn execution_rules() -> Seq<SimulatedRuleModel> {
    common_rules().push(
        rule(
            seq!["echo"@, "approval-test"@],
            SimulatedAttempt::Sandbox(SandboxProfile::ReadOnly),
            SimulatedResultModel::Success { stdout: "approval-test"@ },
        ),
    )
}

/// The common rules, built.
pub fn common_rule_table() -> (r: Vec<SimulatedRule>)
    ensures
        r@.map_values(|x: SimulatedRule| x@) == common_rules(),
{
    let mut rules: Vec<SimulatedRule> = Vec::new();
    rules.push(
        SimulatedRule {
            command_prefix: words1("cat"),
            attempt: SimulatedAttempt::Sandbox(SandboxProfile::ReadOnly),
            result: SimulatedResult::Success { stdout: "simulated read success".to_string() },
        },
    );
    rules.push(
        SimulatedRule {
            command_prefix: words4("npm", "test", "--", "fail"),
            attempt: SimulatedAttempt::Sandbox(SandboxProfile::WorkspaceWrite),
            result: SimulatedResult::CommandFailed {
                exit_code: 1,
                stderr: "simulated command failed".to_string(),
            },
        },
    );
    rules.push(
        SimulatedRule {
            command_prefix: words2("npm", "install"),
            attempt: SimulatedAttempt::Sandbox(SandboxProfile::WorkspaceWrite),
            result: SimulatedResult::SandboxDenied {
                output: "network access denied by simulated sandbox".to_string(),
                network_context: Some(
                    NetworkApprovalContext {
                        host: "registry.npmjs.org".to_string(),
                        protocol: "https".to_string(),
                    },
                ),
            },
        },
    );
    rules.push(
        SimulatedRule {
            command_prefix: words2("npm", "install"),
            attempt: SimulatedAttempt::NoSandbox,
            result: SimulatedResult::Success {
                stdout: "simulated install success without sandbox".to_string(),
            },
        },
    );
    assert(rules@.map_values(|x: SimulatedRule| x@) =~= common_rules()) by {
        let m = rules@.map_values(|x: SimulatedRule| x@);
        assert(m[0] == common_rules()[0]);
        assert(m[1] == common_rules()[1]);
        assert(m[2] == common_rules()[2]);
        assert(m[3] == common_rules()[3]);
    }
    rules
}

/// Runs the rule table.
pub fn run_rules(
    rules: &Vec<SimulatedRule>,
    request: &CommandRequest,
    attempt: &ExecutionAttempt,
) -> (r: ExecutionResult)
    ensures
        r@ == simulated_result(rules@.map_values(|x: SimulatedRule| x@), request@, attempt@),
{
    let kind = SimulatedAttempt::from_attempt(attempt);
    let ghost rs = rules@.map_values(|x: SimulatedRule| x@);
    let mut i: usize = 0;
    assert(rs.skip(0) =~= rs);
    while i < rules.len()
        invariant
            i <= rules.len(),
            rs == rules@.map_values(|x: SimulatedRule| x@),
            kind == attempt_kind(attempt@),
            first_rule(rs, request@.argv, kind) == first_rule(rs.skip(i as int), request@.argv, kind),
        decreases rules.len() - i,
    {
        proof {
            assert(rs.skip(i as int)[0] == rules@[i as int]@);
            assert(rs.skip(i as int).drop_first() =~= rs.skip(i + 1));
        }
        if args_has_prefix(request.argv.as_slice(), rules[i].command_prefix.as_slice())
            && rules[i].attempt == kind {
            return rules[i].result.render(request);
        }
        i = i + 1;
    }
    assert(rs.skip(i as int).len() == 0);
    let mut stderr = "unsupported simulated command: `".to_string();
    stderr.append(request.raw_command.as_str());
    stderr.append("` for attempt `");
    stderr.append(kind.label().as_str());
    stderr.append("`; no SimulatedRule matched argv prefix");
    ExecutionResult::Failure(ExecutionFailure::CommandFailed { exit_code: 127, stderr })
}

impl SimulatedExecutionRunner {
    /// The runner with its built-in rules.
    pub fn new() -> (r: Self)
        ensures
            r@ == execution_rules(),
    {
        let mut rules = common_rule_table();
        rules.push(
            SimulatedRule {
                command_prefix: words2("echo", "approval-test"),
                attempt: SimulatedAttempt::Sandbox(SandboxProfile::ReadOnly),
                result: SimulatedResult::Success { stdout: "approval-test".to_string() },
            },
        );
        let r = SimulatedExecutionRunner { rules };
        assert(r@ =~= execution_rules()) by {
            assert(r@[4] == execution_rules()[4]);
            assert(r@.take(4) =~= common_rules());
        }
        r
    }

    /// Looks the request and attempt up in the rules.
    pub fn run_attempt(&self, request: &CommandRequest, attempt: &ExecutionAttempt) -> (r:
        ExecutionResult)
        ensures
            r@ == simulated_result(self@, request@, attempt@),
    {
        run_rules(&self.rules, request, attempt)
    }
}

impl Default for SimulatedExecutionRunner {
    /// The runner with the common rules and the approval-test rule.
    fn default() -> (r: Self)
        ensures
            r@ == execution_rules(),
    {
        SimulatedExecutionRunner::new()
    }
}

impl ExecutionRunner for SimulatedExecutionRunner {
    fn run(&self, request: &CommandRequest, attempt: &ExecutionAttempt) -> (r: ExecutionResult)
        ensures
            r@ == simulated_result(self@, request@, attempt@),
    {
        self.run_attempt(request, attempt)
    }
}

} // verus!
