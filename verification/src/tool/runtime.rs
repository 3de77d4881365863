//! The boundary between the ReAct loop and the tools: which tools the model
//! may call, how a call becomes a plan, and how a tool's outcome is reported.

use vstd::prelude::*;
use crate::agent::stream_event::{StreamEvent, StreamEventModel, ToolCallFinished, ToolCallFinishedModel};
use crate::model::approval::ApprovalPolicy;
use crate::model::capability::CapabilityKind;
use crate::model::command_request::{CommandRequest, CommandRequestModel};
use crate::text::{concat, contains_text, split_white_space, split_whitespace, str_contains, str_equal};
use crate::tool::function::{
    json_member_of, outcome_matches, pure_function_fits, pure_function_outcome, try_run_pure_function,
};
use crate::tool::shell::approval::{ToolCallContext, ToolCallContextModel};
use crate::tool::shell::registry::{first_match, CapabilityRegistry, MatchedCapability, MatchedCapabilityModel};
use crate::tool::shell::{RunCommandArgs, RunCommandResult, RunCommandResultModel};

verus! {

/// The kind of a tool the model can see.
#[derive(Debug, Clone, Copy, PartialEq, Eq, Structural)]
pub enum ToolKind {
    PureFunction,
    Command,
}

/// A tool the model can see: its name and kind.
#[derive(Debug, Clone, Copy)]
pub struct ToolDefinition {
    pub name: &'static str,
    pub kind: ToolKind,
}

/// The host's side of a tool run: the model cannot change the working
/// directory, the approval policy or the capability registry through its
/// arguments.
pub struct ToolRuntimeContext {
    pub cwd: String,
    pub approval_policy: ApprovalPolicy,
    pub registry: CapabilityRegistry,
}

/// Turns the model's tool calls into plans.
pub struct ToolRuntime {
    pub context: ToolRuntimeContext,
}

/// What a tool call will do: run a pure function, run a command, or fail
/// because its arguments or its command cannot form a plan. Refusals for
/// safety are not plans; they come from the command's own approval flow.
pub enum ToolRuntimePlan {
    RunPureFunction { name: String, arguments: String },
    RunCommand {
        request: CommandRequest,
        context: ToolCallContext,
        matched_capability: MatchedCapability,
    },
    Fail { error: String },
}

/// The outcome of a tool call as the ReAct loop sees it. `Skipped` marks a
/// call that was not run because of an earlier outcome.
#[derive(Debug, Clone, PartialEq, Eq)]
pub enum ToolRuntimeResult {
    Finished { output: String },
    Failed { error: String },
    Denied { reason: String },
    Skipped { reason: String },
}

/// The mathematical value of a [`ToolRuntimeResult`].
pub enum ToolRuntimeResultModel {
    Finished { output: Seq<char> },
    Failed { error: Seq<char> },
    Denied { reason: Seq<char> },
    Skipped { reason: Seq<char> },
}

/// The mathematical value of a [`ToolRuntimePlan`].
pub enum ToolRuntimePlanModel {
    RunPureFunction { name: Seq<char>, arguments: Seq<char> },
    RunCommand {
        request: CommandRequestModel,
        context: ToolCallContextModel,
        matched_capability: MatchedCapabilityModel,
    },
    Fail { error: Seq<char> },
}

impl View for ToolRuntimeResult {
    type V = ToolRuntimeResultModel;

    open spec fn view(&self) -> ToolRuntimeResultModel {
        match self {
            ToolRuntimeResult::Finished { output } => ToolRuntimeResultModel::Finished {
                output: output@,
            },
            ToolRuntimeResult::Failed { error } => ToolRuntimeResultModel::Failed { error: error@ },
            ToolRuntimeResult::Denied { reason } => ToolRuntimeResultModel::Denied {
                reason: reason@,
            },
            ToolRuntimeResult::Skipped { reason } => ToolRuntimeResultModel::Skipped {
                reason: reason@,
            },
        }
    }
}

impl View for ToolRuntimePlan {
    type V = ToolRuntimePlanModel;

    open spec fn view(&self) -> ToolRuntimePlanModel {
        match self {
            ToolRuntimePlan::RunPureFunction { name, arguments } =>
                ToolRuntimePlanModel::RunPureFunction { name: name@, arguments: arguments@ },
            ToolRuntimePlan::RunCommand { request, context, matched_capability } =>
                ToolRuntimePlanModel::RunCommand {
                request: request@,
                context: context@,
                matched_capability: matched_capability@,
            },
            ToolRuntimePlan::Fail { error } => ToolRuntimePlanModel::Fail { error: error@ },
        }
    }
}

/// The runtime outcome of a command's outcome: the same variant, the same text.
pub open spec fn runtime_result_of_command(r: RunCommandResultModel) -> ToolRuntimeResultModel {
    match r {
        RunCommandResultModel::Finished { output } => ToolRuntimeResultModel::Finished { output },
        RunCommandResultModel::Failed { error } => ToolRuntimeResultModel::Failed { error },
        RunCommandResultModel::Denied { reason } => ToolRuntimeResultModel::Denied { reason },
    }
}

impl ToolRuntimeResult {
    /// The runtime outcome of a command's outcome.
    pub fn from_command_result(value: RunCommandResult) -> (r: ToolRuntimeResult)
        ensures
            r@ == runtime_result_of_command(value@),
    {
        match value {
            RunCommandResult::Finished { output } => ToolRuntimeResult::Finished { output },
            RunCommandResult::Failed { error } => ToolRuntimeResult::Failed { error },
            RunCommandResult::Denied { reason } => ToolRuntimeResult::Denied { reason },
        }
    }

    /// The runtime outcome of a pure function: its output, or its error as a failure.
    pub fn from_pure_function(value: Result<String, String>) -> (r: ToolRuntimeResult)
        ensures
            match value {
                Ok(output) => r@ == ToolRuntimeResultModel::Finished { output: output@ },
                Err(error) => r@ == ToolRuntimeResultModel::Failed { error: error@ },
            },
    {
        match value {
            Ok(output) => ToolRuntimeResult::Finished { output },
            Err(error) => ToolRuntimeResult::Failed { error },
        }
    }
}

/// The kind of the tool the model sees under `name`, if there is one: the
/// two arithmetic functions and `run_command`.
pub open spec fn tool_kind_named(name: Seq<char>) -> Option<ToolKind> {
    if name == "add"@ || name == "sub"@ {
        Some(ToolKind::PureFunction)
    } else if name == "run_command"@ {
        Some(ToolKind::Command)
    } else {
        None
    }
}

/// The tools the model can see, in order.
pub fn tools() -> (r: Vec<ToolDefinition>)
    ensures
        r.len() == 3,
        r[0].name@ == "add"@ && r[0].kind == ToolKind::PureFunction,
        r[1].name@ == "sub"@ && r[1].kind == ToolKind::PureFunction,
        r[2].name@ == "run_command"@ && r[2].kind == ToolKind::Command,
{
    vec![
        ToolDefinition { name: "add", kind: ToolKind::PureFunction },
        ToolDefinition { name: "sub", kind: ToolKind::PureFunction },
        ToolDefinition { name: "run_command", kind: ToolKind::Command },
    ]
}

/// The shell tokens that make a command more than one simple command.
pub open spec fn has_shell_control_syntax(command: Seq<char>) -> bool {
    ||| contains_text(command, "\n"@)
    ||| contains_text(command, "&&"@)
    ||| contains_text(command, "||"@)
    ||| contains_text(command, ";"@)
    ||| contains_text(command, "|"@)
    ||| contains_text(command, "<<"@)
    ||| contains_text(command, ">>"@)
    ||| contains_text(command, ">"@)
    ||| contains_text(command, "<"@)
    ||| contains_text(command, "`"@)
    ||| contains_text(command, "$("@)
    ||| contains_text(command, ")"@)
}

/// Whether a command holds a line break, a chain, a pipe, a redirection, a
/// backquote or a substitution.
pub fn contains_shell_control_syntax(command: &str) -> (r: bool)
    ensures
        r == has_shell_control_syntax(command@),
{
    str_contains(command, "\n") || str_contains(command, "&&") || str_contains(command, "||")
        || str_contains(command, ";") || str_contains(command, "|") || str_contains(command, "<<")
        || str_contains(command, ">>") || str_contains(command, ">") || str_contains(command, "<")
        || str_contains(command, "`") || str_contains(command, "$(") || str_contains(command, ")")
}

/// The outcome of building a command request from `run_command` arguments:
/// the error text, or the request and the capability it matched.
pub enum CommandPlanModel {
    Unmatched { error: Seq<char> },
    Unsupported { error: Seq<char> },
    Planned { request: CommandRequestModel, matched: MatchedCapabilityModel },
}

/// The request the host builds for a matched command.
pub open spec fn command_request_for(
    command: Seq<char>,
    justification: Option<Seq<char>>,
    cwd: Seq<char>,
    approval_policy: ApprovalPolicy,
    m: MatchedCapabilityModel,
) -> CommandRequestModel {
    CommandRequestModel {
        raw_command: command,
        argv: split_white_space(command),
        cwd,
        capability: m.capability.kind,
        approval_policy,
        sandbox_profile: m.capability.policy.first_attempt_sandbox,
        network_policy: m.capability.policy.network_policy,
        justification,
    }
}

/// How `run_command` arguments become a request: the command is split on
/// white space and matched against the registry; a command that matches no
/// capability is refused, and so is shell control syntax unless the matched
/// capability is the dangerous-shell one.
pub open spec fn command_plan(
    command: Seq<char>,
    justification: Option<Seq<char>>,
    cwd: Seq<char>,
    approval_policy: ApprovalPolicy,
    registry: Seq<crate::model::capability::CapabilityDescriptorModel>,
) -> CommandPlanModel {
    match first_match(registry, split_white_space(command)) {
        None => CommandPlanModel::Unmatched {
            error: "cannot match the capability for command: "@ + command,
        },
        Some(m) => if has_shell_control_syntax(command) && m.capability.kind
            != CapabilityKind::DangerousShell {
            CommandPlanModel::Unsupported {
                error: "complex shell syntax is not supported by this demo run_command: "@
                    + command,
            }
        } else {
            CommandPlanModel::Planned {
                request: command_request_for(command, justification, cwd, approval_policy, m),
                matched: m,
            }
        },
    }
}

/// The justification's text, if there is one.
pub open spec fn justification_model(j: Option<String>) -> Option<Seq<char>> {
    match j {
        Some(s) => Some(s@),
        None => None,
    }
}

/// Whether a plan result agrees with the model of the plan.
pub open spec fn plan_result_matches(
    r: Result<(CommandRequest, MatchedCapability), String>,
    p: CommandPlanModel,
) -> bool {
    match p {
        CommandPlanModel::Unmatched { error } => r matches Err(e) && e@ == error,
        CommandPlanModel::Unsupported { error } => r matches Err(e) && e@ == error,
        CommandPlanModel::Planned { request, matched } => r matches Ok(pair) && pair.0@ == request
            && pair.1@ == matched,
    }
}

/// The context of a tool call that runs a command.
pub open spec fn call_context_of(call: ToolCallFinishedModel) -> ToolCallContextModel {
    ToolCallContextModel { index: call.index, call_id: call.call_id, tool_name: call.name }
}

/// How a tool call starts: it is over at once (an unknown tool, or a pure
/// function that was evaluated), it needs the command flow, or its value
/// would overflow an `i64`.
pub enum CallStart {
    Done(ToolRuntimeResult),
    RunCommand,
    Overflow,
}

impl ToolRuntime {
    /// How a tool call starts: a call to a tool the model cannot see fails,
    /// a pure function is evaluated on its arguments, and `run_command` is
    /// left to the command flow.
    pub fn start_call(&self, call: &ToolCallFinished) -> (r: CallStart)
        ensures
            match tool_kind_named(call@.name) {
                None => r matches CallStart::Done(res) && res@ == (ToolRuntimeResultModel::Failed {
                    error: "cannot find tool: "@ + call@.name,
                }),
                Some(ToolKind::Command) => r is RunCommand,
                Some(ToolKind::PureFunction) => {
                    let a = json_member_of(call@.arguments, "a"@);
                    let b = json_member_of(call@.arguments, "b"@);
                    if pure_function_fits(call@.name, a, b) {
                        r matches CallStart::Done(res) && match pure_function_outcome(
                            call@.name,
                            a,
                            b,
                        ) {
                            Ok(v) => res@ == (ToolRuntimeResultModel::Finished { output: v }),
                            Err(e) => res@ == (ToolRuntimeResultModel::Failed { error: e }),
                        }
                    } else {
                        r is Overflow
                    }
                },
            },
    {
        let definition = match self.find_tool(call.name.as_str()) {
            None => {
                return CallStart::Done(unknown_tool_result(call.name.as_str()));
            },
            Some(d) => d,
        };
        match definition.kind {
            ToolKind::Command => CallStart::RunCommand,
            ToolKind::PureFunction => match try_run_pure_function(
                call.name.as_str(),
                call.arguments.as_str(),
            ) {
                None => CallStart::Overflow,
                Some(outcome) => CallStart::Done(ToolRuntimeResult::from_pure_function(outcome)),
            },
        }
    }

    /// A runtime over a host context.
    pub fn new(context: ToolRuntimeContext) -> (r: ToolRuntime)
        ensures
            r.context == context,
    {
        ToolRuntime { context }
    }

    /// The tool the model sees under `name`.
    pub fn find_tool(&self, name: &str) -> (r: Option<ToolDefinition>)
        ensures
            match r {
                Some(d) => tool_kind_named(name@) == Some(d.kind) && d.name@ == name@,
                None => tool_kind_named(name@) is None,
            },
    {
        let table = tools();
        let mut i: usize = 0;
        while i < table.len()
            invariant
                i <= table.len(),
                table.len() == 3,
                table[0].name@ == "add"@ && table[0].kind == ToolKind::PureFunction,
                table[1].name@ == "sub"@ && table[1].kind == ToolKind::PureFunction,
                table[2].name@ == "run_command"@ && table[2].kind == ToolKind::Command,
                forall|j: int| 0 <= j < i ==> table[j].name@ != name@,
            decreases table.len() - i,
        {
            if str_equal(table[i].name, name) {
                return Some(table[i]);
            }
            i = i + 1;
        }
        None
    }

    /// Builds the request for a `run_command` call from its arguments.
    pub fn build_command_request(&self, args: RunCommandArgs) -> (r: Result<
        (CommandRequest, MatchedCapability),
        String,
    >)
        ensures
            plan_result_matches(
                r,
                command_plan(
                    args.command@,
                    justification_model(args.justification),
                    self.context.cwd@,
                    self.context.approval_policy,
                    self.context.registry@.all(),
                ),
            ),
    {
        let argv = split_whitespace(args.command.as_str());
        let matched = match self.context.registry.match_capability(argv.as_slice()) {
            Some(m) => m,
            None => {
                return Err(
                    concat("cannot match the capability for command: ", args.command.as_str()),
                );
            },
        };
        if contains_shell_control_syntax(args.command.as_str()) && matched.capability.kind
            != CapabilityKind::DangerousShell {
            return Err(
                concat(
                    "complex shell syntax is not supported by this demo run_command: ",
                    args.command.as_str(),
                ),
            );
        }
        let request = CommandRequest {
            raw_command: args.command,
            argv,
            cwd: self.context.cwd.clone(),
            capability: matched.capability.kind,
            approval_policy: self.context.approval_policy,
            sandbox_profile: matched.capability.policy.first_attempt_sandbox,
            network_policy: matched.capability.policy.network_policy,
            justification: args.justification,
        };
        Ok((request, matched))
    }

    /// The plan of a tool call. `command_args` is what reading the call's
    /// arguments as `run_command` arguments gave, or the reading's error; it
    /// only matters for a command tool.
    pub fn plan_call(
        &self,
        tool_definition: ToolDefinition,
        call: &ToolCallFinished,
        command_args: Result<RunCommandArgs, String>,
    ) -> (r: ToolRuntimePlan)
        ensures
            tool_definition.kind == ToolKind::PureFunction ==> r@
                == (ToolRuntimePlanModel::RunPureFunction {
                name: call@.name,
                arguments: call@.arguments,
            }),
            tool_definition.kind == ToolKind::Command ==> match command_args {
                Err(e) => r@ == (ToolRuntimePlanModel::Fail { error: e@ }),
                Ok(args) => match command_plan(
                    args.command@,
                    justification_model(args.justification),
                    self.context.cwd@,
                    self.context.approval_policy,
                    self.context.registry@.all(),
                ) {
                    CommandPlanModel::Unmatched { error } => r@ == (ToolRuntimePlanModel::Fail {
                        error,
                    }),
                    CommandPlanModel::Unsupported { error } => r@ == (ToolRuntimePlanModel::Fail {
                        error,
                    }),
                    CommandPlanModel::Planned { request, matched } => r@
                        == (ToolRuntimePlanModel::RunCommand {
                        request,
                        context: call_context_of(call@),
                        matched_capability: matched,
                    }),
                },
            },
    {
        match tool_definition.kind {
            ToolKind::PureFunction => ToolRuntimePlan::RunPureFunction {
                name: call.name.clone(),
                arguments: call.arguments.clone(),
            },
            ToolKind::Command => {
                let args = match command_args {
                    Ok(a) => a,
                    Err(error) => {
                        return ToolRuntimePlan::Fail { error };
                    },
                };
                match self.build_command_request(args) {
                    Err(error) => ToolRuntimePlan::Fail { error },
                    Ok((request, matched_capability)) => ToolRuntimePlan::RunCommand {
                        request,
                        context: ToolCallContext {
                            index: call.index,
                            call_id: call.call_id.clone(),
                            tool_name: call.name.clone(),
                        },
                        matched_capability,
                    },
                }
            },
        }
    }
}

/// The outcome of a call to a tool the model cannot see.
pub fn unknown_tool_result(name: &str) -> (r: ToolRuntimeResult)
    ensures
        r@ == (ToolRuntimeResultModel::Failed { error: "cannot find tool: "@ + name@ }),
{
    ToolRuntimeResult::Failed { error: concat("cannot find tool: ", name) }
}

/// The event announcing that a tool call starts to run.
pub fn tool_run_started(call: &ToolCallFinished) -> (r: StreamEvent)
    ensures
        r@ == (StreamEventModel::ToolRunStarted {
            index: call.index,
            call_id: call@.call_id,
            name: call@.name,
            arguments: call@.arguments,
        }),
{
    StreamEvent::ToolRunStarted {
        index: call.index,
        call_id: call.call_id.clone(),
        name: call.name.clone(),
        arguments: call.arguments.clone(),
    }
}

/// The event reporting a tool's outcome: its output when it finished, its
/// error or the reason it was refused or skipped otherwise.
pub open spec fn tool_run_ended_event(
    call: ToolCallFinishedModel,
    result: ToolRuntimeResultModel,
) -> StreamEventModel {
    match result {
        ToolRuntimeResultModel::Finished { output } => StreamEventModel::ToolRunFinished {
            index: call.index,
            call_id: call.call_id,
            name: call.name,
            output,
        },
        ToolRuntimeResultModel::Failed { error } => StreamEventModel::ToolRunFailed {
            index: call.index,
            call_id: call.call_id,
            name: call.name,
            error,
        },
        ToolRuntimeResultModel::Denied { reason } => StreamEventModel::ToolRunFailed {
            index: call.index,
            call_id: call.call_id,
            name: call.name,
            error: reason,
        },
        ToolRuntimeResultModel::Skipped { reason } => StreamEventModel::ToolRunFailed {
            index: call.index,
            call_id: call.call_id,
            name: call.name,
            error: reason,
        },
    }
}

/// The event reporting a tool's outcome.
pub fn tool_run_ended(call: &ToolCallFinished, result: &ToolRuntimeResult) -> (r: StreamEvent)
    ensures
        r@ == tool_run_ended_event(call@, result@),
{
    match result {
        ToolRuntimeResult::Finished { output } => StreamEvent::ToolRunFinished {
            index: call.index,
            call_id: call.call_id.clone(),
            name: call.name.clone(),
            output: output.clone(),
        },
        ToolRuntimeResult::Failed { error } => StreamEvent::ToolRunFailed {
            index: call.index,
            call_id: call.call_id.clone(),
            name: call.name.clone(),
            error: error.clone(),
        },
        ToolRuntimeResult::Denied { reason } => StreamEvent::ToolRunFailed {
            index: call.index,
            call_id: call.call_id.clone(),
            name: call.name.clone(),
            error: reason.clone(),
        },
        ToolRuntimeResult::Skipped { reason } => StreamEvent::ToolRunFailed {
            index: call.index,
            call_id: call.call_id.clone(),
            name: call.name.clone(),
            error: reason.clone(),
        },
    }
}

} // verus!
