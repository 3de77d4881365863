//! The command runtime as a state machine.
//!
//! A shell command goes through the approval gate, a sandboxed first attempt,
//! the retry gate and an optional unsandboxed retry. Between these steps the
//! host waits for the user or for a runner; the decisions themselves are made
//! here. The host starts a flow, performs the action of each step (ask the
//! user, run an attempt, or finish), streams the step's events, and hands the
//! answer back.

use vstd::prelude::*;
use crate::agent::stream_event::{StreamEvent, StreamEventModel};
use crate::model::approval::{ApprovalRequirement, ApprovalRequirementModel, ApprovalScopeModel};
use crate::model::command_request::{CommandRequest, CommandRequestModel};
use crate::model::event::{
    ExecutionAttempt, ExecutionAttemptModel, RetryDecision, RetryDecisionModel, UserApprovalDecision,
};
use crate::model::execution::{ExecutionFailure, ExecutionFailureModel, ExecutionResult, ExecutionResultModel};
use crate::model::approval::{ApprovalPersistence, ApprovalScopeKeyModel};
use crate::tool::shell::approval::{
    after_decision, approval_requirement_for, approval_scope_for, build_approval_scope,
    resolve_approval_requirement, ToolApprovalRequest, ToolApprovalRequestModel, ToolCallContext,
    ToolCallContextModel,
};
use crate::tool::shell::registry::{MatchedCapability, MatchedCapabilityModel};
use crate::tool::shell::retry::{decide_retry, retry_decision_for};
use crate::tool::shell::{outcome_of_failure, RunCommandResult, RunCommandResultModel};

verus! {

/// Where a command flow stands.
pub enum CommandFlowStage {
    /// Waiting for the user to approve the command.
    AwaitingApproval { reason: String },
    /// The sandboxed first attempt is running.
    RunningSandboxed,
    /// An unsandboxed first attempt is running.
    RunningUnsandboxedFirst { reason: String },
    /// Waiting for the user to approve an unsandboxed retry.
    AwaitingRetryApproval { failure: ExecutionFailure, reason: String },
    /// The unsandboxed retry is running.
    RunningRetry { reason: String },
    /// The command has ended.
    Done,
}

/// What the host must do next.
pub enum CommandFlowAction {
    /// Ask the user to approve a scope, then report the decision.
    RequestApproval(ToolApprovalRequest),
    /// Run this attempt, then report its result.
    RunAttempt(ExecutionAttempt),
    /// The command has ended with this outcome.
    Finish(RunCommandResult),
}

/// One step: the events to stream, in order, and the next action.
pub struct CommandFlowStep {
    pub events: Vec<StreamEvent>,
    pub action: CommandFlowAction,
}

/// A command going through the runtime.
pub struct CommandFlow {
    pub request: CommandRequest,
    pub context: ToolCallContext,
    pub matched_capability: MatchedCapability,
    pub stage: CommandFlowStage,
}

/// The mathematical value of a [`CommandFlowStage`].
pub enum CommandFlowStageModel {
    AwaitingApproval { reason: Seq<char> },
    RunningSandboxed,
    RunningUnsandboxedFirst { reason: Seq<char> },
    AwaitingRetryApproval { failure: ExecutionFailureModel, reason: Seq<char> },
    RunningRetry { reason: Seq<char> },
    Done,
}

/// The mathematical value of a [`CommandFlowAction`].
pub enum CommandFlowActionModel {
    RequestApproval(ToolApprovalRequestModel),
    RunAttempt(ExecutionAttemptModel),
    Finish(RunCommandResultModel),
}

/// The mathematical value of a [`CommandFlowStep`].
pub struct CommandFlowStepModel {
    pub events: Seq<StreamEventModel>,
    pub action: CommandFlowActionModel,
}

/// The mathematical value of a [`CommandFlow`].
pub struct CommandFlowModel {
    pub request: CommandRequestModel,
    pub context: ToolCallContextModel,
    pub matched_capability: MatchedCapabilityModel,
    pub stage: CommandFlowStageModel,
}

impl View for CommandFlowStage {
    type V = CommandFlowStageModel;

    open spec fn view(&self) -> CommandFlowStageModel {
        match self {
            CommandFlowStage::AwaitingApproval { reason } => CommandFlowStageModel::AwaitingApproval {
                reason: reason@,
            },
            CommandFlowStage::RunningSandboxed => CommandFlowStageModel::RunningSandboxed,
            CommandFlowStage::RunningUnsandboxedFirst { reason } =>
                CommandFlowStageModel::RunningUnsandboxedFirst { reason: reason@ },
            CommandFlowStage::AwaitingRetryApproval { failure, reason } =>
                CommandFlowStageModel::AwaitingRetryApproval {
                failure: failure@,
                reason: reason@,
            },
            CommandFlowStage::RunningRetry { reason } => CommandFlowStageModel::RunningRetry {
                reason: reason@,
            },
            CommandFlowStage::Done => CommandFlowStageModel::Done,
        }
    }
}

impl View for CommandFlowAction {
    type V = CommandFlowActionModel;

    open spec fn view(&self) -> CommandFlowActionModel {
        match self {
            CommandFlowAction::RequestApproval(r) => CommandFlowActionModel::RequestApproval(r@),
            CommandFlowAction::RunAttempt(a) => CommandFlowActionModel::RunAttempt(a@),
            CommandFlowAction::Finish(r) => CommandFlowActionModel::Finish(r@),
        }
    }
}

impl View for CommandFlowStep {
    type V = CommandFlowStepModel;

    open spec fn view(&self) -> CommandFlowStepModel {
        CommandFlowStepModel {
            events: self.events@.map_values(|e: StreamEvent| e@),
            action: self.action@,
        }
    }
}

impl View for CommandFlow {
    type V = CommandFlowModel;

    open spec fn view(&self) -> CommandFlowModel {
        CommandFlowModel {
            request: self.request@,
            context: self.context@,
            matched_capability: self.matched_capability@,
            stage: self.stage@,
        }
    }
}

/// The sandboxed first attempt of a request.
pub open spec fn sandbox_first(request: CommandRequestModel) -> ExecutionAttemptModel {
    ExecutionAttemptModel::SandboxFirst { sandbox_profile: request.sandbox_profile }
}

/// The event that an attempt started.
pub open spec fn started_event(c: ToolCallContextModel, attempt: ExecutionAttemptModel) -> StreamEventModel {
    StreamEventModel::CommandExecutionStarted {
        index: c.index,
        call_id: c.call_id,
        name: c.tool_name,
        attempt,
    }
}

/// The event that an attempt finished.
pub open spec fn finished_event(
    c: ToolCallContextModel,
    attempt: ExecutionAttemptModel,
    output: Seq<char>,
) -> StreamEventModel {
    StreamEventModel::CommandExecutionFinished {
        index: c.index,
        call_id: c.call_id,
        name: c.tool_name,
        attempt,
        output,
    }
}

/// How a failure is described in the event that its attempt failed.
pub open spec fn failure_text(f: ExecutionFailureModel) -> Seq<char> {
    match outcome_of_failure(f) {
        RunCommandResultModel::Failed { error } => error,
        RunCommandResultModel::Denied { reason } => reason,
        RunCommandResultModel::Finished { output } => output,
    }
}

/// The event that an attempt failed.
pub open spec fn failed_event(
    c: ToolCallContextModel,
    attempt: ExecutionAttemptModel,
    f: ExecutionFailureModel,
) -> StreamEventModel {
    StreamEventModel::CommandExecutionFailed {
        index: c.index,
        call_id: c.call_id,
        name: c.tool_name,
        attempt,
        error: failure_text(f),
    }
}

/// The event that the retry gate decided.
pub open spec fn retry_event(c: ToolCallContextModel, decision: RetryDecisionModel) -> StreamEventModel {
    StreamEventModel::CommandRetryEvaluated {
        index: c.index,
        call_id: c.call_id,
        name: c.tool_name,
        decision,
    }
}

/// A step with the given events and action.
pub open spec fn step(
    events: Seq<StreamEventModel>,
    action: CommandFlowActionModel,
) -> CommandFlowStepModel {
    CommandFlowStepModel { events, action }
}

/// Starting the sandboxed first attempt.
pub open spec fn run_sandboxed(f: CommandFlowModel) -> (CommandFlowStageModel, CommandFlowStepModel) {
    let a = sandbox_first(f.request);
    (
        CommandFlowStageModel::RunningSandboxed,
        step(seq![started_event(f.context, a)], CommandFlowActionModel::RunAttempt(a)),
    )
}

/// The first step of a flow, from the approval gate.
pub open spec fn start_step(f: CommandFlowModel) -> (CommandFlowStageModel, CommandFlowStepModel) {
    match approval_requirement_for(f.request, f.matched_capability) {
        ApprovalRequirementModel::Skip { bypass_sandbox, reason } => if !bypass_sandbox {
            run_sandboxed(f)
        } else {
            let a = ExecutionAttemptModel::NoSandboxFirst { reason };
            (
                CommandFlowStageModel::RunningUnsandboxedFirst { reason },
                step(seq![started_event(f.context, a)], CommandFlowActionModel::RunAttempt(a)),
            )
        },
        ApprovalRequirementModel::NeedsApproval { reason, approval_scope } => (
            CommandFlowStageModel::AwaitingApproval { reason },
            step(
                Seq::empty(),
                CommandFlowActionModel::RequestApproval(
                    ToolApprovalRequestModel { reason, scope: approval_scope },
                ),
            ),
        ),
        ApprovalRequirementModel::Forbidden { reason } => (
            CommandFlowStageModel::Done,
            step(
                Seq::empty(),
                CommandFlowActionModel::Finish(RunCommandResultModel::Denied { reason }),
            ),
        ),
    }
}

/// The step after the user answered an approval request.
pub open spec fn approval_step(
    f: CommandFlowModel,
    decision: UserApprovalDecision,
) -> (CommandFlowStageModel, CommandFlowStepModel) {
    match f.stage {
        CommandFlowStageModel::AwaitingApproval { reason } => match decision {
            UserApprovalDecision::Approved { .. } => run_sandboxed(f),
            UserApprovalDecision::Rejected => (
                CommandFlowStageModel::Done,
                step(
                    Seq::empty(),
                    CommandFlowActionModel::Finish(RunCommandResultModel::Denied { reason }),
                ),
            ),
        },
        CommandFlowStageModel::AwaitingRetryApproval { failure, reason } => match decision {
            UserApprovalDecision::Approved { .. } => {
                let a = ExecutionAttemptModel::NoSandboxRetry { reason };
                (
                    CommandFlowStageModel::RunningRetry { reason },
                    step(seq![started_event(f.context, a)], CommandFlowActionModel::RunAttempt(a)),
                )
            },
            UserApprovalDecision::Rejected => (
                CommandFlowStageModel::Done,
                step(
                    Seq::empty(),
                    CommandFlowActionModel::Finish(
                        RunCommandResultModel::Denied {
                            reason: "failed "@ + failure.debug_text() + ", and disapprove retry: "@
                                + reason,
                        },
                    ),
                ),
            ),
        },
        _ => (f.stage, step(Seq::empty(), CommandFlowActionModel::Finish(RunCommandResultModel::Failed { error: Seq::empty() }))),
    }
}

/// The scope of the command itself: what the retry gate narrows.
pub open spec fn command_scope(f: CommandFlowModel) -> ApprovalScopeModel {
    approval_scope_for(f.request, f.matched_capability)
}

/// The step after an unsandboxed attempt ended: its result is the outcome.
pub open spec fn last_attempt_step(
    f: CommandFlowModel,
    a: ExecutionAttemptModel,
    result: ExecutionResultModel,
) -> (CommandFlowStageModel, CommandFlowStepModel) {
    match result {
        ExecutionResultModel::Success { stdout } => (
            CommandFlowStageModel::Done,
            step(
                seq![finished_event(f.context, a, stdout)],
                CommandFlowActionModel::Finish(RunCommandResultModel::Finished { output: stdout }),
            ),
        ),
        ExecutionResultModel::Failure(failure) => (
            CommandFlowStageModel::Done,
            step(
                seq![failed_event(f.context, a, failure)],
                CommandFlowActionModel::Finish(outcome_of_failure(failure)),
            ),
        ),
    }
}

/// The step after an attempt ended.
pub open spec fn execution_step(
    f: CommandFlowModel,
    result: ExecutionResultModel,
) -> (CommandFlowStageModel, CommandFlowStepModel) {
    match f.stage {
        CommandFlowStageModel::RunningSandboxed => {
            let a = sandbox_first(f.request);
            match result {
                ExecutionResultModel::Success { stdout } => (
                    CommandFlowStageModel::Done,
                    step(
                        seq![finished_event(f.context, a, stdout)],
                        CommandFlowActionModel::Finish(
                            RunCommandResultModel::Finished { output: stdout },
                        ),
                    ),
                ),
                ExecutionResultModel::Failure(failure) => {
                    let decision = retry_decision_for(
                        f.request,
                        failure,
                        command_scope(f),
                        f.matched_capability.capability.policy.retry_policy,
                        false,
                    );
                    let events = seq![failed_event(f.context, a, failure), retry_event(f.context, decision)];
                    match decision {
                        RetryDecisionModel::DoNotRetry { .. } => (
                            CommandFlowStageModel::Done,
                            step(events, CommandFlowActionModel::Finish(outcome_of_failure(failure))),
                        ),
                        RetryDecisionModel::RetryWithoutApproval { reason } => {
                            let r = ExecutionAttemptModel::NoSandboxRetry { reason };
                            (
                                CommandFlowStageModel::RunningRetry { reason },
                                step(
                                    events.push(started_event(f.context, r)),
                                    CommandFlowActionModel::RunAttempt(r),
                                ),
                            )
                        },
                        RetryDecisionModel::RetryWithApproval { reason, approval_scope } => (
                            CommandFlowStageModel::AwaitingRetryApproval { failure, reason },
                            step(
                                events,
                                CommandFlowActionModel::RequestApproval(
                                    ToolApprovalRequestModel { reason, scope: approval_scope },
                                ),
                            ),
                        ),
                    }
                },
            }
        },
        CommandFlowStageModel::RunningUnsandboxedFirst { reason } => last_attempt_step(
            f,
            ExecutionAttemptModel::NoSandboxFirst { reason },
            result,
        ),
        CommandFlowStageModel::RunningRetry { reason } => last_attempt_step(
            f,
            ExecutionAttemptModel::NoSandboxRetry { reason },
            result,
        ),
        _ => (f.stage, step(Seq::empty(), CommandFlowActionModel::Finish(RunCommandResultModel::Failed { error: Seq::empty() }))),
    }
}

/// How far a flow is from its end: every step lowers it, and an ended flow
/// takes no step.
pub open spec fn progress(stage: CommandFlowStageModel) -> nat {
    match stage {
        CommandFlowStageModel::AwaitingApproval { .. } => 4,
        CommandFlowStageModel::RunningSandboxed => 3,
        CommandFlowStageModel::AwaitingRetryApproval { .. } => 2,
        CommandFlowStageModel::RunningUnsandboxedFirst { .. } => 1,
        CommandFlowStageModel::RunningRetry { .. } => 1,
        CommandFlowStageModel::Done => 0,
    }
}

/// How many more attempts a flow in this stage may still start.
pub open spec fn attempts_left(stage: CommandFlowStageModel) -> nat {
    match stage {
        CommandFlowStageModel::AwaitingApproval { .. } => 2,
        CommandFlowStageModel::RunningSandboxed => 1,
        CommandFlowStageModel::AwaitingRetryApproval { .. } => 1,
        _ => 0,
    }
}

/// The number of attempts a step starts: one where its action runs an attempt.
pub open spec fn attempts_started(s: CommandFlowStepModel) -> nat {
    if s.action is RunAttempt {
        1
    } else {
        0
    }
}

/// Whether the flow waits for a user decision.
pub open spec fn awaits_approval(stage: CommandFlowStageModel) -> bool {
    stage is AwaitingApproval || stage is AwaitingRetryApproval
}

/// Whether the flow waits for an attempt's result.
pub open spec fn awaits_execution(stage: CommandFlowStageModel) -> bool {
    stage is RunningSandboxed || stage is RunningUnsandboxedFirst || stage is RunningRetry
}

/// A command runs at most twice: a flow starts with a budget of two
/// attempts, every step of it starts no more attempts than are left, and what
/// it starts is taken from the budget. The first attempt of a flow that
/// starts one at once is the sandboxed one.
pub proof fn lemma_at_most_two_attempts(
    f: CommandFlowModel,
    decision: UserApprovalDecision,
    result: ExecutionResultModel,
)
    ensures
        attempts_left(start_step(f).0) + attempts_started(start_step(f).1) <= 2,
        start_step(f).1.action matches CommandFlowActionModel::RunAttempt(a) ==> a == sandbox_first(
            f.request,
        ),
        awaits_approval(f.stage) ==> attempts_left(approval_step(f, decision).0) + attempts_started(
            approval_step(f, decision).1,
        ) <= attempts_left(f.stage),
        awaits_execution(f.stage) ==> attempts_left(execution_step(f, result).0) + attempts_started(
            execution_step(f, result).1,
        ) <= attempts_left(f.stage),
{
}

/// A session approval spares the next command of the same scope its prompt:
/// when two flows both start by asking for approval, and their commands
/// have the same scope key (prefix, cwd, sandbox and network policy), then
/// after the first request is approved for the session the second request's
/// key is among the session approvals, so it is answered without asking; a
/// one-time approval or a rejection leaves the second to be asked as before.
pub proof fn lemma_session_approval_spares_the_prompt(
    grants: Set<ApprovalScopeKeyModel>,
    first: CommandFlowModel,
    second: CommandFlowModel,
    decision: UserApprovalDecision,
)
    requires
        start_step(first).1.action is RequestApproval,
        start_step(second).1.action is RequestApproval,
        command_scope(first).key() == command_scope(second).key(),
    ensures
        ({
            let asked = start_step(first).1.action->RequestApproval_0.scope;
            let next = start_step(second).1.action->RequestApproval_0.scope;
            &&& decision == (UserApprovalDecision::Approved { persistence: ApprovalPersistence::Session })
                ==> after_decision(grants, asked, decision).contains(next.key())
            &&& decision != (UserApprovalDecision::Approved { persistence: ApprovalPersistence::Session })
                ==> (after_decision(grants, asked, decision).contains(next.key()) <==> grants.contains(
                next.key(),
            ))
        }),
{
}

fn started(c: &ToolCallContext, attempt: &ExecutionAttempt) -> (e: StreamEvent)
    ensures
        e@ == started_event(c@, attempt@),
{
    StreamEvent::CommandExecutionStarted {
        index: c.index,
        call_id: c.call_id.clone(),
        name: c.tool_name.clone(),
        attempt: attempt.duplicate(),
    }
}

fn finished(c: &ToolCallContext, attempt: &ExecutionAttempt, output: &String) -> (e: StreamEvent)
    ensures
        e@ == finished_event(c@, attempt@, output@),
{
    StreamEvent::CommandExecutionFinished {
        index: c.index,
        call_id: c.call_id.clone(),
        name: c.tool_name.clone(),
        attempt: attempt.duplicate(),
        output: output.clone(),
    }
}

fn failed(c: &ToolCallContext, attempt: &ExecutionAttempt, failure: &ExecutionFailure) -> (e:
    StreamEvent)
    ensures
        e@ == failed_event(c@, attempt@, failure@),
{
    let error = match RunCommandResult::from_failure(failure.duplicate()) {
        RunCommandResult::Failed { error } => error,
        RunCommandResult::Denied { reason } => reason,
        RunCommandResult::Finished { output } => output,
    };
    StreamEvent::CommandExecutionFailed {
        index: c.index,
        call_id: c.call_id.clone(),
        name: c.tool_name.clone(),
        attempt: attempt.duplicate(),
        error,
    }
}

fn retry_evaluated(c: &ToolCallContext, decision: &RetryDecision) -> (e: StreamEvent)
    ensures
        e@ == retry_event(c@, decision@),
{
    StreamEvent::CommandRetryEvaluated {
        index: c.index,
        call_id: c.call_id.clone(),
        name: c.tool_name.clone(),
        decision: decision.duplicate(),
    }
}

/// The event asking the user to approve a request, under the id the host
/// gave the pending approval.
pub fn needs_approval_event(
    context: &ToolCallContext,
    approval_id: String,
    request: &ToolApprovalRequest,
) -> (e: StreamEvent)
    ensures
        e@ == (StreamEventModel::CommandNeedsApproval {
            approval_id: approval_id@,
            index: context.index,
            call_id: context.call_id@,
            name: context.tool_name@,
            reason: request.reason@,
            scope: request.scope@,
        }),
{
    StreamEvent::CommandNeedsApproval {
        approval_id,
        index: context.index,
        call_id: context.call_id.clone(),
        name: context.tool_name.clone(),
        reason: request.reason.clone(),
        scope: request.scope.duplicate(),
    }
}

impl CommandFlow {
    fn sandboxed_step(&mut self) -> (s: CommandFlowStep)
        ensures
            final(self)@ == (CommandFlowModel { stage: run_sandboxed(old(self)@).0, ..old(self)@ }),
            s@ == run_sandboxed(old(self)@).1,
    {
        let attempt = ExecutionAttempt::SandboxFirst { sandbox_profile: self.request.sandbox_profile };
        let mut events: Vec<StreamEvent> = Vec::new();
        events.push(started(&self.context, &attempt));
        self.stage = CommandFlowStage::RunningSandboxed;
        let s = CommandFlowStep { events, action: CommandFlowAction::RunAttempt(attempt) };
        assert(s@.events =~= run_sandboxed(old(self)@).1.events);
        s
    }

    /// Starts a command: the approval gate decides whether it is refused,
    /// must be approved first, or runs in its sandbox at once.
    pub fn start(
        request: CommandRequest,
        context: ToolCallContext,
        matched_capability: MatchedCapability,
    ) -> (r: (CommandFlow, CommandFlowStep))
        ensures
            r.0@.request == request@,
            r.0@.context == context@,
            r.0@.matched_capability == matched_capability@,
            (r.0@.stage, r.1@) == start_step(
                CommandFlowModel {
                    request: request@,
                    context: context@,
                    matched_capability: matched_capability@,
                    stage: CommandFlowStageModel::Done,
                },
            ),
            // Nothing runs before a required approval.
            approval_requirement_for(request@, matched_capability@) is NeedsApproval
                ==> r.1@.action is RequestApproval && r.1@.events.len() == 0,
            // A refused command never runs.
            approval_requirement_for(request@, matched_capability@) is Forbidden
                ==> r.1@.action is Finish && r.1@.events.len() == 0,
            // Whatever runs first runs in the request's sandbox.
            r.1@.action matches CommandFlowActionModel::RunAttempt(a) ==> a == sandbox_first(request@),
    {
        let requirement = resolve_approval_requirement(&request, &matched_capability);
        let mut flow = CommandFlow {
            request,
            context,
            matched_capability,
            stage: CommandFlowStage::Done,
        };
        match requirement {
            ApprovalRequirement::Skip { bypass_sandbox, reason } => {
                if !bypass_sandbox {
                    let s = flow.sandboxed_step();
                    (flow, s)
                } else {
                    let attempt = ExecutionAttempt::NoSandboxFirst { reason: reason.clone() };
                    let mut events: Vec<StreamEvent> = Vec::new();
                    events.push(started(&flow.context, &attempt));
                    flow.stage = CommandFlowStage::RunningUnsandboxedFirst { reason };
                    let s = CommandFlowStep { events, action: CommandFlowAction::RunAttempt(attempt) };
                    assert(s@.events =~= seq![started_event(flow.context@, attempt@)]);
                    (flow, s)
                }
            },
            ApprovalRequirement::NeedsApproval { reason, approval_scope } => {
                flow.stage = CommandFlowStage::AwaitingApproval { reason: reason.clone() };
                let s = CommandFlowStep {
                    events: Vec::new(),
                    action: CommandFlowAction::RequestApproval(
                        ToolApprovalRequest { reason, scope: approval_scope },
                    ),
                };
                assert(s@.events =~= Seq::<StreamEventModel>::empty());
                (flow, s)
            },
            ApprovalRequirement::Forbidden { reason } => {
                let s = CommandFlowStep {
                    events: Vec::new(),
                    action: CommandFlowAction::Finish(RunCommandResult::Denied { reason }),
                };
                assert(s@.events =~= Seq::<StreamEventModel>::empty());
                (flow, s)
            },
        }
    }

    /// Whether the flow waits for the user's answer to an approval request.
    pub fn is_awaiting_approval(&self) -> (r: bool)
        ensures
            r == awaits_approval(self@.stage),
    {
        match self.stage {
            CommandFlowStage::AwaitingApproval { .. } => true,
            CommandFlowStage::AwaitingRetryApproval { .. } => true,
            _ => false,
        }
    }

    /// Whether the flow waits for an attempt's result.
    pub fn is_awaiting_execution(&self) -> (r: bool)
        ensures
            r == awaits_execution(self@.stage),
    {
        match self.stage {
            CommandFlowStage::RunningSandboxed => true,
            CommandFlowStage::RunningUnsandboxedFirst { .. } => true,
            CommandFlowStage::RunningRetry { .. } => true,
            _ => false,
        }
    }

    /// Continues after the user answered an approval request.
    pub fn on_approval(&mut self, decision: UserApprovalDecision) -> (s: CommandFlowStep)
        requires
            awaits_approval(old(self)@.stage),
        ensures
            final(self)@ == (CommandFlowModel { stage: approval_step(old(self)@, decision).0, ..old(self)@ }),
            s@ == approval_step(old(self)@, decision).1,
            progress(final(self)@.stage) < progress(old(self)@.stage),
            // A rejection ends the command without running anything more.
            decision is Rejected ==> final(self)@.stage is Done && s@.action is Finish,
            // An approved command runs sandboxed; an approved retry runs unsandboxed.
            (decision is Approved && old(self)@.stage is AwaitingApproval) ==> s@.action
                == CommandFlowActionModel::RunAttempt(sandbox_first(old(self)@.request)),
    {
        let mut stage = CommandFlowStage::Done;
        std::mem::swap(&mut stage, &mut self.stage);
        match stage {
            CommandFlowStage::AwaitingApproval { reason } => match decision {
                UserApprovalDecision::Approved { .. } => {
                    self.stage = CommandFlowStage::AwaitingApproval { reason };
                    self.sandboxed_step()
                },
                UserApprovalDecision::Rejected => {
                    let s = CommandFlowStep {
                        events: Vec::new(),
                        action: CommandFlowAction::Finish(RunCommandResult::Denied { reason }),
                    };
                    assert(s@.events =~= Seq::<StreamEventModel>::empty());
                    s
                },
            },
            CommandFlowStage::AwaitingRetryApproval { failure, reason } => match decision {
                UserApprovalDecision::Approved { .. } => {
                    let attempt = ExecutionAttempt::NoSandboxRetry { reason: reason.clone() };
                    let mut events: Vec<StreamEvent> = Vec::new();
                    events.push(started(&self.context, &attempt));
                    self.stage = CommandFlowStage::RunningRetry { reason };
                    let s = CommandFlowStep { events, action: CommandFlowAction::RunAttempt(attempt) };
                    assert(s@.events =~= seq![started_event(self.context@, attempt@)]);
                    s
                },
                UserApprovalDecision::Rejected => {
                    let mut text = "failed ".to_string();
                    text.append(failure.debug_string().as_str());
                    text.append(", and disapprove retry: ");
                    text.append(reason.as_str());
                    let s = CommandFlowStep {
                        events: Vec::new(),
                        action: CommandFlowAction::Finish(RunCommandResult::Denied { reason: text }),
                    };
                    assert(s@.events =~= Seq::<StreamEventModel>::empty());
                    s
                },
            },
            _ => {
                assert(false);
                CommandFlowStep {
                    events: Vec::new(),
                    action: CommandFlowAction::Finish(RunCommandResult::Failed { error: String::new() }),
                }
            },
        }
    }

    /// Continues after an attempt ended.
    pub fn on_execution(&mut self, result: ExecutionResult) -> (s: CommandFlowStep)
        requires
            awaits_execution(old(self)@.stage),
        ensures
            final(self)@ == (CommandFlowModel { stage: execution_step(old(self)@, result@).0, ..old(self)@ }),
            s@ == execution_step(old(self)@, result@).1,
            progress(final(self)@.stage) < progress(old(self)@.stage),
            // An unsandboxed retry is only run when the retry gate allowed it
            // without approval; otherwise it waits for the user or the command ends.
            (s@.action matches CommandFlowActionModel::RunAttempt(a) && a is NoSandboxRetry) ==> (
                old(self)@.stage is RunningSandboxed && (retry_decision_for(
                    old(self)@.request,
                    match result@ { ExecutionResultModel::Failure(f) => f, _ => arbitrary() },
                    command_scope(old(self)@),
                    old(self)@.matched_capability.capability.policy.retry_policy,
                    false,
                ) is RetryWithoutApproval)),
    {
        let mut stage = CommandFlowStage::Done;
        std::mem::swap(&mut stage, &mut self.stage);
        match stage {
            CommandFlowStage::RunningSandboxed => {
                let attempt = ExecutionAttempt::SandboxFirst {
                    sandbox_profile: self.request.sandbox_profile,
                };
                match result {
                    ExecutionResult::Success { stdout } => {
                        let mut events: Vec<StreamEvent> = Vec::new();
                        events.push(finished(&self.context, &attempt, &stdout));
                        let s = CommandFlowStep {
                            events,
                            action: CommandFlowAction::Finish(RunCommandResult::Finished { output: stdout }),
                        };
                        assert(s@.events =~= execution_step(old(self)@, result@).1.events);
                        s
                    },
                    ExecutionResult::Failure(failure) => {
                        let scope = build_approval_scope(&self.request, &self.matched_capability);
                        let decision = decide_retry(
                            &self.request,
                            &failure,
                            &scope,
                            self.matched_capability.capability.policy.retry_policy,
                            false,
                        );
                        let mut events: Vec<StreamEvent> = Vec::new();
                        events.push(failed(&self.context, &attempt, &failure));
                        events.push(retry_evaluated(&self.context, &decision));
                        let ghost base = events@.map_values(|e: StreamEvent| e@);
                        match decision {
                            RetryDecision::DoNotRetry { .. } => {
                                let s = CommandFlowStep {
                                    events,
                                    action: CommandFlowAction::Finish(
                                        RunCommandResult::from_failure(failure),
                                    ),
                                };
                                assert(s@.events =~= execution_step(old(self)@, result@).1.events);
                                s
                            },
                            RetryDecision::RetryWithoutApproval { reason } => {
                                let retry = ExecutionAttempt::NoSandboxRetry { reason: reason.clone() };
                                events.push(started(&self.context, &retry));
                                self.stage = CommandFlowStage::RunningRetry { reason };
                                let s = CommandFlowStep {
                                    events,
                                    action: CommandFlowAction::RunAttempt(retry),
                                };
                                assert(s@.events =~= execution_step(old(self)@, result@).1.events);
                                s
                            },
                            RetryDecision::RetryWithApproval { reason, approval_scope } => {
                                self.stage = CommandFlowStage::AwaitingRetryApproval {
                                    failure,
                                    reason: reason.clone(),
                                };
                                let s = CommandFlowStep {
                                    events,
                                    action: CommandFlowAction::RequestApproval(
                                        ToolApprovalRequest { reason, scope: approval_scope },
                                    ),
                                };
                                assert(s@.events =~= execution_step(old(self)@, result@).1.events);
                                s
                            },
                        }
                    },
                }
            },
            CommandFlowStage::RunningUnsandboxedFirst { reason } => {
                let attempt = ExecutionAttempt::NoSandboxFirst { reason };
                self.last_attempt(attempt, result)
            },
            CommandFlowStage::RunningRetry { reason } => {
                let attempt = ExecutionAttempt::NoSandboxRetry { reason };
                self.last_attempt(attempt, result)
            },
            _ => {
                assert(false);
                CommandFlowStep {
                    events: Vec::new(),
                    action: CommandFlowAction::Finish(RunCommandResult::Failed { error: String::new() }),
                }
            },
        }
    }

    fn last_attempt(&mut self, attempt: ExecutionAttempt, result: ExecutionResult) -> (s:
        CommandFlowStep)
        requires
            old(self)@.stage is Done,
        ensures
            final(self)@ == (CommandFlowModel { stage: last_attempt_step(old(self)@, attempt@, result@).0, ..old(self)@ }),
            s@ == last_attempt_step(old(self)@, attempt@, result@).1,
    {
        match result {
            ExecutionResult::Success { stdout } => {
                let mut events: Vec<StreamEvent> = Vec::new();
                events.push(finished(&self.context, &attempt, &stdout));
                let s = CommandFlowStep {
                    events,
                    action: CommandFlowAction::Finish(RunCommandResult::Finished { output: stdout }),
                };
                assert(s@.events =~= last_attempt_step(old(self)@, attempt@, result@).1.events);
                s
            },
            ExecutionResult::Failure(failure) => {
                let mut events: Vec<StreamEvent> = Vec::new();
                events.push(failed(&self.context, &attempt, &failure));
                let s = CommandFlowStep {
                    events,
                    action: CommandFlowAction::Finish(RunCommandResult::from_failure(failure)),
                };
                assert(s@.events =~= last_attempt_step(old(self)@, attempt@, result@).1.events);
                s
            },
        }
    }
}

} // verus!
