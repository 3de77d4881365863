use std::collections::VecDeque;

use codex_mini_demo::agent::stream_event::StreamEvent;
use codex_mini_demo::model::approval::{
    ApprovalPersistence, ApprovalPolicy, ApprovalScope, NetworkPolicy, SandboxProfile,
};
use codex_mini_demo::model::capability::CapabilityKind;
use codex_mini_demo::model::command_request::CommandRequest;
use codex_mini_demo::model::event::{ExecutionAttempt, RetryDecision, UserApprovalDecision};
use codex_mini_demo::model::execution::{ExecutionFailure, ExecutionResult, NetworkApprovalContext};
use codex_mini_demo::tool::shell::approval::{SessionApprovals, ToolCallContext};
use codex_mini_demo::tool::shell::flow::{needs_approval_event, CommandFlow, CommandFlowAction};
use codex_mini_demo::tool::shell::execution::simulated_execution_runner::SimulatedExecutionRunner;
use codex_mini_demo::tool::shell::execution::ExecutionRunner;
use codex_mini_demo::tool::shell::registry::{CapabilityRegistry, MatchedCapability};
use codex_mini_demo::tool::shell::RunCommandResult;

fn strings(items: &[&str]) -> Vec<String> {
    items.iter().map(|item| item.to_string()).collect()
}

fn request(
    argv: &[&str],
    capability: CapabilityKind,
    approval_policy: ApprovalPolicy,
    sandbox_profile: SandboxProfile,
    network_policy: NetworkPolicy,
) -> CommandRequest {
    CommandRequest {
        raw_command: argv.join(" "),
        argv: strings(argv),
        cwd: "/workspace".to_string(),
        capability,
        approval_policy,
        sandbox_profile,
        network_policy,
        justification: None,
    }
}

fn matched(argv: &[&str]) -> MatchedCapability {
    CapabilityRegistry::new()
        .match_capability(&strings(argv))
        .expect("test command should match a capability")
}

fn context() -> ToolCallContext {
    ToolCallContext { index: 7, call_id: "call_shell".to_string(), tool_name: "run_command".to_string() }
}

fn approved() -> UserApprovalDecision {
    UserApprovalDecision::Approved { persistence: ApprovalPersistence::Once }
}

fn approved_for_session() -> UserApprovalDecision {
    UserApprovalDecision::Approved { persistence: ApprovalPersistence::Session }
}

struct Trace {
    result: RunCommandResult,
    events: Vec<StreamEvent>,
    attempts: Vec<ExecutionAttempt>,
    scopes: Vec<ApprovalScope>,
}

/// Drives a command flow the way the host does: session approvals answer
/// what they can, the scripted decisions answer the rest, and the scripted
/// results stand for the runner.
fn drive(
    request: &CommandRequest,
    argv: &[&str],
    results: &mut VecDeque<ExecutionResult>,
    decisions: &mut VecDeque<UserApprovalDecision>,
    approvals: &mut SessionApprovals,
) -> Trace {
    let (mut flow, mut step) = CommandFlow::start(request.clone(), context(), matched(argv));
    let mut events = vec![];
    let mut attempts = vec![];
    let mut scopes = vec![];
    let mut next_id = 0;
    loop {
        events.extend(step.events);
        match step.action {
            CommandFlowAction::Finish(result) => {
                return Trace { result, events, attempts, scopes };
            }
            CommandFlowAction::RequestApproval(approval_request) => {
                assert!(flow.is_awaiting_approval());
                let decision = match approvals.session_decision(&approval_request.scope) {
                    Some(decision) => decision,
                    None => {
                        next_id += 1;
                        events.push(needs_approval_event(
                            &context(),
                            format!("approval-{next_id}"),
                            &approval_request,
                        ));
                        scopes.push(approval_request.scope.clone());
                        let decision = decisions.pop_front().expect("a scripted decision");
                        approvals.remember_approval(&approval_request.scope, &decision);
                        decision
                    }
                };
                step = flow.on_approval(decision);
            }
            CommandFlowAction::RunAttempt(attempt) => {
                assert!(flow.is_awaiting_execution());
                attempts.push(attempt);
                let result = results.pop_front().expect("a scripted result");
                step = flow.on_execution(result);
            }
        }
    }
}

fn run_case(
    request: &CommandRequest,
    argv: &[&str],
    results: Vec<ExecutionResult>,
    decisions: Vec<UserApprovalDecision>,
) -> Trace {
    let mut results = VecDeque::from(results);
    let mut decisions = VecDeque::from(decisions);
    let mut approvals = SessionApprovals::new();
    drive(request, argv, &mut results, &mut decisions, &mut approvals)
}

fn sandbox_first(sandbox_profile: SandboxProfile) -> ExecutionAttempt {
    ExecutionAttempt::SandboxFirst { sandbox_profile }
}

fn started_attempts(events: &[StreamEvent]) -> Vec<ExecutionAttempt> {
    events
        .iter()
        .filter_map(|event| match event {
            StreamEvent::CommandExecutionStarted { attempt, .. } => Some(attempt.clone()),
            _ => None,
        })
        .collect()
}

fn finished_attempts(events: &[StreamEvent]) -> Vec<ExecutionAttempt> {
    events
        .iter()
        .filter_map(|event| match event {
            StreamEvent::CommandExecutionFinished { attempt, .. } => Some(attempt.clone()),
            _ => None,
        })
        .collect()
}

fn failed_attempts(events: &[StreamEvent]) -> Vec<ExecutionAttempt> {
    events
        .iter()
        .filter_map(|event| match event {
            StreamEvent::CommandExecutionFailed { attempt, .. } => Some(attempt.clone()),
            _ => None,
        })
        .collect()
}

fn retry_decisions(events: &[StreamEvent]) -> Vec<RetryDecision> {
    events
        .iter()
        .filter_map(|event| match event {
            StreamEvent::CommandRetryEvaluated { decision, .. } => Some(decision.clone()),
            _ => None,
        })
        .collect()
}

fn approval_request_count(events: &[StreamEvent]) -> usize {
    events.iter().filter(|event| matches!(event, StreamEvent::CommandNeedsApproval { .. })).count()
}

fn assert_event_context(event: &StreamEvent) {
    match event {
        StreamEvent::CommandExecutionStarted { index, call_id, name, .. }
        | StreamEvent::CommandExecutionFinished { index, call_id, name, .. }
        | StreamEvent::CommandExecutionFailed { index, call_id, name, .. }
        | StreamEvent::CommandRetryEvaluated { index, call_id, name, .. }
        | StreamEvent::CommandNeedsApproval { index, call_id, name, .. } => {
            assert_eq!(*index, 7);
            assert_eq!(call_id, "call_shell");
            assert_eq!(name, "run_command");
        }
        other => panic!("expected command event, got {other:?}"),
    }
}

fn network_denial() -> ExecutionResult {
    ExecutionResult::Failure(ExecutionFailure::SandboxDenied {
        output: "network blocked by sandbox".to_string(),
        network_context: Some(NetworkApprovalContext {
            host: "registry.npmjs.org".to_string(),
            protocol: "https".to_string(),
        }),
    })
}

fn install_request(approval_policy: ApprovalPolicy, network_policy: NetworkPolicy) -> CommandRequest {
    request(
        &["npm", "install", "vite"],
        CapabilityKind::NetworkInstall,
        approval_policy,
        SandboxProfile::WorkspaceWrite,
        network_policy,
    )
}

const INSTALL: [&str; 3] = ["npm", "install", "vite"];

#[test]
fn mod_skip_without_bypass_runs_once_in_sandbox() {
    let argv = ["cat", "package.json"];
    let request = request(&argv, CapabilityKind::SafeRead, ApprovalPolicy::OnFailure, SandboxProfile::ReadOnly, NetworkPolicy::Deny);

    let trace = run_case(&request, &argv, vec![ExecutionResult::Success { stdout: "read ok".to_string() }], vec![]);

    assert!(matches!(&trace.result, RunCommandResult::Finished { output } if output == "read ok"));
    assert_eq!(trace.attempts, vec![sandbox_first(SandboxProfile::ReadOnly)]);
    assert_eq!(started_attempts(&trace.events), vec![sandbox_first(SandboxProfile::ReadOnly)]);
    assert_eq!(finished_attempts(&trace.events), vec![sandbox_first(SandboxProfile::ReadOnly)]);
    assert!(failed_attempts(&trace.events).is_empty());
    assert!(retry_decisions(&trace.events).is_empty());
    trace.events.iter().for_each(assert_event_context);
    assert!(trace.scopes.is_empty());
}

#[test]
fn mod_safe_read_sandbox_denied_does_not_retry_because_capability_retry_policy_is_never() {
    let argv = ["cat", "/private/file"];
    let request = request(&argv, CapabilityKind::SafeRead, ApprovalPolicy::OnFailure, SandboxProfile::ReadOnly, NetworkPolicy::Deny);
    let denial = ExecutionResult::Failure(ExecutionFailure::SandboxDenied {
        output: "read denied by sandbox".to_string(),
        network_context: None,
    });

    let trace = run_case(&request, &argv, vec![denial], vec![]);

    assert!(matches!(trace.result, RunCommandResult::Denied { .. }));
    assert_eq!(trace.attempts, vec![sandbox_first(SandboxProfile::ReadOnly)]);
    assert_eq!(failed_attempts(&trace.events), vec![sandbox_first(SandboxProfile::ReadOnly)]);
    assert!(matches!(retry_decisions(&trace.events).as_slice(), [RetryDecision::DoNotRetry { .. }]));
    trace.events.iter().for_each(assert_event_context);
    assert!(trace.scopes.is_empty());
}

#[test]
fn mod_needs_approval_rejection_denies_without_running_command() {
    let request = install_request(ApprovalPolicy::OnRequest, NetworkPolicy::Prompt);

    let trace = run_case(&request, &INSTALL, vec![], vec![UserApprovalDecision::Rejected]);

    assert!(matches!(trace.result, RunCommandResult::Denied { .. }));
    assert!(trace.attempts.is_empty());
    assert!(matches!(trace.events.as_slice(), [StreamEvent::CommandNeedsApproval { .. }]));
    assert_eq!(trace.scopes.len(), 1);
    assert_eq!(trace.scopes[0].sandbox_profile, SandboxProfile::WorkspaceWrite);
    trace.events.iter().for_each(assert_event_context);
}

#[test]
fn mod_needs_approval_approval_still_runs_sandbox_first() {
    let request = install_request(ApprovalPolicy::OnRequest, NetworkPolicy::Prompt);

    let trace = run_case(
        &request,
        &INSTALL,
        vec![ExecutionResult::Success { stdout: "install ok in sandbox".to_string() }],
        vec![approved()],
    );

    assert!(matches!(trace.result, RunCommandResult::Finished { .. }));
    assert_eq!(trace.attempts, vec![sandbox_first(SandboxProfile::WorkspaceWrite)]);
    assert_eq!(started_attempts(&trace.events), vec![sandbox_first(SandboxProfile::WorkspaceWrite)]);
    assert_eq!(finished_attempts(&trace.events), vec![sandbox_first(SandboxProfile::WorkspaceWrite)]);
    trace.events.iter().for_each(assert_event_context);
    assert_eq!(trace.scopes.len(), 1);
    assert_eq!(trace.scopes[0].sandbox_profile, SandboxProfile::WorkspaceWrite);
}

#[test]
fn session_approval_reuses_same_scope_without_new_prompt() {
    let request = install_request(ApprovalPolicy::OnRequest, NetworkPolicy::Prompt);
    let mut results = VecDeque::from(vec![
        ExecutionResult::Success { stdout: "first install ok".to_string() },
        ExecutionResult::Success { stdout: "second install ok".to_string() },
    ]);
    let mut decisions = VecDeque::from(vec![approved_for_session()]);
    let mut approvals = SessionApprovals::new();

    let first = drive(&request, &INSTALL, &mut results, &mut decisions, &mut approvals);
    let second = drive(&request, &INSTALL, &mut results, &mut decisions, &mut approvals);

    assert!(matches!(first.result, RunCommandResult::Finished { .. }));
    assert!(matches!(second.result, RunCommandResult::Finished { .. }));
    assert_eq!(approval_request_count(&first.events), 1);
    assert_eq!(approval_request_count(&second.events), 0);
    assert_eq!(first.scopes.len() + second.scopes.len(), 1);
    assert_eq!(
        [first.attempts, second.attempts].concat(),
        vec![sandbox_first(SandboxProfile::WorkspaceWrite), sandbox_first(SandboxProfile::WorkspaceWrite)]
    );
}

#[test]
fn once_approval_does_not_reuse_same_scope() {
    let request = install_request(ApprovalPolicy::OnRequest, NetworkPolicy::Prompt);
    let mut results = VecDeque::from(vec![
        ExecutionResult::Success { stdout: "first install ok".to_string() },
        ExecutionResult::Success { stdout: "second install ok".to_string() },
    ]);
    let mut decisions = VecDeque::from(vec![approved(), approved()]);
    let mut approvals = SessionApprovals::new();

    let first = drive(&request, &INSTALL, &mut results, &mut decisions, &mut approvals);
    let second = drive(&request, &INSTALL, &mut results, &mut decisions, &mut approvals);

    assert_eq!(approval_request_count(&first.events), 1);
    assert_eq!(approval_request_count(&second.events), 1);
    assert_eq!(first.scopes.len() + second.scopes.len(), 2);
}

#[test]
fn session_approval_does_not_reuse_when_scope_changes() {
    let first_request = install_request(ApprovalPolicy::OnRequest, NetworkPolicy::Prompt);
    let mut second_request = first_request.clone();
    second_request.cwd = "/other-workspace".to_string();
    let mut results = VecDeque::from(vec![
        ExecutionResult::Success { stdout: "first install ok".to_string() },
        ExecutionResult::Success { stdout: "second install ok".to_string() },
    ]);
    let mut decisions = VecDeque::from(vec![approved_for_session(), approved()]);
    let mut approvals = SessionApprovals::new();

    let first = drive(&first_request, &INSTALL, &mut results, &mut decisions, &mut approvals);
    let second = drive(&second_request, &INSTALL, &mut results, &mut decisions, &mut approvals);

    assert_eq!(approval_request_count(&first.events), 1);
    assert_eq!(approval_request_count(&second.events), 1);
    assert_ne!(first.scopes[0].cwd, second.scopes[0].cwd);
}

#[test]
fn mod_command_failure_in_sandbox_does_not_retry() {
    let argv = ["npm", "test", "--", "fail"];
    let request = request(&argv, CapabilityKind::SafeTest, ApprovalPolicy::OnFailure, SandboxProfile::WorkspaceWrite, NetworkPolicy::Deny);
    let failure = ExecutionResult::Failure(ExecutionFailure::CommandFailed {
        exit_code: 1,
        stderr: "test failed".to_string(),
    });

    let trace = run_case(&request, &argv, vec![failure], vec![]);

    assert!(matches!(trace.result, RunCommandResult::Failed { .. }));
    assert_eq!(trace.attempts, vec![sandbox_first(SandboxProfile::WorkspaceWrite)]);
    assert_eq!(failed_attempts(&trace.events), vec![sandbox_first(SandboxProfile::WorkspaceWrite)]);
    assert!(matches!(retry_decisions(&trace.events).as_slice(), [RetryDecision::DoNotRetry { .. }]));
    trace.events.iter().for_each(assert_event_context);
}

#[test]
fn mod_sandbox_denied_with_network_allow_retries_without_second_approval() {
    let request = install_request(ApprovalPolicy::OnFailure, NetworkPolicy::Allow);

    let trace = run_case(
        &request,
        &INSTALL,
        vec![network_denial(), ExecutionResult::Success { stdout: "install ok without sandbox".to_string() }],
        vec![approved()],
    );

    assert!(matches!(trace.result, RunCommandResult::Finished { .. }));
    assert_eq!(trace.attempts.len(), 2);
    assert_eq!(trace.attempts[0], sandbox_first(SandboxProfile::WorkspaceWrite));
    assert!(matches!(trace.attempts[1], ExecutionAttempt::NoSandboxRetry { .. }));
    assert_eq!(failed_attempts(&trace.events), vec![sandbox_first(SandboxProfile::WorkspaceWrite)]);
    assert!(matches!(finished_attempts(&trace.events).as_slice(), [ExecutionAttempt::NoSandboxRetry { .. }]));
    assert!(matches!(retry_decisions(&trace.events).as_slice(), [RetryDecision::RetryWithoutApproval { .. }]));
    trace.events.iter().for_each(assert_event_context);
    assert_eq!(trace.scopes.len(), 1);
}

#[test]
fn mod_sandbox_denied_with_network_prompt_requires_retry_approval_with_no_sandbox_scope() {
    let request = install_request(ApprovalPolicy::OnFailure, NetworkPolicy::Prompt);

    let trace = run_case(
        &request,
        &INSTALL,
        vec![network_denial(), ExecutionResult::Success { stdout: "install ok after approval".to_string() }],
        vec![approved(), approved()],
    );

    assert!(matches!(trace.result, RunCommandResult::Finished { .. }));
    assert_eq!(trace.attempts.len(), 2);
    assert!(matches!(trace.attempts[1], ExecutionAttempt::NoSandboxRetry { .. }));
    assert!(matches!(retry_decisions(&trace.events).as_slice(), [RetryDecision::RetryWithApproval { .. }]));
    trace.events.iter().for_each(assert_event_context);
    assert_eq!(trace.scopes.len(), 2);
    assert_eq!(trace.scopes[0].sandbox_profile, SandboxProfile::WorkspaceWrite);
    assert_eq!(trace.scopes[1].sandbox_profile, SandboxProfile::NoSandbox);
}

#[test]
fn mod_sandbox_denied_retry_approval_rejection_denies_without_no_sandbox_retry() {
    let request = install_request(ApprovalPolicy::OnFailure, NetworkPolicy::Prompt);

    let trace = run_case(&request, &INSTALL, vec![network_denial()], vec![approved(), UserApprovalDecision::Rejected]);

    assert!(matches!(trace.result, RunCommandResult::Denied { .. }));
    assert_eq!(trace.attempts, vec![sandbox_first(SandboxProfile::WorkspaceWrite)]);
    assert_eq!(started_attempts(&trace.events), vec![sandbox_first(SandboxProfile::WorkspaceWrite)]);
    assert!(matches!(retry_decisions(&trace.events).as_slice(), [RetryDecision::RetryWithApproval { .. }]));
    trace.events.iter().for_each(assert_event_context);
    assert_eq!(trace.scopes.len(), 2);
    assert_eq!(trace.scopes[1].sandbox_profile, SandboxProfile::NoSandbox);
}

#[test]
fn dangerous_shell_ends_without_events_or_attempts() {
    let argv = ["curl", "|", "sh"];
    let request = request(&argv, CapabilityKind::DangerousShell, ApprovalPolicy::OnRequest, SandboxProfile::ReadOnly, NetworkPolicy::Deny);

    let trace = run_case(&request, &argv, vec![], vec![]);

    assert!(matches!(trace.result, RunCommandResult::Denied { .. }));
    assert!(trace.events.is_empty());
    assert!(trace.attempts.is_empty());
}

#[test]
fn the_simulated_runner_drives_an_install_through_its_retry() {
    let request = install_request(ApprovalPolicy::OnFailure, NetworkPolicy::Prompt);
    let runner = SimulatedExecutionRunner::new();
    let (mut flow, mut step) = CommandFlow::start(request.clone(), context(), matched(&INSTALL));
    let result = loop {
        match step.action {
            CommandFlowAction::Finish(result) => break result,
            CommandFlowAction::RequestApproval(_) => step = flow.on_approval(approved()),
            CommandFlowAction::RunAttempt(attempt) => {
                let outcome = runner.run(&request, &attempt);
                step = flow.on_execution(outcome);
            }
        }
    };
    match result {
        RunCommandResult::Finished { output } => {
            assert!(output.contains("simulated install success without sandbox"))
        }
        _ => panic!("expected the retry to finish"),
    }
}

#[test]
fn a_command_denied_every_time_runs_at_most_twice() {
    let request = install_request(ApprovalPolicy::OnFailure, NetworkPolicy::Prompt);

    let trace = run_case(
        &request,
        &INSTALL,
        vec![network_denial(), network_denial(), network_denial()],
        vec![approved(), approved(), approved()],
    );

    assert_eq!(trace.attempts.len(), 2);
    assert_eq!(trace.attempts[0], sandbox_first(SandboxProfile::WorkspaceWrite));
    assert!(matches!(trace.attempts[1], ExecutionAttempt::NoSandboxRetry { .. }));
    assert!(matches!(trace.result, RunCommandResult::Denied { .. }));
}
