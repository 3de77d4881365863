use codex_mini_demo::agent::stream_event::{StreamEvent, ToolCallFinished};
use codex_mini_demo::model::approval::{ApprovalPersistence, ApprovalScope, NetworkPolicy, SandboxProfile};
use codex_mini_demo::model::capability::CapabilityKind;
use codex_mini_demo::model::event::{ExecutionAttempt, RetryDecision};
use codex_mini_demo::model::execution::{debug_network_context, ExecutionFailure, NetworkApprovalContext};
use codex_mini_demo::text::{debug_option_string, debug_string_list, i64_to_string};

fn scope() -> ApprovalScope {
    ApprovalScope {
        command_prefix: vec!["npm".to_string(), "install".to_string()],
        cwd: "/work \"space\"".to_string(),
        sandbox_profile: SandboxProfile::WorkspaceWrite,
        network_policy: NetworkPolicy::Prompt,
        persistence: ApprovalPersistence::Once,
    }
}

fn context() -> NetworkApprovalContext {
    NetworkApprovalContext { host: "registry.npmjs.org".to_string(), protocol: "https".to_string() }
}

#[test]
fn debug_texts_match_the_derived_debug() {
    assert_eq!(CapabilityKind::NetworkInstall.debug_string(), format!("{:?}", CapabilityKind::NetworkInstall));
    assert_eq!(SandboxProfile::NoSandbox.debug_string(), format!("{:?}", SandboxProfile::NoSandbox));
    assert_eq!(NetworkPolicy::Allow.debug_string(), format!("{:?}", NetworkPolicy::Allow));
    assert_eq!(ApprovalPersistence::Session.debug_string(), format!("{:?}", ApprovalPersistence::Session));
    assert_eq!(scope().debug_string(), format!("{:?}", scope()));
    assert_eq!(context().debug_string(), format!("{:?}", context()));
    assert_eq!(debug_network_context(&Some(context())), format!("{:?}", Some(context())));
    assert_eq!(debug_network_context(&None), "None");

    let failures = vec![
        ExecutionFailure::CommandFailed { exit_code: -3, stderr: "tab\there".to_string() },
        ExecutionFailure::SandboxDenied { output: "denied".to_string(), network_context: Some(context()) },
    ];
    for failure in failures {
        assert_eq!(failure.debug_string(), format!("{failure:?}"));
    }

    let attempts = vec![
        ExecutionAttempt::SandboxFirst { sandbox_profile: SandboxProfile::ReadOnly },
        ExecutionAttempt::NoSandboxFirst { reason: "r".to_string() },
        ExecutionAttempt::NoSandboxRetry { reason: "q\"".to_string() },
    ];
    for attempt in attempts {
        assert_eq!(attempt.debug_string(), format!("{attempt:?}"));
    }

    let decisions = vec![
        RetryDecision::DoNotRetry { reason: "no".to_string() },
        RetryDecision::RetryWithoutApproval { reason: "go".to_string() },
        RetryDecision::RetryWithApproval { reason: "ask".to_string(), approval_scope: scope() },
    ];
    for decision in decisions {
        assert_eq!(decision.debug_string(), format!("{decision:?}"));
    }
}

#[test]
fn stream_event_debug_texts_match_the_derived_debug() {
    let call = ToolCallFinished {
        index: 3,
        call_id: "c".to_string(),
        name: "add".to_string(),
        arguments: "{\"a\":1}".to_string(),
    };
    assert_eq!(call.debug_string(), format!("{call:?}"));
    let events = vec![
        StreamEvent::Started,
        StreamEvent::ThinkingDelta("t".to_string()),
        StreamEvent::TextDelta("x\ny".to_string()),
        StreamEvent::ToolCallArgumentsDelta { index: -1, call_id: "c".to_string(), name: None, delta: "{".to_string() },
        StreamEvent::ToolCallArgumentsDelta { index: 0, call_id: "c".to_string(), name: Some("add".to_string()), delta: "".to_string() },
        StreamEvent::ToolCallFinished(call.clone()),
        StreamEvent::ToolRunStarted { index: 1, call_id: "c".to_string(), name: "n".to_string(), arguments: "a".to_string() },
        StreamEvent::ToolRunFinished { index: 1, call_id: "c".to_string(), name: "n".to_string(), output: "o".to_string() },
        StreamEvent::ToolRunFailed { index: 1, call_id: "c".to_string(), name: "n".to_string(), error: "e".to_string() },
        StreamEvent::CommandNeedsApproval {
            approval_id: "id".to_string(),
            index: 7,
            call_id: "c".to_string(),
            name: "run_command".to_string(),
            reason: "why".to_string(),
            scope: scope(),
        },
        StreamEvent::CommandExecutionStarted {
            index: 7,
            call_id: "c".to_string(),
            name: "run_command".to_string(),
            attempt: ExecutionAttempt::SandboxFirst { sandbox_profile: SandboxProfile::WorkspaceWrite },
        },
        StreamEvent::CommandExecutionFinished {
            index: 7,
            call_id: "c".to_string(),
            name: "run_command".to_string(),
            attempt: ExecutionAttempt::NoSandboxRetry { reason: "r".to_string() },
            output: "done".to_string(),
        },
        StreamEvent::CommandExecutionFailed {
            index: 7,
            call_id: "c".to_string(),
            name: "run_command".to_string(),
            attempt: ExecutionAttempt::NoSandboxFirst { reason: "r".to_string() },
            error: "bad".to_string(),
        },
        StreamEvent::CommandRetryEvaluated {
            index: 7,
            call_id: "c".to_string(),
            name: "run_command".to_string(),
            decision: RetryDecision::DoNotRetry { reason: "no".to_string() },
        },
        StreamEvent::Completed,
        StreamEvent::Error("boom".to_string()),
    ];
    for event in events {
        assert_eq!(event.debug_string(), format!("{event:?}"));
    }
}

#[test]
fn string_debug_helpers_match_std() {
    let quoted = Some("a\"b\\c\n".to_string());
    assert_eq!(debug_option_string(&quoted), format!("{:?}", quoted));
    let items = vec!["x".to_string(), "y z".to_string()];
    assert_eq!(debug_string_list(&items), format!("{items:?}"));
    assert_eq!(debug_string_list(&vec![]), "[]");
    assert_eq!(debug_option_string(&Some("s".to_string())), format!("{:?}", Some("s")));
    assert_eq!(debug_option_string(&None), "None");
    assert_eq!(i64_to_string(i64::MIN), i64::MIN.to_string());
    assert_eq!(i64_to_string(0), "0");
    assert_eq!(i64_to_string(-42), "-42");
}
