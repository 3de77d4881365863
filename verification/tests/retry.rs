use codex_mini_demo::model::approval::{
    ApprovalPersistence, ApprovalPolicy, ApprovalScope, NetworkPolicy, SandboxProfile,
};
use codex_mini_demo::model::capability::{CapabilityKind, RetryPolicy};
use codex_mini_demo::model::command_request::CommandRequest;
use codex_mini_demo::model::event::RetryDecision;
use codex_mini_demo::model::execution::{ExecutionFailure, NetworkApprovalContext};
use codex_mini_demo::tool::shell::retry::decide_retry;

fn strings(items: &[&str]) -> Vec<String> {
    items.iter().map(|item| item.to_string()).collect()
}

fn install_request(approval_policy: ApprovalPolicy, network_policy: NetworkPolicy) -> CommandRequest {
    CommandRequest {
        raw_command: "npm install vite".to_string(),
        argv: strings(&["npm", "install", "vite"]),
        cwd: "/workspace".to_string(),
        capability: CapabilityKind::NetworkInstall,
        approval_policy,
        sandbox_profile: SandboxProfile::WorkspaceWrite,
        network_policy,
        justification: None,
    }
}

fn install_scope(network_policy: NetworkPolicy) -> ApprovalScope {
    ApprovalScope {
        command_prefix: strings(&["npm", "install"]),
        cwd: "/workspace".to_string(),
        sandbox_profile: SandboxProfile::WorkspaceWrite,
        network_policy,
        persistence: ApprovalPersistence::Once,
    }
}

fn request(
    argv: &[&str],
    capability: CapabilityKind,
    approval_policy: ApprovalPolicy,
    network_policy: NetworkPolicy,
) -> CommandRequest {
    CommandRequest {
        raw_command: argv.join(" "),
        argv: strings(argv),
        cwd: "/workspace".to_string(),
        capability,
        approval_policy,
        sandbox_profile: SandboxProfile::WorkspaceWrite,
        network_policy,
        justification: None,
    }
}

fn command_scope(command_prefix: &[&str], network_policy: NetworkPolicy) -> ApprovalScope {
    ApprovalScope {
        command_prefix: strings(command_prefix),
        cwd: "/workspace".to_string(),
        sandbox_profile: SandboxProfile::WorkspaceWrite,
        network_policy,
        persistence: ApprovalPersistence::Once,
    }
}

fn command_failed() -> ExecutionFailure {
    ExecutionFailure::CommandFailed { exit_code: 1, stderr: "test failed".to_string() }
}

fn sandbox_denied_with_network() -> ExecutionFailure {
    ExecutionFailure::SandboxDenied {
        output: "network access denied by sandbox".to_string(),
        network_context: Some(NetworkApprovalContext {
            host: "registry.npmjs.org".to_string(),
            protocol: "https".to_string(),
        }),
    }
}

fn sandbox_denied_without_network() -> ExecutionFailure {
    ExecutionFailure::SandboxDenied {
        output: "filesystem write denied by sandbox".to_string(),
        network_context: None,
    }
}

fn assert_do_not_retry(decision: RetryDecision) {
    assert!(matches!(decision, RetryDecision::DoNotRetry { .. }));
}

fn assert_retry_without_approval(decision: RetryDecision) {
    assert!(matches!(decision, RetryDecision::RetryWithoutApproval { .. }));
}

fn retry_approval_scope(decision: RetryDecision) -> ApprovalScope {
    match decision {
        RetryDecision::RetryWithApproval { reason: _, approval_scope } => approval_scope,
        other => panic!("expected retry with approval, got {other:?}"),
    }
}

fn assert_no_sandbox_scope(scope: ApprovalScope, command_prefix: &[&str], network_policy: NetworkPolicy) {
    assert_eq!(scope.command_prefix, strings(command_prefix));
    assert_eq!(scope.cwd, "/workspace".to_string());
    assert_eq!(scope.sandbox_profile, SandboxProfile::NoSandbox);
    assert_eq!(scope.network_policy, network_policy);
    assert_eq!(scope.persistence, ApprovalPersistence::Once);
}

#[test]
fn retry_command_failed_does_not_retry() {
    let request = install_request(ApprovalPolicy::OnFailure, NetworkPolicy::Prompt);
    let scope = install_scope(NetworkPolicy::Prompt);

    let decision = decide_retry(&request, &command_failed(), &scope, RetryPolicy::WithApproval, false);

    match decision {
        RetryDecision::DoNotRetry { reason } => {
            assert!(reason.contains("command failed"));
            assert!(reason.contains("exit code 1"));
        }
        other => panic!("expected no retry for command failure, got {other:?}"),
    }
}

#[test]
fn retry_already_retried_does_not_retry_again() {
    let request = install_request(ApprovalPolicy::OnFailure, NetworkPolicy::Prompt);
    let scope = install_scope(NetworkPolicy::Prompt);
    let failure = sandbox_denied_with_network();

    let decision = decide_retry(&request, &failure, &scope, RetryPolicy::WithApproval, true);

    match decision {
        RetryDecision::DoNotRetry { reason } => {
            assert!(reason.contains("already retried"));
            assert!(reason.contains("SandboxDenied"));
        }
        other => panic!("expected no retry after previous retry, got {other:?}"),
    }
}

#[test]
fn sandbox_denied_with_never_policy_does_not_retry() {
    let request = install_request(ApprovalPolicy::Never, NetworkPolicy::Prompt);
    let scope = install_scope(NetworkPolicy::Prompt);
    let failure = sandbox_denied_with_network();

    let decision = decide_retry(&request, &failure, &scope, RetryPolicy::WithApproval, false);

    match decision {
        RetryDecision::DoNotRetry { reason } => {
            assert!(reason.contains("approval policy is never"));
            assert!(reason.contains("network access denied"));
        }
        other => panic!("expected no retry for never policy, got {other:?}"),
    }
}

#[test]
fn retry_sandbox_denied_with_on_request_policy_does_not_auto_retry() {
    let request = install_request(ApprovalPolicy::OnRequest, NetworkPolicy::Prompt);
    let scope = install_scope(NetworkPolicy::Prompt);
    let failure = sandbox_denied_with_network();

    let decision = decide_retry(&request, &failure, &scope, RetryPolicy::WithApproval, false);

    match decision {
        RetryDecision::DoNotRetry { reason } => {
            assert!(reason.contains("approval policy is on-request"));
            assert!(reason.contains("cannot trigger automatic retry approval"));
        }
        other => panic!("expected no automatic retry for on-request policy, got {other:?}"),
    }
}

#[test]
fn retry_sandbox_denied_with_network_prompt_retries_with_no_sandbox_approval() {
    let request = install_request(ApprovalPolicy::OnFailure, NetworkPolicy::Prompt);
    let scope = install_scope(NetworkPolicy::Prompt);
    let failure = sandbox_denied_with_network();

    let decision = decide_retry(&request, &failure, &scope, RetryPolicy::WithApproval, false);

    match decision {
        RetryDecision::RetryWithApproval { reason, approval_scope } => {
            assert!(reason.contains("network prompt"));
            assert!(reason.contains("registry.npmjs.org"));
            assert_eq!(approval_scope.command_prefix, strings(&["npm", "install"]));
            assert_eq!(approval_scope.cwd, "/workspace".to_string());
            assert_eq!(approval_scope.sandbox_profile, SandboxProfile::NoSandbox);
            assert_eq!(approval_scope.network_policy, NetworkPolicy::Prompt);
            assert_eq!(approval_scope.persistence, ApprovalPersistence::Once);
        }
        other => panic!("expected retry with approval, got {other:?}"),
    }
}

#[test]
fn retry_sandbox_denied_with_network_allow_retries_without_approval() {
    let request = install_request(ApprovalPolicy::OnFailure, NetworkPolicy::Allow);
    let scope = install_scope(NetworkPolicy::Allow);
    let failure = sandbox_denied_with_network();

    let decision = decide_retry(&request, &failure, &scope, RetryPolicy::WithApproval, false);

    match decision {
        RetryDecision::RetryWithoutApproval { reason } => {
            assert!(reason.contains("network allowed"));
            assert!(reason.contains("registry.npmjs.org"));
        }
        other => panic!("expected retry without approval, got {other:?}"),
    }
}

#[test]
fn retry_sandbox_denied_with_network_deny_does_not_retry() {
    let request = install_request(ApprovalPolicy::OnFailure, NetworkPolicy::Deny);
    let scope = install_scope(NetworkPolicy::Deny);
    let failure = sandbox_denied_with_network();

    let decision = decide_retry(&request, &failure, &scope, RetryPolicy::WithApproval, false);

    match decision {
        RetryDecision::DoNotRetry { reason } => {
            assert!(reason.contains("network denied"));
            assert!(reason.contains("registry.npmjs.org"));
        }
        other => panic!("expected no retry for denied network, got {other:?}"),
    }
}

#[test]
fn retry_sandbox_denied_without_network_retries_with_no_sandbox_approval() {
    let request = install_request(ApprovalPolicy::OnFailure, NetworkPolicy::Deny);
    let scope = install_scope(NetworkPolicy::Deny);
    let failure = sandbox_denied_without_network();

    let decision = decide_retry(&request, &failure, &scope, RetryPolicy::WithApproval, false);

    match decision {
        RetryDecision::RetryWithApproval { reason, approval_scope } => {
            assert!(reason.contains("approval required"));
            assert!(reason.contains("filesystem write denied"));
            assert_eq!(approval_scope.command_prefix, strings(&["npm", "install"]));
            assert_eq!(approval_scope.cwd, "/workspace".to_string());
            assert_eq!(approval_scope.sandbox_profile, SandboxProfile::NoSandbox);
            assert_eq!(approval_scope.network_policy, NetworkPolicy::Deny);
            assert_eq!(approval_scope.persistence, ApprovalPersistence::Once);
        }
        other => panic!("expected retry with approval, got {other:?}"),
    }
}

#[test]
fn safe_read_retry_policy_never_does_not_retry_after_sandbox_denied() {
    let request = request(
        &["cat", "/private/file"],
        CapabilityKind::SafeRead,
        ApprovalPolicy::OnFailure,
        NetworkPolicy::Deny,
    );
    let scope = command_scope(&["cat"], NetworkPolicy::Deny);
    let failure = sandbox_denied_without_network();

    let decision = decide_retry(&request, &failure, &scope, RetryPolicy::Never, false);

    assert_do_not_retry(decision);
}

#[test]
fn retry_policy_never_wins_before_network_policy() {
    let request = request(
        &["npm", "install", "vite"],
        CapabilityKind::NetworkInstall,
        ApprovalPolicy::OnFailure,
        NetworkPolicy::Allow,
    );
    let scope = command_scope(&["npm", "install"], NetworkPolicy::Allow);
    let failure = sandbox_denied_with_network();

    let decision = decide_retry(&request, &failure, &scope, RetryPolicy::Never, false);

    assert_do_not_retry(decision);
}

#[test]
fn sandbox_denied_with_global_never_policy_does_not_retry_when_retry_requires_approval() {
    let request = request(
        &["npm", "install", "vite"],
        CapabilityKind::NetworkInstall,
        ApprovalPolicy::Never,
        NetworkPolicy::Prompt,
    );
    let scope = command_scope(&["npm", "install"], NetworkPolicy::Prompt);
    let failure = sandbox_denied_with_network();

    let decision = decide_retry(&request, &failure, &scope, RetryPolicy::WithApproval, false);

    assert_do_not_retry(decision);
}

#[test]
fn retry_policy_without_approval_allows_direct_retry_for_non_network_sandbox_denial() {
    let request = request(
        &["cargo", "test"],
        CapabilityKind::SafeTest,
        ApprovalPolicy::OnRequest,
        NetworkPolicy::Deny,
    );
    let scope = command_scope(&["cargo", "test"], NetworkPolicy::Deny);
    let failure = sandbox_denied_without_network();

    let decision = decide_retry(&request, &failure, &scope, RetryPolicy::WithoutApproval, false);

    assert_retry_without_approval(decision);
}

#[test]
fn retry_policy_without_approval_does_not_override_network_deny() {
    let request = request(
        &["npm", "install", "vite"],
        CapabilityKind::NetworkInstall,
        ApprovalPolicy::OnFailure,
        NetworkPolicy::Deny,
    );
    let scope = command_scope(&["npm", "install"], NetworkPolicy::Deny);
    let failure = sandbox_denied_with_network();

    let decision = decide_retry(&request, &failure, &scope, RetryPolicy::WithoutApproval, false);

    assert_do_not_retry(decision);
}

#[test]
fn retry_policy_without_approval_still_requires_approval_for_network_prompt() {
    let request = request(
        &["npm", "install", "vite"],
        CapabilityKind::NetworkInstall,
        ApprovalPolicy::OnFailure,
        NetworkPolicy::Prompt,
    );
    let scope = command_scope(&["npm", "install"], NetworkPolicy::Prompt);
    let failure = sandbox_denied_with_network();

    let decision = decide_retry(&request, &failure, &scope, RetryPolicy::WithoutApproval, false);

    assert_no_sandbox_scope(retry_approval_scope(decision), &["npm", "install"], NetworkPolicy::Prompt);
}

#[test]
fn retry_policy_without_approval_does_not_prompt_network_when_global_policy_disallows_it() {
    let request = request(
        &["npm", "install", "vite"],
        CapabilityKind::NetworkInstall,
        ApprovalPolicy::Never,
        NetworkPolicy::Prompt,
    );
    let scope = command_scope(&["npm", "install"], NetworkPolicy::Prompt);
    let failure = sandbox_denied_with_network();

    let decision = decide_retry(&request, &failure, &scope, RetryPolicy::WithoutApproval, false);

    assert_do_not_retry(decision);
}

#[test]
fn retry_reasons_are_exact() {
    let request = install_request(ApprovalPolicy::OnFailure, NetworkPolicy::Deny);
    let scope = install_scope(NetworkPolicy::Deny);
    assert_eq!(
        decide_retry(&request, &command_failed(), &scope, RetryPolicy::WithApproval, false),
        RetryDecision::DoNotRetry {
            reason: "command failed with exit code 1: test failed".to_string()
        }
    );
    assert_eq!(
        decide_retry(&request, &sandbox_denied_without_network(), &scope, RetryPolicy::Never, false),
        RetryDecision::DoNotRetry {
            reason: "sandbox denied: filesystem write denied by sandbox and retry policy is never"
                .to_string()
        }
    );
}

#[test]
fn safe_test_command_failed_does_not_retry() {
    let request = request(&["npm", "test"], CapabilityKind::SafeTest, ApprovalPolicy::OnFailure, NetworkPolicy::Deny);
    let scope = command_scope(&["npm", "test"], NetworkPolicy::Deny);

    let decision = decide_retry(&request, &command_failed(), &scope, RetryPolicy::WithApproval, false);

    assert_do_not_retry(decision);
}

#[test]
fn install_already_retried_without_approval_does_not_retry_again() {
    let request = request(
        &["npm", "install", "vite"],
        CapabilityKind::NetworkInstall,
        ApprovalPolicy::OnFailure,
        NetworkPolicy::Allow,
    );
    let scope = command_scope(&["npm", "install"], NetworkPolicy::Allow);
    let failure = sandbox_denied_with_network();

    let decision = decide_retry(&request, &failure, &scope, RetryPolicy::WithoutApproval, true);

    assert_do_not_retry(decision);
}

#[test]
fn safe_test_sandbox_denied_without_network_retries_with_no_sandbox_approval() {
    let request = request(&["npm", "test"], CapabilityKind::SafeTest, ApprovalPolicy::OnFailure, NetworkPolicy::Deny);
    let scope = command_scope(&["npm", "test"], NetworkPolicy::Deny);
    let failure = sandbox_denied_without_network();

    let decision = decide_retry(&request, &failure, &scope, RetryPolicy::WithApproval, false);

    assert_no_sandbox_scope(retry_approval_scope(decision), &["npm", "test"], NetworkPolicy::Deny);
}
