use codex_mini_demo::model::approval::{ApprovalPolicy, NetworkPolicy, SandboxProfile};
use codex_mini_demo::model::capability::CapabilityKind;
use codex_mini_demo::model::command_request::CommandRequest;
use codex_mini_demo::model::event::ExecutionAttempt;
use codex_mini_demo::model::execution::{ExecutionFailure, ExecutionResult, NetworkApprovalContext};
use codex_mini_demo::sandbox::simulated_sandbox_runner::SimulatedSandboxRunner;
use codex_mini_demo::sandbox::SandboxRunner;
use codex_mini_demo::tool::shell::execution::simulated_execution_runner::SimulatedExecutionRunner;
use codex_mini_demo::tool::shell::execution::ExecutionRunner;

fn strings(items: &[&str]) -> Vec<String> {
    items.iter().map(|item| item.to_string()).collect()
}

fn request(
    argv: &[&str],
    capability: CapabilityKind,
    sandbox_profile: SandboxProfile,
    network_policy: NetworkPolicy,
) -> CommandRequest {
    CommandRequest {
        raw_command: argv.join(" "),
        argv: strings(argv),
        cwd: "/workspace".to_string(),
        capability,
        approval_policy: ApprovalPolicy::OnRequest,
        sandbox_profile,
        network_policy,
        justification: None,
    }
}

#[test]
fn simulated_sandbox_runner_read_command_succeeds_in_read_only_sandbox() {
    let runner = SimulatedSandboxRunner::new();
    let request = request(&["cat", "package.json"], CapabilityKind::SafeRead, SandboxProfile::ReadOnly, NetworkPolicy::Deny);
    let attempt = ExecutionAttempt::SandboxFirst { sandbox_profile: SandboxProfile::ReadOnly };

    let result = runner.run(&request, &attempt);

    match result {
        ExecutionResult::Success { stdout } => {
            assert!(stdout.contains("simulated read success"));
            assert!(stdout.contains("cat package.json"));
        }
        other => panic!("expected simulated success, got {other:?}"),
    }
}

#[test]
fn simulated_sandbox_runner_test_command_failure_is_command_failed_not_sandbox_denied() {
    let runner = SimulatedSandboxRunner::new();
    let request = request(&["npm", "test", "--", "fail"], CapabilityKind::SafeTest, SandboxProfile::WorkspaceWrite, NetworkPolicy::Deny);
    let attempt = ExecutionAttempt::SandboxFirst { sandbox_profile: SandboxProfile::WorkspaceWrite };

    let result = runner.run(&request, &attempt);

    match result {
        ExecutionResult::Failure(ExecutionFailure::CommandFailed { exit_code, stderr }) => {
            assert_eq!(exit_code, 1);
            assert!(stderr.contains("simulated command failed"));
            assert!(stderr.contains("npm test -- fail"));
        }
        other => panic!("expected command failure, got {other:?}"),
    }
}

#[test]
fn simulated_sandbox_runner_install_command_is_sandbox_denied_in_workspace_write_sandbox() {
    let runner = SimulatedSandboxRunner::new();
    let request = request(&["npm", "install", "vite"], CapabilityKind::NetworkInstall, SandboxProfile::WorkspaceWrite, NetworkPolicy::Prompt);
    let attempt = ExecutionAttempt::SandboxFirst { sandbox_profile: SandboxProfile::WorkspaceWrite };

    let result = runner.run(&request, &attempt);

    match result {
        ExecutionResult::Failure(ExecutionFailure::SandboxDenied { output, network_context }) => {
            assert!(output.contains("network access denied by simulated sandbox"));
            assert!(output.contains("npm install vite"));
            assert_eq!(
                network_context,
                Some(NetworkApprovalContext {
                    host: "registry.npmjs.org".to_string(),
                    protocol: "https".to_string(),
                })
            );
        }
        other => panic!("expected sandbox denied, got {other:?}"),
    }
}

#[test]
fn simulated_sandbox_runner_install_command_succeeds_without_sandbox_on_retry() {
    let runner = SimulatedSandboxRunner::new();
    let request = request(&["npm", "install", "vite"], CapabilityKind::NetworkInstall, SandboxProfile::WorkspaceWrite, NetworkPolicy::Prompt);
    let attempt = ExecutionAttempt::NoSandboxRetry { reason: "approved retry outside sandbox".to_string() };

    let result = runner.run(&request, &attempt);

    match result {
        ExecutionResult::Success { stdout } => {
            assert!(stdout.contains("simulated install success without sandbox"));
            assert!(stdout.contains("npm install vite"));
        }
        other => panic!("expected no-sandbox success, got {other:?}"),
    }
}

#[test]
fn simulated_sandbox_runner_unsupported_command_attempt_returns_command_failed() {
    let runner = SimulatedSandboxRunner::new();
    let request = request(&["cargo", "test"], CapabilityKind::SafeTest, SandboxProfile::WorkspaceWrite, NetworkPolicy::Deny);
    let attempt = ExecutionAttempt::SandboxFirst { sandbox_profile: SandboxProfile::WorkspaceWrite };

    let result = runner.run(&request, &attempt);

    match result {
        ExecutionResult::Failure(ExecutionFailure::CommandFailed { exit_code, stderr }) => {
            assert_eq!(exit_code, 127);
            assert!(stderr.contains("unsupported simulated command"));
            assert!(stderr.contains("cargo test"));
            assert!(stderr.contains("sandbox:WorkspaceWrite"));
            assert!(stderr.contains("no SimulatedRule matched argv prefix"));
        }
        other => panic!("expected unsupported command failure, got {other:?}"),
    }
}

#[test]
fn simulated_execution_runner_read_command_succeeds_in_read_only_sandbox() {
    let runner = SimulatedExecutionRunner::new();
    let request = request(&["cat", "package.json"], CapabilityKind::SafeRead, SandboxProfile::ReadOnly, NetworkPolicy::Deny);
    let attempt = ExecutionAttempt::SandboxFirst { sandbox_profile: SandboxProfile::ReadOnly };

    match runner.run(&request, &attempt) {
        ExecutionResult::Success { stdout } => {
            assert!(stdout.contains("simulated read success"));
            assert!(stdout.contains("cat package.json"));
        }
        other => panic!("expected simulated success, got {other:?}"),
    }
}

#[test]
fn simulated_execution_runner_test_command_failure_is_command_failed_not_sandbox_denied() {
    let runner = SimulatedExecutionRunner::new();
    let request = request(&["npm", "test", "--", "fail"], CapabilityKind::SafeTest, SandboxProfile::WorkspaceWrite, NetworkPolicy::Deny);
    let attempt = ExecutionAttempt::SandboxFirst { sandbox_profile: SandboxProfile::WorkspaceWrite };

    match runner.run(&request, &attempt) {
        ExecutionResult::Failure(ExecutionFailure::CommandFailed { exit_code, stderr }) => {
            assert_eq!(exit_code, 1);
            assert!(stderr.contains("simulated command failed"));
        }
        other => panic!("expected command failure, got {other:?}"),
    }
}

#[test]
fn simulated_execution_runner_install_command_is_sandbox_denied_in_workspace_write_sandbox() {
    let runner = SimulatedExecutionRunner::new();
    let request = request(&["npm", "install", "vite"], CapabilityKind::NetworkInstall, SandboxProfile::WorkspaceWrite, NetworkPolicy::Prompt);
    let attempt = ExecutionAttempt::SandboxFirst { sandbox_profile: SandboxProfile::WorkspaceWrite };

    match runner.run(&request, &attempt) {
        ExecutionResult::Failure(ExecutionFailure::SandboxDenied { network_context, .. }) => {
            assert_eq!(
                network_context,
                Some(NetworkApprovalContext {
                    host: "registry.npmjs.org".to_string(),
                    protocol: "https".to_string(),
                })
            );
        }
        other => panic!("expected sandbox denied, got {other:?}"),
    }
}

#[test]
fn simulated_execution_runner_install_command_succeeds_without_sandbox_on_retry() {
    let runner = SimulatedExecutionRunner::new();
    let request = request(&["npm", "install", "vite"], CapabilityKind::NetworkInstall, SandboxProfile::WorkspaceWrite, NetworkPolicy::Prompt);
    let attempt = ExecutionAttempt::NoSandboxRetry { reason: "approved retry outside sandbox".to_string() };

    match runner.run(&request, &attempt) {
        ExecutionResult::Success { stdout } => {
            assert!(stdout.contains("simulated install success without sandbox"));
        }
        other => panic!("expected no-sandbox success, got {other:?}"),
    }
}

#[test]
fn simulated_execution_runner_unsupported_command_attempt_returns_command_failed() {
    let runner = SimulatedExecutionRunner::new();
    let request = request(&["cargo", "test"], CapabilityKind::SafeTest, SandboxProfile::WorkspaceWrite, NetworkPolicy::Deny);
    let attempt = ExecutionAttempt::SandboxFirst { sandbox_profile: SandboxProfile::WorkspaceWrite };

    match runner.run(&request, &attempt) {
        ExecutionResult::Failure(ExecutionFailure::CommandFailed { exit_code, .. }) => {
            assert_eq!(exit_code, 127);
        }
        other => panic!("expected unsupported command failure, got {other:?}"),
    }
}

#[test]
fn simulated_execution_runner_echo_approval_test_succeeds() {
    let runner = SimulatedExecutionRunner::new();
    let request = request(&["echo", "approval-test"], CapabilityKind::SafeRead, SandboxProfile::ReadOnly, NetworkPolicy::Deny);
    let attempt = ExecutionAttempt::SandboxFirst { sandbox_profile: SandboxProfile::ReadOnly };

    match runner.run(&request, &attempt) {
        ExecutionResult::Success { .. } => {}
        other => panic!("expected approval test success, got {other:?}"),
    }
}
