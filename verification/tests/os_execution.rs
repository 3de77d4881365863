use codex_mini_demo::model::approval::{ApprovalPolicy, NetworkPolicy, SandboxProfile};
use codex_mini_demo::model::capability::CapabilityKind;
use codex_mini_demo::model::command_request::CommandRequest;
use codex_mini_demo::model::event::ExecutionAttempt;
use codex_mini_demo::model::execution::{ExecutionFailure, ExecutionResult};
use codex_mini_demo::tool::shell::execution::os_execution_runner::{
    classify_failed_output, looks_like_sandbox_denied, map_output, read_only_profile,
    sandbox_exec_profile, sandbox_scheme_string, workspace_write_profile, OsExecutionRunner,
    ProcessOutcome, SandboxBackend,
};

fn request(argv: &[&str]) -> CommandRequest {
    CommandRequest {
        raw_command: argv.join(" "),
        argv: argv.iter().map(|s| s.to_string()).collect(),
        cwd: "/workspace".to_string(),
        capability: CapabilityKind::SafeRead,
        approval_policy: ApprovalPolicy::OnRequest,
        sandbox_profile: SandboxProfile::ReadOnly,
        network_policy: NetworkPolicy::Deny,
        justification: None,
    }
}

#[test]
fn sandbox_scheme_string_should_escape_path_literals() {
    assert_eq!(
        sandbox_scheme_string(r#"/tmp/demo "quote" \ path"#),
        r#"/tmp/demo \"quote\" \\ path"#
    );
}

#[test]
fn sandbox_scheme_string_escapes_control_characters() {
    assert_eq!(sandbox_scheme_string("a\nb\rc\td"), "a\\nb\\rc\\td");
}

#[test]
fn profiles_allow_reads_and_only_workspace_writes() {
    assert_eq!(
        read_only_profile(),
        "\n(version 1)\n(deny default)\n(allow process*)\n(allow file-read*)\n"
    );
    assert_eq!(
        workspace_write_profile("/work \"x\""),
        "\n(version 1)\n(deny default)\n(allow process*)\n(allow file-read*)\n(allow file-write* (subpath \"/work \\\"x\\\"\"))\n"
    );
    assert_eq!(sandbox_exec_profile(SandboxProfile::ReadOnly, "/w"), read_only_profile());
    assert_eq!(
        sandbox_exec_profile(SandboxProfile::WorkspaceWrite, "/w"),
        workspace_write_profile("/w")
    );
}

#[test]
fn sandbox_denials_are_recognised_in_any_case() {
    assert!(looks_like_sandbox_denied("touch: Operation NOT permitted"));
    assert!(looks_like_sandbox_denied("DENY file-write"));
    assert!(looks_like_sandbox_denied("Sandbox: blocked"));
    assert!(!looks_like_sandbox_denied("test failed"));
}

#[test]
fn failed_output_is_a_denial_only_in_a_sandbox() {
    let sandboxed = ExecutionAttempt::SandboxFirst { sandbox_profile: SandboxProfile::ReadOnly };
    let direct = ExecutionAttempt::NoSandboxRetry { reason: "retry".to_string() };
    assert_eq!(
        classify_failed_output(&sandboxed, 1, "out".to_string(), "operation not permitted".to_string()),
        ExecutionResult::Failure(ExecutionFailure::SandboxDenied {
            output: "out\noperation not permitted".to_string(),
            network_context: None,
        })
    );
    assert_eq!(
        classify_failed_output(&direct, 1, "out".to_string(), "operation not permitted".to_string()),
        ExecutionResult::Failure(ExecutionFailure::CommandFailed {
            exit_code: 1,
            stderr: "out\noperation not permitted".to_string(),
        })
    );
}

#[test]
fn map_output_maps_spawn_failures_successes_and_missing_codes() {
    let attempt = ExecutionAttempt::NoSandboxFirst { reason: "bypass".to_string() };
    assert_eq!(
        map_output(&attempt, ProcessOutcome::SpawnFailed("no such file".to_string())),
        ExecutionResult::Failure(ExecutionFailure::CommandFailed {
            exit_code: 127,
            stderr: "no such file".to_string(),
        })
    );
    assert_eq!(
        map_output(
            &attempt,
            ProcessOutcome::Exited {
                success: true,
                code: Some(0),
                stdout: "ok".to_string(),
                stderr: String::new(),
            }
        ),
        ExecutionResult::Success { stdout: "ok".to_string() }
    );
    assert_eq!(
        map_output(
            &attempt,
            ProcessOutcome::Exited {
                success: false,
                code: None,
                stdout: "a".to_string(),
                stderr: "b".to_string(),
            }
        ),
        ExecutionResult::Failure(ExecutionFailure::CommandFailed {
            exit_code: 1,
            stderr: "a\nb".to_string(),
        })
    );
}

#[test]
fn invocations_wrap_sandboxed_attempts_in_sandbox_exec() {
    let runner = OsExecutionRunner::new(SandboxBackend::MacosSandboxExec);
    let req = request(&["cat", "a.txt"]);

    let sandboxed = runner
        .invocation(&req, &ExecutionAttempt::SandboxFirst { sandbox_profile: SandboxProfile::ReadOnly }, "/workspace")
        .expect("sandboxed invocation");
    assert_eq!(sandboxed.program, "/usr/bin/sandbox-exec");
    assert_eq!(
        sandboxed.args,
        vec!["-p".to_string(), read_only_profile(), "cat".to_string(), "a.txt".to_string()]
    );
    assert_eq!(sandboxed.cwd, "/workspace");

    let direct = runner
        .invocation(&req, &ExecutionAttempt::NoSandboxRetry { reason: "r".to_string() }, "/workspace")
        .expect("direct invocation");
    assert_eq!(direct.program, "cat");
    assert_eq!(direct.args, vec!["a.txt".to_string()]);
}

#[test]
fn sandbox_first_with_no_sandbox_profile_should_fail_closed() {
    let runner = OsExecutionRunner::new(SandboxBackend::MacosSandboxExec);
    let req = request(&["cat", "a.txt"]);
    match runner.invocation(
        &req,
        &ExecutionAttempt::SandboxFirst { sandbox_profile: SandboxProfile::NoSandbox },
        "/workspace",
    ) {
        Err(e) => assert_eq!(e, "SandboxFirst cannot run with SandboxProfile::NoSandbox"),
        Ok(_) => panic!("a sandboxed attempt without a sandbox must not start"),
    }
    match runner.invocation(&request(&[]), &ExecutionAttempt::NoSandboxFirst { reason: "r".to_string() }, "/w") {
        Err(e) => assert_eq!(e, "empty argv"),
        Ok(_) => panic!("an empty command must not start"),
    }
}

#[test]
fn it_works() {
    assert_eq!(2 + 2, 4);
}
