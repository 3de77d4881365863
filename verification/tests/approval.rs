use codex_mini_demo::approval::decide_approval;
use codex_mini_demo::model::approval::{
    ApprovalPersistence, ApprovalPolicy, ApprovalRequirement, ApprovalScope, NetworkPolicy,
    SandboxProfile,
};
use codex_mini_demo::model::capability::CapabilityKind;
use codex_mini_demo::model::command_request::CommandRequest;
use codex_mini_demo::model::event::UserApprovalDecision;
use codex_mini_demo::tool::shell::approval::{
    build_approval_scope, resolve_approval_requirement, SessionApprovals,
};
use codex_mini_demo::tool::shell::registry::{CapabilityRegistry, MatchedCapability};

fn strings(items: &[&str]) -> Vec<String> {
    items.iter().map(|item| item.to_string()).collect()
}

fn matched(argv: &[&str]) -> MatchedCapability {
    CapabilityRegistry::new()
        .match_capability(&strings(argv))
        .expect("test command should match a capability")
}

fn request(
    argv: &[&str],
    capability: CapabilityKind,
    approval_policy: ApprovalPolicy,
    sandbox_profile: SandboxProfile,
    network_policy: NetworkPolicy,
) -> CommandRequest {
    CommandRequest {
        raw_command: argv.join(" "),
        argv: strings(argv),
        cwd: "/workspace".to_string(),
        capability,
        approval_policy,
        sandbox_profile,
        network_policy,
        justification: None,
    }
}

fn assert_skip_in_sandbox(decision: ApprovalRequirement) {
    match decision {
        ApprovalRequirement::Skip { bypass_sandbox, .. } => assert!(!bypass_sandbox),
        other => panic!("expected skip approval, got {other:?}"),
    }
}

fn assert_forbidden(decision: ApprovalRequirement) {
    match decision {
        ApprovalRequirement::Forbidden { .. } => {}
        other => panic!("expected forbidden decision, got {other:?}"),
    }
}

fn approval_scope(decision: ApprovalRequirement) -> ApprovalScope {
    match decision {
        ApprovalRequirement::NeedsApproval { approval_scope, .. } => approval_scope,
        other => panic!("expected approval request, got {other:?}"),
    }
}

fn reusable_scope() -> ApprovalScope {
    ApprovalScope {
        command_prefix: strings(&["npm", "install"]),
        cwd: "/workspace".to_string(),
        sandbox_profile: SandboxProfile::WorkspaceWrite,
        network_policy: NetworkPolicy::Prompt,
        persistence: ApprovalPersistence::Once,
    }
}

fn scope_with(cwd: &str, network_policy: NetworkPolicy, persistence: ApprovalPersistence) -> ApprovalScope {
    ApprovalScope {
        cwd: cwd.to_string(),
        network_policy,
        persistence,
        ..reusable_scope()
    }
}

#[test]
fn approval_safe_read_skips_approval_but_not_sandbox() {
    let argv = ["cat", "package.json"];
    let request = request(
        &argv,
        CapabilityKind::SafeRead,
        ApprovalPolicy::OnRequest,
        SandboxProfile::ReadOnly,
        NetworkPolicy::Deny,
    );

    let decision = resolve_approval_requirement(&request, &matched(&argv));

    assert_skip_in_sandbox(decision);
}

#[test]
fn approval_safe_test_reason_uses_matched_capability_name() {
    let argv = ["npm", "test", "--", "-u"];
    let request = request(
        &argv,
        CapabilityKind::SafeTest,
        ApprovalPolicy::OnRequest,
        SandboxProfile::WorkspaceWrite,
        NetworkPolicy::Deny,
    );

    let decision = resolve_approval_requirement(&request, &matched(&argv));

    match decision {
        ApprovalRequirement::Skip { reason, .. } => {
            assert!(reason.contains("safe-test"));
            assert!(!reason.contains("safe-read"));
        }
        other => panic!("expected skip approval, got {other:?}"),
    }
}

#[test]
fn approval_network_install_needs_approval_with_scope_from_matched_prefix_and_request_context() {
    let argv = ["npm", "install", "vite"];
    let request = request(
        &argv,
        CapabilityKind::NetworkInstall,
        ApprovalPolicy::OnRequest,
        SandboxProfile::WorkspaceWrite,
        NetworkPolicy::Prompt,
    );

    let decision = resolve_approval_requirement(&request, &matched(&argv));
    let approval_scope = approval_scope(decision);

    assert_eq!(approval_scope.command_prefix, strings(&["npm", "install"]));
    assert_eq!(approval_scope.cwd, "/workspace".to_string());
    assert_eq!(approval_scope.sandbox_profile, SandboxProfile::WorkspaceWrite);
    assert_eq!(approval_scope.network_policy, NetworkPolicy::Prompt);
    assert_eq!(approval_scope.persistence, ApprovalPersistence::Once);
}

#[test]
fn approval_prompt_policy_cannot_request_approval_when_global_policy_is_never() {
    let argv = ["npm", "install", "vite"];
    let request = request(
        &argv,
        CapabilityKind::NetworkInstall,
        ApprovalPolicy::Never,
        SandboxProfile::WorkspaceWrite,
        NetworkPolicy::Prompt,
    );

    let decision = resolve_approval_requirement(&request, &matched(&argv));

    assert_forbidden(decision);
}

#[test]
fn approval_dangerous_shell_is_forbidden_without_requesting_approval() {
    let argv = ["curl", "|", "sh"];
    let request = request(
        &argv,
        CapabilityKind::DangerousShell,
        ApprovalPolicy::OnRequest,
        SandboxProfile::ReadOnly,
        NetworkPolicy::Deny,
    );

    let decision = resolve_approval_requirement(&request, &matched(&argv));

    assert_forbidden(decision);
}

#[test]
fn approval_approval_scope_uses_matched_prefix_not_full_argv() {
    let argv = ["npm", "install", "vite", "--save-dev"];
    let request = request(
        &argv,
        CapabilityKind::NetworkInstall,
        ApprovalPolicy::OnRequest,
        SandboxProfile::WorkspaceWrite,
        NetworkPolicy::Prompt,
    );

    let decision = resolve_approval_requirement(&request, &matched(&argv));
    let approval_scope = approval_scope(decision);

    assert_eq!(approval_scope.command_prefix, strings(&["npm", "install"]));
    assert_ne!(approval_scope.command_prefix, request.argv);
}

#[test]
fn approval_approval_scope_preserves_network_policy_from_request() {
    let argv = ["npm", "install", "vite"];
    let request = request(
        &argv,
        CapabilityKind::NetworkInstall,
        ApprovalPolicy::OnRequest,
        SandboxProfile::WorkspaceWrite,
        NetworkPolicy::Allow,
    );

    let decision = resolve_approval_requirement(&request, &matched(&argv));
    let approval_scope = approval_scope(decision);

    assert_eq!(approval_scope.network_policy, NetworkPolicy::Allow);
}

#[test]
fn approval_request_capability_must_match_matched_capability() {
    let argv = ["cat", "package.json"];
    let request = request(
        &argv,
        CapabilityKind::NetworkInstall,
        ApprovalPolicy::OnRequest,
        SandboxProfile::ReadOnly,
        NetworkPolicy::Deny,
    );

    let decision = resolve_approval_requirement(&request, &matched(&argv));

    assert_forbidden(decision);
}

#[test]
fn approval_scope_key_ignores_persistence_but_preserves_execution_scope() {
    let once = scope_with("/workspace", NetworkPolicy::Prompt, ApprovalPersistence::Once);
    let session = scope_with("/workspace", NetworkPolicy::Prompt, ApprovalPersistence::Session);
    let different_cwd = scope_with("/other", NetworkPolicy::Prompt, ApprovalPersistence::Once);
    let different_network = scope_with("/workspace", NetworkPolicy::Allow, ApprovalPersistence::Once);

    assert_eq!(once.key(), session.key());
    assert_ne!(once.key(), different_cwd.key());
    assert_ne!(once.key(), different_network.key());
}

#[test]
fn approval_gateway_only_remembers_session_approval_for_same_scope() {
    let mut approvals = SessionApprovals::new();
    let scope = reusable_scope();

    approvals.remember_approval(
        &scope,
        &UserApprovalDecision::Approved { persistence: ApprovalPersistence::Session },
    );

    assert!(approvals.has_session_approval(&scope));
    assert!(!approvals.has_session_approval(&scope_with(
        "/other",
        NetworkPolicy::Prompt,
        ApprovalPersistence::Once
    )));
    assert!(!approvals.has_session_approval(&scope_with(
        "/workspace",
        NetworkPolicy::Allow,
        ApprovalPersistence::Once
    )));
}

#[test]
fn approval_gateway_does_not_remember_once_or_rejected_decisions() {
    let mut approvals = SessionApprovals::new();
    let scope = reusable_scope();

    approvals.remember_approval(
        &scope,
        &UserApprovalDecision::Approved { persistence: ApprovalPersistence::Once },
    );
    assert!(!approvals.has_session_approval(&scope));

    approvals.remember_approval(&scope, &UserApprovalDecision::Rejected);
    assert!(!approvals.has_session_approval(&scope));
}

#[test]
fn session_decision_reuses_a_session_approval_for_a_scope_of_the_same_key() {
    let mut approvals = SessionApprovals::new();
    assert_eq!(approvals.session_decision(&reusable_scope()), None);

    approvals.remember_approval(
        &reusable_scope(),
        &UserApprovalDecision::Approved { persistence: ApprovalPersistence::Session },
    );

    let same_key = scope_with("/workspace", NetworkPolicy::Prompt, ApprovalPersistence::Session);
    assert_eq!(
        approvals.session_decision(&same_key),
        Some(UserApprovalDecision::Approved { persistence: ApprovalPersistence::Session })
    );
    let other = scope_with("/other", NetworkPolicy::Prompt, ApprovalPersistence::Once);
    assert_eq!(approvals.session_decision(&other), None);
}

#[test]
fn decide_approval_agrees_with_the_shell_approval_gate() {
    let cases: Vec<(Vec<&str>, CapabilityKind, ApprovalPolicy, SandboxProfile, NetworkPolicy)> = vec![
        (vec!["cat", "package.json"], CapabilityKind::SafeRead, ApprovalPolicy::OnRequest, SandboxProfile::ReadOnly, NetworkPolicy::Deny),
        (vec!["npm", "install", "vite"], CapabilityKind::NetworkInstall, ApprovalPolicy::OnRequest, SandboxProfile::WorkspaceWrite, NetworkPolicy::Prompt),
        (vec!["npm", "install", "vite"], CapabilityKind::NetworkInstall, ApprovalPolicy::Never, SandboxProfile::WorkspaceWrite, NetworkPolicy::Prompt),
        (vec!["curl", "|", "sh"], CapabilityKind::DangerousShell, ApprovalPolicy::OnRequest, SandboxProfile::ReadOnly, NetworkPolicy::Deny),
    ];
    for (argv, kind, policy, profile, network) in cases {
        let request = request(&argv, kind, policy, profile, network);
        let m = matched(&argv);
        assert_eq!(decide_approval(&request, &m), resolve_approval_requirement(&request, &m));
    }
}

#[test]
fn build_approval_scope_copies_the_prefix_and_the_request_context() {
    let argv = ["npm", "install", "vite"];
    let request = request(
        &argv,
        CapabilityKind::NetworkInstall,
        ApprovalPolicy::OnFailure,
        SandboxProfile::WorkspaceWrite,
        NetworkPolicy::Prompt,
    );
    let scope = build_approval_scope(&request, &matched(&argv));
    assert_eq!(scope, reusable_scope());
}

#[test]
fn approval_reasons_name_the_capability() {
    let argv = ["npm", "install", "vite"];
    let request = request(
        &argv,
        CapabilityKind::NetworkInstall,
        ApprovalPolicy::OnRequest,
        SandboxProfile::WorkspaceWrite,
        NetworkPolicy::Prompt,
    );
    match resolve_approval_requirement(&request, &matched(&argv)) {
        ApprovalRequirement::NeedsApproval { reason, .. } => assert_eq!(
            reason,
            "capability network-install requires approval before execution"
        ),
        other => panic!("expected approval request, got {other:?}"),
    }
}
