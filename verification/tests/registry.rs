use codex_mini_demo::model::approval::{NetworkPolicy, SandboxProfile};
use codex_mini_demo::model::capability::{CapabilityKind, DefaultDecision, RetryPolicy};
use codex_mini_demo::tool::shell::registry::CapabilityRegistry;
use codex_mini_demo::util::args_has_prefix;

#[test]
fn builtin_capabilities_should_contains_all_kinds_of_capabilities() {
    let registry = CapabilityRegistry::new();
    let capabilities = registry.load_builtin_capabilities();
    assert!(capabilities.len() >= 4);
    assert!(capabilities.iter().any(|c| c.kind == CapabilityKind::SafeRead
        && c.policy.default_decision == DefaultDecision::Allow
        && c.policy.first_attempt_sandbox == SandboxProfile::ReadOnly
        && c.policy.network_policy == NetworkPolicy::Deny
        && c.policy.retry_policy == RetryPolicy::Never));
    assert!(capabilities.iter().any(|c| c.kind == CapabilityKind::SafeTest
        && c.policy.default_decision == DefaultDecision::Allow
        && c.policy.first_attempt_sandbox == SandboxProfile::WorkspaceWrite
        && c.policy.network_policy == NetworkPolicy::Deny
        && c.policy.retry_policy == RetryPolicy::WithApproval));
    assert!(capabilities.iter().any(|c| c.kind == CapabilityKind::NetworkInstall
        && c.policy.default_decision == DefaultDecision::Prompt
        && c.policy.first_attempt_sandbox == SandboxProfile::WorkspaceWrite
        && c.policy.network_policy == NetworkPolicy::Prompt
        && c.policy.retry_policy == RetryPolicy::WithApproval));
    assert!(capabilities.iter().any(|c| c.kind == CapabilityKind::DangerousShell
        && c.policy.default_decision == DefaultDecision::Forbidden
        && c.policy.first_attempt_sandbox == SandboxProfile::ReadOnly
        && c.policy.network_policy == NetworkPolicy::Deny
        && c.policy.retry_policy == RetryPolicy::Never));
}

#[test]
fn match_capability_should_work() {
    let test_cases = vec![
        (vec!["cat", "package.json"], Some(CapabilityKind::SafeRead)),
        (vec!["npm", "test", "--", "-u"], Some(CapabilityKind::SafeTest)),
        (vec!["npm", "install", "vite"], Some(CapabilityKind::NetworkInstall)),
        (vec!["unknown"], None),
    ];

    let registry = CapabilityRegistry::new();
    for (argv, expected_kind) in test_cases {
        let argv: Vec<String> = argv.into_iter().map(|s| s.to_string()).collect();
        let capability = registry.match_capability(&argv);
        assert_eq!(capability.map(|c| c.capability.kind), expected_kind);
    }
}

#[test]
fn match_capability_returns_the_first_matching_prefix() {
    let registry = CapabilityRegistry::new();
    let argv: Vec<String> = vec!["npm".to_string(), "install".to_string(), "vite".to_string()];
    let matched = registry.match_capability(&argv).expect("npm install matches");
    assert_eq!(matched.command_prefix, vec!["npm".to_string(), "install".to_string()]);
}

#[test]
fn registered_capabilities_come_after_the_builtin_ones() {
    let mut registry = CapabilityRegistry::new();
    let mut extra = registry.load_builtin_capabilities()[0].clone();
    extra.name = "extra".to_string();
    registry.register(extra);
    let all = registry.all_capabilities();
    assert_eq!(all.len(), registry.load_builtin_capabilities().len() + 1);
    assert_eq!(all[all.len() - 1].name, "extra".to_string());
}

#[test]
fn args_has_prefix_compares_whole_words() {
    let argv: Vec<String> = vec!["npm".to_string(), "install".to_string()];
    assert!(args_has_prefix(&argv, &["npm".to_string()]));
    assert!(args_has_prefix(&argv, &[]));
    assert!(!args_has_prefix(&argv, &["np".to_string()]));
    assert!(!args_has_prefix(&["npm".to_string()], &argv));
}
