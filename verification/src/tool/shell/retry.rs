//! The retry gate: whether a failed sandboxed attempt may be retried without
//! a sandbox.

use vstd::prelude::*;
use crate::model::approval::{
    ApprovalPersistence, ApprovalPolicy, ApprovalScope, ApprovalScopeModel, NetworkPolicy,
    SandboxProfile,
};
use crate::model::capability::RetryPolicy;
use crate::model::command_request::{CommandRequest, CommandRequestModel};
use crate::model::event::{RetryDecision, RetryDecisionModel};
use crate::model::execution::{
    ExecutionFailure, ExecutionFailureModel, NetworkApprovalContext, NetworkApprovalContextModel,
};
use crate::text::{clone_strings, i64_to_string, int_text};

verus! {

/// The approval scope of an unsandboxed retry: the command's prefix and cwd,
/// no sandbox, the request's network policy, for one execution.
pub open spec fn retry_scope(
    request: CommandRequestModel,
    command_scope: ApprovalScopeModel,
) -> ApprovalScopeModel {
    ApprovalScopeModel {
        command_prefix: command_scope.command_prefix,
        cwd: command_scope.cwd,
        sandbox_profile: SandboxProfile::NoSandbox,
        network_policy: request.network_policy,
        persistence: ApprovalPersistence::Once,
    }
}

/// The retry decision after a sandbox denial with no network target.
pub open spec fn non_network_retry(
    request: CommandRequestModel,
    output: Seq<char>,
    command_scope: ApprovalScopeModel,
) -> RetryDecisionModel {
    RetryDecisionModel::RetryWithApproval {
        reason: "approval required: "@ + output,
        approval_scope: retry_scope(request, command_scope),
    }
}

/// The retry decision after a sandbox denial of a network target.
pub open spec fn network_retry(
    request: CommandRequestModel,
    output: Seq<char>,
    context: NetworkApprovalContextModel,
    command_scope: ApprovalScopeModel,
) -> RetryDecisionModel {
    match request.network_policy {
        NetworkPolicy::Deny => RetryDecisionModel::DoNotRetry {
            reason: "network denied: "@ + output + " for network context "@ + context.debug_text(),
        },
        NetworkPolicy::Prompt => match request.approval_policy {
            ApprovalPolicy::OnFailure => RetryDecisionModel::RetryWithApproval {
                reason: "network prompt: "@ + output + " for network context "@
                    + context.debug_text(),
                approval_scope: retry_scope(request, command_scope),
            },
            _ => RetryDecisionModel::DoNotRetry {
                reason: "network prompt requires approval, but approval policy does not allow on-failure approval: "@
                    + output,
            },
        },
        NetworkPolicy::Allow => RetryDecisionModel::RetryWithoutApproval {
            reason: "network allowed: "@ + output + " for network context "@ + context.debug_text(),
        },
    }
}

/// The retry decision for a failure.
pub open spec fn retry_decision_for(
    request: CommandRequestModel,
    failure: ExecutionFailureModel,
    command_scope: ApprovalScopeModel,
    retry_policy: RetryPolicy,
    already_retried: bool,
) -> RetryDecisionModel {
    if already_retried {
        RetryDecisionModel::DoNotRetry {
            reason: "already retried, last failure was "@ + failure.debug_text(),
        }
    } else {
        match failure {
            ExecutionFailureModel::CommandFailed { exit_code, stderr } => RetryDecisionModel::DoNotRetry {
                reason: "command failed with exit code "@ + int_text(exit_code as int) + ": "@
                    + stderr,
            },
            ExecutionFailureModel::SandboxDenied { output, network_context } => match retry_policy {
                RetryPolicy::Never => RetryDecisionModel::DoNotRetry {
                    reason: "sandbox denied: "@ + output + " and retry policy is never"@,
                },
                RetryPolicy::WithApproval => match request.approval_policy {
                    ApprovalPolicy::Never => RetryDecisionModel::DoNotRetry {
                        reason: "approval policy is never, so it is not allowed to retry: "@
                            + output,
                    },
                    ApprovalPolicy::OnRequest => RetryDecisionModel::DoNotRetry {
                        reason: "approval policy is on-request; sandbox failure cannot trigger automatic retry approval: "@
                            + output,
                    },
                    ApprovalPolicy::OnFailure => match network_context {
                        Some(c) => network_retry(request, output, c, command_scope),
                        None => non_network_retry(request, output, command_scope),
                    },
                },
                RetryPolicy::WithoutApproval => match network_context {
                    Some(c) => network_retry(request, output, c, command_scope),
                    None => RetryDecisionModel::RetryWithoutApproval {
                        reason: "sandbox denied: "@ + output
                            + " but retry policy is without approval, so retry directly"@,
                    },
                },
            },
        }
    }
}

/// Decides whether a failed sandboxed attempt may be retried without a sandbox.
///
/// The retry gate only runs after a sandboxed first attempt failed. It tells a
/// failure of the command itself (fed back to the model) from a sandbox or
/// network denial (which alone may lead to an escalated retry).
pub fn decide_retry(
    request: &CommandRequest,
    failure: &ExecutionFailure,
    command_scope: &ApprovalScope,
    retry_policy: RetryPolicy,
    already_retried: bool,
) -> (r: RetryDecision)
    ensures
        r@ == retry_decision_for(request@, failure@, command_scope@, retry_policy, already_retried),
        // There is at most one retry.
        already_retried ==> r is DoNotRetry,
        // A failure of the command itself is never retried.
        failure is CommandFailed ==> r is DoNotRetry,
        // A capability that may not be retried is not, whatever the network policy.
        retry_policy == RetryPolicy::Never ==> r is DoNotRetry,
        // A denied network target is never retried.
        (request.network_policy == NetworkPolicy::Deny && (failure matches ExecutionFailure::SandboxDenied {
            network_context: Some(_),
            ..
        })) ==> r is DoNotRetry,
        // Only the on-failure policy may ask the user after a sandbox failure.
        request.approval_policy != ApprovalPolicy::OnFailure ==> !(r is RetryWithApproval),
        // A retry approval is always for one unsandboxed execution of the same
        // prefix and cwd, under the request's network policy.
        r matches RetryDecision::RetryWithApproval { approval_scope, .. } ==> approval_scope@
            == retry_scope(request@, command_scope@),
{
    if already_retried {
        let mut reason = "already retried, last failure was ".to_string();
        reason.append(failure.debug_string().as_str());
        return RetryDecision::DoNotRetry { reason };
    }
    match failure {
        ExecutionFailure::CommandFailed { exit_code, stderr } => {
            let mut reason = "command failed with exit code ".to_string();
            reason.append(i64_to_string(*exit_code as i64).as_str());
            reason.append(": ");
            reason.append(stderr.as_str());
            RetryDecision::DoNotRetry { reason }
        },
        ExecutionFailure::SandboxDenied { output, network_context } => match retry_policy {
            RetryPolicy::Never => {
                let mut reason = "sandbox denied: ".to_string();
                reason.append(output.as_str());
                reason.append(" and retry policy is never");
                RetryDecision::DoNotRetry { reason }
            },
            RetryPolicy::WithApproval => match request.approval_policy {
                ApprovalPolicy::Never => {
                    let mut reason =
                        "approval policy is never, so it is not allowed to retry: ".to_string();
                    reason.append(output.as_str());
                    RetryDecision::DoNotRetry { reason }
                },
                ApprovalPolicy::OnRequest => {
                    let mut reason =
                        "approval policy is on-request; sandbox failure cannot trigger automatic retry approval: ".to_string();
                    reason.append(output.as_str());
                    RetryDecision::DoNotRetry { reason }
                },
                ApprovalPolicy::OnFailure => match network_context {
                    Some(c) => decide_network_retry(request, output.as_str(), c, command_scope),
                    None => decide_non_network_sandbox_retry(
                        request,
                        output.as_str(),
                        command_scope,
                    ),
                },
            },
            RetryPolicy::WithoutApproval => match network_context {
                Some(c) => decide_network_retry(request, output.as_str(), c, command_scope),
                None => {
                    let mut reason = "sandbox denied: ".to_string();
                    reason.append(output.as_str());
                    reason.append(" but retry policy is without approval, so retry directly");
                    RetryDecision::RetryWithoutApproval { reason }
                },
            },
        },
    }
}

fn retry_approval_scope(request: &CommandRequest, command_scope: &ApprovalScope) -> (r:
    ApprovalScope)
    ensures
        r@ == retry_scope(request@, command_scope@),
{
    ApprovalScope {
        command_prefix: clone_strings(&command_scope.command_prefix),
        cwd: command_scope.cwd.clone(),
        sandbox_profile: SandboxProfile::NoSandbox,
        network_policy: request.network_policy,
        persistence: ApprovalPersistence::Once,
    }
}

fn decide_non_network_sandbox_retry(
    request: &CommandRequest,
    output: &str,
    command_scope: &ApprovalScope,
) -> (r: RetryDecision)
    ensures
        r@ == non_network_retry(request@, output@, command_scope@),
{
    let mut reason = "approval required: ".to_string();
    reason.append(output);
    RetryDecision::RetryWithApproval {
        reason,
        approval_scope: retry_approval_scope(request, command_scope),
    }
}

fn decide_network_retry(
    request: &CommandRequest,
    output: &str,
    network_context: &NetworkApprovalContext,
    command_scope: &ApprovalScope,
) -> (r: RetryDecision)
    ensures
        r@ == network_retry(request@, output@, network_context@, command_scope@),
{
    match request.network_policy {
        NetworkPolicy::Deny => {
            let mut reason = "network denied: ".to_string();
            reason.append(output);
            reason.append(" for network context ");
            reason.append(network_context.debug_string().as_str());
            RetryDecision::DoNotRetry { reason }
        },
        NetworkPolicy::Prompt => match request.approval_policy {
            ApprovalPolicy::OnFailure => {
                let mut reason = "network prompt: ".to_string();
                reason.append(output);
                reason.append(" for network context ");
                reason.append(network_context.debug_string().as_str());
                RetryDecision::RetryWithApproval {
                    reason,
                    approval_scope: retry_approval_scope(request, command_scope),
                }
            },
            ApprovalPolicy::Never | ApprovalPolicy::OnRequest => {
                let mut reason =
                    "network prompt requires approval, but approval policy does not allow on-failure approval: ".to_string();
                reason.append(output);
                RetryDecision::DoNotRetry { reason }
            },
        },
        NetworkPolicy::Allow => {
            let mut reason = "network allowed: ".to_string();
            reason.append(output);
            reason.append(" for network context ");
            reason.append(network_context.debug_string().as_str());
            RetryDecision::RetryWithoutApproval { reason }
        },
    }
}

} // verus!
