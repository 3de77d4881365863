//! Agent status, user decisions, execution attempts and retry decisions.

use vstd::prelude::*;
use crate::model::approval::{ApprovalPersistence, ApprovalScope, ApprovalScopeModel, SandboxProfile};
use crate::text::{debug_str, str_debug};

verus! {

/// High-level events of an agent run.
#[derive(Debug, Clone, PartialEq, Eq, Hash)]
pub enum AgentEvent {
    /// The agent started.
    AgentStarted { session_id: String, cwd: String },
}

/// How an agent run ended.
#[derive(Debug, Clone, Copy, PartialEq, Eq, Hash, Structural)]
pub enum AgentStatus {
    Success,
    Failed,
    Cancelled,
}

/// What the user answered to an approval request.
#[derive(Debug, Clone, Copy, PartialEq, Eq, Hash, Structural)]
pub enum UserApprovalDecision {
    /// Approved, for the given lifetime.
    Approved { persistence: ApprovalPersistence },
    /// Rejected.
    Rejected,
}

/// One attempt to execute a command.
///
/// A request may go through a sandboxed first attempt and an unsandboxed
/// retry; the runner is told which attempt it is running.
#[derive(Debug, Clone, PartialEq, Eq, Hash)]
pub enum ExecutionAttempt {
    /// First attempt, inside a sandbox.
    SandboxFirst { sandbox_profile: SandboxProfile },
    /// First attempt, without a sandbox.
    NoSandboxFirst { reason: String },
    /// Retry without a sandbox.
    NoSandboxRetry { reason: String },
}

/// Whether a failed sandboxed attempt may be retried.
///
/// This second gate only decides whether a second attempt is allowed; it runs
/// nothing and changes no approval policy.
#[derive(Debug, Clone, PartialEq, Eq, Hash)]
pub enum RetryDecision {
    /// Do not retry.
    DoNotRetry { reason: String },
    /// Retry without asking.
    RetryWithoutApproval { reason: String },
    /// Retry after the user approves the given scope.
    RetryWithApproval { reason: String, approval_scope: ApprovalScope },
}

/// The mathematical value of an [`ExecutionAttempt`].
pub enum ExecutionAttemptModel {
    SandboxFirst { sandbox_profile: SandboxProfile },
    NoSandboxFirst { reason: Seq<char> },
    NoSandboxRetry { reason: Seq<char> },
}

/// The mathematical value of a [`RetryDecision`].
pub enum RetryDecisionModel {
    DoNotRetry { reason: Seq<char> },
    RetryWithoutApproval { reason: Seq<char> },
    RetryWithApproval { reason: Seq<char>, approval_scope: ApprovalScopeModel },
}

impl View for ExecutionAttempt {
    type V = ExecutionAttemptModel;

    open spec fn view(&self) -> ExecutionAttemptModel {
        match self {
            ExecutionAttempt::SandboxFirst { sandbox_profile } =>
                ExecutionAttemptModel::SandboxFirst { sandbox_profile: *sandbox_profile },
            ExecutionAttempt::NoSandboxFirst { reason } => ExecutionAttemptModel::NoSandboxFirst {
                reason: reason@,
            },
            ExecutionAttempt::NoSandboxRetry { reason } => ExecutionAttemptModel::NoSandboxRetry {
                reason: reason@,
            },
        }
    }
}

impl View for RetryDecision {
    type V = RetryDecisionModel;

    open spec fn view(&self) -> RetryDecisionModel {
        match self {
            RetryDecision::DoNotRetry { reason } => RetryDecisionModel::DoNotRetry {
                reason: reason@,
            },
            RetryDecision::RetryWithoutApproval { reason } =>
                RetryDecisionModel::RetryWithoutApproval { reason: reason@ },
            RetryDecision::RetryWithApproval { reason, approval_scope } =>
                RetryDecisionModel::RetryWithApproval {
                reason: reason@,
                approval_scope: approval_scope@,
            },
        }
    }
}

impl ExecutionAttemptModel {
    /// How `Debug` writes the attempt.
    pub open spec fn debug_text(self) -> Seq<char> {
        match self {
            ExecutionAttemptModel::SandboxFirst { sandbox_profile } =>
                "SandboxFirst { sandbox_profile: "@ + sandbox_profile.debug_text() + " }"@,
            ExecutionAttemptModel::NoSandboxFirst { reason } => "NoSandboxFirst { reason: "@
                + str_debug(reason) + " }"@,
            ExecutionAttemptModel::NoSandboxRetry { reason } => "NoSandboxRetry { reason: "@
                + str_debug(reason) + " }"@,
        }
    }
}

impl RetryDecisionModel {
    /// How `Debug` writes the decision.
    pub open spec fn debug_text(self) -> Seq<char> {
        match self {
            RetryDecisionModel::DoNotRetry { reason } => "DoNotRetry { reason: "@ + str_debug(
                reason,
            ) + " }"@,
            RetryDecisionModel::RetryWithoutApproval { reason } =>
                "RetryWithoutApproval { reason: "@ + str_debug(reason) + " }"@,
            RetryDecisionModel::RetryWithApproval { reason, approval_scope } =>
                "RetryWithApproval { reason: "@ + str_debug(reason) + ", approval_scope: "@
                + approval_scope.debug_text() + " }"@,
        }
    }
}

impl ExecutionAttempt {
    /// The `Debug` text of the attempt.
    pub fn debug_string(&self) -> (r: String)
        ensures
            r@ == self@.debug_text(),
    {
        match self {
            ExecutionAttempt::SandboxFirst { sandbox_profile } => {
                let mut r = "SandboxFirst { sandbox_profile: ".to_string();
                r.append(sandbox_profile.debug_string().as_str());
                r.append(" }");
                r
            },
            ExecutionAttempt::NoSandboxFirst { reason } => {
                let mut r = "NoSandboxFirst { reason: ".to_string();
                r.append(debug_str(reason.as_str()).as_str());
                r.append(" }");
                r
            },
            ExecutionAttempt::NoSandboxRetry { reason } => {
                let mut r = "NoSandboxRetry { reason: ".to_string();
                r.append(debug_str(reason.as_str()).as_str());
                r.append(" }");
                r
            },
        }
    }

    /// A copy of the attempt.
    pub fn duplicate(&self) -> (r: ExecutionAttempt)
        ensures
            r@ == self@,
    {
        match self {
            ExecutionAttempt::SandboxFirst { sandbox_profile } => ExecutionAttempt::SandboxFirst {
                sandbox_profile: *sandbox_profile,
            },
            ExecutionAttempt::NoSandboxFirst { reason } => ExecutionAttempt::NoSandboxFirst {
                reason: reason.clone(),
            },
            ExecutionAttempt::NoSandboxRetry { reason } => ExecutionAttempt::NoSandboxRetry {
                reason: reason.clone(),
            },
        }
    }
}

impl RetryDecision {
    /// The `Debug` text of the decision.
    pub fn debug_string(&self) -> (r: String)
        ensures
            r@ == self@.debug_text(),
    {
        match self {
            RetryDecision::DoNotRetry { reason } => {
                let mut r = "DoNotRetry { reason: ".to_string();
                r.append(debug_str(reason.as_str()).as_str());
                r.append(" }");
                r
            },
            RetryDecision::RetryWithoutApproval { reason } => {
                let mut r = "RetryWithoutApproval { reason: ".to_string();
                r.append(debug_str(reason.as_str()).as_str());
                r.append(" }");
                r
            },
            RetryDecision::RetryWithApproval { reason, approval_scope } => {
                let mut r = "RetryWithApproval { reason: ".to_string();
                r.append(debug_str(reason.as_str()).as_str());
                r.append(", approval_scope: ");
                r.append(approval_scope.debug_string().as_str());
                r.append(" }");
                r
            },
        }
    }

    /// A copy of the decision.
    pub fn duplicate(&self) -> (r: RetryDecision)
        ensures
            r@ == self@,
    {
        match self {
            RetryDecision::DoNotRetry { reason } => RetryDecision::DoNotRetry {
                reason: reason.clone(),
            },
            RetryDecision::RetryWithoutApproval { reason } => RetryDecision::RetryWithoutApproval {
                reason: reason.clone(),
            },
            RetryDecision::RetryWithApproval { reason, approval_scope } =>
                RetryDecision::RetryWithApproval {
                reason: reason.clone(),
                approval_scope: approval_scope.duplicate(),
            },
        }
    }
}

} // verus!
