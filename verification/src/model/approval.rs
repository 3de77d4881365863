//! Approval policies, approval requirements and the scope an approval is bound to.

use vstd::prelude::*;
use crate::text::{clone_strings, debug_str, debug_string_list, str_debug, string_list_debug};

verus! {

/// When the user may be asked to approve a tool run.
///
/// - `Never`: nobody is ever asked; what would need approval is refused.
/// - `OnFailure`: commands first run with default permissions; an approval may
///   be asked for when a command needs one or when the sandbox denied it.
/// - `OnRequest`: only an explicit escalation request may ask the user; a plain
///   sandbox failure never leads to a prompt.
#[derive(Debug, Clone, Copy, PartialEq, Eq, Hash, Structural)]
pub enum ApprovalPolicy {
    Never,
    OnFailure,
    OnRequest,
}

/// The sandbox a command runs in.
#[derive(Debug, Clone, Copy, PartialEq, Eq, Hash, Structural)]
pub enum SandboxProfile {
    /// Read only.
    ReadOnly,
    /// Writes allowed inside the workspace.
    WorkspaceWrite,
    /// No sandbox.
    NoSandbox,
}

/// What network access a command gets.
#[derive(Debug, Clone, Copy, PartialEq, Eq, Hash, Structural)]
pub enum NetworkPolicy {
    Deny,
    Prompt,
    Allow,
}

/// How long an approval lasts.
#[derive(Debug, Clone, Copy, PartialEq, Eq, Hash, Structural)]
pub enum ApprovalPersistence {
    /// One execution only.
    Once,
    /// The rest of the session.
    Session,
}

impl SandboxProfile {
    /// The `Debug` text of the profile.
    pub open spec fn debug_text(self) -> Seq<char> {
        match self {
            SandboxProfile::ReadOnly => "ReadOnly"@,
            SandboxProfile::WorkspaceWrite => "WorkspaceWrite"@,
            SandboxProfile::NoSandbox => "NoSandbox"@,
        }
    }

    /// The `Debug` text of the profile.
    pub fn debug_string(&self) -> (r: String)
        ensures
            r@ == self.debug_text(),
    {
        match self {
            SandboxProfile::ReadOnly => "ReadOnly".to_string(),
            SandboxProfile::WorkspaceWrite => "WorkspaceWrite".to_string(),
            SandboxProfile::NoSandbox => "NoSandbox".to_string(),
        }
    }
}

impl NetworkPolicy {
    /// The `Debug` text of the policy.
    pub open spec fn debug_text(self) -> Seq<char> {
        match self {
            NetworkPolicy::Deny => "Deny"@,
            NetworkPolicy::Prompt => "Prompt"@,
            NetworkPolicy::Allow => "Allow"@,
        }
    }

    /// The `Debug` text of the policy.
    pub fn debug_string(&self) -> (r: String)
        ensures
            r@ == self.debug_text(),
    {
        match self {
            NetworkPolicy::Deny => "Deny".to_string(),
            NetworkPolicy::Prompt => "Prompt".to_string(),
            NetworkPolicy::Allow => "Allow".to_string(),
        }
    }
}

impl ApprovalPersistence {
    /// The `Debug` text of the persistence.
    pub open spec fn debug_text(self) -> Seq<char> {
        match self {
            ApprovalPersistence::Once => "Once"@,
            ApprovalPersistence::Session => "Session"@,
        }
    }

    /// The `Debug` text of the persistence.
    pub fn debug_string(&self) -> (r: String)
        ensures
            r@ == self.debug_text(),
    {
        match self {
            ApprovalPersistence::Once => "Once".to_string(),
            ApprovalPersistence::Session => "Session".to_string(),
        }
    }
}

/// What the approval gate tells the command runtime to do.
///
/// - `Skip`: no approval is needed; this does not mean the sandbox is skipped.
/// - `NeedsApproval`: pause and ask the user.
/// - `Forbidden`: the policy refuses the command outright.
#[derive(Debug, Clone, PartialEq, Eq, Hash)]
pub enum ApprovalRequirement {
    Skip { bypass_sandbox: bool, reason: String },
    NeedsApproval { reason: String, approval_scope: ApprovalScope },
    Forbidden { reason: String },
}

/// The scope an approval is bound to.
///
/// An approval is never bound to the bare command text alone: it also names the
/// working directory, the sandbox, the network policy and how long it lasts, so
/// that a narrow approval is never widened into a global one.
#[derive(Debug, Clone, PartialEq, Eq, Hash)]
pub struct ApprovalScope {
    /// The command prefix that was approved.
    pub command_prefix: Vec<String>,
    /// The working directory.
    pub cwd: String,
    /// The sandbox profile.
    pub sandbox_profile: SandboxProfile,
    /// The network policy.
    pub network_policy: NetworkPolicy,
    /// How long the approval lasts.
    pub persistence: ApprovalPersistence,
}

/// The key by which an approval is reused.
///
/// It names what was approved and the execution profile, but not the
/// persistence: the lifetime of a session approval is that of its store.
#[derive(Debug, Clone, PartialEq, Eq, Hash)]
pub struct ApprovalScopeKey {
    pub command_prefix: Vec<String>,
    pub cwd: String,
    pub sandbox_profile: SandboxProfile,
    pub network_policy: NetworkPolicy,
}

/// The mathematical value of an [`ApprovalScope`].
pub struct ApprovalScopeModel {
    pub command_prefix: Seq<Seq<char>>,
    pub cwd: Seq<char>,
    pub sandbox_profile: SandboxProfile,
    pub network_policy: NetworkPolicy,
    pub persistence: ApprovalPersistence,
}

/// The mathematical value of an [`ApprovalScopeKey`].
pub struct ApprovalScopeKeyModel {
    pub command_prefix: Seq<Seq<char>>,
    pub cwd: Seq<char>,
    pub sandbox_profile: SandboxProfile,
    pub network_policy: NetworkPolicy,
}

/// The mathematical value of an [`ApprovalRequirement`].
pub enum ApprovalRequirementModel {
    Skip { bypass_sandbox: bool, reason: Seq<char> },
    NeedsApproval { reason: Seq<char>, approval_scope: ApprovalScopeModel },
    Forbidden { reason: Seq<char> },
}

impl View for ApprovalScope {
    type V = ApprovalScopeModel;

    open spec fn view(&self) -> ApprovalScopeModel {
        ApprovalScopeModel {
            command_prefix: self.command_prefix.deep_view(),
            cwd: self.cwd@,
            sandbox_profile: self.sandbox_profile,
            network_policy: self.network_policy,
            persistence: self.persistence,
        }
    }
}

impl View for ApprovalScopeKey {
    type V = ApprovalScopeKeyModel;

    open spec fn view(&self) -> ApprovalScopeKeyModel {
        ApprovalScopeKeyModel {
            command_prefix: self.command_prefix.deep_view(),
            cwd: self.cwd@,
            sandbox_profile: self.sandbox_profile,
            network_policy: self.network_policy,
        }
    }
}

impl View for ApprovalRequirement {
    type V = ApprovalRequirementModel;

    open spec fn view(&self) -> ApprovalRequirementModel {
        match self {
            ApprovalRequirement::Skip { bypass_sandbox, reason } => ApprovalRequirementModel::Skip {
                bypass_sandbox: *bypass_sandbox,
                reason: reason@,
            },
            ApprovalRequirement::NeedsApproval { reason, approval_scope } =>
                ApprovalRequirementModel::NeedsApproval {
                reason: reason@,
                approval_scope: approval_scope@,
            },
            ApprovalRequirement::Forbidden { reason } => ApprovalRequirementModel::Forbidden {
                reason: reason@,
            },
        }
    }
}

impl ApprovalScopeModel {
    /// The reuse key of a scope: every field but the persistence.
    pub open spec fn key(self) -> ApprovalScopeKeyModel {
        ApprovalScopeKeyModel {
            command_prefix: self.command_prefix,
            cwd: self.cwd,
            sandbox_profile: self.sandbox_profile,
            network_policy: self.network_policy,
        }
    }

    /// How `Debug` writes a scope.
    pub open spec fn debug_text(self) -> Seq<char> {
        "ApprovalScope { command_prefix: "@ + string_list_debug(self.command_prefix)
            + ", cwd: "@ + str_debug(self.cwd) + ", sandbox_profile: "@
            + self.sandbox_profile.debug_text() + ", network_policy: "@
            + self.network_policy.debug_text() + ", persistence: "@
            + self.persistence.debug_text() + " }"@
    }
}

impl ApprovalScope {
    /// The key by which this approval is reused: the scope without its persistence.
    pub fn key(&self) -> (k: ApprovalScopeKey)
        ensures
            k@ == self@.key(),
    {
        ApprovalScopeKey {
            command_prefix: clone_strings(&self.command_prefix),
            cwd: self.cwd.clone(),
            sandbox_profile: self.sandbox_profile,
            network_policy: self.network_policy,
        }
    }

    /// A copy of the scope.
    pub fn duplicate(&self) -> (r: ApprovalScope)
        ensures
            r@ == self@,
    {
        ApprovalScope {
            command_prefix: clone_strings(&self.command_prefix),
            cwd: self.cwd.clone(),
            sandbox_profile: self.sandbox_profile,
            network_policy: self.network_policy,
            persistence: self.persistence,
        }
    }

    /// The `Debug` text of the scope.
    pub fn debug_string(&self) -> (r: String)
        ensures
            r@ == self@.debug_text(),
    {
        let mut r = "ApprovalScope { command_prefix: ".to_string();
        r.append(debug_string_list(&self.command_prefix).as_str());
        r.append(", cwd: ");
        r.append(debug_str(self.cwd.as_str()).as_str());
        r.append(", sandbox_profile: ");
        r.append(self.sandbox_profile.debug_string().as_str());
        r.append(", network_policy: ");
        r.append(self.network_policy.debug_string().as_str());
        r.append(", persistence: ");
        r.append(self.persistence.debug_string().as_str());
        r.append(" }");
        r
    }
}

impl ApprovalScopeKey {
    /// A copy of the key.
    pub fn duplicate(&self) -> (r: ApprovalScopeKey)
        ensures
            r@ == self@,
    {
        ApprovalScopeKey {
            command_prefix: clone_strings(&self.command_prefix),
            cwd: self.cwd.clone(),
            sandbox_profile: self.sandbox_profile,
            network_policy: self.network_policy,
        }
    }
}

/// Two scopes that differ only in their persistence share one key, and two
/// scopes that differ in anything else have different keys.
pub proof fn lemma_key_ignores_only_persistence(a: ApprovalScopeModel, b: ApprovalScopeModel)
    ensures
        a.key() == b.key() <==> (a.command_prefix == b.command_prefix && a.cwd == b.cwd
            && a.sandbox_profile == b.sandbox_profile && a.network_policy == b.network_policy),
{
}

} // verus!
