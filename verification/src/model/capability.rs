//! Command capabilities: the host's safety classification of a command.

use vstd::prelude::*;
use crate::model::approval::{NetworkPolicy, SandboxProfile};

verus! {

/// The kind of a command, as the host classifies it from its argv.
///
/// The model never supplies this; approval, sandbox and retry all start from it.
#[derive(Debug, Clone, Copy, PartialEq, Eq, Hash, Structural)]
pub enum CapabilityKind {
    /// Safe reads such as `ls` or `cat package.json`.
    SafeRead,
    /// Safe tests such as `npm test`.
    SafeTest,
    /// Commands that need the network or write dependencies, such as `npm install`.
    NetworkInstall,
    /// Dangerous or unanalysable commands, such as `curl ... | sh`.
    DangerousShell,
}

impl CapabilityKind {
    /// The `Debug` text of the kind.
    pub open spec fn debug_text(self) -> Seq<char> {
        match self {
            CapabilityKind::SafeRead => "SafeRead"@,
            CapabilityKind::SafeTest => "SafeTest"@,
            CapabilityKind::NetworkInstall => "NetworkInstall"@,
            CapabilityKind::DangerousShell => "DangerousShell"@,
        }
    }

    /// The `Debug` text of the kind.
    pub fn debug_string(&self) -> (r: String)
        ensures
            r@ == self.debug_text(),
    {
        match self {
            CapabilityKind::SafeRead => "SafeRead".to_string(),
            CapabilityKind::SafeTest => "SafeTest".to_string(),
            CapabilityKind::NetworkInstall => "NetworkInstall".to_string(),
            CapabilityKind::DangerousShell => "DangerousShell".to_string(),
        }
    }
}

/// A supported family of commands: a set of argv prefixes bound to a
/// capability kind and its default policy.
#[derive(Debug, Clone, PartialEq, Eq, Hash)]
pub struct CapabilityDescriptor {
    /// The capability kind.
    pub kind: CapabilityKind,
    /// The capability name.
    pub name: String,
    /// A description.
    pub description: String,
    /// The argv prefixes this capability matches; `["npm", "install"]`
    /// matches `npm install vite`.
    pub command_prefixes: Vec<Vec<String>>,
    /// The capability's default policy.
    pub policy: CapabilityPolicy,
}

/// The default policy of a capability, before the request's own context
/// (global approval policy, cwd, network policy) is taken into account.
#[derive(Debug, Clone, Copy, PartialEq, Eq, Hash, Structural)]
pub struct CapabilityPolicy {
    /// The default decision.
    pub default_decision: DefaultDecision,
    /// The sandbox profile of the first attempt.
    pub first_attempt_sandbox: SandboxProfile,
    /// The network policy.
    pub network_policy: NetworkPolicy,
    /// The retry policy.
    pub retry_policy: RetryPolicy,
}

/// What a capability decides when nothing else is known.
#[derive(Debug, Clone, Copy, PartialEq, Eq, Hash, Structural)]
pub enum DefaultDecision {
    Allow,
    Prompt,
    Forbidden,
}

/// Whether a capability may be retried after the sandbox denied it.
///
/// It only takes part in the retry gate, where it is combined with the global
/// `ApprovalPolicy` and the request's `NetworkPolicy`.
#[derive(Debug, Clone, Copy, PartialEq, Eq, Hash, Structural)]
pub enum RetryPolicy {
    /// Never retry.
    Never,
    /// Retry after approval.
    WithApproval,
    /// Retry without approval.
    WithoutApproval,
}

/// The mathematical value of a [`CapabilityDescriptor`].
pub struct CapabilityDescriptorModel {
    pub kind: CapabilityKind,
    pub name: Seq<char>,
    pub description: Seq<char>,
    pub command_prefixes: Seq<Seq<Seq<char>>>,
    pub policy: CapabilityPolicy,
}

impl View for CapabilityDescriptor {
    type V = CapabilityDescriptorModel;

    open spec fn view(&self) -> CapabilityDescriptorModel {
        CapabilityDescriptorModel {
            kind: self.kind,
            name: self.name@,
            description: self.description@,
            command_prefixes: self.command_prefixes.deep_view(),
            policy: self.policy,
        }
    }
}

impl CapabilityDescriptor {
    /// A copy of the descriptor.
    pub fn duplicate(&self) -> (r: CapabilityDescriptor)
        ensures
            r@ == self@,
    {
        let mut prefixes: Vec<Vec<String>> = Vec::new();
        let mut i: usize = 0;
        while i < self.command_prefixes.len()
            invariant
                i <= self.command_prefixes.len(),
                prefixes.deep_view() =~= self.command_prefixes.deep_view().take(i as int),
            decreases self.command_prefixes.len() - i,
        {
            let p = crate::text::clone_strings(&self.command_prefixes[i]);
            let ghost before = prefixes.deep_view();
            prefixes.push(p);
            proof {
                assert(prefixes.deep_view() =~= before.push(
                    self.command_prefixes.deep_view()[i as int],
                ));
                assert(self.command_prefixes.deep_view().take(i + 1)
                    =~= self.command_prefixes.deep_view().take(i as int).push(
                    self.command_prefixes.deep_view()[i as int],
                ));
            }
            i = i + 1;
        }
        assert(self.command_prefixes.deep_view().take(self.command_prefixes.len() as int)
            =~= self.command_prefixes.deep_view());
        CapabilityDescriptor {
            kind: self.kind,
            name: self.name.clone(),
            description: self.description.clone(),
            command_prefixes: prefixes,
            policy: self.policy,
        }
    }
}

} // verus!
