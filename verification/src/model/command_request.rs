//! The context snapshot that a shell command is judged and run with.

use vstd::prelude::*;
use crate::model::approval::{ApprovalPolicy, NetworkPolicy, SandboxProfile};
use crate::model::capability::CapabilityKind;
use crate::text::clone_strings;

verus! {

/// A command request.
///
/// The host assembles it from the tool call, the capability registry and the
/// runtime context; the model only supplies the command text and an optional
/// justification, never the permission fields.
#[derive(Debug, Clone, PartialEq, Eq, Hash)]
pub struct CommandRequest {
    /// The command text.
    pub raw_command: String,
    /// The command split into words.
    pub argv: Vec<String>,
    /// The working directory.
    pub cwd: String,
    /// The matched capability.
    pub capability: CapabilityKind,
    /// The global approval policy.
    pub approval_policy: ApprovalPolicy,
    /// The sandbox profile of the first attempt.
    pub sandbox_profile: SandboxProfile,
    /// The network policy.
    pub network_policy: NetworkPolicy,
    /// Why the model asked for the command.
    pub justification: Option<String>,
}

/// The mathematical value of a [`CommandRequest`].
pub struct CommandRequestModel {
    pub raw_command: Seq<char>,
    pub argv: Seq<Seq<char>>,
    pub cwd: Seq<char>,
    pub capability: CapabilityKind,
    pub approval_policy: ApprovalPolicy,
    pub sandbox_profile: SandboxProfile,
    pub network_policy: NetworkPolicy,
    pub justification: Option<Seq<char>>,
}

impl View for CommandRequest {
    type V = CommandRequestModel;

    open spec fn view(&self) -> CommandRequestModel {
        CommandRequestModel {
            raw_command: self.raw_command@,
            argv: self.argv.deep_view(),
            cwd: self.cwd@,
            capability: self.capability,
            approval_policy: self.approval_policy,
            sandbox_profile: self.sandbox_profile,
            network_policy: self.network_policy,
            justification: match self.justification {
                Some(j) => Some(j@),
                None => None,
            },
        }
    }
}

impl CommandRequest {
    /// A copy of the request.
    pub fn duplicate(&self) -> (r: CommandRequest)
        ensures
            r@ == self@,
    {
        CommandRequest {
            raw_command: self.raw_command.clone(),
            argv: clone_strings(&self.argv),
            cwd: self.cwd.clone(),
            capability: self.capability,
            approval_policy: self.approval_policy,
            sandbox_profile: self.sandbox_profile,
            network_policy: self.network_policy,
            justification: match &self.justification {
                Some(j) => Some(j.clone()),
                None => None,
            },
        }
    }
}

} // verus!
