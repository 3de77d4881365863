//! The outcome of one attempt to run a command.

use vstd::prelude::*;
use crate::text::{debug_str, i64_to_string, int_text, str_debug};

verus! {

/// The result of one execution attempt.
///
/// It only says what happened when the runner tried; whether approval was
/// needed, or a retry is allowed, is decided elsewhere.
#[derive(Debug, Clone, PartialEq, Eq, Hash)]
pub enum ExecutionResult {
    /// The command succeeded.
    Success { stdout: String },
    /// The command failed.
    Failure(ExecutionFailure),
}

/// Why an execution attempt failed.
///
/// `CommandFailed` means the command itself failed; `SandboxDenied` means the
/// command may be right but lacked sandbox or network permissions. Only the
/// latter may lead to an escalated retry.
#[derive(Debug, Clone, PartialEq, Eq, Hash)]
pub enum ExecutionFailure {
    /// The command failed.
    CommandFailed {
        /// The exit code.
        exit_code: i32,
        /// The error output.
        stderr: String,
    },
    /// The sandbox denied the command.
    SandboxDenied {
        /// The denial output.
        output: String,
        /// The network target that was denied, when it is known.
        network_context: Option<NetworkApprovalContext>,
    },
}

/// The network target of a denial, which an approval can be narrowed to.
#[derive(Debug, Clone, PartialEq, Eq, Hash)]
pub struct NetworkApprovalContext {
    /// The host.
    pub host: String,
    /// The protocol.
    pub protocol: String,
}

/// The mathematical value of a [`NetworkApprovalContext`].
pub struct NetworkApprovalContextModel {
    pub host: Seq<char>,
    pub protocol: Seq<char>,
}

/// The mathematical value of an [`ExecutionFailure`].
pub enum ExecutionFailureModel {
    CommandFailed { exit_code: i32, stderr: Seq<char> },
    SandboxDenied { output: Seq<char>, network_context: Option<NetworkApprovalContextModel> },
}

/// The mathematical value of an [`ExecutionResult`].
pub enum ExecutionResultModel {
    Success { stdout: Seq<char> },
    Failure(ExecutionFailureModel),
}

impl View for NetworkApprovalContext {
    type V = NetworkApprovalContextModel;

    open spec fn view(&self) -> NetworkApprovalContextModel {
        NetworkApprovalContextModel { host: self.host@, protocol: self.protocol@ }
    }
}

/// The mathematical value of an optional network context.
pub open spec fn network_context_model(o: Option<NetworkApprovalContext>) -> Option<
    NetworkApprovalContextModel,
> {
    match o {
        Some(c) => Some(c@),
        None => None,
    }
}

impl View for ExecutionFailure {
    type V = ExecutionFailureModel;

    open spec fn view(&self) -> ExecutionFailureModel {
        match self {
            ExecutionFailure::CommandFailed { exit_code, stderr } =>
                ExecutionFailureModel::CommandFailed { exit_code: *exit_code, stderr: stderr@ },
            ExecutionFailure::SandboxDenied { output, network_context } =>
                ExecutionFailureModel::SandboxDenied {
                output: output@,
                network_context: network_context_model(*network_context),
            },
        }
    }
}

impl View for ExecutionResult {
    type V = ExecutionResultModel;

    open spec fn view(&self) -> ExecutionResultModel {
        match self {
            ExecutionResult::Success { stdout } => ExecutionResultModel::Success {
                stdout: stdout@,
            },
            ExecutionResult::Failure(f) => ExecutionResultModel::Failure(f@),
        }
    }
}

impl NetworkApprovalContextModel {
    /// How `Debug` writes the context.
    pub open spec fn debug_text(self) -> Seq<char> {
        "NetworkApprovalContext { host: "@ + str_debug(self.host) + ", protocol: "@ + str_debug(
            self.protocol,
        ) + " }"@
    }
}

/// How `Debug` writes an optional network context.
pub open spec fn network_context_debug(o: Option<NetworkApprovalContextModel>) -> Seq<char> {
    match o {
        Some(c) => "Some("@ + c.debug_text() + ")"@,
        None => "None"@,
    }
}

impl ExecutionFailureModel {
    /// How `Debug` writes the failure.
    pub open spec fn debug_text(self) -> Seq<char> {
        match self {
            ExecutionFailureModel::CommandFailed { exit_code, stderr } => "CommandFailed { exit_code: "@
                + int_text(exit_code as int) + ", stderr: "@ + str_debug(stderr) + " }"@,
            ExecutionFailureModel::SandboxDenied { output, network_context } =>
                "SandboxDenied { output: "@ + str_debug(output) + ", network_context: "@
                + network_context_debug(network_context) + " }"@,
        }
    }
}

impl NetworkApprovalContext {
    /// The `Debug` text of the context.
    pub fn debug_string(&self) -> (r: String)
        ensures
            r@ == self@.debug_text(),
    {
        let mut r = "NetworkApprovalContext { host: ".to_string();
        r.append(debug_str(self.host.as_str()).as_str());
        r.append(", protocol: ");
        r.append(debug_str(self.protocol.as_str()).as_str());
        r.append(" }");
        r
    }

    /// A copy of the context.
    pub fn duplicate(&self) -> (r: NetworkApprovalContext)
        ensures
            r@ == self@,
    {
        NetworkApprovalContext { host: self.host.clone(), protocol: self.protocol.clone() }
    }
}

/// The `Debug` text of an optional network context.
pub fn debug_network_context(o: &Option<NetworkApprovalContext>) -> (r: String)
    ensures
        r@ == network_context_debug(network_context_model(*o)),
{
    match o {
        Some(c) => {
            let mut r = "Some(".to_string();
            r.append(c.debug_string().as_str());
            r.append(")");
            r
        },
        None => "None".to_string(),
    }
}

/// A copy of an optional network context.
pub fn duplicate_network_context(o: &Option<NetworkApprovalContext>) -> (r: Option<
    NetworkApprovalContext,
>)
    ensures
        network_context_model(r) == network_context_model(*o),
{
    match o {
        Some(c) => Some(c.duplicate()),
        None => None,
    }
}

impl ExecutionFailure {
    /// The `Debug` text of the failure.
    pub fn debug_string(&self) -> (r: String)
        ensures
            r@ == self@.debug_text(),
    {
        match self {
            ExecutionFailure::CommandFailed { exit_code, stderr } => {
                let mut r = "CommandFailed { exit_code: ".to_string();
                r.append(i64_to_string(*exit_code as i64).as_str());
                r.append(", stderr: ");
                r.append(debug_str(stderr.as_str()).as_str());
                r.append(" }");
                r
            },
            ExecutionFailure::SandboxDenied { output, network_context } => {
                let mut r = "SandboxDenied { output: ".to_string();
                r.append(debug_str(output.as_str()).as_str());
                r.append(", network_context: ");
                r.append(debug_network_context(network_context).as_str());
                r.append(" }");
                r
            },
        }
    }

    /// A copy of the failure.
    pub fn duplicate(&self) -> (r: ExecutionFailure)
        ensures
            r@ == self@,
    {
        match self {
            ExecutionFailure::CommandFailed { exit_code, stderr } => ExecutionFailure::CommandFailed {
                exit_code: *exit_code,
                stderr: stderr.clone(),
            },
            ExecutionFailure::SandboxDenied { output, network_context } =>
                ExecutionFailure::SandboxDenied {
                output: output.clone(),
                network_context: duplicate_network_context(network_context),
            },
        }
    }
}

} // verus!
