//! The events an agent run streams to its observers.

use vstd::prelude::*;
use crate::model::approval::{ApprovalScope, ApprovalScopeModel};
use crate::model::event::{ExecutionAttempt, ExecutionAttemptModel, RetryDecision, RetryDecisionModel};
use crate::text::{debug_option_string, debug_str, i64_to_string, int_text, option_string_debug, str_debug};

verus! {

/// The streamed events of an agent run: model output, tool choices, tool runs,
/// command approval and execution, and completion.
#[derive(Debug)]
pub enum StreamEvent {
    Started,
    ThinkingDelta(String),
    TextDelta(String),
    ToolCallArgumentsDelta { index: i64, call_id: String, name: Option<String>, delta: String },
    ToolCallFinished(ToolCallFinished),
    ToolRunStarted { index: i64, call_id: String, name: String, arguments: String },
    ToolRunFinished { index: i64, call_id: String, name: String, output: String },
    ToolRunFailed { index: i64, call_id: String, name: String, error: String },
    CommandNeedsApproval { approval_id: String, index: i64, call_id: String, name: String, reason: String, scope: ApprovalScope },
    CommandExecutionStarted { index: i64, call_id: String, name: String, attempt: ExecutionAttempt },
    CommandExecutionFinished { index: i64, call_id: String, name: String, attempt: ExecutionAttempt, output: String },
    CommandExecutionFailed { index: i64, call_id: String, name: String, attempt: ExecutionAttempt, error: String },
    CommandRetryEvaluated { index: i64, call_id: String, name: String, decision: RetryDecision },
    Completed,
    Error(String),
}

/// A tool call the model has finished choosing: the tool and its complete
/// arguments. It says nothing of whether the tool has run.
#[derive(Debug, Clone)]
pub struct ToolCallFinished {
    pub index: i64,
    pub call_id: String,
    pub name: String,
    pub arguments: String,
}

/// The mathematical value of a [`ToolCallFinished`].
pub struct ToolCallFinishedModel {
    pub index: i64,
    pub call_id: Seq<char>,
    pub name: Seq<char>,
    pub arguments: Seq<char>,
}

/// The mathematical value of a [`StreamEvent`].
pub enum StreamEventModel {
    Started,
    ThinkingDelta(Seq<char>),
    TextDelta(Seq<char>),
    ToolCallArgumentsDelta { index: i64, call_id: Seq<char>, name: Option<Seq<char>>, delta: Seq<char> },
    ToolCallFinished(ToolCallFinishedModel),
    ToolRunStarted { index: i64, call_id: Seq<char>, name: Seq<char>, arguments: Seq<char> },
    ToolRunFinished { index: i64, call_id: Seq<char>, name: Seq<char>, output: Seq<char> },
    ToolRunFailed { index: i64, call_id: Seq<char>, name: Seq<char>, error: Seq<char> },
    CommandNeedsApproval { approval_id: Seq<char>, index: i64, call_id: Seq<char>, name: Seq<char>, reason: Seq<char>, scope: ApprovalScopeModel },
    CommandExecutionStarted { index: i64, call_id: Seq<char>, name: Seq<char>, attempt: ExecutionAttemptModel },
    CommandExecutionFinished { index: i64, call_id: Seq<char>, name: Seq<char>, attempt: ExecutionAttemptModel, output: Seq<char> },
    CommandExecutionFailed { index: i64, call_id: Seq<char>, name: Seq<char>, attempt: ExecutionAttemptModel, error: Seq<char> },
    CommandRetryEvaluated { index: i64, call_id: Seq<char>, name: Seq<char>, decision: RetryDecisionModel },
    Completed,
    Error(Seq<char>),
}

/// The mathematical value of an optional string.
pub open spec fn option_string_model(o: Option<String>) -> Option<Seq<char>> {
    match o {
        Some(s) => Some(s@),
        None => None,
    }
}

/// A copy of an optional string.
pub fn duplicate_option_string(o: &Option<String>) -> (r: Option<String>)
    ensures
        option_string_model(r) == option_string_model(*o),
{
    match o {
        Some(s) => Some(s.clone()),
        None => None,
    }
}

impl View for ToolCallFinished {
    type V = ToolCallFinishedModel;

    open spec fn view(&self) -> ToolCallFinishedModel {
        ToolCallFinishedModel {
            index: self.index,
            call_id: self.call_id@,
            name: self.name@,
            arguments: self.arguments@,
        }
    }
}

impl ToolCallFinishedModel {
    /// How `Debug` writes the call.
    pub open spec fn debug_text(self) -> Seq<char> {
        "ToolCallFinished { index: "@ + int_text(self.index as int) + ", call_id: "@ + str_debug(
            self.call_id,
        ) + ", name: "@ + str_debug(self.name) + ", arguments: "@ + str_debug(self.arguments)
            + " }"@
    }
}

impl ToolCallFinished {
    /// A copy of the call.
    pub fn duplicate(&self) -> (r: ToolCallFinished)
        ensures
            r@ == self@,
    {
        ToolCallFinished {
            index: self.index,
            call_id: self.call_id.clone(),
            name: self.name.clone(),
            arguments: self.arguments.clone(),
        }
    }

    /// The `Debug` text of the call.
    pub fn debug_string(&self) -> (r: String)
        ensures
            r@ == self@.debug_text(),
    {
        let mut r = "ToolCallFinished { index: ".to_string();
        r.append(i64_to_string(self.index).as_str());
        r.append(", call_id: ");
        r.append(debug_str(self.call_id.as_str()).as_str());
        r.append(", name: ");
        r.append(debug_str(self.name.as_str()).as_str());
        r.append(", arguments: ");
        r.append(debug_str(self.arguments.as_str()).as_str());
        r.append(" }");
        r
    }
}

impl View for StreamEvent {
    type V = StreamEventModel;

    open spec fn view(&self) -> StreamEventModel {
        match self {
            StreamEvent::Started => StreamEventModel::Started,
            StreamEvent::ThinkingDelta(s) => StreamEventModel::ThinkingDelta(s@),
            StreamEvent::TextDelta(s) => StreamEventModel::TextDelta(s@),
            StreamEvent::ToolCallArgumentsDelta { index, call_id, name, delta } => StreamEventModel::ToolCallArgumentsDelta { index: *index, call_id: call_id@, name: option_string_model(*name), delta: delta@ },
            StreamEvent::ToolCallFinished(c) => StreamEventModel::ToolCallFinished(c@),
            StreamEvent::ToolRunStarted { index, call_id, name, arguments } => StreamEventModel::ToolRunStarted { index: *index, call_id: call_id@, name: name@, arguments: arguments@ },
            StreamEvent::ToolRunFinished { index, call_id, name, output } => StreamEventModel::ToolRunFinished { index: *index, call_id: call_id@, name: name@, output: output@ },
            StreamEvent::ToolRunFailed { index, call_id, name, error } => StreamEventModel::ToolRunFailed { index: *index, call_id: call_id@, name: name@, error: error@ },
            StreamEvent::CommandNeedsApproval { approval_id, index, call_id, name, reason, scope } => StreamEventModel::CommandNeedsApproval { approval_id: approval_id@, index: *index, call_id: call_id@, name: name@, reason: reason@, scope: scope@ },
            StreamEvent::CommandExecutionStarted { index, call_id, name, attempt } => StreamEventModel::CommandExecutionStarted { index: *index, call_id: call_id@, name: name@, attempt: attempt@ },
            StreamEvent::CommandExecutionFinished { index, call_id, name, attempt, output } => StreamEventModel::CommandExecutionFinished { index: *index, call_id: call_id@, name: name@, attempt: attempt@, output: output@ },
            StreamEvent::CommandExecutionFailed { index, call_id, name, attempt, error } => StreamEventModel::CommandExecutionFailed { index: *index, call_id: call_id@, name: name@, attempt: attempt@, error: error@ },
            StreamEvent::CommandRetryEvaluated { index, call_id, name, decision } => StreamEventModel::CommandRetryEvaluated { index: *index, call_id: call_id@, name: name@, decision: decision@ },
            StreamEvent::Completed => StreamEventModel::Completed,
            StreamEvent::Error(s) => StreamEventModel::Error(s@),
        }
    }
}

impl StreamEventModel {
    /// How `Debug` writes the event.
    pub open spec fn debug_text(self) -> Seq<char> {
        match self {
            StreamEventModel::Started => "Started"@,
            StreamEventModel::ThinkingDelta(s) => "ThinkingDelta("@ + str_debug(s) + ")"@,
            StreamEventModel::TextDelta(s) => "TextDelta("@ + str_debug(s) + ")"@,
            StreamEventModel::ToolCallArgumentsDelta { index, call_id, name, delta } => "ToolCallArgumentsDelta { index: "@ + int_text(index as int) + ", call_id: "@ + str_debug(call_id) + ", name: "@ + option_string_debug(name) + ", delta: "@ + str_debug(delta) + " }"@,
            StreamEventModel::ToolCallFinished(c) => "ToolCallFinished("@ + c.debug_text() + ")"@,
            StreamEventModel::ToolRunStarted { index, call_id, name, arguments } => "ToolRunStarted { index: "@ + int_text(index as int) + ", call_id: "@ + str_debug(call_id) + ", name: "@ + str_debug(name) + ", arguments: "@ + str_debug(arguments) + " }"@,
            StreamEventModel::ToolRunFinished { index, call_id, name, output } => "ToolRunFinished { index: "@ + int_text(index as int) + ", call_id: "@ + str_debug(call_id) + ", name: "@ + str_debug(name) + ", output: "@ + str_debug(output) + " }"@,
            StreamEventModel::ToolRunFailed { index, call_id, name, error } => "ToolRunFailed { index: "@ + int_text(index as int) + ", call_id: "@ + str_debug(call_id) + ", name: "@ + str_debug(name) + ", error: "@ + str_debug(error) + " }"@,
            StreamEventModel::CommandNeedsApproval { approval_id, index, call_id, name, reason, scope } => "CommandNeedsApproval { approval_id: "@ + str_debug(approval_id) + ", index: "@ + int_text(index as int) + ", call_id: "@ + str_debug(call_id) + ", name: "@ + str_debug(name) + ", reason: "@ + str_debug(reason) + ", scope: "@ + scope.debug_text() + " }"@,
            StreamEventModel::CommandExecutionStarted { index, call_id, name, attempt } => "CommandExecutionStarted { index: "@ + int_text(index as int) + ", call_id: "@ + str_debug(call_id) + ", name: "@ + str_debug(name) + ", attempt: "@ + attempt.debug_text() + " }"@,
            StreamEventModel::CommandExecutionFinished { index, call_id, name, attempt, output } => "CommandExecutionFinished { index: "@ + int_text(index as int) + ", call_id: "@ + str_debug(call_id) + ", name: "@ + str_debug(name) + ", attempt: "@ + attempt.debug_text() + ", output: "@ + str_debug(output) + " }"@,
            StreamEventModel::CommandExecutionFailed { index, call_id, name, attempt, error } => "CommandExecutionFailed { index: "@ + int_text(index as int) + ", call_id: "@ + str_debug(call_id) + ", name: "@ + str_debug(name) + ", attempt: "@ + attempt.debug_text() + ", error: "@ + str_debug(error) + " }"@,
            StreamEventModel::CommandRetryEvaluated { index, call_id, name, decision } => "CommandRetryEvaluated { index: "@ + int_text(index as int) + ", call_id: "@ + str_debug(call_id) + ", name: "@ + str_debug(name) + ", decision: "@ + decision.debug_text() + " }"@,
            StreamEventModel::Completed => "Completed"@,
            StreamEventModel::Error(s) => "Error("@ + str_debug(s) + ")"@,
        }
    }
}

impl StreamEvent {
    /// The `Debug` text of the event.
    pub fn debug_string(&self) -> (r: String)
        ensures
            r@ == self@.debug_text(),
    {
        match self {
            StreamEvent::Started => "Started".to_string(),
            StreamEvent::ThinkingDelta(s) => {
                let mut r = "ThinkingDelta(".to_string();
                r.append(debug_str(s.as_str()).as_str());
                r.append(")");
                r
            },
            StreamEvent::TextDelta(s) => {
                let mut r = "TextDelta(".to_string();
                r.append(debug_str(s.as_str()).as_str());
                r.append(")");
                r
            },
            StreamEvent::ToolCallArgumentsDelta { index, call_id, name, delta } => {
                let mut r = "ToolCallArgumentsDelta { index: ".to_string();
                r.append(i64_to_string(*index).as_str());
                r.append(", call_id: ");
                r.append(debug_str(call_id.as_str()).as_str());
                r.append(", name: ");
                r.append(debug_option_string(name).as_str());
                r.append(", delta: ");
                r.append(debug_str(delta.as_str()).as_str());
                r.append(" }");
                r
            },
            StreamEvent::ToolCallFinished(c) => {
                let mut r = "ToolCallFinished(".to_string();
                r.append(c.debug_string().as_str());
                r.append(")");
                r
            },
            StreamEvent::ToolRunStarted { index, call_id, name, arguments } => {
                let mut r = "ToolRunStarted { index: ".to_string();
                r.append(i64_to_string(*index).as_str());
                r.append(", call_id: ");
                r.append(debug_str(call_id.as_str()).as_str());
                r.append(", name: ");
                r.append(debug_str(name.as_str()).as_str());
                r.append(", arguments: ");
                r.append(debug_str(arguments.as_str()).as_str());
                r.append(" }");
                r
            },
            StreamEvent::ToolRunFinished { index, call_id, name, output } => {
                let mut r = "ToolRunFinished { index: ".to_string();
                r.append(i64_to_string(*index).as_str());
                r.append(", call_id: ");
                r.append(debug_str(call_id.as_str()).as_str());
                r.append(", name: ");
                r.append(debug_str(name.as_str()).as_str());
                r.append(", output: ");
                r.append(debug_str(output.as_str()).as_str());
                r.append(" }");
                r
            },
            StreamEvent::ToolRunFailed { index, call_id, name, error } => {
                let mut r = "ToolRunFailed { index: ".to_string();
                r.append(i64_to_string(*index).as_str());
                r.append(", call_id: ");
                r.append(debug_str(call_id.as_str()).as_str());
                r.append(", name: ");
                r.append(debug_str(name.as_str()).as_str());
                r.append(", error: ");
                r.append(debug_str(error.as_str()).as_str());
                r.append(" }");
                r
            },
            StreamEvent::CommandNeedsApproval { approval_id, index, call_id, name, reason, scope } => {
                let mut r = "CommandNeedsApproval { approval_id: ".to_string();
                r.append(debug_str(approval_id.as_str()).as_str());
                r.append(", index: ");
                r.append(i64_to_string(*index).as_str());
                r.append(", call_id: ");
                r.append(debug_str(call_id.as_str()).as_str());
                r.append(", name: ");
                r.append(debug_str(name.as_str()).as_str());
                r.append(", reason: ");
                r.append(debug_str(reason.as_str()).as_str());
                r.append(", scope: ");
                r.append(scope.debug_string().as_str());
                r.append(" }");
                r
            },
            StreamEvent::CommandExecutionStarted { index, call_id, name, attempt } => {
                let mut r = "CommandExecutionStarted { index: ".to_string();
                r.append(i64_to_string(*index).as_str());
                r.append(", call_id: ");
                r.append(debug_str(call_id.as_str()).as_str());
                r.append(", name: ");
                r.append(debug_str(name.as_str()).as_str());
                r.append(", attempt: ");
                r.append(attempt.debug_string().as_str());
                r.append(" }");
                r
            },
            StreamEvent::CommandExecutionFinished { index, call_id, name, attempt, output } => {
                let mut r = "CommandExecutionFinished { index: ".to_string();
                r.append(i64_to_string(*index).as_str());
                r.append(", call_id: ");
                r.append(debug_str(call_id.as_str()).as_str());
                r.append(", name: ");
                r.append(debug_str(name.as_str()).as_str());
                r.append(", attempt: ");
                r.append(attempt.debug_string().as_str());
                r.append(", output: ");
                r.append(debug_str(output.as_str()).as_str());
                r.append(" }");
                r
            },
            StreamEvent::CommandExecutionFailed { index, call_id, name, attempt, error } => {
                let mut r = "CommandExecutionFailed { index: ".to_string();
                r.append(i64_to_string(*index).as_str());
                r.append(", call_id: ");
                r.append(debug_str(call_id.as_str()).as_str());
                r.append(", name: ");
                r.append(debug_str(name.as_str()).as_str());
                r.append(", attempt: ");
                r.append(attempt.debug_string().as_str());
                r.append(", error: ");
                r.append(debug_str(error.as_str()).as_str());
                r.append(" }");
                r
            },
            StreamEvent::CommandRetryEvaluated { index, call_id, name, decision } => {
                let mut r = "CommandRetryEvaluated { index: ".to_string();
                r.append(i64_to_string(*index).as_str());
                r.append(", call_id: ");
                r.append(debug_str(call_id.as_str()).as_str());
                r.append(", name: ");
                r.append(debug_str(name.as_str()).as_str());
                r.append(", decision: ");
                r.append(decision.debug_string().as_str());
                r.append(" }");
                r
            },
            StreamEvent::Completed => "Completed".to_string(),
            StreamEvent::Error(s) => {
                let mut r = "Error(".to_string();
                r.append(debug_str(s.as_str()).as_str());
                r.append(")");
                r
            },
        }
    }

    /// A copy of the event.
    pub fn duplicate(&self) -> (r: StreamEvent)
        ensures
            r@ == self@,
    {
        match self {
            StreamEvent::Started => StreamEvent::Started,
            StreamEvent::ThinkingDelta(s) => StreamEvent::ThinkingDelta(s.clone()),
            StreamEvent::TextDelta(s) => StreamEvent::TextDelta(s.clone()),
            StreamEvent::ToolCallArgumentsDelta { index, call_id, name, delta } => StreamEvent::ToolCallArgumentsDelta { index: *index, call_id: call_id.clone(), name: duplicate_option_string(name), delta: delta.clone() },
            StreamEvent::ToolCallFinished(c) => StreamEvent::ToolCallFinished(c.duplicate()),
            StreamEvent::ToolRunStarted { index, call_id, name, arguments } => StreamEvent::ToolRunStarted { index: *index, call_id: call_id.clone(), name: name.clone(), arguments: arguments.clone() },
            StreamEvent::ToolRunFinished { index, call_id, name, output } => StreamEvent::ToolRunFinished { index: *index, call_id: call_id.clone(), name: name.clone(), output: output.clone() },
            StreamEvent::ToolRunFailed { index, call_id, name, error } => StreamEvent::ToolRunFailed { index: *index, call_id: call_id.clone(), name: name.clone(), error: error.clone() },
            StreamEvent::CommandNeedsApproval { approval_id, index, call_id, name, reason, scope } => StreamEvent::CommandNeedsApproval { approval_id: approval_id.clone(), index: *index, call_id: call_id.clone(), name: name.clone(), reason: reason.clone(), scope: scope.duplicate() },
            StreamEvent::CommandExecutionStarted { index, call_id, name, attempt } => StreamEvent::CommandExecutionStarted { index: *index, call_id: call_id.clone(), name: name.clone(), attempt: attempt.duplicate() },
            StreamEvent::CommandExecutionFinished { index, call_id, name, attempt, output } => StreamEvent::CommandExecutionFinished { index: *index, call_id: call_id.clone(), name: name.clone(), attempt: attempt.duplicate(), output: output.clone() },
            StreamEvent::CommandExecutionFailed { index, call_id, name, attempt, error } => StreamEvent::CommandExecutionFailed { index: *index, call_id: call_id.clone(), name: name.clone(), attempt: attempt.duplicate(), error: error.clone() },
            StreamEvent::CommandRetryEvaluated { index, call_id, name, decision } => StreamEvent::CommandRetryEvaluated { index: *index, call_id: call_id.clone(), name: name.clone(), decision: decision.duplicate() },
            StreamEvent::Completed => StreamEvent::Completed,
            StreamEvent::Error(s) => StreamEvent::Error(s.clone()),
        }
    }
}

} // verus!
