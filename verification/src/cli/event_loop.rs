//! The decisions of the terminal event loop: what a key does, what a command
//! changes, and how an agent event shows up. The host reads keys, runs the
//! agent and sends approvals.

use vstd::prelude::*;
use crate::agent::stream_event::{StreamEvent, StreamEventModel};
use crate::cli::app::{
    erased, typed, with_model_delta, with_thinking_delta, CliState, CliStateModel, PendingApprovalModel,
    PendingApprovalView, UiLine, UiLineModel, UiMode,
};
use crate::model::approval::ApprovalPersistence;
use crate::model::event::UserApprovalDecision;
use crate::text::{concat, is_blank};

verus! {

/// The keys the interface reacts to.
#[derive(Debug, Clone, Copy, PartialEq, Eq, Structural)]
pub enum Key {
    Up,
    Down,
    Esc,
    Backspace,
    Enter,
    Char(char),
    Other,
}

/// What the user asked for.
#[derive(Debug, Clone, PartialEq, Eq)]
pub enum UiCommand {
    NoOp,
    Quit,
    SubmitPrompt(String),
    ApproveOnce(String),
    ApproveSession(String),
    Reject(String),
}

/// What the agent task reports to the interface.
pub enum UiEvent {
    Agent(StreamEvent),
    AgentFailed(String),
    AgentFinished,
}

/// What the host must do after a command.
pub enum CommandEffect {
    Nothing,
    /// Start an agent run with this prompt.
    StartAgent(String),
    /// Send this decision for this pending approval.
    SendApproval { approval_id: String, decision: UserApprovalDecision },
}

/// The mathematical value of a [`UiCommand`].
pub enum UiCommandModel {
    NoOp,
    Quit,
    SubmitPrompt(Seq<char>),
    ApproveOnce(Seq<char>),
    ApproveSession(Seq<char>),
    Reject(Seq<char>),
}

/// The mathematical value of a [`CommandEffect`].
pub enum CommandEffectModel {
    Nothing,
    StartAgent(Seq<char>),
    SendApproval { approval_id: Seq<char>, decision: UserApprovalDecision },
}

impl View for UiCommand {
    type V = UiCommandModel;

    open spec fn view(&self) -> UiCommandModel {
        match self {
            UiCommand::NoOp => UiCommandModel::NoOp,
            UiCommand::Quit => UiCommandModel::Quit,
            UiCommand::SubmitPrompt(p) => UiCommandModel::SubmitPrompt(p@),
            UiCommand::ApproveOnce(id) => UiCommandModel::ApproveOnce(id@),
            UiCommand::ApproveSession(id) => UiCommandModel::ApproveSession(id@),
            UiCommand::Reject(id) => UiCommandModel::Reject(id@),
        }
    }
}

impl View for CommandEffect {
    type V = CommandEffectModel;

    open spec fn view(&self) -> CommandEffectModel {
        match self {
            CommandEffect::Nothing => CommandEffectModel::Nothing,
            CommandEffect::StartAgent(p) => CommandEffectModel::StartAgent(p@),
            CommandEffect::SendApproval { approval_id, decision } => CommandEffectModel::SendApproval {
                approval_id: approval_id@,
                decision: *decision,
            },
        }
    }
}

/// The key leaves the prompt or a running agent: Esc or `q`.
pub open spec fn is_quit_key(key: Key) -> bool {
    key == Key::Esc || key == Key::Char('q')
}

/// What a key does while the prompt is edited.
pub open spec fn prompt_key(s: CliStateModel, key: Key) -> (CliStateModel, UiCommandModel) {
    if is_quit_key(key) {
        (s, UiCommandModel::Quit)
    } else {
        match key {
            Key::Char(c) => (typed(s, c), UiCommandModel::NoOp),
            Key::Backspace => (erased(s), UiCommandModel::NoOp),
            Key::Enter => if is_blank(s.input) {
                (s, UiCommandModel::NoOp)
            } else {
                (CliStateModel { input: Seq::empty(), ..s }, UiCommandModel::SubmitPrompt(s.input))
            },
            _ => (s, UiCommandModel::NoOp),
        }
    }
}

/// What a key does while an approval is pending.
pub open spec fn approval_key(s: CliStateModel, key: Key) -> UiCommandModel {
    match s.pending_approval {
        None => UiCommandModel::NoOp,
        Some(p) => if is_quit_key(key) {
            UiCommandModel::Quit
        } else if key == Key::Char('a') {
            UiCommandModel::ApproveOnce(p.approval_id)
        } else if key == Key::Char('s') {
            UiCommandModel::ApproveSession(p.approval_id)
        } else if key == Key::Char('r') {
            UiCommandModel::Reject(p.approval_id)
        } else {
            UiCommandModel::NoOp
        },
    }
}

/// The state after one row up.
pub open spec fn scrolled_up(s: CliStateModel) -> CliStateModel {
    CliStateModel { log_scroll: if s.log_scroll == 0 { 0 } else { (s.log_scroll - 1) as u16 }, ..s }
}

/// The state after one row down.
pub open spec fn scrolled_down(s: CliStateModel) -> CliStateModel {
    let bottom = crate::cli::app::bottom_row(s.lines.len());
    CliStateModel {
        log_scroll: if s.log_scroll + 1 <= bottom { (s.log_scroll + 1) as u16 } else { bottom },
        ..s
    }
}

/// What a key does.
pub open spec fn key_effect(s: CliStateModel, key: Key) -> (CliStateModel, UiCommandModel) {
    if key == Key::Up {
        (scrolled_up(s), UiCommandModel::NoOp)
    } else if key == Key::Down {
        (scrolled_down(s), UiCommandModel::NoOp)
    } else {
        match s.mode {
            UiMode::EditingPrompt => prompt_key(s, key),
            UiMode::RunningAgent => (
                s,
                if is_quit_key(key) { UiCommandModel::Quit } else { UiCommandModel::NoOp },
            ),
            UiMode::PendingApproval => (s, approval_key(s, key)),
        }
    }
}

/// Handles a key while the prompt is edited.
pub fn handle_prompt_key(state: &mut CliState, key: Key) -> (r: UiCommand)
    ensures
        (final(state)@, r@) == prompt_key(old(state)@, key),
{
    match key {
        Key::Esc | Key::Char('q') => UiCommand::Quit,
        Key::Char(c) => {
            state.push_char(c);
            UiCommand::NoOp
        },
        Key::Backspace => {
            state.backspace();
            UiCommand::NoOp
        },
        Key::Enter => match state.take_prompt() {
            Some(prompt) => UiCommand::SubmitPrompt(prompt),
            None => UiCommand::NoOp,
        },
        _ => UiCommand::NoOp,
    }
}

/// Handles a key while the agent runs: only quitting does anything.
pub fn handle_running_key(state: &mut CliState, key: Key) -> (r: UiCommand)
    ensures
        final(state)@ == old(state)@,
        r@ == (if is_quit_key(key) { UiCommandModel::Quit } else { UiCommandModel::NoOp }),
{
    match key {
        Key::Esc | Key::Char('q') => UiCommand::Quit,
        _ => UiCommand::NoOp,
    }
}

/// Handles a key while an approval is pending: `a` approves once, `s` for
/// the session, `r` rejects; with nothing pending, no key does anything.
pub fn handle_approval_key(state: &mut CliState, key: Key) -> (r: UiCommand)
    ensures
        final(state)@ == old(state)@,
        r@ == approval_key(old(state)@, key),
{
    match &state.pending_approval {
        None => UiCommand::NoOp,
        Some(pending) => match key {
            Key::Esc | Key::Char('q') => UiCommand::Quit,
            Key::Char('a') => UiCommand::ApproveOnce(pending.approval_id.clone()),
            Key::Char('s') => UiCommand::ApproveSession(pending.approval_id.clone()),
            Key::Char('r') => UiCommand::Reject(pending.approval_id.clone()),
            _ => UiCommand::NoOp,
        },
    }
}

/// Handles a key: Up and Down scroll in every mode; other keys depend on the mode.
pub fn handle_key(state: &mut CliState, key: Key) -> (r: UiCommand)
    ensures
        (final(state)@, r@) == key_effect(old(state)@, key),
{
    match key {
        Key::Up => {
            state.scroll_log_up();
            return UiCommand::NoOp;
        },
        Key::Down => {
            state.scroll_log_down();
            return UiCommand::NoOp;
        },
        _ => {},
    }
    match state.mode {
        UiMode::EditingPrompt => handle_prompt_key(state, key),
        UiMode::RunningAgent => handle_running_key(state, key),
        UiMode::PendingApproval => handle_approval_key(state, key),
    }
}

/// The state and effect of a command.
pub open spec fn command_effect(s: CliStateModel, command: UiCommandModel) -> (CliStateModel, CommandEffectModel) {
    let answered = CliStateModel { pending_approval: None, mode: UiMode::RunningAgent, ..s };
    match command {
        UiCommandModel::NoOp => (s, CommandEffectModel::Nothing),
        UiCommandModel::Quit => (CliStateModel { should_quit: true, ..s }, CommandEffectModel::Nothing),
        UiCommandModel::SubmitPrompt(p) => (
            CliStateModel { lines: s.lines.push(UiLineModel::User(p)), mode: UiMode::RunningAgent, ..s },
            CommandEffectModel::StartAgent(p),
        ),
        UiCommandModel::ApproveOnce(id) => (
            answered,
            CommandEffectModel::SendApproval {
                approval_id: id,
                decision: UserApprovalDecision::Approved { persistence: ApprovalPersistence::Once },
            },
        ),
        UiCommandModel::ApproveSession(id) => (
            answered,
            CommandEffectModel::SendApproval {
                approval_id: id,
                decision: UserApprovalDecision::Approved { persistence: ApprovalPersistence::Session },
            },
        ),
        UiCommandModel::Reject(id) => (
            answered,
            CommandEffectModel::SendApproval { approval_id: id, decision: UserApprovalDecision::Rejected },
        ),
    }
}

/// Carries out a command on the state and says what the host must do: a
/// submitted prompt is shown and starts the agent; an answer to an approval
/// is sent, the request is closed and the agent runs on.
pub fn handle_command(state: &mut CliState, command: UiCommand) -> (r: CommandEffect)
    ensures
        (final(state)@, r@) == command_effect(old(state)@, command@),
        // The decision sent is the one the command names.
        command@ matches UiCommandModel::ApproveOnce(id) ==> r@ == (CommandEffectModel::SendApproval {
            approval_id: id,
            decision: UserApprovalDecision::Approved { persistence: ApprovalPersistence::Once },
        }),
        command@ matches UiCommandModel::ApproveSession(id) ==> r@ == (CommandEffectModel::SendApproval {
            approval_id: id,
            decision: UserApprovalDecision::Approved { persistence: ApprovalPersistence::Session },
        }),
        command@ matches UiCommandModel::Reject(id) ==> r@ == (CommandEffectModel::SendApproval {
            approval_id: id,
            decision: UserApprovalDecision::Rejected,
        }),
{
    match command {
        UiCommand::NoOp => CommandEffect::Nothing,
        UiCommand::Quit => {
            state.should_quit = true;
            CommandEffect::Nothing
        },
        UiCommand::SubmitPrompt(prompt) => {
            state.push_line(UiLine::User(prompt.clone()));
            state.mode = UiMode::RunningAgent;
            CommandEffect::StartAgent(prompt)
        },
        UiCommand::ApproveOnce(approval_id) => {
            send_approval(state, approval_id, ApprovalPersistence::Once)
        },
        UiCommand::ApproveSession(approval_id) => {
            send_approval(state, approval_id, ApprovalPersistence::Session)
        },
        UiCommand::Reject(approval_id) => {
            state.pending_approval = None;
            state.mode = UiMode::RunningAgent;
            CommandEffect::SendApproval { approval_id, decision: UserApprovalDecision::Rejected }
        },
    }
}

fn send_approval(state: &mut CliState, approval_id: String, persistence: ApprovalPersistence) -> (r:
    CommandEffect)
    ensures
        final(state)@ == (CliStateModel {
            pending_approval: None,
            mode: UiMode::RunningAgent,
            ..old(state)@
        }),
        r@ == (CommandEffectModel::SendApproval {
            approval_id: approval_id@,
            decision: UserApprovalDecision::Approved { persistence },
        }),
{
    state.pending_approval = None;
    state.mode = UiMode::RunningAgent;
    CommandEffect::SendApproval { approval_id, decision: UserApprovalDecision::Approved { persistence } }
}

/// How an agent event changes the interface.
pub open spec fn stream_event_effect(s: CliStateModel, event: StreamEventModel) -> CliStateModel {
    match event {
        StreamEventModel::TextDelta(t) => with_model_delta(s, t),
        StreamEventModel::ThinkingDelta(t) => with_thinking_delta(s, t),
        StreamEventModel::ToolCallFinished(call) => CliStateModel {
            lines: s.lines.push(UiLineModel::Tool(call.name + " "@ + call.arguments)),
            ..s
        },
        StreamEventModel::ToolRunStarted { name, arguments, .. } => CliStateModel {
            lines: s.lines.push(UiLineModel::Tool("started "@ + name + ": "@ + arguments)),
            ..s
        },
        StreamEventModel::ToolRunFinished { name, output, .. } => CliStateModel {
            lines: s.lines.push(UiLineModel::Tool("finished "@ + name + ": "@ + output)),
            ..s
        },
        StreamEventModel::ToolRunFailed { name, error, .. } => CliStateModel {
            lines: s.lines.push(UiLineModel::Error(name + " failed: "@ + error)),
            ..s
        },
        StreamEventModel::CommandNeedsApproval { approval_id, reason, scope, .. } => CliStateModel {
            pending_approval: Some(
                PendingApprovalModel { approval_id, reason, scope_summary: scope.debug_text() },
            ),
            mode: UiMode::PendingApproval,
            ..s
        },
        other => CliStateModel { lines: s.lines.push(UiLineModel::Command(other.debug_text())), ..s },
    }
}

/// Shows an agent event: text and thinking extend the transcript, tool
/// activity adds a line, an approval request opens the approval prompt, and
/// any other event is shown as its `Debug` text.
pub fn apply_stream_event(state: &mut CliState, event: StreamEvent)
    ensures
        final(state)@ == stream_event_effect(old(state)@, event@),
{
    let ghost e = event@;
    match event {
        StreamEvent::TextDelta(text) => state.append_model_delta(text),
        StreamEvent::ThinkingDelta(text) => state.append_thinking_delta(text),
        StreamEvent::ToolCallFinished(call) => {
            let mut t = call.name.clone();
            t.append(" ");
            t.append(call.arguments.as_str());
            state.push_line(UiLine::Tool(t));
        },
        StreamEvent::ToolRunStarted { name, arguments, .. } => {
            let mut t = "started ".to_string();
            t.append(name.as_str());
            t.append(": ");
            t.append(arguments.as_str());
            state.push_line(UiLine::Tool(t));
        },
        StreamEvent::ToolRunFinished { name, output, .. } => {
            let mut t = "finished ".to_string();
            t.append(name.as_str());
            t.append(": ");
            t.append(output.as_str());
            state.push_line(UiLine::Tool(t));
        },
        StreamEvent::ToolRunFailed { name, error, .. } => {
            let mut t = name.clone();
            t.append(" failed: ");
            t.append(error.as_str());
            state.push_line(UiLine::Error(t));
        },
        StreamEvent::CommandNeedsApproval { approval_id, reason, scope, .. } => {
            let scope_summary = scope.debug_string();
            state.pending_approval = Some(PendingApprovalView { approval_id, reason, scope_summary });
            state.mode = UiMode::PendingApproval;
        },
        other => {
            let text = other.debug_string();
            state.push_line(UiLine::Command(text));
        },
    }
}

/// How a report of the agent task changes the interface.
pub open spec fn ui_event_effect(s: CliStateModel, event: UiEventModel) -> CliStateModel {
    match event {
        UiEventModel::Agent(e) => stream_event_effect(s, e),
        UiEventModel::AgentFailed(err) => CliStateModel {
            lines: s.lines.push(UiLineModel::Error(err)),
            mode: UiMode::EditingPrompt,
            ..s
        },
        UiEventModel::AgentFinished => CliStateModel {
            lines: s.lines.push(UiLineModel::Model("[completed]"@)),
            mode: UiMode::EditingPrompt,
            ..s
        },
    }
}

/// The mathematical value of a [`UiEvent`].
pub enum UiEventModel {
    Agent(StreamEventModel),
    AgentFailed(Seq<char>),
    AgentFinished,
}

impl View for UiEvent {
    type V = UiEventModel;

    open spec fn view(&self) -> UiEventModel {
        match self {
            UiEvent::Agent(e) => UiEventModel::Agent(e@),
            UiEvent::AgentFailed(err) => UiEventModel::AgentFailed(err@),
            UiEvent::AgentFinished => UiEventModel::AgentFinished,
        }
    }
}

/// Handles a report of the agent task: a failure or the end of the run adds
/// a line and returns to the prompt.
pub fn handle_ui_event(state: &mut CliState, event: UiEvent)
    ensures
        final(state)@ == ui_event_effect(old(state)@, event@),
{
    match event {
        UiEvent::Agent(event) => apply_stream_event(state, event),
        UiEvent::AgentFailed(err) => {
            state.push_line(UiLine::Error(err));
            state.mode = UiMode::EditingPrompt;
        },
        UiEvent::AgentFinished => {
            state.push_line(UiLine::Model("[completed]".to_string()));
            state.mode = UiMode::EditingPrompt;
        },
    }
}

/// Answering an approval always closes it and lets the agent run on; an
/// approval key does nothing when no approval is pending.
pub proof fn lemma_answers_close_the_approval(s: CliStateModel, key: Key)
    ensures
        s.pending_approval is None && s.mode == UiMode::PendingApproval && key != Key::Up && key
            != Key::Down ==> key_effect(s, key).1 is NoOp,
        ({
            let (s2, c) = key_effect(s, key);
            (c is ApproveOnce || c is ApproveSession || c is Reject) ==> command_effect(s2, c).0.pending_approval
                is None && command_effect(s2, c).0.mode == UiMode::RunningAgent
        }),
{
}

/// The decision sent for a pending approval is the one its key names: `a`
/// approves this command once, `s` approves its scope for the session, `r`
/// rejects it, each for the approval that is pending. The three answers
/// leave the interface in the same state; they differ only in the decision.
pub proof fn lemma_answer_follows_the_key(s: CliStateModel, p: PendingApprovalModel)
    requires
        s.mode == UiMode::PendingApproval,
        s.pending_approval == Some(p),
    ensures
        ({
            let (s1, c) = key_effect(s, Key::Char('a'));
            command_effect(s1, c).1 == (CommandEffectModel::SendApproval {
                approval_id: p.approval_id,
                decision: UserApprovalDecision::Approved { persistence: ApprovalPersistence::Once },
            })
        }),
        ({
            let (s1, c) = key_effect(s, Key::Char('s'));
            command_effect(s1, c).1 == (CommandEffectModel::SendApproval {
                approval_id: p.approval_id,
                decision: UserApprovalDecision::Approved { persistence: ApprovalPersistence::Session },
            })
        }),
        ({
            let (s1, c) = key_effect(s, Key::Char('r'));
            command_effect(s1, c).1 == (CommandEffectModel::SendApproval {
                approval_id: p.approval_id,
                decision: UserApprovalDecision::Rejected,
            })
        }),
        ({
            let (sa, ca) = key_effect(s, Key::Char('a'));
            let (ss, cs) = key_effect(s, Key::Char('s'));
            let (sr, cr) = key_effect(s, Key::Char('r'));
            command_effect(sa, ca).0 == command_effect(ss, cs).0 && command_effect(ss, cs).0
                == command_effect(sr, cr).0
        }),
{
}

/// Every answer to an approval sends its command's approval id with the
/// decision that command names.
pub proof fn lemma_answer_follows_the_command(s: CliStateModel, id: Seq<char>)
    ensures
        command_effect(s, UiCommandModel::ApproveOnce(id)).1 == (CommandEffectModel::SendApproval {
            approval_id: id,
            decision: UserApprovalDecision::Approved { persistence: ApprovalPersistence::Once },
        }),
        command_effect(s, UiCommandModel::ApproveSession(id)).1 == (CommandEffectModel::SendApproval {
            approval_id: id,
            decision: UserApprovalDecision::Approved { persistence: ApprovalPersistence::Session },
        }),
        command_effect(s, UiCommandModel::Reject(id)).1 == (CommandEffectModel::SendApproval {
            approval_id: id,
            decision: UserApprovalDecision::Rejected,
        }),
{
}

} // verus!
