//! The state of the terminal interface.

use vstd::prelude::*;
use crate::text::{chars_of, is_blank, str_is_blank, string_from_chars};

verus! {

/// The state of the terminal interface.
#[derive(Debug, Clone, PartialEq, Eq)]
pub struct CliState {
    pub mode: UiMode,
    pub input: String,
    pub lines: Vec<UiLine>,
    pub log_scroll: u16,
    pub pending_approval: Option<PendingApprovalView>,
    pub should_quit: bool,
}

/// What the interface is doing.
#[derive(Debug, Clone, Copy, PartialEq, Eq, Structural)]
pub enum UiMode {
    EditingPrompt,
    RunningAgent,
    PendingApproval,
}

/// One line of the transcript.
#[derive(Debug, Clone, PartialEq, Eq)]
pub enum UiLine {
    User(String),
    Thinking(String),
    Model(String),
    Tool(String),
    Command(String),
    Approval(String),
    Error(String),
}

/// An approval request shown to the user.
#[derive(Debug, Clone, PartialEq, Eq)]
pub struct PendingApprovalView {
    pub approval_id: String,
    pub reason: String,
    pub scope_summary: String,
}

/// The mathematical value of a [`UiLine`].
pub enum UiLineModel {
    User(Seq<char>),
    Thinking(Seq<char>),
    Model(Seq<char>),
    Tool(Seq<char>),
    Command(Seq<char>),
    Approval(Seq<char>),
    Error(Seq<char>),
}

/// The mathematical value of a [`PendingApprovalView`].
pub struct PendingApprovalModel {
    pub approval_id: Seq<char>,
    pub reason: Seq<char>,
    pub scope_summary: Seq<char>,
}

/// The mathematical value of a [`CliState`].
pub struct CliStateModel {
    pub mode: UiMode,
    pub input: Seq<char>,
    pub lines: Seq<UiLineModel>,
    pub log_scroll: u16,
    pub pending_approval: Option<PendingApprovalModel>,
    pub should_quit: bool,
}

impl View for UiLine {
    type V = UiLineModel;

    open spec fn view(&self) -> UiLineModel {
        match self {
            UiLine::User(t) => UiLineModel::User(t@),
            UiLine::Thinking(t) => UiLineModel::Thinking(t@),
            UiLine::Model(t) => UiLineModel::Model(t@),
            UiLine::Tool(t) => UiLineModel::Tool(t@),
            UiLine::Command(t) => UiLineModel::Command(t@),
            UiLine::Approval(t) => UiLineModel::Approval(t@),
            UiLine::Error(t) => UiLineModel::Error(t@),
        }
    }
}

impl View for PendingApprovalView {
    type V = PendingApprovalModel;

    open spec fn view(&self) -> PendingApprovalModel {
        PendingApprovalModel {
            approval_id: self.approval_id@,
            reason: self.reason@,
            scope_summary: self.scope_summary@,
        }
    }
}

/// The mathematical value of an optional pending approval.
pub open spec fn pending_model(p: Option<PendingApprovalView>) -> Option<PendingApprovalModel> {
    match p {
        Some(v) => Some(v@),
        None => None,
    }
}

impl View for CliState {
    type V = CliStateModel;

    open spec fn view(&self) -> CliStateModel {
        CliStateModel {
            mode: self.mode,
            input: self.input@,
            lines: self.lines@.map_values(|l: UiLine| l@),
            log_scroll: self.log_scroll,
            pending_approval: pending_model(self.pending_approval),
            should_quit: self.should_quit,
        }
    }
}


/// The last transcript row: the line count less one, saturating at zero, as
/// a row number (which wraps past 65535).
pub open spec fn bottom_row(line_count: nat) -> u16 {
    (if line_count == 0 { 0 } else { line_count - 1 }) as u16
}

/// The state after a model delta: it extends the last line when that is a
/// model line, else it starts one; the view then follows the bottom.
pub open spec fn with_model_delta(s: CliStateModel, delta: Seq<char>) -> CliStateModel {
    let lines = if s.lines.len() > 0 && (s.lines.last() is Model) {
        s.lines.drop_last().push(UiLineModel::Model(s.lines.last()->Model_0 + delta))
    } else {
        s.lines.push(UiLineModel::Model(delta))
    };
    CliStateModel { lines, log_scroll: bottom_row(lines.len()), ..s }
}

/// The state after a thinking delta, as for a model delta.
pub open spec fn with_thinking_delta(s: CliStateModel, delta: Seq<char>) -> CliStateModel {
    let lines = if s.lines.len() > 0 && (s.lines.last() is Thinking) {
        s.lines.drop_last().push(UiLineModel::Thinking(s.lines.last()->Thinking_0 + delta))
    } else {
        s.lines.push(UiLineModel::Thinking(delta))
    };
    CliStateModel { lines, log_scroll: bottom_row(lines.len()), ..s }
}

/// The input after one character is typed.
pub open spec fn typed(s: CliStateModel, c: char) -> CliStateModel {
    CliStateModel { input: s.input.push(c), ..s }
}

/// The input after a backspace.
pub open spec fn erased(s: CliStateModel) -> CliStateModel {
    CliStateModel {
        input: if s.input.len() == 0 { s.input } else { s.input.drop_last() },
        ..s
    }
}

impl CliState {
    /// The initial state: editing an empty prompt, nothing shown.
    pub fn new() -> (r: Self)
        ensures
            r@ == (CliStateModel {
                mode: UiMode::EditingPrompt,
                input: Seq::empty(),
                lines: Seq::empty(),
                log_scroll: 0,
                pending_approval: None,
                should_quit: false,
            }),
    {
        let r = CliState {
            mode: UiMode::EditingPrompt,
            input: String::new(),
            lines: Vec::new(),
            log_scroll: 0,
            pending_approval: None,
            should_quit: false,
        };
        assert(r@.lines =~= Seq::<UiLineModel>::empty());
        r
    }

    /// Types a character into the prompt.
    pub fn push_char(&mut self, c: char)
        ensures
            final(self)@ == typed(old(self)@, c),
    {
        let mut v = chars_of(self.input.as_str());
        v.push(c);
        self.input = string_from_chars(v);
    }

    /// Adds a line to the transcript.
    pub fn push_line(&mut self, line: UiLine)
        ensures
            final(self)@ == (CliStateModel { lines: old(self)@.lines.push(line@), ..old(self)@ }),
    {
        self.lines.push(line);
        assert(self@.lines =~= old(self)@.lines.push(line@));
    }

    /// Erases the last character of the prompt, if any.
    pub fn backspace(&mut self)
        ensures
            final(self)@ == erased(old(self)@),
    {
        let mut v = chars_of(self.input.as_str());
        if v.len() > 0 {
            v.pop();
            self.input = string_from_chars(v);
        }
    }

    /// Takes the prompt for submission; a blank prompt is kept and not taken.
    pub fn take_prompt(&mut self) -> (r: Option<String>)
        ensures
            is_blank(old(self)@.input) ==> r is None && final(self)@ == old(self)@,
            !is_blank(old(self)@.input) ==> (r matches Some(p) && p@ == old(self)@.input)
                && final(self)@ == (CliStateModel { input: Seq::empty(), ..old(self)@ }),
    {
        if str_is_blank(self.input.as_str()) {
            return None;
        }
        let mut taken = String::new();
        std::mem::swap(&mut taken, &mut self.input);
        Some(taken)
    }

    /// Appends a model delta to the transcript and follows the bottom.
    pub fn append_model_delta(&mut self, delta: String)
        ensures
            final(self)@ == with_model_delta(old(self)@, delta@),
    {
        let n = self.lines.len();
        let extend = n > 0 && match &self.lines[n - 1] {
            UiLine::Model(_) => true,
            _ => false,
        };
        if extend {
            let last = self.lines.pop();
            match last {
                Some(UiLine::Model(mut text)) => {
                    text.append(delta.as_str());
                    self.lines.push(UiLine::Model(text));
                },
                _ => {},
            }
        } else {
            self.lines.push(UiLine::Model(delta));
        }
        assert(self@.lines =~= with_model_delta(old(self)@, delta@).lines);
        self.scroll_to_bottom();
    }

    /// Appends a thinking delta to the transcript and follows the bottom.
    pub fn append_thinking_delta(&mut self, delta: String)
        ensures
            final(self)@ == with_thinking_delta(old(self)@, delta@),
    {
        let n = self.lines.len();
        let extend = n > 0 && match &self.lines[n - 1] {
            UiLine::Thinking(_) => true,
            _ => false,
        };
        if extend {
            let last = self.lines.pop();
            match last {
                Some(UiLine::Thinking(mut text)) => {
                    text.append(delta.as_str());
                    self.lines.push(UiLine::Thinking(text));
                },
                _ => {},
            }
        } else {
            self.lines.push(UiLine::Thinking(delta));
        }
        assert(self@.lines =~= with_thinking_delta(old(self)@, delta@).lines);
        self.scroll_to_bottom();
    }

    /// Scrolls the transcript up one row, stopping at the top.
    pub fn scroll_log_up(&mut self)
        ensures
            final(self)@ == (CliStateModel {
                log_scroll: if old(self)@.log_scroll == 0 { 0 } else { (old(self)@.log_scroll - 1) as u16 },
                ..old(self)@
            }),
    {
        self.log_scroll = self.log_scroll.saturating_sub(1);
    }

    /// Scrolls the transcript down one row, stopping at the bottom row.
    pub fn scroll_log_down(&mut self)
        ensures
            final(self)@ == (CliStateModel {
                log_scroll: if old(self)@.log_scroll + 1 <= bottom_row(old(self)@.lines.len()) {
                    (old(self)@.log_scroll + 1) as u16
                } else {
                    bottom_row(old(self)@.lines.len())
                },
                ..old(self)@
            }),
            final(self)@.log_scroll <= bottom_row(old(self)@.lines.len()),
    {
        let n = self.lines.len();
        let last: usize = if n == 0 { 0 } else { n - 1 };
        let max = last as u16;
        let next = self.log_scroll.saturating_add(1);
        self.log_scroll = if next <= max { next } else { max };
    }

    /// Scrolls to the last transcript row.
    pub fn scroll_to_bottom(&mut self)
        ensures
            final(self)@ == (CliStateModel { log_scroll: bottom_row(old(self)@.lines.len()), ..old(self)@ }),
    {
        let n = self.lines.len();
        let last: usize = if n == 0 { 0 } else { n - 1 };
        self.log_scroll = last as u16;
    }
}

/// How a transcript line is written as plain text.
pub open spec fn line_text(line: UiLineModel) -> Seq<char> {
    match line {
        UiLineModel::User(t) => "> "@ + t,
        UiLineModel::Thinking(t) => "[thinking] "@ + t,
        UiLineModel::Model(t) => t,
        UiLineModel::Tool(t) => "[tool] "@ + t,
        UiLineModel::Command(t) => "[command] "@ + t,
        UiLineModel::Approval(t) => "[approval] "@ + t,
        UiLineModel::Error(t) => "[error] "@ + t,
    }
}

impl UiLine {
    /// The line as plain text, with a marker for its kind.
    pub fn text(&self) -> (r: String)
        ensures
            r@ == line_text(self@),
    {
        match self {
            UiLine::User(text) => crate::text::concat("> ", text.as_str()),
            UiLine::Thinking(text) => crate::text::concat("[thinking] ", text.as_str()),
            UiLine::Model(text) => text.clone(),
            UiLine::Tool(text) => crate::text::concat("[tool] ", text.as_str()),
            UiLine::Command(text) => crate::text::concat("[command] ", text.as_str()),
            UiLine::Approval(text) => crate::text::concat("[approval] ", text.as_str()),
            UiLine::Error(text) => crate::text::concat("[error] ", text.as_str()),
        }
    }
}

/// Typing a character and erasing it leaves the state as it was.
pub proof fn lemma_backspace_undoes_typing(s: CliStateModel, c: char)
    ensures
        erased(typed(s, c)) == s,
{
    assert(s.input.push(c).drop_last() =~= s.input);
}

/// Two model deltas in a row make one line, as their concatenation would.
pub proof fn lemma_model_deltas_concatenate(s: CliStateModel, a: Seq<char>, b: Seq<char>)
    ensures
        with_model_delta(with_model_delta(s, a), b) == with_model_delta(s, a + b),
{
    let s1 = with_model_delta(s, a);
    assert(s1.lines.len() > 0 && s1.lines.last() is Model);
    if s.lines.len() > 0 && (s.lines.last() is Model) {
        assert(s1.lines.drop_last() =~= s.lines.drop_last());
        assert(s.lines.last()->Model_0 + a + b =~= s.lines.last()->Model_0 + (a + b));
        assert(with_model_delta(s1, b).lines =~= with_model_delta(s, a + b).lines);
    } else {
        assert(s1.lines.drop_last() =~= s.lines);
        assert(with_model_delta(s1, b).lines =~= with_model_delta(s, a + b).lines);
    }
}

/// Two thinking deltas in a row make one line, as their concatenation would.
pub proof fn lemma_thinking_deltas_concatenate(s: CliStateModel, a: Seq<char>, b: Seq<char>)
    ensures
        with_thinking_delta(with_thinking_delta(s, a), b) == with_thinking_delta(s, a + b),
{
    let s1 = with_thinking_delta(s, a);
    assert(s1.lines.len() > 0 && s1.lines.last() is Thinking);
    if s.lines.len() > 0 && (s.lines.last() is Thinking) {
        assert(s1.lines.drop_last() =~= s.lines.drop_last());
        assert(s.lines.last()->Thinking_0 + a + b =~= s.lines.last()->Thinking_0 + (a + b));
        assert(with_thinking_delta(s1, b).lines =~= with_thinking_delta(s, a + b).lines);
    } else {
        assert(s1.lines.drop_last() =~= s.lines);
        assert(with_thinking_delta(s1, b).lines =~= with_thinking_delta(s, a + b).lines);
    }
}

} // verus!
