//! The decisions of the ReAct loop: the conversation it keeps, how one
//! model turn is read, when the loop stops, and what a tool's outcome tells
//! the model.
//!
//! The loop alternates model turns, which stream events, with tool runs;
//! both are outside work. What is decided between them stands here: a turn
//! is fed event by event to a [`TurnState`], and [`AgentLoop`] says whether
//! another turn may start and which tool calls the finished turn asks for.

use vstd::prelude::*;
use crate::agent::stream_event::{StreamEvent, StreamEventModel, ToolCallFinished, ToolCallFinishedModel};
use crate::text::{concat, i64_to_string, int_text};
use crate::tool::runtime::{ToolRuntimeResult, ToolRuntimeResultModel};

verus! {

/// How many model turns a run may take when the caller does not say.
pub const DEFAULT_MAX_TURNS: u8 = 32;

/// One message of the conversation sent to the model.
pub enum ChatMessage {
    System { content: String },
    User { content: String },
    Assistant { content: String, reasoning_content: String, tool_calls: Vec<ToolCallFinished> },
    Tool { tool_call_id: String, content: String },
}

/// The mathematical value of a [`ChatMessage`].
pub enum ChatMessageModel {
    System { content: Seq<char> },
    User { content: Seq<char> },
    Assistant {
        content: Seq<char>,
        reasoning_content: Seq<char>,
        tool_calls: Seq<ToolCallFinishedModel>,
    },
    Tool { tool_call_id: Seq<char>, content: Seq<char> },
}

impl View for ChatMessage {
    type V = ChatMessageModel;

    open spec fn view(&self) -> ChatMessageModel {
        match self {
            ChatMessage::System { content } => ChatMessageModel::System { content: content@ },
            ChatMessage::User { content } => ChatMessageModel::User { content: content@ },
            ChatMessage::Assistant { content, reasoning_content, tool_calls } =>
                ChatMessageModel::Assistant {
                content: content@,
                reasoning_content: reasoning_content@,
                tool_calls: calls_model(tool_calls@),
            },
            ChatMessage::Tool { tool_call_id, content } => ChatMessageModel::Tool {
                tool_call_id: tool_call_id@,
                content: content@,
            },
        }
    }
}

/// The mathematical value of a list of tool calls.
pub open spec fn calls_model(calls: Seq<ToolCallFinished>) -> Seq<ToolCallFinishedModel> {
    calls.map_values(|c: ToolCallFinished| c@)
}

/// The mathematical value of a conversation.
pub open spec fn messages_model(messages: Seq<ChatMessage>) -> Seq<ChatMessageModel> {
    messages.map_values(|m: ChatMessage| m@)
}

/// Where `call` goes among calls already in index order: after every call
/// whose index is not greater than its own.
pub open spec fn insertion_point(sorted: Seq<ToolCallFinishedModel>, index: i64) -> nat
    decreases sorted.len(),
{
    if sorted.len() == 0 {
        0
    } else if sorted[0].index > index {
        0
    } else {
        1 + insertion_point(sorted.drop_first(), index)
    }
}

/// `call` inserted among calls in index order, after the calls of equal index.
pub open spec fn insert_by_index(
    sorted: Seq<ToolCallFinishedModel>,
    call: ToolCallFinishedModel,
) -> Seq<ToolCallFinishedModel> {
    let p = insertion_point(sorted, call.index) as int;
    sorted.take(p).push(call) + sorted.skip(p)
}

/// The calls in index order; calls of equal index keep their order.
pub open spec fn sorted_by_index(calls: Seq<ToolCallFinishedModel>) -> Seq<ToolCallFinishedModel>
    decreases calls.len(),
{
    if calls.len() == 0 {
        calls
    } else {
        insert_by_index(sorted_by_index(calls.drop_last()), calls.last())
    }
}

/// Whether calls are in index order.
pub open spec fn index_ordered(calls: Seq<ToolCallFinishedModel>) -> bool {
    forall|i: int, j: int| 0 <= i <= j < calls.len() ==> calls[i].index <= calls[j].index
}

proof fn lemma_insertion_point(sorted: Seq<ToolCallFinishedModel>, index: i64)
    ensures
        insertion_point(sorted, index) <= sorted.len(),
        index_ordered(sorted) ==> (forall|i: int|
            0 <= i < insertion_point(sorted, index) ==> sorted[i].index <= index),
        insertion_point(sorted, index) < sorted.len() ==> sorted[insertion_point(
            sorted,
            index,
        ) as int].index > index,
    decreases sorted.len(),
{
    if sorted.len() > 0 && sorted[0].index <= index {
        lemma_insertion_point(sorted.drop_first(), index);
        let p = insertion_point(sorted, index) as int;
        if index_ordered(sorted) {
            assert(index_ordered(sorted.drop_first()));
            assert forall|i: int| 0 <= i < p implies sorted[i].index <= index by {
                if i > 0 {
                    assert(sorted[i] == sorted.drop_first()[i - 1]);
                }
            }
        }
        if p < sorted.len() {
            assert(sorted[p] == sorted.drop_first()[p - 1]);
        }
    }
}

proof fn lemma_insert_keeps_order(sorted: Seq<ToolCallFinishedModel>, call: ToolCallFinishedModel)
    requires
        index_ordered(sorted),
    ensures
        index_ordered(insert_by_index(sorted, call)),
        insert_by_index(sorted, call).to_multiset() == sorted.to_multiset().insert(call),
{
    lemma_insertion_point(sorted, call.index);
    let p = insertion_point(sorted, call.index) as int;
    let r = insert_by_index(sorted, call);
    assert(r.len() == sorted.len() + 1);
    assert forall|i: int| 0 <= i < r.len() implies #[trigger] r[i] == (if i < p {
        sorted[i]
    } else if i == p {
        call
    } else {
        sorted[i - 1]
    }) by {}
    assert forall|i: int, j: int| 0 <= i <= j < r.len() implies r[i].index <= r[j].index by {
        if i < p && j > p {
            assert(sorted[i].index <= sorted[j - 1].index);
        } else if i == p && j > p {
            assert(sorted[p].index > call.index);
            assert(sorted[p].index <= sorted[j - 1].index);
        }
    }
    vstd::seq_lib::lemma_multiset_commutative(sorted.take(p).push(call), sorted.skip(p));
    vstd::seq_lib::lemma_multiset_commutative(sorted.take(p), sorted.skip(p));
    assert(sorted.take(p) + sorted.skip(p) =~= sorted);
    sorted.take(p).to_multiset_ensures();
}

/// Sorting tool calls by index gives the same calls, in index order.
pub proof fn lemma_sorted_by_index(calls: Seq<ToolCallFinishedModel>)
    ensures
        index_ordered(sorted_by_index(calls)),
        sorted_by_index(calls).to_multiset() == calls.to_multiset(),
        sorted_by_index(calls).len() == calls.len(),
    decreases calls.len(),
{
    if calls.len() > 0 {
        lemma_sorted_by_index(calls.drop_last());
        lemma_insert_keeps_order(sorted_by_index(calls.drop_last()), calls.last());
        calls.drop_last().to_multiset_ensures();
        assert(calls.drop_last().push(calls.last()) =~= calls);
        sorted_by_index(calls).to_multiset_ensures();
        lemma_insertion_point(sorted_by_index(calls.drop_last()), calls.last().index);
    } else {
        calls.to_multiset_ensures();
    }
}

/// The calls sorted by index; calls of equal index keep their order.
pub fn sort_calls_by_index(calls: Vec<ToolCallFinished>) -> (r: Vec<ToolCallFinished>)
    ensures
        calls_model(r@) == sorted_by_index(calls_model(calls@)),
{
    let mut sorted: Vec<ToolCallFinished> = Vec::new();
    let mut i: usize = 0;
    while i < calls.len()
        invariant
            i <= calls.len(),
            calls_model(sorted@) == sorted_by_index(calls_model(calls@.take(i as int))),
        decreases calls.len() - i,
    {
        let call = calls[i].duplicate();
        let mut p: usize = 0;
        assert(calls_model(sorted@).skip(0) =~= calls_model(sorted@));
        while p < sorted.len() && sorted[p].index <= call.index
            invariant
                p <= sorted.len(),
                insertion_point(calls_model(sorted@), call.index) == p + insertion_point(
                    calls_model(sorted@).skip(p as int),
                    call.index,
                ),
            decreases sorted.len() - p,
        {
            assert(calls_model(sorted@).skip(p as int).drop_first() =~= calls_model(sorted@).skip(
                p + 1,
            ));
            p = p + 1;
        }
        proof {
            if p < sorted.len() {
                assert(calls_model(sorted@).skip(p as int)[0] == sorted@[p as int]@);
            }
            assert(calls_model(calls@.take(i + 1)).drop_last() =~= calls_model(
                calls@.take(i as int),
            ));
            assert(calls_model(calls@.take(i + 1)).last() == call@);
        }
        let ghost before = calls_model(sorted@);
        sorted.insert(p, call);
        assert(calls_model(sorted@) =~= before.take(p as int).push(call@) + before.skip(p as int));
        i = i + 1;
    }
    assert(calls@.take(calls.len() as int) =~= calls@);
    sorted
}

/// The state of a run between model turns: the conversation so far and the
/// number of turns taken.
pub struct AgentLoop {
    pub messages: Vec<ChatMessage>,
    pub run_turns: u8,
    pub max_turns: u8,
}

/// What one model turn has streamed so far: its text, its reasoning and the
/// tool calls it asked for.
pub struct TurnState {
    pub ai_content: String,
    pub reasoning_content: String,
    pub pending_tool_calls: Vec<ToolCallFinished>,
}

/// What to do with one streamed event of a model turn.
pub enum TurnStep {
    /// Pass the event on to the run's observers.
    Forward(StreamEvent),
    /// The model has finished the turn.
    EndOfTurn,
    /// The model reported an error; the run fails with it.
    Fail(String),
}

/// The mathematical value of a [`TurnStep`].
pub enum TurnStepModel {
    Forward(StreamEventModel),
    EndOfTurn,
    Fail(Seq<char>),
}

impl View for TurnStep {
    type V = TurnStepModel;

    open spec fn view(&self) -> TurnStepModel {
        match self {
            TurnStep::Forward(e) => TurnStepModel::Forward(e@),
            TurnStep::EndOfTurn => TurnStepModel::EndOfTurn,
            TurnStep::Fail(e) => TurnStepModel::Fail(e@),
        }
    }
}

/// The conversation a run starts from: an empty system message and the prompt.
pub open spec fn initial_messages(prompt: Seq<char>) -> Seq<ChatMessageModel> {
    seq![ChatMessageModel::System { content: Seq::empty() }, ChatMessageModel::User { content: prompt }]
}

/// The observation a tool's outcome gives the model: the output, the error,
/// or the refusal or skip marked as such.
pub open spec fn observation_text(result: ToolRuntimeResultModel) -> Seq<char> {
    match result {
        ToolRuntimeResultModel::Finished { output } => output,
        ToolRuntimeResultModel::Failed { error } => error,
        ToolRuntimeResultModel::Denied { reason } => "tool denied: "@ + reason,
        ToolRuntimeResultModel::Skipped { reason } => "tool skipped: "@ + reason,
    }
}

/// The observations of a round of tool runs: one tool message per run, in
/// order, each naming its call and holding what its outcome tells the model.
pub open spec fn observations(runs: Seq<(ToolCallFinished, ToolRuntimeResult)>) -> Seq<ChatMessageModel> {
    Seq::new(
        runs.len(),
        |i: int|
            ChatMessageModel::Tool {
                tool_call_id: runs[i].0@.call_id,
                content: observation_text(runs[i].1@),
            },
    )
}

/// How many of `k` further calls of [`AgentLoop::begin_turn`] start a turn,
/// from `run_turns` turns taken of at most `max_turns`: each call starts one
/// while turns are left, and a refused call changes nothing.
pub open spec fn turns_started(run_turns: nat, max_turns: nat, k: nat) -> nat
    decreases k,
{
    if k == 0 || run_turns >= max_turns {
        0
    } else {
        1 + turns_started(run_turns + 1, max_turns, (k - 1) as nat)
    }
}

/// The model is asked at most `max_turns` times in a run: of any number of
/// calls of `begin_turn` on a new run, exactly as many start a turn as the
/// limit allows, and every later call is refused.
pub proof fn lemma_at_most_max_turns(max_turns: nat, k: nat)
    ensures
        turns_started(0, max_turns, k) == if k <= max_turns { k } else { max_turns },
{
    lemma_turns_started(0, max_turns, k);
}

proof fn lemma_turns_started(run_turns: nat, max_turns: nat, k: nat)
    requires
        run_turns <= max_turns,
    ensures
        turns_started(run_turns, max_turns, k) == if k <= max_turns - run_turns {
            k
        } else {
            (max_turns - run_turns) as nat
        },
    decreases k,
{
    if k > 0 && run_turns < max_turns {
        lemma_turns_started(run_turns + 1, max_turns, (k - 1) as nat);
    }
}

/// The mathematical value of a [`TurnState`].
pub struct TurnStateModel {
    pub ai_content: Seq<char>,
    pub reasoning_content: Seq<char>,
    pub pending_tool_calls: Seq<ToolCallFinishedModel>,
}

impl View for TurnState {
    type V = TurnStateModel;

    open spec fn view(&self) -> TurnStateModel {
        TurnStateModel {
            ai_content: self.ai_content@,
            reasoning_content: self.reasoning_content@,
            pending_tool_calls: calls_model(self.pending_tool_calls@),
        }
    }
}

/// A turn after one more streamed event: text and reasoning accumulate,
/// finished tool calls are kept, and nothing else changes the turn.
pub open spec fn turn_after(t: TurnStateModel, e: StreamEventModel) -> TurnStateModel {
    match e {
        StreamEventModel::TextDelta(text) => TurnStateModel { ai_content: t.ai_content + text, ..t },
        StreamEventModel::ThinkingDelta(text) => TurnStateModel {
            reasoning_content: t.reasoning_content + text,
            ..t
        },
        StreamEventModel::ToolCallFinished(call) => TurnStateModel {
            pending_tool_calls: t.pending_tool_calls.push(call),
            ..t
        },
        _ => t,
    }
}

/// What a streamed event of a turn leads to: completion ends the turn, an
/// error fails the run, and every other event is passed on as it is.
pub open spec fn turn_step(e: StreamEventModel) -> TurnStepModel {
    match e {
        StreamEventModel::Completed => TurnStepModel::EndOfTurn,
        StreamEventModel::Error(err) => TurnStepModel::Fail(err),
        _ => TurnStepModel::Forward(e),
    }
}

impl AgentLoop {
    /// Starts a run on a prompt, with at most `max_turns` model turns (32
    /// when not given). An empty prompt is refused.
    pub fn start(prompt: String, max_turns: Option<u8>) -> (r: Result<AgentLoop, String>)
        ensures
            prompt@.len() == 0 <==> r is Err,
            r matches Err(e) ==> e@ == "prompt should not be empty"@,
            r matches Ok(a) ==> messages_model(a.messages@) == initial_messages(prompt@)
                && a.run_turns == 0 && a.max_turns == (match max_turns {
                Some(m) => m,
                None => DEFAULT_MAX_TURNS,
            }),
    {
        if prompt.as_str().is_empty() {
            return Err("prompt should not be empty".to_string());
        }
        let max_turns = match max_turns {
            Some(m) => m,
            None => DEFAULT_MAX_TURNS,
        };
        let messages = vec![
            ChatMessage::System { content: String::new() },
            ChatMessage::User { content: prompt },
        ];
        assert(messages_model(messages@) =~= initial_messages(prompt@));
        Ok(AgentLoop { messages, run_turns: 0, max_turns })
    }

    /// Starts the next model turn, or fails once the turn limit is reached.
    pub fn begin_turn(&mut self) -> (r: Result<(), String>)
        ensures
            old(self).run_turns >= old(self).max_turns ==> (r matches Err(e) && e@
                == "max turns exceeded: "@ + int_text(old(self).max_turns as int)) && *final(self)
                == *old(self),
            old(self).run_turns < old(self).max_turns ==> r is Ok && final(self).run_turns
                == old(self).run_turns + 1 && final(self).max_turns == old(self).max_turns
                && final(self).messages == old(self).messages,
    {
        if self.run_turns >= self.max_turns {
            return Err(concat("max turns exceeded: ", i64_to_string(self.max_turns as i64).as_str()));
        }
        self.run_turns = self.run_turns + 1;
        Ok(())
    }

    /// Ends a model turn. A turn that asked for no tool ends the run (`None`).
    /// Otherwise the turn's text, reasoning and calls, sorted by index, are
    /// added to the conversation, and the calls are returned in that order.
    pub fn finish_turn(&mut self, turn: TurnState) -> (r: Option<Vec<ToolCallFinished>>)
        ensures
            turn.pending_tool_calls@.len() == 0 ==> r is None && *final(self) == *old(self),
            turn.pending_tool_calls@.len() > 0 ==> (r matches Some(calls) && calls_model(calls@)
                == sorted_by_index(calls_model(turn.pending_tool_calls@)) && messages_model(
                final(self).messages@,
            ) == messages_model(old(self).messages@).push(
                ChatMessageModel::Assistant {
                    content: turn.ai_content@,
                    reasoning_content: turn.reasoning_content@,
                    tool_calls: calls_model(calls@),
                },
            )),
            turn.pending_tool_calls@.len() > 0 ==> final(self).run_turns == old(self).run_turns
                && final(self).max_turns == old(self).max_turns,
    {
        if turn.pending_tool_calls.len() == 0 {
            return None;
        }
        let calls = sort_calls_by_index(turn.pending_tool_calls);
        let mut recorded: Vec<ToolCallFinished> = Vec::new();
        let mut i: usize = 0;
        while i < calls.len()
            invariant
                i <= calls.len(),
                calls_model(recorded@) == calls_model(calls@.take(i as int)),
            decreases calls.len() - i,
        {
            let ghost before = calls_model(recorded@);
            recorded.push(calls[i].duplicate());
            assert(calls_model(recorded@) =~= before.push(calls@[i as int]@));
            assert(calls_model(calls@.take(i + 1)) =~= calls_model(calls@.take(i as int)).push(
                calls@[i as int]@,
            ));
            i = i + 1;
        }
        assert(calls@.take(calls.len() as int) =~= calls@);
        let ghost before = messages_model(self.messages@);
        self.messages.push(
            ChatMessage::Assistant {
                content: turn.ai_content,
                reasoning_content: turn.reasoning_content,
                tool_calls: recorded,
            },
        );
        assert(messages_model(self.messages@) =~= before.push(
            ChatMessageModel::Assistant {
                content: turn.ai_content@,
                reasoning_content: turn.reasoning_content@,
                tool_calls: calls_model(calls@),
            },
        ));
        Some(calls)
    }

    /// Adds the outcomes of a round of tool runs to the conversation: one
    /// observation per call, in the order of the runs.
    pub fn record_tool_results(&mut self, runs: &Vec<(ToolCallFinished, ToolRuntimeResult)>)
        ensures
            messages_model(final(self).messages@) == messages_model(old(self).messages@) + observations(
                runs@,
            ),
            final(self).run_turns == old(self).run_turns,
            final(self).max_turns == old(self).max_turns,
    {
        let ghost start = messages_model(self.messages@);
        let mut i: usize = 0;
        while i < runs.len()
            invariant
                i <= runs.len(),
                messages_model(self.messages@) == start + observations(runs@.take(i as int)),
                self.run_turns == old(self).run_turns,
                self.max_turns == old(self).max_turns,
            decreases runs.len() - i,
        {
            let ghost before = messages_model(self.messages@);
            self.record_tool_result(&runs[i].0, &runs[i].1);
            assert(observations(runs@.take(i + 1)) =~= observations(runs@.take(i as int)).push(
                ChatMessageModel::Tool {
                    tool_call_id: runs@[i as int].0@.call_id,
                    content: observation_text(runs@[i as int].1@),
                },
            ));
            assert(messages_model(self.messages@) =~= start + observations(runs@.take(i + 1)));
            i = i + 1;
        }
        assert(runs@.take(runs.len() as int) =~= runs@);
    }

    /// Adds a tool's outcome to the conversation as the observation of its call.
    pub fn record_tool_result(&mut self, call: &ToolCallFinished, result: &ToolRuntimeResult)
        ensures
            messages_model(final(self).messages@) == messages_model(old(self).messages@).push(
                ChatMessageModel::Tool {
                    tool_call_id: call@.call_id,
                    content: observation_text(result@),
                },
            ),
            final(self).run_turns == old(self).run_turns,
            final(self).max_turns == old(self).max_turns,
    {
        let content = match result {
            ToolRuntimeResult::Finished { output } => output.clone(),
            ToolRuntimeResult::Failed { error } => error.clone(),
            ToolRuntimeResult::Denied { reason } => concat("tool denied: ", reason.as_str()),
            ToolRuntimeResult::Skipped { reason } => concat("tool skipped: ", reason.as_str()),
        };
        let ghost before = messages_model(self.messages@);
        self.messages.push(ChatMessage::Tool { tool_call_id: call.call_id.clone(), content });
        assert(messages_model(self.messages@) =~= before.push(
            ChatMessageModel::Tool {
                tool_call_id: call@.call_id,
                content: observation_text(result@),
            },
        ));
    }
}

impl TurnState {
    /// A turn that has streamed nothing yet.
    pub fn new() -> (r: TurnState)
        ensures
            r@.ai_content.len() == 0,
            r@.reasoning_content.len() == 0,
            r@.pending_tool_calls.len() == 0,
    {
        TurnState {
            ai_content: String::new(),
            reasoning_content: String::new(),
            pending_tool_calls: Vec::new(),
        }
    }

    /// Reads one streamed event of the turn. Text and reasoning are
    /// accumulated and passed on, finished tool calls are kept and passed on,
    /// completion ends the turn, an error fails the run, and any other event
    /// is passed on as it is.
    pub fn on_event(&mut self, event: StreamEvent) -> (r: TurnStep)
        ensures
            final(self)@ == turn_after(old(self)@, event@),
            r@ == turn_step(event@),
    {
        match event {
            StreamEvent::TextDelta(text) => {
                self.ai_content.append(text.as_str());
                TurnStep::Forward(StreamEvent::TextDelta(text))
            },
            StreamEvent::ThinkingDelta(text) => {
                self.reasoning_content.append(text.as_str());
                TurnStep::Forward(StreamEvent::ThinkingDelta(text))
            },
            StreamEvent::ToolCallFinished(call) => {
                let ghost before = calls_model(self.pending_tool_calls@);
                self.pending_tool_calls.push(call.duplicate());
                assert(calls_model(self.pending_tool_calls@) =~= before.push(call@));
                TurnStep::Forward(StreamEvent::ToolCallFinished(call))
            },
            StreamEvent::Completed => TurnStep::EndOfTurn,
            StreamEvent::Error(error) => TurnStep::Fail(error),
            other => TurnStep::Forward(other),
        }
    }
}

} // verus!
