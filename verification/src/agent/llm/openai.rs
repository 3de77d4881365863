//! Reading an OpenAI-compatible streaming response: cutting server-sent
//! events out of the received text, turning one chunk's delta into stream
//! events, and assembling tool calls whose arguments arrive in pieces.

use std::str::FromStr;
use vstd::prelude::*;
use crate::agent::stream_event::{option_string_model, StreamEvent, StreamEventModel, ToolCallFinished, ToolCallFinishedModel};
use crate::text::{
    chars_of, concat, decimal_digits, matches_at, occurs_at, string_from_chars, string_of_range, u64_digits,
};

verus! {

/// The part of one streamed chunk that the agent reads: the first choice's
/// delta. A text field is `None` where the chunk holds JSON `null` (or
/// nothing), and otherwise its string, empty where the value is no string.
pub struct ChunkDelta {
    pub content: Option<String>,
    pub reasoning_content: Option<String>,
    pub tool_calls: Vec<ToolCallDelta>,
    /// Whether the choice's `finish_reason` is set.
    pub finished: bool,
}

/// One piece of a tool call in a chunk: its position among the turn's tool
/// calls, its id, its function name and a piece of its arguments. Missing
/// values read as 0 or as the empty string.
pub struct ToolCallDelta {
    pub index: i64,
    pub id: String,
    pub name: String,
    pub arguments: String,
}

/// A tool call being assembled from the pieces of several chunks.
pub struct ToolCallCache {
    pub index: i64,
    pub id: String,
    pub name: String,
    pub arguments: String,
}

/// The mathematical value of a [`ToolCallDelta`].
pub struct ToolCallDeltaModel {
    pub index: i64,
    pub id: Seq<char>,
    pub name: Seq<char>,
    pub arguments: Seq<char>,
}

/// The mathematical value of a [`ChunkDelta`].
pub struct ChunkDeltaModel {
    pub content: Option<Seq<char>>,
    pub reasoning_content: Option<Seq<char>>,
    pub tool_calls: Seq<ToolCallDeltaModel>,
    pub finished: bool,
}

/// The mathematical value of a [`ToolCallCache`].
pub struct ToolCallCacheModel {
    pub index: i64,
    pub id: Seq<char>,
    pub name: Seq<char>,
    pub arguments: Seq<char>,
}

impl View for ToolCallDelta {
    type V = ToolCallDeltaModel;

    open spec fn view(&self) -> ToolCallDeltaModel {
        ToolCallDeltaModel {
            index: self.index,
            id: self.id@,
            name: self.name@,
            arguments: self.arguments@,
        }
    }
}

impl View for ChunkDelta {
    type V = ChunkDeltaModel;

    open spec fn view(&self) -> ChunkDeltaModel {
        ChunkDeltaModel {
            content: option_string_model(self.content),
            reasoning_content: option_string_model(self.reasoning_content),
            tool_calls: self.tool_calls@.map_values(|t: ToolCallDelta| t@),
            finished: self.finished,
        }
    }
}

impl View for ToolCallCache {
    type V = ToolCallCacheModel;

    open spec fn view(&self) -> ToolCallCacheModel {
        ToolCallCacheModel {
            index: self.index,
            id: self.id@,
            name: self.name@,
            arguments: self.arguments@,
        }
    }
}

/// The mathematical value of the tool calls being assembled.
pub open spec fn caches_model(c: Seq<ToolCallCache>) -> Seq<ToolCallCacheModel> {
    c.map_values(|t: ToolCallCache| t@)
}

/// The mathematical value of a list of events.
pub open spec fn events_model(e: Seq<StreamEvent>) -> Seq<StreamEventModel> {
    e.map_values(|x: StreamEvent| x@)
}

// ---------------------------------------------------------------------------
// Server-sent events

/// Where the first event of `buf` ends: the position of the first blank
/// line (`"\n\n"`), if there is one.
pub open spec fn event_end(buf: Seq<char>) -> Option<int>
    decreases buf.len(),
{
    if buf.len() < 2 {
        None
    } else if buf[0] == '\n' && buf[1] == '\n' {
        Some(0)
    } else {
        match event_end(buf.drop_first()) {
            Some(i) => Some(i + 1),
            None => None,
        }
    }
}

/// The first event of a buffer ends inside it, at a blank line.
pub proof fn lemma_event_end(buf: Seq<char>)
    ensures
        event_end(buf) matches Some(i) ==> 0 <= i && i + 2 <= buf.len() && buf[i] == '\n' && buf[i
            + 1] == '\n',
    decreases buf.len(),
{
    if buf.len() >= 2 && !(buf[0] == '\n' && buf[1] == '\n') {
        lemma_event_end(buf.drop_first());
    }
}

/// The data events complete in `buf`, and what is left of `buf` after them.
///
/// Events end at a blank line. An event that starts with `"data: "` gives
/// the text after that prefix; other events are dropped; a `"[DONE]"` event
/// ends the reading, and what follows it is left in the buffer.
pub open spec fn sse_split(buf: Seq<char>) -> (Seq<Seq<char>>, Seq<char>)
    decreases buf.len(),
{
    match event_end(buf) {
        None => (Seq::empty(), buf),
        Some(i) => {
            proof {
                lemma_event_end(buf);
            }
            let event = buf.take(i);
            let rest = buf.skip(i + 2);
            if occurs_at(event, "data: "@, 0) {
                let payload = event.skip(6);
                if payload == "[DONE]"@ {
                    (Seq::empty(), rest)
                } else {
                    let (events, left) = sse_split(rest);
                    (seq![payload] + events, left)
                }
            } else {
                sse_split(rest)
            }
        },
    }
}

/// The events taken out of a buffer never include the end marker.
pub proof fn lemma_sse_events_exclude_done(buf: Seq<char>)
    ensures
        forall|i: int| 0 <= i < sse_split(buf).0.len() ==> #[trigger] sse_split(buf).0[i] != "[DONE]"@,
    decreases buf.len(),
{
    match event_end(buf) {
        None => {},
        Some(i) => {
            lemma_event_end(buf);
            let event = buf.take(i);
            let rest = buf.skip(i + 2);
            lemma_sse_events_exclude_done(rest);
            if !occurs_at(event, "data: "@, 0) {
                assert(sse_split(buf) == sse_split(rest));
            } else {
                let payload = event.skip(6);
                if payload == "[DONE]"@ {
                    assert(sse_split(buf).0.len() == 0);
                } else {
                    let (events, left) = sse_split(rest);
                    assert forall|k: int| 0 <= k < sse_split(buf).0.len() implies #[trigger] sse_split(
                        buf,
                    ).0[k] != "[DONE]"@ by {
                        assert(sse_split(buf).0 == seq![payload] + events);
                        if k > 0 {
                            assert(sse_split(buf).0[k] == events[k - 1]);
                        }
                    }
                }
            }
        },
    }
}

/// Whether reading `buf` stops at an end marker.
pub open spec fn sse_done_seen(buf: Seq<char>) -> bool
    decreases buf.len(),
{
    match event_end(buf) {
        None => false,
        Some(i) => {
            proof {
                lemma_event_end(buf);
            }
            let event = buf.take(i);
            let rest = buf.skip(i + 2);
            if occurs_at(event, "data: "@, 0) && event.skip(6) == "[DONE]"@ {
                true
            } else {
                sse_done_seen(rest)
            }
        },
    }
}

proof fn lemma_event_end_concat(x: Seq<char>, y: Seq<char>)
    ensures
        event_end(x) matches Some(i) ==> event_end(x + y) == Some(i),
    decreases x.len(),
{
    if x.len() >= 2 && !(x[0] == '\n' && x[1] == '\n') {
        lemma_event_end_concat(x.drop_first(), y);
        assert((x + y).drop_first() =~= x.drop_first() + y);
    }
}

/// Received text may arrive in any pieces: taking the events of a first
/// piece, then of what it left followed by the next piece, gives the events
/// of the whole text, as long as no end marker came in the first piece.
pub proof fn lemma_sse_split_concat(a: Seq<char>, b: Seq<char>)
    requires
        !sse_done_seen(a),
    ensures
        sse_split(a + b).0 == sse_split(a).0 + sse_split(sse_split(a).1 + b).0,
        sse_split(a + b).1 == sse_split(sse_split(a).1 + b).1,
    decreases a.len(),
{
    match event_end(a) {
        None => {
            assert(Seq::<Seq<char>>::empty() + sse_split(a + b).0 =~= sse_split(a + b).0);
        },
        Some(i) => {
            lemma_event_end(a);
            lemma_event_end_concat(a, b);
            let event = a.take(i);
            assert((a + b).take(i) =~= event);
            assert((a + b).skip(i + 2) =~= a.skip(i + 2) + b);
            let rest = a.skip(i + 2);
            lemma_sse_split_concat(rest, b);
            if occurs_at(event, "data: "@, 0) {
                let payload = event.skip(6);
                let (events, left) = sse_split(rest + b);
                assert(seq![payload] + (sse_split(rest).0 + sse_split(sse_split(rest).1 + b).0)
                    =~= (seq![payload] + sse_split(rest).0) + sse_split(sse_split(rest).1 + b).0);
            }
        },
    }
}

/// Whether a text holds no blank line (`"\n\n"`).
pub open spec fn has_no_blank_line(b: Seq<char>) -> bool {
    forall|k: int| 0 <= k < b.len() - 1 ==> !(#[trigger] b[k] == '\n' && b[k + 1] == '\n')
}

/// Whether a text can stand as one event before a blank line: it holds no
/// blank line and does not end in a line break.
pub open spec fn is_event_block(b: Seq<char>) -> bool {
    has_no_blank_line(b) && (b.len() == 0 || b.last() != '\n')
}

/// Events written one after another, each followed by a blank line, and then
/// an unfinished rest.
pub open spec fn joined_events(blocks: Seq<Seq<char>>, rest: Seq<char>) -> Seq<char>
    decreases blocks.len(),
{
    if blocks.len() == 0 {
        rest
    } else {
        blocks[0] + seq!['\n', '\n'] + joined_events(blocks.drop_first(), rest)
    }
}

/// The payloads of the data events among `blocks`, in order, up to the
/// first end marker.
pub open spec fn data_payloads(blocks: Seq<Seq<char>>) -> Seq<Seq<char>>
    decreases blocks.len(),
{
    if blocks.len() == 0 {
        Seq::empty()
    } else if occurs_at(blocks[0], "data: "@, 0) {
        if blocks[0].skip(6) == "[DONE]"@ {
            Seq::empty()
        } else {
            seq![blocks[0].skip(6)] + data_payloads(blocks.drop_first())
        }
    } else {
        data_payloads(blocks.drop_first())
    }
}

/// What is left after reading `blocks` then `rest`: the rest, or, after an
/// end marker, everything that follows the marker's blank line.
pub open spec fn left_after(blocks: Seq<Seq<char>>, rest: Seq<char>) -> Seq<char>
    decreases blocks.len(),
{
    if blocks.len() == 0 {
        rest
    } else if occurs_at(blocks[0], "data: "@, 0) && blocks[0].skip(6) == "[DONE]"@ {
        joined_events(blocks.drop_first(), rest)
    } else {
        left_after(blocks.drop_first(), rest)
    }
}

proof fn lemma_block_end(b: Seq<char>, tail: Seq<char>)
    requires
        is_event_block(b),
    ensures
        event_end(b + seq!['\n', '\n'] + tail) == Some(b.len() as int),
    decreases b.len(),
{
    let buf = b + seq!['\n', '\n'] + tail;
    if b.len() > 0 {
        let b1 = b.drop_first();
        assert(buf.drop_first() =~= b1 + seq!['\n', '\n'] + tail);
        if b.len() > 1 {
            assert(!(b[0] == '\n' && b[1] == '\n'));
            assert(b1.last() == b.last());
        }
        assert(is_event_block(b1)) by {
            assert forall|k: int| 0 <= k < b1.len() - 1 implies !(#[trigger] b1[k] == '\n' && b1[k + 1]
                == '\n') by {
                assert(b1[k] == b[k + 1] && b1[k + 1] == b[k + 2]);
            }
        }
        lemma_block_end(b1, tail);
    }
}

proof fn lemma_no_event_end(r: Seq<char>)
    requires
        has_no_blank_line(r),
    ensures
        event_end(r) is None,
    decreases r.len(),
{
    if r.len() >= 2 {
        assert(!(r[0] == '\n' && r[1] == '\n'));
        let r1 = r.drop_first();
        assert forall|k: int| 0 <= k < r1.len() - 1 implies !(#[trigger] r1[k] == '\n' && r1[k + 1]
            == '\n') by {
            assert(r1[k] == r[k + 1] && r1[k + 1] == r[k + 2]);
        }
        lemma_no_event_end(r1);
    }
}

/// What is taken out of a buffer that holds whole events and an unfinished
/// rest: the payloads of its data events in order, up to the first end
/// marker; what is left is the rest, or everything after the end marker.
pub proof fn lemma_sse_split_blocks(blocks: Seq<Seq<char>>, rest: Seq<char>)
    requires
        forall|i: int| 0 <= i < blocks.len() ==> is_event_block(#[trigger] blocks[i]),
        has_no_blank_line(rest),
    ensures
        sse_split(joined_events(blocks, rest)) == (data_payloads(blocks), left_after(blocks, rest)),
    decreases blocks.len(),
{
    if blocks.len() == 0 {
        lemma_no_event_end(rest);
    } else {
        let b = blocks[0];
        let tail = joined_events(blocks.drop_first(), rest);
        let buf = joined_events(blocks, rest);
        assert(buf == b + seq!['\n', '\n'] + tail);
        assert(is_event_block(blocks[0]));
        lemma_block_end(b, tail);
        assert(buf.take(b.len() as int) =~= b);
        assert(buf.skip(b.len() as int + 2) =~= tail);
        assert forall|i: int| 0 <= i < blocks.drop_first().len() implies is_event_block(
            #[trigger] blocks.drop_first()[i],
        ) by {
            assert(blocks.drop_first()[i] == blocks[i + 1]);
        }
        lemma_sse_split_blocks(blocks.drop_first(), rest);
    }
}

/// Takes the complete data events out of the received text, leaving the
/// incomplete rest in `buffer`.
pub fn take_sse_events(buffer: &mut String) -> (r: Vec<String>)
    ensures
        r.deep_view() == sse_split(old(buffer)@).0,
        final(buffer)@ == sse_split(old(buffer)@).1,
{
    let v = chars_of(buffer.as_str());
    let prefix = chars_of("data: ");
    let done = chars_of("[DONE]");
    proof {
        reveal_strlit("data: ");
        reveal_strlit("[DONE]");
    }
    let mut events: Vec<String> = Vec::new();
    let mut pos: usize = 0;
    let ghost whole = v@;
    assert(v@.skip(0) =~= v@);
    assert(events.deep_view() =~= Seq::<Seq<char>>::empty());
    let mut stop = false;
    while !stop
        invariant
            v@ == whole,
            whole == old(buffer)@,
            prefix@ == "data: "@,
            done@ == "[DONE]"@,
            pos <= v.len(),
            !stop ==> sse_split(whole).0 == events.deep_view() + sse_split(v@.skip(pos as int)).0,
            !stop ==> sse_split(whole).1 == sse_split(v@.skip(pos as int)).1,
            stop ==> sse_split(whole).0 == events.deep_view(),
            stop ==> sse_split(whole).1 == v@.skip(pos as int),
        decreases v.len() - pos + (if stop { 0int } else { 1int }),
    {
        proof {
            reveal_strlit("data: ");
            reveal_strlit("[DONE]");
        }
        let ghost rest = v@.skip(pos as int);
        let mut j: usize = pos;
        assert(v@.skip(j as int) == rest);
        while j < v.len() && j + 1 < v.len() && !(v[j] == '\n' && v[j + 1] == '\n')
            invariant
                pos <= j <= v.len(),
                rest == v@.skip(pos as int),
                match event_end(v@.skip(j as int)) {
                    Some(k) => event_end(rest) == Some(k + (j - pos)),
                    None => event_end(rest) is None,
                },
            decreases v.len() - j,
        {
            assert(v@.skip(j as int).drop_first() =~= v@.skip(j + 1));
            j = j + 1;
        }
        if j >= v.len() || j + 1 >= v.len() {
            assert(event_end(v@.skip(j as int)) is None);
            stop = true;
        } else {
            let ghost k = j - pos;
            assert(v@.skip(j as int)[0] == v@[j as int]);
            assert(v@.skip(j as int)[1] == v@[j + 1]);
            assert(event_end(rest) == Some(k));
            proof {
                lemma_event_end(rest);
            }
            let event = string_of_range(&v, pos, j);
            let event_chars = chars_of(event.as_str());
            let ghost ev = rest.take(k);
            assert(event_chars@ =~= ev);
            assert(rest.skip(k + 2) =~= v@.skip(j + 2));
            let next = j + 2;
            if matches_at(&event_chars, &prefix, 0) {
                let payload = string_of_range(&event_chars, 6, event_chars.len());
                let payload_chars = chars_of(payload.as_str());
                assert(payload@ =~= ev.skip(6));
                if payload_chars.len() == done.len() && matches_at(&payload_chars, &done, 0) {
                    assert(payload_chars@.subrange(0, 6) =~= payload_chars@);
                    pos = next;
                    stop = true;
                } else {
                    proof {
                        if payload@ == "[DONE]"@ {
                            assert(payload_chars@.subrange(0, 6) =~= payload_chars@);
                        }
                    }
                    let ghost before = events.deep_view();
                    events.push(payload);
                    assert(events.deep_view() =~= before.push(ev.skip(6)));
                    assert(before.push(ev.skip(6)) + sse_split(v@.skip(next as int)).0 =~= before
                        + (seq![ev.skip(6)] + sse_split(v@.skip(next as int)).0));
                    pos = next;
                }
            } else {
                pos = next;
            }
        }
    }
    *buffer = string_of_range(&v, pos, v.len());
    assert(v@.subrange(pos as int, v.len() as int) =~= v@.skip(pos as int));
    events
}

// ---------------------------------------------------------------------------
// Chunks

/// The event a piece of a tool call becomes: a name only where it is not empty.
pub open spec fn argument_delta_event(t: ToolCallDeltaModel) -> StreamEventModel {
    StreamEventModel::ToolCallArgumentsDelta {
        index: t.index,
        call_id: t.id,
        name: if t.name.len() == 0 {
            None
        } else {
            Some(t.name)
        },
        delta: t.arguments,
    }
}

/// The events of one chunk, in order: reasoning (only in a chunk without
/// content), content, the pieces of tool calls, and completion where the
/// choice has a finish reason.
pub open spec fn openai_events(d: ChunkDeltaModel) -> Seq<StreamEventModel> {
    let thinking = match (d.content, d.reasoning_content) {
        (None, Some(r)) => seq![StreamEventModel::ThinkingDelta(r)],
        _ => Seq::empty(),
    };
    let text = match d.content {
        Some(c) => seq![StreamEventModel::TextDelta(c)],
        None => Seq::empty(),
    };
    let calls = d.tool_calls.map_values(|t: ToolCallDeltaModel| argument_delta_event(t));
    let finish = if d.finished {
        seq![StreamEventModel::Completed]
    } else {
        Seq::empty()
    };
    thinking + text + calls + finish
}

/// The events of one chunk's delta.
pub fn map_openai_event(delta: &ChunkDelta) -> (r: Vec<StreamEvent>)
    ensures
        events_model(r@) == openai_events(delta@),
{
    let mut result: Vec<StreamEvent> = Vec::new();
    if delta.content.is_none() {
        if let Some(reasoning) = &delta.reasoning_content {
            result.push(StreamEvent::ThinkingDelta(reasoning.clone()));
        }
    }
    if let Some(content) = &delta.content {
        result.push(StreamEvent::TextDelta(content.clone()));
    }
    let ghost head = events_model(result@);
    let ghost calls = delta@.tool_calls.map_values(|t: ToolCallDeltaModel| argument_delta_event(t));
    let mut i: usize = 0;
    while i < delta.tool_calls.len()
        invariant
            i <= delta.tool_calls.len(),
            calls == delta@.tool_calls.map_values(|t: ToolCallDeltaModel| argument_delta_event(t)),
            events_model(result@) == head + calls.take(i as int),
        decreases delta.tool_calls.len() - i,
    {
        let t = &delta.tool_calls[i];
        let name = if t.name.as_str().is_empty() {
            None
        } else {
            Some(t.name.clone())
        };
        let ghost before = events_model(result@);
        result.push(
            StreamEvent::ToolCallArgumentsDelta {
                index: t.index,
                call_id: t.id.clone(),
                name,
                delta: t.arguments.clone(),
            },
        );
        assert(calls[i as int] == argument_delta_event(delta@.tool_calls[i as int]));
        assert(events_model(result@) =~= before.push(calls[i as int]));
        assert(calls.take(i + 1) =~= calls.take(i as int).push(calls[i as int]));
        i = i + 1;
    }
    assert(calls.take(delta.tool_calls.len() as int) =~= calls);
    if delta.finished {
        let ghost before = events_model(result@);
        result.push(StreamEvent::Completed);
        assert(events_model(result@) =~= before.push(StreamEventModel::Completed));
    }
    assert(events_model(result@) =~= openai_events(delta@));
    result
}


// ---------------------------------------------------------------------------
// Reading a chunk's JSON text

/// What a JSON text holds at a JSON Pointer: the parser's message where the
/// text is no JSON, `Missing` where nothing is at the pointer, and otherwise
/// whether the value there is `null`, its string where it is one, its integer
/// where it fits an `i64`, and its length where it is an array.
pub enum JsonRead {
    Invalid(String),
    Missing,
    Found { is_null: bool, text: Option<String>, integer: Option<i64>, len: Option<usize> },
}

/// The mathematical value of a [`JsonRead`].
pub enum JsonReadModel {
    Invalid(Seq<char>),
    Missing,
    Found { is_null: bool, text: Option<Seq<char>>, integer: Option<i64>, len: Option<usize> },
}

impl View for JsonRead {
    type V = JsonReadModel;

    open spec fn view(&self) -> JsonReadModel {
        match self {
            JsonRead::Invalid(e) => JsonReadModel::Invalid(e@),
            JsonRead::Missing => JsonReadModel::Missing,
            JsonRead::Found { is_null, text, integer, len } => JsonReadModel::Found {
                is_null: *is_null,
                text: option_string_model(*text),
                integer: *integer,
                len: *len,
            },
        }
    }
}

/// What serde_json finds in the JSON text `text` at the JSON Pointer `pointer`.
pub uninterp spec fn json_pointer_of(text: Seq<char>, pointer: Seq<char>) -> JsonReadModel;

/// Parses `text` with serde_json (`Value::from_str`) and looks `pointer` up
/// with `Value::pointer` (RFC 6901: `/`-separated member names or array
/// positions; the empty pointer is the whole document); the value found is
/// read with `is_null`, `as_str`, `as_i64` and `as_array`. Nothing is claimed
/// of the outcome beyond that it is a function of the two texts.
#[verifier::external_body]
fn json_at(text: &str, pointer: &str) -> (r: JsonRead)
    ensures
        r@ == json_pointer_of(text@, pointer@),
{
    match serde_json::Value::from_str(text) {
        Err(e) => JsonRead::Invalid(e.to_string()),
        Ok(value) => match value.pointer(pointer) {
            None => JsonRead::Missing,
            Some(v) => JsonRead::Found {
                is_null: v.is_null(),
                text: v.as_str().map(String::from),
                integer: v.as_i64(),
                len: v.as_array().map(Vec::len),
            },
        },
    }
}

/// Whether a read finds JSON `null`; nothing at all reads as `null` too.
pub open spec fn read_is_null(r: JsonReadModel) -> bool {
    !(r matches JsonReadModel::Found { is_null: false, .. })
}

/// A read as text: its string, or the empty text where it is no string.
pub open spec fn read_text(r: JsonReadModel) -> Seq<char> {
    match r {
        JsonReadModel::Found { text: Some(t), .. } => t,
        _ => Seq::empty(),
    }
}

/// A read as an optional text: `None` where it is `null`, its text otherwise.
pub open spec fn read_text_or_null(r: JsonReadModel) -> Option<Seq<char>> {
    if read_is_null(r) {
        None
    } else {
        Some(read_text(r))
    }
}

/// A read as an integer: its `i64`, or 0.
pub open spec fn read_int(r: JsonReadModel) -> i64 {
    match r {
        JsonReadModel::Found { integer: Some(i), .. } => i,
        _ => 0,
    }
}

/// A read as a number of array elements: its length, or 0 where it is no array.
pub open spec fn read_len(r: JsonReadModel) -> nat {
    match r {
        JsonReadModel::Found { len: Some(n), .. } => n as nat,
        _ => 0,
    }
}

/// The pointer to a field of the `i`-th tool call of the first choice's delta.
pub open spec fn tool_call_pointer(i: nat, field: Seq<char>) -> Seq<char> {
    "/choices/0/delta/tool_calls/"@ + decimal_digits(i) + field
}

/// The `i`-th piece of a tool call in a chunk's text.
pub open spec fn tool_call_delta_of(text: Seq<char>, i: nat) -> ToolCallDeltaModel {
    ToolCallDeltaModel {
        index: read_int(json_pointer_of(text, tool_call_pointer(i, "/index"@))),
        id: read_text(json_pointer_of(text, tool_call_pointer(i, "/id"@))),
        name: read_text(json_pointer_of(text, tool_call_pointer(i, "/function/name"@))),
        arguments: read_text(json_pointer_of(text, tool_call_pointer(i, "/function/arguments"@))),
    }
}

/// Whether a chunk's `choices` is an array; only then has it a first choice.
pub open spec fn choices_are_array(text: Seq<char>) -> bool {
    json_pointer_of(text, "/choices"@) matches JsonReadModel::Found { len: Some(_), .. }
}

/// The delta of a chunk without a first choice: nothing in it.
pub open spec fn empty_delta() -> ChunkDeltaModel {
    ChunkDeltaModel { content: None, reasoning_content: None, tool_calls: Seq::empty(), finished: false }
}

/// The delta of one chunk's JSON text: the parser's message where the text
/// is no JSON; an empty delta where `choices` is no array; otherwise the
/// first choice's content and reasoning (`None` where `null` or missing), the
/// pieces of its tool calls, and whether it has a finish reason.
pub open spec fn chunk_delta_of(text: Seq<char>) -> Result<ChunkDeltaModel, Seq<char>> {
    match json_pointer_of(text, ""@) {
        JsonReadModel::Invalid(e) => Err(e),
        _ => if !choices_are_array(text) {
            Ok(empty_delta())
        } else {
            Ok(
                ChunkDeltaModel {
                    content: read_text_or_null(json_pointer_of(text, "/choices/0/delta/content"@)),
                    reasoning_content: read_text_or_null(
                        json_pointer_of(text, "/choices/0/delta/reasoning_content"@),
                    ),
                    tool_calls: Seq::new(
                        read_len(json_pointer_of(text, "/choices/0/delta/tool_calls"@)),
                        |i: int| tool_call_delta_of(text, i as nat),
                    ),
                    finished: !read_is_null(json_pointer_of(text, "/choices/0/finish_reason"@)),
                },
            )
        },
    }
}

fn read_is_null_of(r: &JsonRead) -> (b: bool)
    ensures
        b == read_is_null(r@),
{
    match r {
        JsonRead::Found { is_null: false, .. } => false,
        _ => true,
    }
}

fn read_text_of(r: &JsonRead) -> (s: String)
    ensures
        s@ == read_text(r@),
{
    match r {
        JsonRead::Found { text: Some(t), .. } => t.clone(),
        _ => String::new(),
    }
}

fn read_text_or_null_of(r: &JsonRead) -> (o: Option<String>)
    ensures
        option_string_model(o) == read_text_or_null(r@),
{
    if read_is_null_of(r) {
        None
    } else {
        Some(read_text_of(r))
    }
}

fn tool_call_pointer_text(i: usize, field: &str) -> (p: String)
    ensures
        p@ == tool_call_pointer(i as nat, field@),
{
    let digits = string_from_chars(u64_digits(i as u64));
    let head = concat("/choices/0/delta/tool_calls/", digits.as_str());
    concat(head.as_str(), field)
}

fn tool_call_delta_at(event: &str, i: usize) -> (t: ToolCallDelta)
    ensures
        t@ == tool_call_delta_of(event@, i as nat),
{
    let index = match json_at(event, tool_call_pointer_text(i, "/index").as_str()) {
        JsonRead::Found { integer: Some(n), .. } => n,
        _ => 0,
    };
    let id = read_text_of(&json_at(event, tool_call_pointer_text(i, "/id").as_str()));
    let name = read_text_of(&json_at(event, tool_call_pointer_text(i, "/function/name").as_str()));
    let arguments = read_text_of(
        &json_at(event, tool_call_pointer_text(i, "/function/arguments").as_str()),
    );
    ToolCallDelta { index, id, name, arguments }
}

/// Reads the delta of one chunk from its JSON text, or returns the parser's
/// message where the text is no JSON.
pub fn parse_chunk(event: &str) -> (r: Result<ChunkDelta, String>)
    ensures
        match chunk_delta_of(event@) {
            Ok(d) => r matches Ok(c) && c@ == d,
            Err(e) => r matches Err(s) && s@ == e,
        },
{
    if let JsonRead::Invalid(e) = json_at(event, "") {
        return Err(e);
    }
    let has_choices = match json_at(event, "/choices") {
        JsonRead::Found { len: Some(_), .. } => true,
        _ => false,
    };
    if !has_choices {
        let delta = ChunkDelta { content: None, reasoning_content: None, tool_calls: Vec::new(), finished: false };
        assert(delta@.tool_calls =~= Seq::<ToolCallDeltaModel>::empty());
        return Ok(delta);
    }
    let content = read_text_or_null_of(&json_at(event, "/choices/0/delta/content"));
    let reasoning_content = read_text_or_null_of(
        &json_at(event, "/choices/0/delta/reasoning_content"),
    );
    let count: usize = match json_at(event, "/choices/0/delta/tool_calls") {
        JsonRead::Found { len: Some(n), .. } => n,
        _ => 0,
    };
    let ghost pieces = Seq::new(count as nat, |i: int| tool_call_delta_of(event@, i as nat));
    let mut tool_calls: Vec<ToolCallDelta> = Vec::new();
    let mut i: usize = 0;
    while i < count
        invariant
            i <= count,
            pieces == Seq::new(count as nat, |j: int| tool_call_delta_of(event@, j as nat)),
            tool_calls@.map_values(|t: ToolCallDelta| t@) == pieces.take(i as int),
        decreases count - i,
    {
        let t = tool_call_delta_at(event, i);
        let ghost before = tool_calls@.map_values(|t: ToolCallDelta| t@);
        tool_calls.push(t);
        assert(tool_calls@.map_values(|t: ToolCallDelta| t@) =~= before.push(pieces[i as int]));
        assert(pieces.take(i + 1) =~= pieces.take(i as int).push(pieces[i as int]));
        i = i + 1;
    }
    assert(pieces.take(count as int) =~= pieces);
    let finished = !read_is_null_of(&json_at(event, "/choices/0/finish_reason"));
    let delta = ChunkDelta { content, reasoning_content, tool_calls, finished };
    assert(delta@.tool_calls =~= pieces);
    Ok(delta)
}

/// The slot of the assembled tool calls that a piece with this index goes
/// to: the index read as a `usize`, so a negative one falls past the end.
pub open spec fn slot_of(index: i64) -> int {
    (index as usize) as int
}

/// The event reporting an assembled tool call as finished.
pub open spec fn finished_event(c: ToolCallCacheModel) -> StreamEventModel {
    StreamEventModel::ToolCallFinished(
        ToolCallFinishedModel { index: c.index, call_id: c.id, name: c.name, arguments: c.arguments },
    )
}

/// One event of a chunk applied to the tool calls being assembled: the
/// events it gives and the tool calls afterwards.
///
/// A piece of a tool call whose slot is past the end starts a new call;
/// otherwise its arguments are appended to the call in that slot. Completion
/// reports every assembled call, forgets them, and is reported itself. Any
/// other event passes through.
pub open spec fn chunk_step(cache: Seq<ToolCallCacheModel>, e: StreamEventModel) -> (
    Seq<StreamEventModel>,
    Seq<ToolCallCacheModel>,
) {
    match e {
        StreamEventModel::ToolCallArgumentsDelta { index, call_id, name, delta } => if cache.len()
            <= slot_of(index) {
            (
                Seq::empty(),
                cache.push(
                    ToolCallCacheModel {
                        index,
                        id: call_id,
                        name: match name {
                            Some(n) => n,
                            None => Seq::empty(),
                        },
                        arguments: delta,
                    },
                ),
            )
        } else {
            let slot = slot_of(index);
            (
                Seq::empty(),
                cache.update(
                    slot,
                    ToolCallCacheModel { arguments: cache[slot].arguments + delta, ..cache[slot] },
                ),
            )
        },
        StreamEventModel::Completed => (
            cache.map_values(|c: ToolCallCacheModel| finished_event(c)).push(
                StreamEventModel::Completed,
            ),
            Seq::empty(),
        ),
        _ => (seq![e], cache),
    }
}

/// A chunk's events applied in order to the tool calls being assembled.
pub open spec fn chunk_events(cache: Seq<ToolCallCacheModel>, events: Seq<StreamEventModel>) -> (
    Seq<StreamEventModel>,
    Seq<ToolCallCacheModel>,
)
    decreases events.len(),
{
    if events.len() == 0 {
        (Seq::empty(), cache)
    } else {
        let (out, next) = chunk_step(cache, events[0]);
        let (rest, last) = chunk_events(next, events.drop_first());
        (out + rest, last)
    }
}

proof fn lemma_chunk_events_push(
    cache: Seq<ToolCallCacheModel>,
    events: Seq<StreamEventModel>,
    e: StreamEventModel,
)
    ensures
        chunk_events(cache, events.push(e)).0 == chunk_events(cache, events).0 + chunk_step(
            chunk_events(cache, events).1,
            e,
        ).0,
        chunk_events(cache, events.push(e)).1 == chunk_step(chunk_events(cache, events).1, e).1,
    decreases events.len(),
{
    reveal_with_fuel(chunk_events, 2);
    if events.len() == 0 {
        assert(events.push(e).drop_first() =~= Seq::<StreamEventModel>::empty());
        assert(events.push(e)[0] == e);
        let (out, next) = chunk_step(cache, e);
        assert(chunk_events(next, Seq::<StreamEventModel>::empty()) == (
            Seq::<StreamEventModel>::empty(),
            next,
        ));
        assert(out + Seq::<StreamEventModel>::empty() =~= out);
        assert(Seq::<StreamEventModel>::empty() + out =~= out);
    } else {
        let (out, next) = chunk_step(cache, events[0]);
        assert(events.push(e).drop_first() =~= events.drop_first().push(e));
        assert(events.push(e)[0] == events[0]);
        lemma_chunk_events_push(next, events.drop_first(), e);
        let a = chunk_events(next, events.drop_first()).0;
        let b = chunk_step(chunk_events(next, events.drop_first()).1, e).0;
        assert(out + (a + b) =~= (out + a) + b);
    }
}

/// Cutting a response's events into chunks does not change what they give:
/// applying two runs of events one after the other is applying them at once.
pub proof fn lemma_chunk_events_concat(
    cache: Seq<ToolCallCacheModel>,
    first: Seq<StreamEventModel>,
    second: Seq<StreamEventModel>,
)
    ensures
        chunk_events(cache, first + second).0 == chunk_events(cache, first).0 + chunk_events(
            chunk_events(cache, first).1,
            second,
        ).0,
        chunk_events(cache, first + second).1 == chunk_events(chunk_events(cache, first).1, second).1,
    decreases second.len(),
{
    if second.len() == 0 {
        assert(first + second =~= first);
        assert(chunk_events(cache, first).0 + Seq::<StreamEventModel>::empty() =~= chunk_events(
            cache,
            first,
        ).0);
    } else {
        let init = second.drop_last();
        let e = second.last();
        lemma_chunk_events_concat(cache, first, init);
        assert(first + second =~= (first + init).push(e));
        assert(second =~= init.push(e));
        lemma_chunk_events_push(cache, first + init, e);
        lemma_chunk_events_push(chunk_events(cache, first).1, init, e);
        let a = chunk_events(cache, first).0;
        let b = chunk_events(chunk_events(cache, first).1, init).0;
        let c = chunk_step(chunk_events(chunk_events(cache, first).1, init).1, e).0;
        assert(a + b + c =~= a + (b + c));
    }
}

/// A copy of an assembled tool call, reported as finished.
fn finished_call(c: &ToolCallCache) -> (r: StreamEvent)
    ensures
        r@ == finished_event(c@),
{
    StreamEvent::ToolCallFinished(
        ToolCallFinished {
            index: c.index,
            call_id: c.id.clone(),
            name: c.name.clone(),
            arguments: c.arguments.clone(),
        },
    )
}

/// Applies one event to the tool calls being assembled, adding what it gives
/// to `result`.
fn apply_chunk_event(
    event: StreamEvent,
    tool_calls: &mut Vec<ToolCallCache>,
    result: &mut Vec<StreamEvent>,
)
    ensures
        events_model(final(result)@) == events_model(old(result)@) + chunk_step(
            caches_model(old(tool_calls)@),
            event@,
        ).0,
        caches_model(final(tool_calls)@) == chunk_step(caches_model(old(tool_calls)@), event@).1,
{
    let ghost out0 = events_model(result@);
    let ghost cache0 = caches_model(tool_calls@);
    match event {
        StreamEvent::ToolCallArgumentsDelta { index, call_id, name, delta } => {
            let slot = index as usize;
            if tool_calls.len() <= slot {
                let name = match name {
                    Some(n) => n,
                    None => String::new(),
                };
                tool_calls.push(ToolCallCache { index, id: call_id, name, arguments: delta });
                assert(caches_model(tool_calls@) =~= cache0.push(
                    ToolCallCacheModel {
                        index,
                        id: call_id@,
                        name: tool_calls@.last().name@,
                        arguments: delta@,
                    },
                ));
            } else {
                let mut arguments = tool_calls[slot].arguments.clone();
                arguments.append(delta.as_str());
                let updated = ToolCallCache {
                    index: tool_calls[slot].index,
                    id: tool_calls[slot].id.clone(),
                    name: tool_calls[slot].name.clone(),
                    arguments,
                };
                tool_calls.set(slot, updated);
                assert(caches_model(tool_calls@) =~= cache0.update(
                    slot as int,
                    ToolCallCacheModel {
                        arguments: cache0[slot as int].arguments + delta@,
                        ..cache0[slot as int]
                    },
                ));
            }
            assert(events_model(result@) =~= out0 + Seq::<StreamEventModel>::empty());
        },
        StreamEvent::Completed => {
            let mut i: usize = 0;
            while i < tool_calls.len()
                invariant
                    i <= tool_calls.len(),
                    caches_model(tool_calls@) == cache0,
                    events_model(result@) == out0 + cache0.take(i as int).map_values(
                        |c: ToolCallCacheModel| finished_event(c),
                    ),
                decreases tool_calls.len() - i,
            {
                let ghost before = events_model(result@);
                result.push(finished_call(&tool_calls[i]));
                assert(events_model(result@) =~= before.push(finished_event(cache0[i as int])));
                assert(cache0.take(i + 1).map_values(|c: ToolCallCacheModel| finished_event(c))
                    =~= cache0.take(i as int).map_values(|c: ToolCallCacheModel| finished_event(c)).push(
                    finished_event(cache0[i as int]),
                ));
                i = i + 1;
            }
            assert(cache0.take(tool_calls.len() as int) =~= cache0);
            tool_calls.clear();
            let ghost before = events_model(result@);
            result.push(StreamEvent::Completed);
            assert(events_model(result@) =~= before.push(StreamEventModel::Completed));
            assert(caches_model(tool_calls@) =~= Seq::<ToolCallCacheModel>::empty());
        },
        other => {
            let ghost e = other@;
            result.push(other);
            assert(events_model(result@) =~= out0 + seq![e]);
        },
    }
}

/// Maps one chunk to stream events. The first chunk of a response is
/// preceded by `Started`; tool calls are assembled across chunks in
/// `tool_calls` and reported when the response completes.
pub fn map_chunk(delta: &ChunkDelta, first: &mut bool, tool_calls: &mut Vec<ToolCallCache>) -> (r:
    Vec<StreamEvent>)
    ensures
        events_model(r@) == (if *old(first) {
            seq![StreamEventModel::Started]
        } else {
            Seq::empty()
        }) + chunk_events(caches_model(old(tool_calls)@), openai_events(delta@)).0,
        caches_model(final(tool_calls)@) == chunk_events(
            caches_model(old(tool_calls)@),
            openai_events(delta@),
        ).1,
        !*final(first),
{
    let mut result: Vec<StreamEvent> = Vec::new();
    let events = map_openai_event(delta);
    if *first {
        result.push(StreamEvent::Started);
        *first = false;
    }
    let ghost head = events_model(result@);
    let ghost cache0 = caches_model(tool_calls@);
    let ghost all = events_model(events@);
    assert(all.take(0) =~= Seq::<StreamEventModel>::empty());
    assert(head + Seq::<StreamEventModel>::empty() =~= head);
    let mut events = events;
    let mut i: usize = 0;
    let n = events.len();
    assert(events_model(events@) =~= all.skip(0));
    while events.len() > 0
        invariant
            n == all.len(),
            i + events.len() == n,
            events_model(events@) == all.skip(i as int),
            events_model(result@) == head + chunk_events(cache0, all.take(i as int)).0,
            caches_model(tool_calls@) == chunk_events(cache0, all.take(i as int)).1,
        decreases events.len(),
    {
        let ghost rest = events_model(events@);
        let ghost raw = events@;
        let event = events.remove(0);
        assert(event@ == rest[0]);
        assert(events@ =~= raw.subrange(1, raw.len() as int));
        assert(events_model(events@) =~= rest.drop_first());
        assert(events_model(events@) =~= all.skip(i + 1));
        proof {
            lemma_chunk_events_push(cache0, all.take(i as int), all[i as int]);
            assert(all.take(i as int).push(all[i as int]) =~= all.take(i + 1));
        }
        apply_chunk_event(event, tool_calls, &mut result);
        assert(events_model(result@) =~= head + chunk_events(cache0, all.take(i + 1)).0);
        i = i + 1;
    }
    assert(all.take(n as int) =~= all);
    result
}

/// Maps one chunk's JSON text to stream events, as [`map_chunk`] does with
/// its delta; text that is no JSON is refused with the parser's message and
/// changes nothing.
pub fn map_event_text(event: &str, first: &mut bool, tool_calls: &mut Vec<ToolCallCache>) -> (r:
    Result<Vec<StreamEvent>, String>)
    ensures
        match chunk_delta_of(event@) {
            Err(e) => r matches Err(s) && s@ == e && *final(first) == *old(first)
                && final(tool_calls)@ == old(tool_calls)@,
            Ok(d) => r matches Ok(v) && events_model(v@) == (if *old(first) {
                seq![StreamEventModel::Started]
            } else {
                Seq::empty()
            }) + chunk_events(caches_model(old(tool_calls)@), openai_events(d)).0
                && caches_model(final(tool_calls)@) == chunk_events(
                caches_model(old(tool_calls)@),
                openai_events(d),
            ).1 && !*final(first),
        },
{
    match parse_chunk(event) {
        Err(e) => Err(e),
        Ok(delta) => Ok(map_chunk(&delta, first, tool_calls)),
    }
}

/// Whether an event is a piece of the tool call with this index.
pub open spec fn is_piece_of(e: StreamEventModel, k: int) -> bool {
    e matches StreamEventModel::ToolCallArgumentsDelta { index, .. } && index == k
}

/// The arguments that the pieces with index `k` carry, in order.
pub open spec fn pieces_of(events: Seq<StreamEventModel>, k: int) -> Seq<char>
    decreases events.len(),
{
    if events.len() == 0 {
        Seq::empty()
    } else {
        pieces_of(events.drop_last(), k) + match events.last() {
            StreamEventModel::ToolCallArgumentsDelta { index, delta, .. } => if index == k {
                delta
            } else {
                Seq::empty()
            },
            _ => Seq::empty(),
        }
    }
}

/// Whether every event is a piece of one of the `n` calls being assembled.
pub open spec fn pieces_of_known_calls(events: Seq<StreamEventModel>, n: nat) -> bool {
    forall|i: int|
        0 <= i < events.len() ==> (#[trigger] events[i] matches StreamEventModel::ToolCallArgumentsDelta {
            index,
            ..
        } && 0 <= index < n)
}

/// Pieces of calls already being assembled go to their own calls: each
/// call's arguments grow by exactly the pieces with its index, in order,
/// nothing else about any call changes, no call is added, and nothing is
/// reported yet.
pub proof fn lemma_pieces_go_to_their_calls(cache: Seq<ToolCallCacheModel>, events: Seq<StreamEventModel>)
    requires
        cache.len() <= usize::MAX,
        pieces_of_known_calls(events, cache.len()),
    ensures
        chunk_events(cache, events).0.len() == 0,
        chunk_events(cache, events).1.len() == cache.len(),
        forall|k: int|
            0 <= k < cache.len() ==> (#[trigger] chunk_events(cache, events).1[k]) == (ToolCallCacheModel {
                arguments: cache[k].arguments + pieces_of(events, k),
                ..cache[k]
            }),
    decreases events.len(),
{
    if events.len() == 0 {
        assert forall|k: int| 0 <= k < cache.len() implies (#[trigger] chunk_events(cache, events).1[k])
            == (ToolCallCacheModel { arguments: cache[k].arguments + pieces_of(events, k), ..cache[k] }) by {
            assert(cache[k].arguments + Seq::<char>::empty() =~= cache[k].arguments);
        }
    } else {
        let init = events.drop_last();
        let e = events.last();
        assert(events =~= init.push(e));
        assert(pieces_of_known_calls(init, cache.len())) by {
            assert forall|i: int| 0 <= i < init.len() implies (#[trigger] init[i]
                matches StreamEventModel::ToolCallArgumentsDelta { index, .. } && 0 <= index < cache.len()) by {
                assert(init[i] == events[i]);
            }
        }
        lemma_pieces_go_to_their_calls(cache, init);
        lemma_chunk_events_push(cache, init, e);
        let mid = chunk_events(cache, init).1;
        assert(events[events.len() - 1] == e);
        if let StreamEventModel::ToolCallArgumentsDelta { index, call_id, name, delta } = e {
            assert(0 <= index < cache.len());
            assert(slot_of(index) == index as int);
            assert forall|k: int| 0 <= k < cache.len() implies (#[trigger] chunk_events(cache, events).1[k])
                == (ToolCallCacheModel { arguments: cache[k].arguments + pieces_of(events, k), ..cache[k] }) by {
                assert(pieces_of(events, k) == pieces_of(init, k) + (if index == k {
                    delta
                } else {
                    Seq::<char>::empty()
                }));
                if index == k {
                    assert(cache[k].arguments + pieces_of(init, k) + delta =~= cache[k].arguments
                        + pieces_of(events, k));
                } else {
                    assert(pieces_of(init, k) + Seq::<char>::empty() =~= pieces_of(init, k));
                }
            }
        }
    }
}

/// A piece whose index is the next free slot starts a new call there, with
/// the piece's id, name (empty when it has none) and arguments; the calls
/// before it are left as they were and nothing is reported.
pub proof fn lemma_next_index_starts_a_call(
    cache: Seq<ToolCallCacheModel>,
    index: i64,
    call_id: Seq<char>,
    name: Option<Seq<char>>,
    delta: Seq<char>,
)
    requires
        cache.len() < usize::MAX,
        index == cache.len(),
    ensures
        ({
            let (out, next) = chunk_step(
                cache,
                StreamEventModel::ToolCallArgumentsDelta { index, call_id, name, delta },
            );
            &&& out.len() == 0
            &&& next.len() == cache.len() + 1
            &&& next.take(cache.len() as int) == cache
            &&& next[index as int] == (ToolCallCacheModel {
                index,
                id: call_id,
                name: match name {
                    Some(n) => n,
                    None => Seq::empty(),
                },
                arguments: delta,
            })
        }),
{
    assert(slot_of(index) == index as int);
    let next = chunk_step(cache, StreamEventModel::ToolCallArgumentsDelta { index, call_id, name, delta }).1;
    assert(next.take(cache.len() as int) =~= cache);
}

} // verus!
