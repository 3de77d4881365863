use codex_mini_demo::agent::llm::openai::{
    map_chunk, map_event_text, map_openai_event, parse_chunk, take_sse_events, ChunkDelta, ToolCallCache,
    ToolCallDelta,
};
use codex_mini_demo::agent::stream_event::{StreamEvent, ToolCallFinished};

fn text_chunk(content: &str) -> ChunkDelta {
    ChunkDelta {
        content: Some(content.to_string()),
        reasoning_content: None,
        tool_calls: vec![],
        finished: false,
    }
}

fn tool_chunk(calls: Vec<(i64, &str, &str, &str)>) -> ChunkDelta {
    ChunkDelta {
        content: None,
        reasoning_content: None,
        tool_calls: calls
            .into_iter()
            .map(|(index, id, name, arguments)| ToolCallDelta {
                index,
                id: id.to_string(),
                name: name.to_string(),
                arguments: arguments.to_string(),
            })
            .collect(),
        finished: false,
    }
}

fn finish_chunk() -> ChunkDelta {
    ChunkDelta { content: None, reasoning_content: None, tool_calls: vec![], finished: true }
}

#[test]
fn take_sse_events_should_extract_complete_data_events() {
    let mut buffer =
        "data: {\"type\":\"first\"}\n\ndata: {\"type\":\"second\"}\n\npartial".to_string();

    let events = take_sse_events(&mut buffer);

    assert_eq!(
        events,
        vec!["{\"type\":\"first\"}".to_string(), "{\"type\":\"second\"}".to_string()]
    );
    assert_eq!(buffer, "partial");
}

#[test]
fn take_sse_events_should_ignore_done_flag() {
    let mut buffer = "data: [DONE]\n\n".to_string();

    let events = take_sse_events(&mut buffer);

    assert!(events.is_empty());
    assert!(buffer.is_empty());
}

#[test]
fn take_sse_events_drops_other_events_and_keeps_what_follows_done() {
    let mut buffer = ": ping\n\nevent: x\n\ndata: a\n\ndata: [DONE]\n\ndata: b\n\n".to_string();

    let events = take_sse_events(&mut buffer);

    assert_eq!(events, vec!["a".to_string()]);
    assert_eq!(buffer, "data: b\n\n");
}

#[test]
fn map_chunk_should_emit_started_once_and_text_delta() {
    let mut first = true;
    let mut tool_calls: Vec<ToolCallCache> = vec![];

    let first_chunk = r#"{"choices": [{"delta": {"content": "hello", "reasoning_content": null}, "finish_reason": null}]}"#;
    let second_chunk = r#"{"choices": [{"delta": {"content": " world", "reasoning_content": null}, "finish_reason": null}]}"#;

    let first_events = map_event_text(first_chunk, &mut first, &mut tool_calls).unwrap();
    let second_events = map_event_text(second_chunk, &mut first, &mut tool_calls).unwrap();

    assert!(matches!(first_events[0], StreamEvent::Started));
    assert!(matches!(&first_events[1], StreamEvent::TextDelta(text) if text == "hello"));
    assert_eq!(first_events.len(), 2);
    assert!(matches!(&second_events[0], StreamEvent::TextDelta(text) if text == " world"));
    assert_eq!(second_events.len(), 1);
}

#[test]
fn map_chunk_should_aggregate_split_tool_arguments_until_completed() {
    let mut first = true;
    let mut tool_calls: Vec<ToolCallCache> = vec![];

    let tool_start = r#"{"choices": [{"delta": {"tool_calls": [{"index": 0, "id": "call_add", "type": "function", "function": {"name": "add", "arguments": ""}}]}, "finish_reason": null}]}"#;
    let args_part_1 = r#"{"choices": [{"delta": {"tool_calls": [{"index": 0, "function": {"arguments": "{\"a\":1"}}]}, "finish_reason": null}]}"#;
    let args_part_2 = r#"{"choices": [{"delta": {"tool_calls": [{"index": 0, "function": {"arguments": ",\"b\":2}"}}]}, "finish_reason": null}]}"#;
    let completed = r#"{"choices": [{"delta": {}, "finish_reason": "tool_calls"}]}"#;

    let start_events = map_event_text(tool_start, &mut first, &mut tool_calls).unwrap();
    let args_1_events = map_event_text(args_part_1, &mut first, &mut tool_calls).unwrap();
    let args_2_events = map_event_text(args_part_2, &mut first, &mut tool_calls).unwrap();
    let completed_events = map_event_text(completed, &mut first, &mut tool_calls).unwrap();

    assert!(matches!(start_events[0], StreamEvent::Started));
    assert!(args_1_events.is_empty());
    assert!(args_2_events.is_empty());
    assert!(matches!(
        &completed_events[0],
        StreamEvent::ToolCallFinished(ToolCallFinished { index: 0, call_id, name, arguments })
            if call_id == "call_add" && name == "add" && arguments == r#"{"a":1,"b":2}"#
    ));
    assert!(matches!(completed_events[1], StreamEvent::Completed));
    assert_eq!(completed_events.len(), 2);
}

#[test]
fn map_chunk_should_collect_multiple_tool_calls_from_one_chunk() {
    let mut first = true;
    let mut tool_calls: Vec<ToolCallCache> = vec![];

    let tool_chunk = r#"{"choices": [{"delta": {"tool_calls": [{"index": 0, "id": "call_add", "type": "function", "function": {"name": "add", "arguments": "{\"a\":1,\"b\":2}"}}, {"index": 1, "id": "call_sub", "type": "function", "function": {"name": "sub", "arguments": "{\"a\":5,\"b\":3}"}}]}, "finish_reason": null}]}"#;
    let completed = r#"{"choices": [{"delta": {}, "finish_reason": "tool_calls"}]}"#;

    let start_events = map_event_text(tool_chunk, &mut first, &mut tool_calls).unwrap();
    let completed_events = map_event_text(completed, &mut first, &mut tool_calls).unwrap();

    assert!(matches!(start_events[0], StreamEvent::Started));
    assert!(matches!(
        &completed_events[0],
        StreamEvent::ToolCallFinished(ToolCallFinished { index: 0, call_id, name, arguments })
            if call_id == "call_add" && name == "add" && arguments == r#"{"a":1,"b":2}"#
    ));
    assert!(matches!(
        &completed_events[1],
        StreamEvent::ToolCallFinished(ToolCallFinished { index: 1, call_id, name, arguments })
            if call_id == "call_sub" && name == "sub" && arguments == r#"{"a":5,"b":3}"#
    ));
    assert!(matches!(completed_events[2], StreamEvent::Completed));
    assert_eq!(completed_events.len(), 3);
    assert!(tool_calls.is_empty());
}

#[test]
fn map_chunk_handles_hand_built_deltas() {
    let mut first = true;
    let mut tool_calls: Vec<ToolCallCache> = vec![];
    let events = map_chunk(&text_chunk("hi"), &mut first, &mut tool_calls);
    assert_eq!(events.len(), 2);
    map_chunk(&tool_chunk(vec![(0, "c", "add", "{}")]), &mut first, &mut tool_calls);
    let events = map_chunk(&finish_chunk(), &mut first, &mut tool_calls);
    assert_eq!(events.len(), 2);
}

#[test]
fn parse_chunk_reads_the_first_choice() {
    let thinking = r#"{"id": "x", "object": "chat.completion.chunk", "choices": [{"index": 0, "delta": {"content": null, "reasoning_content": "think"}, "logprobs": null, "finish_reason": null}]}"#;
    let d = parse_chunk(thinking).unwrap();
    assert_eq!(d.content, None);
    assert_eq!(d.reasoning_content, Some("think".to_string()));
    assert!(d.tool_calls.is_empty());
    assert!(!d.finished);

    let end = r#"{"choices": [{"index": 0, "delta": {"content": "", "reasoning_content": null}, "finish_reason": "stop"}], "usage": {"total_tokens": 134}}"#;
    let d = parse_chunk(end).unwrap();
    assert_eq!(d.content, Some(String::new()));
    assert_eq!(d.reasoning_content, None);
    assert!(d.finished);

    // A value that is no string reads as empty text; a missing field as null.
    let odd = r#"{"choices": [{"delta": {"content": 7, "tool_calls": [{"function": {}}, 3]}}]}"#;
    let d = parse_chunk(odd).unwrap();
    assert_eq!(d.content, Some(String::new()));
    assert_eq!(d.reasoning_content, None);
    assert_eq!(d.tool_calls.len(), 2);
    assert_eq!(d.tool_calls[0].index, 0);
    assert!(d.tool_calls[0].id.is_empty() && d.tool_calls[0].name.is_empty());
    assert!(d.tool_calls[1].arguments.is_empty());
    assert!(!d.finished);
}

#[test]
fn text_that_is_no_json_is_refused_and_changes_nothing() {
    let mut first = true;
    let mut tool_calls = vec![ToolCallCache {
        index: 0,
        id: "c".to_string(),
        name: "add".to_string(),
        arguments: "{".to_string(),
    }];
    let err = map_event_text("{not json", &mut first, &mut tool_calls).unwrap_err();
    let expected = serde_json::from_str::<serde_json::Value>("{not json").unwrap_err().to_string();
    assert_eq!(err, expected);
    assert!(first);
    assert_eq!(tool_calls.len(), 1);
    assert_eq!(tool_calls[0].arguments, "{");
    assert!(parse_chunk("").is_err());
}

#[test]
fn reasoning_is_only_read_without_content() {
    let thinking = ChunkDelta {
        content: None,
        reasoning_content: Some("hmm".to_string()),
        tool_calls: vec![],
        finished: false,
    };
    let events = map_openai_event(&thinking);
    assert_eq!(events.len(), 1);
    assert!(matches!(&events[0], StreamEvent::ThinkingDelta(t) if t == "hmm"));

    let both = ChunkDelta {
        content: Some("".to_string()),
        reasoning_content: Some("hmm".to_string()),
        tool_calls: vec![],
        finished: true,
    };
    let events = map_openai_event(&both);
    assert_eq!(events.len(), 2);
    assert!(matches!(&events[0], StreamEvent::TextDelta(t) if t.is_empty()));
    assert!(matches!(events[1], StreamEvent::Completed));
}

#[test]
fn tool_call_pieces_without_a_name_carry_none() {
    let events = map_openai_event(&tool_chunk(vec![(2, "id", "", "{}")]));
    assert_eq!(events.len(), 1);
    match &events[0] {
        StreamEvent::ToolCallArgumentsDelta { index, call_id, name, delta } => {
            assert_eq!(*index, 2);
            assert_eq!(call_id, "id");
            assert_eq!(*name, None);
            assert_eq!(delta, "{}");
        }
        other => panic!("expected a tool call piece, got {other:?}"),
    }
}

#[test]
fn a_piece_whose_slot_is_past_the_end_starts_a_new_call() {
    let mut first = false;
    let mut tool_calls: Vec<ToolCallCache> = vec![];
    let events = map_chunk(&tool_chunk(vec![(5, "c5", "add", "{")]), &mut first, &mut tool_calls);
    assert!(events.is_empty());
    assert_eq!(tool_calls.len(), 1);
    assert_eq!(tool_calls[0].index, 5);
    let events = map_chunk(&tool_chunk(vec![(-1, "neg", "sub", "x")]), &mut first, &mut tool_calls);
    assert!(events.is_empty());
    assert_eq!(tool_calls.len(), 2);
    assert_eq!(tool_calls[1].arguments, "x");
}

#[test]
fn events_do_not_depend_on_how_the_text_arrives() {
    let text = "data: a\n\ndata: b\n\n: c\n\ndata: d\n\n";
    for cut in 0..=text.len() {
        let mut buffer = text[..cut].to_string();
        let mut events = take_sse_events(&mut buffer);
        buffer.push_str(&text[cut..]);
        events.extend(take_sse_events(&mut buffer));
        assert_eq!(events, vec!["a".to_string(), "b".to_string(), "d".to_string()], "cut at {cut}");
        assert!(buffer.is_empty());
    }
}

#[test]
fn chunks_may_cut_a_tool_call_anywhere() {
    let pieces = ["{\"a\"", ":1,", "\"b\":2}"];
    let mut first = true;
    let mut tool_calls: Vec<ToolCallCache> = vec![];
    map_chunk(&tool_chunk(vec![(0, "call", "add", pieces[0])]), &mut first, &mut tool_calls);
    for piece in &pieces[1..] {
        assert!(map_chunk(&tool_chunk(vec![(0, "", "", piece)]), &mut first, &mut tool_calls).is_empty());
    }
    let events = map_chunk(&finish_chunk(), &mut first, &mut tool_calls);
    assert!(matches!(
        &events[0],
        StreamEvent::ToolCallFinished(ToolCallFinished { arguments, .. }) if arguments == "{\"a\":1,\"b\":2}"
    ));
}

#[test]
fn only_an_array_of_choices_has_a_first_choice() {
    for text in [
        r#"{"choices": {"0": {"delta": {"content": "x"}, "finish_reason": "stop"}}}"#,
        r#"{"choices": []}"#,
        r#"{"other": 1}"#,
        r#"3"#,
    ] {
        let d = parse_chunk(text).unwrap();
        assert_eq!(d.content, None, "{text}");
        assert_eq!(d.reasoning_content, None, "{text}");
        assert!(d.tool_calls.is_empty(), "{text}");
        assert!(!d.finished, "{text}");
    }
    let d = parse_chunk(r#"{"choices": [{"delta": {"content": "x"}, "finish_reason": "stop"}]}"#).unwrap();
    assert_eq!(d.content, Some("x".to_string()));
    assert!(d.finished);
}
