use codex_mini_demo::agent::react::{
    sort_calls_by_index, AgentLoop, ChatMessage, TurnState, TurnStep, DEFAULT_MAX_TURNS,
};
use codex_mini_demo::agent::stream_event::{StreamEvent, ToolCallFinished};
use codex_mini_demo::tool::runtime::{tool_run_ended, ToolRuntimeResult};

fn call(index: i64, id: &str) -> ToolCallFinished {
    ToolCallFinished {
        index,
        call_id: id.to_string(),
        name: "add".to_string(),
        arguments: "{}".to_string(),
    }
}

#[test]
fn empty_prompt_is_refused() {
    match AgentLoop::start(String::new(), None) {
        Err(e) => assert_eq!(e, "prompt should not be empty"),
        Ok(_) => panic!("an empty prompt must not start a run"),
    }
}

#[test]
fn a_run_starts_from_an_empty_system_message_and_the_prompt() {
    let run = AgentLoop::start("hi".to_string(), None).expect("a prompt starts a run");
    assert_eq!(run.max_turns, DEFAULT_MAX_TURNS);
    assert_eq!(run.run_turns, 0);
    assert_eq!(run.messages.len(), 2);
    assert!(matches!(&run.messages[0], ChatMessage::System { content } if content.is_empty()));
    assert!(matches!(&run.messages[1], ChatMessage::User { content } if content == "hi"));
}

#[test]
fn react_agent_should_error_when_max_turns_exceeded() {
    let mut run = AgentLoop::start("loop".to_string(), Some(2)).unwrap();
    assert!(run.begin_turn().is_ok());
    assert!(run.begin_turn().is_ok());
    assert_eq!(run.begin_turn(), Err("max turns exceeded: 2".to_string()));
    assert_eq!(run.run_turns, 2);
}

#[test]
fn react_agent_should_return_final_answer_without_tool_call() {
    let mut run = AgentLoop::start("hello".to_string(), None).unwrap();
    run.begin_turn().unwrap();
    let mut turn = TurnState::new();
    assert!(matches!(turn.on_event(StreamEvent::Started), TurnStep::Forward(StreamEvent::Started)));
    assert!(matches!(turn.on_event(StreamEvent::TextDelta("Hel".to_string())), TurnStep::Forward(_)));
    assert!(matches!(turn.on_event(StreamEvent::TextDelta("lo".to_string())), TurnStep::Forward(_)));
    assert!(matches!(turn.on_event(StreamEvent::Completed), TurnStep::EndOfTurn));
    assert_eq!(turn.ai_content, "Hello");
    assert!(run.finish_turn(turn).is_none());
    assert_eq!(run.messages.len(), 2);
}

#[test]
fn model_errors_fail_the_turn() {
    let mut turn = TurnState::new();
    match turn.on_event(StreamEvent::Error("boom".to_string())) {
        TurnStep::Fail(e) => assert_eq!(e, "boom"),
        _ => panic!("an error event fails the run"),
    }
}

#[test]
fn react_agent_should_run_multiple_tool_calls_in_index_order() {
    let mut run = AgentLoop::start("calc".to_string(), None).unwrap();
    run.begin_turn().unwrap();
    let mut turn = TurnState::new();
    turn.on_event(StreamEvent::ThinkingDelta("think".to_string()));
    turn.on_event(StreamEvent::ToolCallFinished(call(2, "c2")));
    turn.on_event(StreamEvent::ToolCallFinished(call(0, "c0")));
    turn.on_event(StreamEvent::ToolCallFinished(call(1, "c1")));
    turn.on_event(StreamEvent::Completed);

    let calls = run.finish_turn(turn).expect("the turn asked for tools");

    let ids: Vec<&str> = calls.iter().map(|c| c.call_id.as_str()).collect();
    assert_eq!(ids, vec!["c0", "c1", "c2"]);
    match &run.messages[2] {
        ChatMessage::Assistant { content, reasoning_content, tool_calls } => {
            assert!(content.is_empty());
            assert_eq!(reasoning_content, "think");
            let ids: Vec<&str> = tool_calls.iter().map(|c| c.call_id.as_str()).collect();
            assert_eq!(ids, vec!["c0", "c1", "c2"]);
        }
        _ => panic!("expected the assistant message"),
    }
}

#[test]
fn sorting_keeps_calls_of_equal_index_in_order() {
    let sorted = sort_calls_by_index(vec![call(1, "a"), call(0, "b"), call(1, "c"), call(0, "d")]);
    let ids: Vec<&str> = sorted.iter().map(|c| c.call_id.as_str()).collect();
    assert_eq!(ids, vec!["b", "d", "a", "c"]);
}

#[test]
fn react_agent_should_feed_tool_failure_back_as_observation() {
    let mut run = AgentLoop::start("x".to_string(), None).unwrap();
    run.record_tool_result(&call(0, "c0"), &ToolRuntimeResult::Failed { error: "bad".to_string() });
    run.record_tool_result(&call(1, "c1"), &ToolRuntimeResult::Denied { reason: "no".to_string() });
    run.record_tool_result(&call(2, "c2"), &ToolRuntimeResult::Finished { output: "3".to_string() });
    assert!(matches!(&run.messages[2], ChatMessage::Tool { tool_call_id, content } if tool_call_id == "c0" && content == "bad"));
    assert!(matches!(&run.messages[3], ChatMessage::Tool { tool_call_id, content } if tool_call_id == "c1" && content == "tool denied: no"));
    assert!(matches!(&run.messages[4], ChatMessage::Tool { tool_call_id, content } if tool_call_id == "c2" && content == "3"));
}

#[test]
fn other_events_pass_through_unchanged() {
    let mut turn = TurnState::new();
    let piece = StreamEvent::ToolCallArgumentsDelta {
        index: 0,
        call_id: "c".to_string(),
        name: None,
        delta: "{".to_string(),
    };
    assert!(matches!(turn.on_event(piece), TurnStep::Forward(StreamEvent::ToolCallArgumentsDelta { .. })));
    assert!(turn.ai_content.is_empty());
    assert!(turn.pending_tool_calls.is_empty());
}

#[test]
fn react_agent_should_continue_after_multiple_tool_rounds() {
    let mut run = AgentLoop::start("rounds".to_string(), Some(3)).unwrap();
    for round in 0..2 {
        run.begin_turn().unwrap();
        let mut turn = TurnState::new();
        let id = format!("call_{round}");
        turn.on_event(StreamEvent::ToolCallFinished(call(0, &id)));
        turn.on_event(StreamEvent::Completed);
        let calls = run.finish_turn(turn).expect("a tool round");
        run.record_tool_result(&calls[0], &ToolRuntimeResult::Finished { output: round.to_string() });
    }
    run.begin_turn().unwrap();
    let mut turn = TurnState::new();
    turn.on_event(StreamEvent::TextDelta("done".to_string()));
    turn.on_event(StreamEvent::Completed);
    assert!(run.finish_turn(turn).is_none());
    assert_eq!(run.messages.len(), 6);
    assert!(matches!(&run.messages[3], ChatMessage::Tool { content, .. } if content == "0"));
    assert!(matches!(&run.messages[5], ChatMessage::Tool { content, .. } if content == "1"));
    assert_eq!(run.begin_turn(), Err("max turns exceeded: 3".to_string()));
}

#[test]
fn a_skipped_tool_is_observed_as_skipped_and_reported_as_failed() {
    let mut run = AgentLoop::start("x".to_string(), None).unwrap();
    let skipped = ToolRuntimeResult::Skipped { reason: "earlier call denied".to_string() };
    run.record_tool_result(&call(0, "c0"), &skipped);
    assert!(matches!(&run.messages[2], ChatMessage::Tool { tool_call_id, content }
        if tool_call_id == "c0" && content == "tool skipped: earlier call denied"));
    match tool_run_ended(&call(0, "c0"), &skipped) {
        StreamEvent::ToolRunFailed { call_id, error, .. } => {
            assert_eq!(call_id, "c0");
            assert_eq!(error, "earlier call denied");
        }
        _ => panic!("a skipped tool ends as a failed run"),
    }
}

#[test]
fn a_round_of_tool_runs_adds_one_observation_per_call_in_order() {
    let mut run = AgentLoop::start("x".to_string(), Some(4)).unwrap();
    let runs = vec![
        (call(0, "c0"), ToolRuntimeResult::Finished { output: "3".to_string() }),
        (call(1, "c1"), ToolRuntimeResult::Denied { reason: "no".to_string() }),
        (call(2, "c2"), ToolRuntimeResult::Skipped { reason: "after denial".to_string() }),
    ];
    run.record_tool_results(&runs);
    assert_eq!(run.messages.len(), 5);
    assert!(matches!(&run.messages[2], ChatMessage::Tool { tool_call_id, content } if tool_call_id == "c0" && content == "3"));
    assert!(matches!(&run.messages[3], ChatMessage::Tool { tool_call_id, content } if tool_call_id == "c1" && content == "tool denied: no"));
    assert!(matches!(&run.messages[4], ChatMessage::Tool { tool_call_id, content } if tool_call_id == "c2" && content == "tool skipped: after denial"));
    assert_eq!(run.max_turns, 4);
    assert_eq!(run.run_turns, 0);
}
