use codex_mini_demo::agent::stream_event::StreamEvent;
use codex_mini_demo::cli::app::{CliState, UiLine, UiMode};
use codex_mini_demo::cli::event_loop::{
    apply_stream_event, handle_command, handle_key, CommandEffect, Key, UiCommand,
};

#[test]
fn typing_and_backspace() {
    let mut state = CliState::new();
    state.push_char('h');
    state.push_char('i');
    state.backspace();
    assert_eq!(state.input, "h");
    state.backspace();
    state.backspace();
    assert_eq!(state.input, "");
}

#[test]
fn blank_prompts_are_not_taken() {
    let mut state = CliState::new();
    state.push_char(' ');
    assert_eq!(state.take_prompt(), None);
    assert_eq!(state.input, " ");
    state.push_char('x');
    assert_eq!(state.take_prompt(), Some(" x".to_string()));
    assert_eq!(state.input, "");
}

#[test]
fn deltas_extend_the_last_line_of_their_kind() {
    let mut state = CliState::new();
    state.append_model_delta("Hel".to_string());
    state.append_model_delta("lo".to_string());
    state.append_thinking_delta("hm".to_string());
    state.append_model_delta("!".to_string());
    assert_eq!(state.lines.len(), 3);
    assert_eq!(state.lines[0], UiLine::Model("Hello".to_string()));
    assert_eq!(state.lines[1], UiLine::Thinking("hm".to_string()));
    assert_eq!(state.log_scroll, 2);
}

#[test]
fn scrolling_stays_within_the_transcript() {
    let mut state = CliState::new();
    state.scroll_log_up();
    assert_eq!(state.log_scroll, 0);
    state.push_line(UiLine::User("a".to_string()));
    state.push_line(UiLine::User("b".to_string()));
    state.scroll_log_down();
    state.scroll_log_down();
    assert_eq!(state.log_scroll, 1);
}

#[test]
fn line_texts_carry_their_markers() {
    assert_eq!(UiLine::User("q".to_string()).text(), "> q");
    assert_eq!(UiLine::Thinking("t".to_string()).text(), "[thinking] t");
    assert_eq!(UiLine::Model("m".to_string()).text(), "m");
    assert_eq!(UiLine::Error("e".to_string()).text(), "[error] e");
}

#[test]
fn enter_submits_and_starts_the_agent() {
    let mut state = CliState::new();
    for c in "hi".chars() {
        handle_key(&mut state, Key::Char(c));
    }
    let command = handle_key(&mut state, Key::Enter);
    assert_eq!(command, UiCommand::SubmitPrompt("hi".to_string()));
    match handle_command(&mut state, command) {
        CommandEffect::StartAgent(prompt) => assert_eq!(prompt, "hi"),
        _ => panic!("a submitted prompt starts the agent"),
    }
    assert_eq!(state.mode, UiMode::RunningAgent);
}

#[test]
fn stream_events_reach_the_transcript() {
    let mut state = CliState::new();
    apply_stream_event(&mut state, StreamEvent::TextDelta("ok".to_string()));
    assert_eq!(state.lines.last(), Some(&UiLine::Model("ok".to_string())));
}
