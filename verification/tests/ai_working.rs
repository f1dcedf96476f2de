//! Tests for AI working indicator functionality

use corty_tui::app::App;
use corty_tui::event::{AppEvent, Effect};
use corty_tui::slash_command::SlashCommand;
use corty_tui::widgets::chat_history::{working_text, ChatHistoryBlock, ChatHistoryState};
use std::time::Duration;

#[test]
fn test_ai_working_indicator_flow() {
    // This test verifies the AI working indicator flow conceptually
    // Since the actual UI rendering requires a full TUI setup,
    // we test the logical flow here

    // 1. User sends a message
    let user_message = "What is the meaning of life?";
    assert!(!user_message.is_empty());
    let mut state = ChatHistoryState::new();
    state.add_user_message(user_message.to_string());

    // 2. AI working indicator should be shown
    state.add_ai_working();
    let ai_working_added = state.has_ai_working();
    assert!(ai_working_added);

    // 3. AI processing simulation (2 seconds in the implementation)
    let processing_duration = Duration::from_secs(2);
    assert_eq!(processing_duration.as_secs(), 2);

    // 4. AI working indicator should be removed
    state.remove_ai_working();
    let ai_working_removed = !state.has_ai_working();
    assert!(ai_working_removed);
    assert_eq!(state.len(), 1);

    // 5. Error message should be shown (as we're simulating an error)
    let error_message = "AI Service Error: Connection timeout";
    assert!(error_message.contains("timeout"));
    state.add_agent_message(error_message.to_string());
    assert_eq!(state.len(), 2);
    assert_eq!(
        state.entry(1).cell.display_lines(),
        vec!["● AI Service Error: Connection timeout".to_string(), String::new()]
    );
}

#[test]
fn test_ai_working_animation_timing() {
    // Test the animation timing logic
    // The dots should cycle through 0-3 dots every 500ms

    let test_cases = vec![
        (0, 0),    // 0ms -> 0 dots
        (250, 0),  // 250ms -> 0 dots
        (500, 1),  // 500ms -> 1 dot
        (750, 1),  // 750ms -> 1 dot
        (1000, 2), // 1000ms -> 2 dots
        (1500, 3), // 1500ms -> 3 dots
        (2000, 0), // 2000ms -> 0 dots (cycle repeats)
        (2500, 1), // 2500ms -> 1 dot
    ];

    for (elapsed_ms, expected_dots) in test_cases {
        let dots_count = (elapsed_ms / 500) % 4;
        assert_eq!(
            dots_count, expected_dots,
            "At {}ms, expected {} dots but got {}",
            elapsed_ms, expected_dots, dots_count
        );
        let text = working_text(elapsed_ms);
        assert_eq!(
            text.chars().filter(|c| *c == '.').count() as u64,
            expected_dots,
            "At {}ms, expected {} dots but got {}",
            elapsed_ms,
            expected_dots,
            text
        );
    }
}

#[test]
fn test_ai_working_text_formatting() {
    // Test the formatting of the AI working text
    let base_text = "● AI is thinking";

    for dots_count in 0..4 {
        let dots = ".".repeat(dots_count);
        let formatted_text = format!("{}{}", base_text, dots);

        match dots_count {
            0 => assert_eq!(formatted_text, "● AI is thinking"),
            1 => assert_eq!(formatted_text, "● AI is thinking."),
            2 => assert_eq!(formatted_text, "● AI is thinking.."),
            3 => assert_eq!(formatted_text, "● AI is thinking..."),
            _ => unreachable!(),
        }
        assert_eq!(working_text(dots_count as u64 * 500), formatted_text);
    }
}

#[test]
fn test_ask_ai_command_triggers_working_indicator() {
    // Verify that the ask-ai command would trigger the working indicator
    let command = SlashCommand::AskAI;
    assert!(command.requires_input());

    // When ask-ai is executed with input, it should:
    // 1. Add user message
    // 2. Show AI working indicator
    // 3. Process (simulate delay)
    // 4. Remove AI working indicator
    // 5. Show response or error

    // This is the expected flow
    let expected_flow = vec![
        "add_user_message",
        "add_ai_working",
        "process_with_delay",
        "remove_ai_working",
        "add_agent_message_or_error",
    ];

    assert_eq!(expected_flow.len(), 5);
}

#[test]
fn test_multiple_ai_requests() {
    // Test that only one AI working indicator can be active at a time
    // In the implementation, starting a new request should:
    // 1. Remove any existing AI working indicator
    // 2. Add a new one

    // This prevents multiple "AI is thinking..." messages from stacking up
    let can_have_multiple = false;
    assert!(
        !can_have_multiple,
        "Only one AI working indicator should be shown at a time"
    );

    let mut state = ChatHistoryState::new();
    state.add_ai_working();
    state.add_user_message("again".to_string());
    state.add_ai_working();
    assert_eq!(state.len(), 2);
    let indicators = (0..state.len())
        .filter(|i| matches!(state.entry(*i).cell, ChatHistoryBlock::AiWorking { .. }))
        .count();
    assert_eq!(indicators, 1, "Only one AI working indicator should be shown at a time");
    // The new indicator comes last.
    assert!(matches!(state.entry(1).cell, ChatHistoryBlock::AiWorking { elapsed_ms: 0 }));
}

#[test]
fn test_working_indicator_shows_elapsed_time() {
    let mut state = ChatHistoryState::new();
    state.add_user_message("question".to_string());
    state.add_ai_working();
    state.update_ai_working(1200);
    assert!(matches!(state.entry(1).cell, ChatHistoryBlock::AiWorking { elapsed_ms: 1200 }));
    assert_eq!(
        state.entry(1).cell.display_lines(),
        vec!["● AI is thinking..".to_string(), String::new()]
    );
    // Messages are not touched.
    assert_eq!(
        state.entry(0).cell.display_lines(),
        vec!["> question".to_string(), String::new()]
    );
}

#[test]
fn test_second_task_start_is_ignored_while_processing() {
    let mut app = App::new();
    let first = app.handle_event(AppEvent::TaskStarted);
    assert_eq!(first, vec![Effect::Send(AppEvent::Redraw), Effect::SubmitTask]);
    assert!(app.chat().is_processing());
    let second = app.handle_event(AppEvent::TaskStarted);
    assert!(second.is_empty());
    assert_eq!(app.chat().history().len(), 1);
}
