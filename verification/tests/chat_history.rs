//! Tests for the transcript, its row counts and its viewport

use corty_tui::event::{KeyCode, KeyEvent, KeyModifiers};
use corty_tui::layout::Rect;
use corty_tui::widgets::chat_history::{
    ChatHistory, ChatHistoryBlock, ChatHistoryState, EntryWindow, ScrollOffset, ScrollbarPlan,
    MAX_RENDERED_LINES,
};
use corty_tui::widgets::rows::{
    estimate_rows, rows_of_line, wrapped_rows, MAX_LINES_EXACT, MAX_PROCESSED_LINES,
    MAX_TOTAL_LINES, MAX_WRAPPED_ROWS,
};
use corty_tui::widgets::text_block::TextBlock;

fn key(code: KeyCode) -> KeyEvent {
    KeyEvent::new(code, KeyModifiers::none())
}

/// A transcript of `count` one-line messages, framed once 20 columns wide and 5 rows high.
fn framed(count: usize) -> ChatHistoryState {
    let mut state = ChatHistoryState::new();
    for i in 0..count {
        state.add_user_message(format!("message {}", i));
    }
    ChatHistory::new().render(Rect::new(0, 0, 21, 5), &mut state);
    state
}

#[test]
fn test_row_count_of_one_line() {
    // Fits: one row, also when empty.
    assert_eq!(rows_of_line(0, 10), 1);
    assert_eq!(rows_of_line(10, 10), 1);
    // ceil(L / W)
    assert_eq!(rows_of_line(11, 10), 2);
    assert_eq!(rows_of_line(20, 10), 2);
    assert_eq!(rows_of_line(21, 10), 3);
    assert_eq!(rows_of_line(7, 1), 7);
    // The cap for one line.
    assert_eq!(MAX_WRAPPED_ROWS, 100);
    assert_eq!(rows_of_line(1000, 10), 100);
    assert_eq!(rows_of_line(1001, 10), 100);
    assert_eq!(rows_of_line(usize::MAX, 1), 100);
    assert_eq!(rows_of_line(usize::MAX, u16::MAX), 100);
}

#[test]
fn test_row_count_of_a_text() {
    assert_eq!(wrapped_rows(&vec![3, 25, 0], 10), 1 + 3 + 1);
    // No width and no lines give one row.
    assert_eq!(wrapped_rows(&vec![3, 25, 0], 0), 1);
    assert_eq!(wrapped_rows(&vec![], 10), 1);
    // The cap for one entry.
    assert_eq!(MAX_PROCESSED_LINES, 1000);
    assert_eq!(wrapped_rows(&vec![1000; 10], 10), 1000);
    assert_eq!(wrapped_rows(&vec![1000; 11], 10), 1000);
    assert_eq!(wrapped_rows(&vec![990, 990, 990, 990, 990, 990, 990, 990, 990, 990, 5], 10), 991);
}

#[test]
fn test_row_count_is_estimated_above_the_threshold() {
    assert_eq!(MAX_LINES_EXACT, 500);
    assert_eq!(MAX_TOTAL_LINES, 5000);
    // 500 lines are still measured.
    assert_eq!(wrapped_rows(&vec![25; 500], 10), 1000);
    assert_eq!(wrapped_rows(&vec![5; 500], 10), 500);
    // 501 lines are estimated at two rows each, whatever their width.
    assert_eq!(wrapped_rows(&vec![5; 501], 10), 1002);
    assert_eq!(wrapped_rows(&vec![500; 501], 10), 1002);
    assert_eq!(wrapped_rows(&vec![5; 2500], 10), 5000);
    assert_eq!(wrapped_rows(&vec![5; 2501], 10), 5000);
    assert_eq!(estimate_rows(0), 0);
    assert_eq!(estimate_rows(3), 6);
    assert_eq!(estimate_rows(2500), 5000);
    assert_eq!(estimate_rows(usize::MAX), 5000);
}

#[test]
fn test_display_width_counts_columns_not_characters() {
    let block = TextBlock::new(vec![
        "abc".to_string(),
        "日本語".to_string(),
        String::new(),
        "e\u{301}".to_string(),
    ]);
    assert_eq!(block.measure(), vec![3, 6, 0, 1]);
}

#[test]
fn test_height_of_wide_text() {
    // Six columns of wide characters wrap at five columns.
    let block = ChatHistoryBlock::new_user_message("日本".to_string());
    // "> 日本" is 6 columns wide.
    assert_eq!(block.height(6), 2);
    assert_eq!(block.height(5), 3);
    assert_eq!(block.height(0), 1);
    assert_eq!(ChatHistoryBlock::new_ai_working().height(1), 2);
    assert_eq!(ChatHistoryBlock::new_ai_working().height(0), 2);
}

#[test]
fn test_message_lines_are_prefixed_and_closed_by_an_empty_line() {
    let user = ChatHistoryBlock::new_user_message("first\nsecond\r\nthird".to_string());
    assert_eq!(
        user.display_lines(),
        vec!["> first".to_string(), "  second".to_string(), "  third".to_string(), String::new()]
    );
    let agent = ChatHistoryBlock::new_agent_message("answer\n".to_string());
    assert_eq!(agent.display_lines(), vec!["● answer".to_string(), String::new()]);
    let empty = ChatHistoryBlock::new_agent_message(String::new());
    assert_eq!(empty.display_lines(), vec![String::new()]);
    // A carriage return that no line feed follows stays in its line.
    let bare = ChatHistoryBlock::new_user_message("a\rb\n\nc\r".to_string());
    assert_eq!(
        bare.display_lines(),
        vec!["> a\rb".to_string(), "  ".to_string(), "  c\r".to_string(), String::new()]
    );
}

#[test]
fn test_estimated_height_ignores_the_width() {
    let block = ChatHistoryBlock::new_user_message("a\nb\nc".to_string());
    // Three lines and the closing line.
    assert_eq!(block.estimated_height(), 8);
    assert_eq!(ChatHistoryBlock::new_ai_working().estimated_height(), 2);
}

#[test]
fn test_new_transcript_is_pinned_and_empty() {
    let state = ChatHistoryState::new();
    assert_eq!(state.len(), 0);
    assert_eq!(state.scroll_position(), ScrollOffset::Pinned);
    assert_eq!(state.cached_width(), 0);
    assert_eq!(state.total_rows(), 0);
    assert_eq!(state.viewport_height(), 0);
    assert!(!state.has_input_focus());
    assert!(state.mouse_capture_active());
    assert!(!state.has_ai_working());
}

#[test]
fn test_cached_total_equals_sum_of_measured_rows() {
    let texts = ["short", "a line that is longer than twenty columns", "two\nlines", ""];
    let mut state = ChatHistoryState::new();
    // Before the first frame nothing is measured.
    state.add_user_message(texts[0].to_string());
    assert_eq!(state.entry(0).line_count, 0);
    let history = ChatHistory::new();
    history.render(Rect::new(0, 0, 21, 5), &mut state);
    for text in &texts[1..] {
        state.add_agent_message(text.to_string());
    }
    history.render(Rect::new(0, 0, 21, 5), &mut state);

    let mut sum = 0;
    for (i, text) in texts.iter().enumerate() {
        let alone = if i == 0 {
            ChatHistoryBlock::new_user_message(text.to_string())
        } else {
            ChatHistoryBlock::new_agent_message(text.to_string())
        };
        assert_eq!(state.entry(i).line_count, alone.height(20));
        sum += alone.height(20);
    }
    assert_eq!(sum, 2 + 4 + 3 + 1);
    assert_eq!(state.total_rows(), sum);
    assert_eq!(state.cached_width(), 20);
    assert_eq!(state.viewport_height(), 5);
}

#[test]
fn test_width_change_recounts_every_entry_once() {
    let mut state = ChatHistoryState::new();
    state.add_user_message("a line that is longer than twenty columns".to_string());
    state.add_ai_working();
    let history = ChatHistory::new();
    history.render(Rect::new(0, 0, 21, 5), &mut state);
    assert_eq!(state.entry(0).line_count, 4);
    assert_eq!(state.entry(1).line_count, 2);
    assert_eq!(state.total_rows(), 6);

    history.render(Rect::new(0, 0, 11, 5), &mut state);
    assert_eq!(state.cached_width(), 10);
    assert_eq!(state.entry(0).line_count, 6);
    assert_eq!(state.entry(1).line_count, 2);
    assert_eq!(state.total_rows(), 8);

    // A further frame of the same width changes nothing.
    history.render(Rect::new(3, 4, 11, 5), &mut state);
    assert_eq!(state.entry(0).line_count, 6);
    assert_eq!(state.total_rows(), 8);
}

#[test]
fn test_frame_without_room_changes_nothing() {
    let mut state = framed(3);
    let frame = ChatHistory::new().render(Rect::new(0, 0, 1, 5), &mut state);
    assert!(frame.windows.is_empty());
    assert_eq!(frame.scrollbar, None);
    assert_eq!(state.cached_width(), 20);
    assert_eq!(state.viewport_height(), 5);
    let frame = ChatHistory::new().render(Rect::new(0, 0, 0, 5), &mut state);
    assert!(frame.windows.is_empty());
    assert_eq!(state.cached_width(), 20);
}

#[test]
fn test_frame_without_height_stores_the_measures() {
    let mut state = framed(3);
    let frame = ChatHistory::new().render(Rect::new(0, 0, 21, 0), &mut state);
    assert!(frame.windows.is_empty());
    assert_eq!(frame.scrollbar, None);
    assert_eq!(state.viewport_height(), 0);
    assert_eq!(state.total_rows(), 6);
}

#[test]
fn test_late_entries_are_estimated_once_the_cap_is_reached() {
    assert_eq!(MAX_RENDERED_LINES, 10000);
    let long = vec!["x"; 500].join("\n");
    let mut state = ChatHistoryState::new();
    // Each entry has 501 lines and is estimated at 1002 rows by its own threshold.
    for _ in 0..11 {
        state.add_user_message(long.clone());
    }
    state.add_user_message("hi".to_string());
    ChatHistory::new().render(Rect::new(0, 0, 21, 5), &mut state);
    // Ten entries reach 10020 rows, so that the entries from the eleventh
    // on are estimated. The last has two lines: four rows by the estimate,
    // not the two that measuring gives.
    assert_eq!(state.entry(9).line_count, 1002);
    assert_eq!(state.entry(10).line_count, 1002);
    assert_eq!(state.entry(11).line_count, 4);
    assert_eq!(ChatHistoryBlock::new_user_message("hi".to_string()).height(20), 2);
    assert_eq!(state.total_rows(), 10000);
}

#[test]
fn test_every_entry_counts_while_the_rows_are_within_the_cap() {
    let mut state = ChatHistoryState::new();
    for _ in 0..1001 {
        state.add_user_message("a\nb\nc".to_string());
    }
    ChatHistory::new().render(Rect::new(0, 0, 21, 5), &mut state);
    // Every entry is measured: four rows each, the last like the first.
    assert_eq!(state.entry(0).line_count, 4);
    assert_eq!(state.entry(999).line_count, 4);
    assert_eq!(state.entry(1000).line_count, 4);
    assert_eq!(state.total_rows(), 4004);
    // From the cache, in the next frame, the same.
    ChatHistory::new().render(Rect::new(0, 0, 21, 5), &mut state);
    assert_eq!(state.total_rows(), 4004);
}

#[test]
fn test_total_is_held_to_the_cap_on_rows() {
    let mut state = ChatHistoryState::new();
    for _ in 0..2501 {
        state.add_user_message("a\nb\nc".to_string());
    }
    ChatHistory::new().render(Rect::new(0, 0, 21, 5), &mut state);
    // 2500 entries give 10000 rows, which is within the cap: entry 2500 is
    // still measured, and the total is held at the cap.
    assert_eq!(state.entry(2499).line_count, 4);
    assert_eq!(state.entry(2500).line_count, 4);
    assert_eq!(state.total_rows(), 10000);
    state.add_user_message("late".to_string());
    ChatHistory::new().render(Rect::new(0, 0, 31, 5), &mut state);
    // After a change of width the entry behind 10004 rows is estimated.
    assert_eq!(state.entry(2500).line_count, 4);
    assert_eq!(state.entry(2501).line_count, 4);
    assert_eq!(ChatHistoryBlock::new_user_message("late".to_string()).height(30), 2);
    assert_eq!(state.total_rows(), 10000);
}

#[test]
fn test_scroll_up_from_pinned_takes_the_shown_offset() {
    let mut state = framed(10);
    assert_eq!(state.total_rows(), 20);
    let history = ChatHistory::new();
    history.scroll_up(3, &mut state);
    assert_eq!(state.scroll_position(), ScrollOffset::Row(12));
    history.scroll_up(100, &mut state);
    assert_eq!(state.scroll_position(), ScrollOffset::Row(0));
}

#[test]
fn test_scroll_down_pins_exactly_at_the_bound() {
    let history = ChatHistory::new();
    let mut state = framed(10);
    history.scroll_up(15, &mut state);
    assert_eq!(state.scroll_position(), ScrollOffset::Row(0));
    // The bound is 20 - 5 = 15.
    history.scroll_down(14, &mut state);
    assert_eq!(state.scroll_position(), ScrollOffset::Row(14));
    history.scroll_down(1, &mut state);
    assert_eq!(state.scroll_position(), ScrollOffset::Pinned);
    // Pinned stays pinned.
    history.scroll_down(7, &mut state);
    assert_eq!(state.scroll_position(), ScrollOffset::Pinned);

    let mut state = framed(10);
    history.scroll_up(15, &mut state);
    for step in [3u32, 0, 4, 7] {
        history.scroll_down(step, &mut state);
    }
    assert_eq!(state.scroll_position(), ScrollOffset::Row(14));
    history.scroll_down(u32::MAX, &mut state);
    assert_eq!(state.scroll_position(), ScrollOffset::Pinned);
}

#[test]
fn test_scroll_by_signed_delta() {
    let history = ChatHistory::new();
    let mut state = framed(10);
    history.scroll(0, &mut state);
    assert_eq!(state.scroll_position(), ScrollOffset::Pinned);
    history.scroll(-4, &mut state);
    assert_eq!(state.scroll_position(), ScrollOffset::Row(11));
    history.scroll(2, &mut state);
    assert_eq!(state.scroll_position(), ScrollOffset::Row(13));
    history.scroll(i32::MIN, &mut state);
    assert_eq!(state.scroll_position(), ScrollOffset::Row(0));
    history.scroll(i32::MAX, &mut state);
    assert_eq!(state.scroll_position(), ScrollOffset::Pinned);
}

#[test]
fn test_page_keys_step_by_the_viewport_height() {
    let history = ChatHistory::new();
    let mut state = framed(10);
    assert!(history.handle_key_event(key(KeyCode::PageUp), &mut state));
    assert_eq!(state.scroll_position(), ScrollOffset::Row(10));
    assert!(history.handle_key_event(key(KeyCode::Char('b')), &mut state));
    assert_eq!(state.scroll_position(), ScrollOffset::Row(5));
    assert!(history.handle_key_event(key(KeyCode::PageDown), &mut state));
    assert_eq!(state.scroll_position(), ScrollOffset::Row(10));
    assert!(history.handle_key_event(key(KeyCode::Char(' ')), &mut state));
    assert_eq!(state.scroll_position(), ScrollOffset::Pinned);
}

#[test]
fn test_line_keys_step_by_one_row() {
    let history = ChatHistory::new();
    let mut state = framed(10);
    assert!(history.handle_key_event(key(KeyCode::Up), &mut state));
    assert_eq!(state.scroll_position(), ScrollOffset::Row(14));
    assert!(history.handle_key_event(key(KeyCode::Char('k')), &mut state));
    assert_eq!(state.scroll_position(), ScrollOffset::Row(13));
    assert!(history.handle_key_event(key(KeyCode::Down), &mut state));
    assert_eq!(state.scroll_position(), ScrollOffset::Row(14));
    assert!(history.handle_key_event(key(KeyCode::Char('j')), &mut state));
    assert_eq!(state.scroll_position(), ScrollOffset::Pinned);
    // Other keys are not handled.
    assert!(!history.handle_key_event(key(KeyCode::Char('x')), &mut state));
    assert!(!history.handle_key_event(key(KeyCode::Enter), &mut state));
    assert_eq!(state.scroll_position(), ScrollOffset::Pinned);
}

#[test]
fn test_paging_before_the_first_frame() {
    let history = ChatHistory::new();
    let mut state = ChatHistoryState::new();
    history.scroll_page_up(&mut state);
    assert_eq!(state.scroll_position(), ScrollOffset::Row(0));
    history.scroll_page_down(&mut state);
    assert_eq!(state.scroll_position(), ScrollOffset::Pinned);
}

#[test]
fn test_viewport_without_height_pins_at_the_total() {
    let history = ChatHistory::new();
    let mut state = ChatHistoryState::new();
    for i in 0..3 {
        state.add_user_message(format!("message {}", i));
    }
    history.render(Rect::new(0, 0, 21, 0), &mut state);
    assert_eq!(state.total_rows(), 6);
    assert_eq!(state.viewport_height(), 0);
    history.scroll_up(2, &mut state);
    assert_eq!(state.scroll_position(), ScrollOffset::Row(4));
    // The bound is 6 - 0: row 5 is still an offset of its own.
    history.scroll_down(1, &mut state);
    assert_eq!(state.scroll_position(), ScrollOffset::Row(5));
    // A page of no rows moves nothing.
    history.scroll_page_down(&mut state);
    assert_eq!(state.scroll_position(), ScrollOffset::Row(5));
    history.scroll_page_up(&mut state);
    assert_eq!(state.scroll_position(), ScrollOffset::Row(5));
    history.scroll_down(1, &mut state);
    assert_eq!(state.scroll_position(), ScrollOffset::Pinned);
}

#[test]
fn test_append_while_scrolled_up_only_pins() {
    let mut state = framed(10);
    ChatHistory::new().scroll_up(6, &mut state);
    assert_eq!(state.scroll_position(), ScrollOffset::Row(9));
    state.add_agent_message("new".to_string());
    assert_eq!(state.scroll_position(), ScrollOffset::Pinned);
    assert_eq!(state.len(), 11);
    // The new entry is measured at the cached width; nothing else has changed.
    assert_eq!(state.entry(10).line_count, 2);
    assert_eq!(state.cached_width(), 20);
    assert_eq!(state.total_rows(), 20);
    assert_eq!(state.viewport_height(), 5);
    assert_eq!(state.entry(9).cell.display_lines(), vec!["> message 9".to_string(), String::new()]);
}

#[test]
fn test_clear_forgets_entries_and_measures() {
    let mut state = framed(4);
    ChatHistory::new().scroll_up(1, &mut state);
    state.clear();
    assert_eq!(state.len(), 0);
    assert_eq!(state.scroll_position(), ScrollOffset::Pinned);
    assert_eq!(state.total_rows(), 0);
    assert_eq!(state.viewport_height(), 0);
    assert_eq!(state.cached_width(), 20);
}

#[test]
fn test_pinned_frame_shows_the_last_rows() {
    let mut state = framed(4);
    // Eight rows, five shown: the offset is three, in the middle of entry 1.
    let frame = ChatHistory::new().render(Rect::new(2, 1, 21, 5), &mut state);
    assert_eq!(
        frame.windows,
        vec![
            EntryWindow { entry: 1, skip_rows: 1, area: Rect::new(2, 1, 20, 1) },
            EntryWindow { entry: 2, skip_rows: 0, area: Rect::new(2, 2, 20, 2) },
            EntryWindow { entry: 3, skip_rows: 0, area: Rect::new(2, 4, 20, 2) },
        ]
    );
    assert_eq!(frame.scrollbar, Some(ScrollbarPlan { content_length: 8, position: 3 }));
}

#[test]
fn test_scrolled_frame_clips_at_top_and_bottom() {
    let mut state = framed(4);
    let history = ChatHistory::new();
    history.scroll_up(2, &mut state);
    assert_eq!(state.scroll_position(), ScrollOffset::Row(1));
    let frame = history.render(Rect::new(0, 0, 21, 4), &mut state);
    assert_eq!(
        frame.windows,
        vec![
            EntryWindow { entry: 0, skip_rows: 1, area: Rect::new(0, 0, 20, 1) },
            EntryWindow { entry: 1, skip_rows: 0, area: Rect::new(0, 1, 20, 2) },
            EntryWindow { entry: 2, skip_rows: 0, area: Rect::new(0, 3, 20, 1) },
        ]
    );
    assert_eq!(frame.scrollbar, Some(ScrollbarPlan { content_length: 8, position: 1 }));
}

#[test]
fn test_short_transcript_fills_from_the_top() {
    let mut state = framed(1);
    let frame = ChatHistory::new().render(Rect::new(0, 0, 21, 5), &mut state);
    assert_eq!(
        frame.windows,
        vec![EntryWindow { entry: 0, skip_rows: 0, area: Rect::new(0, 0, 20, 2) }]
    );
    // The content is never shorter than the viewport.
    assert_eq!(frame.scrollbar, Some(ScrollbarPlan { content_length: 5, position: 0 }));
}

#[test]
fn test_offset_beyond_the_content_is_held_back() {
    let mut state = framed(10);
    let history = ChatHistory::new();
    history.scroll_up(1, &mut state);
    assert_eq!(state.scroll_position(), ScrollOffset::Row(14));
    // A higher viewport leaves less to scroll: the offset is held at 20 - 12.
    let frame = history.render(Rect::new(0, 0, 21, 12), &mut state);
    assert_eq!(frame.windows[0], EntryWindow { entry: 4, skip_rows: 0, area: Rect::new(0, 0, 20, 2) });
    assert_eq!(frame.windows.len(), 6);
    assert_eq!(frame.scrollbar, Some(ScrollbarPlan { content_length: 20, position: 8 }));
    assert_eq!(state.scroll_position(), ScrollOffset::Row(14));
}

#[test]
fn test_empty_transcript_shows_nothing() {
    let mut state = ChatHistoryState::new();
    let frame = ChatHistory::new().render(Rect::new(0, 0, 21, 5), &mut state);
    assert!(frame.windows.is_empty());
    assert_eq!(frame.scrollbar, None);
    assert_eq!(state.cached_width(), 20);
    assert_eq!(state.viewport_height(), 5);
}

#[test]
fn test_title_shows_focus_and_mouse_capture() {
    let mut state = ChatHistoryState::new();
    assert_eq!(state.title(), "Messages [Mouse ON]");
    state.set_mouse_capture_active(false);
    assert_eq!(state.title(), "Messages [Mouse OFF]");
    state.set_input_focus(true);
    assert_eq!(state.title(), "Messages (↑/↓ or j/k = line,  b/space = page) [Mouse OFF]");
}
