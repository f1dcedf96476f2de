//! Tests for the scroll coalescer

use corty_tui::app::{translate_terminal_event, TerminalEvent};
use corty_tui::event::AppEvent;
use corty_tui::utils::scroll_event_helper::{ScrollEventHelper, DEBOUNCE_WINDOW_MS};

#[test]
fn test_burst_of_four_ticks_yields_one_event_of_two_rows() {
    let mut helper = ScrollEventHelper::new();
    // +1, +1, -1, +1
    let started = vec![
        helper.scroll_down(),
        helper.scroll_down(),
        helper.scroll_up(),
        helper.scroll_down(),
    ];
    // Only the first tick starts a timer.
    assert_eq!(started, vec![true, false, false, false]);
    assert!(helper.is_timer_scheduled());
    assert_eq!(helper.pending_delta(), 2);

    assert_eq!(helper.timer_expired(), Some(AppEvent::ScrollDelta(2)));
    assert_eq!(helper.pending_delta(), 0);
    assert!(!helper.is_timer_scheduled());
    // Nothing is left for a second expiry.
    assert_eq!(helper.timer_expired(), None);
}

#[test]
fn test_ticks_that_cancel_yield_no_event() {
    let mut helper = ScrollEventHelper::new();
    assert!(helper.scroll_up());
    assert!(!helper.scroll_down());
    assert_eq!(helper.timer_expired(), None);
    assert!(!helper.is_timer_scheduled());
}

#[test]
fn test_upward_burst_is_negative() {
    let mut helper = ScrollEventHelper::new();
    helper.scroll_up();
    helper.scroll_up();
    helper.scroll_up();
    assert_eq!(helper.timer_expired(), Some(AppEvent::ScrollDelta(-3)));
}

#[test]
fn test_next_burst_starts_a_new_timer() {
    let mut helper = ScrollEventHelper::new();
    assert!(helper.scroll_down());
    assert_eq!(helper.timer_expired(), Some(AppEvent::ScrollDelta(1)));
    assert!(helper.scroll_down());
    assert!(!helper.scroll_down());
    assert_eq!(helper.timer_expired(), Some(AppEvent::ScrollDelta(2)));
}

#[test]
fn test_schedule_notification_marks_once() {
    let mut helper = ScrollEventHelper::new();
    assert!(helper.schedule_notification());
    assert!(!helper.schedule_notification());
    assert_eq!(helper.pending_delta(), 0);
    assert_eq!(helper.timer_expired(), None);
    assert!(helper.schedule_notification());
}

#[test]
fn test_debounce_window() {
    assert_eq!(DEBOUNCE_WINDOW_MS, 100);
}

#[test]
fn test_wheel_ticks_go_to_the_coalescer_not_to_the_bus() {
    let mut helper = ScrollEventHelper::new();
    let first = translate_terminal_event(TerminalEvent::ScrollDown, &mut helper);
    assert!(first.events.is_empty());
    assert!(first.start_timer);
    let second = translate_terminal_event(TerminalEvent::ScrollUp, &mut helper);
    assert!(second.events.is_empty());
    assert!(!second.start_timer);
    let third = translate_terminal_event(TerminalEvent::ScrollDown, &mut helper);
    assert!(!third.start_timer);
    assert_eq!(helper.timer_expired(), Some(AppEvent::ScrollDelta(1)));
}
