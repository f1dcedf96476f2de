//! Tests for the toaster notification system

use corty_tui::layout::Rect;
use corty_tui::widgets::toaster::{ToastKind, ToastPlacement, TOAST_DURATION_NANOS};
use corty_tui::widgets::{Toaster, ToasterState};

const SECOND: u128 = 1_000_000_000;

#[test]
fn test_toaster_state_basic() {
    let mut state = ToasterState::new();

    // Initially empty
    assert!(!state.has_toasts());
    assert_eq!(state.toasts().len(), 0);

    // Add an error toast
    state.error("Test error message");
    assert!(state.has_toasts());
    assert_eq!(state.toasts().len(), 1);
    assert_eq!(state.toasts()[0].message, "Test error message");
}

#[test]
fn test_toaster_state_multiple_types() {
    let mut state = ToasterState::new();

    state.error("Error message");
    state.warning("Warning message");
    state.info("Info message");
    state.success("Success message");

    assert_eq!(state.toasts().len(), 3); // Only keeps MAX_TOASTS (3)

    // Should have kept the most recent 3
    assert_eq!(state.toasts()[0].message, "Warning message");
    assert_eq!(state.toasts()[1].message, "Info message");
    assert_eq!(state.toasts()[2].message, "Success message");
}

#[test]
fn test_toaster_state_max_limit() {
    let mut state = ToasterState::new();

    // Add more than MAX_TOASTS
    for i in 0..5 {
        state.error(&format!("Error {}", i));
    }

    // Should only keep the last 3
    assert_eq!(state.toasts().len(), 3);
    assert_eq!(state.toasts()[0].message, "Error 2");
    assert_eq!(state.toasts()[1].message, "Error 3");
    assert_eq!(state.toasts()[2].message, "Error 4");
}

#[test]
fn test_toaster_state_clear() {
    let mut state = ToasterState::new();

    state.error("Error 1");
    state.error("Error 2");
    assert_eq!(state.toasts().len(), 2);

    state.clear();
    assert!(!state.has_toasts());
    assert_eq!(state.toasts().len(), 0);
}

#[test]
fn test_toaster_expiration() {
    let mut state = ToasterState::new();
    state.error("Temporary error");

    assert_eq!(state.toasts().len(), 1);

    // Immediately after adding, tick should not remove it
    state.tick();
    assert_eq!(state.toasts().len(), 1);

    // Simulate waiting for expiration (we can't actually wait in tests)
    // In real usage, toasts expire after TOAST_DURATION (5 seconds)
    // For testing, we'll just verify the tick method exists and can be called
    state.tick();
    assert!(state.toasts().len() <= 1);
}

#[test]
fn test_toast_kinds_carry_their_style() {
    let mut state = ToasterState::new();
    state.warning("w");
    state.info("i");
    state.success("s");
    assert_eq!(state.toasts()[0].kind, ToastKind::Warning);
    assert_eq!(state.toasts()[1].kind, ToastKind::Info);
    assert_eq!(state.toasts()[2].kind, ToastKind::Success);

    assert_eq!(ToastKind::Error.color(), (239, 68, 68));
    assert_eq!(ToastKind::Warning.color(), (245, 158, 11));
    assert_eq!(ToastKind::Info.color(), (59, 130, 246));
    assert_eq!(ToastKind::Success.color(), (34, 197, 94));
    assert_eq!(ToastKind::Error.icon(), "✕");
    assert_eq!(ToastKind::Warning.icon(), "⚠");
    assert_eq!(ToastKind::Info.icon(), "ℹ");
    assert_eq!(ToastKind::Success.icon(), "✓");
    assert_eq!(ToastKind::Error.title(), "Error");
    assert_eq!(ToastKind::Warning.title(), "Warning");
    assert_eq!(ToastKind::Info.title(), "Info");
    assert_eq!(ToastKind::Success.title(), "Success");
}

#[test]
fn test_toast_present_after_four_seconds_absent_after_six() {
    let created = 17 * SECOND;
    let mut state = ToasterState::new();
    state.add_toast_at("Temporary".to_string(), ToastKind::Error, created);
    assert_eq!(state.toasts()[0].created_at, created);

    state.tick_at(created + 4 * SECOND);
    assert_eq!(state.toasts().len(), 1);
    assert_eq!(state.toasts()[0].message, "Temporary");

    state.tick_at(created + 6 * SECOND);
    assert!(!state.has_toasts());
}

#[test]
fn test_toast_expires_exactly_at_the_duration() {
    assert_eq!(TOAST_DURATION_NANOS, 5 * SECOND);
    let mut state = ToasterState::new();
    state.add_toast_at("a".to_string(), ToastKind::Info, 100);
    state.tick_at(100 + TOAST_DURATION_NANOS - 1);
    assert_eq!(state.toasts().len(), 1);
    state.tick_at(100 + TOAST_DURATION_NANOS);
    assert_eq!(state.toasts().len(), 0);
}

#[test]
fn test_tick_before_creation_keeps_the_toast() {
    let mut state = ToasterState::new();
    state.add_toast_at("a".to_string(), ToastKind::Info, 10 * SECOND);
    state.tick_at(0);
    assert_eq!(state.toasts().len(), 1);
}

#[test]
fn test_tick_keeps_the_order_of_the_fresh_toasts() {
    let mut state = ToasterState::new();
    state.add_toast_at("old".to_string(), ToastKind::Info, 0);
    state.add_toast_at("middle".to_string(), ToastKind::Info, 3 * SECOND);
    state.add_toast_at("expired too".to_string(), ToastKind::Info, SECOND);
    state.add_toast_at("new".to_string(), ToastKind::Info, 4 * SECOND);
    // Only three are kept: the oldest has left already.
    assert_eq!(state.toasts().len(), 3);
    state.tick_at(6 * SECOND + 1);
    assert_eq!(state.toasts().len(), 2);
    assert_eq!(state.toasts()[0].message, "middle");
    assert_eq!(state.toasts()[1].message, "new");
}

#[test]
fn test_clock_of_the_state_moves_forward() {
    let state = ToasterState::new();
    let first = state.now();
    let second = state.now();
    assert!(second >= first);
    // The clock counts from the state's creation, not from the epoch.
    assert!(first < 3600 * SECOND);
}

#[test]
fn test_toaster_width_follows_the_longest_message() {
    let mut state = ToasterState::new();
    assert_eq!(Toaster::new(&state).calculate_width(), 20);
    state.error("12345");
    assert_eq!(Toaster::new(&state).calculate_width(), 25);
    state.error("1234567890");
    state.error("123");
    assert_eq!(Toaster::new(&state).calculate_width(), 30);
    state.error(&"x".repeat(40));
    assert_eq!(Toaster::new(&state).calculate_width(), 60);
    state.error(&"x".repeat(41));
    assert_eq!(Toaster::new(&state).calculate_width(), 60);
}

#[test]
fn test_toaster_width_counts_bytes() {
    let mut state = ToasterState::new();
    // Three characters of three bytes each.
    state.error("✕✕✕");
    assert_eq!(Toaster::new(&state).calculate_width(), 29);
}

#[test]
fn test_toast_height_wraps_the_message() {
    let mut state = ToasterState::new();
    state.error("");
    state.error(&"x".repeat(16));
    state.error(&"x".repeat(17));
    let toaster = Toaster::new(&state);
    // Width 20 leaves 16 columns for the message.
    assert_eq!(toaster.calculate_toast_height(&state.toasts()[0], 20), 3);
    assert_eq!(toaster.calculate_toast_height(&state.toasts()[1], 20), 4);
    assert_eq!(toaster.calculate_toast_height(&state.toasts()[2], 20), 5);
    assert_eq!(toaster.calculate_toast_height(&state.toasts()[2], 5), 6);
    assert_eq!(toaster.calculate_toast_height(&state.toasts()[2], 60), 4);
}

#[test]
fn test_toaster_layout_stacks_from_the_top_right() {
    let mut state = ToasterState::new();
    state.error("Test error message");
    state.error("second");
    let toaster = Toaster::new(&state);
    let places = toaster.layout(Rect::new(0, 0, 80, 20));
    // Width is 18 + 20 = 38; the toasts begin 40 columns from the right.
    assert_eq!(
        places,
        vec![
            ToastPlacement { index: 0, area: Rect::new(40, 2, 38, 4) },
            ToastPlacement { index: 1, area: Rect::new(40, 7, 38, 4) },
        ]
    );
}

#[test]
fn test_toaster_layout_stops_at_the_bottom() {
    let mut state = ToasterState::new();
    state.error("one");
    state.error("two");
    state.error("three");
    let toaster = Toaster::new(&state);
    // Each toast is 4 rows high and 25 columns wide. The area ends before row 12:
    // rows 3..7 and 8..12 fit, the third toast does not.
    let places = toaster.layout(Rect::new(5, 1, 30, 11));
    assert_eq!(places.len(), 2);
    assert_eq!(places[0].area, Rect::new(8, 3, 25, 4));
    assert_eq!(places[1].area, Rect::new(8, 8, 25, 4));
    // No room at all.
    assert!(toaster.layout(Rect::new(0, 0, 30, 5)).is_empty());
    // An area that is narrower than the toasts keeps them at its left edge.
    assert_eq!(toaster.layout(Rect::new(3, 0, 10, 6))[0].area, Rect::new(3, 2, 25, 4));
}

#[test]
fn test_toaster_layout_without_toasts_is_empty() {
    let state = ToasterState::new();
    assert!(Toaster::new(&state).layout(Rect::new(0, 0, 80, 20)).is_empty());
}
