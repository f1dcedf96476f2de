//! Tests for the mouse capture state

use corty_tui::utils::mouse_capture::{CaptureCommand, MouseCapture};

#[test]
fn test_new_capture_asks_to_enable() {
    let (capture, command) = MouseCapture::new_with_capture(true);
    assert!(!capture.is_active());
    assert_eq!(command, Some(CaptureCommand::Enable));
    let (capture, command) = MouseCapture::new_with_capture(false);
    assert!(!capture.is_active());
    assert_eq!(command, None);
}

#[test]
fn test_set_active_is_idempotent() {
    let (mut capture, command) = MouseCapture::new_with_capture(true);
    capture.commit(command.unwrap());
    assert!(capture.is_active());
    assert_eq!(capture.set_active(true), None);
    assert_eq!(capture.set_active(false), Some(CaptureCommand::Disable));
    // The state follows the terminal, not the request.
    assert!(capture.is_active());
    capture.commit(CaptureCommand::Disable);
    assert!(!capture.is_active());
    assert_eq!(capture.set_active(false), None);
    assert_eq!(capture.set_active(true), Some(CaptureCommand::Enable));
}

#[test]
fn test_toggle_switches_over() {
    let (mut capture, _) = MouseCapture::new_with_capture(false);
    assert_eq!(capture.toggle(), Some(CaptureCommand::Enable));
    capture.commit(CaptureCommand::Enable);
    assert_eq!(capture.toggle(), Some(CaptureCommand::Disable));
    assert_eq!(capture.enable(), None);
    assert_eq!(capture.disable(), Some(CaptureCommand::Disable));
}
