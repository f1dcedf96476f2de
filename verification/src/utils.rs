//! State machines for the terminal's mouse: capture and wheel.

pub mod mouse_capture;
pub mod scroll_event_helper;
