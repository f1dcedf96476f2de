//! Event dispatch and virtualized scrollback for a terminal chat shell.
//!
//! The crate holds the decisions of the shell as verified state machines:
//! the scroll coalescer, the transcript with its cached row counts, the
//! viewport, the command palette, the notification stack and the main
//! loop's dispatch. Painting, terminal control and task scheduling are left
//! to the program that embeds it.

pub mod app;
pub mod event;
pub mod layout;
pub mod protocol;
pub mod slash_command;
pub mod text;
pub mod utils;
pub mod widgets;
