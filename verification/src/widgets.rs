//! Widget state machines and the layout decisions behind each widget.

pub mod chat;
pub mod chat_history;
pub mod command_popup;
pub mod constants;
pub mod input_area;
pub mod rows;
pub mod text_block;
pub mod toaster;

pub use chat::{ChatWidget, ChatWidgetState};
pub use toaster::{Toaster, ToasterState};
