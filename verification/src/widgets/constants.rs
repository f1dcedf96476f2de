//! Texts and tuning values shared by the widgets.

use vstd::prelude::*;

verus! {

/// Global padding around the entire application content.
pub const APP_PADDING: u16 = 1;

/// Total height of the welcome area.
pub const WELCOME_WIDGET_HEIGHT: u16 = 17;

/// Height of the bordered section within the welcome area.
pub const WELCOME_WIDGET_BORDER_HEIGHT: u16 = 9;

/// Width of the bordered section within the welcome area.
pub const WELCOME_WIDGET_BORDER_WIDTH: u16 = 50;

/// Internal padding within the welcome border.
pub const WELCOME_WIDGET_PADDING: u16 = 1;

/// Placeholder text shown in the empty chat input.
pub const PLACEHOLDER_TEXT: &'static str = "> Type a message to ask the AI...";

/// Placeholder text while a task is being processed.
pub const PLACEHOLDER_TEXT_AI_PROCESSING: &'static str = "AI is processing... Please wait...";

/// Placeholder text in ask mode.
pub const PLACEHOLDER_TEXT_ASK_AI: &'static str = "Type your question for the AI assistant...";

/// Mouse capture status indicators.
pub const MOUSE_STATUS_ON: &'static str = "[ON]";

pub const MOUSE_STATUS_OFF: &'static str = "[OFF]";

/// Mouse capture status as shown in the transcript's title.
pub const MOUSE_INDICATOR_ON: &'static str = "[Mouse ON]";

pub const MOUSE_INDICATOR_OFF: &'static str = "[Mouse OFF]";

/// Fullscreen mode indicator.
pub const FULLSCREEN_INDICATOR: &'static str = "[FULLSCREEN] ";

/// Input border titles.
pub const CHAT_TITLE_AI_PROCESSING: &'static str = "AI is processing... Input disabled";

pub const CHAT_TITLE_ASK_AI_MODE: &'static str =
    "Ask AI mode - Type your question and press Enter | Esc to cancel";

pub const CHAT_TITLE_NORMAL: &'static str =
    "Enter to ask AI | Ctrl+d to quit | Ctrl+n for newline | Ctrl+y toggle mouse capture";

/// Prefix of the first line of a user message.
pub const USER_MESSAGE_PREFIX: &'static str = "> ";

/// Prefix of the first line of an agent message.
pub const AGENT_MESSAGE_PREFIX: &'static str = "● ";

/// Prefix of every further line of a message.
pub const CONTINUATION_PREFIX: &'static str = "  ";

/// Base text of the working indicator.
pub const AI_WORKING_TEXT: &'static str = "● AI is thinking";

/// Transcript titles.
pub const CHAT_HISTORY_TITLE_FOCUSED: &'static str =
    "Messages (↑/↓ or j/k = line,  b/space = page)";

pub const CHAT_HISTORY_TITLE_UNFOCUSED: &'static str = "Messages";

/// Scrollbar symbols.
pub const SCROLLBAR_UP_SYMBOL: &'static str = "↑";

pub const SCROLLBAR_DOWN_SYMBOL: &'static str = "↓";

pub const SCROLLBAR_THUMB_SYMBOL: &'static str = "█";

pub const SCROLLBAR_TRACK_SYMBOL: &'static str = "│";

/// Command palette title.
pub const COMMAND_POPUP_TITLE: &'static str = "Commands";

/// Shown in the palette when no command matches.
pub const NO_MATCHING_COMMANDS: &'static str = "No matching commands";

/// The character that opens the command palette.
pub const COMMAND_TRIGGER: char = '/';

/// The trigger as text.
pub const COMMAND_PREFIX: &'static str = "/";

pub const COMMAND_SEPARATOR: &'static str = " - ";

/// Slash command descriptions.
pub const SLASH_COMMAND_CLEAR_DESC: &'static str = "Clear the chat history";

pub const SLASH_COMMAND_ASK_AI_DESC: &'static str =
    "Ask the AI (same as typing without slash command)";

pub const SLASH_COMMAND_FULLSCREEN_DESC: &'static str =
    "Toggle fullscreen mode (hide/show welcome widget)";

/// Notification shown when the mouse mode cannot be switched.
pub const ERROR_TOGGLE_MOUSE_MODE: &'static str = "Failed to toggle mouse mode: {}";

/// Notification shown when the agent cannot be reached.
pub const AI_ERROR_CONNECTION_TIMEOUT: &'static str =
    "AI Service Error: Connection timeout - Unable to reach the AI backend. Please check your network connection and try again.";

/// Transcript message shown when a task failed.
pub const AI_ERROR_RESPONSE: &'static str =
    "Sorry, I couldn't process your request due to a connection error. Please try again later.";

/// Notification icons.
pub const TOAST_ICON_ERROR: &'static str = "✕";

pub const TOAST_ICON_WARNING: &'static str = "⚠";

pub const TOAST_ICON_INFO: &'static str = "ℹ";

pub const TOAST_ICON_SUCCESS: &'static str = "✓";

/// Notification titles.
pub const TOAST_TITLE_ERROR: &'static str = "Error";

pub const TOAST_TITLE_WARNING: &'static str = "Warning";

pub const TOAST_TITLE_INFO: &'static str = "Info";

pub const TOAST_TITLE_SUCCESS: &'static str = "Success";

/// Welcome texts.
pub const WELCOME_TEXT_PREFIX: &'static str = "* Welcome to ";

pub const WELCOME_TEXT_APP_NAME: &'static str = "Corty Code";

pub const WELCOME_TEXT_SUFFIX: &'static str = "!";

pub const WELCOME_TEXT_INSTRUCTIONS: &'static str =
    "Just type to ask the AI, or use / for commands";

pub const WELCOME_TEXT_CWD_PREFIX: &'static str = "cwd: ";

pub const WELCOME_TEXT_CWD_UNKNOWN: &'static str = "(unknown)";

pub const WELCOME_TIPS_HEADER: &'static str = "Tips for getting started:";

pub const WELCOME_TIP_1: &'static str = "1. Type your message and press Enter to ask the AI";

pub const WELCOME_TIP_2: &'static str = "2. Use /clear to clear the chat history";

pub const WELCOME_TIP_3: &'static str = "3. Use Ctrl+N to add newlines to your message";

pub const WELCOME_TIP_4: &'static str = "4. Use Ctrl+Y to toggle mouse capture mode";

/// One dot of the working animation.
pub const AI_WORKING_DOT: &'static str = ".";

/// Milliseconds between two steps of the working animation.
pub const AI_WORKING_DOT_INTERVAL: u64 = 500;

/// Number of steps of the working animation.
pub const AI_WORKING_DOT_MAX_COUNT: u64 = 4;

} // verus!
