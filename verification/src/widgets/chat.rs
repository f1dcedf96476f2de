//! The chat widget: the input buffer, the command palette over it, and
//! the transcript below it.
//!
//! The widget never sends an event itself. What it wants sent it puts in
//! its outbox, which the main loop empties after every call.

use super::chat_history::{
    indicator_free, is_scroll_key, lemma_appended_indicators, lemma_kinds_stay,
    lemma_without_indicator, message_lines, BlockModel, ChatHistory, ChatHistoryState,
    HistoryFrame, HistoryModel,
};
use super::command_popup::{filter_of, CommandPopup, PopupModel};
use super::constants::{
    AGENT_MESSAGE_PREFIX, AI_ERROR_RESPONSE, CHAT_TITLE_AI_PROCESSING, CHAT_TITLE_ASK_AI_MODE,
    CHAT_TITLE_NORMAL, COMMAND_PREFIX, FULLSCREEN_INDICATOR, MOUSE_STATUS_OFF,
    MOUSE_STATUS_ON, PLACEHOLDER_TEXT, PLACEHOLDER_TEXT_AI_PROCESSING, PLACEHOLDER_TEXT_ASK_AI,
    USER_MESSAGE_PREFIX,
};
use super::input_area::{
    area_cut, area_delete_char, area_input, area_insert_newline, area_insert_str, area_is_empty,
    area_lines, area_select_all, input_of, lines_of_area, new_area, within_reach, Input,
    InputArea, InputKey,
};
use super::toaster::{duration_millis, instant_elapsed, instant_now};
use crate::event::{AppEvent, Effect, KeyEvent};
use crate::layout::Rect;
use crate::slash_command::{built_in_commands, SlashCommand};
use crate::text::{
    contains_char, is_blank, is_blank_text, join_lines, joined, strip_prefix, text_after_prefix,
    texts_of,
};
use std::time::Instant;
use vstd::prelude::*;
use vstd::string::StringExecFns;

verus! {

/// Reserved for the widget's own state of painting.
#[derive(Clone, Copy, Debug, Default)]
pub struct ChatWidgetState {}

/// The colour of the input's border and of its placeholder.
#[derive(Debug, Clone, Copy, PartialEq, Eq, Structural)]
pub enum InputTone {
    /// No task runs and no command is active.
    Idle,
    /// A command waits for its prompt.
    Command,
    /// A task runs and input is not taken.
    Processing,
}

/// The widget as plain values.
pub struct ChatModel {
    /// The lines of the input buffer.
    pub text: Seq<Seq<char>>,
    /// The command palette, if it is open.
    pub popup: Option<PopupModel>,
    /// The command that waits for its prompt, if any.
    pub active_command: Option<SlashCommand>,
    pub fullscreen_mode: bool,
    pub mouse_capture_active: bool,
    /// A task runs.
    pub ai_processing: bool,
    /// The working animation runs.
    pub ai_working: bool,
    /// The input that was set aside when the task started.
    pub saved_text: Option<Seq<Seq<char>>>,
    /// The task that was submitted and not yet handed to the agent.
    pub pending_task: Option<Seq<char>>,
    pub history: HistoryModel,
    /// What the widget wants done, oldest first.
    pub outbox: Seq<Effect>,
}

/// The text with which a command is invoked: the trigger, the name and a
/// space.
pub open spec fn invocation(command: SlashCommand) -> Seq<char> {
    COMMAND_PREFIX@ + command.command_text() + " "@
}

/// The prompt in a text that was entered in command mode: what follows
/// the invocation, or the whole text if it does not begin with it.
pub open spec fn prompt_of(text: Seq<char>, command: SlashCommand) -> Seq<char> {
    match text_after_prefix(text, invocation(command)) {
        Some(rest) => rest,
        None => text,
    }
}

/// The text opens the palette: it begins with the trigger and holds no
/// space.
pub open spec fn opens_palette(text: Seq<char>) -> bool {
    COMMAND_PREFIX@.is_prefix_of(text) && !text.contains(' ')
}

/// The palette of a widget that was just opened.
pub open spec fn fresh_palette() -> PopupModel {
    PopupModel {
        commands: built_in_commands(),
        filtered: built_in_commands(),
        selected: Some(0usize),
        filter: Seq::empty(),
    }
}

/// The palette after the input text became `text`. While a command is
/// active the palette stays as it is. Else it is open exactly if the text
/// opens it and some command matches the text's filter.
pub open spec fn palette_for(
    popup: Option<PopupModel>,
    active_command: Option<SlashCommand>,
    text: Seq<char>,
) -> Option<PopupModel> {
    if active_command.is_some() {
        popup
    } else if opens_palette(text) {
        let filtered = (match popup {
            Some(open) => open,
            None => fresh_palette(),
        }).filtered_by(filter_of(text));
        if filtered.filtered.len() > 0 {
            Some(filtered)
        } else {
            None
        }
    } else {
        None
    }
}

/// A wheel delta as the transcript takes it: one row stays one row, any
/// other delta counts double, held within the range of the type.
pub open spec fn magnified(delta: i32) -> i32 {
    if delta == 1 || delta == -1 {
        delta
    } else if delta * 2 > i32::MAX {
        i32::MAX
    } else if delta * 2 < i32::MIN {
        i32::MIN
    } else {
        (delta * 2) as i32
    }
}

/// The one empty line of an empty buffer.
pub open spec fn empty_text() -> Seq<Seq<char>> {
    seq![Seq::<char>::empty()]
}

impl ChatModel {
    /// The model with one more effect in its outbox.
    pub open spec fn with_effect(self, effect: Effect) -> ChatModel {
        ChatModel { outbox: self.outbox.push(effect), ..self }
    }

    /// The model with a request for a frame in its outbox.
    pub open spec fn with_redraw(self) -> ChatModel {
        self.with_effect(Effect::Send(AppEvent::Redraw))
    }

    /// The model after `text` was submitted as a task: the text is shown
    /// as a message of the user, kept as the pending task, and the start
    /// of the task is announced.
    pub open spec fn submitted(self, text: Seq<char>) -> ChatModel {
        ChatModel {
            history: self.history.appended(
                BlockModel::UserMessage { lines: message_lines(USER_MESSAGE_PREFIX@, text) },
            ),
            pending_task: Some(text),
            ..self
        }.with_effect(Effect::Send(AppEvent::TaskStarted))
    }

    /// The model after a command was executed, with its prompt if it
    /// takes one.
    pub open spec fn executed(self, command: SlashCommand, prompt: Option<Seq<char>>) -> ChatModel {
        match command {
            SlashCommand::Clear => ChatModel {
                history: self.history.cleared(),
                ..self
            }.with_redraw(),
            SlashCommand::AskAI => match prompt {
                Some(prompt) => self.submitted(prompt),
                None => self,
            },
            SlashCommand::Fullscreen => ChatModel {
                fullscreen_mode: !self.fullscreen_mode,
                ..self.with_effect(Effect::Send(AppEvent::ToggleFullscreen))
            }.with_redraw(),
        }
    }

    /// The tone of the input's border and placeholder.
    pub open spec fn tone(self) -> InputTone {
        if self.ai_processing {
            InputTone::Processing
        } else if self.active_command.is_some() {
            InputTone::Command
        } else {
            InputTone::Idle
        }
    }

    /// The placeholder of the empty input.
    pub open spec fn placeholder_text(self) -> Seq<char> {
        if self.ai_processing {
            PLACEHOLDER_TEXT_AI_PROCESSING@
        } else if self.active_command == Some(SlashCommand::AskAI) {
            PLACEHOLDER_TEXT_ASK_AI@
        } else {
            PLACEHOLDER_TEXT@
        }
    }

    /// The title of the input's border.
    pub open spec fn border_title(self) -> Seq<char> {
        let indicator = if self.fullscreen_mode {
            FULLSCREEN_INDICATOR@
        } else {
            Seq::empty()
        };
        if self.ai_processing {
            indicator + CHAT_TITLE_AI_PROCESSING@
        } else if self.active_command == Some(SlashCommand::AskAI) {
            indicator + CHAT_TITLE_ASK_AI_MODE@
        } else {
            indicator + CHAT_TITLE_NORMAL@ + " "@ + if self.mouse_capture_active {
                MOUSE_STATUS_ON@
            } else {
                MOUSE_STATUS_OFF@
            }
        }
    }
}

/// Main chat widget that handles user input and displays message history.
pub struct ChatWidget {
    textarea: InputArea,
    chat_history_state: ChatHistoryState,
    mouse_capture_active: bool,
    command_popup: Option<CommandPopup>,
    active_command: Option<SlashCommand>,
    fullscreen_mode: bool,
    ai_working_start: Option<Instant>,
    ai_processing: bool,
    saved_textarea_content: Option<Vec<String>>,
    pending_task: Option<String>,
    outbox: Vec<Effect>,
}

impl View for ChatWidget {
    type V = ChatModel;

    closed spec fn view(&self) -> ChatModel {
        ChatModel {
            text: area_lines(self.textarea),
            popup: match self.command_popup {
                Some(popup) => Some(popup@),
                None => None,
            },
            active_command: self.active_command,
            fullscreen_mode: self.fullscreen_mode,
            mouse_capture_active: self.mouse_capture_active,
            ai_processing: self.ai_processing,
            ai_working: self.ai_working_start.is_some(),
            saved_text: match self.saved_textarea_content {
                Some(lines) => Some(texts_of(lines@)),
                None => None,
            },
            pending_task: match self.pending_task {
                Some(task) => Some(task@),
                None => None,
            },
            history: self.chat_history_state@,
            outbox: self.outbox@,
        }
    }
}

impl ChatWidget {
    /// The model of a widget that was just made.
    pub open spec fn new_model() -> ChatModel {
        ChatModel {
            text: empty_text(),
            popup: None,
            active_command: None,
            fullscreen_mode: false,
            mouse_capture_active: true,
            ai_processing: false,
            ai_working: false,
            saved_text: None,
            pending_task: None,
            history: HistoryModel::empty(),
            outbox: Seq::empty(),
        }
    }

    /// A widget with an empty input and an empty transcript.
    pub fn new() -> (widget: ChatWidget)
        ensures
            widget@ == ChatWidget::new_model(),
            widget.inv(),
    {
        ChatWidget {
            textarea: new_area(),
            chat_history_state: ChatHistoryState::new(),
            mouse_capture_active: true,
            command_popup: None,
            active_command: None,
            fullscreen_mode: false,
            ai_working_start: None,
            ai_processing: false,
            saved_textarea_content: None,
            pending_task: None,
            outbox: Vec::new(),
        }
    }

    /// The placeholder text for the input area.
    pub fn placeholder(&self) -> (text: &'static str)
        ensures
            text@ == self@.placeholder_text(),
    {
        if self.ai_processing {
            PLACEHOLDER_TEXT_AI_PROCESSING
        } else {
            match self.active_command {
                Some(SlashCommand::AskAI) => PLACEHOLDER_TEXT_ASK_AI,
                _ => PLACEHOLDER_TEXT,
            }
        }
    }

    /// The tone in which border and placeholder are painted.
    pub fn tone(&self) -> (tone: InputTone)
        ensures
            tone == self@.tone(),
    {
        if self.ai_processing {
            InputTone::Processing
        } else if self.active_command.is_some() {
            InputTone::Command
        } else {
            InputTone::Idle
        }
    }

    /// The title of the input's border: the help text with the state of
    /// mouse capture, or what the widget waits for.
    pub fn border(&self) -> (title: String)
        ensures
            title@ == self@.border_title(),
    {
        let mouse_status = if self.mouse_capture_active {
            MOUSE_STATUS_ON
        } else {
            MOUSE_STATUS_OFF
        };
        let fullscreen_indicator = if self.fullscreen_mode {
            FULLSCREEN_INDICATOR
        } else {
            ""
        };
        proof {
            reveal_strlit("");
            assert(""@ =~= Seq::<char>::empty());
        }
        let title = fullscreen_indicator.to_owned();
        if self.ai_processing {
            title.concat(CHAT_TITLE_AI_PROCESSING)
        } else {
            match self.active_command {
                Some(SlashCommand::AskAI) => title.concat(CHAT_TITLE_ASK_AI_MODE),
                _ => title.concat(CHAT_TITLE_NORMAL).concat(" ").concat(mouse_status),
            }
        }
    }

    /// Puts an event in the outbox.
    fn dispatch_event(&mut self, event: AppEvent)
        ensures
            final(self)@ == old(self)@.with_effect(Effect::Send(event)),
    {
        self.outbox.push(Effect::Send(event));
    }

    /// Asks for a frame.
    fn request_redraw(&mut self)
        ensures
            final(self)@ == old(self)@.with_redraw(),
    {
        self.outbox.push(Effect::Send(AppEvent::Redraw));
    }

    /// Empties the outbox and returns what it held, oldest first.
    pub fn take_events(&mut self) -> (effects: Vec<Effect>)
        ensures
            effects@ == old(self)@.outbox,
            final(self)@ == (ChatModel { outbox: Seq::empty(), ..old(self)@ }),
            old(self).inv() ==> final(self).inv(),
    {
        let mut effects: Vec<Effect> = Vec::new();
        std::mem::swap(&mut effects, &mut self.outbox);
        effects
    }

    /// Takes the task that is pending, leaving none.
    pub fn take_pending_task(&mut self) -> (task: Option<String>)
        ensures
            match task {
                Some(task) => old(self)@.pending_task == Some(task@),
                None => old(self)@.pending_task.is_none(),
            },
            final(self)@ == (ChatModel { pending_task: None, ..old(self)@ }),
            old(self).inv() ==> final(self).inv(),
    {
        let mut task: Option<String> = None;
        std::mem::swap(&mut task, &mut self.pending_task);
        task
    }

    /// Sets the mouse capture state that the titles show.
    pub fn set_mouse_capture_active(&mut self, is_active: bool)
        ensures
            final(self)@ == (ChatModel {
                mouse_capture_active: is_active,
                history: HistoryModel {
                    mouse_capture_active: is_active,
                    ..old(self)@.history
                },
                ..old(self)@
            }),
            old(self).inv() ==> final(self).inv(),
    {
        self.mouse_capture_active = is_active;
        self.chat_history_state.set_mouse_capture_active(is_active);
    }

    /// Sets the fullscreen mode that the title shows.
    pub fn set_fullscreen_mode(&mut self, is_fullscreen: bool)
        ensures
            final(self)@ == (ChatModel { fullscreen_mode: is_fullscreen, ..old(self)@ }),
            old(self).inv() ==> final(self).inv(),
    {
        self.fullscreen_mode = is_fullscreen;
    }

    /// Scrolls the transcript by one burst of wheel ticks and asks for a
    /// frame. A burst of one row scrolls by one row; any other burst
    /// scrolls by twice its rows.
    pub fn handle_scroll_event(&mut self, scroll_delta: i32)
        ensures
            final(self)@ == (ChatModel {
                history: old(self)@.history.scrolled(magnified(scroll_delta) as int),
                ..old(self)@
            }).with_redraw(),
            old(self).inv() ==> final(self).inv(),
    {
        let magnified_delta = if scroll_delta == 1 || scroll_delta == -1 {
            scroll_delta
        } else if scroll_delta > i32::MAX / 2 {
            i32::MAX
        } else if scroll_delta < i32::MIN / 2 {
            i32::MIN
        } else {
            scroll_delta * 2
        };
        let chat_history = ChatHistory::new();
        chat_history.scroll(magnified_delta, &mut self.chat_history_state);
        self.request_redraw();
    }

    /// The transcript.
    pub fn history(&self) -> (history: &ChatHistoryState)
        ensures
            history@ == self@.history,
    {
        &self.chat_history_state
    }

    /// The input buffer.
    pub fn input_area(&self) -> (area: &InputArea)
        ensures
            area_lines(*area) == self@.text,
    {
        &self.textarea
    }

    /// The command palette, if it is open.
    pub fn command_popup(&self) -> (popup: &Option<CommandPopup>)
        ensures
            match *popup {
                Some(open) => self@.popup == Some(open@),
                None => self@.popup.is_none(),
            },
    {
        &self.command_popup
    }

    /// The command that waits for its prompt, if any.
    pub fn active_command(&self) -> (command: Option<SlashCommand>)
        ensures
            command == self@.active_command,
    {
        self.active_command
    }

    /// Tells whether a task runs.
    pub fn is_processing(&self) -> (processing: bool)
        ensures
            processing == self@.ai_processing,
    {
        self.ai_processing
    }

    /// Tells whether the widget is in fullscreen mode.
    pub fn is_fullscreen(&self) -> (fullscreen: bool)
        ensures
            fullscreen == self@.fullscreen_mode,
    {
        self.fullscreen_mode
    }

    /// Lays out one frame of the transcript in `inner`.
    pub fn render_history(&mut self, inner: Rect) -> (frame: HistoryFrame)
        requires
            inner.fits(),
        ensures
            final(self)@ == (ChatModel {
                history: old(self)@.history.rendered(inner),
                ..old(self)@
            }),
            old(self)@.history.is_shown_by(inner, frame),
            old(self).inv() ==> final(self).inv(),
    {
        proof {
            lemma_kinds_stay(self@.history, inner, 0);
        }
        let chat_history = ChatHistory::new();
        chat_history.render(inner, &mut self.chat_history_state)
    }
}


/// The text of the message that a finished task leaves in the transcript:
/// the agent's answer, or an apology if there is none.
pub open spec fn answer_text(outcome: Result<String, String>) -> Seq<char> {
    match outcome {
        Ok(answer) => answer@,
        Err(_) => AI_ERROR_RESPONSE@,
    }
}

impl ChatModel {
    /// The model after the elapsed time of the working animation was set.
    pub open spec fn animated(self, elapsed_ms: u64) -> ChatModel {
        if self.ai_working {
            ChatModel { history: self.history.with_elapsed(elapsed_ms), ..self }
        } else {
            self
        }
    }

    /// The model after an event of the task was handled, with the input
    /// text that the buffer then holds.
    ///
    /// The start of a task shows the working indicator, marks the widget
    /// as processing, sets a non-empty input aside, asks for a frame and
    /// for the task to be handed to the agent. While a task runs, the
    /// start of another changes nothing. The end of a task takes the
    /// indicator away, ends processing whatever the outcome, and shows
    /// one message of the agent.
    pub open spec fn after_core_event(self, event: AppEvent, text_after: Seq<Seq<char>>) -> ChatModel {
        match event {
            AppEvent::TaskStarted => if self.ai_processing {
                self
            } else {
                ChatModel {
                    history: self.history.without_indicator().appended(
                        BlockModel::AiWorking { elapsed_ms: 0 },
                    ),
                    ai_working: true,
                    ai_processing: true,
                    saved_text: if self.text == empty_text() {
                        self.saved_text
                    } else {
                        Some(self.text)
                    },
                    text: text_after,
                    ..self
                }.with_redraw().with_effect(Effect::SubmitTask)
            },
            AppEvent::TaskCompleted(outcome) => ChatModel {
                history: self.history.without_indicator().appended(
                    BlockModel::AgentMessage {
                        lines: message_lines(AGENT_MESSAGE_PREFIX@, answer_text(outcome)),
                    },
                ),
                ai_working: false,
                ai_processing: false,
                saved_text: None,
                text: text_after,
                ..self
            }.with_redraw(),
            _ => self,
        }
    }

    /// The input text after an event of the task, where the widget
    /// decides it: the start of a task empties the input, and an event
    /// that restores no input leaves it as it is.
    pub open spec fn core_event_text(self, event: AppEvent) -> Option<Seq<Seq<char>>> {
        match event {
            AppEvent::TaskStarted => if self.ai_processing || self.text == empty_text() {
                Some(self.text)
            } else if within_reach(self.text) {
                Some(empty_text())
            } else {
                None
            },
            AppEvent::TaskCompleted(_) => if self.saved_text.is_none() {
                Some(self.text)
            } else {
                None
            },
            _ => Some(self.text),
        }
    }

    /// The model after an input reached the buffer's own handling, with
    /// the input text that the buffer then holds.
    ///
    /// Escape leaves command mode. Enter without a modifier submits: in
    /// command mode the command with the prompt that follows its
    /// invocation, else the text as a task; blank text is ignored. Any
    /// other key is the buffer's to handle; after it the palette follows
    /// the text, but for control and `n`, which only breaks the line.
    pub open spec fn after_input(self, input: Input, text_after: Seq<Seq<char>>) -> ChatModel {
        if input.key == InputKey::Esc {
            (if self.active_command.is_some() {
                ChatModel { active_command: None, text: text_after, ..self }.with_redraw()
            } else {
                self
            }).with_redraw()
        } else if input.is_plain_enter() {
            let text = joined(self.text);
            (match self.active_command {
                Some(command) => {
                    let prompt = prompt_of(text, command);
                    let base = if !is_blank_text(prompt) {
                        self.executed(command, Some(prompt))
                    } else {
                        self
                    };
                    ChatModel { text: text_after, active_command: None, ..base }
                },
                None => if !is_blank_text(text) {
                    ChatModel { text: text_after, ..self.submitted(text) }
                } else {
                    self
                },
            }).with_redraw()
        } else if input.key == InputKey::Char('n') && input.ctrl {
            ChatModel { text: text_after, ..self }.with_redraw()
        } else {
            ChatModel {
                text: text_after,
                popup: palette_for(self.popup, self.active_command, joined(text_after)),
                ..self
            }.with_redraw()
        }
    }

    /// The input text after an input, where the widget decides it.
    pub open spec fn input_text(self, input: Input) -> Option<Seq<Seq<char>>> {
        if input.key == InputKey::Esc {
            if self.active_command.is_none() {
                Some(self.text)
            } else if within_reach(self.text) {
                Some(empty_text())
            } else {
                None
            }
        } else if input.is_plain_enter() {
            if self.active_command.is_none() && is_blank_text(joined(self.text)) {
                Some(self.text)
            } else if within_reach(self.text) {
                Some(empty_text())
            } else {
                None
            }
        } else {
            None
        }
    }

    /// The model after a key was handled while the palette is open, with
    /// the input text that the buffer then holds.
    ///
    /// Up and Down move the selection. Tab writes the invocation of the
    /// selected command into the input. Enter without a modifier selects:
    /// a command that takes a prompt becomes the active command behind
    /// its invocation, any other command is executed at once and the
    /// input emptied; either way the palette closes. Escape closes the
    /// palette. Any other key is the buffer's, and the palette follows
    /// the text.
    pub open spec fn after_palette_key(self, input: Input, text_after: Seq<Seq<char>>) -> ChatModel
        recommends
            self.popup.is_some(),
    {
        let popup = self.popup->0;
        if input.key == InputKey::Up {
            ChatModel { popup: Some(popup.moved_up()), ..self }.with_redraw()
        } else if input.key == InputKey::Down {
            ChatModel { popup: Some(popup.moved_down()), ..self }.with_redraw()
        } else if input.key == InputKey::Tab {
            match popup.selection() {
                Some(command) => if command.needs_input() {
                    ChatModel {
                        text: text_after,
                        active_command: Some(command),
                        popup: None,
                        ..self
                    }.with_redraw()
                } else {
                    ChatModel {
                        text: text_after,
                        popup: palette_for(self.popup, self.active_command, joined(text_after)),
                        ..self
                    }.with_redraw()
                },
                None => self,
            }
        } else if input.is_plain_enter() {
            match popup.selection() {
                Some(command) => if command.needs_input() {
                    ChatModel {
                        text: text_after,
                        active_command: Some(command),
                        popup: None,
                        ..self
                    }.with_redraw()
                } else {
                    ChatModel {
                        text: text_after,
                        popup: None,
                        ..self.executed(command, None)
                    }.with_redraw()
                },
                None => self.after_input(input, text_after),
            }
        } else if input.key == InputKey::Esc {
            ChatModel { popup: None, ..self }.with_redraw()
        } else {
            ChatModel {
                text: text_after,
                popup: palette_for(self.popup, self.active_command, joined(text_after)),
                ..self
            }.with_redraw()
        }
    }

    /// The input text after a key while the palette is open, where the
    /// widget decides it.
    pub open spec fn palette_key_text(self, input: Input) -> Option<Seq<Seq<char>>>
        recommends
            self.popup.is_some(),
    {
        let popup = self.popup->0;
        if input.key == InputKey::Up || input.key == InputKey::Down {
            Some(self.text)
        } else if input.key == InputKey::Tab {
            match popup.selection() {
                Some(command) => if within_reach(self.text) {
                    Some(seq![invocation(command)])
                } else {
                    None
                },
                None => Some(self.text),
            }
        } else if input.is_plain_enter() {
            match popup.selection() {
                Some(command) => if !within_reach(self.text) {
                    None
                } else if command.needs_input() {
                    Some(seq![invocation(command)])
                } else {
                    Some(empty_text())
                },
                None => self.input_text(input),
            }
        } else if input.key == InputKey::Esc {
            Some(self.text)
        } else {
            None
        }
    }

    /// The model after a key event, with the input text that the buffer
    /// then holds. While a task runs, keys are ignored. While the palette
    /// is open, it takes the keys. While a command waits for its prompt,
    /// every key goes to the input. Else a scroll key scrolls the
    /// transcript, and any other key goes to the input.
    pub open spec fn after_key(self, event: KeyEvent, text_after: Seq<Seq<char>>) -> ChatModel {
        if self.ai_processing {
            self
        } else if self.popup.is_some() {
            self.after_palette_key(input_of(event), text_after)
        } else if self.active_command.is_none() && is_scroll_key(event.code) {
            ChatModel { history: self.history.after_key(event.code), ..self }.with_redraw()
        } else {
            self.after_input(input_of(event), text_after)
        }
    }

    /// The input text after a key event, where the widget decides it.
    pub open spec fn key_text(self, event: KeyEvent) -> Option<Seq<Seq<char>>> {
        if self.ai_processing {
            Some(self.text)
        } else if self.popup.is_some() {
            self.palette_key_text(input_of(event))
        } else if self.active_command.is_none() && is_scroll_key(event.code) {
            Some(self.text)
        } else {
            self.input_text(input_of(event))
        }
    }
}

/// The invocation of a command holds no line feed and ends with a space.
pub proof fn lemma_invocation_is_one_line(command: SlashCommand)
    ensures
        super::input_area::is_single_line(invocation(command)),
        super::text_block::without_carriage_return(invocation(command)) == invocation(command),
{
    reveal_strlit("/");
    reveal_strlit(" ");
    reveal_strlit("clear");
    reveal_strlit("ask-ai");
    reveal_strlit("fullscreen");
    let text = invocation(command);
    let name = command.command_text();
    assert(text.len() == name.len() + 2);
    assert(text.last() == ' ');
    assert forall|i: int| 0 <= i < text.len() implies text[i] != '\n' by {
        if i == 0 {
            assert(text[0] == '/');
        } else if i <= name.len() {
            assert(text[i] == name[i - 1]);
        } else {
            assert(text[i] == ' ');
        }
    }
}

/// Tells whether an input text opens the palette.
pub fn opens_command_palette(text: &str) -> (opens: bool)
    ensures
        opens == opens_palette(text@),
{
    crate::text::starts_with(text, COMMAND_PREFIX) && !contains_char(text, ' ')
}

/// The prompt in a text that was entered while `command` was active.
pub fn command_prompt(text: String, command: SlashCommand) -> (prompt: String)
    ensures
        prompt@ == prompt_of(text@, command),
{
    let head = COMMAND_PREFIX.to_owned().concat(command.command()).concat(" ");
    match strip_prefix(text.as_str(), head.as_str()) {
        Some(rest) => rest,
        None => text,
    }
}

/// Once the invocation of a command stands in the input, the palette is
/// closed: the invocation ends with a space.
pub proof fn lemma_invocation_closes_palette(popup: Option<PopupModel>, command: SlashCommand)
    ensures
        palette_for(popup, None, joined(seq![invocation(command)])).is_none(),
{
    reveal_strlit(" ");
    let text = invocation(command);
    assert(joined(seq![text]) == text);
    assert(text.last() == ' ');
    assert(text[text.len() - 1] == ' ');
    assert(text.contains(' '));
}

impl ChatModel {
    /// What every operation of the widget keeps. The working animation
    /// runs exactly while a task runs. While a task runs, the transcript
    /// shows one working indicator, as its last entry; while none runs, it
    /// shows no indicator.
    pub open spec fn inv(self) -> bool {
        &&& self.ai_working == self.ai_processing
        &&& if self.ai_processing {
            self.history.ends_with_indicator()
        } else {
            indicator_free(self.history.entries)
        }
    }
}

/// A command that is executed while no task runs leaves the widget well
/// formed.
pub proof fn lemma_executed_keeps_inv(
    model: ChatModel,
    command: SlashCommand,
    prompt: Option<Seq<char>>,
)
    requires
        model.inv(),
        !model.ai_processing,
    ensures
        model.executed(command, prompt).inv(),
        !model.executed(command, prompt).ai_processing,
{
    if let Some(text) = prompt {
        lemma_appended_indicators(
            model.history,
            BlockModel::UserMessage { lines: message_lines(USER_MESSAGE_PREFIX@, text) },
        );
    }
}

/// An input that reaches the buffer while no task runs leaves the widget
/// well formed.
pub proof fn lemma_input_keeps_inv(model: ChatModel, input: Input, text_after: Seq<Seq<char>>)
    requires
        model.inv(),
        !model.ai_processing,
    ensures
        model.after_input(input, text_after).inv(),
{
    let text = joined(model.text);
    lemma_appended_indicators(
        model.history,
        BlockModel::UserMessage { lines: message_lines(USER_MESSAGE_PREFIX@, text) },
    );
    if let Some(command) = model.active_command {
        lemma_executed_keeps_inv(model, command, Some(prompt_of(text, command)));
    }
}

/// A key event leaves the widget well formed, whatever the buffer makes
/// of it.
pub proof fn lemma_key_keeps_inv(model: ChatModel, event: KeyEvent)
    requires
        model.inv(),
    ensures
        forall|text_after: Seq<Seq<char>>| (#[trigger] model.after_key(event, text_after)).inv(),
{
    assert forall|text_after: Seq<Seq<char>>| (#[trigger] model.after_key(
        event,
        text_after,
    )).inv() by {
        if !model.ai_processing {
            let input = input_of(event);
            lemma_input_keeps_inv(model, input, text_after);
            if let Some(popup) = model.popup {
                if let Some(command) = popup.selection() {
                    lemma_executed_keeps_inv(model, command, None);
                }
            }
        }
    }
}

/// The start and the end of a task leave the widget well formed, whatever
/// input the buffer then holds.
pub proof fn lemma_core_event_keeps_inv(model: ChatModel, event: AppEvent)
    requires
        model.inv(),
    ensures
        forall|text_after: Seq<Seq<char>>|
            (#[trigger] model.after_core_event(event, text_after)).inv(),
{
    lemma_without_indicator(model.history);
    lemma_appended_indicators(
        model.history.without_indicator(),
        BlockModel::AiWorking { elapsed_ms: 0 },
    );
    if let AppEvent::TaskCompleted(outcome) = event {
        lemma_appended_indicators(
            model.history.without_indicator(),
            BlockModel::AgentMessage {
                lines: message_lines(AGENT_MESSAGE_PREFIX@, answer_text(outcome)),
            },
        );
    }
}

/// The start of a task shows exactly one working indicator. Take any
/// well-formed widget and any input text afterwards. After the start of a
/// task the widget is processing, and its transcript shows one working
/// indicator, as its last entry: the new one if no task ran, and the one
/// of the running task, with the transcript unchanged, if one did.
pub proof fn lemma_task_start_shows_one_indicator(model: ChatModel, text_after: Seq<Seq<char>>)
    requires
        model.inv(),
    ensures
        ({
            let after = model.after_core_event(AppEvent::TaskStarted, text_after);
            &&& after.ai_processing
            &&& after.ai_working
            &&& after.history.ends_with_indicator()
            &&& model.ai_processing ==> after == model
            &&& !model.ai_processing ==> after.history.entries.drop_last()
                == model.history.entries && after.history.entries.last().block
                == (BlockModel::AiWorking { elapsed_ms: 0 }) && after.outbox
                == model.outbox.push(Effect::Send(AppEvent::Redraw)).push(Effect::SubmitTask)
        }),
{
    lemma_core_event_keeps_inv(model, AppEvent::TaskStarted);
    lemma_without_indicator(model.history);
    lemma_appended_indicators(
        model.history.without_indicator(),
        BlockModel::AiWorking { elapsed_ms: 0 },
    );
}

/// The end of a task clears processing and shows one message. Take any
/// well-formed widget, any outcome and any input text afterwards. After
/// the end of the task the widget is not processing, whatever the
/// outcome, and its transcript shows no indicator. It holds the entries
/// that were no indicator, in their order, and behind them exactly one
/// new entry: a message of the agent, which for a failure is the apology.
pub proof fn lemma_task_end_shows_one_message(
    model: ChatModel,
    outcome: Result<String, String>,
    text_after: Seq<Seq<char>>,
)
    requires
        model.inv(),
    ensures
        ({
            let after = model.after_core_event(AppEvent::TaskCompleted(outcome), text_after);
            let before = if model.ai_processing {
                model.history.entries.drop_last()
            } else {
                model.history.entries
            };
            &&& !after.ai_processing
            &&& !after.ai_working
            &&& indicator_free(after.history.entries)
            &&& after.history.entries.len() == before.len() + 1
            &&& after.history.entries.drop_last() == before
            &&& after.history.entries.last().block == (BlockModel::AgentMessage {
                lines: message_lines(AGENT_MESSAGE_PREFIX@, answer_text(outcome)),
            })
            &&& outcome is Err ==> answer_text(outcome) == AI_ERROR_RESPONSE@
            &&& after.outbox == model.outbox.push(Effect::Send(AppEvent::Redraw))
        }),
{
    lemma_core_event_keeps_inv(model, AppEvent::TaskCompleted(outcome));
    lemma_without_indicator(model.history);
    lemma_appended_indicators(
        model.history.without_indicator(),
        BlockModel::AgentMessage {
            lines: message_lines(AGENT_MESSAGE_PREFIX@, answer_text(outcome)),
        },
    );
}

/// Enter submits the input as a task. Take a widget in which no task
/// runs, no command is active and the palette is closed, and a key event
/// of Enter without a modifier. If the input is not blank, the transcript
/// grows by exactly one message of the user, built from the input's lines
/// joined; the text is kept as the pending task; the start of one task is
/// announced, and then a frame is asked for; and the input is emptied,
/// provided that selecting it all reaches its end. If the input is blank,
/// nothing is appended or announced: only a frame is asked for, and the
/// input stays.
pub proof fn lemma_enter_submits_task(model: ChatModel, event: KeyEvent, text_after: Seq<Seq<char>>)
    requires
        !model.ai_processing,
        model.active_command.is_none(),
        model.popup.is_none(),
        input_of(event).is_plain_enter(),
    ensures
        ({
            let text = joined(model.text);
            let after = model.after_key(event, text_after);
            &&& !is_blank_text(text) ==> after == (ChatModel {
                text: text_after,
                history: model.history.appended(
                    BlockModel::UserMessage { lines: message_lines(USER_MESSAGE_PREFIX@, text) },
                ),
                pending_task: Some(text),
                outbox: model.outbox.push(Effect::Send(AppEvent::TaskStarted)).push(
                    Effect::Send(AppEvent::Redraw),
                ),
                ..model
            }) && after.history.entries.len() == model.history.entries.len() + 1
                && after.history.entries.drop_last() == model.history.entries && (within_reach(
                model.text,
            ) ==> model.key_text(event) == Some(empty_text()))
            &&& is_blank_text(text) ==> after == model.with_redraw() && model.key_text(event)
                == Some(model.text)
        }),
{
    let text = joined(model.text);
    assert(!is_scroll_key(event.code));
    assert(model.history.appended(
        BlockModel::UserMessage { lines: message_lines(USER_MESSAGE_PREFIX@, text) },
    ).entries.drop_last() =~= model.history.entries);
}

impl ChatWidget {
    /// The widget is well formed.
    pub open spec fn inv(&self) -> bool {
        self@.inv()
    }

    /// Empties the input.
    fn clear_text_area(&mut self)
        ensures
            final(self)@ == (ChatModel { text: final(self)@.text, ..old(self)@ }),
            within_reach(old(self)@.text) ==> final(self)@.text == empty_text(),
    {
        area_select_all(&mut self.textarea);
        area_cut(&mut self.textarea);
    }

    /// Replaces the input by the invocation of a command.
    fn write_invocation(&mut self, command: SlashCommand)
        ensures
            final(self)@ == (ChatModel { text: final(self)@.text, ..old(self)@ }),
            within_reach(old(self)@.text) ==> final(self)@.text == seq![invocation(command)],
    {
        area_select_all(&mut self.textarea);
        area_cut(&mut self.textarea);
        let text = COMMAND_PREFIX.to_owned().concat(command.command()).concat(" ");
        proof {
            lemma_invocation_is_one_line(command);
        }
        area_insert_str(&mut self.textarea, text.as_str());
    }

    /// Shows a message of the user in the transcript.
    fn add_user_message(&mut self, message: String)
        ensures
            final(self)@ == (ChatModel {
                history: old(self)@.history.appended(
                    BlockModel::UserMessage {
                        lines: message_lines(USER_MESSAGE_PREFIX@, message@),
                    },
                ),
                ..old(self)@
            }),
    {
        self.chat_history_state.add_user_message(message);
    }

    /// Shows a message of the agent in the transcript.
    fn add_agent_message(&mut self, message: String)
        ensures
            final(self)@ == (ChatModel {
                history: old(self)@.history.appended(
                    BlockModel::AgentMessage {
                        lines: message_lines(AGENT_MESSAGE_PREFIX@, message@),
                    },
                ),
                ..old(self)@
            }),
    {
        self.chat_history_state.add_agent_message(message);
    }

    /// Shows the working indicator in the transcript.
    fn add_ai_working(&mut self)
        ensures
            final(self)@ == (ChatModel {
                history: old(self)@.history.without_indicator().appended(
                    BlockModel::AiWorking { elapsed_ms: 0 },
                ),
                ..old(self)@
            }),
    {
        self.chat_history_state.add_ai_working();
    }

    /// Takes the working indicator out of the transcript.
    fn remove_ai_working(&mut self)
        ensures
            final(self)@ == (ChatModel {
                history: old(self)@.history.without_indicator(),
                ..old(self)@
            }),
    {
        self.chat_history_state.remove_ai_working();
    }

    /// Shows `text` as a message of the user, keeps it as the pending
    /// task and announces the start of the task.
    fn submit(&mut self, text: String)
        ensures
            final(self)@ == old(self)@.submitted(text@),
    {
        let task = text.clone();
        self.add_user_message(text);
        self.pending_task = Some(task);
        self.dispatch_event(AppEvent::TaskStarted);
    }

    /// Executes a command, with its prompt if it takes one.
    fn execute_slash_command(&mut self, command: SlashCommand, prompt: Option<String>)
        ensures
            final(self)@ == old(self)@.executed(
                command,
                match prompt {
                    Some(prompt) => Some(prompt@),
                    None => None,
                },
            ),
    {
        match command {
            SlashCommand::Clear => {
                self.chat_history_state.clear();
                self.request_redraw();
            },
            SlashCommand::AskAI => {
                if let Some(prompt) = prompt {
                    self.submit(prompt);
                }
            },
            SlashCommand::Fullscreen => {
                self.dispatch_event(AppEvent::ToggleFullscreen);
                self.fullscreen_mode = !self.fullscreen_mode;
                self.request_redraw();
            },
        }
    }

    /// Opens, filters or closes the palette as the input text asks.
    fn update_command_popup(&mut self)
        ensures
            final(self)@ == (ChatModel {
                popup: palette_for(
                    old(self)@.popup,
                    old(self)@.active_command,
                    joined(old(self)@.text),
                ),
                ..old(self)@
            }),
    {
        // Don't show the palette while a command is active.
        if self.active_command.is_some() {
            return ;
        }
        let lines = lines_of_area(&self.textarea);
        let text = join_lines(&lines);
        if opens_command_palette(text.as_str()) {
            let mut popup = match self.command_popup.take() {
                Some(open) => open,
                None => CommandPopup::new(),
            };
            popup.update_filter(text.as_str());
            // Hide the palette if no commands match.
            if popup.has_commands() {
                self.command_popup = Some(popup);
            } else {
                self.command_popup = None;
            }
        } else {
            self.command_popup = None;
        }
    }

    /// Handles the start and the end of a task.
    pub fn handle_core_event(&mut self, event: AppEvent)
        ensures
            final(self)@ == old(self)@.after_core_event(event, final(self)@.text),
            old(self)@.core_event_text(event) matches Some(text) ==> final(self)@.text == text,
            old(self).inv() ==> final(self).inv(),
    {
        proof {
            if self.inv() {
                lemma_core_event_keeps_inv(self@, event);
            }
        }
        match event {
            AppEvent::TaskStarted => {
                // A new task is not started while one is outstanding.
                if self.ai_processing {
                    return ;
                }
                self.add_ai_working();
                self.ai_working_start = Some(instant_now());
                self.ai_processing = true;
                // Set the current input aside and empty the buffer.
                if !area_is_empty(&self.textarea) {
                    self.saved_textarea_content = Some(lines_of_area(&self.textarea));
                    self.clear_text_area();
                }
                self.request_redraw();
                self.outbox.push(Effect::SubmitTask);
            },
            AppEvent::TaskCompleted(outcome) => {
                self.remove_ai_working();
                self.ai_working_start = None;
                self.ai_processing = false;
                // Restore the input that was set aside.
                let saved = self.saved_textarea_content.take();
                let ghost emptied = self@;
                if let Some(content) = saved {
                    let mut i: usize = 0;
                    while i < content.len()
                        invariant
                            i <= content@.len(),
                            self@ == (ChatModel { text: self@.text, ..emptied }),
                        decreases content@.len() - i,
                    {
                        area_insert_str(&mut self.textarea, content[i].as_str());
                        area_insert_newline(&mut self.textarea);
                        i += 1;
                    }
                    // Remove the extra line break at the end.
                    if !area_is_empty(&self.textarea) {
                        area_delete_char(&mut self.textarea);
                    }
                }
                let message = match outcome {
                    Ok(answer) => answer,
                    Err(_) => AI_ERROR_RESPONSE.to_owned(),
                };
                self.add_agent_message(message);
                self.request_redraw();
            },
            _ => {},
        }
    }

    /// Sets the elapsed time of the working animation to `elapsed_ms`, if
    /// the animation runs. Returns true if a frame is due.
    pub fn advance_ai_working(&mut self, elapsed_ms: u64) -> (redraw: bool)
        ensures
            redraw == old(self)@.ai_working,
            final(self)@ == old(self)@.animated(elapsed_ms),
            old(self).inv() ==> final(self).inv(),
    {
        proof {
            lemma_kinds_stay(self@.history, Rect { x: 0, y: 0, width: 0, height: 0 }, elapsed_ms);
        }
        if self.ai_working_start.is_some() {
            self.chat_history_state.update_ai_working(elapsed_ms);
            true
        } else {
            false
        }
    }

    /// Advances the working animation to the time that has passed since
    /// the task started. Returns true if a frame is due.
    pub fn update_ai_working_animation(&mut self) -> (redraw: bool)
        ensures
            redraw == old(self)@.ai_working,
            exists|elapsed_ms: u64| final(self)@ == #[trigger] old(self)@.animated(elapsed_ms),
            old(self).inv() ==> final(self).inv(),
    {
        let elapsed_ms = self.working_elapsed_ms();
        self.advance_ai_working(elapsed_ms)
    }

    /// The time since the task started, in milliseconds; 0 if none runs.
    pub fn working_elapsed_ms(&self) -> (elapsed_ms: u64)
        ensures
            !self@.ai_working ==> elapsed_ms == 0,
    {
        match &self.ai_working_start {
            Some(start) => {
                let elapsed = instant_elapsed(start);
                #[verifier::truncate]
                (duration_millis(&elapsed) as u64)
            },
            None => 0,
        }
    }

    /// Handles a key event: the palette takes it if it is open, then the
    /// transcript if it scrolls, then the input.
    pub fn handle_key_event(&mut self, key_event: KeyEvent)
        ensures
            final(self)@ == old(self)@.after_key(key_event, final(self)@.text),
            old(self)@.key_text(key_event) matches Some(text) ==> final(self)@.text == text,
            old(self).inv() ==> final(self).inv(),
    {
        proof {
            if self.inv() {
                lemma_key_keeps_inv(self@, key_event);
            }
        }
        // Input is not taken while a task runs.
        if self.ai_processing {
            return ;
        }
        if self.command_popup.is_some() {
            self.handle_command_popup_key_event(key_event);
            return ;
        }
        // In command mode every keystroke is text for the prompt.
        if self.active_command.is_none() {
            let chat_history = ChatHistory::new();
            if chat_history.handle_key_event(key_event, &mut self.chat_history_state) {
                self.request_redraw();
                return ;
            }
        }
        let input = Input::from_key_event(key_event);
        self.handle_textarea_input(input);
    }

    /// Handles a key event while the palette is open.
    fn handle_command_popup_key_event(&mut self, key_event: KeyEvent)
        requires
            old(self)@.popup.is_some(),
        ensures
            final(self)@ == old(self)@.after_palette_key(input_of(key_event), final(self)@.text),
            old(self)@.palette_key_text(input_of(key_event)) matches Some(text)
                ==> final(self)@.text == text,
    {
        let input = Input::from_key_event(key_event);
        let selected = match &self.command_popup {
            Some(popup) => popup.selected_command(),
            None => None,
        };
        match input.key {
            // Up/Down: move the selection.
            InputKey::Up => {
                let mut popup = self.command_popup.take().unwrap();
                popup.select_previous();
                self.command_popup = Some(popup);
                self.request_redraw();
            },
            InputKey::Down => {
                let mut popup = self.command_popup.take().unwrap();
                popup.select_next();
                self.command_popup = Some(popup);
                self.request_redraw();
            },
            // Tab: complete the selected command.
            InputKey::Tab => {
                if let Some(command) = selected {
                    self.write_invocation(command);
                    if command.requires_input() {
                        // Enter command mode.
                        self.active_command = Some(command);
                        self.command_popup = None;
                    } else {
                        self.update_command_popup();
                    }
                    self.request_redraw();
                }
            },
            InputKey::Enter => {
                if input.shift || input.alt || input.ctrl {
                    self.pass_to_input(input);
                } else if let Some(command) = selected {
                    if command.requires_input() {
                        // Start command mode: the user will type the prompt.
                        self.active_command = Some(command);
                        self.write_invocation(command);
                        self.command_popup = None;
                        self.request_redraw();
                    } else {
                        // Execute at once.
                        self.execute_slash_command(command, None);
                        self.clear_text_area();
                        self.command_popup = None;
                        self.request_redraw();
                    }
                } else {
                    self.handle_textarea_input(input);
                }
            },
            // Escape: close the palette.
            InputKey::Esc => {
                self.command_popup = None;
                self.request_redraw();
            },
            // Other keys: pass to the input and update the palette.
            _ => {
                self.pass_to_input(input);
            },
        }
    }

    /// Hands an input to the buffer, lets the palette follow the text and
    /// asks for a frame.
    fn pass_to_input(&mut self, input: Input)
        ensures
            final(self)@ == (ChatModel {
                text: final(self)@.text,
                popup: palette_for(
                    old(self)@.popup,
                    old(self)@.active_command,
                    joined(final(self)@.text),
                ),
                ..old(self)@
            }).with_redraw(),
    {
        area_input(&mut self.textarea, input);
        self.update_command_popup();
        self.request_redraw();
    }

    /// Handles an input that is meant for the buffer.
    fn handle_textarea_input(&mut self, input: Input)
        ensures
            final(self)@ == old(self)@.after_input(input, final(self)@.text),
            old(self)@.input_text(input) matches Some(text) ==> final(self)@.text == text,
    {
        match input.key {
            // Escape: cancel command mode if active.
            InputKey::Esc => {
                if self.active_command.is_some() {
                    self.active_command = None;
                    self.clear_text_area();
                    self.request_redraw();
                }
                self.request_redraw();
            },
            InputKey::Enter => {
                if input.shift || input.alt || input.ctrl {
                    self.pass_to_input(input);
                    return ;
                }
                // Enter without modifiers: send the message.
                let lines = lines_of_area(&self.textarea);
                let text = join_lines(&lines);
                        if let Some(command) = self.active_command {
                    // Take the prompt behind the command.
                    let prompt = command_prompt(text, command);
                    if !is_blank(prompt.as_str()) {
                        self.execute_slash_command(command, Some(prompt));
                    }
                    self.clear_text_area();
                    self.active_command = None;
                } else if !is_blank(text.as_str()) {
                    // Default: send the message to the agent.
                    self.submit(text);
                    self.clear_text_area();
                }
                self.request_redraw();
            },
            InputKey::Char(c) => {
                if c == 'n' && input.ctrl {
                    // Ctrl+N: insert a line break.
                    area_insert_newline(&mut self.textarea);
                    self.request_redraw();
                } else {
                    self.pass_to_input(input);
                }
            },
            // All other inputs: pass through to the buffer.
            _ => {
                self.pass_to_input(input);
            },
        }
    }

    /// The rows of the input area: the lines of the input and the border,
    /// at least three.
    pub fn input_height(&self) -> (rows: u16)
        ensures
            rows == input_rows(self@.text.len()),
    {
        let lines = lines_of_area(&self.textarea);
        assert(texts_of(lines@).len() == lines@.len());
        let count = lines.len();
        if count <= 1 {
            3
        } else if count >= 65533 {
            u16::MAX
        } else {
            (count + 2) as u16
        }
    }

    /// The rows of the palette, or 0 if it is closed.
    pub fn popup_height(&self) -> (rows: u16)
        ensures
            rows == match self@.popup {
                Some(popup) => popup.height(),
                None => 0,
            },
    {
        match &self.command_popup {
            Some(popup) => popup.calculate_height(),
            None => 0,
        }
    }
}

/// The rows of an input area of `line_count` lines.
pub open spec fn input_rows(line_count: nat) -> u16 {
    if line_count <= 1 {
        3
    } else if line_count >= 65533 {
        u16::MAX
    } else {
        (line_count + 2) as u16
    }
}

} // verus!
