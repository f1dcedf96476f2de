//! The main loop's decisions: what each event does to the shell, and
//! what the program around the library is asked to do in turn.
//!
//! The loop itself waits, paints and talks to the terminal, which the
//! library does not. It hands each event to `App::handle_event` and each
//! tick to `App::tick`, and carries out the effects that come back.

use crate::event::{AppEvent, Effect, KeyCode, KeyEvent, KeyEventKind, KeyModifiers};
use crate::utils::scroll_event_helper::{ScrollAccumulator, ScrollEventHelper};
use crate::widgets::chat::{ChatModel, ChatWidget, ChatWidgetState};
use crate::widgets::constants::ERROR_TOGGLE_MOUSE_MODE;
use crate::widgets::toaster::{fresh_at, with_toast, Toast, ToastKind, ToasterState};
use vstd::prelude::*;
use vstd::std_specs::iter::IteratorSpec;

verus! {

/// How long the input pump waits for an event of the terminal before it
/// looks at the shutdown flag again, in milliseconds.
pub const POLL_TIMEOUT_MS: u64 = 100;

/// The time between two ticks of the main loop, in milliseconds.
pub const TICK_INTERVAL_MS: u64 = 100;

/// An event of the terminal as the input pump reads it.
#[derive(Debug)]
pub enum TerminalEvent {
    Key(KeyEvent),
    Resize,
    ScrollUp,
    ScrollDown,
    Paste(String),
    /// Any event that the shell gives no meaning to.
    Other,
}

/// What the input pump does with an event of the terminal.
#[derive(Debug)]
pub struct PumpOutput {
    /// The events to send, in this order.
    pub events: Vec<AppEvent>,
    /// Whether a debounce timer is to be started.
    pub start_timer: bool,
}

/// The key event that stands for a pasted character. A line break is
/// pasted as Enter with Shift, which breaks the line and submits nothing.
pub open spec fn pasted_key(c: char) -> KeyEvent {
    if c == '\n' || c == '\r' {
        KeyEvent {
            code: KeyCode::Enter,
            modifiers: KeyModifiers { bits: crate::event::MODIFIER_SHIFT },
            kind: KeyEventKind::Press,
        }
    } else {
        KeyEvent {
            code: KeyCode::Char(c),
            modifiers: KeyModifiers { bits: 0 },
            kind: KeyEventKind::Press,
        }
    }
}

/// The events that stand for a pasted text: one key event for each
/// character, in order.
pub open spec fn pasted_events(text: Seq<char>) -> Seq<AppEvent> {
    Seq::new(text.len(), |i: int| AppEvent::KeyInput(pasted_key(text[i])))
}

/// The events that the input pump sends for an event of the terminal. A
/// key goes on as it is, a change of size asks for a frame, and a wheel
/// tick sends nothing: it goes to the coalescer.
pub open spec fn translated(event: TerminalEvent) -> Seq<AppEvent> {
    match event {
        TerminalEvent::Key(key) => seq![AppEvent::KeyInput(key)],
        TerminalEvent::Resize => seq![AppEvent::Redraw],
        TerminalEvent::Paste(text) => pasted_events(text@),
        _ => Seq::empty(),
    }
}

/// The coalescer after the input pump has seen an event of the terminal.
pub open spec fn ticked_by(scroll: ScrollAccumulator, event: TerminalEvent) -> ScrollAccumulator {
    match event {
        TerminalEvent::ScrollUp => scroll.ticked(false),
        TerminalEvent::ScrollDown => scroll.ticked(true),
        _ => scroll,
    }
}

/// The events for a pasted text.
pub fn paste_events(text: &str) -> (events: Vec<AppEvent>)
    ensures
        events@ == pasted_events(text@),
{
    broadcast use vstd::string::group_string_axioms;

    let mut events: Vec<AppEvent> = Vec::new();
    let mut chars = text.chars();
    let ghost mut seen: int = 0;
    loop
        invariant_except_break
            0 <= seen <= text@.len(),
            chars.remaining() == text@.subrange(seen, text@.len() as int),
            events@ == pasted_events(text@.subrange(0, seen)),
        ensures
            events@ == pasted_events(text@),
        decreases text@.len() - seen,
    {
        match chars.next() {
            None => {
                assert(text@.subrange(0, seen) =~= text@);
                break ;
            },
            Some(ch) => {
                assert(ch == text@[seen]);
                let key_event = if ch == '\n' || ch == '\r' {
                    KeyEvent::new(KeyCode::Enter, KeyModifiers::shift())
                } else {
                    KeyEvent::new(KeyCode::Char(ch), KeyModifiers::none())
                };
                events.push(AppEvent::KeyInput(key_event));
                proof {
                    assert(text@.subrange(seen, text@.len() as int).drop_first()
                        =~= text@.subrange(seen + 1, text@.len() as int));
                    assert(events@ =~= pasted_events(text@.subrange(0, seen + 1)));
                    seen = seen + 1;
                }
            },
        }
    }
    events
}

/// Translates an event of the terminal into events of the shell, and
/// hands wheel ticks to the coalescer.
pub fn translate_terminal_event(event: TerminalEvent, scroll: &mut ScrollEventHelper) -> (output:
    PumpOutput)
    ensures
        output.events@ == translated(event),
        final(scroll)@ == ticked_by(old(scroll)@, event),
        output.start_timer == ((event is ScrollUp || event is ScrollDown) && !old(scroll)@.timer_scheduled),
{
    match event {
        TerminalEvent::Key(key_event) => {
            let mut events: Vec<AppEvent> = Vec::new();
            events.push(AppEvent::KeyInput(key_event));
            PumpOutput { events, start_timer: false }
        },
        TerminalEvent::Resize => {
            let mut events: Vec<AppEvent> = Vec::new();
            events.push(AppEvent::Redraw);
            PumpOutput { events, start_timer: false }
        },
        TerminalEvent::ScrollUp => {
            let start_timer = scroll.scroll_up();
            PumpOutput { events: Vec::new(), start_timer }
        },
        TerminalEvent::ScrollDown => {
            let start_timer = scroll.scroll_down();
            PumpOutput { events: Vec::new(), start_timer }
        },
        TerminalEvent::Paste(pasted) => {
            PumpOutput { events: paste_events(pasted.as_str()), start_timer: false }
        },
        TerminalEvent::Other => PumpOutput { events: Vec::new(), start_timer: false },
    }
}

/// The screens of the shell.
pub enum AppState {
    Chat { widget: ChatWidget, state: ChatWidgetState },
}

/// The shell as plain values.
pub struct AppModel {
    pub chat: ChatModel,
    pub fullscreen_mode: bool,
    /// The notifications that are shown.
    pub toasts: Seq<Toast>,
}

/// The key switches mouse capture over: `y` with Control and nothing else.
pub open spec fn is_capture_chord(key: KeyEvent) -> bool {
    (key.code == KeyCode::Char('y') || key.code == KeyCode::Char('Y'))
        && key.modifiers.is_control_only()
}

/// The key asks to leave the shell: `d` with Control and nothing else.
pub open spec fn is_exit_chord(key: KeyEvent) -> bool {
    key.code == KeyCode::Char('d') && key.modifiers.is_control_only()
}

impl AppModel {
    /// What every operation of the shell keeps: the chat widget is well
    /// formed.
    pub open spec fn inv(self) -> bool {
        self.chat.inv()
    }

    /// The model with the chat widget's outbox emptied.
    pub open spec fn drained(self) -> AppModel {
        AppModel { chat: ChatModel { outbox: Seq::empty(), ..self.chat }, ..self }
    }

    /// The model after an event was handled, before the chat widget's
    /// outbox is emptied; `text_after` is the input text that the buffer
    /// then holds, and `toasts_after` are the notifications.
    pub open spec fn after_event(
        self,
        event: AppEvent,
        text_after: Seq<Seq<char>>,
        toasts_after: Seq<Toast>,
    ) -> AppModel {
        match event {
            AppEvent::KeyInput(key) => if is_capture_chord(key) || is_exit_chord(key) {
                self
            } else {
                AppModel { chat: self.chat.after_key(key, text_after), ..self }
            },
            AppEvent::ScrollDelta(delta) => AppModel {
                chat: ChatModel {
                    history: self.chat.history.scrolled(
                        crate::widgets::chat::magnified(delta) as int,
                    ),
                    ..self.chat
                }.with_redraw(),
                ..self
            },
            AppEvent::TaskStarted => AppModel {
                chat: self.chat.after_core_event(event, text_after),
                ..self
            },
            AppEvent::TaskCompleted(_) => AppModel {
                chat: self.chat.after_core_event(event, text_after),
                ..self
            },
            AppEvent::MouseCaptureChanged(is_active) => AppModel {
                chat: ChatModel {
                    mouse_capture_active: is_active,
                    history: crate::widgets::chat_history::HistoryModel {
                        mouse_capture_active: is_active,
                        ..self.chat.history
                    },
                    ..self.chat
                },
                ..self
            },
            AppEvent::ToggleFullscreen => AppModel {
                chat: ChatModel { fullscreen_mode: !self.fullscreen_mode, ..self.chat },
                fullscreen_mode: !self.fullscreen_mode,
                ..self
            },
            AppEvent::ErrorNotice(_) => AppModel { toasts: toasts_after, ..self },
            _ => self,
        }
    }

    /// What the loop is asked to do for an event, after what the chat
    /// widget has asked for.
    pub open spec fn own_effects(event: AppEvent) -> Seq<Effect> {
        match event {
            AppEvent::Redraw => seq![Effect::Render],
            AppEvent::KeyInput(key) => if is_capture_chord(key) {
                seq![Effect::ToggleMouseCapture]
            } else if is_exit_chord(key) {
                seq![Effect::Send(AppEvent::ExitRequest)]
            } else {
                Seq::empty()
            },
            AppEvent::ExitRequest => seq![Effect::Exit],
            AppEvent::MouseCaptureChanged(_) => seq![Effect::Send(AppEvent::Redraw)],
            AppEvent::ToggleFullscreen => seq![Effect::Send(AppEvent::Redraw)],
            AppEvent::ErrorNotice(_) => seq![Effect::Send(AppEvent::Redraw)],
            _ => Seq::empty(),
        }
    }

    /// The notifications after an event: an error notice adds one that
    /// carries its message, and no other event changes them.
    pub open spec fn toasts_follow(self, event: AppEvent, toasts_after: Seq<Toast>) -> bool {
        match event {
            AppEvent::ErrorNotice(message) => exists|toast: Toast|
                #![auto]
                toast.message@ == message@ && toast.kind == ToastKind::Error && toasts_after
                    == with_toast(self.toasts, toast),
            _ => toasts_after == self.toasts,
        }
    }

    /// The model after a tick at `now` on the notifications' clock, with
    /// `elapsed_ms` since the task started.
    pub open spec fn ticked(self, now: u128, elapsed_ms: u64) -> AppModel {
        AppModel { chat: self.chat.animated(elapsed_ms), toasts: fresh_at(self.toasts, now), ..self }
    }

    /// A tick asks for a frame while a notification is shown or the
    /// working animation runs.
    pub open spec fn tick_effects(self, now: u128) -> Seq<Effect> {
        if fresh_at(self.toasts, now).len() > 0 || self.chat.ai_working {
            seq![Effect::Send(AppEvent::Redraw)]
        } else {
            Seq::empty()
        }
    }
}

/// The shell: the chat screen, the notifications over it, and whether the
/// welcome area is hidden.
pub struct App {
    app_state: AppState,
    fullscreen_mode: bool,
    toaster_state: ToasterState,
}

impl View for App {
    type V = AppModel;

    closed spec fn view(&self) -> AppModel {
        AppModel {
            chat: match self.app_state {
                AppState::Chat { widget, state } => widget@,
            },
            fullscreen_mode: self.fullscreen_mode,
            toasts: self.toaster_state@,
        }
    }
}

impl App {
    /// The shell is well formed.
    pub open spec fn inv(&self) -> bool {
        self@.inv()
    }

    /// A shell with an empty chat, mouse capture shown as on, and no
    /// notification.
    pub fn new() -> (app: App)
        ensures
            app@.fullscreen_mode == false,
            app@.toasts == Seq::<Toast>::empty(),
            app@.chat == ChatWidget::new_model(),
            app.inv(),
    {
        let state = ChatWidgetState {  };
        let mut widget = ChatWidget::new();
        // Set the initial mouse capture state.
        widget.set_mouse_capture_active(true);
        App {
            app_state: AppState::Chat { widget, state },
            fullscreen_mode: false,
            toaster_state: ToasterState::new(),
        }
    }

    /// What the loop does first: it asks for a frame.
    pub fn startup(&self) -> (effects: Vec<Effect>)
        ensures
            effects@ == seq![Effect::Send(AppEvent::Redraw)],
    {
        let mut effects: Vec<Effect> = Vec::new();
        effects.push(Effect::Send(AppEvent::Redraw));
        effects
    }

    /// Hands a key event to the screen.
    fn dispatch_key_event(&mut self, key_event: KeyEvent)
        ensures
            final(self)@ == (AppModel {
                chat: old(self)@.chat.after_key(key_event, final(self)@.chat.text),
                ..old(self)@
            }),
            old(self)@.chat.key_text(key_event) matches Some(text) ==> final(self)@.chat.text
                == text,
            old(self).inv() ==> final(self).inv(),
    {
        match &mut self.app_state {
            AppState::Chat { widget, .. } => {
                widget.handle_key_event(key_event);
            },
        }
    }

    /// Hands a burst of wheel ticks to the screen.
    fn dispatch_scroll_event(&mut self, scroll_delta: i32)
        ensures
            final(self)@ == old(self)@.after_event(
                AppEvent::ScrollDelta(scroll_delta),
                old(self)@.chat.text,
                old(self)@.toasts,
            ),
            old(self).inv() ==> final(self).inv(),
    {
        match &mut self.app_state {
            AppState::Chat { widget, .. } => {
                widget.handle_scroll_event(scroll_delta);
            },
        }
    }

    /// Empties the outbox of the screen.
    fn take_widget_events(&mut self) -> (effects: Vec<Effect>)
        ensures
            effects@ == old(self)@.chat.outbox,
            final(self)@ == old(self)@.drained(),
            old(self).inv() ==> final(self).inv(),
    {
        match &mut self.app_state {
            AppState::Chat { widget, .. } => widget.take_events(),
        }
    }

    /// Handles one event of the bus. Returns what the loop is to do: first
    /// what the chat widget asks for, then what the event itself asks for.
    pub fn handle_event(&mut self, event: AppEvent) -> (effects: Vec<Effect>)
        ensures
            final(self)@ == old(self)@.after_event(
                event,
                final(self)@.chat.text,
                final(self)@.toasts,
            ).drained(),
            effects@ == old(self)@.after_event(
                event,
                final(self)@.chat.text,
                final(self)@.toasts,
            ).chat.outbox + AppModel::own_effects(event),
            old(self)@.toasts_follow(event, final(self)@.toasts),
            match event {
                AppEvent::KeyInput(key) => !is_capture_chord(key) && !is_exit_chord(key)
                    ==> (old(self)@.chat.key_text(key) matches Some(text) ==> final(self)@.chat.text == text),
                AppEvent::TaskStarted => old(self)@.chat.core_event_text(event) matches Some(text)
                    ==> final(self)@.chat.text == text,
                AppEvent::TaskCompleted(_) => old(self)@.chat.core_event_text(event) matches Some(
                    text,
                ) ==> final(self)@.chat.text == text,
                _ => final(self)@.chat.text == old(self)@.chat.text,
            },
            old(self).inv() ==> final(self).inv(),
    {
        let own: Option<Effect> = match event {
            AppEvent::Redraw => Some(Effect::Render),
            AppEvent::KeyInput(key_event) => {
                let control_only = key_event.modifiers.bits == crate::event::MODIFIER_CONTROL;
                let capture_chord = control_only && match key_event.code {
                    KeyCode::Char(c) => c == 'y' || c == 'Y',
                    _ => false,
                };
                let exit_chord = control_only && match key_event.code {
                    KeyCode::Char(c) => c == 'd',
                    _ => false,
                };
                if capture_chord {
                    Some(Effect::ToggleMouseCapture)
                } else if exit_chord {
                    Some(Effect::Send(AppEvent::ExitRequest))
                } else {
                    self.dispatch_key_event(key_event);
                    None
                }
            },
            AppEvent::ScrollDelta(scroll_delta) => {
                self.dispatch_scroll_event(scroll_delta);
                None
            },
            AppEvent::TaskStarted => {
                match &mut self.app_state {
                    AppState::Chat { widget, .. } => {
                        widget.handle_core_event(AppEvent::TaskStarted);
                    },
                }
                None
            },
            AppEvent::TaskCompleted(outcome) => {
                match &mut self.app_state {
                    AppState::Chat { widget, .. } => {
                        widget.handle_core_event(AppEvent::TaskCompleted(outcome));
                    },
                }
                None
            },
            AppEvent::ExitRequest => Some(Effect::Exit),
            AppEvent::MouseCaptureChanged(is_active) => {
                match &mut self.app_state {
                    AppState::Chat { widget, .. } => {
                        widget.set_mouse_capture_active(is_active);
                    },
                }
                Some(Effect::Send(AppEvent::Redraw))
            },
            AppEvent::ToggleFullscreen => {
                self.fullscreen_mode = !self.fullscreen_mode;
                // Update the chat widget's fullscreen state.
                let fullscreen = self.fullscreen_mode;
                match &mut self.app_state {
                    AppState::Chat { widget, .. } => {
                        widget.set_fullscreen_mode(fullscreen);
                    },
                }
                Some(Effect::Send(AppEvent::Redraw))
            },
            AppEvent::ErrorNotice(message) => {
                self.toaster_state.error(message.as_str());
                Some(Effect::Send(AppEvent::Redraw))
            },
        };
        let mut effects = self.take_widget_events();
        if let Some(effect) = own {
            effects.push(effect);
        }
        effects
    }
}

impl AppModel {
    /// The notifications after the switch of mouse capture has failed:
    /// one more, an error that says so.
    pub open spec fn toasts_after_toggle(self, outcome: Option<bool>, toasts_after: Seq<Toast>) -> bool {
        match outcome {
            Some(_) => toasts_after == self.toasts,
            None => exists|toast: Toast|
                #![auto]
                toast.message@ == ERROR_TOGGLE_MOUSE_MODE@ && toast.kind == ToastKind::Error
                    && toasts_after == with_toast(self.toasts, toast),
        }
    }

    /// What the loop is asked to do once the terminal has answered the
    /// switch of mouse capture: to announce the new state, or to paint the
    /// notification of the failure.
    pub open spec fn toggle_effects(outcome: Option<bool>) -> Seq<Effect> {
        match outcome {
            Some(is_active) => seq![Effect::Send(AppEvent::MouseCaptureChanged(is_active))],
            None => seq![Effect::Send(AppEvent::Redraw)],
        }
    }
}

impl App {
    /// Takes the terminal's answer to a switch of mouse capture: the new
    /// state, or none if the terminal could not be switched. A failure is
    /// shown as a notification and is not fatal.
    pub fn mouse_capture_toggled(&mut self, outcome: Option<bool>) -> (effects: Vec<Effect>)
        ensures
            final(self)@ == (AppModel { toasts: final(self)@.toasts, ..old(self)@ }),
            old(self)@.toasts_after_toggle(outcome, final(self)@.toasts),
            effects@ == AppModel::toggle_effects(outcome),
            old(self).inv() ==> final(self).inv(),
    {
        let mut effects: Vec<Effect> = Vec::new();
        match outcome {
            Some(is_active) => {
                effects.push(Effect::Send(AppEvent::MouseCaptureChanged(is_active)));
            },
            None => {
                let ghost before = self.toaster_state@;
                self.toaster_state.error(ERROR_TOGGLE_MOUSE_MODE);
                proof {
                    let shown = choose|toast: Toast|
                        #![auto]
                        toast.message@ == ERROR_TOGGLE_MOUSE_MODE@ && toast.kind
                            == ToastKind::Error && self.toaster_state@ == with_toast(
                            before,
                            toast,
                        );
                    assert(shown.message@ == ERROR_TOGGLE_MOUSE_MODE@ && shown.kind
                        == ToastKind::Error && self@.toasts == with_toast(old(self)@.toasts, shown));
                }
                effects.push(Effect::Send(AppEvent::Redraw));
            },
        }
        effects
    }

    /// Handles a tick at `now` on the notifications' clock, `elapsed_ms`
    /// after the task started: expired notifications go, and the working
    /// animation advances.
    pub fn tick_at(&mut self, now: u128, elapsed_ms: u64) -> (effects: Vec<Effect>)
        ensures
            final(self)@ == old(self)@.ticked(now, elapsed_ms),
            effects@ == old(self)@.tick_effects(now),
            old(self).inv() ==> final(self).inv(),
    {
        // Remove expired notifications.
        self.toaster_state.tick_at(now);
        // Advance the working animation.
        let needs_redraw = match &mut self.app_state {
            AppState::Chat { widget, .. } => widget.advance_ai_working(elapsed_ms),
        };
        let mut effects: Vec<Effect> = Vec::new();
        if self.toaster_state.has_toasts() || needs_redraw {
            effects.push(Effect::Send(AppEvent::Redraw));
        }
        effects
    }

    /// Handles a tick at the time that the clocks show.
    pub fn tick(&mut self) -> (effects: Vec<Effect>)
        ensures
            exists|now: u128, elapsed_ms: u64|
                #![auto]
                final(self)@ == old(self)@.ticked(now, elapsed_ms) && effects@ == old(self)@.tick_effects(now),
            old(self).inv() ==> final(self).inv(),
    {
        let now = self.toaster_state.now();
        let elapsed_ms = match &self.app_state {
            AppState::Chat { widget, .. } => widget.working_elapsed_ms(),
        };
        self.tick_at(now, elapsed_ms)
    }

    /// Tells whether the welcome area is hidden.
    pub fn is_fullscreen(&self) -> (fullscreen: bool)
        ensures
            fullscreen == self@.fullscreen_mode,
    {
        self.fullscreen_mode
    }

    /// The notifications.
    pub fn toaster_state(&self) -> (state: &ToasterState)
        ensures
            state@ == self@.toasts,
    {
        &self.toaster_state
    }

    /// The chat widget.
    pub fn chat(&self) -> (widget: &ChatWidget)
        ensures
            widget@ == self@.chat,
    {
        match &self.app_state {
            AppState::Chat { widget, .. } => widget,
        }
    }

    /// Takes the task that is pending, to hand it to the agent.
    pub fn take_pending_task(&mut self) -> (task: Option<String>)
        ensures
            match task {
                Some(task) => old(self)@.chat.pending_task == Some(task@),
                None => old(self)@.chat.pending_task.is_none(),
            },
            final(self)@ == (AppModel {
                chat: ChatModel { pending_task: None, ..old(self)@.chat },
                ..old(self)@
            }),
            old(self).inv() ==> final(self).inv(),
    {
        match &mut self.app_state {
            AppState::Chat { widget, .. } => widget.take_pending_task(),
        }
    }

    /// Lays out one frame of the transcript in `inner`.
    pub fn render_history(&mut self, inner: crate::layout::Rect) -> (frame:
        crate::widgets::chat_history::HistoryFrame)
        requires
            inner.fits(),
        ensures
            final(self)@ == (AppModel {
                chat: ChatModel {
                    history: old(self)@.chat.history.rendered(inner),
                    ..old(self)@.chat
                },
                ..old(self)@
            }),
            old(self)@.chat.history.is_shown_by(inner, frame),
            old(self).inv() ==> final(self).inv(),
    {
        match &mut self.app_state {
            AppState::Chat { widget, .. } => widget.render_history(inner),
        }
    }
}

} // verus!
