//! The events that drive the shell, and the keys they carry.

use vstd::prelude::*;

verus! {

/// The key of a key event.
#[derive(Debug, Clone, Copy, PartialEq, Eq, Structural)]
pub enum KeyCode {
    Backspace,
    Enter,
    Left,
    Right,
    Up,
    Down,
    Home,
    End,
    PageUp,
    PageDown,
    Tab,
    BackTab,
    Delete,
    Insert,
    F(u8),
    Char(char),
    Null,
    Esc,
    /// Any key that the shell gives no meaning to.
    Other,
}

/// The modifier keys held during a key event, one bit each.
#[derive(Debug, Clone, Copy, PartialEq, Eq, Structural)]
pub struct KeyModifiers {
    pub bits: u8,
}

pub const MODIFIER_SHIFT: u8 = 1;

pub const MODIFIER_CONTROL: u8 = 2;

pub const MODIFIER_ALT: u8 = 4;

impl KeyModifiers {
    pub open spec fn has_shift(self) -> bool {
        self.bits & MODIFIER_SHIFT != 0
    }

    pub open spec fn has_control(self) -> bool {
        self.bits & MODIFIER_CONTROL != 0
    }

    pub open spec fn has_alt(self) -> bool {
        self.bits & MODIFIER_ALT != 0
    }

    /// Control alone, with no other modifier.
    pub open spec fn is_control_only(self) -> bool {
        self.bits == MODIFIER_CONTROL
    }

    /// No modifier.
    pub fn none() -> (modifiers: KeyModifiers)
        ensures
            modifiers.bits == 0,
    {
        KeyModifiers { bits: 0 }
    }

    /// Shift alone.
    pub fn shift() -> (modifiers: KeyModifiers)
        ensures
            modifiers.bits == MODIFIER_SHIFT,
    {
        KeyModifiers { bits: MODIFIER_SHIFT }
    }

    /// Control alone.
    pub fn control() -> (modifiers: KeyModifiers)
        ensures
            modifiers.bits == MODIFIER_CONTROL,
    {
        KeyModifiers { bits: MODIFIER_CONTROL }
    }

    /// Alt alone.
    pub fn alt() -> (modifiers: KeyModifiers)
        ensures
            modifiers.bits == MODIFIER_ALT,
    {
        KeyModifiers { bits: MODIFIER_ALT }
    }

    pub fn contains_shift(&self) -> (held: bool)
        ensures
            held == self.has_shift(),
    {
        self.bits & MODIFIER_SHIFT != 0
    }

    pub fn contains_control(&self) -> (held: bool)
        ensures
            held == self.has_control(),
    {
        self.bits & MODIFIER_CONTROL != 0
    }

    pub fn contains_alt(&self) -> (held: bool)
        ensures
            held == self.has_alt(),
    {
        self.bits & MODIFIER_ALT != 0
    }
}

/// Whether a key went down, is held, or went up.
#[derive(Debug, Clone, Copy, PartialEq, Eq, Structural)]
pub enum KeyEventKind {
    Press,
    Repeat,
    Release,
}

/// One key event of the terminal.
#[derive(Debug, Clone, Copy, PartialEq, Eq, Structural)]
pub struct KeyEvent {
    pub code: KeyCode,
    pub modifiers: KeyModifiers,
    pub kind: KeyEventKind,
}

impl KeyEvent {
    /// A key press of the given key and modifiers.
    pub fn new(code: KeyCode, modifiers: KeyModifiers) -> (event: KeyEvent)
        ensures
            event == (KeyEvent { code, modifiers, kind: KeyEventKind::Press }),
    {
        KeyEvent { code, modifiers, kind: KeyEventKind::Press }
    }
}

/// An event of the shell. Events of one producer are handled in the order
/// in which they were sent.
#[derive(Debug, PartialEq, Eq)]
pub enum AppEvent {
    /// Paint a frame.
    Redraw,
    /// A key event of the terminal.
    KeyInput(KeyEvent),
    /// The net rows of one burst of wheel ticks, positive downwards.
    ScrollDelta(i32),
    /// A task was submitted.
    TaskStarted,
    /// The task that was submitted has ended, with the agent's answer or
    /// with the reason why there is none.
    TaskCompleted(Result<String, String>),
    /// The terminal's mouse capture was switched.
    MouseCaptureChanged(bool),
    /// Hide or show the welcome area.
    ToggleFullscreen,
    /// A failure to be shown as a notification.
    ErrorNotice(String),
    /// Leave the shell.
    ExitRequest,
}

/// What the main loop asks of the program around it.
#[derive(Debug, PartialEq, Eq)]
pub enum Effect {
    /// Hand the event to the bus.
    Send(AppEvent),
    /// Paint one frame.
    Render,
    /// Invoke the agent with the task that is pending.
    SubmitTask,
    /// Switch the terminal's mouse capture over.
    ToggleMouseCapture,
    /// Leave the loop.
    Exit,
}

} // verus!
