//! Whether the terminal reports mouse events to the shell.
//!
//! The terminal is switched by the program that embeds the library. This
//! module decides which command the terminal needs, and takes note of the
//! new state once the command has succeeded.

use vstd::prelude::*;

verus! {

/// A command for the terminal.
#[derive(Debug, Clone, Copy, PartialEq, Eq, Structural)]
pub enum CaptureCommand {
    /// Start reporting mouse events.
    Enable,
    /// Stop reporting mouse events.
    Disable,
}

/// The command that brings the terminal from `active` to `wanted`, if one
/// is needed.
pub open spec fn command_for(active: bool, wanted: bool) -> Option<CaptureCommand> {
    if active == wanted {
        None
    } else if wanted {
        Some(CaptureCommand::Enable)
    } else {
        Some(CaptureCommand::Disable)
    }
}

/// The mouse capture state of the terminal.
pub struct MouseCapture {
    is_active: bool,
}

impl View for MouseCapture {
    type V = bool;

    closed spec fn view(&self) -> bool {
        self.is_active
    }
}

impl MouseCapture {
    /// The state of a terminal that was just opened: capture is off, and
    /// it is to be enabled if `initial_state` asks for it.
    pub fn new_with_capture(initial_state: bool) -> (start: (MouseCapture, Option<CaptureCommand>))
        ensures
            start.0@ == false,
            start.1 == command_for(false, initial_state),
    {
        let capture = MouseCapture { is_active: false };
        let command = if initial_state {
            capture.enable()
        } else {
            None
        };
        (capture, command)
    }

    /// The command that enables capture, if it is not active.
    pub fn enable(&self) -> (command: Option<CaptureCommand>)
        ensures
            command == command_for(self@, true),
    {
        if !self.is_active {
            Some(CaptureCommand::Enable)
        } else {
            None
        }
    }

    /// The command that disables capture, if it is active.
    pub fn disable(&self) -> (command: Option<CaptureCommand>)
        ensures
            command == command_for(self@, false),
    {
        if self.is_active {
            Some(CaptureCommand::Disable)
        } else {
            None
        }
    }

    /// Tells whether mouse capture is currently active.
    pub fn is_active(&self) -> (active: bool)
        ensures
            active == self@,
    {
        self.is_active
    }

    /// The command that sets capture to `is_active`, if it is not there
    /// already.
    pub fn set_active(&self, is_active: bool) -> (command: Option<CaptureCommand>)
        ensures
            command == command_for(self@, is_active),
    {
        match (self.is_active, is_active) {
            (true, true) | (false, false) => None,
            (true, false) => self.disable(),
            (false, true) => self.enable(),
        }
    }

    /// The command that switches capture over.
    pub fn toggle(&self) -> (command: Option<CaptureCommand>)
        ensures
            command == command_for(self@, !self@),
            command.is_some(),
    {
        self.set_active(!self.is_active)
    }

    /// Takes note of a command that the terminal has carried out.
    pub fn commit(&mut self, command: CaptureCommand)
        ensures
            final(self)@ == (command == CaptureCommand::Enable),
    {
        self.is_active = match command {
            CaptureCommand::Enable => true,
            CaptureCommand::Disable => false,
        };
    }
}

} // verus!
