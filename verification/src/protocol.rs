//! The submissions that a front end hands to the agent's session.

use vstd::prelude::*;

verus! {

/// A request to the session.
#[derive(Debug)]
pub struct Submission {
    /// Unique id for this submission, to correlate it with events.
    pub id: String,
    /// Payload.
    pub op: Op,
}

/// Submission operation.
#[derive(Debug)]
#[non_exhaustive]
pub enum Op {
    /// Configure the model session.
    ConfigureSession {
        /// Provider identifier.
        provider: (),
        /// If empty, the server uses its default model.
        model: String,
        /// The working directory, as text.
        cwd: String,
    },
    Interrupt,
    /// Input from the user.
    UserInput {
        /// User input items.
        items: Vec<InputItem>,
    },
    AddToHistory {
        /// The message text to be stored.
        text: String,
    },
}

/// User input.
#[derive(Debug)]
#[non_exhaustive]
pub enum InputItem {
    Text { text: String },
}

} // verus!
