//! Commands that are invoked by typing the trigger character and a name.

use crate::widgets::constants::{
    SLASH_COMMAND_ASK_AI_DESC, SLASH_COMMAND_CLEAR_DESC, SLASH_COMMAND_FULLSCREEN_DESC,
};
use vstd::prelude::*;

verus! {

/// A command of the palette.
#[derive(Debug, Clone, Copy, PartialEq, Eq, Hash, Structural)]
pub enum SlashCommand {
    /// Clear the chat history.
    Clear,
    /// Ask the assistant.
    AskAI,
    /// Toggle fullscreen mode.
    Fullscreen,
}

impl SlashCommand {
    /// The description shown in the palette.
    pub open spec fn description_text(self) -> Seq<char> {
        match self {
            SlashCommand::Clear => SLASH_COMMAND_CLEAR_DESC@,
            SlashCommand::AskAI => SLASH_COMMAND_ASK_AI_DESC@,
            SlashCommand::Fullscreen => SLASH_COMMAND_FULLSCREEN_DESC@,
        }
    }

    /// The command's name: the variant in kebab case.
    pub open spec fn command_text(self) -> Seq<char> {
        match self {
            SlashCommand::Clear => "clear"@,
            SlashCommand::AskAI => "ask-ai"@,
            SlashCommand::Fullscreen => "fullscreen"@,
        }
    }

    /// Whether the command takes a prompt after its name.
    pub open spec fn needs_input(self) -> bool {
        self == SlashCommand::AskAI
    }

    /// User-visible description shown in the palette.
    pub fn description(self) -> (text: &'static str)
        ensures
            text@ == self.description_text(),
    {
        match self {
            SlashCommand::Clear => SLASH_COMMAND_CLEAR_DESC,
            SlashCommand::AskAI => SLASH_COMMAND_ASK_AI_DESC,
            SlashCommand::Fullscreen => SLASH_COMMAND_FULLSCREEN_DESC,
        }
    }

    /// Command name without the leading trigger.
    pub fn command(self) -> (name: &'static str)
        ensures
            name@ == self.command_text(),
    {
        match self {
            SlashCommand::Clear => "clear",
            SlashCommand::AskAI => "ask-ai",
            SlashCommand::Fullscreen => "fullscreen",
        }
    }

    /// True if the command waits for further input after it was selected.
    pub fn requires_input(self) -> (needed: bool)
        ensures
            needed == self.needs_input(),
    {
        match self {
            SlashCommand::Clear => false,
            SlashCommand::AskAI => true,
            SlashCommand::Fullscreen => false,
        }
    }
}

/// The fixed, ordered list of commands.
pub open spec fn built_in_commands() -> Seq<SlashCommand> {
    seq![SlashCommand::Clear, SlashCommand::AskAI, SlashCommand::Fullscreen]
}

/// All built-in commands, in the order of their declaration.
pub fn built_in_slash_commands() -> (commands: Vec<SlashCommand>)
    ensures
        commands@ == built_in_commands(),
{
    let mut commands: Vec<SlashCommand> = Vec::new();
    commands.push(SlashCommand::Clear);
    commands.push(SlashCommand::AskAI);
    commands.push(SlashCommand::Fullscreen);
    commands
}

} // verus!
