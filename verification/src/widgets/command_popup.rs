//! The command palette: the commands that match what was typed behind the
//! trigger, and the one that is selected among them.

use super::constants::COMMAND_TRIGGER;
use crate::slash_command::{built_in_commands, built_in_slash_commands, SlashCommand};
use crate::text::{
    char_is_whitespace, leading_word, lowercase, push_char, starts_with, texts_of, to_lowercase,
};
use vstd::prelude::*;
use vstd::std_specs::iter::IteratorSpec;

verus! {

/// Maximum number of commands to show in the palette.
pub const MAX_VISIBLE_COMMANDS: usize = 5;

/// The filter that an input text stands for: what follows the trigger, up
/// to the first white space. A text that does not begin with the trigger
/// gives the empty filter.
pub open spec fn filter_of(text: Seq<char>) -> Seq<char> {
    if text.len() > 0 && text[0] == COMMAND_TRIGGER {
        leading_word(text.drop_first())
    } else {
        Seq::empty()
    }
}

/// Those of the first `n` commands whose name begins with `prefix`, in the
/// order of the list. `names` holds the name of each command.
pub open spec fn with_prefix(
    commands: Seq<SlashCommand>,
    names: Seq<Seq<char>>,
    prefix: Seq<char>,
    n: nat,
) -> Seq<SlashCommand>
    decreases n,
{
    if n == 0 || n > commands.len() {
        Seq::empty()
    } else {
        let before = with_prefix(commands, names, prefix, (n - 1) as nat);
        if n <= names.len() && prefix.is_prefix_of(names[n - 1]) {
            before.push(commands[n - 1])
        } else {
            before
        }
    }
}

/// The name of each command in lower case.
pub open spec fn lowered_names(commands: Seq<SlashCommand>) -> Seq<Seq<char>> {
    Seq::new(commands.len(), |i: int| lowercase(commands[i].command_text()))
}

/// The commands that match a filter: all of them for the empty filter,
/// else those whose name begins with the filter, without regard to case.
pub open spec fn matching(commands: Seq<SlashCommand>, filter: Seq<char>) -> Seq<SlashCommand> {
    if filter.len() == 0 {
        commands
    } else {
        with_prefix(commands, lowered_names(commands), lowercase(filter), commands.len())
    }
}

/// The selection held within a list of `count` commands: none for an empty
/// list, the first command where nothing was selected, and the last one
/// where the selection was beyond it.
pub open spec fn clamped(selected: Option<usize>, count: nat) -> Option<usize> {
    if count == 0 {
        None
    } else {
        let wanted = match selected {
            Some(index) => index,
            None => 0,
        };
        if wanted < count {
            Some(wanted)
        } else {
            Some((count - 1) as usize)
        }
    }
}

/// The palette as plain values.
pub struct PopupModel {
    /// All available commands.
    pub commands: Seq<SlashCommand>,
    /// The commands that match the filter.
    pub filtered: Seq<SlashCommand>,
    /// The index of the selected command among the filtered ones.
    pub selected: Option<usize>,
    /// The filter, without the trigger.
    pub filter: Seq<char>,
}

impl PopupModel {
    /// The palette after the filter was set.
    pub open spec fn filtered_by(self, filter: Seq<char>) -> PopupModel {
        PopupModel {
            commands: self.commands,
            filtered: matching(self.commands, filter),
            selected: clamped(self.selected, matching(self.commands, filter).len()),
            filter,
        }
    }

    /// The index of the last filtered command, or 0 if there is none.
    pub open spec fn last_index(self) -> usize {
        if self.filtered.len() == 0 {
            0
        } else {
            (self.filtered.len() - 1) as usize
        }
    }

    /// The palette after the selection moved up, from the first command
    /// round to the last.
    pub open spec fn moved_up(self) -> PopupModel {
        PopupModel {
            selected: match self.selected {
                Some(index) => if index > 0 {
                    Some((index - 1) as usize)
                } else {
                    Some(self.last_index())
                },
                None => None,
            },
            ..self
        }
    }

    /// The palette after the selection moved down, from the last command
    /// round to the first.
    pub open spec fn moved_down(self) -> PopupModel {
        PopupModel {
            selected: match self.selected {
                Some(index) => if index < self.last_index() {
                    Some((index + 1) as usize)
                } else {
                    Some(0)
                },
                None => None,
            },
            ..self
        }
    }

    /// The selected command.
    pub open spec fn selection(self) -> Option<SlashCommand> {
        match self.selected {
            Some(index) => if index < self.filtered.len() {
                Some(self.filtered[index as int])
            } else {
                None
            },
            None => None,
        }
    }

    /// The commands that the palette shows, each with a mark on the
    /// selected one.
    pub open spec fn shown_items(self) -> Seq<(SlashCommand, bool)> {
        Seq::new(
            if self.filtered.len() <= MAX_VISIBLE_COMMANDS {
                self.filtered.len()
            } else {
                MAX_VISIBLE_COMMANDS as nat
            },
            |i: int| (self.filtered[i], self.selected == Some(i as usize)),
        )
    }

    /// The rows of the palette: one for each command shown, at least one,
    /// and two for the border.
    pub open spec fn height(self) -> u16 {
        if self.filtered.len() == 0 {
            3
        } else if self.filtered.len() <= MAX_VISIBLE_COMMANDS {
            (self.filtered.len() + 2) as u16
        } else {
            (MAX_VISIBLE_COMMANDS + 2) as u16
        }
    }
}

/// The palette of commands.
pub struct CommandPopup {
    /// All available commands.
    commands: Vec<SlashCommand>,
    /// Currently filtered commands based on input.
    filtered_commands: Vec<SlashCommand>,
    /// Currently selected index in the filtered list.
    selected_index: Option<usize>,
    /// Current filter string, without the trigger.
    filter: String,
}

impl View for CommandPopup {
    type V = PopupModel;

    closed spec fn view(&self) -> PopupModel {
        PopupModel {
            commands: self.commands@,
            filtered: self.filtered_commands@,
            selected: self.selected_index,
            filter: self.filter@,
        }
    }
}

/// Reads the filter from an input text.
pub fn filter_text(text: &str) -> (filter: String)
    ensures
        filter@ == filter_of(text@),
{
    broadcast use vstd::string::group_string_axioms;

    let mut word = String::new();
    let mut chars = text.chars();
    let ghost mut rest = text@;
    match chars.next() {
        None => {
            return word;
        },
        Some(c) => {
            if c != COMMAND_TRIGGER {
                return word;
            }
            proof {
                rest = rest.drop_first();
            }
        },
    }
    assert(word@ + leading_word(rest) =~= filter_of(text@));
    loop
        invariant_except_break
            chars.remaining() == rest,
            word@ + leading_word(rest) == filter_of(text@),
        ensures
            word@ == filter_of(text@),
        decreases rest.len(),
    {
        match chars.next() {
            None => {
                assert(word@ + leading_word(rest) =~= word@);
                break ;
            },
            Some(c) => {
                if char_is_whitespace(c) {
                    assert(word@ + leading_word(rest) =~= word@);
                    break ;
                }
                let ghost before = word@;
                push_char(&mut word, c);
                proof {
                    assert(before + leading_word(rest) =~= before.push(c) + leading_word(
                        rest.drop_first(),
                    ));
                    rest = rest.drop_first();
                }
            },
        }
    }
    word
}

/// Keeps the commands whose name begins with `prefix`, in their order.
/// `names` holds the name of each command; a command without a name is
/// not kept.
pub fn select_with_prefix(commands: &Vec<SlashCommand>, names: &Vec<String>, prefix: &str) -> (kept:
    Vec<SlashCommand>)
    ensures
        kept@ == with_prefix(commands@, texts_of(names@), prefix@, commands@.len()),
{
    let mut kept: Vec<SlashCommand> = Vec::new();
    let mut i: usize = 0;
    while i < commands.len()
        invariant
            i <= commands@.len(),
            kept@ == with_prefix(commands@, texts_of(names@), prefix@, i as nat),
        decreases commands@.len() - i,
    {
        if i < names.len() && starts_with(names[i].as_str(), prefix) {
            kept.push(commands[i]);
        }
        i += 1;
    }
    kept
}

impl CommandPopup {
    /// A palette of the built-in commands, all of them shown and the first
    /// one selected.
    pub fn new() -> (popup: CommandPopup)
        ensures
            popup@ == (PopupModel {
                commands: built_in_commands(),
                filtered: built_in_commands(),
                selected: Some(0usize),
                filter: Seq::empty(),
            }),
    {
        let commands = built_in_slash_commands();
        let filtered_commands = built_in_slash_commands();
        CommandPopup {
            commands,
            filtered_commands,
            selected_index: Some(0),
            filter: String::new(),
        }
    }

    /// Sets the filter from the current input text.
    pub fn update_filter(&mut self, text: &str)
        ensures
            final(self)@ == old(self)@.filtered_by(filter_of(text@)),
    {
        self.filter = filter_text(text);
        self.apply_filter();
    }

    /// Applies the current filter: lists the commands that match it and
    /// holds the selection within that list.
    pub fn apply_filter(&mut self)
        ensures
            final(self)@ == old(self)@.filtered_by(old(self)@.filter),
    {
        let ghost commands = self.commands@;
        if self.filter.as_str().is_empty() {
            let mut all: Vec<SlashCommand> = Vec::new();
            let mut i: usize = 0;
            while i < self.commands.len()
                invariant
                    i <= self.commands@.len(),
                    self.commands@ == commands,
                    all@ == commands.subrange(0, i as int),
                decreases self.commands@.len() - i,
            {
                all.push(self.commands[i]);
                assert(commands.subrange(0, i + 1) =~= commands.subrange(0, i as int).push(
                    commands[i as int],
                ));
                i += 1;
            }
            assert(all@ =~= commands);
            self.filtered_commands = all;
        } else {
            let lowered_filter = to_lowercase(self.filter.as_str());
            let mut names: Vec<String> = Vec::new();
            let mut i: usize = 0;
            while i < self.commands.len()
                invariant
                    i <= self.commands@.len(),
                    self.commands@ == commands,
                    names@.len() == i,
                    forall|k: int|
                        0 <= k < i ==> (#[trigger] names@[k])@ == lowered_names(commands)[k],
                decreases self.commands@.len() - i,
            {
                let name = to_lowercase(self.commands[i].command());
                names.push(name);
                i += 1;
            }
            assert(texts_of(names@) =~= lowered_names(commands));
            self.filtered_commands = select_with_prefix(
                &self.commands,
                &names,
                lowered_filter.as_str(),
            );
        }
        // Keep the selection within bounds.
        if self.filtered_commands.len() == 0 {
            self.selected_index = None;
        } else {
            let wanted = match self.selected_index {
                Some(index) => index,
                None => 0,
            };
            let last = self.filtered_commands.len() - 1;
            self.selected_index = Some(
                if wanted <= last {
                    wanted
                } else {
                    last
                },
            );
        }
    }

    /// Moves the selection up.
    pub fn select_previous(&mut self)
        ensures
            final(self)@ == old(self)@.moved_up(),
    {
        if let Some(index) = self.selected_index {
            if index > 0 {
                self.selected_index = Some(index - 1);
            } else {
                self.selected_index = Some(self.filtered_commands.len().saturating_sub(1));
            }
        }
    }

    /// Moves the selection down.
    pub fn select_next(&mut self)
        ensures
            final(self)@ == old(self)@.moved_down(),
    {
        if let Some(index) = self.selected_index {
            if index < self.filtered_commands.len().saturating_sub(1) {
                self.selected_index = Some(index + 1);
            } else {
                self.selected_index = Some(0);
            }
        }
    }

    /// The currently selected command.
    pub fn selected_command(&self) -> (command: Option<SlashCommand>)
        ensures
            command == self@.selection(),
    {
        match self.selected_index {
            Some(index) => if index < self.filtered_commands.len() {
                Some(self.filtered_commands[index])
            } else {
                None
            },
            None => None,
        }
    }

    /// The rows that the palette takes.
    pub fn calculate_height(&self) -> (rows: u16)
        ensures
            rows == self@.height(),
    {
        let count = self.filtered_commands.len();
        let content_height: u16 = if count == 0 {
            1
        } else if count <= MAX_VISIBLE_COMMANDS {
            count as u16
        } else {
            MAX_VISIBLE_COMMANDS as u16
        };
        // Add 2 for borders.
        content_height + 2
    }

    /// The commands that the palette shows, each with a mark on the
    /// selected one: the first `MAX_VISIBLE_COMMANDS` of those that match.
    pub fn visible_items(&self) -> (items: Vec<(SlashCommand, bool)>)
        ensures
            items@ == self@.shown_items(),
    {
        let mut items: Vec<(SlashCommand, bool)> = Vec::new();
        let mut i: usize = 0;
        while i < self.filtered_commands.len() && i < MAX_VISIBLE_COMMANDS
            invariant
                i <= self.filtered_commands@.len(),
                i <= MAX_VISIBLE_COMMANDS,
                items@.len() == i,
                forall|k: int| 0 <= k < i ==> items@[k] == self@.shown_items()[k],
            decreases self.filtered_commands@.len() - i,
        {
            let is_selected = match self.selected_index {
                Some(index) => index == i,
                None => false,
            };
            items.push((self.filtered_commands[i], is_selected));
            i += 1;
        }
        assert(items@ =~= self@.shown_items());
        items
    }

    /// Tells whether any command matches the filter.
    pub fn has_commands(&self) -> (any: bool)
        ensures
            any == (self@.filtered.len() > 0),
    {
        self.filtered_commands.len() > 0
    }

    /// The commands that match the filter.
    pub fn filtered_commands(&self) -> (commands: &Vec<SlashCommand>)
        ensures
            commands@ == self@.filtered,
    {
        &self.filtered_commands
    }

    /// The index of the selected command among the filtered ones.
    pub fn selected_index(&self) -> (selected: Option<usize>)
        ensures
            selected == self@.selected,
    {
        self.selected_index
    }

    /// The filter, without the trigger.
    pub fn filter(&self) -> (filter: &str)
        ensures
            filter@ == self@.filter,
    {
        self.filter.as_str()
    }
}

} // verus!
