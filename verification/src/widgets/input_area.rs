//! The input buffer: a `tui_textarea::TextArea`, and the keys it takes.
//!
//! The widget edits the text. This module names what the chat widget
//! reads of it, and states of each edit what the chat widget relies on.

use super::text_block::without_carriage_return;
use crate::text::texts_of;
use crate::event::{KeyCode, KeyEvent, KeyEventKind};
use tui_textarea::TextArea;
use vstd::prelude::*;

verus! {

/// The input buffer: a `tui_textarea::TextArea`.
///
/// Trusted: the widget is opaque here. What is said of it is said through
/// `area_lines`, `area_cursor` and `area_selection_start`.
#[verifier::external_body]
pub struct InputArea {
    /// The widget that holds and edits the text.
    pub area: TextArea<'static>,
}

/// The lines of text that the buffer holds.
pub uninterp spec fn area_lines(area: InputArea) -> Seq<Seq<char>>;

/// The row and column of the buffer's cursor, counted in characters.
pub uninterp spec fn area_cursor(area: InputArea) -> (nat, nat);

/// The row and column where the buffer's selection began, if text is
/// being selected.
pub uninterp spec fn area_selection_start(area: InputArea) -> Option<(nat, nat)>;

/// The largest row and column that selecting all text reaches.
pub const SELECT_ALL_REACH: usize = 65535;

/// The position behind the last character of the text.
pub open spec fn end_of(lines: Seq<Seq<char>>) -> (nat, nat) {
    ((lines.len() - 1) as nat, lines.last().len())
}

/// Selecting all text reaches the end of the text.
pub open spec fn within_reach(lines: Seq<Seq<char>>) -> bool {
    &&& 0 < lines.len() <= SELECT_ALL_REACH + 1
    &&& lines.last().len() <= SELECT_ALL_REACH
}

/// The text holds no line feed.
pub open spec fn is_single_line(text: Seq<char>) -> bool {
    forall|i: int| 0 <= i < text.len() ==> text[i] != '\n'
}

/// A key as the buffer knows it.
#[derive(Debug, Clone, Copy, PartialEq, Eq, Structural)]
pub enum InputKey {
    Char(char),
    F(u8),
    Backspace,
    Enter,
    Left,
    Right,
    Up,
    Down,
    Tab,
    Delete,
    Home,
    End,
    PageUp,
    PageDown,
    Esc,
    /// A key that the buffer ignores.
    Null,
}

/// A key with its modifiers as the buffer knows them.
#[derive(Debug, Clone, Copy, PartialEq, Eq, Structural)]
pub struct Input {
    pub key: InputKey,
    pub ctrl: bool,
    pub alt: bool,
    pub shift: bool,
}

/// The buffer's key for a key of the terminal.
pub open spec fn key_of(code: KeyCode) -> InputKey {
    match code {
        KeyCode::Char(c) => InputKey::Char(c),
        KeyCode::Backspace => InputKey::Backspace,
        KeyCode::Enter => InputKey::Enter,
        KeyCode::Left => InputKey::Left,
        KeyCode::Right => InputKey::Right,
        KeyCode::Up => InputKey::Up,
        KeyCode::Down => InputKey::Down,
        KeyCode::Tab => InputKey::Tab,
        KeyCode::Delete => InputKey::Delete,
        KeyCode::Home => InputKey::Home,
        KeyCode::End => InputKey::End,
        KeyCode::PageUp => InputKey::PageUp,
        KeyCode::PageDown => InputKey::PageDown,
        KeyCode::Esc => InputKey::Esc,
        KeyCode::F(number) => InputKey::F(number),
        _ => InputKey::Null,
    }
}

/// The buffer's input for a key event of the terminal. The release of a
/// key is no input.
pub open spec fn input_of(event: KeyEvent) -> Input {
    if event.kind == KeyEventKind::Release {
        Input { key: InputKey::Null, ctrl: false, alt: false, shift: false }
    } else {
        Input {
            key: key_of(event.code),
            ctrl: event.modifiers.has_control(),
            alt: event.modifiers.has_alt(),
            shift: event.modifiers.has_shift(),
        }
    }
}

impl Input {
    /// The key is `Enter` and no modifier is held.
    pub open spec fn is_plain_enter(self) -> bool {
        self.key == InputKey::Enter && !self.shift && !self.alt && !self.ctrl
    }

    /// Converts a key event of the terminal.
    pub fn from_key_event(event: KeyEvent) -> (input: Input)
        ensures
            input == input_of(event),
    {
        if event.kind == KeyEventKind::Release {
            return Input { key: InputKey::Null, ctrl: false, alt: false, shift: false };
        }
        let key = match event.code {
            KeyCode::Char(c) => InputKey::Char(c),
            KeyCode::Backspace => InputKey::Backspace,
            KeyCode::Enter => InputKey::Enter,
            KeyCode::Left => InputKey::Left,
            KeyCode::Right => InputKey::Right,
            KeyCode::Up => InputKey::Up,
            KeyCode::Down => InputKey::Down,
            KeyCode::Tab => InputKey::Tab,
            KeyCode::Delete => InputKey::Delete,
            KeyCode::Home => InputKey::Home,
            KeyCode::End => InputKey::End,
            KeyCode::PageUp => InputKey::PageUp,
            KeyCode::PageDown => InputKey::PageDown,
            KeyCode::Esc => InputKey::Esc,
            KeyCode::F(number) => InputKey::F(number),
            _ => InputKey::Null,
        };
        Input {
            key,
            ctrl: event.modifiers.contains_control(),
            alt: event.modifiers.contains_alt(),
            shift: event.modifiers.contains_shift(),
        }
    }
}

/// Makes an empty buffer with `TextArea::default`.
///
/// Trusted: the buffer holds one empty line, its cursor stands at the
/// start, and nothing is selected.
#[verifier::external_body]
pub(crate) fn new_area() -> (area: InputArea)
    ensures
        area_lines(area) == seq![Seq::<char>::empty()],
        area_cursor(area) == (0nat, 0nat),
        area_selection_start(area).is_none(),
{
    InputArea { area: TextArea::default() }
}

/// Reads the lines of the buffer with `TextArea::lines`.
///
/// Trusted: the result holds the lines of the buffer in their order.
#[verifier::external_body]
pub(crate) fn lines_of_area(area: &InputArea) -> (lines: Vec<String>)
    ensures
        texts_of(lines@) == area_lines(*area),
{
    area.area.lines().to_vec()
}

/// Tests with `TextArea::is_empty` whether the buffer is empty.
///
/// Trusted: the buffer is empty exactly if it holds one empty line.
#[verifier::external_body]
pub(crate) fn area_is_empty(area: &InputArea) -> (empty: bool)
    ensures
        empty == (area_lines(*area) == seq![Seq::<char>::empty()]),
{
    area.area.is_empty()
}

/// Selects the text of the buffer with `TextArea::select_all`.
///
/// Trusted: the text stays; the selection begins at the start of the
/// text; and the cursor stands at the end of the text, provided that the
/// end is within the reach of the selection.
#[verifier::external_body]
pub(crate) fn area_select_all(area: &mut InputArea)
    ensures
        area_lines(*final(area)) == area_lines(*old(area)),
        area_selection_start(*final(area)) == Some((0nat, 0nat)),
        within_reach(area_lines(*old(area))) ==> area_cursor(*final(area)) == end_of(
            area_lines(*old(area)),
        ),
{
    area.area.select_all()
}

/// Removes the selected text with `TextArea::cut`.
///
/// Trusted: where the selection spans the whole text, from its start to
/// the cursor at its end, one empty line is left, the cursor stands at
/// the start, and nothing is selected.
#[verifier::external_body]
pub(crate) fn area_cut(area: &mut InputArea) -> (modified: bool)
    ensures
        area_selection_start(*old(area)) == Some((0nat, 0nat)) && area_cursor(*old(area))
            == end_of(area_lines(*old(area))) && area_lines(*old(area)).len() > 0 ==> {
            &&& area_lines(*final(area)) == seq![Seq::<char>::empty()]
            &&& area_cursor(*final(area)) == (0nat, 0nat)
            &&& area_selection_start(*final(area)).is_none()
        },
{
    area.area.cut()
}

/// Inserts text at the cursor with `TextArea::insert_str`.
///
/// Trusted: where the buffer holds one empty line, nothing is selected
/// and `text` holds no line feed, the buffer afterwards holds `text` as
/// its one line, without the carriage return at its end if it has one.
#[verifier::external_body]
pub(crate) fn area_insert_str(area: &mut InputArea, text: &str) -> (modified: bool)
    ensures
        area_lines(*old(area)) == seq![Seq::<char>::empty()] && area_cursor(*old(area)) == (
            0nat,
            0nat,
        ) && area_selection_start(*old(area)).is_none() && is_single_line(text@) ==> {
            &&& area_lines(*final(area)) == seq![without_carriage_return(text@)]
            &&& area_selection_start(*final(area)).is_none()
        },
{
    area.area.insert_str(text)
}

/// Breaks the line at the cursor with `TextArea::insert_newline`.
///
/// Trusted: nothing is claimed of the buffer afterwards.
#[verifier::external_body]
pub(crate) fn area_insert_newline(area: &mut InputArea) {
    area.area.insert_newline()
}

/// Deletes the character before the cursor with `TextArea::delete_char`.
///
/// Trusted: nothing is claimed of the buffer afterwards.
#[verifier::external_body]
pub(crate) fn area_delete_char(area: &mut InputArea) -> (modified: bool) {
    area.area.delete_char()
}

/// The key of the buffer's own kind.
///
/// Trusted: a conversion, variant by variant.
#[verifier::external_body]
fn raw_key(key: InputKey) -> tui_textarea::Key {
    match key {
        InputKey::Char(c) => tui_textarea::Key::Char(c), InputKey::F(n) => tui_textarea::Key::F(n),
        InputKey::Backspace => tui_textarea::Key::Backspace, InputKey::Enter => tui_textarea::Key::Enter,
        InputKey::Left => tui_textarea::Key::Left, InputKey::Right => tui_textarea::Key::Right,
        InputKey::Up => tui_textarea::Key::Up, InputKey::Down => tui_textarea::Key::Down,
        InputKey::Tab => tui_textarea::Key::Tab, InputKey::Delete => tui_textarea::Key::Delete,
        InputKey::Home => tui_textarea::Key::Home, InputKey::End => tui_textarea::Key::End,
        InputKey::PageUp => tui_textarea::Key::PageUp, InputKey::PageDown => tui_textarea::Key::PageDown,
        InputKey::Esc => tui_textarea::Key::Esc, InputKey::Null => tui_textarea::Key::Null,
    }
}

/// `tui_textarea::Key`: a key of the buffer's own kind, carried as it is.
#[verifier::external_type_specification]
#[verifier::external_body]
pub struct ExRawKey(tui_textarea::Key);

/// Hands a key to the buffer with `TextArea::input`.
///
/// Trusted: nothing is claimed of the buffer afterwards.
#[verifier::external_body]
fn area_input_raw(
    area: &mut InputArea,
    key: tui_textarea::Key,
    ctrl: bool,
    alt: bool,
    shift: bool,
) -> (modified: bool) {
    area.area.input(tui_textarea::Input { key, ctrl, alt, shift })
}

/// Hands an input to the buffer, which edits its text or moves its cursor
/// as its key bindings say.
pub(crate) fn area_input(area: &mut InputArea, input: Input) -> (modified: bool) {
    let key = raw_key(input.key);
    area_input_raw(area, key, input.ctrl, input.alt, input.shift)
}

} // verus!
