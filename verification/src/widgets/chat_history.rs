//! The transcript: an append-only list of entries with cached row counts,
//! and the viewport that scrolls over it.

use super::constants::{
    AGENT_MESSAGE_PREFIX, AI_WORKING_DOT, AI_WORKING_DOT_INTERVAL, AI_WORKING_DOT_MAX_COUNT,
    AI_WORKING_TEXT, CHAT_HISTORY_TITLE_FOCUSED, CHAT_HISTORY_TITLE_UNFOCUSED,
    CONTINUATION_PREFIX, MOUSE_INDICATOR_OFF, MOUSE_INDICATOR_ON, USER_MESSAGE_PREFIX,
};
use super::rows::{
    estimate_rows, estimated_rows, text_rows, widths_of, wrapped_rows, MAX_LINES_EXACT,
    MAX_TOTAL_LINES,
};
use super::text_block::{split_lines, text_lines, widths_of_lines, TextBlock};
use crate::event::{KeyCode, KeyEvent};
use crate::layout::Rect;
use crate::text::texts_of;
use vstd::prelude::*;
use vstd::string::StringExecFns;

verus! {

/// The rows that the working indicator takes.
pub const AI_WORKING_ROWS: usize = 2;

/// The most rows that the whole transcript counts for.
pub const MAX_RENDERED_LINES: usize = 10000;

/// What an entry of the transcript shows.
#[derive(Debug)]
pub enum ChatHistoryBlock {
    UserMessage { view: TextBlock },
    AgentMessage { view: TextBlock },
    AiWorking { elapsed_ms: u64 },
}

/// The lines of a message: the first line of the text behind `prefix`,
/// each further line indented, and an empty line at the end.
pub open spec fn message_lines(prefix: Seq<char>, text: Seq<char>) -> Seq<Seq<char>> {
    let raw = split_lines(text);
    Seq::new(
        raw.len() + 1,
        |i: int|
            if i >= raw.len() {
                Seq::empty()
            } else if i == 0 {
                prefix + raw[0]
            } else {
                CONTINUATION_PREFIX@ + raw[i]
            },
    )
}

/// What an entry shows, as plain values.
pub enum BlockModel {
    UserMessage { lines: Seq<Seq<char>> },
    AgentMessage { lines: Seq<Seq<char>> },
    AiWorking { elapsed_ms: u64 },
}

impl BlockModel {
    /// The entry is the working indicator.
    pub open spec fn is_working(self) -> bool {
        self is AiWorking
    }

    /// The rows of the entry at `width` columns, measured on its own.
    pub open spec fn rows_at(self, width: nat) -> nat {
        match self {
            BlockModel::UserMessage { lines } => text_rows(widths_of_lines(lines), width),
            BlockModel::AgentMessage { lines } => text_rows(widths_of_lines(lines), width),
            BlockModel::AiWorking { .. } => AI_WORKING_ROWS as nat,
        }
    }

    /// The rows of the entry by the estimate, which measures no line.
    pub open spec fn rows_estimated(self) -> nat {
        match self {
            BlockModel::UserMessage { lines } => estimated_rows(lines.len()),
            BlockModel::AgentMessage { lines } => estimated_rows(lines.len()),
            BlockModel::AiWorking { .. } => AI_WORKING_ROWS as nat,
        }
    }
}

impl View for ChatHistoryBlock {
    type V = BlockModel;

    open spec fn view(&self) -> BlockModel {
        match self {
            ChatHistoryBlock::UserMessage { view } => BlockModel::UserMessage { lines: view@ },
            ChatHistoryBlock::AgentMessage { view } => BlockModel::AgentMessage { lines: view@ },
            ChatHistoryBlock::AiWorking { elapsed_ms } => BlockModel::AiWorking {
                elapsed_ms: *elapsed_ms,
            },
        }
    }
}

/// The number of dots that the working indicator shows after
/// `elapsed_ms`: one more with every interval, and none again after the
/// last.
pub open spec fn working_dots(elapsed_ms: u64) -> nat {
    ((elapsed_ms / AI_WORKING_DOT_INTERVAL) % AI_WORKING_DOT_MAX_COUNT) as nat
}

/// `count` dots.
pub open spec fn dots(count: nat) -> Seq<char>
    decreases count,
{
    if count == 0 {
        Seq::empty()
    } else {
        dots((count - 1) as nat) + AI_WORKING_DOT@
    }
}

/// The text of the working indicator after `elapsed_ms`.
pub open spec fn working_line(elapsed_ms: u64) -> Seq<char> {
    AI_WORKING_TEXT@ + dots(working_dots(elapsed_ms))
}

/// The text of the working indicator after `elapsed_ms`.
pub fn working_text(elapsed_ms: u64) -> (text: String)
    ensures
        text@ == working_line(elapsed_ms),
{
    let dots_count = (elapsed_ms / AI_WORKING_DOT_INTERVAL) % AI_WORKING_DOT_MAX_COUNT;
    let mut text = AI_WORKING_TEXT.to_owned();
    let mut i: u64 = 0;
    assert(AI_WORKING_TEXT@ + dots(0) =~= AI_WORKING_TEXT@);
    while i < dots_count
        invariant
            i <= dots_count,
            text@ == AI_WORKING_TEXT@ + dots(i as nat),
        decreases dots_count - i,
    {
        text.append(AI_WORKING_DOT);
        i += 1;
        assert(AI_WORKING_TEXT@ + dots((i - 1) as nat) + AI_WORKING_DOT@ =~= AI_WORKING_TEXT@
            + dots(i as nat));
    }
    text
}

impl BlockModel {
    /// The lines that the entry shows.
    pub open spec fn shown_lines(self) -> Seq<Seq<char>> {
        match self {
            BlockModel::UserMessage { lines } => lines,
            BlockModel::AgentMessage { lines } => lines,
            BlockModel::AiWorking { elapsed_ms } => seq![working_line(elapsed_ms), Seq::empty()],
        }
    }
}

/// A copy of the lines.
fn copy_lines(lines: &Vec<String>) -> (copy: Vec<String>)
    ensures
        texts_of(copy@) == texts_of(lines@),
{
    let mut copy: Vec<String> = Vec::new();
    let mut i: usize = 0;
    while i < lines.len()
        invariant
            i <= lines@.len(),
            copy@.len() == i,
            forall|k: int| 0 <= k < i ==> (#[trigger] copy@[k])@ == lines@[k]@,
        decreases lines@.len() - i,
    {
        copy.push(lines[i].clone());
        i += 1;
    }
    assert(texts_of(copy@) =~= texts_of(lines@));
    copy
}

impl ChatHistoryBlock {
    /// The lines that the entry shows, to be wrapped and painted.
    pub fn display_lines(&self) -> (lines: Vec<String>)
        ensures
            texts_of(lines@) == self@.shown_lines(),
    {
        match self {
            ChatHistoryBlock::UserMessage { view } => copy_lines(&view.lines),
            ChatHistoryBlock::AgentMessage { view } => copy_lines(&view.lines),
            ChatHistoryBlock::AiWorking { elapsed_ms } => {
                let mut lines: Vec<String> = Vec::new();
                lines.push(working_text(*elapsed_ms));
                lines.push(String::new());
                assert(texts_of(lines@) =~= self@.shown_lines());
                lines
            },
        }
    }

    /// A working indicator that has just started.
    pub fn new_ai_working() -> (block: ChatHistoryBlock)
        ensures
            block@ == (BlockModel::AiWorking { elapsed_ms: 0 }),
    {
        ChatHistoryBlock::AiWorking { elapsed_ms: 0 }
    }

    /// A message of the user.
    pub fn new_user_message(message: String) -> (block: ChatHistoryBlock)
        ensures
            block@ == (BlockModel::UserMessage {
                lines: message_lines(USER_MESSAGE_PREFIX@, message@),
            }),
    {
        ChatHistoryBlock::UserMessage {
            view: TextBlock::new(build_message_lines(USER_MESSAGE_PREFIX, message.as_str())),
        }
    }

    /// A message of the agent.
    pub fn new_agent_message(message: String) -> (block: ChatHistoryBlock)
        ensures
            block@ == (BlockModel::AgentMessage {
                lines: message_lines(AGENT_MESSAGE_PREFIX@, message@),
            }),
    {
        ChatHistoryBlock::AgentMessage {
            view: TextBlock::new(build_message_lines(AGENT_MESSAGE_PREFIX, message.as_str())),
        }
    }

    /// The rows of the entry when it is painted `width` columns wide.
    pub fn height(&self, width: u16) -> (rows: usize)
        ensures
            rows == self@.rows_at(width as nat),
            1 <= rows <= MAX_TOTAL_LINES,
    {
        match self {
            ChatHistoryBlock::UserMessage { view } => measured_rows(view, width),
            ChatHistoryBlock::AgentMessage { view } => measured_rows(view, width),
            ChatHistoryBlock::AiWorking { .. } => AI_WORKING_ROWS,
        }
    }

    /// The rows of the entry by the estimate.
    pub fn estimated_height(&self) -> (rows: usize)
        ensures
            rows == self@.rows_estimated(),
            rows <= MAX_TOTAL_LINES,
    {
        match self {
            ChatHistoryBlock::UserMessage { view } => estimate_rows(view.lines.len()),
            ChatHistoryBlock::AgentMessage { view } => estimate_rows(view.lines.len()),
            ChatHistoryBlock::AiWorking { .. } => AI_WORKING_ROWS,
        }
    }
}

/// The rows of a text block at `width` columns. A block of many lines is
/// estimated before any line is measured.
fn measured_rows(view: &TextBlock, width: u16) -> (rows: usize)
    ensures
        rows == text_rows(widths_of_lines(view@), width as nat),
        1 <= rows <= MAX_TOTAL_LINES,
{
    if width == 0 || view.lines.len() == 0 {
        return 1;
    }
    if view.lines.len() > MAX_LINES_EXACT {
        return estimate_rows(view.lines.len());
    }
    let widths = view.measure();
    assert(widths_of(widths@) =~= view.line_widths());
    wrapped_rows(&widths, width)
}

/// Builds the lines of a message from its text.
fn build_message_lines(prefix: &str, message: &str) -> (lines: Vec<String>)
    ensures
        texts_of(lines@) == message_lines(prefix@, message@),
{
    let raw = text_lines(message);
    let mut lines: Vec<String> = Vec::new();
    let mut i: usize = 0;
    while i < raw.len()
        invariant
            i <= raw@.len(),
            lines@.len() == i,
            texts_of(raw@) == split_lines(message@),
            forall|k: int|
                0 <= k < i ==> (#[trigger] lines@[k])@ == message_lines(prefix@, message@)[k],
        decreases raw@.len() - i,
    {
        assert(texts_of(raw@)[i as int] == raw@[i as int]@);
        let head = if i == 0 {
            prefix
        } else {
            CONTINUATION_PREFIX
        };
        let line = head.to_owned().concat(raw[i].as_str());
        lines.push(line);
        i += 1;
    }
    lines.push(String::new());
    assert(texts_of(raw@).len() == raw@.len());
    assert(texts_of(lines@) =~= message_lines(prefix@, message@));
    lines
}

/// An entry of the transcript with its cached row count.
#[derive(Debug)]
pub struct Entry {
    pub cell: ChatHistoryBlock,
    pub line_count: usize,
}

/// An entry of the transcript as plain values.
pub struct EntryModel {
    pub block: BlockModel,
    pub line_count: usize,
}

impl View for Entry {
    type V = EntryModel;

    open spec fn view(&self) -> EntryModel {
        EntryModel { block: self.cell@, line_count: self.line_count }
    }
}

/// The entries as plain values.
pub open spec fn models_of(entries: Seq<Entry>) -> Seq<EntryModel> {
    Seq::new(entries.len(), |i: int| entries[i]@)
}

/// Where the viewport stands.
#[derive(Debug, Clone, Copy, PartialEq, Eq, Structural)]
pub enum ScrollOffset {
    /// Always show the newest content.
    Pinned,
    /// Show from this row of the transcript on.
    Row(usize),
}

/// The transcript and its viewport as plain values.
pub struct HistoryModel {
    /// The entries in the order in which they were appended.
    pub entries: Seq<EntryModel>,
    /// The width for which the row counts were cached; 0 before the first frame.
    pub cached_width: u16,
    pub scroll: ScrollOffset,
    /// The rows of the transcript as of the last frame.
    pub total_rows: usize,
    /// The height of the viewport as of the last frame.
    pub viewport_height: usize,
    pub has_input_focus: bool,
    pub mouse_capture_active: bool,
}

/// The sum of the cached row counts of the first `n` entries.
pub open spec fn cached_rows(entries: Seq<EntryModel>, n: nat) -> nat
    decreases n,
{
    if n == 0 || n > entries.len() {
        0
    } else {
        (cached_rows(entries, (n - 1) as nat) + entries[n - 1].line_count) as nat
    }
}

/// The sum of the rows of the first `n` entries at `width`, each measured
/// on its own.
pub open spec fn measured_sum(entries: Seq<EntryModel>, width: nat, n: nat) -> nat
    decreases n,
{
    if n == 0 || n > entries.len() {
        0
    } else {
        measured_sum(entries, width, (n - 1) as nat) + entries[n - 1].block.rows_at(width)
    }
}

/// The rows of the transcript by the cached counts of all its entries,
/// held to the cap.
pub open spec fn cached_total(entries: Seq<EntryModel>) -> nat {
    let sum = cached_rows(entries, entries.len());
    if sum <= MAX_RENDERED_LINES {
        sum
    } else {
        MAX_RENDERED_LINES as nat
    }
}

/// On a change of width, entry `i` is measured if the entries before it
/// have not filled the cap.
pub open spec fn is_measured(entries: Seq<EntryModel>, width: nat, i: int) -> bool {
    &&& 0 <= i < entries.len()
    &&& measured_sum(entries, width, i as nat) <= MAX_RENDERED_LINES
}

/// The row count that entry `i` gets on a change of width: its measure, or
/// the estimate for an entry that is not measured.
pub open spec fn recounted_rows(entries: Seq<EntryModel>, width: nat, i: int) -> nat {
    if is_measured(entries, width, i) {
        entries[i].block.rows_at(width)
    } else {
        entries[i].block.rows_estimated()
    }
}

/// The entries with their row counts for a new width.
pub open spec fn recounted(entries: Seq<EntryModel>, width: nat) -> Seq<EntryModel> {
    Seq::new(
        entries.len(),
        |i: int|
            EntryModel {
                block: entries[i].block,
                line_count: recounted_rows(entries, width, i) as usize,
            },
    )
}

/// The largest offset that still fills a viewport of `height` rows.
pub open spec fn max_offset(total: nat, height: nat) -> nat {
    if total >= height {
        (total - height) as nat
    } else {
        0
    }
}

/// `a - b`, or 0 where that is negative.
pub open spec fn minus_or_zero(a: nat, b: nat) -> nat {
    if a >= b {
        (a - b) as nat
    } else {
        0
    }
}

impl HistoryModel {
    /// No two entries are working indicators.
    pub open spec fn at_most_one_indicator(self) -> bool {
        forall|i: int, j: int|
            0 <= i < self.entries.len() && 0 <= j < self.entries.len()
                && self.entries[i].block.is_working() && self.entries[j].block.is_working() ==> i
                == j
    }

    /// The transcript holds a working indicator.
    pub open spec fn has_indicator(self) -> bool {
        exists|i: int| 0 <= i < self.entries.len() && self.entries[i].block.is_working()
    }

    /// The model after `cell` was appended: the entry is measured at the
    /// cached width, the viewport is pinned, and nothing else changes.
    pub open spec fn appended(self, cell: BlockModel) -> HistoryModel {
        HistoryModel {
            entries: self.entries.push(
                EntryModel {
                    block: cell,
                    line_count: if self.cached_width > 0 {
                        cell.rows_at(self.cached_width as nat) as usize
                    } else {
                        0
                    },
                },
            ),
            scroll: ScrollOffset::Pinned,
            ..self
        }
    }

    /// The model without its working indicators.
    pub open spec fn without_indicator(self) -> HistoryModel {
        HistoryModel {
            entries: self.entries.filter(|entry: EntryModel| !entry.block.is_working()),
            ..self
        }
    }

    /// The model after every working indicator was set to `elapsed_ms`.
    pub open spec fn with_elapsed(self, elapsed_ms: u64) -> HistoryModel {
        HistoryModel {
            entries: Seq::new(
                self.entries.len(),
                |i: int|
                    if self.entries[i].block.is_working() {
                        EntryModel {
                            block: BlockModel::AiWorking { elapsed_ms },
                            line_count: self.entries[i].line_count,
                        }
                    } else {
                        self.entries[i]
                    },
            ),
            ..self
        }
    }

    /// The model after the transcript was emptied.
    pub open spec fn cleared(self) -> HistoryModel {
        HistoryModel {
            entries: Seq::empty(),
            scroll: ScrollOffset::Pinned,
            total_rows: 0,
            viewport_height: 0,
            ..self
        }
    }

    /// The offset that pinned stands for, and from which scrolling down
    /// pins the viewport: the rows of the transcript less the height of
    /// the viewport.
    pub open spec fn pinned_offset(self) -> nat {
        max_offset(self.total_rows as nat, self.viewport_height as nat)
    }

    /// The offset that a frame is painted from.
    pub open spec fn resolved_offset(self) -> nat {
        match self.scroll {
            ScrollOffset::Pinned => self.pinned_offset(),
            ScrollOffset::Row(row) => if row <= self.pinned_offset() {
                row as nat
            } else {
                self.pinned_offset()
            },
        }
    }

    /// The model after scrolling up by `rows`.
    pub open spec fn scrolled_up(self, rows: nat) -> HistoryModel {
        let from = match self.scroll {
            ScrollOffset::Pinned => self.pinned_offset(),
            ScrollOffset::Row(row) => row as nat,
        };
        HistoryModel { scroll: ScrollOffset::Row(minus_or_zero(from, rows) as usize), ..self }
    }

    /// The model after scrolling down by `rows`.
    pub open spec fn scrolled_down(self, rows: nat) -> HistoryModel {
        match self.scroll {
            ScrollOffset::Pinned => self,
            ScrollOffset::Row(row) => if row + rows >= self.pinned_offset() {
                HistoryModel { scroll: ScrollOffset::Pinned, ..self }
            } else {
                HistoryModel { scroll: ScrollOffset::Row((row + rows) as usize), ..self }
            },
        }
    }

    /// The model after scrolling up by a page: by the height of the
    /// viewport.
    pub open spec fn paged_up(self) -> HistoryModel {
        self.scrolled_up(self.viewport_height as nat)
    }

    /// The model after scrolling down by a page: by the height of the
    /// viewport.
    pub open spec fn paged_down(self) -> HistoryModel {
        self.scrolled_down(self.viewport_height as nat)
    }

    /// The model after scrolling by `delta` rows, downwards where positive.
    pub open spec fn scrolled(self, delta: int) -> HistoryModel {
        if delta < 0 {
            self.scrolled_up((-delta) as nat)
        } else if delta > 0 {
            self.scrolled_down(delta as nat)
        } else {
            self
        }
    }

    /// The model after the key was handled: the arrows and `k`, `j` scroll
    /// by a row, the page keys, `b` and the space bar by a page.
    pub open spec fn after_key(self, code: KeyCode) -> HistoryModel {
        match code {
            KeyCode::Up => self.scrolled_up(1),
            KeyCode::Down => self.scrolled_down(1),
            KeyCode::PageUp => self.paged_up(),
            KeyCode::PageDown => self.paged_down(),
            KeyCode::Char(c) => if c == 'k' {
                self.scrolled_up(1)
            } else if c == 'j' {
                self.scrolled_down(1)
            } else if c == 'b' {
                self.paged_up()
            } else if c == ' ' {
                self.paged_down()
            } else {
                self
            },
            _ => self,
        }
    }
}

/// The key scrolls the transcript.
pub open spec fn is_scroll_key(code: KeyCode) -> bool {
    match code {
        KeyCode::Up | KeyCode::Down | KeyCode::PageUp | KeyCode::PageDown => true,
        KeyCode::Char(c) => c == 'k' || c == 'j' || c == 'b' || c == ' ',
        _ => false,
    }
}

/// Taking the working indicators away from the entries takes them away
/// from the entries as plain values.
proof fn lemma_models_of_kept(entries: Seq<Entry>)
    ensures
        models_of(entries.filter(|entry: Entry| !entry@.block.is_working())) == models_of(
            entries,
        ).filter(|entry: EntryModel| !entry.block.is_working()),
    decreases entries.len(),
{
    reveal(Seq::filter);
    let keep = |entry: Entry| !entry@.block.is_working();
    let keep_model = |entry: EntryModel| !entry.block.is_working();
    if entries.len() == 0 {
        assert(models_of(entries.filter(keep)) =~= models_of(entries).filter(keep_model));
    } else {
        lemma_models_of_kept(entries.drop_last());
        assert(models_of(entries).drop_last() =~= models_of(entries.drop_last()));
        assert(models_of(entries).last() == entries.last()@);
        if keep(entries.last()) {
            assert(models_of(entries.drop_last().filter(keep).push(entries.last()))
                =~= models_of(entries.drop_last().filter(keep)).push(entries.last()@));
        }
    }
}

/// The transcript with its cached row counts, and the state of the viewport.
pub struct ChatHistoryState {
    entries: Vec<Entry>,
    /// Width used for the cached row counts.
    cached_width: u16,
    /// Current scroll position.
    scroll_position: ScrollOffset,
    /// Rows of the transcript as of the last frame.
    num_rendered_lines: usize,
    /// Height of the viewport as of the last frame.
    last_viewport_height: usize,
    /// Whether this widget has input focus.
    has_input_focus: bool,
    /// Current mouse capture state.
    mouse_capture_active: bool,
}

impl View for ChatHistoryState {
    type V = HistoryModel;

    closed spec fn view(&self) -> HistoryModel {
        HistoryModel {
            entries: models_of(self.entries@),
            cached_width: self.cached_width,
            scroll: self.scroll_position,
            total_rows: self.num_rendered_lines,
            viewport_height: self.last_viewport_height,
            has_input_focus: self.has_input_focus,
            mouse_capture_active: self.mouse_capture_active,
        }
    }
}

impl Default for ChatHistoryState {
    /// An empty transcript, pinned to its end, with mouse capture on.
    fn default() -> (state: ChatHistoryState)
        ensures
            state@ == HistoryModel::empty(),
            state.inv(),
    {
        let state = ChatHistoryState {
            entries: Vec::new(),
            cached_width: 0,
            // Start in "stick to bottom" mode.
            scroll_position: ScrollOffset::Pinned,
            num_rendered_lines: 0,
            last_viewport_height: 0,
            has_input_focus: false,
            mouse_capture_active: true,
        };
        assert(state@.entries =~= Seq::empty());
        state
    }
}

impl ChatHistoryState {
    /// What every operation keeps: the transcript shows at most one working
    /// indicator.
    pub open spec fn inv(&self) -> bool {
        self@.at_most_one_indicator()
    }

    /// An empty transcript, pinned to its end, with mouse capture on.
    pub fn new() -> (state: ChatHistoryState)
        ensures
            state@ == HistoryModel::empty(),
            state.inv(),
    {
        ChatHistoryState::default()
    }

    pub fn set_input_focus(&mut self, has_input_focus: bool)
        ensures
            final(self)@ == (HistoryModel { has_input_focus, ..old(self)@ }),
            old(self).inv() ==> final(self).inv(),
    {
        self.has_input_focus = has_input_focus;
    }

    pub fn set_mouse_capture_active(&mut self, is_active: bool)
        ensures
            final(self)@ == (HistoryModel { mouse_capture_active: is_active, ..old(self)@ }),
            old(self).inv() ==> final(self).inv(),
    {
        self.mouse_capture_active = is_active;
    }

    /// Empties the transcript and forgets the last frame's measures.
    pub fn clear(&mut self)
        ensures
            final(self)@ == old(self)@.cleared(),
            old(self).inv() ==> final(self).inv(),
    {
        self.entries = Vec::new();
        self.scroll_position = ScrollOffset::Pinned;
        self.num_rendered_lines = 0;
        self.last_viewport_height = 0;
        assert(self@.entries =~= Seq::empty());
    }

    /// Appends a message of the user and pins the viewport.
    pub fn add_user_message(&mut self, message: String)
        ensures
            final(self)@ == old(self)@.appended(
                BlockModel::UserMessage { lines: message_lines(USER_MESSAGE_PREFIX@, message@) },
            ),
            old(self).inv() ==> final(self).inv(),
    {
        let cell = ChatHistoryBlock::new_user_message(message);
        self.add_to_history(cell);
    }

    /// Appends a message of the agent and pins the viewport.
    pub fn add_agent_message(&mut self, message: String)
        ensures
            final(self)@ == old(self)@.appended(
                BlockModel::AgentMessage { lines: message_lines(AGENT_MESSAGE_PREFIX@, message@) },
            ),
            old(self).inv() ==> final(self).inv(),
    {
        let cell = ChatHistoryBlock::new_agent_message(message);
        self.add_to_history(cell);
    }

    /// Appends an entry that is no working indicator.
    fn add_to_history(&mut self, cell: ChatHistoryBlock)
        requires
            !cell@.is_working(),
        ensures
            final(self)@ == old(self)@.appended(cell@),
            old(self).inv() ==> final(self).inv(),
    {
        let ghost before = self.entries@;
        let width = self.cached_width;
        let count = if width > 0 {
            cell.height(width)
        } else {
            0
        };
        self.entries.push(Entry { cell, line_count: count });
        // Adding a new entry pins the viewport to the end.
        self.scroll_position = ScrollOffset::Pinned;
        assert(models_of(self.entries@) =~= models_of(before).push(self.entries@.last()@));
    }

    /// Shows the working indicator at the end of the transcript. An
    /// indicator that was shown before is taken away, so that only one
    /// is ever shown.
    pub fn add_ai_working(&mut self)
        ensures
            final(self)@ == old(self)@.without_indicator().appended(
                BlockModel::AiWorking { elapsed_ms: 0 },
            ),
            final(self).inv(),
    {
        self.remove_ai_working();
        let width = self.cached_width;
        let cell = ChatHistoryBlock::new_ai_working();
        let count = if width > 0 {
            cell.height(width)
        } else {
            0
        };
        let ghost before = self.entries@;
        self.entries.push(Entry { cell, line_count: count });
        self.scroll_position = ScrollOffset::Pinned;
        assert(models_of(self.entries@) =~= models_of(before).push(self.entries@.last()@));
    }

    /// Takes the working indicator away. The other entries stay, in their
    /// order, and the viewport stays where it is.
    pub fn remove_ai_working(&mut self)
        ensures
            final(self)@ == old(self)@.without_indicator(),
            !final(self)@.has_indicator(),
            final(self).inv(),
    {
        let ghost before = self.entries@;
        let ghost keep = |entry: Entry| !entry@.block.is_working();
        let mut kept: usize = 0;
        let ghost mut seen: int = 0;
        proof {
            reveal(Seq::filter);
            assert(before.subrange(0, 0).filter(keep) =~= self.entries@.subrange(0, 0));
        }
        while kept < self.entries.len()
            invariant
                0 <= seen <= before.len(),
                kept <= self.entries@.len(),
                keep == |entry: Entry| !entry@.block.is_working(),
                self.entries@.len() - kept == before.len() - seen,
                self.entries@.subrange(0, kept as int) == before.subrange(0, seen).filter(keep),
                self.entries@.subrange(kept as int, self.entries@.len() as int)
                    == before.subrange(seen, before.len() as int),
                self.cached_width == old(self).cached_width,
                self.scroll_position == old(self).scroll_position,
                self.num_rendered_lines == old(self).num_rendered_lines,
                self.last_viewport_height == old(self).last_viewport_height,
                self.has_input_focus == old(self).has_input_focus,
                self.mouse_capture_active == old(self).mouse_capture_active,
            decreases self.entries@.len() - kept,
        {
            let ghost current = self.entries@;
            let ghost tail = current.subrange(kept as int, current.len() as int);
            proof {
                reveal(Seq::filter);
                assert(current[kept as int] == current.subrange(
                    kept as int,
                    current.len() as int,
                )[0]);
                assert(before.subrange(0, seen + 1).drop_last() =~= before.subrange(0, seen));
                assert(before.subrange(0, seen + 1).last() == before[seen]);
                assert(tail == before.subrange(seen, before.len() as int));
                assert(tail[0] == before[seen]);
            }
            let is_indicator = match self.entries[kept].cell {
                ChatHistoryBlock::AiWorking { .. } => true,
                _ => false,
            };
            if is_indicator {
                self.entries.remove(kept);
                proof {
                    assert(self.entries@.subrange(0, kept as int) =~= current.subrange(
                        0,
                        kept as int,
                    ));
                    assert(self.entries@.subrange(kept as int, self.entries@.len() as int)
                        =~= tail.subrange(1, tail.len() as int));
                    assert(tail.subrange(1, tail.len() as int) =~= before.subrange(
                        seen + 1,
                        before.len() as int,
                    ));
                }
            } else {
                proof {
                    assert(current.subrange(0, kept + 1) =~= current.subrange(
                        0,
                        kept as int,
                    ).push(current[kept as int]));
                    assert(current.subrange(kept + 1, current.len() as int) =~= tail.subrange(
                        1,
                        tail.len() as int,
                    ));
                    assert(tail.subrange(1, tail.len() as int) =~= before.subrange(
                        seen + 1,
                        before.len() as int,
                    ));
                }
                kept += 1;
            }
            proof {
                seen = seen + 1;
            }
        }
        proof {
            assert(self.entries@.subrange(0, kept as int) =~= self.entries@);
            assert(before.subrange(0, seen) =~= before);
            assert forall|i: int| 0 <= i < self.entries@.len() implies !(
            #[trigger] self.entries@[i])@.block.is_working() by {
                before.lemma_filter_pred(keep, i);
            }
            lemma_models_of_kept(before);
        }
    }

    /// Sets the elapsed time of the working indicator.
    pub fn update_ai_working(&mut self, elapsed_ms: u64)
        ensures
            final(self)@ == old(self)@.with_elapsed(elapsed_ms),
            old(self).inv() ==> final(self).inv(),
    {
        let ghost before = self.entries@;
        let mut i: usize = 0;
        while i < self.entries.len()
            invariant
                i <= self.entries@.len(),
                self.entries@.len() == before.len(),
                forall|k: int|
                    0 <= k < i ==> (#[trigger] self.entries@[k])@ == old(self)@.with_elapsed(
                        elapsed_ms,
                    ).entries[k],
                forall|k: int| i <= k < before.len() ==> #[trigger] self.entries@[k] == before[k],
                before == old(self).entries@,
                self.cached_width == old(self).cached_width,
                self.scroll_position == old(self).scroll_position,
                self.num_rendered_lines == old(self).num_rendered_lines,
                self.last_viewport_height == old(self).last_viewport_height,
                self.has_input_focus == old(self).has_input_focus,
                self.mouse_capture_active == old(self).mouse_capture_active,
            decreases self.entries@.len() - i,
        {
            let is_indicator = match self.entries[i].cell {
                ChatHistoryBlock::AiWorking { .. } => true,
                _ => false,
            };
            if is_indicator {
                let line_count = self.entries[i].line_count;
                self.entries.set(
                    i,
                    Entry { cell: ChatHistoryBlock::AiWorking { elapsed_ms }, line_count },
                );
            }
            i += 1;
        }
        assert(models_of(self.entries@) =~= old(self)@.with_elapsed(elapsed_ms).entries);
    }

    /// Tells whether the transcript shows the working indicator.
    pub fn has_ai_working(&self) -> (shown: bool)
        ensures
            shown == self@.has_indicator(),
    {
        let mut i: usize = 0;
        while i < self.entries.len()
            invariant
                i <= self.entries@.len(),
                forall|k: int| 0 <= k < i ==> !(#[trigger] self.entries@[k])@.block.is_working(),
            decreases self.entries@.len() - i,
        {
            let is_indicator = match self.entries[i].cell {
                ChatHistoryBlock::AiWorking { .. } => true,
                _ => false,
            };
            if is_indicator {
                assert(models_of(self.entries@)[i as int].block.is_working());
                return true;
            }
            i += 1;
        }
        assert forall|k: int| 0 <= k < self@.entries.len() implies !self@.entries[k].block.is_working() by {
            assert(self@.entries[k] == self.entries@[k]@);
        }
        false
    }

    /// The number of entries.
    pub fn len(&self) -> (count: usize)
        ensures
            count == self@.entries.len(),
    {
        self.entries.len()
    }

    /// The entry of the given index.
    pub fn entry(&self, index: usize) -> (entry: &Entry)
        requires
            index < self@.entries.len(),
        ensures
            entry@ == self@.entries[index as int],
    {
        &self.entries[index]
    }

    /// The width for which the row counts are cached.
    pub fn cached_width(&self) -> (width: u16)
        ensures
            width == self@.cached_width,
    {
        self.cached_width
    }

    /// Where the viewport stands.
    pub fn scroll_position(&self) -> (scroll: ScrollOffset)
        ensures
            scroll == self@.scroll,
    {
        self.scroll_position
    }

    /// The rows of the transcript as of the last frame.
    pub fn total_rows(&self) -> (rows: usize)
        ensures
            rows == self@.total_rows,
    {
        self.num_rendered_lines
    }

    /// The height of the viewport as of the last frame.
    pub fn viewport_height(&self) -> (rows: usize)
        ensures
            rows == self@.viewport_height,
    {
        self.last_viewport_height
    }

    /// Tells whether the widget has input focus.
    pub fn has_input_focus(&self) -> (focused: bool)
        ensures
            focused == self@.has_input_focus,
    {
        self.has_input_focus
    }

    /// Tells whether the transcript shows mouse capture as switched on.
    pub fn mouse_capture_active(&self) -> (active: bool)
        ensures
            active == self@.mouse_capture_active,
    {
        self.mouse_capture_active
    }

    /// The title of the transcript's border: what the keys do while the
    /// widget has focus, and the state of mouse capture.
    pub fn title(&self) -> (title: String)
        ensures
            title@ == title_text(self@.has_input_focus, self@.mouse_capture_active),
    {
        let head = if self.has_input_focus {
            CHAT_HISTORY_TITLE_FOCUSED
        } else {
            CHAT_HISTORY_TITLE_UNFOCUSED
        };
        let indicator = if self.mouse_capture_active {
            MOUSE_INDICATOR_ON
        } else {
            MOUSE_INDICATOR_OFF
        };
        head.to_owned().concat(" ").concat(indicator)
    }
}

/// The title of the transcript's border.
pub open spec fn title_text(focused: bool, mouse_capture: bool) -> Seq<char> {
    (if focused {
        CHAT_HISTORY_TITLE_FOCUSED@
    } else {
        CHAT_HISTORY_TITLE_UNFOCUSED@
    }) + " "@ + (if mouse_capture {
        MOUSE_INDICATOR_ON@
    } else {
        MOUSE_INDICATOR_OFF@
    })
}

/// The widget that scrolls and lays out the transcript.
pub struct ChatHistory {}

impl ChatHistory {
    pub fn new() -> (widget: ChatHistory) {
        ChatHistory {  }
    }

    /// Scrolls by `delta` rows: up where it is negative, down where it is
    /// positive.
    pub fn scroll(&self, delta: i32, state: &mut ChatHistoryState)
        ensures
            final(state)@ == old(state)@.scrolled(delta as int),
    {
        if delta < 0 {
            let rows: u32 = if delta == i32::MIN {
                2147483648u32
            } else {
                (-delta) as u32
            };
            self.scroll_up(rows, state);
        } else if delta > 0 {
            self.scroll_down(delta as u32, state);
        }
    }

    /// Scrolls up by `num_lines` rows. A pinned viewport first takes the
    /// offset that it shows; the offset never goes below 0.
    pub fn scroll_up(&self, num_lines: u32, state: &mut ChatHistoryState)
        ensures
            final(state)@ == old(state)@.scrolled_up(num_lines as nat),
    {
        let from = match state.scroll_position {
            ScrollOffset::Pinned => state.num_rendered_lines.saturating_sub(
                state.last_viewport_height,
            ),
            ScrollOffset::Row(row) => row,
        };
        state.scroll_position = ScrollOffset::Row(from.saturating_sub(num_lines as usize));
    }

    /// Scrolls down by `num_lines` rows. The viewport is pinned as soon as
    /// the offset reaches the rows of the transcript less the height of
    /// the viewport.
    pub fn scroll_down(&self, num_lines: u32, state: &mut ChatHistoryState)
        ensures
            final(state)@ == old(state)@.scrolled_down(num_lines as nat),
    {
        match state.scroll_position {
            ScrollOffset::Pinned => {},
            ScrollOffset::Row(row) => {
                let max_scroll = state.num_rendered_lines.saturating_sub(
                    state.last_viewport_height,
                );
                let new_pos = row.saturating_add(num_lines as usize);
                if new_pos >= max_scroll {
                    state.scroll_position = ScrollOffset::Pinned;
                } else {
                    state.scroll_position = ScrollOffset::Row(new_pos);
                }
            },
        }
    }

    /// Scrolls where the key is a scroll key. Returns true if the key was
    /// one, in which case a frame is due.
    pub fn handle_key_event(&self, key_event: KeyEvent, state: &mut ChatHistoryState) -> (handled:
        bool)
        ensures
            handled == is_scroll_key(key_event.code),
            final(state)@ == old(state)@.after_key(key_event.code),
    {
        match key_event.code {
            KeyCode::Up => {
                self.scroll_up(1, state);
                true
            },
            KeyCode::Down => {
                self.scroll_down(1, state);
                true
            },
            KeyCode::PageUp => {
                self.scroll_page_up(state);
                true
            },
            KeyCode::PageDown => {
                self.scroll_page_down(state);
                true
            },
            KeyCode::Char(c) => {
                if c == 'k' {
                    self.scroll_up(1, state);
                    true
                } else if c == 'j' {
                    self.scroll_down(1, state);
                    true
                } else if c == 'b' {
                    self.scroll_page_up(state);
                    true
                } else if c == ' ' {
                    self.scroll_page_down(state);
                    true
                } else {
                    false
                }
            },
            _ => false,
        }
    }

    /// Scrolls up by a page.
    pub fn scroll_page_up(&self, state: &mut ChatHistoryState)
        ensures
            final(state)@ == old(state)@.paged_up(),
    {
        let viewport_height = state.last_viewport_height;
        let from = match state.scroll_position {
            ScrollOffset::Pinned => state.num_rendered_lines.saturating_sub(viewport_height),
            ScrollOffset::Row(row) => row,
        };
        state.scroll_position = ScrollOffset::Row(from.saturating_sub(viewport_height));
    }

    /// Scrolls down by a page.
    pub fn scroll_page_down(&self, state: &mut ChatHistoryState)
        ensures
            final(state)@ == old(state)@.paged_down(),
    {
        match state.scroll_position {
            ScrollOffset::Pinned => {},
            ScrollOffset::Row(row) => {
                let viewport_height = state.last_viewport_height;
                let max_scroll = state.num_rendered_lines.saturating_sub(viewport_height);
                let new_pos = row.saturating_add(viewport_height);
                if new_pos >= max_scroll {
                    state.scroll_position = ScrollOffset::Pinned;
                } else {
                    state.scroll_position = ScrollOffset::Row(new_pos);
                }
            },
        }
    }
}


/// The part of an entry that a frame shows, and where it is painted.
#[derive(Debug, Clone, Copy, PartialEq, Eq, Structural)]
pub struct EntryWindow {
    /// The index of the entry in the transcript.
    pub entry: usize,
    /// The rows of the entry that lie above the viewport.
    pub skip_rows: usize,
    /// The cells that the rows below those are painted in.
    pub area: Rect,
}

/// What the scrollbar is painted from.
#[derive(Debug, Clone, Copy, PartialEq, Eq, Structural)]
pub struct ScrollbarPlan {
    pub content_length: usize,
    pub position: usize,
}

/// What one frame shows of the transcript.
#[derive(Debug)]
pub struct HistoryFrame {
    /// The entries that show, from the top of the viewport down.
    pub windows: Vec<EntryWindow>,
    /// The scrollbar, if the frame shows any content.
    pub scrollbar: Option<ScrollbarPlan>,
}

/// The columns that entries are painted in: those of the inner area less
/// one for the scrollbar.
pub open spec fn content_width(inner: Rect) -> u16 {
    if inner.width >= 1 {
        (inner.width - 1) as u16
    } else {
        0
    }
}

/// Entry `i` has a row among the `height` rows from row `top` on.
pub open spec fn is_visible(entries: Seq<EntryModel>, i: int, top: nat, height: nat) -> bool {
    &&& 0 <= i < entries.len()
    &&& entries[i].line_count > 0
    &&& cached_rows(entries, i as nat) < top + height
    &&& cached_rows(entries, i as nat) + entries[i].line_count > top
}

/// The window of a visible entry `i`: it skips the rows above `top`, ends
/// with the entry or with the viewport, and lies as far below the top of
/// `inner` as its first shown row lies below `top`.
pub open spec fn window_of(entries: Seq<EntryModel>, i: int, top: nat, inner: Rect) -> EntryWindow {
    let start = cached_rows(entries, i as nat);
    let end = start + entries[i].line_count;
    let first = if start >= top {
        start
    } else {
        top
    };
    let last = if end <= top + inner.height {
        end
    } else {
        top + inner.height
    };
    EntryWindow {
        entry: i as usize,
        skip_rows: (first - start) as usize,
        area: Rect {
            x: inner.x,
            y: (inner.y + (first - top)) as u16,
            width: content_width(inner),
            height: (last - first) as u16,
        },
    }
}

/// The windows of the visible ones among the first `n` entries, in order.
pub open spec fn windows_upto(entries: Seq<EntryModel>, n: nat, top: nat, inner: Rect) -> Seq<
    EntryWindow,
>
    decreases n,
{
    if n == 0 {
        Seq::empty()
    } else {
        let before = windows_upto(entries, (n - 1) as nat, top, inner);
        if is_visible(entries, n - 1, top, inner.height as nat) {
            before.push(window_of(entries, n - 1, top, inner))
        } else {
            before
        }
    }
}

/// The scrollbar for `total` rows seen through `height` rows from `top`.
/// The content is never shorter than the viewport, nor empty, and the
/// position never past the content less the viewport.
pub open spec fn scrollbar_of(total: nat, height: nat, top: nat) -> ScrollbarPlan {
    let content = if total >= height && total >= 1 {
        total
    } else if height >= 1 {
        height
    } else {
        1
    };
    let limit = minus_or_zero(content, height);
    ScrollbarPlan {
        content_length: content as usize,
        position: (if top <= limit {
            top
        } else {
            limit
        }) as usize,
    }
}

impl HistoryModel {
    /// The model after a frame was laid out in `inner`. A frame without
    /// room for content changes nothing. Any other frame recounts every
    /// entry if the width has changed, and stores the width, the rows of
    /// the transcript and the height of the viewport.
    pub open spec fn rendered(self, inner: Rect) -> HistoryModel {
        let width = content_width(inner);
        if width == 0 {
            self
        } else {
            let entries = if self.cached_width != width {
                recounted(self.entries, width as nat)
            } else {
                self.entries
            };
            HistoryModel {
                entries,
                cached_width: width,
                total_rows: cached_total(entries) as usize,
                viewport_height: inner.height as usize,
                ..self
            }
        }
    }

    /// The frame shows content: there is room for it, and rows to show.
    pub open spec fn shows_content(self, inner: Rect) -> bool {
        &&& content_width(inner) > 0
        &&& inner.height > 0
        &&& self.rendered(inner).total_rows > 0
    }

    /// `frame` is the frame of this transcript in `inner`. Where the frame
    /// shows content, it lists the windows of the visible entries, from
    /// the offset that the viewport resolves to after the frame's
    /// recount, and gives the scrollbar for that offset. Where it shows
    /// none, it has no window and no scrollbar.
    pub open spec fn is_shown_by(self, inner: Rect, frame: HistoryFrame) -> bool {
        let after = self.rendered(inner);
        if self.shows_content(inner) {
            &&& frame.windows@ == windows_upto(
                after.entries,
                after.entries.len(),
                after.resolved_offset(),
                inner,
            )
            &&& frame.scrollbar == Some(
                scrollbar_of(
                    after.total_rows as nat,
                    inner.height as nat,
                    after.resolved_offset(),
                ),
            )
        } else {
            &&& frame.windows@.len() == 0
            &&& frame.scrollbar.is_none()
        }
    }
}

/// The sums of the cached row counts grow with the number of entries.
pub proof fn lemma_cached_rows_grow(entries: Seq<EntryModel>, m: nat, n: nat)
    requires
        m <= n <= entries.len(),
    ensures
        cached_rows(entries, m) <= cached_rows(entries, n),
    decreases n,
{
    if m < n {
        lemma_cached_rows_grow(entries, m, (n - 1) as nat);
    }
}

/// The sums of the measured rows grow with the number of entries.
pub proof fn lemma_measured_sum_grows(entries: Seq<EntryModel>, width: nat, m: nat, n: nat)
    requires
        m <= n <= entries.len(),
    ensures
        measured_sum(entries, width, m) <= measured_sum(entries, width, n),
    decreases n,
{
    if m < n {
        lemma_measured_sum_grows(entries, width, m, (n - 1) as nat);
    }
}

/// The sums over the first entries depend on those entries alone.
pub proof fn lemma_sums_of_equal_prefixes(a: Seq<EntryModel>, b: Seq<EntryModel>, width: nat, n: nat)
    requires
        n <= a.len(),
        n <= b.len(),
        forall|k: int| 0 <= k < n ==> a[k].block == b[k].block,
    ensures
        measured_sum(a, width, n) == measured_sum(b, width, n),
        (forall|k: int| 0 <= k < n ==> a[k].line_count == b[k].line_count) ==> cached_rows(a, n)
            == cached_rows(b, n),
    decreases n,
{
    if n > 0 {
        lemma_sums_of_equal_prefixes(a, b, width, (n - 1) as nat);
    }
}

/// No entry from `from` on is visible once the rows before `from` reach
/// the end of the viewport.
pub proof fn lemma_no_window_below(entries: Seq<EntryModel>, from: nat, n: nat, top: nat, inner: Rect)
    requires
        from <= n <= entries.len(),
        cached_rows(entries, from) >= top + inner.height,
    ensures
        windows_upto(entries, n, top, inner) == windows_upto(entries, from, top, inner),
    decreases n,
{
    if from < n {
        lemma_no_window_below(entries, from, (n - 1) as nat, top, inner);
        lemma_cached_rows_grow(entries, from, (n - 1) as nat);
    }
}

impl ChatHistory {
    /// Lays out one frame of the transcript in `inner`, the area within
    /// the border. Row counts are recounted if the width has changed since
    /// the last frame, and are taken from the cache if not. The frame
    /// lists the entries that show and gives the scrollbar's measures.
    pub fn render(&self, inner: Rect, state: &mut ChatHistoryState) -> (frame: HistoryFrame)
        requires
            inner.fits(),
        ensures
            final(state)@ == old(state)@.rendered(inner),
            old(state).inv() ==> final(state).inv(),
            old(state)@.shows_content(inner) ==> frame.windows@ == windows_upto(
                final(state)@.entries,
                final(state)@.entries.len(),
                final(state)@.resolved_offset(),
                inner,
            ) && frame.scrollbar == Some(
                scrollbar_of(
                    final(state)@.total_rows as nat,
                    inner.height as nat,
                    final(state)@.resolved_offset(),
                ),
            ),
            !old(state)@.shows_content(inner) ==> frame.windows@.len() == 0
                && frame.scrollbar.is_none(),
    {
        // Reserve space for the scrollbar.
        let effective_width = inner.width.saturating_sub(1);
        if effective_width == 0 {
            return HistoryFrame { windows: Vec::new(), scrollbar: None };
        }
        if state.cached_width != effective_width {
            state.recount(effective_width);
        }
        let num_lines = state.cached_sum();
        let viewport_height = inner.height as usize;
        let max_scroll = num_lines.saturating_sub(viewport_height);
        let scroll_pos = match state.scroll_position {
            ScrollOffset::Pinned => max_scroll,
            ScrollOffset::Row(row) => if row <= max_scroll {
                row
            } else {
                max_scroll
            },
        };
        state.num_rendered_lines = num_lines;
        state.last_viewport_height = viewport_height;
        if num_lines == 0 || viewport_height == 0 {
            return HistoryFrame { windows: Vec::new(), scrollbar: None };
        }
        let windows = state.visible_windows(scroll_pos, inner, effective_width);

        // The scrollbar's measures, held to safe bounds.
        let at_least_viewport = if num_lines >= viewport_height {
            num_lines
        } else {
            viewport_height
        };
        let safe_content_length = if at_least_viewport >= 1 {
            at_least_viewport
        } else {
            1
        };
        let limit = safe_content_length.saturating_sub(viewport_height);
        let safe_scroll_pos = if scroll_pos <= limit {
            scroll_pos
        } else {
            limit
        };
        HistoryFrame {
            windows,
            scrollbar: Some(
                ScrollbarPlan { content_length: safe_content_length, position: safe_scroll_pos },
            ),
        }
    }
}

impl ChatHistoryState {
    /// Recounts every entry for `width`: the entries are measured in order,
    /// and those after the entry that fills the cap are estimated.
    fn recount(&mut self, width: u16)
        requires
            width > 0,
        ensures
            final(self)@ == (HistoryModel {
                entries: recounted(old(self)@.entries, width as nat),
                cached_width: width,
                ..old(self)@
            }),
    {
        let ghost before = models_of(self.entries@);
        self.cached_width = width;
        let mut sum: usize = 0;
        let mut over = false;
        let mut i: usize = 0;
        while i < self.entries.len()
            invariant
                width > 0,
                i <= self.entries@.len(),
                self.entries@.len() == before.len(),
                before == old(self)@.entries,
                forall|k: int|
                    0 <= k < before.len() ==> (#[trigger] self.entries@[k]).cell@
                        == before[k].block,
                forall|k: int|
                    0 <= k < i ==> (#[trigger] self.entries@[k]).line_count == recounted_rows(
                        before,
                        width as nat,
                        k,
                    ),
                !over ==> sum == measured_sum(
                    before,
                    width as nat,
                    i as nat,
                ) && sum <= MAX_RENDERED_LINES,
                over ==> measured_sum(before, width as nat, i as nat) > MAX_RENDERED_LINES,
                self.cached_width == width,
                self.scroll_position == old(self).scroll_position,
                self.num_rendered_lines == old(self).num_rendered_lines,
                self.last_viewport_height == old(self).last_viewport_height,
                self.has_input_focus == old(self).has_input_focus,
                self.mouse_capture_active == old(self).mouse_capture_active,
            decreases self.entries@.len() - i,
        {
            proof {
                lemma_measured_sum_grows(before, width as nat, i as nat, (i + 1) as nat);
            }
            if !over {
                let count = self.entries[i].cell.height(width);
                self.entries[i].line_count = count;
                sum = sum + count;
                if sum > MAX_RENDERED_LINES {
                    over = true;
                }
            } else {
                let count = self.entries[i].cell.estimated_height();
                self.entries[i].line_count = count;
            }
            i += 1;
        }
        assert(models_of(self.entries@) =~= recounted(before, width as nat));
    }

    /// The rows of the transcript by its cached counts, held to the cap.
    fn cached_sum(&self) -> (total: usize)
        ensures
            total == cached_total(self@.entries),
    {
        let mut total: usize = 0;
        let mut i: usize = 0;
        while i < self.entries.len()
            invariant
                i <= self.entries@.len(),
                total <= MAX_RENDERED_LINES,
                total == if cached_rows(self@.entries, i as nat) <= MAX_RENDERED_LINES {
                    cached_rows(self@.entries, i as nat)
                } else {
                    MAX_RENDERED_LINES as nat
                },
            decreases self.entries@.len() - i,
        {
            let count = self.entries[i].line_count;
            if count >= MAX_RENDERED_LINES - total {
                total = MAX_RENDERED_LINES;
            } else {
                total = total + count;
            }
            i += 1;
        }
        total
    }

    /// The windows of the entries that show in `inner` from row `top` on.
    fn visible_windows(&self, top: usize, inner: Rect, width: u16) -> (windows: Vec<EntryWindow>)
        requires
            inner.fits(),
            inner.height > 0,
            width == content_width(inner),
        ensures
            windows@ == windows_upto(
                self@.entries,
                self@.entries.len(),
                top as nat,
                inner,
            ),
    {
        let ghost entries = self@.entries;
        let mut windows: Vec<EntryWindow> = Vec::new();
        let mut y_cursor: u16 = inner.y;
        let mut remaining_height: usize = inner.height as usize;
        let mut lines_to_skip: usize = top;
        let mut i: usize = 0;
        while i < self.entries.len()
            invariant_except_break
                0 < remaining_height <= inner.height,
                lines_to_skip == minus_or_zero(top as nat, cached_rows(entries, i as nat)),
                inner.height - remaining_height == minus_or_zero(
                    cached_rows(entries, i as nat),
                    top as nat,
                ),
                y_cursor == inner.y + (inner.height - remaining_height),
                windows@ == windows_upto(entries, i as nat, top as nat, inner),
            invariant
                inner.fits(),
                inner.height > 0,
                width == content_width(inner),
                entries == self@.entries,
                i <= entries.len(),
            ensures
                windows@ == windows_upto(entries, entries.len(), top as nat, inner),
            decreases entries.len() - i,
        {
            let cell_height = self.entries[i].line_count;
            if lines_to_skip >= cell_height {
                lines_to_skip -= cell_height;
                i += 1;
                continue ;
            }
            let rest = cell_height - lines_to_skip;
            let visible_height = if rest <= remaining_height {
                rest
            } else {
                remaining_height
            };
            windows.push(
                EntryWindow {
                    entry: i,
                    skip_rows: lines_to_skip,
                    area: Rect {
                        x: inner.x,
                        y: y_cursor,
                        width,
                        height: visible_height as u16,
                    },
                },
            );
            assert(is_visible(entries, i as int, top as nat, inner.height as nat));
            assert(windows@.last() == window_of(entries, i as int, top as nat, inner));
            y_cursor = y_cursor + visible_height as u16;
            remaining_height -= visible_height;
            lines_to_skip = 0;
            i += 1;
            if remaining_height == 0 {
                proof {
                    lemma_no_window_below(entries, i as nat, entries.len(), top as nat, inner);
                }
                break ;
            }
        }
        windows
    }
}


/// The sum of `steps`.
pub open spec fn steps_sum(steps: Seq<nat>) -> nat
    decreases steps.len(),
{
    if steps.len() == 0 {
        0
    } else {
        steps_sum(steps.drop_last()) + steps.last()
    }
}

impl HistoryModel {
    /// The model of a transcript that was just made.
    pub open spec fn empty() -> HistoryModel {
        HistoryModel {
            entries: Seq::empty(),
            cached_width: 0,
            scroll: ScrollOffset::Pinned,
            total_rows: 0,
            viewport_height: 0,
            has_input_focus: false,
            mouse_capture_active: true,
        }
    }

    /// The model after the entries were appended one after another.
    pub open spec fn appended_all(self, cells: Seq<BlockModel>) -> HistoryModel
        decreases cells.len(),
    {
        if cells.len() == 0 {
            self
        } else {
            self.appended_all(cells.drop_last()).appended(cells.last())
        }
    }

    /// The model after scrolling down by each of `steps` in turn.
    pub open spec fn scrolled_down_all(self, steps: Seq<nat>) -> HistoryModel
        decreases steps.len(),
    {
        if steps.len() == 0 {
            self
        } else {
            self.scrolled_down_all(steps.drop_last()).scrolled_down(steps.last())
        }
    }

    /// Every cached row count is the entry's measure at the cached width.
    pub open spec fn cache_is_exact(self) -> bool {
        forall|i: int|
            0 <= i < self.entries.len() ==> (#[trigger] self.entries[i]).line_count
                == self.entries[i].block.rows_at(self.cached_width as nat)
    }
}

/// Appending leaves the cells of the transcript in the order of their
/// arrival and keeps the cached width.
pub proof fn lemma_appended_all_cells(model: HistoryModel, cells: Seq<BlockModel>)
    ensures
        model.appended_all(cells).entries.len() == model.entries.len() + cells.len(),
        model.appended_all(cells).cached_width == model.cached_width,
        forall|i: int|
            0 <= i < model.entries.len() ==> model.appended_all(cells).entries[i]
                == model.entries[i],
        forall|i: int|
            0 <= i < cells.len() ==> (#[trigger] model.appended_all(cells).entries[model.entries.len()
                + i]).block == cells[i],
        model.cached_width > 0 && model.cache_is_exact() ==> model.appended_all(
            cells,
        ).cache_is_exact(),
    decreases cells.len(),
{
    if cells.len() > 0 {
        lemma_appended_all_cells(model, cells.drop_last());
        let before = model.appended_all(cells.drop_last());
        let after = before.appended(cells.last());
        assert forall|i: int| 0 <= i < cells.len() implies (#[trigger] after.entries[model.entries.len()
            + i]).block == cells[i] by {
            if i < cells.len() - 1 {
                assert(before.entries[model.entries.len() + i].block == cells.drop_last()[i]);
            }
        }
        if model.cached_width > 0 && model.cache_is_exact() {
            lemma_text_rows_fit(cells.last(), model.cached_width as nat);
            assert forall|i: int| 0 <= i < after.entries.len() implies (
            #[trigger] after.entries[i]).line_count == after.entries[i].block.rows_at(
                after.cached_width as nat,
            ) by {
                if i < before.entries.len() {
                    assert(after.entries[i] == before.entries[i]);
                }
            }
        }
    }
}

/// No entry takes more rows than the largest estimate, measured or
/// estimated.
pub proof fn lemma_text_rows_fit(cell: BlockModel, width: nat)
    ensures
        cell.rows_at(width) <= MAX_TOTAL_LINES,
        cell.rows_estimated() <= MAX_TOTAL_LINES,
{
}

/// Where the cache is exact, its sums are the sums of the measures.
pub proof fn lemma_exact_cache_sums(model: HistoryModel, n: nat)
    requires
        model.cache_is_exact(),
        n <= model.entries.len(),
    ensures
        cached_rows(model.entries, n) == measured_sum(
            model.entries,
            model.cached_width as nat,
            n,
        ),
    decreases n,
{
    if n > 0 {
        lemma_exact_cache_sums(model, (n - 1) as nat);
    }
}

/// A transcript within the cap is measured entry by entry when the
/// width changes.
pub proof fn lemma_recount_within_caps_is_exact(model: HistoryModel, inner: Rect)
    requires
        content_width(inner) > 0,
        model.cached_width != content_width(inner),
        measured_sum(model.entries, content_width(inner) as nat, model.entries.len())
            <= MAX_RENDERED_LINES,
    ensures
        model.rendered(inner).cache_is_exact(),
{
    let width = content_width(inner) as nat;
    let after = model.rendered(inner);
    assert forall|i: int| 0 <= i < after.entries.len() implies (#[trigger] after.entries[i]).line_count
        == after.entries[i].block.rows_at(after.cached_width as nat) by {
        lemma_measured_sum_grows(model.entries, width, i as nat, model.entries.len());
        assert(is_measured(model.entries, width, i));
        lemma_text_rows_fit(model.entries[i].block, width);
    }
}

/// Cache and no cache agree. Take any entries, appended one after another
/// to an empty transcript that was framed before at the width or was not,
/// and few enough to stay within the cap on rows. The rows of the transcript in
/// the next frame, summed from the cache, are then the sum of the rows of
/// each entry measured on its own at that width.
pub proof fn lemma_cached_total_is_sum_of_measures(
    cells: Seq<BlockModel>,
    inner: Rect,
    framed_before: bool,
)
    requires
        content_width(inner) > 0,
        ({
            let all = HistoryModel::empty().appended_all(cells).entries;
            measured_sum(all, content_width(inner) as nat, all.len()) <= MAX_RENDERED_LINES
        }),
    ensures
        ({
            let start = if framed_before {
                HistoryModel::empty().rendered(inner)
            } else {
                HistoryModel::empty()
            };
            let all = start.appended_all(cells);
            all.rendered(inner).total_rows == measured_sum(
                all.entries,
                content_width(inner) as nat,
                all.entries.len(),
            )
        }),
{
    let width = content_width(inner) as nat;
    let unframed = HistoryModel::empty().appended_all(cells);
    let start = if framed_before {
        HistoryModel::empty().rendered(inner)
    } else {
        HistoryModel::empty()
    };
    let all = start.appended_all(cells);
    lemma_appended_all_cells(HistoryModel::empty(), cells);
    lemma_appended_all_cells(start, cells);
    assert(all.entries.len() == cells.len());
    assert forall|k: int| 0 <= k < cells.len() implies all.entries[k].block
        == unframed.entries[k].block by {
        assert(all.entries[start.entries.len() + k].block == cells[k]);
        assert(unframed.entries[HistoryModel::empty().entries.len() + k].block == cells[k]);
    }
    lemma_sums_of_equal_prefixes(all.entries, unframed.entries, width, cells.len());
    if framed_before {
        assert(start.cache_is_exact());
    } else {
        lemma_recount_within_caps_is_exact(all, inner);
    }
    let after = all.rendered(inner);
    assert(after.cache_is_exact());
    lemma_exact_cache_sums(after, cells.len());
    lemma_sums_of_equal_prefixes(after.entries, all.entries, width, cells.len());
}

/// A change of width leaves no stale count. The frame that follows it
/// gives every entry its count for the new width, the measure or the
/// estimate, and tags the cache with that width; a further frame in the
/// same area changes nothing, so that the entries are recounted once.
pub proof fn lemma_width_change_recounts_once(model: HistoryModel, inner: Rect)
    requires
        content_width(inner) > 0,
        model.cached_width != content_width(inner),
    ensures
        model.rendered(inner).cached_width == content_width(inner),
        model.rendered(inner).entries.len() == model.entries.len(),
        forall|i: int|
            0 <= i < model.entries.len() ==> {
                let entry = #[trigger] model.rendered(inner).entries[i];
                &&& entry.block == model.entries[i].block
                &&& entry.line_count == recounted_rows(
                    model.entries,
                    content_width(inner) as nat,
                    i,
                )
                &&& (entry.line_count == entry.block.rows_at(content_width(inner) as nat)
                    || entry.line_count == entry.block.rows_estimated())
            },
        model.rendered(inner).rendered(inner) == model.rendered(inner),
{
    let width = content_width(inner) as nat;
    assert forall|i: int| 0 <= i < model.entries.len() implies {
        let entry = #[trigger] model.rendered(inner).entries[i];
        &&& entry.block == model.entries[i].block
        &&& entry.line_count == recounted_rows(model.entries, width, i)
        &&& (entry.line_count == entry.block.rows_at(width) || entry.line_count
            == entry.block.rows_estimated())
    } by {
        lemma_text_rows_fit(model.entries[i].block, width);
    }
}

/// Scrolling down pins the viewport exactly when the offset reaches the
/// bound. Take a viewport at row `start` and scroll down one or more
/// times. It ends pinned if and only if `start` and the steps together
/// reach the rows of the transcript less the height of the viewport; if
/// it does not, its offset is that sum, which is below the bound.
pub proof fn lemma_scroll_down_pins_at_bound(model: HistoryModel, start: usize, steps: Seq<nat>)
    requires
        model.scroll == ScrollOffset::Row(start),
        steps.len() > 0,
    ensures
        ({
            let end = model.scrolled_down_all(steps);
            &&& end.scroll is Pinned <==> start + steps_sum(steps) >= model.pinned_offset()
            &&& end.scroll is Row ==> end.scroll == ScrollOffset::Row(
                (start + steps_sum(steps)) as usize,
            ) && start + steps_sum(steps) < model.pinned_offset()
            &&& end == (HistoryModel { scroll: end.scroll, ..model })
        }),
    decreases steps.len(),
{
    let head = steps.drop_last();
    if head.len() == 0 {
        assert(model.scrolled_down_all(head) == model);
        assert(steps_sum(head) == 0);
    } else {
        lemma_scroll_down_pins_at_bound(model, start, head);
    }
}

/// Appending an entry while scrolled up pins the viewport and changes
/// nothing else: the earlier entries, the cached width and the measures of
/// the last frame stay as they were.
pub proof fn lemma_append_only_pins(model: HistoryModel, cell: BlockModel)
    ensures
        model.appended(cell).scroll is Pinned,
        model.appended(cell).entries.len() == model.entries.len() + 1,
        model.appended(cell).entries.last().block == cell,
        model.appended(cell).entries.drop_last() == model.entries,
        model.appended(cell) == (HistoryModel {
            entries: model.appended(cell).entries,
            scroll: ScrollOffset::Pinned,
            ..model
        }),
{
    assert(model.appended(cell).entries.drop_last() =~= model.entries);
}

/// No entry is a working indicator.
pub open spec fn indicator_free(entries: Seq<EntryModel>) -> bool {
    forall|i: int| 0 <= i < entries.len() ==> !(#[trigger] entries[i]).block.is_working()
}

impl HistoryModel {
    /// The transcript shows exactly one working indicator, as its last
    /// entry.
    pub open spec fn ends_with_indicator(self) -> bool {
        &&& self.entries.len() > 0
        &&& self.entries.last().block.is_working()
        &&& indicator_free(self.entries.drop_last())
    }
}

/// Filtering entries of which none is an indicator keeps them all.
pub proof fn lemma_indicator_free_stays(entries: Seq<EntryModel>)
    requires
        indicator_free(entries),
    ensures
        entries.filter(|entry: EntryModel| !entry.block.is_working()) == entries,
    decreases entries.len(),
{
    reveal(Seq::filter);
    let keep = |entry: EntryModel| !entry.block.is_working();
    if entries.len() > 0 {
        assert forall|i: int| 0 <= i < entries.drop_last().len() implies !(
        #[trigger] entries.drop_last()[i]).block.is_working() by {
            assert(entries.drop_last()[i] == entries[i]);
        }
        lemma_indicator_free_stays(entries.drop_last());
        assert(keep(entries.last()));
        assert(entries.drop_last().push(entries.last()) =~= entries);
    }
}

/// What taking the indicators away leaves: no indicator at all; every
/// entry, if there was no indicator; and every entry but the last, if the
/// last was the one indicator.
pub proof fn lemma_without_indicator(model: HistoryModel)
    ensures
        indicator_free(model.without_indicator().entries),
        indicator_free(model.entries) ==> model.without_indicator() == model,
        model.ends_with_indicator() ==> model.without_indicator().entries
            == model.entries.drop_last(),
{
    let keep = |entry: EntryModel| !entry.block.is_working();
    let kept = model.without_indicator().entries;
    assert forall|i: int| 0 <= i < kept.len() implies !(#[trigger] kept[i]).block.is_working() by {
        model.entries.lemma_filter_pred(keep, i);
    }
    if indicator_free(model.entries) {
        lemma_indicator_free_stays(model.entries);
    }
    if model.ends_with_indicator() {
        reveal(Seq::filter);
        lemma_indicator_free_stays(model.entries.drop_last());
        assert(!keep(model.entries.last()));
    }
}

/// Appending an entry to a transcript without indicator leaves it without
/// one if the entry is a message, and with exactly one, the last, if the
/// entry is the indicator.
pub proof fn lemma_appended_indicators(model: HistoryModel, cell: BlockModel)
    requires
        indicator_free(model.entries),
    ensures
        !cell.is_working() ==> indicator_free(model.appended(cell).entries),
        cell.is_working() ==> model.appended(cell).ends_with_indicator(),
        model.appended(cell).entries.drop_last() == model.entries,
        model.appended(cell).entries.last().block == cell,
{
    let after = model.appended(cell).entries;
    assert(after.drop_last() =~= model.entries);
    if !cell.is_working() {
        assert forall|i: int| 0 <= i < after.len() implies !(#[trigger] after[i]).block.is_working() by {
            if i < model.entries.len() {
                assert(after[i] == model.entries[i]);
            }
        }
    }
}

/// Neither a frame nor the working animation makes an entry an indicator
/// or a message: the blocks keep their kind and their place.
pub proof fn lemma_kinds_stay(model: HistoryModel, inner: Rect, elapsed_ms: u64)
    ensures
        indicator_free(model.entries) ==> indicator_free(model.rendered(inner).entries)
            && indicator_free(model.with_elapsed(elapsed_ms).entries),
        model.ends_with_indicator() ==> model.rendered(inner).ends_with_indicator()
            && model.with_elapsed(elapsed_ms).ends_with_indicator(),
{
    let framed = model.rendered(inner).entries;
    let moved = model.with_elapsed(elapsed_ms).entries;
    assert(framed.len() == model.entries.len());
    assert(moved.len() == model.entries.len());
    assert forall|i: int| 0 <= i < model.entries.len() implies (#[trigger] framed[i]).block
        == model.entries[i].block by {}
    assert forall|i: int| 0 <= i < model.entries.len() implies (
    #[trigger] moved[i]).block.is_working() == model.entries[i].block.is_working() by {}
    if indicator_free(model.entries) {
        assert forall|i: int| 0 <= i < framed.len() implies !(#[trigger] framed[i]).block.is_working() by {
            assert(framed[i].block == model.entries[i].block);
        }
        assert forall|i: int| 0 <= i < moved.len() implies !(#[trigger] moved[i]).block.is_working() by {
            assert(moved[i].block.is_working() == model.entries[i].block.is_working());
        }
    }
    if model.ends_with_indicator() {
        let last = model.entries.len() - 1;
        assert(framed[last].block == model.entries[last].block);
        assert(moved[last].block.is_working() == model.entries[last].block.is_working());
        assert forall|i: int| 0 <= i < framed.drop_last().len() implies !(
        #[trigger] framed.drop_last()[i]).block.is_working() by {
            assert(framed[i].block == model.entries[i].block);
            assert(model.entries.drop_last()[i] == model.entries[i]);
        }
        assert forall|i: int| 0 <= i < moved.drop_last().len() implies !(
        #[trigger] moved.drop_last()[i]).block.is_working() by {
            assert(moved[i].block.is_working() == model.entries[i].block.is_working());
            assert(model.entries.drop_last()[i] == model.entries[i]);
        }
    }
}

} // verus!
