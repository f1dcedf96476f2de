//! Lines of text as the transcript stores them, and their measures.

use crate::text::texts_of;
use vstd::prelude::*;

verus! {

/// The number of terminal columns that a line of text takes when it is
/// painted, as `ratatui` measures it.
pub uninterp spec fn line_display_width(text: Seq<char>) -> nat;

/// Measures one line with `ratatui::text::Line::width`.
///
/// Trusted: the result is the display width of the line that `ratatui`
/// builds from `text`, which depends on the characters of `text` alone.
#[verifier::external_body]
pub(crate) fn display_width(text: &str) -> (width: usize)
    ensures
        width == line_display_width(text@),
{
    ratatui::text::Line::from(text).width()
}

/// The number of characters of `text` before its first line feed, or the
/// length of `text` if it holds none.
pub open spec fn line_end(text: Seq<char>) -> nat
    decreases text.len(),
{
    if text.len() == 0 || text[0] == '\n' {
        0
    } else {
        1 + line_end(text.drop_first())
    }
}

/// `line` without the carriage return at its end, if it has one.
pub open spec fn without_carriage_return(line: Seq<char>) -> Seq<char> {
    if line.len() > 0 && line.last() == '\r' {
        line.drop_last()
    } else {
        line
    }
}

/// The lines of `text`. A line ends at a line feed, or at a carriage return
/// that a line feed follows; the ending is not part of the line. The last
/// line needs no ending, and an empty text has no line.
pub open spec fn split_lines(text: Seq<char>) -> Seq<Seq<char>>
    decreases text.len(),
{
    let end = line_end(text);
    if text.len() == 0 {
        Seq::empty()
    } else if end >= text.len() {
        seq![text]
    } else {
        seq![without_carriage_return(text.subrange(0, end as int))] + split_lines(
            text.subrange(end as int + 1, text.len() as int),
        )
    }
}

/// Splits a text into its lines with `str::lines`.
///
/// Trusted: the result holds the lines of `text` in order, as the
/// documentation of `str::lines` describes them.
#[verifier::external_body]
pub(crate) fn text_lines(text: &str) -> (lines: Vec<String>)
    ensures
        texts_of(lines@) == split_lines(text@),
{
    text.lines().map(String::from).collect()
}

/// A list of text lines, each painted on a row of its own before wrapping.
#[derive(Clone, Debug)]
pub struct TextBlock {
    /// The lines of text to display.
    pub lines: Vec<String>,
}

/// The display width of each line.
pub open spec fn widths_of_lines(lines: Seq<Seq<char>>) -> Seq<nat> {
    Seq::new(lines.len(), |i: int| line_display_width(lines[i]))
}

impl View for TextBlock {
    type V = Seq<Seq<char>>;

    open spec fn view(&self) -> Seq<Seq<char>> {
        texts_of(self.lines@)
    }
}

impl TextBlock {
    /// The display width of each line.
    pub open spec fn line_widths(&self) -> Seq<nat> {
        widths_of_lines(self@)
    }

    /// A text block of the given lines.
    pub fn new(lines: Vec<String>) -> (block: TextBlock)
        ensures
            block.lines == lines,
    {
        TextBlock { lines }
    }

    /// Measures every line.
    pub fn measure(&self) -> (widths: Vec<usize>)
        ensures
            widths@.len() == self.lines@.len(),
            forall|i: int|
                0 <= i < widths@.len() ==> widths@[i] as nat == #[trigger] self.line_widths()[i],
    {
        let mut widths: Vec<usize> = Vec::new();
        let mut i: usize = 0;
        while i < self.lines.len()
            invariant
                i <= self.lines@.len(),
                widths@.len() == i,
                forall|k: int|
                    0 <= k < i ==> widths@[k] as nat == #[trigger] self.line_widths()[k],
            decreases self.lines@.len() - i,
        {
            let width = display_width(self.lines[i].as_str());
            widths.push(width);
            i += 1;
        }
        widths
    }
}

} // verus!
