//! Operations on text that the standard library performs.

use vstd::prelude::*;
use vstd::std_specs::iter::IteratorSpec;
use vstd::string::{StrSliceExecFns, StringExecFns};

verus! {

/// Whether a character is white space by the standard library's
/// `char::is_whitespace`.
pub uninterp spec fn is_whitespace_char(c: char) -> bool;

/// The lowercase form of a text by the standard library's
/// `str::to_lowercase`.
pub uninterp spec fn lowercase(text: Seq<char>) -> Seq<char>;

/// Tests a character with `char::is_whitespace`.
///
/// Trusted: the result depends on the character alone.
#[verifier::external_body]
pub(crate) fn char_is_whitespace(c: char) -> (white: bool)
    ensures
        white == is_whitespace_char(c),
{
    c.is_whitespace()
}

/// Lowers a text with `str::to_lowercase`.
///
/// Trusted: the result depends on the characters of `text` alone.
#[verifier::external_body]
pub(crate) fn to_lowercase(text: &str) -> (lowered: String)
    ensures
        lowered@ == lowercase(text@),
{
    text.to_lowercase()
}

/// Tests with `str::starts_with` whether `text` begins with `prefix`.
///
/// Trusted: the result is true exactly if the characters of `prefix` are
/// the first characters of `text`.
#[verifier::external_body]
pub(crate) fn starts_with(text: &str, prefix: &str) -> (found: bool)
    ensures
        found == prefix@.is_prefix_of(text@),
{
    text.starts_with(prefix)
}

/// Appends a character with `String::push`.
///
/// Trusted: the text afterwards is the text before with `c` at its end.
#[verifier::external_body]
pub(crate) fn push_char(text: &mut String, c: char)
    ensures
        final(text)@ == old(text)@.push(c),
{
    text.push(c)
}

/// The characters of `text` before its first white space.
pub open spec fn leading_word(text: Seq<char>) -> Seq<char>
    decreases text.len(),
{
    if text.len() == 0 || is_whitespace_char(text[0]) {
        Seq::empty()
    } else {
        seq![text[0]] + leading_word(text.drop_first())
    }
}

/// The lines joined into one text, with a line feed between each two.
pub open spec fn joined(lines: Seq<Seq<char>>) -> Seq<char>
    decreases lines.len(),
{
    if lines.len() == 0 {
        Seq::empty()
    } else if lines.len() == 1 {
        lines[0]
    } else {
        joined(lines.drop_last()) + seq!['\n'] + lines.last()
    }
}

/// Every character of the text is white space.
pub open spec fn is_blank_text(text: Seq<char>) -> bool {
    forall|i: int| 0 <= i < text.len() ==> is_whitespace_char(#[trigger] text[i])
}

/// The text behind `prefix`, if the text begins with it.
pub open spec fn text_after_prefix(text: Seq<char>, prefix: Seq<char>) -> Option<Seq<char>> {
    if prefix.is_prefix_of(text) {
        Some(text.subrange(prefix.len() as int, text.len() as int))
    } else {
        None
    }
}

/// The texts of a vector of strings.
pub open spec fn texts_of(lines: Seq<String>) -> Seq<Seq<char>> {
    Seq::new(lines.len(), |i: int| lines[i]@)
}

/// Joins the lines with a line feed between each two.
pub fn join_lines(lines: &Vec<String>) -> (text: String)
    ensures
        text@ == joined(texts_of(lines@)),
{
    let ghost all = texts_of(lines@);
    let mut text = String::new();
    let mut i: usize = 0;
    while i < lines.len()
        invariant
            i <= lines@.len(),
            all == texts_of(lines@),
            text@ == joined(all.subrange(0, i as int)),
        decreases lines@.len() - i,
    {
        proof {
            reveal_strlit("\n");
            assert(all.subrange(0, i + 1).drop_last() =~= all.subrange(0, i as int));
            assert(all.subrange(0, i + 1).last() == lines@[i as int]@);
            assert("\n"@ =~= seq!['\n']);
        }
        if i > 0 {
            text.append("\n");
        }
        text.append(lines[i].as_str());
        proof {
            if i == 0 {
                assert(all.subrange(0, 1)[0] == lines@[0]@);
                assert(text@ =~= lines@[0]@);
            }
        }
        i += 1;
    }
    assert(all.subrange(0, i as int) =~= all);
    text
}

/// Tells whether every character of the text is white space.
pub fn is_blank(text: &str) -> (blank: bool)
    ensures
        blank == is_blank_text(text@),
{
    broadcast use vstd::string::group_string_axioms;

    let mut chars = text.chars();
    let ghost mut seen: int = 0;
    loop
        invariant
            0 <= seen <= text@.len(),
            chars.remaining() == text@.subrange(seen, text@.len() as int),
            forall|i: int| 0 <= i < seen ==> is_whitespace_char(#[trigger] text@[i]),
        decreases text@.len() - seen,
    {
        match chars.next() {
            None => {
                return true;
            },
            Some(c) => {
                assert(c == text@[seen]);
                if !char_is_whitespace(c) {
                    return false;
                }
                proof {
                    assert(text@.subrange(seen, text@.len() as int).drop_first()
                        =~= text@.subrange(seen + 1, text@.len() as int));
                    seen = seen + 1;
                }
            },
        }
    }
}

/// Tells whether the text holds the character.
pub fn contains_char(text: &str, wanted: char) -> (found: bool)
    ensures
        found == text@.contains(wanted),
{
    broadcast use vstd::string::group_string_axioms;

    let mut chars = text.chars();
    let ghost mut seen: int = 0;
    loop
        invariant
            0 <= seen <= text@.len(),
            chars.remaining() == text@.subrange(seen, text@.len() as int),
            forall|i: int| 0 <= i < seen ==> text@[i] != wanted,
        decreases text@.len() - seen,
    {
        match chars.next() {
            None => {
                return false;
            },
            Some(c) => {
                assert(c == text@[seen]);
                if c == wanted {
                    return true;
                }
                proof {
                    assert(text@.subrange(seen, text@.len() as int).drop_first()
                        =~= text@.subrange(seen + 1, text@.len() as int));
                    seen = seen + 1;
                }
            },
        }
    }
}

/// The text behind `prefix`, if `text` begins with it.
pub fn strip_prefix(text: &str, prefix: &str) -> (rest: Option<String>)
    ensures
        match rest {
            Some(rest) => text_after_prefix(text@, prefix@) == Some(rest@),
            None => text_after_prefix(text@, prefix@).is_none(),
        },
{
    if starts_with(text, prefix) {
        let from = prefix.unicode_len();
        let to = text.unicode_len();
        Some(text.substring_char(from, to).to_owned())
    } else {
        None
    }
}

} // verus!
