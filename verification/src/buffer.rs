//! The rope that holds the text, seen as a sequence of characters.

use vstd::prelude::*;
use crate::lines::{breaks_before, line_count, line_start, line_text};

verus! {

#[verifier::external_type_specification]
#[verifier::external_body]
pub struct ExRope(ropey::Rope);

/// The characters that a rope holds, in order.
pub uninterp spec fn rope_text(rope: ropey::Rope) -> Seq<char>;

/// `Rope::new`: a rope that holds no character.
#[verifier::external_body]
pub(crate) fn rope_new() -> (rope: ropey::Rope)
    ensures
        rope_text(rope) == Seq::<char>::empty(),
{
    ropey::Rope::new()
}

/// `Rope::len_chars`: the number of characters in the rope.
#[verifier::external_body]
pub(crate) fn rope_len_chars(rope: &ropey::Rope) -> (n: usize)
    ensures
        n == rope_text(*rope).len(),
{
    rope.len_chars()
}

/// `Rope::len_lines`: the number of line breaks in the rope, plus one.
#[verifier::external_body]
pub(crate) fn rope_len_lines(rope: &ropey::Rope) -> (n: usize)
    ensures
        n == line_count(rope_text(*rope)),
{
    rope.len_lines()
}

/// `Rope::line_to_char`: the index of the first character of a line; for
/// the index one past the last line, the number of characters. It panics
/// beyond that.
#[verifier::external_body]
pub(crate) fn rope_line_to_char(rope: &ropey::Rope, line: usize) -> (idx: usize)
    requires
        line <= line_count(rope_text(*rope)),
    ensures
        idx == line_start(rope_text(*rope), line as nat),
{
    rope.line_to_char(line)
}

/// `Rope::char_to_line`: the number of line endings before a character
/// index, which may be one past the end. It panics beyond that.
#[verifier::external_body]
pub(crate) fn rope_char_to_line(rope: &ropey::Rope, idx: usize) -> (line: usize)
    requires
        idx <= rope_text(*rope).len(),
    ensures
        line == breaks_before(rope_text(*rope), idx as int),
{
    rope.char_to_line(idx)
}

/// `Rope::char`: the character at an index. It panics at or beyond the end.
#[verifier::external_body]
pub(crate) fn rope_char(rope: &ropey::Rope, idx: usize) -> (c: char)
    requires
        idx < rope_text(*rope).len(),
    ensures
        c == rope_text(*rope)[idx as int],
{
    rope.char(idx)
}

/// `Rope::insert_char`: puts one character in at an index, which may be
/// the end. It panics beyond that.
#[verifier::external_body]
pub(crate) fn rope_insert_char(rope: &mut ropey::Rope, idx: usize, c: char)
    requires
        idx <= rope_text(*old(rope)).len(),
    ensures
        rope_text(*final(rope)) == rope_text(*old(rope)).insert(idx as int, c),
{
    rope.insert_char(idx, c)
}

/// `Rope::remove`, on a range of one character: takes the character at an
/// index out. It panics if the range ends beyond the end.
#[verifier::external_body]
pub(crate) fn rope_remove_char(rope: &mut ropey::Rope, idx: usize)
    requires
        idx < rope_text(*old(rope)).len(),
    ensures
        rope_text(*final(rope)) == rope_text(*old(rope)).remove(idx as int),
{
    rope.remove(idx..idx + 1)
}

/// `String::from(&Rope)`: the rope's characters as a string.
#[verifier::external_body]
pub(crate) fn rope_to_string(rope: &ropey::Rope) -> (s: String)
    ensures
        s@ == rope_text(*rope),
{
    String::from(rope)
}

/// `Rope::line` and `String::from(RopeSlice)`: the characters of one line,
/// its line break included, as a string. `line` panics from the number of
/// lines on.
#[verifier::external_body]
pub(crate) fn rope_line_string(rope: &ropey::Rope, line: usize) -> (s: String)
    requires
        line < line_count(rope_text(*rope)),
    ensures
        s@ == line_text(rope_text(*rope), line as nat),
{
    String::from(rope.line(line))
}

} // verus!
