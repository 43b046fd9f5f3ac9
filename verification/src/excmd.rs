//! The ex command language: words separated by white space, the first of
//! which names the command.

use vstd::prelude::*;
use vstd::string::{StrSliceExecFns, StringExecFns};

verus! {

/// The white space characters of Unicode.
pub open spec fn is_space(c: char) -> bool {
    c == '\u{9}' || c == '\u{A}' || c == '\u{B}' || c == '\u{C}' || c == '\u{D}' || c == '\u{20}'
        || c == '\u{85}' || c == '\u{A0}' || c == '\u{1680}' || c == '\u{2000}' || c
        == '\u{2001}' || c == '\u{2002}' || c == '\u{2003}' || c == '\u{2004}' || c == '\u{2005}'
        || c == '\u{2006}' || c == '\u{2007}' || c == '\u{2008}' || c == '\u{2009}' || c
        == '\u{200A}' || c == '\u{2028}' || c == '\u{2029}' || c == '\u{202F}' || c == '\u{205F}'
        || c == '\u{3000}'
}

/// Executable test for [`is_space`].
pub fn is_whitespace(c: char) -> (r: bool)
    ensures
        r == is_space(c),
{
    c == '\u{9}' || c == '\u{A}' || c == '\u{B}' || c == '\u{C}' || c == '\u{D}' || c == '\u{20}'
        || c == '\u{85}' || c == '\u{A0}' || c == '\u{1680}' || c == '\u{2000}' || c
        == '\u{2001}' || c == '\u{2002}' || c == '\u{2003}' || c == '\u{2004}' || c == '\u{2005}'
        || c == '\u{2006}' || c == '\u{2007}' || c == '\u{2008}' || c == '\u{2009}' || c
        == '\u{200A}' || c == '\u{2028}' || c == '\u{2029}' || c == '\u{202F}' || c == '\u{205F}'
        || c == '\u{3000}'
}

/// The first position from `i` on that holds no white space, or the
/// length of `s`.
pub open spec fn skip_spaces(s: Seq<char>, i: int) -> int
    decreases s.len() - i,
{
    if i < 0 || i >= s.len() {
        s.len() as int
    } else if is_space(s[i]) {
        skip_spaces(s, i + 1)
    } else {
        i
    }
}

/// The first position from `i` on that holds white space, or the length
/// of `s`.
pub open spec fn word_end(s: Seq<char>, i: int) -> int
    decreases s.len() - i,
{
    if i < 0 || i >= s.len() {
        s.len() as int
    } else if is_space(s[i]) {
        i
    } else {
        word_end(s, i + 1)
    }
}

/// A parsed ex command.
#[derive(Debug)]
pub enum ExCommand {
    /// A line without a word.
    Nothing,
    /// `q`: stop the editor.
    Quit,
    /// `w` and a file name: write the buffer to that file.
    Write(String),
    /// `w` without a file name.
    MissingFilename,
    /// A command that does not exist, by its name.
    Unknown(String),
}

/// The value of an [`ExCommand`].
pub enum ExCommandValue {
    Nothing,
    Quit,
    Write(Seq<char>),
    MissingFilename,
    Unknown(Seq<char>),
}

impl View for ExCommand {
    type V = ExCommandValue;

    open spec fn view(&self) -> ExCommandValue {
        match self {
            ExCommand::Nothing => ExCommandValue::Nothing,
            ExCommand::Quit => ExCommandValue::Quit,
            ExCommand::Write(name) => ExCommandValue::Write(name@),
            ExCommand::MissingFilename => ExCommandValue::MissingFilename,
            ExCommand::Unknown(name) => ExCommandValue::Unknown(name@),
        }
    }
}

/// The command that a line holds. The first word names it; `w` takes the
/// second word as its file name; further words are not looked at.
pub open spec fn parsed(s: Seq<char>) -> ExCommandValue {
    let start = skip_spaces(s, 0);
    let end = word_end(s, start);
    let name = s.subrange(start, end);
    if start >= s.len() {
        ExCommandValue::Nothing
    } else if name == seq!['q'] {
        ExCommandValue::Quit
    } else if name == seq!['w'] {
        let arg_start = skip_spaces(s, end);
        let arg_end = word_end(s, arg_start);
        if arg_start >= s.len() {
            ExCommandValue::MissingFilename
        } else {
            ExCommandValue::Write(s.subrange(arg_start, arg_end))
        }
    } else {
        ExCommandValue::Unknown(name)
    }
}

/// The message shown for a command that cannot be carried out, if it is
/// one.
pub open spec fn complaint(cmd: ExCommandValue) -> Option<Seq<char>> {
    match cmd {
        ExCommandValue::MissingFilename => Some("Expected filename"@),
        ExCommandValue::Unknown(name) => Some("Unknown command: "@ + name),
        _ => None,
    }
}

/// `skip_spaces` and `word_end` give positions from `i` to the end of
/// `s`.
pub proof fn lemma_word_bounds(s: Seq<char>, i: int)
    requires
        0 <= i <= s.len(),
    ensures
        i <= skip_spaces(s, i) <= s.len(),
        i <= word_end(s, i) <= s.len(),
        i < s.len() && !is_space(s[i]) ==> i < word_end(s, i),
        skip_spaces(s, i) < s.len() ==> !is_space(s[skip_spaces(s, i)]),
    decreases s.len() - i,
{
    if i < s.len() {
        lemma_word_bounds(s, i + 1);
    }
}

fn skip_whitespace(s: &str, len: usize, from: usize) -> (i: usize)
    requires
        len == s@.len(),
        from <= len,
    ensures
        i == skip_spaces(s@, from as int),
        from <= i <= len,
{
    let mut i: usize = from;
    while i < len && is_whitespace(s.get_char(i))
        invariant
            len == s@.len(),
            from <= i <= len,
            skip_spaces(s@, from as int) == skip_spaces(s@, i as int),
        decreases len - i,
    {
        i += 1;
    }
    i
}

fn find_word_end(s: &str, len: usize, from: usize) -> (i: usize)
    requires
        len == s@.len(),
        from <= len,
    ensures
        i == word_end(s@, from as int),
        from <= i <= len,
{
    let mut i: usize = from;
    while i < len && !is_whitespace(s.get_char(i))
        invariant
            len == s@.len(),
            from <= i <= len,
            word_end(s@, from as int) == word_end(s@, i as int),
        decreases len - i,
    {
        i += 1;
    }
    i
}

/// Reads the command that a line holds.
pub fn parse_ex_command(line: &str) -> (cmd: ExCommand)
    ensures
        cmd@ == parsed(line@),
{
    let len = line.unicode_len();
    let start = skip_whitespace(line, len, 0);
    if start >= len {
        return ExCommand::Nothing;
    }
    let end = find_word_end(line, len, start);
    proof {
        lemma_word_bounds(line@, 0);
        lemma_word_bounds(line@, start as int);
    }
    let ghost name = line@.subrange(start as int, end as int);
    let first = line.get_char(start);
    assert(name[0] == first);
    if end - start == 1 && first == 'q' {
        assert(name =~= seq!['q']);
        return ExCommand::Quit;
    }
    if end - start == 1 && first == 'w' {
        assert(name =~= seq!['w']);
        let arg_start = skip_whitespace(line, len, end);
        if arg_start >= len {
            return ExCommand::MissingFilename;
        }
        let arg_end = find_word_end(line, len, arg_start);
        return ExCommand::Write(String::from_str(line.substring_char(arg_start, arg_end)));
    }
    assert(name != seq!['q'] && name != seq!['w']) by {
        assert(seq!['q'].len() == 1 && seq!['q'][0] == 'q');
        assert(seq!['w'].len() == 1 && seq!['w'][0] == 'w');
    }
    ExCommand::Unknown(String::from_str(line.substring_char(start, end)))
}

/// The message for a command that cannot be carried out, if it is one.
pub fn complaint_of(cmd: &ExCommand) -> (msg: Option<String>)
    ensures
        msg.is_some() == complaint(cmd@).is_some(),
        msg.is_some() ==> msg.unwrap()@ == complaint(cmd@).unwrap(),
{
    match cmd {
        ExCommand::MissingFilename => Some(String::from_str("Expected filename")),
        ExCommand::Unknown(name) => Some(
            String::from_str("Unknown command: ").concat(name.as_str()),
        ),
        _ => None,
    }
}

} // verus!
