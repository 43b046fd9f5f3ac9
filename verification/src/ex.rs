//! The one-line editor in which an ex command is typed.

use vstd::prelude::*;
use ropey::Rope;
use crate::buffer::{
    rope_insert_char, rope_len_chars, rope_new, rope_remove_char, rope_text, rope_to_string,
};
use crate::keys::{KeyCode, KeyEvent};

verus! {

/// What a key did to the command line.
#[derive(Debug)]
pub enum ExResult {
    /// The line is still being typed.
    StillEditing,
    /// The line was given up.
    Aborted,
    /// The line was submitted; this is its text.
    Finished(String),
}

/// The value of an [`ExResult`].
pub enum ExOutcome {
    StillEditing,
    Aborted,
    Finished(Seq<char>),
}

impl View for ExResult {
    type V = ExOutcome;

    open spec fn view(&self) -> ExOutcome {
        match self {
            ExResult::StillEditing => ExOutcome::StillEditing,
            ExResult::Aborted => ExOutcome::Aborted,
            ExResult::Finished(text) => ExOutcome::Finished(text@),
        }
    }
}

/// The value of a command line: its text and the cursor in it.
pub struct ExBarState {
    pub text: Seq<char>,
    pub cursor: nat,
}

impl ExBarState {
    /// The cursor is in the text or right behind it.
    pub open spec fn wf(self) -> bool {
        self.cursor <= self.text.len()
    }

    /// The empty line.
    pub open spec fn empty() -> ExBarState {
        ExBarState { text: Seq::<char>::empty(), cursor: 0 }
    }

    /// What `key` does to the line.
    pub open spec fn outcome(self, key: KeyEvent) -> ExOutcome {
        if key.modifiers.bits != 0 {
            ExOutcome::StillEditing
        } else {
            match key.code {
                KeyCode::Enter => ExOutcome::Finished(self.text),
                KeyCode::Backspace => if self.text.len() == 0 {
                    ExOutcome::Aborted
                } else {
                    ExOutcome::StillEditing
                },
                KeyCode::Esc => ExOutcome::Aborted,
                _ => ExOutcome::StillEditing,
            }
        }
    }

    /// The line after `key`.
    pub open spec fn after_key(self, key: KeyEvent) -> ExBarState {
        if key.modifiers.bits != 0 {
            self
        } else {
            match key.code {
                KeyCode::Char(c) => ExBarState {
                    text: self.text.insert(self.cursor as int, c),
                    cursor: self.cursor + 1,
                },
                KeyCode::Enter | KeyCode::Esc => ExBarState::empty(),
                KeyCode::Backspace => if self.text.len() == 0 {
                    ExBarState::empty()
                } else if self.cursor == 0 {
                    self
                } else {
                    ExBarState {
                        text: self.text.remove(self.cursor - 1),
                        cursor: (self.cursor - 1) as nat,
                    }
                },
                KeyCode::Delete => if self.cursor < self.text.len() {
                    ExBarState { text: self.text.remove(self.cursor as int), ..self }
                } else {
                    self
                },
                KeyCode::Left => if self.cursor > 0 {
                    ExBarState { cursor: (self.cursor - 1) as nat, ..self }
                } else {
                    self
                },
                KeyCode::Right => if self.cursor < self.text.len() {
                    ExBarState { cursor: self.cursor + 1, ..self }
                } else {
                    self
                },
                _ => self,
            }
        }
    }
}

/// The command line.
pub struct ExBar {
    buffer: Rope,
    cursor_index: usize,
}

impl View for ExBar {
    type V = ExBarState;

    closed spec fn view(&self) -> ExBarState {
        ExBarState { text: rope_text(self.buffer), cursor: self.cursor_index as nat }
    }
}

impl ExBar {
    /// The invariant of the command line; see [`ExBarState::wf`].
    pub open spec fn wf(&self) -> bool {
        self@.wf()
    }

    /// An empty command line.
    pub fn new() -> (bar: ExBar)
        ensures
            bar@ == ExBarState::empty(),
            bar.wf(),
    {
        ExBar { buffer: rope_new(), cursor_index: 0 }
    }

    /// The text of the line.
    pub fn buffer(&self) -> (rope: &Rope)
        ensures
            rope_text(*rope) == self@.text,
    {
        &self.buffer
    }

    /// The cursor in the line.
    pub fn cursor_index(&self) -> (index: usize)
        ensures
            index == self@.cursor,
    {
        self.cursor_index
    }

    /// Takes one key. A key with a modifier, or one that the line does not
    /// know, changes nothing. When the line is submitted or given up it is
    /// left empty.
    pub fn handle_key(&mut self, key: KeyEvent) -> (result: ExResult)
        requires
            old(self).wf(),
        ensures
            result@ == old(self)@.outcome(key),
            final(self)@ == old(self)@.after_key(key),
            final(self).wf(),
    {
        if !key.modifiers.is_empty() {
            return ExResult::StillEditing;
        }
        let len = rope_len_chars(&self.buffer);
        match key.code {
            KeyCode::Char(chr) => {
                rope_insert_char(&mut self.buffer, self.cursor_index, chr);
                // The text's length is a machine integer, so the cursor
                // behind the new character is one too.
                let _grown = rope_len_chars(&self.buffer);
                self.cursor_index += 1;
                ExResult::StillEditing
            },
            KeyCode::Enter => {
                let result = rope_to_string(&self.buffer);
                self.clear();
                ExResult::Finished(result)
            },
            KeyCode::Backspace => {
                if len == 0 {
                    assert(self@.text =~= Seq::<char>::empty());
                    return ExResult::Aborted;
                }
                if self.cursor_index > 0 {
                    rope_remove_char(&mut self.buffer, self.cursor_index - 1);
                    self.cursor_index -= 1;
                }
                ExResult::StillEditing
            },
            KeyCode::Delete => {
                if self.cursor_index < len {
                    rope_remove_char(&mut self.buffer, self.cursor_index);
                }
                ExResult::StillEditing
            },
            KeyCode::Left => {
                if self.cursor_index > 0 {
                    self.cursor_index -= 1;
                }
                ExResult::StillEditing
            },
            KeyCode::Right => {
                if self.cursor_index < len {
                    self.cursor_index += 1;
                }
                ExResult::StillEditing
            },
            KeyCode::Esc => {
                self.clear();
                ExResult::Aborted
            },
            _ => ExResult::StillEditing,
        }
    }

    /// Empties the line.
    pub fn clear(&mut self)
        ensures
            final(self)@ == ExBarState::empty(),
            final(self).wf(),
    {
        self.buffer = rope_new();
        self.cursor_index = 0;
    }
}

/// A key leaves the cursor in the line, and a key that submits the line
/// or gives it up leaves the line empty.
pub proof fn lemma_key_keeps_wf(bar: ExBarState, key: KeyEvent)
    requires
        bar.wf(),
    ensures
        bar.after_key(key).wf(),
        bar.outcome(key) != ExOutcome::StillEditing ==> bar.after_key(key) == ExBarState::empty(),
        bar.outcome(key) == ExOutcome::Aborted ==> key.modifiers.bits == 0 && (key.code
            == KeyCode::Esc || (key.code == KeyCode::Backspace && bar.text.len() == 0)),
        bar.outcome(key) != ExOutcome::StillEditing && bar.outcome(key) != ExOutcome::Aborted
            ==> bar.outcome(key) == ExOutcome::Finished(bar.text),
{
}

/// A key with a modifier changes nothing.
pub proof fn lemma_modified_key_ignored(bar: ExBarState, key: KeyEvent)
    requires
        key.modifiers.bits != 0,
    ensures
        bar.after_key(key) == bar,
        bar.outcome(key) == ExOutcome::StillEditing,
{
}

} // verus!
