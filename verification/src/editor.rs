//! The editor: a window, a command line, the mode, and the key table.
//!
//! The editor decides what a key does. It does no input or output: a
//! caller hands it the keys and the size changes of the terminal, draws
//! what it shows, and writes the buffer to a file when a key asks for it.

use vstd::prelude::*;
use vstd::string::StringExecFns;
use crate::commands::{default_binding, default_mappings, Action, Mapping, Mode};
use crate::ex::{lemma_key_keeps_wf, ExBar, ExBarState, ExOutcome, ExResult};
use crate::excmd::{complaint, complaint_of, parse_ex_command, parsed, ExCommand, ExCommandValue};
use crate::keys::{KeyCode, KeyEvent};
use crate::window::{Window, WindowState};
use crate::window_proofs::{
    lemma_backspaced_wf, lemma_deleted_wf, lemma_entered_wf, lemma_inserted_wf, lemma_moved_wf,
};

verus! {

/// How an attempt to write the buffer to a file ended.
#[derive(Debug)]
pub enum WriteOutcome {
    /// The file was written.
    Written,
    /// The file could not be opened; the text says why.
    OpenFailed(String),
    /// The file could not be written; the text says why.
    WriteFailed(String),
}

/// The value of a [`WriteOutcome`].
pub enum WriteOutcomeValue {
    Written,
    OpenFailed(Seq<char>),
    WriteFailed(Seq<char>),
}

impl View for WriteOutcome {
    type V = WriteOutcomeValue;

    open spec fn view(&self) -> WriteOutcomeValue {
        match self {
            WriteOutcome::Written => WriteOutcomeValue::Written,
            WriteOutcome::OpenFailed(why) => WriteOutcomeValue::OpenFailed(why@),
            WriteOutcome::WriteFailed(why) => WriteOutcomeValue::WriteFailed(why@),
        }
    }
}

/// The characters of a text that may be absent.
pub open spec fn text_of(s: Option<String>) -> Option<Seq<char>> {
    match s {
        Some(s) => Some(s@),
        None => None,
    }
}

/// Half of `rows`, rounded up.
pub open spec fn half_page(rows: nat) -> nat {
    (rows + 1) / 2
}

/// The file that a command asks to write, if it asks for that.
pub open spec fn file_to_write(cmd: ExCommandValue) -> Option<Seq<char>> {
    match cmd {
        ExCommandValue::Write(name) => Some(name),
        _ => None,
    }
}

/// The value of an editor.
pub struct EditorState {
    pub window: WindowState,
    pub bar: ExBarState,
    pub mode: Mode,
    pub keymaps: Mapping,
    /// The message on the status line, if there is one.
    pub error: Option<Seq<char>>,
    /// Whether the editor goes on.
    pub running: bool,
}

impl EditorState {
    /// The invariant of an editor: those of its window and command line.
    pub open spec fn wf(self) -> bool {
        self.window.wf() && self.bar.wf()
    }

    /// The editor in mode `mode`. Entering ex mode takes the message away.
    pub open spec fn with_mode(self, mode: Mode) -> EditorState {
        EditorState {
            mode,
            error: if mode == Mode::Ex {
                None
            } else {
                self.error
            },
            ..self
        }
    }

    /// The editor after `action`.
    pub open spec fn performed(self, action: Action) -> EditorState {
        let w = self.window;
        match action {
            Action::MoveLeft => EditorState { window: w.moved_left(1), ..self },
            Action::MoveDown => EditorState { window: w.moved_down(1), ..self },
            Action::MoveUp => EditorState { window: w.moved_up(1), ..self },
            Action::MoveRight => EditorState { window: w.moved_right(1), ..self },
            Action::MoveHalfDown => EditorState {
                window: w.moved_down(half_page(w.rows)),
                ..self
            },
            Action::MoveHalfUp => EditorState { window: w.moved_up(half_page(w.rows)), ..self },
            Action::StartInsert => self.with_mode(Mode::Insert),
            Action::StartEx => self.with_mode(Mode::Ex),
            Action::BackNormal => self.with_mode(Mode::Normal),
        }
    }

    /// The editor after an ex command was carried out, as far as the
    /// editor itself does so.
    pub open spec fn applied(self, cmd: ExCommandValue) -> EditorState {
        match cmd {
            ExCommandValue::Quit => EditorState { running: false, ..self },
            ExCommandValue::MissingFilename | ExCommandValue::Unknown(_) => EditorState {
                error: complaint(cmd),
                ..self
            },
            _ => self,
        }
    }

    /// The editor after a key that typed into the buffer. A key with a
    /// modifier types nothing, nor does a character that would strand the
    /// cursor.
    pub open spec fn typed(self, key: KeyEvent) -> EditorState {
        let w = self.window;
        if key.modifiers.bits != 0 {
            self
        } else {
            match key.code {
                KeyCode::Char(c) => if w.strands_cursor(c) {
                    self
                } else {
                    EditorState { window: w.inserted(c), ..self }
                },
                KeyCode::Enter => EditorState { window: w.entered(), ..self },
                KeyCode::Backspace => EditorState { window: w.backspaced(), ..self },
                KeyCode::Delete => EditorState { window: w.deleted(), ..self },
                _ => self,
            }
        }
    }

    /// The editor after a key that went to the command line.
    pub open spec fn commanded(self, key: KeyEvent) -> EditorState {
        let next = EditorState { bar: self.bar.after_key(key), ..self };
        match self.bar.outcome(key) {
            ExOutcome::StillEditing => next,
            ExOutcome::Aborted => next.with_mode(Mode::Normal),
            ExOutcome::Finished(line) => next.applied(parsed(line)).with_mode(Mode::Normal),
        }
    }

    /// The editor after a key that is bound to nothing in its mode.
    pub open spec fn defaulted(self, key: KeyEvent) -> EditorState {
        match self.mode {
            Mode::Insert => self.typed(key),
            Mode::Ex => self.commanded(key),
            _ => self,
        }
    }

    /// The editor after `key`.
    pub open spec fn after_key(self, key: KeyEvent) -> EditorState {
        match self.keymaps.binding(self.mode, key) {
            Some(action) => self.performed(action),
            None => self.defaulted(key),
        }
    }

    /// The file that `key` asks to write the buffer to, if it asks for
    /// that: the key submits the command line, and the line holds a write
    /// command.
    pub open spec fn request(self, key: KeyEvent) -> Option<Seq<char>> {
        if self.keymaps.binding(self.mode, key).is_none() && self.mode == Mode::Ex {
            match self.bar.outcome(key) {
                ExOutcome::Finished(line) => file_to_write(parsed(line)),
                _ => None,
            }
        } else {
            None
        }
    }

    /// The editor after an attempt to write the buffer.
    pub open spec fn reported(self, outcome: WriteOutcomeValue) -> EditorState {
        match outcome {
            WriteOutcomeValue::Written => self,
            WriteOutcomeValue::OpenFailed(why) => EditorState {
                error: Some("Couldn't open file: "@ + why),
                ..self
            },
            WriteOutcomeValue::WriteFailed(why) => EditorState {
                error: Some("Couldn't write file: "@ + why),
                ..self
            },
        }
    }
}

/// The editor.
pub struct RVim {
    window: Window,
    bar: ExBar,
    mode: Mode,
    keymaps: Mapping,
    error_message: Option<String>,
    running: bool,
}

impl View for RVim {
    type V = EditorState;

    closed spec fn view(&self) -> EditorState {
        EditorState {
            window: self.window@,
            bar: self.bar@,
            mode: self.mode,
            keymaps: self.keymaps,
            error: text_of(self.error_message),
            running: self.running,
        }
    }
}

impl RVim {
    /// The invariant of the editor; see [`EditorState::wf`].
    pub open spec fn wf(&self) -> bool {
        self@.wf()
    }

    /// An editor for a terminal of the given size, in normal mode, on an
    /// empty buffer, with the default key table. The last row of the
    /// terminal is the status line; the window takes the rows above it.
    pub fn new(width: u16, height: u16) -> (editor: RVim)
        requires
            width >= 1,
            height >= 2,
        ensures
            editor.wf(),
            editor@.window == WindowState::empty(width as nat, (height - 1) as nat),
            editor@.bar == ExBarState::empty(),
            editor@.mode == Mode::Normal,
            editor@.error == None::<Seq<char>>,
            editor@.running,
            forall|mode: Mode, key: KeyEvent| #[trigger]
                editor@.keymaps.binding(mode, key) == default_binding(mode, key),
    {
        RVim {
            window: Window::new(width, height - 1),
            bar: ExBar::new(),
            mode: Mode::Normal,
            keymaps: default_mappings(),
            error_message: None,
            running: true,
        }
    }

    /// The window.
    pub fn window(&self) -> (window: &Window)
        ensures
            window@ == self@.window,
    {
        &self.window
    }

    /// The window, to work on it.
    pub fn current_window_mut(&mut self) -> (window: &mut Window)
        ensures
            window@ == old(self)@.window,
            final(self)@ == (EditorState { window: final(window)@, ..old(self)@ }),
    {
        &mut self.window
    }

    /// The command line.
    pub fn bar(&self) -> (bar: &ExBar)
        ensures
            bar@ == self@.bar,
    {
        &self.bar
    }

    /// The mode.
    pub fn mode(&self) -> (mode: Mode)
        ensures
            mode == self@.mode,
    {
        self.mode
    }

    /// The message on the status line, if there is one.
    pub fn error_message(&self) -> (msg: &Option<String>)
        ensures
            text_of(*msg) == self@.error,
    {
        &self.error_message
    }

    /// Whether the editor goes on.
    pub fn is_running(&self) -> (running: bool)
        ensures
            running == self@.running,
    {
        self.running
    }

    /// Puts a buffer into the window, with cursor and scroll at the
    /// origin.
    pub fn set_buffer(&mut self, buffer: ropey::Rope)
        requires
            old(self).wf(),
        ensures
            final(self)@ == (EditorState {
                window: old(self)@.window.with_text(crate::buffer::rope_text(buffer)),
                ..old(self)@
            }),
            final(self).wf(),
    {
        self.window.set_buffer(buffer);
    }

    /// Changes the mode. Entering ex mode takes the message away.
    pub fn set_mode(&mut self, mode: Mode)
        ensures
            final(self)@ == old(self)@.with_mode(mode),
    {
        if mode == Mode::Ex {
            self.error_message = None;
        }
        self.mode = mode;
    }

    /// Makes the editor stop.
    pub fn stop(&mut self)
        ensures
            final(self)@ == (EditorState { running: false, ..old(self)@ }),
    {
        self.running = false;
    }

    /// Takes a new size of the terminal.
    pub fn resize(&mut self, width: u16, height: u16)
        requires
            old(self).wf(),
            width >= 1,
            height >= 2,
        ensures
            final(self)@ == (EditorState {
                window: old(self)@.window.resized(width as nat, (height - 1) as nat),
                ..old(self)@
            }),
            final(self).wf(),
    {
        self.window.resize(width, height - 1);
    }

    /// Carries out an action that a key is bound to.
    pub fn perform(&mut self, action: Action)
        requires
            old(self).wf(),
        ensures
            final(self)@ == old(self)@.performed(action),
            final(self).wf(),
    {
        match action {
            Action::MoveLeft => self.window.move_cursor_left(1),
            Action::MoveDown => self.window.move_cursor_down(1),
            Action::MoveUp => self.window.move_cursor_up(1),
            Action::MoveRight => self.window.move_cursor_right(1),
            Action::MoveHalfDown => {
                let half = (self.window.size().1 as usize + 1) / 2;
                self.window.move_cursor_down(half);
            },
            Action::MoveHalfUp => {
                let half = (self.window.size().1 as usize + 1) / 2;
                self.window.move_cursor_up(half);
            },
            Action::StartInsert => self.set_mode(Mode::Insert),
            Action::StartEx => self.set_mode(Mode::Ex),
            Action::BackNormal => self.set_mode(Mode::Normal),
        }
    }

    /// Carries out an ex command, but for the writing of a file: the name
    /// of the file to write is handed back.
    pub fn perform_ex_cmd(&mut self, cmd: String) -> (request: Option<String>)
        ensures
            final(self)@ == old(self)@.applied(parsed(cmd@)),
            text_of(request) == file_to_write(parsed(cmd@)),
    {
        let command = parse_ex_command(cmd.as_str());
        match command {
            ExCommand::Nothing => None,
            ExCommand::Quit => {
                self.stop();
                None
            },
            ExCommand::Write(name) => Some(name),
            other => {
                self.error_message = complaint_of(&other);
                None
            },
        }
    }

    /// Handles a key that is bound to nothing in the editor's mode. In
    /// insert mode it types into the buffer, in ex mode it goes to the
    /// command line, in the other modes it does nothing.
    pub fn default_action(&mut self, key: KeyEvent) -> (request: Option<String>)
        requires
            old(self).wf(),
        ensures
            final(self)@ == old(self)@.defaulted(key),
            final(self).wf(),
            text_of(request) == (if old(self)@.mode == Mode::Ex {
                match old(self)@.bar.outcome(key) {
                    ExOutcome::Finished(line) => file_to_write(parsed(line)),
                    _ => None,
                }
            } else {
                None
            }),
    {
        match self.mode {
            Mode::Insert => {
                if key.modifiers.is_empty() {
                    match key.code {
                        KeyCode::Char(chr) => {
                            if self.window.can_insert(chr) {
                                self.window.insert_char(chr);
                            }
                        },
                        KeyCode::Enter => self.window.insert_enter(),
                        KeyCode::Backspace => self.window.backspace(),
                        KeyCode::Delete => self.window.delete(),
                        _ => {},
                    }
                }
                None
            },
            Mode::Ex => {
                match self.bar.handle_key(key) {
                    ExResult::Aborted => {
                        self.set_mode(Mode::Normal);
                        None
                    },
                    ExResult::StillEditing => None,
                    ExResult::Finished(cmd) => {
                        let request = self.perform_ex_cmd(cmd);
                        self.set_mode(Mode::Normal);
                        request
                    },
                }
            },
            _ => None,
        }
    }

    /// Handles a key: carries out the action that the key is bound to in
    /// the editor's mode or, if it is bound to nothing, what the mode does
    /// with such keys. Where the key asks to write the buffer to a file,
    /// the file's name is handed back; the caller writes the file and
    /// reports with [`RVim::report_write`].
    pub fn handle_key(&mut self, key: KeyEvent) -> (request: Option<String>)
        requires
            old(self).wf(),
        ensures
            final(self)@ == old(self)@.after_key(key),
            final(self).wf(),
            text_of(request) == old(self)@.request(key),
    {
        match self.keymaps.get_mapping(&self.mode, &key) {
            Some(action) => {
                self.perform(action);
                None
            },
            None => self.default_action(key),
        }
    }

    /// Takes note of how writing the buffer ended: a failure becomes the
    /// message on the status line.
    pub fn report_write(&mut self, outcome: WriteOutcome)
        ensures
            final(self)@ == old(self)@.reported(outcome@),
    {
        match outcome {
            WriteOutcome::Written => {},
            WriteOutcome::OpenFailed(why) => {
                self.error_message = Some(
                    String::from_str("Couldn't open file: ").concat(why.as_str()),
                );
            },
            WriteOutcome::WriteFailed(why) => {
                self.error_message = Some(
                    String::from_str("Couldn't write file: ").concat(why.as_str()),
                );
            },
        }
    }
}

/// Every key keeps an editor well formed.
pub proof fn lemma_key_keeps_editor_wf(e: EditorState, key: KeyEvent)
    requires
        e.wf(),
    ensures
        e.after_key(key).wf(),
{
    let w = e.window;
    lemma_moved_wf(w, 1);
    lemma_moved_wf(w, half_page(w.rows));
    lemma_entered_wf(w);
    lemma_backspaced_wf(w);
    lemma_deleted_wf(w);
    lemma_key_keeps_wf(e.bar, key);
    match key.code {
        KeyCode::Char(c) => lemma_inserted_wf(w, c),
        _ => {},
    }
}

/// A key that is bound to nothing does nothing in normal mode and in
/// operator mode; with the default table, no key does anything in
/// operator mode.
pub proof fn lemma_unbound_key_is_inert(e: EditorState, key: KeyEvent)
    requires
        e.mode == Mode::Normal || e.mode == Mode::Operator,
    ensures
        e.keymaps.binding(e.mode, key).is_none() ==> e.after_key(key) == e && e.request(key)
            == None::<Seq<char>>,
        e.mode == Mode::Operator && e.keymaps.binding(e.mode, key) == default_binding(
            e.mode,
            key,
        ) ==> e.after_key(key) == e,
{
}

/// Only a key that ends the command line leaves ex mode, and it leads to
/// normal mode; only an action bound to a key leads into insert or ex
/// mode. No key leads into operator mode.
pub proof fn lemma_mode_changes(e: EditorState, key: KeyEvent)
    ensures
        e.after_key(key).mode != e.mode ==> e.after_key(key).mode != Mode::Operator,
        e.after_key(key).mode != e.mode && e.keymaps.binding(e.mode, key).is_none() ==> e.mode
            == Mode::Ex && e.after_key(key).mode == Mode::Normal && e.bar.outcome(key)
            != ExOutcome::StillEditing,
        e.after_key(key).keymaps == e.keymaps,
{
}

} // verus!
