//! The viewport: one buffer, a screen size, a scroll offset and a cursor.
//!
//! Every operation is described twice: as a function on [`WindowState`],
//! the mathematical value of a window, and as a method of [`Window`] that
//! is proved to compute it.
//!
//! Columns: on every line the cursor may stand on any character but those
//! of the line break, and on the position behind the last such character.
//! So the largest column of a line is its length without its line break,
//! whether or not the line has one; a CR LF pair counts as one break.

use vstd::prelude::*;
use ropey::Rope;
use crate::buffer::{
    rope_char, rope_char_to_line, rope_insert_char, rope_len_chars, rope_len_lines,
    rope_line_string, rope_line_to_char, rope_new, rope_remove_char, rope_text,
};
use crate::lines::{
    breaks_before, is_break_char, is_newline, lemma_line_start_bounds, line_count, line_start,
    line_text, max_col,
};
use crate::window_proofs::{
    lemma_backspaced_wf, lemma_deleted_wf, lemma_entered_wf, lemma_insert_in_line,
    lemma_inserted_wf,
};

verus! {

/// The smaller of two numbers.
pub open spec fn least(a: int, b: int) -> int {
    if a <= b {
        a
    } else {
        b
    }
}

/// The scroll row that shows `line` on `rows` rows with the least change
/// from `scroll`.
pub open spec fn scroll_to_show(scroll: nat, rows: nat, line: nat) -> nat {
    if line < scroll {
        line
    } else if line >= scroll + rows {
        (line - rows + 1) as nat
    } else {
        scroll
    }
}

/// The value of a window.
pub struct WindowState {
    /// The characters of the buffer.
    pub text: Seq<char>,
    /// The width of the screen.
    pub cols: nat,
    /// The height of the screen.
    pub rows: nat,
    /// The buffer column shown in the screen's first column.
    pub scroll_x: nat,
    /// The buffer line shown in the screen's first row.
    pub scroll_y: nat,
    /// The cursor's column.
    pub col: nat,
    /// The cursor's line.
    pub line: nat,
    /// The column that vertical motion goes back to.
    pub sticky: nat,
}

impl WindowState {
    /// The offset of the cursor in the text.
    pub open spec fn offset(self) -> int {
        line_start(self.text, self.line) + self.col
    }

    /// The invariant of a window: the screen is not empty, the cursor is
    /// on a line of the buffer and at an offset of its text, and the
    /// cursor's line is on the screen.
    pub open spec fn wf(self) -> bool {
        &&& self.cols >= 1
        &&& self.rows >= 1
        &&& self.line < line_count(self.text)
        &&& self.offset() <= self.text.len()
        &&& self.scroll_y <= self.line < self.scroll_y + self.rows
    }

    /// The cursor stands on a column that the line admits.
    pub open spec fn col_on_line(self) -> bool {
        self.col <= max_col(self.text, self.line)
    }

    /// The cursor's column is on the screen.
    pub open spec fn col_on_screen(self) -> bool {
        self.scroll_x <= self.col < self.scroll_x + self.cols
    }

    /// The window of the given size on an empty buffer.
    pub open spec fn empty(cols: nat, rows: nat) -> WindowState {
        WindowState {
            text: Seq::<char>::empty(),
            cols,
            rows,
            scroll_x: 0,
            scroll_y: 0,
            col: 0,
            line: 0,
            sticky: 0,
        }
    }

    /// The window after its buffer was replaced.
    pub open spec fn with_text(self, text: Seq<char>) -> WindowState {
        WindowState { text, scroll_x: 0, scroll_y: 0, col: 0, line: 0, sticky: 0, ..self }
    }

    /// The cursor on `line`, at the remembered column as far as the line
    /// admits it, with vertical scroll `scroll_y`.
    pub open spec fn placed(self, line: nat, scroll_y: nat) -> WindowState {
        WindowState {
            line,
            scroll_y,
            col: least(self.sticky as int, max_col(self.text, line)) as nat,
            ..self
        }
    }

    /// The line that moving down by `n` reaches.
    pub open spec fn line_below(self, n: nat) -> nat {
        least((self.line + n) as int, line_count(self.text) - 1) as nat
    }

    /// The line that moving up by `n` reaches.
    pub open spec fn line_above(self, n: nat) -> nat {
        if n > self.line {
            0
        } else {
            (self.line - n) as nat
        }
    }

    /// The window after the cursor moved down by `n` lines.
    pub open spec fn moved_down(self, n: nat) -> WindowState {
        let target = self.line_below(n);
        let scroll_y = if target >= self.scroll_y + self.rows {
            (target - self.rows + 1) as nat
        } else {
            self.scroll_y
        };
        self.placed(target, scroll_y)
    }

    /// The window after the cursor moved up by `n` lines.
    pub open spec fn moved_up(self, n: nat) -> WindowState {
        let target = self.line_above(n);
        let scroll_y = if target < self.scroll_y {
            target
        } else {
            self.scroll_y
        };
        self.placed(target, scroll_y)
    }

    /// The window after the cursor moved left by `n` columns.
    pub open spec fn moved_left(self, n: nat) -> WindowState {
        let col = if n > self.col {
            0
        } else {
            (self.col - n) as nat
        };
        WindowState { col, sticky: col, ..self }
    }

    /// The window after the cursor moved right by `n` columns.
    pub open spec fn moved_right(self, n: nat) -> WindowState {
        let col = least((self.col + n) as int, max_col(self.text, self.line)) as nat;
        WindowState { col, sticky: col, ..self }
    }

    /// The window after the screen changed its size.
    pub open spec fn resized(self, cols: nat, rows: nat) -> WindowState {
        let scroll_y = if self.line >= self.scroll_y + rows {
            (self.line - rows + 1) as nat
        } else {
            self.scroll_y
        };
        let scroll_x = if self.col >= self.scroll_x + cols {
            (self.col - cols + 1) as nat
        } else {
            self.scroll_x
        };
        WindowState { cols, rows, scroll_x, scroll_y, ..self }
    }

    /// Typing `c` would leave the cursor beyond the text. This happens in
    /// one place only: the text ends in a CR, the cursor is behind it at
    /// the start of the last line, and `c` is an LF. CR and LF then form
    /// one line break, the last line starts behind it, and there is no
    /// column to the right of its start.
    pub open spec fn strands_cursor(self, c: char) -> bool {
        &&& c == '\n'
        &&& self.col == 0
        &&& self.offset() == self.text.len()
        &&& self.offset() >= 1
        &&& self.text[self.offset() - 1] == '\r'
    }

    /// The window after `c` was typed at the cursor.
    pub open spec fn inserted(self, c: char) -> WindowState {
        WindowState { text: self.text.insert(self.offset(), c), col: self.col + 1, ..self }
    }

    /// The window after a line feed was typed at the cursor: the cursor
    /// goes to the start of the next line.
    pub open spec fn entered(self) -> WindowState {
        let text = self.text.insert(self.offset(), '\n');
        let line = least((self.line + 1) as int, line_count(text) - 1) as nat;
        let scroll_y = if line >= self.scroll_y + self.rows {
            (line - self.rows + 1) as nat
        } else {
            self.scroll_y
        };
        WindowState { text, line, scroll_y, col: 0, ..self }
    }

    /// The window after the character before the cursor was taken out.
    /// The cursor goes to the place where that character stood: on the
    /// same line one column to the left or, if a line break went, behind
    /// the last character of the line above.
    pub open spec fn backspaced(self) -> WindowState {
        if self.col == 0 && self.line == 0 {
            self
        } else {
            let at = self.offset() - 1;
            let text = self.text.remove(at);
            let line = breaks_before(text, at);
            WindowState {
                text,
                line,
                col: (at - line_start(text, line)) as nat,
                scroll_y: scroll_to_show(self.scroll_y, self.rows, line),
                ..self
            }
        }
    }

    /// The window after the character under the cursor, if there is one,
    /// was taken out.
    pub open spec fn deleted(self) -> WindowState {
        let text = if self.offset() < self.text.len() {
            self.text.remove(self.offset())
        } else {
            self.text
        };
        WindowState {
            text,
            col: least(self.col as int, max_col(text, self.line)) as nat,
            ..self
        }
    }

    /// The first line that is shown from screen row `row` on.
    pub open spec fn first_shown(self, row: nat) -> nat {
        self.scroll_y + row
    }

    /// The number of lines that are shown from screen row `row` on.
    pub open spec fn shown_count(self, row: nat) -> nat {
        if row <= self.rows && self.first_shown(row) <= line_count(self.text) {
            least(self.rows - row, line_count(self.text) - self.first_shown(row)) as nat
        } else {
            0
        }
    }
}

/// One thing done to a window.
pub enum Step {
    /// The cursor moves down by so many lines.
    Down(nat),
    /// The cursor moves up by so many lines.
    Up(nat),
    /// The cursor moves left by so many columns.
    Left(nat),
    /// The cursor moves right by so many columns.
    Right(nat),
    /// The screen takes a new size: columns, then rows.
    Resize(nat, nat),
    /// A character is typed.
    Type(char),
    /// A line feed is typed.
    Enter,
    /// The character before the cursor is taken out.
    Backspace,
    /// The character under the cursor is taken out.
    Delete,
    /// The buffer is replaced.
    SetText(Seq<char>),
}

impl WindowState {
    /// Whether `step` can be taken: a screen is never made empty, and no
    /// character is typed where it would strand the cursor.
    pub open spec fn admits(self, step: Step) -> bool {
        match step {
            Step::Resize(cols, rows) => cols >= 1 && rows >= 1,
            Step::Type(c) => !self.strands_cursor(c),
            _ => true,
        }
    }

    /// The window after `step`.
    pub open spec fn after(self, step: Step) -> WindowState {
        match step {
            Step::Down(n) => self.moved_down(n),
            Step::Up(n) => self.moved_up(n),
            Step::Left(n) => self.moved_left(n),
            Step::Right(n) => self.moved_right(n),
            Step::Resize(cols, rows) => self.resized(cols, rows),
            Step::Type(c) => self.inserted(c),
            Step::Enter => self.entered(),
            Step::Backspace => self.backspaced(),
            Step::Delete => self.deleted(),
            Step::SetText(text) => self.with_text(text),
        }
    }

    /// Whether the steps can be taken one after the other.
    pub open spec fn admits_all(self, steps: Seq<Step>) -> bool
        decreases steps.len(),
    {
        steps.len() == 0 || (self.admits(steps[0]) && self.after(steps[0]).admits_all(
            steps.drop_first(),
        ))
    }

    /// The window after the steps, taken one after the other.
    pub open spec fn after_all(self, steps: Seq<Step>) -> WindowState
        decreases steps.len(),
    {
        if steps.len() == 0 {
            self
        } else {
            self.after(steps[0]).after_all(steps.drop_first())
        }
    }
}

/// A viewport on a buffer.
pub struct Window {
    buffer: Rope,
    size: (u16, u16),
    scroll_offset: (usize, usize),
    cursor: (usize, usize),
    cursor_x_saved: usize,
}

impl View for Window {
    type V = WindowState;

    closed spec fn view(&self) -> WindowState {
        WindowState {
            text: rope_text(self.buffer),
            cols: self.size.0 as nat,
            rows: self.size.1 as nat,
            scroll_x: self.scroll_offset.0 as nat,
            scroll_y: self.scroll_offset.1 as nat,
            col: self.cursor.0 as nat,
            line: self.cursor.1 as nat,
            sticky: self.cursor_x_saved as nat,
        }
    }
}

impl Window {
    /// The invariant of the window; see [`WindowState::wf`].
    pub open spec fn wf(&self) -> bool {
        self@.wf()
    }

    /// A window of the given size on an empty buffer.
    pub fn new(width: u16, height: u16) -> (w: Window)
        requires
            width >= 1,
            height >= 1,
        ensures
            w@ == WindowState::empty(width as nat, height as nat),
            w.wf(),
    {
        let w = Window {
            buffer: rope_new(),
            size: (width, height),
            scroll_offset: (0, 0),
            cursor: (0, 0),
            cursor_x_saved: 0,
        };
        w
    }

    /// The buffer.
    pub fn buffer(&self) -> (rope: &Rope)
        ensures
            rope_text(*rope) == self@.text,
    {
        &self.buffer
    }

    /// The screen size: columns, then rows.
    pub fn size(&self) -> (size: (u16, u16))
        ensures
            size.0 == self@.cols,
            size.1 == self@.rows,
    {
        self.size
    }

    /// The cursor: column, then line.
    pub fn cursor(&self) -> (cursor: (usize, usize))
        ensures
            cursor.0 == self@.col,
            cursor.1 == self@.line,
    {
        self.cursor
    }

    /// The scroll offset: column, then line.
    pub fn scroll_offset(&self) -> (offset: (usize, usize))
        ensures
            offset.0 == self@.scroll_x,
            offset.1 == self@.scroll_y,
    {
        self.scroll_offset
    }

    /// The column that vertical motion goes back to.
    pub fn sticky_column(&self) -> (col: usize)
        ensures
            col == self@.sticky,
    {
        self.cursor_x_saved
    }

    /// Whether the cursor's column is on the screen.
    pub fn cursor_column_on_screen(&self) -> (r: bool)
        ensures
            r == self@.col_on_screen(),
    {
        self.scroll_offset.0 <= self.cursor.0 && self.cursor.0 - self.scroll_offset.0
            < self.size.0 as usize
    }

    /// The cursor's place on the screen: column, then row.
    pub fn rel_cursor_pos(&self) -> (pos: (u16, u16))
        requires
            self.wf(),
            self@.col_on_screen(),
        ensures
            pos.0 == self@.col - self@.scroll_x,
            pos.1 == self@.line - self@.scroll_y,
            pos.0 < self@.cols,
            pos.1 < self@.rows,
    {
        (
            (self.cursor.0 - self.scroll_offset.0) as u16,
            (self.cursor.1 - self.scroll_offset.1) as u16,
        )
    }

    /// Replaces the buffer and puts cursor and scroll at the origin. This
    /// makes any window with a screen well formed.
    pub fn set_buffer(&mut self, buffer: Rope)
        requires
            old(self)@.cols >= 1,
            old(self)@.rows >= 1,
        ensures
            final(self)@ == old(self)@.with_text(rope_text(buffer)),
            final(self).wf(),
    {
        self.buffer = buffer;
        self.scroll_offset = (0, 0);
        self.cursor = (0, 0);
        self.cursor_x_saved = 0;
        proof {
            lemma_line_start_bounds(self@.text, 0);
        }
    }

    /// The offset of the cursor in the buffer, and the buffer's length.
    fn cursor_offset(&self) -> (r: (usize, usize))
        requires
            self.wf(),
        ensures
            r.0 == self@.offset(),
            r.1 == self@.text.len(),
            self@.col <= r.0 <= r.1,
    {
        let len = rope_len_chars(&self.buffer);
        let start = rope_line_to_char(&self.buffer, self.cursor.1);
        (start + self.cursor.0, len)
    }

    /// The largest column of a line.
    fn line_max_col(&self, line: usize) -> (m: usize)
        requires
            line < line_count(self@.text),
        ensures
            m == max_col(self@.text, line as nat),
            line_start(self@.text, line as nat) + m <= self@.text.len(),
    {
        proof {
            lemma_line_start_bounds(self@.text, line as nat);
        }
        // The number of lines is a machine integer, so `line + 1` is one too.
        let _lines = rope_len_lines(&self.buffer);
        let a = rope_line_to_char(&self.buffer, line);
        let b = rope_line_to_char(&self.buffer, line + 1);
        let len = b - a;
        if len == 0 {
            return 0;
        }
        let last = rope_char(&self.buffer, b - 1);
        if !is_newline(last) {
            len
        } else if len >= 2 && last == '\n' && rope_char(&self.buffer, b - 2) == '\r' {
            len - 2
        } else {
            len - 1
        }
    }

    /// Puts the cursor on `line`, at the remembered column as far as the
    /// line admits it.
    fn place_cursor(&mut self, line: usize, scroll_y: usize)
        requires
            old(self)@.cols >= 1,
            old(self)@.rows >= 1,
            line < line_count(old(self)@.text),
            scroll_y <= line < scroll_y + old(self)@.rows,
        ensures
            final(self)@ == old(self)@.placed(line as nat, scroll_y as nat),
            final(self).wf(),
            final(self)@.col_on_line(),
    {
        let m = self.line_max_col(line);
        self.scroll_offset.1 = scroll_y;
        self.cursor.1 = line;
        self.cursor.0 = if self.cursor_x_saved <= m {
            self.cursor_x_saved
        } else {
            m
        };
    }

    /// Moves the cursor down by `lines` lines, at most to the last line,
    /// and scrolls just far enough to show it.
    pub fn move_cursor_down(&mut self, lines: usize)
        requires
            old(self).wf(),
        ensures
            final(self)@ == old(self)@.moved_down(lines as nat),
            final(self).wf(),
            final(self)@.col_on_line(),
    {
        let limit = rope_len_lines(&self.buffer) - 1;
        let target = if lines > limit - self.cursor.1 {
            limit
        } else {
            self.cursor.1 + lines
        };
        let scroll_y = if target - self.scroll_offset.1 >= self.size.1 as usize {
            target - self.size.1 as usize + 1
        } else {
            self.scroll_offset.1
        };
        self.place_cursor(target, scroll_y);
    }

    /// Moves the cursor up by `lines` lines, at most to the first line,
    /// and scrolls just far enough to show it.
    pub fn move_cursor_up(&mut self, lines: usize)
        requires
            old(self).wf(),
        ensures
            final(self)@ == old(self)@.moved_up(lines as nat),
            final(self).wf(),
            final(self)@.col_on_line(),
    {
        let target = if lines > self.cursor.1 {
            0
        } else {
            self.cursor.1 - lines
        };
        let scroll_y = if target < self.scroll_offset.1 {
            target
        } else {
            self.scroll_offset.1
        };
        self.place_cursor(target, scroll_y);
    }

    /// Moves the cursor left by `cols` columns, at most to column 0, and
    /// remembers the column reached.
    pub fn move_cursor_left(&mut self, cols: usize)
        requires
            old(self).wf(),
        ensures
            final(self)@ == old(self)@.moved_left(cols as nat),
            final(self).wf(),
            old(self)@.col_on_line() ==> final(self)@.col_on_line(),
    {
        self.cursor.0 = if cols > self.cursor.0 {
            0
        } else {
            self.cursor.0 - cols
        };
        self.cursor_x_saved = self.cursor.0;
    }

    /// Moves the cursor right by `cols` columns, at most to the line's
    /// largest column, and remembers the column reached.
    pub fn move_cursor_right(&mut self, cols: usize)
        requires
            old(self).wf(),
        ensures
            final(self)@ == old(self)@.moved_right(cols as nat),
            final(self).wf(),
            final(self)@.col_on_line(),
    {
        let m = self.line_max_col(self.cursor.1);
        self.cursor.0 = if self.cursor.0 >= m || cols >= m - self.cursor.0 {
            m
        } else {
            self.cursor.0 + cols
        };
        self.cursor_x_saved = self.cursor.0;
    }

    /// Takes a new screen size. Scrolls in each direction by as much as
    /// the cursor is beyond the new size, and no more; the cursor stays.
    pub fn resize(&mut self, width: u16, height: u16)
        requires
            old(self).wf(),
            width >= 1,
            height >= 1,
        ensures
            final(self)@ == old(self)@.resized(width as nat, height as nat),
            final(self).wf(),
    {
        if self.cursor.1 - self.scroll_offset.1 >= height as usize {
            self.scroll_offset.1 = self.cursor.1 - height as usize + 1;
        }
        if self.cursor.0 >= self.scroll_offset.0 && self.cursor.0 - self.scroll_offset.0
            >= width as usize {
            self.scroll_offset.0 = self.cursor.0 - width as usize + 1;
        }
        self.size = (width, height);
    }

    /// Whether `chr` can be typed at the cursor without leaving the cursor
    /// beyond the text; see [`WindowState::strands_cursor`].
    pub fn can_insert(&self, chr: char) -> (r: bool)
        requires
            self.wf(),
        ensures
            r == !self@.strands_cursor(chr),
    {
        if chr != '\n' || self.cursor.0 != 0 {
            return true;
        }
        let (at, len) = self.cursor_offset();
        !(at == len && at >= 1 && rope_char(&self.buffer, at - 1) == '\r')
    }

    /// Puts `chr` in at the cursor and moves the cursor one column to the
    /// right. This keeps the window well formed but in the one place that
    /// [`WindowState::strands_cursor`] describes. A line break is typed
    /// with [`Window::insert_enter`].
    pub fn insert_char(&mut self, chr: char)
        requires
            old(self).wf(),
        ensures
            final(self)@ == old(self)@.inserted(chr),
            final(self).wf() <==> !old(self)@.strands_cursor(chr),
            old(self)@.col_on_line() && !is_break_char(chr) ==> final(self)@.col_on_line(),
    {
        let (index, _) = self.cursor_offset();
        rope_insert_char(&mut self.buffer, index, chr);
        // The text now has a place behind `index`, and its length is a
        // machine integer, so the column is one too.
        let _grown = rope_len_chars(&self.buffer);
        self.cursor.0 += 1;
        proof {
            lemma_inserted_wf(old(self)@, chr);
            if old(self)@.col_on_line() && !is_break_char(chr) {
                lemma_insert_in_line(old(self)@, chr);
            }
        }
    }

    /// Puts a line feed in at the cursor and moves the cursor to the start
    /// of the next line.
    pub fn insert_enter(&mut self)
        requires
            old(self).wf(),
        ensures
            final(self)@ == old(self)@.entered(),
            final(self).wf(),
            final(self)@.col_on_line(),
    {
        let (index, _) = self.cursor_offset();
        rope_insert_char(&mut self.buffer, index, '\n');
        proof {
            lemma_entered_wf(old(self)@);
        }
        let limit = rope_len_lines(&self.buffer) - 1;
        let target = if self.cursor.1 < limit {
            self.cursor.1 + 1
        } else {
            limit
        };
        if target - self.scroll_offset.1 >= self.size.1 as usize {
            self.scroll_offset.1 = target - self.size.1 as usize + 1;
        }
        self.cursor = (0, target);
    }

    /// Takes out the character before the cursor and puts the cursor in
    /// its place. Does nothing at the origin of the buffer.
    pub fn backspace(&mut self)
        requires
            old(self).wf(),
        ensures
            final(self)@ == old(self)@.backspaced(),
            final(self).wf(),
            old(self)@.col == 0 && old(self)@.line == 0 ==> final(self)@ == old(self)@,
    {
        if self.cursor.0 == 0 && self.cursor.1 == 0 {
            return ;
        }
        proof {
            lemma_backspaced_wf(old(self)@);
        }
        let (behind, _) = self.cursor_offset();
        let index = behind - 1;
        rope_remove_char(&mut self.buffer, index);
        let new_line = rope_char_to_line(&self.buffer, index);
        if new_line < self.scroll_offset.1 {
            self.scroll_offset.1 = new_line;
        } else if new_line - self.scroll_offset.1 >= self.size.1 as usize {
            self.scroll_offset.1 = new_line - self.size.1 as usize + 1;
        }
        self.cursor.1 = new_line;
        self.cursor.0 = index - rope_line_to_char(&self.buffer, new_line);
    }

    /// Takes out the character under the cursor, if there is one, and
    /// brings the cursor back onto the line if the line got shorter.
    pub fn delete(&mut self)
        requires
            old(self).wf(),
        ensures
            final(self)@ == old(self)@.deleted(),
            final(self).wf(),
            final(self)@.col_on_line(),
    {
        let (index, len) = self.cursor_offset();
        if index < len {
            rope_remove_char(&mut self.buffer, index);
        }
        proof {
            lemma_deleted_wf(old(self)@);
        }
        let m = self.line_max_col(self.cursor.1);
        if self.cursor.0 > m {
            self.cursor.0 = m;
        }
    }

    /// The lines on the screen, from the first row on.
    pub fn visible_lines(&self) -> (lines: Vec<String>)
        requires
            self.wf(),
        ensures
            lines@.len() == self@.shown_count(0),
            forall|i: int|
                0 <= i < lines@.len() ==> (#[trigger] lines@[i])@ == line_text(
                    self@.text,
                    (self@.first_shown(0) + i) as nat,
                ),
    {
        self.visible_lines_from(0)
    }

    /// The lines on the screen, from row `line` on: none if the row is
    /// beyond the screen or the buffer.
    pub fn visible_lines_from(&self, line: u16) -> (lines: Vec<String>)
        requires
            self.wf(),
        ensures
            lines@.len() == self@.shown_count(line as nat),
            forall|i: int|
                0 <= i < lines@.len() ==> (#[trigger] lines@[i])@ == line_text(
                    self@.text,
                    (self@.first_shown(line as nat) + i) as nat,
                ),
    {
        let mut lines: Vec<String> = Vec::new();
        let total = rope_len_lines(&self.buffer);
        if line > self.size.1 || total - self.scroll_offset.1 < line as usize {
            return lines;
        }
        let first = self.scroll_offset.1 + line as usize;
        let room = (self.size.1 - line) as usize;
        let count = if room <= total - first {
            room
        } else {
            total - first
        };
        let mut i: usize = 0;
        while i < count
            invariant
                i <= count,
                first + count <= total,
                total == line_count(self@.text),
                lines@.len() == i,
                forall|j: int|
                    0 <= j < i ==> (#[trigger] lines@[j])@ == line_text(
                        self@.text,
                        (first + j) as nat,
                    ),
            decreases count - i,
        {
            lines.push(rope_line_string(&self.buffer, first + i));
            i += 1;
        }
        lines
    }
}

} // verus!
