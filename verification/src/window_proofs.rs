//! What holds of the operations of a window, proved of their values.

use vstd::prelude::*;
use crate::lines::{
    breaks_before, ends_break, is_break_char, lemma_breaks_monotone, lemma_common_prefix,
    lemma_edit_joins_break, lemma_edit_keeps_line, lemma_edit_keeps_start, lemma_insert_shifts,
    lemma_line_body, lemma_line_inside, lemma_line_start_beyond, lemma_line_start_bounds,
    lemma_line_start_exact, lemma_line_start_from, lemma_line_start_least, lemma_line_start_unique, lemma_no_breaks,
    line_count, line_start, max_col, terminator_len,
};
use crate::window::{least, Step, WindowState};

verus! {

/// Typing a character keeps a window well formed, but where it strands
/// the cursor.
pub proof fn lemma_inserted_wf(w: WindowState, c: char)
    requires
        w.wf(),
    ensures
        w.inserted(c).wf() <==> !w.strands_cursor(c),
{
    let t = w.inserted(c).text;
    let q = line_start(w.text, w.line);
    let p = w.offset();
    lemma_line_start_exact(w.text, w.line);
    if q < p || q == 0 || w.text[q - 1] != '\r' || c != '\n' {
        lemma_edit_keeps_start(w.text, t, p, q);
        lemma_breaks_monotone(t, q, t.len() as int);
    } else {
        lemma_edit_joins_break(w.text, t, p);
        lemma_breaks_monotone(t, p + 1, t.len() as int);
    }
}

/// Typing a line feed keeps a window well formed.
pub proof fn lemma_entered_wf(w: WindowState)
    requires
        w.wf(),
    ensures
        w.entered().wf(),
        w.entered().col_on_line(),
        w.line < line_count(w.entered().text),
{
    let t = w.entered().text;
    lemma_line_start_exact(w.text, w.line);
    lemma_edit_keeps_line(w.text, t, w.offset(), line_start(w.text, w.line));
    lemma_line_start_bounds(t, w.entered().line);
}

/// Taking out the character before the cursor keeps a window well formed.
pub proof fn lemma_backspaced_wf(w: WindowState)
    requires
        w.wf(),
    ensures
        w.backspaced().wf(),
        !(w.col == 0 && w.line == 0) ==> 0 <= w.offset() - 1 < w.text.len(),
        !(w.col == 0 && w.line == 0) ==> line_start(w.backspaced().text, w.backspaced().line)
            <= w.offset() - 1,
{
    if !(w.col == 0 && w.line == 0) {
        lemma_line_start_exact(w.text, w.line);
        let at = w.offset() - 1;
        let t = w.text.remove(at);
        let line = breaks_before(t, at);
        lemma_breaks_monotone(t, at, t.len() as int);
        lemma_line_start_least(t, line, at);
        lemma_line_start_bounds(t, line);
    }
}

/// Taking out the character under the cursor keeps a window well formed.
pub proof fn lemma_deleted_wf(w: WindowState)
    requires
        w.wf(),
    ensures
        w.deleted().wf(),
        w.deleted().col_on_line(),
        w.line < line_count(w.deleted().text),
{
    let t = w.deleted().text;
    lemma_line_start_exact(w.text, w.line);
    lemma_line_start_bounds(t, w.line);
    if w.offset() < w.text.len() {
        lemma_edit_keeps_line(w.text, t, w.offset(), line_start(w.text, w.line));
    }
}

/// Putting the cursor on a line of the buffer that the scroll row shows
/// gives a well-formed window with the cursor on a column of the line.
pub proof fn lemma_placed_wf(w: WindowState, line: nat, scroll_y: nat)
    requires
        w.cols >= 1,
        w.rows >= 1,
        line < line_count(w.text),
        scroll_y <= line < scroll_y + w.rows,
    ensures
        w.placed(line, scroll_y).wf(),
        w.placed(line, scroll_y).col_on_line(),
{
    lemma_line_start_bounds(w.text, line);
}

/// Every motion keeps a window well formed, and every motion but the one
/// to the left puts the cursor on a column of its line.
pub proof fn lemma_moved_wf(w: WindowState, n: nat)
    requires
        w.wf(),
    ensures
        w.moved_down(n).wf(),
        w.moved_down(n).col_on_line(),
        w.moved_up(n).wf(),
        w.moved_up(n).col_on_line(),
        w.moved_left(n).wf(),
        w.col_on_line() ==> w.moved_left(n).col_on_line(),
        w.moved_right(n).wf(),
        w.moved_right(n).col_on_line(),
{
    lemma_line_start_bounds(w.text, w.line);
    let down = w.moved_down(n);
    lemma_placed_wf(w, down.line, down.scroll_y);
    let up = w.moved_up(n);
    lemma_placed_wf(w, up.line, up.scroll_y);
}

/// A change of the screen's size keeps a window well formed.
pub proof fn lemma_resized_wf(w: WindowState, cols: nat, rows: nat)
    requires
        w.wf(),
        cols >= 1,
        rows >= 1,
    ensures
        w.resized(cols, rows).wf(),
{
}

/// In a well-formed window the cursor's row on the screen is one of the
/// screen's rows, and so is its column where the window shows it.
pub proof fn lemma_cursor_on_screen(w: WindowState)
    requires
        w.wf(),
    ensures
        0 <= w.line - w.scroll_y < w.rows,
        w.col_on_screen() ==> 0 <= w.col - w.scroll_x < w.cols,
{
}

/// Moving down lands on a line of the buffer: `n` lines below, or on the
/// last line if there are fewer. From the last line on, moving further
/// down changes nothing about the line.
pub proof fn lemma_down_saturates(w: WindowState, n: nat, m: nat)
    requires
        w.wf(),
    ensures
        w.moved_down(n).line < line_count(w.text),
        w.moved_down(n).line == least((w.line + n) as int, line_count(w.text) - 1),
        w.moved_down(n).moved_down(m).line == w.moved_down(n + m).line,
        w.line + n >= line_count(w.text) - 1 ==> w.moved_down(n).moved_down(m).line
            == line_count(w.text) - 1,
{
    lemma_moved_wf(w, n);
}

/// Moving up by `n` from line `L` lands on line `L - n`, or on line 0 if
/// `n` is larger than `L`.
pub proof fn lemma_up_lands(w: WindowState, n: nat)
    requires
        w.wf(),
    ensures
        w.moved_up(n).line == if w.line >= n {
            w.line - n
        } else {
            0
        },
        w.moved_up(n).scroll_y == least(w.scroll_y as int, w.moved_up(n).line as int),
{
}

/// The remembered column: after a move to the right, one line down and
/// one line up bring the cursor back to the column that the move to the
/// right reached, however short the line below is. This holds where there
/// is a line below, and on the only line. On the last of several lines the
/// way down is barred and the way up leads to the line above, where the
/// column is the same if that line is long enough.
pub proof fn lemma_sticky_column(w: WindowState, k: nat)
    requires
        w.wf(),
    ensures
        w.moved_right(k).moved_down(1).moved_up(1).sticky == w.moved_right(k).col,
        w.line + 1 < line_count(w.text) || w.line == 0 ==> w.moved_right(k).moved_down(
            1,
        ).moved_up(1).line == w.line,
        w.line + 1 < line_count(w.text) || w.line == 0 || w.moved_right(k).col <= max_col(
            w.text,
            (w.line - 1) as nat,
        ) ==> w.moved_right(k).moved_down(1).moved_up(1).col == w.moved_right(k).col,
{
    lemma_moved_wf(w, k);
    lemma_moved_wf(w.moved_right(k), 1);
    lemma_moved_wf(w.moved_right(k).moved_down(1), 1);
}

/// At the origin of the buffer, taking out the character before the
/// cursor changes nothing, whatever the buffer holds.
pub proof fn lemma_backspace_at_origin(w: WindowState)
    requires
        w.col == 0,
        w.line == 0,
    ensures
        w.backspaced() == w,
{
}

/// A change of the screen's size scrolls by the least amount that shows
/// the cursor: not at all in a direction in which the new screen shows the
/// cursor as it is, and else to the first scroll offset from the old one on
/// that shows it, so that no offset `(x, y)` between the two does.
pub proof fn lemma_resize_minimal(w: WindowState, cols: nat, rows: nat, x: nat, y: nat)
    requires
        w.wf(),
        cols >= 1,
        rows >= 1,
    ensures
        w.resized(cols, rows).col == w.col,
        w.resized(cols, rows).line == w.line,
        w.line < w.scroll_y + rows ==> w.resized(cols, rows).scroll_y == w.scroll_y,
        w.col < w.scroll_x + cols ==> w.resized(cols, rows).scroll_x == w.scroll_x,
        w.resized(cols, rows).scroll_y <= w.line < w.resized(cols, rows).scroll_y + rows,
        w.scroll_x <= w.col ==> w.resized(cols, rows).col_on_screen(),
        w.scroll_y <= y && w.line < y + rows ==> w.resized(cols, rows).scroll_y <= y,
        w.scroll_x <= x && w.col < x + cols ==> w.resized(cols, rows).scroll_x <= x,
{
}

/// Behind a column of its line the cursor goes one column to the left
/// when the character before it is taken out, and stays on its line, which
/// gets one column shorter. Set aside is the character between a CR and an
/// LF, which become one line break when it goes.
pub proof fn lemma_backspace_in_line(w: WindowState)
    requires
        w.wf(),
        w.col_on_line(),
        w.col >= 1,
        !(w.offset() >= 2 && w.offset() < w.text.len() && w.text[w.offset() - 2] == '\r'
            && w.text[w.offset()] == '\n'),
    ensures
        w.backspaced().text == w.text.remove(w.offset() - 1),
        w.backspaced().line == w.line,
        w.backspaced().col == w.col - 1,
        w.backspaced().scroll_y == w.scroll_y,
        !is_break_char(w.text[w.offset() - 1]),
        max_col(w.backspaced().text, w.line) == max_col(w.text, w.line) - 1,
        w.backspaced().col_on_line(),
{
    let s = w.text;
    let q = line_start(s, w.line);
    let e = line_start(s, w.line + 1);
    let at = w.offset() - 1;
    let t = s.remove(at);
    lemma_line_start_exact(s, w.line);
    lemma_line_start_bounds(s, w.line);
    lemma_line_body(s, w.line, at);
    lemma_edit_keeps_start(s, t, at, q);
    assert forall|j: int| q <= j < at implies !is_break_char(t[j]) by {
        lemma_line_body(s, w.line, j);
    }
    lemma_no_breaks(t, q, at);
    assert(t.insert(at, s[at]) =~= s);
    lemma_insert_shifts(t, at, s[at], t.len() as int);
    if w.line + 1 < line_count(s) {
        lemma_line_start_exact(s, w.line + 1);
        assert(breaks_before(s, 0) == 0);
        assert(ends_break(s, e - 1));
        assert(terminator_len(s, q, e) >= 1);
        lemma_insert_shifts(t, at, s[at], e - 1);
        lemma_insert_shifts(t, at, s[at], e - 2);
        assert(ends_break(t, e - 2));
        lemma_line_start_unique(t, w.line + 1, e - 1);
        assert(t[e - 2] == s[e - 1]);
        if e - 3 >= at {
            assert(t[e - 3] == s[e - 2]);
        }
    } else {
        lemma_line_start_beyond(s, w.line + 1);
        lemma_line_start_beyond(t, w.line + 1);
        lemma_line_inside(s, w.line, e - 1);
        if e - 2 >= q {
            lemma_line_inside(t, w.line, e - 2);
        }
    }
    assert(terminator_len(t, q, e - 1) == terminator_len(s, q, e));
}

/// At the start of a line the cursor goes behind the last column of the
/// line above when the line break before it is taken out, and the window
/// scrolls as for a move one line up. The place reached is a column of the
/// joined line. Set aside are a break of two characters, of which only the
/// second goes, and a break between a CR and an LF, which become one line
/// break when it goes.
pub proof fn lemma_backspace_joins_lines(w: WindowState)
    requires
        w.wf(),
        w.col == 0,
        w.line >= 1,
        !(w.offset() >= 2 && w.text[w.offset() - 2] == '\r' && w.text[w.offset() - 1] == '\n'),
        !(w.offset() >= 2 && w.offset() < w.text.len() && w.text[w.offset() - 2] == '\r'
            && w.text[w.offset()] == '\n'),
    ensures
        w.backspaced().text == w.text.remove(w.offset() - 1),
        w.backspaced().line == w.line - 1,
        w.backspaced().col == max_col(w.text, (w.line - 1) as nat),
        w.backspaced().col == w.offset() - 1 - line_start(w.text, (w.line - 1) as nat),
        w.backspaced().scroll_y == least(w.scroll_y as int, w.line - 1),
        w.backspaced().scroll_y == w.moved_up(1).scroll_y,
        is_break_char(w.text[w.offset() - 1]),
        w.backspaced().col_on_line(),
{
    let s = w.text;
    let above = (w.line - 1) as nat;
    let q = line_start(s, w.line);
    let r = line_start(s, above);
    let at = q - 1;
    lemma_line_start_exact(s, w.line);
    lemma_line_start_exact(s, above);
    lemma_line_start_bounds(s, above);
    assert(breaks_before(s, 0) == 0);
    assert(ends_break(s, at));
    assert(breaks_before(s, q) == breaks_before(s, at) + 1);
    assert(r <= at);
    let t = s.remove(at);
    lemma_edit_keeps_start(s, t, at, r);
    if at > 0 {
        lemma_common_prefix(s, t, at, at - 1);
        assert(ends_break(t, at - 1) == ends_break(s, at - 1));
        assert(breaks_before(t, at) == breaks_before(s, at));
    }
    assert(breaks_before(t, at) == above);
    let end = line_start(t, w.line);
    lemma_line_start_from(t, w.line, 0);
    if end < at {
        lemma_breaks_monotone(t, end, at);
    }
    assert(at <= end);
    if r < at {
        lemma_line_body(s, above, at - 1);
        assert(t[at - 1] == s[at - 1]);
    }
    if at < t.len() {
        assert(t[at] == s[at + 1]);
    }
    assert(terminator_len(t, r, end) <= end - at);
}

/// A character that is no line break, typed on a column of the line,
/// makes the line one column longer and leaves the cursor on a column of
/// it; the number of lines stays.
pub proof fn lemma_insert_in_line(w: WindowState, c: char)
    requires
        w.wf(),
        w.col_on_line(),
        !is_break_char(c),
    ensures
        w.inserted(c).wf(),
        w.inserted(c).col_on_line(),
        max_col(w.inserted(c).text, w.line) == max_col(w.text, w.line) + 1,
        line_count(w.inserted(c).text) == line_count(w.text),
{
    let s = w.text;
    let p = w.offset();
    let t = s.insert(p, c);
    let q = line_start(s, w.line);
    let e = line_start(s, w.line + 1);
    lemma_line_start_exact(s, w.line);
    lemma_line_start_bounds(s, w.line);
    lemma_inserted_wf(w, c);
    if p > q {
        lemma_line_body(s, w.line, p - 1);
    }
    lemma_edit_keeps_start(s, t, p, q);
    lemma_insert_shifts(s, p, c, s.len() as int);
    if w.line + 1 < line_count(s) {
        lemma_line_start_exact(s, w.line + 1);
        assert(breaks_before(s, 0) == 0);
        assert(ends_break(s, e - 1));
        assert(terminator_len(s, q, e) >= 1);
        lemma_insert_shifts(s, p, c, e);
        lemma_insert_shifts(s, p, c, e - 1);
        assert(ends_break(t, e));
        lemma_line_start_unique(t, w.line + 1, e + 1);
        assert(t[e] == s[e - 1]);
        if e - 2 >= p {
            assert(t[e - 1] == s[e - 2]);
        }
    } else {
        lemma_line_start_beyond(s, w.line + 1);
        lemma_line_start_beyond(t, w.line + 1);
        if e - 1 >= p {
            assert(t[e] == s[e - 1]);
        }
    }
    assert(terminator_len(t, q, e + 1) == terminator_len(s, q, e));
}

/// Typing a line feed is typing the character, then moving one line down,
/// then going to column 0.
pub proof fn lemma_enter_is_insert_then_down(w: WindowState)
    requires
        w.wf(),
    ensures
        w.entered() == (WindowState { col: 0, ..w.inserted('\n').moved_down(1) }),
{
}

/// One step keeps a window well formed.
pub proof fn lemma_step_keeps_wf(w: WindowState, step: Step)
    requires
        w.wf(),
        w.admits(step),
    ensures
        w.after(step).wf(),
{
    match step {
        Step::Down(n) => lemma_moved_wf(w, n),
        Step::Up(n) => lemma_moved_wf(w, n),
        Step::Left(n) => lemma_moved_wf(w, n),
        Step::Right(n) => lemma_moved_wf(w, n),
        Step::Resize(cols, rows) => lemma_resized_wf(w, cols, rows),
        Step::Type(c) => lemma_inserted_wf(w, c),
        Step::Enter => lemma_entered_wf(w),
        Step::Backspace => lemma_backspaced_wf(w),
        Step::Delete => lemma_deleted_wf(w),
        Step::SetText(text) => lemma_line_start_bounds(text, 0),
    }
}

/// After any sequence of motions, edits and changes of size a window is
/// well formed, so that its cursor is on a line of the buffer and on a row
/// of the screen.
pub proof fn lemma_steps_keep_wf(w: WindowState, steps: Seq<Step>)
    requires
        w.wf(),
        w.admits_all(steps),
    ensures
        w.after_all(steps).wf(),
        w.after_all(steps).line < line_count(w.after_all(steps).text),
        0 <= w.after_all(steps).line - w.after_all(steps).scroll_y < w.after_all(steps).rows,
    decreases steps.len(),
{
    if steps.len() > 0 {
        lemma_step_keeps_wf(w, steps[0]);
        lemma_steps_keep_wf(w.after(steps[0]), steps.drop_first());
    }
}

} // verus!
