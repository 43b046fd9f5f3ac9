use ropey::Rope;
use rvim::window::Window;

fn window_on(text: &str, width: u16, height: u16) -> Window {
    let mut w = Window::new(width, height);
    w.set_buffer(Rope::from_str(text));
    w
}

fn text_of(w: &Window) -> String {
    w.buffer().to_string()
}

#[test]
fn new_window_is_empty_at_origin() {
    let w = Window::new(80, 24);
    assert_eq!(text_of(&w), "");
    assert_eq!(w.size(), (80, 24));
    assert_eq!(w.cursor(), (0, 0));
    assert_eq!(w.scroll_offset(), (0, 0));
    assert_eq!(w.sticky_column(), 0);
    assert_eq!(w.rel_cursor_pos(), (0, 0));
    assert_eq!(w.visible_lines(), vec![String::new()]);
}

#[test]
fn set_buffer_resets_cursor_and_scroll() {
    let mut w = window_on("a\nb\nc\nd\ne\n", 10, 2);
    w.move_cursor_down(4);
    w.move_cursor_right(1);
    assert_eq!(w.scroll_offset(), (0, 3));
    w.set_buffer(Rope::from_str("xyz"));
    assert_eq!(text_of(&w), "xyz");
    assert_eq!(w.cursor(), (0, 0));
    assert_eq!(w.scroll_offset(), (0, 0));
    assert_eq!(w.sticky_column(), 0);
    assert_eq!(w.size(), (10, 2));
}

#[test]
fn move_down_saturates_at_last_line() {
    let mut w = window_on("a\nb\nc", 10, 10);
    w.move_cursor_down(2);
    assert_eq!(w.cursor(), (0, 2));
    w.move_cursor_down(1);
    assert_eq!(w.cursor(), (0, 2));
    w.move_cursor_down(usize::MAX);
    assert_eq!(w.cursor(), (0, 2));
}

#[test]
fn move_down_on_text_ending_in_break_reaches_empty_last_line() {
    let mut w = window_on("a\nb\n", 10, 10);
    w.move_cursor_down(100);
    assert_eq!(w.cursor(), (0, 2));
}

#[test]
fn move_up_lands_on_difference_or_zero() {
    let mut w = window_on("a\nb\nc\nd\ne", 10, 10);
    w.move_cursor_down(4);
    w.move_cursor_up(3);
    assert_eq!(w.cursor(), (0, 1));
    w.move_cursor_up(2);
    assert_eq!(w.cursor(), (0, 0));
    w.move_cursor_up(usize::MAX);
    assert_eq!(w.cursor(), (0, 0));
}

#[test]
fn move_down_scrolls_by_exactly_the_overshoot() {
    let mut w = window_on("0\n1\n2\n3\n4\n5\n6\n7\n8\n9", 10, 3);
    w.move_cursor_down(2);
    assert_eq!(w.scroll_offset(), (0, 0));
    assert_eq!(w.rel_cursor_pos(), (0, 2));
    w.move_cursor_down(3);
    assert_eq!(w.cursor(), (0, 5));
    assert_eq!(w.scroll_offset(), (0, 3));
    assert_eq!(w.rel_cursor_pos(), (0, 2));
}

#[test]
fn move_up_scrolls_to_the_target() {
    let mut w = window_on("0\n1\n2\n3\n4\n5\n6\n7\n8\n9", 10, 3);
    w.move_cursor_down(9);
    assert_eq!(w.scroll_offset(), (0, 7));
    w.move_cursor_up(1);
    assert_eq!(w.scroll_offset(), (0, 7));
    w.move_cursor_up(4);
    assert_eq!(w.cursor(), (0, 4));
    assert_eq!(w.scroll_offset(), (0, 4));
    assert_eq!(w.rel_cursor_pos(), (0, 0));
}

#[test]
fn move_right_stops_before_the_line_break() {
    let mut w = window_on("abc\ndef", 10, 10);
    w.move_cursor_right(2);
    assert_eq!(w.cursor(), (2, 0));
    w.move_cursor_right(50);
    assert_eq!(w.cursor(), (3, 0));
    assert_eq!(w.sticky_column(), 3);
    w.move_cursor_right(usize::MAX);
    assert_eq!(w.cursor(), (3, 0));
}

#[test]
fn move_right_on_last_line_without_break_reaches_its_end() {
    let mut w = window_on("ab", 10, 10);
    w.move_cursor_right(10);
    assert_eq!(w.cursor(), (2, 0));
}

#[test]
fn crlf_counts_as_one_break_for_the_column() {
    let mut w = window_on("ab\r\ncd", 10, 10);
    w.move_cursor_right(10);
    assert_eq!(w.cursor(), (2, 0));
    w.move_cursor_down(5);
    assert_eq!(w.cursor(), (2, 1));
    assert_eq!(w.visible_lines(), vec!["ab\r\n".to_string(), "cd".to_string()]);
}

#[test]
fn unicode_breaks_split_lines() {
    let mut w = window_on("a\u{2028}bc\u{85}d\re", 10, 10);
    w.move_cursor_down(10);
    assert_eq!(w.cursor(), (0, 3));
    w.move_cursor_up(2);
    w.move_cursor_right(9);
    assert_eq!(w.cursor(), (2, 1));
}

#[test]
fn move_left_stops_at_column_zero() {
    let mut w = window_on("abcdef", 10, 10);
    w.move_cursor_right(4);
    w.move_cursor_left(1);
    assert_eq!(w.cursor(), (3, 0));
    assert_eq!(w.sticky_column(), 3);
    w.move_cursor_left(7);
    assert_eq!(w.cursor(), (0, 0));
    assert_eq!(w.sticky_column(), 0);
}

#[test]
fn empty_line_has_column_zero() {
    let mut w = window_on("abc\n\nxyz", 10, 10);
    w.move_cursor_right(2);
    w.move_cursor_down(1);
    assert_eq!(w.cursor(), (0, 1));
    w.move_cursor_right(3);
    assert_eq!(w.cursor(), (0, 1));
}

#[test]
fn sticky_column_survives_a_short_line() {
    let mut w = window_on("hello\nhi\nworld", 10, 10);
    w.move_cursor_right(4);
    assert_eq!(w.cursor(), (4, 0));
    w.move_cursor_down(1);
    assert_eq!(w.cursor(), (2, 1));
    assert_eq!(w.sticky_column(), 4);
    w.move_cursor_up(1);
    assert_eq!(w.cursor(), (4, 0));
    w.move_cursor_down(2);
    assert_eq!(w.cursor(), (4, 2));
}

#[test]
fn vertical_motion_keeps_the_sticky_column() {
    let mut w = window_on("abcdef\nab\nabcdef", 10, 10);
    w.move_cursor_right(5);
    w.move_cursor_down(1);
    w.move_cursor_down(1);
    assert_eq!(w.sticky_column(), 5);
    assert_eq!(w.cursor(), (5, 2));
}

#[test]
fn rel_cursor_pos_is_cursor_minus_scroll() {
    let mut w = window_on("0\n1\n2\n3\n4\n5\n6\n7abc\n8\n9", 10, 4);
    w.move_cursor_down(7);
    w.move_cursor_right(3);
    assert!(w.cursor_column_on_screen());
    assert_eq!(w.scroll_offset(), (0, 4));
    assert_eq!(w.rel_cursor_pos(), (3, 3));
}

#[test]
fn resize_scrolls_by_the_deficit_only() {
    let mut w = window_on("0\n1\n2\n3\n4\n5\n6\n7\n8\n9", 10, 6);
    w.move_cursor_down(5);
    assert_eq!(w.scroll_offset(), (0, 0));
    w.resize(10, 3);
    assert_eq!(w.size(), (10, 3));
    assert_eq!(w.cursor(), (0, 5));
    assert_eq!(w.scroll_offset(), (0, 3));
    assert_eq!(w.rel_cursor_pos(), (0, 2));
    w.resize(10, 1);
    assert_eq!(w.scroll_offset(), (0, 5));
    assert_eq!(w.rel_cursor_pos(), (0, 0));
}

#[test]
fn resize_leaves_scroll_when_cursor_is_visible() {
    let mut w = window_on("0\n1\n2\n3\n4\n5\n6\n7\n8\n9", 10, 3);
    w.move_cursor_down(5);
    assert_eq!(w.scroll_offset(), (0, 3));
    w.resize(20, 8);
    assert_eq!(w.scroll_offset(), (0, 3));
    assert_eq!(w.size(), (20, 8));
    w.resize(5, 3);
    assert_eq!(w.scroll_offset(), (0, 3));
}

#[test]
fn resize_scrolls_sideways_by_the_deficit() {
    let mut w = window_on("abcdefghij", 20, 5);
    w.move_cursor_right(7);
    w.resize(4, 5);
    assert_eq!(w.scroll_offset(), (4, 0));
    assert_eq!(w.cursor(), (7, 0));
    assert!(w.cursor_column_on_screen());
    assert_eq!(w.rel_cursor_pos(), (3, 0));
}

#[test]
fn cursor_column_can_leave_the_screen() {
    let mut w = Window::new(1, 1);
    w.insert_char('a');
    assert_eq!(w.cursor(), (1, 0));
    assert!(!w.cursor_column_on_screen());
}

#[test]
fn insert_char_inserts_and_advances() {
    let mut w = window_on("ac\nxyz", 10, 10);
    w.move_cursor_right(1);
    w.insert_char('b');
    assert_eq!(text_of(&w), "abc\nxyz");
    assert_eq!(w.cursor(), (2, 0));
    assert_eq!(w.scroll_offset(), (0, 0));
    w.move_cursor_down(1);
    w.move_cursor_left(5);
    w.insert_char('w');
    assert_eq!(text_of(&w), "abc\nwxyz");
    assert_eq!(w.cursor(), (1, 1));
}

#[test]
fn insert_char_into_empty_buffer() {
    let mut w = Window::new(10, 10);
    assert!(w.can_insert('x'));
    w.insert_char('x');
    assert_eq!(text_of(&w), "x");
    assert_eq!(w.cursor(), (1, 0));
}

#[test]
fn can_insert_refuses_lf_behind_final_cr() {
    let mut w = window_on("a\r", 10, 10);
    w.move_cursor_down(1);
    assert_eq!(w.cursor(), (0, 1));
    assert!(!w.can_insert('\n'));
    assert!(w.can_insert('x'));
    let mut v = window_on("a\rb", 10, 10);
    v.move_cursor_down(1);
    assert!(v.can_insert('\n'));
    let u = window_on("a\r", 10, 10);
    assert!(u.can_insert('\n'));
}

#[test]
fn insert_enter_splits_the_line() {
    let mut w = window_on("ab", 10, 10);
    w.move_cursor_right(1);
    assert_eq!(w.cursor(), (1, 0));
    w.insert_enter();
    assert_eq!(text_of(&w), "a\nb");
    assert_eq!(w.visible_lines(), vec!["a\n".to_string(), "b".to_string()]);
    assert_eq!(w.cursor(), (0, 1));
}

#[test]
fn insert_enter_scrolls_at_the_bottom() {
    let mut w = window_on("a\nb", 10, 2);
    w.move_cursor_down(1);
    w.move_cursor_right(1);
    w.insert_enter();
    assert_eq!(text_of(&w), "a\nb\n");
    assert_eq!(w.cursor(), (0, 2));
    assert_eq!(w.scroll_offset(), (0, 1));
    assert_eq!(w.rel_cursor_pos(), (0, 1));
}

#[test]
fn insert_enter_behind_cr_stays_in_the_buffer() {
    let mut w = window_on("a\r", 10, 10);
    w.move_cursor_down(1);
    w.insert_enter();
    assert_eq!(text_of(&w), "a\r\n");
    assert_eq!(w.cursor(), (0, 1));
}

#[test]
fn backspace_at_origin_is_a_no_op() {
    let mut w = window_on("ab\ncd", 10, 10);
    w.backspace();
    assert_eq!(text_of(&w), "ab\ncd");
    assert_eq!(w.cursor(), (0, 0));
    let mut e = Window::new(10, 10);
    e.backspace();
    assert_eq!(text_of(&e), "");
    assert_eq!(e.cursor(), (0, 0));
}

#[test]
fn backspace_joins_lines() {
    let mut w = window_on("ab\ncd", 10, 10);
    w.move_cursor_down(1);
    assert_eq!(w.cursor(), (0, 1));
    w.backspace();
    assert_eq!(text_of(&w), "abcd");
    assert_eq!(w.cursor(), (2, 0));
}

#[test]
fn backspace_within_a_line_moves_one_column_left() {
    let mut w = window_on("ab\ncde", 10, 10);
    w.move_cursor_down(1);
    w.move_cursor_right(2);
    w.backspace();
    assert_eq!(text_of(&w), "ab\nce");
    assert_eq!(w.cursor(), (1, 1));
}

#[test]
fn backspace_joining_lines_scrolls_up() {
    let mut w = window_on("a\nb\nc\nd", 10, 2);
    w.move_cursor_down(3);
    w.move_cursor_up(1);
    assert_eq!(w.cursor(), (0, 2));
    assert_eq!(w.scroll_offset(), (0, 2));
    w.backspace();
    assert_eq!(text_of(&w), "a\nbc\nd");
    assert_eq!(w.cursor(), (1, 1));
    assert_eq!(w.scroll_offset(), (0, 1));
}

#[test]
fn delete_removes_the_character_under_the_cursor() {
    let mut w = window_on("abc", 10, 10);
    w.move_cursor_right(1);
    w.delete();
    assert_eq!(text_of(&w), "ac");
    assert_eq!(w.cursor(), (1, 0));
}

#[test]
fn delete_at_end_of_buffer_is_a_no_op() {
    let mut w = window_on("abc", 10, 10);
    w.move_cursor_right(3);
    w.delete();
    assert_eq!(text_of(&w), "abc");
    assert_eq!(w.cursor(), (3, 0));
    let mut e = Window::new(10, 10);
    e.delete();
    assert_eq!(text_of(&e), "");
    assert_eq!(e.cursor(), (0, 0));
}

#[test]
fn delete_of_a_line_break_joins_lines() {
    let mut w = window_on("ab\ncd", 10, 10);
    w.move_cursor_right(2);
    w.delete();
    assert_eq!(text_of(&w), "abcd");
    assert_eq!(w.cursor(), (2, 0));
}

#[test]
fn delete_clamps_the_column_when_breaks_merge() {
    let mut w = window_on("a\rx\n", 10, 10);
    w.move_cursor_down(1);
    w.delete();
    assert_eq!(text_of(&w), "a\r\n");
    assert_eq!(w.cursor(), (0, 1));
}

#[test]
fn visible_lines_start_at_the_scroll_row() {
    let mut w = window_on("0\n1\n2\n3\n4", 10, 2);
    assert_eq!(w.visible_lines(), vec!["0\n".to_string(), "1\n".to_string()]);
    w.move_cursor_down(3);
    assert_eq!(w.visible_lines(), vec!["2\n".to_string(), "3\n".to_string()]);
    w.move_cursor_down(1);
    assert_eq!(w.visible_lines(), vec!["3\n".to_string(), "4".to_string()]);
}

#[test]
fn visible_lines_are_at_most_the_lines_of_the_buffer() {
    let w = window_on("a\nb", 10, 5);
    assert_eq!(w.visible_lines(), vec!["a\n".to_string(), "b".to_string()]);
}

#[test]
fn visible_lines_from_a_row() {
    let w = window_on("0\n1\n2\n3\n4", 10, 3);
    assert_eq!(w.visible_lines_from(1), vec!["1\n".to_string(), "2\n".to_string()]);
    assert_eq!(w.visible_lines_from(3), Vec::<String>::new());
    assert_eq!(w.visible_lines_from(4), Vec::<String>::new());
    let short = window_on("a", 10, 5);
    assert_eq!(short.visible_lines_from(1), Vec::<String>::new());
    assert_eq!(short.visible_lines_from(2), Vec::<String>::new());
}

#[test]
fn backspace_of_the_lf_of_a_crlf_leaves_the_cr_break() {
    let mut w = window_on("ab\r\ncd", 10, 10);
    w.move_cursor_down(1);
    assert_eq!(w.cursor(), (0, 1));
    w.backspace();
    assert_eq!(text_of(&w), "ab\rcd");
    assert_eq!(w.cursor(), (0, 1));
}

#[test]
fn backspace_that_joins_cr_and_lf_lands_in_the_line_above() {
    let mut w = window_on("a\rb\n", 10, 10);
    w.move_cursor_down(1);
    w.move_cursor_right(1);
    assert_eq!(w.cursor(), (1, 1));
    w.backspace();
    assert_eq!(text_of(&w), "a\r\n");
    assert_eq!(w.cursor(), (2, 0));
    w.move_cursor_right(0);
    assert_eq!(w.cursor(), (1, 0));
}

#[test]
fn insert_lf_behind_cr_moves_the_line_start() {
    let mut w = window_on("a\rb", 10, 10);
    w.move_cursor_down(1);
    assert!(w.can_insert('\n'));
    w.insert_char('\n');
    assert_eq!(text_of(&w), "a\r\nb");
    assert_eq!(w.cursor(), (1, 1));
    w.backspace();
    assert_eq!(text_of(&w), "a\r\n");
    assert_eq!(w.cursor(), (0, 1));
}

#[test]
fn long_buffer_with_crlf_lines() {
    let mut text = String::new();
    for i in 0..5000 {
        text.push_str(&format!("line {}\r\n", i));
    }
    let mut w = window_on(&text, 80, 24);
    w.move_cursor_down(4321);
    assert_eq!(w.cursor(), (0, 4321));
    assert_eq!(w.scroll_offset(), (0, 4321 - 24 + 1));
    w.move_cursor_right(100);
    assert_eq!(w.cursor(), (9, 4321));
    w.move_cursor_down(10000);
    assert_eq!(w.cursor(), (0, 5000));
    assert_eq!(w.sticky_column(), 9);
    w.move_cursor_up(1);
    assert_eq!(w.cursor(), (9, 4999));
    w.insert_char('!');
    w.move_cursor_left(10);
    w.backspace();
    assert_eq!(w.cursor(), (0, 4999));
    w.backspace();
    assert_eq!(w.cursor(), (9, 4998));
    assert_eq!(w.scroll_offset(), (0, 4977));
    let lines = w.visible_lines();
    assert_eq!(lines.len(), 23);
    assert_eq!(lines[21], "line 4998line 4999!\r\n");
    assert_eq!(lines[22], "");
}

#[test]
fn cursor_row_stays_on_screen_through_a_session() {
    let mut w = window_on("one\ntwo\nthree\nfour\nfive\nsix\nseven", 6, 3);
    let on_screen = |w: &Window| {
        let (_, line) = w.cursor();
        let (_, top) = w.scroll_offset();
        let (_, rows) = w.size();
        assert!(line < w.buffer().len_lines());
        assert!(top <= line && line - top < rows as usize);
        if w.cursor_column_on_screen() {
            let (x, y) = w.rel_cursor_pos();
            assert!(x < w.size().0 && y < rows);
        }
    };
    w.move_cursor_down(5);
    on_screen(&w);
    w.insert_enter();
    on_screen(&w);
    w.insert_char('x');
    on_screen(&w);
    w.resize(4, 1);
    on_screen(&w);
    w.move_cursor_up(3);
    on_screen(&w);
    w.backspace();
    on_screen(&w);
    w.move_cursor_left(9);
    w.backspace();
    on_screen(&w);
    w.resize(9, 4);
    on_screen(&w);
    w.move_cursor_down(100);
    on_screen(&w);
    w.delete();
    on_screen(&w);
    w.move_cursor_right(100);
    w.delete();
    on_screen(&w);
    w.set_buffer(Rope::new());
    on_screen(&w);
    w.move_cursor_down(3);
    w.backspace();
    w.delete();
    on_screen(&w);
    assert_eq!(w.cursor(), (0, 0));
}
