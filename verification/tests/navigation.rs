use text_window::buffer::{BufferPosition, RectilinearDirection, TextBuffer};
use text_window::text_window::{TextWindow, TextWindowState};

fn buf(lines: &[&str]) -> TextBuffer {
    let mut v: Vec<Vec<char>> = Vec::new();
    for l in lines {
        v.push(l.chars().collect());
    }
    TextBuffer::from_lines(v)
}

fn sized(b: &TextBuffer, height: u16, width: u16) -> TextWindowState {
    let mut st = TextWindowState::new();
    let tw = TextWindow::new();
    let _ = tw.build_lines(b, height, width, &mut st);
    st
}

#[test]
fn new_state_starts_at_origin() {
    let st = TextWindowState::new();
    assert_eq!(st.cursor, BufferPosition { line: 0, col: 0 });
    assert_eq!(st.leftmost_col, 0);
    assert_eq!(st.last_height, 2);
    assert_eq!(st.last_width, 2);
    assert_eq!(st.vertical_anchor, 0);
    assert_eq!(st.last_manual_col, 0);
}

#[test]
fn single_line_right_moves_stop_at_line_end() {
    let b = buf(&["hello"]);
    let mut st = sized(&b, 10, 80);
    for expected in 1..=4 {
        st.move_cursor(&b, RectilinearDirection::Right);
        assert_eq!(st.cursor, BufferPosition { line: 0, col: expected });
    }
    st.move_cursor(&b, RectilinearDirection::Right);
    assert_eq!(st.cursor, BufferPosition { line: 0, col: 4 });
}

#[test]
fn down_moves_scroll_only_at_bottom_edge() {
    let b = buf(&["line"; 100]);
    let mut st = sized(&b, 20, 80);
    for i in 1..=19 {
        st.move_cursor(&b, RectilinearDirection::Down);
        assert_eq!(st.top_line(), 0);
        assert_eq!(st.vertical_anchor, i);
    }
    st.move_cursor(&b, RectilinearDirection::Down);
    assert_eq!(st.cursor.line, 20);
    assert_eq!(st.top_line(), 1);
    assert_eq!(st.vertical_anchor, 19);
}

#[test]
fn jump_to_last_line_scrolls_to_bottom() {
    let b = buf(&["x"; 50]);
    let mut st = sized(&b, 20, 80);
    st.jump_to_last_line(&b);
    assert_eq!(st.cursor.line, 49);
    assert_eq!(st.top_line(), 31);
}

#[test]
fn jump_lands_on_target_and_snaps_column() {
    let b = buf(&["hello world", "ab"]);
    let mut st = sized(&b, 10, 40);
    st.jump(&b, &BufferPosition { line: 0, col: 7 });
    assert_eq!(st.cursor, BufferPosition { line: 0, col: 7 });
    assert_eq!(st.last_manual_col, 7);
    st.jump(&b, &BufferPosition { line: 1, col: 7 });
    assert_eq!(st.cursor, BufferPosition { line: 1, col: 1 });
    assert_eq!(st.last_manual_col, 1);
}

#[test]
fn up_then_down_returns_to_start() {
    let b = buf(&["alpha", "beta", "gamma"]);
    let mut st = sized(&b, 10, 40);
    st.jump(&b, &BufferPosition { line: 1, col: 3 });
    let before = st.cursor;
    st.move_cursor(&b, RectilinearDirection::Up);
    st.move_cursor(&b, RectilinearDirection::Down);
    assert_eq!(st.cursor, before);
}

#[test]
fn jump_to_eol_is_idempotent() {
    let b = buf(&["some longer line", ""]);
    let mut st = sized(&b, 10, 8);
    st.jump_to_EOL(&b);
    let once = st;
    st.jump_to_EOL(&b);
    assert_eq!(st, once);
    assert_eq!(st.cursor.col, 15);
}

#[test]
fn jump_to_eol_on_empty_line_resets_columns() {
    let b = buf(&["abc", ""]);
    let mut st = sized(&b, 10, 8);
    st.jump(&b, &BufferPosition { line: 1, col: 0 });
    st.jump_to_EOL(&b);
    assert_eq!(st.cursor, BufferPosition { line: 1, col: 0 });
    assert_eq!(st.leftmost_col, 0);
}

#[test]
fn vertical_moves_return_to_sticky_column() {
    let b = buf(&["long line here", "ab", "another long line"]);
    let mut st = sized(&b, 10, 40);
    st.jump(&b, &BufferPosition { line: 0, col: 9 });
    st.move_cursor(&b, RectilinearDirection::Down);
    assert_eq!(st.cursor, BufferPosition { line: 1, col: 1 });
    assert_eq!(st.last_manual_col, 9);
    st.move_cursor(&b, RectilinearDirection::Down);
    assert_eq!(st.cursor, BufferPosition { line: 2, col: 9 });
}

#[test]
fn right_and_left_moves_scroll_the_window() {
    let b = buf(&["abcdefghij"]);
    let mut st = sized(&b, 5, 4);
    for _ in 0..4 {
        st.move_cursor(&b, RectilinearDirection::Right);
    }
    assert_eq!(st.cursor.col, 4);
    assert_eq!(st.leftmost_col, 1);
    for _ in 0..4 {
        st.move_cursor(&b, RectilinearDirection::Left);
    }
    assert_eq!(st.cursor.col, 0);
    assert_eq!(st.leftmost_col, 0);
}

#[test]
fn jump_to_home_resets_columns() {
    let b = buf(&["a fairly long line of text"]);
    let mut st = sized(&b, 5, 8);
    st.jump(&b, &BufferPosition { line: 0, col: 20 });
    assert!(st.leftmost_col > 0);
    st.jump_to_home();
    assert_eq!(st.cursor, BufferPosition { line: 0, col: 0 });
    assert_eq!(st.leftmost_col, 0);
    assert_eq!(st.last_manual_col, 0);
}

#[test]
fn horizontal_jump_recenters_left_edge() {
    let b = buf(&["abcdefghijklmnopqrstuvwxyz0123456789"]);
    let mut st = sized(&b, 5, 10);
    st.jump(&b, &BufferPosition { line: 0, col: 30 });
    assert_eq!(st.cursor.col, 30);
    assert_eq!(st.leftmost_col, 23);
}

#[test]
fn vertical_jump_recenters_window() {
    let b = buf(&["x"; 10]);
    let mut st = sized(&b, 5, 10);
    st.jump(&b, &BufferPosition { line: 7, col: 0 });
    assert_eq!(st.cursor.line, 7);
    assert_eq!(st.vertical_anchor, 2);
    assert_eq!(st.top_line(), 5);
}

#[test]
fn up_scrolls_window_at_top_edge() {
    let b = buf(&["x"; 10]);
    let mut st = sized(&b, 5, 10);
    st.jump(&b, &BufferPosition { line: 7, col: 0 });
    st.move_cursor(&b, RectilinearDirection::Up);
    st.move_cursor(&b, RectilinearDirection::Up);
    assert_eq!(st.cursor.line, 5);
    assert_eq!(st.top_line(), 5);
    st.move_cursor(&b, RectilinearDirection::Up);
    assert_eq!(st.cursor.line, 4);
    assert_eq!(st.top_line(), 4);
    assert_eq!(st.vertical_anchor, 0);
}

#[test]
fn empty_buffer_cursor_stays_at_origin() {
    let b = buf(&[]);
    let mut st = sized(&b, 10, 80);
    st.move_cursor(&b, RectilinearDirection::Up);
    st.move_cursor(&b, RectilinearDirection::Down);
    st.move_cursor(&b, RectilinearDirection::Left);
    st.move_cursor(&b, RectilinearDirection::Right);
    st.jump_to_EOL(&b);
    st.jump_to_last_line(&b);
    assert_eq!(st.cursor, BufferPosition { line: 0, col: 0 });
    assert_eq!(st.top_line(), 0);
}

#[test]
fn jump_beyond_last_line_clamps_to_it() {
    let b = buf(&["x"; 10]);
    let mut st = sized(&b, 5, 10);
    st.jump(&b, &BufferPosition { line: 100, col: 0 });
    assert_eq!(st.cursor.line, 9);
    assert_eq!(st.vertical_anchor, 2);
    assert_eq!(st.top_line(), 7);
}

#[test]
fn growing_resize_keeps_anchor_at_cursor_line() {
    let b = buf(&["a", "b", "c"]);
    let mut st = TextWindowState::new();
    st.move_cursor(&b, RectilinearDirection::Down);
    assert_eq!(st.vertical_anchor, 1);
    let tw = TextWindow::new();
    let _ = tw.build_lines(&b, 11, 80, &mut st);
    assert_eq!(st.vertical_anchor, 1);
    assert_eq!(st.top_line(), 0);
    st.move_cursor(&b, RectilinearDirection::Down);
    assert_eq!(st.cursor.line, 2);
    assert_eq!(st.vertical_anchor, 2);
    assert_eq!(st.top_line(), 0);
}

#[test]
fn jump_on_empty_buffer_stays_at_origin() {
    let b = buf(&[]);
    let mut st = sized(&b, 10, 80);
    st.jump(&b, &BufferPosition { line: 0, col: 5 });
    assert_eq!(st.cursor, BufferPosition { line: 0, col: 0 });
    assert_eq!(st.leftmost_col, 0);
    assert_eq!(st.last_manual_col, 0);
}

#[test]
fn down_on_last_line_is_a_no_op() {
    let b = buf(&["x"; 50]);
    let mut st = sized(&b, 20, 80);
    st.jump_to_last_line(&b);
    let before = st;
    st.move_cursor(&b, RectilinearDirection::Down);
    assert_eq!(st, before);
}

#[test]
fn cursor_stays_in_bounds_through_many_moves() {
    let b = buf(&["abc", "", "defgh", "xy"]);
    let mut st = sized(&b, 3, 4);
    let dirs = [
        RectilinearDirection::Down,
        RectilinearDirection::Down,
        RectilinearDirection::Right,
        RectilinearDirection::Right,
        RectilinearDirection::Up,
        RectilinearDirection::Left,
        RectilinearDirection::Down,
        RectilinearDirection::Down,
        RectilinearDirection::Up,
        RectilinearDirection::Up,
        RectilinearDirection::Up,
        RectilinearDirection::Up,
        RectilinearDirection::Right,
        RectilinearDirection::Down,
        RectilinearDirection::Left,
        RectilinearDirection::Left,
        RectilinearDirection::Down,
        RectilinearDirection::Right,
        RectilinearDirection::Right,
        RectilinearDirection::Right,
    ];
    for d in dirs {
        st.move_cursor(&b, d);
        assert!(st.cursor.line < b.line_count());
        let len = b.line_length(st.cursor.line);
        if len == 0 {
            assert_eq!(st.cursor.col, 0);
        } else {
            assert!(st.cursor.col < len);
        }
    }
}

#[test]
fn resize_keeps_cursor_at_bottom_edge() {
    let b = buf(&["line"; 100]);
    let mut st = sized(&b, 20, 80);
    for _ in 0..19 {
        st.move_cursor(&b, RectilinearDirection::Down);
    }
    assert_eq!(st.vertical_anchor, 19);
    let tw = TextWindow::new();
    let _ = tw.build_lines(&b, 10, 80, &mut st);
    assert_eq!(st.last_height, 10);
    assert_eq!(st.vertical_anchor, 9);
    assert_eq!(st.cursor.line, 19);
    assert_eq!(st.top_line(), 10);
}

#[test]
fn screen_bounds_follow_cursor_and_scroll() {
    let b = buf(&["x"; 10]);
    let mut st = sized(&b, 5, 10);
    st.jump(&b, &BufferPosition { line: 7, col: 0 });
    let bounds = st.screen_bounds();
    assert_eq!(bounds.top_line, 5);
    assert_eq!(bounds.bottom_line, 9);
    assert_eq!(bounds.leftmost_col, 0);
    assert_eq!(bounds.rightmost_col, 9);
    assert!(st.is_on_screen(&BufferPosition { line: 7, col: 3 }));
    assert!(!st.is_on_screen(&BufferPosition { line: 4, col: 3 }));
    assert!(!st.is_on_screen(&BufferPosition { line: 7, col: 10 }));
}
