//! Global properties of the navigation state machine, stated and proved
//! over the transition functions of `text_window`.

use vstd::prelude::*;

use crate::buffer::{BufferPosition, RectilinearDirection, TextBuffer};
use crate::text_window::TextWindowState;

verus! {

/// The line count and every line length of a buffer fit the machine's
/// address space. Every buffer held in a real `TextBuffer` satisfies this
/// (see `lemma_text_buffer_bounded`); the transition lemmas require it so
/// their arithmetic mirrors the executable code exactly.
pub open spec fn buffer_bounded(lines: Seq<Seq<char>>) -> bool {
    &&& lines.len() <= usize::MAX
    &&& forall|i: int| 0 <= i < lines.len() ==> (#[trigger] lines[i]).len() <= usize::MAX
}

/// The view of a real `TextBuffer` is always bounded.
pub proof fn lemma_text_buffer_bounded(buf: &TextBuffer)
    ensures
        buffer_bounded(buf@),
{
    vstd::std_specs::vec::axiom_spec_len(&buf.lines);
    assert forall|i: int| 0 <= i < buf@.len() implies (#[trigger] buf@[i]).len()
        <= usize::MAX by {
        let line = buf.lines@[i];
        vstd::std_specs::vec::axiom_spec_len(&line);
    }
}

/// Jumping to the end of the line lands the cursor on the last character
/// (column 0 of an empty line), keeps the window well formed, and leaves
/// the cursor line and the sticky column alone.
pub proof fn lemma_eol_spec_props(s: TextWindowState, lines: Seq<Seq<char>>)
    requires
        s.wf(),
        s.line_in_buffer(lines),
        buffer_bounded(lines),
    ensures
        s.eol_spec(lines).wf(),
        s.eol_spec(lines).cursor_in_buffer(lines),
        s.eol_spec(lines).cursor.line == s.cursor.line,
        s.eol_spec(lines).last_manual_col == s.last_manual_col,
        s.eol_spec(lines).cursor.col == ({
            let len = s.cur_line_len(lines);
            if len == 0 {
                0int
            } else {
                len - 1
            }
        }),
{
}

/// The end-of-line snap keeps the window well formed and puts the cursor
/// column inside its line.
pub proof fn lemma_snap_spec_props(s: TextWindowState, lines: Seq<Seq<char>>)
    requires
        s.wf(),
        s.line_in_buffer(lines),
        buffer_bounded(lines),
    ensures
        s.snap_spec(lines).wf(),
        s.snap_spec(lines).cursor_in_buffer(lines),
        s.snap_spec(lines).cursor.line == s.cursor.line,
        s.snap_spec(lines).last_manual_col == s.last_manual_col,
        s.snap_spec(lines).cursor.col == ({
            let len = s.cur_line_len(lines);
            if s.cursor.col < len {
                s.cursor.col as int
            } else if len == 0 {
                0int
            } else {
                len - 1
            }
        }),
{
    lemma_eol_spec_props(s, lines);
}

/// A jump lands the cursor on the target line — clamped to the last line
/// when the target lies beyond the buffer — and on the target column
/// unless the landed line is shorter, recording the resulting column as
/// the sticky column; the window stays well formed.
pub proof fn lemma_jump_spec_props(s: TextWindowState, lines: Seq<Seq<char>>, pos: BufferPosition)
    requires
        s.wf(),
        s.line_in_buffer(lines),
        s.valid_jump_target(pos, lines),
        buffer_bounded(lines),
    ensures
        s.jump_spec(lines, pos).wf(),
        s.jump_spec(lines, pos).cursor_in_buffer(lines),
        s.jump_spec(lines, pos).cursor.line == if lines.len() == 0 {
            0int
        } else if pos.line < lines.len() {
            pos.line as int
        } else {
            lines.len() - 1
        },
        s.jump_spec(lines, pos).cursor.col == ({
            let landed = s.jump_spec(lines, pos).cursor.line;
            let len = if lines.len() == 0 {
                0int
            } else {
                lines[landed as int].len() as int
            };
            if pos.col < len {
                pos.col as int
            } else if len == 0 {
                0int
            } else {
                len - 1
            }
        }),
        s.jump_spec(lines, pos).last_manual_col == s.jump_spec(lines, pos).cursor.col,
{
    let top = s.spec_top_line();
    let h = s.last_height;
    let w = s.last_width;
    let vertically_out = pos.line < top || pos.line - top > h - 1;
    let s1 = if lines.len() > 0 && vertically_out {
        let line = if pos.line < lines.len() - 1 {
            pos.line as int
        } else {
            lines.len() - 1
        };
        let anchor = if h / 2 < line {
            (h / 2) as int
        } else {
            line
        };
        TextWindowState {
            cursor: BufferPosition { line: line as usize, col: s.cursor.col },
            vertical_anchor: anchor as usize,
            ..s
        }
    } else {
        TextWindowState {
            cursor: BufferPosition { line: pos.line, col: s.cursor.col },
            vertical_anchor: (pos.line - top) as usize,
            ..s
        }
    };
    let horizontally_out = pos.col < s1.leftmost_col || pos.col - s1.leftmost_col > w - 1;
    let left2: usize = if horizontally_out {
        let relative_col = if 3 * w / 4 < pos.col {
            (3 * w / 4) as int
        } else {
            pos.col as int
        };
        (pos.col - relative_col) as usize
    } else {
        s1.leftmost_col
    };
    let s2 = TextWindowState {
        cursor: BufferPosition { line: s1.cursor.line, col: pos.col },
        leftmost_col: left2,
        ..s1
    };
    lemma_snap_spec_props(s2, lines);
    assert(s.jump_spec(lines, pos) == (TextWindowState {
        last_manual_col: s2.snap_spec(lines).cursor.col,
        ..s2.snap_spec(lines)
    }));
}

/// The column snap that closes a vertical move keeps the line and the
/// sticky column, returns the cursor to the sticky column when the line is
/// long enough, and otherwise lands it at the end of the line.
pub proof fn lemma_vertical_snap_props(s: TextWindowState, lines: Seq<Seq<char>>)
    requires
        s.wf(),
        s.line_in_buffer(lines),
        buffer_bounded(lines),
    ensures
        s.vertical_snap_spec(lines).wf(),
        s.vertical_snap_spec(lines).cursor_in_buffer(lines),
        s.vertical_snap_spec(lines).cursor.line == s.cursor.line,
        s.vertical_snap_spec(lines).last_manual_col == s.last_manual_col,
        s.vertical_snap_spec(lines).cursor.col == ({
            let len = s.cur_line_len(lines);
            if s.last_manual_col < len {
                s.last_manual_col as int
            } else if len == 0 {
                0int
            } else {
                len - 1
            }
        }),
{
    let len = s.cur_line_len(lines);
    if s.last_manual_col >= len {
        lemma_eol_spec_props(s, lines);
    } else {
        lemma_jump_spec_props(
            s,
            lines,
            BufferPosition { line: s.cursor.line, col: s.last_manual_col },
        );
    }
}

/// Any single cursor move keeps the window well formed and the cursor
/// inside the buffer.
pub proof fn lemma_move_spec_preserves(
    s: TextWindowState,
    lines: Seq<Seq<char>>,
    dir: RectilinearDirection,
)
    requires
        s.wf(),
        s.cursor_in_buffer(lines),
        buffer_bounded(lines),
    ensures
        s.move_spec(lines, dir).wf(),
        s.move_spec(lines, dir).cursor_in_buffer(lines),
{
    match dir {
        RectilinearDirection::Up => {
            if s.cursor.line > 0 {
                let top = s.spec_top_line();
                let line2 = (s.cursor.line - 1) as usize;
                let anchor2: usize = if line2 < top {
                    0
                } else {
                    (line2 - top) as usize
                };
                let s1 = TextWindowState {
                    cursor: BufferPosition { line: line2, col: s.cursor.col },
                    vertical_anchor: anchor2,
                    ..s
                };
                lemma_vertical_snap_props(s1, lines);
            }
        }
        RectilinearDirection::Down => {
            if s.cursor.line + 1 < lines.len() {
                let top = s.spec_top_line();
                let line2 = (s.cursor.line + 1) as usize;
                let anchor2: usize = if s.vertical_anchor == s.last_height - 1 {
                    s.vertical_anchor
                } else {
                    (s.cursor.line - top + 1) as usize
                };
                let s1 = TextWindowState {
                    cursor: BufferPosition { line: line2, col: s.cursor.col },
                    vertical_anchor: anchor2,
                    ..s
                };
                lemma_vertical_snap_props(s1, lines);
            }
        }
        RectilinearDirection::Right => {
        }
        RectilinearDirection::Left => {
        }
    }
}

/// The state reached by a whole sequence of cursor moves, first entry
/// first.
pub open spec fn apply_moves(
    s: TextWindowState,
    lines: Seq<Seq<char>>,
    dirs: Seq<RectilinearDirection>,
) -> TextWindowState
    decreases dirs.len(),
{
    if dirs.len() == 0 {
        s
    } else {
        apply_moves(s.move_spec(lines, dirs[0]), lines, dirs.drop_first())
    }
}

/// Law: whatever sequence of moves is made, the cursor never leaves the
/// buffer — its line stays below the line count and its column inside its
/// line (at (0, 0) on an empty buffer) — and the window stays well formed.
pub proof fn lemma_moves_keep_cursor_in_buffer(
    s: TextWindowState,
    lines: Seq<Seq<char>>,
    dirs: Seq<RectilinearDirection>,
)
    requires
        s.wf(),
        s.cursor_in_buffer(lines),
        buffer_bounded(lines),
    ensures
        apply_moves(s, lines, dirs).wf(),
        apply_moves(s, lines, dirs).cursor_in_buffer(lines),
    decreases dirs.len(),
{
    if dirs.len() > 0 {
        lemma_move_spec_preserves(s, lines, dirs[0]);
        lemma_moves_keep_cursor_in_buffer(s.move_spec(lines, dirs[0]), lines, dirs.drop_first());
    }
}

/// Law: jumping to the end of the line is idempotent — a second
/// `jump_to_EOL` leaves the whole state exactly as the first left it.
pub proof fn lemma_eol_idempotent(s: TextWindowState, lines: Seq<Seq<char>>)
    requires
        s.wf(),
        s.line_in_buffer(lines),
        buffer_bounded(lines),
    ensures
        s.eol_spec(lines).eol_spec(lines) == s.eol_spec(lines),
{
    lemma_eol_spec_props(s, lines);
}

/// Law: from any line but the first, when the cursor column agrees with
/// the sticky column as far as its line allows — the state every vertical
/// move and every jump leaves behind — moving Up and then Down returns the
/// cursor to its original line and column.
pub proof fn lemma_up_then_down_restores_cursor(s: TextWindowState, lines: Seq<Seq<char>>)
    requires
        s.wf(),
        s.cursor_in_buffer(lines),
        buffer_bounded(lines),
        1 <= s.cursor.line,
        s.cursor.col == ({
            let len = s.cur_line_len(lines);
            if s.last_manual_col < len {
                s.last_manual_col as int
            } else if len == 0 {
                0int
            } else {
                len - 1
            }
        }),
    ensures
        s.move_spec(lines, RectilinearDirection::Up).move_spec(
            lines,
            RectilinearDirection::Down,
        ).cursor == s.cursor,
{
    let top = s.spec_top_line();
    let line2 = (s.cursor.line - 1) as usize;
    let anchor2: usize = if line2 < top {
        0
    } else {
        (line2 - top) as usize
    };
    let s_mid = TextWindowState {
        cursor: BufferPosition { line: line2, col: s.cursor.col },
        vertical_anchor: anchor2,
        ..s
    };
    let s1 = s.move_spec(lines, RectilinearDirection::Up);
    assert(s1 == s_mid.vertical_snap_spec(lines));
    lemma_vertical_snap_props(s_mid, lines);
    assert(s1.cursor.line == line2);
    assert(s1.last_manual_col == s.last_manual_col);
    assert(s1.cursor.line + 1 < lines.len());

    let top1 = s1.spec_top_line();
    let line3 = (s1.cursor.line + 1) as usize;
    let anchor3: usize = if s1.vertical_anchor == s1.last_height - 1 {
        s1.vertical_anchor
    } else {
        (s1.cursor.line - top1 + 1) as usize
    };
    let s1_mid = TextWindowState {
        cursor: BufferPosition { line: line3, col: s1.cursor.col },
        vertical_anchor: anchor3,
        ..s1
    };
    let s2 = s1.move_spec(lines, RectilinearDirection::Down);
    assert(s2 == s1_mid.vertical_snap_spec(lines));
    lemma_vertical_snap_props(s1_mid, lines);
    assert(s2.cursor.line == s.cursor.line);
    assert(s2.cursor.col == s.cursor.col);
}

} // verus!
