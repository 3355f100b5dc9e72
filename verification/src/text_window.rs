//! The navigation state machine and the renderer logic of one text window.

use vstd::prelude::*;

use crate::buffer::{BufferPosition, RectilinearDirection, TextBuffer};

verus! {

/// Viewport heights and widths are observed from a terminal cell grid whose
/// sides are 16-bit quantities; they are clamped to at least 2 so that the
/// row-anchor arithmetic below never divides by zero.
pub const MAX_VIEWPORT_DIM: usize = 65535;

/// The rectangular window of buffer coordinates currently on screen, all
/// bounds inclusive. It is derived on demand from the navigation state and
/// never stored, so it cannot go stale.
#[derive(Clone, Copy, Debug, PartialEq, Eq, Structural)]
pub struct ScreenBounds {
    pub top_line: usize,
    pub bottom_line: usize,
    pub leftmost_col: usize,
    pub rightmost_col: usize,
}

/// The navigation state of one text window: the horizontal scroll offset,
/// the most recently observed viewport size, the cursor, its remembered row
/// within the viewport, and the "sticky" column vertical movement returns to.
#[derive(Clone, Copy, Debug, PartialEq, Eq, Structural)]
pub struct TextWindowState {
    /// Leftmost buffer column currently visible.
    pub leftmost_col: usize,
    /// Most recently observed viewport height, clamped to at least 2.
    pub last_height: usize,
    /// Most recently observed viewport width, clamped to at least 2.
    pub last_width: usize,
    /// The cursor's remembered row within the viewport, always below
    /// `last_height` and never beyond the cursor line (the window's top can
    /// never lie above line 0). The buffer line shown in the top row is
    /// derived from the cursor and this anchor, never stored, so the two
    /// cannot diverge. Row `0` means the cursor sits at the top edge,
    /// `last_height - 1` at the bottom edge.
    pub vertical_anchor: usize,
    /// Current cursor location, always inside the buffer.
    pub cursor: BufferPosition,
    /// The column last chosen by an explicit horizontal move or jump;
    /// vertical movement returns to it when the target line is long enough.
    pub last_manual_col: usize,
}

impl TextWindowState {
    /// The buffer line shown in the window's top row, derived from the
    /// cursor line and its remembered viewport row.
    pub open spec fn spec_top_line(self) -> int {
        if self.vertical_anchor <= self.cursor.line {
            self.cursor.line - self.vertical_anchor
        } else {
            0
        }
    }

    /// Structural invariant of the window geometry: the viewport size is in
    /// range, the anchor row fits in the viewport and is the cursor's true
    /// relative row (it never exceeds the cursor line), and the cursor
    /// column is horizontally visible.
    pub open spec fn wf(self) -> bool {
        &&& 2 <= self.last_height <= MAX_VIEWPORT_DIM
        &&& 2 <= self.last_width <= MAX_VIEWPORT_DIM
        &&& self.vertical_anchor < self.last_height
        &&& self.vertical_anchor <= self.cursor.line
        &&& self.leftmost_col <= self.cursor.col
        &&& self.cursor.col - self.leftmost_col < self.last_width
    }

    /// The cursor line exists in the buffer (line 0 when the buffer is
    /// empty).
    pub open spec fn line_in_buffer(self, lines: Seq<Seq<char>>) -> bool {
        if lines.len() == 0 {
            self.cursor.line == 0
        } else {
            self.cursor.line < lines.len()
        }
    }

    /// The cursor points at an existing character cell of the buffer:
    /// `(0, 0)` when the buffer is empty, otherwise a valid line, and a
    /// column strictly inside that line unless the line is empty, in which
    /// case the column is 0.
    pub open spec fn cursor_in_buffer(self, lines: Seq<Seq<char>>) -> bool {
        if lines.len() == 0 {
            self.cursor.line == 0 && self.cursor.col == 0
        } else {
            &&& self.cursor.line < lines.len()
            &&& if lines[self.cursor.line as int].len() == 0 {
                self.cursor.col == 0
            } else {
                self.cursor.col < lines[self.cursor.line as int].len()
            }
        }
    }

    /// Length of the cursor's line, or 0 when the buffer is empty.
    pub open spec fn cur_line_len(self, lines: Seq<Seq<char>>) -> int {
        if lines.len() == 0 {
            0
        } else {
            lines[self.cursor.line as int].len() as int
        }
    }

    /// A fresh window: everything at the origin, with the smallest legal
    /// viewport recorded until a render observes the real one.
    pub fn new() -> (r: TextWindowState)
        ensures
            r == (TextWindowState {
                leftmost_col: 0,
                last_height: 2,
                last_width: 2,
                vertical_anchor: 0,
                cursor: BufferPosition { line: 0, col: 0 },
                last_manual_col: 0,
            }),
            r.wf(),
            forall|lines: Seq<Seq<char>>| #[trigger] r.cursor_in_buffer(lines),
    {
        TextWindowState {
            leftmost_col: 0,
            last_height: 2,
            last_width: 2,
            vertical_anchor: 0,
            cursor: BufferPosition { line: 0, col: 0 },
            last_manual_col: 0,
        }
    }

    /// State after `jump_to_EOL`: the column moves to the last character of
    /// the cursor's line (0 on an empty line), and the left edge scrolls so
    /// that column stays visible: brought to the right edge when it was off
    /// screen, or to 0 when the line fits from its start.
    pub open spec fn eol_spec(self, lines: Seq<Seq<char>>) -> TextWindowState {
        let len = self.cur_line_len(lines);
        if len == 0 {
            TextWindowState {
                cursor: BufferPosition { line: self.cursor.line, col: 0 },
                leftmost_col: 0,
                ..self
            }
        } else {
            let col = (len - 1) as usize;
            let left = self.leftmost_col;
            let w = self.last_width;
            let left2: usize = if col >= left && col - left >= w {
                (col - (w - 1)) as usize
            } else if col < left && col >= w {
                (col - (w - 1)) as usize
            } else if col < left {
                0
            } else {
                left
            };
            TextWindowState {
                cursor: BufferPosition { line: self.cursor.line, col: col },
                leftmost_col: left2,
                ..self
            }
        }
    }

    /// State after the end-of-line snap that closes every jump: the column
    /// is pulled back to the end of the line when it points past it, and is
    /// left alone otherwise.
    pub open spec fn snap_spec(self, lines: Seq<Seq<char>>) -> TextWindowState {
        if self.cursor.col >= self.cur_line_len(lines) {
            self.eol_spec(lines)
        } else {
            self
        }
    }

    /// Move the cursor to the end of its line and scroll horizontally so it
    /// stays visible.
    #[allow(non_snake_case)]
    pub fn jump_to_EOL(&mut self, buf: &TextBuffer)
        requires
            old(self).wf(),
            old(self).line_in_buffer(buf@),
        ensures
            *final(self) == old(self).eol_spec(buf@),
            final(self).wf(),
            final(self).cursor_in_buffer(buf@),
    {
        let count = buf.line_count();
        let line_length = if count == 0 {
            0
        } else {
            buf.line_length(self.cursor.line)
        };
        if line_length == 0 {
            self.cursor.col = 0;
            self.leftmost_col = 0;
            return;
        }
        self.cursor.col = line_length - 1;
        let col = self.cursor.col;
        let left = self.leftmost_col;
        let w = self.last_width;
        let to_the_right = col >= left && col - left >= w;
        let out_of_bounds = to_the_right || col < left;
        if !out_of_bounds {
            return;
        }
        if to_the_right {
            self.leftmost_col = col - (w - 1);
        } else if col >= w {
            self.leftmost_col = col - (w - 1);
        } else {
            self.leftmost_col = 0;
        }
    }

    /// Pull the column back to the end of the line if it points past it.
    #[allow(non_snake_case)]
    fn snap_to_EOL(&mut self, buf: &TextBuffer)
        requires
            old(self).wf(),
            old(self).line_in_buffer(buf@),
        ensures
            *final(self) == old(self).snap_spec(buf@),
            final(self).wf(),
            final(self).cursor_in_buffer(buf@),
    {
        let count = buf.line_count();
        if count == 0 {
            self.cursor.col = 0;
            self.leftmost_col = 0;
            return;
        }
        let line_length = buf.line_length(self.cursor.line);
        if self.cursor.col >= line_length {
            self.jump_to_EOL(buf);
        }
    }

    /// State after `jump(pos)`. The cursor lands on the target; the window
    /// scrolls only as needed: when the target line is vertically off
    /// screen the view recenters so the cursor sits `min(height/2, line)`
    /// rows from the top, and when the target column is horizontally off
    /// screen the left edge recenters so the cursor sits
    /// `min(3*width/4, column)` columns from the left edge. The move closes
    /// with an end-of-line snap and records the resulting column as the
    /// sticky column.
    pub open spec fn jump_spec(self, lines: Seq<Seq<char>>, pos: BufferPosition) -> TextWindowState {
        let top = self.spec_top_line();
        let h = self.last_height;
        let w = self.last_width;
        let vertically_out = self.spec_vertically_out(pos.line);
        let s1 = if lines.len() > 0 && vertically_out {
            let line = if pos.line < lines.len() - 1 {
                pos.line as int
            } else {
                lines.len() - 1
            };
            let anchor = if h / 2 < line {
                (h / 2) as int
            } else {
                line
            };
            TextWindowState {
                cursor: BufferPosition { line: line as usize, col: self.cursor.col },
                vertical_anchor: anchor as usize,
                ..self
            }
        } else {
            TextWindowState {
                cursor: BufferPosition { line: pos.line, col: self.cursor.col },
                vertical_anchor: (pos.line - top) as usize,
                ..self
            }
        };
        let horizontally_out = pos.col < s1.leftmost_col || pos.col - s1.leftmost_col > w - 1;
        let left2: usize = if horizontally_out {
            let relative_col = if 3 * w / 4 < pos.col {
                (3 * w / 4) as int
            } else {
                pos.col as int
            };
            (pos.col - relative_col) as usize
        } else {
            s1.leftmost_col
        };
        let s2 = TextWindowState {
            cursor: BufferPosition { line: s1.cursor.line, col: pos.col },
            leftmost_col: left2,
            ..s1
        };
        let s3 = s2.snap_spec(lines);
        TextWindowState { last_manual_col: s3.cursor.col, ..s3 }
    }

    /// Whether a line lies vertically outside the visible window.
    pub open spec fn spec_vertically_out(self, line: usize) -> bool {
        line < self.spec_top_line() || line - self.spec_top_line() > self.last_height - 1
    }

    /// A target a jump may aim the cursor at: any existing buffer position;
    /// or, on a non-empty buffer, a line past its end so long as that line
    /// lies vertically outside the window — the jump then clamps it to the
    /// last line. A line past the end that already lies inside the window
    /// is excluded: there is no line there to land on and no clamp to reach
    /// one.
    pub open spec fn valid_jump_target(self, pos: BufferPosition, lines: Seq<Seq<char>>) -> bool {
        if lines.len() == 0 {
            pos.line == 0
        } else {
            pos.line < lines.len() || self.spec_vertically_out(pos.line)
        }
    }

    /// Move the cursor to a buffer position, scrolling only as needed. The
    /// cursor ends on the target line — clamped to the last line when the
    /// target lies beyond the buffer — and on the target column unless the
    /// landed line is shorter, in which case it snaps to the end of the
    /// line.
    pub fn jump(&mut self, buf: &TextBuffer, pos: &BufferPosition)
        requires
            old(self).wf(),
            old(self).line_in_buffer(buf@),
            old(self).valid_jump_target(*pos, buf@),
        ensures
            *final(self) == old(self).jump_spec(buf@, *pos),
            final(self).wf(),
            final(self).cursor_in_buffer(buf@),
            final(self).cursor.line == if buf@.len() == 0 {
                0int
            } else if pos.line < buf@.len() {
                pos.line as int
            } else {
                buf@.len() - 1
            },
            ({
                let len = final(self).cur_line_len(buf@);
                final(self).cursor.col == if pos.col < len {
                    pos.col as int
                } else if len == 0 {
                    0int
                } else {
                    len - 1
                }
            }),
            final(self).last_manual_col == final(self).cursor.col,
    {
        let count = buf.line_count();
        let top = self.top_line();
        let h = self.last_height;
        let w = self.last_width;
        let vertically_out = pos.line < top || pos.line - top > h - 1;
        if count > 0 && vertically_out {
            let line = if pos.line < count - 1 {
                pos.line
            } else {
                count - 1
            };
            self.cursor.line = line;
            self.vertical_anchor = if h / 2 < line {
                h / 2
            } else {
                line
            };
        } else {
            self.cursor.line = pos.line;
            self.vertical_anchor = pos.line - top;
        }
        self.cursor.col = pos.col;
        let left = self.leftmost_col;
        if pos.col < left || pos.col - left > w - 1 {
            let relative_col = if 3 * w / 4 < pos.col {
                3 * w / 4
            } else {
                pos.col
            };
            self.leftmost_col = pos.col - relative_col;
        }
        self.snap_to_EOL(buf);
        self.last_manual_col = self.cursor.col;
    }

    /// Move the cursor to the start of its line: column, left edge and
    /// sticky column all return to 0.
    pub fn jump_to_home(&mut self)
        ensures
            *final(self) == (TextWindowState {
                cursor: BufferPosition { line: old(self).cursor.line, col: 0 },
                leftmost_col: 0,
                last_manual_col: 0,
                ..*old(self)
            }),
            old(self).wf() ==> final(self).wf(),
            forall|lines: Seq<Seq<char>>|
                old(self).line_in_buffer(lines) ==> #[trigger] final(self).cursor_in_buffer(lines),
    {
        self.cursor.col = 0;
        self.leftmost_col = 0;
        self.last_manual_col = 0;
    }

    /// State after `jump_to_last_line`: the cursor sits on the final buffer
    /// line (line 0 when the buffer is empty), anchored so the last line is
    /// visible near the bottom edge of the viewport, with the end-of-line
    /// snap applied and the sticky column updated.
    pub open spec fn last_line_spec(self, lines: Seq<Seq<char>>) -> TextWindowState {
        let line: usize = if lines.len() > 0 {
            (lines.len() - 1) as usize
        } else {
            0
        };
        let top: int = if line >= self.last_height {
            line - self.last_height + 2
        } else {
            0
        };
        let s1 = TextWindowState {
            cursor: BufferPosition { line: line, col: self.cursor.col },
            vertical_anchor: (line - top) as usize,
            ..self
        };
        let s2 = s1.snap_spec(lines);
        TextWindowState { last_manual_col: s2.cursor.col, ..s2 }
    }

    /// Move the cursor to the final buffer line, scrolling so that line is
    /// visible at the bottom of the viewport.
    pub fn jump_to_last_line(&mut self, buf: &TextBuffer)
        requires
            old(self).wf(),
        ensures
            *final(self) == old(self).last_line_spec(buf@),
            final(self).wf(),
            final(self).cursor_in_buffer(buf@),
            final(self).cursor.line == if buf@.len() > 0 {
                buf@.len() - 1
            } else {
                0int
            },
    {
        let count = buf.line_count();
        let line = if count > 0 {
            count - 1
        } else {
            0
        };
        let top = if line >= self.last_height {
            line - self.last_height + 2
        } else {
            0
        };
        self.cursor.line = line;
        self.vertical_anchor = line - top;
        self.snap_to_EOL(buf);
        self.last_manual_col = self.cursor.col;
    }

    /// State after the column snap that closes a vertical move: the cursor
    /// returns to the sticky column when the new line is long enough,
    /// otherwise it jumps to the end of the new line.
    pub open spec fn vertical_snap_spec(self, lines: Seq<Seq<char>>) -> TextWindowState {
        let len = self.cur_line_len(lines);
        if self.last_manual_col >= len {
            self.eol_spec(lines)
        } else {
            self.jump_spec(
                lines,
                BufferPosition { line: self.cursor.line, col: self.last_manual_col },
            )
        }
    }

    /// State after `move_cursor(dir)`.
    ///
    /// - `Up`: no-op on line 0. Otherwise the line decrements; if the cursor
    ///   was at the top edge the window scrolls up with it (anchor 0), else
    ///   the anchor follows the cursor one row up. The column then snaps.
    /// - `Down`: no-op on the last line. Otherwise the line increments; if
    ///   the cursor was exactly at the bottom edge the window scrolls down
    ///   with it (anchor stays at the bottom), else the anchor follows one
    ///   row down. The column then snaps.
    /// - `Right`: no-op on an empty buffer or at the last column of the
    ///   line. Otherwise the column and the sticky column increment, and the
    ///   window scrolls right by one when the cursor would leave it.
    /// - `Left`: no-op at column 0. Otherwise the column and the sticky
    ///   column decrement, and the left edge follows the cursor when it
    ///   moves left of the window.
    pub open spec fn move_spec(self, lines: Seq<Seq<char>>, dir: RectilinearDirection) -> TextWindowState {
        match dir {
            RectilinearDirection::Up => {
                if self.cursor.line == 0 {
                    self
                } else {
                    let top = self.spec_top_line();
                    let line2 = (self.cursor.line - 1) as usize;
                    let anchor2: usize = if line2 < top {
                        0
                    } else {
                        (line2 - top) as usize
                    };
                    let s1 = TextWindowState {
                        cursor: BufferPosition { line: line2, col: self.cursor.col },
                        vertical_anchor: anchor2,
                        ..self
                    };
                    s1.vertical_snap_spec(lines)
                }
            }
            RectilinearDirection::Down => {
                if self.cursor.line + 1 >= lines.len() {
                    self
                } else {
                    let top = self.spec_top_line();
                    let line2 = (self.cursor.line + 1) as usize;
                    let anchor2: usize = if self.vertical_anchor == self.last_height - 1 {
                        self.vertical_anchor
                    } else {
                        (self.cursor.line - top + 1) as usize
                    };
                    let s1 = TextWindowState {
                        cursor: BufferPosition { line: line2, col: self.cursor.col },
                        vertical_anchor: anchor2,
                        ..self
                    };
                    s1.vertical_snap_spec(lines)
                }
            }
            RectilinearDirection::Right => {
                if lines.len() == 0 {
                    self
                } else {
                    let len = lines[self.cursor.line as int].len();
                    if self.cursor.col + 1 >= len {
                        self
                    } else {
                        let col2 = (self.cursor.col + 1) as usize;
                        let left2: usize = if col2 - self.leftmost_col >= self.last_width {
                            (self.leftmost_col + 1) as usize
                        } else {
                            self.leftmost_col
                        };
                        TextWindowState {
                            cursor: BufferPosition { line: self.cursor.line, col: col2 },
                            last_manual_col: col2,
                            leftmost_col: left2,
                            ..self
                        }
                    }
                }
            }
            RectilinearDirection::Left => {
                if self.cursor.col == 0 {
                    self
                } else {
                    let col2 = (self.cursor.col - 1) as usize;
                    let left2: usize = if col2 < self.leftmost_col {
                        col2
                    } else {
                        self.leftmost_col
                    };
                    TextWindowState {
                        cursor: BufferPosition { line: self.cursor.line, col: col2 },
                        last_manual_col: col2,
                        leftmost_col: left2,
                        ..self
                    }
                }
            }
        }
    }

    /// Move the cursor one step in the given direction, scrolling as needed.
    /// Movement past a buffer edge is a silent no-op, never an error.
    pub fn move_cursor(&mut self, buf: &TextBuffer, dir: RectilinearDirection)
        requires
            old(self).wf(),
            old(self).cursor_in_buffer(buf@),
        ensures
            *final(self) == old(self).move_spec(buf@, dir),
            final(self).wf(),
            final(self).cursor_in_buffer(buf@),
    {
        match dir {
            RectilinearDirection::Up => {
                if self.cursor.line == 0 {
                    return;
                }
                let top = self.top_line();
                self.cursor.line = self.cursor.line - 1;
                if self.cursor.line < top {
                    self.vertical_anchor = 0;
                } else {
                    self.vertical_anchor = self.cursor.line - top;
                }
                let new_line_length = buf.line_length(self.cursor.line);
                if self.last_manual_col >= new_line_length {
                    self.jump_to_EOL(buf);
                } else {
                    let target = BufferPosition {
                        line: self.cursor.line,
                        col: self.last_manual_col,
                    };
                    self.jump(buf, &target);
                }
            }
            RectilinearDirection::Down => {
                let count = buf.line_count();
                if self.cursor.line + 1 >= count {
                    return;
                }
                let top = self.top_line();
                let relative_line = self.cursor.line - top;
                self.cursor.line = self.cursor.line + 1;
                if self.vertical_anchor == self.last_height - 1 {
                    // bottom edge reached: the window follows the cursor down
                } else {
                    self.vertical_anchor = relative_line + 1;
                }
                let new_line_length = buf.line_length(self.cursor.line);
                if self.last_manual_col >= new_line_length {
                    self.jump_to_EOL(buf);
                } else {
                    let target = BufferPosition {
                        line: self.cursor.line,
                        col: self.last_manual_col,
                    };
                    self.jump(buf, &target);
                }
            }
            RectilinearDirection::Right => {
                let count = buf.line_count();
                if count == 0 {
                    return;
                }
                let line_length = buf.line_length(self.cursor.line);
                if self.cursor.col + 1 >= line_length {
                    return;
                }
                self.cursor.col = self.cursor.col + 1;
                self.last_manual_col = self.cursor.col;
                if self.cursor.col - self.leftmost_col >= self.last_width {
                    self.leftmost_col = self.leftmost_col + 1;
                }
            }
            RectilinearDirection::Left => {
                if self.cursor.col == 0 {
                    return;
                }
                self.cursor.col = self.cursor.col - 1;
                self.last_manual_col = self.cursor.col;
                if self.cursor.col < self.leftmost_col {
                    self.leftmost_col = self.cursor.col;
                }
            }
        }
    }

    /// The window of buffer coordinates currently visible, with inclusive
    /// bounds.
    pub open spec fn spec_screen_bounds(self) -> ScreenBounds {
        ScreenBounds {
            top_line: self.spec_top_line() as usize,
            bottom_line: (self.spec_top_line() + self.last_height - 1) as usize,
            leftmost_col: self.leftmost_col,
            rightmost_col: (self.leftmost_col + self.last_width - 1) as usize,
        }
    }

    /// The window of buffer coordinates currently visible.
    pub fn screen_bounds(&self) -> (r: ScreenBounds)
        requires
            self.wf(),
            self.cursor.line + self.last_height <= usize::MAX,
            self.cursor.col + self.last_width <= usize::MAX,
        ensures
            r == self.spec_screen_bounds(),
    {
        let top_line = self.top_line();
        let bottom_line = top_line + self.last_height - 1;
        let leftmost_col = self.leftmost_col;
        let rightmost_col = leftmost_col + self.last_width - 1;
        ScreenBounds { top_line, bottom_line, leftmost_col, rightmost_col }
    }

    /// Whether a buffer position lies inside the visible window.
    pub open spec fn spec_on_screen(self, pos: BufferPosition) -> bool {
        let top = self.spec_top_line();
        &&& top <= pos.line
        &&& pos.line - top < self.last_height
        &&& self.leftmost_col <= pos.col
        &&& pos.col - self.leftmost_col < self.last_width
    }

    /// Whether a buffer position lies inside the visible window.
    pub fn is_on_screen(&self, pos: &BufferPosition) -> (r: bool)
        ensures
            r == self.spec_on_screen(*pos),
    {
        let top = self.top_line();
        pos.line >= top && pos.line - top < self.last_height && pos.col >= self.leftmost_col
            && pos.col - self.leftmost_col < self.last_width
    }

    /// State after a render observed an output area of the given size: the
    /// size is recorded, clamped to the legal minimum of 2 in each
    /// direction; the remembered cursor row is rescaled to the new height,
    /// rounding to the nearest row, so the cursor keeps its relative
    /// position — and clamped to the cursor line, since the window's top
    /// can never lie above line 0; and the left edge is pulled in when a
    /// narrower viewport would have left the cursor off screen.
    pub open spec fn resize_spec(self, height: u16, width: u16) -> TextWindowState {
        let h: int = if height < 2 {
            2
        } else {
            height as int
        };
        let w: int = if width < 2 {
            2
        } else {
            width as int
        };
        let num = 2 * self.vertical_anchor * (h - 1) + (self.last_height - 1);
        let den = 2 * (self.last_height - 1);
        let q = num / den;
        let rescaled: int = if q < h - 1 {
            q
        } else {
            h - 1
        };
        let anchor2: int = if rescaled <= self.cursor.line {
            rescaled
        } else {
            self.cursor.line as int
        };
        let left2: int = if self.cursor.col - self.leftmost_col >= w {
            self.cursor.col - (w - 1)
        } else {
            self.leftmost_col as int
        };
        TextWindowState {
            last_height: h as usize,
            last_width: w as usize,
            vertical_anchor: anchor2 as usize,
            leftmost_col: left2 as usize,
            ..self
        }
    }

    /// The buffer line shown in the window's top row.
    pub fn top_line(&self) -> (r: usize)
        ensures
            r == self.spec_top_line(),
    {
        if self.vertical_anchor <= self.cursor.line {
            self.cursor.line - self.vertical_anchor
        } else {
            0
        }
    }
}

/// Number of decimal digits of `n` (1 for 0 through 9).
pub open spec fn spec_decimal_digits(n: nat) -> nat
    decreases n,
{
    if n < 10 {
        1
    } else {
        1 + spec_decimal_digits(n / 10)
    }
}

/// Number of decimal digits of `n`.
fn decimal_digits(n: usize) -> (r: usize)
    ensures
        r == spec_decimal_digits(n as nat),
        1 <= r <= n / 10 + 1,
    decreases n,
{
    if n < 10 {
        1
    } else {
        let rest = decimal_digits(n / 10);
        rest + 1
    }
}

/// Width of the line-number gutter for a buffer of `count` lines: the
/// decimal digit count of the line count, plus one column of padding.
pub fn line_number_width(count: usize) -> (r: usize)
    ensures
        r == spec_decimal_digits(count as nat) + 1,
{
    let digits = decimal_digits(count);
    digits + 1
}

/// A run of `n` spaces.
pub open spec fn spec_spaces(n: int) -> Seq<char> {
    Seq::new(n as nat, |i: int| ' ')
}

/// One rendered row: the characters of `line` from column `left` on (none
/// when the line is shorter), padded with spaces or cut short to exactly
/// `width` characters for a uniform background fill.
pub open spec fn visible_row(line: Seq<char>, left: int, width: int) -> Seq<char> {
    let vis = if left < line.len() {
        line.skip(left)
    } else {
        Seq::empty()
    };
    if vis.len() >= width {
        vis.take(width)
    } else {
        vis + spec_spaces(width - vis.len())
    }
}

/// The views of a vector of rows.
pub open spec fn rows_view(rows: Seq<Vec<char>>) -> Seq<Seq<char>> {
    Seq::new(rows.len(), |i: int| rows[i]@)
}

/// The rows a window shows of a buffer: the slice of lines starting at the
/// window's top line, at most a viewport's height of them, each rendered
/// through `visible_row`.
pub open spec fn visible_rows(lines: Seq<Seq<char>>, s: TextWindowState) -> Seq<Seq<char>> {
    let top = s.spec_top_line();
    let n: int = if lines.len() >= top + s.last_height {
        s.last_height as int
    } else if lines.len() >= top {
        lines.len() - top
    } else {
        0
    };
    Seq::new(n as nat, |i: int| visible_row(lines[top + i], s.leftmost_col as int, s.last_width as int))
}

/// Where the cursor highlight lands in a built set of rows.
#[derive(Debug, PartialEq, Eq)]
pub enum CursorHighlight {
    /// The cursor's line is outside the rendered rows; nothing to highlight.
    Offscreen,
    /// The cursor's row held no text; it was replaced by a single space to
    /// be drawn highlighted, so the cursor stays visible.
    BlankRow { row: usize },
    /// The cursor's row splits into the text before the cursor, the single
    /// character under it (to be drawn highlighted), and the text after it.
    Split { row: usize, before: Vec<char>, under: char, after: Vec<char> },
}

/// The renderer of one text window: stateless logic that, given a
/// navigation state and an output size, produces the visible rows of text
/// and locates the cursor highlight. Styling, colors and terminal output
/// live with the caller.
pub struct TextWindow {
}

impl TextWindow {
    /// A new renderer. It holds no state of its own.
    pub fn new() -> (r: TextWindow) {
        TextWindow {  }
    }

    /// Record the observed output size into the state, then build the rows
    /// of text currently visible: the buffer lines at the window, each
    /// shifted left by the horizontal scroll and padded with spaces or cut
    /// short to exactly the viewport width.
    pub fn build_lines(&self, buf: &TextBuffer, height: u16, width: u16, state: &mut TextWindowState) -> (r: Vec<Vec<char>>)
        requires
            old(state).wf(),
        ensures
            *final(state) == old(state).resize_spec(height, width),
            final(state).wf(),
            final(state).cursor == old(state).cursor,
            rows_view(r@) == visible_rows(buf@, *final(state)),
            forall|i: int|
                0 <= i < r@.len() ==> (#[trigger] r@[i])@.len() == final(state).last_width,
    {
        let h: usize = if height < 2 { 2 } else { height as usize };
        let w: usize = if width < 2 { 2 } else { width as usize };
        // Rescale the remembered cursor row from the old height to the new
        // one, rounding to the nearest row, so the cursor keeps its relative
        // height across a resize.
        proof {
            let a = state.vertical_anchor as int;
            let hm = h - 1;
            assert(2 * a * hm <= 2 * 65534 * 65534) by (nonlinear_arith)
                requires
                    0 <= a <= 65534,
                    0 <= hm <= 65534,
            ;
        }
        let num: u64 = 2 * (state.vertical_anchor as u64) * ((h - 1) as u64)
            + ((state.last_height - 1) as u64);
        let den: u64 = 2 * ((state.last_height - 1) as u64);
        let q: u64 = num / den;
        let rescaled: usize = if q < (h - 1) as u64 {
            q as usize
        } else {
            h - 1
        };
        // The remembered row can never exceed the cursor line: after a
        // growing resize the rescaled row could, and a stale bottom-edge
        // mark would make the next downward move scroll a window whose top
        // is already at line 0.
        state.vertical_anchor = if rescaled <= state.cursor.line {
            rescaled
        } else {
            state.cursor.line
        };
        state.last_height = h;
        state.last_width = w;
        // A narrower viewport may have pushed the cursor off screen; pull
        // the left edge in so it stays visible.
        if state.cursor.col - state.leftmost_col >= w {
            state.leftmost_col = state.cursor.col - (w - 1);
        }
        let top = state.top_line();
        let count = buf.line_count();
        let n: usize = if count > top {
            if count - top < h {
                count - top
            } else {
                h
            }
        } else {
            0
        };
        let ghost target = visible_rows(buf@, *state);
        proof {
            assert(n == target.len());
        }
        let left = state.leftmost_col;
        let mut rows: Vec<Vec<char>> = Vec::new();
        let mut i: usize = 0;
        while i < n
            invariant
                i <= n,
                n == target.len(),
                count == buf@.len(),
                top + n <= count || n == 0,
                top == state.spec_top_line(),
                left == state.leftmost_col,
                w == state.last_width,
                target == visible_rows(buf@, *state),
                rows@.len() == i,
                forall|k: int| 0 <= k < i ==> #[trigger] rows@[k]@ == target[k],
            decreases n - i,
        {
            let line = buf.line_content(top + i);
            let line_length = line.len();
            let ghost vis: Seq<char> = if left < buf@[top + i].len() {
                buf@[top + i].skip(left as int)
            } else {
                Seq::empty()
            };
            let mut row: Vec<char> = Vec::new();
            if left < line_length {
                let mut j: usize = left;
                while j < line_length && row.len() < w
                    invariant
                        left <= j <= line_length,
                        top + i < buf@.len(),
                        line@ == buf@[top + i],
                        line_length == line@.len(),
                        row@ == line@.subrange(left as int, j as int),
                        row@.len() <= w,
                    decreases line_length - j,
                {
                    row.push(line[j]);
                    j = j + 1;
                }
            }
            proof {
                if vis.len() >= w {
                    assert(row@ =~= vis.take(w as int));
                } else {
                    assert(row@ =~= vis);
                }
            }
            while row.len() < w
                invariant
                    vis.len() >= w ==> row@ == vis.take(w as int),
                    vis.len() < w ==> {
                        &&& vis.len() <= row@.len() <= w
                        &&& forall|k: int| 0 <= k < vis.len() ==> #[trigger] row@[k] == vis[k]
                        &&& forall|k: int| vis.len() <= k < row@.len() ==> #[trigger] row@[k]
                            == ' '
                    },
                decreases w - row@.len(),
            {
                row.push(' ');
            }
            proof {
                assert(row@ =~= visible_row(buf@[top + i], left as int, w as int));
            }
            rows.push(row);
            i = i + 1;
        }
        proof {
            assert(rows_view(rows@) =~= target);
        }
        rows
    }

    /// Locate the cursor inside rows built by `build_lines`. When no rows
    /// were produced (an empty buffer) one blank row is synthesized first,
    /// so the cursor always has a row to live on; a cursor row outside the
    /// rendered slice is reported as off screen, never an error.
    pub fn highlight_cursor(&self, rows: &mut Vec<Vec<char>>, state: &TextWindowState) -> (r: CursorHighlight)
        requires
            state.wf(),
            old(rows)@.len() == 0 ==> state.cursor.col == state.leftmost_col,
            ({
                let top = state.spec_top_line();
                let row = state.cursor.line - top;
                (old(rows)@.len() > 0 && top <= state.cursor.line && row < old(rows)@.len()
                    && old(rows)@[row].len() > 0) ==> old(rows)@[row].len() > state.cursor.col
                    - state.leftmost_col
            }),
        ensures
            ({
                let top = state.spec_top_line();
                let rows0: Seq<Seq<char>> = if old(rows)@.len() == 0 {
                    seq![spec_spaces(state.last_width - 1)]
                } else {
                    rows_view(old(rows)@)
                };
                let row = state.cursor.line - top;
                let visible = top <= state.cursor.line && row < rows0.len();
                match r {
                    CursorHighlight::Offscreen => {
                        &&& !visible
                        &&& rows_view(final(rows)@) == rows0
                    }
                    CursorHighlight::BlankRow { row: rr } => {
                        &&& visible
                        &&& rr == row
                        &&& rows0[row].len() == 0
                        &&& rows_view(final(rows)@) == rows0.update(row, seq![' '])
                    }
                    CursorHighlight::Split { row: rr, before, under, after } => {
                        let col = state.cursor.col - state.leftmost_col;
                        &&& visible
                        &&& rr == row
                        &&& rows0[row].len() > 0
                        &&& rows_view(final(rows)@) == rows0
                        &&& before@ == rows0[row].take(col)
                        &&& under == rows0[row][col]
                        &&& after@ == rows0[row].skip(col + 1)
                    }
                }
            }),
    {
        let w = state.last_width;
        if rows.len() == 0 {
            let mut blank: Vec<char> = Vec::new();
            let mut k: usize = 0;
            while k < w - 1
                invariant
                    k <= w - 1,
                    blank@.len() == k,
                    forall|j: int| 0 <= j < k ==> #[trigger] blank@[j] == ' ',
                decreases w - 1 - k,
            {
                blank.push(' ');
                k = k + 1;
            }
            proof {
                assert(blank@ =~= spec_spaces(w - 1));
            }
            rows.push(blank);
            proof {
                assert(rows_view(rows@) =~= seq![spec_spaces(w - 1)]);
            }
        }
        let top = state.top_line();
        if state.cursor.line < top {
            return CursorHighlight::Offscreen;
        }
        let row = state.cursor.line - top;
        if row >= rows.len() {
            return CursorHighlight::Offscreen;
        }
        let col = state.cursor.col - state.leftmost_col;
        let row_len = rows[row].len();
        if row_len == 0 {
            let mut single: Vec<char> = Vec::new();
            single.push(' ');
            proof {
                assert(single@ =~= seq![' ']);
            }
            rows[row] = single;
            proof {
                assert(rows_view(rows@) =~= rows_view(old(rows)@).update(row as int, seq![' ']));
            }
            return CursorHighlight::BlankRow { row };
        }
        let line = &rows[row];
        let mut before: Vec<char> = Vec::new();
        let mut i: usize = 0;
        while i < col
            invariant
                i <= col,
                col < line@.len(),
                line@ == rows@[row as int]@,
                before@ == line@.subrange(0, i as int),
            decreases col - i,
        {
            before.push(line[i]);
            i = i + 1;
        }
        let under = line[col];
        let mut after: Vec<char> = Vec::new();
        let mut j: usize = col + 1;
        while j < row_len
            invariant
                col + 1 <= j <= row_len,
                row_len == line@.len(),
                line@ == rows@[row as int]@,
                after@ == line@.subrange(col + 1, j as int),
            decreases row_len - j,
        {
            after.push(line[j]);
            j = j + 1;
        }
        proof {
            assert(before@ =~= rows@[row as int]@.take(col as int));
            assert(after@ =~= rows@[row as int]@.skip(col + 1));
        }
        CursorHighlight::Split { row, before, under, after }
    }
}

} // verus!
