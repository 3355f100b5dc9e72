//! The line-oriented text a window navigates over, and the coordinate and
//! direction value types shared by the navigation and rendering logic.
//!
//! The navigation core does not own the text it displays: callers own the
//! buffer, resolve their own handle to it, and pass a reference into each
//! navigation or rendering call. The core reads only line count, line
//! lengths and line content.

use vstd::prelude::*;

verus! {

/// A zero-based (line, column) coordinate into a buffer's line array.
#[derive(Clone, Copy, Debug, PartialEq, Eq, Structural)]
pub struct BufferPosition {
    pub line: usize,
    pub col: usize,
}

/// The four cursor movement directions.
#[derive(Clone, Copy, Debug, PartialEq, Eq, Structural)]
pub enum RectilinearDirection {
    Up,
    Down,
    Left,
    Right,
}

/// A line-oriented text store. Each line is a sequence of characters; line
/// breaks are implicit between entries.
pub struct TextBuffer {
    pub lines: Vec<Vec<char>>,
}

impl View for TextBuffer {
    type V = Seq<Seq<char>>;

    open spec fn view(&self) -> Seq<Seq<char>> {
        Seq::new(self.lines@.len(), |i: int| self.lines@[i]@)
    }
}

impl TextBuffer {
    /// An empty buffer: no lines at all.
    pub fn new() -> (r: TextBuffer)
        ensures
            r@.len() == 0,
    {
        TextBuffer { lines: Vec::new() }
    }

    /// A buffer holding the given lines.
    pub fn from_lines(lines: Vec<Vec<char>>) -> (r: TextBuffer)
        ensures
            r@.len() == lines@.len(),
            forall|i: int| 0 <= i < lines@.len() ==> r@[i] == #[trigger] lines@[i]@,
    {
        TextBuffer { lines }
    }

    /// How many lines the buffer holds.
    pub fn line_count(&self) -> (r: usize)
        ensures
            r == self@.len(),
    {
        self.lines.len()
    }

    /// The length of one line, in characters.
    pub fn line_length(&self, line: usize) -> (r: usize)
        requires
            line < self@.len(),
        ensures
            r == self@[line as int].len(),
    {
        self.lines[line].len()
    }

    /// The characters of one line.
    pub fn line_content(&self, line: usize) -> (r: &Vec<char>)
        requires
            line < self@.len(),
        ensures
            r@ == self@[line as int],
    {
        &self.lines[line]
    }
}

} // verus!
