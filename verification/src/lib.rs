//! Viewport and cursor navigation core for a scrollable, line-oriented text
//! display. It tracks which region of a text buffer is visible, keeps a
//! cursor inside that buffer, and keeps the cursor visually stable as the
//! user moves or the display is resized.

pub mod buffer;
pub mod laws;
pub mod selection;
pub mod text_window;
