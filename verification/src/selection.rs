//! A span of buffer text between a fixed anchor and a live, moving end.
//!
//! Nothing in the navigation core consumes selections yet; the type is an
//! independent value type kept so that future range-based operations can use
//! the cursor as the moving point without touching the navigation state.

use vstd::prelude::*;

use crate::buffer::BufferPosition;

verus! {

/// An anchored span: `fixed_point` marks where the selection started,
/// `moving_point` tracks its live end. Equality is structural.
#[derive(Clone, Copy, Debug, PartialEq, Eq, Structural)]
pub struct Selection {
    pub fixed_point: BufferPosition,
    pub moving_point: BufferPosition,
}

impl Selection {
    /// A selection collapsed onto a single position: both ends coincide.
    pub fn from_single(bufpos: &BufferPosition) -> (r: Selection)
        ensures
            r == (Selection { fixed_point: *bufpos, moving_point: *bufpos }),
    {
        Selection { fixed_point: *bufpos, moving_point: *bufpos }
    }

    /// A selection from an anchor and a moving end.
    pub fn from_pair(fixed: &BufferPosition, moving: &BufferPosition) -> (r: Selection)
        ensures
            r == (Selection { fixed_point: *fixed, moving_point: *moving }),
    {
        Selection { fixed_point: *fixed, moving_point: *moving }
    }
}

} // verus!
