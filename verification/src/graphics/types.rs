//! Small value types of the renderer.

use vstd::prelude::*;

verus! {

/// Whether a shape is drawn filled or as an outline.
#[derive(Debug, Copy, Clone, PartialEq, Eq, Structural)]
pub enum DrawMode {
    /// The outline of the shape.
    Line,
    /// The filled shape.
    Fill,
}

impl DrawMode {
    /// Fills shapes.
    pub fn fill() -> (m: DrawMode)
        ensures
            m == DrawMode::Fill,
    {
        DrawMode::Fill
    }
}

} // verus!
