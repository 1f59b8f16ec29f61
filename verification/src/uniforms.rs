//! The single uniform record: the window size in pixels.
//!
//! Written once at setup with the actual render-target dimensions and
//! never again; the vertex stage reads it to map window pixels to
//! normalized device coordinates.  Window resizing is not handled, so the
//! value can go stale if the window collaborator allows resizing — a
//! known gap, not a policy.

use vstd::prelude::*;

verus! {

/// The window dimensions the vertex stage maps pixels with.  Must equal
/// the actual framebuffer size, or placement is visually wrong.
#[derive(Clone, Copy, Debug, PartialEq, Eq, Structural)]
pub struct WindowSizeUniform {
    /// Width of the window, in pixels.
    pub width_in_pixels: u32,
    /// Height of the window, in pixels.
    pub height_in_pixels: u32,
}

impl WindowSizeUniform {
    /// Both dimensions are real framebuffer extents.
    pub open spec fn wf(&self) -> bool {
        self.width_in_pixels > 0 && self.height_in_pixels > 0
    }

    /// Record the render-target dimensions, once at setup.
    pub fn new(width_in_pixels: u32, height_in_pixels: u32) -> (u: Self)
        requires
            width_in_pixels > 0,
            height_in_pixels > 0,
        ensures
            u.wf(),
            u.width_in_pixels == width_in_pixels,
            u.height_in_pixels == height_in_pixels,
    {
        WindowSizeUniform { width_in_pixels, height_in_pixels }
    }
}

} // verus!
