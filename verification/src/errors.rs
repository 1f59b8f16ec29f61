//! The error taxonomy of the renderer.
//!
//! Every variant of [`RenderError`] marks a broken setup contract and is
//! treated as unrecoverable by the caller: the process reports the message
//! and terminates.  A bounds violation on an instance write is a distinct,
//! locally detectable condition and gets its own type, [`BoundsError`].

use vstd::prelude::*;

verus! {

/// An unrecoverable failure of the rendering setup or of a per-frame step.
#[derive(Clone, Copy, Debug, PartialEq, Eq, Structural)]
pub enum RenderError {
    /// A buffer, texture, sampler or pipeline could not be created.
    ResourceCreation,
    /// The source image bytes were malformed.
    Decode,
    /// Command submission or a buffer copy failed.
    Submission,
    /// The buffer swap (presentation) failed.
    Presentation,
    /// The staging buffer could not be mapped for writing.
    Mapping,
}

impl RenderError {
    /// A descriptive message, reported once before the process terminates.
    pub fn describe(&self) -> (r: &'static str)
        ensures
            *self is ResourceCreation ==> r@ == "resource creation failed"@,
            *self is Decode ==> r@ == "image bytes malformed"@,
            *self is Submission ==> r@ == "command submission failed"@,
            *self is Presentation ==> r@ == "buffer swap failed"@,
            *self is Mapping ==> r@ == "staging buffer could not be mapped"@,
    {
        match self {
            RenderError::ResourceCreation => "resource creation failed",
            RenderError::Decode => "image bytes malformed",
            RenderError::Submission => "command submission failed",
            RenderError::Presentation => "buffer swap failed",
            RenderError::Mapping => "staging buffer could not be mapped",
        }
    }
}

/// An instance index outside `[0, capacity)` was passed to a write.
///
/// The write reports the offending index and the store's capacity and
/// leaves every buffer untouched: it never writes out of range.
#[derive(Clone, Copy, Debug, PartialEq, Eq, Structural)]
pub struct BoundsError {
    /// The index that was asked for.
    pub index: usize,
    /// The capacity of the store at the time of the write.
    pub capacity: usize,
}

} // verus!
