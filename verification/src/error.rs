//! What can go wrong around the viewer.

use vstd::prelude::*;

verus! {

/// Why the surface gave no image to draw on.
#[derive(Clone, Copy, Debug, PartialEq, Eq, Structural)]
pub enum AcquireError {
    /// The wait for an image ran out.
    Timeout,
    /// The surface has changed and must be configured again.
    Outdated,
    /// The surface is gone and must be made again.
    Lost,
    /// No memory is left for an image.
    OutOfMemory,
}

/// A failure of the viewer.
#[derive(Clone, Copy, Debug, PartialEq, Eq, Structural)]
pub enum RenderError {
    /// No adapter, device or surface format could be had, or a GPU object
    /// could not be made.
    ResourceCreation,
    /// The surface gave no image for this frame.
    SurfaceAcquire(AcquireError),
    /// The surface refused its configuration.
    Configuration,
}

impl RenderError {
    /// Whether the failure ends the viewer. Only a frame that found no
    /// surface image is survived: that frame is skipped.
    pub open spec fn spec_is_fatal(self) -> bool {
        !(self is SurfaceAcquire)
    }

    /// Whether the failure ends the viewer.
    pub fn is_fatal(&self) -> (fatal: bool)
        ensures
            fatal == self.spec_is_fatal(),
    {
        match self {
            RenderError::SurfaceAcquire(_) => false,
            RenderError::ResourceCreation => true,
            RenderError::Configuration => true,
        }
    }
}

} // verus!
