//! Errors raised while rendering.

use vstd::prelude::*;

verus! {

/// Why a frame could not be rendered.
#[derive(Clone, Copy, Debug)]
pub enum Error {
    /// A failure of the host (the pixel sink, input polling).
    Str(&'static str),
    RaycastingOverflowX,
    RaycastingOverflowY,
    /// Reserved: no step raises it.
    RaycastingFellOffTheWorld,
    TextureMappingOverflowX,
    TextureMappingOverflowY,
    TextureMappingOverflowDeltaY,
}

} // verus!
