use vstd::prelude::*;

verus! {

/// Everything that can go wrong while a context is built or a surface is used.
#[derive(Clone, Copy, Debug, PartialEq, Eq, Structural)]
pub enum SurfaceError {
    /// No display matching the metadata could be acquired.
    DisplayUnavailable,
    /// No display, drawing surface and rendering context are current in this process.
    NoActiveContext,
    /// A width or height is not positive, or a row is too short for its pixels.
    InvalidDimensions,
    /// The backing buffer, or an identity for it, could not be obtained.
    AllocationFailed,
    /// The data handed over does not have the length of the backing buffer.
    SizeMismatch,
    /// The driver refused to attach the surface to the texture.
    BindFailed,
}

} // verus!
