//! The error taxonomy of the canvas API.

use vstd::prelude::*;

verus! {

/// A typed failure of a canvas operation. Every error is reported
/// synchronously to the caller of the operation that triggered it; a failing
/// operation leaves all prior state unmodified.
#[derive(Clone, Copy, Debug, PartialEq, Eq, Structural)]
pub enum CanvasError {
    /// A bad enum string, or an out-of-range offset or dimension.
    InvalidArg,
    /// Degenerate geometry, such as a non-positive arc radius.
    InvalidGeometry,
    /// A style descriptor string that is not a recognized color.
    InvalidColor,
    /// A gradient without color stops cannot produce a shader.
    EmptyGradient,
    /// An export MIME type outside the supported set.
    UnsupportedFormat,
    /// The backend cannot build a shader from the given inputs.
    ShaderConstruction,
    /// The backend failed to encode a pixel snapshot.
    Encoding,
    /// The backend cannot allocate a surface of the requested size.
    BackendAllocation,
}

impl CanvasError {
    /// A short description of the error, for hosts that report it as text.
    pub fn message(&self) -> (r: &'static str)
        ensures
            (match self {
                CanvasError::InvalidArg => r@ == "invalid argument"@,
                CanvasError::InvalidGeometry => r@ == "invalid geometry"@,
                CanvasError::InvalidColor => r@ == "unparsable color"@,
                CanvasError::EmptyGradient => r@ == "gradient has no color stops"@,
                CanvasError::UnsupportedFormat => r@ == "unsupported image format"@,
                CanvasError::ShaderConstruction => r@ == "failed to construct shader"@,
                CanvasError::Encoding => r@ == "failed to encode image"@,
                CanvasError::BackendAllocation => r@ == "failed to allocate surface"@,
            }),
    {
        match self {
            CanvasError::InvalidArg => "invalid argument",
            CanvasError::InvalidGeometry => "invalid geometry",
            CanvasError::InvalidColor => "unparsable color",
            CanvasError::EmptyGradient => "gradient has no color stops",
            CanvasError::UnsupportedFormat => "unsupported image format",
            CanvasError::ShaderConstruction => "failed to construct shader",
            CanvasError::Encoding => "failed to encode image",
            CanvasError::BackendAllocation => "failed to allocate surface",
        }
    }
}

} // verus!
