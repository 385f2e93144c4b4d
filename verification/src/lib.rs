//! A verified model of a browser-style 2D drawing surface.
//!
//! The crate implements the drawing-context state machine of the HTML
//! Canvas 2D API: the mutable rendering state (current path, transform
//! stack, paint styles, stroke parameters), the path-construction geometry
//! model, and the protocol by which style descriptors (color strings,
//! gradients, patterns) are resolved into concrete paints.
//!
//! Rasterization, compositing and image encoding are the job of an external
//! backend. The library never touches pixels itself: every drawing call is
//! validated, resolved, and recorded as a [`context::DrawOp`] in the
//! surface's display list, which a host program replays against the real
//! rasterizer. All scalar quantities (coordinates, angles, alpha values)
//! are fixed-point numbers with [`fx::FX_ONE`] units per 1.0; the host
//! converts to and from the backend's floating-point representation at the
//! boundary.

use vstd::prelude::*;

pub mod canvas;
pub mod color;
pub mod context;
pub mod error;
pub mod fx;
pub mod geometry;
pub mod gradient;
pub mod image_data;
pub mod paint;
pub mod pattern;
pub mod shader;
pub mod stack;
pub mod strutil;
pub mod style;

verus! {

/// The version of this library, as `major.minor.patch`.
pub fn version() -> (r: String)
    ensures
        r@ == "1.0.0"@,
{
    "1.0.0".to_owned()
}

} // verus!
