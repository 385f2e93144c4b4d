//! Shader descriptions: what the backend builds a per-pixel color source
//! from when a paint is not a flat color.

use vstd::prelude::*;

verus! {

/// How the backend samples a shader outside its defined domain.
#[derive(Clone, Copy, Debug, PartialEq, Eq, Structural)]
pub enum TileMode {
    Clamp,
    Repeat,
}

/// One gradient stop with its color already resolved.
#[derive(Clone, Copy, Debug, PartialEq, Eq, Structural)]
pub struct ShaderStop {
    /// The stop position, a fixed-point value in `[0, 1]`.
    pub offset: i64,
    /// The resolved stop color.
    pub color: crate::color::Rgba,
}

/// A shader the backend can build: a linear gradient between two points, a
/// two-point conical gradient between two circles, or a tiled image.
/// Gradient stops are kept in insertion order, positionally as given, and
/// gradients clamp at their edges.
pub enum Shader {
    Linear { x0: i64, y0: i64, x1: i64, y1: i64, stops: Vec<ShaderStop> },
    Conical { x0: i64, y0: i64, r0: i64, x1: i64, y1: i64, r1: i64, stops: Vec<ShaderStop> },
    Image { width: u32, height: u32, pixels: Vec<u8>, tile_x: TileMode, tile_y: TileMode },
}

/// The mathematical value of a [`Shader`].
pub enum ShaderModel {
    Linear { x0: i64, y0: i64, x1: i64, y1: i64, stops: Seq<ShaderStop> },
    Conical { x0: i64, y0: i64, r0: i64, x1: i64, y1: i64, r1: i64, stops: Seq<ShaderStop> },
    Image { width: u32, height: u32, pixels: Seq<u8>, tile_x: TileMode, tile_y: TileMode },
}

impl View for Shader {
    type V = ShaderModel;

    open spec fn view(&self) -> ShaderModel {
        match self {
            Shader::Linear { x0, y0, x1, y1, stops } => ShaderModel::Linear {
                x0: *x0,
                y0: *y0,
                x1: *x1,
                y1: *y1,
                stops: stops@,
            },
            Shader::Conical { x0, y0, r0, x1, y1, r1, stops } => ShaderModel::Conical {
                x0: *x0,
                y0: *y0,
                r0: *r0,
                x1: *x1,
                y1: *y1,
                r1: *r1,
                stops: stops@,
            },
            Shader::Image { width, height, pixels, tile_x, tile_y } => ShaderModel::Image {
                width: *width,
                height: *height,
                pixels: pixels@,
                tile_x: *tile_x,
                tile_y: *tile_y,
            },
        }
    }
}

} // verus!
