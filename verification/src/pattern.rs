//! Patterns: a pixel buffer tiled over the plane.
//!
//! A pattern wraps a decoded RGBA8 pixel buffer (straight alpha, as an
//! [`ImageData`] holds it) together with a repeat mode. The repeat mode
//! string is validated once, at construction; the shader the pattern builds
//! maps each repeat mode to the backend's pair of tile modes.

use vstd::prelude::*;

use crate::error::CanvasError;
use crate::image_data::{copy_bytes, ImageData};
use crate::shader::{Shader, ShaderModel, TileMode};
use crate::strutil::str_eq;

verus! {

/// How a pattern repeats over the plane.
#[derive(Clone, Copy, Debug, PartialEq, Eq, Structural)]
pub enum RepeatPattern {
    Repeat,
    RepeatX,
    RepeatY,
    NoRepeat,
}

/// The repeat mode a string names.
pub open spec fn repeat_mode_of(s: Seq<char>) -> Option<RepeatPattern> {
    if s == "repeat"@ {
        Some(RepeatPattern::Repeat)
    } else if s == "repeat-x"@ {
        Some(RepeatPattern::RepeatX)
    } else if s == "repeat-y"@ {
        Some(RepeatPattern::RepeatY)
    } else if s == "no-repeat"@ {
        Some(RepeatPattern::NoRepeat)
    } else {
        None
    }
}

/// The pair of tile modes, one per axis, that a repeat mode maps to: the
/// repeated axes tile, the others clamp.
pub open spec fn tile_modes(r: RepeatPattern) -> (TileMode, TileMode) {
    match r {
        RepeatPattern::Repeat => (TileMode::Repeat, TileMode::Repeat),
        RepeatPattern::RepeatX => (TileMode::Repeat, TileMode::Clamp),
        RepeatPattern::RepeatY => (TileMode::Clamp, TileMode::Repeat),
        RepeatPattern::NoRepeat => (TileMode::Clamp, TileMode::Clamp),
    }
}

/// A pattern: an owned copy of the source pixels and a repeat mode.
#[derive(Debug)]
pub struct CanvasPattern {
    pub width: u32,
    pub height: u32,
    pub pixels: Vec<u8>,
    pub repeat: RepeatPattern,
}

/// The shader a pattern builds, or the error a degenerate pixel buffer
/// gives.
pub open spec fn pattern_shader_model(p: CanvasPattern) -> Result<ShaderModel, CanvasError> {
    if p.width == 0 || p.height == 0 {
        Err(CanvasError::ShaderConstruction)
    } else {
        Ok(
            ShaderModel::Image {
                width: p.width,
                height: p.height,
                pixels: p.pixels@,
                tile_x: tile_modes(p.repeat).0,
                tile_y: tile_modes(p.repeat).1,
            },
        )
    }
}

impl CanvasPattern {
    /// A pattern over a copy of the given pixels. A missing repeat string
    /// means `repeat`; a string outside the four recognized values is an
    /// [`CanvasError::InvalidArg`] error.
    pub fn new(image_data: &ImageData, repeat_pattern: Option<String>) -> (r: Result<
        CanvasPattern,
        CanvasError,
    >)
        ensures
            (match repeat_pattern {
                None => r matches Ok(p) && p.width == image_data.width && p.height
                    == image_data.height && p.pixels@ == image_data.data@ && p.repeat
                    == RepeatPattern::Repeat,
                Some(s) => match repeat_mode_of(s@) {
                    Some(m) => r matches Ok(p) && p.width == image_data.width && p.height
                        == image_data.height && p.pixels@ == image_data.data@ && p.repeat == m,
                    None => r == Err::<CanvasPattern, CanvasError>(CanvasError::InvalidArg),
                },
            }),
    {
        let repeat = match &repeat_pattern {
            None => RepeatPattern::Repeat,
            Some(s) => {
                if str_eq(s.as_str(), "repeat") {
                    RepeatPattern::Repeat
                } else if str_eq(s.as_str(), "repeat-x") {
                    RepeatPattern::RepeatX
                } else if str_eq(s.as_str(), "repeat-y") {
                    RepeatPattern::RepeatY
                } else if str_eq(s.as_str(), "no-repeat") {
                    RepeatPattern::NoRepeat
                } else {
                    return Err(CanvasError::InvalidArg);
                }
            },
        };
        Ok(
            CanvasPattern {
                width: image_data.width(),
                height: image_data.height(),
                pixels: copy_bytes(&image_data.data),
                repeat,
            },
        )
    }

    /// Builds the backend shader description: the pixels tiled with the
    /// tile-mode pair of the repeat mode. A pattern over an empty pixel
    /// buffer cannot become a shader.
    pub fn create_shader(&self) -> (r: Result<Shader, CanvasError>)
        ensures
            (match pattern_shader_model(*self) {
                Ok(m) => r matches Ok(sh) && sh@ == m,
                Err(e) => r == Err::<Shader, CanvasError>(e),
            }),
    {
        if self.width == 0 || self.height == 0 {
            return Err(CanvasError::ShaderConstruction);
        }
        let (tile_x, tile_y) = match self.repeat {
            RepeatPattern::Repeat => (TileMode::Repeat, TileMode::Repeat),
            RepeatPattern::RepeatX => (TileMode::Repeat, TileMode::Clamp),
            RepeatPattern::RepeatY => (TileMode::Clamp, TileMode::Repeat),
            RepeatPattern::NoRepeat => (TileMode::Clamp, TileMode::Clamp),
        };
        Ok(
            Shader::Image {
                width: self.width,
                height: self.height,
                pixels: copy_bytes(&self.pixels),
                tile_x,
                tile_y,
            },
        )
    }
}

} // verus!
