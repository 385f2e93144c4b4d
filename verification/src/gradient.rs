//! Gradient descriptions: ordered color stops over linear or radial
//! geometry.
//!
//! Stops are appended in call order, never sorted or deduplicated, and the
//! backend receives them positionally as given. A gradient without stops is
//! an error at shader-construction time, not at construction time; each
//! stop's color string is resolved through the color parser when the shader
//! is built.

use vstd::prelude::*;

use crate::color::parse_color;
use crate::color::parse_color_str;
use crate::error::CanvasError;
use crate::fx::FX_ONE;
use crate::shader::{Shader, ShaderModel, ShaderStop};

verus! {

/// One color stop: a fixed-point offset in `[0, 1]` and an unresolved
/// color string.
#[derive(Debug)]
pub struct ColorStop {
    pub offset: i64,
    pub color: String,
}

/// Every stop's color string parses as a color.
pub open spec fn stops_resolve(stops: Seq<ColorStop>) -> bool {
    forall|i: int| 0 <= i < stops.len() ==> parse_color(#[trigger] stops[i].color@) is Some
}

/// The stops with each color string replaced by the color it denotes.
pub open spec fn resolved_stops(stops: Seq<ColorStop>) -> Seq<ShaderStop> {
    stops.map(|i: int, st: ColorStop| ShaderStop { offset: st.offset, color: parse_color(st.color@).unwrap() })
}

/// Resolves a stop list for shader construction: an empty list is an
/// [`CanvasError::EmptyGradient`] error, a stop with an unparsable color an
/// [`CanvasError::InvalidColor`] error.
fn resolve_stop_list(stops: &Vec<ColorStop>) -> (r: Result<Vec<ShaderStop>, CanvasError>)
    ensures
        (if stops@.len() == 0 {
            r == Err::<Vec<ShaderStop>, CanvasError>(CanvasError::EmptyGradient)
        } else if !stops_resolve(stops@) {
            r == Err::<Vec<ShaderStop>, CanvasError>(CanvasError::InvalidColor)
        } else {
            r matches Ok(v) && v@ == resolved_stops(stops@)
        }),
{
    if stops.len() == 0 {
        return Err(CanvasError::EmptyGradient);
    }
    let mut out: Vec<ShaderStop> = Vec::new();
    let mut i: usize = 0;
    while i < stops.len()
        invariant
            i <= stops@.len(),
            out@.len() == i,
            forall|j: int| 0 <= j < i ==> parse_color(#[trigger] stops@[j].color@) is Some,
            forall|j: int|
                0 <= j < i ==> #[trigger] out@[j] == (ShaderStop {
                    offset: stops@[j].offset,
                    color: parse_color(stops@[j].color@).unwrap(),
                }),
        decreases stops@.len() - i,
    {
        let st = &stops[i];
        match parse_color_str(st.color.as_str()) {
            Ok(c) => {
                out.push(ShaderStop { offset: st.offset, color: c });
            },
            Err(_) => {
                proof {
                    assert(parse_color(stops@[i as int].color@) is None);
                    assert(!stops_resolve(stops@));
                }
                return Err(CanvasError::InvalidColor);
            },
        }
        i += 1;
    }
    proof {
        assert(out@ =~= resolved_stops(stops@));
    }
    Ok(out)
}

/// A linear gradient between two endpoints.
#[derive(Debug)]
pub struct LinearGradient {
    pub x0: i64,
    pub y0: i64,
    pub x1: i64,
    pub y1: i64,
    pub color_stops: Vec<ColorStop>,
}

/// The shader a linear gradient builds, or the error its stop list gives.
pub open spec fn linear_shader_model(g: LinearGradient) -> Result<ShaderModel, CanvasError> {
    if g.color_stops@.len() == 0 {
        Err(CanvasError::EmptyGradient)
    } else if !stops_resolve(g.color_stops@) {
        Err(CanvasError::InvalidColor)
    } else {
        Ok(
            ShaderModel::Linear {
                x0: g.x0,
                y0: g.y0,
                x1: g.x1,
                y1: g.y1,
                stops: resolved_stops(g.color_stops@),
            },
        )
    }
}

impl LinearGradient {
    /// A linear gradient from `(x0, y0)` to `(x1, y1)` with no stops.
    pub fn new(x0: i64, y0: i64, x1: i64, y1: i64) -> (r: LinearGradient)
        ensures
            r.x0 == x0 && r.y0 == y0 && r.x1 == x1 && r.y1 == y1,
            r.color_stops@.len() == 0,
    {
        LinearGradient { x0, y0, x1, y1, color_stops: Vec::new() }
    }

    /// Appends a color stop. An offset outside `[0, 1]` is rejected and
    /// leaves the gradient unchanged; the color string is kept as given and
    /// resolved at shader-construction time.
    pub fn add_color_stop(&mut self, offset: i64, color: String) -> (r: Result<(), CanvasError>)
        ensures
            (if 0 <= offset <= FX_ONE {
                &&& r == Ok::<(), CanvasError>(())
                &&& final(self).color_stops@ == old(self).color_stops@.push(
                    ColorStop { offset, color },
                )
                &&& final(self).x0 == old(self).x0
                &&& final(self).y0 == old(self).y0
                &&& final(self).x1 == old(self).x1
                &&& final(self).y1 == old(self).y1
            } else {
                &&& r == Err::<(), CanvasError>(CanvasError::InvalidArg)
                &&& *final(self) == *old(self)
            }),
    {
        if offset < 0 || offset > FX_ONE {
            return Err(CanvasError::InvalidArg);
        }
        self.color_stops.push(ColorStop { offset, color });
        Ok(())
    }

    /// Builds the backend shader description: the two endpoints and the
    /// stops in insertion order, each with its resolved color, clamping at
    /// the gradient edges.
    pub fn create_shader(&self) -> (r: Result<Shader, CanvasError>)
        ensures
            (match linear_shader_model(*self) {
                Ok(m) => r matches Ok(sh) && sh@ == m,
                Err(e) => r == Err::<Shader, CanvasError>(e),
            }),
    {
        let stops = resolve_stop_list(&self.color_stops)?;
        Ok(Shader::Linear { x0: self.x0, y0: self.y0, x1: self.x1, y1: self.y1, stops })
    }
}

/// A radial gradient between two circles.
#[derive(Debug)]
pub struct RadialGradient {
    pub x0: i64,
    pub y0: i64,
    pub r0: i64,
    pub x1: i64,
    pub y1: i64,
    pub r1: i64,
    pub color_stops: Vec<ColorStop>,
}

/// The shader a radial gradient builds, or the error its stop list gives.
pub open spec fn radial_shader_model(g: RadialGradient) -> Result<ShaderModel, CanvasError> {
    if g.color_stops@.len() == 0 {
        Err(CanvasError::EmptyGradient)
    } else if !stops_resolve(g.color_stops@) {
        Err(CanvasError::InvalidColor)
    } else {
        Ok(
            ShaderModel::Conical {
                x0: g.x0,
                y0: g.y0,
                r0: g.r0,
                x1: g.x1,
                y1: g.y1,
                r1: g.r1,
                stops: resolved_stops(g.color_stops@),
            },
        )
    }
}

impl RadialGradient {
    /// A radial gradient from the circle at `(x0, y0)` with radius `r0` to
    /// the circle at `(x1, y1)` with radius `r1`, with no stops.
    pub fn new(x0: i64, y0: i64, r0: i64, x1: i64, y1: i64, r1: i64) -> (r: RadialGradient)
        ensures
            r.x0 == x0 && r.y0 == y0 && r.r0 == r0 && r.x1 == x1 && r.y1 == y1 && r.r1 == r1,
            r.color_stops@.len() == 0,
    {
        RadialGradient { x0, y0, r0, x1, y1, r1, color_stops: Vec::new() }
    }

    /// Appends a color stop. An offset outside `[0, 1]` is rejected and
    /// leaves the gradient unchanged; the color string is kept as given and
    /// resolved at shader-construction time.
    pub fn add_color_stop(&mut self, offset: i64, color: String) -> (r: Result<(), CanvasError>)
        ensures
            (if 0 <= offset <= FX_ONE {
                &&& r == Ok::<(), CanvasError>(())
                &&& final(self).color_stops@ == old(self).color_stops@.push(
                    ColorStop { offset, color },
                )
                &&& final(self).x0 == old(self).x0
                &&& final(self).y0 == old(self).y0
                &&& final(self).r0 == old(self).r0
                &&& final(self).x1 == old(self).x1
                &&& final(self).y1 == old(self).y1
                &&& final(self).r1 == old(self).r1
            } else {
                &&& r == Err::<(), CanvasError>(CanvasError::InvalidArg)
                &&& *final(self) == *old(self)
            }),
    {
        if offset < 0 || offset > FX_ONE {
            return Err(CanvasError::InvalidArg);
        }
        self.color_stops.push(ColorStop { offset, color });
        Ok(())
    }

    /// Builds the backend shader description: a two-point conical gradient
    /// between the two circles, with the stops in insertion order, each
    /// with its resolved color, clamping at the gradient edges.
    pub fn create_shader(&self) -> (r: Result<Shader, CanvasError>)
        ensures
            (match radial_shader_model(*self) {
                Ok(m) => r matches Ok(sh) && sh@ == m,
                Err(e) => r == Err::<Shader, CanvasError>(e),
            }),
    {
        let stops = resolve_stop_list(&self.color_stops)?;
        Ok(
            Shader::Conical {
                x0: self.x0,
                y0: self.y0,
                r0: self.r0,
                x1: self.x1,
                y1: self.y1,
                r1: self.r1,
                stops,
            },
        )
    }
}

} // verus!
