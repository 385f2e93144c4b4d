//! Paints and the style resolver.
//!
//! A style descriptor — a color string, a gradient, or a pattern — is
//! late-bound: it is resolved into a concrete paint at fill or stroke time,
//! not when it is assigned. A gradient or pattern descriptor delegates to
//! its shader construction; a string must parse as a color, and an
//! unparsable string is an error, never a silent default. The context's
//! global alpha multiplies the resolved color's or shader's alpha channel
//! at resolution time.

use vstd::prelude::*;

use crate::color::{parse_color, parse_color_str, Rgba};
use crate::error::CanvasError;
use crate::fx::{fx_scale_alpha, scale_alpha, FX_ONE};
use crate::gradient::{linear_shader_model, radial_shader_model, LinearGradient, RadialGradient};
use crate::pattern::{pattern_shader_model, CanvasPattern};
use crate::shader::{Shader, ShaderModel};
use crate::style::{CompositeOperation, LineCap, LineJoin};

verus! {

/// The stroke parameters attached to a stroking paint.
#[derive(Clone, Copy, Debug, PartialEq, Eq, Structural)]
pub struct StrokeProps {
    /// The stroke width, a fixed-point scalar.
    pub width: i64,
    pub cap: LineCap,
    pub join: LineJoin,
    /// The miter limit, a fixed-point scalar.
    pub miter_limit: i64,
}

/// What a paint colors pixels with: a flat color, or a shader with the
/// alpha factor the backend applies to it.
pub enum PaintSource {
    Solid(Rgba),
    Shader { shader: Shader, alpha: i64 },
}

/// The mathematical value of a [`PaintSource`].
pub enum PaintSourceModel {
    Solid(Rgba),
    Shader { shader: ShaderModel, alpha: i64 },
}

impl View for PaintSource {
    type V = PaintSourceModel;

    open spec fn view(&self) -> PaintSourceModel {
        match self {
            PaintSource::Solid(c) => PaintSourceModel::Solid(*c),
            PaintSource::Shader { shader, alpha } => PaintSourceModel::Shader {
                shader: shader@,
                alpha: *alpha,
            },
        }
    }
}

/// A resolved paint, ready to submit with a fill or stroke.
pub struct Paint {
    pub source: PaintSource,
    pub composite: CompositeOperation,
    /// The stroke parameters; `None` for fills.
    pub stroke: Option<StrokeProps>,
}

/// The mathematical value of a [`Paint`].
pub struct PaintModel {
    pub source: PaintSourceModel,
    pub composite: CompositeOperation,
    pub stroke: Option<StrokeProps>,
}

impl View for Paint {
    type V = PaintModel;

    open spec fn view(&self) -> PaintModel {
        PaintModel { source: self.source@, composite: self.composite, stroke: self.stroke }
    }
}

/// A style descriptor: what a fill or stroke style is before resolution.
pub enum StyleDescriptor {
    /// An unparsed color string.
    Color(String),
    Linear(LinearGradient),
    Radial(RadialGradient),
    Pattern(CanvasPattern),
}

/// The color with its alpha channel multiplied by a fixed-point factor.
pub open spec fn scale_color_alpha(c: Rgba, factor: i64) -> Rgba {
    Rgba { r: c.r, g: c.g, b: c.b, a: scale_alpha(c.a as int, factor as int) as u8 }
}

/// What resolving a style descriptor gives: a flat color for a parsable
/// color string, the gradient's or pattern's shader otherwise, with the
/// global alpha multiplied in; or the error of the parse or of the shader
/// construction.
pub open spec fn resolve_style_model(style: StyleDescriptor, global_alpha: i64) -> Result<
    PaintSourceModel,
    CanvasError,
> {
    match style {
        StyleDescriptor::Color(s) => match parse_color(s@) {
            Some(c) => Ok(PaintSourceModel::Solid(scale_color_alpha(c, global_alpha))),
            None => Err(CanvasError::InvalidColor),
        },
        StyleDescriptor::Linear(g) => match linear_shader_model(g) {
            Ok(m) => Ok(PaintSourceModel::Shader { shader: m, alpha: global_alpha }),
            Err(e) => Err(e),
        },
        StyleDescriptor::Radial(g) => match radial_shader_model(g) {
            Ok(m) => Ok(PaintSourceModel::Shader { shader: m, alpha: global_alpha }),
            Err(e) => Err(e),
        },
        StyleDescriptor::Pattern(p) => match pattern_shader_model(p) {
            Ok(m) => Ok(PaintSourceModel::Shader { shader: m, alpha: global_alpha }),
            Err(e) => Err(e),
        },
    }
}

/// With a global alpha of one, a color-string style resolves to exactly
/// the color the string denotes, alpha channel included.
pub proof fn lemma_resolve_color_full_alpha(style: StyleDescriptor, c: Rgba)
    requires
        style matches StyleDescriptor::Color(s) && parse_color(s@) == Some(c),
    ensures
        resolve_style_model(style, FX_ONE) == Ok::<PaintSourceModel, CanvasError>(
            PaintSourceModel::Solid(c),
        ),
{
    crate::fx::lemma_scale_alpha_one(c.a);
    assert(scale_color_alpha(c, FX_ONE) == c);
}

/// Resolves a style descriptor into a paint source.
pub fn resolve_style(style: &StyleDescriptor, global_alpha: i64) -> (r: Result<
    PaintSource,
    CanvasError,
>)
    requires
        0 <= global_alpha <= FX_ONE,
    ensures
        (match resolve_style_model(*style, global_alpha) {
            Ok(m) => r matches Ok(p) && p@ == m,
            Err(e) => r == Err::<PaintSource, CanvasError>(e),
        }),
{
    match style {
        StyleDescriptor::Color(s) => match parse_color_str(s.as_str()) {
            Ok(c) => Ok(
                PaintSource::Solid(
                    Rgba { r: c.r, g: c.g, b: c.b, a: fx_scale_alpha(c.a, global_alpha) },
                ),
            ),
            Err(e) => Err(e),
        },
        StyleDescriptor::Linear(g) => match g.create_shader() {
            Ok(sh) => Ok(PaintSource::Shader { shader: sh, alpha: global_alpha }),
            Err(e) => Err(e),
        },
        StyleDescriptor::Radial(g) => match g.create_shader() {
            Ok(sh) => Ok(PaintSource::Shader { shader: sh, alpha: global_alpha }),
            Err(e) => Err(e),
        },
        StyleDescriptor::Pattern(p) => match p.create_shader() {
            Ok(sh) => Ok(PaintSource::Shader { shader: sh, alpha: global_alpha }),
            Err(e) => Err(e),
        },
    }
}

} // verus!
