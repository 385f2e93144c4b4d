//! The closed enumerations behind the canvas API's string-valued
//! properties, and the text metrics record.
//!
//! Hosts speak strings for line caps, joins, text alignment, baselines and
//! composite operations; the library models each as a closed tagged variant
//! parsed and validated once at the API boundary. An unrecognized string is
//! an [`CanvasError::InvalidArg`] error.

use vstd::prelude::*;

use crate::error::CanvasError;
use crate::strutil::str_eq;

verus! {

/// The shape of the ends of stroked segments.
#[derive(Clone, Copy, Debug, PartialEq, Eq, Structural)]
pub enum LineCap {
    Butt,
    Round,
    Square,
}

/// The shape of the corners of stroked segments.
#[derive(Clone, Copy, Debug, PartialEq, Eq, Structural)]
pub enum LineJoin {
    Miter,
    Round,
    Bevel,
}

/// Horizontal anchoring of drawn text.
#[derive(Clone, Copy, Debug, PartialEq, Eq, Structural)]
pub enum TextAlign {
    Start,
    End,
    Left,
    Right,
    Center,
}

/// Vertical anchoring of drawn text.
#[derive(Clone, Copy, Debug, PartialEq, Eq, Structural)]
pub enum TextBaseline {
    Top,
    Hanging,
    Middle,
    Alphabetic,
    Ideographic,
    Bottom,
}

/// The compositing mode a paint is applied with.
#[derive(Clone, Copy, Debug, PartialEq, Eq, Structural)]
pub enum CompositeOperation {
    SourceOver,
    SourceIn,
    SourceOut,
    SourceAtop,
    DestinationOver,
    DestinationIn,
    DestinationOut,
    DestinationAtop,
    Lighter,
    Copy,
    Xor,
    Multiply,
    Screen,
    Overlay,
    Darken,
    Lighten,
    ColorDodge,
    ColorBurn,
    HardLight,
    SoftLight,
    Difference,
    Exclusion,
}

/// The measurements of a text run, as the backend's shaper reports them,
/// in fixed-point units.
#[derive(Clone, Copy, Debug, PartialEq, Eq, Structural)]
pub struct TextMetrics {
    pub width: i64,
    pub actual_bounding_box_left: i64,
    pub actual_bounding_box_right: i64,
    pub font_bounding_box_ascent: i64,
    pub font_bounding_box_descent: i64,
    pub actual_bounding_box_ascent: i64,
    pub actual_bounding_box_descent: i64,
    pub em_height_ascent: i64,
    pub em_height_descent: i64,
    pub hanging_baseline: i64,
    pub alphabetic_baseline: i64,
    pub ideographic_baseline: i64,
}

/// The line cap a string names.
pub open spec fn line_cap_of(s: Seq<char>) -> Option<LineCap> {
    if s == "butt"@ {
        Some(LineCap::Butt)
    } else if s == "round"@ {
        Some(LineCap::Round)
    } else if s == "square"@ {
        Some(LineCap::Square)
    } else {
        None
    }
}

/// The line join a string names.
pub open spec fn line_join_of(s: Seq<char>) -> Option<LineJoin> {
    if s == "miter"@ {
        Some(LineJoin::Miter)
    } else if s == "round"@ {
        Some(LineJoin::Round)
    } else if s == "bevel"@ {
        Some(LineJoin::Bevel)
    } else {
        None
    }
}

/// The text alignment a string names.
pub open spec fn text_align_of(s: Seq<char>) -> Option<TextAlign> {
    if s == "start"@ {
        Some(TextAlign::Start)
    } else if s == "end"@ {
        Some(TextAlign::End)
    } else if s == "left"@ {
        Some(TextAlign::Left)
    } else if s == "right"@ {
        Some(TextAlign::Right)
    } else if s == "center"@ {
        Some(TextAlign::Center)
    } else {
        None
    }
}

/// The text baseline a string names.
pub open spec fn text_baseline_of(s: Seq<char>) -> Option<TextBaseline> {
    if s == "top"@ {
        Some(TextBaseline::Top)
    } else if s == "hanging"@ {
        Some(TextBaseline::Hanging)
    } else if s == "middle"@ {
        Some(TextBaseline::Middle)
    } else if s == "alphabetic"@ {
        Some(TextBaseline::Alphabetic)
    } else if s == "ideographic"@ {
        Some(TextBaseline::Ideographic)
    } else if s == "bottom"@ {
        Some(TextBaseline::Bottom)
    } else {
        None
    }
}

/// The composite operation a string names.
pub open spec fn composite_operation_of(s: Seq<char>) -> Option<CompositeOperation> {
    if s == "source-over"@ {
        Some(CompositeOperation::SourceOver)
    } else if s == "source-in"@ {
        Some(CompositeOperation::SourceIn)
    } else if s == "source-out"@ {
        Some(CompositeOperation::SourceOut)
    } else if s == "source-atop"@ {
        Some(CompositeOperation::SourceAtop)
    } else if s == "destination-over"@ {
        Some(CompositeOperation::DestinationOver)
    } else if s == "destination-in"@ {
        Some(CompositeOperation::DestinationIn)
    } else if s == "destination-out"@ {
        Some(CompositeOperation::DestinationOut)
    } else if s == "destination-atop"@ {
        Some(CompositeOperation::DestinationAtop)
    } else if s == "lighter"@ {
        Some(CompositeOperation::Lighter)
    } else if s == "copy"@ {
        Some(CompositeOperation::Copy)
    } else if s == "xor"@ {
        Some(CompositeOperation::Xor)
    } else if s == "multiply"@ {
        Some(CompositeOperation::Multiply)
    } else if s == "screen"@ {
        Some(CompositeOperation::Screen)
    } else if s == "overlay"@ {
        Some(CompositeOperation::Overlay)
    } else if s == "darken"@ {
        Some(CompositeOperation::Darken)
    } else if s == "lighten"@ {
        Some(CompositeOperation::Lighten)
    } else if s == "color-dodge"@ {
        Some(CompositeOperation::ColorDodge)
    } else if s == "color-burn"@ {
        Some(CompositeOperation::ColorBurn)
    } else if s == "hard-light"@ {
        Some(CompositeOperation::HardLight)
    } else if s == "soft-light"@ {
        Some(CompositeOperation::SoftLight)
    } else if s == "difference"@ {
        Some(CompositeOperation::Difference)
    } else if s == "exclusion"@ {
        Some(CompositeOperation::Exclusion)
    } else {
        None
    }
}

impl LineCap {
    /// Parses a line cap string.
    pub fn parse(s: &str) -> (r: Result<LineCap, CanvasError>)
        ensures
            (match line_cap_of(s@) {
                Some(v) => r == Ok::<LineCap, CanvasError>(v),
                None => r == Err::<LineCap, CanvasError>(CanvasError::InvalidArg),
            }),
    {
        if str_eq(s, "butt") {
            Ok(LineCap::Butt)
        } else if str_eq(s, "round") {
            Ok(LineCap::Round)
        } else if str_eq(s, "square") {
            Ok(LineCap::Square)
        } else {
            Err(CanvasError::InvalidArg)
        }
    }
}

impl LineJoin {
    /// Parses a line join string.
    pub fn parse(s: &str) -> (r: Result<LineJoin, CanvasError>)
        ensures
            (match line_join_of(s@) {
                Some(v) => r == Ok::<LineJoin, CanvasError>(v),
                None => r == Err::<LineJoin, CanvasError>(CanvasError::InvalidArg),
            }),
    {
        if str_eq(s, "miter") {
            Ok(LineJoin::Miter)
        } else if str_eq(s, "round") {
            Ok(LineJoin::Round)
        } else if str_eq(s, "bevel") {
            Ok(LineJoin::Bevel)
        } else {
            Err(CanvasError::InvalidArg)
        }
    }
}

impl TextAlign {
    /// Parses a text alignment string.
    pub fn parse(s: &str) -> (r: Result<TextAlign, CanvasError>)
        ensures
            (match text_align_of(s@) {
                Some(v) => r == Ok::<TextAlign, CanvasError>(v),
                None => r == Err::<TextAlign, CanvasError>(CanvasError::InvalidArg),
            }),
    {
        if str_eq(s, "start") {
            Ok(TextAlign::Start)
        } else if str_eq(s, "end") {
            Ok(TextAlign::End)
        } else if str_eq(s, "left") {
            Ok(TextAlign::Left)
        } else if str_eq(s, "right") {
            Ok(TextAlign::Right)
        } else if str_eq(s, "center") {
            Ok(TextAlign::Center)
        } else {
            Err(CanvasError::InvalidArg)
        }
    }
}

impl TextBaseline {
    /// Parses a text baseline string.
    pub fn parse(s: &str) -> (r: Result<TextBaseline, CanvasError>)
        ensures
            (match text_baseline_of(s@) {
                Some(v) => r == Ok::<TextBaseline, CanvasError>(v),
                None => r == Err::<TextBaseline, CanvasError>(CanvasError::InvalidArg),
            }),
    {
        if str_eq(s, "top") {
            Ok(TextBaseline::Top)
        } else if str_eq(s, "hanging") {
            Ok(TextBaseline::Hanging)
        } else if str_eq(s, "middle") {
            Ok(TextBaseline::Middle)
        } else if str_eq(s, "alphabetic") {
            Ok(TextBaseline::Alphabetic)
        } else if str_eq(s, "ideographic") {
            Ok(TextBaseline::Ideographic)
        } else if str_eq(s, "bottom") {
            Ok(TextBaseline::Bottom)
        } else {
            Err(CanvasError::InvalidArg)
        }
    }
}

impl CompositeOperation {
    /// Parses a composite operation string.
    pub fn parse(s: &str) -> (r: Result<CompositeOperation, CanvasError>)
        ensures
            (match composite_operation_of(s@) {
                Some(v) => r == Ok::<CompositeOperation, CanvasError>(v),
                None => r == Err::<CompositeOperation, CanvasError>(CanvasError::InvalidArg),
            }),
    {
        if str_eq(s, "source-over") {
            Ok(CompositeOperation::SourceOver)
        } else if str_eq(s, "source-in") {
            Ok(CompositeOperation::SourceIn)
        } else if str_eq(s, "source-out") {
            Ok(CompositeOperation::SourceOut)
        } else if str_eq(s, "source-atop") {
            Ok(CompositeOperation::SourceAtop)
        } else if str_eq(s, "destination-over") {
            Ok(CompositeOperation::DestinationOver)
        } else if str_eq(s, "destination-in") {
            Ok(CompositeOperation::DestinationIn)
        } else if str_eq(s, "destination-out") {
            Ok(CompositeOperation::DestinationOut)
        } else if str_eq(s, "destination-atop") {
            Ok(CompositeOperation::DestinationAtop)
        } else if str_eq(s, "lighter") {
            Ok(CompositeOperation::Lighter)
        } else if str_eq(s, "copy") {
            Ok(CompositeOperation::Copy)
        } else if str_eq(s, "xor") {
            Ok(CompositeOperation::Xor)
        } else if str_eq(s, "multiply") {
            Ok(CompositeOperation::Multiply)
        } else if str_eq(s, "screen") {
            Ok(CompositeOperation::Screen)
        } else if str_eq(s, "overlay") {
            Ok(CompositeOperation::Overlay)
        } else if str_eq(s, "darken") {
            Ok(CompositeOperation::Darken)
        } else if str_eq(s, "lighten") {
            Ok(CompositeOperation::Lighten)
        } else if str_eq(s, "color-dodge") {
            Ok(CompositeOperation::ColorDodge)
        } else if str_eq(s, "color-burn") {
            Ok(CompositeOperation::ColorBurn)
        } else if str_eq(s, "hard-light") {
            Ok(CompositeOperation::HardLight)
        } else if str_eq(s, "soft-light") {
            Ok(CompositeOperation::SoftLight)
        } else if str_eq(s, "difference") {
            Ok(CompositeOperation::Difference)
        } else if str_eq(s, "exclusion") {
            Ok(CompositeOperation::Exclusion)
        } else {
            Err(CanvasError::InvalidArg)
        }
    }
}

} // verus!
