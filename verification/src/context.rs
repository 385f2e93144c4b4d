//! The drawing context: the stateful orchestrator of the canvas API.
//!
//! The context owns the current path, the transform stack, and every paint
//! and text property. A drawing call resolves the relevant style descriptor
//! at call time, builds a paint from it, and submits the geometry and the
//! paint to the backend by appending a [`DrawOp`] to the surface's display
//! list; the host replays that list against the real rasterizer. The
//! context borrows the surface for the lifetime of each drawing call, so
//! no call can observe a surface mid-swap. A failing call leaves the
//! context, and the surface, exactly as they were.

use vstd::prelude::*;

use crate::canvas::HTMLCanvas;
use crate::error::CanvasError;
use crate::fx::{FX_ONE, MAX_ANGLE_FX};
use crate::geometry::{arc_cmd, closed_cmds, copy_cmds, Path2D, PathCmd};
use crate::paint::{
    resolve_style, resolve_style_model, Paint, PaintModel, PaintSourceModel, StrokeProps,
    StyleDescriptor,
};
use crate::stack::{apply_stack_op, stack_view, StackOp, TransformOp};
use crate::style::{CompositeOperation, LineCap, LineJoin, TextAlign, TextBaseline};

verus! {

/// One operation submitted to the backend's drawing handle. Coordinates
/// are fixed-point scalars; rectangles are given as origin and extent.
pub enum DrawOp {
    /// Paints a fully transparent rectangle over the given area, under the
    /// current transform.
    ClearRect { x: i64, y: i64, w: i64, h: i64 },
    FillRect { x: i64, y: i64, w: i64, h: i64, paint: Paint },
    StrokeRect { x: i64, y: i64, w: i64, h: i64, paint: Paint },
    FillPath { path: Vec<PathCmd>, paint: Paint },
    StrokePath { path: Vec<PathCmd>, paint: Paint },
    FillText {
        text: String,
        x: i64,
        y: i64,
        max_width: Option<i64>,
        font: String,
        align: TextAlign,
        baseline: TextBaseline,
        paint: Paint,
    },
    StrokeText {
        text: String,
        x: i64,
        y: i64,
        max_width: Option<i64>,
        font: String,
        align: TextAlign,
        baseline: TextBaseline,
        paint: Paint,
    },
    /// Saves the backend's transform, in step with the context's stack.
    Save,
    /// Restores the backend's transform, in step with the context's stack.
    Restore,
    Translate { x: i64, y: i64 },
    /// Rotation by an angle in fixed-point radians.
    Rotate { rad: i64 },
    Scale { x: i64, y: i64 },
}

/// The mathematical value of a [`DrawOp`].
pub enum DrawOpModel {
    ClearRect { x: i64, y: i64, w: i64, h: i64 },
    FillRect { x: i64, y: i64, w: i64, h: i64, paint: PaintModel },
    StrokeRect { x: i64, y: i64, w: i64, h: i64, paint: PaintModel },
    FillPath { path: Seq<PathCmd>, paint: PaintModel },
    StrokePath { path: Seq<PathCmd>, paint: PaintModel },
    FillText {
        text: Seq<char>,
        x: i64,
        y: i64,
        max_width: Option<i64>,
        font: Seq<char>,
        align: TextAlign,
        baseline: TextBaseline,
        paint: PaintModel,
    },
    StrokeText {
        text: Seq<char>,
        x: i64,
        y: i64,
        max_width: Option<i64>,
        font: Seq<char>,
        align: TextAlign,
        baseline: TextBaseline,
        paint: PaintModel,
    },
    Save,
    Restore,
    Translate { x: i64, y: i64 },
    Rotate { rad: i64 },
    Scale { x: i64, y: i64 },
}

impl View for DrawOp {
    type V = DrawOpModel;

    open spec fn view(&self) -> DrawOpModel {
        match self {
            DrawOp::ClearRect { x, y, w, h } => DrawOpModel::ClearRect {
                x: *x,
                y: *y,
                w: *w,
                h: *h,
            },
            DrawOp::FillRect { x, y, w, h, paint } => DrawOpModel::FillRect {
                x: *x,
                y: *y,
                w: *w,
                h: *h,
                paint: paint@,
            },
            DrawOp::StrokeRect { x, y, w, h, paint } => DrawOpModel::StrokeRect {
                x: *x,
                y: *y,
                w: *w,
                h: *h,
                paint: paint@,
            },
            DrawOp::FillPath { path, paint } => DrawOpModel::FillPath {
                path: path@,
                paint: paint@,
            },
            DrawOp::StrokePath { path, paint } => DrawOpModel::StrokePath {
                path: path@,
                paint: paint@,
            },
            DrawOp::FillText { text, x, y, max_width, font, align, baseline, paint } => DrawOpModel::FillText {
                text: text@,
                x: *x,
                y: *y,
                max_width: *max_width,
                font: font@,
                align: *align,
                baseline: *baseline,
                paint: paint@,
            },
            DrawOp::StrokeText { text, x, y, max_width, font, align, baseline, paint } => DrawOpModel::StrokeText {
                text: text@,
                x: *x,
                y: *y,
                max_width: *max_width,
                font: font@,
                align: *align,
                baseline: *baseline,
                paint: paint@,
            },
            DrawOp::Save => DrawOpModel::Save,
            DrawOp::Restore => DrawOpModel::Restore,
            DrawOp::Translate { x, y } => DrawOpModel::Translate { x: *x, y: *y },
            DrawOp::Rotate { rad } => DrawOpModel::Rotate { rad: *rad },
            DrawOp::Scale { x, y } => DrawOpModel::Scale { x: *x, y: *y },
        }
    }
}

/// The mathematical value of a display list.
pub open spec fn ops_log(ops: Seq<DrawOp>) -> Seq<DrawOpModel> {
    ops.map(|i: int, op: DrawOp| op@)
}

/// Appending an operation appends its value to the log.
pub proof fn lemma_log_push(ops: Seq<DrawOp>, op: DrawOp)
    ensures
        ops_log(ops.push(op)) == ops_log(ops).push(op@),
{
    assert(ops_log(ops.push(op)) =~= ops_log(ops).push(op@));
}

/// How many operations of a display list save the backend transform.
pub open spec fn log_saves(log: Seq<DrawOpModel>) -> int
    decreases log.len(),
{
    if log.len() == 0 {
        0
    } else {
        log_saves(log.drop_last()) + (if log.last() is Save {
            1int
        } else {
            0int
        })
    }
}

/// How many operations of a display list restore the backend transform.
pub open spec fn log_restores(log: Seq<DrawOpModel>) -> int
    decreases log.len(),
{
    if log.len() == 0 {
        0
    } else {
        log_restores(log.drop_last()) + (if log.last() is Restore {
            1int
        } else {
            0int
        })
    }
}

/// The synchronization between the context and the backend: the logical
/// stack is exactly one deeper than the backend's save/restore surplus.
pub open spec fn in_step(depth: int, log: Seq<DrawOpModel>) -> bool {
    depth == 1 + log_saves(log) - log_restores(log)
}

/// Appending one operation adds its contribution to the counts.
proof fn lemma_log_counts_push(log: Seq<DrawOpModel>, op: DrawOpModel)
    ensures
        log_saves(log.push(op)) == log_saves(log) + (if op is Save {
            1int
        } else {
            0int
        }),
        log_restores(log.push(op)) == log_restores(log) + (if op is Restore {
            1int
        } else {
            0int
        }),
{
    assert(log.push(op).drop_last() =~= log);
    assert(log.push(op).last() == op);
}

/// A save keeps the stack and the backend in step: it deepens the stack by
/// one and records one backend save.
pub proof fn lemma_save_stays_in_step(depth: int, log: Seq<DrawOpModel>)
    requires
        in_step(depth, log),
    ensures
        in_step(depth + 1, log.push(DrawOpModel::Save)),
{
    lemma_log_counts_push(log, DrawOpModel::Save);
}

/// A restore keeps the stack and the backend in step: above the base entry
/// it pops and records one backend restore; at the base it touches neither.
pub proof fn lemma_restore_stays_in_step(depth: int, log: Seq<DrawOpModel>)
    requires
        in_step(depth, log),
        depth >= 1,
    ensures
        depth > 1 ==> in_step(depth - 1, log.push(DrawOpModel::Restore)),
        depth == 1 ==> in_step(depth, log),
{
    lemma_log_counts_push(log, DrawOpModel::Restore);
}

/// Every other operation leaves the save/restore balance alone, so the
/// stack and the backend stay in step through drawing and transforms.
pub proof fn lemma_other_ops_stay_in_step(depth: int, log: Seq<DrawOpModel>, op: DrawOpModel)
    requires
        in_step(depth, log),
        !(op is Save),
        !(op is Restore),
    ensures
        in_step(depth, log.push(op)),
{
    lemma_log_counts_push(log, op);
}

/// The paint of a fill operation under the given context state.
pub open spec fn fill_paint_model(
    c: CanvasRenderingContext2D,
    source: PaintSourceModel,
) -> PaintModel {
    PaintModel { source, composite: c.global_composite_operation, stroke: None }
}

/// The stroke parameters the context currently holds.
pub open spec fn stroke_props_model(c: CanvasRenderingContext2D) -> StrokeProps {
    StrokeProps { width: c.line_width, cap: c.line_cap, join: c.line_join, miter_limit: c.miter_limit }
}

/// The paint of a stroke operation under the given context state.
pub open spec fn stroke_paint_model(
    c: CanvasRenderingContext2D,
    source: PaintSourceModel,
) -> PaintModel {
    PaintModel { source, composite: c.global_composite_operation, stroke: Some(stroke_props_model(c)) }
}

/// The rendering state bag of one surface.
pub struct CanvasRenderingContext2D {
    /// The fill style descriptor, late-bound.
    pub fill_style: StyleDescriptor,
    /// The stroke style descriptor, late-bound.
    pub stroke_style: StyleDescriptor,
    /// The stroke width, a fixed-point scalar, stored as given.
    pub line_width: i64,
    pub line_cap: LineCap,
    pub line_join: LineJoin,
    /// The miter limit, a fixed-point scalar.
    pub miter_limit: i64,
    /// The font descriptor string, forwarded to the backend's shaper.
    pub font: String,
    pub text_align: TextAlign,
    pub text_baseline: TextBaseline,
    /// The global alpha, a fixed-point value in `[0, 1]`.
    pub global_alpha: i64,
    pub global_composite_operation: CompositeOperation,
    /// The shadow blur radius, a fixed-point scalar.
    pub shadow_blur: i64,
    /// The shadow color string, unparsed like the style descriptors.
    pub shadow_color: String,
    pub shadow_offset_x: i64,
    pub shadow_offset_y: i64,
    /// The save/restore stack of symbolic transforms; never empty, with the
    /// base identity entry at the bottom.
    pub transform_stack: Vec<Vec<TransformOp>>,
    /// The path under construction.
    pub current_path: Path2D,
}

/// The two fields of the context the API never mutates together with the
/// rest: everything but the current path and the transform stack is a
/// setting.
pub open spec fn same_settings(a: CanvasRenderingContext2D, b: CanvasRenderingContext2D) -> bool {
    &&& a.fill_style == b.fill_style
    &&& a.stroke_style == b.stroke_style
    &&& a.line_width == b.line_width
    &&& a.line_cap == b.line_cap
    &&& a.line_join == b.line_join
    &&& a.miter_limit == b.miter_limit
    &&& a.font == b.font
    &&& a.text_align == b.text_align
    &&& a.text_baseline == b.text_baseline
    &&& a.global_alpha == b.global_alpha
    &&& a.global_composite_operation == b.global_composite_operation
    &&& a.shadow_blur == b.shadow_blur
    &&& a.shadow_color == b.shadow_color
    &&& a.shadow_offset_x == b.shadow_offset_x
    &&& a.shadow_offset_y == b.shadow_offset_y
}

/// The defaults every fresh context carries.
pub open spec fn is_default_context(c: CanvasRenderingContext2D) -> bool {
    &&& c.fill_style matches StyleDescriptor::Color(s) && s@ == "black"@
    &&& c.stroke_style matches StyleDescriptor::Color(s) && s@ == "black"@
    &&& c.line_width == FX_ONE
    &&& c.line_cap == LineCap::Butt
    &&& c.line_join == LineJoin::Miter
    &&& c.miter_limit == 10 * FX_ONE
    &&& c.font@ == "10px sans-serif"@
    &&& c.text_align == TextAlign::Start
    &&& c.text_baseline == TextBaseline::Alphabetic
    &&& c.global_alpha == FX_ONE
    &&& c.global_composite_operation == CompositeOperation::SourceOver
    &&& c.shadow_blur == 0
    &&& c.shadow_color@ == "rgba(0,0,0,0)"@
    &&& c.shadow_offset_x == 0
    &&& c.shadow_offset_y == 0
    &&& c.stack() == seq![Seq::<TransformOp>::empty()]
    &&& c.current_path@ == Seq::<PathCmd>::empty()
}

impl CanvasRenderingContext2D {
    /// The state the contracts assume: the transform stack is never empty
    /// and the global alpha stays in `[0, 1]`. Constructors establish it
    /// and every method preserves it.
    pub open spec fn wf(&self) -> bool {
        &&& self.stack().len() >= 1
        &&& 0 <= self.global_alpha <= FX_ONE
    }

    /// The mathematical value of the transform stack.
    pub open spec fn stack(&self) -> Seq<Seq<TransformOp>> {
        stack_view(self.transform_stack@)
    }

    /// A fresh context over the given surface, with every property at its
    /// default. The context does not hold the surface: each drawing call
    /// borrows it anew.
    pub fn new(canvas: &HTMLCanvas) -> (r: CanvasRenderingContext2D)
        ensures
            is_default_context(r),
            r.wf(),
    {
        let mut transform_stack: Vec<Vec<TransformOp>> = Vec::new();
        transform_stack.push(Vec::new());
        let r = CanvasRenderingContext2D {
            fill_style: StyleDescriptor::Color("black".to_owned()),
            stroke_style: StyleDescriptor::Color("black".to_owned()),
            line_width: FX_ONE,
            line_cap: LineCap::Butt,
            line_join: LineJoin::Miter,
            miter_limit: 10 * FX_ONE,
            font: "10px sans-serif".to_owned(),
            text_align: TextAlign::Start,
            text_baseline: TextBaseline::Alphabetic,
            global_alpha: FX_ONE,
            global_composite_operation: CompositeOperation::SourceOver,
            shadow_blur: 0,
            shadow_color: "rgba(0,0,0,0)".to_owned(),
            shadow_offset_x: 0,
            shadow_offset_y: 0,
            transform_stack,
            current_path: Path2D::new(None),
        };
        proof {
            assert(r.stack() =~= seq![Seq::<TransformOp>::empty()]);
        }
        r
    }

    /// Paints a fully transparent rectangle over the given area of the
    /// surface, in the rectangle's local coordinate space under the current
    /// transform; the rest of the surface is untouched.
    pub fn clear_rect(&self, surface: &mut HTMLCanvas, x: i64, y: i64, width: i64, height: i64)
        ensures
            final(surface).width == old(surface).width,
            final(surface).height == old(surface).height,
            final(surface).log() == old(surface).log().push(
                DrawOpModel::ClearRect { x, y, w: width, h: height },
            ),
    {
        let op = DrawOp::ClearRect { x, y, w: width, h: height };
        let ghost gop = op;
        let ghost prev = surface.ops@;
        surface.ops.push(op);
        proof {
            lemma_log_push(prev, gop);
        }
    }

    /// Fills a rectangle with the fill style, resolved now. A descriptor
    /// that does not resolve fails with its resolution error and changes
    /// nothing.
    pub fn fill_rect(
        &self,
        surface: &mut HTMLCanvas,
        x: i64,
        y: i64,
        width: i64,
        height: i64,
    ) -> (r: Result<(), CanvasError>)
        requires
            self.wf(),
        ensures
            final(surface).width == old(surface).width,
            final(surface).height == old(surface).height,
            (match resolve_style_model(self.fill_style, self.global_alpha) {
                Ok(ps) => r == Ok::<(), CanvasError>(()) && final(surface).log() == old(surface).log().push(
                    (DrawOpModel::FillRect {
                        x,
                        y,
                        w: width,
                        h: height,
                        paint: fill_paint_model(*self, ps),
                    }),
                ),
                Err(e) => r == Err::<(), CanvasError>(e) && final(surface).log() == old(surface).log(),
            }),
    {
        let source = match resolve_style(&self.fill_style, self.global_alpha) {
            Ok(s) => s,
            Err(e) => {
                return Err(e);
            },
        };
        let paint = Paint { source, composite: self.global_composite_operation, stroke: None };
        let op = DrawOp::FillRect { x, y, w: width, h: height, paint };
        let ghost gop = op;
        let ghost prev = surface.ops@;
        surface.ops.push(op);
        proof {
            lemma_log_push(prev, gop);
        }
        Ok(())
    }

    /// Strokes a rectangle's outline with the stroke style, resolved now,
    /// and the current stroke parameters. A descriptor that does not
    /// resolve fails with its resolution error and changes nothing.
    pub fn stroke_rect(
        &self,
        surface: &mut HTMLCanvas,
        x: i64,
        y: i64,
        width: i64,
        height: i64,
    ) -> (r: Result<(), CanvasError>)
        requires
            self.wf(),
        ensures
            final(surface).width == old(surface).width,
            final(surface).height == old(surface).height,
            (match resolve_style_model(self.stroke_style, self.global_alpha) {
                Ok(ps) => r == Ok::<(), CanvasError>(()) && final(surface).log() == old(surface).log().push(
                    (DrawOpModel::StrokeRect {
                        x,
                        y,
                        w: width,
                        h: height,
                        paint: stroke_paint_model(*self, ps),
                    }),
                ),
                Err(e) => r == Err::<(), CanvasError>(e) && final(surface).log() == old(surface).log(),
            }),
    {
        let source = match resolve_style(&self.stroke_style, self.global_alpha) {
            Ok(s) => s,
            Err(e) => {
                return Err(e);
            },
        };
        let paint = Paint {
            source,
            composite: self.global_composite_operation,
            stroke: Some(
                StrokeProps {
                    width: self.line_width,
                    cap: self.line_cap,
                    join: self.line_join,
                    miter_limit: self.miter_limit,
                },
            ),
        };
        let op = DrawOp::StrokeRect { x, y, w: width, h: height, paint };
        let ghost gop = op;
        let ghost prev = surface.ops@;
        surface.ops.push(op);
        proof {
            lemma_log_push(prev, gop);
        }
        Ok(())
    }

    /// Fills the current path with the fill style, resolved now. The path
    /// itself is left as it is, also on failure.
    pub fn fill(&self, surface: &mut HTMLCanvas) -> (r: Result<(), CanvasError>)
        requires
            self.wf(),
        ensures
            final(surface).width == old(surface).width,
            final(surface).height == old(surface).height,
            (match resolve_style_model(self.fill_style, self.global_alpha) {
                Ok(ps) => r == Ok::<(), CanvasError>(()) && final(surface).log() == old(surface).log().push(
                    (DrawOpModel::FillPath {
                        path: self.current_path@,
                        paint: fill_paint_model(*self, ps),
                    }),
                ),
                Err(e) => r == Err::<(), CanvasError>(e) && final(surface).log() == old(surface).log(),
            }),
    {
        let source = match resolve_style(&self.fill_style, self.global_alpha) {
            Ok(s) => s,
            Err(e) => {
                return Err(e);
            },
        };
        let paint = Paint { source, composite: self.global_composite_operation, stroke: None };
        let op = DrawOp::FillPath { path: copy_cmds(&self.current_path.cmds), paint };
        let ghost gop = op;
        let ghost prev = surface.ops@;
        surface.ops.push(op);
        proof {
            lemma_log_push(prev, gop);
        }
        Ok(())
    }

    /// Strokes the current path with the stroke style, resolved now, and
    /// the current stroke parameters. The path itself is left as it is,
    /// also on failure.
    pub fn stroke(&self, surface: &mut HTMLCanvas) -> (r: Result<(), CanvasError>)
        requires
            self.wf(),
        ensures
            final(surface).width == old(surface).width,
            final(surface).height == old(surface).height,
            (match resolve_style_model(self.stroke_style, self.global_alpha) {
                Ok(ps) => r == Ok::<(), CanvasError>(()) && final(surface).log() == old(surface).log().push(
                    (DrawOpModel::StrokePath {
                        path: self.current_path@,
                        paint: stroke_paint_model(*self, ps),
                    }),
                ),
                Err(e) => r == Err::<(), CanvasError>(e) && final(surface).log() == old(surface).log(),
            }),
    {
        let source = match resolve_style(&self.stroke_style, self.global_alpha) {
            Ok(s) => s,
            Err(e) => {
                return Err(e);
            },
        };
        let paint = Paint {
            source,
            composite: self.global_composite_operation,
            stroke: Some(
                StrokeProps {
                    width: self.line_width,
                    cap: self.line_cap,
                    join: self.line_join,
                    miter_limit: self.miter_limit,
                },
            ),
        };
        let op = DrawOp::StrokePath { path: copy_cmds(&self.current_path.cmds), paint };
        let ghost gop = op;
        let ghost prev = surface.ops@;
        surface.ops.push(op);
        proof {
            lemma_log_push(prev, gop);
        }
        Ok(())
    }
}

impl CanvasRenderingContext2D {
    /// Resets the current path to an empty one.
    pub fn begin_path(&mut self)
        ensures
            same_settings(*final(self), *old(self)),
            final(self).stack() == old(self).stack(),
            final(self).current_path@ == Seq::<PathCmd>::empty(),
    {
        self.current_path = Path2D::new(None);
    }

    /// Starts a new sub-path of the current path at the given point.
    pub fn move_to(&mut self, x: i64, y: i64)
        ensures
            same_settings(*final(self), *old(self)),
            final(self).stack() == old(self).stack(),
            final(self).current_path@ == old(self).current_path@.push(PathCmd::MoveTo { x, y }),
    {
        self.current_path.move_to(x, y);
    }

    /// Appends a straight segment to the current path.
    pub fn line_to(&mut self, x: i64, y: i64)
        ensures
            same_settings(*final(self), *old(self)),
            final(self).stack() == old(self).stack(),
            final(self).current_path@ == old(self).current_path@.push(PathCmd::LineTo { x, y }),
    {
        self.current_path.line_to(x, y);
    }

    /// Appends a cubic segment to the current path.
    pub fn bezier_curve_to(&mut self, cp1x: i64, cp1y: i64, cp2x: i64, cp2y: i64, x: i64, y: i64)
        ensures
            same_settings(*final(self), *old(self)),
            final(self).stack() == old(self).stack(),
            final(self).current_path@ == old(self).current_path@.push(
                (PathCmd::CubicTo { c1x: cp1x, c1y: cp1y, c2x: cp2x, c2y: cp2y, x, y }),
            ),
    {
        self.current_path.bezier_curve_to(cp1x, cp1y, cp2x, cp2y, x, y);
    }

    /// Appends a quadratic segment to the current path.
    pub fn quadratic_curve_to(&mut self, cpx: i64, cpy: i64, x: i64, y: i64)
        ensures
            same_settings(*final(self), *old(self)),
            final(self).stack() == old(self).stack(),
            final(self).current_path@ == old(self).current_path@.push(
                (PathCmd::QuadTo { cx: cpx, cy: cpy, x, y }),
            ),
    {
        self.current_path.quadratic_curve_to(cpx, cpy, x, y);
    }

    /// Appends a circular arc to the current path, converting the radian
    /// angle range to the backend's start angle and normalized sweep. A
    /// zero or negative radius is an error and changes nothing.
    pub fn arc(
        &mut self,
        x: i64,
        y: i64,
        radius: i64,
        start_angle: i64,
        end_angle: i64,
        counter_clockwise: Option<bool>,
    ) -> (r: Result<(), CanvasError>)
        requires
            -MAX_ANGLE_FX <= start_angle <= MAX_ANGLE_FX,
            -MAX_ANGLE_FX <= end_angle <= MAX_ANGLE_FX,
        ensures
            same_settings(*final(self), *old(self)),
            final(self).stack() == old(self).stack(),
            (if radius <= 0 {
                r == Err::<(), CanvasError>(CanvasError::InvalidGeometry) && final(self).current_path@ == old(self).current_path@
            } else {
                r == Ok::<(), CanvasError>(()) && final(self).current_path@ == old(self).current_path@.push(
                    arc_cmd(
                        x,
                        y,
                        radius,
                        radius,
                        0,
                        start_angle,
                        end_angle,
                        (counter_clockwise == Some(true)),
                    ),
                )
            }),
    {
        self.current_path.arc(x, y, radius, start_angle, end_angle, counter_clockwise)
    }

    /// Appends a closed rectangular sub-path to the current path, as an
    /// independent contour.
    pub fn rect(&mut self, x: i64, y: i64, width: i64, height: i64)
        ensures
            same_settings(*final(self), *old(self)),
            final(self).stack() == old(self).stack(),
            final(self).current_path@ == old(self).current_path@.push(
                (PathCmd::AddRect { x, y, w: width, h: height }),
            ),
    {
        self.current_path.rect(x, y, width, height);
    }

    /// Closes the current sub-path; a no-op when the path is empty or the
    /// sub-path is already closed.
    pub fn close_path(&mut self)
        ensures
            same_settings(*final(self), *old(self)),
            final(self).stack() == old(self).stack(),
            final(self).current_path@ == closed_cmds(old(self).current_path@),
    {
        self.current_path.close_path();
    }

    /// Draws filled text: the string, position, font descriptor, alignment
    /// and baseline are forwarded for the backend's shaper, with the fill
    /// style resolved now. A descriptor that does not resolve fails with
    /// its resolution error and changes nothing.
    pub fn fill_text(
        &self,
        surface: &mut HTMLCanvas,
        text: String,
        x: i64,
        y: i64,
        max_width: Option<i64>,
    ) -> (r: Result<(), CanvasError>)
        requires
            self.wf(),
        ensures
            final(surface).width == old(surface).width,
            final(surface).height == old(surface).height,
            (match resolve_style_model(self.fill_style, self.global_alpha) {
                Ok(ps) => r == Ok::<(), CanvasError>(()) && final(surface).log() == old(surface).log().push(
                    (DrawOpModel::FillText {
                        text: text@,
                        x,
                        y,
                        max_width,
                        font: self.font@,
                        align: self.text_align,
                        baseline: self.text_baseline,
                        paint: fill_paint_model(*self, ps),
                    }),
                ),
                Err(e) => r == Err::<(), CanvasError>(e) && final(surface).log() == old(surface).log(),
            }),
    {
        let source = match resolve_style(&self.fill_style, self.global_alpha) {
            Ok(s) => s,
            Err(e) => {
                return Err(e);
            },
        };
        let paint = Paint { source, composite: self.global_composite_operation, stroke: None };
        let op = DrawOp::FillText {
            text,
            x,
            y,
            max_width,
            font: self.font.clone(),
            align: self.text_align,
            baseline: self.text_baseline,
            paint,
        };
        let ghost gop = op;
        let ghost prev = surface.ops@;
        surface.ops.push(op);
        proof {
            lemma_log_push(prev, gop);
        }
        Ok(())
    }

    /// Draws the outline of text, as [`Self::fill_text`] does, with the
    /// stroke style and the current stroke parameters.
    pub fn stroke_text(
        &self,
        surface: &mut HTMLCanvas,
        text: String,
        x: i64,
        y: i64,
        max_width: Option<i64>,
    ) -> (r: Result<(), CanvasError>)
        requires
            self.wf(),
        ensures
            final(surface).width == old(surface).width,
            final(surface).height == old(surface).height,
            (match resolve_style_model(self.stroke_style, self.global_alpha) {
                Ok(ps) => r == Ok::<(), CanvasError>(()) && final(surface).log() == old(surface).log().push(
                    (DrawOpModel::StrokeText {
                        text: text@,
                        x,
                        y,
                        max_width,
                        font: self.font@,
                        align: self.text_align,
                        baseline: self.text_baseline,
                        paint: stroke_paint_model(*self, ps),
                    }),
                ),
                Err(e) => r == Err::<(), CanvasError>(e) && final(surface).log() == old(surface).log(),
            }),
    {
        let source = match resolve_style(&self.stroke_style, self.global_alpha) {
            Ok(s) => s,
            Err(e) => {
                return Err(e);
            },
        };
        let paint = Paint {
            source,
            composite: self.global_composite_operation,
            stroke: Some(
                StrokeProps {
                    width: self.line_width,
                    cap: self.line_cap,
                    join: self.line_join,
                    miter_limit: self.miter_limit,
                },
            ),
        };
        let op = DrawOp::StrokeText {
            text,
            x,
            y,
            max_width,
            font: self.font.clone(),
            align: self.text_align,
            baseline: self.text_baseline,
            paint,
        };
        let ghost gop = op;
        let ghost prev = surface.ops@;
        surface.ops.push(op);
        proof {
            lemma_log_push(prev, gop);
        }
        Ok(())
    }

    /// Duplicates the top of the transform stack and saves the backend's
    /// transform in step, so that save/restore parity is preserved.
    pub fn save(&mut self, surface: &mut HTMLCanvas)
        requires
            old(self).wf(),
        ensures
            final(self).wf(),
            same_settings(*final(self), *old(self)),
            final(self).current_path@ == old(self).current_path@,
            final(self).stack() == apply_stack_op(old(self).stack(), StackOp::Save),
            final(surface).width == old(surface).width,
            final(surface).height == old(surface).height,
            final(surface).log() == old(surface).log().push(DrawOpModel::Save),
    {
        let n = self.transform_stack.len();
        let top = crate::stack::copy_transform_ops(&self.transform_stack[n - 1]);
        let ghost prev_stack = self.transform_stack@;
        let ghost gtop = top;
        self.transform_stack.push(top);
        proof {
            crate::stack::lemma_stack_view_push(prev_stack, gtop);
        }
        let op = DrawOp::Save;
        let ghost gop = op;
        let ghost prev = surface.ops@;
        surface.ops.push(op);
        proof {
            lemma_log_push(prev, gop);
        }
    }

    /// Pops the transform stack and restores the backend's transform in
    /// step — unless only the base entry remains, in which case the call is
    /// a no-op, on the stack and on the backend alike.
    pub fn restore(&mut self, surface: &mut HTMLCanvas)
        requires
            old(self).wf(),
        ensures
            final(self).wf(),
            same_settings(*final(self), *old(self)),
            final(self).current_path@ == old(self).current_path@,
            final(self).stack() == apply_stack_op(old(self).stack(), StackOp::Restore),
            final(surface).width == old(surface).width,
            final(surface).height == old(surface).height,
            final(surface).log() == (if old(self).stack().len() > 1 {
                old(surface).log().push(DrawOpModel::Restore)
            } else {
                old(surface).log()
            }),
    {
        if self.transform_stack.len() > 1 {
            let ghost prev_stack = self.transform_stack@;
            self.transform_stack.pop();
            proof {
                assert(self.transform_stack@ =~= prev_stack.drop_last());
                crate::stack::lemma_stack_view_drop_last(prev_stack);
            }
            let op = DrawOp::Restore;
            let ghost gop = op;
            let ghost prev = surface.ops@;
            surface.ops.push(op);
            proof {
                lemma_log_push(prev, gop);
            }
        }
    }

    /// Composes one transform step onto the top stack entry.
    fn apply_transform(&mut self, t: TransformOp)
        requires
            old(self).wf(),
        ensures
            final(self).wf(),
            same_settings(*final(self), *old(self)),
            final(self).current_path@ == old(self).current_path@,
            final(self).stack() == apply_stack_op(old(self).stack(), StackOp::Mutate(t)),
    {
        let ghost prev_stack = self.transform_stack@;
        let mut top = self.transform_stack.pop().unwrap();
        top.push(t);
        let ghost gtop = top;
        self.transform_stack.push(top);
        proof {
            assert(self.transform_stack@ =~= prev_stack.update(prev_stack.len() - 1, gtop));
            crate::stack::lemma_stack_view_update(prev_stack, prev_stack.len() - 1, gtop);
            assert(gtop@ == stack_view(prev_stack).last().push(t));
        }
    }

    /// Composes a translation onto the active transform, on the stack and
    /// on the backend alike.
    pub fn translate(&mut self, surface: &mut HTMLCanvas, x: i64, y: i64)
        requires
            old(self).wf(),
        ensures
            final(self).wf(),
            same_settings(*final(self), *old(self)),
            final(self).current_path@ == old(self).current_path@,
            final(self).stack() == apply_stack_op(
                old(self).stack(),
                StackOp::Mutate(TransformOp::Translate { x, y }),
            ),
            final(surface).width == old(surface).width,
            final(surface).height == old(surface).height,
            final(surface).log() == old(surface).log().push(DrawOpModel::Translate { x, y }),
    {
        self.apply_transform(TransformOp::Translate { x, y });
        let op = DrawOp::Translate { x, y };
        let ghost gop = op;
        let ghost prev = surface.ops@;
        surface.ops.push(op);
        proof {
            lemma_log_push(prev, gop);
        }
    }

    /// Composes a rotation, in fixed-point radians, onto the active
    /// transform, on the stack and on the backend alike.
    pub fn rotate(&mut self, surface: &mut HTMLCanvas, angle: i64)
        requires
            old(self).wf(),
        ensures
            final(self).wf(),
            same_settings(*final(self), *old(self)),
            final(self).current_path@ == old(self).current_path@,
            final(self).stack() == apply_stack_op(
                old(self).stack(),
                StackOp::Mutate(TransformOp::Rotate { rad: angle }),
            ),
            final(surface).width == old(surface).width,
            final(surface).height == old(surface).height,
            final(surface).log() == old(surface).log().push(DrawOpModel::Rotate { rad: angle }),
    {
        self.apply_transform(TransformOp::Rotate { rad: angle });
        let op = DrawOp::Rotate { rad: angle };
        let ghost gop = op;
        let ghost prev = surface.ops@;
        surface.ops.push(op);
        proof {
            lemma_log_push(prev, gop);
        }
    }

    /// Composes a scale onto the active transform, on the stack and on the
    /// backend alike.
    pub fn scale(&mut self, surface: &mut HTMLCanvas, x: i64, y: i64)
        requires
            old(self).wf(),
        ensures
            final(self).wf(),
            same_settings(*final(self), *old(self)),
            final(self).current_path@ == old(self).current_path@,
            final(self).stack() == apply_stack_op(
                old(self).stack(),
                StackOp::Mutate(TransformOp::Scale { x, y }),
            ),
            final(surface).width == old(surface).width,
            final(surface).height == old(surface).height,
            final(surface).log() == old(surface).log().push(DrawOpModel::Scale { x, y }),
    {
        self.apply_transform(TransformOp::Scale { x, y });
        let op = DrawOp::Scale { x, y };
        let ghost gop = op;
        let ghost prev = surface.ops@;
        surface.ops.push(op);
        proof {
            lemma_log_push(prev, gop);
        }
    }

    /// The fill style descriptor.
    pub fn fill_style(&self) -> (r: &StyleDescriptor)
        ensures
            r == &self.fill_style,
    {
        &self.fill_style
    }

    /// Sets the fill style to a color string, kept unparsed until a fill
    /// resolves it.
    pub fn set_fill_style(&mut self, value: String)
        ensures
            *final(self) == (CanvasRenderingContext2D {
                fill_style: StyleDescriptor::Color(value),
                ..*old(self)
            }),
    {
        self.fill_style = StyleDescriptor::Color(value);
    }

    /// Sets the fill style to any descriptor: a color string, a gradient,
    /// or a pattern.
    pub fn set_fill_style_descriptor(&mut self, style: StyleDescriptor)
        ensures
            *final(self) == (CanvasRenderingContext2D { fill_style: style, ..*old(self) }),
    {
        self.fill_style = style;
    }

    /// The stroke style descriptor.
    pub fn stroke_style(&self) -> (r: &StyleDescriptor)
        ensures
            r == &self.stroke_style,
    {
        &self.stroke_style
    }

    /// Sets the stroke style to a color string, kept unparsed until a
    /// stroke resolves it.
    pub fn set_stroke_style(&mut self, value: String)
        ensures
            *final(self) == (CanvasRenderingContext2D {
                stroke_style: StyleDescriptor::Color(value),
                ..*old(self)
            }),
    {
        self.stroke_style = StyleDescriptor::Color(value);
    }

    /// Sets the stroke style to any descriptor: a color string, a
    /// gradient, or a pattern.
    pub fn set_stroke_style_descriptor(&mut self, style: StyleDescriptor)
        ensures
            *final(self) == (CanvasRenderingContext2D { stroke_style: style, ..*old(self) }),
    {
        self.stroke_style = style;
    }

    /// The stroke width, a fixed-point scalar.
    pub fn line_width(&self) -> (r: i64)
        ensures
            r == self.line_width,
    {
        self.line_width
    }

    /// Sets the stroke width. The value is stored as given; a zero or
    /// negative width makes strokes degenerate but must not fail.
    pub fn set_line_width(&mut self, value: i64)
        ensures
            *final(self) == (CanvasRenderingContext2D { line_width: value, ..*old(self) }),
    {
        self.line_width = value;
    }
}

/// Filling a rectangle on a fresh surface, with the fill style an opaque
/// color string and the global alpha at one, leaves a display list of
/// exactly that one fill, painted with exactly the color the string
/// denotes: a correct backend shows the color inside the rectangle and the
/// white base everywhere else.
pub proof fn lemma_fill_rect_on_fresh_surface(
    before: HTMLCanvas,
    after: HTMLCanvas,
    ctx: CanvasRenderingContext2D,
    col: crate::color::Rgba,
    x: i64,
    y: i64,
    w: i64,
    h: i64,
)
    requires
        before.log() == Seq::<DrawOpModel>::empty(),
        ctx.global_alpha == FX_ONE,
        ctx.fill_style matches StyleDescriptor::Color(s) && crate::color::parse_color(s@)
            == Some(col),
        after.log() == (match resolve_style_model(ctx.fill_style, ctx.global_alpha) {
            Ok(ps) => before.log().push(
                (DrawOpModel::FillRect { x, y, w, h, paint: fill_paint_model(ctx, ps) }),
            ),
            Err(_) => before.log(),
        }),
    ensures
        after.log() == seq![
            (DrawOpModel::FillRect {
                x,
                y,
                w,
                h,
                paint: PaintModel {
                    source: PaintSourceModel::Solid(col),
                    composite: ctx.global_composite_operation,
                    stroke: None,
                },
            }),
        ],
{
    crate::paint::lemma_resolve_color_full_alpha(ctx.fill_style, col);
    assert(after.log() =~= seq![
        (DrawOpModel::FillRect {
            x,
            y,
            w,
            h,
            paint: PaintModel {
                source: PaintSourceModel::Solid(col),
                composite: ctx.global_composite_operation,
                stroke: None,
            },
        }),
    ]);
}

} // verus!
