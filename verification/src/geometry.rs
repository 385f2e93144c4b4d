//! The geometry model: an append-only sequence of path commands.
//!
//! A path is an ordered list of commands with fixed-point coordinates;
//! sub-paths are delimited implicitly by `MoveTo` and `Close`. A curve
//! command before any `MoveTo` is recorded as given and renders from the
//! backend's implicit origin of (0, 0). Arcs are stored in the backend's
//! representation — center, radii, start angle and sweep in fixed-point
//! degrees — converted from the API's radian arguments by the rules of
//! [`crate::fx`].

use vstd::prelude::*;

use crate::error::CanvasError;
use crate::fx::{fx_rad_to_deg, rad_to_deg, sweep_deg, DEG_360_FX, MAX_ANGLE_FX};

verus! {

/// One command of a path. Coordinates and radii are fixed-point scalars;
/// the angles of an `Arc` are fixed-point degrees.
#[derive(Clone, Copy, Debug, PartialEq, Eq, Structural)]
pub enum PathCmd {
    /// Starts a new sub-path at the given point.
    MoveTo { x: i64, y: i64 },
    /// A straight segment from the current point.
    LineTo { x: i64, y: i64 },
    /// A cubic segment with two control points.
    CubicTo { c1x: i64, c1y: i64, c2x: i64, c2y: i64, x: i64, y: i64 },
    /// A quadratic segment with one control point.
    QuadTo { cx: i64, cy: i64, x: i64, y: i64 },
    /// An elliptical arc around a center, with a local rotation applied
    /// around that center, a start angle and a signed sweep.
    Arc { cx: i64, cy: i64, rx: i64, ry: i64, rot_deg: i64, start_deg: i64, sweep_deg: i64 },
    /// A closed rectangular sub-path, an independent contour that leaves
    /// the current point of the surrounding path alone.
    AddRect { x: i64, y: i64, w: i64, h: i64 },
    /// Closes the current sub-path.
    Close,
}

/// The arc command that the arc and ellipse operations append for the given
/// center, radii, rotation, and radian angle range.
pub open spec fn arc_cmd(
    x: i64,
    y: i64,
    rx: i64,
    ry: i64,
    rot: i64,
    start: i64,
    end: i64,
    ccw: bool,
) -> PathCmd {
    PathCmd::Arc {
        cx: x,
        cy: y,
        rx,
        ry,
        rot_deg: rad_to_deg(rot as int) as i64,
        start_deg: rad_to_deg(start as int) as i64,
        sweep_deg: sweep_deg(start as int, end as int, ccw) as i64,
    }
}

/// The command list after a close: unchanged when it is empty or already
/// ends in a close, else with a close appended.
pub open spec fn closed_cmds(s: Seq<PathCmd>) -> Seq<PathCmd> {
    if s.len() == 0 || s.last() == PathCmd::Close {
        s
    } else {
        s.push(PathCmd::Close)
    }
}

/// A path under construction: the ordered command list.
pub struct Path2D {
    pub cmds: Vec<PathCmd>,
}

impl View for Path2D {
    type V = Seq<PathCmd>;

    open spec fn view(&self) -> Seq<PathCmd> {
        self.cmds@
    }
}

/// Copies a command list.
pub(crate) fn copy_cmds(v: &Vec<PathCmd>) -> (r: Vec<PathCmd>)
    ensures
        r@ == v@,
{
    let mut r: Vec<PathCmd> = Vec::new();
    let mut i: usize = 0;
    while i < v.len()
        invariant
            i <= v.len(),
            r@ == v@.subrange(0, i as int),
        decreases v.len() - i,
    {
        r.push(v[i]);
        proof {
            assert(r@ =~= v@.subrange(0, i + 1 as int));
        }
        i += 1;
    }
    proof {
        assert(r@ =~= v@);
    }
    r
}

impl Path2D {
    /// A new path: empty, or a deep value copy of an existing path whose
    /// later mutation is independent of the original.
    pub fn new(path: Option<&Path2D>) -> (r: Path2D)
        ensures
            (match path {
                Some(p) => r@ == p@,
                None => r@ == Seq::<PathCmd>::empty(),
            }),
    {
        match path {
            Some(p) => Path2D { cmds: copy_cmds(&p.cmds) },
            None => Path2D { cmds: Vec::new() },
        }
    }

    /// Appends all commands of another path as new sub-paths.
    pub fn add_path(&mut self, path: &Path2D)
        ensures
            final(self)@ == old(self)@ + path@,
    {
        let mut extra = copy_cmds(&path.cmds);
        self.cmds.append(&mut extra);
    }

    /// Closes the current sub-path; a no-op when the path is empty or the
    /// sub-path is already closed.
    pub fn close_path(&mut self)
        ensures
            final(self)@ == closed_cmds(old(self)@),
    {
        if self.cmds.len() == 0 {
            return ;
        }
        let last = self.cmds[self.cmds.len() - 1];
        if let PathCmd::Close = last {
            return ;
        }
        self.cmds.push(PathCmd::Close);
    }

    /// Starts a new sub-path at the given point.
    pub fn move_to(&mut self, x: i64, y: i64)
        ensures
            final(self)@ == old(self)@.push(PathCmd::MoveTo { x, y }),
    {
        self.cmds.push(PathCmd::MoveTo { x, y });
    }

    /// Appends a straight segment to the given point.
    pub fn line_to(&mut self, x: i64, y: i64)
        ensures
            final(self)@ == old(self)@.push(PathCmd::LineTo { x, y }),
    {
        self.cmds.push(PathCmd::LineTo { x, y });
    }

    /// Appends a cubic segment with the two control points.
    pub fn bezier_curve_to(&mut self, cp1x: i64, cp1y: i64, cp2x: i64, cp2y: i64, x: i64, y: i64)
        ensures
            final(self)@ == old(self)@.push(
                PathCmd::CubicTo { c1x: cp1x, c1y: cp1y, c2x: cp2x, c2y: cp2y, x, y },
            ),
    {
        self.cmds.push(PathCmd::CubicTo { c1x: cp1x, c1y: cp1y, c2x: cp2x, c2y: cp2y, x, y });
    }

    /// Appends a quadratic segment with the control point.
    pub fn quadratic_curve_to(&mut self, cpx: i64, cpy: i64, x: i64, y: i64)
        ensures
            final(self)@ == old(self)@.push(PathCmd::QuadTo { cx: cpx, cy: cpy, x, y }),
    {
        self.cmds.push(PathCmd::QuadTo { cx: cpx, cy: cpy, x, y });
    }

    /// Appends a circular arc around `(x, y)`. Angles are fixed-point
    /// radians measured clockwise from the positive x-axis; the stored
    /// command carries the converted start angle and the sweep normalized
    /// to the requested winding. A zero or negative radius is rejected and
    /// leaves the path unchanged.
    pub fn arc(
        &mut self,
        x: i64,
        y: i64,
        radius: i64,
        start_angle: i64,
        end_angle: i64,
        counter_clockwise: Option<bool>,
    ) -> (r: Result<(), CanvasError>)
        requires
            -MAX_ANGLE_FX <= start_angle <= MAX_ANGLE_FX,
            -MAX_ANGLE_FX <= end_angle <= MAX_ANGLE_FX,
        ensures
            (if radius <= 0 {
                r == Err::<(), CanvasError>(CanvasError::InvalidGeometry) && final(self)@ == old(
                    self,
                )@
            } else {
                r == Ok::<(), CanvasError>(()) && final(self)@ == old(self)@.push(
                    arc_cmd(
                        x,
                        y,
                        radius,
                        radius,
                        0,
                        start_angle,
                        end_angle,
                        (counter_clockwise == Some(true)),
                    ),
                )
            }),
    {
        if radius <= 0 {
            return Err(CanvasError::InvalidGeometry);
        }
        let ccw = match counter_clockwise {
            Some(b) => b,
            None => false,
        };
        let start_deg = fx_rad_to_deg(start_angle);
        let sweep = normalized_sweep(start_angle, end_angle, ccw);
        self.cmds.push(
            PathCmd::Arc {
                cx: x,
                cy: y,
                rx: radius,
                ry: radius,
                rot_deg: 0,
                start_deg,
                sweep_deg: sweep,
            },
        );
        Ok(())
    }

    /// Appends a closed rectangular sub-path as an independent contour.
    pub fn rect(&mut self, x: i64, y: i64, width: i64, height: i64)
        ensures
            final(self)@ == old(self)@.push(PathCmd::AddRect { x, y, w: width, h: height }),
    {
        self.cmds.push(PathCmd::AddRect { x, y, w: width, h: height });
    }

    /// Appends an elliptical arc with independent radii and a rotation
    /// applied as a local transform around the ellipse center. A zero or
    /// negative radius is rejected and leaves the path unchanged.
    pub fn ellipse(
        &mut self,
        x: i64,
        y: i64,
        radius_x: i64,
        radius_y: i64,
        rotation: i64,
        start_angle: i64,
        end_angle: i64,
        counter_clockwise: Option<bool>,
    ) -> (r: Result<(), CanvasError>)
        requires
            -MAX_ANGLE_FX <= start_angle <= MAX_ANGLE_FX,
            -MAX_ANGLE_FX <= end_angle <= MAX_ANGLE_FX,
            -MAX_ANGLE_FX <= rotation <= MAX_ANGLE_FX,
        ensures
            (if radius_x <= 0 || radius_y <= 0 {
                r == Err::<(), CanvasError>(CanvasError::InvalidGeometry) && final(self)@ == old(
                    self,
                )@
            } else {
                r == Ok::<(), CanvasError>(()) && final(self)@ == old(self)@.push(
                    arc_cmd(
                        x,
                        y,
                        radius_x,
                        radius_y,
                        rotation,
                        start_angle,
                        end_angle,
                        (counter_clockwise == Some(true)),
                    ),
                )
            }),
    {
        if radius_x <= 0 || radius_y <= 0 {
            return Err(CanvasError::InvalidGeometry);
        }
        let ccw = match counter_clockwise {
            Some(b) => b,
            None => false,
        };
        let rot_deg = fx_rad_to_deg(rotation);
        let start_deg = fx_rad_to_deg(start_angle);
        let sweep = normalized_sweep(start_angle, end_angle, ccw);
        self.cmds.push(
            PathCmd::Arc {
                cx: x,
                cy: y,
                rx: radius_x,
                ry: radius_y,
                rot_deg,
                start_deg,
                sweep_deg: sweep,
            },
        );
        Ok(())
    }
}

/// Converts an angle range to a sweep in fixed-point degrees, normalized to
/// the requested winding.
pub(crate) fn normalized_sweep(start: i64, end: i64, ccw: bool) -> (r: i64)
    requires
        -MAX_ANGLE_FX <= start <= MAX_ANGLE_FX,
        -MAX_ANGLE_FX <= end <= MAX_ANGLE_FX,
    ensures
        r == sweep_deg(start as int, end as int, ccw),
{
    let raw = fx_rad_to_deg(end - start);
    if ccw && raw > 0 {
        raw - DEG_360_FX
    } else if !ccw && raw < 0 {
        raw + DEG_360_FX
    } else {
        raw
    }
}

} // verus!
