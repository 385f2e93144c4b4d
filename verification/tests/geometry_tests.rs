use canvas2d::error::CanvasError;
use canvas2d::fx::FX_ONE;
use canvas2d::geometry::{Path2D, PathCmd};

// pi/2 in fixed-point radians, rounded to the nearest unit.
const HALF_PI_FX: i64 = 1_570_796;

#[test]
fn paths_start_empty() {
    let p = Path2D::new(None);
    assert!(p.cmds.is_empty());
}

#[test]
fn path_copy_is_deep() {
    let mut a = Path2D::new(None);
    a.move_to(1, 2);
    let mut b = Path2D::new(Some(&a));
    assert_eq!(b.cmds, a.cmds);
    b.line_to(3, 4);
    assert_eq!(a.cmds.len(), 1);
    assert_eq!(b.cmds.len(), 2);
}

#[test]
fn commands_append_in_order() {
    let mut p = Path2D::new(None);
    p.move_to(0, 0);
    p.line_to(10, 0);
    p.quadratic_curve_to(1, 2, 3, 4);
    p.bezier_curve_to(1, 2, 3, 4, 5, 6);
    p.rect(7, 8, 9, 10);
    assert_eq!(
        p.cmds,
        vec![
            PathCmd::MoveTo { x: 0, y: 0 },
            PathCmd::LineTo { x: 10, y: 0 },
            PathCmd::QuadTo { cx: 1, cy: 2, x: 3, y: 4 },
            PathCmd::CubicTo { c1x: 1, c1y: 2, c2x: 3, c2y: 4, x: 5, y: 6 },
            PathCmd::AddRect { x: 7, y: 8, w: 9, h: 10 },
        ]
    );
}

#[test]
fn close_path_is_noop_on_empty_or_closed() {
    let mut p = Path2D::new(None);
    p.close_path();
    assert!(p.cmds.is_empty());
    p.move_to(0, 0);
    p.close_path();
    assert_eq!(p.cmds.last(), Some(&PathCmd::Close));
    let n = p.cmds.len();
    p.close_path();
    assert_eq!(p.cmds.len(), n);
}

#[test]
fn add_path_appends_all_commands() {
    let mut a = Path2D::new(None);
    a.move_to(0, 0);
    let mut b = Path2D::new(None);
    b.line_to(1, 1);
    b.close_path();
    a.add_path(&b);
    assert_eq!(
        a.cmds,
        vec![
            PathCmd::MoveTo { x: 0, y: 0 },
            PathCmd::LineTo { x: 1, y: 1 },
            PathCmd::Close,
        ]
    );
}

#[test]
fn arc_quarter_turn_sweeps_ninety_degrees() {
    let mut p = Path2D::new(None);
    p.arc(0, 0, 10 * FX_ONE, 0, HALF_PI_FX, Some(false)).unwrap();
    match p.cmds[0] {
        PathCmd::Arc { cx, cy, rx, ry, rot_deg, start_deg, sweep_deg } => {
            assert_eq!((cx, cy), (0, 0));
            assert_eq!((rx, ry), (10 * FX_ONE, 10 * FX_ONE));
            assert_eq!(rot_deg, 0);
            assert_eq!(start_deg, 0);
            // 90 degrees, up to the fixed-point approximation of pi.
            assert!((89_900_000..=90_100_000).contains(&sweep_deg));
        }
        _ => panic!("expected an arc command"),
    }
}

#[test]
fn arc_counter_clockwise_normalizes_sweep() {
    let mut cw = Path2D::new(None);
    cw.arc(0, 0, 10 * FX_ONE, 0, HALF_PI_FX, Some(false)).unwrap();
    let mut ccw = Path2D::new(None);
    ccw.arc(0, 0, 10 * FX_ONE, 0, HALF_PI_FX, Some(true)).unwrap();
    let sweep_cw = match cw.cmds[0] {
        PathCmd::Arc { sweep_deg, .. } => sweep_deg,
        _ => panic!("expected an arc command"),
    };
    let sweep_ccw = match ccw.cmds[0] {
        PathCmd::Arc { sweep_deg, .. } => sweep_deg,
        _ => panic!("expected an arc command"),
    };
    // The same quarter turn, wound the other way: minus 270 degrees.
    assert_eq!(sweep_ccw, sweep_cw - 360_000_000);
    assert!((-270_100_000..=-269_900_000).contains(&sweep_ccw));
}

#[test]
fn arc_missing_winding_defaults_to_clockwise() {
    let mut a = Path2D::new(None);
    a.arc(0, 0, FX_ONE, 0, HALF_PI_FX, None).unwrap();
    let mut b = Path2D::new(None);
    b.arc(0, 0, FX_ONE, 0, HALF_PI_FX, Some(false)).unwrap();
    assert_eq!(a.cmds, b.cmds);
}

#[test]
fn arc_rejects_non_positive_radius() {
    let mut p = Path2D::new(None);
    assert_eq!(p.arc(0, 0, 0, 0, HALF_PI_FX, None), Err(CanvasError::InvalidGeometry));
    assert_eq!(p.arc(0, 0, -FX_ONE, 0, HALF_PI_FX, None), Err(CanvasError::InvalidGeometry));
    assert!(p.cmds.is_empty());
}

#[test]
fn ellipse_records_rotation() {
    let mut p = Path2D::new(None);
    p.ellipse(5, 6, 2 * FX_ONE, 3 * FX_ONE, HALF_PI_FX, 0, HALF_PI_FX, None).unwrap();
    match p.cmds[0] {
        PathCmd::Arc { cx, cy, rx, ry, rot_deg, .. } => {
            assert_eq!((cx, cy), (5, 6));
            assert_eq!((rx, ry), (2 * FX_ONE, 3 * FX_ONE));
            assert!((89_900_000..=90_100_000).contains(&rot_deg));
        }
        _ => panic!("expected an arc command"),
    }
}

#[test]
fn ellipse_rejects_non_positive_radii() {
    let mut p = Path2D::new(None);
    assert_eq!(
        p.ellipse(0, 0, 0, FX_ONE, 0, 0, HALF_PI_FX, None),
        Err(CanvasError::InvalidGeometry)
    );
    assert_eq!(
        p.ellipse(0, 0, FX_ONE, -1, 0, 0, HALF_PI_FX, None),
        Err(CanvasError::InvalidGeometry)
    );
    assert!(p.cmds.is_empty());
}
