use canvas2d::canvas::{ExportRequest, HTMLCanvas, ImageFormat};
use canvas2d::color::Rgba;
use canvas2d::context::DrawOp;
use canvas2d::error::CanvasError;
use canvas2d::geometry::PathCmd;
use canvas2d::fx::FX_ONE;
use canvas2d::paint::PaintSource;
use canvas2d::stack::TransformOp;
use canvas2d::style::{LineCap, LineJoin, TextAlign, TextBaseline};
use canvas2d::version;

#[test]
fn version_names_the_release() {
    assert_eq!(version(), "1.0.0");
}

#[test]
fn new_canvas_is_blank() {
    let c = HTMLCanvas::new(100, 50).unwrap();
    assert_eq!(c.width(), 100);
    assert_eq!(c.height(), 50);
    assert!(c.ops.is_empty());
}

#[test]
fn zero_dimensions_cannot_allocate() {
    assert!(matches!(HTMLCanvas::new(0, 5), Err(CanvasError::BackendAllocation)));
    assert!(matches!(HTMLCanvas::new(5, 0), Err(CanvasError::BackendAllocation)));
    let mut c = HTMLCanvas::new(5, 5).unwrap();
    assert!(matches!(c.resize(0, 1), Err(CanvasError::BackendAllocation)));
    assert_eq!(c.width(), 5);
}

#[test]
fn resize_then_export_is_a_blank_white_snapshot() {
    let mut c = HTMLCanvas::new(5, 5).unwrap();
    let ctx = c.get_context_2d();
    ctx.fill_rect(&mut c, 0, 0, FX_ONE, FX_ONE).unwrap();
    assert_eq!(c.ops.len(), 1);
    c.resize(10, 20).unwrap();
    // Nothing has been drawn since the fresh white surface was swapped in.
    assert!(c.ops.is_empty());
    let req = c.to_buffer(Some("image/png".to_string()), None).unwrap();
    assert_eq!(
        req,
        ExportRequest { width: 10, height: 20, format: ImageFormat::Png, quality: 92 }
    );
}

#[test]
fn set_width_and_height_swap_in_fresh_surfaces() {
    let mut c = HTMLCanvas::new(5, 5).unwrap();
    let ctx = c.get_context_2d();
    ctx.clear_rect(&mut c, 0, 0, FX_ONE, FX_ONE);
    c.set_width(7).unwrap();
    assert_eq!((c.width(), c.height()), (7, 5));
    assert!(c.ops.is_empty());
    ctx.clear_rect(&mut c, 0, 0, FX_ONE, FX_ONE);
    c.set_height(9).unwrap();
    assert_eq!((c.width(), c.height()), (7, 9));
    assert!(c.ops.is_empty());
}

#[test]
fn export_formats_and_default() {
    let c = HTMLCanvas::new(1, 1).unwrap();
    assert_eq!(c.to_buffer(None, None).unwrap().format, ImageFormat::Png);
    assert_eq!(
        c.to_buffer(Some("image/jpeg".to_string()), None).unwrap().format,
        ImageFormat::Jpeg
    );
    assert_eq!(
        c.to_buffer(Some("image/webp".to_string()), None).unwrap().format,
        ImageFormat::Webp
    );
}

#[test]
fn export_rejects_unknown_mime_types() {
    let c = HTMLCanvas::new(1, 1).unwrap();
    assert!(matches!(
        c.to_buffer(Some("image/gif".to_string()), None),
        Err(CanvasError::UnsupportedFormat)
    ));
    assert!(matches!(
        c.to_buffer(Some("".to_string()), None),
        Err(CanvasError::UnsupportedFormat)
    ));
}

#[test]
fn export_quality_is_clamped_and_rounded() {
    let c = HTMLCanvas::new(1, 1).unwrap();
    // Default 0.92 maps to 92.
    assert_eq!(c.to_buffer(None, None).unwrap().quality, 92);
    assert_eq!(c.to_buffer(None, Some(FX_ONE)).unwrap().quality, 100);
    assert_eq!(c.to_buffer(None, Some(2 * FX_ONE)).unwrap().quality, 100);
    assert_eq!(c.to_buffer(None, Some(-5)).unwrap().quality, 0);
    // 0.925 rounds to 93.
    assert_eq!(c.to_buffer(None, Some(925_000)).unwrap().quality, 93);
}

#[test]
fn fresh_context_has_host_spec_defaults() {
    let c = HTMLCanvas::new(1, 1).unwrap();
    let ctx = c.get_context_2d();
    assert_eq!(ctx.line_width(), FX_ONE);
    assert_eq!(ctx.line_cap, LineCap::Butt);
    assert_eq!(ctx.line_join, LineJoin::Miter);
    assert_eq!(ctx.miter_limit, 10 * FX_ONE);
    assert_eq!(ctx.font, "10px sans-serif");
    assert_eq!(ctx.text_align, TextAlign::Start);
    assert_eq!(ctx.text_baseline, TextBaseline::Alphabetic);
    assert_eq!(ctx.global_alpha, FX_ONE);
    assert_eq!(ctx.shadow_color, "rgba(0,0,0,0)");
    assert_eq!(ctx.transform_stack, vec![vec![]]);
    assert!(ctx.current_path.cmds.is_empty());
}

#[test]
fn fill_rect_records_the_resolved_red_paint() {
    let mut c = HTMLCanvas::new(100, 100).unwrap();
    let mut ctx = c.get_context_2d();
    ctx.set_fill_style("red".to_string());
    ctx.fill_rect(&mut c, 0, 0, 50 * FX_ONE, 50 * FX_ONE).unwrap();
    assert_eq!(c.ops.len(), 1);
    match &c.ops[0] {
        DrawOp::FillRect { x, y, w, h, paint } => {
            assert_eq!((*x, *y, *w, *h), (0, 0, 50 * FX_ONE, 50 * FX_ONE));
            assert!(paint.stroke.is_none());
            match paint.source {
                PaintSource::Solid(col) => {
                    assert_eq!(col, Rgba { r: 255, g: 0, b: 0, a: 255 });
                }
                _ => panic!("expected a solid paint"),
            }
        }
        _ => panic!("expected a fill-rect operation"),
    }
    // The snapshot to encode is this one red square over the white base.
    let req = c.to_buffer(Some("image/png".to_string()), None).unwrap();
    assert_eq!((req.width, req.height), (100, 100));
}

#[test]
fn global_alpha_scales_the_resolved_alpha() {
    let mut c = HTMLCanvas::new(10, 10).unwrap();
    let mut ctx = c.get_context_2d();
    ctx.global_alpha = 500_000;
    ctx.set_fill_style("white".to_string());
    ctx.fill_rect(&mut c, 0, 0, FX_ONE, FX_ONE).unwrap();
    match &c.ops[0] {
        DrawOp::FillRect { paint, .. } => match paint.source {
            PaintSource::Solid(col) => {
                // 255 * 0.5 = 127.5, rounded to the nearest step.
                assert_eq!(col, Rgba { r: 255, g: 255, b: 255, a: 128 });
            }
            _ => panic!("expected a solid paint"),
        },
        _ => panic!("expected a fill-rect operation"),
    }
}

#[test]
fn unresolvable_fill_style_fails_and_draws_nothing() {
    let mut c = HTMLCanvas::new(10, 10).unwrap();
    let mut ctx = c.get_context_2d();
    ctx.set_fill_style("bogus".to_string());
    assert_eq!(ctx.fill_rect(&mut c, 0, 0, 1, 1), Err(CanvasError::InvalidColor));
    assert_eq!(ctx.fill(&mut c), Err(CanvasError::InvalidColor));
    assert!(c.ops.is_empty());
}

#[test]
fn stroke_rect_carries_the_stroke_parameters() {
    let mut c = HTMLCanvas::new(10, 10).unwrap();
    let mut ctx = c.get_context_2d();
    ctx.set_line_width(3 * FX_ONE);
    ctx.line_cap = LineCap::Round;
    ctx.stroke_rect(&mut c, 1, 2, 3, 4).unwrap();
    match &c.ops[0] {
        DrawOp::StrokeRect { paint, .. } => {
            let props = paint.stroke.expect("a stroke paint carries stroke parameters");
            assert_eq!(props.width, 3 * FX_ONE);
            assert_eq!(props.cap, LineCap::Round);
            assert_eq!(props.join, LineJoin::Miter);
            assert_eq!(props.miter_limit, 10 * FX_ONE);
        }
        _ => panic!("expected a stroke-rect operation"),
    }
}

#[test]
fn fill_submits_a_copy_of_the_current_path() {
    let mut c = HTMLCanvas::new(10, 10).unwrap();
    let mut ctx = c.get_context_2d();
    ctx.move_to(0, 0);
    ctx.line_to(FX_ONE, 0);
    ctx.close_path();
    ctx.fill(&mut c).unwrap();
    match &c.ops[0] {
        DrawOp::FillPath { path, .. } => {
            assert_eq!(path, &ctx.current_path.cmds);
        }
        _ => panic!("expected a fill-path operation"),
    }
    // The current path survives the fill.
    assert_eq!(ctx.current_path.cmds.len(), 3);
}

#[test]
fn begin_path_resets_the_current_path() {
    let c = HTMLCanvas::new(10, 10).unwrap();
    let mut ctx = c.get_context_2d();
    ctx.move_to(1, 2);
    ctx.begin_path();
    assert!(ctx.current_path.cmds.is_empty());
}

#[test]
fn fill_text_forwards_text_settings() {
    let mut c = HTMLCanvas::new(10, 10).unwrap();
    let mut ctx = c.get_context_2d();
    ctx.text_align = TextAlign::Center;
    ctx.fill_text(&mut c, "hi".to_string(), 3, 4, None).unwrap();
    match &c.ops[0] {
        DrawOp::FillText { text, x, y, font, align, baseline, .. } => {
            assert_eq!(text, "hi");
            assert_eq!((*x, *y), (3, 4));
            assert_eq!(font, "10px sans-serif");
            assert_eq!(*align, TextAlign::Center);
            assert_eq!(*baseline, TextBaseline::Alphabetic);
        }
        _ => panic!("expected a fill-text operation"),
    }
}

#[test]
fn stroke_text_uses_the_stroke_style() {
    let mut c = HTMLCanvas::new(10, 10).unwrap();
    let mut ctx = c.get_context_2d();
    ctx.set_stroke_style("blue".to_string());
    ctx.stroke_text(&mut c, "hi".to_string(), 0, 0, Some(FX_ONE)).unwrap();
    match &c.ops[0] {
        DrawOp::StrokeText { max_width, paint, .. } => {
            assert_eq!(*max_width, Some(FX_ONE));
            assert!(paint.stroke.is_some());
            match paint.source {
                PaintSource::Solid(col) => {
                    assert_eq!(col, Rgba { r: 0, g: 0, b: 255, a: 255 });
                }
                _ => panic!("expected a solid paint"),
            }
        }
        _ => panic!("expected a stroke-text operation"),
    }
}

#[test]
fn save_restore_depth_never_drops_below_one() {
    let mut c = HTMLCanvas::new(10, 10).unwrap();
    let mut ctx = c.get_context_2d();
    assert_eq!(ctx.transform_stack.len(), 1);
    ctx.restore(&mut c);
    assert_eq!(ctx.transform_stack.len(), 1);
    ctx.save(&mut c);
    ctx.save(&mut c);
    assert_eq!(ctx.transform_stack.len(), 3);
    ctx.restore(&mut c);
    ctx.restore(&mut c);
    ctx.restore(&mut c);
    ctx.restore(&mut c);
    assert_eq!(ctx.transform_stack.len(), 1);
}

#[test]
fn matching_restores_return_the_pre_save_transform() {
    let mut c = HTMLCanvas::new(10, 10).unwrap();
    let mut ctx = c.get_context_2d();
    ctx.translate(&mut c, 5, 6);
    let before = ctx.transform_stack.last().unwrap().clone();
    ctx.save(&mut c);
    ctx.rotate(&mut c, 1_570_796);
    ctx.save(&mut c);
    ctx.scale(&mut c, 2 * FX_ONE, 2 * FX_ONE);
    ctx.restore(&mut c);
    ctx.restore(&mut c);
    assert_eq!(ctx.transform_stack.len(), 1);
    assert_eq!(ctx.transform_stack.last().unwrap(), &before);
    assert_eq!(before, vec![TransformOp::Translate { x: 5, y: 6 }]);
}

#[test]
fn transforms_are_mirrored_to_the_backend_in_step() {
    let mut c = HTMLCanvas::new(10, 10).unwrap();
    let mut ctx = c.get_context_2d();
    ctx.save(&mut c);
    ctx.translate(&mut c, 1, 2);
    ctx.restore(&mut c);
    // The extra restore is a no-op on the stack and on the backend alike.
    ctx.restore(&mut c);
    let kinds: Vec<&DrawOp> = c.ops.iter().collect();
    assert_eq!(kinds.len(), 3);
    assert!(matches!(kinds[0], DrawOp::Save));
    assert!(matches!(kinds[1], DrawOp::Translate { x: 1, y: 2 }));
    assert!(matches!(kinds[2], DrawOp::Restore));
}

#[test]
fn clear_rect_records_a_transparent_rectangle() {
    let mut c = HTMLCanvas::new(10, 10).unwrap();
    let ctx = c.get_context_2d();
    ctx.clear_rect(&mut c, 1, 2, 3, 4);
    assert!(matches!(c.ops[0], DrawOp::ClearRect { x: 1, y: 2, w: 3, h: 4 }));
}

#[test]
fn error_messages_name_the_failure() {
    assert_eq!(CanvasError::Encoding.message(), "failed to encode image");
    assert_eq!(CanvasError::BackendAllocation.message(), "failed to allocate surface");
}

#[test]
fn context_arc_validates_and_converts() {
    let c = HTMLCanvas::new(1, 1).unwrap();
    let mut ctx = c.get_context_2d();
    assert_eq!(ctx.arc(0, 0, 0, 0, 1_570_796, None), Err(CanvasError::InvalidGeometry));
    assert!(ctx.current_path.cmds.is_empty());
    ctx.arc(0, 0, FX_ONE, 0, 1_570_796, None).unwrap();
    match ctx.current_path.cmds[0] {
        PathCmd::Arc { sweep_deg, start_deg, .. } => {
            assert_eq!(start_deg, 0);
            assert!((89_900_000..=90_100_000).contains(&sweep_deg));
        }
        _ => panic!("expected an arc command"),
    }
}

#[test]
fn context_rect_and_curves_build_the_current_path() {
    let c = HTMLCanvas::new(1, 1).unwrap();
    let mut ctx = c.get_context_2d();
    ctx.rect(1, 2, 3, 4);
    ctx.quadratic_curve_to(1, 2, 3, 4);
    ctx.bezier_curve_to(1, 2, 3, 4, 5, 6);
    assert_eq!(
        ctx.current_path.cmds,
        vec![
            PathCmd::AddRect { x: 1, y: 2, w: 3, h: 4 },
            PathCmd::QuadTo { cx: 1, cy: 2, x: 3, y: 4 },
            PathCmd::CubicTo { c1x: 1, c1y: 2, c2x: 3, c2y: 4, x: 5, y: 6 },
        ]
    );
}
