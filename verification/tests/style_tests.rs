use canvas2d::canvas::HTMLCanvas;
use canvas2d::context::DrawOp;
use canvas2d::error::CanvasError;
use canvas2d::fx::FX_ONE;
use canvas2d::gradient::LinearGradient;
use canvas2d::image_data::ImageData;
use canvas2d::paint::{PaintSource, StyleDescriptor};
use canvas2d::pattern::CanvasPattern;
use canvas2d::shader::{Shader, TileMode};
use canvas2d::style::{
    CompositeOperation, LineCap, LineJoin, TextAlign, TextBaseline,
};

#[test]
fn line_cap_strings_parse_once_at_the_boundary() {
    assert_eq!(LineCap::parse("butt"), Ok(LineCap::Butt));
    assert_eq!(LineCap::parse("round"), Ok(LineCap::Round));
    assert_eq!(LineCap::parse("square"), Ok(LineCap::Square));
    assert_eq!(LineCap::parse("ROUND"), Err(CanvasError::InvalidArg));
}

#[test]
fn line_join_strings_parse() {
    assert_eq!(LineJoin::parse("miter"), Ok(LineJoin::Miter));
    assert_eq!(LineJoin::parse("round"), Ok(LineJoin::Round));
    assert_eq!(LineJoin::parse("bevel"), Ok(LineJoin::Bevel));
    assert_eq!(LineJoin::parse(""), Err(CanvasError::InvalidArg));
}

#[test]
fn text_align_strings_parse() {
    assert_eq!(TextAlign::parse("start"), Ok(TextAlign::Start));
    assert_eq!(TextAlign::parse("end"), Ok(TextAlign::End));
    assert_eq!(TextAlign::parse("left"), Ok(TextAlign::Left));
    assert_eq!(TextAlign::parse("right"), Ok(TextAlign::Right));
    assert_eq!(TextAlign::parse("center"), Ok(TextAlign::Center));
    assert_eq!(TextAlign::parse("middle"), Err(CanvasError::InvalidArg));
}

#[test]
fn text_baseline_strings_parse() {
    assert_eq!(TextBaseline::parse("top"), Ok(TextBaseline::Top));
    assert_eq!(TextBaseline::parse("hanging"), Ok(TextBaseline::Hanging));
    assert_eq!(TextBaseline::parse("middle"), Ok(TextBaseline::Middle));
    assert_eq!(TextBaseline::parse("alphabetic"), Ok(TextBaseline::Alphabetic));
    assert_eq!(TextBaseline::parse("ideographic"), Ok(TextBaseline::Ideographic));
    assert_eq!(TextBaseline::parse("bottom"), Ok(TextBaseline::Bottom));
    assert_eq!(TextBaseline::parse("base"), Err(CanvasError::InvalidArg));
}

#[test]
fn composite_operation_strings_parse() {
    assert_eq!(
        CompositeOperation::parse("source-over"),
        Ok(CompositeOperation::SourceOver)
    );
    assert_eq!(
        CompositeOperation::parse("destination-atop"),
        Ok(CompositeOperation::DestinationAtop)
    );
    assert_eq!(CompositeOperation::parse("xor"), Ok(CompositeOperation::Xor));
    assert_eq!(
        CompositeOperation::parse("color-dodge"),
        Ok(CompositeOperation::ColorDodge)
    );
    assert_eq!(
        CompositeOperation::parse("exclusion"),
        Ok(CompositeOperation::Exclusion)
    );
    assert_eq!(CompositeOperation::parse("plus"), Err(CanvasError::InvalidArg));
}

#[test]
fn gradient_descriptor_fills_with_its_shader() {
    let mut c = HTMLCanvas::new(10, 10).unwrap();
    let mut ctx = c.get_context_2d();
    let mut g = LinearGradient::new(0, 0, 10 * FX_ONE, 0);
    g.add_color_stop(0, "red".to_string()).unwrap();
    g.add_color_stop(FX_ONE, "blue".to_string()).unwrap();
    ctx.set_fill_style_descriptor(StyleDescriptor::Linear(g));
    ctx.fill_rect(&mut c, 0, 0, 10 * FX_ONE, 10 * FX_ONE).unwrap();
    match &c.ops[0] {
        DrawOp::FillRect { paint, .. } => match &paint.source {
            PaintSource::Shader { shader, alpha } => {
                assert_eq!(*alpha, FX_ONE);
                match shader {
                    Shader::Linear { x1, stops, .. } => {
                        assert_eq!(*x1, 10 * FX_ONE);
                        assert_eq!(stops.len(), 2);
                    }
                    _ => panic!("expected a linear gradient shader"),
                }
            }
            _ => panic!("expected a shader paint"),
        },
        _ => panic!("expected a fill-rect operation"),
    }
}

#[test]
fn empty_gradient_descriptor_fails_the_fill() {
    let mut c = HTMLCanvas::new(10, 10).unwrap();
    let mut ctx = c.get_context_2d();
    ctx.set_fill_style_descriptor(StyleDescriptor::Linear(LinearGradient::new(0, 0, 1, 0)));
    assert_eq!(ctx.fill_rect(&mut c, 0, 0, 1, 1), Err(CanvasError::EmptyGradient));
    assert!(c.ops.is_empty());
}

#[test]
fn pattern_descriptor_strokes_with_a_tiled_image() {
    let mut c = HTMLCanvas::new(10, 10).unwrap();
    let mut ctx = c.get_context_2d();
    let img = ImageData::from_buffer(vec![1u8; 4], 1, Some(1)).unwrap();
    let p = CanvasPattern::new(&img, Some("repeat-y".to_string())).unwrap();
    ctx.set_stroke_style_descriptor(StyleDescriptor::Pattern(p));
    ctx.stroke_rect(&mut c, 0, 0, 1, 1).unwrap();
    match &c.ops[0] {
        DrawOp::StrokeRect { paint, .. } => match &paint.source {
            PaintSource::Shader { shader, .. } => match shader {
                Shader::Image { tile_x, tile_y, .. } => {
                    assert_eq!((*tile_x, *tile_y), (TileMode::Clamp, TileMode::Repeat));
                }
                _ => panic!("expected an image shader"),
            },
            _ => panic!("expected a shader paint"),
        },
        _ => panic!("expected a stroke-rect operation"),
    }
}

#[test]
fn style_getters_return_the_descriptor() {
    let c = HTMLCanvas::new(1, 1).unwrap();
    let mut ctx = c.get_context_2d();
    assert!(matches!(ctx.fill_style(), StyleDescriptor::Color(s) if s == "black"));
    ctx.set_stroke_style("teal".to_string());
    assert!(matches!(ctx.stroke_style(), StyleDescriptor::Color(s) if s == "teal"));
}
