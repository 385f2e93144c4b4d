use canvas2d::color::{parse_color_str, Rgba};
use canvas2d::error::CanvasError;

fn rgba(r: u8, g: u8, b: u8, a: u8) -> Rgba {
    Rgba { r, g, b, a }
}

#[test]
fn named_colors_parse() {
    assert_eq!(parse_color_str("black"), Ok(rgba(0, 0, 0, 255)));
    assert_eq!(parse_color_str("white"), Ok(rgba(255, 255, 255, 255)));
    assert_eq!(parse_color_str("red"), Ok(rgba(255, 0, 0, 255)));
    assert_eq!(parse_color_str("lime"), Ok(rgba(0, 255, 0, 255)));
    assert_eq!(parse_color_str("blue"), Ok(rgba(0, 0, 255, 255)));
    assert_eq!(parse_color_str("green"), Ok(rgba(0, 128, 0, 255)));
    assert_eq!(parse_color_str("orange"), Ok(rgba(255, 165, 0, 255)));
    assert_eq!(parse_color_str("transparent"), Ok(rgba(0, 0, 0, 0)));
}

#[test]
fn gray_spellings_agree() {
    assert_eq!(parse_color_str("gray"), parse_color_str("grey"));
    assert_eq!(parse_color_str("cyan"), parse_color_str("aqua"));
    assert_eq!(parse_color_str("magenta"), parse_color_str("fuchsia"));
}

#[test]
fn hex_six_digits() {
    assert_eq!(parse_color_str("#1a2B3c"), Ok(rgba(26, 43, 60, 255)));
    assert_eq!(parse_color_str("#000000"), Ok(rgba(0, 0, 0, 255)));
    assert_eq!(parse_color_str("#ffffff"), Ok(rgba(255, 255, 255, 255)));
}

#[test]
fn hex_eight_digits_carries_alpha() {
    assert_eq!(parse_color_str("#11223344"), Ok(rgba(17, 34, 51, 68)));
    assert_eq!(parse_color_str("#FF000080"), Ok(rgba(255, 0, 0, 128)));
}

#[test]
fn hex_rejects_bad_forms() {
    assert_eq!(parse_color_str("#12345"), Err(CanvasError::InvalidColor));
    assert_eq!(parse_color_str("#12345g"), Err(CanvasError::InvalidColor));
    assert_eq!(parse_color_str("#"), Err(CanvasError::InvalidColor));
}

#[test]
fn rgb_functional_form() {
    assert_eq!(parse_color_str("rgb(1,22,255)"), Ok(rgba(1, 22, 255, 255)));
    assert_eq!(parse_color_str("rgb(0,0,0)"), Ok(rgba(0, 0, 0, 255)));
}

#[test]
fn rgb_rejects_out_of_range_component() {
    assert_eq!(parse_color_str("rgb(256,0,0)"), Err(CanvasError::InvalidColor));
    assert_eq!(parse_color_str("rgb(1000,0,0)"), Err(CanvasError::InvalidColor));
    assert_eq!(parse_color_str("rgb(1,2)"), Err(CanvasError::InvalidColor));
    assert_eq!(parse_color_str("rgb(1,2,3"), Err(CanvasError::InvalidColor));
}

#[test]
fn rgba_integer_alpha() {
    assert_eq!(parse_color_str("rgba(0,0,0,0)"), Ok(rgba(0, 0, 0, 0)));
    assert_eq!(parse_color_str("rgba(1,2,3,1)"), Ok(rgba(1, 2, 3, 255)));
}

#[test]
fn rgba_fractional_alpha_rounds_to_nearest() {
    // 0.5 * 255 = 127.5, rounded up.
    assert_eq!(parse_color_str("rgba(1,2,3,0.5)"), Ok(rgba(1, 2, 3, 128)));
    // .25 * 255 = 63.75, rounded up.
    assert_eq!(parse_color_str("rgba(1,2,3,.25)"), Ok(rgba(1, 2, 3, 64)));
    assert_eq!(parse_color_str("rgba(1,2,3,1.0)"), Ok(rgba(1, 2, 3, 255)));
    assert_eq!(parse_color_str("rgba(1,2,3,0.0)"), Ok(rgba(1, 2, 3, 0)));
}

#[test]
fn rgba_rejects_alpha_outside_unit_range() {
    assert_eq!(parse_color_str("rgba(0,0,0,1.5)"), Err(CanvasError::InvalidColor));
    assert_eq!(parse_color_str("rgba(0,0,0,2)"), Err(CanvasError::InvalidColor));
}

#[test]
fn rgba_rejects_overlong_fraction() {
    assert_eq!(parse_color_str("rgba(0,0,0,0.1234567)"), Err(CanvasError::InvalidColor));
}

#[test]
fn unknown_strings_are_invalid_color() {
    assert_eq!(parse_color_str(""), Err(CanvasError::InvalidColor));
    assert_eq!(parse_color_str("no-such-color"), Err(CanvasError::InvalidColor));
    assert_eq!(parse_color_str("RED"), Err(CanvasError::InvalidColor));
    assert_eq!(parse_color_str("rgb (1,2,3)"), Err(CanvasError::InvalidColor));
}
