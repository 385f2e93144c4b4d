use canvas2d::error::CanvasError;
use canvas2d::image_data::{pack_pixel_rows, ImageData};

#[test]
fn new_allocates_zeroed_pixels() {
    let d = ImageData::new(2, 3).unwrap();
    assert_eq!(d.width(), 2);
    assert_eq!(d.height(), 3);
    let bytes = d.data();
    assert_eq!(bytes.len(), 24);
    assert!(bytes.iter().all(|b| *b == 0));
}

#[test]
fn from_buffer_with_matching_height() {
    let d = ImageData::from_buffer(vec![9u8; 16], 2, Some(2)).unwrap();
    assert_eq!(d.width(), 2);
    assert_eq!(d.height(), 2);
    assert_eq!(d.data(), vec![9u8; 16]);
}

#[test]
fn from_buffer_rejects_length_mismatch() {
    assert!(matches!(
        ImageData::from_buffer(vec![0u8; 15], 2, Some(2)),
        Err(CanvasError::InvalidArg)
    ));
    assert!(matches!(
        ImageData::from_buffer(vec![0u8; 17], 2, Some(2)),
        Err(CanvasError::InvalidArg)
    ));
}

#[test]
fn from_buffer_derives_height_exactly() {
    // 24 bytes over width 2: height = 24 / (2 * 4) = 3.
    let d = ImageData::from_buffer(vec![0u8; 24], 2, None).unwrap();
    assert_eq!(d.height(), 3);
}

#[test]
fn from_buffer_without_height_rejects_non_multiples() {
    assert!(matches!(
        ImageData::from_buffer(vec![0u8; 15], 2, None),
        Err(CanvasError::InvalidArg)
    ));
    assert!(matches!(
        ImageData::from_buffer(vec![0u8; 1], 1, None),
        Err(CanvasError::InvalidArg)
    ));
}

#[test]
fn from_buffer_without_height_rejects_zero_width() {
    assert!(matches!(
        ImageData::from_buffer(vec![0u8; 8], 0, None),
        Err(CanvasError::InvalidArg)
    ));
}

#[test]
fn pack_rows_drops_stride_and_extra_channels() {
    // Two rows of two pixels, five bytes per pixel, two bytes of row padding.
    let mut src: Vec<u8> = Vec::new();
    for i in 0..24u8 {
        src.push(i);
    }
    let r = pack_pixel_rows(&src, 2, 2, 12, 5);
    assert_eq!(
        r,
        vec![
            0, 1, 2, 3, // row 0, pixel 0
            5, 6, 7, 8, // row 0, pixel 1
            12, 13, 14, 15, // row 1, pixel 0
            17, 18, 19, 20, // row 1, pixel 1
        ]
    );
}

#[test]
fn pack_rows_with_tight_layout_is_identity() {
    let src: Vec<u8> = (0u8..16).collect();
    let r = pack_pixel_rows(&src, 2, 2, 8, 4);
    assert_eq!(r, src);
}
