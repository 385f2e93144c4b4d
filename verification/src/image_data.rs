//! Pixel buffers with an exact size invariant.
//!
//! An `ImageData` owns exactly `width * height * 4` bytes of RGBA8 pixels,
//! row-major, with straight (non-premultiplied) alpha. Constructing one
//! from an externally supplied buffer validates that invariant exactly;
//! a mismatch is a hard construction error, never a silent truncation.

use vstd::prelude::*;

use crate::error::CanvasError;

verus! {

/// Copies a byte buffer.
pub(crate) fn copy_bytes(v: &Vec<u8>) -> (r: Vec<u8>)
    ensures
        r@ == v@,
{
    let mut r: Vec<u8> = Vec::new();
    let mut i: usize = 0;
    while i < v.len()
        invariant
            i <= v.len(),
            r@ == v@.subrange(0, i as int),
        decreases v.len() - i,
    {
        r.push(v[i]);
        proof {
            assert(r@ =~= v@.subrange(0, i + 1 as int));
        }
        i += 1;
    }
    proof {
        assert(r@ =~= v@);
    }
    r
}

/// A pixel buffer of exactly `width * height * 4` RGBA8 bytes.
pub struct ImageData {
    pub width: u32,
    pub height: u32,
    pub data: Vec<u8>,
}

impl ImageData {
    /// The size invariant: the buffer holds one four-byte pixel per cell.
    pub open spec fn wf(&self) -> bool {
        self.data@.len() == self.width * self.height * 4
    }

    /// A transparent-black pixel buffer of the given dimensions. Fails when
    /// the byte count would not fit the machine's addressable size.
    pub fn new(width: u32, height: u32) -> (r: Result<ImageData, CanvasError>)
        ensures
            (if width * height * 4 <= usize::MAX {
                (r matches Ok(d) && d.width == width && d.height == height && d.wf()
                    && (forall|k: int| 0 <= k < d.data@.len() ==> d.data@[k] == 0u8))
            } else {
                r == Err::<ImageData, CanvasError>(CanvasError::InvalidArg)
            }),
    {
        proof {
            assert((width as int) * (height as int) * 4 < 0x1000000000000000000) by (nonlinear_arith)
                requires
                    0 <= width <= 0xffff_ffff,
                    0 <= height <= 0xffff_ffff,
            ;
        }
        let total128: u128 = (width as u128) * (height as u128) * 4;
        if total128 > usize::MAX as u128 {
            return Err(CanvasError::InvalidArg);
        }
        let total = total128 as usize;
        let mut data: Vec<u8> = Vec::new();
        let mut i: usize = 0;
        while i < total
            invariant
                i <= total,
                data@.len() == i,
                forall|k: int| 0 <= k < i ==> data@[k] == 0u8,
            decreases total - i,
        {
            data.push(0);
            i += 1;
        }
        Ok(ImageData { width, height, data })
    }

    /// Wraps an externally supplied buffer. With an explicit height the
    /// buffer length must equal `width * height * 4` exactly; without one
    /// the height is derived as `len / (width * 4)`, which must divide
    /// evenly and fit the height field. Every mismatch is an
    /// [`CanvasError::InvalidArg`] error.
    pub fn from_buffer(data: Vec<u8>, width: u32, height: Option<u32>) -> (r: Result<
        ImageData,
        CanvasError,
    >)
        ensures
            (match height {
                Some(h) => {
                    if width * h * 4 == data@.len() {
                        r matches Ok(d) && d.width == width && d.height == h && d.data@ == data@
                            && d.wf()
                    } else {
                        r == Err::<ImageData, CanvasError>(CanvasError::InvalidArg)
                    }
                },
                None => {
                    if width == 0 {
                        r == Err::<ImageData, CanvasError>(CanvasError::InvalidArg)
                    } else if data@.len() as int % (width as int * 4) != 0 {
                        r == Err::<ImageData, CanvasError>(CanvasError::InvalidArg)
                    } else if data@.len() as int / (width as int * 4) > u32::MAX {
                        r == Err::<ImageData, CanvasError>(CanvasError::InvalidArg)
                    } else {
                        r matches Ok(d) && d.width == width && d.height == (data@.len() as int / (
                        width as int * 4)) as u32 && d.data@ == data@ && d.wf()
                    }
                },
            }),
    {
        let len64: u64 = data.len() as u64;
        match height {
            Some(h) => {
                proof {
                    assert((width as int) * (h as int) * 4 < 0x1000000000000000000)
                        by (nonlinear_arith)
                        requires
                            0 <= width <= 0xffff_ffff,
                            0 <= h <= 0xffff_ffff,
                    ;
                }
                let expect: u128 = (width as u128) * (h as u128) * 4;
                if expect == len64 as u128 {
                    Ok(ImageData { width, height: h, data })
                } else {
                    Err(CanvasError::InvalidArg)
                }
            },
            None => {
                if width == 0 {
                    return Err(CanvasError::InvalidArg);
                }
                let row: u64 = (width as u64) * 4;
                if len64 % row != 0 {
                    return Err(CanvasError::InvalidArg);
                }
                let h64: u64 = len64 / row;
                if h64 > u32::MAX as u64 {
                    return Err(CanvasError::InvalidArg);
                }
                let h32: u32 = h64 as u32;
                proof {
                    assert(h64 * row == len64) by (nonlinear_arith)
                        requires
                            row > 0,
                            len64 % row == 0,
                            h64 == len64 / row,
                    ;
                    assert((width as int) * (h32 as int) * 4 == len64 as int) by (nonlinear_arith)
                        requires
                            row as int == (width as int) * 4,
                            (h64 as int) * (row as int) == len64 as int,
                            h32 as int == h64 as int,
                    ;
                }
                Ok(ImageData { width, height: h32, data })
            },
        }
    }

    /// The width in pixels.
    pub fn width(&self) -> (r: u32)
        ensures
            r == self.width,
    {
        self.width
    }

    /// The height in pixels.
    pub fn height(&self) -> (r: u32)
        ensures
            r == self.height,
    {
        self.height
    }

    /// A copy of the pixel bytes.
    pub fn data(&self) -> (r: Vec<u8>)
        ensures
            r@ == self.data@,
    {
        copy_bytes(&self.data)
    }
}

/// The position of byte `k` of pixel `(x, y)` in a tight RGBA8 buffer of
/// the given width.
pub open spec fn packed_index(width: int, y: int, x: int, k: int) -> int {
    y * (width * 4) + x * 4 + k
}

/// The position of byte `k` of pixel `(x, y)` in a buffer of rows of
/// `row_bytes` bytes whose pixels are `bytes_per_pixel` wide.
pub open spec fn strided_index(row_bytes: int, bytes_per_pixel: int, y: int, x: int, k: int) -> int {
    y * row_bytes + x * bytes_per_pixel + k
}

/// Multiplication by a non-negative factor keeps order.
proof fn lemma_mul_le_mono(a: int, b: int, c: int)
    requires
        a <= b,
        c >= 0,
    ensures
        a * c <= b * c,
{
    assert(a * c <= b * c) by (nonlinear_arith)
        requires
            a <= b,
            c >= 0,
    ;
}

/// One more factor adds one more summand.
proof fn lemma_mul_succ(a: int, c: int)
    ensures
        (a + 1) * c == a * c + c,
{
    assert((a + 1) * c == a * c + c) by (nonlinear_arith);
}

/// Repacks pixel rows that carry a row stride and a wider pixel layout into
/// a tight RGBA8 buffer: the first four bytes of every pixel of every row,
/// rows concatenated without padding. This is the computation with which a
/// backend bitmap's pixels become an [`ImageData`] buffer; the host hands
/// the raw rows in and stores the result.
pub fn pack_pixel_rows(
    src: &Vec<u8>,
    width: u32,
    height: u32,
    row_bytes: usize,
    bytes_per_pixel: usize,
) -> (r: Vec<u8>)
    requires
        bytes_per_pixel >= 4,
        width * bytes_per_pixel <= row_bytes,
        height * row_bytes <= src@.len(),
        width * height * 4 <= usize::MAX,
    ensures
        r@.len() == width * height * 4,
        forall|y: int, x: int, k: int|
            0 <= y < height && 0 <= x < width && 0 <= k < 4 ==> #[trigger] r@[packed_index(
                width as int,
                y,
                x,
                k,
            )] == src@[strided_index(row_bytes as int, bytes_per_pixel as int, y, x, k)],
{
    let mut r: Vec<u8> = Vec::new();
    let src_len: usize = src.len();
    if height == 0 {
        proof {
            assert(width * height * 4 == 0) by (nonlinear_arith)
                requires
                    height == 0,
            ;
        }
        return r;
    }
    proof {
        assert(width * 4 <= width * height * 4 && width * height * 4 == height * (width * 4))
            by (nonlinear_arith)
            requires
                height >= 1,
                width >= 0,
        ;
    }
    let w4: usize = (width as usize) * 4;
    let mut y: usize = 0;
    while y < height as usize
        invariant
            y <= height,
            1 <= height,
            bytes_per_pixel >= 4,
            width * bytes_per_pixel <= row_bytes,
            height * row_bytes <= src@.len(),
            width * height * 4 <= usize::MAX,
            src_len == src@.len(),
            w4 == width * 4,
            width * height * 4 == height * (width * 4),
            r@.len() == y * (width * 4),
            forall|yy: int, x: int, k: int|
                0 <= yy < y && 0 <= x < width && 0 <= k < 4 ==> #[trigger] r@[packed_index(
                    width as int,
                    yy,
                    x,
                    k,
                )] == src@[strided_index(row_bytes as int, bytes_per_pixel as int, yy, x, k)],
        decreases height - y,
    {
        proof {
            lemma_mul_le_mono(y + 1, height as int, width as int * 4);
            lemma_mul_succ(y as int, width as int * 4);
            lemma_mul_le_mono(y + 1, height as int, row_bytes as int);
            lemma_mul_succ(y as int, row_bytes as int);
        }
        let row_base = y * row_bytes;
        let mut x: usize = 0;
        while x < width as usize
            invariant
                y < height,
                x <= width,
                bytes_per_pixel >= 4,
                width * bytes_per_pixel <= row_bytes,
                height * row_bytes <= src@.len(),
                width * height * 4 <= usize::MAX,
                src_len == src@.len(),
                w4 == width * 4,
                width * height * 4 == height * (width * 4),
                row_base == y * row_bytes,
                y * (width * 4) + width * 4 <= height * (width * 4),
                y * row_bytes + row_bytes <= src@.len(),
                r@.len() == y * (width * 4) + x * 4,
                forall|yy: int, xx: int, k: int|
                    0 <= yy < y && 0 <= xx < width && 0 <= k < 4 ==> #[trigger] r@[packed_index(
                        width as int,
                        yy,
                        xx,
                        k,
                    )] == src@[strided_index(row_bytes as int, bytes_per_pixel as int, yy, xx, k)],
                forall|xx: int, k: int|
                    0 <= xx < x && 0 <= k < 4 ==> #[trigger] r@[packed_index(
                        width as int,
                        y as int,
                        xx,
                        k,
                    )] == src@[strided_index(
                        row_bytes as int,
                        bytes_per_pixel as int,
                        y as int,
                        xx,
                        k,
                    )],
            decreases width - x,
        {
            proof {
                lemma_mul_le_mono(x + 1, width as int, bytes_per_pixel as int);
                lemma_mul_succ(x as int, bytes_per_pixel as int);
                lemma_mul_le_mono(x + 1, width as int, 4);
                lemma_mul_succ(x as int, 4);
            }
            let base = row_base + x * bytes_per_pixel;
            let ghost r_before = r@;
            r.push(src[base]);
            r.push(src[base + 1]);
            r.push(src[base + 2]);
            r.push(src[base + 3]);
            proof {
                let w = width as int;
                let rb = row_bytes as int;
                let bpp = bytes_per_pixel as int;
                let yi = y as int;
                let xi = x as int;
                assert forall|xx: int, k: int| 0 <= xx < xi + 1 && 0 <= k < 4 implies #[trigger] r@[
                    packed_index(w, yi, xx, k)] == src@[strided_index(rb, bpp, yi, xx, k)] by {
                    if xx < xi {
                        assert(packed_index(w, yi, xx, k) < r_before.len()) by {
                            lemma_mul_le_mono(xx + 1, xi, 4);
                            lemma_mul_succ(xx, 4);
                        }
                        assert(r@[packed_index(w, yi, xx, k)] == r_before[packed_index(
                            w,
                            yi,
                            xx,
                            k,
                        )]);
                    } else {
                        assert(packed_index(w, yi, xx, k) == r_before.len() + k);
                        assert(strided_index(rb, bpp, yi, xx, k) == base + k);
                    }
                }
                assert forall|yy: int, xx: int, k: int|
                    0 <= yy < yi && 0 <= xx < w && 0 <= k < 4 implies #[trigger] r@[packed_index(
                    w,
                    yy,
                    xx,
                    k,
                )] == src@[strided_index(rb, bpp, yy, xx, k)] by {
                    assert(packed_index(w, yy, xx, k) < yi * (w * 4)) by {
                        lemma_mul_le_mono(yy + 1, yi, w * 4);
                        lemma_mul_succ(yy, w * 4);
                        lemma_mul_le_mono(xx + 1, w, 4);
                        lemma_mul_succ(xx, 4);
                    }
                    assert(r@[packed_index(w, yy, xx, k)] == r_before[packed_index(w, yy, xx, k)]);
                }
            }
            x += 1;
        }
        y += 1;
    }
    r
}

} // verus!
