//! The canvas surface: dimensions, the display list standing for the
//! backing pixel surface, and export.
//!
//! The surface's pixel content is modeled as an opaque white base with the
//! recorded drawing operations applied in order; the host owns the real
//! backend surface and replays the list against it. Creation and resize
//! give a fresh white-cleared surface, so both empty the list; export
//! validates the format and quality and hands the host an encode request
//! for the current snapshot.

use vstd::prelude::*;

use crate::context::{ops_log, CanvasRenderingContext2D, DrawOp, DrawOpModel};
use crate::error::CanvasError;
use crate::fx::{fx_quality_int, quality_int};
use crate::strutil::str_eq;

verus! {

/// An image encoding the backend supports.
#[derive(Clone, Copy, Debug, PartialEq, Eq, Structural)]
pub enum ImageFormat {
    Png,
    Jpeg,
    Webp,
}

/// The format a MIME type string names.
pub open spec fn image_format_of(s: Seq<char>) -> Option<ImageFormat> {
    if s == "image/png"@ {
        Some(ImageFormat::Png)
    } else if s == "image/jpeg"@ {
        Some(ImageFormat::Jpeg)
    } else if s == "image/webp"@ {
        Some(ImageFormat::Webp)
    } else {
        None
    }
}

/// The export quality: the given fixed-point value, or 0.92 when absent,
/// clamped to `[0, 1]`, scaled to 0–100 and rounded.
pub open spec fn quality_choice(quality: Option<i64>) -> int {
    match quality {
        Some(q) => quality_int(q as int),
        None => quality_int(920_000),
    }
}

/// What the host must encode: the snapshot's dimensions, the validated
/// format, and the backend quality. The pixels themselves are the
/// surface's white base with its display list applied.
#[derive(Clone, Copy, Debug, PartialEq, Eq, Structural)]
pub struct ExportRequest {
    pub width: u32,
    pub height: u32,
    pub format: ImageFormat,
    pub quality: u8,
}

/// A drawing surface: its dimensions and the display list drawn onto the
/// white-cleared base since creation or the last resize.
pub struct HTMLCanvas {
    pub width: u32,
    pub height: u32,
    /// The operations submitted to the backend, oldest first.
    pub ops: Vec<DrawOp>,
}

impl HTMLCanvas {
    /// The mathematical value of the display list.
    pub open spec fn log(&self) -> Seq<DrawOpModel> {
        ops_log(self.ops@)
    }

    /// A surface of the given dimensions, cleared to opaque white. A zero
    /// dimension is a [`CanvasError::BackendAllocation`] error, as the
    /// backend cannot allocate such a surface.
    pub fn new(width: u32, height: u32) -> (r: Result<HTMLCanvas, CanvasError>)
        ensures
            (if width == 0 || height == 0 {
                r == Err::<HTMLCanvas, CanvasError>(CanvasError::BackendAllocation)
            } else {
                r matches Ok(c) && c.width == width && c.height == height && c.log()
                    == Seq::<DrawOpModel>::empty()
            }),
    {
        if width == 0 || height == 0 {
            return Err(CanvasError::BackendAllocation);
        }
        let c = HTMLCanvas { width, height, ops: Vec::new() };
        proof {
            assert(c.log() =~= Seq::<DrawOpModel>::empty());
        }
        Ok(c)
    }

    /// The width in pixels.
    pub fn width(&self) -> (r: u32)
        ensures
            r == self.width,
    {
        self.width
    }

    /// The height in pixels.
    pub fn height(&self) -> (r: u32)
        ensures
            r == self.height,
    {
        self.height
    }

    /// Replaces the backing surface by a fresh white-cleared one of the
    /// given dimensions, dropping all prior pixel content; the swap is
    /// atomic, as the surface is held exclusively for the whole call. A
    /// zero dimension is a [`CanvasError::BackendAllocation`] error and
    /// changes nothing.
    pub fn resize(&mut self, width: u32, height: u32) -> (r: Result<(), CanvasError>)
        ensures
            (if width == 0 || height == 0 {
                r == Err::<(), CanvasError>(CanvasError::BackendAllocation) && *final(self) == *old(self)
            } else {
                r == Ok::<(), CanvasError>(()) && final(self).width == width && final(self).height
                    == height && final(self).log() == Seq::<DrawOpModel>::empty()
            }),
    {
        if width == 0 || height == 0 {
            return Err(CanvasError::BackendAllocation);
        }
        self.width = width;
        self.height = height;
        self.ops.clear();
        proof {
            assert(self.log() =~= Seq::<DrawOpModel>::empty());
        }
        Ok(())
    }

    /// Sets the width, resizing to a fresh white surface.
    pub fn set_width(&mut self, width: u32) -> (r: Result<(), CanvasError>)
        ensures
            (if width == 0 || old(self).height == 0 {
                r == Err::<(), CanvasError>(CanvasError::BackendAllocation) && *final(self) == *old(self)
            } else {
                r == Ok::<(), CanvasError>(()) && final(self).width == width && final(self).height
                    == old(self).height && final(self).log() == Seq::<DrawOpModel>::empty()
            }),
    {
        let height = self.height;
        self.resize(width, height)
    }

    /// Sets the height, resizing to a fresh white surface.
    pub fn set_height(&mut self, height: u32) -> (r: Result<(), CanvasError>)
        ensures
            (if old(self).width == 0 || height == 0 {
                r == Err::<(), CanvasError>(CanvasError::BackendAllocation) && *final(self) == *old(self)
            } else {
                r == Ok::<(), CanvasError>(()) && final(self).width == old(self).width && final(self).height == height && final(self).log() == Seq::<DrawOpModel>::empty()
            }),
    {
        let width = self.width;
        self.resize(width, height)
    }

    /// The drawing context bound to this surface, with every property at
    /// its default.
    pub fn get_context_2d(&self) -> (r: CanvasRenderingContext2D)
        ensures
            crate::context::is_default_context(r),
            r.wf(),
    {
        CanvasRenderingContext2D::new(self)
    }

    /// Validates an export: the MIME type must be one of `image/png`,
    /// `image/jpeg` or `image/webp` (absent means PNG), the quality — a
    /// fixed-point value, 0.92 when absent — is clamped to `[0, 1]` and
    /// scaled to the backend's integer range. The returned request asks the
    /// host to snapshot the current pixels and encode them.
    pub fn to_buffer(&self, mime_type: Option<String>, quality: Option<i64>) -> (r: Result<
        ExportRequest,
        CanvasError,
    >)
        ensures
            (match mime_type {
                None => r matches Ok(req) && req == (ExportRequest {
                    width: self.width,
                    height: self.height,
                    format: ImageFormat::Png,
                    quality: quality_choice(quality) as u8,
                }),
                Some(m) => match image_format_of(m@) {
                    Some(f) => r matches Ok(req) && req == (ExportRequest {
                        width: self.width,
                        height: self.height,
                        format: f,
                        quality: quality_choice(quality) as u8,
                    }),
                    None => r == Err::<ExportRequest, CanvasError>(CanvasError::UnsupportedFormat),
                },
            }),
    {
        let format = match &mime_type {
            None => ImageFormat::Png,
            Some(m) => {
                if str_eq(m.as_str(), "image/png") {
                    ImageFormat::Png
                } else if str_eq(m.as_str(), "image/jpeg") {
                    ImageFormat::Jpeg
                } else if str_eq(m.as_str(), "image/webp") {
                    ImageFormat::Webp
                } else {
                    return Err(CanvasError::UnsupportedFormat);
                }
            },
        };
        let q = match quality {
            Some(q) => q,
            None => 920_000,
        };
        Ok(
            ExportRequest {
                width: self.width,
                height: self.height,
                format,
                quality: fx_quality_int(q),
            },
        )
    }
}

/// Exporting right after a resize snapshots an untouched surface: the
/// encode request carries exactly the new dimensions and the PNG format,
/// and the display list is empty, so the snapshot is the bare white base —
/// a correct backend decodes it to an entirely opaque white image of
/// exactly the new size.
pub proof fn lemma_export_after_resize(
    c: HTMLCanvas,
    w: u32,
    h: u32,
    quality: Option<i64>,
    req: ExportRequest,
)
    requires
        c.width == w,
        c.height == h,
        c.log() == Seq::<DrawOpModel>::empty(),
        req == (ExportRequest {
            width: c.width,
            height: c.height,
            format: ImageFormat::Png,
            quality: quality_choice(quality) as u8,
        }),
    ensures
        req.width == w,
        req.height == h,
        req.format == ImageFormat::Png,
        c.log().len() == 0,
{
}

} // verus!
