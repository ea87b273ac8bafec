//! Core of an OCR tool: the recognition engine with its pluggable backend,
//! the job dispatcher with generation-based cancellation, and the
//! application state machine that sequences image load, recognition and
//! display.  All user-interface plumbing lives outside this crate.

pub mod app;
pub mod numfmt;
pub mod ocr;
pub mod text;
pub mod ui;

use vstd::prelude::*;

verus! {

/// A decoded image as the recognition core sees it: the pixel dimensions.
/// Decoding itself is done by the caller; the core never touches pixel data.
#[derive(Debug, Clone, Copy, PartialEq, Eq, Structural)]
pub struct ImageInfo {
    pub width: u32,
    pub height: u32,
}

impl ImageInfo {
    /// Total number of pixels, as a mathematical value.
    pub open spec fn spec_pixel_count(&self) -> int {
        self.width * self.height
    }

    pub fn new(width: u32, height: u32) -> (r: ImageInfo)
        ensures
            r.width == width,
            r.height == height,
    {
        ImageInfo { width, height }
    }

    /// Number of pixels; fits in `u64` because both sides fit in `u32`.
    pub fn pixel_count(&self) -> (r: u64)
        ensures
            r == self.spec_pixel_count(),
    {
        proof {
            assert(self.width * self.height <= u32::MAX * u32::MAX as int) by (nonlinear_arith)
                requires
                    self.width <= u32::MAX,
                    self.height <= u32::MAX,
            ;
        }
        (self.width as u64) * (self.height as u64)
    }
}

} // verus!
