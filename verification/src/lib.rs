//! Verified core of a browser video-capture pipeline.
//!
//! A capture backend renders frames from a video source onto a fixed-size
//! destination surface under one of four placement policies, then exposes the
//! surface contents as a raw RGBA byte buffer.  The geometry resolver, the
//! pixel-level compositing semantics, the GPU pipeline validation and the
//! per-frame/teardown command sequences are all verified here; the thin glue
//! that drives a real canvas or WebGL context lives outside the library.

use vstd::prelude::*;

pub mod geometry;
pub mod surface;
pub mod blit;
pub mod capture;
pub mod raster;
pub mod gpu;
pub mod img;
pub mod facade;
pub mod options;

pub use facade::BrowserCapture;
pub use gpu::GpuCapture;
pub use options::{
    ColorSpaceType, GLVersion, HtmlContextOptions2D, HtmlContextOptionsGL,
    OffscreenContextOptions2D, OffscreenContextOptionsGL, OffscreenStorageType, PowerPreference,
    SupportedOptions,
};
pub use raster::RasterCapture;
pub use surface::{PixelSurface, VideoFrame};

verus! {

/// Placement policy for mapping a source frame onto the destination surface.
#[derive(Debug, Clone, Copy, PartialEq, Eq, Structural)]
#[non_exhaustive]
pub enum CaptureMode {
    /// Put the video frame at `(x, y)` on the capture area
    /// with original size ignoring capture size.
    Put(i32, i32),
    /// Fill the capture area with the entire video frame.
    Fill,
    /// Resize the capture area to fit the entire video frame.
    /// This is the default mode.
    Adjust,
    /// Put and scale the video frame to cover the capture area
    /// matching centers.
    Pinhole,
}

impl CaptureMode {
    /// The placement that puts the frame at the top-left corner, unscaled.
    pub fn put_top_left() -> (r: Self)
        ensures
            r == CaptureMode::Put(0i32, 0i32),
    {
        CaptureMode::Put(0, 0)
    }
}

impl Default for CaptureMode {
    fn default() -> (r: Self)
        ensures
            r == CaptureMode::Adjust,
    {
        CaptureMode::Adjust
    }
}

/// Output channel semantics, chosen once at backend construction.
#[derive(Debug, Clone, Copy, PartialEq, Eq, Structural)]
pub enum CaptureColor {
    /// Output data as RGBA.
    RGBA,
    /// Output data as RGBA but Alpha channel is luminosity.
    RGBL,
    /// Output data as grayscale RGBA.
    LLLA,
}

impl Default for CaptureColor {
    fn default() -> (r: Self)
        ensures
            r == CaptureColor::RGBA,
    {
        CaptureColor::RGBA
    }
}

/// Read and resize the pixel dimensions of a destination surface.
pub trait CaptureArea: Sized {
    /// Width of the surface, as seen by contracts.
    spec fn area_width(&self) -> u32;

    /// Height of the surface, as seen by contracts.
    spec fn area_height(&self) -> u32;

    /// Get the width of the available capture area in pixels.
    fn capture_width(&self) -> (r: u32)
        ensures
            r == self.area_width(),
    ;

    /// Get the height of the available capture area in pixels.
    fn capture_height(&self) -> (r: u32)
        ensures
            r == self.area_height(),
    ;

    /// Set the width for the capture area.
    fn set_capture_width(&mut self, width: u32)
        requires
            width * old(self).area_height() * 4 <= usize::MAX,
        ensures
            final(self).area_width() == width,
            final(self).area_height() == old(self).area_height(),
    ;

    /// Set the height for the capture area.
    fn set_capture_height(&mut self, height: u32)
        requires
            old(self).area_width() * height * 4 <= usize::MAX,
        ensures
            final(self).area_height() == height,
            final(self).area_width() == old(self).area_width(),
    ;

    /// Get the size of the available capture area in pixels.
    fn capture_size(&self) -> (r: (u32, u32))
        ensures
            r == (self.area_width(), self.area_height()),
    {
        (self.capture_width(), self.capture_height())
    }

    /// Get the capture area in pixels.
    fn capture_area(&self) -> (r: u32)
        requires
            self.area_width() * self.area_height() <= u32::MAX,
        ensures
            r == self.area_width() * self.area_height(),
    {
        self.capture_width() * self.capture_height()
    }

    /// Set the size for the capture area.
    fn set_capture_size(&mut self, width: u32, height: u32)
        requires
            width * old(self).area_height() * 4 <= usize::MAX,
            width * height * 4 <= usize::MAX,
        ensures
            final(self).area_width() == width,
            final(self).area_height() == height,
    {
        self.set_capture_width(width);
        self.set_capture_height(height);
    }
}

} // verus!
