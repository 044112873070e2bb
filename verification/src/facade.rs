//! The capture facade: the closed set of backend variants behind one
//! contract, dispatched by a flat match.  No behaviour differs between the
//! variants beyond which implementation runs.

use vstd::prelude::*;

use crate::{CaptureArea, CaptureColor, CaptureMode};
use crate::capture::capture_rel;
use crate::geometry::output_size;
use crate::gpu::GpuCapture;
use crate::raster::RasterCapture;
use crate::surface::{PixelSurface, VideoFrame};

verus! {

/// A capture backend of either kind.
#[derive(Debug, Clone, PartialEq, Eq)]
pub enum BrowserCapture {
    /// Immediate 2D drawing with pixel readback.
    Raster(RasterCapture),
    /// The persistent GPU shader pipeline.
    Gpu(GpuCapture),
}

impl BrowserCapture {
    /// The destination surface of whichever backend this is.
    pub open spec fn surface(&self) -> PixelSurface {
        match self {
            BrowserCapture::Raster(c) => c.surface,
            BrowserCapture::Gpu(c) => c.surface,
        }
    }

    /// The colour semantics the backend draws with: the raster path always
    /// draws true colour, the GPU path applies its fragment logic.
    pub open spec fn draw_color(&self) -> CaptureColor {
        match self {
            BrowserCapture::Raster(_) => CaptureColor::RGBA,
            BrowserCapture::Gpu(c) => c.color,
        }
    }

    /// The backend is usable: its surface buffer matches its size.
    pub open spec fn wf(&self) -> bool {
        self.surface().wf()
    }

    /// Whether capture may be called: the raster path always, the GPU path
    /// only with a valid pipeline.
    pub open spec fn is_ready(&self) -> bool {
        match self {
            BrowserCapture::Raster(_) => true,
            BrowserCapture::Gpu(c) => c.pipeline.valid(),
        }
    }

    /// Get the number of channels in the capture buffer.
    pub fn channels_count(&self) -> (r: u32)
        ensures
            r == 4,
    {
        match self {
            BrowserCapture::Raster(c) => c.channels_count(),
            BrowserCapture::Gpu(c) => c.channels_count(),
        }
    }

    /// Get the size of the capture buffer in bytes.
    pub fn buffer_size(&self) -> (r: usize)
        requires
            self.wf(),
        ensures
            r == self.surface().width * self.surface().height * 4,
    {
        match self {
            BrowserCapture::Raster(c) => c.buffer_size(),
            BrowserCapture::Gpu(c) => c.buffer_size(),
        }
    }

    /// Capture a frame from the video source.
    pub fn capture(&mut self, source: &VideoFrame, mode: CaptureMode) -> (out: (u32, u32))
        requires
            old(self).wf(),
            old(self).is_ready(),
            source.wf(),
        ensures
            final(self).wf(),
            final(self).is_ready(),
            final(self).draw_color() == old(self).draw_color(),
            capture_rel(
                old(self).surface(),
                *source,
                mode,
                old(self).draw_color(),
                final(self).surface(),
                out,
            ),
    {
        match self {
            BrowserCapture::Raster(c) => c.capture(source, mode),
            BrowserCapture::Gpu(c) => c.capture(source, mode),
        }
    }

    /// Retrieve the grabbed frame raw data into the buffer, whose length
    /// must equal the buffer size.
    pub fn retrieve(&self, buffer: &mut Vec<u8>)
        requires
            self.wf(),
            old(buffer)@.len() == self.surface().width * self.surface().height * 4,
        ensures
            final(buffer)@ == self.surface().data@,
    {
        match self {
            BrowserCapture::Raster(c) => c.retrieve(buffer),
            BrowserCapture::Gpu(c) => c.retrieve(buffer),
        }
    }

    /// Get the raw data from the captured frame.  The result always holds
    /// exactly width * height * channel count bytes.
    pub fn data(&self) -> (r: Vec<u8>)
        requires
            self.wf(),
        ensures
            r@ == self.surface().data@,
            r@.len() == self.surface().width * self.surface().height * 4,
    {
        match self {
            BrowserCapture::Raster(c) => c.data(),
            BrowserCapture::Gpu(c) => c.data(),
        }
    }

    /// Read the raw data from the video source: capture, then retrieve at
    /// the new surface size.
    pub fn read(&mut self, source: &VideoFrame, mode: CaptureMode) -> (r: Vec<u8>)
        requires
            old(self).wf(),
            old(self).is_ready(),
            source.wf(),
        ensures
            final(self).wf(),
            final(self).is_ready(),
            final(self).draw_color() == old(self).draw_color(),
            capture_rel(
                old(self).surface(),
                *source,
                mode,
                old(self).draw_color(),
                final(self).surface(),
                output_size(
                    mode,
                    source.width,
                    source.height,
                    old(self).surface().width,
                    old(self).surface().height,
                ),
            ),
            r@ == final(self).surface().data@,
    {
        match self {
            BrowserCapture::Raster(c) => c.read(source, mode),
            BrowserCapture::Gpu(c) => c.read(source, mode),
        }
    }

    /// Colour layout of the capture buffer: four 8-bit channels.
    pub fn color_type(&self) -> image::ColorType {
        match self {
            BrowserCapture::Raster(c) => c.color_type(),
            BrowserCapture::Gpu(c) => c.color_type(),
        }
    }

    /// The captured frame as an image container; always succeeds.
    pub fn image(&self) -> (r: Option<image::DynamicImage>)
        requires
            self.wf(),
        ensures
            r.is_some(),
    {
        match self {
            BrowserCapture::Raster(c) => c.image(),
            BrowserCapture::Gpu(c) => c.image(),
        }
    }

    /// Clear the capture area to fully transparent black.
    pub fn clear(&mut self)
        requires
            old(self).wf(),
        ensures
            final(self).wf(),
            final(self).is_ready() == old(self).is_ready(),
            final(self).draw_color() == old(self).draw_color(),
            final(self).surface().width == old(self).surface().width,
            final(self).surface().height == old(self).surface().height,
            final(self).surface().all_zero(),
    {
        match self {
            BrowserCapture::Raster(c) => c.clear(),
            BrowserCapture::Gpu(c) => c.clear(),
        }
    }
}

impl From<RasterCapture> for BrowserCapture {
    fn from(value: RasterCapture) -> (r: Self) {
        BrowserCapture::Raster(value)
    }
}

impl vstd::std_specs::convert::FromSpecImpl<RasterCapture> for BrowserCapture {
    open spec fn obeys_from_spec() -> bool {
        true
    }

    open spec fn from_spec(value: RasterCapture) -> Self {
        BrowserCapture::Raster(value)
    }
}

impl From<GpuCapture> for BrowserCapture {
    fn from(value: GpuCapture) -> (r: Self) {
        BrowserCapture::Gpu(value)
    }
}

impl vstd::std_specs::convert::FromSpecImpl<GpuCapture> for BrowserCapture {
    open spec fn obeys_from_spec() -> bool {
        true
    }

    open spec fn from_spec(value: GpuCapture) -> Self {
        BrowserCapture::Gpu(value)
    }
}

impl CaptureArea for BrowserCapture {
    open spec fn area_width(&self) -> u32 {
        self.surface().width
    }

    open spec fn area_height(&self) -> u32 {
        self.surface().height
    }

    fn capture_width(&self) -> (r: u32) {
        match self {
            BrowserCapture::Raster(c) => c.capture_width(),
            BrowserCapture::Gpu(c) => c.capture_width(),
        }
    }

    fn capture_height(&self) -> (r: u32) {
        match self {
            BrowserCapture::Raster(c) => c.capture_height(),
            BrowserCapture::Gpu(c) => c.capture_height(),
        }
    }

    fn set_capture_width(&mut self, width: u32) {
        match self {
            BrowserCapture::Raster(c) => c.set_capture_width(width),
            BrowserCapture::Gpu(c) => c.set_capture_width(width),
        }
    }

    fn set_capture_height(&mut self, height: u32) {
        match self {
            BrowserCapture::Raster(c) => c.set_capture_height(height),
            BrowserCapture::Gpu(c) => c.set_capture_height(height),
        }
    }
}

} // verus!
