//! The raster backend: capture by immediate drawing into an in-memory 2D
//! surface and reading the pixels back.  The 2D path always draws in true
//! colour; the colour mode only selects fragment logic on the GPU path.

use vstd::prelude::*;

use crate::{CaptureArea, CaptureColor, CaptureMode};
use crate::capture::{apply_capture, capture_rel};
use crate::surface::{copy_into, zeroed, PixelSurface, VideoFrame};

verus! {

/// A capture backend drawing on a software 2D surface.
#[derive(Debug, Clone, PartialEq, Eq)]
pub struct RasterCapture {
    pub surface: PixelSurface,
    pub color: CaptureColor,
}

impl RasterCapture {
    /// The backend is usable: its surface buffer matches its size.
    pub open spec fn wf(&self) -> bool {
        self.surface.wf()
    }

    /// A fresh backend over a transparent black surface of the given size.
    pub fn new(width: u32, height: u32, color: CaptureColor) -> (r: RasterCapture)
        requires
            width * height * 4 <= usize::MAX,
        ensures
            r.wf(),
            r.surface.width == width,
            r.surface.height == height,
            r.surface.all_zero(),
            r.color == color,
    {
        RasterCapture { surface: PixelSurface::new(width, height), color }
    }

    /// Get the number of channels in the capture buffer.
    pub fn channels_count(&self) -> (r: u32)
        ensures
            r == 4,
    {
        4
    }

    /// Get the size of the capture buffer in bytes.
    pub fn buffer_size(&self) -> (r: usize)
        requires
            self.wf(),
        ensures
            r == self.surface.width * self.surface.height * 4,
    {
        self.surface.data.len()
    }

    /// Capture a frame from the video source.
    pub fn capture(&mut self, source: &VideoFrame, mode: CaptureMode) -> (out: (u32, u32))
        requires
            old(self).wf(),
            source.wf(),
        ensures
            final(self).wf(),
            final(self).color == old(self).color,
            capture_rel(
                old(self).surface,
                *source,
                mode,
                CaptureColor::RGBA,
                final(self).surface,
                out,
            ),
    {
        apply_capture(&mut self.surface, source, mode, CaptureColor::RGBA)
    }

    /// Retrieve the grabbed frame raw data into the buffer, whose length
    /// must equal the buffer size.
    pub fn retrieve(&self, buffer: &mut Vec<u8>)
        requires
            self.wf(),
            old(buffer)@.len() == self.surface.width * self.surface.height * 4,
        ensures
            final(buffer)@ == self.surface.data@,
    {
        copy_into(&self.surface.data, buffer);
    }

    /// Get the raw data from the captured frame.  The result always holds
    /// exactly width * height * channel count bytes.
    pub fn data(&self) -> (r: Vec<u8>)
        requires
            self.wf(),
        ensures
            r@ == self.surface.data@,
            r@.len() == self.surface.width * self.surface.height * 4,
    {
        let mut buffer = zeroed(self.buffer_size());
        self.retrieve(&mut buffer);
        buffer
    }

    /// Read the raw data from the video source: capture, then retrieve at
    /// the new surface size.
    pub fn read(&mut self, source: &VideoFrame, mode: CaptureMode) -> (r: Vec<u8>)
        requires
            old(self).wf(),
            source.wf(),
        ensures
            final(self).wf(),
            final(self).color == old(self).color,
            capture_rel(
                old(self).surface,
                *source,
                mode,
                CaptureColor::RGBA,
                final(self).surface,
                crate::geometry::output_size(
                    mode,
                    source.width,
                    source.height,
                    old(self).surface.width,
                    old(self).surface.height,
                ),
            ),
            r@ == final(self).surface.data@,
    {
        let out = self.capture(source, mode);
        assert(capture_rel(
            old(self).surface,
            *source,
            mode,
            CaptureColor::RGBA,
            self.surface,
            out,
        ));
        self.data()
    }

    /// Colour layout of the capture buffer: four 8-bit channels.
    pub fn color_type(&self) -> image::ColorType {
        crate::img::rgba_color_type()
    }

    /// The captured frame as an image container.  It always succeeds,
    /// because the buffer length always matches the surface size.
    pub fn image(&self) -> (r: Option<image::DynamicImage>)
        requires
            self.wf(),
        ensures
            r.is_some(),
    {
        let width = self.surface.width;
        let height = self.surface.height;
        let data = self.data();
        crate::img::rgba_image_from_raw(width, height, data)
    }

    /// Clear the capture area to fully transparent black.
    pub fn clear(&mut self)
        requires
            old(self).wf(),
        ensures
            final(self).wf(),
            final(self).color == old(self).color,
            final(self).surface.width == old(self).surface.width,
            final(self).surface.height == old(self).surface.height,
            final(self).surface.all_zero(),
    {
        self.surface.clear_data();
    }
}

impl CaptureArea for RasterCapture {
    open spec fn area_width(&self) -> u32 {
        self.surface.width
    }

    open spec fn area_height(&self) -> u32 {
        self.surface.height
    }

    fn capture_width(&self) -> (r: u32) {
        self.surface.width
    }

    fn capture_height(&self) -> (r: u32) {
        self.surface.height
    }

    fn set_capture_width(&mut self, width: u32) {
        let height = self.surface.height;
        self.surface.resize_to(width, height);
    }

    fn set_capture_height(&mut self, height: u32) {
        let width = self.surface.width;
        self.surface.resize_to(width, height);
    }
}

} // verus!
