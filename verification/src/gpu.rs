//! The GPU backend model: the pipeline record built at construction, its
//! explicit validation step, the ordered command sequence of one captured
//! frame, and the unconditional teardown sequence.
//!
//! Host GL calls can silently return nothing, so construction records what
//! each step produced and validation turns any silent failure into an
//! explicit error before the pipeline is first used.

use vstd::prelude::*;

use crate::{CaptureArea, CaptureColor, CaptureMode};
use crate::capture::{apply_capture, capture_rel};
use crate::geometry::{draws, needs_clear, output_size, resize_target, resolve, Rect, vp_h, vp_w, vp_x, vp_y};
use crate::surface::{copy_into, zeroed, PixelSurface, VideoFrame};

verus! {

/// What the host reported for one compiled shader.
#[derive(Debug, Clone, PartialEq, Eq)]
pub struct ShaderState {
    /// Whether the compile status query reported success.
    pub compiled: bool,
    /// The info log, when the host had one.
    pub info_log: Option<String>,
}

/// What the host reported for the linked program.
#[derive(Debug, Clone, PartialEq, Eq)]
pub struct ProgramState {
    /// Whether the link status query reported success.
    pub linked: bool,
    /// The info log, when the host had one.
    pub info_log: Option<String>,
}

/// The GPU objects a backend acquires at construction.  `None` or `false`
/// records a create or lookup call that silently returned nothing.
#[derive(Debug, Clone, PartialEq, Eq)]
pub struct GlPipeline {
    /// The full-surface-quad vertex shader.
    pub vertex: Option<ShaderState>,
    /// The fragment shader selected by the colour mode.
    pub fragment: Option<ShaderState>,
    /// The linked program.
    pub program: Option<ProgramState>,
    /// Whether the texture object was created.
    pub texture: bool,
    /// Whether the vertex-coordinate buffer was created.
    pub coords: bool,
    /// Whether the index buffer was created.
    pub indices: bool,
    /// Whether the texture sampler uniform location was resolved.
    pub sampler_location: bool,
    /// The texture-coordinate attribute location, when resolved.
    pub texcoord_location: Option<u32>,
}

impl GlPipeline {
    /// Every object present, both shaders compiled, the program linked.
    pub open spec fn valid(&self) -> bool {
        &&& (self.vertex matches Some(v) && v.compiled)
        &&& (self.fragment matches Some(f) && f.compiled)
        &&& (self.program matches Some(p) && p.linked)
        &&& self.texture
        &&& self.coords
        &&& self.indices
        &&& self.sampler_location
        &&& self.texcoord_location.is_some()
    }

    /// The outcome of validation: the pipeline itself when fully usable,
    /// else the first failure, with the host's message when there was one.
    pub open spec fn validate_spec(self) -> Result<GlPipeline, Option<String>> {
        match self.vertex {
            None => Err(None),
            Some(v) => if !v.compiled {
                Err(v.info_log)
            } else {
                match self.fragment {
                    None => Err(None),
                    Some(f) => if !f.compiled {
                        Err(f.info_log)
                    } else {
                        match self.program {
                            None => Err(None),
                            Some(p) => if !p.linked {
                                Err(p.info_log)
                            } else {
                                if self.texture && self.coords && self.indices
                                    && self.sampler_location && self.texcoord_location.is_some() {
                                    Ok(self)
                                } else {
                                    Err(None)
                                }
                            },
                        }
                    },
                }
            },
        }
    }

    /// Explicit validation, required before first use: succeeds exactly on
    /// a [`GlPipeline::valid`] pipeline, else reports the first failing
    /// step, with its info log when the host produced one.
    pub fn validate(self) -> (r: Result<Self, Option<String>>)
        ensures
            r == self.validate_spec(),
            r.is_ok() <==> self.valid(),
            r matches Ok(p) ==> p == self,
    {
        let GlPipeline {
            vertex,
            fragment,
            program,
            texture,
            coords,
            indices,
            sampler_location,
            texcoord_location,
        } = self;
        match vertex {
            None => Err(None),
            Some(v) => if !v.compiled {
                Err(v.info_log)
            } else {
                match fragment {
                    None => Err(None),
                    Some(f) => if !f.compiled {
                        Err(f.info_log)
                    } else {
                        match program {
                            None => Err(None),
                            Some(p) => if !p.linked {
                                Err(p.info_log)
                            } else {
                                if texture && coords && indices && sampler_location
                                    && texcoord_location.is_some() {
                                    Ok(GlPipeline {
                                        vertex: Some(v),
                                        fragment: Some(f),
                                        program: Some(p),
                                        texture,
                                        coords,
                                        indices,
                                        sampler_location,
                                        texcoord_location,
                                    })
                                } else {
                                    Err(None)
                                }
                            },
                        }
                    },
                }
            },
        }
    }
}

/// One step of the per-frame GPU command sequence.
#[derive(Debug, Clone, Copy, PartialEq, Eq, Structural)]
pub enum FrameStep {
    /// Bind program, vertex and index buffers, texture unit 0, the sampler
    /// uniform and the texture-coordinate attribute pointer.
    BindPipeline,
    /// Give the destination surface a new size before drawing.
    Resize(u32, u32),
    /// Set the clear colour to transparent black and clear the colour
    /// buffer.
    ClearSurface,
    /// Set the viewport to the resolved destination rectangle.
    SetViewport(Rect),
    /// Upload the current source frame into the bound texture.
    UploadFrame,
    /// Draw the textured quad as two indexed triangles.
    DrawQuad,
    /// Flush the command stream so the draw completes before any readback.
    Flush,
    /// Reset all bindings for the next consumer of the context.
    UnbindPipeline,
}

/// The command sequence one capture executes: nothing for an empty source;
/// otherwise bind, then resize or clear as resolved, then viewport, upload,
/// draw, flush, unbind — in that order.
pub open spec fn spec_frame_plan(mode: CaptureMode, sw: u32, sh: u32, cw: u32, ch: u32) -> Seq<
    FrameStep,
> {
    if !draws(sw as int, sh as int) {
        Seq::empty()
    } else {
        seq![FrameStep::BindPipeline] + (match resize_target(mode, sw, sh, cw, ch) {
            Some(t) => seq![FrameStep::Resize(t.0, t.1)],
            None => Seq::empty(),
        }) + (if needs_clear(mode, sw as int, sh as int, cw as int, ch as int) {
            seq![FrameStep::ClearSurface]
        } else {
            Seq::empty()
        }) + seq![
            FrameStep::SetViewport(
                Rect {
                    x: vp_x(mode, sw as int, sh as int, cw as int, ch as int) as i64,
                    y: vp_y(mode, sw as int, sh as int, cw as int, ch as int) as i64,
                    w: vp_w(mode, sw as int, sh as int, cw as int, ch as int) as u64,
                    h: vp_h(mode, sw as int, sh as int, cw as int, ch as int) as u64,
                },
            ),
            FrameStep::UploadFrame,
            FrameStep::DrawQuad,
            FrameStep::Flush,
            FrameStep::UnbindPipeline,
        ]
    }
}

/// Compute the per-frame command sequence for one capture.
pub fn frame_plan(mode: CaptureMode, sw: u32, sh: u32, cw: u32, ch: u32) -> (v: Vec<FrameStep>)
    ensures
        v@ == spec_frame_plan(mode, sw, sh, cw, ch),
{
    let r = resolve(mode, sw, sh, cw, ch);
    let mut v: Vec<FrameStep> = Vec::new();
    if !r.draw {
        assert(v@ =~= spec_frame_plan(mode, sw, sh, cw, ch));
        return v;
    }
    v.push(FrameStep::BindPipeline);
    if let Some((nw, nh)) = r.resize {
        v.push(FrameStep::Resize(nw, nh));
    }
    if r.clear {
        v.push(FrameStep::ClearSurface);
    }
    v.push(FrameStep::SetViewport(r.viewport));
    v.push(FrameStep::UploadFrame);
    v.push(FrameStep::DrawQuad);
    v.push(FrameStep::Flush);
    v.push(FrameStep::UnbindPipeline);
    assert(v@ =~= spec_frame_plan(mode, sw, sh, cw, ch));
    v
}

/// One step of the teardown sequence.
#[derive(Debug, Clone, Copy, PartialEq, Eq, Structural)]
pub enum ReleaseStep {
    /// Clear the surface so a discarded capture leaves no stale frame.
    ClearSurface,
    /// Unbind the vertex-coordinate buffer.
    UnbindCoordBuffer,
    /// Delete the vertex-coordinate buffer.
    DeleteCoordBuffer,
    /// Unbind the index buffer.
    UnbindIndexBuffer,
    /// Delete the index buffer.
    DeleteIndexBuffer,
    /// Unbind the texture.
    UnbindTexture,
    /// Delete the texture.
    DeleteTexture,
    /// Unbind the program.
    UnbindProgram,
    /// Delete the program.
    DeleteProgram,
    /// Delete the vertex shader.
    DeleteVertexShader,
    /// Delete the fragment shader.
    DeleteFragmentShader,
}

/// The teardown sequence: clear the surface, then release every object in
/// reverse acquisition order, clearing each binding before its delete.
pub open spec fn spec_teardown_plan() -> Seq<ReleaseStep> {
    seq![
        ReleaseStep::ClearSurface,
        ReleaseStep::UnbindCoordBuffer,
        ReleaseStep::DeleteCoordBuffer,
        ReleaseStep::UnbindIndexBuffer,
        ReleaseStep::DeleteIndexBuffer,
        ReleaseStep::UnbindTexture,
        ReleaseStep::DeleteTexture,
        ReleaseStep::UnbindProgram,
        ReleaseStep::DeleteProgram,
        ReleaseStep::DeleteVertexShader,
        ReleaseStep::DeleteFragmentShader,
    ]
}

/// Compute the teardown sequence.
pub fn teardown_plan() -> (v: Vec<ReleaseStep>)
    ensures
        v@ == spec_teardown_plan(),
{
    let mut v: Vec<ReleaseStep> = Vec::new();
    v.push(ReleaseStep::ClearSurface);
    v.push(ReleaseStep::UnbindCoordBuffer);
    v.push(ReleaseStep::DeleteCoordBuffer);
    v.push(ReleaseStep::UnbindIndexBuffer);
    v.push(ReleaseStep::DeleteIndexBuffer);
    v.push(ReleaseStep::UnbindTexture);
    v.push(ReleaseStep::DeleteTexture);
    v.push(ReleaseStep::UnbindProgram);
    v.push(ReleaseStep::DeleteProgram);
    v.push(ReleaseStep::DeleteVertexShader);
    v.push(ReleaseStep::DeleteFragmentShader);
    assert(v@ =~= spec_teardown_plan());
    v
}

/// Teardown releases every GPU object, whatever state the pipeline record
/// is in — also the objects acquired before a later construction step
/// failed — and each bound object is unbound before it is deleted.
pub proof fn lemma_teardown_releases_all()
    ensures
        spec_teardown_plan().contains(ReleaseStep::DeleteCoordBuffer),
        spec_teardown_plan().contains(ReleaseStep::DeleteIndexBuffer),
        spec_teardown_plan().contains(ReleaseStep::DeleteTexture),
        spec_teardown_plan().contains(ReleaseStep::DeleteProgram),
        spec_teardown_plan().contains(ReleaseStep::DeleteVertexShader),
        spec_teardown_plan().contains(ReleaseStep::DeleteFragmentShader),
        spec_teardown_plan()[1] == ReleaseStep::UnbindCoordBuffer,
        spec_teardown_plan()[2] == ReleaseStep::DeleteCoordBuffer,
        spec_teardown_plan()[3] == ReleaseStep::UnbindIndexBuffer,
        spec_teardown_plan()[4] == ReleaseStep::DeleteIndexBuffer,
        spec_teardown_plan()[5] == ReleaseStep::UnbindTexture,
        spec_teardown_plan()[6] == ReleaseStep::DeleteTexture,
        spec_teardown_plan()[7] == ReleaseStep::UnbindProgram,
        spec_teardown_plan()[8] == ReleaseStep::DeleteProgram,
{
    assert(spec_teardown_plan()[2] == ReleaseStep::DeleteCoordBuffer);
    assert(spec_teardown_plan()[4] == ReleaseStep::DeleteIndexBuffer);
    assert(spec_teardown_plan()[6] == ReleaseStep::DeleteTexture);
    assert(spec_teardown_plan()[8] == ReleaseStep::DeleteProgram);
    assert(spec_teardown_plan()[9] == ReleaseStep::DeleteVertexShader);
    assert(spec_teardown_plan()[10] == ReleaseStep::DeleteFragmentShader);
}

/// A capture backend over a persistent GPU shader pipeline.
#[derive(Debug, Clone, PartialEq, Eq)]
pub struct GpuCapture {
    pub surface: PixelSurface,
    pub pipeline: GlPipeline,
    pub color: CaptureColor,
}

impl GpuCapture {
    /// The backend is usable: its surface buffer matches its size.
    pub open spec fn wf(&self) -> bool {
        self.surface.wf()
    }

    /// A backend over a transparent black surface of the given size, owning
    /// the pipeline record its construction produced.
    pub fn new(width: u32, height: u32, color: CaptureColor, pipeline: GlPipeline) -> (r:
        GpuCapture)
        requires
            width * height * 4 <= usize::MAX,
        ensures
            r.wf(),
            r.surface.width == width,
            r.surface.height == height,
            r.surface.all_zero(),
            r.color == color,
            r.pipeline == pipeline,
    {
        GpuCapture { surface: PixelSurface::new(width, height), pipeline, color }
    }

    /// Get the number of channels in the capture buffer.
    pub fn channels_count(&self) -> (r: u32)
        ensures
            r == 4,
    {
        4
    }

    /// Get the size of the capture buffer in bytes.
    pub fn buffer_size(&self) -> (r: usize)
        requires
            self.wf(),
        ensures
            r == self.surface.width * self.surface.height * 4,
    {
        self.surface.data.len()
    }

    /// Capture a frame from the video source.  The pipeline must have been
    /// validated first.
    pub fn capture(&mut self, source: &VideoFrame, mode: CaptureMode) -> (out: (u32, u32))
        requires
            old(self).wf(),
            old(self).pipeline.valid(),
            source.wf(),
        ensures
            final(self).wf(),
            final(self).color == old(self).color,
            final(self).pipeline == old(self).pipeline,
            capture_rel(
                old(self).surface,
                *source,
                mode,
                old(self).color,
                final(self).surface,
                out,
            ),
    {
        let color = self.color;
        apply_capture(&mut self.surface, source, mode, color)
    }

    /// Retrieve the grabbed frame raw data into the buffer, whose length
    /// must equal the buffer size.
    pub fn retrieve(&self, buffer: &mut Vec<u8>)
        requires
            self.wf(),
            old(buffer)@.len() == self.surface.width * self.surface.height * 4,
        ensures
            final(buffer)@ == self.surface.data@,
    {
        copy_into(&self.surface.data, buffer);
    }

    /// Get the raw data from the captured frame.  The result always holds
    /// exactly width * height * channel count bytes.
    pub fn data(&self) -> (r: Vec<u8>)
        requires
            self.wf(),
        ensures
            r@ == self.surface.data@,
            r@.len() == self.surface.width * self.surface.height * 4,
    {
        let mut buffer = zeroed(self.buffer_size());
        self.retrieve(&mut buffer);
        buffer
    }

    /// Read the raw data from the video source: capture, then retrieve at
    /// the new surface size.
    pub fn read(&mut self, source: &VideoFrame, mode: CaptureMode) -> (r: Vec<u8>)
        requires
            old(self).wf(),
            old(self).pipeline.valid(),
            source.wf(),
        ensures
            final(self).wf(),
            final(self).color == old(self).color,
            final(self).pipeline == old(self).pipeline,
            capture_rel(
                old(self).surface,
                *source,
                mode,
                old(self).color,
                final(self).surface,
                output_size(
                    mode,
                    source.width,
                    source.height,
                    old(self).surface.width,
                    old(self).surface.height,
                ),
            ),
            r@ == final(self).surface.data@,
    {
        let out = self.capture(source, mode);
        assert(capture_rel(old(self).surface, *source, mode, old(self).color, self.surface, out));
        self.data()
    }

    /// Colour layout of the capture buffer: four 8-bit channels.
    pub fn color_type(&self) -> image::ColorType {
        crate::img::rgba_color_type()
    }

    /// The captured frame as an image container.  It always succeeds,
    /// because the buffer length always matches the surface size.
    pub fn image(&self) -> (r: Option<image::DynamicImage>)
        requires
            self.wf(),
        ensures
            r.is_some(),
    {
        let width = self.surface.width;
        let height = self.surface.height;
        let data = self.data();
        crate::img::rgba_image_from_raw(width, height, data)
    }

    /// Clear the capture area to fully transparent black.
    pub fn clear(&mut self)
        requires
            old(self).wf(),
        ensures
            final(self).wf(),
            final(self).color == old(self).color,
            final(self).pipeline == old(self).pipeline,
            final(self).surface.width == old(self).surface.width,
            final(self).surface.height == old(self).surface.height,
            final(self).surface.all_zero(),
    {
        self.surface.clear_data();
    }
}

impl CaptureArea for GpuCapture {
    open spec fn area_width(&self) -> u32 {
        self.surface.width
    }

    open spec fn area_height(&self) -> u32 {
        self.surface.height
    }

    fn capture_width(&self) -> (r: u32) {
        self.surface.width
    }

    fn capture_height(&self) -> (r: u32) {
        self.surface.height
    }

    fn set_capture_width(&mut self, width: u32) {
        let height = self.surface.height;
        self.surface.resize_to(width, height);
    }

    fn set_capture_height(&mut self, height: u32) {
        let width = self.surface.width;
        self.surface.resize_to(width, height);
    }
}

} // verus!
