use browser_video_capture::geometry::{resolve, Rect};
use browser_video_capture::gpu::{
    frame_plan, teardown_plan, FrameStep, GlPipeline, GpuCapture, ProgramState, ReleaseStep,
    ShaderState,
};
use browser_video_capture::options::{
    ColorSpaceType, GLVersion, HtmlContextOptions2D, HtmlContextOptionsGL,
    OffscreenContextOptions2D, OffscreenContextOptionsGL, OffscreenStorageType, PowerPreference,
    SupportedOptions,
};
use browser_video_capture::raster::RasterCapture;
use browser_video_capture::surface::VideoFrame;
use browser_video_capture::{CaptureArea, CaptureColor, CaptureMode};

fn good_pipeline() -> GlPipeline {
    GlPipeline {
        vertex: Some(ShaderState { compiled: true, info_log: None }),
        fragment: Some(ShaderState { compiled: true, info_log: None }),
        program: Some(ProgramState { linked: true, info_log: None }),
        texture: true,
        coords: true,
        indices: true,
        sampler_location: true,
        texcoord_location: Some(0),
    }
}

#[test]
fn put_top_left_is_put_zero_zero() {
    assert_eq!(CaptureMode::put_top_left(), CaptureMode::Put(0, 0));
    assert_eq!(CaptureMode::default(), CaptureMode::Adjust);
    assert_eq!(CaptureColor::default(), CaptureColor::RGBA);
}

#[test]
fn resolve_empty_source_draws_nothing() {
    for mode in [CaptureMode::Put(3, 4), CaptureMode::Fill, CaptureMode::Adjust, CaptureMode::Pinhole]
    {
        let r = resolve(mode, 0, 7, 20, 10);
        assert!(!r.draw);
        assert!(!r.clear);
        assert_eq!(r.resize, None);
        assert_eq!(r.output, (20, 10));
    }
}

#[test]
fn resolve_put_reports_source_and_clears_on_offset() {
    let r = resolve(CaptureMode::Put(3, 0), 20, 10, 20, 10);
    assert!(r.draw);
    assert!(r.clear);
    assert_eq!(r.viewport, Rect { x: 3, y: 0, w: 20, h: 10 });
    assert_eq!(r.output, (20, 10));
    assert_eq!(r.resize, None);

    // Full cover at the origin: no clear.
    let r = resolve(CaptureMode::Put(0, 0), 20, 10, 20, 10);
    assert!(!r.clear);

    // A smaller source leaves margins: clear.
    let r = resolve(CaptureMode::Put(0, 0), 10, 10, 20, 10);
    assert!(r.clear);
}

#[test]
fn resolve_fill_stretches_to_destination() {
    let r = resolve(CaptureMode::Fill, 8, 4, 20, 10);
    assert!(r.draw);
    assert!(!r.clear);
    assert_eq!(r.viewport, Rect { x: 0, y: 0, w: 20, h: 10 });
    assert_eq!(r.output, (20, 10));
    assert_eq!(r.resize, None);
}

#[test]
fn resolve_adjust_resizes_when_sizes_differ() {
    let r = resolve(CaptureMode::Adjust, 8, 4, 20, 10);
    assert_eq!(r.resize, Some((8, 4)));
    assert_eq!(r.viewport, Rect { x: 0, y: 0, w: 8, h: 4 });
    assert_eq!(r.output, (8, 4));
    assert!(!r.clear);

    let r = resolve(CaptureMode::Adjust, 20, 10, 20, 10);
    assert_eq!(r.resize, None);
}

#[test]
fn resolve_pinhole_centers_and_preserves_aspect() {
    // A 2:1 source onto a square destination: the scaled rectangle is twice
    // as wide as the surface and overhangs both sides equally.
    let r = resolve(CaptureMode::Pinhole, 300, 150, 150, 150);
    assert!(r.draw);
    assert!(!r.clear);
    assert_eq!(r.viewport, Rect { x: -75, y: 0, w: 300, h: 150 });
    assert_eq!(r.output, (150, 150));
    let left = -r.viewport.x;
    let right = r.viewport.x + r.viewport.w as i64 - 150;
    assert_eq!(left, right);

    // The complementary aspect: a 1:2 source onto a square destination.
    let r = resolve(CaptureMode::Pinhole, 150, 300, 150, 150);
    assert_eq!(r.viewport, Rect { x: 0, y: -75, w: 150, h: 300 });

    // A source smaller than the destination must clear first.
    let r = resolve(CaptureMode::Pinhole, 40, 30, 80, 60);
    assert!(r.clear);
}

#[test]
fn validate_accepts_complete_pipeline() {
    let p = good_pipeline();
    let validated = p.clone().validate();
    assert_eq!(validated, Ok(p));
}

#[test]
fn validate_reports_failing_fragment_shader() {
    let mut p = good_pipeline();
    p.fragment = Some(ShaderState {
        compiled: false,
        info_log: Some("syntax error".to_string()),
    });
    assert_eq!(p.validate(), Err(Some("syntax error".to_string())));
}

#[test]
fn validate_reports_missing_objects_without_message() {
    let mut p = good_pipeline();
    p.vertex = None;
    assert_eq!(p.validate(), Err(None));

    let mut p = good_pipeline();
    p.program = Some(ProgramState { linked: false, info_log: None });
    assert_eq!(p.validate(), Err(None));

    let mut p = good_pipeline();
    p.texture = false;
    assert_eq!(p.validate(), Err(None));

    let mut p = good_pipeline();
    p.texcoord_location = None;
    assert_eq!(p.validate(), Err(None));
}

#[test]
fn teardown_releases_every_object_after_failed_validation() {
    // Even when validation failed, the backend is discarded through the
    // same unconditional teardown: every object acquired before the failing
    // step is still deleted, each unbound before its delete.
    let mut p = good_pipeline();
    p.fragment = Some(ShaderState { compiled: false, info_log: None });
    assert!(p.validate().is_err());

    let plan = teardown_plan();
    for step in [
        ReleaseStep::DeleteCoordBuffer,
        ReleaseStep::DeleteIndexBuffer,
        ReleaseStep::DeleteTexture,
        ReleaseStep::DeleteProgram,
        ReleaseStep::DeleteVertexShader,
        ReleaseStep::DeleteFragmentShader,
    ] {
        assert!(plan.contains(&step));
    }
    let pos = |s: ReleaseStep| plan.iter().position(|x| *x == s).unwrap();
    assert_eq!(plan[0], ReleaseStep::ClearSurface);
    assert!(pos(ReleaseStep::UnbindCoordBuffer) < pos(ReleaseStep::DeleteCoordBuffer));
    assert!(pos(ReleaseStep::UnbindIndexBuffer) < pos(ReleaseStep::DeleteIndexBuffer));
    assert!(pos(ReleaseStep::UnbindTexture) < pos(ReleaseStep::DeleteTexture));
    assert!(pos(ReleaseStep::UnbindProgram) < pos(ReleaseStep::DeleteProgram));
}

#[test]
fn frame_plan_orders_the_capture_steps() {
    // Empty source: no GPU work at all.
    assert!(frame_plan(CaptureMode::Fill, 0, 0, 20, 10).is_empty());

    // Adjust with differing sizes: bind, resize, viewport, upload, draw,
    // flush, unbind — and no clear.
    let plan = frame_plan(CaptureMode::Adjust, 8, 4, 20, 10);
    assert_eq!(
        plan,
        vec![
            FrameStep::BindPipeline,
            FrameStep::Resize(8, 4),
            FrameStep::SetViewport(Rect { x: 0, y: 0, w: 8, h: 4 }),
            FrameStep::UploadFrame,
            FrameStep::DrawQuad,
            FrameStep::Flush,
            FrameStep::UnbindPipeline,
        ]
    );

    // An offset put clears before the viewport is set.
    let plan = frame_plan(CaptureMode::Put(1, 1), 20, 10, 20, 10);
    assert_eq!(
        plan,
        vec![
            FrameStep::BindPipeline,
            FrameStep::ClearSurface,
            FrameStep::SetViewport(Rect { x: 1, y: 1, w: 20, h: 10 }),
            FrameStep::UploadFrame,
            FrameStep::DrawQuad,
            FrameStep::Flush,
            FrameStep::UnbindPipeline,
        ]
    );
}

#[test]
fn capture_area_reads_and_resizes() {
    let mut cap = RasterCapture::new(6, 5, CaptureColor::RGBA);
    assert_eq!(cap.capture_width(), 6);
    assert_eq!(cap.capture_height(), 5);
    assert_eq!(cap.capture_size(), (6, 5));
    assert_eq!(cap.capture_area(), 30);

    cap.set_capture_size(2, 3);
    assert_eq!(cap.capture_size(), (2, 3));
    assert_eq!(cap.buffer_size(), 2 * 3 * 4);
    // A resize wipes the surface, like a canvas resize.
    assert!(cap.data().into_iter().all(|v| v == 0));

    let mut gpu = GpuCapture::new(6, 5, CaptureColor::RGBA, good_pipeline());
    gpu.set_capture_width(9);
    gpu.set_capture_height(1);
    assert_eq!(gpu.capture_size(), (9, 1));
}

#[test]
fn video_frame_checks_buffer_length() {
    assert!(VideoFrame::new(2, 2, vec![0; 16]).is_some());
    assert!(VideoFrame::new(2, 2, vec![0; 15]).is_none());
    assert!(VideoFrame::new(2, 2, vec![0; 17]).is_none());
    let empty = VideoFrame::empty();
    assert_eq!(empty.width, 0);
    assert_eq!(empty.height, 0);
}

#[test]
fn image_container_matches_surface() {
    let mut cap = RasterCapture::new(3, 2, CaptureColor::RGBA);
    let frame = VideoFrame::new(3, 2, vec![17; 24]).unwrap();
    cap.capture(&frame, CaptureMode::Fill);
    assert_eq!(cap.color_type(), image::ColorType::Rgba8);
    let img = cap.image().unwrap();
    assert_eq!(img.width(), 3);
    assert_eq!(img.height(), 2);
    assert_eq!(img.into_rgba8().into_raw(), vec![17; 24]);
}

#[test]
fn options_builders_and_labels() {
    let o = HtmlContextOptions2D::default()
        .alpha(true)
        .will_read_frequently(true)
        .color_space(ColorSpaceType::DisplayP3);
    assert!(o.alpha);
    assert!(o.will_read_frequently);
    assert!(!o.desynchronized);
    assert_eq!(o.color_space, ColorSpaceType::DisplayP3);
    assert_eq!(o.color_space.label(), "display-p3");
    assert_eq!(ColorSpaceType::default().label(), "srgb");

    let o = OffscreenContextOptions2D::default().alpha(true);
    assert!(o.alpha);
    assert_eq!(o.storage, OffscreenStorageType::Persistent);
    assert_eq!(o.storage.label(), "persistent");

    let o = HtmlContextOptionsGL::default()
        .version(GLVersion::WebGL2)
        .antialias(true)
        .power_preference(PowerPreference::HighPerformance);
    assert_eq!(o.version, GLVersion::WebGL2);
    assert!(o.antialias);
    assert_eq!(o.power_preference.label(), "high-performance");
    assert_eq!(PowerPreference::default().label(), "default");
    assert_eq!(PowerPreference::LowPower.label(), "low-power");
    assert_eq!(GLVersion::WebGL.label(), "webgl");
    assert_eq!(GLVersion::WebGL2.label(), "webgl2");

    let o = OffscreenContextOptionsGL::default().depth(true);
    assert!(o.depth);
    assert!(!o.stencil);

    let s: SupportedOptions = HtmlContextOptions2D::default().into();
    assert!(matches!(s, SupportedOptions::Html2D(_)));
    let s: SupportedOptions = OffscreenContextOptions2D::default().into();
    assert!(matches!(s, SupportedOptions::Offscreen2D(_)));
    let s: SupportedOptions = HtmlContextOptionsGL::default().into();
    assert!(matches!(s, SupportedOptions::HtmlGL(_)));
    let s: SupportedOptions = OffscreenContextOptionsGL::default().into();
    assert!(matches!(s, SupportedOptions::OffscreenGL(_)));
}
