use browser_video_capture::facade::BrowserCapture;
use browser_video_capture::gpu::{GlPipeline, GpuCapture, ProgramState, ShaderState};
use browser_video_capture::raster::RasterCapture;
use browser_video_capture::surface::VideoFrame;
use browser_video_capture::{CaptureArea, CaptureColor, CaptureMode};

const DEFAULT_WIDTH: u32 = 300;
const DEFAULT_HEIGHT: u32 = 150;

fn good_pipeline() -> GlPipeline {
    GlPipeline {
        vertex: Some(ShaderState { compiled: true, info_log: None }),
        fragment: Some(ShaderState { compiled: true, info_log: None }),
        program: Some(ProgramState { linked: true, info_log: None }),
        texture: true,
        coords: true,
        indices: true,
        sampler_location: true,
        texcoord_location: Some(0),
    }
}

fn backends(width: u32, height: u32) -> Vec<BrowserCapture> {
    vec![
        BrowserCapture::Raster(RasterCapture::new(width, height, CaptureColor::RGBA)),
        BrowserCapture::Gpu(GpuCapture::new(
            width,
            height,
            CaptureColor::RGBA,
            good_pipeline(),
        )),
    ]
}

fn solid_frame(width: u32, height: u32, rgba: [u8; 4]) -> VideoFrame {
    let mut data = Vec::new();
    for _ in 0..(width as usize * height as usize) {
        data.extend_from_slice(&rgba);
    }
    VideoFrame::new(width, height, data).unwrap()
}

/// A frame split into four solid quadrants: red, green, blue, white.
fn four_color_frame(width: u32, height: u32) -> VideoFrame {
    let mut data = Vec::new();
    for y in 0..height {
        for x in 0..width {
            let right = x >= width / 2;
            let bottom = y >= height / 2;
            let rgba: [u8; 4] = match (right, bottom) {
                (false, false) => [255, 0, 0, 255],
                (true, false) => [0, 255, 0, 255],
                (false, true) => [0, 0, 255, 255],
                (true, true) => [255, 255, 255, 255],
            };
            data.extend_from_slice(&rgba);
        }
    }
    VideoFrame::new(width, height, data).unwrap()
}

fn modes() -> Vec<CaptureMode> {
    vec![CaptureMode::put_top_left(), CaptureMode::Fill, CaptureMode::Adjust]
}

#[test]
fn capture_ignores_empty_video() {
    for mode in modes() {
        for mut cap in backends(DEFAULT_WIDTH, DEFAULT_HEIGHT) {
            let empty = VideoFrame::empty();
            cap.capture(&empty, mode);
            assert_eq!(cap.capture_width(), DEFAULT_WIDTH);
            assert_eq!(cap.capture_height(), DEFAULT_HEIGHT);

            let data = cap.data();
            assert_eq!(data.len(), cap.buffer_size());
            for value in data.into_iter() {
                assert_eq!(value, 0);
            }
        }
    }
}

#[test]
fn capture_non_empty_video_same_size() {
    for (w, h) in [(1u32, 1u32), (DEFAULT_WIDTH, DEFAULT_HEIGHT)] {
        for mode in modes() {
            for mut cap in backends(w, h) {
                let frame = solid_frame(w, h, [255, 255, 255, 255]);
                cap.capture(&frame, mode);
                let data = cap.image().unwrap().into_rgba8();
                assert_eq!(data.len(), cap.buffer_size());
                assert_eq!(data.get_pixel(0, 0), &image::Rgba([255, 255, 255, 255]));
            }
        }
    }
}

#[test]
fn capture_simple_four_color() {
    for (w, h) in [(4u32, 4u32), (DEFAULT_WIDTH, DEFAULT_HEIGHT)] {
        for mode in modes() {
            for mut cap in backends(w, h) {
                let frame = four_color_frame(w, h);
                cap.capture(&frame, mode);
                let data = cap.image().unwrap().into_rgba8();

                let (r, b) = (w - 1, h - 1);
                assert_eq!(data.get_pixel(0, 0), &image::Rgba([255, 0, 0, 255]));
                assert_eq!(data.get_pixel(r, 0), &image::Rgba([0, 255, 0, 255]));
                assert_eq!(data.get_pixel(0, b), &image::Rgba([0, 0, 255, 255]));
                assert_eq!(data.get_pixel(r, b), &image::Rgba([255, 255, 255, 255]));
            }
        }
    }
}

/// Every output pixel of a solid white fill is exactly white.
#[test]
fn fill_solid_white_covers_every_pixel() {
    let mut cap = RasterCapture::new(DEFAULT_WIDTH, DEFAULT_HEIGHT, CaptureColor::RGBA);
    let frame = solid_frame(DEFAULT_WIDTH, DEFAULT_HEIGHT, [255, 255, 255, 255]);
    let out = cap.capture(&frame, CaptureMode::Fill);
    assert_eq!(out, (DEFAULT_WIDTH, DEFAULT_HEIGHT));
    let data = cap.data();
    assert_eq!(data.len(), DEFAULT_WIDTH as usize * DEFAULT_HEIGHT as usize * 4);
    for value in data.into_iter() {
        assert_eq!(value, 255);
    }
}

/// Adjust resizes the destination to the source size.
#[test]
fn adjust_resizes_destination_to_source() {
    for mut cap in backends(10, 10) {
        let frame = solid_frame(4, 2, [7, 8, 9, 10]);
        let out = cap.capture(&frame, CaptureMode::Adjust);
        assert_eq!(out, (4, 2));
        assert_eq!(cap.capture_size(), (4, 2));
        assert_eq!(cap.buffer_size(), 4 * 2 * 4);
    }
}

/// A second top-left put of a smaller frame clears the stale margins.
#[test]
fn put_top_left_clears_stale_margins() {
    let mut cap = RasterCapture::new(4, 4, CaptureColor::RGBA);
    let big = solid_frame(4, 4, [255, 255, 255, 255]);
    let small = solid_frame(2, 2, [200, 10, 10, 255]);

    let out1 = cap.capture(&big, CaptureMode::put_top_left());
    assert_eq!(out1, (4, 4));
    let out2 = cap.capture(&small, CaptureMode::put_top_left());
    assert_eq!(out2, (2, 2));
    assert_eq!(cap.capture_size(), (4, 4));

    let img = cap.image().unwrap().into_rgba8();
    for y in 0..4 {
        for x in 0..4 {
            if x < 2 && y < 2 {
                assert_eq!(img.get_pixel(x, y), &image::Rgba([200, 10, 10, 255]));
            } else {
                assert_eq!(img.get_pixel(x, y), &image::Rgba([0, 0, 0, 0]));
            }
        }
    }
}

/// A top-left put that fully covers the destination does not clear it.
#[test]
fn put_top_left_full_cover_overwrites_everything() {
    let mut cap = RasterCapture::new(2, 2, CaptureColor::RGBA);
    let a = solid_frame(2, 2, [1, 2, 3, 4]);
    let b = solid_frame(2, 2, [5, 6, 7, 8]);
    cap.capture(&a, CaptureMode::put_top_left());
    cap.capture(&b, CaptureMode::put_top_left());
    let img = cap.image().unwrap().into_rgba8();
    for y in 0..2 {
        for x in 0..2 {
            assert_eq!(img.get_pixel(x, y), &image::Rgba([5, 6, 7, 8]));
        }
    }
}

/// An offset put clears the uncovered margins and places the frame there.
#[test]
fn put_with_offset_places_and_clears() {
    let mut cap = RasterCapture::new(4, 1, CaptureColor::RGBA);
    cap.capture(&solid_frame(4, 1, [255, 255, 255, 255]), CaptureMode::put_top_left());
    let out = cap.capture(&solid_frame(2, 1, [9, 8, 7, 6]), CaptureMode::Put(1, 0));
    assert_eq!(out, (2, 1));
    assert_eq!(
        cap.data(),
        vec![0, 0, 0, 0, 9, 8, 7, 6, 9, 8, 7, 6, 0, 0, 0, 0]
    );
}

/// A negative offset crops the frame on the near side without clearing a
/// destination it still fully covers.
#[test]
fn put_with_negative_offset_crops() {
    let mut cap = RasterCapture::new(1, 1, CaptureColor::RGBA);
    let mut data = Vec::new();
    data.extend_from_slice(&[1, 1, 1, 1]);
    data.extend_from_slice(&[2, 2, 2, 2]);
    let frame = VideoFrame::new(2, 1, data).unwrap();
    let out = cap.capture(&frame, CaptureMode::Put(-1, 0));
    assert_eq!(out, (2, 1));
    // The surface pixel sits one column into the frame.
    assert_eq!(cap.data(), vec![2, 2, 2, 2]);
}

/// data() always returns buffer_size() == width * height * channels bytes.
#[test]
fn data_length_matches_buffer_size() {
    for (w, h) in [(0u32, 0u32), (1, 1), (3, 5), (DEFAULT_WIDTH, DEFAULT_HEIGHT)] {
        for cap in backends(w, h) {
            assert_eq!(cap.channels_count(), 4);
            assert_eq!(cap.buffer_size(), (w * h * 4) as usize);
            assert_eq!(cap.data().len(), cap.buffer_size());
        }
    }
}

/// Clearing twice yields the same all-zero buffer as clearing once.
#[test]
fn clear_twice_equals_clear_once() {
    let mut cap = RasterCapture::new(3, 3, CaptureColor::RGBA);
    let frame = solid_frame(3, 3, [9, 9, 9, 9]);
    cap.capture(&frame, CaptureMode::Fill);

    cap.clear();
    let once = cap.data();
    cap.clear();
    let twice = cap.data();
    assert_eq!(once, twice);
    assert!(once.into_iter().all(|v| v == 0));
}

/// The GPU colour modes transform the sampled channels.
#[test]
fn gpu_color_modes_transform_channels() {
    // Luminance of (100, 150, 200): (299*100 + 587*150 + 114*200) / 1000.
    let lum = 140u8;

    let mut rgbl = GpuCapture::new(1, 1, CaptureColor::RGBL, good_pipeline());
    rgbl.capture(&solid_frame(1, 1, [100, 150, 200, 42]), CaptureMode::Fill);
    assert_eq!(rgbl.data(), vec![100, 150, 200, lum]);

    let mut llla = GpuCapture::new(1, 1, CaptureColor::LLLA, good_pipeline());
    llla.capture(&solid_frame(1, 1, [100, 150, 200, 42]), CaptureMode::Fill);
    assert_eq!(llla.data(), vec![lum, lum, lum, 42]);

    let mut rgba = GpuCapture::new(1, 1, CaptureColor::RGBA, good_pipeline());
    rgba.capture(&solid_frame(1, 1, [100, 150, 200, 42]), CaptureMode::Fill);
    assert_eq!(rgba.data(), vec![100, 150, 200, 42]);
}

/// Pinhole crops a wide source equally on both sides of the destination.
#[test]
fn pinhole_centers_wide_source() {
    let mut cap = RasterCapture::new(2, 2, CaptureColor::RGBA);
    // A 4x2 frame whose middle two columns are green, outer columns red.
    let mut data = Vec::new();
    for _y in 0..2 {
        for x in 0..4 {
            let rgba: [u8; 4] = if (1..=2).contains(&x) {
                [0, 255, 0, 255]
            } else {
                [255, 0, 0, 255]
            };
            data.extend_from_slice(&rgba);
        }
    }
    let frame = VideoFrame::new(4, 2, data).unwrap();
    let out = cap.capture(&frame, CaptureMode::Pinhole);
    assert_eq!(out, (2, 2));
    // Scaled span is 4 wide over a 2-wide surface, centered at -1: surface
    // column 0 samples source column 1, column 1 samples source column 2.
    let img = cap.image().unwrap().into_rgba8();
    for y in 0..2 {
        for x in 0..2 {
            assert_eq!(img.get_pixel(x, y), &image::Rgba([0, 255, 0, 255]));
        }
    }
}

/// retrieve fills a caller buffer of exactly the right size.
#[test]
fn retrieve_fills_matching_buffer() {
    let mut cap = RasterCapture::new(2, 1, CaptureColor::RGBA);
    cap.capture(&solid_frame(2, 1, [1, 2, 3, 4]), CaptureMode::Fill);
    let mut buffer = vec![0u8; cap.buffer_size()];
    cap.retrieve(&mut buffer);
    assert_eq!(buffer, vec![1, 2, 3, 4, 1, 2, 3, 4]);
}

/// read captures and then returns the buffer at the new surface size.
#[test]
fn read_returns_data_at_new_size() {
    for mut cap in backends(8, 8) {
        let frame = solid_frame(2, 2, [5, 5, 5, 5]);
        let data = cap.read(&frame, CaptureMode::Adjust);
        assert_eq!(cap.capture_size(), (2, 2));
        assert_eq!(data.len(), 2 * 2 * 4);
        assert!(data.into_iter().all(|v| v == 5));
    }
}

/// An empty read against an empty surface returns an empty buffer.
#[test]
fn read_empty_surface_returns_empty() {
    let mut cap = RasterCapture::new(0, 0, CaptureColor::RGBA);
    let data = cap.read(&VideoFrame::empty(), CaptureMode::Fill);
    assert!(data.is_empty());
}
