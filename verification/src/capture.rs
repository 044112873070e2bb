//! One capture, end to end: resolve the geometry, resize or clear the
//! destination surface as required, draw the frame, report the new size.
//! Every backend realises this same relation.

use vstd::prelude::*;

use crate::{CaptureColor, CaptureMode};
use crate::blit::{blit_rel, byte_index, covered, lemma_pixel_index_bound};
use crate::geometry::{
    draws, needs_clear, output_size, put_clear, resize_target, resolve, surface_after, vp_h, vp_w,
    vp_x, vp_y,
};
use crate::surface::{PixelSurface, VideoFrame};

verus! {

/// A sequence of `n` zero bytes: the fully transparent black surface.
pub open spec fn zero_bytes(n: int) -> Seq<u8> {
    Seq::new(n as nat, |i: int| 0u8)
}

/// How one capture call relates the surface before (`pre`) to the surface
/// after (`post`) and to the size `out` it reports.
///
/// An empty source changes nothing.  Otherwise the surface is resized (only
/// by `Adjust`, to the source size) or cleared (exactly when the resolver
/// demands it) and the frame is then drawn into the resolved viewport.
pub open spec fn capture_rel(
    pre: PixelSurface,
    frame: VideoFrame,
    mode: CaptureMode,
    color: CaptureColor,
    post: PixelSurface,
    out: (u32, u32),
) -> bool {
    let sw = frame.width as int;
    let sh = frame.height as int;
    let cw = pre.width;
    let ch = pre.height;
    if !draws(sw, sh) {
        post == pre && out == (cw, ch)
    } else {
        let size = surface_after(mode, frame.width, frame.height, cw, ch);
        let cleared = resize_target(mode, frame.width, frame.height, cw, ch).is_some()
            || needs_clear(mode, sw, sh, cw as int, ch as int);
        let base = if cleared {
            zero_bytes(size.0 * size.1 * 4)
        } else {
            pre.data@
        };
        &&& post.width == size.0
        &&& post.height == size.1
        &&& out == output_size(mode, frame.width, frame.height, cw, ch)
        &&& blit_rel(
            base,
            frame,
            vp_x(mode, sw, sh, cw as int, ch as int),
            vp_y(mode, sw, sh, cw as int, ch as int),
            vp_w(mode, sw, sh, cw as int, ch as int),
            vp_h(mode, sw, sh, cw as int, ch as int),
            color,
            size.0 as int,
            size.1 as int,
            post.data@,
        )
    }
}

/// Run one capture of `frame` against `surface` under `mode`, with the
/// colour semantics of `color`, and return the reported size.
pub fn apply_capture(
    surface: &mut PixelSurface,
    frame: &VideoFrame,
    mode: CaptureMode,
    color: CaptureColor,
) -> (out: (u32, u32))
    requires
        old(surface).wf(),
        frame.wf(),
    ensures
        final(surface).wf(),
        capture_rel(*old(surface), *frame, mode, color, *final(surface), out),
{
    let sw = frame.width;
    let sh = frame.height;
    let cw = surface.width;
    let ch = surface.height;
    let r = resolve(mode, sw, sh, cw, ch);
    if !r.draw {
        return (cw, ch);
    }
    // Anchors the fact that the frame byte count, and so the resize target
    // area, fits in usize.
    let _frame_len: usize = frame.data.len();
    if let Some((nw, nh)) = r.resize {
        surface.resize_to(nw, nh);
    } else if r.clear {
        surface.clear_data();
    }
    let ghost base = surface.data@;
    surface.blit(frame, r.viewport, color);
    proof {
        let size = surface_after(mode, sw, sh, cw, ch);
        let cleared = resize_target(mode, sw, sh, cw, ch).is_some() || needs_clear(
            mode,
            sw as int,
            sh as int,
            cw as int,
            ch as int,
        );
        if cleared {
            assert(base =~= zero_bytes(size.0 * size.1 * 4));
        }
    }
    r.output
}

/// A capture from an empty source is a no-op: the surface, its pixel
/// contents and the reported size are all unchanged, in every mode.
pub proof fn lemma_empty_source_noop(
    pre: PixelSurface,
    frame: VideoFrame,
    mode: CaptureMode,
    color: CaptureColor,
    post: PixelSurface,
    out: (u32, u32),
)
    requires
        capture_rel(pre, frame, mode, color, post, out),
        frame.width == 0 || frame.height == 0,
    ensures
        post == pre,
        out == (pre.width, pre.height),
{
}

/// After an `Adjust` capture from a non-empty source, the surface size and
/// the reported size both equal the source size.
pub proof fn lemma_adjust_matches_source(
    pre: PixelSurface,
    frame: VideoFrame,
    color: CaptureColor,
    post: PixelSurface,
    out: (u32, u32),
)
    requires
        capture_rel(pre, frame, CaptureMode::Adjust, color, post, out),
        frame.width > 0,
        frame.height > 0,
    ensures
        post.width == frame.width,
        post.height == frame.height,
        out == (frame.width, frame.height),
{
}

/// Two `Put(0, 0)` captures in a row, the second from a source strictly
/// smaller than the surface in some dimension: the second call must clear
/// first, so every margin pixel outside the second frame ends up zero.
pub proof fn lemma_put_top_left_clears_margins(
    s0: PixelSurface,
    f1: VideoFrame,
    s1: PixelSurface,
    o1: (u32, u32),
    f2: VideoFrame,
    s2: PixelSurface,
    o2: (u32, u32),
    color: CaptureColor,
)
    requires
        capture_rel(s0, f1, CaptureMode::Put(0i32, 0i32), color, s1, o1),
        capture_rel(s1, f2, CaptureMode::Put(0i32, 0i32), color, s2, o2),
        0 < f2.width,
        0 < f2.height,
        f2.width < s1.width || f2.height < s1.height,
    ensures
        s2.width == s1.width,
        s2.height == s1.height,
        forall|x: int, y: int, c: int|
            0 <= x < s2.width && 0 <= y < s2.height && 0 <= c < 4 && (f2.width <= x || f2.height
                <= y) ==> s2.data@[byte_index(s2.width as int, x, y, c)] == 0,
{
    let sw = f2.width as int;
    let sh = f2.height as int;
    let cw = s1.width as int;
    let ch = s1.height as int;
    assert(put_clear(0, 0, sw, sh, cw, ch));
    assert forall|x: int, y: int, c: int|
        0 <= x < s2.width && 0 <= y < s2.height && 0 <= c < 4 && (f2.width <= x || f2.height
            <= y) implies s2.data@[byte_index(s2.width as int, x, y, c)] == 0 by {
        lemma_pixel_index_bound(cw, ch, x, y, c);
        assert(!covered(0, 0, sw, sh, cw, ch, x, y));
        assert(s2.data@[byte_index(cw, x, y, c)] == zero_bytes(cw * ch * 4)[byte_index(
            cw,
            x,
            y,
            c,
        )]);
    }
}

/// Clearing is idempotent: any two all-zero surfaces of the same size hold
/// byte-for-byte identical buffers, so a second `clear` changes nothing.
pub proof fn lemma_clear_idempotent(s1: PixelSurface, s2: PixelSurface)
    requires
        s1.wf(),
        s2.wf(),
        s1.all_zero(),
        s2.all_zero(),
        s1.width == s2.width,
        s1.height == s2.height,
    ensures
        s1.data@ == s2.data@,
{
    assert(s1.data@ =~= s2.data@);
}

} // verus!
