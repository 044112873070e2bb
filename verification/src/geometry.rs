//! Geometry resolver: maps a source frame size, a destination surface size
//! and a capture mode to the destination viewport, a resize-or-keep decision,
//! a clear-before-draw decision and the size reported to the caller.

use vstd::prelude::*;
use vstd::arithmetic::mul::*;

use crate::CaptureMode;

verus! {

/// A destination rectangle in surface coordinates.  The origin may be
/// negative and the rectangle may exceed the surface: drawing clips it.
#[derive(Debug, Clone, Copy, PartialEq, Eq, Structural)]
pub struct Rect {
    pub x: i64,
    pub y: i64,
    pub w: u64,
    pub h: u64,
}

/// Everything a backend needs to know to execute one capture.
#[derive(Debug, Clone, Copy, PartialEq, Eq)]
pub struct Resolution {
    /// New surface size the destination must be given before drawing.
    pub resize: Option<(u32, u32)>,
    /// Whether stale destination content must be cleared before drawing.
    pub clear: bool,
    /// Whether any drawing happens at all; false exactly for an empty source.
    pub draw: bool,
    /// The destination rectangle the frame is drawn into.
    pub viewport: Rect,
    /// The size reported to the caller.
    pub output: (u32, u32),
}

/// An empty source (either dimension zero) draws nothing.
pub open spec fn draws(sw: int, sh: int) -> bool {
    sw > 0 && sh > 0
}

/// `Put(dx, dy)` must clear first whenever the frame would not fully cover
/// the previous surface content.
pub open spec fn put_clear(dx: int, dy: int, sw: int, sh: int, cw: int, ch: int) -> bool {
    dx > 0 || dy > 0 || sw - dx < cw || sh - dy < ch
}

/// `Pinhole` must clear first when the source is smaller than the
/// destination in either dimension.
pub open spec fn pinhole_clear(sw: int, sh: int, cw: int, ch: int) -> bool {
    sw < cw || sh < ch
}

/// Clear-before-draw decision for every mode.
pub open spec fn needs_clear(mode: CaptureMode, sw: int, sh: int, cw: int, ch: int) -> bool {
    match mode {
        CaptureMode::Put(dx, dy) => put_clear(dx as int, dy as int, sw, sh, cw, ch),
        CaptureMode::Fill => false,
        CaptureMode::Adjust => false,
        CaptureMode::Pinhole => pinhole_clear(sw, sh, cw, ch),
    }
}

/// Only `Adjust` resizes the destination, and only when the sizes differ.
pub open spec fn resize_target(mode: CaptureMode, sw: u32, sh: u32, cw: u32, ch: u32) -> Option<
    (u32, u32),
> {
    match mode {
        CaptureMode::Adjust => if sw != cw || sh != ch {
            Some((sw, sh))
        } else {
            None
        },
        _ => None,
    }
}

/// Width of the uniformly scaled source rectangle in `Pinhole` mode.
pub open spec fn pinhole_scaled_w(sw: int, sh: int, cw: int, ch: int) -> int {
    if sw > sh {
        ch * sw / sh
    } else {
        cw
    }
}

/// Height of the uniformly scaled source rectangle in `Pinhole` mode.
pub open spec fn pinhole_scaled_h(sw: int, sh: int, cw: int, ch: int) -> int {
    if sw > sh {
        ch
    } else {
        cw * sh / sw
    }
}

/// Offset that centers a length-`s` span over a length-`c` span, rounding
/// the (possibly negative) margin toward zero.
pub open spec fn center_offset(c: int, s: int) -> int {
    if c >= s {
        (c - s) / 2
    } else {
        -((s - c) / 2)
    }
}

/// Viewport x origin, per mode.
pub open spec fn vp_x(mode: CaptureMode, sw: int, sh: int, cw: int, ch: int) -> int {
    match mode {
        CaptureMode::Put(dx, _dy) => dx as int,
        CaptureMode::Fill => 0,
        CaptureMode::Adjust => 0,
        CaptureMode::Pinhole => center_offset(cw, pinhole_scaled_w(sw, sh, cw, ch)),
    }
}

/// Viewport y origin, per mode.
pub open spec fn vp_y(mode: CaptureMode, sw: int, sh: int, cw: int, ch: int) -> int {
    match mode {
        CaptureMode::Put(_dx, dy) => dy as int,
        CaptureMode::Fill => 0,
        CaptureMode::Adjust => 0,
        CaptureMode::Pinhole => center_offset(ch, pinhole_scaled_h(sw, sh, cw, ch)),
    }
}

/// Viewport width, per mode.
pub open spec fn vp_w(mode: CaptureMode, sw: int, sh: int, cw: int, ch: int) -> int {
    match mode {
        CaptureMode::Put(..) => sw,
        CaptureMode::Fill => cw,
        CaptureMode::Adjust => sw,
        CaptureMode::Pinhole => pinhole_scaled_w(sw, sh, cw, ch),
    }
}

/// Viewport height, per mode.
pub open spec fn vp_h(mode: CaptureMode, sw: int, sh: int, cw: int, ch: int) -> int {
    match mode {
        CaptureMode::Put(..) => sh,
        CaptureMode::Fill => ch,
        CaptureMode::Adjust => sh,
        CaptureMode::Pinhole => pinhole_scaled_h(sw, sh, cw, ch),
    }
}

/// Size reported to the caller: `Put` and `Adjust` report the raw source
/// size, `Fill` and `Pinhole` the destination size; an empty source reports
/// the destination size unchanged.
pub open spec fn output_size(mode: CaptureMode, sw: u32, sh: u32, cw: u32, ch: u32) -> (
    u32,
    u32,
) {
    if !draws(sw as int, sh as int) {
        (cw, ch)
    } else {
        match mode {
            CaptureMode::Put(..) => (sw, sh),
            CaptureMode::Fill => (cw, ch),
            CaptureMode::Adjust => (sw, sh),
            CaptureMode::Pinhole => (cw, ch),
        }
    }
}

/// Surface size after the capture: the resize target if any, else unchanged.
pub open spec fn surface_after(mode: CaptureMode, sw: u32, sh: u32, cw: u32, ch: u32) -> (
    u32,
    u32,
) {
    if !draws(sw as int, sh as int) {
        (cw, ch)
    } else {
        match resize_target(mode, sw, sh, cw, ch) {
            Some(t) => t,
            None => (cw, ch),
        }
    }
}

/// The scaled `Pinhole` span is never larger than the product of two `u32`
/// dimensions, so it fits in a `u64`.
proof fn lemma_pinhole_span_bound(a: int, b: int, d: int)
    requires
        0 <= a <= u32::MAX,
        0 <= b <= u32::MAX,
        0 < d,
    ensures
        0 <= a * b / d <= u32::MAX * u32::MAX,
{
    lemma_mul_nonnegative(a, b);
    lemma_mul_upper_bound(a, u32::MAX as int, b, u32::MAX as int);
    vstd::arithmetic::div_mod::lemma_div_nonincreasing(a * b, d);
    vstd::arithmetic::div_mod::lemma_div_pos_is_pos(a * b, d);
}

/// Resolve one capture: decide the destination rectangle, the resize target,
/// the clear-before-draw flag and the reported size, for source size
/// `(sw, sh)`, destination size `(cw, ch)` and the requested mode.
pub fn resolve(mode: CaptureMode, sw: u32, sh: u32, cw: u32, ch: u32) -> (r: Resolution)
    ensures
        r.draw == draws(sw as int, sh as int),
        r.output == output_size(mode, sw, sh, cw, ch),
        !r.draw ==> r.resize.is_none() && !r.clear && r.viewport == (Rect { x: 0i64, y: 0i64, w: 0u64, h: 0u64 }),
        r.draw ==> r.resize == resize_target(mode, sw, sh, cw, ch),
        r.draw ==> r.clear == needs_clear(mode, sw as int, sh as int, cw as int, ch as int),
        r.draw ==> r.viewport.x as int == vp_x(mode, sw as int, sh as int, cw as int, ch as int),
        r.draw ==> r.viewport.y as int == vp_y(mode, sw as int, sh as int, cw as int, ch as int),
        r.draw ==> r.viewport.w as int == vp_w(mode, sw as int, sh as int, cw as int, ch as int),
        r.draw ==> r.viewport.h as int == vp_h(mode, sw as int, sh as int, cw as int, ch as int),
{
    if sw == 0 || sh == 0 {
        return Resolution {
            resize: None,
            clear: false,
            draw: false,
            viewport: Rect { x: 0, y: 0, w: 0, h: 0 },
            output: (cw, ch),
        };
    }
    match mode {
        CaptureMode::Put(dx, dy) => {
            let clear = dx > 0 || dy > 0 || (sw as i64 - dx as i64) < cw as i64 || (sh as i64
                - dy as i64) < ch as i64;
            Resolution {
                resize: None,
                clear,
                draw: true,
                viewport: Rect { x: dx as i64, y: dy as i64, w: sw as u64, h: sh as u64 },
                output: (sw, sh),
            }
        },
        CaptureMode::Fill => Resolution {
            resize: None,
            clear: false,
            draw: true,
            viewport: Rect { x: 0, y: 0, w: cw as u64, h: ch as u64 },
            output: (cw, ch),
        },
        CaptureMode::Adjust => {
            let resize = if sw != cw || sh != ch {
                Some((sw, sh))
            } else {
                None
            };
            Resolution {
                resize,
                clear: false,
                draw: true,
                viewport: Rect { x: 0, y: 0, w: sw as u64, h: sh as u64 },
                output: (sw, sh),
            }
        },
        CaptureMode::Pinhole => {
            let clear = sw < cw || sh < ch;
            let (scaled_w, scaled_h): (u64, u64) = if sw > sh {
                proof {
                    lemma_mul_upper_bound(ch as int, u32::MAX as int, sw as int, u32::MAX as int);
                    lemma_mul_nonnegative(ch as int, sw as int);
                    lemma_pinhole_span_bound(ch as int, sw as int, sh as int);
                }
                ((ch as u64 * sw as u64) / (sh as u64), ch as u64)
            } else {
                proof {
                    lemma_mul_upper_bound(cw as int, u32::MAX as int, sh as int, u32::MAX as int);
                    lemma_mul_nonnegative(cw as int, sh as int);
                    lemma_pinhole_span_bound(cw as int, sh as int, sw as int);
                }
                (cw as u64, (cw as u64 * sh as u64) / (sw as u64))
            };
            let x = centered_origin(cw, scaled_w);
            let y = centered_origin(ch, scaled_h);
            Resolution {
                resize: None,
                clear,
                draw: true,
                viewport: Rect { x, y, w: scaled_w, h: scaled_h },
                output: (cw, ch),
            }
        },
    }
}

/// `Pinhole` preserves the source aspect ratio in the scaled rectangle, up
/// to integer rounding (exactly, when the division is exact), and centers
/// the rectangle: the two horizontal margins (or overhangs) differ only by
/// the parity of their sum, and likewise vertically.
pub proof fn lemma_pinhole_cover_geometry(sw: int, sh: int, cw: int, ch: int)
    requires
        0 < sw,
        0 < sh,
        0 <= cw,
        0 <= ch,
    ensures
        sw > sh ==> pinhole_scaled_h(sw, sh, cw, ch) == ch && sh * pinhole_scaled_w(sw, sh, cw, ch)
            <= ch * sw < sh * (pinhole_scaled_w(sw, sh, cw, ch) + 1),
        sw > sh && (ch * sw) % sh == 0 ==> sh * pinhole_scaled_w(sw, sh, cw, ch) == ch * sw,
        sw <= sh ==> pinhole_scaled_w(sw, sh, cw, ch) == cw && sw * pinhole_scaled_h(
            sw,
            sh,
            cw,
            ch,
        ) <= cw * sh < sw * (pinhole_scaled_h(sw, sh, cw, ch) + 1),
        sw <= sh && (cw * sh) % sw == 0 ==> sw * pinhole_scaled_h(sw, sh, cw, ch) == cw * sh,
        center_split(cw, pinhole_scaled_w(sw, sh, cw, ch), vp_x(CaptureMode::Pinhole, sw, sh, cw, ch)),
        center_split(ch, pinhole_scaled_h(sw, sh, cw, ch), vp_y(CaptureMode::Pinhole, sw, sh, cw, ch)),
{
    if sw > sh {
        vstd::arithmetic::div_mod::lemma_fundamental_div_mod(ch * sw, sh);
        vstd::arithmetic::div_mod::lemma_mod_bound(ch * sw, sh);
        lemma_mul_nonnegative(ch, sw);
        vstd::arithmetic::mul::lemma_mul_is_distributive_add(
            sh,
            pinhole_scaled_w(sw, sh, cw, ch),
            1,
        );
    } else {
        vstd::arithmetic::div_mod::lemma_fundamental_div_mod(cw * sh, sw);
        vstd::arithmetic::div_mod::lemma_mod_bound(cw * sh, sw);
        lemma_mul_nonnegative(cw, sh);
        vstd::arithmetic::mul::lemma_mul_is_distributive_add(
            sw,
            pinhole_scaled_h(sw, sh, cw, ch),
            1,
        );
    }
}

/// A span of length `s` placed at origin `o` sits centered over a span of
/// length `c`: the near and far margins (for a smaller `s`) or overhangs
/// (for a larger `s`) are the two halves of their sum, the far one taking
/// the odd pixel.
pub open spec fn center_split(c: int, s: int, o: int) -> bool {
    if c >= s {
        o == (c - s) / 2 && c - (o + s) == (c - s) - (c - s) / 2
    } else {
        -o == (s - c) / 2 && (o + s) - c == (s - c) - (s - c) / 2
    }
}

/// Compute `center_offset(c, s)` for a span that fits the `Pinhole` bound.
fn centered_origin(c: u32, s: u64) -> (r: i64)
    requires
        s <= u32::MAX * u32::MAX,
    ensures
        r as int == center_offset(c as int, s as int),
{
    if c as u64 >= s {
        ((c as u64 - s) / 2) as i64
    } else {
        let m = (s - c as u64) / 2;
        assert(m < 0x8000_0000_0000_0000u64) by {
            vstd::arithmetic::div_mod::lemma_div_nonincreasing((s - c) as int, 2);
        };
        -(m as i64)
    }
}

} // verus!
