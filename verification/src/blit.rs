//! Pixel-level semantics of drawing a frame into a viewport rectangle on a
//! surface: nearest-neighbour scaling, clipping at the surface edges, and
//! the per-channel colour transforms.

use vstd::prelude::*;
use vstd::arithmetic::div_mod::{
    lemma_fundamental_div_mod_converse_div, lemma_fundamental_div_mod_converse_mod,
    lemma_multiply_divide_lt,
};
use vstd::arithmetic::mul::{
    lemma_mul_inequality, lemma_mul_is_distributive_add_other_way, lemma_mul_nonnegative,
    lemma_mul_strict_inequality,
};

use crate::CaptureColor;
use crate::geometry::Rect;
use crate::surface::{PixelSurface, VideoFrame};

verus! {

/// Index of channel `c` of pixel `(x, y)` in a row-major RGBA buffer of
/// width `cw`.
pub open spec fn byte_index(cw: int, x: int, y: int, c: int) -> int {
    (y * cw + x) * 4 + c
}

/// Integer luminance of an RGB triple, ITU-R BT.601 weights.
pub open spec fn lum(r: u8, g: u8, b: u8) -> u8 {
    ((299 * (r as int) + 587 * (g as int) + 114 * (b as int)) / 1000) as u8
}

/// Channel `c` of the output pixel for source channels `(r, g, b, a)` under
/// the given colour semantics.
pub open spec fn apply_color(color: CaptureColor, r: u8, g: u8, b: u8, a: u8, c: int) -> u8 {
    match color {
        CaptureColor::RGBA => if c == 0 {
            r
        } else if c == 1 {
            g
        } else if c == 2 {
            b
        } else {
            a
        },
        CaptureColor::RGBL => if c == 0 {
            r
        } else if c == 1 {
            g
        } else if c == 2 {
            b
        } else {
            lum(r, g, b)
        },
        CaptureColor::LLLA => if c == 3 {
            a
        } else {
            lum(r, g, b)
        },
    }
}

/// Channel `c` of frame pixel `(x, y)`.
pub open spec fn frame_channel(frame: VideoFrame, x: int, y: int, c: int) -> u8 {
    frame.data@[byte_index(frame.width as int, x, y, c)]
}

/// Source coordinate sampled for destination coordinate `p` when a span of
/// `slen` source pixels is stretched over the viewport span `[v0, v0+vlen)`.
pub open spec fn src_coord(v0: int, vlen: int, slen: int, p: int) -> int {
    (p - v0) * slen / vlen
}

/// Whether surface pixel `(x, y)` lies inside both the surface and the
/// viewport rectangle.
pub open spec fn covered(
    vx: int,
    vy: int,
    vw: int,
    vh: int,
    cw: int,
    ch: int,
    x: int,
    y: int,
) -> bool {
    0 <= x < cw && 0 <= y < ch && vx <= x < vx + vw && vy <= y < vy + vh
}

/// Channel `c` of the frame pixel sampled for covered surface pixel
/// `(x, y)`, after the colour transform.
pub open spec fn sampled_channel(
    frame: VideoFrame,
    vx: int,
    vy: int,
    vw: int,
    vh: int,
    color: CaptureColor,
    x: int,
    y: int,
    c: int,
) -> u8 {
    let sx = src_coord(vx, vw, frame.width as int, x);
    let sy = src_coord(vy, vh, frame.height as int, y);
    apply_color(
        color,
        frame_channel(frame, sx, sy, 0),
        frame_channel(frame, sx, sy, 1),
        frame_channel(frame, sx, sy, 2),
        frame_channel(frame, sx, sy, 3),
        c,
    )
}

/// Relation between the surface bytes before and after drawing `frame` into
/// the viewport `(vx, vy, vw, vh)` on a `cw` by `ch` surface.
pub open spec fn blit_rel(
    pre: Seq<u8>,
    frame: VideoFrame,
    vx: int,
    vy: int,
    vw: int,
    vh: int,
    color: CaptureColor,
    cw: int,
    ch: int,
    post: Seq<u8>,
) -> bool {
    &&& post.len() == pre.len()
    &&& pre.len() == cw * ch * 4
    &&& forall|x: int, y: int, c: int|
        0 <= x < cw && 0 <= y < ch && 0 <= c < 4 ==> post[byte_index(cw, x, y, c)] == (
        if covered(vx, vy, vw, vh, cw, ch, x, y) {
            sampled_channel(frame, vx, vy, vw, vh, color, x, y, c)
        } else {
            pre[byte_index(cw, x, y, c)]
        })
}

/// Pixel indices are in bounds: channel `c` of pixel `(x, y)` lies inside a
/// `cw` by `ch` RGBA buffer.
pub proof fn lemma_pixel_index_bound(cw: int, ch: int, x: int, y: int, c: int)
    requires
        0 <= x < cw,
        0 <= y < ch,
        0 <= c < 4,
    ensures
        0 <= y * cw,
        0 <= y * cw + x < cw * ch,
        0 <= byte_index(cw, x, y, c) < cw * ch * 4,
{
    lemma_mul_nonnegative(y, cw);
    lemma_mul_inequality(y, ch - 1, cw);
    lemma_mul_is_distributive_add_other_way(cw, ch - 1, 1);
    assert((ch - 1) * cw + cw == ch * cw);
    vstd::arithmetic::mul::lemma_mul_is_commutative(ch, cw);
    lemma_mul_inequality(y * cw + x, cw * ch - 1, 4);
    vstd::arithmetic::mul::lemma_mul_is_distributive_sub_other_way(4, cw * ch, 1);
    vstd::arithmetic::mul::lemma_mul_is_commutative(y * cw + x, 4);
    vstd::arithmetic::mul::lemma_mul_is_commutative(cw * ch, 4);
}

/// Distinct pixel/channel triples have distinct byte indices.
pub proof fn lemma_pixel_index_injective(
    cw: int,
    x1: int,
    y1: int,
    c1: int,
    x2: int,
    y2: int,
    c2: int,
)
    requires
        0 <= x1 < cw,
        0 <= y1,
        0 <= c1 < 4,
        0 <= x2 < cw,
        0 <= y2,
        0 <= c2 < 4,
        byte_index(cw, x1, y1, c1) == byte_index(cw, x2, y2, c2),
    ensures
        x1 == x2,
        y1 == y2,
        c1 == c2,
{
    let i = byte_index(cw, x1, y1, c1);
    lemma_fundamental_div_mod_converse_mod(i, 4, y1 * cw + x1, c1);
    lemma_fundamental_div_mod_converse_div(i, 4, y1 * cw + x1, c1);
    lemma_fundamental_div_mod_converse_mod(i, 4, y2 * cw + x2, c2);
    lemma_fundamental_div_mod_converse_div(i, 4, y2 * cw + x2, c2);
    let p = y1 * cw + x1;
    lemma_fundamental_div_mod_converse_mod(p, cw, y1, x1);
    lemma_fundamental_div_mod_converse_div(p, cw, y1, x1);
    lemma_fundamental_div_mod_converse_mod(p, cw, y2, x2);
    lemma_fundamental_div_mod_converse_div(p, cw, y2, x2);
}

/// Luminance of an RGB triple, computed as specified by [`lum`].
fn lum_exec(r: u8, g: u8, b: u8) -> (l: u8)
    ensures
        l == lum(r, g, b),
{
    ((299u32 * r as u32 + 587u32 * g as u32 + 114u32 * b as u32) / 1000u32) as u8
}

/// The four output channels for one sampled pixel, per [`apply_color`].
fn transformed(color: CaptureColor, r: u8, g: u8, b: u8, a: u8) -> (o: (u8, u8, u8, u8))
    ensures
        o.0 == apply_color(color, r, g, b, a, 0),
        o.1 == apply_color(color, r, g, b, a, 1),
        o.2 == apply_color(color, r, g, b, a, 2),
        o.3 == apply_color(color, r, g, b, a, 3),
{
    match color {
        CaptureColor::RGBA => (r, g, b, a),
        CaptureColor::RGBL => (r, g, b, lum_exec(r, g, b)),
        CaptureColor::LLLA => {
            let l = lum_exec(r, g, b);
            (l, l, l, a)
        },
    }
}

impl PixelSurface {
    /// Draw `frame` into the viewport rectangle `vp`, stretching the whole
    /// frame over the rectangle and clipping it at the surface edges.
    /// Pixels outside the rectangle keep their previous value.
    pub fn blit(&mut self, frame: &VideoFrame, vp: Rect, color: CaptureColor)
        requires
            old(self).wf(),
            frame.wf(),
            frame.width > 0,
            frame.height > 0,
        ensures
            final(self).wf(),
            final(self).width == old(self).width,
            final(self).height == old(self).height,
            blit_rel(
                old(self).data@,
                *frame,
                vp.x as int,
                vp.y as int,
                vp.w as int,
                vp.h as int,
                color,
                old(self).width as int,
                old(self).height as int,
                final(self).data@,
            ),
    {
        let cw: u32 = self.width;
        let ch: u32 = self.height;
        let ghost pre = self.data@;
        let ghost vx = vp.x as int;
        let ghost vy = vp.y as int;
        let ghost vw = vp.w as int;
        let ghost vh = vp.h as int;

        let x0: usize = if vp.x <= 0 {
            0
        } else if vp.x as u64 >= cw as u64 {
            cw as usize
        } else {
            vp.x as usize
        };
        let xend: i128 = vp.x as i128 + vp.w as i128;
        let x1: usize = if xend <= 0 {
            0
        } else if xend >= cw as i128 {
            cw as usize
        } else {
            xend as usize
        };
        let y0: usize = if vp.y <= 0 {
            0
        } else if vp.y as u64 >= ch as u64 {
            ch as usize
        } else {
            vp.y as usize
        };
        let yend: i128 = vp.y as i128 + vp.h as i128;
        let y1: usize = if yend <= 0 {
            0
        } else if yend >= ch as i128 {
            ch as usize
        } else {
            yend as usize
        };

        assert(forall|x: int, y: int|
            0 <= x < cw && 0 <= y < ch ==> (covered(vx, vy, vw, vh, cw as int, ch as int, x, y)
                <==> (x0 <= x < x1 && y0 <= y < y1)));

        let mut y: usize = y0;
        while y < y1
            invariant
                self.width == cw,
                self.height == ch,
                self.data@.len() == pre.len(),
                pre.len() == cw * ch * 4,
                frame.wf(),
                frame.width > 0,
                frame.height > 0,
                y0 <= y <= y1,
                y1 <= ch,
                x0 <= x1 <= cw,
                vx == vp.x as int,
                vy == vp.y as int,
                vw == vp.w as int,
                vh == vp.h as int,
                forall|xx: int, yy: int|
                    0 <= xx < cw && 0 <= yy < ch ==> (covered(vx, vy, vw, vh, cw as int, ch as int, xx, yy)
                        <==> (x0 <= xx < x1 && y0 <= yy < y1)),
                forall|xx: int, yy: int, cc: int|
                    0 <= xx < cw && 0 <= yy < ch && 0 <= cc < 4 ==> self.data@[byte_index(
                        cw as int,
                        xx,
                        yy,
                        cc,
                    )] == (if covered(vx, vy, vw, vh, cw as int, ch as int, xx, yy) && yy < y {
                        sampled_channel(*frame, vx, vy, vw, vh, color, xx, yy, cc)
                    } else {
                        pre[byte_index(cw as int, xx, yy, cc)]
                    }),
            decreases y1 - y,
        {
            let mut x: usize = x0;
            while x < x1
                invariant
                    self.width == cw,
                    self.height == ch,
                    self.data@.len() == pre.len(),
                    pre.len() == cw * ch * 4,
                    frame.wf(),
                    frame.width > 0,
                    frame.height > 0,
                    y0 <= y < y1,
                    y1 <= ch,
                    x0 <= x <= x1,
                    x1 <= cw,
                    vx == vp.x as int,
                    vy == vp.y as int,
                    vw == vp.w as int,
                    vh == vp.h as int,
                    forall|xx: int, yy: int|
                        0 <= xx < cw && 0 <= yy < ch ==> (covered(
                            vx,
                            vy,
                            vw,
                            vh,
                            cw as int,
                            ch as int,
                            xx,
                            yy,
                        ) <==> (x0 <= xx < x1 && y0 <= yy < y1)),
                    forall|xx: int, yy: int, cc: int|
                        0 <= xx < cw && 0 <= yy < ch && 0 <= cc < 4 ==> self.data@[byte_index(
                            cw as int,
                            xx,
                            yy,
                            cc,
                        )] == (if covered(vx, vy, vw, vh, cw as int, ch as int, xx, yy) && (yy < y
                            || (yy == y && xx < x)) {
                            sampled_channel(*frame, vx, vy, vw, vh, color, xx, yy, cc)
                        } else {
                            pre[byte_index(cw as int, xx, yy, cc)]
                        }),
                decreases x1 - x,
            {
                let fw: u32 = frame.width;
                let fh: u32 = frame.height;

                assert(covered(vx, vy, vw, vh, cw as int, ch as int, x as int, y as int));
                let off_x: i128 = x as i128 - vp.x as i128;
                let off_y: i128 = y as i128 - vp.y as i128;
                assert(0 <= off_x < vw);
                assert(0 <= off_y < vh);
                proof {
                    vstd::arithmetic::mul::lemma_mul_upper_bound(
                        off_x as int,
                        u64::MAX as int,
                        fw as int,
                        u32::MAX as int,
                    );
                    lemma_mul_nonnegative(off_x as int, fw as int);
                    vstd::arithmetic::mul::lemma_mul_upper_bound(
                        off_y as int,
                        u64::MAX as int,
                        fh as int,
                        u32::MAX as int,
                    );
                    lemma_mul_nonnegative(off_y as int, fh as int);
                }
                let sx128: u128 = (off_x as u128 * fw as u128) / (vp.w as u128);
                let sy128: u128 = (off_y as u128 * fh as u128) / (vp.h as u128);
                assert(sx128 == src_coord(vx, vw, fw as int, x as int) && sx128 < fw) by {
                    lemma_mul_strict_inequality(off_x as int, vw, fw as int);
                    lemma_mul_nonnegative(off_x as int, fw as int);
                    lemma_multiply_divide_lt(off_x as int * fw as int, vw, fw as int);
                    vstd::arithmetic::mul::lemma_mul_is_commutative(vw, fw as int);
                };
                assert(sy128 == src_coord(vy, vh, fh as int, y as int) && sy128 < fh) by {
                    lemma_mul_strict_inequality(off_y as int, vh, fh as int);
                    lemma_mul_nonnegative(off_y as int, fh as int);
                    lemma_multiply_divide_lt(off_y as int * fh as int, vh, fh as int);
                    vstd::arithmetic::mul::lemma_mul_is_commutative(vh, fh as int);
                };
                let sx: usize = sx128 as usize;
                let sy: usize = sy128 as usize;

                proof {
                    lemma_pixel_index_bound(fw as int, fh as int, sx as int, sy as int, 3);
                    lemma_mul_nonnegative(fw as int, fh as int);
                    assert(fw as int * fh as int * 4 == frame.data@.len());
                }
                let flen: usize = frame.data.len();
                assert(fw as int * fh as int <= flen);
                let fbase: usize = (sy * fw as usize + sx) * 4;
                let r = frame.data[fbase];
                let g = frame.data[fbase + 1];
                let b = frame.data[fbase + 2];
                let a = frame.data[fbase + 3];
                let o = transformed(color, r, g, b, a);

                proof {
                    lemma_pixel_index_bound(cw as int, ch as int, x as int, y as int, 3);
                    lemma_mul_nonnegative(cw as int, ch as int);
                    assert(cw as int * ch as int * 4 == pre.len());
                }
                let dlen: usize = self.data.len();
                assert(cw as int * ch as int <= dlen);
                let base: usize = (y * cw as usize + x) * 4;
                self.data.set(base, o.0);
                self.data.set(base + 1, o.1);
                self.data.set(base + 2, o.2);
                self.data.set(base + 3, o.3);

                proof {
                    let s = sampled_channel(*frame, vx, vy, vw, vh, color, x as int, y as int, 0);
                    assert(frame_channel(*frame, sx as int, sy as int, 0) == r);
                    assert(frame_channel(*frame, sx as int, sy as int, 1) == g);
                    assert(frame_channel(*frame, sx as int, sy as int, 2) == b);
                    assert(frame_channel(*frame, sx as int, sy as int, 3) == a);
                    assert forall|xx: int, yy: int, cc: int|
                        0 <= xx < cw && 0 <= yy < ch && 0 <= cc < 4 implies self.data@[byte_index(
                        cw as int,
                        xx,
                        yy,
                        cc,
                    )] == (if covered(vx, vy, vw, vh, cw as int, ch as int, xx, yy) && (yy < y || (
                        yy == y && xx < x + 1)) {
                        sampled_channel(*frame, vx, vy, vw, vh, color, xx, yy, cc)
                    } else {
                        pre[byte_index(cw as int, xx, yy, cc)]
                    }) by {
                        lemma_pixel_index_bound(cw as int, ch as int, xx, yy, cc);
                        if xx == x && yy == y {
                            assert(byte_index(cw as int, xx, yy, cc) == base + cc);
                        } else {
                            let i = byte_index(cw as int, xx, yy, cc);
                            if i == byte_index(cw as int, x as int, y as int, 0) {
                                lemma_pixel_index_injective(cw as int, xx, yy, cc, x as int, y as int, 0);
                            }
                            if i == byte_index(cw as int, x as int, y as int, 1) {
                                lemma_pixel_index_injective(cw as int, xx, yy, cc, x as int, y as int, 1);
                            }
                            if i == byte_index(cw as int, x as int, y as int, 2) {
                                lemma_pixel_index_injective(cw as int, xx, yy, cc, x as int, y as int, 2);
                            }
                            if i == byte_index(cw as int, x as int, y as int, 3) {
                                lemma_pixel_index_injective(cw as int, xx, yy, cc, x as int, y as int, 3);
                            }
                        }
                    }
                }
                x = x + 1;
            }
            y = y + 1;
        }
    }
}

} // verus!
