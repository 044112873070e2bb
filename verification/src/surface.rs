//! In-memory models of the two pixel carriers: the destination surface a
//! backend renders into, and the source frame a capture reads from.  Both
//! hold row-major RGBA bytes with a top-left origin.

use vstd::prelude::*;
use vstd::arithmetic::mul::lemma_mul_upper_bound;

verus! {

/// One decoded frame of the video source.  A zero-sized frame is the valid
/// "not ready" state of a source.
#[derive(Debug, Clone, PartialEq, Eq)]
pub struct VideoFrame {
    pub width: u32,
    pub height: u32,
    pub data: Vec<u8>,
}

impl VideoFrame {
    /// The byte buffer holds exactly width * height RGBA pixels.
    pub open spec fn wf(&self) -> bool {
        self.data@.len() == self.width * self.height * 4
    }

    /// Wrap raw RGBA bytes; fails exactly when the length does not match.
    pub fn new(width: u32, height: u32, data: Vec<u8>) -> (r: Option<VideoFrame>)
        ensures
            r.is_some() <==> data@.len() == width * height * 4,
            match r {
                Some(f) => f.wf() && f.width == width && f.height == height && f.data@ == data@,
                None => true,
            },
    {
        proof {
            lemma_mul_upper_bound(width as int, u32::MAX as int, height as int, u32::MAX as int);
            vstd::arithmetic::mul::lemma_mul_nonnegative(width as int, height as int);
        }
        let need: u128 = width as u128 * height as u128 * 4;
        if data.len() as u128 == need {
            Some(VideoFrame { width, height, data })
        } else {
            None
        }
    }

    /// The "not ready" source: zero in both dimensions, no pixels.
    pub fn empty() -> (r: VideoFrame)
        ensures
            r.wf(),
            r.width == 0,
            r.height == 0,
    {
        VideoFrame { width: 0, height: 0, data: Vec::new() }
    }
}

/// The destination surface: a resizable rectangle of RGBA bytes.
#[derive(Debug, Clone, PartialEq, Eq)]
pub struct PixelSurface {
    pub width: u32,
    pub height: u32,
    pub data: Vec<u8>,
}

/// A byte vector of the given length, every byte zero.
pub(crate) fn zeroed(len: usize) -> (r: Vec<u8>)
    ensures
        r@.len() == len,
        forall|i: int| 0 <= i < len ==> r@[i] == 0,
{
    let mut v: Vec<u8> = Vec::new();
    while v.len() < len
        invariant
            v@.len() <= len,
            forall|i: int| 0 <= i < v@.len() ==> v@[i] == 0,
        decreases len - v@.len(),
    {
        v.push(0);
    }
    v
}

/// Copy `src` into `dst`, which must already have the right length.
pub(crate) fn copy_into(src: &Vec<u8>, dst: &mut Vec<u8>)
    requires
        old(dst)@.len() == src@.len(),
    ensures
        final(dst)@ == src@,
{
    let mut i: usize = 0;
    while i < src.len()
        invariant
            dst@.len() == src@.len(),
            i <= src@.len(),
            forall|k: int| 0 <= k < i ==> dst@[k] == src@[k],
        decreases src@.len() - i,
    {
        dst.set(i, src[i]);
        i = i + 1;
    }
    assert(dst@ =~= src@);
}

impl PixelSurface {
    /// The byte buffer holds exactly width * height RGBA pixels.
    pub open spec fn wf(&self) -> bool {
        self.data@.len() == self.width * self.height * 4
    }

    /// Every byte of the surface is zero (fully transparent black).
    pub open spec fn all_zero(&self) -> bool {
        forall|i: int| 0 <= i < self.data@.len() ==> self.data@[i] == 0
    }

    /// A fresh surface of the given size, fully transparent black.
    pub fn new(width: u32, height: u32) -> (r: PixelSurface)
        requires
            width * height * 4 <= usize::MAX,
        ensures
            r.wf(),
            r.width == width,
            r.height == height,
            r.all_zero(),
    {
        proof {
            vstd::arithmetic::mul::lemma_mul_nonnegative(width as int, height as int);
        }
        let len: usize = (width as usize) * (height as usize) * 4;
        PixelSurface { width, height, data: zeroed(len) }
    }

    /// Reset every byte to zero, keeping the size.
    pub fn clear_data(&mut self)
        requires
            old(self).wf(),
        ensures
            final(self).wf(),
            final(self).width == old(self).width,
            final(self).height == old(self).height,
            final(self).all_zero(),
    {
        let len = self.data.len();
        self.data = zeroed(len);
    }

    /// Give the surface a new size; all content is lost, as when a canvas
    /// is resized.
    pub fn resize_to(&mut self, width: u32, height: u32)
        requires
            width * height * 4 <= usize::MAX,
        ensures
            final(self).wf(),
            final(self).width == width,
            final(self).height == height,
            final(self).all_zero(),
    {
        *self = PixelSurface::new(width, height);
    }
}

} // verus!
