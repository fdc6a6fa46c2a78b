//! The pixel surface that the document is drawn on: RGBA, eight bits a channel,
//! as large as the window.

use vstd::prelude::*;
use crate::error::ViewerError;

verus! {

/// `tiny_skia::Pixmap`, an owned block of premultiplied RGBA pixels.
#[verifier::external_type_specification]
#[verifier::external_body]
pub struct ExPixmap(tiny_skia::Pixmap);

/// The bytes of a pixmap, row by row, four to a pixel.
pub uninterp spec fn pixmap_bytes(pixmap: tiny_skia::Pixmap) -> Seq<u8>;

/// Width and height of a pixmap, in pixels.
pub uninterp spec fn pixmap_extent(pixmap: tiny_skia::Pixmap) -> (u32, u32);

/// The widest surface: a row of it still takes less than 2^31 bytes.
pub const MAX_WIDTH: u32 = 0x1fff_ffff;

/// The highest surface: the rasterizer counts rows in an `i32`.
pub const MAX_HEIGHT: u32 = 0x7fff_ffff;

/// The sizes for which a surface can be had: neither side is zero, the width is
/// at most `MAX_WIDTH`, the height at most `MAX_HEIGHT`, and the whole block
/// can be addressed.
pub open spec fn extent_ok(width: u32, height: u32) -> bool {
    &&& 0 < width <= MAX_WIDTH
    &&& 0 < height <= MAX_HEIGHT
    &&& 4 * width * height <= isize::MAX
}

/// `len` bytes of transparent black.
pub open spec fn blank(len: nat) -> Seq<u8> {
    Seq::new(len, |i: int| 0u8)
}

/// `tiny_skia::Pixmap::new`. It gives a pixmap exactly when neither side is
/// zero, four times the width fits an `i32` and the byte count fits a `usize`;
/// that pixmap has the size asked for and holds zeros only. A byte count above
/// `isize::MAX` is kept away from it, since the vector behind the pixmap cannot
/// be that long. It cannot tell when memory runs out: the process ends then.
#[verifier::external_body]
fn pixmap_new(width: u32, height: u32) -> (made: Option<tiny_skia::Pixmap>)
    requires
        4 * width * height <= isize::MAX,
    ensures
        made is Some <==> (0 < width <= MAX_WIDTH && 0 < height),
        made matches Some(p) ==> pixmap_extent(p) == (width, height) && pixmap_bytes(p) == blank(
            (4 * width * height) as nat,
        ),
{
    tiny_skia::Pixmap::new(width, height)
}

/// `tiny_skia::Pixmap::data`: the pixmap's bytes, borrowed.
#[verifier::external_body]
fn pixmap_data(pixmap: &tiny_skia::Pixmap) -> (data: &[u8])
    ensures
        data@ == pixmap_bytes(*pixmap),
{
    pixmap.data()
}

/// `tiny_skia::Pixmap::data_mut`: the pixmap's bytes, borrowed for writing.
/// What is written through the slice is what the pixmap holds afterwards; its
/// size and the number of its bytes stay.
#[verifier::external_body]
fn pixmap_data_mut(pixmap: &mut tiny_skia::Pixmap) -> (data: &mut [u8])
    ensures
        data@ == pixmap_bytes(*old(pixmap)),
        final(data)@.len() == data@.len(),
        pixmap_bytes(*final(pixmap)) == final(data)@,
        pixmap_extent(*final(pixmap)) == pixmap_extent(*old(pixmap)),
{
    pixmap.data_mut()
}

/// `copy_from_slice` of slices: the target, which must be as long as the
/// source, holds the source's elements afterwards.
pub assume_specification<T: Copy>[ <[T]>::copy_from_slice ](dst: &mut [T], src: &[T])
    requires
        old(dst)@.len() == src@.len(),
    ensures
        final(dst)@ == src@,
;

/// What a surface amounts to.
pub struct FramebufferView {
    /// Width in pixels.
    pub width: u32,
    /// Height in pixels.
    pub height: u32,
    /// The bytes, row by row, four to a pixel.
    pub bytes: Seq<u8>,
}

impl FramebufferView {
    /// The size is one that surfaces can have, and there are four bytes for
    /// each pixel.
    pub open spec fn wf(self) -> bool {
        &&& extent_ok(self.width, self.height)
        &&& self.bytes.len() == 4 * self.width * self.height
    }

    /// The surface of the same size with other bytes.
    pub open spec fn holding(self, bytes: Seq<u8>) -> FramebufferView {
        FramebufferView { bytes, ..self }
    }
}

/// A pixel surface of a fixed size.
pub struct Framebuffer {
    pixels: tiny_skia::Pixmap,
    width: u32,
    height: u32,
}

impl View for Framebuffer {
    type V = FramebufferView;

    closed spec fn view(&self) -> FramebufferView {
        FramebufferView {
            width: self.width,
            height: self.height,
            bytes: pixmap_bytes(self.pixels),
        }
    }
}

impl Framebuffer {
    /// The pixmap has the size that the surface records.
    pub closed spec fn fitted(&self) -> bool {
        pixmap_extent(self.pixels) == (self.width, self.height)
    }

    /// A surface is well formed when its size is one that surfaces can have,
    /// its pixmap has that size, and it holds four bytes for each pixel.
    pub open spec fn wf(&self) -> bool {
        self.fitted() && self@.wf()
    }

    /// A new surface of `width` by `height` pixels, all transparent black.
    /// It fails exactly for the sizes that no surface can have. Where the
    /// machine has no memory left for a size that it could have, the process
    /// ends, as it does for any allocation.
    pub fn allocate(width: u32, height: u32) -> (res: Result<Framebuffer, ViewerError>)
        ensures
            res is Ok <==> extent_ok(width, height),
            res matches Ok(fb) ==> fb.wf() && fb@ == (FramebufferView {
                width,
                height,
                bytes: blank((4 * width * height) as nat),
            }),
            res matches Err(e) ==> e == ViewerError::Allocation,
    {
        if width == 0 || height == 0 || width > MAX_WIDTH || height > MAX_HEIGHT {
            return Err(ViewerError::Allocation);
        }
        let row: u64 = 4 * (width as u64);
        assert(row * height <= 0x7fff_fffc * 0x7fff_ffff) by (nonlinear_arith)
            requires
                row <= 0x7fff_fffc,
                height <= 0x7fff_ffff,
        ;
        let bytes: u64 = row * (height as u64);
        if bytes > isize::MAX as u64 {
            return Err(ViewerError::Allocation);
        }
        match pixmap_new(width, height) {
            Some(pixels) => Ok(Framebuffer { pixels, width, height }),
            None => Err(ViewerError::Allocation),
        }
    }

    /// Width in pixels.
    pub fn width(&self) -> (width: u32)
        ensures
            width == self@.width,
    {
        self.width
    }

    /// Height in pixels.
    pub fn height(&self) -> (height: u32)
        ensures
            height == self@.height,
    {
        self.height
    }

    /// The bytes of the surface, row by row, four to a pixel.
    pub fn bytes(&self) -> (data: &[u8])
        ensures
            data@ == self@.bytes,
    {
        pixmap_data(&self.pixels)
    }

    /// The bytes of the surface, for drawing on it. Whatever is written, the
    /// surface keeps its size and the number of its bytes.
    pub fn bytes_mut(&mut self) -> (data: &mut [u8])
        requires
            old(self).wf(),
        ensures
            data@ == old(self)@.bytes,
            final(data)@.len() == data@.len(),
            final(self)@ == old(self)@.holding(final(data)@),
            final(self).wf(),
    {
        pixmap_data_mut(&mut self.pixels)
    }

    /// Sets every byte to zero, so that nothing of an earlier drawing shows
    /// through where the next one is transparent.
    pub fn clear(&mut self)
        requires
            old(self).wf(),
        ensures
            final(self).wf(),
            final(self)@ == old(self)@.holding(blank(old(self)@.bytes.len())),
    {
        let width: u32 = self.width;
        let height: u32 = self.height;
        assert(width * height * 4 == 4 * width * height && width * height <= 4 * width * height)
            by (nonlinear_arith);
        let len: usize = width as usize * height as usize * 4;
        let zeros = vec![0u8; len];
        assert(zeros@ =~= blank(len as nat));
        let data = pixmap_data_mut(&mut self.pixels);
        data.copy_from_slice(&zeros);
    }
}

/// On every machine a surface can be had of every size that has no zero side
/// and takes less than 2^31 bytes: from a single pixel to 4096 by 4096 pixels
/// and beyond.
pub proof fn law_sizes_within_reach(width: u32, height: u32)
    requires
        0 < width,
        0 < height,
        4 * width * height <= 0x7fff_ffff,
    ensures
        extent_ok(width, height),
{
    assert(4 * width <= 4 * width * height && height <= 4 * width * height) by (nonlinear_arith)
        requires
            0 < width,
            0 < height,
    ;
}

} // verus!
