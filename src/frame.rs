//! The captured frame buffer: an owned snapshot of the engine's surface.

use vstd::prelude::*;

verus! {

/// Why a surface could not be captured.
#[derive(Clone, Copy, Debug, PartialEq, Eq, Structural)]
pub enum FrameError {
    /// The row stride is smaller than four bytes per pixel of a row.
    StrideTooSmall,
    /// The locked pixel memory holds fewer than `stride * height` bytes.
    PixelsTooShort,
}

/// Width and height in pixels, row stride in bytes, and `stride * height`
/// bytes of pixels, four per pixel in blue-green-red-alpha order.
pub struct FrameBuffer {
    width: u32,
    height: u32,
    stride: u32,
    pixels: Vec<u8>,
}

/// The number of bytes a surface of this shape occupies.
pub open spec fn frame_len(stride: u32, height: u32) -> int {
    stride as int * height as int
}

/// A row of `stride` bytes has room for `width` pixels.
pub open spec fn stride_fits(width: u32, stride: u32) -> bool {
    4 * (width as int) <= stride as int
}

/// The first `row_len` bytes of each of the first `rows` rows of `p`, rows
/// being `stride` bytes apart: the pixels without the row padding.
pub open spec fn packed_rows(p: Seq<u8>, row_len: int, stride: int, rows: int) -> Seq<u8>
    decreases rows,
{
    if rows <= 0 {
        Seq::empty()
    } else {
        packed_rows(p, row_len, stride, rows - 1) + p.subrange(
            (rows - 1) * stride,
            (rows - 1) * stride + row_len,
        )
    }
}

impl FrameBuffer {
    pub closed spec fn spec_width(&self) -> u32 {
        self.width
    }

    pub closed spec fn spec_height(&self) -> u32 {
        self.height
    }

    pub closed spec fn spec_stride(&self) -> u32 {
        self.stride
    }

    pub closed spec fn spec_pixels(&self) -> Seq<u8> {
        self.pixels@
    }

    /// The shape is consistent: the stride holds a row, and the pixels fill
    /// exactly `height` rows.
    pub open spec fn wf(&self) -> bool {
        &&& stride_fits(self.spec_width(), self.spec_stride())
        &&& self.spec_pixels().len() == frame_len(self.spec_stride(), self.spec_height())
    }

    #[verifier::type_invariant]
    closed spec fn shape_holds(&self) -> bool {
        &&& stride_fits(self.width, self.stride)
        &&& self.pixels@.len() == frame_len(self.stride, self.height)
    }

    /// Copies the first `stride * height` bytes of the locked surface memory
    /// `src` into an owned buffer, so the snapshot stays valid after the
    /// surface is unlocked and rendered again.
    pub fn from_locked_pixels(width: u32, height: u32, stride: u32, src: &[u8]) -> (r: Result<
        FrameBuffer,
        FrameError,
    >)
        ensures
            !stride_fits(width, stride) ==> r == Err::<FrameBuffer, FrameError>(
                FrameError::StrideTooSmall,
            ),
            stride_fits(width, stride) && src@.len() < frame_len(stride, height) ==> r == Err::<
                FrameBuffer,
                FrameError,
            >(FrameError::PixelsTooShort),
            stride_fits(width, stride) && src@.len() >= frame_len(stride, height) ==> (r matches Ok(
                f,
            ) && f.wf() && f.spec_width() == width && f.spec_height() == height && f.spec_stride()
                == stride && f.spec_pixels() == src@.subrange(0, frame_len(stride, height))),
    {
        if (stride as u64) < 4 * (width as u64) {
            return Err(FrameError::StrideTooSmall);
        }
        assert(stride as u64 * height as u64 <= 0xffff_ffff_u64 * 0xffff_ffff_u64) by (nonlinear_arith)
            requires
                stride <= 0xffff_ffff_u32,
                height <= 0xffff_ffff_u32,
        ;
        let total: u64 = stride as u64 * height as u64;
        if (src.len() as u64) < total {
            return Err(FrameError::PixelsTooShort);
        }
        let n: usize = total as usize;
        let mut pixels: Vec<u8> = Vec::with_capacity(n);
        let mut i: usize = 0;
        while i < n
            invariant
                n as int == frame_len(stride, height),
                n <= src@.len(),
                i <= n,
                pixels@ == src@.subrange(0, i as int),
            decreases n - i,
        {
            pixels.push(src[i]);
            i = i + 1;
            assert(pixels@ =~= src@.subrange(0, i as int));
        }
        Ok(FrameBuffer { width, height, stride, pixels })
    }

    pub fn width(&self) -> (r: u32)
        ensures
            r == self.spec_width(),
    {
        self.width
    }

    pub fn height(&self) -> (r: u32)
        ensures
            r == self.spec_height(),
    {
        self.height
    }

    /// Bytes per row, at least four per pixel of a row.
    pub fn stride(&self) -> (r: u32)
        ensures
            r == self.spec_stride(),
            stride_fits(self.spec_width(), r),
    {
        proof {
            use_type_invariant(self);
        }
        self.stride
    }

    /// The `stride * height` pixel bytes.
    pub fn pixels(&self) -> (r: &[u8])
        ensures
            r@ == self.spec_pixels(),
            r@.len() == frame_len(self.spec_stride(), self.spec_height()),
    {
        proof {
            use_type_invariant(self);
        }
        self.pixels.as_slice()
    }

    /// The pixels with the padding at the end of each row removed: `height`
    /// rows of `4 * width` bytes.
    pub fn packed_pixels(&self) -> (r: Vec<u8>)
        ensures
            r@ == packed_rows(
                self.spec_pixels(),
                4 * self.spec_width(),
                self.spec_stride() as int,
                self.spec_height() as int,
            ),
    {
        proof {
            use_type_invariant(self);
        }
        let row_len: usize = 4 * (self.width as usize);
        let stride: usize = self.stride as usize;
        let height: usize = self.height as usize;
        let ghost p = self.pixels@;
        let total: usize = self.pixels.len();
        let mut out: Vec<u8> = Vec::new();
        let mut row: usize = 0;
        while row < height
            invariant
                p == self.pixels@,
                p.len() == stride as int * height as int,
                p.len() == total,
                row_len as int == 4 * self.width,
                row_len <= stride,
                stride == self.stride,
                height == self.height,
                row <= height,
                out@ == packed_rows(p, row_len as int, stride as int, row as int),
            decreases height - row,
        {
            assert(row as int * stride as int + stride as int <= height as int * stride as int)
                by (nonlinear_arith)
                requires
                    row < height,
            ;
            let start: usize = row * stride;
            let mut k: usize = 0;
            while k < row_len
                invariant
                    p == self.pixels@,
                    p.len() == stride as int * height as int,
                    p.len() == total,
                    row_len <= stride,
                    start as int == row as int * stride as int,
                    start as int + stride as int <= p.len(),
                    k <= row_len,
                    out@ == packed_rows(p, row_len as int, stride as int, row as int) + p.subrange(
                        start as int,
                        start as int + k as int,
                    ),
                decreases row_len - k,
            {
                out.push(self.pixels[start + k]);
                k = k + 1;
                assert(out@ =~= packed_rows(p, row_len as int, stride as int, row as int)
                    + p.subrange(start as int, start as int + k as int));
            }
            row = row + 1;
            assert(packed_rows(p, row_len as int, stride as int, row as int) == packed_rows(
                p,
                row_len as int,
                stride as int,
                row as int - 1,
            ) + p.subrange(start as int, start as int + row_len as int));
        }
        out
    }

    /// Gives up the buffer, keeping its pixel bytes.
    pub fn into_pixels(self) -> (r: Vec<u8>)
        ensures
            r@ == self.spec_pixels(),
            r@.len() == frame_len(self.spec_stride(), self.spec_height()),
    {
        proof {
            use_type_invariant(&self);
        }
        self.pixels
    }
}

} // verus!
