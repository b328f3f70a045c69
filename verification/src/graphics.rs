//! The layout of the buffer a rendered frame is read back through: rows of
//! RGBA pixels, each padded to the copy alignment that WebGPU requires.
use vstd::prelude::*;

verus! {

/// The alignment, in bytes, that WebGPU requires of the rows of a buffer
/// that a texture is copied into.
pub const COPY_BYTES_PER_ROW_ALIGNMENT: usize = 256;

/// The bytes per pixel of the RGBA format rendered to.
pub const BYTES_PER_PIXEL: usize = 4;

/// The sizes of a read-back buffer for a picture.
#[derive(Debug, Clone, Copy, PartialEq, Eq, Structural)]
pub struct BufferDimensions {
    pub width: usize,
    pub height: usize,
    pub unpadded_bytes_per_row: usize,
    pub padded_bytes_per_row: usize,
}

impl BufferDimensions {
    /// The buffer layout for a picture of `width` by `height` pixels: each
    /// row holds the row's pixels, then the fewest bytes that bring it to a
    /// multiple of the alignment.
    pub fn new(width: usize, height: usize) -> (r: Self)
        requires
            width * BYTES_PER_PIXEL + COPY_BYTES_PER_ROW_ALIGNMENT - 1 <= usize::MAX,
        ensures
            r.width == width,
            r.height == height,
            r.unpadded_bytes_per_row == width * BYTES_PER_PIXEL,
            r.padded_bytes_per_row % COPY_BYTES_PER_ROW_ALIGNMENT == 0,
            r.unpadded_bytes_per_row <= r.padded_bytes_per_row < r.unpadded_bytes_per_row + COPY_BYTES_PER_ROW_ALIGNMENT,
    {
        let bytes_per_pixel = BYTES_PER_PIXEL;
        let unpadded_bytes_per_row = width * bytes_per_pixel;
        let align = COPY_BYTES_PER_ROW_ALIGNMENT;
        let padded_bytes_per_row_padding = (align - unpadded_bytes_per_row % align) % align;
        let padded_bytes_per_row = unpadded_bytes_per_row + padded_bytes_per_row_padding;
        assert(padded_bytes_per_row % 256 == 0) by (nonlinear_arith)
            requires
                padded_bytes_per_row == unpadded_bytes_per_row + (256 - unpadded_bytes_per_row % 256) % 256,
        {
            let u = unpadded_bytes_per_row as int;
            let m = u % 256;
            assert(0 <= m < 256);
            if m == 0 {
                assert((256 - m) % 256 == 0);
            } else {
                assert((256 - m) % 256 == 256 - m);
                assert(u == (u / 256) * 256 + m);
                assert(u + (256 - m) == (u / 256 + 1) * 256);
            }
        }
        Self {
            width,
            height,
            unpadded_bytes_per_row,
            padded_bytes_per_row,
        }
    }
}

/// The size in bytes of the buffer a picture laid out as `d` is read back
/// through: a padded row for each row of the picture.
pub fn output_buffer_size(d: BufferDimensions) -> (r: u64)
    requires
        d.padded_bytes_per_row * d.height <= usize::MAX,
    ensures
        r == d.padded_bytes_per_row * d.height,
{
    (d.padded_bytes_per_row * d.height) as u64
}

/// Whether `dest`, with rows `line_size` bytes apart, has room for a
/// picture read back through a buffer laid out as `dims`.
pub open spec fn readback_fits(dims: BufferDimensions, padded_len: int, dest_len: int, line_size: int) -> bool {
    &&& dims.unpadded_bytes_per_row <= dims.padded_bytes_per_row
    &&& padded_len == dims.height * dims.padded_bytes_per_row
    &&& dims.unpadded_bytes_per_row <= line_size
    &&& dims.height * line_size <= dest_len
    &&& dest_len <= usize::MAX
}

/// Copies the pixels of each row of the read-back buffer, without the
/// row padding, into the rows of `dest`, which are `line_size` bytes apart.
/// The bytes of `dest` outside the copied pixels are left as they were.
pub fn copy_unpadded_rows(padded: &[u8], dims: BufferDimensions, dest: &mut Vec<u8>, line_size: usize)
    requires
        readback_fits(dims, padded@.len() as int, old(dest)@.len() as int, line_size as int),
    ensures
        final(dest)@.len() == old(dest)@.len(),
        forall|row: int, col: int| 0 <= row < dims.height && 0 <= col < dims.unpadded_bytes_per_row
            ==> #[trigger] final(dest)@[row * line_size + col] == padded@[row * dims.padded_bytes_per_row + col],
        forall|k: int| 0 <= k < final(dest)@.len() && (k >= dims.height * line_size || k % (line_size as int) >= dims.unpadded_bytes_per_row)
            ==> #[trigger] final(dest)@[k] == old(dest)@[k],
{
    let ghost d0 = dest@;
    let padded_len = padded.len();
    let mut row: usize = 0;
    while row < dims.height
        invariant
            readback_fits(dims, padded@.len() as int, d0.len() as int, line_size as int),
            row <= dims.height,
            padded_len == padded@.len(),
            dest@.len() == d0.len(),
            forall|r: int, c: int| 0 <= r < row && 0 <= c < dims.unpadded_bytes_per_row
                ==> #[trigger] dest@[r * line_size + c] == padded@[r * dims.padded_bytes_per_row + c],
            forall|k: int| 0 <= k < dest@.len() && (k >= row * line_size || k % (line_size as int) >= dims.unpadded_bytes_per_row)
                ==> #[trigger] dest@[k] == d0[k],
        decreases dims.height - row,
    {
        assert(row * line_size + line_size <= dims.height * line_size) by (nonlinear_arith)
            requires row < dims.height;
        assert(row * dims.padded_bytes_per_row + dims.padded_bytes_per_row <= dims.height * dims.padded_bytes_per_row) by (nonlinear_arith)
            requires row < dims.height;
        let src_start = row * dims.padded_bytes_per_row;
        let dst_start = row * line_size;
        let mut col: usize = 0;
        while col < dims.unpadded_bytes_per_row
            invariant
                readback_fits(dims, padded@.len() as int, d0.len() as int, line_size as int),
                row < dims.height,
                src_start == row * dims.padded_bytes_per_row,
                dst_start == row * line_size,
                dst_start + line_size <= dims.height * line_size,
                src_start + dims.padded_bytes_per_row <= padded@.len(),
                padded_len == padded@.len(),
                col <= dims.unpadded_bytes_per_row,
                dest@.len() == d0.len(),
                forall|r: int, c: int| 0 <= r < row && 0 <= c < dims.unpadded_bytes_per_row
                    ==> #[trigger] dest@[r * line_size + c] == padded@[r * dims.padded_bytes_per_row + c],
                forall|c: int| 0 <= c < col ==> #[trigger] dest@[row * line_size + c] == padded@[row * dims.padded_bytes_per_row + c],
                forall|k: int| 0 <= k < dest@.len() && (k >= row * line_size + col || k % (line_size as int) >= dims.unpadded_bytes_per_row)
                    ==> #[trigger] dest@[k] == d0[k],
            decreases dims.unpadded_bytes_per_row - col,
        {
            let ghost before = dest@;
            dest.set(dst_start + col, padded[src_start + col]);
            proof {
                assert forall|r: int, c: int| 0 <= r < row && 0 <= c < dims.unpadded_bytes_per_row
                    implies #[trigger] dest@[r * line_size + c] == padded@[r * dims.padded_bytes_per_row + c] by {
                    assert(r * line_size + c < row * line_size) by (nonlinear_arith)
                        requires r < row, c < dims.unpadded_bytes_per_row, dims.unpadded_bytes_per_row <= line_size;
                }
                assert forall|k: int| 0 <= k < dest@.len() && (k >= row * line_size + col + 1 || k % (line_size as int) >= dims.unpadded_bytes_per_row)
                    implies #[trigger] dest@[k] == d0[k] by {
                    if k == row * line_size + col {
                        assert((row * line_size + col) % (line_size as int) == col) by (nonlinear_arith)
                            requires col < line_size, line_size > 0;
                    }
                }
            }
            col = col + 1;
        }
        proof {
            assert forall|r: int, c: int| 0 <= r < row + 1 && 0 <= c < dims.unpadded_bytes_per_row
                implies #[trigger] dest@[r * line_size + c] == padded@[r * dims.padded_bytes_per_row + c] by {
                if r == row {
                }
            }
            assert forall|k: int| 0 <= k < dest@.len() && (k >= (row + 1) * line_size || k % (line_size as int) >= dims.unpadded_bytes_per_row)
                implies #[trigger] dest@[k] == d0[k] by {
                if k >= (row + 1) * line_size {
                    assert((row + 1) * line_size == row * line_size + line_size) by (nonlinear_arith);
                }
            }
        }
        row = row + 1;
    }
}

/// The vertex indices of the two triangles that cover the picture.
pub fn quad_indices() -> (r: Vec<u16>)
    ensures
        r@ == seq![0u16, 1, 2, 1, 2, 3],
{
    let mut v: Vec<u16> = Vec::new();
    v.push(0);
    v.push(1);
    v.push(2);
    v.push(1);
    v.push(2);
    v.push(3);
    assert(v@ =~= seq![0u16, 1, 2, 1, 2, 3]);
    v
}

} // verus!
