//! Geometry of the RGBA byte buffer: row-major, origin top-left, four bytes
//! per pixel.

use vstd::prelude::*;

verus! {

/// Bytes that one pixel occupies: red, green, blue, alpha.
pub const CHANNELS: usize = 4;

/// Number of pixels of a `width` x `height` image.
pub open spec fn pixel_count(width: u32, height: u32) -> int {
    width as int * height as int
}

/// Number of bytes of a `width` x `height` image.
pub open spec fn byte_len(width: u32, height: u32) -> int {
    pixel_count(width, height) * 4
}

/// Position of pixel `(x, y)` in row-major order.
pub open spec fn pixel_index(width: u32, x: u32, y: u32) -> int {
    y as int * width as int + x as int
}

/// Offset of the first byte of pixel `(x, y)`.
pub open spec fn byte_offset(width: u32, x: u32, y: u32) -> int {
    pixel_index(width, x, y) * 4
}

/// The pixel `(x, y)` lies inside a `width` x `height` image.
pub open spec fn in_bounds(width: u32, height: u32, x: u32, y: u32) -> bool {
    x < width && y < height
}

/// The image can be held in memory: a single row and the whole buffer have
/// sizes within `usize`. On a 64-bit machine the first never fails.
pub open spec fn addressable(width: u32, height: u32) -> bool {
    4 * width <= usize::MAX && byte_len(width, height) <= usize::MAX
}

/// Every pixel inside the image has an index below the pixel count.
pub proof fn lemma_index_in_range(width: u32, height: u32, x: u32, y: u32)
    requires
        in_bounds(width, height, x, y),
    ensures
        0 <= pixel_index(width, x, y) < pixel_count(width, height),
        0 <= byte_offset(width, x, y),
        byte_offset(width, x, y) + 4 <= byte_len(width, height),
{
    let w: int = width as int;
    let h: int = height as int;
    let yy: int = y as int;
    assert(yy * w >= 0) by (nonlinear_arith)
        requires
            yy >= 0,
            w >= 0,
    ;
    assert((yy + 1) * w <= h * w) by (nonlinear_arith)
        requires
            yy + 1 <= h,
            w >= 0,
    ;
    assert((yy + 1) * w == yy * w + w) by (nonlinear_arith);
    assert(h * w == w * h) by (nonlinear_arith);
}

/// Two different pixels of one image occupy disjoint byte ranges: no byte is
/// written for more than one pixel.
pub proof fn lemma_pixels_disjoint(width: u32, height: u32, x1: u32, y1: u32, x2: u32, y2: u32)
    requires
        in_bounds(width, height, x1, y1),
        in_bounds(width, height, x2, y2),
        x1 != x2 || y1 != y2,
    ensures
        byte_offset(width, x1, y1) + 4 <= byte_offset(width, x2, y2) || byte_offset(
            width,
            x2,
            y2,
        ) + 4 <= byte_offset(width, x1, y1),
{
    let w: int = width as int;
    let a: int = y1 as int;
    let b: int = y2 as int;
    if a < b {
        assert((a + 1) * w <= b * w) by (nonlinear_arith)
            requires
                a + 1 <= b,
                w >= 0,
        ;
        assert((a + 1) * w == a * w + w) by (nonlinear_arith);
    } else if b < a {
        assert((b + 1) * w <= a * w) by (nonlinear_arith)
            requires
                b + 1 <= a,
                w >= 0,
        ;
        assert((b + 1) * w == b * w + w) by (nonlinear_arith);
    }
}

/// Column of the pixel that byte `i` of a buffer belongs to.
pub open spec fn column_of_byte(width: u32, i: int) -> int {
    (i / 4) % (width as int)
}

/// Row of the pixel that byte `i` of a buffer belongs to.
pub open spec fn row_of_byte(width: u32, i: int) -> int {
    (i / 4) / (width as int)
}

/// Every byte of an image's buffer belongs to a pixel inside the image: the
/// pixels together cover the whole buffer.
pub proof fn lemma_byte_belongs_to_pixel(width: u32, height: u32, i: int)
    requires
        0 <= i < byte_len(width, height),
    ensures
        0 <= column_of_byte(width, i) < width,
        0 <= row_of_byte(width, i) < height,
        byte_offset(width, column_of_byte(width, i) as u32, row_of_byte(width, i) as u32) <= i
            < byte_offset(width, column_of_byte(width, i) as u32, row_of_byte(width, i) as u32)
            + 4,
{
    let w: int = width as int;
    let h: int = height as int;
    let p: int = i / 4;
    assert(w > 0) by (nonlinear_arith)
        requires
            0 <= i < w * h * 4,
            w >= 0,
    ;
    assert(0 <= p < w * h);
    vstd::arithmetic::div_mod::lemma_fundamental_div_mod(p, w);
    vstd::arithmetic::div_mod::lemma_mod_bound(p, w);
    vstd::arithmetic::div_mod::lemma_div_pos_is_pos(p, w);
    let row: int = p / w;
    let col: int = p % w;
    assert(p == w * row + col);
    assert(w * row == row * w) by (nonlinear_arith);
    assert(row < h) by (nonlinear_arith)
        requires
            row * w + col < w * h,
            col >= 0,
            w > 0,
            row >= 0,
    ;
}

/// Size in bytes of the buffer that holds a `width` x `height` image, or
/// `None` where the image is not addressable.
pub fn buffer_len(width: u32, height: u32) -> (len: Option<usize>)
    ensures
        len == (if addressable(width, height) {
            Some(byte_len(width, height) as usize)
        } else {
            None
        }),
{
    let row: usize = match CHANNELS.checked_mul(width as usize) {
        Some(row) => row,
        None => {
            return None;
        },
    };
    proof {
        assert(row as int * height as int == byte_len(width, height)) by (nonlinear_arith)
            requires
                row as int == 4 * width as int,
                byte_len(width, height) == width as int * height as int * 4,
        ;
    }
    row.checked_mul(height as usize)
}

/// Offset of the first byte of pixel `(x, y)` in the buffer of a `width` x
/// `height` image, or `None` where the pixel lies outside the image or the
/// image is not addressable.
pub fn pixel_offset(width: u32, height: u32, x: u32, y: u32) -> (offset: Option<usize>)
    ensures
        offset == (if in_bounds(width, height, x, y) && addressable(width, height) {
            Some(byte_offset(width, x, y) as usize)
        } else {
            None
        }),
{
    if x >= width || y >= height {
        return None;
    }
    match buffer_len(width, height) {
        None => None,
        Some(len) => {
            proof {
                lemma_index_in_range(width, height, x, y);
                assert(y as int * width as int >= 0) by (nonlinear_arith);
            }
            let index: usize = y as usize * width as usize + x as usize;
            Some(index * 4)
        },
    }
}

} // verus!
