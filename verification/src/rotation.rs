//! Mapping of pixel coordinates to a place in a bit-packed plane.
//!
//! A plane stores the panel row by row, eight horizontal pixels per byte,
//! the leftmost pixel in the most significant bit. `width` and `height` are
//! always the physical size of the panel; the coordinates are those of the
//! drawing surface, which a rotation turns relative to the panel.

use vstd::prelude::*;

use crate::config::Rotation;

verus! {

/// Whether `(x, y)` lies on the drawing surface of a `width` by `height`
/// panel under `rotation`. A quarter or three-quarter turn exchanges the
/// surface's width and height.
pub open spec fn on_surface(x: u32, y: u32, width: u32, height: u32, rotation: Rotation) -> bool {
    match rotation {
        Rotation::Rotate0 | Rotation::Rotate180 => x < width && y < height,
        Rotation::Rotate90 | Rotation::Rotate270 => x < height && y < width,
    }
}

/// Index of the byte that holds pixel `(x, y)`.
pub open spec fn byte_index(x: u32, y: u32, width: u32, height: u32, rotation: Rotation) -> int {
    let stride = (width / 8) as int;
    match rotation {
        Rotation::Rotate0 => x / 8 + stride * y,
        Rotation::Rotate90 => (width - 1 - y) / 8 + stride * x,
        Rotation::Rotate180 => stride * height - 1 - (x / 8 + stride * y),
        Rotation::Rotate270 => y / 8 + (height - 1 - x) * stride,
    }
}

/// Mask of the bit that holds pixel `(x, y)` within its byte.
pub open spec fn bit_mask(x: u32, y: u32, rotation: Rotation) -> u8 {
    match rotation {
        Rotation::Rotate0 => 0x80u8 >> (x % 8),
        Rotation::Rotate90 => 0x01u8 << (y % 8),
        Rotation::Rotate180 => 0x01u8 << (x % 8),
        Rotation::Rotate270 => 0x80u8 >> (y % 8),
    }
}

/// Maps pixel `(x, y)` of the drawing surface to the index of its byte and
/// the mask of its bit.
pub fn apply_rotation(x: u32, y: u32, width: u32, height: u32, rotation: Rotation) -> (r: (
    usize,
    u8,
))
    requires
        on_surface(x, y, width, height, rotation),
        width % 8 == 0,
        (width / 8) * height <= usize::MAX,
    ensures
        r.0 == byte_index(x, y, width, height, rotation),
        r.1 == bit_mask(x, y, rotation),
        r.0 < (width * height) / 8,
{
    proof {
        lemma_index_in_plane(x, y, width, height, rotation);
    }
    let stride: u64 = (width / 8) as u64;
    let rows: u64 = height as u64;
    assert(stride * rows == (width / 8) * height);
    match rotation {
        Rotation::Rotate0 => {
            assert(stride * (y as u64) <= stride * rows) by (nonlinear_arith)
                requires
                    y < rows,
            ;
            let index: u64 = (x / 8) as u64 + stride * (y as u64);
            (index as usize, 0x80u8 >> (x % 8))
        },
        Rotation::Rotate90 => {
            assert(stride * (x as u64) <= stride * rows) by (nonlinear_arith)
                requires
                    x < rows,
            ;
            let index: u64 = ((width - 1 - y) / 8) as u64 + stride * (x as u64);
            (index as usize, 0x01u8 << (y % 8))
        },
        Rotation::Rotate180 => {
            assert(stride * (y as u64) <= stride * rows) by (nonlinear_arith)
                requires
                    y < rows,
            ;
            let index: u64 = (stride * rows - 1) - ((x / 8) as u64 + stride * (y as u64));
            (index as usize, 0x01u8 << (x % 8))
        },
        Rotation::Rotate270 => {
            assert(((height - 1 - x) as u64) * stride <= stride * rows) by (nonlinear_arith)
                requires
                    x < rows,
                    rows == height,
            ;
            let index: u64 = (y / 8) as u64 + ((height - 1 - x) as u64) * stride;
            (index as usize, 0x80u8 >> (y % 8))
        },
    }
}

/// Every pixel of the drawing surface has its byte inside a plane of
/// `width * height / 8` bytes.
pub proof fn lemma_index_in_plane(x: u32, y: u32, width: u32, height: u32, rotation: Rotation)
    requires
        on_surface(x, y, width, height, rotation),
        width % 8 == 0,
    ensures
        0 <= byte_index(x, y, width, height, rotation) < (width * height) / 8,
        (width * height) / 8 == (width / 8) * height,
{
    let stride = (width / 8) as int;
    let h = height as int;
    assert(width == 8 * stride);
    assert((width * height) / 8 == stride * h) by (nonlinear_arith)
        requires
            width == 8 * stride,
            h == height,
    ;
    match rotation {
        Rotation::Rotate0 | Rotation::Rotate180 => {
            lemma_cell_in_grid((x / 8) as int, y as int, stride, h);
        },
        Rotation::Rotate90 => {
            lemma_cell_in_grid(((width - 1 - y) / 8) as int, x as int, stride, h);
        },
        Rotation::Rotate270 => {
            lemma_cell_in_grid((y / 8) as int, (height - 1 - x) as int, stride, h);
            assert((height - 1 - x) * stride == stride * (height - 1 - x)) by (nonlinear_arith);
        },
    }
}

/// Two pixels of the drawing surface that share both their byte and their
/// bit are the same pixel.
pub proof fn lemma_mapping_injective(
    x1: u32,
    y1: u32,
    x2: u32,
    y2: u32,
    width: u32,
    height: u32,
    rotation: Rotation,
)
    requires
        on_surface(x1, y1, width, height, rotation),
        on_surface(x2, y2, width, height, rotation),
        width % 8 == 0,
        byte_index(x1, y1, width, height, rotation) == byte_index(
            x2,
            y2,
            width,
            height,
            rotation,
        ),
        bit_mask(x1, y1, rotation) == bit_mask(x2, y2, rotation),
    ensures
        x1 == x2,
        y1 == y2,
{
    let stride = (width / 8) as int;
    assert(width == 8 * stride);
    match rotation {
        Rotation::Rotate0 => {
            lemma_cell_unique((x1 / 8) as int, y1 as int, (x2 / 8) as int, y2 as int, stride);
            lemma_masks_distinct(x1 % 8, x2 % 8);
        },
        Rotation::Rotate90 => {
            lemma_cell_unique(
                ((width - 1 - y1) / 8) as int,
                x1 as int,
                ((width - 1 - y2) / 8) as int,
                x2 as int,
                stride,
            );
            lemma_masks_distinct(y1 % 8, y2 % 8);
            assert((width - 1 - y1) % 8 == 7 - y1 % 8);
            assert((width - 1 - y2) % 8 == 7 - y2 % 8);
        },
        Rotation::Rotate180 => {
            lemma_cell_unique((x1 / 8) as int, y1 as int, (x2 / 8) as int, y2 as int, stride);
            lemma_masks_distinct(x1 % 8, x2 % 8);
        },
        Rotation::Rotate270 => {
            let r1 = (height - 1 - x1) as int;
            let r2 = (height - 1 - x2) as int;
            assert(r1 * stride == stride * r1) by (nonlinear_arith);
            assert(r2 * stride == stride * r2) by (nonlinear_arith);
            lemma_cell_unique((y1 / 8) as int, r1, (y2 / 8) as int, r2, stride);
            lemma_masks_distinct(y1 % 8, y2 % 8);
        },
    }
}

/// Column `col` of row `row` in a grid of `rows` rows of `stride` cells has
/// its row-major number inside the grid.
proof fn lemma_cell_in_grid(col: int, row: int, stride: int, rows: int)
    by (nonlinear_arith)
    requires
        0 <= col < stride,
        0 <= row < rows,
    ensures
        0 <= col + stride * row < stride * rows,
        0 <= stride * rows - 1 - (col + stride * row) < stride * rows,
{
}

/// A row-major number determines its row and its column.
proof fn lemma_cell_unique(col1: int, row1: int, col2: int, row2: int, stride: int)
    by (nonlinear_arith)
    requires
        0 <= col1 < stride,
        0 <= col2 < stride,
        col1 + stride * row1 == col2 + stride * row2,
    ensures
        col1 == col2,
        row1 == row2,
{
}

/// The eight single-bit masks are pairwise different, from either end.
proof fn lemma_masks_distinct(j: u32, k: u32)
    by (bit_vector)
    requires
        j < 8,
        k < 8,
    ensures
        0x80u8 >> j == 0x80u8 >> k ==> j == k,
        0x01u8 << j == 0x01u8 << k ==> j == k,
{
}

} // verus!
