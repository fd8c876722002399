//! Dense row-major RGBA pixel grids stored as flat byte buffers.
//!
//! Pixel `(x, y)` of a grid `width` pixels wide occupies the four bytes that
//! start at `4 * (y * width + x)`.
use vstd::prelude::*;

verus! {

/// Index of the first byte of pixel `(x, y)`.
pub open spec fn byte_offset(width: int, x: int, y: int) -> int {
    4 * (y * width + x)
}

/// The four bytes of pixel `(x, y)`.
pub open spec fn pixel_at(buf: Seq<u8>, width: int, x: int, y: int) -> Seq<u8> {
    let o = byte_offset(width, x, y);
    seq![buf[o], buf[o + 1], buf[o + 2], buf[o + 3]]
}

/// `buf` has exactly the bytes of a `width` by `height` grid.
pub open spec fn is_grid(buf: Seq<u8>, width: int, height: int) -> bool {
    buf.len() == 4 * (width * height)
}

pub proof fn lemma_cell_bounds(width: int, height: int, x: int, y: int)
    requires
        0 <= x < width,
        0 <= y < height,
    ensures
        0 <= y * width + x < width * height,
        y * width + x + 1 <= width * height,
{
    assert((y + 1) * width <= height * width) by (nonlinear_arith)
        requires 0 <= y + 1 <= height, 0 <= width;
    assert(0 <= y * width) by (nonlinear_arith)
        requires 0 <= y, 0 <= width;
    assert((y + 1) * width == y * width + width) by (nonlinear_arith);
    assert(height * width == width * height) by (nonlinear_arith);
}

proof fn lemma_cells_distinct(width: int, x0: int, y0: int, x1: int, y1: int)
    requires
        0 <= x0 < width,
        0 <= x1 < width,
        0 <= y0,
        0 <= y1,
        x0 != x1 || y0 != y1,
    ensures
        y0 * width + x0 != y1 * width + x1,
{
    if y0 < y1 {
        assert((y0 + 1) * width <= y1 * width) by (nonlinear_arith)
            requires y0 + 1 <= y1, 0 <= width;
        assert((y0 + 1) * width == y0 * width + width) by (nonlinear_arith);
    } else if y1 < y0 {
        assert((y1 + 1) * width <= y0 * width) by (nonlinear_arith)
            requires y1 + 1 <= y0, 0 <= width;
        assert((y1 + 1) * width == y1 * width + width) by (nonlinear_arith);
    }
}

/// Reads pixel `(x, y)`.
pub fn load_pixel(buf: &Vec<u8>, width: u32, height: u32, x: u32, y: u32) -> (r: [u8; 4])
    requires
        is_grid(buf@, width as int, height as int),
        x < width,
        y < height,
    ensures
        r@ == pixel_at(buf@, width as int, x as int, y as int),
{
    let len = buf.len();
    proof {
        lemma_cell_bounds(width as int, height as int, x as int, y as int);
        assert(0 <= y * width <= y * width + x);
        assert(byte_offset(width as int, x as int, y as int) + 4 <= len);
    }
    let i: usize = ((y as usize) * (width as usize) + (x as usize)) * 4;
    let r = [buf[i], buf[i + 1], buf[i + 2], buf[i + 3]];
    assert(r@ =~= pixel_at(buf@, width as int, x as int, y as int));
    r
}

/// Overwrites pixel `(x, y)` with `color`, leaving every other pixel as it was.
pub fn store_pixel(buf: &mut Vec<u8>, width: u32, height: u32, x: u32, y: u32, color: [u8; 4])
    requires
        is_grid(old(buf)@, width as int, height as int),
        x < width,
        y < height,
    ensures
        is_grid(final(buf)@, width as int, height as int),
        forall|xx: int, yy: int|
            0 <= xx < width && 0 <= yy < height ==> #[trigger] pixel_at(final(buf)@, width as int, xx, yy)
                == if xx == x && yy == y {
                color@
            } else {
                pixel_at(old(buf)@, width as int, xx, yy)
            },
    no_unwind
{
    let len = buf.len();
    proof {
        lemma_cell_bounds(width as int, height as int, x as int, y as int);
        assert(0 <= y * width <= y * width + x);
        assert(byte_offset(width as int, x as int, y as int) + 4 <= len);
    }
    let ghost before = buf@;
    let i: usize = ((y as usize) * (width as usize) + (x as usize)) * 4;
    buf[i] = color[0];
    buf[i + 1] = color[1];
    buf[i + 2] = color[2];
    buf[i + 3] = color[3];
    assert forall|xx: int, yy: int| 0 <= xx < width && 0 <= yy < height implies #[trigger] pixel_at(
        buf@,
        width as int,
        xx,
        yy,
    ) == if xx == x && yy == y {
        color@
    } else {
        pixel_at(before, width as int, xx, yy)
    } by {
        lemma_cell_bounds(width as int, height as int, xx, yy);
        if xx == x && yy == y {
            assert(pixel_at(buf@, width as int, xx, yy) =~= color@);
        } else {
            lemma_cells_distinct(width as int, x as int, y as int, xx, yy);
            assert(pixel_at(buf@, width as int, xx, yy) =~= pixel_at(before, width as int, xx, yy));
        }
    }
}

} // verus!
