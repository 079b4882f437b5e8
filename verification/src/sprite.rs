//! Sprite drawing: sprites are XORed onto the wrapping 64 x 32 screen.
use vstd::prelude::*;

verus! {

/// Width of the screen in pixels.
pub const SCREEN_WIDTH: usize = 64;

/// Height of the screen in pixels.
pub const SCREEN_HEIGHT: usize = 32;

/// Number of screen pixels; pixel `(col, row)` is cell `col + row * 64`.
pub const SCREEN_SIZE: usize = 2048;

/// Whether column `col` (0 is the leftmost, most significant bit) of a sprite
/// row is lit.
pub open spec fn sprite_bit(row: u8, col: int) -> bool {
    row & (0x80u8 >> (col as u8)) != 0
}

/// The screen cell that the sprite pixel at column `col` and row `row` covers
/// when the sprite is drawn at `(vx, vy)`; coordinates wrap around the screen.
pub open spec fn pixel_cell(vx: u8, vy: u8, col: int, row: int) -> int {
    (vx + col) % 64 + ((vy + row) % 32) * 64
}

/// Screen and flag register after the first `k` pixels of a sprite, taken row
/// by row and eight to a row, were drawn onto `screen`.
///
/// `v` holds the registers before the draw; the flag register `VF` starts at 0
/// and becomes 1 when a lit pixel meets a cell that holds 1. The position is
/// read from `VX` and `VY` pixel by pixel, so when `x` or `y` is the flag
/// register, the position follows the flag.
pub open spec fn draw_progress(
    screen: Seq<u8>,
    v: Seq<u8>,
    x: int,
    y: int,
    rows: Seq<u8>,
    k: nat,
) -> (Seq<u8>, u8)
    decreases k,
{
    if k == 0 {
        (screen, 0u8)
    } else {
        let prev = draw_progress(screen, v, x, y, rows, (k - 1) as nat);
        let g = prev.0;
        let vf = prev.1;
        let row = (k - 1) / 8;
        let col = (k - 1) % 8;
        let regs = v.update(15, vf);
        if sprite_bit(rows[row], col) {
            let c = pixel_cell(regs[x], regs[y], col, row);
            (g.update(c, g[c] ^ 1u8), if g[c] == 1 { 1u8 } else { vf })
        } else {
            (g, vf)
        }
    }
}

/// Every sprite pixel lands on the screen.
pub proof fn lemma_pixel_cell_in_range(vx: u8, vy: u8, col: int, row: int)
    requires
        0 <= col,
        0 <= row,
    ensures
        0 <= pixel_cell(vx, vy, col, row) < SCREEN_SIZE,
{
    let a = (vx + col) % 64;
    let b = (vy + row) % 32;
    assert(0 <= a < 64 && 0 <= b < 32);
    assert(0 <= a + b * 64 < 2048) by (nonlinear_arith)
        requires
            0 <= a < 64,
            0 <= b < 32,
    ;
}

/// Drawing keeps the screen's size.
pub proof fn lemma_draw_progress_len(
    screen: Seq<u8>,
    v: Seq<u8>,
    x: int,
    y: int,
    rows: Seq<u8>,
    k: nat,
)
    requires
        screen.len() == SCREEN_SIZE,
    ensures
        draw_progress(screen, v, x, y, rows, k).0.len() == screen.len(),
    decreases k,
{
    if k > 0 {
        lemma_draw_progress_len(screen, v, x, y, rows, (k - 1) as nat);
        let vf = draw_progress(screen, v, x, y, rows, (k - 1) as nat).1;
        let regs = v.update(15, vf);
        lemma_pixel_cell_in_range(regs[x], regs[y], (k - 1) % 8, (k - 1) / 8);
    }
}

} // verus!
