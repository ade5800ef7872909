//! The display model: a 64x32 grid of pixels, and what drawing a sprite does
//! to it.
//!
//! A sprite is a run of bytes, one byte per row, the most significant bit
//! leftmost. Drawing toggles the pixel under every set bit. A pixel that falls
//! outside the grid wraps: its column is taken modulo 64 and its row modulo 32.
//! A sprite is 8 columns wide and at most 15 rows high, so no two of its bits
//! land on the same pixel.

use vstd::prelude::*;

verus! {

/// Number of pixel columns.
pub const SCREEN_X_SIZE: usize = 64;

/// Number of pixel rows.
pub const SCREEN_Y_SIZE: usize = 32;

/// The display as a value: 32 rows of 64 pixels, `grid[y][x]`.
pub type Grid = Seq<Seq<bool>>;

/// A grid has 32 rows of 64 pixels each.
pub open spec fn grid_wf(grid: Grid) -> bool {
    &&& grid.len() == SCREEN_Y_SIZE
    &&& forall|y: int| 0 <= y < SCREEN_Y_SIZE ==> (#[trigger] grid[y]).len() == SCREEN_X_SIZE
}

/// `(px, py)` names a pixel of the grid.
pub open spec fn on_screen(px: int, py: int) -> bool {
    0 <= px < SCREEN_X_SIZE && 0 <= py < SCREEN_Y_SIZE
}

/// The grid with every pixel off.
pub open spec fn blank() -> Grid {
    Seq::new(SCREEN_Y_SIZE as nat, |y: int| Seq::new(SCREEN_X_SIZE as nat, |x: int| false))
}

/// Bit `col` of a sprite row, counted from the most significant bit.
pub open spec fn sprite_bit(row: u8, col: u8) -> bool {
    row & (0x80u8 >> col) != 0
}

/// The column of a sprite drawn at column `ox` that lands on pixel column `px`.
pub open spec fn sprite_col(ox: int, px: int) -> int {
    (px - ox) % (SCREEN_X_SIZE as int)
}

/// The row of a sprite drawn at row `oy` that lands on pixel row `py`.
pub open spec fn sprite_row(oy: int, py: int) -> int {
    (py - oy) % (SCREEN_Y_SIZE as int)
}

/// Whether the sprite, drawn with its origin at `(ox, oy)`, has a set bit on
/// the pixel `(px, py)`.
pub open spec fn lit(sprite: Seq<u8>, ox: int, oy: int, px: int, py: int) -> bool {
    let col = sprite_col(ox, px);
    let row = sprite_row(oy, py);
    col < 8 && row < sprite.len() && sprite_bit(sprite[row], col as u8)
}

/// Whether bit `col` of row `row` of the sprite is set and, with the sprite's
/// origin at `(ox, oy)`, lands on the pixel `(px, py)`: the pixel `col` to the
/// right of the origin and `row` below it, wrapped at the edges.
pub open spec fn lands(
    sprite: Seq<u8>,
    ox: int,
    oy: int,
    row: int,
    col: int,
    px: int,
    py: int,
) -> bool {
    &&& 0 <= row < sprite.len()
    &&& 0 <= col < 8
    &&& px == (ox + col) % (SCREEN_X_SIZE as int)
    &&& py == (oy + row) % (SCREEN_Y_SIZE as int)
    &&& sprite_bit(sprite[row], col as u8)
}

/// The grid after the sprite is drawn at `(ox, oy)`: every pixel under a set
/// bit is toggled, every other pixel is kept.
pub open spec fn toggled(grid: Grid, sprite: Seq<u8>, ox: int, oy: int) -> Grid {
    Seq::new(
        SCREEN_Y_SIZE as nat,
        |py: int|
            Seq::new(SCREEN_X_SIZE as nat, |px: int| grid[py][px] != lit(sprite, ox, oy, px, py)),
    )
}

/// Whether drawing the sprite at `(ox, oy)` turns off a pixel that is on.
pub open spec fn collides(grid: Grid, sprite: Seq<u8>, ox: int, oy: int) -> bool {
    exists|px: int, py: int|
        on_screen(px, py) && grid[py][px] && #[trigger] lit(sprite, ox, oy, px, py)
}

/// Whether `(px, py)` is under a set bit that a draw has reached once it has
/// finished the sprite rows before `row` and, of row `row`, the columns before
/// `col`.
pub open spec fn lit_before(
    sprite: Seq<u8>,
    ox: int,
    oy: int,
    px: int,
    py: int,
    row: int,
    col: int,
) -> bool {
    &&& lit(sprite, ox, oy, px, py)
    &&& sprite_row(oy, py) < row || (sprite_row(oy, py) == row && sprite_col(ox, px) < col)
}

/// Whether the part of a draw before `(row, col)` turns off a pixel that is on.
pub open spec fn collides_before(
    grid: Grid,
    sprite: Seq<u8>,
    ox: int,
    oy: int,
    row: int,
    col: int,
) -> bool {
    exists|px: int, py: int|
        on_screen(px, py) && grid[py][px] && #[trigger] lit_before(sprite, ox, oy, px, py, row, col)
}

/// A pixel is lit by a sprite exactly if one of the sprite's set bits lands
/// on it. A sprite of at most 32 rows has at most one such bit for a pixel.
pub proof fn lemma_lit_is_a_bit(sprite: Seq<u8>, ox: int, oy: int, px: int, py: int)
    requires
        on_screen(px, py),
        sprite.len() <= SCREEN_Y_SIZE,
    ensures
        lit(sprite, ox, oy, px, py) <==> exists|row: int, col: int| #[trigger]
            lands(sprite, ox, oy, row, col, px, py),
        forall|row: int, col: int, row2: int, col2: int|
            #[trigger] lands(sprite, ox, oy, row, col, px, py) && #[trigger] lands(
                sprite,
                ox,
                oy,
                row2,
                col2,
                px,
                py,
            ) ==> row == row2 && col == col2,
{
    if lit(sprite, ox, oy, px, py) {
        assert(lands(sprite, ox, oy, sprite_row(oy, py), sprite_col(ox, px), px, py));
    }
}

/// One bit further into a draw: the bit at `(row, col)` lands on one pixel,
/// `((ox + col) mod 64, (oy + row) mod 32)`, and on no other.
pub proof fn lemma_draw_step(grid: Grid, sprite: Seq<u8>, ox: int, oy: int, row: int, col: int)
    requires
        0 <= ox,
        0 <= oy,
        0 <= row < sprite.len(),
        row < SCREEN_Y_SIZE,
        0 <= col < 8,
    ensures
        ({
            let x = (ox + col) % (SCREEN_X_SIZE as int);
            let y = (oy + row) % (SCREEN_Y_SIZE as int);
            let set = sprite_bit(sprite[row], col as u8);
            &&& on_screen(x, y)
            &&& !lit_before(sprite, ox, oy, x, y, row, col)
            &&& forall|px: int, py: int|
                on_screen(px, py) ==> #[trigger] lit_before(sprite, ox, oy, px, py, row, col + 1)
                    == (lit_before(sprite, ox, oy, px, py, row, col) || (set && px == x && py
                    == y))
            &&& collides_before(grid, sprite, ox, oy, row, col + 1) == (collides_before(
                grid,
                sprite,
                ox,
                oy,
                row,
                col,
            ) || (set && grid[y][x]))
        }),
{
    let x = (ox + col) % (SCREEN_X_SIZE as int);
    let y = (oy + row) % (SCREEN_Y_SIZE as int);
    let set = sprite_bit(sprite[row], col as u8);
    assert(sprite_col(ox, x) == col && sprite_row(oy, y) == row);
    assert forall|px: int, py: int| on_screen(px, py) implies #[trigger] lit_before(
        sprite,
        ox,
        oy,
        px,
        py,
        row,
        col + 1,
    ) == (lit_before(sprite, ox, oy, px, py, row, col) || (set && px == x && py == y)) by {
        if sprite_col(ox, px) == col && sprite_row(oy, py) == row {
            assert(px == x && py == y);
        }
    }
    if collides_before(grid, sprite, ox, oy, row, col + 1) {
        let (px, py) = choose|px: int, py: int|
            on_screen(px, py) && grid[py][px] && #[trigger] lit_before(
                sprite,
                ox,
                oy,
                px,
                py,
                row,
                col + 1,
            );
        assert(lit_before(sprite, ox, oy, px, py, row, col) || (set && px == x && py == y));
    }
    if collides_before(grid, sprite, ox, oy, row, col) {
        let (px, py) = choose|px: int, py: int|
            on_screen(px, py) && grid[py][px] && #[trigger] lit_before(
                sprite,
                ox,
                oy,
                px,
                py,
                row,
                col,
            );
        assert(lit_before(sprite, ox, oy, px, py, row, col + 1));
    }
    if set && grid[y][x] {
        assert(lit_before(sprite, ox, oy, x, y, row, col + 1));
    }
}

/// A draw that has done the eight columns of a row stands at the start of the
/// next row.
pub proof fn lemma_draw_row_done(grid: Grid, sprite: Seq<u8>, ox: int, oy: int, row: int)
    ensures
        forall|px: int, py: int|
            lit_before(sprite, ox, oy, px, py, row, 8) == #[trigger] lit_before(
                sprite,
                ox,
                oy,
                px,
                py,
                row + 1,
                0,
            ),
        collides_before(grid, sprite, ox, oy, row, 8) == collides_before(
            grid,
            sprite,
            ox,
            oy,
            row + 1,
            0,
        ),
{
    if collides_before(grid, sprite, ox, oy, row, 8) {
        let (px, py) = choose|px: int, py: int|
            on_screen(px, py) && grid[py][px] && #[trigger] lit_before(
                sprite,
                ox,
                oy,
                px,
                py,
                row,
                8,
            );
        assert(lit_before(sprite, ox, oy, px, py, row + 1, 0));
    }
    if collides_before(grid, sprite, ox, oy, row + 1, 0) {
        let (px, py) = choose|px: int, py: int|
            on_screen(px, py) && grid[py][px] && #[trigger] lit_before(
                sprite,
                ox,
                oy,
                px,
                py,
                row + 1,
                0,
            );
        assert(lit_before(sprite, ox, oy, px, py, row, 8));
    }
}

/// A draw that has gone through all rows has drawn the sprite.
pub proof fn lemma_before_all(grid: Grid, sprite: Seq<u8>, ox: int, oy: int)
    ensures
        forall|px: int, py: int|
            lit_before(sprite, ox, oy, px, py, sprite.len() as int, 0) == lit(
                sprite,
                ox,
                oy,
                px,
                py,
            ),
        collides_before(grid, sprite, ox, oy, sprite.len() as int, 0) == collides(
            grid,
            sprite,
            ox,
            oy,
        ),
{
    if collides(grid, sprite, ox, oy) {
        let (px, py) = choose|px: int, py: int|
            on_screen(px, py) && grid[py][px] && #[trigger] lit(sprite, ox, oy, px, py);
        assert(lit_before(sprite, ox, oy, px, py, sprite.len() as int, 0));
    }
    if collides_before(grid, sprite, ox, oy, sprite.len() as int, 0) {
        let (px, py) = choose|px: int, py: int|
            on_screen(px, py) && grid[py][px] && #[trigger] lit_before(
                sprite,
                ox,
                oy,
                px,
                py,
                sprite.len() as int,
                0,
            );
        assert(lit(sprite, ox, oy, px, py));
    }
}

/// Drawing the same sprite twice at the same origin gives back the grid.
pub proof fn lemma_toggled_twice(grid: Grid, sprite: Seq<u8>, ox: int, oy: int)
    requires
        grid_wf(grid),
    ensures
        toggled(toggled(grid, sprite, ox, oy), sprite, ox, oy) == grid,
{
    let once = toggled(grid, sprite, ox, oy);
    let twice = toggled(once, sprite, ox, oy);
    assert forall|py: int| 0 <= py < SCREEN_Y_SIZE implies #[trigger] twice[py] == grid[py] by {
        assert(twice[py] =~= grid[py]);
    }
    assert(twice =~= grid);
}

/// The second of two equal draws collides exactly when the sprite has a set
/// bit on a pixel that was off before the first.
pub proof fn lemma_second_draw_collides(grid: Grid, sprite: Seq<u8>, ox: int, oy: int)
    requires
        grid_wf(grid),
    ensures
        collides(toggled(grid, sprite, ox, oy), sprite, ox, oy) <==> exists|px: int, py: int|
            on_screen(px, py) && !grid[py][px] && #[trigger] lit(sprite, ox, oy, px, py),
{
    let once = toggled(grid, sprite, ox, oy);
    if collides(once, sprite, ox, oy) {
        let (px, py) = choose|px: int, py: int|
            on_screen(px, py) && once[py][px] && #[trigger] lit(sprite, ox, oy, px, py);
        assert(on_screen(px, py) && !grid[py][px] && lit(sprite, ox, oy, px, py));
    }
    if exists|px: int, py: int|
        on_screen(px, py) && !grid[py][px] && #[trigger] lit(sprite, ox, oy, px, py) {
        let (px, py) = choose|px: int, py: int|
            on_screen(px, py) && !grid[py][px] && #[trigger] lit(sprite, ox, oy, px, py);
        assert(on_screen(px, py) && once[py][px] && lit(sprite, ox, oy, px, py));
    }
}

} // verus!
