//! The display buffer and sprite drawing.
//!
//! The display is 64 by 32 cells, row-major, each cell 0 or 1. A sprite is a
//! sequence of bytes, one per row, each byte eight pixels with the most
//! significant bit leftmost. Drawing flips the cells under the sprite's set
//! bits; what would fall beyond the right or bottom edge is clipped.

use vstd::prelude::*;
use crate::constants::{MEMORY_IN_B, SCREEN_HEIGHT, SCREEN_SIZE, SCREEN_WIDTH};
use crate::memory::address;

verus! {

/// The display with every cell off.
pub open spec fn blank_screen() -> Seq<u8> {
    Seq::new(SCREEN_SIZE as nat, |i: int| 0u8)
}

/// A display buffer of the right size whose cells are all 0 or 1.
pub open spec fn is_bitmap(screen: Seq<u8>) -> bool {
    &&& screen.len() == SCREEN_SIZE
    &&& forall|i: int| 0 <= i < SCREEN_SIZE ==> #[trigger] screen[i] <= 1
}

/// The `rows` bytes of memory that start at `index`.
pub open spec fn sprite_at(memory: Seq<u8>, index: u16, rows: int) -> Seq<u8> {
    Seq::new(rows as nat, |r: int| memory[address(index, r)])
}

/// Whether pixel `col` (0 is leftmost) of a sprite row is set.
pub open spec fn sprite_bit(byte: u8, col: u8) -> bool {
    byte & (0x80u8 >> col) != 0
}

/// Whether the sprite, placed with its top left corner at (`x0`, `y0`), has a
/// set bit over the pixel (`px`, `py`).
pub open spec fn lit(sprite: Seq<u8>, x0: int, y0: int, px: int, py: int) -> bool {
    &&& x0 <= px < x0 + 8
    &&& y0 <= py < y0 + sprite.len()
    &&& sprite_bit(sprite[py - y0], (px - x0) as u8)
}

/// Whether the sprite has a set bit over cell `i` of the row-major display.
pub open spec fn lit_cell(sprite: Seq<u8>, x0: int, y0: int, i: int) -> bool {
    lit(sprite, x0, y0, i % 64, i / 64)
}

/// A cell after a set sprite bit was drawn over it.
pub open spec fn flip(cell: u8) -> u8 {
    if cell != 0 {
        0
    } else {
        1
    }
}

/// The display after the sprite was drawn at (`x0`, `y0`): the cells under its
/// set bits are flipped, all others are kept. Pixels beyond the right or
/// bottom edge have no cell, so the sprite is clipped there.
pub open spec fn draw(screen: Seq<u8>, sprite: Seq<u8>, x0: int, y0: int) -> Seq<u8> {
    Seq::new(
        SCREEN_SIZE as nat,
        |i: int|
            if lit_cell(sprite, x0, y0, i) {
                flip(screen[i])
            } else {
                screen[i]
            },
    )
}

/// Whether cell `i` is on and under a set bit of the sprite.
pub open spec fn erased(screen: Seq<u8>, sprite: Seq<u8>, x0: int, y0: int, i: int) -> bool {
    &&& 0 <= i < SCREEN_SIZE
    &&& lit_cell(sprite, x0, y0, i)
    &&& screen[i] != 0
}

/// Whether drawing the sprite at (`x0`, `y0`) turns off a cell that was on.
pub open spec fn collides(screen: Seq<u8>, sprite: Seq<u8>, x0: int, y0: int) -> bool {
    exists|i: int| erased(screen, sprite, x0, y0, i)
}

/// Whether the sprite shows at least one set bit on the display.
pub open spec fn visible(sprite: Seq<u8>, x0: int, y0: int) -> bool {
    exists|i: int| 0 <= i < SCREEN_SIZE && #[trigger] lit_cell(sprite, x0, y0, i)
}

/// `lit`, restricted to what the drawing loop has reached: the rows before
/// `row` and the first `col` columns of row `row`.
spec fn lit_before(sprite: Seq<u8>, x0: int, y0: int, row: int, col: int, px: int, py: int) -> bool {
    &&& lit(sprite, x0, y0, px, py)
    &&& (py - y0 < row || (py - y0 == row && px - x0 < col))
}

/// `lit_before` by cell index.
spec fn reached(sprite: Seq<u8>, x0: int, y0: int, row: int, col: int, i: int) -> bool {
    lit_before(sprite, x0, y0, row, col, i % 64, i / 64)
}

/// The display when the drawing loop stands at (`row`, `col`).
spec fn draw_before(screen: Seq<u8>, sprite: Seq<u8>, x0: int, y0: int, row: int, col: int) -> Seq<
    u8,
> {
    Seq::new(
        SCREEN_SIZE as nat,
        |i: int|
            if reached(sprite, x0, y0, row, col, i) {
                flip(screen[i])
            } else {
                screen[i]
            },
    )
}

spec fn erased_before(
    screen: Seq<u8>,
    sprite: Seq<u8>,
    x0: int,
    y0: int,
    row: int,
    col: int,
    i: int,
) -> bool {
    &&& 0 <= i < SCREEN_SIZE
    &&& reached(sprite, x0, y0, row, col, i)
    &&& screen[i] != 0
}

/// The collision flag when the drawing loop stands at (`row`, `col`).
spec fn collides_before(
    screen: Seq<u8>,
    sprite: Seq<u8>,
    x0: int,
    y0: int,
    row: int,
    col: int,
) -> bool {
    exists|i: int| erased_before(screen, sprite, x0, y0, row, col, i)
}

/// Nothing is drawn before the loop starts.
proof fn lemma_draw_start(screen: Seq<u8>, sprite: Seq<u8>, x0: int, y0: int)
    requires
        screen.len() == SCREEN_SIZE,
    ensures
        draw_before(screen, sprite, x0, y0, 0, 0) == screen,
        !collides_before(screen, sprite, x0, y0, 0, 0),
{
    assert(draw_before(screen, sprite, x0, y0, 0, 0) =~= screen);
}

/// One step of the inner loop: the pixel at (`row`, `col`) is handled.
proof fn lemma_draw_pixel(screen: Seq<u8>, sprite: Seq<u8>, x0: int, y0: int, row: int, col: int)
    requires
        screen.len() == SCREEN_SIZE,
        0 <= x0,
        0 <= y0,
        0 <= row < sprite.len(),
        0 <= col < 8,
        x0 + col < 64,
        y0 + row < 32,
    ensures
        ({
            let cell = (y0 + row) * 64 + x0 + col;
            let bit = sprite_bit(sprite[row], col as u8);
            let now = draw_before(screen, sprite, x0, y0, row, col);
            &&& now[cell] == screen[cell]
            &&& draw_before(screen, sprite, x0, y0, row, col + 1) == if bit {
                now.update(cell, flip(screen[cell]))
            } else {
                now
            }
            &&& collides_before(screen, sprite, x0, y0, row, col + 1) == (collides_before(
                screen,
                sprite,
                x0,
                y0,
                row,
                col,
            ) || (bit && screen[cell] != 0))
        }),
{
    let cell = (y0 + row) * 64 + x0 + col;
    let bit = sprite_bit(sprite[row], col as u8);
    let now = draw_before(screen, sprite, x0, y0, row, col);
    let next = draw_before(screen, sprite, x0, y0, row, col + 1);
    assert(cell % 64 == x0 + col && cell / 64 == y0 + row);
    let next_col = col + 1;
    assert forall|i: int| 0 <= i < SCREEN_SIZE && i != cell implies #[trigger] reached(
        sprite,
        x0,
        y0,
        row,
        next_col,
        i,
    ) == reached(sprite, x0, y0, row, col, i) by {
        if i / 64 == y0 + row && i % 64 == x0 + col {
            assert(i == cell);
        }
    }
    assert(reached(sprite, x0, y0, row, next_col, cell) == bit);
    assert(!reached(sprite, x0, y0, row, col, cell));
    if bit {
        assert(next =~= now.update(cell, flip(screen[cell])));
    } else {
        assert(next =~= now);
    }
    if collides_before(screen, sprite, x0, y0, row, col + 1) {
        let i = choose|i: int| erased_before(screen, sprite, x0, y0, row, next_col, i);
        if i != cell {
            assert(erased_before(screen, sprite, x0, y0, row, col, i));
        }
    }
    if collides_before(screen, sprite, x0, y0, row, col) {
        let i = choose|i: int| erased_before(screen, sprite, x0, y0, row, col, i);
        assert(erased_before(screen, sprite, x0, y0, row, col + 1, i));
    }
    if bit && screen[cell] != 0 {
        assert(erased_before(screen, sprite, x0, y0, row, col + 1, cell));
    }
}

/// The end of the inner loop: a row is done after eight columns or at the
/// right edge, whichever comes first.
proof fn lemma_draw_row_done(
    screen: Seq<u8>,
    sprite: Seq<u8>,
    x0: int,
    y0: int,
    row: int,
    col: int,
)
    requires
        screen.len() == SCREEN_SIZE,
        0 <= x0,
        col == 8 || x0 + col == 64,
    ensures
        draw_before(screen, sprite, x0, y0, row, col) == draw_before(
            screen,
            sprite,
            x0,
            y0,
            row + 1,
            0,
        ),
        collides_before(screen, sprite, x0, y0, row, col) == collides_before(
            screen,
            sprite,
            x0,
            y0,
            row + 1,
            0,
        ),
{
    let next_row = row + 1;
    assert forall|i: int| 0 <= i < SCREEN_SIZE implies #[trigger] reached(
        sprite,
        x0,
        y0,
        row,
        col,
        i,
    ) == reached(sprite, x0, y0, next_row, 0, i) by {}
    assert(draw_before(screen, sprite, x0, y0, row, col) =~= draw_before(
        screen,
        sprite,
        x0,
        y0,
        row + 1,
        0,
    ));
    if collides_before(screen, sprite, x0, y0, row, col) {
        let i = choose|i: int| erased_before(screen, sprite, x0, y0, row, col, i);
        assert(erased_before(screen, sprite, x0, y0, row + 1, 0, i));
    }
    if collides_before(screen, sprite, x0, y0, row + 1, 0) {
        let i = choose|i: int| erased_before(screen, sprite, x0, y0, next_row, 0, i);
        assert(erased_before(screen, sprite, x0, y0, row, col, i));
    }
}

/// The end of the outer loop: the sprite is done after its last row or at the
/// bottom edge, whichever comes first.
proof fn lemma_draw_done(screen: Seq<u8>, sprite: Seq<u8>, x0: int, y0: int, row: int)
    requires
        screen.len() == SCREEN_SIZE,
        0 <= y0,
        row == sprite.len() || y0 + row == 32,
    ensures
        draw_before(screen, sprite, x0, y0, row, 0) == draw(screen, sprite, x0, y0),
        collides_before(screen, sprite, x0, y0, row, 0) == collides(screen, sprite, x0, y0),
{
    assert forall|i: int| 0 <= i < SCREEN_SIZE implies #[trigger] reached(
        sprite,
        x0,
        y0,
        row,
        0,
        i,
    ) == lit_cell(sprite, x0, y0, i) by {}
    assert(draw_before(screen, sprite, x0, y0, row, 0) =~= draw(screen, sprite, x0, y0));
    if collides_before(screen, sprite, x0, y0, row, 0) {
        let i = choose|i: int| erased_before(screen, sprite, x0, y0, row, 0, i);
        assert(erased(screen, sprite, x0, y0, i));
    }
    if collides(screen, sprite, x0, y0) {
        let i = choose|i: int| erased(screen, sprite, x0, y0, i);
        assert(erased_before(screen, sprite, x0, y0, row, 0, i));
    }
}

/// Turns every cell of the display off.
pub fn clear(screen: &mut [u8; SCREEN_SIZE])
    ensures
        final(screen)@ == blank_screen(),
        is_bitmap(final(screen)@),
    no_unwind
{
    let mut i: usize = 0;
    while i < SCREEN_SIZE
        invariant
            i <= SCREEN_SIZE,
            forall|j: int| 0 <= j < i ==> screen@[j] == 0,
        decreases SCREEN_SIZE - i,
    {
        screen[i] = 0;
        i += 1;
    }
    assert(screen@ =~= blank_screen());
}

/// Draws the `rows` bytes of memory that start at `index` as a sprite with its
/// top left corner at (`x0`, `y0`), and reports whether a cell was turned off.
pub fn draw_sprite(
    screen: &mut [u8; SCREEN_SIZE],
    memory: &[u8; MEMORY_IN_B],
    index: u16,
    rows: u8,
    x0: u8,
    y0: u8,
) -> (collision: bool)
    requires
        x0 < SCREEN_WIDTH,
        y0 < SCREEN_HEIGHT,
    ensures
        final(screen)@ == draw(
            old(screen)@,
            sprite_at(memory@, index, rows as int),
            x0 as int,
            y0 as int,
        ),
        collision == collides(
            old(screen)@,
            sprite_at(memory@, index, rows as int),
            x0 as int,
            y0 as int,
        ),
        is_bitmap(old(screen)@) ==> is_bitmap(final(screen)@),
    no_unwind
{
    let ghost before = screen@;
    let ghost sprite = sprite_at(memory@, index, rows as int);
    let left: usize = x0 as usize;
    let top: usize = y0 as usize;
    let mut collision = false;
    let mut row: usize = 0;
    proof {
        lemma_draw_start(before, sprite, left as int, top as int);
    }
    while row < rows as usize && top + row < SCREEN_HEIGHT
        invariant
            left == x0 < 64,
            top == y0 < 32,
            row <= rows,
            top + row <= 32,
            before.len() == SCREEN_SIZE,
            sprite == sprite_at(memory@, index, rows as int),
            screen@ == draw_before(before, sprite, left as int, top as int, row as int, 0),
            collision == collides_before(before, sprite, left as int, top as int, row as int, 0),
        decreases rows - row,
    {
        let byte: u8 = memory[(index as usize + row) % MEMORY_IN_B];
        let mut col: usize = 0;
        while col < 8 && left + col < SCREEN_WIDTH
            invariant
                left == x0 < 64,
                top == y0 < 32,
                row < rows,
                top + row < 32,
                col <= 8,
                left + col <= 64,
                before.len() == SCREEN_SIZE,
                sprite == sprite_at(memory@, index, rows as int),
                byte == sprite[row as int],
                screen@ == draw_before(
                    before,
                    sprite,
                    left as int,
                    top as int,
                    row as int,
                    col as int,
                ),
                collision == collides_before(
                    before,
                    sprite,
                    left as int,
                    top as int,
                    row as int,
                    col as int,
                ),
            decreases 8 - col,
        {
            let cell: usize = (top + row) * SCREEN_WIDTH + left + col;
            proof {
                lemma_draw_pixel(before, sprite, left as int, top as int, row as int, col as int);
            }
            if byte & (0x80u8 >> (col as u8)) != 0 {
                if screen[cell] != 0 {
                    screen[cell] = 0;
                    collision = true;
                } else {
                    screen[cell] = 1;
                }
            }
            col += 1;
        }
        proof {
            lemma_draw_row_done(before, sprite, left as int, top as int, row as int, col as int);
        }
        row += 1;
    }
    proof {
        lemma_draw_done(before, sprite, left as int, top as int, row as int);
    }
    collision
}

/// Drawing keeps every cell at 0 or 1.
pub proof fn lemma_draw_is_bitmap(screen: Seq<u8>, sprite: Seq<u8>, x0: int, y0: int)
    requires
        is_bitmap(screen),
    ensures
        is_bitmap(draw(screen, sprite, x0, y0)),
{
}

/// Drawing the same sprite twice at the same place restores the display.
pub proof fn lemma_draw_twice_restores(screen: Seq<u8>, sprite: Seq<u8>, x0: int, y0: int)
    requires
        is_bitmap(screen),
    ensures
        draw(draw(screen, sprite, x0, y0), sprite, x0, y0) == screen,
{
    let once = draw(screen, sprite, x0, y0);
    assert(draw(once, sprite, x0, y0) =~= screen);
}

/// The second of two equal draws collides exactly when the first one turned a
/// cell on.
pub proof fn lemma_second_draw_collides(screen: Seq<u8>, sprite: Seq<u8>, x0: int, y0: int)
    requires
        is_bitmap(screen),
    ensures
        collides(draw(screen, sprite, x0, y0), sprite, x0, y0) <==> exists|i: int|
            0 <= i < SCREEN_SIZE && #[trigger] lit_cell(sprite, x0, y0, i) && screen[i]
                == 0,
{
    let once = draw(screen, sprite, x0, y0);
    if collides(once, sprite, x0, y0) {
        let i = choose|i: int| erased(once, sprite, x0, y0, i);
        assert(lit_cell(sprite, x0, y0, i) && screen[i] == 0);
    }
    if exists|i: int|
        0 <= i < SCREEN_SIZE && #[trigger] lit_cell(sprite, x0, y0, i) && screen[i] == 0 {
        let i = choose|i: int|
            0 <= i < SCREEN_SIZE && #[trigger] lit_cell(sprite, x0, y0, i) && screen[i]
                == 0;
        assert(erased(once, sprite, x0, y0, i));
    }
}

/// On a blank display, drawing a sprite twice at the same place leaves the
/// display blank, and the second draw collides exactly when the sprite shows
/// at least one set bit.
pub proof fn lemma_draw_twice_on_blank(sprite: Seq<u8>, x0: int, y0: int)
    ensures
        draw(draw(blank_screen(), sprite, x0, y0), sprite, x0, y0) == blank_screen(),
        collides(draw(blank_screen(), sprite, x0, y0), sprite, x0, y0) <==> visible(
            sprite,
            x0,
            y0,
        ),
{
    lemma_draw_twice_restores(blank_screen(), sprite, x0, y0);
    lemma_second_draw_collides(blank_screen(), sprite, x0, y0);
    if visible(sprite, x0, y0) {
        let i = choose|i: int|
            0 <= i < SCREEN_SIZE && #[trigger] lit_cell(sprite, x0, y0, i);
        assert(blank_screen()[i] == 0);
    }
}

} // verus!
