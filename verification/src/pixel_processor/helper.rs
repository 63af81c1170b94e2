//! Copying a sprite into a screen.

use vstd::arithmetic::div_mod::lemma_fundamental_div_mod;
use vstd::prelude::*;

verus! {

/// The index in a screen of width `screen_width` of the pixel `x` columns
/// and `y` rows from the pixel at (`offset_x`, `offset_y`).
pub open spec fn position(offset_x: int, offset_y: int, screen_width: int, x: int, y: int) -> int {
    (offset_y + y) * screen_width + (offset_x + x)
}

/// Whether a sprite of `rows` rows of `sprite_width` pixels, put at
/// (`offset_x`, `offset_y`), stays inside a screen of `screen_len` pixels.
pub open spec fn fits(
    screen_len: int,
    rows: int,
    offset_x: int,
    offset_y: int,
    screen_width: int,
    sprite_width: int,
) -> bool {
    forall|x: int, y: int|
        0 <= x < sprite_width && 0 <= y < rows ==> 0 <= #[trigger] position(
            offset_x,
            offset_y,
            screen_width,
            x,
            y,
        ) < screen_len
}

/// The screen after the first `n` pixels of row `y` of the sprite were
/// copied into it.
pub open spec fn overlaid_row(
    screen: Seq<u32>,
    sprite: Seq<u32>,
    offset_x: int,
    offset_y: int,
    screen_width: int,
    sprite_width: int,
    y: int,
    n: nat,
) -> Seq<u32>
    decreases n,
{
    if n == 0 {
        screen
    } else {
        overlaid_row(
            screen,
            sprite,
            offset_x,
            offset_y,
            screen_width,
            sprite_width,
            y,
            (n - 1) as nat,
        ).update(
            position(offset_x, offset_y, screen_width, n - 1, y),
            sprite[y * sprite_width + n - 1],
        )
    }
}

/// The screen after the first `rows` rows of the sprite were copied into
/// it, row by row and each row from left to right.
pub open spec fn overlaid(
    screen: Seq<u32>,
    sprite: Seq<u32>,
    offset_x: int,
    offset_y: int,
    screen_width: int,
    sprite_width: int,
    rows: nat,
) -> Seq<u32>
    decreases rows,
{
    if rows == 0 {
        screen
    } else {
        overlaid_row(
            overlaid(
                screen,
                sprite,
                offset_x,
                offset_y,
                screen_width,
                sprite_width,
                (rows - 1) as nat,
            ),
            sprite,
            offset_x,
            offset_y,
            screen_width,
            sprite_width,
            rows - 1,
            sprite_width as nat,
        )
    }
}

/// Copies `sprite`, whose rows are `sprite_width` pixels wide, into
/// `screen`, whose rows are `screen_width` pixels wide, with the sprite's
/// first pixel at column `offset_x` of row `offset_y`. Pixels behind the
/// sprite's last full row are not copied.
pub fn overlay_sprite(
    screen: &mut [u32],
    sprite: &[u32],
    offset_x: usize,
    offset_y: usize,
    screen_width: usize,
    sprite_width: usize,
)
    requires
        sprite_width > 0,
        fits(
            old(screen)@.len() as int,
            sprite@.len() as int / sprite_width as int,
            offset_x as int,
            offset_y as int,
            screen_width as int,
            sprite_width as int,
        ),
    ensures
        final(screen)@ == overlaid(
            old(screen)@,
            sprite@,
            offset_x as int,
            offset_y as int,
            screen_width as int,
            sprite_width as int,
            (sprite@.len() as int / sprite_width as int) as nat,
        ),
{
    let sprite_len = sprite.len();
    let rows = sprite_len / sprite_width;
    let screen_len = screen.len();
    proof {
        lemma_fundamental_div_mod(sprite@.len() as int, sprite_width as int);
    }
    let mut y: usize = 0;
    while y < rows
        invariant
            y <= rows,
            sprite_width > 0,
            rows == sprite@.len() as int / sprite_width as int,
            rows * sprite_width <= sprite_len,
            sprite_len == sprite@.len(),
            screen@.len() == screen_len,
            screen_len == old(screen)@.len(),
            fits(
                screen_len as int,
                rows as int,
                offset_x as int,
                offset_y as int,
                screen_width as int,
                sprite_width as int,
            ),
            screen@ == overlaid(
                old(screen)@,
                sprite@,
                offset_x as int,
                offset_y as int,
                screen_width as int,
                sprite_width as int,
                y as nat,
            ),
        decreases rows - y,
    {
        let ghost row_start = screen@;
        let mut x: usize = 0;
        while x < sprite_width
            invariant
                x <= sprite_width,
                y < rows,
                rows * sprite_width <= sprite_len,
                sprite_len == sprite@.len(),
                screen@.len() == screen_len,
                fits(
                    screen_len as int,
                    rows as int,
                    offset_x as int,
                    offset_y as int,
                    screen_width as int,
                    sprite_width as int,
                ),
                screen@ == overlaid_row(
                    row_start,
                    sprite@,
                    offset_x as int,
                    offset_y as int,
                    screen_width as int,
                    sprite_width as int,
                    y as int,
                    x as nat,
                ),
            decreases sprite_width - x,
        {
            assert(0 <= position(
                offset_x as int,
                offset_y as int,
                screen_width as int,
                x as int,
                y as int,
            ) < screen_len);
            assert((offset_y + y) * screen_width == offset_y * screen_width + y * screen_width
                && 0 <= offset_y * screen_width && 0 <= y * screen_width) by (nonlinear_arith);
            assert(0 <= y * sprite_width && y * sprite_width + x < rows * sprite_width)
                by (nonlinear_arith)
                requires
                    y < rows,
                    x < sprite_width,
            ;
            let screen_offset = offset_y * screen_width + y * screen_width + (offset_x + x);
            let sprite_offset = y * sprite_width + x;
            screen[screen_offset] = sprite[sprite_offset];
            x += 1;
        }
        y += 1;
    }
}

} // verus!
