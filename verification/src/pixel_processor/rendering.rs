//! Rendering the background: each of the 32 by 30 tile cells of the first
//! nametable is decoded and copied into the frame buffer.

use vstd::prelude::*;

use super::helper::overlaid;
use super::helper::overlaid_row;
use super::helper::overlay_sprite;
use super::tile::get_tile_and_palette;
use super::tile::palette_color;
use super::tile::palette_of;
use super::tile::sample_palette;
use super::tile::PixelPalette;
use super::tile::Tile;
use super::tile::pattern_pixel;
use super::tile::NAMETABLE;
use super::tile::TILE_CELLS;
use super::PictureModel;
use super::PPU;
use super::SCREEN_WIDTH;
use crate::memory::MemoryModel;

verus! {

/// The color of the background at column `x` of row `y`: the pixel of the
/// pattern that the nametable names for the pixel's tile cell, in the
/// palette that the attribute table names for that cell.
pub open spec fn background_pixel(memory: MemoryModel, x: int, y: int) -> u32 {
    let tile_id = (y / 8) * 32 + x / 8;
    let pattern = memory.read_byte(NAMETABLE + tile_id) as int;
    palette_color(
        palette_of(memory, tile_id),
        pattern_pixel(memory, pattern, false, (y % 8) * 8 + x % 8),
    )
}

/// What rendering does to the picture processor: the frame buffer shows
/// the background, and nothing else changes.
pub open spec fn rendered(before: PictureModel, after: PictureModel) -> bool {
    &&& after.memory == before.memory
    &&& after.vram_address == before.vram_address
    &&& after.w == before.w
    &&& forall|x: int, y: int|
        0 <= x < 256 && 0 <= y < 240 ==> #[trigger] after.framebuffer[y * 256 + x]
            == background_pixel(before.memory, x, y)
}

/// What copying the first `n` pixels of row `y` of an 8x8 tile into a
/// screen 256 pixels wide changes: those pixels, and nothing else.
proof fn lemma_tile_row(
    screen: Seq<u32>,
    sprite: Seq<u32>,
    offset_x: int,
    offset_y: int,
    y: int,
    n: nat,
)
    requires
        0 <= offset_x,
        offset_x + 8 <= 256,
        0 <= offset_y,
        (offset_y + 8) * 256 <= screen.len(),
        0 <= y < 8,
        n <= 8,
    ensures
        overlaid_row(screen, sprite, offset_x, offset_y, 256, 8, y, n).len() == screen.len(),
        forall|p: int|
            0 <= p < screen.len() ==> #[trigger] overlaid_row(
                screen,
                sprite,
                offset_x,
                offset_y,
                256,
                8,
                y,
                n,
            )[p] == (if p / 256 == offset_y + y && offset_x <= p % 256 < offset_x + n {
                sprite[y * 8 + (p % 256 - offset_x)]
            } else {
                screen[p]
            }),
    decreases n,
{
    if n > 0 {
        lemma_tile_row(screen, sprite, offset_x, offset_y, y, (n - 1) as nat);
    }
}

/// What copying the first `rows` rows of an 8x8 tile into a screen 256
/// pixels wide changes: those rows of the tile's square, and nothing else.
proof fn lemma_tile_rows(
    screen: Seq<u32>,
    sprite: Seq<u32>,
    offset_x: int,
    offset_y: int,
    rows: nat,
)
    requires
        0 <= offset_x,
        offset_x + 8 <= 256,
        0 <= offset_y,
        (offset_y + 8) * 256 <= screen.len(),
        rows <= 8,
    ensures
        overlaid(screen, sprite, offset_x, offset_y, 256, 8, rows).len() == screen.len(),
        forall|p: int|
            0 <= p < screen.len() ==> #[trigger] overlaid(
                screen,
                sprite,
                offset_x,
                offset_y,
                256,
                8,
                rows,
            )[p] == (if offset_y <= p / 256 < offset_y + rows && offset_x <= p % 256 < offset_x
                + 8 {
                sprite[(p / 256 - offset_y) * 8 + (p % 256 - offset_x)]
            } else {
                screen[p]
            }),
    decreases rows,
{
    if rows > 0 {
        lemma_tile_rows(screen, sprite, offset_x, offset_y, (rows - 1) as nat);
        lemma_tile_row(
            overlaid(screen, sprite, offset_x, offset_y, 256, 8, (rows - 1) as nat),
            sprite,
            offset_x,
            offset_y,
            rows - 1,
            8,
        );
    }
}

/// The number of the tile cell that pixel `p` of the picture lies in, the
/// pixels counted row by row.
pub open spec fn cell_of(p: int) -> int {
    (p / 256 / 8) * 32 + (p % 256) / 8
}

/// Pixel `k` of tile cell `i` is the pixel of the pattern that the
/// nametable names for the cell, in the cell's palette.
proof fn lemma_cell_pixel(memory: MemoryModel, i: int, k: int)
    requires
        0 <= i < 960,
        0 <= k < 64,
    ensures
        background_pixel(memory, (i % 32) * 8 + k % 8, (i / 32) * 8 + k / 8) == palette_color(
            palette_of(memory, i),
            pattern_pixel(memory, memory.read_byte(NAMETABLE + i) as int, false, k),
        ),
{
    let x = (i % 32) * 8 + k % 8;
    let y = (i / 32) * 8 + k / 8;
    assert(x / 8 == i % 32);
    assert(y / 8 == i / 32);
    assert((y / 8) * 32 + x / 8 == i);
    assert((y % 8) * 8 + x % 8 == k);
}

/// Rendering tile cell `i` leaves the cells before it as they were and
/// makes cell `i` show the background.
proof fn lemma_cell_rendered(
    before: Seq<u32>,
    after: Seq<u32>,
    memory: MemoryModel,
    sprite: Seq<u32>,
    i: int,
)
    requires
        0 <= i < 960,
        before.len() == 61440,
        sprite.len() == 64,
        after == overlaid(before, sprite, (i % 32) * 8, (i / 32) * 8, 256, 8, 8),
        forall|k: int|
            0 <= k < 64 ==> #[trigger] sprite[k] == palette_color(
                palette_of(memory, i),
                pattern_pixel(memory, memory.read_byte(NAMETABLE + i) as int, false, k),
            ),
        forall|p: int|
            0 <= p < 61440 && cell_of(p) < i ==> #[trigger] before[p] == background_pixel(
                memory,
                p % 256,
                p / 256,
            ),
    ensures
        after.len() == 61440,
        forall|p: int|
            0 <= p < 61440 && cell_of(p) < i + 1 ==> #[trigger] after[p] == background_pixel(
                memory,
                p % 256,
                p / 256,
            ),
{
    let offset_x = (i % 32) * 8;
    let offset_y = (i / 32) * 8;
    lemma_tile_rows(before, sprite, offset_x, offset_y, 8);
    assert forall|p: int| 0 <= p < 61440 && cell_of(p) < i + 1 implies #[trigger] after[p]
        == background_pixel(memory, p % 256, p / 256) by {
        let x = p % 256;
        let y = p / 256;
        if cell_of(p) == i {
            assert(y / 8 == i / 32 && x / 8 == i % 32);
            let k = (y - offset_y) * 8 + (x - offset_x);
            assert(0 <= k < 64);
            assert(k % 8 == x - offset_x && k / 8 == y - offset_y);
            assert(after[p] == sprite[k]);
            lemma_cell_pixel(memory, i, k);
        } else {
            assert(y / 8 != i / 32 || x / 8 != i % 32);
            assert(after[p] == before[p]);
        }
    }
}

/// The color at column `x` of row `y` of the picture of the pattern
/// tables: the first table fills the left half, the second the right one,
/// each with 16 tiles in a row.
pub open spec fn pattern_table_pixel(memory: MemoryModel, x: int, y: int) -> u32 {
    palette_color(
        sample_palette(),
        pattern_pixel(memory, (y / 8) * 16 + (x % 128) / 8, x >= 128, (y % 8) * 8 + x % 8),
    )
}

/// The place in the order of rendering of the tile that pixel `p` of the
/// picture of the pattern tables lies in: the 256 tiles of the first
/// table, then those of the second.
pub open spec fn slot_of(p: int) -> int {
    ((p % 256) / 128) * 256 + (p / 256 / 8) * 16 + ((p % 256) % 128) / 8
}

/// Rendering the tile of a slot leaves the tiles before it as they were
/// and makes the slot show its pattern.
proof fn lemma_slot_rendered(
    before: Seq<u32>,
    after: Seq<u32>,
    memory: MemoryModel,
    sprite: Seq<u32>,
    slot: int,
)
    requires
        0 <= slot < 512,
        before.len() == 32768,
        sprite.len() == 64,
        after == overlaid(
            before,
            sprite,
            ((slot % 256) % 16) * 8 + (slot / 256) * 128,
            ((slot % 256) / 16) * 8,
            256,
            8,
            8,
        ),
        forall|k: int|
            0 <= k < 64 ==> #[trigger] sprite[k] == palette_color(
                sample_palette(),
                pattern_pixel(memory, slot % 256, slot / 256 != 0, k),
            ),
        forall|p: int|
            0 <= p < 32768 && slot_of(p) < slot ==> #[trigger] before[p] == pattern_table_pixel(
                memory,
                p % 256,
                p / 256,
            ),
    ensures
        after.len() == 32768,
        forall|p: int|
            0 <= p < 32768 && slot_of(p) < slot + 1 ==> #[trigger] after[p] == pattern_table_pixel(
                memory,
                p % 256,
                p / 256,
            ),
{
    let tile = slot % 256;
    let plane = slot / 256;
    let offset_x = (tile % 16) * 8 + plane * 128;
    let offset_y = (tile / 16) * 8;
    lemma_tile_rows(before, sprite, offset_x, offset_y, 8);
    assert forall|p: int| 0 <= p < 32768 && slot_of(p) < slot + 1 implies #[trigger] after[p]
        == pattern_table_pixel(memory, p % 256, p / 256) by {
        let x = p % 256;
        let y = p / 256;
        if slot_of(p) == slot {
            assert(x / 128 == plane && y / 8 == tile / 16 && (x % 128) / 8 == tile % 16);
            let k = (y - offset_y) * 8 + (x - offset_x);
            assert(0 <= k < 64);
            assert(k % 8 == x % 8 && k / 8 == y % 8);
            assert(after[p] == sprite[k]);
            assert((y / 8) * 16 + (x % 128) / 8 == tile);
        } else {
            assert(x / 128 != plane || y / 8 != tile / 16 || (x % 128) / 8 != tile % 16);
            assert(after[p] == before[p]);
        }
    }
}

impl PPU {
    /// Renders the background of the first nametable into the frame
    /// buffer. Nothing else changes.
    pub fn render_frame(&mut self)
        requires
            old(self)@.wf(),
        ensures
            final(self)@.wf(),
            rendered(old(self)@, final(self)@),
    {
        let mut i: usize = 0;
        while i < TILE_CELLS
            invariant
                i <= TILE_CELLS,
                self@.wf(),
                self@.memory == old(self)@.memory,
                self@.vram_address == old(self)@.vram_address,
                self@.w == old(self)@.w,
                forall|p: int|
                    0 <= p < 61440 && cell_of(p) < i ==> #[trigger] self@.framebuffer[p]
                        == background_pixel(self@.memory, p % 256, p / 256),
            decreases TILE_CELLS - i,
        {
            // Each byte is 8x8 sprite index so in turn we fill 256x240 pixels
            let (tile, tile_palette) = get_tile_and_palette(&self.ppu_memory, i, false);
            let sprite = tile.rendered(tile_palette);
            let offset_x = (i % 32) * 8;
            let offset_y = (i / 32) * 8;
            let ghost before = self.framebuffer@;
            proof {
                lemma_tile_rows(before, sprite@, offset_x as int, offset_y as int, 8);
            }
            overlay_sprite(
                self.framebuffer.as_mut_slice(),
                sprite.as_slice(),
                offset_x,
                offset_y,
                SCREEN_WIDTH,
                8,
            );
            proof {
                lemma_cell_rendered(before, self.framebuffer@, self@.memory, sprite@, i as int);
            }
            i += 1;
        }
        assert forall|x: int, y: int|
            0 <= x < 256 && 0 <= y < 240 implies #[trigger] self@.framebuffer[y * 256 + x]
            == background_pixel(old(self)@.memory, x, y) by {
            let p = y * 256 + x;
            assert(p / 256 == y && p % 256 == x);
            assert(cell_of(p) < 960);
        }
    }

    /// Renders the two pattern tables side by side, 16 by 16 tiles each,
    /// in the sample palette, into a picture 256 pixels wide and 128 high.
    pub fn render_pattern_table(&self) -> (pattern_screen: Vec<u32>)
        requires
            self@.wf(),
        ensures
            pattern_screen@.len() == 256 * 128,
            forall|x: int, y: int|
                0 <= x < 256 && 0 <= y < 128 ==> #[trigger] pattern_screen@[y * 256 + x]
                    == pattern_table_pixel(self@.memory, x, y),
    {
        let mut pattern_screen = vec![0u32; 32768];
        let tile_palette = PixelPalette::get_sample_palette();
        let mut slot: usize = 0;
        while slot < 512
            invariant
                slot <= 512,
                self@.wf(),
                tile_palette == sample_palette(),
                pattern_screen@.len() == 32768,
                forall|p: int|
                    0 <= p < 32768 && slot_of(p) < slot ==> #[trigger] pattern_screen@[p]
                        == pattern_table_pixel(self@.memory, p % 256, p / 256),
            decreases 512 - slot,
        {
            let bit_plane = slot / 256;
            let tile_pattern_id = slot % 256;
            let tile = Tile::get(&self.ppu_memory, tile_pattern_id, bit_plane != 0);
            let sprite = tile.rendered(tile_palette);
            let offset_x = (tile_pattern_id % 16) * 8 + bit_plane * 128;
            let offset_y = (tile_pattern_id / 16) * 8;
            let ghost before = pattern_screen@;
            proof {
                lemma_tile_rows(before, sprite@, offset_x as int, offset_y as int, 8);
            }
            overlay_sprite(
                pattern_screen.as_mut_slice(),
                sprite.as_slice(),
                offset_x,
                offset_y,
                SCREEN_WIDTH,
                8,
            );
            proof {
                lemma_slot_rendered(before, pattern_screen@, self@.memory, sprite@, slot as int);
            }
            slot += 1;
        }
        assert forall|x: int, y: int|
            0 <= x < 256 && 0 <= y < 128 implies #[trigger] pattern_screen@[y * 256 + x]
            == pattern_table_pixel(self@.memory, x, y) by {
            let p = y * 256 + x;
            assert(p / 256 == y && p % 256 == x);
            assert(slot_of(p) < 512);
        }
        pattern_screen
    }
}

} // verus!
