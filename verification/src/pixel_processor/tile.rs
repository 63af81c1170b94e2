//! Pattern tiles and palettes: how the picture processor's memory encodes
//! the 8x8 tiles of the background and their colors.

use vstd::arithmetic::power2::lemma2_to64;
use vstd::arithmetic::power2::pow2;
use vstd::prelude::*;

use super::picture_memory;
use crate::memory::mappers::PPU_MEM;
use crate::memory::MemoryModel;

verus! {

/// Where the first nametable starts.
pub const NAMETABLE: usize = 0x2000;

/// Where the attribute table of the first nametable starts.
pub const ATTRIBUTE_TABLE: usize = 0x23C0;

/// Where the palettes start.
pub const PALETTES: usize = 0x3F00;

/// Where the second pattern table starts.
pub const SECOND_PATTERN_TABLE: usize = 0x1000;

/// The number of tile cells in a nametable: 32 columns by 30 rows.
pub const TILE_CELLS: usize = 960;

/// The two-bit color of a tile's pixel: the background or one of the
/// three colors of the tile's palette.
#[derive(Debug, Clone, Copy, PartialEq, Eq, Structural)]
pub enum PixelPaletteColorIndex {
    Background,
    Color1,
    Color2,
    Color3,
}

/// The four colors of a palette, as packed ARGB.
#[derive(Debug, Clone, Copy, PartialEq, Eq, Structural)]
pub struct PixelPalette {
    pub background: u32,
    pub color1: u32,
    pub color2: u32,
    pub color3: u32,
}

/// An 8x8 tile: the color index of each pixel, row by row.
#[derive(Debug, Clone, Copy)]
pub struct Tile {
    pub data: [PixelPaletteColorIndex; 64],
}

/// The console's 64 colors as packed ARGB, by their index.
pub open spec fn color_table() -> Seq<u32> {
    seq![
        0xFF626262, 0xFF002E98, 0xFF0C11C2, 0xFF3B00C2, 0xFF650098, 0xFF7D004E, 0xFF7D0000, 0xFF651900,
        0xFF3B3600, 0xFF0C4F00, 0xFF005B00, 0xFF005900, 0xFF00494E, 0xFF000000, 0xFF000000, 0xFF000000,
        0xFFABABAB, 0xFF0064F4, 0xFF353CFF, 0xFF761BFF, 0xFFAE0AF4, 0xFFCF0C8F, 0xFFCF231C, 0xFFAE4700,
        0xFF766F00, 0xFF359000, 0xFF00A100, 0xFF009E1C, 0xFF00888F, 0xFF000000, 0xFF000000, 0xFF000000,
        0xFFFFFFFF, 0xFF4AB5FF, 0xFF858CFF, 0xFFC86AFF, 0xFFFF58FF, 0xFFFF5BE2, 0xFFFF726A, 0xFFFF9702,
        0xFFC8C100, 0xFF85E300, 0xFF4AF502, 0xFF29F26A, 0xFF29DBE2, 0xFF4E4E4E, 0xFF000000, 0xFF000000,
        0xFFFFFFFF, 0xFFB6E1FF, 0xFFCED1FF, 0xFFE9C3FF, 0xFFFFBCFF, 0xFFFFBDF4, 0xFFFFC6C3, 0xFFFFD59A,
        0xFFE9E681, 0xFFCEF481, 0xFFB6FB9A, 0xFFA9FAC3, 0xFFA9F0F4, 0xFFB8B8B8, 0xFF000000, 0xFF000000,
    ]
}

/// The color of a palette for a color index.
pub open spec fn palette_color(palette: PixelPalette, index: PixelPaletteColorIndex) -> u32 {
    match index {
        PixelPaletteColorIndex::Background => palette.background,
        PixelPaletteColorIndex::Color1 => palette.color1,
        PixelPaletteColorIndex::Color2 => palette.color2,
        PixelPaletteColorIndex::Color3 => palette.color3,
    }
}

/// The palette that pattern tables are shown in.
pub open spec fn sample_palette() -> PixelPalette {
    PixelPalette {
        background: 0xFF000000,
        color1: 0xFF0000FF,
        color2: 0xFFFF00FF,
        color3: 0xFF00FFFF,
    }
}

/// The number of the palette of tile cell `tile_id`: two bits of the
/// attribute byte of the cell's 4x4 block, chosen by the quadrant of the
/// block that the cell lies in. The left upper quadrant has bits 0 and 1,
/// the right upper 2 and 3, the left lower 4 and 5, the right lower 6 and 7.
pub open spec fn palette_number(memory: MemoryModel, tile_id: int) -> int {
    let tile_x = tile_id % 32;
    let tile_y = tile_id / 32;
    let attribute = memory.read_byte(ATTRIBUTE_TABLE + tile_x / 4 + (tile_y / 4) * 8) as int;
    let right = (tile_x % 4) / 2 == 1;
    let lower = (tile_y % 4) / 2 == 1;
    if !lower && !right {
        attribute % 4
    } else if !lower && right {
        (attribute / 4) % 4
    } else if lower && !right {
        (attribute / 16) % 4
    } else {
        (attribute / 64) % 4
    }
}

/// The color that palette memory holds at `address`. Palette memory is
/// six bits wide: only the low six bits of the byte choose the color.
pub open spec fn color_at(memory: MemoryModel, address: int) -> u32 {
    color_table()[memory.read_byte(address) as int % 64]
}

/// The palette of tile cell `tile_id`.
pub open spec fn palette_of(memory: MemoryModel, tile_id: int) -> PixelPalette {
    let first = PALETTES + palette_number(memory, tile_id) * 4;
    PixelPalette {
        background: color_at(memory, first),
        color1: color_at(memory, first + 1),
        color2: color_at(memory, first + 2),
        color3: color_at(memory, first + 3),
    }
}

/// Whether the bit for pixel column `column` is set in the byte at
/// `address`. Column 0 is the leftmost pixel and has bit 7.
pub open spec fn pattern_bit(memory: MemoryModel, address: int, column: int) -> bool {
    (memory.read_byte(address) as int / pow2((7 - column) as nat) as int) % 2 == 1
}

/// Where the pattern of tile `tile_pattern_id` starts: 16 bytes for each
/// tile, in the second pattern table where `plane1` holds.
pub open spec fn pattern_base(tile_pattern_id: int, plane1: bool) -> int {
    (if plane1 {
        SECOND_PATTERN_TABLE as int
    } else {
        0
    }) + tile_pattern_id * 16
}

/// The color index of pixel `i` of a pattern, the pixels counted row by
/// row. The low bit comes from the first eight bytes of the pattern, the
/// high bit from the second eight.
pub open spec fn pattern_pixel(
    memory: MemoryModel,
    tile_pattern_id: int,
    plane1: bool,
    i: int,
) -> PixelPaletteColorIndex {
    let row = pattern_base(tile_pattern_id, plane1) + i / 8;
    let lsb = pattern_bit(memory, row, i % 8);
    let msb = pattern_bit(memory, row + 8, i % 8);
    if msb {
        if lsb {
            PixelPaletteColorIndex::Color3
        } else {
            PixelPaletteColorIndex::Color2
        }
    } else {
        if lsb {
            PixelPaletteColorIndex::Color1
        } else {
            PixelPaletteColorIndex::Background
        }
    }
}

/// The color of one of the console's 64 colors.
pub fn get_color(index: u8) -> (r: u32)
    requires
        index < 64,
    ensures
        r == color_table()[index as int],
{
    let color: [u32; 64] = [
        0xFF626262, 0xFF002E98, 0xFF0C11C2, 0xFF3B00C2, 0xFF650098, 0xFF7D004E, 0xFF7D0000, 0xFF651900,
        0xFF3B3600, 0xFF0C4F00, 0xFF005B00, 0xFF005900, 0xFF00494E, 0xFF000000, 0xFF000000, 0xFF000000,
        0xFFABABAB, 0xFF0064F4, 0xFF353CFF, 0xFF761BFF, 0xFFAE0AF4, 0xFFCF0C8F, 0xFFCF231C, 0xFFAE4700,
        0xFF766F00, 0xFF359000, 0xFF00A100, 0xFF009E1C, 0xFF00888F, 0xFF000000, 0xFF000000, 0xFF000000,
        0xFFFFFFFF, 0xFF4AB5FF, 0xFF858CFF, 0xFFC86AFF, 0xFFFF58FF, 0xFFFF5BE2, 0xFFFF726A, 0xFFFF9702,
        0xFFC8C100, 0xFF85E300, 0xFF4AF502, 0xFF29F26A, 0xFF29DBE2, 0xFF4E4E4E, 0xFF000000, 0xFF000000,
        0xFFFFFFFF, 0xFFB6E1FF, 0xFFCED1FF, 0xFFE9C3FF, 0xFFFFBCFF, 0xFFFFBDF4, 0xFFFFC6C3, 0xFFFFD59A,
        0xFFE9E681, 0xFFCEF481, 0xFFB6FB9A, 0xFFA9FAC3, 0xFFA9F0F4, 0xFFB8B8B8, 0xFF000000, 0xFF000000,
    ];
    assert(color@ =~= color_table());
    color[index as usize]
}

/// The weight of the bit for pixel column `column`: 128 for column 0, 1
/// for column 7.
fn column_weight(column: usize) -> (r: u8)
    requires
        column < 8,
    ensures
        r == pow2((7 - column) as nat),
        r > 0,
{
    proof {
        lemma2_to64();
    }
    match column {
        0 => 128,
        1 => 64,
        2 => 32,
        3 => 16,
        4 => 8,
        5 => 4,
        6 => 2,
        _ => 1,
    }
}

impl PixelPalette {
    /// The palette of tile cell `tile_id` of the first nametable.
    pub fn get(ppu_memory: &PPU_MEM, tile_id: usize) -> (r: Self)
        requires
            picture_memory(ppu_memory@),
            tile_id < TILE_CELLS,
        ensures
            r == palette_of(ppu_memory@, tile_id as int),
    {
        let tile_x = tile_id % 32;
        let tile_y = tile_id / 32;
        let tile_attribute_x = tile_x % 4;
        let tile_attribute_y = tile_y % 4;
        let attribute_byte_offset = (tile_x / 4) + (tile_y / 4 * 8);
        let attribute_byte = ppu_memory.peek(ATTRIBUTE_TABLE + attribute_byte_offset);
        proof {
            lemma2_to64();
        }
        let palette_index: u8 = if tile_attribute_y / 2 == 0 {
            if tile_attribute_x / 2 == 0 {
                attribute_byte % 4
            } else {
                (attribute_byte / 4) % 4
            }
        } else {
            if tile_attribute_x / 2 == 0 {
                (attribute_byte / 16) % 4
            } else {
                (attribute_byte / 64) % 4
            }
        };
        let first = PALETTES + (palette_index as usize) * 4;
        Self {
            background: get_color(ppu_memory.peek(first) % 64),
            color1: get_color(ppu_memory.peek(first + 1) % 64),
            color2: get_color(ppu_memory.peek(first + 2) % 64),
            color3: get_color(ppu_memory.peek(first + 3) % 64),
        }
    }

    /// A fixed palette for looking at pattern tables: black, blue,
    /// magenta and cyan.
    pub fn get_sample_palette() -> (r: Self)
        ensures
            r == sample_palette(),
    {
        Self {
            background: 0xFF000000,
            color1: 0xFF0000FF,
            color2: 0xFFFF00FF,
            color3: 0xFF00FFFF,
        }
    }
}

impl Tile {
    /// Decodes the pattern of tile `tile_pattern_id`, from the second
    /// pattern table where `plane1` holds.
    pub fn get(ppu_memory: &PPU_MEM, tile_pattern_id: usize, plane1: bool) -> (r: Self)
        requires
            picture_memory(ppu_memory@),
            tile_pattern_id < 256,
        ensures
            forall|i: int|
                0 <= i < 64 ==> #[trigger] r.data[i] == pattern_pixel(
                    ppu_memory@,
                    tile_pattern_id as int,
                    plane1,
                    i,
                ),
    {
        let mut data = [PixelPaletteColorIndex::Background;64];
        let base: usize = if plane1 {
            SECOND_PATTERN_TABLE
        } else {
            0
        } + tile_pattern_id * 16;
        let mut i: usize = 0;
        while i < 64
            invariant
                i <= 64,
                picture_memory(ppu_memory@),
                tile_pattern_id < 256,
                base == pattern_base(tile_pattern_id as int, plane1),
                forall|k: int|
                    0 <= k < i ==> #[trigger] data[k] == pattern_pixel(
                        ppu_memory@,
                        tile_pattern_id as int,
                        plane1,
                        k,
                    ),
            decreases 64 - i,
        {
            let lsb_strip_address = base + i / 8;
            let msb_strip_address = base + 8 + i / 8;
            let weight = column_weight(i % 8);
            let lsb = (ppu_memory.peek(lsb_strip_address) / weight) % 2 == 1;
            let msb = (ppu_memory.peek(msb_strip_address) / weight) % 2 == 1;
            let pixel = if msb {
                if lsb {
                    PixelPaletteColorIndex::Color3
                } else {
                    PixelPaletteColorIndex::Color2
                }
            } else {
                if lsb {
                    PixelPaletteColorIndex::Color1
                } else {
                    PixelPaletteColorIndex::Background
                }
            };
            data[i] = pixel;
            i += 1;
        }
        Tile { data }
    }

    /// The colors of the tile's pixels under `palette`, row by row.
    pub fn rendered(&self, palette: PixelPalette) -> (r: [u32; 64])
        ensures
            forall|i: int| 0 <= i < 64 ==> #[trigger] r[i] == palette_color(palette, self.data[i]),
    {
        let mut rendered = [0u32;64];
        let mut i: usize = 0;
        while i < 64
            invariant
                i <= 64,
                forall|k: int|
                    0 <= k < i ==> #[trigger] rendered[k] == palette_color(palette, self.data[k]),
            decreases 64 - i,
        {
            let color = match self.data[i] {
                PixelPaletteColorIndex::Background => palette.background,
                PixelPaletteColorIndex::Color1 => palette.color1,
                PixelPaletteColorIndex::Color2 => palette.color2,
                PixelPaletteColorIndex::Color3 => palette.color3,
            };
            rendered[i] = color;
            i += 1;
        }
        rendered
    }
}

/// The pattern and the palette of tile cell `tile_id` of the first
/// nametable: the nametable names the pattern, the attribute table the
/// palette.
pub fn get_tile_and_palette(ppu_memory: &PPU_MEM, tile_id: usize, plane1: bool) -> (r: (
    Tile,
    PixelPalette,
))
    requires
        picture_memory(ppu_memory@),
        tile_id < TILE_CELLS,
    ensures
        r.1 == palette_of(ppu_memory@, tile_id as int),
        forall|i: int|
            0 <= i < 64 ==> #[trigger] r.0.data[i] == pattern_pixel(
                ppu_memory@,
                ppu_memory@.read_byte(NAMETABLE + tile_id) as int,
                plane1,
                i,
            ),
{
    let tile_pattern_id = ppu_memory.peek(NAMETABLE + tile_id);
    let tile = Tile::get(ppu_memory, tile_pattern_id as usize, plane1);
    let palette = PixelPalette::get(ppu_memory, tile_id);
    (tile, palette)
}

} // verus!
