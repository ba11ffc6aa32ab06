//! Palette lookups and bit-plane decoding.

use crate::ppu::NesPPU;
use crate::ppu::PpuState;
use vstd::prelude::*;

verus! {

/// The colour number 0 to 3 of the pixel in column `column` (0 is
/// leftmost) of a pattern row whose bit planes are `upper` and `lower`:
/// bit 0 comes from `upper`, bit 1 from `lower`.
pub open spec fn pattern_value(upper: u8, lower: u8, column: int) -> u8 {
    (((lower >> (7 - column) as u8) & 1) << 1) | ((upper >> (7 - column) as u8) & 1)
}

pub fn pattern_pixel(upper: u8, lower: u8, column: u8) -> (value: u8)
    requires
        column < 8,
    ensures
        value == pattern_value(upper, lower, column as int),
        value <= 3,
{
    let shift: u8 = 7 - column;
    let value: u8 = (((lower >> shift) & 1) << 1) | ((upper >> shift) & 1);
    assert(value <= 3) by (bit_vector)
        requires
            value == (((lower >> shift) & 1) << 1) | ((upper >> shift) & 1),
    ;
    value
}

/// By how many bits the attribute byte is shifted for the tile in column
/// `tile_column` and row `tile_row`: each byte holds the palettes of the
/// four 2 by 2 tile quadrants of a 4 by 4 tile block.
pub open spec fn attribute_shift(tile_column: int, tile_row: int) -> u8 {
    let right = tile_column % 4 / 2 == 1;
    let bottom = tile_row % 4 / 2 == 1;
    if !right && !bottom {
        0
    } else if right && !bottom {
        2
    } else if !right && bottom {
        4
    } else {
        6
    }
}

/// The number 0 to 3 of the background palette of the tile in column
/// `tile_column` and row `tile_row`, from the 64 attribute bytes.
pub open spec fn background_palette_index(attrs_table: Seq<u8>, tile_column: int, tile_row: int) -> u8 {
    (attrs_table[tile_row / 4 * 8 + tile_column / 4] >> attribute_shift(tile_column, tile_row)) & 3
}

/// The four palette bytes of background palette `index`: the shared
/// backdrop, then the three colours of the palette.
pub open spec fn background_palette(ppu: PpuState, index: u8) -> Seq<u8> {
    seq![
        ppu.palette[0],
        ppu.palette[1 + index * 4],
        ppu.palette[2 + index * 4],
        ppu.palette[3 + index * 4],
    ]
}

/// The four palette bytes of sprite palette `index`. The first is never
/// shown: colour 0 of a sprite is transparent.
pub open spec fn sprite_palette(ppu: PpuState, index: u8) -> Seq<u8> {
    seq![
        1u8,
        ppu.palette[0x11 + index * 4],
        ppu.palette[0x12 + index * 4],
        ppu.palette[0x13 + index * 4],
    ]
}

pub fn bg_pallette(ppu: &NesPPU, attrs_table: &[u8], tile_column: usize, tile_row: usize) -> (palette: [u8; 4])
    requires
        ppu.wf(),
        attrs_table@.len() >= 64,
        tile_column < 32,
        tile_row < 32,
    ensures
        palette@ == background_palette(
            ppu@,
            background_palette_index(attrs_table@, tile_column as int, tile_row as int),
        ),
{
    let attr_table_idx: usize = tile_row / 4 * 8 + tile_column / 4;
    let attr_byte: u8 = attrs_table[attr_table_idx];
    let right = tile_column % 4 / 2 == 1;
    let bottom = tile_row % 4 / 2 == 1;
    let shift: u8 = if !right && !bottom {
        0
    } else if right && !bottom {
        2
    } else if !right && bottom {
        4
    } else {
        6
    };
    let pallete_idx: u8 = (attr_byte >> shift) & 3;
    assert(pallete_idx <= 3) by (bit_vector)
        requires
            pallete_idx == (attr_byte >> shift) & 3,
    ;
    let pallete_start: usize = 1 + pallete_idx as usize * 4;
    let palette = [
        ppu.palette_table[0],
        ppu.palette_table[pallete_start],
        ppu.palette_table[pallete_start + 1],
        ppu.palette_table[pallete_start + 2],
    ];
    assert(palette@ =~= background_palette(
        ppu@,
        background_palette_index(attrs_table@, tile_column as int, tile_row as int),
    ));
    palette
}

pub fn sprite_pallete(ppu: &NesPPU, pallete_idx: u8) -> (palette: [u8; 4])
    requires
        ppu.wf(),
        pallete_idx <= 3,
    ensures
        palette@ == sprite_palette(ppu@, pallete_idx),
{
    let start: usize = 0x11 + pallete_idx as usize * 4;
    let palette = [
        1,
        ppu.palette_table[start],
        ppu.palette_table[start + 1],
        ppu.palette_table[start + 2],
    ];
    assert(palette@ =~= sprite_palette(ppu@, pallete_idx));
    palette
}

} // verus!
