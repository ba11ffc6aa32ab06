//! A picture of the tiles of a pattern table.

use crate::rendering::frame::lemma_paint_next;
use crate::rendering::frame::lemma_painted_all;
use crate::rendering::frame::painted;
use crate::rendering::frame::pixel_offset;
use crate::rendering::frame::Frame;
use crate::rendering::palette::system_color;
use crate::rendering::palette::system_rgb;
use crate::rendering::render_util::pattern_pixel;
use crate::rendering::render_util::pattern_value;
use vstd::prelude::*;

verus! {

/// The byte of `chr` at `index`, 0 past its end.
pub open spec fn pattern_byte(chr: Seq<u8>, index: int) -> u8 {
    if 0 <= index < chr.len() {
        chr[index]
    } else {
        0
    }
}

/// The palette byte that the tile viewer shows colour number `value` in.
pub open spec fn viewer_palette(value: u8) -> u8 {
    if value == 0 {
        0x01
    } else if value == 1 {
        0x23
    } else if value == 2 {
        0x27
    } else {
        0x30
    }
}

/// What the picture of pattern table `bank` shows at pixel `(x, y)`. The
/// first 255 tiles stand in rows of 20, each in a cell of 10 by 10 pixels
/// of which it fills the top left 8 by 8. In the viewer the second bit
/// plane gives the low bit of a colour number.
pub open spec fn tile_bank_source(chr: Seq<u8>, bank: int, x: int, y: int) -> Option<
    (u8, u8, u8),
> {
    let tile = (y / 10) * 20 + x / 10;
    if x / 10 < 20 && x % 10 < 8 && y % 10 < 8 && tile < 255 {
        let pattern = bank * 0x1000 + tile * 16 + y % 10;
        Some(
            system_rgb(
                viewer_palette(
                    pattern_value(
                        pattern_byte(chr, pattern + 8),
                        pattern_byte(chr, pattern),
                        x % 10,
                    ),
                ),
            ),
        )
    } else {
        None
    }
}

/// The picture of a pattern table, as a paint of the frame.
pub open spec fn tile_bank_paint(chr: Seq<u8>, bank: int) -> spec_fn(int, int) -> Option<
    (u8, u8, u8),
> {
    |x: int, y: int| tile_bank_source(chr, bank, x, y)
}

fn byte_at(chr_rom: &Vec<u8>, index: usize) -> (byte: u8)
    ensures
        byte == pattern_byte(chr_rom@, index as int),
{
    if index < chr_rom.len() {
        chr_rom[index]
    } else {
        0
    }
}

/// What the picture of pattern table `bank` shows at pixel `(x, y)`.
pub fn tile_bank_pixel(chr_rom: &Vec<u8>, bank: usize, x: usize, y: usize) -> (pixel: Option<
    (u8, u8, u8),
>)
    requires
        bank <= 1,
        x < 256,
        y < 240,
    ensures
        pixel == tile_bank_source(chr_rom@, bank as int, x as int, y as int),
{
    let tile_n: usize = (y / 10) * 20 + x / 10;
    if x / 10 < 20 && x % 10 < 8 && y % 10 < 8 && tile_n < 255 {
        let pattern: usize = bank * 0x1000 + tile_n * 16 + y % 10;
        let value = pattern_pixel(
            byte_at(chr_rom, pattern + 8),
            byte_at(chr_rom, pattern),
            (x % 10) as u8,
        );
        let entry: u8 = if value == 0 {
            0x01
        } else if value == 1 {
            0x23
        } else if value == 2 {
            0x27
        } else {
            0x30
        };
        Some(system_color(entry))
    } else {
        None
    }
}

/// Draws the first 255 tiles of pattern table `bank` (0 or 1) of `chr_rom`
/// onto a black frame.
pub fn show_tile_bank(chr_rom: &Vec<u8>, bank: usize) -> (frame: Frame)
    requires
        bank <= 1,
    ensures
        frame.wf(),
        frame@ == painted(Seq::new(184320, |k: int| 0u8), tile_bank_paint(chr_rom@, bank as int)),
{
    let mut frame = Frame::new();
    let ghost start = Seq::new(184320, |k: int| 0u8);
    let ghost paint = tile_bank_paint(chr_rom@, bank as int);
    let mut y: usize = 0;
    while y < 240
        invariant
            y <= 240,
            bank <= 1,
            start.len() == 184320,
            frame@.len() == 184320,
            paint == tile_bank_paint(chr_rom@, bank as int),
            forall|k: int| 0 <= k < pixel_offset(0, y as int) ==> frame@[k] == painted(start, paint)[k],
            forall|k: int| pixel_offset(0, y as int) <= k < 184320 ==> frame@[k] == start[k],
        decreases 240 - y,
    {
        let mut x: usize = 0;
        while x < 256
            invariant
                x <= 256,
                y < 240,
                bank <= 1,
                start.len() == 184320,
                frame@.len() == 184320,
                paint == tile_bank_paint(chr_rom@, bank as int),
                forall|k: int|
                    0 <= k < pixel_offset(x as int, y as int) ==> frame@[k] == painted(
                        start,
                        paint,
                    )[k],
                forall|k: int|
                    pixel_offset(x as int, y as int) <= k < 184320 ==> frame@[k] == start[k],
            decreases 256 - x,
        {
            let ghost before = frame@;
            let pixel = tile_bank_pixel(chr_rom, bank, x, y);
            match pixel {
                Some(rgb) => frame.set_pixel(x, y, rgb),
                None => {},
            }
            proof {
                assert(paint(x as int, y as int) == pixel);
                assert(pixel_offset(x + 1, y as int) == pixel_offset(x as int, y as int) + 3);
                lemma_paint_next(start, before, frame@, paint, x as int, y as int);
            }
            x = x + 1;
        }
        assert(pixel_offset(0, y + 1) == pixel_offset(256, y as int));
        y = y + 1;
    }
    proof {
        lemma_painted_all(start, frame@, paint);
    }
    frame
}

} // verus!
