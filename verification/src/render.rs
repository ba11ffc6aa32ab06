//! The renderer: it turns the video memory of the picture-processing unit
//! into a frame of pixels, the background first and the sprites over it.

use crate::ppu::NesPPU;
use crate::ppu::PpuState;
use crate::rendering::frame::lemma_paint_block_next;
use crate::rendering::frame::lemma_paint_next;
use crate::rendering::frame::block_byte;
use crate::rendering::frame::in_block_before;
use crate::rendering::frame::lemma_painted_all;
use crate::rendering::frame::lemma_painted_without_colour;
use crate::rendering::frame::painted;
use crate::rendering::frame::pixel_offset;
use crate::rendering::frame::Frame;
use crate::rendering::palette::system_color;
use crate::rendering::palette::system_rgb;
use crate::rendering::rect::Rect;
use crate::rendering::render_util::background_palette;
use crate::rendering::render_util::background_palette_index;
use crate::rendering::render_util::bg_pallette;
use crate::rendering::render_util::pattern_pixel;
use crate::rendering::render_util::pattern_value;
use crate::rendering::render_util::sprite_palette;
use crate::rendering::render_util::sprite_pallete;
use vstd::prelude::*;
use vstd::slice::slice_subrange;

verus! {

/// The colour of pixel `(px, py)` of the 256 by 240 pixels of nametable
/// `name_table`. The pixel lies in the tile whose number the nametable
/// holds for it; the tile's 16 pattern bytes give the pixel a colour
/// number, which picks the backdrop or one of the three colours of the
/// palette that the attribute bytes assign to the tile.
#[verifier::opaque]
pub open spec fn background_color(ppu: PpuState, name_table: Seq<u8>, px: int, py: int) -> (
    u8,
    u8,
    u8,
) {
    let column = px / 8;
    let row = py / 8;
    let tile = name_table[row * 32 + column];
    let pattern = ppu.control.background_base() + tile * 16 + py % 8;
    let value = pattern_value(ppu.chr_byte(pattern), ppu.chr_byte(pattern + 8), px % 8);
    let palette = background_palette(
        ppu,
        background_palette_index(name_table.subrange(0x3c0, 0x400), column, row),
    );
    system_rgb(
        if value == 0 {
            ppu.palette[0]
        } else {
            palette[value as int]
        },
    )
}

/// What drawing a nametable puts at pixel `(x, y)` of the frame. The
/// nametable pixels inside `view_port` are drawn, each moved by
/// `(shift_x, shift_y)`; the others are discarded.
pub open spec fn name_table_source(
    ppu: PpuState,
    name_table: Seq<u8>,
    view_port: Rect,
    shift_x: int,
    shift_y: int,
    x: int,
    y: int,
) -> Option<(u8, u8, u8)> {
    let px = x - shift_x;
    let py = y - shift_y;
    if 0 <= px < 256 && 0 <= py < 240 && view_port.holds(px, py) {
        Some(background_color(ppu, name_table, px, py))
    } else {
        None
    }
}

/// Drawing a nametable, as a paint of the frame.
pub open spec fn name_table_paint(
    ppu: PpuState,
    name_table: Seq<u8>,
    view_port: Rect,
    shift_x: int,
    shift_y: int,
) -> spec_fn(int, int) -> Option<(u8, u8, u8)> {
    |x: int, y: int| name_table_source(ppu, name_table, view_port, shift_x, shift_y, x, y)
}

/// What drawing sprite `index` (0 to 63) puts at pixel `(x, y)` of the
/// frame. The sprite's 8 by 8 pixels start at its x and one row above its
/// y; its attribute byte flips it and picks its palette; colour number 0
/// is transparent; a sprite whose x and y are both 0 is not drawn.
#[verifier::opaque]
pub open spec fn sprite_source(ppu: PpuState, index: int, x: int, y: int) -> Option<(u8, u8, u8)> {
    let tile_y = ppu.oam[index * 4];
    let tile = ppu.oam[index * 4 + 1];
    let attrs = ppu.oam[index * 4 + 2];
    let tile_x = ppu.oam[index * 4 + 3];
    let dx = x - tile_x;
    let dy = y - (tile_y - 1);
    if (tile_y == 0 && tile_x == 0) || !(0 <= dx < 8 && 0 <= dy < 8) {
        None
    } else {
        let column = if attrs & 0x40 != 0 {
            7 - dx
        } else {
            dx
        };
        let row = if attrs & 0x80 != 0 {
            7 - dy
        } else {
            dy
        };
        let pattern = ppu.control.sprite_base() + tile * 16 + row;
        let value = pattern_value(ppu.chr_byte(pattern), ppu.chr_byte(pattern + 8), column);
        if value == 0 {
            None
        } else {
            Some(system_rgb(sprite_palette(ppu, attrs & 3)[value as int]))
        }
    }
}

/// Drawing a sprite, as a paint of the frame.
pub open spec fn sprite_paint(ppu: PpuState, index: int) -> spec_fn(int, int) -> Option<
    (u8, u8, u8),
> {
    |x: int, y: int| sprite_source(ppu, index, x, y)
}

/// The physical nametable that the control register makes the main one.
pub open spec fn main_table(ppu: PpuState) -> int {
    ppu.mirroring.physical_table(ppu.control.nametable_index() as int)
}

/// Physical nametable `table` (0 or 1).
pub open spec fn physical_name_table(ppu: PpuState, table: int) -> Seq<u8> {
    ppu.vram.subrange(table * 0x400, table * 0x400 + 0x400)
}

/// The frame `data` with the background drawn over it. The main nametable
/// is drawn from the scroll position on, moved to the top left corner; the
/// other nametable fills the strip that this leaves at the right or, with
/// no horizontal scroll, at the bottom.
pub open spec fn background(ppu: PpuState, data: Seq<u8>) -> Seq<u8> {
    let scroll_x = ppu.scroll.scroll_x as usize;
    let scroll_y = ppu.scroll.scroll_y as usize;
    let main = physical_name_table(ppu, main_table(ppu));
    let second = physical_name_table(ppu, 1 - main_table(ppu));
    let first = painted(
        data,
        name_table_paint(
            ppu,
            main,
            Rect { x1: scroll_x, y1: scroll_y, x2: 256, y2: 240 },
            -scroll_x,
            -scroll_y,
        ),
    );
    if scroll_x > 0 {
        painted(
            first,
            name_table_paint(
                ppu,
                second,
                Rect { x1: 0, y1: 0, x2: scroll_x, y2: 240 },
                256 - scroll_x,
                0,
            ),
        )
    } else if scroll_y > 0 {
        painted(
            first,
            name_table_paint(
                ppu,
                second,
                Rect { x1: 0, y1: 0, x2: 256, y2: scroll_y },
                0,
                240 - scroll_y,
            ),
        )
    } else {
        first
    }
}

/// The frame `data` with the sprites from number `from` on drawn over it,
/// the last sprite first, so that a sprite with a lower number covers one
/// with a higher number.
pub open spec fn sprites_from(ppu: PpuState, data: Seq<u8>, from: int) -> Seq<u8>
    decreases 64 - from,
{
    if from >= 64 {
        data
    } else {
        painted(sprites_from(ppu, data, from + 1), sprite_paint(ppu, from))
    }
}

/// The frame `data` with the picture of `ppu` drawn over it: the
/// background, then the sprites.
pub open spec fn rendered(ppu: PpuState, data: Seq<u8>) -> Seq<u8> {
    sprites_from(ppu, background(ppu, data), 0)
}

/// The colour of a pixel of a nametable.
pub fn background_pixel(ppu: &NesPPU, name_table: &[u8], px: usize, py: usize) -> (rgb: (
    u8,
    u8,
    u8,
))
    requires
        ppu.wf(),
        name_table@.len() >= 0x400,
        px < 256,
        py < 240,
    ensures
        rgb == background_color(ppu@, name_table@, px as int, py as int),
{
    proof {
        reveal(background_color);
    }
    let column: usize = px / 8;
    let row: usize = py / 8;
    let tile_idx: u16 = name_table[row * 32 + column] as u16;
    let bank: u16 = ppu.control_reg.background_pattern_addr();
    let pattern: usize = (bank + tile_idx * 16) as usize + py % 8;
    let value = pattern_pixel(ppu.chr_at(pattern), ppu.chr_at(pattern + 8), (px % 8) as u8);
    let attrs_table = slice_subrange(name_table, 0x3c0, 0x400);
    let palette = bg_pallette(ppu, attrs_table, column, row);
    if value == 0 {
        system_color(ppu.palette_table[0])
    } else {
        system_color(palette[value as usize])
    }
}

/// What drawing a nametable puts at pixel `(x, y)` of the frame.
pub fn name_table_pixel(
    ppu: &NesPPU,
    name_table: &[u8],
    view_port: &Rect,
    shift_x: isize,
    shift_y: isize,
    x: usize,
    y: usize,
) -> (pixel: Option<(u8, u8, u8)>)
    requires
        ppu.wf(),
        name_table@.len() >= 0x400,
        x < 256,
        y < 240,
    ensures
        pixel == name_table_source(
            ppu@,
            name_table@,
            *view_port,
            shift_x as int,
            shift_y as int,
            x as int,
            y as int,
        ),
{
    if shift_x <= -256 || shift_x >= 256 || shift_y <= -256 || shift_y >= 256 {
        return None;
    }
    let px: isize = x as isize - shift_x;
    let py: isize = y as isize - shift_y;
    if px < 0 || px >= 256 || py < 0 || py >= 240 {
        return None;
    }
    if !view_port.contains(px as usize, py as usize) {
        return None;
    }
    Some(background_pixel(ppu, name_table, px as usize, py as usize))
}

/// Draws the part of nametable `name_table` inside `view_port` onto the
/// frame, moved by `(shift_x, shift_y)`.
pub fn render_name_table(
    ppu: &NesPPU,
    frame: &mut Frame,
    name_table: &[u8],
    view_port: Rect,
    shift_x: isize,
    shift_y: isize,
)
    requires
        ppu.wf(),
        old(frame).wf(),
        name_table@.len() >= 0x400,
    ensures
        final(frame).wf(),
        final(frame)@ == painted(
            old(frame)@,
            name_table_paint(ppu@, name_table@, view_port, shift_x as int, shift_y as int),
        ),
{
    let ghost start = frame@;
    let ghost paint = name_table_paint(
        ppu@,
        name_table@,
        view_port,
        shift_x as int,
        shift_y as int,
    );
    let mut y: usize = 0;
    while y < 240
        invariant
            y <= 240,
            ppu.wf(),
            name_table@.len() >= 0x400,
            start.len() == 184320,
            frame@.len() == 184320,
            paint == name_table_paint(
                ppu@,
                name_table@,
                view_port,
                shift_x as int,
                shift_y as int,
            ),
            forall|k: int| 0 <= k < pixel_offset(0, y as int) ==> frame@[k] == painted(start, paint)[k],
            forall|k: int| pixel_offset(0, y as int) <= k < 184320 ==> frame@[k] == start[k],
        decreases 240 - y,
    {
        let mut x: usize = 0;
        while x < 256
            invariant
                x <= 256,
                y < 240,
                ppu.wf(),
                name_table@.len() >= 0x400,
                start.len() == 184320,
                frame@.len() == 184320,
                paint == name_table_paint(
                    ppu@,
                    name_table@,
                    view_port,
                    shift_x as int,
                    shift_y as int,
                ),
                forall|k: int|
                    0 <= k < pixel_offset(x as int, y as int) ==> frame@[k] == painted(
                        start,
                        paint,
                    )[k],
                forall|k: int|
                    pixel_offset(x as int, y as int) <= k < 184320 ==> frame@[k] == start[k],
            decreases 256 - x,
        {
            let ghost before = frame@;
            let pixel = name_table_pixel(ppu, name_table, &view_port, shift_x, shift_y, x, y);
            match pixel {
                Some(rgb) => frame.set_pixel(x, y, rgb),
                None => {},
            }
            proof {
                assert(paint(x as int, y as int) == pixel);
                assert(pixel_offset(x + 1, y as int) == pixel_offset(x as int, y as int) + 3);
                lemma_paint_next(start, before, frame@, paint, x as int, y as int);
            }
            x = x + 1;
        }
        assert(pixel_offset(0, y + 1) == pixel_offset(256, y as int));
        y = y + 1;
    }
    proof {
        lemma_painted_all(start, frame@, paint);
    }
}

/// What drawing sprite `index` puts at pixel `(x, y)` of the frame.
pub fn sprite_pixel(ppu: &NesPPU, index: usize, x: usize, y: usize) -> (pixel: Option<
    (u8, u8, u8),
>)
    requires
        ppu.wf(),
        index < 64,
    ensures
        pixel == sprite_source(ppu@, index as int, x as int, y as int),
{
    proof {
        reveal(sprite_source);
    }
    let tile_y: usize = ppu.oam_data[index * 4] as usize;
    let tile_idx: u16 = ppu.oam_data[index * 4 + 1] as u16;
    let attrs: u8 = ppu.oam_data[index * 4 + 2];
    let tile_x: usize = ppu.oam_data[index * 4 + 3] as usize;
    if tile_y == 0 && tile_x == 0 {
        return None;
    }
    if x < tile_x || x - tile_x >= 8 || y >= 263 || y + 1 < tile_y || y + 1 - tile_y >= 8 {
        return None;
    }
    let dx: usize = x - tile_x;
    let dy: usize = y + 1 - tile_y;
    let flip_vertical = attrs & 0x80 != 0;
    let flip_horizontal = attrs & 0x40 != 0;
    let column: usize = if flip_horizontal {
        7 - dx
    } else {
        dx
    };
    let row: usize = if flip_vertical {
        7 - dy
    } else {
        dy
    };
    let bank: u16 = ppu.control_reg.sprite_pattern_addr();
    let pattern: usize = (bank + tile_idx * 16) as usize + row;
    let value = pattern_pixel(ppu.chr_at(pattern), ppu.chr_at(pattern + 8), column as u8);
    if value == 0 {
        return None;
    }
    let pallette_idx: u8 = attrs & 3;
    assert(pallette_idx <= 3) by (bit_vector)
        requires
            pallette_idx == attrs & 3,
    ;
    let sprite_palette = sprite_pallete(ppu, pallette_idx);
    Some(system_color(sprite_palette[value as usize]))
}

/// Draws sprite `index` onto the frame.
pub fn render_sprite(ppu: &NesPPU, frame: &mut Frame, index: usize)
    requires
        ppu.wf(),
        old(frame).wf(),
        index < 64,
    ensures
        final(frame).wf(),
        final(frame)@ == painted(old(frame)@, sprite_paint(ppu@, index as int)),
{
    let ghost start = frame@;
    let ghost paint = sprite_paint(ppu@, index as int);
    let tile_y: usize = ppu.oam_data[index * 4] as usize;
    let tile_x: usize = ppu.oam_data[index * 4 + 3] as usize;
    let ghost left = tile_x as int;
    let ghost top = tile_y - 1;
    let mut count: usize = 0;
    while count < 64
        invariant
            count <= 64,
            ppu.wf(),
            index < 64,
            tile_y == ppu@.oam[index * 4],
            tile_x == ppu@.oam[index * 4 + 3],
            left == tile_x,
            top == tile_y - 1,
            start.len() == 184320,
            frame@.len() == 184320,
            paint == sprite_paint(ppu@, index as int),
            forall|k: int|
                0 <= k < 184320 ==> #[trigger] frame@[k] == block_byte(
                    start,
                    paint,
                    left,
                    top,
                    count as int,
                    k,
                ),
        decreases 64 - count,
    {
        let ghost before = frame@;
        let x: usize = tile_x + count % 8;
        let below: usize = tile_y + count / 8;
        if below >= 1 {
            let pixel = sprite_pixel(ppu, index, x, below - 1);
            assert(paint(left + count % 8, top + count / 8) == pixel);
            match pixel {
                Some(rgb) => frame.set_pixel(x, below - 1, rgb),
                None => {},
            }
        }
        proof {
            lemma_paint_block_next(start, before, frame@, paint, left, top, count as int);
        }
        count = count + 1;
    }
    proof {
        assert forall|k: int| 0 <= k < 184320 implies frame@[k] == painted(start, paint)[k] by {
            if !in_block_before((k / 3) % 256, k / 768, left, top, 64) {
                lemma_sprite_stays_in_block(ppu@, index as int, (k / 3) % 256, k / 768);
                lemma_painted_without_colour(start, paint, k);
            }
        }
        lemma_painted_all(start, frame@, paint);
    }
}

/// A sprite has no colour outside the frame and outside its 8 by 8 pixels,
/// which start at its x and one row above its y.
pub proof fn lemma_sprite_stays_in_block(ppu: PpuState, index: int, x: int, y: int)
    ensures
        !(0 <= x - ppu.oam[index * 4 + 3] < 8 && 0 <= y - (ppu.oam[index * 4] - 1) < 8)
            ==> sprite_source(ppu, index, x, y) is None,
{
    reveal(sprite_source);
}

/// Draws the picture of `ppu` onto the frame.
pub fn render(ppu: &NesPPU, frame: &mut Frame)
    requires
        ppu.wf(),
        old(frame).wf(),
    ensures
        final(frame).wf(),
        final(frame)@ == rendered(ppu@, old(frame)@),
{
    let scroll_x: usize = ppu.scroll_register.scroll_x as usize;
    let scroll_y: usize = ppu.scroll_register.scroll_y as usize;
    let first_is_main = match (ppu.mirroring, ppu.control_reg.nametable_addr()) {
        (crate::ppu::PPUMirroring::Horizontal, 0x2000) | (
            crate::ppu::PPUMirroring::Horizontal,
            0x2400,
        ) => true,
        (crate::ppu::PPUMirroring::Horizontal, _) => false,
        (_, 0x2000) | (_, 0x2800) => true,
        _ => false,
    };
    let (main_nametable, second_nametable) = if first_is_main {
        (
            slice_subrange(ppu.vram.as_slice(), 0, 0x400),
            slice_subrange(ppu.vram.as_slice(), 0x400, 0x800),
        )
    } else {
        (
            slice_subrange(ppu.vram.as_slice(), 0x400, 0x800),
            slice_subrange(ppu.vram.as_slice(), 0, 0x400),
        )
    };
    assert(first_is_main == (main_table(ppu@) == 0));
    assert(main_table(ppu@) == 0 || main_table(ppu@) == 1);
    assert(main_nametable@ =~= physical_name_table(ppu@, main_table(ppu@)));
    assert(second_nametable@ =~= physical_name_table(ppu@, 1 - main_table(ppu@)));
    render_name_table(
        ppu,
        frame,
        main_nametable,
        Rect::new(scroll_x, scroll_y, 256, 240),
        -(scroll_x as isize),
        -(scroll_y as isize),
    );
    if scroll_x > 0 {
        render_name_table(
            ppu,
            frame,
            second_nametable,
            Rect::new(0, 0, scroll_x, 240),
            256 - scroll_x as isize,
            0,
        );
    } else if scroll_y > 0 {
        render_name_table(
            ppu,
            frame,
            second_nametable,
            Rect::new(0, 0, 256, scroll_y),
            0,
            240 - scroll_y as isize,
        );
    }
    let ghost ground = frame@;
    let mut index: usize = 64;
    while index > 0
        invariant
            index <= 64,
            ppu.wf(),
            frame.wf(),
            frame@ == sprites_from(ppu@, ground, index as int),
        decreases index,
    {
        index = index - 1;
        render_sprite(ppu, frame, index);
    }
}

} // verus!
