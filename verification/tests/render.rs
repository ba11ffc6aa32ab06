//! The renderer.

use nes_core::ppu::NesPPU;
use nes_core::ppu::PPUMirroring;
use nes_core::render::render;
use nes_core::render::render_name_table;
use nes_core::rendering::frame::Frame;
use nes_core::rendering::palette::system_color;
use nes_core::rendering::palette::SYSTEM_PALLETE;
use nes_core::rendering::rect::Rect;
use nes_core::rendering::render_util::bg_pallette;
use nes_core::rendering::render_util::pattern_pixel;
use nes_core::rendering::render_util::sprite_pallete;
use nes_core::utils::show_tile::show_tile_bank;

const BACKDROP: (u8, u8, u8) = (0x05, 0x05, 0x05);
const BLUE: (u8, u8, u8) = (0x00, 0x3d, 0xa6);
const WHITE: (u8, u8, u8) = (0xff, 0xff, 0xff);
const RED: (u8, u8, u8) = (0xff, 0x22, 0x00);

fn pixel(frame: &Frame, x: usize, y: usize) -> (u8, u8, u8) {
    let base = (y * 256 + x) * 3;
    (frame.data[base], frame.data[base + 1], frame.data[base + 2])
}

/// A unit whose tile 1 has colour 1 in its top left pixel and colour 2 in
/// the pixel right of it, and whose tile 2 has colour 3 in its first row's
/// first pixel and colour 1 in the last pixel of its last row.
fn unit(mirroring: PPUMirroring) -> NesPPU {
    let mut chr = vec![0u8; 0x2000];
    chr[16] = 0b1000_0000;
    chr[16 + 8] = 0b0100_0000;
    chr[32] = 0b1000_0000;
    chr[32 + 8] = 0b1000_0000;
    chr[32 + 7] = 0b0000_0001;
    let mut ppu = NesPPU::new(chr, mirroring);
    ppu.palette_table[0] = 0x0f;
    ppu.palette_table[1] = 0x01;
    ppu.palette_table[2] = 0x30;
    ppu.palette_table[5] = 0x16;
    ppu.palette_table[0x11] = 0x16;
    ppu.palette_table[0x13] = 0x30;
    ppu.palette_table[0x15] = 0x01;
    ppu
}

#[test]
fn the_system_palette_has_64_colours() {
    assert_eq!(SYSTEM_PALLETE.len(), 192);
    assert_eq!(system_color(0x00), (0x80, 0x80, 0x80));
    assert_eq!(system_color(0x01), BLUE);
    assert_eq!(system_color(0x0f), BACKDROP);
    assert_eq!(system_color(0x16), RED);
    assert_eq!(system_color(0x30), WHITE);
    assert_eq!(system_color(0x3f), (0x11, 0x11, 0x11));
    // only the low six bits count
    assert_eq!(system_color(0x41), BLUE);
    assert_eq!(system_color(0xff), (0x11, 0x11, 0x11));
}

#[test]
fn a_frame_starts_black_and_keeps_pixels_inside() {
    let mut frame = Frame::new();
    assert_eq!(frame.data.len(), 256 * 240 * 3);
    assert!(frame.data.iter().all(|byte| *byte == 0));
    frame.set_pixel(3, 2, (1, 2, 3));
    assert_eq!(&frame.data[(2 * 256 + 3) * 3..(2 * 256 + 3) * 3 + 3], &[1, 2, 3]);
    frame.set_pixel(255, 239, (4, 5, 6));
    assert_eq!(&frame.data[184317..], &[4, 5, 6]);
    let before = frame.data.clone();
    frame.set_pixel(256, 0, (9, 9, 9));
    frame.set_pixel(0, 240, (9, 9, 9));
    frame.set_pixel(usize::MAX, usize::MAX, (9, 9, 9));
    assert_eq!(frame.data, before);
}

#[test]
fn bit_planes_combine_into_colour_numbers() {
    assert_eq!(pattern_pixel(0b1000_0000, 0b0000_0000, 0), 1);
    assert_eq!(pattern_pixel(0b0000_0000, 0b1000_0000, 0), 2);
    assert_eq!(pattern_pixel(0b1000_0000, 0b1000_0000, 0), 3);
    assert_eq!(pattern_pixel(0b1000_0000, 0b1000_0000, 1), 0);
    assert_eq!(pattern_pixel(0b0000_0001, 0b0000_0000, 7), 1);
    assert_eq!(pattern_pixel(0b0001_0000, 0b0001_0000, 3), 3);
}

#[test]
fn attribute_bytes_pick_the_background_palette() {
    let mut ppu = unit(PPUMirroring::Horizontal);
    for i in 0..32 {
        ppu.palette_table[i] = i as u8;
    }
    let mut attrs = vec![0u8; 64];
    attrs[0] = 0b11_10_01_00;
    attrs[9] = 0b00_01_10_11;
    assert_eq!(bg_pallette(&ppu, &attrs, 0, 0), [0, 1, 2, 3]);
    assert_eq!(bg_pallette(&ppu, &attrs, 1, 1), [0, 1, 2, 3]);
    assert_eq!(bg_pallette(&ppu, &attrs, 2, 0), [0, 5, 6, 7]);
    assert_eq!(bg_pallette(&ppu, &attrs, 3, 1), [0, 5, 6, 7]);
    assert_eq!(bg_pallette(&ppu, &attrs, 0, 2), [0, 9, 10, 11]);
    assert_eq!(bg_pallette(&ppu, &attrs, 3, 3), [0, 13, 14, 15]);
    // the block of tile columns 4..8 and rows 4..8 is attribute byte 9
    assert_eq!(bg_pallette(&ppu, &attrs, 4, 4), [0, 13, 14, 15]);
    assert_eq!(bg_pallette(&ppu, &attrs, 7, 7), [0, 1, 2, 3]);
    assert_eq!(bg_pallette(&ppu, &attrs, 31, 29), [0, 1, 2, 3]);
}

#[test]
fn sprite_palettes_start_at_0x11() {
    let mut ppu = unit(PPUMirroring::Horizontal);
    for i in 0..32 {
        ppu.palette_table[i] = i as u8;
    }
    assert_eq!(sprite_pallete(&ppu, 0), [1, 0x11, 0x12, 0x13]);
    assert_eq!(sprite_pallete(&ppu, 3), [1, 0x1d, 0x1e, 0x1f]);
}

#[test]
fn the_background_is_drawn_tile_by_tile() {
    let mut ppu = unit(PPUMirroring::Horizontal);
    ppu.vram[0] = 1;
    ppu.vram[33] = 1;
    // tile (1, 1) uses palette 1
    ppu.vram[0x3c0] = 0b0000_0001;
    let mut frame = Frame::new();
    render(&ppu, &mut frame);
    assert_eq!(pixel(&frame, 0, 0), RED);
    // the second colour of palette 1 is palette byte 0
    assert_eq!(pixel(&frame, 1, 0), (0x80, 0x80, 0x80));
    assert_eq!(pixel(&frame, 8, 8), RED);
    assert_eq!(pixel(&frame, 9, 8), (0x80, 0x80, 0x80));
    assert_eq!(pixel(&frame, 2, 0), BACKDROP);
    assert_eq!(pixel(&frame, 0, 1), BACKDROP);
    assert_eq!(pixel(&frame, 255, 239), BACKDROP);
    ppu.vram[0x3c0] = 0;
    render(&ppu, &mut frame);
    assert_eq!(pixel(&frame, 0, 0), BLUE);
    assert_eq!(pixel(&frame, 1, 0), WHITE);
    assert_eq!(pixel(&frame, 8, 8), BLUE);
}

#[test]
fn the_background_pattern_table_follows_the_control_register() {
    let mut ppu = unit(PPUMirroring::Horizontal);
    ppu.vram[0] = 1;
    ppu.chr_rom[0x1000 + 16 + 8] = 0b1000_0000;
    ppu.write_to_control_reg(0x10);
    let mut frame = Frame::new();
    render(&ppu, &mut frame);
    assert_eq!(pixel(&frame, 0, 0), WHITE);
    assert_eq!(pixel(&frame, 1, 0), BACKDROP);
}

#[test]
fn the_main_nametable_follows_control_register_and_mirroring() {
    let mut frame = Frame::new();
    let mut ppu = unit(PPUMirroring::Vertical);
    ppu.vram[0x400] = 1;
    render(&ppu, &mut frame);
    assert_eq!(pixel(&frame, 0, 0), BACKDROP);
    ppu.write_to_control_reg(0x01);
    render(&ppu, &mut frame);
    assert_eq!(pixel(&frame, 0, 0), BLUE);
    ppu.write_to_control_reg(0x02);
    render(&ppu, &mut frame);
    assert_eq!(pixel(&frame, 0, 0), BACKDROP);
    ppu.write_to_control_reg(0x03);
    render(&ppu, &mut frame);
    assert_eq!(pixel(&frame, 0, 0), BLUE);
    let mut ppu = unit(PPUMirroring::Horizontal);
    ppu.vram[0x400] = 1;
    ppu.write_to_control_reg(0x01);
    render(&ppu, &mut frame);
    assert_eq!(pixel(&frame, 0, 0), BACKDROP);
    ppu.write_to_control_reg(0x02);
    render(&ppu, &mut frame);
    assert_eq!(pixel(&frame, 0, 0), BLUE);
}

#[test]
fn horizontal_scroll_shifts_the_picture_and_reveals_the_second_nametable() {
    let mut ppu = unit(PPUMirroring::Vertical);
    // tile column 1 of the main nametable, tile column 0 of the second
    ppu.vram[1] = 1;
    ppu.vram[0x400] = 2;
    ppu.write_to_scroll_reg(8);
    ppu.write_to_scroll_reg(0);
    let mut frame = Frame::new();
    render(&ppu, &mut frame);
    assert_eq!(pixel(&frame, 0, 0), BLUE);
    assert_eq!(pixel(&frame, 1, 0), WHITE);
    assert_eq!(pixel(&frame, 247, 0), BACKDROP);
    // tile 2 has colour 3 in its first pixel: the third colour of palette 0
    ppu.palette_table[3] = 0x16;
    render(&ppu, &mut frame);
    assert_eq!(pixel(&frame, 248, 0), RED);
    assert_eq!(pixel(&frame, 249, 0), BACKDROP);
}

#[test]
fn vertical_scroll_shifts_the_picture_and_reveals_the_second_nametable() {
    let mut ppu = unit(PPUMirroring::Horizontal);
    // tile row 2 of the main nametable, tile row 0 of the second
    ppu.vram[64] = 1;
    ppu.vram[0x400] = 1;
    ppu.write_to_scroll_reg(0);
    ppu.write_to_scroll_reg(16);
    let mut frame = Frame::new();
    render(&ppu, &mut frame);
    assert_eq!(pixel(&frame, 0, 0), BLUE);
    assert_eq!(pixel(&frame, 0, 223), BACKDROP);
    assert_eq!(pixel(&frame, 0, 224), BLUE);
    assert_eq!(pixel(&frame, 1, 224), WHITE);
}

#[test]
fn pixels_outside_the_viewport_are_discarded() {
    let mut ppu = unit(PPUMirroring::Horizontal);
    ppu.vram[0] = 1;
    ppu.vram[2] = 1;
    let mut frame = Frame::new();
    let name_table = ppu.vram[0..0x400].to_vec();
    render_name_table(&ppu, &mut frame, &name_table, Rect::new(16, 0, 24, 8), 100, 50);
    // only the 8 by 8 pixels of tile column 2 are drawn, moved by (100, 50)
    assert_eq!(pixel(&frame, 116, 50), BLUE);
    assert_eq!(pixel(&frame, 117, 50), WHITE);
    assert_eq!(pixel(&frame, 118, 50), BACKDROP);
    assert_eq!(pixel(&frame, 123, 57), BACKDROP);
    assert_eq!(pixel(&frame, 100, 50), (0, 0, 0));
    assert_eq!(pixel(&frame, 115, 50), (0, 0, 0));
    assert_eq!(pixel(&frame, 124, 50), (0, 0, 0));
    assert_eq!(pixel(&frame, 116, 49), (0, 0, 0));
    assert_eq!(pixel(&frame, 116, 58), (0, 0, 0));
    assert_eq!(pixel(&frame, 0, 0), (0, 0, 0));
    // a shift that moves everything out of the frame draws nothing
    let mut empty = Frame::new();
    render_name_table(&ppu, &mut empty, &name_table, Rect::new(0, 0, 256, 240), 256, 0);
    render_name_table(&ppu, &mut empty, &name_table, Rect::new(0, 0, 256, 240), 0, -240);
    render_name_table(&ppu, &mut empty, &name_table, Rect::new(0, 0, 256, 240), isize::MIN, isize::MAX);
    assert!(empty.data.iter().all(|byte| *byte == 0));
}

#[test]
fn sprites_are_drawn_one_row_above_their_y() {
    let mut ppu = unit(PPUMirroring::Horizontal);
    ppu.oam_data[4..8].copy_from_slice(&[10, 2, 0, 20]);
    let mut frame = Frame::new();
    render(&ppu, &mut frame);
    // colour 3 of sprite palette 0 in the first pixel, colour 1 in the last
    assert_eq!(pixel(&frame, 20, 9), WHITE);
    assert_eq!(pixel(&frame, 27, 16), RED);
    // colour 0 is transparent
    assert_eq!(pixel(&frame, 21, 9), BACKDROP);
    assert_eq!(pixel(&frame, 20, 10), BACKDROP);
    assert_eq!(pixel(&frame, 20, 8), BACKDROP);
}

#[test]
fn sprites_flip() {
    let mut frame = Frame::new();
    let mut ppu = unit(PPUMirroring::Horizontal);
    ppu.oam_data[4..8].copy_from_slice(&[10, 2, 0x40, 20]);
    render(&ppu, &mut frame);
    assert_eq!(pixel(&frame, 27, 9), WHITE);
    assert_eq!(pixel(&frame, 20, 16), RED);
    assert_eq!(pixel(&frame, 20, 9), BACKDROP);
    ppu.oam_data[6] = 0x80;
    render(&ppu, &mut frame);
    assert_eq!(pixel(&frame, 20, 16), WHITE);
    assert_eq!(pixel(&frame, 27, 9), RED);
    ppu.oam_data[6] = 0xc0;
    render(&ppu, &mut frame);
    assert_eq!(pixel(&frame, 27, 16), WHITE);
    assert_eq!(pixel(&frame, 20, 9), RED);
}

#[test]
fn sprites_use_their_palette_and_pattern_table() {
    let mut frame = Frame::new();
    let mut ppu = unit(PPUMirroring::Horizontal);
    ppu.oam_data[4..8].copy_from_slice(&[10, 2, 0x01, 20]);
    render(&ppu, &mut frame);
    // colour 1 of sprite palette 1 is at $15
    assert_eq!(pixel(&frame, 27, 16), BLUE);
    ppu.write_to_control_reg(0x08);
    render(&ppu, &mut frame);
    assert_eq!(pixel(&frame, 27, 16), BACKDROP);
    ppu.chr_rom[0x1000 + 32 + 7] = 0b0000_0001;
    render(&ppu, &mut frame);
    assert_eq!(pixel(&frame, 27, 16), BLUE);
}

#[test]
fn a_sprite_with_a_lower_number_covers_one_with_a_higher_number() {
    let mut frame = Frame::new();
    let mut ppu = unit(PPUMirroring::Horizontal);
    ppu.oam_data[4..8].copy_from_slice(&[10, 2, 0x00, 20]);
    ppu.oam_data[8..12].copy_from_slice(&[10, 2, 0x01, 13]);
    // the last pixel of sprite 2's last row falls on (20, 16), where sprite 1 is transparent
    render(&ppu, &mut frame);
    assert_eq!(pixel(&frame, 20, 16), BLUE);
    assert_eq!(pixel(&frame, 27, 16), RED);
    // moved onto sprite 1's last pixel, sprite 2 is covered
    ppu.oam_data[11] = 20;
    render(&ppu, &mut frame);
    assert_eq!(pixel(&frame, 27, 16), RED);
    ppu.oam_data[4..8].copy_from_slice(&[10, 2, 0x01, 20]);
    ppu.oam_data[8..12].copy_from_slice(&[10, 2, 0x00, 20]);
    render(&ppu, &mut frame);
    assert_eq!(pixel(&frame, 27, 16), BLUE);
}

#[test]
fn sprites_at_the_top_left_corner_are_skipped_and_others_are_clipped() {
    let mut frame = Frame::new();
    let mut ppu = unit(PPUMirroring::Horizontal);
    // sprite 0 is at x = 0, y = 0 like all others: nothing is drawn
    render(&ppu, &mut frame);
    assert_eq!(pixel(&frame, 7, 6), BACKDROP);
    // at y = 0 with x = 1, the first row lies above the frame
    ppu.oam_data[0..4].copy_from_slice(&[0, 2, 0, 1]);
    render(&ppu, &mut frame);
    assert_eq!(pixel(&frame, 1, 0), BACKDROP);
    assert_eq!(pixel(&frame, 8, 6), RED);
    // at the right and bottom edges the sprite is cut off
    ppu.oam_data[0..4].copy_from_slice(&[240, 2, 0, 250]);
    render(&ppu, &mut frame);
    assert_eq!(pixel(&frame, 250, 239), WHITE);
    ppu.oam_data[0..4].copy_from_slice(&[255, 2, 0, 255]);
    render(&ppu, &mut frame);
    assert_eq!(pixel(&frame, 255, 239), BACKDROP);
}

#[test]
fn missing_pattern_memory_reads_as_zero() {
    let mut ppu = NesPPU::new_empty_rom();
    ppu.palette_table[0] = 0x0f;
    ppu.vram[0] = 0xff;
    let mut frame = Frame::new();
    render(&ppu, &mut frame);
    assert_eq!(pixel(&frame, 0, 0), BACKDROP);
}

#[test]
fn the_tile_viewer_lays_tiles_out_in_rows_of_20() {
    let mut chr = vec![0u8; 0x2000];
    // tile 0 of bank 1: first bit plane only; tile 21: second only; tile 254: both
    chr[0x1000] = 0b1000_0000;
    chr[0x1000 + 21 * 16 + 8 + 3] = 0b0000_0001;
    chr[0x1000 + 254 * 16 + 7] = 0b0000_0010;
    chr[0x1000 + 254 * 16 + 15] = 0b0000_0010;
    // tile 255 is left out
    chr[0x1000 + 255 * 16] = 0xff;
    let frame = show_tile_bank(&chr, 1);
    assert_eq!(pixel(&frame, 0, 0), system_color(0x27));
    assert_eq!(pixel(&frame, 1, 0), system_color(0x01));
    assert_eq!(pixel(&frame, 8, 0), (0, 0, 0));
    assert_eq!(pixel(&frame, 0, 8), (0, 0, 0));
    assert_eq!(pixel(&frame, 10 + 7, 10 + 3), system_color(0x23));
    assert_eq!(pixel(&frame, 140 + 6, 120 + 7), system_color(0x30));
    assert_eq!(pixel(&frame, 150, 120), (0, 0, 0));
    assert_eq!(pixel(&frame, 200, 0), (0, 0, 0));
    let other = show_tile_bank(&chr, 0);
    assert_eq!(pixel(&other, 0, 0), system_color(0x01));
}
