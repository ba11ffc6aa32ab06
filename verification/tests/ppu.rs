//! The picture-processing unit behind its ports.

use nes_core::fault::Fault;
use nes_core::ppu::mask_register::Color;
use nes_core::ppu::mask_register::MaskRegister;
use nes_core::ppu::register::addr_register::AddrRegister;
use nes_core::ppu::register::control_register::ControlRegister;
use nes_core::ppu::register::scroll_register::ScrollRegister;
use nes_core::ppu::register::status_register::StatusRegister;
use nes_core::ppu::NesPPU;
use nes_core::ppu::PPUMirroring;

#[test]
fn test_ppu_vram_writes() {
    let mut ppu = NesPPU::new_empty_rom();
    ppu.write_to_ppu_addr(0x23);
    ppu.write_to_ppu_addr(0x05);
    ppu.write_to_data(0x66).unwrap();
    assert_eq!(ppu.vram[0x0305], 0x66);
}

#[test]
fn reads_of_video_memory_are_buffered() {
    let mut ppu = NesPPU::new_empty_rom();
    ppu.vram[0x0305] = 0x66;
    ppu.vram[0x0306] = 0x77;
    ppu.write_to_ppu_addr(0x23);
    ppu.write_to_ppu_addr(0x05);
    assert_eq!(ppu.read_data(), Ok(0));
    assert_eq!(ppu.addr_reg.get_addr(), 0x2306);
    assert_eq!(ppu.read_data(), Ok(0x66));
    assert_eq!(ppu.read_data(), Ok(0x77));
}

#[test]
fn reads_of_pattern_memory_are_buffered() {
    let mut chr = vec![0u8; 0x2000];
    chr[0x0123] = 0xab;
    let mut ppu = NesPPU::new(chr, PPUMirroring::Vertical);
    ppu.write_to_ppu_addr(0x01);
    ppu.write_to_ppu_addr(0x23);
    assert_eq!(ppu.read_data(), Ok(0));
    assert_eq!(ppu.read_data(), Ok(0xab));
}

#[test]
fn the_address_moves_on_by_1_or_by_32() {
    let mut ppu = NesPPU::new_empty_rom();
    ppu.write_to_ppu_addr(0x21);
    ppu.write_to_ppu_addr(0xff);
    ppu.write_to_data(1).unwrap();
    assert_eq!(ppu.addr_reg.get_addr(), 0x2200);
    ppu.write_to_control_reg(0x04);
    ppu.write_to_data(2).unwrap();
    assert_eq!(ppu.addr_reg.get_addr(), 0x2220);
    ppu.read_data().unwrap();
    assert_eq!(ppu.addr_reg.get_addr(), 0x2240);
}

#[test]
fn the_address_wraps_within_14_bits() {
    let mut ppu = NesPPU::new_empty_rom();
    ppu.write_to_ppu_addr(0xff);
    ppu.write_to_ppu_addr(0x1f);
    assert_eq!(ppu.addr_reg.get_addr(), 0x3f1f);
    ppu.write_to_data(5).unwrap();
    assert_eq!(ppu.palette_table[0x1f], 5);
    assert_eq!(ppu.addr_reg.get_addr(), 0x3f20);
    let mut addr = AddrRegister::new();
    addr.update(0x3f);
    addr.update(0xff);
    addr.increment(1);
    assert_eq!(addr.get_addr(), 0x0000);
    addr.update(0x3f);
    addr.update(0xf0);
    addr.increment(32);
    assert_eq!(addr.get_addr(), 0x0010);
}

#[test]
fn pattern_rom_ignores_writes_and_pattern_ram_takes_them() {
    let mut rom = NesPPU::new(vec![0u8; 0x2000], PPUMirroring::Horizontal);
    rom.write_to_ppu_addr(0x00);
    rom.write_to_ppu_addr(0x10);
    assert_eq!(rom.write_to_data(0x99), Ok(()));
    assert_eq!(rom.chr_rom[0x10], 0);
    assert_eq!(rom.addr_reg.get_addr(), 0x0011);
    let mut ram = NesPPU::new_chr_ram(PPUMirroring::Horizontal);
    ram.write_to_ppu_addr(0x00);
    ram.write_to_ppu_addr(0x10);
    assert_eq!(ram.write_to_data(0x99), Ok(()));
    assert_eq!(ram.chr_rom[0x10], 0x99);
}

#[test]
fn palette_entries_mirror() {
    for (low, high) in [(0x00u8, 0x10u8), (0x04, 0x14), (0x08, 0x18), (0x0c, 0x1c)] {
        let mut ppu = NesPPU::new_empty_rom();
        ppu.write_to_ppu_addr(0x3f);
        ppu.write_to_ppu_addr(high);
        ppu.write_to_data(0x2a).unwrap();
        assert_eq!(ppu.palette_table[low as usize], 0x2a);
        ppu.write_to_ppu_addr(0x3f);
        ppu.write_to_ppu_addr(low);
        assert_eq!(ppu.read_data(), Ok(0x2a));
        ppu.write_to_ppu_addr(0x3f);
        ppu.write_to_ppu_addr(high);
        assert_eq!(ppu.read_data(), Ok(0x2a));
        ppu.write_to_ppu_addr(0x3f);
        ppu.write_to_ppu_addr(low);
        ppu.write_to_data(0x15).unwrap();
        ppu.write_to_ppu_addr(0x3f);
        ppu.write_to_ppu_addr(high);
        assert_eq!(ppu.read_data(), Ok(0x15));
    }
}

#[test]
fn palette_reads_are_not_buffered() {
    let mut ppu = NesPPU::new_empty_rom();
    ppu.palette_table[0x01] = 0x31;
    ppu.write_to_ppu_addr(0x3f);
    ppu.write_to_ppu_addr(0x01);
    assert_eq!(ppu.read_data(), Ok(0x31));
}

#[test]
fn addresses_past_the_palette_are_fatal() {
    let mut ppu = NesPPU::new_empty_rom();
    ppu.write_to_ppu_addr(0x3f);
    ppu.write_to_ppu_addr(0x20);
    assert_eq!(ppu.write_to_data(1), Err(Fault::Palette { addr: 0x3f20 }));
    assert_eq!(ppu.addr_reg.get_addr(), 0x3f20);
    assert_eq!(ppu.read_data(), Err(Fault::Palette { addr: 0x3f20 }));
    ppu.write_to_ppu_addr(0x3f);
    ppu.write_to_ppu_addr(0xff);
    assert_eq!(ppu.write_to_data(1), Err(Fault::Palette { addr: 0x3fff }));
}

#[test]
fn nametables_mirror_horizontally() {
    let ppu = NesPPU::new(vec![0u8; 0x2000], PPUMirroring::Horizontal);
    assert_eq!(ppu.get_mirror_vram_addr(0x2000), 0x000);
    assert_eq!(ppu.get_mirror_vram_addr(0x2405), 0x005);
    assert_eq!(ppu.get_mirror_vram_addr(0x2805), 0x405);
    assert_eq!(ppu.get_mirror_vram_addr(0x2c05), 0x405);
    assert_eq!(ppu.get_mirror_vram_addr(0x3c05), 0x405);
    assert_eq!(ppu.get_mirror_vram_addr(0x2fff), 0x7ff);
}

#[test]
fn nametables_mirror_vertically() {
    let ppu = NesPPU::new(vec![0u8; 0x2000], PPUMirroring::Vertical);
    assert_eq!(ppu.get_mirror_vram_addr(0x2005), 0x005);
    assert_eq!(ppu.get_mirror_vram_addr(0x2405), 0x405);
    assert_eq!(ppu.get_mirror_vram_addr(0x2805), 0x005);
    assert_eq!(ppu.get_mirror_vram_addr(0x2c05), 0x405);
    let four = NesPPU::new(vec![0u8; 0x2000], PPUMirroring::FourScreen);
    assert_eq!(four.get_mirror_vram_addr(0x2805), 0x005);
    assert_eq!(four.get_mirror_vram_addr(0x2c05), 0x405);
}

#[test]
fn writes_above_0x3000_land_in_the_nametables() {
    let mut ppu = NesPPU::new(vec![0u8; 0x2000], PPUMirroring::Vertical);
    ppu.write_to_ppu_addr(0x34);
    ppu.write_to_ppu_addr(0x10);
    ppu.write_to_data(0x5a).unwrap();
    assert_eq!(ppu.vram[0x410], 0x5a);
}

#[test]
fn reading_status_clears_vblank_and_the_shared_toggle() {
    let mut ppu = NesPPU::new_empty_rom();
    ppu.status_reg.update(0xe0);
    ppu.write_to_scroll_reg(0x11);
    assert!(ppu.scroll_register.latch);
    assert!(!ppu.addr_reg.hi_ptr);
    assert_eq!(ppu.read_status(), 0xe0);
    assert_eq!(ppu.status_reg.snapshot(), 0x60);
    assert!(ppu.status_reg.is_sprite_0_hit());
    assert!(!ppu.status_reg.is_in_vblank());
    assert!(!ppu.scroll_register.latch);
    assert!(ppu.addr_reg.hi_ptr);
}

#[test]
fn scroll_and_address_share_one_toggle() {
    let mut ppu = NesPPU::new_empty_rom();
    // first write: horizontal scroll; the next address write is a low byte
    ppu.write_to_scroll_reg(0x7d);
    ppu.write_to_ppu_addr(0x34);
    assert_eq!(ppu.scroll_register.scroll_x, 0x7d);
    assert_eq!(ppu.scroll_register.fine_scroll_x, 0x05);
    assert_eq!(ppu.addr_reg.get_addr(), 0x0034);
    // the toggle is back at the first write
    ppu.write_to_ppu_addr(0x21);
    ppu.write_to_scroll_reg(0x5e);
    assert_eq!(ppu.addr_reg.get_addr(), 0x2134);
    assert_eq!(ppu.scroll_register.scroll_y, 0x5e);
    assert_eq!(ppu.scroll_register.fine_scroll_y, 0x06);
    assert_eq!(ppu.scroll_register.scroll_x, 0x7d);
}

#[test]
fn sprite_memory_is_written_through_its_ports() {
    let mut ppu = NesPPU::new_empty_rom();
    ppu.write_to_oam_addr(0xfe);
    ppu.write_to_oam_data(0x11);
    ppu.write_to_oam_data(0x22);
    ppu.write_to_oam_data(0x33);
    assert_eq!(ppu.oam_data[0xfe], 0x11);
    assert_eq!(ppu.oam_data[0xff], 0x22);
    assert_eq!(ppu.oam_data[0x00], 0x33);
    assert_eq!(ppu.oam_addr, 1);
    ppu.write_to_oam_addr(0xff);
    assert_eq!(ppu.read_oam_data(), 0x22);
    assert_eq!(ppu.oam_addr, 0xff);
}

#[test]
fn every_341_dots_are_a_scanline() {
    let mut ppu = NesPPU::new_empty_rom();
    assert!(!ppu.tick(340));
    assert_eq!((ppu.scanlines, ppu.cycles), (0, 340));
    assert!(!ppu.tick(1));
    assert_eq!((ppu.scanlines, ppu.cycles), (1, 0));
    assert!(!ppu.tick(341));
    assert_eq!((ppu.scanlines, ppu.cycles), (2, 0));
    assert!(!ppu.tick(1000));
    assert_eq!((ppu.scanlines, ppu.cycles), (4, 318));
}

#[test]
fn every_262_scanlines_are_a_frame() {
    let mut ppu = NesPPU::new_empty_rom();
    ppu.tick(100);
    let mut frames = 0;
    for line in 0..262u16 {
        assert_eq!(ppu.scanlines, line);
        if ppu.tick(341) {
            frames += 1;
        }
    }
    assert_eq!(frames, 1);
    assert_eq!((ppu.scanlines, ppu.cycles), (0, 100));
}

#[test]
fn vblank_starts_at_dot_1_of_scanline_241() {
    let mut ppu = NesPPU::new_empty_rom();
    ppu.write_to_control_reg(0x80);
    for _ in 0..241 {
        ppu.tick(341);
    }
    assert_eq!((ppu.scanlines, ppu.cycles), (241, 0));
    assert!(!ppu.status_reg.is_in_vblank());
    assert_eq!(ppu.nmi_interrupt, None);
    ppu.tick(1);
    assert!(ppu.status_reg.is_in_vblank());
    assert_eq!(ppu.nmi_interrupt, Some(1));
}

#[test]
fn vblank_raises_no_interrupt_when_disabled() {
    let mut ppu = NesPPU::new_empty_rom();
    for _ in 0..242 {
        ppu.tick(341);
    }
    assert!(ppu.status_reg.is_in_vblank());
    assert_eq!(ppu.nmi_interrupt, None);
    // turning the interrupt on during vertical blanking raises it at once
    ppu.write_to_control_reg(0x80);
    assert_eq!(ppu.nmi_interrupt, Some(1));
    ppu.nmi_interrupt = None;
    ppu.write_to_control_reg(0x80);
    assert_eq!(ppu.nmi_interrupt, None);
}

#[test]
fn the_pre_render_line_clears_the_status() {
    let mut ppu = NesPPU::new_empty_rom();
    ppu.write_to_control_reg(0x80);
    for _ in 0..261 {
        ppu.tick(341);
    }
    ppu.status_reg.update_sprite_0_hit(true);
    ppu.status_reg.update_sprite_overflow(true);
    assert_eq!(ppu.status_reg.snapshot(), 0xe0);
    assert_eq!(ppu.nmi_interrupt, Some(1));
    ppu.tick(1);
    assert_eq!((ppu.scanlines, ppu.cycles), (261, 1));
    assert_eq!(ppu.status_reg.snapshot(), 0x00);
    assert_eq!(ppu.nmi_interrupt, None);
}

#[test]
fn control_register_fields() {
    let mut control = ControlRegister::new();
    assert_eq!(control.nametable_addr(), 0x2000);
    assert_eq!(control.get_vram_addr_increment_value(), 1);
    assert_eq!(control.sprite_pattern_addr(), 0);
    assert_eq!(control.background_pattern_addr(), 0);
    assert_eq!(control.sprite_size(), 8);
    assert_eq!(control.master_slae_select(), 0);
    assert!(!control.is_generate_vblank_nmi_on());
    control.update(0xff);
    assert_eq!(control.nametable_addr(), 0x2c00);
    assert_eq!(control.get_vram_addr_increment_value(), 32);
    assert_eq!(control.sprite_pattern_addr(), 0x1000);
    assert_eq!(control.background_pattern_addr(), 0x1000);
    assert_eq!(control.sprite_size(), 16);
    assert_eq!(control.master_slae_select(), 1);
    assert!(control.is_generate_vblank_nmi_on());
    control.update(0x01);
    assert_eq!(control.nametable_addr(), 0x2400);
    control.update(0x02);
    assert_eq!(control.nametable_addr(), 0x2800);
}

#[test]
fn mask_register_fields() {
    let mut mask = MaskRegister::new();
    assert!(!mask.grayscale());
    assert!(mask.emphasize().is_empty());
    mask.update(0b1010_1001);
    assert!(mask.grayscale());
    assert!(!mask.show_background_in_leftmost_8px());
    assert!(!mask.show_sprites_in_leftmost_8px());
    assert!(mask.show_background());
    assert!(!mask.show_sprites());
    assert_eq!(mask.emphasize(), vec![Color::Red, Color::Blue]);
    mask.update(0b0101_0110);
    assert!(mask.show_background_in_leftmost_8px());
    assert!(mask.show_sprites_in_leftmost_8px());
    assert!(mask.show_sprites());
    assert_eq!(mask.emphasize(), vec![Color::Green]);
}

#[test]
fn status_register_bits() {
    let mut status = StatusRegister::new();
    assert_eq!(status.snapshot(), 0);
    status.update_vertical_blank_started(true);
    status.update_sprite_0_hit(true);
    status.update_sprite_overflow(true);
    assert_eq!(status.snapshot(), 0xe0);
    status.reset_vblank_status();
    assert_eq!(status.snapshot(), 0x60);
    status.update_sprite_0_hit(false);
    assert!(!status.is_sprite_0_hit());
    assert_eq!(status.snapshot(), 0x20);
    status.update(0x9f);
    assert!(status.is_in_vblank());
}

#[test]
fn scroll_register_writes_alternate() {
    let mut scroll = ScrollRegister::new();
    scroll.write(0xab);
    scroll.write(0xcd);
    scroll.write(0x12);
    assert_eq!((scroll.scroll_x, scroll.fine_scroll_x), (0x12, 0x02));
    assert_eq!((scroll.scroll_y, scroll.fine_scroll_y), (0xcd, 0x05));
    assert!(scroll.latch);
    scroll.reset_latch();
    assert!(!scroll.latch);
}
