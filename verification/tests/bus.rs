//! The routing of the processor's addresses.

use nes_core::bus::Bus;
use nes_core::cartridge::rom::Mirroring;
use nes_core::cartridge::rom::ROM;
use nes_core::fault::Fault;
use nes_core::joypad::JoypadButton;

fn cartridge(prg_size: usize) -> ROM {
    let mut prg_rom = vec![0u8; prg_size];
    for (i, byte) in prg_rom.iter_mut().enumerate() {
        *byte = (i % 251) as u8;
    }
    ROM {
        prg_rom,
        chr_rom: vec![0u8; 0x2000],
        mapper: 0,
        screen_mirroring: Mirroring::Horizontal,
        prg_writable: false,
    }
}

#[test]
fn work_ram_repeats_every_0x800() {
    let mut bus = Bus::new(cartridge(0x8000));
    bus.mem_write(0x0005, 0x11).unwrap();
    assert_eq!(bus.mem_read(0x0005), Ok(0x11));
    assert_eq!(bus.mem_read(0x0805), Ok(0x11));
    assert_eq!(bus.mem_read(0x1005), Ok(0x11));
    assert_eq!(bus.mem_read(0x1805), Ok(0x11));
    bus.mem_write(0x1fff, 0x22).unwrap();
    assert_eq!(bus.mem_read(0x07ff), Ok(0x22));
    assert_eq!(bus.cpu_vram[0x07ff], 0x22);
}

#[test]
fn ppu_ports_repeat_every_8_bytes() {
    let mut bus = Bus::new(cartridge(0x8000));
    // the address port through a mirror, the data port through another
    bus.mem_write(0x3ffe, 0x23).unwrap();
    bus.mem_write(0x200e, 0x05).unwrap();
    bus.mem_write(0x2f07, 0x66).unwrap();
    assert_eq!(bus.ppu.vram[0x0305], 0x66);
    // the control port reads back through any mirror
    bus.mem_write(0x2008, 0x84).unwrap();
    assert_eq!(bus.mem_read(0x2000), Ok(0x84));
    assert_eq!(bus.mem_read(0x3ff8), Ok(0x84));
}

#[test]
fn write_only_ports_read_as_zero() {
    let mut bus = Bus::new(cartridge(0x8000));
    bus.mem_write(0x2001, 0xff).unwrap();
    bus.mem_write(0x2003, 0x10).unwrap();
    for addr in [0x2001u16, 0x2003, 0x2005, 0x2006, 0x4014, 0x4000, 0x4013, 0x4015, 0x4017] {
        assert_eq!(bus.mem_read(addr), Ok(0));
    }
}

#[test]
fn status_port_ignores_writes() {
    let mut bus = Bus::new(cartridge(0x8000));
    bus.ppu.status_reg.update(0xe0);
    bus.mem_write(0x2002, 0x00).unwrap();
    assert_eq!(bus.ppu.status_reg.bits(), 0xe0);
}

#[test]
fn reading_the_status_port_clears_toggle_and_vblank() {
    let mut bus = Bus::new(cartridge(0x8000));
    bus.ppu.status_reg.update(0xe0);
    bus.mem_write(0x2006, 0x21).unwrap();
    assert_eq!(bus.mem_read(0x2002), Ok(0xe0));
    assert_eq!(bus.ppu.status_reg.bits(), 0x60);
    // the toggle was cleared: the next two writes are a full address again
    bus.mem_write(0x2006, 0x23).unwrap();
    bus.mem_write(0x2006, 0x05).unwrap();
    assert_eq!(bus.ppu.addr_reg.get_addr(), 0x2305);
    assert_eq!(bus.mem_read(0x2002), Ok(0x60));
}

#[test]
fn program_rom_is_read_only() {
    let mut bus = Bus::new(cartridge(0x8000));
    assert_eq!(bus.mem_read(0x8000), Ok(0));
    assert_eq!(bus.mem_read(0x8001), Ok(1));
    assert_eq!(bus.mem_write(0x8000, 0x55), Err(Fault::ReadOnly { addr: 0x8000 }));
    assert_eq!(bus.mem_write(0xffff, 0x55), Err(Fault::ReadOnly { addr: 0xffff }));
    assert_eq!(bus.mem_read(0x8000), Ok(0));
}

#[test]
fn a_16k_cartridge_answers_in_both_halves() {
    let mut bus = Bus::new(cartridge(0x4000));
    assert_eq!(bus.mem_read(0x8003), Ok(3));
    assert_eq!(bus.mem_read(0xc003), Ok(3));
    assert_eq!(bus.read_prg_rom(0xffff), Ok((0x3fff % 251) as u8));
    let mut big = Bus::new(cartridge(0x8000));
    assert_eq!(big.mem_read(0xc003), Ok((0x4003 % 251) as u8));
}

#[test]
fn nothing_answers_between_0x4018_and_0x5fff() {
    let mut bus = Bus::new(cartridge(0x8000));
    assert_eq!(bus.mem_read(0x4018), Err(Fault::Unmapped { addr: 0x4018 }));
    assert_eq!(bus.mem_read(0x5fff), Err(Fault::Unmapped { addr: 0x5fff }));
    assert_eq!(bus.mem_write(0x4018, 1), Err(Fault::Unmapped { addr: 0x4018 }));
    assert_eq!(bus.mem_write(0x5000, 1), Err(Fault::Unmapped { addr: 0x5000 }));
    assert_eq!(bus.mem_read(0x6000), Ok(0));
    assert_eq!(bus.mem_read(0x7fff), Ok(0));
    assert_eq!(bus.mem_write(0x6000, 1), Ok(()));
    assert_eq!(bus.read_prg_rom(0x7fff), Err(Fault::Unmapped { addr: 0x7fff }));
}

#[test]
fn a_missing_program_image_faults_on_read() {
    let mut rom = cartridge(0x4000);
    rom.prg_rom = Vec::new();
    let mut bus = Bus::new(rom);
    assert_eq!(bus.mem_read(0x8000), Err(Fault::Unmapped { addr: 0x8000 }));
}

#[test]
fn the_blank_cartridge_takes_writes() {
    let mut bus = Bus::new(ROM::blank());
    assert_eq!(bus.mem_write(0x8001, 0x77), Ok(()));
    assert_eq!(bus.mem_read(0x8001), Ok(0x77));
    assert_eq!(bus.mem_write_u16(0xfffc, 0x8000), Ok(()));
    assert_eq!(bus.mem_read_u16(0xfffc), Ok(0x8000));
    assert_eq!(bus.mem_read(0xfffc), Ok(0x00));
    assert_eq!(bus.mem_read(0xfffd), Ok(0x80));
    // a cartridge without pattern memory gets pattern RAM
    assert!(bus.ppu.chr_writable);
    assert_eq!(bus.ppu.chr_rom.len(), 0x2000);
}

#[test]
fn sixteen_bit_accesses_are_little_endian_and_wrap() {
    let mut bus = Bus::new(ROM::blank());
    bus.mem_write_u16(0x0010, 0xbeef).unwrap();
    assert_eq!(bus.mem_read(0x0010), Ok(0xef));
    assert_eq!(bus.mem_read(0x0011), Ok(0xbe));
    assert_eq!(bus.mem_read_u16(0x0010), Ok(0xbeef));
    // the high byte of a word at $FFFF comes from $0000
    bus.mem_write(0xffff, 0x34).unwrap();
    bus.mem_write(0x0000, 0x12).unwrap();
    assert_eq!(bus.mem_read_u16(0xffff), Ok(0x1234));
}

#[test]
fn oam_dma_copies_a_page() {
    let mut bus = Bus::new(cartridge(0x8000));
    for i in 0..256u16 {
        bus.mem_write(0x0200 + i, i as u8).unwrap();
    }
    bus.mem_write(0x4014, 0x02).unwrap();
    for i in 0..256usize {
        assert_eq!(bus.ppu.oam_data[i], i as u8);
    }
    assert_eq!(bus.ppu.oam_addr, 0);
}

#[test]
fn oam_dma_starts_at_the_sprite_address_and_wraps() {
    let mut bus = Bus::new(cartridge(0x8000));
    for i in 0..256u16 {
        bus.mem_write(0x0300 + i, i as u8).unwrap();
    }
    bus.mem_write(0x2003, 0xf0).unwrap();
    bus.mem_write(0x4014, 0x03).unwrap();
    assert_eq!(bus.ppu.oam_data[0xf0], 0);
    assert_eq!(bus.ppu.oam_data[0xff], 15);
    assert_eq!(bus.ppu.oam_data[0x00], 16);
    assert_eq!(bus.ppu.oam_data[0xef], 255);
    assert_eq!(bus.ppu.oam_addr, 0xf0);
}

#[test]
fn oam_dma_costs_513_cycles() {
    let mut bus = Bus::new(cartridge(0x8000));
    bus.tick(2);
    assert_eq!(bus.cycles, 2);
    bus.mem_write(0x4014, 0x02).unwrap();
    assert_eq!(bus.cycles, 2 + 513);
    // only a tick advances the picture-processing unit
    assert_eq!((bus.ppu.scanlines, bus.ppu.cycles), (0, 6));
    bus.tick(4);
    assert_eq!(bus.cycles, 2 + 513 + 4);
    assert_eq!((bus.ppu.scanlines, bus.ppu.cycles), (0, 18));
    bus.mem_write(0x4014, 0x07).unwrap();
    bus.mem_write(0x4014, 0x07).unwrap();
    assert_eq!(bus.cycles, 2 + 513 + 4 + 2 * 513);
}

#[test]
fn a_tick_of_n_cycles_is_3n_dots_whatever_came_before() {
    let mut bus = Bus::new(cartridge(0x8000));
    bus.mem_write(0x4014, 0x02).unwrap();
    let before = bus.cycles;
    assert!(!bus.tick(85));
    assert_eq!(bus.cycles, before + 85);
    assert_eq!((bus.ppu.scanlines, bus.ppu.cycles), (0, 255));
    assert!(!bus.tick(255));
    assert_eq!(bus.cycles, before + 340);
    assert_eq!((bus.ppu.scanlines, bus.ppu.cycles), (2, 338));
    assert!(!bus.tick(0));
    assert_eq!(bus.cycles, before + 340);
    assert_eq!((bus.ppu.scanlines, bus.ppu.cycles), (2, 338));
}

#[test]
fn oam_dma_from_an_unmapped_page_faults_and_leaves_sprites() {
    let mut bus = Bus::new(cartridge(0x8000));
    bus.ppu.oam_data[3] = 9;
    assert_eq!(bus.mem_write(0x4014, 0x41), Err(Fault::Unmapped { addr: 0x4100 }));
    assert_eq!(bus.ppu.oam_data[3], 9);
    assert_eq!(bus.cycles, 0);
}

#[test]
fn nothing_on_the_bus_changes_the_cartridge() {
    let mut rom = cartridge(0x4000);
    rom.chr_rom[5] = 0x5a;
    rom.mapper = 0;
    rom.screen_mirroring = Mirroring::Vertical;
    let prg = rom.prg_rom.clone();
    let chr = rom.chr_rom.clone();
    let mut bus = Bus::new(rom);
    for addr in [0x0000u16, 0x2000, 0x2006, 0x2007, 0x4014, 0x4016, 0x6000] {
        bus.mem_write(addr, 0x01).unwrap();
        bus.mem_read(addr).unwrap();
    }
    let _ = bus.mem_write(0x8000, 0x99);
    let _ = bus.mem_write(0x5000, 0x99);
    let _ = bus.mem_read(0xffff);
    bus.tick(200);
    bus.poll_nmi_status();
    assert_eq!(bus.rom.prg_rom, prg);
    assert_eq!(bus.rom.chr_rom, chr);
    assert_eq!(bus.rom.mapper, 0);
    assert_eq!(bus.rom.screen_mirroring, Mirroring::Vertical);
    assert!(!bus.rom.prg_writable);
    for at in [0x8000u16, 0x8001, 0xbfff, 0xc000, 0xffff] {
        assert_eq!(bus.mem_read(at), Ok(prg[(at as usize - 0x8000) % 0x4000]));
    }
}

#[test]
fn the_controller_is_read_bit_by_bit() {
    let mut bus = Bus::new(cartridge(0x8000));
    bus.joypad.set_button_pressed_status(JoypadButton::from_bits_truncate(JoypadButton::BUTTON_A), true);
    bus.joypad.set_button_pressed_status(JoypadButton::from_bits_truncate(JoypadButton::START), true);
    bus.mem_write(0x4016, 1).unwrap();
    bus.mem_write(0x4016, 0).unwrap();
    let mut read = Vec::new();
    for _ in 0..10 {
        read.push(bus.mem_read(0x4016).unwrap());
    }
    assert_eq!(read, vec![1, 0, 0, 1, 0, 0, 0, 0, 1, 1]);
}

#[test]
fn a_tick_runs_three_dots_per_cycle() {
    let mut bus = Bus::new(cartridge(0x8000));
    assert!(!bus.tick(7));
    assert_eq!(bus.cycles, 7);
    assert_eq!(bus.ppu.cycles, 21);
    assert_eq!(bus.ppu.scanlines, 0);
}

#[test]
fn the_frame_is_ready_when_the_interrupt_is_raised() {
    let mut bus = Bus::new(cartridge(0x8000));
    bus.mem_write(0x2000, 0x80).unwrap();
    // scanline 241, dot 1 is dot number 241 * 341 + 1 = 82182 = 3 * 27394
    let mut ticks = 0u32;
    let mut ready_at = None;
    while ticks < 27400 {
        let ready = bus.tick(1);
        ticks += 1;
        if ready {
            assert!(ready_at.is_none());
            ready_at = Some(ticks);
        }
    }
    assert_eq!(ready_at, Some(27394));
    assert_eq!(bus.poll_nmi_status(), Some(1));
    assert_eq!(bus.poll_nmi_status(), None);
}

#[test]
fn no_frame_is_announced_with_the_interrupt_disabled() {
    let mut bus = Bus::new(cartridge(0x8000));
    for _ in 0..28000 {
        assert!(!bus.tick(1));
    }
    assert_eq!(bus.poll_nmi_status(), None);
    assert!(bus.ppu.scanlines > 241);
}
