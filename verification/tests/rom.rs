//! Cartridge images.

use nes_core::cartridge::rom::Mirroring;
use nes_core::cartridge::rom::RomError;
use nes_core::cartridge::rom::ROM;
use nes_core::ppu::PPUMirroring;

fn image(flags6: u8, flags7: u8, prg_pages: u8, chr_pages: u8, trainer: bool) -> Vec<u8> {
    let mut raw = vec![0x4e, 0x45, 0x53, 0x1a, prg_pages, chr_pages, flags6, flags7];
    raw.extend_from_slice(&[0u8; 8]);
    if trainer {
        raw.extend_from_slice(&[0xeeu8; 512]);
    }
    raw.extend(std::iter::repeat(0x11).take(prg_pages as usize * 0x4000));
    raw.extend(std::iter::repeat(0x22).take(chr_pages as usize * 0x2000));
    raw
}

#[test]
fn a_plain_image_loads() {
    let rom = ROM::new(&image(0x01, 0x00, 2, 1, false)).unwrap();
    assert_eq!(rom.prg_rom, vec![0x11u8; 0x8000]);
    assert_eq!(rom.chr_rom, vec![0x22u8; 0x2000]);
    assert_eq!(rom.mapper, 0);
    assert_eq!(rom.screen_mirroring, Mirroring::Vertical);
    assert!(!rom.prg_writable);
    assert_eq!(rom.to_PPUMirroring(), PPUMirroring::Vertical);
}

#[test]
fn the_trainer_is_skipped() {
    let rom = ROM::new(&image(0x04, 0x00, 1, 1, true)).unwrap();
    assert_eq!(rom.prg_rom, vec![0x11u8; 0x4000]);
    assert_eq!(rom.chr_rom, vec![0x22u8; 0x2000]);
    assert_eq!(rom.screen_mirroring, Mirroring::Horizontal);
    assert_eq!(rom.to_PPUMirroring(), PPUMirroring::Horizontal);
}

#[test]
fn four_screen_wins_over_vertical() {
    let rom = ROM::new(&image(0x09, 0x00, 1, 0, false)).unwrap();
    assert_eq!(rom.screen_mirroring, Mirroring::FourScreen);
    assert_eq!(rom.to_PPUMirroring(), PPUMirroring::FourScreen);
    assert!(rom.chr_rom.is_empty());
}

#[test]
fn trailing_bytes_are_ignored() {
    let mut raw = image(0x00, 0x00, 1, 1, false);
    raw.extend_from_slice(&[0xffu8; 100]);
    let rom = ROM::new(&raw).unwrap();
    assert_eq!(rom.prg_rom.len(), 0x4000);
    assert_eq!(rom.chr_rom, vec![0x22u8; 0x2000]);
}

#[test]
fn a_bad_signature_is_refused() {
    let mut raw = image(0x00, 0x00, 1, 1, false);
    raw[3] = 0x1b;
    assert_eq!(ROM::new(&raw).err(), Some(RomError::BadSignature));
    assert_eq!(ROM::new(&vec![0x4e, 0x45, 0x53]).err(), Some(RomError::BadSignature));
    assert_eq!(ROM::new(&Vec::new()).err(), Some(RomError::BadSignature));
}

#[test]
fn other_mappers_are_refused() {
    assert_eq!(
        ROM::new(&image(0x10, 0x00, 1, 1, false)).err(),
        Some(RomError::UnsupportedMapper { mapper: 1 })
    );
    assert_eq!(
        ROM::new(&image(0x40, 0x20, 1, 1, false)).err(),
        Some(RomError::UnsupportedMapper { mapper: 0x24 })
    );
    // the low nibble of byte 7 is not part of the mapper number
    assert!(ROM::new(&image(0x00, 0x08, 1, 1, false)).is_ok());
}

#[test]
fn a_truncated_image_is_refused() {
    let mut raw = image(0x00, 0x00, 1, 1, false);
    raw.pop();
    assert_eq!(ROM::new(&raw).err(), Some(RomError::Truncated));
    assert_eq!(ROM::new(&vec![0x4e, 0x45, 0x53, 0x1a, 1, 1]).err(), Some(RomError::Truncated));
    let mut short_trainer = image(0x04, 0x00, 1, 1, false);
    short_trainer.truncate(16 + 0x4000 + 0x2000);
    assert_eq!(ROM::new(&short_trainer).err(), Some(RomError::Truncated));
}

#[test]
fn the_blank_cartridge_is_writable() {
    let rom = ROM::blank();
    assert_eq!(rom.prg_rom, vec![0u8; 0x8000]);
    assert!(rom.chr_rom.is_empty());
    assert!(rom.prg_writable);
    assert_eq!(rom.mapper, 0);
}
