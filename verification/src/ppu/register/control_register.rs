//! The control register, written through port `$2000`.

use vstd::prelude::*;

verus! {

/// The control byte `VPHB SINN`.
///
/// `NN` picks the base nametable, `I` the address increment (1 or 32), `S`
/// and `B` the pattern tables of sprites and background, `H` the sprite
/// height, `P` the master/slave select and `V` whether an interrupt is
/// raised when vertical blanking starts.
#[derive(Clone, Copy, Debug, PartialEq, Eq, Structural)]
pub struct ControlRegister {
    pub bits: u8,
}

impl ControlRegister {
    pub const NAME_TABLE_1: u8 = 0x01;
    pub const NAME_TABLE_2: u8 = 0x02;
    pub const VRAM_ADD_INCREMENT: u8 = 0x04;
    pub const SPRITE_PATTERN_ADDR: u8 = 0x08;
    pub const BACKGROUND_PATTERN_ADDR: u8 = 0x10;
    pub const SPRITE_SIZE: u8 = 0x20;
    pub const MASTER_SLAVE_SELECT: u8 = 0x40;
    pub const GENERATE_NMI: u8 = 0x80;

    /// Whether every bit of `mask` is set.
    pub open spec fn has(self, mask: u8) -> bool {
        self.bits & mask == mask
    }

    /// The number 0 to 3 of the base nametable.
    pub open spec fn nametable_index(self) -> u8 {
        self.bits & 0x03
    }

    /// The address of the base nametable.
    pub open spec fn nametable_base(self) -> u16 {
        (0x2000 + 0x400 * self.nametable_index()) as u16
    }

    /// By how much the video-memory address moves on after each access
    /// through the data port.
    pub open spec fn vram_increment(self) -> u8 {
        if self.has(0x04) {
            32
        } else {
            1
        }
    }

    /// The pattern table of the background.
    pub open spec fn background_base(self) -> u16 {
        if self.has(0x10) {
            0x1000
        } else {
            0
        }
    }

    /// The pattern table of 8x8 sprites.
    pub open spec fn sprite_base(self) -> u16 {
        if self.has(0x08) {
            0x1000
        } else {
            0
        }
    }

    /// Whether the start of vertical blanking raises an interrupt.
    pub open spec fn nmi_enabled(self) -> bool {
        self.has(0x80)
    }

    pub fn new() -> (r: ControlRegister)
        ensures
            r.bits == 0,
    {
        ControlRegister { bits: 0 }
    }

    pub fn from_bits_truncate(bits: u8) -> (r: ControlRegister)
        ensures
            r.bits == bits,
    {
        ControlRegister { bits }
    }

    pub fn bits(&self) -> (b: u8)
        ensures
            b == self.bits,
    {
        self.bits
    }

    pub fn contains(&self, mask: u8) -> (b: bool)
        ensures
            b == self.has(mask),
    {
        self.bits & mask == mask
    }

    pub fn nametable_addr(&self) -> (a: u16)
        ensures
            a == self.nametable_base(),
            a == 0x2000 + 0x400 * self.nametable_index(),
            self.nametable_index() <= 3,
    {
        let bits: u8 = self.bits;
        let index: u8 = bits & 0x03;
        assert(index <= 3) by (bit_vector)
            requires
                index == bits & 0x03,
        ;
        if index == 0 {
            0x2000
        } else if index == 1 {
            0x2400
        } else if index == 2 {
            0x2800
        } else {
            0x2c00
        }
    }

    pub fn get_vram_addr_increment_value(&self) -> (inc: u8)
        ensures
            inc == self.vram_increment(),
    {
        if !self.contains(ControlRegister::VRAM_ADD_INCREMENT) {
            1
        } else {
            32
        }
    }

    pub fn update(&mut self, data: u8)
        ensures
            final(self).bits == data,
    {
        self.bits = data;
    }

    pub fn is_generate_vblank_nmi_on(&self) -> (on: bool)
        ensures
            on == self.nmi_enabled(),
    {
        self.contains(ControlRegister::GENERATE_NMI)
    }

    pub fn master_slae_select(&self) -> (select: u8)
        ensures
            select == (if self.has(0x40) { 1u8 } else { 0u8 }),
    {
        if self.contains(ControlRegister::MASTER_SLAVE_SELECT) {
            1
        } else {
            0
        }
    }

    pub fn sprite_size(&self) -> (height: u8)
        ensures
            height == (if self.has(0x20) { 16u8 } else { 8u8 }),
    {
        if self.contains(ControlRegister::SPRITE_SIZE) {
            16
        } else {
            8
        }
    }

    pub fn background_pattern_addr(&self) -> (a: u16)
        ensures
            a == self.background_base(),
    {
        if self.contains(ControlRegister::BACKGROUND_PATTERN_ADDR) {
            0x1000
        } else {
            0
        }
    }

    pub fn sprite_pattern_addr(&self) -> (a: u16)
        ensures
            a == self.sprite_base(),
    {
        if self.contains(ControlRegister::SPRITE_PATTERN_ADDR) {
            0x1000
        } else {
            0
        }
    }
}

} // verus!
