//! The status register, read through port `$2002`.

use vstd::prelude::*;

verus! {

/// The status byte `VSO. ....`: vertical blank started, sprite-0 hit,
/// sprite overflow, and five bits of open bus.
#[derive(Clone, Copy, Debug, PartialEq, Eq, Structural)]
pub struct StatusRegister {
    pub bits: u8,
}

impl StatusRegister {
    pub const PPU_OPEN_BUS: u8 = 0x1f;
    pub const SPRITE_OVERFLOW: u8 = 0x20;
    pub const SPRITE_0_HIT: u8 = 0x40;
    pub const VERTICAL_BLANK_STARTED: u8 = 0x80;

    /// Whether every bit of `mask` is set.
    pub open spec fn has(self, mask: u8) -> bool {
        self.bits & mask == mask
    }

    /// The register with the bits of `mask` set when `on` holds and cleared
    /// otherwise.
    pub open spec fn assign(self, mask: u8, on: bool) -> StatusRegister {
        if on {
            StatusRegister { bits: self.bits | mask }
        } else {
            StatusRegister { bits: self.bits & !mask }
        }
    }

    /// Whether vertical blanking is reported as started.
    pub open spec fn in_vblank(self) -> bool {
        self.has(0x80)
    }

    pub fn new() -> (r: StatusRegister)
        ensures
            r.bits == 0,
    {
        StatusRegister { bits: 0 }
    }

    pub fn from_bits_truncate(bits: u8) -> (r: StatusRegister)
        ensures
            r.bits == bits,
    {
        StatusRegister { bits }
    }

    pub fn bits(&self) -> (b: u8)
        ensures
            b == self.bits,
    {
        self.bits
    }

    pub fn contains(&self, mask: u8) -> (b: bool)
        ensures
            b == self.has(mask),
    {
        self.bits & mask == mask
    }

    pub fn set(&mut self, mask: u8, on: bool)
        ensures
            *final(self) == old(self).assign(mask, on),
    {
        if on {
            self.bits = self.bits | mask;
        } else {
            self.bits = self.bits & !mask;
        }
    }

    pub fn update(&mut self, value: u8)
        ensures
            final(self).bits == value,
    {
        self.bits = value;
    }

    pub fn update_sprite_overflow(&mut self, value: bool)
        ensures
            *final(self) == old(self).assign(0x20, value),
    {
        self.set(StatusRegister::SPRITE_OVERFLOW, value);
    }

    pub fn update_sprite_0_hit(&mut self, value: bool)
        ensures
            *final(self) == old(self).assign(0x40, value),
    {
        self.set(StatusRegister::SPRITE_0_HIT, value);
    }

    pub fn is_sprite_0_hit(&self) -> (hit: bool)
        ensures
            hit == self.has(0x40),
    {
        self.contains(StatusRegister::SPRITE_0_HIT)
    }

    pub fn update_vertical_blank_started(&mut self, value: bool)
        ensures
            *final(self) == old(self).assign(0x80, value),
    {
        self.set(StatusRegister::VERTICAL_BLANK_STARTED, value);
    }

    pub fn is_in_vblank(&self) -> (started: bool)
        ensures
            started == self.in_vblank(),
    {
        self.contains(StatusRegister::VERTICAL_BLANK_STARTED)
    }

    pub fn reset_vblank_status(&mut self)
        ensures
            *final(self) == old(self).assign(0x80, false),
    {
        self.set(StatusRegister::VERTICAL_BLANK_STARTED, false);
    }

    pub fn snapshot(&self) -> (b: u8)
        ensures
            b == self.bits,
    {
        self.bits
    }
}

/// Clearing the vertical-blank bit leaves it clear and keeps the sprite-0
/// hit and sprite overflow bits as they were.
pub proof fn lemma_reset_vblank_keeps_sprite_bits(r: StatusRegister)
    ensures
        !r.assign(0x80, false).in_vblank(),
        r.assign(0x80, false).has(0x40) == r.has(0x40),
        r.assign(0x80, false).has(0x20) == r.has(0x20),
{
    let b = r.bits;
    assert((b & !0x80u8) & 0x80 != 0x80 && ((b & !0x80u8) & 0x40 == b & 0x40) && ((b & !0x80u8)
        & 0x20 == b & 0x20)) by (bit_vector);
}

} // verus!
