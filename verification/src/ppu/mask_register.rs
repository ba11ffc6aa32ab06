//! The mask register, written through port `$2001`.

use vstd::prelude::*;

verus! {

/// The mask byte `BGRs bMmG`: colour emphasis, sprite and background
/// enables, their leftmost-column enables, and greyscale.
#[derive(Clone, Copy, Debug, PartialEq, Eq, Structural)]
pub struct MaskRegister {
    pub bits: u8,
}

/// A colour channel that the mask register can emphasize.
#[derive(Clone, Copy, Debug, PartialEq, Eq, Structural)]
pub enum Color {
    Red,
    Green,
    Blue,
}

impl MaskRegister {
    pub const GREYSCALE: u8 = 0x01;
    pub const SHOW_BACKGROUND_IN_LEFTMOST_8PX: u8 = 0x02;
    pub const SHOW_SPRITES_IN_LEFTMOST_8PX: u8 = 0x04;
    pub const SHOW_BACKGROUND: u8 = 0x08;
    pub const SHOW_SPRITES: u8 = 0x10;
    pub const EMPHASIZE_RED: u8 = 0x20;
    pub const EMPHASIZE_GREEN: u8 = 0x40;
    pub const EMPHASIZE_BLUE: u8 = 0x80;

    /// Whether every bit of `mask` is set.
    pub open spec fn has(self, mask: u8) -> bool {
        self.bits & mask == mask
    }

    /// The emphasized channels, red before green before blue.
    pub open spec fn emphasized(self) -> Seq<Color> {
        let red = if self.has(0x20) { seq![Color::Red] } else { Seq::<Color>::empty() };
        let green = if self.has(0x40) { seq![Color::Green] } else { Seq::<Color>::empty() };
        let blue = if self.has(0x80) { seq![Color::Blue] } else { Seq::<Color>::empty() };
        red + green + blue
    }

    pub fn new() -> (r: MaskRegister)
        ensures
            r.bits == 0,
    {
        MaskRegister { bits: 0 }
    }

    pub fn from_bits_truncate(bits: u8) -> (r: MaskRegister)
        ensures
            r.bits == bits,
    {
        MaskRegister { bits }
    }

    pub fn bits(&self) -> (b: u8)
        ensures
            b == self.bits,
    {
        self.bits
    }

    pub fn contains(&self, mask: u8) -> (b: bool)
        ensures
            b == self.has(mask),
    {
        self.bits & mask == mask
    }

    pub fn update(&mut self, data: u8)
        ensures
            final(self).bits == data,
    {
        self.bits = data;
    }

    pub fn grayscale(&self) -> (on: bool)
        ensures
            on == self.has(0x01),
    {
        self.contains(MaskRegister::GREYSCALE)
    }

    pub fn show_background_in_leftmost_8px(&self) -> (on: bool)
        ensures
            on == self.has(0x02),
    {
        self.contains(MaskRegister::SHOW_BACKGROUND_IN_LEFTMOST_8PX)
    }

    pub fn show_sprites_in_leftmost_8px(&self) -> (on: bool)
        ensures
            on == self.has(0x04),
    {
        self.contains(MaskRegister::SHOW_SPRITES_IN_LEFTMOST_8PX)
    }

    pub fn show_background(&self) -> (on: bool)
        ensures
            on == self.has(0x08),
    {
        self.contains(MaskRegister::SHOW_BACKGROUND)
    }

    pub fn show_sprites(&self) -> (on: bool)
        ensures
            on == self.has(0x10),
    {
        self.contains(MaskRegister::SHOW_SPRITES)
    }

    pub fn emphasize(&self) -> (result: Vec<Color>)
        ensures
            result@ == self.emphasized(),
    {
        let mut result: Vec<Color> = Vec::new();
        if self.contains(MaskRegister::EMPHASIZE_RED) {
            result.push(Color::Red);
        }
        if self.contains(MaskRegister::EMPHASIZE_GREEN) {
            result.push(Color::Green);
        }
        if self.contains(MaskRegister::EMPHASIZE_BLUE) {
            result.push(Color::Blue);
        }
        result
    }
}

} // verus!
