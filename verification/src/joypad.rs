//! The standard controller: eight buttons behind a strobe latch and a
//! serial read index.

use vstd::prelude::*;

verus! {

/// The set of buttons held down, one button per bit.
#[derive(Clone, Copy, Debug, PartialEq, Eq, Structural)]
pub struct JoypadButton {
    pub bits: u8,
}

impl JoypadButton {
    pub const BUTTON_A: u8 = 0x01;
    pub const BUTTON_B: u8 = 0x02;
    pub const SELECT: u8 = 0x04;
    pub const START: u8 = 0x08;
    pub const UP: u8 = 0x10;
    pub const DOWN: u8 = 0x20;
    pub const LEFT: u8 = 0x40;
    pub const RIGHT: u8 = 0x80;

    /// The set with the buttons of `other` added when `on` holds and taken
    /// out otherwise.
    pub open spec fn assign(self, other: JoypadButton, on: bool) -> JoypadButton {
        if on {
            JoypadButton { bits: self.bits | other.bits }
        } else {
            JoypadButton { bits: self.bits & !other.bits }
        }
    }

    pub fn from_bits_truncate(bits: u8) -> (b: JoypadButton)
        ensures
            b.bits == bits,
    {
        JoypadButton { bits }
    }

    pub fn bits(&self) -> (b: u8)
        ensures
            b == self.bits,
    {
        self.bits
    }

    pub fn contains(&self, other: JoypadButton) -> (b: bool)
        ensures
            b == (self.bits & other.bits == other.bits),
    {
        self.bits & other.bits == other.bits
    }

    pub fn set(&mut self, other: JoypadButton, on: bool)
        ensures
            *final(self) == old(self).assign(other, on),
    {
        if on {
            self.bits = self.bits | other.bits;
        } else {
            self.bits = self.bits & !other.bits;
        }
    }
}

#[derive(Clone, Copy, Debug, PartialEq, Eq, Structural)]
pub struct Joypad {
    pub button_status: JoypadButton,
    pub strobe: bool,
    pub index: u8,
}

impl Joypad {
    /// The controller after `data` was written to its port: bit 0 is the
    /// strobe, and while it is set the read index stays at the first button.
    pub open spec fn after_write(self, data: u8) -> Joypad {
        let strobe = data & 1 == 1;
        Joypad { strobe, index: if strobe { 0 } else { self.index }, ..self }
    }

    /// What a read of the port returns: the button at the read index in
    /// bit 0, and 1 once all eight were read.
    pub open spec fn read_value(self) -> u8 {
        if self.index > 7 {
            1
        } else {
            (self.button_status.bits >> self.index) & 1
        }
    }

    /// The controller after a read of its port: the index moves on unless
    /// the strobe holds it or all eight buttons were read.
    pub open spec fn after_read(self) -> Joypad {
        if self.index <= 7 && !self.strobe {
            Joypad { index: (self.index + 1) as u8, ..self }
        } else {
            self
        }
    }

    pub fn new() -> (j: Joypad)
        ensures
            j == (Joypad { button_status: JoypadButton { bits: 0 }, strobe: false, index: 0 }),
    {
        Joypad { button_status: JoypadButton::from_bits_truncate(0), strobe: false, index: 0 }
    }

    pub fn write(&mut self, data: u8)
        ensures
            *final(self) == old(self).after_write(data),
    {
        self.strobe = data & 1 == 1;
        if self.strobe {
            self.index = 0;
        }
    }

    pub fn read(&mut self) -> (response: u8)
        ensures
            response == old(self).read_value(),
            *final(self) == old(self).after_read(),
    {
        if self.index > 7 {
            return 1;
        }
        let response = (self.button_status.bits >> self.index) & 1;
        if !self.strobe {
            self.index = self.index + 1;
        }
        response
    }

    pub fn set_button_pressed_status(&mut self, button: JoypadButton, pressed: bool)
        ensures
            *final(self) == (Joypad {
                button_status: old(self).button_status.assign(button, pressed),
                ..*old(self)
            }),
    {
        self.button_status.set(button, pressed);
    }
}

/// The controller after `n` reads of its port.
pub open spec fn after_reads(j: Joypad, n: nat) -> Joypad
    decreases n,
{
    if n == 0 {
        j
    } else {
        after_reads(j, (n - 1) as nat).after_read()
    }
}

/// With the strobe released, eight reads hand out the eight buttons, A
/// first, and every read after them returns 1.
pub proof fn lemma_reads_in_order(j: Joypad, k: u8)
    requires
        !j.strobe,
        j.index == 0,
        k <= 8,
    ensures
        after_reads(j, k as nat).index == k,
        after_reads(j, k as nat).button_status == j.button_status,
        !after_reads(j, k as nat).strobe,
        k < 8 ==> after_reads(j, k as nat).read_value() == (j.button_status.bits >> k) & 1,
        k == 8 ==> after_reads(j, k as nat).read_value() == 1 && after_reads(j, k as nat).after_read()
            == after_reads(j, k as nat),
    decreases k,
{
    if k > 0 {
        lemma_reads_in_order(j, (k - 1) as u8);
    }
}

} // verus!
