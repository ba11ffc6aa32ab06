//! The packed status byte of the processor.

use vstd::prelude::*;

verus! {

/// The processor status byte `NV1B DIZC`, one flag per bit.
#[derive(Clone, Copy, Debug, PartialEq, Eq, Structural)]
pub struct StatusFlags {
    pub bits: u8,
}

impl StatusFlags {
    pub const CARRY: u8 = 0x01;
    pub const ZERO: u8 = 0x02;
    pub const INTERRUPT_DISABLE: u8 = 0x04;
    pub const DECIMAL_MODE: u8 = 0x08;
    pub const BREAK: u8 = 0x10;
    pub const RESERVED: u8 = 0x20;
    pub const OVERFLOW: u8 = 0x40;
    pub const NEGATIVE: u8 = 0x80;

    /// Whether every bit of `mask` is set.
    pub open spec fn has(self, mask: u8) -> bool {
        self.bits & mask == mask
    }

    /// The flags with the bits of `mask` set.
    pub open spec fn with(self, mask: u8) -> StatusFlags {
        StatusFlags { bits: self.bits | mask }
    }

    /// The flags with the bits of `mask` cleared.
    pub open spec fn without(self, mask: u8) -> StatusFlags {
        StatusFlags { bits: self.bits & !mask }
    }

    /// The flags with the bits of `mask` set when `on` holds and cleared otherwise.
    pub open spec fn assign(self, mask: u8, on: bool) -> StatusFlags {
        if on {
            self.with(mask)
        } else {
            self.without(mask)
        }
    }

    /// The flags after an operation produced `value`: Zero tells whether
    /// `value` is 0, Negative copies its bit 7.
    pub open spec fn with_zn(self, value: u8) -> StatusFlags {
        self.assign(0x02, value == 0).assign(0x80, value & 0x80 != 0)
    }

    /// The carry flag as the number 0 or 1.
    pub open spec fn carry_in(self) -> u8 {
        self.bits & 0x01
    }

    pub fn from_bits_truncate(bits: u8) -> (f: StatusFlags)
        ensures
            f.bits == bits,
    {
        StatusFlags { bits }
    }

    pub fn bits(&self) -> (b: u8)
        ensures
            b == self.bits,
    {
        self.bits
    }

    pub fn contains(&self, mask: u8) -> (b: bool)
        ensures
            b == self.has(mask),
    {
        self.bits & mask == mask
    }

    pub fn insert(&mut self, mask: u8)
        ensures
            *final(self) == old(self).with(mask),
    {
        self.bits = self.bits | mask;
    }

    pub fn remove(&mut self, mask: u8)
        ensures
            *final(self) == old(self).without(mask),
    {
        self.bits = self.bits & !mask;
    }

    pub fn set(&mut self, mask: u8, on: bool)
        ensures
            *final(self) == old(self).assign(mask, on),
    {
        if on {
            self.insert(mask);
        } else {
            self.remove(mask);
        }
    }

    /// Sets Zero and Negative from `value`.
    pub fn update_zero_and_negative(&mut self, value: u8)
        ensures
            *final(self) == old(self).with_zn(value),
    {
        self.set(0x02, value == 0);
        self.set(0x80, value & 0x80 != 0);
    }
}

/// Setting a flag makes it read as set, clearing it makes it read as clear,
/// and neither touches another single-bit flag.
pub proof fn lemma_assign_single_bit(f: StatusFlags, mask: u8, other: u8, on: bool)
    requires
        mask == 0x01 || mask == 0x02 || mask == 0x04 || mask == 0x08 || mask == 0x10 || mask
            == 0x20 || mask == 0x40 || mask == 0x80,
        other == 0x01 || other == 0x02 || other == 0x04 || other == 0x08 || other == 0x10
            || other == 0x20 || other == 0x40 || other == 0x80,
    ensures
        f.assign(mask, on).has(mask) == on,
        other != mask ==> f.assign(mask, on).has(other) == f.has(other),
{
    let b = f.bits;
    assert(mask != 0 ==> (b | mask) & mask == mask && (b & !mask) & mask != mask)
        by (bit_vector);
    assert((mask == 0x01 || mask == 0x02 || mask == 0x04 || mask == 0x08 || mask == 0x10 || mask
        == 0x20 || mask == 0x40 || mask == 0x80) && (other == 0x01 || other == 0x02 || other
        == 0x04 || other == 0x08 || other == 0x10 || other == 0x20 || other == 0x40 || other
        == 0x80) && other != mask ==> ((b | mask) & other == b & other) && ((b & !mask) & other
        == b & other)) by (bit_vector);
}

} // verus!
