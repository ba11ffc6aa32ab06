//! The latched address into video memory.

use vstd::prelude::*;

verus! {

/// A 14-bit address written one byte at a time, high byte first.
#[derive(Clone, Copy, Debug)]
pub struct AddrRegister {
    /// The high byte, then the low byte.
    pub value: (u8, u8),
    /// Whether the next write goes to the high byte.
    pub hi_ptr: bool,
}

impl AddrRegister {
    /// The address never leaves the 14 bits of video memory.
    pub open spec fn wf(self) -> bool {
        self.value.0 <= 0x3f
    }

    /// The address as a number.
    pub open spec fn addr(self) -> u16 {
        ((self.value.0 as u16) << 8) | (self.value.1 as u16)
    }

    /// The register holding the low 14 bits of `data`, its toggle untouched.
    pub open spec fn with_addr(self, data: u16) -> AddrRegister {
        AddrRegister { value: (((data >> 8) & 0x3f) as u8, (data & 0xff) as u8), ..self }
    }

    /// The register after one byte was written to the address port: the
    /// first write loads the high six bits, the second the low eight.
    pub open spec fn after_update(self, data: u8) -> AddrRegister {
        if self.hi_ptr {
            AddrRegister { value: (data & 0x3f, self.value.1), hi_ptr: false }
        } else {
            AddrRegister { value: (self.value.0, data), hi_ptr: true }
        }
    }

    /// The register after the address moved on by `inc_value`, wrapping
    /// within the 14 bits.
    pub open spec fn after_increment(self, inc_value: u8) -> AddrRegister {
        self.with_addr(((self.addr() + inc_value) % 0x1_0000) as u16)
    }

    pub fn new() -> (r: AddrRegister)
        ensures
            r == (AddrRegister { value: (0, 0), hi_ptr: true }),
            r.wf(),
    {
        AddrRegister { value: (0, 0), hi_ptr: true }
    }

    pub fn set_addr(&mut self, data: u16)
        ensures
            *final(self) == old(self).with_addr(data),
            final(self).wf(),
    {
        let hi: u16 = (data >> 8) & 0x3f;
        let lo: u16 = data & 0xff;
        assert(hi <= 0x3f && lo <= 0xff) by (bit_vector)
            requires
                hi == (data >> 8) & 0x3f,
                lo == data & 0xff,
        ;
        self.value = (hi as u8, lo as u8);
    }

    pub fn get_addr(&self) -> (a: u16)
        ensures
            a == self.addr(),
            self.wf() ==> a <= 0x3fff,
    {
        let hi: u8 = self.value.0;
        let lo: u8 = self.value.1;
        assert(hi <= 0x3f ==> (((hi as u16) << 8) | (lo as u16)) <= 0x3fff) by (bit_vector);
        ((self.value.0 as u16) << 8) | (self.value.1 as u16)
    }

    pub fn update(&mut self, data: u8)
        ensures
            *final(self) == old(self).after_update(data),
            old(self).wf() ==> final(self).wf(),
    {
        if self.hi_ptr {
            assert(data & 0x3f <= 0x3f) by (bit_vector);
            self.value = (data & 0x3f, self.value.1);
        } else {
            self.value = (self.value.0, data);
        }
        self.hi_ptr = !self.hi_ptr;
    }

    pub fn increment(&mut self, inc_value: u8)
        ensures
            *final(self) == old(self).after_increment(inc_value),
            final(self).wf(),
    {
        let next: u16 = self.get_addr().wrapping_add(inc_value as u16);
        self.set_addr(next);
    }

    pub fn reset_latch(&mut self)
        ensures
            *final(self) == (AddrRegister { hi_ptr: true, ..*old(self) }),
    {
        self.hi_ptr = true;
    }
}

/// Moving a valid address on by `inc_value` adds it modulo the size of
/// video memory.
pub proof fn lemma_increment_adds(r: AddrRegister, inc_value: u8)
    requires
        r.wf(),
    ensures
        r.after_increment(inc_value).addr() == (r.addr() + inc_value) % 0x4000,
        r.after_increment(inc_value).hi_ptr == r.hi_ptr,
{
    let a: u16 = r.addr();
    let n: u16 = ((a + inc_value) % 0x1_0000) as u16;
    let hi: u8 = ((n >> 8) & 0x3f) as u8;
    let lo: u8 = (n & 0xff) as u8;
    assert((((((n >> 8) & 0x3f) as u8) as u16) << 8) | (((n & 0xff) as u8) as u16) == n % 0x4000)
        by (bit_vector);
    let h0: u8 = r.value.0;
    let l0: u8 = r.value.1;
    assert(h0 <= 0x3f ==> (((h0 as u16) << 8) | (l0 as u16)) <= 0x3fff) by (bit_vector);
}

} // verus!
