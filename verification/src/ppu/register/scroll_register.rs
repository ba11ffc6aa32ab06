//! The scroll position, written through port `$2005`.

use vstd::prelude::*;

verus! {

/// The horizontal and vertical scroll, each with its fine part (the low
/// three bits), and the toggle that tells which of the two the next write
/// loads.
#[derive(Clone, Copy, Debug, PartialEq, Eq, Structural)]
pub struct ScrollRegister {
    pub scroll_x: u8,
    pub scroll_y: u8,
    /// Whether the next write loads the vertical scroll.
    pub latch: bool,
    pub fine_scroll_x: u8,
    pub fine_scroll_y: u8,
}

impl ScrollRegister {
    /// The fine parts are the low three bits of the scroll values.
    pub open spec fn wf(self) -> bool {
        &&& self.fine_scroll_x == self.scroll_x & 0x07
        &&& self.fine_scroll_y == self.scroll_y & 0x07
    }

    /// The register after one byte was written to the scroll port: the
    /// first write loads the horizontal scroll, the second the vertical.
    pub open spec fn after_write(self, data: u8) -> ScrollRegister {
        if self.latch {
            ScrollRegister { scroll_y: data, fine_scroll_y: data & 0x07, latch: false, ..self }
        } else {
            ScrollRegister { scroll_x: data, fine_scroll_x: data & 0x07, latch: true, ..self }
        }
    }

    pub fn new() -> (r: ScrollRegister)
        ensures
            r == (ScrollRegister {
                scroll_x: 0,
                scroll_y: 0,
                latch: false,
                fine_scroll_x: 0,
                fine_scroll_y: 0,
            }),
            r.wf(),
    {
        assert(0u8 & 0x07 == 0) by (bit_vector);
        ScrollRegister { scroll_x: 0, scroll_y: 0, latch: false, fine_scroll_x: 0, fine_scroll_y: 0 }
    }

    pub fn write(&mut self, data: u8)
        ensures
            *final(self) == old(self).after_write(data),
            old(self).wf() ==> final(self).wf(),
    {
        if self.latch {
            self.scroll_y = data;
            self.fine_scroll_y = data & 0x07;
        } else {
            self.scroll_x = data;
            self.fine_scroll_x = data & 0x07;
        }
        self.latch = !self.latch;
    }

    pub fn reset_latch(&mut self)
        ensures
            *final(self) == (ScrollRegister { latch: false, ..*old(self) }),
    {
        self.latch = false;
    }
}

} // verus!
