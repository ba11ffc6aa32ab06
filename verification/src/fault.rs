//! The fatal conditions that emulation can run into.

use vstd::prelude::*;

verus! {

/// An access that the hardware being emulated has no answer for. None is
/// recovered from: each is a defect of the running program or its
/// cartridge image, surfaced to the host instead of being guessed at.
#[derive(Clone, Copy, Debug, PartialEq, Eq, Structural)]
pub enum Fault {
    /// A processor access to an address that no device answers.
    Unmapped { addr: u16 },
    /// A write into the cartridge's program ROM.
    ReadOnly { addr: u16 },
    /// An access through the data port to a video address past the 32
    /// palette entries.
    Palette { addr: u16 },
}

} // verus!
