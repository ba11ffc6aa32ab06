//! The core of a Nintendo Entertainment System: a 6502 interpreter, the
//! memory bus with its memory-mapped ports, the picture-processing unit and
//! the renderer that turns video memory into an RGB frame.

pub mod bus;
pub mod cartridge;
pub mod cpu;
pub mod fault;
pub mod flags;
pub mod joypad;
pub mod mem;
pub mod opscodes;
pub mod ppu;
pub mod render;
pub mod rendering;
pub mod utils;
