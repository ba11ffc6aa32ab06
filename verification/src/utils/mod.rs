//! Tools for looking into a cartridge.

pub mod screen;
pub mod show_tile;
