//! The cartridge: its program and pattern memory and how it is read from
//! an iNES image.

pub mod rom;
