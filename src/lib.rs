//! Decoder for cartridge images in the iNES container format.

pub mod rom;

pub use rom::{LoadError, Mirroring, Rom, RomHeader};
pub mod lemmas;
