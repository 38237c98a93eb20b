//! Decoding and validation of the cartridge header of a Game Boy ROM image.
pub mod checksum;
pub mod rom;
