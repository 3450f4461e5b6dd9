//! Why a cartridge image is refused.

use vstd::prelude::*;

verus! {

/// The five kinds of cartridge controller.
#[derive(Clone, Copy, Debug, PartialEq, Eq, Structural)]
pub enum Controller {
    NoMbc,
    Mbc1,
    Mbc2,
    Mbc3,
    Mbc5,
}

/// What a controller was asked for and does not offer.
#[derive(Clone, Copy, Debug, PartialEq, Eq, Structural)]
pub enum Feature {
    /// This many banks of ROM.
    RomBanks(u16),
    /// This many banks of external RAM.
    RamBanks(u16),
}

#[derive(Clone, Copy, Debug, PartialEq, Eq, Structural)]
pub enum CartridgeError {
    /// The header names a cartridge type that is not supported.
    InvalidType { tp: u8 },
    /// The controller does not support what the header asks for.
    InvalidCombination { controller: Controller, feat: Feature },
    /// The image is longer than the banks that the header declares;
    /// `rom_size` is the image's length in KiB.
    OutOfRomBanks { nbanks: u16, rom_size: usize },
    /// The image is shorter than a cartridge header.
    TruncatedHeader { len: usize },
    /// The image runs on the colour model only.
    CgbOnly,
    /// The ROM size code stands for more banks than can be counted.
    InvalidRomSize { code: u8 },
    /// The RAM size code is not one of the six known ones.
    InvalidRamSize { code: u8 },
    /// The header checksum does not match the header.
    ChecksumMismatch { computed: u8, stored: u8 },
}

} // verus!
