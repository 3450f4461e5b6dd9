//! The cartridge header at 0x0100..0x0150 and the loading of an image.

use vstd::prelude::*;
use crate::cart::error::CartridgeError;
use crate::cart::model::{CartModel, CartridgeTrait};
use crate::cart::{boxed_cartridge, spec_boxed_cartridge, CartridgeEnum};

verus! {

pub const TITLE_START: usize = 0x0134;

pub const TITLE_END: usize = 0x0142;

pub const CGB_FLAG: usize = 0x0143;

pub const SGB_FLAG: usize = 0x0146;

pub const CARTRIDGE_TYPE: usize = 0x0147;

pub const ROM_SIZE: usize = 0x0148;

pub const RAM_SIZE: usize = 0x0149;

pub const HEADER_CHECKSUM: usize = 0x014D;

pub const HEADER_END: usize = 0x0150;

/// The sum of `raw[from..to]`, each byte counted one higher.
pub open spec fn sum_plus_one(raw: Seq<u8>, from: int, to: int) -> int
    decreases to - from,
{
    if from >= to {
        0
    } else {
        sum_plus_one(raw, from, to - 1) + raw[to - 1] + 1
    }
}

/// The header checksum: starting from zero, every byte of 0x0134..=0x014C
/// and one more is subtracted, in eight bits.
pub open spec fn spec_header_checksum(raw: Seq<u8>) -> u8 {
    ((-sum_plus_one(raw, 0x0134, 0x014D)) % 256) as u8
}

/// The number of ROM banks for a size code: `2 << code`, as far as it can
/// be counted in sixteen bits.
pub open spec fn spec_rom_banks(code: u8) -> Option<u16> {
    if code <= 14 {
        Some(2u16 << (code as u16))
    } else {
        None
    }
}

/// The number of RAM banks for a size code.
pub open spec fn spec_ram_banks(code: u8) -> Option<u16> {
    match code {
        0x00 => Some(0),
        0x01 | 0x02 => Some(1),
        0x03 => Some(4),
        0x04 => Some(16),
        0x05 => Some(8),
        _ => None,
    }
}

/// The cartridge that an image stands for, or why the image is refused.
/// The checks come in this order: the header is there; the image is not
/// for the colour model only; the type is supported; the ROM size can be
/// counted, suits the controller and holds the image; the RAM size is
/// known and suits the controller; the header checksum matches.
pub open spec fn spec_load_rom(raw: Seq<u8>) -> Result<CartModel, CartridgeError> {
    if raw.len() < 0x0150 {
        Err(CartridgeError::TruncatedHeader { len: raw.len() as usize })
    } else if raw[0x0143] == 0xC0 {
        Err(CartridgeError::CgbOnly)
    } else {
        match spec_boxed_cartridge(raw[0x0147]) {
            None => Err(CartridgeError::InvalidType { tp: raw[0x0147] }),
            Some(blank) => match spec_rom_banks(raw[0x0148]) {
                None => Err(CartridgeError::InvalidRomSize { code: raw[0x0148] }),
                Some(rom_banks) => match blank.init_rom_banks(rom_banks, raw) {
                    Err(e) => Err(e),
                    Ok(with_rom) => match spec_ram_banks(raw[0x0149]) {
                        None => Err(CartridgeError::InvalidRamSize { code: raw[0x0149] }),
                        Some(ram_banks) => match with_rom.init_ram_banks(ram_banks) {
                            Err(e) => Err(e),
                            Ok(cart) => if spec_header_checksum(raw) != raw[0x014D] {
                                Err(
                                    CartridgeError::ChecksumMismatch {
                                        computed: spec_header_checksum(raw),
                                        stored: raw[0x014D],
                                    },
                                )
                            } else {
                                Ok(cart)
                            },
                        },
                    },
                },
            },
        }
    }
}

pub fn header_checksum(raw_rom: &Vec<u8>) -> (sum: u8)
    requires
        raw_rom@.len() >= 0x0150,
    ensures
        sum == spec_header_checksum(raw_rom@),
{
    let mut checksum: u8 = 0;
    let mut addr: usize = TITLE_START;
    while addr < HEADER_CHECKSUM
        invariant
            0x0134 <= addr <= 0x014D,
            raw_rom@.len() >= 0x0150,
            checksum as int == (-sum_plus_one(raw_rom@, 0x0134, addr as int)) % 256,
        decreases 0x014D - addr,
    {
        checksum = checksum.wrapping_sub(raw_rom[addr]).wrapping_sub(1);
        addr += 1;
    }
    checksum
}

#[verifier::when_used_as_spec(spec_rom_banks)]
pub fn rom_banks(code: u8) -> (n: Option<u16>)
    ensures
        n == spec_rom_banks(code),
{
    if code <= 14 {
        Some(2u16 << (code as u16))
    } else {
        None
    }
}

#[verifier::when_used_as_spec(spec_ram_banks)]
pub fn ram_banks(code: u8) -> (n: Option<u16>)
    ensures
        n == spec_ram_banks(code),
{
    match code {
        0x00 => Some(0),
        0x01 | 0x02 => Some(1),
        0x03 => Some(4),
        0x04 => Some(16),
        0x05 => Some(8),
        _ => None,
    }
}

/// Reads the header of a cartridge image and sets up the cartridge that it
/// describes.
pub fn load_rom(raw_rom: &Vec<u8>) -> (r: Result<CartridgeEnum, CartridgeError>)
    ensures
        match spec_load_rom(raw_rom@) {
            Ok(m) => r matches Ok(c) && c.model() == m,
            Err(e) => r matches Err(f) && f == e,
        },
{
    if raw_rom.len() < HEADER_END {
        return Err(CartridgeError::TruncatedHeader { len: raw_rom.len() });
    }
    if raw_rom[CGB_FLAG] == 0xC0 {
        return Err(CartridgeError::CgbOnly);
    }
    let mut rom = match boxed_cartridge(raw_rom[CARTRIDGE_TYPE]) {
        Ok(cart) => cart,
        Err(e) => return Err(e),
    };
    let rom_banks = match rom_banks(raw_rom[ROM_SIZE]) {
        Some(n) => n,
        None => return Err(CartridgeError::InvalidRomSize { code: raw_rom[ROM_SIZE] }),
    };
    match rom.init_rom_banks(rom_banks, raw_rom) {
        Ok(()) => {},
        Err(e) => return Err(e),
    }
    let ram_banks = match ram_banks(raw_rom[RAM_SIZE]) {
        Some(n) => n,
        None => return Err(CartridgeError::InvalidRamSize { code: raw_rom[RAM_SIZE] }),
    };
    match rom.init_ram_banks(ram_banks) {
        Ok(()) => {},
        Err(e) => return Err(e),
    }
    let checksum = header_checksum(raw_rom);
    let header_checksum = raw_rom[HEADER_CHECKSUM];
    if checksum != header_checksum {
        return Err(CartridgeError::ChecksumMismatch { computed: checksum, stored: header_checksum });
    }
    Ok(rom)
}

} // verus!
