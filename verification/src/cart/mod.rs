//! Cartridge controllers and the cartridge header.

use vstd::prelude::*;
use crate::cart::banks::filled;
use crate::cart::error::CartridgeError;
use crate::cart::mbc1::{Mbc1, Mbc1Regs};
use crate::cart::mbc2::{Mbc2, Mbc2Regs};
use crate::cart::mbc3::{Mbc3, Mbc3Regs, Rtc};
use crate::cart::mbc5::{Mbc5, Mbc5Regs};
use crate::cart::model::{CartModel, CartRegs, CartridgeTrait};
use crate::cart::no_mbc::{NoMbc, NoMbcRegs};

pub mod banks;
pub mod error;
pub mod header;
pub mod laws;
pub mod mbc1;
pub mod mbc2;
pub mod mbc3;
pub mod mbc5;
pub mod model;
pub mod no_mbc;

verus! {

/// A cartridge of any of the five kinds.
pub enum CartridgeEnum {
    Mbc1(Mbc1),
    Mbc2(Mbc2),
    Mbc3(Mbc3),
    Mbc5(Mbc5),
    NoMbc(NoMbc),
}

impl CartridgeTrait for CartridgeEnum {
    open spec fn model(&self) -> CartModel {
        match self {
            CartridgeEnum::Mbc1(c) => c.model(),
            CartridgeEnum::Mbc2(c) => c.model(),
            CartridgeEnum::Mbc3(c) => c.model(),
            CartridgeEnum::Mbc5(c) => c.model(),
            CartridgeEnum::NoMbc(c) => c.model(),
        }
    }

    fn init_rom_banks(&mut self, nbanks: u16, raw_rom: &Vec<u8>) -> (r: Result<(), CartridgeError>) {
        match self {
            CartridgeEnum::Mbc1(c) => c.init_rom_banks(nbanks, raw_rom),
            CartridgeEnum::Mbc2(c) => c.init_rom_banks(nbanks, raw_rom),
            CartridgeEnum::Mbc3(c) => c.init_rom_banks(nbanks, raw_rom),
            CartridgeEnum::Mbc5(c) => c.init_rom_banks(nbanks, raw_rom),
            CartridgeEnum::NoMbc(c) => c.init_rom_banks(nbanks, raw_rom),
        }
    }

    fn init_ram_banks(&mut self, nbanks: u16) -> (r: Result<(), CartridgeError>) {
        match self {
            CartridgeEnum::Mbc1(c) => c.init_ram_banks(nbanks),
            CartridgeEnum::Mbc2(c) => c.init_ram_banks(nbanks),
            CartridgeEnum::Mbc3(c) => c.init_ram_banks(nbanks),
            CartridgeEnum::Mbc5(c) => c.init_ram_banks(nbanks),
            CartridgeEnum::NoMbc(c) => c.init_ram_banks(nbanks),
        }
    }

    fn rom0_read(&self, addr: u16) -> (v: u8) {
        match self {
            CartridgeEnum::Mbc1(c) => c.rom0_read(addr),
            CartridgeEnum::Mbc2(c) => c.rom0_read(addr),
            CartridgeEnum::Mbc3(c) => c.rom0_read(addr),
            CartridgeEnum::Mbc5(c) => c.rom0_read(addr),
            CartridgeEnum::NoMbc(c) => c.rom0_read(addr),
        }
    }

    fn romx_read(&self, addr: u16) -> (v: u8) {
        match self {
            CartridgeEnum::Mbc1(c) => c.romx_read(addr),
            CartridgeEnum::Mbc2(c) => c.romx_read(addr),
            CartridgeEnum::Mbc3(c) => c.romx_read(addr),
            CartridgeEnum::Mbc5(c) => c.romx_read(addr),
            CartridgeEnum::NoMbc(c) => c.romx_read(addr),
        }
    }

    fn sram_read(&self, addr: u16) -> (v: u8) {
        match self {
            CartridgeEnum::Mbc1(c) => c.sram_read(addr),
            CartridgeEnum::Mbc2(c) => c.sram_read(addr),
            CartridgeEnum::Mbc3(c) => c.sram_read(addr),
            CartridgeEnum::Mbc5(c) => c.sram_read(addr),
            CartridgeEnum::NoMbc(c) => c.sram_read(addr),
        }
    }

    fn rom0_write(&mut self, addr: u16, val: u8) {
        match self {
            CartridgeEnum::Mbc1(c) => c.rom0_write(addr, val),
            CartridgeEnum::Mbc2(c) => c.rom0_write(addr, val),
            CartridgeEnum::Mbc3(c) => c.rom0_write(addr, val),
            CartridgeEnum::Mbc5(c) => c.rom0_write(addr, val),
            CartridgeEnum::NoMbc(c) => c.rom0_write(addr, val),
        }
    }

    fn romx_write(&mut self, addr: u16, val: u8) {
        match self {
            CartridgeEnum::Mbc1(c) => c.romx_write(addr, val),
            CartridgeEnum::Mbc2(c) => c.romx_write(addr, val),
            CartridgeEnum::Mbc3(c) => c.romx_write(addr, val),
            CartridgeEnum::Mbc5(c) => c.romx_write(addr, val),
            CartridgeEnum::NoMbc(c) => c.romx_write(addr, val),
        }
    }

    fn sram_write(&mut self, addr: u16, val: u8) {
        match self {
            CartridgeEnum::Mbc1(c) => c.sram_write(addr, val),
            CartridgeEnum::Mbc2(c) => c.sram_write(addr, val),
            CartridgeEnum::Mbc3(c) => c.sram_write(addr, val),
            CartridgeEnum::Mbc5(c) => c.sram_write(addr, val),
            CartridgeEnum::NoMbc(c) => c.sram_write(addr, val),
        }
    }
}

/// An MBC1 as `Mbc1::init` makes it.
pub open spec fn fresh_mbc1(has_ram: bool) -> CartModel {
    CartModel {
        regs: CartRegs::Mbc1(
            Mbc1Regs { has_ram, mode: 0, ram_enable: false, mask: 0, bank_lo: 1, bank_hi: 0 },
        ),
        rom: Seq::empty(),
        ram: Seq::empty(),
    }
}

/// An MBC2 as `Mbc2::init` makes it.
pub open spec fn fresh_mbc2() -> CartModel {
    CartModel {
        regs: CartRegs::Mbc2(Mbc2Regs { ram_enable: false, bank: 1 }),
        rom: Seq::empty(),
        ram: filled(512, 0xF0),
    }
}

/// An MBC3 as `Mbc3::init` makes it.
pub open spec fn fresh_mbc3(has_ram: bool, has_rtc: bool) -> CartModel {
    CartModel {
        regs: CartRegs::Mbc3(
            Mbc3Regs {
                has_ram,
                has_rtc,
                rom_bank: 1,
                ram_rtc_sel: 0,
                ram_enable: false,
                rtc: Rtc {
                    sec: 0,
                    min: 0,
                    hour: 0,
                    day_lo: 0,
                    day_hi: 0,
                    latch_sec: 0,
                    latch_min: 0,
                    latch_hour: 0,
                    latch_day_lo: 0,
                    latch_day_hi: 0,
                    last_latch_val: 1,
                },
            },
        ),
        rom: Seq::empty(),
        ram: Seq::empty(),
    }
}

/// An MBC5 as `Mbc5::init` makes it.
pub open spec fn fresh_mbc5(has_ram: bool, has_rumble: bool) -> CartModel {
    CartModel {
        regs: CartRegs::Mbc5(
            Mbc5Regs {
                has_ram,
                has_rumble,
                rom_bank_lo: 0,
                rom_bank_hi: 0,
                ram_bank: 0,
                ram_enable: false,
            },
        ),
        rom: Seq::empty(),
        ram: Seq::empty(),
    }
}

/// A cartridge without controller as `NoMbc::init` makes it.
pub open spec fn fresh_no_mbc(has_ram: bool) -> CartModel {
    CartModel {
        regs: CartRegs::NoMbc(NoMbcRegs { has_ram }),
        rom: Seq::empty(),
        ram: if has_ram {
            filled(0x2000, 0)
        } else {
            Seq::empty()
        },
    }
}

/// The cartridge that the header's type byte stands for, before its banks
/// are set up; `None` for a type that is not supported.
pub open spec fn spec_boxed_cartridge(code: u8) -> Option<CartModel> {
    match code {
        0x00 => Some(fresh_no_mbc(false)),
        0x01 => Some(fresh_mbc1(false)),
        0x02 | 0x03 => Some(fresh_mbc1(true)),
        0x05 | 0x06 => Some(fresh_mbc2()),
        0x08 | 0x09 => Some(fresh_no_mbc(true)),
        0x0F => Some(fresh_mbc3(false, true)),
        0x10 => Some(fresh_mbc3(true, true)),
        0x11 => Some(fresh_mbc3(false, false)),
        0x12 | 0x13 => Some(fresh_mbc3(true, false)),
        0x19 => Some(fresh_mbc5(false, false)),
        0x1A | 0x1B => Some(fresh_mbc5(true, false)),
        0x1C => Some(fresh_mbc5(false, true)),
        0x1D | 0x1E => Some(fresh_mbc5(true, true)),
        _ => None,
    }
}

/// The cartridge for a header's type byte. A battery makes no difference
/// to the core, so the types that differ by it share a cartridge.
pub fn boxed_cartridge(code: u8) -> (r: Result<CartridgeEnum, CartridgeError>)
    ensures
        match spec_boxed_cartridge(code) {
            Some(m) => r matches Ok(c) && c.model() == m,
            None => r matches Err(e) && e == (CartridgeError::InvalidType { tp: code }),
        },
{
    Ok(
        match code {
            0x00 => CartridgeEnum::NoMbc(NoMbc::init(false)),
            0x01 => CartridgeEnum::Mbc1(Mbc1::init(false)),
            0x02 | 0x03 => CartridgeEnum::Mbc1(Mbc1::init(true)),
            0x05 | 0x06 => CartridgeEnum::Mbc2(Mbc2::init()),
            0x08 | 0x09 => CartridgeEnum::NoMbc(NoMbc::init(true)),
            0x0F => CartridgeEnum::Mbc3(Mbc3::init(false, true)),
            0x10 => CartridgeEnum::Mbc3(Mbc3::init(true, true)),
            0x11 => CartridgeEnum::Mbc3(Mbc3::init(false, false)),
            0x12 | 0x13 => CartridgeEnum::Mbc3(Mbc3::init(true, false)),
            0x19 => CartridgeEnum::Mbc5(Mbc5::init(false, false)),
            0x1A | 0x1B => CartridgeEnum::Mbc5(Mbc5::init(true, false)),
            0x1C => CartridgeEnum::Mbc5(Mbc5::init(false, true)),
            0x1D | 0x1E => CartridgeEnum::Mbc5(Mbc5::init(true, true)),
            val => return Err(CartridgeError::InvalidType { tp: val }),
        },
    )
}

} // verus!
