//! What a cartridge is to the bus: its registers, its ROM and its RAM, and
//! what reads and writes in its three windows do.

use vstd::prelude::*;
use crate::cart::banks::rom_image;
use crate::cart::error::{CartridgeError, Controller, Feature};
use crate::cart::mbc1::{spec_bank_mask, Mbc1Regs};
use crate::cart::mbc2::Mbc2Regs;
use crate::cart::mbc3::Mbc3Regs;
use crate::cart::mbc5::Mbc5Regs;
use crate::cart::no_mbc::NoMbcRegs;

verus! {

/// The registers of a cartridge, by its kind of controller.
#[derive(Clone, Copy, Debug, PartialEq, Eq, Structural)]
pub enum CartRegs {
    Mbc1(Mbc1Regs),
    Mbc2(Mbc2Regs),
    Mbc3(Mbc3Regs),
    Mbc5(Mbc5Regs),
    NoMbc(NoMbcRegs),
}

/// A cartridge as a value: registers, ROM bytes and RAM bytes.
pub struct CartModel {
    pub regs: CartRegs,
    pub rom: Seq<u8>,
    pub ram: Seq<u8>,
}

impl CartRegs {
    pub open spec fn controller(self) -> Controller {
        match self {
            CartRegs::Mbc1(_) => Controller::Mbc1,
            CartRegs::Mbc2(_) => Controller::Mbc2,
            CartRegs::Mbc3(_) => Controller::Mbc3,
            CartRegs::Mbc5(_) => Controller::Mbc5,
            CartRegs::NoMbc(_) => Controller::NoMbc,
        }
    }

    /// Whether the controller supports this number of ROM banks.
    pub open spec fn accepts_rom(self, nbanks: u16) -> bool {
        match self {
            CartRegs::Mbc1(r) => r.accepts_rom(nbanks),
            CartRegs::Mbc2(r) => r.accepts_rom(nbanks),
            CartRegs::Mbc3(r) => r.accepts_rom(nbanks),
            CartRegs::Mbc5(r) => r.accepts_rom(nbanks),
            CartRegs::NoMbc(r) => r.accepts_rom(nbanks),
        }
    }

    /// Whether the controller supports this number of RAM banks.
    pub open spec fn accepts_ram(self, nbanks: u16) -> bool {
        match self {
            CartRegs::Mbc1(r) => r.accepts_ram(nbanks),
            CartRegs::Mbc2(r) => r.accepts_ram(nbanks),
            CartRegs::Mbc3(r) => r.accepts_ram(nbanks),
            CartRegs::Mbc5(r) => r.accepts_ram(nbanks),
            CartRegs::NoMbc(r) => r.accepts_ram(nbanks),
        }
    }

    /// The registers once the number of ROM banks is known.
    pub open spec fn with_rom_banks(self, nbanks: u16) -> Self {
        match self {
            CartRegs::Mbc1(r) => CartRegs::Mbc1(Mbc1Regs { mask: spec_bank_mask(nbanks), ..r }),
            _ => self,
        }
    }

    /// The RAM that the cartridge has once it is told to have `nbanks`
    /// banks, given what it had before.
    pub open spec fn ram_for(self, ram: Seq<u8>, nbanks: u16) -> Seq<u8> {
        match self {
            CartRegs::Mbc1(r) => r.ram_for(ram, nbanks),
            CartRegs::Mbc3(r) => r.ram_for(ram, nbanks),
            CartRegs::Mbc5(r) => r.ram_for(ram, nbanks),
            _ => ram,
        }
    }
}

impl CartModel {
    /// The cartridge with the image loaded, or why the image is refused: the
    /// controller does not support `nbanks` banks, or the image is longer
    /// than `nbanks` banks.
    pub open spec fn init_rom_banks(self, nbanks: u16, raw: Seq<u8>) -> Result<
        CartModel,
        CartridgeError,
    > {
        if !self.regs.accepts_rom(nbanks) {
            Err(
                CartridgeError::InvalidCombination {
                    controller: self.regs.controller(),
                    feat: Feature::RomBanks(nbanks),
                },
            )
        } else if raw.len() > nbanks * 0x4000 {
            Err(CartridgeError::OutOfRomBanks { nbanks, rom_size: (raw.len() / 1024) as usize })
        } else {
            Ok(
                CartModel {
                    regs: self.regs.with_rom_banks(nbanks),
                    rom: rom_image(raw, nbanks as int),
                    ..self
                },
            )
        }
    }

    /// The cartridge with its RAM sized, or why the size is refused.
    pub open spec fn init_ram_banks(self, nbanks: u16) -> Result<CartModel, CartridgeError> {
        if !self.regs.accepts_ram(nbanks) {
            Err(
                CartridgeError::InvalidCombination {
                    controller: self.regs.controller(),
                    feat: Feature::RamBanks(nbanks),
                },
            )
        } else {
            Ok(CartModel { ram: self.regs.ram_for(self.ram, nbanks), ..self })
        }
    }

    pub open spec fn rom0_read(self, addr: u16) -> u8 {
        match self.regs {
            CartRegs::Mbc1(r) => r.rom0_read(self.rom, addr),
            CartRegs::Mbc2(r) => r.rom0_read(self.rom, addr),
            CartRegs::Mbc3(r) => r.rom0_read(self.rom, addr),
            CartRegs::Mbc5(r) => r.rom0_read(self.rom, addr),
            CartRegs::NoMbc(r) => r.rom0_read(self.rom, addr),
        }
    }

    pub open spec fn romx_read(self, addr: u16) -> u8 {
        match self.regs {
            CartRegs::Mbc1(r) => r.romx_read(self.rom, addr),
            CartRegs::Mbc2(r) => r.romx_read(self.rom, addr),
            CartRegs::Mbc3(r) => r.romx_read(self.rom, addr),
            CartRegs::Mbc5(r) => r.romx_read(self.rom, addr),
            CartRegs::NoMbc(r) => r.romx_read(self.rom, addr),
        }
    }

    pub open spec fn sram_read(self, addr: u16) -> u8 {
        match self.regs {
            CartRegs::Mbc1(r) => r.sram_read(self.ram, addr),
            CartRegs::Mbc2(r) => r.sram_read(self.ram, addr),
            CartRegs::Mbc3(r) => r.sram_read(self.ram, addr),
            CartRegs::Mbc5(r) => r.sram_read(self.ram, addr),
            CartRegs::NoMbc(r) => r.sram_read(self.ram, addr),
        }
    }

    pub open spec fn rom0_write(self, addr: u16, val: u8) -> CartModel {
        match self.regs {
            CartRegs::Mbc1(r) => CartModel { regs: CartRegs::Mbc1(r.spec_write(addr, val)), ..self },
            CartRegs::Mbc2(r) => CartModel { regs: CartRegs::Mbc2(r.spec_write(addr, val)), ..self },
            CartRegs::Mbc3(r) => CartModel {
                regs: CartRegs::Mbc3(r.spec_rom0_write(addr, val)),
                ..self
            },
            CartRegs::Mbc5(r) => CartModel {
                regs: CartRegs::Mbc5(r.spec_rom0_write(addr, val)),
                ..self
            },
            CartRegs::NoMbc(r) => self,
        }
    }

    pub open spec fn romx_write(self, addr: u16, val: u8) -> CartModel {
        match self.regs {
            CartRegs::Mbc1(r) => CartModel { regs: CartRegs::Mbc1(r.spec_write(addr, val)), ..self },
            CartRegs::Mbc2(r) => self,
            CartRegs::Mbc3(r) => CartModel {
                regs: CartRegs::Mbc3(r.spec_romx_write(addr, val)),
                ..self
            },
            CartRegs::Mbc5(r) => CartModel {
                regs: CartRegs::Mbc5(r.spec_romx_write(addr, val)),
                ..self
            },
            CartRegs::NoMbc(r) => self,
        }
    }

    pub open spec fn sram_write(self, addr: u16, val: u8) -> CartModel {
        match self.regs {
            CartRegs::Mbc1(r) => CartModel { ram: r.sram_write(self.ram, addr, val), ..self },
            CartRegs::Mbc2(r) => CartModel { ram: r.sram_write(self.ram, addr, val), ..self },
            CartRegs::Mbc3(r) => CartModel {
                regs: CartRegs::Mbc3(r.sram_write_regs(addr, val)),
                ram: r.sram_write(self.ram, addr, val),
                ..self
            },
            CartRegs::Mbc5(r) => CartModel { ram: r.sram_write(self.ram, addr, val), ..self },
            CartRegs::NoMbc(r) => CartModel { ram: r.sram_write(self.ram, addr, val), ..self },
        }
    }
}

/// The interface of every cartridge controller. `model` is the cartridge as
/// a value; the reads and writes take any address of their window.
pub trait CartridgeTrait {
    spec fn model(&self) -> CartModel;

    fn init_rom_banks(&mut self, nbanks: u16, raw_rom: &Vec<u8>) -> (r: Result<
        (),
        CartridgeError,
    >)
        ensures
            match old(self).model().init_rom_banks(nbanks, raw_rom@) {
                Ok(m) => r is Ok && final(self).model() == m,
                Err(e) => r == Err::<(), CartridgeError>(e) && final(self).model() == old(
                    self,
                ).model(),
            },
    ;

    fn init_ram_banks(&mut self, nbanks: u16) -> (r: Result<(), CartridgeError>)
        ensures
            match old(self).model().init_ram_banks(nbanks) {
                Ok(m) => r is Ok && final(self).model() == m,
                Err(e) => r == Err::<(), CartridgeError>(e) && final(self).model() == old(
                    self,
                ).model(),
            },
    ;

    fn rom0_read(&self, addr: u16) -> (v: u8)
        requires
            addr <= 0x3FFF,
        ensures
            v == self.model().rom0_read(addr),
    ;

    fn romx_read(&self, addr: u16) -> (v: u8)
        requires
            0x4000 <= addr <= 0x7FFF,
        ensures
            v == self.model().romx_read(addr),
    ;

    fn sram_read(&self, addr: u16) -> (v: u8)
        requires
            0xA000 <= addr <= 0xBFFF,
        ensures
            v == self.model().sram_read(addr),
    ;

    fn rom0_write(&mut self, addr: u16, val: u8)
        requires
            addr <= 0x3FFF,
        ensures
            final(self).model() == old(self).model().rom0_write(addr, val),
    ;

    fn romx_write(&mut self, addr: u16, val: u8)
        requires
            0x4000 <= addr <= 0x7FFF,
        ensures
            final(self).model() == old(self).model().romx_write(addr, val),
    ;

    fn sram_write(&mut self, addr: u16, val: u8)
        requires
            0xA000 <= addr <= 0xBFFF,
        ensures
            final(self).model() == old(self).model().sram_write(addr, val),
    ;
}

} // verus!
