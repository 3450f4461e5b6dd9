//! MBC1: up to 128 ROM banks and up to 4 RAM banks, with a mode bit that
//! decides what the upper bank bits reach.

use vstd::prelude::*;
use crate::cart::banks::{fill, filled, load_banks, ram_byte, ram_store, read_ram, read_rom, rom_byte, write_ram, RAM_BANK_SIZE, ROM_BANK_SIZE};
use crate::cart::error::{CartridgeError, Controller, Feature};
use crate::cart::model::{CartModel, CartRegs, CartridgeTrait};

verus! {

#[derive(Clone, Copy, Debug, PartialEq, Eq, Structural)]
pub struct Mbc1Regs {
    pub has_ram: bool,
    /// 0: the upper bank bits reach the switchable ROM window only.
    /// Otherwise they also reach the fixed ROM window and the RAM.
    pub mode: u8,
    pub ram_enable: bool,
    /// The ROM bank number is cut to these bits.
    pub mask: u8,
    /// The lower five bits of the ROM bank number; never written as zero.
    pub bank_lo: u8,
    /// The upper two bits of the ROM bank number, or the RAM bank number.
    pub bank_hi: u8,
}

/// The bits that a bank number can have on a cartridge of `nbanks` banks:
/// all ones below the first power of two that is no less than `nbanks`.
pub open spec fn spec_bank_mask(nbanks: u16) -> u8 {
    if nbanks <= 1 {
        0x00
    } else if nbanks <= 2 {
        0x01
    } else if nbanks <= 4 {
        0x03
    } else if nbanks <= 8 {
        0x07
    } else if nbanks <= 16 {
        0x0F
    } else if nbanks <= 32 {
        0x1F
    } else if nbanks <= 64 {
        0x3F
    } else if nbanks <= 128 {
        0x7F
    } else {
        0xFF
    }
}

#[verifier::when_used_as_spec(spec_bank_mask)]
pub fn bank_mask(nbanks: u16) -> (m: u8)
    ensures
        m == spec_bank_mask(nbanks),
{
    if nbanks <= 1 {
        0x00
    } else if nbanks <= 2 {
        0x01
    } else if nbanks <= 4 {
        0x03
    } else if nbanks <= 8 {
        0x07
    } else if nbanks <= 16 {
        0x0F
    } else if nbanks <= 32 {
        0x1F
    } else if nbanks <= 64 {
        0x3F
    } else if nbanks <= 128 {
        0x7F
    } else {
        0xFF
    }
}

impl Mbc1Regs {
    pub open spec fn accepts_rom(self, nbanks: u16) -> bool {
        nbanks <= 128
    }

    pub open spec fn accepts_ram(self, nbanks: u16) -> bool {
        if self.has_ram {
            nbanks <= 4
        } else {
            nbanks == 0
        }
    }

    pub open spec fn ram_for(self, ram: Seq<u8>, nbanks: u16) -> Seq<u8> {
        if self.has_ram {
            filled(nbanks * 0x2000, 0)
        } else {
            ram
        }
    }

    /// The registers after a write into either ROM window. A lower bank
    /// number of zero becomes one.
    pub open spec fn spec_write(self, addr: u16, val: u8) -> Self {
        let r = if addr <= 0x1FFF {
            Mbc1Regs { ram_enable: val & 0x0F == 0x0A, ..self }
        } else if addr <= 0x3FFF {
            Mbc1Regs { bank_lo: val & 0x1F, ..self }
        } else if addr <= 0x5FFF {
            Mbc1Regs { bank_hi: val & 0x03, ..self }
        } else {
            Mbc1Regs { mode: val & 0x01, ..self }
        };
        if r.bank_lo == 0 {
            Mbc1Regs { bank_lo: 1, ..r }
        } else {
            r
        }
    }

    /// The bank in the fixed window: bank 0, or in the other mode the bank
    /// that the upper bits name, if the cartridge has it.
    pub open spec fn rom0_bank(self, rom: Seq<u8>) -> u8 {
        if self.mode != 0 && ((self.bank_hi << 5) as int) < rom.len() / 0x4000 {
            self.bank_hi << 5
        } else {
            0
        }
    }

    /// The bank in the switchable window.
    pub open spec fn romx_bank(self) -> u8 {
        ((self.bank_hi << 5) | self.bank_lo) & self.mask
    }

    pub open spec fn sram_bank(self) -> u8 {
        if self.mode != 0 {
            self.bank_hi
        } else {
            0
        }
    }

    pub open spec fn rom0_read(self, rom: Seq<u8>, addr: u16) -> u8 {
        rom_byte(rom, self.rom0_bank(rom) as int, addr as int)
    }

    pub open spec fn romx_read(self, rom: Seq<u8>, addr: u16) -> u8 {
        rom_byte(rom, self.romx_bank() as int, addr - 0x4000)
    }

    pub open spec fn sram_read(self, ram: Seq<u8>, addr: u16) -> u8 {
        if self.has_ram && self.ram_enable {
            ram_byte(ram, self.sram_bank() as int, addr - 0xA000)
        } else {
            0xFF
        }
    }

    pub open spec fn sram_write(self, ram: Seq<u8>, addr: u16, val: u8) -> Seq<u8> {
        if self.has_ram && self.ram_enable {
            ram_store(ram, self.sram_bank() as int, addr - 0xA000, val)
        } else {
            ram
        }
    }
}

pub struct Mbc1 {
    pub rom: Vec<u8>,
    pub ram: Vec<u8>,
    pub regs: Mbc1Regs,
}

impl Mbc1 {
    pub fn init(ram: bool) -> (c: Self)
        ensures
            c.regs == (Mbc1Regs {
                has_ram: ram,
                mode: 0,
                ram_enable: false,
                mask: 0,
                bank_lo: 1,
                bank_hi: 0,
            }),
            c.rom@ == Seq::<u8>::empty(),
            c.ram@ == Seq::<u8>::empty(),
    {
        Mbc1 {
            rom: Vec::new(),
            ram: Vec::new(),
            regs: Mbc1Regs {
                has_ram: ram,
                mode: 0,
                ram_enable: false,
                mask: 0,
                bank_lo: 1,
                bank_hi: 0,
            },
        }
    }

    fn rom_write(&mut self, addr: u16, val: u8)
        requires
            addr <= 0x7FFF,
        ensures
            final(self).regs == old(self).regs.spec_write(addr, val),
            final(self).rom == old(self).rom,
            final(self).ram == old(self).ram,
    {
        if addr <= 0x1FFF {
            self.regs.ram_enable = (val & 0x0F) == 0x0A;
        } else if addr <= 0x3FFF {
            self.regs.bank_lo = val & 0x1F;
        } else if addr <= 0x5FFF {
            self.regs.bank_hi = val & 0x03;
        } else {
            self.regs.mode = val & 0x01;
        }
        if self.regs.bank_lo == 0 {
            self.regs.bank_lo = 1;
        }
    }

    fn sram_bank(&self) -> (b: u8)
        ensures
            b == self.regs.sram_bank(),
    {
        if self.regs.mode != 0 {
            self.regs.bank_hi
        } else {
            0
        }
    }
}

impl CartridgeTrait for Mbc1 {
    open spec fn model(&self) -> CartModel {
        CartModel { regs: CartRegs::Mbc1(self.regs), rom: self.rom@, ram: self.ram@ }
    }

    fn init_rom_banks(&mut self, nbanks: u16, raw_rom: &Vec<u8>) -> (r: Result<(), CartridgeError>) {
        if nbanks > 128 {
            return Err(
                CartridgeError::InvalidCombination {
                    controller: Controller::Mbc1,
                    feat: Feature::RomBanks(nbanks),
                },
            );
        }
        if raw_rom.len() > (nbanks as usize) * ROM_BANK_SIZE {
            return Err(CartridgeError::OutOfRomBanks { nbanks, rom_size: raw_rom.len() / 1024 });
        }
        self.regs.mask = bank_mask(nbanks);
        self.rom = load_banks(nbanks, raw_rom);
        Ok(())
    }

    fn init_ram_banks(&mut self, nbanks: u16) -> (r: Result<(), CartridgeError>) {
        if (self.regs.has_ram && nbanks > 4) || (!self.regs.has_ram && nbanks != 0) {
            return Err(
                CartridgeError::InvalidCombination {
                    controller: Controller::Mbc1,
                    feat: Feature::RamBanks(nbanks),
                },
            );
        }
        if self.regs.has_ram {
            self.ram = fill((nbanks as usize) * RAM_BANK_SIZE, 0);
        }
        Ok(())
    }

    fn rom0_read(&self, addr: u16) -> (v: u8) {
        let rom_bank = self.regs.bank_hi << 5;
        let bank = if self.regs.mode != 0 && (rom_bank as usize) < self.rom.len() / ROM_BANK_SIZE {
            rom_bank
        } else {
            0
        };
        read_rom(&self.rom, bank as usize, addr as usize)
    }

    fn romx_read(&self, addr: u16) -> (v: u8) {
        let rom_bank = ((self.regs.bank_hi << 5) | self.regs.bank_lo) & self.regs.mask;
        read_rom(&self.rom, rom_bank as usize, (addr - 0x4000) as usize)
    }

    fn sram_read(&self, addr: u16) -> (v: u8) {
        if self.regs.has_ram && self.regs.ram_enable {
            read_ram(&self.ram, self.sram_bank() as usize, (addr - 0xA000) as usize)
        } else {
            0xFF
        }
    }

    fn rom0_write(&mut self, addr: u16, val: u8) {
        self.rom_write(addr, val);
    }

    fn romx_write(&mut self, addr: u16, val: u8) {
        self.rom_write(addr, val);
    }

    fn sram_write(&mut self, addr: u16, val: u8) {
        if self.regs.has_ram && self.regs.ram_enable {
            let bank = self.sram_bank();
            write_ram(&mut self.ram, bank as usize, (addr - 0xA000) as usize, val);
        }
    }
}

} // verus!
