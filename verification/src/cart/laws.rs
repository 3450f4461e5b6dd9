//! What holds of every cartridge.

use vstd::prelude::*;
use crate::cart::banks::{ram_index, rom_byte, rom_image};
use crate::cart::mbc1::spec_bank_mask;
use crate::cart::mbc3::Mbc3Target;
use crate::cart::model::{CartModel, CartRegs};

verus! {

impl CartModel {
    /// The RAM byte that an address of the RAM window reaches, if it
    /// reaches one: the cartridge has RAM, the RAM is enabled where there
    /// is a latch for it, the window is not switched to the clock, and the
    /// selected bank exists.
    pub open spec fn sram_cell(self, addr: u16) -> Option<int> {
        match self.regs {
            CartRegs::NoMbc(r) => if r.has_ram {
                ram_index(self.ram, 0, addr - 0xA000)
            } else {
                None
            },
            CartRegs::Mbc1(r) => if r.has_ram && r.ram_enable {
                ram_index(self.ram, r.sram_bank() as int, addr - 0xA000)
            } else {
                None
            },
            CartRegs::Mbc2(r) => if r.ram_enable && addr % 0x200 < self.ram.len() {
                Some((addr % 0x200) as int)
            } else {
                None
            },
            CartRegs::Mbc3(r) => match r.spec_target() {
                Mbc3Target::Ram(bank) => ram_index(self.ram, bank as int, addr - 0xA000),
                _ => None,
            },
            CartRegs::Mbc5(r) => if r.has_ram && r.ram_enable {
                ram_index(self.ram, r.ram_bank as int, addr - 0xA000)
            } else {
                None
            },
        }
    }

    /// Whether the RAM window is switched to a clock register.
    pub open spec fn sram_is_clock(self) -> bool {
        self.regs matches CartRegs::Mbc3(r) && r.spec_target() == Mbc3Target::Clock
    }
}

/// Which numbers of ROM banks and of RAM banks each controller takes:
/// without controller, two ROM banks and at most one RAM bank; MBC1 and
/// MBC3, up to 128 ROM banks and up to 4 RAM banks; MBC2, up to 16 ROM
/// banks and no RAM banks; MBC5, up to 512 ROM banks and 1, 4 or 16 RAM
/// banks. A cartridge without RAM takes no RAM banks. An image is taken if
/// it is no longer than the ROM banks. Nothing else is refused.
pub proof fn lemma_supported_combinations(
    m: CartModel,
    rom_banks: u16,
    ram_banks: u16,
    raw: Seq<u8>,
)
    ensures
        m.init_rom_banks(rom_banks, raw) is Ok <==> raw.len() <= rom_banks * 0x4000 && match m.regs {
            CartRegs::NoMbc(_) => rom_banks == 2,
            CartRegs::Mbc1(_) => rom_banks <= 128,
            CartRegs::Mbc2(_) => rom_banks <= 16,
            CartRegs::Mbc3(_) => rom_banks <= 128,
            CartRegs::Mbc5(_) => rom_banks <= 512,
        },
        m.init_ram_banks(ram_banks) is Ok <==> match m.regs {
            CartRegs::NoMbc(r) => ram_banks <= (if r.has_ram {
                1int
            } else {
                0int
            }),
            CartRegs::Mbc1(r) => ram_banks <= (if r.has_ram {
                4int
            } else {
                0int
            }),
            CartRegs::Mbc2(_) => ram_banks == 0,
            CartRegs::Mbc3(r) => ram_banks <= (if r.has_ram {
                4int
            } else {
                0int
            }),
            CartRegs::Mbc5(r) => if r.has_ram {
                ram_banks == 1 || ram_banks == 4 || ram_banks == 16
            } else {
                ram_banks == 0
            },
        },
        m.init_rom_banks(rom_banks, raw) matches Ok(c) ==> c.rom == rom_image(raw, rom_banks as int)
            && c.ram == m.ram,
        m.init_ram_banks(ram_banks) matches Ok(c) ==> c.rom == m.rom && c.regs == m.regs,
{
}

/// A byte written to external RAM is read back from the same address
/// exactly where the address reaches a RAM byte; MBC2 keeps the low nibble
/// only and reads the high one as ones. Where the address reaches nothing,
/// the write is dropped and the read gives 0xFF.
pub proof fn lemma_sram_read_back(m: CartModel, addr: u16, val: u8)
    requires
        0xA000 <= addr <= 0xBFFF,
    ensures
        m.sram_cell(addr) is Some ==> m.sram_write(addr, val).sram_read(addr) == (if m.regs is Mbc2 {
            val | 0xF0
        } else {
            val
        }),
        m.sram_cell(addr) is None && !m.sram_is_clock() ==> m.sram_write(addr, val) == m
            && m.sram_read(addr) == 0xFF,
        m.sram_write(addr, val).rom == m.rom,
{
    match m.regs {
        CartRegs::Mbc3(r) => {
            assert(m.sram_write(addr, val).regs == CartRegs::Mbc3(r.sram_write_regs(addr, val)));
            assert(r.sram_write_regs(addr, val).spec_target() == r.spec_target());
        },
        _ => {},
    }
    if m.sram_cell(addr) is None && !m.sram_is_clock() {
        assert(m.sram_write(addr, val).ram =~= m.ram);
    }
}

/// On an MBC1 whose upper bank bits hold the upper bits of `bank`, a write
/// of `bank` to 0x2000..=0x3FFF puts into the switchable window the bank
/// whose number is `bank` cut to the cartridge's bank mask, provided that
/// the low five bits of `bank` are not all zero.
pub proof fn lemma_mbc1_bank_select(m: CartModel, nbanks: u16, bank: u8, target: u16, addr: u16)
    requires
        m.regs matches CartRegs::Mbc1(r) && r.mask == spec_bank_mask(nbanks) && r.bank_hi == bank
            >> 5,
        1 <= bank <= nbanks,
        bank & 0x1F != 0,
        0x2000 <= target <= 0x3FFF,
        0x4000 <= addr <= 0x7FFF,
    ensures
        m.rom0_write(target, bank).romx_read(addr) == rom_byte(
            m.rom,
            (bank & spec_bank_mask(nbanks)) as int,
            addr - 0x4000,
        ),
{
    let h = bank >> 5;
    assert(((h << 5) | (bank & 0x1F)) == bank) by (bit_vector)
        requires
            h == bank >> 5,
    ;
}

/// A write of zero to the ROM bank register of an MBC1, MBC2 or MBC3
/// selects bank 1; on an MBC5 it selects bank 0.
pub proof fn lemma_bank_zero(m: CartModel, target: u16)
    requires
        0x2000 <= target <= 0x2FFF,
        target & 0x0100 != 0,
    ensures
        match m.rom0_write(target, 0).regs {
            CartRegs::Mbc1(r) => r.bank_lo == 1,
            CartRegs::Mbc2(r) => r.bank == 1,
            CartRegs::Mbc3(r) => r.rom_bank == 1,
            CartRegs::Mbc5(r) => r.rom_bank_lo == 0,
            CartRegs::NoMbc(_) => true,
        },
{
    assert(0u8 & 0x1F == 0 && 0u8 & 0x0F == 0 && 0u8 & 0x7F == 0) by (bit_vector);
}

} // verus!
