//! Plain memory regions: work RAM, high RAM, OAM, VRAM and the unused window.

use vstd::prelude::*;
use vstd::array::spec_array_update;

verus! {

/// A region of the address space that answers reads and writes by itself.
///
/// `maps` says which bus addresses the region accepts, `peek` what a read
/// returns and `poke` what the region holds after a write.
pub trait MemoryUnit: Sized {
    spec fn maps(addr: u16) -> bool;

    spec fn peek(&self, addr: u16) -> u8;

    spec fn poke(self, addr: u16, val: u8) -> Self;

    /// A fresh region reads as zero everywhere.
    fn init() -> (m: Self)
        ensures
            forall|a: u16| Self::maps(a) ==> m.peek(a) == 0,
    ;

    fn read(&self, addr: u16) -> (v: u8)
        requires
            Self::maps(addr),
        ensures
            v == self.peek(addr),
    ;

    fn write(&mut self, addr: u16, val: u8)
        requires
            Self::maps(addr),
        ensures
            *final(self) == old(self).poke(addr, val),
    ;
}

/// Four KiB of zeros.
fn zeroed_page() -> (a: [u8; 0x1000])
    ensures
        forall|i: int| 0 <= i < 0x1000 ==> a[i] == 0,
{
    let mut a = [0u8; 0x1000];
    let mut i: usize = 0;
    while i < 0x1000
        invariant
            i <= 0x1000,
            forall|k: int| 0 <= k < i ==> a[k] == 0,
        decreases 0x1000 - i,
    {
        a[i] = 0;
        i += 1;
    }
    a
}

/// 127 bytes of zeros.
fn zeroed_high() -> (a: [u8; 0x7F])
    ensures
        forall|i: int| 0 <= i < 0x7F ==> a[i] == 0,
{
    let mut a = [0u8; 0x7F];
    let mut i: usize = 0;
    while i < 0x7F
        invariant
            i <= 0x7F,
            forall|k: int| 0 <= k < i ==> a[k] == 0,
        decreases 0x7F - i,
    {
        a[i] = 0;
        i += 1;
    }
    a
}

/// Work RAM bank 0, 4 KiB; the low twelve address bits select the byte.
pub struct WRam0 {
    pub bytes: [u8; 0x1000],
}

impl MemoryUnit for WRam0 {
    open spec fn maps(addr: u16) -> bool {
        true
    }

    open spec fn peek(&self, addr: u16) -> u8 {
        self.bytes[(addr % 0x1000) as int]
    }

    open spec fn poke(self, addr: u16, val: u8) -> Self {
        WRam0 { bytes: spec_array_update(self.bytes, (addr % 0x1000) as int, val) }
    }

    fn init() -> (m: Self) {
        WRam0 { bytes: zeroed_page() }
    }

    fn read(&self, addr: u16) -> (v: u8) {
        self.bytes[(addr % 0x1000) as usize]
    }

    fn write(&mut self, addr: u16, val: u8) {
        self.bytes[(addr % 0x1000) as usize] = val;
    }
}

/// Switchable work RAM bank, 4 KiB; this model has a single bank.
pub struct WRamX {
    pub bytes: [u8; 0x1000],
}

impl MemoryUnit for WRamX {
    open spec fn maps(addr: u16) -> bool {
        true
    }

    open spec fn peek(&self, addr: u16) -> u8 {
        self.bytes[(addr % 0x1000) as int]
    }

    open spec fn poke(self, addr: u16, val: u8) -> Self {
        WRamX { bytes: spec_array_update(self.bytes, (addr % 0x1000) as int, val) }
    }

    fn init() -> (m: Self) {
        WRamX { bytes: zeroed_page() }
    }

    fn read(&self, addr: u16) -> (v: u8) {
        self.bytes[(addr % 0x1000) as usize]
    }

    fn write(&mut self, addr: u16, val: u8) {
        self.bytes[(addr % 0x1000) as usize] = val;
    }
}

/// High RAM, 127 bytes at 0xFF80..=0xFFFE.
pub struct HRam {
    pub bytes: [u8; 0x7F],
}

impl MemoryUnit for HRam {
    open spec fn maps(addr: u16) -> bool {
        0xFF80 <= addr <= 0xFFFE
    }

    open spec fn peek(&self, addr: u16) -> u8 {
        self.bytes[addr - 0xFF80]
    }

    open spec fn poke(self, addr: u16, val: u8) -> Self {
        HRam { bytes: spec_array_update(self.bytes, addr - 0xFF80, val) }
    }

    fn init() -> (m: Self) {
        HRam { bytes: zeroed_high() }
    }

    fn read(&self, addr: u16) -> (v: u8) {
        self.bytes[(addr - 0xFF80) as usize]
    }

    fn write(&mut self, addr: u16, val: u8) {
        self.bytes[(addr - 0xFF80) as usize] = val;
    }
}

/// The unusable window 0xFEA0..=0xFEFF: reads give zero, writes are dropped.
pub struct Unused {
    pub bytes: [u8; 0x60],
}

impl MemoryUnit for Unused {
    open spec fn maps(addr: u16) -> bool {
        true
    }

    open spec fn peek(&self, addr: u16) -> u8 {
        0
    }

    open spec fn poke(self, addr: u16, val: u8) -> Self {
        self
    }

    fn init() -> (m: Self)
        ensures
            forall|i: int| 0 <= i < 0x60 ==> m.bytes[i] == 0,
    {
        Unused { bytes: [0; 0x60] }
    }

    fn read(&self, addr: u16) -> (v: u8) {
        0
    }

    fn write(&mut self, addr: u16, val: u8) {
    }
}

/// Object attribute memory, 160 bytes; the low address byte selects the byte.
pub struct Oam {
    pub bytes: [u8; 0xA0],
}

impl Oam {
    pub open spec fn maps(addr: u16) -> bool {
        addr % 0x100 < 0xA0
    }

    pub open spec fn peek(&self, addr: u16) -> u8 {
        self.bytes[(addr % 0x100) as int]
    }

    pub open spec fn poke(self, addr: u16, val: u8) -> Self {
        Oam { bytes: spec_array_update(self.bytes, (addr % 0x100) as int, val) }
    }

    pub fn init() -> (m: Self)
        ensures
            forall|i: int| 0 <= i < 0xA0 ==> m.bytes[i] == 0,
    {
        Oam { bytes: [0; 0xA0] }
    }

    pub fn read(&self, addr: u16) -> (v: u8)
        requires
            Self::maps(addr),
        ensures
            v == self.peek(addr),
    {
        self.bytes[(addr % 0x100) as usize]
    }

    pub fn write(&mut self, addr: u16, val: u8)
        requires
            Self::maps(addr),
        ensures
            *final(self) == old(self).poke(addr, val),
    {
        self.bytes[(addr % 0x100) as usize] = val;
    }
}

/// Video RAM, 8 KiB; the low thirteen address bits select the byte.
pub struct VRam {
    pub bytes: [u8; 0x2000],
}

impl VRam {
    pub open spec fn peek(&self, addr: u16) -> u8 {
        self.bytes[(addr % 0x2000) as int]
    }

    pub open spec fn poke(self, addr: u16, val: u8) -> Self {
        VRam { bytes: spec_array_update(self.bytes, (addr % 0x2000) as int, val) }
    }

    pub fn init() -> (m: Self)
        ensures
            forall|i: int| 0 <= i < 0x2000 ==> m.bytes[i] == 0,
    {
        VRam { bytes: [0; 0x2000] }
    }

    pub fn read(&self, addr: u16) -> (v: u8)
        ensures
            v == self.peek(addr),
    {
        self.bytes[(addr % 0x2000) as usize]
    }

    pub fn write(&mut self, addr: u16, val: u8)
        ensures
            *final(self) == old(self).poke(addr, val),
    {
        self.bytes[(addr % 0x2000) as usize] = val;
    }
}

/// A byte written to a region is read back from the same address, and every
/// address that selects another byte keeps its value.
pub proof fn lemma_wram0_write_read(m: WRam0, addr: u16, val: u8, other: u16)
    ensures
        m.poke(addr, val).peek(addr) == val,
        other % 0x1000 != addr % 0x1000 ==> m.poke(addr, val).peek(other) == m.peek(other),
{
    broadcast use vstd::array::axiom_spec_array_update;
    broadcast use vstd::array::lemma_array_index;
}

} // verus!
