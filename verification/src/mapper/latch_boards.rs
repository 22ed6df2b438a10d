//! More latch boards: the NSF-style 4 KiB banker (31), Oeka Kids (96),
//! NINA-03/06 (113), Caltron 6-in-1 (41), Color Dreams 46 and the VS
//! 8 KiB/4 KiB register file (151).

use vstd::prelude::*;

verus! {

use crate::mapper::latch::{lo13, chr_off};
use crate::mapper::multicart2::{bit_set, hv};
use crate::mapper::{max1, MAX_PRG_16K};
use crate::types::Mirroring;

// ------------------------------------------------------------ Mapper 31

/// Eight 4 KiB PRG registers written at `$5000-$5FFF` (`addr & 7`); the last
/// powers up as `$FF`.
#[derive(Debug, Clone, Copy)]
pub struct Mapper31 {
    pub regs: [u8; 8],
}

impl Mapper31 {
    pub fn new() -> (r: Self)
        ensures r.regs@ == seq![0u8, 0, 0, 0, 0, 0, 0, 0xFF],
    {
        let r = Mapper31 { regs: [0u8, 0, 0, 0, 0, 0, 0, 0xFF] };
        assert(r.regs@ =~= seq![0u8, 0, 0, 0, 0, 0, 0, 0xFF]);
        r
    }

    #[verifier::allow_in_spec]
    pub fn prg_index(&self, addr: u16) -> usize
        requires addr >= 0x8000,
        returns (self.regs@[((addr - 0x8000) / 0x1000) as int] * 0x1000 + addr % 0x1000) as usize,
    {
        (self.regs[((addr - 0x8000) / 0x1000) as usize] as usize) * 0x1000 + (addr % 0x1000) as usize
    }

    #[verifier::allow_in_spec]
    pub fn chr_index(&self, addr: u16) -> usize
        returns lo13(addr) as usize,
    {
        chr_off(addr)
    }

    pub open spec fn expansion_wrote(o: Self, n: Self, addr: u16, value: u8) -> bool {
        n.regs@ == if 0x5000 <= addr <= 0x5FFF { o.regs@.update((addr % 8) as int, value) } else { o.regs@ }
    }

    pub fn write_expansion(&mut self, addr: u16, value: u8)
        ensures Self::expansion_wrote(*old(self), *final(self), addr, value),
    {
        if 0x5000 <= addr && addr <= 0x5FFF {
            self.regs[(addr % 8) as usize] = value;
        }
    }

    #[verifier::allow_in_spec]
    pub fn mirroring(&self) -> Mirroring
        returns Mirroring::Vertical,
    {
        Mirroring::Vertical
    }
}

// ------------------------------------------------------------ Mapper 96

/// Bandai Oeka Kids: a 32 KiB PRG bank and a CHR half-select in the
/// register, with the low 4 KiB CHR bank latched from the nametable address
/// the PPU last fetched.
#[derive(Debug, Clone, Copy)]
pub struct Mapper96 {
    pub reg: u8,
    pub ppu_latch: u8,
}

impl Mapper96 {
    pub open spec fn wf(&self) -> bool {
        self.ppu_latch < 4
    }

    pub fn new() -> (r: Self)
        ensures r == (Mapper96 { reg: 0, ppu_latch: 0 }), r.wf(),
    {
        Mapper96 { reg: 0, ppu_latch: 0 }
    }

    #[verifier::allow_in_spec]
    pub fn prg_index(&self, addr: u16) -> usize
        requires addr >= 0x8000,
        returns ((self.reg % 4) as int * 0x8000 + (addr - 0x8000)) as usize,
    {
        ((self.reg % 4) as usize) * 0x8000 + (addr - 0x8000) as usize
    }

    /// `$0000-$0FFF`: bank `(reg & 4) | latch`; `$1000-$1FFF`: bank
    /// `(reg & 4) | 3`.
    pub open spec fn chr_bank(self, addr: u16) -> int {
        let half = ((self.reg / 4) % 2) as int * 4;
        if lo13(addr) < 0x1000 { half + self.ppu_latch } else { half + 3 }
    }

    #[verifier::allow_in_spec]
    pub fn chr_index(&self, addr: u16) -> usize
        requires self.wf(),
        returns (self.chr_bank(addr) * 0x1000 + lo13(addr) % 0x1000) as usize,
    {
        let half = ((self.reg / 4) % 2) as usize * 4;
        let a = chr_off(addr);
        if a < 0x1000 {
            (half + self.ppu_latch as usize) * 0x1000 + a
        } else {
            (half + 3) * 0x1000 + (a - 0x1000)
        }
    }

    pub open spec fn written(self, addr: u16, value: u8) -> Self {
        Mapper96 { reg: value, ..self }
    }

    pub fn write_register(&mut self, addr: u16, value: u8)
        requires old(self).wf(),
        ensures *final(self) == old(self).written(addr, value), final(self).wf(),
    {
        self.reg = value;
    }

    /// A nametable fetch (`$2000-$2FFF`) latches address bits 8-9.
    pub open spec fn after_a12(self, addr: u16, cycle: u64) -> Self {
        if (addr / 0x1000) % 4 == 2 { Mapper96 { ppu_latch: ((addr / 0x100) % 4) as u8, ..self } } else { self }
    }

    pub fn notify_a12(&mut self, addr: u16, cycle: u64)
        requires old(self).wf(),
        ensures *final(self) == old(self).after_a12(addr, cycle), final(self).wf(),
    {
        if (addr / 0x1000) % 4 == 2 {
            self.ppu_latch = ((addr / 0x100) % 4) as u8;
        }
    }

    #[verifier::allow_in_spec]
    pub fn watches_ppu_bus(&self) -> bool
        returns true,
    {
        true
    }

    #[verifier::allow_in_spec]
    pub fn mirroring(&self) -> Mirroring
        returns Mirroring::SingleScreenLow,
    {
        Mirroring::SingleScreenLow
    }
}

// ------------------------------------------------------------ NINA-03/06

/// NINA-03/06 (113): a write whose address matches `$4100` under mask
/// `$E100` latches PRG bits 3-5, CHR bits 0-2 plus bit 6 as bank bit 3, and
/// bit 7 for vertical mirroring.
#[derive(Debug, Clone, Copy)]
pub struct Nina03_06 {
    pub prg_bank: u8,
    pub chr_bank: u8,
    pub mirroring: Mirroring,
}

impl Nina03_06 {
    pub fn new() -> (r: Self)
        ensures r == (Nina03_06 { prg_bank: 0, chr_bank: 0, mirroring: Mirroring::Horizontal }),
    {
        Nina03_06 { prg_bank: 0, chr_bank: 0, mirroring: Mirroring::Horizontal }
    }

    pub open spec fn decodes(addr: u16) -> bool {
        addr / 0x2000 == 2 && (addr / 0x100) % 2 == 1
    }

    pub open spec fn latched(self, addr: u16, value: u8) -> Self {
        if Self::decodes(addr) {
            Nina03_06 {
                prg_bank: ((value / 8) % 8) as u8,
                chr_bank: (value % 8 + ((value / 64) % 2) * 8) as u8,
                mirroring: if value >= 0x80 { Mirroring::Vertical } else { Mirroring::Horizontal },
            }
        } else {
            self
        }
    }

    fn set_bank(&mut self, addr: u16, value: u8)
        ensures *final(self) == old(self).latched(addr, value),
    {
        if addr / 0x2000 == 2 && (addr / 0x100) % 2 == 1 {
            self.prg_bank = (value / 8) % 8;
            self.chr_bank = value % 8 + ((value / 64) % 2) * 8;
            self.mirroring = if value >= 0x80 { Mirroring::Vertical } else { Mirroring::Horizontal };
        }
    }

    #[verifier::allow_in_spec]
    pub fn prg_index(&self, addr: u16) -> usize
        requires addr >= 0x8000,
        returns (self.prg_bank as int * 0x8000 + (addr - 0x8000)) as usize,
    {
        (self.prg_bank as usize) * 0x8000 + (addr - 0x8000) as usize
    }

    #[verifier::allow_in_spec]
    pub fn chr_index(&self, addr: u16) -> usize
        returns (self.chr_bank as int * 0x2000 + lo13(addr)) as usize,
    {
        (self.chr_bank as usize) * 0x2000 + chr_off(addr)
    }

    pub open spec fn written(self, addr: u16, value: u8) -> Self {
        self.latched(addr, value)
    }

    pub fn write_register(&mut self, addr: u16, value: u8)
        ensures *final(self) == old(self).written(addr, value),
    {
        self.set_bank(addr, value);
    }

    pub open spec fn expansion_written(self, addr: u16, value: u8) -> Self {
        self.latched(addr, value)
    }

    pub fn write_expansion(&mut self, addr: u16, value: u8)
        ensures *final(self) == old(self).expansion_written(addr, value),
    {
        self.set_bank(addr, value);
    }

    #[verifier::allow_in_spec]
    pub fn mirroring(&self) -> Mirroring
        returns self.mirroring,
    {
        self.mirroring
    }
}

// ------------------------------------------------------------ Mapper 41

/// Caltron 6-in-1: `$6000-$67FF` latches the outer 32 KiB bank (address bits
/// 0-2), CHR bits 2-3 (address bits 3-4) and mirroring (bit 5); a cartridge
/// write sets the inner CHR bits 0-1 only while the outer bank is 4 or more.
#[derive(Debug, Clone, Copy)]
pub struct Caltron41 {
    pub prg_bank: u8,
    pub chr_bank: u8,
    pub mirroring: Mirroring,
}

impl Caltron41 {
    pub open spec fn wf(&self) -> bool {
        self.chr_bank < 16
    }

    pub fn new() -> (r: Self)
        ensures r == (Caltron41 { prg_bank: 0, chr_bank: 0, mirroring: Mirroring::Vertical }), r.wf(),
    {
        Caltron41 { prg_bank: 0, chr_bank: 0, mirroring: Mirroring::Vertical }
    }

    #[verifier::allow_in_spec]
    pub fn prg_index(&self, addr: u16) -> usize
        requires addr >= 0x8000,
        returns (self.prg_bank as int * 0x8000 + (addr - 0x8000)) as usize,
    {
        (self.prg_bank as usize) * 0x8000 + (addr - 0x8000) as usize
    }

    #[verifier::allow_in_spec]
    pub fn chr_index(&self, addr: u16) -> usize
        returns (self.chr_bank as int * 0x2000 + lo13(addr)) as usize,
    {
        (self.chr_bank as usize) * 0x2000 + chr_off(addr)
    }

    pub open spec fn written(self, addr: u16, value: u8) -> Self {
        if self.prg_bank >= 4 {
            Caltron41 { chr_bank: (self.chr_bank - self.chr_bank % 4 + value % 4) as u8, ..self }
        } else {
            self
        }
    }

    pub fn write_register(&mut self, addr: u16, value: u8)
        requires old(self).wf(),
        ensures *final(self) == old(self).written(addr, value), final(self).wf(),
    {
        if self.prg_bank >= 4 {
            self.chr_bank = self.chr_bank - self.chr_bank % 4 + value % 4;
        }
    }

    pub open spec fn claims_low(addr: u16) -> bool {
        0x6000 <= addr <= 0x67FF
    }

    pub open spec fn low_written(self, addr: u16, value: u8) -> Self {
        if Self::claims_low(addr) {
            Caltron41 {
                prg_bank: (addr % 8) as u8,
                chr_bank: (self.chr_bank % 4 + ((addr / 8) % 4) * 4) as u8,
                mirroring: hv(bit_set(addr as int, 0x20)),
            }
        } else {
            self
        }
    }

    pub fn write_low_register(&mut self, addr: u16, value: u8) -> (r: bool)
        requires old(self).wf(),
        ensures r == Self::claims_low(addr), *final(self) == old(self).low_written(addr, value), final(self).wf(),
    {
        if !(0x6000 <= addr && addr <= 0x67FF) {
            return false;
        }
        self.prg_bank = (addr % 8) as u8;
        self.chr_bank = self.chr_bank % 4 + ((addr / 8) % 4) as u8 * 4;
        self.mirroring = if (addr / 0x20) % 2 == 1 { Mirroring::Horizontal } else { Mirroring::Vertical };
        true
    }

    #[verifier::allow_in_spec]
    pub fn mirroring(&self) -> Mirroring
        returns self.mirroring,
    {
        self.mirroring
    }
}

// ------------------------------------------------------------ Mapper 46

/// Color Dreams 46 (Rumble Station): the outer register at `$6000-$7FFF`
/// and the inner one at `$8000-$FFFF` combine into 32 KiB PRG and 8 KiB CHR
/// banks.
#[derive(Debug, Clone, Copy)]
pub struct ColorDreams46 {
    pub outer: u8,
    pub inner: u8,
    pub mirroring: Mirroring,
}

impl ColorDreams46 {
    pub fn new(mirroring: Mirroring) -> (r: Self)
        ensures r == (ColorDreams46 { outer: 0, inner: 0, mirroring }),
    {
        ColorDreams46 { outer: 0, inner: 0, mirroring }
    }

    /// PRG: outer bits 0-3 above inner bit 0; CHR: outer bits 4-7 above
    /// inner bits 4-6.
    pub open spec fn prg_bank(self) -> int {
        (self.outer % 16) as int * 2 + (self.inner % 2) as int
    }

    pub open spec fn chr_bank(self) -> int {
        (self.outer / 16) as int * 8 + ((self.inner / 16) % 8) as int
    }

    #[verifier::allow_in_spec]
    pub fn prg_index(&self, addr: u16) -> usize
        requires addr >= 0x8000,
        returns (self.prg_bank() * 0x8000 + (addr - 0x8000)) as usize,
    {
        ((self.outer % 16) as usize * 2 + (self.inner % 2) as usize) * 0x8000 + (addr - 0x8000) as usize
    }

    #[verifier::allow_in_spec]
    pub fn chr_index(&self, addr: u16) -> usize
        returns (self.chr_bank() * 0x2000 + lo13(addr)) as usize,
    {
        ((self.outer / 16) as usize * 8 + ((self.inner / 16) % 8) as usize) * 0x2000 + chr_off(addr)
    }

    pub open spec fn written(self, addr: u16, value: u8) -> Self {
        ColorDreams46 { inner: value, ..self }
    }

    pub fn write_register(&mut self, addr: u16, value: u8)
        ensures *final(self) == old(self).written(addr, value),
    {
        self.inner = value;
    }

    pub open spec fn claims_low(addr: u16) -> bool {
        0x6000 <= addr <= 0x7FFF
    }

    pub open spec fn low_written(self, addr: u16, value: u8) -> Self {
        if Self::claims_low(addr) { ColorDreams46 { outer: value, ..self } } else { self }
    }

    pub fn write_low_register(&mut self, addr: u16, value: u8) -> (r: bool)
        ensures r == Self::claims_low(addr), *final(self) == old(self).low_written(addr, value),
    {
        if 0x6000 <= addr && addr <= 0x7FFF {
            self.outer = value;
            true
        } else {
            false
        }
    }

    #[verifier::allow_in_spec]
    pub fn mirroring(&self) -> Mirroring
        returns self.mirroring,
    {
        self.mirroring
    }
}

// ------------------------------------------------------------ Mapper 151

/// VS-system Konami board: registers `$8000/$A000/$C000` pick the first
/// three 8 KiB PRG banks (the last is fixed), `$E000/$F000` the two 4 KiB
/// CHR banks (`(addr >> 12) & 7` selects the register).
#[derive(Debug, Clone, Copy)]
pub struct Mapper151 {
    pub prg_8k_total: usize,
    pub regs: [u8; 8],
    pub mirroring: Mirroring,
}

impl Mapper151 {
    pub open spec fn wf(&self) -> bool {
        1 <= self.prg_8k_total <= 2 * MAX_PRG_16K
    }

    pub fn new(prg_16k: usize, mirroring: Mirroring) -> (r: Self)
        requires prg_16k <= MAX_PRG_16K,
        ensures r.prg_8k_total == max1((prg_16k * 2) as usize), r.regs@ == seq![0u8, 0, 0, 0, 0, 0, 0, 0],
            r.mirroring == mirroring, r.wf(),
    {
        let r = Mapper151 { prg_8k_total: if prg_16k == 0 { 1 } else { prg_16k * 2 }, regs: [0u8; 8], mirroring };
        assert(r.regs@ =~= seq![0u8, 0, 0, 0, 0, 0, 0, 0]);
        r
    }

    pub open spec fn prg_bank(self, addr: u16) -> int {
        let slot = (addr - 0x8000) / 0x2000;
        if slot < 3 { self.regs@[2 * slot] as int } else { self.prg_8k_total - 1 }
    }

    #[verifier::allow_in_spec]
    pub fn prg_index(&self, addr: u16) -> usize
        requires self.wf(), addr >= 0x8000,
        returns ((self.prg_bank(addr) % self.prg_8k_total as int) * 0x2000 + addr % 0x2000) as usize,
    {
        let slot = ((addr - 0x8000) / 0x2000) as usize;
        let bank: usize = if slot < 3 { self.regs[2 * slot] as usize } else { self.prg_8k_total - 1 };
        (bank % self.prg_8k_total) * 0x2000 + (addr % 0x2000) as usize
    }

    #[verifier::allow_in_spec]
    pub fn chr_index(&self, addr: u16) -> usize
        returns ((if lo13(addr) < 0x1000 { self.regs@[6] } else { self.regs@[7] }) as int * 0x1000 + addr % 0x1000) as usize,
    {
        let bank = if chr_off(addr) < 0x1000 { self.regs[6] } else { self.regs[7] };
        (bank as usize) * 0x1000 + (addr % 0x1000) as usize
    }

    pub open spec fn wrote(o: Self, n: Self, addr: u16, value: u8) -> bool {
        &&& n.prg_8k_total == o.prg_8k_total && n.mirroring == o.mirroring
        &&& n.regs@ == o.regs@.update(((addr / 0x1000) % 8) as int, value)
    }

    pub fn write_register(&mut self, addr: u16, value: u8)
        requires old(self).wf(),
        ensures Self::wrote(*old(self), *final(self), addr, value), final(self).wf(),
    {
        self.regs[((addr / 0x1000) % 8) as usize] = value;
    }

    #[verifier::allow_in_spec]
    pub fn mirroring(&self) -> Mirroring
        returns self.mirroring,
    {
        self.mirroring
    }
}

// ------------------------------------------------------------ Jaleco JF-16

/// Jaleco JF-16 (78): a switchable 16 KiB bank at `$8000` (data bits 0-2),
/// the last bank fixed at `$C000`, an 8 KiB CHR bank (bits 4-7) and bit 3
/// for mirroring: one-screen page on submapper 1, H/V on submapper 3. Writes
/// conflict with the ROM.
#[derive(Debug, Clone, Copy)]
pub struct JalecoJf16 {
    pub prg_16k: usize,
    pub prg_bank: u8,
    pub chr_bank: u8,
    pub submapper: u8,
    pub mirroring: Mirroring,
}

impl JalecoJf16 {
    pub open spec fn wf(&self) -> bool {
        1 <= self.prg_16k <= MAX_PRG_16K
    }

    pub fn new(prg_16k: usize, submapper: u8) -> (r: Self)
        requires prg_16k <= MAX_PRG_16K,
        ensures r == (JalecoJf16 { prg_16k: max1(prg_16k), prg_bank: 0, chr_bank: 0, submapper, mirroring: Mirroring::SingleScreenLow }), r.wf(),
    {
        JalecoJf16 { prg_16k: if prg_16k == 0 { 1 } else { prg_16k }, prg_bank: 0, chr_bank: 0, submapper, mirroring: Mirroring::SingleScreenLow }
    }

    #[verifier::allow_in_spec]
    pub fn prg_index(&self, addr: u16) -> usize
        requires self.wf(), addr >= 0x8000,
        returns (if addr < 0xC000 { self.prg_bank as int * 0x4000 + (addr - 0x8000) }
            else { (self.prg_16k - 1) * 0x4000 + (addr - 0xC000) }) as usize,
    {
        if addr < 0xC000 {
            (self.prg_bank as usize) * 0x4000 + (addr - 0x8000) as usize
        } else {
            (self.prg_16k - 1) * 0x4000 + (addr - 0xC000) as usize
        }
    }

    #[verifier::allow_in_spec]
    pub fn chr_index(&self, addr: u16) -> usize
        returns (self.chr_bank as int * 0x2000 + lo13(addr)) as usize,
    {
        (self.chr_bank as usize) * 0x2000 + chr_off(addr)
    }

    pub open spec fn written(self, addr: u16, value: u8) -> Self {
        let high = bit_set(value as int, 8);
        JalecoJf16 {
            prg_bank: value % 8,
            chr_bank: value / 16,
            mirroring: if self.submapper == 3 { hv(!high) }
                else if high { Mirroring::SingleScreenHigh } else { Mirroring::SingleScreenLow },
            ..self
        }
    }

    pub fn write_register(&mut self, addr: u16, value: u8)
        requires old(self).wf(),
        ensures *final(self) == old(self).written(addr, value), final(self).wf(),
    {
        let high = (value / 8) % 2 == 1;
        self.prg_bank = value % 8;
        self.chr_bank = value / 16;
        self.mirroring = if self.submapper == 3 {
            if high { Mirroring::Vertical } else { Mirroring::Horizontal }
        } else if high {
            Mirroring::SingleScreenHigh
        } else {
            Mirroring::SingleScreenLow
        };
    }

    #[verifier::allow_in_spec]
    pub fn has_bus_conflicts(&self) -> bool
        returns true,
    {
        true
    }

    #[verifier::allow_in_spec]
    pub fn mirroring(&self) -> Mirroring
        returns self.mirroring,
    {
        self.mirroring
    }
}

// ------------------------------------------------------------ Jaleco JF-xx

/// Jaleco CHR latch (87 and 101): a write at `$6000-$7FFF` or to the
/// cartridge space selects the 8 KiB CHR bank; mapper 87 wires data bits 0
/// and 1 swapped.
#[derive(Debug, Clone, Copy)]
pub struct JalecoJfxx {
    pub chr_bank: u8,
    pub ordered_bits: bool,
    pub mirroring: Mirroring,
}

impl JalecoJfxx {
    pub fn new(ordered_bits: bool, mirroring: Mirroring) -> (r: Self)
        ensures r == (JalecoJfxx { chr_bank: 0, ordered_bits, mirroring }),
    {
        JalecoJfxx { chr_bank: 0, ordered_bits, mirroring }
    }

    pub open spec fn latched(self, value: u8) -> Self {
        JalecoJfxx {
            chr_bank: if self.ordered_bits { value } else { ((value % 2) * 2 + (value / 2) % 2) as u8 },
            ..self
        }
    }

    fn set_bank(&mut self, value: u8)
        ensures *final(self) == old(self).latched(value),
    {
        self.chr_bank = if self.ordered_bits { value } else { (value % 2) * 2 + (value / 2) % 2 };
    }

    #[verifier::allow_in_spec]
    pub fn prg_index(&self, addr: u16) -> usize
        requires addr >= 0x8000,
        returns (addr - 0x8000) as usize,
    {
        (addr - 0x8000) as usize
    }

    #[verifier::allow_in_spec]
    pub fn chr_index(&self, addr: u16) -> usize
        returns (self.chr_bank as int * 0x2000 + lo13(addr)) as usize,
    {
        (self.chr_bank as usize) * 0x2000 + chr_off(addr)
    }

    pub open spec fn written(self, addr: u16, value: u8) -> Self {
        self.latched(value)
    }

    pub fn write_register(&mut self, addr: u16, value: u8)
        ensures *final(self) == old(self).written(addr, value),
    {
        self.set_bank(value);
    }

    pub open spec fn claims_low(addr: u16) -> bool {
        0x6000 <= addr <= 0x7FFF
    }

    pub open spec fn low_written(self, addr: u16, value: u8) -> Self {
        if Self::claims_low(addr) { self.latched(value) } else { self }
    }

    pub fn write_low_register(&mut self, addr: u16, value: u8) -> (r: bool)
        ensures r == Self::claims_low(addr), *final(self) == old(self).low_written(addr, value),
    {
        if 0x6000 <= addr && addr <= 0x7FFF {
            self.set_bank(value);
            true
        } else {
            false
        }
    }

    #[verifier::allow_in_spec]
    pub fn mirroring(&self) -> Mirroring
        returns self.mirroring,
    {
        self.mirroring
    }
}

// ------------------------------------------------------------ Jaleco JF-13

/// Jaleco JF-13 (86): a write whose address bits 12-14 read 6 latches the
/// 32 KiB PRG bank (data bits 4-5) and the CHR bank (bits 0-1, bit 6 as bank
/// bit 2). The whole `$6000-$7FFF` window is claimed.
#[derive(Debug, Clone, Copy)]
pub struct JalecoJf13 {
    pub prg_bank: u8,
    pub chr_bank: u8,
    pub mirroring: Mirroring,
}

impl JalecoJf13 {
    pub fn new(mirroring: Mirroring) -> (r: Self)
        ensures r == (JalecoJf13 { prg_bank: 0, chr_bank: 0, mirroring }),
    {
        JalecoJf13 { prg_bank: 0, chr_bank: 0, mirroring }
    }

    pub open spec fn latched(self, addr: u16, value: u8) -> Self {
        if (addr / 0x1000) % 8 == 6 {
            JalecoJf13 { prg_bank: ((value / 16) % 4) as u8, chr_bank: (value % 4 + ((value / 64) % 2) * 4) as u8, ..self }
        } else {
            self
        }
    }

    fn set_bank(&mut self, addr: u16, value: u8)
        ensures *final(self) == old(self).latched(addr, value),
    {
        if (addr / 0x1000) % 8 == 6 {
            self.prg_bank = (value / 16) % 4;
            self.chr_bank = value % 4 + ((value / 64) % 2) * 4;
        }
    }

    #[verifier::allow_in_spec]
    pub fn prg_index(&self, addr: u16) -> usize
        requires addr >= 0x8000,
        returns (self.prg_bank as int * 0x8000 + (addr - 0x8000)) as usize,
    {
        (self.prg_bank as usize) * 0x8000 + (addr - 0x8000) as usize
    }

    #[verifier::allow_in_spec]
    pub fn chr_index(&self, addr: u16) -> usize
        returns (self.chr_bank as int * 0x2000 + lo13(addr)) as usize,
    {
        (self.chr_bank as usize) * 0x2000 + chr_off(addr)
    }

    pub open spec fn written(self, addr: u16, value: u8) -> Self {
        self.latched(addr, value)
    }

    pub fn write_register(&mut self, addr: u16, value: u8)
        ensures *final(self) == old(self).written(addr, value),
    {
        self.set_bank(addr, value);
    }

    pub open spec fn claims_low(addr: u16) -> bool {
        0x6000 <= addr <= 0x7FFF
    }

    pub open spec fn low_written(self, addr: u16, value: u8) -> Self {
        if Self::claims_low(addr) { self.latched(addr, value) } else { self }
    }

    pub fn write_low_register(&mut self, addr: u16, value: u8) -> (r: bool)
        ensures r == Self::claims_low(addr), *final(self) == old(self).low_written(addr, value),
    {
        if 0x6000 <= addr && addr <= 0x7FFF {
            self.set_bank(addr, value);
            true
        } else {
            false
        }
    }

    #[verifier::allow_in_spec]
    pub fn mirroring(&self) -> Mirroring
        returns self.mirroring,
    {
        self.mirroring
    }
}

// ------------------------------------------------------------ UNROM variants

/// Which data bits an UNROM-like board (93, 94, 180) latches.
#[derive(Debug, Clone, Copy, PartialEq, Eq, Structural)]
pub enum UnromVariant {
    Sunsoft93,
    Mapper94,
    Mapper180,
}

/// UNROM relatives: 93 (bank in bits 4-7) and 94 (bits 2-4) switch `$8000`
/// with the last bank fixed; 180 fixes bank 0 at `$8000` and switches
/// `$C000` (bits 0-2).
#[derive(Debug, Clone, Copy)]
pub struct UnromVariantMapper {
    pub prg_16k: usize,
    pub bank: u8,
    pub variant: UnromVariant,
    pub mirroring: Mirroring,
}

impl UnromVariantMapper {
    pub open spec fn wf(&self) -> bool {
        1 <= self.prg_16k <= MAX_PRG_16K
    }

    pub fn new(prg_16k: usize, variant: UnromVariant, mirroring: Mirroring) -> (r: Self)
        requires prg_16k <= MAX_PRG_16K,
        ensures r == (UnromVariantMapper { prg_16k: max1(prg_16k), bank: 0, variant, mirroring }), r.wf(),
    {
        UnromVariantMapper { prg_16k: if prg_16k == 0 { 1 } else { prg_16k }, bank: 0, variant, mirroring }
    }

    #[verifier::allow_in_spec]
    pub fn prg_index(&self, addr: u16) -> usize
        requires self.wf(), addr >= 0x8000,
        returns (match self.variant {
            UnromVariant::Mapper180 => if addr < 0xC000 { (addr - 0x8000) as int }
                else { self.bank as int * 0x4000 + (addr - 0xC000) },
            _ => if addr < 0xC000 { self.bank as int * 0x4000 + (addr - 0x8000) }
                else { (self.prg_16k - 1) * 0x4000 + (addr - 0xC000) },
        }) as usize,
    {
        match self.variant {
            UnromVariant::Mapper180 => {
                if addr < 0xC000 {
                    (addr - 0x8000) as usize
                } else {
                    (self.bank as usize) * 0x4000 + (addr - 0xC000) as usize
                }
            }
            _ => {
                if addr < 0xC000 {
                    (self.bank as usize) * 0x4000 + (addr - 0x8000) as usize
                } else {
                    (self.prg_16k - 1) * 0x4000 + (addr - 0xC000) as usize
                }
            }
        }
    }

    #[verifier::allow_in_spec]
    pub fn chr_index(&self, addr: u16) -> usize
        returns lo13(addr) as usize,
    {
        chr_off(addr)
    }

    pub open spec fn written(self, addr: u16, value: u8) -> Self {
        UnromVariantMapper {
            bank: match self.variant {
                UnromVariant::Sunsoft93 => value / 16,
                UnromVariant::Mapper94 => (value / 4) % 8,
                UnromVariant::Mapper180 => value % 8,
            },
            ..self
        }
    }

    pub fn write_register(&mut self, addr: u16, value: u8)
        requires old(self).wf(),
        ensures *final(self) == old(self).written(addr, value), final(self).wf(),
    {
        self.bank = match self.variant {
            UnromVariant::Sunsoft93 => value / 16,
            UnromVariant::Mapper94 => (value / 4) % 8,
            UnromVariant::Mapper180 => value % 8,
        };
    }

    #[verifier::allow_in_spec]
    pub fn mirroring(&self) -> Mirroring
        returns self.mirroring,
    {
        self.mirroring
    }
}

} // verus!
