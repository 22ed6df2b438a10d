//! The classic discrete boards: NROM, UNROM, CNROM, AxROM, Color Dreams,
//! GxROM, Codemasters and the BF9096 Quattro multicart.

use vstd::prelude::*;

verus! {

use crate::mapper::{at_least_one, max1, MAX_PRG_16K};
use crate::types::Mirroring;

// ---------------------------------------------------------------- Mapper 0

/// Mapper 0 — NROM: 16 KiB (mirrored) or 32 KiB fixed PRG, 8 KiB CHR.
#[derive(Debug, Clone, Copy)]
pub struct Nrom {
    pub prg_16k: usize,
    pub mirroring: Mirroring,
}

impl Nrom {
    pub open spec fn wf(&self) -> bool {
        1 <= self.prg_16k <= MAX_PRG_16K
    }

    pub fn new(prg_16k: usize, mirroring: Mirroring) -> (r: Self)
        requires prg_16k <= MAX_PRG_16K,
        ensures r == (Nrom { prg_16k: max1(prg_16k), mirroring }), r.wf(),
    {
        Nrom { prg_16k: at_least_one(prg_16k), mirroring }
    }

    #[verifier::allow_in_spec]
    pub fn prg_index(&self, addr: u16) -> usize
        requires addr >= 0x8000,
        returns (if self.prg_16k <= 1 { (addr - 0x8000) % 0x4000 } else { addr - 0x8000 }) as usize,
    {
        let off = (addr - 0x8000) as usize;
        if self.prg_16k <= 1 {
            (off % 0x4000)
        } else {
            off
        }
    }

    #[verifier::allow_in_spec]
    pub fn chr_index(&self, addr: u16) -> usize
        returns (addr % 0x2000) as usize,
    {
        ((addr % 0x2000)) as usize
    }

    pub open spec fn written(self, addr: u16, value: u8) -> Self {
        self
    }

    pub fn write_register(&mut self, addr: u16, value: u8)
        ensures *final(self) == old(self).written(addr, value),
    {
    }

    #[verifier::allow_in_spec]
    pub fn mirroring(&self) -> Mirroring
        returns self.mirroring,
    {
        self.mirroring
    }
}

// ---------------------------------------------------------------- Mapper 2

/// Mapper 2 — UNROM: switchable 16 KiB at $8000, last bank fixed at $C000.
#[derive(Debug, Clone, Copy)]
pub struct Unrom {
    pub prg_16k: usize,
    pub bank: usize,
    pub mirroring: Mirroring,
}

impl Unrom {
    pub open spec fn wf(&self) -> bool {
        1 <= self.prg_16k <= MAX_PRG_16K && self.bank < self.prg_16k
    }

    pub fn new(prg_16k: usize, mirroring: Mirroring) -> (r: Self)
        requires prg_16k <= MAX_PRG_16K,
        ensures r == (Unrom { prg_16k: max1(prg_16k), bank: 0, mirroring }), r.wf(),
    {
        Unrom { prg_16k: at_least_one(prg_16k), bank: 0, mirroring }
    }

    #[verifier::allow_in_spec]
    pub fn prg_index(&self, addr: u16) -> usize
        requires self.wf(), addr >= 0x8000,
        returns (if addr < 0xC000 { self.bank * 0x4000 + (addr - 0x8000) } else { (self.prg_16k - 1) * 0x4000 + (addr - 0xC000) }) as usize,
    {
        if addr < 0xC000 {
            self.bank * 0x4000 + (addr - 0x8000) as usize
        } else {
            (self.prg_16k - 1) * 0x4000 + (addr - 0xC000) as usize
        }
    }

    #[verifier::allow_in_spec]
    pub fn chr_index(&self, addr: u16) -> usize
        returns (addr % 0x2000) as usize,
    {
        ((addr % 0x2000)) as usize
    }

    pub open spec fn written(self, addr: u16, value: u8) -> Self {
        Unrom { bank: (value as usize) % max1(self.prg_16k), ..self }
    }

    /// Any write selects the 16 KiB bank at $8000 (wrapped to the ROM size).
    pub fn write_register(&mut self, addr: u16, value: u8)
        requires old(self).wf(),
        ensures *final(self) == old(self).written(addr, value), final(self).wf(),
    {
        self.bank = (value as usize) % at_least_one(self.prg_16k);
    }

    #[verifier::allow_in_spec]
    pub fn mirroring(&self) -> Mirroring
        returns self.mirroring,
    {
        self.mirroring
    }
}

// ---------------------------------------------------------------- Mapper 3

/// Mapper 3 — CNROM: fixed PRG, 8 KiB CHR bank from data bits 0-1.
#[derive(Debug, Clone, Copy)]
pub struct Cnrom {
    pub prg_16k: usize,
    pub chr_bank: usize,
    pub mirroring: Mirroring,
}

impl Cnrom {
    pub open spec fn wf(&self) -> bool {
        1 <= self.prg_16k <= MAX_PRG_16K && self.chr_bank < 4
    }

    pub fn new(prg_16k: usize, mirroring: Mirroring) -> (r: Self)
        requires prg_16k <= MAX_PRG_16K,
        ensures r == (Cnrom { prg_16k: max1(prg_16k), chr_bank: 0, mirroring }), r.wf(),
    {
        Cnrom { prg_16k: at_least_one(prg_16k), chr_bank: 0, mirroring }
    }

    #[verifier::allow_in_spec]
    pub fn prg_index(&self, addr: u16) -> usize
        requires addr >= 0x8000,
        returns (if self.prg_16k <= 1 { (addr - 0x8000) % 0x4000 } else { addr - 0x8000 }) as usize,
    {
        let off = (addr - 0x8000) as usize;
        if self.prg_16k <= 1 {
            (off % 0x4000)
        } else {
            off
        }
    }

    #[verifier::allow_in_spec]
    pub fn chr_index(&self, addr: u16) -> usize
        requires self.wf(),
        returns (self.chr_bank * 0x2000 + addr % 0x2000) as usize,
    {
        self.chr_bank * 0x2000 + ((addr % 0x2000)) as usize
    }

    pub open spec fn written(self, addr: u16, value: u8) -> Self {
        Cnrom { chr_bank: (value % 4) as usize, ..self }
    }

    pub fn write_register(&mut self, addr: u16, value: u8)
        requires old(self).wf(),
        ensures *final(self) == old(self).written(addr, value), final(self).wf(),
    {
        self.chr_bank = ((value % 4)) as usize;
    }

    #[verifier::allow_in_spec]
    pub fn mirroring(&self) -> Mirroring
        returns self.mirroring,
    {
        self.mirroring
    }
}

// ---------------------------------------------------------------- Mapper 7

/// Mapper 7 — AxROM: 32 KiB PRG bank from bits 0-2, single-screen page
/// from bit 4.
#[derive(Debug, Clone, Copy)]
pub struct Axrom {
    pub bank: usize,
    pub high: bool,
}

impl Axrom {
    pub open spec fn wf(&self) -> bool {
        self.bank < 8
    }

    pub fn new() -> (r: Self)
        ensures r == (Axrom { bank: 0, high: false }), r.wf(),
    {
        Axrom { bank: 0, high: false }
    }

    #[verifier::allow_in_spec]
    pub fn prg_index(&self, addr: u16) -> usize
        requires self.wf(), addr >= 0x8000,
        returns (self.bank * 0x8000 + (addr - 0x8000)) as usize,
    {
        self.bank * 0x8000 + (addr - 0x8000) as usize
    }

    #[verifier::allow_in_spec]
    pub fn chr_index(&self, addr: u16) -> usize
        returns (addr % 0x2000) as usize,
    {
        ((addr % 0x2000)) as usize
    }

    pub open spec fn written(self, addr: u16, value: u8) -> Self {
        Axrom { bank: (value % 8) as usize, high: value & 0x10 != 0 }
    }

    pub fn write_register(&mut self, addr: u16, value: u8)
        ensures *final(self) == old(self).written(addr, value), final(self).wf(),
    {
        self.bank = ((value % 8)) as usize;
        self.high = value & 0x10 != 0;
    }

    #[verifier::allow_in_spec]
    pub fn mirroring(&self) -> Mirroring
        returns if self.high { Mirroring::SingleScreenHigh } else { Mirroring::SingleScreenLow },
    {
        if self.high { Mirroring::SingleScreenHigh } else { Mirroring::SingleScreenLow }
    }
}

// --------------------------------------------------------------- Mapper 11

/// Mapper 11 — Color Dreams: 32 KiB PRG from bits 0-1, 8 KiB CHR from
/// bits 4-7.
#[derive(Debug, Clone, Copy)]
pub struct ColorDreams {
    pub prg_bank: usize,
    pub chr_bank: usize,
    pub mirroring: Mirroring,
}

impl ColorDreams {
    pub open spec fn wf(&self) -> bool {
        self.prg_bank < 4 && self.chr_bank < 16
    }

    pub fn new(mirroring: Mirroring) -> (r: Self)
        ensures r == (ColorDreams { prg_bank: 0, chr_bank: 0, mirroring }), r.wf(),
    {
        ColorDreams { prg_bank: 0, chr_bank: 0, mirroring }
    }

    #[verifier::allow_in_spec]
    pub fn prg_index(&self, addr: u16) -> usize
        requires self.wf(), addr >= 0x8000,
        returns (self.prg_bank * 0x8000 + (addr - 0x8000)) as usize,
    {
        self.prg_bank * 0x8000 + (addr - 0x8000) as usize
    }

    #[verifier::allow_in_spec]
    pub fn chr_index(&self, addr: u16) -> usize
        requires self.wf(),
        returns (self.chr_bank * 0x2000 + addr % 0x2000) as usize,
    {
        self.chr_bank * 0x2000 + ((addr % 0x2000)) as usize
    }

    pub open spec fn written(self, addr: u16, value: u8) -> Self {
        ColorDreams { prg_bank: (value % 4) as usize, chr_bank: (value / 16) as usize, ..self }
    }

    pub fn write_register(&mut self, addr: u16, value: u8)
        ensures *final(self) == old(self).written(addr, value), final(self).wf(),
    {
        self.prg_bank = ((value % 4)) as usize;
        self.chr_bank = ((value / 16)) as usize;
    }

    #[verifier::allow_in_spec]
    pub fn mirroring(&self) -> Mirroring
        returns self.mirroring,
    {
        self.mirroring
    }
}

// --------------------------------------------------------------- Mapper 66

/// Mapper 66 — GxROM: 32 KiB PRG from bits 4-5, 8 KiB CHR from bits 0-1.
#[derive(Debug, Clone, Copy)]
pub struct Gxrom {
    pub prg_bank: usize,
    pub chr_bank: usize,
    pub mirroring: Mirroring,
}

impl Gxrom {
    pub open spec fn wf(&self) -> bool {
        self.prg_bank < 4 && self.chr_bank < 4
    }

    pub fn new(mirroring: Mirroring) -> (r: Self)
        ensures r == (Gxrom { prg_bank: 0, chr_bank: 0, mirroring }), r.wf(),
    {
        Gxrom { prg_bank: 0, chr_bank: 0, mirroring }
    }

    #[verifier::allow_in_spec]
    pub fn prg_index(&self, addr: u16) -> usize
        requires self.wf(), addr >= 0x8000,
        returns (self.prg_bank * 0x8000 + (addr - 0x8000)) as usize,
    {
        self.prg_bank * 0x8000 + (addr - 0x8000) as usize
    }

    #[verifier::allow_in_spec]
    pub fn chr_index(&self, addr: u16) -> usize
        requires self.wf(),
        returns (self.chr_bank * 0x2000 + addr % 0x2000) as usize,
    {
        self.chr_bank * 0x2000 + ((addr % 0x2000)) as usize
    }

    pub open spec fn written(self, addr: u16, value: u8) -> Self {
        Gxrom { prg_bank: ((value / 16) % 4) as usize, chr_bank: (value % 4) as usize, ..self }
    }

    pub fn write_register(&mut self, addr: u16, value: u8)
        ensures *final(self) == old(self).written(addr, value), final(self).wf(),
    {
        self.prg_bank = (((value / 16) % 4)) as usize;
        self.chr_bank = ((value % 4)) as usize;
    }

    #[verifier::allow_in_spec]
    pub fn mirroring(&self) -> Mirroring
        returns self.mirroring,
    {
        self.mirroring
    }
}

// --------------------------------------------------------------- Mapper 71

/// Mapper 71 — Codemasters/Camerica: like UNROM, but only $C000-$FFFF
/// writes select the bank.
#[derive(Debug, Clone, Copy)]
pub struct Codemasters {
    pub prg_16k: usize,
    pub bank: usize,
    pub mirroring: Mirroring,
}

impl Codemasters {
    pub open spec fn wf(&self) -> bool {
        1 <= self.prg_16k <= MAX_PRG_16K && self.bank < self.prg_16k
    }

    pub fn new(prg_16k: usize, mirroring: Mirroring) -> (r: Self)
        requires prg_16k <= MAX_PRG_16K,
        ensures r == (Codemasters { prg_16k: max1(prg_16k), bank: 0, mirroring }), r.wf(),
    {
        Codemasters { prg_16k: at_least_one(prg_16k), bank: 0, mirroring }
    }

    #[verifier::allow_in_spec]
    pub fn prg_index(&self, addr: u16) -> usize
        requires self.wf(), addr >= 0x8000,
        returns (if addr < 0xC000 { self.bank * 0x4000 + (addr - 0x8000) } else { (self.prg_16k - 1) * 0x4000 + (addr - 0xC000) }) as usize,
    {
        if addr < 0xC000 {
            self.bank * 0x4000 + (addr - 0x8000) as usize
        } else {
            (self.prg_16k - 1) * 0x4000 + (addr - 0xC000) as usize
        }
    }

    #[verifier::allow_in_spec]
    pub fn chr_index(&self, addr: u16) -> usize
        returns (addr % 0x2000) as usize,
    {
        ((addr % 0x2000)) as usize
    }

    pub open spec fn written(self, addr: u16, value: u8) -> Self {
        if addr >= 0xC000 { Codemasters { bank: (value as usize) % max1(self.prg_16k), ..self } } else { self }
    }

    pub fn write_register(&mut self, addr: u16, value: u8)
        requires old(self).wf(),
        ensures *final(self) == old(self).written(addr, value), final(self).wf(),
    {
        if addr >= 0xC000 {
            self.bank = (value as usize) % at_least_one(self.prg_16k);
        }
    }

    #[verifier::allow_in_spec]
    pub fn mirroring(&self) -> Mirroring
        returns self.mirroring,
    {
        self.mirroring
    }
}

// -------------------------------------------------------------- Mapper 232

/// Mapper 232 — Codemasters BF9096 / Quattro: a 64 KiB outer block and a
/// 16 KiB inner page; $C000-$FFFF shows page 3 of the block.
#[derive(Debug, Clone, Copy)]
pub struct Bf9096 {
    pub prg_16k: usize,
    pub prg_block: usize,
    pub prg_page: usize,
    pub submapper: u8,
    pub mirroring: Mirroring,
}

impl Bf9096 {
    pub open spec fn wf(&self) -> bool {
        1 <= self.prg_16k <= MAX_PRG_16K && self.prg_block < 4 && self.prg_page < 4
    }

    pub fn new(prg_16k: usize, submapper: u8, mirroring: Mirroring) -> (r: Self)
        requires prg_16k <= MAX_PRG_16K,
        ensures r == (Bf9096 { prg_16k: max1(prg_16k), prg_block: 0, prg_page: 0, submapper, mirroring }), r.wf(),
    {
        Bf9096 { prg_16k: at_least_one(prg_16k), prg_block: 0, prg_page: 0, submapper, mirroring }
    }

    #[verifier::allow_in_spec]
    pub fn prg_bank(&self, fixed: bool) -> usize
        requires self.wf(),
        returns (self.prg_block * 4 + if fixed { 3 } else { self.prg_page as int }) as usize,
    {
        let inner = if fixed { 3 } else { self.prg_page };
        let block = self.prg_block;
        block * 4 + inner
    }

    #[verifier::allow_in_spec]
    pub fn prg_index(&self, addr: u16) -> usize
        requires self.wf(),
        returns ((self.prg_bank(addr >= 0xC000) % self.prg_16k) * 0x4000 + addr % 0x4000) as usize,
    {
        let fixed = addr >= 0xC000;
        (self.prg_bank(fixed) % self.prg_16k) * 0x4000 + (((addr as usize) % 0x4000))
    }

    #[verifier::allow_in_spec]
    pub fn chr_index(&self, addr: u16) -> usize
        returns (addr % 0x2000) as usize,
    {
        ((addr % 0x2000)) as usize
    }

    pub open spec fn outer_bits(submapper: u8, value: u8) -> usize {
        if submapper == 1 {
            ((value / 16) % 2 + ((value / 4) % 4) / 2 * 2) as usize
        } else {
            ((value / 8) % 4) as usize
        }
    }

    pub open spec fn written(self, addr: u16, value: u8) -> Self {
        if addr >= 0xC000 {
            Bf9096 { prg_page: (value % 4) as usize, ..self }
        } else {
            Bf9096 { prg_block: Bf9096::outer_bits(self.submapper, value), ..self }
        }
    }

    /// $C000-$FFFF selects the inner page; $8000-$BFFF the outer block
    /// (submapper 1 swaps where the two block bits come from).
    pub fn write_register(&mut self, addr: u16, value: u8)
        requires old(self).wf(),
        ensures *final(self) == old(self).written(addr, value), final(self).wf(),
    {
        if addr >= 0xC000 {
            self.prg_page = ((value % 4)) as usize;
        } else {
            if self.submapper == 1 {
                self.prg_block = (((value / 16) % 2 + ((value / 4) % 4) / 2 * 2)) as usize;
            } else {
                self.prg_block = (((value / 8) % 4)) as usize;
            }
        }
    }

    #[verifier::allow_in_spec]
    pub fn mirroring(&self) -> Mirroring
        returns self.mirroring,
    {
        self.mirroring
    }
}

/// Law: an AxROM register write selects the 32 KiB PRG bank from the low
/// three bits of the value and the single-screen page from bit 4 (high
/// exactly when bit 4 is set); the address written does not matter.
pub proof fn lemma_axrom_register(a: Axrom, addr: u16, value: u8)
    ensures
        a.written(addr, value).mirroring() == (if (value / 16) % 2 == 1 { Mirroring::SingleScreenHigh } else { Mirroring::SingleScreenLow }),
        forall|k: u16| 0x8000 <= k ==> #[trigger] a.written(addr, value).prg_index(k) == (value % 8) * 0x8000 + (k - 0x8000),
        a.written(addr, value) == a.written(0x8000, value),
{
    assert((value & 0x10 != 0) == ((value / 16) % 2 == 1)) by (bit_vector);
}

} // verus!
