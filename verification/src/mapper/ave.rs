//! Mapper 34: BNROM (32 KiB PRG switch, CHR-RAM, bus conflicts) and AVE
//! NINA-001 (32 KiB PRG plus two 4 KiB CHR banks behind $7FFD-$7FFF).

use vstd::prelude::*;

verus! {

use crate::mapper::{max1, MAX_PRG_16K};
use crate::mapper::latch::{chr_off, lo13};
use crate::types::Mirroring;

/// Number of 32 KiB PRG banks for a count of 16 KiB banks (at least one).
pub open spec fn prg_32k_of(prg_16k: usize) -> usize {
    max1(((prg_16k + 1) / 2) as usize)
}

#[derive(Debug, Clone, Copy)]
pub struct Bnrom {
    pub prg_32k: usize,
    pub bank: usize,
    pub mirroring: Mirroring,
}

impl Bnrom {
    pub open spec fn wf(&self) -> bool {
        1 <= self.prg_32k <= MAX_PRG_16K && self.bank < self.prg_32k
    }

    pub fn new(prg_16k: usize, mirroring: Mirroring) -> (r: Self)
        requires prg_16k <= MAX_PRG_16K,
        ensures r == (Bnrom { prg_32k: prg_32k_of(prg_16k), bank: 0, mirroring }), r.wf(),
    {
        let half = prg_16k / 2 + prg_16k % 2;
        Bnrom { prg_32k: if half == 0 { 1 } else { half }, bank: 0, mirroring }
    }

    #[verifier::allow_in_spec]
    pub fn prg_index(&self, addr: u16) -> usize
        requires self.wf(), addr >= 0x8000,
        returns (self.bank * 0x8000 + (addr - 0x8000)) as usize,
    {
        self.bank * 0x8000 + (addr - 0x8000) as usize
    }

    #[verifier::allow_in_spec]
    pub fn chr_index(&self, addr: u16) -> usize
        returns lo13(addr) as usize,
    {
        chr_off(addr)
    }

    pub open spec fn written(self, addr: u16, value: u8) -> Self {
        Bnrom { bank: (value as usize % self.prg_32k) as usize, ..self }
    }

    pub fn write_register(&mut self, addr: u16, value: u8)
        requires old(self).wf(),
        ensures *final(self) == old(self).written(addr, value), final(self).wf(),
    {
        self.bank = (value as usize) % self.prg_32k;
    }

    #[verifier::allow_in_spec]
    pub fn has_bus_conflicts(&self) -> bool
        returns true,
    {
        true
    }

    #[verifier::allow_in_spec]
    pub fn mirroring(&self) -> Mirroring
        returns self.mirroring,
    {
        self.mirroring
    }
}

#[derive(Debug, Clone, Copy)]
pub struct Nina01 {
    pub prg_bank: usize,
    pub chr_bank0: usize,
    pub chr_bank1: usize,
    pub mirroring: Mirroring,
}

impl Nina01 {
    pub open spec fn wf(&self) -> bool {
        self.prg_bank < 2 && self.chr_bank0 < 16 && self.chr_bank1 < 16
    }

    pub fn new(mirroring: Mirroring) -> (r: Self)
        ensures r == (Nina01 { prg_bank: 0, chr_bank0: 0, chr_bank1: 1, mirroring }), r.wf(),
    {
        Nina01 { prg_bank: 0, chr_bank0: 0, chr_bank1: 1, mirroring }
    }

    #[verifier::allow_in_spec]
    pub fn prg_index(&self, addr: u16) -> usize
        requires self.wf(), addr >= 0x8000,
        returns (self.prg_bank * 0x8000 + (addr - 0x8000)) as usize,
    {
        self.prg_bank * 0x8000 + (addr - 0x8000) as usize
    }

    #[verifier::allow_in_spec]
    pub fn chr_index(&self, addr: u16) -> usize
        requires self.wf(),
        returns (if lo13(addr) < 0x1000 { self.chr_bank0 * 0x1000 + lo13(addr) }
            else { self.chr_bank1 * 0x1000 + (lo13(addr) - 0x1000) }) as usize,
    {
        let a = chr_off(addr);
        if a < 0x1000 { self.chr_bank0 * 0x1000 + a } else { self.chr_bank1 * 0x1000 + (a - 0x1000) }
    }

    /// Writes to $8000-$FFFF do nothing on this board.
    pub open spec fn written(self, addr: u16, value: u8) -> Self {
        self
    }

    pub fn write_register(&mut self, addr: u16, value: u8)
        requires old(self).wf(),
        ensures *final(self) == old(self).written(addr, value), final(self).wf(),
    {
    }

    pub open spec fn claims_low(addr: u16) -> bool {
        0x7FFD <= addr <= 0x7FFF
    }

    pub open spec fn low_written(self, addr: u16, value: u8) -> Self {
        if addr == 0x7FFD { Nina01 { prg_bank: (value % 2) as usize, ..self } }
        else if addr == 0x7FFE { Nina01 { chr_bank0: (value % 16) as usize, ..self } }
        else if addr == 0x7FFF { Nina01 { chr_bank1: (value % 16) as usize, ..self } }
        else { self }
    }

    pub fn write_low_register(&mut self, addr: u16, value: u8) -> (r: bool)
        requires old(self).wf(),
        ensures r == Self::claims_low(addr), *final(self) == old(self).low_written(addr, value), final(self).wf(),
    {
        if addr == 0x7FFD {
            self.prg_bank = ((value % 2)) as usize;
        } else if addr == 0x7FFE {
            self.chr_bank0 = ((value % 16)) as usize;
        } else if addr == 0x7FFF {
            self.chr_bank1 = ((value % 16)) as usize;
        } else {
            return false;
        }
        true
    }

    /// The bank registers sit on top of PRG-RAM, which also takes the write.
    #[verifier::allow_in_spec]
    pub fn low_register_write_falls_through(&self, addr: u16) -> bool
        returns 0x7FFD <= addr <= 0x7FFF,
    {
        0x7FFD <= addr && addr <= 0x7FFF
    }

    #[verifier::allow_in_spec]
    pub fn mirroring(&self) -> Mirroring
        returns self.mirroring,
    {
        self.mirroring
    }
}

} // verus!
