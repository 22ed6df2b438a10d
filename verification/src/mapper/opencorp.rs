//! Mapper 156 — OpenCorp / Daou 306: a 16 KiB PRG register, eight 1 KiB
//! CHR banks with separate low and high bytes, and late-enabled mirroring.

use vstd::prelude::*;

verus! {

use crate::mapper::{at_least_one, max1, MAX_PRG_16K};
use crate::mapper::bank::{page_spec, chr_1k_at, prg_16k_at};
use crate::types::Mirroring;

#[derive(Debug, Clone, Copy)]
pub struct Mapper156 {
    pub prg_16k_total: usize,
    pub prg_bank: usize,
    pub chr_lo: [u8; 8],
    pub chr_hi: [u8; 8],
    pub mirror: u8,
    pub mirror_used: bool,
}

impl Mapper156 {
    pub open spec fn wf(&self) -> bool {
        1 <= self.prg_16k_total <= MAX_PRG_16K && self.prg_bank < 0x100
    }

    pub open spec fn cleared(self) -> bool {
        &&& self.prg_bank == 0
        &&& self.chr_lo@ == Seq::new(8, |i: int| 0u8)
        &&& self.chr_hi@ == Seq::new(8, |i: int| 0u8)
        &&& self.mirror == 0
        &&& !self.mirror_used
    }

    pub fn new(prg_16k: usize) -> (r: Self)
        requires prg_16k <= MAX_PRG_16K,
        ensures r.prg_16k_total == max1(prg_16k), r.cleared(), r.wf(),
    {
        let r = Mapper156 {
            prg_16k_total: at_least_one(prg_16k),
            prg_bank: 0,
            chr_lo: [0u8; 8],
            chr_hi: [0u8; 8],
            mirror: 0,
            mirror_used: false,
        };
        assert(r.chr_lo@ =~= Seq::new(8, |i: int| 0u8));
        assert(r.chr_hi@ =~= Seq::new(8, |i: int| 0u8));
        r
    }

    /// The 1 KiB CHR bank of a slot: low byte plus high byte times 256.
    #[verifier::allow_in_spec]
    pub fn chr_bank(&self, slot: usize) -> usize
        requires slot < 8,
        returns (self.chr_lo@[slot as int] + self.chr_hi@[slot as int] * 256) as usize,
    {
        let lo = self.chr_lo[slot] as usize;
        let hi = self.chr_hi[slot] as usize;
        lo + hi * 256
    }

    #[verifier::allow_in_spec]
    pub fn prg_index(&self, addr: u16) -> usize
        requires self.wf(),
        returns (if addr < 0xC000 { page_spec(self.prg_bank as int, 0x4000, addr, 0x8000) }
            else { page_spec(self.prg_16k_total - 1, 0x4000, addr, 0xC000) }) as usize,
    {
        if addr < 0xC000 {
            prg_16k_at(self.prg_bank, addr, 0x8000)
        } else {
            prg_16k_at(self.prg_16k_total - 1, addr, 0xC000)
        }
    }

    #[verifier::allow_in_spec]
    pub fn chr_index(&self, addr: u16) -> usize
        returns ({
            let slot = (addr % 0x2000) / 0x400;
            page_spec(self.chr_bank(slot as usize) as int, 0x400, addr, (slot * 0x400) as u16)
        }) as usize,
    {
        let slot = (((addr % 0x2000)) / 0x0400) as usize;
        chr_1k_at(self.chr_bank(slot), addr, (slot * 0x400) as u16)
    }

    /// $C000-$C00F: CHR low/high bytes (slots 0-3 then 4-7); $C010 PRG;
    /// $C014 mirroring (which also enables it).
    pub open spec fn wrote(o: Self, n: Self, addr: u16, value: u8) -> bool {
        let k = (addr % 4) as int;
        &&& n.prg_16k_total == o.prg_16k_total
        &&& n.chr_lo@ == if 0xC000 <= addr <= 0xC003 { o.chr_lo@.update(k, value) }
            else if 0xC008 <= addr <= 0xC00B { o.chr_lo@.update(4 + k, value) } else { o.chr_lo@ }
        &&& n.chr_hi@ == if 0xC004 <= addr <= 0xC007 { o.chr_hi@.update(k, value) }
            else if 0xC00C <= addr <= 0xC00F { o.chr_hi@.update(4 + k, value) } else { o.chr_hi@ }
        &&& n.prg_bank == if addr == 0xC010 { value as usize } else { o.prg_bank }
        &&& n.mirror == if addr == 0xC014 { value } else { o.mirror }
        &&& n.mirror_used == (o.mirror_used || addr == 0xC014)
    }

    pub fn write_register(&mut self, addr: u16, value: u8)
        requires old(self).wf(),
        ensures Self::wrote(*old(self), *final(self), addr, value), final(self).wf(),
    {
        let k = ((addr % 4)) as usize;
        if 0xC000 <= addr && addr <= 0xC003 {
            self.chr_lo[k] = value;
        } else if 0xC004 <= addr && addr <= 0xC007 {
            self.chr_hi[k] = value;
        } else if 0xC008 <= addr && addr <= 0xC00B {
            self.chr_lo[4 + k] = value;
        } else if 0xC00C <= addr && addr <= 0xC00F {
            self.chr_hi[4 + k] = value;
        } else if addr == 0xC010 {
            self.prg_bank = value as usize;
        } else if addr == 0xC014 {
            self.mirror = value;
            self.mirror_used = true;
        }
    }

    #[verifier::allow_in_spec]
    pub fn mirroring(&self) -> Mirroring
        returns if !self.mirror_used { Mirroring::SingleScreenLow }
            else if self.mirror % 2 == 0 { Mirroring::Vertical } else { Mirroring::Horizontal },
    {
        let m = self.mirror;
        if !self.mirror_used {
            Mirroring::SingleScreenLow
        } else if (m % 2 == 0) {
            Mirroring::Vertical
        } else {
            Mirroring::Horizontal
        }
    }

    pub open spec fn was_reset(o: Self, n: Self, soft: bool) -> bool {
        n.prg_16k_total == o.prg_16k_total && n.cleared()
    }

    pub fn reset(&mut self, soft: bool)
        requires old(self).wf(),
        ensures Self::was_reset(*old(self), *final(self), soft), final(self).wf(),
    {
        self.prg_bank = 0;
        self.chr_lo = [0u8; 8];
        self.chr_hi = [0u8; 8];
        self.mirror = 0;
        self.mirror_used = false;
        assert(self.chr_lo@ =~= Seq::new(8, |i: int| 0u8));
        assert(self.chr_hi@ =~= Seq::new(8, |i: int| 0u8));
    }
}

} // verus!
