//! Sunsoft boards: Sunsoft-4 (68) with CHR-ROM nametables, the 4 KiB CHR
//! latch of 184 and the Sunsoft-2 style latch of 89.

use vstd::prelude::*;

verus! {

use crate::mapper::{at_least_one, max1, MAX_PRG_16K};
use crate::mapper::latch::{chr_off, off_16k, off_4k, lo13};
use crate::types::Mirroring;

// ---------------------------------------------------------------- Mapper 68

/// Mapper 68 — Sunsoft-4: four 2 KiB CHR banks ($8000-$BFFF), two
/// nametable CHR pages ($C000/$D000, always with bit 7 set), control
/// ($E000: mirroring and CHR-ROM nametables) and a 16 KiB PRG bank ($F000).
#[derive(Debug, Clone, Copy)]
pub struct Sunsoft4 {
    pub prg_16k: usize,
    pub chr_regs: [usize; 4],
    pub nt_regs: [usize; 2],
    pub prg_bank: usize,
    pub mirroring: Mirroring,
    pub use_chr_nametables: bool,
}

/// Mirroring selected by the low two bits of the control register.
pub open spec fn control_mirroring(value: u8) -> Mirroring {
    if value % 4 == 0 { Mirroring::Vertical }
    else if value % 4 == 1 { Mirroring::Horizontal }
    else if value % 4 == 2 { Mirroring::SingleScreenLow }
    else { Mirroring::SingleScreenHigh }
}

impl Sunsoft4 {
    pub open spec fn wf(&self) -> bool {
        &&& 1 <= self.prg_16k <= MAX_PRG_16K
        &&& self.prg_bank < 8
        &&& forall|i: int| 0 <= i < 4 ==> #[trigger] self.chr_regs@[i] < 0x100
        &&& forall|i: int| 0 <= i < 2 ==> #[trigger] self.nt_regs@[i] < 0x100
    }

    pub open spec fn fresh(self, prg_16k: usize, mirroring: Mirroring) -> bool {
        &&& self.prg_16k == max1(prg_16k)
        &&& self.chr_regs@ == seq![0usize, 0, 0, 0]
        &&& self.nt_regs@ == seq![0x80usize, 0x80]
        &&& self.prg_bank == 0
        &&& self.mirroring == mirroring
        &&& !self.use_chr_nametables
    }

    pub fn new(prg_16k: usize, mirroring: Mirroring) -> (r: Self)
        requires prg_16k <= MAX_PRG_16K,
        ensures r.fresh(prg_16k, mirroring), r.wf(),
    {
        Sunsoft4 {
            prg_16k: at_least_one(prg_16k),
            chr_regs: [0usize, 0, 0, 0],
            nt_regs: [0x80usize, 0x80],
            prg_bank: 0,
            mirroring,
            use_chr_nametables: false,
        }
    }

    /// Which nametable register serves logical table 0-3.
    #[verifier::allow_in_spec]
    pub fn nt_reg_index(&self, table: usize) -> usize
        returns (match self.mirroring {
            Mirroring::Vertical => table % 2,
            Mirroring::Horizontal => (table / 2) % 2,
            Mirroring::SingleScreenHigh => 1,
            _ => 0,
        }) as usize,
    {
        match self.mirroring {
            Mirroring::Vertical => (table % 2),
            Mirroring::Horizontal => ((table / 2) % 2),
            Mirroring::SingleScreenLow => 0,
            Mirroring::SingleScreenHigh => 1,
            Mirroring::FourScreen => 0,
        }
    }

    #[verifier::allow_in_spec]
    pub fn prg_index(&self, addr: u16) -> usize
        requires self.wf(), addr >= 0x8000,
        returns ((if addr < 0xC000 { (self.prg_bank % self.prg_16k) as int } else { self.prg_16k - 1 }) * 0x4000
            + addr % 0x4000) as usize,
    {
        if addr < 0xC000 {
            (self.prg_bank % self.prg_16k) * 0x4000 + off_16k(addr)
        } else {
            (self.prg_16k - 1) * 0x4000 + off_16k(addr)
        }
    }

    #[verifier::allow_in_spec]
    pub fn chr_index(&self, addr: u16) -> usize
        requires self.wf(),
        returns (self.chr_regs@[((addr / 0x800) % 4) as int] * 0x800 + addr % 0x800) as usize,
    {
        let slot = (((addr / 0x800) % 4)) as usize;
        self.chr_regs[slot] * 0x800 + ((addr % 0x800)) as usize
    }

    /// Register writes, decoded by the top address nibble.
    pub open spec fn wrote(o: Self, n: Self, addr: u16, value: u8) -> bool {
        let hi = addr / 0x1000;
        &&& n.prg_16k == o.prg_16k
        &&& n.chr_regs@ == if 8 <= hi <= 0xB { o.chr_regs@.update((hi % 4) as int, value as usize) } else { o.chr_regs@ }
        &&& n.nt_regs@ == if hi == 0xC { o.nt_regs@.update(0, (0x80 + value % 0x80) as usize) }
            else if hi == 0xD { o.nt_regs@.update(1, (0x80 + value % 0x80) as usize) } else { o.nt_regs@ }
        &&& n.mirroring == if hi == 0xE { control_mirroring(value) } else { o.mirroring }
        &&& n.use_chr_nametables == if hi == 0xE { (value / 16) % 2 == 1 } else { o.use_chr_nametables }
        &&& n.prg_bank == if hi == 0xF { (value % 8) as usize } else { o.prg_bank }
    }

    fn set_control(&mut self, value: u8)
        ensures
            final(self).mirroring == control_mirroring(value),
            final(self).use_chr_nametables == ((value / 16) % 2 == 1),
            final(self).prg_16k == old(self).prg_16k,
            final(self).chr_regs == old(self).chr_regs,
            final(self).nt_regs == old(self).nt_regs,
            final(self).prg_bank == old(self).prg_bank,
    {
        let m = (value % 4);
        self.mirroring = if m == 0 {
            Mirroring::Vertical
        } else if m == 1 {
            Mirroring::Horizontal
        } else if m == 2 {
            Mirroring::SingleScreenLow
        } else {
            Mirroring::SingleScreenHigh
        };
        self.use_chr_nametables = ((value / 16) % 2 == 1);
    }

    pub fn write_register(&mut self, addr: u16, value: u8)
        requires old(self).wf(),
        ensures Self::wrote(*old(self), *final(self), addr, value), final(self).wf(),
    {
        let hi = ((addr / 0x1000) * 0x1000);
        if 0x8000 <= hi && hi <= 0xB000 {
            self.chr_regs[(((addr / 0x1000) % 4)) as usize] = value as usize;
        } else if hi == 0xC000 {
            self.nt_regs[0] = ((0x80 + value % 0x80)) as usize;
        } else if hi == 0xD000 {
            self.nt_regs[1] = ((0x80 + value % 0x80)) as usize;
        } else if hi == 0xE000 {
            self.set_control(value);
        } else if hi == 0xF000 {
            self.prg_bank = ((value % 8)) as usize;
        }
    }

    /// With CHR-ROM nametables on, the CHR byte a nametable address
    /// ($2000-$2FFF and its mirrors) reads.
    #[verifier::allow_in_spec]
    pub fn nametable_chr_index(&self, addr: u16) -> Option<usize>
        requires self.wf(), addr >= 0x2000,
        returns if !self.use_chr_nametables { None } else {
            let nt = (addr - 0x2000) % 0x1000;
            Some((self.nt_regs@[self.nt_reg_index((nt / 0x400) as usize) as int] * 0x400 + nt % 0x400) as usize)
        },
    {
        if !self.use_chr_nametables {
            return None;
        }
        let d = addr - 0x2000;
        let nt_addr = (d % 0x1000);
        let table = ((nt_addr / 0x400)) as usize;
        let off = ((nt_addr % 0x400)) as usize;
        let reg = self.nt_regs[self.nt_reg_index(table)];
        Some(reg * 0x400 + off)
    }

    #[verifier::allow_in_spec]
    pub fn has_nametable_chr_mapping(&self) -> bool
        returns true,
    {
        true
    }

    #[verifier::allow_in_spec]
    pub fn mirroring(&self) -> Mirroring
        returns self.mirroring,
    {
        self.mirroring
    }
}

// --------------------------------------------------------------- Mapper 184

/// Mapper 184 — Sunsoft-1: two 4 KiB CHR banks latched from $6000-$7FFF
/// (the lower from bits 0-2, the upper from bits 4-6 with bit 7 forced).
#[derive(Debug, Clone, Copy)]
pub struct Sunsoft184 {
    pub chr_bank0: usize,
    pub chr_bank1: usize,
    pub mirroring: Mirroring,
}

impl Sunsoft184 {
    pub open spec fn wf(&self) -> bool {
        self.chr_bank0 < 0x100 && self.chr_bank1 < 0x100
    }

    pub fn new(mirroring: Mirroring) -> (r: Self)
        ensures r == (Sunsoft184 { chr_bank0: 0, chr_bank1: 0x80, mirroring }), r.wf(),
    {
        Sunsoft184 { chr_bank0: 0, chr_bank1: 0x80, mirroring }
    }

    pub open spec fn banked(self, value: u8) -> Self {
        Sunsoft184 { chr_bank0: (value % 8) as usize, chr_bank1: (0x80 + (value / 16) % 8) as usize, ..self }
    }

    fn set_bank(&mut self, value: u8)
        ensures *final(self) == old(self).banked(value),
    {
        self.chr_bank0 = ((value % 8)) as usize;
        self.chr_bank1 = ((0x80 + (value / 16) % 8)) as usize;
    }

    #[verifier::allow_in_spec]
    pub fn prg_index(&self, addr: u16) -> usize
        requires addr >= 0x8000,
        returns (addr - 0x8000) as usize,
    {
        (addr - 0x8000) as usize
    }

    #[verifier::allow_in_spec]
    pub fn chr_index(&self, addr: u16) -> usize
        requires self.wf(),
        returns (if lo13(addr) < 0x1000 { self.chr_bank0 * 0x1000 + lo13(addr) }
            else { self.chr_bank1 * 0x1000 + (lo13(addr) - 0x1000) }) as usize,
    {
        let a = chr_off(addr);
        if a < 0x1000 { self.chr_bank0 * 0x1000 + a } else { self.chr_bank1 * 0x1000 + (a - 0x1000) }
    }

    pub open spec fn written(self, addr: u16, value: u8) -> Self {
        self.banked(value)
    }

    pub fn write_register(&mut self, addr: u16, value: u8)
        requires old(self).wf(),
        ensures *final(self) == old(self).written(addr, value), final(self).wf(),
    {
        self.set_bank(value);
    }

    pub open spec fn claims_low(addr: u16) -> bool {
        0x6000 <= addr <= 0x7FFF
    }

    pub open spec fn low_written(self, addr: u16, value: u8) -> Self {
        if Self::claims_low(addr) { self.banked(value) } else { self }
    }

    pub fn write_low_register(&mut self, addr: u16, value: u8) -> (r: bool)
        requires old(self).wf(),
        ensures r == Self::claims_low(addr), *final(self) == old(self).low_written(addr, value), final(self).wf(),
    {
        if 0x6000 <= addr && addr <= 0x7FFF {
            self.set_bank(value);
            true
        } else {
            false
        }
    }

    #[verifier::allow_in_spec]
    pub fn mirroring(&self) -> Mirroring
        returns self.mirroring,
    {
        self.mirroring
    }
}

// ---------------------------------------------------------------- Mapper 89

/// Mapper 89 — Sunsoft-2 (Tenka no Goikenban): PRG 16 KiB from bits 4-6,
/// CHR 8 KiB from bits 0-2 and 7, single-screen page from bit 3.
#[derive(Debug, Clone, Copy)]
pub struct Sunsoft89 {
    pub prg_16k: usize,
    pub prg_bank: usize,
    pub chr_bank: usize,
    pub mirroring: Mirroring,
}

impl Sunsoft89 {
    pub open spec fn wf(&self) -> bool {
        1 <= self.prg_16k <= MAX_PRG_16K && self.prg_bank < 8 && self.chr_bank < 16
    }

    pub fn new(prg_16k: usize) -> (r: Self)
        requires prg_16k <= MAX_PRG_16K,
        ensures r == (Sunsoft89 { prg_16k: max1(prg_16k), prg_bank: 0, chr_bank: 0, mirroring: Mirroring::SingleScreenLow }), r.wf(),
    {
        Sunsoft89 { prg_16k: at_least_one(prg_16k), prg_bank: 0, chr_bank: 0, mirroring: Mirroring::SingleScreenLow }
    }

    #[verifier::allow_in_spec]
    pub fn prg_index(&self, addr: u16) -> usize
        requires self.wf(), addr >= 0x8000,
        returns (if addr < 0xC000 { self.prg_bank * 0x4000 + (addr - 0x8000) }
            else { (self.prg_16k - 1) * 0x4000 + (addr - 0xC000) }) as usize,
    {
        if addr < 0xC000 {
            self.prg_bank * 0x4000 + (addr - 0x8000) as usize
        } else {
            (self.prg_16k - 1) * 0x4000 + (addr - 0xC000) as usize
        }
    }

    #[verifier::allow_in_spec]
    pub fn chr_index(&self, addr: u16) -> usize
        requires self.wf(),
        returns (self.chr_bank * 0x2000 + lo13(addr)) as usize,
    {
        self.chr_bank * 0x2000 + chr_off(addr)
    }

    pub open spec fn written(self, addr: u16, value: u8) -> Self {
        Sunsoft89 {
            prg_bank: ((value / 16) % 8) as usize,
            chr_bank: (value % 8 + (value / 128) * 8) as usize,
            mirroring: if (value / 8) % 2 == 1 { Mirroring::SingleScreenHigh } else { Mirroring::SingleScreenLow },
            ..self
        }
    }

    pub fn write_register(&mut self, addr: u16, value: u8)
        requires old(self).wf(),
        ensures *final(self) == old(self).written(addr, value), final(self).wf(),
    {
        self.prg_bank = (((value / 16) % 8)) as usize;
        self.chr_bank = ((value % 8 + (value / 128) * 8)) as usize;
        self.mirroring = if ((value / 8) % 2 == 1) { Mirroring::SingleScreenHigh } else { Mirroring::SingleScreenLow };
    }

    #[verifier::allow_in_spec]
    pub fn mirroring(&self) -> Mirroring
        returns self.mirroring,
    {
        self.mirroring
    }
}

} // verus!
