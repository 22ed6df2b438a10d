//! Unlicensed boards: the reset-selected 4-in-1 (60), YOKO (83), the
//! Gimmick bootleg (183), the 830425C address latch (212), a VRC-like
//! bootleg with an A12 counter (222) and the 150-in-1 multicart (235).

use vstd::prelude::*;

verus! {

use crate::mapper::latch::{lo13, chr_off};
use crate::mapper::irq_boards::{at_least, vh_single, since, with_nibble};
use crate::mapper::{MAX_CHR_8K, MAX_PRG_16K};
use crate::types::Mirroring;

fn at_least_of(n: usize, floor: usize) -> (r: usize)
    ensures r == at_least(n as int, floor as int),
{
    if n < floor { floor } else { n }
}

fn vh_of(m: u8) -> (r: Mirroring)
    ensures r == vh_single(m as int),
{
    let k = m % 4;
    if k == 0 { Mirroring::Vertical } else if k == 1 { Mirroring::Horizontal }
    else if k == 2 { Mirroring::SingleScreenLow } else { Mirroring::SingleScreenHigh }
}

/// `v` with the bit of weight `w` set or cleared.
pub open spec fn with_bit(v: int, w: int, on: bool) -> int {
    v - ((v / w) % 2) * w + (if on { w } else { 0 })
}

// ------------------------------------------------------------ Mapper 60

/// Reset-selected 4-in-1: a soft reset steps to the next of four 16 KiB
/// PRG / 8 KiB CHR games.
#[derive(Debug, Clone, Copy)]
pub struct Mapper60 {
    pub game: u8,
    pub mirroring: Mirroring,
}

impl Mapper60 {
    pub fn new(mirroring: Mirroring) -> (r: Self)
        ensures r == (Mapper60 { game: 0, mirroring }),
    {
        Mapper60 { game: 0, mirroring }
    }

    #[verifier::allow_in_spec]
    pub fn prg_index(&self, addr: u16) -> usize
        returns (self.game as int * 0x4000 + addr % 0x4000) as usize,
    {
        (self.game as usize) * 0x4000 + (addr % 0x4000) as usize
    }

    #[verifier::allow_in_spec]
    pub fn chr_index(&self, addr: u16) -> usize
        returns (self.game as int * 0x2000 + lo13(addr)) as usize,
    {
        (self.game as usize) * 0x2000 + chr_off(addr)
    }

    #[verifier::allow_in_spec]
    pub fn mirroring(&self) -> Mirroring
        returns self.mirroring,
    {
        self.mirroring
    }

    pub open spec fn after_reset(self, soft: bool) -> Self {
        if soft { Mapper60 { game: ((self.game + 1) % 4) as u8, ..self } } else { self }
    }

    pub fn reset(&mut self, soft: bool)
        ensures *final(self) == old(self).after_reset(soft),
    {
        if soft {
            self.game = (self.game % 4 + 1) % 4;
        }
    }
}

// ------------------------------------------------------------ Mapper 83

/// YOKO (83): a 16 KiB mode (mode bit 6, set by `$8000`/`$B000` bank
/// writes) or three 8 KiB registers at `$8300-$8302`; eight 1 KiB CHR
/// registers at `$8310-$8317` (or 2 KiB pairs after a `$8000` write until
/// `$8312-$8315` are touched); mirroring from mode bits 0-1; a 16-bit
/// CPU-cycle down-counter at `$8200/$8201`; four scratch registers at
/// `$5100-$5103`.
#[derive(Debug, Clone, Copy)]
pub struct Mapper83 {
    pub prg_8k_total: usize,
    pub chr_1k_total: usize,
    pub regs: [u8; 11],
    pub ex_regs: [u8; 4],
    pub is_2k_bank: bool,
    pub is_not_2k_bank: bool,
    pub mode: u8,
    pub bank: u8,
    pub irq_counter: u16,
    pub irq_enabled: bool,
    pub irq_pending: bool,
    pub mirroring: Mirroring,
}

impl Mapper83 {
    pub open spec fn wf(&self) -> bool {
        &&& 4 <= self.prg_8k_total <= 2 * MAX_PRG_16K
        &&& 8 <= self.chr_1k_total <= 8 * MAX_CHR_8K
    }

    pub open spec fn fresh(self, prg_16k: usize, chr_8k: usize) -> bool {
        &&& self.prg_8k_total == at_least(prg_16k * 2, 4) && self.chr_1k_total == at_least(chr_8k * 8, 8)
        &&& self.regs@ == Seq::new(11, |i: int| 0u8) && self.ex_regs@ == seq![0u8, 0, 0, 0]
        &&& !self.is_2k_bank && !self.is_not_2k_bank && self.mode == 0 && self.bank == 0
        &&& self.irq_counter == 0 && !self.irq_enabled && !self.irq_pending && self.mirroring == Mirroring::Vertical
    }

    pub fn new(prg_16k: usize, chr_8k: usize) -> (r: Self)
        requires prg_16k <= MAX_PRG_16K, chr_8k <= MAX_CHR_8K,
        ensures r.fresh(prg_16k, chr_8k), r.wf(),
    {
        let r = Mapper83 {
            prg_8k_total: at_least_of(prg_16k * 2, 4),
            chr_1k_total: at_least_of(chr_8k * 8, 8),
            regs: [0u8; 11],
            ex_regs: [0u8; 4],
            is_2k_bank: false,
            is_not_2k_bank: false,
            mode: 0,
            bank: 0,
            irq_counter: 0,
            irq_enabled: false,
            irq_pending: false,
            mirroring: Mirroring::Vertical,
        };
        assert(r.regs@ =~= Seq::new(11, |i: int| 0u8));
        assert(r.ex_regs@ =~= seq![0u8, 0, 0, 0]);
        r
    }

    pub open spec fn prg_bank(self, addr: u16) -> int {
        let slot = (addr - 0x8000) / 0x2000;
        if (self.mode / 64) % 2 == 1 {
            let b16 = (self.bank % 64) as int;
            let fixed = ((self.bank / 16) % 4) * 16 + 15;
            if slot < 2 { b16 * 2 + slot } else { fixed * 2 + slot - 2 }
        } else if slot < 3 {
            self.regs@[8 + slot] as int
        } else {
            self.prg_8k_total - 1
        }
    }

    #[verifier::allow_in_spec]
    pub fn prg_index(&self, addr: u16) -> usize
        requires self.wf(), addr >= 0x8000,
        returns ((self.prg_bank(addr) % self.prg_8k_total as int) * 0x2000 + addr % 0x2000) as usize,
    {
        let slot = ((addr - 0x8000) / 0x2000) as usize;
        let bank: usize = if (self.mode / 64) % 2 == 1 {
            let b16 = (self.bank % 64) as usize;
            let fixed = ((self.bank / 16) % 4) as usize * 16 + 15;
            if slot < 2 { b16 * 2 + slot } else { fixed * 2 + slot - 2 }
        } else if slot < 3 {
            self.regs[8 + slot] as usize
        } else {
            self.prg_8k_total - 1
        };
        (bank % self.prg_8k_total) * 0x2000 + (addr % 0x2000) as usize
    }

    pub open spec fn chr_bank(self, addr: u16) -> int {
        let slot = lo13(addr) / 0x400;
        if self.is_2k_bank && !self.is_not_2k_bank {
            let pair = slot / 2;
            let reg = if pair == 0 { self.regs@[0] } else if pair == 1 { self.regs@[1] }
                else if pair == 2 { self.regs@[6] } else { self.regs@[7] };
            reg * 2 + slot % 2
        } else {
            self.regs@[slot] + ((self.bank / 16) % 4) * 256
        }
    }

    #[verifier::allow_in_spec]
    pub fn chr_index(&self, addr: u16) -> usize
        requires self.wf(),
        returns ((self.chr_bank(addr) % self.chr_1k_total as int) * 0x400 + addr % 0x400) as usize,
    {
        let slot = chr_off(addr) / 0x400;
        let bank: usize = if self.is_2k_bank && !self.is_not_2k_bank {
            let pair = slot / 2;
            let reg = if pair == 0 { self.regs[0] } else if pair == 1 { self.regs[1] }
                else if pair == 2 { self.regs[6] } else { self.regs[7] };
            reg as usize * 2 + slot % 2
        } else {
            self.regs[slot] as usize + ((self.bank / 16) % 4) as usize * 256
        };
        (bank % self.chr_1k_total) * 0x400 + (addr % 0x400) as usize
    }

    pub open spec fn wrote(o: Self, n: Self, addr: u16, value: u8) -> bool {
        let prg_reg = 0x8300 <= addr <= 0x8302;
        let chr_reg = 0x8310 <= addr <= 0x8317;
        let bank_write = addr == 0x8000 || addr == 0xB000 || addr == 0xB0FF || addr == 0xB1FF;
        &&& n.prg_8k_total == o.prg_8k_total && n.chr_1k_total == o.chr_1k_total && n.ex_regs@ == o.ex_regs@
        &&& n.regs@ == if prg_reg { o.regs@.update(addr - 0x8300 + 8, value) }
            else if chr_reg { o.regs@.update(addr - 0x8310, value) } else { o.regs@ }
        &&& n.is_not_2k_bank == (o.is_not_2k_bank || (0x8312 <= addr <= 0x8315))
        &&& n.is_2k_bank == (o.is_2k_bank || (!prg_reg && !chr_reg && addr == 0x8000))
        &&& n.bank == if !prg_reg && !chr_reg && bank_write { value } else { o.bank }
        &&& n.mode == if prg_reg { with_bit(o.mode as int, 64, false) as u8 }
            else if chr_reg { o.mode }
            else if bank_write { with_bit(o.mode as int, 64, true) as u8 }
            else if addr == 0x8100 { with_bit(value as int, 64, (value / 64) % 2 == 1 || (o.mode / 64) % 2 == 1) as u8 }
            else { o.mode }
        &&& n.irq_counter == if addr == 0x8200 { (o.irq_counter - o.irq_counter % 256 + value) as u16 }
            else if addr == 0x8201 { (o.irq_counter % 256 + value * 256) as u16 } else { o.irq_counter }
        &&& n.irq_pending == if addr == 0x8200 { false } else { o.irq_pending }
        &&& n.irq_enabled == if addr == 0x8201 { o.mode >= 0x80 } else { o.irq_enabled }
        &&& n.mirroring == vh_single(n.mode as int)
    }

    pub fn write_register(&mut self, addr: u16, value: u8)
        requires old(self).wf(),
        ensures Self::wrote(*old(self), *final(self), addr, value), final(self).wf(),
    {
        if 0x8300 <= addr && addr <= 0x8302 {
            if (self.mode / 64) % 2 == 1 {
                self.mode = self.mode - 64;
            }
            self.regs[(addr - 0x8300) as usize + 8] = value;
        } else if 0x8310 <= addr && addr <= 0x8317 {
            self.regs[(addr - 0x8310) as usize] = value;
            if 0x8312 <= addr && addr <= 0x8315 {
                self.is_not_2k_bank = true;
            }
        } else if addr == 0x8000 || addr == 0xB000 || addr == 0xB0FF || addr == 0xB1FF {
            if addr == 0x8000 {
                self.is_2k_bank = true;
            }
            self.bank = value;
            if (self.mode / 64) % 2 == 0 {
                self.mode = self.mode + 64;
            }
        } else if addr == 0x8100 {
            let keep = (self.mode / 64) % 2 == 1;
            self.mode = if (value / 64) % 2 == 0 && keep { value + 64 } else { value };
        } else if addr == 0x8200 {
            self.irq_counter = self.irq_counter - self.irq_counter % 256 + value as u16;
            self.irq_pending = false;
        } else if addr == 0x8201 {
            self.irq_enabled = self.mode >= 0x80;
            self.irq_counter = self.irq_counter % 256 + value as u16 * 256;
        }
        self.mirroring = vh_of(self.mode);
    }

    #[verifier::allow_in_spec]
    pub fn peek_expansion(&self, addr: u16) -> Option<u8>
        returns if addr == 0x5000 { Some(0u8) } else if 0x5100 <= addr <= 0x5103 { Some(self.ex_regs@[(addr % 4) as int]) } else { None },
    {
        if addr == 0x5000 {
            Some(0)
        } else if 0x5100 <= addr && addr <= 0x5103 {
            Some(self.ex_regs[(addr % 4) as usize])
        } else {
            None
        }
    }

    pub open spec fn expansion_wrote(o: Self, n: Self, addr: u16, value: u8) -> bool {
        n == (Mapper83 { ex_regs: n.ex_regs, ..o })
        && n.ex_regs@ == if 0x5100 <= addr <= 0x5103 { o.ex_regs@.update((addr % 4) as int, value) } else { o.ex_regs@ }
    }

    pub fn write_expansion(&mut self, addr: u16, value: u8)
        requires old(self).wf(),
        ensures Self::expansion_wrote(*old(self), *final(self), addr, value), final(self).wf(),
    {
        if 0x5100 <= addr && addr <= 0x5103 {
            self.ex_regs[(addr % 4) as usize] = value;
        }
    }

    #[verifier::allow_in_spec]
    pub fn mirroring(&self) -> Mirroring
        returns self.mirroring,
    {
        self.mirroring
    }

    /// While enabled and non-zero the counter counts down; reaching zero
    /// raises the IRQ, stops and leaves `$FFFF`.
    pub open spec fn after_cpu_clock(self) -> Self {
        if self.irq_enabled && self.irq_counter != 0 {
            if self.irq_counter == 1 { Mapper83 { irq_enabled: false, irq_counter: 0xFFFF, irq_pending: true, ..self } }
            else { Mapper83 { irq_counter: (self.irq_counter - 1) as u16, ..self } }
        } else {
            self
        }
    }

    pub fn cpu_clock(&mut self)
        requires old(self).wf(),
        ensures *final(self) == old(self).after_cpu_clock(), final(self).wf(),
    {
        if self.irq_enabled && self.irq_counter != 0 {
            self.irq_counter = self.irq_counter - 1;
            if self.irq_counter == 0 {
                self.irq_enabled = false;
                self.irq_counter = 0xFFFF;
                self.irq_pending = true;
            }
        }
    }

    #[verifier::allow_in_spec]
    pub fn clocks_cpu(&self) -> bool
        returns true,
    {
        true
    }

    #[verifier::allow_in_spec]
    pub fn irq(&self) -> bool
        returns self.irq_pending,
    {
        self.irq_pending
    }

    pub open spec fn after_clear_irq(self) -> Self {
        Mapper83 { irq_pending: false, ..self }
    }

    pub fn clear_irq(&mut self)
        requires old(self).wf(),
        ensures *final(self) == old(self).after_clear_irq(), final(self).wf(),
    {
        self.irq_pending = false;
    }
}

// ------------------------------------------------------------ Mapper 183

/// Gimmick bootleg (183): VRC-style registers decoded under mask `$F80C`
/// (three 8 KiB PRG banks, eight 1 KiB CHR nibble pairs), an 8 KiB bank at
/// `$6000` taken from the address of a `$6800-$6FFF` write, and an 8-bit
/// counter stepped every 114 CPU cycles whose overflow raises the IRQ one
/// cycle later.
#[derive(Debug, Clone, Copy)]
pub struct Mapper183 {
    pub prg_8k_total: usize,
    pub chr_1k_total: usize,
    pub chr: [u8; 8],
    pub prg: [u8; 3],
    pub low_prg: u8,
    pub mirroring: Mirroring,
    pub irq_counter: u8,
    pub irq_scaler: u8,
    pub irq_enabled: bool,
    pub need_irq: bool,
    pub irq_pending: bool,
}

/// The CHR register a `$B000-$E00C` write reaches.
pub open spec fn chr_slot_183(addr: u16) -> int {
    ((((addr / 0x800 - 6) as u16) | (addr / 8)) % 8) as int
}

fn chr_slot_of_183(addr: u16) -> (r: usize)
    requires 0x16 <= addr / 0x800,
    ensures r == chr_slot_183(addr), r < 8,
{
    (((addr / 0x800 - 6) | (addr / 8)) % 8) as usize
}

impl Mapper183 {
    pub open spec fn wf(&self) -> bool {
        &&& 4 <= self.prg_8k_total <= 2 * MAX_PRG_16K
        &&& 8 <= self.chr_1k_total <= 8 * MAX_CHR_8K
    }

    pub open spec fn fresh(self, prg_16k: usize, chr_8k: usize) -> bool {
        &&& self.prg_8k_total == at_least(prg_16k * 2, 4) && self.chr_1k_total == at_least(chr_8k * 8, 8)
        &&& self.chr@ == seq![0u8, 0, 0, 0, 0, 0, 0, 0] && self.prg@ == seq![0u8, 0, 0] && self.low_prg == 0
        &&& self.mirroring == Mirroring::Vertical && self.irq_counter == 0 && self.irq_scaler == 0
        &&& !self.irq_enabled && !self.need_irq && !self.irq_pending
    }

    pub fn new(prg_16k: usize, chr_8k: usize) -> (r: Self)
        requires prg_16k <= MAX_PRG_16K, chr_8k <= MAX_CHR_8K,
        ensures r.fresh(prg_16k, chr_8k), r.wf(),
    {
        let r = Mapper183 {
            prg_8k_total: at_least_of(prg_16k * 2, 4),
            chr_1k_total: at_least_of(chr_8k * 8, 8),
            chr: [0u8; 8],
            prg: [0u8; 3],
            low_prg: 0,
            mirroring: Mirroring::Vertical,
            irq_counter: 0,
            irq_scaler: 0,
            irq_enabled: false,
            need_irq: false,
            irq_pending: false,
        };
        assert(r.chr@ =~= seq![0u8, 0, 0, 0, 0, 0, 0, 0]);
        assert(r.prg@ =~= seq![0u8, 0, 0]);
        r
    }

    pub open spec fn prg_bank(self, addr: u16) -> int {
        let slot = (addr - 0x8000) / 0x2000;
        if slot < 3 { self.prg@[slot] as int } else { self.prg_8k_total - 1 }
    }

    #[verifier::allow_in_spec]
    pub fn prg_index(&self, addr: u16) -> usize
        requires self.wf(), addr >= 0x8000,
        returns ((self.prg_bank(addr) % self.prg_8k_total as int) * 0x2000 + addr % 0x2000) as usize,
    {
        let slot = ((addr - 0x8000) / 0x2000) as usize;
        let bank: usize = if slot < 3 { self.prg[slot] as usize } else { self.prg_8k_total - 1 };
        (bank % self.prg_8k_total) * 0x2000 + (addr % 0x2000) as usize
    }

    #[verifier::allow_in_spec]
    pub fn low_prg_index(&self, addr: u16) -> Option<usize>
        requires self.wf(),
        returns if 0x6000 <= addr <= 0x7FFF { Some(((self.low_prg as int % self.prg_8k_total as int) * 0x2000 + addr % 0x2000) as usize) } else { None },
    {
        if 0x6000 <= addr && addr <= 0x7FFF {
            Some((self.low_prg as usize % self.prg_8k_total) * 0x2000 + (addr % 0x2000) as usize)
        } else {
            None
        }
    }

    #[verifier::allow_in_spec]
    pub fn chr_index(&self, addr: u16) -> usize
        requires self.wf(),
        returns ((self.chr@[lo13(addr) / 0x400] as int % self.chr_1k_total as int) * 0x400 + addr % 0x400) as usize,
    {
        (self.chr[chr_off(addr) / 0x400] as usize % self.chr_1k_total) * 0x400 + (addr % 0x400) as usize
    }

    pub open spec fn any_wrote(o: Self, n: Self, addr: u16, value: u8) -> bool {
        let hi = addr / 0x800;
        let lo = (addr / 4) % 4;
        let v = (value % 16) as int;
        let chr_write = hi != 0xD && 0x16 <= hi <= 0x1C;
        let other = hi != 0xD && !chr_write;
        &&& n.prg_8k_total == o.prg_8k_total && n.chr_1k_total == o.chr_1k_total
        &&& n.low_prg == if hi == 0xD { (addr % 64) as u8 } else { o.low_prg }
        &&& n.chr@ == if chr_write { o.chr@.update(chr_slot_183(addr), with_nibble(o.chr@[chr_slot_183(addr)], v, lo % 2 == 1)) } else { o.chr@ }
        &&& n.prg@ == if other && lo == 0 && hi == 0x11 { o.prg@.update(0, value) }
            else if other && lo == 0 && hi == 0x15 { o.prg@.update(1, value) }
            else if other && lo == 0 && hi == 0x14 { o.prg@.update(2, value) } else { o.prg@ }
        &&& n.mirroring == if other && lo == 0 && hi == 0x13 { vh_single(value as int) } else { o.mirroring }
        &&& n.irq_counter == if other && hi == 0x1E && lo == 0 { with_nibble(o.irq_counter, v, false) }
            else if other && hi == 0x1E && lo == 1 { with_nibble(o.irq_counter, v, true) } else { o.irq_counter }
        &&& n.irq_enabled == if other && hi == 0x1E && lo == 2 { value != 0 } else { o.irq_enabled }
        &&& n.irq_scaler == if other && hi == 0x1E && lo == 2 && value == 0 { 0 } else { o.irq_scaler }
        &&& n.irq_pending == if other && hi == 0x1E && lo == 2 { false } else { o.irq_pending }
        &&& n.need_irq == o.need_irq
    }

    fn write_any(&mut self, addr: u16, value: u8)
        requires old(self).wf(),
        ensures Self::any_wrote(*old(self), *final(self), addr, value), final(self).wf(),
    {
        let hi = addr / 0x800;
        let lo = (addr / 4) % 4;
        let v = value % 16;
        if hi == 0xD {
            self.low_prg = (addr % 64) as u8;
        } else if 0x16 <= hi && hi <= 0x1C {
            let slot = chr_slot_of_183(addr);
            let upper = lo % 2 == 1;
            let old_bank = self.chr[slot];
            self.chr[slot] = if upper { old_bank % 16 + v * 16 } else { old_bank - old_bank % 16 + v };
        } else if lo == 0 && hi == 0x11 {
            self.prg[0] = value;
        } else if lo == 0 && hi == 0x15 {
            self.prg[1] = value;
        } else if lo == 0 && hi == 0x14 {
            self.prg[2] = value;
        } else if lo == 0 && hi == 0x13 {
            self.mirroring = vh_of(value);
        } else if hi == 0x1E && lo == 0 {
            self.irq_counter = self.irq_counter - self.irq_counter % 16 + v;
        } else if hi == 0x1E && lo == 1 {
            self.irq_counter = self.irq_counter % 16 + v * 16;
        } else if hi == 0x1E && lo == 2 {
            self.irq_enabled = value != 0;
            if !self.irq_enabled {
                self.irq_scaler = 0;
            }
            self.irq_pending = false;
        }
    }

    pub open spec fn wrote(o: Self, n: Self, addr: u16, value: u8) -> bool {
        Self::any_wrote(o, n, addr, value)
    }

    pub fn write_register(&mut self, addr: u16, value: u8)
        requires old(self).wf(),
        ensures Self::wrote(*old(self), *final(self), addr, value), final(self).wf(),
    {
        self.write_any(addr, value);
    }

    pub open spec fn claims_low(addr: u16) -> bool {
        0x6000 <= addr <= 0x7FFF
    }

    pub open spec fn low_wrote(o: Self, n: Self, addr: u16, value: u8) -> bool {
        if Self::claims_low(addr) { Self::any_wrote(o, n, addr, value) } else { n == o }
    }

    pub fn write_low_register(&mut self, addr: u16, value: u8) -> (r: bool)
        requires old(self).wf(),
        ensures r == Self::claims_low(addr), Self::low_wrote(*old(self), *final(self), addr, value), final(self).wf(),
    {
        if 0x6000 <= addr && addr <= 0x7FFF {
            self.write_any(addr, value);
            true
        } else {
            false
        }
    }

    #[verifier::allow_in_spec]
    pub fn mirroring(&self) -> Mirroring
        returns self.mirroring,
    {
        self.mirroring
    }

    /// A pending overflow raises the IRQ first; then the prescaler steps and
    /// every 114th cycle the enabled counter counts up, an overflow arming
    /// the IRQ for the next cycle.
    pub open spec fn after_cpu_clock(self) -> Self {
        let s0 = if self.need_irq { Mapper183 { irq_pending: true, need_irq: false, ..self } } else { self };
        let sc = ((s0.irq_scaler + 1) % 256) as u8;
        if sc == 114 {
            if s0.irq_enabled {
                let c = ((s0.irq_counter + 1) % 256) as u8;
                Mapper183 { irq_scaler: 0, irq_counter: c, need_irq: s0.need_irq || c == 0, ..s0 }
            } else {
                Mapper183 { irq_scaler: 0, ..s0 }
            }
        } else {
            Mapper183 { irq_scaler: sc, ..s0 }
        }
    }

    pub fn cpu_clock(&mut self)
        requires old(self).wf(),
        ensures *final(self) == old(self).after_cpu_clock(), final(self).wf(),
    {
        if self.need_irq {
            self.irq_pending = true;
            self.need_irq = false;
        }
        self.irq_scaler = self.irq_scaler.wrapping_add(1);
        if self.irq_scaler == 114 {
            self.irq_scaler = 0;
            if self.irq_enabled {
                self.irq_counter = self.irq_counter.wrapping_add(1);
                if self.irq_counter == 0 {
                    self.need_irq = true;
                }
            }
        }
    }

    #[verifier::allow_in_spec]
    pub fn clocks_cpu(&self) -> bool
        returns true,
    {
        true
    }

    #[verifier::allow_in_spec]
    pub fn irq(&self) -> bool
        returns self.irq_pending,
    {
        self.irq_pending
    }

    pub open spec fn after_clear_irq(self) -> Self {
        Mapper183 { irq_pending: false, ..self }
    }

    pub fn clear_irq(&mut self)
        requires old(self).wf(),
        ensures *final(self) == old(self).after_clear_irq(), final(self).wf(),
    {
        self.irq_pending = false;
    }
}

// ------------------------------------------------------------ Mapper 212

/// 830425C-4391T (212): the write address latches bank bits 0-2 for both
/// PRG (as a 32 KiB pair when address bit 14 is set) and CHR, and bit 3 for
/// horizontal mirroring. Reads of `$6000-$7FFF` with address bit 4 clear
/// return the PRG-RAM byte with bit 7 set.
#[derive(Debug, Clone, Copy)]
pub struct Mapper212 {
    pub prg_pages: [u8; 2],
    pub chr_bank: u8,
    pub mirroring: Mirroring,
}

impl Mapper212 {
    pub fn new() -> (r: Self)
        ensures r.prg_pages@ == seq![0u8, 0], r.chr_bank == 0, r.mirroring == Mirroring::Vertical,
    {
        Mapper212 { prg_pages: [0u8, 0], chr_bank: 0, mirroring: Mirroring::Vertical }
    }

    #[verifier::allow_in_spec]
    pub fn prg_index(&self, addr: u16) -> usize
        returns (self.prg_pages@[if addr < 0xC000 { 0int } else { 1int }] as int * 0x4000 + addr % 0x4000) as usize,
    {
        let slot: usize = if addr < 0xC000 { 0 } else { 1 };
        (self.prg_pages[slot] as usize) * 0x4000 + (addr % 0x4000) as usize
    }

    #[verifier::allow_in_spec]
    pub fn chr_index(&self, addr: u16) -> usize
        returns (self.chr_bank as int * 0x2000 + lo13(addr)) as usize,
    {
        (self.chr_bank as usize) * 0x2000 + chr_off(addr)
    }

    pub open spec fn wrote(o: Self, n: Self, addr: u16, value: u8) -> bool {
        let bank = (addr % 8) as int;
        &&& n.prg_pages@ == if (addr / 0x4000) % 2 == 1 { seq![(bank - bank % 2) as u8, (bank - bank % 2 + 1) as u8] }
            else { seq![bank as u8, bank as u8] }
        &&& n.chr_bank == bank as u8
        &&& n.mirroring == if (addr / 8) % 2 == 1 { Mirroring::Horizontal } else { Mirroring::Vertical }
    }

    pub fn write_register(&mut self, addr: u16, value: u8)
        ensures Self::wrote(*old(self), *final(self), addr, value),
    {
        let bank = (addr % 8) as u8;
        self.prg_pages = if (addr / 0x4000) % 2 == 1 { [bank - bank % 2, bank - bank % 2 + 1] } else { [bank, bank] };
        self.chr_bank = bank;
        self.mirroring = if (addr / 8) % 2 == 1 { Mirroring::Horizontal } else { Mirroring::Vertical };
        assert(self.prg_pages@ =~= if (addr / 0x4000) % 2 == 1 { seq![(bank - bank % 2) as u8, (bank - bank % 2 + 1) as u8] } else { seq![bank, bank] });
    }

    /// The low window reads back PRG-RAM with bit 7 forced on where address
    /// bits 13-15 are `011` and bit 4 is clear.
    #[verifier::allow_in_spec]
    pub fn peek_low_register_with_open_bus(&self, addr: u16, prg_ram_value: u8, open_bus: u8) -> Option<u8>
        returns if addr / 0x2000 == 3 && (addr / 16) % 2 == 0 {
            Some(if prg_ram_value >= 0x80 { prg_ram_value } else { (prg_ram_value + 0x80) as u8 })
        } else { None },
    {
        if addr / 0x2000 == 3 && (addr / 16) % 2 == 0 {
            Some(if prg_ram_value >= 0x80 { prg_ram_value } else { prg_ram_value + 0x80 })
        } else {
            None
        }
    }

    #[verifier::allow_in_spec]
    pub fn mirroring(&self) -> Mirroring
        returns self.mirroring,
    {
        self.mirroring
    }
}

// ------------------------------------------------------------ Mapper 222

/// VRC-like bootleg (222): two 8 KiB PRG registers with the last two banks
/// fixed, eight 1 KiB CHR registers (decoded under mask `$F003`), and an
/// up-counter loaded at `$F000` that steps on PPU A12 rises after at least 9
/// cycles low and raises the IRQ on reaching 240.
#[derive(Debug, Clone, Copy)]
pub struct Mapper222 {
    pub prg_8k_total: usize,
    pub chr_1k_total: usize,
    pub prg: [u8; 2],
    pub chr: [u8; 8],
    pub mirroring: Mirroring,
    pub irq_counter: u16,
    pub irq_pending: bool,
    pub a12_prev: bool,
    pub a12_low_since: u64,
}

impl Mapper222 {
    pub open spec fn wf(&self) -> bool {
        &&& 4 <= self.prg_8k_total <= 2 * MAX_PRG_16K
        &&& 8 <= self.chr_1k_total <= 8 * MAX_CHR_8K
        &&& self.irq_counter < 256
    }

    pub open spec fn fresh(self, prg_16k: usize, chr_8k: usize) -> bool {
        &&& self.prg_8k_total == at_least(prg_16k * 2, 4) && self.chr_1k_total == at_least(chr_8k * 8, 8)
        &&& self.prg@ == seq![0u8, 0] && self.chr@ == seq![0u8, 0, 0, 0, 0, 0, 0, 0]
        &&& self.mirroring == Mirroring::Vertical && self.irq_counter == 0 && !self.irq_pending
        &&& !self.a12_prev && self.a12_low_since == 0
    }

    pub fn new(prg_16k: usize, chr_8k: usize) -> (r: Self)
        requires prg_16k <= MAX_PRG_16K, chr_8k <= MAX_CHR_8K,
        ensures r.fresh(prg_16k, chr_8k), r.wf(),
    {
        let r = Mapper222 {
            prg_8k_total: at_least_of(prg_16k * 2, 4),
            chr_1k_total: at_least_of(chr_8k * 8, 8),
            prg: [0u8, 0],
            chr: [0u8; 8],
            mirroring: Mirroring::Vertical,
            irq_counter: 0,
            irq_pending: false,
            a12_prev: false,
            a12_low_since: 0,
        };
        assert(r.chr@ =~= seq![0u8, 0, 0, 0, 0, 0, 0, 0]);
        r
    }

    pub open spec fn prg_bank(self, addr: u16) -> int {
        let slot = (addr - 0x8000) / 0x2000;
        if slot < 2 { self.prg@[slot] as int } else { self.prg_8k_total - 4 + slot }
    }

    #[verifier::allow_in_spec]
    pub fn prg_index(&self, addr: u16) -> usize
        requires self.wf(), addr >= 0x8000,
        returns ((self.prg_bank(addr) % self.prg_8k_total as int) * 0x2000 + addr % 0x2000) as usize,
    {
        let slot = ((addr - 0x8000) / 0x2000) as usize;
        let bank: usize = if slot < 2 { self.prg[slot] as usize } else { self.prg_8k_total - 4 + slot };
        (bank % self.prg_8k_total) * 0x2000 + (addr % 0x2000) as usize
    }

    #[verifier::allow_in_spec]
    pub fn chr_index(&self, addr: u16) -> usize
        requires self.wf(),
        returns ((self.chr@[lo13(addr) / 0x400] as int % self.chr_1k_total as int) * 0x400 + addr % 0x400) as usize,
    {
        (self.chr[chr_off(addr) / 0x400] as usize % self.chr_1k_total) * 0x400 + (addr % 0x400) as usize
    }

    pub open spec fn wrote(o: Self, n: Self, addr: u16, value: u8) -> bool {
        let hi = (addr / 0x1000) as int;
        let lo = (addr % 4) as int;
        let chr_write = 0xB <= hi <= 0xE && (lo == 0 || lo == 2);
        &&& n.prg_8k_total == o.prg_8k_total && n.chr_1k_total == o.chr_1k_total
        &&& n.a12_prev == o.a12_prev && n.a12_low_since == o.a12_low_since
        &&& n.prg@ == if hi == 8 && lo == 0 { o.prg@.update(0, value) } else if hi == 0xA && lo == 0 { o.prg@.update(1, value) } else { o.prg@ }
        &&& n.mirroring == if hi == 9 && lo == 0 { if value % 2 == 1 { Mirroring::Horizontal } else { Mirroring::Vertical } } else { o.mirroring }
        &&& n.chr@ == if chr_write { o.chr@.update((hi - 0xB) * 2 + lo / 2, value) } else { o.chr@ }
        &&& n.irq_counter == if hi == 0xF && lo == 0 { value as u16 } else { o.irq_counter }
        &&& n.irq_pending == if hi == 0xF && lo == 0 { false } else { o.irq_pending }
    }

    pub fn write_register(&mut self, addr: u16, value: u8)
        requires old(self).wf(),
        ensures Self::wrote(*old(self), *final(self), addr, value), final(self).wf(),
    {
        let hi = addr / 0x1000;
        let lo = addr % 4;
        if hi == 8 && lo == 0 {
            self.prg[0] = value;
        } else if hi == 9 && lo == 0 {
            self.mirroring = if value % 2 == 1 { Mirroring::Horizontal } else { Mirroring::Vertical };
        } else if hi == 0xA && lo == 0 {
            self.prg[1] = value;
        } else if 0xB <= hi && hi <= 0xE && (lo == 0 || lo == 2) {
            self.chr[((hi - 0xB) * 2 + lo / 2) as usize] = value;
        } else if hi == 0xF && lo == 0 {
            self.irq_counter = value as u16;
            self.irq_pending = false;
        }
    }

    #[verifier::allow_in_spec]
    pub fn mirroring(&self) -> Mirroring
        returns self.mirroring,
    {
        self.mirroring
    }

    pub open spec fn a12_noted(o: Self, n: Self, addr: u16, cycle: u64) -> bool {
        let a12 = (addr / 0x1000) % 2 == 1;
        let step = a12 && !o.a12_prev && since(cycle, o.a12_low_since) >= 9 && o.irq_counter != 0;
        let c = o.irq_counter + 1;
        &&& n.prg_8k_total == o.prg_8k_total && n.chr_1k_total == o.chr_1k_total
        &&& n.prg@ == o.prg@ && n.chr@ == o.chr@ && n.mirroring == o.mirroring
        &&& n.irq_counter == if step { if c >= 240 { 0 } else { c as u16 } } else { o.irq_counter }
        &&& n.irq_pending == (o.irq_pending || (step && c >= 240))
        &&& n.a12_low_since == if !a12 && o.a12_prev { cycle } else { o.a12_low_since }
        &&& n.a12_prev == a12
    }

    pub fn notify_a12(&mut self, addr: u16, cycle: u64)
        requires old(self).wf(),
        ensures Self::a12_noted(*old(self), *final(self), addr, cycle), final(self).wf(),
    {
        let a12 = (addr / 0x1000) % 2 == 1;
        if a12 && !self.a12_prev {
            if cycle.wrapping_sub(self.a12_low_since) >= 9 && self.irq_counter != 0 {
                self.irq_counter = self.irq_counter + 1;
                if self.irq_counter >= 240 {
                    self.irq_pending = true;
                    self.irq_counter = 0;
                }
            }
        } else if !a12 && self.a12_prev {
            self.a12_low_since = cycle;
        }
        self.a12_prev = a12;
    }

    #[verifier::allow_in_spec]
    pub fn watches_ppu_bus(&self) -> bool
        returns true,
    {
        true
    }

    #[verifier::allow_in_spec]
    pub fn irq(&self) -> bool
        returns self.irq_pending,
    {
        self.irq_pending
    }

    pub open spec fn after_clear_irq(self) -> Self {
        Mapper222 { irq_pending: false, ..self }
    }

    pub fn clear_irq(&mut self)
        requires old(self).wf(),
        ensures *final(self) == old(self).after_clear_irq(), final(self).wf(),
    {
        self.irq_pending = false;
    }
}

// ------------------------------------------------------------ Mapper 235

/// 150-in-1 (235): the write address is the command register — a 32 KiB
/// bank from bits 0-4 and 8-9, a 16 KiB half (bit 12) when bit 11 is set,
/// one-screen (bit 10) or horizontal (bit 13) mirroring — and a bank past
/// the ROM floats the bus until the next read. On boards with the extra
/// UNROM chip a soft reset toggles into UNROM mode, where the data byte
/// picks a 16 KiB bank in the ROM's last 1 MiB block.
#[derive(Debug, Clone, Copy)]
pub struct Mapper235 {
    pub prg_16k_total: usize,
    pub cmdreg: u16,
    pub unrom: bool,
    pub unrom_data: u8,
    pub open_bus_latched: bool,
    pub mirroring: Mirroring,
}

impl Mapper235 {
    pub open spec fn wf(&self) -> bool {
        1 <= self.prg_16k_total <= MAX_PRG_16K
    }

    pub fn new(prg_16k: usize) -> (r: Self)
        requires prg_16k <= MAX_PRG_16K,
        ensures
            r == (Mapper235 { prg_16k_total: at_least(prg_16k as int, 1) as usize, cmdreg: 0, unrom: false, unrom_data: 0,
                open_bus_latched: false, mirroring: Mirroring::Vertical }),
            r.wf(),
    {
        Mapper235 { prg_16k_total: at_least_of(prg_16k, 1), cmdreg: 0, unrom: false, unrom_data: 0,
            open_bus_latched: false, mirroring: Mirroring::Vertical }
    }

    pub open spec fn prg_32k_count(self) -> int {
        at_least(self.prg_16k_total as int / 2, 1)
    }

    pub open spec fn selected_32k_bank(self) -> int {
        ((self.cmdreg / 256) % 4) * 32 + (self.cmdreg % 32) as int
    }

    /// What the command register implies for the open-bus latch and the
    /// mirroring.
    pub open spec fn updated(self) -> Self {
        if self.unrom {
            Mapper235 { open_bus_latched: false, mirroring: Mirroring::Vertical, ..self }
        } else {
            Mapper235 {
                open_bus_latched: self.selected_32k_bank() >= self.prg_32k_count(),
                mirroring: if (self.cmdreg / 0x400) % 2 == 1 { Mirroring::SingleScreenLow }
                    else if (self.cmdreg / 0x2000) % 2 == 1 { Mirroring::Horizontal } else { Mirroring::Vertical },
                ..self
            }
        }
    }

    fn update_state(&mut self)
        requires old(self).wf(),
        ensures *final(self) == old(self).updated(), final(self).wf(),
    {
        if self.unrom {
            self.open_bus_latched = false;
            self.mirroring = Mirroring::Vertical;
            return;
        }
        let bank = ((self.cmdreg / 256) % 4) as usize * 32 + (self.cmdreg % 32) as usize;
        let count = if self.prg_16k_total / 2 < 1 { 1 } else { self.prg_16k_total / 2 };
        self.open_bus_latched = bank >= count;
        self.mirroring = if (self.cmdreg / 0x400) % 2 == 1 {
            Mirroring::SingleScreenLow
        } else if (self.cmdreg / 0x2000) % 2 == 1 {
            Mirroring::Horizontal
        } else {
            Mirroring::Vertical
        };
    }

    pub open spec fn prg_bank_16k(self, addr: u16) -> int {
        if self.unrom {
            let high = ((self.prg_16k_total / 64) % 4) * 64;
            if addr < 0xC000 { high + self.unrom_data % 8 } else { high + 7 }
        } else if (self.cmdreg / 0x800) % 2 == 1 {
            self.selected_32k_bank() * 2 + (self.cmdreg / 0x1000) % 2
        } else {
            self.selected_32k_bank() * 2 + (if addr < 0xC000 { 0int } else { 1int })
        }
    }

    #[verifier::allow_in_spec]
    pub fn prg_index(&self, addr: u16) -> usize
        requires self.wf(), addr >= 0x8000,
        returns (self.prg_bank_16k(addr) * 0x4000 + addr % 0x4000) as usize,
    {
        if self.unrom {
            let high = ((self.prg_16k_total / 64) % 4) * 64;
            let bank = if addr < 0xC000 { high + (self.unrom_data % 8) as usize } else { high + 7 };
            return bank * 0x4000 + (addr % 0x4000) as usize;
        }
        let bank = ((self.cmdreg / 256) % 4) as usize * 32 + (self.cmdreg % 32) as usize;
        if (self.cmdreg / 0x800) % 2 == 1 {
            (bank * 2 + ((self.cmdreg / 0x1000) % 2) as usize) * 0x4000 + (addr % 0x4000) as usize
        } else {
            bank * 0x8000 + (addr - 0x8000) as usize
        }
    }

    #[verifier::allow_in_spec]
    pub fn chr_index(&self, addr: u16) -> usize
        returns lo13(addr) as usize,
    {
        chr_off(addr)
    }

    pub open spec fn written(self, addr: u16, value: u8) -> Self {
        (Mapper235 { cmdreg: addr, unrom_data: value, ..self }).updated()
    }

    pub fn write_register(&mut self, addr: u16, value: u8)
        requires old(self).wf(),
        ensures *final(self) == old(self).written(addr, value), final(self).wf(),
    {
        self.cmdreg = addr;
        self.unrom_data = value;
        self.update_state();
    }

    /// A read while the bus floats returns the open-bus value and drops the
    /// latch.
    pub open spec fn after_read(self, addr: u16, prg_value: u8, open_bus: u8) -> Self {
        Mapper235 { open_bus_latched: false, ..self }
    }

    pub fn read_register_with_open_bus(&mut self, addr: u16, prg_value: u8, open_bus: u8) -> (r: Option<u8>)
        requires old(self).wf(),
        ensures r == old(self).peek_register_with_open_bus(addr, prg_value, open_bus),
            *final(self) == old(self).after_read(addr, prg_value, open_bus), final(self).wf(),
    {
        if self.open_bus_latched {
            self.open_bus_latched = false;
            Some(open_bus)
        } else {
            None
        }
    }

    #[verifier::allow_in_spec]
    pub fn peek_register_with_open_bus(&self, addr: u16, prg_value: u8, open_bus: u8) -> Option<u8>
        returns if self.open_bus_latched { Some(open_bus) } else { None },
    {
        if self.open_bus_latched { Some(open_bus) } else { None }
    }

    #[verifier::allow_in_spec]
    pub fn mirroring(&self) -> Mirroring
        returns self.mirroring,
    {
        self.mirroring
    }

    /// Any reset clears the registers; a power cycle leaves UNROM mode, a
    /// soft reset toggles it on images whose size has bit 3 (in 16 KiB
    /// banks) set.
    pub open spec fn after_reset(self, soft: bool) -> Self {
        let unrom = if !soft { false } else if (self.prg_16k_total / 8) % 2 == 1 { !self.unrom } else { self.unrom };
        (Mapper235 { cmdreg: 0, unrom_data: 0, unrom, ..self }).updated()
    }

    pub fn reset(&mut self, soft: bool)
        requires old(self).wf(),
        ensures *final(self) == old(self).after_reset(soft), final(self).wf(),
    {
        self.cmdreg = 0;
        self.unrom_data = 0;
        if !soft {
            self.unrom = false;
        } else if (self.prg_16k_total / 8) % 2 == 1 {
            self.unrom = !self.unrom;
        }
        self.update_state();
    }
}

} // verus!
