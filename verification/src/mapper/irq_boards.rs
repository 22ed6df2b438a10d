//! Boards with their own IRQ counters: Jaleco SS88006 (18), the FDS
//! conversions 40, 42 and 50, Irem H3001 (65), Sunsoft-3 (67), Konami VRC3
//! (73) and the Future Media board (117).

use vstd::prelude::*;

verus! {

use crate::mapper::latch::{lo13, chr_off};
use crate::mapper::{MAX_CHR_8K, MAX_PRG_16K};
use crate::types::Mirroring;

/// `n`, but at least `floor`.
pub open spec fn at_least(n: int, floor: int) -> int {
    if n < floor { floor } else { n }
}

fn at_least_usize(n: usize, floor: usize) -> (r: usize)
    ensures r == at_least(n as int, floor as int),
{
    if n < floor { floor } else { n }
}

/// Mirroring from two data bits in the order H, V, one-screen low, high.
pub open spec fn hv_single(v: int) -> Mirroring {
    let m = v % 4;
    if m == 0 { Mirroring::Horizontal } else if m == 1 { Mirroring::Vertical }
    else if m == 2 { Mirroring::SingleScreenLow } else { Mirroring::SingleScreenHigh }
}

/// Mirroring from two data bits in the order V, H, one-screen low, high.
pub open spec fn vh_single(v: int) -> Mirroring {
    let m = v % 4;
    if m == 0 { Mirroring::Vertical } else if m == 1 { Mirroring::Horizontal }
    else if m == 2 { Mirroring::SingleScreenLow } else { Mirroring::SingleScreenHigh }
}

fn mirroring_of(m: u8, horizontal_first: bool) -> (r: Mirroring)
    requires m < 4,
    ensures r == if horizontal_first { hv_single(m as int) } else { vh_single(m as int) },
{
    if m == 0 {
        if horizontal_first { Mirroring::Horizontal } else { Mirroring::Vertical }
    } else if m == 1 {
        if horizontal_first { Mirroring::Vertical } else { Mirroring::Horizontal }
    } else if m == 2 {
        Mirroring::SingleScreenLow
    } else {
        Mirroring::SingleScreenHigh
    }
}

/// One side of a PPU A12 watcher: the cycles since A12 last fell, wrapping.
pub open spec fn since(cycle: u64, mark: u64) -> int {
    if cycle >= mark { cycle - mark } else { cycle - mark + 0x1_0000_0000_0000_0000 }
}

// ------------------------------------------------------------ Mapper 18

/// Jaleco SS88006: nibble-wide registers for three 8 KiB PRG banks and eight
/// 1 KiB CHR banks (address bit 0 picks the high nibble), a 16-bit reload
/// assembled from four nibbles, and a down-counter of 16, 12, 8 or 4 bits.
#[derive(Debug, Clone, Copy)]
pub struct Mapper18 {
    pub prg_8k_total: usize,
    pub chr_1k_total: usize,
    pub prg: [u8; 3],
    pub chr: [u8; 8],
    pub mirroring: Mirroring,
    pub irq_reload: [u8; 4],
    pub irq_counter: u16,
    pub irq_counter_size: u8,
    pub irq_enabled: bool,
    pub irq_pending: bool,
}

/// The counter width's modulus for a size code (16, 12, 8 or 4 bits).
pub open spec fn counter_modulus(size: u8) -> int {
    if size == 0 { 0x10000 } else if size == 1 { 0x1000 } else if size == 2 { 0x100 } else { 0x10 }
}

/// A nibble replaced: the high one when `upper`, else the low one.
pub open spec fn with_nibble(old: u8, v: int, upper: bool) -> u8 {
    (if upper { old % 16 + v * 16 } else { old - old % 16 + v }) as u8
}

fn set_nibble(old: u8, v: u8, upper: bool) -> (r: u8)
    requires v < 16,
    ensures r == with_nibble(old, v as int, upper),
{
    if upper { old % 16 + v * 16 } else { old - old % 16 + v }
}

impl Mapper18 {
    pub open spec fn wf(&self) -> bool {
        &&& 4 <= self.prg_8k_total <= 2 * MAX_PRG_16K
        &&& 8 <= self.chr_1k_total <= 8 * MAX_CHR_8K
        &&& self.irq_counter_size < 4
        &&& forall|i: int| 0 <= i < 4 ==> #[trigger] self.irq_reload@[i] < 16
    }

    pub open spec fn fresh(self, prg_16k: usize, chr_8k: usize) -> bool {
        &&& self.prg_8k_total == at_least(prg_16k * 2, 4) && self.chr_1k_total == at_least(chr_8k * 8, 8)
        &&& self.prg@ == seq![0u8, 0, 0] && self.chr@ == seq![0u8, 0, 0, 0, 0, 0, 0, 0]
        &&& self.mirroring == Mirroring::Horizontal && self.irq_reload@ == seq![0u8, 0, 0, 0]
        &&& self.irq_counter == 0 && self.irq_counter_size == 0 && !self.irq_enabled && !self.irq_pending
    }

    pub fn new(prg_16k: usize, chr_8k: usize) -> (r: Self)
        requires prg_16k <= MAX_PRG_16K, chr_8k <= MAX_CHR_8K,
        ensures r.fresh(prg_16k, chr_8k), r.wf(),
    {
        let r = Mapper18 {
            prg_8k_total: at_least_usize(prg_16k * 2, 4),
            chr_1k_total: at_least_usize(chr_8k * 8, 8),
            prg: [0u8; 3],
            chr: [0u8; 8],
            mirroring: Mirroring::Horizontal,
            irq_reload: [0u8; 4],
            irq_counter: 0,
            irq_counter_size: 0,
            irq_enabled: false,
            irq_pending: false,
        };
        assert(r.prg@ =~= seq![0u8, 0, 0]);
        assert(r.chr@ =~= seq![0u8, 0, 0, 0, 0, 0, 0, 0]);
        assert(r.irq_reload@ =~= seq![0u8, 0, 0, 0]);
        r
    }

    pub open spec fn prg_bank(self, addr: u16) -> int {
        let slot = (addr - 0x8000) / 0x2000;
        if slot < 3 { self.prg@[slot] as int } else { self.prg_8k_total - 1 }
    }

    #[verifier::allow_in_spec]
    pub fn prg_index(&self, addr: u16) -> usize
        requires self.wf(), addr >= 0x8000,
        returns ((self.prg_bank(addr) % self.prg_8k_total as int) * 0x2000 + addr % 0x2000) as usize,
    {
        let slot = ((addr - 0x8000) / 0x2000) as usize;
        let bank: usize = if slot < 3 { self.prg[slot] as usize } else { self.prg_8k_total - 1 };
        (bank % self.prg_8k_total) * 0x2000 + (addr % 0x2000) as usize
    }

    #[verifier::allow_in_spec]
    pub fn chr_index(&self, addr: u16) -> usize
        requires self.wf(),
        returns ((self.chr@[((addr / 0x400) % 8) as int] as int % self.chr_1k_total as int) * 0x400 + addr % 0x400) as usize,
    {
        (self.chr[((addr / 0x400) % 8) as usize] as usize % self.chr_1k_total) * 0x400 + (addr % 0x400) as usize
    }

    /// The reload value: the four nibble registers, lowest first.
    pub open spec fn reload_value(self) -> int {
        self.irq_reload@[0] + self.irq_reload@[1] * 16 + self.irq_reload@[2] * 256 + self.irq_reload@[3] * 4096
    }

    /// Which PRG (`$8000-$9001`) or CHR (`$A000-$D003`) slot a write reaches;
    /// address bit 1 picks the second of a pair.
    pub open spec fn wrote(o: Self, n: Self, addr: u16, value: u8) -> bool {
        let hi = (addr / 0x1000) as int;
        let lo = (addr % 4) as int;
        let upper = addr % 2 == 1;
        let v = (value % 16) as int;
        &&& n.prg_8k_total == o.prg_8k_total && n.chr_1k_total == o.chr_1k_total
        &&& n.prg@ == if hi == 8 { o.prg@.update(lo / 2, with_nibble(o.prg@[lo / 2], v, upper)) }
            else if hi == 9 && lo < 2 { o.prg@.update(2, with_nibble(o.prg@[2], v, upper)) } else { o.prg@ }
        &&& n.chr@ == if 0xA <= hi <= 0xD {
                let slot = (hi - 0xA) * 2 + lo / 2;
                o.chr@.update(slot, with_nibble(o.chr@[slot], v, upper))
            } else { o.chr@ }
        &&& n.irq_reload@ == if hi == 0xE { o.irq_reload@.update(lo as int, v as u8) } else { o.irq_reload@ }
        &&& n.irq_counter == if hi == 0xF && lo == 0 { o.reload_value() as u16 } else { o.irq_counter }
        &&& n.irq_pending == if hi == 0xF && lo < 2 { false } else { o.irq_pending }
        &&& n.irq_enabled == if hi == 0xF && lo == 1 { v % 2 == 1 } else { o.irq_enabled }
        &&& n.irq_counter_size == if hi == 0xF && lo == 1 {
                (if v >= 8 { 3u8 } else if v >= 4 { 2u8 } else if v >= 2 { 1u8 } else { 0u8 })
            } else { o.irq_counter_size }
        &&& n.mirroring == if hi == 0xF && lo == 2 { hv_single(v) } else { o.mirroring }
    }

    pub fn write_register(&mut self, addr: u16, value: u8)
        requires old(self).wf(),
        ensures Self::wrote(*old(self), *final(self), addr, value), final(self).wf(),
    {
        let hi = addr / 0x1000;
        let lo = (addr % 4) as usize;
        let upper = addr % 2 == 1;
        let v = value % 16;
        if hi == 8 {
            let b = set_nibble(self.prg[lo / 2], v, upper);
            self.prg[lo / 2] = b;
        } else if hi == 9 {
            if lo < 2 {
                let b = set_nibble(self.prg[2], v, upper);
                self.prg[2] = b;
            }
        } else if 0xA <= hi && hi <= 0xD {
            let slot = ((hi - 0xA) * 2) as usize + lo / 2;
            let b = set_nibble(self.chr[slot], v, upper);
            self.chr[slot] = b;
        } else if hi == 0xE {
            self.irq_reload[lo] = v;
        } else if hi == 0xF {
            if lo == 0 {
                self.irq_pending = false;
                self.irq_counter = self.irq_reload[0] as u16 + self.irq_reload[1] as u16 * 16
                    + self.irq_reload[2] as u16 * 256 + self.irq_reload[3] as u16 * 4096;
            } else if lo == 1 {
                self.irq_pending = false;
                self.irq_enabled = v % 2 == 1;
                self.irq_counter_size = if v >= 8 { 3 } else if v >= 4 { 2 } else if v >= 2 { 1 } else { 0 };
            } else if lo == 2 {
                self.mirroring = mirroring_of(v % 4, true);
            }
        }
    }

    #[verifier::allow_in_spec]
    pub fn mirroring(&self) -> Mirroring
        returns self.mirroring,
    {
        self.mirroring
    }

    /// While enabled, the low `size` bits count down (wrapping within that
    /// width, the bits above untouched); reaching zero raises the IRQ.
    pub open spec fn cpu_ticked(o: Self, n: Self) -> bool {
        let m = counter_modulus(o.irq_counter_size);
        let c = (o.irq_counter as int) % m;
        let next = (c + m - 1) % m;
        &&& n.prg_8k_total == o.prg_8k_total && n.chr_1k_total == o.chr_1k_total
        &&& n.prg@ == o.prg@ && n.chr@ == o.chr@ && n.mirroring == o.mirroring
        &&& n.irq_reload@ == o.irq_reload@ && n.irq_counter_size == o.irq_counter_size
        &&& n.irq_enabled == o.irq_enabled
        &&& n.irq_counter == if o.irq_enabled { (o.irq_counter - c + next) as u16 } else { o.irq_counter }
        &&& n.irq_pending == (o.irq_pending || (o.irq_enabled && next == 0))
    }

    pub fn cpu_clock(&mut self)
        requires old(self).wf(),
        ensures Self::cpu_ticked(*old(self), *final(self)), final(self).wf(),
    {
        if !self.irq_enabled {
            return;
        }
        let m: u32 = if self.irq_counter_size == 0 {
            0x10000
        } else if self.irq_counter_size == 1 {
            0x1000
        } else if self.irq_counter_size == 2 {
            0x100
        } else {
            0x10
        };
        let c = self.irq_counter as u32 % m;
        let next = (c + m - 1) % m;
        if next == 0 {
            self.irq_pending = true;
        }
        self.irq_counter = (self.irq_counter as u32 - c + next) as u16;
    }

    #[verifier::allow_in_spec]
    pub fn clocks_cpu(&self) -> bool
        returns true,
    {
        true
    }

    #[verifier::allow_in_spec]
    pub fn irq(&self) -> bool
        returns self.irq_pending,
    {
        self.irq_pending
    }

    pub open spec fn after_clear_irq(self) -> Self {
        Mapper18 { irq_pending: false, ..self }
    }

    pub fn clear_irq(&mut self)
        requires old(self).wf(),
        ensures *final(self) == old(self).after_clear_irq(), final(self).wf(),
    {
        self.irq_pending = false;
    }
}

// ------------------------------------------------------------ Mapper 40

/// SMB2j conversion: 8 KiB banks 4, 5, a switchable one at `$C000` and 7,
/// bank 6 at `$6000`; `$8000` stops and acknowledges the counter, `$A000`
/// loads 4096, `$E000` picks the bank.
#[derive(Debug, Clone, Copy)]
pub struct Mapper40 {
    pub variable_prg_bank: u8,
    pub mirroring: Mirroring,
    pub irq_counter: u16,
    pub irq_pending: bool,
}

impl Mapper40 {
    pub fn new(mirroring: Mirroring) -> (r: Self)
        ensures r == (Mapper40 { variable_prg_bank: 0, mirroring, irq_counter: 0, irq_pending: false }),
    {
        Mapper40 { variable_prg_bank: 0, mirroring, irq_counter: 0, irq_pending: false }
    }

    pub open spec fn prg_bank(self, addr: u16) -> int {
        let slot = (addr - 0x8000) / 0x2000;
        if slot == 0 { 4 } else if slot == 1 { 5 } else if slot == 2 { self.variable_prg_bank as int } else { 7 }
    }

    #[verifier::allow_in_spec]
    pub fn prg_index(&self, addr: u16) -> usize
        requires addr >= 0x8000,
        returns (self.prg_bank(addr) * 0x2000 + addr % 0x2000) as usize,
    {
        let slot = (addr - 0x8000) / 0x2000;
        let bank: usize = if slot == 0 { 4 } else if slot == 1 { 5 } else if slot == 2 { self.variable_prg_bank as usize } else { 7 };
        bank * 0x2000 + (addr % 0x2000) as usize
    }

    #[verifier::allow_in_spec]
    pub fn chr_index(&self, addr: u16) -> usize
        returns lo13(addr) as usize,
    {
        chr_off(addr)
    }

    pub open spec fn written(self, addr: u16, value: u8) -> Self {
        let key = addr / 0x2000;
        if key == 4 { Mapper40 { irq_counter: 0, irq_pending: false, ..self } }
        else if key == 5 { Mapper40 { irq_counter: 4096, ..self } }
        else if key == 7 { Mapper40 { variable_prg_bank: value, ..self } }
        else { self }
    }

    pub fn write_register(&mut self, addr: u16, value: u8)
        ensures *final(self) == old(self).written(addr, value),
    {
        let key = addr / 0x2000;
        if key == 4 {
            self.irq_counter = 0;
            self.irq_pending = false;
        } else if key == 5 {
            self.irq_counter = 4096;
        } else if key == 7 {
            self.variable_prg_bank = value;
        }
    }

    #[verifier::allow_in_spec]
    pub fn low_prg_index(&self, addr: u16) -> Option<usize>
        returns if 0x6000 <= addr <= 0x7FFF { Some((6 * 0x2000 + addr % 0x2000) as usize) } else { None },
    {
        if 0x6000 <= addr && addr <= 0x7FFF { Some(6 * 0x2000 + (addr % 0x2000) as usize) } else { None }
    }

    #[verifier::allow_in_spec]
    pub fn mirroring(&self) -> Mirroring
        returns self.mirroring,
    {
        self.mirroring
    }

    /// A running counter counts down; reaching zero raises the IRQ and stops.
    pub open spec fn after_cpu_clock(self) -> Self {
        if self.irq_counter == 0 { self }
        else { Mapper40 { irq_counter: (self.irq_counter - 1) as u16, irq_pending: self.irq_pending || self.irq_counter == 1, ..self } }
    }

    pub fn cpu_clock(&mut self)
        ensures *final(self) == old(self).after_cpu_clock(),
    {
        if self.irq_counter == 0 {
            return;
        }
        self.irq_counter = self.irq_counter - 1;
        if self.irq_counter == 0 {
            self.irq_pending = true;
        }
    }

    #[verifier::allow_in_spec]
    pub fn clocks_cpu(&self) -> bool
        returns true,
    {
        true
    }

    #[verifier::allow_in_spec]
    pub fn irq(&self) -> bool
        returns self.irq_pending,
    {
        self.irq_pending
    }

    pub open spec fn after_clear_irq(self) -> Self {
        Mapper40 { irq_pending: false, ..self }
    }

    pub fn clear_irq(&mut self)
        ensures *final(self) == old(self).after_clear_irq(),
    {
        self.irq_pending = false;
    }
}

// ------------------------------------------------------------ Mapper 42

/// Bio Miracle conversion: the last 32 KiB fixed, an 8 KiB bank at `$6000`,
/// an 8 KiB CHR bank; the IRQ counter runs modulo `$8000` and holds /IRQ
/// from `$6000` on.
#[derive(Debug, Clone, Copy)]
pub struct Mapper42 {
    pub prg_8k_total: usize,
    pub low_prg_bank: u8,
    pub chr_bank: u8,
    pub mirroring: Mirroring,
    pub irq_counter: u16,
    pub irq_enabled: bool,
    pub irq_pending: bool,
}

impl Mapper42 {
    pub open spec fn wf(&self) -> bool {
        4 <= self.prg_8k_total <= 2 * MAX_PRG_16K
    }

    pub fn new(prg_16k: usize, mirroring: Mirroring) -> (r: Self)
        requires prg_16k <= MAX_PRG_16K,
        ensures
            r == (Mapper42 { prg_8k_total: at_least(prg_16k * 2, 4) as usize, low_prg_bank: 0, chr_bank: 0, mirroring,
                irq_counter: 0, irq_enabled: false, irq_pending: false }),
            r.wf(),
    {
        Mapper42 { prg_8k_total: at_least_usize(prg_16k * 2, 4), low_prg_bank: 0, chr_bank: 0, mirroring,
            irq_counter: 0, irq_enabled: false, irq_pending: false }
    }

    #[verifier::allow_in_spec]
    pub fn prg_index(&self, addr: u16) -> usize
        requires self.wf(), addr >= 0x8000,
        returns ((self.prg_8k_total - 4 + (addr - 0x8000) / 0x2000) * 0x2000 + addr % 0x2000) as usize,
    {
        (self.prg_8k_total - 4 + ((addr - 0x8000) / 0x2000) as usize) * 0x2000 + (addr % 0x2000) as usize
    }

    #[verifier::allow_in_spec]
    pub fn chr_index(&self, addr: u16) -> usize
        returns (self.chr_bank as int * 0x2000 + lo13(addr)) as usize,
    {
        (self.chr_bank as usize) * 0x2000 + chr_off(addr)
    }

    /// `$8000` CHR bank, `$E000` the `$6000` bank, `$E001` mirroring (bit 3,
    /// horizontal), `$E002` the IRQ switch (value 2 runs it; anything else
    /// stops, clears and acknowledges it), decoded under mask `$E003`.
    pub open spec fn written(self, addr: u16, value: u8) -> Self {
        let key = addr / 0x2000;
        let lo = addr % 4;
        if key == 4 && lo == 0 { Mapper42 { chr_bank: value % 16, ..self } }
        else if key == 7 && lo == 0 { Mapper42 { low_prg_bank: value % 16, ..self } }
        else if key == 7 && lo == 1 { Mapper42 { mirroring: if (value / 8) % 2 == 1 { Mirroring::Horizontal } else { Mirroring::Vertical }, ..self } }
        else if key == 7 && lo == 2 {
            if value == 2 { Mapper42 { irq_enabled: true, ..self } }
            else { Mapper42 { irq_enabled: false, irq_counter: 0, irq_pending: false, ..self } }
        } else { self }
    }

    pub fn write_register(&mut self, addr: u16, value: u8)
        requires old(self).wf(),
        ensures *final(self) == old(self).written(addr, value), final(self).wf(),
    {
        let key = addr / 0x2000;
        let lo = addr % 4;
        if key == 4 && lo == 0 {
            self.chr_bank = value % 16;
        } else if key == 7 && lo == 0 {
            self.low_prg_bank = value % 16;
        } else if key == 7 && lo == 1 {
            self.mirroring = if (value / 8) % 2 == 1 { Mirroring::Horizontal } else { Mirroring::Vertical };
        } else if key == 7 && lo == 2 {
            self.irq_enabled = value == 2;
            if !self.irq_enabled {
                self.irq_counter = 0;
                self.irq_pending = false;
            }
        }
    }

    #[verifier::allow_in_spec]
    pub fn low_prg_index(&self, addr: u16) -> Option<usize>
        returns if 0x6000 <= addr <= 0x7FFF { Some((self.low_prg_bank as int * 0x2000 + addr % 0x2000) as usize) } else { None },
    {
        if 0x6000 <= addr && addr <= 0x7FFF { Some((self.low_prg_bank as usize) * 0x2000 + (addr % 0x2000) as usize) } else { None }
    }

    #[verifier::allow_in_spec]
    pub fn mirroring(&self) -> Mirroring
        returns self.mirroring,
    {
        self.mirroring
    }

    pub open spec fn after_cpu_clock(self) -> Self {
        let c1 = (self.irq_counter + 1) % 0x10000;
        let c = if c1 >= 0x8000 { c1 - 0x8000 } else { c1 };
        if !self.irq_enabled { self } else { Mapper42 { irq_counter: c as u16, irq_pending: c >= 0x6000, ..self } }
    }

    pub fn cpu_clock(&mut self)
        requires old(self).wf(),
        ensures *final(self) == old(self).after_cpu_clock(), final(self).wf(),
    {
        if !self.irq_enabled {
            return;
        }
        self.irq_counter = self.irq_counter.wrapping_add(1);
        if self.irq_counter >= 0x8000 {
            self.irq_counter = self.irq_counter - 0x8000;
        }
        self.irq_pending = self.irq_counter >= 0x6000;
    }

    #[verifier::allow_in_spec]
    pub fn clocks_cpu(&self) -> bool
        returns true,
    {
        true
    }

    #[verifier::allow_in_spec]
    pub fn irq(&self) -> bool
        returns self.irq_pending,
    {
        self.irq_pending
    }

    pub open spec fn after_clear_irq(self) -> Self {
        Mapper42 { irq_pending: false, ..self }
    }

    pub fn clear_irq(&mut self)
        requires old(self).wf(),
        ensures *final(self) == old(self).after_clear_irq(), final(self).wf(),
    {
        self.irq_pending = false;
    }
}

// ------------------------------------------------------------ Mapper 50

/// FDS conversion 50: banks 8, 9, a switchable one and 11, bank 15 at
/// `$6000`. The registers sit in `$4020-$5FFF` decoded under mask `$4120`:
/// `$4020` takes a scrambled bank number, `$4120` bit 0 runs the counter,
/// which raises the IRQ at 4096 and stops.
#[derive(Debug, Clone, Copy)]
pub struct Mapper50 {
    pub variable_prg_bank: u8,
    pub mirroring: Mirroring,
    pub irq_counter: u16,
    pub irq_enabled: bool,
    pub irq_pending: bool,
}

impl Mapper50 {
    pub fn new(mirroring: Mirroring) -> (r: Self)
        ensures r == (Mapper50 { variable_prg_bank: 0, mirroring, irq_counter: 0, irq_enabled: false, irq_pending: false }),
    {
        Mapper50 { variable_prg_bank: 0, mirroring, irq_counter: 0, irq_enabled: false, irq_pending: false }
    }

    pub open spec fn prg_bank(self, addr: u16) -> int {
        let slot = (addr - 0x8000) / 0x2000;
        if slot == 0 { 8 } else if slot == 1 { 9 } else if slot == 2 { self.variable_prg_bank as int } else { 11 }
    }

    #[verifier::allow_in_spec]
    pub fn prg_index(&self, addr: u16) -> usize
        requires addr >= 0x8000,
        returns (self.prg_bank(addr) * 0x2000 + addr % 0x2000) as usize,
    {
        let slot = (addr - 0x8000) / 0x2000;
        let bank: usize = if slot == 0 { 8 } else if slot == 1 { 9 } else if slot == 2 { self.variable_prg_bank as usize } else { 11 };
        bank * 0x2000 + (addr % 0x2000) as usize
    }

    #[verifier::allow_in_spec]
    pub fn chr_index(&self, addr: u16) -> usize
        returns lo13(addr) as usize,
    {
        chr_off(addr)
    }

    pub open spec fn written(self, addr: u16, value: u8) -> Self {
        self
    }

    pub fn write_register(&mut self, addr: u16, value: u8)
        ensures *final(self) == old(self).written(addr, value),
    {
    }

    #[verifier::allow_in_spec]
    pub fn low_prg_index(&self, addr: u16) -> Option<usize>
        returns if 0x6000 <= addr <= 0x7FFF { Some((15 * 0x2000 + addr % 0x2000) as usize) } else { None },
    {
        if 0x6000 <= addr && addr <= 0x7FFF { Some(15 * 0x2000 + (addr % 0x2000) as usize) } else { None }
    }

    /// Data bits 3, 0, 2-1 become bank bits 3, 2, 1-0.
    pub open spec fn scrambled(value: u8) -> u8 {
        (((value / 8) % 2) * 8 + (value % 2) * 4 + (value / 2) % 4) as u8
    }

    pub open spec fn expansion_written(self, addr: u16, value: u8) -> Self {
        let b14 = (addr / 0x4000) % 2 == 1;
        let b8 = (addr / 0x100) % 2 == 1;
        let b5 = (addr / 0x20) % 2 == 1;
        if b14 && !b8 && b5 { Mapper50 { variable_prg_bank: Self::scrambled(value), ..self } }
        else if b14 && b8 && b5 {
            if value % 2 == 1 { Mapper50 { irq_enabled: true, ..self } }
            else { Mapper50 { irq_enabled: false, irq_counter: 0, irq_pending: false, ..self } }
        } else { self }
    }

    pub fn write_expansion(&mut self, addr: u16, value: u8)
        ensures *final(self) == old(self).expansion_written(addr, value),
    {
        let b14 = (addr / 0x4000) % 2 == 1;
        let b8 = (addr / 0x100) % 2 == 1;
        let b5 = (addr / 0x20) % 2 == 1;
        if b14 && !b8 && b5 {
            self.variable_prg_bank = ((value / 8) % 2) * 8 + (value % 2) * 4 + (value / 2) % 4;
        } else if b14 && b8 && b5 {
            self.irq_enabled = value % 2 == 1;
            if !self.irq_enabled {
                self.irq_counter = 0;
                self.irq_pending = false;
            }
        }
    }

    #[verifier::allow_in_spec]
    pub fn mirroring(&self) -> Mirroring
        returns self.mirroring,
    {
        self.mirroring
    }

    pub open spec fn after_cpu_clock(self) -> Self {
        let c = ((self.irq_counter + 1) % 0x10000) as u16;
        if !self.irq_enabled { self }
        else if c == 0x1000 { Mapper50 { irq_counter: c, irq_pending: true, irq_enabled: false, ..self } }
        else { Mapper50 { irq_counter: c, ..self } }
    }

    pub fn cpu_clock(&mut self)
        ensures *final(self) == old(self).after_cpu_clock(),
    {
        if !self.irq_enabled {
            return;
        }
        self.irq_counter = self.irq_counter.wrapping_add(1);
        if self.irq_counter == 0x1000 {
            self.irq_pending = true;
            self.irq_enabled = false;
        }
    }

    #[verifier::allow_in_spec]
    pub fn clocks_cpu(&self) -> bool
        returns true,
    {
        true
    }

    #[verifier::allow_in_spec]
    pub fn irq(&self) -> bool
        returns self.irq_pending,
    {
        self.irq_pending
    }

    pub open spec fn after_clear_irq(self) -> Self {
        Mapper50 { irq_pending: false, ..self }
    }

    pub fn clear_irq(&mut self)
        ensures *final(self) == old(self).after_clear_irq(),
    {
        self.irq_pending = false;
    }
}

// ------------------------------------------------------------ Mapper 65

/// Irem H3001: three 8 KiB PRG registers (the third powers up on the
/// second-to-last bank) with the last fixed, eight 1 KiB CHR registers, and
/// a 16-bit down-counter loaded from a reload pair.
#[derive(Debug, Clone, Copy)]
pub struct Mapper65 {
    pub prg_8k_total: usize,
    pub chr_1k_total: usize,
    pub prg: [usize; 3],
    pub chr: [u8; 8],
    pub mirroring: Mirroring,
    pub irq_reload: u16,
    pub irq_counter: u16,
    pub irq_enabled: bool,
    pub irq_pending: bool,
}

impl Mapper65 {
    pub open spec fn wf(&self) -> bool {
        &&& 4 <= self.prg_8k_total <= 2 * MAX_PRG_16K
        &&& 8 <= self.chr_1k_total <= 8 * MAX_CHR_8K
    }

    pub open spec fn fresh(self, prg_16k: usize, chr_8k: usize) -> bool {
        let total = at_least(prg_16k * 2, 4);
        &&& self.prg_8k_total == total && self.chr_1k_total == at_least(chr_8k * 8, 8)
        &&& self.prg@ == seq![0usize, 1, (total - 2) as usize] && self.chr@ == seq![0u8, 0, 0, 0, 0, 0, 0, 0]
        &&& self.mirroring == Mirroring::Vertical && self.irq_reload == 0 && self.irq_counter == 0
        &&& !self.irq_enabled && !self.irq_pending
    }

    pub fn new(prg_16k: usize, chr_8k: usize) -> (r: Self)
        requires prg_16k <= MAX_PRG_16K, chr_8k <= MAX_CHR_8K,
        ensures r.fresh(prg_16k, chr_8k), r.wf(),
    {
        let total = at_least_usize(prg_16k * 2, 4);
        let r = Mapper65 {
            prg_8k_total: total,
            chr_1k_total: at_least_usize(chr_8k * 8, 8),
            prg: [0usize, 1, total - 2],
            chr: [0u8; 8],
            mirroring: Mirroring::Vertical,
            irq_reload: 0,
            irq_counter: 0,
            irq_enabled: false,
            irq_pending: false,
        };
        assert(r.prg@ =~= seq![0usize, 1, (total - 2) as usize]);
        assert(r.chr@ =~= seq![0u8, 0, 0, 0, 0, 0, 0, 0]);
        r
    }

    pub open spec fn prg_bank(self, addr: u16) -> int {
        let slot = (addr - 0x8000) / 0x2000;
        if slot < 3 { self.prg@[slot] as int } else { self.prg_8k_total - 1 }
    }

    #[verifier::allow_in_spec]
    pub fn prg_index(&self, addr: u16) -> usize
        requires self.wf(), addr >= 0x8000,
        returns ((self.prg_bank(addr) % self.prg_8k_total as int) * 0x2000 + addr % 0x2000) as usize,
    {
        let slot = ((addr - 0x8000) / 0x2000) as usize;
        let bank: usize = if slot < 3 { self.prg[slot] } else { self.prg_8k_total - 1 };
        (bank % self.prg_8k_total) * 0x2000 + (addr % 0x2000) as usize
    }

    #[verifier::allow_in_spec]
    pub fn chr_index(&self, addr: u16) -> usize
        requires self.wf(),
        returns ((self.chr@[((addr / 0x400) % 8) as int] as int % self.chr_1k_total as int) * 0x400 + addr % 0x400) as usize,
    {
        (self.chr[((addr / 0x400) % 8) as usize] as usize % self.chr_1k_total) * 0x400 + (addr % 0x400) as usize
    }

    /// Exact addresses: `$8000/$A000/$C000` PRG, `$9001` mirroring (bit 7,
    /// horizontal), `$9003` enable (bit 7), `$9004` reload the counter,
    /// `$9005/$9006` reload high/low byte, `$B000-$B007` CHR.
    pub open spec fn wrote(o: Self, n: Self, addr: u16, value: u8) -> bool {
        &&& n.prg_8k_total == o.prg_8k_total && n.chr_1k_total == o.chr_1k_total
        &&& n.prg@ == if addr == 0x8000 { o.prg@.update(0, value as usize) } else if addr == 0xA000 { o.prg@.update(1, value as usize) }
            else if addr == 0xC000 { o.prg@.update(2, value as usize) } else { o.prg@ }
        &&& n.chr@ == if 0xB000 <= addr <= 0xB007 { o.chr@.update((addr % 8) as int, value) } else { o.chr@ }
        &&& n.mirroring == if addr == 0x9001 { if value >= 0x80 { Mirroring::Horizontal } else { Mirroring::Vertical } } else { o.mirroring }
        &&& n.irq_enabled == if addr == 0x9003 { value >= 0x80 } else { o.irq_enabled }
        &&& n.irq_pending == if addr == 0x9003 || addr == 0x9004 { false } else { o.irq_pending }
        &&& n.irq_counter == if addr == 0x9004 { o.irq_reload } else { o.irq_counter }
        &&& n.irq_reload == if addr == 0x9005 { (o.irq_reload % 256 + value * 256) as u16 }
            else if addr == 0x9006 { (o.irq_reload - o.irq_reload % 256 + value) as u16 } else { o.irq_reload }
    }

    pub fn write_register(&mut self, addr: u16, value: u8)
        requires old(self).wf(),
        ensures Self::wrote(*old(self), *final(self), addr, value), final(self).wf(),
    {
        if addr == 0x8000 {
            self.prg[0] = value as usize;
        } else if addr == 0xA000 {
            self.prg[1] = value as usize;
        } else if addr == 0xC000 {
            self.prg[2] = value as usize;
        } else if addr == 0x9001 {
            self.mirroring = if value >= 0x80 { Mirroring::Horizontal } else { Mirroring::Vertical };
        } else if addr == 0x9003 {
            self.irq_enabled = value >= 0x80;
            self.irq_pending = false;
        } else if addr == 0x9004 {
            self.irq_counter = self.irq_reload;
            self.irq_pending = false;
        } else if addr == 0x9005 {
            self.irq_reload = self.irq_reload % 256 + value as u16 * 256;
        } else if addr == 0x9006 {
            self.irq_reload = self.irq_reload - self.irq_reload % 256 + value as u16;
        } else if 0xB000 <= addr && addr <= 0xB007 {
            self.chr[(addr % 8) as usize] = value;
        }
    }

    #[verifier::allow_in_spec]
    pub fn mirroring(&self) -> Mirroring
        returns self.mirroring,
    {
        self.mirroring
    }

    /// While enabled the counter counts down (wrapping); landing on zero
    /// raises the IRQ and stops it.
    pub open spec fn cpu_ticked(o: Self, n: Self) -> bool {
        let c = (if o.irq_counter == 0 { 0xFFFF } else { o.irq_counter - 1 }) as u16;
        &&& n.prg_8k_total == o.prg_8k_total && n.chr_1k_total == o.chr_1k_total
        &&& n.prg@ == o.prg@ && n.chr@ == o.chr@ && n.mirroring == o.mirroring && n.irq_reload == o.irq_reload
        &&& n.irq_counter == if o.irq_enabled { c } else { o.irq_counter }
        &&& n.irq_enabled == (o.irq_enabled && c != 0)
        &&& n.irq_pending == (o.irq_pending || (o.irq_enabled && c == 0))
    }

    pub fn cpu_clock(&mut self)
        requires old(self).wf(),
        ensures Self::cpu_ticked(*old(self), *final(self)), final(self).wf(),
    {
        if !self.irq_enabled {
            return;
        }
        self.irq_counter = self.irq_counter.wrapping_sub(1);
        if self.irq_counter == 0 {
            self.irq_enabled = false;
            self.irq_pending = true;
        }
    }

    #[verifier::allow_in_spec]
    pub fn clocks_cpu(&self) -> bool
        returns true,
    {
        true
    }

    #[verifier::allow_in_spec]
    pub fn irq(&self) -> bool
        returns self.irq_pending,
    {
        self.irq_pending
    }

    pub open spec fn after_clear_irq(self) -> Self {
        Mapper65 { irq_pending: false, ..self }
    }

    pub fn clear_irq(&mut self)
        requires old(self).wf(),
        ensures *final(self) == old(self).after_clear_irq(), final(self).wf(),
    {
        self.irq_pending = false;
    }
}

// ------------------------------------------------------------ Mapper 67

/// Sunsoft-3: a 16 KiB bank at `$8000` with the last fixed, four 2 KiB CHR
/// banks, and a 16-bit down-counter written a byte at a time (high first)
/// that raises the IRQ when it wraps past zero.
#[derive(Debug, Clone, Copy)]
pub struct Mapper67 {
    pub prg_16k_total: usize,
    pub chr_2k_total: usize,
    pub prg_bank: u8,
    pub chr: [u8; 4],
    pub mirroring: Mirroring,
    pub irq_latch_next_low: bool,
    pub irq_enabled: bool,
    pub irq_counter: u16,
    pub irq_pending: bool,
}

impl Mapper67 {
    pub open spec fn wf(&self) -> bool {
        &&& 1 <= self.prg_16k_total <= MAX_PRG_16K
        &&& 4 <= self.chr_2k_total <= 4 * MAX_CHR_8K
    }

    pub open spec fn fresh(self, prg_16k: usize, chr_8k: usize, mirroring: Mirroring) -> bool {
        &&& self.prg_16k_total == at_least(prg_16k as int, 1) && self.chr_2k_total == at_least(chr_8k * 4, 4)
        &&& self.prg_bank == 0 && self.chr@ == seq![0u8, 0, 0, 0] && self.mirroring == mirroring
        &&& !self.irq_latch_next_low && !self.irq_enabled && self.irq_counter == 0 && !self.irq_pending
    }

    pub fn new(prg_16k: usize, chr_8k: usize, mirroring: Mirroring) -> (r: Self)
        requires prg_16k <= MAX_PRG_16K, chr_8k <= MAX_CHR_8K,
        ensures r.fresh(prg_16k, chr_8k, mirroring), r.wf(),
    {
        let r = Mapper67 {
            prg_16k_total: at_least_usize(prg_16k, 1),
            chr_2k_total: at_least_usize(chr_8k * 4, 4),
            prg_bank: 0,
            chr: [0u8; 4],
            mirroring,
            irq_latch_next_low: false,
            irq_enabled: false,
            irq_counter: 0,
            irq_pending: false,
        };
        assert(r.chr@ =~= seq![0u8, 0, 0, 0]);
        r
    }

    #[verifier::allow_in_spec]
    pub fn prg_index(&self, addr: u16) -> usize
        requires self.wf(),
        returns (((if addr < 0xC000 { self.prg_bank as int } else { self.prg_16k_total - 1 }) % self.prg_16k_total as int) * 0x4000
            + addr % 0x4000) as usize,
    {
        let bank: usize = if addr < 0xC000 { self.prg_bank as usize } else { self.prg_16k_total - 1 };
        (bank % self.prg_16k_total) * 0x4000 + (addr % 0x4000) as usize
    }

    #[verifier::allow_in_spec]
    pub fn chr_index(&self, addr: u16) -> usize
        requires self.wf(),
        returns ((self.chr@[((addr / 0x800) % 4) as int] as int % self.chr_2k_total as int) * 0x800 + addr % 0x800) as usize,
    {
        (self.chr[((addr / 0x800) % 4) as usize] as usize % self.chr_2k_total) * 0x800 + (addr % 0x800) as usize
    }

    /// Decoded under mask `$F800`: `$8800/$9800/$A800/$B800` CHR, `$C000`
    /// and `$C800` the counter bytes (alternating, high first), `$D800`
    /// enable (bit 4, resetting the byte toggle and acknowledging), `$E800`
    /// mirroring, `$F800` the PRG bank.
    pub open spec fn wrote(o: Self, n: Self, addr: u16, value: u8) -> bool {
        let key = addr / 0x800;
        &&& n.prg_16k_total == o.prg_16k_total && n.chr_2k_total == o.chr_2k_total
        &&& n.chr@ == if key == 0x11 || key == 0x13 || key == 0x15 || key == 0x17 { o.chr@.update((key - 0x11) / 2, value) } else { o.chr@ }
        &&& n.irq_counter == if key == 0x18 || key == 0x19 {
                if o.irq_latch_next_low { (o.irq_counter - o.irq_counter % 256 + value) as u16 }
                else { (o.irq_counter % 256 + value * 256) as u16 }
            } else { o.irq_counter }
        &&& n.irq_latch_next_low == if key == 0x18 || key == 0x19 { !o.irq_latch_next_low }
            else if key == 0x1B { false } else { o.irq_latch_next_low }
        &&& n.irq_enabled == if key == 0x1B { (value / 16) % 2 == 1 } else { o.irq_enabled }
        &&& n.irq_pending == if key == 0x1B { false } else { o.irq_pending }
        &&& n.mirroring == if key == 0x1D { vh_single(value as int) } else { o.mirroring }
        &&& n.prg_bank == if key == 0x1F { value } else { o.prg_bank }
    }

    pub fn write_register(&mut self, addr: u16, value: u8)
        requires old(self).wf(),
        ensures Self::wrote(*old(self), *final(self), addr, value), final(self).wf(),
    {
        let key = addr / 0x800;
        if key == 0x11 || key == 0x13 || key == 0x15 || key == 0x17 {
            self.chr[((key - 0x11) / 2) as usize] = value;
        } else if key == 0x18 || key == 0x19 {
            if self.irq_latch_next_low {
                self.irq_counter = self.irq_counter - self.irq_counter % 256 + value as u16;
            } else {
                self.irq_counter = self.irq_counter % 256 + value as u16 * 256;
            }
            self.irq_latch_next_low = !self.irq_latch_next_low;
        } else if key == 0x1B {
            self.irq_enabled = (value / 16) % 2 == 1;
            self.irq_latch_next_low = false;
            self.irq_pending = false;
        } else if key == 0x1D {
            self.mirroring = mirroring_of(value % 4, false);
        } else if key == 0x1F {
            self.prg_bank = value;
        }
    }

    #[verifier::allow_in_spec]
    pub fn mirroring(&self) -> Mirroring
        returns self.mirroring,
    {
        self.mirroring
    }

    pub open spec fn cpu_ticked(o: Self, n: Self) -> bool {
        let c = (if o.irq_counter == 0 { 0xFFFF } else { o.irq_counter - 1 }) as u16;
        &&& n.prg_16k_total == o.prg_16k_total && n.chr_2k_total == o.chr_2k_total
        &&& n.prg_bank == o.prg_bank && n.chr@ == o.chr@ && n.mirroring == o.mirroring
        &&& n.irq_latch_next_low == o.irq_latch_next_low
        &&& n.irq_counter == if o.irq_enabled { c } else { o.irq_counter }
        &&& n.irq_enabled == (o.irq_enabled && c != 0xFFFF)
        &&& n.irq_pending == (o.irq_pending || (o.irq_enabled && c == 0xFFFF))
    }

    pub fn cpu_clock(&mut self)
        requires old(self).wf(),
        ensures Self::cpu_ticked(*old(self), *final(self)), final(self).wf(),
    {
        if !self.irq_enabled {
            return;
        }
        self.irq_counter = self.irq_counter.wrapping_sub(1);
        if self.irq_counter == 0xFFFF {
            self.irq_enabled = false;
            self.irq_pending = true;
        }
    }

    #[verifier::allow_in_spec]
    pub fn clocks_cpu(&self) -> bool
        returns true,
    {
        true
    }

    #[verifier::allow_in_spec]
    pub fn irq(&self) -> bool
        returns self.irq_pending,
    {
        self.irq_pending
    }

    pub open spec fn after_clear_irq(self) -> Self {
        Mapper67 { irq_pending: false, ..self }
    }

    pub fn clear_irq(&mut self)
        requires old(self).wf(),
        ensures *final(self) == old(self).after_clear_irq(), final(self).wf(),
    {
        self.irq_pending = false;
    }
}

// ------------------------------------------------------------ Mapper 73

/// Konami VRC3: a 16 KiB bank at `$8000` (last fixed), and an up-counting
/// IRQ of 16 bits or (small mode) 8 bits that reloads from four nibble
/// registers on overflow.
#[derive(Debug, Clone, Copy)]
pub struct Mapper73 {
    pub prg_16k_total: usize,
    pub prg_bank: u8,
    pub mirroring: Mirroring,
    pub irq_reload: u16,
    pub irq_counter: u16,
    pub irq_enabled: bool,
    pub irq_enable_on_ack: bool,
    pub irq_small_counter: bool,
    pub irq_pending: bool,
}

/// `v` with nibble `k` (0 = lowest) replaced by `n`.
pub open spec fn set_nibble16(v: u16, k: int, n: int) -> u16 {
    let w = if k == 0 { 1int } else if k == 1 { 16int } else if k == 2 { 256int } else { 4096int };
    (v as int - ((v as int / w) % 16) * w + n * w) as u16
}

impl Mapper73 {
    pub open spec fn wf(&self) -> bool {
        1 <= self.prg_16k_total <= MAX_PRG_16K
    }

    pub fn new(prg_16k: usize, mirroring: Mirroring) -> (r: Self)
        requires prg_16k <= MAX_PRG_16K,
        ensures
            r == (Mapper73 { prg_16k_total: at_least(prg_16k as int, 1) as usize, prg_bank: 0, mirroring, irq_reload: 0,
                irq_counter: 0, irq_enabled: false, irq_enable_on_ack: false, irq_small_counter: false, irq_pending: false }),
            r.wf(),
    {
        Mapper73 { prg_16k_total: at_least_usize(prg_16k, 1), prg_bank: 0, mirroring, irq_reload: 0,
            irq_counter: 0, irq_enabled: false, irq_enable_on_ack: false, irq_small_counter: false, irq_pending: false }
    }

    #[verifier::allow_in_spec]
    pub fn prg_index(&self, addr: u16) -> usize
        requires self.wf(),
        returns (((if addr < 0xC000 { self.prg_bank as int } else { self.prg_16k_total - 1 }) % self.prg_16k_total as int) * 0x4000
            + addr % 0x4000) as usize,
    {
        let bank: usize = if addr < 0xC000 { self.prg_bank as usize } else { self.prg_16k_total - 1 };
        (bank % self.prg_16k_total) * 0x4000 + (addr % 0x4000) as usize
    }

    #[verifier::allow_in_spec]
    pub fn chr_index(&self, addr: u16) -> usize
        returns lo13(addr) as usize,
    {
        chr_off(addr)
    }

    /// `$8000-$B000` load the reload nibbles (lowest first); `$C000` enables
    /// (bit 1, copying the reload), picks the small counter (bit 2) and the
    /// enable-on-acknowledge (bit 0); `$D000` acknowledges; `$F000` the bank.
    pub open spec fn written(self, addr: u16, value: u8) -> Self {
        let hi = addr / 0x1000;
        let n = (value % 16) as int;
        if 8 <= hi <= 0xB { Mapper73 { irq_reload: set_nibble16(self.irq_reload, hi - 8, n), ..self } }
        else if hi == 0xC {
            let en = (value / 2) % 2 == 1;
            Mapper73 {
                irq_enabled: en,
                irq_counter: if en { self.irq_reload } else { self.irq_counter },
                irq_small_counter: (value / 4) % 2 == 1,
                irq_enable_on_ack: value % 2 == 1,
                irq_pending: false,
                ..self
            }
        } else if hi == 0xD { Mapper73 { irq_pending: false, irq_enabled: self.irq_enable_on_ack, ..self } }
        else if hi == 0xF { Mapper73 { prg_bank: value % 8, ..self } }
        else { self }
    }

    pub fn write_register(&mut self, addr: u16, value: u8)
        requires old(self).wf(),
        ensures *final(self) == old(self).written(addr, value), final(self).wf(),
    {
        let hi = addr / 0x1000;
        let n = (value % 16) as u16;
        if hi == 8 {
            self.irq_reload = self.irq_reload - self.irq_reload % 16 + n;
        } else if hi == 9 {
            self.irq_reload = self.irq_reload - ((self.irq_reload / 16) % 16) * 16 + n * 16;
        } else if hi == 0xA {
            self.irq_reload = self.irq_reload - ((self.irq_reload / 256) % 16) * 256 + n * 256;
        } else if hi == 0xB {
            self.irq_reload = self.irq_reload % 4096 + n * 4096;
            assert(self.irq_reload == set_nibble16(old(self).irq_reload, 3, n as int)) by {
                assert(old(self).irq_reload / 4096 < 16);
                assert((old(self).irq_reload / 4096) % 16 == old(self).irq_reload / 4096);
                assert(old(self).irq_reload == (old(self).irq_reload / 4096) * 4096 + old(self).irq_reload % 4096);
            }
        } else if hi == 0xC {
            self.irq_enabled = (value / 2) % 2 == 1;
            if self.irq_enabled {
                self.irq_counter = self.irq_reload;
            }
            self.irq_small_counter = (value / 4) % 2 == 1;
            self.irq_enable_on_ack = value % 2 == 1;
            self.irq_pending = false;
        } else if hi == 0xD {
            self.irq_pending = false;
            self.irq_enabled = self.irq_enable_on_ack;
        } else if hi == 0xF {
            self.prg_bank = value % 8;
        }
    }

    #[verifier::allow_in_spec]
    pub fn mirroring(&self) -> Mirroring
        returns self.mirroring,
    {
        self.mirroring
    }

    /// Small mode counts the low byte up, reloading it (and raising the
    /// IRQ) after `$FF`; otherwise the whole word does the same after
    /// `$FFFF`.
    pub open spec fn after_cpu_clock(self) -> Self {
        let low = self.irq_counter % 256;
        if !self.irq_enabled { self }
        else if self.irq_small_counter {
            if low == 0xFF { Mapper73 { irq_counter: (self.irq_counter - low + self.irq_reload % 256) as u16, irq_pending: true, ..self } }
            else { Mapper73 { irq_counter: (self.irq_counter + 1) as u16, ..self } }
        } else if self.irq_counter == 0xFFFF { Mapper73 { irq_counter: self.irq_reload, irq_pending: true, ..self } }
        else { Mapper73 { irq_counter: (self.irq_counter + 1) as u16, ..self } }
    }

    pub fn cpu_clock(&mut self)
        requires old(self).wf(),
        ensures *final(self) == old(self).after_cpu_clock(), final(self).wf(),
    {
        if !self.irq_enabled {
            return;
        }
        if self.irq_small_counter {
            let low = self.irq_counter % 256;
            if low == 0xFF {
                self.irq_counter = self.irq_counter - low + self.irq_reload % 256;
                self.irq_pending = true;
            } else {
                self.irq_counter = self.irq_counter + 1;
            }
        } else if self.irq_counter == 0xFFFF {
            self.irq_counter = self.irq_reload;
            self.irq_pending = true;
        } else {
            self.irq_counter = self.irq_counter + 1;
        }
    }

    #[verifier::allow_in_spec]
    pub fn clocks_cpu(&self) -> bool
        returns true,
    {
        true
    }

    #[verifier::allow_in_spec]
    pub fn irq(&self) -> bool
        returns self.irq_pending,
    {
        self.irq_pending
    }

    pub open spec fn after_clear_irq(self) -> Self {
        Mapper73 { irq_pending: false, ..self }
    }

    pub fn clear_irq(&mut self)
        requires old(self).wf(),
        ensures *final(self) == old(self).after_clear_irq(), final(self).wf(),
    {
        self.irq_pending = false;
    }
}

// ------------------------------------------------------------ Mapper 117

/// Future Media: four 8 KiB PRG and eight 1 KiB CHR registers, and an 8-bit
/// IRQ counter clocked on PPU A12 rises that follow more than 10 cycles of
/// A12 low; it needs both enables and disarms itself when it fires.
#[derive(Debug, Clone, Copy)]
pub struct Mapper117 {
    pub prg_8k_total: usize,
    pub chr_1k_total: usize,
    pub prg: [usize; 4],
    pub chr: [u8; 8],
    pub mirroring: Mirroring,
    pub irq_counter: u8,
    pub irq_latch: u8,
    pub irq_enabled: bool,
    pub irq_enabled_alt: bool,
    pub irq_pending: bool,
    pub a12_prev: bool,
    pub a12_low_since: u64,
}

impl Mapper117 {
    pub open spec fn wf(&self) -> bool {
        &&& 4 <= self.prg_8k_total <= 2 * MAX_PRG_16K
        &&& 8 <= self.chr_1k_total <= 8 * MAX_CHR_8K
    }

    pub open spec fn fresh(self, prg_16k: usize, chr_8k: usize, mirroring: Mirroring) -> bool {
        let t = at_least(prg_16k * 2, 4);
        &&& self.prg_8k_total == t && self.chr_1k_total == at_least(chr_8k * 8, 8)
        &&& self.prg@ == seq![(t - 4) as usize, (t - 3) as usize, (t - 2) as usize, (t - 1) as usize]
        &&& self.chr@ == seq![0u8, 0, 0, 0, 0, 0, 0, 0] && self.mirroring == mirroring
        &&& self.irq_counter == 0 && self.irq_latch == 0 && !self.irq_enabled && !self.irq_enabled_alt
        &&& !self.irq_pending && !self.a12_prev && self.a12_low_since == 0
    }

    pub fn new(prg_16k: usize, chr_8k: usize, mirroring: Mirroring) -> (r: Self)
        requires prg_16k <= MAX_PRG_16K, chr_8k <= MAX_CHR_8K,
        ensures r.fresh(prg_16k, chr_8k, mirroring), r.wf(),
    {
        let t = at_least_usize(prg_16k * 2, 4);
        let r = Mapper117 {
            prg_8k_total: t,
            chr_1k_total: at_least_usize(chr_8k * 8, 8),
            prg: [t - 4, t - 3, t - 2, t - 1],
            chr: [0u8; 8],
            mirroring,
            irq_counter: 0,
            irq_latch: 0,
            irq_enabled: false,
            irq_enabled_alt: false,
            irq_pending: false,
            a12_prev: false,
            a12_low_since: 0,
        };
        assert(r.prg@ =~= seq![(t - 4) as usize, (t - 3) as usize, (t - 2) as usize, (t - 1) as usize]);
        assert(r.chr@ =~= seq![0u8, 0, 0, 0, 0, 0, 0, 0]);
        r
    }

    #[verifier::allow_in_spec]
    pub fn prg_index(&self, addr: u16) -> usize
        requires self.wf(), addr >= 0x8000,
        returns ((self.prg@[((addr - 0x8000) / 0x2000) as int] as int % self.prg_8k_total as int) * 0x2000 + addr % 0x2000) as usize,
    {
        (self.prg[((addr - 0x8000) / 0x2000) as usize] % self.prg_8k_total) * 0x2000 + (addr % 0x2000) as usize
    }

    #[verifier::allow_in_spec]
    pub fn chr_index(&self, addr: u16) -> usize
        requires self.wf(),
        returns ((self.chr@[((addr / 0x400) % 8) as int] as int % self.chr_1k_total as int) * 0x400 + addr % 0x400) as usize,
    {
        (self.chr[((addr / 0x400) % 8) as usize] as usize % self.chr_1k_total) * 0x400 + (addr % 0x400) as usize
    }

    /// Exact addresses: `$8000-$8003` PRG, `$A000-$A007` CHR, `$C001` latch,
    /// `$C002` acknowledge, `$C003` load the counter and arm it, `$D000`
    /// mirroring (bit 0, horizontal), `$E000` enable (bit 0) and acknowledge.
    pub open spec fn wrote(o: Self, n: Self, addr: u16, value: u8) -> bool {
        &&& n.prg_8k_total == o.prg_8k_total && n.chr_1k_total == o.chr_1k_total
        &&& n.a12_prev == o.a12_prev && n.a12_low_since == o.a12_low_since
        &&& n.prg@ == if 0x8000 <= addr <= 0x8003 { o.prg@.update((addr % 4) as int, value as usize) } else { o.prg@ }
        &&& n.chr@ == if 0xA000 <= addr <= 0xA007 { o.chr@.update((addr % 8) as int, value) } else { o.chr@ }
        &&& n.irq_latch == if addr == 0xC001 { value } else { o.irq_latch }
        &&& n.irq_counter == if addr == 0xC003 { o.irq_latch } else { o.irq_counter }
        &&& n.irq_enabled_alt == if addr == 0xC003 { true } else { o.irq_enabled_alt }
        &&& n.irq_pending == if addr == 0xC002 || addr == 0xE000 { false } else { o.irq_pending }
        &&& n.mirroring == if addr == 0xD000 { if value % 2 == 1 { Mirroring::Horizontal } else { Mirroring::Vertical } } else { o.mirroring }
        &&& n.irq_enabled == if addr == 0xE000 { value % 2 == 1 } else { o.irq_enabled }
    }

    pub fn write_register(&mut self, addr: u16, value: u8)
        requires old(self).wf(),
        ensures Self::wrote(*old(self), *final(self), addr, value), final(self).wf(),
    {
        if 0x8000 <= addr && addr <= 0x8003 {
            self.prg[(addr % 4) as usize] = value as usize;
        } else if 0xA000 <= addr && addr <= 0xA007 {
            self.chr[(addr % 8) as usize] = value;
        } else if addr == 0xC001 {
            self.irq_latch = value;
        } else if addr == 0xC002 {
            self.irq_pending = false;
        } else if addr == 0xC003 {
            self.irq_counter = self.irq_latch;
            self.irq_enabled_alt = true;
        } else if addr == 0xD000 {
            self.mirroring = if value % 2 == 1 { Mirroring::Horizontal } else { Mirroring::Vertical };
        } else if addr == 0xE000 {
            self.irq_enabled = value % 2 == 1;
            self.irq_pending = false;
        }
    }

    #[verifier::allow_in_spec]
    pub fn mirroring(&self) -> Mirroring
        returns self.mirroring,
    {
        self.mirroring
    }

    /// One counter clock: with both enables and a non-zero count it counts
    /// down; reaching zero raises the IRQ and disarms.
    pub open spec fn clocked(self) -> Self {
        if self.irq_enabled && self.irq_enabled_alt && self.irq_counter != 0 {
            let c = (self.irq_counter - 1) as u8;
            Mapper117 { irq_counter: c, irq_pending: self.irq_pending || c == 0, irq_enabled_alt: c != 0, ..self }
        } else {
            self
        }
    }

    pub open spec fn a12_noted(o: Self, n: Self, addr: u16, cycle: u64) -> bool {
        let a12 = (addr / 0x1000) % 2 == 1;
        let s = if a12 && !o.a12_prev && since(cycle, o.a12_low_since) > 10 { o.clocked() } else { o };
        &&& n.prg_8k_total == s.prg_8k_total && n.chr_1k_total == s.chr_1k_total
        &&& n.prg@ == s.prg@ && n.chr@ == s.chr@ && n.mirroring == s.mirroring
        &&& n.irq_counter == s.irq_counter && n.irq_latch == s.irq_latch
        &&& n.irq_enabled == s.irq_enabled && n.irq_enabled_alt == s.irq_enabled_alt && n.irq_pending == s.irq_pending
        &&& n.a12_low_since == if !a12 && o.a12_prev { cycle } else { o.a12_low_since }
        &&& n.a12_prev == a12
    }

    pub fn notify_a12(&mut self, addr: u16, cycle: u64)
        requires old(self).wf(),
        ensures Self::a12_noted(*old(self), *final(self), addr, cycle), final(self).wf(),
    {
        let a12 = (addr / 0x1000) % 2 == 1;
        if a12 && !self.a12_prev {
            if cycle.wrapping_sub(self.a12_low_since) > 10 {
                if self.irq_enabled && self.irq_enabled_alt && self.irq_counter != 0 {
                    self.irq_counter = self.irq_counter - 1;
                    if self.irq_counter == 0 {
                        self.irq_pending = true;
                        self.irq_enabled_alt = false;
                    }
                }
            }
        } else if !a12 && self.a12_prev {
            self.a12_low_since = cycle;
        }
        self.a12_prev = a12;
    }

    #[verifier::allow_in_spec]
    pub fn watches_ppu_bus(&self) -> bool
        returns true,
    {
        true
    }

    #[verifier::allow_in_spec]
    pub fn irq(&self) -> bool
        returns self.irq_pending,
    {
        self.irq_pending
    }

    pub open spec fn after_clear_irq(self) -> Self {
        Mapper117 { irq_pending: false, ..self }
    }

    pub fn clear_irq(&mut self)
        requires old(self).wf(),
        ensures *final(self) == old(self).after_clear_irq(), final(self).wf(),
    {
        self.irq_pending = false;
    }
}

} // verus!
