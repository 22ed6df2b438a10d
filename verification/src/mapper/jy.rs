//! JY Company: the Super Fighter III family board (91) and the JY ASIC
//! (90, 209, 211 and the multicart relatives 281, 282, 295, 358).

use vstd::prelude::*;

verus! {

use crate::mapper::irq_boards::{at_least, vh_single};
use crate::mapper::unlicensed::with_bit;
use crate::mapper::latch::{lo13, chr_off};
use crate::mapper::{MAX_CHR_8K, MAX_PRG_16K};
use crate::types::Mirroring;

/// Mapper 91: four 2 KiB CHR registers and two 8 KiB PRG registers at
/// `$6000-$7FFF` (the last two PRG banks fixed at `$E`/`$F`), an outer bank
/// latched from the address of a `$8000-$9FFF` write, and an IRQ raised
/// after eight H-blank ticks. Submapper 1 takes mirroring from a register;
/// otherwise the header decides.
#[derive(Debug, Clone, Copy)]
pub struct Mapper91 {
    pub prg_8k_total: usize,
    pub chr_2k_total: usize,
    pub chr_2k: [u8; 4],
    pub prg_8k: [u8; 2],
    pub irq_count: u8,
    pub irq_enabled: bool,
    pub irq_pending: bool,
    pub submapper: u8,
    pub outer_bank: u8,
    pub mirroring_latch: u8,
    pub header_mirroring: Mirroring,
}

impl Mapper91 {
    pub open spec fn wf(&self) -> bool {
        &&& 1 <= self.prg_8k_total <= 2 * MAX_PRG_16K
        &&& 1 <= self.chr_2k_total <= 4 * MAX_CHR_8K
        &&& self.outer_bank < 8
    }

    pub open spec fn fresh(self, prg_16k: usize, chr_8k: usize, submapper: u8, mirroring: Mirroring) -> bool {
        &&& self.prg_8k_total == at_least(prg_16k * 2, 1) && self.chr_2k_total == at_least(chr_8k * 4, 1)
        &&& self.chr_2k@ == seq![0u8, 0, 0, 0] && self.prg_8k@ == seq![0u8, 0]
        &&& self.irq_count == 0 && !self.irq_enabled && !self.irq_pending
        &&& self.submapper == submapper && self.outer_bank == 0 && self.mirroring_latch == 0
        &&& self.header_mirroring == mirroring
    }

    pub fn new(prg_16k: usize, chr_8k: usize, submapper: u8, mirroring: Mirroring) -> (r: Self)
        requires prg_16k <= MAX_PRG_16K, chr_8k <= MAX_CHR_8K,
        ensures r.fresh(prg_16k, chr_8k, submapper, mirroring), r.wf(),
    {
        let r = Mapper91 {
            prg_8k_total: if prg_16k == 0 { 1 } else { prg_16k * 2 },
            chr_2k_total: if chr_8k == 0 { 1 } else { chr_8k * 4 },
            chr_2k: [0u8; 4],
            prg_8k: [0u8, 0],
            irq_count: 0,
            irq_enabled: false,
            irq_pending: false,
            submapper,
            outer_bank: 0,
            mirroring_latch: 0,
            header_mirroring: mirroring,
        };
        assert(r.chr_2k@ =~= seq![0u8, 0, 0, 0]);
        r
    }

    /// The outer PRG bits: outer-bank bits 1-2 as bank bits 4-5.
    pub open spec fn outer_prg(self) -> u16 {
        (((self.outer_bank / 2) % 4) * 16) as u16
    }

    pub open spec fn prg_page(self, slot: int) -> int {
        if slot < 2 { (self.prg_8k@[slot] as u16 | self.outer_prg()) as int }
        else { (0x0E + slot - 2) + self.outer_prg() }
    }

    #[verifier::allow_in_spec]
    pub fn prg_index(&self, addr: u16) -> usize
        requires self.wf(), addr >= 0x8000,
        returns ((self.prg_page(((addr - 0x8000) / 0x2000) as int) % self.prg_8k_total as int) * 0x2000 + addr % 0x2000) as usize,
    {
        let slot = ((addr - 0x8000) / 0x2000) as usize;
        let outer = ((self.outer_bank / 2) % 4) as u16 * 16;
        let page: usize = if slot < 2 { (self.prg_8k[slot] as u16 | outer) as usize } else { 0x0E + slot - 2 + outer as usize };
        (page % self.prg_8k_total) * 0x2000 + (addr % 0x2000) as usize
    }

    #[verifier::allow_in_spec]
    pub fn chr_index(&self, addr: u16) -> usize
        requires self.wf(),
        returns (((self.chr_2k@[lo13(addr) / 0x800] as int + (self.outer_bank % 2) as int * 256) % self.chr_2k_total as int) * 0x800
            + addr % 0x800) as usize,
    {
        let bank = self.chr_2k[chr_off(addr) / 0x800] as usize + (self.outer_bank % 2) as usize * 256;
        (bank % self.chr_2k_total) * 0x800 + (addr % 0x800) as usize
    }

    pub open spec fn written(self, addr: u16, value: u8) -> Self {
        if 0x8000 <= addr <= 0x9FFF { Mapper91 { outer_bank: (addr % 8) as u8, ..self } } else { self }
    }

    pub fn write_register(&mut self, addr: u16, value: u8)
        requires old(self).wf(),
        ensures *final(self) == old(self).written(addr, value), final(self).wf(),
    {
        if 0x8000 <= addr && addr <= 0x9FFF {
            self.outer_bank = (addr % 8) as u8;
        }
    }

    /// `$6000-$6FFF` (`addr & 7`): CHR registers 0-3, mirroring latch at 4-5;
    /// `$7000-$7FFF` (`addr & 3`): PRG registers 0-1, IRQ stop-and-clear at
    /// 2, IRQ start at 3.
    pub open spec fn claims_low(addr: u16) -> bool {
        0x6000 <= addr <= 0x7FFF
    }

    pub open spec fn low_wrote(o: Self, n: Self, addr: u16, value: u8) -> bool {
        let chr_bank = 0x6000 <= addr <= 0x6FFF && addr % 8 <= 3;
        let mirror = 0x6000 <= addr <= 0x6FFF && (addr % 8 == 4 || addr % 8 == 5);
        let prg_bank = 0x7000 <= addr <= 0x7FFF && addr % 4 <= 1;
        let stop = 0x7000 <= addr <= 0x7FFF && addr % 4 == 2;
        let start = 0x7000 <= addr <= 0x7FFF && addr % 4 == 3;
        &&& n.prg_8k_total == o.prg_8k_total && n.chr_2k_total == o.chr_2k_total
        &&& n.submapper == o.submapper && n.outer_bank == o.outer_bank && n.header_mirroring == o.header_mirroring
        &&& n.chr_2k@ == if chr_bank { o.chr_2k@.update((addr % 4) as int, value) } else { o.chr_2k@ }
        &&& n.mirroring_latch == if mirror { value % 2 } else { o.mirroring_latch }
        &&& n.prg_8k@ == if prg_bank { o.prg_8k@.update((addr % 2) as int, value) } else { o.prg_8k@ }
        &&& n.irq_enabled == if stop { false } else if start { true } else { o.irq_enabled }
        &&& n.irq_count == if stop { 0 } else { o.irq_count }
        &&& n.irq_pending == if stop || start { false } else { o.irq_pending }
    }

    pub fn write_low_register(&mut self, addr: u16, value: u8) -> (r: bool)
        requires old(self).wf(),
        ensures r == Self::claims_low(addr), Self::low_wrote(*old(self), *final(self), addr, value), final(self).wf(),
    {
        if 0x6000 <= addr && addr <= 0x6FFF {
            let reg = addr % 8;
            if reg <= 3 {
                self.chr_2k[(addr % 4) as usize] = value;
            } else if reg == 4 || reg == 5 {
                self.mirroring_latch = value % 2;
            }
            true
        } else if 0x7000 <= addr && addr <= 0x7FFF {
            let reg = addr % 4;
            if reg <= 1 {
                self.prg_8k[(addr % 2) as usize] = value;
            } else if reg == 2 {
                self.irq_enabled = false;
                self.irq_count = 0;
                self.irq_pending = false;
            } else {
                self.irq_enabled = true;
                self.irq_pending = false;
            }
            true
        } else {
            false
        }
    }

    #[verifier::allow_in_spec]
    pub fn mirroring(&self) -> Mirroring
        returns if self.submapper == 1 { if self.mirroring_latch % 2 == 1 { Mirroring::Horizontal } else { Mirroring::Vertical } }
            else { self.header_mirroring },
    {
        if self.submapper == 1 {
            if self.mirroring_latch % 2 == 1 { Mirroring::Horizontal } else { Mirroring::Vertical }
        } else {
            self.header_mirroring
        }
    }

    /// While enabled the count rises to 8, where the IRQ is raised.
    pub open spec fn after_hblank(self, scanline: u16, dot: u16) -> Self {
        if self.irq_enabled && self.irq_count < 8 {
            Mapper91 { irq_count: (self.irq_count + 1) as u8, irq_pending: self.irq_pending || self.irq_count + 1 >= 8, ..self }
        } else {
            self
        }
    }

    pub fn hblank_clock(&mut self, scanline: u16, dot: u16)
        requires old(self).wf(),
        ensures *final(self) == old(self).after_hblank(scanline, dot), final(self).wf(),
    {
        if self.irq_enabled && self.irq_count < 8 {
            self.irq_count = self.irq_count + 1;
            if self.irq_count >= 8 {
                self.irq_pending = true;
            }
        }
    }

    #[verifier::allow_in_spec]
    pub fn clocks_hblank(&self) -> bool
        returns true,
    {
        true
    }

    #[verifier::allow_in_spec]
    pub fn irq(&self) -> bool
        returns self.irq_pending,
    {
        self.irq_pending
    }

    pub open spec fn after_clear_irq(self) -> Self {
        Mapper91 { irq_pending: false, ..self }
    }

    pub fn clear_irq(&mut self)
        requires old(self).wf(),
        ensures *final(self) == old(self).after_clear_irq(), final(self).wf(),
    {
        self.irq_pending = false;
    }
}

// ------------------------------------------------------------ JY ASIC

/// Which board the JY ASIC sits on: it fixes the outer-bank masks and
/// whether the extended nametable modes and CHR latches exist.
#[derive(Debug, Clone, Copy, PartialEq, Eq, Structural)]
pub enum JyAsicVariant {
    Mapper90,
    Mapper209,
    Mapper211,
    Mapper281,
    Mapper282,
    Mapper295,
    Mapper358,
}

/// Data bits 0-6 in reverse order (bit 3 stays).
pub open spec fn reverse_prg_bits(v: u8) -> u8 {
    ((v % 2) * 64 + ((v / 2) % 2) * 32 + ((v / 4) % 2) * 16 + ((v / 8) % 2) * 8
        + ((v / 16) % 2) * 4 + ((v / 32) % 2) * 2 + (v / 64) % 2) as u8
}

fn reverse_prg_bits_of(v: u8) -> (r: u8)
    ensures r == reverse_prg_bits(v),
{
    (v % 2) * 64 + ((v / 2) % 2) * 32 + ((v / 4) % 2) * 16 + ((v / 8) % 2) * 8
        + ((v / 16) % 2) * 4 + ((v / 32) % 2) * 2 + (v / 64) % 2
}

/// The JY ASIC: PRG in 32/16/8 KiB (or bit-reversed 8 KiB) modes with an
/// optional `$6000` window, CHR in 8/4/2/1 KiB modes (4 KiB with MMC2-style
/// latches on 209/211), nametables from CIRAM or CHR-ROM on the extended
/// variants, a multiplier/adder at `$5000-$5FFF`, and an IRQ counter with a
/// 3- or 8-bit prescaler clocked by CPU cycles, H-blank or PPU address
/// changes, counting up or down.
#[derive(Debug, Clone, Copy)]
pub struct JyAsic {
    pub prg_8k_total: usize,
    pub chr_1k_total: usize,
    pub variant: JyAsicVariant,
    pub mode: [u8; 4],
    pub prg: [u8; 4],
    pub chr: [u16; 8],
    pub nt: [u16; 4],
    pub latch: [u8; 2],
    pub mul: [u8; 2],
    pub adder: u8,
    pub test: u8,
    pub dip_switch: u8,
    pub irq_control: u8,
    pub irq_enabled: bool,
    pub irq_prescaler: u8,
    pub irq_counter: u8,
    pub irq_xor: u8,
    pub irq_pending: bool,
    pub last_ppu_addr: u16,
}

impl JyAsic {
    pub open spec fn wf(&self) -> bool {
        &&& 1 <= self.prg_8k_total <= 2 * MAX_PRG_16K
        &&& 8 <= self.chr_1k_total <= 8 * MAX_CHR_8K
        &&& self.latch@[0] < 8 && self.latch@[1] < 8
        &&& self.dip_switch % 64 == 0
    }

    pub open spec fn fresh(self, prg_16k: usize, chr_8k: usize, variant: JyAsicVariant) -> bool {
        &&& self.prg_8k_total == at_least(prg_16k * 2, 1) && self.chr_1k_total == at_least(chr_8k * 8, 8)
        &&& self.variant == variant
        &&& self.mode@ == seq![0u8, 0, 0, 0] && self.prg@ == seq![0u8, 0, 0, 0]
        &&& self.chr@ == seq![0u16, 0, 0, 0, 0, 0, 0, 0] && self.nt@ == seq![0u16, 0, 0, 0]
        &&& self.latch@ == seq![0u8, 4] && self.mul@ == seq![0u8, 0]
        &&& self.adder == 0 && self.test == 0 && self.dip_switch == 0 && self.irq_control == 0
        &&& !self.irq_enabled && self.irq_prescaler == 0 && self.irq_counter == 0 && self.irq_xor == 0
        &&& !self.irq_pending && self.last_ppu_addr == 0
    }

    pub fn new(prg_16k: usize, chr_8k: usize, variant: JyAsicVariant) -> (r: Self)
        requires prg_16k <= MAX_PRG_16K, chr_8k <= MAX_CHR_8K,
        ensures r.fresh(prg_16k, chr_8k, variant), r.wf(),
    {
        let r = JyAsic {
            prg_8k_total: if prg_16k == 0 { 1 } else { prg_16k * 2 },
            chr_1k_total: if chr_8k == 0 { 8 } else { chr_8k * 8 },
            variant,
            mode: [0u8; 4],
            prg: [0u8; 4],
            chr: [0u16; 8],
            nt: [0u16; 4],
            latch: [0u8, 4],
            mul: [0u8; 2],
            adder: 0,
            test: 0,
            dip_switch: 0,
            irq_control: 0,
            irq_enabled: false,
            irq_prescaler: 0,
            irq_counter: 0,
            irq_xor: 0,
            irq_pending: false,
            last_ppu_addr: 0,
        };
        assert(r.mode@ =~= seq![0u8, 0, 0, 0]);
        assert(r.prg@ =~= seq![0u8, 0, 0, 0]);
        assert(r.chr@ =~= seq![0u16, 0, 0, 0, 0, 0, 0, 0]);
        assert(r.nt@ =~= seq![0u16, 0, 0, 0]);
        assert(r.mul@ =~= seq![0u8, 0]);
        r
    }

    #[verifier::allow_in_spec]
    pub fn allow_extended_nametable(&self) -> bool
        returns self.variant != JyAsicVariant::Mapper90,
    {
        self.variant != JyAsicVariant::Mapper90
    }

    #[verifier::allow_in_spec]
    pub fn advanced_nametable_enabled(&self) -> bool
        returns self.variant == JyAsicVariant::Mapper211
            || (self.variant != JyAsicVariant::Mapper90 && (self.mode@[0] / 32) % 2 == 1),
    {
        self.variant == JyAsicVariant::Mapper211
            || (self.variant != JyAsicVariant::Mapper90 && (self.mode[0] / 32) % 2 == 1)
    }

    /// PRG outer masks as (window size in 8 KiB pages, outer base): the
    /// AND mask is `size - 1`, the OR value a multiple of `size` taken from
    /// mode register 3.
    #[verifier::allow_in_spec]
    pub fn prg_and_or(&self) -> (usize, usize)
        returns match self.variant {
            JyAsicVariant::Mapper281 => (32usize, (self.mode@[3] as usize * 32) as usize),
            JyAsicVariant::Mapper282 => (32usize, ((self.mode@[3] / 2) as usize * 32) as usize),
            JyAsicVariant::Mapper295 => (16usize, (self.mode@[3] as usize * 16) as usize),
            JyAsicVariant::Mapper358 => (32usize, ((self.mode@[3] / 2) as usize * 32) as usize),
            _ => (64usize, ((self.mode@[3] / 2) as usize * 64) as usize),
        },
    {
        match self.variant {
            JyAsicVariant::Mapper281 => (32usize, self.mode[3] as usize * 32),
            JyAsicVariant::Mapper282 => (32usize, (self.mode[3] / 2) as usize * 32),
            JyAsicVariant::Mapper295 => (16usize, self.mode[3] as usize * 16),
            JyAsicVariant::Mapper358 => (32usize, (self.mode[3] / 2) as usize * 32),
            _ => (64usize, (self.mode[3] / 2) as usize * 64),
        }
    }

    pub open spec fn fixed_prg(self) -> u8 {
        if (self.mode@[0] / 4) % 2 == 1 { self.prg@[3] } else { 0xFFu8 }
    }

    /// The 8 KiB PRG page of slot `slot` (0-3): 32 KiB, 16 KiB, 8 KiB or
    /// bit-reversed 8 KiB banking (mode register 0 bits 0-1), the last slot
    /// from PRG register 3 when mode bit 2 is set, else `$FF`.
    pub open spec fn prg_page(self, slot: int) -> int {
        let (size, base) = self.prg_and_or();
        let fixed = self.fixed_prg();
        let m = self.mode@[0] % 4;
        if m == 0 {
            ((fixed as int) % (size as int / 4) + base as int / 4) * 4 + slot
        } else if m == 1 {
            let b = if slot < 2 { self.prg@[1] } else { fixed };
            ((b as int) % (size as int / 2) + base as int / 2) * 2 + slot % 2
        } else {
            let r = if slot == 0 { self.prg@[0] } else if slot == 1 { self.prg@[1] } else if slot == 2 { self.prg@[2] } else { fixed };
            let r2 = if m == 2 { r } else { reverse_prg_bits(r) };
            (r2 as int) % (size as int) + base as int
        }
    }

    #[verifier::spinoff_prover]
    #[verifier::rlimit(50)]
    fn prg_page_of(&self, slot: usize) -> (r: usize)
        requires slot < 4,
        ensures r == self.prg_page(slot as int),
    {
        let (size, base) = self.prg_and_or();
        assert(size == 16 || size == 32 || size == 64);
        assert(base <= 255 * 64);
        let fixed = if (self.mode[0] / 4) % 2 == 1 { self.prg[3] } else { 0xFFu8 };
        let m = self.mode[0] % 4;
        if m == 0 {
            let q = size / 4;
            let low = (fixed as usize) % q;
            let hi = base / 4;
            (low + hi) * 4 + slot
        } else if m == 1 {
            let b = if slot < 2 { self.prg[1] } else { fixed };
            let q = size / 2;
            let low = (b as usize) % q;
            let hi = base / 2;
            (low + hi) * 2 + slot % 2
        } else {
            let r = if slot == 0 { self.prg[0] } else if slot == 1 { self.prg[1] } else if slot == 2 { self.prg[2] } else { fixed };
            let r2 = if m == 2 { r } else { reverse_prg_bits_of(r) };
            (r2 as usize) % size + base
        }
    }

    #[verifier::allow_in_spec]
    pub fn prg_index(&self, addr: u16) -> usize
        requires self.wf(), addr >= 0x8000,
        returns ((self.prg_page(((addr - 0x8000) / 0x2000) as int) % self.prg_8k_total as int) * 0x2000 + addr % 0x2000) as usize,
    {
        (self.prg_page_of(((addr - 0x8000) / 0x2000) as usize) % self.prg_8k_total) * 0x2000 + (addr % 0x2000) as usize
    }
}


impl JyAsic {
    /// The optional `$6000-$7FFF` PRG page (mode register 0 bit 7), from PRG
    /// register 3 in the current banking mode.
    pub open spec fn low_prg_page(self) -> Option<int> {
        let (size, base) = self.prg_and_or();
        let p3 = self.prg@[3] as int;
        let m = self.mode@[0] % 4;
        let page = if m == 0 { p3 * 4 + 3 } else if m == 1 { p3 * 2 + 1 } else if m == 2 { p3 } else { reverse_prg_bits(self.prg@[3]) as int };
        if self.mode@[0] < 0x80 { None } else { Some(page % (size as int) + base as int) }
    }

    #[verifier::allow_in_spec]
    pub fn low_prg_index(&self, addr: u16) -> Option<usize>
        requires self.wf(),
        returns match self.low_prg_page() {
            Some(p) => Some(((p % self.prg_8k_total as int) * 0x2000 + addr % 0x2000) as usize),
            None => None,
        },
    {
        if self.mode[0] < 0x80 {
            return None;
        }
        let (size, base) = self.prg_and_or();
        let p3 = self.prg[3] as usize;
        let m = self.mode[0] % 4;
        let page = if m == 0 { p3 * 4 + 3 } else if m == 1 { p3 * 2 + 1 } else if m == 2 { p3 } else { reverse_prg_bits_of(self.prg[3]) as usize };
        Some(((page % size + base) % self.prg_8k_total) * 0x2000 + (addr % 0x2000) as usize)
    }

    #[verifier::allow_in_spec]
    pub fn low_prg_ram_read_enabled(&self, addr: u16) -> bool
        returns false,
    {
        false
    }

    #[verifier::allow_in_spec]
    pub fn low_prg_ram_write_enabled(&self, addr: u16) -> bool
        returns false,
    {
        false
    }

    /// CHR outer masks as (window size in 1 KiB pages, outer base from mode
    /// register 3; bit 5 widens the window to 512 pages on most boards).
    pub open spec fn chr_masks(self) -> (usize, usize) {
        let m3 = self.mode@[3];
        let wide = (m3 / 32) % 2 == 1;
        match self.variant {
            JyAsicVariant::Mapper281 => (0x100usize, (m3 as usize * 256) as usize),
            JyAsicVariant::Mapper295 => (0x80usize, (m3 as usize * 128) as usize),
            JyAsicVariant::Mapper358 => if wide { (0x200usize, (((m3 / 4) % 4) as usize * 512) as usize) }
                else { (0x100usize, ((m3 % 2) as usize * 256 + ((m3 / 4) % 4) as usize * 512) as usize) },
            _ => if wide { (0x200usize, (((m3 / 8) % 4) as usize * 512) as usize) }
                else { (0x100usize, ((m3 % 2) as usize * 256 + ((m3 / 8) % 4) as usize * 512) as usize) },
        }
    }

    #[verifier::allow_in_spec]
    pub fn chr_and_or(&self) -> (usize, usize)
        returns self.chr_masks(),
    {
        let m3 = self.mode[3];
        let wide = (m3 / 32) % 2 == 1;
        match self.variant {
            JyAsicVariant::Mapper281 => (0x100usize, m3 as usize * 256),
            JyAsicVariant::Mapper295 => (0x80usize, m3 as usize * 128),
            JyAsicVariant::Mapper358 => if wide { (0x200usize, ((m3 / 4) % 4) as usize * 512) }
                else { (0x100usize, (m3 % 2) as usize * 256 + ((m3 / 4) % 4) as usize * 512) },
            _ => if wide { (0x200usize, ((m3 / 8) % 4) as usize * 512) }
                else { (0x100usize, (m3 % 2) as usize * 256 + ((m3 / 8) % 4) as usize * 512) },
        }
    }

    /// Four-KiB mode with the MMC2-style latches (209 and 211 only).
    pub open spec fn latches_active(self) -> bool {
        (self.variant == JyAsicVariant::Mapper209 || self.variant == JyAsicVariant::Mapper211) && (self.mode@[0] / 8) % 4 == 1
    }

    #[verifier::allow_in_spec]
    pub fn uses_chr_latches(&self) -> bool
        returns self.latches_active(),
    {
        (self.variant == JyAsicVariant::Mapper209 || self.variant == JyAsicVariant::Mapper211) && (self.mode[0] / 8) % 4 == 1
    }

    /// CHR register `index`, with 2-3 folded onto 0-1 when mode register 3
    /// bit 7 is set outside 4 KiB mode.
    pub open spec fn chr_reg(self, index: int) -> int {
        let i = if self.mode@[3] >= 0x80 && (self.mode@[0] / 8) % 4 != 1 && 2 <= index <= 3 { index - 2 } else { index };
        self.chr@[i] as int
    }

    /// The 1 KiB CHR page of slot `slot` (0-7) in 8/4/2/1 KiB mode (mode
    /// register 0 bits 3-4).
    pub open spec fn chr_page(self, slot: int) -> int {
        let (size, base) = self.chr_and_or();
        let sz = size as int;
        let b = base as int;
        let m = (self.mode@[0] / 8) % 4;
        if m == 0 {
            (self.chr_reg(0) % (sz / 8) + b / 8) * 8 + slot
        } else if m == 1 {
            let ri = if self.uses_chr_latches() { if slot < 4 { self.latch@[0] as int } else { self.latch@[1] as int } }
                else if slot < 4 { 0 } else { 4 };
            (self.chr_reg(ri) % (sz / 4) + b / 4) * 4 + slot % 4
        } else if m == 2 {
            (self.chr_reg(slot - slot % 2) % (sz / 2) + b / 2) * 2 + slot % 2
        } else {
            self.chr_reg(slot) % sz + b
        }
    }

    fn chr_reg_of(&self, index: usize) -> (r: usize)
        requires index < 8,
        ensures r == self.chr_reg(index as int), r <= 0xFFFF,
    {
        let i = if self.mode[3] >= 0x80 && (self.mode[0] / 8) % 4 != 1 && 2 <= index && index <= 3 { index - 2 } else { index };
        self.chr[i] as usize
    }

    #[verifier::spinoff_prover]
    #[verifier::rlimit(50)]
    fn chr_page_of(&self, slot: usize) -> (r: usize)
        requires self.wf(), slot < 8,
        ensures r == self.chr_page(slot as int),
    {
        let (size, base) = self.chr_and_or();
        assert(size == 0x80 || size == 0x100 || size == 0x200);
        assert(base <= 255 * 512);
        let m = (self.mode[0] / 8) % 4;
        if m == 0 {
            let low = self.chr_reg_of(0) % (size / 8);
            (low + base / 8) * 8 + slot
        } else if m == 1 {
            let ri: usize = if self.uses_chr_latches() { if slot < 4 { self.latch[0] as usize } else { self.latch[1] as usize } }
                else if slot < 4 { 0 } else { 4 };
            let low = self.chr_reg_of(ri) % (size / 4);
            (low + base / 4) * 4 + slot % 4
        } else if m == 2 {
            let low = self.chr_reg_of(slot - slot % 2) % (size / 2);
            (low + base / 2) * 2 + slot % 2
        } else {
            self.chr_reg_of(slot) % size + base
        }
    }

    #[verifier::allow_in_spec]
    pub fn chr_index(&self, addr: u16) -> usize
        requires self.wf(),
        returns ((self.chr_page(lo13(addr) / 0x400) % self.chr_1k_total as int) * 0x400 + addr % 0x400) as usize,
    {
        (self.chr_page_of(chr_off(addr) / 0x400) % self.chr_1k_total) * 0x400 + (addr % 0x400) as usize
    }
}


impl JyAsic {
    /// Register writes, decoded under mask `$F007`: `$8000-$8007` PRG
    /// registers (7 bits, `addr & 3`), `$9000`/`$A000` CHR register low/high
    /// bytes, `$B000-$B003`/`$B004-$B007` nametable register low/high bytes,
    /// `$C000-$C006` the IRQ (enable, control, disable, arm, prescaler and
    /// counter through the XOR value, the XOR value); then under mask `$F003`
    /// `$D000-$D003` the mode registers (the extended-nametable bits forced
    /// off on 90).
    pub open spec fn wrote(o: Self, n: Self, addr: u16, value: u8) -> bool {
        let hi = addr / 0x1000;
        let lo = (addr % 8) as int;
        let irq = hi == 0xC;
        &&& n.prg_8k_total == o.prg_8k_total && n.chr_1k_total == o.chr_1k_total && n.variant == o.variant
        &&& n.latch@ == o.latch@ && n.mul@ == o.mul@ && n.adder == o.adder && n.test == o.test
        &&& n.dip_switch == o.dip_switch && n.last_ppu_addr == o.last_ppu_addr
        &&& n.prg@ == if hi == 8 { o.prg@.update(lo % 4, value % 128) } else { o.prg@ }
        &&& n.chr@ == if hi == 9 { o.chr@.update(lo, (o.chr@[lo] - o.chr@[lo] % 256 + value) as u16) }
            else if hi == 0xA { o.chr@.update(lo, (o.chr@[lo] % 256 + value * 256) as u16) } else { o.chr@ }
        &&& n.nt@ == if hi == 0xB && lo < 4 { o.nt@.update(lo, (o.nt@[lo] - o.nt@[lo] % 256 + value) as u16) }
            else if hi == 0xB { o.nt@.update(lo - 4, (o.nt@[lo - 4] % 256 + value * 256) as u16) } else { o.nt@ }
        &&& n.irq_enabled == if irq && lo == 0 { value % 2 == 1 } else if irq && lo == 2 { false }
            else if irq && lo == 3 { true } else { o.irq_enabled }
        &&& n.irq_prescaler == if irq && ((lo == 0 && value % 2 == 0) || lo == 2) { 0 }
            else if irq && lo == 4 { value ^ o.irq_xor } else { o.irq_prescaler }
        &&& n.irq_pending == if irq && ((lo == 0 && value % 2 == 0) || lo == 2) { false } else { o.irq_pending }
        &&& n.irq_control == if irq && lo == 1 { value } else { o.irq_control }
        &&& n.irq_counter == if irq && lo == 5 { value ^ o.irq_xor } else { o.irq_counter }
        &&& n.irq_xor == if irq && lo == 6 { value } else { o.irq_xor }
        &&& n.mode@ == if hi == 0xD {
                let k = (addr % 4) as int;
                let v = if k == 0 && !o.allow_extended_nametable() { with_bit(value as int, 32, false) as u8 }
                    else if k == 1 && !o.allow_extended_nametable() { with_bit(value as int, 8, false) as u8 } else { value };
                o.mode@.update(k, v)
            } else { o.mode@ }
    }

    pub fn write_register(&mut self, addr: u16, value: u8)
        requires old(self).wf(),
        ensures Self::wrote(*old(self), *final(self), addr, value), final(self).wf(),
    {
        let hi = addr / 0x1000;
        let lo = (addr % 8) as usize;
        if hi == 8 {
            self.prg[lo % 4] = value % 128;
        } else if hi == 9 {
            let c = self.chr[lo];
            self.chr[lo] = c - c % 256 + value as u16;
        } else if hi == 0xA {
            let c = self.chr[lo];
            self.chr[lo] = c % 256 + value as u16 * 256;
        } else if hi == 0xB {
            if lo < 4 {
                let c = self.nt[lo];
                self.nt[lo] = c - c % 256 + value as u16;
            } else {
                let c = self.nt[lo - 4];
                self.nt[lo - 4] = c % 256 + value as u16 * 256;
            }
        } else if hi == 0xC {
            if lo == 0 {
                self.irq_enabled = value % 2 == 1;
                if !self.irq_enabled {
                    self.irq_prescaler = 0;
                    self.irq_pending = false;
                }
            } else if lo == 1 {
                self.irq_control = value;
            } else if lo == 2 {
                self.irq_enabled = false;
                self.irq_prescaler = 0;
                self.irq_pending = false;
            } else if lo == 3 {
                self.irq_enabled = true;
            } else if lo == 4 {
                self.irq_prescaler = value ^ self.irq_xor;
            } else if lo == 5 {
                self.irq_counter = value ^ self.irq_xor;
            } else if lo == 6 {
                self.irq_xor = value;
            }
        } else if hi == 0xD {
            let k = (addr % 4) as usize;
            let ext = self.allow_extended_nametable();
            let v = if k == 0 && !ext && (value / 32) % 2 == 1 {
                value - 32
            } else if k == 1 && !ext && (value / 8) % 2 == 1 {
                value - 8
            } else {
                value
            };
            self.mode[k] = v;
        }
    }

    /// The multiplier/adder block at `$5000-$5FFF`: the DIP switches (top
    /// two bits, open bus below) at `$x000`/`$x400` except `$5800`; with
    /// address bit 11 set, product low/high byte, adder, test register;
    /// otherwise open bus.
    pub open spec fn alu_value(self, addr: u16, open_bus: u8) -> u8 {
        if addr % 0x400 == 0 && addr != 0x5800 { (self.dip_switch + open_bus % 64) as u8 }
        else if (addr / 0x800) % 2 == 1 {
            let product = self.mul@[0] as int * self.mul@[1] as int;
            let k = addr % 4;
            if k == 0 { (product % 256) as u8 } else if k == 1 { (product / 256) as u8 }
            else if k == 2 { self.adder } else { self.test }
        } else { open_bus }
    }

    #[verifier::allow_in_spec]
    pub fn peek_expansion_with_open_bus(&self, addr: u16, open_bus: u8) -> Option<u8>
        requires self.dip_switch % 64 == 0,
        returns if 0x5000 <= addr <= 0x5FFF { Some(self.alu_value(addr, open_bus)) } else { None },
    {
        if !(0x5000 <= addr && addr <= 0x5FFF) {
            return None;
        }
        if addr % 0x400 == 0 && addr != 0x5800 {
            return Some(self.dip_switch + open_bus % 64);
        }
        if (addr / 0x800) % 2 == 1 {
            let a = self.mul[0] as u16;
            let b = self.mul[1] as u16;
            assert(a * b <= 255 * 255) by (nonlinear_arith) requires a <= 255, b <= 255;
            let product = a * b;
            let k = addr % 4;
            Some(if k == 0 { (product % 256) as u8 } else if k == 1 { (product / 256) as u8 } else if k == 2 { self.adder } else { self.test })
        } else {
            Some(open_bus)
        }
    }

    pub fn read_expansion_with_open_bus(&mut self, addr: u16, open_bus: u8) -> (r: Option<u8>)
        requires old(self).dip_switch % 64 == 0,
        ensures r == old(self).peek_expansion_with_open_bus(addr, open_bus), *final(self) == *old(self),
    {
        self.peek_expansion_with_open_bus(addr, open_bus)
    }

    pub open spec fn expansion_wrote(o: Self, n: Self, addr: u16, value: u8) -> bool {
        let in_range = 0x5000 <= addr <= 0x5FFF;
        let k = addr % 4;
        &&& n == (JyAsic { mul: n.mul, adder: n.adder, test: n.test, ..o })
        &&& n.mul@ == if in_range && k <= 1 { o.mul@.update(k as int, value) } else { o.mul@ }
        &&& n.adder == if in_range && k == 2 { ((o.adder + value) % 256) as u8 } else if in_range && k == 3 { 0 } else { o.adder }
        &&& n.test == if in_range && k == 3 { value } else { o.test }
    }

    pub fn write_expansion(&mut self, addr: u16, value: u8)
        requires old(self).wf(),
        ensures Self::expansion_wrote(*old(self), *final(self), addr, value), final(self).wf(),
    {
        if !(0x5000 <= addr && addr <= 0x5FFF) {
            return;
        }
        let k = addr % 4;
        if k == 0 {
            self.mul[0] = value;
        } else if k == 1 {
            self.mul[1] = value;
        } else if k == 2 {
            self.adder = self.adder.wrapping_add(value);
        } else {
            self.test = value;
            self.adder = 0;
        }
    }

    /// Nametable `addr & $0FFF` / `$400` (the caller passes `$2000-$2FFF` or
    /// a mirror of it).
    pub open spec fn nt_page(addr: u16) -> int {
        ((addr % 0x1000) / 0x400) as int
    }

    /// In the extended modes a nametable page comes from CHR-ROM when mode
    /// register 0 bit 6 says so, or when the register's bit 7 differs from
    /// mode register 2 bit 7.
    pub open spec fn nametable_uses_chr(self, page: int) -> bool {
        self.advanced_nametable_enabled()
            && ((self.mode@[0] / 64) % 2 == 1 || (self.nt@[page] / 128) % 2 != (self.mode@[2] / 128) % 2)
    }

    #[verifier::allow_in_spec]
    pub fn nametable_chr_index(&self, addr: u16) -> Option<usize>
        returns if self.nametable_uses_chr(Self::nt_page(addr)) {
            Some(((self.nt@[Self::nt_page(addr)] as int % self.chr_masks().0 as int + self.chr_masks().1 as int) * 0x400 + addr % 0x400) as usize)
        } else { None },
    {
        let page = ((addr % 0x1000) / 0x400) as usize;
        if !(self.advanced_nametable_enabled()
            && ((self.mode[0] / 64) % 2 == 1 || (self.nt[page] / 128) % 2 != (self.mode[2] / 128) as u16 % 2)) {
            return None;
        }
        let (size, base) = self.chr_and_or();
        assert(size == 0x80 || size == 0x100 || size == 0x200);
        assert(base <= 255 * 512);
        Some(((self.nt[page] as usize) % size + base) * 0x400 + (addr % 0x400) as usize)
    }

    #[verifier::allow_in_spec]
    pub fn has_nametable_chr_mapping(&self) -> bool
        returns self.variant != JyAsicVariant::Mapper90,
    {
        self.allow_extended_nametable()
    }

    #[verifier::allow_in_spec]
    pub fn ciram_index(&self, addr: u16) -> usize
        returns ((self.nt@[Self::nt_page(addr)] % 2) as int * 0x400 + addr % 0x400) as usize,
    {
        ((self.nt[((addr % 0x1000) / 0x400) as usize] % 2) as usize) * 0x400 + (addr % 0x400) as usize
    }

    #[verifier::allow_in_spec]
    pub fn peek_nametable(&self, addr: u16, ciram: &[u8; 0x1000]) -> Option<u8>
        requires (addr / 0x2000) % 2 == 1,
        returns if self.advanced_nametable_enabled() { Some(ciram@[self.ciram_index(addr) as int]) } else { None },
    {
        if self.advanced_nametable_enabled() { Some(ciram[self.ciram_index(addr)]) } else { None }
    }

    pub open spec fn claims_nametable_write(&self, addr: u16) -> bool {
        self.advanced_nametable_enabled()
    }

    pub open spec fn nametable_wrote(&self, addr: u16, value: u8, before: Seq<u8>, after: Seq<u8>) -> bool {
        if self.advanced_nametable_enabled() { after == before.update(self.ciram_index(addr) as int, value) } else { after == before }
    }

    pub fn nametable_write(&mut self, addr: u16, value: u8, ciram: &mut [u8; 0x1000]) -> (r: bool)
        requires (addr / 0x2000) % 2 == 1,
        ensures
            r == old(self).claims_nametable_write(addr),
            *final(self) == *old(self),
            old(self).nametable_wrote(addr, value, old(ciram)@, final(ciram)@),
    {
        if !self.advanced_nametable_enabled() {
            return false;
        }
        let i = self.ciram_index(addr);
        ciram[i] = value;
        true
    }

    #[verifier::allow_in_spec]
    pub fn mirroring(&self) -> Mirroring
        returns if self.advanced_nametable_enabled() { Mirroring::Vertical } else { vh_single(self.mode@[1] as int) },
    {
        if self.advanced_nametable_enabled() {
            return Mirroring::Vertical;
        }
        let m = self.mode[1] % 4;
        if m == 0 { Mirroring::Vertical } else if m == 1 { Mirroring::Horizontal }
        else if m == 2 { Mirroring::SingleScreenLow } else { Mirroring::SingleScreenHigh }
    }
}


impl JyAsic {
    /// One IRQ clock: with the counter enabled, the prescaler (its low 3 bits
    /// when control bit 2 is set, else all 8) steps up (control bits 6-7 =
    /// 1) or down (= 2); wrapping to 0 (up) or to its mask (down) steps the
    /// counter the same way, and the counter wrapping raises the IRQ.
    pub open spec fn clocked(self) -> Self {
        let w: int = if (self.irq_control / 4) % 2 == 1 { 8 } else { 256 };
        let p = self.irq_prescaler as int;
        let high = p - p % w;
        let dir = (self.irq_control / 64) % 4;
        if !self.irq_enabled || (dir != 1 && dir != 2) {
            self
        } else if dir == 1 {
            let np = (p % w + 1) % w;
            let c = (self.irq_counter + 1) % 256;
            if np == 0 { JyAsic { irq_prescaler: (high + np) as u8, irq_counter: c as u8, irq_pending: self.irq_pending || c == 0, ..self } }
            else { JyAsic { irq_prescaler: (high + np) as u8, ..self } }
        } else {
            let np = (p % w + w - 1) % w;
            let c = (self.irq_counter + 255) % 256;
            if np == w - 1 { JyAsic { irq_prescaler: (high + np) as u8, irq_counter: c as u8, irq_pending: self.irq_pending || c == 255, ..self } }
            else { JyAsic { irq_prescaler: (high + np) as u8, ..self } }
        }
    }

    pub open spec fn clocked_n(self, n: nat) -> Self
        decreases n,
    {
        if n == 0 { self } else { self.clocked().clocked_n((n - 1) as nat) }
    }

    fn clock_irq(&mut self)
        requires old(self).wf(),
        ensures *final(self) == old(self).clocked(), final(self).wf(),
    {
        let dir = (self.irq_control / 64) % 4;
        if !self.irq_enabled || (dir != 1 && dir != 2) {
            return;
        }
        let w: u16 = if (self.irq_control / 4) % 2 == 1 { 8 } else { 256 };
        let p = self.irq_prescaler as u16;
        let high = p - p % w;
        if dir == 1 {
            let np = (p % w + 1) % w;
            self.irq_prescaler = (high + np) as u8;
            if np == 0 {
                self.irq_counter = self.irq_counter.wrapping_add(1);
                if self.irq_counter == 0 {
                    self.irq_pending = true;
                }
            }
        } else {
            let np = (p % w + w - 1) % w;
            self.irq_prescaler = (high + np) as u8;
            if np == w - 1 {
                self.irq_counter = self.irq_counter.wrapping_sub(1);
                if self.irq_counter == 0xFF {
                    self.irq_pending = true;
                }
            }
        }
    }

    /// CPU-cycle clocking (control bits 0-1 = 0).
    pub open spec fn after_cpu_clock(self) -> Self {
        if self.irq_control % 4 == 0 { self.clocked() } else { self }
    }

    pub fn cpu_clock(&mut self)
        requires old(self).wf(),
        ensures *final(self) == old(self).after_cpu_clock(), final(self).wf(),
    {
        if self.irq_control % 4 == 0 {
            self.clock_irq();
        }
    }

    #[verifier::allow_in_spec]
    pub fn clocks_cpu(&self) -> bool
        returns true,
    {
        true
    }

    /// H-blank clocking (control bits 0-1 = 1): eight clocks per line.
    pub open spec fn after_hblank(self, scanline: u16, dot: u16) -> Self {
        if self.irq_control % 4 == 1 { self.clocked_n(8) } else { self }
    }

    pub fn hblank_clock(&mut self, scanline: u16, dot: u16)
        requires old(self).wf(),
        ensures *final(self) == old(self).after_hblank(scanline, dot), final(self).wf(),
    {
        if self.irq_control % 4 == 1 {
            let ghost start = *self;
            let mut i: u8 = 0;
            while i < 8
                invariant
                    i <= 8, self.wf(), start.irq_control % 4 == 1,
                    start.clocked_n(8) == self.clocked_n((8 - i) as nat),
                decreases 8 - i,
            {
                self.clock_irq();
                i = i + 1;
            }
        }
    }

    #[verifier::allow_in_spec]
    pub fn clocks_hblank(&self) -> bool
        returns true,
    {
        true
    }

    /// Whether a PPU address selects a CHR latch: `$0FD8-$0FDF` or
    /// `$0FE8-$0FEF` in either pattern table.
    pub open spec fn latch_address(addr: u16) -> bool {
        (addr / 0x2000) % 2 == 0 && ((addr / 8) % 512 == 0x1FB || (addr / 8) % 512 == 0x1FD)
    }

    /// PPU address changes clock the counter twice (control bits 0-1 = 2);
    /// on 209/211 in 4 KiB mode, a latch address sets that table's latch
    /// (address bit 12 picks the latch; bits 12 and 5 give 0, 2, 4 or 6).
    pub open spec fn a12_noted(o: Self, n: Self, addr: u16, cycle: u64) -> bool {
        let s1 = if o.irq_control % 4 == 2 && o.last_ppu_addr != addr { o.clocked().clocked() } else { o };
        let table = ((addr / 0x1000) % 2) as int;
        &&& n == (JyAsic { latch: n.latch, last_ppu_addr: addr, ..s1 })
        &&& n.latch@ == if s1.latches_active() && Self::latch_address(addr) {
                s1.latch@.update(table, (table * 4 + ((addr / 32) % 2) * 2) as u8)
            } else { s1.latch@ }
    }

    pub fn notify_a12(&mut self, addr: u16, cycle: u64)
        requires old(self).wf(),
        ensures Self::a12_noted(*old(self), *final(self), addr, cycle), final(self).wf(),
    {
        if self.irq_control % 4 == 2 && self.last_ppu_addr != addr {
            self.clock_irq();
            self.clock_irq();
        }
        self.last_ppu_addr = addr;
        if self.uses_chr_latches() && (addr / 0x2000) % 2 == 0 && ((addr / 8) % 512 == 0x1FB || (addr / 8) % 512 == 0x1FD) {
            let table = ((addr / 0x1000) % 2) as usize;
            self.latch[table] = (table * 4) as u8 + ((addr / 32) % 2) as u8 * 2;
        }
    }

    #[verifier::allow_in_spec]
    pub fn watches_ppu_bus(&self) -> bool
        returns true,
    {
        true
    }

    #[verifier::allow_in_spec]
    pub fn irq(&self) -> bool
        returns self.irq_pending,
    {
        self.irq_pending
    }

    pub open spec fn after_clear_irq(self) -> Self {
        JyAsic { irq_pending: false, ..self }
    }

    pub fn clear_irq(&mut self)
        requires old(self).wf(),
        ensures *final(self) == old(self).after_clear_irq(), final(self).wf(),
    {
        self.irq_pending = false;
    }

    /// A soft reset steps the two DIP-switch bits (6-7).
    pub open spec fn after_reset(self, soft: bool) -> Self {
        if soft { JyAsic { dip_switch: ((self.dip_switch + 0x40) % 256 - (self.dip_switch + 0x40) % 64) as u8, ..self } } else { self }
    }

    pub fn reset(&mut self, soft: bool)
        requires old(self).wf(),
        ensures *final(self) == old(self).after_reset(soft), final(self).wf(),
    {
        if soft {
            let d = self.dip_switch.wrapping_add(0x40);
            self.dip_switch = d - d % 64;
        }
    }
}

} // verus!
