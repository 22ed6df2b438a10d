//! More multicarts: 100-in-1 (15), Action 53 (28), SuperVision (53), Ball
//! Games (51), the 57 latch pair, NTDEC (63), 128, 42-in-1 (226), the
//! 240/241/244/246 data latches, 800-in-1 (236) and 420-in-1 (237).

use vstd::prelude::*;

verus! {

use crate::mapper::latch::{lo13, chr_off};
use crate::mapper::MAX_PRG_16K;
use crate::types::Mirroring;

pub open spec fn bit_set(v: int, w: int) -> bool {
    (v / w) % 2 == 1
}

pub open spec fn hv(horizontal: bool) -> Mirroring {
    if horizontal { Mirroring::Horizontal } else { Mirroring::Vertical }
}

fn hv_of(horizontal: bool) -> (r: Mirroring)
    ensures r == hv(horizontal),
{
    if horizontal { Mirroring::Horizontal } else { Mirroring::Vertical }
}

/// A 16 KiB page pair indexed by `addr >= $C000`.
pub open spec fn page16(pages: Seq<u16>, addr: u16) -> int {
    pages[if addr < 0xC000 { 0int } else { 1int }] * 0x4000 + addr % 0x4000
}

// ------------------------------------------------------------ Mapper 15

#[derive(Debug, Clone, Copy)]
pub struct Mapper15 {
    pub prg_8k: [u16; 4],
    pub mirroring: Mirroring,
}

impl Mapper15 {
    /// A write: bit 6 horizontal mirroring, bit 7 the 8 KiB half, bits 0-5
    /// the 16 KiB bank; `addr & 3` picks 32 KiB, 128 KiB-mirrored 16+16,
    /// 8 KiB everywhere, or 16+16 KiB.
    pub open spec fn written(self, addr: u16, value: u8) -> Self {
        let sub = (value / 128) as int;
        let bank = ((value % 128) * 2) as int;
        let b = bank + sub;
        let reg = addr % 4;
        let pages: Seq<int> = if reg == 0 { seq![bank + sub, bank + 1 - sub, bank + 2 + sub, bank + 3 - sub] }
            else if reg == 2 { seq![b, b, b, b] }
            else {
                let b2 = if reg == 3 { b } else { (bank / 16) * 16 + 14 + sub };
                seq![b, b + 1, b2, b2 + 1]
            };
        Mapper15 {
            prg_8k: [pages[0] as u16, pages[1] as u16, pages[2] as u16, pages[3] as u16],
            mirroring: hv(bit_set(value as int, 64)),
        }
    }

    pub fn write_register(&mut self, addr: u16, value: u8)
        ensures *final(self) == old(self).written(addr, value),
    {
        self.mirroring = hv_of((value / 64) % 2 == 1);
        let sub = (value / 128) as u16;
        let bank = ((value % 128) as u16) * 2;
        let b = bank + sub;
        let reg = addr % 4;
        if reg == 0 {
            self.prg_8k = [bank + sub, bank + 1 - sub, bank + 2 + sub, bank + 3 - sub];
        } else if reg == 2 {
            self.prg_8k = [b, b, b, b];
        } else {
            let b2 = if reg == 3 { b } else { (bank / 16) * 16 + 14 + sub };
            self.prg_8k = [b, b + 1, b2, b2 + 1];
        }
    }

    pub fn new() -> (r: Self)
        ensures r == (Mapper15 { prg_8k: [0u16, 0, 0, 0], mirroring: Mirroring::Vertical }).written(0x8000, 0),
    {
        let mut m = Mapper15 { prg_8k: [0u16, 0, 0, 0], mirroring: Mirroring::Vertical };
        m.write_register(0x8000, 0);
        m
    }

    #[verifier::allow_in_spec]
    pub fn prg_index(&self, addr: u16) -> usize
        requires addr >= 0x8000,
        returns (self.prg_8k@[((addr - 0x8000) / 0x2000) as int] * 0x2000 + addr % 0x2000) as usize,
    {
        (self.prg_8k[((addr - 0x8000) / 0x2000) as usize] as usize) * 0x2000 + (addr % 0x2000) as usize
    }

    #[verifier::allow_in_spec]
    pub fn chr_index(&self, addr: u16) -> usize
        returns lo13(addr) as usize,
    {
        chr_off(addr)
    }

    #[verifier::allow_in_spec]
    pub fn mirroring(&self) -> Mirroring
        returns self.mirroring,
    {
        self.mirroring
    }
}

// ------------------------------------------------------------ Action 53 (28)

/// `base` with the `k` bits above bit 0 replaced by the low `k` bits of `v`.
pub open spec fn splice(base: int, v: int, span: int) -> int {
    base - ((base / 2) % span) * 2 + (v % span) * 2
}

/// `base` (even) with its bits 1.. replaced up to `span * 2` by `v`'s bits.
pub open spec fn splice_low(base: int, v: int, span: int) -> int {
    base - ((base / 2) % (span / 2)) * 2 + v % span
}

#[derive(Debug, Clone, Copy)]
pub struct Action53 {
    pub prg_mask_16k: usize,
    pub reg: u8,
    pub chr: u8,
    pub prg: u8,
    pub mode: u8,
    pub outer: u8,
}

impl Action53 {
    pub open spec fn wf(&self) -> bool {
        self.prg_mask_16k < MAX_PRG_16K && self.prg < 16 && self.mode < 64 && self.outer < 64 && self.chr < 4
    }

    pub fn new(prg_16k: usize) -> (r: Self)
        requires prg_16k <= MAX_PRG_16K,
        ensures
            r == (Action53 { prg_mask_16k: (if prg_16k == 0 { 0 } else { prg_16k - 1 }) as usize, reg: 0, chr: 0, prg: 15, mode: 0, outer: 63 }),
            r.wf(),
    {
        Action53 { prg_mask_16k: if prg_16k == 0 { 0 } else { prg_16k - 1 }, reg: 0, chr: 0, prg: 15, mode: 0, outer: 63 }
    }

    /// The unmasked 16 KiB page pair for the PRG mode (bits 2-5 of `mode`):
    /// the inner bank spans 32, 64, 128 or 256 KiB, as a 32 KiB window, or
    /// as 16 KiB with the last (or first) bank of the outer block fixed.
    pub open spec fn raw_pages(self) -> (int, int) {
        let outb = self.outer as int * 2;
        let prg = self.prg as int;
        let m = self.mode % 64 - self.mode % 4;
        let size = (m / 16) % 4;
        let span = if size == 0 { 1int } else if size == 1 { 2 } else if size == 2 { 4 } else { 8 };
        if (m / 4) % 4 == 0 || (m / 4) % 4 == 1 {
            let lo = splice(outb, prg, span);
            (lo, lo + 1)
        } else if (m / 4) % 4 == 2 {
            (outb, splice_low(outb, prg, span * 2))
        } else {
            (splice_low(outb, prg, span * 2), outb + 1)
        }
    }

    pub open spec fn pages(self) -> Seq<int> {
        seq![(self.raw_pages().0 as usize & self.prg_mask_16k) as int, (self.raw_pages().1 as usize & self.prg_mask_16k) as int]
    }

    fn pages_of(&self) -> (r: [usize; 2])
        requires self.wf(),
        ensures r@[0] == self.pages()[0], r@[1] == self.pages()[1], r@[0] < 0x100, r@[1] < 0x100,
    {
        let outb = self.outer as usize * 2;
        let prg = self.prg as usize;
        let m = (self.mode % 64 - self.mode % 4) as usize;
        let size = (m / 16) % 4;
        let span: usize = if size == 0 { 1 } else if size == 1 { 2 } else if size == 2 { 4 } else { 8 };
        let (lo, hi) = if (m / 4) % 4 == 0 || (m / 4) % 4 == 1 {
            let lo = outb - ((outb / 2) % span) * 2 + (prg % span) * 2;
            (lo, lo + 1)
        } else if (m / 4) % 4 == 2 {
            (outb, outb - ((outb / 2) % span) * 2 + prg % (span * 2))
        } else {
            (outb - ((outb / 2) % span) * 2 + prg % (span * 2), outb + 1)
        };
        let a = lo & self.prg_mask_16k;
        let b = hi & self.prg_mask_16k;
        proof {
            lemma_and_le(lo as u64, self.prg_mask_16k as u64);
            lemma_and_le(hi as u64, self.prg_mask_16k as u64);
        }
        [a, b]
    }

    #[verifier::allow_in_spec]
    pub fn prg_index(&self, addr: u16) -> usize
        requires self.wf(),
        returns (self.pages()[if addr < 0xC000 { 0int } else { 1int }] * 0x4000 + addr % 0x4000) as usize,
    {
        let p = self.pages_of();
        let slot: usize = if addr < 0xC000 { 0 } else { 1 };
        p[slot] * 0x4000 + (addr % 0x4000) as usize
    }

    #[verifier::allow_in_spec]
    pub fn chr_index(&self, addr: u16) -> usize
        requires self.wf(),
        returns (self.chr * 0x2000 + lo13(addr)) as usize,
    {
        (self.chr as usize) * 0x2000 + chr_off(addr)
    }

    /// Data bit 4 sets the one-screen page while the mode's mirroring is
    /// one-screen.
    pub open spec fn mirrored_from(self, value: u8) -> u8 {
        if (self.mode / 2) % 2 == 0 { (self.mode - self.mode % 2 + (value / 16) % 2) as u8 } else { self.mode }
    }

    /// Register `$00`: CHR bank; `$01`: inner PRG bank; `$80`: mode; `$81`:
    /// outer bank.
    pub open spec fn written(self, addr: u16, value: u8) -> Self {
        if self.reg == 0 { Action53 { chr: value % 4, mode: self.mirrored_from(value), ..self } }
        else if self.reg == 1 { Action53 { prg: value % 16, mode: self.mirrored_from(value), ..self } }
        else if self.reg == 0x80 { Action53 { mode: value % 64, ..self } }
        else if self.reg == 0x81 { Action53 { outer: value % 64, ..self } }
        else { self }
    }

    pub fn write_register(&mut self, addr: u16, value: u8)
        requires old(self).wf(),
        ensures *final(self) == old(self).written(addr, value), final(self).wf(),
    {
        let mirrored = if (self.mode / 2) % 2 == 0 { self.mode - self.mode % 2 + (value / 16) % 2 } else { self.mode };
        if self.reg == 0 {
            self.chr = value % 4;
            self.mode = mirrored;
        } else if self.reg == 1 {
            self.prg = value % 16;
            self.mode = mirrored;
        } else if self.reg == 0x80 {
            self.mode = value % 64;
        } else if self.reg == 0x81 {
            self.outer = value % 64;
        }
    }

    /// `$5000-$5FFF` selects the register (bits 0 and 7).
    pub open spec fn expansion_written(self, addr: u16, value: u8) -> Self {
        if 0x5000 <= addr <= 0x5FFF { Action53 { reg: (value % 2 + (value / 128) * 128) as u8, ..self } } else { self }
    }

    pub fn write_expansion(&mut self, addr: u16, value: u8)
        requires old(self).wf(),
        ensures *final(self) == old(self).expansion_written(addr, value), final(self).wf(),
    {
        if 0x5000 <= addr && addr <= 0x5FFF {
            self.reg = value % 2 + (value / 128) * 128;
        }
    }

    #[verifier::allow_in_spec]
    pub fn mirroring(&self) -> Mirroring
        returns if self.mode % 4 == 0 { Mirroring::SingleScreenLow } else if self.mode % 4 == 1 { Mirroring::SingleScreenHigh }
            else if self.mode % 4 == 2 { Mirroring::Vertical } else { Mirroring::Horizontal },
    {
        if self.mode % 4 == 0 {
            Mirroring::SingleScreenLow
        } else if self.mode % 4 == 1 {
            Mirroring::SingleScreenHigh
        } else if self.mode % 4 == 2 {
            Mirroring::Vertical
        } else {
            Mirroring::Horizontal
        }
    }

    /// Reset selects the last outer block and inner bank.
    pub open spec fn after_reset(self, soft: bool) -> Self {
        Action53 { outer: 63, prg: 15, ..self }
    }

    pub fn reset(&mut self, soft: bool)
        requires old(self).wf(),
        ensures *final(self) == old(self).after_reset(soft), final(self).wf(),
    {
        self.outer = 63;
        self.prg = 15;
    }
}

// ------------------------------------------------------------ Mapper 53

#[derive(Debug, Clone, Copy)]
pub struct Mapper53 {
    pub cmd0: u8,
    pub cmd1: u8,
}

impl Mapper53 {
    pub fn new() -> (r: Self)
        ensures r.cmd0 == 0 && r.cmd1 == 0,
    {
        Mapper53 { cmd0: 0, cmd1: 0 }
    }

    /// `$8000-$FFFF`: with the outer register's bit 4, a 16 KiB inner bank
    /// and the block's last bank inside the selected 128 KiB block (after
    /// the 32 KiB menu); otherwise the menu's two banks.
    pub open spec fn high_bank(self, addr: u16) -> int {
        if bit_set(self.cmd0 as int, 16) {
            (self.cmd0 % 16) * 8 + (if addr < 0xC000 { (self.cmd1 % 8) as int } else { 7 }) + 2
        } else if addr >= 0xC000 { 1 } else { 0 }
    }

    #[verifier::allow_in_spec]
    pub fn prg_index(&self, addr: u16) -> usize
        returns (self.high_bank(addr) * 0x4000 + addr % 0x4000) as usize,
    {
        let bank: usize = if (self.cmd0 / 16) % 2 == 1 {
            ((self.cmd0 % 16) as usize) * 8 + (if addr < 0xC000 { (self.cmd1 % 8) as usize } else { 7 }) + 2
        } else if addr >= 0xC000 {
            1
        } else {
            0
        };
        bank * 0x4000 + (addr % 0x4000) as usize
    }

    #[verifier::allow_in_spec]
    pub fn chr_index(&self, addr: u16) -> usize
        returns lo13(addr) as usize,
    {
        chr_off(addr)
    }

    pub open spec fn written(self, addr: u16, value: u8) -> Self {
        Mapper53 { cmd1: value, ..self }
    }

    pub fn write_register(&mut self, addr: u16, value: u8)
        ensures *final(self) == old(self).written(addr, value),
    {
        self.cmd1 = value;
    }

    /// Every `$6000-$7FFF` write is the outer register (locked once bit 4
    /// is set); none reaches PRG-RAM.
    pub open spec fn claims_low(addr: u16) -> bool {
        true
    }

    pub open spec fn low_written(self, addr: u16, value: u8) -> Self {
        if bit_set(self.cmd0 as int, 16) { self } else { Mapper53 { cmd0: value, ..self } }
    }

    pub fn write_low_register(&mut self, addr: u16, value: u8) -> (r: bool)
        ensures r == Self::claims_low(addr), *final(self) == old(self).low_written(addr, value),
    {
        if (self.cmd0 / 16) % 2 == 0 {
            self.cmd0 = value;
        }
        true
    }

    /// `$6000-$7FFF` shows the last 8 KiB of the selected block's menu area.
    #[verifier::allow_in_spec]
    pub fn low_prg_index(&self, addr: u16) -> Option<usize>
        returns Some((((self.cmd0 % 16) * 16 + 15 + 4) * 0x2000 + addr % 0x2000) as usize),
    {
        Some((((self.cmd0 % 16) as usize) * 16 + 15 + 4) * 0x2000 + (addr % 0x2000) as usize)
    }

    #[verifier::allow_in_spec]
    pub fn mirroring(&self) -> Mirroring
        returns hv(bit_set(self.cmd0 as int, 32)),
    {
        hv_of((self.cmd0 / 32) % 2 == 1)
    }

    pub open spec fn after_reset(self, soft: bool) -> Self {
        Mapper53 { cmd0: 0, cmd1: 0 }
    }

    pub fn reset(&mut self, soft: bool)
        ensures *final(self) == old(self).after_reset(soft),
    {
        self.cmd0 = 0;
        self.cmd1 = 0;
    }
}

// ------------------------------------------------------------ Mapper 51

#[derive(Debug, Clone, Copy)]
pub struct Mapper51 {
    pub bank: u8,
    pub mode: u8,
}

impl Mapper51 {
    pub open spec fn wf(&self) -> bool {
        self.bank < 16 && self.mode <= 0x12
    }

    pub fn new() -> (r: Self)
        ensures r.bank == 0 && r.mode == 2, r.wf(),
    {
        Mapper51 { bank: 0, mode: 2 }
    }

    /// 32 KiB mode (mode bit 1), or a 16 KiB bank with the block's last
    /// bank at $C000.
    pub open spec fn prg16(self, addr: u16) -> int {
        if bit_set(self.mode as int, 2) { self.bank * 2 + (if addr >= 0xC000 { 1int } else { 0 }) }
        else if addr < 0xC000 { self.bank * 2 + self.mode / 16 }
        else { ((self.bank / 4) % 4) * 8 + 7 }
    }

    #[verifier::allow_in_spec]
    pub fn prg_index(&self, addr: u16) -> usize
        requires self.wf(),
        returns (self.prg16(addr) * 0x4000 + addr % 0x4000) as usize,
    {
        let b = self.bank as usize;
        let bank: usize = if (self.mode / 2) % 2 == 1 {
            b * 2 + if addr >= 0xC000 { 1 } else { 0 }
        } else if addr < 0xC000 {
            b * 2 + (self.mode / 16) as usize
        } else {
            ((b / 4) % 4) * 8 + 7
        };
        bank * 0x4000 + (addr % 0x4000) as usize
    }

    #[verifier::allow_in_spec]
    pub fn chr_index(&self, addr: u16) -> usize
        returns lo13(addr) as usize,
    {
        chr_off(addr)
    }

    /// A write loads the bank (bits 0-3); at `$C000-$FFFF` it also loads
    /// mode bit 4.
    pub open spec fn written(self, addr: u16, value: u8) -> Self {
        Mapper51 {
            bank: value % 16,
            mode: if bit_set(addr as int, 0x4000) { (((self.mode / 2) % 2) * 2 + ((value / 16) % 2) * 16) as u8 } else { self.mode },
        }
    }

    pub fn write_register(&mut self, addr: u16, value: u8)
        requires old(self).wf(),
        ensures *final(self) == old(self).written(addr, value), final(self).wf(),
    {
        self.bank = value % 16;
        if (addr / 0x4000) % 2 == 1 {
            self.mode = ((self.mode / 2) % 2) * 2 + ((value / 16) % 2) * 16;
        }
    }

    pub open spec fn claims_low(addr: u16) -> bool {
        true
    }

    /// `$6000-$7FFF` writes load the mode (bits 1 and 4).
    pub open spec fn low_written(self, addr: u16, value: u8) -> Self {
        Mapper51 { mode: (((value / 2) % 2) * 2 + ((value / 16) % 2) * 16) as u8, ..self }
    }

    pub fn write_low_register(&mut self, addr: u16, value: u8) -> (r: bool)
        requires old(self).wf(),
        ensures r == Self::claims_low(addr), *final(self) == old(self).low_written(addr, value), final(self).wf(),
    {
        self.mode = ((value / 2) % 2) * 2 + ((value / 16) % 2) * 16;
        true
    }

    /// `$6000-$7FFF` maps an 8 KiB bank of the block's extra area.
    #[verifier::allow_in_spec]
    pub fn low_prg_index(&self, addr: u16) -> Option<usize>
        requires self.wf(),
        returns Some((((if bit_set(self.mode as int, 2) { (self.bank % 8) * 4 + 35 } else { ((self.bank / 4) % 2) * 16 + 47 }) as int)
            * 0x2000 + addr % 0x2000) as usize),
    {
        let b = self.bank as usize;
        let bank: usize = if (self.mode / 2) % 2 == 1 { (b % 8) * 4 + 35 } else { ((b / 4) % 2) * 16 + 47 };
        Some(bank * 0x2000 + (addr % 0x2000) as usize)
    }

    #[verifier::allow_in_spec]
    pub fn mirroring(&self) -> Mirroring
        returns hv(self.mode == 0x12),
    {
        hv_of(self.mode == 0x12)
    }

    pub open spec fn after_reset(self, soft: bool) -> Self {
        Mapper51 { bank: 0, mode: 2 }
    }

    pub fn reset(&mut self, soft: bool)
        requires old(self).wf(),
        ensures *final(self) == old(self).after_reset(soft), final(self).wf(),
    {
        self.bank = 0;
        self.mode = 2;
    }
}

// ------------------------------------------------------------ Mapper 57

#[derive(Debug, Clone, Copy)]
pub struct Mapper57 {
    pub regs: [u8; 2],
    pub mirroring: Mirroring,
}

impl Mapper57 {
    pub fn new() -> (r: Self)
        ensures r.regs@ == seq![0u8, 0], r.mirroring == Mirroring::Vertical,
    {
        Mapper57 { regs: [0u8, 0], mirroring: Mirroring::Vertical }
    }

    /// Register 1: bits 5-7 the 16 KiB bank, bit 4 for a 32 KiB pair.
    pub open spec fn pages(self) -> (int, int) {
        let r1 = self.regs@[1] as int;
        if bit_set(r1, 16) { let b = (r1 / 32) % 8 - (r1 / 32) % 2; (b, b + 1) }
        else { let b = (r1 / 32) % 8; (b, b) }
    }

    #[verifier::allow_in_spec]
    pub fn prg_index(&self, addr: u16) -> usize
        returns ((if addr < 0xC000 { self.pages().0 } else { self.pages().1 }) * 0x4000 + addr % 0x4000) as usize,
    {
        let r1 = self.regs[1] as usize;
        let (a, b) = if (r1 / 16) % 2 == 1 {
            let b = (r1 / 32) % 8 - (r1 / 32) % 2;
            (b, b + 1)
        } else {
            let b = (r1 / 32) % 8;
            (b, b)
        };
        (if addr < 0xC000 { a } else { b }) * 0x4000 + (addr % 0x4000) as usize
    }

    /// CHR: register 0 bit 6 as bank bit 3, and the low three bits of both
    /// registers combined.
    pub open spec fn chr_bank(self) -> int {
        ((self.regs@[0] / 64) % 2) * 8 + ((self.regs@[0] | self.regs@[1]) % 8) as int
    }

    #[verifier::allow_in_spec]
    pub fn chr_index(&self, addr: u16) -> usize
        returns (self.chr_bank() * 0x2000 + lo13(addr)) as usize,
    {
        (((self.regs[0] / 64) % 2) as usize * 8 + ((self.regs[0] | self.regs[1]) % 8) as usize) * 0x2000 + chr_off(addr)
    }

    /// `$8000` (address bit 11 clear) loads register 0, `$8800` register 1;
    /// register 1 bit 3 selects horizontal mirroring.
    pub open spec fn wrote(o: Self, n: Self, addr: u16, value: u8) -> bool {
        &&& n.regs@ == if addr >= 0x8000 { o.regs@.update(if bit_set(addr as int, 0x800) { 1int } else { 0int }, value) } else { o.regs@ }
        &&& n.mirroring == hv(bit_set(n.regs@[1] as int, 8))
    }

    pub fn write_register(&mut self, addr: u16, value: u8)
        ensures Self::wrote(*old(self), *final(self), addr, value),
    {
        if addr >= 0x8000 {
            if (addr / 0x800) % 2 == 1 {
                self.regs[1] = value;
            } else {
                self.regs[0] = value;
            }
        }
        self.mirroring = hv_of((self.regs[1] / 8) % 2 == 1);
    }

    #[verifier::allow_in_spec]
    pub fn mirroring(&self) -> Mirroring
        returns self.mirroring,
    {
        self.mirroring
    }
}

// ------------------------------------------------------------ Mapper 63

#[derive(Debug, Clone, Copy)]
pub struct Mapper63 {
    pub prg_16k: usize,
    pub submapper: u8,
    pub prg_pages: [u16; 2],
    pub open_bus: bool,
    pub mirroring: Mirroring,
}

impl Mapper63 {
    pub fn new(prg_16k: usize, submapper: u8) -> (r: Self)
        ensures
            r.prg_16k == (if prg_16k == 0 { 1 } else { prg_16k }), r.submapper == submapper,
            r.prg_pages@ == seq![0u16, 1], !r.open_bus, r.mirroring == Mirroring::Vertical,
    {
        Mapper63 { prg_16k: if prg_16k == 0 { 1 } else { prg_16k }, submapper, prg_pages: [0u16, 1], open_bus: false, mirroring: Mirroring::Vertical }
    }

    #[verifier::allow_in_spec]
    pub fn prg_index(&self, addr: u16) -> usize
        returns page16(self.prg_pages@, addr) as usize,
    {
        let slot: usize = if addr < 0xC000 { 0 } else { 1 };
        (self.prg_pages[slot] as usize) * 0x4000 + (addr % 0x4000) as usize
    }

    #[verifier::allow_in_spec]
    pub fn chr_index(&self, addr: u16) -> usize
        returns lo13(addr) as usize,
    {
        chr_off(addr)
    }

    /// The 16 KiB bank is address bits 2-9 (2-8 on submapper 1), bit 1
    /// picks a 32 KiB pair, bit 0 horizontal mirroring; a bank past the end
    /// of PRG-ROM floats the bus.
    pub open spec fn wrote(o: Self, n: Self, addr: u16, value: u8) -> bool {
        let bank = ((addr / 4) as int) % (if o.submapper == 1 { 128int } else { 256int });
        &&& n.prg_16k == o.prg_16k && n.submapper == o.submapper
        &&& n.prg_pages@ == if bit_set(addr as int, 2) { seq![(bank - bank % 2) as u16, (bank - bank % 2 + 1) as u16] }
                else { seq![bank as u16, bank as u16] }
        &&& n.open_bus == (bank >= o.prg_16k)
        &&& n.mirroring == hv(addr % 2 == 1)
    }

    pub fn write_register(&mut self, addr: u16, value: u8)
        ensures Self::wrote(*old(self), *final(self), addr, value),
    {
        let m: u16 = if self.submapper == 1 { 128 } else { 256 };
        let bank = (addr / 4) % m;
        self.prg_pages = if (addr / 2) % 2 == 1 { [bank - bank % 2, bank - bank % 2 + 1] } else { [bank, bank] };
        self.open_bus = bank as usize >= self.prg_16k;
        self.mirroring = hv_of(addr % 2 == 1);
        proof {
            let b = ((addr / 4) as int) % (if old(self).submapper == 1 { 128int } else { 256int });
            if (addr / 2) % 2 == 1 {
                assert(self.prg_pages@ =~= seq![(b - b % 2) as u16, (b - b % 2 + 1) as u16]);
            } else {
                assert(self.prg_pages@ =~= seq![b as u16, b as u16]);
            }
        }
    }

    #[verifier::allow_in_spec]
    pub fn peek_register_with_open_bus(&self, addr: u16, prg_value: u8, open_bus: u8) -> Option<u8>
        returns if self.open_bus { Some(open_bus) } else { None },
    {
        if self.open_bus { Some(open_bus) } else { None }
    }

    #[verifier::allow_in_spec]
    pub fn mirroring(&self) -> Mirroring
        returns self.mirroring,
    {
        self.mirroring
    }
}

// ------------------------------------------------------------ Mapper 128

#[derive(Debug, Clone, Copy)]
pub struct Mapper128 {
    pub outerbank: u16,
    pub innerbank: u8,
}

impl Mapper128 {
    pub fn new() -> (r: Self)
        ensures r.outerbank == 0 && r.innerbank == 0,
    {
        Mapper128 { outerbank: 0, innerbank: 0 }
    }

    /// The outer block is the latched address over 4; the inner bank (bits
    /// 0-2 of the data) at $8000, the block's last bank at $C000.
    pub open spec fn prg16(self, addr: u16) -> u16 {
        let outer = self.outerbank / 4;
        if addr < 0xC000 { outer | (self.innerbank % 8) as u16 } else { outer | 7u16 }
    }

    #[verifier::allow_in_spec]
    pub fn prg_index(&self, addr: u16) -> usize
        returns (self.prg16(addr) * 0x4000 + addr % 0x4000) as usize,
    {
        let outer = self.outerbank / 4;
        let bank: u16 = if addr < 0xC000 { outer | (self.innerbank % 8) as u16 } else { outer | 7u16 };
        (bank as usize) * 0x4000 + (addr % 0x4000) as usize
    }

    #[verifier::allow_in_spec]
    pub fn chr_index(&self, addr: u16) -> usize
        returns lo13(addr) as usize,
    {
        chr_off(addr)
    }

    /// The address latches until it reaches `$F000`; the data always.
    pub open spec fn written(self, addr: u16, value: u8) -> Self {
        Mapper128 { outerbank: if self.outerbank < 0xF000 { addr } else { self.outerbank }, innerbank: value }
    }

    pub fn write_register(&mut self, addr: u16, value: u8)
        ensures *final(self) == old(self).written(addr, value),
    {
        if self.outerbank < 0xF000 {
            self.outerbank = addr;
        }
        self.innerbank = value;
    }

    #[verifier::allow_in_spec]
    pub fn mirroring(&self) -> Mirroring
        returns hv(!bit_set(self.outerbank as int, 2)),
    {
        hv_of(!((self.outerbank / 2) % 2 == 1))
    }

    pub open spec fn after_reset(self, soft: bool) -> Self {
        Mapper128 { outerbank: 0, innerbank: 0 }
    }

    pub fn reset(&mut self, soft: bool)
        ensures *final(self) == old(self).after_reset(soft),
    {
        self.outerbank = 0;
        self.innerbank = 0;
    }
}

// ------------------------------------------------------------ Mapper 226

#[derive(Debug, Clone, Copy)]
pub struct Mapper226 {
    pub regs: [u8; 2],
    pub prg_pages: [u16; 2],
    pub mirroring: Mirroring,
}

impl Mapper226 {
    pub fn new() -> (r: Self)
        ensures r.regs@ == seq![0u8, 0], r.prg_pages@ == seq![0u16, 1], r.mirroring == Mirroring::Horizontal,
    {
        Mapper226 { regs: [0u8, 0], prg_pages: [0u16, 1], mirroring: Mirroring::Horizontal }
    }

    /// Bank = register 0 bits 0-4, bit 7 as bank bit 5, register 1 bit 0 as
    /// bank bit 6; register 0 bit 5 for NROM-128, bit 6 vertical mirroring.
    pub open spec fn synced(self) -> bool {
        let r0 = self.regs@[0] as int;
        let b = r0 % 32 + (r0 / 128) * 32 + (self.regs@[1] % 2) * 64;
        &&& self.prg_pages@ == if bit_set(r0, 32) { seq![b as u16, b as u16] } else { seq![(b - b % 2) as u16, (b - b % 2 + 1) as u16] }
        &&& self.mirroring == if bit_set(r0, 64) { Mirroring::Vertical } else { Mirroring::Horizontal }
    }

    #[verifier::allow_in_spec]
    pub fn prg_index(&self, addr: u16) -> usize
        returns page16(self.prg_pages@, addr) as usize,
    {
        let slot: usize = if addr < 0xC000 { 0 } else { 1 };
        (self.prg_pages[slot] as usize) * 0x4000 + (addr % 0x4000) as usize
    }

    #[verifier::allow_in_spec]
    pub fn chr_index(&self, addr: u16) -> usize
        returns lo13(addr) as usize,
    {
        chr_off(addr)
    }

    pub open spec fn wrote(o: Self, n: Self, addr: u16, value: u8) -> bool {
        &&& n.regs@ == if addr >= 0x8000 { o.regs@.update((addr % 2) as int, value) } else { o.regs@ }
        &&& n.synced()
    }

    pub fn write_register(&mut self, addr: u16, value: u8)
        ensures Self::wrote(*old(self), *final(self), addr, value),
    {
        if addr >= 0x8000 {
            self.regs[(addr % 2) as usize] = value;
        }
        let r0 = self.regs[0] as u16;
        let b: u16 = r0 % 32 + (r0 / 128) * 32 + ((self.regs[1] % 2) as u16) * 64;
        self.prg_pages = if (r0 / 32) % 2 == 1 { [b, b] } else { [b - b % 2, b - b % 2 + 1] };
        self.mirroring = if (r0 / 64) % 2 == 1 { Mirroring::Vertical } else { Mirroring::Horizontal };
        proof {
            let rr = self.regs@[0] as int;
            let bb = rr % 32 + (rr / 128) * 32 + (self.regs@[1] % 2) * 64;
            assert(bb == b);
            if (r0 / 32) % 2 == 1 {
                assert(self.prg_pages@ =~= seq![bb as u16, bb as u16]);
            } else {
                assert(self.prg_pages@ =~= seq![(bb - bb % 2) as u16, (bb - bb % 2 + 1) as u16]);
            }
        }
    }

    #[verifier::allow_in_spec]
    pub fn mirroring(&self) -> Mirroring
        returns self.mirroring,
    {
        self.mirroring
    }
}

// ------------------------------------------------------------ Mappers 240, 241, 244

#[derive(Debug, Clone, Copy)]
pub struct Mapper240 {
    pub prg_bank: u8,
    pub chr_bank: u8,
    pub mirroring: Mirroring,
}

impl Mapper240 {
    pub fn new(mirroring: Mirroring) -> (r: Self)
        ensures r == (Mapper240 { prg_bank: 0, chr_bank: 0, mirroring }),
    {
        Mapper240 { prg_bank: 0, chr_bank: 0, mirroring }
    }

    #[verifier::allow_in_spec]
    pub fn prg_index(&self, addr: u16) -> usize
        requires addr >= 0x8000,
        returns (self.prg_bank * 0x8000 + (addr - 0x8000)) as usize,
    {
        (self.prg_bank as usize) * 0x8000 + (addr - 0x8000) as usize
    }

    #[verifier::allow_in_spec]
    pub fn chr_index(&self, addr: u16) -> usize
        returns (self.chr_bank * 0x2000 + lo13(addr)) as usize,
    {
        (self.chr_bank as usize) * 0x2000 + chr_off(addr)
    }

    /// The data's high nibble is the 32 KiB PRG bank, the low nibble the
    /// 8 KiB CHR bank.
    pub open spec fn written(self, addr: u16, value: u8) -> Self {
        Mapper240 { prg_bank: value / 16, chr_bank: value % 16, ..self }
    }

    pub fn write_register(&mut self, addr: u16, value: u8)
        ensures *final(self) == old(self).written(addr, value),
    {
        self.prg_bank = value / 16;
        self.chr_bank = value % 16;
    }

    /// The same latch answers at `$4020-$5FFF`.
    pub open spec fn expansion_written(self, addr: u16, value: u8) -> Self {
        if 0x4020 <= addr <= 0x5FFF { self.written(addr, value) } else { self }
    }

    pub fn write_expansion(&mut self, addr: u16, value: u8)
        ensures *final(self) == old(self).expansion_written(addr, value),
    {
        if 0x4020 <= addr && addr <= 0x5FFF {
            self.write_register(addr, value);
        }
    }

    #[verifier::allow_in_spec]
    pub fn mirroring(&self) -> Mirroring
        returns self.mirroring,
    {
        self.mirroring
    }
}

#[derive(Debug, Clone, Copy)]
pub struct Mapper241 {
    pub prg_bank: u8,
    pub mirroring: Mirroring,
}

impl Mapper241 {
    pub fn new(mirroring: Mirroring) -> (r: Self)
        ensures r == (Mapper241 { prg_bank: 0, mirroring }),
    {
        Mapper241 { prg_bank: 0, mirroring }
    }

    #[verifier::allow_in_spec]
    pub fn prg_index(&self, addr: u16) -> usize
        requires addr >= 0x8000,
        returns (self.prg_bank * 0x8000 + (addr - 0x8000)) as usize,
    {
        (self.prg_bank as usize) * 0x8000 + (addr - 0x8000) as usize
    }

    #[verifier::allow_in_spec]
    pub fn chr_index(&self, addr: u16) -> usize
        returns lo13(addr) as usize,
    {
        chr_off(addr)
    }

    pub open spec fn written(self, addr: u16, value: u8) -> Self {
        Mapper241 { prg_bank: value, ..self }
    }

    pub fn write_register(&mut self, addr: u16, value: u8)
        ensures *final(self) == old(self).written(addr, value),
    {
        self.prg_bank = value;
    }

    #[verifier::allow_in_spec]
    pub fn mirroring(&self) -> Mirroring
        returns self.mirroring,
    {
        self.mirroring
    }
}

pub open spec fn prg_lut(row: int, col: int) -> u8 {
    let t: Seq<Seq<u8>> = seq![seq![0u8, 1, 2, 3], seq![3u8, 2, 1, 0], seq![0u8, 2, 1, 3], seq![3u8, 1, 2, 0]];
    t[row][col]
}

pub open spec fn chr_lut(row: int, col: int) -> u8 {
    let t: Seq<Seq<u8>> = seq![
        seq![0u8, 1, 2, 3, 4, 5, 6, 7], seq![0u8, 2, 1, 3, 4, 6, 5, 7], seq![0u8, 1, 4, 5, 2, 3, 6, 7],
        seq![0u8, 4, 1, 5, 2, 6, 3, 7], seq![0u8, 4, 2, 6, 1, 5, 3, 7], seq![0u8, 2, 4, 6, 1, 3, 5, 7],
        seq![7u8, 6, 5, 4, 3, 2, 1, 0], seq![7u8, 6, 5, 4, 3, 2, 1, 0]];
    t[row][col]
}

fn prg_lut_of(row: usize, col: usize) -> (r: u8)
    requires row < 4, col < 4,
    ensures r == prg_lut(row as int, col as int),
{
    let t: [[u8; 4]; 4] = [[0, 1, 2, 3], [3, 2, 1, 0], [0, 2, 1, 3], [3, 1, 2, 0]];
    let r = t[row][col];
    proof {
        let s: Seq<Seq<u8>> = seq![seq![0u8, 1, 2, 3], seq![3u8, 2, 1, 0], seq![0u8, 2, 1, 3], seq![3u8, 1, 2, 0]];
        assert(t@[row as int]@ =~= s[row as int]);
    }
    r
}

fn chr_lut_of(row: usize, col: usize) -> (r: u8)
    requires row < 8, col < 8,
    ensures r == chr_lut(row as int, col as int),
{
    let t: [[u8; 8]; 8] = [
        [0, 1, 2, 3, 4, 5, 6, 7], [0, 2, 1, 3, 4, 6, 5, 7], [0, 1, 4, 5, 2, 3, 6, 7],
        [0, 4, 1, 5, 2, 6, 3, 7], [0, 4, 2, 6, 1, 5, 3, 7], [0, 2, 4, 6, 1, 3, 5, 7],
        [7, 6, 5, 4, 3, 2, 1, 0], [7, 6, 5, 4, 3, 2, 1, 0]];
    let r = t[row][col];
    proof {
        let s: Seq<Seq<u8>> = seq![
            seq![0u8, 1, 2, 3, 4, 5, 6, 7], seq![0u8, 2, 1, 3, 4, 6, 5, 7], seq![0u8, 1, 4, 5, 2, 3, 6, 7],
            seq![0u8, 4, 1, 5, 2, 6, 3, 7], seq![0u8, 4, 2, 6, 1, 5, 3, 7], seq![0u8, 2, 4, 6, 1, 3, 5, 7],
            seq![7u8, 6, 5, 4, 3, 2, 1, 0], seq![7u8, 6, 5, 4, 3, 2, 1, 0]];
        assert(t@[row as int]@ =~= s[row as int]);
    }
    r
}

#[derive(Debug, Clone, Copy)]
pub struct Mapper244 {
    pub prg_bank: u8,
    pub chr_bank: u8,
    pub mirroring: Mirroring,
}

impl Mapper244 {
    pub fn new(mirroring: Mirroring) -> (r: Self)
        ensures r == (Mapper244 { prg_bank: 0, chr_bank: 0, mirroring }),
    {
        Mapper244 { prg_bank: 0, chr_bank: 0, mirroring }
    }

    #[verifier::allow_in_spec]
    pub fn prg_index(&self, addr: u16) -> usize
        requires addr >= 0x8000,
        returns (self.prg_bank * 0x8000 + (addr - 0x8000)) as usize,
    {
        (self.prg_bank as usize) * 0x8000 + (addr - 0x8000) as usize
    }

    #[verifier::allow_in_spec]
    pub fn chr_index(&self, addr: u16) -> usize
        returns (self.chr_bank * 0x2000 + lo13(addr)) as usize,
    {
        (self.chr_bank as usize) * 0x2000 + chr_off(addr)
    }

    /// Bit 3 set: CHR bank from the scrambled table (row bits 4-6, column
    /// bits 0-2); clear: PRG bank from its table (row bits 4-5, column
    /// bits 0-1).
    pub open spec fn written(self, addr: u16, value: u8) -> Self {
        if bit_set(value as int, 8) { Mapper244 { chr_bank: chr_lut(((value / 16) % 8) as int, (value % 8) as int), ..self } }
        else { Mapper244 { prg_bank: prg_lut(((value / 16) % 4) as int, (value % 4) as int), ..self } }
    }

    pub fn write_register(&mut self, addr: u16, value: u8)
        ensures *final(self) == old(self).written(addr, value),
    {
        if (value / 8) % 2 == 1 {
            self.chr_bank = chr_lut_of(((value / 16) % 8) as usize, (value % 8) as usize);
        } else {
            self.prg_bank = prg_lut_of(((value / 16) % 4) as usize, (value % 4) as usize);
        }
    }

    #[verifier::allow_in_spec]
    pub fn mirroring(&self) -> Mirroring
        returns self.mirroring,
    {
        self.mirroring
    }
}

// ------------------------------------------------------------ Mapper 246

#[derive(Debug, Clone, Copy)]
pub struct Mapper246 {
    pub prg_8k: [usize; 4],
    pub chr_2k: [u8; 4],
    pub mirroring: Mirroring,
}

impl Mapper246 {
    pub open spec fn wf(&self) -> bool {
        forall|i: int| 0 <= i < 4 ==> #[trigger] self.prg_8k@[i] < 2 * MAX_PRG_16K
    }

    pub open spec fn fresh(self, prg_16k: usize, mirroring: Mirroring) -> bool {
        &&& self.prg_8k@ == seq![0usize, 0, 0, (if prg_16k * 2 >= 1 { prg_16k * 2 - 1 } else { 0 }) as usize]
        &&& self.chr_2k@ == seq![0u8, 0, 0, 0] && self.mirroring == mirroring
    }

    pub fn new(prg_16k: usize, mirroring: Mirroring) -> (r: Self)
        requires prg_16k <= MAX_PRG_16K,
        ensures r.fresh(prg_16k, mirroring), r.wf(),
    {
        let last = (prg_16k * 2).saturating_sub(1);
        let r = Mapper246 { prg_8k: [0usize, 0, 0, last], chr_2k: [0u8, 0, 0, 0], mirroring };
        assert(r.prg_8k@ =~= seq![0usize, 0, 0, last]);
        r
    }

    #[verifier::allow_in_spec]
    pub fn prg_index(&self, addr: u16) -> usize
        requires self.wf(), addr >= 0x8000,
        returns (self.prg_8k@[((addr - 0x8000) / 0x2000) as int] * 0x2000 + addr % 0x2000) as usize,
    {
        self.prg_8k[((addr - 0x8000) / 0x2000) as usize] * 0x2000 + (addr % 0x2000) as usize
    }

    #[verifier::allow_in_spec]
    pub fn chr_index(&self, addr: u16) -> usize
        returns (self.chr_2k@[lo13(addr) / 0x800] * 0x800 + addr % 0x800) as usize,
    {
        (self.chr_2k[chr_off(addr) / 0x0800] as usize) * 0x0800 + (addr % 0x0800) as usize
    }

    pub open spec fn written(self, addr: u16, value: u8) -> Self {
        self
    }

    pub fn write_register(&mut self, addr: u16, value: u8)
        requires old(self).wf(),
        ensures *final(self) == old(self).written(addr, value), final(self).wf(),
    {
    }

    /// `$6000-$67FF`: registers 0-3 are the 8 KiB PRG banks, 4-7 the 2 KiB
    /// CHR banks (`addr & 7`).
    pub open spec fn claims_low(addr: u16) -> bool {
        0x6000 <= addr <= 0x67FF
    }

    pub open spec fn low_wrote(o: Self, n: Self, addr: u16, value: u8) -> bool {
        let reg = (addr % 8) as int;
        &&& n.mirroring == o.mirroring
        &&& n.prg_8k@ == if Self::claims_low(addr) && reg <= 3 { o.prg_8k@.update(reg, value as usize) } else { o.prg_8k@ }
        &&& n.chr_2k@ == if Self::claims_low(addr) && reg > 3 { o.chr_2k@.update(reg - 4, value) } else { o.chr_2k@ }
    }

    pub fn write_low_register(&mut self, addr: u16, value: u8) -> (r: bool)
        requires old(self).wf(),
        ensures r == Self::claims_low(addr), Self::low_wrote(*old(self), *final(self), addr, value), final(self).wf(),
    {
        if !(0x6000 <= addr && addr <= 0x67FF) {
            return false;
        }
        let reg = (addr % 8) as usize;
        if reg <= 3 {
            self.prg_8k[reg] = value as usize;
        } else {
            self.chr_2k[reg - 4] = value;
        }
        true
    }

    #[verifier::allow_in_spec]
    pub fn mirroring(&self) -> Mirroring
        returns self.mirroring,
    {
        self.mirroring
    }
}

// ------------------------------------------------------------ Mapper 236

#[derive(Debug, Clone, Copy)]
pub struct Mapper236 {
    pub regs: [u8; 2],
    pub dip: u8,
    pub chr_ram_variant: bool,
}

impl Mapper236 {
    pub fn new(chr_8k: usize) -> (r: Self)
        ensures r.regs@ == seq![0u8, 0], r.dip == 0, r.chr_ram_variant == (chr_8k == 0),
    {
        Mapper236 { regs: [0u8, 0], dip: 0, chr_ram_variant: chr_8k == 0 }
    }

    /// The outer bank: on CHR-RAM boards register 0 (times 8) plus register
    /// 1 bits 0-2, else register 1 bits 0-3.
    pub open spec fn prg(self) -> int {
        if self.chr_ram_variant { self.regs@[0] * 8 + self.regs@[1] % 8 } else { (self.regs@[1] % 16) as int }
    }

    /// In mode 1 the low address nibble reads the DIP switches.
    pub open spec fn eff_addr(self, addr: u16) -> int {
        if (self.regs@[1] / 16) % 4 == 1 { addr - addr % 16 + self.dip % 16 } else { addr as int }
    }

    /// Modes (register 1 bits 4-5): 0-1 UNROM-like (block's last bank at
    /// $C000), 2 32 KiB, 3 16 KiB mirrored.
    pub open spec fn bank(self, addr: u16) -> int {
        let a = self.eff_addr(addr);
        let p = self.prg();
        let mode = (self.regs@[1] / 16) % 4;
        if mode <= 1 { if a < 0xC000 { p } else { p - p % 8 + 7 } }
        else if mode == 2 { p - p % 2 + (if a >= 0xC000 { 1int } else { 0 }) }
        else { p }
    }

    #[verifier::allow_in_spec]
    pub fn prg_index(&self, addr: u16) -> usize
        returns (self.bank(addr) * 0x4000 + self.eff_addr(addr) % 0x4000) as usize,
    {
        let mode = (self.regs[1] / 16) % 4;
        let a: u16 = if mode == 1 { addr - addr % 16 + (self.dip % 16) as u16 } else { addr };
        let p: usize = if self.chr_ram_variant {
            (self.regs[0] as usize) * 8 + (self.regs[1] % 8) as usize
        } else {
            (self.regs[1] % 16) as usize
        };
        let bank: usize = if mode <= 1 {
            if a < 0xC000 { p } else { p - p % 8 + 7 }
        } else if mode == 2 {
            p - p % 2 + if a >= 0xC000 { 1 } else { 0 }
        } else {
            p
        };
        bank * 0x4000 + (a % 0x4000) as usize
    }

    #[verifier::allow_in_spec]
    pub fn chr_index(&self, addr: u16) -> usize
        returns ((if self.chr_ram_variant { 0int } else { (self.regs@[0] % 16) as int }) * 0x2000 + lo13(addr)) as usize,
    {
        let chr: usize = if self.chr_ram_variant { 0 } else { (self.regs[0] % 16) as usize };
        chr * 0x2000 + chr_off(addr)
    }

    /// The low byte of the address goes to register `(addr >> 14) & 1`.
    pub open spec fn wrote(o: Self, n: Self, addr: u16, value: u8) -> bool {
        &&& n.regs@ == o.regs@.update(((addr / 0x4000) % 2) as int, (addr % 256) as u8)
        &&& n.dip == o.dip && n.chr_ram_variant == o.chr_ram_variant
    }

    pub fn write_register(&mut self, addr: u16, value: u8)
        ensures Self::wrote(*old(self), *final(self), addr, value),
    {
        self.regs[((addr / 0x4000) % 2) as usize] = (addr % 256) as u8;
    }

    #[verifier::allow_in_spec]
    pub fn mirroring(&self) -> Mirroring
        returns if bit_set(self.regs@[0] as int, 32) { Mirroring::Vertical } else { Mirroring::Horizontal },
    {
        if (self.regs[0] / 32) % 2 == 1 { Mirroring::Vertical } else { Mirroring::Horizontal }
    }

    /// A soft reset steps the DIP switches; any reset clears the registers.
    pub open spec fn was_reset(o: Self, n: Self, soft: bool) -> bool {
        &&& n.regs@ == seq![0u8, 0] && n.chr_ram_variant == o.chr_ram_variant
        &&& n.dip == if soft { (if o.dip == 255 { 0 } else { o.dip + 1 }) as u8 } else { o.dip }
    }

    pub fn reset(&mut self, soft: bool)
        ensures Self::was_reset(*old(self), *final(self), soft),
    {
        if soft {
            self.dip = self.dip.wrapping_add(1);
        }
        self.regs = [0u8, 0];
    }
}

// ------------------------------------------------------------ Mapper 237

#[derive(Debug, Clone, Copy)]
pub struct Mapper237 {
    pub regs: [u8; 2],
    pub dipswitch: u8,
}

impl Mapper237 {
    pub fn new() -> (r: Self)
        ensures r.regs@ == seq![0u8, 0], r.dipswitch == 0,
    {
        Mapper237 { regs: [0u8, 0], dipswitch: 0 }
    }

    /// The 16 KiB pages: a 128 KiB block (register 1 bits 3-4, register 0
    /// bit 2 on top) with the inner bank (register 1 bits 0-2) in one of
    /// four modes (register 1 bits 6-7).
    pub open spec fn pages(self) -> (int, int) {
        let r0 = self.regs@[0] as int;
        let r1 = self.regs@[1] as int;
        let bank = r1 % 8;
        let base = ((r1 / 8) % 4) * 8 + ((r0 / 4) % 2) * 32;
        let mode = r1 / 64;
        (base + (if mode % 2 == 1 { bank - bank % 2 } else { bank }),
         base + (if mode >= 2 { if mode % 2 == 1 { bank - bank % 2 + 1 } else { bank } } else { 7 }))
    }

    #[verifier::allow_in_spec]
    pub fn prg_index(&self, addr: u16) -> usize
        returns ((if addr < 0xC000 { self.pages().0 } else { self.pages().1 }) * 0x4000 + addr % 0x4000) as usize,
    {
        let r0 = self.regs[0] as usize;
        let r1 = self.regs[1] as usize;
        let bank = r1 % 8;
        let base = ((r1 / 8) % 4) * 8 + ((r0 / 4) % 2) * 32;
        let mode = r1 / 64;
        let p = if addr < 0xC000 {
            base + if mode % 2 == 1 { bank - bank % 2 } else { bank }
        } else {
            base + if mode >= 2 { if mode % 2 == 1 { bank - bank % 2 + 1 } else { bank } } else { 7 }
        };
        p * 0x4000 + (addr % 0x4000) as usize
    }

    #[verifier::allow_in_spec]
    pub fn chr_index(&self, addr: u16) -> usize
        returns lo13(addr) as usize,
    {
        chr_off(addr)
    }

    /// Until register 0 bit 1 locks it, a write stores the address's low
    /// nibble in register 0 and the data's bits 3-7 in register 1; the
    /// data's bits 0-2 always go to register 1.
    pub open spec fn wrote(o: Self, n: Self, addr: u16, value: u8) -> bool {
        let unlocked = !bit_set(o.regs@[0] as int, 2);
        let r0: int = if unlocked { (addr % 16) as int } else { o.regs@[0] as int };
        let r1a: int = if unlocked { (o.regs@[1] % 8) as int + (value - value % 8) } else { o.regs@[1] as int };
        &&& n.regs@ == seq![r0 as u8, (r1a - r1a % 8 + value % 8) as u8]
        &&& n.dipswitch == o.dipswitch
    }

    pub fn write_register(&mut self, addr: u16, value: u8)
        ensures Self::wrote(*old(self), *final(self), addr, value),
    {
        if (self.regs[0] / 2) % 2 == 0 {
            self.regs[0] = (addr % 16) as u8;
            self.regs[1] = self.regs[1] % 8 + (value - value % 8);
        }
        self.regs[1] = self.regs[1] - self.regs[1] % 8 + value % 8;
        proof {
            let o = *old(self);
            let unlocked = !bit_set(o.regs@[0] as int, 2);
            let r0: int = if unlocked { (addr % 16) as int } else { o.regs@[0] as int };
            let r1a: int = if unlocked { (o.regs@[1] % 8) as int + (value - value % 8) } else { o.regs@[1] as int };
            assert(self.regs@ =~= seq![r0 as u8, (r1a - r1a % 8 + value % 8) as u8]);
        }
    }

    /// While unlocked with register 0 bit 0 set, reads return the DIP
    /// switches.
    #[verifier::allow_in_spec]
    pub fn peek_register_with_open_bus(&self, addr: u16, prg_value: u8, open_bus: u8) -> Option<u8>
        returns if !bit_set(self.regs@[0] as int, 2) && bit_set(self.regs@[0] as int, 1) { Some(self.dipswitch % 4) } else { None },
    {
        if (self.regs[0] / 2) % 2 == 0 && self.regs[0] % 2 == 1 { Some(self.dipswitch % 4) } else { None }
    }

    #[verifier::allow_in_spec]
    pub fn mirroring(&self) -> Mirroring
        returns if bit_set(self.regs@[1] as int, 32) { Mirroring::Vertical } else { Mirroring::Horizontal },
    {
        if (self.regs[1] / 32) % 2 == 1 { Mirroring::Vertical } else { Mirroring::Horizontal }
    }

    /// Any reset clears the registers; a soft one also steps the DIP
    /// switches.
    pub open spec fn was_reset(o: Self, n: Self, soft: bool) -> bool {
        &&& n.regs@ == seq![0u8, 0]
        &&& n.dipswitch == if soft { (if o.dipswitch == 255 { 0 } else { o.dipswitch + 1 }) as u8 } else { o.dipswitch }
    }

    pub fn reset(&mut self, soft: bool)
        ensures Self::was_reset(*old(self), *final(self), soft),
    {
        self.regs = [0u8, 0];
        if soft {
            self.dipswitch = self.dipswitch.wrapping_add(1);
        }
    }
}

pub proof fn lemma_and_le(x: u64, m: u64)
    ensures (x & m) <= x, (x & m) <= m,
{
    assert((x & m) <= x && (x & m) <= m) by (bit_vector);
}

} // verus!
