//! Mapper 116 (Someri Team SL12): one board that behaves as a VRC2, an
//! MMC3 (with its A12-clocked scanline IRQ) or an MMC1, picked by a mode
//! register at `$41xx`.

use vstd::prelude::*;

verus! {

use crate::mapper::{MAX_CHR_8K, MAX_PRG_16K};
use crate::types::Mirroring;

// ------------------------------------------------------------ VRC2 half

#[derive(Debug, Clone, Copy)]
pub struct Vrc2Regs {
    pub chr: [u8; 8],
    pub prg: [u8; 2],
    pub mirroring: u8,
}

/// The CHR register a `$B000-$E003` write reaches: address bits 10-15 with
/// bit 1 merged in, halved, plus two, modulo eight.
pub open spec fn vrc2_chr_slot(addr: u16) -> int {
    let hi = (addr / 1024) as int;
    let lo = ((addr / 2) % 2) * 2;
    let merged = if lo == 2 && (hi / 2) % 2 == 1 { hi } else { hi + lo };
    (merged / 2 + 2) % 8
}

fn vrc2_chr_slot_of(addr: u16) -> (r: usize)
    ensures r == vrc2_chr_slot(addr), r < 8,
{
    let hi = addr / 1024;
    let lo = ((addr / 2) % 2) * 2;
    let merged = if lo == 2 && (hi / 2) % 2 == 1 { hi } else { hi + lo };
    ((merged / 2 + 2) % 8) as usize
}

impl Vrc2Regs {
    /// Even addresses load the low nibble of a CHR register, odd ones the
    /// high nibble; `$8xxx`/`$Axxx` load the PRG registers, `$9xxx` the
    /// mirroring.
    pub open spec fn wrote(o: Self, n: Self, addr: u16, value: u8) -> bool {
        if 0xB000 <= addr <= 0xE003 {
            let i = vrc2_chr_slot(addr);
            let c = o.chr@[i];
            &&& n.chr@ == o.chr@.update(i, (if addr % 2 == 0 { (c / 16) * 16 + value % 16 } else { c % 16 + (value % 16) * 16 }) as u8)
            &&& n.prg == o.prg && n.mirroring == o.mirroring
        } else {
            let page = addr / 0x1000;
            &&& n.chr == o.chr
            &&& n.prg@ == if page == 8 { o.prg@.update(0, value) } else if page == 0xA { o.prg@.update(1, value) } else { o.prg@ }
            &&& n.mirroring == if page == 9 { value } else { o.mirroring }
        }
    }

    pub fn write(&mut self, addr: u16, value: u8)
        ensures Self::wrote(*old(self), *final(self), addr, value),
    {
        if 0xB000 <= addr && addr <= 0xE003 {
            let i = vrc2_chr_slot_of(addr);
            let c = self.chr[i];
            self.chr[i] = if addr % 2 == 0 { (c / 16) * 16 + value % 16 } else { c % 16 + (value % 16) * 16 };
            return;
        }
        let page = addr / 0x1000;
        if page == 8 {
            self.prg[0] = value;
        } else if page == 0xA {
            self.prg[1] = value;
        } else if page == 9 {
            self.mirroring = value;
        }
    }
}

// ------------------------------------------------------------ MMC3 half

#[derive(Debug, Clone, Copy)]
pub struct Mmc3Regs {
    pub regs: [i16; 10],
    pub ctrl: u8,
    pub mirroring: u8,
    pub irq_counter: u8,
    pub irq_latch: u8,
    pub irq_reload: bool,
    pub irq_enabled: bool,
    pub irq_pending: bool,
    pub a12_prev: bool,
    pub a12_low_since: u64,
}

impl Mmc3Regs {
    /// The bank registers hold written bytes; the fixed tail registers count
    /// back from the last bank (-4 to -1) until overwritten.
    pub open spec fn wf(&self) -> bool {
        &&& forall|i: int| 0 <= i < 6 ==> 0 <= #[trigger] self.regs@[i] < 0x100
        &&& forall|i: int| 6 <= i < 10 ==> -4 <= #[trigger] self.regs@[i] < 0x100
    }

    /// The 1 KiB CHR bank of slot 0-7: two 2 KiB banks (registers 0-1) and
    /// four 1 KiB banks (2-5), swapped between halves by control bit 7.
    pub open spec fn chr_bank(self, slot: int) -> int {
        let r = self.regs@;
        let s = if (self.ctrl / 128) % 2 == 0 { slot } else { (slot + 4) % 8 };
        if s == 0 { r[0] - r[0] % 2 } else if s == 1 { r[0] - r[0] % 2 + 1 }
        else if s == 2 { r[1] - r[1] % 2 } else if s == 3 { r[1] - r[1] % 2 + 1 }
        else { r[s - 2] as int }
    }

    fn chr_bank_of(&self, slot: usize) -> (r: usize)
        requires self.wf(), slot < 8,
        ensures r == self.chr_bank(slot as int), r < 0x100,
    {
        let s = if (self.ctrl / 128) % 2 == 0 { slot } else { (slot + 4) % 8 };
        let b: i16 = if s == 0 {
            self.regs[0] - self.regs[0] % 2
        } else if s == 1 {
            self.regs[0] - self.regs[0] % 2 + 1
        } else if s == 2 {
            self.regs[1] - self.regs[1] % 2
        } else if s == 3 {
            self.regs[1] - self.regs[1] % 2 + 1
        } else {
            self.regs[s - 2]
        };
        b as usize
    }

    /// `$8000`/`$8001` select and load a bank register, `$A000` the
    /// mirroring, `$C000`/`$C001` the IRQ latch and a reload request,
    /// `$E000`/`$E001` disable (and acknowledge) or enable the IRQ.
    pub open spec fn wrote(o: Self, n: Self, addr: u16, value: u8) -> bool {
        let page = addr / 0x2000;
        let odd = addr % 2 == 1;
        if page == 4 && !odd { n == Mmc3Regs { ctrl: value, ..o } }
        else if page == 4 && odd {
            n.regs@ == o.regs@.update((o.ctrl % 8) as int, value as i16) && n == Mmc3Regs { regs: n.regs, ..o }
        } else if page == 5 && !odd { n == Mmc3Regs { mirroring: value, ..o } }
        else if page == 6 && !odd { n == Mmc3Regs { irq_latch: value, ..o } }
        else if page == 6 && odd { n == Mmc3Regs { irq_reload: true, ..o } }
        else if page == 7 && !odd { n == Mmc3Regs { irq_enabled: false, irq_pending: false, ..o } }
        else if page == 7 && odd { n == Mmc3Regs { irq_enabled: true, ..o } }
        else { n == o }
    }

    pub fn write(&mut self, addr: u16, value: u8)
        requires old(self).wf(),
        ensures Self::wrote(*old(self), *final(self), addr, value), final(self).wf(),
    {
        let page = addr / 0x2000;
        let odd = addr % 2 == 1;
        if page == 4 && !odd {
            self.ctrl = value;
        } else if page == 4 && odd {
            let i = (self.ctrl % 8) as usize;
            self.regs[i] = value as i16;
        } else if page == 5 && !odd {
            self.mirroring = value;
        } else if page == 6 && !odd {
            self.irq_latch = value;
        } else if page == 6 && odd {
            self.irq_reload = true;
        } else if page == 7 && !odd {
            self.irq_enabled = false;
            self.irq_pending = false;
        } else if page == 7 && odd {
            self.irq_enabled = true;
        }
    }

    /// One scanline tick: reload from the latch when zero or asked to,
    /// else count down; reaching zero with the IRQ enabled raises it.
    pub open spec fn clocked(self) -> Self {
        let c = if self.irq_counter == 0 || self.irq_reload { self.irq_latch } else { (self.irq_counter - 1) as u8 };
        Mmc3Regs { irq_counter: c, irq_reload: false, irq_pending: self.irq_pending || (c == 0 && self.irq_enabled), ..self }
    }

    fn clock_irq(&mut self)
        ensures *final(self) == old(self).clocked(),
    {
        if self.irq_counter == 0 || self.irq_reload {
            self.irq_counter = self.irq_latch;
        } else {
            self.irq_counter = self.irq_counter - 1;
        }
        self.irq_reload = false;
        if self.irq_counter == 0 && self.irq_enabled {
            self.irq_pending = true;
        }
    }

    /// A rising A12 after at least 9 cycles low clocks the counter; a
    /// falling one records when.
    pub open spec fn after_a12(self, a12: bool, cycle: u64) -> Self {
        let elapsed = if cycle >= self.a12_low_since { cycle - self.a12_low_since }
            else { cycle - self.a12_low_since + 0x1_0000_0000_0000_0000 };
        if a12 && !self.a12_prev {
            let s = if elapsed >= 9 { self.clocked() } else { self };
            Mmc3Regs { a12_prev: true, ..s }
        } else if !a12 && self.a12_prev {
            Mmc3Regs { a12_low_since: cycle, a12_prev: false, ..self }
        } else {
            Mmc3Regs { a12_prev: a12, ..self }
        }
    }

    fn notify(&mut self, a12: bool, cycle: u64)
        ensures *final(self) == old(self).after_a12(a12, cycle),
    {
        if a12 && !self.a12_prev {
            let elapsed: u64 = if cycle >= self.a12_low_since {
                cycle - self.a12_low_since
            } else {
                (u64::MAX - self.a12_low_since) + cycle + 1
            };
            if elapsed >= 9 {
                self.clock_irq();
            }
        } else if !a12 && self.a12_prev {
            self.a12_low_since = cycle;
        }
        self.a12_prev = a12;
    }
}

// ------------------------------------------------------------ MMC1 half

#[derive(Debug, Clone, Copy)]
pub struct Mmc1Regs {
    pub regs: [u8; 4],
    pub buffer: u8,
    pub shift: u8,
}

/// The value of bit `shift` in the serial buffer.
pub open spec fn bit_weight(shift: u8) -> int {
    if shift == 0 { 1 } else if shift == 1 { 2 } else if shift == 2 { 4 } else if shift == 3 { 8 } else { 16 }
}

/// `r` with bits 2 and 3 set (fixed-$C000 16 KiB PRG mode).
pub open spec fn with_prg_mode_bits(r: u8) -> u8 {
    ((r / 16) * 16 + 12 + r % 4) as u8
}

impl Mmc1Regs {
    pub open spec fn wf(&self) -> bool {
        self.shift < 5 && self.buffer < bit_weight(self.shift)
    }

    /// Bit 7 resets the shifter (and sets the PRG mode bits); otherwise bit
    /// 0 shifts in, and the fifth bit stores the buffer into register
    /// `(addr - $8000) / $2000`.
    pub open spec fn wrote(o: Self, n: Self, addr: u16, value: u8) -> bool {
        if value >= 0x80 {
            n.regs@ == o.regs@.update(0, with_prg_mode_bits(o.regs@[0])) && n.buffer == 0 && n.shift == 0
        } else {
            let b = o.buffer + (value % 2) * bit_weight(o.shift);
            if o.shift == 4 {
                n.regs@ == o.regs@.update(addr / 0x2000 - 4, b as u8) && n.buffer == 0 && n.shift == 0
            } else {
                n.regs == o.regs && n.buffer == b && n.shift == o.shift + 1
            }
        }
    }

    pub fn write(&mut self, addr: u16, value: u8)
        requires old(self).wf(), addr >= 0x8000,
        ensures Self::wrote(*old(self), *final(self), addr, value), final(self).wf(),
    {
        if value >= 0x80 {
            let r = self.regs[0];
            self.regs[0] = (r / 16) * 16 + 12 + r % 4;
            self.buffer = 0;
            self.shift = 0;
            return;
        }
        let w: u8 = if self.shift == 0 { 1 } else if self.shift == 1 { 2 } else if self.shift == 2 { 4 } else if self.shift == 3 { 8 } else { 16 };
        self.buffer = self.buffer + (value % 2) * w;
        self.shift = self.shift + 1;
        if self.shift == 5 {
            let reg = (addr / 0x2000 - 4) as usize;
            self.regs[reg] = self.buffer;
            self.buffer = 0;
            self.shift = 0;
        }
    }

    /// The 8 KiB PRG bank of slot 0-3: 32 KiB mode (bit 3 clear), fixed
    /// last bank at $C000 (bits 2-3 set) or fixed first bank at $8000.
    pub open spec fn prg_bank(self, slot: int) -> int {
        let b = (self.regs@[3] % 16) as int;
        if (self.regs@[0] / 8) % 2 == 1 {
            if (self.regs@[0] / 4) % 2 == 1 {
                if slot == 0 { b * 2 } else if slot == 1 { b * 2 + 1 } else if slot == 2 { 30 } else { 31 }
            } else {
                if slot == 0 { 0 } else if slot == 1 { 1 } else if slot == 2 { b * 2 } else { b * 2 + 1 }
            }
        } else {
            (b / 2) * 4 + slot
        }
    }

    /// The 1 KiB CHR bank of slot 0-7: two 4 KiB banks (bit 4) or one 8 KiB
    /// bank.
    pub open spec fn chr_bank(self, slot: int) -> int {
        if (self.regs@[0] / 16) % 2 == 1 {
            (if slot < 4 { self.regs@[1] } else { self.regs@[2] }) * 4 + slot % 4
        } else {
            (self.regs@[1] / 2) * 8 + slot
        }
    }
}

// ------------------------------------------------------------ the board

#[derive(Debug, Clone, Copy)]
pub struct Mapper116 {
    pub prg_8k_total: usize,
    pub chr_1k_total: usize,
    pub mode: u8,
    pub vrc2: Vrc2Regs,
    pub mmc3: Mmc3Regs,
    pub mmc1: Mmc1Regs,
}

/// The power-on register file.
pub open spec fn mapper116_fresh(m: Mapper116, prg_16k: usize, chr_8k: usize) -> bool {
    &&& m.prg_8k_total == (if prg_16k * 2 < 4 { 4 } else { prg_16k * 2 })
    &&& m.chr_1k_total == (if chr_8k * 8 < 8 { 8 } else { chr_8k * 8 })
    &&& m.mode == 0
    &&& m.vrc2.chr@ == seq![0xFFu8, 0xFF, 0xFF, 0xFF, 4, 5, 6, 7] && m.vrc2.prg@ == seq![0u8, 1] && m.vrc2.mirroring == 0
    &&& m.mmc3.regs@ == seq![0i16, 2, 4, 5, 6, 7, -4i16, -3i16, -2i16, -1i16]
    &&& m.mmc3.ctrl == 0 && m.mmc3.mirroring == 0 && m.mmc3.irq_counter == 0 && m.mmc3.irq_latch == 0
    &&& !m.mmc3.irq_reload && !m.mmc3.irq_enabled && !m.mmc3.irq_pending && !m.mmc3.a12_prev && m.mmc3.a12_low_since == 0
    &&& m.mmc1.regs@ == seq![0x0Cu8, 0, 0, 0] && m.mmc1.buffer == 0 && m.mmc1.shift == 0
}

impl Mapper116 {
    pub open spec fn wf(&self) -> bool {
        &&& 4 <= self.prg_8k_total <= 2 * MAX_PRG_16K
        &&& 8 <= self.chr_1k_total <= 8 * MAX_CHR_8K
        &&& self.mmc3.wf() && self.mmc1.wf()
    }

    pub fn new(prg_16k: usize, chr_8k: usize) -> (r: Self)
        requires prg_16k <= MAX_PRG_16K, chr_8k <= MAX_CHR_8K,
        ensures mapper116_fresh(r, prg_16k, chr_8k), r.wf(),
    {
        let p = prg_16k * 2;
        let c = chr_8k * 8;
        let r = Mapper116 {
            prg_8k_total: if p < 4 { 4 } else { p },
            chr_1k_total: if c < 8 { 8 } else { c },
            mode: 0,
            vrc2: Vrc2Regs { chr: [0xFF, 0xFF, 0xFF, 0xFF, 4, 5, 6, 7], prg: [0, 1], mirroring: 0 },
            mmc3: Mmc3Regs {
                regs: [0, 2, 4, 5, 6, 7, -4, -3, -2, -1],
                ctrl: 0,
                mirroring: 0,
                irq_counter: 0,
                irq_latch: 0,
                irq_reload: false,
                irq_enabled: false,
                irq_pending: false,
                a12_prev: false,
                a12_low_since: 0,
            },
            mmc1: Mmc1Regs { regs: [0x0C, 0, 0, 0], buffer: 0, shift: 0 },
        };
        assert(r.mmc3.regs@ =~= seq![0i16, 2, 4, 5, 6, 7, -4i16, -3i16, -2i16, -1i16]);
        r
    }

    /// An MMC3 register counted from the end when negative, modulo the bank
    /// count.
    pub open spec fn bank_8k(self, bank: i16) -> int {
        if bank < 0 { (self.prg_8k_total + bank) % (self.prg_8k_total as int) }
        else { (bank as int) % (self.prg_8k_total as int) }
    }

    fn bank_8k_of(&self, bank: i16) -> (r: usize)
        requires self.wf(), -4 <= bank,
        ensures r == self.bank_8k(bank), r < self.prg_8k_total,
    {
        if bank < 0 {
            (self.prg_8k_total - ((0 - bank) as usize)) % self.prg_8k_total
        } else {
            (bank as usize) % self.prg_8k_total
        }
    }

    /// The 8 KiB PRG bank shown in slot 0-3 for the current mode.
    pub open spec fn prg_bank(self, slot: int) -> int {
        let m = self.mode % 4;
        if m == 0 {
            if slot == 0 { self.vrc2.prg@[0] as int } else if slot == 1 { self.vrc2.prg@[1] as int }
            else if slot == 2 { self.prg_8k_total - 2 } else { self.prg_8k_total - 1 }
        } else if m == 1 {
            let swap = ((self.mmc3.ctrl / 64) % 2) * 2;
            let r = self.mmc3.regs@;
            self.bank_8k(if slot == 0 { r[6 + swap] } else if slot == 1 { r[7] } else if slot == 2 { r[8 - swap] } else { r[9] })
        } else {
            self.mmc1.prg_bank(slot) % (self.prg_8k_total as int)
        }
    }

    #[verifier::allow_in_spec]
    pub fn prg_index(&self, addr: u16) -> usize
        requires self.wf(), addr >= 0x8000,
        returns (self.prg_bank(((addr - 0x8000) / 0x2000) as int) * 0x2000 + addr % 0x2000) as usize,
    {
        let slot = ((addr - 0x8000) / 0x2000) as usize;
        let m = self.mode % 4;
        let bank: usize = if m == 0 {
            if slot == 0 {
                self.vrc2.prg[0] as usize
            } else if slot == 1 {
                self.vrc2.prg[1] as usize
            } else if slot == 2 {
                self.prg_8k_total - 2
            } else {
                self.prg_8k_total - 1
            }
        } else if m == 1 {
            let swap = (((self.mmc3.ctrl / 64) % 2) * 2) as usize;
            let r = if slot == 0 {
                self.mmc3.regs[6 + swap]
            } else if slot == 1 {
                self.mmc3.regs[7]
            } else if slot == 2 {
                self.mmc3.regs[8 - swap]
            } else {
                self.mmc3.regs[9]
            };
            self.bank_8k_of(r)
        } else {
            let b = (self.mmc1.regs[3] % 16) as usize;
            let bank = if (self.mmc1.regs[0] / 8) % 2 == 1 {
                if (self.mmc1.regs[0] / 4) % 2 == 1 {
                    if slot == 0 { b * 2 } else if slot == 1 { b * 2 + 1 } else if slot == 2 { 30 } else { 31 }
                } else {
                    if slot == 0 { 0 } else if slot == 1 { 1 } else if slot == 2 { b * 2 } else { b * 2 + 1 }
                }
            } else {
                (b / 2) * 4 + slot
            };
            bank % self.prg_8k_total
        };
        bank * 0x2000 + (addr % 0x2000) as usize
    }

    /// Mode bit 2 lifts VRC2 and MMC3 CHR banks into the upper 256 KiB.
    pub open spec fn chr_outer(self) -> int {
        ((self.mode / 4) % 2) * 0x100
    }

    /// The 1 KiB CHR bank of slot 0-7 for the current mode.
    pub open spec fn chr_bank(self, slot: int) -> int {
        let m = self.mode % 4;
        if m == 0 { self.chr_outer() + self.vrc2.chr@[slot] }
        else if m == 1 { self.chr_outer() + self.mmc3.chr_bank(slot) }
        else { self.mmc1.chr_bank(slot) }
    }

    #[verifier::allow_in_spec]
    pub fn chr_index(&self, addr: u16) -> usize
        requires self.wf(),
        returns ((self.chr_bank(((addr / 0x400) % 8) as int) % (self.chr_1k_total as int)) * 0x400 + addr % 0x400) as usize,
    {
        let slot = ((addr / 0x400) % 8) as usize;
        let outer = (((self.mode / 4) % 2) as usize) * 0x100;
        let m = self.mode % 4;
        let bank: usize = if m == 0 {
            outer + self.vrc2.chr[slot] as usize
        } else if m == 1 {
            outer + self.mmc3.chr_bank_of(slot)
        } else if (self.mmc1.regs[0] / 16) % 2 == 1 {
            let bank4 = if slot < 4 { self.mmc1.regs[1] } else { self.mmc1.regs[2] } as usize;
            bank4 * 4 + slot % 4
        } else {
            ((self.mmc1.regs[1] / 2) as usize) * 8 + slot
        };
        (bank % self.chr_1k_total) * 0x0400 + (addr % 0x0400) as usize
    }

    /// A cartridge write goes to the half the mode selects.
    pub open spec fn wrote(o: Self, n: Self, addr: u16, value: u8) -> bool {
        let m = o.mode % 4;
        &&& n.prg_8k_total == o.prg_8k_total && n.chr_1k_total == o.chr_1k_total && n.mode == o.mode
        &&& if m == 0 { Vrc2Regs::wrote(o.vrc2, n.vrc2, addr, value) } else { n.vrc2 == o.vrc2 }
        &&& if m == 1 { Mmc3Regs::wrote(o.mmc3, n.mmc3, addr, value) } else { n.mmc3 == o.mmc3 }
        &&& if m >= 2 { Mmc1Regs::wrote(o.mmc1, n.mmc1, addr, value) } else { n.mmc1 == o.mmc1 }
    }

    pub fn write_register(&mut self, addr: u16, value: u8)
        requires old(self).wf(), addr >= 0x8000,
        ensures Self::wrote(*old(self), *final(self), addr, value), final(self).wf(),
    {
        let m = self.mode % 4;
        if m == 0 {
            self.vrc2.write(addr, value);
        } else if m == 1 {
            self.mmc3.write(addr, value);
        } else {
            self.mmc1.write(addr, value);
        }
    }

    /// The mode register answers any address with bits 8 and 14 set.
    pub open spec fn claims_low(addr: u16) -> bool {
        (addr / 0x4000) % 2 == 1 && (addr / 0x100) % 2 == 1
    }

    /// A mode write stores the mode; at an odd address it also resets the
    /// MMC1 shifter and registers 0 and 3.
    pub open spec fn low_wrote(o: Self, n: Self, addr: u16, value: u8) -> bool {
        if Self::claims_low(addr) {
            &&& n.prg_8k_total == o.prg_8k_total && n.chr_1k_total == o.chr_1k_total
            &&& n.mode == value && n.vrc2 == o.vrc2 && n.mmc3 == o.mmc3
            &&& if addr % 2 == 1 {
                    n.mmc1.regs@ == o.mmc1.regs@.update(0, 0x0C).update(3, 0) && n.mmc1.buffer == 0 && n.mmc1.shift == 0
                } else {
                    n.mmc1 == o.mmc1
                }
        } else {
            n == o
        }
    }

    fn mode_write(&mut self, addr: u16, value: u8) -> (r: bool)
        requires old(self).wf(),
        ensures r == Self::claims_low(addr), Self::low_wrote(*old(self), *final(self), addr, value), final(self).wf(),
    {
        if !((addr / 0x4000) % 2 == 1 && (addr / 0x100) % 2 == 1) {
            return false;
        }
        self.mode = value;
        if addr % 2 == 1 {
            self.mmc1.regs[0] = 0x0C;
            self.mmc1.regs[3] = 0;
            self.mmc1.buffer = 0;
            self.mmc1.shift = 0;
        }
        true
    }

    pub open spec fn expansion_wrote(o: Self, n: Self, addr: u16, value: u8) -> bool {
        Self::low_wrote(o, n, addr, value)
    }

    pub fn write_expansion(&mut self, addr: u16, value: u8)
        requires old(self).wf(),
        ensures Self::expansion_wrote(*old(self), *final(self), addr, value), final(self).wf(),
    {
        self.mode_write(addr, value);
    }

    pub fn write_low_register(&mut self, addr: u16, value: u8) -> (r: bool)
        requires old(self).wf(),
        ensures r == Self::claims_low(addr), Self::low_wrote(*old(self), *final(self), addr, value), final(self).wf(),
    {
        self.mode_write(addr, value)
    }

    #[verifier::allow_in_spec]
    pub fn mirroring(&self) -> Mirroring
        returns if self.mode % 4 == 0 {
            if self.vrc2.mirroring % 2 == 0 { Mirroring::Vertical } else { Mirroring::Horizontal }
        } else if self.mode % 4 == 1 {
            if self.mmc3.mirroring % 2 == 0 { Mirroring::Vertical } else { Mirroring::Horizontal }
        } else if self.mmc1.regs@[0] % 4 == 0 { Mirroring::SingleScreenLow }
        else if self.mmc1.regs@[0] % 4 == 1 { Mirroring::SingleScreenHigh }
        else if self.mmc1.regs@[0] % 4 == 2 { Mirroring::Vertical }
        else { Mirroring::Horizontal },
    {
        if self.mode % 4 == 0 {
            if self.vrc2.mirroring % 2 == 0 { Mirroring::Vertical } else { Mirroring::Horizontal }
        } else if self.mode % 4 == 1 {
            if self.mmc3.mirroring % 2 == 0 { Mirroring::Vertical } else { Mirroring::Horizontal }
        } else if self.mmc1.regs[0] % 4 == 0 {
            Mirroring::SingleScreenLow
        } else if self.mmc1.regs[0] % 4 == 1 {
            Mirroring::SingleScreenHigh
        } else if self.mmc1.regs[0] % 4 == 2 {
            Mirroring::Vertical
        } else {
            Mirroring::Horizontal
        }
    }

    /// A12 is seen high only in MMC3 mode.
    pub open spec fn after_a12(self, addr: u16, cycle: u64) -> Self {
        let a12 = self.mode % 4 == 1 && (addr / 0x1000) % 2 == 1;
        Mapper116 { mmc3: self.mmc3.after_a12(a12, cycle), ..self }
    }

    pub fn notify_a12(&mut self, addr: u16, cycle: u64)
        requires old(self).wf(),
        ensures *final(self) == old(self).after_a12(addr, cycle), final(self).wf(),
    {
        let a12 = self.mode % 4 == 1 && (addr / 0x1000) % 2 == 1;
        self.mmc3.notify(a12, cycle);
    }

    #[verifier::allow_in_spec]
    pub fn watches_ppu_bus(&self) -> bool
        returns true,
    {
        true
    }

    #[verifier::allow_in_spec]
    pub fn irq(&self) -> bool
        returns self.mmc3.irq_pending,
    {
        self.mmc3.irq_pending
    }

    pub open spec fn after_clear_irq(self) -> Self {
        Mapper116 { mmc3: Mmc3Regs { irq_pending: false, ..self.mmc3 }, ..self }
    }

    pub fn clear_irq(&mut self)
        requires old(self).wf(),
        ensures *final(self) == old(self).after_clear_irq(), final(self).wf(),
    {
        self.mmc3.irq_pending = false;
    }
}

} // verus!
