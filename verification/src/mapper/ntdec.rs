//! NTDEC boards: ASDER (112), with a register file selected through $8000,
//! and TF1201 (298), VRC-like nibble CHR registers plus a CPU-cycle IRQ
//! with a scanline prescaler.

use vstd::prelude::*;

verus! {

use crate::mapper::{MAX_CHR_8K, MAX_PRG_16K};
use crate::types::Mirroring;

// --------------------------------------------------------------- Mapper 112

#[derive(Debug, Clone, Copy)]
pub struct Ntdec112 {
    pub prg_8k_total: usize,
    pub current_reg: usize,
    pub outer_chr_bank: usize,
    pub regs: [usize; 8],
    pub mirroring: Mirroring,
}

impl Ntdec112 {
    pub open spec fn wf(&self) -> bool {
        &&& 1 <= self.prg_8k_total <= 2 * MAX_PRG_16K
        &&& self.current_reg < 8
        &&& self.outer_chr_bank < 0x100
        &&& forall|i: int| 0 <= i < 8 ==> #[trigger] self.regs@[i] < 0x100
    }

    pub open spec fn fresh(self, prg_16k: usize) -> bool {
        &&& self.prg_8k_total == if prg_16k * 2 < 1 { 1 } else { prg_16k * 2 }
        &&& self.current_reg == 0
        &&& self.outer_chr_bank == 0
        &&& self.regs@ == Seq::new(8, |i: int| 0usize)
        &&& self.mirroring == Mirroring::Vertical
    }

    pub fn new(prg_16k: usize) -> (r: Self)
        requires prg_16k <= MAX_PRG_16K,
        ensures r.fresh(prg_16k), r.wf(),
    {
        let t = prg_16k * 2;
        let r = Ntdec112 {
            prg_8k_total: if t < 1 { 1 } else { t },
            current_reg: 0,
            outer_chr_bank: 0,
            regs: [0usize; 8],
            mirroring: Mirroring::Vertical,
        };
        assert(r.regs@ =~= Seq::new(8, |i: int| 0usize));
        r
    }

    /// Register writes decode `addr & $E001`: $8000 selects, $A000 stores,
    /// $C000 the outer CHR bank, $E000 mirroring.
    pub open spec fn reg_wrote(o: Self, n: Self, addr: u16, value: u8) -> bool {
        let port = addr & 0xE001;
        &&& n.prg_8k_total == o.prg_8k_total
        &&& n.current_reg == if port == 0x8000 { (value % 8) as usize } else { o.current_reg }
        &&& n.regs@ == if port == 0xA000 { o.regs@.update(o.current_reg as int, value as usize) } else { o.regs@ }
        &&& n.outer_chr_bank == if port == 0xC000 { value as usize } else { o.outer_chr_bank }
        &&& n.mirroring == if port == 0xE000 {
                if value % 2 == 1 { Mirroring::Horizontal } else { Mirroring::Vertical }
            } else { o.mirroring }
    }

    fn write_reg(&mut self, addr: u16, value: u8)
        requires old(self).wf(),
        ensures Self::reg_wrote(*old(self), *final(self), addr, value), final(self).wf(),
    {
        let port = addr & 0xE001;
        if port == 0x8000 {
            self.current_reg = ((value % 8)) as usize;
        } else if port == 0xA000 {
            self.regs[self.current_reg] = value as usize;
        } else if port == 0xC000 {
            self.outer_chr_bank = value as usize;
        } else if port == 0xE000 {
            self.mirroring = if (value % 2 == 1) { Mirroring::Horizontal } else { Mirroring::Vertical };
        }
    }

    /// The 8 KiB bank of a PRG slot: registers 0-1, then the last two banks
    /// (the second-last counts as bank 0 on a one-bank ROM).
    pub open spec fn prg_bank(self, slot: int) -> int {
        if slot == 0 { self.regs@[0] as int }
        else if slot == 1 { self.regs@[1] as int }
        else if slot == 2 { if self.prg_8k_total >= 2 { self.prg_8k_total - 2 } else { 0 } }
        else { self.prg_8k_total - 1 }
    }

    #[verifier::allow_in_spec]
    pub fn prg_index(&self, addr: u16) -> usize
        requires self.wf(), addr >= 0x8000,
        returns ((self.prg_bank((addr - 0x8000) / 0x2000) % (self.prg_8k_total as int)) * 0x2000 + addr % 0x2000) as usize,
    {
        let slot = ((addr - 0x8000) / 0x2000) as usize;
        let bank: usize = if slot == 0 {
            self.regs[0]
        } else if slot == 1 {
            self.regs[1]
        } else if slot == 2 {
            if self.prg_8k_total >= 2 { self.prg_8k_total - 2 } else { 0 }
        } else {
            self.prg_8k_total - 1
        };
        let b = bank % self.prg_8k_total;
        b * 0x2000 + ((addr % 0x2000)) as usize
    }

    /// CHR: registers 2-3 give 2 KiB banks (even 1 KiB numbers), registers
    /// 4-7 1 KiB banks with bit 8 from the outer CHR register's bits 4-7.
    pub open spec fn chr_bank_1k(self, a: int) -> int {
        let o = self.outer_chr_bank;
        if a < 0x800 { (self.regs@[2] & !1usize) as int }
        else if a < 0x1000 { (self.regs@[3] & !1usize) as int }
        else if a < 0x1400 { (self.regs@[4] | ((o & 0x10) << 4usize)) as int }
        else if a < 0x1800 { (self.regs@[5] | ((o & 0x20) << 3usize)) as int }
        else if a < 0x1C00 { (self.regs@[6] | ((o & 0x40) << 2usize)) as int }
        else { (self.regs@[7] | ((o & 0x80) << 1usize)) as int }
    }

    #[verifier::allow_in_spec]
    pub fn chr_index(&self, addr: u16) -> usize
        requires self.wf(),
        returns ({
            let a = (addr % 0x2000) as int;
            self.chr_bank_1k(a) * 0x400 + (if a < 0x1000 { a % 0x800 } else { a % 0x400 })
        }) as usize,
    {
        let a = (addr % 0x2000);
        let o = self.outer_chr_bank;
        let r = if a < 0x1000 { if a < 0x800 { self.regs[2] } else { self.regs[3] } } else if a < 0x1400 { self.regs[4] }
            else if a < 0x1800 { self.regs[5] } else if a < 0x1C00 { self.regs[6] } else { self.regs[7] };
        assert(r < 0x100 && o < 0x100);
        assert(r & !1usize < 0x100) by (bit_vector) requires r < 0x100;
        assert(r | ((o & 0x10) << 4usize) < 0x200 && r | ((o & 0x20) << 3usize) < 0x200
            && r | ((o & 0x40) << 2usize) < 0x200 && r | ((o & 0x80) << 1usize) < 0x200) by (bit_vector)
            requires r < 0x100, o < 0x100;
        let (bank, off) = if a < 0x0800 {
            (self.regs[2] & !1, (a % 0x800))
        } else if a < 0x1000 {
            (self.regs[3] & !1, (a % 0x800))
        } else if a < 0x1400 {
            (self.regs[4] | ((o & 0x10) << 4), (a % 0x400))
        } else if a < 0x1800 {
            (self.regs[5] | ((o & 0x20) << 3), (a % 0x400))
        } else if a < 0x1C00 {
            (self.regs[6] | ((o & 0x40) << 2), (a % 0x400))
        } else {
            (self.regs[7] | ((o & 0x80) << 1), (a % 0x400))
        };
        bank * 0x0400 + off as usize
    }

    pub open spec fn wrote(o: Self, n: Self, addr: u16, value: u8) -> bool {
        Self::reg_wrote(o, n, addr, value)
    }

    pub fn write_register(&mut self, addr: u16, value: u8)
        requires old(self).wf(),
        ensures Self::wrote(*old(self), *final(self), addr, value), final(self).wf(),
    {
        self.write_reg(addr, value);
    }

    /// $4020-$5FFF mirrors the registers.
    pub open spec fn expansion_wrote(o: Self, n: Self, addr: u16, value: u8) -> bool {
        if 0x4020 <= addr <= 0x5FFF { Self::reg_wrote(o, n, addr, value) } else { n == o }
    }

    pub fn write_expansion(&mut self, addr: u16, value: u8)
        requires old(self).wf(),
        ensures Self::expansion_wrote(*old(self), *final(self), addr, value), final(self).wf(),
    {
        if 0x4020 <= addr && addr <= 0x5FFF {
            self.write_reg(addr, value);
        }
    }

    #[verifier::allow_in_spec]
    pub fn mirroring(&self) -> Mirroring
        returns self.mirroring,
    {
        self.mirroring
    }
}

// --------------------------------------------------------------- Mapper 298

#[derive(Debug, Clone, Copy)]
pub struct Tf1201 {
    pub prg_8k_total: usize,
    pub chr_1k_total: usize,
    pub prg: [u8; 2],
    pub chr: [u8; 8],
    pub swap_prg: bool,
    pub mirroring: Mirroring,
    pub irq_latch: u8,
    pub irq_counter: u8,
    pub irq_prescaler: i16,
    pub irq_enabled: bool,
    pub irq_pending: bool,
}

/// The address after TF1201's line swap: A2-A3 fold onto A0-A1.
pub open spec fn tf_remap(addr: u16) -> u16 {
    (addr & 0xF003) | ((addr & 0x000C) >> 2u16)
}

impl Tf1201 {
    pub open spec fn wf(&self) -> bool {
        &&& 2 <= self.prg_8k_total <= 2 * MAX_PRG_16K
        &&& 8 <= self.chr_1k_total <= 8 * MAX_CHR_8K
        &&& -3 <= self.irq_prescaler <= 341
    }

    /// Power-on / reset state of the registers.
    pub open spec fn cleared(self) -> bool {
        &&& self.prg@ == seq![0u8, 0]
        &&& self.chr@ == Seq::new(8, |i: int| 0u8)
        &&& !self.swap_prg
        &&& self.mirroring == Mirroring::Vertical
        &&& self.irq_latch == 0 && self.irq_counter == 0 && self.irq_prescaler == 0
        &&& !self.irq_enabled && !self.irq_pending
    }

    pub fn new(prg_16k: usize, chr_8k: usize) -> (r: Self)
        requires prg_16k <= MAX_PRG_16K, chr_8k <= MAX_CHR_8K,
        ensures
            r.prg_8k_total == if prg_16k * 2 < 2 { 2 } else { prg_16k * 2 },
            r.chr_1k_total == if chr_8k * 8 < 8 { 8 } else { chr_8k * 8 },
            r.cleared(), r.wf(),
    {
        let p = prg_16k * 2;
        let c = chr_8k * 8;
        let r = Tf1201 {
            prg_8k_total: if p < 2 { 2 } else { p },
            chr_1k_total: if c < 8 { 8 } else { c },
            prg: [0u8, 0],
            chr: [0u8; 8],
            swap_prg: false,
            mirroring: Mirroring::Vertical,
            irq_latch: 0,
            irq_counter: 0,
            irq_prescaler: 0,
            irq_enabled: false,
            irq_pending: false,
        };
        assert(r.chr@ =~= Seq::new(8, |i: int| 0u8));
        r
    }

    #[verifier::allow_in_spec]
    pub fn remap_addr(addr: u16) -> u16
        returns tf_remap(addr),
    {
        (addr & 0xF003) | ((addr & 0x000C) >> 2)
    }

    /// The 8 KiB bank of a PRG slot; swap mode exchanges $8000 and $C000.
    pub open spec fn prg_bank(self, addr: u16) -> int {
        let last = self.prg_8k_total - 1;
        if addr <= 0x9FFF { if self.swap_prg { last - 1 } else { self.prg@[0] as int } }
        else if addr <= 0xBFFF { self.prg@[1] as int }
        else if addr <= 0xDFFF { if self.swap_prg { self.prg@[0] as int } else { last - 1 } }
        else { last }
    }

    #[verifier::allow_in_spec]
    pub fn prg_index(&self, addr: u16) -> usize
        requires self.wf(), addr >= 0x8000,
        returns ((self.prg_bank(addr) % (self.prg_8k_total as int)) * 0x2000 + addr % 0x2000) as usize,
    {
        let last = self.prg_8k_total - 1;
        let bank: usize = if addr <= 0x9FFF {
            if self.swap_prg { last - 1 } else { self.prg[0] as usize }
        } else if addr <= 0xBFFF {
            self.prg[1] as usize
        } else if addr <= 0xDFFF {
            if self.swap_prg { self.prg[0] as usize } else { last - 1 }
        } else {
            last
        };
        (bank % self.prg_8k_total) * 0x2000 + ((addr % 0x2000)) as usize
    }

    #[verifier::allow_in_spec]
    pub fn chr_index(&self, addr: u16) -> usize
        requires self.wf(),
        returns ((self.chr@[((addr / 0x400) % 8) as int] as int % (self.chr_1k_total as int)) * 0x400 + addr % 0x400) as usize,
    {
        let slot = (((addr / 0x400) % 8)) as usize;
        ((self.chr[slot] as usize) % self.chr_1k_total) * 0x400 + ((addr % 0x400)) as usize
    }

    /// CHR registers are written a nibble at a time at $B000-$E003 (after
    /// the remap): bit 1 of the address picks the high nibble.
    pub open spec fn chr_slot(a: u16) -> int {
        ((((a >> 11u16) - 6) as u16 | (a & 0x01)) & 0x07) as int
    }

    pub open spec fn nibbled(old_v: u8, a: u16, value: u8) -> u8 {
        if a & 0x02 == 0 { (old_v & 0xF0) | (value & 0x0F) } else { (old_v & 0x0F) | ((value & 0x0F) << 4u8) }
    }

    pub open spec fn wrote(o: Self, n: Self, addr: u16, value: u8) -> bool {
        let a = tf_remap(addr);
        let p = a & 0xF003;
        let enable = value & 0x02 != 0;
        &&& n.prg_8k_total == o.prg_8k_total && n.chr_1k_total == o.chr_1k_total
        &&& if 0xB000 <= a <= 0xE003 {
            &&& n.chr@ == o.chr@.update(Self::chr_slot(a), Self::nibbled(o.chr@[Self::chr_slot(a)], a, value))
            &&& n.prg@ == o.prg@ && n.swap_prg == o.swap_prg && n.mirroring == o.mirroring
            &&& n.irq_latch == o.irq_latch && n.irq_counter == o.irq_counter && n.irq_prescaler == o.irq_prescaler
            &&& n.irq_enabled == o.irq_enabled && n.irq_pending == o.irq_pending
        } else {
            &&& n.chr@ == o.chr@
            &&& n.prg@ == if p == 0x8000 { o.prg@.update(0, value) } else if p == 0xA000 { o.prg@.update(1, value) } else { o.prg@ }
            &&& n.mirroring == if p == 0x9000 { if value & 0x01 != 0 { Mirroring::Horizontal } else { Mirroring::Vertical } } else { o.mirroring }
            &&& n.swap_prg == if p == 0x9001 { value & 0x03 != 0 } else { o.swap_prg }
            &&& n.irq_latch == if p == 0xF000 { (o.irq_latch & 0xF0) | (value & 0x0F) }
                else if p == 0xF002 { (o.irq_latch & 0x0F) | (value << 4u8) } else { o.irq_latch }
            &&& n.irq_enabled == if p == 0xF001 { enable } else { o.irq_enabled }
            &&& n.irq_counter == if p == 0xF001 && enable { o.irq_latch } else { o.irq_counter }
            &&& n.irq_prescaler == if p == 0xF001 && enable { 341 } else { o.irq_prescaler }
            &&& n.irq_pending == if p == 0xF001 || p == 0xF003 { false } else { o.irq_pending }
        }
    }

    pub fn write_register(&mut self, addr: u16, value: u8)
        requires old(self).wf(),
        ensures Self::wrote(*old(self), *final(self), addr, value), final(self).wf(),
    {
        let addr = Self::remap_addr(addr);
        if 0xB000 <= addr && addr <= 0xE003 {
            assert(addr >= 0xB000 ==> addr >> 11u16 >= 6) by (bit_vector);
            let t: u16 = ((addr >> 11) - 6) | (addr & 0x01);
            let sl16 = t & 0x07;
            assert(sl16 < 8) by (bit_vector) requires sl16 == t & 0x07;
            let slot = sl16 as usize;
            let cur = self.chr[slot];
            if addr & 0x02 == 0 {
                self.chr[slot] = (cur & 0xF0) | (value & 0x0F);
            } else {
                self.chr[slot] = (cur & 0x0F) | ((value & 0x0F) << 4);
            }
            return;
        }
        let p = addr & 0xF003;
        if p == 0x8000 {
            self.prg[0] = value;
        } else if p == 0x9000 {
            self.mirroring = if value & 0x01 != 0 { Mirroring::Horizontal } else { Mirroring::Vertical };
        } else if p == 0x9001 {
            self.swap_prg = value & 0x03 != 0;
        } else if p == 0xA000 {
            self.prg[1] = value;
        } else if p == 0xF000 {
            self.irq_latch = (self.irq_latch & 0xF0) | (value & 0x0F);
        } else if p == 0xF002 {
            self.irq_latch = (self.irq_latch & 0x0F) | (value << 4);
        } else if p == 0xF001 {
            self.irq_enabled = value & 0x02 != 0;
            if self.irq_enabled {
                self.irq_counter = self.irq_latch;
                self.irq_prescaler = 341;
            }
            self.irq_pending = false;
        } else if p == 0xF003 {
            self.irq_pending = false;
        }
    }

    #[verifier::allow_in_spec]
    pub fn mirroring(&self) -> Mirroring
        returns self.mirroring,
    {
        self.mirroring
    }

    /// Each CPU cycle takes 3 from the prescaler (3 PPU dots); when it runs
    /// out it reloads with 341 (one scanline) and the counter steps, raising
    /// the IRQ as it wraps to 0.
    pub open spec fn after_cpu_clock(self) -> Self {
        if !self.irq_enabled { self } else {
            let p = self.irq_prescaler - 3;
            if p <= 0 {
                let c = ((self.irq_counter + 1) % 256) as u8;
                Tf1201 { irq_prescaler: (p + 341) as i16, irq_counter: c, irq_pending: self.irq_pending || c == 0, ..self }
            } else {
                Tf1201 { irq_prescaler: p as i16, ..self }
            }
        }
    }

    pub fn cpu_clock(&mut self)
        requires old(self).wf(),
        ensures *final(self) == old(self).after_cpu_clock(), final(self).wf(),
    {
        if !self.irq_enabled {
            return;
        }
        self.irq_prescaler = self.irq_prescaler - 3;
        if self.irq_prescaler <= 0 {
            self.irq_prescaler = self.irq_prescaler + 341;
            self.irq_counter = self.irq_counter.wrapping_add(1);
            if self.irq_counter == 0 {
                self.irq_pending = true;
            }
        }
    }

    #[verifier::allow_in_spec]
    pub fn clocks_cpu(&self) -> bool
        returns true,
    {
        true
    }

    #[verifier::allow_in_spec]
    pub fn irq(&self) -> bool
        returns self.irq_pending,
    {
        self.irq_pending
    }

    pub open spec fn after_clear_irq(self) -> Self {
        Tf1201 { irq_pending: false, ..self }
    }

    pub fn clear_irq(&mut self)
        requires old(self).wf(),
        ensures *final(self) == old(self).after_clear_irq(), final(self).wf(),
    {
        self.irq_pending = false;
    }

    pub open spec fn was_reset(o: Self, n: Self, soft: bool) -> bool {
        n.prg_8k_total == o.prg_8k_total && n.chr_1k_total == o.chr_1k_total && n.cleared()
    }

    pub fn reset(&mut self, soft: bool)
        requires old(self).wf(),
        ensures Self::was_reset(*old(self), *final(self), soft), final(self).wf(),
    {
        self.prg = [0u8, 0];
        self.chr = [0u8; 8];
        self.swap_prg = false;
        self.mirroring = Mirroring::Vertical;
        self.irq_latch = 0;
        self.irq_counter = 0;
        self.irq_prescaler = 0;
        self.irq_enabled = false;
        self.irq_pending = false;
        assert(self.chr@ =~= Seq::new(8, |i: int| 0u8));
    }
}

} // verus!
