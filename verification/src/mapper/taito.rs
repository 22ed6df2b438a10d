//! Taito boards: TC0190 (33), X1-005 (80, and 207 whose CHR registers also
//! pick the nametable pages) and X1-017 (82).

use vstd::prelude::*;

verus! {

use crate::mapper::MAX_PRG_16K;
use crate::mapper::latch::lo13;
use crate::mapper::namco::prg_8k_of;
use crate::types::Mirroring;

/// Two 8 KiB banks (1-KiB units) per CHR slot pair count: slot of a pattern
/// address.
pub open spec fn chr_slot_1k(addr: u16) -> int {
    lo13(addr) / 0x400
}

// ------------------------------------------------------------ TC0190 (33)

#[derive(Debug, Clone, Copy)]
pub struct TaitoTc0190 {
    pub prg_8k_total: usize,
    pub prg_8k: [usize; 2],
    pub chr_1k: [usize; 8],
    pub mirroring: Mirroring,
}

impl TaitoTc0190 {
    pub open spec fn wf(&self) -> bool {
        &&& 1 <= self.prg_8k_total <= 2 * MAX_PRG_16K
        &&& self.prg_8k@[0] < 0x40 && self.prg_8k@[1] < 0x40
        &&& forall|i: int| 0 <= i < 8 ==> #[trigger] self.chr_1k@[i] < 0x200
    }

    pub open spec fn fresh(self, prg_16k: usize, mirroring: Mirroring) -> bool {
        &&& self.prg_8k_total == prg_8k_of(prg_16k)
        &&& self.prg_8k@ == seq![0usize, 0]
        &&& self.chr_1k@ == Seq::new(8, |i: int| 0usize)
        &&& self.mirroring == mirroring
    }

    pub fn new(prg_16k: usize, mirroring: Mirroring) -> (r: Self)
        requires prg_16k <= MAX_PRG_16K,
        ensures r.fresh(prg_16k, mirroring), r.wf(),
    {
        let t = prg_16k * 2;
        let r = TaitoTc0190 { prg_8k_total: if t < 1 { 1 } else { t }, prg_8k: [0usize, 0], chr_1k: [0usize; 8], mirroring };
        assert(r.chr_1k@ =~= Seq::new(8, |i: int| 0usize));
        r
    }

    /// Two switchable 8 KiB banks, then the last two banks (the second-last
    /// counts as bank 0 on a one-bank ROM).
    pub open spec fn prg_page(self, slot: int) -> int {
        if slot <= 1 { self.prg_8k@[slot] as int }
        else if slot == 2 { if self.prg_8k_total >= 2 { self.prg_8k_total - 2 } else { 0 } }
        else { self.prg_8k_total - 1 }
    }

    #[verifier::allow_in_spec]
    pub fn prg_index(&self, addr: u16) -> usize
        requires self.wf(), addr >= 0x8000,
        returns (self.prg_page(((addr - 0x8000) / 0x2000) as int) * 0x2000 + addr % 0x2000) as usize,
    {
        let slot = ((addr - 0x8000) / 0x2000) as usize;
        let page = if slot <= 1 {
            self.prg_8k[slot]
        } else if slot == 2 {
            if self.prg_8k_total >= 2 { self.prg_8k_total - 2 } else { 0 }
        } else {
            self.prg_8k_total - 1
        };
        page * 0x2000 + (addr % 0x2000) as usize
    }

    #[verifier::allow_in_spec]
    pub fn chr_index(&self, addr: u16) -> usize
        requires self.wf(),
        returns (self.chr_1k@[chr_slot_1k(addr)] * 0x400 + addr % 0x400) as usize,
    {
        let slot = ((addr % 0x2000) / 0x0400) as usize;
        self.chr_1k[slot] * 0x0400 + (addr % 0x0400) as usize
    }

    /// `$8000`: PRG bank 0 (bits 0-5) and mirroring (bit 6: horizontal);
    /// `$8001`: PRG bank 1; `$8002`/`$8003`: 2 KiB CHR banks; `$A000-$A003`:
    /// the four 1 KiB CHR banks (address bits 0, 1, 13 and 15 decode).
    pub open spec fn wrote(o: Self, n: Self, addr: u16, value: u8) -> bool {
        let high = (addr / 0x2000) % 2 == 1;
        let reg = addr % 4;
        let v = value as usize;
        &&& n.prg_8k_total == o.prg_8k_total
        &&& if addr < 0x8000 { n == o }
            else if !high && reg == 0 {
                n.prg_8k@ == o.prg_8k@.update(0, (value % 64) as usize) && n.chr_1k == o.chr_1k
                    && n.mirroring == (if (value / 64) % 2 == 1 { Mirroring::Horizontal } else { Mirroring::Vertical })
            } else if !high && reg == 1 {
                n.prg_8k@ == o.prg_8k@.update(1, (value % 64) as usize) && n.chr_1k == o.chr_1k && n.mirroring == o.mirroring
            } else if !high {
                let s = (reg - 2) * 2;
                n.chr_1k@ == o.chr_1k@.update(s, (v * 2) as usize).update(s + 1, (v * 2 + 1) as usize)
                    && n.prg_8k == o.prg_8k && n.mirroring == o.mirroring
            } else {
                n.chr_1k@ == o.chr_1k@.update(4 + reg, v) && n.prg_8k == o.prg_8k && n.mirroring == o.mirroring
            }
    }

    pub fn write_register(&mut self, addr: u16, value: u8)
        requires old(self).wf(),
        ensures Self::wrote(*old(self), *final(self), addr, value), final(self).wf(),
    {
        if addr < 0x8000 {
            return;
        }
        let high = (addr / 0x2000) % 2 == 1;
        let reg = (addr % 4) as usize;
        if !high && reg == 0 {
            self.prg_8k[0] = (value % 64) as usize;
            self.mirroring = if (value / 64) % 2 == 1 { Mirroring::Horizontal } else { Mirroring::Vertical };
        } else if !high && reg == 1 {
            self.prg_8k[1] = (value % 64) as usize;
        } else if !high {
            let s = (reg - 2) * 2;
            self.chr_1k[s] = value as usize * 2;
            self.chr_1k[s + 1] = value as usize * 2 + 1;
        } else {
            self.chr_1k[4 + reg] = value as usize;
        }
    }

    #[verifier::allow_in_spec]
    pub fn mirroring(&self) -> Mirroring
        returns self.mirroring,
    {
        self.mirroring
    }
}

// ------------------------------------------------------------ X1-005 (80, 207)

#[derive(Debug, Clone)]
pub struct TaitoX1005 {
    pub prg_8k_total: usize,
    pub prg_8k: [usize; 3],
    pub chr_1k: [usize; 8],
    pub mirroring: Mirroring,
    pub alternate_mirroring: bool,
    pub nt: [u8; 4],
    pub wram_enable: u8,
    pub wram: Vec<u8>,
}

impl TaitoX1005 {
    pub open spec fn wf(&self) -> bool {
        &&& 1 <= self.prg_8k_total <= 2 * MAX_PRG_16K
        &&& forall|i: int| 0 <= i < 3 ==> #[trigger] self.prg_8k@[i] < 0x100
        &&& forall|i: int| 0 <= i < 8 ==> #[trigger] self.chr_1k@[i] < 0x100
        &&& forall|i: int| 0 <= i < 4 ==> #[trigger] self.nt@[i] < 2
        &&& self.wram@.len() == 0x100
    }

    pub open spec fn fresh(self, prg_16k: usize, alternate_mirroring: bool) -> bool {
        &&& self.prg_8k_total == prg_8k_of(prg_16k)
        &&& self.prg_8k@ == seq![0usize, 0, 0]
        &&& self.chr_1k@ == Seq::new(8, |i: int| 0usize)
        &&& self.mirroring == Mirroring::Vertical
        &&& self.alternate_mirroring == alternate_mirroring
        &&& self.nt@ == seq![0u8, 0, 0, 0]
        &&& self.wram_enable == 0xFF
        &&& self.wram@ == Seq::new(0x100, |i: int| 0u8)
    }

    fn with_alternate_mirroring(prg_16k: usize, alternate_mirroring: bool) -> (r: Self)
        requires prg_16k <= MAX_PRG_16K,
        ensures r.fresh(prg_16k, alternate_mirroring), r.wf(),
    {
        let t = prg_16k * 2;
        let r = TaitoX1005 {
            prg_8k_total: if t < 1 { 1 } else { t },
            prg_8k: [0usize, 0, 0],
            chr_1k: [0usize; 8],
            mirroring: Mirroring::Vertical,
            alternate_mirroring,
            nt: [0u8, 0, 0, 0],
            wram_enable: 0xFF,
            wram: crate::bytes::zeros(0x100),
        };
        assert(r.chr_1k@ =~= Seq::new(8, |i: int| 0usize));
        r
    }

    /// Mapper 80: header mirroring control through `$7EF6`.
    pub fn new(prg_16k: usize) -> (r: Self)
        requires prg_16k <= MAX_PRG_16K,
        ensures r.fresh(prg_16k, false), r.wf(),
    {
        Self::with_alternate_mirroring(prg_16k, false)
    }

    /// Mapper 207: bit 7 of the 2 KiB CHR registers picks the CIRAM page of
    /// the matching nametables.
    pub fn new_207(prg_16k: usize) -> (r: Self)
        requires prg_16k <= MAX_PRG_16K,
        ensures r.fresh(prg_16k, true), r.wf(),
    {
        Self::with_alternate_mirroring(prg_16k, true)
    }

    pub open spec fn prg_page(self, slot: int) -> int {
        if slot <= 2 { self.prg_8k@[slot] as int } else { self.prg_8k_total - 1 }
    }

    #[verifier::allow_in_spec]
    pub fn prg_index(&self, addr: u16) -> usize
        requires self.wf(), addr >= 0x8000,
        returns (self.prg_page(((addr - 0x8000) / 0x2000) as int) * 0x2000 + addr % 0x2000) as usize,
    {
        let slot = ((addr - 0x8000) / 0x2000) as usize;
        let page = if slot <= 2 { self.prg_8k[slot] } else { self.prg_8k_total - 1 };
        page * 0x2000 + (addr % 0x2000) as usize
    }

    #[verifier::allow_in_spec]
    pub fn chr_index(&self, addr: u16) -> usize
        requires self.wf(),
        returns (self.chr_1k@[chr_slot_1k(addr)] * 0x400 + addr % 0x400) as usize,
    {
        let slot = ((addr % 0x2000) / 0x0400) as usize;
        self.chr_1k[slot] * 0x0400 + (addr % 0x0400) as usize
    }

    pub open spec fn written(self, addr: u16, value: u8) -> Self {
        self
    }

    pub fn write_register(&mut self, addr: u16, value: u8)
        requires old(self).wf(),
        ensures *final(self) == old(self).written(addr, value), final(self).wf(),
    {
    }

    /// The registers sit at `$7EF0-$7EF6`, `$7EF8`, `$7EFA-$7EFF`, and the
    /// 256-byte RAM at `$7F00-$7FFF`.
    pub open spec fn claims_low(addr: u16) -> bool {
        (0x7EF0 <= addr <= 0x7EF6) || addr == 0x7EF8 || addr >= 0x7EFA
    }

    /// `$7EF0`/`$7EF1`: 2 KiB CHR banks (bits 1-6; on 207 bit 7 is the
    /// nametable page); `$7EF2-$7EF5`: 1 KiB CHR banks; `$7EF6` bit 0:
    /// horizontal mirroring (80 only); `$7EF8`: RAM enable (`$A3`);
    /// `$7EFA-$7EFF`: the three PRG banks in pairs; `$7F00-$7FFF`: RAM while
    /// enabled.
    pub open spec fn low_wrote(o: Self, n: Self, addr: u16, value: u8) -> bool {
        let v = value as usize;
        let bank2 = ((value / 2) % 64) as usize;
        let page = (value / 128) % 2;
        &&& n.prg_8k_total == o.prg_8k_total && n.alternate_mirroring == o.alternate_mirroring
        &&& if addr == 0x7EF0 || addr == 0x7EF1 {
                let s = if addr == 0x7EF0 { 0int } else { 2int };
                &&& n.chr_1k@ == o.chr_1k@.update(s, (bank2 * 2) as usize).update(s + 1, (bank2 * 2 + 1) as usize)
                &&& n.nt@ == if o.alternate_mirroring { o.nt@.update(s, page).update(s + 1, page) } else { o.nt@ }
                &&& n.prg_8k == o.prg_8k && n.mirroring == o.mirroring && n.wram_enable == o.wram_enable && n.wram@ == o.wram@
            } else if 0x7EF2 <= addr <= 0x7EF5 {
                &&& n.chr_1k@ == o.chr_1k@.update(4 + addr - 0x7EF2, v)
                &&& n.nt == o.nt && n.prg_8k == o.prg_8k && n.mirroring == o.mirroring && n.wram_enable == o.wram_enable && n.wram@ == o.wram@
            } else if addr == 0x7EF6 {
                &&& n.mirroring == if o.alternate_mirroring { o.mirroring }
                    else if value % 2 == 1 { Mirroring::Horizontal } else { Mirroring::Vertical }
                &&& n.chr_1k == o.chr_1k && n.nt == o.nt && n.prg_8k == o.prg_8k && n.wram_enable == o.wram_enable && n.wram@ == o.wram@
            } else if addr == 0x7EF8 {
                &&& n.wram_enable == value
                &&& n.chr_1k == o.chr_1k && n.nt == o.nt && n.prg_8k == o.prg_8k && n.mirroring == o.mirroring && n.wram@ == o.wram@
            } else if 0x7EFA <= addr <= 0x7EFF {
                &&& n.prg_8k@ == o.prg_8k@.update((addr - 0x7EFA) / 2, v)
                &&& n.chr_1k == o.chr_1k && n.nt == o.nt && n.mirroring == o.mirroring && n.wram_enable == o.wram_enable && n.wram@ == o.wram@
            } else {
                &&& n.wram@ == if addr >= 0x7F00 && o.wram_enable == 0xA3 { o.wram@.update((addr % 0x100) as int, value) } else { o.wram@ }
                &&& n.chr_1k == o.chr_1k && n.nt == o.nt && n.prg_8k == o.prg_8k && n.mirroring == o.mirroring && n.wram_enable == o.wram_enable
            }
    }

    pub fn write_low_register(&mut self, addr: u16, value: u8) -> (r: bool)
        requires old(self).wf(),
        ensures r == Self::claims_low(addr), Self::low_wrote(*old(self), *final(self), addr, value), final(self).wf(),
    {
        if addr == 0x7EF0 || addr == 0x7EF1 {
            let s: usize = if addr == 0x7EF0 { 0 } else { 2 };
            let bank = ((value / 2) % 64) as usize;
            self.chr_1k[s] = bank * 2;
            self.chr_1k[s + 1] = bank * 2 + 1;
            if self.alternate_mirroring {
                let page = (value / 128) % 2;
                self.nt[s] = page;
                self.nt[s + 1] = page;
            }
            true
        } else if 0x7EF2 <= addr && addr <= 0x7EF5 {
            self.chr_1k[4 + (addr - 0x7EF2) as usize] = value as usize;
            true
        } else if addr == 0x7EF6 {
            if !self.alternate_mirroring {
                self.mirroring = if value % 2 == 1 { Mirroring::Horizontal } else { Mirroring::Vertical };
            }
            true
        } else if addr == 0x7EF8 {
            self.wram_enable = value;
            true
        } else if 0x7EFA <= addr && addr <= 0x7EFF {
            self.prg_8k[((addr - 0x7EFA) / 2) as usize] = value as usize;
            true
        } else if addr >= 0x7F00 {
            if self.wram_enable == 0xA3 {
                self.wram.set((addr % 0x100) as usize, value);
            }
            true
        } else {
            false
        }
    }

    /// `$7F00-$7FFF` reads the RAM while enabled, `$FF` otherwise.
    #[verifier::allow_in_spec]
    pub fn peek_low_register(&self, addr: u16) -> Option<u8>
        requires self.wf(),
        returns if 0x7F00 <= addr <= 0x7FFF {
            Some(if self.wram_enable == 0xA3 { self.wram@[(addr % 0x100) as int] } else { 0xFFu8 })
        } else {
            None
        },
    {
        if 0x7F00 <= addr && addr <= 0x7FFF {
            Some(if self.wram_enable == 0xA3 { self.wram[(addr % 0x100) as usize] } else { 0xFF })
        } else {
            None
        }
    }

    /// On 207, the CIRAM byte a nametable address reaches.
    #[verifier::allow_in_spec]
    pub fn ciram_index(&self, addr: u16) -> Option<usize>
        requires self.wf(),
        returns if self.alternate_mirroring {
            Some((self.nt@[((addr / 0x400) % 4) as int] * 0x400 + addr % 0x400) as usize)
        } else {
            None
        },
    {
        if !self.alternate_mirroring {
            return None;
        }
        let table = ((addr / 0x400) % 4) as usize;
        Some((self.nt[table] as usize) * 0x400 + (addr % 0x400) as usize)
    }

    #[verifier::allow_in_spec]
    pub fn peek_nametable(&self, addr: u16, ciram: &[u8; 0x1000]) -> Option<u8>
        requires self.wf(),
        returns match self.ciram_index(addr) { Some(i) => Some(ciram@[i as int]), None => None },
    {
        match self.ciram_index(addr) {
            Some(i) => Some(ciram[i]),
            None => None,
        }
    }

    pub fn nametable_read(&mut self, addr: u16, ciram: &[u8; 0x1000]) -> (r: Option<u8>)
        requires old(self).wf(),
        ensures r == old(self).peek_nametable(addr, ciram), *final(self) == *old(self),
    {
        self.peek_nametable(addr, ciram)
    }

    pub open spec fn claims_nametable_write(&self, addr: u16) -> bool {
        self.alternate_mirroring
    }

    pub open spec fn nametable_wrote(&self, addr: u16, value: u8, before: Seq<u8>, after: Seq<u8>) -> bool {
        match self.ciram_index(addr) {
            Some(i) => after == before.update(i as int, value),
            None => after == before,
        }
    }

    pub fn nametable_write(&mut self, addr: u16, value: u8, ciram: &mut [u8; 0x1000]) -> (r: bool)
        requires old(self).wf(),
        ensures
            r == old(self).claims_nametable_write(addr),
            *final(self) == *old(self),
            old(self).nametable_wrote(addr, value, old(ciram)@, final(ciram)@),
    {
        match self.ciram_index(addr) {
            Some(i) => {
                ciram[i] = value;
                true
            },
            None => false,
        }
    }

    #[verifier::allow_in_spec]
    pub fn mirroring(&self) -> Mirroring
        returns if self.alternate_mirroring { Mirroring::FourScreen } else { self.mirroring },
    {
        if self.alternate_mirroring { Mirroring::FourScreen } else { self.mirroring }
    }
}

// ------------------------------------------------------------ X1-017 (82)

#[derive(Debug, Clone, Copy)]
pub struct TaitoX1017 {
    pub prg_8k_total: usize,
    pub prg_8k: [usize; 3],
    pub chr_regs: [u8; 6],
    pub ctrl: u8,
}

impl TaitoX1017 {
    pub open spec fn wf(&self) -> bool {
        &&& 1 <= self.prg_8k_total <= 2 * MAX_PRG_16K
        &&& forall|i: int| 0 <= i < 3 ==> #[trigger] self.prg_8k@[i] < 0x40
    }

    pub open spec fn fresh(self, prg_16k: usize) -> bool {
        &&& self.prg_8k_total == prg_8k_of(prg_16k)
        &&& self.prg_8k@ == seq![0usize, 0, 0]
        &&& self.chr_regs@ == seq![0u8, 0, 0, 0, 0, 0]
        &&& self.ctrl == 0
    }

    pub fn new(prg_16k: usize) -> (r: Self)
        requires prg_16k <= MAX_PRG_16K,
        ensures r.fresh(prg_16k), r.wf(),
    {
        let t = prg_16k * 2;
        TaitoX1017 { prg_8k_total: if t < 1 { 1 } else { t }, prg_8k: [0usize, 0, 0], chr_regs: [0u8, 0, 0, 0, 0, 0], ctrl: 0 }
    }

    pub open spec fn prg_page(self, slot: int) -> int {
        if slot <= 2 { self.prg_8k@[slot] as int } else { self.prg_8k_total - 1 }
    }

    #[verifier::allow_in_spec]
    pub fn prg_index(&self, addr: u16) -> usize
        requires self.wf(), addr >= 0x8000,
        returns (self.prg_page(((addr - 0x8000) / 0x2000) as int) * 0x2000 + addr % 0x2000) as usize,
    {
        let slot = ((addr - 0x8000) / 0x2000) as usize;
        let page = if slot <= 2 { self.prg_8k[slot] } else { self.prg_8k_total - 1 };
        page * 0x2000 + (addr % 0x2000) as usize
    }

    /// The 1 KiB bank of a slot: two 2 KiB banks then four 1 KiB banks, the
    /// halves swapped by control bit 1.
    pub open spec fn chr_bank(self, slot: int) -> int {
        let ls = if (self.ctrl / 2) % 2 == 1 { (slot + 4) % 8 } else { slot };
        if ls <= 1 { (self.chr_regs@[0] / 2) * 2 + ls }
        else if ls <= 3 { (self.chr_regs@[1] / 2) * 2 + (ls - 2) }
        else { self.chr_regs@[ls - 2] as int }
    }

    #[verifier::allow_in_spec]
    pub fn chr_index(&self, addr: u16) -> usize
        returns (self.chr_bank(chr_slot_1k(addr)) * 0x400 + addr % 0x400) as usize,
    {
        let slot = ((addr % 0x2000) / 0x0400) as usize;
        let ls = if (self.ctrl / 2) % 2 == 1 { (slot + 4) % 8 } else { slot };
        let bank = if ls <= 1 {
            ((self.chr_regs[0] / 2) as usize) * 2 + ls
        } else if ls <= 3 {
            ((self.chr_regs[1] / 2) as usize) * 2 + (ls - 2)
        } else {
            self.chr_regs[ls - 2] as usize
        };
        bank * 0x0400 + (addr % 0x0400) as usize
    }

    pub open spec fn written(self, addr: u16, value: u8) -> Self {
        self
    }

    pub fn write_register(&mut self, addr: u16, value: u8)
        requires old(self).wf(),
        ensures *final(self) == old(self).written(addr, value), final(self).wf(),
    {
    }

    pub open spec fn claims_low(addr: u16) -> bool {
        (0x7EF0 <= addr <= 0x7EF6) || (0x7EFA <= addr <= 0x7EFC)
    }

    /// `$7EF0-$7EF5`: CHR registers; `$7EF6`: control (bits 0-1);
    /// `$7EFA-$7EFC`: PRG banks (bits 2-7).
    pub open spec fn low_wrote(o: Self, n: Self, addr: u16, value: u8) -> bool {
        &&& n.prg_8k_total == o.prg_8k_total
        &&& n.chr_regs@ == if 0x7EF0 <= addr <= 0x7EF5 { o.chr_regs@.update(addr - 0x7EF0, value) } else { o.chr_regs@ }
        &&& n.ctrl == if addr == 0x7EF6 { value % 4 } else { o.ctrl }
        &&& n.prg_8k@ == if 0x7EFA <= addr <= 0x7EFC { o.prg_8k@.update(addr - 0x7EFA, (value / 4) as usize) } else { o.prg_8k@ }
    }

    pub fn write_low_register(&mut self, addr: u16, value: u8) -> (r: bool)
        requires old(self).wf(),
        ensures r == Self::claims_low(addr), Self::low_wrote(*old(self), *final(self), addr, value), final(self).wf(),
    {
        if 0x7EF0 <= addr && addr <= 0x7EF5 {
            self.chr_regs[(addr - 0x7EF0) as usize] = value;
            true
        } else if addr == 0x7EF6 {
            self.ctrl = value % 4;
            true
        } else if 0x7EFA <= addr && addr <= 0x7EFC {
            self.prg_8k[(addr - 0x7EFA) as usize] = (value / 4) as usize;
            true
        } else {
            false
        }
    }

    #[verifier::allow_in_spec]
    pub fn mirroring(&self) -> Mirroring
        returns if self.ctrl % 2 == 1 { Mirroring::Horizontal } else { Mirroring::Vertical },
    {
        if self.ctrl % 2 == 1 { Mirroring::Horizontal } else { Mirroring::Vertical }
    }
}

} // verus!
