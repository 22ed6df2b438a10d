//! Namco 108/118 family subsets: 88-style 118 (with CHR bit 6 on the 1 KiB
//! banks), 95 (CHR registers also pick the nametable pages), 206 (masked
//! registers, no IRQ) and 154 (118 with single-screen mirroring control).

use vstd::prelude::*;

verus! {

use crate::mapper::MAX_PRG_16K;
use crate::types::Mirroring;

/// The four 8 KiB PRG pages: registers 6 and 7, then the last two banks
/// (the second-last counts as bank 0 on a one-bank ROM).
pub open spec fn namco_prg_page(r6: usize, r7: usize, total: usize, slot: int) -> int {
    if slot == 0 { r6 as int } else if slot == 1 { r7 as int }
    else if slot == 2 { if total >= 2 { total - 2 } else { 0 } }
    else { total - 1 }
}

pub fn namco_prg_index(r6: usize, r7: usize, total: usize, addr: u16) -> (r: usize)
    requires 1 <= total <= 2 * MAX_PRG_16K, addr >= 0x8000,
    ensures r == (namco_prg_page(r6, r7, total, ((addr - 0x8000) / 0x2000) as int) % (total as int)) * 0x2000 + addr % 0x2000,
{
    let slot = (addr - 0x8000) / 0x2000;
    let page = if slot == 0 { r6 } else if slot == 1 { r7 } else if slot == 2 {
        if total >= 2 { total - 2 } else { 0 }
    } else {
        total - 1
    };
    (page % total) * 0x2000 + (addr % 0x2000) as usize
}

/// Two 2 KiB windows then four 1 KiB windows, each bank counted in 1 KiB.
pub open spec fn windows_221111(b: Seq<usize>, addr: u16) -> int {
    let a = (addr % 0x2000) as int;
    if a < 0x800 { b[0] * 0x400 + a % 0x800 }
    else if a < 0x1000 { b[1] * 0x400 + a % 0x800 }
    else if a < 0x1400 { b[2] * 0x400 + a % 0x400 }
    else if a < 0x1800 { b[3] * 0x400 + a % 0x400 }
    else if a < 0x1C00 { b[4] * 0x400 + a % 0x400 }
    else { b[5] * 0x400 + a % 0x400 }
}

pub fn chr_windows(b: [usize; 6], addr: u16) -> (r: usize)
    requires forall|i: int| 0 <= i < 6 ==> #[trigger] b@[i] < 0x200,
    ensures r == windows_221111(b@, addr),
{
    let a = addr % 0x2000;
    let (bank, off) = if a < 0x0800 {
        (b[0], a % 0x800)
    } else if a < 0x1000 {
        (b[1], a % 0x800)
    } else if a < 0x1400 {
        (b[2], a % 0x400)
    } else if a < 0x1800 {
        (b[3], a % 0x400)
    } else if a < 0x1C00 {
        (b[4], a % 0x400)
    } else {
        (b[5], a % 0x400)
    };
    bank * 0x0400 + off as usize
}

/// `x` with bit 0 cleared.
pub open spec fn even(x: usize) -> usize {
    (x - x % 2) as usize
}

/// `x` with bit 6 set.
pub open spec fn with_bit6(x: usize) -> usize {
    if (x / 64) % 2 == 1 { x } else { (x + 64) as usize }
}

fn set_bit6(x: usize) -> (r: usize)
    requires x < 0x100,
    ensures r == with_bit6(x),
{
    if (x / 64) % 2 == 1 { x } else { x + 64 }
}

/// The register port a CPU write reaches: 0 for the select port (`$8000`,
/// even), 1 for the data port (`$8001`, odd), 2 below `$8000`.
pub open spec fn namco_port(addr: u16) -> int {
    if addr >= 0x8000 { (addr % 2) as int } else { 2 }
}

// ------------------------------------------------------------ Namco 118 (88)

#[derive(Debug, Clone, Copy)]
pub struct Namco118 {
    pub prg_8k_total: usize,
    pub cmd: usize,
    pub regs: [usize; 8],
    pub mirroring: Mirroring,
}

pub open spec fn prg_8k_of(prg_16k: usize) -> usize {
    if prg_16k * 2 < 1 { 1 } else { (prg_16k * 2) as usize }
}

impl Namco118 {
    pub open spec fn wf(&self) -> bool {
        &&& 1 <= self.prg_8k_total <= 2 * MAX_PRG_16K
        &&& self.cmd < 8
        &&& forall|i: int| 0 <= i < 8 ==> #[trigger] self.regs@[i] < 0x100
    }

    pub open spec fn fresh(self, prg_16k: usize, mirroring: Mirroring) -> bool {
        &&& self.prg_8k_total == prg_8k_of(prg_16k)
        &&& self.cmd == 0
        &&& self.regs@ == Seq::new(8, |i: int| 0usize)
        &&& self.mirroring == mirroring
    }

    pub fn new(prg_16k: usize, mirroring: Mirroring) -> (r: Self)
        requires prg_16k <= MAX_PRG_16K,
        ensures r.fresh(prg_16k, mirroring), r.wf(),
    {
        let t = prg_16k * 2;
        let r = Namco118 { prg_8k_total: if t < 1 { 1 } else { t }, cmd: 0, regs: [0usize; 8], mirroring };
        assert(r.regs@ =~= Seq::new(8, |i: int| 0usize));
        r
    }

    #[verifier::allow_in_spec]
    pub fn prg_index(&self, addr: u16) -> usize
        requires self.wf(), addr >= 0x8000,
        returns ((namco_prg_page(self.regs@[6], self.regs@[7], self.prg_8k_total, ((addr - 0x8000) / 0x2000) as int)
            % (self.prg_8k_total as int)) * 0x2000 + addr % 0x2000) as usize,
    {
        namco_prg_index(self.regs[6], self.regs[7], self.prg_8k_total, addr)
    }

    pub open spec fn chr_banks(self) -> Seq<usize> {
        seq![even(self.regs@[0]), even(self.regs@[1]), with_bit6(self.regs@[2]), with_bit6(self.regs@[3]),
            with_bit6(self.regs@[4]), with_bit6(self.regs@[5])]
    }

    #[verifier::allow_in_spec]
    pub fn chr_index(&self, addr: u16) -> usize
        requires self.wf(),
        returns windows_221111(self.chr_banks(), addr) as usize,
    {
        let b = [self.regs[0] - self.regs[0] % 2, self.regs[1] - self.regs[1] % 2,
            set_bit6(self.regs[2]), set_bit6(self.regs[3]), set_bit6(self.regs[4]), set_bit6(self.regs[5])];
        assert(b@ =~= self.chr_banks());
        chr_windows(b, addr)
    }

    /// `$8000` (even) selects a register, `$8001` (odd) stores into it.
    pub open spec fn wrote(o: Self, n: Self, addr: u16, value: u8) -> bool {
        let port = namco_port(addr);
        &&& n.prg_8k_total == o.prg_8k_total && n.mirroring == o.mirroring
        &&& n.cmd == if port == 0 { (value % 8) as usize } else { o.cmd }
        &&& n.regs@ == if port == 1 { o.regs@.update(o.cmd as int, value as usize) } else { o.regs@ }
    }

    pub fn write_register(&mut self, addr: u16, value: u8)
        requires old(self).wf(),
        ensures Self::wrote(*old(self), *final(self), addr, value), final(self).wf(),
    {
        if addr < 0x8000 {
            return;
        }
        if addr % 2 == 0 {
            self.cmd = (value % 8) as usize;
        } else {
            self.regs[self.cmd] = value as usize;
        }
    }

    #[verifier::allow_in_spec]
    pub fn mirroring(&self) -> Mirroring
        returns self.mirroring,
    {
        self.mirroring
    }
}

// -------------------------------------------------------- Namco 108 (95)

#[derive(Debug, Clone, Copy)]
pub struct Namco108Mapper95 {
    pub prg_8k_total: usize,
    pub cmd: usize,
    pub regs: [usize; 8],
    pub nt: [u8; 4],
}

impl Namco108Mapper95 {
    pub open spec fn wf(&self) -> bool {
        &&& 1 <= self.prg_8k_total <= 2 * MAX_PRG_16K
        &&& self.cmd < 8
        &&& forall|i: int| 0 <= i < 8 ==> #[trigger] self.regs@[i] < 0x100
        &&& forall|i: int| 0 <= i < 4 ==> #[trigger] self.nt@[i] < 2
    }

    pub open spec fn fresh(self, prg_16k: usize) -> bool {
        &&& self.prg_8k_total == prg_8k_of(prg_16k)
        &&& self.cmd == 0
        &&& self.regs@ == Seq::new(8, |i: int| 0usize)
        &&& self.nt@ == seq![0u8, 0, 0, 0]
    }

    pub fn new(prg_16k: usize) -> (r: Self)
        requires prg_16k <= MAX_PRG_16K,
        ensures r.fresh(prg_16k), r.wf(),
    {
        let t = prg_16k * 2;
        let r = Namco108Mapper95 { prg_8k_total: if t < 1 { 1 } else { t }, cmd: 0, regs: [0usize; 8], nt: [0u8, 0, 0, 0] };
        assert(r.regs@ =~= Seq::new(8, |i: int| 0usize));
        r
    }

    #[verifier::allow_in_spec]
    pub fn prg_index(&self, addr: u16) -> usize
        requires self.wf(), addr >= 0x8000,
        returns ((namco_prg_page(self.regs@[6], self.regs@[7], self.prg_8k_total, ((addr - 0x8000) / 0x2000) as int)
            % (self.prg_8k_total as int)) * 0x2000 + addr % 0x2000) as usize,
    {
        namco_prg_index(self.regs[6], self.regs[7], self.prg_8k_total, addr)
    }

    pub open spec fn chr_banks(self) -> Seq<usize> {
        seq![even(self.regs@[0]), even(self.regs@[1]), self.regs@[2], self.regs@[3], self.regs@[4], self.regs@[5]]
    }

    #[verifier::allow_in_spec]
    pub fn chr_index(&self, addr: u16) -> usize
        requires self.wf(),
        returns windows_221111(self.chr_banks(), addr) as usize,
    {
        let b = [self.regs[0] - self.regs[0] % 2, self.regs[1] - self.regs[1] % 2,
            self.regs[2], self.regs[3], self.regs[4], self.regs[5]];
        assert(b@ =~= self.chr_banks());
        chr_windows(b, addr)
    }

    /// Registers 0-5 keep five CHR bits; bit 5 of registers 0 and 1 picks the
    /// CIRAM page of nametables 0-1 and 2-3.
    pub open spec fn wrote(o: Self, n: Self, addr: u16, value: u8) -> bool {
        let port = namco_port(addr);
        let r = o.cmd as int;
        let page = (value / 32) % 2;
        &&& n.prg_8k_total == o.prg_8k_total
        &&& n.cmd == if port == 0 { (value % 8) as usize } else { o.cmd }
        &&& n.regs@ == if port == 1 {
                o.regs@.update(r, if r <= 5 { (value % 32) as usize } else { value as usize })
            } else { o.regs@ }
        &&& n.nt@ == if port == 1 && r == 0 { o.nt@.update(0, page).update(1, page) }
            else if port == 1 && r == 1 { o.nt@.update(2, page).update(3, page) }
            else { o.nt@ }
    }

    pub fn write_register(&mut self, addr: u16, value: u8)
        requires old(self).wf(),
        ensures Self::wrote(*old(self), *final(self), addr, value), final(self).wf(),
    {
        if addr < 0x8000 {
            return;
        }
        if addr % 2 == 0 {
            self.cmd = (value % 8) as usize;
        } else if self.cmd <= 5 {
            let reg = self.cmd;
            self.regs[reg] = (value % 32) as usize;
            let nt = (value / 32) % 2;
            if reg == 0 {
                self.nt[0] = nt;
                self.nt[1] = nt;
            } else if reg == 1 {
                self.nt[2] = nt;
                self.nt[3] = nt;
            }
        } else {
            self.regs[self.cmd] = value as usize;
        }
    }

    /// CIRAM byte for a nametable address: the table's page (0/1) and the
    /// offset within 1 KiB.
    #[verifier::allow_in_spec]
    pub fn ciram_index(&self, addr: u16) -> usize
        requires self.wf(),
        returns (self.nt@[((addr / 0x400) % 4) as int] * 0x400 + addr % 0x400) as usize,
    {
        let table = ((addr / 0x400) % 4) as usize;
        (self.nt[table] as usize) * 0x400 + (addr % 0x400) as usize
    }

    #[verifier::allow_in_spec]
    pub fn peek_nametable(&self, addr: u16, ciram: &[u8; 0x1000]) -> Option<u8>
        requires self.wf(),
        returns Some(ciram@[self.ciram_index(addr) as int]),
    {
        Some(ciram[self.ciram_index(addr)])
    }

    pub fn nametable_read(&mut self, addr: u16, ciram: &[u8; 0x1000]) -> (r: Option<u8>)
        requires old(self).wf(),
        ensures r == old(self).peek_nametable(addr, ciram), *final(self) == *old(self),
    {
        self.peek_nametable(addr, ciram)
    }

    pub open spec fn nametable_wrote(&self, addr: u16, value: u8, before: Seq<u8>, after: Seq<u8>) -> bool {
        after == before.update(self.ciram_index(addr) as int, value)
    }

    pub fn nametable_write(&mut self, addr: u16, value: u8, ciram: &mut [u8; 0x1000]) -> (r: bool)
        requires old(self).wf(),
        ensures r, *final(self) == *old(self), old(self).nametable_wrote(addr, value, old(ciram)@, final(ciram)@),
    {
        let i = self.ciram_index(addr);
        ciram[i] = value;
        true
    }

    #[verifier::allow_in_spec]
    pub fn mirroring(&self) -> Mirroring
        returns Mirroring::FourScreen,
    {
        Mirroring::FourScreen
    }
}

// ------------------------------------------------------- Namco 108 (206)

#[derive(Debug, Clone, Copy)]
pub struct Namco108Mapper206 {
    pub prg_8k_total: usize,
    pub cmd: usize,
    pub regs: [usize; 8],
    pub mirroring: Mirroring,
}

impl Namco108Mapper206 {
    pub open spec fn wf(&self) -> bool {
        &&& 1 <= self.prg_8k_total <= 2 * MAX_PRG_16K
        &&& self.cmd < 8
        &&& forall|i: int| 0 <= i < 8 ==> #[trigger] self.regs@[i] < 0x40
    }

    pub open spec fn fresh(self, prg_16k: usize, mirroring: Mirroring) -> bool {
        &&& self.prg_8k_total == prg_8k_of(prg_16k)
        &&& self.cmd == 0
        &&& self.regs@ == seq![0usize, 0, 0, 0, 0, 0, 0, 1]
        &&& self.mirroring == mirroring
    }

    pub fn new(prg_16k: usize, mirroring: Mirroring) -> (r: Self)
        requires prg_16k <= MAX_PRG_16K,
        ensures r.fresh(prg_16k, mirroring), r.wf(),
    {
        let t = prg_16k * 2;
        Namco108Mapper206 { prg_8k_total: if t < 1 { 1 } else { t }, cmd: 0, regs: [0usize, 0, 0, 0, 0, 0, 0, 1], mirroring }
    }

    #[verifier::allow_in_spec]
    pub fn prg_index(&self, addr: u16) -> usize
        requires self.wf(), addr >= 0x8000,
        returns ((namco_prg_page(self.regs@[6], self.regs@[7], self.prg_8k_total, ((addr - 0x8000) / 0x2000) as int)
            % (self.prg_8k_total as int)) * 0x2000 + addr % 0x2000) as usize,
    {
        namco_prg_index(self.regs[6], self.regs[7], self.prg_8k_total, addr)
    }

    pub open spec fn chr_banks(self) -> Seq<usize> {
        seq![(self.regs@[0] * 2) as usize, (self.regs@[1] * 2) as usize, self.regs@[2], self.regs@[3], self.regs@[4], self.regs@[5]]
    }

    #[verifier::allow_in_spec]
    pub fn chr_index(&self, addr: u16) -> usize
        requires self.wf(),
        returns windows_221111(self.chr_banks(), addr) as usize,
    {
        let b = [self.regs[0] * 2, self.regs[1] * 2, self.regs[2], self.regs[3], self.regs[4], self.regs[5]];
        assert(b@ =~= self.chr_banks());
        chr_windows(b, addr)
    }

    /// The 2 KiB registers keep bits 1-5, the 1 KiB ones bits 0-5, the PRG
    /// ones bits 0-3.
    pub open spec fn wrote(o: Self, n: Self, addr: u16, value: u8) -> bool {
        let port = namco_port(addr);
        let r = o.cmd as int;
        &&& n.prg_8k_total == o.prg_8k_total && n.mirroring == o.mirroring
        &&& n.cmd == if port == 0 { (value % 8) as usize } else { o.cmd }
        &&& n.regs@ == if port == 1 {
                o.regs@.update(r, (if r <= 1 { (value % 64) / 2 } else if r <= 5 { value % 64 } else { value % 16 }) as usize)
            } else { o.regs@ }
    }

    pub fn write_register(&mut self, addr: u16, value: u8)
        requires old(self).wf(),
        ensures Self::wrote(*old(self), *final(self), addr, value), final(self).wf(),
    {
        if addr < 0x8000 {
            return;
        }
        if addr % 2 == 0 {
            self.cmd = (value % 8) as usize;
        } else {
            let reg = self.cmd;
            self.regs[reg] = if reg <= 1 {
                ((value % 64) / 2) as usize
            } else if reg <= 5 {
                (value % 64) as usize
            } else {
                (value % 16) as usize
            };
        }
    }

    #[verifier::allow_in_spec]
    pub fn mirroring(&self) -> Mirroring
        returns self.mirroring,
    {
        self.mirroring
    }
}

// ------------------------------------------------------- Namco 108 (154)

/// Mapper 154: Namco 118 banking whose select writes also pick the
/// single-screen page (bit 6).
#[derive(Debug, Clone, Copy)]
pub struct Namco108Mapper154 {
    pub inner: Namco118,
}

impl Namco108Mapper154 {
    pub open spec fn wf(&self) -> bool {
        self.inner.wf()
    }

    pub fn new(prg_16k: usize) -> (r: Self)
        requires prg_16k <= MAX_PRG_16K,
        ensures r.inner.fresh(prg_16k, Mirroring::SingleScreenLow), r.wf(),
    {
        Namco108Mapper154 { inner: Namco118::new(prg_16k, Mirroring::SingleScreenLow) }
    }

    #[verifier::allow_in_spec]
    pub fn prg_index(&self, addr: u16) -> usize
        requires self.wf(), addr >= 0x8000,
        returns self.inner.prg_index(addr),
    {
        self.inner.prg_index(addr)
    }

    #[verifier::allow_in_spec]
    pub fn chr_index(&self, addr: u16) -> usize
        requires self.wf(),
        returns self.inner.chr_index(addr),
    {
        self.inner.chr_index(addr)
    }

    pub open spec fn wrote(o: Self, n: Self, addr: u16, value: u8) -> bool {
        let m = if namco_port(addr) == 0 {
            Namco118 { mirroring: if (value / 64) % 2 == 1 { Mirroring::SingleScreenHigh } else { Mirroring::SingleScreenLow }, ..o.inner }
        } else { o.inner };
        Namco118::wrote(m, n.inner, addr, value)
    }

    pub fn write_register(&mut self, addr: u16, value: u8)
        requires old(self).wf(),
        ensures Self::wrote(*old(self), *final(self), addr, value), final(self).wf(),
    {
        if addr < 0x8000 {
            return;
        }
        if addr % 2 == 0 {
            self.inner.mirroring = if (value / 64) % 2 == 1 { Mirroring::SingleScreenHigh } else { Mirroring::SingleScreenLow };
        }
        self.inner.write_register(addr, value);
    }

    #[verifier::allow_in_spec]
    pub fn mirroring(&self) -> Mirroring
        returns self.inner.mirroring,
    {
        self.inner.mirroring()
    }
}

} // verus!
