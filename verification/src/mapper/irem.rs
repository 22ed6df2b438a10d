//! Irem boards: G-101 (32), LROG017 (77) and TAM-S1 (97).

use vstd::prelude::*;

verus! {

use crate::mapper::latch::{lo13, chr_off};
use crate::mapper::{max1, ChrAccess, MAX_PRG_16K};
use crate::types::Mirroring;

// ------------------------------------------------------------ G-101

/// Irem G-101: two 8 KiB PRG registers (5 bits) whose windows swap with the
/// second-to-last bank in mode 1, the last bank fixed, eight 1 KiB CHR
/// banks. Submapper 1 wires one-screen mirroring and keeps mode 0.
#[derive(Debug, Clone, Copy)]
pub struct IremG101 {
    pub prg_8k_total: usize,
    pub prg_regs: [u8; 2],
    pub prg_mode: u8,
    pub chr_1k: [u8; 8],
    pub submapper: u8,
    pub mirroring: Mirroring,
}

impl IremG101 {
    pub open spec fn wf(&self) -> bool {
        1 <= self.prg_8k_total <= 2 * MAX_PRG_16K
    }

    pub open spec fn fresh(self, prg_16k: usize, submapper: u8, mirroring: Mirroring) -> bool {
        &&& self.prg_8k_total == max1((prg_16k * 2) as usize)
        &&& self.prg_regs@ == seq![0u8, 0] && self.prg_mode == 0
        &&& self.chr_1k@ == seq![0u8, 0, 0, 0, 0, 0, 0, 0]
        &&& self.submapper == submapper
        &&& self.mirroring == if submapper == 1 { Mirroring::SingleScreenLow } else { mirroring }
    }

    pub fn new(prg_16k: usize, submapper: u8, mirroring: Mirroring) -> (r: Self)
        requires prg_16k <= MAX_PRG_16K,
        ensures r.fresh(prg_16k, submapper, mirroring), r.wf(),
    {
        let r = IremG101 {
            prg_8k_total: if prg_16k == 0 { 1 } else { prg_16k * 2 },
            prg_regs: [0u8, 0],
            prg_mode: 0,
            chr_1k: [0u8; 8],
            submapper,
            mirroring: if submapper == 1 { Mirroring::SingleScreenLow } else { mirroring },
        };
        assert(r.chr_1k@ =~= seq![0u8, 0, 0, 0, 0, 0, 0, 0]);
        r
    }

    /// The second-to-last bank (0 on a one-bank image).
    pub open spec fn second_last(self) -> int {
        if self.prg_8k_total >= 2 { self.prg_8k_total - 2 } else { 0 }
    }

    pub open spec fn prg_page(self, slot: int) -> int {
        if slot == 3 { self.prg_8k_total - 1 }
        else if slot == 1 { self.prg_regs@[1] as int }
        else if (slot == 0) == (self.prg_mode == 0) { self.prg_regs@[0] as int }
        else { self.second_last() }
    }

    #[verifier::allow_in_spec]
    pub fn prg_index(&self, addr: u16) -> usize
        requires self.wf(), addr >= 0x8000,
        returns (self.prg_page(((addr - 0x8000) / 0x2000) as int) * 0x2000 + addr % 0x2000) as usize,
    {
        let slot = (addr - 0x8000) / 0x2000;
        let second_last = if self.prg_8k_total >= 2 { self.prg_8k_total - 2 } else { 0 };
        let page: usize = if slot == 3 {
            self.prg_8k_total - 1
        } else if slot == 1 {
            self.prg_regs[1] as usize
        } else if (slot == 0) == (self.prg_mode == 0) {
            self.prg_regs[0] as usize
        } else {
            second_last
        };
        page * 0x2000 + (addr % 0x2000) as usize
    }

    #[verifier::allow_in_spec]
    pub fn chr_index(&self, addr: u16) -> usize
        returns (self.chr_1k@[lo13(addr) / 0x400] as int * 0x400 + addr % 0x400) as usize,
    {
        (self.chr_1k[chr_off(addr) / 0x400] as usize) * 0x400 + (addr % 0x400) as usize
    }

    /// `$8xxx`/`$Axxx` load the PRG registers (5 bits), `$9xxx` the mode
    /// (bit 1) and mirroring (bit 0, horizontal), `$Bxxx` CHR bank `addr & 7`.
    pub open spec fn wrote(o: Self, n: Self, addr: u16, value: u8) -> bool {
        let hi = addr / 0x1000;
        &&& n.prg_8k_total == o.prg_8k_total && n.submapper == o.submapper
        &&& n.prg_regs@ == if hi == 8 { o.prg_regs@.update(0, value % 32) }
            else if hi == 0xA { o.prg_regs@.update(1, value % 32) } else { o.prg_regs@ }
        &&& n.prg_mode == if hi == 9 { if o.submapper == 1 { 0 } else { (value / 2) % 2 } } else { o.prg_mode }
        &&& n.mirroring == if hi == 9 { if value % 2 == 1 { Mirroring::Horizontal } else { Mirroring::Vertical } } else { o.mirroring }
        &&& n.chr_1k@ == if hi == 0xB { o.chr_1k@.update((addr % 8) as int, value) } else { o.chr_1k@ }
    }

    pub fn write_register(&mut self, addr: u16, value: u8)
        requires old(self).wf(),
        ensures Self::wrote(*old(self), *final(self), addr, value), final(self).wf(),
    {
        let hi = addr / 0x1000;
        if hi == 8 {
            self.prg_regs[0] = value % 32;
        } else if hi == 9 {
            self.prg_mode = if self.submapper == 1 { 0 } else { (value / 2) % 2 };
            self.mirroring = if value % 2 == 1 { Mirroring::Horizontal } else { Mirroring::Vertical };
        } else if hi == 0xA {
            self.prg_regs[1] = value % 32;
        } else if hi == 0xB {
            self.chr_1k[(addr % 8) as usize] = value;
        }
    }

    #[verifier::allow_in_spec]
    pub fn mirroring(&self) -> Mirroring
        returns self.mirroring,
    {
        self.mirroring
    }
}

// ------------------------------------------------------------ LROG017

/// Irem LROG017 (77): a latch selecting the 32 KiB PRG bank (bits 0-2) and
/// the 2 KiB CHR-ROM bank at `$0000` (bits 4-7); the rest of the pattern
/// space is 6 KiB of CHR-RAM on the board.
#[derive(Debug, Clone)]
pub struct IremLrog017 {
    pub latch: u8,
    pub mirroring: Mirroring,
    pub chr_ram: Vec<u8>,
}

/// Where a pattern address lands in the board's CHR-RAM: `$0800-$0FFF` at
/// offset 0, `$1000-$1FFF` at `$0800`; `$0000-$07FF` is ROM.
pub open spec fn lrog017_ram_index(addr: u16) -> Option<int> {
    let a = lo13(addr);
    if a < 0x800 { None } else if a < 0x1000 { Some(a - 0x800) } else { Some(0x800 + a - 0x1000) }
}

fn lrog017_ram_slot(addr: u16) -> (r: Option<usize>)
    ensures
        r is Some <==> lrog017_ram_index(addr) is Some,
        r matches Some(i) ==> i == lrog017_ram_index(addr)->0 && i < 0x1800,
{
    let a = chr_off(addr);
    if a < 0x800 { None } else if a < 0x1000 { Some(a - 0x800) } else { Some(0x800 + a - 0x1000) }
}

impl IremLrog017 {
    pub open spec fn wf(&self) -> bool {
        self.chr_ram@.len() == 0x1800
    }

    pub fn new(mirroring: Mirroring) -> (r: Self)
        ensures r.latch == 0, r.mirroring == mirroring, r.chr_ram@ == Seq::new(0x1800, |i: int| 0u8), r.wf(),
    {
        IremLrog017 { latch: 0, mirroring, chr_ram: crate::bytes::zeros(0x1800) }
    }

    #[verifier::allow_in_spec]
    pub fn prg_index(&self, addr: u16) -> usize
        requires addr >= 0x8000,
        returns ((self.latch % 8) as int * 0x8000 + (addr - 0x8000)) as usize,
    {
        ((self.latch % 8) as usize) * 0x8000 + (addr - 0x8000) as usize
    }

    #[verifier::allow_in_spec]
    pub fn chr_index(&self, addr: u16) -> usize
        returns ((self.latch / 16) as int * 0x800 + addr % 0x800) as usize,
    {
        ((self.latch / 16) as usize) * 0x800 + (addr % 0x800) as usize
    }

    #[verifier::allow_in_spec]
    pub fn chr_read(&self, addr: u16, access: ChrAccess) -> Option<u8>
        requires self.wf(),
        returns (match lrog017_ram_index(addr) { Some(i) => Some(self.chr_ram@[i]), None => None }),
    {
        match lrog017_ram_slot(addr) {
            Some(i) => Some(self.chr_ram[i]),
            None => None,
        }
    }

    #[verifier::allow_in_spec]
    pub fn has_chr_read(&self) -> bool
        returns true,
    {
        true
    }

    pub open spec fn claims_chr_write(&self, addr: u16) -> bool {
        lrog017_ram_index(addr) is Some
    }

    pub open spec fn chr_wrote(o: Self, n: Self, addr: u16, value: u8) -> bool {
        &&& n.latch == o.latch && n.mirroring == o.mirroring
        &&& n.chr_ram@ == match lrog017_ram_index(addr) { Some(i) => o.chr_ram@.update(i, value), None => o.chr_ram@ }
    }

    pub fn chr_write(&mut self, addr: u16, value: u8) -> (r: bool)
        requires old(self).wf(),
        ensures r == old(self).claims_chr_write(addr), Self::chr_wrote(*old(self), *final(self), addr, value), final(self).wf(),
    {
        match lrog017_ram_slot(addr) {
            Some(i) => {
                self.chr_ram.set(i, value);
                true
            }
            None => false,
        }
    }

    pub open spec fn wrote(o: Self, n: Self, addr: u16, value: u8) -> bool {
        n.latch == value && n.mirroring == o.mirroring && n.chr_ram@ == o.chr_ram@
    }

    pub fn write_register(&mut self, addr: u16, value: u8)
        requires old(self).wf(),
        ensures Self::wrote(*old(self), *final(self), addr, value), final(self).wf(),
    {
        self.latch = value;
    }

    #[verifier::allow_in_spec]
    pub fn mirroring(&self) -> Mirroring
        returns self.mirroring,
    {
        self.mirroring
    }
}

// ------------------------------------------------------------ TAM-S1

/// Irem TAM-S1 (97): the last 16 KiB bank is fixed at `$8000`, `$C000`
/// switches (data bits 0-3), bits 6-7 pick the mirroring.
#[derive(Debug, Clone, Copy)]
pub struct IremTamS1 {
    pub prg_16k: usize,
    pub high_bank: u8,
    pub mirroring: Mirroring,
}

impl IremTamS1 {
    pub open spec fn wf(&self) -> bool {
        1 <= self.prg_16k <= MAX_PRG_16K
    }

    pub fn new(prg_16k: usize) -> (r: Self)
        requires prg_16k <= MAX_PRG_16K,
        ensures r == (IremTamS1 { prg_16k: max1(prg_16k), high_bank: 0, mirroring: Mirroring::SingleScreenLow }), r.wf(),
    {
        IremTamS1 { prg_16k: if prg_16k == 0 { 1 } else { prg_16k }, high_bank: 0, mirroring: Mirroring::SingleScreenLow }
    }

    #[verifier::allow_in_spec]
    pub fn prg_index(&self, addr: u16) -> usize
        requires self.wf(), addr >= 0x8000,
        returns (if addr < 0xC000 { (self.prg_16k - 1) * 0x4000 + (addr - 0x8000) }
            else { self.high_bank as int * 0x4000 + (addr - 0xC000) }) as usize,
    {
        if addr < 0xC000 {
            (self.prg_16k - 1) * 0x4000 + (addr - 0x8000) as usize
        } else {
            (self.high_bank as usize) * 0x4000 + (addr - 0xC000) as usize
        }
    }

    #[verifier::allow_in_spec]
    pub fn chr_index(&self, addr: u16) -> usize
        returns lo13(addr) as usize,
    {
        chr_off(addr)
    }

    pub open spec fn mirroring_of(value: u8) -> Mirroring {
        let m = value / 64;
        if m == 1 { Mirroring::Horizontal } else if m == 2 { Mirroring::Vertical }
        else if m == 3 { Mirroring::SingleScreenHigh } else { Mirroring::SingleScreenLow }
    }

    pub open spec fn written(self, addr: u16, value: u8) -> Self {
        IremTamS1 { high_bank: value % 16, mirroring: Self::mirroring_of(value), ..self }
    }

    pub fn write_register(&mut self, addr: u16, value: u8)
        requires old(self).wf(),
        ensures *final(self) == old(self).written(addr, value), final(self).wf(),
    {
        self.high_bank = value % 16;
        let m = value / 64;
        self.mirroring = if m == 1 {
            Mirroring::Horizontal
        } else if m == 2 {
            Mirroring::Vertical
        } else if m == 3 {
            Mirroring::SingleScreenHigh
        } else {
            Mirroring::SingleScreenLow
        };
    }

    #[verifier::allow_in_spec]
    pub fn mirroring(&self) -> Mirroring
        returns self.mirroring,
    {
        self.mirroring
    }
}

} // verus!
