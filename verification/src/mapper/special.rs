//! One-off boards: FDS conversions with a PRG-ROM window at $6000-$7FFF
//! (103, 108, 120), the Pegasus 5-in-1 (104), Magic Kid GooGoo (190), the
//! Racermate board with CHR-RAM banking and a CPU-cycle IRQ (168), a
//! protection latch (170), the XH-32A (177) and two reset-selected
//! multicarts (230, 233).

use vstd::prelude::*;

verus! {

use crate::mapper::{max1, MAX_PRG_16K};
use crate::mapper::latch::{lo13, chr_off};
use crate::types::Mirroring;

/// The 8 KiB PRG bank count of the FDS conversions: twice the 16 KiB count,
/// at least four.
pub open spec fn fds_prg_8k_of(prg_16k: usize) -> usize {
    if prg_16k * 2 < 4 { 4 } else { (prg_16k * 2) as usize }
}

fn fds_prg_8k(prg_16k: usize) -> (r: usize)
    requires prg_16k <= MAX_PRG_16K,
    ensures r == fds_prg_8k_of(prg_16k),
{
    let t = prg_16k * 2;
    if t < 4 { 4 } else { t }
}

// ------------------------------------------------------------ Mapper 103

#[derive(Debug, Clone, Copy)]
pub struct Mapper103 {
    pub prg_8k_total: usize,
    pub low_prg_bank: usize,
    pub prg_ram_disabled: bool,
    pub mirroring: Mirroring,
}

impl Mapper103 {
    pub open spec fn wf(&self) -> bool {
        4 <= self.prg_8k_total <= 2 * MAX_PRG_16K && self.low_prg_bank < 16
    }

    pub fn new(prg_16k: usize, mirroring: Mirroring) -> (r: Self)
        requires prg_16k <= MAX_PRG_16K,
        ensures
            r == (Mapper103 { prg_8k_total: fds_prg_8k_of(prg_16k), low_prg_bank: 0, prg_ram_disabled: false, mirroring }),
            r.wf(),
    {
        Mapper103 { prg_8k_total: fds_prg_8k(prg_16k), low_prg_bank: 0, prg_ram_disabled: false, mirroring }
    }

    /// $8000-$FFFF is the last 32 KiB of PRG-ROM.
    #[verifier::allow_in_spec]
    pub fn prg_index(&self, addr: u16) -> usize
        requires self.wf(), addr >= 0x8000,
        returns ((self.prg_8k_total - 4 + (addr - 0x8000) / 0x2000) * 0x2000 + addr % 0x2000) as usize,
    {
        (self.prg_8k_total - 4 + ((addr - 0x8000) / 0x2000) as usize) * 0x2000 + (addr % 0x2000) as usize
    }

    #[verifier::allow_in_spec]
    pub fn chr_index(&self, addr: u16) -> usize
        returns lo13(addr) as usize,
    {
        chr_off(addr)
    }

    /// $8xxx picks the low window bank, $Exxx the mirroring (bit 3:
    /// horizontal), $Fxxx bit 4 swaps PRG-RAM out for the ROM window.
    pub open spec fn written(self, addr: u16, value: u8) -> Self {
        let page = addr / 0x1000;
        if page == 8 { Mapper103 { low_prg_bank: (value % 16) as usize, ..self } }
        else if page == 0xE {
            Mapper103 { mirroring: if (value / 8) % 2 == 1 { Mirroring::Horizontal } else { Mirroring::Vertical }, ..self }
        } else if page == 0xF { Mapper103 { prg_ram_disabled: (value / 16) % 2 == 1, ..self } }
        else { self }
    }

    pub fn write_register(&mut self, addr: u16, value: u8)
        requires old(self).wf(),
        ensures *final(self) == old(self).written(addr, value), final(self).wf(),
    {
        let page = addr / 0x1000;
        if page == 8 {
            self.low_prg_bank = (value % 16) as usize;
        } else if page == 0xE {
            self.mirroring = if (value / 8) % 2 == 1 { Mirroring::Horizontal } else { Mirroring::Vertical };
        } else if page == 0xF {
            self.prg_ram_disabled = (value / 16) % 2 == 1;
        }
    }

    /// The board claims all of $6000-$7FFF, and the write still lands in
    /// PRG-RAM.
    pub open spec fn claims_low(addr: u16) -> bool {
        0x6000 <= addr <= 0x7FFF
    }

    pub open spec fn low_written(self, addr: u16, value: u8) -> Self {
        self
    }

    pub fn write_low_register(&mut self, addr: u16, value: u8) -> (r: bool)
        requires old(self).wf(),
        ensures r == Self::claims_low(addr), *final(self) == old(self).low_written(addr, value), final(self).wf(),
    {
        0x6000 <= addr && addr <= 0x7FFF
    }

    #[verifier::allow_in_spec]
    pub fn low_register_write_falls_through(&self, addr: u16) -> bool
        returns 0x6000 <= addr <= 0x7FFF,
    {
        0x6000 <= addr && addr <= 0x7FFF
    }

    #[verifier::allow_in_spec]
    pub fn low_prg_index(&self, addr: u16) -> Option<usize>
        requires self.wf(),
        returns if self.prg_ram_disabled && 0x6000 <= addr <= 0x7FFF {
            Some((self.low_prg_bank * 0x2000 + addr % 0x2000) as usize)
        } else {
            None
        },
    {
        if self.prg_ram_disabled && 0x6000 <= addr && addr <= 0x7FFF {
            Some(self.low_prg_bank * 0x2000 + (addr % 0x2000) as usize)
        } else {
            None
        }
    }

    #[verifier::allow_in_spec]
    pub fn mirroring(&self) -> Mirroring
        returns self.mirroring,
    {
        self.mirroring
    }
}

// ------------------------------------------------------------ Mapper 120

#[derive(Debug, Clone, Copy)]
pub struct Mapper120 {
    pub low_prg_bank: usize,
    pub mirroring: Mirroring,
}

impl Mapper120 {
    pub open spec fn wf(&self) -> bool {
        self.low_prg_bank < 8
    }

    pub fn new(mirroring: Mirroring) -> (r: Self)
        ensures r == (Mapper120 { low_prg_bank: 0, mirroring }), r.wf(),
    {
        Mapper120 { low_prg_bank: 0, mirroring }
    }

    /// $8000-$FFFF is fixed to the third 32 KiB of PRG-ROM.
    #[verifier::allow_in_spec]
    pub fn prg_index(&self, addr: u16) -> usize
        requires addr >= 0x8000,
        returns (2 * 0x8000 + (addr - 0x8000)) as usize,
    {
        2 * 0x8000 + (addr - 0x8000) as usize
    }

    #[verifier::allow_in_spec]
    pub fn chr_index(&self, addr: u16) -> usize
        returns lo13(addr) as usize,
    {
        chr_off(addr)
    }

    pub open spec fn written(self, addr: u16, value: u8) -> Self {
        self
    }

    pub fn write_register(&mut self, addr: u16, value: u8)
        requires old(self).wf(),
        ensures *final(self) == old(self).written(addr, value), final(self).wf(),
    {
    }

    /// `$41FF` selects the 8 KiB bank shown at $6000-$7FFF.
    pub open spec fn expansion_written(self, addr: u16, value: u8) -> Self {
        if addr == 0x41FF { Mapper120 { low_prg_bank: (value % 8) as usize, ..self } } else { self }
    }

    pub fn write_expansion(&mut self, addr: u16, value: u8)
        requires old(self).wf(),
        ensures *final(self) == old(self).expansion_written(addr, value), final(self).wf(),
    {
        if addr == 0x41FF {
            self.low_prg_bank = (value % 8) as usize;
        }
    }

    #[verifier::allow_in_spec]
    pub fn low_prg_index(&self, addr: u16) -> Option<usize>
        requires self.wf(),
        returns if 0x6000 <= addr <= 0x7FFF { Some((self.low_prg_bank * 0x2000 + addr % 0x2000) as usize) } else { None },
    {
        if 0x6000 <= addr && addr <= 0x7FFF {
            Some(self.low_prg_bank * 0x2000 + (addr % 0x2000) as usize)
        } else {
            None
        }
    }

    #[verifier::allow_in_spec]
    pub fn mirroring(&self) -> Mirroring
        returns self.mirroring,
    {
        self.mirroring
    }
}

// ------------------------------------------------------------ Mapper 104

/// Pegasus 5-in-1: an outer 128 KiB block (bits 4-6) shared by both 16 KiB
/// slots, an inner bank for $8000 and the block's last bank at $C000.
#[derive(Debug, Clone, Copy)]
pub struct Mapper104 {
    pub prg: [u8; 2],
}

impl Mapper104 {
    pub open spec fn wf(&self) -> bool {
        self.prg@[0] < 0x80 && self.prg@[1] < 0x80
    }

    pub fn new(mirroring: Mirroring) -> (r: Self)
        ensures r.prg@ == seq![0u8, 0x0F], r.wf(),
    {
        Mapper104 { prg: [0, 0x0F] }
    }

    #[verifier::allow_in_spec]
    pub fn prg_index(&self, addr: u16) -> usize
        requires self.wf(),
        returns (self.prg@[if addr >= 0xC000 { 1int } else { 0int }] * 0x4000 + addr % 0x4000) as usize,
    {
        let slot: usize = if addr >= 0xC000 { 1 } else { 0 };
        (self.prg[slot] as usize) * 0x4000 + (addr % 0x4000) as usize
    }

    #[verifier::allow_in_spec]
    pub fn chr_index(&self, addr: u16) -> usize
        returns lo13(addr) as usize,
    {
        chr_off(addr)
    }

    /// $8000-$9FFF with bit 3 set loads the outer block (bits 0-2); $C000-$FFFF
    /// loads the inner bank (bits 0-3).
    pub open spec fn written(self, addr: u16, value: u8) -> Self {
        if 0x8000 <= addr <= 0x9FFF {
            if (value / 8) % 2 == 1 {
                let outer = ((value % 8) * 16) as u8;
                Mapper104 { prg: [(outer + self.prg@[0] % 16) as u8, (outer + 15) as u8] }
            } else { self }
        } else if addr >= 0xC000 {
            Mapper104 { prg: [(((self.prg@[0] / 16) % 8) * 16 + value % 16) as u8, self.prg@[1]] }
        } else { self }
    }

    pub fn write_register(&mut self, addr: u16, value: u8)
        requires old(self).wf(),
        ensures *final(self) == old(self).written(addr, value), final(self).wf(),
    {
        if 0x8000 <= addr && addr <= 0x9FFF {
            if (value / 8) % 2 == 1 {
                let outer = (value % 8) * 16;
                self.prg = [outer + self.prg[0] % 16, outer + 15];
            }
        } else if addr >= 0xC000 {
            self.prg = [((self.prg[0] / 16) % 8) * 16 + value % 16, self.prg[1]];
        }
    }

    #[verifier::allow_in_spec]
    pub fn mirroring(&self) -> Mirroring
        returns Mirroring::Vertical,
    {
        Mirroring::Vertical
    }

    pub open spec fn after_reset(self, soft: bool) -> Self {
        Mapper104 { prg: [0u8, 0x0F] }
    }

    pub fn reset(&mut self, soft: bool)
        requires old(self).wf(),
        ensures *final(self) == old(self).after_reset(soft), final(self).wf(),
    {
        self.prg = [0, 0x0F];
    }
}

// ------------------------------------------------------------ Mapper 108

#[derive(Debug, Clone, Copy)]
pub struct Mapper108 {
    pub prg_8k_total: usize,
    pub low_prg_bank: usize,
    pub mirroring: Mirroring,
}

impl Mapper108 {
    pub open spec fn wf(&self) -> bool {
        4 <= self.prg_8k_total <= 2 * MAX_PRG_16K && self.low_prg_bank < 0x100
    }

    pub fn new(prg_16k: usize, mirroring: Mirroring) -> (r: Self)
        requires prg_16k <= MAX_PRG_16K,
        ensures r == (Mapper108 { prg_8k_total: fds_prg_8k_of(prg_16k), low_prg_bank: 0, mirroring }), r.wf(),
    {
        Mapper108 { prg_8k_total: fds_prg_8k(prg_16k), low_prg_bank: 0, mirroring }
    }

    /// $8000-$FFFF is the last 32 KiB of PRG-ROM.
    #[verifier::allow_in_spec]
    pub fn prg_index(&self, addr: u16) -> usize
        requires self.wf(), addr >= 0x8000,
        returns ((self.prg_8k_total - 4 + (addr - 0x8000) / 0x2000) * 0x2000 + addr % 0x2000) as usize,
    {
        (self.prg_8k_total - 4 + ((addr - 0x8000) / 0x2000) as usize) * 0x2000 + (addr % 0x2000) as usize
    }

    #[verifier::allow_in_spec]
    pub fn chr_index(&self, addr: u16) -> usize
        returns lo13(addr) as usize,
    {
        chr_off(addr)
    }

    /// Writes to $8000-$8FFF or $F000-$FFFF select the $6000 window bank.
    pub open spec fn written(self, addr: u16, value: u8) -> Self {
        if (0x8000 <= addr <= 0x8FFF) || addr >= 0xF000 { Mapper108 { low_prg_bank: value as usize, ..self } } else { self }
    }

    pub fn write_register(&mut self, addr: u16, value: u8)
        requires old(self).wf(),
        ensures *final(self) == old(self).written(addr, value), final(self).wf(),
    {
        if (0x8000 <= addr && addr <= 0x8FFF) || addr >= 0xF000 {
            self.low_prg_bank = value as usize;
        }
    }

    #[verifier::allow_in_spec]
    pub fn low_prg_index(&self, addr: u16) -> Option<usize>
        requires self.wf(),
        returns if 0x6000 <= addr <= 0x7FFF { Some((self.low_prg_bank * 0x2000 + addr % 0x2000) as usize) } else { None },
    {
        if 0x6000 <= addr && addr <= 0x7FFF {
            Some(self.low_prg_bank * 0x2000 + (addr % 0x2000) as usize)
        } else {
            None
        }
    }

    #[verifier::allow_in_spec]
    pub fn mirroring(&self) -> Mirroring
        returns self.mirroring,
    {
        self.mirroring
    }
}

// ------------------------------------------------------------ Mapper 190

#[derive(Debug, Clone, Copy)]
pub struct Mapper190 {
    pub prg_16k_total: usize,
    pub prg_bank: u8,
    pub chr_2k: [u8; 4],
}

impl Mapper190 {
    pub open spec fn wf(&self) -> bool {
        1 <= self.prg_16k_total <= MAX_PRG_16K
    }

    pub fn new(prg_16k: usize) -> (r: Self)
        requires prg_16k <= MAX_PRG_16K,
        ensures r.prg_16k_total == max1(prg_16k), r.prg_bank == 0, r.chr_2k@ == seq![0u8, 0, 0, 0], r.wf(),
    {
        Mapper190 { prg_16k_total: if prg_16k == 0 { 1 } else { prg_16k }, prg_bank: 0, chr_2k: [0u8, 0, 0, 0] }
    }

    /// $8000 shows the selected 16 KiB bank, $C000 bank 0.
    #[verifier::allow_in_spec]
    pub fn prg_index(&self, addr: u16) -> usize
        requires self.wf(),
        returns (((if addr < 0xC000 { self.prg_bank as int } else { 0 }) % (self.prg_16k_total as int)) * 0x4000 + addr % 0x4000) as usize,
    {
        let bank: usize = if addr < 0xC000 { self.prg_bank as usize } else { 0 };
        (bank % self.prg_16k_total) * 0x4000 + (addr % 0x4000) as usize
    }

    /// Four 2 KiB CHR windows.
    #[verifier::allow_in_spec]
    pub fn chr_index(&self, addr: u16) -> usize
        returns (self.chr_2k@[lo13(addr) / 0x800] * 0x800 + addr % 0x800) as usize,
    {
        let slot = chr_off(addr) / 0x0800;
        (self.chr_2k[slot] as usize) * 0x0800 + (addr % 0x0800) as usize
    }

    /// $8000-$9FFF: bank 0-7; $A000-$BFFF: CHR window `addr & 3`;
    /// $C000-$DFFF: bank 8-15.
    pub open spec fn wrote(o: Self, n: Self, addr: u16, value: u8) -> bool {
        &&& n.prg_16k_total == o.prg_16k_total
        &&& n.prg_bank == if 0x8000 <= addr <= 0x9FFF { value % 8 }
            else if 0xC000 <= addr <= 0xDFFF { (8 + value % 8) as u8 } else { o.prg_bank }
        &&& n.chr_2k@ == if 0xA000 <= addr <= 0xBFFF { o.chr_2k@.update((addr % 4) as int, value) } else { o.chr_2k@ }
    }

    pub fn write_register(&mut self, addr: u16, value: u8)
        requires old(self).wf(),
        ensures Self::wrote(*old(self), *final(self), addr, value), final(self).wf(),
    {
        if 0x8000 <= addr && addr <= 0x9FFF {
            self.prg_bank = value % 8;
        } else if 0xA000 <= addr && addr <= 0xBFFF {
            self.chr_2k[(addr % 4) as usize] = value;
        } else if 0xC000 <= addr && addr <= 0xDFFF {
            self.prg_bank = 8 + value % 8;
        }
    }

    #[verifier::allow_in_spec]
    pub fn mirroring(&self) -> Mirroring
        returns Mirroring::Vertical,
    {
        Mirroring::Vertical
    }

    pub open spec fn was_reset(o: Self, n: Self, soft: bool) -> bool {
        n.prg_16k_total == o.prg_16k_total && n.prg_bank == 0 && n.chr_2k@ == seq![0u8, 0, 0, 0]
    }

    pub fn reset(&mut self, soft: bool)
        requires old(self).wf(),
        ensures Self::was_reset(*old(self), *final(self), soft), final(self).wf(),
    {
        self.prg_bank = 0;
        self.chr_2k = [0u8, 0, 0, 0];
    }
}

// ------------------------------------------------------------ Mapper 168

/// Racermate: 64 KiB of CHR-RAM on the board (4 KiB at $0000 fixed, 4 KiB
/// at $1000 banked) and an IRQ every 1024 CPU cycles once armed.
#[derive(Debug, Clone)]
pub struct Mapper168 {
    pub prg_16k_total: usize,
    pub reg: u8,
    pub irq_counter: u16,
    pub irq_pending: bool,
    pub chr_ram: Vec<u8>,
    pub mirroring: Mirroring,
}

impl Mapper168 {
    pub open spec fn wf(&self) -> bool {
        1 <= self.prg_16k_total <= MAX_PRG_16K && self.chr_ram@.len() == 0x10000
    }

    pub open spec fn fresh(self, prg_16k: usize, mirroring: Mirroring) -> bool {
        &&& self.prg_16k_total == max1(prg_16k)
        &&& self.reg == 0 && self.irq_counter == 0 && !self.irq_pending
        &&& self.chr_ram@ == Seq::new(0x10000, |i: int| 0u8)
        &&& self.mirroring == mirroring
    }

    pub fn new(prg_16k: usize, mirroring: Mirroring) -> (r: Self)
        requires prg_16k <= MAX_PRG_16K,
        ensures r.fresh(prg_16k, mirroring), r.wf(),
    {
        Mapper168 {
            prg_16k_total: if prg_16k == 0 { 1 } else { prg_16k },
            reg: 0,
            irq_counter: 0,
            irq_pending: false,
            chr_ram: crate::bytes::zeros(0x10000),
            mirroring,
        }
    }

    /// CHR-RAM byte for a pattern address: $0000-$0FFF fixed to the first
    /// 4 KiB, $1000-$1FFF to the 4 KiB bank in bits 0-3 of the register.
    #[verifier::allow_in_spec]
    pub fn chr_ram_index(&self, addr: u16) -> usize
        returns ((if addr < 0x1000 { 0 } else { self.reg % 16 }) * 0x1000 + addr % 0x1000) as usize,
    {
        let bank: usize = if addr < 0x1000 { 0 } else { (self.reg % 16) as usize };
        bank * 0x1000 + (addr % 0x1000) as usize
    }

    /// $8000 shows the bank in bits 6-7, $C000 the last bank.
    #[verifier::allow_in_spec]
    pub fn prg_index(&self, addr: u16) -> usize
        requires self.wf(),
        returns (((if addr < 0xC000 { (self.reg / 64) as int } else { self.prg_16k_total - 1 }) % (self.prg_16k_total as int))
            * 0x4000 + addr % 0x4000) as usize,
    {
        let bank: usize = if addr < 0xC000 { (self.reg / 64) as usize } else { self.prg_16k_total - 1 };
        (bank % self.prg_16k_total) * 0x4000 + (addr % 0x4000) as usize
    }

    #[verifier::allow_in_spec]
    pub fn chr_index(&self, addr: u16) -> usize
        returns self.chr_ram_index(addr),
    {
        self.chr_ram_index(addr)
    }

    #[verifier::allow_in_spec]
    pub fn chr_read(&self, addr: u16, access: crate::mapper::ChrAccess) -> Option<u8>
        requires self.wf(),
        returns Some(self.chr_ram@[self.chr_ram_index(addr) as int]),
    {
        Some(self.chr_ram[self.chr_ram_index(addr)])
    }

    #[verifier::allow_in_spec]
    pub fn has_chr_read(&self) -> bool
        returns true,
    {
        true
    }

    pub open spec fn claims_chr_write(&self, addr: u16) -> bool {
        true
    }

    pub open spec fn chr_wrote(o: Self, n: Self, addr: u16, value: u8) -> bool {
        &&& n.prg_16k_total == o.prg_16k_total && n.reg == o.reg && n.mirroring == o.mirroring
        &&& n.irq_counter == o.irq_counter && n.irq_pending == o.irq_pending
        &&& n.chr_ram@ == o.chr_ram@.update(o.chr_ram_index(addr) as int, value)
    }

    pub fn chr_write(&mut self, addr: u16, value: u8) -> (r: bool)
        requires old(self).wf(),
        ensures r == old(self).claims_chr_write(addr), Self::chr_wrote(*old(self), *final(self), addr, value), final(self).wf(),
    {
        let index = self.chr_ram_index(addr);
        self.chr_ram.set(index, value);
        true
    }

    /// $8000-$BFFF loads the register; $C000-$FFFF re-arms the IRQ counter
    /// (1024 cycles) and acknowledges a pending IRQ.
    pub open spec fn wrote(o: Self, n: Self, addr: u16, value: u8) -> bool {
        &&& n.prg_16k_total == o.prg_16k_total && n.mirroring == o.mirroring && n.chr_ram@ == o.chr_ram@
        &&& n.reg == if 0x8000 <= addr < 0xC000 { value } else { o.reg }
        &&& n.irq_counter == if addr >= 0xC000 { 1024 } else { o.irq_counter }
        &&& n.irq_pending == if addr >= 0xC000 { false } else { o.irq_pending }
    }

    pub fn write_register(&mut self, addr: u16, value: u8)
        requires old(self).wf(),
        ensures Self::wrote(*old(self), *final(self), addr, value), final(self).wf(),
    {
        if addr >= 0xC000 {
            self.irq_counter = 1024;
            self.irq_pending = false;
        } else if addr >= 0x8000 {
            self.reg = value;
        }
    }

    #[verifier::allow_in_spec]
    pub fn mirroring(&self) -> Mirroring
        returns self.mirroring,
    {
        self.mirroring
    }

    /// The counter counts down (wrapping); reaching zero reloads 1024 and
    /// raises the IRQ.
    pub open spec fn cpu_ticked(o: Self, n: Self) -> bool {
        let c = if o.irq_counter == 0 { 0xFFFFu16 } else { (o.irq_counter - 1) as u16 };
        &&& n.prg_16k_total == o.prg_16k_total && n.mirroring == o.mirroring && n.chr_ram@ == o.chr_ram@
        &&& n.reg == o.reg
        &&& n.irq_counter == if c == 0 { 1024 } else { c }
        &&& n.irq_pending == (o.irq_pending || c == 0)
    }

    pub fn cpu_clock(&mut self)
        requires old(self).wf(),
        ensures Self::cpu_ticked(*old(self), *final(self)), final(self).wf(),
    {
        self.irq_counter = self.irq_counter.wrapping_sub(1);
        if self.irq_counter == 0 {
            self.irq_counter = 1024;
            self.irq_pending = true;
        }
    }

    #[verifier::allow_in_spec]
    pub fn clocks_cpu(&self) -> bool
        returns true,
    {
        true
    }

    #[verifier::allow_in_spec]
    pub fn irq(&self) -> bool
        returns self.irq_pending,
    {
        self.irq_pending
    }

    pub open spec fn irq_cleared(o: Self, n: Self) -> bool {
        &&& n.prg_16k_total == o.prg_16k_total && n.mirroring == o.mirroring && n.chr_ram@ == o.chr_ram@
        &&& n.reg == o.reg && n.irq_counter == o.irq_counter && !n.irq_pending
    }

    pub fn clear_irq(&mut self)
        requires old(self).wf(),
        ensures Self::irq_cleared(*old(self), *final(self)), final(self).wf(),
    {
        self.irq_pending = false;
    }

    /// Reset clears the register and the IRQ state; CHR-RAM survives.
    pub open spec fn was_reset(o: Self, n: Self, soft: bool) -> bool {
        &&& n.prg_16k_total == o.prg_16k_total && n.mirroring == o.mirroring && n.chr_ram@ == o.chr_ram@
        &&& n.reg == 0 && n.irq_counter == 0 && !n.irq_pending
    }

    pub fn reset(&mut self, soft: bool)
        requires old(self).wf(),
        ensures Self::was_reset(*old(self), *final(self), soft), final(self).wf(),
    {
        self.reg = 0;
        self.irq_counter = 0;
        self.irq_pending = false;
    }
}

// ------------------------------------------------------------ Mapper 170

/// A protection latch: writes to `$6502`/`$7000` store bit 6 of the value as
/// bit 7; reads of `$7001`/`$7777` return it over the address high byte.
#[derive(Debug, Clone, Copy)]
pub struct Mapper170 {
    pub reg: u8,
    pub mirroring: Mirroring,
}

impl Mapper170 {
    pub open spec fn wf(&self) -> bool {
        self.reg == 0 || self.reg == 0x80
    }

    pub fn new(mirroring: Mirroring) -> (r: Self)
        ensures r == (Mapper170 { reg: 0, mirroring }), r.wf(),
    {
        Mapper170 { reg: 0, mirroring }
    }

    #[verifier::allow_in_spec]
    pub fn prg_index(&self, addr: u16) -> usize
        requires addr >= 0x8000,
        returns (addr - 0x8000) as usize,
    {
        (addr - 0x8000) as usize
    }

    #[verifier::allow_in_spec]
    pub fn chr_index(&self, addr: u16) -> usize
        returns lo13(addr) as usize,
    {
        chr_off(addr)
    }

    pub open spec fn written(self, addr: u16, value: u8) -> Self {
        self
    }

    pub fn write_register(&mut self, addr: u16, value: u8)
        requires old(self).wf(),
        ensures *final(self) == old(self).written(addr, value), final(self).wf(),
    {
    }

    pub open spec fn claims_low(addr: u16) -> bool {
        addr == 0x6502 || addr == 0x7000
    }

    pub open spec fn low_written(self, addr: u16, value: u8) -> Self {
        if Self::claims_low(addr) { Mapper170 { reg: (((value / 64) % 2) * 0x80) as u8, ..self } } else { self }
    }

    pub fn write_low_register(&mut self, addr: u16, value: u8) -> (r: bool)
        requires old(self).wf(),
        ensures r == Self::claims_low(addr), *final(self) == old(self).low_written(addr, value), final(self).wf(),
    {
        if addr == 0x6502 || addr == 0x7000 {
            self.reg = ((value / 64) % 2) * 0x80;
            true
        } else {
            false
        }
    }

    #[verifier::allow_in_spec]
    pub fn peek_low_register(&self, addr: u16) -> Option<u8>
        requires self.wf(),
        returns if addr == 0x7001 || addr == 0x7777 { Some((self.reg + (addr / 256) % 128) as u8) } else { None },
    {
        if addr == 0x7001 || addr == 0x7777 {
            Some(self.reg + ((addr / 256) % 128) as u8)
        } else {
            None
        }
    }

    #[verifier::allow_in_spec]
    pub fn mirroring(&self) -> Mirroring
        returns self.mirroring,
    {
        self.mirroring
    }

    pub open spec fn after_reset(self, soft: bool) -> Self {
        Mapper170 { reg: 0, ..self }
    }

    pub fn reset(&mut self, soft: bool)
        requires old(self).wf(),
        ensures *final(self) == old(self).after_reset(soft), final(self).wf(),
    {
        self.reg = 0;
    }
}

// ------------------------------------------------------------ Mapper 177

/// Henggedianzi XH-32A: any write loads the 32 KiB bank (bits 0-4) and the
/// mirroring (bit 5: horizontal).
#[derive(Debug, Clone, Copy)]
pub struct Mapper177 {
    pub reg: u8,
}

impl Mapper177 {
    pub fn new() -> (r: Self)
        ensures r.reg == 0,
    {
        Mapper177 { reg: 0 }
    }

    #[verifier::allow_in_spec]
    pub fn prg_index(&self, addr: u16) -> usize
        requires addr >= 0x8000,
        returns ((self.reg % 32) * 0x8000 + (addr - 0x8000)) as usize,
    {
        ((self.reg % 32) as usize) * 0x8000 + (addr - 0x8000) as usize
    }

    #[verifier::allow_in_spec]
    pub fn chr_index(&self, addr: u16) -> usize
        returns lo13(addr) as usize,
    {
        chr_off(addr)
    }

    pub open spec fn written(self, addr: u16, value: u8) -> Self {
        Mapper177 { reg: value }
    }

    pub fn write_register(&mut self, addr: u16, value: u8)
        ensures *final(self) == old(self).written(addr, value),
    {
        self.reg = value;
    }

    #[verifier::allow_in_spec]
    pub fn mirroring(&self) -> Mirroring
        returns if (self.reg / 32) % 2 == 1 { Mirroring::Horizontal } else { Mirroring::Vertical },
    {
        if (self.reg / 32) % 2 == 1 { Mirroring::Horizontal } else { Mirroring::Vertical }
    }

    pub open spec fn after_reset(self, soft: bool) -> Self {
        Mapper177 { reg: 0 }
    }

    pub fn reset(&mut self, soft: bool)
        ensures *final(self) == old(self).after_reset(soft),
    {
        self.reg = 0;
    }
}

/// The 16 KiB page pair a multicart bank selects: the bank twice (NROM-128)
/// or its even/odd pair (NROM-256).
pub open spec fn nrom_pages(bank: usize, single: bool) -> (usize, usize) {
    if single { (bank, bank) } else { ((bank - bank % 2) as usize, (bank - bank % 2 + 1) as usize) }
}

fn nrom_pages_of(bank: usize, single: bool) -> (r: [usize; 2])
    requires bank < 0x1000,
    ensures r@[0] == nrom_pages(bank, single).0, r@[1] == nrom_pages(bank, single).1,
{
    if single { [bank, bank] } else { [bank - bank % 2, bank - bank % 2 + 1] }
}

// ------------------------------------------------------------ Mapper 230

/// 22-in-1: each soft reset toggles between the Contra game (UNROM-like,
/// first 128 KiB) and the menu of NROM games above it.
#[derive(Debug, Clone, Copy)]
pub struct Mapper230 {
    pub prg_pages: [usize; 2],
    pub contra_mode: bool,
    pub mirroring: Mirroring,
}

impl Mapper230 {
    pub open spec fn wf(&self) -> bool {
        self.prg_pages@[0] < 0x40 && self.prg_pages@[1] < 0x40
    }

    pub open spec fn contra(self) -> bool {
        self.contra_mode && self.prg_pages@ == seq![0usize, 7] && self.mirroring == Mirroring::Vertical
    }

    pub fn new() -> (r: Self)
        ensures r.contra(), r.wf(),
    {
        let mut m = Mapper230 { prg_pages: [0usize, 7], contra_mode: false, mirroring: Mirroring::Vertical };
        m.reset(true);
        m
    }

    #[verifier::allow_in_spec]
    pub fn prg_index(&self, addr: u16) -> usize
        requires self.wf(),
        returns (self.prg_pages@[if addr < 0xC000 { 0int } else { 1int }] * 0x4000 + addr % 0x4000) as usize,
    {
        let slot: usize = if addr < 0xC000 { 0 } else { 1 };
        self.prg_pages[slot] * 0x4000 + (addr % 0x4000) as usize
    }

    #[verifier::allow_in_spec]
    pub fn chr_index(&self, addr: u16) -> usize
        returns lo13(addr) as usize,
    {
        chr_off(addr)
    }

    /// In Contra mode a write picks the $8000 bank (bits 0-2); in menu mode
    /// it picks game `8 + bits 0-4`, bit 5 for NROM-128 and bit 6 for
    /// vertical mirroring.
    pub open spec fn wrote(o: Self, n: Self, addr: u16, value: u8) -> bool {
        let bank = (value % 32 + 8) as usize;
        let pages = nrom_pages(bank, (value / 32) % 2 == 1);
        &&& n.contra_mode == o.contra_mode
        &&& if o.contra_mode {
                n.prg_pages@ == o.prg_pages@.update(0, (value % 8) as usize) && n.mirroring == o.mirroring
            } else {
                &&& n.prg_pages@ == seq![pages.0, pages.1]
                &&& n.mirroring == if (value / 64) % 2 == 1 { Mirroring::Vertical } else { Mirroring::Horizontal }
            }
    }

    pub fn write_register(&mut self, addr: u16, value: u8)
        requires old(self).wf(),
        ensures Self::wrote(*old(self), *final(self), addr, value), final(self).wf(),
    {
        if self.contra_mode {
            self.prg_pages[0] = (value % 8) as usize;
        } else {
            let bank = (value % 32) as usize + 8;
            self.prg_pages = nrom_pages_of(bank, (value / 32) % 2 == 1);
            self.mirroring = if (value / 64) % 2 == 1 { Mirroring::Vertical } else { Mirroring::Horizontal };
            proof {
                let pages = nrom_pages(bank, (value / 32) % 2 == 1);
                assert(self.prg_pages@ =~= seq![pages.0, pages.1]);
            }
        }
    }

    #[verifier::allow_in_spec]
    pub fn mirroring(&self) -> Mirroring
        returns self.mirroring,
    {
        self.mirroring
    }

    /// A soft reset toggles the mode and loads its power-on banks; a hard
    /// reset changes nothing.
    pub open spec fn was_reset(o: Self, n: Self, soft: bool) -> bool {
        if soft {
            &&& n.contra_mode == !o.contra_mode
            &&& n.prg_pages@ == if n.contra_mode { seq![0usize, 7] } else { seq![8usize, 9] }
            &&& n.mirroring == if n.contra_mode { Mirroring::Vertical } else { Mirroring::Horizontal }
        } else {
            n == o
        }
    }

    pub fn reset(&mut self, soft: bool)
        ensures Self::was_reset(*old(self), *final(self), soft),
    {
        if soft {
            self.contra_mode = !self.contra_mode;
            if self.contra_mode {
                self.prg_pages = [0usize, 7];
                self.mirroring = Mirroring::Vertical;
            } else {
                self.prg_pages = [8usize, 9];
                self.mirroring = Mirroring::Horizontal;
            }
        }
    }
}

// ------------------------------------------------------------ Mapper 233

/// 42-in-1 with an outer bit (bit 5 of the bank) that each soft reset flips.
#[derive(Debug, Clone, Copy)]
pub struct Mapper233 {
    pub regs: [u8; 2],
    pub reset_bit: u8,
    pub prg_pages: [usize; 2],
    pub mirroring: Mirroring,
}

impl Mapper233 {
    pub open spec fn wf(&self) -> bool {
        self.reset_bit < 2 && self.prg_pages@[0] < 0x80 && self.prg_pages@[1] < 0x80
    }

    /// The 16 KiB bank: register 0 bits 0-4, the reset bit, register 1 bit 0.
    pub open spec fn bank(self) -> usize {
        (self.regs@[0] % 32 + self.reset_bit * 32 + (self.regs@[1] % 2) * 64) as usize
    }

    /// Pages and mirroring follow the registers: bit 5 of register 0 for
    /// NROM-128, bit 6 for vertical mirroring.
    pub open spec fn synced(self) -> bool {
        let pages = nrom_pages(self.bank(), (self.regs@[0] / 32) % 2 == 1);
        &&& self.prg_pages@ == seq![pages.0, pages.1]
        &&& self.mirroring == if (self.regs@[0] / 64) % 2 == 1 { Mirroring::Vertical } else { Mirroring::Horizontal }
    }

    fn update(&mut self)
        requires old(self).reset_bit < 2,
        ensures
            final(self).regs == old(self).regs, final(self).reset_bit == old(self).reset_bit,
            final(self).synced(), final(self).wf(),
    {
        let bank = (self.regs[0] % 32) as usize + (self.reset_bit as usize) * 32 + ((self.regs[1] % 2) as usize) * 64;
        self.prg_pages = nrom_pages_of(bank, (self.regs[0] / 32) % 2 == 1);
        self.mirroring = if (self.regs[0] / 64) % 2 == 1 { Mirroring::Vertical } else { Mirroring::Horizontal };
        proof {
            let pages = nrom_pages(self.bank(), (self.regs@[0] / 32) % 2 == 1);
            assert(bank == self.bank());
            assert(self.prg_pages@ =~= seq![pages.0, pages.1]);
        }
    }

    pub fn new() -> (r: Self)
        ensures r.regs@ == seq![0u8, 0], r.reset_bit == 0, r.synced(), r.wf(),
    {
        let mut m = Mapper233 { regs: [0u8, 0], reset_bit: 0, prg_pages: [0usize, 1], mirroring: Mirroring::Horizontal };
        m.update();
        m
    }

    #[verifier::allow_in_spec]
    pub fn prg_index(&self, addr: u16) -> usize
        requires self.wf(),
        returns (self.prg_pages@[if addr < 0xC000 { 0int } else { 1int }] * 0x4000 + addr % 0x4000) as usize,
    {
        let slot: usize = if addr < 0xC000 { 0 } else { 1 };
        self.prg_pages[slot] * 0x4000 + (addr % 0x4000) as usize
    }

    #[verifier::allow_in_spec]
    pub fn chr_index(&self, addr: u16) -> usize
        returns lo13(addr) as usize,
    {
        chr_off(addr)
    }

    /// `$8000` (even) loads register 0, `$8001` (odd) register 1; the banks
    /// are then recomputed.
    pub open spec fn wrote(o: Self, n: Self, addr: u16, value: u8) -> bool {
        &&& n.reset_bit == o.reset_bit
        &&& n.regs@ == if addr >= 0x8000 { o.regs@.update((addr % 2) as int, value) } else { o.regs@ }
        &&& n.synced()
    }

    pub fn write_register(&mut self, addr: u16, value: u8)
        requires old(self).wf(),
        ensures Self::wrote(*old(self), *final(self), addr, value), final(self).wf(),
    {
        if addr >= 0x8000 {
            if addr % 2 == 0 {
                self.regs[0] = value;
            } else {
                self.regs[1] = value;
            }
        }
        self.update();
    }

    #[verifier::allow_in_spec]
    pub fn mirroring(&self) -> Mirroring
        returns self.mirroring,
    {
        self.mirroring
    }

    /// A soft reset clears the registers and flips the outer bit; a hard
    /// reset clears the outer bit only.
    pub open spec fn was_reset(o: Self, n: Self, soft: bool) -> bool {
        &&& n.regs@ == if soft { seq![0u8, 0] } else { o.regs@ }
        &&& n.reset_bit == if soft { (1 - o.reset_bit) as u8 } else { 0 }
        &&& n.synced()
    }

    pub fn reset(&mut self, soft: bool)
        requires old(self).wf(),
        ensures Self::was_reset(*old(self), *final(self), soft), final(self).wf(),
    {
        if soft {
            self.regs = [0u8, 0];
            self.reset_bit = 1 - self.reset_bit;
        } else {
            self.reset_bit = 0;
        }
        self.update();
    }
}

// --------------------------------------------------------------- Mapper 175

/// Mapper 175: the PRG register written at `$A000` reaches `$8000-$DFFF`
/// only when the CPU reads the reset vector (`$FFFC`); `$E000-$FFFF` follows
/// it at once. `$8000` holds the mirroring bit (bit 2, horizontal).
#[derive(Debug, Clone, Copy)]
pub struct Mapper175 {
    pub reg: u8,
    pub committed_prg: u8,
    pub delay: bool,
    pub mirroring_reg: u8,
}

impl Mapper175 {
    pub fn new() -> (r: Self)
        ensures r == (Mapper175 { reg: 0, committed_prg: 0, delay: false, mirroring_reg: 0 }),
    {
        Mapper175 { reg: 0, committed_prg: 0, delay: false, mirroring_reg: 0 }
    }

    pub open spec fn prg_bank_8k(self, addr: u16) -> int {
        if addr < 0xC000 { self.committed_prg * 2 + ((addr - 0x8000) / 0x2000) }
        else if addr < 0xE000 { self.committed_prg * 2 }
        else { self.reg * 2 + 1 }
    }

    #[verifier::allow_in_spec]
    pub fn prg_index(&self, addr: u16) -> usize
        requires addr >= 0x8000,
        returns (self.prg_bank_8k(addr) * 0x2000 + addr % 0x2000) as usize,
    {
        if addr < 0xC000 {
            (self.committed_prg as usize) * 0x4000 + (addr % 0x4000) as usize
        } else if addr < 0xE000 {
            (self.committed_prg as usize) * 2 * 0x2000 + (addr % 0x2000) as usize
        } else {
            ((self.reg as usize) * 2 + 1) * 0x2000 + (addr % 0x2000) as usize
        }
    }

    #[verifier::allow_in_spec]
    pub fn chr_index(&self, addr: u16) -> usize
        returns ((self.reg % 16) as int * 0x2000 + lo13(addr)) as usize,
    {
        ((self.reg % 16) as usize) * 0x2000 + chr_off(addr)
    }

    pub open spec fn written(self, addr: u16, value: u8) -> Self {
        if addr == 0x8000 { Mapper175 { mirroring_reg: value, delay: true, ..self } }
        else if addr == 0xA000 { Mapper175 { reg: value % 16, delay: true, ..self } }
        else { self }
    }

    pub fn write_register(&mut self, addr: u16, value: u8)
        ensures *final(self) == old(self).written(addr, value),
    {
        if addr == 0x8000 {
            self.mirroring_reg = value;
            self.delay = true;
        } else if addr == 0xA000 {
            self.reg = value % 16;
            self.delay = true;
        }
    }

    /// Reading `$FFFC` commits the PRG register.
    pub open spec fn after_read(self, addr: u16, prg_value: u8, open_bus: u8) -> Self {
        if addr == 0xFFFC { Mapper175 { delay: false, committed_prg: self.reg, ..self } } else { self }
    }

    pub fn read_register_with_open_bus(&mut self, addr: u16, prg_value: u8, open_bus: u8) -> (r: Option<u8>)
        ensures r is None, *final(self) == old(self).after_read(addr, prg_value, open_bus),
    {
        if addr == 0xFFFC {
            self.delay = false;
            self.committed_prg = self.reg;
        }
        None
    }

    #[verifier::allow_in_spec]
    pub fn mirroring(&self) -> Mirroring
        returns if (self.mirroring_reg / 4) % 2 == 1 { Mirroring::Horizontal } else { Mirroring::Vertical },
    {
        if (self.mirroring_reg / 4) % 2 == 1 { Mirroring::Horizontal } else { Mirroring::Vertical }
    }
}

// --------------------------------------------------------------- Mapper 234

/// Maxi 15 (234): two registers latched by reads or writes of
/// `$FF80-$FF9F` (outer; locked once its bits 0-5 are non-zero) and
/// `$FFE8-$FFF8` (inner, bits 0 and 4-6). Bit 6 of the outer register
/// switches the PRG/CHR split; bit 7 selects horizontal mirroring. Writes
/// conflict with the ROM.
#[derive(Debug, Clone, Copy)]
pub struct Mapper234 {
    pub regs: [u8; 2],
}

impl Mapper234 {
    pub fn new() -> (r: Self)
        ensures r.regs@ == seq![0u8, 0],
    {
        Mapper234 { regs: [0u8, 0] }
    }

    pub open spec fn is_register(addr: u16) -> bool {
        (0xFF80 <= addr <= 0xFF9F) || (0xFFE8 <= addr <= 0xFFF8)
    }

    /// The register a latch at `addr` leaves, given its current contents.
    pub open spec fn latched(regs: Seq<u8>, addr: u16, value: u8) -> Seq<u8> {
        if !Self::is_register(addr) { regs }
        else if addr <= 0xFF9F { if regs[0] % 64 == 0 { regs.update(0, value) } else { regs } }
        else { regs.update(1, (value % 2 + ((value / 16) % 8) * 16) as u8) }
    }

    fn latch(&mut self, addr: u16, value: u8)
        ensures final(self).regs@ == Self::latched(old(self).regs@, addr, value),
    {
        if (0xFF80 <= addr && addr <= 0xFF9F) || (0xFFE8 <= addr && addr <= 0xFFF8) {
            if addr <= 0xFF9F {
                if self.regs[0] % 64 == 0 {
                    self.regs[0] = value;
                }
            } else {
                self.regs[1] = value % 2 + ((value / 16) % 8) * 16;
            }
        }
    }

    pub open spec fn prg_bank(self) -> int {
        let r0 = self.regs@[0] as int;
        let r1 = self.regs@[1] as int;
        if (r0 / 64) % 2 == 1 { r0 % 16 - r0 % 2 + r1 % 2 } else { r0 % 16 }
    }

    pub open spec fn chr_bank(self) -> int {
        let r0 = self.regs@[0] as int;
        let r1 = self.regs@[1] as int;
        if (r0 / 64) % 2 == 1 { ((r0 / 2) % 8) * 8 + (r1 / 16) % 8 } else { (r0 % 16) * 4 + (r1 / 16) % 4 }
    }

    #[verifier::allow_in_spec]
    pub fn prg_index(&self, addr: u16) -> usize
        requires addr >= 0x8000,
        returns (self.prg_bank() * 0x8000 + (addr - 0x8000)) as usize,
    {
        let r0 = self.regs[0] as usize;
        let r1 = self.regs[1] as usize;
        let bank = if (r0 / 64) % 2 == 1 { r0 % 16 - r0 % 2 + r1 % 2 } else { r0 % 16 };
        bank * 0x8000 + (addr - 0x8000) as usize
    }

    #[verifier::allow_in_spec]
    pub fn chr_index(&self, addr: u16) -> usize
        returns (self.chr_bank() * 0x2000 + lo13(addr)) as usize,
    {
        let r0 = self.regs[0] as usize;
        let r1 = self.regs[1] as usize;
        let bank = if (r0 / 64) % 2 == 1 { ((r0 / 2) % 8) * 8 + (r1 / 16) % 8 } else { (r0 % 16) * 4 + (r1 / 16) % 4 };
        bank * 0x2000 + chr_off(addr)
    }

    pub open spec fn wrote(o: Self, n: Self, addr: u16, value: u8) -> bool {
        n.regs@ == Self::latched(o.regs@, addr, value)
    }

    pub fn write_register(&mut self, addr: u16, value: u8)
        ensures Self::wrote(*old(self), *final(self), addr, value),
    {
        self.latch(addr, value);
    }

    /// A read of a register address latches the ROM byte seen there.
    pub open spec fn register_read(o: Self, n: Self, addr: u16, prg_value: u8, open_bus: u8) -> bool {
        n.regs@ == Self::latched(o.regs@, addr, prg_value)
    }

    pub fn read_register_with_open_bus(&mut self, addr: u16, prg_value: u8, open_bus: u8) -> (r: Option<u8>)
        ensures r == old(self).peek_register_with_open_bus(addr, prg_value, open_bus),
            Self::register_read(*old(self), *final(self), addr, prg_value, open_bus),
    {
        let r = self.peek_register_with_open_bus(addr, prg_value, open_bus);
        self.latch(addr, prg_value);
        r
    }

    #[verifier::allow_in_spec]
    pub fn peek_register_with_open_bus(&self, addr: u16, prg_value: u8, open_bus: u8) -> Option<u8>
        returns if Self::is_register(addr) { Some(prg_value) } else { None },
    {
        if (0xFF80 <= addr && addr <= 0xFF9F) || (0xFFE8 <= addr && addr <= 0xFFF8) { Some(prg_value) } else { None }
    }

    #[verifier::allow_in_spec]
    pub fn has_bus_conflicts(&self) -> bool
        returns true,
    {
        true
    }

    #[verifier::allow_in_spec]
    pub fn mirroring(&self) -> Mirroring
        returns if self.regs@[0] >= 0x80 { Mirroring::Horizontal } else { Mirroring::Vertical },
    {
        if self.regs[0] >= 0x80 { Mirroring::Horizontal } else { Mirroring::Vertical }
    }
}

} // verus!
