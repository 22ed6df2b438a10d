//! Data-latch discrete boards: a write to the cartridge space (or a low
//! register) latches bank numbers that the address decoders read.

use vstd::prelude::*;

verus! {

use crate::mapper::{at_least_one, max1, MAX_PRG_16K};
use crate::types::Mirroring;

pub open spec fn lo13(addr: u16) -> int {
    (addr % 0x2000) as int
}

pub fn chr_off(addr: u16) -> (r: usize)
    ensures r == addr % 0x2000, r < 0x2000,
{
    ((addr % 0x2000)) as usize
}

pub fn off_16k(addr: u16) -> (r: usize)
    ensures r == addr % 0x4000, r < 0x4000,
{
    ((addr % 0x4000)) as usize
}

pub fn off_4k(addr: u16) -> (r: usize)
    ensures r == addr % 0x1000, r < 0x1000,
{
    ((addr % 0x1000)) as usize
}

// --------------------------------------------------------------- Mapper 13

/// Mapper 13 — CPROM: fixed 32 KiB PRG; CHR-RAM $0000 fixed, $1000 bank
/// from data bits 0-1.
#[derive(Debug, Clone, Copy)]
pub struct Cprom {
    pub chr_bank: usize,
}

impl Cprom {
    pub open spec fn wf(&self) -> bool { self.chr_bank < 4 }

    pub fn new() -> (r: Self)
        ensures r == (Cprom { chr_bank: 0 }), r.wf(),
    {
        Cprom { chr_bank: 0 }
    }

    #[verifier::allow_in_spec]
    pub fn prg_index(&self, addr: u16) -> usize
        requires addr >= 0x8000,
        returns (addr - 0x8000) as usize,
    {
        (addr - 0x8000) as usize
    }

    #[verifier::allow_in_spec]
    pub fn chr_index(&self, addr: u16) -> usize
        requires self.wf(),
        returns (if lo13(addr) < 0x1000 { lo13(addr) } else { self.chr_bank * 0x1000 + (lo13(addr) - 0x1000) }) as usize,
    {
        let a = chr_off(addr);
        if a < 0x1000 { a } else { self.chr_bank * 0x1000 + (a - 0x1000) }
    }

    pub open spec fn written(self, addr: u16, value: u8) -> Self {
        Cprom { chr_bank: (value % 4) as usize }
    }

    pub fn write_register(&mut self, addr: u16, value: u8)
        ensures *final(self) == old(self).written(addr, value), final(self).wf(),
    {
        self.chr_bank = ((value % 4)) as usize;
    }

    #[verifier::allow_in_spec]
    pub fn mirroring(&self) -> Mirroring
        returns Mirroring::Vertical,
    {
        Mirroring::Vertical
    }
}

// ----------------------------------------------------------- Mapper 70/152

/// Mapper 70/152 — Bandai 74161/7432: 16 KiB PRG from bits 4-6, 8 KiB CHR
/// from bits 0-3; bit 7 selects the single-screen page once mirroring
/// control is enabled (a set bit 7 enables it).
#[derive(Debug, Clone, Copy)]
pub struct Bandai74161 {
    pub prg_16k: usize,
    pub prg_bank: usize,
    pub chr_bank: usize,
    pub enable_mirroring_control: bool,
    pub mirroring: Mirroring,
}

impl Bandai74161 {
    pub open spec fn wf(&self) -> bool {
        1 <= self.prg_16k <= MAX_PRG_16K && self.prg_bank < 8 && self.chr_bank < 16
    }

    pub fn new(prg_16k: usize, enable_mirroring_control: bool) -> (r: Self)
        requires prg_16k <= MAX_PRG_16K,
        ensures
            r == (Bandai74161 { prg_16k: max1(prg_16k), prg_bank: 0, chr_bank: 0, enable_mirroring_control, mirroring: Mirroring::Vertical }),
            r.wf(),
    {
        Bandai74161 { prg_16k: at_least_one(prg_16k), prg_bank: 0, chr_bank: 0, enable_mirroring_control, mirroring: Mirroring::Vertical }
    }

    #[verifier::allow_in_spec]
    pub fn prg_index(&self, addr: u16) -> usize
        requires self.wf(), addr >= 0x8000,
        returns (if addr < 0xC000 { self.prg_bank * 0x4000 + (addr - 0x8000) } else { (self.prg_16k - 1) * 0x4000 + (addr - 0xC000) }) as usize,
    {
        if addr < 0xC000 {
            self.prg_bank * 0x4000 + (addr - 0x8000) as usize
        } else {
            (self.prg_16k - 1) * 0x4000 + (addr - 0xC000) as usize
        }
    }

    #[verifier::allow_in_spec]
    pub fn chr_index(&self, addr: u16) -> usize
        requires self.wf(),
        returns (self.chr_bank * 0x2000 + lo13(addr)) as usize,
    {
        self.chr_bank * 0x2000 + chr_off(addr)
    }

    pub open spec fn written(self, addr: u16, value: u8) -> Self {
        let bit7 = value >= 0x80;
        let enabled = self.enable_mirroring_control || bit7;
        Bandai74161 {
            enable_mirroring_control: enabled,
            mirroring: if enabled { if bit7 { Mirroring::SingleScreenHigh } else { Mirroring::SingleScreenLow } } else { self.mirroring },
            prg_bank: ((value / 16) % 8) as usize,
            chr_bank: (value % 16) as usize,
            ..self
        }
    }

    pub fn write_register(&mut self, addr: u16, value: u8)
        requires old(self).wf(),
        ensures *final(self) == old(self).written(addr, value), final(self).wf(),
    {
        let mirroring_bit = value >= 0x80;
        if mirroring_bit {
            self.enable_mirroring_control = true;
        }
        if self.enable_mirroring_control {
            self.mirroring = if mirroring_bit { Mirroring::SingleScreenHigh } else { Mirroring::SingleScreenLow };
        }
        self.prg_bank = (((value / 16) % 8)) as usize;
        self.chr_bank = ((value % 16)) as usize;
    }

    #[verifier::allow_in_spec]
    pub fn mirroring(&self) -> Mirroring
        returns self.mirroring,
    {
        self.mirroring
    }
}

// --------------------------------------------------------------- Mapper 36

/// Mapper 36 — TXC simplified: the latch's high nibble selects 32 KiB PRG,
/// the low nibble 8 KiB CHR; $4100 reads the latch back; bus conflicts.
#[derive(Debug, Clone, Copy)]
pub struct Mapper36 {
    pub latch: u8,
    pub mirroring: Mirroring,
}

impl Mapper36 {
    pub fn new() -> (r: Self)
        ensures r == (Mapper36 { latch: 0, mirroring: Mirroring::Vertical }),
    {
        Mapper36 { latch: 0, mirroring: Mirroring::Vertical }
    }

    #[verifier::allow_in_spec]
    pub fn prg_index(&self, addr: u16) -> usize
        requires addr >= 0x8000,
        returns ((self.latch / 16) * 0x8000 + (addr - 0x8000)) as usize,
    {
        let l = self.latch;
        (((l / 16)) as usize) * 0x8000 + (addr - 0x8000) as usize
    }

    #[verifier::allow_in_spec]
    pub fn chr_index(&self, addr: u16) -> usize
        returns ((self.latch % 16) * 0x2000 + lo13(addr)) as usize,
    {
        let l = self.latch;
        (((l % 16)) as usize) * 0x2000 + chr_off(addr)
    }

    pub open spec fn written(self, addr: u16, value: u8) -> Self {
        let sel = (addr / 0x1000) % 8;
        Mapper36 {
            latch: value,
            mirroring: if sel == 0 { Mirroring::Vertical } else if sel == 4 { Mirroring::Horizontal } else { self.mirroring },
        }
    }

    pub fn write_register(&mut self, addr: u16, value: u8)
        ensures *final(self) == old(self).written(addr, value),
    {
        let sel = (addr / 0x1000) % 8;
        if sel == 0 {
            self.mirroring = Mirroring::Vertical;
        } else if sel == 4 {
            self.mirroring = Mirroring::Horizontal;
        }
        self.latch = value;
    }

    #[verifier::allow_in_spec]
    pub fn peek_expansion(&self, addr: u16) -> Option<u8>
        returns if addr == 0x4100 { Some(self.latch) } else { None },
    {
        if addr == 0x4100 { Some(self.latch) } else { None }
    }

    pub fn read_expansion(&mut self, addr: u16) -> (r: Option<u8>)
        ensures r == old(self).peek_expansion(addr), *final(self) == *old(self),
    {
        self.peek_expansion(addr)
    }

    #[verifier::allow_in_spec]
    pub fn has_bus_conflicts(&self) -> bool
        returns true,
    {
        true
    }

    #[verifier::allow_in_spec]
    pub fn mirroring(&self) -> Mirroring
        returns self.mirroring,
    {
        self.mirroring
    }
}

// --------------------------------------------------------------- Mapper 81

/// Mapper 81 — NTDEC N715062: address bits 2-3 select 16 KiB PRG, data
/// bits 0-1 select 8 KiB CHR.
#[derive(Debug, Clone, Copy)]
pub struct Mapper81 {
    pub prg_16k: usize,
    pub addr_latch: u16,
    pub data_latch: u8,
}

impl Mapper81 {
    pub open spec fn wf(&self) -> bool { 1 <= self.prg_16k <= MAX_PRG_16K }

    pub fn new(prg_16k: usize) -> (r: Self)
        requires prg_16k <= MAX_PRG_16K,
        ensures r == (Mapper81 { prg_16k: max1(prg_16k), addr_latch: 0, data_latch: 0 }), r.wf(),
    {
        Mapper81 { prg_16k: at_least_one(prg_16k), addr_latch: 0, data_latch: 0 }
    }

    #[verifier::allow_in_spec]
    pub fn prg_index(&self, addr: u16) -> usize
        requires self.wf(),
        returns ((if addr < 0xC000 { ((self.addr_latch / 4) % 4) as int } else { self.prg_16k - 1 }) * 0x4000 + addr % 0x4000) as usize,
    {
        let l = self.addr_latch;
        let bank = if addr < 0xC000 { (((l / 4) % 4)) as usize } else { self.prg_16k - 1 };
        bank * 0x4000 + off_16k(addr)
    }

    #[verifier::allow_in_spec]
    pub fn chr_index(&self, addr: u16) -> usize
        returns ((self.data_latch % 4) * 0x2000 + lo13(addr)) as usize,
    {
        let d = self.data_latch;
        (((d % 4)) as usize) * 0x2000 + chr_off(addr)
    }

    pub open spec fn written(self, addr: u16, value: u8) -> Self {
        Mapper81 { addr_latch: addr, data_latch: value, ..self }
    }

    pub fn write_register(&mut self, addr: u16, value: u8)
        ensures *final(self) == old(self).written(addr, value),
    {
        self.addr_latch = addr;
        self.data_latch = value;
    }

    #[verifier::allow_in_spec]
    pub fn mirroring(&self) -> Mirroring
        returns Mirroring::Vertical,
    {
        Mirroring::Vertical
    }
}

// ---------------------------------------------------------------- Mapper 8

/// Mapper 8 — FFE-style: latch bits 3-7 select the 16 KiB bank at $8000
/// ($C000 shows bank 1), bits 0-1 select 8 KiB CHR.
#[derive(Debug, Clone, Copy)]
pub struct Mapper8 {
    pub latch: u8,
}

impl Mapper8 {
    pub fn new() -> (r: Self)
        ensures r == (Mapper8 { latch: 0 }),
    {
        Mapper8 { latch: 0 }
    }

    #[verifier::allow_in_spec]
    pub fn prg_index(&self, addr: u16) -> usize
        returns ((if addr < 0xC000 { (self.latch / 8) as int } else { 1 }) * 0x4000 + addr % 0x4000) as usize,
    {
        let l = self.latch;
        let bank = if addr < 0xC000 { ((l / 8)) as usize } else { 1 };
        bank * 0x4000 + off_16k(addr)
    }

    #[verifier::allow_in_spec]
    pub fn chr_index(&self, addr: u16) -> usize
        returns ((self.latch % 4) * 0x2000 + lo13(addr)) as usize,
    {
        let l = self.latch;
        (((l % 4)) as usize) * 0x2000 + chr_off(addr)
    }

    pub open spec fn written(self, addr: u16, value: u8) -> Self {
        Mapper8 { latch: value }
    }

    pub fn write_register(&mut self, addr: u16, value: u8)
        ensures *final(self) == old(self).written(addr, value),
    {
        self.latch = value;
    }

    #[verifier::allow_in_spec]
    pub fn mirroring(&self) -> Mirroring
        returns Mirroring::Vertical,
    {
        Mirroring::Vertical
    }
}

// --------------------------------------------------------------- Mapper 99

/// Mapper 99 — VS UniSystem: the $4016 strobe write latches bit 2, which
/// selects both the first 8 KiB PRG slot (bank 0 or 4) and the CHR bank.
#[derive(Debug, Clone, Copy)]
pub struct Mapper99 {
    pub latch: u8,
    pub mirroring: Mirroring,
}

impl Mapper99 {
    pub fn new(mirroring: Mirroring) -> (r: Self)
        ensures r == (Mapper99 { latch: 0, mirroring }),
    {
        Mapper99 { latch: 0, mirroring }
    }

    #[verifier::allow_in_spec]
    pub fn prg_index(&self, addr: u16) -> usize
        requires addr >= 0x8000,
        returns ((if (addr - 0x8000) / 0x2000 == 0 { ((self.latch / 4) % 2) * 4 } else { (addr - 0x8000) / 0x2000 }) * 0x2000 + lo13(addr)) as usize,
    {
        let slot = ((addr - 0x8000) / 0x2000) as usize;
        let l = self.latch;
        let bank = if slot == 0 { (((l / 4) % 2) * 4) as usize } else { slot };
        bank * 0x2000 + chr_off(addr)
    }

    #[verifier::allow_in_spec]
    pub fn chr_index(&self, addr: u16) -> usize
        returns (((self.latch / 4) % 2) * 0x2000 + lo13(addr)) as usize,
    {
        let l = self.latch;
        ((((l / 4) % 2)) as usize) * 0x2000 + chr_off(addr)
    }

    pub open spec fn written(self, addr: u16, value: u8) -> Self {
        self
    }

    pub fn write_register(&mut self, addr: u16, value: u8)
        ensures *final(self) == old(self).written(addr, value),
    {
    }

    /// The controller strobe write doubles as the bank latch.
    pub fn write_controller_strobe(&mut self, value: u8) -> (r: bool)
        ensures r, *final(self) == (Mapper99 { latch: value, ..*old(self) }),
    {
        self.latch = value;
        true
    }

    pub open spec fn after_reset(self, soft: bool) -> Self {
        Mapper99 { latch: 0, ..self }
    }

    pub fn reset(&mut self, soft: bool)
        ensures *final(self) == old(self).after_reset(soft),
    {
        self.latch = 0;
    }

    #[verifier::allow_in_spec]
    pub fn mirroring(&self) -> Mirroring
        returns self.mirroring,
    {
        self.mirroring
    }
}

// --------------------------------------------------------------- Mapper 29

/// Mapper 29 — Sealie Computing: latch bits 2-4 select 16 KiB PRG at
/// $8000 (last bank fixed), bits 0-1 select 8 KiB CHR-RAM.
#[derive(Debug, Clone, Copy)]
pub struct Mapper29 {
    pub prg_16k: usize,
    pub latch: u8,
}

impl Mapper29 {
    pub open spec fn wf(&self) -> bool { 1 <= self.prg_16k <= MAX_PRG_16K }

    pub fn new(prg_16k: usize) -> (r: Self)
        requires prg_16k <= MAX_PRG_16K,
        ensures r == (Mapper29 { prg_16k: max1(prg_16k), latch: 0 }), r.wf(),
    {
        Mapper29 { prg_16k: at_least_one(prg_16k), latch: 0 }
    }

    #[verifier::allow_in_spec]
    pub fn prg_index(&self, addr: u16) -> usize
        requires self.wf(),
        returns ((if addr < 0xC000 { ((self.latch / 4) % 8) as int } else { self.prg_16k - 1 }) * 0x4000 + addr % 0x4000) as usize,
    {
        let l = self.latch;
        let bank = if addr < 0xC000 { (((l / 4) % 8)) as usize } else { self.prg_16k - 1 };
        bank * 0x4000 + off_16k(addr)
    }

    #[verifier::allow_in_spec]
    pub fn chr_index(&self, addr: u16) -> usize
        returns ((self.latch % 4) * 0x2000 + lo13(addr)) as usize,
    {
        let l = self.latch;
        (((l % 4)) as usize) * 0x2000 + chr_off(addr)
    }

    pub open spec fn written(self, addr: u16, value: u8) -> Self {
        Mapper29 { latch: value, ..self }
    }

    pub fn write_register(&mut self, addr: u16, value: u8)
        ensures *final(self) == old(self).written(addr, value),
    {
        self.latch = value;
    }

    #[verifier::allow_in_spec]
    pub fn mirroring(&self) -> Mirroring
        returns Mirroring::Vertical,
    {
        Mirroring::Vertical
    }
}

// --------------------------------------------------------------- Mapper 38

/// Mapper 38 — UNL-PCI-556: bits 0-1 select 32 KiB PRG and bits 2-3 8 KiB
/// CHR, written through $7000-$7FFF or the cartridge space.
#[derive(Debug, Clone, Copy)]
pub struct UnlPci556 {
    pub prg_bank: usize,
    pub chr_bank: usize,
    pub mirroring: Mirroring,
}

impl UnlPci556 {
    pub open spec fn wf(&self) -> bool { self.prg_bank < 4 && self.chr_bank < 4 }

    pub fn new(mirroring: Mirroring) -> (r: Self)
        ensures r == (UnlPci556 { prg_bank: 0, chr_bank: 0, mirroring }), r.wf(),
    {
        UnlPci556 { prg_bank: 0, chr_bank: 0, mirroring }
    }

    pub open spec fn banked(self, value: u8) -> Self {
        UnlPci556 { prg_bank: (value % 4) as usize, chr_bank: ((value / 4) % 4) as usize, ..self }
    }

    pub fn set_bank(&mut self, value: u8)
        ensures *final(self) == old(self).banked(value), final(self).wf(),
    {
        self.prg_bank = ((value % 4)) as usize;
        self.chr_bank = (((value / 4) % 4)) as usize;
    }

    #[verifier::allow_in_spec]
    pub fn prg_index(&self, addr: u16) -> usize
        requires self.wf(), addr >= 0x8000,
        returns (self.prg_bank * 0x8000 + (addr - 0x8000)) as usize,
    {
        self.prg_bank * 0x8000 + (addr - 0x8000) as usize
    }

    #[verifier::allow_in_spec]
    pub fn chr_index(&self, addr: u16) -> usize
        requires self.wf(),
        returns (self.chr_bank * 0x2000 + lo13(addr)) as usize,
    {
        self.chr_bank * 0x2000 + chr_off(addr)
    }

    pub open spec fn written(self, addr: u16, value: u8) -> Self {
        self.banked(value)
    }

    pub fn write_register(&mut self, addr: u16, value: u8)
        ensures *final(self) == old(self).written(addr, value), final(self).wf(),
    {
        self.set_bank(value);
    }

    pub open spec fn claims_low(addr: u16) -> bool {
        0x7000 <= addr <= 0x7FFF
    }

    pub open spec fn low_written(self, addr: u16, value: u8) -> Self {
        if Self::claims_low(addr) { self.banked(value) } else { self }
    }

    pub fn write_low_register(&mut self, addr: u16, value: u8) -> (r: bool)
        requires old(self).wf(),
        ensures r == Self::claims_low(addr), *final(self) == old(self).low_written(addr, value), final(self).wf(),
    {
        if 0x7000 <= addr && addr <= 0x7FFF {
            self.set_bank(value);
            true
        } else {
            false
        }
    }

    #[verifier::allow_in_spec]
    pub fn mirroring(&self) -> Mirroring
        returns self.mirroring,
    {
        self.mirroring
    }
}

// --------------------------------------------------------------- Mapper 72

/// Mapper 72 — Jaleco JF-17/19: bit 7 latches a 16 KiB PRG bank, bit 6 an
/// 8 KiB CHR bank, both from bits 0-3.
#[derive(Debug, Clone, Copy)]
pub struct Mapper72 {
    pub prg_16k: usize,
    pub prg_bank: usize,
    pub chr_bank: usize,
    pub mirroring: Mirroring,
}

impl Mapper72 {
    pub open spec fn wf(&self) -> bool {
        1 <= self.prg_16k <= MAX_PRG_16K && self.prg_bank < 16 && self.chr_bank < 16
    }

    pub fn new(prg_16k: usize, mirroring: Mirroring) -> (r: Self)
        requires prg_16k <= MAX_PRG_16K,
        ensures r == (Mapper72 { prg_16k: max1(prg_16k), prg_bank: 0, chr_bank: 0, mirroring }), r.wf(),
    {
        Mapper72 { prg_16k: at_least_one(prg_16k), prg_bank: 0, chr_bank: 0, mirroring }
    }

    #[verifier::allow_in_spec]
    pub fn prg_index(&self, addr: u16) -> usize
        requires self.wf(), addr >= 0x8000,
        returns (if addr < 0xC000 { self.prg_bank * 0x4000 + (addr - 0x8000) } else { (self.prg_16k - 1) * 0x4000 + (addr - 0xC000) }) as usize,
    {
        if addr < 0xC000 {
            self.prg_bank * 0x4000 + (addr - 0x8000) as usize
        } else {
            (self.prg_16k - 1) * 0x4000 + (addr - 0xC000) as usize
        }
    }

    #[verifier::allow_in_spec]
    pub fn chr_index(&self, addr: u16) -> usize
        requires self.wf(),
        returns (self.chr_bank * 0x2000 + lo13(addr)) as usize,
    {
        self.chr_bank * 0x2000 + chr_off(addr)
    }

    pub open spec fn written(self, addr: u16, value: u8) -> Self {
        Mapper72 {
            prg_bank: if value >= 0x80 { (value % 16) as usize } else { self.prg_bank },
            chr_bank: if (value / 64) % 2 == 1 { (value % 16) as usize } else { self.chr_bank },
            ..self
        }
    }

    pub fn write_register(&mut self, addr: u16, value: u8)
        requires old(self).wf(),
        ensures *final(self) == old(self).written(addr, value), final(self).wf(),
    {
        if (value >= 0x80) {
            self.prg_bank = ((value % 16)) as usize;
        }
        if ((value / 64) % 2 == 1) {
            self.chr_bank = ((value % 16)) as usize;
        }
    }

    pub open spec fn claims_low(addr: u16) -> bool {
        0x6000 <= addr <= 0x7FFF
    }

    pub open spec fn low_written(self, addr: u16, value: u8) -> Self {
        if Self::claims_low(addr) { self.written(addr, value) } else { self }
    }

    pub fn write_low_register(&mut self, addr: u16, value: u8) -> (r: bool)
        requires old(self).wf(),
        ensures r == Self::claims_low(addr), *final(self) == old(self).low_written(addr, value), final(self).wf(),
    {
        if 0x6000 <= addr && addr <= 0x7FFF {
            self.write_register(addr, value);
            true
        } else {
            false
        }
    }

    #[verifier::allow_in_spec]
    pub fn mirroring(&self) -> Mirroring
        returns self.mirroring,
    {
        self.mirroring
    }
}

// -------------------------------------------------------------- Mapper 122

/// Mapper 122 — fixed 32 KiB PRG with two independent 4 KiB CHR banks,
/// selected by address bit 0 of the write.
#[derive(Debug, Clone, Copy)]
pub struct Mapper122 {
    pub chr_bank0: usize,
    pub chr_bank1: usize,
    pub mirroring: Mirroring,
}

impl Mapper122 {
    pub open spec fn wf(&self) -> bool { self.chr_bank0 < 256 && self.chr_bank1 < 256 }

    pub fn new(mirroring: Mirroring) -> (r: Self)
        ensures r == (Mapper122 { chr_bank0: 0, chr_bank1: 0, mirroring }), r.wf(),
    {
        Mapper122 { chr_bank0: 0, chr_bank1: 0, mirroring }
    }

    #[verifier::allow_in_spec]
    pub fn prg_index(&self, addr: u16) -> usize
        requires addr >= 0x8000,
        returns ((addr - 0x8000) % 0x8000) as usize,
    {
        let off = addr - 0x8000;
        ((off % 0x8000)) as usize
    }

    #[verifier::allow_in_spec]
    pub fn chr_index(&self, addr: u16) -> usize
        requires self.wf(),
        returns ((if (addr / 0x1000) % 2 == 0 { self.chr_bank0 } else { self.chr_bank1 }) * 0x1000 + addr % 0x1000) as usize,
    {
        let bank = if ((addr / 0x1000) % 2) == 0 { self.chr_bank0 } else { self.chr_bank1 };
        bank * 0x1000 + off_4k(addr)
    }

    pub open spec fn written(self, addr: u16, value: u8) -> Self {
        if addr % 2 == 0 { Mapper122 { chr_bank0: value as usize, ..self } } else { Mapper122 { chr_bank1: value as usize, ..self } }
    }

    pub fn write_register(&mut self, addr: u16, value: u8)
        requires old(self).wf(),
        ensures *final(self) == old(self).written(addr, value), final(self).wf(),
    {
        if (addr % 2) == 0 {
            self.chr_bank0 = value as usize;
        } else {
            self.chr_bank1 = value as usize;
        }
    }

    #[verifier::allow_in_spec]
    pub fn mirroring(&self) -> Mirroring
        returns self.mirroring,
    {
        self.mirroring
    }
}

// --------------------------------------------------------------- Mapper 79

/// Mapper 79 — NINA-003/006: bit 3 selects 32 KiB PRG, bits 0-2 8 KiB CHR;
/// written at $4100-$5FFF when address bit 8 is set, or in cartridge space.
#[derive(Debug, Clone, Copy)]
pub struct Mapper79 {
    pub prg_bank: usize,
    pub chr_bank: usize,
    pub mirroring: Mirroring,
}

impl Mapper79 {
    pub open spec fn wf(&self) -> bool { self.prg_bank < 2 && self.chr_bank < 8 }

    pub fn new(mirroring: Mirroring) -> (r: Self)
        ensures r == (Mapper79 { prg_bank: 0, chr_bank: 0, mirroring }), r.wf(),
    {
        Mapper79 { prg_bank: 0, chr_bank: 0, mirroring }
    }

    pub open spec fn banked(self, value: u8) -> Self {
        Mapper79 { prg_bank: ((value / 8) % 2) as usize, chr_bank: (value % 8) as usize, ..self }
    }

    pub fn set_bank(&mut self, value: u8)
        ensures *final(self) == old(self).banked(value), final(self).wf(),
    {
        self.prg_bank = (((value / 8) % 2)) as usize;
        self.chr_bank = ((value % 8)) as usize;
    }

    #[verifier::allow_in_spec]
    pub fn prg_index(&self, addr: u16) -> usize
        requires self.wf(), addr >= 0x8000,
        returns (self.prg_bank * 0x8000 + (addr - 0x8000)) as usize,
    {
        self.prg_bank * 0x8000 + (addr - 0x8000) as usize
    }

    #[verifier::allow_in_spec]
    pub fn chr_index(&self, addr: u16) -> usize
        requires self.wf(),
        returns (self.chr_bank * 0x2000 + lo13(addr)) as usize,
    {
        self.chr_bank * 0x2000 + chr_off(addr)
    }

    pub open spec fn written(self, addr: u16, value: u8) -> Self {
        self.banked(value)
    }

    pub fn write_register(&mut self, addr: u16, value: u8)
        ensures *final(self) == old(self).written(addr, value), final(self).wf(),
    {
        self.set_bank(value);
    }

    pub open spec fn expansion_written(self, addr: u16, value: u8) -> Self {
        if 0x4100 <= addr <= 0x5FFF && (addr / 0x100) % 2 == 1 { self.banked(value) } else { self }
    }

    pub fn write_expansion(&mut self, addr: u16, value: u8)
        requires old(self).wf(),
        ensures *final(self) == old(self).expansion_written(addr, value), final(self).wf(),
    {
        if 0x4100 <= addr && addr <= 0x5FFF && ((addr / 0x100) % 2 == 1) {
            self.set_bank(value);
        }
    }

    #[verifier::allow_in_spec]
    pub fn mirroring(&self) -> Mirroring
        returns self.mirroring,
    {
        self.mirroring
    }
}

// -------------------------------------------------------------- Mapper 107

/// Mapper 107 — Magic Dragon: 32 KiB PRG from bits 1-7, 8 KiB CHR from
/// the whole byte.
#[derive(Debug, Clone, Copy)]
pub struct Mapper107 {
    pub prg_bank: usize,
    pub chr_bank: usize,
    pub mirroring: Mirroring,
}

impl Mapper107 {
    pub open spec fn wf(&self) -> bool { self.prg_bank < 256 && self.chr_bank < 256 }

    pub fn new(mirroring: Mirroring) -> (r: Self)
        ensures r == (Mapper107 { prg_bank: 0, chr_bank: 0, mirroring }), r.wf(),
    {
        Mapper107 { prg_bank: 0, chr_bank: 0, mirroring }
    }

    #[verifier::allow_in_spec]
    pub fn prg_index(&self, addr: u16) -> usize
        requires self.wf(), addr >= 0x8000,
        returns (self.prg_bank * 0x8000 + (addr - 0x8000)) as usize,
    {
        self.prg_bank * 0x8000 + (addr - 0x8000) as usize
    }

    #[verifier::allow_in_spec]
    pub fn chr_index(&self, addr: u16) -> usize
        requires self.wf(),
        returns (self.chr_bank * 0x2000 + lo13(addr)) as usize,
    {
        self.chr_bank * 0x2000 + chr_off(addr)
    }

    pub open spec fn written(self, addr: u16, value: u8) -> Self {
        Mapper107 { prg_bank: (value / 2) as usize, chr_bank: value as usize, ..self }
    }

    pub fn write_register(&mut self, addr: u16, value: u8)
        ensures *final(self) == old(self).written(addr, value), final(self).wf(),
    {
        self.prg_bank = (value / 2) as usize;
        self.chr_bank = value as usize;
    }

    #[verifier::allow_in_spec]
    pub fn mirroring(&self) -> Mirroring
        returns self.mirroring,
    {
        self.mirroring
    }
}

// --------------------------------------------------------------- Mapper 92

/// Mapper 92 — Jaleco JF-19: first 16 KiB fixed, $C000 bank latched by
/// bit 7, CHR bank latched by bit 6 (both from bits 0-3).
#[derive(Debug, Clone, Copy)]
pub struct Mapper92 {
    pub prg_bank: usize,
    pub chr_bank: usize,
    pub mirroring: Mirroring,
}

impl Mapper92 {
    pub open spec fn wf(&self) -> bool { self.prg_bank < 16 && self.chr_bank < 16 }

    pub fn new(mirroring: Mirroring) -> (r: Self)
        ensures r == (Mapper92 { prg_bank: 0, chr_bank: 0, mirroring }), r.wf(),
    {
        Mapper92 { prg_bank: 0, chr_bank: 0, mirroring }
    }

    #[verifier::allow_in_spec]
    pub fn prg_index(&self, addr: u16) -> usize
        requires self.wf(), addr >= 0x8000,
        returns (if addr < 0xC000 { addr - 0x8000 } else { self.prg_bank * 0x4000 + (addr - 0xC000) }) as usize,
    {
        if addr < 0xC000 {
            (addr - 0x8000) as usize
        } else {
            self.prg_bank * 0x4000 + (addr - 0xC000) as usize
        }
    }

    #[verifier::allow_in_spec]
    pub fn chr_index(&self, addr: u16) -> usize
        requires self.wf(),
        returns (self.chr_bank * 0x2000 + lo13(addr)) as usize,
    {
        self.chr_bank * 0x2000 + chr_off(addr)
    }

    pub open spec fn written(self, addr: u16, value: u8) -> Self {
        Mapper92 {
            prg_bank: if value >= 0x80 { (value % 16) as usize } else { self.prg_bank },
            chr_bank: if (value / 64) % 2 == 1 { (value % 16) as usize } else { self.chr_bank },
            ..self
        }
    }

    pub fn write_register(&mut self, addr: u16, value: u8)
        requires old(self).wf(),
        ensures *final(self) == old(self).written(addr, value), final(self).wf(),
    {
        if (value >= 0x80) {
            self.prg_bank = ((value % 16)) as usize;
        }
        if ((value / 64) % 2 == 1) {
            self.chr_bank = ((value % 16)) as usize;
        }
    }

    #[verifier::allow_in_spec]
    pub fn mirroring(&self) -> Mirroring
        returns self.mirroring,
    {
        self.mirroring
    }
}

// ---------------------------------------------------------- Mapper 140

/// Jaleco JF-11/JF-14: a $6000-$7FFF (or cartridge-space) write selects
/// 32 KiB PRG from bits 4-5 and 8 KiB CHR from bits 0-3.
#[derive(Debug, Clone, Copy)]
pub struct JalecoJf11_14 {
    pub prg_bank: usize,
    pub chr_bank: usize,
    pub mirroring: Mirroring,
}

impl JalecoJf11_14 {
    pub open spec fn wf(&self) -> bool { self.prg_bank < 4 && self.chr_bank < 16 }

    pub fn new(mirroring: Mirroring) -> (r: Self)
        ensures r == (JalecoJf11_14 { prg_bank: 0, chr_bank: 0, mirroring }), r.wf(),
    {
        JalecoJf11_14 { prg_bank: 0, chr_bank: 0, mirroring }
    }

    pub open spec fn banked(self, value: u8) -> Self {
        JalecoJf11_14 { prg_bank: ((value / 16) % 4) as usize, chr_bank: (value % 16) as usize, ..self }
    }

    pub fn set_bank(&mut self, value: u8)
        ensures *final(self) == old(self).banked(value), final(self).wf(),
    {
        self.prg_bank = (((value / 16) % 4)) as usize;
        self.chr_bank = ((value % 16)) as usize;
    }

    #[verifier::allow_in_spec]
    pub fn prg_index(&self, addr: u16) -> usize
        requires self.wf(), addr >= 0x8000,
        returns (self.prg_bank * 0x8000 + (addr - 0x8000)) as usize,
    {
        self.prg_bank * 0x8000 + (addr - 0x8000) as usize
    }

    #[verifier::allow_in_spec]
    pub fn chr_index(&self, addr: u16) -> usize
        requires self.wf(),
        returns (self.chr_bank * 0x2000 + lo13(addr)) as usize,
    {
        self.chr_bank * 0x2000 + chr_off(addr)
    }

    pub open spec fn written(self, addr: u16, value: u8) -> Self {
        self.banked(value)
    }

    pub fn write_register(&mut self, addr: u16, value: u8)
        ensures *final(self) == old(self).written(addr, value), final(self).wf(),
    {
        self.set_bank(value);
    }

    pub open spec fn claims_low(addr: u16) -> bool {
        0x6000 <= addr <= 0x7FFF
    }

    pub open spec fn low_written(self, addr: u16, value: u8) -> Self {
        if Self::claims_low(addr) { self.banked(value) } else { self }
    }

    pub fn write_low_register(&mut self, addr: u16, value: u8) -> (r: bool)
        requires old(self).wf(),
        ensures r == Self::claims_low(addr), *final(self) == old(self).low_written(addr, value), final(self).wf(),
    {
        if 0x6000 <= addr && addr <= 0x7FFF {
            self.set_bank(value);
            true
        } else {
            false
        }
    }

    #[verifier::allow_in_spec]
    pub fn mirroring(&self) -> Mirroring
        returns self.mirroring,
    {
        self.mirroring
    }
}

// -------------------------------------------------------------- Mapper 203

/// Mapper 203 — 16 KiB PRG (mirrored into both halves) from bits 2-7,
/// 8 KiB CHR from bits 0-1.
#[derive(Debug, Clone, Copy)]
pub struct Mapper203 {
    pub prg_bank: usize,
    pub chr_bank: usize,
    pub mirroring: Mirroring,
}

impl Mapper203 {
    pub open spec fn wf(&self) -> bool { self.prg_bank < 64 && self.chr_bank < 4 }

    pub fn new(mirroring: Mirroring) -> (r: Self)
        ensures r == (Mapper203 { prg_bank: 0, chr_bank: 0, mirroring }), r.wf(),
    {
        Mapper203 { prg_bank: 0, chr_bank: 0, mirroring }
    }

    #[verifier::allow_in_spec]
    pub fn prg_index(&self, addr: u16) -> usize
        requires self.wf(), addr >= 0x8000,
        returns (self.prg_bank * 0x4000 + (if addr < 0xC000 { addr - 0x8000 } else { addr - 0xC000 })) as usize,
    {
        let off = if addr < 0xC000 { addr - 0x8000 } else { addr - 0xC000 };
        self.prg_bank * 0x4000 + off as usize
    }

    #[verifier::allow_in_spec]
    pub fn chr_index(&self, addr: u16) -> usize
        requires self.wf(),
        returns (self.chr_bank * 0x2000 + lo13(addr)) as usize,
    {
        self.chr_bank * 0x2000 + chr_off(addr)
    }

    pub open spec fn written(self, addr: u16, value: u8) -> Self {
        Mapper203 { prg_bank: (value / 4) as usize, chr_bank: (value % 4) as usize, ..self }
    }

    pub fn write_register(&mut self, addr: u16, value: u8)
        ensures *final(self) == old(self).written(addr, value), final(self).wf(),
    {
        self.prg_bank = ((value / 4)) as usize;
        self.chr_bank = ((value % 4)) as usize;
    }

    #[verifier::allow_in_spec]
    pub fn mirroring(&self) -> Mirroring
        returns self.mirroring,
    {
        self.mirroring
    }
}

} // verus!
