//! Rarely seen boards: a 20-in-1 data latch (271), NewRisingSun's
//! multicart with a reset-cycled DIP pad (285), K-1053 (310), BMC T-2291
//! (319) and the bootleg Contra board with per-page nametables (326).

use vstd::prelude::*;

verus! {

use crate::mapper::latch::{chr_off, off_16k};
use crate::types::Mirroring;

// --------------------------------------------------------------- Mapper 271

/// Mapper 271 — one data latch: PRG 32 KiB from the high nibble, CHR 8 KiB
/// from the low nibble, bit 5 vertical mirroring.
#[derive(Debug, Clone, Copy)]
pub struct Mapper271 {
    pub latch: u8,
}

impl Mapper271 {
    pub fn new() -> (r: Self)
        ensures r == (Mapper271 { latch: 0 }),
    {
        Mapper271 { latch: 0 }
    }

    #[verifier::allow_in_spec]
    pub fn prg_index(&self, addr: u16) -> usize
        returns ((self.latch / 16) * 0x8000 + addr % 0x8000) as usize,
    {
        let l = self.latch;
        (((l / 16)) as usize) * 0x8000 + ((addr % 0x8000)) as usize
    }

    #[verifier::allow_in_spec]
    pub fn chr_index(&self, addr: u16) -> usize
        returns ((self.latch % 16) * 0x2000 + addr % 0x2000) as usize,
    {
        let l = self.latch;
        (((l % 16)) as usize) * 0x2000 + chr_off(addr)
    }

    pub open spec fn written(self, addr: u16, value: u8) -> Self {
        Mapper271 { latch: value }
    }

    pub fn write_register(&mut self, addr: u16, value: u8)
        ensures *final(self) == old(self).written(addr, value),
    {
        self.latch = value;
    }

    #[verifier::allow_in_spec]
    pub fn mirroring(&self) -> Mirroring
        returns if (self.latch / 32) % 2 == 1 { Mirroring::Vertical } else { Mirroring::Horizontal },
    {
        let l = self.latch;
        if ((l / 32) % 2 == 1) { Mirroring::Vertical } else { Mirroring::Horizontal }
    }

    pub open spec fn after_reset(self, soft: bool) -> Self {
        Mapper271 { latch: 0 }
    }

    pub fn reset(&mut self, soft: bool)
        ensures *final(self) == old(self).after_reset(soft),
    {
        self.latch = 0;
    }
}

// --------------------------------------------------------------- Mapper 285

/// Mapper 285 — NewRisingSun multicart: a latch picks 16 KiB pages (NROM-128
/// style or 32 KiB mode via bit 6; submapper 1 rearranges the bits) and
/// mirroring; $5000-$5FFF reads a DIP pad that each soft reset advances
/// through 24 settings.
#[derive(Debug, Clone, Copy)]
pub struct Mapper285 {
    pub latch: u8,
    pub pad: u8,
    pub submapper: u8,
}

/// The two 16 KiB PRG pages ($8000, $C000) a latch value selects.
pub open spec fn pages285(latch: u8, submapper: u8) -> (usize, usize) {
    let l = latch as usize;
    if submapper == 1 {
        if latch & 0x40 != 0 {
            let bank = ((l >> 1usize) & 0x03) | ((l >> 2usize) & !0x03usize);
            ((bank * 2) as usize, (bank * 2 + 1) as usize)
        } else {
            (((l >> 1usize) & !0x07usize) | (l & 0x07), (l >> 1usize) | 0x07)
        }
    } else if latch & 0x40 != 0 {
        let bank = l >> 1usize;
        ((bank * 2) as usize, (bank * 2 + 1) as usize)
    } else {
        (l, l | 0x07)
    }
}

impl Mapper285 {
    pub open spec fn wf(&self) -> bool {
        self.pad < 24
    }

    pub fn new(submapper: u8) -> (r: Self)
        ensures r == (Mapper285 { latch: 0, pad: 0, submapper }), r.wf(),
    {
        Mapper285 { latch: 0, pad: 0, submapper }
    }

    pub fn prg16_pages(&self) -> (r: [usize; 2])
        ensures r@[0] == pages285(self.latch, self.submapper).0, r@[1] == pages285(self.latch, self.submapper).1,
            r@.len() == 2, r@[0] < 0x100, r@[1] < 0x100,
    {
        let latch = self.latch as usize;
        let l8 = self.latch;
        assert(latch < 0x100);
        assert(latch >> 1 < 0x80 && latch | 0x07 < 0x100) by (bit_vector) requires latch < 0x100;
        if self.submapper == 1 {
            if l8 & 0x40 != 0 {
                let bank = ((latch >> 1) & 0x03) | ((latch >> 2) & !0x03);
                assert(((latch >> 1) & 0x03) | ((latch >> 2) & !0x03usize) < 0x40) by (bit_vector) requires latch < 0x100;
                [bank * 2, bank * 2 + 1]
            } else {
                assert(((latch >> 1) & !0x07usize) | (latch & 0x07) < 0x80) by (bit_vector) requires latch < 0x100;
                assert((latch >> 1) | 0x07 < 0x80) by (bit_vector) requires latch < 0x100;
                [((latch >> 1) & !0x07) | (latch & 0x07), (latch >> 1) | 0x07]
            }
        } else if l8 & 0x40 != 0 {
            let bank = latch >> 1;
            [bank * 2, bank * 2 + 1]
        } else {
            [latch, latch | 0x07]
        }
    }

    /// The DIP pad as seen through $5000-$5FFF: address bits 4-7 pick which
    /// group of settings reports (with bit 2 set), the plain window reports
    /// the first eight.
    #[verifier::allow_in_spec]
    pub fn read_pad(&self, addr: u16) -> u8
        returns
            if addr & 0x80 != 0 { if self.pad >= 20 { 4 | (self.pad % 20) } else { 0 } }
            else if addr & 0x40 != 0 { if self.pad >= 16 { 4 | (self.pad % 16) } else { 0 } }
            else if addr & 0x20 != 0 { if self.pad >= 12 { 4 | (self.pad % 12) } else { 0 } }
            else if addr & 0x10 != 0 { if self.pad >= 8 { 4 | (self.pad % 8) } else { 0 } }
            else if self.pad >= 8 { 0 }
            else { self.pad & 0x07 },
    {
        if addr & 0x80 != 0 {
            if self.pad >= 20 { 4 | (self.pad % 20) } else { 0 }
        } else if addr & 0x40 != 0 {
            if self.pad >= 16 { 4 | (self.pad % 16) } else { 0 }
        } else if addr & 0x20 != 0 {
            if self.pad >= 12 { 4 | (self.pad % 12) } else { 0 }
        } else if addr & 0x10 != 0 {
            if self.pad >= 8 { 4 | (self.pad % 8) } else { 0 }
        } else if self.pad >= 8 {
            0
        } else {
            self.pad & 0x07
        }
    }

    #[verifier::allow_in_spec]
    pub fn prg_index(&self, addr: u16) -> usize
        returns ((if addr < 0xC000 { pages285(self.latch, self.submapper).0 } else { pages285(self.latch, self.submapper).1 })
            * 0x4000 + addr % 0x4000) as usize,
    {
        let pages = self.prg16_pages();
        let slot: usize = if addr < 0xC000 { 0 } else { 1 };
        pages[slot] * 0x4000 + off_16k(addr)
    }

    #[verifier::allow_in_spec]
    pub fn chr_index(&self, addr: u16) -> usize
        returns (addr % 0x2000) as usize,
    {
        chr_off(addr)
    }

    pub open spec fn written(self, addr: u16, value: u8) -> Self {
        Mapper285 { latch: value, ..self }
    }

    pub fn write_register(&mut self, addr: u16, value: u8)
        requires old(self).wf(),
        ensures *final(self) == old(self).written(addr, value), final(self).wf(),
    {
        self.latch = value;
    }

    #[verifier::allow_in_spec]
    pub fn peek_expansion(&self, addr: u16) -> Option<u8>
        returns if 0x5000 <= addr <= 0x5FFF { Some(self.read_pad(addr)) } else { None },
    {
        if 0x5000 <= addr && addr <= 0x5FFF { Some(self.read_pad(addr)) } else { None }
    }

    pub fn read_expansion(&mut self, addr: u16) -> (r: Option<u8>)
        ensures r == old(self).peek_expansion(addr), *final(self) == *old(self),
    {
        self.peek_expansion(addr)
    }

    #[verifier::allow_in_spec]
    pub fn mirroring(&self) -> Mirroring
        returns
            if self.latch & 0x80 != 0 {
                if self.latch & 0x20 != 0 { Mirroring::SingleScreenHigh } else { Mirroring::SingleScreenLow }
            } else if (if self.submapper == 1 { self.latch & 0x08 != 0 } else { self.latch & 0x20 != 0 }) {
                Mirroring::Horizontal
            } else {
                Mirroring::Vertical
            },
    {
        if self.latch & 0x80 != 0 {
            if self.latch & 0x20 != 0 { Mirroring::SingleScreenHigh } else { Mirroring::SingleScreenLow }
        } else {
            let horizontal = if self.submapper == 1 { self.latch & 0x08 != 0 } else { self.latch & 0x20 != 0 };
            if horizontal { Mirroring::Horizontal } else { Mirroring::Vertical }
        }
    }

    /// A soft reset advances the DIP pad (mod 24), a power cycle clears it;
    /// either clears the latch.
    pub open spec fn after_reset(self, soft: bool) -> Self {
        Mapper285 { latch: 0, pad: if soft { ((self.pad + 1) % 24) as u8 } else { 0 }, ..self }
    }

    pub fn reset(&mut self, soft: bool)
        requires old(self).wf(),
        ensures *final(self) == old(self).after_reset(soft), final(self).wf(),
    {
        if soft {
            self.pad = (self.pad + 1) % 24;
        } else {
            self.pad = 0;
        }
        self.latch = 0;
    }
}

// --------------------------------------------------------------- Mapper 310

/// Mapper 310 — K-1053: a data register per half of $8000-$FFFF; writes to
/// $C000-$FFFF also latch their low address byte as the mode register,
/// whose low two bits pick the PRG layout and gate CHR writes.
#[derive(Debug, Clone, Copy)]
pub struct Mapper310 {
    pub reg_data: [u8; 2],
    pub reg_addr: u8,
}

impl Mapper310 {
    pub fn new() -> (r: Self)
        ensures r.reg_data@ == seq![0u8, 0], r.reg_addr == 0,
    {
        Mapper310 { reg_data: [0u8, 0], reg_addr: 0 }
    }

    #[verifier::allow_in_spec]
    pub fn base_prg(&self) -> usize
        returns ((self.reg_data@[0] as usize) & 0x3F) | (((self.reg_addr as usize) << 4usize) & !0x3Fusize),
    {
        ((self.reg_data[0] as usize) & 0x3F) | (((self.reg_addr as usize) << 4) & !0x3F)
    }

    /// The four 8 KiB PRG pages for $8000, $A000, $C000, $E000.
    pub open spec fn page310(self, slot: int) -> int {
        let prg = self.base_prg() as int;
        let mode = self.reg_addr % 4;
        if mode == 0 { (prg / 2) * 4 + slot }
        else if mode == 1 { (if slot < 2 { prg } else { (prg as usize | 0x07usize) as int }) * 2 + slot % 2 }
        else if mode == 2 { (((prg as usize) << 1usize) | ((self.reg_data@[0] >> 7u8) as usize)) as int }
        else { prg * 2 + slot % 2 }
    }

    pub fn prg8_pages(&self) -> (r: [usize; 4])
        ensures r@.len() == 4, forall|i: int| 0 <= i < 4 ==> #[trigger] r@[i] == self.page310(i) && r@[i] < 0x2000,
    {
        let prg = self.base_prg();
        let ra = self.reg_addr as usize;
        let r0 = self.reg_data[0];
        let d0 = r0 as usize;
        assert(prg < 0x1000) by (bit_vector) requires prg == (d0 & 0x3F) | ((ra << 4usize) & !0x3Fusize), d0 < 0x100, ra < 0x100;
        let rb = self.reg_addr;
        let m = rb & 0x03;
        assert(m == rb % 4) by (bit_vector) requires m == rb & 0x03;
        if m == 0 {
            let bank = prg >> 1;
            assert(bank == prg / 2) by (bit_vector) requires bank == prg >> 1usize;
            [bank * 4, bank * 4 + 1, bank * 4 + 2, bank * 4 + 3]
        } else if m == 1 {
            let hi = prg | 0x07;
            assert(hi < 0x1000) by (bit_vector) requires hi == prg | 0x07usize, prg < 0x1000;
            [prg * 2, prg * 2 + 1, hi * 2, hi * 2 + 1]
        } else if m == 2 {
            let bank = (prg << 1) | ((r0 >> 7) as usize);
            assert(bank < 0x2000) by (bit_vector) requires bank == (prg << 1usize) | ((r0 >> 7u8) as usize), prg < 0x1000;
            [bank, bank, bank, bank]
        } else {
            [prg * 2, prg * 2 + 1, prg * 2, prg * 2 + 1]
        }
    }

    #[verifier::allow_in_spec]
    pub fn prg_index(&self, addr: u16) -> usize
        requires addr >= 0x8000,
        returns (self.page310((addr - 0x8000) / 0x2000) * 0x2000 + addr % 0x2000) as usize,
    {
        let slot = ((addr - 0x8000) / 0x2000) as usize;
        let pages = self.prg8_pages();
        assert(slot < 4);
        assert(0 <= slot < 4 ==> pages@[slot as int] == self.page310(slot as int) && pages@[slot as int] < 0x2000);
        pages[slot] * 0x2000 + chr_off(addr)
    }

    #[verifier::allow_in_spec]
    pub fn chr_index(&self, addr: u16) -> usize
        returns (self.reg_data@[1] * 0x2000 + addr % 0x2000) as usize,
    {
        (self.reg_data[1] as usize) * 0x2000 + chr_off(addr)
    }

    /// CHR-RAM is writable only in modes 1 and 2; otherwise the board
    /// swallows pattern writes.
    #[verifier::allow_in_spec]
    pub fn chr_writable(&self) -> bool
        returns self.reg_addr % 4 == 1 || self.reg_addr % 4 == 2,
    {
        let rb = self.reg_addr;
        let m = rb & 0x03;
        assert(m == rb % 4) by (bit_vector) requires m == rb & 0x03;
        m == 1 || m == 2
    }

    pub open spec fn claims_chr_write(&self, addr: u16) -> bool {
        !self.chr_writable()
    }

    pub open spec fn chr_written(self, addr: u16, value: u8) -> Self {
        self
    }

    pub fn chr_write(&mut self, addr: u16, value: u8) -> (r: bool)
        ensures r == old(self).claims_chr_write(addr), *final(self) == old(self).chr_written(addr, value),
    {
        !self.chr_writable()
    }

    pub open spec fn wrote(o: Self, n: Self, addr: u16, value: u8) -> bool {
        &&& n.reg_data@ == o.reg_data@.update(((addr / 0x4000) % 2) as int, value)
        &&& n.reg_addr == if (addr / 0x4000) % 2 == 1 { (addr % 0x100) as u8 } else { o.reg_addr }
    }

    pub fn write_register(&mut self, addr: u16, value: u8)
        ensures Self::wrote(*old(self), *final(self), addr, value),
    {
        assert(addr as u8 == (addr % 0x100) as u8) by (bit_vector);
        self.reg_data[(((addr / 0x4000) % 2)) as usize] = value;
        if ((addr / 0x4000) % 2 == 1) {
            self.reg_addr = addr as u8;
        }
    }

    #[verifier::allow_in_spec]
    pub fn mirroring(&self) -> Mirroring
        returns if self.reg_data@[0] & 0x40 != 0 { Mirroring::Horizontal } else { Mirroring::Vertical },
    {
        if self.reg_data[0] & 0x40 != 0 { Mirroring::Horizontal } else { Mirroring::Vertical }
    }

    pub open spec fn was_reset(o: Self, n: Self, soft: bool) -> bool {
        n.reg_data@ == seq![0u8, 0] && n.reg_addr == 0
    }

    pub fn reset(&mut self, soft: bool)
        ensures Self::was_reset(*old(self), *final(self), soft),
    {
        self.reg_data = [0u8, 0];
        self.reg_addr = 0;
    }
}

// --------------------------------------------------------------- Mapper 319

/// Mapper 319 — BMC T-2291: two registers behind $6000-$7FFF (address bit 2
/// picks which; PRG-RAM is absent), a $8000-$FFFF latch that can supply CHR
/// bit 2, and a DIP pad at $5000-$5FFF toggled by soft reset.
#[derive(Debug, Clone, Copy)]
pub struct Mapper319 {
    pub regs: [u8; 2],
    pub latch: u8,
    pub pad: u8,
}

impl Mapper319 {
    pub fn new() -> (r: Self)
        ensures r.regs@ == seq![0u8, 0], r.latch == 0, r.pad == 0,
    {
        Mapper319 { regs: [0u8, 0], latch: 0, pad: 0 }
    }

    /// The 16 KiB PRG pages for $8000 and $C000.
    pub open spec fn page319(self, slot: int) -> int {
        let r1 = self.regs@[1];
        if r1 & 0x40 != 0 { (((r1 >> 3u8) & 0x03) as int) * 2 + slot }
        else { (((r1 >> 2u8) & 0x06) | ((r1 >> 5u8) & 0x01)) as int }
    }

    pub fn prg16_pages(&self) -> (r: [usize; 2])
        ensures r@.len() == 2, r@[0] == self.page319(0), r@[1] == self.page319(1), r@[0] < 8, r@[1] < 8,
    {
        let r1 = self.regs[1];
        if r1 & 0x40 != 0 {
            assert((r1 >> 3u8) & 0x03 < 4) by (bit_vector);
            let bank = ((r1 >> 3) & 0x03) as usize;
            [bank * 2, bank * 2 + 1]
        } else {
            assert(((r1 >> 2u8) & 0x06) | ((r1 >> 5u8) & 0x01) < 8) by (bit_vector);
            let bank = (((r1 >> 2) & 0x06) | ((r1 >> 5) & 0x01)) as usize;
            [bank, bank]
        }
    }

    #[verifier::allow_in_spec]
    pub fn prg_index(&self, addr: u16) -> usize
        returns (self.page319(if addr < 0xC000 { 0 } else { 1 }) * 0x4000 + addr % 0x4000) as usize,
    {
        let pages = self.prg16_pages();
        let slot: usize = if addr < 0xC000 { 0 } else { 1 };
        pages[slot] * 0x4000 + off_16k(addr)
    }

    /// CHR 8 KiB bank: register 0's high nibble, with bit 2 taken from the
    /// latch when register 0 bit 0 says so.
    #[verifier::allow_in_spec]
    pub fn chr_bank(&self) -> u8
        returns ({
            let mask = (self.regs@[0] << 2u8) & 0x04;
            ((self.regs@[0] >> 4u8) & !mask) | ((self.latch << 2u8) & mask)
        }),
    {
        let mask = (self.regs[0] << 2) & 0x04;
        ((self.regs[0] >> 4) & !mask) | ((self.latch << 2) & mask)
    }

    #[verifier::allow_in_spec]
    pub fn chr_index(&self, addr: u16) -> usize
        returns (self.chr_bank() * 0x2000 + addr % 0x2000) as usize,
    {
        (self.chr_bank() as usize) * 0x2000 + chr_off(addr)
    }

    pub open spec fn written(self, addr: u16, value: u8) -> Self {
        Mapper319 { latch: value, ..self }
    }

    pub fn write_register(&mut self, addr: u16, value: u8)
        ensures *final(self) == old(self).written(addr, value),
    {
        self.latch = value;
    }

    /// Every low write lands in a register.
    pub open spec fn claims_low(addr: u16) -> bool {
        true
    }

    pub open spec fn low_wrote(o: Self, n: Self, addr: u16, value: u8) -> bool {
        &&& n.regs@ == o.regs@.update(((addr / 4) % 2) as int, value)
        &&& n.latch == o.latch && n.pad == o.pad
    }

    pub fn write_low_register(&mut self, addr: u16, value: u8) -> (r: bool)
        ensures r == Self::claims_low(addr), Self::low_wrote(*old(self), *final(self), addr, value),
    {
        self.regs[(((addr / 4) % 2)) as usize] = value;
        true
    }

    pub fn low_prg_ram_read_enabled(&self, addr: u16) -> (r: bool)
        ensures !r,
    {
        false
    }

    pub fn low_prg_ram_write_enabled(&self, addr: u16) -> (r: bool)
        ensures !r,
    {
        false
    }

    #[verifier::allow_in_spec]
    pub fn peek_expansion(&self, addr: u16) -> Option<u8>
        returns if 0x5000 <= addr <= 0x5FFF { Some(self.pad) } else { None },
    {
        if 0x5000 <= addr && addr <= 0x5FFF { Some(self.pad) } else { None }
    }

    pub fn read_expansion(&mut self, addr: u16) -> (r: Option<u8>)
        ensures r == old(self).peek_expansion(addr), *final(self) == *old(self),
    {
        self.peek_expansion(addr)
    }

    #[verifier::allow_in_spec]
    pub fn mirroring(&self) -> Mirroring
        returns if self.regs@[1] & 0x80 != 0 { Mirroring::Vertical } else { Mirroring::Horizontal },
    {
        if self.regs[1] & 0x80 != 0 { Mirroring::Vertical } else { Mirroring::Horizontal }
    }

    pub open spec fn was_reset(o: Self, n: Self, soft: bool) -> bool {
        &&& n.regs@ == seq![0u8, 0]
        &&& n.latch == 0
        &&& n.pad == if soft { o.pad ^ 0x40 } else { 0 }
    }

    pub fn reset(&mut self, soft: bool)
        ensures Self::was_reset(*old(self), *final(self), soft),
    {
        self.regs = [0u8, 0];
        self.latch = 0;
        if soft {
            self.pad = self.pad ^ 0x40;
        } else {
            self.pad = 0;
        }
    }
}

// --------------------------------------------------------------- Mapper 326

/// Mapper 326 — bootleg Contra/Gryzor: three 8 KiB PRG registers (the last
/// window fixed to bank $FF), eight 1 KiB CHR registers and a register per
/// nametable picking one of the two CIRAM pages.
#[derive(Debug, Clone, Copy)]
pub struct Mapper326 {
    pub prg: [u8; 3],
    pub chr: [u8; 8],
    pub nt_page: [u8; 4],
}

impl Mapper326 {
    pub open spec fn fresh(self) -> bool {
        &&& self.prg@ == seq![0u8, 0, 0]
        &&& self.chr@ == seq![0u8, 1, 2, 3, 4, 5, 6, 7]
        &&& self.nt_page@ == seq![0xFFu8, 0xFF, 0xFF, 0xFF]
    }

    pub fn new() -> (r: Self)
        ensures r.fresh(),
    {
        Mapper326 { prg: [0u8, 0, 0], chr: [0u8, 1, 2, 3, 4, 5, 6, 7], nt_page: [0xFFu8, 0xFF, 0xFF, 0xFF] }
    }

    /// CIRAM byte for a nametable address: page from the table's register
    /// bit 0.
    #[verifier::allow_in_spec]
    pub fn nt_index(&self, addr: u16) -> usize
        returns (((self.nt_page@[((addr % 0x1000) / 0x400) as int] % 2) as int) * 0x400 + addr % 0x400) as usize,
    {
        let a = ((addr % 0x1000)) as usize;
        let table = a / 0x0400;
        assert(a % 0x400 == addr % 0x400);
        let p = self.nt_page[table];
        (((p % 2)) as usize) * 0x0400 + ((a % 0x400))
    }

    #[verifier::allow_in_spec]
    pub fn prg_index(&self, addr: u16) -> usize
        requires addr >= 0x8000,
        returns ((if (addr - 0x8000) / 0x2000 < 3 { self.prg@[((addr - 0x8000) / 0x2000) as int] } else { 0xFFu8 }) * 0x2000
            + addr % 0x2000) as usize,
    {
        let slot = ((addr - 0x8000) / 0x2000) as usize;
        let bank = if slot < 3 { self.prg[slot] } else { 0xFF };
        (bank as usize) * 0x2000 + chr_off(addr)
    }

    #[verifier::allow_in_spec]
    pub fn chr_index(&self, addr: u16) -> usize
        requires addr < 0x2000,
        returns (self.chr@[(addr / 0x400) as int] * 0x400 + addr % 0x400) as usize,
    {
        let slot = (addr / 0x0400) as usize;
        (self.chr[slot] as usize) * 0x0400 + ((addr % 0x400)) as usize
    }

    /// Writes decode `addr & $E010` for the PRG registers and `addr & $801F`
    /// for the CHR ($8010-$8017) and nametable ($8018-$801B) registers.
    pub open spec fn wrote(o: Self, n: Self, addr: u16, value: u8) -> bool {
        let p = addr & 0xE010;
        let r = addr & 0x801F;
        &&& n.prg@ == if p == 0x8000 { o.prg@.update(0, value) } else if p == 0xA000 { o.prg@.update(1, value) }
            else if p == 0xC000 { o.prg@.update(2, value) } else { o.prg@ }
        &&& n.chr@ == if 0x8010 <= r <= 0x8017 { o.chr@.update(r - 0x8010, value) } else { o.chr@ }
        &&& n.nt_page@ == if 0x8018 <= r <= 0x801B { o.nt_page@.update(r - 0x8018, value) } else { o.nt_page@ }
    }

    pub fn write_register(&mut self, addr: u16, value: u8)
        ensures Self::wrote(*old(self), *final(self), addr, value),
    {
        let p = addr & 0xE010;
        if p == 0x8000 {
            self.prg[0] = value;
        } else if p == 0xA000 {
            self.prg[1] = value;
        } else if p == 0xC000 {
            self.prg[2] = value;
        }
        let reg_addr = addr & 0x801F;
        if 0x8010 <= reg_addr && reg_addr <= 0x8017 {
            self.chr[(reg_addr - 0x8010) as usize] = value;
        } else if 0x8018 <= reg_addr && reg_addr <= 0x801B {
            self.nt_page[(reg_addr - 0x8018) as usize] = value;
        }
    }

    #[verifier::allow_in_spec]
    pub fn peek_nametable(&self, addr: u16, ciram: &[u8; 0x1000]) -> Option<u8>
        returns Some(ciram@[self.nt_index(addr) as int]),
    {
        Some(ciram[self.nt_index(addr)])
    }

    pub fn nametable_read(&mut self, addr: u16, ciram: &[u8; 0x1000]) -> (r: Option<u8>)
        ensures r == old(self).peek_nametable(addr, ciram), *final(self) == *old(self),
    {
        self.peek_nametable(addr, ciram)
    }

    pub open spec fn nametable_wrote(&self, addr: u16, value: u8, before: Seq<u8>, after: Seq<u8>) -> bool {
        after == before.update(self.nt_index(addr) as int, value)
    }

    pub fn nametable_write(&mut self, addr: u16, value: u8, ciram: &mut [u8; 0x1000]) -> (r: bool)
        ensures r, *final(self) == *old(self), old(self).nametable_wrote(addr, value, old(ciram)@, final(ciram)@),
    {
        let i = self.nt_index(addr);
        ciram[i] = value;
        true
    }

    #[verifier::allow_in_spec]
    pub fn mirroring(&self) -> Mirroring
        returns Mirroring::FourScreen,
    {
        Mirroring::FourScreen
    }
}

} // verus!
