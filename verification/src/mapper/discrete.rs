//! Small discrete boards with a quirk each: CHR copy protection (181/185),
//! the Karaoke Studio (188), MEGA-SOFT's low-register CHR (193), the Family
//! Study Box (186) and Magic Floor's pattern-table RAM (218).

use vstd::prelude::*;

verus! {

use crate::mapper::{at_least_one, max1, ChrAccess, MAX_PRG_16K};
use crate::mapper::latch::{chr_off, off_16k, lo13};
use crate::types::Mirroring;

// ------------------------------------------------------------ Mapper 181/185

/// Which protection rule a CNROM-with-CHR-disable board follows.
#[derive(Debug, Clone, Copy, PartialEq, Eq, Structural)]
pub enum CnromProtectVariant {
    Mapper185,
    Mapper181,
}

/// Mappers 181/185 — CNROM whose data latch can disable CHR: a disabled
/// CHR reads as $FF and swallows writes.
#[derive(Debug, Clone, Copy)]
pub struct Mapper185 {
    pub prg_16k: usize,
    pub variant: CnromProtectVariant,
    pub datareg: u8,
    pub mirroring: Mirroring,
}

impl Mapper185 {
    pub open spec fn wf(&self) -> bool {
        1 <= self.prg_16k <= MAX_PRG_16K
    }

    pub fn new(prg_16k: usize, mirroring: Mirroring) -> (r: Self)
        requires prg_16k <= MAX_PRG_16K,
        ensures
            r == (Mapper185 { prg_16k: max1(prg_16k), variant: CnromProtectVariant::Mapper185, datareg: 0, mirroring }),
            r.wf(),
    {
        Mapper185 { prg_16k: at_least_one(prg_16k), variant: CnromProtectVariant::Mapper185, datareg: 0, mirroring }
    }

    pub fn new_181(prg_16k: usize, mirroring: Mirroring) -> (r: Self)
        requires prg_16k <= MAX_PRG_16K,
        ensures
            r == (Mapper185 { prg_16k: max1(prg_16k), variant: CnromProtectVariant::Mapper181, datareg: 0, mirroring }),
            r.wf(),
    {
        Mapper185 { prg_16k: at_least_one(prg_16k), variant: CnromProtectVariant::Mapper181, datareg: 0, mirroring }
    }

    /// 185: CHR is on while data bits 0-1 are non-zero, except the value $13;
    /// 181: CHR is on while data bit 0 is clear.
    #[verifier::allow_in_spec]
    pub fn chr_enabled(&self) -> bool
        returns match self.variant {
            CnromProtectVariant::Mapper185 => self.datareg % 4 != 0 && self.datareg != 0x13,
            CnromProtectVariant::Mapper181 => self.datareg % 2 == 0,
        },
    {
        let d = self.datareg;
        match self.variant {
            CnromProtectVariant::Mapper185 => ((d % 4)) != 0 && d != 0x13,
            CnromProtectVariant::Mapper181 => (d % 2) == 0,
        }
    }

    #[verifier::allow_in_spec]
    pub fn prg_index(&self, addr: u16) -> usize
        requires self.wf(), addr >= 0x8000,
        returns ((if addr < 0xC000 { 0 } else { self.prg_16k - 1 }) * 0x4000 + addr % 0x4000) as usize,
    {
        let bank = if addr < 0xC000 { 0 } else { self.prg_16k - 1 };
        bank * 0x4000 + off_16k(addr)
    }

    #[verifier::allow_in_spec]
    pub fn chr_index(&self, addr: u16) -> usize
        returns lo13(addr) as usize,
    {
        chr_off(addr)
    }

    #[verifier::allow_in_spec]
    pub fn chr_read(&self, addr: u16, access: ChrAccess) -> Option<u8>
        returns if self.chr_enabled() { None } else { Some(0xFFu8) },
    {
        if self.chr_enabled() { None } else { Some(0xFF) }
    }

    #[verifier::allow_in_spec]
    pub fn has_chr_read(&self) -> bool
        returns true,
    {
        true
    }

    /// A disabled CHR swallows pattern writes; the board keeps no state for it.
    pub open spec fn claims_chr_write(&self, addr: u16) -> bool {
        !self.chr_enabled()
    }

    pub open spec fn chr_written(self, addr: u16, value: u8) -> Self {
        self
    }

    pub fn chr_write(&mut self, addr: u16, value: u8) -> (r: bool)
        requires old(self).wf(),
        ensures
            r == old(self).claims_chr_write(addr),
            *final(self) == old(self).chr_written(addr, value),
            final(self).wf(),
    {
        !self.chr_enabled()
    }

    pub open spec fn written(self, addr: u16, value: u8) -> Self {
        Mapper185 { datareg: value, ..self }
    }

    pub fn write_register(&mut self, addr: u16, value: u8)
        requires old(self).wf(),
        ensures *final(self) == old(self).written(addr, value), final(self).wf(),
    {
        self.datareg = value;
    }

    #[verifier::allow_in_spec]
    pub fn mirroring(&self) -> Mirroring
        returns self.mirroring,
    {
        self.mirroring
    }
}

// --------------------------------------------------------------- Mapper 188

/// Mapper 188 — Karaoke Studio: a latch selects the $8000 bank from the
/// expansion (bit 4 set) or base ROM; $C000 is fixed to bank 7; $6000-$7FFF
/// reads 3 (no microphone input).
#[derive(Debug, Clone, Copy)]
pub struct Mapper188 {
    pub prg_16k: usize,
    pub latch: u8,
}

impl Mapper188 {
    pub open spec fn wf(&self) -> bool {
        1 <= self.prg_16k <= MAX_PRG_16K
    }

    pub fn new(prg_16k: usize) -> (r: Self)
        requires prg_16k <= MAX_PRG_16K,
        ensures r == (Mapper188 { prg_16k: max1(prg_16k), latch: 0 }), r.wf(),
    {
        Mapper188 { prg_16k: at_least_one(prg_16k), latch: 0 }
    }

    #[verifier::allow_in_spec]
    pub fn switchable_bank(&self) -> usize
        requires self.wf(),
        returns (if self.latch == 0 { 7 + self.prg_16k / 16 }
            else if (self.latch / 16) % 2 == 1 { (self.latch % 8) as int }
            else { self.latch % 8 + 8 }) as usize,
    {
        let l = self.latch;
        if l == 0 {
            7 + self.prg_16k / 16
        } else if (l / 16) % 2 == 1 {
            (l % 8) as usize
        } else {
            (l % 8 + 8) as usize
        }
    }

    #[verifier::allow_in_spec]
    pub fn prg_index(&self, addr: u16) -> usize
        requires self.wf(), addr >= 0x8000,
        returns (((if addr < 0xC000 { self.switchable_bank() } else { 7 }) % self.prg_16k) * 0x4000 + addr % 0x4000) as usize,
    {
        let bank = if addr < 0xC000 { self.switchable_bank() } else { 7 };
        let b = bank % self.prg_16k;
        assert(b < self.prg_16k);
        b * 0x4000 + off_16k(addr)
    }

    #[verifier::allow_in_spec]
    pub fn chr_index(&self, addr: u16) -> usize
        returns lo13(addr) as usize,
    {
        chr_off(addr)
    }

    pub open spec fn written(self, addr: u16, value: u8) -> Self {
        Mapper188 { latch: value, ..self }
    }

    pub fn write_register(&mut self, addr: u16, value: u8)
        requires old(self).wf(),
        ensures *final(self) == old(self).written(addr, value), final(self).wf(),
    {
        self.latch = value;
    }

    #[verifier::allow_in_spec]
    pub fn peek_low_register(&self, addr: u16) -> Option<u8>
        returns if 0x6000 <= addr <= 0x7FFF { Some(3u8) } else { None },
    {
        if 0x6000 <= addr && addr <= 0x7FFF { Some(3) } else { None }
    }

    pub fn read_low_register(&mut self, addr: u16) -> (r: Option<u8>)
        ensures r == old(self).peek_low_register(addr), *final(self) == *old(self),
    {
        self.peek_low_register(addr)
    }

    #[verifier::allow_in_spec]
    pub fn mirroring(&self) -> Mirroring
        returns Mirroring::Horizontal,
    {
        Mirroring::Horizontal
    }
}

// --------------------------------------------------------------- Mapper 193

/// Mapper 193 — MEGA-SOFT (War in the Gulf): four registers at $6000-$6003
/// pick a 4 KiB and two 2 KiB CHR banks and the $8000 PRG bank; the upper
/// three 8 KiB PRG windows are fixed to banks 13-15.
#[derive(Debug, Clone, Copy)]
pub struct Mapper193 {
    pub regs: [u8; 4],
    pub mirroring: Mirroring,
}

impl Mapper193 {
    pub fn new(mirroring: Mirroring) -> (r: Self)
        ensures r.regs@ == seq![0u8, 0, 0, 0], r.mirroring == mirroring,
    {
        Mapper193 { regs: [0u8, 0, 0, 0], mirroring }
    }

    pub open spec fn reg(self, i: int) -> int {
        self.regs@[i] as int
    }

    #[verifier::allow_in_spec]
    pub fn prg_index(&self, addr: u16) -> usize
        requires addr >= 0x8000,
        returns ((if addr <= 0x9FFF { self.reg(3) } else if addr <= 0xBFFF { 0x0D } else if addr <= 0xDFFF { 0x0E } else { 0x0F })
            * 0x2000 + lo13(addr)) as usize,
    {
        let bank: usize = if addr <= 0x9FFF { self.regs[3] as usize } else if addr <= 0xBFFF { 0x0D } else if addr <= 0xDFFF { 0x0E } else { 0x0F };
        bank * 0x2000 + chr_off(addr)
    }

    /// CHR: $0000-$0FFF one 4 KiB bank (register 0 >> 2), $1000 and $1800
    /// 2 KiB banks (registers 1 and 2 >> 1), all counted in 1 KiB units.
    pub open spec fn chr_1k_bank(self, a: int) -> int {
        if a < 0x1000 { (self.reg(0) / 4) * 4 + a / 0x400 }
        else if a < 0x1800 { (self.reg(1) / 2) * 2 + (a - 0x1000) / 0x400 }
        else { (self.reg(2) / 2) * 2 + (a - 0x1800) / 0x400 }
    }

    #[verifier::allow_in_spec]
    pub fn chr_index(&self, addr: u16) -> usize
        returns (self.chr_1k_bank(lo13(addr)) * 0x400 + lo13(addr) % 0x400) as usize,
    {
        let a = chr_off(addr);
        let r0 = self.regs[0];
        let r1 = self.regs[1];
        let r2 = self.regs[2];
        let bank: usize = if a < 0x1000 {
            (((r0 / 4)) as usize) * 4 + a / 0x400
        } else if a < 0x1800 {
            (((r1 / 2)) as usize) * 2 + (a - 0x1000) / 0x400
        } else {
            (((r2 / 2)) as usize) * 2 + (a - 0x1800) / 0x400
        };
        bank * 0x400 + a % 0x400
    }

    pub open spec fn claims_low(addr: u16) -> bool {
        0x6000 <= addr <= 0x6003
    }

    pub open spec fn low_wrote(o: Self, n: Self, addr: u16, value: u8) -> bool {
        &&& n.mirroring == o.mirroring
        &&& n.regs@ == if Self::claims_low(addr) { o.regs@.update((addr % 4) as int, value) } else { o.regs@ }
    }

    pub fn write_low_register(&mut self, addr: u16, value: u8) -> (r: bool)
        ensures r == Self::claims_low(addr), Self::low_wrote(*old(self), *final(self), addr, value),
    {
        if 0x6000 <= addr && addr <= 0x6003 {
            self.regs[((addr % 4)) as usize] = value;
            true
        } else {
            false
        }
    }

    #[verifier::allow_in_spec]
    pub fn mirroring(&self) -> Mirroring
        returns self.mirroring,
    {
        self.mirroring
    }
}

// --------------------------------------------------------------- Mapper 186

/// Mapper 186 — Family Study Box: registers and 3 KiB of RAM in $4200-$4FFF,
/// 32 KiB of work RAM banked 8 KiB at a time into $6000-$7FFF (register 0
/// bits 6-7), and the $8000 PRG bank in register 1; $C000 is fixed to bank 0.
#[derive(Debug, Clone)]
pub struct Mapper186 {
    pub prg_16k: usize,
    pub regs: [u8; 4],
    pub swram: Vec<u8>,
    pub wram: Vec<u8>,
}

impl Mapper186 {
    pub open spec fn wf(&self) -> bool {
        &&& 1 <= self.prg_16k <= MAX_PRG_16K
        &&& self.swram@.len() == 0x0C00
        &&& self.wram@.len() == 0x8000
    }

    /// Power-on state: registers and both RAMs cleared.
    pub open spec fn fresh(self, prg_16k: usize) -> bool {
        &&& self.prg_16k == max1(prg_16k)
        &&& self.regs@ == seq![0u8, 0, 0, 0]
        &&& self.swram@ == Seq::new(0x0C00, |i: int| 0u8)
        &&& self.wram@ == Seq::new(0x8000, |i: int| 0u8)
    }

    pub fn new(prg_16k: usize) -> (r: Self)
        requires prg_16k <= MAX_PRG_16K,
        ensures r.fresh(prg_16k), r.wf(),
    {
        let swram = crate::bytes::zeros(0x0C00);
        let wram = crate::bytes::zeros(0x8000);
        Mapper186 { prg_16k: at_least_one(prg_16k), regs: [0u8, 0, 0, 0], swram, wram }
    }

    pub open spec fn reg(self, i: int) -> int {
        self.regs@[i] as int
    }

    #[verifier::allow_in_spec]
    pub fn wram_index(&self, addr: u16) -> usize
        returns (((self.reg(0) / 64) % 4) * 0x2000 + lo13(addr)) as usize,
    {
        let r0 = self.regs[0];
        ((((r0 / 64) % 4)) as usize) * 0x2000 + chr_off(addr)
    }

    #[verifier::allow_in_spec]
    pub fn prg_index(&self, addr: u16) -> usize
        requires self.wf(), addr >= 0x8000,
        returns (((if addr < 0xC000 { self.reg(1) } else { 0 }) % (self.prg_16k as int)) * 0x4000 + addr % 0x4000) as usize,
    {
        let bank: usize = if addr < 0xC000 { self.regs[1] as usize } else { 0 };
        let b = bank % self.prg_16k;
        assert(b < self.prg_16k);
        b * 0x4000 + off_16k(addr)
    }

    #[verifier::allow_in_spec]
    pub fn chr_index(&self, addr: u16) -> usize
        returns lo13(addr) as usize,
    {
        chr_off(addr)
    }

    pub open spec fn claims_low(addr: u16) -> bool {
        0x6000 <= addr <= 0x7FFF
    }

    pub open spec fn low_wrote(o: Self, n: Self, addr: u16, value: u8) -> bool {
        &&& n.prg_16k == o.prg_16k
        &&& n.regs@ == o.regs@
        &&& n.swram@ == o.swram@
        &&& n.wram@ == if Self::claims_low(addr) { o.wram@.update(o.wram_index(addr) as int, value) } else { o.wram@ }
    }

    pub fn write_low_register(&mut self, addr: u16, value: u8) -> (r: bool)
        requires old(self).wf(),
        ensures r == Self::claims_low(addr), Self::low_wrote(*old(self), *final(self), addr, value), final(self).wf(),
    {
        if 0x6000 <= addr && addr <= 0x7FFF {
            let index = self.wram_index(addr);
            self.wram.set(index, value);
            true
        } else {
            false
        }
    }

    /// PRG-RAM at $6000-$7FFF is replaced by the banked work RAM.
    pub fn low_prg_ram_read_enabled(&self, addr: u16) -> (r: bool)
        ensures r == !(0x6000 <= addr <= 0x7FFF),
    {
        !(0x6000 <= addr && addr <= 0x7FFF)
    }

    pub fn low_prg_ram_write_enabled(&self, addr: u16) -> (r: bool)
        ensures r == !(0x6000 <= addr <= 0x7FFF),
    {
        !(0x6000 <= addr && addr <= 0x7FFF)
    }

    #[verifier::allow_in_spec]
    pub fn peek_low_register(&self, addr: u16) -> Option<u8>
        requires self.wf(),
        returns if 0x6000 <= addr <= 0x7FFF { Some(self.wram@[self.wram_index(addr) as int]) } else { None },
    {
        if 0x6000 <= addr && addr <= 0x7FFF { Some(self.wram[self.wram_index(addr)]) } else { None }
    }

    pub fn read_low_register(&mut self, addr: u16) -> (r: Option<u8>)
        requires old(self).wf(),
        ensures r == old(self).peek_low_register(addr), *final(self) == *old(self),
    {
        self.peek_low_register(addr)
    }

    /// $4200/$4201/$4203 read 0, $4202 reads $40, the rest of $4204-$43FF
    /// reads $FF and $4400-$4FFF is the 3 KiB RAM.
    #[verifier::allow_in_spec]
    pub fn peek_expansion(&self, addr: u16) -> Option<u8>
        requires self.wf(),
        returns
            if addr == 0x4200 || addr == 0x4201 || addr == 0x4203 { Some(0u8) }
            else if addr == 0x4202 { Some(0x40u8) }
            else if 0x4204 <= addr <= 0x43FF { Some(0xFFu8) }
            else if 0x4400 <= addr <= 0x4FFF { Some(self.swram@[addr - 0x4400]) }
            else { None },
    {
        if addr == 0x4200 || addr == 0x4201 || addr == 0x4203 {
            Some(0)
        } else if addr == 0x4202 {
            Some(0x40)
        } else if 0x4204 <= addr && addr <= 0x43FF {
            Some(0xFF)
        } else if 0x4400 <= addr && addr <= 0x4FFF {
            Some(self.swram[(addr - 0x4400) as usize])
        } else {
            None
        }
    }

    pub fn read_expansion(&mut self, addr: u16) -> (r: Option<u8>)
        requires old(self).wf(),
        ensures r == old(self).peek_expansion(addr), *final(self) == *old(self),
    {
        self.peek_expansion(addr)
    }

    /// Writes to $4200-$43FF set register `addr & 3`; $4400-$4FFF is RAM.
    pub open spec fn expansion_wrote(o: Self, n: Self, addr: u16, value: u8) -> bool {
        &&& n.prg_16k == o.prg_16k
        &&& n.wram@ == o.wram@
        &&& n.regs@ == if 0x4200 <= addr <= 0x43FF { o.regs@.update((addr % 4) as int, value) } else { o.regs@ }
        &&& n.swram@ == if 0x4400 <= addr <= 0x4FFF { o.swram@.update(addr - 0x4400, value) } else { o.swram@ }
    }

    pub fn write_expansion(&mut self, addr: u16, value: u8)
        requires old(self).wf(),
        ensures Self::expansion_wrote(*old(self), *final(self), addr, value), final(self).wf(),
    {
        if 0x4200 <= addr && addr <= 0x43FF {
            self.regs[(addr % 4) as usize] = value;
        } else if 0x4400 <= addr && addr <= 0x4FFF {
            self.swram.set((addr - 0x4400) as usize, value);
        }
    }

    #[verifier::allow_in_spec]
    pub fn mirroring(&self) -> Mirroring
        returns Mirroring::Horizontal,
    {
        Mirroring::Horizontal
    }
}

// --------------------------------------------------------------- Mapper 218

/// Mapper 218 — Magic Floor: no CHR chip; the pattern tables are the 2 KiB
/// of console nametable RAM, with the page chosen by the solder-pad
/// mirroring (four-screen pads act as single-screen A).
#[derive(Debug, Clone)]
pub struct Mapper218 {
    pub pattern_ram: Vec<u8>,
    pub mirroring: Mirroring,
}

pub open spec fn pad_mirroring(m: Mirroring) -> Mirroring {
    if m == Mirroring::FourScreen { Mirroring::SingleScreenLow } else { m }
}

impl Mapper218 {
    pub open spec fn wf(&self) -> bool {
        self.pattern_ram@.len() == 0x0800
    }

    pub open spec fn fresh(self, mirroring: Mirroring) -> bool {
        &&& self.mirroring == pad_mirroring(mirroring)
        &&& self.pattern_ram@ == Seq::new(0x0800, |i: int| 0u8)
    }

    pub fn new(mirroring: Mirroring) -> (r: Self)
        ensures r.fresh(mirroring), r.wf(),
    {
        let mirroring = match mirroring {
            Mirroring::FourScreen => Mirroring::SingleScreenLow,
            other => other,
        };
        Mapper218 { pattern_ram: crate::bytes::zeros(0x0800), mirroring }
    }

    /// Which 1 KiB half of the RAM a pattern page (1 KiB unit, 0-7) uses.
    pub open spec fn page_bit(self, page: int) -> int {
        match self.mirroring {
            Mirroring::Vertical => page % 2,
            Mirroring::Horizontal => (page / 2) % 2,
            Mirroring::SingleScreenLow => if page >= 4 { 1 } else { 0 },
            _ => 0,
        }
    }

    #[verifier::allow_in_spec]
    pub fn pattern_ram_index(&self, addr: u16) -> usize
        returns (self.page_bit(lo13(addr) / 0x400) * 0x400 + lo13(addr) % 0x400) as usize,
    {
        let a = chr_off(addr);
        let page = a / 0x0400;
        let page_bit: usize = match self.mirroring {
            Mirroring::Vertical => (page % 2),
            Mirroring::Horizontal => ((page / 2) % 2),
            Mirroring::SingleScreenLow => if page >= 4 { 1 } else { 0 },
            _ => 0,
        };
        page_bit * 0x0400 + a % 0x0400
    }

    #[verifier::allow_in_spec]
    pub fn prg_index(&self, addr: u16) -> usize
        returns (addr % 0x8000) as usize,
    {
        ((addr % 0x8000)) as usize
    }

    #[verifier::allow_in_spec]
    pub fn chr_index(&self, addr: u16) -> usize
        returns self.pattern_ram_index(addr),
    {
        self.pattern_ram_index(addr)
    }

    #[verifier::allow_in_spec]
    pub fn chr_read(&self, addr: u16, access: ChrAccess) -> Option<u8>
        requires self.wf(),
        returns Some(self.pattern_ram@[self.pattern_ram_index(addr) as int]),
    {
        Some(self.pattern_ram[self.pattern_ram_index(addr)])
    }

    #[verifier::allow_in_spec]
    pub fn has_chr_read(&self) -> bool
        returns true,
    {
        true
    }

    pub open spec fn claims_chr_write(&self, addr: u16) -> bool {
        true
    }

    pub open spec fn chr_wrote(o: Self, n: Self, addr: u16, value: u8) -> bool {
        &&& n.mirroring == o.mirroring
        &&& n.pattern_ram@ == o.pattern_ram@.update(o.pattern_ram_index(addr) as int, value)
    }

    pub fn chr_write(&mut self, addr: u16, value: u8) -> (r: bool)
        requires old(self).wf(),
        ensures
            r == old(self).claims_chr_write(addr),
            Self::chr_wrote(*old(self), *final(self), addr, value),
            final(self).wf(),
    {
        let index = self.pattern_ram_index(addr);
        self.pattern_ram.set(index, value);
        true
    }

    #[verifier::allow_in_spec]
    pub fn mirroring(&self) -> Mirroring
        returns self.mirroring,
    {
        self.mirroring
    }
}

} // verus!
