//! Sachen boards: simple latches decoded in the $4100 window (133, 146/148,
//! 149) and the register-file chips 8259 (137/141) and 74LS374N (150/243).

use vstd::prelude::*;

verus! {

use crate::mapper::MAX_PRG_16K;
use crate::mapper::ave::prg_32k_of;
use crate::mapper::bank::{page_spec, prg_32k, chr_8k, chr_1k_at, chr_2k_at};
use crate::types::Mirroring;

/// A Sachen latch value: its (PRG, CHR) bank numbers.
pub open spec fn latch133(value: u8) -> (usize, usize) {
    (((value / 4) % 2) as usize, (value % 4) as usize)
}

// --------------------------------------------------------------- Mapper 133

/// Mapper 133 — Sachen SA72008: one latch (PRG 32 KiB bit 2, CHR 8 KiB
/// bits 0-1) written at $8000-$FFFF or any address decoding as $4100.
#[derive(Debug, Clone, Copy)]
pub struct Sachen133 {
    pub prg_32k: usize,
    pub prg_bank: usize,
    pub chr_bank: usize,
    pub mirroring: Mirroring,
}

impl Sachen133 {
    pub open spec fn wf(&self) -> bool {
        1 <= self.prg_32k <= MAX_PRG_16K && self.prg_bank < 2 && self.chr_bank < 4
    }

    pub fn new(prg_16k: usize, mirroring: Mirroring) -> (r: Self)
        requires prg_16k <= MAX_PRG_16K,
        ensures r == (Sachen133 { prg_32k: prg_32k_of(prg_16k), prg_bank: 0, chr_bank: 0, mirroring }), r.wf(),
    {
        let half = prg_16k / 2 + prg_16k % 2;
        Sachen133 { prg_32k: if half == 0 { 1 } else { half }, prg_bank: 0, chr_bank: 0, mirroring }
    }

    pub open spec fn latched(self, value: u8) -> Self {
        Sachen133 { prg_bank: latch133(value).0, chr_bank: latch133(value).1, ..self }
    }

    fn set_latch(&mut self, value: u8)
        ensures *final(self) == old(self).latched(value),
    {
        self.prg_bank = (((value / 4) % 2)) as usize;
        self.chr_bank = ((value % 4)) as usize;
    }

    pub open spec fn claims_low(addr: u16) -> bool {
        addr & 0x6100 == 0x4100
    }

    #[verifier::allow_in_spec]
    pub fn prg_index(&self, addr: u16) -> usize
        requires self.wf(),
        returns page_spec((self.prg_bank % self.prg_32k) as int, 0x8000, addr, 0x8000) as usize,
    {
        prg_32k(self.prg_bank % self.prg_32k, addr)
    }

    #[verifier::allow_in_spec]
    pub fn chr_index(&self, addr: u16) -> usize
        requires self.wf(),
        returns page_spec(self.chr_bank as int, 0x2000, addr, 0) as usize,
    {
        chr_8k(self.chr_bank, addr)
    }

    pub open spec fn written(self, addr: u16, value: u8) -> Self {
        self.latched(value)
    }

    pub fn write_register(&mut self, addr: u16, value: u8)
        requires old(self).wf(),
        ensures *final(self) == old(self).written(addr, value), final(self).wf(),
    {
        self.set_latch(value);
    }

    pub open spec fn low_written(self, addr: u16, value: u8) -> Self {
        if Self::claims_low(addr) { self.latched(value) } else { self }
    }

    pub fn write_low_register(&mut self, addr: u16, value: u8) -> (r: bool)
        requires old(self).wf(),
        ensures r == Self::claims_low(addr), *final(self) == old(self).low_written(addr, value), final(self).wf(),
    {
        if addr & 0x6100 == 0x4100 {
            self.set_latch(value);
            true
        } else {
            false
        }
    }

    pub open spec fn expansion_written(self, addr: u16, value: u8) -> Self {
        self.low_written(addr, value)
    }

    pub fn write_expansion(&mut self, addr: u16, value: u8)
        requires old(self).wf(),
        ensures *final(self) == old(self).expansion_written(addr, value), final(self).wf(),
    {
        if addr & 0x6100 == 0x4100 {
            self.set_latch(value);
        }
    }

    #[verifier::allow_in_spec]
    pub fn mirroring(&self) -> Mirroring
        returns self.mirroring,
    {
        self.mirroring
    }
}

// ----------------------------------------------------------- Mapper 146/148

/// Mappers 146/148 — Sachen SA016-1M / SA0037: PRG 32 KiB bit 3, CHR 8 KiB
/// bits 0-2; 146 latches in the $4100 window, 148 at $8000-$FFFF.
#[derive(Debug, Clone, Copy)]
pub struct SachenSa0161m {
    pub prg_bank: usize,
    pub chr_bank: usize,
    pub mirroring: Mirroring,
    pub high_writes: bool,
}

impl SachenSa0161m {
    pub open spec fn wf(&self) -> bool {
        self.prg_bank < 2 && self.chr_bank < 8
    }

    pub fn new(mirroring: Mirroring, high_writes: bool) -> (r: Self)
        ensures r == (SachenSa0161m { prg_bank: 0, chr_bank: 0, mirroring, high_writes }), r.wf(),
    {
        SachenSa0161m { prg_bank: 0, chr_bank: 0, mirroring, high_writes }
    }

    pub open spec fn latched(self, value: u8) -> Self {
        SachenSa0161m { prg_bank: ((value / 8) % 2) as usize, chr_bank: (value % 8) as usize, ..self }
    }

    fn set_latch(&mut self, value: u8)
        ensures *final(self) == old(self).latched(value),
    {
        self.prg_bank = (((value / 8) % 2)) as usize;
        self.chr_bank = ((value % 8)) as usize;
    }

    /// The low window answers only on the $4100-decoding board.
    pub open spec fn claims_low(&self, addr: u16) -> bool {
        !self.high_writes && addr & 0xE100 == 0x4100
    }

    #[verifier::allow_in_spec]
    pub fn prg_index(&self, addr: u16) -> usize
        requires self.wf(),
        returns page_spec(self.prg_bank as int, 0x8000, addr, 0x8000) as usize,
    {
        prg_32k(self.prg_bank, addr)
    }

    #[verifier::allow_in_spec]
    pub fn chr_index(&self, addr: u16) -> usize
        requires self.wf(),
        returns page_spec(self.chr_bank as int, 0x2000, addr, 0) as usize,
    {
        chr_8k(self.chr_bank, addr)
    }

    pub open spec fn written(self, addr: u16, value: u8) -> Self {
        if self.high_writes { self.latched(value) } else { self }
    }

    pub fn write_register(&mut self, addr: u16, value: u8)
        requires old(self).wf(),
        ensures *final(self) == old(self).written(addr, value), final(self).wf(),
    {
        if self.high_writes {
            self.set_latch(value);
        }
    }

    pub open spec fn low_written(self, addr: u16, value: u8) -> Self {
        if self.claims_low(addr) { self.latched(value) } else { self }
    }

    pub fn write_low_register(&mut self, addr: u16, value: u8) -> (r: bool)
        requires old(self).wf(),
        ensures r == old(self).claims_low(addr), *final(self) == old(self).low_written(addr, value), final(self).wf(),
    {
        if !self.high_writes && addr & 0xE100 == 0x4100 {
            self.set_latch(value);
            true
        } else {
            false
        }
    }

    pub open spec fn expansion_written(self, addr: u16, value: u8) -> Self {
        self.low_written(addr, value)
    }

    pub fn write_expansion(&mut self, addr: u16, value: u8)
        requires old(self).wf(),
        ensures *final(self) == old(self).expansion_written(addr, value), final(self).wf(),
    {
        if !self.high_writes && addr & 0xE100 == 0x4100 {
            self.set_latch(value);
        }
    }

    #[verifier::allow_in_spec]
    pub fn mirroring(&self) -> Mirroring
        returns self.mirroring,
    {
        self.mirroring
    }
}

// --------------------------------------------------------------- Mapper 149

/// Mapper 149 — Sachen SA0036: fixed 32 KiB PRG, CHR 8 KiB bank from bit 7.
#[derive(Debug, Clone, Copy)]
pub struct Sachen149 {
    pub chr_bank: usize,
    pub mirroring: Mirroring,
}

impl Sachen149 {
    pub open spec fn wf(&self) -> bool {
        self.chr_bank < 2
    }

    pub fn new(mirroring: Mirroring) -> (r: Self)
        ensures r == (Sachen149 { chr_bank: 0, mirroring }), r.wf(),
    {
        Sachen149 { chr_bank: 0, mirroring }
    }

    #[verifier::allow_in_spec]
    pub fn prg_index(&self, addr: u16) -> usize
        returns page_spec(0, 0x8000, addr, 0x8000) as usize,
    {
        prg_32k(0, addr)
    }

    #[verifier::allow_in_spec]
    pub fn chr_index(&self, addr: u16) -> usize
        requires self.wf(),
        returns page_spec(self.chr_bank as int, 0x2000, addr, 0) as usize,
    {
        chr_8k(self.chr_bank, addr)
    }

    pub open spec fn written(self, addr: u16, value: u8) -> Self {
        Sachen149 { chr_bank: (value / 128) as usize, ..self }
    }

    pub fn write_register(&mut self, addr: u16, value: u8)
        requires old(self).wf(),
        ensures *final(self) == old(self).written(addr, value), final(self).wf(),
    {
        self.chr_bank = ((value / 128)) as usize;
    }

    #[verifier::allow_in_spec]
    pub fn mirroring(&self) -> Mirroring
        returns self.mirroring,
    {
        self.mirroring
    }
}

// ----------------------------------------------------------- Mapper 137/141

#[derive(Debug, Clone, Copy, PartialEq, Eq, Structural)]
pub enum Sachen8259Variant {
    Mapper137D,
    Mapper141A,
}

/// Is `addr` one of the two register ports ($4100 select, $4101 data) of
/// the Sachen register-file chips?
pub open spec fn sachen_port(addr: u16) -> bool {
    addr & 0xC101 == 0x4100 || addr & 0xC101 == 0x4101
}

/// Mappers 137/141 — Sachen 8259D / 8259A: eight 3-bit registers selected
/// through $4100 and written through $4101. Register 5 picks 32 KiB PRG,
/// registers 0-4 and 6 build the CHR banks (1 KiB on the D chip, 2 KiB on
/// the A chip), register 7 holds simple mode and mirroring.
#[derive(Debug, Clone, Copy)]
pub struct Sachen8259 {
    pub prg_32k: usize,
    pub chr_1k_total: usize,
    pub variant: Sachen8259Variant,
    pub current_register: u8,
    pub regs: [u8; 8],
}

impl Sachen8259 {
    pub open spec fn wf(&self) -> bool {
        &&& 1 <= self.prg_32k <= MAX_PRG_16K
        &&& 8 <= self.chr_1k_total <= 0x10_0000
        &&& self.current_register < 8
        &&& forall|i: int| 0 <= i < 8 ==> #[trigger] self.regs@[i] < 8
    }

    pub open spec fn fresh(self, prg_16k: usize, chr_8k: usize, variant: Sachen8259Variant) -> bool {
        &&& self.prg_32k == prg_32k_of(prg_16k)
        &&& self.chr_1k_total == if chr_8k * 8 < 8 { 8 } else { chr_8k * 8 }
        &&& self.variant == variant
        &&& self.current_register == 0
        &&& self.regs@ == Seq::new(8, |i: int| 0u8)
    }

    pub fn new(prg_16k: usize, chr_8k: usize, variant: Sachen8259Variant) -> (r: Self)
        requires prg_16k <= MAX_PRG_16K, chr_8k <= 0x2_0000,
        ensures r.fresh(prg_16k, chr_8k, variant), r.wf(),
    {
        let half = prg_16k / 2 + prg_16k % 2;
        let total = chr_8k * 8;
        let r = Sachen8259 {
            prg_32k: if half == 0 { 1 } else { half },
            chr_1k_total: if total < 8 { 8 } else { total },
            variant,
            current_register: 0,
            regs: [0u8, 0, 0, 0, 0, 0, 0, 0],
        };
        assert(r.regs@ =~= Seq::new(8, |i: int| 0u8));
        r
    }

    pub open spec fn reg(self, i: int) -> int {
        self.regs@[i] as int
    }

    pub open spec fn claims_low(addr: u16) -> bool {
        sachen_port(addr)
    }

    /// Effect of a register-port write: $4100 selects, $4101 stores (3 bits).
    pub open spec fn port_wrote(o: Self, n: Self, addr: u16, value: u8) -> bool {
        &&& n.prg_32k == o.prg_32k && n.chr_1k_total == o.chr_1k_total && n.variant == o.variant
        &&& n.current_register == if addr & 0xC101 == 0x4100 { value % 8 } else { o.current_register }
        &&& n.regs@ == if addr & 0xC101 == 0x4101 { o.regs@.update(o.current_register as int, value % 8) } else { o.regs@ }
    }

    fn write_sachen_register(&mut self, addr: u16, value: u8) -> (r: bool)
        requires old(self).wf(),
        ensures r == sachen_port(addr), Self::port_wrote(*old(self), *final(self), addr, value), final(self).wf(),
    {
        let port = addr & 0xC101;
        if !(port == 0x4100 || port == 0x4101) {
            return false;
        }
        if port == 0x4100 {
            self.current_register = (value % 8);
        } else {
            self.regs[self.current_register as usize] = (value % 8);
        }
        true
    }

    pub open spec fn wrote(o: Self, n: Self, addr: u16, value: u8) -> bool {
        Self::port_wrote(o, n, addr, value)
    }

    pub fn write_register(&mut self, addr: u16, value: u8)
        requires old(self).wf(),
        ensures Self::wrote(*old(self), *final(self), addr, value), final(self).wf(),
    {
        let _ = self.write_sachen_register(addr, value);
    }

    pub open spec fn low_wrote(o: Self, n: Self, addr: u16, value: u8) -> bool {
        Self::port_wrote(o, n, addr, value)
    }

    pub fn write_low_register(&mut self, addr: u16, value: u8) -> (r: bool)
        requires old(self).wf(),
        ensures r == Self::claims_low(addr), Self::low_wrote(*old(self), *final(self), addr, value), final(self).wf(),
    {
        self.write_sachen_register(addr, value)
    }

    pub open spec fn expansion_wrote(o: Self, n: Self, addr: u16, value: u8) -> bool {
        Self::port_wrote(o, n, addr, value)
    }

    pub fn write_expansion(&mut self, addr: u16, value: u8)
        requires old(self).wf(),
        ensures Self::expansion_wrote(*old(self), *final(self), addr, value), final(self).wf(),
    {
        let _ = self.write_sachen_register(addr, value);
    }

    #[verifier::allow_in_spec]
    pub fn simple_mode(&self) -> bool
        returns self.regs@[7] % 2 == 1,
    {
        let r7 = self.regs[7];
        (r7 % 2 == 1)
    }

    /// 8259A: 2 KiB CHR bank for slot 0-3 — register 4 gives the high bits,
    /// the slot's register (register 0 in simple mode) the low ones, and odd
    /// slots take the odd half.
    #[verifier::allow_in_spec]
    pub fn chr_bank_2k_a(&self, slot: usize) -> usize
        requires self.wf(), slot < 4,
        returns ((self.reg(4) * 8 + self.reg(if self.simple_mode() { 0 } else { slot as int })) * 2
            + (if slot == 1 || slot == 3 { 1int } else { 0 })) as usize,
    {
        let r4 = self.regs[4];
        let ri = if self.simple_mode() { 0 } else { slot };
        let rv = self.regs[ri];
        assert(r4 < 8 && rv < 8);
        let high: u8 = r4 * 8 + rv;
        let or: usize = if slot == 1 || slot == 3 { 1 } else { 0 };
        (high as usize) * 2 + or
    }

    /// 8259D: 1 KiB CHR bank for slot 0-7 — slot 0 from register 0, slots
    /// 1-3 from their register (register 0 in simple mode) plus a high bit
    /// from register 4 (and register 6 for slot 3), wrapped to the CHR size;
    /// slots 4-7 are the last four 1 KiB banks.
    pub open spec fn chr_bank_1k_d_spec(self, slot: int) -> int {
        let low = |k: int| self.reg(if self.simple_mode() { 0 } else { k });
        if slot == 0 { self.reg(0) }
        else if slot == 1 { ((self.reg(4) % 2) * 16 + low(1)) % (self.chr_1k_total as int) }
        else if slot == 2 { (((self.reg(4) / 2) % 2) * 16 + low(2)) % (self.chr_1k_total as int) }
        else if slot == 3 { (((self.reg(4) / 4) % 2) * 16 + (self.reg(6) % 2) * 8 + low(3)) % (self.chr_1k_total as int) }
        else { self.chr_1k_total - 4 + (slot - 4) }
    }

    pub fn chr_bank_1k_d(&self, slot: usize) -> (r: usize)
        requires self.wf(), slot < 8,
        ensures r == self.chr_bank_1k_d_spec(slot as int),
    {
        let r4 = self.regs[4];
        let r6 = self.regs[6];
        let simple = self.simple_mode();
        if slot == 0 {
            self.regs[0] as usize
        } else if slot < 4 {
            let reg = if simple { self.regs[0] } else { self.regs[slot] };
            assert(reg < 8);
            let v: u8 = if slot == 1 {
                (r4 % 2) * 16 + reg
            } else if slot == 2 {
                ((r4 / 2) % 2) * 16 + reg
            } else {
                ((r4 / 4) % 2) * 16 + (r6 % 2) * 8 + reg
            };
            (v as usize) % self.chr_1k_total
        } else {
            self.chr_1k_total - 4 + (slot - 4)
        }
    }

    /// Mirroring from register 7 bits 1-2 (simple mode forces the first
    /// setting); the D chip swaps horizontal and vertical.
    #[verifier::allow_in_spec]
    pub fn mirroring(&self) -> Mirroring
        returns ({
            let sel = if self.simple_mode() { 0 } else { (self.reg(7) / 2) % 4 };
            let d = self.variant == Sachen8259Variant::Mapper137D;
            if sel == 0 { if d { Mirroring::Horizontal } else { Mirroring::Vertical } }
            else if sel == 1 { if d { Mirroring::Vertical } else { Mirroring::Horizontal } }
            else if sel == 2 { Mirroring::FourScreen }
            else { Mirroring::SingleScreenLow }
        }),
    {
        let d = match self.variant { Sachen8259Variant::Mapper137D => true, Sachen8259Variant::Mapper141A => false };
        if self.simple_mode() {
            return if d { Mirroring::Horizontal } else { Mirroring::Vertical };
        }
        let r7 = self.regs[7];
        let sel = ((r7 / 2) % 4);
        if sel == 0 {
            if d { Mirroring::Horizontal } else { Mirroring::Vertical }
        } else if sel == 1 {
            if d { Mirroring::Vertical } else { Mirroring::Horizontal }
        } else if sel == 2 {
            Mirroring::FourScreen
        } else {
            Mirroring::SingleScreenLow
        }
    }

    #[verifier::allow_in_spec]
    pub fn prg_index(&self, addr: u16) -> usize
        requires self.wf(),
        returns page_spec((self.reg(5) % (self.prg_32k as int)), 0x8000, addr, 0x8000) as usize,
    {
        prg_32k((self.regs[5] as usize) % self.prg_32k, addr)
    }

    pub open spec fn chr_index_spec(self, addr: u16) -> int {
        if self.variant == Sachen8259Variant::Mapper137D {
            let slot = (addr / 0x400) % 8;
            page_spec(self.chr_bank_1k_d_spec(slot as int), 0x400, addr, (slot * 0x400) as u16)
        } else {
            let slot = (addr / 0x800) % 4;
            page_spec(self.chr_bank_2k_a(slot as usize) as int, 0x800, addr, (slot * 0x800) as u16)
        }
    }

    #[verifier::allow_in_spec]
    pub fn chr_index(&self, addr: u16) -> usize
        requires self.wf(),
        returns self.chr_index_spec(addr) as usize,
    {
        match self.variant {
            Sachen8259Variant::Mapper137D => {
                let slot = (((addr / 0x400) % 8)) as usize;
                chr_1k_at(self.chr_bank_1k_d(slot), addr, (slot * 0x400) as u16)
            },
            Sachen8259Variant::Mapper141A => {
                let slot = (((addr / 0x800) % 4)) as usize;
                chr_2k_at(self.chr_bank_2k_a(slot), addr, (slot * 0x800) as u16)
            },
        }
    }

    pub open spec fn was_reset(o: Self, n: Self, soft: bool) -> bool {
        &&& n.prg_32k == o.prg_32k && n.chr_1k_total == o.chr_1k_total && n.variant == o.variant
        &&& n.current_register == 0
        &&& n.regs@ == Seq::new(8, |i: int| 0u8)
    }

    pub fn reset(&mut self, soft: bool)
        requires old(self).wf(),
        ensures Self::was_reset(*old(self), *final(self), soft), final(self).wf(),
    {
        self.current_register = 0;
        self.regs = [0u8, 0, 0, 0, 0, 0, 0, 0];
        assert(self.regs@ =~= Seq::new(8, |i: int| 0u8));
    }
}

// ----------------------------------------------------------- Mapper 150/243

#[derive(Debug, Clone, Copy, PartialEq, Eq, Structural)]
pub enum Sachen74Ls374NVariant {
    Mapper150,
    Mapper243,
}

/// Mappers 150/243 — Sachen 74LS374N: the same register file; register 5
/// picks PRG, registers 2/4/6 CHR, register 7 mirroring. On 150 a DIP bit
/// (toggled by soft reset) forces bit 2 into writes and narrows the
/// readback of the selected register through $4101.
#[derive(Debug, Clone, Copy)]
pub struct Sachen74Ls374N {
    pub prg_32k: usize,
    pub variant: Sachen74Ls374NVariant,
    pub current_register: u8,
    pub regs: [u8; 8],
    pub dip: u8,
}

impl Sachen74Ls374N {
    pub open spec fn wf(&self) -> bool {
        &&& 1 <= self.prg_32k <= MAX_PRG_16K
        &&& self.current_register < 8
        &&& forall|i: int| 0 <= i < 8 ==> #[trigger] self.regs@[i] < 8
    }

    pub open spec fn fresh(self, prg_16k: usize, variant: Sachen74Ls374NVariant) -> bool {
        &&& self.prg_32k == prg_32k_of(prg_16k)
        &&& self.variant == variant
        &&& self.current_register == 0
        &&& self.regs@ == Seq::new(8, |i: int| 0u8)
        &&& self.dip == 0
    }

    pub fn new(prg_16k: usize, variant: Sachen74Ls374NVariant) -> (r: Self)
        requires prg_16k <= MAX_PRG_16K,
        ensures r.fresh(prg_16k, variant), r.wf(),
    {
        let half = prg_16k / 2 + prg_16k % 2;
        let r = Sachen74Ls374N {
            prg_32k: if half == 0 { 1 } else { half },
            variant,
            current_register: 0,
            regs: [0u8, 0, 0, 0, 0, 0, 0, 0],
            dip: 0,
        };
        assert(r.regs@ =~= Seq::new(8, |i: int| 0u8));
        r
    }

    pub open spec fn reg(self, i: int) -> int {
        self.regs@[i] as int
    }

    #[verifier::allow_in_spec]
    pub fn chr_bank(&self) -> usize
        requires self.wf(),
        returns (if self.variant == Sachen74Ls374NVariant::Mapper150 {
            (self.reg(4) % 2) * 4 + self.reg(6) % 4
        } else {
            self.reg(2) % 2 + (self.reg(4) % 2) * 2 + (self.reg(6) % 4) * 4
        }) as usize,
    {
        let r2 = self.regs[2];
        let r4 = self.regs[4];
        let r6 = self.regs[6];
        match self.variant {
            Sachen74Ls374NVariant::Mapper150 => {
                (((r4 % 2) * 4 + r6 % 4)) as usize
            },
            Sachen74Ls374NVariant::Mapper243 => {
                (r2 % 2 + (r4 % 2) * 2 + (r6 % 4) * 4) as usize
            },
        }
    }

    #[verifier::allow_in_spec]
    pub fn prg_bank(&self) -> usize
        returns (self.reg(5) % 4) as usize,
    {
        let r5 = self.regs[5];
        ((r5 % 4)) as usize
    }

    #[verifier::allow_in_spec]
    pub fn mirroring(&self) -> Mirroring
        returns ({
            let sel = (self.reg(7) / 2) % 4;
            if sel == 0 { Mirroring::FourScreen }
            else if sel == 1 { Mirroring::Horizontal }
            else if sel == 2 { Mirroring::Vertical }
            else { Mirroring::SingleScreenLow }
        }),
    {
        let r7 = self.regs[7];
        let sel = ((r7 / 2) % 4);
        if sel == 0 {
            Mirroring::FourScreen
        } else if sel == 1 {
            Mirroring::Horizontal
        } else if sel == 2 {
            Mirroring::Vertical
        } else {
            Mirroring::SingleScreenLow
        }
    }

    pub open spec fn claims_low(addr: u16) -> bool {
        sachen_port(addr)
    }

    /// The stored value: on 150 with the DIP bit set, bit 2 is forced on.
    pub open spec fn effective(self, value: u8) -> u8 {
        if self.variant == Sachen74Ls374NVariant::Mapper150 && self.dip % 2 == 1 { value | 0x04 } else { value }
    }

    pub open spec fn port_wrote(o: Self, n: Self, addr: u16, value: u8) -> bool {
        let v = o.effective(value);
        &&& n.prg_32k == o.prg_32k && n.variant == o.variant && n.dip == o.dip
        &&& n.current_register == if addr & 0xC101 == 0x4100 { v % 8 } else { o.current_register }
        &&& n.regs@ == if addr & 0xC101 == 0x4101 { o.regs@.update(o.current_register as int, v % 8) } else { o.regs@ }
    }

    fn write_sachen_register(&mut self, addr: u16, value: u8) -> (r: bool)
        requires old(self).wf(),
        ensures r == sachen_port(addr), Self::port_wrote(*old(self), *final(self), addr, value), final(self).wf(),
    {
        let port = addr & 0xC101;
        if !(port == 0x4100 || port == 0x4101) {
            return false;
        }
        let d = self.dip;
        let is150 = match self.variant { Sachen74Ls374NVariant::Mapper150 => true, Sachen74Ls374NVariant::Mapper243 => false };
        let v = if is150 && (d % 2 == 1) { value | 0x04 } else { value };
        if port == 0x4100 {
            self.current_register = (v % 8);
        } else {
            self.regs[self.current_register as usize] = (v % 8);
        }
        true
    }

    pub open spec fn wrote(o: Self, n: Self, addr: u16, value: u8) -> bool {
        Self::port_wrote(o, n, addr, value)
    }

    pub fn write_register(&mut self, addr: u16, value: u8)
        requires old(self).wf(),
        ensures Self::wrote(*old(self), *final(self), addr, value), final(self).wf(),
    {
        let _ = self.write_sachen_register(addr, value);
    }

    pub open spec fn low_wrote(o: Self, n: Self, addr: u16, value: u8) -> bool {
        Self::port_wrote(o, n, addr, value)
    }

    pub fn write_low_register(&mut self, addr: u16, value: u8) -> (r: bool)
        requires old(self).wf(),
        ensures r == Self::claims_low(addr), Self::low_wrote(*old(self), *final(self), addr, value), final(self).wf(),
    {
        self.write_sachen_register(addr, value)
    }

    pub open spec fn expansion_wrote(o: Self, n: Self, addr: u16, value: u8) -> bool {
        Self::port_wrote(o, n, addr, value)
    }

    pub fn write_expansion(&mut self, addr: u16, value: u8)
        requires old(self).wf(),
        ensures Self::expansion_wrote(*old(self), *final(self), addr, value), final(self).wf(),
    {
        let _ = self.write_sachen_register(addr, value);
    }

    /// Readback of the selected register through $4101 (150 only): the
    /// open-bus byte keeps its upper bits; with the DIP bit set only two
    /// register bits come through.
    #[verifier::allow_in_spec]
    pub fn read_sachen_register(&self, addr: u16, open_bus: u8) -> Option<u8>
        requires self.wf(),
        returns if self.variant != Sachen74Ls374NVariant::Mapper150 || addr & 0xC101 != 0x4101 { None } else {
            let value = self.regs@[self.current_register as int];
            Some(if self.dip % 2 == 1 { (open_bus & 0xFC) | (value & 0x03) } else { (open_bus & 0xF8) | (value & 0x07) })
        },
    {
        let is150 = match self.variant { Sachen74Ls374NVariant::Mapper150 => true, Sachen74Ls374NVariant::Mapper243 => false };
        if !is150 || (addr & 0xC101) != 0x4101 {
            return None;
        }
        let value = self.regs[self.current_register as usize];
        let d = self.dip;
        Some(if (d % 2 == 1) { (open_bus & 0xFC) | (value & 0x03) } else { (open_bus & 0xF8) | (value & 0x07) })
    }

    pub fn read_expansion_with_open_bus(&mut self, addr: u16, open_bus: u8) -> (r: Option<u8>)
        requires old(self).wf(),
        ensures r == old(self).read_sachen_register(addr, open_bus), *final(self) == *old(self),
    {
        self.read_sachen_register(addr, open_bus)
    }

    pub fn peek_expansion_with_open_bus(&self, addr: u16, open_bus: u8) -> (r: Option<u8>)
        requires self.wf(),
        ensures r == self.read_sachen_register(addr, open_bus),
    {
        self.read_sachen_register(addr, open_bus)
    }

    pub fn read_low_register_with_open_bus(&mut self, addr: u16, prg_ram_value: u8, open_bus: u8) -> (r: Option<u8>)
        requires old(self).wf(),
        ensures r == old(self).read_sachen_register(addr, open_bus), *final(self) == *old(self),
    {
        self.read_sachen_register(addr, open_bus)
    }

    pub fn peek_low_register_with_open_bus(&self, addr: u16, prg_ram_value: u8, open_bus: u8) -> (r: Option<u8>)
        requires self.wf(),
        ensures r == self.read_sachen_register(addr, open_bus),
    {
        self.read_sachen_register(addr, open_bus)
    }

    #[verifier::allow_in_spec]
    pub fn prg_index(&self, addr: u16) -> usize
        requires self.wf(),
        returns page_spec((self.prg_bank() % self.prg_32k) as int, 0x8000, addr, 0x8000) as usize,
    {
        prg_32k(self.prg_bank() % self.prg_32k, addr)
    }

    #[verifier::allow_in_spec]
    pub fn chr_index(&self, addr: u16) -> usize
        requires self.wf(),
        returns page_spec(self.chr_bank() as int, 0x2000, addr, 0) as usize,
    {
        chr_8k(self.chr_bank(), addr)
    }

    /// Reset clears the register file; a soft reset of 150 flips the DIP bit.
    pub open spec fn was_reset(o: Self, n: Self, soft: bool) -> bool {
        &&& n.prg_32k == o.prg_32k && n.variant == o.variant
        &&& n.current_register == 0
        &&& n.regs@ == Seq::new(8, |i: int| 0u8)
        &&& n.dip == if soft && o.variant == Sachen74Ls374NVariant::Mapper150 { o.dip ^ 1 } else { o.dip }
    }

    pub fn reset(&mut self, soft: bool)
        requires old(self).wf(),
        ensures Self::was_reset(*old(self), *final(self), soft), final(self).wf(),
    {
        self.current_register = 0;
        self.regs = [0u8, 0, 0, 0, 0, 0, 0, 0];
        assert(self.regs@ =~= Seq::new(8, |i: int| 0u8));
        let is150 = match self.variant { Sachen74Ls374NVariant::Mapper150 => true, Sachen74Ls374NVariant::Mapper243 => false };
        if soft && is150 {
            self.dip = self.dip ^ 1;
        }
    }
}

} // verus!
