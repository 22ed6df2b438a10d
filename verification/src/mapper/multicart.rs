//! Multicarts: the Action Enterprises board (228) and the family of boards
//! that latch their banks from the written address (`AddrLatch16k`).

use vstd::prelude::*;

verus! {

use crate::mapper::latch::lo13;
use crate::mapper::MAX_PRG_16K;
use crate::types::Mirroring;

/// Is the address bit of weight `w` (a power of two) set?
pub open spec fn bit(addr: u16, w: int) -> bool {
    ((addr as int) / w) % 2 == 1
}

/// A 16 KiB page pair: the bank twice (NROM-128) or its even/odd pair.
pub open spec fn nrom(bank: int, single: bool) -> Seq<usize> {
    if single { seq![bank as usize, bank as usize] }
    else { seq![(bank - bank % 2) as usize, (bank - bank % 2 + 1) as usize] }
}

pub open spec fn pair(a: int, b: int) -> Seq<usize> {
    seq![a as usize, b as usize]
}

fn nrom_of(bank: usize, single: bool) -> (r: [usize; 2])
    requires bank < 0x10000,
    ensures r@ == nrom(bank as int, single),
{
    let r = if single { [bank, bank] } else { [bank - bank % 2, bank - bank % 2 + 1] };
    assert(r@ =~= nrom(bank as int, single));
    r
}

fn pair_of(a: usize, b: usize) -> (r: [usize; 2])
    ensures r@ == pair(a as int, b as int),
{
    let r = [a, b];
    assert(r@ =~= pair(a as int, b as int));
    r
}

// ------------------------------------------------------------ Mapper 228

/// Action Enterprises: the whole bank state comes from the written address
/// (and two bits of the value); four nibbles of RAM sit at $5000-$5FFF.
#[derive(Debug, Clone, Copy)]
pub struct ActionEnterprises {
    pub prg_pages: [usize; 2],
    pub chr_bank: usize,
    pub mirroring: Mirroring,
    pub nibble_ram: [u8; 4],
    pub addr_latch: u16,
    pub value_latch: u8,
}

impl ActionEnterprises {
    /// The 16 KiB page: address bits 7-12, where chip 3 reads as chip 2.
    pub open spec fn page_of(addr: u16) -> int {
        let page = ((addr / 128) % 64) as int;
        if page / 16 == 3 { page - 16 } else { page }
    }

    /// The state a latch of `addr`/`value` selects.
    pub open spec fn synced(self, addr: u16, value: u8) -> bool {
        let lo = Self::page_of(addr) * 2 + (if bit(addr, 64) && bit(addr, 32) { 1int } else { 0 });
        let hi = lo + (if bit(addr, 32) { 0int } else { 1 });
        &&& self.addr_latch == addr && self.value_latch == value
        &&& self.prg_pages@ == pair(lo, hi)
        &&& self.chr_bank == (addr % 16) * 4 + value % 4
        &&& self.mirroring == if bit(addr, 0x2000) { Mirroring::Horizontal } else { Mirroring::Vertical }
    }

    fn sync(&mut self, addr: u16, value: u8)
        ensures final(self).synced(addr, value), final(self).nibble_ram == old(self).nibble_ram,
    {
        self.addr_latch = addr;
        self.value_latch = value;
        let mut page = (addr / 128) % 64;
        if page / 16 == 3 {
            page = page - 16;
        }
        let both: u16 = if (addr / 64) % 2 == 1 && (addr / 32) % 2 == 1 { 1 } else { 0 };
        let lo = page * 2 + both;
        let hi = lo + if (addr / 32) % 2 == 1 { 0 } else { 1 };
        self.prg_pages = pair_of(lo as usize, hi as usize);
        self.chr_bank = ((addr % 16) * 4) as usize + (value % 4) as usize;
        self.mirroring = if (addr / 0x2000) % 2 == 1 { Mirroring::Horizontal } else { Mirroring::Vertical };
    }

    pub fn new() -> (r: Self)
        ensures r.synced(0x8000, 0), r.nibble_ram@ == seq![0u8, 0, 0, 0],
    {
        let mut m = ActionEnterprises {
            prg_pages: [0usize, 1],
            chr_bank: 0,
            mirroring: Mirroring::Vertical,
            nibble_ram: [0u8, 0, 0, 0],
            addr_latch: 0x8000,
            value_latch: 0,
        };
        m.sync(0x8000, 0);
        m
    }

    #[verifier::allow_in_spec]
    pub fn prg_index(&self, addr: u16) -> usize
        requires self.prg_pages@[0] < 0x100 && self.prg_pages@[1] < 0x100,
        returns (self.prg_pages@[if addr < 0xC000 { 0int } else { 1int }] * 0x4000 + addr % 0x4000) as usize,
    {
        let slot: usize = if addr < 0xC000 { 0 } else { 1 };
        self.prg_pages[slot] * 0x4000 + (addr % 0x4000) as usize
    }

    #[verifier::allow_in_spec]
    pub fn chr_index(&self, addr: u16) -> usize
        requires self.chr_bank < 0x100,
        returns (self.chr_bank * 0x2000 + lo13(addr)) as usize,
    {
        self.chr_bank * 0x2000 + (addr % 0x2000) as usize
    }

    pub open spec fn wf(&self) -> bool {
        self.prg_pages@[0] < 0x100 && self.prg_pages@[1] < 0x100 && self.chr_bank < 0x100
    }

    pub open spec fn wrote(o: Self, n: Self, addr: u16, value: u8) -> bool {
        n.synced(addr, value) && n.nibble_ram == o.nibble_ram
    }

    pub fn write_register(&mut self, addr: u16, value: u8)
        requires old(self).wf(),
        ensures Self::wrote(*old(self), *final(self), addr, value), final(self).wf(),
    {
        self.sync(addr, value);
    }

    #[verifier::allow_in_spec]
    pub fn peek_expansion(&self, addr: u16) -> Option<u8>
        returns if 0x5000 <= addr <= 0x5FFF { Some(self.nibble_ram@[(addr % 4) as int]) } else { None },
    {
        if 0x5000 <= addr && addr <= 0x5FFF {
            Some(self.nibble_ram[(addr % 4) as usize])
        } else {
            None
        }
    }

    pub fn read_expansion(&mut self, addr: u16) -> (r: Option<u8>)
        ensures r == old(self).peek_expansion(addr), *final(self) == *old(self),
    {
        self.peek_expansion(addr)
    }

    /// A $5000-$5FFF write stores the low nibble into RAM cell `addr & 3`.
    pub open spec fn expansion_wrote(o: Self, n: Self, addr: u16, value: u8) -> bool {
        &&& n.nibble_ram@ == if 0x5000 <= addr <= 0x5FFF { o.nibble_ram@.update((addr % 4) as int, value % 16) } else { o.nibble_ram@ }
        &&& n == ActionEnterprises { nibble_ram: n.nibble_ram, ..o }
    }

    pub fn write_expansion(&mut self, addr: u16, value: u8)
        requires old(self).wf(),
        ensures Self::expansion_wrote(*old(self), *final(self), addr, value), final(self).wf(),
    {
        if 0x5000 <= addr && addr <= 0x5FFF {
            self.nibble_ram[(addr % 4) as usize] = value % 16;
        }
    }

    #[verifier::allow_in_spec]
    pub fn mirroring(&self) -> Mirroring
        returns self.mirroring,
    {
        self.mirroring
    }

    /// Reset clears the RAM and latches `$8000`/0.
    pub open spec fn was_reset(o: Self, n: Self, soft: bool) -> bool {
        n.synced(0x8000, 0) && n.nibble_ram@ == seq![0u8, 0, 0, 0]
    }

    pub fn reset(&mut self, soft: bool)
        requires old(self).wf(),
        ensures Self::was_reset(*old(self), *final(self), soft), final(self).wf(),
    {
        self.nibble_ram = [0u8, 0, 0, 0];
        self.sync(0x8000, 0);
    }
}

// ------------------------------------------------------------ address latches

#[derive(Debug, Clone, Copy, PartialEq, Eq, Structural)]
pub enum AddrLatchVariant {
    Mapper58,
    Mapper59,
    Mapper61,
    Mapper62,
    Mapper216,
    Mapper174,
    Mapper200,
    Mapper202,
    Mapper204,
    Mapper227,
    Mapper231,
    Mapper242,
    Mapper239,
    Mapper213,
    Mapper214,
    Mapper225,
    Mapper229,
    Mapper201,
    Mapper217,
    Mapper221 { submapper: u8 },
    Mapper255,
}

/// The 16 KiB page pair a write selects on each board; `mode` and `latch`
/// are the 221 latches after the write.
#[verifier::opaque]
pub open spec fn decode_pages(v: AddrLatchVariant, addr: u16, mode: u16, latch: usize) -> Seq<usize> {
    match v {
        AddrLatchVariant::Mapper58 => nrom((addr % 8) as int, bit(addr, 64)),
        AddrLatchVariant::Mapper59 => { let b = ((addr / 16) % 8) as int; pair(2 * b, 2 * b + 1) },
        AddrLatchVariant::Mapper61 => nrom(((addr % 16) * 2 + (addr / 32) % 2) as int, bit(addr, 16)),
        AddrLatchVariant::Mapper62 => nrom(((addr / 256) % 64 + ((addr / 64) % 2) * 64) as int, bit(addr, 32)),
        AddrLatchVariant::Mapper216 => { let b = (addr % 2) as int; pair(2 * b, 2 * b + 1) },
        AddrLatchVariant::Mapper174 => if bit(addr, 128) {
            let b = ((addr / 32) % 4) as int; pair(2 * b, 2 * b + 1)
        } else {
            let b = ((addr / 16) % 8) as int; pair(b, b)
        },
        AddrLatchVariant::Mapper200 => pair((addr % 8) as int, (addr % 8) as int),
        AddrLatchVariant::Mapper202 => {
            let b = ((addr / 2) % 8) as int;
            if addr % 2 == 1 && bit(addr, 8) { pair(b, b + 1) } else { pair(b, b) }
        },
        AddrLatchVariant::Mapper227 => {
            let b = ((addr / 4) % 32 + ((addr / 256) % 2) * 32) as int;
            let s = addr % 2 == 1;
            let top = if bit(addr, 512) { b - b % 8 + 7 } else { b - b % 8 };
            if bit(addr, 128) { nrom(b, !s) } else if s { pair(b - b % 2, top) } else { pair(b, top) }
        },
        AddrLatchVariant::Mapper231 => {
            let b = ((addr % 32 - addr % 2) + (addr / 32) % 2) as int;
            pair(b - b % 2, b)
        },
        AddrLatchVariant::Mapper242 => { let b = ((addr / 8) % 16) as int; pair(2 * b, 2 * b + 1) },
        AddrLatchVariant::Mapper239 => if bit(addr, 4) {
            let b = (addr / 2 - (addr / 2) % 2) as int; pair(b, b + 1)
        } else {
            pair(addr as int, addr as int)
        },
        AddrLatchVariant::Mapper204 => {
            let m = (addr % 8 - addr % 2) as int;
            let low = if m == 6 { 0 } else { (addr % 2) as int };
            let high = if m == 6 { 1 } else { (addr % 2) as int };
            pair(m + low, m + high)
        },
        AddrLatchVariant::Mapper213 => { let b = ((addr / 2) % 4) as int; pair(2 * b, 2 * b + 1) },
        AddrLatchVariant::Mapper214 => { let b = ((addr / 4) % 4) as int; pair(b, b) },
        AddrLatchVariant::Mapper225 => nrom(((addr / 64) % 64 + ((addr / 16384) % 2) * 64) as int, bit(addr, 4096)),
        AddrLatchVariant::Mapper229 => if (addr % 32) / 2 == 0 { pair(0, 1) } else { pair((addr % 32) as int, (addr % 32) as int) },
        AddrLatchVariant::Mapper201 => { let b = (addr % 4) as int; pair(2 * b, 2 * b + 1) },
        AddrLatchVariant::Mapper217 => { let b = ((addr / 4) % 4) as int; pair(2 * b, 2 * b + 1) },
        AddrLatchVariant::Mapper221 { submapper } => {
            let hi = if submapper == 1 { (mode / 256) % 2 } else { (mode / 512) % 2 };
            let prg = (hi * 64 + ((mode / 32) % 8) * 8 + latch % 8) as int;
            let unrom = if submapper == 1 { bit(mode, 512) } else { bit(mode, 256) };
            if unrom { pair(prg, prg - prg % 8 + 7) } else { nrom(prg, !bit(mode, 2)) }
        },
        AddrLatchVariant::Mapper255 => {
            let b = (((addr / 16384) % 2) * 64 + (addr / 64) % 64) as int;
            if bit(addr, 4096) { pair(b, b) } else { nrom(b, false) }
        },
    }
}

/// The 8 KiB CHR bank a write selects.
#[verifier::opaque]
pub open spec fn decode_chr(v: AddrLatchVariant, addr: u16, value: u8) -> int {
    match v {
        AddrLatchVariant::Mapper58 => ((addr / 8) % 8) as int,
        AddrLatchVariant::Mapper59 => (addr % 8) as int,
        AddrLatchVariant::Mapper62 => ((addr % 32) * 4 + value % 4) as int,
        AddrLatchVariant::Mapper216 => ((addr % 16) / 2) as int,
        AddrLatchVariant::Mapper174 => ((addr / 2) % 8) as int,
        AddrLatchVariant::Mapper200 => (addr % 8) as int,
        AddrLatchVariant::Mapper202 => ((addr / 2) % 8) as int,
        AddrLatchVariant::Mapper239 => addr as int,
        AddrLatchVariant::Mapper204 => {
            let m = (addr % 8 - addr % 2) as int;
            m + if m == 6 { 0 } else { (addr % 2) as int }
        },
        AddrLatchVariant::Mapper213 => ((addr / 8) % 8) as int,
        AddrLatchVariant::Mapper214 => (addr % 4) as int,
        AddrLatchVariant::Mapper225 => (addr % 64 + ((addr / 16384) % 2) * 64) as int,
        AddrLatchVariant::Mapper229 => (addr % 256) as int,
        AddrLatchVariant::Mapper201 => (addr % 4) as int,
        AddrLatchVariant::Mapper217 => (addr % 16) as int,
        AddrLatchVariant::Mapper255 => (((addr / 16384) % 2) * 64 + addr % 64) as int,
        _ => 0,
    }
}

pub open spec fn hv(horizontal: bool) -> Mirroring {
    if horizontal { Mirroring::Horizontal } else { Mirroring::Vertical }
}

/// The mirroring after a write (some boards leave it alone).
#[verifier::opaque]
pub open spec fn decode_mirroring(v: AddrLatchVariant, addr: u16, mode: u16, old: Mirroring) -> Mirroring {
    match v {
        AddrLatchVariant::Mapper58 | AddrLatchVariant::Mapper61 | AddrLatchVariant::Mapper62
            | AddrLatchVariant::Mapper231 => hv(bit(addr, 128)),
        AddrLatchVariant::Mapper59 | AddrLatchVariant::Mapper200 => hv(!bit(addr, 8)),
        AddrLatchVariant::Mapper174 | AddrLatchVariant::Mapper202 => hv(addr % 2 == 1),
        AddrLatchVariant::Mapper227 | AddrLatchVariant::Mapper242 => hv(bit(addr, 2)),
        AddrLatchVariant::Mapper239 | AddrLatchVariant::Mapper204 => hv(bit(addr, 16)),
        AddrLatchVariant::Mapper225 | AddrLatchVariant::Mapper255 => hv(bit(addr, 0x2000)),
        AddrLatchVariant::Mapper229 => hv(bit(addr, 32)),
        AddrLatchVariant::Mapper221 { .. } => hv(mode % 2 == 1),
        _ => old,
    }
}

fn bit_of(addr: u16, w: u16) -> (r: bool)
    requires w > 0,
    ensures r == bit(addr, w as int),
{
    (addr / w) % 2 == 1
}

#[verifier::rlimit(100)]
#[verifier::spinoff_prover]
fn decode_pages_of(v: AddrLatchVariant, addr: u16, mode: u16, latch: usize) -> (r: [usize; 2])
    requires latch < 8,
    ensures r@ == decode_pages(v, addr, mode, latch), r@[0] < 0x10000, r@[1] < 0x10000,
{
    reveal(decode_pages);
    let a = addr as usize;
    match v {
        AddrLatchVariant::Mapper58 => nrom_of(a % 8, bit_of(addr, 64)),
        AddrLatchVariant::Mapper59 => { let b = (a / 16) % 8; pair_of(2 * b, 2 * b + 1) },
        AddrLatchVariant::Mapper61 => nrom_of((a % 16) * 2 + (a / 32) % 2, bit_of(addr, 16)),
        AddrLatchVariant::Mapper62 => nrom_of((a / 256) % 64 + ((a / 64) % 2) * 64, bit_of(addr, 32)),
        AddrLatchVariant::Mapper216 => { let b = a % 2; pair_of(2 * b, 2 * b + 1) },
        AddrLatchVariant::Mapper174 => if bit_of(addr, 128) {
            let b = (a / 32) % 4;
            pair_of(2 * b, 2 * b + 1)
        } else {
            let b = (a / 16) % 8;
            pair_of(b, b)
        },
        AddrLatchVariant::Mapper200 => pair_of(a % 8, a % 8),
        AddrLatchVariant::Mapper202 => {
            let b = (a / 2) % 8;
            if a % 2 == 1 && bit_of(addr, 8) { pair_of(b, b + 1) } else { pair_of(b, b) }
        },
        AddrLatchVariant::Mapper227 => {
            let b = (a / 4) % 32 + ((a / 256) % 2) * 32;
            let s = a % 2 == 1;
            let top = if bit_of(addr, 512) { b - b % 8 + 7 } else { b - b % 8 };
            if bit_of(addr, 128) { nrom_of(b, !s) } else if s { pair_of(b - b % 2, top) } else { pair_of(b, top) }
        },
        AddrLatchVariant::Mapper231 => {
            let b = (a % 32 - a % 2) + (a / 32) % 2;
            pair_of(b - b % 2, b)
        },
        AddrLatchVariant::Mapper242 => { let b = (a / 8) % 16; pair_of(2 * b, 2 * b + 1) },
        AddrLatchVariant::Mapper239 => if bit_of(addr, 4) {
            let b = a / 2 - (a / 2) % 2;
            pair_of(b, b + 1)
        } else {
            pair_of(a, a)
        },
        AddrLatchVariant::Mapper204 => {
            let m = a % 8 - a % 2;
            let low = if m == 6 { 0 } else { a % 2 };
            let high = if m == 6 { 1 } else { a % 2 };
            pair_of(m + low, m + high)
        },
        AddrLatchVariant::Mapper213 => { let b = (a / 2) % 4; pair_of(2 * b, 2 * b + 1) },
        AddrLatchVariant::Mapper214 => { let b = (a / 4) % 4; pair_of(b, b) },
        AddrLatchVariant::Mapper225 => nrom_of((a / 64) % 64 + ((a / 16384) % 2) * 64, bit_of(addr, 4096)),
        AddrLatchVariant::Mapper229 => if (a % 32) / 2 == 0 { pair_of(0, 1) } else { pair_of(a % 32, a % 32) },
        AddrLatchVariant::Mapper201 => { let b = a % 4; pair_of(2 * b, 2 * b + 1) },
        AddrLatchVariant::Mapper217 => { let b = (a / 4) % 4; pair_of(2 * b, 2 * b + 1) },
        AddrLatchVariant::Mapper221 { submapper } => {
            let m = mode as usize;
            let hi = if submapper == 1 { (m / 256) % 2 } else { (m / 512) % 2 };
            let prg = hi * 64 + ((m / 32) % 8) * 8 + latch % 8;
            let unrom = if submapper == 1 { bit_of(mode, 512) } else { bit_of(mode, 256) };
            if unrom { pair_of(prg, prg - prg % 8 + 7) } else { nrom_of(prg, !bit_of(mode, 2)) }
        },
        AddrLatchVariant::Mapper255 => {
            let b = ((a / 16384) % 2) * 64 + (a / 64) % 64;
            if bit_of(addr, 4096) { pair_of(b, b) } else { nrom_of(b, false) }
        },
    }
}

fn decode_chr_of(v: AddrLatchVariant, addr: u16, value: u8) -> (r: usize)
    ensures r == decode_chr(v, addr, value), r < 0x10000,
{
    reveal(decode_chr);
    let a = addr as usize;
    match v {
        AddrLatchVariant::Mapper58 => (a / 8) % 8,
        AddrLatchVariant::Mapper59 => a % 8,
        AddrLatchVariant::Mapper62 => (a % 32) * 4 + (value % 4) as usize,
        AddrLatchVariant::Mapper216 => (a % 16) / 2,
        AddrLatchVariant::Mapper174 => (a / 2) % 8,
        AddrLatchVariant::Mapper200 => a % 8,
        AddrLatchVariant::Mapper202 => (a / 2) % 8,
        AddrLatchVariant::Mapper239 => a,
        AddrLatchVariant::Mapper204 => {
            let m = a % 8 - a % 2;
            m + if m == 6 { 0 } else { a % 2 }
        },
        AddrLatchVariant::Mapper213 => (a / 8) % 8,
        AddrLatchVariant::Mapper214 => a % 4,
        AddrLatchVariant::Mapper225 => a % 64 + ((a / 16384) % 2) * 64,
        AddrLatchVariant::Mapper229 => a % 256,
        AddrLatchVariant::Mapper201 => a % 4,
        AddrLatchVariant::Mapper217 => a % 16,
        AddrLatchVariant::Mapper255 => ((a / 16384) % 2) * 64 + a % 64,
        _ => 0,
    }
}

fn hv_of(horizontal: bool) -> (r: Mirroring)
    ensures r == hv(horizontal),
{
    if horizontal { Mirroring::Horizontal } else { Mirroring::Vertical }
}

fn decode_mirroring_of(v: AddrLatchVariant, addr: u16, mode: u16, old: Mirroring) -> (r: Mirroring)
    ensures r == decode_mirroring(v, addr, mode, old),
{
    reveal(decode_mirroring);
    match v {
        AddrLatchVariant::Mapper58 | AddrLatchVariant::Mapper61 | AddrLatchVariant::Mapper62
            | AddrLatchVariant::Mapper231 => hv_of(bit_of(addr, 128)),
        AddrLatchVariant::Mapper59 | AddrLatchVariant::Mapper200 => hv_of(!bit_of(addr, 8)),
        AddrLatchVariant::Mapper174 | AddrLatchVariant::Mapper202 => hv_of(addr % 2 == 1),
        AddrLatchVariant::Mapper227 | AddrLatchVariant::Mapper242 => hv_of(bit_of(addr, 2)),
        AddrLatchVariant::Mapper239 | AddrLatchVariant::Mapper204 => hv_of(bit_of(addr, 16)),
        AddrLatchVariant::Mapper225 | AddrLatchVariant::Mapper255 => hv_of(bit_of(addr, 0x2000)),
        AddrLatchVariant::Mapper229 => hv_of(bit_of(addr, 32)),
        AddrLatchVariant::Mapper221 { .. } => hv_of(mode % 2 == 1),
        _ => old,
    }
}

/// A board whose banks are latched from the address of a $8000-$FFFF write.
#[derive(Debug, Clone, Copy)]
pub struct AddrLatch16k {
    pub prg_pages: [usize; 2],
    pub chr_bank: usize,
    pub mirroring: Mirroring,
    pub variant: AddrLatchVariant,
    pub prg_16k_total: usize,
    pub mode_latch: u16,
    pub prg_latch: usize,
    pub mapper59_zero_reads: bool,
}

impl AddrLatch16k {
    pub open spec fn wf(&self) -> bool {
        &&& self.prg_pages@[0] < 0x10000 && self.prg_pages@[1] < 0x10000
        &&& self.chr_bank < 0x10000
        &&& self.prg_latch < 8
        &&& self.prg_16k_total <= MAX_PRG_16K
    }

    pub open spec fn fresh(self, variant: AddrLatchVariant, mirroring: Mirroring, prg_16k_total: usize) -> bool {
        &&& self.prg_pages@ == seq![0usize, 1] && self.chr_bank == 0 && self.mirroring == mirroring
        &&& self.variant == variant && self.prg_16k_total == prg_16k_total
        &&& self.mode_latch == 0 && self.prg_latch == 0 && !self.mapper59_zero_reads
    }

    pub fn new(variant: AddrLatchVariant) -> (r: Self)
        ensures r.fresh(variant, Mirroring::Vertical, 0), r.wf(),
    {
        Self::new_with_mirroring(variant, Mirroring::Vertical)
    }

    pub fn new_with_mirroring(variant: AddrLatchVariant, mirroring: Mirroring) -> (r: Self)
        ensures r.fresh(variant, mirroring, 0), r.wf(),
    {
        AddrLatch16k {
            prg_pages: [0usize, 1],
            chr_bank: 0,
            mirroring,
            variant,
            prg_16k_total: 0,
            mode_latch: 0,
            prg_latch: 0,
            mapper59_zero_reads: false,
        }
    }

    /// Mapper 221 also knows the PRG size, to float reads past its end.
    pub fn new_221(prg_16k: usize, submapper: u8) -> (r: Self)
        requires prg_16k <= MAX_PRG_16K,
        ensures r.fresh(AddrLatchVariant::Mapper221 { submapper }, Mirroring::Vertical, if prg_16k == 0 { 1 } else { prg_16k }), r.wf(),
    {
        let mut m = Self::new(AddrLatchVariant::Mapper221 { submapper });
        m.prg_16k_total = if prg_16k == 0 { 1 } else { prg_16k };
        m
    }

    #[verifier::allow_in_spec]
    pub fn prg_index(&self, addr: u16) -> usize
        requires self.wf(),
        returns (self.prg_pages@[if addr < 0xC000 { 0int } else { 1int }] * 0x4000 + addr % 0x4000) as usize,
    {
        let slot: usize = if addr < 0xC000 { 0 } else { 1 };
        self.prg_pages[slot] * 0x4000 + (addr % 0x4000) as usize
    }

    #[verifier::allow_in_spec]
    pub fn chr_index(&self, addr: u16) -> usize
        requires self.wf(),
        returns (self.chr_bank * 0x2000 + lo13(addr)) as usize,
    {
        self.chr_bank * 0x2000 + (addr % 0x2000) as usize
    }

    /// A write latches the board's decode of its address (221 first updates
    /// its mode latch at $8000-$BFFF or its PRG latch at $C000-$FFFF; 59
    /// also latches whether reads return zero).
    pub open spec fn wrote(o: Self, n: Self, addr: u16, value: u8) -> bool {
        let is221 = o.variant is Mapper221;
        let mode = if is221 && addr / 0x4000 == 2 { addr } else { o.mode_latch };
        let latch = if is221 && addr / 0x4000 == 3 { (addr % 8) as usize } else { o.prg_latch };
        &&& n.variant == o.variant && n.prg_16k_total == o.prg_16k_total
        &&& n.mode_latch == mode && n.prg_latch == latch
        &&& n.mapper59_zero_reads == if o.variant == AddrLatchVariant::Mapper59 { bit(addr, 256) } else { o.mapper59_zero_reads }
        &&& n.prg_pages@ == decode_pages(o.variant, addr, mode, latch)
        &&& n.chr_bank == decode_chr(o.variant, addr, value)
        &&& n.mirroring == decode_mirroring(o.variant, addr, mode, o.mirroring)
    }

    pub fn write_register(&mut self, addr: u16, value: u8)
        requires old(self).wf(),
        ensures Self::wrote(*old(self), *final(self), addr, value), final(self).wf(),
    {
        if let AddrLatchVariant::Mapper221 { .. } = self.variant {
            if addr / 0x4000 == 2 {
                self.mode_latch = addr;
            } else if addr / 0x4000 == 3 {
                self.prg_latch = (addr % 8) as usize;
            }
        }
        if self.variant == AddrLatchVariant::Mapper59 {
            self.mapper59_zero_reads = (addr / 256) % 2 == 1;
        }
        self.prg_pages = decode_pages_of(self.variant, addr, self.mode_latch, self.prg_latch);
        self.chr_bank = decode_chr_of(self.variant, addr, value);
        self.mirroring = decode_mirroring_of(self.variant, addr, self.mode_latch, self.mirroring);
    }

    /// A $8000-$FFFF read the board drives itself: 221 floats the bus past
    /// the end of PRG-ROM; 59 reads zero once latched so.
    #[verifier::allow_in_spec]
    pub fn peek_register_with_open_bus(&self, addr: u16, prg_value: u8, open_bus: u8) -> Option<u8>
        requires self.wf(),
        returns if self.variant is Mapper221 && self.prg_16k_total > 0
            && self.prg_pages@[if addr < 0xC000 { 0int } else { 1int }] >= self.prg_16k_total {
            Some(open_bus)
        } else if self.variant == AddrLatchVariant::Mapper59 && self.mapper59_zero_reads {
            Some(0u8)
        } else {
            None
        },
    {
        let slot: usize = if addr < 0xC000 { 0 } else { 1 };
        let is221 = if let AddrLatchVariant::Mapper221 { .. } = self.variant { true } else { false };
        if is221 && self.prg_16k_total > 0 && self.prg_pages[slot] >= self.prg_16k_total {
            Some(open_bus)
        } else if self.variant == AddrLatchVariant::Mapper59 && self.mapper59_zero_reads {
            Some(0)
        } else {
            None
        }
    }

    /// 216 answers `$5000` with zero.
    #[verifier::allow_in_spec]
    pub fn peek_expansion(&self, addr: u16) -> Option<u8>
        returns if self.variant == AddrLatchVariant::Mapper216 && addr == 0x5000 { Some(0u8) } else { None },
    {
        if self.variant == AddrLatchVariant::Mapper216 && addr == 0x5000 { Some(0) } else { None }
    }

    pub fn read_expansion(&mut self, addr: u16) -> (r: Option<u8>)
        ensures r == old(self).peek_expansion(addr), *final(self) == *old(self),
    {
        self.peek_expansion(addr)
    }

    #[verifier::allow_in_spec]
    pub fn mirroring(&self) -> Mirroring
        returns self.mirroring,
    {
        self.mirroring
    }
}

} // verus!
