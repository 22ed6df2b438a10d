//! Bank-index helpers in the board vocabulary (`setprg8/16/32`,
//! `setchr1/2/4/8`): each turns a bank number and a bus address into a
//! byte index into the ROM/RAM image.

use vstd::prelude::*;

verus! {

/// Where a CHR 1 KiB slot is backed: ROM (index into CHR-ROM) or RAM.
#[derive(Debug, Clone, Copy, PartialEq, Eq, Structural)]
pub enum ChrBankSource {
    Rom(usize),
    Ram(usize),
}

/// A run of 1 KiB CHR bank numbers `first..=last` that is backed by CHR-RAM.
#[derive(Debug, Clone, Copy, PartialEq, Eq, Structural)]
pub struct ChrRamWindow {
    pub first: u16,
    pub last: u16,
}

/// Largest bank number the helpers accept: keeps every index below 2^31.
pub const MAX_BANK: usize = 0xFFFF;

pub open spec fn page_spec(bank: int, page_size: int, addr: u16, base: u16) -> int {
    bank * page_size + ((addr - base) % 0x10000) % page_size
}

impl ChrRamWindow {
    pub open spec fn wf(&self) -> bool {
        self.first <= self.last
    }

    pub fn new(first: u16, last: u16) -> (r: Self)
        requires first <= last,
        ensures r.first == first && r.last == last, r.wf(),
    {
        ChrRamWindow { first, last }
    }

    pub open spec fn source_spec(&self, bank_1k: u16, offset_1k: u16, ram_len: usize) -> ChrBankSource {
        if self.first <= bank_1k <= self.last {
            let m: int = if ram_len == 0 { 1 } else { ram_len as int };
            ChrBankSource::Ram((((bank_1k - self.first) * 0x400 + (offset_1k % 0x400)) % m) as usize)
        } else {
            ChrBankSource::Rom((bank_1k * 0x400 + (offset_1k % 0x400)) as usize)
        }
    }

    /// Route a 1 KiB bank number and offset to RAM (inside the window, wrapped
    /// to the RAM size) or ROM (outside it).
    pub fn source_for(&self, bank_1k: u16, offset_1k: u16, ram_len: usize) -> (r: ChrBankSource)
        ensures r == self.source_spec(bank_1k, offset_1k, ram_len),
    {
        if self.first <= bank_1k && bank_1k <= self.last {
            let i = ((bank_1k - self.first) as usize) * 0x0400 + (offset_1k as usize % 0x400);
            let m = if ram_len > 1 { ram_len } else { 1 };
            ChrBankSource::Ram(i % m)
        } else {
            ChrBankSource::Rom(bank_1k as usize * 0x0400 + (offset_1k as usize % 0x400))
        }
    }

    pub fn ram_index(&self, bank_1k: u16, offset_1k: u16, ram_len: usize) -> (r: Option<usize>)
        ensures
            r == (match self.source_spec(bank_1k, offset_1k, ram_len) {
                ChrBankSource::Ram(i) => Some(i),
                ChrBankSource::Rom(_) => None::<usize>,
            }),
    {
        match self.source_for(bank_1k, offset_1k, ram_len) {
            ChrBankSource::Ram(i) => Some(i),
            ChrBankSource::Rom(_) => None,
        }
    }
}

/// `bank * page_size + ((addr - base) mod page_size)`; the page size is one
/// of the board page sizes (1, 2, 4, 8, 16 or 32 KiB).
pub fn page(bank: usize, page_size: usize, addr: u16, base: u16) -> (r: usize)
    requires
        (bank + 1) * page_size <= 0x8000_0000,
        page_size == 0x400 || page_size == 0x800 || page_size == 0x1000 || page_size == 0x2000
            || page_size == 0x4000 || page_size == 0x8000,
    ensures
        r == page_spec(bank as int, page_size as int, addr, base),
        r < (bank + 1) * page_size,
{
    let off = addr.wrapping_sub(base);
    assert(bank * page_size + page_size == (bank + 1) * page_size) by (nonlinear_arith);
    assert(off == (addr - base) % 0x10000);
    bank * page_size + (off as usize) % page_size
}

pub fn prg_8k_at(bank: usize, addr: u16, base: u16) -> (r: usize)
    requires bank < 0x4_0000,
    ensures r == page_spec(bank as int, 0x2000, addr, base), r < (bank + 1) * 0x2000,
{
    page(bank, 0x2000, addr, base)
}

pub fn prg_16k_at(bank: usize, addr: u16, base: u16) -> (r: usize)
    requires bank < 0x2_0000,
    ensures r == page_spec(bank as int, 0x4000, addr, base), r < (bank + 1) * 0x4000,
{
    page(bank, 0x4000, addr, base)
}

pub fn prg_32k(bank: usize, addr: u16) -> (r: usize)
    requires bank < 0x1_0000,
    ensures r == page_spec(bank as int, 0x8000, addr, 0x8000), r < (bank + 1) * 0x8000,
{
    page(bank, 0x8000, addr, 0x8000)
}

pub fn chr_1k_at(bank: usize, addr: u16, base: u16) -> (r: usize)
    requires bank < 0x20_0000,
    ensures r == page_spec(bank as int, 0x400, addr, base), r < (bank + 1) * 0x400,
{
    page(bank, 0x0400, addr, base)
}

pub fn chr_2k_at(bank: usize, addr: u16, base: u16) -> (r: usize)
    requires bank < 0x10_0000,
    ensures r == page_spec(bank as int, 0x800, addr, base), r < (bank + 1) * 0x800,
{
    page(bank, 0x0800, addr, base)
}

pub fn chr_4k_at(bank: usize, addr: u16, base: u16) -> (r: usize)
    requires bank < 0x8_0000,
    ensures r == page_spec(bank as int, 0x1000, addr, base), r < (bank + 1) * 0x1000,
{
    page(bank, 0x1000, addr, base)
}

pub fn chr_8k(bank: usize, addr: u16) -> (r: usize)
    requires bank < 0x4_0000,
    ensures r == page_spec(bank as int, 0x2000, addr, 0), r < (bank + 1) * 0x2000,
{
    page(bank, 0x2000, addr, 0x0000)
}

} // verus!
