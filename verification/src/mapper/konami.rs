//! Konami VRC1 (75).

use vstd::prelude::*;

verus! {

use crate::mapper::{max1, MAX_PRG_16K};
use crate::types::Mirroring;

/// VRC1: three 8 KiB PRG registers (`$8000`, `$A000`, `$C000`) with the last
/// bank fixed, two 4 KiB CHR registers (`$E000`, `$F000`, 4 bits) whose bit
/// 4 comes from the mode register (`$9000` bits 1 and 2); mode bit 0 picks
/// vertical mirroring.
#[derive(Debug, Clone, Copy)]
pub struct Vrc1 {
    pub prg_8k_total: usize,
    pub prg_8k: [u8; 3],
    pub chr_4k: [u8; 2],
    pub mode: u8,
}

impl Vrc1 {
    pub open spec fn wf(&self) -> bool {
        &&& 1 <= self.prg_8k_total <= 2 * MAX_PRG_16K
        &&& self.chr_4k@[0] < 16 && self.chr_4k@[1] < 16
    }

    pub open spec fn fresh(self, prg_16k: usize) -> bool {
        &&& self.prg_8k_total == max1((prg_16k * 2) as usize)
        &&& self.prg_8k@ == seq![0u8, 0, 0] && self.chr_4k@ == seq![0u8, 0] && self.mode == 0
    }

    pub fn new(prg_16k: usize) -> (r: Self)
        requires prg_16k <= MAX_PRG_16K,
        ensures r.fresh(prg_16k), r.wf(),
    {
        let r = Vrc1 { prg_8k_total: if prg_16k == 0 { 1 } else { prg_16k * 2 }, prg_8k: [0u8, 0, 0], chr_4k: [0u8, 0], mode: 0 };
        assert(r.prg_8k@ =~= seq![0u8, 0, 0]);
        assert(r.chr_4k@ =~= seq![0u8, 0]);
        r
    }

    pub open spec fn prg_page(self, slot: int) -> int {
        if slot < 3 { self.prg_8k@[slot] as int } else { self.prg_8k_total - 1 }
    }

    #[verifier::allow_in_spec]
    pub fn prg_index(&self, addr: u16) -> usize
        requires self.wf(), addr >= 0x8000,
        returns (self.prg_page(((addr - 0x8000) / 0x2000) as int) * 0x2000 + addr % 0x2000) as usize,
    {
        let slot = ((addr - 0x8000) / 0x2000) as usize;
        let page: usize = if slot < 3 { self.prg_8k[slot] as usize } else { self.prg_8k_total - 1 };
        page * 0x2000 + (addr % 0x2000) as usize
    }

    pub open spec fn chr_page(self, addr: u16) -> int {
        if (addr / 0x1000) % 2 == 0 { self.chr_4k@[0] + ((self.mode / 2) % 2) * 16 }
        else { self.chr_4k@[1] + ((self.mode / 4) % 2) * 16 }
    }

    #[verifier::allow_in_spec]
    pub fn chr_index(&self, addr: u16) -> usize
        requires self.wf(),
        returns (self.chr_page(addr) * 0x1000 + addr % 0x1000) as usize,
    {
        let page: usize = if (addr / 0x1000) % 2 == 0 {
            self.chr_4k[0] as usize + ((self.mode / 2) % 2) as usize * 16
        } else {
            self.chr_4k[1] as usize + ((self.mode / 4) % 2) as usize * 16
        };
        page * 0x1000 + (addr % 0x1000) as usize
    }

    pub open spec fn wrote(o: Self, n: Self, addr: u16, value: u8) -> bool {
        let hi = addr / 0x1000;
        &&& n.prg_8k_total == o.prg_8k_total
        &&& n.prg_8k@ == if hi == 8 { o.prg_8k@.update(0, value) } else if hi == 0xA { o.prg_8k@.update(1, value) }
            else if hi == 0xC { o.prg_8k@.update(2, value) } else { o.prg_8k@ }
        &&& n.mode == if hi == 9 { value } else { o.mode }
        &&& n.chr_4k@ == if hi == 0xE { o.chr_4k@.update(0, value % 16) } else if hi == 0xF { o.chr_4k@.update(1, value % 16) }
            else { o.chr_4k@ }
    }

    pub fn write_register(&mut self, addr: u16, value: u8)
        requires old(self).wf(),
        ensures Self::wrote(*old(self), *final(self), addr, value), final(self).wf(),
    {
        let hi = addr / 0x1000;
        if hi == 8 {
            self.prg_8k[0] = value;
        } else if hi == 9 {
            self.mode = value;
        } else if hi == 0xA {
            self.prg_8k[1] = value;
        } else if hi == 0xC {
            self.prg_8k[2] = value;
        } else if hi == 0xE {
            self.chr_4k[0] = value % 16;
        } else if hi == 0xF {
            self.chr_4k[1] = value % 16;
        }
    }

    #[verifier::allow_in_spec]
    pub fn mirroring(&self) -> Mirroring
        returns if self.mode % 2 == 1 { Mirroring::Vertical } else { Mirroring::Horizontal },
    {
        if self.mode % 2 == 1 { Mirroring::Vertical } else { Mirroring::Horizontal }
    }
}

} // verus!
