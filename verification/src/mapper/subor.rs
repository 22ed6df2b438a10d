//! Mappers 166/167 — Subor: four registers (one per 8 KiB of $8000-$FFFF)
//! combine into UNROM, inverted-UNROM or NROM-256 layouts; 167 swaps the
//! NROM halves and fixes a different last bank.

use vstd::prelude::*;

verus! {

use crate::mapper::bank::{page_spec, chr_8k, prg_16k_at};
use crate::types::Mirroring;

#[derive(Debug, Clone, Copy, PartialEq, Eq, Structural)]
pub enum SuborVariant {
    Mapper166,
    Mapper167,
}

#[derive(Debug, Clone, Copy)]
pub struct Subor166 {
    pub regs: [u8; 4],
    pub variant: SuborVariant,
}

/// The 16 KiB banks for $8000 and $C000 from the four registers.
pub open spec fn subor_banks(r: Seq<u8>, is167: bool) -> (int, int) {
    let base: int = if (r[0] / 16) % 2 != (r[1] / 16) % 2 { 0x20 } else { 0 };
    let bank = ((r[2] ^ r[3]) & 0x1F) as int;
    if r[1] & 0x08 != 0 {
        let even = bank - bank % 2;
        if is167 { (base + even + 1, base + even) } else { (base + even, base + even + 1) }
    } else if r[1] & 0x04 != 0 {
        (0x1F, base + bank)
    } else if is167 {
        (base + bank, 0x20)
    } else {
        (base + bank, 0x07)
    }
}

impl Subor166 {
    pub fn new(variant: SuborVariant) -> (r: Self)
        ensures r.regs@ == seq![0u8, 0, 0, 0], r.variant == variant,
    {
        Subor166 { regs: [0u8, 0, 0, 0], variant }
    }

    pub open spec fn banks(self) -> (int, int) {
        subor_banks(self.regs@, self.variant == SuborVariant::Mapper167)
    }

    pub fn selected_banks(&self) -> (r: [usize; 2])
        ensures r@.len() == 2, r@[0] == self.banks().0, r@[1] == self.banks().1, r@[0] < 0x200, r@[1] < 0x200,
    {
        let r0 = self.regs[0];
        let r1 = self.regs[1];
        let r2 = self.regs[2];
        let r3 = self.regs[3];
        let is167 = match self.variant { SuborVariant::Mapper166 => false, SuborVariant::Mapper167 => true };
        let base: usize = if (r0 / 16) % 2 != (r1 / 16) % 2 { 0x20 } else { 0 };
        let bank = ((r2 ^ r3) & 0x1F) as usize;
        if r1 & 0x08 != 0 {
            let even = bank - bank % 2;
            if is167 { [base + even + 1, base + even] } else { [base + even, base + even + 1] }
        } else if r1 & 0x04 != 0 {
            [0x1F, base + bank]
        } else if is167 {
            [base + bank, 0x20]
        } else {
            [base + bank, 0x07]
        }
    }

    #[verifier::allow_in_spec]
    pub fn prg_index(&self, addr: u16) -> usize
        returns page_spec(if addr < 0xC000 { self.banks().0 } else { self.banks().1 }, 0x4000, addr, addr & !0x3FFFu16) as usize,
    {
        let banks = self.selected_banks();
        let bank = if addr < 0xC000 { banks[0] } else { banks[1] };
        prg_16k_at(bank, addr, addr & !0x3FFF)
    }

    #[verifier::allow_in_spec]
    pub fn chr_index(&self, addr: u16) -> usize
        returns page_spec(0, 0x2000, addr, 0) as usize,
    {
        chr_8k(0, addr)
    }

    pub open spec fn wrote(o: Self, n: Self, addr: u16, value: u8) -> bool {
        n.variant == o.variant && n.regs@ == o.regs@.update(((addr / 0x2000) % 4) as int, value)
    }

    pub fn write_register(&mut self, addr: u16, value: u8)
        ensures Self::wrote(*old(self), *final(self), addr, value),
    {
        self.regs[(((addr / 0x2000) % 4)) as usize] = value;
    }

    #[verifier::allow_in_spec]
    pub fn mirroring(&self) -> Mirroring
        returns if self.regs@[0] & 0x01 != 0 { Mirroring::Horizontal } else { Mirroring::Vertical },
    {
        if self.regs[0] & 0x01 != 0 { Mirroring::Horizontal } else { Mirroring::Vertical }
    }
}

} // verus!
