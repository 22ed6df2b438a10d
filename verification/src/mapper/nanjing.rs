//! Mappers 162/163 — Nanjing: four registers at $5000-$57FF build a 32 KiB
//! PRG bank; an H-blank hook splits the CHR-RAM between the two halves of
//! the frame; 163 adds a bit-swap mode and a feedback readback.

use vstd::prelude::*;

verus! {

use crate::mapper::{max1, MAX_PRG_16K};
use crate::mapper::ave::prg_32k_of;
use crate::mapper::bank::{page_spec, chr_4k_at, prg_32k};
use crate::types::Mirroring;

#[derive(Debug, Clone, Copy, PartialEq, Eq, Structural)]
pub enum NanjingVariant {
    Mapper162,
    Mapper163,
}

#[derive(Debug, Clone, Copy)]
pub struct NanjingMapper {
    pub prg_16k_total: usize,
    pub prg_32k_total: usize,
    pub variant: NanjingVariant,
    pub regs: [u8; 4],
    pub chr_bank_4k: usize,
}

/// The 32 KiB PRG bank the registers select (before wrapping to the ROM).
pub open spec fn nanjing_prg(r: Seq<u8>, v: NanjingVariant) -> usize {
    let r0 = r[0] as usize;
    let r2 = r[2] as usize;
    if v == NanjingVariant::Mapper162 {
        (r2 << 4usize)
            | (r0 & 0x0C)
            | (if r[3] & 0x04 != 0 { 0usize } else { 0x02 })
            | (if r[3] & 0x04 != 0 { r0 & 0x02 } else { 0 })
            | (if r[3] & 0x01 != 0 { 0usize } else { ((r[1] as usize) >> 1usize) & 0x01 })
            | (if r[3] & 0x04 == 0 && r[3] & 0x01 != 0 { 0x01usize } else { 0 })
            | (if r[3] & 0x04 != 0 && r[3] & 0x01 != 0 { r0 & 0x01 } else { 0 })
    } else {
        (r2 << 4usize) | (r0 & 0x0F) | (if r[3] & 0x04 != 0 { 0usize } else { 0x03 })
    }
}

/// In swap mode, 163 exchanges data bits 0 and 1.
pub open spec fn swap01(value: u8) -> u8 {
    (value & !0x03u8) | ((value >> 1u8) & 0x01) | ((value << 1u8) & 0x02)
}

impl NanjingMapper {
    pub open spec fn wf(&self) -> bool {
        &&& 1 <= self.prg_16k_total <= MAX_PRG_16K
        &&& 1 <= self.prg_32k_total <= MAX_PRG_16K
        &&& self.chr_bank_4k < 2
    }

    pub open spec fn fresh(self, prg_16k: usize, variant: NanjingVariant) -> bool {
        &&& self.prg_16k_total == max1(prg_16k)
        &&& self.prg_32k_total == prg_32k_of(prg_16k)
        &&& self.variant == variant
        &&& self.regs@ == seq![0u8, 0, 0, 0]
        &&& self.chr_bank_4k == 0
    }

    pub fn new(prg_16k: usize, variant: NanjingVariant) -> (r: Self)
        requires prg_16k <= MAX_PRG_16K,
        ensures r.fresh(prg_16k, variant), r.wf(),
    {
        let half = prg_16k / 2 + prg_16k % 2;
        NanjingMapper {
            prg_16k_total: if prg_16k == 0 { 1 } else { prg_16k },
            prg_32k_total: if half == 0 { 1 } else { half },
            variant,
            regs: [0u8, 0, 0, 0],
            chr_bank_4k: 0,
        }
    }

    pub fn prg_bank(&self) -> (r: usize)
        ensures r == nanjing_prg(self.regs@, self.variant), r < 0x1000,
    {
        let r0 = self.regs[0] as usize;
        let r1 = self.regs[1] as usize;
        let r2 = self.regs[2] as usize;
        let r3 = self.regs[3];
        match self.variant {
            NanjingVariant::Mapper162 => {
                assert(r0 & 0x02 <= 2 && r0 & 0x01 <= 1 && (r1 >> 1usize) & 0x01 <= 1) by (bit_vector);
                let a: usize = if r3 & 0x04 != 0 { 0x00 } else { 0x02 };
                let b: usize = if r3 & 0x04 != 0 { r0 & 0x02 } else { 0x00 };
                let c: usize = if r3 & 0x01 != 0 { 0x00 } else { (r1 >> 1) & 0x01 };
                let d: usize = if r3 & 0x04 == 0 && r3 & 0x01 != 0 { 0x01 } else { 0x00 };
                let e: usize = if r3 & 0x04 != 0 && r3 & 0x01 != 0 { r0 & 0x01 } else { 0x00 };
                assert((r2 << 4usize) | (r0 & 0x0C) | a | b | c | d | e < 0x1000) by (bit_vector)
                    requires r0 < 0x100, r2 < 0x100, a <= 2, b <= 2, c <= 1, d <= 1, e <= 1;
                (r2 << 4) | (r0 & 0x0C) | a | b | c | d | e
            },
            NanjingVariant::Mapper163 => {
                let a: usize = if r3 & 0x04 != 0 { 0x00 } else { 0x03 };
                assert((r2 << 4usize) | (r0 & 0x0F) | a < 0x1000) by (bit_vector) requires r0 < 0x100, r2 < 0x100, a <= 3;
                (r2 << 4) | (r0 & 0x0F) | a
            },
        }
    }

    #[verifier::allow_in_spec]
    pub fn read_163(&self) -> u8
        returns (!self.regs@[1]) & 0x04,
    {
        (!self.regs[1]) & 0x04
    }

    /// 163's register write: swap mode may exchange data bits 0-1 for the
    /// low registers; odd addresses toggle the feedback bit instead of
    /// storing.
    pub open spec fn wrote_163(o: Self, n: Self, addr: u16, value: u8) -> bool {
        let index = ((addr / 0x100) % 4) as int;
        let limit = if o.prg_16k_total == 64 { 1int } else { 2 };
        let v = if o.regs@[3] & 0x01 != 0 && index <= limit { swap01(value) } else { value };
        &&& n.regs@ == if addr % 2 == 1 {
                if o.regs@[1] & 0x01 != 0 && v & 0x01 == 0 { o.regs@.update(1, o.regs@[1] ^ 0x04) } else { o.regs@ }
            } else {
                o.regs@.update(index, v)
            }
    }

    fn write_163(&mut self, addr: u16, value: u8)
        ensures
            Self::wrote_163(*old(self), *final(self), addr, value),
            final(self).prg_16k_total == old(self).prg_16k_total,
            final(self).prg_32k_total == old(self).prg_32k_total,
            final(self).variant == old(self).variant,
            final(self).chr_bank_4k == old(self).chr_bank_4k,
    {
        let index = (((addr / 0x100) % 4)) as usize;
        let swap_limit: usize = if self.prg_16k_total == 64 { 1 } else { 2 };
        let mut value = value;
        if self.regs[3] & 0x01 != 0 && index <= swap_limit {
            value = (value & !0x03) | ((value >> 1) & 0x01) | ((value << 1) & 0x02);
        }
        if (addr % 2 == 1) {
            if self.regs[1] & 0x01 != 0 && value & 0x01 == 0 {
                self.regs[1] = self.regs[1] ^ 0x04;
            }
        } else {
            self.regs[index] = value;
        }
    }

    #[verifier::allow_in_spec]
    pub fn prg_index(&self, addr: u16) -> usize
        requires self.wf(),
        returns page_spec((nanjing_prg(self.regs@, self.variant) % self.prg_32k_total) as int, 0x8000, addr, 0x8000) as usize,
    {
        prg_32k(self.prg_bank() % self.prg_32k_total, addr)
    }

    #[verifier::allow_in_spec]
    pub fn chr_index(&self, addr: u16) -> usize
        requires self.wf(),
        returns page_spec(self.chr_bank_4k as int, 0x1000, addr, addr & 0x1000) as usize,
    {
        chr_4k_at(self.chr_bank_4k, addr, addr & 0x1000)
    }

    /// Writes to $8000-$FFFF are ignored.
    pub open spec fn written(self, addr: u16, value: u8) -> Self {
        self
    }

    pub fn write_register(&mut self, addr: u16, value: u8)
        requires old(self).wf(),
        ensures *final(self) == old(self).written(addr, value), final(self).wf(),
    {
    }

    #[verifier::allow_in_spec]
    pub fn peek_expansion(&self, addr: u16) -> Option<u8>
        returns if !(0x5000 <= addr <= 0x57FF) { None }
            else if self.variant == NanjingVariant::Mapper162 { Some(0u8) }
            else { Some(self.read_163()) },
    {
        if !(0x5000 <= addr && addr <= 0x57FF) {
            return None;
        }
        match self.variant {
            NanjingVariant::Mapper162 => Some(0x00),
            NanjingVariant::Mapper163 => Some(self.read_163()),
        }
    }

    pub fn read_expansion(&mut self, addr: u16) -> (r: Option<u8>)
        ensures r == old(self).peek_expansion(addr), *final(self) == *old(self),
    {
        self.peek_expansion(addr)
    }

    pub open spec fn expansion_wrote(o: Self, n: Self, addr: u16, value: u8) -> bool {
        &&& n.prg_16k_total == o.prg_16k_total && n.prg_32k_total == o.prg_32k_total
        &&& n.variant == o.variant && n.chr_bank_4k == o.chr_bank_4k
        &&& if !(0x5000 <= addr <= 0x57FF) { n.regs@ == o.regs@ }
            else if o.variant == NanjingVariant::Mapper162 { n.regs@ == o.regs@.update(((addr / 0x100) % 4) as int, value) }
            else { Self::wrote_163(o, n, addr, value) }
    }

    pub fn write_expansion(&mut self, addr: u16, value: u8)
        requires old(self).wf(),
        ensures Self::expansion_wrote(*old(self), *final(self), addr, value), final(self).wf(),
    {
        if !(0x5000 <= addr && addr <= 0x57FF) {
            return;
        }
        match self.variant {
            NanjingVariant::Mapper162 => {
                self.regs[(((addr / 0x100) % 4)) as usize] = value;
            },
            NanjingVariant::Mapper163 => self.write_163(addr, value),
        }
    }

    #[verifier::allow_in_spec]
    pub fn mirroring(&self) -> Mirroring
        returns Mirroring::Vertical,
    {
        Mirroring::Vertical
    }

    /// At H-blank the CHR page follows register 0 bit 7 for scanlines
    /// 127-238 (the lower part of the screen), page 0 otherwise.
    pub open spec fn after_hblank(self, scanline: u16, dot: u16) -> Self {
        NanjingMapper {
            chr_bank_4k: if self.regs@[0] & 0x80 != 0 && 127 <= scanline < 239 { 1 } else { 0 },
            ..self
        }
    }

    pub fn hblank_clock(&mut self, scanline: u16, dot: u16)
        requires old(self).wf(),
        ensures *final(self) == old(self).after_hblank(scanline, dot), final(self).wf(),
    {
        self.chr_bank_4k = if self.regs[0] & 0x80 != 0 && scanline < 239 && scanline >= 127 { 1 } else { 0 };
    }

    #[verifier::allow_in_spec]
    pub fn clocks_hblank(&self) -> bool
        returns true,
    {
        true
    }

    pub open spec fn was_reset(o: Self, n: Self, soft: bool) -> bool {
        &&& n.prg_16k_total == o.prg_16k_total && n.prg_32k_total == o.prg_32k_total && n.variant == o.variant
        &&& n.regs@ == seq![0u8, 0, 0, 0]
        &&& n.chr_bank_4k == 0
    }

    pub fn reset(&mut self, soft: bool)
        requires old(self).wf(),
        ensures Self::was_reset(*old(self), *final(self), soft), final(self).wf(),
    {
        self.regs = [0u8, 0, 0, 0];
        self.chr_bank_4k = 0;
    }
}

} // verus!
