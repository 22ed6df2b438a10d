//! TXC 22211 / Joy Van / Sachen boards (132, 136, 147, 172, 173): a small
//! accumulator chip at $4100-$4103 whose output latch, copied on any
//! $8000-$FFFF write, selects the banks.

use vstd::prelude::*;

verus! {

use crate::mapper::{MAX_CHR_8K, MAX_PRG_16K};
use crate::types::Mirroring;

#[derive(Debug, Clone, Copy, PartialEq, Eq, Structural)]
pub enum TxcVariant {
    Mapper132,
    Mapper136,
    Mapper147,
    Mapper172,
    Mapper173,
}

/// The data-line reversal of bits 0-5 (bits 6-7 are dropped).
pub open spec fn rev6(v: u8) -> u8 {
    ((v & 0x01) << 5u8) | ((v & 0x02) << 3u8) | ((v & 0x04) << 1u8)
        | ((v & 0x08) >> 1u8) | ((v & 0x10) >> 3u8) | ((v & 0x20) >> 5u8)
}

pub fn reverse_six_bits(value: u8) -> (r: u8)
    ensures r == rev6(value),
{
    ((value & 0x01) << 5) | ((value & 0x02) << 3) | ((value & 0x04) << 1) | ((value & 0x08) >> 1)
        | ((value & 0x10) >> 3) | ((value & 0x20) >> 5)
}

/// Reversing six bits twice gives the value back (for six-bit values).
pub proof fn lemma_reverse_six_bits_involution(v: u8)
    requires v < 0x40,
    ensures rev6(rev6(v)) == v,
{
    let w = rev6(v);
    assert(w == ((v & 0x01) << 5u8) | ((v & 0x02) << 3u8) | ((v & 0x04) << 1u8)
        | ((v & 0x08) >> 1u8) | ((v & 0x10) >> 3u8) | ((v & 0x20) >> 5u8));
    assert(((w & 0x01) << 5u8) | ((w & 0x02) << 3u8) | ((w & 0x04) << 1u8)
        | ((w & 0x08) >> 1u8) | ((w & 0x10) >> 3u8) | ((w & 0x20) >> 5u8) == v) by (bit_vector)
        requires
            v < 0x40,
            w == ((v & 0x01) << 5u8) | ((v & 0x02) << 3u8) | ((v & 0x04) << 1u8)
                | ((v & 0x08) >> 1u8) | ((v & 0x10) >> 3u8) | ((v & 0x20) >> 5u8);
}

/// The TXC accumulator chip.
#[derive(Debug, Clone, Copy)]
pub struct TxcChip {
    pub accumulator: u8,
    pub inverter: u8,
    pub staging: u8,
    pub output: u8,
    pub increase: bool,
    pub y_flag: bool,
    pub invert: bool,
    pub mask: u8,
    pub is_jv001: bool,
}

impl TxcChip {
    /// Power-on / reset state (the JV001 variant powers up inverted).
    pub open spec fn cleared(self, is_jv001: bool) -> bool {
        &&& self.accumulator == 0 && self.inverter == 0 && self.staging == 0 && self.output == 0
        &&& !self.increase && !self.y_flag
        &&& self.mask == if is_jv001 { 0x0Fu8 } else { 0x07u8 }
        &&& self.invert == is_jv001
        &&& self.is_jv001 == is_jv001
    }

    pub fn new(is_jv001: bool) -> (r: Self)
        ensures r.cleared(is_jv001),
    {
        let mut chip = TxcChip {
            accumulator: 0,
            inverter: 0,
            staging: 0,
            output: 0,
            increase: false,
            y_flag: false,
            invert: false,
            mask: if is_jv001 { 0x0F } else { 0x07 },
            is_jv001,
        };
        chip.reset();
        chip
    }

    pub fn reset(&mut self)
        ensures final(self).cleared(old(self).is_jv001),
    {
        self.accumulator = 0;
        self.inverter = 0;
        self.staging = 0;
        self.output = 0;
        self.increase = false;
        self.y_flag = false;
        self.mask = if self.is_jv001 { 0x0F } else { 0x07 };
        self.invert = self.is_jv001;
    }

    /// The chip's data output: accumulator bits under the mask, the
    /// (possibly inverted) inverter bits elsewhere.
    #[verifier::allow_in_spec]
    pub fn peek(&self) -> u8
        returns (self.accumulator & self.mask) | ((self.inverter ^ (if self.invert { 0xFFu8 } else { 0u8 })) & !self.mask),
    {
        let invert: u8 = if self.invert { 0xFF } else { 0x00 };
        (self.accumulator & self.mask) | ((self.inverter ^ invert) & !self.mask)
    }

    /// A read also latches the Y flag from the value read.
    pub fn read(&mut self) -> (r: u8)
        ensures
            r == old(self).peek(),
            *final(self) == (TxcChip { y_flag: !old(self).invert || r & 0x10 != 0, ..*old(self) }),
    {
        let value = self.peek();
        self.y_flag = !self.invert || (value & 0x10 != 0);
        value
    }

    /// Writes at $8000+ copy the accumulator (and inverter bits) to the
    /// output; $4100 steps or loads the accumulator, $4101 sets the invert
    /// flag, $4102 stages, $4103 selects increment mode.
    pub open spec fn written(self, addr: u16, value: u8) -> Self {
        let s = if addr >= 0x8000 {
            TxcChip {
                output: if self.is_jv001 { (self.accumulator & 0x0F) | (self.inverter & 0xF0) }
                    else { (self.accumulator & 0x0F) | ((self.inverter & 0x08) << 1u8) },
                ..self
            }
        } else {
            let p = addr & 0xE103;
            if p == 0x4100 {
                TxcChip {
                    accumulator: if self.increase { ((self.accumulator + 1) % 256) as u8 }
                        else { (self.accumulator & !self.mask) | ((self.staging ^ (if self.invert { 0xFFu8 } else { 0u8 })) & self.mask) },
                    ..self
                }
            } else if p == 0x4101 {
                TxcChip { invert: value & 0x01 != 0, ..self }
            } else if p == 0x4102 {
                TxcChip { staging: value & self.mask, inverter: value & !self.mask, ..self }
            } else if p == 0x4103 {
                TxcChip { increase: value & 0x01 != 0, ..self }
            } else {
                self
            }
        };
        TxcChip { y_flag: !s.invert || value & 0x10 != 0, ..s }
    }

    pub fn write(&mut self, addr: u16, value: u8)
        ensures *final(self) == old(self).written(addr, value),
    {
        if addr >= 0x8000 {
            self.output = if self.is_jv001 {
                (self.accumulator & 0x0F) | (self.inverter & 0xF0)
            } else {
                (self.accumulator & 0x0F) | ((self.inverter & 0x08) << 1)
            };
        } else {
            let p = addr & 0xE103;
            if p == 0x4100 {
                if self.increase {
                    self.accumulator = self.accumulator.wrapping_add(1);
                } else {
                    let inv: u8 = if self.invert { 0xFF } else { 0x00 };
                    self.accumulator = (self.accumulator & !self.mask) | ((self.staging ^ inv) & self.mask);
                }
            } else if p == 0x4101 {
                self.invert = value & 0x01 != 0;
            } else if p == 0x4102 {
                self.staging = value & self.mask;
                self.inverter = value & !self.mask;
            } else if p == 0x4103 {
                self.increase = value & 0x01 != 0;
            }
        }
        self.y_flag = !self.invert || (value & 0x10 != 0);
    }
}

#[derive(Debug, Clone, Copy)]
pub struct TxcMapper {
    pub prg_32k: usize,
    pub chr_8k: usize,
    pub variant: TxcVariant,
    pub chip: TxcChip,
}

pub open spec fn is_jv001(v: TxcVariant) -> bool {
    v == TxcVariant::Mapper136 || v == TxcVariant::Mapper147 || v == TxcVariant::Mapper172
}

impl TxcMapper {
    pub open spec fn wf(&self) -> bool {
        1 <= self.prg_32k <= MAX_PRG_16K && self.chr_8k <= MAX_CHR_8K
    }

    pub open spec fn fresh(self, prg_16k: usize, chr_8k: usize, variant: TxcVariant) -> bool {
        &&& self.prg_32k == if prg_16k / 2 < 1 { 1 } else { prg_16k / 2 }
        &&& self.chr_8k == chr_8k
        &&& self.variant == variant
        &&& self.chip.cleared(is_jv001(variant))
    }

    pub fn new(prg_16k: usize, chr_8k: usize, variant: TxcVariant) -> (r: Self)
        requires prg_16k <= MAX_PRG_16K, chr_8k <= MAX_CHR_8K,
        ensures r.fresh(prg_16k, chr_8k, variant), r.wf(),
    {
        let jv = match variant {
            TxcVariant::Mapper136 | TxcVariant::Mapper147 | TxcVariant::Mapper172 => true,
            _ => false,
        };
        let half = prg_16k / 2;
        TxcMapper { prg_32k: if half < 1 { 1 } else { half }, chr_8k, variant, chip: TxcChip::new(jv) }
    }

    #[verifier::allow_in_spec]
    pub fn prg_bank(&self) -> usize
        returns (match self.variant {
            TxcVariant::Mapper132 => (self.chip.output >> 2u8) & 0x01,
            TxcVariant::Mapper147 => ((self.chip.output & 0x20) >> 4u8) | (self.chip.output & 0x01),
            _ => 0u8,
        }) as usize,
    {
        let o = self.chip.output;
        match self.variant {
            TxcVariant::Mapper132 => ((o >> 2) & 0x01) as usize,
            TxcVariant::Mapper147 => (((o & 0x20) >> 4) | (o & 0x01)) as usize,
            _ => 0,
        }
    }

    #[verifier::allow_in_spec]
    pub fn chr_bank(&self) -> usize
        returns (match self.variant {
            TxcVariant::Mapper132 => self.chip.output & 0x03,
            TxcVariant::Mapper136 => self.chip.output,
            TxcVariant::Mapper147 => (self.chip.output & 0x1E) >> 1u8,
            TxcVariant::Mapper172 => self.chip.output,
            TxcVariant::Mapper173 => if self.chr_8k > 1 {
                (self.chip.output & 0x01) | (if self.chip.y_flag { 0x02u8 } else { 0u8 }) | ((self.chip.output & 0x02) << 1u8)
            } else { 0u8 },
        }) as usize,
    {
        let o = self.chip.output;
        match self.variant {
            TxcVariant::Mapper132 => (o & 0x03) as usize,
            TxcVariant::Mapper136 => o as usize,
            TxcVariant::Mapper147 => ((o & 0x1E) >> 1) as usize,
            TxcVariant::Mapper172 => o as usize,
            TxcVariant::Mapper173 => {
                if self.chr_8k > 1 {
                    let y: u8 = if self.chip.y_flag { 0x02 } else { 0x00 };
                    ((o & 0x01) | y | ((o & 0x02) << 1)) as usize
                } else {
                    0
                }
            },
        }
    }

    /// How each board wires the data bus into the chip.
    #[verifier::allow_in_spec]
    pub fn write_value(&self, value: u8) -> u8
        returns match self.variant {
            TxcVariant::Mapper136 => value & 0x3F,
            TxcVariant::Mapper147 => ((value & 0xFC) >> 2u8) | ((value & 0x03) << 6u8),
            TxcVariant::Mapper172 => rev6(value),
            _ => value & 0x0F,
        },
    {
        match self.variant {
            TxcVariant::Mapper136 => value & 0x3F,
            TxcVariant::Mapper147 => ((value & 0xFC) >> 2) | ((value & 0x03) << 6),
            TxcVariant::Mapper172 => reverse_six_bits(value),
            _ => value & 0x0F,
        }
    }

    /// How each board wires the chip's output back onto the data bus.
    pub open spec fn unwired(self, value: u8) -> u8 {
        match self.variant {
            TxcVariant::Mapper136 => value & 0x3F,
            TxcVariant::Mapper147 => ((value & 0x3F) << 2u8) | ((value & 0xC0) >> 6u8),
            TxcVariant::Mapper172 => rev6(value),
            _ => value & 0x0F,
        }
    }

    fn unwire(&self, value: u8) -> (r: u8)
        ensures r == self.unwired(value),
    {
        match self.variant {
            TxcVariant::Mapper136 => value & 0x3F,
            TxcVariant::Mapper147 => ((value & 0x3F) << 2) | ((value & 0xC0) >> 6),
            TxcVariant::Mapper172 => reverse_six_bits(value),
            _ => value & 0x0F,
        }
    }

    pub fn read_value(&mut self) -> (r: u8)
        ensures
            r == old(self).unwired(old(self).chip.peek()),
            *final(self) == (TxcMapper {
                chip: TxcChip { y_flag: !old(self).chip.invert || old(self).chip.peek() & 0x10 != 0, ..old(self).chip },
                ..*old(self)
            }),
    {
        let value = self.chip.read();
        self.unwire(value)
    }

    #[verifier::allow_in_spec]
    pub fn peek_value(&self) -> u8
        returns self.unwired(self.chip.peek()),
    {
        self.unwire(self.chip.peek())
    }

    /// Open-bus bits the board leaves undriven on a register read.
    #[verifier::allow_in_spec]
    pub fn read_mask(&self) -> u8
        returns match self.variant {
            TxcVariant::Mapper136 | TxcVariant::Mapper172 => 0xC0u8,
            TxcVariant::Mapper147 => 0u8,
            _ => 0xF0u8,
        },
    {
        match self.variant {
            TxcVariant::Mapper136 | TxcVariant::Mapper172 => 0xC0,
            TxcVariant::Mapper147 => 0x00,
            _ => 0xF0,
        }
    }

    /// A register read at addresses decoding as $x100 (A8 set, A0-A1 clear).
    #[verifier::allow_in_spec]
    pub fn peek_register_value(&self, addr: u16, open_bus: u8) -> Option<u8>
        returns if addr & 0x0103 == 0x0100 { Some((open_bus & self.read_mask()) | self.peek_value()) } else { None },
    {
        if addr & 0x0103 == 0x0100 { Some((open_bus & self.read_mask()) | self.peek_value()) } else { None }
    }

    pub fn read_register_value(&mut self, addr: u16, open_bus: u8) -> (r: Option<u8>)
        ensures
            r == old(self).peek_register_value(addr, open_bus),
            final(self).prg_32k == old(self).prg_32k && final(self).chr_8k == old(self).chr_8k,
            final(self).variant == old(self).variant,
    {
        if addr & 0x0103 == 0x0100 {
            let m = self.read_mask();
            let v = self.read_value();
            Some((open_bus & m) | v)
        } else {
            None
        }
    }

    pub fn read_expansion_with_open_bus(&mut self, addr: u16, open_bus: u8) -> (r: Option<u8>)
        ensures r == old(self).peek_register_value(addr, open_bus),
    {
        self.read_register_value(addr, open_bus)
    }

    pub fn peek_expansion_with_open_bus(&self, addr: u16, open_bus: u8) -> (r: Option<u8>)
        ensures r == self.peek_register_value(addr, open_bus),
    {
        self.peek_register_value(addr, open_bus)
    }

    #[verifier::allow_in_spec]
    pub fn prg_index(&self, addr: u16) -> usize
        requires self.wf(),
        returns ((self.prg_bank() % self.prg_32k) * 0x8000 + addr % 0x8000) as usize,
    {
        (self.prg_bank() % self.prg_32k) * 0x8000 + ((addr % 0x8000)) as usize
    }

    #[verifier::allow_in_spec]
    pub fn chr_index(&self, addr: u16) -> usize
        returns (self.chr_bank() * 0x2000 + addr % 0x2000) as usize,
    {
        self.chr_bank() * 0x2000 + ((addr % 0x2000)) as usize
    }

    pub open spec fn written(self, addr: u16, value: u8) -> Self {
        TxcMapper { chip: self.chip.written(addr, self.write_value(value)), ..self }
    }

    pub fn write_register(&mut self, addr: u16, value: u8)
        requires old(self).wf(),
        ensures *final(self) == old(self).written(addr, value), final(self).wf(),
    {
        let v = self.write_value(value);
        self.chip.write(addr, v);
    }

    pub open spec fn expansion_written(self, addr: u16, value: u8) -> Self {
        self.written(addr, value)
    }

    pub fn write_expansion(&mut self, addr: u16, value: u8)
        requires old(self).wf(),
        ensures *final(self) == old(self).expansion_written(addr, value), final(self).wf(),
    {
        let v = self.write_value(value);
        self.chip.write(addr, v);
    }

    #[verifier::allow_in_spec]
    pub fn mirroring(&self) -> Mirroring
        returns if self.variant == TxcVariant::Mapper172 {
            if self.chip.invert { Mirroring::Vertical } else { Mirroring::Horizontal }
        } else { Mirroring::Vertical },
    {
        match self.variant {
            TxcVariant::Mapper172 => if self.chip.invert { Mirroring::Vertical } else { Mirroring::Horizontal },
            _ => Mirroring::Vertical,
        }
    }

    pub open spec fn after_reset(self, soft: bool) -> Self {
        TxcMapper {
            chip: TxcChip {
                accumulator: 0, inverter: 0, staging: 0, output: 0, increase: false, y_flag: false,
                mask: if self.chip.is_jv001 { 0x0Fu8 } else { 0x07u8 },
                invert: self.chip.is_jv001,
                ..self.chip
            },
            ..self
        }
    }

    pub fn reset(&mut self, soft: bool)
        requires old(self).wf(),
        ensures *final(self) == old(self).after_reset(soft), final(self).wf(),
    {
        self.chip.reset();
    }
}

} // verus!
