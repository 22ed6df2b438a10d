//! Bandai FCG / LZ93D50 (16): 1 KiB CHR registers, a 16 KiB PRG register, a
//! CPU-cycle IRQ counter and, on most boards, a 24C02 serial EEPROM driven
//! bit by bit through register `$xxxD`.

use vstd::prelude::*;

verus! {

use crate::mapper::{MAX_CHR_8K, MAX_PRG_16K};
use crate::types::Mirroring;

// ------------------------------------------------------------ 24C02 EEPROM

#[derive(Debug, Clone, Copy, PartialEq, Eq, Structural)]
pub enum EepromMode {
    Idle,
    Address,
    Read,
    Write,
    SendAck,
    WaitAck,
    ChipAddress,
}

/// The EEPROM's serial-protocol state (everything but the 256 data bytes).
#[derive(Debug, Clone, Copy)]
pub struct EepromLines {
    pub mode: EepromMode,
    pub next_mode: EepromMode,
    pub chip_address: u8,
    pub address: u8,
    pub data: u8,
    pub counter: u8,
    pub output: u8,
    pub prev_scl: u8,
    pub prev_sda: u8,
}

pub open spec fn idle_lines() -> EepromLines {
    EepromLines {
        mode: EepromMode::Idle, next_mode: EepromMode::Idle, chip_address: 0, address: 0, data: 0, counter: 0,
        output: 0, prev_scl: 0, prev_sda: 0,
    }
}

/// Shift a bit into `dest` at position `7 - counter` while fewer than eight
/// have arrived; the new byte and counter.
pub open spec fn shifted_in(dest: u8, counter: u8, value: u8) -> (u8, u8) {
    if counter < 8 {
        let shift = (7 - counter) as u8;
        ((dest & !(1u8 << shift)) | ((value & 1) << shift), (counter + 1) as u8)
    } else {
        (dest, counter)
    }
}

fn shift_in(dest: u8, counter: u8, value: u8) -> (r: (u8, u8))
    ensures r == shifted_in(dest, counter, value),
{
    if counter < 8 {
        let shift: u8 = 7 - counter;
        ((dest & !(1u8 << shift)) | ((value & 1) << shift), counter + 1)
    } else {
        (dest, counter)
    }
}

pub open spec fn next_address(a: u8) -> u8 {
    if a == 255 { 0 } else { (a + 1) as u8 }
}

impl EepromLines {
    /// A rising clock edge: shift in an address/data bit, shift out a read
    /// bit, drive the acknowledge low, or (acknowledged) fetch the next byte.
    pub open spec fn rising(self, sda: u8, rom: Seq<u8>) -> Self {
        match self.mode {
            EepromMode::ChipAddress => {
                let (d, c) = shifted_in(self.chip_address, self.counter, sda);
                EepromLines { chip_address: d, counter: c, ..self }
            },
            EepromMode::Address => {
                let (d, c) = shifted_in(self.address, self.counter, sda);
                EepromLines { address: d, counter: c, ..self }
            },
            EepromMode::Read => if self.counter < 8 {
                EepromLines { output: (self.data >> ((7 - self.counter) as u8)) & 1, counter: (self.counter + 1) as u8, ..self }
            } else {
                self
            },
            EepromMode::Write => {
                let (d, c) = shifted_in(self.data, self.counter, sda);
                EepromLines { data: d, counter: c, ..self }
            },
            EepromMode::SendAck => EepromLines { output: 0, ..self },
            EepromMode::WaitAck => if sda == 0 {
                EepromLines { next_mode: EepromMode::Read, data: rom[self.address as int], ..self }
            } else {
                self
            },
            EepromMode::Idle => self,
        }
    }

    /// A falling clock edge: after eight bits, act on the byte (chip select,
    /// address, a finished read or a committed write) and send or await the
    /// acknowledge; after an acknowledge, enter the pending mode.
    pub open spec fn falling(self, rom: Seq<u8>) -> Self {
        match self.mode {
            EepromMode::ChipAddress => if self.counter == 8 {
                if (self.chip_address & 0xA0) == 0xA0 {
                    let base = EepromLines { mode: EepromMode::SendAck, counter: 0, output: 1, ..self };
                    if (self.chip_address & 1) != 0 {
                        EepromLines { next_mode: EepromMode::Read, data: rom[self.address as int], ..base }
                    } else {
                        EepromLines { next_mode: EepromMode::Address, ..base }
                    }
                } else {
                    EepromLines { mode: EepromMode::Idle, counter: 0, output: 1, ..self }
                }
            } else {
                self
            },
            EepromMode::Address => if self.counter == 8 {
                EepromLines { counter: 0, mode: EepromMode::SendAck, next_mode: EepromMode::Write, output: 1, ..self }
            } else {
                self
            },
            EepromMode::Read => if self.counter == 8 {
                EepromLines { mode: EepromMode::WaitAck, address: next_address(self.address), ..self }
            } else {
                self
            },
            EepromMode::Write => if self.counter == 8 {
                EepromLines {
                    counter: 0, mode: EepromMode::SendAck, next_mode: EepromMode::Write,
                    address: next_address(self.address), ..self
                }
            } else {
                self
            },
            EepromMode::SendAck | EepromMode::WaitAck => EepromLines { mode: self.next_mode, counter: 0, output: 1, ..self },
            EepromMode::Idle => self,
        }
    }

    /// SDA falling while SCL is high: start condition.
    pub open spec fn is_start(self, scl: u8, sda: u8) -> bool {
        self.prev_scl != 0 && scl % 2 != 0 && sda % 2 < self.prev_sda
    }

    /// SDA rising while SCL is high: stop condition.
    pub open spec fn is_stop(self, scl: u8, sda: u8) -> bool {
        self.prev_scl != 0 && scl % 2 != 0 && sda % 2 > self.prev_sda
    }

    /// The protocol state after driving SCL/SDA (bit 0 of each).
    pub open spec fn stepped(self, scl: u8, sda: u8, rom: Seq<u8>) -> Self {
        let c = scl % 2;
        let d = sda % 2;
        let s = if self.is_start(scl, sda) {
            EepromLines { mode: EepromMode::ChipAddress, counter: 0, chip_address: 0, output: 1, ..self }
        } else if self.is_stop(scl, sda) {
            EepromLines { mode: EepromMode::Idle, output: 1, ..self }
        } else if c > self.prev_scl {
            self.rising(d, rom)
        } else if c < self.prev_scl {
            self.falling(rom)
        } else {
            self
        };
        EepromLines { prev_scl: c, prev_sda: d, ..s }
    }

    /// Does this step commit the received data byte to the array?
    pub open spec fn stores(self, scl: u8, sda: u8) -> bool {
        !self.is_start(scl, sda) && !self.is_stop(scl, sda) && scl % 2 < self.prev_scl
            && self.mode == EepromMode::Write && self.counter == 8
    }
}

#[derive(Debug, Clone)]
pub struct Eeprom24C02 {
    pub lines: EepromLines,
    pub rom_data: Vec<u8>,
}

impl Eeprom24C02 {
    pub open spec fn wf(&self) -> bool {
        self.rom_data@.len() == 256
    }

    pub fn new() -> (r: Self)
        ensures r.lines == idle_lines(), r.rom_data@ == Seq::new(256, |i: int| 0u8), r.wf(),
    {
        Eeprom24C02 {
            lines: EepromLines {
                mode: EepromMode::Idle,
                next_mode: EepromMode::Idle,
                chip_address: 0,
                address: 0,
                data: 0,
                counter: 0,
                output: 0,
                prev_scl: 0,
                prev_sda: 0,
            },
            rom_data: crate::bytes::zeros(256),
        }
    }

    /// The data line the EEPROM drives.
    #[verifier::allow_in_spec]
    pub fn read(&self) -> u8
        returns self.lines.output % 2,
    {
        self.lines.output % 2
    }

    pub fn reset_lines(&mut self)
        requires old(self).wf(),
        ensures final(self).lines == idle_lines(), final(self).rom_data@ == old(self).rom_data@, final(self).wf(),
    {
        self.lines = EepromLines {
            mode: EepromMode::Idle,
            next_mode: EepromMode::Idle,
            chip_address: 0,
            address: 0,
            data: 0,
            counter: 0,
            output: 0,
            prev_scl: 0,
            prev_sda: 0,
        };
    }

    /// One write of the clock and data lines.
    pub open spec fn wrote(o: Self, n: Self, scl: u8, sda: u8) -> bool {
        &&& n.lines == o.lines.stepped(scl, sda, o.rom_data@)
        &&& n.rom_data@ == if o.lines.stores(scl, sda) {
                o.rom_data@.update(o.lines.address as int, o.lines.data)
            } else {
                o.rom_data@
            }
    }

    pub fn write(&mut self, scl: u8, sda: u8)
        requires old(self).wf(),
        ensures Self::wrote(*old(self), *final(self), scl, sda), final(self).wf(),
    {
        let scl = scl % 2;
        let sda = sda % 2;
        let mut l = self.lines;
        if l.prev_scl != 0 && scl != 0 && sda < l.prev_sda {
            l.mode = EepromMode::ChipAddress;
            l.counter = 0;
            l.chip_address = 0;
            l.output = 1;
        } else if l.prev_scl != 0 && scl != 0 && sda > l.prev_sda {
            l.mode = EepromMode::Idle;
            l.output = 1;
        } else if scl > l.prev_scl {
            match l.mode {
                EepromMode::ChipAddress => {
                    let (d, c) = shift_in(l.chip_address, l.counter, sda);
                    l.chip_address = d;
                    l.counter = c;
                },
                EepromMode::Address => {
                    let (d, c) = shift_in(l.address, l.counter, sda);
                    l.address = d;
                    l.counter = c;
                },
                EepromMode::Read => {
                    if l.counter < 8 {
                        l.output = (l.data >> (7 - l.counter)) & 1;
                        l.counter = l.counter + 1;
                    }
                },
                EepromMode::Write => {
                    let (d, c) = shift_in(l.data, l.counter, sda);
                    l.data = d;
                    l.counter = c;
                },
                EepromMode::SendAck => l.output = 0,
                EepromMode::WaitAck => {
                    if sda == 0 {
                        l.next_mode = EepromMode::Read;
                        l.data = self.rom_data[l.address as usize];
                    }
                },
                EepromMode::Idle => {},
            }
        } else if scl < l.prev_scl {
            match l.mode {
                EepromMode::ChipAddress => {
                    if l.counter == 8 {
                        if (l.chip_address & 0xA0) == 0xA0 {
                            l.mode = EepromMode::SendAck;
                            l.counter = 0;
                            l.output = 1;
                            if (l.chip_address & 1) != 0 {
                                l.next_mode = EepromMode::Read;
                                l.data = self.rom_data[l.address as usize];
                            } else {
                                l.next_mode = EepromMode::Address;
                            }
                        } else {
                            l.mode = EepromMode::Idle;
                            l.counter = 0;
                            l.output = 1;
                        }
                    }
                },
                EepromMode::Address => {
                    if l.counter == 8 {
                        l.counter = 0;
                        l.mode = EepromMode::SendAck;
                        l.next_mode = EepromMode::Write;
                        l.output = 1;
                    }
                },
                EepromMode::Read => {
                    if l.counter == 8 {
                        l.mode = EepromMode::WaitAck;
                        l.address = l.address.wrapping_add(1);
                    }
                },
                EepromMode::Write => {
                    if l.counter == 8 {
                        l.counter = 0;
                        l.mode = EepromMode::SendAck;
                        l.next_mode = EepromMode::Write;
                        self.rom_data.set(l.address as usize, l.data);
                        l.address = l.address.wrapping_add(1);
                    }
                },
                EepromMode::SendAck | EepromMode::WaitAck => {
                    l.mode = l.next_mode;
                    l.counter = 0;
                    l.output = 1;
                },
                EepromMode::Idle => {},
            }
        }
        l.prev_scl = scl;
        l.prev_sda = sda;
        self.lines = l;
    }
}

// ------------------------------------------------------------ FCG registers

/// The register file written through `$xxx0-$xxxD`.
#[derive(Debug, Clone, Copy)]
pub struct FcgRegs {
    pub chr_regs: [u8; 8],
    pub prg_page: u8,
    pub mirroring: Mirroring,
    pub irq_enabled: bool,
    pub irq_counter: u16,
    pub irq_reload: u16,
    pub irq_pending: bool,
}

pub open spec fn fcg_cleared(r: FcgRegs) -> bool {
    &&& r.chr_regs@ == Seq::new(8, |i: int| 0u8) && r.prg_page == 0 && r.mirroring == Mirroring::Vertical
    &&& !r.irq_enabled && r.irq_counter == 0 && r.irq_reload == 0 && !r.irq_pending
}

pub open spec fn fcg_mirroring(v: u8) -> Mirroring {
    if v % 4 == 0 { Mirroring::Vertical } else if v % 4 == 1 { Mirroring::Horizontal }
    else if v % 4 == 2 { Mirroring::SingleScreenLow } else { Mirroring::SingleScreenHigh }
}

impl FcgRegs {
    /// `$0-$7`: CHR banks; `$8`: PRG bank (bits 0-3); `$9`: mirroring
    /// (V, H, single low, single high); `$A`: IRQ enable (bit 0), which also
    /// acknowledges and (on the LZ93D50) copies the reload into the counter;
    /// `$B`/`$C`: low/high byte of the reload (of the counter itself when
    /// `direct`). `$D` (the EEPROM) and `$E-$F` leave these alone.
    pub open spec fn wrote(o: Self, n: Self, reg: u16, value: u8, direct: bool) -> bool {
        let v = value as u16;
        if reg < 8 {
            n.chr_regs@ == o.chr_regs@.update(reg as int, value) && n == FcgRegs { chr_regs: n.chr_regs, ..o }
        } else if reg == 8 {
            n == FcgRegs { prg_page: value % 16, ..o }
        } else if reg == 9 {
            n == FcgRegs { mirroring: fcg_mirroring(value), ..o }
        } else if reg == 10 {
            n == FcgRegs { irq_enabled: value % 2 == 1, irq_counter: if direct { o.irq_counter } else { o.irq_reload }, irq_pending: false, ..o }
        } else if reg == 11 {
            if direct { n == FcgRegs { irq_counter: ((o.irq_counter / 256) * 256 + v) as u16, ..o } }
            else { n == FcgRegs { irq_reload: ((o.irq_reload / 256) * 256 + v) as u16, ..o } }
        } else if reg == 12 {
            if direct { n == FcgRegs { irq_counter: (o.irq_counter % 256 + v * 256) as u16, ..o } }
            else { n == FcgRegs { irq_reload: (o.irq_reload % 256 + v * 256) as u16, ..o } }
        } else {
            n == o
        }
    }

    pub fn write(&mut self, reg: u16, value: u8, direct: bool)
        ensures Self::wrote(*old(self), *final(self), reg, value, direct),
    {
        let v = value as u16;
        if reg < 8 {
            self.chr_regs[reg as usize] = value;
        } else if reg == 8 {
            self.prg_page = value % 16;
        } else if reg == 9 {
            self.mirroring = if value % 4 == 0 {
                Mirroring::Vertical
            } else if value % 4 == 1 {
                Mirroring::Horizontal
            } else if value % 4 == 2 {
                Mirroring::SingleScreenLow
            } else {
                Mirroring::SingleScreenHigh
            };
        } else if reg == 10 {
            self.irq_enabled = value % 2 == 1;
            if !direct {
                self.irq_counter = self.irq_reload;
            }
            self.irq_pending = false;
        } else if reg == 11 {
            if direct {
                self.irq_counter = (self.irq_counter / 256) * 256 + v;
            } else {
                self.irq_reload = (self.irq_reload / 256) * 256 + v;
            }
        } else if reg == 12 {
            if direct {
                self.irq_counter = self.irq_counter % 256 + v * 256;
            } else {
                self.irq_reload = self.irq_reload % 256 + v * 256;
            }
        }
    }

    /// One CPU cycle: an enabled counter raises the IRQ as it passes zero
    /// and counts down (wrapping).
    pub open spec fn clocked(self) -> Self {
        if self.irq_enabled {
            FcgRegs {
                irq_pending: self.irq_pending || self.irq_counter == 0,
                irq_counter: if self.irq_counter == 0 { 0xFFFFu16 } else { (self.irq_counter - 1) as u16 },
                ..self
            }
        } else {
            self
        }
    }
}

// ------------------------------------------------------------ the board

#[derive(Debug, Clone)]
pub struct BandaiFcg {
    pub prg_16k: usize,
    pub chr_1k: usize,
    pub regs: FcgRegs,
    pub low_write_enabled: bool,
    pub high_write_enabled: bool,
    pub direct_irq_counter: bool,
    pub eeprom: Option<Eeprom24C02>,
}

impl BandaiFcg {
    pub open spec fn wf(&self) -> bool {
        &&& 1 <= self.prg_16k <= MAX_PRG_16K
        &&& 8 <= self.chr_1k <= 8 * MAX_CHR_8K
        &&& match self.eeprom { Some(e) => e.wf(), None => true }
    }

    /// Submapper 4 (FCG-1/2) has registers at $6000 only, a directly loaded
    /// counter and no EEPROM; submapper 5 (LZ93D50) at $8000 only.
    pub open spec fn fresh(self, prg_16k: usize, chr_8k: usize, submapper: u8) -> bool {
        &&& self.prg_16k == (if prg_16k == 0 { 1 } else { prg_16k })
        &&& self.chr_1k == (if chr_8k * 8 < 8 { 8 } else { chr_8k * 8 })
        &&& fcg_cleared(self.regs)
        &&& self.low_write_enabled == (submapper != 5) && self.high_write_enabled == (submapper != 4)
        &&& self.direct_irq_counter == (submapper == 4)
        &&& match self.eeprom {
                Some(e) => submapper != 4 && e.lines == idle_lines() && e.rom_data@ == Seq::new(256, |i: int| 0u8),
                None => submapper == 4,
            }
    }

    pub fn new(prg_16k: usize, chr_8k: usize, submapper: u8) -> (r: Self)
        requires prg_16k <= MAX_PRG_16K, chr_8k <= MAX_CHR_8K,
        ensures r.fresh(prg_16k, chr_8k, submapper), r.wf(),
    {
        let c = chr_8k * 8;
        let r = BandaiFcg {
            prg_16k: if prg_16k == 0 { 1 } else { prg_16k },
            chr_1k: if c < 8 { 8 } else { c },
            regs: FcgRegs {
                chr_regs: [0u8; 8],
                prg_page: 0,
                mirroring: Mirroring::Vertical,
                irq_enabled: false,
                irq_counter: 0,
                irq_reload: 0,
                irq_pending: false,
            },
            low_write_enabled: submapper != 5,
            high_write_enabled: submapper != 4,
            direct_irq_counter: submapper == 4,
            eeprom: if submapper == 4 { None } else { Some(Eeprom24C02::new()) },
        };
        assert(r.regs.chr_regs@ =~= Seq::new(8, |i: int| 0u8));
        r
    }

    /// A register write (`addr & $F` selects the register): the register file
    /// changes, and `$D` drives the EEPROM's SCL (bit 5) and SDA (bit 6).
    pub open spec fn inner_wrote(o: Self, n: Self, addr: u16, value: u8) -> bool {
        let reg = (addr % 16) as u16;
        &&& n.prg_16k == o.prg_16k && n.chr_1k == o.chr_1k
        &&& n.low_write_enabled == o.low_write_enabled && n.high_write_enabled == o.high_write_enabled
        &&& n.direct_irq_counter == o.direct_irq_counter
        &&& FcgRegs::wrote(o.regs, n.regs, reg, value, o.direct_irq_counter)
        &&& match (o.eeprom, n.eeprom) {
                (Some(oe), Some(ne)) => if reg == 13 { Eeprom24C02::wrote(oe, ne, (value / 32) % 2, (value / 64) % 2) }
                    else { ne.lines == oe.lines && ne.rom_data@ == oe.rom_data@ },
                (None, None) => true,
                _ => false,
            }
    }

    fn write_register_inner(&mut self, addr: u16, value: u8)
        requires old(self).wf(),
        ensures Self::inner_wrote(*old(self), *final(self), addr, value), final(self).wf(),
    {
        let reg = addr % 16;
        let direct = self.direct_irq_counter;
        let mut r = self.regs;
        r.write(reg, value, direct);
        self.regs = r;
        if reg == 13 {
            match self.eeprom.take() {
                Some(mut e) => {
                    e.write((value / 32) % 2, (value / 64) % 2);
                    self.eeprom = Some(e);
                },
                None => {},
            }
        }
    }

    pub open spec fn wrote(o: Self, n: Self, addr: u16, value: u8) -> bool {
        if o.high_write_enabled { Self::inner_wrote(o, n, addr, value) } else { n == o }
    }

    pub fn write_register(&mut self, addr: u16, value: u8)
        requires old(self).wf(),
        ensures Self::wrote(*old(self), *final(self), addr, value), final(self).wf(),
    {
        if self.high_write_enabled {
            self.write_register_inner(addr, value);
        }
    }

    pub open spec fn claims_low(&self, addr: u16) -> bool {
        self.low_write_enabled
    }

    pub open spec fn low_wrote(o: Self, n: Self, addr: u16, value: u8) -> bool {
        if o.low_write_enabled { Self::inner_wrote(o, n, addr, value) } else { n == o }
    }

    pub fn write_low_register(&mut self, addr: u16, value: u8) -> (r: bool)
        requires old(self).wf(),
        ensures r == old(self).claims_low(addr), Self::low_wrote(*old(self), *final(self), addr, value), final(self).wf(),
    {
        if self.low_write_enabled {
            self.write_register_inner(addr, value);
            true
        } else {
            false
        }
    }

    /// `$6000-$7FFF` reads: the EEPROM's data line on bit 4 over the open
    /// bus (a missing EEPROM reads 0).
    #[verifier::allow_in_spec]
    pub fn peek_low_register_with_open_bus(&self, addr: u16, prg_ram_value: u8, open_bus: u8) -> Option<u8>
        returns Some((open_bus - ((open_bus / 16) % 2) * 16
            + (match self.eeprom { Some(e) => e.lines.output % 2, None => 0u8 }) * 16) as u8),
    {
        let bit = match &self.eeprom {
            Some(e) => e.read(),
            None => 0,
        };
        Some(open_bus - ((open_bus / 16) % 2) * 16 + bit * 16)
    }

    #[verifier::allow_in_spec]
    pub fn prg_index(&self, addr: u16) -> usize
        requires self.wf(),
        returns (((if addr < 0xC000 { self.regs.prg_page as int } else { self.prg_16k - 1 }) % (self.prg_16k as int)) * 0x4000
            + addr % 0x4000) as usize,
    {
        let bank: usize = if addr < 0xC000 { self.regs.prg_page as usize } else { self.prg_16k - 1 };
        (bank % self.prg_16k) * 0x4000 + (addr % 0x4000) as usize
    }

    #[verifier::allow_in_spec]
    pub fn chr_index(&self, addr: u16) -> usize
        requires self.wf(),
        returns (((self.regs.chr_regs@[((addr % 0x2000) / 0x400) as int] as int) % (self.chr_1k as int)) * 0x400 + addr % 0x400) as usize,
    {
        let slot = ((addr % 0x2000) / 0x0400) as usize;
        ((self.regs.chr_regs[slot] as usize) % self.chr_1k) * 0x0400 + (addr % 0x0400) as usize
    }

    #[verifier::allow_in_spec]
    pub fn mirroring(&self) -> Mirroring
        returns self.regs.mirroring,
    {
        self.regs.mirroring
    }

    pub open spec fn cpu_ticked(o: Self, n: Self) -> bool {
        n.regs == o.regs.clocked() && n.eeprom == o.eeprom && n.prg_16k == o.prg_16k && n.chr_1k == o.chr_1k
            && n.low_write_enabled == o.low_write_enabled && n.high_write_enabled == o.high_write_enabled
            && n.direct_irq_counter == o.direct_irq_counter
    }

    pub fn cpu_clock(&mut self)
        requires old(self).wf(),
        ensures Self::cpu_ticked(*old(self), *final(self)), final(self).wf(),
    {
        if self.regs.irq_enabled {
            if self.regs.irq_counter == 0 {
                self.regs.irq_pending = true;
            }
            self.regs.irq_counter = self.regs.irq_counter.wrapping_sub(1);
        }
    }

    #[verifier::allow_in_spec]
    pub fn clocks_cpu(&self) -> bool
        returns true,
    {
        true
    }

    #[verifier::allow_in_spec]
    pub fn irq(&self) -> bool
        returns self.regs.irq_pending,
    {
        self.regs.irq_pending
    }

    pub open spec fn irq_cleared(o: Self, n: Self) -> bool {
        n.regs == FcgRegs { irq_pending: false, ..o.regs } && n.eeprom == o.eeprom && n.prg_16k == o.prg_16k
            && n.chr_1k == o.chr_1k && n.low_write_enabled == o.low_write_enabled
            && n.high_write_enabled == o.high_write_enabled && n.direct_irq_counter == o.direct_irq_counter
    }

    pub fn clear_irq(&mut self)
        requires old(self).wf(),
        ensures Self::irq_cleared(*old(self), *final(self)), final(self).wf(),
    {
        self.regs.irq_pending = false;
    }

    /// Reset clears the register file and the EEPROM's protocol state (its
    /// data survives).
    pub open spec fn was_reset(o: Self, n: Self, soft: bool) -> bool {
        &&& fcg_cleared(n.regs)
        &&& n.prg_16k == o.prg_16k && n.chr_1k == o.chr_1k && n.low_write_enabled == o.low_write_enabled
        &&& n.high_write_enabled == o.high_write_enabled && n.direct_irq_counter == o.direct_irq_counter
        &&& match (o.eeprom, n.eeprom) {
                (Some(oe), Some(ne)) => ne.lines == idle_lines() && ne.rom_data@ == oe.rom_data@,
                (None, None) => true,
                _ => false,
            }
    }

    pub fn reset(&mut self, soft: bool)
        requires old(self).wf(),
        ensures Self::was_reset(*old(self), *final(self), soft), final(self).wf(),
    {
        self.regs = FcgRegs {
            chr_regs: [0u8; 8],
            prg_page: 0,
            mirroring: Mirroring::Vertical,
            irq_enabled: false,
            irq_counter: 0,
            irq_reload: 0,
            irq_pending: false,
        };
        assert(self.regs.chr_regs@ =~= Seq::new(8, |i: int| 0u8));
        match self.eeprom.take() {
            Some(mut e) => {
                e.reset_lines();
                self.eeprom = Some(e);
            },
            None => {},
        }
    }
}

} // verus!
