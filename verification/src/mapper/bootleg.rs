//! Bootleg boards that route the nametables themselves: Boku Dracula-kun
//! (272) and the Contra/Gryzor bootleg (330).

use vstd::prelude::*;

verus! {

use crate::mapper::irq_boards::{at_least, with_nibble};
use crate::mapper::{MAX_CHR_8K, MAX_PRG_16K};
use crate::types::Mirroring;

fn at_least_of(n: usize, floor: usize) -> (r: usize)
    ensures r == at_least(n as int, floor as int),
{
    if n < floor { floor } else { n }
}

// ------------------------------------------------------------ Mapper 272

/// Boku Dracula-kun bootleg (272): VRC-style PRG/CHR registers (CHR in
/// nibbles), a PAL that can force one-screen nametables (`$8004` under mask
/// `$C00C`), and an IRQ counted on PPU A13 falling edges, firing every 84.
#[derive(Debug, Clone, Copy)]
pub struct Mapper272 {
    pub prg_8k_total: usize,
    pub chr_1k_total: usize,
    pub prg: [u8; 2],
    pub chr: [u8; 8],
    pub mirroring: Mirroring,
    pub pal_mirroring: u8,
    pub last_pa13: bool,
    pub irq_counter: u8,
    pub irq_enabled: bool,
    pub irq_pending: bool,
}

impl Mapper272 {
    pub open spec fn wf(&self) -> bool {
        &&& 4 <= self.prg_8k_total <= 2 * MAX_PRG_16K
        &&& 8 <= self.chr_1k_total <= 8 * MAX_CHR_8K
        &&& self.pal_mirroring < 4
    }

    /// The power-on register state (sizes aside).
    pub open spec fn cleared(self) -> bool {
        &&& self.prg@ == seq![0u8, 0] && self.chr@ == seq![0u8, 0, 0, 0, 0, 0, 0, 0]
        &&& self.mirroring == Mirroring::Vertical && self.pal_mirroring == 0 && !self.last_pa13
        &&& self.irq_counter == 0 && !self.irq_enabled && !self.irq_pending
    }

    pub open spec fn fresh(self, prg_16k: usize, chr_8k: usize) -> bool {
        &&& self.prg_8k_total == at_least(prg_16k * 2, 4) && self.chr_1k_total == at_least(chr_8k * 8, 8)
        &&& self.cleared()
    }

    pub fn new(prg_16k: usize, chr_8k: usize) -> (r: Self)
        requires prg_16k <= MAX_PRG_16K, chr_8k <= MAX_CHR_8K,
        ensures r.fresh(prg_16k, chr_8k), r.wf(),
    {
        let r = Mapper272 {
            prg_8k_total: at_least_of(prg_16k * 2, 4),
            chr_1k_total: at_least_of(chr_8k * 8, 8),
            prg: [0u8, 0],
            chr: [0u8; 8],
            mirroring: Mirroring::Vertical,
            pal_mirroring: 0,
            last_pa13: false,
            irq_counter: 0,
            irq_enabled: false,
            irq_pending: false,
        };
        assert(r.chr@ =~= seq![0u8, 0, 0, 0, 0, 0, 0, 0]);
        r
    }

    pub open spec fn prg_bank(self, addr: u16) -> int {
        let slot = (addr - 0x8000) / 0x2000;
        if slot < 2 { self.prg@[slot] as int } else { self.prg_8k_total - 4 + slot }
    }

    #[verifier::allow_in_spec]
    pub fn prg_index(&self, addr: u16) -> usize
        requires self.wf(), addr >= 0x8000,
        returns ((self.prg_bank(addr) % self.prg_8k_total as int) * 0x2000 + addr % 0x2000) as usize,
    {
        let slot = ((addr - 0x8000) / 0x2000) as usize;
        let bank: usize = if slot < 2 { self.prg[slot] as usize } else { self.prg_8k_total - 4 + slot };
        (bank % self.prg_8k_total) * 0x2000 + (addr % 0x2000) as usize
    }

    #[verifier::allow_in_spec]
    pub fn chr_index(&self, addr: u16) -> usize
        requires self.wf(),
        returns ((self.chr@[((addr / 0x400) % 8) as int] as int % self.chr_1k_total as int) * 0x400 + addr % 0x400) as usize,
    {
        (self.chr[((addr / 0x400) % 8) as usize] as usize % self.chr_1k_total) * 0x400 + (addr % 0x400) as usize
    }

    /// Two decoders see every write: the VRC one (`addr & $F003`: PRG at
    /// `$8xxx`/`$Axxx`, mirroring at `$9xxx`, CHR nibbles at `$B000-$E003`)
    /// and the PAL (`addr & $C00C`: `$8004` one-screen select, `$800C` raise,
    /// `$C004` acknowledge, `$C008` enable, `$C00C` disable and clear).
    pub open spec fn wrote(o: Self, n: Self, addr: u16, value: u8) -> bool {
        let hi = (addr / 0x1000) as int;
        let lo = (addr % 4) as int;
        let q = (addr / 0x4000) % 4;
        let l = (addr / 4) % 4;
        let pal_set = q == 2 && l == 1;
        let raise = q == 2 && l == 3;
        let ack = q == 3 && l == 1;
        let enable = q == 3 && l == 2;
        let disable = q == 3 && l == 3;
        &&& n.prg_8k_total == o.prg_8k_total && n.chr_1k_total == o.chr_1k_total && n.last_pa13 == o.last_pa13
        &&& n.prg@ == if hi == 8 { o.prg@.update(0, value) } else if hi == 0xA { o.prg@.update(1, value) } else { o.prg@ }
        &&& n.mirroring == if hi == 9 { if value % 2 == 1 { Mirroring::Horizontal } else { Mirroring::Vertical } } else { o.mirroring }
        &&& n.chr@ == if 0xB <= hi <= 0xE {
                let i = (hi - 0xB) * 2 + lo / 2;
                o.chr@.update(i, with_nibble(o.chr@[i], (value % 16) as int, lo % 2 == 1))
            } else { o.chr@ }
        &&& n.pal_mirroring == if pal_set { value % 4 } else { o.pal_mirroring }
        &&& n.irq_pending == if raise { true } else if ack || disable { false } else { o.irq_pending }
        &&& n.irq_enabled == if enable { true } else if disable { false } else { o.irq_enabled }
        &&& n.irq_counter == if disable { 0 } else { o.irq_counter }
    }

    pub fn write_register(&mut self, addr: u16, value: u8)
        requires old(self).wf(),
        ensures Self::wrote(*old(self), *final(self), addr, value), final(self).wf(),
    {
        let hi = addr / 0x1000;
        let lo = (addr % 4) as usize;
        if hi == 8 {
            self.prg[0] = value;
        } else if hi == 9 {
            self.mirroring = if value % 2 == 1 { Mirroring::Horizontal } else { Mirroring::Vertical };
        } else if hi == 0xA {
            self.prg[1] = value;
        } else if 0xB <= hi && hi <= 0xE {
            let i = ((hi - 0xB) * 2) as usize + lo / 2;
            let v = value % 16;
            let old_bank = self.chr[i];
            self.chr[i] = if lo % 2 == 1 { old_bank % 16 + v * 16 } else { old_bank - old_bank % 16 + v };
        }
        let q = (addr / 0x4000) % 4;
        let l = (addr / 4) % 4;
        if q == 2 && l == 1 {
            self.pal_mirroring = value % 4;
        } else if q == 2 && l == 3 {
            self.irq_pending = true;
        } else if q == 3 && l == 1 {
            self.irq_pending = false;
        } else if q == 3 && l == 2 {
            self.irq_enabled = true;
        } else if q == 3 && l == 3 {
            self.irq_enabled = false;
            self.irq_counter = 0;
            self.irq_pending = false;
        }
    }

    /// The CIRAM page of nametable `table`: the PAL's one-screen choice, or
    /// the VRC mirroring.
    pub open spec fn ciram_page(self, table: int) -> int {
        if self.pal_mirroring == 2 { 0 }
        else if self.pal_mirroring == 3 { 1 }
        else if self.mirroring == Mirroring::Horizontal { if table >= 2 { 1 } else { 0 } }
        else { table % 2 }
    }

    #[verifier::allow_in_spec]
    pub fn ciram_index(&self, addr: u16) -> usize
        returns (self.ciram_page(((addr / 0x400) % 4) as int) * 0x400 + addr % 0x400) as usize,
    {
        let table = ((addr / 0x400) % 4) as usize;
        let page: usize = if self.pal_mirroring == 2 {
            0
        } else if self.pal_mirroring == 3 {
            1
        } else {
            match self.mirroring {
                Mirroring::Horizontal => if table >= 2 { 1 } else { 0 },
                _ => table % 2,
            }
        };
        page * 0x400 + (addr % 0x400) as usize
    }

    #[verifier::allow_in_spec]
    pub fn peek_nametable(&self, addr: u16, ciram: &[u8; 0x1000]) -> Option<u8>
        returns Some(ciram@[self.ciram_index(addr) as int]),
    {
        Some(ciram[self.ciram_index(addr)])
    }

    pub open spec fn claims_nametable_write(&self, addr: u16) -> bool {
        true
    }

    pub open spec fn nametable_wrote(&self, addr: u16, value: u8, before: Seq<u8>, after: Seq<u8>) -> bool {
        after == before.update(self.ciram_index(addr) as int, value)
    }

    pub fn nametable_write(&mut self, addr: u16, value: u8, ciram: &mut [u8; 0x1000]) -> (r: bool)
        ensures
            r == old(self).claims_nametable_write(addr),
            *final(self) == *old(self),
            old(self).nametable_wrote(addr, value, old(ciram)@, final(ciram)@),
    {
        let i = self.ciram_index(addr);
        ciram[i] = value;
        true
    }

    #[verifier::allow_in_spec]
    pub fn mirroring(&self) -> Mirroring
        returns Mirroring::FourScreen,
    {
        Mirroring::FourScreen
    }

    /// Each PA13 fall while enabled counts; the 84th raises the IRQ and
    /// restarts the count.
    pub open spec fn a12_noted(o: Self, n: Self, addr: u16, cycle: u64) -> bool {
        let pa13 = (addr / 0x2000) % 2 == 1;
        let step = o.last_pa13 && !pa13 && o.irq_enabled;
        let c = (o.irq_counter + 1) % 256;
        &&& n == (Mapper272 { irq_counter: n.irq_counter, irq_pending: n.irq_pending, last_pa13: pa13, ..o })
        &&& n.irq_counter == if step { if c == 84 { 0 } else { c as u8 } } else { o.irq_counter }
        &&& n.irq_pending == (o.irq_pending || (step && c == 84))
    }

    pub fn notify_a12(&mut self, addr: u16, cycle: u64)
        requires old(self).wf(),
        ensures Self::a12_noted(*old(self), *final(self), addr, cycle), final(self).wf(),
    {
        let pa13 = (addr / 0x2000) % 2 == 1;
        if self.last_pa13 && !pa13 && self.irq_enabled {
            self.irq_counter = self.irq_counter.wrapping_add(1);
            if self.irq_counter == 84 {
                self.irq_counter = 0;
                self.irq_pending = true;
            }
        }
        self.last_pa13 = pa13;
    }

    #[verifier::allow_in_spec]
    pub fn watches_ppu_bus(&self) -> bool
        returns true,
    {
        true
    }

    #[verifier::allow_in_spec]
    pub fn irq(&self) -> bool
        returns self.irq_pending,
    {
        self.irq_pending
    }

    pub open spec fn after_clear_irq(self) -> Self {
        Mapper272 { irq_pending: false, ..self }
    }

    pub fn clear_irq(&mut self)
        requires old(self).wf(),
        ensures *final(self) == old(self).after_clear_irq(), final(self).wf(),
    {
        self.irq_pending = false;
    }

    pub open spec fn was_reset(o: Self, n: Self, soft: bool) -> bool {
        n.prg_8k_total == o.prg_8k_total && n.chr_1k_total == o.chr_1k_total && n.cleared()
    }

    pub fn reset(&mut self, soft: bool)
        requires old(self).wf(),
        ensures Self::was_reset(*old(self), *final(self), soft), final(self).wf(),
    {
        self.prg = [0u8, 0];
        self.chr = [0u8; 8];
        self.mirroring = Mirroring::Vertical;
        self.pal_mirroring = 0;
        self.last_pa13 = false;
        self.irq_counter = 0;
        self.irq_enabled = false;
        self.irq_pending = false;
        assert(self.chr@ =~= seq![0u8, 0, 0, 0, 0, 0, 0, 0]);
    }
}

// ------------------------------------------------------------ Mapper 330

/// Contra/Gryzor bootleg (330): with address bit 10 clear, `$8000-$B800`
/// load the eight 1 KiB CHR banks, `$C000-$D800` four nametable registers
/// (bit 0 picks the CIRAM page), `$E000-$F000` the three 8 KiB PRG banks;
/// with bit 10 set, `$8400`/`$A400` load the 15-bit CPU-cycle counter (low
/// byte, then high bits with the enable in bit 7). The counter raises the
/// IRQ and stops when it passes `$7FFF`.
#[derive(Debug, Clone, Copy)]
pub struct Mapper330 {
    pub prg_8k_total: usize,
    pub chr_1k_total: usize,
    pub prg: [u8; 3],
    pub chr: [u8; 8],
    pub nt: [u8; 4],
    pub irq_enabled: bool,
    pub irq_counter: u16,
    pub irq_pending: bool,
}

impl Mapper330 {
    pub open spec fn wf(&self) -> bool {
        &&& 4 <= self.prg_8k_total <= 2 * MAX_PRG_16K
        &&& 8 <= self.chr_1k_total <= 8 * MAX_CHR_8K
    }

    pub open spec fn cleared(self) -> bool {
        &&& self.prg@ == seq![0u8, 0, 0] && self.chr@ == seq![0u8, 1, 2, 3, 4, 5, 6, 7]
        &&& self.nt@ == seq![0xFFu8, 0xFF, 0xFF, 0xFF]
        &&& !self.irq_enabled && self.irq_counter == 0 && !self.irq_pending
    }

    pub open spec fn fresh(self, prg_16k: usize, chr_8k: usize) -> bool {
        &&& self.prg_8k_total == at_least(prg_16k * 2, 4) && self.chr_1k_total == at_least(chr_8k * 8, 8)
        &&& self.cleared()
    }

    pub fn new(prg_16k: usize, chr_8k: usize) -> (r: Self)
        requires prg_16k <= MAX_PRG_16K, chr_8k <= MAX_CHR_8K,
        ensures r.fresh(prg_16k, chr_8k), r.wf(),
    {
        let r = Mapper330 {
            prg_8k_total: at_least_of(prg_16k * 2, 4),
            chr_1k_total: at_least_of(chr_8k * 8, 8),
            prg: [0u8; 3],
            chr: [0u8, 1, 2, 3, 4, 5, 6, 7],
            nt: [0xFFu8; 4],
            irq_enabled: false,
            irq_counter: 0,
            irq_pending: false,
        };
        assert(r.prg@ =~= seq![0u8, 0, 0]);
        assert(r.chr@ =~= seq![0u8, 1, 2, 3, 4, 5, 6, 7]);
        assert(r.nt@ =~= seq![0xFFu8, 0xFF, 0xFF, 0xFF]);
        r
    }

    pub open spec fn prg_bank(self, addr: u16) -> int {
        let slot = (addr - 0x8000) / 0x2000;
        if slot < 3 { self.prg@[slot] as int } else { self.prg_8k_total - 1 }
    }

    #[verifier::allow_in_spec]
    pub fn prg_index(&self, addr: u16) -> usize
        requires self.wf(), addr >= 0x8000,
        returns ((self.prg_bank(addr) % self.prg_8k_total as int) * 0x2000 + addr % 0x2000) as usize,
    {
        let slot = ((addr - 0x8000) / 0x2000) as usize;
        let bank: usize = if slot < 3 { self.prg[slot] as usize } else { self.prg_8k_total - 1 };
        (bank % self.prg_8k_total) * 0x2000 + (addr % 0x2000) as usize
    }

    #[verifier::allow_in_spec]
    pub fn chr_index(&self, addr: u16) -> usize
        requires self.wf(),
        returns ((self.chr@[((addr / 0x400) % 8) as int] as int % self.chr_1k_total as int) * 0x400 + addr % 0x400) as usize,
    {
        (self.chr[((addr / 0x400) % 8) as usize] as usize % self.chr_1k_total) * 0x400 + (addr % 0x400) as usize
    }

    pub open spec fn wrote(o: Self, n: Self, addr: u16, value: u8) -> bool {
        let bit10 = (addr / 0x400) % 2 == 1;
        let counter_write = bit10 && addr < 0xC000 && (addr / 0x4000) % 2 == 0;
        let high = (addr / 0x2000) % 2 == 1;
        &&& n.prg_8k_total == o.prg_8k_total && n.chr_1k_total == o.chr_1k_total
        &&& n.chr@ == if !bit10 && 0x8000 <= addr <= 0xB800 { o.chr@.update((addr - 0x8000) / 0x800, value) } else { o.chr@ }
        &&& n.nt@ == if !bit10 && 0xC000 <= addr <= 0xD800 { o.nt@.update((addr - 0xC000) / 0x800, value) } else { o.nt@ }
        &&& n.prg@ == if !bit10 && 0xE000 <= addr <= 0xF000 { o.prg@.update((addr - 0xE000) / 0x800, value) } else { o.prg@ }
        &&& n.irq_counter == if counter_write {
                if high { (o.irq_counter % 256 + (value % 128) * 256) as u16 } else { (o.irq_counter - o.irq_counter % 256 + value) as u16 }
            } else { o.irq_counter }
        &&& n.irq_enabled == if counter_write && high { value >= 0x80 } else { o.irq_enabled }
        &&& n.irq_pending == if counter_write && high { false } else { o.irq_pending }
    }

    pub fn write_register(&mut self, addr: u16, value: u8)
        requires old(self).wf(),
        ensures Self::wrote(*old(self), *final(self), addr, value), final(self).wf(),
    {
        if (addr / 0x400) % 2 == 0 {
            if 0x8000 <= addr && addr <= 0xB800 {
                self.chr[((addr - 0x8000) / 0x800) as usize] = value;
            } else if 0xC000 <= addr && addr <= 0xD800 {
                self.nt[((addr - 0xC000) / 0x800) as usize] = value;
            } else if 0xE000 <= addr && addr <= 0xF000 {
                self.prg[((addr - 0xE000) / 0x800) as usize] = value;
            }
        } else if addr < 0xC000 && (addr / 0x4000) % 2 == 0 {
            if (addr / 0x2000) % 2 == 1 {
                self.irq_counter = self.irq_counter % 256 + (value % 128) as u16 * 256;
                self.irq_enabled = value >= 0x80;
                self.irq_pending = false;
            } else {
                self.irq_counter = self.irq_counter - self.irq_counter % 256 + value as u16;
            }
        }
    }

    #[verifier::allow_in_spec]
    pub fn ciram_index(&self, addr: u16) -> usize
        returns ((self.nt@[((addr / 0x400) % 4) as int] % 2) as int * 0x400 + addr % 0x400) as usize,
    {
        ((self.nt[((addr / 0x400) % 4) as usize] % 2) as usize) * 0x400 + (addr % 0x400) as usize
    }

    #[verifier::allow_in_spec]
    pub fn peek_nametable(&self, addr: u16, ciram: &[u8; 0x1000]) -> Option<u8>
        returns Some(ciram@[self.ciram_index(addr) as int]),
    {
        Some(ciram[self.ciram_index(addr)])
    }

    pub open spec fn claims_nametable_write(&self, addr: u16) -> bool {
        true
    }

    pub open spec fn nametable_wrote(&self, addr: u16, value: u8, before: Seq<u8>, after: Seq<u8>) -> bool {
        after == before.update(self.ciram_index(addr) as int, value)
    }

    pub fn nametable_write(&mut self, addr: u16, value: u8, ciram: &mut [u8; 0x1000]) -> (r: bool)
        ensures
            r == old(self).claims_nametable_write(addr),
            *final(self) == *old(self),
            old(self).nametable_wrote(addr, value, old(ciram)@, final(ciram)@),
    {
        let i = self.ciram_index(addr);
        ciram[i] = value;
        true
    }

    #[verifier::allow_in_spec]
    pub fn mirroring(&self) -> Mirroring
        returns Mirroring::FourScreen,
    {
        Mirroring::FourScreen
    }

    pub open spec fn after_cpu_clock(self) -> Self {
        let c = (self.irq_counter + 1) % 0x10000;
        if !self.irq_enabled { self }
        else if c > 0x7FFF { Mapper330 { irq_pending: true, irq_enabled: false, irq_counter: 0, ..self } }
        else { Mapper330 { irq_counter: c as u16, ..self } }
    }

    pub fn cpu_clock(&mut self)
        requires old(self).wf(),
        ensures *final(self) == old(self).after_cpu_clock(), final(self).wf(),
    {
        if !self.irq_enabled {
            return;
        }
        self.irq_counter = self.irq_counter.wrapping_add(1);
        if self.irq_counter > 0x7FFF {
            self.irq_pending = true;
            self.irq_enabled = false;
            self.irq_counter = 0;
        }
    }

    #[verifier::allow_in_spec]
    pub fn clocks_cpu(&self) -> bool
        returns true,
    {
        true
    }

    #[verifier::allow_in_spec]
    pub fn irq(&self) -> bool
        returns self.irq_pending,
    {
        self.irq_pending
    }

    pub open spec fn after_clear_irq(self) -> Self {
        Mapper330 { irq_pending: false, ..self }
    }

    pub fn clear_irq(&mut self)
        requires old(self).wf(),
        ensures *final(self) == old(self).after_clear_irq(), final(self).wf(),
    {
        self.irq_pending = false;
    }

    pub open spec fn was_reset(o: Self, n: Self, soft: bool) -> bool {
        n.prg_8k_total == o.prg_8k_total && n.chr_1k_total == o.chr_1k_total && n.cleared()
    }

    pub fn reset(&mut self, soft: bool)
        requires old(self).wf(),
        ensures Self::was_reset(*old(self), *final(self), soft), final(self).wf(),
    {
        self.prg = [0u8; 3];
        self.chr = [0u8, 1, 2, 3, 4, 5, 6, 7];
        self.nt = [0xFFu8; 4];
        self.irq_enabled = false;
        self.irq_counter = 0;
        self.irq_pending = false;
        assert(self.prg@ =~= seq![0u8, 0, 0]);
        assert(self.chr@ =~= seq![0u8, 1, 2, 3, 4, 5, 6, 7]);
        assert(self.nt@ =~= seq![0xFFu8, 0xFF, 0xFF, 0xFF]);
    }
}

} // verus!
