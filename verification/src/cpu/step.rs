//! Instruction execution of the 2A03 core on a flat 64 KiB memory bus
//! with OAM DMA.
//!
//! Every bus access is one CPU cycle: it opens an interrupt poll point,
//! counts the cycle, and at its end latches an NMI edge and samples the IRQ
//! line. Instruction timing therefore emerges from the accesses performed,
//! including the dummy reads and writes of the real chip (indexed page
//! crossing, read-modify-write write-back, stack and branch internal
//! cycles). `Machine` is the value the contracts speak of: the CPU and the
//! bus contents; `step_spec` and `execute_spec` are the instruction
//! semantics.

use vstd::prelude::*;

verus! {

use crate::cpu::{Cpu, InterruptKind, InterruptPoll, with_flag, with_zn, carry_in, adc_sum, adc_p, cpu_with, NMI_VECTOR, IRQ_VECTOR};
use crate::cpu::flags::{B, C, D, I, N, U, V, Z};
use crate::dma::{Dma, OamAction};

/// A flat 64 KiB memory with an NMI edge latch, an IRQ level line, the DMA
/// arbiter and the 256-byte sprite memory that OAM DMA fills. A write to
/// $4014 requests an OAM DMA from that page.
pub struct FlatBus {
    pub mem: Vec<u8>,
    /// An NMI edge not yet seen by the CPU.
    pub nmi: bool,
    /// The IRQ line level.
    pub irq: bool,
    pub dma: Dma,
    /// Sprite memory and its write pointer.
    pub oam: Vec<u8>,
    pub oam_addr: u8,
}

/// Between CPU accesses the arbiter holds nothing and runs nothing; at most
/// an OAM request waits for the next halt-able cycle (this bus has no
/// sample channel, so no DMC fetch is ever requested).
pub open spec fn dma_quiet(d: Dma) -> bool {
    d.wf() && !d.halted && !d.oam_active && !d.dmc_req && !d.dmc_active
}

impl FlatBus {
    pub open spec fn wf(&self) -> bool {
        &&& self.mem@.len() == 0x10000
        &&& self.oam@.len() == 256
        &&& dma_quiet(self.dma)
    }

    /// All-zero memory and sprite memory, both lines quiet, no DMA.
    pub fn new() -> (r: FlatBus)
        ensures
            r.wf(), r.mem@ == Seq::new(0x10000, |i: int| 0u8), !r.nmi, !r.irq,
            r.dma.idle(), r.oam@ == Seq::new(256, |i: int| 0u8), r.oam_addr == 0,
    {
        let mut mem: Vec<u8> = Vec::new();
        let mut i: usize = 0;
        while i < 0x10000
            invariant i <= 0x10000, mem@ == Seq::new(i as nat, |k: int| 0u8),
            decreases 0x10000 - i,
        {
            mem.push(0);
            i += 1;
        }
        let mut oam: Vec<u8> = Vec::new();
        let mut j: usize = 0;
        while j < 256
            invariant j <= 256, oam@ == Seq::new(j as nat, |k: int| 0u8),
            decreases 256 - j,
        {
            oam.push(0);
            j += 1;
        }
        FlatBus { mem, nmi: false, irq: false, dma: Dma::new(), oam, oam_addr: 0 }
    }

    pub fn read(&self, addr: u16) -> (r: u8)
        requires self.wf(),
        ensures r == self.mem@[addr as int],
    {
        self.mem[addr as usize]
    }

    /// Write memory directly (no register side effects).
    pub fn write(&mut self, addr: u16, value: u8)
        requires old(self).wf(),
        ensures
            final(self).wf(),
            final(self).mem@ == old(self).mem@.update(addr as int, value),
            final(self).nmi == old(self).nmi,
            final(self).irq == old(self).irq,
            final(self).dma == old(self).dma,
            final(self).oam@ == old(self).oam@ && final(self).oam_addr == old(self).oam_addr,
    {
        self.mem.set(addr as usize, value);
    }

    /// A CPU write: $4014 requests an OAM DMA from page `value`; any other
    /// address stores into memory.
    pub fn store(&mut self, addr: u16, value: u8)
        requires old(self).wf(),
        ensures
            final(self).wf(),
            addr == 0x4014 ==> final(self).dma == old(self).dma.oam_requested(value) && final(self).mem@ == old(self).mem@,
            addr != 0x4014 ==> final(self).dma == old(self).dma && final(self).mem@ == old(self).mem@.update(addr as int, value),
            final(self).nmi == old(self).nmi,
            final(self).irq == old(self).irq,
            final(self).oam@ == old(self).oam@ && final(self).oam_addr == old(self).oam_addr,
    {
        if addr == 0x4014 {
            self.dma.request_oam(value);
        } else {
            self.mem.set(addr as usize, value);
        }
    }
}

/// The CPU together with the bus contents and lines.
pub ghost struct Machine {
    pub cpu: Cpu,
    pub mem: Seq<u8>,
    pub nmi: bool,
    pub irq: bool,
    pub dma: Dma,
    pub oam: Seq<u8>,
    pub oam_addr: u8,
}

pub open spec fn machine(c: Cpu, b: FlatBus) -> Machine {
    Machine { cpu: c, mem: b.mem@, nmi: b.nmi, irq: b.irq, dma: b.dma, oam: b.oam@, oam_addr: b.oam_addr }
}

pub open spec fn inc8(v: u8) -> u8 {
    if v == 0xFF { 0 } else { (v + 1) as u8 }
}

pub open spec fn dec8(v: u8) -> u8 {
    if v == 0 { 0xFF } else { (v - 1) as u8 }
}

pub open spec fn inc16(v: u16) -> u16 {
    if v == 0xFFFF { 0 } else { (v + 1) as u16 }
}

pub open spec fn inc64(v: u64) -> u64 {
    if v == u64::MAX { 0 } else { (v + 1) as u64 }
}

/// Little-endian word of two bytes.
pub open spec fn word(lo: u8, hi: u8) -> u16 {
    (hi * 256 + lo) as u16
}

pub open spec fn at(m: Machine, addr: int) -> u8 {
    m.mem[addr]
}

pub open spec fn with_cpu(m: Machine, c: Cpu) -> Machine {
    Machine { cpu: c, ..m }
}

pub open spec fn with_pc(m: Machine, pc: u16) -> Machine {
    Machine { cpu: Cpu { pc, ..m.cpu }, ..m }
}

/// One CPU bus cycle: a poll point opens (the lines and I as they were),
/// the DMA cadence advances, the cycle is counted, and at its end an NMI
/// edge is latched and the IRQ level sampled.
pub open spec fn cycled(m: Machine) -> Machine {
    Machine {
        dma: m.dma.ticked(),
        cpu: Cpu {
            last_poll: InterruptPoll { nmi: m.cpu.nmi_pending, irq: m.cpu.irq_sample, i: m.cpu.p & I != 0 },
            cycles: inc64(m.cpu.cycles),
            nmi_pending: m.cpu.nmi_pending || m.nmi,
            irq_sample: m.irq,
            ..m.cpu
        },
        nmi: false,
        ..m
    }
}

/// What a CPU write of `v` to `addr` does to the bus.
pub open spec fn stored(m: Machine, addr: u16, v: u8) -> Machine {
    if addr == 0x4014 { Machine { dma: m.dma.oam_requested(v), ..m } } else { Machine { mem: m.mem.update(addr as int, v), ..m } }
}

/// A write cycle (writes are never held by DMA).
pub open spec fn written(m: Machine, addr: u16, v: u8) -> Machine {
    stored(cycled(m), addr, v)
}

/// One cycle stolen by DMA while the CPU is held: the cadence advances, the
/// cycle is counted, the arbiter acts (an OAM get reads memory into the
/// latch, a put writes the latch to sprite memory), and the lines are
/// sampled; no poll point opens.
pub open spec fn stolen(m: Machine) -> Machine {
    let (d, act) = m.dma.ticked().clocked(0, false, false);
    let m1 = match act.oam {
        OamAction::Get(a) => Machine { dma: d.with_oam_byte(m.mem[a as int]), ..m },
        OamAction::Put(b) => Machine { dma: d, oam: m.oam.update(m.oam_addr as int, b), oam_addr: inc8(m.oam_addr), ..m },
        OamAction::Idle => Machine { dma: d, ..m },
    };
    Machine {
        cpu: Cpu { cycles: inc64(m.cpu.cycles), nmi_pending: m.cpu.nmi_pending || m.nmi, irq_sample: m.irq, ..m.cpu },
        nmi: false,
        ..m1
    }
}

pub open spec fn stolen_n(m: Machine, n: nat) -> Machine
    decreases n,
{
    if n == 0 { m } else { stolen_n(stolen(m), (n - 1) as nat) }
}

/// Cycles a waiting OAM request steals: the halt, 256 get/put pairs, and an
/// alignment cycle when the halt falls on a get cycle.
pub open spec fn stall_len(d: Dma) -> nat {
    if !d.oam_req { 0 } else if d.get_cycle { 514 } else { 513 }
}

/// The DMA a halt-able cycle waits for first.
pub open spec fn pumped(m: Machine) -> Machine {
    if !m.dma.oam_req { m } else { stolen_n(m, stall_len(m.dma)) }
}

/// A read or internal cycle: waiting DMA runs first, then the CPU's cycle.
pub open spec fn rcycle(m: Machine) -> Machine {
    cycled(pumped(m))
}

/// Read the byte at PC and advance PC.
pub open spec fn fetched(m: Machine) -> (Machine, u8) {
    let m1 = rcycle(m);
    (with_pc(m1, inc16(m1.cpu.pc)), at(m, m.cpu.pc as int))
}

pub open spec fn fetched16(m: Machine) -> (Machine, u16) {
    let (m1, lo) = fetched(m);
    let (m2, hi) = fetched(m1);
    (m2, word(lo, hi))
}

pub open spec fn pushed(m: Machine, v: u8) -> Machine {
    let m1 = written(m, (0x100 + m.cpu.sp) as u16, v);
    with_cpu(m1, Cpu { sp: dec8(m1.cpu.sp), ..m1.cpu })
}

pub open spec fn pulled(m: Machine) -> (Machine, u8) {
    let sp = inc8(m.cpu.sp);
    let m1 = with_cpu(m, Cpu { sp, ..m.cpu });
    (rcycle(m1), at(m1, 0x100 + sp))
}

pub open spec fn pushed16(m: Machine, v: u16) -> Machine {
    pushed(pushed(m, (v / 256) as u8), (v % 256) as u8)
}

pub open spec fn pulled16(m: Machine) -> (Machine, u16) {
    let (m1, lo) = pulled(m);
    let (m2, hi) = pulled(m1);
    (m2, word(lo, hi))
}

/// Operand addressing of a memory instruction.
#[derive(Debug, Clone, Copy, PartialEq, Eq, Structural)]
pub enum Addr {
    Zp,
    Zpx,
    Zpy,
    Abs,
    /// Absolute,X; `true`: the dummy read happens only on a page crossing.
    Abx(bool),
    Aby(bool),
    Izx,
    Izy(bool),
}

/// `base + index`, with a dummy read at the un-carried address: always, or
/// only when the page is crossed if `only_on_cross` is set.
pub open spec fn indexed(m: Machine, base: u16, index: u8, only_on_cross: bool) -> (Machine, u16) {
    let addr = ((base + index) % 0x10000) as u16;
    if !only_on_cross || base / 256 != addr / 256 { (rcycle(m), addr) } else { (m, addr) }
}

/// The effective address, with all the bus cycles the mode performs.
pub open spec fn addressed(m: Machine, mode: Addr) -> (Machine, u16) {
    match mode {
        Addr::Zp => { let (m1, b) = fetched(m); (m1, b as u16) },
        Addr::Zpx => { let (m1, b) = fetched(m); let m2 = rcycle(m1); (m2, ((b + m2.cpu.x) % 256) as u16) },
        Addr::Zpy => { let (m1, b) = fetched(m); let m2 = rcycle(m1); (m2, ((b + m2.cpu.y) % 256) as u16) },
        Addr::Abs => fetched16(m),
        Addr::Abx(p) => { let (m1, base) = fetched16(m); indexed(m1, base, m1.cpu.x, p) },
        Addr::Aby(p) => { let (m1, base) = fetched16(m); indexed(m1, base, m1.cpu.y, p) },
        Addr::Izx => {
            let (m1, t) = fetched(m);
            let m2 = rcycle(m1);
            let ptr = ((t + m2.cpu.x) % 256) as u8;
            let lo = at(m2, ptr as int);
            let m3 = rcycle(m2);
            let hi = at(m3, inc8(ptr) as int);
            (rcycle(m3), word(lo, hi))
        },
        Addr::Izy(p) => {
            let (m1, t) = fetched(m);
            let lo = at(m1, t as int);
            let m2 = rcycle(m1);
            let hi = at(m2, inc8(t) as int);
            let m3 = rcycle(m2);
            indexed(m3, word(lo, hi), m3.cpu.y, p)
        },
    }
}

impl Cpu {
    fn tick(&mut self, bus: &mut FlatBus)
        requires old(bus).wf(),
        ensures final(bus).wf(), machine(*final(self), *final(bus)) == cycled(machine(*old(self), *old(bus))),
    {
        self.begin_cycle();
        bus.dma.tick();
        self.cycles = if self.cycles == u64::MAX { 0 } else { self.cycles + 1 };
        let nmi = bus.nmi;
        bus.nmi = false;
        let irq = bus.irq;
        self.end_cycle(nmi, irq);
    }

    /// One cycle stolen by DMA.
    fn steal(&mut self, bus: &mut FlatBus)
        requires old(bus).mem@.len() == 0x10000, old(bus).oam@.len() == 256, old(bus).dma.wf(),
        ensures
            final(bus).mem@.len() == 0x10000, final(bus).oam@.len() == 256, final(bus).dma.wf(),
            machine(*final(self), *final(bus)) == stolen(machine(*old(self), *old(bus))),
            final(self).nmi_count == old(self).nmi_count,
    {
        bus.dma.tick();
        self.cycles = if self.cycles == u64::MAX { 0 } else { self.cycles + 1 };
        let c = bus.dma.clock(0, false, false);
        match c.oam {
            OamAction::Get(a) => {
                let b = bus.mem[a as usize];
                bus.dma.oam_fetched(b);
            },
            OamAction::Put(b) => {
                let i = bus.oam_addr;
                bus.oam.set(i as usize, b);
                bus.oam_addr = if i == 0xFF { 0 } else { i + 1 };
            },
            OamAction::Idle => {},
        }
        let nmi = bus.nmi;
        bus.nmi = false;
        let irq = bus.irq;
        self.end_cycle(nmi, irq);
    }

    /// Let a waiting DMA run: the CPU is held until the arbiter lets go.
    fn pump(&mut self, bus: &mut FlatBus)
        requires old(bus).wf(),
        ensures
            final(bus).wf(), !final(bus).dma.oam_req,
            machine(*final(self), *final(bus)) == pumped(machine(*old(self), *old(bus))),
            final(self).nmi_count == old(self).nmi_count,
    {
        let ghost m0 = machine(*self, *bus);
        let ghost n = stall_len(bus.dma);
        proof { lemma_stall_ends(m0); }
        let ghost mut k: nat = 0;
        while bus.dma.halt_pending()
            invariant
                k <= n, n == stall_len(m0.dma), m0.mem.len() == 0x10000, m0.oam.len() == 256, dma_quiet(m0.dma),
                machine(*self, *bus) == stolen_n(m0, k),
                bus.mem@.len() == 0x10000, bus.oam@.len() == 256, bus.dma.wf(),
                self.nmi_count == m0.cpu.nmi_count,
                forall|j: nat| j < n ==> #[trigger] stolen_n(m0, j).dma.halt_pending(),
                !stolen_n(m0, n).dma.halt_pending() && !stolen_n(m0, n).dma.halted,
            decreases n - k,
        {
            self.steal(bus);
            proof {
                lemma_stolen_n_snoc(m0, k);
                k = k + 1;
            }
        }
        proof {
            if k < n {
                assert(stolen_n(m0, k).dma.halt_pending());
            }
            lemma_stolen_n_control(m0, n);
        }
    }

    /// A halt-able internal cycle.
    fn io(&mut self, bus: &mut FlatBus)
        requires old(bus).wf(),
        ensures
            final(bus).wf(), machine(*final(self), *final(bus)) == rcycle(machine(*old(self), *old(bus))),
            final(self).nmi_count == old(self).nmi_count,
    {
        self.pump(bus);
        self.tick(bus);
    }

    fn rd(&mut self, bus: &mut FlatBus, addr: u16) -> (r: u8)
        requires old(bus).wf(),
        ensures
            final(bus).wf(),
            machine(*final(self), *final(bus)) == rcycle(machine(*old(self), *old(bus))),
            r == old(bus).mem@[addr as int],
            final(self).nmi_count == old(self).nmi_count,
    {
        self.pump(bus);
        proof { lemma_stall_keeps_memory(machine(*old(self), *old(bus))); }
        let v = bus.read(addr);
        self.tick(bus);
        v
    }

    fn wr(&mut self, bus: &mut FlatBus, addr: u16, v: u8)
        requires old(bus).wf(),
        ensures final(bus).wf(), machine(*final(self), *final(bus)) == written(machine(*old(self), *old(bus)), addr, v),
    {
        self.tick(bus);
        bus.store(addr, v);
    }

    fn fetch(&mut self, bus: &mut FlatBus) -> (r: u8)
        requires old(bus).wf(),
        ensures
            final(bus).wf(),
            machine(*final(self), *final(bus)) == fetched(machine(*old(self), *old(bus))).0,
            r == fetched(machine(*old(self), *old(bus))).1,
            final(self).nmi_count == old(self).nmi_count,
    {
        let v = self.rd(bus, self.pc);
        self.pc = if self.pc == 0xFFFF { 0 } else { self.pc + 1 };
        v
    }

    fn fetch16(&mut self, bus: &mut FlatBus) -> (r: u16)
        requires old(bus).wf(),
        ensures
            final(bus).wf(),
            machine(*final(self), *final(bus)) == fetched16(machine(*old(self), *old(bus))).0,
            r == fetched16(machine(*old(self), *old(bus))).1,
    {
        let lo = self.fetch(bus);
        let hi = self.fetch(bus);
        hi as u16 * 256 + lo as u16
    }

    fn push(&mut self, bus: &mut FlatBus, v: u8)
        requires old(bus).wf(),
        ensures final(bus).wf(), machine(*final(self), *final(bus)) == pushed(machine(*old(self), *old(bus)), v),
    {
        self.wr(bus, 0x100 + self.sp as u16, v);
        self.sp = if self.sp == 0 { 0xFF } else { self.sp - 1 };
    }

    fn pull(&mut self, bus: &mut FlatBus) -> (r: u8)
        requires old(bus).wf(),
        ensures
            final(bus).wf(),
            machine(*final(self), *final(bus)) == pulled(machine(*old(self), *old(bus))).0,
            r == pulled(machine(*old(self), *old(bus))).1,
    {
        self.sp = if self.sp == 0xFF { 0 } else { self.sp + 1 };
        self.rd(bus, 0x100 + self.sp as u16)
    }

    fn push16(&mut self, bus: &mut FlatBus, v: u16)
        requires old(bus).wf(),
        ensures final(bus).wf(), machine(*final(self), *final(bus)) == pushed16(machine(*old(self), *old(bus)), v),
    {
        self.push(bus, (v / 256) as u8);
        self.push(bus, (v % 256) as u8);
    }

    fn pull16(&mut self, bus: &mut FlatBus) -> (r: u16)
        requires old(bus).wf(),
        ensures
            final(bus).wf(),
            machine(*final(self), *final(bus)) == pulled16(machine(*old(self), *old(bus))).0,
            r == pulled16(machine(*old(self), *old(bus))).1,
    {
        let lo = self.pull(bus);
        let hi = self.pull(bus);
        hi as u16 * 256 + lo as u16
    }

    fn index(&mut self, bus: &mut FlatBus, base: u16, index: u8, only_on_cross: bool) -> (r: u16)
        requires old(bus).wf(),
        ensures
            final(bus).wf(),
            machine(*final(self), *final(bus)) == indexed(machine(*old(self), *old(bus)), base, index, only_on_cross).0,
            r == indexed(machine(*old(self), *old(bus)), base, index, only_on_cross).1,
    {
        let addr = ((base as u32 + index as u32) % 0x10000) as u16;
        if !only_on_cross || base / 256 != addr / 256 {
            let wrong = (base / 256) * 256 + addr % 256;
            let _ = self.rd(bus, wrong);
        }
        addr
    }

    /// Resolve an operand address, performing the mode's bus cycles.
    #[verifier::spinoff_prover]
    #[verifier::rlimit(40)]
    pub fn operand_addr(&mut self, bus: &mut FlatBus, mode: Addr) -> (r: u16)
        requires old(bus).wf(),
        ensures
            final(bus).wf(),
            machine(*final(self), *final(bus)) == addressed(machine(*old(self), *old(bus)), mode).0,
            r == addressed(machine(*old(self), *old(bus)), mode).1,
    {
        match mode {
            Addr::Zp => self.fetch(bus) as u16,
            Addr::Zpx => {
                let b = self.fetch(bus);
                let _ = self.rd(bus, b as u16);
                ((b as u16 + self.x as u16) % 256) as u16
            },
            Addr::Zpy => {
                let b = self.fetch(bus);
                let _ = self.rd(bus, b as u16);
                ((b as u16 + self.y as u16) % 256) as u16
            },
            Addr::Abs => self.fetch16(bus),
            Addr::Abx(p) => {
                let base = self.fetch16(bus);
                let x = self.x;
                self.index(bus, base, x, p)
            },
            Addr::Aby(p) => {
                let base = self.fetch16(bus);
                let y = self.y;
                self.index(bus, base, y, p)
            },
            Addr::Izx => {
                let t = self.fetch(bus);
                let _ = self.rd(bus, t as u16);
                let ptr = ((t as u16 + self.x as u16) % 256) as u8;
                let lo = self.rd(bus, ptr as u16);
                let hi = self.rd(bus, if ptr == 0xFF { 0 } else { ptr as u16 + 1 });
                hi as u16 * 256 + lo as u16
            },
            Addr::Izy(p) => {
                let t = self.fetch(bus);
                let lo = self.rd(bus, t as u16);
                let hi = self.rd(bus, if t == 0xFF { 0 } else { t as u16 + 1 });
                let base = hi as u16 * 256 + lo as u16;
                let y = self.y;
                self.index(bus, base, y, p)
            },
        }
    }
}

/// The read-class operations applied to a fetched operand.
#[derive(Debug, Clone, Copy, PartialEq, Eq, Structural)]
pub enum Alu {
    Lda,
    Ldx,
    Ldy,
    And,
    Ora,
    Eor,
    Adc,
    Sbc,
    Cmp,
    Cpx,
    Cpy,
    Bit,
    /// LAX: load A and X.
    Lax,
    /// LAS: A, X and SP all become M & SP.
    Las,
    /// Read and discard.
    Nop,
}

/// Shifts, rotates, increments and their unofficial combinations.
#[derive(Debug, Clone, Copy, PartialEq, Eq, Structural)]
pub enum Rmw {
    Asl,
    Lsr,
    Rol,
    Ror,
    Inc,
    Dec,
    /// ASL then ORA.
    Slo,
    /// ROL then AND.
    Rla,
    /// LSR then EOR.
    Sre,
    /// ROR then ADC.
    Rra,
    /// DEC then CMP.
    Dcp,
    /// INC then SBC.
    Isb,
}

/// The register a store writes.
#[derive(Debug, Clone, Copy, PartialEq, Eq, Structural)]
pub enum Src {
    A,
    X,
    Y,
    /// A & X (SAX).
    Ax,
}

/// Unofficial stores that AND the value with the target's high byte + 1.
#[derive(Debug, Clone, Copy, PartialEq, Eq, Structural)]
pub enum Hi {
    /// A & X.
    Sha,
    /// SP := A & X, then SP.
    Tas,
    Shy,
    Shx,
}

/// Single-byte register and flag instructions.
#[derive(Debug, Clone, Copy, PartialEq, Eq, Structural)]
pub enum Imp {
    Tax,
    Tay,
    Txa,
    Tya,
    Tsx,
    Txs,
    Inx,
    Dex,
    Iny,
    Dey,
    Clc,
    Sec,
    Cli,
    Sei,
    Clv,
    Cld,
    Sed,
    Nop,
}

/// Unofficial immediate-operand operations.
#[derive(Debug, Clone, Copy, PartialEq, Eq, Structural)]
pub enum ImmOp {
    Anc,
    Alr,
    Arr,
    Xaa,
    Lxa,
    Axs,
}

/// What an opcode does.
#[derive(Debug, Clone, Copy, PartialEq, Eq, Structural)]
pub enum Instr {
    Imm(Alu),
    Read(Addr, Alu),
    Store(Addr, Src),
    Unstable(Addr, Hi),
    Modify(Addr, Rmw),
    /// Accumulator shift or rotate.
    Acc(Rmw),
    Implied(Imp),
    Pha,
    Php,
    Pla,
    Plp,
    ImmU(ImmOp),
    JmpAbs,
    JmpInd,
    Jsr,
    Rts,
    Rti,
    Brk,
    /// Branch when `(P & flag != 0) == set`.
    Branch(u8, bool),
}

pub open spec fn adc_s(c: Cpu, v: u8) -> Cpu {
    cpu_with(c, (adc_sum(c.a, v, c.p) % 256) as u8, adc_p(c.a, v, c.p))
}

pub open spec fn compared_s(c: Cpu, reg: u8, v: u8) -> Cpu {
    Cpu { p: with_zn(with_flag(c.p, C, reg >= v), ((reg - v) % 256) as u8), ..c }
}

pub open spec fn alu_s(c: Cpu, op: Alu, v: u8) -> Cpu {
    match op {
        Alu::Lda => Cpu { a: v, p: with_zn(c.p, v), ..c },
        Alu::Ldx => Cpu { x: v, p: with_zn(c.p, v), ..c },
        Alu::Ldy => Cpu { y: v, p: with_zn(c.p, v), ..c },
        Alu::And => cpu_with(c, c.a & v, with_zn(c.p, c.a & v)),
        Alu::Ora => cpu_with(c, c.a | v, with_zn(c.p, c.a | v)),
        Alu::Eor => cpu_with(c, c.a ^ v, with_zn(c.p, c.a ^ v)),
        Alu::Adc => adc_s(c, v),
        Alu::Sbc => adc_s(c, v ^ 0xFF),
        Alu::Cmp => compared_s(c, c.a, v),
        Alu::Cpx => compared_s(c, c.x, v),
        Alu::Cpy => compared_s(c, c.y, v),
        Alu::Bit => Cpu { p: with_flag(with_flag(with_flag(c.p, Z, c.a & v == 0), N, v & 0x80 != 0), V, v & 0x40 != 0), ..c },
        Alu::Lax => Cpu { a: v, x: v, p: with_zn(c.p, v), ..c },
        Alu::Las => Cpu { a: v & c.sp, x: v & c.sp, sp: v & c.sp, p: with_zn(c.p, v & c.sp), ..c },
        Alu::Nop => c,
    }
}

/// Result and CPU after a shift/rotate/inc/dec (plus the unofficial
/// follow-up operation) of `v`.
pub open spec fn rmw_s(c: Cpu, f: Rmw, v: u8) -> (Cpu, u8) {
    match f {
        Rmw::Asl => { let r = ((v * 2) % 256) as u8; (Cpu { p: with_zn(with_flag(c.p, C, v & 0x80 != 0), r), ..c }, r) },
        Rmw::Lsr => { let r = v / 2; (Cpu { p: with_zn(with_flag(c.p, C, v & 0x01 != 0), r), ..c }, r) },
        Rmw::Rol => { let r = ((v * 2 + carry_in(c.p)) % 256) as u8; (Cpu { p: with_zn(with_flag(c.p, C, v & 0x80 != 0), r), ..c }, r) },
        Rmw::Ror => { let r = (v / 2 + 128 * carry_in(c.p)) as u8; (Cpu { p: with_zn(with_flag(c.p, C, v & 0x01 != 0), r), ..c }, r) },
        Rmw::Inc => (Cpu { p: with_zn(c.p, inc8(v)), ..c }, inc8(v)),
        Rmw::Dec => (Cpu { p: with_zn(c.p, dec8(v)), ..c }, dec8(v)),
        Rmw::Slo => { let (c1, r) = rmw_s_shift(c, Rmw::Asl, v); (alu_s(c1, Alu::Ora, r), r) },
        Rmw::Rla => { let (c1, r) = rmw_s_shift(c, Rmw::Rol, v); (alu_s(c1, Alu::And, r), r) },
        Rmw::Sre => { let (c1, r) = rmw_s_shift(c, Rmw::Lsr, v); (alu_s(c1, Alu::Eor, r), r) },
        Rmw::Rra => { let (c1, r) = rmw_s_shift(c, Rmw::Ror, v); (alu_s(c1, Alu::Adc, r), r) },
        Rmw::Dcp => (compared_s(c, c.a, dec8(v)), dec8(v)),
        Rmw::Isb => (alu_s(c, Alu::Sbc, inc8(v)), inc8(v)),
    }
}

/// The four plain shifts and rotates.
pub open spec fn rmw_s_shift(c: Cpu, f: Rmw, v: u8) -> (Cpu, u8) {
    match f {
        Rmw::Asl => { let r = ((v * 2) % 256) as u8; (Cpu { p: with_zn(with_flag(c.p, C, v & 0x80 != 0), r), ..c }, r) },
        Rmw::Lsr => { let r = v / 2; (Cpu { p: with_zn(with_flag(c.p, C, v & 0x01 != 0), r), ..c }, r) },
        Rmw::Rol => { let r = ((v * 2 + carry_in(c.p)) % 256) as u8; (Cpu { p: with_zn(with_flag(c.p, C, v & 0x80 != 0), r), ..c }, r) },
        _ => { let r = (v / 2 + 128 * carry_in(c.p)) as u8; (Cpu { p: with_zn(with_flag(c.p, C, v & 0x01 != 0), r), ..c }, r) },
    }
}

pub open spec fn src_s(c: Cpu, s: Src) -> u8 {
    match s {
        Src::A => c.a,
        Src::X => c.x,
        Src::Y => c.y,
        Src::Ax => c.a & c.x,
    }
}

pub open spec fn imp_s(c: Cpu, i: Imp) -> Cpu {
    match i {
        Imp::Tax => Cpu { x: c.a, p: with_zn(c.p, c.a), ..c },
        Imp::Tay => Cpu { y: c.a, p: with_zn(c.p, c.a), ..c },
        Imp::Txa => Cpu { a: c.x, p: with_zn(c.p, c.x), ..c },
        Imp::Tya => Cpu { a: c.y, p: with_zn(c.p, c.y), ..c },
        Imp::Tsx => Cpu { x: c.sp, p: with_zn(c.p, c.sp), ..c },
        Imp::Txs => Cpu { sp: c.x, ..c },
        Imp::Inx => Cpu { x: inc8(c.x), p: with_zn(c.p, inc8(c.x)), ..c },
        Imp::Dex => Cpu { x: dec8(c.x), p: with_zn(c.p, dec8(c.x)), ..c },
        Imp::Iny => Cpu { y: inc8(c.y), p: with_zn(c.p, inc8(c.y)), ..c },
        Imp::Dey => Cpu { y: dec8(c.y), p: with_zn(c.p, dec8(c.y)), ..c },
        Imp::Clc => Cpu { p: with_flag(c.p, C, false), ..c },
        Imp::Sec => Cpu { p: with_flag(c.p, C, true), ..c },
        Imp::Cli => Cpu { p: with_flag(c.p, I, false), ..c },
        Imp::Sei => Cpu { p: with_flag(c.p, I, true), ..c },
        Imp::Clv => Cpu { p: with_flag(c.p, V, false), ..c },
        Imp::Cld => Cpu { p: with_flag(c.p, D, false), ..c },
        Imp::Sed => Cpu { p: with_flag(c.p, D, true), ..c },
        Imp::Nop => c,
    }
}

pub open spec fn immu_s(c: Cpu, op: ImmOp, v: u8) -> Cpu {
    match op {
        ImmOp::Anc => { let c1 = alu_s(c, Alu::And, v); Cpu { p: with_flag(c1.p, C, c1.a & 0x80 != 0), ..c1 } },
        ImmOp::Alr => { let c1 = alu_s(c, Alu::And, v); let (c2, r) = rmw_s_shift(c1, Rmw::Lsr, c1.a); Cpu { a: r, ..c2 } },
        ImmOp::Arr => {
            let c1 = alu_s(c, Alu::And, v);
            let r = (c1.a / 2 + 128 * carry_in(c1.p)) as u8;
            Cpu { a: r, p: with_flag(with_flag(with_zn(c1.p, r), C, r & 0x40 != 0), V, ((r >> 5u8) ^ (r >> 6u8)) & 1 != 0), ..c1 }
        },
        ImmOp::Xaa => Cpu { a: c.x & v, p: with_zn(c.p, c.x & v), ..c },
        ImmOp::Lxa => Cpu { a: c.x & v, x: c.x & v, p: with_zn(c.p, c.x & v), ..c },
        ImmOp::Axs => { let c1 = compared_s(c, c.a & c.x, v); Cpu { x: (((c.a & c.x) - v) % 256) as u8, ..c1 } },
    }
}

/// The store of an unofficial high-byte-ANDed instruction at `a`.
pub open spec fn unstable_s(m: Machine, a: u16, h: Hi) -> Machine {
    let k = inc8((a / 256) as u8);
    match h {
        Hi::Sha => written(m, a, m.cpu.a & m.cpu.x & k),
        Hi::Tas => written(with_cpu(m, Cpu { sp: m.cpu.a & m.cpu.x, ..m.cpu }), a, m.cpu.a & m.cpu.x & k),
        Hi::Shy => written(m, a, m.cpu.y & k),
        Hi::Shx => written(m, a, m.cpu.x & k),
    }
}

/// The NMI hijack of a BRK/IRQ vector fetch.
pub open spec fn selected(c: Cpu, vector: u16) -> (Cpu, u16) {
    if vector != NMI_VECTOR && c.nmi_pending {
        (Cpu { nmi_pending: false, nmi_count: (c.nmi_count + 1) as u64, ..c }, NMI_VECTOR)
    } else {
        (c, vector)
    }
}

/// Load PC from the vector at `vec`; the next end-of-instruction poll is skipped.
pub open spec fn vector_loaded(m: Machine, vec: u16) -> Machine {
    let lo = at(m, vec as int);
    let m1 = rcycle(m);
    let hi = at(m1, vec + 1);
    let m2 = rcycle(m1);
    with_cpu(m2, Cpu { pc: word(lo, hi), suppress_instruction_poll: true, ..m2.cpu })
}

pub open spec fn with_i(m: Machine) -> Machine {
    with_cpu(m, Cpu { p: with_flag(m.cpu.p, I, true), ..m.cpu })
}

/// The hardware interrupt sequence (two internal cycles, PC and status
/// pushed, I set, vector fetched); the vector is chosen before or after
/// the status push.
pub open spec fn interrupted(m: Machine, vector: u16, after_status: bool) -> Machine {
    let m2 = rcycle(rcycle(m));
    let m3 = pushed16(m2, m2.cpu.pc);
    if !after_status {
        let (c, sel) = selected(m3.cpu, vector);
        let m4 = with_cpu(m3, c);
        vector_loaded(with_i(pushed(m4, (m4.cpu.p | U) & !B)), sel)
    } else {
        let m5 = with_i(pushed(m3, (m3.cpu.p | U) & !B));
        let (c, sel) = selected(m5.cpu, vector);
        vector_loaded(with_cpu(m5, c), sel)
    }
}

pub open spec fn brk_s(m: Machine) -> Machine {
    let (m1, pad) = fetched(m);
    let m2 = pushed16(m1, m1.cpu.pc);
    let m3 = with_i(pushed(m2, m2.cpu.p | U | B));
    let (c, sel) = selected(m3.cpu, IRQ_VECTOR);
    vector_loaded(with_cpu(m3, c), sel)
}

/// PC plus a signed 8-bit offset, modulo 64 KiB.
pub open spec fn rel_target(pc: u16, off: u8) -> u16 {
    ((pc + 0x10000 + off - (if off >= 0x80 { 256int } else { 0int })) % 0x10000) as u16
}

pub open spec fn exact_polled(c: Cpu, poll: InterruptPoll) -> Cpu {
    if poll.nmi {
        Cpu { nmi_pending: false, pending_interrupt: Cpu::after_queue(c, InterruptKind::Nmi), ..c }
    } else if poll.irq && !poll.i {
        Cpu { pending_interrupt: Cpu::after_queue(c, InterruptKind::Irq), ..c }
    } else {
        c
    }
}

/// A relative branch: one extra cycle when taken, two when the target is
/// on another page; a taken branch without a page crossing polls
/// interrupts at its operand fetch and skips the end-of-instruction poll.
pub open spec fn branched(m: Machine, cond: bool) -> Machine {
    let (m1, off) = fetched(m);
    if !cond {
        m1
    } else {
        let poll = m1.cpu.last_poll;
        let m2 = rcycle(m1);
        let target = rel_target(m2.cpu.pc, off);
        let m3 = with_pc(m2, target);
        if m2.cpu.pc / 256 != target / 256 {
            rcycle(m3)
        } else {
            with_cpu(m3, Cpu { suppress_instruction_poll: true, ..exact_polled(m3.cpu, poll) })
        }
    }
}

/// Instruction semantics after the opcode fetch.
pub open spec fn run_spec(m: Machine, ins: Instr) -> Machine {
    match ins {
        Instr::Imm(op) => { let (m1, v) = fetched(m); with_cpu(m1, alu_s(m1.cpu, op, v)) },
        Instr::Read(mode, op) => {
            let (m1, a) = addressed(m, mode);
            let m2 = rcycle(m1);
            with_cpu(m2, alu_s(m2.cpu, op, at(m1, a as int)))
        },
        Instr::Store(mode, s) => { let (m1, a) = addressed(m, mode); written(m1, a, src_s(m1.cpu, s)) },
        Instr::Unstable(mode, h) => { let (m1, a) = addressed(m, mode); unstable_s(m1, a, h) },
        Instr::Modify(mode, f) => {
            let (m1, a) = addressed(m, mode);
            let v = at(m1, a as int);
            let m2 = written(rcycle(m1), a, v);
            let (c, r) = rmw_s(m2.cpu, f, v);
            written(with_cpu(m2, c), a, r)
        },
        Instr::Acc(f) => { let m1 = rcycle(m); let (c, r) = rmw_s(m1.cpu, f, m1.cpu.a); with_cpu(m1, Cpu { a: r, ..c }) },
        Instr::Implied(i) => { let m1 = rcycle(m); with_cpu(m1, imp_s(m1.cpu, i)) },
        Instr::Pha => { let m1 = rcycle(m); pushed(m1, m1.cpu.a) },
        Instr::Php => { let m1 = rcycle(m); pushed(m1, m1.cpu.p | U | B) },
        Instr::Pla => { let (m1, v) = pulled(rcycle(rcycle(m))); with_cpu(m1, alu_s(m1.cpu, Alu::Lda, v)) },
        Instr::Plp => { let (m1, v) = pulled(rcycle(rcycle(m))); with_cpu(m1, Cpu { p: (v & !B) | U, ..m1.cpu }) },
        Instr::ImmU(op) => { let (m1, v) = fetched(m); with_cpu(m1, immu_s(m1.cpu, op, v)) },
        Instr::JmpAbs => { let (m1, t) = fetched16(m); with_pc(m1, t) },
        Instr::JmpInd => {
            let (m1, ptr) = fetched16(m);
            let lo = at(m1, ptr as int);
            let m2 = rcycle(m1);
            let hi = at(m2, (ptr / 256) * 256 + inc8((ptr % 256) as u8));
            with_pc(rcycle(m2), word(lo, hi))
        },
        Instr::Jsr => {
            let (m1, lo) = fetched(m);
            let m2 = rcycle(m1);
            let m3 = pushed16(m2, m2.cpu.pc);
            let hi = at(m3, m3.cpu.pc as int);
            with_pc(rcycle(m3), word(lo, hi))
        },
        Instr::Rts => { let (m2, a) = pulled16(rcycle(m)); rcycle(with_pc(rcycle(m2), inc16(a))) },
        Instr::Rti => {
            let (m2, s) = pulled(rcycle(m));
            let (m4, pc) = pulled16(with_cpu(m2, Cpu { p: (s & !B) | U, ..m2.cpu }));
            rcycle(with_pc(m4, pc))
        },
        Instr::Brk => brk_s(m),
        Instr::Branch(flag, set) => branched(m, (m.cpu.p & flag != 0) == set),
    }
}

/// What each opcode does (unassigned opcodes idle for one cycle).
#[verifier::opaque]
pub open spec fn decode_spec(op: u8) -> Instr {
    match op {
        0x00 => Instr::Brk,
        0x01 => Instr::Read(Addr::Izx, Alu::Ora),
        0x03 => Instr::Modify(Addr::Izx, Rmw::Slo),
        0x04 => Instr::Read(Addr::Zp, Alu::Nop),
        0x05 => Instr::Read(Addr::Zp, Alu::Ora),
        0x06 => Instr::Modify(Addr::Zp, Rmw::Asl),
        0x07 => Instr::Modify(Addr::Zp, Rmw::Slo),
        0x08 => Instr::Php,
        0x09 => Instr::Imm(Alu::Ora),
        0x0A => Instr::Acc(Rmw::Asl),
        0x0B => Instr::ImmU(ImmOp::Anc),
        0x0C => Instr::Read(Addr::Abs, Alu::Nop),
        0x0D => Instr::Read(Addr::Abs, Alu::Ora),
        0x0E => Instr::Modify(Addr::Abs, Rmw::Asl),
        0x0F => Instr::Modify(Addr::Abs, Rmw::Slo),
        0x10 => Instr::Branch(N, false),
        0x11 => Instr::Read(Addr::Izy(true), Alu::Ora),
        0x13 => Instr::Modify(Addr::Izy(false), Rmw::Slo),
        0x14 => Instr::Read(Addr::Zpx, Alu::Nop),
        0x15 => Instr::Read(Addr::Zpx, Alu::Ora),
        0x16 => Instr::Modify(Addr::Zpx, Rmw::Asl),
        0x17 => Instr::Modify(Addr::Zpx, Rmw::Slo),
        0x18 => Instr::Implied(Imp::Clc),
        0x19 => Instr::Read(Addr::Aby(true), Alu::Ora),
        0x1A => Instr::Implied(Imp::Nop),
        0x1B => Instr::Modify(Addr::Aby(false), Rmw::Slo),
        0x1C => Instr::Read(Addr::Abx(true), Alu::Nop),
        0x1D => Instr::Read(Addr::Abx(true), Alu::Ora),
        0x1E => Instr::Modify(Addr::Abx(false), Rmw::Asl),
        0x1F => Instr::Modify(Addr::Abx(false), Rmw::Slo),
        0x20 => Instr::Jsr,
        0x21 => Instr::Read(Addr::Izx, Alu::And),
        0x23 => Instr::Modify(Addr::Izx, Rmw::Rla),
        0x24 => Instr::Read(Addr::Zp, Alu::Bit),
        0x25 => Instr::Read(Addr::Zp, Alu::And),
        0x26 => Instr::Modify(Addr::Zp, Rmw::Rol),
        0x27 => Instr::Modify(Addr::Zp, Rmw::Rla),
        0x28 => Instr::Plp,
        0x29 => Instr::Imm(Alu::And),
        0x2A => Instr::Acc(Rmw::Rol),
        0x2B => Instr::ImmU(ImmOp::Anc),
        0x2C => Instr::Read(Addr::Abs, Alu::Bit),
        0x2D => Instr::Read(Addr::Abs, Alu::And),
        0x2E => Instr::Modify(Addr::Abs, Rmw::Rol),
        0x2F => Instr::Modify(Addr::Abs, Rmw::Rla),
        0x30 => Instr::Branch(N, true),
        0x31 => Instr::Read(Addr::Izy(true), Alu::And),
        0x33 => Instr::Modify(Addr::Izy(false), Rmw::Rla),
        0x34 => Instr::Read(Addr::Zpx, Alu::Nop),
        0x35 => Instr::Read(Addr::Zpx, Alu::And),
        0x36 => Instr::Modify(Addr::Zpx, Rmw::Rol),
        0x37 => Instr::Modify(Addr::Zpx, Rmw::Rla),
        0x38 => Instr::Implied(Imp::Sec),
        0x39 => Instr::Read(Addr::Aby(true), Alu::And),
        0x3A => Instr::Implied(Imp::Nop),
        0x3B => Instr::Modify(Addr::Aby(false), Rmw::Rla),
        0x3C => Instr::Read(Addr::Abx(true), Alu::Nop),
        0x3D => Instr::Read(Addr::Abx(true), Alu::And),
        0x3E => Instr::Modify(Addr::Abx(false), Rmw::Rol),
        0x3F => Instr::Modify(Addr::Abx(false), Rmw::Rla),
        0x40 => Instr::Rti,
        0x41 => Instr::Read(Addr::Izx, Alu::Eor),
        0x43 => Instr::Modify(Addr::Izx, Rmw::Sre),
        0x44 => Instr::Read(Addr::Zp, Alu::Nop),
        0x45 => Instr::Read(Addr::Zp, Alu::Eor),
        0x46 => Instr::Modify(Addr::Zp, Rmw::Lsr),
        0x47 => Instr::Modify(Addr::Zp, Rmw::Sre),
        0x48 => Instr::Pha,
        0x49 => Instr::Imm(Alu::Eor),
        0x4A => Instr::Acc(Rmw::Lsr),
        0x4B => Instr::ImmU(ImmOp::Alr),
        0x4C => Instr::JmpAbs,
        0x4D => Instr::Read(Addr::Abs, Alu::Eor),
        0x4E => Instr::Modify(Addr::Abs, Rmw::Lsr),
        0x4F => Instr::Modify(Addr::Abs, Rmw::Sre),
        0x50 => Instr::Branch(V, false),
        0x51 => Instr::Read(Addr::Izy(true), Alu::Eor),
        0x53 => Instr::Modify(Addr::Izy(false), Rmw::Sre),
        0x54 => Instr::Read(Addr::Zpx, Alu::Nop),
        0x55 => Instr::Read(Addr::Zpx, Alu::Eor),
        0x56 => Instr::Modify(Addr::Zpx, Rmw::Lsr),
        0x57 => Instr::Modify(Addr::Zpx, Rmw::Sre),
        0x58 => Instr::Implied(Imp::Cli),
        0x59 => Instr::Read(Addr::Aby(true), Alu::Eor),
        0x5A => Instr::Implied(Imp::Nop),
        0x5B => Instr::Modify(Addr::Aby(false), Rmw::Sre),
        0x5C => Instr::Read(Addr::Abx(true), Alu::Nop),
        0x5D => Instr::Read(Addr::Abx(true), Alu::Eor),
        0x5E => Instr::Modify(Addr::Abx(false), Rmw::Lsr),
        0x5F => Instr::Modify(Addr::Abx(false), Rmw::Sre),
        0x60 => Instr::Rts,
        0x61 => Instr::Read(Addr::Izx, Alu::Adc),
        0x63 => Instr::Modify(Addr::Izx, Rmw::Rra),
        0x64 => Instr::Read(Addr::Zp, Alu::Nop),
        0x65 => Instr::Read(Addr::Zp, Alu::Adc),
        0x66 => Instr::Modify(Addr::Zp, Rmw::Ror),
        0x67 => Instr::Modify(Addr::Zp, Rmw::Rra),
        0x68 => Instr::Pla,
        0x69 => Instr::Imm(Alu::Adc),
        0x6A => Instr::Acc(Rmw::Ror),
        0x6B => Instr::ImmU(ImmOp::Arr),
        0x6C => Instr::JmpInd,
        0x6D => Instr::Read(Addr::Abs, Alu::Adc),
        0x6E => Instr::Modify(Addr::Abs, Rmw::Ror),
        0x6F => Instr::Modify(Addr::Abs, Rmw::Rra),
        0x70 => Instr::Branch(V, true),
        0x71 => Instr::Read(Addr::Izy(true), Alu::Adc),
        0x73 => Instr::Modify(Addr::Izy(false), Rmw::Rra),
        0x74 => Instr::Read(Addr::Zpx, Alu::Nop),
        0x75 => Instr::Read(Addr::Zpx, Alu::Adc),
        0x76 => Instr::Modify(Addr::Zpx, Rmw::Ror),
        0x77 => Instr::Modify(Addr::Zpx, Rmw::Rra),
        0x78 => Instr::Implied(Imp::Sei),
        0x79 => Instr::Read(Addr::Aby(true), Alu::Adc),
        0x7A => Instr::Implied(Imp::Nop),
        0x7B => Instr::Modify(Addr::Aby(false), Rmw::Rra),
        0x7C => Instr::Read(Addr::Abx(true), Alu::Nop),
        0x7D => Instr::Read(Addr::Abx(true), Alu::Adc),
        0x7E => Instr::Modify(Addr::Abx(false), Rmw::Ror),
        0x7F => Instr::Modify(Addr::Abx(false), Rmw::Rra),
        0x80 => Instr::Imm(Alu::Nop),
        0x81 => Instr::Store(Addr::Izx, Src::A),
        0x82 => Instr::Imm(Alu::Nop),
        0x83 => Instr::Store(Addr::Izx, Src::Ax),
        0x84 => Instr::Store(Addr::Zp, Src::Y),
        0x85 => Instr::Store(Addr::Zp, Src::A),
        0x86 => Instr::Store(Addr::Zp, Src::X),
        0x87 => Instr::Store(Addr::Zp, Src::Ax),
        0x88 => Instr::Implied(Imp::Dey),
        0x89 => Instr::Imm(Alu::Nop),
        0x8A => Instr::Implied(Imp::Txa),
        0x8B => Instr::ImmU(ImmOp::Xaa),
        0x8C => Instr::Store(Addr::Abs, Src::Y),
        0x8D => Instr::Store(Addr::Abs, Src::A),
        0x8E => Instr::Store(Addr::Abs, Src::X),
        0x8F => Instr::Store(Addr::Abs, Src::Ax),
        0x90 => Instr::Branch(C, false),
        0x91 => Instr::Store(Addr::Izy(false), Src::A),
        0x93 => Instr::Unstable(Addr::Izy(false), Hi::Sha),
        0x94 => Instr::Store(Addr::Zpx, Src::Y),
        0x95 => Instr::Store(Addr::Zpx, Src::A),
        0x96 => Instr::Store(Addr::Zpy, Src::X),
        0x97 => Instr::Store(Addr::Zpy, Src::Ax),
        0x98 => Instr::Implied(Imp::Tya),
        0x99 => Instr::Store(Addr::Aby(false), Src::A),
        0x9A => Instr::Implied(Imp::Txs),
        0x9B => Instr::Unstable(Addr::Aby(false), Hi::Tas),
        0x9C => Instr::Unstable(Addr::Abx(false), Hi::Shy),
        0x9D => Instr::Store(Addr::Abx(false), Src::A),
        0x9E => Instr::Unstable(Addr::Aby(false), Hi::Shx),
        0x9F => Instr::Unstable(Addr::Aby(false), Hi::Sha),
        0xA0 => Instr::Imm(Alu::Ldy),
        0xA1 => Instr::Read(Addr::Izx, Alu::Lda),
        0xA2 => Instr::Imm(Alu::Ldx),
        0xA3 => Instr::Read(Addr::Izx, Alu::Lax),
        0xA4 => Instr::Read(Addr::Zp, Alu::Ldy),
        0xA5 => Instr::Read(Addr::Zp, Alu::Lda),
        0xA6 => Instr::Read(Addr::Zp, Alu::Ldx),
        0xA7 => Instr::Read(Addr::Zp, Alu::Lax),
        0xA8 => Instr::Implied(Imp::Tay),
        0xA9 => Instr::Imm(Alu::Lda),
        0xAA => Instr::Implied(Imp::Tax),
        0xAB => Instr::ImmU(ImmOp::Lxa),
        0xAC => Instr::Read(Addr::Abs, Alu::Ldy),
        0xAD => Instr::Read(Addr::Abs, Alu::Lda),
        0xAE => Instr::Read(Addr::Abs, Alu::Ldx),
        0xAF => Instr::Read(Addr::Abs, Alu::Lax),
        0xB0 => Instr::Branch(C, true),
        0xB1 => Instr::Read(Addr::Izy(true), Alu::Lda),
        0xB3 => Instr::Read(Addr::Izy(true), Alu::Lax),
        0xB4 => Instr::Read(Addr::Zpx, Alu::Ldy),
        0xB5 => Instr::Read(Addr::Zpx, Alu::Lda),
        0xB6 => Instr::Read(Addr::Zpy, Alu::Ldx),
        0xB7 => Instr::Read(Addr::Zpy, Alu::Lax),
        0xB8 => Instr::Implied(Imp::Clv),
        0xB9 => Instr::Read(Addr::Aby(true), Alu::Lda),
        0xBA => Instr::Implied(Imp::Tsx),
        0xBB => Instr::Read(Addr::Aby(true), Alu::Las),
        0xBC => Instr::Read(Addr::Abx(true), Alu::Ldy),
        0xBD => Instr::Read(Addr::Abx(true), Alu::Lda),
        0xBE => Instr::Read(Addr::Aby(true), Alu::Ldx),
        0xBF => Instr::Read(Addr::Aby(true), Alu::Lax),
        0xC0 => Instr::Imm(Alu::Cpy),
        0xC1 => Instr::Read(Addr::Izx, Alu::Cmp),
        0xC2 => Instr::Imm(Alu::Nop),
        0xC3 => Instr::Modify(Addr::Izx, Rmw::Dcp),
        0xC4 => Instr::Read(Addr::Zp, Alu::Cpy),
        0xC5 => Instr::Read(Addr::Zp, Alu::Cmp),
        0xC6 => Instr::Modify(Addr::Zp, Rmw::Dec),
        0xC7 => Instr::Modify(Addr::Zp, Rmw::Dcp),
        0xC8 => Instr::Implied(Imp::Iny),
        0xC9 => Instr::Imm(Alu::Cmp),
        0xCA => Instr::Implied(Imp::Dex),
        0xCB => Instr::ImmU(ImmOp::Axs),
        0xCC => Instr::Read(Addr::Abs, Alu::Cpy),
        0xCD => Instr::Read(Addr::Abs, Alu::Cmp),
        0xCE => Instr::Modify(Addr::Abs, Rmw::Dec),
        0xCF => Instr::Modify(Addr::Abs, Rmw::Dcp),
        0xD0 => Instr::Branch(Z, false),
        0xD1 => Instr::Read(Addr::Izy(true), Alu::Cmp),
        0xD3 => Instr::Modify(Addr::Izy(false), Rmw::Dcp),
        0xD4 => Instr::Read(Addr::Zpx, Alu::Nop),
        0xD5 => Instr::Read(Addr::Zpx, Alu::Cmp),
        0xD6 => Instr::Modify(Addr::Zpx, Rmw::Dec),
        0xD7 => Instr::Modify(Addr::Zpx, Rmw::Dcp),
        0xD8 => Instr::Implied(Imp::Cld),
        0xD9 => Instr::Read(Addr::Aby(true), Alu::Cmp),
        0xDA => Instr::Implied(Imp::Nop),
        0xDB => Instr::Modify(Addr::Aby(false), Rmw::Dcp),
        0xDC => Instr::Read(Addr::Abx(true), Alu::Nop),
        0xDD => Instr::Read(Addr::Abx(true), Alu::Cmp),
        0xDE => Instr::Modify(Addr::Abx(false), Rmw::Dec),
        0xDF => Instr::Modify(Addr::Abx(false), Rmw::Dcp),
        0xE0 => Instr::Imm(Alu::Cpx),
        0xE1 => Instr::Read(Addr::Izx, Alu::Sbc),
        0xE2 => Instr::Imm(Alu::Nop),
        0xE3 => Instr::Modify(Addr::Izx, Rmw::Isb),
        0xE4 => Instr::Read(Addr::Zp, Alu::Cpx),
        0xE5 => Instr::Read(Addr::Zp, Alu::Sbc),
        0xE6 => Instr::Modify(Addr::Zp, Rmw::Inc),
        0xE7 => Instr::Modify(Addr::Zp, Rmw::Isb),
        0xE8 => Instr::Implied(Imp::Inx),
        0xE9 => Instr::Imm(Alu::Sbc),
        0xEA => Instr::Implied(Imp::Nop),
        0xEB => Instr::Imm(Alu::Sbc),
        0xEC => Instr::Read(Addr::Abs, Alu::Cpx),
        0xED => Instr::Read(Addr::Abs, Alu::Sbc),
        0xEE => Instr::Modify(Addr::Abs, Rmw::Inc),
        0xEF => Instr::Modify(Addr::Abs, Rmw::Isb),
        0xF0 => Instr::Branch(Z, true),
        0xF1 => Instr::Read(Addr::Izy(true), Alu::Sbc),
        0xF3 => Instr::Modify(Addr::Izy(false), Rmw::Isb),
        0xF4 => Instr::Read(Addr::Zpx, Alu::Nop),
        0xF5 => Instr::Read(Addr::Zpx, Alu::Sbc),
        0xF6 => Instr::Modify(Addr::Zpx, Rmw::Inc),
        0xF7 => Instr::Modify(Addr::Zpx, Rmw::Isb),
        0xF8 => Instr::Implied(Imp::Sed),
        0xF9 => Instr::Read(Addr::Aby(true), Alu::Sbc),
        0xFA => Instr::Implied(Imp::Nop),
        0xFB => Instr::Modify(Addr::Aby(false), Rmw::Isb),
        0xFC => Instr::Read(Addr::Abx(true), Alu::Nop),
        0xFD => Instr::Read(Addr::Abx(true), Alu::Sbc),
        0xFE => Instr::Modify(Addr::Abx(false), Rmw::Inc),
        0xFF => Instr::Modify(Addr::Abx(false), Rmw::Isb),
        _ => Instr::Implied(Imp::Nop),
    }
}

#[verifier::opaque]
pub open spec fn execute_spec(m: Machine, op: u8) -> Machine {
    run_spec(m, decode_spec(op))
}

/// The end-of-instruction interrupt poll.
pub open spec fn end_polled(c: Cpu) -> Cpu {
    if c.suppress_instruction_poll {
        Cpu { suppress_instruction_poll: false, ..c }
    } else if c.nmi_pending {
        Cpu { nmi_pending: false, pending_interrupt: Cpu::after_queue(c, InterruptKind::Nmi), ..c }
    } else if c.last_poll.irq && !c.last_poll.i {
        Cpu { pending_interrupt: Cpu::after_queue(c, InterruptKind::Irq), ..c }
    } else {
        c
    }
}

/// One step: a pending interrupt is serviced, or one instruction runs and
/// the interrupt lines are polled.
pub open spec fn step_spec(m: Machine) -> Machine {
    match m.cpu.pending_interrupt {
        Some(InterruptKind::Nmi) => interrupted(
            with_cpu(m, Cpu { pending_interrupt: None, nmi_count: (m.cpu.nmi_count + 1) as u64, ..m.cpu }),
            NMI_VECTOR, false),
        Some(InterruptKind::Irq) => interrupted(with_cpu(m, Cpu { pending_interrupt: None, ..m.cpu }), IRQ_VECTOR, true),
        None => {
            let (m1, op) = fetched(m);
            let m2 = execute_spec(m1, op);
            with_cpu(m2, end_polled(m2.cpu))
        },
    }
}

/// The instruction an opcode decodes to.
pub fn decode(op: u8) -> (r: Instr)
    ensures r == decode_spec(op),
{
    proof { reveal(decode_spec); }
    match op {
        0x00 => Instr::Brk,
        0x01 => Instr::Read(Addr::Izx, Alu::Ora),
        0x03 => Instr::Modify(Addr::Izx, Rmw::Slo),
        0x04 => Instr::Read(Addr::Zp, Alu::Nop),
        0x05 => Instr::Read(Addr::Zp, Alu::Ora),
        0x06 => Instr::Modify(Addr::Zp, Rmw::Asl),
        0x07 => Instr::Modify(Addr::Zp, Rmw::Slo),
        0x08 => Instr::Php,
        0x09 => Instr::Imm(Alu::Ora),
        0x0A => Instr::Acc(Rmw::Asl),
        0x0B => Instr::ImmU(ImmOp::Anc),
        0x0C => Instr::Read(Addr::Abs, Alu::Nop),
        0x0D => Instr::Read(Addr::Abs, Alu::Ora),
        0x0E => Instr::Modify(Addr::Abs, Rmw::Asl),
        0x0F => Instr::Modify(Addr::Abs, Rmw::Slo),
        0x10 => Instr::Branch(N, false),
        0x11 => Instr::Read(Addr::Izy(true), Alu::Ora),
        0x13 => Instr::Modify(Addr::Izy(false), Rmw::Slo),
        0x14 => Instr::Read(Addr::Zpx, Alu::Nop),
        0x15 => Instr::Read(Addr::Zpx, Alu::Ora),
        0x16 => Instr::Modify(Addr::Zpx, Rmw::Asl),
        0x17 => Instr::Modify(Addr::Zpx, Rmw::Slo),
        0x18 => Instr::Implied(Imp::Clc),
        0x19 => Instr::Read(Addr::Aby(true), Alu::Ora),
        0x1A => Instr::Implied(Imp::Nop),
        0x1B => Instr::Modify(Addr::Aby(false), Rmw::Slo),
        0x1C => Instr::Read(Addr::Abx(true), Alu::Nop),
        0x1D => Instr::Read(Addr::Abx(true), Alu::Ora),
        0x1E => Instr::Modify(Addr::Abx(false), Rmw::Asl),
        0x1F => Instr::Modify(Addr::Abx(false), Rmw::Slo),
        0x20 => Instr::Jsr,
        0x21 => Instr::Read(Addr::Izx, Alu::And),
        0x23 => Instr::Modify(Addr::Izx, Rmw::Rla),
        0x24 => Instr::Read(Addr::Zp, Alu::Bit),
        0x25 => Instr::Read(Addr::Zp, Alu::And),
        0x26 => Instr::Modify(Addr::Zp, Rmw::Rol),
        0x27 => Instr::Modify(Addr::Zp, Rmw::Rla),
        0x28 => Instr::Plp,
        0x29 => Instr::Imm(Alu::And),
        0x2A => Instr::Acc(Rmw::Rol),
        0x2B => Instr::ImmU(ImmOp::Anc),
        0x2C => Instr::Read(Addr::Abs, Alu::Bit),
        0x2D => Instr::Read(Addr::Abs, Alu::And),
        0x2E => Instr::Modify(Addr::Abs, Rmw::Rol),
        0x2F => Instr::Modify(Addr::Abs, Rmw::Rla),
        0x30 => Instr::Branch(N, true),
        0x31 => Instr::Read(Addr::Izy(true), Alu::And),
        0x33 => Instr::Modify(Addr::Izy(false), Rmw::Rla),
        0x34 => Instr::Read(Addr::Zpx, Alu::Nop),
        0x35 => Instr::Read(Addr::Zpx, Alu::And),
        0x36 => Instr::Modify(Addr::Zpx, Rmw::Rol),
        0x37 => Instr::Modify(Addr::Zpx, Rmw::Rla),
        0x38 => Instr::Implied(Imp::Sec),
        0x39 => Instr::Read(Addr::Aby(true), Alu::And),
        0x3A => Instr::Implied(Imp::Nop),
        0x3B => Instr::Modify(Addr::Aby(false), Rmw::Rla),
        0x3C => Instr::Read(Addr::Abx(true), Alu::Nop),
        0x3D => Instr::Read(Addr::Abx(true), Alu::And),
        0x3E => Instr::Modify(Addr::Abx(false), Rmw::Rol),
        0x3F => Instr::Modify(Addr::Abx(false), Rmw::Rla),
        0x40 => Instr::Rti,
        0x41 => Instr::Read(Addr::Izx, Alu::Eor),
        0x43 => Instr::Modify(Addr::Izx, Rmw::Sre),
        0x44 => Instr::Read(Addr::Zp, Alu::Nop),
        0x45 => Instr::Read(Addr::Zp, Alu::Eor),
        0x46 => Instr::Modify(Addr::Zp, Rmw::Lsr),
        0x47 => Instr::Modify(Addr::Zp, Rmw::Sre),
        0x48 => Instr::Pha,
        0x49 => Instr::Imm(Alu::Eor),
        0x4A => Instr::Acc(Rmw::Lsr),
        0x4B => Instr::ImmU(ImmOp::Alr),
        0x4C => Instr::JmpAbs,
        0x4D => Instr::Read(Addr::Abs, Alu::Eor),
        0x4E => Instr::Modify(Addr::Abs, Rmw::Lsr),
        0x4F => Instr::Modify(Addr::Abs, Rmw::Sre),
        0x50 => Instr::Branch(V, false),
        0x51 => Instr::Read(Addr::Izy(true), Alu::Eor),
        0x53 => Instr::Modify(Addr::Izy(false), Rmw::Sre),
        0x54 => Instr::Read(Addr::Zpx, Alu::Nop),
        0x55 => Instr::Read(Addr::Zpx, Alu::Eor),
        0x56 => Instr::Modify(Addr::Zpx, Rmw::Lsr),
        0x57 => Instr::Modify(Addr::Zpx, Rmw::Sre),
        0x58 => Instr::Implied(Imp::Cli),
        0x59 => Instr::Read(Addr::Aby(true), Alu::Eor),
        0x5A => Instr::Implied(Imp::Nop),
        0x5B => Instr::Modify(Addr::Aby(false), Rmw::Sre),
        0x5C => Instr::Read(Addr::Abx(true), Alu::Nop),
        0x5D => Instr::Read(Addr::Abx(true), Alu::Eor),
        0x5E => Instr::Modify(Addr::Abx(false), Rmw::Lsr),
        0x5F => Instr::Modify(Addr::Abx(false), Rmw::Sre),
        0x60 => Instr::Rts,
        0x61 => Instr::Read(Addr::Izx, Alu::Adc),
        0x63 => Instr::Modify(Addr::Izx, Rmw::Rra),
        0x64 => Instr::Read(Addr::Zp, Alu::Nop),
        0x65 => Instr::Read(Addr::Zp, Alu::Adc),
        0x66 => Instr::Modify(Addr::Zp, Rmw::Ror),
        0x67 => Instr::Modify(Addr::Zp, Rmw::Rra),
        0x68 => Instr::Pla,
        0x69 => Instr::Imm(Alu::Adc),
        0x6A => Instr::Acc(Rmw::Ror),
        0x6B => Instr::ImmU(ImmOp::Arr),
        0x6C => Instr::JmpInd,
        0x6D => Instr::Read(Addr::Abs, Alu::Adc),
        0x6E => Instr::Modify(Addr::Abs, Rmw::Ror),
        0x6F => Instr::Modify(Addr::Abs, Rmw::Rra),
        0x70 => Instr::Branch(V, true),
        0x71 => Instr::Read(Addr::Izy(true), Alu::Adc),
        0x73 => Instr::Modify(Addr::Izy(false), Rmw::Rra),
        0x74 => Instr::Read(Addr::Zpx, Alu::Nop),
        0x75 => Instr::Read(Addr::Zpx, Alu::Adc),
        0x76 => Instr::Modify(Addr::Zpx, Rmw::Ror),
        0x77 => Instr::Modify(Addr::Zpx, Rmw::Rra),
        0x78 => Instr::Implied(Imp::Sei),
        0x79 => Instr::Read(Addr::Aby(true), Alu::Adc),
        0x7A => Instr::Implied(Imp::Nop),
        0x7B => Instr::Modify(Addr::Aby(false), Rmw::Rra),
        0x7C => Instr::Read(Addr::Abx(true), Alu::Nop),
        0x7D => Instr::Read(Addr::Abx(true), Alu::Adc),
        0x7E => Instr::Modify(Addr::Abx(false), Rmw::Ror),
        0x7F => Instr::Modify(Addr::Abx(false), Rmw::Rra),
        0x80 => Instr::Imm(Alu::Nop),
        0x81 => Instr::Store(Addr::Izx, Src::A),
        0x82 => Instr::Imm(Alu::Nop),
        0x83 => Instr::Store(Addr::Izx, Src::Ax),
        0x84 => Instr::Store(Addr::Zp, Src::Y),
        0x85 => Instr::Store(Addr::Zp, Src::A),
        0x86 => Instr::Store(Addr::Zp, Src::X),
        0x87 => Instr::Store(Addr::Zp, Src::Ax),
        0x88 => Instr::Implied(Imp::Dey),
        0x89 => Instr::Imm(Alu::Nop),
        0x8A => Instr::Implied(Imp::Txa),
        0x8B => Instr::ImmU(ImmOp::Xaa),
        0x8C => Instr::Store(Addr::Abs, Src::Y),
        0x8D => Instr::Store(Addr::Abs, Src::A),
        0x8E => Instr::Store(Addr::Abs, Src::X),
        0x8F => Instr::Store(Addr::Abs, Src::Ax),
        0x90 => Instr::Branch(C, false),
        0x91 => Instr::Store(Addr::Izy(false), Src::A),
        0x93 => Instr::Unstable(Addr::Izy(false), Hi::Sha),
        0x94 => Instr::Store(Addr::Zpx, Src::Y),
        0x95 => Instr::Store(Addr::Zpx, Src::A),
        0x96 => Instr::Store(Addr::Zpy, Src::X),
        0x97 => Instr::Store(Addr::Zpy, Src::Ax),
        0x98 => Instr::Implied(Imp::Tya),
        0x99 => Instr::Store(Addr::Aby(false), Src::A),
        0x9A => Instr::Implied(Imp::Txs),
        0x9B => Instr::Unstable(Addr::Aby(false), Hi::Tas),
        0x9C => Instr::Unstable(Addr::Abx(false), Hi::Shy),
        0x9D => Instr::Store(Addr::Abx(false), Src::A),
        0x9E => Instr::Unstable(Addr::Aby(false), Hi::Shx),
        0x9F => Instr::Unstable(Addr::Aby(false), Hi::Sha),
        0xA0 => Instr::Imm(Alu::Ldy),
        0xA1 => Instr::Read(Addr::Izx, Alu::Lda),
        0xA2 => Instr::Imm(Alu::Ldx),
        0xA3 => Instr::Read(Addr::Izx, Alu::Lax),
        0xA4 => Instr::Read(Addr::Zp, Alu::Ldy),
        0xA5 => Instr::Read(Addr::Zp, Alu::Lda),
        0xA6 => Instr::Read(Addr::Zp, Alu::Ldx),
        0xA7 => Instr::Read(Addr::Zp, Alu::Lax),
        0xA8 => Instr::Implied(Imp::Tay),
        0xA9 => Instr::Imm(Alu::Lda),
        0xAA => Instr::Implied(Imp::Tax),
        0xAB => Instr::ImmU(ImmOp::Lxa),
        0xAC => Instr::Read(Addr::Abs, Alu::Ldy),
        0xAD => Instr::Read(Addr::Abs, Alu::Lda),
        0xAE => Instr::Read(Addr::Abs, Alu::Ldx),
        0xAF => Instr::Read(Addr::Abs, Alu::Lax),
        0xB0 => Instr::Branch(C, true),
        0xB1 => Instr::Read(Addr::Izy(true), Alu::Lda),
        0xB3 => Instr::Read(Addr::Izy(true), Alu::Lax),
        0xB4 => Instr::Read(Addr::Zpx, Alu::Ldy),
        0xB5 => Instr::Read(Addr::Zpx, Alu::Lda),
        0xB6 => Instr::Read(Addr::Zpy, Alu::Ldx),
        0xB7 => Instr::Read(Addr::Zpy, Alu::Lax),
        0xB8 => Instr::Implied(Imp::Clv),
        0xB9 => Instr::Read(Addr::Aby(true), Alu::Lda),
        0xBA => Instr::Implied(Imp::Tsx),
        0xBB => Instr::Read(Addr::Aby(true), Alu::Las),
        0xBC => Instr::Read(Addr::Abx(true), Alu::Ldy),
        0xBD => Instr::Read(Addr::Abx(true), Alu::Lda),
        0xBE => Instr::Read(Addr::Aby(true), Alu::Ldx),
        0xBF => Instr::Read(Addr::Aby(true), Alu::Lax),
        0xC0 => Instr::Imm(Alu::Cpy),
        0xC1 => Instr::Read(Addr::Izx, Alu::Cmp),
        0xC2 => Instr::Imm(Alu::Nop),
        0xC3 => Instr::Modify(Addr::Izx, Rmw::Dcp),
        0xC4 => Instr::Read(Addr::Zp, Alu::Cpy),
        0xC5 => Instr::Read(Addr::Zp, Alu::Cmp),
        0xC6 => Instr::Modify(Addr::Zp, Rmw::Dec),
        0xC7 => Instr::Modify(Addr::Zp, Rmw::Dcp),
        0xC8 => Instr::Implied(Imp::Iny),
        0xC9 => Instr::Imm(Alu::Cmp),
        0xCA => Instr::Implied(Imp::Dex),
        0xCB => Instr::ImmU(ImmOp::Axs),
        0xCC => Instr::Read(Addr::Abs, Alu::Cpy),
        0xCD => Instr::Read(Addr::Abs, Alu::Cmp),
        0xCE => Instr::Modify(Addr::Abs, Rmw::Dec),
        0xCF => Instr::Modify(Addr::Abs, Rmw::Dcp),
        0xD0 => Instr::Branch(Z, false),
        0xD1 => Instr::Read(Addr::Izy(true), Alu::Cmp),
        0xD3 => Instr::Modify(Addr::Izy(false), Rmw::Dcp),
        0xD4 => Instr::Read(Addr::Zpx, Alu::Nop),
        0xD5 => Instr::Read(Addr::Zpx, Alu::Cmp),
        0xD6 => Instr::Modify(Addr::Zpx, Rmw::Dec),
        0xD7 => Instr::Modify(Addr::Zpx, Rmw::Dcp),
        0xD8 => Instr::Implied(Imp::Cld),
        0xD9 => Instr::Read(Addr::Aby(true), Alu::Cmp),
        0xDA => Instr::Implied(Imp::Nop),
        0xDB => Instr::Modify(Addr::Aby(false), Rmw::Dcp),
        0xDC => Instr::Read(Addr::Abx(true), Alu::Nop),
        0xDD => Instr::Read(Addr::Abx(true), Alu::Cmp),
        0xDE => Instr::Modify(Addr::Abx(false), Rmw::Dec),
        0xDF => Instr::Modify(Addr::Abx(false), Rmw::Dcp),
        0xE0 => Instr::Imm(Alu::Cpx),
        0xE1 => Instr::Read(Addr::Izx, Alu::Sbc),
        0xE2 => Instr::Imm(Alu::Nop),
        0xE3 => Instr::Modify(Addr::Izx, Rmw::Isb),
        0xE4 => Instr::Read(Addr::Zp, Alu::Cpx),
        0xE5 => Instr::Read(Addr::Zp, Alu::Sbc),
        0xE6 => Instr::Modify(Addr::Zp, Rmw::Inc),
        0xE7 => Instr::Modify(Addr::Zp, Rmw::Isb),
        0xE8 => Instr::Implied(Imp::Inx),
        0xE9 => Instr::Imm(Alu::Sbc),
        0xEA => Instr::Implied(Imp::Nop),
        0xEB => Instr::Imm(Alu::Sbc),
        0xEC => Instr::Read(Addr::Abs, Alu::Cpx),
        0xED => Instr::Read(Addr::Abs, Alu::Sbc),
        0xEE => Instr::Modify(Addr::Abs, Rmw::Inc),
        0xEF => Instr::Modify(Addr::Abs, Rmw::Isb),
        0xF0 => Instr::Branch(Z, true),
        0xF1 => Instr::Read(Addr::Izy(true), Alu::Sbc),
        0xF3 => Instr::Modify(Addr::Izy(false), Rmw::Isb),
        0xF4 => Instr::Read(Addr::Zpx, Alu::Nop),
        0xF5 => Instr::Read(Addr::Zpx, Alu::Sbc),
        0xF6 => Instr::Modify(Addr::Zpx, Rmw::Inc),
        0xF7 => Instr::Modify(Addr::Zpx, Rmw::Isb),
        0xF8 => Instr::Implied(Imp::Sed),
        0xF9 => Instr::Read(Addr::Aby(true), Alu::Sbc),
        0xFA => Instr::Implied(Imp::Nop),
        0xFB => Instr::Modify(Addr::Aby(false), Rmw::Isb),
        0xFC => Instr::Read(Addr::Abx(true), Alu::Nop),
        0xFD => Instr::Read(Addr::Abx(true), Alu::Sbc),
        0xFE => Instr::Modify(Addr::Abx(false), Rmw::Inc),
        0xFF => Instr::Modify(Addr::Abx(false), Rmw::Isb),
        _ => Instr::Implied(Imp::Nop),
    }
}

impl Cpu {
    #[verifier::spinoff_prover]
    #[verifier::rlimit(40)]
    pub fn alu(&mut self, op: Alu, v: u8)
        ensures *final(self) == alu_s(*old(self), op, v),
    {
        match op {
            Alu::Lda => self.lda(v),
            Alu::Ldx => self.ldx(v),
            Alu::Ldy => self.ldy(v),
            Alu::And => self.and(v),
            Alu::Ora => self.ora(v),
            Alu::Eor => self.eor(v),
            Alu::Adc => self.adc(v),
            Alu::Sbc => self.sbc(v),
            Alu::Cmp => { let a = self.a; self.compare(a, v) },
            Alu::Cpx => { let x = self.x; self.compare(x, v) },
            Alu::Cpy => { let y = self.y; self.compare(y, v) },
            Alu::Bit => self.bit(v),
            Alu::Lax => { self.lda(v); self.x = v; },
            Alu::Las => {
                let w = v & self.sp;
                self.a = w;
                self.x = w;
                self.sp = w;
                self.set_zn(w);
            },
            Alu::Nop => {},
        }
    }

    fn shift(&mut self, f: Rmw, v: u8) -> (r: u8)
        ensures (*final(self), r) == rmw_s_shift(*old(self), f, v),
    {
        match f {
            Rmw::Asl => self.asl_val(v),
            Rmw::Lsr => self.lsr_val(v),
            Rmw::Rol => self.rol_val(v),
            _ => self.ror_val(v),
        }
    }

    #[verifier::spinoff_prover]
    #[verifier::rlimit(40)]
    pub fn modify(&mut self, f: Rmw, v: u8) -> (r: u8)
        ensures (*final(self), r) == rmw_s(*old(self), f, v),
    {
        match f {
            Rmw::Asl => self.asl_val(v),
            Rmw::Lsr => self.lsr_val(v),
            Rmw::Rol => self.rol_val(v),
            Rmw::Ror => self.ror_val(v),
            Rmw::Inc => { let r = if v == 0xFF { 0 } else { v + 1 }; self.set_zn(r); r },
            Rmw::Dec => { let r = if v == 0 { 0xFF } else { v - 1 }; self.set_zn(r); r },
            Rmw::Slo => { let r = self.shift(Rmw::Asl, v); self.ora(r); r },
            Rmw::Rla => { let r = self.shift(Rmw::Rol, v); self.and(r); r },
            Rmw::Sre => { let r = self.shift(Rmw::Lsr, v); self.eor(r); r },
            Rmw::Rra => { let r = self.shift(Rmw::Ror, v); self.adc(r); r },
            Rmw::Dcp => { let r = if v == 0 { 0xFF } else { v - 1 }; let a = self.a; self.compare(a, r); r },
            Rmw::Isb => { let r = if v == 0xFF { 0 } else { v + 1 }; self.sbc(r); r },
        }
    }

    #[verifier::spinoff_prover]
    #[verifier::rlimit(40)]
    pub fn implied(&mut self, i: Imp)
        ensures *final(self) == imp_s(*old(self), i),
    {
        match i {
            Imp::Tax => { let v = self.a; self.x = v; self.set_zn(v); },
            Imp::Tay => { let v = self.a; self.y = v; self.set_zn(v); },
            Imp::Txa => { let v = self.x; self.a = v; self.set_zn(v); },
            Imp::Tya => { let v = self.y; self.a = v; self.set_zn(v); },
            Imp::Tsx => { let v = self.sp; self.x = v; self.set_zn(v); },
            Imp::Txs => { self.sp = self.x; },
            Imp::Inx => { let v = if self.x == 0xFF { 0 } else { self.x + 1 }; self.x = v; self.set_zn(v); },
            Imp::Dex => { let v = if self.x == 0 { 0xFF } else { self.x - 1 }; self.x = v; self.set_zn(v); },
            Imp::Iny => { let v = if self.y == 0xFF { 0 } else { self.y + 1 }; self.y = v; self.set_zn(v); },
            Imp::Dey => { let v = if self.y == 0 { 0xFF } else { self.y - 1 }; self.y = v; self.set_zn(v); },
            Imp::Clc => self.set_flag(C, false),
            Imp::Sec => self.set_flag(C, true),
            Imp::Cli => self.set_flag(I, false),
            Imp::Sei => self.set_flag(I, true),
            Imp::Clv => self.set_flag(V, false),
            Imp::Cld => self.set_flag(D, false),
            Imp::Sed => self.set_flag(D, true),
            Imp::Nop => {},
        }
    }

    #[verifier::spinoff_prover]
    #[verifier::rlimit(40)]
    fn arr(&mut self, v: u8)
        ensures *final(self) == immu_s(*old(self), ImmOp::Arr, v),
    {
        self.and(v);
        let carry: u8 = if self.p % 2 == 1 { 128 } else { 0 };
        let r = self.a / 2 + carry;
        self.a = r;
        self.set_zn(r);
        self.set_flag(C, r & 0x40 != 0);
        self.set_flag(V, ((r >> 5u8) ^ (r >> 6u8)) & 1 != 0);
    }

    #[verifier::spinoff_prover]
    #[verifier::rlimit(40)]
    fn axs(&mut self, v: u8)
        ensures *final(self) == immu_s(*old(self), ImmOp::Axs, v),
    {
        let ax = self.a & self.x;
        self.compare(ax, v);
        self.x = if ax >= v { ax - v } else { (256u16 + ax as u16 - v as u16) as u8 };
    }

    #[verifier::spinoff_prover]
    #[verifier::rlimit(40)]
    pub fn imm_unofficial(&mut self, op: ImmOp, v: u8)
        ensures *final(self) == immu_s(*old(self), op, v),
    {
        match op {
            ImmOp::Anc => { self.and(v); let a = self.a; self.set_flag(C, a & 0x80 != 0); },
            ImmOp::Alr => { self.and(v); let a = self.a; let r = self.shift(Rmw::Lsr, a); self.a = r; },
            ImmOp::Arr => self.arr(v),
            ImmOp::Xaa => { let w = self.x & v; self.a = w; self.set_zn(w); },
            ImmOp::Lxa => { let w = self.x & v; self.a = w; self.x = w; self.set_zn(w); },
            ImmOp::Axs => self.axs(v),
        }
    }

    #[verifier::spinoff_prover]
    #[verifier::rlimit(40)]
    fn store_unstable(&mut self, bus: &mut FlatBus, a: u16, h: Hi)
        requires old(bus).wf(),
        ensures final(bus).wf(), machine(*final(self), *final(bus)) == unstable_s(machine(*old(self), *old(bus)), a, h),
    {
        let hb = (a / 256) as u8;
        let k: u8 = if hb == 0xFF { 0 } else { hb + 1 };
        match h {
            Hi::Sha => { let v = self.a & self.x & k; self.wr(bus, a, v); },
            Hi::Tas => { self.sp = self.a & self.x; let v = self.sp & k; self.wr(bus, a, v); },
            Hi::Shy => { let v = self.y & k; self.wr(bus, a, v); },
            Hi::Shx => { let v = self.x & k; self.wr(bus, a, v); },
        }
    }

    fn load_vector(&mut self, bus: &mut FlatBus, vec: u16)
        requires old(bus).wf(), vec == NMI_VECTOR || vec == IRQ_VECTOR,
        ensures final(bus).wf(), machine(*final(self), *final(bus)) == vector_loaded(machine(*old(self), *old(bus)), vec),
    {
        let lo = self.rd(bus, vec);
        let hi = self.rd(bus, vec + 1);
        self.pc = hi as u16 * 256 + lo as u16;
        self.suppress_instruction_poll = true;
    }

    #[verifier::spinoff_prover]
    #[verifier::rlimit(40)]
    fn interrupt(&mut self, bus: &mut FlatBus, vector: u16, after_status: bool)
        requires old(bus).wf(), old(self).nmi_count < u64::MAX, vector == NMI_VECTOR || vector == IRQ_VECTOR,
        ensures
            final(bus).wf(),
            machine(*final(self), *final(bus)) == interrupted(machine(*old(self), *old(bus)), vector, after_status),
    {
        self.io(bus);
        self.io(bus);
        let pc = self.pc;
        self.push16(bus, pc);
        let mut sel = vector;
        if !after_status {
            sel = self.select_interrupt_vector(vector);
        }
        let status = Cpu::pushed_status(self.p, false);
        self.push(bus, status);
        self.set_flag(I, true);
        if after_status {
            sel = self.select_interrupt_vector(vector);
        }
        self.load_vector(bus, sel);
    }

    #[verifier::spinoff_prover]
    #[verifier::rlimit(40)]
    fn brk(&mut self, bus: &mut FlatBus)
        requires old(bus).wf(), old(self).nmi_count < u64::MAX,
        ensures final(bus).wf(), machine(*final(self), *final(bus)) == brk_s(machine(*old(self), *old(bus))),
    {
        let _ = self.fetch(bus);
        let pc = self.pc;
        self.push16(bus, pc);
        let status = self.p | U | B;
        self.push(bus, status);
        self.set_flag(I, true);
        let sel = self.select_interrupt_vector(IRQ_VECTOR);
        self.load_vector(bus, sel);
    }

    #[verifier::spinoff_prover]
    #[verifier::rlimit(40)]
    fn branch(&mut self, bus: &mut FlatBus, cond: bool)
        requires old(bus).wf(),
        ensures final(bus).wf(), machine(*final(self), *final(bus)) == branched(machine(*old(self), *old(bus)), cond),
    {
        let off = self.fetch(bus);
        if cond {
            let poll = self.last_poll;
            self.io(bus);
            let from = self.pc;
            let target = ((from as u32 + 0x10000 + off as u32 - (if off >= 0x80 { 256u32 } else { 0u32 })) % 0x10000) as u16;
            self.pc = target;
            if from / 256 != target / 256 {
                self.io(bus);
            } else {
                self.accept_exact_interrupt_poll(poll);
                self.suppress_instruction_poll = true;
            }
        }
    }

    #[verifier::spinoff_prover]
    #[verifier::rlimit(40)]
    fn run_operand(&mut self, bus: &mut FlatBus, ins: Instr)
        requires old(bus).wf(), old(self).nmi_count < u64::MAX, ins is Imm || ins is Read || ins is ImmU,
        ensures final(bus).wf(), machine(*final(self), *final(bus)) == run_spec(machine(*old(self), *old(bus)), ins),
    {
        match ins {
            Instr::Imm(op) => { let v = self.fetch(bus); self.alu(op, v); },
            Instr::Read(mode, op) => { let a = self.operand_addr(bus, mode); let v = self.rd(bus, a); self.alu(op, v); },
            Instr::ImmU(op) => { let v = self.fetch(bus); self.imm_unofficial(op, v); },
            _ => {},
        }
    }

    #[verifier::spinoff_prover]
    #[verifier::rlimit(40)]
    fn run_store(&mut self, bus: &mut FlatBus, ins: Instr)
        requires old(bus).wf(), old(self).nmi_count < u64::MAX, ins is Store || ins is Unstable || ins is Modify,
        ensures final(bus).wf(), machine(*final(self), *final(bus)) == run_spec(machine(*old(self), *old(bus)), ins),
    {
        match ins {
            Instr::Store(mode, s) => {
                let a = self.operand_addr(bus, mode);
                let v = match s { Src::A => self.a, Src::X => self.x, Src::Y => self.y, Src::Ax => self.a & self.x };
                self.wr(bus, a, v);
            },
            Instr::Unstable(mode, h) => { let a = self.operand_addr(bus, mode); self.store_unstable(bus, a, h); },
            Instr::Modify(mode, f) => {
                let a = self.operand_addr(bus, mode);
                let v = self.rd(bus, a);
                self.wr(bus, a, v);
                let r = self.modify(f, v);
                self.wr(bus, a, r);
            },
            _ => {},
        }
    }

    #[verifier::spinoff_prover]
    #[verifier::rlimit(40)]
    fn run_single(&mut self, bus: &mut FlatBus, ins: Instr)
        requires old(bus).wf(), old(self).nmi_count < u64::MAX, ins is Acc || ins is Implied || ins is Pha || ins is Php || ins is Pla || ins is Plp,
        ensures final(bus).wf(), machine(*final(self), *final(bus)) == run_spec(machine(*old(self), *old(bus)), ins),
    {
        match ins {
            Instr::Acc(f) => { self.io(bus); let a = self.a; let r = self.modify(f, a); self.a = r; },
            Instr::Implied(i) => { self.io(bus); self.implied(i); },
            Instr::Pha => { self.io(bus); let a = self.a; self.push(bus, a); },
            Instr::Php => { self.io(bus); let p = self.p | U | B; self.push(bus, p); },
            Instr::Pla => { self.io(bus); self.io(bus); let v = self.pull(bus); self.lda(v); },
            Instr::Plp => { self.io(bus); self.io(bus); let v = self.pull(bus); self.p = (v & !B) | U; },
            _ => {},
        }
    }

    #[verifier::spinoff_prover]
    #[verifier::rlimit(40)]
    fn jmp_indirect(&mut self, bus: &mut FlatBus)
        requires old(bus).wf(),
        ensures final(bus).wf(), machine(*final(self), *final(bus)) == run_spec(machine(*old(self), *old(bus)), Instr::JmpInd),
    {
        let ptr = self.fetch16(bus);
        let lo = self.rd(bus, ptr);
        let low = ptr % 256;
        let hi_addr = (ptr / 256) * 256 + (if low == 0xFF { 0 } else { low + 1 });
        let hi = self.rd(bus, hi_addr);
        self.pc = hi as u16 * 256 + lo as u16;
    }

    #[verifier::spinoff_prover]
    #[verifier::rlimit(40)]
    fn jsr(&mut self, bus: &mut FlatBus)
        requires old(bus).wf(),
        ensures final(bus).wf(), machine(*final(self), *final(bus)) == run_spec(machine(*old(self), *old(bus)), Instr::Jsr),
    {
        let lo = self.fetch(bus);
        self.io(bus);
        let pc = self.pc;
        self.push16(bus, pc);
        let pc2 = self.pc;
        let hi = self.rd(bus, pc2);
        self.pc = hi as u16 * 256 + lo as u16;
    }

    #[verifier::spinoff_prover]
    #[verifier::rlimit(40)]
    fn rts(&mut self, bus: &mut FlatBus)
        requires old(bus).wf(),
        ensures final(bus).wf(), machine(*final(self), *final(bus)) == run_spec(machine(*old(self), *old(bus)), Instr::Rts),
    {
        self.io(bus);
        let a = self.pull16(bus);
        self.io(bus);
        self.pc = if a == 0xFFFF { 0 } else { a + 1 };
        self.io(bus);
    }

    #[verifier::spinoff_prover]
    #[verifier::rlimit(40)]
    fn rti(&mut self, bus: &mut FlatBus)
        requires old(bus).wf(),
        ensures final(bus).wf(), machine(*final(self), *final(bus)) == run_spec(machine(*old(self), *old(bus)), Instr::Rti),
    {
        self.io(bus);
        let s = self.pull(bus);
        self.p = (s & !B) | U;
        let pc = self.pull16(bus);
        self.pc = pc;
        self.io(bus);
    }

    #[verifier::spinoff_prover]
    #[verifier::rlimit(40)]
    fn run_jump(&mut self, bus: &mut FlatBus, ins: Instr)
        requires old(bus).wf(), old(self).nmi_count < u64::MAX, ins is JmpAbs || ins is JmpInd || ins is Jsr || ins is Rts || ins is Rti || ins is Brk || ins is Branch,
        ensures final(bus).wf(), machine(*final(self), *final(bus)) == run_spec(machine(*old(self), *old(bus)), ins),
    {
        match ins {
            Instr::JmpAbs => { let t = self.fetch16(bus); self.pc = t; },
            Instr::JmpInd => self.jmp_indirect(bus),
            Instr::Jsr => self.jsr(bus),
            Instr::Rts => self.rts(bus),
            Instr::Rti => self.rti(bus),
            Instr::Brk => self.brk(bus),
            Instr::Branch(flag, set) => { let cond = (self.p & flag != 0) == set; self.branch(bus, cond); },

            _ => {},
        }
    }

    #[verifier::spinoff_prover]
    #[verifier::rlimit(40)]
    fn run(&mut self, bus: &mut FlatBus, ins: Instr)
        requires old(bus).wf(), old(self).nmi_count < u64::MAX,
        ensures final(bus).wf(), machine(*final(self), *final(bus)) == run_spec(machine(*old(self), *old(bus)), ins),
    {
        match ins {
            Instr::Imm(_) | Instr::Read(_, _) | Instr::ImmU(_) => self.run_operand(bus, ins),
            Instr::Store(_, _) | Instr::Unstable(_, _) | Instr::Modify(_, _) => self.run_store(bus, ins),
            Instr::Acc(_) | Instr::Implied(_) | Instr::Pha | Instr::Php | Instr::Pla | Instr::Plp => self.run_single(bus, ins),
            _ => self.run_jump(bus, ins),
        }
    }

    /// Execute one already-fetched opcode.
    #[verifier::spinoff_prover]
    #[verifier::rlimit(40)]
    pub fn execute(&mut self, bus: &mut FlatBus, opcode: u8)
        requires old(bus).wf(), old(self).nmi_count < u64::MAX,
        ensures
            final(bus).wf(),
            machine(*final(self), *final(bus)) == execute_spec(machine(*old(self), *old(bus)), opcode),
    {
        proof { reveal(execute_spec); }
        let ins = decode(opcode);
        self.run(bus, ins);
    }

    /// Execute one instruction, or service a pending interrupt.
    #[verifier::spinoff_prover]
    #[verifier::rlimit(40)]
    pub fn step(&mut self, bus: &mut FlatBus)
        requires old(bus).wf(), old(self).nmi_count < u64::MAX - 1,
        ensures final(bus).wf(), machine(*final(self), *final(bus)) == step_spec(machine(*old(self), *old(bus))),
    {
        match self.pending_interrupt {
            Some(InterruptKind::Nmi) => {
                self.pending_interrupt = None;
                self.nmi_count = self.nmi_count + 1;
                self.interrupt(bus, NMI_VECTOR, false);
            },
            Some(InterruptKind::Irq) => {
                self.pending_interrupt = None;
                self.interrupt(bus, IRQ_VECTOR, true);
            },
            None => {
                let opcode = self.fetch(bus);
                self.execute(bus, opcode);
                self.poll_interrupts();
            },
        }
    }

    /// Power-on: PC from the reset vector, SP=$FD, P=$24.
    pub fn power_on(&mut self, bus: &FlatBus)
        requires bus.wf(),
        ensures
            final(self).pc == word(bus.mem@[0xFFFC], bus.mem@[0xFFFD]),
            final(self).sp == 0xFD && final(self).p == 0x24 && final(self).cycles == 0,
            !final(self).nmi_pending && !final(self).irq_sample && final(self).pending_interrupt.is_none(),
            final(self).a == old(self).a && final(self).x == old(self).x && final(self).y == old(self).y,
    {
        let lo = bus.read(0xFFFC);
        let hi = bus.read(0xFFFD);
        self.power_on_with_vector(lo, hi);
    }

    /// Reset: PC from the reset vector, SP lowered by three, I set.
    pub fn reset(&mut self, bus: &FlatBus)
        requires bus.wf(),
        ensures
            final(self).pc == word(bus.mem@[0xFFFC], bus.mem@[0xFFFD]),
            final(self).sp == (old(self).sp - 3) % 256,
            final(self).p == old(self).p | I,
            final(self).a == old(self).a && final(self).x == old(self).x && final(self).y == old(self).y,
    {
        let lo = bus.read(0xFFFC);
        let hi = bus.read(0xFFFD);
        self.reset_with_vector(lo, hi);
    }
}
/// The arbiter's control state, without the byte in transit.
pub open spec fn control(d: Dma) -> Dma {
    Dma { oam_latch: 0, ..d }
}

proof fn lemma_stolen_control(m: Machine)
    ensures
        control(stolen(m).dma) == crate::dma::stolen_cycle(control(m.dma)),
        stolen(m).mem == m.mem,
        m.oam.len() == 256 ==> stolen(m).oam.len() == 256,
        stolen(m).cpu.nmi_count == m.cpu.nmi_count,
        m.dma.wf() ==> stolen(m).dma.wf(),
        stolen(m).cpu.cycles == inc64(m.cpu.cycles),
{
}

proof fn lemma_stolen_n_snoc(m: Machine, k: nat)
    ensures stolen_n(m, k + 1) == stolen(stolen_n(m, k)),
    decreases k,
{
    reveal_with_fuel(stolen_n, 2);
    assert(stolen_n(m, k + 1) == stolen_n(stolen(m), k));
    if k > 0 {
        lemma_stolen_n_snoc(stolen(m), (k - 1) as nat);
        assert(stolen_n(m, k) == stolen_n(stolen(m), (k - 1) as nat));
    }
}

proof fn lemma_stolen_n_control(m: Machine, k: nat)
    ensures
        control(stolen_n(m, k).dma) == crate::dma::after_stolen(control(m.dma), k),
        stolen_n(m, k).mem == m.mem,
        m.oam.len() == 256 ==> stolen_n(m, k).oam.len() == 256,
        stolen_n(m, k).cpu.nmi_count == m.cpu.nmi_count,
        m.dma.wf() ==> stolen_n(m, k).dma.wf(),
        m.cpu.cycles + k <= u64::MAX ==> stolen_n(m, k).cpu.cycles == m.cpu.cycles + k,
    decreases k,
{
    if k > 0 {
        lemma_stolen_control(m);
        lemma_stolen_n_control(stolen(m), (k - 1) as nat);
    }
}

/// From a quiet arbiter, the waiting DMA ends after `stall_len` stolen
/// cycles, holding the CPU for every one of them and releasing it after.
proof fn lemma_stall_ends(m: Machine)
    requires dma_quiet(m.dma),
    ensures
        forall|j: nat| j < stall_len(m.dma) ==> #[trigger] stolen_n(m, j).dma.halt_pending(),
        !stolen_n(m, stall_len(m.dma)).dma.halt_pending(),
        !stolen_n(m, stall_len(m.dma)).dma.halted,
{
    let n = stall_len(m.dma);
    lemma_stolen_n_control(m, n);
    if m.dma.oam_req {
        crate::dma::lemma_oam_dma_length(control(m.dma));
        assert forall|j: nat| j < n implies #[trigger] stolen_n(m, j).dma.halt_pending() by {
            lemma_stolen_n_control(m, j);
            assert(crate::dma::after_stolen(control(m.dma), j).halt_pending());
        }
        assert(crate::dma::after_stolen(control(m.dma), n) == control(stolen_n(m, n).dma));
    }
}

proof fn lemma_stall_keeps_memory(m: Machine)
    ensures pumped(m).mem == m.mem,
{
    lemma_stolen_n_control(m, stall_len(m.dma));
}

/// Law: servicing a pending interrupt takes seven cycles, clears the
/// pending interrupt and skips the next end-of-instruction poll; an NMI
/// jumps through $FFFA, an IRQ through $FFFE when no NMI is latched or
/// arriving.
#[verifier::spinoff_prover]
#[verifier::rlimit(100)]
pub proof fn lemma_interrupt_sequence(m: Machine)
    requires
        m.cpu.pending_interrupt is Some,
        m.cpu.cycles + 7 <= u64::MAX,
        m.mem.len() == 0x10000,
        dma_quiet(m.dma), !m.dma.oam_req,
    ensures
        step_spec(m).cpu.cycles == m.cpu.cycles + 7,
        step_spec(m).cpu.pending_interrupt is None,
        step_spec(m).cpu.suppress_instruction_poll,
        m.cpu.pending_interrupt == Some(InterruptKind::Nmi)
            ==> step_spec(m).cpu.pc == word(m.mem[0xFFFA], m.mem[0xFFFB]),
        m.cpu.pending_interrupt == Some(InterruptKind::Irq) && !m.cpu.nmi_pending && !m.nmi
            ==> step_spec(m).cpu.pc == word(m.mem[0xFFFE], m.mem[0xFFFF]),
{
}

/// Law: a read through Absolute,X (`LDA $nnnn,X` after its opcode fetch)
/// takes three more cycles, plus one when the indexed address crosses a
/// page.
pub proof fn lemma_indexed_read_cycles(m: Machine)
    requires
        m.cpu.cycles + 4 <= u64::MAX,
        m.mem.len() == 0x10000,
        dma_quiet(m.dma), !m.dma.oam_req,
    ensures
        ({
            let base = word(m.mem[m.cpu.pc as int], m.mem[inc16(m.cpu.pc) as int]);
            let addr = ((base + m.cpu.x) % 0x10000) as u16;
            execute_spec(m, 0xBD).cpu.cycles == m.cpu.cycles + (if base / 256 != addr / 256 { 4int } else { 3int })
        }),
{
    reveal(execute_spec);
    assert(decode_spec(0xBD) == Instr::Read(Addr::Abx(true), Alu::Lda)) by { reveal(decode_spec); }
}

/// Law: after a write to $4014 the CPU's next read or internal cycle waits
/// for the whole OAM transfer: 513 stolen cycles, or 514 when the halt
/// falls on a get cycle, every one counted; memory is unchanged, the
/// arbiter is quiet again, and then the CPU's own cycle follows.
pub proof fn lemma_oam_dma_stall(m: Machine)
    requires
        dma_quiet(m.dma), m.dma.oam_req,
        m.cpu.cycles + 515 <= u64::MAX,
        m.mem.len() == 0x10000, m.oam.len() == 256,
    ensures
        pumped(m).cpu.cycles == m.cpu.cycles + (if m.dma.get_cycle { 514int } else { 513int }),
        rcycle(m).cpu.cycles == pumped(m).cpu.cycles + 1,
        pumped(m).mem == m.mem,
        pumped(m).oam.len() == 256,
        dma_quiet(pumped(m).dma) && !pumped(m).dma.oam_req,
{
    let n = stall_len(m.dma);
    lemma_stall_ends(m);
    lemma_stolen_n_control(m, n);
}

/// Sprite memory holds the first `j` bytes of page `p`, written from
/// pointer `a0` on, and the pointer has advanced by `j`.
pub open spec fn oam_copied(s: Machine, a0: u8, p: u8, j: int) -> bool {
    &&& s.oam.len() == 256
    &&& s.oam_addr == ((a0 + j) % 256) as u8
    &&& forall|k: int| 0 <= k < j ==> #[trigger] s.oam[(a0 + k) % 256] == s.mem[p * 256 + k]
}

proof fn lemma_oam_pair_copies(s: Machine, j: int, a0: u8, p: u8)
    requires
        crate::dma::oam_phase(s.dma, j), s.dma.oam_page == p,
        oam_copied(s, a0, p, j), s.mem.len() == 0x10000,
    ensures
        oam_copied(stolen(stolen(s)), a0, p, j + 1),
        stolen(stolen(s)).mem == s.mem,
        stolen(stolen(s)).dma.oam_page == p,
        j < 255 ==> crate::dma::oam_phase(stolen(stolen(s)).dma, j + 1),
{
    let s1 = stolen(s);
    let s2 = stolen(s1);
    let b = s.mem[p * 256 + j];
    assert(s1.dma.oam_latch == b && s1.dma.oam_has_latch);
    assert(s2.oam == s.oam.update(s.oam_addr as int, b));
    assert forall|k: int| 0 <= k < j + 1 implies #[trigger] s2.oam[(a0 + k) % 256] == s2.mem[p * 256 + k] by {
        if k < j {
            assert((a0 + k) % 256 != (a0 + j) % 256) by (nonlinear_arith)
                requires 0 <= k < j, j < 256, 0 <= a0 < 256;
        }
    }
}

proof fn lemma_oam_copy_run(s: Machine, j: int, a0: u8, p: u8)
    requires
        crate::dma::oam_phase(s.dma, j), s.dma.oam_page == p,
        oam_copied(s, a0, p, j), s.mem.len() == 0x10000,
    ensures
        oam_copied(stolen_n(s, (2 * (256 - j)) as nat), a0, p, 256),
        stolen_n(s, (2 * (256 - j)) as nat).mem == s.mem,
    decreases 256 - j,
{
    reveal_with_fuel(stolen_n, 3);
    lemma_oam_pair_copies(s, j, a0, p);
    let s2 = stolen(stolen(s));
    let m = (2 * (256 - j)) as nat;
    assert(stolen_n(s, m) == stolen_n(s2, (m - 2) as nat));
    if j < 255 {
        lemma_oam_copy_run(s2, j + 1, a0, p);
    }
}

/// Law: an OAM transfer copies the requested page into sprite memory,
/// starting at the sprite-memory pointer and wrapping around, and leaves
/// the pointer where it started.
pub proof fn lemma_oam_dma_copies_page(m: Machine)
    requires
        dma_quiet(m.dma), m.dma.oam_req,
        m.mem.len() == 0x10000, m.oam.len() == 256,
    ensures
        forall|k: int| 0 <= k < 256 ==> #[trigger] pumped(m).oam[(m.oam_addr + k) % 256] == m.mem[m.dma.oam_page * 256 + k],
        pumped(m).oam_addr == m.oam_addr,
{
    reveal_with_fuel(stolen_n, 3);
    let a0 = m.oam_addr;
    let p = m.dma.oam_page;
    let s1 = stolen(m);
    if !m.dma.get_cycle {
        assert(crate::dma::oam_phase(s1.dma, 0));
        assert(oam_copied(s1, a0, p, 0));
        lemma_oam_copy_run(s1, 0, a0, p);
        assert(stolen_n(m, 513) == stolen_n(s1, 512));
    } else {
        let s2 = stolen(s1);
        assert(crate::dma::oam_phase(s2.dma, 0));
        assert(oam_copied(s2, a0, p, 0));
        lemma_oam_copy_run(s2, 0, a0, p);
        assert(stolen_n(m, 514) == stolen_n(s2, 512));
    }
}

/// The programmer-visible registers agree.
pub open spec fn same_registers(a: Cpu, b: Cpu) -> bool {
    a.a == b.a && a.x == b.x && a.y == b.y && a.sp == b.sp && a.p == b.p && a.pc == b.pc
}

proof fn lemma_stolen_n_registers(m: Machine, k: nat)
    ensures same_registers(stolen_n(m, k).cpu, m.cpu), stolen_n(m, k).mem == m.mem,
    decreases k,
{
    if k > 0 {
        lemma_stolen_n_registers(stolen(m), (k - 1) as nat);
    }
}

/// A halt-able cycle (read or internal) changes no register and no memory.
proof fn lemma_rcycle_registers(m: Machine)
    ensures same_registers(rcycle(m).cpu, m.cpu), rcycle(m).mem == m.mem,
{
    lemma_stolen_n_registers(m, stall_len(m.dma));
}

/// Z and N describe the value; every other flag is kept.
proof fn lemma_zn_flags(p: u8, v: u8)
    ensures
        (with_zn(p, v) & Z != 0) == (v == 0),
        (with_zn(p, v) & N != 0) == (v >= 0x80),
        with_zn(p, v) & 0x7D == p & 0x7D,
        (with_zn(p, v) & C != 0) == (p & C != 0),
{
    assert((with_zn(p, v) & 0x02 != 0) == (v == 0) && (with_zn(p, v) & 0x80 != 0) == (v >= 0x80)
        && with_zn(p, v) & 0x7D == p & 0x7D && (with_zn(p, v) & 1 != 0) == (p & 1 != 0)) by (bit_vector);
}

proof fn lemma_implied_run(m: Machine, i: Imp)
    ensures
        run_spec(m, Instr::Implied(i)) == with_cpu(rcycle(m), imp_s(rcycle(m).cpu, i)),
        same_registers(rcycle(m).cpu, m.cpu), rcycle(m).mem == m.mem,
{
    lemma_rcycle_registers(m);
}

proof fn lemma_inx(m: Machine)
    ensures
        ({
            let n = execute_spec(m, 0xE8).cpu;
            &&& n.x == (m.cpu.x + 1) % 256 && n.y == m.cpu.y
            &&& (n.p & Z != 0) == (n.x == 0)
            &&& (n.p & N != 0) == (n.x >= 0x80)
            &&& n.p & 0x7D == m.cpu.p & 0x7D
            &&& n.a == m.cpu.a && n.sp == m.cpu.sp && n.pc == m.cpu.pc
        }),
        execute_spec(m, 0xE8).mem == m.mem,
{
    lemma_execute_implied(m, 0xE8, Imp::Inx);
    let c = rcycle(m).cpu;
    lemma_zn_flags(c.p, imp_s(c, Imp::Inx).x);
}

proof fn lemma_dex(m: Machine)
    ensures
        ({
            let n = execute_spec(m, 0xCA).cpu;
            &&& n.x == (m.cpu.x + 255) % 256 && n.y == m.cpu.y
            &&& (n.p & Z != 0) == (n.x == 0)
            &&& (n.p & N != 0) == (n.x >= 0x80)
            &&& n.p & 0x7D == m.cpu.p & 0x7D
            &&& n.a == m.cpu.a && n.sp == m.cpu.sp && n.pc == m.cpu.pc
        }),
        execute_spec(m, 0xCA).mem == m.mem,
{
    lemma_execute_implied(m, 0xCA, Imp::Dex);
    let c = rcycle(m).cpu;
    lemma_zn_flags(c.p, imp_s(c, Imp::Dex).x);
}

proof fn lemma_iny(m: Machine)
    ensures
        ({
            let n = execute_spec(m, 0xC8).cpu;
            &&& n.y == (m.cpu.y + 1) % 256 && n.x == m.cpu.x
            &&& (n.p & Z != 0) == (n.y == 0)
            &&& (n.p & N != 0) == (n.y >= 0x80)
            &&& n.p & 0x7D == m.cpu.p & 0x7D
            &&& n.a == m.cpu.a && n.sp == m.cpu.sp && n.pc == m.cpu.pc
        }),
        execute_spec(m, 0xC8).mem == m.mem,
{
    lemma_execute_implied(m, 0xC8, Imp::Iny);
    let c = rcycle(m).cpu;
    lemma_zn_flags(c.p, imp_s(c, Imp::Iny).y);
}

proof fn lemma_dey(m: Machine)
    ensures
        ({
            let n = execute_spec(m, 0x88).cpu;
            &&& n.y == (m.cpu.y + 255) % 256 && n.x == m.cpu.x
            &&& (n.p & Z != 0) == (n.y == 0)
            &&& (n.p & N != 0) == (n.y >= 0x80)
            &&& n.p & 0x7D == m.cpu.p & 0x7D
            &&& n.a == m.cpu.a && n.sp == m.cpu.sp && n.pc == m.cpu.pc
        }),
        execute_spec(m, 0x88).mem == m.mem,
{
    lemma_execute_implied(m, 0x88, Imp::Dey);
    let c = rcycle(m).cpu;
    lemma_zn_flags(c.p, imp_s(c, Imp::Dey).y);
}

proof fn lemma_execute_implied(m: Machine, op: u8, i: Imp)
    requires
        (op == 0xE8 && i == Imp::Inx) || (op == 0xCA && i == Imp::Dex) || (op == 0xC8 && i == Imp::Iny)
            || (op == 0x88 && i == Imp::Dey) || (op == 0xAA && i == Imp::Tax) || (op == 0xA8 && i == Imp::Tay)
            || (op == 0x8A && i == Imp::Txa) || (op == 0x98 && i == Imp::Tya) || (op == 0xBA && i == Imp::Tsx)
            || (op == 0x9A && i == Imp::Txs) || (op == 0x18 && i == Imp::Clc) || (op == 0x38 && i == Imp::Sec)
            || (op == 0x58 && i == Imp::Cli) || (op == 0x78 && i == Imp::Sei) || (op == 0xB8 && i == Imp::Clv)
            || (op == 0xD8 && i == Imp::Cld) || (op == 0xF8 && i == Imp::Sed) || (op == 0xEA && i == Imp::Nop),
    ensures
        execute_spec(m, op) == with_cpu(rcycle(m), imp_s(rcycle(m).cpu, i)),
        same_registers(rcycle(m).cpu, m.cpu), rcycle(m).mem == m.mem,
{
    reveal(execute_spec);
    assert(decode_spec(op) == Instr::Implied(i)) by { reveal(decode_spec); }
    lemma_implied_run(m, i);
}

/// Law: INX, DEX, INY and DEY (opcodes $E8, $CA, $C8, $88; state after the
/// opcode fetch) add or subtract one, modulo 256, to X or Y alone, set Z
/// exactly when the new value is zero and N exactly when it is $80 or more,
/// and keep every other flag, register and memory byte.
pub proof fn lemma_index_step(m: Machine, op: u8)
    requires op == 0xE8 || op == 0xCA || op == 0xC8 || op == 0x88,
    ensures
        ({
            let n = execute_spec(m, op).cpu;
            let v = if op == 0xE8 { n.x } else if op == 0xCA { n.x } else { n.y };
            &&& op == 0xE8 ==> n.x == (m.cpu.x + 1) % 256 && n.y == m.cpu.y
            &&& op == 0xCA ==> n.x == (m.cpu.x + 255) % 256 && n.y == m.cpu.y
            &&& op == 0xC8 ==> n.y == (m.cpu.y + 1) % 256 && n.x == m.cpu.x
            &&& op == 0x88 ==> n.y == (m.cpu.y + 255) % 256 && n.x == m.cpu.x
            &&& (n.p & Z != 0) == (v == 0)
            &&& (n.p & N != 0) == (v >= 0x80)
            &&& n.p & 0x7D == m.cpu.p & 0x7D
            &&& n.a == m.cpu.a && n.sp == m.cpu.sp && n.pc == m.cpu.pc
        }),
        execute_spec(m, op).mem == m.mem,
{
    if op == 0xE8 { lemma_inx(m); } else if op == 0xCA { lemma_dex(m); } else if op == 0xC8 { lemma_iny(m); } else { lemma_dey(m); }
}

proof fn lemma_tax(m: Machine)
    ensures
        ({
            let n = execute_spec(m, 0xAA).cpu;
            &&& n.x == m.cpu.a && n.a == m.cpu.a && n.y == m.cpu.y && n.sp == m.cpu.sp && n.pc == m.cpu.pc
            &&& (n.p & Z != 0) == (m.cpu.a == 0)
            &&& (n.p & N != 0) == (m.cpu.a >= 0x80)
            &&& n.p & 0x7D == m.cpu.p & 0x7D
        }),
        execute_spec(m, 0xAA).mem == m.mem,
{
    lemma_execute_implied(m, 0xAA, Imp::Tax);
    let c = rcycle(m).cpu;
    lemma_zn_flags(c.p, c.a);
}

proof fn lemma_tay(m: Machine)
    ensures
        ({
            let n = execute_spec(m, 0xA8).cpu;
            &&& n.y == m.cpu.a && n.a == m.cpu.a && n.x == m.cpu.x && n.sp == m.cpu.sp && n.pc == m.cpu.pc
            &&& (n.p & Z != 0) == (m.cpu.a == 0)
            &&& (n.p & N != 0) == (m.cpu.a >= 0x80)
            &&& n.p & 0x7D == m.cpu.p & 0x7D
        }),
        execute_spec(m, 0xA8).mem == m.mem,
{
    lemma_execute_implied(m, 0xA8, Imp::Tay);
    let c = rcycle(m).cpu;
    lemma_zn_flags(c.p, c.a);
}

proof fn lemma_txa(m: Machine)
    ensures
        ({
            let n = execute_spec(m, 0x8A).cpu;
            &&& n.a == m.cpu.x && n.x == m.cpu.x && n.y == m.cpu.y && n.sp == m.cpu.sp && n.pc == m.cpu.pc
            &&& (n.p & Z != 0) == (m.cpu.x == 0)
            &&& (n.p & N != 0) == (m.cpu.x >= 0x80)
            &&& n.p & 0x7D == m.cpu.p & 0x7D
        }),
        execute_spec(m, 0x8A).mem == m.mem,
{
    lemma_execute_implied(m, 0x8A, Imp::Txa);
    let c = rcycle(m).cpu;
    lemma_zn_flags(c.p, c.x);
}

proof fn lemma_tya(m: Machine)
    ensures
        ({
            let n = execute_spec(m, 0x98).cpu;
            &&& n.a == m.cpu.y && n.x == m.cpu.x && n.y == m.cpu.y && n.sp == m.cpu.sp && n.pc == m.cpu.pc
            &&& (n.p & Z != 0) == (m.cpu.y == 0)
            &&& (n.p & N != 0) == (m.cpu.y >= 0x80)
            &&& n.p & 0x7D == m.cpu.p & 0x7D
        }),
        execute_spec(m, 0x98).mem == m.mem,
{
    lemma_execute_implied(m, 0x98, Imp::Tya);
    let c = rcycle(m).cpu;
    lemma_zn_flags(c.p, c.y);
}

proof fn lemma_tsx(m: Machine)
    ensures
        ({
            let n = execute_spec(m, 0xBA).cpu;
            &&& n.x == m.cpu.sp && n.a == m.cpu.a && n.y == m.cpu.y && n.sp == m.cpu.sp && n.pc == m.cpu.pc
            &&& (n.p & Z != 0) == (m.cpu.sp == 0)
            &&& (n.p & N != 0) == (m.cpu.sp >= 0x80)
            &&& n.p & 0x7D == m.cpu.p & 0x7D
        }),
        execute_spec(m, 0xBA).mem == m.mem,
{
    lemma_execute_implied(m, 0xBA, Imp::Tsx);
    let c = rcycle(m).cpu;
    lemma_zn_flags(c.p, c.sp);
}

/// Law: the register transfers TAX, TAY, TXA, TYA and TSX ($AA, $A8, $8A,
/// $98, $BA; state after the opcode fetch) copy the source register into
/// the destination, leave the other registers, set Z and N from the copied
/// value and keep every other flag; TXS ($9A) copies X into SP and changes
/// no flag.
pub proof fn lemma_transfers(m: Machine, op: u8)
    requires op == 0xAA || op == 0xA8 || op == 0x8A || op == 0x98 || op == 0xBA || op == 0x9A,
    ensures
        ({
            let n = execute_spec(m, op).cpu;
            let src = if op == 0xAA || op == 0xA8 { m.cpu.a } else if op == 0x8A || op == 0x9A { m.cpu.x }
                else if op == 0x98 { m.cpu.y } else { m.cpu.sp };
            &&& op == 0xAA ==> n.x == src && n.a == m.cpu.a && n.y == m.cpu.y && n.sp == m.cpu.sp
            &&& op == 0xA8 ==> n.y == src && n.a == m.cpu.a && n.x == m.cpu.x && n.sp == m.cpu.sp
            &&& op == 0x8A ==> n.a == src && n.x == m.cpu.x && n.y == m.cpu.y && n.sp == m.cpu.sp
            &&& op == 0x98 ==> n.a == src && n.x == m.cpu.x && n.y == m.cpu.y && n.sp == m.cpu.sp
            &&& op == 0xBA ==> n.x == src && n.a == m.cpu.a && n.y == m.cpu.y && n.sp == m.cpu.sp
            &&& op == 0x9A ==> n.sp == src && n.a == m.cpu.a && n.x == m.cpu.x && n.y == m.cpu.y && n.p == m.cpu.p
            &&& op != 0x9A ==> (n.p & Z != 0) == (src == 0) && (n.p & N != 0) == (src >= 0x80) && n.p & 0x7D == m.cpu.p & 0x7D
            &&& n.pc == m.cpu.pc
        }),
        execute_spec(m, op).mem == m.mem,
{
    if op == 0xAA { lemma_tax(m); } else if op == 0xA8 { lemma_tay(m); } else if op == 0x8A { lemma_txa(m); }
    else if op == 0x98 { lemma_tya(m); } else if op == 0xBA { lemma_tsx(m); }
    else { lemma_execute_implied(m, 0x9A, Imp::Txs); }
}

/// The flag instruction's effect on P.
proof fn lemma_flag_op(p: u8)
    ensures
        with_flag(p, C, false) == p & 0xFE && with_flag(p, C, true) == p | 0x01,
        with_flag(p, I, false) == p & 0xFB && with_flag(p, I, true) == p | 0x04,
        with_flag(p, V, false) == p & 0xBF,
        with_flag(p, D, false) == p & 0xF7 && with_flag(p, D, true) == p | 0x08,
{
    assert(p & !1u8 == p & 0xFE && p & !4u8 == p & 0xFB && p & !0x40u8 == p & 0xBF && p & !8u8 == p & 0xF7) by (bit_vector);
}

/// Law: CLC, SEC, CLI, SEI, CLV, CLD and SED ($18, $38, $58, $78, $B8,
/// $D8, $F8; state after the opcode fetch) clear or set just their flag
/// bit of P, and NOP ($EA) changes nothing; no register or memory byte
/// changes.
pub proof fn lemma_flag_instructions(m: Machine, op: u8)
    requires op == 0x18 || op == 0x38 || op == 0x58 || op == 0x78 || op == 0xB8 || op == 0xD8 || op == 0xF8 || op == 0xEA,
    ensures
        ({
            let n = execute_spec(m, op).cpu;
            let p = m.cpu.p;
            &&& n.p == (if op == 0x18 { p & 0xFE } else if op == 0x38 { p | 0x01 } else if op == 0x58 { p & 0xFB }
                else if op == 0x78 { p | 0x04 } else if op == 0xB8 { p & 0xBF } else if op == 0xD8 { p & 0xF7 }
                else if op == 0xF8 { p | 0x08 } else { p })
            &&& n.a == m.cpu.a && n.x == m.cpu.x && n.y == m.cpu.y && n.sp == m.cpu.sp && n.pc == m.cpu.pc
        }),
        execute_spec(m, op).mem == m.mem,
{
    let i = if op == 0x18 { Imp::Clc } else if op == 0x38 { Imp::Sec } else if op == 0x58 { Imp::Cli }
        else if op == 0x78 { Imp::Sei } else if op == 0xB8 { Imp::Clv } else if op == 0xD8 { Imp::Cld }
        else if op == 0xF8 { Imp::Sed } else { Imp::Nop };
    lemma_execute_implied(m, op, i);
    lemma_flag_op(m.cpu.p);
}

proof fn lemma_execute_imm(m: Machine, op: u8, alu: Alu)
    requires
        (op == 0xA9 && alu == Alu::Lda) || (op == 0x29 && alu == Alu::And) || (op == 0x09 && alu == Alu::Ora)
            || (op == 0x49 && alu == Alu::Eor) || (op == 0x69 && alu == Alu::Adc) || (op == 0xC9 && alu == Alu::Cmp),
    ensures
        execute_spec(m, op) == with_cpu(fetched(m).0, alu_s(fetched(m).0.cpu, alu, m.mem[m.cpu.pc as int])),
        same_registers(Cpu { pc: m.cpu.pc, ..fetched(m).0.cpu }, m.cpu),
        fetched(m).0.cpu.pc == inc16(m.cpu.pc),
        fetched(m).0.mem == m.mem,
{
    reveal(execute_spec);
    assert(decode_spec(op) == Instr::Imm(alu)) by { reveal(decode_spec); }
    lemma_rcycle_registers(m);
}

/// Law: the immediate-operand loads and logic operations LDA, AND, ORA and
/// EOR ($A9, $29, $09, $49; state after the opcode fetch, operand byte at
/// PC) put the operand, or A combined with it by and / or / exclusive-or,
/// into A, set Z and N from the result, keep every other flag and register
/// and advance PC past the operand.
pub proof fn lemma_immediate_logic(m: Machine, op: u8)
    requires op == 0xA9 || op == 0x29 || op == 0x09 || op == 0x49,
    ensures
        ({
            let n = execute_spec(m, op).cpu;
            let v = m.mem[m.cpu.pc as int];
            let r = if op == 0xA9 { v } else if op == 0x29 { m.cpu.a & v } else if op == 0x09 { m.cpu.a | v } else { m.cpu.a ^ v };
            &&& n.a == r
            &&& (n.p & Z != 0) == (r == 0)
            &&& (n.p & N != 0) == (r >= 0x80)
            &&& n.p & 0x7D == m.cpu.p & 0x7D
            &&& n.x == m.cpu.x && n.y == m.cpu.y && n.sp == m.cpu.sp
            &&& n.pc == inc16(m.cpu.pc)
        }),
        execute_spec(m, op).mem == m.mem,
{
    let alu = if op == 0xA9 { Alu::Lda } else if op == 0x29 { Alu::And } else if op == 0x09 { Alu::Ora } else { Alu::Eor };
    lemma_execute_imm(m, op, alu);
    let c = fetched(m).0.cpu;
    lemma_zn_flags(c.p, alu_s(c, alu, m.mem[m.cpu.pc as int]).a);
}

/// Law: ADC # ($69) adds the operand and the carry to A modulo 256, sets C
/// exactly when the unsigned sum exceeds $FF, and sets Z and N from the
/// result; CMP # ($C9) leaves A and sets C exactly when A >= operand, Z
/// exactly when they are equal and N from bit 7 of A - operand (mod 256).
pub proof fn lemma_immediate_arith(m: Machine, op: u8)
    requires op == 0x69 || op == 0xC9,
    ensures
        ({
            let n = execute_spec(m, op).cpu;
            let v = m.mem[m.cpu.pc as int];
            let cin = m.cpu.p % 2;
            &&& op == 0x69 ==> n.a == (m.cpu.a + v + cin) % 256 && (n.p & C != 0) == (m.cpu.a + v + cin > 0xFF)
                && (n.p & Z != 0) == (n.a == 0) && (n.p & N != 0) == (n.a >= 0x80)
            &&& op == 0xC9 ==> n.a == m.cpu.a && (n.p & C != 0) == (m.cpu.a >= v) && (n.p & Z != 0) == (m.cpu.a == v)
                && (n.p & N != 0) == ((m.cpu.a - v + 256) % 256 >= 0x80)
            &&& n.x == m.cpu.x && n.y == m.cpu.y && n.sp == m.cpu.sp && n.pc == inc16(m.cpu.pc)
        }),
        execute_spec(m, op).mem == m.mem,
{
    let alu = if op == 0x69 { Alu::Adc } else { Alu::Cmp };
    lemma_execute_imm(m, op, alu);
    let c = fetched(m).0.cpu;
    let v = m.mem[m.cpu.pc as int];
    let p = c.p;
    if op == 0x69 {
        let sum = adc_sum(c.a, v, p);
        let r = (sum % 256) as u8;
        let p1 = with_flag(p, C, sum > 0xFF);
        let p2 = with_flag(p1, V, crate::cpu::adc_overflow(c.a, v, p));
        crate::cpu::lemma_flag_bit(p, sum > 0xFF, C);
        crate::cpu::lemma_flags_keep_c(p1, crate::cpu::adc_overflow(c.a, v, p), V);
        lemma_zn_flags(p2, r);
    } else {
        let d = ((c.a - v) % 256) as u8;
        let p1 = with_flag(p, C, c.a >= v);
        crate::cpu::lemma_flag_bit(p, c.a >= v, C);
        lemma_zn_flags(p1, d);
    }
}

} // verus!
