//! Ricoh 2A03 CPU state (NMOS 6502 without decimal mode): registers, the
//! ALU operations with their exact flag behaviour, and the interrupt-poll
//! state machine that decides which interrupt is taken after an instruction.

use vstd::prelude::*;

pub mod flags;
pub mod step;

verus! {

use crate::cpu::flags::{B, C, I, N, U, V, Z};

pub const NMI_VECTOR: u16 = 0xFFFA;
pub const RESET_VECTOR: u16 = 0xFFFC;
pub const IRQ_VECTOR: u16 = 0xFFFE;
pub const STACK_BASE: u16 = 0x0100;

#[derive(Debug, Clone, Copy, PartialEq, Eq, Structural)]
pub enum InterruptKind {
    Nmi,
    Irq,
}

/// What the interrupt lines looked like at the last poll point.
#[derive(Debug, Clone, Copy, PartialEq, Eq, Structural)]
pub struct InterruptPoll {
    pub nmi: bool,
    pub irq: bool,
    pub i: bool,
}

impl InterruptPoll {
    pub fn cleared() -> (r: InterruptPoll)
        ensures r == (InterruptPoll { nmi: false, irq: false, i: false }),
    {
        InterruptPoll { nmi: false, irq: false, i: false }
    }
}

#[derive(Debug, Clone)]
pub struct Cpu {
    pub a: u8,
    pub x: u8,
    pub y: u8,
    pub sp: u8,
    pub pc: u16,
    pub p: u8,
    pub cycles: u64,
    pub nmi_count: u64,
    pub trace: bool,
    /// NMI edge-detector output, held until a poll point.
    pub nmi_pending: bool,
    /// IRQ level sampled at the end of the previous cycle.
    pub irq_sample: bool,
    pub last_poll: InterruptPoll,
    pub pending_interrupt: Option<InterruptKind>,
    pub suppress_instruction_poll: bool,
}

/// `p` with `flag` set (`on`) or cleared.
pub open spec fn with_flag(p: u8, flag: u8, on: bool) -> u8 {
    if on { p | flag } else { p & !flag }
}

/// `p` with Z and N describing `v`.
pub open spec fn with_zn(p: u8, v: u8) -> u8 {
    with_flag(with_flag(p, Z, v == 0), N, v >= 0x80)
}

/// Two's-complement value of a byte.
pub open spec fn signed(v: u8) -> int {
    if v >= 0x80 { v - 256 } else { v as int }
}

pub open spec fn carry_in(p: u8) -> int {
    p as int % 2
}

/// The sum that ADC forms (unsigned, before truncation).
pub open spec fn adc_sum(a: u8, v: u8, p: u8) -> int {
    a + v + carry_in(p)
}

/// Signed overflow of ADC: the signed sum leaves -128..=127.
pub open spec fn adc_overflow(a: u8, v: u8, p: u8) -> bool {
    let s = signed(a) + signed(v) + carry_in(p);
    s < -128 || s > 127
}

pub open spec fn adc_p(a: u8, v: u8, p: u8) -> u8 {
    let r = (adc_sum(a, v, p) % 256) as u8;
    with_zn(with_flag(with_flag(p, C, adc_sum(a, v, p) > 0xFF), V, adc_overflow(a, v, p)), r)
}

pub open spec fn cpu_with(c: Cpu, a: u8, p: u8) -> Cpu {
    Cpu { a, p, ..c }
}

proof fn lemma_flag_bit(p: u8, on: bool, flag: u8)
    requires flag == C || flag == Z || flag == I || flag == B || flag == U || flag == V || flag == N,
    ensures (with_flag(p, flag, on) & flag != 0) == on,
{
    if on {
        assert((p | flag) & flag != 0) by (bit_vector) requires flag != 0;
    } else {
        assert((p & !flag) & flag == 0) by (bit_vector);
    }
}

proof fn lemma_overflow_bits(a: u8, v: u8, c: u8)
    requires c <= 1,
    ensures
        ((!(a ^ v) & (a ^ (((a as int + v as int + c as int) % 256) as u8)) & 0x80) != 0)
            == ({
                let s = (if a >= 0x80 { a - 256 } else { a as int }) + (if v >= 0x80 { v - 256 } else { v as int }) + c;
                s < -128 || s > 127
            }),
{
    assert(((!(a ^ v) & (a ^ (((a as int + v as int + c as int) % 256) as u8)) & 0x80) != 0)
        == ({
            let s = (if a >= 0x80 { a - 256 } else { a as int }) + (if v >= 0x80 { v - 256 } else { v as int }) + c;
            s < -128 || s > 127
        })) by (bit_vector)
        requires c <= 1;
}

impl Cpu {
    pub open spec fn power_up_state() -> Cpu {
        Cpu {
            a: 0,
            x: 0,
            y: 0,
            sp: 0xFD,
            pc: 0,
            p: 0x24,
            cycles: 0,
            nmi_count: 0,
            trace: false,
            nmi_pending: false,
            irq_sample: false,
            last_poll: InterruptPoll { nmi: false, irq: false, i: false },
            pending_interrupt: None,
            suppress_instruction_poll: false,
        }
    }

    /// Power-up register state: SP=$FD, P=$24 (I and U set), all else zero.
    pub fn new() -> (r: Cpu)
        ensures r == Cpu::power_up_state(),
    {
        Cpu {
            a: 0,
            x: 0,
            y: 0,
            sp: 0xFD,
            pc: 0,
            p: 0x24,
            cycles: 0,
            nmi_count: 0,
            trace: false,
            nmi_pending: false,
            irq_sample: false,
            last_poll: InterruptPoll::cleared(),
            pending_interrupt: None,
            suppress_instruction_poll: false,
        }
    }

    /// Program counter after power-on or reset: the little-endian word read
    /// from the reset vector.
    pub fn vector_target(lo: u8, hi: u8) -> (r: u16)
        ensures r == hi as int * 256 + lo as int,
    {
        (hi as u16) * 256 + (lo as u16)
    }

    /// Register effects of power-on, given the reset-vector bytes.
    pub fn power_on_with_vector(&mut self, lo: u8, hi: u8)
        ensures
            final(self).pc == hi as int * 256 + lo as int,
            final(self).sp == 0xFD,
            final(self).p == 0x24,
            final(self).cycles == 0,
            !final(self).nmi_pending,
            !final(self).irq_sample,
            final(self).last_poll == (InterruptPoll { nmi: false, irq: false, i: false }),
            final(self).pending_interrupt.is_none(),
            !final(self).suppress_instruction_poll,
            final(self).a == old(self).a,
            final(self).x == old(self).x,
            final(self).y == old(self).y,
            final(self).nmi_count == old(self).nmi_count,
    {
        self.pc = Cpu::vector_target(lo, hi);
        self.sp = 0xFD;
        self.p = 0x24;
        self.cycles = 0;
        self.nmi_pending = false;
        self.irq_sample = false;
        self.last_poll = InterruptPoll::cleared();
        self.pending_interrupt = None;
        self.suppress_instruction_poll = false;
    }

    /// Register effects of a reset, given the reset-vector bytes: SP drops by
    /// three (wrapping), I is set, A/X/Y and the other flags are kept.
    pub fn reset_with_vector(&mut self, lo: u8, hi: u8)
        ensures
            final(self).pc == hi as int * 256 + lo as int,
            final(self).sp == (old(self).sp - 3) % 256,
            final(self).p == old(self).p | I,
            !final(self).nmi_pending,
            !final(self).irq_sample,
            final(self).last_poll == (InterruptPoll { nmi: false, irq: false, i: false }),
            final(self).pending_interrupt.is_none(),
            !final(self).suppress_instruction_poll,
            final(self).a == old(self).a,
            final(self).x == old(self).x,
            final(self).y == old(self).y,
            final(self).cycles == old(self).cycles,
    {
        self.pc = Cpu::vector_target(lo, hi);
        self.sp = self.sp.wrapping_sub(3);
        self.p = self.p | I;
        self.nmi_pending = false;
        self.irq_sample = false;
        self.last_poll = InterruptPoll::cleared();
        self.pending_interrupt = None;
        self.suppress_instruction_poll = false;
    }

    /// Open a poll point: remember the lines and the I flag as they are now.
    pub fn begin_cycle(&mut self)
        ensures
            *final(self) == (Cpu {
                last_poll: InterruptPoll { nmi: old(self).nmi_pending, irq: old(self).irq_sample, i: old(self).p & I != 0 },
                ..*old(self)
            }),
    {
        self.last_poll = InterruptPoll { nmi: self.nmi_pending, irq: self.irq_sample, i: self.p & I != 0 };
    }

    /// Close a cycle: latch an NMI edge and sample the IRQ level.
    pub fn end_cycle(&mut self, nmi_edge: bool, irq_line: bool)
        ensures
            *final(self) == (Cpu { nmi_pending: old(self).nmi_pending || nmi_edge, irq_sample: irq_line, ..*old(self) }),
    {
        if nmi_edge {
            self.nmi_pending = true;
        }
        self.irq_sample = irq_line;
    }

    pub fn set_flag(&mut self, flag: u8, on: bool)
        ensures *final(self) == (Cpu { p: with_flag(old(self).p, flag, on), ..*old(self) }),
    {
        if on {
            self.p = self.p | flag;
        } else {
            self.p = self.p & !flag;
        }
    }

    pub fn set_zn(&mut self, v: u8)
        ensures *final(self) == (Cpu { p: with_zn(old(self).p, v), ..*old(self) }),
    {
        self.set_flag(Z, v == 0);
        self.set_flag(N, v & 0x80 != 0);
        assert((v & 0x80 != 0) == (v >= 0x80)) by (bit_vector);
    }

    pub fn lda(&mut self, v: u8)
        ensures *final(self) == (Cpu { a: v, p: with_zn(old(self).p, v), ..*old(self) }),
    {
        self.a = v;
        self.set_zn(v);
    }

    pub fn ldx(&mut self, v: u8)
        ensures *final(self) == (Cpu { x: v, p: with_zn(old(self).p, v), ..*old(self) }),
    {
        self.x = v;
        self.set_zn(v);
    }

    pub fn ldy(&mut self, v: u8)
        ensures *final(self) == (Cpu { y: v, p: with_zn(old(self).p, v), ..*old(self) }),
    {
        self.y = v;
        self.set_zn(v);
    }

    pub fn and(&mut self, v: u8)
        ensures *final(self) == cpu_with(*old(self), old(self).a & v, with_zn(old(self).p, old(self).a & v)),
    {
        self.a = self.a & v;
        let a = self.a;
        self.set_zn(a);
    }

    pub fn ora(&mut self, v: u8)
        ensures *final(self) == cpu_with(*old(self), old(self).a | v, with_zn(old(self).p, old(self).a | v)),
    {
        self.a = self.a | v;
        let a = self.a;
        self.set_zn(a);
    }

    pub fn eor(&mut self, v: u8)
        ensures *final(self) == cpu_with(*old(self), old(self).a ^ v, with_zn(old(self).p, old(self).a ^ v)),
    {
        self.a = self.a ^ v;
        let a = self.a;
        self.set_zn(a);
    }

    /// ADC: A + M + C, binary mode (the 2A03 has no decimal mode).
    pub fn adc(&mut self, v: u8)
        ensures
            *final(self) == cpu_with(*old(self), (adc_sum(old(self).a, v, old(self).p) % 256) as u8, adc_p(old(self).a, v, old(self).p)),
    {
        let a = self.a as u16;
        let m = v as u16;
        let p0 = self.p;
        let a0 = self.a;
        let c = (p0 % 2) as u16;
        let sum = a + m + c;
        let r = (sum % 256) as u8;
        proof { lemma_overflow_bits(a0, v, p0 % 2); }
        self.set_flag(C, sum > 0xFF);
        self.set_flag(V, (!(self.a ^ v) & (self.a ^ r) & 0x80) != 0);
        self.a = r;
        self.set_zn(r);
    }

    /// SBC is ADC of the complemented operand.
    pub fn sbc(&mut self, v: u8)
        ensures
            *final(self) == cpu_with(*old(self), (adc_sum(old(self).a, v ^ 0xFF, old(self).p) % 256) as u8, adc_p(old(self).a, v ^ 0xFF, old(self).p)),
            // SBC subtracts with borrow: A - M - (1 - C) modulo 256, carry = no borrow.
            final(self).a == (old(self).a - v - (1 - carry_in(old(self).p))) % 256,
            (final(self).p & C != 0) == (old(self).a - v - (1 - carry_in(old(self).p)) >= 0),
    {
        assert((v ^ 0xFF) == 255 - v) by (bit_vector);
        self.adc(v ^ 0xFF);
        proof { lemma_flag_bit(with_flag(old(self).p, C, adc_sum(old(self).a, v ^ 0xFF, old(self).p) > 0xFF), adc_overflow(old(self).a, v ^ 0xFF, old(self).p), V); }
        proof {
            let p0 = old(self).p;
            let a0 = old(self).a;
            let s = adc_sum(a0, v ^ 0xFF, p0);
            let r = (s % 256) as u8;
            let p1 = with_flag(p0, C, s > 0xFF);
            let p2 = with_flag(p1, V, adc_overflow(a0, v ^ 0xFF, p0));
            lemma_flag_bit(p0, s > 0xFF, C);
            lemma_flags_keep_c(p1, adc_overflow(a0, v ^ 0xFF, p0), V);
            lemma_flags_keep_c(p2, r == 0, Z);
            lemma_flags_keep_c(with_flag(p2, Z, r == 0), r >= 0x80, N);
        }
    }

    /// CMP/CPX/CPY: flags of `reg - v`, carry = `reg >= v`.
    pub fn compare(&mut self, reg: u8, v: u8)
        ensures
            *final(self) == (Cpu { p: with_zn(with_flag(old(self).p, C, reg >= v), ((reg - v) % 256) as u8), ..*old(self) }),
    {
        let r = reg.wrapping_sub(v);
        self.set_flag(C, reg >= v);
        self.set_zn(r);
    }

    /// BIT: Z from A & M, N and V copied from bits 7 and 6 of M.
    pub fn bit(&mut self, v: u8)
        ensures
            *final(self) == (Cpu {
                p: with_flag(with_flag(with_flag(old(self).p, Z, old(self).a & v == 0), N, v & 0x80 != 0), V, v & 0x40 != 0),
                ..*old(self)
            }),
    {
        self.set_flag(Z, self.a & v == 0);
        self.set_flag(N, v & 0x80 != 0);
        self.set_flag(V, v & 0x40 != 0);
    }

    pub fn asl_val(&mut self, v: u8) -> (r: u8)
        ensures
            r == (v * 2) % 256,
            *final(self) == (Cpu { p: with_zn(with_flag(old(self).p, C, v & 0x80 != 0), r), ..*old(self) }),
    {
        self.set_flag(C, v & 0x80 != 0);
        let r = ((v as u16 * 2) % 256) as u8;
        self.set_zn(r);
        r
    }

    pub fn lsr_val(&mut self, v: u8) -> (r: u8)
        ensures
            r == v / 2,
            *final(self) == (Cpu { p: with_zn(with_flag(old(self).p, C, v & 0x01 != 0), r), ..*old(self) }),
    {
        self.set_flag(C, v & 0x01 != 0);
        let r = v / 2;
        self.set_zn(r);
        r
    }

    pub fn rol_val(&mut self, v: u8) -> (r: u8)
        ensures
            r == (v * 2 + carry_in(old(self).p)) % 256,
            *final(self) == (Cpu { p: with_zn(with_flag(old(self).p, C, v & 0x80 != 0), r), ..*old(self) }),
    {
        let carry: u16 = if self.p % 2 == 1 { 1 } else { 0 };
        self.set_flag(C, v & 0x80 != 0);
        let r = ((v as u16 * 2 + carry) % 256) as u8;
        self.set_zn(r);
        r
    }

    pub fn ror_val(&mut self, v: u8) -> (r: u8)
        ensures
            r == v / 2 + 128 * carry_in(old(self).p),
            *final(self) == (Cpu { p: with_zn(with_flag(old(self).p, C, v & 0x01 != 0), r), ..*old(self) }),
    {
        let carry: u8 = if self.p % 2 == 1 { 128 } else { 0 };
        self.set_flag(C, v & 0x01 != 0);
        let r = v / 2 + carry;
        self.set_zn(r);
        r
    }

    /// Queue an interrupt; a queued NMI is never displaced.
    pub fn queue_interrupt(&mut self, kind: InterruptKind)
        ensures
            *final(self) == (Cpu {
                pending_interrupt: if old(self).pending_interrupt == Some(InterruptKind::Nmi) { old(self).pending_interrupt } else { Some(kind) },
                ..*old(self)
            }),
    {
        let is_nmi = match self.pending_interrupt {
            Some(InterruptKind::Nmi) => true,
            _ => false,
        };
        if !is_nmi {
            self.pending_interrupt = Some(kind);
        }
    }

    pub open spec fn after_queue(c: Cpu, kind: InterruptKind) -> Option<InterruptKind> {
        if c.pending_interrupt == Some(InterruptKind::Nmi) { c.pending_interrupt } else { Some(kind) }
    }

    /// Poll with the live NMI latch: NMI wins; otherwise an IRQ is taken when
    /// the line was asserted and I was clear at the poll point.
    pub fn accept_interrupt_poll(&mut self, poll: InterruptPoll)
        ensures
            old(self).nmi_pending ==> *final(self) == (Cpu {
                nmi_pending: false,
                pending_interrupt: Cpu::after_queue(*old(self), InterruptKind::Nmi),
                ..*old(self)
            }),
            !old(self).nmi_pending && poll.irq && !poll.i ==> *final(self) == (Cpu {
                pending_interrupt: Cpu::after_queue(*old(self), InterruptKind::Irq),
                ..*old(self)
            }),
            !old(self).nmi_pending && !(poll.irq && !poll.i) ==> *final(self) == *old(self),
    {
        if self.nmi_pending {
            self.nmi_pending = false;
            self.queue_interrupt(InterruptKind::Nmi);
        } else if poll.irq && !poll.i {
            self.queue_interrupt(InterruptKind::Irq);
        }
    }

    /// Poll with the NMI state captured in `poll` itself.
    pub fn accept_exact_interrupt_poll(&mut self, poll: InterruptPoll)
        ensures
            poll.nmi ==> *final(self) == (Cpu {
                nmi_pending: false,
                pending_interrupt: Cpu::after_queue(*old(self), InterruptKind::Nmi),
                ..*old(self)
            }),
            !poll.nmi && poll.irq && !poll.i ==> *final(self) == (Cpu {
                pending_interrupt: Cpu::after_queue(*old(self), InterruptKind::Irq),
                ..*old(self)
            }),
            !poll.nmi && !(poll.irq && !poll.i) ==> *final(self) == *old(self),
    {
        if poll.nmi {
            self.nmi_pending = false;
            self.queue_interrupt(InterruptKind::Nmi);
        } else if poll.irq && !poll.i {
            self.queue_interrupt(InterruptKind::Irq);
        }
    }

    /// End-of-instruction poll, skipped once right after an interrupt
    /// sequence.
    pub fn poll_interrupts(&mut self)
        ensures
            old(self).suppress_instruction_poll ==> *final(self) == (Cpu { suppress_instruction_poll: false, ..*old(self) }),
            !old(self).suppress_instruction_poll && old(self).nmi_pending ==> *final(self) == (Cpu {
                nmi_pending: false,
                pending_interrupt: Cpu::after_queue(*old(self), InterruptKind::Nmi),
                ..*old(self)
            }),
            !old(self).suppress_instruction_poll && !old(self).nmi_pending
                && old(self).last_poll.irq && !old(self).last_poll.i ==> *final(self) == (Cpu {
                pending_interrupt: Cpu::after_queue(*old(self), InterruptKind::Irq),
                ..*old(self)
            }),
            !old(self).suppress_instruction_poll && !old(self).nmi_pending
                && !(old(self).last_poll.irq && !old(self).last_poll.i) ==> *final(self) == *old(self),
    {
        if self.suppress_instruction_poll {
            self.suppress_instruction_poll = false;
            return;
        }
        let poll = self.last_poll;
        self.accept_interrupt_poll(poll);
    }

    /// NMI hijack: a pending NMI redirects a BRK/IRQ vector fetch to $FFFA.
    pub fn select_interrupt_vector(&mut self, vector: u16) -> (r: u16)
        requires old(self).nmi_count < u64::MAX,
        ensures
            vector != NMI_VECTOR && old(self).nmi_pending ==> r == NMI_VECTOR && *final(self) == (Cpu {
                nmi_pending: false,
                nmi_count: (old(self).nmi_count + 1) as u64,
                ..*old(self)
            }),
            !(vector != NMI_VECTOR && old(self).nmi_pending) ==> r == vector && *final(self) == *old(self),
    {
        if vector != NMI_VECTOR && self.nmi_pending {
            self.nmi_pending = false;
            self.nmi_count = self.nmi_count + 1;
            NMI_VECTOR
        } else {
            vector
        }
    }

    /// Status byte pushed by an interrupt: U always set, B set only for BRK.
    pub fn pushed_status(p: u8, brk: bool) -> (r: u8)
        ensures r == (if brk { p | U | B } else { (p | U) & !B }),
    {
        let status = p | U;
        if brk { status | B } else { status & !B }
    }
}

proof fn lemma_flags_keep_c(p: u8, on: bool, flag: u8)
    requires flag == Z || flag == V || flag == N,
    ensures (with_flag(p, flag, on) & C != 0) == (p & C != 0),
{
    if on {
        assert(((p | flag) & 1 != 0) == (p & 1 != 0)) by (bit_vector) requires flag == 2 || flag == 0x40 || flag == 0x80;
    } else {
        assert(((p & !flag) & 1 != 0) == (p & 1 != 0)) by (bit_vector) requires flag == 2 || flag == 0x40 || flag == 0x80;
    }
}

/// Does the indexed address land on a different page from its base?
pub fn page_crossed(a: u16, b: u16) -> (r: bool)
    ensures r == (a / 256 != b / 256),
{
    (a / 256 != b / 256)
}

/// Stack-page address of a stack-pointer value.
pub fn stack_addr(sp: u8) -> (r: u16)
    ensures r == 0x100 + sp,
{
    STACK_BASE + sp as u16
}

} // verus!
