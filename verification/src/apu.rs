//! The 2A03/2A07 APU's digital core: two pulse channels, triangle, noise and
//! DMC with their timers, envelopes, sweeps and length counters, the frame
//! sequencer and the frame/DMC IRQs. Each channel exposes its 4-bit (DMC:
//! 7-bit) output level; turning the five levels into an analog sample is the
//! host's job.

use vstd::prelude::*;

verus! {

use crate::types::Region;

// ------------------------------------------------------------ tables

pub open spec fn length_table() -> Seq<u8> {
    seq![10u8, 254, 20, 2, 40, 4, 80, 6, 160, 8, 60, 10, 14, 12, 26, 14, 12, 16, 24, 18, 48, 20, 96, 22,
        192, 24, 72, 26, 16, 28, 32, 30]
}

fn length_of(i: usize) -> (r: u8)
    requires i < 32,
    ensures r == length_table()[i as int],
{
    let t: [u8; 32] = [10, 254, 20, 2, 40, 4, 80, 6, 160, 8, 60, 10, 14, 12, 26, 14, 12, 16, 24, 18, 48, 20, 96, 22,
        192, 24, 72, 26, 16, 28, 32, 30];
    assert(t@ =~= length_table());
    t[i]
}

/// The four pulse duty patterns, eight steps each.
pub open spec fn duty_bit(duty: u8, step: u8) -> u8 {
    let row: Seq<u8> = if duty == 0 { seq![0u8, 1, 0, 0, 0, 0, 0, 0] }
        else if duty == 1 { seq![0u8, 1, 1, 0, 0, 0, 0, 0] }
        else if duty == 2 { seq![0u8, 1, 1, 1, 1, 0, 0, 0] }
        else { seq![1u8, 0, 0, 1, 1, 1, 1, 1] };
    row[step as int]
}

fn duty_bit_of(duty: u8, step: u8) -> (r: u8)
    requires duty < 4, step < 8,
    ensures r == duty_bit(duty, step),
{
    let row: [u8; 8] = if duty == 0 {
        [0, 1, 0, 0, 0, 0, 0, 0]
    } else if duty == 1 {
        [0, 1, 1, 0, 0, 0, 0, 0]
    } else if duty == 2 {
        [0, 1, 1, 1, 1, 0, 0, 0]
    } else {
        [1, 0, 0, 1, 1, 1, 1, 1]
    };
    proof {
        let s: Seq<u8> = if duty == 0 { seq![0u8, 1, 0, 0, 0, 0, 0, 0] }
            else if duty == 1 { seq![0u8, 1, 1, 0, 0, 0, 0, 0] }
            else if duty == 2 { seq![0u8, 1, 1, 1, 1, 0, 0, 0] }
            else { seq![1u8, 0, 0, 1, 1, 1, 1, 1] };
        assert(row@ =~= s);
    }
    row[step as usize]
}

/// The triangle's 32-step output ramp: 15 down to 0, then 0 up to 15.
pub open spec fn triangle_level(step: u8) -> u8 {
    if step < 16 { (15 - step) as u8 } else { (step - 16) as u8 }
}

pub open spec fn noise_period(region: Region, i: int) -> u16 {
    let ntsc: Seq<u16> = seq![4u16, 8, 16, 32, 64, 96, 128, 160, 202, 254, 380, 508, 762, 1016, 2034, 4068];
    let pal: Seq<u16> = seq![4u16, 8, 14, 30, 60, 88, 118, 148, 188, 236, 354, 472, 708, 944, 1890, 3778];
    if region == Region::Pal { pal[i] } else { ntsc[i] }
}

fn noise_period_of(region: Region, i: usize) -> (r: u16)
    requires i < 16,
    ensures r == noise_period(region, i as int),
{
    let t: [u16; 16] = match region {
        Region::Pal => [4, 8, 14, 30, 60, 88, 118, 148, 188, 236, 354, 472, 708, 944, 1890, 3778],
        _ => [4, 8, 16, 32, 64, 96, 128, 160, 202, 254, 380, 508, 762, 1016, 2034, 4068],
    };
    proof {
        let ntsc: Seq<u16> = seq![4u16, 8, 16, 32, 64, 96, 128, 160, 202, 254, 380, 508, 762, 1016, 2034, 4068];
        let pal: Seq<u16> = seq![4u16, 8, 14, 30, 60, 88, 118, 148, 188, 236, 354, 472, 708, 944, 1890, 3778];
        if region == Region::Pal { assert(t@ =~= pal); } else { assert(t@ =~= ntsc); }
    }
    t[i]
}

/// CPU cycles per DMC output clock.
pub open spec fn dmc_rate(region: Region, i: int) -> u16 {
    let ntsc: Seq<u16> = seq![428u16, 380, 340, 320, 286, 254, 226, 214, 190, 160, 142, 128, 106, 84, 72, 54];
    let pal: Seq<u16> = seq![398u16, 354, 316, 298, 276, 236, 210, 198, 176, 148, 132, 118, 98, 78, 66, 50];
    if region == Region::Pal { pal[i] } else { ntsc[i] }
}

fn dmc_rate_of(region: Region, i: usize) -> (r: u16)
    requires i < 16,
    ensures r == dmc_rate(region, i as int),
{
    let t: [u16; 16] = match region {
        Region::Pal => [398, 354, 316, 298, 276, 236, 210, 198, 176, 148, 132, 118, 98, 78, 66, 50],
        _ => [428, 380, 340, 320, 286, 254, 226, 214, 190, 160, 142, 128, 106, 84, 72, 54],
    };
    proof {
        let ntsc: Seq<u16> = seq![428u16, 380, 340, 320, 286, 254, 226, 214, 190, 160, 142, 128, 106, 84, 72, 54];
        let pal: Seq<u16> = seq![398u16, 354, 316, 298, 276, 236, 210, 198, 176, 148, 132, 118, 98, 78, 66, 50];
        if region == Region::Pal { assert(t@ =~= pal); } else { assert(t@ =~= ntsc); }
    }
    t[i]
}

/// The timer period with its low byte replaced.
pub open spec fn with_low_byte(p: u16, v: u8) -> u16 {
    ((p / 256) * 256 + v) as u16
}

/// The timer period with bits 8-10 taken from the value's low three bits.
pub open spec fn with_high_bits(p: u16, v: u8) -> u16 {
    (p % 256 + (v % 8) * 256) as u16
}

// ------------------------------------------------------------ envelope

#[derive(Debug, Clone, Copy)]
pub struct Envelope {
    pub start: bool,
    pub constant: bool,
    pub loop_flag: bool,
    pub volume: u8,
    pub divider: u8,
    pub decay: u8,
}

impl Envelope {
    pub open spec fn wf(&self) -> bool {
        self.volume < 16 && self.divider < 16 && self.decay < 16
    }

    pub open spec fn zeroed(self) -> bool {
        !self.start && !self.constant && !self.loop_flag && self.volume == 0 && self.divider == 0 && self.decay == 0
    }

    pub fn new() -> (r: Self)
        ensures r.zeroed(), r.wf(),
    {
        Envelope { start: false, constant: false, loop_flag: false, volume: 0, divider: 0, decay: 0 }
    }

    /// A quarter-frame clock: a pending start reloads decay 15; otherwise
    /// the divider counts down and, on expiry, decay steps down (looping to
    /// 15 when the loop flag is set).
    pub open spec fn clocked(self) -> Self {
        if self.start { Envelope { start: false, decay: 15, divider: self.volume, ..self } }
        else if self.divider == 0 {
            Envelope {
                divider: self.volume,
                decay: if self.decay > 0 { (self.decay - 1) as u8 } else if self.loop_flag { 15 } else { self.decay },
                ..self
            }
        } else { Envelope { divider: (self.divider - 1) as u8, ..self } }
    }

    pub fn clock(&mut self)
        requires old(self).wf(),
        ensures *final(self) == old(self).clocked(), final(self).wf(),
    {
        if self.start {
            self.start = false;
            self.decay = 15;
            self.divider = self.volume;
        } else if self.divider == 0 {
            self.divider = self.volume;
            if self.decay > 0 {
                self.decay = self.decay - 1;
            } else if self.loop_flag {
                self.decay = 15;
            }
        } else {
            self.divider = self.divider - 1;
        }
    }

    #[verifier::allow_in_spec]
    pub fn output(&self) -> u8
        returns if self.constant { self.volume } else { self.decay },
    {
        if self.constant { self.volume } else { self.decay }
    }
}

// ------------------------------------------------------------ pulse

#[derive(Debug, Clone, Copy)]
pub struct Pulse {
    pub enabled: bool,
    pub duty: u8,
    pub seq: u8,
    pub timer: u16,
    pub timer_period: u16,
    pub length: u8,
    pub halt: bool,
    pub env: Envelope,
    pub sweep_enabled: bool,
    pub sweep_period: u8,
    pub sweep_negate: bool,
    pub sweep_shift: u8,
    pub sweep_reload: bool,
    pub sweep_divider: u8,
    pub is_pulse1: bool,
}

impl Pulse {
    pub open spec fn wf(&self) -> bool {
        self.duty < 4 && self.seq < 8 && self.env.wf() && self.sweep_period < 8 && self.sweep_shift < 8
            && self.sweep_divider < 8
    }

    pub open spec fn zeroed(self, is_pulse1: bool) -> bool {
        &&& !self.enabled && self.duty == 0 && self.seq == 0 && self.timer == 0 && self.timer_period == 0
        &&& self.length == 0 && !self.halt && self.env.zeroed()
        &&& !self.sweep_enabled && self.sweep_period == 0 && !self.sweep_negate && self.sweep_shift == 0
        &&& !self.sweep_reload && self.sweep_divider == 0 && self.is_pulse1 == is_pulse1
    }

    pub fn new(is_pulse1: bool) -> (r: Self)
        ensures r.zeroed(is_pulse1), r.wf(),
    {
        Pulse {
            enabled: false,
            duty: 0,
            seq: 0,
            timer: 0,
            timer_period: 0,
            length: 0,
            halt: false,
            env: Envelope::new(),
            sweep_enabled: false,
            sweep_period: 0,
            sweep_negate: false,
            sweep_shift: 0,
            sweep_reload: false,
            sweep_divider: 0,
            is_pulse1,
        }
    }

    /// `$4000`/`$4004` without the halt bit: duty (bits 6-7), constant
    /// volume (bit 4), volume/period (bits 0-3).
    pub open spec fn after_write0_except_halt(self, v: u8) -> Self {
        Pulse {
            duty: v / 64,
            env: Envelope { constant: (v / 16) % 2 == 1, volume: v % 16, ..self.env },
            ..self
        }
    }

    /// Halt (bit 5) also sets the envelope's loop flag.
    pub open spec fn after_set_halt(self, halt: bool) -> Self {
        Pulse { halt, env: Envelope { loop_flag: halt, ..self.env }, ..self }
    }

    pub open spec fn after_write0(self, v: u8) -> Self {
        self.after_set_halt((v / 32) % 2 == 1).after_write0_except_halt(v)
    }

    pub fn write0_except_halt(&mut self, v: u8)
        requires old(self).wf(),
        ensures *final(self) == old(self).after_write0_except_halt(v), final(self).wf(),
    {
        self.duty = v / 64;
        self.env.constant = (v / 16) % 2 == 1;
        self.env.volume = v % 16;
    }

    pub fn set_halt(&mut self, halt: bool)
        requires old(self).wf(),
        ensures *final(self) == old(self).after_set_halt(halt), final(self).wf(),
    {
        self.halt = halt;
        self.env.loop_flag = halt;
    }

    pub fn write0(&mut self, v: u8)
        requires old(self).wf(),
        ensures *final(self) == old(self).after_write0(v), final(self).wf(),
    {
        self.set_halt((v / 32) % 2 == 1);
        self.write0_except_halt(v);
    }

    /// `$4001`/`$4005`: sweep enable (bit 7), period (bits 4-6), negate
    /// (bit 3), shift (bits 0-2), and a reload request.
    pub open spec fn after_write1(self, v: u8) -> Self {
        Pulse {
            sweep_enabled: v >= 128,
            sweep_period: (v / 16) % 8,
            sweep_negate: (v / 8) % 2 == 1,
            sweep_shift: v % 8,
            sweep_reload: true,
            ..self
        }
    }

    pub fn write1(&mut self, v: u8)
        requires old(self).wf(),
        ensures *final(self) == old(self).after_write1(v), final(self).wf(),
    {
        self.sweep_enabled = v >= 128;
        self.sweep_period = (v / 16) % 8;
        self.sweep_negate = (v / 8) % 2 == 1;
        self.sweep_shift = v % 8;
        self.sweep_reload = true;
    }

    pub open spec fn after_write2(self, v: u8) -> Self {
        Pulse { timer_period: with_low_byte(self.timer_period, v), ..self }
    }

    pub fn write2(&mut self, v: u8)
        requires old(self).wf(),
        ensures *final(self) == old(self).after_write2(v), final(self).wf(),
    {
        self.timer_period = (self.timer_period / 256) * 256 + v as u16;
    }

    /// A length load takes effect only while the channel is enabled.
    pub open spec fn after_load_length(self, v: u8) -> Self {
        if self.enabled { Pulse { length: length_table()[(v / 8) as int], ..self } } else { self }
    }

    pub fn load_length(&mut self, v: u8)
        requires old(self).wf(),
        ensures *final(self) == old(self).after_load_length(v), final(self).wf(),
    {
        if self.enabled {
            self.length = length_of((v / 8) as usize);
        }
    }

    /// `$4003`/`$4007` without the length load: timer high bits, sequencer
    /// restart and envelope start.
    pub open spec fn after_write3_except_length(self, v: u8) -> Self {
        Pulse { timer_period: with_high_bits(self.timer_period, v), seq: 0, env: Envelope { start: true, ..self.env }, ..self }
    }

    pub open spec fn after_write3(self, v: u8) -> Self {
        let s = Pulse { timer_period: with_high_bits(self.timer_period, v), ..self }.after_load_length(v);
        Pulse { seq: 0, env: Envelope { start: true, ..s.env }, ..s }
    }

    pub fn write3_except_length(&mut self, v: u8)
        requires old(self).wf(),
        ensures *final(self) == old(self).after_write3_except_length(v), final(self).wf(),
    {
        self.timer_period = self.timer_period % 256 + ((v % 8) as u16) * 256;
        self.seq = 0;
        self.env.start = true;
    }

    pub fn write3(&mut self, v: u8)
        requires old(self).wf(),
        ensures *final(self) == old(self).after_write3(v), final(self).wf(),
    {
        self.timer_period = self.timer_period % 256 + ((v % 8) as u16) * 256;
        self.load_length(v);
        self.seq = 0;
        self.env.start = true;
    }

    pub open spec fn timer_clocked(self) -> Self {
        if self.timer == 0 { Pulse { timer: self.timer_period, seq: ((self.seq + 1) % 8) as u8, ..self } }
        else { Pulse { timer: (self.timer - 1) as u16, ..self } }
    }

    pub fn clock_timer(&mut self)
        requires old(self).wf(),
        ensures *final(self) == old(self).timer_clocked(), final(self).wf(),
    {
        if self.timer == 0 {
            self.timer = self.timer_period;
            self.seq = (self.seq + 1) % 8;
        } else {
            self.timer = self.timer - 1;
        }
    }

    /// The sweep target: the period plus or minus itself shifted right (pulse
    /// 1 subtracts one more), wrapping at 16 bits.
    pub open spec fn target(self) -> u16 {
        let change = self.timer_period >> self.sweep_shift;
        if self.sweep_negate {
            let d = if self.is_pulse1 { change + 1 } else { change as int };
            if self.timer_period >= d { (self.timer_period - d) as u16 } else { (self.timer_period - d + 0x10000) as u16 }
        } else {
            if self.timer_period + change > 0xFFFF { (self.timer_period + change - 0x10000) as u16 }
            else { (self.timer_period + change) as u16 }
        }
    }

    #[verifier::allow_in_spec]
    pub fn target_period(&self) -> u16
        requires self.wf(),
        returns self.target(),
    {
        let change = self.timer_period >> self.sweep_shift;
        if self.sweep_negate {
            let mut p = self.timer_period.wrapping_sub(change);
            if self.is_pulse1 {
                p = p.wrapping_sub(1);
            }
            p
        } else {
            self.timer_period.wrapping_add(change)
        }
    }

    /// Silenced by a period under 8, or by an add-mode sweep target past
    /// `$7FF`.
    #[verifier::allow_in_spec]
    pub fn muted(&self) -> bool
        requires self.wf(),
        returns self.timer_period < 8 || (!self.sweep_negate && self.target() > 0x7FF),
    {
        self.timer_period < 8 || (!self.sweep_negate && self.target_period() > 0x7FF)
    }

    /// A half-frame sweep clock: when the divider expires (and the sweep is
    /// enabled with a nonzero shift and the channel unmuted) the period takes
    /// the target; the divider reloads on expiry or a reload request.
    pub open spec fn sweep_clocked(self) -> Self {
        let p = if self.sweep_divider == 0 && self.sweep_enabled && self.sweep_shift > 0 && !self.muted() {
            self.target()
        } else {
            self.timer_period
        };
        if self.sweep_divider == 0 || self.sweep_reload {
            Pulse { timer_period: p, sweep_divider: self.sweep_period, sweep_reload: false, ..self }
        } else {
            Pulse { timer_period: p, sweep_divider: (self.sweep_divider - 1) as u8, ..self }
        }
    }

    pub fn clock_sweep(&mut self)
        requires old(self).wf(),
        ensures *final(self) == old(self).sweep_clocked(), final(self).wf(),
    {
        let target = self.target_period();
        if self.sweep_divider == 0 && self.sweep_enabled && self.sweep_shift > 0 && !self.muted() {
            self.timer_period = target;
        }
        if self.sweep_divider == 0 || self.sweep_reload {
            self.sweep_divider = self.sweep_period;
            self.sweep_reload = false;
        } else {
            self.sweep_divider = self.sweep_divider - 1;
        }
    }


    /// `$4015` enable bit: disabling also zeroes the length counter.
    pub open spec fn enable_set(self, on: bool) -> Self {
        Pulse { enabled: on, length: if on { self.length } else { 0 }, ..self }
    }

    pub fn set_enabled(&mut self, on: bool)
        requires old(self).wf(),
        ensures *final(self) == old(self).enable_set(on), final(self).wf(),
    {
        self.enabled = on;
        if !on {
            self.length = 0;
        }
    }

    /// A write to register `reg` (0-3); with `defer` the halt bit and length
    /// load are left to the deferred write.
    pub open spec fn reg_written(self, reg: u16, v: u8, defer: bool) -> Self {
        if reg == 0 { if defer { self.after_write0_except_halt(v) } else { self.after_write0(v) } }
        else if reg == 1 { self.after_write1(v) }
        else if reg == 2 { self.after_write2(v) }
        else if defer { self.after_write3_except_length(v) } else { self.after_write3(v) }
    }

    pub fn write_reg(&mut self, reg: u16, v: u8, defer: bool)
        requires old(self).wf(), reg < 4,
        ensures *final(self) == old(self).reg_written(reg, v, defer), final(self).wf(),
    {
        if reg == 0 {
            if defer { self.write0_except_halt(v); } else { self.write0(v); }
        } else if reg == 1 {
            self.write1(v);
        } else if reg == 2 {
            self.write2(v);
        } else if defer {
            self.write3_except_length(v);
        } else {
            self.write3(v);
        }
    }

    pub fn clock_envelope(&mut self)
        requires old(self).wf(),
        ensures *final(self) == (Pulse { env: old(self).env.clocked(), ..*old(self) }), final(self).wf(),
    {
        let mut e = self.env;
        e.clock();
        self.env = e;
    }

    pub open spec fn length_clocked(self) -> Self {
        if !self.halt && self.length > 0 { Pulse { length: (self.length - 1) as u8, ..self } } else { self }
    }

    pub fn clock_length(&mut self)
        requires old(self).wf(),
        ensures *final(self) == old(self).length_clocked(), final(self).wf(),
    {
        if !self.halt && self.length > 0 {
            self.length = self.length - 1;
        }
    }

    #[verifier::allow_in_spec]
    pub fn output(&self) -> u8
        requires self.wf(),
        returns if !self.enabled || self.length == 0 || self.muted() || duty_bit(self.duty, self.seq) == 0 { 0 }
            else { self.env.output() },
    {
        if !self.enabled || self.length == 0 || self.muted() || duty_bit_of(self.duty, self.seq) == 0 {
            0
        } else {
            self.env.output()
        }
    }
}

// ------------------------------------------------------------ triangle

#[derive(Debug, Clone, Copy)]
pub struct Triangle {
    pub enabled: bool,
    pub timer: u16,
    pub timer_period: u16,
    pub seq: u8,
    pub length: u8,
    pub halt: bool,
    pub linear: u8,
    pub linear_reload_value: u8,
    pub linear_reload: bool,
}

impl Triangle {
    pub open spec fn wf(&self) -> bool {
        self.seq < 32
    }

    pub open spec fn zeroed(self) -> bool {
        &&& !self.enabled && self.timer == 0 && self.timer_period == 0 && self.seq == 0 && self.length == 0
        &&& !self.halt && self.linear == 0 && self.linear_reload_value == 0 && !self.linear_reload
    }

    pub fn new() -> (r: Self)
        ensures r.zeroed(), r.wf(),
    {
        Triangle {
            enabled: false,
            timer: 0,
            timer_period: 0,
            seq: 0,
            length: 0,
            halt: false,
            linear: 0,
            linear_reload_value: 0,
            linear_reload: false,
        }
    }

    pub open spec fn after_set_halt(self, halt: bool) -> Self {
        Triangle { halt, ..self }
    }

    pub fn set_halt(&mut self, halt: bool)
        ensures *final(self) == old(self).after_set_halt(halt),
    {
        self.halt = halt;
    }

    /// `$4008` without the halt bit: the linear counter reload (bits 0-6).
    pub open spec fn after_write0_except_halt(self, v: u8) -> Self {
        Triangle { linear_reload_value: v % 128, ..self }
    }

    /// Bit 7 is the halt (control) flag.
    pub open spec fn after_write0(self, v: u8) -> Self {
        Triangle { halt: v >= 128, linear_reload_value: v % 128, ..self }
    }

    pub fn write0_except_halt(&mut self, v: u8)
        ensures *final(self) == old(self).after_write0_except_halt(v),
    {
        self.linear_reload_value = v % 128;
    }

    pub fn write0(&mut self, v: u8)
        ensures *final(self) == old(self).after_write0(v),
    {
        self.set_halt(v >= 128);
        self.linear_reload_value = v % 128;
    }

    pub open spec fn after_write2(self, v: u8) -> Self {
        Triangle { timer_period: with_low_byte(self.timer_period, v), ..self }
    }

    pub fn write2(&mut self, v: u8)
        ensures *final(self) == old(self).after_write2(v),
    {
        self.timer_period = (self.timer_period / 256) * 256 + v as u16;
    }

    pub open spec fn after_load_length(self, v: u8) -> Self {
        if self.enabled { Triangle { length: length_table()[(v / 8) as int], ..self } } else { self }
    }

    pub fn load_length(&mut self, v: u8)
        ensures *final(self) == old(self).after_load_length(v),
    {
        if self.enabled {
            self.length = length_of((v / 8) as usize);
        }
    }

    pub open spec fn after_write3_except_length(self, v: u8) -> Self {
        Triangle { timer_period: with_high_bits(self.timer_period, v), linear_reload: true, ..self }
    }

    pub open spec fn after_write3(self, v: u8) -> Self {
        let s = Triangle { timer_period: with_high_bits(self.timer_period, v), ..self }.after_load_length(v);
        Triangle { linear_reload: true, ..s }
    }

    pub fn write3_except_length(&mut self, v: u8)
        ensures *final(self) == old(self).after_write3_except_length(v),
    {
        self.timer_period = self.timer_period % 256 + ((v % 8) as u16) * 256;
        self.linear_reload = true;
    }

    pub fn write3(&mut self, v: u8)
        ensures *final(self) == old(self).after_write3(v),
    {
        self.timer_period = self.timer_period % 256 + ((v % 8) as u16) * 256;
        self.load_length(v);
        self.linear_reload = true;
    }


    /// `$4015` enable bit: disabling also zeroes the length counter.
    pub open spec fn enable_set(self, on: bool) -> Self {
        Triangle { enabled: on, length: if on { self.length } else { 0 }, ..self }
    }

    pub fn set_enabled(&mut self, on: bool)
        requires old(self).wf(),
        ensures *final(self) == old(self).enable_set(on), final(self).wf(),
    {
        self.enabled = on;
        if !on {
            self.length = 0;
        }
    }

    /// A write to register `reg` (0, 2 or 3; 1 is unused).
    pub open spec fn reg_written(self, reg: u16, v: u8, defer: bool) -> Self {
        if reg == 0 { if defer { self.after_write0_except_halt(v) } else { self.after_write0(v) } }
        else if reg == 2 { self.after_write2(v) }
        else if reg == 3 { if defer { self.after_write3_except_length(v) } else { self.after_write3(v) } }
        else { self }
    }

    pub fn write_reg(&mut self, reg: u16, v: u8, defer: bool)
        requires old(self).wf(),
        ensures *final(self) == old(self).reg_written(reg, v, defer), final(self).wf(),
    {
        if reg == 0 {
            if defer { self.write0_except_halt(v); } else { self.write0(v); }
        } else if reg == 2 {
            self.write2(v);
        } else if reg == 3 {
            if defer { self.write3_except_length(v); } else { self.write3(v); }
        }
    }

    /// The sequencer steps only while both counters are nonzero and the
    /// period is at least 2 (ultrasonic periods are frozen).
    pub open spec fn timer_clocked(self) -> Self {
        if self.timer == 0 {
            Triangle {
                timer: self.timer_period,
                seq: if self.length > 0 && self.linear > 0 && self.timer_period >= 2 { ((self.seq + 1) % 32) as u8 } else { self.seq },
                ..self
            }
        } else {
            Triangle { timer: (self.timer - 1) as u16, ..self }
        }
    }

    pub fn clock_timer(&mut self)
        requires old(self).wf(),
        ensures *final(self) == old(self).timer_clocked(), final(self).wf(),
    {
        if self.timer == 0 {
            self.timer = self.timer_period;
            if self.length > 0 && self.linear > 0 && self.timer_period >= 2 {
                self.seq = (self.seq + 1) % 32;
            }
        } else {
            self.timer = self.timer - 1;
        }
    }

    /// A quarter-frame clock of the linear counter; the reload flag clears
    /// unless the control (halt) flag is set.
    pub open spec fn linear_clocked(self) -> Self {
        let linear = if self.linear_reload { self.linear_reload_value }
            else if self.linear > 0 { (self.linear - 1) as u8 } else { self.linear };
        Triangle { linear, linear_reload: if !self.halt { false } else { self.linear_reload }, ..self }
    }

    pub fn clock_linear(&mut self)
        ensures *final(self) == old(self).linear_clocked(),
    {
        if self.linear_reload {
            self.linear = self.linear_reload_value;
        } else if self.linear > 0 {
            self.linear = self.linear - 1;
        }
        if !self.halt {
            self.linear_reload = false;
        }
    }

    pub open spec fn length_clocked(self) -> Self {
        if !self.halt && self.length > 0 { Triangle { length: (self.length - 1) as u8, ..self } } else { self }
    }

    pub fn clock_length(&mut self)
        ensures *final(self) == old(self).length_clocked(),
    {
        if !self.halt && self.length > 0 {
            self.length = self.length - 1;
        }
    }

    #[verifier::allow_in_spec]
    pub fn output(&self) -> u8
        requires self.wf(),
        returns if !self.enabled || self.timer_period < 2 { 0 } else { triangle_level(self.seq) },
    {
        if !self.enabled || self.timer_period < 2 {
            0
        } else if self.seq < 16 {
            15 - self.seq
        } else {
            self.seq - 16
        }
    }
}

// ------------------------------------------------------------ noise

#[derive(Debug, Clone, Copy)]
pub struct Noise {
    pub enabled: bool,
    pub mode: bool,
    pub timer: u16,
    pub timer_period: u16,
    pub shift: u16,
    pub length: u8,
    pub halt: bool,
    pub env: Envelope,
}

impl Noise {
    pub open spec fn wf(&self) -> bool {
        self.env.wf()
    }

    /// Power-on: everything zero but the shift register, which holds 1.
    pub open spec fn powered_on(self) -> bool {
        &&& !self.enabled && !self.mode && self.timer == 0 && self.timer_period == 0 && self.shift == 1
        &&& self.length == 0 && !self.halt && self.env.zeroed()
    }

    pub open spec fn after_set_halt(self, halt: bool) -> Self {
        Noise { halt, env: Envelope { loop_flag: halt, ..self.env }, ..self }
    }

    pub open spec fn after_write0_except_halt(self, v: u8) -> Self {
        Noise { env: Envelope { constant: (v / 16) % 2 == 1, volume: v % 16, ..self.env }, ..self }
    }

    /// `$400C`: halt (bit 5), constant volume (bit 4), volume (bits 0-3).
    pub open spec fn after_write0(self, v: u8) -> Self {
        self.after_set_halt((v / 32) % 2 == 1).after_write0_except_halt(v)
    }

    pub fn set_halt(&mut self, halt: bool)
        requires old(self).wf(),
        ensures *final(self) == old(self).after_set_halt(halt), final(self).wf(),
    {
        self.halt = halt;
        self.env.loop_flag = halt;
    }

    pub fn write0_except_halt(&mut self, v: u8)
        requires old(self).wf(),
        ensures *final(self) == old(self).after_write0_except_halt(v), final(self).wf(),
    {
        self.env.constant = (v / 16) % 2 == 1;
        self.env.volume = v % 16;
    }

    pub fn write0(&mut self, v: u8)
        requires old(self).wf(),
        ensures *final(self) == old(self).after_write0(v), final(self).wf(),
    {
        self.set_halt((v / 32) % 2 == 1);
        self.write0_except_halt(v);
    }

    /// `$400E`: mode (bit 7) and the period from the region's table
    /// (bits 0-3).
    pub open spec fn after_write2(self, v: u8, region: Region) -> Self {
        Noise { mode: v >= 128, timer_period: noise_period(region, (v % 16) as int), ..self }
    }

    pub fn write2(&mut self, v: u8, region: Region)
        ensures *final(self) == old(self).after_write2(v, region),
    {
        self.mode = v >= 128;
        self.timer_period = noise_period_of(region, (v % 16) as usize);
    }

    pub open spec fn after_load_length(self, v: u8) -> Self {
        if self.enabled { Noise { length: length_table()[(v / 8) as int], ..self } } else { self }
    }

    pub fn load_length(&mut self, v: u8)
        ensures *final(self) == old(self).after_load_length(v),
    {
        if self.enabled {
            self.length = length_of((v / 8) as usize);
        }
    }

    pub open spec fn after_write3_except_length(self, v: u8) -> Self {
        Noise { env: Envelope { start: true, ..self.env }, ..self }
    }

    pub open spec fn after_write3(self, v: u8) -> Self {
        let s = self.after_load_length(v);
        Noise { env: Envelope { start: true, ..s.env }, ..s }
    }

    pub fn write3_except_length(&mut self, v: u8)
        requires old(self).wf(),
        ensures *final(self) == old(self).after_write3_except_length(v), final(self).wf(),
    {
        self.env.start = true;
    }

    pub fn write3(&mut self, v: u8)
        requires old(self).wf(),
        ensures *final(self) == old(self).after_write3(v), final(self).wf(),
    {
        self.load_length(v);
        self.env.start = true;
    }

    /// The 15-bit LFSR step: feedback from bit 0 and bit 1 (bit 6 in short
    /// mode) into bit 14.
    pub open spec fn shifted(shift: u16, mode: bool) -> u16 {
        let feedback = (shift & 1) ^ ((shift >> (if mode { 6u16 } else { 1u16 })) & 1);
        (shift >> 1u16) | (feedback << 14u16)
    }

    pub open spec fn timer_clocked(self) -> Self {
        if self.timer == 0 { Noise { timer: self.timer_period, shift: Self::shifted(self.shift, self.mode), ..self } }
        else { Noise { timer: (self.timer - 1) as u16, ..self } }
    }

    pub fn clock_timer(&mut self)
        ensures *final(self) == old(self).timer_clocked(),
    {
        if self.timer == 0 {
            self.timer = self.timer_period;
            let bit: u16 = if self.mode { 6 } else { 1 };
            let feedback = (self.shift & 1) ^ ((self.shift >> bit) & 1);
            self.shift = (self.shift >> 1u16) | (feedback << 14u16);
        } else {
            self.timer = self.timer - 1;
        }
    }


    /// `$4015` enable bit: disabling also zeroes the length counter.
    pub open spec fn enable_set(self, on: bool) -> Self {
        Noise { enabled: on, length: if on { self.length } else { 0 }, ..self }
    }

    pub fn set_enabled(&mut self, on: bool)
        requires old(self).wf(),
        ensures *final(self) == old(self).enable_set(on), final(self).wf(),
    {
        self.enabled = on;
        if !on {
            self.length = 0;
        }
    }

    /// A write to register `reg` (0, 2 or 3; 1 is unused).
    pub open spec fn reg_written(self, reg: u16, v: u8, defer: bool, region: Region) -> Self {
        if reg == 0 { if defer { self.after_write0_except_halt(v) } else { self.after_write0(v) } }
        else if reg == 2 { self.after_write2(v, region) }
        else if reg == 3 { if defer { self.after_write3_except_length(v) } else { self.after_write3(v) } }
        else { self }
    }

    pub fn write_reg(&mut self, reg: u16, v: u8, defer: bool, region: Region)
        requires old(self).wf(),
        ensures *final(self) == old(self).reg_written(reg, v, defer, region), final(self).wf(),
    {
        if reg == 0 {
            if defer { self.write0_except_halt(v); } else { self.write0(v); }
        } else if reg == 2 {
            self.write2(v, region);
        } else if reg == 3 {
            if defer { self.write3_except_length(v); } else { self.write3(v); }
        }
    }

    pub fn clock_envelope(&mut self)
        requires old(self).wf(),
        ensures *final(self) == (Noise { env: old(self).env.clocked(), ..*old(self) }), final(self).wf(),
    {
        let mut e = self.env;
        e.clock();
        self.env = e;
    }

    pub open spec fn length_clocked(self) -> Self {
        if !self.halt && self.length > 0 { Noise { length: (self.length - 1) as u8, ..self } } else { self }
    }

    pub fn clock_length(&mut self)
        ensures *final(self) == old(self).length_clocked(),
    {
        if !self.halt && self.length > 0 {
            self.length = self.length - 1;
        }
    }

    #[verifier::allow_in_spec]
    pub fn output(&self) -> u8
        returns if !self.enabled || self.length == 0 || self.shift & 1 != 0 { 0 } else { self.env.output() },
    {
        if !self.enabled || self.length == 0 || self.shift & 1 != 0 {
            0
        } else {
            self.env.output()
        }
    }
}

impl Default for Noise {
    fn default() -> (r: Self)
        ensures r.powered_on(), r.wf(),
    {
        Noise { enabled: false, mode: false, timer: 0, timer_period: 0, shift: 1, length: 0, halt: false, env: Envelope::new() }
    }
}

// ------------------------------------------------------------ DMC

/// Why the DMC wants a byte: the first fetch after enabling, or a refill.
#[derive(Debug, Clone, Copy, PartialEq, Eq, Structural)]
pub enum DmcDmaKind {
    Load,
    Reload,
}

/// A pending sample fetch: the address, its kind and a serial number that
/// tells repeated requests for one address apart.
#[derive(Debug, Clone, Copy, PartialEq, Eq, Structural)]
pub struct DmcDmaRequest {
    pub addr: u16,
    pub kind: DmcDmaKind,
    pub id: u64,
}

#[derive(Debug, Clone, Copy)]
pub struct Dmc {
    pub enabled: bool,
    pub irq_enabled: bool,
    pub loop_flag: bool,
    pub irq_flag: bool,
    pub rate: u16,
    pub timer: u16,
    pub output: u8,
    pub sample_addr: u16,
    pub sample_len: u16,
    pub cur_addr: u16,
    pub bytes_remaining: u16,
    pub buffer: Option<u8>,
    pub shift: u8,
    pub bits: u8,
    pub silence: bool,
    pub dma_pending: Option<DmcDmaRequest>,
    pub dma_id: u64,
}

impl Dmc {
    pub open spec fn wf(&self) -> bool {
        1 <= self.bits <= 8 && self.output < 128
    }

    pub open spec fn powered_on(self, region: Region) -> bool {
        &&& !self.enabled && !self.irq_enabled && !self.loop_flag && !self.irq_flag
        &&& self.rate == dmc_rate(region, 0) && self.timer == self.rate && self.output == 0
        &&& self.sample_addr == 0xC000 && self.sample_len == 1 && self.cur_addr == 0xC000 && self.bytes_remaining == 0
        &&& self.buffer is None && self.shift == 0 && self.bits == 8 && self.silence
        &&& self.dma_pending is None && self.dma_id == 0
    }

    pub fn new(region: Region) -> (r: Self)
        ensures r.powered_on(region), r.wf(),
    {
        let rate = dmc_rate_of(region, 0);
        Dmc {
            enabled: false,
            irq_enabled: false,
            loop_flag: false,
            irq_flag: false,
            rate,
            timer: rate,
            output: 0,
            sample_addr: 0xC000,
            sample_len: 1,
            cur_addr: 0xC000,
            bytes_remaining: 0,
            buffer: None,
            shift: 0,
            bits: 8,
            silence: true,
            dma_pending: None,
            dma_id: 0,
        }
    }

    /// `$4010`: IRQ enable (bit 7; clearing it acknowledges the IRQ), loop
    /// (bit 6), rate index (bits 0-3).
    pub open spec fn after_write0(self, v: u8, region: Region) -> Self {
        Dmc {
            irq_enabled: v >= 128,
            loop_flag: (v / 64) % 2 == 1,
            rate: dmc_rate(region, (v % 16) as int),
            irq_flag: if v >= 128 { self.irq_flag } else { false },
            ..self
        }
    }

    pub fn write0(&mut self, v: u8, region: Region)
        requires old(self).wf(),
        ensures *final(self) == old(self).after_write0(v, region), final(self).wf(),
    {
        self.irq_enabled = v >= 128;
        self.loop_flag = (v / 64) % 2 == 1;
        self.rate = dmc_rate_of(region, (v % 16) as usize);
        if !self.irq_enabled {
            self.irq_flag = false;
        }
    }

    /// `$4011`: direct load of the 7-bit output level.
    pub open spec fn after_write1(self, v: u8) -> Self {
        Dmc { output: v % 128, ..self }
    }

    pub fn write1(&mut self, v: u8)
        requires old(self).wf(),
        ensures *final(self) == old(self).after_write1(v), final(self).wf(),
    {
        self.output = v % 128;
    }

    /// `$4012`: sample address `$C000 + v * 64`.
    pub open spec fn after_write2(self, v: u8) -> Self {
        Dmc { sample_addr: (0xC000 + v * 64) as u16, ..self }
    }

    pub fn write2(&mut self, v: u8)
        requires old(self).wf(),
        ensures *final(self) == old(self).after_write2(v), final(self).wf(),
    {
        self.sample_addr = 0xC000 + (v as u16) * 64;
    }

    /// `$4013`: sample length `v * 16 + 1` bytes.
    pub open spec fn after_write3(self, v: u8) -> Self {
        Dmc { sample_len: (v * 16 + 1) as u16, ..self }
    }

    pub fn write3(&mut self, v: u8)
        requires old(self).wf(),
        ensures *final(self) == old(self).after_write3(v), final(self).wf(),
    {
        self.sample_len = (v as u16) * 16 + 1;
    }

    /// A write to register `reg` (0-3).
    pub open spec fn reg_written(self, reg: u16, v: u8, region: Region) -> Self {
        if reg == 0 { self.after_write0(v, region) } else if reg == 1 { self.after_write1(v) }
        else if reg == 2 { self.after_write2(v) } else { self.after_write3(v) }
    }

    pub fn write_reg(&mut self, reg: u16, v: u8, region: Region)
        requires old(self).wf(),
        ensures *final(self) == old(self).reg_written(reg, v, region), final(self).wf(),
    {
        if reg == 0 {
            self.write0(v, region);
        } else if reg == 1 {
            self.write1(v);
        } else if reg == 2 {
            self.write2(v);
        } else {
            self.write3(v);
        }
    }

    pub open spec fn restarted(self) -> Self {
        Dmc { cur_addr: self.sample_addr, bytes_remaining: self.sample_len, ..self }
    }

    fn restart(&mut self)
        requires old(self).wf(),
        ensures *final(self) == old(self).restarted(), final(self).wf(),
    {
        self.cur_addr = self.sample_addr;
        self.bytes_remaining = self.sample_len;
    }

    /// With no fetch pending, request the current address under a fresh
    /// serial number.
    pub open spec fn dma_scheduled(self, kind: DmcDmaKind) -> Self {
        if self.dma_pending is None {
            let id = if self.dma_id == u64::MAX { 0u64 } else { (self.dma_id + 1) as u64 };
            Dmc { dma_id: id, dma_pending: Some(DmcDmaRequest { addr: self.cur_addr, kind, id }), ..self }
        } else {
            self
        }
    }

    fn schedule_dma(&mut self, kind: DmcDmaKind)
        requires old(self).wf(),
        ensures *final(self) == old(self).dma_scheduled(kind), final(self).wf(),
    {
        if self.dma_pending.is_none() {
            self.dma_id = self.dma_id.wrapping_add(1);
            self.dma_pending = Some(DmcDmaRequest { addr: self.cur_addr, kind, id: self.dma_id });
        }
    }

    /// Disabling drops the remaining bytes and any pending fetch; enabling
    /// with nothing left restarts the sample and, with an empty buffer,
    /// requests the first byte.
    pub open spec fn enabled_set(self, on: bool) -> Self {
        let s = Dmc { enabled: on, ..self };
        if !on { Dmc { bytes_remaining: 0, dma_pending: None, ..s } }
        else if s.bytes_remaining == 0 {
            let r = s.restarted();
            if r.buffer is None { r.dma_scheduled(DmcDmaKind::Load) } else { r }
        } else { s }
    }

    fn set_enabled(&mut self, on: bool)
        requires old(self).wf(),
        ensures *final(self) == old(self).enabled_set(on), final(self).wf(),
    {
        self.enabled = on;
        if !on {
            self.bytes_remaining = 0;
            self.dma_pending = None;
        } else if self.bytes_remaining == 0 {
            self.restart();
            if self.buffer.is_none() {
                self.schedule_dma(DmcDmaKind::Load);
            }
        }
    }

    /// The `$4015` DMC bit: enable or disable, acknowledging the DMC IRQ.
    pub fn enable_from_status(&mut self, on: bool)
        requires old(self).wf(),
        ensures *final(self) == (Dmc { irq_flag: false, ..old(self).enabled_set(on) }), final(self).wf(),
    {
        self.set_enabled(on);
        self.irq_flag = false;
    }

    /// One output-unit clock: move the level by ±2 (within 0-127) unless
    /// silent, shift out a bit, and after eight bits start the next byte
    /// from the buffer (asking for a refill) or fall silent.
    pub open spec fn output_clocked(self) -> Self {
        let out = if self.silence { self.output }
            else if self.shift % 2 == 1 { if self.output <= 125 { (self.output + 2) as u8 } else { self.output } }
            else if self.output >= 2 { (self.output - 2) as u8 } else { self.output };
        let bits = if self.bits > 0 { (self.bits - 1) as u8 } else { self.bits };
        if bits == 0 {
            match self.buffer {
                Some(b) => {
                    let s = Dmc { output: out, shift: b, bits: 8, buffer: None, silence: false, ..self };
                    if self.bytes_remaining > 0 { s.dma_scheduled(DmcDmaKind::Reload) } else { s }
                },
                None => Dmc { output: out, shift: self.shift / 2, bits: 8, buffer: None, silence: true, ..self },
            }
        } else {
            Dmc { output: out, shift: self.shift / 2, bits, ..self }
        }
    }

    fn clock_output(&mut self)
        requires old(self).wf(),
        ensures *final(self) == old(self).output_clocked(), final(self).wf(),
    {
        if !self.silence {
            if self.shift % 2 == 1 {
                if self.output <= 125 {
                    self.output = self.output + 2;
                }
            } else if self.output >= 2 {
                self.output = self.output - 2;
            }
        }
        self.shift = self.shift / 2;
        if self.bits > 0 {
            self.bits = self.bits - 1;
        }
        if self.bits == 0 {
            self.bits = 8;
            match self.buffer.take() {
                Some(b) => {
                    self.silence = false;
                    self.shift = b;
                    if self.bytes_remaining > 0 {
                        self.schedule_dma(DmcDmaKind::Reload);
                    }
                },
                None => self.silence = true,
            }
        }
    }

    /// One CPU cycle: the rate timer reloads with `rate - 1` when it expires
    /// (so it clocks the output unit every `rate` cycles).
    pub open spec fn ticked(self) -> Self {
        if self.timer == 0 {
            Dmc { timer: if self.rate > 0 { (self.rate - 1) as u16 } else { 0 }, ..self }.output_clocked()
        } else {
            Dmc { timer: (self.timer - 1) as u16, ..self }
        }
    }

    pub fn tick(&mut self)
        requires old(self).wf(),
        ensures *final(self) == old(self).ticked(), final(self).wf(),
    {
        if self.timer == 0 {
            self.timer = self.rate.saturating_sub(1);
            self.clock_output();
        } else {
            self.timer = self.timer - 1;
        }
    }

    #[verifier::allow_in_spec]
    pub fn dma_request(&self) -> Option<DmcDmaRequest>
        returns self.dma_pending,
    {
        self.dma_pending
    }

    /// A byte is taken only for the request still pending, with bytes left.
    pub open spec fn accepts(self, req: DmcDmaRequest) -> bool {
        self.dma_pending == Some(req) && self.bytes_remaining > 0
    }

    /// The byte fills the buffer; the address advances (wrapping to $8000),
    /// and the last byte either restarts a looping sample or raises the IRQ.
    pub open spec fn supplied(self, byte: u8) -> Self {
        let s = Dmc {
            dma_pending: None,
            buffer: Some(byte),
            cur_addr: if self.cur_addr == 0xFFFF { 0x8000 } else { (self.cur_addr + 1) as u16 },
            bytes_remaining: (self.bytes_remaining - 1) as u16,
            ..self
        };
        if s.bytes_remaining == 0 {
            if s.loop_flag { s.restarted() } else if s.irq_enabled { Dmc { irq_flag: true, ..s } } else { s }
        } else {
            s
        }
    }

    pub fn supply(&mut self, req: DmcDmaRequest, byte: u8) -> (r: bool)
        requires old(self).wf(),
        ensures
            r == old(self).accepts(req),
            *final(self) == if r { old(self).supplied(byte) } else { *old(self) },
            final(self).wf(),
    {
        let pending = match self.dma_pending {
            Some(p) => p == req,
            None => false,
        };
        if !pending || self.bytes_remaining == 0 {
            return false;
        }
        self.dma_pending = None;
        self.buffer = Some(byte);
        self.cur_addr = if self.cur_addr == 0xFFFF { 0x8000 } else { self.cur_addr + 1 };
        self.bytes_remaining = self.bytes_remaining - 1;
        if self.bytes_remaining == 0 {
            if self.loop_flag {
                self.restart();
            } else if self.irq_enabled {
                self.irq_flag = true;
            }
        }
        true
    }

    #[verifier::allow_in_spec]
    pub fn output(&self) -> u8
        returns self.output,
    {
        self.output
    }
}

// ------------------------------------------------------------ frame sequencer

#[derive(Debug, Clone, Copy, PartialEq, Eq, Structural)]
pub enum FrameMode {
    Four,
    Five,
}

#[derive(Debug, Clone, Copy, PartialEq, Eq, Structural)]
pub enum LengthTarget {
    Pulse1,
    Pulse2,
    Triangle,
    Noise,
}

/// A halt or length write that lands on the cycle the frame sequencer clocks
/// lengths takes effect one cycle later.
#[derive(Debug, Clone, Copy, PartialEq, Eq, Structural)]
pub enum PendingLengthWrite {
    Halt { target: LengthTarget, halt: bool },
    Reload { target: LengthTarget, value: u8 },
}

/// Frame-sequencer step cycles for one region.
#[derive(Debug, Clone, Copy)]
pub struct FrameTimings {
    pub mode0_q1: u32,
    pub mode0_h1: u32,
    pub mode0_q2: u32,
    pub mode0_irq_start: u32,
    pub mode0_h2: u32,
    pub mode0_wrap: u32,
    pub mode1_q1: u32,
    pub mode1_h1: u32,
    pub mode1_q2: u32,
    pub mode1_h2: u32,
    pub mode1_q3: u32,
    pub mode1_h3: u32,
    pub mode1_tail_cycle: u32,
}

pub open spec fn frame_timings(region: Region) -> FrameTimings {
    if region == Region::Pal {
        FrameTimings {
            mode0_q1: 8313, mode0_h1: 16627, mode0_q2: 24939, mode0_irq_start: 33252, mode0_h2: 33253, mode0_wrap: 33254,
            mode1_q1: 8313, mode1_h1: 16627, mode1_q2: 24939, mode1_h2: 41565, mode1_q3: 49879, mode1_h3: 58193,
            mode1_tail_cycle: 16630,
        }
    } else {
        FrameTimings {
            mode0_q1: 7457, mode0_h1: 14913, mode0_q2: 22371, mode0_irq_start: 29828, mode0_h2: 29829, mode0_wrap: 29830,
            mode1_q1: 7457, mode1_h1: 14913, mode1_q2: 22371, mode1_h2: 37281, mode1_q3: 44739, mode1_h3: 52195,
            mode1_tail_cycle: 14916,
        }
    }
}

impl FrameTimings {
    pub fn for_region(region: Region) -> (r: Self)
        ensures r == frame_timings(region),
    {
        match region {
            Region::Pal => FrameTimings {
                mode0_q1: 8313, mode0_h1: 16627, mode0_q2: 24939, mode0_irq_start: 33252, mode0_h2: 33253, mode0_wrap: 33254,
                mode1_q1: 8313, mode1_h1: 16627, mode1_q2: 24939, mode1_h2: 41565, mode1_q3: 49879, mode1_h3: 58193,
                mode1_tail_cycle: 16630,
            },
            _ => FrameTimings {
                mode0_q1: 7457, mode0_h1: 14913, mode0_q2: 22371, mode0_irq_start: 29828, mode0_h2: 29829, mode0_wrap: 29830,
                mode1_q1: 7457, mode1_h1: 14913, mode1_q2: 22371, mode1_h2: 37281, mode1_q3: 44739, mode1_h3: 52195,
                mode1_tail_cycle: 14916,
            },
        }
    }
}

/// The frame counter starts this many cycles in after power-on or reset.
pub const RESET_FRAME_ADVANCE: u32 = 5;

// ------------------------------------------------------------ the APU

#[derive(Debug, Clone, Copy)]
pub struct Apu {
    pub pulse1: Pulse,
    pub pulse2: Pulse,
    pub triangle: Triangle,
    pub noise: Noise,
    pub dmc: Dmc,
    pub region: Region,
    pub frame_mode: FrameMode,
    pub frame_cycle: u32,
    pub irq_inhibit: bool,
    pub frame_irq: bool,
    pub even: bool,
    pub frame_reset_delay: u8,
    pub frame_reset_value: u8,
    pub pending_length_write: Option<PendingLengthWrite>,
}

impl Apu {
    pub open spec fn channels_wf(&self) -> bool {
        self.pulse1.wf() && self.pulse2.wf() && self.triangle.wf() && self.noise.wf() && self.dmc.wf()
    }

    /// Channel invariants, and the frame counter below its wrap point.
    pub open spec fn wf(&self) -> bool {
        let t = frame_timings(self.region);
        &&& self.channels_wf()
        &&& self.frame_mode == FrameMode::Four ==> self.frame_cycle < t.mode0_wrap
        &&& self.frame_mode == FrameMode::Five ==> self.frame_cycle < t.mode1_h3
        &&& self.frame_reset_delay <= 4
    }

    pub open spec fn powered_on(self, region: Region) -> bool {
        &&& self.pulse1.zeroed(true) && self.pulse2.zeroed(false) && self.triangle.zeroed() && self.noise.powered_on()
        &&& self.dmc.powered_on(region) && self.region == region
        &&& self.frame_mode == FrameMode::Four && self.frame_cycle == RESET_FRAME_ADVANCE
        &&& !self.irq_inhibit && !self.frame_irq && !self.even
        &&& self.frame_reset_delay == 0 && self.frame_reset_value == 0 && self.pending_length_write is None
    }

    pub fn new(region: Region) -> (r: Self)
        ensures r.powered_on(region), r.wf(),
    {
        Apu {
            pulse1: Pulse::new(true),
            pulse2: Pulse::new(false),
            triangle: Triangle::new(),
            noise: Noise::default(),
            dmc: Dmc::new(region),
            region,
            frame_mode: FrameMode::Four,
            frame_cycle: RESET_FRAME_ADVANCE,
            irq_inhibit: false,
            frame_irq: false,
            even: false,
            frame_reset_delay: 0,
            frame_reset_value: 0,
            pending_length_write: None,
        }
    }

    /// /IRQ: the frame IRQ or the DMC end-of-sample IRQ.
    #[verifier::allow_in_spec]
    pub fn irq(&self) -> bool
        returns self.frame_irq || self.dmc.irq_flag,
    {
        self.frame_irq || self.dmc.irq_flag
    }

    #[verifier::allow_in_spec]
    pub fn dmc_dma(&self) -> Option<DmcDmaRequest>
        returns self.dmc.dma_pending,
    {
        self.dmc.dma_request()
    }

    pub fn dmc_dma_pending(&self, req: DmcDmaRequest) -> (r: bool)
        ensures r == (self.dmc.dma_pending == Some(req)),
    {
        match self.dmc.dma_request() {
            Some(p) => p == req,
            None => false,
        }
    }

    /// Hand the DMC the byte it asked for; false when the request is stale.
    pub fn dmc_supply(&mut self, req: DmcDmaRequest, byte: u8) -> (r: bool)
        requires old(self).wf(),
        ensures
            r == old(self).dmc.accepts(req),
            final(self).dmc == (if r { old(self).dmc.supplied(byte) } else { old(self).dmc }),
            *final(self) == (Apu { dmc: final(self).dmc, ..*old(self) }),
            final(self).wf(),
    {
        self.dmc.supply(req, byte)
    }

    // ---------------------------------------------------- frame sequencer

    pub open spec fn quartered(self) -> Self {
        Apu {
            pulse1: Pulse { env: self.pulse1.env.clocked(), ..self.pulse1 },
            pulse2: Pulse { env: self.pulse2.env.clocked(), ..self.pulse2 },
            noise: Noise { env: self.noise.env.clocked(), ..self.noise },
            triangle: self.triangle.linear_clocked(),
            ..self
        }
    }

    fn quarter(&mut self)
        requires old(self).channels_wf(),
        ensures *final(self) == old(self).quartered(), final(self).channels_wf(),
    {
        self.pulse1.clock_envelope();
        self.pulse2.clock_envelope();
        self.noise.clock_envelope();
        self.triangle.clock_linear();
    }

    pub open spec fn halved(self) -> Self {
        Apu {
            pulse1: self.pulse1.length_clocked().sweep_clocked(),
            pulse2: self.pulse2.length_clocked().sweep_clocked(),
            triangle: self.triangle.length_clocked(),
            noise: self.noise.length_clocked(),
            ..self
        }
    }

    fn half(&mut self)
        requires old(self).channels_wf(),
        ensures *final(self) == old(self).halved(), final(self).channels_wf(),
    {
        self.pulse1.clock_length();
        self.pulse2.clock_length();
        self.triangle.clock_length();
        self.noise.clock_length();
        self.pulse1.clock_sweep();
        self.pulse2.clock_sweep();
    }

    pub open spec fn irq_raised(self) -> Self {
        if !self.irq_inhibit { Apu { frame_irq: true, ..self } } else { self }
    }

    /// One sequencer cycle: quarter frames clock envelopes and the linear
    /// counter, half frames also lengths and sweeps; the four-step mode
    /// raises the frame IRQ over its last three cycles and wraps, the
    /// five-step mode jumps back into its tail.
    pub open spec fn frame_stepped(self) -> Self {
        let t = frame_timings(self.region);
        let c = (self.frame_cycle + 1) as u32;
        let s = Apu { frame_cycle: c, ..self };
        if self.frame_mode == FrameMode::Four {
            if c == t.mode0_q1 { s.quartered() }
            else if c == t.mode0_h1 { s.quartered().halved() }
            else if c == t.mode0_q2 { s.quartered() }
            else if c == t.mode0_irq_start { s.irq_raised() }
            else if c == t.mode0_h2 { s.irq_raised().quartered().halved() }
            else if c == t.mode0_wrap { Apu { frame_cycle: 0, ..s.irq_raised() } }
            else { s }
        } else {
            if c == t.mode1_q1 { s.quartered() }
            else if c == t.mode1_h1 { s.quartered().halved() }
            else if c == t.mode1_q2 { s.quartered() }
            else if c == t.mode1_h2 { s.quartered().halved() }
            else if c == t.mode1_q3 { s.quartered() }
            else if c == t.mode1_h3 { Apu { frame_cycle: t.mode1_tail_cycle, ..s.quartered().halved() } }
            else { s }
        }
    }

    pub fn clock_frame_sequencer(&mut self)
        requires old(self).wf(),
        ensures *final(self) == old(self).frame_stepped(), final(self).wf(),
    {
        let t = FrameTimings::for_region(self.region);
        self.frame_cycle = self.frame_cycle + 1;
        match self.frame_mode {
            FrameMode::Four => {
                if self.frame_cycle == t.mode0_q1 {
                    self.quarter();
                } else if self.frame_cycle == t.mode0_h1 {
                    self.quarter();
                    self.half();
                } else if self.frame_cycle == t.mode0_q2 {
                    self.quarter();
                } else if self.frame_cycle == t.mode0_irq_start {
                    if !self.irq_inhibit {
                        self.frame_irq = true;
                    }
                } else if self.frame_cycle == t.mode0_h2 {
                    if !self.irq_inhibit {
                        self.frame_irq = true;
                    }
                    self.quarter();
                    self.half();
                } else if self.frame_cycle == t.mode0_wrap {
                    if !self.irq_inhibit {
                        self.frame_irq = true;
                    }
                    self.frame_cycle = 0;
                }
            },
            FrameMode::Five => {
                if self.frame_cycle == t.mode1_q1 {
                    self.quarter();
                } else if self.frame_cycle == t.mode1_h1 {
                    self.quarter();
                    self.half();
                } else if self.frame_cycle == t.mode1_q2 {
                    self.quarter();
                } else if self.frame_cycle == t.mode1_h2 {
                    self.quarter();
                    self.half();
                } else if self.frame_cycle == t.mode1_q3 {
                    self.quarter();
                } else if self.frame_cycle == t.mode1_h3 {
                    self.quarter();
                    self.half();
                    self.frame_cycle = t.mode1_tail_cycle;
                }
            },
        }
    }

    /// A `$4017` value taking effect: mode (bit 7), IRQ inhibit (bit 6,
    /// which also acknowledges), the counter restarted at `advance`, and an
    /// immediate quarter+half clock in five-step mode.
    pub open spec fn frame_reset(self, v: u8, advance: u32) -> Self {
        let inhibit = (v / 64) % 2 == 1;
        let s = Apu {
            frame_reset_delay: 0,
            frame_mode: if v >= 128 { FrameMode::Five } else { FrameMode::Four },
            irq_inhibit: inhibit,
            frame_irq: if inhibit { false } else { self.frame_irq },
            frame_cycle: advance,
            ..self
        };
        if v >= 128 { s.quartered().halved() } else { s }
    }

    fn apply_frame_reset(&mut self, v: u8, advance: u32)
        requires old(self).wf(), advance <= RESET_FRAME_ADVANCE,
        ensures *final(self) == old(self).frame_reset(v, advance), final(self).wf(),
    {
        self.frame_reset_delay = 0;
        self.frame_mode = if v >= 128 { FrameMode::Five } else { FrameMode::Four };
        self.irq_inhibit = (v / 64) % 2 == 1;
        if self.irq_inhibit {
            self.frame_irq = false;
        }
        self.frame_cycle = advance;
        if v >= 128 {
            self.quarter();
            self.half();
        }
    }

    /// The delayed `$4017` write counts down and applies at zero.
    pub open spec fn frame_reset_clocked(self) -> Self {
        if self.frame_reset_delay == 0 { self }
        else if self.frame_reset_delay > 1 { Apu { frame_reset_delay: (self.frame_reset_delay - 1) as u8, ..self } }
        else { Apu { frame_reset_delay: 0, ..self }.frame_reset(self.frame_reset_value, 0) }
    }

    fn clock_pending_frame_reset(&mut self)
        requires old(self).wf(),
        ensures *final(self) == old(self).frame_reset_clocked(), final(self).wf(),
    {
        if self.frame_reset_delay == 0 {
            return;
        }
        self.frame_reset_delay = self.frame_reset_delay - 1;
        if self.frame_reset_delay != 0 {
            return;
        }
        let v = self.frame_reset_value;
        self.apply_frame_reset(v, 0);
    }

    /// Will the next cycle clock the length counters?
    pub open spec fn length_clock_next(self) -> bool {
        let next = self.frame_cycle + 1;
        let t = frame_timings(self.region);
        if self.frame_reset_delay == 1 && self.frame_reset_value >= 128 { true }
        else if self.frame_mode == FrameMode::Four { next == t.mode0_h1 || next == t.mode0_h2 }
        else { next == t.mode1_h1 || next == t.mode1_h2 || next == t.mode1_h3 }
    }

    pub fn will_clock_length_next_tick(&self) -> (r: bool)
        requires self.wf(),
        ensures r == self.length_clock_next(),
    {
        if self.frame_reset_delay == 1 && self.frame_reset_value >= 128 {
            return true;
        }
        let next = self.frame_cycle + 1;
        let t = FrameTimings::for_region(self.region);
        match self.frame_mode {
            FrameMode::Four => next == t.mode0_h1 || next == t.mode0_h2,
            FrameMode::Five => next == t.mode1_h1 || next == t.mode1_h2 || next == t.mode1_h3,
        }
    }

    pub open spec fn channel_length(self, target: LengthTarget) -> u8 {
        match target {
            LengthTarget::Pulse1 => self.pulse1.length,
            LengthTarget::Pulse2 => self.pulse2.length,
            LengthTarget::Triangle => self.triangle.length,
            LengthTarget::Noise => self.noise.length,
        }
    }

    pub open spec fn channel_halt_set(self, target: LengthTarget, halt: bool) -> Self {
        match target {
            LengthTarget::Pulse1 => Apu { pulse1: self.pulse1.after_set_halt(halt), ..self },
            LengthTarget::Pulse2 => Apu { pulse2: self.pulse2.after_set_halt(halt), ..self },
            LengthTarget::Triangle => Apu { triangle: self.triangle.after_set_halt(halt), ..self },
            LengthTarget::Noise => Apu { noise: self.noise.after_set_halt(halt), ..self },
        }
    }

    pub open spec fn channel_length_loaded(self, target: LengthTarget, v: u8) -> Self {
        match target {
            LengthTarget::Pulse1 => Apu { pulse1: self.pulse1.after_load_length(v), ..self },
            LengthTarget::Pulse2 => Apu { pulse2: self.pulse2.after_load_length(v), ..self },
            LengthTarget::Triangle => Apu { triangle: self.triangle.after_load_length(v), ..self },
            LengthTarget::Noise => Apu { noise: self.noise.after_load_length(v), ..self },
        }
    }

    /// The deferred write: a halt change, or a length load that only lands
    /// on a counter the frame clock just left at zero.
    pub open spec fn length_write_applied(self) -> Self {
        let s = Apu { pending_length_write: None, ..self };
        match self.pending_length_write {
            None => self,
            Some(PendingLengthWrite::Halt { target, halt }) => s.channel_halt_set(target, halt),
            Some(PendingLengthWrite::Reload { target, value }) =>
                if s.channel_length(target) == 0 { s.channel_length_loaded(target, value) } else { s },
        }
    }

    fn apply_pending_length_write(&mut self)
        requires old(self).wf(),
        ensures *final(self) == old(self).length_write_applied(), final(self).wf(),
    {
        let write = match self.pending_length_write {
            Some(w) => w,
            None => return,
        };
        self.pending_length_write = None;
        match write {
            PendingLengthWrite::Halt { target, halt } => self.set_channel_halt(target, halt),
            PendingLengthWrite::Reload { target, value } => {
                if self.channel_length_of(target) == 0 {
                    self.load_channel_length(target, value);
                }
            },
        }
    }

    fn set_channel_halt(&mut self, target: LengthTarget, halt: bool)
        requires old(self).wf(),
        ensures *final(self) == old(self).channel_halt_set(target, halt), final(self).wf(),
    {
        match target {
            LengthTarget::Pulse1 => self.pulse1.set_halt(halt),
            LengthTarget::Pulse2 => self.pulse2.set_halt(halt),
            LengthTarget::Triangle => self.triangle.set_halt(halt),
            LengthTarget::Noise => self.noise.set_halt(halt),
        }
    }

    fn channel_length_of(&self, target: LengthTarget) -> (r: u8)
        ensures r == self.channel_length(target),
    {
        match target {
            LengthTarget::Pulse1 => self.pulse1.length,
            LengthTarget::Pulse2 => self.pulse2.length,
            LengthTarget::Triangle => self.triangle.length,
            LengthTarget::Noise => self.noise.length,
        }
    }

    fn load_channel_length(&mut self, target: LengthTarget, v: u8)
        requires old(self).wf(),
        ensures *final(self) == old(self).channel_length_loaded(target, v), final(self).wf(),
    {
        match target {
            LengthTarget::Pulse1 => self.pulse1.load_length(v),
            LengthTarget::Pulse2 => self.pulse2.load_length(v),
            LengthTarget::Triangle => self.triangle.load_length(v),
            LengthTarget::Noise => self.noise.load_length(v),
        }
    }

    /// One CPU cycle: the triangle and DMC timers every cycle, the pulse and
    /// noise timers every other one, then the frame sequencer, a delayed
    /// `$4017` write and a deferred length write.
    pub open spec fn ticked(self) -> Self {
        let s1 = Apu { triangle: self.triangle.timer_clocked(), dmc: self.dmc.ticked(), ..self };
        let s2 = if self.even {
            Apu { pulse1: s1.pulse1.timer_clocked(), pulse2: s1.pulse2.timer_clocked(), noise: s1.noise.timer_clocked(), ..s1 }
        } else { s1 };
        Apu { even: !self.even, ..s2 }.frame_stepped().frame_reset_clocked().length_write_applied()
    }

    pub fn tick(&mut self)
        requires old(self).wf(),
        ensures *final(self) == old(self).ticked(), final(self).wf(),
    {
        self.triangle.clock_timer();
        self.dmc.tick();
        if self.even {
            self.pulse1.clock_timer();
            self.pulse2.clock_timer();
            self.noise.clock_timer();
        }
        self.even = !self.even;
        self.clock_frame_sequencer();
        self.clock_pending_frame_reset();
        self.apply_pending_length_write();
    }
}

impl Apu {
    // ---------------------------------------------------- registers

    /// `$4015` write: channel enables (bits 0-3; disabling zeroes the
    /// length), the DMC enable (bit 4), and the DMC IRQ acknowledged.
    pub open spec fn status_written(self, v: u8) -> Self {
        let e1 = v % 2 == 1;
        let e2 = (v / 2) % 2 == 1;
        let e3 = (v / 4) % 2 == 1;
        let e4 = (v / 8) % 2 == 1;
        Apu {
            pulse1: self.pulse1.enable_set(e1),
            pulse2: self.pulse2.enable_set(e2),
            triangle: self.triangle.enable_set(e3),
            noise: self.noise.enable_set(e4),
            dmc: Dmc { irq_flag: false, ..self.dmc.enabled_set((v / 16) % 2 == 1) },
            ..self
        }
    }

    pub fn write_status(&mut self, v: u8)
        requires old(self).wf(),
        ensures *final(self) == old(self).status_written(v), final(self).wf(),
    {
        let mut p1 = self.pulse1;
        p1.set_enabled(v % 2 == 1);
        let mut p2 = self.pulse2;
        p2.set_enabled((v / 2) % 2 == 1);
        let mut t = self.triangle;
        t.set_enabled((v / 4) % 2 == 1);
        let mut n = self.noise;
        n.set_enabled((v / 8) % 2 == 1);
        let mut d = self.dmc;
        d.enable_from_status((v / 16) % 2 == 1);
        *self = Apu { pulse1: p1, pulse2: p2, triangle: t, noise: n, dmc: d, ..*self };
    }

    /// `$4017` write: the IRQ inhibit applies at once (acknowledging the frame
    /// IRQ); the mode change lands after 3 or 4 cycles depending on parity.
    pub open spec fn frame_counter_written(self, v: u8) -> Self {
        let inhibit = (v / 64) % 2 == 1;
        Apu {
            irq_inhibit: inhibit,
            frame_irq: if inhibit { false } else { self.frame_irq },
            frame_reset_value: v,
            frame_reset_delay: if self.even { 3 } else { 4 },
            ..self
        }
    }

    pub fn write_frame_counter(&mut self, v: u8)
        requires old(self).wf(),
        ensures *final(self) == old(self).frame_counter_written(v), final(self).wf(),
    {
        self.irq_inhibit = (v / 64) % 2 == 1;
        if self.irq_inhibit {
            self.frame_irq = false;
        }
        self.frame_reset_value = v;
        self.frame_reset_delay = if self.even { 3 } else { 4 };
    }

    /// A write to pulse register `reg` (0-3) of either pulse channel; a
    /// halt or length write deferred by a cycle when lengths clock next.
    pub open spec fn pulse_written(self, second: bool, reg: u16, v: u8) -> Self {
        let defer = self.length_clock_next();
        let target = if second { LengthTarget::Pulse2 } else { LengthTarget::Pulse1 };
        let p = (if second { self.pulse2 } else { self.pulse1 }).reg_written(reg, v, defer);
        let pending = if defer && reg == 0 { Some(PendingLengthWrite::Halt { target, halt: (v / 32) % 2 == 1 }) }
            else if defer && reg == 3 { Some(PendingLengthWrite::Reload { target, value: v }) }
            else { self.pending_length_write };
        if second { Apu { pulse2: p, pending_length_write: pending, ..self } }
        else { Apu { pulse1: p, pending_length_write: pending, ..self } }
    }

    /// A write to triangle register `reg` (0, 2 or 3).
    pub open spec fn triangle_written(self, reg: u16, v: u8) -> Self {
        let defer = self.length_clock_next();
        let pending = if defer && reg == 0 { Some(PendingLengthWrite::Halt { target: LengthTarget::Triangle, halt: v >= 128 }) }
            else if defer && reg == 3 { Some(PendingLengthWrite::Reload { target: LengthTarget::Triangle, value: v }) }
            else { self.pending_length_write };
        Apu { triangle: self.triangle.reg_written(reg, v, defer), pending_length_write: pending, ..self }
    }

    /// A write to noise register `reg` (0, 2 or 3).
    pub open spec fn noise_written(self, reg: u16, v: u8) -> Self {
        let defer = self.length_clock_next();
        let pending = if defer && reg == 0 { Some(PendingLengthWrite::Halt { target: LengthTarget::Noise, halt: (v / 32) % 2 == 1 }) }
            else if defer && reg == 3 { Some(PendingLengthWrite::Reload { target: LengthTarget::Noise, value: v }) }
            else { self.pending_length_write };
        Apu { noise: self.noise.reg_written(reg, v, defer, self.region), pending_length_write: pending, ..self }
    }

    /// A CPU write to `$4000-$4017`.
    pub open spec fn written(self, addr: u16, v: u8) -> Self {
        if 0x4000 <= addr <= 0x4003 { self.pulse_written(false, (addr - 0x4000) as u16, v) }
        else if 0x4004 <= addr <= 0x4007 { self.pulse_written(true, (addr - 0x4004) as u16, v) }
        else if addr == 0x4008 || addr == 0x400A || addr == 0x400B { self.triangle_written((addr - 0x4008) as u16, v) }
        else if addr == 0x400C || addr == 0x400E || addr == 0x400F { self.noise_written((addr - 0x400C) as u16, v) }
        else if 0x4010 <= addr <= 0x4013 { Apu { dmc: self.dmc.reg_written((addr - 0x4010) as u16, v, self.region), ..self } }
        else if addr == 0x4015 { self.status_written(v) }
        else if addr == 0x4017 { self.frame_counter_written(v) }
        else { self }
    }

    fn write_pulse(&mut self, second: bool, reg: u16, v: u8)
        requires old(self).wf(), reg < 4,
        ensures *final(self) == old(self).pulse_written(second, reg, v), final(self).wf(),
    {
        let defer = self.will_clock_length_next_tick();
        let target = if second { LengthTarget::Pulse2 } else { LengthTarget::Pulse1 };
        if defer && reg == 0 {
            self.pending_length_write = Some(PendingLengthWrite::Halt { target, halt: (v / 32) % 2 == 1 });
        } else if defer && reg == 3 {
            self.pending_length_write = Some(PendingLengthWrite::Reload { target, value: v });
        }
        if second {
            let mut p = self.pulse2;
            p.write_reg(reg, v, defer);
            self.pulse2 = p;
        } else {
            let mut p = self.pulse1;
            p.write_reg(reg, v, defer);
            self.pulse1 = p;
        }
    }

    fn write_triangle(&mut self, reg: u16, v: u8)
        requires old(self).wf(),
        ensures *final(self) == old(self).triangle_written(reg, v), final(self).wf(),
    {
        let defer = self.will_clock_length_next_tick();
        if defer && reg == 0 {
            self.pending_length_write = Some(PendingLengthWrite::Halt { target: LengthTarget::Triangle, halt: v >= 128 });
        } else if defer && reg == 3 {
            self.pending_length_write = Some(PendingLengthWrite::Reload { target: LengthTarget::Triangle, value: v });
        }
        let mut t = self.triangle;
        t.write_reg(reg, v, defer);
        self.triangle = t;
    }

    fn write_noise(&mut self, reg: u16, v: u8)
        requires old(self).wf(),
        ensures *final(self) == old(self).noise_written(reg, v), final(self).wf(),
    {
        let defer = self.will_clock_length_next_tick();
        if defer && reg == 0 {
            self.pending_length_write = Some(PendingLengthWrite::Halt { target: LengthTarget::Noise, halt: (v / 32) % 2 == 1 });
        } else if defer && reg == 3 {
            self.pending_length_write = Some(PendingLengthWrite::Reload { target: LengthTarget::Noise, value: v });
        }
        let mut n = self.noise;
        n.write_reg(reg, v, defer, self.region);
        self.noise = n;
    }

    pub fn write(&mut self, addr: u16, value: u8)
        requires old(self).wf(),
        ensures *final(self) == old(self).written(addr, value), final(self).wf(),
    {
        if 0x4000 <= addr && addr <= 0x4003 {
            self.write_pulse(false, addr - 0x4000, value);
        } else if 0x4004 <= addr && addr <= 0x4007 {
            self.write_pulse(true, addr - 0x4004, value);
        } else if addr == 0x4008 || addr == 0x400A || addr == 0x400B {
            self.write_triangle(addr - 0x4008, value);
        } else if addr == 0x400C || addr == 0x400E || addr == 0x400F {
            self.write_noise(addr - 0x400C, value);
        } else if 0x4010 <= addr && addr <= 0x4013 {
            let mut d = self.dmc;
            d.write_reg(addr - 0x4010, value, self.region);
            self.dmc = d;
        } else if addr == 0x4015 {
            self.write_status(value);
        } else if addr == 0x4017 {
            self.write_frame_counter(value);
        }
    }

    /// The `$4015` read value: length-active bits for the four channels
    /// (bits 0-3), DMC bytes left (bit 4), frame IRQ (bit 6), DMC IRQ (bit 7).
    pub open spec fn status(self) -> u8 {
        ((if self.pulse1.length > 0 { 1int } else { 0 }) + (if self.pulse2.length > 0 { 2int } else { 0 })
            + (if self.triangle.length > 0 { 4int } else { 0 }) + (if self.noise.length > 0 { 8int } else { 0 })
            + (if self.dmc.bytes_remaining > 0 { 0x10int } else { 0 }) + (if self.frame_irq { 0x40int } else { 0 })
            + (if self.dmc.irq_flag { 0x80int } else { 0 })) as u8
    }

    /// Reading `$4015` returns the status and acknowledges the frame IRQ.
    pub fn read_status(&mut self) -> (r: u8)
        requires old(self).wf(),
        ensures r == old(self).status(), *final(self) == (Apu { frame_irq: false, ..*old(self) }), final(self).wf(),
    {
        let mut s: u8 = 0;
        if self.pulse1.length > 0 {
            s = s + 0x01;
        }
        if self.pulse2.length > 0 {
            s = s + 0x02;
        }
        if self.triangle.length > 0 {
            s = s + 0x04;
        }
        if self.noise.length > 0 {
            s = s + 0x08;
        }
        if self.dmc.bytes_remaining > 0 {
            s = s + 0x10;
        }
        if self.frame_irq {
            s = s + 0x40;
        }
        if self.dmc.irq_flag {
            s = s + 0x80;
        }
        self.frame_irq = false;
        s
    }

    /// Reset: all channels disabled, IRQs and a deferred length write
    /// dropped, and the last `$4017` value re-applied with the power-on
    /// advance.
    pub open spec fn after_reset(self) -> Self {
        Apu { frame_irq: false, pending_length_write: None, ..self.status_written(0) }
            .frame_reset(self.frame_reset_value, RESET_FRAME_ADVANCE)
    }

    pub fn reset(&mut self)
        requires old(self).wf(),
        ensures *final(self) == old(self).after_reset(), final(self).wf(),
    {
        let frame_value = self.frame_reset_value;
        self.write_status(0);
        self.frame_irq = false;
        self.pending_length_write = None;
        self.apply_frame_reset(frame_value, RESET_FRAME_ADVANCE);
    }

    /// The five channel output levels (pulse 1, pulse 2, triangle, noise,
    /// DMC) that the mixer combines.
    pub fn outputs(&self) -> (r: [u8; 5])
        requires self.wf(),
        ensures r@ == seq![self.pulse1.output(), self.pulse2.output(), self.triangle.output(), self.noise.output(), self.dmc.output],
    {
        let r = [self.pulse1.output(), self.pulse2.output(), self.triangle.output(), self.noise.output(), self.dmc.output()];
        assert(r@ =~= seq![self.pulse1.output(), self.pulse2.output(), self.triangle.output(), self.noise.output(), self.dmc.output]);
        r
    }

    /// Per channel: is it sounding (length or bytes left) and its level on a
    /// 0-15 scale (the DMC's 7-bit level divided by 8).
    pub open spec fn channel_view(self) -> Seq<(bool, u8)> {
        seq![
            (self.pulse1.enabled && self.pulse1.length > 0, self.pulse1.output()),
            (self.pulse2.enabled && self.pulse2.length > 0, self.pulse2.output()),
            (self.triangle.enabled && self.triangle.length > 0, if self.triangle.output() < 15 { self.triangle.output() } else { 15u8 }),
            (self.noise.enabled && self.noise.length > 0, self.noise.output()),
            (self.dmc.bytes_remaining > 0, if self.dmc.output / 8 < 15 { self.dmc.output / 8 } else { 15u8 }),
        ]
    }

    pub fn debug_channels(&self) -> (r: [(bool, u8); 5])
        requires self.wf(),
        ensures r@ == self.channel_view(),
    {
        let t = self.triangle.output();
        let d = self.dmc.output() / 8;
        let r = [
            (self.pulse1.enabled && self.pulse1.length > 0, self.pulse1.output()),
            (self.pulse2.enabled && self.pulse2.length > 0, self.pulse2.output()),
            (self.triangle.enabled && self.triangle.length > 0, if t < 15 { t } else { 15 }),
            (self.noise.enabled && self.noise.length > 0, self.noise.output()),
            (self.dmc.bytes_remaining > 0, if d < 15 { d } else { 15 }),
        ];
        assert(r@ =~= self.channel_view());
        r
    }
}


/// Writing `$4015` with a channel's enable bit clear makes `$4015` report
/// that channel inactive (length zero, or no DMC bytes left), and always
/// acknowledges the DMC IRQ.
pub proof fn lemma_disabled_channels_read_inactive(a: Apu, v: u8)
    requires a.wf(),
    ensures
        ({
            let st = a.written(0x4015, v).status();
            &&& v % 2 == 0 ==> st % 2 == 0
            &&& (v / 2) % 2 == 0 ==> (st / 2) % 2 == 0
            &&& (v / 4) % 2 == 0 ==> (st / 4) % 2 == 0
            &&& (v / 8) % 2 == 0 ==> (st / 8) % 2 == 0
            &&& (v / 16) % 2 == 0 ==> (st / 16) % 2 == 0
            &&& st / 128 == 0
        }),
{
}


/// Negate-mode sweeps never mute a pulse channel: only a period below 8
/// does. The negated target of a small period wraps around instead of
/// overflowing, and that is not an overflow.
pub proof fn lemma_negate_sweep_never_mutes(p: Pulse)
    requires p.wf(), p.sweep_negate, p.timer_period >= 8,
    ensures !p.muted(),
{
}

/// Law: a half-frame clock counts down every channel's length counter
/// (both pulses, the triangle and the noise) by one when it is nonzero and
/// not halted, and leaves it otherwise; the triangle's other state is kept.
pub proof fn lemma_half_frame_lengths(a: Apu)
    ensures
        a.halved().pulse1.length == (if !a.pulse1.halt && a.pulse1.length > 0 { a.pulse1.length - 1 } else { a.pulse1.length as int }),
        a.halved().pulse2.length == (if !a.pulse2.halt && a.pulse2.length > 0 { a.pulse2.length - 1 } else { a.pulse2.length as int }),
        a.halved().triangle.length == (if !a.triangle.halt && a.triangle.length > 0 { a.triangle.length - 1 } else { a.triangle.length as int }),
        a.halved().noise.length == (if !a.noise.halt && a.noise.length > 0 { a.noise.length - 1 } else { a.noise.length as int }),
        a.halved().triangle.halt == a.triangle.halt,
        a.halved().triangle.enabled == a.triangle.enabled,
        a.halved().triangle.timer_period == a.triangle.timer_period,
{
}

} // verus!
