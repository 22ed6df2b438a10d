//! Debug event log: per-frame `(scanline, dot)`-tagged events for an event
//! viewer, double-buffered so a reader always sees a complete frame, plus
//! break-on-event rules and rising-edge detectors for level signals.

use vstd::prelude::*;
use vstd::string::StringSliceAdditionalSpecFns;

verus! {

use crate::bytes::matches_at;

/// Kinds of debug event; `bit` gives each kind's filter-mask bit.
#[derive(Debug, Clone, Copy, PartialEq, Eq, Structural)]
pub enum EventKind {
    PpuRegRead,
    PpuRegWrite,
    ApuRegRead,
    ApuRegWrite,
    CtrlRead,
    MapperRegWrite,
    Nmi,
    Irq,
    Sprite0Hit,
    OamDma,
    DmcDma,
}

pub open spec fn kind_index(k: EventKind) -> u16 {
    match k {
        EventKind::PpuRegRead => 0,
        EventKind::PpuRegWrite => 1,
        EventKind::ApuRegRead => 2,
        EventKind::ApuRegWrite => 3,
        EventKind::CtrlRead => 4,
        EventKind::MapperRegWrite => 5,
        EventKind::Nmi => 6,
        EventKind::Irq => 7,
        EventKind::Sprite0Hit => 8,
        EventKind::OamDma => 9,
        EventKind::DmcDma => 10,
    }
}

pub open spec fn kind_label(k: EventKind) -> Seq<u8> {
    match k {
        EventKind::PpuRegRead => "ppu_read".spec_bytes(),
        EventKind::PpuRegWrite => "ppu_write".spec_bytes(),
        EventKind::ApuRegRead => "apu_read".spec_bytes(),
        EventKind::ApuRegWrite => "apu_write".spec_bytes(),
        EventKind::CtrlRead => "ctrl_read".spec_bytes(),
        EventKind::MapperRegWrite => "mapper_write".spec_bytes(),
        EventKind::Nmi => "nmi".spec_bytes(),
        EventKind::Irq => "irq".spec_bytes(),
        EventKind::Sprite0Hit => "sprite0".spec_bytes(),
        EventKind::OamDma => "oam_dma".spec_bytes(),
        EventKind::DmcDma => "dmc_dma".spec_bytes(),
    }
}

/// The kind whose label is `s`, trying the kinds in declaration order.
pub open spec fn kind_from_label(s: Seq<u8>) -> Option<EventKind> {
    if s == kind_label(EventKind::PpuRegRead) { Some(EventKind::PpuRegRead) }
    else if s == kind_label(EventKind::PpuRegWrite) { Some(EventKind::PpuRegWrite) }
    else if s == kind_label(EventKind::ApuRegRead) { Some(EventKind::ApuRegRead) }
    else if s == kind_label(EventKind::ApuRegWrite) { Some(EventKind::ApuRegWrite) }
    else if s == kind_label(EventKind::CtrlRead) { Some(EventKind::CtrlRead) }
    else if s == kind_label(EventKind::MapperRegWrite) { Some(EventKind::MapperRegWrite) }
    else if s == kind_label(EventKind::Nmi) { Some(EventKind::Nmi) }
    else if s == kind_label(EventKind::Irq) { Some(EventKind::Irq) }
    else if s == kind_label(EventKind::Sprite0Hit) { Some(EventKind::Sprite0Hit) }
    else if s == kind_label(EventKind::OamDma) { Some(EventKind::OamDma) }
    else if s == kind_label(EventKind::DmcDma) { Some(EventKind::DmcDma) }
    else { None }
}

fn bytes_equal(a: &[u8], b: &[u8]) -> (r: bool)
    ensures r == (a@ == b@),
{
    if a.len() != b.len() {
        return false;
    }
    let r = matches_at(a, b, 0);
    assert(a@.subrange(0, b@.len() as int) =~= a@);
    r
}

impl EventKind {
    pub fn label(self) -> (r: &'static str)
        ensures r.spec_bytes() == kind_label(self),
    {
        match self {
            EventKind::PpuRegRead => "ppu_read",
            EventKind::PpuRegWrite => "ppu_write",
            EventKind::ApuRegRead => "apu_read",
            EventKind::ApuRegWrite => "apu_write",
            EventKind::CtrlRead => "ctrl_read",
            EventKind::MapperRegWrite => "mapper_write",
            EventKind::Nmi => "nmi",
            EventKind::Irq => "irq",
            EventKind::Sprite0Hit => "sprite0",
            EventKind::OamDma => "oam_dma",
            EventKind::DmcDma => "dmc_dma",
        }
    }

    /// Parse a kind from its label.
    pub fn from_label(s: &str) -> (r: Option<EventKind>)
        ensures r == kind_from_label(s.spec_bytes()),
    {
        let b = s.as_bytes();
        if bytes_equal(b, "ppu_read".as_bytes()) { Some(EventKind::PpuRegRead) }
        else if bytes_equal(b, "ppu_write".as_bytes()) { Some(EventKind::PpuRegWrite) }
        else if bytes_equal(b, "apu_read".as_bytes()) { Some(EventKind::ApuRegRead) }
        else if bytes_equal(b, "apu_write".as_bytes()) { Some(EventKind::ApuRegWrite) }
        else if bytes_equal(b, "ctrl_read".as_bytes()) { Some(EventKind::CtrlRead) }
        else if bytes_equal(b, "mapper_write".as_bytes()) { Some(EventKind::MapperRegWrite) }
        else if bytes_equal(b, "nmi".as_bytes()) { Some(EventKind::Nmi) }
        else if bytes_equal(b, "irq".as_bytes()) { Some(EventKind::Irq) }
        else if bytes_equal(b, "sprite0".as_bytes()) { Some(EventKind::Sprite0Hit) }
        else if bytes_equal(b, "oam_dma".as_bytes()) { Some(EventKind::OamDma) }
        else if bytes_equal(b, "dmc_dma".as_bytes()) { Some(EventKind::DmcDma) }
        else { None }
    }

    /// Filter-mask bit for this kind.
    pub fn bit(self) -> (r: u16)
        ensures r == 1u16 << kind_index(self), kind_index(self) < 11,
    {
        match self {
            EventKind::PpuRegRead => 1u16 << 0u16,
            EventKind::PpuRegWrite => 1u16 << 1u16,
            EventKind::ApuRegRead => 1u16 << 2u16,
            EventKind::ApuRegWrite => 1u16 << 3u16,
            EventKind::CtrlRead => 1u16 << 4u16,
            EventKind::MapperRegWrite => 1u16 << 5u16,
            EventKind::Nmi => 1u16 << 6u16,
            EventKind::Irq => 1u16 << 7u16,
            EventKind::Sprite0Hit => 1u16 << 8u16,
            EventKind::OamDma => 1u16 << 9u16,
            EventKind::DmcDma => 1u16 << 10u16,
        }
    }

    /// True for the read/write register kinds; false for the signal and DMA
    /// kinds (NMI, IRQ, sprite-0 hit, OAM DMA, DMC DMA).
    pub fn is_write(self) -> (r: bool)
        ensures
            r == (self == EventKind::PpuRegRead || self == EventKind::PpuRegWrite
                || self == EventKind::ApuRegRead || self == EventKind::ApuRegWrite
                || self == EventKind::CtrlRead || self == EventKind::MapperRegWrite),
    {
        match self {
            EventKind::PpuRegRead | EventKind::PpuRegWrite | EventKind::ApuRegRead
            | EventKind::ApuRegWrite | EventKind::CtrlRead | EventKind::MapperRegWrite => true,
            _ => false,
        }
    }
}

/// IRQ origin for `EventKind::Irq` events (`source` field); 0 = not an IRQ.
#[derive(Debug, Clone, Copy, PartialEq, Eq, Structural)]
pub enum IrqSource {
    ApuFrame,
    Dmc,
    Mapper,
}

impl IrqSource {
    pub fn code(self) -> (r: u8)
        ensures r == (match self { IrqSource::ApuFrame => 1u8, IrqSource::Dmc => 2u8, IrqSource::Mapper => 3u8 }),
    {
        match self {
            IrqSource::ApuFrame => 1,
            IrqSource::Dmc => 2,
            IrqSource::Mapper => 3,
        }
    }
}

/// Which unit an IRQ edge is attributed to: the mapper when its line is
/// asserted, else the DMC, else the APU frame counter.
pub fn irq_source(mapper_irq: bool, dmc_irq: bool) -> (r: IrqSource)
    ensures r == (if mapper_irq { IrqSource::Mapper } else if dmc_irq { IrqSource::Dmc } else { IrqSource::ApuFrame }),
{
    if mapper_irq {
        IrqSource::Mapper
    } else if dmc_irq {
        IrqSource::Dmc
    } else {
        IrqSource::ApuFrame
    }
}

/// One recorded event, tagged with the PPU position at which it occurred.
#[derive(Debug, Clone, Copy, PartialEq, Eq, Structural)]
pub struct Event {
    pub kind: EventKind,
    pub scanline: u16,
    pub dot: u16,
    pub addr: u16,
    pub value: u8,
    pub source: u8,
}

/// A break-on-event rule, optionally limited to a register address and a
/// `(scanline, dot)` window.
#[derive(Debug, Clone, Copy, PartialEq, Eq, Structural)]
pub struct EventBp {
    pub id: u32,
    /// Mask of `EventKind::bit`s to match; 0 = any kind.
    pub kinds: u16,
    pub addr: Option<u16>,
    pub scan_lo: u16,
    pub scan_hi: u16,
    pub dot_lo: u16,
    pub dot_hi: u16,
    pub enabled: bool,
}

pub open spec fn bp_matches(bp: EventBp, ev: Event) -> bool {
    &&& bp.enabled
    &&& (bp.kinds == 0 || bp.kinds & (1u16 << kind_index(ev.kind)) != 0)
    &&& (bp.addr is None || bp.addr == Some(ev.addr))
    &&& bp.scan_lo <= ev.scanline <= bp.scan_hi
    &&& bp.dot_lo <= ev.dot <= bp.dot_hi
}

impl EventBp {
    pub fn matches(&self, ev: &Event) -> (r: bool)
        ensures r == bp_matches(*self, *ev),
    {
        self.enabled
            && (self.kinds == 0 || self.kinds & ev.kind.bit() != 0)
            && (match self.addr { None => true, Some(a) => a == ev.addr })
            && ev.scanline >= self.scan_lo
            && ev.scanline <= self.scan_hi
            && ev.dot >= self.dot_lo
            && ev.dot <= self.dot_hi
    }
}

/// Per-frame event cap.
pub const DEFAULT_CAP: usize = 16_384;
/// All eleven kinds enabled.
pub const ALL_TYPES: u16 = 0x07FF;

/// Double-buffered per-frame event recorder.
#[derive(Debug, Clone)]
pub struct EventLog {
    /// Recording gate.
    pub recording: bool,
    /// Per-kind enable mask.
    pub type_mask: u16,
    pub cap: usize,
    /// The last complete frame.
    pub front: Vec<Event>,
    /// The frame being recorded.
    pub back: Vec<Event>,
    pub front_dropped: u32,
    pub back_dropped: u32,
    pub event_bps: Vec<EventBp>,
    pub next_bp_id: u32,
    pub hit: Option<Event>,
    pub prev_sprite0: bool,
    pub prev_irq: bool,
}

pub open spec fn any_match(bps: Seq<EventBp>, ev: Event) -> bool {
    exists|i: int| 0 <= i < bps.len() && bp_matches(#[trigger] bps[i], ev)
}

pub open spec fn any_enabled(bps: Seq<EventBp>) -> bool {
    exists|i: int| 0 <= i < bps.len() && (#[trigger] bps[i]).enabled
}

pub open spec fn without_bp(bps: Seq<EventBp>, id: u32) -> Seq<EventBp>
    decreases bps.len(),
{
    if bps.len() == 0 {
        bps
    } else {
        let rest = without_bp(bps.drop_last(), id);
        if bps.last().id == id { rest } else { rest.push(bps.last()) }
    }
}

/// The rules and the id counter agree.
pub open spec fn same_rules(a: EventLog, b: EventLog) -> bool {
    a.event_bps@ == b.event_bps@ && a.next_bp_id == b.next_bp_id
}

/// Recording gate, kind filter and cap agree.
pub open spec fn same_config(a: EventLog, b: EventLog) -> bool {
    a.recording == b.recording && a.type_mask == b.type_mask && a.cap == b.cap
}

/// Both frame buffers and their drop counters agree.
pub open spec fn same_frames(a: EventLog, b: EventLog) -> bool {
    a.front@ == b.front@ && a.back@ == b.back@ && a.front_dropped == b.front_dropped
        && a.back_dropped == b.back_dropped
}

/// The two edge detectors agree.
pub open spec fn same_edges(a: EventLog, b: EventLog) -> bool {
    a.prev_sprite0 == b.prev_sprite0 && a.prev_irq == b.prev_irq
}

/// Every rule's id is at most the last id handed out.
pub open spec fn ids_issued(log: EventLog) -> bool {
    forall|i: int| 0 <= i < log.event_bps@.len() ==> (#[trigger] log.event_bps@[i]).id <= log.next_bp_id
}

/// Whether `record` keeps an event of this kind: its bit is set in the mask.
pub open spec fn kind_enabled(log: EventLog, kind: EventKind) -> bool {
    log.type_mask & (1u16 << kind_index(kind)) != 0
}

/// The frame being recorded after `record` of `ev`.
pub open spec fn recorded_back(log: EventLog, ev: Event) -> Seq<Event> {
    if kind_enabled(log, ev.kind) && log.back@.len() < log.cap { log.back@.push(ev) } else { log.back@ }
}

/// The drop counter of the frame being recorded after `record` of `ev`.
pub open spec fn recorded_dropped(log: EventLog, ev: Event) -> int {
    if kind_enabled(log, ev.kind) && log.back@.len() >= log.cap { log.back_dropped + 1 } else { log.back_dropped as int }
}

impl Default for EventLog {
    /// An idle log: not recording, every kind allowed, the default cap.
    fn default() -> (r: EventLog)
        ensures
            !r.recording, r.type_mask == ALL_TYPES, r.cap == DEFAULT_CAP,
            r.front@.len() == 0, r.back@.len() == 0, r.front_dropped == 0, r.back_dropped == 0,
            r.event_bps@.len() == 0, r.next_bp_id == 0, r.hit is None, !r.prev_sprite0, !r.prev_irq,
            ids_issued(r),
    {
        EventLog {
            recording: false,
            type_mask: ALL_TYPES,
            cap: DEFAULT_CAP,
            front: Vec::new(),
            back: Vec::new(),
            front_dropped: 0,
            back_dropped: 0,
            event_bps: Vec::new(),
            next_bp_id: 0,
            hit: None,
            prev_sprite0: false,
            prev_irq: false,
        }
    }
}

impl EventLog {
    /// Append an event to the current frame: filtered by `type_mask`; at the
    /// cap the drop counter counts it instead.
    pub fn record(&mut self, kind: EventKind, scanline: u16, dot: u16, addr: u16, value: u8, source: u8)
        requires old(self).back_dropped < u32::MAX,
        ensures
            final(self).back@ == recorded_back(*old(self), (Event { kind, scanline, dot, addr, value, source })),
            final(self).back_dropped == recorded_dropped(*old(self), (Event { kind, scanline, dot, addr, value, source })),
            !kind_enabled(*old(self), kind) ==> *final(self) == *old(self),
            final(self).front@ == old(self).front@,
            final(self).front_dropped == old(self).front_dropped,
            same_config(*final(self), *old(self)),
            same_rules(*final(self), *old(self)),
            same_edges(*final(self), *old(self)),
            final(self).hit == old(self).hit,
    {
        if self.type_mask & kind.bit() == 0 {
            return;
        }
        if self.back.len() >= self.cap {
            self.back_dropped = self.back_dropped + 1;
            return;
        }
        self.back.push(Event { kind, scanline, dot, addr, value, source });
    }

    /// Record the event (when recording) and latch the first event that
    /// matches a break-on-event rule.
    pub fn on_event(&mut self, kind: EventKind, scanline: u16, dot: u16, addr: u16, value: u8, source: u8)
        requires old(self).back_dropped < u32::MAX,
        ensures
            ({
                let ev = Event { kind, scanline, dot, addr, value, source };
                final(self).hit == (if old(self).hit is None && any_match(old(self).event_bps@, ev) { Some(ev) } else { old(self).hit })
            }),
            old(self).recording ==> final(self).back@ == recorded_back(*old(self), (Event { kind, scanline, dot, addr, value, source }))
                && final(self).back_dropped == recorded_dropped(*old(self), (Event { kind, scanline, dot, addr, value, source })),
            !old(self).recording ==> final(self).back@ == old(self).back@ && final(self).back_dropped == old(self).back_dropped,
            final(self).front@ == old(self).front@,
            final(self).front_dropped == old(self).front_dropped,
            same_config(*final(self), *old(self)),
            same_rules(*final(self), *old(self)),
            same_edges(*final(self), *old(self)),
    {
        if self.recording {
            self.record(kind, scanline, dot, addr, value, source);
        }
        if self.hit.is_none() && self.event_bps.len() > 0 {
            let ev = Event { kind, scanline, dot, addr, value, source };
            let mut i: usize = 0;
            let mut found = false;
            while i < self.event_bps.len()
                invariant
                    i <= self.event_bps@.len(),
                    found == (exists|k: int| 0 <= k < i && bp_matches(#[trigger] self.event_bps@[k], ev)),
                decreases self.event_bps@.len() - i,
            {
                if self.event_bps[i].matches(&ev) {
                    found = true;
                }
                i += 1;
            }
            if found {
                self.hit = Some(ev);
            }
        }
    }

    /// Add a break-on-event rule; `window` is `(scan_lo, scan_hi, dot_lo,
    /// dot_hi)`, `None` meaning the whole frame. Returns the new rule's id.
    pub fn add_event_bp(&mut self, kinds: u16, addr: Option<u16>, window: Option<(u16, u16, u16, u16)>) -> (r: u32)
        requires old(self).next_bp_id < u32::MAX,
        ensures
            r == old(self).next_bp_id + 1,
            final(self).next_bp_id == r,
            ({
                let (scan_lo, scan_hi, dot_lo, dot_hi) = match window { Some(w) => w, None => (0u16, 0xFFFFu16, 0u16, 0xFFFFu16) };
                final(self).event_bps@ == old(self).event_bps@.push(EventBp { id: r, kinds, addr, scan_lo, scan_hi, dot_lo, dot_hi, enabled: true })
            }),
            ids_issued(*old(self)) ==> ids_issued(*final(self))
                && forall|i: int| 0 <= i < old(self).event_bps@.len() ==> (#[trigger] old(self).event_bps@[i]).id < r,
            final(self).hit == old(self).hit,
            same_frames(*final(self), *old(self)),
            same_config(*final(self), *old(self)),
            same_edges(*final(self), *old(self)),
    {
        self.next_bp_id = self.next_bp_id + 1;
        let id = self.next_bp_id;
        let (scan_lo, scan_hi, dot_lo, dot_hi) = match window {
            Some(w) => w,
            None => (0u16, 0xFFFFu16, 0u16, 0xFFFFu16),
        };
        self.event_bps.push(EventBp { id, kinds, addr, scan_lo, scan_hi, dot_lo, dot_hi, enabled: true });
        id
    }

    /// Remove every rule with this id.
    pub fn remove_event_bp(&mut self, id: u32)
        ensures
            final(self).event_bps@ == without_bp(old(self).event_bps@, id),
            final(self).hit == old(self).hit,
            final(self).next_bp_id == old(self).next_bp_id,
            ids_issued(*old(self)) ==> ids_issued(*final(self)),
            same_frames(*final(self), *old(self)),
            same_config(*final(self), *old(self)),
            same_edges(*final(self), *old(self)),
    {
        let mut kept: Vec<EventBp> = Vec::new();
        let mut i: usize = 0;
        while i < self.event_bps.len()
            invariant
                i <= self.event_bps@.len(),
                kept@ == without_bp(self.event_bps@.subrange(0, i as int), id),
                ids_issued(*self) ==> forall|k: int| 0 <= k < kept@.len() ==> (#[trigger] kept@[k]).id <= self.next_bp_id,
            decreases self.event_bps@.len() - i,
        {
            let bp = self.event_bps[i];
            assert(self.event_bps@.subrange(0, i + 1).drop_last() =~= self.event_bps@.subrange(0, i as int));
            if bp.id != id {
                kept.push(bp);
            }
            i += 1;
        }
        assert(self.event_bps@.subrange(0, self.event_bps@.len() as int) =~= self.event_bps@);
        self.event_bps = kept;
    }

    pub fn clear_event_bps(&mut self)
        ensures
            final(self).event_bps@.len() == 0, final(self).hit is None, final(self).next_bp_id == old(self).next_bp_id,
            ids_issued(*final(self)),
            same_frames(*final(self), *old(self)),
            same_config(*final(self), *old(self)),
            same_edges(*final(self), *old(self)),
    {
        self.event_bps.clear();
        self.hit = None;
    }

    pub fn has_event_bp(&self) -> (r: bool)
        ensures r == any_enabled(self.event_bps@),
    {
        let mut i: usize = 0;
        while i < self.event_bps.len()
            invariant
                i <= self.event_bps@.len(),
                forall|k: int| 0 <= k < i ==> !(#[trigger] self.event_bps@[k]).enabled,
            decreases self.event_bps@.len() - i,
        {
            if self.event_bps[i].enabled {
                return true;
            }
            i += 1;
        }
        false
    }

    /// Take the event that tripped a rule (clearing it).
    pub fn take_hit(&mut self) -> (r: Option<Event>)
        ensures
            r == old(self).hit, final(self).hit is None,
            same_rules(*final(self), *old(self)),
            same_frames(*final(self), *old(self)),
            same_config(*final(self), *old(self)),
            same_edges(*final(self), *old(self)),
    {
        self.hit.take()
    }

    /// Baseline the edge detectors to the current signal levels.
    pub fn arm_edges(&mut self, sprite0: bool, irq: bool)
        ensures
            final(self).prev_sprite0 == sprite0, final(self).prev_irq == irq, final(self).hit is None,
            same_rules(*final(self), *old(self)),
            same_frames(*final(self), *old(self)),
            same_config(*final(self), *old(self)),
    {
        self.prev_sprite0 = sprite0;
        self.prev_irq = irq;
        self.hit = None;
    }

    /// True exactly on a 0→1 transition of the sprite-0 signal.
    pub fn sprite0_edge(&mut self, asserted: bool) -> (r: bool)
        ensures r == (asserted && !old(self).prev_sprite0), final(self).prev_sprite0 == asserted,
            final(self).prev_irq == old(self).prev_irq,
            final(self).hit == old(self).hit,
            same_rules(*final(self), *old(self)),
            same_frames(*final(self), *old(self)),
            same_config(*final(self), *old(self)),
    {
        let edge = asserted && !self.prev_sprite0;
        self.prev_sprite0 = asserted;
        edge
    }

    /// True exactly on a 0→1 transition of the IRQ signal.
    pub fn irq_edge(&mut self, asserted: bool) -> (r: bool)
        ensures r == (asserted && !old(self).prev_irq), final(self).prev_irq == asserted,
            final(self).prev_sprite0 == old(self).prev_sprite0,
            final(self).hit == old(self).hit,
            same_rules(*final(self), *old(self)),
            same_frames(*final(self), *old(self)),
            same_config(*final(self), *old(self)),
    {
        let edge = asserted && !self.prev_irq;
        self.prev_irq = asserted;
        edge
    }

    /// Close the frame: the recorded frame becomes readable, recording
    /// starts afresh.
    pub fn end_frame(&mut self)
        ensures
            final(self).front@ == old(self).back@,
            final(self).front_dropped == old(self).back_dropped,
            final(self).back@.len() == 0,
            final(self).back_dropped == 0,
            same_config(*final(self), *old(self)),
            same_rules(*final(self), *old(self)),
            same_edges(*final(self), *old(self)),
            final(self).hit == old(self).hit,
    {
        std::mem::swap(&mut self.front, &mut self.back);
        self.front_dropped = self.back_dropped;
        self.back.clear();
        self.back_dropped = 0;
    }

    /// Events of the last complete frame.
    pub fn events(&self) -> (r: &[Event])
        ensures r@ == self.front@,
    {
        self.front.as_slice()
    }

    /// Events dropped (over the cap) in the last complete frame.
    pub fn dropped(&self) -> (r: u32)
        ensures r == self.front_dropped,
    {
        self.front_dropped
    }

    /// Clear per-frame data, keeping configuration and rules.
    pub fn reset_data(&mut self)
        ensures
            final(self).front@.len() == 0 && final(self).back@.len() == 0,
            final(self).front_dropped == 0 && final(self).back_dropped == 0,
            final(self).hit is None && !final(self).prev_sprite0 && !final(self).prev_irq,
            final(self).recording == old(self).recording,
            final(self).type_mask == old(self).type_mask,
            final(self).cap == old(self).cap,
            same_rules(*final(self), *old(self)),
    {
        self.front.clear();
        self.back.clear();
        self.front_dropped = 0;
        self.back_dropped = 0;
        self.hit = None;
        self.prev_sprite0 = false;
        self.prev_irq = false;
    }

    /// Turn recording on or off; turning it off discards recorded data.
    pub fn set_recording(&mut self, on: bool)
        ensures
            final(self).recording == on,
            !on ==> final(self).front@.len() == 0 && final(self).back@.len() == 0
                && final(self).front_dropped == 0 && final(self).back_dropped == 0
                && !final(self).prev_sprite0 && !final(self).prev_irq,
            on ==> same_frames(*final(self), *old(self)) && same_edges(*final(self), *old(self)),
            final(self).hit == old(self).hit,
            same_rules(*final(self), *old(self)),
            final(self).type_mask == old(self).type_mask,
            final(self).cap == old(self).cap,
    {
        self.recording = on;
        if !on {
            self.front.clear();
            self.back.clear();
            self.front_dropped = 0;
            self.back_dropped = 0;
            self.prev_sprite0 = false;
            self.prev_irq = false;
        }
    }

    /// Recompute the observing gate (recording, an enabled rule, or a
    /// heatmap). When it opens, the edge detectors are baselined to the
    /// current sprite-0 and IRQ levels so an already-high signal gives no
    /// edge. Returns the new gate.
    pub fn update_gate(&mut self, was: bool, heatmap: bool, sprite0: bool, irq: bool) -> (r: bool)
        ensures
            r == (old(self).recording || any_enabled(old(self).event_bps@) || heatmap),
            r && !was ==> final(self).prev_sprite0 == sprite0 && final(self).prev_irq == irq && final(self).hit is None,
            !(r && !was) ==> *final(self) == *old(self),
            same_rules(*final(self), *old(self)),
            same_frames(*final(self), *old(self)),
            same_config(*final(self), *old(self)),
    {
        let observing = self.recording || self.has_event_bp() || heatmap;
        if observing && !was {
            self.arm_edges(sprite0, irq);
        }
        observing
    }

    pub fn set_filter(&mut self, mask: u16)
        ensures
            final(self).type_mask == mask,
            final(self).recording == old(self).recording,
            final(self).cap == old(self).cap,
            final(self).hit == old(self).hit,
            same_frames(*final(self), *old(self)),
            same_rules(*final(self), *old(self)),
            same_edges(*final(self), *old(self)),
    {
        self.type_mask = mask;
    }
}


/// Every kind's label parses back to that kind.
pub proof fn lemma_label_round_trip(k: EventKind)
    ensures kind_from_label(kind_label(k)) == Some(k),
{
    broadcast use vstd::string::is_ascii_spec_bytes;
    reveal_strlit("ppu_read");
    assert(vstd::string::is_ascii("ppu_read"));
    assert(kind_label(EventKind::PpuRegRead).len() == 8 && kind_label(EventKind::PpuRegRead)[0] == 112);
    reveal_strlit("ppu_write");
    assert(vstd::string::is_ascii("ppu_write"));
    assert(kind_label(EventKind::PpuRegWrite).len() == 9 && kind_label(EventKind::PpuRegWrite)[0] == 112);
    reveal_strlit("apu_read");
    assert(vstd::string::is_ascii("apu_read"));
    assert(kind_label(EventKind::ApuRegRead).len() == 8 && kind_label(EventKind::ApuRegRead)[0] == 97);
    reveal_strlit("apu_write");
    assert(vstd::string::is_ascii("apu_write"));
    assert(kind_label(EventKind::ApuRegWrite).len() == 9 && kind_label(EventKind::ApuRegWrite)[0] == 97);
    reveal_strlit("ctrl_read");
    assert(vstd::string::is_ascii("ctrl_read"));
    assert(kind_label(EventKind::CtrlRead).len() == 9 && kind_label(EventKind::CtrlRead)[0] == 99);
    reveal_strlit("mapper_write");
    assert(vstd::string::is_ascii("mapper_write"));
    assert(kind_label(EventKind::MapperRegWrite).len() == 12 && kind_label(EventKind::MapperRegWrite)[0] == 109);
    reveal_strlit("nmi");
    assert(vstd::string::is_ascii("nmi"));
    assert(kind_label(EventKind::Nmi).len() == 3 && kind_label(EventKind::Nmi)[0] == 110);
    reveal_strlit("irq");
    assert(vstd::string::is_ascii("irq"));
    assert(kind_label(EventKind::Irq).len() == 3 && kind_label(EventKind::Irq)[0] == 105);
    reveal_strlit("sprite0");
    assert(vstd::string::is_ascii("sprite0"));
    assert(kind_label(EventKind::Sprite0Hit).len() == 7 && kind_label(EventKind::Sprite0Hit)[0] == 115);
    reveal_strlit("oam_dma");
    assert(vstd::string::is_ascii("oam_dma"));
    assert(kind_label(EventKind::OamDma).len() == 7 && kind_label(EventKind::OamDma)[0] == 111);
    reveal_strlit("dmc_dma");
    assert(vstd::string::is_ascii("dmc_dma"));
    assert(kind_label(EventKind::DmcDma).len() == 7 && kind_label(EventKind::DmcDma)[0] == 100);
}

} // verus!
