//! The 2A03 DMA arbiter: OAM (`$4014`) and DMC sample DMA on one per-cycle
//! get/put cadence. OAM DMA copies 256 bytes as get/put pairs; a DMC fetch
//! takes a halt cycle, a dummy cycle (repeating the held CPU read on
//! consoles with the conflict), alignment cycles and a get, pre-empting OAM
//! gets but not OAM puts.
//!
//! The arbiter here decides; its caller performs the bus accesses each
//! stolen cycle asks for (`DmaCycle`) and hands OAM bytes back with
//! `oam_fetched`.

use vstd::prelude::*;

verus! {

use crate::apu::{DmcDmaKind, DmcDmaRequest};

/// Why a DMC cycle repeats the held CPU read.
#[derive(Debug, Clone, Copy, PartialEq, Eq, Structural)]
pub enum DmcConflictRead {
    Dummy,
    Alignment,
}

/// What the OAM channel does on a stolen cycle.
#[derive(Debug, Clone, Copy, PartialEq, Eq, Structural)]
pub enum OamAction {
    Idle,
    /// Read this CPU address; pass the byte to `oam_fetched`.
    Get(u16),
    /// Write this byte to PPU OAM.
    Put(u8),
}

/// The bus work of one stolen cycle, in order: a repeated CPU read, a DMC
/// sample fetch (read its address and hand the byte to the APU), an OAM
/// step.
#[derive(Debug, Clone, Copy)]
pub struct DmaCycle {
    pub conflict: Option<(u16, DmcConflictRead)>,
    pub dmc_get: Option<DmcDmaRequest>,
    pub oam: OamAction,
}

pub open spec fn idle_cycle() -> DmaCycle {
    DmaCycle { conflict: None, dmc_get: None, oam: OamAction::Idle }
}

/// The arbiter's state.
#[derive(Debug, Clone, Copy)]
pub struct Dma {
    /// Toggles every CPU cycle; a DMA get happens when it is false.
    pub get_cycle: bool,
    /// A pending DMA has stolen its first cycle; the CPU is held.
    pub halted: bool,
    pub oam_req: bool,
    pub oam_active: bool,
    pub oam_page: u8,
    pub oam_index: u16,
    pub oam_latch: u8,
    pub oam_has_latch: bool,
    pub dmc_req: bool,
    pub dmc_active: bool,
    pub dmc_request: DmcDmaRequest,
    pub dmc_halt_done: bool,
    pub dmc_dummy_done: bool,
}

impl Dma {
    pub open spec fn wf(&self) -> bool {
        self.oam_active ==> self.oam_index < 256
    }

    /// Nothing pending, nothing active, cadence on a put cycle.
    pub open spec fn idle(self) -> bool {
        &&& !self.get_cycle && !self.halted && !self.oam_req && !self.oam_active
        &&& self.oam_page == 0 && self.oam_index == 0 && self.oam_latch == 0 && !self.oam_has_latch
        &&& !self.dmc_req && !self.dmc_active && !self.dmc_halt_done && !self.dmc_dummy_done
    }

    pub fn new() -> (r: Self)
        ensures r.idle(), r.wf(),
    {
        Dma {
            get_cycle: false,
            halted: false,
            oam_req: false,
            oam_active: false,
            oam_page: 0,
            oam_index: 0,
            oam_latch: 0,
            oam_has_latch: false,
            dmc_req: false,
            dmc_active: false,
            dmc_request: DmcDmaRequest { addr: 0, kind: DmcDmaKind::Load, id: 0 },
            dmc_halt_done: false,
            dmc_dummy_done: false,
        }
    }

    /// Must the CPU wait before its next halt-able cycle?
    #[verifier::allow_in_spec]
    pub fn halt_pending(&self) -> bool
        returns self.oam_req || self.oam_active || self.dmc_req || self.dmc_active,
    {
        self.oam_req || self.oam_active || self.dmc_req || self.dmc_active
    }

    /// Does a DMA want to steal the current cycle?
    #[verifier::allow_in_spec]
    pub fn halt_wanted(&self) -> bool
        returns self.oam_req || self.dmc_req,
    {
        self.oam_req || self.dmc_req
    }

    /// The cadence advances every physical CPU cycle.
    pub open spec fn ticked(self) -> Self {
        Dma { get_cycle: !self.get_cycle, ..self }
    }

    pub fn tick(&mut self)
        requires old(self).wf(),
        ensures *final(self) == old(self).ticked(), final(self).wf(),
    {
        self.get_cycle = !self.get_cycle;
    }

    /// A `$4014` write requests an OAM DMA from page `page`.
    pub open spec fn oam_requested(self, page: u8) -> Self {
        Dma { oam_req: true, oam_page: page, ..self }
    }

    pub fn request_oam(&mut self, page: u8)
        requires old(self).wf(),
        ensures *final(self) == old(self).oam_requested(page), final(self).wf(),
    {
        self.oam_req = true;
        self.oam_page = page;
    }

    /// Can the APU's next sample fetch be taken (no DMC DMA pending or
    /// running)?
    #[verifier::allow_in_spec]
    pub fn accepts_dmc(&self) -> bool
        returns !self.dmc_active && !self.dmc_req,
    {
        !self.dmc_active && !self.dmc_req
    }

    /// A sample fetch the APU asks for is taken when free: a load on a get
    /// cycle, a reload on a put cycle.
    pub open spec fn dmc_offered(self, req: DmcDmaRequest) -> Self {
        let get = !self.get_cycle;
        let can_start = match req.kind { DmcDmaKind::Load => get, DmcDmaKind::Reload => !get };
        if self.accepts_dmc() && can_start { Dma { dmc_req: true, dmc_request: req, ..self } } else { self }
    }

    pub fn offer_dmc(&mut self, req: DmcDmaRequest)
        requires old(self).wf(),
        ensures *final(self) == old(self).dmc_offered(req), final(self).wf(),
    {
        if !self.dmc_active && !self.dmc_req {
            let get = !self.get_cycle;
            let can_start = match req.kind {
                DmcDmaKind::Load => get,
                DmcDmaKind::Reload => !get,
            };
            if can_start {
                self.dmc_req = true;
                self.dmc_request = req;
            }
        }
    }

    pub open spec fn dmc_cleared(self) -> Self {
        Dma { dmc_req: false, dmc_active: false, dmc_halt_done: false, dmc_dummy_done: false, ..self }
    }

    /// The CPU is released once nothing is pending or running.
    pub open spec fn released(self) -> Self {
        if !self.oam_active && !self.dmc_active && !self.oam_req && !self.dmc_req { Dma { halted: false, ..self } } else { self }
    }

    fn clear_dmc(&mut self)
        ensures *final(self) == old(self).dmc_cleared(),
    {
        self.dmc_req = false;
        self.dmc_active = false;
        self.dmc_halt_done = false;
        self.dmc_dummy_done = false;
    }

    fn release(&mut self)
        ensures *final(self) == old(self).released(),
    {
        if !self.oam_active && !self.dmc_active && !self.oam_req && !self.dmc_req {
            self.halted = false;
        }
    }

    /// Abandon a DMC fetch (the APU stopped the sample).
    pub open spec fn dmc_cancelled(self) -> Self {
        self.dmc_cleared().released()
    }

    pub fn cancel_dmc(&mut self)
        requires old(self).wf(),
        ensures *final(self) == old(self).dmc_cancelled(), final(self).wf(),
    {
        self.clear_dmc();
        self.release();
    }

    /// One OAM step: a get (on a get cycle, latch empty) reads
    /// `page * 256 + index`; a put (on a put cycle, latch full) writes the
    /// latch and advances, finishing after 256 bytes.
    pub open spec fn oam_step(self, get: bool) -> (Self, OamAction) {
        if !self.oam_active {
            (self, OamAction::Idle)
        } else if get && !self.oam_has_latch {
            (Dma { oam_has_latch: true, ..self }, OamAction::Get((self.oam_page as int * 256 + self.oam_index) as u16))
        } else if !get && self.oam_has_latch {
            let i = self.oam_index + 1;
            let s = Dma { oam_has_latch: false, oam_index: i as u16, oam_active: i < 256, ..self };
            (if i >= 256 { s.released() } else { s }, OamAction::Put(self.oam_latch))
        } else {
            (self, OamAction::Idle)
        }
    }

    fn clock_oam(&mut self, get: bool) -> (r: OamAction)
        requires old(self).wf(),
        ensures (*final(self), r) == old(self).oam_step(get), final(self).wf(),
    {
        if !self.oam_active {
            return OamAction::Idle;
        }
        if get && !self.oam_has_latch {
            self.oam_has_latch = true;
            OamAction::Get((self.oam_page as u16) * 256 + self.oam_index)
        } else if !get && self.oam_has_latch {
            let byte = self.oam_latch;
            self.oam_has_latch = false;
            self.oam_index = self.oam_index + 1;
            if self.oam_index >= 256 {
                self.oam_active = false;
                self.release();
            }
            OamAction::Put(byte)
        } else {
            OamAction::Idle
        }
    }

    /// The byte an OAM get read, latched for the next put.
    pub open spec fn with_oam_byte(self, byte: u8) -> Self {
        Dma { oam_latch: byte, ..self }
    }

    pub fn oam_fetched(&mut self, byte: u8)
        requires old(self).wf(),
        ensures *final(self) == old(self).with_oam_byte(byte), final(self).wf(),
    {
        self.oam_latch = byte;
    }

    /// One stolen cycle (after `tick`). `cpu_addr` is the address of the held
    /// CPU read, `dmc_pending` whether the APU still wants the requested
    /// sample, `read_conflict` whether this console repeats reads on DMC
    /// cycles. A stale DMC request is dropped first; the first stolen cycle
    /// only acquires the halt; afterwards DMC steps (halt, dummy, alignment,
    /// get on a get cycle) take priority and OAM proceeds alongside except
    /// on the DMC get.
    pub open spec fn clocked(self, cpu_addr: u16, dmc_pending: bool, read_conflict: bool) -> (Self, DmaCycle) {
        let s0 = if (self.dmc_req || self.dmc_active) && !dmc_pending { self.dmc_cancelled() } else { self };
        let get = !s0.get_cycle;
        if !s0.halted {
            let s1 = Dma { halted: true, ..s0 };
            let s2 = if s1.dmc_req { Dma { dmc_active: true, dmc_req: false, dmc_halt_done: true, dmc_dummy_done: false, ..s1 } } else { s1 };
            let s3 = if s2.oam_req { Dma { oam_active: true, oam_req: false, oam_index: 0, oam_has_latch: false, ..s2 } } else { s2 };
            (s3, idle_cycle())
        } else {
            let s1 = if s0.dmc_req && !s0.dmc_active {
                Dma { dmc_active: true, dmc_req: false, dmc_halt_done: false, dmc_dummy_done: false, ..s0 }
            } else { s0 };
            if s1.dmc_active {
                if !s1.dmc_halt_done {
                    let (s2, oam) = Dma { dmc_halt_done: true, ..s1 }.oam_step(get);
                    (s2, DmaCycle { conflict: None, dmc_get: None, oam })
                } else if !s1.dmc_dummy_done {
                    let (s2, oam) = Dma { dmc_dummy_done: true, ..s1 }.oam_step(get);
                    (s2, DmaCycle { conflict: if read_conflict { Some((cpu_addr, DmcConflictRead::Dummy)) } else { None }, dmc_get: None, oam })
                } else if get {
                    if !dmc_pending { (s1.dmc_cancelled(), idle_cycle()) }
                    else { (s1.dmc_cancelled(), DmaCycle { conflict: None, dmc_get: Some(s1.dmc_request), oam: OamAction::Idle }) }
                } else {
                    let (s2, oam) = s1.oam_step(get);
                    (s2, DmaCycle { conflict: if read_conflict { Some((cpu_addr, DmcConflictRead::Alignment)) } else { None }, dmc_get: None, oam })
                }
            } else if s1.oam_active {
                let (s2, oam) = s1.oam_step(get);
                (s2, DmaCycle { conflict: None, dmc_get: None, oam })
            } else {
                (s1.released(), idle_cycle())
            }
        }
    }

    pub fn clock(&mut self, cpu_addr: u16, dmc_pending: bool, read_conflict: bool) -> (r: DmaCycle)
        requires old(self).wf(),
        ensures (*final(self), r) == old(self).clocked(cpu_addr, dmc_pending, read_conflict), final(self).wf(),
    {
        if (self.dmc_req || self.dmc_active) && !dmc_pending {
            self.cancel_dmc();
        }
        if !self.halted {
            self.halted = true;
            if self.dmc_req {
                self.dmc_active = true;
                self.dmc_req = false;
                self.dmc_halt_done = true;
                self.dmc_dummy_done = false;
            }
            if self.oam_req {
                self.oam_active = true;
                self.oam_req = false;
                self.oam_index = 0;
                self.oam_has_latch = false;
            }
            return DmaCycle { conflict: None, dmc_get: None, oam: OamAction::Idle };
        }
        if self.dmc_req && !self.dmc_active {
            self.dmc_active = true;
            self.dmc_req = false;
            self.dmc_halt_done = false;
            self.dmc_dummy_done = false;
        }
        let get = !self.get_cycle;
        if self.dmc_active {
            if !self.dmc_halt_done {
                self.dmc_halt_done = true;
                let oam = self.clock_oam(get);
                return DmaCycle { conflict: None, dmc_get: None, oam };
            }
            if !self.dmc_dummy_done {
                self.dmc_dummy_done = true;
                let oam = self.clock_oam(get);
                let conflict = if read_conflict { Some((cpu_addr, DmcConflictRead::Dummy)) } else { None };
                return DmaCycle { conflict, dmc_get: None, oam };
            }
            if get {
                let req = self.dmc_request;
                self.cancel_dmc();
                if !dmc_pending {
                    return DmaCycle { conflict: None, dmc_get: None, oam: OamAction::Idle };
                }
                return DmaCycle { conflict: None, dmc_get: Some(req), oam: OamAction::Idle };
            }
            let oam = self.clock_oam(get);
            let conflict = if read_conflict { Some((cpu_addr, DmcConflictRead::Alignment)) } else { None };
            return DmaCycle { conflict, dmc_get: None, oam };
        }
        if self.oam_active {
            let oam = self.clock_oam(get);
            return DmaCycle { conflict: None, dmc_get: None, oam };
        }
        self.release();
        DmaCycle { conflict: None, dmc_get: None, oam: OamAction::Idle }
    }
}


/// One stolen cycle with no DMC activity: the cadence ticks, then the
/// arbiter clocks.
pub open spec fn stolen_cycle(d: Dma) -> Dma {
    d.ticked().clocked(0, false, false).0
}

/// `n` stolen cycles in a row.
pub open spec fn after_stolen(d: Dma, n: nat) -> Dma
    decreases n,
{
    if n == 0 { d } else { after_stolen(stolen_cycle(d), (n - 1) as nat) }
}

/// Mid-transfer, about to fetch byte `j` on the next (get) cycle.
pub open spec fn oam_phase(s: Dma, j: int) -> bool {
    &&& s.wf() && s.halted && s.oam_active && !s.oam_req && !s.dmc_req && !s.dmc_active
    &&& s.oam_index == j && !s.oam_has_latch && s.get_cycle && 0 <= j < 256
}

proof fn lemma_oam_pair(s: Dma, j: int)
    requires oam_phase(s, j),
    ensures
        stolen_cycle(s).halt_pending(),
        j < 255 ==> oam_phase(stolen_cycle(stolen_cycle(s)), j + 1),
        j == 255 ==> !stolen_cycle(stolen_cycle(s)).halt_pending() && !stolen_cycle(stolen_cycle(s)).halted,
{
}

proof fn lemma_oam_run(s: Dma, j: int)
    requires oam_phase(s, j),
    ensures
        forall|k: nat| k < 2 * (256 - j) ==> #[trigger] after_stolen(s, k).halt_pending(),
        !after_stolen(s, (2 * (256 - j)) as nat).halt_pending(),
        !after_stolen(s, (2 * (256 - j)) as nat).halted,
    decreases 256 - j,
{
    reveal_with_fuel(after_stolen, 3);
    lemma_oam_pair(s, j);
    let s2 = stolen_cycle(stolen_cycle(s));
    let m = (2 * (256 - j)) as nat;
    assert(after_stolen(s, m) == after_stolen(s2, (m - 2) as nat));
    if j < 255 {
        lemma_oam_run(s2, j + 1);
    }
    assert forall|k: nat| k < m implies #[trigger] after_stolen(s, k).halt_pending() by {
        if k >= 2 {
            assert(after_stolen(s, k) == after_stolen(s2, (k - 2) as nat));
        } else if k == 1 {
            assert(after_stolen(s, 1) == stolen_cycle(s));
        }
    }
}

/// OAM DMA takes 513 or 514 stolen cycles: a requested transfer with no
/// DMC activity holds the CPU for one halt cycle and 256 get/put pairs,
/// plus one alignment cycle when the cycle after the halt would be a put.
/// Every cycle before the last still holds the CPU; after the last it is
/// released.
pub proof fn lemma_oam_dma_length(d: Dma)
    requires d.wf(), d.oam_req, !d.oam_active, !d.halted, !d.dmc_req, !d.dmc_active,
    ensures
        forall|k: nat| k < (if d.get_cycle { 514nat } else { 513nat }) ==> #[trigger] after_stolen(d, k).halt_pending(),
        !after_stolen(d, if d.get_cycle { 514nat } else { 513nat }).halt_pending(),
        !after_stolen(d, if d.get_cycle { 514nat } else { 513nat }).halted,
{
    reveal_with_fuel(after_stolen, 3);
    let s1 = stolen_cycle(d);
    if !d.get_cycle {
        assert(oam_phase(s1, 0));
        lemma_oam_run(s1, 0);
        assert(after_stolen(d, 513) == after_stolen(s1, 512));
        assert forall|k: nat| k < 513 implies #[trigger] after_stolen(d, k).halt_pending() by {
            if k > 0 {
                assert(after_stolen(d, k) == after_stolen(s1, (k - 1) as nat));
            }
        }
    } else {
        let s2 = stolen_cycle(s1);
        assert(oam_phase(s2, 0));
        lemma_oam_run(s2, 0);
        assert(after_stolen(d, 514) == after_stolen(s2, 512));
        assert forall|k: nat| k < 514 implies #[trigger] after_stolen(d, k).halt_pending() by {
            if k > 1 {
                assert(after_stolen(d, k) == after_stolen(s2, (k - 2) as nat));
            } else if k == 1 {
                assert(after_stolen(d, 1) == s1);
            }
        }
    }
}

/// One stolen cycle while the APU still wants its sample: the cadence
/// ticks, then the arbiter clocks.
pub open spec fn dmc_stolen_cycle(d: Dma) -> (Dma, DmaCycle) {
    d.ticked().clocked(0, true, false)
}

/// `n` such cycles in a row.
pub open spec fn after_dmc_stolen(d: Dma, n: nat) -> Dma
    decreases n,
{
    if n == 0 { d } else { after_dmc_stolen(dmc_stolen_cycle(d).0, (n - 1) as nat) }
}

/// A DMC sample fetch with no OAM DMA stalls the CPU for 3 or 4 cycles:
/// the halt cycle, a dummy cycle, an alignment cycle when the next cycle
/// would be a put, then the get, which delivers the requested fetch. The
/// CPU is held until the get and released after it.
pub proof fn lemma_dmc_dma_length(d: Dma)
    requires d.wf(), d.dmc_req, !d.dmc_active, !d.halted, !d.oam_req, !d.oam_active,
    ensures
        forall|k: nat| k < (if d.get_cycle { 3nat } else { 4nat }) ==> #[trigger] after_dmc_stolen(d, k).halt_pending(),
        !after_dmc_stolen(d, if d.get_cycle { 3nat } else { 4nat }).halt_pending(),
        !after_dmc_stolen(d, if d.get_cycle { 3nat } else { 4nat }).halted,
        dmc_stolen_cycle(after_dmc_stolen(d, if d.get_cycle { 2nat } else { 3nat })).1.dmc_get == Some(d.dmc_request),
{
    reveal_with_fuel(after_dmc_stolen, 5);
    let s1 = dmc_stolen_cycle(d).0;
    let s2 = dmc_stolen_cycle(s1).0;
    let s3 = dmc_stolen_cycle(s2).0;
    let s4 = dmc_stolen_cycle(s3).0;
    assert(after_dmc_stolen(d, 1) == s1);
    assert(after_dmc_stolen(d, 2) == s2);
    assert(after_dmc_stolen(d, 3) == s3);
    assert(after_dmc_stolen(d, 4) == s4);
    assert(s1.halted && s1.dmc_active && s1.dmc_halt_done && !s1.dmc_dummy_done);
    assert(s2.dmc_active && s2.dmc_dummy_done && s2.get_cycle == d.get_cycle);
    if d.get_cycle {
        assert(!s3.halted && !s3.halt_pending());
    } else {
        assert(s3.dmc_active && s3.halted);
        assert(!s4.halted && !s4.halt_pending());
    }
}

} // verus!
