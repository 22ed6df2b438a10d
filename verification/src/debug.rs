//! Debugger state: execute / read / write breakpoints, optionally guarded by
//! a condition expression, and halt tracking.

use vstd::prelude::*;

verus! {

use crate::expr::{Ctx, eval_cond, eval_cond_spec};
use vstd::utf8::encode_utf8;

#[derive(Debug, Clone, Copy, PartialEq, Eq, Structural)]
pub enum BpKind {
    Exec,
    Read,
    Write,
}

#[derive(Debug, Clone)]
pub struct Breakpoint {
    pub id: u32,
    pub kind: BpKind,
    pub addr: u16,
    pub enabled: bool,
    /// Optional condition expression; the breakpoint only fires when it
    /// evaluates non-zero. `None` = unconditional.
    pub condition: Option<String>,
}

impl Breakpoint {
    /// An enabled execute breakpoint at `pc` (the cheap, address-only gate).
    pub open spec fn armed_at(self, pc: u16) -> bool {
        self.enabled && self.kind == BpKind::Exec && self.addr == pc
    }

    /// An execute breakpoint at `addr`, enabled or not.
    pub open spec fn exec_at(self, addr: u16) -> bool {
        self.kind == BpKind::Exec && self.addr == addr
    }

    /// Whether this breakpoint stops execution at `pc` in state `ctx`.
    pub open spec fn fires(self, pc: u16, ctx: Ctx) -> bool {
        self.armed_at(pc) && match self.condition {
            None => true,
            Some(c) => eval_cond_spec(encode_utf8(c@), ctx),
        }
    }
}

pub struct Debugger {
    pub breakpoints: Vec<Breakpoint>,
    /// PC at which execution is currently halted (None = running).
    pub halted: Option<u16>,
    next_id: u32,
    /// Skip the execute-breakpoint check for the next instruction (so resuming
    /// from a breakpoint doesn't immediately re-trigger it).
    pub(crate) skip_once: bool,
}

/// The breakpoint that `add_cond` appends.
pub open spec fn new_breakpoint(id: u32, kind: BpKind, addr: u16, condition: Option<String>) -> Breakpoint {
    Breakpoint { id, kind, addr, enabled: true, condition }
}

pub open spec fn not_id(id: u32) -> spec_fn(Breakpoint) -> bool {
    |b: Breakpoint| b.id != id
}

pub open spec fn enabled_of(kind: BpKind) -> spec_fn(Breakpoint) -> bool {
    |b: Breakpoint| b.enabled && b.kind == kind
}

pub open spec fn addr_of() -> spec_fn(Breakpoint) -> u16 {
    |b: Breakpoint| b.addr
}

impl Default for Debugger {
    fn default() -> (r: Self)
        ensures
            r.bps().len() == 0,
            r.halt() is None,
            r.last_id() == 0,
            ids_issued(r),
    {
        Debugger { breakpoints: Vec::new(), halted: None, next_id: 0, skip_once: false }
    }
}

impl Debugger {
    /// The id handed out by the most recent `add` (0 before the first).
    pub closed spec fn last_id(&self) -> u32 {
        self.next_id
    }

    /// The breakpoints, in insertion order.
    pub closed spec fn bps(&self) -> Seq<Breakpoint> {
        self.breakpoints@
    }

    /// Where execution is halted, if it is.
    pub closed spec fn halt(&self) -> Option<u16> {
        self.halted
    }

    /// Whether the next instruction skips the execute-breakpoint check
    /// (set when resuming from a breakpoint).
    pub closed spec fn resume_skip(&self) -> bool {
        self.skip_once
    }

    pub open spec fn added(self, old: Self, id: u32, kind: BpKind, addr: u16, condition: Option<String>) -> bool {
        &&& id == old.last_id() + 1
        &&& self.last_id() == id
        &&& self.bps() == old.bps().push(new_breakpoint(id, kind, addr, condition))
        &&& self.halt() == old.halt()
        &&& self.resume_skip() == old.resume_skip()
    }

    pub fn add(&mut self, kind: BpKind, addr: u16) -> (id: u32)
        requires old(self).last_id() < u32::MAX,
        ensures final(self).added(*old(self), id, kind, addr, None),
    {
        self.add_cond(kind, addr, None)
    }

    /// Add a breakpoint with an optional condition expression.
    pub fn add_cond(&mut self, kind: BpKind, addr: u16, condition: Option<String>) -> (id: u32)
        requires old(self).last_id() < u32::MAX,
        ensures
            final(self).added(*old(self), id, kind, addr, condition),
            ids_issued(*old(self)) ==> ids_issued(*final(self)),
    {
        self.next_id = self.next_id + 1;
        let id = self.next_id;
        self.breakpoints.push(Breakpoint { id, kind, addr, enabled: true, condition });
        id
    }

    /// Remove every breakpoint with this id.
    pub fn remove(&mut self, id: u32)
        ensures
            final(self).bps() == old(self).bps().filter(not_id(id)),
            final(self).halt() == old(self).halt(),
            final(self).last_id() == old(self).last_id(),
            final(self).resume_skip() == old(self).resume_skip(),
    {
        let ghost orig = self.breakpoints@;
        let ghost mut k: int = 0;
        let mut i: usize = 0;
        assert(orig.take(0).filter(not_id(id)) =~= Seq::<Breakpoint>::empty()) by {
            reveal(Seq::filter);
        }
        assert(orig.skip(0) =~= orig);
        while i < self.breakpoints.len()
            invariant
                0 <= k <= orig.len(),
                self.breakpoints@ == orig.take(k).filter(not_id(id)) + orig.skip(k),
                i == orig.take(k).filter(not_id(id)).len(),
                self.halted == old(self).halted,
                self.skip_once == old(self).skip_once,
                self.last_id() == old(self).last_id(),
            decreases self.breakpoints@.len() - i,
        {
            proof {
                assert(orig.take(k + 1).drop_last() =~= orig.take(k));
                assert(orig.take(k + 1).last() == orig[k]);
                reveal(Seq::filter);
                assert(self.breakpoints@[i as int] == orig[k]);
                assert(orig.skip(k).drop_first() =~= orig.skip(k + 1));
            }
            if self.breakpoints[i].id == id {
                let _ = self.breakpoints.remove(i);
                proof {
                    assert(self.breakpoints@ =~= orig.take(k + 1).filter(not_id(id)) + orig.skip(k + 1));
                    k = k + 1;
                }
            } else {
                proof {
                    assert(self.breakpoints@ =~= orig.take(k + 1).filter(not_id(id)) + orig.skip(k + 1));
                    k = k + 1;
                }
                i = i + 1;
            }
        }
        proof {
            assert(k == orig.len()) by {
                if k < orig.len() {
                    assert((orig.take(k).filter(not_id(id)) + orig.skip(k)).len() > i);
                }
            }
            assert(orig.take(k) =~= orig);
            assert(self.breakpoints@ =~= orig.filter(not_id(id)));
        }
    }

    /// What `toggle_exec(addr)` does: the first execute breakpoint at `addr`
    /// goes, or, when there is none, an unconditional one is added.
    pub open spec fn toggled(self, old: Self, addr: u16) -> bool {
        &&& self.halt() == old.halt()
        &&& self.resume_skip() == old.resume_skip()
        &&& (exists|p: int| 0 <= p < old.bps().len()
                && (#[trigger] old.bps()[p]).exec_at(addr)
                && (forall|q: int| 0 <= q < p ==> !(#[trigger] old.bps()[q]).exec_at(addr))
                && self.bps() == old.bps().remove(p)
                && self.last_id() == old.last_id())
            || ((forall|q: int| 0 <= q < old.bps().len() ==> !(#[trigger] old.bps()[q]).exec_at(addr))
                && self.added(old, (old.last_id() + 1) as u32, BpKind::Exec, addr, None))
    }

    /// Toggle an execute breakpoint at `addr`: remove the first one there
    /// (enabled or not) if any, else add an unconditional one.
    pub fn toggle_exec(&mut self, addr: u16)
        requires
            (forall|q: int| 0 <= q < old(self).bps().len()
                ==> !(#[trigger] old(self).bps()[q]).exec_at(addr))
                ==> old(self).last_id() < u32::MAX,
        ensures
            final(self).toggled(*old(self), addr),
    {
        let mut i: usize = 0;
        while i < self.breakpoints.len()
            invariant
                i <= self.breakpoints@.len(),
                self.breakpoints@ == old(self).breakpoints@,
                *self == *old(self),
                forall|q: int| 0 <= q < i ==> !(#[trigger] self.breakpoints@[q]).exec_at(addr),
            decreases self.breakpoints@.len() - i,
        {
            if self.breakpoints[i].kind == BpKind::Exec && self.breakpoints[i].addr == addr {
                let _ = self.breakpoints.remove(i);
                assert(old(self).breakpoints@[i as int].exec_at(addr));
                return;
            }
            i = i + 1;
        }
        let _ = self.add(BpKind::Exec, addr);
    }

    /// Cheap address-only gate: is there any enabled exec breakpoint at `pc`?
    pub fn exec_bp_at(&self, pc: u16) -> (r: bool)
        ensures r == exists|i: int| 0 <= i < self.bps().len() && (#[trigger] self.bps()[i]).armed_at(pc),
    {
        let mut i: usize = 0;
        while i < self.breakpoints.len()
            invariant
                i <= self.breakpoints@.len(),
                forall|q: int| 0 <= q < i ==> !(#[trigger] self.breakpoints@[q]).armed_at(pc),
            decreases self.breakpoints@.len() - i,
        {
            let b = &self.breakpoints[i];
            if b.enabled && b.kind == BpKind::Exec && b.addr == pc {
                assert(self.bps()[i as int].armed_at(pc));
                return true;
            }
            i = i + 1;
        }
        false
    }

    /// Should execution actually break at `pc`? True if any enabled exec
    /// breakpoint at `pc` is unconditional or has a condition evaluating
    /// non-zero against `ctx`.
    pub fn exec_break(&self, pc: u16, ctx: &Ctx) -> (r: bool)
        ensures r == exists|i: int| 0 <= i < self.bps().len() && (#[trigger] self.bps()[i]).fires(pc, *ctx),
    {
        let mut i: usize = 0;
        while i < self.breakpoints.len()
            invariant
                i <= self.breakpoints@.len(),
                forall|q: int| 0 <= q < i ==> !(#[trigger] self.breakpoints@[q]).fires(pc, *ctx),
            decreases self.breakpoints@.len() - i,
        {
            let b = &self.breakpoints[i];
            if b.enabled && b.kind == BpKind::Exec && b.addr == pc {
                let hit = match &b.condition {
                    None => true,
                    Some(c) => eval_cond(c.as_str(), ctx),
                };
                if hit {
                    assert(self.bps()[i as int].fires(pc, *ctx));
                    return true;
                }
            }
            i = i + 1;
        }
        false
    }

    /// Addresses of the enabled breakpoints of `kind`, in insertion order.
    pub fn addrs(&self, kind: BpKind) -> (r: Vec<u16>)
        ensures r@ == self.bps().filter(enabled_of(kind)).map_values(addr_of()),
    {
        let mut r: Vec<u16> = Vec::new();
        let mut i: usize = 0;
        assert(self.breakpoints@.take(0).filter(enabled_of(kind)) =~= Seq::<Breakpoint>::empty()) by {
            reveal(Seq::filter);
        }
        while i < self.breakpoints.len()
            invariant
                i <= self.breakpoints@.len(),
                r@ == self.breakpoints@.take(i as int).filter(enabled_of(kind)).map_values(addr_of()),
            decreases self.breakpoints@.len() - i,
        {
            proof {
                assert(self.breakpoints@.take(i + 1).drop_last() =~= self.breakpoints@.take(i as int));
                reveal(Seq::filter);
            }
            let b = &self.breakpoints[i];
            if b.enabled && b.kind == kind {
                r.push(b.addr);
            }
            proof {
                assert(r@ =~= self.breakpoints@.take(i + 1).filter(enabled_of(kind)).map_values(addr_of()));
            }
            i = i + 1;
        }
        assert(self.breakpoints@.take(i as int) =~= self.breakpoints@);
        r
    }

    /// Is any breakpoint enabled?
    pub fn has_any(&self) -> (r: bool)
        ensures r == exists|i: int| 0 <= i < self.bps().len() && (#[trigger] self.bps()[i]).enabled,
    {
        let mut i: usize = 0;
        while i < self.breakpoints.len()
            invariant
                i <= self.breakpoints@.len(),
                forall|q: int| 0 <= q < i ==> !(#[trigger] self.breakpoints@[q]).enabled,
            decreases self.breakpoints@.len() - i,
        {
            if self.breakpoints[i].enabled {
                return true;
            }
            i = i + 1;
        }
        false
    }
}


/// Every breakpoint's id was handed out already (none is above the last id).
pub open spec fn ids_issued(d: Debugger) -> bool {
    forall|i: int| 0 <= i < d.bps().len() ==> (#[trigger] d.bps()[i]).id <= d.last_id()
}

proof fn lemma_filter_keeps_all(s: Seq<Breakpoint>, id: u32)
    requires forall|i: int| 0 <= i < s.len() ==> (#[trigger] s[i]).id != id,
    ensures s.filter(not_id(id)) == s,
    decreases s.len(),
{
    reveal(Seq::filter);
    if s.len() > 0 {
        lemma_filter_keeps_all(s.drop_last(), id);
        assert(s.drop_last().push(s.last()) =~= s);
    } else {
        assert(s.filter(not_id(id)) =~= s);
    }
}

/// Removing the breakpoint that `add` just created restores the list.
pub proof fn lemma_remove_undoes_add(d0: Debugger, d1: Debugger, d2: Debugger, id: u32, kind: BpKind, addr: u16,
    condition: Option<String>)
    requires
        ids_issued(d0),
        d1.added(d0, id, kind, addr, condition),
        d2.bps() == d1.bps().filter(not_id(id)),
    ensures
        d2.bps() == d0.bps(),
{
    let s = d0.bps();
    let x = new_breakpoint(id, kind, addr, condition);
    assert forall|i: int| 0 <= i < s.len() implies (#[trigger] s[i]).id != id by {
        assert(s[i].id <= d0.last_id());
    }
    lemma_filter_keeps_all(s, id);
    reveal(Seq::filter);
    assert(s.push(x).drop_last() =~= s);
    assert(!not_id(id)(x));
}

/// Toggling an execute breakpoint twice at an address that had none leaves
/// the breakpoint list as it was, with no execute breakpoint there.
pub proof fn lemma_toggle_exec_round_trip(d0: Debugger, d1: Debugger, d2: Debugger, addr: u16)
    requires
        forall|q: int| 0 <= q < d0.bps().len() ==> !(#[trigger] d0.bps()[q]).exec_at(addr),
        d1.toggled(d0, addr),
        d2.toggled(d1, addr),
    ensures
        d2.bps() == d0.bps(),
        forall|q: int| 0 <= q < d2.bps().len() ==> !(#[trigger] d2.bps()[q]).exec_at(addr),
        d2.halt() == d0.halt(),
        d2.resume_skip() == d0.resume_skip(),
{
    let n = d0.bps().len() as int;
    assert(d1.bps() == d0.bps().push(new_breakpoint((d0.last_id() + 1) as u32, BpKind::Exec, addr, None)));
    assert(d1.bps()[n].exec_at(addr));
    let p = choose|p: int| 0 <= p < d1.bps().len()
        && (#[trigger] d1.bps()[p]).exec_at(addr)
        && (forall|q: int| 0 <= q < p ==> !(#[trigger] d1.bps()[q]).exec_at(addr))
        && d2.bps() == d1.bps().remove(p)
        && d2.last_id() == d1.last_id();
    assert(p == n) by {
        if p < n {
            assert(d1.bps()[p] == d0.bps()[p]);
        }
    }
    assert(d2.bps() =~= d0.bps());
}

} // verus!
