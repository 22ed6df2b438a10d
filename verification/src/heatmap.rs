//! Access heatmap: per-address read / write / exec counters over the 64 KiB
//! CPU address space, a per-frame-decaying "recently hot" map, and a
//! code/data classification derived from the counts (`code = exec > 0`,
//! `data = write > 0 || read > exec`).

use vstd::prelude::*;

verus! {

pub const SPACE: usize = 0x1_0000;

/// One hot address in a heatmap summary.
#[derive(Debug, Clone, Copy, PartialEq, Eq, Structural)]
pub struct HotAddr {
    pub addr: u16,
    pub read: u32,
    pub write: u32,
    pub execs: u32,
    pub code: bool,
    pub data: bool,
    pub recency: u16,
}

/// Dense per-CPU-address access counters.
#[derive(Debug, Clone)]
pub struct Heatmap {
    pub read: Vec<u32>,
    pub write: Vec<u32>,
    pub execs: Vec<u32>,
    pub recency: Vec<u16>,
}

pub open spec fn sat_inc(v: u32) -> u32 {
    if v == u32::MAX { v } else { (v + 1) as u32 }
}

impl Heatmap {
    pub open spec fn wf(&self) -> bool {
        &&& self.read@.len() == SPACE
        &&& self.write@.len() == SPACE
        &&& self.execs@.len() == SPACE
        &&& self.recency@.len() == SPACE
    }

    pub open spec fn total(&self, i: int) -> int {
        self.read@[i] + self.write@[i] + self.execs@[i]
    }

    pub open spec fn hot(&self, i: int) -> HotAddr {
        HotAddr {
            addr: i as u16,
            read: self.read@[i],
            write: self.write@[i],
            execs: self.execs@[i],
            code: self.execs@[i] > 0,
            data: self.write@[i] > 0 || self.read@[i] > self.execs@[i],
            recency: self.recency@[i],
        }
    }

    pub fn new() -> (r: Self)
        ensures
            r.wf(),
            forall|i: int| 0 <= i < SPACE ==> r.read@[i] == 0 && r.write@[i] == 0 && r.execs@[i] == 0 && r.recency@[i] == 0,
    {
        Heatmap { read: zero_u32(SPACE), write: zero_u32(SPACE), execs: zero_u32(SPACE), recency: zero_u16(SPACE) }
    }

    /// Count a read (saturating) and mark the address maximally recent.
    pub fn tap_read(&mut self, addr: u16)
        requires old(self).wf(),
        ensures
            final(self).wf(),
            final(self).read@ == old(self).read@.update(addr as int, sat_inc(old(self).read@[addr as int])),
            final(self).recency@ == old(self).recency@.update(addr as int, u16::MAX),
            final(self).write@ == old(self).write@,
            final(self).execs@ == old(self).execs@,
    {
        let i = addr as usize;
        let v = self.read[i].saturating_add(1);
        self.read.set(i, v);
        self.recency.set(i, u16::MAX);
    }

    /// Count a write (saturating) and mark the address maximally recent.
    pub fn tap_write(&mut self, addr: u16)
        requires old(self).wf(),
        ensures
            final(self).wf(),
            final(self).write@ == old(self).write@.update(addr as int, sat_inc(old(self).write@[addr as int])),
            final(self).recency@ == old(self).recency@.update(addr as int, u16::MAX),
            final(self).read@ == old(self).read@,
            final(self).execs@ == old(self).execs@,
    {
        let i = addr as usize;
        let v = self.write[i].saturating_add(1);
        self.write.set(i, v);
        self.recency.set(i, u16::MAX);
    }

    /// Count an opcode/operand fetch (saturating) and mark it recent.
    pub fn tap_exec(&mut self, addr: u16)
        requires old(self).wf(),
        ensures
            final(self).wf(),
            final(self).execs@ == old(self).execs@.update(addr as int, sat_inc(old(self).execs@[addr as int])),
            final(self).recency@ == old(self).recency@.update(addr as int, u16::MAX),
            final(self).read@ == old(self).read@,
            final(self).write@ == old(self).write@,
    {
        let i = addr as usize;
        let v = self.execs[i].saturating_add(1);
        self.execs.set(i, v);
        self.recency.set(i, u16::MAX);
    }

    /// Per-frame decay of the recency map by 7/8 (`r - r/8`); the totals
    /// are untouched.
    pub fn decay(&mut self)
        requires old(self).wf(),
        ensures
            final(self).wf(),
            forall|i: int| 0 <= i < SPACE ==> #[trigger] final(self).recency@[i] == old(self).recency@[i] - old(self).recency@[i] / 8,
            final(self).read@ == old(self).read@,
            final(self).write@ == old(self).write@,
            final(self).execs@ == old(self).execs@,
    {
        let mut i: usize = 0;
        while i < SPACE
            invariant
                i <= SPACE,
                self.wf(),
                self.read@ == old(self).read@,
                self.write@ == old(self).write@,
                self.execs@ == old(self).execs@,
                forall|k: int| 0 <= k < i ==> #[trigger] self.recency@[k] == old(self).recency@[k] - old(self).recency@[k] / 8,
                forall|k: int| i <= k < SPACE ==> #[trigger] self.recency@[k] == old(self).recency@[k],
            decreases SPACE - i,
        {
            let r = self.recency[i];
            self.recency.set(i, r - r / 8);
            i += 1;
        }
    }

    /// Zero every counter.
    pub fn reset(&mut self)
        requires old(self).wf(),
        ensures
            final(self).wf(),
            forall|i: int| 0 <= i < SPACE ==> final(self).read@[i] == 0 && final(self).write@[i] == 0
                && final(self).execs@[i] == 0 && final(self).recency@[i] == 0,
    {
        self.read = zero_u32(SPACE);
        self.write = zero_u32(SPACE);
        self.execs = zero_u32(SPACE);
        self.recency = zero_u16(SPACE);
    }

    /// Total accesses (read + write + exec) at an address.
    pub fn total_at(&self, i: usize) -> (r: u64)
        requires self.wf(), i < SPACE,
        ensures r == self.total(i as int),
    {
        self.read[i] as u64 + self.write[i] as u64 + self.execs[i] as u64
    }

    pub fn hot_at(&self, i: usize) -> (r: HotAddr)
        requires self.wf(), i < SPACE,
        ensures r == self.hot(i as int),
    {
        let r = self.read[i];
        let w = self.write[i];
        let x = self.execs[i];
        HotAddr { addr: i as u16, read: r, write: w, execs: x, code: x > 0, data: w > 0 || r > x, recency: self.recency[i] }
    }

    /// A list of addresses ranked by total, descending: distinct, in range,
    /// all with a nonzero total.
    pub open spec fn ranked(&self, idx: Seq<usize>) -> bool {
        &&& forall|k: int| 0 <= k < idx.len() ==> idx[k] < SPACE && self.total(idx[k] as int) > 0
        &&& forall|k: int, l: int| 0 <= k < l < idx.len() ==> idx[k] != idx[l]
        &&& forall|k: int, l: int| 0 <= k < l < idx.len() ==> self.total(idx[k] as int) >= self.total(idx[l] as int)
    }

    /// `idx` is a top-`n` ranking of the addresses below `upto`: either it
    /// holds every nonzero address there, or it holds `n` of them and every
    /// one left out has no more accesses than the last one listed.
    pub open spec fn top_of(&self, idx: Seq<usize>, n: nat, upto: int) -> bool {
        &&& self.ranked(idx)
        &&& idx.len() <= n
        &&& forall|k: int| 0 <= k < idx.len() ==> idx[k] < upto
        &&& forall|j: int| 0 <= j < upto && #[trigger] self.total(j) > 0 && !idx.contains(j as usize) ==>
                idx.len() == n && (n == 0 || self.total(j) <= self.total(idx.last() as int))
        &&& (n == 0 ==> idx.len() == 0)
    }

    /// The `n` addresses with the most total accesses, descending (ties in
    /// unspecified order).
    pub fn hottest(&self, n: usize) -> (r: Vec<HotAddr>)
        requires self.wf(),
        ensures
            exists|idx: Seq<usize>| #[trigger] self.top_of(idx, n as nat, SPACE as int) && r@.len() == idx.len()
                && forall|k: int| 0 <= k < idx.len() ==> r@[k] == self.hot(idx[k] as int),
    {
        let mut idx: Vec<usize> = Vec::new();
        let mut j: usize = 0;
        while j < SPACE
            invariant
                self.wf(),
                j <= SPACE,
                self.top_of(idx@, n as nat, j as int),
            decreases SPACE - j,
        {
            let t = self.total_at(j);
            if t > 0 && n > 0 {
                let mut p: usize = 0;
                while p < idx.len() && self.total_at(idx[p]) >= t
                    invariant
                        self.wf(),
                        p <= idx@.len(),
                        self.ranked(idx@),
                        forall|k: int| 0 <= k < p ==> self.total(idx@[k] as int) >= t,
                    decreases idx@.len() - p,
                {
                    p += 1;
                }
                let ghost old_idx = idx@;
                if p < n {
                    idx.insert(p, j);
                    proof { self.lemma_insert_ranked(old_idx, p as int, j, n as nat, j as int); }
                    if idx.len() > n {
                        let ghost before = idx@;
                        idx.pop();
                        proof { self.lemma_pop_top(before, n as nat, j as int + 1); }
                    }
                } else {
                    proof { self.lemma_skip_top(old_idx, n as nat, j as int); }
                }
            } else {
                proof { self.lemma_zero_top(idx@, n as nat, j as int); }
            }
            j += 1;
        }
        let mut out: Vec<HotAddr> = Vec::new();
        let mut k: usize = 0;
        while k < idx.len()
            invariant
                self.wf(),
                k <= idx@.len(),
                self.ranked(idx@),
                out@.len() == k,
                forall|m: int| 0 <= m < k ==> out@[m] == self.hot(idx@[m] as int),
            decreases idx@.len() - k,
        {
            out.push(self.hot_at(idx[k]));
            k += 1;
        }
        assert(self.top_of(idx@, n as nat, SPACE as int));
        out
    }

    proof fn lemma_zero_top(&self, idx: Seq<usize>, n: nat, j: int)
        requires self.top_of(idx, n, j), 0 <= j, n == 0 || self.total(j) == 0,
        ensures self.top_of(idx, n, j + 1),
    {
    }

    proof fn lemma_skip_top(&self, idx: Seq<usize>, n: nat, j: int)
        requires
            self.top_of(idx, n, j), 0 <= j, n > 0, idx.len() >= n,
            forall|k: int| 0 <= k < idx.len() ==> self.total(idx[k] as int) >= self.total(j),
        ensures self.top_of(idx, n, j + 1),
    {
        assert(idx.len() == n);
        assert forall|i: int| 0 <= i < j + 1 && #[trigger] self.total(i) > 0 && !idx.contains(i as usize) implies
            idx.len() == n && (n == 0 || self.total(i) <= self.total(idx.last() as int)) by {
            if i == j {
                assert(self.total(idx[idx.len() - 1] as int) >= self.total(j));
            }
        }
    }

    proof fn lemma_insert_ranked(&self, idx: Seq<usize>, p: int, j: usize, n: nat, upto: int)
        requires
            self.top_of(idx, n, upto), upto == j, j < SPACE, self.total(j as int) > 0,
            0 <= p <= idx.len(), p < n,
            forall|k: int| 0 <= k < p ==> self.total(idx[k] as int) >= self.total(j as int),
            p < idx.len() ==> self.total(idx[p] as int) < self.total(j as int),
        ensures
            self.ranked(idx.insert(p, j)),
            forall|k: int| 0 <= k < idx.insert(p, j).len() ==> idx.insert(p, j)[k] < upto + 1,
            idx.insert(p, j).len() <= n ==> self.top_of(idx.insert(p, j), n, upto + 1),
            idx.insert(p, j).len() == n + 1 ==> forall|i: int| 0 <= i < upto + 1 && #[trigger] self.total(i) > 0
                && !idx.insert(p, j).contains(i as usize) ==> self.total(i) <= self.total(idx.insert(p, j).last() as int),
    {
        let s = idx.insert(p, j);
        assert forall|k: int| 0 <= k < s.len() implies s[k] < SPACE && self.total(s[k] as int) > 0 && s[k] < upto + 1 by {
            if k < p { assert(s[k] == idx[k]); } else if k > p { assert(s[k] == idx[k - 1]); }
        }
        assert forall|k: int, l: int| 0 <= k < l < s.len() implies s[k] != s[l] by {
            if k < p && l > p { assert(s[k] == idx[k] && s[l] == idx[l - 1]); }
            else if k < p && l == p { assert(s[k] == idx[k]); }
            else if k == p { assert(s[l] == idx[l - 1]); }
            else if l < p { assert(s[k] == idx[k] && s[l] == idx[l]); }
            else { assert(s[k] == idx[k - 1] && s[l] == idx[l - 1]); }
        }
        assert forall|k: int, l: int| 0 <= k < l < s.len() implies self.total(s[k] as int) >= self.total(s[l] as int) by {
            if l < p { assert(s[k] == idx[k] && s[l] == idx[l]); }
            else if l == p { assert(s[k] == idx[k]); }
            else if k < p { assert(s[k] == idx[k] && s[l] == idx[l - 1]); assert(self.total(idx[p] as int) >= self.total(idx[l - 1] as int) || l - 1 == p); }
            else if k == p { assert(s[l] == idx[l - 1]); assert(l - 1 >= p); if l - 1 > p { assert(self.total(idx[p] as int) >= self.total(idx[l - 1] as int)); } }
            else { assert(s[k] == idx[k - 1] && s[l] == idx[l - 1]); }
        }
        assert forall|i: int| 0 <= i < upto + 1 && #[trigger] self.total(i) > 0 && !s.contains(i as usize) implies
            (s.len() <= n ==> s.len() == n && (n == 0 || self.total(i) <= self.total(s.last() as int)))
            && (s.len() == n + 1 ==> self.total(i) <= self.total(s.last() as int)) by {
            if i == upto {
                assert(s[p] == j);
                assert(s.contains(j));
            }
            if !idx.contains(i as usize) {
                assert(i < upto);
                assert(idx.len() == n && (n == 0 || self.total(i) <= self.total(idx.last() as int)));
                assert(s.len() == n + 1);
                assert(p < idx.len());
                assert(s.last() == idx.last());
            } else {
                let k = choose|k: int| 0 <= k < idx.len() && idx[k] == i as usize;
                if k < p { assert(s[k] == idx[k]); } else { assert(s[k + 1] == idx[k]); }
            }
        }
    }

    proof fn lemma_pop_top(&self, s: Seq<usize>, n: nat, upto: int)
        requires
            self.ranked(s), s.len() == n + 1, n > 0, upto <= SPACE,
            forall|k: int| 0 <= k < s.len() ==> s[k] < upto,
            forall|i: int| 0 <= i < upto && #[trigger] self.total(i) > 0 && !s.contains(i as usize) ==> self.total(i) <= self.total(s.last() as int),
        ensures self.top_of(s.drop_last(), n, upto),
    {
        let d = s.drop_last();
        assert forall|i: int| 0 <= i < upto && #[trigger] self.total(i) > 0 && !d.contains(i as usize) implies
            d.len() == n && (n == 0 || self.total(i) <= self.total(d.last() as int)) by {
            assert(d.last() == s[n - 1]);
            assert(self.total(s[n - 1] as int) >= self.total(s[n as int] as int));
            assert(s.last() == s[n as int]);
            if s.contains(i as usize) {
                let k = choose|k: int| 0 <= k < s.len() && s[k] == i as usize;
                if k < n { assert(d[k] == s[k]); assert(d.contains(i as usize)); }
                assert(k == n);
                assert(s[k] as int == i);
            }
        }
    }

    /// Total accesses per 256-byte page (256 entries).
    pub fn page_totals(&self) -> (r: Vec<u64>)
        requires self.wf(),
        ensures
            r@.len() == 256,
            forall|p: int| 0 <= p < 256 ==> #[trigger] r@[p] == page_sum(*self, p * 256, 256),
    {
        let mut out: Vec<u64> = Vec::new();
        let mut p: usize = 0;
        while p < 256
            invariant
                self.wf(),
                p <= 256,
                out@.len() == p,
                forall|q: int| 0 <= q < p ==> #[trigger] out@[q] == page_sum(*self, q * 256, 256),
            decreases 256 - p,
        {
            let base = p * 256;
            let mut sum: u64 = 0;
            let mut i: usize = 0;
            while i < 256
                invariant
                    self.wf(),
                    p < 256, base == p * 256,
                    i <= 256,
                    sum == page_sum(*self, base as int, i as int),
                    sum <= i * 3 * 0xFFFF_FFFF,
                decreases 256 - i,
            {
                proof { lemma_page_sum_step(*self, base as int, i as int); }
                sum = sum + self.total_at(base + i);
                i += 1;
            }
            out.push(sum);
            p += 1;
        }
        out
    }
}

/// Sum of totals over addresses `base .. base + len`.
pub open spec fn page_sum(h: Heatmap, base: int, len: int) -> int
    decreases len,
{
    if len <= 0 { 0 } else { page_sum(h, base, len - 1) + h.total(base + len - 1) }
}

proof fn lemma_page_sum_step(h: Heatmap, base: int, i: int)
    requires i >= 0,
    ensures page_sum(h, base, i + 1) == page_sum(h, base, i) + h.total(base + i),
{
}

pub fn zero_u32(n: usize) -> (r: Vec<u32>)
    ensures r@.len() == n, forall|i: int| 0 <= i < n ==> r@[i] == 0,
{
    let mut v: Vec<u32> = Vec::new();
    let mut i: usize = 0;
    while i < n
        invariant i <= n, v@.len() == i, forall|k: int| 0 <= k < i ==> v@[k] == 0,
        decreases n - i,
    {
        v.push(0);
        i += 1;
    }
    v
}

pub fn zero_u16(n: usize) -> (r: Vec<u16>)
    ensures r@.len() == n, forall|i: int| 0 <= i < n ==> r@[i] == 0,
{
    let mut v: Vec<u16> = Vec::new();
    let mut i: usize = 0;
    while i < n
        invariant i <= n, v@.len() == i, forall|k: int| 0 <= k < i ==> v@[k] == 0,
        decreases n - i,
    {
        v.push(0);
        i += 1;
    }
    v
}

} // verus!
