//! CPU-to-PPU clock pacing for the regions whose PPU runs a fractional
//! number of dots per CPU cycle (PAL: 16 dots per 5 CPU cycles).

use vstd::prelude::*;

verus! {

/// Advance the dot phase by one CPU cycle at `num/den` PPU dots per CPU
/// cycle: the phase gains `num`, and every whole `den` in it is one dot.
/// Returns the dots due in this cycle and the new phase.
pub fn ppu_dots_in_cycle(phase: u8, num: u8, den: u8) -> (r: (u8, u8))
    requires den > 0, phase + num <= 255,
    ensures
        r.0 * den + r.1 == phase + num,
        r.1 < den,
        r.0 == (phase + num) / (den as int),
        r.1 == (phase + num) % (den as int),
{
    let mut p: u8 = phase + num;
    let mut dots: u8 = 0;
    while p >= den
        invariant
            den > 0,
            dots * den + p == phase + num,
            phase + num <= 255,
        decreases p,
    {
        p = p - den;
        proof {
            assert(dots * den + den == (dots + 1) * den) by (nonlinear_arith);
            assert((dots + 1) * den <= 255) by (nonlinear_arith)
                requires dots * den + p + den == phase + num, phase + num <= 255, p >= 0;
            assert(dots + 1 <= (dots + 1) * den) by (nonlinear_arith) requires den >= 1;
        }
        dots = dots + 1;
    }
    proof {
        vstd::arithmetic::div_mod::lemma_fundamental_div_mod_converse(
            (phase + num) as int, den as int, dots as int, p as int);
    }
    (dots, p)
}

/// Dots over `k` consecutive cycles starting from phase 0 add up to
/// `k * num / den` (rounded down), the phase being what is left over.
pub open spec fn dots_after(k: nat, num: nat, den: nat) -> (nat, nat)
    recommends den > 0,
    decreases k,
{
    if k == 0 {
        (0, 0)
    } else {
        let (d, p) = dots_after((k - 1) as nat, num, den);
        (d + (p + num) / den, (p + num) % den)
    }
}

/// Law: the per-cycle pacing loses no dots: after `k` cycles from phase 0,
/// `k * num` phase units have become `total` dots and a phase below `den`.
pub proof fn lemma_pacing_total(k: nat, num: nat, den: nat)
    requires den > 0,
    ensures
        dots_after(k, num, den).0 * den + dots_after(k, num, den).1 == k * num,
        dots_after(k, num, den).1 < den,
    decreases k,
{
    if k > 0 {
        lemma_pacing_total((k - 1) as nat, num, den);
        let (d, p) = dots_after((k - 1) as nat, num, den);
        let q = (p + num) / den;
        let r = (p + num) % den;
        vstd::arithmetic::div_mod::lemma_fundamental_div_mod((p + num) as int, den as int);
        assert(q * den + r == p + num) by (nonlinear_arith) requires p + num == den * q + r;
        assert((d + q) * den == d * den + q * den) by (nonlinear_arith);
        assert(k * num == (k - 1) * num + num) by (nonlinear_arith) requires k > 0;
        assert(r < den);
        assert(dots_after(k, num, den).0 == d + q);
        assert(dots_after(k, num, den).1 == r);
        assert(d * den + p == (k - 1) * num);
        assert((d + q) * den + r == k * num);
    } else {
        assert(0 * den == 0 && 0 * num == 0) by (nonlinear_arith);
    }
}

} // verus!
