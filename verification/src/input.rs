//! Standard NES controllers (two ports, $4016/$4017).

use vstd::prelude::*;

verus! {

use crate::types::{button_bit, Button};

/// Two controller ports: held buttons, the serial shift registers and the
/// strobe line.
#[derive(Debug, Clone, Copy)]
pub struct Controllers {
    /// Held button bitmask per port (bit order per `Button::bit`).
    pub state: [u8; 2],
    /// Shift registers read out one bit per $4016/$4017 read.
    pub shift: [u8; 2],
    pub strobe: bool,
}

impl Controllers {
    pub fn new() -> (r: Self)
        ensures r.state@ == seq![0u8, 0u8], r.shift@ == seq![0u8, 0u8], !r.strobe,
    {
        let r = Controllers { state: [0, 0], shift: [0, 0], strobe: false };
        assert(r.state@ =~= seq![0u8, 0u8]);
        assert(r.shift@ =~= seq![0u8, 0u8]);
        r
    }

    /// Press or release one button; ports other than 0 and 1 are ignored.
    pub fn set_button(&mut self, port: usize, button: Button, pressed: bool)
        ensures
            port > 1 ==> *final(self) == *old(self),
            port <= 1 ==> final(self).state@ == old(self).state@.update(port as int,
                if pressed { old(self).state@[port as int] | (1u8 << button_bit(button)) }
                else { old(self).state@[port as int] & !(1u8 << button_bit(button)) }),
            final(self).shift == old(self).shift,
            final(self).strobe == old(self).strobe,
    {
        if port > 1 {
            return;
        }
        let mask: u8 = 1u8 << button.bit();
        let cur = self.state[port];
        let v = if pressed { cur | mask } else { cur & !mask };
        self.state[port] = v;
    }

    /// Replace a port's whole button mask; other ports are ignored.
    pub fn set_state(&mut self, port: usize, bits: u8)
        ensures
            port <= 1 ==> final(self).state@ == old(self).state@.update(port as int, bits),
            port > 1 ==> final(self).state == old(self).state,
            final(self).shift == old(self).shift,
            final(self).strobe == old(self).strobe,
    {
        if port <= 1 {
            self.state[port] = bits;
        }
    }

    /// What a $4016 write of `value` makes of `o`.
    pub open spec fn strobe_written(o: Self, value: u8, n: Self) -> bool {
        &&& n.strobe == (value & 1 != 0)
        &&& n.state == o.state
        &&& n.shift == (if value & 1 != 0 { o.state } else { o.shift })
    }

    /// $4016 write: bit 0 drives the strobe; while it is high the shift
    /// registers reload from the held buttons.
    pub fn write_strobe(&mut self, value: u8)
        ensures Controllers::strobe_written(*old(self), value, *final(self)),
    {
        self.strobe = value & 1 != 0;
        if self.strobe {
            self.shift = self.state;
        }
    }

    /// What a read of `port` returns (`r`) and makes of `o` (`n`).
    pub open spec fn read_done(o: Self, port: usize, r: u8, n: Self) -> bool {
        &&& port > 1 ==> r == 0x40 && n == o
        &&& port <= 1 ==> ({
                let s = if o.strobe { o.state@[port as int] } else { o.shift@[port as int] };
                &&& r == (s & 1) | 0x40
                &&& n.shift@ == o.shift@.update(port as int, (s >> 1) | 0x80)
                &&& n.state == o.state
                &&& n.strobe == o.strobe
            })
    }

    /// $4016/$4017 read: bit 0 is the next button (A first), $40 is the
    /// open-bus data-line pattern; after eight reads the port reads 1s.
    pub fn read(&mut self, port: usize) -> (r: u8)
        ensures Controllers::read_done(*old(self), port, r, *final(self)),
    {
        if port > 1 {
            return 0x40;
        }
        if self.strobe {
            let s = self.state[port];
            self.shift[port] = s;
        }
        let cur = self.shift[port];
        let bit = cur & 1;
        self.shift[port] = (cur >> 1) | 0x80;
        proof {
            let s0 = if old(self).strobe { old(self).state@[port as int] } else { old(self).shift@[port as int] };
            assert(self.shift@ =~= old(self).shift@.update(port as int, (s0 >> 1) | 0x80));
        }
        bit | 0x40
    }

    /// The value the next read would return, without shifting.
    pub fn peek(&self, port: usize) -> (r: u8)
        ensures
            port > 1 ==> r == 0x40,
            port <= 1 ==> r == ((if self.strobe { self.state@[port as int] } else { self.shift@[port as int] }) & 1) | 0x40,
    {
        if port > 1 {
            return 0x40;
        }
        let shift = if self.strobe { self.state[port] } else { self.shift[port] };
        (shift & 1) | 0x40
    }
}

/// The shift register after `k` reads starting from `s` (strobe low).
pub open spec fn shifted(s: u8, k: nat) -> u8
    decreases k,
{
    if k == 0 { s } else { (shifted(s, (k - 1) as nat) >> 1) | 0x80 }
}

proof fn lemma_shifted_closed_form(s: u8, k: nat)
    requires k <= 8,
    ensures shifted(s, k) == (s >> (k as u8)) | !(0xFFu8 >> (k as u8)),
    decreases k,
{
    if k == 0 {
        assert(s == (s >> 0u8) | !(0xFFu8 >> 0u8)) by (bit_vector);
    } else {
        lemma_shifted_closed_form(s, (k - 1) as nat);
        let j = (k - 1) as u8;
        assert(j < 8 ==> ((((s >> j) | !(0xFFu8 >> j)) >> 1u8) | 0x80u8) == (s >> (j + 1)) | !(0xFFu8 >> (j + 1))) by (bit_vector);
    }
}

proof fn lemma_shifted_saturates(s: u8, k: nat)
    requires k >= 8,
    ensures shifted(s, k) == 0xFF,
    decreases k,
{
    if k == 8 {
        lemma_shifted_closed_form(s, 8);
        assert((s >> 8u8) | !(0xFFu8 >> 8u8) == 0xFF) by (bit_vector);
    } else {
        lemma_shifted_saturates(s, (k - 1) as nat);
        assert(((0xFFu8 >> 1u8) | 0x80u8) == 0xFF) by (bit_vector);
    }
}

/// Law: with the strobe low, successive reads of a port return the latched
/// buttons one per read in bit order (A first), then 1s forever after the
/// eighth read.
pub proof fn lemma_serial_readout(s: u8, k: nat)
    ensures
        k < 8 ==> shifted(s, k) & 1 == (s >> (k as u8)) & 1,
        k >= 8 ==> shifted(s, k) & 1 == 1,
{
    if k < 8 {
        lemma_shifted_closed_form(s, k);
        let j = k as u8;
        assert(j < 8 ==> ((s >> j) | !(0xFFu8 >> j)) & 1 == (s >> j) & 1) by (bit_vector);
    } else {
        lemma_shifted_saturates(s, k);
        assert(0xFFu8 & 1 == 1) by (bit_vector);
    }
}

proof fn lemma_reads_follow_shifted(cs: Seq<Controllers>, rs: Seq<u8>, port: usize, s: u8, k: nat)
    requires
        port <= 1,
        cs.len() == rs.len() + 1,
        !cs[0].strobe,
        cs[0].shift@[port as int] == s,
        forall|i: int| 0 <= i < rs.len() ==> Controllers::read_done(cs[i], port, #[trigger] rs[i], cs[i + 1]),
        k <= rs.len(),
    ensures
        !cs[k as int].strobe,
        cs[k as int].shift@[port as int] == shifted(s, k),
        cs[k as int].shift@.len() == 2,
    decreases k,
{
    if k > 0 {
        lemma_reads_follow_shifted(cs, rs, port, s, (k - 1) as nat);
        assert(Controllers::read_done(cs[k - 1], port, rs[k - 1], cs[k as int]));
    }
}

/// Law: after a strobe pulse ($4016 written with 1, then 0), the reads of a
/// port return $40 plus the held buttons one per read in bit order (A
/// first), and $41 from the ninth read on. `cs[i]` is the state before read
/// `i` and `rs[i]` what that read returned.
pub proof fn lemma_strobe_then_reads(c: Controllers, hi: Controllers, cs: Seq<Controllers>, rs: Seq<u8>, port: usize)
    requires
        port <= 1,
        Controllers::strobe_written(c, 1, hi),
        Controllers::strobe_written(hi, 0, cs[0]),
        cs.len() == rs.len() + 1,
        forall|i: int| 0 <= i < rs.len() ==> Controllers::read_done(cs[i], port, #[trigger] rs[i], cs[i + 1]),
    ensures
        forall|k: int| 0 <= k < rs.len() && k < 8 ==> #[trigger] rs[k] == ((c.state@[port as int] >> (k as u8)) & 1) | 0x40,
        forall|k: int| 8 <= k < rs.len() ==> #[trigger] rs[k] == 0x41,
{
    let s = c.state@[port as int];
    assert(1u8 & 1 != 0 && 0u8 & 1 == 0) by (bit_vector);
    assert(1u8 | 0x40u8 == 0x41u8) by (bit_vector);
    assert forall|k: int| 0 <= k < rs.len() implies
        (k < 8 ==> #[trigger] rs[k] == ((s >> (k as u8)) & 1) | 0x40) && (k >= 8 ==> rs[k] == 0x41) by {
        lemma_reads_follow_shifted(cs, rs, port, s, k as nat);
        lemma_serial_readout(s, k as nat);
        assert(Controllers::read_done(cs[k], port, rs[k], cs[k + 1]));
    }
}

} // verus!
