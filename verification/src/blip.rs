//! Band-limited sample buffer for the APU's output: each level change is
//! added as a windowed-sinc step at its exact sub-sample time, and reading
//! integrates the steps through a one-pole DC-removing high-pass. All the
//! arithmetic is fixed point: a 64-bit time accumulator (20 fraction bits
//! above a 32-bit pre-shift) and modular 32-bit sample sums.

use vstd::prelude::*;

verus! {


/// Fixed-point time unit: one output sample is `TIME_UNIT` time units.
pub const TIME_UNIT: u64 = 0x10_0000_0000_0000;
/// Largest supported `clock_rate / sample_rate` ratio.
pub const BLIP_MAX_RATIO: u64 = 0x10_0000;
/// Samples past the end of a frame that steps may still touch.
pub const BUF_EXTRA: usize = 18;

/// One coefficient of the step kernel: phase `row` (0..=32), tap `i` (0..8).
pub open spec fn kernel(row: usize, i: usize) -> i16 {
    match row {
        0 => match i { 0 => 43i16, 1 => -115i16, 2 => 350i16, 3 => -488i16, 4 => 1136i16, 5 => -914i16, 6 => 5861i16, _ => 21022i16 },
        1 => match i { 0 => 44i16, 1 => -118i16, 2 => 348i16, 3 => -473i16, 4 => 1076i16, 5 => -799i16, 6 => 5274i16, _ => 21001i16 },
        2 => match i { 0 => 45i16, 1 => -121i16, 2 => 344i16, 3 => -454i16, 4 => 1011i16, 5 => -677i16, 6 => 4706i16, _ => 20936i16 },
        3 => match i { 0 => 46i16, 1 => -122i16, 2 => 336i16, 3 => -431i16, 4 => 942i16, 5 => -549i16, 6 => 4156i16, _ => 20829i16 },
        4 => match i { 0 => 47i16, 1 => -123i16, 2 => 327i16, 3 => -404i16, 4 => 868i16, 5 => -418i16, 6 => 3629i16, _ => 20679i16 },
        5 => match i { 0 => 47i16, 1 => -122i16, 2 => 316i16, 3 => -375i16, 4 => 792i16, 5 => -285i16, 6 => 3124i16, _ => 20488i16 },
        6 => match i { 0 => 47i16, 1 => -120i16, 2 => 303i16, 3 => -344i16, 4 => 714i16, 5 => -151i16, 6 => 2644i16, _ => 20256i16 },
        7 => match i { 0 => 46i16, 1 => -117i16, 2 => 289i16, 3 => -310i16, 4 => 634i16, 5 => -17i16, 6 => 2188i16, _ => 19985i16 },
        8 => match i { 0 => 46i16, 1 => -114i16, 2 => 273i16, 3 => -275i16, 4 => 553i16, 5 => 117i16, 6 => 1758i16, _ => 19675i16 },
        9 => match i { 0 => 44i16, 1 => -108i16, 2 => 255i16, 3 => -237i16, 4 => 471i16, 5 => 247i16, 6 => 1356i16, _ => 19327i16 },
        10 => match i { 0 => 43i16, 1 => -103i16, 2 => 237i16, 3 => -199i16, 4 => 390i16, 5 => 373i16, 6 => 981i16, _ => 18944i16 },
        11 => match i { 0 => 42i16, 1 => -98i16, 2 => 218i16, 3 => -160i16, 4 => 310i16, 5 => 495i16, 6 => 633i16, _ => 18527i16 },
        12 => match i { 0 => 40i16, 1 => -91i16, 2 => 198i16, 3 => -121i16, 4 => 231i16, 5 => 611i16, 6 => 314i16, _ => 18078i16 },
        13 => match i { 0 => 38i16, 1 => -84i16, 2 => 178i16, 3 => -81i16, 4 => 153i16, 5 => 722i16, 6 => 22i16, _ => 17599i16 },
        14 => match i { 0 => 36i16, 1 => -76i16, 2 => 157i16, 3 => -43i16, 4 => 80i16, 5 => 824i16, 6 => -241i16, _ => 17092i16 },
        15 => match i { 0 => 34i16, 1 => -68i16, 2 => 135i16, 3 => -3i16, 4 => 8i16, 5 => 919i16, 6 => -476i16, _ => 16558i16 },
        16 => match i { 0 => 32i16, 1 => -61i16, 2 => 115i16, 3 => 34i16, 4 => -60i16, 5 => 1006i16, 6 => -683i16, _ => 16001i16 },
        17 => match i { 0 => 29i16, 1 => -52i16, 2 => 94i16, 3 => 70i16, 4 => -123i16, 5 => 1083i16, 6 => -862i16, _ => 15422i16 },
        18 => match i { 0 => 27i16, 1 => -44i16, 2 => 73i16, 3 => 106i16, 4 => -184i16, 5 => 1152i16, 6 => -1015i16, _ => 14824i16 },
        19 => match i { 0 => 25i16, 1 => -36i16, 2 => 53i16, 3 => 139i16, 4 => -239i16, 5 => 1211i16, 6 => -1142i16, _ => 14210i16 },
        20 => match i { 0 => 22i16, 1 => -27i16, 2 => 34i16, 3 => 170i16, 4 => -290i16, 5 => 1261i16, 6 => -1244i16, _ => 13582i16 },
        21 => match i { 0 => 20i16, 1 => -20i16, 2 => 16i16, 3 => 199i16, 4 => -335i16, 5 => 1301i16, 6 => -1322i16, _ => 12942i16 },
        22 => match i { 0 => 18i16, 1 => -12i16, 2 => -3i16, 3 => 226i16, 4 => -375i16, 5 => 1331i16, 6 => -1376i16, _ => 12293i16 },
        23 => match i { 0 => 15i16, 1 => -4i16, 2 => -19i16, 3 => 250i16, 4 => -410i16, 5 => 1351i16, 6 => -1408i16, _ => 11638i16 },
        24 => match i { 0 => 13i16, 1 => 3i16, 2 => -35i16, 3 => 272i16, 4 => -439i16, 5 => 1361i16, 6 => -1419i16, _ => 10979i16 },
        25 => match i { 0 => 11i16, 1 => 9i16, 2 => -49i16, 3 => 292i16, 4 => -464i16, 5 => 1362i16, 6 => -1410i16, _ => 10319i16 },
        26 => match i { 0 => 9i16, 1 => 16i16, 2 => -63i16, 3 => 309i16, 4 => -483i16, 5 => 1354i16, 6 => -1383i16, _ => 9660i16 },
        27 => match i { 0 => 7i16, 1 => 22i16, 2 => -75i16, 3 => 322i16, 4 => -496i16, 5 => 1337i16, 6 => -1339i16, _ => 9005i16 },
        28 => match i { 0 => 6i16, 1 => 26i16, 2 => -85i16, 3 => 333i16, 4 => -504i16, 5 => 1312i16, 6 => -1280i16, _ => 8355i16 },
        29 => match i { 0 => 4i16, 1 => 31i16, 2 => -94i16, 3 => 341i16, 4 => -507i16, 5 => 1278i16, 6 => -1205i16, _ => 7713i16 },
        30 => match i { 0 => 3i16, 1 => 35i16, 2 => -102i16, 3 => 347i16, 4 => -506i16, 5 => 1238i16, 6 => -1119i16, _ => 7082i16 },
        31 => match i { 0 => 1i16, 1 => 40i16, 2 => -110i16, 3 => 350i16, 4 => -499i16, 5 => 1190i16, 6 => -1021i16, _ => 6464i16 },
        32 => match i { 0 => 0i16, 1 => 43i16, 2 => -115i16, 3 => 350i16, 4 => -488i16, 5 => 1136i16, 6 => -914i16, _ => 5861i16 },
        _ => 0i16,
    }
}

fn kernel_at(row: usize, i: usize) -> (r: i16)
    ensures r == kernel(row, i),
{
    match row {
        0 => match i { 0 => 43i16, 1 => -115i16, 2 => 350i16, 3 => -488i16, 4 => 1136i16, 5 => -914i16, 6 => 5861i16, _ => 21022i16 },
        1 => match i { 0 => 44i16, 1 => -118i16, 2 => 348i16, 3 => -473i16, 4 => 1076i16, 5 => -799i16, 6 => 5274i16, _ => 21001i16 },
        2 => match i { 0 => 45i16, 1 => -121i16, 2 => 344i16, 3 => -454i16, 4 => 1011i16, 5 => -677i16, 6 => 4706i16, _ => 20936i16 },
        3 => match i { 0 => 46i16, 1 => -122i16, 2 => 336i16, 3 => -431i16, 4 => 942i16, 5 => -549i16, 6 => 4156i16, _ => 20829i16 },
        4 => match i { 0 => 47i16, 1 => -123i16, 2 => 327i16, 3 => -404i16, 4 => 868i16, 5 => -418i16, 6 => 3629i16, _ => 20679i16 },
        5 => match i { 0 => 47i16, 1 => -122i16, 2 => 316i16, 3 => -375i16, 4 => 792i16, 5 => -285i16, 6 => 3124i16, _ => 20488i16 },
        6 => match i { 0 => 47i16, 1 => -120i16, 2 => 303i16, 3 => -344i16, 4 => 714i16, 5 => -151i16, 6 => 2644i16, _ => 20256i16 },
        7 => match i { 0 => 46i16, 1 => -117i16, 2 => 289i16, 3 => -310i16, 4 => 634i16, 5 => -17i16, 6 => 2188i16, _ => 19985i16 },
        8 => match i { 0 => 46i16, 1 => -114i16, 2 => 273i16, 3 => -275i16, 4 => 553i16, 5 => 117i16, 6 => 1758i16, _ => 19675i16 },
        9 => match i { 0 => 44i16, 1 => -108i16, 2 => 255i16, 3 => -237i16, 4 => 471i16, 5 => 247i16, 6 => 1356i16, _ => 19327i16 },
        10 => match i { 0 => 43i16, 1 => -103i16, 2 => 237i16, 3 => -199i16, 4 => 390i16, 5 => 373i16, 6 => 981i16, _ => 18944i16 },
        11 => match i { 0 => 42i16, 1 => -98i16, 2 => 218i16, 3 => -160i16, 4 => 310i16, 5 => 495i16, 6 => 633i16, _ => 18527i16 },
        12 => match i { 0 => 40i16, 1 => -91i16, 2 => 198i16, 3 => -121i16, 4 => 231i16, 5 => 611i16, 6 => 314i16, _ => 18078i16 },
        13 => match i { 0 => 38i16, 1 => -84i16, 2 => 178i16, 3 => -81i16, 4 => 153i16, 5 => 722i16, 6 => 22i16, _ => 17599i16 },
        14 => match i { 0 => 36i16, 1 => -76i16, 2 => 157i16, 3 => -43i16, 4 => 80i16, 5 => 824i16, 6 => -241i16, _ => 17092i16 },
        15 => match i { 0 => 34i16, 1 => -68i16, 2 => 135i16, 3 => -3i16, 4 => 8i16, 5 => 919i16, 6 => -476i16, _ => 16558i16 },
        16 => match i { 0 => 32i16, 1 => -61i16, 2 => 115i16, 3 => 34i16, 4 => -60i16, 5 => 1006i16, 6 => -683i16, _ => 16001i16 },
        17 => match i { 0 => 29i16, 1 => -52i16, 2 => 94i16, 3 => 70i16, 4 => -123i16, 5 => 1083i16, 6 => -862i16, _ => 15422i16 },
        18 => match i { 0 => 27i16, 1 => -44i16, 2 => 73i16, 3 => 106i16, 4 => -184i16, 5 => 1152i16, 6 => -1015i16, _ => 14824i16 },
        19 => match i { 0 => 25i16, 1 => -36i16, 2 => 53i16, 3 => 139i16, 4 => -239i16, 5 => 1211i16, 6 => -1142i16, _ => 14210i16 },
        20 => match i { 0 => 22i16, 1 => -27i16, 2 => 34i16, 3 => 170i16, 4 => -290i16, 5 => 1261i16, 6 => -1244i16, _ => 13582i16 },
        21 => match i { 0 => 20i16, 1 => -20i16, 2 => 16i16, 3 => 199i16, 4 => -335i16, 5 => 1301i16, 6 => -1322i16, _ => 12942i16 },
        22 => match i { 0 => 18i16, 1 => -12i16, 2 => -3i16, 3 => 226i16, 4 => -375i16, 5 => 1331i16, 6 => -1376i16, _ => 12293i16 },
        23 => match i { 0 => 15i16, 1 => -4i16, 2 => -19i16, 3 => 250i16, 4 => -410i16, 5 => 1351i16, 6 => -1408i16, _ => 11638i16 },
        24 => match i { 0 => 13i16, 1 => 3i16, 2 => -35i16, 3 => 272i16, 4 => -439i16, 5 => 1361i16, 6 => -1419i16, _ => 10979i16 },
        25 => match i { 0 => 11i16, 1 => 9i16, 2 => -49i16, 3 => 292i16, 4 => -464i16, 5 => 1362i16, 6 => -1410i16, _ => 10319i16 },
        26 => match i { 0 => 9i16, 1 => 16i16, 2 => -63i16, 3 => 309i16, 4 => -483i16, 5 => 1354i16, 6 => -1383i16, _ => 9660i16 },
        27 => match i { 0 => 7i16, 1 => 22i16, 2 => -75i16, 3 => 322i16, 4 => -496i16, 5 => 1337i16, 6 => -1339i16, _ => 9005i16 },
        28 => match i { 0 => 6i16, 1 => 26i16, 2 => -85i16, 3 => 333i16, 4 => -504i16, 5 => 1312i16, 6 => -1280i16, _ => 8355i16 },
        29 => match i { 0 => 4i16, 1 => 31i16, 2 => -94i16, 3 => 341i16, 4 => -507i16, 5 => 1278i16, 6 => -1205i16, _ => 7713i16 },
        30 => match i { 0 => 3i16, 1 => 35i16, 2 => -102i16, 3 => 347i16, 4 => -506i16, 5 => 1238i16, 6 => -1119i16, _ => 7082i16 },
        31 => match i { 0 => 1i16, 1 => 40i16, 2 => -110i16, 3 => 350i16, 4 => -499i16, 5 => 1190i16, 6 => -1021i16, _ => 6464i16 },
        32 => match i { 0 => 0i16, 1 => 43i16, 2 => -115i16, 3 => 350i16, 4 => -488i16, 5 => 1136i16, 6 => -914i16, _ => 5861i16 },
        _ => 0i16,
    }
}

/// Saturate an integrator value to the 16-bit output range: values in
/// range pass, values up to twice the range saturate, and values further
/// out fold back (the high half of the value XOR $7FFF).
pub open spec fn clamped(n: i32) -> i32 {
    if -32768 <= n <= 32767 { n } else { (n >> 16u32) ^ 0x7FFFi32 }
}

pub fn clamp(n: i32) -> (r: i32)
    ensures r == clamped(n), -32768 <= r <= 32767,
{
    if n < -32768 || n > 32767 {
        let r = (n >> 16u32) ^ 0x7FFFi32;
        assert(-32768 <= ((n >> 16u32) ^ 0x7FFFi32) <= 32767) by (bit_vector);
        r
    } else {
        n
    }
}

pub open spec fn wadd(x: i32, y: i32) -> i32 {
    vstd::wrapping::i32_specs::wrapping_add(x, y)
}

pub open spec fn wsub(x: i32, y: i32) -> i32 {
    vstd::wrapping::i32_specs::wrapping_sub(x, y)
}

pub open spec fn wmul(x: i32, y: i32) -> i32 {
    vstd::wrapping::i32_specs::wrapping_mul(x, y)
}

/// Integrate `k` buffered deltas starting from the integrator `sum`: each
/// sample is the clamped integrator (15 fraction bits dropped), after which
/// the delta is added and 1/512 of the sample is bled off (the high-pass).
/// Gives the new integrator and the samples.
pub open spec fn integrated(sum: i32, deltas: Seq<i32>, k: nat) -> (i32, Seq<i16>)
    decreases k,
{
    if k == 0 {
        (sum, Seq::empty())
    } else {
        let (s0, outs) = integrated(sum, deltas, (k - 1) as nat);
        let s = clamped(s0 >> 15u32);
        (wsub(wadd(s0, deltas[k - 1]), s << 6u32), outs.push(s as i16))
    }
}

#[derive(Debug, Clone)]
pub struct Blip {
    /// Time units per clock.
    pub factor: u64,
    /// Fractional time of the frame start.
    pub offset: u64,
    /// Complete samples waiting to be read.
    pub avail: i32,
    pub size: i32,
    pub integrator: i32,
    /// Pending deltas, one per output sample.
    pub buf: Vec<i32>,
}

impl Blip {
    pub open spec fn wf(&self) -> bool {
        &&& self.size >= 0
        &&& self.buf@.len() == self.size + BUF_EXTRA
        &&& 0 <= self.avail <= self.size
    }

    /// The time of clock `time` in output samples past the frame start,
    /// with 20 fraction bits.
    pub open spec fn fixed_time(self, time: u32) -> int {
        (time * self.factor + self.offset) / 0x1_0000_0000
    }

    /// A buffer for up to `size` samples per frame, at the largest ratio
    /// until `set_factor` is called.
    pub fn new(size: usize) -> (r: Blip)
        requires size + BUF_EXTRA <= i32::MAX,
        ensures
            r.wf(), r.size == size, r.factor == TIME_UNIT / BLIP_MAX_RATIO,
            r.offset == TIME_UNIT / BLIP_MAX_RATIO / 2, r.avail == 0, r.integrator == 0,
            r.buf@ == Seq::new((size + BUF_EXTRA) as nat, |i: int| 0i32),
    {
        let mut buf: Vec<i32> = Vec::new();
        let mut i: usize = 0;
        while i < size + BUF_EXTRA
            invariant i <= size + BUF_EXTRA, size + BUF_EXTRA <= i32::MAX, buf@ == Seq::new(i as nat, |k: int| 0i32),
            decreases size + BUF_EXTRA - i,
        {
            buf.push(0);
            i += 1;
        }
        let mut b = Blip { factor: TIME_UNIT / BLIP_MAX_RATIO, offset: 0, avail: 0, size: size as i32, integrator: 0, buf };
        b.clear();
        b
    }

    /// Set the time units per clock (`TIME_UNIT * sample_rate / clock_rate`,
    /// rounded up, which the caller computes from its rates).
    pub fn set_factor(&mut self, factor: u64)
        ensures *final(self) == (Blip { factor, ..*old(self) }),
    {
        self.factor = factor;
    }

    /// Drop all pending samples and deltas.
    pub fn clear(&mut self)
        requires old(self).wf(),
        ensures
            final(self).wf(),
            final(self).factor == old(self).factor, final(self).size == old(self).size,
            final(self).offset == old(self).factor / 2, final(self).avail == 0, final(self).integrator == 0,
            final(self).buf@ == Seq::new(old(self).buf@.len(), |i: int| 0i32),
    {
        self.offset = self.factor / 2;
        self.avail = 0;
        self.integrator = 0;
        let n = self.buf.len();
        let mut i: usize = 0;
        while i < n
            invariant
                i <= n, n == self.buf@.len(), n == old(self).buf@.len(),
                self.size == old(self).size, self.factor == old(self).factor, self.avail == 0,
                self.integrator == 0, self.offset == old(self).factor / 2,
                forall|k: int| 0 <= k < i ==> self.buf@[k] == 0,
            decreases n - i,
        {
            self.buf.set(i, 0);
            i += 1;
        }
        assert(self.buf@ =~= Seq::new(n as nat, |k: int| 0i32));
    }

    /// Close a frame of `t` clocks: its whole samples become available.
    pub fn end_frame(&mut self, t: u32)
        requires
            old(self).wf(),
            t * old(self).factor + old(self).offset <= u64::MAX,
            old(self).avail + (t * old(self).factor + old(self).offset) / (TIME_UNIT as int) <= old(self).size,
        ensures
            final(self).wf(),
            final(self).avail == old(self).avail + (t * old(self).factor + old(self).offset) / (TIME_UNIT as int),
            final(self).offset == (t * old(self).factor + old(self).offset) % (TIME_UNIT as int),
            (final(self).avail as int, final(self).offset as int)
                == after_frame(old(self).avail as int, old(self).offset as int, old(self).factor as int, t as int),
            final(self).buf@ == old(self).buf@,
            final(self).factor == old(self).factor && final(self).size == old(self).size,
            final(self).integrator == old(self).integrator,
    {
        proof { vstd::arithmetic::mul::lemma_mul_upper_bound(t as int, u32::MAX as int, self.factor as int, u64::MAX as int); }
        assert(t * self.factor <= u64::MAX);
        let off: u64 = t as u64 * self.factor + self.offset;
        self.avail = self.avail + (off / TIME_UNIT) as i32;
        self.offset = off % TIME_UNIT;
    }

    pub fn samples_avail(&self) -> (r: i32)
        ensures r == self.avail,
    {
        self.avail
    }

    /// Shift the buffer down by `count` samples, zero-filling behind.
    fn remove_samples(&mut self, count: i32)
        requires old(self).wf(), 0 <= count <= old(self).avail,
        ensures
            final(self).wf(),
            final(self).avail == old(self).avail - count,
            final(self).buf@ == old(self).buf@.subrange(count as int, old(self).avail + BUF_EXTRA)
                + Seq::new(count as nat, |i: int| 0i32)
                + old(self).buf@.subrange(old(self).avail + BUF_EXTRA, old(self).buf@.len() as int),
            final(self).factor == old(self).factor && final(self).offset == old(self).offset,
            final(self).size == old(self).size && final(self).integrator == old(self).integrator,
    {
        let c = count as usize;
        let remain = self.avail as usize + BUF_EXTRA - c;
        self.avail = self.avail - count;
        let ghost b0 = self.buf@;
        assert(remain + c == old(self).avail + BUF_EXTRA);
        let mut i: usize = 0;
        while i < remain
            invariant
                i <= remain, remain + c <= b0.len(), self.buf@.len() == b0.len(),
                self.avail == old(self).avail - count, self.size == old(self).size, self.factor == old(self).factor,
                self.offset == old(self).offset, self.integrator == old(self).integrator,
                b0.len() == old(self).size + BUF_EXTRA, old(self).size <= i32::MAX,
                forall|k: int| 0 <= k < i ==> self.buf@[k] == b0[k + c],
                forall|k: int| i <= k < b0.len() ==> self.buf@[k] == b0[k],
            decreases remain - i,
        {
            let v = self.buf[i + c];
            self.buf.set(i, v);
            i += 1;
        }
        let mut j: usize = remain;
        while j < remain + c
            invariant
                remain <= j <= remain + c, remain + c <= b0.len(), self.buf@.len() == b0.len(),
                self.avail == old(self).avail - count, self.size == old(self).size, self.factor == old(self).factor,
                self.offset == old(self).offset, self.integrator == old(self).integrator,
                b0.len() == old(self).size + BUF_EXTRA, old(self).size <= i32::MAX,
                forall|k: int| 0 <= k < remain ==> self.buf@[k] == b0[k + c],
                forall|k: int| remain <= k < j ==> self.buf@[k] == 0,
                forall|k: int| j <= k < b0.len() ==> self.buf@[k] == b0[k],
            decreases remain + c - j,
        {
            self.buf.set(j, 0);
            j += 1;
        }
        assert(self.buf@ =~= b0.subrange(count as int, old(self).avail + BUF_EXTRA)
            + Seq::new(count as nat, |i: int| 0i32)
            + b0.subrange(old(self).avail + BUF_EXTRA, b0.len() as int));
    }

    /// Read up to `count` samples (no more than are available) into `out`
    /// and remove them from the buffer; returns how many were taken. Only
    /// the first `out.len()` of them are stored.
    pub fn read_samples(&mut self, out: &mut [i16], count: i32) -> (r: usize)
        requires old(self).wf(),
        ensures
            final(self).wf(),
            r == (if count <= 0 { 0 } else if count > old(self).avail { old(self).avail as int } else { count as int }),
            final(self).avail == old(self).avail - r,
            r > 0 ==> final(self).integrator
                == integrated(old(self).integrator, old(self).buf@, (if r <= old(out)@.len() { r as int } else { old(out)@.len() as int }) as nat).0,
            r == 0 ==> *final(self) == *old(self),
            final(out)@.len() == old(out)@.len(),
            forall|k: int| 0 <= k < r && k < old(out)@.len() ==> final(out)@[k]
                == integrated(old(self).integrator, old(self).buf@, (k + 1) as nat).1[k],
            forall|k: int| r <= k < old(out)@.len() ==> final(out)@[k] == old(out)@[k],
            final(self).factor == old(self).factor && final(self).offset == old(self).offset,
    {
        let n: i32 = if count <= 0 { 0 } else if count > self.avail { self.avail } else { count };
        if n == 0 {
            return 0;
        }
        let take: usize = if (n as usize) < out.len() { n as usize } else { out.len() };
        let mut sum = self.integrator;
        let mut i: usize = 0;
        while i < take
            invariant
                i <= take, take <= n, n <= self.avail, self.wf(), take <= out@.len(), out@.len() == old(out)@.len(),
                self.buf@ == old(self).buf@, self.integrator == old(self).integrator,
                (sum, out@.subrange(0, i as int)) == integrated(old(self).integrator, old(self).buf@, i as nat),
                forall|k: int| i <= k < out@.len() ==> out@[k] == old(out)@[k],
                forall|k: int| 0 <= k < i ==> out@[k] == integrated(old(self).integrator, old(self).buf@, (k + 1) as nat).1[k],
            decreases take - i,
        {
            let s = clamp(sum >> 15u32);
            sum = sum.wrapping_add(self.buf[i]);
            out[i] = s as i16;
            sum = sum.wrapping_sub(s << 6u32);
            proof {
                assert(out@.subrange(0, i + 1) =~= out@.subrange(0, i as int).push(s as i16));
                lemma_integrated_prefix(old(self).integrator, old(self).buf@, (i + 1) as nat);
            }
            i += 1;
        }
        self.integrator = sum;
        self.remove_samples(n);
        n as usize
    }

    /// The buffer slot a step at clock `time` starts in.
    pub open spec fn step_slot(self, time: u32) -> int {
        self.avail + self.fixed_time(time) / 0x10_0000
    }

    /// Add a level change of `delta` at clock `time` (within the current
    /// frame): the kernel phase and a 15-bit interpolation weight come from
    /// the fraction of the sample position, and sixteen slots receive the
    /// interpolated step.
    pub fn add_delta(&mut self, time: u32, delta: i32)
        requires
            old(self).wf(),
            time * old(self).factor + old(self).offset <= u64::MAX,
            old(self).step_slot(time) + 16 <= old(self).buf@.len(),
        ensures
            final(self).wf(),
            final(self).buf@.len() == old(self).buf@.len(),
            ({
                let fixed = old(self).fixed_time(time);
                let out = old(self).step_slot(time);
                let phase = (fixed / 0x8000) % 32;
                let interp = (fixed % 0x8000) as i32;
                let delta2 = wmul(delta, interp) >> 15u32;
                let d = wsub(delta, delta2);
                &&& forall|i: int| 0 <= i < 8 ==> #[trigger] final(self).buf@[out + i]
                    == wadd(wadd(old(self).buf@[out + i], wmul(kernel((phase) as usize, (i) as usize) as i32, d)), wmul(kernel((phase + 1) as usize, (i) as usize) as i32, delta2))
                &&& forall|j: int| 0 <= j < 8 ==> #[trigger] final(self).buf@[out + 8 + j]
                    == wadd(wadd(old(self).buf@[out + 8 + j], wmul(kernel((32 - phase) as usize, (7 - j) as usize) as i32, d)), wmul(kernel((31 - phase) as usize, (7 - j) as usize) as i32, delta2))
                &&& forall|k: int| 0 <= k < old(self).buf@.len() && !(out <= k < out + 16) ==> #[trigger] final(self).buf@[k] == old(self).buf@[k]
            }),
            final(self).avail == old(self).avail && final(self).size == old(self).size,
            final(self).factor == old(self).factor && final(self).offset == old(self).offset,
            final(self).integrator == old(self).integrator,
    {
        proof { vstd::arithmetic::mul::lemma_mul_upper_bound(time as int, u32::MAX as int, self.factor as int, u64::MAX as int); }
        let fixed: u64 = (time as u64 * self.factor + self.offset) / 0x1_0000_0000;
        let out: usize = self.avail as usize + (fixed / 0x10_0000) as usize;
        let phase: usize = ((fixed / 0x8000) % 32) as usize;
        let interp: i32 = (fixed % 0x8000) as i32;
        let delta2 = delta.wrapping_mul(interp) >> 15u32;
        let d = delta.wrapping_sub(delta2);
        let ghost b0 = self.buf@;
        let mut i: usize = 0;
        while i < 8
            invariant
                i <= 8, phase < 32, out + 16 <= b0.len(), self.buf@.len() == b0.len(), self.wf(),
                self.avail == old(self).avail, self.size == old(self).size,
                self.factor == old(self).factor, self.offset == old(self).offset, self.integrator == old(self).integrator,
                forall|k: int| 0 <= k < i ==> #[trigger] self.buf@[out + k]
                    == wadd(wadd(b0[out + k], wmul(kernel((phase as int) as usize, (k) as usize) as i32, d)), wmul(kernel((phase + 1) as usize, (k) as usize) as i32, delta2)),
                forall|k: int| 0 <= k < b0.len() && !(out <= k < out + i) ==> #[trigger] self.buf@[k] == b0[k],
            decreases 8 - i,
        {
            let a = kernel_at(phase, i) as i32;
            let b = kernel_at(phase + 1, i) as i32;
            let v = self.buf[out + i].wrapping_add(a.wrapping_mul(d)).wrapping_add(b.wrapping_mul(delta2));
            self.buf.set(out + i, v);
            i += 1;
        }
        let mut j: usize = 0;
        while j < 8
            invariant
                j <= 8, phase < 32, out + 16 <= b0.len(), self.buf@.len() == b0.len(), self.wf(),
                self.avail == old(self).avail, self.size == old(self).size,
                self.factor == old(self).factor, self.offset == old(self).offset, self.integrator == old(self).integrator,
                forall|k: int| 0 <= k < 8 ==> #[trigger] self.buf@[out + k]
                    == wadd(wadd(b0[out + k], wmul(kernel((phase as int) as usize, (k) as usize) as i32, d)), wmul(kernel((phase + 1) as usize, (k) as usize) as i32, delta2)),
                forall|k: int| 0 <= k < j ==> #[trigger] self.buf@[out + 8 + k]
                    == wadd(wadd(b0[out + 8 + k], wmul(kernel((32 - phase) as usize, (7 - k) as usize) as i32, d)), wmul(kernel((31 - phase) as usize, (7 - k) as usize) as i32, delta2)),
                forall|k: int| 0 <= k < b0.len() && !(out <= k < out + 8 + j) ==> #[trigger] self.buf@[k] == b0[k],
            decreases 8 - j,
        {
            let a = kernel_at(32 - phase, 7 - j) as i32;
            let b = kernel_at(31 - phase, 7 - j) as i32;
            let v = self.buf[out + 8 + j].wrapping_add(a.wrapping_mul(d)).wrapping_add(b.wrapping_mul(delta2));
            self.buf.set(out + 8 + j, v);
            j += 1;
        }
    }
}

proof fn lemma_integrated_prefix(sum: i32, deltas: Seq<i32>, k: nat)
    ensures
        integrated(sum, deltas, k).1.len() == k,
        forall|j: nat| j <= k ==> #[trigger] integrated(sum, deltas, k).1.subrange(0, j as int) == integrated(sum, deltas, j).1,
    decreases k,
{
    if k > 0 {
        lemma_integrated_prefix(sum, deltas, (k - 1) as nat);
        assert forall|j: nat| j <= k implies #[trigger] integrated(sum, deltas, k).1.subrange(0, j as int) == integrated(sum, deltas, j).1 by {
            if j < k {
                assert(integrated(sum, deltas, k).1.subrange(0, j as int) =~= integrated(sum, deltas, (k - 1) as nat).1.subrange(0, j as int));
            } else {
                assert(integrated(sum, deltas, k).1.subrange(0, j as int) =~= integrated(sum, deltas, k).1);
            }
        }
    }
}

/// Samples available and fractional offset after ending a frame of `t`
/// clocks from `avail` samples at `offset` with `factor` units per clock.
pub open spec fn after_frame(avail: int, offset: int, factor: int, t: int) -> (int, int) {
    (avail + (t * factor + offset) / (TIME_UNIT as int), (t * factor + offset) % (TIME_UNIT as int))
}

/// Law: the fraction of a sample left at a frame's end is carried into the
/// next, so ending a frame of `t1` clocks and then one of `t2` clocks gives
/// the same samples and offset as one frame of `t1 + t2` clocks (and never
/// fewer samples than before).
pub proof fn lemma_frame_split(avail: int, offset: int, factor: int, t1: int, t2: int)
    requires offset >= 0, factor >= 0, t1 >= 0, t2 >= 0,
    ensures
        ({
            let (a1, o1) = after_frame(avail, offset, factor, t1);
            after_frame(a1, o1, factor, t2) == after_frame(avail, offset, factor, t1 + t2)
                && a1 >= avail && after_frame(a1, o1, factor, t2).0 >= a1
        }),
{
    let u = TIME_UNIT as int;
    let x = t1 * factor + offset;
    let q1 = x / u;
    let r1 = x % u;
    let y = t2 * factor + r1;
    vstd::arithmetic::div_mod::lemma_fundamental_div_mod(x, u);
    vstd::arithmetic::div_mod::lemma_fundamental_div_mod(y, u);
    assert(t1 * factor >= 0 && t2 * factor >= 0) by (nonlinear_arith) requires t1 >= 0, t2 >= 0, factor >= 0;
    assert((t1 + t2) * factor == t1 * factor + t2 * factor) by (nonlinear_arith);
    let total = (t1 + t2) * factor + offset;
    assert(total == u * (q1 + y / u) + y % u) by (nonlinear_arith)
        requires total == x + t2 * factor, x == u * q1 + r1, y == t2 * factor + r1, y == u * (y / u) + y % u;
    vstd::arithmetic::div_mod::lemma_fundamental_div_mod_converse(total, u, q1 + y / u, y % u);
    assert(q1 >= 0 && y / u >= 0) by {
        vstd::arithmetic::div_mod::lemma_div_pos_is_pos(x, u);
        vstd::arithmetic::div_mod::lemma_div_pos_is_pos(y, u);
    }
}

} // verus!
