//! CD-ROM XA-ADPCM audio: sector subheaders, ADPCM decoding of the 18 sound groups of a
//! sector, and Gaussian resampling of the 37800/18900 Hz stream to the SPU's 44100 Hz.
use vstd::prelude::*;
use std::collections::VecDeque;
use crate::spu::PcmSample;

verus! {

/// Size of a raw CD sector in bytes.
pub const SECTOR_SIZE: usize = 2352;

/// The XA subheader that follows the sync pattern and the sector header.
#[derive(Debug, Clone, Copy, PartialEq, Eq, Structural)]
pub struct XaSubHeader {
    pub file_number: u8,
    pub channel_number: u8,
    /// End of record (bit 0), audio (bit 2), real-time (bit 6), ...
    pub submode: u8,
    /// Stereo (bit 0), half rate (bit 2), ...
    pub coding_info: u8,
}

impl XaSubHeader {
    pub fn parse(sector_buffer: &[u8; 2352]) -> (r: Self)
        ensures
            r.file_number == sector_buffer@[16],
            r.channel_number == sector_buffer@[17],
            r.submode == sector_buffer@[18],
            r.coding_info == sector_buffer@[19],
    {
        Self {
            file_number: sector_buffer[16],
            channel_number: sector_buffer[17],
            submode: sector_buffer[18],
            coding_info: sector_buffer[19],
        }
    }

    pub fn is_audio(&self) -> (r: bool)
        ensures r == (self.submode & 0x04 != 0),
    {
        self.submode & 0x04 != 0
    }

    pub fn is_realtime(&self) -> (r: bool)
        ensures r == (self.submode & 0x40 != 0),
    {
        self.submode & 0x40 != 0
    }

    pub fn is_end_of_record(&self) -> (r: bool)
        ensures r == (self.submode & 0x01 != 0),
    {
        self.submode & 0x01 != 0
    }

    pub fn is_stereo(&self) -> (r: bool)
        ensures r == (self.coding_info & 0x01 != 0),
    {
        self.coding_info & 0x01 != 0
    }

    pub fn is_half_rate(&self) -> (r: bool)
        ensures r == (self.coding_info & 0x04 != 0),
    {
        self.coding_info & 0x04 != 0
    }
}

/// The last 32 samples fed to the resampler.
pub struct ResampleRingBuffer {
    pub samples: [i16; 32],
    pub write_idx: usize,
}

impl ResampleRingBuffer {
    pub open spec fn wf(&self) -> bool {
        self.write_idx < 32
    }

    pub fn new() -> (r: Self)
        ensures r.wf(), r.write_idx == 0, r.samples@ == Seq::new(32, |i: int| 0i16),
    {
        let r = Self { samples: [0; 32], write_idx: 0 };
        assert(r.samples@ =~= Seq::new(32, |i: int| 0i16));
        r
    }

    pub fn push(&mut self, value: i16)
        requires old(self).wf(),
        ensures
            final(self).wf(),
            final(self).samples@ == old(self).samples@.update(old(self).write_idx as int, value),
            final(self).write_idx == (old(self).write_idx + 1) % 32,
    {
        self.samples[self.write_idx] = value;
        let w1 = self.write_idx + 1;
        assert(w1 & 0x1F == w1 % 32) by { crate::bits::lemma_and_mod_usize(); }
        self.write_idx = w1 & 0x1F;
    }

    /// The sample pushed `offset` pushes ago (1 is the most recent).
    pub fn history(&self, offset: usize) -> (r: i16)
        requires self.wf(), offset <= 32,
        ensures r == self.samples@[(self.write_idx + 32 - offset) % 32],
    {
        let t = self.write_idx + 32 - offset;
        assert(t & 0x1F == t % 32) by { crate::bits::lemma_and_mod_usize(); }
        self.samples[t & 0x1F]
    }
}

/// Gaussian interpolation table: 7 phases for each of 29 taps (tap-major).
pub const INTERPOLATION: [i16; 203] = [
    0, 0, 0, 0, -0x0001, 0x0002, -0x0005, 0, 0, 0, -0x0001, 0x0003, -0x0008, 0x0011, 0, 0, -0x0001,
    0x0003, -0x0008, 0x0010, -0x0023, 0, -0x0002, 0x0003, -0x0008, 0x0011, -0x0023, 0x0046, 0, 0,
    -0x0002, 0x0006, -0x0010, 0x002B, -0x0017, -0x0002, 0x0003, -0x0005, 0x0005, 0x000A, 0x001A,
    -0x0044, 0x000A, -0x0013, 0x001F, -0x001B, 0x006B, -0x00EB, 0x015B, -0x0022, 0x003C, -0x004A,
    0x00A6, -0x016D, 0x027B, -0x0347, 0x0041, -0x004B, 0x00B3, -0x01A8, 0x0350, -0x0548, 0x080E,
    -0x0054, 0x00A2, -0x0192, 0x0372, -0x0623, 0x0AFA, -0x1249, 0x0034, -0x00E3, 0x02B1, -0x05BF,
    0x0BCD, -0x16FA, 0x3C07, 0x0009, 0x0132, -0x039E, 0x09B8, -0x1780, 0x53E0, 0x53E0, -0x010A,
    -0x0043, 0x04F8, -0x11B4, 0x6794, 0x3C07, -0x16FA, 0x0400, -0x0267, -0x05A6, 0x74BB, 0x234C,
    -0x1249, 0x0AFA, -0x0A78, 0x0C9D, 0x7939, 0x0C9D, -0x0A78, 0x080E, -0x0548, 0x234C, 0x74BB,
    -0x05A6, -0x0267, 0x0400, -0x0347, 0x027B, 0x6794, -0x11B4, 0x04F8, -0x0043, -0x010A, 0x015B,
    -0x00EB, -0x1780, 0x09B8, -0x039E, 0x0132, 0x0009, -0x0044, 0x001A, 0x0BCD, -0x05BF, 0x02B1,
    -0x00E3, 0x0034, -0x0017, 0x002B, -0x0623, 0x0372, -0x0192, 0x00A2, -0x0054, 0x0046, -0x0023,
    0x0350, -0x01A8, 0x00B3, -0x004B, 0x0041, -0x0023, 0x0010, -0x016D, 0x00A6, -0x004A, 0x003C,
    -0x0022, 0x0011, -0x0008, 0x006B, -0x001B, 0x001F, -0x0013, 0x000A, -0x0005, 0x0002, 0x000A,
    0x0005, -0x0005, 0x0003, -0x0001, 0, 0, -0x0010, 0x0006, -0x0002, 0, 0, 0, 0, 0x0011, -0x0008,
    0x0003, -0x0002, 0x0001, 0, 0, -0x0008, 0x0003, -0x0001, 0, 0, 0, 0, 0x0003, -0x0001, 0, 0, 0,
    0, 0, -0x0001, 0, 0, 0, 0, 0, 0,
];

pub open spec fn clamp16(v: int) -> i16 {
    (if v < -0x8000 { -0x8000 } else if v > 0x7FFF { 0x7FFF } else { v }) as i16
}

/// The samples fed to the ring buffer for an input stream: each sample once, or twice at
/// half rate.
pub open spec fn pushed_samples(input: Seq<i16>, half_rate: bool) -> Seq<i16> {
    if half_rate {
        Seq::new(2 * input.len(), |j: int| input[j / 2])
    } else {
        input
    }
}

/// The sample `tap` pushes before the `q`-th push of `pushed`, falling back to the ring
/// buffer's contents before the first push.
pub open spec fn hist(ring: Seq<i16>, w0: int, pushed: Seq<i16>, q: int, tap: int) -> i16 {
    if q - tap >= 0 { pushed[q - tap] } else { ring[(w0 + 32 + q - tap) % 32] }
}

/// Sum over taps `1..=n` of (history sample * coefficient) >> 15 for one phase.
pub open spec fn interp_sum(ring: Seq<i16>, w0: int, pushed: Seq<i16>, q: int, phase: int, n: int) -> int
    decreases n,
{
    if n <= 0 {
        0
    } else {
        interp_sum(ring, w0, pushed, q, phase, n - 1)
            + (((hist(ring, w0, pushed, q, n) as i32) * (INTERPOLATION@[7 * (n - 1) + phase] as i32)) as i32 >> 15u32)
    }
}

/// The first `n` groups of seven interpolated samples (one per phase), group `e` taken
/// after push `6 * (e + 1)`.
pub open spec fn resample_groups(ring: Seq<i16>, w0: int, pushed: Seq<i16>, n: int) -> Seq<i16> {
    Seq::new((7 * n) as nat, |i: int| clamp16(interp_sum(ring, w0, pushed, 6 * (i / 7 + 1), i % 7, 28)))
}

/// The resampler's output: after every sixth push, seven interpolated samples from the 28
/// most recent samples.
pub open spec fn resample_spec(ring: Seq<i16>, w0: int, pushed: Seq<i16>) -> Seq<i16> {
    resample_groups(ring, w0, pushed, (pushed.len() / 6) as int)
}

/// The ring buffer (`samples`, write position `w`) holds, `t` slots back, the sample `t`
/// pushes before the `q`-th push.
pub open spec fn ring_holds(samples: Seq<i16>, w: int, r0: Seq<i16>, w0: int, pushed: Seq<i16>, q: int) -> bool {
    forall|t: int| 1 <= t <= 32 ==> #[trigger] samples[(w + 32 - t) % 32] == hist(r0, w0, pushed, q, t)
}

proof fn lemma_product_shift_bound(h: i16, c: i16)
    ensures -0x8000 <= ((h as i32) * (c as i32)) as i32 >> 15u32 <= 0x8000,
{
    let p: i32 = ((h as i32) * (c as i32)) as i32;
    assert(-0x4000_0000 <= (h as i32) * (c as i32) <= 0x4000_0000) by (nonlinear_arith);
    assert(-0x8000 <= p >> 15u32 <= 0x8000) by { crate::bits::lemma_shifts_i32(); }
}

/// One interpolated sample: phase `phase` from the ring buffer's 28 most recent samples.
fn interpolate(ring: &ResampleRingBuffer, phase: usize, Ghost(r0): Ghost<Seq<i16>>, Ghost(w0): Ghost<int>, Ghost(pushed): Ghost<Seq<i16>>, Ghost(q): Ghost<int>) -> (r: i16)
    requires
        ring.wf(), phase < 7, 0 <= w0 < 32, r0.len() == 32,
        0 <= q <= pushed.len(),
        forall|tap: int| 1 <= tap <= 28 ==> #[trigger] ring.samples@[(ring.write_idx + 32 - tap) % 32] == hist(r0, w0, pushed, q, tap),
    ensures r == clamp16(interp_sum(r0, w0, pushed, q, phase as int, 28)),
{
    let mut sum: i32 = 0;
    let mut tap: usize = 1;
    while tap < 29
        invariant
            1 <= tap <= 29, ring.wf(), phase < 7, 0 <= w0 < 32, r0.len() == 32,
            0 <= q <= pushed.len(),
            forall|t: int| 1 <= t <= 28 ==> #[trigger] ring.samples@[(ring.write_idx + 32 - t) % 32] == hist(r0, w0, pushed, q, t),
            sum == interp_sum(r0, w0, pushed, q, phase as int, tap - 1),
            -0x8000 * (tap - 1) <= sum <= 0x8000 * (tap - 1),
        decreases 29 - tap,
    {
        let h = ring.history(tap);
        let c = INTERPOLATION[7 * (tap - 1) + phase];
        proof { lemma_product_shift_bound(h, c); }
        assert(-0x4000_0000 <= (h as i32) * (c as i32) <= 0x4000_0000) by (nonlinear_arith);
        let p: i32 = (h as i32) * (c as i32);
        sum = sum + (p >> 15u32);
        tap = tap + 1;
    }
    if sum < -0x8000 {
        -0x8000
    } else if sum > 0x7FFF {
        0x7FFF
    } else {
        sum as i16
    }
}

proof fn lemma_group_index(e: int, ph: int)
    requires 0 <= e, 0 <= ph < 7,
    ensures (7 * e + ph) / 7 == e, (7 * e + ph) % 7 == ph,
{
    assert((7 * e + ph) / 7 == e && (7 * e + ph) % 7 == ph) by (nonlinear_arith) requires 0 <= e, 0 <= ph < 7;
}

proof fn lemma_ring_after_push(s_before: Seq<i16>, w_before: int, s_after: Seq<i16>, w_after: int, r0: Seq<i16>, w0: int, pushed: Seq<i16>, q: int)
    requires
        0 <= w_before < 32, s_before.len() == 32, 0 <= q < pushed.len(),
        ring_holds(s_before, w_before, r0, w0, pushed, q),
        s_after == s_before.update(w_before, pushed[q]),
        w_after == (w_before + 1) % 32,
    ensures ring_holds(s_after, w_after, r0, w0, pushed, q + 1),
{
    assert forall|t: int| 1 <= t <= 32 implies #[trigger] s_after[(w_after + 32 - t) % 32] == hist(r0, w0, pushed, q + 1, t) by {
        if t == 1 {
            assert((w_after + 31) % 32 == w_before);
        } else {
            assert((w_after + 32 - t) % 32 == (w_before + 32 - (t - 1)) % 32);
            assert(s_before[(w_before + 32 - (t - 1)) % 32] == hist(r0, w0, pushed, q, t - 1));
        }
    }
}

proof fn lemma_groups_extend(r0: Seq<i16>, w0: int, pushed: Seq<i16>, e: int)
    requires 0 <= e,
    ensures resample_groups(r0, w0, pushed, e + 1) == resample_groups(r0, w0, pushed, e)
        + Seq::new(7, |ph: int| clamp16(interp_sum(r0, w0, pushed, 6 * (e + 1), ph, 28))),
{
    let a = resample_groups(r0, w0, pushed, e + 1);
    let b = resample_groups(r0, w0, pushed, e) + Seq::new(7, |ph: int| clamp16(interp_sum(r0, w0, pushed, 6 * (e + 1), ph, 28)));
    assert forall|j: int| 0 <= j < 7 * (e + 1) implies #[trigger] a[j] == b[j] by {
        if j >= 7 * e {
            lemma_group_index(e, j - 7 * e);
        }
    }
    assert(a =~= b);
}

/// Emit the seven phases of one interpolation group.
fn emit_group(ring: &ResampleRingBuffer, output: &mut Vec<i16>, Ghost(r0): Ghost<Seq<i16>>, Ghost(w0): Ghost<int>, Ghost(pushed): Ghost<Seq<i16>>, Ghost(e): Ghost<int>)
    requires
        ring.wf(), 0 <= w0 < 32, r0.len() == 32, 0 <= e,
        6 * (e + 1) <= pushed.len(),
        ring_holds(ring.samples@, ring.write_idx as int, r0, w0, pushed, 6 * (e + 1)),
    ensures
        final(output)@ == old(output)@ + Seq::new(7, |ph: int| clamp16(interp_sum(r0, w0, pushed, 6 * (e + 1), ph, 28))),
{
    let ghost base = output@;
    let mut phase: usize = 0;
    while phase < 7
        invariant
            phase <= 7,
            ring.wf(), 0 <= w0 < 32, r0.len() == 32, 0 <= e,
            6 * (e + 1) <= pushed.len(),
            ring_holds(ring.samples@, ring.write_idx as int, r0, w0, pushed, 6 * (e + 1)),
            output@ == base + Seq::new(phase as nat, |ph: int| clamp16(interp_sum(r0, w0, pushed, 6 * (e + 1), ph, 28))),
        decreases 7 - phase,
    {
        let v = interpolate(ring, phase, Ghost(r0), Ghost(w0), Ghost(pushed), Ghost(6 * (e + 1)));
        output.push(v);
        assert(output@ =~= base + Seq::new((phase + 1) as nat, |ph: int| clamp16(interp_sum(r0, w0, pushed, 6 * (e + 1), ph, 28))));
        phase = phase + 1;
    }
}

/// Feed `input` (each sample twice at half rate) through the ring buffer and append the
/// interpolated 44100 Hz samples to `output`.
#[verifier::rlimit(40)]
fn resample_to_44100hz(half_rate: bool, input: &Vec<i16>, output: &mut Vec<i16>, ring: &mut ResampleRingBuffer)
    requires old(ring).wf(), input@.len() < 0x1000_0000,
    ensures
        final(ring).wf(),
        final(output)@ == old(output)@ + resample_spec(old(ring).samples@, old(ring).write_idx as int, pushed_samples(input@, half_rate)),
        final(ring).write_idx == (old(ring).write_idx + pushed_samples(input@, half_rate).len()) % 32,
        ring_holds(final(ring).samples@, final(ring).write_idx as int, old(ring).samples@, old(ring).write_idx as int,
            pushed_samples(input@, half_rate), pushed_samples(input@, half_rate).len() as int),
{
    let ghost r0 = ring.samples@;
    let ghost w0 = ring.write_idx as int;
    let ghost pushed = pushed_samples(input@, half_rate);
    let ghost out0 = output@;
    let pushes_per_sample: usize = if half_rate { 2 } else { 1 };
    let mut phase_counter: usize = 0;
    let mut pushes: usize = 0;
    let mut i: usize = 0;
    while i < input.len()
        invariant
            i <= input@.len(), input@.len() < 0x1000_0000,
            pushes_per_sample == (if half_rate { 2usize } else { 1usize }),
            pushed == pushed_samples(input@, half_rate),
            pushed.len() == (if half_rate { 2 * input@.len() as int } else { input@.len() as int }),
            ring.wf(), 0 <= w0 < 32, r0.len() == 32,
            pushes == (if half_rate { 2 * i } else { i as int }),
            ring.write_idx == (w0 + pushes) % 32,
            ring_holds(ring.samples@, ring.write_idx as int, r0, w0, pushed, pushes as int),
            phase_counter == pushes % 6,
            output@ == out0 + resample_groups(r0, w0, pushed, pushes as int / 6),
        decreases input@.len() - i,
    {
        let sample = input[i];
        let mut k: usize = 0;
        while k < pushes_per_sample
            invariant
                i < input@.len(), input@.len() < 0x1000_0000, k <= pushes_per_sample,
                pushes_per_sample == (if half_rate { 2usize } else { 1usize }),
                pushed == pushed_samples(input@, half_rate),
                pushed.len() == (if half_rate { 2 * input@.len() as int } else { input@.len() as int }),
                sample == input@[i as int],
                ring.wf(), 0 <= w0 < 32, r0.len() == 32,
                pushes == (if half_rate { 2 * i + k } else { i + k }),
                ring.write_idx == (w0 + pushes) % 32,
                ring_holds(ring.samples@, ring.write_idx as int, r0, w0, pushed, pushes as int),
                phase_counter == pushes % 6,
                output@ == out0 + resample_groups(r0, w0, pushed, pushes as int / 6),
            decreases pushes_per_sample - k,
        {
            let ghost q = pushes as int;
            let ghost s_before = ring.samples@;
            let ghost w_before = ring.write_idx as int;
            proof {
                if half_rate {
                    assert(pushed[q] == input@[i as int]) by {
                        assert((2 * i + k) / 2 == i) by (nonlinear_arith) requires k < 2;
                    }
                }
            }
            ring.push(sample);
            proof {
                lemma_ring_after_push(s_before, w_before, ring.samples@, ring.write_idx as int, r0, w0, pushed, q);
            }
            pushes = pushes + 1;
            phase_counter = phase_counter + 1;
            if phase_counter >= 6 {
                phase_counter = 0;
                let ghost e = (q + 1) / 6 - 1;
                let ghost before_out = output@;
                emit_group(ring, output, Ghost(r0), Ghost(w0), Ghost(pushed), Ghost(e));
                proof {
                    lemma_groups_extend(r0, w0, pushed, e);
                    assert(output@ =~= out0 + resample_groups(r0, w0, pushed, e + 1));
                }
            } else {
                assert((q + 1) / 6 == q / 6);
            }
            k = k + 1;
        }
        i = i + 1;
    }
}

/// The two most recent decoded samples of one ADPCM stream.
#[derive(Debug, Clone, Copy, PartialEq, Eq, Structural)]
pub struct AdpcmHistory {
    pub prev1: i32,
    pub prev2: i32,
}

impl AdpcmHistory {
    pub open spec fn wf(&self) -> bool {
        &&& -0x8000 <= self.prev1 <= 0x7FFF
        &&& -0x8000 <= self.prev2 <= 0x7FFF
    }

    pub fn push(&mut self, sample: i16)
        ensures final(self).prev2 == old(self).prev1, final(self).prev1 == sample as i32,
    {
        self.prev2 = self.prev1;
        self.prev1 = sample as i32;
    }
}

/// Division rounding towards zero.
pub open spec fn trunc_div(a: int, d: int) -> int {
    if a >= 0 { a / d } else { -((-a) / d) }
}

pub open spec fn filter_k0(f: int) -> int {
    if f == 1 { 60 } else if f == 2 { 115 } else if f == 3 { 98 } else { 0 }
}

pub open spec fn filter_k1(f: int) -> int {
    if f == 2 { -52 } else if f == 3 { -55 } else { 0 }
}

/// The 4-bit sample `i` of sound unit `block_idx` in the sound group at `base`, sign-extended.
pub open spec fn nibble_value(sector: Seq<u8>, base: int, block_idx: int, i: int) -> int {
    let byte = sector[base + 16 + 4 * i + block_idx / 2];
    let nib = if block_idx % 2 == 1 { (byte >> 4u8) & 0xF } else { byte & 0xF };
    if nib >= 8 { nib - 16 } else { nib as int }
}

/// Range shift of a sound unit: 12 minus the header's shift nibble, at least 0.
pub open spec fn unit_shift(header: u8) -> int {
    let s = header & 0xF;
    if s > 12 { 0 } else { 12 - s }
}

/// One decoded sample: the shifted nibble plus the filter's prediction from the history.
pub open spec fn adpcm_sample(nib: int, shift: int, filter: int, h: AdpcmHistory) -> i16 {
    clamp16(nib * pow2_spec(shift) + trunc_div(filter_k0(filter) * h.prev1 + filter_k1(filter) * h.prev2 + 32, 64))
}

pub open spec fn pow2_spec(n: int) -> int
    decreases n,
{
    if n <= 0 { 1 } else { 2 * pow2_spec(n - 1) }
}

/// The first `n` samples of sound unit `block_idx` of the group at `base`, and the history
/// after them.
pub open spec fn adpcm_unit(sector: Seq<u8>, base: int, block_idx: int, h: AdpcmHistory, n: int) -> (Seq<i16>, AdpcmHistory)
    decreases n,
{
    if n <= 0 {
        (Seq::empty(), h)
    } else {
        let prev = adpcm_unit(sector, base, block_idx, h, n - 1);
        let header = sector[base + 4 + block_idx];
        let v = adpcm_sample(nibble_value(sector, base, block_idx, n - 1), unit_shift(header),
            ((header >> 4u8) & 3) as int, prev.1);
        (prev.0.push(v), AdpcmHistory { prev1: v as i32, prev2: prev.1.prev1 })
    }
}

pub(crate) proof fn lemma_pow2_values(n: int)
    requires 0 <= n <= 12,
    ensures 1 <= pow2_spec(n) <= 4096,
{
    assert(pow2_spec(0) == 1);
    assert(pow2_spec(1) == 2);
    assert(pow2_spec(2) == 4);
    assert(pow2_spec(3) == 8);
    assert(pow2_spec(4) == 16);
    assert(pow2_spec(5) == 32);
    assert(pow2_spec(6) == 64);
    assert(pow2_spec(7) == 128);
    assert(pow2_spec(8) == 256);
    assert(pow2_spec(9) == 512);
    assert(pow2_spec(10) == 1024);
    assert(pow2_spec(11) == 2048);
    assert(pow2_spec(12) == 4096);
    assert(n == 0 || n == 1 || n == 2 || n == 3 || n == 4 || n == 5 || n == 6 || n == 7 || n == 8
        || n == 9 || n == 10 || n == 11 || n == 12);
}

proof fn lemma_adpcm_unit_len(sector: Seq<u8>, base: int, block_idx: int, h: AdpcmHistory, n: int)
    requires 0 <= n,
    ensures adpcm_unit(sector, base, block_idx, h, n).0.len() == n,
    decreases n,
{
    if n > 0 {
        lemma_adpcm_unit_len(sector, base, block_idx, h, n - 1);
    }
}


/// Sound unit `block_idx` reads its 4-bit samples from the low nibble of each sample byte when
/// `block_idx` is even and from the high nibble when it is odd, as a two's-complement value in
/// -8..7; sample `i` of the unit is that nibble scaled by the unit's range shift plus the
/// filter's prediction from the two samples before it.
pub proof fn lemma_unit_nibble(sector: Seq<u8>, base: int, block_idx: int, h: AdpcmHistory, i: int)
    requires
        0 <= block_idx, 0 <= i, 0 <= base + 16 + 4 * i + block_idx / 2 < sector.len(),
    ensures
        ({
            let b = sector[base + 16 + 4 * i + block_idx / 2] as int;
            let n = if block_idx % 2 == 0 { b % 16 } else { b / 16 };
            &&& nibble_value(sector, base, block_idx, i) == (if n >= 8 { n - 16 } else { n })
            &&& -8 <= nibble_value(sector, base, block_idx, i) <= 7
            &&& adpcm_unit(sector, base, block_idx, h, i + 1).0.last() == adpcm_sample(
                if n >= 8 { n - 16 } else { n },
                unit_shift(sector[base + 4 + block_idx]),
                ((sector[base + 4 + block_idx] >> 4u8) & 3) as int,
                adpcm_unit(sector, base, block_idx, h, i).1)
        }),
{
    crate::bits::lemma_hardware_arith();
    let byte = sector[base + 16 + 4 * i + block_idx / 2];
    assert(byte & 0xF == byte % 16);
    assert((byte >> 4u8) & 0xF == byte / 16);
}
/// Decode the 28 samples of one sound unit, continuing `history`.
fn decode_audio_block(sector: &[u8; 2352], base: usize, block_idx: usize, history: &mut AdpcmHistory, out: &mut Vec<i16>)
    requires
        block_idx < 8, base + 128 <= 2352,
        old(history).wf(),
    ensures
        final(history).wf(),
        final(out)@ == old(out)@ + adpcm_unit(sector@, base as int, block_idx as int, *old(history), 28).0,
        *final(history) == adpcm_unit(sector@, base as int, block_idx as int, *old(history), 28).1,
{
    let header_byte = sector[base + 4 + block_idx];
    let shift = header_byte & 0x0F;
    let filter = ((header_byte >> 4u8) & 0x03) as usize;
    assert(header_byte & 0x0F <= 15 && (header_byte >> 4u8) & 0x03 <= 3) by { crate::bits::lemma_and_bounds(); }
    let effective_shift: i32 = if shift > 12 { 0 } else { 12 - shift as i32 };
    let k0: i32 = if filter == 1 { 60 } else if filter == 2 { 115 } else if filter == 3 { 98 } else { 0 };
    let k1: i32 = if filter == 2 { -52 } else if filter == 3 { -55 } else { 0 };
    let mut prediction = *history;
    let ghost out0 = out@;
    let mut sample_idx: usize = 0;
    while sample_idx < 28
        invariant
            sample_idx <= 28, block_idx < 8, base + 128 <= 2352,
            prediction.wf(),
            0 <= effective_shift <= 12,
            effective_shift == unit_shift(header_byte),
            header_byte == sector@[base + 4 + block_idx],
            k0 == filter_k0(((header_byte >> 4u8) & 3) as int),
            k1 == filter_k1(((header_byte >> 4u8) & 3) as int),
            filter == ((header_byte >> 4u8) & 3) as usize,
            out@ == out0 + adpcm_unit(sector@, base as int, block_idx as int, *old(history), sample_idx as int).0,
            prediction == adpcm_unit(sector@, base as int, block_idx as int, *old(history), sample_idx as int).1,
        decreases 28 - sample_idx,
    {
        let sample_byte = sector[base + 16 + 4 * sample_idx + block_idx / 2];
        let sample = sign_extend_nibble(sample_byte, block_idx % 2 == 1);
        proof { lemma_pow2_values(effective_shift as int); }
        let shifted = shift_left_small(sample, effective_shift);
        let p1 = prediction.prev1;
        let p2 = prediction.prev2;
        assert(-0x80_0000 <= k0 * p1 + k1 * p2 + 32 <= 0x80_0000) by (nonlinear_arith)
            requires -55 <= k1 <= 0, 0 <= k0 <= 115, -0x8000 <= p1 <= 0x7FFF, -0x8000 <= p2 <= 0x7FFF;
        let acc = k0 * p1 + k1 * p2 + 32;
        let predicted = shifted + div64(acc);
        let clamped: i16 = if predicted < -0x8000 { -0x8000 } else if predicted > 0x7FFF { 0x7FFF } else { predicted as i16 };
        prediction.push(clamped);
        out.push(clamped);
        sample_idx = sample_idx + 1;
    }
    *history = prediction;
}

/// A 4-bit value from the low or high nibble of a byte, sign-extended.
fn sign_extend_nibble(byte: u8, high_nibble: bool) -> (r: i32)
    ensures
        r == (if (if high_nibble { (byte >> 4u8) & 0xF } else { byte & 0xF }) >= 8 {
            (if high_nibble { (byte >> 4u8) & 0xF } else { byte & 0xF }) - 16
        } else {
            (if high_nibble { (byte >> 4u8) & 0xF } else { byte & 0xF }) as int
        }),
        -8 <= r <= 7,
{
    let nibble = (if high_nibble { byte >> 4u8 } else { byte }) & 0x0F;
    assert(nibble <= 15) by { crate::bits::lemma_and_bounds(); }
    let v = (((nibble as i8) << 4u8) >> 4u8) as i32;
    assert((if high_nibble { byte >> 4u8 } else { byte }) & 0x0F == (if high_nibble { (byte >> 4u8) & 0xF } else { byte & 0xF })
        && (nibble <= 15 ==> (((nibble as i8) << 4u8) >> 4u8) as i32 == (if nibble >= 8 { nibble - 16 } else { nibble as int }))) by (bit_vector);
    v
}

/// `v * 2^shift` for a small sample and shift.
pub(crate) fn shift_left_small(v: i32, shift: i32) -> (r: i32)
    requires -8 <= v <= 7, 0 <= shift <= 12,
    ensures r == v * pow2_spec(shift as int), -0x8000 <= r <= 0x7000,
{
    let mut r = v;
    let mut k: i32 = 0;
    while k < shift
        invariant
            0 <= k <= shift <= 12, -8 <= v <= 7,
            r == v * pow2_spec(k as int),
            -8 * pow2_spec(k as int) <= r <= 7 * pow2_spec(k as int),
            1 <= pow2_spec(k as int) <= 4096,
        decreases shift - k,
    {
        proof { lemma_pow2_values(k as int + 1); }
        assert(r * 2 == v * pow2_spec(k as int + 1)) by (nonlinear_arith)
            requires r == v * pow2_spec(k as int), pow2_spec(k as int + 1) == 2 * pow2_spec(k as int);
        r = r * 2;
        k = k + 1;
    }
    proof { lemma_pow2_values(shift as int); }
    assert(-0x8000 <= r <= 0x7000) by (nonlinear_arith)
        requires r == v * pow2_spec(shift as int), -8 <= v <= 7, 1 <= pow2_spec(shift as int) <= 4096;
    r
}

/// Division by 64 rounding towards zero.
pub(crate) fn div64(a: i32) -> (r: i32)
    requires -0x80_0000 <= a <= 0x80_0000,
    ensures r == trunc_div(a as int, 64), -0x2_0000 <= r <= 0x2_0000,
{
    if a >= 0 {
        a / 64
    } else {
        -((-a) / 64)
    }
}

/// The sound units of a sector's first `u` units (8 per 128-byte sound group, groups from
/// byte 24): the left and right sample streams and the two histories afterwards. In stereo the
/// odd units are the right channel; in mono every unit is left.
pub open spec fn decode_units(sector: Seq<u8>, stereo: bool, hl: AdpcmHistory, hr: AdpcmHistory, u: int)
    -> (Seq<i16>, Seq<i16>, AdpcmHistory, AdpcmHistory)
    decreases u,
{
    if u <= 0 {
        (Seq::empty(), Seq::empty(), hl, hr)
    } else {
        let prev = decode_units(sector, stereo, hl, hr, u - 1);
        let unit = u - 1;
        let base = 24 + 128 * (unit / 8);
        let block_idx = unit % 8;
        if stereo && block_idx % 2 == 1 {
            let d = adpcm_unit(sector, base, block_idx, prev.3, 28);
            (prev.0, prev.1 + d.0, prev.2, d.1)
        } else {
            let d = adpcm_unit(sector, base, block_idx, prev.2, 28);
            (prev.0 + d.0, prev.1, d.1, prev.3)
        }
    }
}

/// Pairs of left and right samples, as many as both streams have.
pub open spec fn zip_samples(l: Seq<i16>, r: Seq<i16>) -> Seq<(PcmSample, PcmSample)> {
    let n = if l.len() < r.len() { l.len() } else { r.len() };
    Seq::new(n, |i: int| (PcmSample(l[i]), PcmSample(r[i])))
}

/// XA-ADPCM decoder: prediction histories and resampler state persist across sectors; decoded
/// 44100 Hz stereo samples wait in `pending_xa_samples` for the SPU.
pub struct XadpcmDecoder {
    pub pending_xa_samples: VecDeque<(PcmSample, PcmSample)>,
    pub history_l: AdpcmHistory,
    pub history_r: AdpcmHistory,
    pub resample_ring_l: ResampleRingBuffer,
    pub resample_ring_r: ResampleRingBuffer,
}

impl XadpcmDecoder {
    pub open spec fn wf(&self) -> bool {
        &&& self.history_l.wf()
        &&& self.history_r.wf()
        &&& self.resample_ring_l.wf()
        &&& self.resample_ring_r.wf()
    }

    pub fn new() -> (r: Self)
        ensures
            r.wf(),
            r.pending_xa_samples@.len() == 0,
            r.history_l == (AdpcmHistory { prev1: 0, prev2: 0 }),
            r.history_r == (AdpcmHistory { prev1: 0, prev2: 0 }),
    {
        Self {
            pending_xa_samples: VecDeque::new(),
            history_l: AdpcmHistory { prev1: 0, prev2: 0 },
            history_r: AdpcmHistory { prev1: 0, prev2: 0 },
            resample_ring_l: ResampleRingBuffer::new(),
            resample_ring_r: ResampleRingBuffer::new(),
        }
    }

    /// Decode one XA audio sector: the 18 sound groups give the left (and in stereo the
    /// right) 37800/18900 Hz stream, which is resampled to 44100 Hz and queued as pairs (a
    /// mono stream feeds both channels).
    pub fn decode_sector(&mut self, subheader: &XaSubHeader, sector_buffer: &[u8; 2352])
        requires old(self).wf(),
        ensures
            final(self).wf(),
            ({
                let stereo = subheader.coding_info & 0x01 != 0;
                let half = subheader.coding_info & 0x04 != 0;
                let d = decode_units(sector_buffer@, stereo, old(self).history_l, old(self).history_r, 144);
                let right = if stereo { d.1 } else { d.0 };
                let out_l = resample_spec(old(self).resample_ring_l.samples@, old(self).resample_ring_l.write_idx as int, pushed_samples(d.0, half));
                let out_r = resample_spec(old(self).resample_ring_r.samples@, old(self).resample_ring_r.write_idx as int, pushed_samples(right, half));
                &&& final(self).history_l == d.2
                &&& final(self).history_r == d.3
                &&& final(self).pending_xa_samples@ == old(self).pending_xa_samples@ + zip_samples(out_l, out_r)
            }),
    {
        let stereo = subheader.is_stereo();
        let half_rate = subheader.is_half_rate();
        let mut decoded_l: Vec<i16> = Vec::new();
        let mut decoded_r: Vec<i16> = Vec::new();
        let ghost hl0 = self.history_l;
        let ghost hr0 = self.history_r;
        let mut unit: usize = 0;
        while unit < 144
            invariant
                unit <= 144,
                self.wf(),
                stereo == (subheader.coding_info & 0x01 != 0),
                hl0 == old(self).history_l, hr0 == old(self).history_r,
                self.resample_ring_l == old(self).resample_ring_l,
                self.resample_ring_r == old(self).resample_ring_r,
                self.pending_xa_samples == old(self).pending_xa_samples,
                ({
                    let d = decode_units(sector_buffer@, stereo, hl0, hr0, unit as int);
                    &&& decoded_l@ == d.0
                    &&& decoded_r@ == d.1
                    &&& self.history_l == d.2
                    &&& self.history_r == d.3
                }),
                decoded_l@.len() + decoded_r@.len() == 28 * unit,
            decreases 144 - unit,
        {
            let block = unit / 8;
            let block_idx = unit % 8;
            assert(128 * block + 128 <= 2304) by (nonlinear_arith) requires block == unit / 8, unit < 144;
            let base = 24 + 128 * block;
            proof {
                lemma_adpcm_unit_len(sector_buffer@, base as int, block_idx as int, self.history_l, 28);
                lemma_adpcm_unit_len(sector_buffer@, base as int, block_idx as int, self.history_r, 28);
            }
            if stereo && block_idx % 2 == 1 {
                decode_audio_block(sector_buffer, base, block_idx, &mut self.history_r, &mut decoded_r);
            } else {
                decode_audio_block(sector_buffer, base, block_idx, &mut self.history_l, &mut decoded_l);
            }
            unit = unit + 1;
        }
        let decoded_right: Vec<i16> = if stereo { decoded_r } else { decoded_l.clone() };
        let mut resampled_l: Vec<i16> = Vec::new();
        let mut resampled_r: Vec<i16> = Vec::new();
        resample_to_44100hz(half_rate, &decoded_l, &mut resampled_l, &mut self.resample_ring_l);
        resample_to_44100hz(half_rate, &decoded_right, &mut resampled_r, &mut self.resample_ring_r);
        let sample_count = if resampled_l.len() < resampled_r.len() { resampled_l.len() } else { resampled_r.len() };
        let ghost base_q = self.pending_xa_samples@;
        let ghost hl1 = self.history_l;
        let ghost hr1 = self.history_r;
        let ghost rl1 = self.resample_ring_l;
        let ghost rr1 = self.resample_ring_r;
        let mut i: usize = 0;
        while i < sample_count
            invariant
                i <= sample_count,
                self.wf(),
                self.history_l == hl1, self.history_r == hr1,
                self.resample_ring_l == rl1, self.resample_ring_r == rr1,
                sample_count <= resampled_l@.len(), sample_count <= resampled_r@.len(),
                sample_count == (if resampled_l@.len() < resampled_r@.len() { resampled_l@.len() } else { resampled_r@.len() }),
                self.pending_xa_samples@ == base_q + zip_samples(resampled_l@, resampled_r@).take(i as int),
            decreases sample_count - i,
        {
            self.pending_xa_samples.push_back((PcmSample(resampled_l[i]), PcmSample(resampled_r[i])));
            assert(zip_samples(resampled_l@, resampled_r@).take(i as int + 1) =~= zip_samples(resampled_l@, resampled_r@).take(i as int).push((PcmSample(resampled_l@[i as int]), PcmSample(resampled_r@[i as int]))));
            i = i + 1;
        }
        assert(zip_samples(resampled_l@, resampled_r@).take(sample_count as int) =~= zip_samples(resampled_l@, resampled_r@));
    }
}

} // verus!
