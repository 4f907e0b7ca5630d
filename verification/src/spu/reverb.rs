//! The SPU reverb unit: its register file, the 39-tap half-band FIR filters on its input and
//! output, and the reflection, comb and all-pass stages working in a circular buffer in
//! sound RAM.
use vstd::prelude::*;
use crate::spu::PcmSample;
use crate::bytes::le16;

verus! {

pub const FIR_COEFFS: [i32; 39] = [
    -0x0001, 0x0000, 0x0002, 0x0000, -0x000A, 0x0000, 0x0023, 0x0000, -0x0067, 0x0000, 0x010A,
    0x0000, -0x0268, 0x0000, 0x0534, 0x0000, -0x0B90, 0x0000, 0x2806, 0x4000, 0x2806, 0x0000,
    -0x0B90, 0x0000, 0x0534, 0x0000, -0x0268, 0x0000, 0x010A, 0x0000, -0x0067, 0x0000, 0x0023,
    0x0000, -0x000A, 0x0000, 0x0002, 0x0000, -0x0001,
];

pub open spec fn abs(v: int) -> int {
    if v < 0 { -v } else { v }
}

/// Sum of the first `n` coefficients' magnitudes.
pub open spec fn coeff_abs_sum(n: int) -> int
    decreases n,
{
    if n <= 0 { 0 } else { coeff_abs_sum(n - 1) + abs(FIR_COEFFS@[n - 1] as int) }
}

proof fn lemma_coeff_abs_sum()
    ensures coeff_abs_sum(39) == 47526,
        forall|n: int| 0 <= n <= 39 ==> 0 <= #[trigger] coeff_abs_sum(n) <= 47526,
{
    reveal_with_fuel(coeff_abs_sum, 40);
    assert(coeff_abs_sum(39) == 47526);
    assert forall|n: int| 0 <= n <= 39 implies 0 <= #[trigger] coeff_abs_sum(n) <= 47526 by {
        lemma_coeff_abs_sum_mono(n);
    }
}

proof fn lemma_coeff_abs_sum_mono(n: int)
    requires 0 <= n <= 39,
    ensures 0 <= coeff_abs_sum(n) <= coeff_abs_sum(39),
    decreases 39 - n,
{
    if n < 39 {
        lemma_coeff_abs_sum_mono(n + 1);
    } else {
    }
    if n > 0 {
        lemma_coeff_abs_sum_nonneg(n);
    }
}

proof fn lemma_coeff_abs_sum_nonneg(n: int)
    requires 0 <= n,
    ensures coeff_abs_sum(n) >= 0,
    decreases n,
{
    if n > 0 {
        lemma_coeff_abs_sum_nonneg(n - 1);
    }
}

/// The weighted sum over the first `n` taps, oldest sample (at `pos`) first.
pub open spec fn fir_sum(samples: Seq<i32>, pos: int, n: int) -> int
    decreases n,
{
    if n <= 0 { 0 } else { fir_sum(samples, pos, n - 1) + FIR_COEFFS@[n - 1] * samples[(pos + n - 1) % 39] }
}

/// The last 39 samples fed to a FIR filter.
pub struct FirRingBuffer {
    pub samples: [i32; 39],
    pub pos: usize,
}

impl FirRingBuffer {
    pub open spec fn wf(&self) -> bool {
        &&& self.pos < 39
        &&& forall|i: int| 0 <= i < 39 ==> -0x8000 <= #[trigger] self.samples@[i] <= 0x8000
    }

    pub fn new() -> (r: Self)
        ensures r.wf(), r.pos == 0, r.samples@ == Seq::new(39, |i: int| 0i32),
    {
        let r = Self { samples: [0; 39], pos: 0 };
        assert(r.samples@ =~= Seq::new(39, |i: int| 0i32));
        r
    }

    pub fn push(&mut self, value: i32)
        requires old(self).wf(), -0x8000 <= value <= 0x8000,
        ensures
            final(self).wf(),
            final(self).samples@ == old(self).samples@.update(old(self).pos as int, value),
            final(self).pos == (old(self).pos + 1) % 39,
    {
        self.samples[self.pos] = value;
        self.pos = (self.pos + 1) % 39;
    }

    /// The filtered sample: the coefficients applied to the samples oldest first, >> 15.
    pub fn filter(&self) -> (r: i32)
        requires self.wf(),
        ensures r == fir_sum(self.samples@, self.pos as int, 39) / 0x8000, -47526 <= r <= 47526,
    {
        proof { lemma_coeff_abs_sum(); }
        let mut sum: i64 = 0;
        let mut i: usize = 0;
        while i < 39
            invariant
                i <= 39, self.wf(),
                sum == fir_sum(self.samples@, self.pos as int, i as int),
                abs(sum as int) <= coeff_abs_sum(i as int) * 0x8000,
                coeff_abs_sum(39) == 47526,
                forall|n: int| 0 <= n <= 39 ==> 0 <= #[trigger] coeff_abs_sum(n) <= 47526,
            decreases 39 - i,
        {
            let idx = (self.pos + i) % 39;
            let c = FIR_COEFFS[i];
            let s = self.samples[idx];
            assert(abs((c as int) * (s as int)) <= abs(c as int) * 0x8000) by (nonlinear_arith)
                requires -0x8000 <= s <= 0x8000;
            sum = sum + c as i64 * s as i64;
            i = i + 1;
        }
        assert(-47526 * 0x8000 <= sum <= 47526 * 0x8000);
        assert(sum >> 15u64 == sum / 0x8000) by { crate::bits::lemma_shifts_i64(); }
        assert(-47526 <= sum / 0x8000 <= 47526) by (nonlinear_arith) requires -47526 * 0x8000 <= sum <= 47526 * 0x8000;
        (sum >> 15u64) as i32
    }
}

/// The reverb unit: volume and address registers, the input and output FIR filters, and
/// the position in the circular work area.
pub struct Reverb {
    pub vlout: i16,
    pub vrout: i16,
    pub mbase: u16,
    pub dapf1: u16,
    pub dapf2: u16,
    pub viir: i16,
    pub vcomb1: i16,
    pub vcomb2: i16,
    pub vcomb3: i16,
    pub vcomb4: i16,
    pub vwall: i16,
    pub vapf1: i16,
    pub vapf2: i16,
    pub mlsame: u16,
    pub mrsame: u16,
    pub mlcomb1: u16,
    pub mrcomb1: u16,
    pub mlcomb2: u16,
    pub mrcomb2: u16,
    pub dlsame: u16,
    pub drsame: u16,
    pub mldiff: u16,
    pub mrdiff: u16,
    pub mlcomb3: u16,
    pub mrcomb3: u16,
    pub mlcomb4: u16,
    pub mrcomb4: u16,
    pub dldiff: u16,
    pub drdiff: u16,
    pub mlapf1: u16,
    pub mrapf1: u16,
    pub mlapf2: u16,
    pub mrapf2: u16,
    pub vlin: i16,
    pub vrin: i16,
    pub current_output: (PcmSample, PcmSample),
    pub enabled: bool,
    pub current_buffer_offset: u32,
    /// Left is processed on even ticks, right on odd ones.
    pub odd_tick: bool,
    pub input_buffer_l: FirRingBuffer,
    pub input_buffer_r: FirRingBuffer,
    pub output_buffer_l: FirRingBuffer,
    pub output_buffer_r: FirRingBuffer,
}

/// Whether `offset` (from 1F801C00h) is a reverb register.
pub open spec fn is_reverb_register(offset: int) -> bool {
    offset == 0x184 || offset == 0x186 || offset == 0x1A2 || (0x1C0 <= offset <= 0x1FE && offset % 2 == 0)
}

impl Reverb {
    pub open spec fn work_area_size_spec(&self) -> int {
        let base = self.mbase * 8;
        if base >= 0x7FFFE { 1 } else { 0x7FFFE - base }
    }

    pub open spec fn wf(&self) -> bool {
        &&& self.current_buffer_offset < self.work_area_size_spec()
        &&& self.input_buffer_l.wf() && self.input_buffer_r.wf()
        &&& self.output_buffer_l.wf() && self.output_buffer_r.wf()
    }

    pub fn new() -> (r: Self)
        ensures r.wf(), !r.enabled, r.current_buffer_offset == 0, !r.odd_tick, r.mbase == 0,
            r.current_output == (PcmSample(0), PcmSample(0)),
    {
        Self {
            vlout: 0,
            vrout: 0,
            mbase: 0,
            dapf1: 0,
            dapf2: 0,
            viir: 0,
            vcomb1: 0,
            vcomb2: 0,
            vcomb3: 0,
            vcomb4: 0,
            vwall: 0,
            vapf1: 0,
            vapf2: 0,
            mlsame: 0,
            mrsame: 0,
            mlcomb1: 0,
            mrcomb1: 0,
            mlcomb2: 0,
            mrcomb2: 0,
            dlsame: 0,
            drsame: 0,
            mldiff: 0,
            mrdiff: 0,
            mlcomb3: 0,
            mrcomb3: 0,
            mlcomb4: 0,
            mrcomb4: 0,
            dldiff: 0,
            drdiff: 0,
            mlapf1: 0,
            mrapf1: 0,
            mlapf2: 0,
            mrapf2: 0,
            vlin: 0,
            vrin: 0,
            current_output: (PcmSample(0), PcmSample(0)),
            enabled: false,
            current_buffer_offset: 0,
            odd_tick: false,
            input_buffer_l: FirRingBuffer::new(),
            input_buffer_r: FirRingBuffer::new(),
            output_buffer_l: FirRingBuffer::new(),
            output_buffer_r: FirRingBuffer::new(),
        }
    }

    /// The value of register `offset`; 0 for others.
    pub open spec fn register_spec(&self, offset: int) -> u16 {
        if offset == 0x184 { self.vlout as u16 }
        else if offset == 0x186 { self.vrout as u16 }
        else if offset == 0x1A2 { self.mbase }
        else if offset == 0x1C0 { self.dapf1 }
        else if offset == 0x1C2 { self.dapf2 }
        else if offset == 0x1C4 { self.viir as u16 }
        else if offset == 0x1C6 { self.vcomb1 as u16 }
        else if offset == 0x1C8 { self.vcomb2 as u16 }
        else if offset == 0x1CA { self.vcomb3 as u16 }
        else if offset == 0x1CC { self.vcomb4 as u16 }
        else if offset == 0x1CE { self.vwall as u16 }
        else if offset == 0x1D0 { self.vapf1 as u16 }
        else if offset == 0x1D2 { self.vapf2 as u16 }
        else if offset == 0x1D4 { self.mlsame }
        else if offset == 0x1D6 { self.mrsame }
        else if offset == 0x1D8 { self.mlcomb1 }
        else if offset == 0x1DA { self.mrcomb1 }
        else if offset == 0x1DC { self.mlcomb2 }
        else if offset == 0x1DE { self.mrcomb2 }
        else if offset == 0x1E0 { self.dlsame }
        else if offset == 0x1E2 { self.drsame }
        else if offset == 0x1E4 { self.mldiff }
        else if offset == 0x1E6 { self.mrdiff }
        else if offset == 0x1E8 { self.mlcomb3 }
        else if offset == 0x1EA { self.mrcomb3 }
        else if offset == 0x1EC { self.mlcomb4 }
        else if offset == 0x1EE { self.mrcomb4 }
        else if offset == 0x1F0 { self.dldiff }
        else if offset == 0x1F2 { self.drdiff }
        else if offset == 0x1F4 { self.mlapf1 }
        else if offset == 0x1F6 { self.mrapf1 }
        else if offset == 0x1F8 { self.mlapf2 }
        else if offset == 0x1FA { self.mrapf2 }
        else if offset == 0x1FC { self.vlin as u16 }
        else if offset == 0x1FE { self.vrin as u16 }
        else { 0 }
    }

    pub fn read_register(&self, offset: usize) -> (r: u16)
        ensures r == self.register_spec(offset as int),
    {
        match offset {
            0x184 => self.vlout as u16,
            0x186 => self.vrout as u16,
            0x1A2 => self.mbase,
            0x1C0 => self.dapf1,
            0x1C2 => self.dapf2,
            0x1C4 => self.viir as u16,
            0x1C6 => self.vcomb1 as u16,
            0x1C8 => self.vcomb2 as u16,
            0x1CA => self.vcomb3 as u16,
            0x1CC => self.vcomb4 as u16,
            0x1CE => self.vwall as u16,
            0x1D0 => self.vapf1 as u16,
            0x1D2 => self.vapf2 as u16,
            0x1D4 => self.mlsame,
            0x1D6 => self.mrsame,
            0x1D8 => self.mlcomb1,
            0x1DA => self.mrcomb1,
            0x1DC => self.mlcomb2,
            0x1DE => self.mrcomb2,
            0x1E0 => self.dlsame,
            0x1E2 => self.drsame,
            0x1E4 => self.mldiff,
            0x1E6 => self.mrdiff,
            0x1E8 => self.mlcomb3,
            0x1EA => self.mrcomb3,
            0x1EC => self.mlcomb4,
            0x1EE => self.mrcomb4,
            0x1F0 => self.dldiff,
            0x1F2 => self.drdiff,
            0x1F4 => self.mlapf1,
            0x1F6 => self.mrapf1,
            0x1F8 => self.mlapf2,
            0x1FA => self.mrapf2,
            0x1FC => self.vlin as u16,
            0x1FE => self.vrin as u16,
            _ => 0,
        }
    }

    /// The reverb after writing `value` to register `offset` (other than mBASE).
    pub open spec fn with_register(&self, offset: int, value: u16) -> Reverb {
        if offset == 0x184 { Reverb { vlout: value as i16, ..*self } }
        else if offset == 0x186 { Reverb { vrout: value as i16, ..*self } }
        else if offset == 0x1C0 { Reverb { dapf1: value, ..*self } }
        else if offset == 0x1C2 { Reverb { dapf2: value, ..*self } }
        else if offset == 0x1C4 { Reverb { viir: value as i16, ..*self } }
        else if offset == 0x1C6 { Reverb { vcomb1: value as i16, ..*self } }
        else if offset == 0x1C8 { Reverb { vcomb2: value as i16, ..*self } }
        else if offset == 0x1CA { Reverb { vcomb3: value as i16, ..*self } }
        else if offset == 0x1CC { Reverb { vcomb4: value as i16, ..*self } }
        else if offset == 0x1CE { Reverb { vwall: value as i16, ..*self } }
        else if offset == 0x1D0 { Reverb { vapf1: value as i16, ..*self } }
        else if offset == 0x1D2 { Reverb { vapf2: value as i16, ..*self } }
        else if offset == 0x1D4 { Reverb { mlsame: value, ..*self } }
        else if offset == 0x1D6 { Reverb { mrsame: value, ..*self } }
        else if offset == 0x1D8 { Reverb { mlcomb1: value, ..*self } }
        else if offset == 0x1DA { Reverb { mrcomb1: value, ..*self } }
        else if offset == 0x1DC { Reverb { mlcomb2: value, ..*self } }
        else if offset == 0x1DE { Reverb { mrcomb2: value, ..*self } }
        else if offset == 0x1E0 { Reverb { dlsame: value, ..*self } }
        else if offset == 0x1E2 { Reverb { drsame: value, ..*self } }
        else if offset == 0x1E4 { Reverb { mldiff: value, ..*self } }
        else if offset == 0x1E6 { Reverb { mrdiff: value, ..*self } }
        else if offset == 0x1E8 { Reverb { mlcomb3: value, ..*self } }
        else if offset == 0x1EA { Reverb { mrcomb3: value, ..*self } }
        else if offset == 0x1EC { Reverb { mlcomb4: value, ..*self } }
        else if offset == 0x1EE { Reverb { mrcomb4: value, ..*self } }
        else if offset == 0x1F0 { Reverb { dldiff: value, ..*self } }
        else if offset == 0x1F2 { Reverb { drdiff: value, ..*self } }
        else if offset == 0x1F4 { Reverb { mlapf1: value, ..*self } }
        else if offset == 0x1F6 { Reverb { mrapf1: value, ..*self } }
        else if offset == 0x1F8 { Reverb { mlapf2: value, ..*self } }
        else if offset == 0x1FA { Reverb { mrapf2: value, ..*self } }
        else if offset == 0x1FC { Reverb { vlin: value as i16, ..*self } }
        else if offset == 0x1FE { Reverb { vrin: value as i16, ..*self } }
        else { *self }
    }

    pub fn write_register(&mut self, offset: usize, value: u16)
        requires old(self).wf(),
        ensures
            final(self).wf(),
            offset == 0x1A2 ==> *final(self) == (Reverb { mbase: value, current_buffer_offset: 0, ..*old(self) }),
            offset != 0x1A2 ==> *final(self) == old(self).with_register(offset as int, value),
    {
        match offset {
            0x1A2 => self.write_mbase(value),
            0x184 => self.vlout = value as i16,
            0x186 => self.vrout = value as i16,
            0x1C0 => self.dapf1 = value,
            0x1C2 => self.dapf2 = value,
            0x1C4 => self.viir = value as i16,
            0x1C6 => self.vcomb1 = value as i16,
            0x1C8 => self.vcomb2 = value as i16,
            0x1CA => self.vcomb3 = value as i16,
            0x1CC => self.vcomb4 = value as i16,
            0x1CE => self.vwall = value as i16,
            0x1D0 => self.vapf1 = value as i16,
            0x1D2 => self.vapf2 = value as i16,
            0x1D4 => self.mlsame = value,
            0x1D6 => self.mrsame = value,
            0x1D8 => self.mlcomb1 = value,
            0x1DA => self.mrcomb1 = value,
            0x1DC => self.mlcomb2 = value,
            0x1DE => self.mrcomb2 = value,
            0x1E0 => self.dlsame = value,
            0x1E2 => self.drsame = value,
            0x1E4 => self.mldiff = value,
            0x1E6 => self.mrdiff = value,
            0x1E8 => self.mlcomb3 = value,
            0x1EA => self.mrcomb3 = value,
            0x1EC => self.mlcomb4 = value,
            0x1EE => self.mrcomb4 = value,
            0x1F0 => self.dldiff = value,
            0x1F2 => self.drdiff = value,
            0x1F4 => self.mlapf1 = value,
            0x1F6 => self.mrapf1 = value,
            0x1F8 => self.mlapf2 = value,
            0x1FA => self.mrapf2 = value,
            0x1FC => self.vlin = value as i16,
            0x1FE => self.vrin = value as i16,
            _ => {},
        }
    }

    pub fn set_enabled(&mut self, enabled: bool)
        requires old(self).wf(),
        ensures final(self).wf(), *final(self) == (Reverb { enabled, ..*old(self) }),
    {
        self.enabled = enabled;
    }

    pub fn current_output(&self) -> (r: (PcmSample, PcmSample))
        ensures r == self.current_output,
    {
        self.current_output
    }

    /// Set the work area start (in 8-byte units); the buffer position restarts.
    pub fn write_mbase(&mut self, value: u16)
        requires old(self).wf(),
        ensures final(self).wf(), *final(self) == (Reverb { mbase: value, current_buffer_offset: 0, ..*old(self) }),
    {
        self.mbase = value;
        self.current_buffer_offset = 0;
    }

    fn work_area_size(&self) -> (r: usize)
        ensures r == self.work_area_size_spec(), 6 <= r <= 0x7FFFE,
    {
        let base = (self.mbase as usize) * 8;
        if base >= 0x7FFFE { 1 } else { 0x7FFFE - base }
    }

    /// The sound RAM byte address of a work-area register plus a byte adjustment, relative to
    /// the buffer position and wrapped within the work area.
    pub open spec fn address_spec(&self, register_offset: u16, byte_adjustment: int) -> int {
        self.mbase * 8 + (register_offset * 8 + byte_adjustment + self.current_buffer_offset) % self.work_area_size_spec()
    }

    fn resolve_address(&self, register_offset: u16, byte_adjustment: i32) -> (r: usize)
        requires self.wf(), -0x80000 <= byte_adjustment <= 0,
        ensures r == self.address_spec(register_offset, byte_adjustment as int), r + 1 < 0x80000,
    {
        let base = (self.mbase as usize) * 8;
        let size = self.work_area_size();
        let x: i64 = (register_offset as i64) * 8 + byte_adjustment as i64 + self.current_buffer_offset as i64;
        let wrapped = euclid_mod(x, size as u64);
        base + wrapped as usize
    }

    /// The 16-bit sample at a work-area address.
    fn mem_read(&self, sound_ram: &Vec<u8>, register_offset: u16, byte_adjustment: i32) -> (r: i16)
        requires self.wf(), sound_ram@.len() == 0x80000, -0x80000 <= byte_adjustment <= 0,
        ensures r == le16(sound_ram@, self.address_spec(register_offset, byte_adjustment as int)) as i16,
    {
        let addr = self.resolve_address(register_offset, byte_adjustment);
        ((sound_ram[addr] as u16) | ((sound_ram[addr + 1] as u16) << 8u16)) as i16
    }

    /// Store a saturated sample at a work-area address, unless reverb writes are disabled.
    fn mem_write(&self, sound_ram: &mut Vec<u8>, register_offset: u16, value: i32)
        requires self.wf(), old(sound_ram)@.len() == 0x80000,
        ensures
            final(sound_ram)@.len() == 0x80000,
            !self.enabled ==> final(sound_ram)@ == old(sound_ram)@,
            self.enabled ==> final(sound_ram)@ == crate::bytes::put16(old(sound_ram)@,
                self.address_spec(register_offset, 0), crate::xadpcm::clamp16(value as int) as u16),
    {
        if !self.enabled {
            return;
        }
        let addr = self.resolve_address(register_offset, 0);
        let clamped: i16 = if value < -0x8000 { -0x8000 } else if value > 0x7FFF { 0x7FFF } else { value as i16 };
        let u = clamped as u16;
        sound_ram.set(addr, (u & 0xFF) as u8);
        sound_ram.set(addr + 1, (u >> 8u16) as u8);
    }
}

/// (a * coef) >> 15.
fn mul_coef(a: i32, coef: i16) -> (r: i32)
    requires -47526 <= a <= 47526,
    ensures r == crate::spu::mixer::mul15(a as int, coef as int), -47526 <= r <= 47526,
        -0x8000 <= a <= 0x8000 ==> -0x8000 <= r <= 0x8000,
{
    assert(-47526 * 0x8000 <= a * (coef as i32) <= 47526 * 0x8000) by (nonlinear_arith)
        requires -47526 <= a <= 47526, -0x8000 <= coef <= 0x7FFF;
    let p: i32 = a * (coef as i32);
    assert(p >> 15u32 == p / 0x8000) by { crate::bits::lemma_shifts_i32(); }
    assert(-47526 <= p / 0x8000 <= 47526) by (nonlinear_arith) requires -47526 * 0x8000 <= p <= 47526 * 0x8000;
    assert(-0x8000 <= a <= 0x8000 ==> -0x8000 <= p / 0x8000 <= 0x8000) by (nonlinear_arith)
        requires p == a * (coef as i32), -0x8000 <= coef <= 0x7FFF;
    p >> 15u32
}

fn clamp_i32(v: i32) -> (r: i32)
    ensures r == crate::xadpcm::clamp16(v as int) as i32, -0x8000 <= r <= 0x7FFF,
{
    if v < -0x8000 { -0x8000 } else if v > 0x7FFF { 0x7FFF } else { v }
}

impl Reverb {
    /// A reflection stage: the result (in + [tap]*vWALL - [dest-2])*vIIR + [dest-2], and the
    /// sound RAM with the result (saturated) stored at [dest] when reverb writes are enabled.
    pub open spec fn reflection_spec(self, ram: Seq<u8>, input: int, dest_offset: u16, tap_offset: u16) -> (int, Seq<u8>) {
        let prev = le16(ram, self.address_spec(dest_offset, -2)) as i16 as int;
        let tap = le16(ram, self.address_spec(tap_offset, 0)) as i16 as int;
        let inner = crate::xadpcm::clamp16(input + crate::spu::mixer::mul15(tap, self.vwall as int) - prev) as int;
        let r = prev + crate::spu::mixer::mul15(inner, self.viir as int);
        (r, if self.enabled {
            crate::bytes::put16(ram, self.address_spec(dest_offset, 0), crate::xadpcm::clamp16(r) as u16)
        } else {
            ram
        })
    }

    /// The comb stage: the four taps weighted by their volumes, saturated.
    pub open spec fn comb_spec(self, ram: Seq<u8>, offsets: [u16; 4], coefs: [i16; 4]) -> int {
        crate::xadpcm::clamp16(
            crate::spu::mixer::mul15(le16(ram, self.address_spec(offsets@[0], 0)) as i16 as int, coefs@[0] as int)
            + crate::spu::mixer::mul15(le16(ram, self.address_spec(offsets@[1], 0)) as i16 as int, coefs@[1] as int)
            + crate::spu::mixer::mul15(le16(ram, self.address_spec(offsets@[2], 0)) as i16 as int, coefs@[2] as int)
            + crate::spu::mixer::mul15(le16(ram, self.address_spec(offsets@[3], 0)) as i16 as int, coefs@[3] as int)) as int
    }

    /// An all-pass stage: new = out - [dest-disp]*vAPF stored (saturated) at [dest] when
    /// writes are enabled; the result is [dest-disp] + new*vAPF.
    pub open spec fn allpass_spec(self, ram: Seq<u8>, out: int, dest_offset: u16, disp: u16, vapf: i16) -> (int, Seq<u8>) {
        let tap = le16(ram, self.address_spec(dest_offset, -(disp * 8))) as i16 as int;
        let new = crate::xadpcm::clamp16(out - crate::spu::mixer::mul15(tap, vapf as int)) as int;
        (tap + crate::spu::mixer::mul15(new, vapf as int), if self.enabled {
            crate::bytes::put16(ram, self.address_spec(dest_offset, 0), crate::xadpcm::clamp16(new) as u16)
        } else {
            ram
        })
    }

    /// The registers a clock uses: the left set on even clocks, the right set on odd ones
    /// (input volume, same-side tap and destination, different-side tap and destination,
    /// comb taps, all-pass destinations).
    pub open spec fn side(self) -> (i16, u16, u16, u16, u16, [u16; 4], u16, u16) {
        if !self.odd_tick {
            (self.vlin, self.dlsame, self.mlsame, self.drdiff, self.mldiff,
                [self.mlcomb1, self.mlcomb2, self.mlcomb3, self.mlcomb4], self.mlapf1, self.mlapf2)
        } else {
            (self.vrin, self.drsame, self.mrsame, self.dldiff, self.mrdiff,
                [self.mrcomb1, self.mrcomb2, self.mrcomb3, self.mrcomb4], self.mrapf1, self.mrapf2)
        }
    }

    /// The work-area stages of one clock on the filtered input: the two reflections, the comb
    /// sum and the two all-pass filters; gives the all-pass output and the sound RAM after.
    pub open spec fn stages_spec(self, ram: Seq<u8>, filtered_input: int) -> (int, Seq<u8>) {
        let (vin, dsame, msame, ddiff, mdiff, comb, apf1, apf2) = self.side();
        let x = crate::spu::mixer::mul15(filtered_input, vin as int);
        let s1 = self.reflection_spec(ram, x, msame, dsame);
        let s2 = self.reflection_spec(s1.1, x, mdiff, ddiff);
        let c = self.comb_spec(s2.1, comb, [self.vcomb1, self.vcomb2, self.vcomb3, self.vcomb4]);
        let a1 = self.allpass_spec(s2.1, c, apf1, self.dapf1, self.vapf1);
        self.allpass_spec(a1.1, a1.0, apf2, self.dapf2, self.vapf2)
    }
}

impl Reverb {
    /// Same- or different-side reflection: [dest] = (in + [tap]*vWALL - [dest-2])*vIIR + [dest-2].
    fn reflection_stage(&self, sound_ram: &mut Vec<u8>, input: i32, dest_offset: u16, tap_offset: u16) -> (r: i32)
        requires self.wf(), old(sound_ram)@.len() == 0x80000, -47526 <= input <= 47526,
        ensures
            final(sound_ram)@.len() == 0x80000,
            (r as int, final(sound_ram)@) == self.reflection_spec(old(sound_ram)@, input as int, dest_offset, tap_offset),
            -0x10000 <= r <= 0x10000,
    {
        let prev = self.mem_read(sound_ram, dest_offset, -2) as i32;
        let tap = self.mem_read(sound_ram, tap_offset, 0) as i32;
        let inner = clamp_i32(input + mul_coef(tap, self.vwall) - prev);
        let result = prev + mul_coef(inner, self.viir);
        assert(-0x8000 <= inner <= 0x7FFF);
        self.mem_write(sound_ram, dest_offset, result);
        result
    }

    /// Early echo: the four comb taps weighted by their volumes, saturated.
    fn comb_sum(&self, sound_ram: &Vec<u8>, offsets: [u16; 4], coefs: [i16; 4]) -> (r: i32)
        requires self.wf(), sound_ram@.len() == 0x80000,
        ensures -0x8000 <= r <= 0x7FFF,
            r == self.comb_spec(sound_ram@, offsets, coefs),
    {
        let a = mul_coef(self.mem_read(sound_ram, offsets[0], 0) as i32, coefs[0]);
        let b = mul_coef(self.mem_read(sound_ram, offsets[1], 0) as i32, coefs[1]);
        let c = mul_coef(self.mem_read(sound_ram, offsets[2], 0) as i32, coefs[2]);
        let d = mul_coef(self.mem_read(sound_ram, offsets[3], 0) as i32, coefs[3]);
        clamp_i32(a + b + c + d)
    }

    /// All-pass filter: new = out - [dest-disp]*vAPF, [dest] = new, result = [dest-disp] +
    /// new*vAPF.
    fn allpass_stage(&self, sound_ram: &mut Vec<u8>, out: i32, dest_offset: u16, disp: u16, vapf: i16) -> (r: i32)
        requires self.wf(), old(sound_ram)@.len() == 0x80000, -0x10000 <= out <= 0x10000,
        ensures
            final(sound_ram)@.len() == 0x80000,
            (r as int, final(sound_ram)@) == self.allpass_spec(old(sound_ram)@, out as int, dest_offset, disp, vapf),
            -0x10000 <= r <= 0x10000,
    {
        let disp_bytes = (disp as i32) * 8;
        let tap = self.mem_read(sound_ram, dest_offset, -disp_bytes) as i32;
        let new_apf_sample = clamp_i32(out - mul_coef(tap, vapf));
        self.mem_write(sound_ram, dest_offset, new_apf_sample);
        tap + mul_coef(new_apf_sample, vapf)
    }

    /// One 44.1 kHz clock (alternating left and right): filter the input, run the
    /// reflection, comb and all-pass stages for this side in the work area, filter the
    /// output, and after each left clock advance the buffer position by one sample.
    pub fn tick(&mut self, dry_input: (i16, i16), sound_ram: &mut Vec<u8>)
        requires old(self).wf(), old(sound_ram)@.len() == 0x80000,
        ensures
            final(self).wf(),
            final(sound_ram)@.len() == 0x80000,
            !old(self).enabled ==> final(sound_ram)@ == old(sound_ram)@,
            final(self).odd_tick == !old(self).odd_tick,
            final(self).current_buffer_offset == (if !old(self).odd_tick {
                ((old(self).current_buffer_offset + 2) % old(self).work_area_size_spec()) as u32
            } else { old(self).current_buffer_offset }),
            final(self).enabled == old(self).enabled,
            final(self).mbase == old(self).mbase,
            forall|o: int| #[trigger] final(self).register_spec(o) == old(self).register_spec(o),
            ({
                let (il, ir) = (old(self).input_buffer_l, old(self).input_buffer_r);
                let (ol, or) = (old(self).output_buffer_l, old(self).output_buffer_r);
                let in_l = il.samples@.update(il.pos as int, dry_input.0 as i32);
                let in_r = ir.samples@.update(ir.pos as int, dry_input.1 as i32);
                let filtered = if !old(self).odd_tick {
                    fir_sum(in_l, (il.pos + 1) % 39, 39) / 0x8000
                } else {
                    fir_sum(in_r, (ir.pos + 1) % 39, 39) / 0x8000
                };
                let st = old(self).stages_spec(old(sound_ram)@, filtered);
                let o = crate::xadpcm::clamp16(st.0) as i32;
                let out_l = ol.samples@.update(ol.pos as int, if !old(self).odd_tick { o } else { 0 });
                let out_r = or.samples@.update(or.pos as int, if !old(self).odd_tick { 0 } else { o });
                let fl = crate::xadpcm::clamp16((fir_sum(out_l, (ol.pos + 1) % 39, 39) / 0x8000) * 2) as int;
                let fr = crate::xadpcm::clamp16((fir_sum(out_r, (or.pos + 1) % 39, 39) / 0x8000) * 2) as int;
                &&& final(sound_ram)@ == st.1
                &&& final(self).input_buffer_l.samples@ == in_l && final(self).input_buffer_l.pos == (il.pos + 1) % 39
                &&& final(self).input_buffer_r.samples@ == in_r && final(self).input_buffer_r.pos == (ir.pos + 1) % 39
                &&& final(self).output_buffer_l.samples@ == out_l && final(self).output_buffer_l.pos == (ol.pos + 1) % 39
                &&& final(self).output_buffer_r.samples@ == out_r && final(self).output_buffer_r.pos == (or.pos + 1) % 39
                &&& final(self).current_output == (
                    PcmSample(crate::spu::mixer::mul15(fl, old(self).vlout as int) as i16),
                    PcmSample(crate::spu::mixer::mul15(fr, old(self).vrout as int) as i16))
            }),
    {
        self.input_buffer_l.push(dry_input.0 as i32);
        self.input_buffer_r.push(dry_input.1 as i32);
        let filtered_input = if !self.odd_tick { self.input_buffer_l.filter() } else { self.input_buffer_r.filter() };
        let (vlin, dsame_tap, msame_dest, ddiff_tap, mdiff_dest, comb_addrs, apf1_addr, apf2_addr) = if !self.odd_tick {
            (self.vlin, self.dlsame, self.mlsame, self.drdiff, self.mldiff,
                [self.mlcomb1, self.mlcomb2, self.mlcomb3, self.mlcomb4], self.mlapf1, self.mlapf2)
        } else {
            (self.vrin, self.drsame, self.mrsame, self.dldiff, self.mrdiff,
                [self.mrcomb1, self.mrcomb2, self.mrcomb3, self.mrcomb4], self.mrapf1, self.mrapf2)
        };
        assert((vlin, dsame_tap, msame_dest, ddiff_tap, mdiff_dest, comb_addrs, apf1_addr, apf2_addr) == self.side());
        let input_sample = mul_coef(filtered_input, vlin);
        let _ = self.reflection_stage(sound_ram, input_sample, msame_dest, dsame_tap);
        let _ = self.reflection_stage(sound_ram, input_sample, mdiff_dest, ddiff_tap);
        let comb_output = self.comb_sum(sound_ram, comb_addrs, [self.vcomb1, self.vcomb2, self.vcomb3, self.vcomb4]);
        let apf1_output = self.allpass_stage(sound_ram, comb_output, apf1_addr, self.dapf1, self.vapf1);
        let apf2_output = self.allpass_stage(sound_ram, apf1_output, apf2_addr, self.dapf2, self.vapf2);
        let output_sample = clamp_i32(apf2_output);
        if !self.odd_tick {
            self.output_buffer_l.push(output_sample);
            self.output_buffer_r.push(0);
        } else {
            self.output_buffer_r.push(output_sample);
            self.output_buffer_l.push(0);
        }
        let filtered_l = clamp_i32(self.output_buffer_l.filter() * 2);
        let filtered_r = clamp_i32(self.output_buffer_r.filter() * 2);
        let out_l = #[verifier::truncate] (mul_coef(filtered_l, self.vlout) as i16);
        let out_r = #[verifier::truncate] (mul_coef(filtered_r, self.vrout) as i16);
        self.current_output = (PcmSample(out_l), PcmSample(out_r));
        if !self.odd_tick {
            let size = self.work_area_size();
            self.current_buffer_offset = ((self.current_buffer_offset as usize + 2) % size) as u32;
        }
        self.odd_tick = !self.odd_tick;
    }
}

/// `x` modulo `m`, in 0..m (Euclidean).
fn euclid_mod(x: i64, m: u64) -> (r: u64)
    requires 1 <= m <= 0x8_0000, -0x10_0000 <= x <= 0x10_0000,
    ensures r == (x as int) % (m as int), r < m,
{
    if x >= 0 {
        (x as u64) % m
    } else {
        let y = (0 - x) as u64;
        let r = y % m;
        if r == 0 {
            proof {
                let q = (y as int) / (m as int);
                vstd::arithmetic::div_mod::lemma_fundamental_div_mod(y as int, m as int);
                assert((x as int) == (-q) * (m as int) + 0) by (nonlinear_arith)
                    requires y == -x, y as int == (m as int) * q + 0;
                vstd::arithmetic::div_mod::lemma_fundamental_div_mod_converse(x as int, m as int, -q, 0);
            }
            0
        } else {
            proof {
                let q = (y as int) / (m as int);
                vstd::arithmetic::div_mod::lemma_fundamental_div_mod(y as int, m as int);
                assert((x as int) == (-q - 1) * (m as int) + (m - r)) by (nonlinear_arith)
                    requires y == -x, y as int == (m as int) * q + r;
                vstd::arithmetic::div_mod::lemma_fundamental_div_mod_converse(x as int, m as int, -q - 1, (m - r) as int);
            }
            m - r
        }
    }
}

} // verus!
