//! The SPU voice mixer: each voice's sample scaled by its envelope and its left/right
//! volumes, summed and saturated; plus the main volume registers.
use vstd::prelude::*;
use crate::spu::PcmSample;
use crate::xadpcm::clamp16;

verus! {

/// (a * b) >> 15 on the integers (rounding down).
pub open spec fn mul15(a: int, b: int) -> int {
    (a * b) / 0x8000
}

/// Sum over the first `n` voices of the sample scaled by envelope then by volume.
pub open spec fn mix_sum(samples: Seq<PcmSample>, env: Seq<i16>, vol: Seq<i16>, n: int) -> int
    decreases n,
{
    if n <= 0 { 0 } else { mix_sum(samples, env, vol, n - 1) + mul15(mul15(samples[n - 1].0 as int, env[n - 1] as int), vol[n - 1] as int) }
}

/// (a * b) >> 15 for 16-bit operands.
pub fn mul_shift15(a: i32, b: i16) -> (r: i32)
    requires -0x8000 <= a <= 0x8000,
    ensures r == mul15(a as int, b as int), -0x8000 <= r <= 0x8000,
{
    assert(-0x4000_0000 <= a * (b as i32) <= 0x4000_0000) by (nonlinear_arith) requires -0x8000 <= a <= 0x8000, -0x8000 <= b <= 0x7FFF;
    let p: i32 = a * (b as i32);
    assert(p >> 15u32 == p / 0x8000) by { crate::bits::lemma_shifts_i32(); }
    assert(-0x8000 <= p / 0x8000 <= 0x8000) by (nonlinear_arith) requires -0x4000_0000 <= p <= 0x4000_0000;
    p >> 15u32
}

pub struct Mixer {
    pub main_volume_left: i16,
    pub main_volume_right: i16,
}

impl Mixer {
    pub fn new() -> (r: Self)
        ensures r.main_volume_left == 0x7FFF, r.main_volume_right == 0x7FFF,
    {
        Self { main_volume_left: 0x7FFF, main_volume_right: 0x7FFF }
    }

    pub fn read_main_volume_left(&self) -> (r: i16)
        ensures r == self.main_volume_left,
    {
        self.main_volume_left
    }

    pub fn read_main_volume_right(&self) -> (r: i16)
        ensures r == self.main_volume_right,
    {
        self.main_volume_right
    }

    pub fn write_main_volume_left(&mut self, value: i16)
        ensures final(self).main_volume_left == value, final(self).main_volume_right == old(self).main_volume_right,
    {
        self.main_volume_left = value;
    }

    pub fn write_main_volume_right(&mut self, value: i16)
        ensures final(self).main_volume_right == value, final(self).main_volume_left == old(self).main_volume_left,
    {
        self.main_volume_right = value;
    }

    /// Mix the 24 voices: each sample times its envelope (>> 15), times its left and right
    /// volumes (>> 15), summed per side and saturated.
    pub fn mix(&self, voice_samples: &[PcmSample; 24], voice_envelope_volumes: &[i16; 24],
        voice_volume_left: &[i16; 24], voice_volume_right: &[i16; 24]) -> (r: (PcmSample, PcmSample))
        ensures
            r.0 == PcmSample(clamp16(mix_sum(voice_samples@, voice_envelope_volumes@, voice_volume_left@, 24))),
            r.1 == PcmSample(clamp16(mix_sum(voice_samples@, voice_envelope_volumes@, voice_volume_right@, 24))),
    {
        let mut left_sum: i32 = 0;
        let mut right_sum: i32 = 0;
        let mut i: usize = 0;
        while i < 24
            invariant
                i <= 24,
                left_sum == mix_sum(voice_samples@, voice_envelope_volumes@, voice_volume_left@, i as int),
                right_sum == mix_sum(voice_samples@, voice_envelope_volumes@, voice_volume_right@, i as int),
                -0x8000 * i <= left_sum <= 0x8000 * i,
                -0x8000 * i <= right_sum <= 0x8000 * i,
            decreases 24 - i,
        {
            let post_envelope = mul_shift15(voice_samples[i].0 as i32, voice_envelope_volumes[i]);
            left_sum = left_sum + mul_shift15(post_envelope, voice_volume_left[i]);
            right_sum = right_sum + mul_shift15(post_envelope, voice_volume_right[i]);
            i = i + 1;
        }
        (PcmSample(clamp_sample(left_sum)), PcmSample(clamp_sample(right_sum)))
    }
}

/// Saturate to 16 bits.
pub fn clamp_sample(v: i32) -> (r: i16)
    ensures r == clamp16(v as int),
{
    if v < -0x8000 { -0x8000 } else if v > 0x7FFF { 0x7FFF } else { v as i16 }
}

} // verus!
