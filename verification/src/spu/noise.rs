//! The SPU noise generator: a 16-bit shift register clocked by a timer.
use vstd::prelude::*;

verus! {

/// The timer's reload value for a noise shift: 20000h halved `shift` times.
pub open spec fn reload_spec(shift: u8) -> int
    decreases shift,
{
    if shift == 0 { 0x20000 } else { reload_spec((shift - 1) as u8) / 2 }
}

proof fn lemma_reload_pow2(s: u8)
    requires s <= 17,
    ensures reload_spec(s) == crate::xadpcm::pow2_spec(17 - s as int), reload_spec(s) >= 1,
    decreases s,
{
    if s == 0 {
        assert(crate::xadpcm::pow2_spec(17) == 0x20000) by {
            reveal_with_fuel(crate::xadpcm::pow2_spec, 18);
        }
    } else {
        lemma_reload_pow2((s - 1) as u8);
        assert(crate::xadpcm::pow2_spec(18 - s as int) == 2 * crate::xadpcm::pow2_spec(17 - s as int));
        lemma_pow2_pos(17 - s as int);
    }
}

proof fn lemma_pow2_pos(n: int)
    ensures crate::xadpcm::pow2_spec(n) >= 1,
    decreases n,
{
    if n > 0 {
        lemma_pow2_pos(n - 1);
    }
}

/// The timer after reloading it until it is no longer negative.
pub open spec fn reloaded(timer: int, inc: int) -> int
    decreases (if timer < 0 { -timer } else { 0 }),
{
    if timer >= 0 || inc <= 0 { timer } else { reloaded(timer + inc, inc) }
}

/// The next noise level: shifted left with the parity of bits 15, 12, 11, 10 (inverted)
/// shifted in.
pub open spec fn noise_next(v: i16) -> i16 {
    let u = v as u16;
    let parity = ((u >> 15u16) & 1) ^ ((u >> 12u16) & 1) ^ ((u >> 11u16) & 1) ^ ((u >> 10u16) & 1) ^ 1;
    (((v as u16) << 1u16) | parity) as i16
}

pub struct NoiseGenerator {
    pub output: i16,
    pub step: u8,
    pub shift: u8,
    pub timer: i32,
}

impl NoiseGenerator {
    pub open spec fn wf(&self) -> bool {
        &&& self.shift <= 17
        &&& self.step <= 3
        &&& 0 <= self.timer <= 0x20000
    }

    pub fn new() -> (r: Self)
        ensures r.wf(), r.output == 0, r.step == 0, r.shift == 0, r.timer == 0,
    {
        Self { output: 0, step: 0, shift: 0, timer: 0 }
    }

    /// One 44.1 kHz clock: the timer counts down by step + 4; when it goes negative the
    /// level shifts and the timer is reloaded by 20000h >> shift until non-negative.
    pub fn tick(&mut self)
        requires old(self).wf(),
        ensures
            final(self).wf(),
            final(self).step == old(self).step,
            final(self).shift == old(self).shift,
            ({
                let t = old(self).timer - (old(self).step + 4);
                &&& t >= 0 ==> final(self).timer == t && final(self).output == old(self).output
                &&& t < 0 ==> final(self).timer == reloaded(t, reload_spec(old(self).shift))
                    && final(self).output == noise_next(old(self).output)
            }),
    {
        self.timer = self.timer - (self.step as i32 + 4);
        if self.timer >= 0 {
            return;
        }
        let u = #[verifier::truncate] (self.output as u16);
        let parity = ((u >> 15u16) & 1) ^ ((u >> 12u16) & 1) ^ ((u >> 11u16) & 1) ^ ((u >> 10u16) & 1) ^ 1;
        self.output = ((u << 1u16) | parity) as i16;
        let inc = reload_value(self.shift);
        let ghost t0 = self.timer as int;
        let ghost out1 = self.output;
        while self.timer < 0
            invariant
                self.shift <= 17, self.step <= 3,
                self.shift == old(self).shift, self.step == old(self).step, self.output == out1,
                1 <= inc <= 0x20000,
                inc == reload_spec(self.shift),
                -8 <= self.timer <= 0x20000,
                reloaded(self.timer as int, inc as int) == reloaded(t0, inc as int),
            decreases (if self.timer < 0 { -self.timer } else { 0 }),
        {
            self.timer = self.timer + inc;
        }
    }

    /// Set the shift; the timer is capped at the new reload value.
    pub fn write_shift(&mut self, shift: u8)
        requires old(self).wf(), shift <= 17,
        ensures
            final(self).wf(),
            final(self).shift == shift,
            final(self).timer == (if old(self).timer < reload_spec(shift) { old(self).timer as int } else { reload_spec(shift) }),
            final(self).output == old(self).output,
            final(self).step == old(self).step,
    {
        self.shift = shift;
        let r = reload_value(shift);
        if r < self.timer {
            self.timer = r;
        }
    }

    pub fn output(&self) -> (r: i16)
        ensures r == self.output,
    {
        self.output
    }
}

/// 20000h >> shift.
fn reload_value(shift: u8) -> (r: i32)
    requires shift <= 17,
    ensures r == reload_spec(shift), 1 <= r <= 0x20000,
{
    let mut r: i32 = 0x20000;
    let mut k: u8 = 0;
    while k < shift
        invariant
            k <= shift <= 17,
            r == reload_spec(k),
            1 <= r <= 0x20000,
        decreases shift - k,
    {
        proof { lemma_reload_pow2((k + 1) as u8); }
        r = r / 2;
        k = k + 1;
    }
    r
}

} // verus!
