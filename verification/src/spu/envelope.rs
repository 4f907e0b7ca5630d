//! Volume envelopes of the SPU: the sweep envelope of a voice's left/right volume and the
//! ADSR envelope, both stepping a 16-bit level by a shift/step rate at 44.1 kHz.
use vstd::prelude::*;
use crate::xadpcm::{pow2_spec, shift_left_small, lemma_pow2_values};
use crate::spu::mixer::mul15;

verus! {

/// The unscaled step: +7..+4 for steps 0..3, or -8..-5 when negated.
pub open spec fn base_step(negate: bool, step: u8) -> int {
    if negate { step - 8 } else { 7 - step }
}

/// The shift in effect: exponential increase above 6000h is four times slower.
pub open spec fn effective_shift(decreasing: bool, exponential: bool, level: i16, shift: u8) -> int {
    if !decreasing && exponential && level > 0x6000 { shift + 2 } else { shift as int }
}

/// The level change of one step: the base step scaled up by 2^(11 - shift) (for shifts
/// below 11) and, when exponentially decreasing, scaled by the level / 8000h.
pub open spec fn step_amount(decreasing: bool, exponential: bool, negate: bool, level: i16, shift: u8, step: u8) -> int {
    let eff = effective_shift(decreasing, exponential, level, shift);
    let s = base_step(negate, step) * pow2_spec(if eff < 11 { 11 - eff } else { 0 });
    if decreasing && exponential { mul15(s, level as int) } else { s }
}

/// 8000h halved `n` times.
pub open spec fn halved(n: int) -> int
    decreases n,
{
    if n <= 0 { 0x8000 } else { halved(n - 1) / 2 }
}

/// How far the step counter advances per clock: 8000h >> (shift - 11) (for shifts above
/// 11), and at least 1 unless step and shift are both at their maximum.
pub open spec fn counter_increment(decreasing: bool, exponential: bool, level: i16, shift: u8, step: u8) -> u32 {
    let eff = effective_shift(decreasing, exponential, level, shift);
    let cs = if eff > 11 { eff - 11 } else { 0 };
    let inc = if cs < 16 { halved(cs) } else { 0 };
    (if inc == 0 && (step != 3 || shift != 31) { 1 } else { inc }) as u32
}

proof fn lemma_halved_range(n: int)
    requires 0 <= n < 16,
    ensures 1 <= halved(n) <= 0x8000,
{
    reveal_with_fuel(halved, 17);
    assert(n == 0 || n == 1 || n == 2 || n == 3 || n == 4 || n == 5 || n == 6 || n == 7 || n == 8
        || n == 9 || n == 10 || n == 11 || n == 12 || n == 13 || n == 14 || n == 15);
}

/// The step amount and counter increment for the current level and parameters.
fn step_and_increment(level: i16, decreasing: bool, exponential: bool, negate: bool, shift: u8, step: u8) -> (r: (i32, u32))
    requires shift <= 31, step <= 3,
    ensures
        r.0 == step_amount(decreasing, exponential, negate, level, shift, step),
        r.1 == counter_increment(decreasing, exponential, level, shift, step),
        -0x8000 <= r.0 <= 0x8000,
        !negate && !(decreasing && exponential) ==> r.0 >= 0,
{
    let base: i32 = if negate { step as i32 - 8 } else { 7 - step as i32 };
    let eff: u8 = if !decreasing && exponential && level > 0x6000 { shift + 2 } else { shift };
    let up: i32 = if eff < 11 { (11 - eff) as i32 } else { 0 };
    proof {
        lemma_pow2_values(up as int);
        reveal_with_fuel(pow2_spec, 12);
        assert(up == 0 || up == 1 || up == 2 || up == 3 || up == 4 || up == 5 || up == 6 || up == 7 || up == 8
            || up == 9 || up == 10 || up == 11);
    }
    let mut adsr_step = shift_left_small(base, up);
    assert(-0x4000 <= adsr_step <= 0x4000) by (nonlinear_arith)
        requires adsr_step == base * pow2_spec(up as int), -8 <= base <= 7, 1 <= pow2_spec(up as int), pow2_spec(up as int) <= 2048;
    assert(!negate ==> adsr_step >= 0) by (nonlinear_arith)
        requires adsr_step == base * pow2_spec(up as int), !negate ==> base >= 4, 1 <= pow2_spec(up as int);
    if decreasing && exponential {
        adsr_step = crate::spu::mixer::mul_shift15(adsr_step, level);
    }
    let cs: u8 = if eff > 11 { eff - 11 } else { 0 };
    let mut inc: u32 = 0;
    if cs < 16 {
        inc = 0x8000;
        let mut k: u8 = 0;
        while k < cs
            invariant k <= cs < 16, inc == halved(k as int),
            decreases cs - k,
        {
            inc = inc / 2;
            k = k + 1;
        }
        proof { lemma_halved_range(cs as int); }
    }
    if inc == 0 && (step != 3 || shift != 31) {
        inc = 1;
    }
    (adsr_step, inc)
}

/// A voice's left or right volume: fixed (bit 15 clear) or sweeping.
#[derive(Debug, Clone, Copy, PartialEq, Eq, Structural)]
pub struct SweepEnvelope {
    pub enabled: bool,
    pub mode_exponential: bool,
    pub direction_decrease: bool,
    pub phase_negative: bool,
    pub shift: u8,
    pub step: u8,
    pub level: i16,
    pub counter: u32,
}

impl SweepEnvelope {
    pub open spec fn wf(&self) -> bool {
        self.shift <= 31 && self.step <= 3
    }

    pub fn new() -> (r: Self)
        ensures r.wf(), !r.enabled, r.level == 0, r.counter == 0,
            !r.mode_exponential, !r.direction_decrease, !r.phase_negative, r.shift == 0, r.step == 0,
    {
        Self { enabled: false, mode_exponential: false, direction_decrease: false, phase_negative: false,
            shift: 0, step: 0, level: 0, counter: 0 }
    }

    pub fn read_level(&self) -> (r: i16)
        ensures r == self.level,
    {
        self.level
    }

    /// The configuration register: sweep mode (15), exponential (14), decrease (13),
    /// negative phase (12), shift (6..2), step (1..0).
    pub open spec fn config_spec(&self) -> u16 {
        ((if self.enabled { 0x8000u16 } else { 0u16 })
            | (if self.mode_exponential { 0x4000u16 } else { 0u16 })
            | (if self.direction_decrease { 0x2000u16 } else { 0u16 })
            | (if self.phase_negative { 0x1000u16 } else { 0u16 })
            | (((self.shift as u16) & 0x1F) << 2u16)
            | ((self.step as u16) & 0x03)) as u16
    }

    pub fn read_config(&self) -> (r: u16)
        ensures r == self.config_spec(),
    {
        (if self.enabled { 0x8000u16 } else { 0u16 })
            | (if self.mode_exponential { 0x4000u16 } else { 0u16 })
            | (if self.direction_decrease { 0x2000u16 } else { 0u16 })
            | (if self.phase_negative { 0x1000u16 } else { 0u16 })
            | (((self.shift as u16) & 0x1F) << 2u16)
            | ((self.step as u16) & 0x03)
    }

    /// Bit 15 clear: a fixed volume of twice bits 14..0. Set: the sweep parameters, with the
    /// step counter restarted.
    pub fn write_config(&mut self, config: u16)
        requires old(self).wf(),
        ensures
            final(self).wf(),
            final(self).enabled == (config & 0x8000 != 0),
            config & 0x8000 == 0 ==> final(self).level == (((config & 0x7FFF) << 1u16) as i16)
                && final(self).mode_exponential == old(self).mode_exponential
                && final(self).direction_decrease == old(self).direction_decrease
                && final(self).phase_negative == old(self).phase_negative
                && final(self).shift == old(self).shift && final(self).step == old(self).step
                && final(self).counter == old(self).counter,
            config & 0x8000 != 0 ==> final(self).level == old(self).level
                && final(self).mode_exponential == (config & 0x4000 != 0)
                && final(self).direction_decrease == (config & 0x2000 != 0)
                && final(self).phase_negative == (config & 0x1000 != 0)
                && final(self).shift == ((config >> 2u16) & 0x1F) as u8
                && final(self).step == (config & 0x03) as u8
                && final(self).counter == 0,
    {
        self.enabled = (config & 0x8000) != 0;
        if !self.enabled {
            self.level = ((config & 0x7FFF) << 1u16) as i16;
        } else {
            self.mode_exponential = (config & 0x4000) != 0;
            self.direction_decrease = (config & 0x2000) != 0;
            self.phase_negative = (config & 0x1000) != 0;
            assert((config >> 2u16) & 0x1F <= 31 && config & 0x03 <= 3) by { crate::bits::lemma_and_bounds(); }
            self.shift = ((config >> 2u16) & 0x1F) as u8;
            self.step = (config & 0x03) as u8;
            self.counter = 0;
        }
    }

    /// The envelope after one clock.
    pub open spec fn tick_spec(&self) -> SweepEnvelope {
        if !self.enabled {
            *self
        } else {
            let dec = self.direction_decrease;
            let amount = step_amount(dec, self.mode_exponential, dec != self.phase_negative, self.level, self.shift, self.step);
            let counter = self.counter.wrapping_add(counter_increment(dec, self.mode_exponential, self.level, self.shift, self.step));
            if counter & 0x8000 == 0 {
                SweepEnvelope { counter, ..*self }
            } else {
                let n = self.level + amount;
                let level = if !dec {
                    crate::xadpcm::clamp16(n)
                } else if self.phase_negative {
                    (if n < -0x8000 { -0x8000 } else if n > 0 { 0 } else { n }) as i16
                } else {
                    (if n < 0 { 0 } else { n }) as i16
                };
                SweepEnvelope { counter: 0, level, ..*self }
            }
        }
    }

    /// Advance one clock and return the level.
    pub fn tick(&mut self) -> (r: i16)
        requires old(self).wf(),
        ensures *final(self) == old(self).tick_spec(), r == final(self).level, final(self).wf(),
    {
        if !self.enabled {
            return self.level;
        }
        let decreasing = self.direction_decrease;
        let (adsr_step, inc) = step_and_increment(self.level, decreasing, self.mode_exponential,
            decreasing != self.phase_negative, self.shift, self.step);
        self.counter = self.counter.wrapping_add(inc);
        if (self.counter & 0x8000) == 0 {
            return self.level;
        }
        self.counter = 0;
        let new_level = self.level as i32 + adsr_step;
        self.level = if !decreasing {
            if new_level < -0x8000 { -0x8000 } else if new_level > 0x7FFF { 0x7FFF } else { new_level as i16 }
        } else if self.phase_negative {
            if new_level < -0x8000 { -0x8000 } else if new_level > 0 { 0 } else { new_level as i16 }
        } else {
            if new_level < 0 { 0 } else { #[verifier::truncate] (new_level as i16) }
        };
        self.level
    }
}

#[derive(Debug, Clone, Copy, PartialEq, Eq, Structural)]
pub enum AdsrPhase {
    Attack,
    Decay,
    Sustain,
    Release,
}

/// The ADSR envelope of a voice.
#[derive(Debug, Clone, Copy, PartialEq, Eq, Structural)]
pub struct AdsrEnvelope {
    pub attack_mode_exponential: bool,
    pub attack_shift: u8,
    pub attack_step: u8,
    pub decay_shift: u8,
    /// (N + 1) * 800h for the 4-bit sustain level N.
    pub sustain_level: u16,
    pub sustain_mode_exponential: bool,
    pub sustain_direction_decrease: bool,
    pub sustain_shift: u8,
    pub sustain_step: u8,
    pub release_mode_exponential: bool,
    pub release_shift: u8,
    pub phase: AdsrPhase,
    pub level: i16,
    pub counter: u32,
}

impl AdsrEnvelope {
    pub open spec fn wf(&self) -> bool {
        &&& self.attack_shift <= 31 && self.attack_step <= 3
        &&& self.decay_shift <= 15
        &&& self.sustain_shift <= 31 && self.sustain_step <= 3
        &&& self.release_shift <= 31
        &&& 0 <= self.level
    }

    pub fn new() -> (r: Self)
        ensures r.wf(), r.phase == AdsrPhase::Release, r.level == 0, r.counter == 0, r.sustain_level == 0,
    {
        Self {
            attack_mode_exponential: false,
            attack_shift: 0,
            attack_step: 0,
            decay_shift: 0,
            sustain_level: 0,
            sustain_mode_exponential: false,
            sustain_direction_decrease: false,
            sustain_shift: 0,
            sustain_step: 0,
            release_mode_exponential: false,
            release_shift: 0,
            phase: AdsrPhase::Release,
            level: 0,
            counter: 0,
        }
    }

    pub fn read_level(&self) -> (r: i16)
        ensures r == self.level,
    {
        self.level
    }

    pub fn phase(&self) -> (r: AdsrPhase)
        ensures r == self.phase,
    {
        self.phase
    }

    /// Lower configuration half: attack exponential (15), attack shift (14..10) and step
    /// (9..8), decay shift (7..4), sustain level (3..0).
    pub open spec fn config_low_spec(&self) -> u16 {
        ((if self.attack_mode_exponential { 0x8000u16 } else { 0u16 })
            | (((self.attack_shift as u16) & 0x1F) << 10u16)
            | (((self.attack_step as u16) & 0x03) << 8u16)
            | (((self.decay_shift as u16) & 0x0F) << 4u16)
            | ((self.sustain_level / 0x800).wrapping_sub(1) & 0x0F)) as u16
    }

    pub fn read_config_low(&self) -> (r: u16)
        ensures r == self.config_low_spec(),
    {
        (if self.attack_mode_exponential { 0x8000u16 } else { 0u16 })
            | (((self.attack_shift as u16) & 0x1F) << 10u16)
            | (((self.attack_step as u16) & 0x03) << 8u16)
            | (((self.decay_shift as u16) & 0x0F) << 4u16)
            | ((self.sustain_level / 0x800).wrapping_sub(1) & 0x0F)
    }

    /// Upper configuration half: sustain exponential (15), decrease (14), shift (12..8),
    /// step (7..6), release exponential (5), release shift (4..0).
    pub open spec fn config_high_spec(&self) -> u16 {
        ((if self.sustain_mode_exponential { 0x8000u16 } else { 0u16 })
            | (if self.sustain_direction_decrease { 0x4000u16 } else { 0u16 })
            | (((self.sustain_shift as u16) & 0x1F) << 8u16)
            | (((self.sustain_step as u16) & 0x03) << 6u16)
            | (if self.release_mode_exponential { 0x0020u16 } else { 0u16 })
            | ((self.release_shift as u16) & 0x1F)) as u16
    }

    pub fn read_config_high(&self) -> (r: u16)
        ensures r == self.config_high_spec(),
    {
        (if self.sustain_mode_exponential { 0x8000u16 } else { 0u16 })
            | (if self.sustain_direction_decrease { 0x4000u16 } else { 0u16 })
            | (((self.sustain_shift as u16) & 0x1F) << 8u16)
            | (((self.sustain_step as u16) & 0x03) << 6u16)
            | (if self.release_mode_exponential { 0x0020u16 } else { 0u16 })
            | ((self.release_shift as u16) & 0x1F)
    }

    pub fn write_config_low(&mut self, config_low: u16)
        requires old(self).wf(),
        ensures
            final(self).wf(),
            *final(self) == (AdsrEnvelope {
                attack_mode_exponential: config_low & 0x8000 != 0,
                attack_shift: ((config_low >> 10u16) & 0x1F) as u8,
                attack_step: ((config_low >> 8u16) & 0x03) as u8,
                decay_shift: ((config_low >> 4u16) & 0x0F) as u8,
                sustain_level: (((config_low & 0x0F) + 1) * 0x800) as u16,
                ..*old(self)
            }),
    {
        self.attack_mode_exponential = (config_low & 0x8000) != 0;
        assert((config_low >> 10u16) & 0x1F <= 31 && (config_low >> 8u16) & 0x03 <= 3 && (config_low >> 4u16) & 0x0F <= 15
            && config_low & 0x0F <= 15) by { crate::bits::lemma_and_bounds(); }
        self.attack_shift = ((config_low >> 10u16) & 0x1F) as u8;
        self.attack_step = ((config_low >> 8u16) & 0x03) as u8;
        self.decay_shift = ((config_low >> 4u16) & 0x0F) as u8;
        let n = (config_low & 0x0F) + 1;
        assert(n << 11u16 == n * 0x800) by { crate::bits::lemma_shifts_u16(); }
        self.sustain_level = n << 11u16;
    }

    pub fn write_config_high(&mut self, config_high: u16)
        requires old(self).wf(),
        ensures
            final(self).wf(),
            *final(self) == (AdsrEnvelope {
                sustain_mode_exponential: config_high & 0x8000 != 0,
                sustain_direction_decrease: config_high & 0x4000 != 0,
                sustain_shift: ((config_high >> 8u16) & 0x1F) as u8,
                sustain_step: ((config_high >> 6u16) & 0x03) as u8,
                release_mode_exponential: config_high & 0x0020 != 0,
                release_shift: (config_high & 0x1F) as u8,
                ..*old(self)
            }),
    {
        self.sustain_mode_exponential = (config_high & 0x8000) != 0;
        self.sustain_direction_decrease = (config_high & 0x4000) != 0;
        assert((config_high >> 8u16) & 0x1F <= 31 && (config_high >> 6u16) & 0x03 <= 3 && config_high & 0x1F <= 31) by { crate::bits::lemma_and_bounds(); }
        self.sustain_shift = ((config_high >> 8u16) & 0x1F) as u8;
        self.sustain_step = ((config_high >> 6u16) & 0x03) as u8;
        self.release_mode_exponential = (config_high & 0x0020) != 0;
        self.release_shift = (config_high & 0x1F) as u8;
    }

    /// Key on: attack from level 0.
    pub fn key_on(&mut self)
        requires old(self).wf(),
        ensures final(self).wf(), *final(self) == (AdsrEnvelope { phase: AdsrPhase::Attack, level: 0, counter: 0, ..*old(self) }),
    {
        self.phase = AdsrPhase::Attack;
        self.level = 0;
        self.counter = 0;
    }

    /// Key off: release from the current level.
    pub fn key_off(&mut self)
        requires old(self).wf(),
        ensures final(self).wf(), *final(self) == (AdsrEnvelope { phase: AdsrPhase::Release, ..*old(self) }),
    {
        self.phase = AdsrPhase::Release;
    }

    /// End the sound at once: level 0, release.
    pub fn force_end(&mut self)
        requires old(self).wf(),
        ensures final(self).wf(), *final(self) == (AdsrEnvelope { phase: AdsrPhase::Release, level: 0, ..*old(self) }),
    {
        self.level = 0;
        self.key_off();
    }

    /// The phase after the transitions at the start of a clock: attack ends at 7FFFh, decay
    /// ends at the sustain level.
    pub open spec fn phase_after(&self) -> AdsrPhase {
        let p1 = if self.phase == AdsrPhase::Attack && self.level == 0x7FFF { AdsrPhase::Decay } else { self.phase };
        if p1 == AdsrPhase::Decay && self.level <= self.sustain_level { AdsrPhase::Sustain } else { p1 }
    }

    /// (decreasing, shift, step, exponential) of a phase: attack increases, decay decreases
    /// exponentially with step -8, release decreases with step -8.
    pub open spec fn params(&self, p: AdsrPhase) -> (bool, u8, u8, bool) {
        match p {
            AdsrPhase::Attack => (false, self.attack_shift, self.attack_step, self.attack_mode_exponential),
            AdsrPhase::Decay => (true, self.decay_shift, 0, true),
            AdsrPhase::Sustain => (self.sustain_direction_decrease, self.sustain_shift, self.sustain_step, self.sustain_mode_exponential),
            AdsrPhase::Release => (true, self.release_shift, 0, self.release_mode_exponential),
        }
    }

    /// The envelope after one clock: phase transitions, then a step when the counter's bit
    /// 15 sets (clamped to 0..7FFFh when decreasing).
    pub open spec fn tick_spec(&self) -> AdsrEnvelope {
        let phase = self.phase_after();
        let (dec, shift, step, exp) = self.params(phase);
        let amount = step_amount(dec, exp, dec, self.level, shift, step);
        let counter = self.counter.wrapping_add(counter_increment(dec, exp, self.level, shift, step));
        if counter & 0x8000 == 0 {
            AdsrEnvelope { phase, counter, ..*self }
        } else {
            let n = self.level + amount;
            let level = if !dec {
                crate::xadpcm::clamp16(n)
            } else {
                (if n < 0 { 0 } else if n > 0x7FFF { 0x7FFF } else { n }) as i16
            };
            AdsrEnvelope { phase, counter: 0, level, ..*self }
        }
    }

    /// One clock keeps the level within 0..7FFFh; in release it never rises, and in attack
    /// below 7FFFh it never falls.
    pub proof fn lemma_tick_level(self)
        requires
            self.wf(),
        ensures
            0 <= self.tick_spec().level <= 0x7FFF,
            self.phase == AdsrPhase::Release ==> self.tick_spec().level <= self.level,
            self.phase == AdsrPhase::Attack && self.level < 0x7FFF ==> self.tick_spec().level >= self.level,
    {
        let phase = self.phase_after();
        let (dec, shift, step, exp) = self.params(phase);
        let eff = effective_shift(dec, exp, self.level, shift);
        let k = if eff < 11 { 11 - eff } else { 0 };
        assert(0 <= k <= 11);
        crate::xadpcm::lemma_pow2_values(k);
        let p = pow2_spec(k);
        let s = base_step(dec, step) * p;
        if !dec {
            assert(base_step(dec, step) >= 4);
            assert(s >= 0) by (nonlinear_arith) requires s == base_step(dec, step) * p, base_step(dec, step) >= 4, p >= 1;
        } else {
            assert(s <= 0) by (nonlinear_arith) requires s == base_step(dec, step) * p, base_step(dec, step) <= 0, p >= 1;
            if exp {
                let l = self.level as int;
                assert(mul15(s, l) <= 0) by (nonlinear_arith) requires s <= 0, l >= 0;
            }
        }
    }

    fn current_params(&self) -> (r: (bool, u8, u8, bool))
        ensures r == self.params(self.phase),
    {
        match self.phase {
            AdsrPhase::Attack => (false, self.attack_shift, self.attack_step, self.attack_mode_exponential),
            AdsrPhase::Decay => (true, self.decay_shift, 0, true),
            AdsrPhase::Sustain => (self.sustain_direction_decrease, self.sustain_shift, self.sustain_step, self.sustain_mode_exponential),
            AdsrPhase::Release => (true, self.release_shift, 0, self.release_mode_exponential),
        }
    }

    /// Advance one clock and return the level.
    pub fn tick(&mut self) -> (r: i16)
        requires old(self).wf(),
        ensures *final(self) == old(self).tick_spec(), r == final(self).level, final(self).wf(),
    {
        if self.phase == AdsrPhase::Attack && self.level == 0x7FFF {
            self.phase = AdsrPhase::Decay;
        }
        if self.phase == AdsrPhase::Decay && self.level as i32 <= self.sustain_level as i32 {
            self.phase = AdsrPhase::Sustain;
        }
        let (decreasing, shift, step, exponential) = self.current_params();
        let (adsr_step, inc) = step_and_increment(self.level, decreasing, exponential, decreasing, shift, step);
        self.counter = self.counter.wrapping_add(inc);
        if (self.counter & 0x8000) == 0 {
            return self.level;
        }
        self.counter = 0;
        let new_level_wide: i32 = self.level as i32 + adsr_step;
        self.level = if !decreasing {
            if new_level_wide < -0x8000 { -0x8000 } else if new_level_wide > 0x7FFF { 0x7FFF } else { new_level_wide as i16 }
        } else {
            if new_level_wide < 0 { 0 } else if new_level_wide > 0x7FFF { 0x7FFF } else { new_level_wide as i16 }
        };
        self.level
    }
}

} // verus!
