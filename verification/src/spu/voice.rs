//! One of the 24 SPU voices: its registers, ADPCM block decoding with loop flags, pitch
//! stepping, and its ADSR and sweep envelopes.
use vstd::prelude::*;
use crate::spu::PcmSample;
use crate::spu::adpcm::{AdpcmDecoder, decode_block_spec};
use crate::xadpcm::AdpcmHistory;
use crate::spu::envelope::{AdsrEnvelope, AdsrPhase, SweepEnvelope};

verus! {

/// Size of sound RAM in bytes.
pub const SOUND_RAM_SIZE: usize = 0x80000;

/// The 16-byte block at `addr` of sound RAM (wrapping at its end).
pub open spec fn block_at(ram: Seq<u8>, addr: int) -> Seq<u8> {
    Seq::new(16, |k: int| ram[(addr + k) % 0x80000])
}

/// The pitch step of one clock: the sample rate, modulated by the previous voice's
/// amplitude when pitch modulation is on, capped at 4000h.
pub open spec fn pitch_step(sample_rate: u16, pmon_enabled: bool, prev_amplitude: i16) -> u16 {
    let step: u32 = if pmon_enabled {
        let factor = prev_amplitude + 0x8000;
        ((((sample_rate as i16) * factor) as i32 >> 15u32) as u32) & 0xFFFF
    } else {
        sample_rate as u32
    };
    (if step > 0x4000 { 0x4000 } else { step }) as u16
}

/// The playback state of a voice: address, repeat address, decoded block, decoder history,
/// position in the block, the last four samples, ENDX and the ADSR envelope.
pub open spec fn playback(v: Voice) -> (u32, u32, Seq<PcmSample>, AdpcmHistory, int, Seq<PcmSample>, bool, AdsrEnvelope) {
    (v.current_address, v.repeat_address, v.decode_buffer@, v.decoder.history(), v.current_buffer_idx as int,
        v.recent_samples@, v.endx, v.envelope)
}

/// One sample consumed: the position advances; past the 28th sample the next block is decoded
/// (bit 2 of its flags sets the repeat address; bit 0 sets ENDX and jumps to the repeat
/// address, releasing the envelope at level 0 unless bit 1 is set); the sample at the new
/// position joins the last four.
pub open spec fn sample_step(p: (u32, u32, Seq<PcmSample>, AdpcmHistory, int, Seq<PcmSample>, bool, AdsrEnvelope), ram: Seq<u8>)
    -> (u32, u32, Seq<PcmSample>, AdpcmHistory, int, Seq<PcmSample>, bool, AdsrEnvelope)
{
    let (addr, rep, buf, hist, idx, recent, endx, env) = p;
    if idx + 1 == 28 {
        let block = block_at(ram, (addr % 0x80000) as int);
        let d = decode_block_spec(block, hist, 28);
        let rep2 = if block[1] & 0x04 != 0 { addr } else { rep };
        let buf2 = Seq::new(28, |j: int| PcmSample(d.0[j]));
        let recent2 = recent.drop_first().push(buf2[0]);
        if block[1] & 0x01 != 0 {
            let env2 = if block[1] & 0x02 == 0 { AdsrEnvelope { phase: AdsrPhase::Release, level: 0, ..env } } else { env };
            (rep2, rep2, buf2, d.1, 0, recent2, true, env2)
        } else {
            (addr.wrapping_add(16), rep2, buf2, d.1, 0, recent2, endx, env)
        }
    } else {
        (addr, rep, buf, hist, idx + 1, recent.drop_first().push(buf[idx + 1]), endx, env)
    }
}

/// `n` samples consumed.
pub open spec fn sample_steps(p: (u32, u32, Seq<PcmSample>, AdpcmHistory, int, Seq<PcmSample>, bool, AdsrEnvelope), ram: Seq<u8>, n: nat)
    -> (u32, u32, Seq<PcmSample>, AdpcmHistory, int, Seq<PcmSample>, bool, AdsrEnvelope)
    decreases n,
{
    if n == 0 { p } else { sample_step(sample_steps(p, ram, (n - 1) as nat), ram) }
}

#[derive(Debug, Clone, Copy)]
pub struct Voice {
    pub sample_rate: u16,
    /// Start and repeat addresses in bytes.
    pub start_address: u32,
    pub repeat_address: u32,
    pub current_address: u32,
    pub pitch_counter: u16,
    pub decode_buffer: [PcmSample; 28],
    pub current_buffer_idx: usize,
    /// The last four samples, oldest first.
    pub recent_samples: [PcmSample; 4],
    pub current_amplitude: i16,
    pub decoder: AdpcmDecoder,
    pub envelope: AdsrEnvelope,
    pub sweep_left: SweepEnvelope,
    pub sweep_right: SweepEnvelope,
    pub keyed_on: bool,
    /// Set when a block with the loop-end flag is reached; cleared by key on.
    pub endx: bool,
}

impl Voice {
    pub open spec fn wf(&self) -> bool {
        &&& self.current_buffer_idx < 28
        &&& self.envelope.wf()
        &&& self.sweep_left.wf()
        &&& self.sweep_right.wf()
    }

    pub fn new() -> (r: Self)
        ensures r.wf(), r.sample_rate == 0, r.start_address == 0, r.repeat_address == 0,
            r.current_address == 0, !r.keyed_on, !r.endx, r.current_amplitude == 0,
    {
        Self {
            sample_rate: 0,
            start_address: 0,
            repeat_address: 0,
            current_address: 0,
            pitch_counter: 0,
            decode_buffer: [PcmSample(0); 28],
            current_buffer_idx: 0,
            recent_samples: [PcmSample(0); 4],
            current_amplitude: 0,
            decoder: AdpcmDecoder::new(),
            envelope: AdsrEnvelope::new(),
            sweep_left: SweepEnvelope::new(),
            sweep_right: SweepEnvelope::new(),
            keyed_on: false,
            endx: false,
        }
    }

    pub fn read_sample_rate(&self) -> (r: u16)
        ensures r == self.sample_rate,
    {
        self.sample_rate
    }

    /// The start address in 8-byte units.
    pub fn read_start_address(&self) -> (r: u16)
        ensures r == (self.start_address >> 3u32) as u16,
    {
        #[verifier::truncate] ((self.start_address >> 3u32) as u16)
    }

    /// The repeat address in 8-byte units.
    pub fn read_repeat_address(&self) -> (r: u16)
        ensures r == (self.repeat_address >> 3u32) as u16,
    {
        #[verifier::truncate] ((self.repeat_address >> 3u32) as u16)
    }

    pub fn read_current_level(&self) -> (r: i16)
        ensures r == self.envelope.level,
    {
        self.envelope.read_level()
    }

    pub fn read_adsr_config_low(&self) -> (r: u16)
        ensures r == self.envelope.config_low_spec(),
    {
        self.envelope.read_config_low()
    }

    pub fn read_adsr_config_high(&self) -> (r: u16)
        ensures r == self.envelope.config_high_spec(),
    {
        self.envelope.read_config_high()
    }

    pub fn endx(&self) -> (r: bool)
        ensures r == self.endx,
    {
        self.endx
    }

    pub fn keyed_on(&self) -> (r: bool)
        ensures r == self.keyed_on,
    {
        self.keyed_on
    }

    pub fn write_sample_rate(&mut self, value: u16)
        requires old(self).wf(),
        ensures final(self).wf(), *final(self) == (Voice { sample_rate: value, ..*old(self) }),
    {
        self.sample_rate = value;
    }

    /// Start address, in 8-byte units.
    pub fn write_start_address(&mut self, value: u16)
        requires old(self).wf(),
        ensures final(self).wf(), *final(self) == (Voice { start_address: ((value as u32) * 8) as u32, ..*old(self) }),
    {
        assert((value as u32) << 3u32 == (value as u32) * 8) by { crate::bits::lemma_shifts_u32(); }
        self.start_address = (value as u32) << 3u32;
    }

    /// Repeat address, in 8-byte units.
    pub fn write_repeat_address(&mut self, value: u16)
        requires old(self).wf(),
        ensures final(self).wf(), *final(self) == (Voice { repeat_address: ((value as u32) * 8) as u32, ..*old(self) }),
    {
        assert((value as u32) << 3u32 == (value as u32) * 8) by { crate::bits::lemma_shifts_u32(); }
        self.repeat_address = (value as u32) << 3u32;
    }

    pub fn write_adsr_config_low(&mut self, config: u16)
        requires old(self).wf(),
        ensures final(self).wf(), final(self).envelope == (AdsrEnvelope {
                attack_mode_exponential: config & 0x8000 != 0,
                attack_shift: ((config >> 10u16) & 0x1F) as u8,
                attack_step: ((config >> 8u16) & 0x03) as u8,
                decay_shift: ((config >> 4u16) & 0x0F) as u8,
                sustain_level: (((config & 0x0F) + 1) * 0x800) as u16,
                ..old(self).envelope
            }),
            *final(self) == (Voice { envelope: final(self).envelope, ..*old(self) }),
    {
        self.envelope.write_config_low(config);
    }

    pub fn write_adsr_config_high(&mut self, config: u16)
        requires old(self).wf(),
        ensures final(self).wf(), final(self).envelope == (AdsrEnvelope {
                sustain_mode_exponential: config & 0x8000 != 0,
                sustain_direction_decrease: config & 0x4000 != 0,
                sustain_shift: ((config >> 8u16) & 0x1F) as u8,
                sustain_step: ((config >> 6u16) & 0x03) as u8,
                release_mode_exponential: config & 0x0020 != 0,
                release_shift: (config & 0x1F) as u8,
                ..old(self).envelope
            }),
            *final(self) == (Voice { envelope: final(self).envelope, ..*old(self) }),
    {
        self.envelope.write_config_high(config);
    }

    pub fn read_sweep_config_left(&self) -> (r: u16)
        ensures r == self.sweep_left.config_spec(),
    {
        self.sweep_left.read_config()
    }

    pub fn read_sweep_config_right(&self) -> (r: u16)
        ensures r == self.sweep_right.config_spec(),
    {
        self.sweep_right.read_config()
    }

    pub fn write_sweep_config_left(&mut self, config: u16)
        requires old(self).wf(),
        ensures
            final(self).wf(),
            final(self).sweep_left.enabled == (config & 0x8000 != 0),
            config & 0x8000 == 0 ==> final(self).sweep_left.level == (((config & 0x7FFF) << 1u16) as i16),
            *final(self) == (Voice { sweep_left: final(self).sweep_left, ..*old(self) }),
    {
        self.sweep_left.write_config(config);
    }

    pub fn write_sweep_config_right(&mut self, config: u16)
        requires old(self).wf(),
        ensures
            final(self).wf(),
            final(self).sweep_right.enabled == (config & 0x8000 != 0),
            config & 0x8000 == 0 ==> final(self).sweep_right.level == (((config & 0x7FFF) << 1u16) as i16),
            *final(self) == (Voice { sweep_right: final(self).sweep_right, ..*old(self) }),
    {
        self.sweep_right.write_config(config);
    }

    /// Key on: restart the envelope (attack), the decoder history and playback at the start
    /// address, clear ENDX, and decode the first block.
    pub fn key_on(&mut self, sound_ram: &[u8])
        requires old(self).wf(), sound_ram@.len() == SOUND_RAM_SIZE,
        ensures
            final(self).wf(),
            final(self).keyed_on,
            final(self).pitch_counter == 0,
            final(self).current_buffer_idx == 0,
            final(self).recent_samples@ == Seq::new(4, |i: int| PcmSample(0)),
            final(self).sample_rate == old(self).sample_rate,
            final(self).start_address == old(self).start_address,
            ({
                let block = block_at(sound_ram@, old(self).start_address as int % 0x80000);
                let d = decode_block_spec(block, crate::xadpcm::AdpcmHistory { prev1: 0, prev2: 0 }, 28);
                &&& forall|j: int| 0 <= j < 28 ==> #[trigger] final(self).decode_buffer@[j] == PcmSample(d.0[j])
                &&& final(self).endx == (block[1] & 0x01 != 0)
                &&& final(self).envelope.phase == (if block[1] & 0x01 != 0 && block[1] & 0x02 == 0 { AdsrPhase::Release } else { AdsrPhase::Attack })
                &&& final(self).envelope.level == 0
            }),
    {
        self.envelope.key_on();
        self.decoder = AdpcmDecoder::new();
        self.current_address = self.start_address;
        self.pitch_counter = 0;
        self.recent_samples = [PcmSample(0); 4];
        assert(self.recent_samples@ =~= Seq::new(4, |i: int| PcmSample(0)));
        self.current_buffer_idx = 0;
        self.keyed_on = true;
        self.endx = false;
        let _ = self.decode_next_block(sound_ram);
    }

    /// Key off: release.
    pub fn key_off(&mut self)
        requires old(self).wf(),
        ensures
            final(self).wf(),
            *final(self) == (Voice { keyed_on: false, envelope: AdsrEnvelope { phase: AdsrPhase::Release, ..old(self).envelope }, ..*old(self) }),
    {
        self.keyed_on = false;
        self.envelope.key_off();
    }

    /// Decode the block at the current address and follow its loop flags: loop start (bit
    /// 2) sets the repeat address; loop end (bit 0) sets ENDX and jumps to the repeat
    /// address, ending the sound unless loop repeat (bit 1) is set. Returns the block's
    /// address.
    fn decode_next_block(&mut self, sound_ram: &[u8]) -> (r: Option<u32>)
        requires old(self).wf(), sound_ram@.len() == SOUND_RAM_SIZE,
        ensures
            final(self).wf(),
            ({
                let addr = old(self).current_address % 0x80000;
                let block = block_at(sound_ram@, addr as int);
                let d = decode_block_spec(block, old(self).decoder.history(), 28);
                let repeat = if block[1] & 0x04 != 0 { old(self).current_address } else { old(self).repeat_address };
                &&& r == Some(addr)
                &&& forall|j: int| 0 <= j < 28 ==> #[trigger] final(self).decode_buffer@[j] == PcmSample(d.0[j])
                &&& final(self).decoder.history() == d.1
                &&& final(self).repeat_address == repeat
                &&& block[1] & 0x01 != 0 ==> final(self).endx && final(self).current_address == repeat
                    && final(self).envelope == (if block[1] & 0x02 == 0 {
                        AdsrEnvelope { phase: AdsrPhase::Release, level: 0, ..old(self).envelope }
                    } else { old(self).envelope })
                &&& block[1] & 0x01 == 0 ==> final(self).endx == old(self).endx
                    && final(self).current_address == old(self).current_address.wrapping_add(16)
                    && final(self).envelope == old(self).envelope
            }),
            final(self).sample_rate == old(self).sample_rate,
            final(self).start_address == old(self).start_address,
            final(self).pitch_counter == old(self).pitch_counter,
            final(self).current_buffer_idx == old(self).current_buffer_idx,
            final(self).recent_samples == old(self).recent_samples,
            final(self).current_amplitude == old(self).current_amplitude,
            final(self).sweep_left == old(self).sweep_left,
            final(self).sweep_right == old(self).sweep_right,
            final(self).keyed_on == old(self).keyed_on,
    {
        let addr = (self.current_address % 0x80000) as usize;
        let mut block: [u8; 16] = [0; 16];
        let mut k: usize = 0;
        while k < 16
            invariant
                k <= 16, addr < 0x80000, sound_ram@.len() == SOUND_RAM_SIZE,
                forall|m: int| 0 <= m < k ==> #[trigger] block@[m] == block_at(sound_ram@, addr as int)[m],
            decreases 16 - k,
        {
            block[k] = sound_ram[(addr + k) % 0x80000];
            k = k + 1;
        }
        assert(block@ =~= block_at(sound_ram@, addr as int));
        self.decode_buffer = self.decoder.decode(block);
        let flags = block[1];
        if flags & 0x04 != 0 {
            self.repeat_address = self.current_address;
        }
        if flags & 0x01 != 0 {
            self.endx = true;
            self.current_address = self.repeat_address;
            if flags & 0x02 == 0 {
                self.envelope.force_end();
            }
        } else {
            self.current_address = self.current_address.wrapping_add(16);
        }
        Some(addr as u32)
    }

    /// Move the next decoded sample into the four-sample history.
    fn advance_sample(&mut self)
        requires old(self).wf(),
        ensures
            final(self).wf(),
            final(self).recent_samples@ == old(self).recent_samples@.drop_first().push(old(self).decode_buffer@[old(self).current_buffer_idx as int]),
            *final(self) == (Voice { recent_samples: final(self).recent_samples, ..*old(self) }),
    {
        let new_sample = self.decode_buffer[self.current_buffer_idx];
        let r = self.recent_samples;
        self.recent_samples = [r[1], r[2], r[3], new_sample];
        assert(self.recent_samples@ =~= old(self).recent_samples@.drop_first().push(new_sample));
    }

    /// One 44.1 kHz clock of the voice: advance the pitch counter by the pitch step and
    /// consume one sample for every 1000h it passes (decoding a new block after every 28);
    /// returns the noise level or the newest sample, and the address of a block decoded.
    pub fn tick(&mut self, sound_ram: &[u8], pmon_enabled: bool, prev_amplitude: i16, noise_enabled: bool, noise_output: i16) -> (r: (PcmSample, Option<u32>))
        requires old(self).wf(), sound_ram@.len() == SOUND_RAM_SIZE,
        ensures
            final(self).wf(),
            ({
                let pc = old(self).pitch_counter.wrapping_add(pitch_step(old(self).sample_rate, pmon_enabled, prev_amplitude));
                &&& final(self).pitch_counter == pc % 0x1000
                &&& final(self).current_buffer_idx == (old(self).current_buffer_idx + pc / 0x1000) % 28
            }),
            noise_enabled ==> r.0 == PcmSample(noise_output),
            !noise_enabled ==> r.0 == final(self).recent_samples@[3],
            r.1 matches Some(a) ==> a < 0x80000,
            final(self).sample_rate == old(self).sample_rate,
            final(self).start_address == old(self).start_address,
            final(self).sweep_left == old(self).sweep_left,
            final(self).sweep_right == old(self).sweep_right,
            final(self).keyed_on == old(self).keyed_on,
            final(self).current_amplitude == old(self).current_amplitude,
            playback(*final(self)) == sample_steps(playback(*old(self)), sound_ram@,
                (old(self).pitch_counter.wrapping_add(pitch_step(old(self).sample_rate, pmon_enabled, prev_amplitude)) / 0x1000) as nat),
    {
        let mut step: u32 = self.sample_rate as u32;
        if pmon_enabled {
            let factor = (prev_amplitude as i32 + 0x8000) as u32;
            let step_signed = self.sample_rate as i16 as i32;
            assert(-0x8000 * 0xFFFF <= step_signed * (factor as i32) <= 0x7FFF * 0xFFFF) by (nonlinear_arith)
                requires -0x8000 <= step_signed <= 0x7FFF, 0 <= factor <= 0xFFFF;
            let modulated = (step_signed * factor as i32) >> 15u32;
            step = (#[verifier::truncate] (modulated as u32)) & 0xFFFF;
        }
        let step16: u16 = if step > 0x4000 { 0x4000 } else { step as u16 };
        self.pitch_counter = self.pitch_counter.wrapping_add(step16);
        let ghost pc = self.pitch_counter;
        let ghost idx0 = self.current_buffer_idx;
        let mut fetched_addr: Option<u32> = None;
        while self.pitch_counter >= 0x1000
            invariant
                self.wf(),
                sound_ram@.len() == SOUND_RAM_SIZE,
                self.pitch_counter % 0x1000 == pc % 0x1000,
                self.current_buffer_idx == (idx0 + (pc - self.pitch_counter) / 0x1000) % 28,
                (pc - self.pitch_counter) % 0x1000 == 0,
                self.pitch_counter <= pc,
                fetched_addr matches Some(a) ==> a < 0x80000,
                self.sample_rate == old(self).sample_rate,
                self.start_address == old(self).start_address,
                self.sweep_left == old(self).sweep_left,
                self.sweep_right == old(self).sweep_right,
                self.keyed_on == old(self).keyed_on,
                self.current_amplitude == old(self).current_amplitude,
                playback(*self) == sample_steps(playback(*old(self)), sound_ram@, ((pc - self.pitch_counter) / 0x1000) as nat),
            decreases self.pitch_counter,
        {
            let ghost before = playback(*self);
            let ghost k = ((pc - self.pitch_counter) / 0x1000) as nat;
            self.pitch_counter = self.pitch_counter - 0x1000;
            self.current_buffer_idx = self.current_buffer_idx + 1;
            if self.current_buffer_idx == 28 {
                self.current_buffer_idx = 0;
                fetched_addr = self.decode_next_block(sound_ram);
                proof {
                    let d = decode_block_spec(block_at(sound_ram@, (before.0 % 0x80000) as int), before.3, 28);
                    assert(self.decode_buffer@ =~= Seq::new(28, |j: int| PcmSample(d.0[j])));
                }
            }
            self.advance_sample();
            proof {
                assert(((pc - self.pitch_counter) / 0x1000) as nat == k + 1);
                assert(playback(*self) =~~= sample_step(before, sound_ram@));
            }
        }
        let raw_sample = if !noise_enabled { self.recent_samples[3] } else { PcmSample(noise_output) };
        (raw_sample, fetched_addr)
    }

    /// Step the ADSR envelope one clock; returns its level.
    pub fn current_envelope_volume(&mut self) -> (r: i16)
        requires old(self).wf(),
        ensures
            final(self).wf(),
            final(self).envelope == old(self).envelope.tick_spec(),
            r == final(self).envelope.level,
            *final(self) == (Voice { envelope: final(self).envelope, ..*old(self) }),
    {
        self.envelope.tick()
    }

    /// Step the left sweep envelope one clock; returns its level.
    pub fn current_sweep_volume_left(&mut self) -> (r: i16)
        requires old(self).wf(),
        ensures
            final(self).wf(),
            final(self).sweep_left == old(self).sweep_left.tick_spec(),
            r == final(self).sweep_left.level,
            *final(self) == (Voice { sweep_left: final(self).sweep_left, ..*old(self) }),
    {
        self.sweep_left.tick()
    }

    /// Step the right sweep envelope one clock; returns its level.
    pub fn current_sweep_volume_right(&mut self) -> (r: i16)
        requires old(self).wf(),
        ensures
            final(self).wf(),
            final(self).sweep_right == old(self).sweep_right.tick_spec(),
            r == final(self).sweep_right.level,
            *final(self) == (Voice { sweep_right: final(self).sweep_right, ..*old(self) }),
    {
        self.sweep_right.tick()
    }

    /// Record the voice's output amplitude (saturated), used for pitch modulation of the
    /// next voice.
    pub fn set_current_amplitude(&mut self, amplitude: i32)
        requires old(self).wf(),
        ensures final(self).wf(), *final(self) == (Voice { current_amplitude: crate::xadpcm::clamp16(amplitude as int), ..*old(self) }),
    {
        self.current_amplitude = if amplitude < -0x8000 { -0x8000 } else if amplitude > 0x7FFF { 0x7FFF } else { amplitude as i16 };
    }

    pub fn current_amplitude(&self) -> (r: i16)
        ensures r == self.current_amplitude,
    {
        self.current_amplitude
    }
}

} // verus!
