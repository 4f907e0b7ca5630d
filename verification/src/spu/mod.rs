//! The sound processing unit (SPU): 24 ADPCM voices with envelopes, noise and pitch
//! modulation, the mixer, reverb, CD audio input, the sound RAM data port and its IRQ.
use vstd::prelude::*;
use crate::interrupt_controller::{Interrupt, InterruptController, interrupt_bit, stat_grows, lemma_stat_grows};

pub mod adpcm;
pub mod noise;
pub mod mixer;
pub mod envelope;
pub mod voice;
pub mod reverb;

use voice::{Voice, SOUND_RAM_SIZE};
use mixer::{Mixer, mul_shift15, clamp_sample, mix_sum, mul15};
use crate::xadpcm::clamp16;
use reverb::Reverb;
use noise::NoiseGenerator;

verus! {

/// One 16-bit PCM sample.
#[derive(Debug, Clone, Copy, PartialEq, Eq, Structural)]
pub struct PcmSample(pub i16);

/// Where mixed samples go (a sound device, a file); supplied by the frontend.
pub trait SpuBackend {
    fn push_sample(&mut self, left: PcmSample, right: PcmSample);

    /// How many more samples the output can take now.
    fn buffer_available(&self) -> usize;
}

/// Bits `0..n` of a mask, bit `i` set when `flags[lo + i]` is.
pub open spec fn mask_of(flags: Seq<bool>, lo: int, n: int) -> u16
    decreases n,
{
    if n <= 0 { 0 } else { (mask_of(flags, lo, n - 1) | (if flags[lo + n - 1] { (1u16 << ((n - 1) as u16)) as u16 } else { 0u16 })) as u16 }
}

fn read_mask(flags: &[bool; 24], lo: usize, n: usize) -> (r: u16)
    requires lo + n <= 24, n <= 16,
    ensures r == mask_of(flags@, lo as int, n as int),
{
    let mut m: u16 = 0;
    let mut i: usize = 0;
    while i < n
        invariant i <= n, lo + n <= 24, n <= 16, m == mask_of(flags@, lo as int, i as int),
        decreases n - i,
    {
        if flags[lo + i] {
            m = m | (1u16 << (i as u16));
        } else {
            m = m | 0;
        }
        i = i + 1;
    }
    m
}

/// Set `flags[lo + i]` from bit `i` of `value`, for `i` in `0..n`.
fn write_mask(flags: &mut [bool; 24], lo: usize, n: usize, value: u16)
    requires lo + n <= 24, n <= 16,
    ensures
        forall|i: int| 0 <= i < 24 ==> #[trigger] final(flags)@[i] == (if lo <= i < lo + n {
            value & (1u16 << ((i - lo) as u16)) != 0
        } else {
            old(flags)@[i]
        }),
{
    let mut i: usize = 0;
    while i < n
        invariant
            i <= n, lo + n <= 24, n <= 16,
            forall|k: int| 0 <= k < 24 ==> #[trigger] flags@[k] == (if lo <= k < lo + i {
                value & (1u16 << ((k - lo) as u16)) != 0
            } else {
                old(flags)@[k]
            }),
        decreases n - i,
    {
        flags[lo + i] = (value & (1u16 << (i as u16))) != 0;
        i = i + 1;
    }
}

pub struct Spu {
    pub voices: Vec<Voice>,
    pub mixer: Mixer,
    pub sound_ram: Vec<u8>,
    /// Byte address of the data port in sound RAM.
    pub data_port_address: u32,
    pub data_transfer_control: u16,
    /// IRQ address in 8-byte units.
    pub irq_address: u16,
    pub spu_control: u16,
    pub spu_status: u16,
    pub kon_low_raw: u16,
    pub kon_high_raw: u16,
    pub koff_low_raw: u16,
    pub koff_high_raw: u16,
    /// Per voice: also feed the reverb.
    pub eon: [bool; 24],
    pub reverb: Reverb,
    /// Per voice: pitch modulated by the previous voice.
    pub pmon: [bool; 24],
    /// Per voice: play noise instead of ADPCM.
    pub non: [bool; 24],
    pub noise_generator: NoiseGenerator,
    pub backend: Box<dyn SpuBackend>,
    pub cd_volume_left: i16,
    pub cd_volume_right: i16,
    pub extern_volume_left: i16,
    pub extern_volume_right: i16,
}

impl Spu {
    pub open spec fn wf(&self) -> bool {
        &&& self.voices@.len() == 24
        &&& forall|i: int| 0 <= i < 24 ==> (#[trigger] self.voices@[i]).wf()
        &&& self.sound_ram@.len() == SOUND_RAM_SIZE
        &&& self.data_port_address < 0x80000
        &&& self.data_port_address % 2 == 0
        &&& self.reverb.wf()
        &&& self.noise_generator.wf()
    }

    pub fn new(backend: Box<dyn SpuBackend>) -> (r: Self)
        ensures
            r.wf(),
            r.sound_ram@ == Seq::new(0x80000, |i: int| 0u8),
            r.data_port_address == 0, r.irq_address == 0, r.spu_control == 0, r.spu_status == 0,
            r.cd_volume_left == 0x7FFF, r.cd_volume_right == 0x7FFF,
    {
        let mut voices: Vec<Voice> = Vec::new();
        let mut i: usize = 0;
        while i < 24
            invariant i <= 24, voices@.len() == i, forall|k: int| 0 <= k < i ==> (#[trigger] voices@[k]).wf(),
            decreases 24 - i,
        {
            voices.push(Voice::new());
            i = i + 1;
        }
        let sound_ram = vec![0u8; 0x80000];
        assert(sound_ram@ =~= Seq::new(0x80000, |i: int| 0u8));
        Self {
            voices,
            mixer: Mixer::new(),
            sound_ram,
            data_port_address: 0,
            data_transfer_control: 0,
            irq_address: 0,
            spu_control: 0,
            spu_status: 0,
            kon_low_raw: 0,
            kon_high_raw: 0,
            koff_low_raw: 0,
            koff_high_raw: 0,
            eon: [false; 24],
            reverb: Reverb::new(),
            pmon: [false; 24],
            non: [false; 24],
            noise_generator: NoiseGenerator::new(),
            backend,
            cd_volume_left: 0x7FFF,
            cd_volume_right: 0x7FFF,
            extern_volume_left: 0x7FFF,
            extern_volume_right: 0x7FFF,
        }
    }

    /// IRQ9 is enabled (SPUCNT bits 15 and 6).
    pub open spec fn irq9_enabled(&self) -> bool {
        self.spu_control & 0x8000 != 0 && self.spu_control & 0x0040 != 0
    }

    /// A sound RAM access at `addr` raises the SPU interrupt (and SPUSTAT bit 6) when IRQ9 is
    /// enabled and `addr` is the IRQ address.
    fn check_spu_ram_irq(&mut self, accessed_byte_addr: u32, interrupt_controller: &mut InterruptController)
        requires old(self).wf(),
        ensures
            final(self).wf(),
            ({
                let hit = old(self).irq9_enabled() && accessed_byte_addr == old(self).irq_address as u32 * 8;
                &&& hit ==> final(self).spu_status == old(self).spu_status | 0x0040
                    && final(interrupt_controller).stat == old(interrupt_controller).stat | (1u16 << interrupt_bit(Interrupt::SPU))
                &&& !hit ==> final(self).spu_status == old(self).spu_status
                    && final(interrupt_controller).stat == old(interrupt_controller).stat
            }),
            final(interrupt_controller).mask == old(interrupt_controller).mask,
            stat_grows(old(interrupt_controller).stat, final(interrupt_controller).stat),
            final(self).sound_ram == old(self).sound_ram,
            final(self).voices == old(self).voices,
            final(self).data_port_address == old(self).data_port_address,
            final(self).spu_control == old(self).spu_control,
            final(self).irq_address == old(self).irq_address,
            final(self).reverb == old(self).reverb,
            final(self).noise_generator == old(self).noise_generator,
            final(self).eon == old(self).eon, final(self).pmon == old(self).pmon, final(self).non == old(self).non,
            final(self).mixer == old(self).mixer,
            final(self).cd_volume_left == old(self).cd_volume_left,
            final(self).cd_volume_right == old(self).cd_volume_right,
    {
        proof { lemma_stat_grows(); }
        if !(self.spu_control & 0x8000 != 0 && self.spu_control & 0x0040 != 0) {
            return;
        }
        if accessed_byte_addr != (self.irq_address as u32) * 8 {
            return;
        }
        self.spu_status = self.spu_status | 0x0040;
        interrupt_controller.raise_interrupt(Interrupt::SPU);
    }

    /// Read the halfword at the data port address and advance it by 2 (wrapping in sound RAM).
    #[verifier::spinoff_prover]
    #[verifier::rlimit(30)]
    pub fn read_data_port(&mut self, interrupt_controller: &mut InterruptController) -> (r: u16)
        requires old(self).wf(),
        ensures
            final(self).wf(),
            r == crate::bytes::le16(old(self).sound_ram@, old(self).data_port_address as int),
            final(self).data_port_address == (old(self).data_port_address + 2) % 0x80000,
            final(self).sound_ram == old(self).sound_ram,
            final(interrupt_controller).mask == old(interrupt_controller).mask,
    {
        let addr = self.data_port_address as usize;
        let value = (self.sound_ram[addr] as u16) | ((self.sound_ram[addr + 1] as u16) << 8u16);
        self.check_spu_ram_irq(addr as u32, interrupt_controller);
        let a = self.data_port_address + 2;
        assert(a & 0x7FFFF == a % 0x80000) by { crate::bits::lemma_and_mod(); }
        self.data_port_address = a & 0x7FFFF;
        value
    }

    /// Write the halfword at the data port address and advance it by 2 (wrapping).
    pub fn write_data_port(&mut self, value: u16, interrupt_controller: &mut InterruptController)
        requires old(self).wf(),
        ensures
            final(self).wf(),
            final(self).sound_ram@ == crate::bytes::put16(old(self).sound_ram@, old(self).data_port_address as int, value),
            final(self).data_port_address == (old(self).data_port_address + 2) % 0x80000,
            final(interrupt_controller).mask == old(interrupt_controller).mask,
    {
        let addr = self.data_port_address as usize;
        self.sound_ram.set(addr, (value & 0xFF) as u8);
        self.sound_ram.set(addr + 1, (value >> 8u16) as u8);
        self.check_spu_ram_irq(addr as u32, interrupt_controller);
        let a = self.data_port_address + 2;
        assert(a & 0x7FFFF == a % 0x80000) by { crate::bits::lemma_and_mod(); }
        self.data_port_address = a & 0x7FFFF;
    }

    /// SPUCNT: bit 7 enables reverb writes; clearing bit 6 acknowledges the IRQ.
    fn write_spu_control(&mut self, value: u16)
        requires old(self).wf(),
        ensures
            final(self).wf(),
            final(self).spu_control == value,
            final(self).reverb == (Reverb { enabled: value & 0x80 != 0, ..old(self).reverb }),
            final(self).spu_status == (if value & 0x40 == 0 { old(self).spu_status & !0x0040u16 } else { old(self).spu_status }),
            final(self).voices == old(self).voices,
            final(self).sound_ram == old(self).sound_ram,
            final(self).data_port_address == old(self).data_port_address,
    {
        self.spu_control = value;
        self.reverb.set_enabled(value & 0x80 != 0);
        if value & 0x40 == 0 {
            self.spu_status = self.spu_status & !0x0040;
        }
    }

    /// ENDX of voices `lo .. lo + n` as a mask.
    fn read_endx(&self, lo: usize, n: usize) -> (r: u16)
        requires self.wf(), lo + n <= 24, n <= 16,
        ensures r == mask_of(Seq::new(24, |i: int| self.voices@[i].endx), lo as int, n as int),
    {
        let ghost flags = Seq::new(24, |i: int| self.voices@[i].endx);
        let mut m: u16 = 0;
        let mut i: usize = 0;
        while i < n
            invariant i <= n, lo + n <= 24, n <= 16, self.wf(),
                flags == Seq::new(24, |i: int| self.voices@[i].endx),
                m == mask_of(flags, lo as int, i as int),
            decreases n - i,
        {
            if self.voices[lo + i].endx() {
                m = m | (1u16 << (i as u16));
            } else {
                m = m | 0;
            }
            i = i + 1;
        }
        m
    }

    /// Key on (or off) the voices `lo .. lo + n` whose bit is set in `value`.
    fn key_voices(&mut self, lo: usize, n: usize, value: u16, on: bool)
        requires old(self).wf(), lo + n <= 24, n <= 16,
        ensures
            final(self).wf(),
            forall|i: int| 0 <= i < 24 && !(lo <= i < lo + n && value & (1u16 << ((i - lo) as u16)) != 0) ==>
                #[trigger] final(self).voices@[i] == old(self).voices@[i],
            forall|i: int| 0 <= i < 24 && lo <= i < lo + n && value & (1u16 << ((i - lo) as u16)) != 0 ==>
                (#[trigger] final(self).voices@[i]).keyed_on == on,
            final(self).sound_ram == old(self).sound_ram,
            final(self).data_port_address == old(self).data_port_address,
            final(self).reverb == old(self).reverb,
            final(self).noise_generator == old(self).noise_generator,
            final(self).spu_control == old(self).spu_control,
            final(self).spu_status == old(self).spu_status,
            final(self).irq_address == old(self).irq_address,
            final(self).eon == old(self).eon, final(self).pmon == old(self).pmon, final(self).non == old(self).non,
            final(self).kon_low_raw == old(self).kon_low_raw, final(self).kon_high_raw == old(self).kon_high_raw,
            final(self).koff_low_raw == old(self).koff_low_raw, final(self).koff_high_raw == old(self).koff_high_raw,
    {
        let mut i: usize = 0;
        while i < n
            invariant
                i <= n, lo + n <= 24, n <= 16,
                self.wf(),
                forall|k: int| 0 <= k < 24 && !(lo <= k < lo + i && value & (1u16 << ((k - lo) as u16)) != 0) ==>
                    #[trigger] self.voices@[k] == old(self).voices@[k],
                forall|k: int| 0 <= k < 24 && lo <= k < lo + i && value & (1u16 << ((k - lo) as u16)) != 0 ==>
                    (#[trigger] self.voices@[k]).keyed_on == on,
                self.sound_ram == old(self).sound_ram,
                self.data_port_address == old(self).data_port_address,
                self.reverb == old(self).reverb,
                self.noise_generator == old(self).noise_generator,
                self.spu_control == old(self).spu_control,
                self.spu_status == old(self).spu_status,
                self.irq_address == old(self).irq_address,
                self.eon == old(self).eon, self.pmon == old(self).pmon, self.non == old(self).non,
                self.kon_low_raw == old(self).kon_low_raw, self.kon_high_raw == old(self).kon_high_raw,
                self.koff_low_raw == old(self).koff_low_raw, self.koff_high_raw == old(self).koff_high_raw,
            decreases n - i,
        {
            if (value & (1u16 << (i as u16))) != 0 {
                if on {
                    self.voices[lo + i].key_on(&self.sound_ram);
                } else {
                    self.voices[lo + i].key_off();
                }
            }
            i = i + 1;
        }
    }
}

/// A voice register (offset 0..0Fh within the voice): sweep configs (0, 2), sample rate
/// (4), start address (6), ADSR halves (8, A), ADSR level (C), repeat address (E).
pub open spec fn voice_register_spec(v: Voice, offset: u32) -> u16 {
    if offset == 0x0 { v.sweep_left.config_spec() }
    else if offset == 0x2 { v.sweep_right.config_spec() }
    else if offset == 0x4 { v.sample_rate }
    else if offset == 0x6 { (v.start_address >> 3u32) as u16 }
    else if offset == 0x8 { v.envelope.config_low_spec() }
    else if offset == 0xA { v.envelope.config_high_spec() }
    else if offset == 0xC { v.envelope.level as u16 }
    else if offset == 0xE { (v.repeat_address >> 3u32) as u16 }
    else { 0 }
}

/// The registers handled by the reverb unit.
pub open spec fn reverb_register(offset: u32) -> bool {
    offset == 0x184 || offset == 0x186 || offset == 0x1A2 || (0x1C0 <= offset <= 0x1FE)
}

impl Spu {
    /// What a register read returns (the data port, 1A8h, also advances).
    pub open spec fn register_spec(&self, offset: u32) -> u16 {
        let flags = Seq::new(24, |i: int| self.voices@[i].endx);
        if offset < 0x180 { voice_register_spec(self.voices@[(offset / 0x10) as int], offset % 0x10) }
        else if reverb_register(offset) { self.reverb.register_spec(offset as int) }
        else if offset == 0x180 || offset == 0x1B8 { self.mixer.main_volume_left as u16 }
        else if offset == 0x182 || offset == 0x1BA { self.mixer.main_volume_right as u16 }
        else if offset == 0x188 { self.kon_low_raw }
        else if offset == 0x18A { self.kon_high_raw }
        else if offset == 0x18C { self.koff_low_raw }
        else if offset == 0x18E { self.koff_high_raw }
        else if offset == 0x190 { mask_of(self.pmon@, 0, 16) }
        else if offset == 0x192 { mask_of(self.pmon@, 16, 8) }
        else if offset == 0x194 { mask_of(self.non@, 0, 16) }
        else if offset == 0x196 { mask_of(self.non@, 16, 8) }
        else if offset == 0x198 { mask_of(self.eon@, 0, 16) }
        else if offset == 0x19A { mask_of(self.eon@, 16, 8) }
        else if offset == 0x19C { mask_of(flags, 0, 16) }
        else if offset == 0x19E { mask_of(flags, 16, 8) }
        else if offset == 0x1A4 { self.irq_address }
        else if offset == 0x1A6 { (self.data_port_address >> 3u32) as u16 }
        else if offset == 0x1A8 { crate::bytes::le16(self.sound_ram@, self.data_port_address as int) }
        else if offset == 0x1AA { self.spu_control }
        else if offset == 0x1AC { self.data_transfer_control }
        else if offset == 0x1AE { self.spu_status }
        else if offset == 0x1B0 { self.cd_volume_left as u16 }
        else if offset == 0x1B2 { self.cd_volume_right as u16 }
        else if offset == 0x1B4 { self.extern_volume_left as u16 }
        else if offset == 0x1B6 { self.extern_volume_right as u16 }
        else { 0 }
    }

    fn read_voice_register(&self, voice_idx: usize, offset: u32) -> (r: u16)
        requires self.wf(), voice_idx < 24,
        ensures r == voice_register_spec(self.voices@[voice_idx as int], offset),
    {
        let v = &self.voices[voice_idx];
        if offset == 0x0 { v.read_sweep_config_left() }
        else if offset == 0x2 { v.read_sweep_config_right() }
        else if offset == 0x4 { v.read_sample_rate() }
        else if offset == 0x6 { v.read_start_address() }
        else if offset == 0x8 { v.read_adsr_config_low() }
        else if offset == 0xA { v.read_adsr_config_high() }
        else if offset == 0xC { v.read_current_level() as u16 }
        else if offset == 0xE { v.read_repeat_address() }
        else { 0 }
    }

    /// Read an SPU register (offset from 1F801C00h); reading the data port advances it.
    pub fn read_register(&mut self, offset: u32, interrupt_controller: &mut InterruptController) -> (r: u16)
        requires old(self).wf(),
        ensures
            final(self).wf(),
            r == old(self).register_spec(offset),
            offset != 0x1A8 ==> final(self).data_port_address == old(self).data_port_address
                && final(interrupt_controller).stat == old(interrupt_controller).stat,
            offset == 0x1A8 ==> final(self).data_port_address == (old(self).data_port_address + 2) % 0x80000,
            final(self).sound_ram == old(self).sound_ram,
            final(interrupt_controller).mask == old(interrupt_controller).mask,
    {
        if offset < 0x180 {
            assert(offset / 0x10 < 24);
            return self.read_voice_register((offset / 0x10) as usize, offset % 0x10);
        }
        if offset == 0x184 || offset == 0x186 || offset == 0x1A2 || (0x1C0 <= offset && offset <= 0x1FE) {
            return self.reverb.read_register(offset as usize);
        }
        if offset == 0x180 || offset == 0x1B8 { self.mixer.read_main_volume_left() as u16 }
        else if offset == 0x182 || offset == 0x1BA { self.mixer.read_main_volume_right() as u16 }
        else if offset == 0x188 { self.kon_low_raw }
        else if offset == 0x18A { self.kon_high_raw }
        else if offset == 0x18C { self.koff_low_raw }
        else if offset == 0x18E { self.koff_high_raw }
        else if offset == 0x190 { read_mask(&self.pmon, 0, 16) }
        else if offset == 0x192 { read_mask(&self.pmon, 16, 8) }
        else if offset == 0x194 { read_mask(&self.non, 0, 16) }
        else if offset == 0x196 { read_mask(&self.non, 16, 8) }
        else if offset == 0x198 { read_mask(&self.eon, 0, 16) }
        else if offset == 0x19A { read_mask(&self.eon, 16, 8) }
        else if offset == 0x19C { self.read_endx(0, 16) }
        else if offset == 0x19E { self.read_endx(16, 8) }
        else if offset == 0x1A4 { self.irq_address }
        else if offset == 0x1A6 { #[verifier::truncate] ((self.data_port_address >> 3u32) as u16) }
        else if offset == 0x1A8 { self.read_data_port(interrupt_controller) }
        else if offset == 0x1AA { self.spu_control }
        else if offset == 0x1AC { self.data_transfer_control }
        else if offset == 0x1AE { self.spu_status }
        else if offset == 0x1B0 { self.cd_volume_left as u16 }
        else if offset == 0x1B2 { self.cd_volume_right as u16 }
        else if offset == 0x1B4 { self.extern_volume_left as u16 }
        else if offset == 0x1B6 { self.extern_volume_right as u16 }
        else { 0 }
    }

    /// What a register write does to the SPU's registers.
    pub open spec fn written(self, post: Spu, offset: u32, value: u16) -> bool {
        &&& offset == 0x180 || offset == 0x1B8 ==> post.mixer.main_volume_left == value as i16
        &&& offset == 0x182 || offset == 0x1BA ==> post.mixer.main_volume_right == value as i16
        &&& offset == 0x188 ==> post.kon_low_raw == value
        &&& offset == 0x18A ==> post.kon_high_raw == value
        &&& offset == 0x18C ==> post.koff_low_raw == value
        &&& offset == 0x18E ==> post.koff_high_raw == value
        &&& offset == 0x1A4 ==> post.irq_address == value
        &&& offset == 0x1A6 ==> post.data_port_address == (value as u32) * 8
        &&& offset == 0x1A8 ==> post.sound_ram@ == crate::bytes::put16(self.sound_ram@, self.data_port_address as int, value)
        &&& offset == 0x1AA ==> post.spu_control == value
        &&& offset == 0x1AC ==> post.data_transfer_control == value
        &&& offset == 0x1B0 ==> post.cd_volume_left == value as i16
        &&& offset == 0x1B2 ==> post.cd_volume_right == value as i16
        &&& offset == 0x1B4 ==> post.extern_volume_left == value as i16
        &&& offset == 0x1B6 ==> post.extern_volume_right == value as i16
        &&& offset == 0x1A2 ==> post.reverb == (Reverb { mbase: value, current_buffer_offset: 0, ..self.reverb })
        &&& reverb_register(offset) && offset != 0x1A2 ==> post.reverb == self.reverb.with_register(offset as int, value)
        &&& offset == 0x190 ==> forall|i: int| 0 <= i < 16 ==> #[trigger] post.pmon@[i] == (value & (1u16 << (i as u16)) != 0)
        &&& offset == 0x194 ==> forall|i: int| 0 <= i < 16 ==> #[trigger] post.non@[i] == (value & (1u16 << (i as u16)) != 0)
        &&& offset == 0x198 ==> forall|i: int| 0 <= i < 16 ==> #[trigger] post.eon@[i] == (value & (1u16 << (i as u16)) != 0)
    }

    /// Write an SPU register (offset from 1F801C00h).
    pub fn write_register(&mut self, offset: u32, value: u16, interrupt_controller: &mut InterruptController)
        requires old(self).wf(),
        ensures
            final(self).wf(),
            old(self).written(*final(self), offset, value),
            final(interrupt_controller).mask == old(interrupt_controller).mask,
    {
        if offset < 0x180 {
            let v = (offset / 0x10) as usize;
            let sub = offset % 0x10;
            if sub == 0x0 { self.voices[v].write_sweep_config_left(value); }
            else if sub == 0x2 { self.voices[v].write_sweep_config_right(value); }
            else if sub == 0x4 { self.voices[v].write_sample_rate(value); }
            else if sub == 0x6 { self.voices[v].write_start_address(value); }
            else if sub == 0x8 { self.voices[v].write_adsr_config_low(value); }
            else if sub == 0xA { self.voices[v].write_adsr_config_high(value); }
            else if sub == 0xE { self.voices[v].write_repeat_address(value); }
            return;
        }
        if offset == 0x184 || offset == 0x186 || offset == 0x1A2 || (0x1C0 <= offset && offset <= 0x1FE) {
            self.reverb.write_register(offset as usize, value);
            return;
        }
        if offset == 0x180 || offset == 0x1B8 { self.mixer.write_main_volume_left(value as i16); }
        else if offset == 0x182 || offset == 0x1BA { self.mixer.write_main_volume_right(value as i16); }
        else if offset == 0x188 { self.kon_low_raw = value; self.key_voices(0, 16, value, true); }
        else if offset == 0x18A { self.kon_high_raw = value; self.key_voices(16, 8, value, true); }
        else if offset == 0x18C { self.koff_low_raw = value; self.key_voices(0, 16, value, false); }
        else if offset == 0x18E { self.koff_high_raw = value; self.key_voices(16, 8, value, false); }
        else if offset == 0x190 { write_mask(&mut self.pmon, 0, 16, value); }
        else if offset == 0x192 { write_mask(&mut self.pmon, 16, 8, value); }
        else if offset == 0x194 { write_mask(&mut self.non, 0, 16, value); }
        else if offset == 0x196 { write_mask(&mut self.non, 16, 8, value); }
        else if offset == 0x198 { write_mask(&mut self.eon, 0, 16, value); }
        else if offset == 0x19A { write_mask(&mut self.eon, 16, 8, value); }
        else if offset == 0x1A4 { self.irq_address = value; }
        else if offset == 0x1A6 {
            assert((value as u32) << 3u32 == (value as u32) * 8) by { crate::bits::lemma_shifts_u32(); }
            self.data_port_address = (value as u32) << 3u32;
        }
        else if offset == 0x1A8 { self.write_data_port(value, interrupt_controller); }
        else if offset == 0x1AA { self.write_spu_control(value); }
        else if offset == 0x1AC { self.data_transfer_control = value; }
        else if offset == 0x1B0 { self.cd_volume_left = value as i16; }
        else if offset == 0x1B2 { self.cd_volume_right = value as i16; }
        else if offset == 0x1B4 { self.extern_volume_left = value as i16; }
        else if offset == 0x1B6 { self.extern_volume_right = value as i16; }
    }

    /// What voice `i` contributed to the last sample: the noise generator's output when
    /// noise is on for it, otherwise its newest decoded sample.
    pub open spec fn voice_output(self, i: int) -> PcmSample {
        if self.non@[i] { PcmSample(self.noise_generator.output) } else { self.voices@[i].recent_samples@[3] }
    }

    /// The stereo sample the SPU puts out in state `self` (after its voices, envelopes and
    /// reverb have been clocked) with CD input `cd`: each voice's output through its envelope
    /// and its left/right volume, summed and saturated, scaled by the main volume, plus the
    /// reverb output, plus the CD input at its volume, saturating at each sum.
    pub open spec fn mixed_output(self, cd: (PcmSample, PcmSample)) -> (PcmSample, PcmSample) {
        let samples = Seq::new(24, |i: int| self.voice_output(i));
        let env = Seq::new(24, |i: int| self.voices@[i].envelope.level);
        let vl = Seq::new(24, |i: int| self.voices@[i].sweep_left.level);
        let vr = Seq::new(24, |i: int| self.voices@[i].sweep_right.level);
        let dry_l = clamp16(mix_sum(samples, env, vl, 24));
        let dry_r = clamp16(mix_sum(samples, env, vr, 24));
        let l = clamp16(clamp16(mul15(dry_l as int, self.mixer.main_volume_left as int)) + self.reverb.current_output.0.0);
        let r = clamp16(clamp16(mul15(dry_r as int, self.mixer.main_volume_right as int)) + self.reverb.current_output.1.0);
        (PcmSample(clamp16(l + clamp16(mul15(cd.0.0 as int, self.cd_volume_left as int)))),
            PcmSample(clamp16(r + clamp16(mul15(cd.1.0 as int, self.cd_volume_right as int)))))
    }

    /// One 44.1 kHz sample: tick the noise generator and every voice (with pitch modulation
    /// from the previous voice, noise, and the sound RAM IRQ on block fetches), mix through
    /// the envelopes and volumes and the main volume, run the reverb on the voices routed to
    /// it, and add the CD audio at its volume.
    pub fn tick(&mut self, cd_sample: (PcmSample, PcmSample), interrupt_controller: &mut InterruptController) -> (r: (PcmSample, PcmSample))
        requires old(self).wf(),
        ensures
            final(self).wf(),
            final(self).noise_generator.output == (if old(self).noise_generator.timer - (old(self).noise_generator.step + 4) >= 0 {
                old(self).noise_generator.output
            } else {
                noise::noise_next(old(self).noise_generator.output)
            }),
            final(self).reverb.odd_tick == !old(self).reverb.odd_tick,
            final(interrupt_controller).mask == old(interrupt_controller).mask,
            stat_grows(old(interrupt_controller).stat, final(interrupt_controller).stat),
            r == final(self).mixed_output(cd_sample),
            final(self).mixer == old(self).mixer,
            final(self).non == old(self).non,
            final(self).cd_volume_left == old(self).cd_volume_left,
            final(self).cd_volume_right == old(self).cd_volume_right,
    {
        proof { lemma_stat_grows(); }
        let mut samples: [PcmSample; 24] = [PcmSample(0); 24];
        let mut envelope_volumes: [i16; 24] = [0; 24];
        let mut voice_volume_left: [i16; 24] = [0; 24];
        let mut voice_volume_right: [i16; 24] = [0; 24];
        self.noise_generator.tick();
        let ghost noise_after = self.noise_generator;
        let mut prev_amplitude: i16 = 0;
        let mut i: usize = 0;
        while i < 24
            invariant
                i <= 24, self.wf(),
                self.noise_generator == noise_after,
                self.reverb == old(self).reverb,
                interrupt_controller.mask == old(interrupt_controller).mask,
                stat_grows(old(interrupt_controller).stat, interrupt_controller.stat),
                self.mixer == old(self).mixer,
                self.non == old(self).non,
                self.cd_volume_left == old(self).cd_volume_left,
                self.cd_volume_right == old(self).cd_volume_right,
                forall|j: int| 0 <= j < i ==> #[trigger] samples@[j] == self.voice_output(j),
                forall|j: int| 0 <= j < i ==> #[trigger] envelope_volumes@[j] == self.voices@[j].envelope.level,
                forall|j: int| 0 <= j < i ==> #[trigger] voice_volume_left@[j] == self.voices@[j].sweep_left.level,
                forall|j: int| 0 <= j < i ==> #[trigger] voice_volume_right@[j] == self.voices@[j].sweep_right.level,
            decreases 24 - i,
        {
            let ghost vs_before = self.voices@;
            let pmon_enabled = self.pmon[i] && i != 0;
            let non_enabled = self.non[i];
            let noise = self.noise_generator.output();
            let (sample, fetched_addr) = self.voices[i].tick(&self.sound_ram, pmon_enabled, prev_amplitude, non_enabled, noise);
            let ghost vt = self.voices@[i as int];
            proof {
                assert(sample == (if non_enabled { PcmSample(noise) } else { vt.recent_samples@[3] }));
            }
            samples[i] = sample;
            if let Some(addr) = fetched_addr {
                self.check_spu_ram_irq(addr, interrupt_controller);
                proof { lemma_stat_grows(); }
            }
            envelope_volumes[i] = self.voices[i].current_envelope_volume();
            voice_volume_left[i] = self.voices[i].current_sweep_volume_left();
            voice_volume_right[i] = self.voices[i].current_sweep_volume_right();
            prev_amplitude = self.voices[i].current_amplitude();
            proof {
                assert(self.voices@[i as int].recent_samples == vt.recent_samples);
                assert forall|j: int| 0 <= j < i + 1 implies #[trigger] samples@[j] == self.voice_output(j) by {
                    if j < i { assert(self.voices@[j] == vs_before[j]); }
                }
                assert forall|j: int| 0 <= j < i + 1 implies #[trigger] envelope_volumes@[j] == self.voices@[j].envelope.level by {
                    if j < i { assert(self.voices@[j] == vs_before[j]); }
                }
                assert forall|j: int| 0 <= j < i + 1 implies #[trigger] voice_volume_left@[j] == self.voices@[j].sweep_left.level by {
                    if j < i { assert(self.voices@[j] == vs_before[j]); }
                }
                assert forall|j: int| 0 <= j < i + 1 implies #[trigger] voice_volume_right@[j] == self.voices@[j].sweep_right.level by {
                    if j < i { assert(self.voices@[j] == vs_before[j]); }
                }
            }
            i = i + 1;
        }
        let ghost st1 = *self;
        let ghost v1 = self.voices@;
        proof {
            assert(forall|j: int| 0 <= j < 24 ==> #[trigger] samples@[j] == st1.voice_output(j));
            assert(forall|j: int| 0 <= j < 24 ==> #[trigger] envelope_volumes@[j] == st1.voices@[j].envelope.level);
            assert(forall|j: int| 0 <= j < 24 ==> #[trigger] voice_volume_left@[j] == st1.voices@[j].sweep_left.level);
            assert(forall|j: int| 0 <= j < 24 ==> #[trigger] voice_volume_right@[j] == st1.voices@[j].sweep_right.level);
        }
        let (dry_left, dry_right) = self.mixer.mix(&samples, &envelope_volumes, &voice_volume_left, &voice_volume_right);
        let dry_left_scaled = clamp_sample(mul_shift15(dry_left.0 as i32, self.mixer.read_main_volume_left()));
        let dry_right_scaled = clamp_sample(mul_shift15(dry_right.0 as i32, self.mixer.read_main_volume_right()));
        let mut reverb_input_l: i32 = 0;
        let mut reverb_input_r: i32 = 0;
        let mut k: usize = 0;
        while k < 24
            invariant
                k <= 24, self.wf(),
                self.noise_generator == noise_after,
                self.reverb == old(self).reverb,
                -0x8000 * k <= reverb_input_l <= 0x8000 * k,
                -0x8000 * k <= reverb_input_r <= 0x8000 * k,
                self.mixer == old(self).mixer,
                self.non == old(self).non,
                self.cd_volume_left == old(self).cd_volume_left,
                self.cd_volume_right == old(self).cd_volume_right,
                self.voices@.len() == 24,
                forall|j: int| 0 <= j < 24 ==> #[trigger] self.voices@[j] == (Voice { current_amplitude: self.voices@[j].current_amplitude, ..v1[j] }),
            decreases 24 - k,
        {
            if self.eon[k] {
                let post_envelope = mul_shift15(samples[k].0 as i32, envelope_volumes[k]);
                self.voices[k].set_current_amplitude(post_envelope);
                reverb_input_l = reverb_input_l + mul_shift15(post_envelope, voice_volume_left[k]);
                reverb_input_r = reverb_input_r + mul_shift15(post_envelope, voice_volume_right[k]);
            }
            k = k + 1;
        }
        let reverb_input = (clamp_sample(reverb_input_l), clamp_sample(reverb_input_r));
        self.reverb.tick(reverb_input, &mut self.sound_ram);
        let (reverb_left, reverb_right) = self.reverb.current_output();
        let final_left = clamp_sample(dry_left_scaled as i32 + reverb_left.0 as i32);
        let final_right = clamp_sample(dry_right_scaled as i32 + reverb_right.0 as i32);
        let (cd_l, cd_r) = cd_sample;
        let cd_left_scaled = clamp_sample(mul_shift15(cd_l.0 as i32, self.cd_volume_left));
        let cd_right_scaled = clamp_sample(mul_shift15(cd_r.0 as i32, self.cd_volume_right));
        let mixed_left = clamp_sample(final_left as i32 + cd_left_scaled as i32);
        let mixed_right = clamp_sample(final_right as i32 + cd_right_scaled as i32);
        proof {
            let fin = *self;
            assert forall|j: int| 0 <= j < 24 implies #[trigger] fin.voices@[j] == (Voice { current_amplitude: fin.voices@[j].current_amplitude, ..st1.voices@[j] }) by {}
            assert forall|j: int| 0 <= j < 24 implies #[trigger] samples@[j] == fin.voice_output(j) by {
                assert(fin.voices@[j] == (Voice { current_amplitude: fin.voices@[j].current_amplitude, ..st1.voices@[j] }));
            }
            assert forall|j: int| 0 <= j < 24 implies #[trigger] voice_volume_left@[j] == fin.voices@[j].sweep_left.level by {
                assert(fin.voices@[j] == (Voice { current_amplitude: fin.voices@[j].current_amplitude, ..st1.voices@[j] }));
            }
            assert forall|j: int| 0 <= j < 24 implies #[trigger] voice_volume_right@[j] == fin.voices@[j].sweep_right.level by {
                assert(fin.voices@[j] == (Voice { current_amplitude: fin.voices@[j].current_amplitude, ..st1.voices@[j] }));
            }
            assert forall|j: int| 0 <= j < 24 implies #[trigger] envelope_volumes@[j] == fin.voices@[j].envelope.level by {
                assert(fin.voices@[j] == (Voice { current_amplitude: fin.voices@[j].current_amplitude, ..st1.voices@[j] }));
            }
            assert(samples@ =~= Seq::new(24, |i: int| fin.voice_output(i)));
            assert(envelope_volumes@ =~= Seq::new(24, |i: int| fin.voices@[i].envelope.level));
            assert(voice_volume_left@ =~= Seq::new(24, |i: int| fin.voices@[i].sweep_left.level));
            assert(voice_volume_right@ =~= Seq::new(24, |i: int| fin.voices@[i].sweep_right.level));
        }
        (PcmSample(mixed_left), PcmSample(mixed_right))
    }

    /// The SPU's sample clock: produce one sample and hand it to the backend if it has room.
    pub fn handle_event(&mut self, cd_sample: (PcmSample, PcmSample), interrupt_controller: &mut InterruptController)
        requires old(self).wf(),
        ensures
            final(self).wf(),
            final(interrupt_controller).mask == old(interrupt_controller).mask,
            stat_grows(old(interrupt_controller).stat, final(interrupt_controller).stat),
            final(self).reverb.odd_tick == !old(self).reverb.odd_tick,
    {
        let (left, right) = self.tick(cd_sample, interrupt_controller);
        if self.backend.buffer_available() > 0 {
            self.backend.push_sample(left, right);
        }
    }
}

} // verus!
