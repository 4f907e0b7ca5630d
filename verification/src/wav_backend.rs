//! A sound output that keeps every sample and encodes them as a 16-bit stereo 44.1 kHz WAV
//! file; writing the file is left to the caller.
use vstd::prelude::*;
use crate::spu::{PcmSample, SpuBackend};

verus! {

/// The little-endian bytes of a halfword.
pub open spec fn le16_bytes(v: u16) -> Seq<u8> {
    seq![(v & 0xFF) as u8, (v >> 8u16) as u8]
}

/// The little-endian bytes of a word.
pub open spec fn le32_bytes(v: u32) -> Seq<u8> {
    seq![(v & 0xFF) as u8, ((v >> 8u32) & 0xFF) as u8, ((v >> 16u32) & 0xFF) as u8, (v >> 24u32) as u8]
}

pub open spec fn ascii4(a: u8, b: u8, c: u8, d: u8) -> Seq<u8> {
    seq![a, b, c, d]
}

/// The 44-byte header of a PCM WAV file of `n` stereo 16-bit frames at 44100 Hz.
pub open spec fn wav_header(n: nat) -> Seq<u8> {
    let data_size = (n * 4) as u32;
    ascii4(0x52, 0x49, 0x46, 0x46) + le32_bytes((36 + data_size) as u32) + ascii4(0x57, 0x41, 0x56, 0x45)
        + ascii4(0x66, 0x6D, 0x74, 0x20) + le32_bytes(16) + le16_bytes(1) + le16_bytes(2)
        + le32_bytes(44100) + le32_bytes(176400) + le16_bytes(4) + le16_bytes(16)
        + ascii4(0x64, 0x61, 0x74, 0x61) + le32_bytes(data_size)
}

/// A frame: left then right sample, each little-endian.
pub open spec fn frame_bytes(f: (i16, i16)) -> Seq<u8> {
    le16_bytes(f.0 as u16) + le16_bytes(f.1 as u16)
}

pub open spec fn wav_data(frames: Seq<(i16, i16)>) -> Seq<u8>
    decreases frames.len(),
{
    if frames.len() == 0 {
        Seq::empty()
    } else {
        wav_data(frames.drop_last()) + frame_bytes(frames.last())
    }
}

/// The whole file.
pub open spec fn wav_file(frames: Seq<(i16, i16)>) -> Seq<u8> {
    wav_header(frames.len()) + wav_data(frames)
}

/// A WAV file of `n` frames is 44 header bytes plus 4 bytes per frame.
pub proof fn lemma_wav_length(frames: Seq<(i16, i16)>)
    ensures
        wav_file(frames).len() == 44 + 4 * frames.len(),
    decreases frames.len(),
{
    if frames.len() > 0 {
        lemma_wav_length(frames.drop_last());
    }
}

fn push16(out: &mut Vec<u8>, v: u16)
    ensures
        final(out)@ == old(out)@ + le16_bytes(v),
{
    out.push((v & 0xFF) as u8);
    out.push((v >> 8u16) as u8);
    assert(final(out)@ =~= old(out)@ + le16_bytes(v));
}

fn push32(out: &mut Vec<u8>, v: u32)
    ensures
        final(out)@ == old(out)@ + le32_bytes(v),
{
    out.push((v & 0xFF) as u8);
    out.push(((v >> 8u32) & 0xFF) as u8);
    out.push(((v >> 16u32) & 0xFF) as u8);
    out.push((v >> 24u32) as u8);
    assert(final(out)@ =~= old(out)@ + le32_bytes(v));
}

fn push4(out: &mut Vec<u8>, a: u8, b: u8, c: u8, d: u8)
    ensures
        final(out)@ == old(out)@ + ascii4(a, b, c, d),
{
    out.push(a);
    out.push(b);
    out.push(c);
    out.push(d);
    assert(final(out)@ =~= old(out)@ + ascii4(a, b, c, d));
}

/// Keeps every sample pushed to it, to be written as a WAV file to `output_path`.
pub struct WavDumpBackend {
    pub samples: Vec<(i16, i16)>,
    pub output_path: String,
}

impl WavDumpBackend {
    pub fn new(output_path: &str) -> (r: Self)
        ensures
            r.samples@.len() == 0,
            r.output_path@ == output_path@,
    {
        Self { samples: Vec::new(), output_path: output_path.to_owned() }
    }

    /// The WAV file of the samples so far. A WAV file holds fewer than 2^30 frames.
    pub fn wav_bytes(&self) -> (r: Vec<u8>)
        requires
            self.samples@.len() * 4 + 36 <= u32::MAX,
        ensures
            r@ == wav_file(self.samples@),
    {
        let n = self.samples.len() as u32;
        let data_size = n * 4;
        let mut out: Vec<u8> = Vec::new();
        push4(&mut out, 0x52, 0x49, 0x46, 0x46);
        push32(&mut out, 36 + data_size);
        push4(&mut out, 0x57, 0x41, 0x56, 0x45);
        push4(&mut out, 0x66, 0x6D, 0x74, 0x20);
        push32(&mut out, 16);
        push16(&mut out, 1);
        push16(&mut out, 2);
        push32(&mut out, 44100);
        push32(&mut out, 176400);
        push16(&mut out, 4);
        push16(&mut out, 16);
        push4(&mut out, 0x64, 0x61, 0x74, 0x61);
        push32(&mut out, data_size);
        assert(out@ =~= wav_header(self.samples@.len()));
        let mut k: usize = 0;
        while k < self.samples.len()
            invariant
                k <= self.samples@.len(),
                out@ == wav_header(self.samples@.len()) + wav_data(self.samples@.take(k as int)),
            decreases self.samples@.len() - k,
        {
            let (l, r) = self.samples[k];
            let ghost before = out@;
            push16(&mut out, l as u16);
            push16(&mut out, r as u16);
            proof {
                let s = self.samples@;
                assert(s.take(k as int + 1).drop_last() =~= s.take(k as int));
                assert(s.take(k as int + 1).last() == (l, r));
                assert(out@ =~= before + frame_bytes((l, r)));
            }
            k = k + 1;
        }
        assert(self.samples@.take(self.samples@.len() as int) =~= self.samples@);
        out
    }
}

impl SpuBackend for WavDumpBackend {
    fn push_sample(&mut self, left: PcmSample, right: PcmSample)
        ensures
            final(self).samples@ == old(self).samples@.push((left.0, right.0)),
            final(self).output_path == old(self).output_path,
    {
        self.samples.push((left.0, right.0));
    }

    /// Never full.
    fn buffer_available(&self) -> (r: usize)
        ensures
            r == usize::MAX,
    {
        usize::MAX
    }
}

} // verus!
