//! SPU-ADPCM: 16-byte blocks of 28 4-bit samples with a shift/filter header, decoded with
//! a two-sample prediction history.
use vstd::prelude::*;
use crate::spu::PcmSample;
use crate::xadpcm::{AdpcmHistory, adpcm_sample, unit_shift, div64, shift_left_small, lemma_pow2_values};

verus! {

/// Sample `j` (0..27) of a block: the low nibble of byte `2 + j / 2` for even `j`, the high
/// nibble for odd `j`, sign-extended.
pub open spec fn block_nibble(block: Seq<u8>, j: int) -> int {
    let byte = block[2 + j / 2];
    let nib = if j % 2 == 1 { (byte >> 4u8) & 0xF } else { byte & 0xF };
    if nib >= 8 { nib - 16 } else { nib as int }
}

/// The first `n` samples of a block and the history after them.
pub open spec fn decode_block_spec(block: Seq<u8>, h: AdpcmHistory, n: int) -> (Seq<i16>, AdpcmHistory)
    decreases n,
{
    if n <= 0 {
        (Seq::empty(), h)
    } else {
        let prev = decode_block_spec(block, h, n - 1);
        let v = adpcm_sample(block_nibble(block, n - 1), unit_shift(block[0]), ((block[0] & 0x30) >> 4u8) as int, prev.1);
        (prev.0.push(v), AdpcmHistory { prev1: v as i32, prev2: prev.1.prev1 })
    }
}

/// Decoder state: the two most recent samples.
#[derive(Debug, Clone, Copy, PartialEq, Eq, Structural)]
pub struct AdpcmDecoder {
    pub prev_sample: PcmSample,
    pub prev_prev_sample: PcmSample,
}

impl AdpcmDecoder {
    pub open spec fn history(&self) -> AdpcmHistory {
        AdpcmHistory { prev1: self.prev_sample.0 as i32, prev2: self.prev_prev_sample.0 as i32 }
    }

    pub fn new() -> (r: Self)
        ensures r.prev_sample == PcmSample(0), r.prev_prev_sample == PcmSample(0),
    {
        Self { prev_sample: PcmSample(0), prev_prev_sample: PcmSample(0) }
    }

    /// Decode the 28 samples of a block (a shift nibble above 12 shifts by 0).
    pub fn decode(&mut self, block: [u8; 16]) -> (r: [PcmSample; 28])
        ensures
            forall|j: int| 0 <= j < 28 ==> #[trigger] r@[j] == PcmSample(decode_block_spec(block@, old(self).history(), 28).0[j]),
            final(self).history() == decode_block_spec(block@, old(self).history(), 28).1,
    {
        let header = block[0];
        let s = header & 0x0F;
        let shift: i32 = if s > 12 { 0 } else { 12 - s as i32 };
        let filter = (header & 0x30) >> 4u8;
        assert(header & 0x0F <= 15 && (header & 0x30) >> 4u8 <= 3) by (bit_vector);
        let f0: i32 = if filter == 1 { 60 } else if filter == 2 { 115 } else if filter == 3 { 98 } else { 0 };
        let f1: i32 = if filter == 2 { -52 } else if filter == 3 { -55 } else { 0 };
        let mut out: [PcmSample; 28] = [PcmSample(0); 28];
        let ghost h0 = self.history();
        let mut j: usize = 0;
        while j < 28
            invariant
                j <= 28,
                0 <= shift <= 12,
                shift == unit_shift(block@[0]),
                header == block@[0],
                filter == (block@[0] & 0x30) >> 4u8,
                f0 == crate::xadpcm::filter_k0(filter as int),
                f1 == crate::xadpcm::filter_k1(filter as int),
                self.history() == decode_block_spec(block@, h0, j as int).1,
                forall|k: int| 0 <= k < j ==> #[trigger] out@[k] == PcmSample(decode_block_spec(block@, h0, j as int).0[k]),
                decode_block_spec(block@, h0, j as int).0.len() == j,
            decreases 28 - j,
        {
            let byte = block[2 + j / 2];
            let high = j % 2 == 1;
            let nibble = (if high { byte >> 4u8 } else { byte }) & 0x0F;
            assert(nibble <= 15) by { crate::bits::lemma_and_bounds(); }
            assert((if high { byte >> 4u8 } else { byte }) & 0x0F == (if high { (byte >> 4u8) & 0xF } else { byte & 0xF })
                && (nibble <= 15 ==> (nibble & 0x08 != 0 <==> nibble >= 8))) by (bit_vector);
            let t: i32 = if nibble & 0x08 != 0 { nibble as i32 - 16 } else { nibble as i32 };
            proof { lemma_pow2_values(shift as int); }
            let shifted = shift_left_small(t, shift);
            let p1 = self.prev_sample.0 as i32;
            let p2 = self.prev_prev_sample.0 as i32;
            assert(-0x80_0000 <= p1 * f0 + p2 * f1 + 32 <= 0x80_0000) by (nonlinear_arith)
                requires -55 <= f1 <= 0, 0 <= f0 <= 115, -0x8000 <= p1 <= 0x7FFF, -0x8000 <= p2 <= 0x7FFF;
            let s = shifted + div64(p1 * f0 + p2 * f1 + 32);
            let clamped: i16 = if s < -32768 { -32768 } else if s > 32767 { 32767 } else { s as i16 };
            self.prev_prev_sample = self.prev_sample;
            self.prev_sample = PcmSample(clamped);
            out[j] = self.prev_sample;
            proof {
                assert(f0 * p1 == p1 * f0 && f1 * p2 == p2 * f1) by (nonlinear_arith);
            }
            j = j + 1;
        }
        out
    }
}

} // verus!
