//! The macroblock decoder (MDEC): run-length decoding, dequantisation and the inverse DCT of
//! compressed 8x8 blocks, colour conversion, and the output packing that feeds FMV playback.
use vstd::prelude::*;
use std::collections::VecDeque;
use crate::bytes::le32;

verus! {

/// Position in the 8x8 block of the n-th coefficient of the zig-zag scan.
pub const ZIGZAG: [usize; 64] = [
    0x00, 0x08, 0x01, 0x02, 0x09, 0x10, 0x18, 0x11, 0x0a, 0x03, 0x04, 0x0b, 0x12, 0x19,
    0x20, 0x28, 0x21, 0x1a, 0x13, 0x0c, 0x05, 0x06, 0x0d, 0x14, 0x1b, 0x22, 0x29, 0x30,
    0x38, 0x31, 0x2a, 0x23, 0x1c, 0x15, 0x0e, 0x07, 0x0f, 0x16, 0x1d, 0x24, 0x2b, 0x32,
    0x39, 0x3a, 0x33, 0x2c, 0x25, 0x1e, 0x17, 0x1f, 0x26, 0x2d, 0x34, 0x3b, 0x3c, 0x35,
    0x2e, 0x27, 0x2f, 0x36, 0x3d, 0x3e, 0x37, 0x3f,
];

/// The halfword that pads the input stream between blocks and ends a block's coefficients.
pub const PADDING: u16 = 0xFE00;

/// Every entry of the zig-zag table is a position inside the block.
pub proof fn lemma_zigzag_in_block(k: int)
    requires 0 <= k < 64,
    ensures ZIGZAG@[k] < 64,
{
    assert(forall|i: int| 0 <= i < 64 ==> #[trigger] ZIGZAG@[i] < 64);
}

/// A 10-bit two's complement field as an integer.
pub open spec fn signed10(v: u16) -> int {
    if v & 0x200 != 0 { (v & 0x3FF) - 0x400 } else { (v & 0x3FF) as int }
}

pub open spec fn clamp(v: int, lo: int, hi: int) -> int {
    if v < lo { lo } else if v > hi { hi } else { v }
}

/// Dequantise one 10-bit coefficient: the DC term (no scale) is `c * qt`, an AC term is
/// `(c * qt * scale) >> 3`; the product is brought to 1.4 fixed point with a rounding bias
/// of 8 towards zero (or `c << 5` when the quantiser is zero), then saturated to 15 bits.
pub open spec fn quantize_spec(coef: u16, quant: u8, qscale: Option<u8>) -> i16 {
    if coef == 0 {
        0
    } else {
        let c: i32 = signed10(coef) as i32;
        let qs: i32 = match qscale { Some(q) => q as i32, None => 1 };
        let shift: i32 = match qscale { Some(_) => 3, None => 0 };
        let q: int = quant * qs;
        let out: int = if q == 0 {
            c * 32
        } else {
            let t: int = ((c * q) as i32 >> shift) * 16;
            if t < 0 { t + 8 } else { t - 8 }
        };
        clamp(out, -0x4000, 0x3FFF) as i16
    }
}

/// Sign-extend the low 9 bits of `v` and saturate to a signed byte.
pub open spec fn sext9_clamp8(v: i32) -> int {
    let m = v & 0x1FF;
    let s: int = if m & 0x100 != 0 { m - 0x200 } else { m as int };
    clamp(s, -128, 127)
}

/// The dot product of `n` entries of `a` from `ai` with `n` entries of `b` from `bi`.
pub open spec fn dotn(a: Seq<i32>, ai: int, b: Seq<i16>, bi: int, n: int) -> int
    decreases n,
{
    if n <= 0 { 0 } else { dotn(a, ai, b, bi, n - 1) + a[ai + n - 1] * b[bi + n - 1] }
}

/// One row-times-row product of the inverse DCT, rounded and scaled down by 2^15.
pub open spec fn idct_term(a: Seq<i32>, row: int, scale: Seq<i16>, col: int) -> i32 {
    ((dotn(a, row * 8, scale, col * 8, 8) + 0x4000) as i32) >> 15u32
}

/// First IDCT pass: entry `x * 8 + y` is the product of row `y` of the block with row `x` of
/// the scale table, truncated to 16 bits (the result is stored transposed).
pub open spec fn idct_pass1(blk: Seq<i32>, scale: Seq<i16>) -> Seq<i32> {
    Seq::new(64, |i: int| idct_term(blk, i % 8, scale, i / 8) as i16 as i32)
}

/// Second IDCT pass: entry `y * 8 + x` is the product of row `y` with row `x` of the scale
/// table, sign-extended from 9 bits and saturated to a signed byte.
pub open spec fn idct_pass2(tmp: Seq<i32>, scale: Seq<i16>) -> Seq<i32> {
    Seq::new(64, |i: int| sext9_clamp8(idct_term(tmp, i / 8, scale, i % 8)) as i32)
}

pub open spec fn idct(blk: Seq<i32>, scale: Seq<i16>) -> Seq<i32> {
    idct_pass2(idct_pass1(blk, scale), scale)
}

/// Scale-table entries are 16-bit coefficients shifted down by 3.
pub open spec fn scale_ok(scale: Seq<i16>) -> bool {
    scale.len() == 64 && forall|i: int| 0 <= i < 64 ==> -4096 <= #[trigger] scale[i] <= 4095
}

pub open spec fn halfword_entries(blk: Seq<i32>) -> bool {
    blk.len() == 64 && forall|i: int| 0 <= i < 64 ==> -0x8000 <= #[trigger] blk[i] <= 0x7FFF
}

pub open spec fn byte_entries(blk: Seq<i32>) -> bool {
    blk.len() == 64 && forall|i: int| 0 <= i < 64 ==> -128 <= #[trigger] blk[i] <= 127
}

fn signed10bit(value: u16) -> (r: i32)
    ensures r == signed10(value), -512 <= r <= 511,
{
    let v = (value & 0x3FF) as i32;
    assert(value & 0x3FF <= 0x3FF && (value & 0x200 != 0 ==> value & 0x3FF >= 0x200)
        && (value & 0x200 == 0 ==> value & 0x3FF < 0x200)) by (bit_vector);
    if value & 0x200 != 0 {
        v - 0x400
    } else {
        v
    }
}

fn quantize(coef: u16, quantization: u8, qscale: Option<u8>) -> (r: i16)
    requires qscale matches Some(q) ==> q < 64,
    ensures r == quantize_spec(coef, quantization, qscale),
{
    if coef == 0 {
        return 0;
    }
    let c = signed10bit(coef);
    let (qs, qshift): (i32, i32) = match qscale {
        Some(qs) => (qs as i32, 3),
        None => (1, 0),
    };
    assert(quantization as i32 * qs <= 255 * 63) by (nonlinear_arith)
        requires quantization <= 255, 0 <= qs <= 63;
    let q = quantization as i32 * qs;
    let c_out: i32 = if q == 0 {
        assert(c << 5u32 == c * 32) by { crate::bits::lemma_shifts_i32(); }
        c << 5u32
    } else {
        assert(-512 * 16065 <= c * q <= 511 * 16065) by (nonlinear_arith)
            requires -512 <= c <= 511, 0 <= q <= 16065;
        let cq: i32 = c * q;
        let p = cq >> (qshift as u32);
        if qshift == 3 {
            assert(-4_300_000 <= cq >> 3u32 <= 4_300_000) by { crate::bits::lemma_shifts_i32(); }
        } else {
            assert(qs == 1);
            assert(-512 * 255 <= cq <= 511 * 255) by (nonlinear_arith)
                requires cq == c * q, q == quantization as i32 * qs, qs == 1, -512 <= c <= 511, quantization <= 255;
            assert(cq >> 0u32 == cq) by { crate::bits::lemma_shifts_i32(); }
        }
        assert(p << 4u32 == p * 16) by { crate::bits::lemma_shifts_i32(); }
        let t = p << 4u32;
        if t < 0 { t + 8 } else { t - 8 }
    };
    if c_out < -0x4000 {
        -0x4000
    } else if c_out > 0x3FFF {
        0x3FFF
    } else {
        c_out as i16
    }
}

fn sign_extend_9bits_clamp_8bits(v: i32) -> (r: i8)
    ensures r == sext9_clamp8(v),
{
    let w = v as u16;
    let w = w << 7u16;
    let s = (w as i16) >> 7u16;
    assert((((v as u16) << 7u16) as i16 >> 7u16) as i32 == (if v & 0x100 != 0 {
        (v & 0x1FF) - 0x200
    } else {
        (v & 0x1FF) as int
    }) && v & 0x1FF & 0x100 == v & 0x100) by (bit_vector);
    if s < -128 {
        -128
    } else if s > 127 {
        127
    } else {
        s as i8
    }
}

proof fn lemma_product_bound(a: i32, b: i16)
    requires -0x8000 <= a <= 0x7FFF, -4096 <= b <= 4095,
    ensures -0x800_0000 <= a * b <= 0x800_0000,
{
    assert(-0x800_0000 <= a * b <= 0x800_0000) by (nonlinear_arith)
        requires -0x8000 <= a <= 0x7FFF, -4096 <= b <= 4095;
}

/// Row `row` of `a` times row `col` of the scale table, as the IDCT computes it.
fn idct_dot(a: &[i32; 64], row: usize, scale: &[i16; 64], col: usize) -> (r: i32)
    requires
        row < 8, col < 8,
        halfword_entries(a@),
        scale_ok(scale@),
    ensures
        r == idct_term(a@, row as int, scale@, col as int),
{
    let mut sum: i32 = 0;
    let mut c: usize = 0;
    while c < 8
        invariant
            row < 8, col < 8, c <= 8,
            halfword_entries(a@),
            scale_ok(scale@),
            sum == dotn(a@, row * 8, scale@, col * 8, c as int),
            -0x800_0000 * c <= sum <= 0x800_0000 * c,
        decreases 8 - c,
    {
        proof {
            lemma_product_bound(a@[row * 8 + c], scale@[col * 8 + c]);
        }
        sum = sum + a[row * 8 + c] * scale[col * 8 + c] as i32;
        c = c + 1;
    }
    (sum + 0x4000) >> 15u32
}

/// The two-pass inverse DCT of a dequantised block, in place.
fn idct_core(block: &mut [i32; 64], scale_table: &[i16; 64])
    requires
        halfword_entries(old(block)@),
        scale_ok(scale_table@),
    ensures
        final(block)@ == idct(old(block)@, scale_table@),
        byte_entries(final(block)@),
{
    let mut tmp: [i32; 64] = [0; 64];
    let mut y: usize = 0;
    while y < 8
        invariant
            y <= 8,
            halfword_entries(block@),
            block@ == old(block)@,
            scale_ok(scale_table@),
            tmp@.len() == 64,
            forall|i: int| 0 <= i < 64 && i % 8 < y ==> #[trigger] tmp@[i] == idct_pass1(block@, scale_table@)[i],
            halfword_entries(tmp@),
        decreases 8 - y,
    {
        let mut x: usize = 0;
        while x < 8
            invariant
                y < 8, x <= 8,
                halfword_entries(block@),
                block@ == old(block)@,
                scale_ok(scale_table@),
                tmp@.len() == 64,
                forall|i: int| 0 <= i < 64 && (i % 8 < y || (i % 8 == y && i / 8 < x)) ==>
                    #[trigger] tmp@[i] == idct_pass1(block@, scale_table@)[i],
                halfword_entries(tmp@),
            decreases 8 - x,
        {
            let v = idct_dot(block, y, scale_table, x);
            tmp[x * 8 + y] = v as i16 as i32;
            x = x + 1;
        }
        y = y + 1;
    }
    assert(tmp@ =~= idct_pass1(old(block)@, scale_table@));
    let mut y: usize = 0;
    while y < 8
        invariant
            y <= 8,
            tmp@ == idct_pass1(old(block)@, scale_table@),
            halfword_entries(tmp@),
            scale_ok(scale_table@),
            block@.len() == 64,
            forall|i: int| 0 <= i < y * 8 ==> #[trigger] block@[i] == idct_pass2(tmp@, scale_table@)[i],
            forall|i: int| 0 <= i < y * 8 ==> -128 <= #[trigger] block@[i] <= 127,
        decreases 8 - y,
    {
        let mut x: usize = 0;
        while x < 8
            invariant
                y < 8, x <= 8,
                tmp@ == idct_pass1(old(block)@, scale_table@),
                halfword_entries(tmp@),
                scale_ok(scale_table@),
                block@.len() == 64,
                forall|i: int| 0 <= i < y * 8 + x ==> #[trigger] block@[i] == idct_pass2(tmp@, scale_table@)[i],
                forall|i: int| 0 <= i < y * 8 + x ==> -128 <= #[trigger] block@[i] <= 127,
            decreases 8 - x,
        {
            let v = idct_dot(&tmp, y, scale_table, x);
            let b = sign_extend_9bits_clamp_8bits(v);
            block[y * 8 + x] = b as i32;
            x = x + 1;
        }
        y = y + 1;
    }
    assert(block@ =~= idct(old(block)@, scale_table@));
}

/// Leading padding halfwords are skipped before a block.
pub open spec fn skip_padding(s: Seq<u16>) -> Seq<u16>
    decreases s.len(),
{
    if s.len() > 0 && s[0] == PADDING { skip_padding(s.drop_first()) } else { s }
}

/// Nothing but padding is left in the stream.
pub open spec fn all_padding(s: Seq<u16>) -> bool {
    forall|i: int| 0 <= i < s.len() ==> #[trigger] s[i] == PADDING
}

pub open spec fn zero_block() -> Seq<i32> {
    Seq::new(64, |i: int| 0i32)
}

/// `b` with the coefficients of scan positions `from .. to` cleared.
pub open spec fn zero_from(b: Seq<i32>, from: int, to: int) -> Seq<i32>
    decreases to - from,
{
    if from < to { zero_from(b.update(ZIGZAG@[from] as int, 0), from + 1, to) } else { b }
}

/// Decode AC coefficients from scan position `k` on: each halfword carries a run of zero
/// coefficients (bits 10..15) and the next 10-bit coefficient; the padding halfword ends the
/// block. Yields the coefficients and the rest of the stream.
pub open spec fn ac_decode(s: Seq<u16>, k: int, b: Seq<i32>, q_scale: u8, qt: Seq<u8>) -> (Seq<i32>, Seq<u16>)
    decreases s.len(),
{
    if s.len() == 0 {
        (b, s)
    } else {
        let rle = s[0];
        let rest = s.drop_first();
        if rle == PADDING {
            (zero_from(b, k, 64), rest)
        } else {
            let run = (rle >> 10u16) as int;
            let k1 = if k + run < 64 { k + run } else { 64 };
            let b1 = zero_from(b, k, k1);
            let b2 = if k1 < 64 {
                b1.update(ZIGZAG@[k1] as int, quantize_spec(rle & 0x3FF, qt[k1], Some(q_scale)) as i32)
            } else {
                b1
            };
            let k2 = if k1 < 64 { k1 + 1 } else { k1 };
            if k2 >= 64 { (b2, rest) } else { ac_decode(rest, k2, b2, q_scale, qt) }
        }
    }
}

/// The dequantised coefficients of the next block and the rest of the stream: after the
/// padding, the first halfword holds the quantiser scale (bits 10..15) and the DC term.
pub open spec fn rl_coeffs(s: Seq<u16>, qt: Seq<u8>) -> (Seq<i32>, Seq<u16>) {
    let p = skip_padding(s);
    if p.len() == 0 {
        (zero_block(), p)
    } else {
        let rle = p[0];
        let dc = zero_block().update(0, quantize_spec(rle & 0x3FF, qt[0], None) as i32);
        ac_decode(p.drop_first(), 1, dc, ((rle >> 10u16) & 0xFF) as u8, qt)
    }
}

/// The next block of the stream, decoded and transformed, and the rest of the stream.
#[verifier::opaque]
pub open spec fn rl_block(s: Seq<u16>, qt: Seq<u8>, scale: Seq<i16>) -> (Seq<i32>, Seq<u16>) {
    (idct(rl_coeffs(s, qt).0, scale), rl_coeffs(s, qt).1)
}

/// Clear scan positions `block_index .. to` of the block.
fn clear_scan_positions(block: &mut [i32; 64], block_index: usize, to: usize)
    requires
        block_index <= to <= 64,
        halfword_entries(old(block)@),
    ensures
        final(block)@ == zero_from(old(block)@, block_index as int, to as int),
        halfword_entries(final(block)@),
{
    let mut k = block_index;
    while k < to
        invariant
            block_index <= k <= to <= 64,
            halfword_entries(block@),
            zero_from(block@, k as int, to as int) == zero_from(old(block)@, block_index as int, to as int),
        decreases to - k,
    {
        proof { lemma_zigzag_in_block(k as int); }
        block[ZIGZAG[k]] = 0;
        k = k + 1;
    }
}

/// Decode the next block from the input FIFO into `block`: run-length decode and dequantise
/// the coefficients in zig-zag order, then apply the inverse DCT.
fn rl_decode_block(
    fifo: &mut VecDeque<u16>,
    block: &mut [i32; 64],
    quant_table: &[u8; 64],
    scale_table: &[i16; 64],
)
    requires
        scale_ok(scale_table@),
    ensures
        final(block)@ == rl_block(old(fifo)@, quant_table@, scale_table@).0,
        final(fifo)@ == rl_block(old(fifo)@, quant_table@, scale_table@).1,
        byte_entries(final(block)@),
        final(fifo)@.len() <= old(fifo)@.len(),
        !all_padding(old(fifo)@) ==> final(fifo)@.len() < old(fifo)@.len(),
{
    reveal(rl_block);
    *block = [0; 64];
    assert(block@ =~= zero_block());
    let ghost start = fifo@;
    let mut dc: Option<u16> = None;
    while dc.is_none() && fifo.len() > 0
        invariant
            block@ == zero_block(),
            fifo@.len() <= start.len(),
            dc is None ==> skip_padding(fifo@) == skip_padding(start),
            dc is None ==> forall|i: int| 0 <= i < start.len() - fifo@.len() ==> #[trigger] start[i] == PADDING,
            dc is None ==> fifo@ == start.subrange(start.len() - fifo@.len(), start.len() as int),
            dc matches Some(r) ==> skip_padding(start).len() > 0 && r == skip_padding(start)[0]
                && fifo@ == skip_padding(start).drop_first(),
            dc is Some ==> fifo@.len() < start.len(),
        decreases fifo@.len(),
    {
        let rle = fifo.pop_front().unwrap();
        if rle != PADDING {
            dc = Some(rle);
        }
        proof {
            if rle == PADDING {
                assert(fifo@ =~= start.subrange(start.len() - fifo@.len(), start.len() as int));
            }
        }
    }
    proof {
        if dc is None {
            assert(fifo@.len() == 0);
            assert(skip_padding(start).len() == 0);
            assert forall|i: int| 0 <= i < start.len() implies #[trigger] start[i] == PADDING by {}
        }
    }
    match dc {
        None => {},
        Some(rle) => {
            let q_scale = ((rle >> 10u16) & 0xFF) as u8;
            assert((rle >> 10u16) & 0xFF < 64) by { crate::bits::lemma_and_bounds(); crate::bits::lemma_shifts_u16(); }
            let dc_q = quantize(rle & 0x3FF, quant_table[0], None);
            block[0] = dc_q as i32;
            let ghost dc_block = block@;
            let ghost after_dc = fifo@;
            assert(dc_block =~= zero_block().update(0, quantize_spec(rle & 0x3FF, quant_table@[0], None) as i32));
            let mut block_index: usize = 1;
            let mut done = false;
            while !done
                invariant
                    1 <= block_index <= 64,
                    !done ==> block_index < 64,
                    halfword_entries(block@),
                    fifo@.len() <= after_dc.len(),
                    q_scale < 64,
                    !done ==> ac_decode(fifo@, block_index as int, block@, q_scale, quant_table@)
                        == ac_decode(after_dc, 1, dc_block, q_scale, quant_table@),
                    done ==> (block@, fifo@) == ac_decode(after_dc, 1, dc_block, q_scale, quant_table@),
                decreases fifo@.len() + (if done { 0int } else { 1int }),
            {
                let ghost s_now = fifo@;
                let ghost b_now = block@;
                match fifo.pop_front() {
                    None => {
                        done = true;
                    },
                    Some(rle) => {
                        if rle == PADDING {
                            clear_scan_positions(block, block_index, 64);
                            block_index = 64;
                            done = true;
                        } else {
                            let zeroes = (rle >> 10u16) as usize;
                            let ac = rle & 0x3FF;
                            let to: usize = if block_index + zeroes < 64 { block_index + zeroes } else { 64 };
                            clear_scan_positions(block, block_index, to);
                            block_index = to;
                            if block_index < 64 {
                                proof { lemma_zigzag_in_block(block_index as int); }
                                let ac_q = quantize(ac, quant_table[block_index], Some(q_scale));
                                block[ZIGZAG[block_index]] = ac_q as i32;
                                block_index = block_index + 1;
                            }
                            if block_index >= 64 {
                                done = true;
                            }
                        }
                        assert(fifo@ =~= s_now.drop_first());
                    },
                }
            }
        },
    }
    idct_core(block, scale_table);
}

proof fn lemma_pixel_index(p: int, c: int)
    requires 0 <= c < 3, 0 <= p,
    ensures (p * 3 + c) / 3 == p, (p * 3 + c) % 3 == c,
{
    assert((p * 3 + c) / 3 == p && (p * 3 + c) % 3 == c) by (nonlinear_arith) requires 0 <= c < 3, 0 <= p;
}

proof fn lemma_grid_index(x: int, y: int)
    requires 0 <= x < 8, 0 <= y,
    ensures (x + y * 8) % 8 == x, (x + y * 8) / 8 == y,
{
    assert((x + y * 8) % 8 == x && (x + y * 8) / 8 == y) by (nonlinear_arith) requires 0 <= x < 8, 0 <= y;
}

/// A signed output byte, offset by 128 when the output is unsigned.
pub open spec fn byte_out(v: int, signed: bool) -> u8 {
    let b = v as u8;
    if signed { b } else { b ^ 0x80u8 }
}

pub open spec fn red_raw(y: i32, cr: i32) -> i32 {
    (y + (((359 * cr + 0x80) as i32) >> 8u32)) as i32
}

pub open spec fn green_raw(y: i32, cb: i32, cr: i32) -> i32 {
    (y + (((((-88 * cb) as i32) & !0x1fi32) + (((-183 * cr) as i32) & !0x07i32) + 0x80) as i32 >> 8u32)) as i32
}

pub open spec fn blue_raw(y: i32, cb: i32) -> i32 {
    (y + (((454 * cb + 0x80) as i32) >> 8u32)) as i32
}

/// Red is the luminance plus 1.402 * Cr rounded, that is (359 * Cr + 80h) / 100h: it rises
/// with Cr, lies above the luminance for positive Cr and below it for negative Cr, and a
/// value within the 9-bit range comes out saturated to 8 bits.
pub proof fn lemma_red_from_cr(y: i32, cr: i32, cr2: i32)
    requires
        -128 <= y <= 127,
        -128 <= cr <= 127,
        -128 <= cr2 <= 127,
    ensures
        red_raw(y, cr) == y + (359 * cr + 0x80) / 256,
        cr <= cr2 ==> red_raw(y, cr) <= red_raw(y, cr2),
        cr > 0 ==> red_raw(y, cr) > y,
        cr < 0 ==> red_raw(y, cr) < y,
        -256 <= red_raw(y, cr) <= 255 ==> sext9_clamp8(red_raw(y, cr)) == clamp(red_raw(y, cr) as int, -128, 127),
{
    crate::bits::lemma_shifts_i32();
    crate::bits::lemma_hardware_arith();
    let t: i32 = (359 * cr + 0x80) as i32;
    let t2: i32 = (359 * cr2 + 0x80) as i32;
    assert(t >> 8u32 == t / 256);
    assert(t2 >> 8u32 == t2 / 256);
    assert(cr <= cr2 ==> t / 256 <= t2 / 256) by (nonlinear_arith) requires t == 359 * cr + 0x80, t2 == 359 * cr2 + 0x80;
    let v = red_raw(y, cr);
    if -256 <= v <= 255 {
        assert(((v & 0x1FF) & 0x100) != 0 ==> (v & 0x1FF) - 0x200 == v);
        assert(((v & 0x1FF) & 0x100) == 0 ==> (v & 0x1FF) == v);
    }
}

/// Blue is the luminance plus 1.772 * Cb rounded, that is (454 * Cb + 80h) / 100h: it rises
/// with Cb, above the luminance for positive Cb and below it for negative Cb.
pub proof fn lemma_blue_from_cb(y: i32, cb: i32, cb2: i32)
    requires
        -128 <= y <= 127,
        -128 <= cb <= 127,
        -128 <= cb2 <= 127,
    ensures
        blue_raw(y, cb) == y + (454 * cb + 0x80) / 256,
        cb <= cb2 ==> blue_raw(y, cb) <= blue_raw(y, cb2),
        cb > 0 ==> blue_raw(y, cb) > y,
        cb < 0 ==> blue_raw(y, cb) < y,
{
    crate::bits::lemma_shifts_i32();
    let t: i32 = (454 * cb + 0x80) as i32;
    let t2: i32 = (454 * cb2 + 0x80) as i32;
    assert(t >> 8u32 == t / 256);
    assert(t2 >> 8u32 == t2 / 256);
    assert(cb <= cb2 ==> t / 256 <= t2 / 256) by (nonlinear_arith) requires t == 454 * cb + 0x80, t2 == 454 * cb2 + 0x80;
}

/// One 8x8 quadrant of a colour macroblock as BGR bytes: luminance block `yb` at offset
/// (`xx`, `yy`) of the 16x16 macroblock, with the half-resolution chroma blocks.
#[verifier::opaque]
pub open spec fn rgb_spec(cr: Seq<i32>, cb: Seq<i32>, yb: Seq<i32>, xx: int, yy: int, signed: bool) -> Seq<u8> {
    Seq::new(192, |i: int| {
        let p = i / 3;
        let x = p % 8;
        let y = p / 8;
        let ci = (x + xx) / 2 + ((y + yy) / 2) * 8;
        let ch = i % 3;
        if ch == 0 {
            byte_out(sext9_clamp8(blue_raw(yb[p], cb[ci])), signed)
        } else if ch == 1 {
            byte_out(sext9_clamp8(green_raw(yb[p], cb[ci], cr[ci])), signed)
        } else {
            byte_out(sext9_clamp8(red_raw(yb[p], cr[ci])), signed)
        }
    })
}

/// A monochrome block as 64 bytes.
pub open spec fn mono_spec(yb: Seq<i32>, signed: bool) -> Seq<u8> {
    Seq::new(64, |i: int| byte_out(sext9_clamp8(yb[i]), signed))
}

/// 15-bit BGR pixel `p` of the scratch buffer, with bit 15 as requested.
pub open spec fn pix15(rgb: Seq<u8>, p: int, bit15: bool) -> u16 {
    let r = rgb[p * 3 + 2];
    let g = rgb[p * 3 + 1];
    let b = rgb[p * 3];
    let px = ((((b as u16) >> 3u16) << 10u16) | (((g as u16) >> 3u16) << 5u16) | ((r as u16) >> 3u16)) as u16;
    if bit15 { px | 0x8000 } else { px }
}

/// The top nibbles of `n` bytes from `base`, packed from the low end of a word.
pub open spec fn nibble_word(rgb: Seq<u8>, base: int, n: int) -> u32
    decreases n,
{
    if n <= 0 {
        0
    } else {
        nibble_word(rgb, base, n - 1) | ((((rgb[base + n - 1] as u32) >> 4u32) & 0xF) << ((4 * (n - 1)) as u32))
    }
}

/// The output words for one 8x8 block of the scratch buffer: 24-bit (depth 2) packs the BGR
/// bytes, 15-bit (depth 3) two pixels per word, 4-bit (depth 0) eight and 8-bit (depth 1)
/// four monochrome pixels per word.
#[verifier::opaque]
pub open spec fn flush_words(rgb: Seq<u8>, depth: u8, bit15: bool) -> Seq<u32> {
    if depth == 2 {
        Seq::new(48, |j: int| le32(rgb, 4 * j))
    } else if depth == 3 {
        Seq::new(32, |j: int| ((pix15(rgb, 2 * j, bit15) as u32) | ((pix15(rgb, 2 * j + 1, bit15) as u32) << 16u32)) as u32)
    } else if depth == 0 {
        Seq::new(8, |j: int| nibble_word(rgb, 8 * j, 8))
    } else if depth == 1 {
        Seq::new(16, |j: int| le32(rgb, 4 * j))
    } else {
        Seq::empty()
    }
}

proof fn lemma_nibble_word_prefix(a: Seq<u8>, b: Seq<u8>, base: int, n: int)
    requires forall|i: int| base <= i < base + n ==> a[i] == b[i],
    ensures nibble_word(a, base, n) == nibble_word(b, base, n),
    decreases n,
{
    if n > 0 {
        lemma_nibble_word_prefix(a, b, base, n - 1);
    }
}

/// Only the first 64 bytes of the scratch buffer matter to the monochrome depths.
proof fn lemma_mono_flush(rgb: Seq<u8>, mono: Seq<u8>, depth: u8, bit15: bool)
    requires
        depth < 2, rgb.len() == 192, mono.len() == 64,
        forall|i: int| 0 <= i < 64 ==> rgb[i] == mono[i],
    ensures flush_words(rgb, depth, bit15) == flush_words(mono, depth, false),
{
    reveal(flush_words);
    if depth == 0 {
        assert forall|j: int| 0 <= j < 8 implies #[trigger] nibble_word(rgb, 8 * j, 8) == nibble_word(mono, 8 * j, 8) by {
            lemma_nibble_word_prefix(rgb, mono, 8 * j, 8);
        }
        assert(flush_words(rgb, depth, bit15) =~= flush_words(mono, depth, false));
    } else {
        assert(flush_words(rgb, depth, bit15) =~= flush_words(mono, depth, false));
    }
}

/// The four quadrants of a colour macroblock: Cr, Cb, then the four luminance blocks.
pub open spec fn colour_macroblock(s: Seq<u16>, iq_y: Seq<u8>, iq_uv: Seq<u8>, scale: Seq<i16>, signed: bool, depth: u8, bit15: bool) -> (Seq<u32>, Seq<u16>) {
    let cr = rl_block(s, iq_uv, scale);
    let cb = rl_block(cr.1, iq_uv, scale);
    let y0 = rl_block(cb.1, iq_y, scale);
    let y1 = rl_block(y0.1, iq_y, scale);
    let y2 = rl_block(y1.1, iq_y, scale);
    let y3 = rl_block(y2.1, iq_y, scale);
    (flush_words(rgb_spec(cr.0, cb.0, y0.0, 0, 0, signed), depth, bit15)
        + flush_words(rgb_spec(cr.0, cb.0, y1.0, 8, 0, signed), depth, bit15)
        + flush_words(rgb_spec(cr.0, cb.0, y2.0, 0, 8, signed), depth, bit15)
        + flush_words(rgb_spec(cr.0, cb.0, y3.0, 8, 8, signed), depth, bit15), y3.1)
}

/// A monochrome macroblock: one luminance block.
pub open spec fn mono_macroblock(s: Seq<u16>, iq_y: Seq<u8>, scale: Seq<i16>, signed: bool, depth: u8) -> (Seq<u32>, Seq<u16>) {
    let y = rl_block(s, iq_y, scale);
    (flush_words(mono_spec(y.0, signed), depth, false), y.1)
}

pub open spec fn macroblock(s: Seq<u16>, iq_y: Seq<u8>, iq_uv: Seq<u8>, scale: Seq<i16>, signed: bool, depth: u8, bit15: bool) -> (Seq<u32>, Seq<u16>) {
    if depth == 2 || depth == 3 {
        colour_macroblock(s, iq_y, iq_uv, scale, signed, depth, bit15)
    } else {
        mono_macroblock(s, iq_y, scale, signed, depth)
    }
}

/// Decode macroblocks until only padding is left: the output words and what stays in the
/// input FIFO.
pub open spec fn decode_all(s: Seq<u16>, iq_y: Seq<u8>, iq_uv: Seq<u8>, scale: Seq<i16>, signed: bool, depth: u8, bit15: bool) -> (Seq<u32>, Seq<u16>)
    decreases s.len(),
{
    if all_padding(s) {
        (Seq::empty(), s)
    } else {
        let m = macroblock(s, iq_y, iq_uv, scale, signed, depth, bit15);
        if m.1.len() < s.len() {
            let rest = decode_all(m.1, iq_y, iq_uv, scale, signed, depth, bit15);
            (m.0 + rest.0, rest.1)
        } else {
            m
        }
    }
}

/// Words per 8-pixel line of an MDEC-to-RAM block transfer for an output depth.
pub open spec fn dma_line_length_spec(depth: u8) -> u8 {
    if depth == 3 { 4 } else if depth == 2 { 6 } else { 0 }
}

/// A command to the MDEC.
#[derive(Debug, Clone, Copy, PartialEq, Eq, Structural)]
pub enum MdecCommand {
    DecodeMacroblock { depth: u8, signed: bool, bit15: bool, num_words: u16 },
    SetQuantTable { color: bool },
    SetScaleTable,
    NoFunction,
}

/// Convert one luminance sample and its chroma samples to (R, G, B) output bytes.
fn yuv_pixel(y_val: i32, cb: i32, cr: i32, signed: bool) -> (r: (u8, u8, u8))
    requires -128 <= y_val <= 127, -128 <= cb <= 127, -128 <= cr <= 127,
    ensures
        r.0 == byte_out(sext9_clamp8(red_raw(y_val, cr)), signed),
        r.1 == byte_out(sext9_clamp8(green_raw(y_val, cb, cr)), signed),
        r.2 == byte_out(sext9_clamp8(blue_raw(y_val, cb)), signed),
{
    let tr: i32 = 359 * cr + 0x80;
    assert(-300 <= tr >> 8u32 <= 300) by { crate::bits::lemma_shifts_i32(); }
    let r = y_val + (tr >> 8u32);
    assert(-11264 <= -88 * cb <= 11264 && -23424 <= -183 * cr <= 23424) by (nonlinear_arith)
        requires -128 <= cb <= 127, -128 <= cr <= 127;
    let m1: i32 = -88 * cb;
    let m2: i32 = -183 * cr;
    let g1: i32 = m1 & !0x1f;
    let g2: i32 = m2 & !0x07;
    assert(-11300 <= m1 & !0x1fi32 <= 11300 && -23500 <= m2 & !0x07i32 <= 23500) by (bit_vector)
        requires -11264 <= m1 <= 11264, -23424 <= m2 <= 23424;
    let tg: i32 = g1 + g2 + 0x80;
    assert(-300 <= tg >> 8u32 <= 300) by { crate::bits::lemma_shifts_i32(); }
    let g = y_val + (tg >> 8u32);
    let tb: i32 = 454 * cb + 0x80;
    assert(-300 <= tb >> 8u32 <= 300) by { crate::bits::lemma_shifts_i32(); }
    let b = y_val + (tb >> 8u32);
    let rs = sign_extend_9bits_clamp_8bits(r);
    let gs = sign_extend_9bits_clamp_8bits(g);
    let bs = sign_extend_9bits_clamp_8bits(b);
    let mut r8 = #[verifier::truncate] (rs as u8);
    let mut g8 = #[verifier::truncate] (gs as u8);
    let mut b8 = #[verifier::truncate] (bs as u8);
    if !signed {
        r8 = r8 ^ 0x80;
        g8 = g8 ^ 0x80;
        b8 = b8 ^ 0x80;
    }
    (r8, g8, b8)
}

/// The macroblock decoder: command/parameter FIFO, quantisation and scale tables, per-block
/// scratch buffers and the output FIFO read by the CPU or DMA.
pub struct Mdec {
    pub output_depth: u8,
    pub output_signed: bool,
    pub output_bit15: bool,
    pub data_out_fifo: VecDeque<u32>,
    pub data_in_fifo: VecDeque<u16>,
    pub data_in_request: bool,
    pub data_out_request: bool,
    pub dma_block_line_length: u8,
    pub dma_block_line: u8,
    pub dma_block_column: u8,
    pub current_block: u8,
    /// Parameter words still expected; 0xFFFF when none.
    pub param_words_remaining: u16,
    /// Bits 0..15 of the status while no parameters are expected: 0 after a reset, FFFFh
    /// once a command word has been written.
    pub idle_status_count: u16,
    pub pending_command: MdecCommand,
    pub iq_y: [u8; 64],
    pub iq_uv: [u8; 64],
    pub scale_table: [i16; 64],
    pub cr_blk: [i32; 64],
    pub cb_blk: [i32; 64],
    pub y_blk: [i32; 64],
    pub rgb_out: [u8; 192],
}

impl Mdec {
    pub open spec fn wf(&self) -> bool {
        &&& scale_ok(self.scale_table@)
        &&& byte_entries(self.cr_blk@)
        &&& byte_entries(self.cb_blk@)
        &&& byte_entries(self.y_blk@)
        &&& self.output_depth < 4
        &&& self.current_block <= 5
        &&& self.param_words_remaining != 0
        &&& (self.pending_command matches MdecCommand::DecodeMacroblock { depth, .. } ==> depth < 4)
    }

    /// Convert one 8x8 quadrant to BGR into the scratch buffer.
    fn yuv_to_rgb(&mut self, xx: usize, yy: usize)
        requires
            old(self).wf(), xx <= 8, yy <= 8,
        ensures
            final(self).rgb_out@ == rgb_spec(old(self).cr_blk@, old(self).cb_blk@, old(self).y_blk@, xx as int, yy as int, old(self).output_signed),
            final(self).wf(),
            final(self).same_state(&old(self)),
            final(self).cr_blk == old(self).cr_blk,
            final(self).cb_blk == old(self).cb_blk,
            final(self).y_blk == old(self).y_blk,
            final(self).data_in_fifo == old(self).data_in_fifo,
            final(self).data_out_fifo == old(self).data_out_fifo,
            final(self).iq_y == old(self).iq_y,
            final(self).iq_uv == old(self).iq_uv,
            final(self).scale_table == old(self).scale_table,
            final(self).output_signed == old(self).output_signed,
            final(self).output_bit15 == old(self).output_bit15,
            final(self).output_depth == old(self).output_depth,
    {
        reveal(rgb_spec);
        let ghost target = rgb_spec(self.cr_blk@, self.cb_blk@, self.y_blk@, xx as int, yy as int, self.output_signed);
        let mut y: usize = 0;
        while y < 8
            invariant
                y <= 8, xx <= 8, yy <= 8,
                self.wf(),
                self.same_state(&old(self)),
                self.cr_blk == old(self).cr_blk, self.cb_blk == old(self).cb_blk, self.y_blk == old(self).y_blk,
                self.data_in_fifo == old(self).data_in_fifo, self.data_out_fifo == old(self).data_out_fifo,
                self.iq_y == old(self).iq_y, self.iq_uv == old(self).iq_uv, self.scale_table == old(self).scale_table,
                self.output_signed == old(self).output_signed, self.output_bit15 == old(self).output_bit15,
                self.output_depth == old(self).output_depth,
                target == rgb_spec(self.cr_blk@, self.cb_blk@, self.y_blk@, xx as int, yy as int, self.output_signed),
                forall|i: int| 0 <= i < y * 24 ==> #[trigger] self.rgb_out@[i] == target[i],
            decreases 8 - y,
        {
            let mut x: usize = 0;
            while x < 8
                invariant
                    y < 8, x <= 8, xx <= 8, yy <= 8,
                    self.wf(),
                    self.same_state(&old(self)),
                self.cr_blk == old(self).cr_blk, self.cb_blk == old(self).cb_blk, self.y_blk == old(self).y_blk,
                    self.data_in_fifo == old(self).data_in_fifo, self.data_out_fifo == old(self).data_out_fifo,
                    self.iq_y == old(self).iq_y, self.iq_uv == old(self).iq_uv, self.scale_table == old(self).scale_table,
                    self.output_signed == old(self).output_signed, self.output_bit15 == old(self).output_bit15,
                    self.output_depth == old(self).output_depth,
                    target == rgb_spec(self.cr_blk@, self.cb_blk@, self.y_blk@, xx as int, yy as int, self.output_signed),
                    forall|i: int| 0 <= i < (y * 8 + x) * 3 ==> #[trigger] self.rgb_out@[i] == target[i],
                decreases 8 - x,
            {
                reveal(rgb_spec);
                let ci = ((x + xx) / 2) + ((y + yy) / 2) * 8;
                let cr = self.cr_blk[ci];
                let cb = self.cb_blk[ci];
                let y_val = self.y_blk[x + y * 8];
                assert(-128 <= cr <= 127 && -128 <= cb <= 127 && -128 <= y_val <= 127);
                let (r, g, b) = yuv_pixel(y_val, cb, cr, self.output_signed);
                let dst_index = (x + y * 8) * 3;
                self.rgb_out[dst_index] = b;
                self.rgb_out[dst_index + 1] = g;
                self.rgb_out[dst_index + 2] = r;
                proof {
                    let p = x + y * 8;
                    lemma_pixel_index(p as int, 0);
                    lemma_pixel_index(p as int, 1);
                    lemma_pixel_index(p as int, 2);
                    lemma_grid_index(x as int, y as int);
                }
                x = x + 1;
            }
            y = y + 1;
        }
        assert(self.rgb_out@ =~= target);
    }

    /// The tables, the output configuration and the command state agree.
    pub open spec fn same_setup(&self, other: &Mdec) -> bool {
        &&& self.iq_y == other.iq_y
        &&& self.iq_uv == other.iq_uv
        &&& self.scale_table == other.scale_table
        &&& self.output_depth == other.output_depth
        &&& self.output_signed == other.output_signed
        &&& self.output_bit15 == other.output_bit15
        &&& self.data_in_request == other.data_in_request
        &&& self.data_out_request == other.data_out_request
        &&& self.param_words_remaining == other.param_words_remaining
        &&& self.pending_command == other.pending_command
    }

    /// Everything but the FIFOs and the scratch buffers agrees.
    pub open spec fn same_state(&self, other: &Mdec) -> bool {
        &&& self.same_setup(other)
        &&& self.dma_block_line_length == other.dma_block_line_length
        &&& self.dma_block_line == other.dma_block_line
        &&& self.dma_block_column == other.dma_block_column
        &&& self.current_block == other.current_block
    }

    /// Convert a monochrome block into the first 64 bytes of the scratch buffer.
    fn y_to_mono(&mut self)
        requires old(self).wf(),
        ensures
            final(self).wf(),
            final(self).same_state(&old(self)),
            final(self).data_in_fifo == old(self).data_in_fifo,
            final(self).data_out_fifo == old(self).data_out_fifo,
            final(self).y_blk == old(self).y_blk,
            forall|i: int| 0 <= i < 64 ==> #[trigger] final(self).rgb_out@[i] == mono_spec(old(self).y_blk@, old(self).output_signed)[i],
    {
        let mut i: usize = 0;
        while i < 64
            invariant
                i <= 64,
                self.wf(),
                self.same_state(&old(self)),
                self.data_in_fifo == old(self).data_in_fifo,
                self.data_out_fifo == old(self).data_out_fifo,
                self.y_blk == old(self).y_blk,
                forall|k: int| 0 <= k < i ==> #[trigger] self.rgb_out@[k] == mono_spec(old(self).y_blk@, old(self).output_signed)[k],
            decreases 64 - i,
        {
            let yv = self.y_blk[i];
            let masked = yv & 0x1FF;
            assert(0 <= masked <= 0x1FF) by { crate::bits::lemma_and_bounds(); }
            let mut y_val = if masked & 0x100 != 0 { masked - 0x200 } else { masked };
            if y_val < -128 {
                y_val = -128;
            } else if y_val > 127 {
                y_val = 127;
            }
            let mut y_out = #[verifier::truncate] (y_val as u8);
            if !self.output_signed {
                y_out = y_out ^ 0x80;
            }
            self.rgb_out[i] = y_out;
            i = i + 1;
        }
    }

    /// Pack the scratch buffer into output words for the given depth.
    fn flush_output(&mut self, depth: u8)
        requires old(self).wf(),
        ensures
            final(self).wf(),
            final(self).same_state(&old(self)),
            final(self).data_in_fifo == old(self).data_in_fifo,
            final(self).rgb_out == old(self).rgb_out,
            final(self).cr_blk == old(self).cr_blk,
            final(self).cb_blk == old(self).cb_blk,
            final(self).y_blk == old(self).y_blk,
            final(self).data_out_fifo@ == old(self).data_out_fifo@ + flush_words(old(self).rgb_out@, depth, old(self).output_bit15),
    {
        reveal(flush_words);
        let ghost words = flush_words(self.rgb_out@, depth, self.output_bit15);
        let ghost base = self.data_out_fifo@;
        if depth == 2 || depth == 1 {
            let count: usize = if depth == 2 { 48 } else { 16 };
            let mut j: usize = 0;
            while j < count
                invariant
                    j <= count, count == words.len(), count <= 48,
                    depth == 2 || depth == 1,
                    words == flush_words(self.rgb_out@, depth, self.output_bit15),
                    self.wf(),
                    self.same_state(&old(self)),
                    self.data_in_fifo == old(self).data_in_fifo,
                    self.rgb_out == old(self).rgb_out,
                    self.cr_blk == old(self).cr_blk, self.cb_blk == old(self).cb_blk, self.y_blk == old(self).y_blk,
                    self.data_out_fifo@ == base + words.take(j as int),
                decreases count - j,
            {
                reveal(flush_words);
                let o = 4 * j;
                let word = (self.rgb_out[o] as u32) | ((self.rgb_out[o + 1] as u32) << 8u32)
                    | ((self.rgb_out[o + 2] as u32) << 16u32) | ((self.rgb_out[o + 3] as u32) << 24u32);
                self.data_out_fifo.push_back(word);
                assert(words.take(j as int + 1) =~= words.take(j as int).push(word));
                j = j + 1;
            }
            assert(words.take(count as int) =~= words);
        } else if depth == 3 {
            let mut j: usize = 0;
            while j < 32
                invariant
                    j <= 32, words.len() == 32, depth == 3,
                    words == flush_words(self.rgb_out@, depth, self.output_bit15),
                    self.wf(),
                    self.same_state(&old(self)),
                    self.data_in_fifo == old(self).data_in_fifo,
                    self.rgb_out == old(self).rgb_out,
                    self.cr_blk == old(self).cr_blk, self.cb_blk == old(self).cb_blk, self.y_blk == old(self).y_blk,
                    self.data_out_fifo@ == base + words.take(j as int),
                decreases 32 - j,
            {
                reveal(flush_words);
                let lo = self.pixel15(2 * j) as u32;
                let hi = self.pixel15(2 * j + 1) as u32;
                let word = lo | (hi << 16u32);
                self.data_out_fifo.push_back(word);
                assert(words.take(j as int + 1) =~= words.take(j as int).push(word));
                j = j + 1;
            }
            assert(words.take(32) =~= words);
        } else if depth == 0 {
            let mut j: usize = 0;
            while j < 8
                invariant
                    j <= 8, words.len() == 8, depth == 0,
                    words == flush_words(self.rgb_out@, depth, self.output_bit15),
                    self.wf(),
                    self.same_state(&old(self)),
                    self.data_in_fifo == old(self).data_in_fifo,
                    self.rgb_out == old(self).rgb_out,
                    self.cr_blk == old(self).cr_blk, self.cb_blk == old(self).cb_blk, self.y_blk == old(self).y_blk,
                    self.data_out_fifo@ == base + words.take(j as int),
                decreases 8 - j,
            {
                reveal(flush_words);
                let mut word: u32 = 0;
                let mut i: usize = 0;
                while i < 8
                    invariant
                        i <= 8, j < 8,
                        word == nibble_word(self.rgb_out@, 8 * j, i as int),
                    decreases 8 - i,
                {
                    let b = self.rgb_out[8 * j + i];
                    word = word | ((((b as u32) >> 4u32) & 0xF) << ((i * 4) as u32));
                    i = i + 1;
                }
                self.data_out_fifo.push_back(word);
                assert(words.take(j as int + 1) =~= words.take(j as int).push(word));
                j = j + 1;
            }
            assert(words.take(8) =~= words);
        } else {
            assert(words =~= Seq::<u32>::empty());
        }
        assert(self.data_out_fifo@ =~= base + words);
    }

    /// 15-bit pixel `p` of the scratch buffer.
    fn pixel15(&self, p: usize) -> (r: u16)
        requires p < 64,
        ensures r == pix15(self.rgb_out@, p as int, self.output_bit15),
    {
        let r = self.rgb_out[p * 3 + 2];
        let g = self.rgb_out[p * 3 + 1];
        let b = self.rgb_out[p * 3];
        let mut px = (((b as u16) >> 3u16) << 10u16) | (((g as u16) >> 3u16) << 5u16) | ((r as u16) >> 3u16);
        if self.output_bit15 {
            px = px | 0x8000;
        }
        px
    }

    /// Decode one luminance block of a colour macroblock into `y_blk`, convert the quadrant at
    /// (`xx`, `yy`) and emit its output words.
    fn colour_quadrant(&mut self, depth: u8, xx: usize, yy: usize)
        requires old(self).wf(), xx <= 8, yy <= 8,
        ensures
            final(self).wf(),
            final(self).same_setup(&old(self)),
            final(self).cr_blk == old(self).cr_blk,
            final(self).cb_blk == old(self).cb_blk,
            ({
                let y = rl_block(old(self).data_in_fifo@, old(self).iq_y@, old(self).scale_table@);
                &&& final(self).data_in_fifo@ == y.1
                &&& final(self).data_out_fifo@ == old(self).data_out_fifo@ + flush_words(
                    rgb_spec(old(self).cr_blk@, old(self).cb_blk@, y.0, xx as int, yy as int, old(self).output_signed),
                    depth, old(self).output_bit15)
            }),
            final(self).data_in_fifo@.len() <= old(self).data_in_fifo@.len(),
            final(self).dma_block_line_length == old(self).dma_block_line_length,
            final(self).dma_block_line == old(self).dma_block_line,
            final(self).dma_block_column == old(self).dma_block_column,
            final(self).current_block == old(self).current_block,
    {
        rl_decode_block(&mut self.data_in_fifo, &mut self.y_blk, &self.iq_y, &self.scale_table);
        self.yuv_to_rgb(xx, yy);
        self.flush_output(depth);
    }

    /// Decode one colour macroblock (Cr, Cb, then four luminance quadrants).
    fn decode_colour_macroblock(&mut self, depth: u8)
        requires old(self).wf(),
        ensures
            final(self).wf(),
            final(self).same_setup(&old(self)),
            ({
                let m = colour_macroblock(old(self).data_in_fifo@, old(self).iq_y@, old(self).iq_uv@,
                    old(self).scale_table@, old(self).output_signed, depth, old(self).output_bit15);
                &&& final(self).data_in_fifo@ == m.1
                &&& final(self).data_out_fifo@ == old(self).data_out_fifo@ + m.0
            }),
            final(self).data_in_fifo@.len() <= old(self).data_in_fifo@.len(),
            !all_padding(old(self).data_in_fifo@) ==> final(self).data_in_fifo@.len() < old(self).data_in_fifo@.len(),
            final(self).dma_block_line_length == old(self).dma_block_line_length,
            final(self).dma_block_line == old(self).dma_block_line,
            final(self).dma_block_column == old(self).dma_block_column,
            final(self).current_block == 3,
    {
        let ghost out0 = self.data_out_fifo@;
        self.current_block = 4;
        rl_decode_block(&mut self.data_in_fifo, &mut self.cr_blk, &self.iq_uv, &self.scale_table);
        self.current_block = 5;
        rl_decode_block(&mut self.data_in_fifo, &mut self.cb_blk, &self.iq_uv, &self.scale_table);
        self.current_block = 0;
        let ghost o0 = self.data_out_fifo@;
        self.colour_quadrant(depth, 0, 0);
        let ghost o1 = self.data_out_fifo@;
        self.current_block = 1;
        self.colour_quadrant(depth, 8, 0);
        let ghost o2 = self.data_out_fifo@;
        self.current_block = 2;
        self.colour_quadrant(depth, 0, 8);
        let ghost o3 = self.data_out_fifo@;
        self.current_block = 3;
        self.colour_quadrant(depth, 8, 8);
        proof {
            let m = colour_macroblock(old(self).data_in_fifo@, old(self).iq_y@, old(self).iq_uv@,
                old(self).scale_table@, old(self).output_signed, depth, old(self).output_bit15);
            assert(o0 == out0);
            assert(self.data_out_fifo@ =~= out0 + m.0);
        }
    }

    /// Decode one monochrome macroblock.
    fn decode_mono_macroblock(&mut self, depth: u8)
        requires old(self).wf(), depth < 2,
        ensures
            final(self).wf(),
            final(self).same_setup(&old(self)),
            ({
                let m = mono_macroblock(old(self).data_in_fifo@, old(self).iq_y@, old(self).scale_table@,
                    old(self).output_signed, depth);
                &&& final(self).data_in_fifo@ == m.1
                &&& final(self).data_out_fifo@ == old(self).data_out_fifo@ + m.0
            }),
            final(self).data_in_fifo@.len() <= old(self).data_in_fifo@.len(),
            !all_padding(old(self).data_in_fifo@) ==> final(self).data_in_fifo@.len() < old(self).data_in_fifo@.len(),
            final(self).dma_block_line_length == old(self).dma_block_line_length,
            final(self).dma_block_line == old(self).dma_block_line,
            final(self).dma_block_column == old(self).dma_block_column,
            final(self).current_block == 4,
    {
        self.current_block = 4;
        rl_decode_block(&mut self.data_in_fifo, &mut self.y_blk, &self.iq_y, &self.scale_table);
        self.y_to_mono();
        let ghost rgb = self.rgb_out@;
        self.flush_output(depth);
        proof {
            lemma_mono_flush(rgb, mono_spec(self.y_blk@, self.output_signed), depth, self.output_bit15);
        }
    }

    /// Decode macroblocks from the input FIFO until only padding is left, at the output depth
    /// of the command; the output words go to the output FIFO.
    fn decode_macroblock(&mut self, depth: u8, _signed: bool, _bit15: bool, _num_words: u16)
        requires old(self).wf(), depth < 4,
        ensures
            final(self).wf(),
            final(self).same_setup(&old(self)),
            ({
                let d = decode_all(old(self).data_in_fifo@, old(self).iq_y@, old(self).iq_uv@,
                    old(self).scale_table@, old(self).output_signed, depth, old(self).output_bit15);
                &&& final(self).data_out_fifo@ == old(self).data_out_fifo@ + d.0
                &&& final(self).data_in_fifo@ == d.1
            }),
            final(self).dma_block_line_length == dma_line_length_spec(depth),
            final(self).dma_block_line == 0,
            final(self).dma_block_column == dma_line_length_spec(depth),
            final(self).current_block == (if (depth == 2 || depth == 3) && !all_padding(old(self).data_in_fifo@) { 3u8 } else { 4u8 }),
    {
        self.dma_block_line_length = if depth == 3 { 4 } else if depth == 2 { 6 } else { 0 };
        self.dma_block_line = 0;
        self.dma_block_column = self.dma_block_line_length;
        self.current_block = 4;
        let ghost s0 = self.data_in_fifo@;
        let ghost out0 = self.data_out_fifo@;
        let ghost mut iterated = false;
        let ghost iq_y = self.iq_y@;
        let ghost iq_uv = self.iq_uv@;
        let ghost scale = self.scale_table@;
        let ghost signed = self.output_signed;
        let ghost bit15 = self.output_bit15;
        while !only_padding(&self.data_in_fifo)
            invariant
                depth < 4,
                self.wf(),
                self.same_setup(&old(self)),
                iq_y == self.iq_y@, iq_uv == self.iq_uv@, scale == self.scale_table@,
                signed == self.output_signed, bit15 == self.output_bit15,
                s0 == old(self).data_in_fifo@, out0 == old(self).data_out_fifo@,
                self.dma_block_line_length == dma_line_length_spec(depth),
                self.dma_block_line == 0,
                self.dma_block_column == dma_line_length_spec(depth),
                out0 + decode_all(s0, iq_y, iq_uv, scale, signed, depth, bit15).0
                    == self.data_out_fifo@ + decode_all(self.data_in_fifo@, iq_y, iq_uv, scale, signed, depth, bit15).0,
                decode_all(s0, iq_y, iq_uv, scale, signed, depth, bit15).1
                    == decode_all(self.data_in_fifo@, iq_y, iq_uv, scale, signed, depth, bit15).1,
                !iterated ==> self.data_in_fifo@ == s0 && self.current_block == 4,
                iterated ==> !all_padding(s0) && self.current_block == (if depth == 2 || depth == 3 { 3u8 } else { 4u8 }),
            decreases self.data_in_fifo@.len(),
        {
            let ghost s = self.data_in_fifo@;
            let ghost out_before = self.data_out_fifo@;
            if depth == 2 || depth == 3 {
                self.decode_colour_macroblock(depth);
            } else {
                self.decode_mono_macroblock(depth);
            }
            proof {
                let m = macroblock(s, iq_y, iq_uv, scale, signed, depth, bit15);
                let rest = decode_all(self.data_in_fifo@, iq_y, iq_uv, scale, signed, depth, bit15);
                assert(self.data_in_fifo@ == m.1);
                assert(decode_all(s, iq_y, iq_uv, scale, signed, depth, bit15) == (m.0 + rest.0, rest.1));
                assert((out_before + m.0) + rest.0 =~= out_before + (m.0 + rest.0));
                iterated = true;
            }
        }
        proof {
            assert(decode_all(self.data_in_fifo@, iq_y, iq_uv, scale, signed, depth, bit15).0 =~= Seq::<u32>::empty());
            assert(self.data_out_fifo@ + Seq::<u32>::empty() =~= self.data_out_fifo@);
        }
    }

    /// The state after construction or a reset.
    pub open spec fn is_reset(&self) -> bool {
        &&& self.output_depth == 0
        &&& !self.output_signed
        &&& !self.output_bit15
        &&& self.data_out_fifo@.len() == 0
        &&& self.data_in_fifo@.len() == 0
        &&& self.dma_block_line_length == 0
        &&& self.dma_block_line == 0
        &&& self.dma_block_column == 0
        &&& self.current_block == 4
        &&& self.param_words_remaining == 0xFFFF
        &&& self.idle_status_count == 0
        &&& self.pending_command == MdecCommand::NoFunction
        &&& self.iq_y@ == Seq::new(64, |i: int| 0u8)
        &&& self.iq_uv@ == Seq::new(64, |i: int| 0u8)
        &&& self.scale_table@ == Seq::new(64, |i: int| 0i16)
    }

    pub fn new() -> (r: Self)
        ensures r.wf(), r.is_reset(), !r.data_in_request, !r.data_out_request,
    {
        let r = Self {
            output_depth: 0,
            output_signed: false,
            output_bit15: false,
            data_out_fifo: VecDeque::new(),
            data_in_fifo: VecDeque::new(),
            data_in_request: false,
            data_out_request: false,
            dma_block_line_length: 0,
            dma_block_line: 0,
            dma_block_column: 0,
            current_block: 4,
            param_words_remaining: 0xFFFF,
            idle_status_count: 0,
            pending_command: MdecCommand::NoFunction,
            iq_y: [0; 64],
            iq_uv: [0; 64],
            scale_table: [0; 64],
            cr_blk: [0; 64],
            cb_blk: [0; 64],
            y_blk: [0; 64],
            rgb_out: [0; 192],
        };
        assert(r.iq_y@ =~= Seq::new(64, |i: int| 0u8));
        assert(r.iq_uv@ =~= Seq::new(64, |i: int| 0u8));
        assert(r.scale_table@ =~= Seq::new(64, |i: int| 0i16));
        r
    }

    pub fn dma_block_line_length(&self) -> (r: u8)
        ensures r == self.dma_block_line_length,
    {
        self.dma_block_line_length
    }

    /// The status register: output FIFO empty (31), command busy (29), the two DMA requests
    /// (28, 27), output depth, sign and bit 15 (26..23), current block (18..16) and the
    /// parameter words remaining minus one (15..0; with none expected, 0 after a reset and
    /// FFFFh once a command has been written).
    pub open spec fn status_spec(&self) -> u32 {
        (if self.data_out_fifo@.len() == 0 { 0x8000_0000u32 } else { 0u32 })
            | (if self.pending_command != MdecCommand::NoFunction { 0x2000_0000u32 } else { 0u32 })
            | (if self.data_in_request { 0x1000_0000u32 } else { 0u32 })
            | (if self.data_out_request && self.data_out_fifo@.len() != 0 { 0x0800_0000u32 } else { 0u32 })
            | ((self.output_depth as u32) << 25u32)
            | (if self.output_signed { 0x0100_0000u32 } else { 0u32 })
            | (if self.output_bit15 { 0x0080_0000u32 } else { 0u32 })
            | ((self.current_block as u32) << 16u32)
            | (if self.param_words_remaining != 0xFFFF { (self.param_words_remaining - 1) as u32 } else { self.idle_status_count as u32 })
    }

    fn read_status(&self) -> (r: u32)
        requires self.wf(),
        ensures r == self.status_spec(),
    {
        let empty = self.data_out_fifo.len() == 0;
        let remaining: u32 = if self.param_words_remaining != 0xFFFF {
            (self.param_words_remaining as u32) - 1
        } else {
            self.idle_status_count as u32
        };
        (if empty { 0x8000_0000u32 } else { 0u32 })
            | (if self.pending_command != MdecCommand::NoFunction { 0x2000_0000u32 } else { 0u32 })
            | (if self.data_in_request { 0x1000_0000u32 } else { 0u32 })
            | (if self.data_out_request && !empty { 0x0800_0000u32 } else { 0u32 })
            | ((self.output_depth as u32) << 25u32)
            | (if self.output_signed { 0x0100_0000u32 } else { 0u32 })
            | (if self.output_bit15 { 0x0080_0000u32 } else { 0u32 })
            | ((self.current_block as u32) << 16u32)
            | remaining
    }

    /// Pop the next output word, or 0 when the output FIFO is empty.
    fn read_data_out(&mut self) -> (r: u32)
        ensures
            old(self).data_out_fifo@.len() > 0 ==> r == old(self).data_out_fifo@[0]
                && final(self).data_out_fifo@ == old(self).data_out_fifo@.drop_first(),
            old(self).data_out_fifo@.len() == 0 ==> r == 0 && final(self).data_out_fifo@ == old(self).data_out_fifo@,
            final(self).data_in_fifo == old(self).data_in_fifo,
            final(self).same_state(&old(self)),
            final(self).cr_blk == old(self).cr_blk,
            final(self).cb_blk == old(self).cb_blk,
            final(self).y_blk == old(self).y_blk,
    {
        match self.data_out_fifo.pop_front() {
            Some(value) => {
                assert(self.data_out_fifo@ =~= old(self).data_out_fifo@.drop_first());
                value
            },
            None => 0,
        }
    }

    /// Pop an output word for an MDEC-to-RAM transfer, with the byte offset (from the block
    /// base) it belongs at: output lines of a 16x16 block are interleaved, lines 8..15 going
    /// back up by seven line lengths.
    pub fn dma_read_data_out(&mut self) -> (r: (u32, u32))
        requires old(self).wf(),
        ensures
            final(self).wf(),
            old(self).data_out_fifo@.len() > 0 ==> r.0 == old(self).data_out_fifo@[0]
                && final(self).data_out_fifo@ == old(self).data_out_fifo@.drop_first(),
            old(self).data_out_fifo@.len() == 0 ==> r.0 == 0 && final(self).data_out_fifo@ == old(self).data_out_fifo@,
            ({
                let line = old(self).dma_block_line as u32;
                let len = old(self).dma_block_line_length as u32;
                let base = ((line & 7) * len) as u32;
                let offset = if line & 8 != 0 { base.wrapping_sub((len * 7) as u32) } else { base };
                r.1 == offset << 2u32
            }),
            ({
                let col = old(self).dma_block_column.wrapping_sub(1);
                &&& col == 0 ==> final(self).dma_block_column == old(self).dma_block_line_length
                    && final(self).dma_block_line == old(self).dma_block_line.wrapping_add(1)
                &&& col != 0 ==> final(self).dma_block_column == col
                    && final(self).dma_block_line == old(self).dma_block_line
            }),
            final(self).same_setup(&old(self)),
            final(self).data_in_fifo == old(self).data_in_fifo,
            final(self).dma_block_line_length == old(self).dma_block_line_length,
            final(self).current_block == old(self).current_block,
    {
        let v = self.read_data_out();
        let line = self.dma_block_line as u32;
        let line_length = self.dma_block_line_length as u32;
        assert((line & 7) <= 7) by { crate::bits::lemma_and_bounds(); }
        let mut offset = (line & 7) * line_length;
        if line & 8 != 0 {
            offset = offset.wrapping_sub(line_length * 7);
        }
        self.dma_block_column = self.dma_block_column.wrapping_sub(1);
        if self.dma_block_column == 0 {
            self.dma_block_column = self.dma_block_line_length;
            self.dma_block_line = self.dma_block_line.wrapping_add(1);
        }
        (v, offset << 2u32)
    }

    /// What a control word does: bit 31 resets the decoder; bits 30 and 29 set the DMA requests.
    pub open spec fn control_written(self, post: Mdec, value: u32) -> bool {
        &&& post.data_in_request == (value & 0x4000_0000 != 0)
        &&& post.data_out_request == (value & 0x2000_0000 != 0)
        &&& value & 0x8000_0000 != 0 ==> post.is_reset()
        &&& value & 0x8000_0000 == 0 ==> ({
            &&& post.iq_y == self.iq_y
            &&& post.iq_uv == self.iq_uv
            &&& post.scale_table == self.scale_table
            &&& post.output_depth == self.output_depth
            &&& post.output_signed == self.output_signed
            &&& post.output_bit15 == self.output_bit15
            &&& post.param_words_remaining == self.param_words_remaining
            &&& post.idle_status_count == self.idle_status_count
            &&& post.pending_command == self.pending_command
            &&& post.dma_block_line_length == self.dma_block_line_length
            &&& post.dma_block_line == self.dma_block_line
            &&& post.dma_block_column == self.dma_block_column
            &&& post.current_block == self.current_block
            &&& post.data_in_fifo == self.data_in_fifo
            &&& post.data_out_fifo == self.data_out_fifo
        })
    }

    /// The control register: bit 31 resets the MDEC, bits 30 and 29 enable the input and
    /// output DMA requests.
    fn write_control(&mut self, value: u32)
        requires old(self).wf(),
        ensures
            final(self).wf(),
            old(self).control_written(*final(self), value),
    {
        if value & 0x8000_0000 != 0 {
            *self = Self::new();
        }
        self.data_in_request = value & 0x4000_0000 != 0;
        self.data_out_request = value & 0x2000_0000 != 0;
    }

    /// What a word written to the command/parameter register does.
    pub open spec fn command_written(self, post: Mdec, value: u32) -> bool {
        &&& post.idle_status_count == 0xFFFF
        &&& post.data_in_request == self.data_in_request
        &&& post.data_out_request == self.data_out_request
        &&& self.pending_command == MdecCommand::NoFunction ==> {
            &&& post.output_depth == ((value >> 27u32) & 3) as u8
            &&& post.output_signed == (value & 0x400_0000 != 0)
            &&& post.output_bit15 == (value & 0x200_0000 != 0)
            &&& param_count_spec(value) != 0 ==> {
                &&& post.pending_command == command_spec(value)
                &&& post.param_words_remaining == param_count_spec(value)
                &&& post.data_in_fifo == self.data_in_fifo
                &&& post.data_out_fifo == self.data_out_fifo
                &&& post.iq_y == self.iq_y && post.iq_uv == self.iq_uv
                &&& post.scale_table == self.scale_table
                &&& post.dma_block_line_length == self.dma_block_line_length
                &&& post.dma_block_line == self.dma_block_line
                &&& post.dma_block_column == self.dma_block_column
                &&& post.current_block == self.current_block
            }
            &&& param_count_spec(value) == 0 ==> {
                &&& post.param_words_remaining == 0xFFFF
                &&& Mdec::executed(command_spec(value), value & 0x400_0000 != 0, value & 0x200_0000 != 0,
                    &self, self.data_in_fifo@, &post)
            }
        }
        &&& self.pending_command != MdecCommand::NoFunction ==> {
            let fifo = self.data_in_fifo@.push((value & 0xFFFF) as u16).push((value >> 16u32) as u16);
            let remaining = (self.param_words_remaining - 1) as u16;
            &&& post.output_depth == self.output_depth
            &&& post.output_signed == self.output_signed
            &&& post.output_bit15 == self.output_bit15
            &&& remaining != 0 ==> {
                &&& post.pending_command == self.pending_command
                &&& post.param_words_remaining == remaining
                &&& post.data_in_fifo@ == fifo
                &&& post.data_out_fifo == self.data_out_fifo
                &&& post.iq_y == self.iq_y && post.iq_uv == self.iq_uv
                &&& post.scale_table == self.scale_table
                &&& post.dma_block_line_length == self.dma_block_line_length
                &&& post.dma_block_line == self.dma_block_line
                &&& post.dma_block_column == self.dma_block_column
                &&& post.current_block == self.current_block
            }
            &&& remaining == 0 ==> {
                &&& post.param_words_remaining == 0xFFFF
                &&& Mdec::executed(self.pending_command, self.output_signed, self.output_bit15,
                    &self, fifo, &post)
            }
        }
    }

    /// A word written to the command/parameter register: with no command pending it starts
    /// one (a command without parameters runs at once); otherwise its two halfwords go to
    /// the input FIFO and the command runs when its last parameter arrives.
    pub fn write_command_param(&mut self, value: u32)
        requires old(self).wf(),
        ensures
            final(self).wf(),
            old(self).command_written(*final(self), value),
    {
        if self.pending_command == MdecCommand::NoFunction {
            self.output_depth = ((value >> 27u32) & 3) as u8;
            self.output_signed = (value & 0x400_0000) != 0;
            self.output_bit15 = (value & 0x200_0000) != 0;
            assert((value >> 27u32) & 3 < 4 && (value >> 29u32) & 7 <= 7) by { crate::bits::lemma_and_bounds(); }
            let cmd = ((value >> 29u32) & 7) as u8;
            if cmd == 1 {
                self.pending_command = MdecCommand::DecodeMacroblock {
                    depth: self.output_depth,
                    signed: self.output_signed,
                    bit15: self.output_bit15,
                    num_words: (value & 0xFFFF) as u16,
                };
                self.param_words_remaining = (value & 0xFFFF) as u16;
            } else if cmd == 2 {
                self.pending_command = MdecCommand::SetQuantTable { color: (value & 1) != 0 };
                self.param_words_remaining = if (value & 1) != 0 { 32 } else { 16 };
            } else if cmd == 3 {
                self.pending_command = MdecCommand::SetScaleTable;
                self.param_words_remaining = 32;
            } else {
                self.pending_command = MdecCommand::NoFunction;
                self.param_words_remaining = 0xFFFF;
            }
            if self.param_words_remaining == 0 {
                self.param_words_remaining = 0xFFFF;
                self.execute_command();
            }
            self.idle_status_count = 0xFFFF;
            return;
        }
        self.data_in_fifo.push_back((value & 0xFFFF) as u16);
        self.data_in_fifo.push_back((value >> 16u32) as u16);
        self.param_words_remaining = self.param_words_remaining.saturating_sub(1);
        if self.param_words_remaining == 0 {
            self.param_words_remaining = 0xFFFF;
            self.execute_command();
        }
        self.idle_status_count = 0xFFFF;
    }

    /// What a register read returns and does to the FIFOs.
    pub open spec fn register_read(self, post: Mdec, offset: u32, r: u32) -> bool {
        &&& offset == 0 ==> (self.data_out_fifo@.len() > 0 ==> r == self.data_out_fifo@[0]
            && post.data_out_fifo@ == self.data_out_fifo@.drop_first())
            && (self.data_out_fifo@.len() == 0 ==> r == 0 && post.data_out_fifo@ == self.data_out_fifo@)
        &&& offset == 4 ==> r == self.status_spec() && post.data_out_fifo == self.data_out_fifo
        &&& offset != 0 && offset != 4 ==> r == 0 && post.data_out_fifo == self.data_out_fifo
        &&& post.data_in_fifo == self.data_in_fifo
        &&& post.same_state(&self)
    }

    /// Register reads: 0 is the output FIFO, 4 the status register; others read 0.
    pub fn read_register(&mut self, offset: u32) -> (r: u32)
        requires old(self).wf(),
        ensures
            final(self).wf(),
            old(self).register_read(*final(self), offset, r),
    {
        if offset == 0 {
            self.read_data_out()
        } else if offset == 4 {
            self.read_status()
        } else {
            0
        }
    }

    /// Register writes: 0 is the command/parameter port, 4 the control register.
    pub fn write_register(&mut self, offset: u32, value: u32)
        requires old(self).wf(),
        ensures
            final(self).wf(),
            offset == 0 ==> old(self).command_written(*final(self), value),
            offset == 4 ==> old(self).control_written(*final(self), value),
            offset != 0 && offset != 4 ==> final(self).same_state(&old(self))
                && final(self).data_in_fifo == old(self).data_in_fifo
                && final(self).data_out_fifo == old(self).data_out_fifo,
    {
        if offset == 0 {
            self.write_command_param(value);
        } else if offset == 4 {
            self.write_control(value);
        }
    }

    /// A command is waiting for parameter words (the input DMA has something to do).
    pub fn wants_more_input(&self) -> (r: bool)
        ensures r == (self.param_words_remaining != 0xFFFF),
    {
        self.param_words_remaining != 0xFFFF
    }

    /// Output words are waiting (the output DMA has something to do).
    pub fn has_output_ready(&self) -> (r: bool)
        ensures r == (self.data_out_fifo@.len() != 0),
    {
        self.data_out_fifo.len() != 0
    }

    /// Run `cmd` on the input halfwords `fifo_in`, starting from the tables and output FIFO of
    /// `pre`, with the given output sign and bit 15; `post` is the state afterwards.
    pub open spec fn executed(cmd: MdecCommand, signed: bool, bit15: bool, pre: &Mdec, fifo_in: Seq<u16>, post: &Mdec) -> bool {
        &&& post.pending_command == MdecCommand::NoFunction
        &&& match cmd {
            MdecCommand::DecodeMacroblock { depth, .. } => {
                let d = decode_all(fifo_in, pre.iq_y@, pre.iq_uv@, pre.scale_table@, signed, depth, bit15);
                &&& post.data_out_fifo@ == pre.data_out_fifo@ + d.0
                &&& post.data_in_fifo@ == d.1
                &&& post.iq_y == pre.iq_y && post.iq_uv == pre.iq_uv && post.scale_table == pre.scale_table
                &&& post.dma_block_line_length == dma_line_length_spec(depth)
                &&& post.dma_block_line == 0
                &&& post.dma_block_column == dma_line_length_spec(depth)
                &&& post.current_block == (if (depth == 2 || depth == 3) && !all_padding(fifo_in) { 3u8 } else { 4u8 })
            },
            MdecCommand::SetQuantTable { color } => {
                let n = min(32, fifo_in.len() as int);
                let rest = fifo_in.skip(n);
                let n2 = if color { min(32, rest.len() as int) } else { 0 };
                &&& post.iq_y@ == table_from(pre.iq_y@, fifo_in.take(n))
                &&& post.iq_uv@ == (if color { table_from(pre.iq_uv@, rest.take(n2)) } else { pre.iq_uv@ })
                &&& post.data_in_fifo@ == rest.skip(n2)
                &&& post.scale_table == pre.scale_table
                &&& post.data_out_fifo@ == pre.data_out_fifo@
                &&& post.dma_block_line_length == pre.dma_block_line_length
                &&& post.dma_block_line == pre.dma_block_line
                &&& post.dma_block_column == pre.dma_block_column
                &&& post.current_block == pre.current_block
            },
            MdecCommand::SetScaleTable => {
                let n = min(64, fifo_in.len() as int);
                &&& post.scale_table@ == scale_from(pre.scale_table@, fifo_in.take(n))
                &&& post.data_in_fifo@ == fifo_in.skip(n)
                &&& post.iq_y == pre.iq_y && post.iq_uv == pre.iq_uv
                &&& post.data_out_fifo@ == pre.data_out_fifo@
                &&& post.dma_block_line_length == pre.dma_block_line_length
                &&& post.dma_block_line == pre.dma_block_line
                &&& post.dma_block_column == pre.dma_block_column
                &&& post.current_block == pre.current_block
            },
            MdecCommand::NoFunction => {
                &&& post.data_in_fifo@ == fifo_in
                &&& post.iq_y == pre.iq_y && post.iq_uv == pre.iq_uv && post.scale_table == pre.scale_table
                &&& post.data_out_fifo@ == pre.data_out_fifo@
                &&& post.dma_block_line_length == pre.dma_block_line_length
                &&& post.dma_block_line == pre.dma_block_line
                &&& post.dma_block_column == pre.dma_block_column
                &&& post.current_block == pre.current_block
            },
        }
    }

    /// The output configuration, the DMA request enables and the parameter count agree.
    pub open spec fn same_config(&self, other: &Mdec) -> bool {
        &&& self.output_depth == other.output_depth
        &&& self.output_signed == other.output_signed
        &&& self.output_bit15 == other.output_bit15
        &&& self.data_in_request == other.data_in_request
        &&& self.data_out_request == other.data_out_request
        &&& self.param_words_remaining == other.param_words_remaining
    }

    /// Load the luminance (and with `color` the chrominance) quantisation table.
    fn load_quant_tables(&mut self, color: bool)
        requires old(self).wf(),
        ensures
            final(self).wf(),
            final(self).same_config(&old(self)),
            final(self).pending_command == old(self).pending_command,
            ({
                let fifo_in = old(self).data_in_fifo@;
                let n = min(32, fifo_in.len() as int);
                let rest = fifo_in.skip(n);
                let n2 = if color { min(32, rest.len() as int) } else { 0 };
                &&& final(self).iq_y@ == table_from(old(self).iq_y@, fifo_in.take(n))
                &&& final(self).iq_uv@ == (if color { table_from(old(self).iq_uv@, rest.take(n2)) } else { old(self).iq_uv@ })
                &&& final(self).data_in_fifo@ == rest.skip(n2)
            }),
            final(self).scale_table == old(self).scale_table,
            final(self).data_out_fifo == old(self).data_out_fifo,
            final(self).dma_block_line_length == old(self).dma_block_line_length,
            final(self).dma_block_line == old(self).dma_block_line,
            final(self).dma_block_column == old(self).dma_block_column,
            final(self).current_block == old(self).current_block,
    {
        let ghost f0 = self.data_in_fifo@;
        let ghost n = min(32, f0.len() as int);
        load_table(&mut self.data_in_fifo, &mut self.iq_y);
        if color {
            let ghost rest = self.data_in_fifo@;
            load_table(&mut self.data_in_fifo, &mut self.iq_uv);
            proof {
                assert(self.data_in_fifo@ =~= f0.skip(n).skip(min(32, rest.len() as int)));
            }
        } else {
            assert(f0.skip(n).skip(0) =~= f0.skip(n));
        }
    }

    /// Load the IDCT scale table.
    fn load_scale_table(&mut self)
        requires old(self).wf(),
        ensures
            final(self).wf(),
            final(self).same_config(&old(self)),
            final(self).pending_command == old(self).pending_command,
            final(self).scale_table@ == scale_from(old(self).scale_table@, old(self).data_in_fifo@.take(min(64, old(self).data_in_fifo@.len() as int))),
            final(self).data_in_fifo@ == old(self).data_in_fifo@.skip(min(64, old(self).data_in_fifo@.len() as int)),
            final(self).iq_y == old(self).iq_y,
            final(self).iq_uv == old(self).iq_uv,
            final(self).data_out_fifo == old(self).data_out_fifo,
            final(self).dma_block_line_length == old(self).dma_block_line_length,
            final(self).dma_block_line == old(self).dma_block_line,
            final(self).dma_block_column == old(self).dma_block_column,
            final(self).current_block == old(self).current_block,
    {
        let ghost f0 = self.data_in_fifo@;
        let ghost t0 = self.scale_table@;
        let mut i: usize = 0;
        while i < 64
            invariant
                i <= 64,
                self.wf(),
                self.same_config(&old(self)),
                self.pending_command == old(self).pending_command,
                f0 == old(self).data_in_fifo@, t0 == old(self).scale_table@,
                self.data_in_fifo@ == f0.skip(min(i as int, f0.len() as int)),
                self.scale_table@ == scale_from(t0, f0.take(min(i as int, f0.len() as int))),
                self.iq_y == old(self).iq_y,
                self.iq_uv == old(self).iq_uv,
                self.data_out_fifo == old(self).data_out_fifo,
                self.dma_block_line_length == old(self).dma_block_line_length,
                self.dma_block_line == old(self).dma_block_line,
                self.dma_block_column == old(self).dma_block_column,
                self.current_block == old(self).current_block,
            decreases 64 - i,
        {
            let ghost before = self.scale_table@;
            let ghost fb = self.data_in_fifo@;
            if let Some(word) = self.data_in_fifo.pop_front() {
                let coef = word as i16;
                let shifted = coef >> 3u16;
                assert(-4096 <= coef >> 3u16 <= 4095) by { crate::bits::lemma_shifts_i16(); }
                let idx = ((i & 7) << 3usize) | ((i >> 3usize) & 7);
                assert(((i & 7) << 3usize) | ((i >> 3usize) & 7) == (i % 8) * 8 + i / 8) by (bit_vector) requires i < 64;
                assert(idx < 64) by (nonlinear_arith) requires idx == (i % 8) * 8 + i / 8, i < 64;
                self.scale_table[idx] = shifted;
                proof {
                    assert((idx % 8) * 8 + idx / 8 == i) by (nonlinear_arith) requires idx == (i % 8) * 8 + i / 8, i < 64;
                    let target = scale_from(t0, f0.take(min(i as int + 1, f0.len() as int)));
                    assert forall|k: int| 0 <= k < 64 implies #[trigger] self.scale_table@[k] == target[k] by {
                        if k != idx {
                            assert((k % 8) * 8 + k / 8 != i) by (nonlinear_arith)
                                requires 0 <= k < 64, k != idx, idx == (i % 8) * 8 + i / 8, i < 64;
                        }
                    }
                    assert(self.data_in_fifo@ =~= f0.skip(min(i as int + 1, f0.len() as int)));
                    assert(self.scale_table@ =~= scale_from(t0, f0.take(min(i as int + 1, f0.len() as int))));
                }
            } else {
                proof {
                    assert(self.scale_table@ =~= scale_from(t0, f0.take(min(i as int + 1, f0.len() as int))));
                }
            }
            i = i + 1;
        }
    }

    /// Run the pending command on the parameters in the input FIFO.
    fn execute_command(&mut self)
        requires old(self).wf(),
        ensures
            final(self).wf(),
            final(self).same_config(&old(self)),
            Mdec::executed(old(self).pending_command, old(self).output_signed, old(self).output_bit15,
                &old(self), old(self).data_in_fifo@, &*final(self)),
    {
        let command = self.pending_command;
        self.pending_command = MdecCommand::NoFunction;
        match command {
            MdecCommand::DecodeMacroblock { depth, signed, bit15, num_words } => {
                self.decode_macroblock(depth, signed, bit15, num_words);
            },
            MdecCommand::SetQuantTable { color } => {
                self.load_quant_tables(color);
            },
            MdecCommand::SetScaleTable => {
                self.load_scale_table();
            },
            MdecCommand::NoFunction => {},
        }
    }

} // impl Mdec

/// The command a word written to the command register starts.
pub open spec fn command_spec(value: u32) -> MdecCommand {
    let cmd = (value >> 29u32) & 7;
    if cmd == 1 {
        MdecCommand::DecodeMacroblock {
            depth: ((value >> 27u32) & 3) as u8,
            signed: value & 0x400_0000 != 0,
            bit15: value & 0x200_0000 != 0,
            num_words: (value & 0xFFFF) as u16,
        }
    } else if cmd == 2 {
        MdecCommand::SetQuantTable { color: value & 1 != 0 }
    } else if cmd == 3 {
        MdecCommand::SetScaleTable
    } else {
        MdecCommand::NoFunction
    }
}

/// Parameter words the command expects (0xFFFF for none).
pub open spec fn param_count_spec(value: u32) -> u16 {
    let cmd = (value >> 29u32) & 7;
    if cmd == 1 {
        (value & 0xFFFF) as u16
    } else if cmd == 2 {
        if value & 1 != 0 { 32 } else { 16 }
    } else if cmd == 3 {
        32
    } else {
        0xFFFF
    }
}

/// A quantisation table loaded from parameter halfwords, two entries each (low byte
/// first); entries without a halfword keep their old value.
pub open spec fn table_from(old: Seq<u8>, words: Seq<u16>) -> Seq<u8> {
    Seq::new(64, |i: int| if i / 2 < words.len() {
        if i % 2 == 0 { (words[i / 2] & 0xFF) as u8 } else { (words[i / 2] >> 8u16) as u8 }
    } else {
        old[i]
    })
}

/// Halfword `i` of the scale parameters, shifted down by 3, is stored transposed at
/// `(i % 8) * 8 + i / 8`; entries without a halfword keep their old value.
pub open spec fn scale_from(old: Seq<i16>, words: Seq<u16>) -> Seq<i16> {
    Seq::new(64, |idx: int| {
        let i = (idx % 8) * 8 + idx / 8;
        if i < words.len() { (words[i] as i16) >> 3u16 } else { old[idx] }
    })
}

pub open spec fn min(a: int, b: int) -> int {
    if a < b { a } else { b }
}

/// The FIFO holds nothing but padding.
fn only_padding(fifo: &VecDeque<u16>) -> (r: bool)
    ensures r == all_padding(fifo@),
{
    let mut i: usize = 0;
    while i < fifo.len()
        invariant
            i <= fifo@.len(),
            forall|k: int| 0 <= k < i ==> #[trigger] fifo@[k] == PADDING,
        decreases fifo@.len() - i,
    {
        if fifo[i] != PADDING {
            return false;
        }
        i = i + 1;
    }
    true
}

/// Fill a quantisation table from up to 32 parameter halfwords, two entries each.
fn load_table(fifo: &mut VecDeque<u16>, table: &mut [u8; 64])
    ensures
        final(table)@ == table_from(old(table)@, old(fifo)@.take(min(32, old(fifo)@.len() as int))),
        final(fifo)@ == old(fifo)@.skip(min(32, old(fifo)@.len() as int)),
{
    let ghost f0 = fifo@;
    let ghost t0 = table@;
    let mut k: usize = 0;
    while k < 32
        invariant
            k <= 32,
            fifo@ == f0.skip(min(k as int, f0.len() as int)),
            table@ == table_from(t0, f0.take(min(k as int, f0.len() as int))),
        decreases 32 - k,
    {
        let i = 2 * k;
        if let Some(word) = fifo.pop_front() {
            table[i] = (word & 0xFF) as u8;
            table[i + 1] = (word >> 8u16) as u8;
            proof {
                assert(fifo@ =~= f0.skip(min(k as int + 1, f0.len() as int)));
                assert(table@ =~= table_from(t0, f0.take(min(k as int + 1, f0.len() as int))));
            }
        } else {
            proof {
                assert(table@ =~= table_from(t0, f0.take(min(k as int + 1, f0.len() as int))));
            }
        }
        k = k + 1;
    }
}

} // verus!
