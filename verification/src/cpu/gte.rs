//! Coprocessor 2, the Geometry Transformation Engine: fixed-point vector, matrix and colour
//! arithmetic with saturation flags.
use vstd::prelude::*;
use crate::cpu::gte_div::gte_divide;
use crate::cpu::gte_flags::{with_flag, flags_grow, lemma_with_flag_grows, flag_or, lemma_flag_or};

verus! {

broadcast use {crate::cpu::gte_flags::lemma_flags_grow_trans, crate::cpu::gte_flags::lemma_flags_grow_refl};

/// Index of a GTE register: 0..31 are data registers, 32..63 control registers.
#[derive(Debug, Clone, Copy)]
pub struct GteRegister(pub u8);

/// A 3x3 matrix of signed fixed-point entries.
#[derive(Debug, Clone, Copy)]
pub struct Matrix(pub [[i32; 3]; 3]);

/// A 3-component vector.
#[derive(Debug, Clone, Copy)]
pub struct Vector(pub [i32; 3]);

/// The GTE register file.
pub struct Gte {
    pub data: [u32; 32],
    pub control: [u32; 32],
}

/// Sign-extend the low 16 bits of `v` to 32 bits.
pub open spec fn sext16(v: u32) -> u32 {
    v as i16 as i32 as u32
}

/// The IRGB register packing of IR1..IR3: each component divided by 80h and saturated to 0..1Fh.
pub open spec fn irgb_component(ir: i16) -> u32 {
    if ir < 0 {
        0
    } else if (ir as int) / 0x80 > 0x1F {
        0x1F
    } else {
        ((ir as int) / 0x80) as u32
    }
}

/// Count of leading sign bits of `v`: leading zeros when nonnegative, leading ones when
/// negative (32 for zero).
pub open spec fn leading_sign_count(v: u32) -> u32 {
    if v == 0 {
        32
    } else if v & 0x8000_0000 != 0 {
        vstd::std_specs::bits::u32_leading_ones(v)
    } else {
        vstd::std_specs::bits::u32_leading_zeros(v)
    }
}

/// FLAG (cop2r63): bits 0..11 read as zero, bit 31 is the OR of bits 13..18 and 23..30.
pub open spec fn flag_value(raw: u32) -> u32 {
    let masked = raw & !0xFFFu32;
    let err = ((masked >> 13u32) & 0x3F) | ((masked >> 23u32) & 0xFF);
    if err != 0 {
        masked | 0x8000_0000
    } else {
        masked & !0x8000_0000u32
    }
}

impl Gte {
    /// What reading register `reg` returns: some registers are sign-extended, masked or derived.
    pub open spec fn register_value(&self, reg: u8) -> u32 {
        let d = self.data@;
        let c = self.control@;
        if reg == 1 || reg == 3 || reg == 5 || reg == 8 || reg == 9 || reg == 10 || reg == 11 {
            sext16(d[reg as int])
        } else if reg == 7 || reg == 16 || reg == 17 || reg == 18 || reg == 19 {
            d[reg as int] & 0xFFFF
        } else if reg == 15 {
            d[14]
        } else if reg == 28 || reg == 29 {
            d[28] & 0x7FFF
        } else if reg == 31 {
            leading_sign_count(d[30])
        } else if reg == 36 || reg == 44 || reg == 52 || reg == 58 || reg == 59 || reg == 61 || reg
            == 62 {
            sext16(c[reg - 32])
        } else if reg == 63 {
            flag_value(c[31])
        } else if reg < 32 {
            d[reg as int]
        } else {
            c[reg - 32]
        }
    }

    /// Data registers after storing IR1..IR3 (and the derived IRGB).
    pub open spec fn data_with_ir(d: Seq<u32>, ir1: i16, ir2: i16, ir3: i16) -> Seq<u32> {
        d.update(9, ir1 as u32).update(10, ir2 as u32).update(11, ir3 as u32).update(
            28,
            irgb_component(ir1) | (irgb_component(ir2) << 5u32) | (irgb_component(ir3) << 10u32),
        )
    }

    /// Data registers after a write of `value` to register `reg`.
    pub open spec fn data_after_write(&self, reg: u8, value: u32) -> Seq<u32> {
        let d = self.data@;
        if reg == 9 {
            Self::data_with_ir(d, value as i16, d[10] as i16, d[11] as i16)
        } else if reg == 10 {
            Self::data_with_ir(d, d[9] as i16, value as i16, d[11] as i16)
        } else if reg == 11 {
            Self::data_with_ir(d, d[9] as i16, d[10] as i16, value as i16)
        } else if reg == 15 {
            d.update(12, d[13]).update(13, d[14]).update(14, value)
        } else if reg == 28 {
            Self::data_with_ir(
                d,
                ((value & 0x1F) * 0x80) as i16,
                (((value >> 5u32) & 0x1F) * 0x80) as i16,
                (((value >> 10u32) & 0x1F) * 0x80) as i16,
            )
        } else if reg < 32 {
            d.update(reg as int, value)
        } else {
            d
        }
    }

    /// Control registers after a write of `value` to register `reg`.
    pub open spec fn control_after_write(&self, reg: u8, value: u32) -> Seq<u32> {
        if 32 <= reg < 64 {
            self.control@.update(reg - 32, value)
        } else {
            self.control@
        }
    }
}


/// Low halfword.
pub open spec fn lsbs_spec(v: u32) -> u16 { v as u16 }
/// High halfword.
pub open spec fn msbs_spec(v: u32) -> u16 { (v >> 16u32) as u16 }

fn lsbs(value: u32) -> (r: u16)
    ensures r == lsbs_spec(value),
{
    value as u16
}

fn msbs(value: u32) -> (r: u16)
    ensures r == msbs_spec(value),
{
    (value >> 16u32) as u16
}

/// Clamp `v` into `[lo, hi]`.
pub open spec fn clamp_spec(v: int, lo: int, hi: int) -> int {
    if v < lo { lo } else if v > hi { hi } else { v }
}

fn clamp_i64(v: i64, lo: i64, hi: i64) -> (r: i64)
    requires lo <= hi,
    ensures r == clamp_spec(v as int, lo as int, hi as int),
{
    if v < lo { lo } else if v > hi { hi } else { v }
}

/// IR saturation: to 0..7FFFh when `lm`, else to -8000h..7FFFh.
pub open spec fn saturate_to_ir_spec(mac: i64, lm: bool) -> i16 {
    if lm { clamp_spec(mac as int, 0, 0x7FFF) as i16 } else { clamp_spec(mac as int, -0x8000, 0x7FFF) as i16 }
}

pub fn saturate_to_ir(mac: i64, lm: bool) -> (r: i16)
    ensures
        r == saturate_to_ir_spec(mac, lm),
        lm ==> 0 <= r,
        (lm ==> 0 <= mac <= 0x7FFF ==> r == mac) && (!lm ==> -0x8000 <= mac <= 0x7FFF ==> r == mac),
{
    if lm {
        clamp_i64(mac, 0, 0x7FFF) as i16
    } else {
        clamp_i64(mac, -0x8000, 0x7FFF) as i16
    }
}

/// Sign-extending truncation of a value to its low 44 bits.
pub open spec fn wrap44(v: i64) -> i64 {
    let m = ((v as u64) & 0xFFF_FFFF_FFFF) as i64;
    if m >= 0x800_0000_0000 { (m - 0x1000_0000_0000) as i64 } else { m }
}

fn i64_to_i44(val: i64) -> (r: i64)
    ensures
        r == wrap44(val),
        -0x800_0000_0000 <= r < 0x800_0000_0000,
        -0x800_0000_0000 <= val < 0x800_0000_0000 ==> r == val,
{
    let m = ((val as u64) & 0xFFF_FFFF_FFFF) as i64;
    let r = if m >= 0x800_0000_0000 { m - 0x1000_0000_0000 } else { m };
    proof {
        assert(0 <= (((val as u64) & 0xFFF_FFFF_FFFF) as i64) && (((val as u64) & 0xFFF_FFFF_FFFF) as i64) < 0x1000_0000_0000
            && (-0x800_0000_0000 <= val && val < 0x800_0000_0000 ==> (if (((val as u64) & 0xFFF_FFFF_FFFF) as i64) >= 0x800_0000_0000 { ((((val as u64) & 0xFFF_FFFF_FFFF) as i64) - 0x1000_0000_0000) as i64 } else { (((val as u64) & 0xFFF_FFFF_FFFF) as i64) }) == val)) by (bit_vector);
    }
    r
}

/// Sign-extend a 32-bit register to 64 bits.
pub open spec fn s32_spec(v: u32) -> i64 { v as i32 as i64 }

/// Sign-extended halfwords lie in the 16-bit signed range and keep their low 16 bits.
pub proof fn lemma_sext16_facts()
    by (bit_vector)
    ensures
        forall|x: u32| -0x8000 <= #[trigger] (sext16(x) as i32) <= 0x7FFF,
        forall|y: u32| (#[trigger] sext16(y) as i16) == (y as i16),
        forall|z: u32| -0x8000 <= #[trigger] s32_spec(sext16(z)) <= 0x7FFF,
        forall|w: i16| 0 <= w ==> #[trigger] ((w as u32) as i16) == w,
{
}

fn s32_to_i64(val: u32) -> (r: i64)
    ensures r == s32_spec(val), -0x8000_0000 <= r < 0x8000_0000,
{
    val as i32 as i64
}

/// Truncate to 32 bits and sign-extend back.
pub open spec fn trunc32(v: i64) -> i64 { v as i32 as i64 }

fn truncate_i64_to_32(val: i64) -> (r: i64)
    ensures r == trunc32(val), -0x8000_0000 <= r < 0x8000_0000,
{
    val as i32 as i64
}

pub const MAC_MAX: i64 = 0x7FF_FFFF_FFFF;
pub const MAC_MIN: i64 = -0x800_0000_0000;

/// One accumulation step of the 44-bit MAC: (wrapped sum, positive overflow, negative overflow).
pub open spec fn accumulate_spec(acc: i64, term: i64) -> (i64, bool, bool) {
    let sum = (acc + term) as i64;
    (wrap44(sum), sum > MAC_MAX, sum < MAC_MIN)
}

fn accumulate_mac_term(acc: i64, term: i64) -> (r: (i64, bool, bool))
    requires
        -0x1_0000_0000_0000 <= acc <= 0x1_0000_0000_0000,
        -0x1_0000_0000_0000 <= term <= 0x1_0000_0000_0000,
    ensures
        r == accumulate_spec(acc, term),
        -0x800_0000_0000 <= r.0 < 0x800_0000_0000,
{
    let sum = acc + term;
    let pos = sum > MAC_MAX;
    let neg = sum < MAC_MIN;
    (i64_to_i44(sum), pos, neg)
}

/// Saturate a 32-bit value to the signed 16-bit range.
pub fn saturate_i16(value: i32) -> (r: i16)
    ensures r == clamp_spec(value as int, -0x8000, 0x7FFF),
{
    if value < -0x8000 { -0x8000 } else if value > 0x7FFF { 0x7FFF } else { value as i16 }
}

/// A matrix entry or vector component fits in a signed 16-bit value.
pub open spec fn small(v: i32) -> bool { -0x8000 <= v <= 0x7FFF }

pub open spec fn matrix_small(m: Matrix) -> bool {
    forall|r: int, c: int| 0 <= r < 3 && 0 <= c < 3 ==> small(#[trigger] m.0[r][c])
}

pub open spec fn vector_small(v: Vector) -> bool {
    forall|i: int| 0 <= i < 3 ==> small(#[trigger] v.0[i])
}

/// Row `row` of the MAC pipeline: translation*1000h, then the three products, each step
/// accumulated and wrapped to 44 bits; returns (value, any positive overflow, any negative).
pub open spec fn mac_row_spec(m: Matrix, v: Vector, t: Vector, row: int) -> (i64, bool, bool) {
    let a0 = accumulate_spec(0, (t.0[row] as i64 * 0x1000) as i64);
    let a1 = accumulate_spec(a0.0, (m.0[row][0] as i64 * v.0[0] as i64) as i64);
    let a2 = accumulate_spec(a1.0, (m.0[row][1] as i64 * v.0[1] as i64) as i64);
    let a3 = accumulate_spec(a2.0, (m.0[row][2] as i64 * v.0[2] as i64) as i64);
    (a3.0, a0.1 || a1.1 || a2.1 || a3.1, a0.2 || a1.2 || a2.2 || a3.2)
}

fn mac_row(matrix: &Matrix, vector: &Vector, translation: &Vector, row: usize) -> (r: (i64, bool, bool))
    requires
        row < 3,
        matrix_small(*matrix),
        vector_small(*vector),
    ensures
        r == mac_row_spec(*matrix, *vector, *translation, row as int),
        -0x800_0000_0000 <= r.0 < 0x800_0000_0000,
{
    let ghost ri = row as int;
    assert(small(matrix.0[ri][0]) && small(matrix.0[ri][1]) && small(matrix.0[ri][2]));
    assert(small(vector.0[0]) && small(vector.0[1]) && small(vector.0[2]));
    let t = translation.0[row] as i64 * 0x1000;
    let (res, p0, n0) = accumulate_mac_term(0, t);
    let m0 = matrix.0[row][0] as i64;
    let v0 = vector.0[0] as i64;
    assert(-0x4000_0000 <= m0 * v0 <= 0x4000_0000) by (nonlinear_arith)
        requires -0x8000 <= m0 <= 0x7FFF, -0x8000 <= v0 <= 0x7FFF;
    let (res, p1, n1) = accumulate_mac_term(res, m0 * v0);
    let m1 = matrix.0[row][1] as i64;
    let v1 = vector.0[1] as i64;
    assert(-0x4000_0000 <= m1 * v1 <= 0x4000_0000) by (nonlinear_arith)
        requires -0x8000 <= m1 <= 0x7FFF, -0x8000 <= v1 <= 0x7FFF;
    let (res, p2, n2) = accumulate_mac_term(res, m1 * v1);
    let m2 = matrix.0[row][2] as i64;
    let v2 = vector.0[2] as i64;
    assert(-0x4000_0000 <= m2 * v2 <= 0x4000_0000) by (nonlinear_arith)
        requires -0x8000 <= m2 <= 0x7FFF, -0x8000 <= v2 <= 0x7FFF;
    let (res, p3, n3) = accumulate_mac_term(res, m2 * v2);
    (res, p0 || p1 || p2 || p3, n0 || n1 || n2 || n3)
}

/// MAC1..3 = (T*1000h + M*V) per row with 44-bit wrapping, plus per-row overflow flags.
fn matrix_vector_mac(matrix: &Matrix, vector: &Vector, translation: &Vector) -> (r: ([i64; 3], [bool; 3], [bool; 3]))
    requires
        matrix_small(*matrix),
        vector_small(*vector),
    ensures
        forall|i: int| 0 <= i < 3 ==> (#[trigger] r.0[i], r.1[i], r.2[i]) == mac_row_spec(*matrix, *vector, *translation, i),
        forall|i: int| 0 <= i < 3 ==> -0x800_0000_0000 <= #[trigger] r.0[i] < 0x800_0000_0000,
{
    let (m0, p0, n0) = mac_row(matrix, vector, translation, 0);
    let (m1, p1, n1) = mac_row(matrix, vector, translation, 1);
    let (m2, p2, n2) = mac_row(matrix, vector, translation, 2);
    let r = ([m0, m1, m2], [p0, p1, p2], [n0, n1, n2]);
    assert(r.0@ =~= seq![m0, m1, m2]);
    r
}

/// Row `row` of the outer product IR x D: two accumulation steps.
pub open spec fn op_row_spec(d: [i32; 3], ir: [i32; 3], pi: int, pd: int, ni: int, nd: int) -> (i64, bool, bool) {
    let a0 = accumulate_spec(0, (ir[pi] as i64 * d[pd] as i64) as i64);
    let a1 = accumulate_spec(a0.0, (-(ir[ni] as i64 * d[nd] as i64)) as i64);
    (a1.0, a0.1 || a1.1, a0.2 || a1.2)
}

/// One OP row is the difference of its two products, with no MAC overflow.
proof fn lemma_op_row(d: [i32; 3], ir: [i32; 3], pi: int, pd: int, ni: int, nd: int)
    requires
        forall|i: int| 0 <= i < 3 ==> small(#[trigger] d[i]) && small(ir[i]),
        0 <= pi < 3 && 0 <= pd < 3 && 0 <= ni < 3 && 0 <= nd < 3,
    ensures
        op_row_spec(d, ir, pi, pd, ni, nd) == ((ir[pi] * d[pd] - ir[ni] * d[nd]) as i64, false, false),
        -0x8000_0000 <= ir[pi] * d[pd] - ir[ni] * d[nd] <= 0x8000_0000,
{
    crate::bits::lemma_hardware_arith();
    let (a, b, c, e) = (ir[pi] as int, d[pd] as int, ir[ni] as int, d[nd] as int);
    assert(small(d[pi]) && small(d[pd]) && small(d[ni]) && small(d[nd]));
    assert(small(ir[pi]) && small(ir[ni]));
    assert(-0x4000_0000 <= a * b <= 0x4000_0000) by (nonlinear_arith) requires -0x8000 <= a <= 0x7FFF, -0x8000 <= b <= 0x7FFF;
    assert(-0x4000_0000 <= c * e <= 0x4000_0000) by (nonlinear_arith) requires -0x8000 <= c <= 0x7FFF, -0x8000 <= e <= 0x7FFF;
    assert(wrap44((a * b) as i64) == (a * b) as i64);
    assert(wrap44((a * b - c * e) as i64) == (a * b - c * e) as i64);
}

/// OP's rows form the cross product of IR with the RT diagonal D:
/// [IR3*D2 - IR2*D3, IR1*D3 - IR3*D1, IR2*D1 - IR1*D2], with no MAC overflow for 16-bit
/// inputs. It is antisymmetric: swapping the two terms of a row negates it, so a vector
/// crossed with itself gives zero.
pub proof fn lemma_outer_product(d: [i32; 3], ir: [i32; 3])
    requires
        forall|i: int| 0 <= i < 3 ==> small(#[trigger] d[i]) && small(ir[i]),
    ensures
        op_row_spec(d, ir, 2, 1, 1, 2) == ((ir[2] * d[1] - ir[1] * d[2]) as i64, false, false),
        op_row_spec(d, ir, 0, 2, 2, 0) == ((ir[0] * d[2] - ir[2] * d[0]) as i64, false, false),
        op_row_spec(d, ir, 1, 0, 0, 1) == ((ir[1] * d[0] - ir[0] * d[1]) as i64, false, false),
        forall|pi: int, pd: int, ni: int, nd: int| 0 <= pi < 3 && 0 <= pd < 3 && 0 <= ni < 3 && 0 <= nd < 3 ==>
            #[trigger] op_row_spec(d, ir, pi, pd, ni, nd).0 == -op_row_spec(d, ir, ni, nd, pi, pd).0,
        d == ir ==> op_row_spec(d, ir, 2, 1, 1, 2).0 == 0 && op_row_spec(d, ir, 0, 2, 2, 0).0 == 0
            && op_row_spec(d, ir, 1, 0, 0, 1).0 == 0,
{
    lemma_op_row(d, ir, 2, 1, 1, 2);
    lemma_op_row(d, ir, 0, 2, 2, 0);
    lemma_op_row(d, ir, 1, 0, 0, 1);
    assert forall|pi: int, pd: int, ni: int, nd: int| 0 <= pi < 3 && 0 <= pd < 3 && 0 <= ni < 3 && 0 <= nd < 3 implies
        #[trigger] op_row_spec(d, ir, pi, pd, ni, nd).0 == -op_row_spec(d, ir, ni, nd, pi, pd).0 by {
        lemma_op_row(d, ir, pi, pd, ni, nd);
        lemma_op_row(d, ir, ni, nd, pi, pd);
    }
    if d == ir {
        let (x, y, z) = (ir[0] as int, ir[1] as int, ir[2] as int);
        assert(z * y - y * z == 0 && x * z - z * x == 0 && y * x - x * y == 0) by (nonlinear_arith);
    }
}

fn op_row(d: &[i32; 3], ir: &[i32; 3], pi: usize, pd: usize, ni: usize, nd: usize) -> (r: (i64, bool, bool))
    requires
        pi < 3 && pd < 3 && ni < 3 && nd < 3,
        forall|i: int| 0 <= i < 3 ==> small(#[trigger] d[i]) && small(ir[i]),
    ensures
        r == op_row_spec(*d, *ir, pi as int, pd as int, ni as int, nd as int),
{
    let a = ir[pi] as i64;
    let b = d[pd] as i64;
    assert(small(d[pi as int]) && small(d[pd as int]) && small(d[ni as int]) && small(d[nd as int]));
    assert(small(ir[pi as int]) && small(ir[ni as int]));
    assert(-0x4000_0000 <= a * b <= 0x4000_0000) by (nonlinear_arith)
        requires -0x8000 <= a <= 0x7FFF, -0x8000 <= b <= 0x7FFF;
    let (res, p0, n0) = accumulate_mac_term(0, a * b);
    let c = ir[ni] as i64;
    let e = d[nd] as i64;
    assert(-0x4000_0000 <= c * e <= 0x4000_0000) by (nonlinear_arith)
        requires -0x8000 <= c <= 0x7FFF, -0x8000 <= e <= 0x7FFF;
    let (res, p1, n1) = accumulate_mac_term(res, -(c * e));
    (res, p0 || p1, n0 || n1)
}

/// Outer product [IR3*D2-IR2*D3, IR1*D3-IR3*D1, IR2*D1-IR1*D2] with overflow flags.
fn matrix_vector_op(d: [i32; 3], ir: [i32; 3]) -> (r: ([i64; 3], [bool; 3], [bool; 3]))
    requires
        forall|i: int| 0 <= i < 3 ==> small(#[trigger] d[i]) && small(ir[i]),
    ensures
        (r.0[0], r.1[0], r.2[0]) == op_row_spec(d, ir, 2, 1, 1, 2),
        (r.0[1], r.1[1], r.2[1]) == op_row_spec(d, ir, 0, 2, 2, 0),
        (r.0[2], r.1[2], r.2[2]) == op_row_spec(d, ir, 1, 0, 0, 1),
{
    let (m0, p0, n0) = op_row(&d, &ir, 2, 1, 1, 2);
    let (m1, p1, n1) = op_row(&d, &ir, 0, 2, 2, 0);
    let (m2, p2, n2) = op_row(&d, &ir, 1, 0, 0, 1);
    ([m0, m1, m2], [p0, p1, p2], [n0, n1, n2])
}

fn sign_extend_s16(s16: u32) -> (r: u32)
    ensures r == sext16(s16),
{
    s16 as i16 as i32 as u32
}

impl Gte {
    pub fn new() -> (r: Self)
        ensures
            forall|i: int| 0 <= i < 32 ==> r.data@[i] == 0 && r.control@[i] == 0,
    {
        Self { data: [0; 32], control: [0; 32] }
    }

    fn ir0(&self) -> (r: u32)
        ensures r == sext16(self.data@[8]),
    {
        sign_extend_s16(self.data[8])
    }

    fn ir1(&self) -> (r: u32)
        ensures r == sext16(self.data@[9]),
    {
        sign_extend_s16(self.data[9])
    }

    fn ir2(&self) -> (r: u32)
        ensures r == sext16(self.data@[10]),
    {
        sign_extend_s16(self.data[10])
    }

    fn ir3(&self) -> (r: u32)
        ensures r == sext16(self.data@[11]),
    {
        sign_extend_s16(self.data[11])
    }

    /// Writing SXYP pushes the screen XY FIFO: SXY1 -> SXY0, SXY2 -> SXY1, value -> SXY2.
    fn set_sxyp(&mut self, value: u32)
        ensures
            final(self).data@ == old(self).data@.update(12, old(self).data@[13]).update(13, old(self).data@[14]).update(14, value),
            final(self).control@ == old(self).control@,
    {
        self.data[12] = self.data[13];
        self.data[13] = self.data[14];
        self.data[14] = value;
        assert(self.data@ =~= old(self).data@.update(12, old(self).data@[13]).update(13, old(self).data@[14]).update(14, value));
    }

    fn set_ir123(&mut self, ir1: i16, ir2: i16, ir3: i16)
        ensures
            final(self).data@ == Self::data_with_ir(old(self).data@, ir1, ir2, ir3),
            final(self).control@ == old(self).control@,
    {
        self.data[9] = ir1 as u32;
        self.data[10] = ir2 as u32;
        self.data[11] = ir3 as u32;
        let r = Self::irgb_part(ir1);
        let g = Self::irgb_part(ir2);
        let b = Self::irgb_part(ir3);
        self.data[28] = r | (g << 5u32) | (b << 10u32);
        assert(self.data@ =~= Self::data_with_ir(old(self).data@, ir1, ir2, ir3));
    }

    fn irgb_part(ir: i16) -> (r: u32)
        ensures r == irgb_component(ir), r <= 0x1F,
    {
        if ir < 0 {
            0
        } else {
            let q = (ir as u32) / 0x80;
            if q > 0x1F { 0x1F } else { q }
        }
    }

    /// Writing IRGB expands its 5:5:5 components (times 80h) into IR1..IR3.
    fn set_irgb(&mut self, value: u32)
        ensures
            final(self).data@ == Self::data_with_ir(
                old(self).data@,
                ((value & 0x1F) * 0x80) as i16,
                (((value >> 5u32) & 0x1F) * 0x80) as i16,
                (((value >> 10u32) & 0x1F) * 0x80) as i16,
            ),
            final(self).control@ == old(self).control@,
    {
        assert(value & 0x1F <= 0x1F && (value >> 5u32) & 0x1F <= 0x1F && (value >> 10u32) & 0x1F <= 0x1F) by { crate::bits::lemma_and_bounds(); }
        let r = (value & 0x1F) * 0x80;
        let g = ((value >> 5u32) & 0x1F) * 0x80;
        let b = ((value >> 10u32) & 0x1F) * 0x80;
        self.set_ir123(r as i16, g as i16, b as i16);
    }

    fn lzcr(&self) -> (r: u32)
        ensures r == leading_sign_count(self.data@[30]),
    {
        let lzcs = self.data[30];
        if lzcs == 0 {
            32
        } else if (lzcs & 0x8000_0000) != 0 {
            lzcs.leading_ones()
        } else {
            lzcs.leading_zeros()
        }
    }

    fn flag(&self) -> (r: u32)
        ensures r == flag_value(self.control@[31]),
    {
        let masked_low = self.control[31] & !0xFFFu32;
        let err = ((masked_low >> 13u32) & 0x3F) | ((masked_low >> 23u32) & 0xFF);
        if err != 0 {
            masked_low | 0x8000_0000
        } else {
            masked_low & !0x8000_0000u32
        }
    }
}

// Register access.
impl Gte {
    pub fn read_register(&self, reg: GteRegister) -> (r: u32)
        requires
            reg.0 < 64,
        ensures
            r == self.register_value(reg.0),
    {
        let i = reg.0;
        if i == 1 || i == 3 || i == 5 || i == 8 || i == 9 || i == 10 || i == 11 {
            sign_extend_s16(self.data[i as usize])
        } else if i == 7 || i == 16 || i == 17 || i == 18 || i == 19 {
            self.data[i as usize] & 0xFFFF
        } else if i == 15 {
            self.data[14]
        } else if i == 28 || i == 29 {
            self.data[28] & 0x7FFF
        } else if i == 31 {
            self.lzcr()
        } else if i == 36 || i == 44 || i == 52 || i == 58 || i == 59 || i == 61 || i == 62 {
            sign_extend_s16(self.control[(i - 32) as usize])
        } else if i == 63 {
            self.flag()
        } else if i < 32 {
            self.data[i as usize]
        } else {
            self.control[(i - 32) as usize]
        }
    }

    pub fn write_register(&mut self, reg: GteRegister, value: u32)
        requires
            reg.0 < 64,
        ensures
            final(self).data@ == old(self).data_after_write(reg.0, value),
            final(self).control@ == old(self).control_after_write(reg.0, value),
    {
        let i = reg.0;
        if i == 9 {
            let ir2 = self.data[10] as i16;
            let ir3 = self.data[11] as i16;
            self.set_ir123(value as i16, ir2, ir3);
        } else if i == 10 {
            let ir1 = self.data[9] as i16;
            let ir3 = self.data[11] as i16;
            self.set_ir123(ir1, value as i16, ir3);
        } else if i == 11 {
            let ir1 = self.data[9] as i16;
            let ir2 = self.data[10] as i16;
            self.set_ir123(ir1, ir2, value as i16);
        } else if i == 15 {
            self.set_sxyp(value);
        } else if i == 28 {
            self.set_irgb(value);
        } else if i < 32 {
            self.data[i as usize] = value;
            assert(self.data@ =~= old(self).data@.update(i as int, value));
        } else {
            self.control[(i - 32) as usize] = value;
            assert(self.control@ =~= old(self).control@.update(i - 32, value));
        }
    }
}


/// Matrix entries read from packed halfword registers.
pub open spec fn h(v: u16) -> i32 { v as i16 as i32 }

impl Gte {
    /// The register file is the fixed 32 + 32 words.
    pub open spec fn wf(&self) -> bool { self.data@.len() == 32 && self.control@.len() == 32 }

    fn raise_flag(&mut self, bit: u32)
        requires bit < 32,
        ensures
            final(self).control@ == with_flag(old(self).control@, bit),
            final(self).data@ == old(self).data@,
            flags_grow(old(self).control@, final(self).control@),
    {
        self.control[31] = self.control[31] | (1u32 << bit);
        assert(self.control@ =~= with_flag(old(self).control@, bit));
        proof { lemma_with_flag_grows(old(self).control@, bit); }
    }

    /// Raise the divide-overflow flag (bit 17) when the division overflowed or SZ3 is zero.
    fn raise_divide_flags(&mut self, div_overflow: bool, sz3_zero: bool)
        requires old(self).wf(),
        ensures
            final(self).wf(),
            final(self).data@ == old(self).data@,
            flags_grow(old(self).control@, final(self).control@),
            div_overflow ==> final(self).control@[31] & 0x2_0000 != 0,
    {
        if div_overflow {
            self.raise_flag(17);
            proof { crate::bits::lemma_or_and(); }
        }
        let ghost c = self.control@;
        if sz3_zero {
            self.raise_flag(17);
            proof { if div_overflow { lemma_divide_flag_kept(c, self.control@); } }
        }
    }

    /// MAC1..3 44-bit overflow: bits 30..28 (positive) and 27..25 (negative).
    fn set_mac_overflow(&mut self, mac_index: usize, positive: bool)
        requires mac_index < 3,
        ensures
            final(self).control@ == with_flag(old(self).control@, if positive { (30 - mac_index) as u32 } else { (27 - mac_index) as u32 }),
            final(self).data@ == old(self).data@,
            flags_grow(old(self).control@, final(self).control@),
    {
        let bit = if positive { 30 - mac_index as u32 } else { 27 - mac_index as u32 };
        self.raise_flag(bit);
    }

    /// MAC0 32-bit overflow: bit 16 (positive) or 15 (negative).
    fn check_mac0_overflow(&mut self, value: i64)
        ensures
            final(self).control@ == (if value > 0x7FFF_FFFF { with_flag(old(self).control@, 16) } else if value < -0x8000_0000 { with_flag(old(self).control@, 15) } else { old(self).control@ }),
            final(self).data@ == old(self).data@,
            flags_grow(old(self).control@, final(self).control@),
    {
        if value > 0x7FFF_FFFF {
            self.raise_flag(16);
        } else if value < -0x8000_0000 {
            self.raise_flag(15);
        }
    }

    fn check_mac123_overflow(&mut self, mac_index: usize, value: i64)
        requires mac_index < 3,
        ensures
            final(self).control@ == (if value > MAC_MAX { with_flag(old(self).control@, (30 - mac_index) as u32) } else if value < MAC_MIN { with_flag(old(self).control@, (27 - mac_index) as u32) } else { old(self).control@ }),
            final(self).data@ == old(self).data@,
            flags_grow(old(self).control@, final(self).control@),
    {
        if value > MAC_MAX {
            self.set_mac_overflow(mac_index, true);
        } else if value < MAC_MIN {
            self.set_mac_overflow(mac_index, false);
        }
    }

    /// IR0 saturation is bit 12; IR1..IR3 saturation bits 24..22.
    fn set_ir_saturation(&mut self, ir_index: usize)
        requires ir_index < 4,
        ensures
            final(self).control@ == with_flag(old(self).control@, if ir_index == 0 { 12u32 } else { (25 - ir_index) as u32 }),
            final(self).data@ == old(self).data@,
            flags_grow(old(self).control@, final(self).control@),
    {
        let bit = if ir_index == 0 { 12 } else { 25 - ir_index as u32 };
        self.raise_flag(bit);
    }

    /// Saturate a MAC value into IR`ir_index`'s range, raising its flag when clamped.
    fn check_and_saturate_ir(&mut self, ir_index: usize, value: i64, lm: bool) -> (r: i16)
        requires 1 <= ir_index < 4,
        ensures
            r == saturate_to_ir_spec(value, lm),
            final(self).control@ == (if (lm && (value < 0 || value > 0x7FFF)) || (!lm && (value < -0x8000 || value > 0x7FFF)) { with_flag(old(self).control@, (25 - ir_index) as u32) } else { old(self).control@ }),
            final(self).data@ == old(self).data@,
            flags_grow(old(self).control@, final(self).control@),
    {
        let lo: i64 = if lm { 0 } else { -0x8000 };
        if value < lo || value > 0x7FFF {
            self.set_ir_saturation(ir_index);
        }
        saturate_to_ir(value, lm)
    }

    /// Push a new SZ3, shifting the Z FIFO down (SZ1 -> SZ0, SZ2 -> SZ1, SZ3 -> SZ2).
    fn push_sz(&mut self, value: u32)
        ensures
            final(self).data@ == old(self).data@.update(16, old(self).data@[17]).update(17, old(self).data@[18]).update(18, old(self).data@[19]).update(19, value),
            final(self).control@ == old(self).control@,
    {
        self.data[16] = self.data[17];
        self.data[17] = self.data[18];
        self.data[18] = self.data[19];
        self.data[19] = value;
        assert(self.data@ =~= old(self).data@.update(16, old(self).data@[17]).update(17, old(self).data@[18]).update(18, old(self).data@[19]).update(19, value));
    }

    /// Push a colour onto the RGB FIFO (RGB1 -> RGB0, RGB2 -> RGB1, new -> RGB2).
    fn push_rgb(&mut self, value: u32)
        ensures
            final(self).data@ == old(self).data@.update(20, old(self).data@[21]).update(21, old(self).data@[22]).update(22, value),
            final(self).control@ == old(self).control@,
    {
        self.data[20] = self.data[21];
        self.data[21] = self.data[22];
        self.data[22] = value;
        assert(self.data@ =~= old(self).data@.update(20, old(self).data@[21]).update(21, old(self).data@[22]).update(22, value));
    }

    fn matrix_at(&self, base: usize) -> (r: Matrix)
        requires base + 5 <= 32,
        ensures
            matrix_small(r),
            r == matrix_from(self.control@, base as int),
    {
        let c0 = self.control[base];
        let c1 = self.control[base + 1];
        let c2 = self.control[base + 2];
        let c3 = self.control[base + 3];
        let c4 = self.control[base + 4];
        Matrix([
            [lsbs(c0) as i16 as i32, msbs(c0) as i16 as i32, lsbs(c1) as i16 as i32],
            [msbs(c1) as i16 as i32, lsbs(c2) as i16 as i32, msbs(c2) as i16 as i32],
            [lsbs(c3) as i16 as i32, msbs(c3) as i16 as i32, lsbs(c4) as i16 as i32],
        ])
    }

    /// Rotation matrix RT (cop2r32..36).
    fn get_rt(&self) -> (r: Matrix)
        ensures matrix_small(r), r == matrix_from(self.control@, 0),
    {
        self.matrix_at(0)
    }

    /// Light matrix LLM (cop2r40..44).
    fn get_llm(&self) -> (r: Matrix)
        ensures matrix_small(r), r == matrix_from(self.control@, 8),
    {
        self.matrix_at(8)
    }

    /// Light colour matrix LCM (cop2r48..52).
    fn get_lcm(&self) -> (r: Matrix)
        ensures matrix_small(r), r == matrix_from(self.control@, 16),
    {
        self.matrix_at(16)
    }

    /// MVMVA's "matrix 3": -R*10h, R*10h, IR0 / RT13 x3 / RT22 x3, where R is the LSB of RGBC.
    fn get_garbage_matrix(&self) -> (r: Matrix)
        ensures
            matrix_small(r),
            r == garbage_matrix(self.data@, self.control@),
    {
        let rt = self.get_rt();
        let d6 = self.data[6];
        let r = (d6 & 0xFF) as i32;
        assert(d6 & 0xFF <= 0xFF) by { crate::bits::lemma_and_bounds(); }
        let rt13 = rt.0[0][2];
        let rt22 = rt.0[1][1];
        assert(small(rt.0[0][2]) && small(rt.0[1][1]));
        let ir0 = self.ir0() as i32;
        assert(forall|x: u32| -0x8000 <= #[trigger] (sext16(x) as i32) <= 0x7FFF) by { lemma_sext16_facts(); }
        Matrix([[-r * 0x10, r * 0x10, ir0], [rt13, rt13, rt13], [rt22, rt22, rt22]])
    }

    fn select_matrix(&self, mx: u8) -> (r: Matrix)
        requires mx < 4,
        ensures
            matrix_small(r),
            r == select_matrix_spec(self.data@, self.control@, mx),
    {
        match mx {
            0 => self.get_rt(),
            1 => self.get_llm(),
            2 => self.get_lcm(),
            _ => self.get_garbage_matrix(),
        }
    }

    /// V0..V2 (XY packed in one register, Z sign-extended in the next) or [IR1, IR2, IR3].
    fn select_vector(&self, vx: u8) -> (r: Vector)
        requires vx < 4,
        ensures
            vector_small(r),
            r == select_vector_spec(self.data@, vx),
    {
        proof {
            assert(forall|x: u32| -0x8000 <= #[trigger] (sext16(x) as i32) <= 0x7FFF) by { lemma_sext16_facts(); }
        }
        if vx < 3 {
            let b = (vx as usize) * 2;
            let xy = self.data[b];
            let z = sign_extend_s16(self.data[b + 1]) as i32;
            Vector([lsbs(xy) as i16 as i32, msbs(xy) as i16 as i32, z])
        } else {
            Vector([self.ir1() as i32, self.ir2() as i32, self.ir3() as i32])
        }
    }

    /// TR, BK, FC or the zero vector.
    fn select_translation(&self, tx: u8) -> (r: Vector)
        requires tx < 4,
        ensures r == select_translation_spec(self.control@, tx),
    {
        if tx < 3 {
            let b = 5 + (tx as usize) * 8;
            Vector([self.control[b] as i32, self.control[b + 1] as i32, self.control[b + 2] as i32])
        } else {
            Vector([0, 0, 0])
        }
    }

    fn current_ir_i16(&self) -> (r: [i16; 3])
        ensures r@ == seq![self.data@[9] as i16, self.data@[10] as i16, self.data@[11] as i16],
    {
        let r = [self.ir1() as i16, self.ir2() as i16, self.ir3() as i16];
        assert(forall|x: u32| (sext16(x) as i16) == (x as i16)) by { lemma_sext16_facts(); }
        assert(r@ =~= seq![self.data@[9] as i16, self.data@[10] as i16, self.data@[11] as i16]);
        r
    }

    /// The MAC pipeline shared by MVMVA and the colour commands: M*V + T*1000h with 44-bit
    /// overflow flags, shifted by sf*12, truncated to 32 bits and saturated into IR1..3.
    /// Returns (raw MAC, shifted MAC, saturated IR).
    fn mac_multiply_add_saturate(&mut self, matrix: &Matrix, vector: &Vector, translation: &Vector, sf: bool, lm: bool) -> (r: ([i64; 3], [i64; 3], [i16; 3]))
        requires
            old(self).wf(),
            matrix_small(*matrix),
            vector_small(*vector),
        ensures
            final(self).wf(),
            final(self).data@ == old(self).data@,
            flags_grow(old(self).control@, final(self).control@),
            forall|i: int| 0 <= i < 3 ==> #[trigger] r.0[i] == mac_row_spec(*matrix, *vector, *translation, i).0,
            forall|i: int| 0 <= i < 3 ==> -0x800_0000_0000 <= #[trigger] r.0[i] < 0x800_0000_0000,
            forall|i: int| 0 <= i < 3 ==> #[trigger] r.1[i] == (r.0[i] >> (if sf { 12i64 } else { 0i64 })),
            forall|i: int| 0 <= i < 3 ==> #[trigger] r.2[i] == saturate_to_ir_spec(trunc32(r.1[i]), lm),
    {
        let (mac_raw, pos, neg) = matrix_vector_mac(matrix, vector, translation);
        self.flag_mac_rows(pos, neg);
        let shift: i64 = if sf { 12 } else { 0 };
        let sh = [mac_raw[0] >> shift, mac_raw[1] >> shift, mac_raw[2] >> shift];
        let i0 = self.check_and_saturate_ir(1, truncate_i64_to_32(sh[0]), lm);
        let i1 = self.check_and_saturate_ir(2, truncate_i64_to_32(sh[1]), lm);
        let i2 = self.check_and_saturate_ir(3, truncate_i64_to_32(sh[2]), lm);
        let r = (mac_raw, sh, [i0, i1, i2]);
        assert(forall|i: int| 0 <= i < 3 ==> #[trigger] r.1[i] == (r.0[i] >> shift)) by {
            assert(r.1@ =~= seq![mac_raw[0] >> shift, mac_raw[1] >> shift, mac_raw[2] >> shift]);
        }
        assert(r.2@ =~= seq![i0, i1, i2]);
        r
    }

    /// Raise the MAC1..3 overflow flags reported by a MAC computation.
    fn flag_mac_rows(&mut self, pos: [bool; 3], neg: [bool; 3])
        requires old(self).wf(),
        ensures
            final(self).wf(),
            final(self).data@ == old(self).data@,
            flags_grow(old(self).control@, final(self).control@),
    {
        let mut i: usize = 0;
        while i < 3
            invariant
                i <= 3,
                self.wf(),
                self.data@ == old(self).data@,
                flags_grow(old(self).control@, self.control@),
            decreases 3 - i,
        {
            if pos[i] {
                self.set_mac_overflow(i, true);
            }
            if neg[i] {
                self.set_mac_overflow(i, false);
            }
            i = i + 1;
        }
    }
}

/// A matrix read from five packed control registers starting at `base`.
pub open spec fn matrix_from(c: Seq<u32>, base: int) -> Matrix {
    Matrix([
        [h(lsbs_spec(c[base])), h(msbs_spec(c[base])), h(lsbs_spec(c[base + 1]))],
        [h(msbs_spec(c[base + 1])), h(lsbs_spec(c[base + 2])), h(msbs_spec(c[base + 2]))],
        [h(lsbs_spec(c[base + 3])), h(msbs_spec(c[base + 3])), h(lsbs_spec(c[base + 4]))],
    ])
}

pub open spec fn garbage_matrix(d: Seq<u32>, c: Seq<u32>) -> Matrix {
    let rt = matrix_from(c, 0);
    let r = (d[6] & 0xFF) as i32;
    Matrix([
        [(-r * 0x10) as i32, (r * 0x10) as i32, sext16(d[8]) as i32],
        [rt.0[0][2], rt.0[0][2], rt.0[0][2]],
        [rt.0[1][1], rt.0[1][1], rt.0[1][1]],
    ])
}

pub open spec fn select_matrix_spec(d: Seq<u32>, c: Seq<u32>, mx: u8) -> Matrix {
    if mx == 0 { matrix_from(c, 0) } else if mx == 1 { matrix_from(c, 8) } else if mx == 2 { matrix_from(c, 16) } else { garbage_matrix(d, c) }
}

pub open spec fn select_vector_spec(d: Seq<u32>, vx: u8) -> Vector {
    if vx < 3 {
        let b = vx * 2;
        Vector([h(lsbs_spec(d[b as int])), h(msbs_spec(d[b as int])), sext16(d[b + 1]) as i32])
    } else {
        Vector([sext16(d[9]) as i32, sext16(d[10]) as i32, sext16(d[11]) as i32])
    }
}

pub open spec fn select_translation_spec(c: Seq<u32>, tx: u8) -> Vector {
    if tx < 3 {
        let b = 5 + tx * 8;
        Vector([c[b as int] as i32, c[b + 1] as i32, c[b + 2] as i32])
    } else {
        Vector([0, 0, 0])
    }
}


/// Rust-style (toward zero) division by 1000h.
pub open spec fn tdiv4096(x: i64) -> i64 {
    if x < 0 { (-((-x) / 0x1000)) as i64 } else { (x / 0x1000) as i64 }
}

fn div4096_toward_zero(x: i64) -> (r: i64)
    requires -0x4000_0000_0000_0000 <= x,
    ensures r == tdiv4096(x),
{
    if x < 0 { -((-x) / 0x1000) } else { x / 0x1000 }
}

/// Signed 16-bit halves of the screen XY FIFO entries.
pub open spec fn sx(v: u32) -> i64 { v as u16 as i16 as i64 }
pub open spec fn sy(v: u32) -> i64 { (v >> 16u32) as u16 as i16 as i64 }

/// NCLIP: MAC0 = SX0*(SY1-SY2) + SX1*(SY2-SY0) + SX2*(SY0-SY1).
/// FLAG bits for a MAC0 result: bit 16 above 7FFFFFFFh, bit 15 below -80000000h.
pub open spec fn mac0_flag_bits(v: int) -> u32 {
    if v > 0x7FFF_FFFF { 0x1_0000 } else if v < -0x8000_0000 { 0x8000 } else { 0 }
}

/// FLAG bits of AVSZ3/AVSZ4: MAC0 overflow, and bit 18 when OTZ (MAC0 / 1000h) leaves
/// 0..FFFFh.
pub open spec fn avsz_flag_bits(zsf: i64, sum: i64) -> u32 {
    let mac0 = zsf * sum;
    let otz = tdiv4096(mac0 as i64);
    mac0_flag_bits(mac0) | (if otz < 0 || otz > 0xFFFF { 0x4_0000u32 } else { 0u32 })
}

/// Whether a MAC value, taken as 32 bits, leaves IR's 0..7FFFh range (lm set).
pub open spec fn ir_saturates_lm(m: i64) -> bool {
    trunc32(m) < 0 || trunc32(m) > 0x7FFF
}

/// FLAG bits of SQR: bits 24..22 when IR1..IR3 saturate.
pub open spec fn sqr_flag_bits(d: Seq<u32>, sf: bool) -> u32 {
    ((if ir_saturates_lm(sqr_mac(d, sf, 0)) { 0x100_0000u32 } else { 0u32 })
        | (if ir_saturates_lm(sqr_mac(d, sf, 1)) { 0x80_0000u32 } else { 0u32 }))
        | (if ir_saturates_lm(sqr_mac(d, sf, 2)) { 0x40_0000u32 } else { 0u32 })
}

pub open spec fn nclip_spec(d: Seq<u32>) -> i64 {
    (sx(d[12]) * (sy(d[13]) - sy(d[14])) + sx(d[13]) * (sy(d[14]) - sy(d[12])) + sx(d[14]) * (sy(d[12]) - sy(d[13]))) as i64
}

/// A shaded MAC triple fits comfortably in 45 bits.
pub open spec fn shading_bounded(s: [i64; 3]) -> bool {
    forall|i: int| 0 <= i < 3 ==> -0x1000_0000_0000 <= #[trigger] s[i] <= 0x1000_0000_0000
}

/// The screen coordinate a perspective projection gives: (OF*1 + H/SZ3 * IR) SAR 16,
/// saturated to -400h..3FFh.
pub open spec fn screen_coord(v: i64) -> u32 {
    (clamp_spec((v >> 16i64) as int, -0x400, 0x3FF) as u32) & 0xFFFF
}

/// Data registers after one RTP step on V`vi`: MAC1..3 = (TR*1000h + RT*V) SAR (sf*12),
/// IR1..3 saturated from them, SZ3 = MAC3 SAR ((1-sf)*12) saturated to 0..FFFFh pushed onto
/// the Z FIFO, SXY2 = OF + IR * (H/SZ3) (divided by 10000h, saturated) pushed onto the screen
/// FIFO; on the last vertex also MAC0 = (H/SZ3)*DQA + DQB and IR0 = MAC0/1000h saturated to
/// 0..1000h.
pub open spec fn rtp_spec(d: Seq<u32>, c: Seq<u32>, sf: bool, lm: bool, vi: u8, last: bool) -> Seq<u32> {
    let v = select_vector_spec(d, vi);
    let rt = matrix_from(c, 0);
    let tr = select_translation_spec(c, 0);
    let m0 = mac_row_spec(rt, v, tr, 0).0 >> sf_shift(sf);
    let m1 = mac_row_spec(rt, v, tr, 1).0 >> sf_shift(sf);
    let m2 = mac_row_spec(rt, v, tr, 2).0 >> sf_shift(sf);
    let d1 = with_ir_from_mac(with_mac(d, m0, m1, m2), m0, m1, m2, lm);
    let sz3 = clamp_spec((m2 >> (if sf { 0i64 } else { 12i64 })) as int, 0, 0xFFFF);
    let d2 = d1.update(16, d1[17]).update(17, d1[18]).update(18, d1[19]).update(19, sz3 as u32);
    let q = crate::cpu::gte_div::unr_divide_spec((c[26] & 0xFFFF) as u16, sz3 as u16).0 as i64;
    let x = (q * s32_spec(sext16(d2[9])) + s32_spec(c[24])) as i64;
    let y = (q * s32_spec(sext16(d2[10])) + s32_spec(c[25])) as i64;
    let d3 = d2.update(12, d2[13]).update(13, d2[14]).update(14, screen_coord(x) | (screen_coord(y) << 16u32));
    if last {
        let mac0 = (q * s32_spec(sext16(c[27])) + s32_spec(c[28])) as i64;
        d3.update(8, clamp_spec((mac0 >> 12i64) as int, 0, 0x1000) as u32).update(24, mac0 as u32)
    } else {
        d3
    }
}

/// The commands read no FLAG bit: control registers with the same 0..30 give the same
/// matrices, vectors and constants.
proof fn lemma_control_same(c0: Seq<u32>, c1: Seq<u32>)
    requires
        c0.len() == 32,
        c1.len() == 32,
        forall|k: int| 0 <= k < 31 ==> #[trigger] c1[k] == c0[k],
    ensures
        matrix_from(c1, 0) == matrix_from(c0, 0),
        matrix_from(c1, 8) == matrix_from(c0, 8),
        matrix_from(c1, 16) == matrix_from(c0, 16),
        select_translation_spec(c1, 0) == select_translation_spec(c0, 0),
        select_translation_spec(c1, 1) == select_translation_spec(c0, 1),
        select_translation_spec(c1, 2) == select_translation_spec(c0, 2),
        forall|k: int| 0 <= k < 31 ==> #[trigger] c1[k] == c0[k],
{
    assert(matrix_from(c1, 0) == matrix_from(c0, 0));
    assert(matrix_from(c1, 8) == matrix_from(c0, 8));
    assert(matrix_from(c1, 16) == matrix_from(c0, 16));
}

/// No command reads the FLAG register.
#[verifier::spinoff_prover]
#[verifier::rlimit(100)]
proof fn lemma_flag_clear_blind(d: Seq<u32>, c: Seq<u32>, command: u32)
    requires c.len() == 32,
    ensures command_data_spec(d, c.update(31, 0), command) == command_data_spec(d, c, command),
{
    let c1 = c.update(31, 0);
    assert(forall|k: int| 0 <= k < 31 ==> #[trigger] c1[k] == c[k]);
    lemma_control_same(c, c1);
    let sf = command & 0x80000 != 0;
    let lm = command & 0x400 != 0;
    let op = command & 0x3F;
    if op == 0x16 {
        let d1 = ncds_spec(d, c, sf, lm, 0);
        let d2 = ncds_spec(d1, c, sf, lm, 1);
        assert(ncds_spec(d, c1, sf, lm, 0) == d1);
        assert(ncds_spec(d1, c1, sf, lm, 1) == d2);
        assert(ncds_spec(d2, c1, sf, lm, 2) == ncds_spec(d2, c, sf, lm, 2));
    } else if op == 0x20 {
        let d1 = ncs_spec(d, c, sf, lm, 0);
        let d2 = ncs_spec(d1, c, sf, lm, 1);
        assert(ncs_spec(d, c1, sf, lm, 0) == d1);
        assert(ncs_spec(d1, c1, sf, lm, 1) == d2);
        assert(ncs_spec(d2, c1, sf, lm, 2) == ncs_spec(d2, c, sf, lm, 2));
    } else if op == 0x3F {
        let d1 = nccs_spec(d, c, sf, lm, 0);
        let d2 = nccs_spec(d1, c, sf, lm, 1);
        assert(nccs_spec(d, c1, sf, lm, 0) == d1);
        assert(nccs_spec(d1, c1, sf, lm, 1) == d2);
        assert(nccs_spec(d2, c1, sf, lm, 2) == nccs_spec(d2, c, sf, lm, 2));
    } else if op == 0x30 {
        let d1 = rtp_spec(d, c, sf, lm, 0, false);
        let d2 = rtp_spec(d1, c, sf, lm, 1, false);
        assert(rtp_spec(d, c1, sf, lm, 0, false) == d1);
        assert(rtp_spec(d1, c1, sf, lm, 1, false) == d2);
        assert(rtp_spec(d2, c1, sf, lm, 2, true) == rtp_spec(d2, c, sf, lm, 2, true));
    } else if op == 0x2A {
        lemma_dpct_control(d, c, c1, sf, lm, 3);
    }
}

/// DPCT reads no FLAG bit.
proof fn lemma_dpct_control(d: Seq<u32>, c0: Seq<u32>, c1: Seq<u32>, sf: bool, lm: bool, n: nat)
    requires
        c0.len() == 32,
        c1.len() == 32,
        forall|k: int| 0 <= k < 31 ==> #[trigger] c1[k] == c0[k],
    ensures dpct_spec(d, c1, sf, lm, n) == dpct_spec(d, c0, sf, lm, n),
    decreases n,
{
    if n > 0 {
        lemma_dpct_control(d, c0, c1, sf, lm, (n - 1) as nat);
    }
}

/// RTP reads no FLAG bit.
proof fn lemma_rtp_flag_blind(d: Seq<u32>, c0: Seq<u32>, c1: Seq<u32>, sf: bool, lm: bool, vi: u8, last: bool)
    requires flags_grow(c0, c1),
    ensures rtp_spec(d, c1, sf, lm, vi, last) == rtp_spec(d, c0, sf, lm, vi, last),
{
    assert(matrix_from(c1, 0) == matrix_from(c0, 0));
    assert(select_translation_spec(c1, 0) == select_translation_spec(c0, 0));
    assert(c1[24] == c0[24] && c1[25] == c0[25] && c1[26] == c0[26] && c1[27] == c0[27] && c1[28] == c0[28]);
}

/// The divide-overflow bit (17) of FLAG, once raised, stays raised while flags only grow.
proof fn lemma_divide_flag_kept(a: Seq<u32>, b: Seq<u32>)
    requires
        flags_grow(a, b),
        a[31] & 0x2_0000 != 0,
    ensures
        b[31] & 0x2_0000 != 0,
{
    crate::bits::lemma_or_and();
}

/// A raw FLAG with the divide-overflow bit reads back with it and with the error bit 31.
proof fn lemma_flag_value_divide(raw: u32)
    by (bit_vector)
    requires
        raw & 0x2_0000 != 0,
    ensures
        flag_value(raw) & 0x8002_0000 == 0x8002_0000,
{
}

/// The perspective division overflows (UNR division result clamped, FLAG bit 17) when the
/// projection distance H is at least twice the new screen Z.
pub open spec fn divide_overflows(control: Seq<u32>, sz: u32) -> bool {
    (control[26] & 0xFFFF) >= 2 * sz
}

impl Gte {
    #[verifier::spinoff_prover]
    #[verifier::rlimit(40)]
    fn rtp_single(&mut self, sf: bool, lm: bool, vector_index: u8, is_last_vertex: bool)
        requires
            old(self).wf(),
            vector_index < 3,
        ensures
            final(self).wf(),
            flags_grow(old(self).control@, final(self).control@),
            // The Z FIFO moved down and received a value within 0..FFFFh.
            final(self).data@[16] == old(self).data@[17],
            final(self).data@[17] == old(self).data@[18],
            final(self).data@[18] == old(self).data@[19],
            final(self).data@[19] <= 0xFFFF,
            // The screen XY FIFO moved down.
            final(self).data@[12] == old(self).data@[13],
            final(self).data@[13] == old(self).data@[14],
            is_last_vertex ==> final(self).data@[8] <= 0x1000,
            !is_last_vertex ==> final(self).data@[8] == old(self).data@[8],
            final(self).data@ == rtp_spec(old(self).data@, old(self).control@, sf, lm, vector_index, is_last_vertex),
            divide_overflows(old(self).control@, final(self).data@[19]) ==> final(self).control@[31] & 0x2_0000 != 0,
    {
        let translation = self.select_translation(0);
        let vector = self.select_vector(vector_index);
        let matrix = self.select_matrix(0);
        let (mac, pos, neg) = matrix_vector_mac(&matrix, &vector, &translation);
        self.flag_mac_rows(pos, neg);
        let shift: i64 = if sf { 12 } else { 0 };
        let m0 = mac[0] >> shift;
        let m1 = mac[1] >> shift;
        let m2 = mac[2] >> shift;
        self.data[25] = m0 as u32;
        self.data[26] = m1 as u32;
        self.data[27] = m2 as u32;
        let mac32_0 = truncate_i64_to_32(m0);
        let mac32_1 = truncate_i64_to_32(m1);
        let mac32_2 = truncate_i64_to_32(m2);
        let ir1 = self.check_and_saturate_ir(1, mac32_0, lm);
        let ir2 = self.check_and_saturate_ir(2, mac32_1, lm);
        let ir3_flag_check = mac[2] >> 12i64;
        if ir3_flag_check < -0x8000 || ir3_flag_check > 0x7FFF {
            self.set_ir_saturation(3);
        }
        let ir3 = saturate_to_ir(mac32_2, lm);
        self.set_ir123(ir1, ir2, ir3);

        // SZ3 = MAC3 SAR ((1-sf)*12), saturated to 0..FFFFh.
        let zshift: i64 = if sf { 0 } else { 12 };
        let sz3_truncated = mac32_2 >> zshift;
        if sz3_truncated < 0 || sz3_truncated > 0xFFFF {
            self.raise_flag(18);
        }
        let sz3_unclamped = m2 >> zshift;
        if sz3_unclamped < 0 || sz3_unclamped > 0xFFFF {
            self.raise_flag(18);
        }
        let sz3 = clamp_i64(sz3_unclamped, 0, 0xFFFF);
        self.push_sz(sz3 as u32);

        let (common_term, div_overflow) = gte_divide((self.control[26] & 0xFFFF) as u16, sz3 as u16);
        let common_term = common_term as i64;
        self.raise_divide_flags(div_overflow, sz3 == 0);
        let ghost c_div = self.control@;
        proof {
            assert(self.control@[26] == old(self).control@[26]);
            assert((self.control@[26] & 0xFFFF) <= 0xFFFF) by { crate::bits::lemma_and_bounds(); }
            assert(divide_overflows(old(self).control@, sz3 as u32) == div_overflow);
        }
        let ghost sz3_word = self.data@[19];

        let ir1v = s32_to_i64(self.ir1());
        let ir2v = s32_to_i64(self.ir2());
        assert(forall|x: u32| -0x8000 <= #[trigger] s32_spec(sext16(x)) <= 0x7FFF) by { lemma_sext16_facts(); }
        assert(-0x1_0000_0000_0000 <= common_term * ir1v <= 0x1_0000_0000_0000) by (nonlinear_arith)
            requires 0 <= common_term <= 0x1FFFF, -0x8000 <= ir1v <= 0x7FFF;
        assert(-0x1_0000_0000_0000 <= common_term * ir2v <= 0x1_0000_0000_0000) by (nonlinear_arith)
            requires 0 <= common_term <= 0x1FFFF, -0x8000 <= ir2v <= 0x7FFF;
        let mac0_sx2 = common_term * ir1v + s32_to_i64(self.control[24]);
        let mac0_sy2 = common_term * ir2v + s32_to_i64(self.control[25]);
        self.check_mac0_overflow(mac0_sx2);
        self.check_mac0_overflow(mac0_sy2);

        let sx2_raw = mac0_sx2 >> 16i64;
        let sy2_raw = mac0_sy2 >> 16i64;
        if sx2_raw < -0x400 || sx2_raw > 0x3FF {
            self.raise_flag(14);
        }
        if sy2_raw < -0x400 || sy2_raw > 0x3FF {
            self.raise_flag(13);
        }
        let sxy2 = ((clamp_i64(sx2_raw, -0x400, 0x3FF) as u32) & 0xFFFF) | (((clamp_i64(sy2_raw, -0x400, 0x3FF) as u32) & 0xFFFF) << 16u32);
        self.set_sxyp(sxy2);
        if !is_last_vertex {
            proof {
                assert(self.data@[19] == sz3_word);
                if div_overflow { lemma_divide_flag_kept(c_div, self.control@); }
            }
            return;
        }

        // Depth cueing: MAC0 = divisor*DQA + DQB, IR0 = MAC0/1000h saturated to 0..1000h.
        let dqa = s32_to_i64(sign_extend_s16(self.control[27]));
        assert(-0x1_0000_0000_0000 <= common_term * dqa <= 0x1_0000_0000_0000) by (nonlinear_arith)
            requires 0 <= common_term <= 0x1FFFF, -0x8000 <= dqa <= 0x7FFF;
        let mac0_ir0 = common_term * dqa + s32_to_i64(self.control[28]);
        self.check_mac0_overflow(mac0_ir0);
        let ir0_raw = mac0_ir0 >> 12i64;
        if ir0_raw < 0 || ir0_raw > 0x1000 {
            self.raise_flag(12);
        }
        self.data[8] = clamp_i64(ir0_raw, 0, 0x1000) as u32;
        self.data[24] = mac0_ir0 as u32;
        proof {
            assert(self.data@[19] == sz3_word);
            if div_overflow { lemma_divide_flag_kept(c_div, self.control@); }
        }
    }

    /// RTPS: perspective transformation of V0.
    fn rtps(&mut self, sf: bool, lm: bool)
        requires old(self).wf(),
        ensures
            final(self).wf(),
            flags_grow(old(self).control@, final(self).control@),
            final(self).data@[16] == old(self).data@[17],
            final(self).data@[17] == old(self).data@[18],
            final(self).data@[18] == old(self).data@[19],
            final(self).data@[19] <= 0xFFFF,
            final(self).data@[8] <= 0x1000,
            final(self).data@ == rtp_spec(old(self).data@, old(self).control@, sf, lm, 0, true),
            divide_overflows(old(self).control@, final(self).data@[19]) ==> final(self).control@[31] & 0x2_0000 != 0,
    {
        self.rtp_single(sf, lm, 0, true);
    }

    /// RTPT: perspective transformation of V0, V1 and V2; depth cueing on the last.
    fn rtpt(&mut self, sf: bool, lm: bool)
        requires old(self).wf(),
        ensures
            final(self).wf(),
            flags_grow(old(self).control@, final(self).control@),
            final(self).data@[17] <= 0xFFFF && final(self).data@[18] <= 0xFFFF && final(self).data@[19] <= 0xFFFF,
            final(self).data@[8] <= 0x1000,
            final(self).data@ == rtp_spec(rtp_spec(rtp_spec(old(self).data@, old(self).control@, sf, lm, 0, false),
                old(self).control@, sf, lm, 1, false), old(self).control@, sf, lm, 2, true),
            // The division of any of the three vertices (their SZ values end in SZ1..SZ3).
            (divide_overflows(old(self).control@, final(self).data@[17]) || divide_overflows(old(self).control@, final(self).data@[18])
                || divide_overflows(old(self).control@, final(self).data@[19])) ==> final(self).control@[31] & 0x2_0000 != 0,
    {
        let ghost c0 = self.control@;
        self.rtp_single(sf, lm, 0, false);
        let ghost (d1, c1) = (self.data@, self.control@);
        self.rtp_single(sf, lm, 1, false);
        let ghost (d2, c2) = (self.data@, self.control@);
        self.rtp_single(sf, lm, 2, true);
        proof {
            lemma_rtp_flag_blind(d1, c0, c1, sf, lm, 1, false);
            lemma_rtp_flag_blind(d2, c0, c2, sf, lm, 2, true);
            assert(c1[26] == c0[26] && c2[26] == c0[26]);
            if divide_overflows(c0, d1[19]) {
                lemma_divide_flag_kept(c1, c2);
                lemma_divide_flag_kept(c2, self.control@);
            }
            if divide_overflows(c0, d2[19]) {
                lemma_divide_flag_kept(c2, self.control@);
            }
        }
    }

    /// NCLIP: normal clipping, the signed area of the screen triangle in MAC0.
    fn nclip(&mut self)
        requires old(self).wf(),
        ensures
            final(self).wf(),
            flags_grow(old(self).control@, final(self).control@),
            final(self).data@ == old(self).data@.update(24, nclip_spec(old(self).data@) as u32),
            final(self).control@ == flag_or(old(self).control@, mac0_flag_bits(nclip_spec(old(self).data@) as int)),
    {
        let sx0 = lsbs(self.data[12]) as i16 as i64;
        let sy0 = msbs(self.data[12]) as i16 as i64;
        let sx1 = lsbs(self.data[13]) as i16 as i64;
        let sy1 = msbs(self.data[13]) as i16 as i64;
        let sx2 = lsbs(self.data[14]) as i16 as i64;
        let sy2 = msbs(self.data[14]) as i16 as i64;
        assert(-0x4_0000_0000 <= sx0 * (sy1 - sy2) <= 0x4_0000_0000) by (nonlinear_arith)
            requires -0x8000 <= sx0 <= 0x7FFF, -0x10000 <= sy1 - sy2 <= 0x10000;
        assert(-0x4_0000_0000 <= sx1 * (sy2 - sy0) <= 0x4_0000_0000) by (nonlinear_arith)
            requires -0x8000 <= sx1 <= 0x7FFF, -0x10000 <= sy2 - sy0 <= 0x10000;
        assert(-0x4_0000_0000 <= sx2 * (sy0 - sy1) <= 0x4_0000_0000) by (nonlinear_arith)
            requires -0x8000 <= sx2 <= 0x7FFF, -0x10000 <= sy0 - sy1 <= 0x10000;
        let mac0 = sx0 * (sy1 - sy2) + sx1 * (sy2 - sy0) + sx2 * (sy0 - sy1);
        self.check_mac0_overflow(mac0);
        self.data[24] = mac0 as u32;
        assert(self.data@ =~= old(self).data@.update(24, nclip_spec(old(self).data@) as u32));
        proof { lemma_flag_or(old(self).control@, 0, 0); }
    }

    /// MAC0 = ZSF*sum(SZ), OTZ = MAC0/1000h saturated to 0..FFFFh.
    fn avsz(&mut self, zsf: i64, sum_sz: i64)
        requires
            old(self).wf(),
            -0x8000 <= zsf <= 0x7FFF,
            0 <= sum_sz <= 4 * 0xFFFF,
        ensures
            final(self).wf(),
            flags_grow(old(self).control@, final(self).control@),
            final(self).data@ == avsz_spec(old(self).data@, zsf, sum_sz),
            final(self).control@ == flag_or(old(self).control@, avsz_flag_bits(zsf, sum_sz)),
    {
        assert(-0x1_0000_0000_0000 <= zsf * sum_sz <= 0x1_0000_0000_0000) by (nonlinear_arith)
            requires -0x8000 <= zsf <= 0x7FFF, 0 <= sum_sz <= 4 * 0xFFFF;
        let mac0 = zsf * sum_sz;
        self.check_mac0_overflow(mac0);
        let ghost c1 = self.control@;
        proof {
            lemma_flag_or(old(self).control@, mac0_flag_bits(mac0 as int), 0);
            assert(c1 == flag_or(old(self).control@, mac0_flag_bits(mac0 as int)));
        }
        self.data[24] = mac0 as u32;
        let otz_raw = div4096_toward_zero(mac0);
        if otz_raw < 0 || otz_raw > 0xFFFF {
            self.raise_flag(18);
            proof {
                lemma_flag_or(c1, 0, 0);
                lemma_flag_or(old(self).control@, mac0_flag_bits(mac0 as int), 0x4_0000);
            }
        } else {
            proof { lemma_flag_or(old(self).control@, mac0_flag_bits(mac0 as int), 0); }
        }
        self.data[7] = clamp_i64(otz_raw, 0, 0xFFFF) as u32;
        assert(self.data@ =~= avsz_spec(old(self).data@, zsf, sum_sz));
    }

    /// AVSZ3: average of SZ1..SZ3 scaled by ZSF3.
    fn avsz3(&mut self)
        requires old(self).wf(),
        ensures
            final(self).wf(),
            flags_grow(old(self).control@, final(self).control@),
            final(self).data@[7] <= 0xFFFF,
            final(self).data@ == avsz3_spec(old(self).data@, old(self).control@),
            final(self).control@ == flag_or(old(self).control@, avsz_flag_bits(s32_spec(sext16(old(self).control@[29])),
                ((old(self).data@[17] & 0xFFFF) as i64 + (old(self).data@[18] & 0xFFFF) as i64 + (old(self).data@[19] & 0xFFFF) as i64) as i64)),
    {
        assert(forall|x: u32| #[trigger] (x & 0xFFFF) <= 0xFFFF) by { crate::bits::lemma_and_bounds(); }
        let sum = (self.data[17] & 0xFFFF) as i64 + (self.data[18] & 0xFFFF) as i64 + (self.data[19] & 0xFFFF) as i64;
        let zsf3 = s32_to_i64(sign_extend_s16(self.control[29]));
        assert(forall|x: u32| -0x8000 <= #[trigger] s32_spec(sext16(x)) <= 0x7FFF) by { lemma_sext16_facts(); }
        self.avsz(zsf3, sum);
    }

    /// AVSZ4: average of SZ0..SZ3 scaled by ZSF4.
    fn avsz4(&mut self)
        requires old(self).wf(),
        ensures
            final(self).wf(),
            flags_grow(old(self).control@, final(self).control@),
            final(self).data@[7] <= 0xFFFF,
            final(self).data@ == avsz4_spec(old(self).data@, old(self).control@),
            final(self).control@ == flag_or(old(self).control@, avsz_flag_bits(s32_spec(sext16(old(self).control@[30])),
                ((old(self).data@[16] & 0xFFFF) as i64 + (old(self).data@[17] & 0xFFFF) as i64 + (old(self).data@[18] & 0xFFFF) as i64
                    + (old(self).data@[19] & 0xFFFF) as i64) as i64)),
    {
        assert(forall|x: u32| #[trigger] (x & 0xFFFF) <= 0xFFFF) by { crate::bits::lemma_and_bounds(); }
        let sum = (self.data[16] & 0xFFFF) as i64 + (self.data[17] & 0xFFFF) as i64 + (self.data[18] & 0xFFFF) as i64 + (self.data[19] & 0xFFFF) as i64;
        let zsf4 = s32_to_i64(sign_extend_s16(self.control[30]));
        assert(forall|x: u32| -0x8000 <= #[trigger] s32_spec(sext16(x)) <= 0x7FFF) by { lemma_sext16_facts(); }
        self.avsz(zsf4, sum);
    }

    /// MVMVA with the FC translation: the hardware splits the sum; part 1 only affects flags.
    fn mvmva_fc_split_sum(&mut self, matrix: &Matrix, vector: &Vector, fc: &Vector, sf: bool, lm: bool) -> (r: ([i64; 3], [i16; 3]))
        requires
            old(self).wf(),
            matrix_small(*matrix),
            vector_small(*vector),
        ensures
            final(self).wf(),
            final(self).data@ == old(self).data@,
            flags_grow(old(self).control@, final(self).control@),
            forall|i: int| 0 <= i < 3 ==> #[trigger] r.1[i] == saturate_to_ir_spec(trunc32(r.0[i]), lm),
            forall|i: int| 0 <= i < 3 ==> #[trigger] r.0[i] == (((matrix.0[i][1] as i64 * vector.0[1] as i64) + (matrix.0[i][2] as i64 * vector.0[2] as i64)) as i64 >> (if sf { 12i64 } else { 0i64 })),
    {
        let shift: i64 = if sf { 12 } else { 0 };
        let mut row: usize = 0;
        while row < 3
            invariant
                row <= 3,
                self.wf(),
                self.data@ == old(self).data@,
                flags_grow(old(self).control@, self.control@),
                matrix_small(*matrix),
                vector_small(*vector),
                shift == 0 || shift == 12,
            decreases 3 - row,
        {
            let m0 = matrix.0[row][0] as i64;
            let v0 = vector.0[0] as i64;
            assert(small(matrix.0[row as int][0]) && small(vector.0[0]));
            assert(-0x4000_0000 <= m0 * v0 <= 0x4000_0000) by (nonlinear_arith)
                requires -0x8000 <= m0 <= 0x7FFF, -0x8000 <= v0 <= 0x7FFF;
            let stage1 = (fc.0[row] as i64 * 0x1000 + m0 * v0) >> shift;
            if stage1 > MAC_MAX {
                self.set_mac_overflow(row, true);
            } else if stage1 < MAC_MIN {
                self.set_mac_overflow(row, false);
            }
            let _ = self.check_and_saturate_ir(row + 1, truncate_i64_to_32(stage1), lm);
            row = row + 1;
        }
        let mut mac = [0i64; 3];
        let mut row: usize = 0;
        while row < 3
            invariant
                row <= 3,
                matrix_small(*matrix),
                vector_small(*vector),
                shift == 0 || shift == 12,
                forall|i: int| 0 <= i < row ==> #[trigger] mac[i] == (((matrix.0[i][1] as i64 * vector.0[1] as i64) + (matrix.0[i][2] as i64 * vector.0[2] as i64)) as i64 >> shift),
            decreases 3 - row,
        {
            let m1 = matrix.0[row][1] as i64;
            let v1 = vector.0[1] as i64;
            let m2 = matrix.0[row][2] as i64;
            let v2 = vector.0[2] as i64;
            assert(small(matrix.0[row as int][1]) && small(matrix.0[row as int][2]) && small(vector.0[1]) && small(vector.0[2]));
            assert(-0x4000_0000 <= m1 * v1 <= 0x4000_0000) by (nonlinear_arith)
                requires -0x8000 <= m1 <= 0x7FFF, -0x8000 <= v1 <= 0x7FFF;
            assert(-0x4000_0000 <= m2 * v2 <= 0x4000_0000) by (nonlinear_arith)
                requires -0x8000 <= m2 <= 0x7FFF, -0x8000 <= v2 <= 0x7FFF;
            mac[row] = (m1 * v1 + m2 * v2) >> shift;
            row = row + 1;
        }
        let i0 = self.check_and_saturate_ir(1, truncate_i64_to_32(mac[0]), lm);
        let i1 = self.check_and_saturate_ir(2, truncate_i64_to_32(mac[1]), lm);
        let i2 = self.check_and_saturate_ir(3, truncate_i64_to_32(mac[2]), lm);
        let ir = [i0, i1, i2];
        assert(ir@ =~= seq![i0, i1, i2]);
        (mac, ir)
    }

    /// MVMVA: MAC = (Tx*1000h + Mx*Vx) SAR (sf*12), IR = saturated MAC.
    fn mvmva(&mut self, sf: bool, mx: u8, vx: u8, tx: u8, lm: bool)
        requires
            old(self).wf(),
            mx < 4, vx < 4, tx < 4,
        ensures
            final(self).wf(),
            flags_grow(old(self).control@, final(self).control@),
            final(self).data@ == mvmva_spec(old(self).data@, old(self).control@, sf, mx, vx, tx, lm),
    {
        let matrix = self.select_matrix(mx);
        let vector = self.select_vector(vx);
        let (mac, ir) = if tx == 2 {
            let fc = self.select_translation(2);
            self.mvmva_fc_split_sum(&matrix, &vector, &fc, sf, lm)
        } else {
            let translation = self.select_translation(tx);
            let (_, mac_shifted, ir) = self.mac_multiply_add_saturate(&matrix, &vector, &translation, sf, lm);
            (mac_shifted, ir)
        };
        self.set_ir123(ir[0], ir[1], ir[2]);
        self.data[25] = mac[0] as u32;
        self.data[26] = mac[1] as u32;
        self.data[27] = mac[2] as u32;
        assert(self.data@ =~= mvmva_spec(old(self).data@, old(self).control@, sf, mx, vx, tx, lm));
    }

    /// SQR: [MAC1..3] = [IR1², IR2², IR3²] SAR (sf*12), IR saturated to 0..7FFFh.
    fn sqr(&mut self, sf: bool)
        requires old(self).wf(),
        ensures
            final(self).wf(),
            flags_grow(old(self).control@, final(self).control@),
            final(self).data@[9] as i16 >= 0 && final(self).data@[10] as i16 >= 0 && final(self).data@[11] as i16 >= 0,
            final(self).data@ == sqr_spec(old(self).data@, sf),
            final(self).control@ == flag_or(old(self).control@, sqr_flag_bits(old(self).data@, sf)),
    {
        let v = self.select_vector(3);
        let shift: i64 = if sf { 12 } else { 0 };
        let mut mac = [0i64; 3];
        let mut i: usize = 0;
        while i < 3
            invariant
                i <= 3,
                self.wf(),
                vector_small(v),
                flags_grow(old(self).control@, self.control@),
                self.control@ == old(self).control@,
                shift == 0 || shift == 12,
                shift == sf_shift(sf),
                self.data@ == old(self).data@,
                v == select_vector_spec(old(self).data@, 3),
                forall|k: int| 0 <= k < i ==> #[trigger] mac[k] == sqr_mac(old(self).data@, sf, k),
            decreases 3 - i,
        {
            let x = v.0[i] as i64;
            assert(small(v.0[i as int]));
            assert(0 <= x * x <= 0x4000_0000) by (nonlinear_arith)
                requires -0x8000 <= x <= 0x7FFF;
            let raw = x * x;
            self.check_mac123_overflow(i, raw);
            mac[i] = i64_to_i44(raw) >> shift;
            i = i + 1;
        }
        self.data[25] = mac[0] as u32;
        self.data[26] = mac[1] as u32;
        self.data[27] = mac[2] as u32;
        let m0 = truncate_i64_to_32(mac[0]);
        let m1 = truncate_i64_to_32(mac[1]);
        let m2 = truncate_i64_to_32(mac[2]);
        let ghost c = old(self).control@;
        let ghost b0: u32 = if m0 < 0 || m0 > 0x7FFF { 0x100_0000 } else { 0 };
        let ghost b1: u32 = if m1 < 0 || m1 > 0x7FFF { 0x80_0000 } else { 0 };
        let ghost b2: u32 = if m2 < 0 || m2 > 0x7FFF { 0x40_0000 } else { 0 };
        proof { lemma_flag_or(c, 0, b0); lemma_flag_or(c, b0, 0); crate::bits::lemma_or_and(); }
        if m0 < 0 || m0 > 0x7FFF { self.set_ir_saturation(1); }
        assert(self.control@ == flag_or(c, b0));
        proof { lemma_flag_or(flag_or(c, b0), 0, 0); lemma_flag_or(c, b0, b1); }
        if m1 < 0 || m1 > 0x7FFF { self.set_ir_saturation(2); }
        assert(self.control@ == flag_or(c, b0 | b1));
        proof { lemma_flag_or(flag_or(c, b0 | b1), 0, 0); lemma_flag_or(c, b0 | b1, b2); }
        if m2 < 0 || m2 > 0x7FFF { self.set_ir_saturation(3); }
        assert(self.control@ == flag_or(c, (b0 | b1) | b2));
        let a = saturate_to_ir(m0, true);
        let b = saturate_to_ir(m1, true);
        let c = saturate_to_ir(m2, true);
        self.set_ir123(a, b, c);
        assert(forall|x: i16| 0 <= x ==> #[trigger] ((x as u32) as i16) == x) by { lemma_sext16_facts(); }
        assert(self.data@ =~= sqr_spec(old(self).data@, sf));
    }

    /// OP: outer product of [IR1, IR2, IR3] with the RT diagonal.
    fn op(&mut self, sf: bool, lm: bool)
        requires old(self).wf(),
        ensures
            final(self).wf(),
            flags_grow(old(self).control@, final(self).control@),
            final(self).data@ == op_spec(old(self).data@, old(self).control@, sf, lm),
    {
        let rt = self.select_matrix(0);
        let d = [rt.0[0][0], rt.0[1][1], rt.0[2][2]];
        let ir_in = self.select_vector(3);
        assert(small(rt.0[0][0]) && small(rt.0[1][1]) && small(rt.0[2][2]));
        assert(small(ir_in.0[0]) && small(ir_in.0[1]) && small(ir_in.0[2]));
        let (mac_raw, pos, neg) = matrix_vector_op(d, ir_in.0);
        self.flag_mac_rows(pos, neg);
        let shift: i64 = if sf { 12 } else { 0 };
        let m0 = mac_raw[0] >> shift;
        let m1 = mac_raw[1] >> shift;
        let m2 = mac_raw[2] >> shift;
        self.data[25] = m0 as u32;
        self.data[26] = m1 as u32;
        self.data[27] = m2 as u32;
        let a = self.check_and_saturate_ir(1, truncate_i64_to_32(m0), lm);
        let b = self.check_and_saturate_ir(2, truncate_i64_to_32(m1), lm);
        let c = self.check_and_saturate_ir(3, truncate_i64_to_32(m2), lm);
        self.set_ir123(a, b, c);
        assert(d@ =~= rt_diagonal(old(self).control@)@);
        assert(self.data@ =~= op_spec(old(self).data@, old(self).control@, sf, lm));
    }
}


/// [R*IR1, G*IR2, B*IR3] SHL 4 from the colour in `rgb_word` (each product wrapped to 44 bits).
pub open spec fn shade_rgb_spec(rgb_word: u32, ir: [i16; 3]) -> [i64; 3] {
    [
        wrap44(((rgb_word & 0xFF) as i64 * ir[0] as i64 * 16) as i64),
        wrap44((((rgb_word >> 8u32) & 0xFF) as i64 * ir[1] as i64 * 16) as i64),
        wrap44((((rgb_word >> 16u32) & 0xFF) as i64 * ir[2] as i64 * 16) as i64),
    ]
}

/// The shift the sf bit of a command selects.
pub open spec fn sf_shift(sf: bool) -> i64 { if sf { 12 } else { 0 } }

/// Data registers with MAC1..MAC3 set.
pub open spec fn with_mac(d: Seq<u32>, m0: i64, m1: i64, m2: i64) -> Seq<u32> {
    d.update(25, m0 as u32).update(26, m1 as u32).update(27, m2 as u32)
}

/// Data registers with IR1..IR3 (and IRGB) set to the saturated MAC values.
pub open spec fn with_ir_from_mac(d: Seq<u32>, m0: i64, m1: i64, m2: i64, lm: bool) -> Seq<u32> {
    Gte::data_with_ir(d, saturate_to_ir_spec(trunc32(m0), lm), saturate_to_ir_spec(trunc32(m1), lm),
        saturate_to_ir_spec(trunc32(m2), lm))
}

/// A colour component: MAC/16 saturated to 0..FFh.
pub open spec fn colour_byte(m: i64) -> u32 {
    clamp_spec((trunc32(m) >> 4i64) as int, 0, 0xFF) as u32
}

/// The colour FIFO entry made from MAC1..MAC3 and the CODE byte.
pub open spec fn colour_word(m0: i64, m1: i64, m2: i64, code: u32) -> u32 {
    colour_byte(m0) | (colour_byte(m1) << 8u32) | (colour_byte(m2) << 16u32) | (code << 24u32)
}

/// Data registers after a push onto the colour FIFO.
pub open spec fn push_rgb_spec(d: Seq<u32>, w: u32) -> Seq<u32> {
    d.update(20, d[21]).update(21, d[22]).update(22, w)
}

/// The colour finish: MAC = sum (wrapped to 44 bits) SAR (sf*12), the colour FIFO receives
/// [MAC/16 saturated to 0..FFh, CODE], and IR1..IR3 the saturated MAC.
pub open spec fn finish_colour_spec(d: Seq<u32>, s: [i64; 3], sf: bool, lm: bool) -> Seq<u32> {
    let m0 = wrap44(s[0]) >> sf_shift(sf);
    let m1 = wrap44(s[1]) >> sf_shift(sf);
    let m2 = wrap44(s[2]) >> sf_shift(sf);
    with_ir_from_mac(push_rgb_spec(with_mac(d, m0, m1, m2), colour_word(m0, m1, m2, (d[6] >> 24u32) & 0xFF)), m0, m1, m2, lm)
}

/// Depth cueing of one component: shading + IR0 * ((FC*1000h - shading) SAR (sf*12), wrapped
/// to 44 bits and saturated as with lm = 0).
pub open spec fn depth_cue_term(d: Seq<u32>, c: Seq<u32>, s: [i64; 3], sf: bool, i: int) -> i64 {
    let diff = (s32_spec(c[21 + i]) * 0x1000 - s[i]) as i64;
    let sat = saturate_to_ir_spec(trunc32(wrap44(diff) >> sf_shift(sf)), false) as i64;
    (s[i] + s32_spec(sext16(d[8])) * sat) as i64
}

/// Depth cueing of a shading triple followed by the colour finish.
pub open spec fn depth_cue_spec(d: Seq<u32>, c: Seq<u32>, s: [i64; 3], sf: bool, lm: bool) -> Seq<u32> {
    finish_colour_spec(d, [depth_cue_term(d, c, s, sf, 0), depth_cue_term(d, c, s, sf, 1), depth_cue_term(d, c, s, sf, 2)], sf, lm)
}

/// IR from row `i` of M*V + T*1000h, shifted by sf*12 and saturated.
pub open spec fn mac_ir(m: Matrix, v: Vector, t: Vector, sf: bool, lm: bool, i: int) -> i16 {
    saturate_to_ir_spec(trunc32(mac_row_spec(m, v, t, i).0 >> sf_shift(sf)), lm)
}

/// The colour transform of [IR1, IR2, IR3]: MAC = BK*1000h + LCM*IR, stored back into IR
/// shifted and saturated. Gives the data registers, the raw MAC and the new IR.
pub open spec fn colour_stage(d: Seq<u32>, c: Seq<u32>, sf: bool, lm: bool) -> (Seq<u32>, [i64; 3], [i16; 3]) {
    let lcm = matrix_from(c, 16);
    let bk = select_translation_spec(c, 1);
    let irv = select_vector_spec(d, 3);
    let ir = [mac_ir(lcm, irv, bk, sf, lm, 0), mac_ir(lcm, irv, bk, sf, lm, 1), mac_ir(lcm, irv, bk, sf, lm, 2)];
    (Gte::data_with_ir(d, ir[0], ir[1], ir[2]),
        [mac_row_spec(lcm, irv, bk, 0).0, mac_row_spec(lcm, irv, bk, 1).0, mac_row_spec(lcm, irv, bk, 2).0], ir)
}

/// The light transform of `v` (IR = LLM*V, shifted and saturated) followed by the colour
/// transform.
pub open spec fn light_colour_stage(d: Seq<u32>, c: Seq<u32>, v: Vector, sf: bool, lm: bool) -> (Seq<u32>, [i64; 3], [i16; 3]) {
    let llm = matrix_from(c, 8);
    let z = Vector([0, 0, 0]);
    colour_stage(Gte::data_with_ir(d, mac_ir(llm, v, z, sf, lm, 0), mac_ir(llm, v, z, sf, lm, 1), mac_ir(llm, v, z, sf, lm, 2)), c, sf, lm)
}

/// [IR1, IR2, IR3] as stored.
pub open spec fn current_ir_spec(d: Seq<u32>) -> [i16; 3] {
    [d[9] as i16, d[10] as i16, d[11] as i16]
}

/// [R, G, B] SHL 16 from a colour word.
pub open spec fn flat_rgb(w: u32) -> [i64; 3] {
    [((w & 0xFF) as i64 * 0x10000) as i64, (((w >> 8u32) & 0xFF) as i64 * 0x10000) as i64, (((w >> 16u32) & 0xFF) as i64 * 0x10000) as i64]
}

/// [IR1, IR2, IR3] SHL 12.
pub open spec fn flat_ir(ir: [i16; 3]) -> [i64; 3] {
    [(ir[0] as i64 * 0x1000) as i64, (ir[1] as i64 * 0x1000) as i64, (ir[2] as i64 * 0x1000) as i64]
}

/// NCS on V`vi`: light and colour transform, then the colour finish of the raw MAC.
pub open spec fn ncs_spec(d: Seq<u32>, c: Seq<u32>, sf: bool, lm: bool, vi: u8) -> Seq<u32> {
    let st = light_colour_stage(d, c, select_vector_spec(d, vi), sf, lm);
    finish_colour_spec(st.0, st.1, sf, lm)
}

/// NCCS on V`vi`: light and colour transform, shaded by RGBC, then the colour finish.
pub open spec fn nccs_spec(d: Seq<u32>, c: Seq<u32>, sf: bool, lm: bool, vi: u8) -> Seq<u32> {
    let st = light_colour_stage(d, c, select_vector_spec(d, vi), sf, lm);
    finish_colour_spec(st.0, shade_rgb_spec(st.0[6], st.2), sf, lm)
}

/// NCDS on V`vi`: light and colour transform, shaded by RGBC, depth cued.
pub open spec fn ncds_spec(d: Seq<u32>, c: Seq<u32>, sf: bool, lm: bool, vi: u8) -> Seq<u32> {
    let st = light_colour_stage(d, c, select_vector_spec(d, vi), sf, lm);
    depth_cue_spec(st.0, c, shade_rgb_spec(st.0[6], st.2), sf, lm)
}

/// CC: colour transform of IR, shaded by RGBC, then the colour finish.
pub open spec fn cc_spec(d: Seq<u32>, c: Seq<u32>, sf: bool, lm: bool) -> Seq<u32> {
    let st = colour_stage(d, c, sf, lm);
    finish_colour_spec(st.0, shade_rgb_spec(st.0[6], st.2), sf, lm)
}

/// CDP: colour transform of IR, shaded by RGBC, depth cued.
pub open spec fn cdp_spec(d: Seq<u32>, c: Seq<u32>, sf: bool, lm: bool) -> Seq<u32> {
    let st = colour_stage(d, c, sf, lm);
    depth_cue_spec(st.0, c, shade_rgb_spec(st.0[6], st.2), sf, lm)
}

/// DCPL: RGBC shaded by IR, depth cued.
pub open spec fn dcpl_spec(d: Seq<u32>, c: Seq<u32>, sf: bool, lm: bool) -> Seq<u32> {
    depth_cue_spec(d, c, shade_rgb_spec(d[6], current_ir_spec(d)), sf, lm)
}

/// `n` rounds of DPCT, each depth cueing RGB0.
pub open spec fn dpct_spec(d: Seq<u32>, c: Seq<u32>, sf: bool, lm: bool, n: nat) -> Seq<u32>
    decreases n,
{
    if n == 0 {
        d
    } else {
        let p = dpct_spec(d, c, sf, lm, (n - 1) as nat);
        depth_cue_spec(p, c, flat_rgb(p[20]), sf, lm)
    }
}

/// One GPF component: IR * IR0, wrapped to 44 bits.
pub open spec fn gpf_term(d: Seq<u32>, i: int) -> i64 {
    wrap44((select_vector_spec(d, 3).0[i] as i64 * s32_spec(sext16(d[8]))) as i64)
}

/// One GPL component: (MAC SHL (sf*12), wrapped) + IR * IR0, wrapped to 44 bits.
pub open spec fn gpl_term(d: Seq<u32>, sf: bool, i: int) -> i64 {
    let base = wrap44((s32_spec(d[25 + i]) * (if sf { 0x1000i64 } else { 1i64 })) as i64);
    wrap44((base + select_vector_spec(d, 3).0[i] as i64 * s32_spec(sext16(d[8]))) as i64)
}

/// SQR's MAC: IR squared, wrapped to 44 bits, SAR (sf*12).
pub open spec fn sqr_mac(d: Seq<u32>, sf: bool, i: int) -> i64 {
    let x = select_vector_spec(d, 3).0[i] as i64;
    wrap44((x * x) as i64) >> sf_shift(sf)
}

/// SQR: MAC1..3 = [IR1², IR2², IR3²] SAR (sf*12), IR saturated to 0..7FFFh.
pub open spec fn sqr_spec(d: Seq<u32>, sf: bool) -> Seq<u32> {
    let (m0, m1, m2) = (sqr_mac(d, sf, 0), sqr_mac(d, sf, 1), sqr_mac(d, sf, 2));
    with_ir_from_mac(with_mac(d, m0, m1, m2), m0, m1, m2, true)
}

/// The RT diagonal [RT11, RT22, RT33].
pub open spec fn rt_diagonal(c: Seq<u32>) -> [i32; 3] {
    let rt = matrix_from(c, 0);
    [rt.0[0][0], rt.0[1][1], rt.0[2][2]]
}

/// OP: MAC = (IR x D) SAR (sf*12) with D the RT diagonal, IR saturated.
pub open spec fn op_spec(d: Seq<u32>, c: Seq<u32>, sf: bool, lm: bool) -> Seq<u32> {
    let dg = rt_diagonal(c);
    let ir = select_vector_spec(d, 3).0;
    let m0 = op_row_spec(dg, ir, 2, 1, 1, 2).0 >> sf_shift(sf);
    let m1 = op_row_spec(dg, ir, 0, 2, 2, 0).0 >> sf_shift(sf);
    let m2 = op_row_spec(dg, ir, 1, 0, 0, 1).0 >> sf_shift(sf);
    with_ir_from_mac(with_mac(d, m0, m1, m2), m0, m1, m2, lm)
}

/// MVMVA's MAC row `i`: (Tx*1000h + Mx*Vx) SAR (sf*12); with the FC translation the hardware
/// keeps only the last two products.
pub open spec fn mvmva_mac(d: Seq<u32>, c: Seq<u32>, sf: bool, mx: u8, vx: u8, tx: u8, i: int) -> i64 {
    let m = select_matrix_spec(d, c, mx);
    let v = select_vector_spec(d, vx);
    if tx == 2 {
        ((m.0[i][1] as i64 * v.0[1] as i64) + (m.0[i][2] as i64 * v.0[2] as i64)) as i64 >> sf_shift(sf)
    } else {
        mac_row_spec(m, v, select_translation_spec(c, tx), i).0 >> sf_shift(sf)
    }
}

/// MVMVA: IR = saturated MAC, MAC1..3 as above.
pub open spec fn mvmva_spec(d: Seq<u32>, c: Seq<u32>, sf: bool, mx: u8, vx: u8, tx: u8, lm: bool) -> Seq<u32> {
    let m0 = mvmva_mac(d, c, sf, mx, vx, tx, 0);
    let m1 = mvmva_mac(d, c, sf, mx, vx, tx, 1);
    let m2 = mvmva_mac(d, c, sf, mx, vx, tx, 2);
    with_mac(with_ir_from_mac(d, m0, m1, m2, lm), m0, m1, m2)
}

/// AVSZ: MAC0 = ZSF*sum(SZ), OTZ = MAC0/1000h (toward zero) saturated to 0..FFFFh.
pub open spec fn avsz_spec(d: Seq<u32>, zsf: i64, sum: i64) -> Seq<u32> {
    d.update(24, (zsf * sum) as u32).update(7, clamp_spec(tdiv4096((zsf * sum) as i64) as int, 0, 0xFFFF) as u32)
}

/// AVSZ3 over SZ1..SZ3 with ZSF3.
pub open spec fn avsz3_spec(d: Seq<u32>, c: Seq<u32>) -> Seq<u32> {
    avsz_spec(d, s32_spec(sext16(c[29])), ((d[17] & 0xFFFF) as i64 + (d[18] & 0xFFFF) as i64 + (d[19] & 0xFFFF) as i64) as i64)
}

/// AVSZ4 over SZ0..SZ3 with ZSF4.
pub open spec fn avsz4_spec(d: Seq<u32>, c: Seq<u32>) -> Seq<u32> {
    avsz_spec(d, s32_spec(sext16(c[30])), ((d[16] & 0xFFFF) as i64 + (d[17] & 0xFFFF) as i64 + (d[18] & 0xFFFF) as i64 + (d[19] & 0xFFFF) as i64) as i64)
}

/// The data registers after GTE command word `command` (bits 0..5 select the command, bit 19
/// is sf, bit 10 is lm, bits 17..18, 15..16 and 13..14 MVMVA's matrix, vector and
/// translation); an unknown command leaves them as they are.
pub open spec fn command_data_spec(d: Seq<u32>, c: Seq<u32>, command: u32) -> Seq<u32> {
    let sf = command & 0x80000 != 0;
    let lm = command & 0x400 != 0;
    let op = command & 0x3F;
    if op == 0x01 { rtp_spec(d, c, sf, lm, 0, true) }
    else if op == 0x06 { d.update(24, nclip_spec(d) as u32) }
    else if op == 0x0C { op_spec(d, c, sf, lm) }
    else if op == 0x10 { depth_cue_spec(d, c, flat_rgb(d[6]), sf, lm) }
    else if op == 0x11 { depth_cue_spec(d, c, flat_ir(current_ir_spec(d)), sf, lm) }
    else if op == 0x12 {
        mvmva_spec(d, c, sf, ((command >> 17u32) & 0x03) as u8, ((command >> 15u32) & 0x03) as u8,
            ((command >> 13u32) & 0x03) as u8, lm)
    }
    else if op == 0x13 { ncds_spec(d, c, sf, lm, 0) }
    else if op == 0x14 { cdp_spec(d, c, sf, lm) }
    else if op == 0x16 { ncds_spec(ncds_spec(ncds_spec(d, c, sf, lm, 0), c, sf, lm, 1), c, sf, lm, 2) }
    else if op == 0x1B { nccs_spec(d, c, sf, lm, 0) }
    else if op == 0x1C { cc_spec(d, c, sf, lm) }
    else if op == 0x1E { ncs_spec(d, c, sf, lm, 0) }
    else if op == 0x20 { ncs_spec(ncs_spec(ncs_spec(d, c, sf, lm, 0), c, sf, lm, 1), c, sf, lm, 2) }
    else if op == 0x28 { sqr_spec(d, sf) }
    else if op == 0x29 { dcpl_spec(d, c, sf, lm) }
    else if op == 0x2A { dpct_spec(d, c, sf, lm, 3) }
    else if op == 0x2D { avsz3_spec(d, c) }
    else if op == 0x2E { avsz4_spec(d, c) }
    else if op == 0x30 { rtp_spec(rtp_spec(rtp_spec(d, c, sf, lm, 0, false), c, sf, lm, 1, false), c, sf, lm, 2, true) }
    else if op == 0x3D { finish_colour_spec(d, [gpf_term(d, 0), gpf_term(d, 1), gpf_term(d, 2)], sf, lm) }
    else if op == 0x3E { finish_colour_spec(d, [gpl_term(d, sf, 0), gpl_term(d, sf, 1), gpl_term(d, sf, 2)], sf, lm) }
    else if op == 0x3F { nccs_spec(nccs_spec(nccs_spec(d, c, sf, lm, 0), c, sf, lm, 1), c, sf, lm, 2) }
    else { d }
}

fn shade_component(c: u32, ir: i16) -> (r: i64)
    requires c <= 0xFF,
    ensures r == wrap44((c as i64 * ir as i64 * 16) as i64), -0x1000_0000 <= r <= 0x1000_0000,
{
    let x = c as i64;
    let y = ir as i64;
    assert(-0x1000_0000 <= x * y * 16 <= 0x1000_0000) by (nonlinear_arith)
        requires 0 <= x <= 0xFF, -0x8000 <= y <= 0x7FFF;
    i64_to_i44(x * y * 16)
}

impl Gte {
    /// LLM * V SAR (sf*12), saturated into IR.
    fn light_transform(&mut self, v: &Vector, sf: bool, lm: bool) -> (r: [i16; 3])
        requires old(self).wf(), vector_small(*v),
        ensures
            final(self).wf(),
            final(self).data@ == old(self).data@,
            flags_grow(old(self).control@, final(self).control@),
            forall|i: int| 0 <= i < 3 ==> #[trigger] r[i] == mac_ir(matrix_from(old(self).control@, 8), *v, Vector([0, 0, 0]), sf, lm, i),
    {
        let llm = self.get_llm();
        let zero = Vector([0, 0, 0]);
        let (_, _, ir) = self.mac_multiply_add_saturate(&llm, v, &zero, sf, lm);
        ir
    }

    /// BK*1000h + LCM * IR SAR (sf*12); returns raw MAC and saturated IR.
    fn colour_transform(&mut self, sf: bool, lm: bool) -> (r: ([i64; 3], [i16; 3]))
        requires old(self).wf(),
        ensures
            final(self).wf(),
            final(self).data@ == old(self).data@,
            flags_grow(old(self).control@, final(self).control@),
            r.0 == colour_stage(old(self).data@, old(self).control@, sf, lm).1,
            r.1 == colour_stage(old(self).data@, old(self).control@, sf, lm).2,
            forall|i: int| 0 <= i < 3 ==> -0x800_0000_0000 <= #[trigger] r.0[i] < 0x800_0000_0000,
    {
        let lcm = self.get_lcm();
        let bk = self.select_translation(1);
        let ir_in = self.select_vector(3);
        let (mac_raw, _, ir) = self.mac_multiply_add_saturate(&lcm, &ir_in, &bk, sf, lm);
        proof {
            assert(ir@ =~= colour_stage(old(self).data@, old(self).control@, sf, lm).2@);
            assert(mac_raw@ =~= colour_stage(old(self).data@, old(self).control@, sf, lm).1@);
        }
        (mac_raw, ir)
    }

    fn light_and_colour_transform(&mut self, v: &Vector, sf: bool, lm: bool) -> (r: ([i64; 3], [i16; 3]))
        requires old(self).wf(), vector_small(*v),
        ensures
            final(self).wf(),
            flags_grow(old(self).control@, final(self).control@),
            forall|i: int| 0 <= i < 3 ==> -0x800_0000_0000 <= #[trigger] r.0[i] < 0x800_0000_0000,
            (final(self).data@, r.0, r.1) == light_colour_stage(old(self).data@, old(self).control@, *v, sf, lm),
    {
        let ir1 = self.light_transform(v, sf, lm);
        self.set_ir123(ir1[0], ir1[1], ir1[2]);
        let ghost c1 = self.control@;
        let (mac2, ir2) = self.colour_transform(sf, lm);
        self.set_ir123(ir2[0], ir2[1], ir2[2]);
        proof {
            let c0 = old(self).control@;
            assert(matrix_from(c1, 16) == matrix_from(c0, 16));
            assert(select_translation_spec(c1, 1) == select_translation_spec(c0, 1));
        }
        (mac2, ir2)
    }

    fn colour_transform_only(&mut self, sf: bool, lm: bool) -> (r: ([i64; 3], [i16; 3]))
        requires old(self).wf(),
        ensures
            final(self).wf(),
            flags_grow(old(self).control@, final(self).control@),
            final(self).data@ == Gte::data_with_ir(old(self).data@, r.1[0], r.1[1], r.1[2]),
            (final(self).data@, r.0, r.1) == colour_stage(old(self).data@, old(self).control@, sf, lm),
    {
        let (mac2, ir2) = self.colour_transform(sf, lm);
        self.set_ir123(ir2[0], ir2[1], ir2[2]);
        (mac2, ir2)
    }

    fn shade_rgb(&self, rgb_word: u32, ir: [i16; 3]) -> (r: [i64; 3])
        ensures
            r == shade_rgb_spec(rgb_word, ir),
            shading_bounded(r),
    {
        assert(rgb_word & 0xFF <= 0xFF && (rgb_word >> 8u32) & 0xFF <= 0xFF && (rgb_word >> 16u32) & 0xFF <= 0xFF) by { crate::bits::lemma_and_bounds(); }
        let r = [
            shade_component(rgb_word & 0xFF, ir[0]),
            shade_component((rgb_word >> 8u32) & 0xFF, ir[1]),
            shade_component((rgb_word >> 16u32) & 0xFF, ir[2]),
        ];
        assert(r@ =~= shade_rgb_spec(rgb_word, ir)@);
        r
    }

    /// [R, G, B] SHL 16 (used by DPCS/DPCT).
    fn shade_rgb_flat(&self, rgb_word: u32) -> (r: [i64; 3])
        ensures
            r@ == seq![((rgb_word & 0xFF) as i64 * 0x10000) as i64, (((rgb_word >> 8u32) & 0xFF) as i64 * 0x10000) as i64, (((rgb_word >> 16u32) & 0xFF) as i64 * 0x10000) as i64],
            shading_bounded(r),
    {
        assert(rgb_word & 0xFF <= 0xFF && (rgb_word >> 8u32) & 0xFF <= 0xFF && (rgb_word >> 16u32) & 0xFF <= 0xFF) by { crate::bits::lemma_and_bounds(); }
        let r = [
            (rgb_word & 0xFF) as i64 * 0x10000,
            ((rgb_word >> 8u32) & 0xFF) as i64 * 0x10000,
            ((rgb_word >> 16u32) & 0xFF) as i64 * 0x10000,
        ];
        assert(r@ =~= seq![((rgb_word & 0xFF) as i64 * 0x10000) as i64, (((rgb_word >> 8u32) & 0xFF) as i64 * 0x10000) as i64, (((rgb_word >> 16u32) & 0xFF) as i64 * 0x10000) as i64]);
        r
    }

    /// [IR1, IR2, IR3] SHL 12 (used by INTPL).
    fn shade_ir_flat(&self, ir: [i16; 3]) -> (r: [i64; 3])
        ensures
            r@ == seq![(ir[0] as i64 * 0x1000) as i64, (ir[1] as i64 * 0x1000) as i64, (ir[2] as i64 * 0x1000) as i64],
            shading_bounded(r),
    {
        let r = [ir[0] as i64 * 0x1000, ir[1] as i64 * 0x1000, ir[2] as i64 * 0x1000];
        assert(r@ =~= seq![(ir[0] as i64 * 0x1000) as i64, (ir[1] as i64 * 0x1000) as i64, (ir[2] as i64 * 0x1000) as i64]);
        r
    }

    /// MAC = shading + (FC*1000h - shading) * IR0, with the intermediate difference wrapped,
    /// shifted and saturated as if lm = 0, then the common colour finish.
    fn depth_cue_and_finish(&mut self, shading: [i64; 3], sf: bool, lm: bool)
        requires old(self).wf(), shading_bounded(shading),
        ensures
            final(self).wf(),
            flags_grow(old(self).control@, final(self).control@),
            final(self).data@ == depth_cue_spec(old(self).data@, old(self).control@, shading, sf, lm),
            final(self).data@[20] == old(self).data@[21],
            final(self).data@[21] == old(self).data@[22],
            (final(self).data@[22] >> 24u32) == (old(self).data@[6] >> 24u32) & 0xFF,
    {
        let shift: i64 = if sf { 12 } else { 0 };
        let ir0 = s32_to_i64(self.ir0());
        assert(forall|x: u32| -0x8000 <= #[trigger] s32_spec(sext16(x)) <= 0x7FFF) by { lemma_sext16_facts(); }
        let mut mac_sum = [0i64; 3];
        let mut i: usize = 0;
        while i < 3
            invariant
                i <= 3,
                self.wf(),
                self.data@ == old(self).data@,
                flags_grow(old(self).control@, self.control@),
                shift == 0 || shift == 12,
                -0x8000 <= ir0 <= 0x7FFF,
                shading_bounded(shading),
                forall|k: int| 0 <= k < i ==> -0x2000_0000_0000 <= #[trigger] mac_sum[k] <= 0x2000_0000_0000,
                shift == sf_shift(sf),
                ir0 == s32_spec(sext16(old(self).data@[8])),
                forall|k: int| 0 <= k < i ==> #[trigger] mac_sum[k] == depth_cue_term(old(self).data@, old(self).control@, shading, sf, k),
            decreases 3 - i,
        {
            let fc = s32_to_i64(self.control[21 + i]);
            assert(self.control@[21 + i] == old(self).control@[21 + i]);
            assert(-0x1000_0000_0000 <= shading[i as int] <= 0x1000_0000_0000);
            let diff = fc * 0x1000 - shading[i];
            self.check_mac123_overflow(i, diff);
            let tmp = i64_to_i44(diff) >> shift;
            let tmp32 = truncate_i64_to_32(tmp);
            if tmp32 < -0x8000 || tmp32 > 0x7FFF {
                self.set_ir_saturation(i + 1);
            }
            let sat = saturate_to_ir(tmp32, false) as i64;
            assert(-0x4000_0000 <= ir0 * sat <= 0x4000_0000) by (nonlinear_arith)
                requires -0x8000 <= ir0 <= 0x7FFF, -0x8000 <= sat <= 0x7FFF;
            mac_sum[i] = shading[i] + ir0 * sat;
            i = i + 1;
        }
        self.finish_colour(mac_sum, sf, lm);
        assert(mac_sum@ =~= seq![depth_cue_term(old(self).data@, old(self).control@, shading, sf, 0),
            depth_cue_term(old(self).data@, old(self).control@, shading, sf, 1),
            depth_cue_term(old(self).data@, old(self).control@, shading, sf, 2)]);
    }

    /// Shared final stage of the colour commands: MAC SAR (sf*12), push
    /// [MAC1/16, MAC2/16, MAC3/16, CODE] (saturated to 0..FFh) onto the colour FIFO and store
    /// the saturated MAC in IR1..3.
    fn finish_colour(&mut self, mac_sum: [i64; 3], sf: bool, lm: bool)
        requires
            old(self).wf(),
            forall|k: int| 0 <= k < 3 ==> -0x2000_0000_0000 <= #[trigger] mac_sum[k] <= 0x2000_0000_0000,
        ensures
            final(self).wf(),
            flags_grow(old(self).control@, final(self).control@),
            final(self).data@ == finish_colour_spec(old(self).data@, mac_sum, sf, lm),
            final(self).data@[20] == old(self).data@[21],
            final(self).data@[21] == old(self).data@[22],
            (final(self).data@[22] >> 24u32) == (old(self).data@[6] >> 24u32) & 0xFF,
    {
        let shift: i64 = if sf { 12 } else { 0 };
        let mut mac = [0i64; 3];
        let mut i: usize = 0;
        while i < 3
            invariant
                i <= 3,
                self.wf(),
                self.data@ == old(self).data@,
                flags_grow(old(self).control@, self.control@),
                shift == 0 || shift == 12,
                forall|k: int| 0 <= k < 3 ==> -0x2000_0000_0000 <= #[trigger] mac_sum[k] <= 0x2000_0000_0000,
                shift == sf_shift(sf),
                forall|k: int| 0 <= k < i ==> #[trigger] mac[k] == wrap44(mac_sum[k]) >> shift,
            decreases 3 - i,
        {
            self.check_mac123_overflow(i, mac_sum[i]);
            mac[i] = i64_to_i44(mac_sum[i]) >> shift;
            i = i + 1;
        }
        let ghost d0 = self.data@;
        self.data[25] = mac[0] as u32;
        self.data[26] = mac[1] as u32;
        self.data[27] = mac[2] as u32;
        let d6 = self.data[6];
        let code = (d6 >> 24u32) & 0xFF;
        let m0 = truncate_i64_to_32(mac[0]);
        let m1 = truncate_i64_to_32(mac[1]);
        let m2 = truncate_i64_to_32(mac[2]);
        let r_raw = m0 >> 4i64;
        let g_raw = m1 >> 4i64;
        let b_raw = m2 >> 4i64;
        if r_raw < 0 || r_raw > 0xFF {
            self.raise_flag(21);
        }
        if g_raw < 0 || g_raw > 0xFF {
            self.raise_flag(20);
        }
        if b_raw < 0 || b_raw > 0xFF {
            self.raise_flag(19);
        }
        let r = clamp_i64(r_raw, 0, 0xFF) as u32;
        let g = clamp_i64(g_raw, 0, 0xFF) as u32;
        let b = clamp_i64(b_raw, 0, 0xFF) as u32;
        let word = r | (g << 8u32) | (b << 16u32) | (code << 24u32);
        assert(r <= 0xFF && g <= 0xFF && b <= 0xFF ==> ((r | (g << 8u32) | (b << 16u32) | (((d6 >> 24u32) & 0xFF) << 24u32)) >> 24u32) == (d6 >> 24u32) & 0xFF) by (bit_vector);
        self.push_rgb(word);
        let a = self.check_and_saturate_ir(1, m0, lm);
        let bb = self.check_and_saturate_ir(2, m1, lm);
        let c = self.check_and_saturate_ir(3, m2, lm);
        self.set_ir123(a, bb, c);
        assert(self.data@ =~= finish_colour_spec(old(self).data@, mac_sum, sf, lm));
    }

    /// NCS/NCT step: light and colour transform of V`vector_index`, no shading.
    fn ncs_single(&mut self, sf: bool, lm: bool, vector_index: u8)
        requires old(self).wf(), vector_index < 3,
        ensures
            final(self).wf(),
            flags_grow(old(self).control@, final(self).control@),
            final(self).data@ == ncs_spec(old(self).data@, old(self).control@, sf, lm, vector_index),
    {
        let v = self.select_vector(vector_index);
        let (mac2, _) = self.light_and_colour_transform(&v, sf, lm);
        self.finish_colour(mac2, sf, lm);
    }

    fn ncs(&mut self, sf: bool, lm: bool)
        requires old(self).wf(),
        ensures
            final(self).wf(),
            flags_grow(old(self).control@, final(self).control@),
            final(self).data@ == ncs_spec(old(self).data@, old(self).control@, sf, lm, 0),
    {
        self.ncs_single(sf, lm, 0);
    }

    fn nct(&mut self, sf: bool, lm: bool)
        requires old(self).wf(),
        ensures
            final(self).wf(),
            flags_grow(old(self).control@, final(self).control@),
            final(self).data@ == ncs_spec(ncs_spec(ncs_spec(old(self).data@, old(self).control@, sf, lm, 0),
                old(self).control@, sf, lm, 1), old(self).control@, sf, lm, 2),
    {
        let ghost c0 = self.control@;
        self.ncs_single(sf, lm, 0);
        proof { lemma_control_same(c0, self.control@); }
        self.ncs_single(sf, lm, 1);
        proof { lemma_control_same(c0, self.control@); }
        self.ncs_single(sf, lm, 2);
    }

    /// NCCS/NCCT step: light and colour transform, shaded by RGBC.
    fn nccs_single(&mut self, sf: bool, lm: bool, vector_index: u8)
        requires old(self).wf(), vector_index < 3,
        ensures
            final(self).wf(),
            flags_grow(old(self).control@, final(self).control@),
            final(self).data@ == nccs_spec(old(self).data@, old(self).control@, sf, lm, vector_index),
    {
        let v = self.select_vector(vector_index);
        let (_, ir2) = self.light_and_colour_transform(&v, sf, lm);
        let shaded = self.shade_rgb(self.data[6], ir2);
        self.finish_colour(shaded, sf, lm);
    }

    fn nccs(&mut self, sf: bool, lm: bool)
        requires old(self).wf(),
        ensures
            final(self).wf(),
            flags_grow(old(self).control@, final(self).control@),
            final(self).data@ == nccs_spec(old(self).data@, old(self).control@, sf, lm, 0),
    {
        self.nccs_single(sf, lm, 0);
    }

    fn ncct(&mut self, sf: bool, lm: bool)
        requires old(self).wf(),
        ensures
            final(self).wf(),
            flags_grow(old(self).control@, final(self).control@),
            final(self).data@ == nccs_spec(nccs_spec(nccs_spec(old(self).data@, old(self).control@, sf, lm, 0),
                old(self).control@, sf, lm, 1), old(self).control@, sf, lm, 2),
    {
        let ghost c0 = self.control@;
        self.nccs_single(sf, lm, 0);
        proof { lemma_control_same(c0, self.control@); }
        self.nccs_single(sf, lm, 1);
        proof { lemma_control_same(c0, self.control@); }
        self.nccs_single(sf, lm, 2);
    }

    /// NCDS/NCDT step: light and colour transform, shaded, depth cued.
    fn ncds_single(&mut self, sf: bool, lm: bool, vector_index: u8)
        requires old(self).wf(), vector_index < 3,
        ensures
            final(self).wf(),
            flags_grow(old(self).control@, final(self).control@),
            final(self).data@ == ncds_spec(old(self).data@, old(self).control@, sf, lm, vector_index),
    {
        let v = self.select_vector(vector_index);
        let (_, ir2) = self.light_and_colour_transform(&v, sf, lm);
        let ghost c1 = self.control@;
        let shaded = self.shade_rgb(self.data[6], ir2);
        self.depth_cue_and_finish(shaded, sf, lm);
        proof { lemma_control_same(old(self).control@, c1); }
    }

    fn ncds(&mut self, sf: bool, lm: bool)
        requires old(self).wf(),
        ensures
            final(self).wf(),
            flags_grow(old(self).control@, final(self).control@),
            final(self).data@ == ncds_spec(old(self).data@, old(self).control@, sf, lm, 0),
    {
        self.ncds_single(sf, lm, 0);
    }

    #[verifier::rlimit(40)]
    fn ncdt(&mut self, sf: bool, lm: bool)
        requires old(self).wf(),
        ensures
            final(self).wf(),
            flags_grow(old(self).control@, final(self).control@),
            final(self).data@ == ncds_spec(ncds_spec(ncds_spec(old(self).data@, old(self).control@, sf, lm, 0),
                old(self).control@, sf, lm, 1), old(self).control@, sf, lm, 2),
    {
        let ghost c0 = self.control@;
        self.ncds_single(sf, lm, 0);
        proof { lemma_control_same(c0, self.control@); }
        self.ncds_single(sf, lm, 1);
        proof { lemma_control_same(c0, self.control@); }
        self.ncds_single(sf, lm, 2);
    }

    /// CC: colour transform, shaded by RGBC.
    fn cc(&mut self, sf: bool, lm: bool)
        requires old(self).wf(),
        ensures
            final(self).wf(),
            flags_grow(old(self).control@, final(self).control@),
            final(self).data@ == cc_spec(old(self).data@, old(self).control@, sf, lm),
    {
        let (_, ir2) = self.colour_transform_only(sf, lm);
        let shaded = self.shade_rgb(self.data[6], ir2);
        self.finish_colour(shaded, sf, lm);
    }

    /// CDP: colour transform, shaded by RGBC, depth cued.
    fn cdp(&mut self, sf: bool, lm: bool)
        requires old(self).wf(),
        ensures
            final(self).wf(),
            flags_grow(old(self).control@, final(self).control@),
            final(self).data@ == cdp_spec(old(self).data@, old(self).control@, sf, lm),
    {
        let (_, ir2) = self.colour_transform_only(sf, lm);
        let ghost c1 = self.control@;
        let shaded = self.shade_rgb(self.data[6], ir2);
        self.depth_cue_and_finish(shaded, sf, lm);
        proof { lemma_control_same(old(self).control@, c1); }
    }

    /// DCPL: [R*IR1, G*IR2, B*IR3] SHL 4, depth cued.
    fn dcpl(&mut self, sf: bool, lm: bool)
        requires old(self).wf(),
        ensures
            final(self).wf(),
            flags_grow(old(self).control@, final(self).control@),
            final(self).data@ == dcpl_spec(old(self).data@, old(self).control@, sf, lm),
    {
        let ir = self.current_ir_i16();
        let shaded = self.shade_rgb(self.data[6], ir);
        assert(ir == current_ir_spec(old(self).data@)) by { assert(ir@ =~= current_ir_spec(old(self).data@)@); }
        self.depth_cue_and_finish(shaded, sf, lm);
    }

    /// DPCS: [R, G, B] SHL 16 from RGBC, depth cued.
    fn dpcs(&mut self, sf: bool, lm: bool)
        requires old(self).wf(),
        ensures
            final(self).wf(),
            flags_grow(old(self).control@, final(self).control@),
            final(self).data@ == depth_cue_spec(old(self).data@, old(self).control@, flat_rgb(old(self).data@[6]), sf, lm),
    {
        let shaded = self.shade_rgb_flat(self.data[6]);
        assert(shaded == flat_rgb(old(self).data@[6])) by { assert(shaded@ =~= flat_rgb(old(self).data@[6])@); }
        self.depth_cue_and_finish(shaded, sf, lm);
    }

    /// DPCT: DPCS three times, each reading the colour from RGB0 (the FIFO bottom).
    #[verifier::rlimit(40)]
    fn dpct(&mut self, sf: bool, lm: bool)
        requires old(self).wf(),
        ensures
            final(self).wf(),
            flags_grow(old(self).control@, final(self).control@),
            final(self).data@ == dpct_spec(old(self).data@, old(self).control@, sf, lm, 3),
    {
        let mut k: usize = 0;
        while k < 3
            invariant
                k <= 3,
                self.wf(),
                flags_grow(old(self).control@, self.control@),
                self.data@ == dpct_spec(old(self).data@, old(self).control@, sf, lm, k as nat),
            decreases 3 - k,
        {
            let ghost d_k = self.data@;
            let ghost c_k = self.control@;
            let shaded = self.shade_rgb_flat(self.data[20]);
            assert(shaded == flat_rgb(d_k[20])) by { assert(shaded@ =~= flat_rgb(d_k[20])@); }
            self.depth_cue_and_finish(shaded, sf, lm);
            proof { lemma_control_same(old(self).control@, c_k); }
            k = k + 1;
        }
    }

    /// INTPL: [IR1, IR2, IR3] SHL 12, depth cued.
    fn intpl(&mut self, sf: bool, lm: bool)
        requires old(self).wf(),
        ensures
            final(self).wf(),
            flags_grow(old(self).control@, final(self).control@),
            final(self).data@ == depth_cue_spec(old(self).data@, old(self).control@, flat_ir(current_ir_spec(old(self).data@)), sf, lm),
    {
        let ir = self.current_ir_i16();
        let shaded = self.shade_ir_flat(ir);
        assert(ir == current_ir_spec(old(self).data@)) by { assert(ir@ =~= current_ir_spec(old(self).data@)@); }
        assert(shaded == flat_ir(ir)) by { assert(shaded@ =~= flat_ir(ir)@); }
        self.depth_cue_and_finish(shaded, sf, lm);
    }

    /// GPF: MAC = IR * IR0, then the colour finish.
    fn gpf(&mut self, sf: bool, lm: bool)
        requires old(self).wf(),
        ensures
            final(self).wf(),
            flags_grow(old(self).control@, final(self).control@),
            final(self).data@ == finish_colour_spec(old(self).data@, [gpf_term(old(self).data@, 0),
                gpf_term(old(self).data@, 1), gpf_term(old(self).data@, 2)], sf, lm),
    {
        let ir = self.select_vector(3);
        let ir0 = s32_to_i64(self.ir0());
        assert(forall|x: u32| -0x8000 <= #[trigger] s32_spec(sext16(x)) <= 0x7FFF) by { lemma_sext16_facts(); }
        let mut mac_sum = [0i64; 3];
        let mut i: usize = 0;
        while i < 3
            invariant
                i <= 3,
                self.wf(),
                flags_grow(old(self).control@, self.control@),
                vector_small(ir),
                -0x8000 <= ir0 <= 0x7FFF,
                forall|k: int| 0 <= k < i ==> -0x2000_0000_0000 <= #[trigger] mac_sum[k] <= 0x2000_0000_0000,
                self.data@ == old(self).data@,
                ir == select_vector_spec(old(self).data@, 3),
                ir0 == s32_spec(sext16(old(self).data@[8])),
                forall|k: int| 0 <= k < i ==> #[trigger] mac_sum[k] == gpf_term(old(self).data@, k),
            decreases 3 - i,
        {
            let x = ir.0[i] as i64;
            assert(small(ir.0[i as int]));
            assert(-0x4000_0000 <= x * ir0 <= 0x4000_0000) by (nonlinear_arith)
                requires -0x8000 <= x <= 0x7FFF, -0x8000 <= ir0 <= 0x7FFF;
            let term = x * ir0;
            self.check_mac123_overflow(i, term);
            mac_sum[i] = i64_to_i44(term);
            i = i + 1;
        }
        assert(mac_sum@ =~= seq![gpf_term(old(self).data@, 0), gpf_term(old(self).data@, 1), gpf_term(old(self).data@, 2)]);
        self.finish_colour(mac_sum, sf, lm);
    }

    /// GPL: MAC = (MAC SHL (sf*12)) + IR * IR0, then the colour finish.
    fn gpl(&mut self, sf: bool, lm: bool)
        requires old(self).wf(),
        ensures
            final(self).wf(),
            flags_grow(old(self).control@, final(self).control@),
            final(self).data@ == finish_colour_spec(old(self).data@, [gpl_term(old(self).data@, sf, 0),
                gpl_term(old(self).data@, sf, 1), gpl_term(old(self).data@, sf, 2)], sf, lm),
    {
        let ir = self.select_vector(3);
        let ir0 = s32_to_i64(self.ir0());
        assert(forall|x: u32| -0x8000 <= #[trigger] s32_spec(sext16(x)) <= 0x7FFF) by { lemma_sext16_facts(); }
        let mul: i64 = if sf { 0x1000 } else { 1 };
        let mut mac_sum = [0i64; 3];
        let mut i: usize = 0;
        while i < 3
            invariant
                i <= 3,
                self.wf(),
                flags_grow(old(self).control@, self.control@),
                vector_small(ir),
                -0x8000 <= ir0 <= 0x7FFF,
                mul == 1 || mul == 0x1000,
                forall|k: int| 0 <= k < i ==> -0x2000_0000_0000 <= #[trigger] mac_sum[k] <= 0x2000_0000_0000,
                self.data@ == old(self).data@,
                ir == select_vector_spec(old(self).data@, 3),
                ir0 == s32_spec(sext16(old(self).data@[8])),
                mul == (if sf { 0x1000i64 } else { 1i64 }),
                forall|k: int| 0 <= k < i ==> #[trigger] mac_sum[k] == gpl_term(old(self).data@, sf, k),
            decreases 3 - i,
        {
            let base = s32_to_i64(self.data[25 + i]);
            assert(-0x8_0000_0000_0000 <= base * mul <= 0x8_0000_0000_0000) by (nonlinear_arith)
                requires -0x8000_0000 <= base < 0x8000_0000, mul == 1 || mul == 0x1000;
            let shifted_base = base * mul;
            self.check_mac123_overflow(i, shifted_base);
            let wrapped_base = i64_to_i44(shifted_base);
            let x = ir.0[i] as i64;
            assert(small(ir.0[i as int]));
            assert(-0x4000_0000 <= x * ir0 <= 0x4000_0000) by (nonlinear_arith)
                requires -0x8000 <= x <= 0x7FFF, -0x8000 <= ir0 <= 0x7FFF;
            let sum = wrapped_base + x * ir0;
            self.check_mac123_overflow(i, sum);
            mac_sum[i] = i64_to_i44(sum);
            i = i + 1;
        }
        assert(mac_sum@ =~= seq![gpl_term(old(self).data@, sf, 0), gpl_term(old(self).data@, sf, 1), gpl_term(old(self).data@, sf, 2)]);
        self.finish_colour(mac_sum, sf, lm);
    }

    /// Execute a GTE command word (COP2 imm25): FLAG is cleared first, then the command selected
    /// by bits 0..5 runs with sf (bit 19), lm (bit 10) and, for MVMVA, the matrix, vector and
    /// translation selectors (bits 17..18, 15..16, 13..14). Unknown commands change nothing else.
    #[verifier::spinoff_prover]
    #[verifier::rlimit(100)]
    pub fn execute_command(&mut self, command: u32)
        requires old(self).wf(),
        ensures
            final(self).wf(),
            final(self).control@.subrange(0, 31) == old(self).control@.subrange(0, 31),
            // FLAG bits 0..11 always read back as zero.
            flag_value(final(self).control@[31]) & 0xFFF == 0,
            final(self).data@ == command_data_spec(old(self).data@, old(self).control@, command),
            // RTPS and RTPT: a perspective division that overflows sets FLAG bit 17 and the error
            // bit 31.
            command & 0x3F == 0x01 && divide_overflows(old(self).control@, final(self).data@[19])
                ==> flag_value(final(self).control@[31]) & 0x8002_0000 == 0x8002_0000,
            // NCLIP, SQR, AVSZ3 and AVSZ4: FLAG holds exactly the bits their results raise.
            command & 0x3F == 0x06 ==> final(self).control@[31] == mac0_flag_bits(nclip_spec(old(self).data@) as int),
            command & 0x3F == 0x28 ==> final(self).control@[31] == sqr_flag_bits(old(self).data@, command & 0x80000 != 0),
            command & 0x3F == 0x2D ==> final(self).control@[31] == avsz_flag_bits(s32_spec(sext16(old(self).control@[29])),
                ((old(self).data@[17] & 0xFFFF) as i64 + (old(self).data@[18] & 0xFFFF) as i64 + (old(self).data@[19] & 0xFFFF) as i64) as i64),
            command & 0x3F == 0x2E ==> final(self).control@[31] == avsz_flag_bits(s32_spec(sext16(old(self).control@[30])),
                ((old(self).data@[16] & 0xFFFF) as i64 + (old(self).data@[17] & 0xFFFF) as i64 + (old(self).data@[18] & 0xFFFF) as i64
                    + (old(self).data@[19] & 0xFFFF) as i64) as i64),
            command & 0x3F == 0x30 && (divide_overflows(old(self).control@, final(self).data@[17])
                || divide_overflows(old(self).control@, final(self).data@[18]) || divide_overflows(old(self).control@, final(self).data@[19]))
                ==> flag_value(final(self).control@[31]) & 0x8002_0000 == 0x8002_0000,
            !(command & 0x3F == 0x01 || command & 0x3F == 0x06 || command & 0x3F == 0x0C
                || command & 0x3F == 0x10 || command & 0x3F == 0x11 || command & 0x3F == 0x12
                || command & 0x3F == 0x13 || command & 0x3F == 0x14 || command & 0x3F == 0x16
                || command & 0x3F == 0x1B || command & 0x3F == 0x1C || command & 0x3F == 0x1E
                || command & 0x3F == 0x20 || command & 0x3F == 0x28 || command & 0x3F == 0x29
                || command & 0x3F == 0x2A || command & 0x3F == 0x2D || command & 0x3F == 0x2E
                || command & 0x3F == 0x30 || command & 0x3F == 0x3D || command & 0x3F == 0x3E
                || command & 0x3F == 0x3F) ==> final(self).data@ == old(self).data@
                    && final(self).control@[31] == 0,
    {
        self.control[31] = 0;
        let ghost start = self.control@;
        proof { lemma_flag_clear_blind(old(self).data@, old(self).control@, command); }
        let sf = (command & 0x80000) != 0;
        let lm = (command & 0x400) != 0;
        let opcode = command & 0x3F;
        match opcode {
            0x01 => self.rtps(sf, lm),
            0x06 => self.nclip(),
            0x0C => self.op(sf, lm),
            0x10 => self.dpcs(sf, lm),
            0x11 => self.intpl(sf, lm),
            0x12 => {
                let mx = ((command >> 17u32) & 0x03) as u8;
                let vx = ((command >> 15u32) & 0x03) as u8;
                let tx = ((command >> 13u32) & 0x03) as u8;
                assert((command >> 17u32) & 0x03 < 4 && (command >> 15u32) & 0x03 < 4 && (command >> 13u32) & 0x03 < 4) by { crate::bits::lemma_and_bounds(); }
                self.mvmva(sf, mx, vx, tx, lm);
            },
            0x13 => self.ncds(sf, lm),
            0x14 => self.cdp(sf, lm),
            0x16 => self.ncdt(sf, lm),
            0x1B => self.nccs(sf, lm),
            0x1C => self.cc(sf, lm),
            0x1E => self.ncs(sf, lm),
            0x20 => self.nct(sf, lm),
            0x28 => self.sqr(sf),
            0x29 => self.dcpl(sf, lm),
            0x2A => self.dpct(sf, lm),
            0x2D => self.avsz3(),
            0x2E => self.avsz4(),
            0x30 => self.rtpt(sf, lm),
            0x3D => self.gpf(sf, lm),
            0x3E => self.gpl(sf, lm),
            0x3F => self.ncct(sf, lm),
            _ => {},
        }
        assert(self.control@.subrange(0, 31) =~= old(self).control@.subrange(0, 31));
        let f = self.control[31];
        assert(flag_value(f) & 0xFFF == 0) by (bit_vector);
        proof { crate::bits::lemma_or_and(); }
        proof {
            if f & 0x2_0000 != 0 {
                lemma_flag_value_divide(f);
            }
        }
    }
}

} // verus!
