//! The interpreter: fetch the instruction at PC, decode it and execute it, one at a time.
//! Instructions that only compute are described by the effect they have on the CPU; loads and
//! stores go through the system bus.
use vstd::prelude::*;
use vstd::arithmetic::power2::{pow2, lemma_pow2_adds, lemma2_to64, lemma_pow2_pos};
use vstd::arithmetic::div_mod::{lemma_fundamental_div_mod, lemma_fundamental_div_mod_converse, lemma_mod_pos_bound};
use crate::cpu::{Cpu, MipsRegister, reg_write};
use crate::cpu::cop0::{Cop0Register, cop0_index_valid};
use crate::backend::Backend;
use crate::cpu::ir::{IrOp, decode_spec, operands_in_range, lemma_decode_operands_in_range};
use crate::system_bus::{AccessWidth, SystemBus, can_read, can_write, mask_region_spec, read_ok, write_ok};

verus! {

/// Why an instruction could not be executed.
#[derive(Debug, Clone, Copy, PartialEq, Eq, Structural)]
pub enum ExecError {
    /// An instruction the interpreter does not implement: coprocessor 2 and the coprocessor
    /// loads/stores, LWL/LWR/SWL/SWR, RFE, SYSCALL, BREAK and reserved encodings.
    Unimplemented,
    /// ADD or SUB whose 32-bit result carries or borrows (the overflow exception is not
    /// implemented).
    Overflow,
    /// MFC0/MTC0 naming a coprocessor 0 register other than SR, CAUSE and EPC.
    InvalidCop0Register(u8),
    /// A load or store (or instruction fetch) at this address that runs off the end of its
    /// memory, or hits a GPU register off its word.
    BusFault(u32),
}

/// The effect of an instruction that touches only the CPU.
#[derive(Debug, Clone, Copy)]
pub enum CpuEffect {
    /// Write `value` to `reg` (register 0 discards it).
    Write { reg: MipsRegister, value: u32 },
    HiLo { hi: u32, lo: u32 },
    Hi(u32),
    Lo(u32),
    /// A taken branch or jump: the instruction after the delay slot is `target`; `link`
    /// receives the return address.
    Branch { target: u32, link: Option<(MipsRegister, u32)> },
    /// A branch not taken: nothing changes.
    NotTaken,
    Cop0Write { reg: Cop0Register, value: u32 },
    Fail(ExecError),
}

/// The value of register `x`.
pub open spec fn rv(c: Cpu, x: MipsRegister) -> u32 {
    c.registers@[x.0 as int]
}

/// A 16-bit immediate sign-extended to 32 bits.
pub open spec fn sext16(imm: i16) -> u32 {
    imm as u32
}

/// A 32-bit register read as a signed number.
pub open spec fn signed(x: u32) -> int {
    (x as i32) as int
}

/// The branch target `offset` instructions after the delay slot.
pub open spec fn branch_target(c: Cpu, offset: i16) -> u32 {
    c.next_pc.wrapping_add(((offset as i32) as u32) << 2u32)
}

/// A conditional branch: taken when `cond`, linking to `link` when given.
pub open spec fn cond_branch(c: Cpu, cond: bool, offset: i16, link: bool) -> CpuEffect {
    if cond {
        CpuEffect::Branch {
            target: branch_target(c, offset),
            link: if link { Some((MipsRegister(31), c.next_pc.wrapping_add(4))) } else { None },
        }
    } else {
        CpuEffect::NotTaken
    }
}

/// HI:LO of the signed 64-bit product.
pub open spec fn mult_hilo(a: u32, b: u32) -> CpuEffect {
    let m = (signed(a) * signed(b)) % 0x1_0000_0000_0000_0000;
    CpuEffect::HiLo { hi: (m / 0x1_0000_0000) as u32, lo: (m % 0x1_0000_0000) as u32 }
}

/// HI:LO of the unsigned 64-bit product.
pub open spec fn multu_hilo(a: u32, b: u32) -> CpuEffect {
    let p = a as int * b as int;
    CpuEffect::HiLo { hi: (p / 0x1_0000_0000) as u32, lo: (p % 0x1_0000_0000) as u32 }
}

pub open spec fn abs(x: int) -> int {
    if x < 0 { -x } else { x }
}

/// Signed division, rounding towards zero: LO the quotient, HI the remainder (with the sign
/// of the dividend). Dividing by zero gives HI = dividend, LO = FFFFFFFFh; 80000000h / -1
/// gives LO = 80000000h, HI = 0.
pub open spec fn div_hilo(a: u32, b: u32) -> CpuEffect {
    let l = signed(a);
    let d = signed(b);
    if d == 0 {
        CpuEffect::HiLo { hi: a, lo: 0xFFFF_FFFF }
    } else if l == -0x8000_0000 && d == -1 {
        CpuEffect::HiLo { hi: 0, lo: 0x8000_0000 }
    } else {
        let q = abs(l) / abs(d);
        let r = abs(l) % abs(d);
        CpuEffect::HiLo {
            hi: (if l < 0 { -r } else { r }) as u32,
            lo: (if (l < 0) != (d < 0) { -q } else { q }) as u32,
        }
    }
}

/// Unsigned division: LO the quotient, HI the remainder. Dividing by zero gives HI = the
/// dividend and LO = FFFFFFFFh (dividend below 80000000h) or 1.
pub open spec fn divu_hilo(a: u32, b: u32) -> CpuEffect {
    if b == 0 {
        CpuEffect::HiLo { hi: a, lo: if a <= 0x7FFF_FFFF { 0xFFFF_FFFFu32 } else { 1u32 } }
    } else {
        CpuEffect::HiLo { hi: a % b, lo: a / b }
    }
}

pub open spec fn write(reg: MipsRegister, value: u32) -> CpuEffect {
    CpuEffect::Write { reg, value }
}

/// Whether `op` reads or writes memory.
pub open spec fn is_memory_op(op: IrOp) -> bool {
    match op {
        IrOp::Lb { .. } | IrOp::Lbu { .. } | IrOp::Lh { .. } | IrOp::Lhu { .. } | IrOp::Lw { .. }
        | IrOp::Sb { .. } | IrOp::Sh { .. } | IrOp::Sw { .. } => true,
        _ => false,
    }
}

/// The effect of a non-memory instruction on CPU state `c`.
pub open spec fn cpu_effect(op: IrOp, c: Cpu) -> CpuEffect {
    match op {
        IrOp::Add { dst, lhs, rhs } => if rv(c, lhs) + rv(c, rhs) <= u32::MAX {
            write(dst, (rv(c, lhs) + rv(c, rhs)) as u32) } else { CpuEffect::Fail(ExecError::Overflow) },
        IrOp::Addu { dst, lhs, rhs } => write(dst, rv(c, lhs).wrapping_add(rv(c, rhs))),
        IrOp::Sub { dst, lhs, rhs } => if rv(c, lhs) >= rv(c, rhs) {
            write(dst, (rv(c, lhs) - rv(c, rhs)) as u32) } else { CpuEffect::Fail(ExecError::Overflow) },
        IrOp::Subu { dst, lhs, rhs } => write(dst, rv(c, lhs).wrapping_sub(rv(c, rhs))),
        IrOp::Addi { dst, src, imm } | IrOp::Addiu { dst, src, imm } => write(dst, rv(c, src).wrapping_add(sext16(imm))),
        IrOp::Slt { dst, lhs, rhs } => write(dst, if signed(rv(c, lhs)) < signed(rv(c, rhs)) { 1u32 } else { 0u32 }),
        IrOp::Sltu { dst, lhs, rhs } => write(dst, if rv(c, lhs) < rv(c, rhs) { 1u32 } else { 0u32 }),
        IrOp::Slti { dst, src, imm } => write(dst, if signed(rv(c, src)) < imm as int { 1u32 } else { 0u32 }),
        IrOp::Sltiu { dst, src, imm } => write(dst, if rv(c, src) < sext16(imm) { 1u32 } else { 0u32 }),
        IrOp::And { dst, lhs, rhs } => write(dst, rv(c, lhs) & rv(c, rhs)),
        IrOp::Or { dst, lhs, rhs } => write(dst, rv(c, lhs) | rv(c, rhs)),
        IrOp::Xor { dst, lhs, rhs } => write(dst, rv(c, lhs) ^ rv(c, rhs)),
        IrOp::Nor { dst, lhs, rhs } => write(dst, !(rv(c, lhs) | rv(c, rhs))),
        IrOp::Andi { dst, src, imm } => write(dst, rv(c, src) & (imm as u32)),
        IrOp::Ori { dst, src, imm } => write(dst, rv(c, src) | (imm as u32)),
        IrOp::Xori { dst, src, imm } => write(dst, rv(c, src) ^ (imm as u32)),
        IrOp::Sll { dst, src, shamt } => write(dst, rv(c, src) << shamt),
        IrOp::Srl { dst, src, shamt } => write(dst, rv(c, src) >> shamt),
        IrOp::Sra { dst, src, shamt } => write(dst, ((rv(c, src) as i32) >> shamt) as u32),
        IrOp::Sllv { dst, src, shift } => write(dst, rv(c, src) << (rv(c, shift) & 0x1F)),
        IrOp::Srlv { dst, src, shift } => write(dst, rv(c, src) >> (rv(c, shift) & 0x1F)),
        IrOp::Srav { dst, src, shift } => write(dst, ((rv(c, src) as i32) >> (rv(c, shift) & 0x1F)) as u32),
        IrOp::Lui { dst, imm } => write(dst, (imm as u32) << 16u32),
        IrOp::Mult { lhs, rhs } => mult_hilo(rv(c, lhs), rv(c, rhs)),
        IrOp::Multu { lhs, rhs } => multu_hilo(rv(c, lhs), rv(c, rhs)),
        IrOp::Div { lhs, rhs } => div_hilo(rv(c, lhs), rv(c, rhs)),
        IrOp::Divu { lhs, rhs } => divu_hilo(rv(c, lhs), rv(c, rhs)),
        IrOp::Mfhi { dst } => write(dst, c.hi),
        IrOp::Mflo { dst } => write(dst, c.lo),
        IrOp::Mthi { src } => CpuEffect::Hi(rv(c, src)),
        IrOp::Mtlo { src } => CpuEffect::Lo(rv(c, src)),
        IrOp::Beq { lhs, rhs, offset } => cond_branch(c, rv(c, lhs) == rv(c, rhs), offset, false),
        IrOp::Bne { lhs, rhs, offset } => cond_branch(c, rv(c, lhs) != rv(c, rhs), offset, false),
        IrOp::Bltz { src, offset } => cond_branch(c, signed(rv(c, src)) < 0, offset, false),
        IrOp::Bgez { src, offset } => cond_branch(c, signed(rv(c, src)) >= 0, offset, false),
        IrOp::Bgtz { src, offset } => cond_branch(c, signed(rv(c, src)) > 0, offset, false),
        IrOp::Blez { src, offset } => cond_branch(c, signed(rv(c, src)) <= 0, offset, false),
        IrOp::Bltzal { src, offset } => cond_branch(c, signed(rv(c, src)) < 0, offset, true),
        IrOp::Bgezal { src, offset } => cond_branch(c, signed(rv(c, src)) >= 0, offset, true),
        IrOp::J { target } => CpuEffect::Branch { target: (target << 2u32) | (c.pc & 0xF000_0000), link: None },
        IrOp::Jal { target } => CpuEffect::Branch {
            target: (target << 2u32) | (c.pc & 0xF000_0000),
            link: Some((MipsRegister(31), c.next_pc.wrapping_add(4))),
        },
        IrOp::Jr { src } => CpuEffect::Branch { target: rv(c, src), link: None },
        IrOp::Jalr { dst, src } => CpuEffect::Branch { target: rv(c, src), link: Some((dst, c.next_pc)) },
        IrOp::Mfc0 { dst, cop_reg } => if cop0_index_valid(cop_reg.0) {
            write(dst, c.cop0.value(cop_reg.0)) } else { CpuEffect::Fail(ExecError::InvalidCop0Register(cop_reg.0)) },
        IrOp::Mtc0 { src, cop_reg } => if cop0_index_valid(cop_reg.0) {
            CpuEffect::Cop0Write { reg: cop_reg, value: rv(c, src) } } else { CpuEffect::Fail(ExecError::InvalidCop0Register(cop_reg.0)) },
        _ => CpuEffect::Fail(ExecError::Unimplemented),
    }
}

/// `post` is `c` with effect `e` applied.
pub open spec fn applied(c: Cpu, e: CpuEffect, post: Cpu) -> bool {
    match e {
        CpuEffect::Write { reg, value } => post.registers@ == reg_write(c.registers@, reg.0, value)
            && post == (Cpu { registers: post.registers, ..c }),
        CpuEffect::HiLo { hi, lo } => post == (Cpu { hi, lo, ..c }),
        CpuEffect::Hi(v) => post == (Cpu { hi: v, ..c }),
        CpuEffect::Lo(v) => post == (Cpu { lo: v, ..c }),
        CpuEffect::Branch { target, link } => post == (Cpu { registers: post.registers, next_pc: target, in_delay_slot: true, ..c })
            && post.registers@ == (match link {
                Some((reg, value)) => reg_write(c.registers@, reg.0, value),
                None => c.registers@,
            }),
        CpuEffect::NotTaken => post == c,
        CpuEffect::Cop0Write { reg, value } => post == (Cpu { cop0: post.cop0, ..c })
            && post.cop0.value(reg.0) == value
            && forall|other: u8| cop0_index_valid(other) && other != reg.0 ==> post.cop0.value(other) == c.cop0.value(other),
        CpuEffect::Fail(_) => post == c,
    }
}

/// An arithmetic right shift by `s` divides the signed value by 2^s, rounding towards minus
/// infinity.
proof fn lemma_arith_shift_floor(x: u32, s: u32)
    requires s < 32,
    ensures signed(((x as i32) >> s) as u32) == signed(x) / (pow2(s as nat) as int),
{
    crate::bits::lemma_hardware_arith();
    let p = pow2(s as nat) as int;
    let q = pow2((32 - s) as nat) as int;
    lemma_pow2_adds(s as nat, (32 - s) as nat);
    lemma2_to64();
    lemma_pow2_pos(s as nat);
    lemma_pow2_pos((32 - s) as nat);
    assert(p * q == 0x1_0000_0000);
    vstd::bits::lemma_u32_shr_is_div(x, s);
    vstd::bits::lemma_u32_shr_is_div(0xFFFF_FFFFu32, s);
    let lo = (x >> s) as int;
    let m = (0xFFFF_FFFFu32 >> s) as int;
    assert(0xFFFF_FFFF == (q - 1) * p + (p - 1)) by (nonlinear_arith)
        requires p * q == 0x1_0000_0000;
    lemma_fundamental_div_mod_converse(0xFFFF_FFFF, p, q - 1, p - 1);
    assert(m == q - 1);
    lemma_fundamental_div_mod(x as int, p);
    lemma_mod_pos_bound(x as int, p);
    let r = (x as int) % p;
    assert(lo == (x as int) / p);
    assert(x as int == lo * p + r) by (nonlinear_arith)
        requires x as int == p * ((x as int) / p) + r, lo == (x as int) / p;
    let v = ((x as i32) >> s) as u32;
    if (x as i32) < 0 {
        assert(v as int == lo + 0x1_0000_0000 - q);
        assert(v >= 0x8000_0000u32);
        assert(signed(v) == lo - q);
        assert(signed(x) == (lo - q) * p + r) by (nonlinear_arith)
            requires signed(x) == x as int - 0x1_0000_0000, x as int == lo * p + r, p * q == 0x1_0000_0000;
        lemma_fundamental_div_mod_converse(signed(x), p, lo - q, r);
    } else {
        assert(lo <= x as int) by (nonlinear_arith)
            requires x as int == lo * p + r, p >= 1, r >= 0, lo >= 0;
        assert(v == x >> s);
        assert(signed(v) == lo);
        lemma_fundamental_div_mod_converse(signed(x), p, lo, r);
    }
}

/// SRAV shifts `rs` right arithmetically by the low five bits of the shift register: the signed
/// result is the signed value of `rs` divided by 2^(shift & 31), rounded towards minus infinity.
/// A negative `rs` gives a negative result; a non-negative one gives what SRLV gives, and a
/// negative one shifted by a non-zero amount gives something else.
pub proof fn lemma_srav(c: Cpu, dst: MipsRegister, src: MipsRegister, shift: MipsRegister)
    ensures
        ({
            let x = rv(c, src);
            let s = rv(c, shift) & 0x1F;
            let e = cpu_effect(IrOp::Srav { dst, src, shift }, c);
            &&& match e {
                CpuEffect::Write { reg, value } => reg == dst
                    && signed(value) == signed(x) / (pow2(s as nat) as int)
                    && (signed(x) < 0 ==> signed(value) < 0),
                _ => false,
            }
            &&& signed(x) >= 0 ==> e == cpu_effect(IrOp::Srlv { dst, src, shift }, c)
            &&& signed(x) < 0 && s != 0 ==> e != cpu_effect(IrOp::Srlv { dst, src, shift }, c)
        }),
{
    crate::bits::lemma_and_bounds();
    crate::bits::lemma_hardware_arith();
    let x = rv(c, src);
    let s = rv(c, shift) & 0x1F;
    assert(s < 32);
    lemma_arith_shift_floor(x, s);
    let v = ((x as i32) >> s) as u32;
    if signed(x) < 0 {
        assert(v >= 0x8000_0000u32);
        if s != 0 {
            assert(x >> s < 0x8000_0000u32);
        }
    }
}

/// The high and low words of a 64-bit value.
fn split64(p: u64) -> (r: (u32, u32))
    ensures
        r.0 == p / 0x1_0000_0000,
        r.1 == p % 0x1_0000_0000,
{
    let hi = (p >> 32u64) as u32;
    let lo = p as u32;
    assert(hi == p / 0x1_0000_0000 && lo == p % 0x1_0000_0000) by (bit_vector)
        requires hi == (p >> 32u64) as u32, lo == p as u32;
    (hi, lo)
}

/// A register read as signed, widened to 64 bits, as a 64-bit pattern.
fn sext64(a: u32) -> (r: u64)
    ensures
        r as int == signed(a) % 0x1_0000_0000_0000_0000,
{
    let r = a as i32 as i64 as u64;
    assert(r as int == signed(a) % 0x1_0000_0000_0000_0000) by (bit_vector)
        requires r == a as i32 as i64 as u64;
    r
}

fn mult_exec(a: u32, b: u32) -> (r: CpuEffect)
    ensures
        r == mult_hilo(a, b),
{
    let ux = sext64(a);
    let uy = sext64(b);
    let p: u64 = ux.wrapping_mul(uy);
    proof {
        vstd::arithmetic::div_mod::lemma_mul_mod_noop_general(signed(a), signed(b), 0x1_0000_0000_0000_0000);
    }
    let (hi, lo) = split64(p);
    CpuEffect::HiLo { hi, lo }
}

fn multu_exec(a: u32, b: u32) -> (r: CpuEffect)
    ensures
        r == multu_hilo(a, b),
{
    let x = a as u64;
    let y = b as u64;
    assert(x * y <= 0xFFFF_FFFE_0000_0001) by (nonlinear_arith) requires x <= 0xFFFF_FFFF, y <= 0xFFFF_FFFF;
    let (hi, lo) = split64(x * y);
    CpuEffect::HiLo { hi, lo }
}

/// |x| of a register read as signed, as an unsigned number.
fn magnitude(x: u32) -> (r: u32)
    ensures
        r as int == abs(signed(x)),
{
    assert(((x as i32) < 0 ==> 0u32.wrapping_sub(x) as int == -((x as i32) as int))
        && ((x as i32) >= 0 ==> x as int == (x as i32) as int)) by (bit_vector);
    if (x as i32) < 0 {
        0u32.wrapping_sub(x)
    } else {
        x
    }
}

/// The 32-bit pattern of the negation of `m`.
fn negate(m: u32) -> (r: u32)
    ensures
        r == (-(m as int)) as u32,
{
    let r = 0u32.wrapping_sub(m);
    assert(r == (-(m as int)) as u32) by (bit_vector) requires r == 0u32.wrapping_sub(m);
    r
}

fn div_exec(a: u32, b: u32) -> (r: CpuEffect)
    ensures
        r == div_hilo(a, b),
{
    let l = a as i32;
    let d = b as i32;
    if d == 0 {
        CpuEffect::HiLo { hi: a, lo: 0xFFFF_FFFF }
    } else if l == -0x8000_0000i32 && d == -1i32 {
        CpuEffect::HiLo { hi: 0, lo: 0x8000_0000 }
    } else {
        let la = magnitude(a);
        let da = magnitude(b);
        let qa = la / da;
        let ra = la % da;
        let q = if (l < 0) != (d < 0) { negate(qa) } else { qa };
        let r = if l < 0 { negate(ra) } else { ra };
        proof {
            assert(qa as int == abs(signed(a)) / abs(signed(b)));
            assert(ra as int == abs(signed(a)) % abs(signed(b)));
            assert((qa as int) as u32 == qa);
        }
        CpuEffect::HiLo { hi: r, lo: q }
    }
}

fn divu_exec(a: u32, b: u32) -> (r: CpuEffect)
    ensures
        r == divu_hilo(a, b),
{
    if b == 0 {
        CpuEffect::HiLo { hi: a, lo: if a <= 0x7FFF_FFFF { 0xFFFF_FFFF } else { 1 } }
    } else {
        CpuEffect::HiLo { hi: a % b, lo: a / b }
    }
}

fn branch_exec(cpu: &Cpu, cond: bool, offset: i16, link: bool) -> (r: CpuEffect)
    ensures
        r == cond_branch(*cpu, cond, offset, link),
{
    if cond {
        let target = cpu.next_pc().wrapping_add(((offset as i32) as u32) << 2u32);
        let l = if link { Some((MipsRegister(31), cpu.next_pc().wrapping_add(4))) } else { None };
        CpuEffect::Branch { target, link: l }
    } else {
        CpuEffect::NotTaken
    }
}

/// The effect of a non-memory instruction on the current CPU state.
fn compute_effect(op: &IrOp, cpu: &Cpu) -> (r: CpuEffect)
    requires
        !is_memory_op(*op),
        operands_in_range(*op),
    ensures
        r == cpu_effect(*op, *cpu),
{
    match op {
        IrOp::Add { dst, lhs, rhs } => {
            match cpu.read_reg(*lhs).checked_add(cpu.read_reg(*rhs)) {
                Some(sum) => CpuEffect::Write { reg: *dst, value: sum },
                None => CpuEffect::Fail(ExecError::Overflow),
            }
        },
        IrOp::Addu { dst, lhs, rhs } => CpuEffect::Write { reg: *dst, value: cpu.read_reg(*lhs).wrapping_add(cpu.read_reg(*rhs)) },
        IrOp::Sub { dst, lhs, rhs } => {
            match cpu.read_reg(*lhs).checked_sub(cpu.read_reg(*rhs)) {
                Some(diff) => CpuEffect::Write { reg: *dst, value: diff },
                None => CpuEffect::Fail(ExecError::Overflow),
            }
        },
        IrOp::Subu { dst, lhs, rhs } => CpuEffect::Write { reg: *dst, value: cpu.read_reg(*lhs).wrapping_sub(cpu.read_reg(*rhs)) },
        IrOp::Addi { dst, src, imm } => CpuEffect::Write { reg: *dst, value: cpu.read_reg(*src).wrapping_add(*imm as u32) },
        IrOp::Addiu { dst, src, imm } => CpuEffect::Write { reg: *dst, value: cpu.read_reg(*src).wrapping_add(*imm as u32) },
        IrOp::Slt { dst, lhs, rhs } => {
            let v: u32 = if (cpu.read_reg(*lhs) as i32) < (cpu.read_reg(*rhs) as i32) { 1 } else { 0 };
            CpuEffect::Write { reg: *dst, value: v }
        },
        IrOp::Sltu { dst, lhs, rhs } => {
            let v: u32 = if cpu.read_reg(*lhs) < cpu.read_reg(*rhs) { 1 } else { 0 };
            CpuEffect::Write { reg: *dst, value: v }
        },
        IrOp::Slti { dst, src, imm } => {
            let v: u32 = if (cpu.read_reg(*src) as i32) < (*imm as i32) { 1 } else { 0 };
            CpuEffect::Write { reg: *dst, value: v }
        },
        IrOp::Sltiu { dst, src, imm } => {
            let v: u32 = if cpu.read_reg(*src) < (*imm as u32) { 1 } else { 0 };
            CpuEffect::Write { reg: *dst, value: v }
        },
        IrOp::And { dst, lhs, rhs } => CpuEffect::Write { reg: *dst, value: cpu.read_reg(*lhs) & cpu.read_reg(*rhs) },
        IrOp::Or { dst, lhs, rhs } => CpuEffect::Write { reg: *dst, value: cpu.read_reg(*lhs) | cpu.read_reg(*rhs) },
        IrOp::Xor { dst, lhs, rhs } => CpuEffect::Write { reg: *dst, value: cpu.read_reg(*lhs) ^ cpu.read_reg(*rhs) },
        IrOp::Nor { dst, lhs, rhs } => CpuEffect::Write { reg: *dst, value: !(cpu.read_reg(*lhs) | cpu.read_reg(*rhs)) },
        IrOp::Andi { dst, src, imm } => CpuEffect::Write { reg: *dst, value: cpu.read_reg(*src) & (*imm as u32) },
        IrOp::Ori { dst, src, imm } => CpuEffect::Write { reg: *dst, value: cpu.read_reg(*src) | (*imm as u32) },
        IrOp::Xori { dst, src, imm } => CpuEffect::Write { reg: *dst, value: cpu.read_reg(*src) ^ (*imm as u32) },
        IrOp::Sll { dst, src, shamt } => CpuEffect::Write { reg: *dst, value: cpu.read_reg(*src) << *shamt },
        IrOp::Srl { dst, src, shamt } => CpuEffect::Write { reg: *dst, value: cpu.read_reg(*src) >> *shamt },
        IrOp::Sra { dst, src, shamt } => CpuEffect::Write { reg: *dst, value: ((cpu.read_reg(*src) as i32) >> *shamt) as u32 },
        IrOp::Sllv { dst, src, shift } => {
            let sv = cpu.read_reg(*shift);
            let s = sv & 0x1F;
            assert(sv & 0x1F < 32) by { crate::bits::lemma_and_bounds(); }
            CpuEffect::Write { reg: *dst, value: cpu.read_reg(*src) << s }
        },
        IrOp::Srlv { dst, src, shift } => {
            let sv = cpu.read_reg(*shift);
            let s = sv & 0x1F;
            assert(sv & 0x1F < 32) by { crate::bits::lemma_and_bounds(); }
            CpuEffect::Write { reg: *dst, value: cpu.read_reg(*src) >> s }
        },
        IrOp::Srav { dst, src, shift } => {
            let sv = cpu.read_reg(*shift);
            let s = sv & 0x1F;
            assert(sv & 0x1F < 32) by { crate::bits::lemma_and_bounds(); }
            CpuEffect::Write { reg: *dst, value: ((cpu.read_reg(*src) as i32) >> s) as u32 }
        },
        IrOp::Lui { dst, imm } => CpuEffect::Write { reg: *dst, value: (*imm as u32) << 16u32 },
        IrOp::Mult { lhs, rhs } => mult_exec(cpu.read_reg(*lhs), cpu.read_reg(*rhs)),
        IrOp::Multu { lhs, rhs } => multu_exec(cpu.read_reg(*lhs), cpu.read_reg(*rhs)),
        IrOp::Div { lhs, rhs } => div_exec(cpu.read_reg(*lhs), cpu.read_reg(*rhs)),
        IrOp::Divu { lhs, rhs } => divu_exec(cpu.read_reg(*lhs), cpu.read_reg(*rhs)),
        IrOp::Mfhi { dst } => CpuEffect::Write { reg: *dst, value: cpu.hi() },
        IrOp::Mflo { dst } => CpuEffect::Write { reg: *dst, value: cpu.lo() },
        IrOp::Mthi { src } => CpuEffect::Hi(cpu.read_reg(*src)),
        IrOp::Mtlo { src } => CpuEffect::Lo(cpu.read_reg(*src)),
        IrOp::Beq { lhs, rhs, offset } => branch_exec(cpu, cpu.read_reg(*lhs) == cpu.read_reg(*rhs), *offset, false),
        IrOp::Bne { lhs, rhs, offset } => branch_exec(cpu, cpu.read_reg(*lhs) != cpu.read_reg(*rhs), *offset, false),
        IrOp::Bltz { src, offset } => branch_exec(cpu, (cpu.read_reg(*src) as i32) < 0, *offset, false),
        IrOp::Bgez { src, offset } => branch_exec(cpu, (cpu.read_reg(*src) as i32) >= 0, *offset, false),
        IrOp::Bgtz { src, offset } => branch_exec(cpu, (cpu.read_reg(*src) as i32) > 0, *offset, false),
        IrOp::Blez { src, offset } => branch_exec(cpu, (cpu.read_reg(*src) as i32) <= 0, *offset, false),
        IrOp::Bltzal { src, offset } => branch_exec(cpu, (cpu.read_reg(*src) as i32) < 0, *offset, true),
        IrOp::Bgezal { src, offset } => branch_exec(cpu, (cpu.read_reg(*src) as i32) >= 0, *offset, true),
        IrOp::J { target } => CpuEffect::Branch { target: (*target << 2u32) | (cpu.pc() & 0xF000_0000), link: None },
        IrOp::Jal { target } => CpuEffect::Branch {
            target: (*target << 2u32) | (cpu.pc() & 0xF000_0000),
            link: Some((MipsRegister(31), cpu.next_pc().wrapping_add(4))),
        },
        IrOp::Jr { src } => CpuEffect::Branch { target: cpu.read_reg(*src), link: None },
        IrOp::Jalr { dst, src } => CpuEffect::Branch {
            target: cpu.read_reg(*src),
            link: Some((*dst, cpu.next_pc())),
        },
        IrOp::Mfc0 { dst, cop_reg } => {
            if 12 <= cop_reg.0 && cop_reg.0 <= 14 {
                CpuEffect::Write { reg: *dst, value: cpu.read_cop0(*cop_reg) }
            } else {
                CpuEffect::Fail(ExecError::InvalidCop0Register(cop_reg.0))
            }
        },
        IrOp::Mtc0 { src, cop_reg } => {
            if 12 <= cop_reg.0 && cop_reg.0 <= 14 {
                CpuEffect::Cop0Write { reg: *cop_reg, value: cpu.read_reg(*src) }
            } else {
                CpuEffect::Fail(ExecError::InvalidCop0Register(cop_reg.0))
            }
        },
        _ => CpuEffect::Fail(ExecError::Unimplemented),
    }
}

/// Apply an effect to the CPU.
fn apply_effect(cpu: &mut Cpu, e: CpuEffect) -> (r: Result<(), ExecError>)
    requires
        old(cpu).wf(),
        match e {
            CpuEffect::Write { reg, .. } => reg.0 < 32,
            CpuEffect::Branch { link: Some((reg, _)), .. } => reg.0 < 32,
            CpuEffect::Cop0Write { reg, .. } => cop0_index_valid(reg.0),
            _ => true,
        },
    ensures
        final(cpu).wf(),
        applied(*old(cpu), e, *final(cpu)),
        r == (match e {
            CpuEffect::Fail(err) => Err::<(), ExecError>(err),
            _ => Ok(()),
        }),
{
    match e {
        CpuEffect::Write { reg, value } => {
            cpu.write_reg(reg, value);
            Ok(())
        },
        CpuEffect::HiLo { hi, lo } => {
            cpu.set_hi(hi);
            cpu.set_lo(lo);
            Ok(())
        },
        CpuEffect::Hi(v) => {
            cpu.set_hi(v);
            Ok(())
        },
        CpuEffect::Lo(v) => {
            cpu.set_lo(v);
            Ok(())
        },
        CpuEffect::Branch { target, link } => {
            if let Some((reg, value)) = link {
                cpu.write_reg(reg, value);
            }
            cpu.set_next_pc(target);
            cpu.set_in_delay_slot(true);
            Ok(())
        },
        CpuEffect::NotTaken => Ok(()),
        CpuEffect::Cop0Write { reg, value } => {
            cpu.write_cop0(reg, value);
            Ok(())
        },
        CpuEffect::Fail(err) => Err(err),
    }
}

/// The effective address of a load or store.
pub open spec fn effective_addr(c: Cpu, base: MipsRegister, offset: i16) -> u32 {
    rv(c, base).wrapping_add(sext16(offset))
}

pub open spec fn load_parts(op: IrOp) -> Option<(MipsRegister, MipsRegister, i16, AccessWidth)> {
    match op {
        IrOp::Lb { dst, base, offset } | IrOp::Lbu { dst, base, offset } => Some((dst, base, offset, AccessWidth::Byte)),
        IrOp::Lh { dst, base, offset } | IrOp::Lhu { dst, base, offset } => Some((dst, base, offset, AccessWidth::Half)),
        IrOp::Lw { dst, base, offset } => Some((dst, base, offset, AccessWidth::Word)),
        _ => None,
    }
}

pub open spec fn store_parts(op: IrOp) -> Option<(MipsRegister, MipsRegister, i16, AccessWidth)> {
    match op {
        IrOp::Sb { src, base, offset } => Some((src, base, offset, AccessWidth::Byte)),
        IrOp::Sh { src, base, offset } => Some((src, base, offset, AccessWidth::Half)),
        IrOp::Sw { src, base, offset } => Some((src, base, offset, AccessWidth::Word)),
        _ => None,
    }
}

/// The register value a load delivers from the bus value `v`: bytes and halfwords are
/// sign-extended by LB/LH and zero-extended by LBU/LHU.
pub open spec fn load_extend(op: IrOp, v: u32) -> u32 {
    match op {
        IrOp::Lb { .. } => ((v as u8) as i8) as u32,
        IrOp::Lbu { .. } => (v as u8) as u32,
        IrOp::Lh { .. } => ((v as u16) as i16) as u32,
        IrOp::Lhu { .. } => (v as u16) as u32,
        _ => v,
    }
}

/// The bits of the source register a store writes.
pub open spec fn store_value(v: u32, width: AccessWidth) -> u32 {
    match width {
        AccessWidth::Byte => v & 0xFF,
        AccessWidth::Half => v & 0xFFFF,
        AccessWidth::Word => v,
    }
}

/// Bit 16 of SR isolates the cache: stores then do not reach memory.
pub open spec fn cache_isolated(c: Cpu) -> bool {
    c.cop0.sr & 0x10000 != 0
}

/// What a load does: a faulting address changes nothing; otherwise the loaded value, extended,
/// becomes visible in `dst` after the next instruction (a load into register 0 is dropped).
/// Where the read has no side effects, the value is what the bus holds there.
pub open spec fn load_spec(op: IrOp, c: Cpu, bus: SystemBus, c2: Cpu, bus2: SystemBus, r: Result<(), ExecError>) -> bool {
    let (dst, base, offset, width) = load_parts(op).unwrap();
    let addr = effective_addr(c, base, offset);
    if !read_ok(addr, width) {
        r == Err::<(), ExecError>(ExecError::BusFault(addr)) && c2 == c && bus2 == bus
    } else {
        &&& r == Ok::<(), ExecError>(())
        &&& c2 == (Cpu { load_delay: c2.load_delay, next_load_delay: c2.next_load_delay, ..c })
        &&& dst.0 == 0 ==> c2 == c
        &&& dst.0 != 0 ==> (c2.next_load_delay matches Some((reg, v)) && reg.0 == dst.0
            && (bus.peek(mask_region_spec(addr), width) matches Some(pv) ==> v == load_extend(op, pv)))
        &&& dst.0 != 0 ==> c2.load_delay == (match c.load_delay {
                Some((p, _)) if p.0 == dst.0 => None,
                other => other,
            })
        &&& bus.peek(mask_region_spec(addr), width) is Some ==> bus2 == bus
    }
}

/// What a store does: nothing while the cache is isolated or at a faulting address;
/// otherwise the register's low bytes are written through the bus.
pub open spec fn store_spec(op: IrOp, c: Cpu, bus: SystemBus, c2: Cpu, bus2: SystemBus, r: Result<(), ExecError>) -> bool {
    let (src, base, offset, width) = store_parts(op).unwrap();
    let addr = effective_addr(c, base, offset);
    &&& c2 == c
    &&& if cache_isolated(c) {
        r == Ok::<(), ExecError>(()) && bus2 == bus
    } else if !write_ok(addr, width) {
        r == Err::<(), ExecError>(ExecError::BusFault(addr)) && bus2 == bus
    } else {
        r == Ok::<(), ExecError>(()) && bus.write_effect(bus2, addr, store_value(rv(c, src), width), width)
    }
}

/// The result an effect reports.
pub open spec fn effect_result(e: CpuEffect) -> Result<(), ExecError> {
    match e {
        CpuEffect::Fail(err) => Err(err),
        _ => Ok(()),
    }
}

/// The CPU state in which a fetched instruction executes: the older pending load committed,
/// the newer one moved up, the delay-slot flag cleared, PC advanced to the delay slot and the
/// next PC one word further.
pub open spec fn prepared(c: Cpu, p: Cpu) -> bool {
    &&& p.registers@ == (match c.load_delay {
        Some((reg, v)) => reg_write(c.registers@, reg.0, v),
        None => c.registers@,
    })
    &&& p == (Cpu {
        registers: p.registers,
        load_delay: c.next_load_delay,
        next_load_delay: None,
        in_delay_slot: false,
        pc: c.next_pc,
        next_pc: c.next_pc.wrapping_add(4),
        ..c
    })
}

/// The interpreter backend; it holds no state of its own.
/// One interpreter step from (`cpu`, `bus`) to (`cpu2`, `bus2`) with result `r`: the older
/// pending load is committed and PC moves to the delay slot (`prepared`), then the instruction
/// fetched from the old PC runs on that CPU; an unreadable PC is a bus fault that changes
/// nothing on the bus. The CPU and bus stay well formed and the clock does not move.
pub open spec fn interpreter_stepped(cpu: Cpu, bus: SystemBus, cpu2: Cpu, bus2: SystemBus, r: Result<(), ExecError>) -> bool {
    &&& cpu2.wf()
    &&& bus2.wf()
    &&& bus2.scheduler.current_cycle == bus.scheduler.current_cycle
    &&& !read_ok(cpu.pc, AccessWidth::Word) ==> r == Err::<(), ExecError>(ExecError::BusFault(cpu.pc)) && bus2 == bus
    &&& read_ok(cpu.pc, AccessWidth::Word) ==> exists|p: Cpu| #[trigger] prepared(cpu, p)
        && (bus.peek(mask_region_spec(cpu.pc), AccessWidth::Word) matches Some(raw)
            ==> (!is_memory_op(decode_spec(raw)) ==> applied(p, cpu_effect(decode_spec(raw), p), cpu2)
                && bus2 == bus && r == effect_result(cpu_effect(decode_spec(raw), p)))
            && (load_parts(decode_spec(raw)) is Some ==> load_spec(decode_spec(raw), p, bus, cpu2, bus2, r))
            && (store_parts(decode_spec(raw)) is Some ==> store_spec(decode_spec(raw), p, bus, cpu2, bus2, r)))
}

/// Consecutive states of a run, each reached from the one before by a successful step.
pub open spec fn step_chain(states: Seq<(Cpu, SystemBus)>) -> bool {
    forall|k: int| 0 <= k < states.len() - 1
        ==> #[trigger] interpreter_stepped(states[k].0, states[k].1, states[k + 1].0, states[k + 1].1, Ok(()))
}

pub struct Interpreter;

impl Interpreter {
    pub fn new() -> (r: Self) {
        Interpreter
    }

    fn exec_load(&mut self, op: IrOp, cpu: &mut Cpu, bus: &mut SystemBus) -> (r: Result<(), ExecError>)
        requires
            old(cpu).wf(),
            old(bus).wf(),
            load_parts(op) is Some,
            operands_in_range(op),
        ensures
            final(cpu).wf(),
            final(bus).wf(),
            final(bus).scheduler.current_cycle == old(bus).scheduler.current_cycle,
            load_spec(op, *old(cpu), *old(bus), *final(cpu), *final(bus), r),
    {
        let (dst, base, offset, width) = match op {
            IrOp::Lb { dst, base, offset } | IrOp::Lbu { dst, base, offset } => (dst, base, offset, AccessWidth::Byte),
            IrOp::Lh { dst, base, offset } | IrOp::Lhu { dst, base, offset } => (dst, base, offset, AccessWidth::Half),
            _ => match op {
                IrOp::Lw { dst, base, offset } => (dst, base, offset, AccessWidth::Word),
                _ => (MipsRegister(0), MipsRegister(0), 0i16, AccessWidth::Word),
            },
        };
        let addr = cpu.read_reg(base).wrapping_add(offset as u32);
        if !can_read(addr, width) {
            return Err(ExecError::BusFault(addr));
        }
        let value: u32 = match op {
            IrOp::Lb { .. } => bus.read8(addr) as i8 as i32 as u32,
            IrOp::Lbu { .. } => bus.read8(addr) as u32,
            IrOp::Lh { .. } => bus.read16(addr) as i16 as i32 as u32,
            IrOp::Lhu { .. } => bus.read16(addr) as u32,
            _ => bus.read32(addr),
        };
        cpu.set_load_delay(dst, value);
        Ok(())
    }

    fn exec_store(&mut self, op: IrOp, cpu: &mut Cpu, bus: &mut SystemBus) -> (r: Result<(), ExecError>)
        requires
            old(cpu).wf(),
            old(bus).wf(),
            store_parts(op) is Some,
            operands_in_range(op),
        ensures
            final(cpu).wf(),
            final(bus).wf(),
            final(bus).scheduler.current_cycle == old(bus).scheduler.current_cycle,
            store_spec(op, *old(cpu), *old(bus), *final(cpu), *final(bus), r),
    {
        if cpu.read_cop0(Cop0Register(12)) & 0x10000 != 0 {
            return Ok(());
        }
        let (src, base, offset, width) = match op {
            IrOp::Sb { src, base, offset } => (src, base, offset, AccessWidth::Byte),
            IrOp::Sh { src, base, offset } => (src, base, offset, AccessWidth::Half),
            IrOp::Sw { src, base, offset } => (src, base, offset, AccessWidth::Word),
            _ => (MipsRegister(0), MipsRegister(0), 0i16, AccessWidth::Word),
        };
        let addr = cpu.read_reg(base).wrapping_add(offset as u32);
        if !can_write(addr, width) {
            return Err(ExecError::BusFault(addr));
        }
        let v = cpu.read_reg(src);
        assert(((v & 0xFF) as u8) as u32 == v & 0xFF && ((v & 0xFFFF) as u16) as u32 == v & 0xFFFF) by (bit_vector);
        match width {
            AccessWidth::Byte => {
                let b = (v & 0xFF) as u8;
                bus.write8(addr, b);
            },
            AccessWidth::Half => {
                let h = (v & 0xFFFF) as u16;
                bus.write16(addr, h);
            },
            AccessWidth::Word => bus.write32(addr, v),
        }
        Ok(())
    }

    /// Execute a decoded instruction.
    pub fn execute(&mut self, op: IrOp, cpu: &mut Cpu, bus: &mut SystemBus) -> (r: Result<(), ExecError>)
        requires
            old(cpu).wf(),
            old(bus).wf(),
            operands_in_range(op),
        ensures
            final(cpu).wf(),
            final(bus).wf(),
            final(bus).scheduler.current_cycle == old(bus).scheduler.current_cycle,
            !is_memory_op(op) ==> applied(*old(cpu), cpu_effect(op, *old(cpu)), *final(cpu))
                && *final(bus) == *old(bus) && r == effect_result(cpu_effect(op, *old(cpu))),
            load_parts(op) is Some ==> load_spec(op, *old(cpu), *old(bus), *final(cpu), *final(bus), r),
            store_parts(op) is Some ==> store_spec(op, *old(cpu), *old(bus), *final(cpu), *final(bus), r),
    {
        match op {
            IrOp::Lb { .. } | IrOp::Lbu { .. } | IrOp::Lh { .. } | IrOp::Lhu { .. } | IrOp::Lw { .. } =>
                self.exec_load(op, cpu, bus),
            IrOp::Sb { .. } | IrOp::Sh { .. } | IrOp::Sw { .. } => self.exec_store(op, cpu, bus),
            _ => {
                let e = compute_effect(&op, cpu);
                apply_effect(cpu, e)
            },
        }
    }
}

impl Backend for Interpreter {
    open spec fn stepped(cpu: Cpu, bus: SystemBus, cpu2: Cpu, bus2: SystemBus, r: Result<(), ExecError>) -> bool {
        interpreter_stepped(cpu, bus, cpu2, bus2, r)
    }

    /// Commit the older pending load, fetch the instruction at PC, move PC to the delay slot,
    /// and execute the instruction.
    fn step(&mut self, cpu: &mut Cpu, bus: &mut SystemBus) -> (r: Result<(), ExecError>)
        ensures
            interpreter_stepped(*old(cpu), *old(bus), *final(cpu), *final(bus), r),
    {
        cpu.commit_load_delay();
        cpu.set_in_delay_slot(false);
        let pc = cpu.pc();
        if !can_read(pc, AccessWidth::Word) {
            return Err(ExecError::BusFault(pc));
        }
        let raw = bus.read32(pc);
        let op = IrOp::decode(raw);
        proof { lemma_decode_operands_in_range(raw); }
        let next = cpu.next_pc();
        cpu.set_pc(next);
        cpu.set_next_pc(next.wrapping_add(4));
        let ghost p = *cpu;
        assert(prepared(*old(cpu), p));
        self.execute(op, cpu, bus)
    }

    /// Run `cycles` steps; on success the final state is reached from the first by `cycles`
    /// successful steps, on failure by fewer successful steps and then the failing one.
    fn run(&mut self, cpu: &mut Cpu, bus: &mut SystemBus, cycles: u64) -> (r: Result<(), ExecError>)
        ensures
            r is Ok ==> exists|states: Seq<(Cpu, SystemBus)>| #![trigger step_chain(states)]
                states.len() == cycles + 1 && states[0] == (*old(cpu), *old(bus))
                && states.last() == (*final(cpu), *final(bus)) && step_chain(states),
            r is Err ==> exists|states: Seq<(Cpu, SystemBus)>| #![trigger step_chain(states)]
                1 <= states.len() <= cycles && states[0] == (*old(cpu), *old(bus)) && step_chain(states)
                && interpreter_stepped(states.last().0, states.last().1, *final(cpu), *final(bus), r),
    {
        let mut i: u64 = 0;
        let ghost mut states: Seq<(Cpu, SystemBus)> = seq![(*cpu, *bus)];
        while i < cycles
            invariant
                cpu.wf(),
                bus.wf(),
                bus.scheduler.current_cycle == old(bus).scheduler.current_cycle,
                i <= cycles,
                states.len() == i + 1,
                states[0] == (*old(cpu), *old(bus)),
                states.last() == (*cpu, *bus),
                step_chain(states),
            decreases cycles - i,
        {
            let ghost before = (*cpu, *bus);
            match self.step(cpu, bus) {
                Ok(()) => {},
                Err(e) => {
                    assert(step_chain(states));
                    return Err(e);
                },
            }
            proof {
                let s2 = states.push((*cpu, *bus));
                assert forall|k: int| 0 <= k < s2.len() - 1 implies #[trigger] interpreter_stepped(s2[k].0, s2[k].1, s2[k + 1].0, s2[k + 1].1, Ok(())) by {
                    if k < states.len() - 1 {
                        assert(s2[k] == states[k] && s2[k + 1] == states[k + 1]);
                    }
                }
                states = s2;
            }
            i = i + 1;
        }
        assert(step_chain(states));
        Ok(())
    }
}

} // verus!
