//! Decoded MIPS R3000A instructions and the decoder from raw 32-bit words.
use vstd::prelude::*;
use crate::cpu::MipsRegister;
use crate::cpu::cop0::Cop0Register;
use crate::cpu::gte::GteRegister;

verus! {

/// One decoded instruction: a variant per opcode/funct combination with its operands.
#[derive(Debug)]
pub enum IrOp {
    Add { dst: MipsRegister, lhs: MipsRegister, rhs: MipsRegister },
    Addu { dst: MipsRegister, lhs: MipsRegister, rhs: MipsRegister },
    Sub { dst: MipsRegister, lhs: MipsRegister, rhs: MipsRegister },
    Subu { dst: MipsRegister, lhs: MipsRegister, rhs: MipsRegister },
    And { dst: MipsRegister, lhs: MipsRegister, rhs: MipsRegister },
    Or { dst: MipsRegister, lhs: MipsRegister, rhs: MipsRegister },
    Xor { dst: MipsRegister, lhs: MipsRegister, rhs: MipsRegister },
    Nor { dst: MipsRegister, lhs: MipsRegister, rhs: MipsRegister },
    Slt { dst: MipsRegister, lhs: MipsRegister, rhs: MipsRegister },
    Sltu { dst: MipsRegister, lhs: MipsRegister, rhs: MipsRegister },
    Addi { dst: MipsRegister, src: MipsRegister, imm: i16 },
    Addiu { dst: MipsRegister, src: MipsRegister, imm: i16 },
    Andi { dst: MipsRegister, src: MipsRegister, imm: u16 },
    Ori { dst: MipsRegister, src: MipsRegister, imm: u16 },
    Xori { dst: MipsRegister, src: MipsRegister, imm: u16 },
    Slti { dst: MipsRegister, src: MipsRegister, imm: i16 },
    Sltiu { dst: MipsRegister, src: MipsRegister, imm: i16 },
    Lui { dst: MipsRegister, imm: u16 },
    Sll { dst: MipsRegister, src: MipsRegister, shamt: u8 },
    Srl { dst: MipsRegister, src: MipsRegister, shamt: u8 },
    Sra { dst: MipsRegister, src: MipsRegister, shamt: u8 },
    Sllv { dst: MipsRegister, src: MipsRegister, shift: MipsRegister },
    Srlv { dst: MipsRegister, src: MipsRegister, shift: MipsRegister },
    Srav { dst: MipsRegister, src: MipsRegister, shift: MipsRegister },
    Mult { lhs: MipsRegister, rhs: MipsRegister },
    Multu { lhs: MipsRegister, rhs: MipsRegister },
    Div { lhs: MipsRegister, rhs: MipsRegister },
    Divu { lhs: MipsRegister, rhs: MipsRegister },
    Mfhi { dst: MipsRegister },
    Mflo { dst: MipsRegister },
    Mthi { src: MipsRegister },
    Mtlo { src: MipsRegister },
    Lb { dst: MipsRegister, base: MipsRegister, offset: i16 },
    Lbu { dst: MipsRegister, base: MipsRegister, offset: i16 },
    Lh { dst: MipsRegister, base: MipsRegister, offset: i16 },
    Lhu { dst: MipsRegister, base: MipsRegister, offset: i16 },
    Lw { dst: MipsRegister, base: MipsRegister, offset: i16 },
    Sb { src: MipsRegister, base: MipsRegister, offset: i16 },
    Sh { src: MipsRegister, base: MipsRegister, offset: i16 },
    Sw { src: MipsRegister, base: MipsRegister, offset: i16 },
    Lwl { dst: MipsRegister, base: MipsRegister, offset: i16 },
    Lwr { dst: MipsRegister, base: MipsRegister, offset: i16 },
    Swl { src: MipsRegister, base: MipsRegister, offset: i16 },
    Swr { src: MipsRegister, base: MipsRegister, offset: i16 },
    Beq { lhs: MipsRegister, rhs: MipsRegister, offset: i16 },
    Bne { lhs: MipsRegister, rhs: MipsRegister, offset: i16 },
    Bgtz { src: MipsRegister, offset: i16 },
    Blez { src: MipsRegister, offset: i16 },
    Bltz { src: MipsRegister, offset: i16 },
    Bgez { src: MipsRegister, offset: i16 },
    Bltzal { src: MipsRegister, offset: i16 },
    Bgezal { src: MipsRegister, offset: i16 },
    J { target: u32 },
    Jal { target: u32 },
    Jr { src: MipsRegister },
    Jalr { dst: MipsRegister, src: MipsRegister },
    Mfc0 { dst: MipsRegister, cop_reg: Cop0Register },
    Mtc0 { src: MipsRegister, cop_reg: Cop0Register },
    Rfe,
    Lwc0 { dst: MipsRegister, base: MipsRegister, offset: i16 },
    Swc0 { src: MipsRegister, base: MipsRegister, offset: i16 },
    Mfc2 { dst: MipsRegister, cop_reg: GteRegister },
    Mtc2 { src: MipsRegister, cop_reg: GteRegister },
    Cfc2 { dst: MipsRegister, cop_reg: GteRegister },
    Ctc2 { src: MipsRegister, cop_reg: GteRegister },
    Cop2 { command: u32 },
    Lwc2 { dst: MipsRegister, base: MipsRegister, offset: i16 },
    Swc2 { src: MipsRegister, base: MipsRegister, offset: i16 },
    Syscall,
    Break,
    Unimplemented(u32),
}

// Instruction fields.
/// Primary opcode, bits 26..31.
pub open spec fn op_of(raw: u32) -> u8 { ((raw >> 26u32) & 0x3F) as u8 }
/// Source register field, bits 21..25.
pub open spec fn rs_of(raw: u32) -> u8 { ((raw >> 21u32) & 0x1F) as u8 }
/// Target register field, bits 16..20.
pub open spec fn rt_of(raw: u32) -> u8 { ((raw >> 16u32) & 0x1F) as u8 }
/// Destination register field, bits 11..15.
pub open spec fn rd_of(raw: u32) -> u8 { ((raw >> 11u32) & 0x1F) as u8 }
/// Shift amount field, bits 6..10.
pub open spec fn shamt_of(raw: u32) -> u8 { ((raw >> 6u32) & 0x1F) as u8 }
/// Function field of SPECIAL instructions, bits 0..5.
pub open spec fn funct_of(raw: u32) -> u8 { (raw & 0x3F) as u8 }
/// 16-bit immediate, bits 0..15.
pub open spec fn imm16_of(raw: u32) -> u16 { raw as u16 }
/// Sign-extended 16-bit immediate.
pub open spec fn simm16_of(raw: u32) -> i16 { (raw as u16) as i16 }
/// 26-bit jump target, bits 0..25.
pub open spec fn imm26_of(raw: u32) -> u32 { raw & 0x3FF_FFFF }

pub open spec fn rs_reg(raw: u32) -> MipsRegister { MipsRegister(rs_of(raw)) }
pub open spec fn rt_reg(raw: u32) -> MipsRegister { MipsRegister(rt_of(raw)) }
pub open spec fn rd_reg(raw: u32) -> MipsRegister { MipsRegister(rd_of(raw)) }

/// Decoding of SPECIAL (primary opcode 0) instructions by their function field.
pub open spec fn special_spec(raw: u32) -> IrOp {
    let f = funct_of(raw);
    if f == 0x00 { IrOp::Sll { dst: rd_reg(raw), src: rt_reg(raw), shamt: shamt_of(raw) } }
    else if f == 0x02 { IrOp::Srl { dst: rd_reg(raw), src: rt_reg(raw), shamt: shamt_of(raw) } }
    else if f == 0x03 { IrOp::Sra { dst: rd_reg(raw), src: rt_reg(raw), shamt: shamt_of(raw) } }
    else if f == 0x04 { IrOp::Sllv { dst: rd_reg(raw), src: rt_reg(raw), shift: rs_reg(raw) } }
    else if f == 0x06 { IrOp::Srlv { dst: rd_reg(raw), src: rt_reg(raw), shift: rs_reg(raw) } }
    else if f == 0x07 { IrOp::Srav { dst: rd_reg(raw), src: rt_reg(raw), shift: rs_reg(raw) } }
    else if f == 0x08 { IrOp::Jr { src: rs_reg(raw) } }
    else if f == 0x09 { IrOp::Jalr { dst: rd_reg(raw), src: rs_reg(raw) } }
    else if f == 0x0C { IrOp::Syscall }
    else if f == 0x0D { IrOp::Break }
    else if f == 0x10 { IrOp::Mfhi { dst: rd_reg(raw) } }
    else if f == 0x11 { IrOp::Mthi { src: rs_reg(raw) } }
    else if f == 0x12 { IrOp::Mflo { dst: rd_reg(raw) } }
    else if f == 0x13 { IrOp::Mtlo { src: rs_reg(raw) } }
    else if f == 0x18 { IrOp::Mult { lhs: rs_reg(raw), rhs: rt_reg(raw) } }
    else if f == 0x19 { IrOp::Multu { lhs: rs_reg(raw), rhs: rt_reg(raw) } }
    else if f == 0x1A { IrOp::Div { lhs: rs_reg(raw), rhs: rt_reg(raw) } }
    else if f == 0x1B { IrOp::Divu { lhs: rs_reg(raw), rhs: rt_reg(raw) } }
    else if f == 0x20 { IrOp::Add { dst: rd_reg(raw), lhs: rs_reg(raw), rhs: rt_reg(raw) } }
    else if f == 0x21 { IrOp::Addu { dst: rd_reg(raw), lhs: rs_reg(raw), rhs: rt_reg(raw) } }
    else if f == 0x22 { IrOp::Sub { dst: rd_reg(raw), lhs: rs_reg(raw), rhs: rt_reg(raw) } }
    else if f == 0x23 { IrOp::Subu { dst: rd_reg(raw), lhs: rs_reg(raw), rhs: rt_reg(raw) } }
    else if f == 0x24 { IrOp::And { dst: rd_reg(raw), lhs: rs_reg(raw), rhs: rt_reg(raw) } }
    else if f == 0x25 { IrOp::Or { dst: rd_reg(raw), lhs: rs_reg(raw), rhs: rt_reg(raw) } }
    else if f == 0x26 { IrOp::Xor { dst: rd_reg(raw), lhs: rs_reg(raw), rhs: rt_reg(raw) } }
    else if f == 0x27 { IrOp::Nor { dst: rd_reg(raw), lhs: rs_reg(raw), rhs: rt_reg(raw) } }
    else if f == 0x2A { IrOp::Slt { dst: rd_reg(raw), lhs: rs_reg(raw), rhs: rt_reg(raw) } }
    else if f == 0x2B { IrOp::Sltu { dst: rd_reg(raw), lhs: rs_reg(raw), rhs: rt_reg(raw) } }
    else { IrOp::Unimplemented(raw) }
}

/// Decoding of BcondZ (primary opcode 1) instructions by their rt field: BLTZAL/BGEZAL for
/// 10h/11h, otherwise bit 0 of rt chooses BGEZ over BLTZ.
pub open spec fn bcondz_spec(raw: u32) -> IrOp {
    let rt = rt_of(raw);
    if rt == 0x10 { IrOp::Bltzal { src: rs_reg(raw), offset: simm16_of(raw) } }
    else if rt == 0x11 { IrOp::Bgezal { src: rs_reg(raw), offset: simm16_of(raw) } }
    else if rt & 1 == 0 { IrOp::Bltz { src: rs_reg(raw), offset: simm16_of(raw) } }
    else { IrOp::Bgez { src: rs_reg(raw), offset: simm16_of(raw) } }
}

/// Decoding of coprocessor 0 instructions by their rs field.
pub open spec fn cop0_spec(raw: u32) -> IrOp {
    let rs = rs_of(raw);
    if rs == 0x00 { IrOp::Mfc0 { dst: rt_reg(raw), cop_reg: Cop0Register(rd_of(raw)) } }
    else if rs == 0x04 { IrOp::Mtc0 { src: rt_reg(raw), cop_reg: Cop0Register(rd_of(raw)) } }
    else if 0x10 <= rs && raw & 0x3F == 0x10 { IrOp::Rfe }
    else { IrOp::Unimplemented(raw) }
}

/// Decoding of coprocessor 2 (GTE) instructions by their rs field.
pub open spec fn cop2_spec(raw: u32) -> IrOp {
    let rs = rs_of(raw);
    if rs == 0x00 { IrOp::Mfc2 { dst: rt_reg(raw), cop_reg: GteRegister(rd_of(raw)) } }
    else if rs == 0x02 { IrOp::Cfc2 { dst: rt_reg(raw), cop_reg: GteRegister(rd_of(raw)) } }
    else if rs == 0x04 { IrOp::Mtc2 { src: rt_reg(raw), cop_reg: GteRegister(rd_of(raw)) } }
    else if rs == 0x06 { IrOp::Ctc2 { src: rt_reg(raw), cop_reg: GteRegister(rd_of(raw)) } }
    else if 0x10 <= rs { IrOp::Cop2 { command: raw & 0x1FF_FFFF } }
    else { IrOp::Unimplemented(raw) }
}

/// The instruction that a raw word encodes, per the R3000A opcode table.
pub open spec fn decode_spec(raw: u32) -> IrOp {
    let op = op_of(raw);
    if op == 0x00 { special_spec(raw) }
    else if op == 0x01 { bcondz_spec(raw) }
    else if op == 0x02 { IrOp::J { target: imm26_of(raw) } }
    else if op == 0x03 { IrOp::Jal { target: imm26_of(raw) } }
    else if op == 0x04 { IrOp::Beq { lhs: rs_reg(raw), rhs: rt_reg(raw), offset: simm16_of(raw) } }
    else if op == 0x05 { IrOp::Bne { lhs: rs_reg(raw), rhs: rt_reg(raw), offset: simm16_of(raw) } }
    else if op == 0x06 { IrOp::Blez { src: rs_reg(raw), offset: simm16_of(raw) } }
    else if op == 0x07 { IrOp::Bgtz { src: rs_reg(raw), offset: simm16_of(raw) } }
    else if op == 0x08 { IrOp::Addi { dst: rt_reg(raw), src: rs_reg(raw), imm: simm16_of(raw) } }
    else if op == 0x09 { IrOp::Addiu { dst: rt_reg(raw), src: rs_reg(raw), imm: simm16_of(raw) } }
    else if op == 0x0A { IrOp::Slti { dst: rt_reg(raw), src: rs_reg(raw), imm: simm16_of(raw) } }
    else if op == 0x0B { IrOp::Sltiu { dst: rt_reg(raw), src: rs_reg(raw), imm: simm16_of(raw) } }
    else if op == 0x0C { IrOp::Andi { dst: rt_reg(raw), src: rs_reg(raw), imm: imm16_of(raw) } }
    else if op == 0x0D { IrOp::Ori { dst: rt_reg(raw), src: rs_reg(raw), imm: imm16_of(raw) } }
    else if op == 0x0E { IrOp::Xori { dst: rt_reg(raw), src: rs_reg(raw), imm: imm16_of(raw) } }
    else if op == 0x0F { IrOp::Lui { dst: rt_reg(raw), imm: imm16_of(raw) } }
    else if op == 0x10 { cop0_spec(raw) }
    else if op == 0x12 { cop2_spec(raw) }
    else if op == 0x20 { IrOp::Lb { dst: rt_reg(raw), base: rs_reg(raw), offset: simm16_of(raw) } }
    else if op == 0x21 { IrOp::Lh { dst: rt_reg(raw), base: rs_reg(raw), offset: simm16_of(raw) } }
    else if op == 0x22 { IrOp::Lwl { dst: rt_reg(raw), base: rs_reg(raw), offset: simm16_of(raw) } }
    else if op == 0x23 { IrOp::Lw { dst: rt_reg(raw), base: rs_reg(raw), offset: simm16_of(raw) } }
    else if op == 0x24 { IrOp::Lbu { dst: rt_reg(raw), base: rs_reg(raw), offset: simm16_of(raw) } }
    else if op == 0x25 { IrOp::Lhu { dst: rt_reg(raw), base: rs_reg(raw), offset: simm16_of(raw) } }
    else if op == 0x26 { IrOp::Lwr { dst: rt_reg(raw), base: rs_reg(raw), offset: simm16_of(raw) } }
    else if op == 0x28 { IrOp::Sb { src: rt_reg(raw), base: rs_reg(raw), offset: simm16_of(raw) } }
    else if op == 0x29 { IrOp::Sh { src: rt_reg(raw), base: rs_reg(raw), offset: simm16_of(raw) } }
    else if op == 0x2A { IrOp::Swl { src: rt_reg(raw), base: rs_reg(raw), offset: simm16_of(raw) } }
    else if op == 0x2B { IrOp::Sw { src: rt_reg(raw), base: rs_reg(raw), offset: simm16_of(raw) } }
    else if op == 0x2E { IrOp::Swr { src: rt_reg(raw), base: rs_reg(raw), offset: simm16_of(raw) } }
    else if op == 0x30 { IrOp::Lwc0 { dst: rt_reg(raw), base: rs_reg(raw), offset: simm16_of(raw) } }
    else if op == 0x32 { IrOp::Lwc2 { dst: rt_reg(raw), base: rs_reg(raw), offset: simm16_of(raw) } }
    else if op == 0x38 { IrOp::Swc0 { src: rt_reg(raw), base: rs_reg(raw), offset: simm16_of(raw) } }
    else if op == 0x3A { IrOp::Swc2 { src: rt_reg(raw), base: rs_reg(raw), offset: simm16_of(raw) } }
    else { IrOp::Unimplemented(raw) }
}

// Field extraction.
impl IrOp {
    fn op(raw: u32) -> (r: u8)
        ensures r == op_of(raw), r < 64,
    {
        proof { assert((raw >> 26u32) & 0x3F < 64) by { crate::bits::lemma_and_bounds(); } }
        ((raw >> 26u32) & 0x3F) as u8
    }

    fn rs(raw: u32) -> (r: MipsRegister)
        ensures r == rs_reg(raw), r.0 < 32,
    {
        proof { assert((raw >> 21u32) & 0x1F < 32) by { crate::bits::lemma_and_bounds(); } }
        MipsRegister(((raw >> 21u32) & 0x1F) as u8)
    }

    fn rt(raw: u32) -> (r: MipsRegister)
        ensures r == rt_reg(raw), r.0 < 32,
    {
        proof { assert((raw >> 16u32) & 0x1F < 32) by { crate::bits::lemma_and_bounds(); } }
        MipsRegister(((raw >> 16u32) & 0x1F) as u8)
    }

    fn rd(raw: u32) -> (r: MipsRegister)
        ensures r == rd_reg(raw), r.0 < 32,
    {
        proof { assert((raw >> 11u32) & 0x1F < 32) by { crate::bits::lemma_and_bounds(); } }
        MipsRegister(((raw >> 11u32) & 0x1F) as u8)
    }

    fn shamt(raw: u32) -> (r: u8)
        ensures r == shamt_of(raw), r < 32,
    {
        proof { assert((raw >> 6u32) & 0x1F < 32) by { crate::bits::lemma_and_bounds(); } }
        ((raw >> 6u32) & 0x1F) as u8
    }

    fn funct(raw: u32) -> (r: u8)
        ensures r == funct_of(raw),
    {
        proof { assert(raw & 0x3F < 64) by { crate::bits::lemma_and_bounds(); } }
        (raw & 0x3F) as u8
    }

    fn imm16(raw: u32) -> (r: u16)
        ensures r == imm16_of(raw),
    {
        raw as u16
    }

    fn simm16(raw: u32) -> (r: i16)
        ensures r == simm16_of(raw),
    {
        (raw as u16) as i16
    }

    fn imm26(raw: u32) -> (r: u32)
        ensures r == imm26_of(raw),
    {
        raw & 0x3FF_FFFF
    }

    fn rt_raw(raw: u32) -> (r: u8)
        ensures r == rt_of(raw), r < 32,
    {
        proof { assert((raw >> 16u32) & 0x1F < 32) by { crate::bits::lemma_and_bounds(); } }
        ((raw >> 16u32) & 0x1F) as u8
    }

    fn rd_raw(raw: u32) -> (r: u8)
        ensures r == rd_of(raw), r < 32,
    {
        proof { assert((raw >> 11u32) & 0x1F < 32) by { crate::bits::lemma_and_bounds(); } }
        ((raw >> 11u32) & 0x1F) as u8
    }

    fn rs_raw(raw: u32) -> (r: u8)
        ensures r == rs_of(raw), r < 32,
    {
        proof { assert((raw >> 21u32) & 0x1F < 32) by { crate::bits::lemma_and_bounds(); } }
        ((raw >> 21u32) & 0x1F) as u8
    }
}

// Decoding.
impl IrOp {
    /// Decode a raw 32-bit instruction word.
    pub fn decode(raw: u32) -> (r: Self)
        ensures
            r == decode_spec(raw),
    {
        let op = Self::op(raw);
        match op {
            0x00 => Self::decode_special(raw),
            0x01 => Self::decode_bcondz(raw),
            0x02 => Self::J { target: Self::imm26(raw) },
            0x03 => Self::Jal { target: Self::imm26(raw) },
            0x04 => Self::Beq { lhs: Self::rs(raw), rhs: Self::rt(raw), offset: Self::simm16(raw) },
            0x05 => Self::Bne { lhs: Self::rs(raw), rhs: Self::rt(raw), offset: Self::simm16(raw) },
            0x06 => Self::Blez { src: Self::rs(raw), offset: Self::simm16(raw) },
            0x07 => Self::Bgtz { src: Self::rs(raw), offset: Self::simm16(raw) },
            0x08 => Self::Addi { dst: Self::rt(raw), src: Self::rs(raw), imm: Self::simm16(raw) },
            0x09 => Self::Addiu { dst: Self::rt(raw), src: Self::rs(raw), imm: Self::simm16(raw) },
            0x0A => Self::Slti { dst: Self::rt(raw), src: Self::rs(raw), imm: Self::simm16(raw) },
            0x0B => Self::Sltiu { dst: Self::rt(raw), src: Self::rs(raw), imm: Self::simm16(raw) },
            0x0C => Self::Andi { dst: Self::rt(raw), src: Self::rs(raw), imm: Self::imm16(raw) },
            0x0D => Self::Ori { dst: Self::rt(raw), src: Self::rs(raw), imm: Self::imm16(raw) },
            0x0E => Self::Xori { dst: Self::rt(raw), src: Self::rs(raw), imm: Self::imm16(raw) },
            0x0F => Self::Lui { dst: Self::rt(raw), imm: Self::imm16(raw) },
            0x10 => Self::decode_cop0(raw),
            0x12 => Self::decode_cop2(raw),
            0x20 => Self::Lb { dst: Self::rt(raw), base: Self::rs(raw), offset: Self::simm16(raw) },
            0x21 => Self::Lh { dst: Self::rt(raw), base: Self::rs(raw), offset: Self::simm16(raw) },
            0x22 => Self::Lwl { dst: Self::rt(raw), base: Self::rs(raw), offset: Self::simm16(raw) },
            0x23 => Self::Lw { dst: Self::rt(raw), base: Self::rs(raw), offset: Self::simm16(raw) },
            0x24 => Self::Lbu { dst: Self::rt(raw), base: Self::rs(raw), offset: Self::simm16(raw) },
            0x25 => Self::Lhu { dst: Self::rt(raw), base: Self::rs(raw), offset: Self::simm16(raw) },
            0x26 => Self::Lwr { dst: Self::rt(raw), base: Self::rs(raw), offset: Self::simm16(raw) },
            0x28 => Self::Sb { src: Self::rt(raw), base: Self::rs(raw), offset: Self::simm16(raw) },
            0x29 => Self::Sh { src: Self::rt(raw), base: Self::rs(raw), offset: Self::simm16(raw) },
            0x2A => Self::Swl { src: Self::rt(raw), base: Self::rs(raw), offset: Self::simm16(raw) },
            0x2B => Self::Sw { src: Self::rt(raw), base: Self::rs(raw), offset: Self::simm16(raw) },
            0x2E => Self::Swr { src: Self::rt(raw), base: Self::rs(raw), offset: Self::simm16(raw) },
            0x30 => Self::Lwc0 { dst: Self::rt(raw), base: Self::rs(raw), offset: Self::simm16(raw) },
            0x32 => Self::Lwc2 { dst: Self::rt(raw), base: Self::rs(raw), offset: Self::simm16(raw) },
            0x38 => Self::Swc0 { src: Self::rt(raw), base: Self::rs(raw), offset: Self::simm16(raw) },
            0x3A => Self::Swc2 { src: Self::rt(raw), base: Self::rs(raw), offset: Self::simm16(raw) },
            _ => Self::Unimplemented(raw),
        }
    }

    /// Decode a SPECIAL (primary opcode 0) instruction by its function field.
    pub fn decode_special(raw: u32) -> (r: Self)
        ensures
            r == special_spec(raw),
    {
        match Self::funct(raw) {
            0x00 => Self::Sll { dst: Self::rd(raw), src: Self::rt(raw), shamt: Self::shamt(raw) },
            0x02 => Self::Srl { dst: Self::rd(raw), src: Self::rt(raw), shamt: Self::shamt(raw) },
            0x03 => Self::Sra { dst: Self::rd(raw), src: Self::rt(raw), shamt: Self::shamt(raw) },
            0x04 => Self::Sllv { dst: Self::rd(raw), src: Self::rt(raw), shift: Self::rs(raw) },
            0x06 => Self::Srlv { dst: Self::rd(raw), src: Self::rt(raw), shift: Self::rs(raw) },
            0x07 => Self::Srav { dst: Self::rd(raw), src: Self::rt(raw), shift: Self::rs(raw) },
            0x08 => Self::Jr { src: Self::rs(raw) },
            0x09 => Self::Jalr { dst: Self::rd(raw), src: Self::rs(raw) },
            0x0C => Self::Syscall,
            0x0D => Self::Break,
            0x10 => Self::Mfhi { dst: Self::rd(raw) },
            0x11 => Self::Mthi { src: Self::rs(raw) },
            0x12 => Self::Mflo { dst: Self::rd(raw) },
            0x13 => Self::Mtlo { src: Self::rs(raw) },
            0x18 => Self::Mult { lhs: Self::rs(raw), rhs: Self::rt(raw) },
            0x19 => Self::Multu { lhs: Self::rs(raw), rhs: Self::rt(raw) },
            0x1A => Self::Div { lhs: Self::rs(raw), rhs: Self::rt(raw) },
            0x1B => Self::Divu { lhs: Self::rs(raw), rhs: Self::rt(raw) },
            0x20 => Self::Add { dst: Self::rd(raw), lhs: Self::rs(raw), rhs: Self::rt(raw) },
            0x21 => Self::Addu { dst: Self::rd(raw), lhs: Self::rs(raw), rhs: Self::rt(raw) },
            0x22 => Self::Sub { dst: Self::rd(raw), lhs: Self::rs(raw), rhs: Self::rt(raw) },
            0x23 => Self::Subu { dst: Self::rd(raw), lhs: Self::rs(raw), rhs: Self::rt(raw) },
            0x24 => Self::And { dst: Self::rd(raw), lhs: Self::rs(raw), rhs: Self::rt(raw) },
            0x25 => Self::Or { dst: Self::rd(raw), lhs: Self::rs(raw), rhs: Self::rt(raw) },
            0x26 => Self::Xor { dst: Self::rd(raw), lhs: Self::rs(raw), rhs: Self::rt(raw) },
            0x27 => Self::Nor { dst: Self::rd(raw), lhs: Self::rs(raw), rhs: Self::rt(raw) },
            0x2A => Self::Slt { dst: Self::rd(raw), lhs: Self::rs(raw), rhs: Self::rt(raw) },
            0x2B => Self::Sltu { dst: Self::rd(raw), lhs: Self::rs(raw), rhs: Self::rt(raw) },
            _ => Self::Unimplemented(raw),
        }
    }

    /// Decode a BcondZ (primary opcode 1) instruction by its rt field.
    pub fn decode_bcondz(raw: u32) -> (r: Self)
        ensures
            r == bcondz_spec(raw),
    {
        let rt = Self::rt_raw(raw);
        if rt == 0x10 {
            Self::Bltzal { src: Self::rs(raw), offset: Self::simm16(raw) }
        } else if rt == 0x11 {
            Self::Bgezal { src: Self::rs(raw), offset: Self::simm16(raw) }
        } else if rt & 1 == 0 {
            Self::Bltz { src: Self::rs(raw), offset: Self::simm16(raw) }
        } else {
            Self::Bgez { src: Self::rs(raw), offset: Self::simm16(raw) }
        }
    }

    fn decode_cop0(raw: u32) -> (r: Self)
        ensures
            r == cop0_spec(raw),
    {
        let rs = Self::rs_raw(raw);
        if rs == 0x00 {
            IrOp::Mfc0 { dst: Self::rt(raw), cop_reg: Cop0Register(Self::rd_raw(raw)) }
        } else if rs == 0x04 {
            IrOp::Mtc0 { src: Self::rt(raw), cop_reg: Cop0Register(Self::rd_raw(raw)) }
        } else if rs >= 0x10 && raw & 0x3F == 0x10 {
            IrOp::Rfe
        } else {
            IrOp::Unimplemented(raw)
        }
    }

    fn decode_cop2(raw: u32) -> (r: Self)
        ensures
            r == cop2_spec(raw),
    {
        let rs = Self::rs_raw(raw);
        if rs == 0x00 {
            IrOp::Mfc2 { dst: Self::rt(raw), cop_reg: GteRegister(Self::rd_raw(raw)) }
        } else if rs == 0x02 {
            IrOp::Cfc2 { dst: Self::rt(raw), cop_reg: GteRegister(Self::rd_raw(raw)) }
        } else if rs == 0x04 {
            IrOp::Mtc2 { src: Self::rt(raw), cop_reg: GteRegister(Self::rd_raw(raw)) }
        } else if rs == 0x06 {
            IrOp::Ctc2 { src: Self::rt(raw), cop_reg: GteRegister(Self::rd_raw(raw)) }
        } else if rs >= 0x10 {
            IrOp::Cop2 { command: raw & 0x1FF_FFFF }
        } else {
            IrOp::Unimplemented(raw)
        }
    }
}

/// Every register operand that the decoder produces names one of the 32 registers, and every
/// shift amount is below 32.
pub open spec fn operands_in_range(op: IrOp) -> bool {
    match op {
        IrOp::Add { dst, lhs, rhs } | IrOp::Addu { dst, lhs, rhs } | IrOp::Sub { dst, lhs, rhs }
        | IrOp::Subu { dst, lhs, rhs } | IrOp::And { dst, lhs, rhs } | IrOp::Or { dst, lhs, rhs }
        | IrOp::Xor { dst, lhs, rhs } | IrOp::Nor { dst, lhs, rhs } | IrOp::Slt { dst, lhs, rhs }
        | IrOp::Sltu { dst, lhs, rhs } => dst.0 < 32 && lhs.0 < 32 && rhs.0 < 32,
        IrOp::Addi { dst, src, .. } | IrOp::Addiu { dst, src, .. } | IrOp::Andi { dst, src, .. }
        | IrOp::Ori { dst, src, .. } | IrOp::Xori { dst, src, .. } | IrOp::Slti { dst, src, .. }
        | IrOp::Sltiu { dst, src, .. } | IrOp::Jalr { dst, src } => dst.0 < 32 && src.0 < 32,
        IrOp::Sll { dst, src, shamt } | IrOp::Srl { dst, src, shamt } | IrOp::Sra { dst, src, shamt }
            => dst.0 < 32 && src.0 < 32 && shamt < 32,
        IrOp::Sllv { dst, src, shift } | IrOp::Srlv { dst, src, shift }
        | IrOp::Srav { dst, src, shift } => dst.0 < 32 && src.0 < 32 && shift.0 < 32,
        IrOp::Lui { dst, .. } | IrOp::Mfhi { dst } | IrOp::Mflo { dst } => dst.0 < 32,
        IrOp::Mult { lhs, rhs } | IrOp::Multu { lhs, rhs } | IrOp::Div { lhs, rhs }
        | IrOp::Divu { lhs, rhs } => lhs.0 < 32 && rhs.0 < 32,
        IrOp::Mthi { src } | IrOp::Mtlo { src } | IrOp::Jr { src } => src.0 < 32,
        IrOp::Lb { dst, base, .. } | IrOp::Lbu { dst, base, .. } | IrOp::Lh { dst, base, .. }
        | IrOp::Lhu { dst, base, .. } | IrOp::Lw { dst, base, .. } | IrOp::Lwl { dst, base, .. }
        | IrOp::Lwr { dst, base, .. } | IrOp::Lwc0 { dst, base, .. }
        | IrOp::Lwc2 { dst, base, .. } => dst.0 < 32 && base.0 < 32,
        IrOp::Sb { src, base, .. } | IrOp::Sh { src, base, .. } | IrOp::Sw { src, base, .. }
        | IrOp::Swl { src, base, .. } | IrOp::Swr { src, base, .. } | IrOp::Swc0 { src, base, .. }
        | IrOp::Swc2 { src, base, .. } => src.0 < 32 && base.0 < 32,
        IrOp::Beq { lhs, rhs, .. } | IrOp::Bne { lhs, rhs, .. } => lhs.0 < 32 && rhs.0 < 32,
        IrOp::Bgtz { src, .. } | IrOp::Blez { src, .. } | IrOp::Bltz { src, .. }
        | IrOp::Bgez { src, .. } | IrOp::Bltzal { src, .. } | IrOp::Bgezal { src, .. } => src.0
            < 32,
        IrOp::Mfc0 { dst, .. } | IrOp::Mfc2 { dst, .. } | IrOp::Cfc2 { dst, .. } => dst.0 < 32,
        IrOp::Mtc0 { src, .. } | IrOp::Mtc2 { src, .. } | IrOp::Ctc2 { src, .. } => src.0 < 32,
        _ => true,
    }
}

/// Every instruction that `decode` produces names registers 0..31 only and shifts by
/// less than 32.
pub proof fn lemma_decode_operands_in_range(raw: u32)
    ensures
        operands_in_range(decode_spec(raw)),
{
    assert((raw >> 21u32) & 0x1F < 32) by { crate::bits::lemma_and_bounds(); }
    assert((raw >> 16u32) & 0x1F < 32) by { crate::bits::lemma_and_bounds(); }
    assert((raw >> 11u32) & 0x1F < 32) by { crate::bits::lemma_and_bounds(); }
    assert((raw >> 6u32) & 0x1F < 32) by { crate::bits::lemma_and_bounds(); }
}

} // verus!
