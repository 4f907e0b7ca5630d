//! Facts about bit operations that the rest of the crate uses, each proved once by the
//! bit-vector solver and stated for all values.
use vstd::prelude::*;

verus! {

/// Masking never exceeds the mask nor the value.
pub proof fn lemma_and_bounds()
    by (bit_vector)
    ensures
        forall|x1: u8, m1: u8| #[trigger] (x1 & m1) <= m1 && (x1 & m1) <= x1,
        forall|x2: u16, m2: u16| #[trigger] (x2 & m2) <= m2 && (x2 & m2) <= x2,
        forall|x3: u32, m3: u32| #[trigger] (x3 & m3) <= m3 && (x3 & m3) <= x3,
        forall|x4: u64, m4: u64| #[trigger] (x4 & m4) <= m4 && (x4 & m4) <= x4,
        forall|x5: usize, m5: usize| #[trigger] (x5 & m5) <= m5 && (x5 & m5) <= x5,
        forall|x6: i32, m6: i32| 0 <= m6 ==> 0 <= #[trigger] (x6 & m6) <= m6,
{
}

/// Masking with 2^k - 1 is the remainder by 2^k.
pub proof fn lemma_and_mod()
    by (bit_vector)
    ensures
        forall|x6: u32| #[trigger] (x6 & 0x1F) == x6 % 32,
        forall|x7: u32| #[trigger] (x7 & 0x7FFFF) == x7 % 0x80000,
        forall|x23: u32| #[trigger] (x23 & 0x1F_FFFF) == x23 % 0x20_0000,
{
}

/// Masking an index with 31 is the remainder by 32.
pub proof fn lemma_and_mod_usize()
    by (bit_vector)
    ensures
        forall|x8: usize| #[trigger] (x8 & 0x1F) == x8 % 32,
{
}

/// Shifts of 32-bit unsigned values.
pub proof fn lemma_shifts_u32()
    by (bit_vector)
    ensures
        forall|x9: u32| #[trigger] (x9 >> 29u32) < 8,
        forall|x19: u32| x19 <= 0xFFFF ==> #[trigger] (x19 << 3u32) == x19 * 8,
{
}

/// Shifts of 16- and 8-bit unsigned values.
pub proof fn lemma_shifts_u16()
    by (bit_vector)
    ensures
        forall|x10: u16| #[trigger] (x10 >> 10u16) < 64,
        forall|x20: u16| x20 <= 16 ==> #[trigger] (x20 << 11u16) == x20 * 0x800,
{
}

pub proof fn lemma_shifts_u8()
    by (bit_vector)
    ensures
        forall|x11: u8| #[trigger] (x11 >> 4u8) <= 15,
{
}

/// Arithmetic shifts of 32-bit signed values: right by k divides by 2^k rounding down; left
/// by k, within range, multiplies by 2^k.
pub proof fn lemma_shifts_i32()
    by (bit_vector)
    ensures
        forall|x12: i32| #[trigger] (x12 >> 15u32) == x12 / 0x8000,
        forall|x13: i32| #[trigger] (x13 >> 8u32) == x13 / 256,
        forall|x14: i32| #[trigger] (x14 >> 7u32) == x14 / 128,
        forall|x15: i32| #[trigger] (x15 >> 3u32) == x15 / 8,
        forall|x16: i32| #[trigger] (x16 >> 0u32) == x16,
        forall|x21: i32| -0x400_0000 <= x21 < 0x400_0000 ==> #[trigger] (x21 << 5u32) == x21 * 32,
        forall|x22: i32| -0x800_0000 <= x22 < 0x800_0000 ==> #[trigger] (x22 << 4u32) == x22 * 16,
{
}

pub proof fn lemma_shifts_i64()
    by (bit_vector)
    ensures
        forall|x17: i64| #[trigger] (x17 >> 15u64) == x17 / 0x8000,
{
}

pub proof fn lemma_shifts_i16()
    by (bit_vector)
    ensures
        forall|x18: i16| #[trigger] (x18 >> 3u16) == x18 / 8,
{
}

/// Setting and clearing bits.
pub proof fn lemma_or_and()
    by (bit_vector)
    ensures
        forall|x24: u32, y24: u32| #[trigger] ((x24 | y24) & x24) == x24,
        forall|x25: u16, y25: u16| #[trigger] ((x25 | y25) & x25) == x25,
        forall|x26: u32| #[trigger] (x26 & x26) == x26,
        forall|x27: u16| #[trigger] (x27 & x27) == x27,
        forall|x28: u32| #[trigger] (x28 | 0u32) == x28,
        forall|x29: u32| #[trigger] (x29 & 0xFFFF_FFFFu32) == x29,
        forall|a30: u16, b30: u16, c30: u16| #[trigger] (b30 & a30) == a30 && #[trigger] (c30 & b30) == b30 ==> c30 & a30 == a30,
        forall|a31: u32, b31: u32, c31: u32| #[trigger] (b31 & a31) == a31 && #[trigger] (c31 & b31) == b31 ==> c31 & a31 == a31,
        forall|x24: u32, m24: u32| #[trigger] ((x24 & m24) & m24) == x24 & m24,
        forall|x25: u16, y25: u16, s25: u16| (x25 & s25) == s25 ==> #[trigger] ((x25 | y25) & s25) == s25,
        forall|x32: u16| #[trigger] (x32 | 0u16) == x32,
        forall|x33: u16, m33: u16| #[trigger] ((x33 | m33) | m33) == x33 | m33,
        forall|a34: u16, b34: u16, c34: u16, d34: u16| #[trigger] (((a34 | b34) | c34) | d34) == a34 | ((b34 | c34) | d34),
        forall|x35: u16, m35: u16| #[trigger] ((x35 | m35) & x35) == x35,
        (1u32 << 17u32) == 0x2_0000u32,
        forall|x36: u32| #[trigger] ((x36 | 0x2_0000u32) & 0x2_0000u32) != 0,
        forall|a37: u32, b37: u32| #[trigger] (b37 & a37) == a37 && (a37 & 0x2_0000u32) != 0 ==> (b37 & 0x2_0000u32) != 0,
        forall|f38: u16, s38: u16, b38: u16| #[trigger] (f38 & (s38 | b38)) == (s38 | b38) ==> (b38 & f38) == b38,
        forall|a39: u32, b39: u32, c39: u32| #[trigger] ((a39 | b39) | c39) == a39 | (b39 | c39),
        forall|x40: u32| #[trigger] (0u32 | x40) == x40,
        (1u32 << 15u32) == 0x8000u32 && (1u32 << 16u32) == 0x1_0000u32 && (1u32 << 18u32) == 0x4_0000u32,
        (1u32 << 22u32) == 0x40_0000u32 && (1u32 << 23u32) == 0x80_0000u32 && (1u32 << 24u32) == 0x100_0000u32,
{
}

/// Facts on the fixed-width arithmetic of the emulated hardware: 9-bit sign extension, the
/// 44-bit MAC wrap, nibbles, arithmetic right shifts and BCD zero.
pub proof fn lemma_hardware_arith()
    by (bit_vector)
    ensures
        forall|v50: i32| -256 <= v50 <= 255 ==> #[trigger] ((v50 & 0x1FF) & 0x100) != 0 ==> (v50 & 0x1FF) - 0x200 == v50,
        forall|v51: i32| -256 <= v51 <= 255 ==> #[trigger] ((v51 & 0x1FF) & 0x100) == 0 ==> (v51 & 0x1FF) == v51,
        forall|v52: i64| -0x800_0000_0000 <= v52 < 0x800_0000_0000 ==> #[trigger] crate::cpu::gte::wrap44(v52) == v52,
        forall|b53: u8| #[trigger] (b53 & 0xF) == b53 % 16,
        forall|b54: u8| #[trigger] ((b54 >> 4u8) & 0xF) == b54 / 16,
        forall|x55: u32, s55: u32| s55 < 32 ==> #[trigger] (((x55 as i32) >> s55) as u32)
            == (if (x55 as i32) < 0 { (x55 >> s55) | !(0xFFFF_FFFFu32 >> s55) } else { x55 >> s55 }),
        forall|x57: u32, s57: u32| s57 < 32 && (x57 as i32) < 0 ==> #[trigger] (((x57 as i32) >> s57) as u32) >= 0x8000_0000u32,
        (0u8 >> 4u8) == 0u8 && (0u8 & 0xFu8) == 0u8 && ((0u8 << 4u8) | 0u8) == 0u8,
        forall|x58: u32, s58: u32| 1 <= s58 < 32 ==> #[trigger] (x58 >> s58) < 0x8000_0000u32,
        forall|x59: u32, s59: u32| s59 < 32 ==> #[trigger] ((x59 >> s59) | !(0xFFFF_FFFFu32 >> s59))
            == (x59 >> s59) + !(0xFFFF_FFFFu32 >> s59),
        forall|s60: u32| s60 < 32 ==> #[trigger] !(0xFFFF_FFFFu32 >> s60) == 0xFFFF_FFFFu32 - (0xFFFF_FFFFu32 >> s60),
        forall|x61: u32| #[trigger] ((x61 as i32) as int)
            == (if x61 < 0x8000_0000u32 { x61 as int } else { x61 as int - 0x1_0000_0000 }),
{
}

} // verus!
