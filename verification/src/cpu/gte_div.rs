//! The GTE's perspective division (H*20000h/SZ3 rounded, saturated to 1FFFFh), computed by the
//! hardware's Newton-Raphson reciprocal with its 257-entry seed table.
use vstd::prelude::*;

verus! {

/// Entry `i` (0..100h) of the reciprocal seed table: max(0, (40000h/(i+100h)+1)/2 - 101h).
pub open spec fn unr_entry(i: int) -> int {
    let v = (0x40000int / (i + 0x100) + 1) / 2 - 0x101;
    if v < 0 {
        0
    } else {
        v
    }
}

/// Shift numerator and divisor left together until the divisor's bit 15 is set.
pub open spec fn unr_normalize(n: int, d: int) -> (int, int)
    decreases 0x10000 - d,
{
    if d <= 0 || d >= 0x8000 {
        (n, d)
    } else {
        unr_normalize(2 * n, 2 * d)
    }
}

/// The hardware division result for `h / sz3` and whether it overflowed.
pub open spec fn unr_divide_spec(h: u16, sz3: u16) -> (u32, bool) {
    if (h as int) < 2 * (sz3 as int) {
        let (n, d) = unr_normalize(h as int, sz3 as int);
        let u = unr_entry((d - 0x7FC0) / 0x80) + 0x101;
        let d1 = if d * u <= 0x2000080 { (0x2000080 - d * u) / 0x100 } else { 0 };
        let d2 = (0x80 + d1 * u) / 0x100;
        let q = (n * d2 + 0x8000) / 0x10000;
        (if q > 0x1FFFF {
            0x1FFFF
        } else {
            q as u32
        }, false)
    } else {
        (0x1FFFF, true)
    }
}

proof fn lemma_normalize_bounds(n: int, d: int)
    requires
        0 < d < 0x10000,
        0 <= n < 2 * d,
    ensures
        0x8000 <= unr_normalize(n, d).1 < 0x10000,
        0 <= unr_normalize(n, d).0 < 2 * unr_normalize(n, d).1,
    decreases 0x10000 - d,
{
    if d < 0x8000 {
        lemma_normalize_bounds(2 * n, 2 * d);
    }
}

fn unr_table_entry(i: u32) -> (r: u32)
    requires
        i <= 0x100,
    ensures
        r == unr_entry(i as int),
        r <= 0x100,
{
    let q = (0x40000u32 / (i + 0x100) + 1) / 2;
    assert(0x40000int / (i + 0x100) <= 0x400) by (nonlinear_arith)
        requires i + 0x100 >= 0x100;
    if q < 0x101 {
        0
    } else {
        q - 0x101
    }
}

/// Perspective division H/SZ3 as the GTE computes it: (result, overflowed). The result is
/// saturated to 1FFFFh, and `overflowed` is set when H >= 2*SZ3 (including SZ3 = 0).
pub fn gte_divide(h: u16, sz3: u16) -> (r: (u32, bool))
    ensures
        r == unr_divide_spec(h, sz3),
        r.0 <= 0x1FFFF,
        r.1 == !((h as int) < 2 * (sz3 as int)),
{
    if (h as u32) < 2 * (sz3 as u32) {
        let mut n: u64 = h as u64;
        let mut d: u64 = sz3 as u64;
        proof {
            lemma_normalize_bounds(n as int, d as int);
        }
        while d < 0x8000
            invariant
                0 < d < 0x10000,
                0 <= n < 2 * d,
                unr_normalize(n as int, d as int) == unr_normalize(h as int, sz3 as int),
            decreases 0x10000 - d,
        {
            n = n * 2;
            d = d * 2;
        }
        let idx = ((d - 0x7FC0) / 0x80) as u32;
        let u = unr_table_entry(idx) as u64 + 0x101;
        assert(d * u <= 0x10000 * 0x201) by (nonlinear_arith)
            requires d < 0x10000, u <= 0x201;
        let du = d * u;
        let d1 = if du <= 0x2000080 { (0x2000080 - du) / 0x100 } else { 0 };
        assert(d1 * u <= 0x20001 * 0x201) by (nonlinear_arith)
            requires d1 <= 0x20001, u <= 0x201;
        let d2 = (0x80 + d1 * u) / 0x100;
        assert(n * d2 <= 0x20000 * 0x40300) by (nonlinear_arith)
            requires n < 0x20000, d2 <= 0x40300;
        let q = (n * d2 + 0x8000) / 0x10000;
        if q > 0x1FFFF {
            (0x1FFFF, false)
        } else {
            (q as u32, false)
        }
    } else {
        (0x1FFFF, true)
    }
}

} // verus!
