//! The GTE FLAG register: bits only accumulate while a command runs.
use vstd::prelude::*;

verus! {

/// Control registers with FLAG bit `bit` raised.
pub open spec fn with_flag(c: Seq<u32>, bit: u32) -> Seq<u32> {
    c.update(31, c[31] | (1u32 << bit))
}

/// Control registers with the FLAG bits `bits` raised.
pub open spec fn flag_or(c: Seq<u32>, bits: u32) -> Seq<u32> {
    c.update(31, c[31] | bits)
}

/// Raising one bit is raising its mask; raising nothing changes nothing; two raises combine.
pub proof fn lemma_flag_or(c: Seq<u32>, a: u32, b: u32)
    requires c.len() == 32,
    ensures
        with_flag(c, 15) == flag_or(c, 0x8000),
        with_flag(c, 16) == flag_or(c, 0x1_0000),
        with_flag(c, 18) == flag_or(c, 0x4_0000),
        with_flag(c, 22) == flag_or(c, 0x40_0000),
        with_flag(c, 23) == flag_or(c, 0x80_0000),
        with_flag(c, 24) == flag_or(c, 0x100_0000),
        flag_or(c, 0) == c,
        flag_or(flag_or(c, a), b) == flag_or(c, a | b),
{
    crate::bits::lemma_or_and();
    assert(flag_or(c, 0) =~= c);
    assert(flag_or(flag_or(c, a), b) =~= flag_or(c, a | b));
}

/// FLAG bits only ever get set during a command: `new` has every FLAG bit of `old`, and the
/// other control registers are untouched.
pub open spec fn flags_grow(old: Seq<u32>, new: Seq<u32>) -> bool {
    &&& new.len() == 32
    &&& old.len() == 32
    &&& forall|i: int| 0 <= i < 31 ==> #[trigger] new[i] == old[i]
    &&& new[31] & old[31] == old[31]
}

pub proof fn lemma_with_flag_grows(c: Seq<u32>, bit: u32)
    requires c.len() == 32, bit < 32,
    ensures flags_grow(c, with_flag(c, bit)),
{
    let x = c[31];
    assert((x | (1u32 << bit)) & x == x) by { crate::bits::lemma_or_and(); }
}

pub broadcast proof fn lemma_flags_grow_trans(a: Seq<u32>, b: Seq<u32>, c: Seq<u32>)
    requires flags_grow(a, b), flags_grow(b, c),
    ensures #![trigger flags_grow(a, b), flags_grow(b, c)] flags_grow(a, c),
{
    let (x, y, z) = (a[31], b[31], c[31]);
    assert(y & x == x && z & y == y ==> z & x == x) by { crate::bits::lemma_or_and(); }
}

pub broadcast proof fn lemma_flags_grow_refl(a: Seq<u32>)
    requires a.len() == 32,
    ensures #[trigger] flags_grow(a, a),
{
    let x = a[31];
    assert(x & x == x) by { crate::bits::lemma_or_and(); }
}

} // verus!
