//! Interrupt controller: the I_STAT (pending) and I_MASK (enabled) registers.
use vstd::prelude::*;

verus! {

/// A hardware interrupt source, one bit of I_STAT and I_MASK.
#[derive(Clone, Copy, Debug, PartialEq, Eq)]
pub enum Interrupt {
    VBlank,
    GPU,
    CDROM,
    DMA,
    TMR0,
    TMR1,
    TMR2,
    Controller,
    SIO,
    SPU,
    PIO,
}

/// The bit number of each interrupt in I_STAT and I_MASK.
pub open spec fn interrupt_bit(i: Interrupt) -> u16 {
    match i {
        Interrupt::VBlank => 0,
        Interrupt::GPU => 1,
        Interrupt::CDROM => 2,
        Interrupt::DMA => 3,
        Interrupt::TMR0 => 4,
        Interrupt::TMR1 => 5,
        Interrupt::TMR2 => 6,
        Interrupt::Controller => 7,
        Interrupt::SIO => 8,
        Interrupt::SPU => 9,
        Interrupt::PIO => 10,
    }
}

impl Interrupt {
    /// The bit number of this interrupt in I_STAT and I_MASK.
    pub fn bit(self) -> (r: u16)
        ensures
            r == interrupt_bit(self),
            r <= 10,
    {
        match self {
            Interrupt::VBlank => 0,
            Interrupt::GPU => 1,
            Interrupt::CDROM => 2,
            Interrupt::DMA => 3,
            Interrupt::TMR0 => 4,
            Interrupt::TMR1 => 5,
            Interrupt::TMR2 => 6,
            Interrupt::Controller => 7,
            Interrupt::SIO => 8,
            Interrupt::SPU => 9,
            Interrupt::PIO => 10,
        }
    }
}

/// The interrupt controller's two registers.
pub struct InterruptController {
    pub stat: u16,
    pub mask: u16,
}

impl InterruptController {
    pub fn new() -> (r: Self)
        ensures
            r.stat == 0,
            r.mask == 0,
    {
        Self { stat: 0, mask: 0 }
    }

    pub fn read_stat(&self) -> (r: u32)
        ensures
            r == self.stat as u32,
    {
        self.stat as u32
    }

    pub fn read_mask(&self) -> (r: u32)
        ensures
            r == self.mask as u32,
    {
        self.mask as u32
    }

    /// Writing I_STAT acknowledges interrupts: a 0 bit clears, a 1 bit leaves unchanged.
    pub fn write_stat(&mut self, value: u16)
        ensures
            final(self).stat == old(self).stat & value,
            final(self).mask == old(self).mask,
    {
        self.stat = self.stat & value;
    }

    pub fn write_mask(&mut self, value: u16)
        ensures
            final(self).mask == value,
            final(self).stat == old(self).stat,
    {
        self.mask = value;
    }

    pub fn raise_interrupt(&mut self, interrupt: Interrupt)
        ensures
            final(self).stat == old(self).stat | (1u16 << interrupt_bit(interrupt)),
            final(self).mask == old(self).mask,
            stat_grows(old(self).stat, final(self).stat),
    {
        let b = interrupt.bit();
        self.stat = self.stat | (1u16 << b);
        proof { lemma_stat_grows(); }
    }

    /// Whether some interrupt is both pending and enabled.
    pub fn pending(&self) -> (r: bool)
        ensures
            r == (self.stat & self.mask != 0),
    {
        (self.stat & self.mask) != 0
    }
}

/// Interrupt requests only accumulate: every bit set in `before` is still set in `after`.
pub open spec fn stat_grows(before: u16, after: u16) -> bool {
    after & before == before
}

/// Requests only accumulating is reflexive and transitive, raising bits is such a change, and
/// a request that was set stays set.
pub proof fn lemma_stat_grows()
    ensures
        forall|x: u16| #[trigger] stat_grows(x, x),
        forall|x: u16, y: u16| #[trigger] stat_grows(x, x | y),
        forall|a: u16, b: u16, c: u16| #[trigger] stat_grows(a, b) && #[trigger] stat_grows(b, c) ==> stat_grows(a, c),
        forall|a: u16, b: u16, m: u16| #[trigger] stat_grows(a, b) && a & m != 0 ==> #[trigger] (b & m) != 0,
{
    crate::bits::lemma_or_and();
    assert(forall|a: u16, b: u16, m: u16| b & a == a && a & m != 0 ==> b & m != 0) by (bit_vector);
}

/// A raised interrupt reads back as pending in I_STAT.
pub proof fn lemma_raise_sets_stat_bit(stat: u16, i: Interrupt)
    ensures
        (stat | (1u16 << interrupt_bit(i))) & (1u16 << interrupt_bit(i)) != 0,
{
    let b = interrupt_bit(i);
    assert(b < 16);
    assert(forall|s: u16, b: u16| b < 16 ==> (s | (1u16 << b)) & (1u16 << b) != 0) by (bit_vector);
}

/// Acknowledging with a 0 bit clears that interrupt; raising and acknowledging other sources
/// never sets a bit that was not raised.
pub proof fn lemma_ack_clears_bit(stat: u16, i: Interrupt)
    ensures
        (stat & !(1u16 << interrupt_bit(i))) & (1u16 << interrupt_bit(i)) == 0,
{
    let b = interrupt_bit(i);
    assert(b < 16);
    assert(forall|s: u16, b: u16| b < 16 ==> (s & !(1u16 << b)) & (1u16 << b) == 0) by (bit_vector);
}

/// An enabled raised interrupt makes the controller pending.
pub proof fn lemma_raise_enabled_is_pending(stat: u16, mask: u16, i: Interrupt)
    requires
        mask & (1u16 << interrupt_bit(i)) != 0,
    ensures
        (stat | (1u16 << interrupt_bit(i))) & mask != 0,
{
    let b = interrupt_bit(i);
    assert(b < 16);
    assert(forall|s: u16, m: u16, b: u16|
        b < 16 && m & (1u16 << b) != 0 ==> (s | (1u16 << b)) & m != 0) by (bit_vector);
}

} // verus!
