//! The three root counters (timers) mapped at 0x1F80_1100.
use vstd::prelude::*;
use crate::interrupt_controller::{Interrupt, InterruptController, interrupt_bit};

verus! {

/// One root counter: a 16-bit counter with a mode and a target value.
#[derive(Clone, Copy)]
pub struct RootCounter {
    pub current: u16,
    pub mode: u16,
    pub target: u16,
    pub irq_disabled_until_ack: bool,
    pub clock_accumulator: u32,
    pub cached_divisor: u32,
}

/// Clock divisor selected by the mode's clock source bits (8..9): timer 1 counts HBlanks
/// (every 2148 cycles) for sources 1/3, timer 2 counts system clock / 8 for sources 2/3.
pub open spec fn divisor_spec(mode: u16, timer_index: usize) -> u32 {
    let src = (mode >> 8u16) & 3;
    if timer_index == 1 && (src == 1 || src == 3) {
        2148
    } else if timer_index == 2 && (src == 2 || src == 3) {
        8
    } else {
        1
    }
}

/// Counting `remaining` ticks from `current` towards `target`, in batches of at most FFFFh
/// ticks: (the final counter value, whether the target was reached, whether the counter went
/// past FFFFh). A batch that reaches the target with reset-on-target set stops there, using
/// up the ticks it took to get there (at least one), and returns the counter to 0; otherwise
/// a batch uses up all its ticks and the counter wraps at 10000h.
pub open spec fn counter_run(current: u16, target: u16, reset: bool, remaining: nat) -> (u16, bool, bool)
    decreases remaining,
{
    if remaining == 0 {
        (current, false, false)
    } else {
        let step: nat = if remaining < 0xFFFF { remaining } else { 0xFFFF };
        let hit_target = target != 0 && current <= target <= current + step;
        let hit_ffff = !(hit_target && reset) && current + step > 0xFFFF;
        let used: nat = if hit_target && reset { if target > current { (target - current) as nat } else { 1 } } else { step };
        let next: u16 = if hit_target && reset { 0 } else { (current + step) as u16 };
        let rest = counter_run(next, target, reset, (remaining - used) as nat);
        (rest.0, hit_target || rest.1, hit_ffff || rest.2)
    }
}

impl RootCounter {
    /// What counting `cycles` system clocks through the divisor does to the counter.
    pub open spec fn run_after(self, cycles: u64) -> (u16, bool, bool) {
        counter_run(self.current, self.target, self.mode & 0x8 != 0,
            ((self.clock_accumulator + cycles) / (self.cached_divisor as int)) as nat)
    }

    /// Whether counting `cycles` system clocks raises the counter's interrupt: the target was
    /// reached with IRQ-on-target (mode bit 4), or FFFFh was passed with IRQ-on-FFFFh (bit 5).
    pub open spec fn irq_after(self, cycles: u64) -> bool {
        let r = self.run_after(cycles);
        (r.1 && self.mode & 0x10 != 0) || (r.2 && self.mode & 0x20 != 0)
    }

    /// The divisor is one of the three the hardware supports and the accumulator stays below it.
    pub open spec fn wf(&self) -> bool {
        &&& (self.cached_divisor == 1 || self.cached_divisor == 8 || self.cached_divisor == 2148)
        &&& self.clock_accumulator < self.cached_divisor
    }

    pub fn new() -> (r: Self)
        ensures
            r.wf(),
            r.current == 0 && r.mode == 0 && r.target == 0,
            r.clock_accumulator == 0 && r.cached_divisor == 1,
            r == RootCounter::new_spec(),
    {
        RootCounter {
            current: 0,
            mode: 0,
            target: 0,
            irq_disabled_until_ack: false,
            clock_accumulator: 0,
            cached_divisor: 1,
        }
    }

    fn compute_divisor(mode: u16, timer_index: usize) -> (r: u32)
        ensures r == divisor_spec(mode, timer_index),
    {
        let clock_source = (mode >> 8u16) & 3;
        if timer_index == 1 && (clock_source == 1 || clock_source == 3) {
            2148
        } else if timer_index == 2 && (clock_source == 2 || clock_source == 3) {
            8
        } else {
            1
        }
    }

    /// Writing the mode resets the counter and the divider phase.
    fn write_mode(&mut self, value: u16, timer_index: usize)
        ensures
            final(self).wf(),
            final(self).current == 0,
            final(self).clock_accumulator == 0,
            final(self).mode == value,
            final(self).target == old(self).target,
            final(self).cached_divisor == divisor_spec(value, timer_index),
    {
        self.current = 0;
        self.clock_accumulator = 0;
        self.mode = value;
        self.cached_divisor = Self::compute_divisor(value, timer_index);
    }

    /// Advance by `step` counts from `current`: (new value, target crossed, FFFFh crossed).
    fn advance_one_batch(&self, step: u16, target: u16, reset_on_target: bool) -> (r: (u16, bool, bool))
        ensures
            r.1 == (target != 0 && self.current <= target <= self.current + step),
            r.0 == (if r.1 && reset_on_target { target } else { (self.current + step) as u16 }),
            r.2 == (!(r.1 && reset_on_target) && self.current + step > 0xFFFF),
    {
        let start = self.current as u32;
        let mut end = start + step as u32;
        let would_hit_target = target != 0 && start <= target as u32 && target as u32 <= end;
        if would_hit_target && reset_on_target {
            end = target as u32;
        }
        (end as u16, would_hit_target, end > 0xFFFF)
    }

    /// Count `cycles` system clocks (through the divisor), raising `interrupt` when the target
    /// or FFFFh is reached and the mode enables it.
    fn tick(&mut self, cycles: u64, interrupt: Interrupt, ic: &mut InterruptController)
        requires
            old(self).wf(),
            cycles <= u64::MAX - 0x2_0000,
        ensures
            final(self).wf(),
            final(self).mode == old(self).mode,
            final(self).target == old(self).target,
            final(self).cached_divisor == old(self).cached_divisor,
            final(self).clock_accumulator == (old(self).clock_accumulator + cycles) % (old(self).cached_divisor as int),
            final(ic).mask == old(ic).mask,
            final(ic).stat & old(ic).stat == old(ic).stat,
            final(self).current == old(self).run_after(cycles).0,
            final(ic).stat == old(ic).stat | (if old(self).irq_after(cycles) { 1u16 << interrupt_bit(interrupt) } else { 0u16 }),
    {
        let irq_on_target = self.mode & 0x10 != 0;
        let irq_on_ffff = self.mode & 0x20 != 0;
        let reset_on_target = self.mode & 0x8 != 0;

        let divisor = self.cached_divisor as u64;
        let total = self.clock_accumulator as u64 + cycles;
        let effective_cycles = total / divisor;
        assert(effective_cycles <= total) by (nonlinear_arith)
            requires divisor >= 1, effective_cycles == total / divisor;
        self.clock_accumulator = (total % divisor) as u32;
        let ghost s0 = ic.stat;
        let ghost bit = 1u16 << interrupt_bit(interrupt);
        let ghost fin = counter_run(old(self).current, old(self).target, reset_on_target, effective_cycles as nat);
        proof {
            assert(interrupt_bit(interrupt) < 16);
            crate::bits::lemma_or_and();
        }

        if effective_cycles == 0 {
            return;
        }

        let target = self.target;
        let start = self.current as u64;
        let end = start + effective_cycles;
        let would_hit_target = target != 0 && start <= target as u64 && target as u64 <= end;
        let hit_ffff_fast = end > 0xFFFF;

        if !hit_ffff_fast && !(would_hit_target && reset_on_target) {
            proof {
                reveal_with_fuel(counter_run, 2);
                assert(fin == ((end as u16), would_hit_target, false));
            }
            self.current = end as u16;
            if would_hit_target && irq_on_target {
                ic.raise_interrupt(interrupt);
            }
            return;
        }

        let mut remaining = effective_cycles;
        let ghost mut hit_t = false;
        let ghost mut hit_f = false;
        while remaining > 0
            invariant
                self.wf(),
                self.mode == old(self).mode,
                self.target == old(self).target,
                self.cached_divisor == old(self).cached_divisor,
                self.clock_accumulator == (old(self).clock_accumulator + cycles) % (old(self).cached_divisor as int),
                ic.mask == old(ic).mask,
                reset_on_target == (self.mode & 0x8 != 0),
                irq_on_target == (self.mode & 0x10 != 0),
                irq_on_ffff == (self.mode & 0x20 != 0),
                bit == 1u16 << interrupt_bit(interrupt),
                s0 == old(ic).stat,
                forall|x: u16| #[trigger] (x | 0u16) == x,
                forall|x: u16, m: u16| #[trigger] ((x | m) | m) == x | m,
                forall|x: u16, m: u16| #[trigger] ((x | m) & x) == x,
                ({
                    let run = counter_run(self.current, self.target, reset_on_target, remaining as nat);
                    &&& run.0 == fin.0
                    &&& (hit_t || run.1) == fin.1
                    &&& (hit_f || run.2) == fin.2
                }),
                ic.stat == s0 | (if (hit_t && irq_on_target) || (hit_f && irq_on_ffff) { bit } else { 0u16 }),
            decreases remaining,
        {
            let step = if remaining < 0xFFFF { remaining } else { 0xFFFF };
            let cur = self.current;
            let (new_current, hit_target, hit_ffff) = self.advance_one_batch(step as u16, self.target, reset_on_target);
            self.current = new_current;
            // Reaching the target takes the ticks between the start of the batch and the target.
            let consumed: u64 = if hit_target && reset_on_target {
                if self.target >= cur { (self.target - cur) as u64 } else { 0 }
            } else {
                step
            };
            let dec = if consumed > 1 { consumed } else { 1 };
            let ghost rem0 = remaining;
            remaining = if dec > remaining { 0 } else { remaining - dec };
            if hit_target && irq_on_target {
                ic.raise_interrupt(interrupt);
            }
            if hit_ffff && irq_on_ffff {
                ic.raise_interrupt(interrupt);
            }
            if hit_target && reset_on_target {
                self.current = 0;
            }
            proof {
                hit_t = hit_t || hit_target;
                hit_f = hit_f || hit_ffff;
                assert(counter_run(cur, self.target, reset_on_target, rem0 as nat).1 == (hit_target || counter_run(self.current, self.target, reset_on_target, remaining as nat).1));
            }
        }
    }
}

/// The three root counters.
pub struct Timers {
    pub counters: [RootCounter; 3],
}

impl Timers {
    pub open spec fn wf(&self) -> bool {
        forall|i: int| 0 <= i < 3 ==> (#[trigger] self.counters@[i]).wf()
    }

    pub fn new() -> (r: Self)
        ensures
            r.wf(),
            forall|i: int| 0 <= i < 3 ==> #[trigger] r.counters@[i] == RootCounter::new_spec(),
    {
        Timers { counters: [RootCounter::new(), RootCounter::new(), RootCounter::new()] }
    }

    /// The value of register `offset` of counter `timer`.
    pub open spec fn register_value(self, timer: int, offset: u32) -> u32 {
        if offset == 0 {
            self.counters@[timer].current as u32
        } else if offset == 4 {
            self.counters@[timer].mode as u32
        } else if offset == 8 {
            self.counters@[timer].target as u32
        } else {
            0
        }
    }

    /// Read counter value (offset 0), mode (4) or target (8) of `timer`; other offsets read 0.
    pub fn read_register(&mut self, timer: usize, offset: u32) -> (r: u32)
        requires
            timer < 3,
        ensures
            *final(self) == *old(self),
            r == old(self).register_value(timer as int, offset),
    {
        let counter = self.counters[timer];
        if offset == 0 {
            counter.current as u32
        } else if offset == 4 {
            counter.mode as u32
        } else if offset == 8 {
            counter.target as u32
        } else {
            0
        }
    }

    /// How a write of `value` to register `offset` of counter `timer` changes the counters: the
    /// counter value (0), the mode (4, which also restarts the count) or the target (8); the
    /// other counters keep their state, and other offsets change nothing.
    pub open spec fn written(self, post: Timers, timer: int, offset: u32, value: u16) -> bool {
        &&& forall|i: int| 0 <= i < 3 && i != timer ==> #[trigger] post.counters@[i] == self.counters@[i]
        &&& offset == 0 ==> post.counters@[timer] == (RootCounter { current: value, ..self.counters@[timer] })
        &&& offset == 4 ==> post.counters@[timer].mode == value && post.counters@[timer].current == 0
            && post.counters@[timer].cached_divisor == divisor_spec(value, timer as usize)
        &&& offset == 8 ==> post.counters@[timer] == (RootCounter { target: value, ..self.counters@[timer] })
        &&& offset != 0 && offset != 4 && offset != 8 ==> post == self
    }

    /// Write counter value (offset 0), mode (4, resets the counter) or target (8).
    pub fn write_register(&mut self, timer: usize, offset: u32, value: u16)
        requires
            old(self).wf(),
            timer < 3,
        ensures
            final(self).wf(),
            old(self).written(*final(self), timer as int, offset, value),
    {
        let mut counter = self.counters[timer];
        if offset == 0 {
            counter.current = value;
        } else if offset == 4 {
            counter.write_mode(value, timer);
        } else if offset == 8 {
            counter.target = value;
        } else {
            return;
        }
        self.counters[timer] = counter;
    }

    /// The interrupt bits that counting `cycles` system clocks raises (TMR0..TMR2).
    pub open spec fn irq_bits(self, cycles: u64) -> u16 {
        ((if self.counters@[0].irq_after(cycles) { 1u16 << interrupt_bit(Interrupt::TMR0) } else { 0u16 })
            | (if self.counters@[1].irq_after(cycles) { 1u16 << interrupt_bit(Interrupt::TMR1) } else { 0u16 }))
            | (if self.counters@[2].irq_after(cycles) { 1u16 << interrupt_bit(Interrupt::TMR2) } else { 0u16 })
    }

    /// Advance all three counters by `cycles` system clocks.
    pub fn tick(&mut self, cycles: u64, ic: &mut InterruptController)
        requires
            old(self).wf(),
            cycles <= u64::MAX - 0x2_0000,
        ensures
            final(self).wf(),
            final(ic).mask == old(ic).mask,
            final(ic).stat & old(ic).stat == old(ic).stat,
            forall|i: int| 0 <= i < 3 ==> (#[trigger] final(self).counters@[i]).mode == old(self).counters@[i].mode
                && final(self).counters@[i].target == old(self).counters@[i].target
                && final(self).counters@[i].current == old(self).counters@[i].run_after(cycles).0,
            final(ic).stat == old(ic).stat | old(self).irq_bits(cycles),
    {
        let ghost s0 = ic.stat;
        let mut c0 = self.counters[0];
        c0.tick(cycles, Interrupt::TMR0, ic);
        self.counters[0] = c0;
        let ghost s1 = ic.stat;
        let mut c1 = self.counters[1];
        c1.tick(cycles, Interrupt::TMR1, ic);
        self.counters[1] = c1;
        let ghost s2 = ic.stat;
        let mut c2 = self.counters[2];
        c2.tick(cycles, Interrupt::TMR2, ic);
        self.counters[2] = c2;
        let s3 = ic.stat;
        assert(forall|a: u16, b: u16, c: u16, d: u16| b & a == a && c & b == b && d & c == c ==> d & a == a) by { crate::bits::lemma_or_and(); }
        proof { crate::bits::lemma_or_and(); }
    }
}

impl RootCounter {
    pub open spec fn new_spec() -> RootCounter {
        RootCounter { current: 0, mode: 0, target: 0, irq_disabled_until_ack: false, clock_accumulator: 0, cached_divisor: 1 }
    }
}

} // verus!
