//! Event scheduler keyed by absolute cycle count. Peripherals with timing (CD-ROM, serial port,
//! VBlank, SPU) schedule events that the bus dispatches once their deadline has passed.
use vstd::prelude::*;

verus! {

/// Largest delay, in cycles, that an event may be scheduled ahead.
pub const MAX_DELAY: u64 = 0x1_0000_0000;

/// Largest cycle count the scheduler may reach; keeps every deadline within `u64`.
pub const CYCLE_LIMIT: u64 = 0x4000_0000_0000_0000;

/// Kinds of events that peripherals schedule.
#[derive(Debug, Clone, PartialEq, Eq)]
pub enum SchedulerEvent {
    VBlank,
    CdRomResponse { bytes: Vec<u8>, int_code: u8 },
    CdRomSectorRead,
    SioResponse { byte: u8, dsr: bool },
    Spu,
}

/// An event together with the absolute cycle at which it becomes due.
#[derive(Debug, Clone, PartialEq, Eq)]
pub struct ScheduledEvent {
    pub deadline: u64,
    pub kind: SchedulerEvent,
}

/// Pending events ordered by deadline (earliest first; equal deadlines in scheduling order).
pub struct Scheduler {
    pub events: Vec<ScheduledEvent>,
    pub current_cycle: u64,
}

/// `s` is ordered by nondecreasing deadline.
pub open spec fn sorted_by_deadline(s: Seq<ScheduledEvent>) -> bool {
    forall|i: int, j: int| 0 <= i <= j < s.len() ==> s[i].deadline <= s[j].deadline
}

impl Scheduler {
    /// Events are ordered by deadline and all times stay far from `u64` overflow.
    pub open spec fn wf(&self) -> bool {
        &&& sorted_by_deadline(self.events@)
        &&& self.current_cycle <= CYCLE_LIMIT
        &&& forall|i: int|
            0 <= i < self.events@.len() ==> #[trigger] self.events@[i].deadline <= CYCLE_LIMIT
                + MAX_DELAY
    }

    /// `post` is `self` with one more event, `kind`, due `delay` cycles from now, placed after
    /// every pending event due at the same time or earlier and before every later one, so
    /// that events due together are handled in the order they were scheduled.
    pub open spec fn added(self, post: Scheduler, kind: SchedulerEvent, delay: u64) -> bool {
        let d = self.current_cycle + delay;
        &&& post.current_cycle == self.current_cycle
        &&& exists|k: int|
            #![trigger post.events@[k]]
            0 <= k <= self.events@.len() && post.events@ == self.events@.insert(
                k,
                ScheduledEvent { deadline: d as u64, kind },
            )
            && (forall|i: int| 0 <= i < k ==> #[trigger] self.events@[i].deadline <= d)
            && (forall|i: int| k <= i < self.events@.len() ==> #[trigger] self.events@[i].deadline > d)
    }

    /// `post` is this scheduler with the events whose kind `drop` selects removed: every
    /// event left was pending and is not selected, and every event removed is selected.
    pub open spec fn cancelled(self, post: Scheduler, drop: spec_fn(SchedulerEvent) -> bool) -> bool {
        &&& post.current_cycle == self.current_cycle
        &&& forall|i: int| 0 <= i < post.events@.len() ==> self.events@.contains(#[trigger] post.events@[i])
            && !drop(post.events@[i].kind)
        &&& forall|j: int| 0 <= j < self.events@.len() && !post.events@.contains(#[trigger] self.events@[j])
            ==> drop(self.events@[j].kind)
    }

    /// Two events scheduled with the same delay, without time passing in between, are
    /// handled in the order they were scheduled.
    pub proof fn lemma_same_deadline_in_order(s0: Scheduler, s1: Scheduler, s2: Scheduler, first: SchedulerEvent, second: SchedulerEvent, delay: u64)
        requires
            s0.added(s1, first, delay),
            s1.added(s2, second, delay),
        ensures
            ({
                let d = (s0.current_cycle + delay) as u64;
                exists|i: int, j: int| 0 <= i < j < s2.events@.len()
                    && #[trigger] s2.events@[i] == (ScheduledEvent { deadline: d, kind: first })
                    && #[trigger] s2.events@[j] == (ScheduledEvent { deadline: d, kind: second })
            }),
    {
        let d = s0.current_cycle + delay;
        let e1 = ScheduledEvent { deadline: d as u64, kind: first };
        let e2 = ScheduledEvent { deadline: d as u64, kind: second };
        let k1 = choose|k: int| 0 <= k <= s0.events@.len() && s1.events@ == s0.events@.insert(k, e1)
            && (forall|i: int| 0 <= i < k ==> #[trigger] s0.events@[i].deadline <= d)
            && (forall|i: int| k <= i < s0.events@.len() ==> #[trigger] s0.events@[i].deadline > d);
        let k2 = choose|k: int| 0 <= k <= s1.events@.len() && s2.events@ == s1.events@.insert(k, e2)
            && (forall|i: int| 0 <= i < k ==> #[trigger] s1.events@[i].deadline <= d)
            && (forall|i: int| k <= i < s1.events@.len() ==> #[trigger] s1.events@[i].deadline > d);
        assert(s1.events@[k1] == e1);
        assert(k1 < k2) by {
            if k2 <= k1 {
                assert(s1.events@[k1].deadline > d);
            }
        }
        assert(s2.events@[k1] == e1);
        assert(s2.events@[k2] == e2);
    }

    pub fn new() -> (r: Self)
        ensures
            r.wf(),
            r.events@.len() == 0,
            r.current_cycle == 0,
    {
        Scheduler { events: Vec::new(), current_cycle: 0 }
    }

    /// Add an event due `cycles_from_now` cycles after the current cycle. It is placed after
    /// every pending event with the same or an earlier deadline.
    pub fn schedule(&mut self, event: SchedulerEvent, cycles_from_now: u64)
        requires
            old(self).wf(),
            cycles_from_now <= MAX_DELAY,
        ensures
            final(self).wf(),
            old(self).added(*final(self), event, cycles_from_now),
    {
        let deadline = self.current_cycle + cycles_from_now;
        let mut k: usize = 0;
        while k < self.events.len() && self.events[k].deadline <= deadline
            invariant
                k <= self.events@.len(),
                forall|i: int| 0 <= i < k ==> #[trigger] self.events@[i].deadline <= deadline,
            decreases self.events@.len() - k,
        {
            k = k + 1;
        }
        let ghost old_events = self.events@;
        assert forall|i: int| k <= i < old_events.len() implies #[trigger] old_events[i].deadline > deadline by {
            assert(old_events[k as int].deadline > deadline);
            assert(old_events[k as int].deadline <= old_events[i].deadline);
        }
        let se = ScheduledEvent { deadline, kind: event };
        self.events.insert(k, se);
        proof {
            let s = self.events@;
            assert(s == old_events.insert(k as int, se));
            assert(s[k as int] == se);
            assert forall|i: int, j: int| 0 <= i <= j < s.len() implies s[i].deadline
                <= s[j].deadline by {
                if j < k {
                } else if j == k {
                    if i < k {
                    }
                } else {
                    if i < k {
                        assert(old_events[i].deadline <= old_events[j - 1].deadline);
                    } else if i == k {
                        assert(old_events[k as int].deadline > deadline);
                        assert(old_events[k as int].deadline <= old_events[j - 1].deadline);
                    } else {
                        assert(old_events[i - 1].deadline <= old_events[j - 1].deadline);
                    }
                }
            }
            assert forall|i: int| 0 <= i < s.len() implies #[trigger] s[i].deadline
                <= CYCLE_LIMIT + MAX_DELAY by {
                if i < k {
                } else if i == k {
                } else {
                    assert(s[i] == old_events[i - 1]);
                }
            }
        }
    }

    /// Cycles until the earliest pending event is due (0 if overdue), or `u64::MAX` when nothing
    /// is scheduled.
    pub fn time_to_next_event(&self) -> (r: u64)
        ensures
            self.events@.len() == 0 ==> r == u64::MAX,
            self.events@.len() > 0 ==> r == (if self.events@[0].deadline >= self.current_cycle {
                (self.events@[0].deadline - self.current_cycle) as u64
            } else {
                0
            }),
    {
        if self.events.len() > 0 {
            self.events[0].deadline.saturating_sub(self.current_cycle)
        } else {
            u64::MAX
        }
    }

    /// Advance time by `cycles` and return, earliest first, the events that became due.
    pub fn advance(&mut self, cycles: u32) -> (fired: Vec<SchedulerEvent>)
        requires
            old(self).wf(),
            old(self).current_cycle + cycles <= CYCLE_LIMIT,
        ensures
            final(self).wf(),
            final(self).current_cycle == old(self).current_cycle + cycles,
            fired@.len() <= old(self).events@.len(),
            final(self).events@ == old(self).events@.skip(fired@.len() as int),
            forall|i: int|
                0 <= i < fired@.len() ==> #[trigger] fired@[i] == old(self).events@[i].kind
                    && old(self).events@[i].deadline <= final(self).current_cycle,
            final(self).events@.len() > 0 ==> final(self).events@[0].deadline
                > final(self).current_cycle,
    {
        self.current_cycle = self.current_cycle + cycles as u64;
        let ghost old_events = self.events@;
        let mut fired: Vec<SchedulerEvent> = Vec::new();
        while self.events.len() > 0 && self.events[0].deadline <= self.current_cycle
            invariant
                fired@.len() <= old_events.len(),
                self.events@ == old_events.skip(fired@.len() as int),
                forall|i: int|
                    0 <= i < fired@.len() ==> #[trigger] fired@[i] == old_events[i].kind
                        && old_events[i].deadline <= self.current_cycle,
                sorted_by_deadline(old_events),
                self.current_cycle == old(self).current_cycle + cycles,
                self.current_cycle <= CYCLE_LIMIT,
                old_events == old(self).events@,
                old(self).wf(),
            decreases self.events@.len(),
        {
            let e = self.events.remove(0);
            proof {
                assert(e == old_events[fired@.len() as int]);
            }
            fired.push(e.kind);
            proof {
                assert(self.events@ =~= old_events.skip(fired@.len() as int));
            }
        }
        fired
    }

    /// Remove every pending event for which `predicate` holds; the others keep their order.
    pub fn cancel<F: Fn(&SchedulerEvent) -> bool>(&mut self, predicate: F)
        requires
            old(self).wf(),
            forall|e: &SchedulerEvent| #[trigger] predicate.requires((e,)),
        ensures
            final(self).wf(),
            final(self).current_cycle == old(self).current_cycle,
            forall|i: int|
                0 <= i < final(self).events@.len() ==> old(self).events@.contains(
                    #[trigger] final(self).events@[i],
                ) && predicate.ensures((&final(self).events@[i].kind,), false),
            forall|j: int|
                0 <= j < old(self).events@.len() && !final(self).events@.contains(
                    #[trigger] old(self).events@[j],
                ) ==> predicate.ensures((&old(self).events@[j].kind,), true),
    {
        let ghost old_events = self.events@;
        let mut kept: Vec<ScheduledEvent> = Vec::new();
        let ghost mut kept_idx: Seq<int> = Seq::empty();
        while self.events.len() > 0
            invariant
                self.events@ == old_events.skip(old_events.len() - self.events@.len()),
                self.events@.len() <= old_events.len(),
                kept_idx.len() == kept@.len(),
                forall|i: int|
                    0 <= i < kept@.len() ==> 0 <= #[trigger] kept_idx[i] < old_events.len()
                        - self.events@.len() && kept@[i] == old_events[kept_idx[i]]
                        && predicate.ensures((&kept@[i].kind,), false),
                forall|i: int, j: int| 0 <= i < j < kept@.len() ==> kept_idx[i] < kept_idx[j],
                forall|j: int|
                    0 <= j < old_events.len() - self.events@.len() && !kept@.contains(
                        #[trigger] old_events[j],
                    ) ==> predicate.ensures((&old_events[j].kind,), true),
                forall|e: &SchedulerEvent| #[trigger] predicate.requires((e,)),
                self.current_cycle == old(self).current_cycle,
                old_events == old(self).events@,
                old(self).wf(),
            decreases self.events@.len(),
        {
            let ghost done = old_events.len() - self.events@.len();
            let e = self.events.remove(0);
            assert(e == old_events[done]);
            let drop = predicate(&e.kind);
            if !drop {
                let ghost prev = kept@;
                kept.push(e);
                proof {
                    kept_idx = kept_idx.push(done);
                    assert forall|j: int|
                        0 <= j < done + 1 && !kept@.contains(
                            #[trigger] old_events[j],
                        ) implies predicate.ensures((&old_events[j].kind,), true) by {
                        if j < done {
                            if prev.contains(old_events[j]) {
                                let t = choose|t: int| 0 <= t < prev.len() && prev[t] == old_events[j];
                                assert(kept@[t] == old_events[j]);
                            }
                        } else {
                            assert(kept@[prev.len() as int] == old_events[j]);
                        }
                    }
                }
            } else {
                proof {
                    assert forall|j: int|
                        0 <= j < done + 1 && !kept@.contains(
                            #[trigger] old_events[j],
                        ) implies predicate.ensures((&old_events[j].kind,), true) by {
                        if j < done {
                        } else {
                        }
                    }
                }
            }
            proof {
                assert(self.events@ =~= old_events.skip(old_events.len() - self.events@.len()));
            }
        }
        proof {
            assert forall|i: int, j: int| 0 <= i <= j < kept@.len() implies kept@[i].deadline
                <= kept@[j].deadline by {
                if i < j {
                    assert(old_events[kept_idx[i]].deadline <= old_events[kept_idx[j]].deadline);
                }
            }
            assert forall|i: int| 0 <= i < kept@.len() implies #[trigger] kept@[i].deadline
                <= CYCLE_LIMIT + MAX_DELAY by {
                assert(old_events[kept_idx[i]].deadline <= CYCLE_LIMIT + MAX_DELAY);
            }
            assert forall|i: int| 0 <= i < kept@.len() implies old_events.contains(
                #[trigger] kept@[i],
            ) && predicate.ensures((&kept@[i].kind,), false) by {
                assert(old_events[kept_idx[i]] == kept@[i]);
            }
        }
        self.events = kept;
    }
}

/// Events come out of `advance` in deadline order: every fired event is due no later than any
/// event that stays pending, and fired events are ordered by deadline among themselves.
pub proof fn lemma_advance_fires_in_order(old_events: Seq<ScheduledEvent>, n: int)
    requires
        sorted_by_deadline(old_events),
        0 <= n <= old_events.len(),
    ensures
        forall|i: int, j: int|
            0 <= i < n <= j < old_events.len() ==> old_events[i].deadline
                <= old_events[j].deadline,
        forall|i: int, j: int| 0 <= i <= j < n ==> old_events[i].deadline <= old_events[j].deadline,
{
}

} // verus!
