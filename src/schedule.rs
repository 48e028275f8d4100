//! The per-source scheduler: a time-ordered queue of actor turns, rate shaping,
//! and the hand-out of slots in non-decreasing simulated time.
use vstd::prelude::*;

use rand::rngs::StdRng;

use crate::actors::{ActorKind, ActorSeed, ServicePattern, MAX_RATE_MILLI};
use crate::clock::{hour_of, local_day_and_ms, local_time, valid_timestamp, MAX_TIMESTAMP_MS, MS_PER_HOUR};
use crate::profile::{available_from, ActorProfile};
use crate::rng::{draw_range, draw_ratio};

verus! {

/// Order of schedule entries: by time, ties broken by actor index.
pub open spec fn entry_le(a: (i64, usize), b: (i64, usize)) -> bool {
    a.0 < b.0 || (a.0 == b.0 && a.1 <= b.1)
}

/// A min-queue of `(simulated_time, actor_index)` entries that never hands out a
/// time earlier than the last one it handed out.
pub struct ScheduleQueue {
    entries: Vec<(i64, usize)>,
    floor: i64,
}

impl ScheduleQueue {
    /// The pending entries, in no particular order.
    pub closed spec fn view(&self) -> Seq<(i64, usize)> {
        self.entries@
    }

    /// The time of the last entry handed out (or the start time).
    pub closed spec fn floor(&self) -> int {
        self.floor as int
    }

    /// No pending entry lies before the floor.
    pub closed spec fn wf(&self) -> bool {
        forall|k: int| 0 <= k < self.entries@.len() ==> #[trigger] self.entries@[k].0 >= self.floor
    }

    /// An empty queue whose floor is `start`.
    pub fn new(start: i64) -> (r: Self)
        ensures
            r.wf(),
            r@ == Seq::<(i64, usize)>::empty(),
            r.floor() == start,
    {
        ScheduleQueue { entries: Vec::new(), floor: start }
    }

    /// Number of pending entries.
    pub fn len(&self) -> (r: usize)
        ensures
            r == self@.len(),
    {
        self.entries.len()
    }

    /// Adds an entry; it may not lie before the floor.
    pub fn push(&mut self, time: i64, actor: usize)
        requires
            old(self).wf(),
            time >= old(self).floor(),
        ensures
            final(self).wf(),
            final(self)@ == old(self)@.push((time, actor)),
            final(self).floor() == old(self).floor(),
    {
        self.entries.push((time, actor));
    }

    /// Removes and returns the least entry (earliest time, then lowest index); the
    /// floor moves up to its time.
    pub fn pop(&mut self) -> (r: Option<(i64, usize)>)
        requires
            old(self).wf(),
        ensures
            final(self).wf(),
            old(self)@.len() == 0 <==> r.is_none(),
            r.is_none() ==> *final(self) == *old(self),
            r matches Some(e) ==> {
                &&& exists|k: int|
                    0 <= k < old(self)@.len() && old(self)@[k] == e && final(self)@ == old(
                        self,
                    )@.remove(k)
                &&& forall|k: int| 0 <= k < old(self)@.len() ==> entry_le(e, #[trigger] old(self)@[k])
                &&& e.0 >= old(self).floor()
                &&& final(self).floor() == e.0
            },
    {
        let n = self.entries.len();
        if n == 0 {
            return None;
        }
        let mut best: usize = 0;
        let mut k: usize = 1;
        while k < n
            invariant
                n == self.entries@.len(),
                *self == *old(self),
                1 <= k <= n,
                best < n,
                forall|j: int| 0 <= j < k ==> entry_le(self.entries@[best as int], #[trigger] self.entries@[j]),
            decreases n - k,
        {
            let (t, a) = self.entries[k];
            let (bt, ba) = self.entries[best];
            if t < bt || (t == bt && a < ba) {
                best = k;
            }
            k = k + 1;
        }
        let e = self.entries.remove(best);
        self.floor = e.0;
        proof {
            assert(old(self)@[best as int] == e);
            assert(self@ == old(self)@.remove(best as int));
            assert(e.0 >= old(self).floor());
            assert forall|j: int| 0 <= j < self.entries@.len() implies #[trigger] self.entries@[j].0 >= self.floor by {
                if j < best {
                    assert(self.entries@[j] == old(self).entries@[j]);
                } else {
                    assert(self.entries@[j] == old(self).entries@[j + 1]);
                }
            }
        }
        Some(e)
    }
}

} // verus!

verus! {

/// The rate floor applied before shaping: a tenth of an event per hour.
pub const MIN_RATE_MILLI: u64 = 100;

/// Diurnal shaping, in percent, for a local hour of the day.
pub open spec fn diurnal_percent(hour: int) -> int {
    if 7 <= hour <= 9 {
        70
    } else if 10 <= hour <= 17 {
        110
    } else if 18 <= hour <= 21 {
        80
    } else {
        35
    }
}

/// The rate before shaping: the seed's rate, but at least the floor.
pub open spec fn base_rate(seed: ActorSeed) -> int {
    if seed.rate_per_hour_milli < MIN_RATE_MILLI {
        MIN_RATE_MILLI as int
    } else {
        seed.rate_per_hour_milli as int
    }
}

/// A rate scaled by a percentage, rounded down.
pub open spec fn scaled(rate: int, percent: int) -> int {
    rate * percent / 100
}

/// Diurnal shaping factor in percent at `now`, by the actor's local hour.
pub fn diurnal_multiplier(seed: &ActorSeed, now: i64) -> (r: u64)
    requires
        seed.window_wf(),
        valid_timestamp(now as int),
    ensures
        r == diurnal_percent(hour_of(local_time(now as int, seed.timezone_offset as int))),
{
    let (_, ms) = local_day_and_ms(now, seed.timezone_offset);
    let hour = ms / MS_PER_HOUR;
    if 7 <= hour && hour <= 9 {
        70
    } else if 10 <= hour && hour <= 17 {
        110
    } else if 18 <= hour && hour <= 21 {
        80
    } else {
        35
    }
}

/// Burst shaping factor in percent: with chance 12/100 a burst of 200..500,
/// otherwise a lull of 40..100.
pub fn burst_multiplier(rng: &mut StdRng) -> (r: u64)
    ensures
        40 <= r < 100 || 200 <= r < 500,
{
    if draw_ratio(rng, 12, 100) {
        draw_range(rng, 200, 500)
    } else {
        draw_range(rng, 40, 100)
    }
}

/// The actor's effective rate at `now`, in thousandths of an event per hour:
/// the base rate for humans and constant services, shaped by the local hour for
/// diurnal services and by a random burst factor for bursty ones.
pub fn effective_rate(seed: &ActorSeed, now: i64, rng: &mut StdRng) -> (r: u64)
    requires
        seed.wf(),
        valid_timestamp(now as int),
    ensures
        seed.kind == ActorKind::Human ==> r == base_rate(*seed),
        seed.kind == ActorKind::Service ==> match seed.service_pattern {
            Some(ServicePattern::Diurnal) => r == scaled(
                base_rate(*seed),
                diurnal_percent(hour_of(local_time(now as int, seed.timezone_offset as int))),
            ),
            Some(ServicePattern::Bursty) => exists|p: int|
                (40 <= p < 100 || 200 <= p < 500) && r == #[trigger] scaled(base_rate(*seed), p),
            _ => r == base_rate(*seed),
        },
{
    let base: u64 = if seed.rate_per_hour_milli < MIN_RATE_MILLI {
        MIN_RATE_MILLI
    } else {
        seed.rate_per_hour_milli
    };
    match seed.kind {
        ActorKind::Human => base,
        ActorKind::Service => match seed.service_pattern {
            Some(ServicePattern::Diurnal) => {
                let p = diurnal_multiplier(seed, now);
                assert(base * p <= MAX_RATE_MILLI * 110) by (nonlinear_arith)
                    requires base <= MAX_RATE_MILLI, p <= 110;
                base * p / 100
            },
            Some(ServicePattern::Bursty) => {
                let p = burst_multiplier(rng);
                assert(base * p <= MAX_RATE_MILLI * 500) by (nonlinear_arith)
                    requires base <= MAX_RATE_MILLI, p < 500;
                let r = base * p / 100;
                assert(base as int == base_rate(*seed));
                assert(r == scaled(base_rate(*seed), p as int));
                r
            },
            _ => base,
        },
    }
}

/// The longest gap between two events of one actor that the scheduler accepts:
/// about a hundred years.
pub const MAX_GAP_MS: i64 = 3_155_760_000_000;

/// The per-source scheduler: an arena of actor profiles and a queue of the next
/// instant at which each one acts.
pub struct ActorScheduler {
    profiles: Vec<ActorProfile>,
    queue: ScheduleQueue,
    pending: Option<(i64, usize)>,
    deferrals: u64,
}

/// When actor `p` first acts from `start`: `gap` after the instant it is first
/// available, or at its next free instant after that when it is not free then
/// (an instant past the last supported timestamp is kept as it is).
pub open spec fn first_turn(p: ActorProfile, start: int, gap: int) -> int {
    let candidate = available_from(p, start) + gap;
    if candidate <= MAX_TIMESTAMP_MS {
        available_from(p, candidate)
    } else {
        candidate
    }
}

impl ActorScheduler {
    /// The actor profiles, by index.
    pub closed spec fn profiles(&self) -> Seq<ActorProfile> {
        self.profiles@
    }

    /// The time of the last slot handed out (or the start time).
    pub closed spec fn clock(&self) -> int {
        self.queue.floor()
    }

    /// The queued turns: (time, actor index), in no particular order.
    pub closed spec fn queue(&self) -> Seq<(i64, usize)> {
        self.queue@
    }

    /// How many actors the last `next_slot` deferred.
    pub closed spec fn deferrals(&self) -> int {
        self.deferrals as int
    }

    /// The slot handed out and not yet finished, if any.
    pub closed spec fn pending(&self) -> Option<(i64, usize)> {
        self.pending
    }

    /// Every profile is well formed, each queued index names a profile, and a
    /// pending slot belongs to an actor with an open session, at the clock's time.
    pub closed spec fn wf(&self) -> bool {
        &&& self.queue.wf()
        &&& forall|i: int| 0 <= i < self.profiles@.len() ==> (#[trigger] self.profiles@[i]).wf()
        &&& forall|k: int| 0 <= k < self.queue@.len() ==> (#[trigger] self.queue@[k]).1 < self.profiles@.len()
        &&& forall|k: int| 0 <= k < self.queue@.len() ==> (#[trigger] self.queue@[k]).0 >= 0
        &&& self.queue.floor() >= 0
        &&& self.pending matches Some(p) ==> {
            &&& p.1 < self.profiles@.len()
            &&& p.0 == self.queue.floor()
            &&& valid_timestamp(p.0 as int)
            &&& self.profiles@[p.1 as int].session_remaining > 0
        }
    }

    /// Number of actors.
    pub fn len(&self) -> (r: usize)
        ensures
            r == self.profiles().len(),
    {
        self.profiles.len()
    }

    /// Read access to one actor's profile.
    pub fn profile(&self, index: usize) -> (r: &ActorProfile)
        requires
            index < self.profiles().len(),
        ensures
            *r == self.profiles()[index as int],
    {
        &self.profiles[index]
    }

    /// Schedules every actor from `start`: actor `i` first acts at the first instant
    /// it is free after `initial_gaps[i]` milliseconds past the moment it becomes
    /// available.
    pub fn new(profiles: Vec<ActorProfile>, start: i64, initial_gaps: &Vec<i64>) -> (r: Self)
        requires
            valid_timestamp(start as int),
            initial_gaps@.len() == profiles@.len(),
            forall|i: int| 0 <= i < profiles@.len() ==> (#[trigger] profiles@[i]).wf(),
            forall|i: int| 0 <= i < initial_gaps@.len() ==> 0 <= #[trigger] initial_gaps@[i] <= MAX_GAP_MS,
        ensures
            r.wf(),
            r.profiles() == profiles@,
            r.clock() == start,
            r.pending().is_none(),
            r.queue().len() == profiles@.len(),
            forall|k: int|
                0 <= k < profiles@.len() ==> #[trigger] r.queue()[k] == (
                    first_turn(profiles@[k], start as int, initial_gaps@[k] as int) as i64,
                    k as usize,
                ),
    {
        let mut queue = ScheduleQueue::new(start);
        let n = profiles.len();
        let mut i: usize = 0;
        while i < n
            invariant
                n == profiles@.len(),
                n == initial_gaps@.len(),
                i <= n,
                valid_timestamp(start as int),
                queue.wf(),
                queue.floor() == start,
                forall|j: int| 0 <= j < profiles@.len() ==> (#[trigger] profiles@[j]).wf(),
                forall|j: int| 0 <= j < initial_gaps@.len() ==> 0 <= #[trigger] initial_gaps@[j] <= MAX_GAP_MS,
                forall|k: int| 0 <= k < queue@.len() ==> (#[trigger] queue@[k]).1 < n,
                forall|k: int| 0 <= k < queue@.len() ==> (#[trigger] queue@[k]).0 >= 0,
                queue@.len() == i,
                forall|k: int|
                    0 <= k < i ==> #[trigger] queue@[k] == (
                        first_turn(profiles@[k], start as int, initial_gaps@[k] as int) as i64,
                        k as usize,
                    ),
            decreases n - i,
        {
            let base = profiles[i].next_available_at(start);
            let candidate = base + initial_gaps[i];
            let at = if candidate <= MAX_TIMESTAMP_MS {
                profiles[i].next_available_at(candidate)
            } else {
                candidate
            };
            queue.push(at, i);
            i = i + 1;
        }
        ActorScheduler { profiles, queue, pending: None, deferrals: 0 }
    }

    /// Hands out the next slot: the earliest queued `(time, actor)` whose actor is
    /// free then, after opening a session for it. An actor that is not free when its
    /// turn comes is queued again at its next free instant. Returns `None` when the
    /// queue is empty, when the clock runs past the last supported timestamp, or
    /// after `max_deferrals` deferrals in a row. A slot handed out earlier and not
    /// finished is dropped.
    #[verifier::rlimit(100)]
    pub fn next_slot(&mut self, rng: &mut StdRng, max_deferrals: u64) -> (r: Option<(i64, usize)>)
        requires
            old(self).wf(),
            max_deferrals < u64::MAX,
        ensures
            final(self).wf(),
            final(self).profiles().len() == old(self).profiles().len(),
            final(self).pending() == r,
            r matches Some(slot) ==> {
                &&& slot.1 < final(self).profiles().len()
                &&& slot.0 >= old(self).clock()
                &&& slot.0 == final(self).clock()
                &&& valid_timestamp(slot.0 as int)
                &&& final(self).profiles()[slot.1 as int].seed.in_active_window(slot.0 as int)
                &&& final(self).profiles()[slot.1 as int].session_remaining > 0
            },
            final(self).clock() >= old(self).clock(),
            forall|i: int| 0 <= i < old(self).profiles().len() ==> (#[trigger] final(self).profiles()[i]).seed
                == old(self).profiles()[i].seed,
            forall|i: int| 0 <= i < final(self).profiles().len() ==> (#[trigger] final(self).profiles()[i]).wf(),
            r matches Some(slot) ==> {
                &&& final(self).queue().len() + 1 == old(self).queue().len()
                &&& forall|k: int| 0 <= k < final(self).queue().len() ==> entry_le(slot, #[trigger] final(self).queue()[k])
                &&& final(self).deferrals() <= max_deferrals
            },
            r is None ==> {
                ||| old(self).queue().len() == 0 && final(self).queue().len() == 0
                ||| final(self).clock() > MAX_TIMESTAMP_MS
                ||| final(self).deferrals() == max_deferrals + 1 && final(self).queue().len() == old(self).queue().len()
            },
    {
        self.pending = None;
        let mut deferrals: u64 = 0;
        while deferrals <= max_deferrals
            invariant
                self.wf(),
                self.pending.is_none(),
                self.profiles@.len() == old(self).profiles@.len(),
                self.queue.floor() >= old(self).queue.floor(),
                forall|i: int| 0 <= i < old(self).profiles@.len() ==> (#[trigger] self.profiles@[i]).seed
                    == old(self).profiles@[i].seed,
                self.queue@.len() == old(self).queue@.len(),
                deferrals <= max_deferrals,
                max_deferrals < u64::MAX,
                deferrals > 0 ==> old(self).queue@.len() > 0,
            decreases max_deferrals + 1 - deferrals,
        {
            let popped = self.queue.pop();
            let (t, i) = match popped {
                None => {
                    self.deferrals = 0;
                    return None;
                },
                Some(e) => e,
            };
            if t > MAX_TIMESTAMP_MS {
                self.deferrals = deferrals;
                return None;
            }
            let mut profile = self.profiles.remove(i);
            let available = profile.is_available(t, rng);
            if available {
                profile.ensure_session(t, rng);
                self.profiles.insert(i, profile);
                self.pending = Some((t, i));
                self.deferrals = deferrals;
                return Some((t, i));
            }
            let at = profile.next_available_at(t);
            self.profiles.insert(i, profile);
            self.queue.push(at, i);
            if deferrals == max_deferrals {
                self.deferrals = deferrals + 1;
                return None;
            }
            deferrals = deferrals + 1;
        }
        proof {
            assert(false);
        }
        None
    }

    /// Finishes the pending slot: records `event_name` as the actor's last event,
    /// spends one event of its session, and queues the actor again `gap_ms` after
    /// the slot (no later than the end of its session), at its next free instant.
    /// Does nothing when no slot is pending.
    pub fn finish_slot(&mut self, event_name: String, gap_ms: i64, rng: &mut StdRng)
        requires
            old(self).wf(),
            1 <= gap_ms <= MAX_GAP_MS,
        ensures
            final(self).wf(),
            final(self).pending().is_none(),
            final(self).clock() == old(self).clock(),
            final(self).profiles().len() == old(self).profiles().len(),
            forall|i: int| 0 <= i < old(self).profiles().len() ==> (#[trigger] final(self).profiles()[i]).seed
                == old(self).profiles()[i].seed,
            old(self).pending().is_none() ==> *final(self) == *old(self),
            old(self).pending() matches Some(p) ==> {
                &&& final(self).profiles()[p.1 as int].session_remaining
                    == old(self).profiles()[p.1 as int].session_remaining - 1
                &&& forall|i: int| 0 <= i < old(self).profiles().len() && i != p.1 ==> #[trigger] final(self).profiles()[i]
                    == old(self).profiles()[i]
            },
    {
        let (t, i) = match self.pending {
            None => return,
            Some(p) => p,
        };
        self.pending = None;
        let mut profile = self.profiles.remove(i);
        profile.last_event = Some(event_name);
        profile.consume_session(rng);
        let mut next = t + gap_ms;
        if let Some(end) = profile.session_end_at {
            if next > end {
                next = end;
            }
        }
        let at = if next < t {
            profile.next_available_at(t)
        } else if next <= MAX_TIMESTAMP_MS {
            profile.next_available_at(next)
        } else {
            next
        };
        self.profiles.insert(i, profile);
        self.queue.push(at, i);
    }
}

} // verus!
