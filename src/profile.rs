//! Per-actor runtime state: sessions, cooldowns, sticky user agents and
//! addresses, and when an actor is next free to act.
use vstd::prelude::*;

use rand::rngs::StdRng;

use crate::actors::{next_active_window_start, window_start_of, within_active_window, ActorKind, ActorSeed};
use crate::clock::{valid_timestamp, within_horizon, MAX_TIMESTAMP_MS, MS_PER_DAY, MS_PER_MINUTE};
use crate::rng::{draw_range, draw_ratio};

verus! {

/// Mutable runtime state for an actor across event generation.
#[derive(Debug, Clone)]
pub struct ActorProfile {
    /// Stable actor attributes.
    pub seed: ActorSeed,
    /// Previous event name for sequence-aware selection.
    pub last_event: Option<String>,
    /// Remaining events in the current session.
    pub session_remaining: u8,
    /// Session end time (milliseconds since the epoch, UTC).
    pub session_end_at: Option<i64>,
    /// Earliest start of the next session (milliseconds since the epoch, UTC).
    pub next_session_at: Option<i64>,
    /// Sticky user agent for the current session.
    pub session_user_agent: Option<String>,
    /// Sticky source IP for the current session.
    pub session_source_ip: Option<String>,
}

/// Whether an optional stored instant lies within the computable horizon.
pub open spec fn horizon_opt(t: Option<i64>) -> bool {
    match t {
        Some(v) => within_horizon(v as int),
        None => true,
    }
}

/// Range of session lengths in minutes, `[lo, hi)`, by actor kind.
pub open spec fn session_minutes_range(kind: ActorKind) -> (int, int) {
    match kind {
        ActorKind::Human => (20, 120),
        ActorKind::Service => (10, 60),
    }
}

/// Range of cooldowns between sessions in minutes, `[lo, hi)`, by actor kind.
pub open spec fn cooldown_minutes_range(kind: ActorKind) -> (int, int) {
    match kind {
        ActorKind::Human => (30, 180),
        ActorKind::Service => (5, 30),
    }
}

/// Range of events per session, `[lo, hi)`, by actor kind.
pub open spec fn session_events_range(kind: ActorKind) -> (int, int) {
    match kind {
        ActorKind::Human => (3, 10),
        ActorKind::Service => (6, 18),
    }
}

/// Whether `x` lies in the half-open range `r`.
pub open spec fn in_range(x: int, r: (int, int)) -> bool {
    r.0 <= x < r.1
}

/// Whether `s` is one of `values`, or the placeholder `fallback` when there are none.
pub open spec fn picked_from(s: Seq<char>, values: Seq<String>, fallback: Seq<char>) -> bool {
    if values.len() == 0 {
        s == fallback
    } else {
        exists|i: int| 0 <= i < values.len() && s == #[trigger] values[i]@
    }
}

/// The placeholder chosen when an actor has no value to pick from.
pub open spec fn unknown_value() -> Seq<char> {
    seq!['u', 'n', 'k', 'n', 'o', 'w', 'n']
}

/// The instant `next_available_at` gives: the later of `now` and the end of the
/// cooldown if the actor's window is open then, else the next opening after it.
pub open spec fn available_from(p: ActorProfile, now: int) -> int {
    let c = match p.next_session_at {
        Some(next) if next > now => next as int,
        _ => now,
    };
    if p.seed.in_active_window(c) {
        c
    } else {
        window_start_of(p.seed, c)
    }
}

impl ActorProfile {
    /// The session invariant: an active session has an end time, and every stored
    /// instant stays within the computable horizon.
    pub open spec fn wf(&self) -> bool {
        &&& self.seed.wf()
        &&& self.session_remaining > 0 ==> self.session_end_at.is_some()
        &&& horizon_opt(self.session_end_at)
        &&& horizon_opt(self.next_session_at)
    }

    /// Whether the actor is free to act at `now`: inside its window, and not
    /// cooling down.
    pub open spec fn free_at(&self, now: int) -> bool {
        &&& self.seed.in_active_window(now)
        &&& match self.next_session_at {
            Some(next) => now >= next,
            None => true,
        }
    }

    /// Builds a fresh profile from a seed with no active session.
    pub fn from_seed(seed: ActorSeed) -> (r: Self)
        requires
            seed.wf(),
        ensures
            r.wf(),
            r.seed == seed,
            r.last_event.is_none(),
            r.session_remaining == 0,
            r.session_end_at.is_none(),
            r.next_session_at.is_none(),
            r.session_user_agent.is_none(),
            r.session_source_ip.is_none(),
    {
        ActorProfile {
            seed,
            last_event: None,
            session_remaining: 0,
            session_end_at: None,
            next_session_at: None,
            session_user_agent: None,
            session_source_ip: None,
        }
    }

    /// Returns whether the actor can emit events at `now`.
    ///
    /// A session whose end has come is closed first: its sticky values and the
    /// last event are cleared and a cooldown starts at `now`.
    pub fn is_available(&mut self, now: i64, rng: &mut StdRng) -> (r: bool)
        requires
            old(self).wf(),
            valid_timestamp(now as int),
        ensures
            final(self).wf(),
            final(self).seed == old(self).seed,
            r == final(self).free_at(now as int),
            match old(self).session_end_at {
                Some(end) if now >= end => {
                    &&& final(self).session_end_at.is_none()
                    &&& final(self).session_remaining == 0
                    &&& final(self).last_event.is_none()
                    &&& final(self).session_user_agent.is_none()
                    &&& final(self).session_source_ip.is_none()
                    &&& final(self).next_session_at matches Some(next)
                        && in_range(
                        (next - now) / (MS_PER_MINUTE as int),
                        cooldown_minutes_range(old(self).seed.kind),
                    ) && (next - now) % (MS_PER_MINUTE as int) == 0
                },
                _ => *final(self) == *old(self),
            },
    {
        if let Some(end) = self.session_end_at {
            if now >= end {
                self.session_end_at = None;
                self.last_event = None;
                self.session_remaining = 0;
                self.session_user_agent = None;
                self.session_source_ip = None;
                let cooldown = cooldown_minutes(self.seed.kind, rng);
                self.next_session_at = Some(now + cooldown * MS_PER_MINUTE);
            }
        }
        if !within_active_window(&self.seed, now) {
            return false;
        }
        if let Some(next) = self.next_session_at {
            if now < next {
                return false;
            }
        }
        true
    }

    /// Starts a session if none is open, choosing the session-level user agent and
    /// source address, and refills the session's event budget when it is spent.
    pub fn ensure_session(&mut self, now: i64, rng: &mut StdRng)
        requires
            old(self).wf(),
            valid_timestamp(now as int),
        ensures
            final(self).wf(),
            final(self).seed == old(self).seed,
            final(self).session_remaining > 0,
            final(self).session_end_at.is_some(),
            match old(self).next_session_at {
                Some(next) if now >= next => final(self).next_session_at.is_none(),
                _ => final(self).next_session_at == old(self).next_session_at,
            },
            old(self).session_end_at.is_none() ==> {
                &&& final(self).last_event.is_none()
                &&& final(self).session_end_at matches Some(end) && in_range(
                    (end - now) / (MS_PER_MINUTE as int),
                    session_minutes_range(old(self).seed.kind),
                ) && (end - now) % (MS_PER_MINUTE as int) == 0
                &&& final(self).session_user_agent matches Some(ua) && picked_from(
                    ua@,
                    old(self).seed.user_agents@,
                    unknown_value(),
                )
                &&& final(self).session_source_ip matches Some(ip) && picked_from(
                    ip@,
                    old(self).seed.source_ips@,
                    unknown_value(),
                )
            },
            old(self).session_end_at.is_some() ==> {
                &&& final(self).last_event == old(self).last_event
                &&& final(self).session_end_at == old(self).session_end_at
                &&& final(self).session_user_agent == old(self).session_user_agent
                &&& final(self).session_source_ip == old(self).session_source_ip
            },
            old(self).session_remaining > 0 ==> final(self).session_remaining
                == old(self).session_remaining,
            old(self).session_remaining == 0 ==> in_range(
                final(self).session_remaining as int,
                session_events_range(old(self).seed.kind),
            ),
    {
        if let Some(next) = self.next_session_at {
            if now >= next {
                self.next_session_at = None;
            }
        }
        if self.session_end_at.is_none() {
            self.last_event = None;
            let minutes = session_minutes(self.seed.kind, rng);
            self.session_end_at = Some(now + minutes * MS_PER_MINUTE);
            let ua = self.pick_user_agent(rng);
            self.session_user_agent = Some(ua);
            let ip = self.pick_source_ip(rng);
            self.session_source_ip = Some(ip);
        }
        if self.session_remaining == 0 {
            self.session_remaining = session_event_count(self.seed.kind, rng);
        }
    }

    /// Consumes one event of the current session; when the session's budget runs
    /// out, the remembered last event is forgotten one time in five.
    pub fn consume_session(&mut self, rng: &mut StdRng)
        requires
            old(self).wf(),
        ensures
            final(self).wf(),
            final(self).seed == old(self).seed,
            final(self).session_end_at == old(self).session_end_at,
            final(self).next_session_at == old(self).next_session_at,
            final(self).session_user_agent == old(self).session_user_agent,
            final(self).session_source_ip == old(self).session_source_ip,
            final(self).session_remaining == if old(self).session_remaining > 0 {
                old(self).session_remaining - 1
            } else {
                0
            },
            final(self).session_remaining > 0 ==> final(self).last_event
                == old(self).last_event,
            final(self).last_event.is_none() || final(self).last_event == old(self).last_event,
    {
        if self.session_remaining > 0 {
            self.session_remaining = self.session_remaining - 1;
        }
        if self.session_remaining == 0 && draw_ratio(rng, 1, 5) {
            self.last_event = None;
        }
    }

    /// Returns the session user agent, choosing one first if the session has none.
    pub fn current_user_agent(&mut self, rng: &mut StdRng) -> (r: String)
        requires
            old(self).wf(),
        ensures
            final(self).wf(),
            final(self).session_user_agent matches Some(ua) && r@ == ua@,
            old(self).session_user_agent matches Some(ua) ==> r@ == ua@ && *final(self)
                == *old(self),
            old(self).session_user_agent.is_none() ==> picked_from(
                r@,
                old(self).seed.user_agents@,
                unknown_value(),
            ),
            final(self).seed == old(self).seed,
            final(self).session_source_ip == old(self).session_source_ip,
    {
        if self.session_user_agent.is_none() {
            let ua = self.pick_user_agent(rng);
            self.session_user_agent = Some(ua);
        }
        match &self.session_user_agent {
            Some(ua) => ua.clone(),
            None => placeholder("unknown"),
        }
    }

    /// Returns the session source address, choosing one first if the session has none.
    pub fn current_source_ip(&mut self, rng: &mut StdRng) -> (r: String)
        requires
            old(self).wf(),
        ensures
            final(self).wf(),
            final(self).session_source_ip matches Some(ip) && r@ == ip@,
            old(self).session_source_ip matches Some(ip) ==> r@ == ip@ && *final(self)
                == *old(self),
            old(self).session_source_ip.is_none() ==> picked_from(
                r@,
                old(self).seed.source_ips@,
                unknown_value(),
            ),
            final(self).seed == old(self).seed,
            final(self).session_user_agent == old(self).session_user_agent,
    {
        if self.session_source_ip.is_none() {
            let ip = self.pick_source_ip(rng);
            self.session_source_ip = Some(ip);
        }
        match &self.session_source_ip {
            Some(ip) => ip.clone(),
            None => placeholder("0.0.0.0"),
        }
    }

    /// The earliest instant, no earlier than `now` nor than the end of the cooldown,
    /// whose local time is inside the actor's window: that instant itself if it is
    /// already inside, else the next opening of the window.
    pub fn next_available_at(&self, now: i64) -> (r: i64)
        requires
            self.wf(),
            valid_timestamp(now as int),
        ensures
            r == available_from(*self, now as int),
            r >= now,
            self.next_session_at matches Some(next) ==> r >= next,
            self.seed.in_active_window(r as int),
            self.free_at(r as int),
            r <= MAX_TIMESTAMP_MS + 5 * MS_PER_DAY,
            ({
                let c = match self.next_session_at {
                    Some(next) if next > now => next as int,
                    _ => now as int,
                };
                self.seed.in_active_window(c) ==> r == c
            }),
    {
        let mut candidate = now;
        if let Some(next) = self.next_session_at {
            if next > candidate {
                candidate = next;
            }
        }
        if within_active_window(&self.seed, candidate) {
            return candidate;
        }
        next_active_window_start(&self.seed, candidate)
    }

    fn pick_user_agent(&self, rng: &mut StdRng) -> (r: String)
        ensures
            picked_from(r@, self.seed.user_agents@, unknown_value()),
    {
        let (num, den) = match self.seed.kind {
            ActorKind::Human => (65u32, 100u32),
            ActorKind::Service => (90u32, 100u32),
        };
        pick_sticky(&self.seed.user_agents, num, den, rng)
    }

    fn pick_source_ip(&self, rng: &mut StdRng) -> (r: String)
        ensures
            picked_from(r@, self.seed.source_ips@, unknown_value()),
    {
        let (num, den) = match self.seed.kind {
            ActorKind::Human => (70u32, 100u32),
            ActorKind::Service => (95u32, 100u32),
        };
        pick_sticky(&self.seed.source_ips, num, den, rng)
    }
}

/// An ordered catalogue of actor seeds, shared by the sources of a run.
#[derive(Debug, Clone)]
pub struct ActorPopulation {
    pub actors: Vec<ActorSeed>,
}

impl ActorPopulation {
    /// A fresh runtime profile for every actor, in order.
    pub fn profiles(&self) -> (r: Vec<ActorProfile>)
        ensures
            r@.len() == self.actors@.len(),
            forall|i: int|
                0 <= i < r@.len() ==> (#[trigger] r@[i]).session_remaining == 0
                    && r@[i].session_end_at.is_none() && r@[i].next_session_at.is_none()
                    && r@[i].last_event.is_none(),
    {
        let mut out: Vec<ActorProfile> = Vec::new();
        let mut i: usize = 0;
        while i < self.actors.len()
            invariant
                i <= self.actors@.len(),
                out@.len() == i,
                forall|k: int|
                    0 <= k < i ==> (#[trigger] out@[k]).session_remaining == 0
                        && out@[k].session_end_at.is_none() && out@[k].next_session_at.is_none()
                        && out@[k].last_event.is_none(),
            decreases self.actors@.len() - i,
        {
            let seed = self.actors[i].clone();
            out.push(ActorProfile {
                seed,
                last_event: None,
                session_remaining: 0,
                session_end_at: None,
                next_session_at: None,
                session_user_agent: None,
                session_source_ip: None,
            });
            i = i + 1;
        }
        out
    }
}

/// Chooses a session-sticky value: the primary (first) value with chance
/// `num/den`, otherwise one of the others uniformly; the only value when there is
/// one, and the placeholder when there are none.
pub fn pick_sticky(values: &Vec<String>, num: u32, den: u32, rng: &mut StdRng) -> (r: String)
    requires
        0 < den,
        num <= den,
    ensures
        picked_from(r@, values@, unknown_value()),
        values@.len() == 1 ==> r@ == values@[0]@,
        num == den && values@.len() > 0 ==> r@ == values@[0]@,
{
    if values.len() == 0 {
        let r = placeholder("unknown");
        proof {
            reveal_strlit("unknown");
        }
        assert(r@ =~= unknown_value());
        return r;
    }
    if values.len() == 1 {
        let r = values[0].clone();
        assert(r@ == values@[0]@);
        return r;
    }
    if draw_ratio(rng, num, den) {
        let r = values[0].clone();
        assert(r@ == values@[0]@);
        return r;
    }
    let idx = draw_range(rng, 1, values.len() as u64) as usize;
    let r = values[idx].clone();
    assert(r@ == values@[idx as int]@);
    r
}

/// An owned copy of a placeholder literal.
fn placeholder(s: &str) -> (r: String)
    ensures
        r@ == s@,
{
    <String as vstd::string::StringExecFns>::from_str(s)
}

/// Number of events in a new session.
pub fn session_event_count(kind: ActorKind, rng: &mut StdRng) -> (r: u8)
    ensures
        in_range(r as int, session_events_range(kind)),
{
    match kind {
        ActorKind::Human => draw_range(rng, 3, 10) as u8,
        ActorKind::Service => draw_range(rng, 6, 18) as u8,
    }
}

/// Length of a new session, in minutes.
pub fn session_minutes(kind: ActorKind, rng: &mut StdRng) -> (r: i64)
    ensures
        in_range(r as int, session_minutes_range(kind)),
{
    match kind {
        ActorKind::Human => draw_range(rng, 20, 120) as i64,
        ActorKind::Service => draw_range(rng, 10, 60) as i64,
    }
}

/// Length of the pause after a session, in minutes.
pub fn cooldown_minutes(kind: ActorKind, rng: &mut StdRng) -> (r: i64)
    ensures
        in_range(r as int, cooldown_minutes_range(kind)),
{
    match kind {
        ActorKind::Human => draw_range(rng, 30, 180) as i64,
        ActorKind::Service => draw_range(rng, 5, 30) as i64,
    }
}

} // verus!
