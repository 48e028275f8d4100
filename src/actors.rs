//! Actor seeds, their activity windows, and the checks and draws that shape a
//! population (role and kind names, account ids, hot actors).
use vstd::prelude::*;

use rand::rngs::StdRng;

use crate::codec::{parse_service_profile, service_profile_named};
use crate::rng::draw_range;
use crate::config::ServicePatternConfig;
use crate::text::{normalize, normalized, owned, str_eq, trim_str, trimmed_of};
use crate::clock::{
    day_of, hour_in_window, hour_of, is_weekend_date, is_weekend_day, lemma_no_three_weekend_days,
    local_day_and_ms, local_time, within_horizon, MS_PER_DAY, MS_PER_HOUR,
};

verus! {

/// High-level actor type used for session behaviour and weighting.
#[derive(Debug, Clone, Copy, PartialEq, Eq, Structural)]
pub enum ActorKind {
    Human,
    Service,
}

/// Role label applied to human actors.
#[derive(Debug, Clone, Copy, PartialEq, Eq, Structural)]
pub enum ActorRole {
    Admin,
    Developer,
    ReadOnly,
    Auditor,
}

/// Behaviour profile of a service actor.
#[derive(Debug, Clone, Copy, PartialEq, Eq, Structural)]
pub enum ServiceProfile {
    Generic,
    Ec2Reaper,
    DataLakeBot,
    LogsShipper,
    MetricsCollector,
}

/// Time-of-day shape of a service actor's rate.
#[derive(Debug, Clone, Copy, PartialEq, Eq, Structural)]
pub enum ServicePattern {
    Constant,
    Diurnal,
    Bursty,
}

/// An invalid actor definition, with a message naming the actor and the field.
#[derive(Debug)]
pub struct ActorConfigError(pub String);

/// Stable actor attributes used to create runtime profiles.
///
/// Rates are fixed-point: `rate_per_hour_milli` counts thousandths of an event
/// per hour, `error_rate_ppm` counts failures per million events, and each
/// `event_bias` weight counts thousandths.
#[derive(Debug, Clone)]
pub struct ActorSeed {
    pub kind: ActorKind,
    pub role: Option<ActorRole>,
    pub id: Option<String>,
    pub identity_type: String,
    pub principal_id: String,
    pub arn: String,
    pub account_id: String,
    pub access_key_id: String,
    pub rate_per_hour_milli: u64,
    pub error_rate_ppm: u32,
    pub tags: Vec<String>,
    pub event_bias: Vec<(String, u64)>,
    pub service_profile: Option<ServiceProfile>,
    pub service_pattern: Option<ServicePattern>,
    pub user_name: Option<String>,
    pub user_agents: Vec<String>,
    pub source_ips: Vec<String>,
    pub active_start_hour: u8,
    pub active_hours: u8,
    pub timezone_offset: i8,
    pub timezone_fixed: bool,
    pub weekend_active: bool,
}

/// Parts per million that stand for certainty.
pub const PPM: u32 = 1_000_000;

/// The largest supported rate: a billion events per hour, in thousandths.
pub const MAX_RATE_MILLI: u64 = 1_000_000_000_000;

impl ActorSeed {
    /// The activity window is well formed: it starts at an hour of the day, lasts
    /// from one to twenty-four hours, and uses an offset between UTC-12 and UTC+14.
    pub open spec fn window_wf(&self) -> bool {
        &&& self.active_start_hour <= 23
        &&& 1 <= self.active_hours <= 24
        &&& -12 <= self.timezone_offset <= 14
    }

    /// Every invariant of a seed: a well-formed window, an error rate of at most one,
    /// a positive rate, and at least one user agent and one source address.
    pub open spec fn wf(&self) -> bool {
        &&& self.window_wf()
        &&& self.error_rate_ppm <= PPM
        &&& 0 < self.rate_per_hour_milli <= MAX_RATE_MILLI
        &&& self.user_agents@.len() > 0
        &&& self.source_ips@.len() > 0
    }

    /// Whether the actor's local clock at `now` is inside its activity window.
    pub open spec fn in_active_window(&self, now: int) -> bool {
        let local = local_time(now, self.timezone_offset as int);
        &&& (self.weekend_active || !is_weekend_day(day_of(local)))
        &&& hour_in_window(
            self.active_start_hour as int,
            self.active_hours as int,
            hour_of(local),
        )
    }
}

/// Whether the actor may act on local day `day` (a weekday, or any day for an
/// actor that works weekends).
pub open spec fn day_allowed(seed: ActorSeed, day: int) -> bool {
    seed.weekend_active || !is_weekend_day(day)
}

/// The opening of the window `k` local days after the local day of `now`, in UTC.
pub open spec fn opening_after(seed: ActorSeed, now: int, k: int) -> int {
    let local = local_time(now, seed.timezone_offset as int);
    (day_of(local) + k) * MS_PER_DAY + seed.active_start_hour * MS_PER_HOUR - seed.timezone_offset
        * MS_PER_HOUR
}

/// The next opening of the window after `now`: today's start hour if it is still
/// ahead and today is allowed, else the start hour of the first allowed day after
/// today (one of the next three days).
pub open spec fn window_start_of(seed: ActorSeed, now: int) -> int {
    let local = local_time(now, seed.timezone_offset as int);
    let d = day_of(local);
    if day_allowed(seed, d) && local % (MS_PER_DAY as int) < seed.active_start_hour * MS_PER_HOUR {
        opening_after(seed, now, 0)
    } else if day_allowed(seed, d + 1) {
        opening_after(seed, now, 1)
    } else if day_allowed(seed, d + 2) {
        opening_after(seed, now, 2)
    } else {
        opening_after(seed, now, 3)
    }
}

/// Whether the actor may act at `now` as far as its activity window goes: the
/// local hour is inside the window, and the local date is a weekday unless the
/// actor works weekends.
pub fn within_active_window(seed: &ActorSeed, now: i64) -> (r: bool)
    requires
        seed.window_wf(),
        within_horizon(now as int),
    ensures
        r == seed.in_active_window(now as int),
{
    let (day, ms) = local_day_and_ms(now, seed.timezone_offset);
    if !seed.weekend_active && is_weekend_date(day) {
        return false;
    }
    if seed.active_hours >= 24 {
        return true;
    }
    let local_hour: u8 = (ms / MS_PER_HOUR) as u8;
    let start: u8 = seed.active_start_hour;
    let end: u8 = (start + seed.active_hours) % 24;
    if start < end {
        local_hour >= start && local_hour < end
    } else {
        local_hour >= start || local_hour < end
    }
}

/// The next instant after `now` at which the actor's window opens: the start hour
/// of the first local day (today if the start is still ahead) that is not a
/// skipped weekend day, converted back to UTC.
pub fn next_active_window_start(seed: &ActorSeed, now: i64) -> (r: i64)
    requires
        seed.window_wf(),
        within_horizon(now as int),
    ensures
        now < r <= now + 4 * MS_PER_DAY,
        r == window_start_of(*seed, now as int),
        seed.in_active_window(r as int),
        hour_of(local_time(r as int, seed.timezone_offset as int)) == seed.active_start_hour,
{
    let (today, ms_of_day) = local_day_and_ms(now, seed.timezone_offset);
    let offset_ms: i64 = (seed.timezone_offset as i64) * MS_PER_HOUR;
    let start_ms: i64 = (seed.active_start_hour as i64) * MS_PER_HOUR;
    let skip_weekends = !seed.weekend_active;
    let ghost local = local_time(now as int, seed.timezone_offset as int);
    proof {
        vstd::arithmetic::div_mod::lemma_fundamental_div_mod(local, MS_PER_DAY as int);
    }
    let mut k: i64 = 0;
    while k < 3
        invariant
            0 <= k <= 3,
            -1 <= today <= 3_000_000,
            local == today * MS_PER_DAY + ms_of_day,
            0 <= ms_of_day < MS_PER_DAY,
            skip_weekends == !seed.weekend_active,
            start_ms == seed.active_start_hour * MS_PER_HOUR,
            offset_ms == seed.timezone_offset * MS_PER_HOUR,
            local == now + offset_ms,
            seed.window_wf(),
            k > 1 ==> skip_weekends,
            forall|j: int| 1 <= j < k ==> #[trigger] is_weekend_day(today + j),
            k >= 1 ==> !(day_allowed(*seed, today as int) && ms_of_day < start_ms),
        decreases 3 - k,
    {
        let date = today + k;
        let skipped = skip_weekends && is_weekend_date(date);
        if !skipped && (k > 0 || ms_of_day < start_ms) {
            let r = date * MS_PER_DAY + start_ms - offset_ms;
            proof {
                lemma_window_start(seed, date as int, r as int);
                assert(day_of(local) == today);
                assert(r == opening_after(*seed, now as int, k as int));
                if k == 1 {
                    assert(!(day_allowed(*seed, today as int) && ms_of_day < start_ms));
                } else if k == 2 {
                    assert(is_weekend_day(today + 1));
                } else if k == 3 {
                    assert(is_weekend_day(today + 1) && is_weekend_day(today + 2));
                }
            }
            return r;
        }
        if !skipped {
            assert(k == 0);
        }
        k = k + 1;
    }
    proof {
        lemma_no_three_weekend_days(today + 1);
        assert(is_weekend_day(today + 1) && is_weekend_day(today + 2));
        assert(day_of(local) == today);
    }
    let date = today + 3;
    let r = date * MS_PER_DAY + start_ms - offset_ms;
    proof { lemma_window_start(seed, date as int, r as int); }
    r
}

/// The opening of the window on local day `date` falls in the window, at its start hour.
proof fn lemma_window_start(seed: &ActorSeed, date: int, r: int)
    requires
        seed.window_wf(),
        seed.weekend_active || !is_weekend_day(date),
        r == date * MS_PER_DAY + seed.active_start_hour * MS_PER_HOUR - seed.timezone_offset
            * MS_PER_HOUR,
    ensures
        day_of(local_time(r, seed.timezone_offset as int)) == date,
        hour_of(local_time(r, seed.timezone_offset as int)) == seed.active_start_hour,
        seed.in_active_window(r),
{
    let local = local_time(r, seed.timezone_offset as int);
    let within = seed.active_start_hour * MS_PER_HOUR;
    assert(local == date * MS_PER_DAY + within);
    vstd::arithmetic::div_mod::lemma_fundamental_div_mod_converse(
        local,
        MS_PER_DAY as int,
        date,
        within,
    );
    vstd::arithmetic::div_mod::lemma_fundamental_div_mod_converse(
        within,
        MS_PER_HOUR as int,
        seed.active_start_hour as int,
        0,
    );
}

/// A synthesised human's UTC offset: -8 with chance 5/10, 0 with chance 3/10,
/// +8 with chance 2/10.
pub fn pick_timezone_offset(rng: &mut StdRng) -> (r: i8)
    ensures
        r == -8 || r == 0 || r == 8,
{
    let roll = draw_range(rng, 0, 10);
    if roll < 5 {
        -8
    } else if roll < 8 {
        0
    } else {
        8
    }
}

/// How a population of `configured_total` actors with `explicit_count` explicit
/// ones splits: the total is the larger of the two and at least one, and services
/// are that total times the service ratio (parts per million, at most one),
/// rounded half up. Returns (total, humans, services).
pub open spec fn population_split(configured_total: int, explicit_count: int, service_ratio_ppm: int) -> (int, int, int) {
    let total = if configured_total >= explicit_count {
        if configured_total >= 1 { configured_total } else { 1 }
    } else {
        if explicit_count >= 1 { explicit_count } else { 1 }
    };
    let ratio = if service_ratio_ppm > PPM { PPM as int } else { service_ratio_ppm };
    let services = (total * ratio + 500_000) / (PPM as int);
    (total, total - services, services)
}

/// Splits a population into humans and services (see `population_split`).
pub fn split_population(configured_total: usize, explicit_count: usize, service_ratio_ppm: u32) -> (r: (usize, usize, usize))
    requires
        configured_total <= 1_000_000_000,
        explicit_count <= 1_000_000_000,
    ensures
        (r.0 as int, r.1 as int, r.2 as int) == population_split(
            configured_total as int,
            explicit_count as int,
            service_ratio_ppm as int,
        ),
        r.1 + r.2 == r.0,
{
    let mut total = if configured_total >= explicit_count { configured_total } else { explicit_count };
    if total < 1 {
        total = 1;
    }
    let ratio: u64 = if service_ratio_ppm > PPM { PPM as u64 } else { service_ratio_ppm as u64 };
    assert((total as u64) * ratio <= 1_000_000_000 * 1_000_000) by (nonlinear_arith)
        requires total <= 1_000_000_000, ratio <= 1_000_000;
    let services = ((total as u64) * ratio + 500_000) / (PPM as u64);
    assert(services <= total) by (nonlinear_arith)
        requires services == ((total as u64) * ratio + 500_000) / 1_000_000, ratio <= 1_000_000;
    (total, total - services as usize, services as usize)
}

/// The number of hot actors among `len`: `len` times the hot ratio (parts per
/// million, at most one), rounded half up.
pub open spec fn hot_count(len: int, ratio_ppm: int) -> int {
    let ratio = if ratio_ppm > PPM { PPM as int } else { ratio_ppm };
    (len * ratio + 500_000) / (PPM as int)
}

/// A hot actor's rate: multiplied by the hot multiplier (thousandths, at least
/// one), and capped at the largest supported rate.
pub open spec fn boosted_rate(rate: int, multiplier_milli: int) -> int {
    let m = if multiplier_milli < 1000 { 1000 } else { multiplier_milli };
    let r = rate * m / 1000;
    if r > MAX_RATE_MILLI { MAX_RATE_MILLI as int } else { r }
}

/// `seed` with `rate_per_hour_milli` replaced by `rate`.
pub open spec fn with_rate(seed: ActorSeed, rate: u64) -> ActorSeed {
    ActorSeed { rate_per_hour_milli: rate, ..seed }
}

/// Boosts a random set of actors: `hot_count` distinct actors, drawn uniformly by a
/// partial shuffle, have their rate multiplied (see `boosted_rate`); the others
/// are left as they are.
pub fn apply_hot_actor_rates(
    rng: &mut StdRng,
    actors: &mut Vec<ActorSeed>,
    hot_ratio_ppm: u32,
    hot_multiplier_milli: u64,
)
    requires
        old(actors)@.len() <= 1_000_000_000,
        hot_multiplier_milli <= 1_000_000,
        forall|i: int| 0 <= i < old(actors)@.len() ==> (#[trigger] old(actors)@[i]).wf(),
    ensures
        final(actors)@.len() == old(actors)@.len(),
        forall|i: int| 0 <= i < final(actors)@.len() ==> (#[trigger] final(actors)@[i]).wf(),
        exists|hot: Set<int>|
            hot.len() == hot_count(old(actors)@.len() as int, hot_ratio_ppm as int) && hot.finite()
                && (forall|i: int| #[trigger] hot.contains(i) ==> 0 <= i < old(actors)@.len())
                && forall|i: int|
                0 <= i < old(actors)@.len() ==> #[trigger] final(actors)@[i] == if hot.contains(i) {
                    with_rate(
                        old(actors)@[i],
                        boosted_rate(old(actors)@[i].rate_per_hour_milli as int, hot_multiplier_milli as int) as u64,
                    )
                } else {
                    old(actors)@[i]
                },
{
    let n = actors.len();
    let ratio: u64 = if hot_ratio_ppm > PPM { PPM as u64 } else { hot_ratio_ppm as u64 };
    assert((n as u64) * ratio <= 1_000_000_000 * 1_000_000) by (nonlinear_arith)
        requires n <= 1_000_000_000, ratio <= 1_000_000;
    let count = (((n as u64) * ratio + 500_000) / (PPM as u64)) as usize;
    assert(count <= n) by (nonlinear_arith)
        requires count == ((n as u64) * ratio + 500_000) / 1_000_000, ratio <= 1_000_000;
    let multiplier: u64 = if hot_multiplier_milli < 1000 { 1000 } else { hot_multiplier_milli };
    let mut indices: Vec<usize> = Vec::new();
    let mut k: usize = 0;
    while k < n
        invariant
            k <= n,
            indices@.len() == k,
            forall|j: int| 0 <= j < k ==> #[trigger] indices@[j] == j,
        decreases n - k,
    {
        indices.push(k);
        k = k + 1;
    }
    let ghost initial = actors@;
    let mut i: usize = 0;
    while i < count
        invariant
            count <= n,
            n == actors@.len(),
            n == initial.len(),
            n == indices@.len(),
            i <= count,
            multiplier >= 1000,
            multiplier <= 1_000_000,
            forall|j: int| 0 <= j < n ==> #[trigger] indices@[j] < n,
            forall|a: int, b: int| 0 <= a < b < n ==> #[trigger] indices@[a] != #[trigger] indices@[b],
            forall|j: int| 0 <= j < n ==> (#[trigger] initial[j]).wf(),
            forall|a: int|
                0 <= a < n ==> #[trigger] actors@[a] == if (exists|j: int| 0 <= j < i && indices@[j] == a) {
                    with_rate(initial[a], boosted_rate(initial[a].rate_per_hour_milli as int, multiplier as int) as u64)
                } else {
                    initial[a]
                },
        decreases count - i,
    {
        let swap_idx = draw_range(rng, i as u64, n as u64) as usize;
        let ghost before = indices@;
        let a = indices[i];
        let b = indices[swap_idx];
        indices.set(i, b);
        indices.set(swap_idx, a);
        proof {
            assert forall|x: int, y: int| 0 <= x < y < n implies #[trigger] indices@[x] != #[trigger] indices@[y] by {
                let px = if x == i { swap_idx as int } else if x == swap_idx { i as int } else { x };
                let py = if y == i { swap_idx as int } else if y == swap_idx { i as int } else { y };
                assert(indices@[x] == before[px]);
                assert(indices@[y] == before[py]);
                if px < py {
                    assert(before[px] != before[py]);
                } else {
                    assert(before[py] != before[px]);
                }
            }
            assert forall|j: int| 0 <= j < i implies indices@[j] == before[j] by {}
        }
        let idx = indices[i];
        let old_rate = actors[idx].rate_per_hour_milli;
        assert(old_rate * multiplier <= 1_000_000_000_000 * 1_000_000) by (nonlinear_arith)
            requires old_rate <= 1_000_000_000_000, multiplier <= 1_000_000;
        let scaled = old_rate * multiplier / 1000;
        let new_rate = if scaled > MAX_RATE_MILLI { MAX_RATE_MILLI } else { scaled };
        proof {
            assert(!(exists|j: int| 0 <= j < i && indices@[j] == idx)) by {
                if exists|j: int| 0 <= j < i && indices@[j] == idx {
                    let j = choose|j: int| 0 <= j < i && indices@[j] == idx;
                    assert(indices@[j] != indices@[i as int]);
                }
            }
            assert(actors@[idx as int] == initial[idx as int]);
        }
        let mut seed = actors.remove(idx);
        seed.rate_per_hour_milli = new_rate;
        actors.insert(idx, seed);
        proof {
            assert forall|a: int| 0 <= a < n implies #[trigger] actors@[a] == if (exists|j: int| 0 <= j < i + 1 && indices@[j] == a) {
                with_rate(initial[a], boosted_rate(initial[a].rate_per_hour_milli as int, multiplier as int) as u64)
            } else {
                initial[a]
            } by {
                if a == idx {
                    assert(indices@[i as int] == a);
                } else {
                    if exists|j: int| 0 <= j < i + 1 && indices@[j] == a {
                        let j = choose|j: int| 0 <= j < i + 1 && indices@[j] == a;
                        assert(j < i);
                    }
                }
            }
        }
        i = i + 1;
    }
    proof {
        let hot = Set::new(|a: int| 0 <= a < n && exists|j: int| 0 <= j < count && indices@[j] == a);
        lemma_hot_set_size(indices@, n as int, count as int);
        assert forall|a: int| 0 <= a < n implies (#[trigger] actors@[a]).wf() by {
            assert(initial[a].wf());
            let r = initial[a].rate_per_hour_milli as int;
            let m = multiplier as int;
            assert(r * m / 1000 >= r) by (nonlinear_arith)
                requires m >= 1000, r >= 0;
        }
        assert(hot.len() == hot_count(initial.len() as int, hot_ratio_ppm as int));
        assert(multiplier as int == if hot_multiplier_milli < 1000 { 1000 } else { hot_multiplier_milli as int });
    }
}

/// The first `count` entries of an injective index list form a set of `count`
/// indices.
proof fn lemma_hot_set_size(indices: Seq<usize>, n: int, count: int)
    requires
        0 <= count <= n,
        indices.len() == n,
        forall|j: int| 0 <= j < n ==> #[trigger] indices[j] < n,
        forall|a: int, b: int| 0 <= a < b < n ==> #[trigger] indices[a] != #[trigger] indices[b],
    ensures
        Set::new(|a: int| 0 <= a < n && exists|j: int| 0 <= j < count && indices[j] == a).finite(),
        Set::new(|a: int| 0 <= a < n && exists|j: int| 0 <= j < count && indices[j] == a).len() == count,
    decreases count,
{
    let s = Set::new(|a: int| 0 <= a < n && exists|j: int| 0 <= j < count && indices[j] == a);
    if count == 0 {
        assert(s =~= Set::empty());
    } else {
        lemma_hot_set_size(indices, n, count - 1);
        let t = Set::new(|a: int| 0 <= a < n && exists|j: int| 0 <= j < count - 1 && indices[j] == a);
        let last = indices[count - 1] as int;
        assert(s =~= t.insert(last)) by {
            assert forall|a: int| s.contains(a) implies t.insert(last).contains(a) by {
                let j = choose|j: int| 0 <= j < count && indices[j] == a;
                if j < count - 1 {
                    assert(t.contains(a));
                }
            }
        }
        assert(!t.contains(last)) by {
            if t.contains(last) {
                let j = choose|j: int| 0 <= j < count - 1 && indices[j] == last;
                assert(indices[j] != indices[count - 1]);
            }
        }
    }
}

/// The prefix of every explicit-actor error: `population.actor <id> `.
pub open spec fn actor_error_prefix(id: Seq<char>) -> Seq<char> {
    "population.actor "@ + id + " "@
}

/// An error about the explicit actor `id`: `population.actor <id> <detail>`.
fn actor_error(id: &str, detail: &str) -> (r: ActorConfigError)
    ensures
        r.0@ == actor_error_prefix(id@) + detail@,
{
    let mut m = owned("population.actor ");
    m.append(id);
    m.append(" ");
    m.append(detail);
    ActorConfigError(m)
}

/// The kind named by a configured value, read trimmed and in any case.
pub open spec fn actor_kind_named(s: Seq<char>) -> Option<ActorKind> {
    let n = normalized(s);
    if n == "human"@ {
        Some(ActorKind::Human)
    } else if n == "service"@ {
        Some(ActorKind::Service)
    } else {
        None
    }
}

/// The role named by a configured value, read trimmed and in any case.
pub open spec fn actor_role_named(s: Seq<char>) -> Option<ActorRole> {
    let n = normalized(s);
    if n == "admin"@ {
        Some(ActorRole::Admin)
    } else if n == "developer"@ {
        Some(ActorRole::Developer)
    } else if n == "readonly"@ {
        Some(ActorRole::ReadOnly)
    } else if n == "auditor"@ {
        Some(ActorRole::Auditor)
    } else {
        None
    }
}

/// Reads the configured kind of explicit actor `id`.
pub fn parse_actor_kind(value: &str, id: &str) -> (r: Result<ActorKind, ActorConfigError>)
    ensures
        actor_kind_named(value@) matches Some(k) ==> (r matches Ok(x) && x == k),
        actor_kind_named(value@) is None ==> (r matches Err(e) && e.0@ == actor_error_prefix(id@)
            + "has invalid kind: "@ + normalized(value@)),
{
    let n = normalize(value);
    if str_eq(n.as_str(), "human") {
        Ok(ActorKind::Human)
    } else if str_eq(n.as_str(), "service") {
        Ok(ActorKind::Service)
    } else {
        let mut detail = owned("has invalid kind: ");
        detail.append(n.as_str());
        Err(actor_error(id, detail.as_str()))
    }
}

/// Reads the configured role of explicit actor `id`.
pub fn parse_actor_role(value: &str, id: &str) -> (r: Result<ActorRole, ActorConfigError>)
    ensures
        actor_role_named(value@) matches Some(k) ==> (r matches Ok(x) && x == k),
        actor_role_named(value@) is None ==> (r matches Err(e) && e.0@ == actor_error_prefix(id@)
            + "has invalid role: "@ + normalized(value@)),
{
    let n = normalize(value);
    if str_eq(n.as_str(), "admin") {
        Ok(ActorRole::Admin)
    } else if str_eq(n.as_str(), "developer") {
        Ok(ActorRole::Developer)
    } else if str_eq(n.as_str(), "readonly") {
        Ok(ActorRole::ReadOnly)
    } else if str_eq(n.as_str(), "auditor") {
        Ok(ActorRole::Auditor)
    } else {
        let mut detail = owned("has invalid role: ");
        detail.append(n.as_str());
        Err(actor_error(id, detail.as_str()))
    }
}

/// Reads a service profile name (trimmed, any case, `-` read as `_`).
pub fn normalize_profile_name(name: &str) -> (r: Option<ServiceProfile>)
    ensures
        r == service_profile_named(name@),
{
    parse_service_profile(name)
}

/// Reads the configured service profile of explicit actor `id`.
pub fn parse_actor_service_profile(value: &str, id: &str) -> (r: Result<ServiceProfile, ActorConfigError>)
    ensures
        service_profile_named(value@) matches Some(p) ==> (r matches Ok(x) && x == p),
        service_profile_named(value@) is None ==> (r matches Err(e) && e.0@ == actor_error_prefix(
            id@,
        ) + "has invalid service_profile: "@ + value@),
{
    match normalize_profile_name(value) {
        Some(p) => Ok(p),
        None => {
            let mut detail = owned("has invalid service_profile: ");
            detail.append(value);
            Err(actor_error(id, detail.as_str()))
        },
    }
}

/// The runtime pattern of a configured pattern.
pub fn service_pattern_from_config(value: &ServicePatternConfig) -> (r: ServicePattern)
    ensures
        *value == ServicePatternConfig::Constant ==> r == ServicePattern::Constant,
        *value == ServicePatternConfig::Diurnal ==> r == ServicePattern::Diurnal,
        *value == ServicePatternConfig::Bursty ==> r == ServicePattern::Bursty,
{
    match value {
        ServicePatternConfig::Constant => ServicePattern::Constant,
        ServicePatternConfig::Diurnal => ServicePattern::Diurnal,
        ServicePatternConfig::Bursty => ServicePattern::Bursty,
    }
}

/// An account id: exactly twelve ASCII digits.
pub open spec fn is_account_id(s: Seq<char>) -> bool {
    s.len() == 12 && forall|i: int| 0 <= i < s.len() ==> '0' <= #[trigger] s[i] <= '9'
}

/// Checks the configured account id of explicit actor `id` and returns it trimmed.
pub fn validate_account_id(value: &str, id: &str) -> (r: Result<String, ActorConfigError>)
    ensures
        is_account_id(trimmed_of(value@)) ==> (r matches Ok(s) && s@ == trimmed_of(value@)),
        !is_account_id(trimmed_of(value@)) ==> (r matches Err(e) && e.0@ == actor_error_prefix(
            id@,
        ) + "account_id must be a 12-digit string"@),
{
    let trimmed = trim_str(value);
    let n = trimmed.unicode_len();
    let mut valid = n == 12;
    if valid {
        let mut i: usize = 0;
        while i < n
            invariant
                n == trimmed@.len(),
                i <= n,
                valid == (forall|j: int| 0 <= j < i ==> '0' <= #[trigger] trimmed@[j] <= '9'),
            decreases n - i,
        {
            let c = trimmed.get_char(i);
            if !('0' <= c && c <= '9') {
                valid = false;
            }
            i = i + 1;
        }
    }
    if !valid {
        return Err(actor_error(id, "account_id must be a 12-digit string"));
    }
    Ok(owned(trimmed))
}

/// Trims every value and drops the empty ones; an empty result is an error about
/// field `field` of explicit actor `id`.
pub fn normalize_string_list(list: &Vec<String>, id: &str, field: &str) -> (r: Result<
    Vec<String>,
    ActorConfigError,
>)
    ensures
        trimmed_nonempty(list@).len() > 0 ==> (r matches Ok(v) && v@.map_values(|x: String| x@)
            == trimmed_nonempty(list@)),
        trimmed_nonempty(list@).len() == 0 ==> (r matches Err(e) && e.0@ == actor_error_prefix(
            id@,
        ) + field@ + " must contain at least one value"@),
{
    let mut values: Vec<String> = Vec::new();
    let mut i: usize = 0;
    while i < list.len()
        invariant
            i <= list@.len(),
            values@.map_values(|x: String| x@) == trimmed_nonempty(list@.subrange(0, i as int)),
        decreases list@.len() - i,
    {
        let t = trim_str(list[i].as_str());
        assert(list@.subrange(0, i + 1).drop_last() == list@.subrange(0, i as int));
        if t.unicode_len() > 0 {
            values.push(owned(t));
            assert(values@.map_values(|x: String| x@) =~= trimmed_nonempty(list@.subrange(0, i as int)).push(t@));
        }
        i = i + 1;
    }
    assert(list@.subrange(0, list@.len() as int) == list@);
    if values.len() == 0 {
        let mut detail = owned(field);
        detail.append(" must contain at least one value");
        return Err(actor_error(id, detail.as_str()));
    }
    Ok(values)
}

/// The values of `list`, trimmed, without those that trim to nothing.
pub open spec fn trimmed_nonempty(list: Seq<String>) -> Seq<Seq<char>>
    decreases list.len(),
{
    if list.len() == 0 {
        Seq::empty()
    } else {
        let rest = trimmed_nonempty(list.drop_last());
        let t = trimmed_of(list.last()@);
        if t.len() > 0 {
            rest.push(t)
        } else {
            rest
        }
    }
}

} // verus!
