//! Offsets of named time zones, and the redistribution of actors over them.
use vstd::prelude::*;

use chrono::{Offset, TimeZone};
use rand::rngs::StdRng;

use crate::actors::{actor_error_prefix, ActorConfigError, ActorSeed};
use crate::select::{lemma_positive_first, lemma_sum_bounded, pick_weighted_index, weight_sum, MAX_WEIGHT};
use crate::text::{owned, trim_str, trimmed_of};

verus! {

/// The UTC offset in seconds that the IANA zone `name` has at the instant `ms`
/// (milliseconds since the epoch), or `None` when there is no such zone.
pub uninterp spec fn zone_offset_of(name: Seq<char>, ms: int) -> Option<i32>;

/// Relies on `chrono_tz::Tz::from_str` (the zone named exactly `name`) and on
/// `TimeZone::offset_from_utc_datetime` with `Offset::fix` and
/// `FixedOffset::local_minus_utc`: the offset depends on the name and the instant
/// alone, and a fixed offset is less than a day either way.
#[verifier::external_body]
fn zone_offset_seconds(name: &str, ms: i64) -> (r: Option<i32>)
    ensures
        r == zone_offset_of(name@, ms as int),
        r matches Some(s) ==> -86_400 < s < 86_400,
{
    let tz: chrono_tz::Tz = name.parse().ok()?;
    let at = chrono::DateTime::<chrono::Utc>::from_timestamp_millis(ms)?;
    let offset = TimeZone::offset_from_utc_datetime(&tz, &at.naive_utc());
    Some(Offset::fix(&offset).local_minus_utc())
}

/// An offset in seconds as whole hours, rounded half away from zero.
pub open spec fn round_hours(secs: int) -> int {
    if secs >= 0 {
        (secs + 1800) / 3600
    } else {
        -((-secs + 1800) / 3600)
    }
}

/// An offset in seconds as whole hours, rounded half away from zero.
pub fn offset_hours(secs: i32) -> (r: i8)
    requires
        -86_400 < secs < 86_400,
    ensures
        r == round_hours(secs as int),
{
    if secs >= 0 {
        ((secs + 1800) / 3600) as i8
    } else {
        (-((-secs + 1800) / 3600)) as i8
    }
}

/// The whole-hour offset of the zone that explicit actor `id` names, at `start_ms`.
pub fn timezone_offset_for_name(value: &str, start_ms: i64, id: &str) -> (r: Result<i8, ActorConfigError>)
    ensures
        zone_offset_of(trimmed_of(value@), start_ms as int) matches Some(s) ==> r == Ok::<i8, ActorConfigError>(
            round_hours(s as int) as i8,
        ),
        zone_offset_of(trimmed_of(value@), start_ms as int) is None ==> (r matches Err(e) && e.0@
            == actor_error_prefix(id@) + "timezone must be a valid IANA name"@),
{
    match zone_offset_seconds(trim_str(value), start_ms) {
        Some(secs) => Ok(offset_hours(secs)),
        None => {
            let mut m = owned("population.actor ");
            m.append(id);
            m.append(" ");
            m.append("timezone must be a valid IANA name");
            Err(ActorConfigError(m))
        },
    }
}

/// Whether zone `name` exists at `ms` and has the whole-hour offset `h` there.
pub open spec fn zone_gives(name: Seq<char>, ms: int, h: int) -> bool {
    match zone_offset_of(name, ms) {
        Some(s) => h == round_hours(s as int),
        None => false,
    }
}

/// A zone entry that can be drawn from: a weight in range, a zone that exists at
/// `ms`, and a supported whole-hour offset there.
pub open spec fn usable_zone(name: Seq<char>, weight: u64, ms: int) -> bool {
    &&& 0 < weight <= MAX_WEIGHT
    &&& zone_offset_of(name, ms) matches Some(s) && supported_offset(round_hours(s as int))
}

/// Whether a whole-hour offset is one that actors may have: UTC-12 to UTC+14.
pub open spec fn supported_offset(h: int) -> bool {
    -12 <= h <= 14
}

/// Gives every actor whose zone is not fixed an offset drawn from the weighted
/// zones (weights in thousandths), each zone's offset taken at `start_ms`. Zones
/// that do not exist, have a weight of zero or above the maximum, or an offset
/// outside UTC-12..UTC+14 are skipped; with none left nothing changes.
pub fn apply_timezone_distribution(
    actors: &mut Vec<ActorSeed>,
    zones: &Vec<(String, u64)>,
    start_ms: i64,
    rng: &mut StdRng,
)
    requires
        zones@.len() <= 1_000_000,
        forall|i: int| 0 <= i < old(actors)@.len() ==> (#[trigger] old(actors)@[i]).wf(),
    ensures
        final(actors)@.len() == old(actors)@.len(),
        forall|i: int| 0 <= i < final(actors)@.len() ==> (#[trigger] final(actors)@[i]).wf(),
        forall|i: int|
            0 <= i < old(actors)@.len() ==> #[trigger] final(actors)@[i] == (ActorSeed {
                timezone_offset: final(actors)@[i].timezone_offset,
                ..old(actors)@[i]
            }),
        forall|i: int|
            0 <= i < old(actors)@.len() && (old(actors)@[i].timezone_fixed) ==> #[trigger] final(actors)@[i]
                == old(actors)@[i],
        forall|i: int|
            0 <= i < old(actors)@.len() && #[trigger] final(actors)@[i] != old(actors)@[i] ==> exists|k: int|
                0 <= k < zones@.len() && 0 < zones@[k].1 <= MAX_WEIGHT && #[trigger] zone_gives(
                    zones@[k].0@,
                    start_ms as int,
                    final(actors)@[i].timezone_offset as int,
                ),
        (exists|k: int| 0 <= k < zones@.len() && #[trigger] usable_zone(zones@[k].0@, zones@[k].1, start_ms as int))
            ==> forall|i: int|
            0 <= i < old(actors)@.len() && !old(actors)@[i].timezone_fixed ==> exists|q: int|
                0 <= q < zones@.len() && usable_zone(zones@[q].0@, zones@[q].1, start_ms as int) && #[trigger] zone_gives(
                    zones@[q].0@,
                    start_ms as int,
                    final(actors)@[i].timezone_offset as int,
                ),
{
    let mut offsets: Vec<i8> = Vec::new();
    let mut weights: Vec<u64> = Vec::new();
    let ghost mut origin: Seq<int> = Seq::empty();
    let mut k: usize = 0;
    while k < zones.len()
        invariant
            k <= zones@.len(),
            zones@.len() <= 1_000_000,
            offsets@.len() == weights@.len(),
            origin.len() == offsets@.len(),
            offsets@.len() <= k,
            forall|j: int| 0 <= j < weights@.len() ==> 0 < #[trigger] weights@[j] <= MAX_WEIGHT,
            offsets@.len() == 0 ==> forall|j: int| 0 <= j < k ==> !#[trigger] usable_zone(zones@[j].0@, zones@[j].1, start_ms as int),
            forall|j: int|
                0 <= j < offsets@.len() ==> 0 <= #[trigger] origin[j] < k && 0 < zones@[origin[j]].1 <= MAX_WEIGHT
                    && zone_gives(zones@[origin[j]].0@, start_ms as int, offsets@[j] as int)
                    && supported_offset(offsets@[j] as int),
        decreases zones@.len() - k,
    {
        let w = zones[k].1;
        if w > 0 && w <= MAX_WEIGHT {
            match zone_offset_seconds(zones[k].0.as_str(), start_ms) {
                Some(secs) => {
                    let h = offset_hours(secs);
                    if -12 <= h && h <= 14 {
                        offsets.push(h);
                        weights.push(w);
                        proof {
                            origin = origin.push(k as int);
                        }
                    }
                },
                None => {},
            }
        }
        k = k + 1;
    }
    if offsets.len() == 0 {
        return;
    }
    proof {
        lemma_sum_bounded(weights@, MAX_WEIGHT as int);
        assert(MAX_WEIGHT * weights@.len() <= MAX_WEIGHT * 1_000_000) by (nonlinear_arith)
            requires weights@.len() <= 1_000_000;
        lemma_positive_first(weights@);
    }
    let ghost initial = actors@;
    let n = actors.len();
    let mut i: usize = 0;
    while i < n
        invariant
            n == actors@.len(),
            n == initial.len(),
            i <= n,
            offsets@.len() == weights@.len(),
            offsets@.len() > 0,
            origin.len() == offsets@.len(),
            0 < weight_sum(weights@) <= u64::MAX,
            forall|j: int|
                0 <= j < offsets@.len() ==> 0 <= #[trigger] origin[j] < zones@.len() && 0 < zones@[origin[j]].1
                    <= MAX_WEIGHT && zone_gives(zones@[origin[j]].0@, start_ms as int, offsets@[j] as int)
                    && supported_offset(offsets@[j] as int),
            forall|j: int| 0 <= j < i && !initial[j].timezone_fixed ==> exists|q: int|
                0 <= q < zones@.len() && usable_zone(zones@[q].0@, zones@[q].1, start_ms as int) && #[trigger] zone_gives(
                    zones@[q].0@,
                    start_ms as int,
                    actors@[j].timezone_offset as int,
                ),
            forall|j: int| 0 <= j < n ==> (#[trigger] initial[j]).wf(),
            forall|j: int| i <= j < n ==> #[trigger] actors@[j] == initial[j],
            forall|j: int| 0 <= j < n ==> (#[trigger] actors@[j]).wf(),
            forall|j: int|
                0 <= j < n ==> #[trigger] actors@[j] == (ActorSeed {
                    timezone_offset: actors@[j].timezone_offset,
                    ..initial[j]
                }),
            forall|j: int| 0 <= j < n && initial[j].timezone_fixed ==> #[trigger] actors@[j] == initial[j],
            forall|j: int|
                0 <= j < n && #[trigger] actors@[j] != initial[j] ==> exists|q: int|
                    0 <= q < zones@.len() && 0 < zones@[q].1 <= MAX_WEIGHT && #[trigger] zone_gives(
                        zones@[q].0@,
                        start_ms as int,
                        actors@[j].timezone_offset as int,
                    ),
        decreases n - i,
    {
        if !actors[i].timezone_fixed {
            let choice = match pick_weighted_index(&weights, rng) {
                Some(c) => c,
                None => {
                    proof {
                        assert(false);
                    }
                    0
                },
            };
            let h = offsets[choice];
            let ghost before = actors@;
            let mut seed = actors.remove(i);
            seed.timezone_offset = h;
            actors.insert(i, seed);
            proof {
                let q = origin[choice as int];
                assert(zone_gives(zones@[q].0@, start_ms as int, actors@[i as int].timezone_offset as int));
                assert(usable_zone(zones@[q].0@, zones@[q].1, start_ms as int));
                assert forall|j: int| 0 <= j < n && j != i implies #[trigger] actors@[j] == before[j] by {}
            }
        }
        i = i + 1;
    }
}

} // verus!
