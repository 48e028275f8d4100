//! Actors described one by one in the population configuration: their checks,
//! and how they override a synthesised seed.
//!
//! Rates are thousandths of an event per hour; error rates are parts per million.
use vstd::prelude::*;

use crate::actors::{
    actor_error_prefix, actor_kind_named, actor_role_named, is_account_id, normalize_string_list,
    parse_actor_kind, parse_actor_role, parse_actor_service_profile, trimmed_nonempty, validate_account_id,
    ActorConfigError, ActorKind, ActorRole, ActorSeed, ServicePattern, ServiceProfile, PPM,
};
use crate::codec::service_profile_named;
use crate::config::ServicePatternConfig;
use crate::text::{lemma_seq_lt_total, owned, seq_lt, str_eq, str_lt, trim_str, trimmed_of};
use crate::zones::{round_hours, timezone_offset_for_name, zone_offset_of};

verus! {

/// One configured actor, as written.
#[derive(Debug, Clone)]
pub struct ExplicitActorConfig {
    pub id: String,
    pub kind: String,
    pub role: Option<String>,
    pub service_profile: Option<String>,
    pub service_pattern: Option<ServicePatternConfig>,
    pub events_per_hour: Option<u64>,
    pub error_rate: Option<u32>,
    pub account_id: Option<String>,
    pub user_name: Option<String>,
    pub principal_id: Option<String>,
    pub arn: Option<String>,
    pub access_key_id: Option<String>,
    pub identity_type: Option<String>,
    pub timezone: Option<String>,
    pub active_start_hour: Option<u8>,
    pub active_hours: Option<u8>,
    pub weekend_active: Option<bool>,
    pub user_agents: Option<Vec<String>>,
    pub source_ips: Option<Vec<String>>,
    pub tags: Vec<String>,
    pub event_bias: Vec<(String, u64)>,
}

/// One configured actor after its checks: what it fixes of its seed.
#[derive(Debug, Clone)]
pub struct ExplicitActor {
    pub id: String,
    pub kind: ActorKind,
    pub role: Option<ActorRole>,
    pub service_profile: Option<ServiceProfile>,
    pub service_pattern: ServicePattern,
    pub events_per_hour: u64,
    pub error_rate_ppm: Option<u32>,
    pub account_id: Option<String>,
    pub timezone_offset: Option<i8>,
    pub user_agents: Option<Vec<String>>,
    pub source_ips: Option<Vec<String>>,
    pub tags: Vec<String>,
    pub event_bias: Vec<(String, u64)>,
}

/// Whether an optional list of strings is either absent or keeps a value after
/// trimming.
pub open spec fn list_ok(list: Option<Vec<String>>) -> bool {
    match list {
        Some(l) => trimmed_nonempty(l@).len() > 0,
        None => true,
    }
}

/// The first error of a configured actor, in the order the checks run, given the
/// ids of the actors before it; `None` when it passes them all.
pub open spec fn explicit_error(
    e: ExplicitActorConfig,
    earlier_ids: Seq<Seq<char>>,
    start_ms: int,
) -> Option<Seq<char>> {
    let id = trimmed_of(e.id@);
    let p = actor_error_prefix(id);
    if id.len() == 0 {
        Some("population.actor id must be non-empty"@)
    } else if earlier_ids.contains(id) {
        Some("population.actor id is duplicated: "@ + id)
    } else if actor_kind_named(e.kind@) is None {
        Some(p + "has invalid kind: "@ + crate::text::normalized(e.kind@))
    } else if e.events_per_hour is None {
        Some(p + "is missing events_per_hour"@)
    } else if e.events_per_hour == Some(0u64) {
        Some(p + "events_per_hour must be > 0"@)
    } else if e.error_rate matches Some(r) && r > PPM {
        Some(p + "error_rate must be between 0.0 and 1.0"@)
    } else if e.account_id matches Some(a) && !is_account_id(trimmed_of(a@)) {
        Some(p + "account_id must be a 12-digit string"@)
    } else if actor_kind_named(e.kind@) == Some(ActorKind::Human) && e.service_profile is Some {
        Some(p + "is human but service_profile is set"@)
    } else if actor_kind_named(e.kind@) == Some(ActorKind::Human) && e.role is None {
        Some(p + "is human but role is missing"@)
    } else if actor_kind_named(e.kind@) == Some(ActorKind::Human) && actor_role_named(e.role.unwrap()@) is None {
        Some(p + "has invalid role: "@ + crate::text::normalized(e.role.unwrap()@))
    } else if actor_kind_named(e.kind@) == Some(ActorKind::Service) && e.role is Some {
        Some(p + "is service but role is set"@)
    } else if actor_kind_named(e.kind@) == Some(ActorKind::Service) && e.user_name is Some {
        Some(p + "is service but user_name is set"@)
    } else if actor_kind_named(e.kind@) == Some(ActorKind::Service) && e.service_profile is None {
        Some(p + "is service but service_profile is missing"@)
    } else if actor_kind_named(e.kind@) == Some(ActorKind::Service) && service_profile_named(
        e.service_profile.unwrap()@,
    ) is None {
        Some(p + "has invalid service_profile: "@ + e.service_profile.unwrap()@)
    } else if !list_ok(e.user_agents) {
        Some(p + "user_agents"@ + " must contain at least one value"@)
    } else if !list_ok(e.source_ips) {
        Some(p + "source_ips"@ + " must contain at least one value"@)
    } else if e.active_start_hour matches Some(h) && h > 23 {
        Some(p + "active_start_hour must be 0-23"@)
    } else if e.active_hours matches Some(h) && (h == 0 || h > 24) {
        Some(p + "active_hours must be 1-24"@)
    } else if e.timezone matches Some(tz) && zone_offset_of(trimmed_of(tz@), start_ms) is None {
        Some(p + "timezone must be a valid IANA name"@)
    } else {
        None
    }
}

/// The trimmed ids of a list of configured actors.
pub open spec fn ids_of(entries: Seq<ExplicitActorConfig>) -> Seq<Seq<char>> {
    entries.map_values(|e: ExplicitActorConfig| trimmed_of(e.id@))
}

/// The views of a list of strings.
pub open spec fn string_views(v: Seq<String>) -> Seq<Seq<char>> {
    v.map_values(|s: String| s@)
}

/// Checks that an id is new, adding it to the ids seen.
fn note_id(seen: &mut Vec<String>, id: &str) -> (r: bool)
    ensures
        r == !string_views(old(seen)@).contains(id@),
        r ==> final(seen)@.map_values(|s: String| s@) == string_views(old(seen)@).push(id@),
        !r ==> final(seen)@ == old(seen)@,
{
    let mut i: usize = 0;
    while i < seen.len()
        invariant
            i <= seen@.len(),
            forall|k: int| 0 <= k < i ==> (#[trigger] seen@[k])@ != id@,
        decreases seen@.len() - i,
    {
        if str_eq(seen[i].as_str(), id) {
            assert(string_views(seen@)[i as int] == id@);
            return false;
        }
        i = i + 1;
    }
    assert(!string_views(seen@).contains(id@)) by {
        if string_views(seen@).contains(id@) {
            let k = choose|k: int| 0 <= k < seen@.len() && #[trigger] string_views(seen@)[k] == id@;
            assert(seen@[k]@ == id@);
        }
    }
    let ghost before = seen@;
    seen.push(owned(id));
    assert(string_views(seen@) =~= string_views(before).push(id@));
    true
}

fn error_with(id: &str, detail: &str) -> (r: ActorConfigError)
    ensures
        r.0@ == actor_error_prefix(id@) + detail@,
{
    let mut m = owned("population.actor ");
    m.append(id);
    m.append(" ");
    m.append(detail);
    ActorConfigError(m)
}

/// Strings strictly ascend, in lexicographic order.
pub open spec fn strings_ascending(v: Seq<String>) -> bool {
    forall|i: int| 0 <= i < v.len() - 1 ==> seq_lt((#[trigger] v[i])@, v[i + 1]@)
}

/// Adds `t` to strictly ascending strings unless it is already there.
fn insert_sorted_unique(v: &mut Vec<String>, t: &str)
    requires
        strings_ascending(old(v)@),
    ensures
        strings_ascending(final(v)@),
        string_views(final(v)@).to_set() == string_views(old(v)@).to_set().insert(t@),
{
    let n = v.len();
    let mut p: usize = 0;
    while p < n && str_lt(v[p].as_str(), t)
        invariant
            n == v@.len(),
            p <= n,
            forall|k: int| 0 <= k < p ==> seq_lt((#[trigger] v@[k])@, t@),
        decreases n - p,
    {
        p = p + 1;
    }
    let ghost before = v@;
    if p < n && str_eq(v[p].as_str(), t) {
        assert(string_views(before).to_set() =~= string_views(before).to_set().insert(t@)) by {
            assert(string_views(before)[p as int] == t@);
        }
        return;
    }
    proof {
        if p < n {
            lemma_seq_lt_total(before[p as int]@, t@);
        }
    }
    v.insert(p, owned(t));
    proof {
        assert forall|i: int| 0 <= i < v@.len() - 1 implies seq_lt((#[trigger] v@[i])@, v@[i + 1]@) by {
            if i + 1 < p {
                assert(v@[i] == before[i] && v@[i + 1] == before[i + 1]);
            } else if i + 1 == p {
                assert(v@[i] == before[i]);
            } else if i == p {
                assert(v@[i + 1] == before[i]);
            } else {
                assert(v@[i] == before[i - 1] && v@[i + 1] == before[i]);
            }
        }
        assert(string_views(v@).to_set() =~= string_views(before).to_set().insert(t@)) by {
            assert forall|x: Seq<char>| string_views(v@).to_set().contains(x) implies string_views(before).to_set().insert(t@).contains(x) by {
                let i = choose|i: int| 0 <= i < string_views(v@).len() && string_views(v@)[i] == x;
                if i < p {
                    assert(string_views(before)[i] == x);
                } else if i > p {
                    assert(string_views(before)[i - 1] == x);
                }
            }
            assert forall|x: Seq<char>| string_views(before).to_set().insert(t@).contains(x) implies string_views(v@).to_set().contains(x) by {
                if x == t@ {
                    assert(string_views(v@)[p as int] == x);
                } else {
                    let i = choose|i: int| 0 <= i < string_views(before).len() && string_views(before)[i] == x;
                    if i < p {
                        assert(string_views(v@)[i] == x);
                    } else {
                        assert(string_views(v@)[i + 1] == x);
                    }
                }
            }
        }
    }
}

/// The configured tags, trimmed, without blanks and without repeats, sorted by
/// name.
pub fn normalize_tags(tags: &Vec<String>) -> (r: Vec<String>)
    ensures
        strings_ascending(r@),
        string_views(r@).to_set() == trimmed_nonempty(tags@).to_set(),
{
    let mut out: Vec<String> = Vec::new();
    let mut i: usize = 0;
    assert(string_views(out@).to_set() =~= trimmed_nonempty(tags@.take(0)).to_set()) by {
        assert(tags@.take(0) =~= Seq::<String>::empty());
    }
    while i < tags.len()
        invariant
            i <= tags@.len(),
            strings_ascending(out@),
            string_views(out@).to_set() == trimmed_nonempty(tags@.take(i as int)).to_set(),
        decreases tags@.len() - i,
    {
        assert(tags@.take(i + 1).drop_last() =~= tags@.take(i as int));
        assert(tags@.take(i + 1).last() == tags@[i as int]);
        let t = trim_str(tags[i].as_str());
        let ghost prev = trimmed_nonempty(tags@.take(i as int));
        if t.unicode_len() > 0 {
            insert_sorted_unique(&mut out, t);
            assert(trimmed_nonempty(tags@.take(i + 1)) == prev.push(t@));
            proof { prev.lemma_push_to_set_commute(t@); }
        } else {
            assert(trimmed_nonempty(tags@.take(i + 1)) == prev);
        }
        i = i + 1;
    }
    assert(tags@.take(tags@.len() as int) =~= tags@);
    out
}

/// The pattern a configured actor names, constant when none.
pub open spec fn pattern_of(p: Option<ServicePatternConfig>) -> ServicePattern {
    match p {
        Some(ServicePatternConfig::Diurnal) => ServicePattern::Diurnal,
        Some(ServicePatternConfig::Bursty) => ServicePattern::Bursty,
        _ => ServicePattern::Constant,
    }
}

/// What a configured actor that passes its checks fixes of its seed.
pub open spec fn explicit_fixes(a: ExplicitActor, e: ExplicitActorConfig, start_ms: int) -> bool {
    &&& a.id@ == trimmed_of(e.id@)
    &&& Some(a.kind) == actor_kind_named(e.kind@)
    &&& a.kind == ActorKind::Human ==> (e.role matches Some(r) && a.role == actor_role_named(r@)
        && a.service_profile is None)
    &&& a.kind == ActorKind::Service ==> (e.service_profile matches Some(sp) && a.service_profile
        == service_profile_named(sp@) && a.role is None)
    &&& a.service_pattern == pattern_of(e.service_pattern)
    &&& Some(a.events_per_hour) == e.events_per_hour
    &&& a.error_rate_ppm == e.error_rate
    &&& match e.account_id {
        Some(x) => a.account_id matches Some(y) && y@ == trimmed_of(x@),
        None => a.account_id is None,
    }
    &&& match e.timezone {
        Some(tz) => zone_offset_of(trimmed_of(tz@), start_ms) matches Some(secs) && a.timezone_offset
            == Some(round_hours(secs as int) as i8),
        None => a.timezone_offset is None,
    }
    &&& strings_ascending(a.tags@)
    &&& string_views(a.tags@).to_set() == trimmed_nonempty(e.tags@).to_set()
    &&& match e.user_agents {
        Some(l) => a.user_agents matches Some(v) && string_views(v@) == trimmed_nonempty(l@),
        None => a.user_agents is None,
    }
    &&& match e.source_ips {
        Some(l) => a.source_ips matches Some(v) && string_views(v@) == trimmed_nonempty(l@),
        None => a.source_ips is None,
    }
}

fn optional_list(list: &Option<Vec<String>>, id: &str, field: &str) -> (r: Result<Option<Vec<String>>, ActorConfigError>)
    ensures
        list_ok(*list) ==> (r matches Ok(o) && match *list {
            Some(l) => o matches Some(v) && string_views(v@) == trimmed_nonempty(l@),
            None => o is None,
        }),
        !list_ok(*list) ==> (r matches Err(e) && e.0@ == actor_error_prefix(id@) + field@
            + " must contain at least one value"@),
{
    match list {
        None => Ok(None),
        Some(l) => match normalize_string_list(l, id, field) {
            Ok(v) => {
                assert(string_views(v@) == v@.map_values(|x: String| x@));
                Ok(Some(v))
            },
            Err(e) => Err(e),
        },
    }
}

/// Runs the checks of one configured actor, in order, against the ids of the
/// actors before it (which it joins when it passes).
pub fn check_explicit_actor(entry: &ExplicitActorConfig, seen_ids: &mut Vec<String>, start_ms: i64) -> (r: Result<
    ExplicitActor,
    ActorConfigError,
>)
    ensures
        explicit_error(*entry, string_views(old(seen_ids)@), start_ms as int) matches Some(m) ==> (r matches Err(
            e,
        ) && e.0@ == m),
        explicit_error(*entry, string_views(old(seen_ids)@), start_ms as int) is None ==> (r matches Ok(a)
            && explicit_fixes(a, *entry, start_ms as int) && string_views(final(seen_ids)@) == string_views(
            old(seen_ids)@,
        ).push(trimmed_of(entry.id@))),
{
    let id = trim_str(entry.id.as_str());
    if id.unicode_len() == 0 {
        return Err(ActorConfigError(owned("population.actor id must be non-empty")));
    }
    if !note_id(seen_ids, id) {
        let mut m = owned("population.actor id is duplicated: ");
        m.append(id);
        return Err(ActorConfigError(m));
    }
    let kind = match parse_actor_kind(entry.kind.as_str(), id) {
        Ok(k) => k,
        Err(e) => return Err(e),
    };
    let events_per_hour = match entry.events_per_hour {
        None => return Err(error_with(id, "is missing events_per_hour")),
        Some(r) => r,
    };
    if events_per_hour == 0 {
        return Err(error_with(id, "events_per_hour must be > 0"));
    }
    if let Some(rate) = entry.error_rate {
        if rate > PPM {
            return Err(error_with(id, "error_rate must be between 0.0 and 1.0"));
        }
    }
    let account_id = match &entry.account_id {
        Some(value) => match validate_account_id(value.as_str(), id) {
            Ok(a) => Some(a),
            Err(e) => return Err(e),
        },
        None => None,
    };
    let (role, service_profile) = match kind {
        ActorKind::Human => {
            if entry.service_profile.is_some() {
                return Err(error_with(id, "is human but service_profile is set"));
            }
            let role_name = match &entry.role {
                None => return Err(error_with(id, "is human but role is missing")),
                Some(r) => r,
            };
            let role = match parse_actor_role(role_name.as_str(), id) {
                Ok(r) => r,
                Err(e) => return Err(e),
            };
            (Some(role), None)
        },
        ActorKind::Service => {
            if entry.role.is_some() {
                return Err(error_with(id, "is service but role is set"));
            }
            if entry.user_name.is_some() {
                return Err(error_with(id, "is service but user_name is set"));
            }
            let profile_name = match &entry.service_profile {
                None => return Err(error_with(id, "is service but service_profile is missing")),
                Some(p) => p,
            };
            let profile = match parse_actor_service_profile(profile_name.as_str(), id) {
                Ok(p) => p,
                Err(e) => return Err(e),
            };
            (None, Some(profile))
        },
    };
    let service_pattern = match entry.service_pattern {
        Some(ServicePatternConfig::Diurnal) => ServicePattern::Diurnal,
        Some(ServicePatternConfig::Bursty) => ServicePattern::Bursty,
        _ => ServicePattern::Constant,
    };
    let user_agents = match optional_list(&entry.user_agents, id, "user_agents") {
        Ok(l) => l,
        Err(e) => return Err(e),
    };
    let source_ips = match optional_list(&entry.source_ips, id, "source_ips") {
        Ok(l) => l,
        Err(e) => return Err(e),
    };
    if let Some(h) = entry.active_start_hour {
        if h > 23 {
            return Err(error_with(id, "active_start_hour must be 0-23"));
        }
    }
    if let Some(h) = entry.active_hours {
        if h == 0 || h > 24 {
            return Err(error_with(id, "active_hours must be 1-24"));
        }
    }
    let timezone_offset = match &entry.timezone {
        None => None,
        Some(tz) => match timezone_offset_for_name(tz.as_str(), start_ms, id) {
            Ok(o) => Some(o),
            Err(e) => return Err(e),
        },
    };
    Ok(ExplicitActor {
        id: owned(id),
        kind,
        role,
        service_profile,
        service_pattern,
        events_per_hour,
        error_rate_ppm: entry.error_rate,
        account_id,
        timezone_offset,
        user_agents,
        source_ips,
        tags: normalize_tags(&entry.tags),
        event_bias: entry.event_bias.clone(),
    })
}

/// The bias entries kept: names trimmed, entries with a blank name or a zero weight
/// dropped.
pub open spec fn bias_kept(list: Seq<(String, u64)>) -> Seq<(Seq<char>, u64)>
    decreases list.len(),
{
    if list.len() == 0 {
        Seq::empty()
    } else {
        let rest = bias_kept(list.drop_last());
        let (name, w) = list.last();
        if trimmed_of(name@).len() > 0 && w > 0 {
            rest.push((trimmed_of(name@), w))
        } else {
            rest
        }
    }
}

/// The names and weights of a bias list.
pub open spec fn bias_views(list: Seq<(String, u64)>) -> Seq<(Seq<char>, u64)> {
    list.map_values(|e: (String, u64)| (e.0@, e.1))
}

/// An actor's bias list with names trimmed and blank names and zero weights
/// dropped (a later repeat of a name has no effect on lookups).
pub fn normalize_event_bias(bias: &Vec<(String, u64)>) -> (r: Vec<(String, u64)>)
    ensures
        bias_views(r@) == bias_kept(bias@),
{
    let mut out: Vec<(String, u64)> = Vec::new();
    let mut i: usize = 0;
    while i < bias.len()
        invariant
            i <= bias@.len(),
            bias_views(out@) == bias_kept(bias@.take(i as int)),
        decreases bias@.len() - i,
    {
        assert(bias@.take(i + 1).drop_last() =~= bias@.take(i as int));
        assert(bias@.take(i + 1).last() == bias@[i as int]);
        let name = trim_str(bias[i].0.as_str());
        let w = bias[i].1;
        if name.unicode_len() > 0 && w > 0 {
            let ghost before = out@;
            out.push((owned(name), w));
            assert(bias_views(out@) =~= bias_views(before).push((name@, w)));
        }
        i = i + 1;
    }
    assert(bias@.take(bias@.len() as int) =~= bias@);
    out
}

/// Runs the checks of every configured actor in order and stops at the first
/// failure, whose error it returns.
pub fn validate_explicit_actors(entries: &Vec<ExplicitActorConfig>, start_ms: i64) -> (r: Result<
    Vec<ExplicitActor>,
    ActorConfigError,
>)
    ensures
        r matches Ok(v) ==> v@.len() == entries@.len() && forall|i: int|
            0 <= i < entries@.len() ==> explicit_error(
                #[trigger] entries@[i],
                ids_of(entries@.take(i)),
                start_ms as int,
            ) is None && explicit_fixes(v@[i], entries@[i], start_ms as int),
        r matches Err(e) ==> exists|i: int|
            0 <= i < entries@.len() && (forall|j: int|
                0 <= j < i ==> explicit_error(#[trigger] entries@[j], ids_of(entries@.take(j)), start_ms as int)
                    is None) && explicit_error(entries@[i], ids_of(entries@.take(i)), start_ms as int)
                == Some(e.0@),
{
    let mut seen: Vec<String> = Vec::new();
    let mut out: Vec<ExplicitActor> = Vec::new();
    let mut i: usize = 0;
    while i < entries.len()
        invariant
            i <= entries@.len(),
            out@.len() == i,
            string_views(seen@) == ids_of(entries@.take(i as int)),
            forall|j: int|
                0 <= j < i ==> explicit_error(#[trigger] entries@[j], ids_of(entries@.take(j)), start_ms as int)
                    is None && explicit_fixes(out@[j], entries@[j], start_ms as int),
        decreases entries@.len() - i,
    {
        assert(entries@.take(i + 1).drop_last() =~= entries@.take(i as int));
        assert(ids_of(entries@.take(i + 1)) =~= ids_of(entries@.take(i as int)).push(trimmed_of(entries@[i as int].id@)));
        match check_explicit_actor(&entries[i], &mut seen, start_ms) {
            Ok(a) => {
                out.push(a);
            },
            Err(e) => {
                assert(explicit_error(entries@[i as int], ids_of(entries@.take(i as int)), start_ms as int) == Some(e.0@));
                return Err(e);
            },
        }
        i = i + 1;
    }
    Ok(out)
}

/// The ARN of an IAM user in an account.
pub open spec fn user_arn(account_id: Seq<char>, name: Seq<char>) -> Seq<char> {
    "arn:aws:iam::"@ + account_id + ":user/"@ + name
}

/// Lays a configured actor over a synthesised seed: its identity fields, rate,
/// lists, window and time zone replace the seed's where they are given; a human
/// with a user name and no ARN gets the user's ARN in the seed's account; its
/// id, tags and bias are set, and a configured time zone is marked fixed.
#[verifier::rlimit(60)]
pub fn apply_explicit_actor(seed: &mut ActorSeed, actor: &ExplicitActor, entry: &ExplicitActorConfig)
    ensures
        final(seed).id matches Some(i) && i@ == actor.id@,
        final(seed).kind == old(seed).kind,
        final(seed).account_id == old(seed).account_id,
        final(seed).rate_per_hour_milli == if old(seed).kind == ActorKind::Human {
            actor.events_per_hour
        } else {
            old(seed).rate_per_hour_milli
        },
        final(seed).identity_type@ == match entry.identity_type {
            Some(t) => t@,
            None => old(seed).identity_type@,
        },
        final(seed).principal_id@ == match entry.principal_id {
            Some(t) => t@,
            None => old(seed).principal_id@,
        },
        final(seed).access_key_id@ == match entry.access_key_id {
            Some(t) => t@,
            None => old(seed).access_key_id@,
        },
        final(seed).arn@ == match entry.arn {
            Some(t) => t@,
            None => match entry.user_name {
                Some(n) if old(seed).kind == ActorKind::Human => user_arn(old(seed).account_id@, n@),
                _ => old(seed).arn@,
            },
        },
        old(seed).kind == ActorKind::Human && entry.user_name is Some ==> (final(seed).user_name matches Some(n)
            && n@ == entry.user_name.unwrap()@),
        final(seed).active_start_hour == match entry.active_start_hour {
            Some(h) => h,
            None => old(seed).active_start_hour,
        },
        final(seed).active_hours == match entry.active_hours {
            Some(h) => h,
            None => old(seed).active_hours,
        },
        final(seed).weekend_active == match entry.weekend_active {
            Some(w) => w,
            None => old(seed).weekend_active,
        },
        final(seed).timezone_offset == match actor.timezone_offset {
            Some(o) => o,
            None => old(seed).timezone_offset,
        },
        final(seed).timezone_fixed == (actor.timezone_offset is Some || old(seed).timezone_fixed),
        actor.user_agents is None ==> final(seed).user_agents == old(seed).user_agents,
        actor.source_ips is None ==> final(seed).source_ips == old(seed).source_ips,
        bias_views(final(seed).event_bias@) == bias_kept(actor.event_bias@),
        final(seed).tags@.len() == actor.tags@.len(),
        forall|i: int| 0 <= i < actor.tags@.len() ==> (#[trigger] final(seed).tags@[i])@ == actor.tags@[i]@,
        actor.user_agents matches Some(l) ==> string_views(final(seed).user_agents@) == string_views(l@),
        actor.source_ips matches Some(l) ==> string_views(final(seed).source_ips@) == string_views(l@),
{
    if seed.kind == ActorKind::Human {
        seed.rate_per_hour_milli = actor.events_per_hour;
    }
    if let Some(t) = &entry.identity_type {
        seed.identity_type = t.clone();
    }
    if let Some(t) = &entry.principal_id {
        seed.principal_id = t.clone();
    }
    if seed.kind == ActorKind::Human {
        if let Some(name) = &entry.user_name {
            seed.user_name = Some(name.clone());
            if entry.arn.is_none() {
                let mut arn = owned("arn:aws:iam::");
                arn.append(seed.account_id.as_str());
                arn.append(":user/");
                arn.append(name.as_str());
                seed.arn = arn;
            }
        }
    }
    if let Some(t) = &entry.arn {
        seed.arn = t.clone();
    }
    if let Some(t) = &entry.access_key_id {
        seed.access_key_id = t.clone();
    }
    if let Some(list) = &actor.user_agents {
        seed.user_agents = crate::entra::clone_strings(list);
        assert(string_views(seed.user_agents@) =~= string_views(list@));
    }
    if let Some(list) = &actor.source_ips {
        seed.source_ips = crate::entra::clone_strings(list);
        assert(string_views(seed.source_ips@) =~= string_views(list@));
    }
    if let Some(h) = entry.active_start_hour {
        seed.active_start_hour = h;
    }
    if let Some(h) = entry.active_hours {
        seed.active_hours = h;
    }
    if let Some(w) = entry.weekend_active {
        seed.weekend_active = w;
    }
    if let Some(o) = actor.timezone_offset {
        seed.timezone_offset = o;
        seed.timezone_fixed = true;
    }
    seed.id = Some(actor.id.clone());
    seed.tags = crate::entra::clone_strings(&actor.tags);
    seed.event_bias = normalize_event_bias(&actor.event_bias);
}

} // verus!
