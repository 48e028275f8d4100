//! Names of the actor enums as they stand in the population file, and the
//! conversions of its columns.
use vstd::prelude::*;

use crate::actors::{ActorKind, ActorRole, ServicePattern, ServiceProfile};
use crate::dispatch::{parts_hash, str_hash};
use crate::guid::{push_upper_hex_u64, upper_hex_u64};
use crate::text::{char_to_string, normalize, normalized, owned, str_eq};
use vstd::string::StringSliceAdditionalSpecFns;

verus! {

/// The column value of an actor kind.
pub open spec fn kind_name(kind: ActorKind) -> Seq<char> {
    match kind {
        ActorKind::Human => "human"@,
        ActorKind::Service => "service"@,
    }
}

/// The column value of a role.
pub open spec fn role_name(role: ActorRole) -> Seq<char> {
    match role {
        ActorRole::Admin => "admin"@,
        ActorRole::Developer => "developer"@,
        ActorRole::ReadOnly => "readonly"@,
        ActorRole::Auditor => "auditor"@,
    }
}

/// The column value of a service profile.
pub open spec fn service_profile_name(profile: ServiceProfile) -> Seq<char> {
    match profile {
        ServiceProfile::Generic => "generic"@,
        ServiceProfile::Ec2Reaper => "ec2_reaper"@,
        ServiceProfile::DataLakeBot => "datalake_bot"@,
        ServiceProfile::LogsShipper => "logs_shipper"@,
        ServiceProfile::MetricsCollector => "metrics_collector"@,
    }
}

/// The column value of a service pattern.
pub open spec fn service_pattern_name(pattern: ServicePattern) -> Seq<char> {
    match pattern {
        ServicePattern::Constant => "constant"@,
        ServicePattern::Diurnal => "diurnal"@,
        ServicePattern::Bursty => "bursty"@,
    }
}

/// The kind whose column value is exactly `s`.
pub open spec fn kind_named(s: Seq<char>) -> Option<ActorKind> {
    if s == "human"@ {
        Some(ActorKind::Human)
    } else if s == "service"@ {
        Some(ActorKind::Service)
    } else {
        None
    }
}

/// The role whose column value is exactly `s`.
pub open spec fn role_named(s: Seq<char>) -> Option<ActorRole> {
    if s == "admin"@ {
        Some(ActorRole::Admin)
    } else if s == "developer"@ {
        Some(ActorRole::Developer)
    } else if s == "readonly"@ {
        Some(ActorRole::ReadOnly)
    } else if s == "auditor"@ {
        Some(ActorRole::Auditor)
    } else {
        None
    }
}

/// `s` with every `-` replaced by `_`.
pub open spec fn dashes_to_underscores(s: Seq<char>) -> Seq<char> {
    s.map_values(|c: char| if c == '-' { '_' } else { c })
}

/// The service profile whose name is `s`, after normalising it (trimmed,
/// lower-cased, dashes read as underscores).
pub open spec fn service_profile_named(s: Seq<char>) -> Option<ServiceProfile> {
    let n = dashes_to_underscores(normalized(s));
    if n == "generic"@ {
        Some(ServiceProfile::Generic)
    } else if n == "ec2_reaper"@ {
        Some(ServiceProfile::Ec2Reaper)
    } else if n == "datalake_bot"@ {
        Some(ServiceProfile::DataLakeBot)
    } else if n == "logs_shipper"@ {
        Some(ServiceProfile::LogsShipper)
    } else if n == "metrics_collector"@ {
        Some(ServiceProfile::MetricsCollector)
    } else {
        None
    }
}

/// The service pattern whose name is `s`, after trimming and lower-casing it.
pub open spec fn service_pattern_named(s: Seq<char>) -> Option<ServicePattern> {
    let n = normalized(s);
    if n == "constant"@ {
        Some(ServicePattern::Constant)
    } else if n == "diurnal"@ {
        Some(ServicePattern::Diurnal)
    } else if n == "bursty"@ {
        Some(ServicePattern::Bursty)
    } else {
        None
    }
}

/// The column value of an actor kind.
pub fn kind_to_str(kind: &ActorKind) -> (r: &'static str)
    ensures
        r@ == kind_name(*kind),
{
    match kind {
        ActorKind::Human => "human",
        ActorKind::Service => "service",
    }
}

/// The column value of a role.
pub fn role_to_str(role: &ActorRole) -> (r: &'static str)
    ensures
        r@ == role_name(*role),
{
    match role {
        ActorRole::Admin => "admin",
        ActorRole::Developer => "developer",
        ActorRole::ReadOnly => "readonly",
        ActorRole::Auditor => "auditor",
    }
}

/// The column value of a service profile.
pub fn service_profile_to_str(profile: &ServiceProfile) -> (r: &'static str)
    ensures
        r@ == service_profile_name(*profile),
{
    match profile {
        ServiceProfile::Generic => "generic",
        ServiceProfile::Ec2Reaper => "ec2_reaper",
        ServiceProfile::DataLakeBot => "datalake_bot",
        ServiceProfile::LogsShipper => "logs_shipper",
        ServiceProfile::MetricsCollector => "metrics_collector",
    }
}

/// The column value of a service pattern.
pub fn service_pattern_to_str(pattern: &ServicePattern) -> (r: &'static str)
    ensures
        r@ == service_pattern_name(*pattern),
{
    match pattern {
        ServicePattern::Constant => "constant",
        ServicePattern::Diurnal => "diurnal",
        ServicePattern::Bursty => "bursty",
    }
}

/// `prefix` followed by `value`, as a new string.
fn message(prefix: &str, value: &str) -> (r: String)
    ensures
        r@ == prefix@ + value@,
{
    let mut m = owned(prefix);
    m.append(value);
    m
}

/// Reads an `actor_kind` column value; anything but `human` or `service` is an
/// error that quotes the value.
pub fn parse_kind(value: &str) -> (r: Result<ActorKind, String>)
    ensures
        kind_named(value@) matches Some(k) ==> r == Ok::<ActorKind, String>(k),
        kind_named(value@) is None ==> (r matches Err(m) && m@ == "unknown actor_kind: "@ + value@),
{
    if str_eq(value, "human") {
        Ok(ActorKind::Human)
    } else if str_eq(value, "service") {
        Ok(ActorKind::Service)
    } else {
        Err(message("unknown actor_kind: ", value))
    }
}

/// Reads a `role` column value; anything but the four role names is an error
/// that quotes the value.
pub fn parse_role(value: &str) -> (r: Result<ActorRole, String>)
    ensures
        role_named(value@) matches Some(k) ==> r == Ok::<ActorRole, String>(k),
        role_named(value@) is None ==> (r matches Err(m) && m@ == "unknown role: "@ + value@),
{
    if str_eq(value, "admin") {
        Ok(ActorRole::Admin)
    } else if str_eq(value, "developer") {
        Ok(ActorRole::Developer)
    } else if str_eq(value, "readonly") {
        Ok(ActorRole::ReadOnly)
    } else if str_eq(value, "auditor") {
        Ok(ActorRole::Auditor)
    } else {
        Err(message("unknown role: ", value))
    }
}

/// Replaces every `-` by `_`.
fn dashes_to_underscores_exec(s: &str) -> (r: String)
    ensures
        r@ == dashes_to_underscores(s@),
{
    let n = s.unicode_len();
    let mut out = String::new();
    let mut i: usize = 0;
    assert(dashes_to_underscores(s@.subrange(0, 0)) =~= Seq::<char>::empty());
    while i < n
        invariant
            n == s@.len(),
            i <= n,
            out@ == dashes_to_underscores(s@.subrange(0, i as int)),
        decreases n - i,
    {
        let c = s.get_char(i);
        let d = if c == '-' { '_' } else { c };
        let piece = char_to_string(d);
        out.append(piece.as_str());
        assert(s@.subrange(0, i + 1) == s@.subrange(0, i as int).push(c));
        assert(dashes_to_underscores(s@.subrange(0, i + 1)) =~= dashes_to_underscores(
            s@.subrange(0, i as int),
        ).push(d));
        i = i + 1;
    }
    assert(s@.subrange(0, n as int) == s@);
    out
}

/// Reads a service profile name, trimmed, in any case, with `-` read as `_`.
pub fn parse_service_profile(value: &str) -> (r: Option<ServiceProfile>)
    ensures
        r == service_profile_named(value@),
{
    let lowered = normalize(value);
    let n = dashes_to_underscores_exec(lowered.as_str());
    let n = n.as_str();
    if str_eq(n, "generic") {
        Some(ServiceProfile::Generic)
    } else if str_eq(n, "ec2_reaper") {
        Some(ServiceProfile::Ec2Reaper)
    } else if str_eq(n, "datalake_bot") {
        Some(ServiceProfile::DataLakeBot)
    } else if str_eq(n, "logs_shipper") {
        Some(ServiceProfile::LogsShipper)
    } else if str_eq(n, "metrics_collector") {
        Some(ServiceProfile::MetricsCollector)
    } else {
        None
    }
}

/// Reads a service pattern name, trimmed, in any case.
pub fn parse_service_pattern(value: &str) -> (r: Option<ServicePattern>)
    ensures
        r == service_pattern_named(value@),
{
    let n = normalize(value);
    let n = n.as_str();
    if str_eq(n, "constant") {
        Some(ServicePattern::Constant)
    } else if str_eq(n, "diurnal") {
        Some(ServicePattern::Diurnal)
    } else if str_eq(n, "bursty") {
        Some(ServicePattern::Bursty)
    } else {
        None
    }
}

/// Reads a stored hour count back into a `u8`; a negative or too large value is an
/// error naming the field and the value.
pub fn i16_to_u8(value: i16, field: &str) -> (r: Result<u8, String>)
    ensures
        0 <= value <= 255 ==> r == Ok::<u8, String>(value as u8),
        !(0 <= value <= 255) ==> r is Err,
{
    if value < 0 || value > 255 {
        return Err(message("invalid ", field));
    }
    Ok(value as u8)
}

/// The access key id given to an actor stored without one: `ASIA` for an assumed
/// role, else `AKIA`, then the sixteen upper-case hex digits of the standard
/// hasher's digest of `seed`.
pub fn fallback_access_key_id(identity_type: &str, seed: &str) -> (r: String)
    ensures
        r@ == (if identity_type@ == "AssumedRole"@ { "ASIA"@ } else { "AKIA"@ }) + upper_hex_u64(
            parts_hash(seq![seed.spec_bytes()]),
        ),
{
    let h = str_hash(seed);
    let mut out = if str_eq(identity_type, "AssumedRole") {
        owned("ASIA")
    } else {
        owned("AKIA")
    };
    push_upper_hex_u64(&mut out, h);
    out
}

/// Every kind reads back from its column value.
pub proof fn lemma_kind_round_trip(kind: ActorKind)
    ensures
        kind_named(kind_name(kind)) == Some(kind),
{
    reveal_strlit("human");
    reveal_strlit("service");
    assert("human"@.len() != "service"@.len());
}

/// Every role reads back from its column value.
pub proof fn lemma_role_round_trip(role: ActorRole)
    ensures
        role_named(role_name(role)) == Some(role),
{
    reveal_strlit("admin");
    reveal_strlit("developer");
    reveal_strlit("readonly");
    reveal_strlit("auditor");
    assert("admin"@.len() == 5 && "developer"@.len() == 9);
    assert("readonly"@.len() == 8 && "auditor"@.len() == 7);
}

} // verus!
