use rand::rngs::StdRng;
use rand::SeedableRng;
use seclog::actors::{
    next_active_window_start, validate_account_id, within_active_window, ActorKind, ActorRole,
    ActorSeed, normalize_string_list, parse_actor_kind, parse_actor_role,
};
use seclog::clock::{is_weekend_date, local_day_and_ms, MS_PER_DAY, MS_PER_HOUR, MS_PER_MINUTE};
use seclog::profile::ActorProfile;

/// 2024-01-06T00:00:00Z, a Saturday.
const SATURDAY_2024_01_06: i64 = 19_728 * MS_PER_DAY;

fn seed(start: u8, hours: u8, offset: i8, weekend_active: bool) -> ActorSeed {
    ActorSeed {
        kind: ActorKind::Human,
        role: Some(ActorRole::Developer),
        id: None,
        identity_type: "IAMUser".to_string(),
        principal_id: "AIDA_TEST_001".to_string(),
        arn: "arn:aws:iam::123456789012:user/test".to_string(),
        account_id: "123456789012".to_string(),
        access_key_id: "AKIATEST1234567890".to_string(),
        rate_per_hour_milli: 18_000,
        error_rate_ppm: 30_000,
        tags: vec![],
        event_bias: vec![],
        service_profile: None,
        service_pattern: None,
        user_name: Some("test".to_string()),
        user_agents: vec!["aws-cli/2.15.0".to_string(), "Mozilla/5.0".to_string()],
        source_ips: vec!["10.0.0.1".to_string()],
        active_start_hour: start,
        active_hours: hours,
        timezone_offset: offset,
        timezone_fixed: false,
        weekend_active,
    }
}

#[test]
fn epoch_is_day_zero_thursday() {
    assert_eq!(local_day_and_ms(0, 0), (0, 0));
    assert!(!is_weekend_date(0));
    // 1970-01-03 was a Saturday, 1970-01-05 a Monday.
    assert!(is_weekend_date(2));
    assert!(is_weekend_date(3));
    assert!(!is_weekend_date(4));
}

#[test]
fn local_time_crosses_midnight_with_negative_offset() {
    // 2024-01-06T03:30Z at UTC-8 is 2024-01-05T19:30 local.
    let t = SATURDAY_2024_01_06 + 3 * MS_PER_HOUR + 30 * MS_PER_MINUTE;
    let (day, ms) = local_day_and_ms(t, -8);
    assert_eq!(day, 19_727);
    assert_eq!(ms, 19 * MS_PER_HOUR + 30 * MS_PER_MINUTE);
}

#[test]
fn saturday_is_outside_a_weekday_window() {
    let s = seed(9, 8, 0, false);
    let saturday_ten = SATURDAY_2024_01_06 + 10 * MS_PER_HOUR;
    assert!(is_weekend_date(19_728));
    assert!(!within_active_window(&s, saturday_ten));
    let monday_ten = saturday_ten + 2 * MS_PER_DAY;
    assert!(within_active_window(&s, monday_ten));
    let monday_seventeen = SATURDAY_2024_01_06 + 2 * MS_PER_DAY + 17 * MS_PER_HOUR;
    assert!(!within_active_window(&s, monday_seventeen));
    let weekend_worker = seed(9, 8, 0, true);
    assert!(within_active_window(&weekend_worker, saturday_ten));
}

#[test]
fn wrapping_window_covers_midnight() {
    let s = seed(22, 4, 0, true);
    assert!(within_active_window(&s, SATURDAY_2024_01_06 + MS_PER_HOUR));
    assert!(within_active_window(&s, SATURDAY_2024_01_06 + 23 * MS_PER_HOUR));
    assert!(!within_active_window(&s, SATURDAY_2024_01_06 + 3 * MS_PER_HOUR));
    let always = seed(0, 24, 0, true);
    assert!(within_active_window(&always, SATURDAY_2024_01_06 + 5 * MS_PER_HOUR));
}

#[test]
fn no_activity_until_monday() {
    // Starting on Saturday at midnight UTC, a weekday-only actor first acts on
    // Monday at its start hour.
    let s = seed(9, 8, 0, false);
    let next = next_active_window_start(&s, SATURDAY_2024_01_06);
    assert_eq!(next, SATURDAY_2024_01_06 + 2 * MS_PER_DAY + 9 * MS_PER_HOUR);
    // At UTC-8 the Monday 09:00 local start is 17:00 UTC.
    let west = seed(9, 8, -8, false);
    let next_west = next_active_window_start(&west, SATURDAY_2024_01_06);
    assert_eq!(next_west, SATURDAY_2024_01_06 + 2 * MS_PER_DAY + 17 * MS_PER_HOUR);
}

#[test]
fn window_start_later_today() {
    let s = seed(9, 8, 0, true);
    let next = next_active_window_start(&s, SATURDAY_2024_01_06 + 5 * MS_PER_HOUR);
    assert_eq!(next, SATURDAY_2024_01_06 + 9 * MS_PER_HOUR);
    let after = next_active_window_start(&s, SATURDAY_2024_01_06 + 9 * MS_PER_HOUR);
    assert_eq!(after, SATURDAY_2024_01_06 + MS_PER_DAY + 9 * MS_PER_HOUR);
}

#[test]
fn next_available_respects_window_and_cooldown() {
    let mut p = ActorProfile::from_seed(seed(9, 8, 0, false));
    let monday_ten = SATURDAY_2024_01_06 + 2 * MS_PER_DAY + 10 * MS_PER_HOUR;
    assert_eq!(p.next_available_at(monday_ten), monday_ten);
    p.next_session_at = Some(monday_ten + 30 * MS_PER_MINUTE);
    assert_eq!(p.next_available_at(monday_ten), monday_ten + 30 * MS_PER_MINUTE);
    p.next_session_at = Some(monday_ten + 8 * MS_PER_HOUR);
    assert_eq!(p.next_available_at(monday_ten), monday_ten + MS_PER_DAY - MS_PER_HOUR);
}

#[test]
fn session_lifecycle() {
    let mut rng = StdRng::seed_from_u64(7);
    let mut p = ActorProfile::from_seed(seed(0, 24, 0, true));
    let now = SATURDAY_2024_01_06;
    assert!(p.is_available(now, &mut rng));
    p.ensure_session(now, &mut rng);
    let end = p.session_end_at.expect("session opened");
    assert!(end >= now + 20 * MS_PER_MINUTE && end < now + 120 * MS_PER_MINUTE);
    assert!(p.session_remaining >= 3 && p.session_remaining < 10);
    let ua = p.session_user_agent.clone().expect("sticky user agent");
    assert!(ua == "aws-cli/2.15.0" || ua == "Mozilla/5.0");
    assert_eq!(p.session_source_ip.as_deref(), Some("10.0.0.1"));
    assert_eq!(p.current_user_agent(&mut rng), ua);
    let before = p.session_remaining;
    p.consume_session(&mut rng);
    assert_eq!(p.session_remaining, before - 1);
    // Once the session is over the actor cools down.
    assert!(!p.is_available(end, &mut rng));
    assert!(p.session_end_at.is_none());
    assert_eq!(p.session_remaining, 0);
    let next = p.next_session_at.expect("cooldown");
    assert!(next >= end + 30 * MS_PER_MINUTE && next < end + 180 * MS_PER_MINUTE);
    assert!(p.is_available(next, &mut rng));
}

#[test]
fn account_id_validation() {
    let ok = validate_account_id(" 123456789012 ", "alice").unwrap();
    assert_eq!(ok, "123456789012");
    let err = validate_account_id("12345", "alice").unwrap_err();
    assert_eq!(err.0, "population.actor alice account_id must be a 12-digit string");
    assert!(validate_account_id("12345678901a", "bob").is_err());
}

#[test]
fn explicit_kind_and_role() {
    assert_eq!(parse_actor_kind(" Human ", "a").unwrap(), ActorKind::Human);
    assert_eq!(parse_actor_kind("SERVICE", "a").unwrap(), ActorKind::Service);
    let err = parse_actor_kind("robot", "a").unwrap_err();
    assert_eq!(err.0, "population.actor a has invalid kind: robot");
    assert_eq!(parse_actor_role("ReadOnly", "b").unwrap(), ActorRole::ReadOnly);
    let err = parse_actor_role("root", "b").unwrap_err();
    assert_eq!(err.0, "population.actor b has invalid role: root");
}

#[test]
fn string_lists_are_trimmed() {
    let list = vec![" a ".to_string(), "  ".to_string(), "b".to_string()];
    assert_eq!(normalize_string_list(&list, "x", "user_agents").unwrap(), vec!["a", "b"]);
    let err = normalize_string_list(&vec![" ".to_string()], "x", "source_ips").unwrap_err();
    assert_eq!(err.0, "population.actor x source_ips must contain at least one value");
}
