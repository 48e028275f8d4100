use rand::rngs::StdRng;
use rand::SeedableRng;
use seclog::actors::{ActorKind, ActorSeed};
use seclog::clock::MS_PER_DAY;
use seclog::zones::{apply_timezone_distribution, offset_hours, timezone_offset_for_name};

const SATURDAY_2024_01_06: i64 = 19_728 * MS_PER_DAY;
const JULY_2024_07_01: i64 = 19_905 * MS_PER_DAY;

fn seed(fixed: bool) -> ActorSeed {
    ActorSeed {
        kind: ActorKind::Human,
        role: None,
        id: None,
        identity_type: "IAMUser".to_string(),
        principal_id: "AIDA".to_string(),
        arn: "arn".to_string(),
        account_id: "123456789012".to_string(),
        access_key_id: "AKIA".to_string(),
        rate_per_hour_milli: 18_000,
        error_rate_ppm: 0,
        tags: vec![],
        event_bias: vec![],
        service_profile: None,
        service_pattern: None,
        user_name: None,
        user_agents: vec!["ua".to_string()],
        source_ips: vec!["ip".to_string()],
        active_start_hour: 9,
        active_hours: 8,
        timezone_offset: 3,
        timezone_fixed: fixed,
        weekend_active: false,
    }
}

#[test]
fn rounding_of_offsets() {
    assert_eq!(offset_hours(19_800), 6);
    assert_eq!(offset_hours(-34_200), -10);
    assert_eq!(offset_hours(-28_800), -8);
    assert_eq!(offset_hours(1_799), 0);
}

#[test]
fn named_zones() {
    assert_eq!(timezone_offset_for_name("America/Los_Angeles", SATURDAY_2024_01_06, "a").unwrap(), -8);
    assert_eq!(timezone_offset_for_name(" America/Los_Angeles ", JULY_2024_07_01, "a").unwrap(), -7);
    assert_eq!(timezone_offset_for_name("Europe/London", SATURDAY_2024_01_06, "a").unwrap(), 0);
    assert_eq!(timezone_offset_for_name("Asia/Kolkata", SATURDAY_2024_01_06, "a").unwrap(), 6);
    let err = timezone_offset_for_name("Mars/Olympus", SATURDAY_2024_01_06, "bob").unwrap_err();
    assert_eq!(err.0, "population.actor bob timezone must be a valid IANA name");
}

#[test]
fn redistribution_skips_fixed_actors() {
    let mut actors = vec![seed(false), seed(true), seed(false), seed(false)];
    let zones = vec![
        ("America/Los_Angeles".to_string(), 1000u64),
        ("Asia/Singapore".to_string(), 1000),
        ("Not/AZone".to_string(), 1000),
        ("Europe/London".to_string(), 0),
    ];
    let mut rng = StdRng::seed_from_u64(5);
    apply_timezone_distribution(&mut actors, &zones, SATURDAY_2024_01_06, &mut rng);
    assert_eq!(actors[1].timezone_offset, 3);
    for i in [0, 2, 3] {
        assert!(actors[i].timezone_offset == -8 || actors[i].timezone_offset == 8);
    }
    let mut untouched = vec![seed(false)];
    apply_timezone_distribution(&mut untouched, &vec![("Nowhere".to_string(), 1000)], SATURDAY_2024_01_06, &mut rng);
    assert_eq!(untouched[0].timezone_offset, 3);
}
