use rand::rngs::StdRng;
use rand::{Rng, SeedableRng};
use seclog::actors::{ActorKind, ActorRole, ActorSeed, ServiceProfile};
use seclog::candidates::{actor_candidates, developer_candidates, pick_event_for_actor, service_profile_candidates};
use seclog::catalog::{curated_event_weights, resolve_selector, CloudTrailSourceConfig};
use seclog::clock::{MS_PER_DAY, MS_PER_HOUR};
use seclog::profile::ActorProfile;
use seclog::schedule::{ActorScheduler, MAX_GAP_MS};
use seclog::select::pick_weighted_index;
use seclog::sink::JsonlWriter;

const MONDAY_2024_01_08: i64 = 19_730 * MS_PER_DAY;

fn developer(i: usize, weekend_active: bool) -> ActorSeed {
    ActorSeed {
        kind: ActorKind::Human,
        role: Some(ActorRole::Developer),
        id: None,
        identity_type: "IAMUser".to_string(),
        principal_id: format!("AIDA{i:04}"),
        arn: format!("arn:aws:iam::123456789012:user/dev{i}"),
        account_id: "123456789012".to_string(),
        access_key_id: "SECRET-REDACTED".to_string(),
        rate_per_hour_milli: 18_000,
        error_rate_ppm: 0,
        tags: vec![],
        event_bias: vec![],
        service_profile: None,
        service_pattern: None,
        user_name: Some(format!("dev{i}")),
        user_agents: vec!["aws-cli/2.15.0".to_string()],
        source_ips: vec!["10.0.0.1".to_string()],
        active_start_hour: 0,
        active_hours: 24,
        timezone_offset: 0,
        timezone_fixed: false,
        weekend_active,
    }
}

fn gap(rate_milli: u64, rng: &mut StdRng) -> i64 {
    let per_hour = rate_milli as f64 / 1000.0;
    let u: f64 = rng.gen_range(f64::MIN_POSITIVE..1.0);
    (((-u.ln() / (per_hour / 3600.0)) * 1000.0).max(1.0) as i64).min(MAX_GAP_MS)
}

#[test]
fn developers_mostly_use_common_events() {
    let mut rng = StdRng::seed_from_u64(1);
    let config = CloudTrailSourceConfig { curated: true, actor_population_path: None, regions: None, region_distribution: None };
    let selector = resolve_selector(&config).unwrap();
    let base: Vec<(String, u64)> = curated_event_weights().into_iter().map(|e| (e.name, e.weight)).collect();
    let allowed: Vec<String> = base.iter().map(|(n, _)| n.clone()).collect();
    let profiles: Vec<ActorProfile> = (0..10).map(|i| ActorProfile::from_seed(developer(i, true))).collect();
    let gaps: Vec<i64> = profiles.iter().map(|_| gap(18_000, &mut rng)).collect();
    let mut sched = ActorScheduler::new(profiles, MONDAY_2024_01_08, &gaps);
    let mut writer = JsonlWriter::new(1, None, None).unwrap();
    let common = ["ConsoleLogin", "AssumeRole", "GetSessionToken", "PutObject", "GetObject", "DescribeInstances"];
    let mut hits = 0;
    let mut emitted = 0;
    while emitted < 500 {
        let (t, i) = sched.next_slot(&mut rng, 10_000).expect("slot");
        let p = sched.profile(i).clone();
        let name = pick_event_for_actor(&p.seed, &p.last_event, &allowed, &base, &selector, &mut rng);
        if common.contains(&name.as_str()) {
            hits += 1;
        }
        let record = format!(r#"{{"eventName":"{name}","eventTime":{t},"awsRegion":"us-east-1"}}"#);
        assert!(writer.write_record("123456789012", "us-east-1", record.as_bytes(), 0).unwrap().is_none());
        emitted += 1;
        let g = gap(18_000, &mut rng);
        sched.finish_slot(name, g, &mut rng);
    }
    assert_eq!(emitted, 500);
    assert!(hits * 100 >= 80 * 500, "only {hits} of 500 were common events");
    let files = writer.close().unwrap();
    assert_eq!(files.len(), 1);
}

#[test]
fn weekday_actors_idle_over_the_weekend() {
    let saturday = MONDAY_2024_01_08 - 2 * MS_PER_DAY;
    let mut rng = StdRng::seed_from_u64(1);
    let mut seeds: Vec<ActorSeed> = (0..10).map(|i| developer(i, false)).collect();
    for s in &mut seeds {
        s.active_start_hour = 9;
        s.active_hours = 8;
    }
    let profiles: Vec<ActorProfile> = seeds.into_iter().map(ActorProfile::from_seed).collect();
    let gaps = vec![0i64; profiles.len()];
    let mut sched = ActorScheduler::new(profiles, saturday, &gaps);
    let (t, _) = sched.next_slot(&mut rng, 10_000).expect("slot");
    assert!(t >= MONDAY_2024_01_08 + 9 * MS_PER_HOUR);
}

#[test]
fn category_weights_three_to_one() {
    let mut rng = StdRng::seed_from_u64(4);
    let weights = vec![3000u64, 1000];
    let mut signin = 0;
    for _ in 0..10_000 {
        if pick_weighted_index(&weights, &mut rng) == Some(0) {
            signin += 1;
        }
    }
    let share = signin as f64 / 10_000.0;
    assert!((0.72..=0.78).contains(&share), "sign-in share {share}");
}

#[test]
fn candidate_tables() {
    let first: Vec<(String, u64)> = developer_candidates(None);
    assert_eq!(
        first,
        vec![
            ("ConsoleLogin".to_string(), 2600),
            ("GetSessionToken".to_string(), 900),
            ("AssumeRole".to_string(), 1800),
            ("GetCallerIdentity".to_string(), 500),
        ]
    );
    let after_login = developer_candidates(Some("ConsoleLogin"));
    assert_eq!(after_login[1], ("AssumeRole".to_string(), 2400));
    let reaper = service_profile_candidates(Some(ServiceProfile::Ec2Reaper), Some("AssumeRole"));
    assert_eq!(reaper[0], ("DescribeInstances".to_string(), 2000));
    let mut svc = developer(0, true);
    svc.kind = ActorKind::Service;
    svc.role = None;
    assert_eq!(actor_candidates(&svc, None), service_profile_candidates(None, None));
    let mut no_role = developer(0, true);
    no_role.role = None;
    assert_eq!(actor_candidates(&no_role, Some("X")), developer_candidates(Some("X")));
}
