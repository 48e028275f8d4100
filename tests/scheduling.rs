use std::collections::hash_map::DefaultHasher;
use std::hash::{Hash, Hasher};

use rand::rngs::StdRng;
use rand::SeedableRng;
use seclog::actors::{within_active_window, ActorKind, ActorRole, ActorSeed, ServicePattern};
use seclog::clock::{MS_PER_DAY, MS_PER_HOUR};
use seclog::dispatch::{next_source_index, normalize_writer_shards, normalize_workers, writer_index_for};
use seclog::profile::ActorProfile;
use seclog::schedule::{effective_rate, ActorScheduler, ScheduleQueue};

const SATURDAY_2024_01_06: i64 = 19_728 * MS_PER_DAY;

fn actor(kind: ActorKind, start: u8, hours: u8, weekend_active: bool) -> ActorSeed {
    ActorSeed {
        kind,
        role: if kind == ActorKind::Human { Some(ActorRole::Developer) } else { None },
        id: None,
        identity_type: "IAMUser".to_string(),
        principal_id: "AIDA".to_string(),
        arn: "arn:aws:iam::123456789012:user/dev".to_string(),
        account_id: "123456789012".to_string(),
        access_key_id: "SECRET-REDACTED".to_string(),
        rate_per_hour_milli: 18_000,
        error_rate_ppm: 0,
        tags: vec![],
        event_bias: vec![],
        service_profile: None,
        service_pattern: None,
        user_name: None,
        user_agents: vec!["aws-cli/2.15.0".to_string()],
        source_ips: vec!["10.0.0.1".to_string()],
        active_start_hour: start,
        active_hours: hours,
        timezone_offset: 0,
        timezone_fixed: false,
        weekend_active,
    }
}

fn run(seed: u64, start: i64, actors: Vec<ActorSeed>, count: usize) -> Vec<(i64, usize)> {
    let mut rng = StdRng::seed_from_u64(seed);
    let profiles: Vec<ActorProfile> = actors.into_iter().map(ActorProfile::from_seed).collect();
    let gaps = vec![60_000i64; profiles.len()];
    let mut sched = ActorScheduler::new(profiles, start, &gaps);
    let mut out = Vec::new();
    while out.len() < count {
        let Some(slot) = sched.next_slot(&mut rng, 1_000) else { break };
        out.push(slot);
        sched.finish_slot("GetObject".to_string(), 200_000, &mut rng);
    }
    out
}

#[test]
fn queue_pops_by_time_then_index() {
    let mut q = ScheduleQueue::new(0);
    q.push(30, 1);
    q.push(10, 4);
    q.push(10, 2);
    q.push(20, 0);
    assert_eq!(q.len(), 4);
    assert_eq!(q.pop(), Some((10, 2)));
    assert_eq!(q.pop(), Some((10, 4)));
    assert_eq!(q.pop(), Some((20, 0)));
    assert_eq!(q.pop(), Some((30, 1)));
    assert_eq!(q.pop(), None);
}

#[test]
fn slots_are_in_time_order() {
    let actors: Vec<ActorSeed> = (0..10).map(|_| actor(ActorKind::Human, 8, 10, true)).collect();
    let slots = run(1, SATURDAY_2024_01_06, actors, 500);
    assert_eq!(slots.len(), 500);
    for pair in slots.windows(2) {
        assert!(pair[1].0 >= pair[0].0);
    }
}

#[test]
fn slots_fall_inside_active_windows() {
    let seeds: Vec<ActorSeed> = (0..5).map(|i| actor(ActorKind::Human, 6 + i as u8, 7, false)).collect();
    let slots = run(3, SATURDAY_2024_01_06, seeds.clone(), 300);
    assert!(!slots.is_empty());
    for (t, i) in &slots {
        assert!(within_active_window(&seeds[*i], *t));
        // Nothing happens before Monday.
        assert!(*t >= SATURDAY_2024_01_06 + 2 * MS_PER_DAY);
    }
}

#[test]
fn same_seed_same_slots() {
    let seeds: Vec<ActorSeed> = (0..4).map(|_| actor(ActorKind::Service, 0, 24, true)).collect();
    let a = run(42, SATURDAY_2024_01_06, seeds.clone(), 200);
    let b = run(42, SATURDAY_2024_01_06, seeds, 200);
    assert_eq!(a, b);
}

#[test]
fn effective_rate_shapes_services() {
    let mut rng = StdRng::seed_from_u64(5);
    let human = actor(ActorKind::Human, 0, 24, true);
    assert_eq!(effective_rate(&human, SATURDAY_2024_01_06, &mut rng), 18_000);
    let mut diurnal = actor(ActorKind::Service, 0, 24, true);
    diurnal.service_pattern = Some(ServicePattern::Diurnal);
    diurnal.rate_per_hour_milli = 10_000;
    assert_eq!(effective_rate(&diurnal, SATURDAY_2024_01_06 + 12 * MS_PER_HOUR, &mut rng), 11_000);
    assert_eq!(effective_rate(&diurnal, SATURDAY_2024_01_06 + 8 * MS_PER_HOUR, &mut rng), 7_000);
    assert_eq!(effective_rate(&diurnal, SATURDAY_2024_01_06 + 19 * MS_PER_HOUR, &mut rng), 8_000);
    assert_eq!(effective_rate(&diurnal, SATURDAY_2024_01_06 + 2 * MS_PER_HOUR, &mut rng), 3_500);
    let mut bursty = diurnal.clone();
    bursty.service_pattern = Some(ServicePattern::Bursty);
    for _ in 0..100 {
        let r = effective_rate(&bursty, SATURDAY_2024_01_06, &mut rng);
        assert!((4_000..10_000).contains(&r) || (20_000..50_000).contains(&r));
    }
    let mut slow = human.clone();
    slow.rate_per_hour_milli = 1;
    assert_eq!(effective_rate(&slow, SATURDAY_2024_01_06, &mut rng), 100);
}

fn std_hash(parts: &[&str]) -> u64 {
    let mut h = DefaultHasher::new();
    for p in parts {
        p.hash(&mut h);
    }
    h.finish()
}

#[test]
fn shard_follows_the_key_hash() {
    let expected = (std_hash(&["cloudtrail", "123456789012", "us-east-1"]) % 4) as usize;
    assert_eq!(writer_index_for("cloudtrail", "123456789012", "us-east-1", 4), expected);
    assert_eq!(writer_index_for("cloudtrail", "123456789012", "us-east-1", 1), 0);
    assert_eq!(writer_index_for("cloudtrail", "123456789012", "us-east-1", 0), 0);
}

#[test]
fn one_key_one_shard() {
    let first = writer_index_for("cloudtrail", "111111111111", "eu-west-1", 7);
    for _ in 0..50 {
        assert_eq!(writer_index_for("cloudtrail", "111111111111", "eu-west-1", 7), first);
    }
    assert!(first < 7);
}

#[test]
fn earliest_source_first() {
    assert_eq!(next_source_index(&vec![Some(5), None, Some(3), Some(3)]), Some(2));
    assert_eq!(next_source_index(&vec![None, None]), None);
    assert_eq!(next_source_index(&vec![]), None);
}

#[test]
fn worker_counts() {
    assert_eq!(normalize_writer_shards(0, Some(16)), 4);
    assert_eq!(normalize_writer_shards(0, None), 1);
    assert_eq!(normalize_writer_shards(3, Some(16)), 3);
    assert_eq!(normalize_workers(0, Some(16)), 16);
    assert_eq!(normalize_workers(0, Some(0)), 1);
}
