use rand::rngs::StdRng;
use rand::SeedableRng;
use seclog::actors::{apply_hot_actor_rates, pick_timezone_offset, split_population, ActorKind, ActorSeed};
use seclog::catalog::{
    curated_event_weights, resolve_event_weights, resolve_selector, CatalogError, CloudTrailSourceConfig,
    EventSelector, WeightedEvent,
};
use seclog::cloudtrail::error_for_draw;
use seclog::select::{index_for_draw, pick_weighted_event, pick_weighted_index};

#[test]
fn curated_only() {
    let config = CloudTrailSourceConfig {
        curated: true,
        actor_population_path: None,
        regions: None,
        region_distribution: None,
    };

    let resolved = resolve_event_weights(&config).expect("curated events");
    assert!(resolved.iter().any(|event| event.name == "ConsoleLogin"));
}

#[test]
fn no_catalogue_no_events() {
    let config = CloudTrailSourceConfig {
        curated: false,
        actor_population_path: None,
        regions: None,
        region_distribution: None,
    };
    assert_eq!(resolve_event_weights(&config).unwrap_err(), CatalogError::EmptyEventSet);
    assert!(resolve_selector(&config).is_err());
}

#[test]
fn curated_weights() {
    let all = curated_event_weights();
    assert_eq!(all.len(), 31);
    assert_eq!(all[0].name, "ConsoleLogin");
    assert_eq!(all[0].weight, 1000);
    let get = all.iter().find(|e| e.name == "GetObject").unwrap();
    assert_eq!(get.weight, 1600);
}

#[test]
fn selector_rejects_bad_weights() {
    assert_eq!(EventSelector::new(vec![]).err(), Some(CatalogError::EmptyEventSet));
    let bad = vec![
        WeightedEvent { name: "A".to_string(), weight: 5 },
        WeightedEvent { name: "B".to_string(), weight: 0 },
    ];
    assert_eq!(
        EventSelector::new(bad).err(),
        Some(CatalogError::InvalidWeight { name: "B".to_string(), weight: 0 })
    );
}

#[test]
fn selector_draws_known_events() {
    let config = CloudTrailSourceConfig {
        curated: true,
        actor_population_path: None,
        regions: None,
        region_distribution: None,
    };
    let selector = resolve_selector(&config).unwrap();
    let names: Vec<String> = curated_event_weights().into_iter().map(|e| e.name).collect();
    let mut rng = StdRng::seed_from_u64(1);
    for _ in 0..200 {
        let e = selector.pick(&mut rng);
        assert!(names.contains(&e.name));
    }
}

#[test]
fn draws_land_by_cumulative_weight() {
    let w = vec![0u64, 3, 0, 2];
    assert_eq!(index_for_draw(&w, 0), 1);
    assert_eq!(index_for_draw(&w, 2), 1);
    assert_eq!(index_for_draw(&w, 3), 3);
    assert_eq!(index_for_draw(&w, 4), 3);
    let mut rng = StdRng::seed_from_u64(9);
    assert_eq!(pick_weighted_index(&vec![0, 0], &mut rng), None);
    assert_eq!(pick_weighted_index(&vec![], &mut rng), None);
    for _ in 0..50 {
        let i = pick_weighted_index(&w, &mut rng).unwrap();
        assert!(i == 1 || i == 3);
    }
}

#[test]
fn candidates_are_filtered_and_biased() {
    let mut rng = StdRng::seed_from_u64(11);
    let candidates = vec![
        ("ConsoleLogin".to_string(), 2600u64),
        ("GetSessionToken".to_string(), 900),
        ("Forbidden".to_string(), 5000),
    ];
    let allowed = vec!["ConsoleLogin".to_string(), "GetSessionToken".to_string()];
    let base = vec![("ConsoleLogin".to_string(), 1000u64)];
    // The actor never picks GetSessionToken: its bias is zero.
    let bias = vec![("GetSessionToken".to_string(), 0u64)];
    for _ in 0..50 {
        let name = pick_weighted_event(&candidates, &allowed, &base, &bias, &mut rng).unwrap();
        assert_eq!(name, "ConsoleLogin");
    }
    let none_allowed: Vec<String> = vec!["Other".to_string()];
    assert_eq!(pick_weighted_event(&candidates, &none_allowed, &base, &bias, &mut rng), None);
}

#[test]
fn population_split_rounds_services() {
    assert_eq!(split_population(10, 0, 200_000), (10, 8, 2));
    assert_eq!(split_population(0, 0, 500_000), (1, 0, 1));
    assert_eq!(split_population(3, 5, 2_000_000), (5, 0, 5));
    assert_eq!(split_population(7, 0, 0), (7, 7, 0));
    assert_eq!(split_population(5, 0, 100_000), (5, 4, 1));
}

#[test]
fn timezone_offsets() {
    let mut rng = StdRng::seed_from_u64(3);
    let mut seen = [0usize; 3];
    for _ in 0..1000 {
        match pick_timezone_offset(&mut rng) {
            -8 => seen[0] += 1,
            0 => seen[1] += 1,
            8 => seen[2] += 1,
            other => panic!("unexpected offset {other}"),
        }
    }
    assert!(seen[0] > seen[1] && seen[1] > seen[2]);
}

#[test]
fn hot_actors_are_boosted() {
    let seed = ActorSeed {
        kind: ActorKind::Service,
        role: None,
        id: None,
        identity_type: "AssumedRole".to_string(),
        principal_id: "AROA".to_string(),
        arn: "arn".to_string(),
        account_id: "123456789012".to_string(),
        access_key_id: "ASIA".to_string(),
        rate_per_hour_milli: 18_000,
        error_rate_ppm: 0,
        tags: vec![],
        event_bias: vec![],
        service_profile: None,
        service_pattern: None,
        user_name: None,
        user_agents: vec!["ua".to_string()],
        source_ips: vec!["ip".to_string()],
        active_start_hour: 0,
        active_hours: 24,
        timezone_offset: 0,
        timezone_fixed: false,
        weekend_active: true,
    };
    let mut actors = vec![seed; 100];
    let mut rng = StdRng::seed_from_u64(12);
    apply_hot_actor_rates(&mut rng, &mut actors, 100_000, 10_000);
    let hot = actors.iter().filter(|a| a.rate_per_hour_milli == 180_000).count();
    let cold = actors.iter().filter(|a| a.rate_per_hour_milli == 18_000).count();
    assert_eq!((hot, cold), (10, 90));
    let mut none = vec![actors[0].clone(); 4];
    apply_hot_actor_rates(&mut rng, &mut none, 100_000, 10_000);
    assert!(none.iter().all(|a| a.rate_per_hour_milli == actors[0].rate_per_hour_milli));
}

#[test]
fn catalogue_sorted_by_name() {
    let config = CloudTrailSourceConfig { curated: true, actor_population_path: None, regions: None, region_distribution: None };
    let events = resolve_event_weights(&config).unwrap();
    assert_eq!(events.len(), 31);
    for pair in events.windows(2) {
        assert!(pair[0].name < pair[1].name);
    }
    assert_eq!(events[0].name, "AssumeRole");
}

#[test]
fn errors_by_draw() {

    assert!(error_for_draw("ConsoleLogin", 79_999).is_some());
    assert!(error_for_draw("ConsoleLogin", 80_000).is_none());
    assert_eq!(error_for_draw("RunInstances", 0).unwrap().code, "UnauthorizedOperation");
    assert!(error_for_draw("Other", 10_000).is_none());
}
