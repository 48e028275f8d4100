use rand::rngs::StdRng;
use rand::SeedableRng;
use seclog::actors::{ActorRole, ServicePattern, ServiceProfile};
use seclog::roles::{
    build_role_config, pick_account_id, pick_human_role, pick_service_profile, RoleConfig, RoleRates,
    ServiceProfileSpec,
};

#[test]
fn default_rates() {
    let r = RoleRates::default();
    assert_eq!(r.for_role(&ActorRole::Admin), 24_000);
    assert_eq!(r.for_role(&ActorRole::Developer), 18_000);
    assert_eq!(r.for_role(&ActorRole::ReadOnly), 8_000);
    assert_eq!(r.for_role(&ActorRole::Auditor), 6_000);
}

#[test]
fn role_config_overrides() {
    let (w, r) = build_role_config(None);
    assert_eq!(w, vec![(ActorRole::Admin, 150), (ActorRole::Developer, 550), (ActorRole::ReadOnly, 250), (ActorRole::Auditor, 50)]);
    assert_eq!(r, RoleRates::default());
    let entries = vec![
        RoleConfig { name: "admin".to_string(), weight: 900, events_per_hour: 0 },
        RoleConfig { name: "auditor".to_string(), weight: 0, events_per_hour: 2_000 },
        RoleConfig { name: "root".to_string(), weight: 5_000, events_per_hour: 5_000 },
    ];
    let (w, r) = build_role_config(Some(&entries));
    assert_eq!(w[0], (ActorRole::Admin, 900));
    assert_eq!(w[3], (ActorRole::Auditor, 50));
    assert_eq!(r.admin, 24_000);
    assert_eq!(r.auditor, 2_000);
}

#[test]
fn role_draws() {
    let mut rng = StdRng::seed_from_u64(1);
    assert_eq!(pick_human_role(&mut rng, &vec![]), ActorRole::Developer);
    assert_eq!(pick_human_role(&mut rng, &vec![(ActorRole::Admin, 0)]), ActorRole::Developer);
    for _ in 0..20 {
        assert_eq!(pick_human_role(&mut rng, &vec![(ActorRole::Admin, 0), (ActorRole::Auditor, 10)]), ActorRole::Auditor);
    }
}

#[test]
fn service_profile_draws() {
    let mut rng = StdRng::seed_from_u64(2);
    let fallback = pick_service_profile(&mut rng, &vec![], 50);
    assert_eq!(fallback, ServiceProfileSpec { profile: ServiceProfile::Generic, weight: 1000, rate_per_hour: 100, pattern: ServicePattern::Constant });
    let reaper = ServiceProfileSpec { profile: ServiceProfile::Ec2Reaper, weight: 0, rate_per_hour: 4_000, pattern: ServicePattern::Bursty };
    let bot = ServiceProfileSpec { profile: ServiceProfile::DataLakeBot, weight: 500, rate_per_hour: 9_000, pattern: ServicePattern::Diurnal };
    for _ in 0..20 {
        assert_eq!(pick_service_profile(&mut rng, &vec![reaper, bot], 6_000), bot);
    }
    assert_eq!(pick_service_profile(&mut rng, &vec![reaper], 6_000), reaper);
}

#[test]
fn account_draws() {
    let mut rng = StdRng::seed_from_u64(3);
    assert_eq!(pick_account_id(&mut rng, &vec![]), "000000000000");
    let pool = vec!["111111111111".to_string(), "222222222222".to_string()];
    for _ in 0..10 {
        assert!(pool.contains(&pick_account_id(&mut rng, &pool)));
    }
}
