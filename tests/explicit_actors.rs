use seclog::actors::{ActorKind, ActorRole, ActorSeed, ServicePattern, ServiceProfile};
use seclog::clock::MS_PER_DAY;
use seclog::config::ServicePatternConfig;
use seclog::explicit::{
    apply_explicit_actor, check_explicit_actor, normalize_event_bias, normalize_tags, validate_explicit_actors,
    ExplicitActorConfig,
};

const START: i64 = 19_728 * MS_PER_DAY;

fn human(id: &str) -> ExplicitActorConfig {
    ExplicitActorConfig {
        id: id.to_string(),
        kind: "human".to_string(),
        role: Some("admin".to_string()),
        service_profile: None,
        service_pattern: None,
        events_per_hour: Some(12_000),
        error_rate: None,
        account_id: None,
        user_name: Some("alice".to_string()),
        principal_id: None,
        arn: None,
        access_key_id: None,
        identity_type: None,
        timezone: Some("America/Los_Angeles".to_string()),
        active_start_hour: Some(8),
        active_hours: Some(9),
        weekend_active: Some(false),
        user_agents: Some(vec![" curl/8.0 ".to_string(), "".to_string()]),
        source_ips: None,
        tags: vec![" b".to_string(), "a".to_string(), "b ".to_string(), " ".to_string()],
        event_bias: vec![(" ConsoleLogin ".to_string(), 2_000), ("PutObject".to_string(), 0)],
    }
}

fn service(id: &str) -> ExplicitActorConfig {
    ExplicitActorConfig {
        id: id.to_string(),
        kind: "Service".to_string(),
        role: None,
        service_profile: Some("logs-shipper".to_string()),
        service_pattern: Some(ServicePatternConfig::Diurnal),
        events_per_hour: Some(30_000),
        error_rate: Some(5_000),
        account_id: Some("123456789012".to_string()),
        user_name: None,
        principal_id: None,
        arn: None,
        access_key_id: None,
        identity_type: None,
        timezone: None,
        active_start_hour: None,
        active_hours: None,
        weekend_active: None,
        user_agents: None,
        source_ips: None,
        tags: vec![],
        event_bias: vec![],
    }
}

fn error_of(entries: Vec<ExplicitActorConfig>) -> String {
    validate_explicit_actors(&entries, START).err().expect("an error").0
}

#[test]
fn valid_actors_pass() {
    let v = validate_explicit_actors(&vec![human(" alice "), service("shipper")], START).unwrap();
    assert_eq!(v.len(), 2);
    assert_eq!(v[0].id, "alice");
    assert_eq!(v[0].kind, ActorKind::Human);
    assert_eq!(v[0].role, Some(ActorRole::Admin));
    assert_eq!(v[0].timezone_offset, Some(-8));
    assert_eq!(v[0].user_agents, Some(vec!["curl/8.0".to_string()]));
    assert_eq!(v[0].tags, vec!["a".to_string(), "b".to_string()]);
    assert_eq!(v[1].service_profile, Some(ServiceProfile::LogsShipper));
    assert_eq!(v[1].service_pattern, ServicePattern::Diurnal);
    assert_eq!(v[1].account_id.as_deref(), Some("123456789012"));
}

#[test]
fn first_error_is_reported() {
    assert_eq!(error_of(vec![human(" ")]), "population.actor id must be non-empty");
    assert_eq!(error_of(vec![human("a"), human(" a")]), "population.actor id is duplicated: a");
    let mut e = human("a");
    e.kind = "robot".to_string();
    assert_eq!(error_of(vec![e]), "population.actor a has invalid kind: robot");
    let mut e = human("a");
    e.events_per_hour = None;
    assert_eq!(error_of(vec![e]), "population.actor a is missing events_per_hour");
    let mut e = human("a");
    e.events_per_hour = Some(0);
    assert_eq!(error_of(vec![e]), "population.actor a events_per_hour must be > 0");
    let mut e = human("a");
    e.error_rate = Some(1_000_001);
    assert_eq!(error_of(vec![e]), "population.actor a error_rate must be between 0.0 and 1.0");
    let mut e = human("a");
    e.account_id = Some("12".to_string());
    assert_eq!(error_of(vec![e]), "population.actor a account_id must be a 12-digit string");
    let mut e = human("a");
    e.service_profile = Some("generic".to_string());
    assert_eq!(error_of(vec![e]), "population.actor a is human but service_profile is set");
    let mut e = human("a");
    e.role = None;
    assert_eq!(error_of(vec![e]), "population.actor a is human but role is missing");
    let mut e = human("a");
    e.role = Some("Root".to_string());
    assert_eq!(error_of(vec![e]), "population.actor a has invalid role: root");
    let mut e = service("s");
    e.role = Some("admin".to_string());
    assert_eq!(error_of(vec![e]), "population.actor s is service but role is set");
    let mut e = service("s");
    e.user_name = Some("bot".to_string());
    assert_eq!(error_of(vec![e]), "population.actor s is service but user_name is set");
    let mut e = service("s");
    e.service_profile = None;
    assert_eq!(error_of(vec![e]), "population.actor s is service but service_profile is missing");
    let mut e = service("s");
    e.service_profile = Some("miner".to_string());
    assert_eq!(error_of(vec![e]), "population.actor s has invalid service_profile: miner");
    let mut e = human("a");
    e.user_agents = Some(vec![" ".to_string()]);
    assert_eq!(error_of(vec![e]), "population.actor a user_agents must contain at least one value");
    let mut e = human("a");
    e.source_ips = Some(vec![]);
    assert_eq!(error_of(vec![e]), "population.actor a source_ips must contain at least one value");
    let mut e = human("a");
    e.active_start_hour = Some(24);
    assert_eq!(error_of(vec![e]), "population.actor a active_start_hour must be 0-23");
    let mut e = human("a");
    e.active_hours = Some(0);
    assert_eq!(error_of(vec![e]), "population.actor a active_hours must be 1-24");
    let mut e = human("a");
    e.timezone = Some("Atlantis/Capital".to_string());
    assert_eq!(error_of(vec![e]), "population.actor a timezone must be a valid IANA name");
}

#[test]
fn duplicates_tracked_across_checks() {
    let mut seen = Vec::new();
    assert!(check_explicit_actor(&human("x"), &mut seen, START).is_ok());
    assert_eq!(seen, vec!["x".to_string()]);
    assert!(check_explicit_actor(&human("x"), &mut seen, START).is_err());
}

#[test]
fn tags_and_bias() {
    let tags = vec![" t1".to_string(), "t2".to_string(), "t1 ".to_string(), "".to_string()];
    assert_eq!(normalize_tags(&tags), vec!["t1".to_string(), "t2".to_string()]);
    let bias = vec![(" A ".to_string(), 5u64), ("B".to_string(), 0), (" ".to_string(), 7)];
    assert_eq!(normalize_event_bias(&bias), vec![("A".to_string(), 5)]);
}

#[test]
fn overlay_on_a_seed() {
    let entry = human("alice");
    let actor = validate_explicit_actors(&vec![entry.clone()], START).unwrap().remove(0);
    let mut seed = ActorSeed {
        kind: ActorKind::Human,
        role: Some(ActorRole::Admin),
        id: None,
        identity_type: "IAMUser".to_string(),
        principal_id: "AIDA".to_string(),
        arn: "arn:aws:iam::111111111111:user/old".to_string(),
        account_id: "111111111111".to_string(),
        access_key_id: "AKIA1".to_string(),
        rate_per_hour_milli: 1,
        error_rate_ppm: 0,
        tags: vec![],
        event_bias: vec![],
        service_profile: None,
        service_pattern: None,
        user_name: None,
        user_agents: vec!["ua".to_string()],
        source_ips: vec!["ip".to_string()],
        active_start_hour: 0,
        active_hours: 24,
        timezone_offset: 0,
        timezone_fixed: false,
        weekend_active: true,
    };
    apply_explicit_actor(&mut seed, &actor, &entry);
    assert_eq!(seed.id.as_deref(), Some("alice"));
    assert_eq!(seed.rate_per_hour_milli, 12_000);
    assert_eq!(seed.user_name.as_deref(), Some("alice"));
    assert_eq!(seed.arn, "arn:aws:iam::111111111111:user/alice");
    assert_eq!((seed.active_start_hour, seed.active_hours, seed.weekend_active), (8, 9, false));
    assert_eq!((seed.timezone_offset, seed.timezone_fixed), (-8, true));
    assert_eq!(seed.user_agents, vec!["curl/8.0".to_string()]);
    assert_eq!(seed.source_ips, vec!["ip".to_string()]);
    assert_eq!(seed.event_bias, vec![("ConsoleLogin".to_string(), 2_000)]);
}
