use rand::rngs::StdRng;
use rand::SeedableRng;
use seclog::actors::{ActorKind, ActorSeed, ServiceProfile};
use seclog::catalog::WeightedEvent;
use seclog::entra::{
    client_app_used, curated_audit_events, curated_signin_events, device_detail, pick_weighted_event,
    service_app_display_name, weights_for_categories, CategorySelector,
};
use seclog::text::contains_str;
use seclog::entra::{build_signin_record, sign_in_outcome, sign_in_outcome_for, EntraActorContext};

fn service(profile: Option<ServiceProfile>) -> ActorSeed {
    ActorSeed {
        kind: ActorKind::Service,
        role: None,
        id: None,
        identity_type: "AssumedRole".to_string(),
        principal_id: "AROA".to_string(),
        arn: "arn:aws:sts::123456789012:assumed-role/bot/s".to_string(),
        account_id: "123456789012".to_string(),
        access_key_id: "SECRET-REDACTED".to_string(),
        rate_per_hour_milli: 6_000,
        error_rate_ppm: 10_000,
        tags: vec![],
        event_bias: vec![],
        service_profile: profile,
        service_pattern: None,
        user_name: None,
        user_agents: vec!["aws-sdk-go-v2/1.24.0".to_string()],
        source_ips: vec!["10.1.1.1".to_string()],
        active_start_hour: 0,
        active_hours: 24,
        timezone_offset: 0,
        timezone_fixed: false,
        weekend_active: true,
    }
}

#[test]
fn substring_search() {
    assert!(contains_str("Mozilla/5.0 (iPhone; CPU iPhone OS 17_0)", "iPhone"));
    assert!(contains_str("abc", ""));
    assert!(!contains_str("abc", "abcd"));
    assert!(!contains_str("Chrome", "Chrome/"));
    assert!(contains_str("x Chrome/120", "Chrome/"));
}

#[test]
fn app_names() {
    assert_eq!(service_app_display_name(&service(Some(ServiceProfile::LogsShipper))), "Logs Shipper");
    assert_eq!(service_app_display_name(&service(None)), "Service Principal");
    let mut human = service(None);
    human.kind = ActorKind::Human;
    assert_eq!(service_app_display_name(&human), "Microsoft 365");
}

#[test]
fn client_apps() {
    let mut rng = StdRng::seed_from_u64(2);
    assert_eq!(client_app_used("Mozilla/5.0", true, "RefreshToken", &mut rng), "Other clients");
    assert_eq!(client_app_used("Mozilla/5.0", false, "SignIn", &mut rng), "Other clients");
    assert_eq!(client_app_used("Mozilla/5.0 (iPhone)", true, "SignIn", &mut rng), "MobileAppsAndDesktopClients");
    let app = client_app_used("Mozilla/5.0 (Windows NT 10.0)", true, "SignIn", &mut rng);
    assert!(app == "Browser" || app == "Exchange ActiveSync");
}

#[test]
fn devices_from_user_agents() {
    let mut rng = StdRng::seed_from_u64(8);
    let d = device_detail("Mozilla/5.0 (Windows NT 10.0; Win64; x64) Chrome/120.0 Safari/537.36", &mut rng);
    assert_eq!(d.operating_system, "Windows");
    assert_eq!(d.browser, "Chrome");
    assert_eq!(d.display_name, "Windows Desktop");
    assert_eq!(d.device_id.len(), 36);
    assert!(d.is_managed.is_some());
    if d.is_managed == Some(true) {
        assert_eq!(d.trust_type.as_deref(), Some("AzureAD"));
    }
    let mac = device_detail("Mozilla/5.0 (Macintosh; Intel Mac OS X 14_2) Version/17.2 Safari/605.1.15", &mut rng);
    assert_eq!((mac.operating_system.as_str(), mac.browser.as_str()), ("macOS", "Safari"));
    let other = device_detail("curl/8.0", &mut rng);
    assert_eq!((other.operating_system.as_str(), other.display_name.as_str()), ("Unknown", "Unknown Device"));
}

#[test]
fn category_weights() {
    assert_eq!(weights_for_categories(2, None), vec![1000, 1000]);
    assert_eq!(weights_for_categories(2, Some(&vec![3000, 0])), vec![3000, 1000]);
    assert_eq!(weights_for_categories(2, Some(&vec![3000])), vec![1000, 1000]);
}

#[test]
fn category_selector() {
    let mut rng = StdRng::seed_from_u64(4);
    let sel = CategorySelector::from_config(None, None).unwrap();
    for _ in 0..20 {
        let c = sel.pick(&mut rng);
        assert!(c == "signin" || c == "audit");
    }
    let cats = vec![" SignIn ".to_string(), "".to_string(), "AUDIT".to_string()];
    let sel = CategorySelector::from_config(Some(&cats), Some(&vec![3000, 1000])).unwrap();
    let mut signin = 0;
    for _ in 0..10_000 {
        if sel.pick(&mut rng) == "signin" {
            signin += 1;
        }
    }
    let share = signin as f64 / 10_000.0;
    assert!((0.72..=0.78).contains(&share), "sign-in share {share}");
    assert!(CategorySelector::from_config(Some(&vec![" ".to_string()]), None).is_err());
}

#[test]
fn entra_catalogues() {
    let s = curated_signin_events();
    assert_eq!(s.iter().map(|e| e.name.as_str()).collect::<Vec<_>>(), vec!["SignIn", "RefreshToken", "DeviceCode"]);
    let a = curated_audit_events();
    assert_eq!(a.len(), 8);
    assert_eq!((a[1].name.as_str(), a[1].weight), ("UpdateUser", 1200));
}

#[test]
fn biased_entra_pick() {
    let mut rng = StdRng::seed_from_u64(6);
    let events = vec![
        WeightedEvent { name: "SignIn".to_string(), weight: 0 },
        WeightedEvent { name: "DeviceCode".to_string(), weight: 200 },
    ];
    for _ in 0..20 {
        assert_eq!(pick_weighted_event(&mut rng, &events, &vec![]).as_deref(), Some("DeviceCode"));
    }
    let none = vec![WeightedEvent { name: "SignIn".to_string(), weight: 0 }];
    assert_eq!(pick_weighted_event(&mut rng, &none, &vec![]), None);
    let all = curated_signin_events();
    let bias = vec![("SignIn".to_string(), 1_000_000u64)];
    let mut signin = 0;
    for _ in 0..1000 {
        if pick_weighted_event(&mut rng, &all, &bias).as_deref() == Some("SignIn") {
            signin += 1;
        }
    }
    assert!(signin > 990);
}

#[test]
fn sign_in_outcomes_follow_the_rate() {

    let mut rng = StdRng::seed_from_u64(21);
    for _ in 0..50 {
        assert!(sign_in_outcome(1_000_000, &mut rng).failure);
        assert!(!sign_in_outcome(0, &mut rng).failure);
    }
    let o = sign_in_outcome_for(true, 1, false, true, true);
    assert_eq!(o.status.error_code, 50053);
    assert_eq!(o.status.failure_reason.as_deref(), Some("Account is locked"));
    assert_eq!((o.risk_detail.as_str(), o.risk_level.as_str(), o.risk_state.as_str()), ("unfamiliarFeatures", "medium", "atRisk"));
    let ok = sign_in_outcome_for(false, 0, true, false, false);
    assert_eq!((ok.status.error_code, ok.conditional_access_status.as_str()), (0, "notApplied"));
    let ctx = EntraActorContext {
        kind: ActorKind::Human,
        tenant_id: "t".to_string(),
        tenant_domain: "contoso.com".to_string(),
        user_principal_name: Some("a@contoso.com".to_string()),
        user_display_name: Some("a".to_string()),
        user_id: None,
        app_id: "app".to_string(),
        app_display_name: "Microsoft 365".to_string(),
        service_principal_id: "sp".to_string(),
        service_principal_name: "spn".to_string(),
        ip_address: "10.0.0.9".to_string(),
        user_agent: "Mozilla/5.0 (Windows NT 10.0) Chrome/120".to_string(),
        timezone_offset: -8,
        is_interactive: true,
    };
    let r = build_signin_record(&ctx, "2024-01-06T00:00:00.000Z", 1_000_000, "SignIn", &mut rng);
    assert_eq!(r.created_date_time, "2024-01-06T00:00:00.000Z");
    assert_eq!(r.ip_address, "10.0.0.9");
    assert_eq!(r.risk_level_aggregated, r.risk_level_during_sign_in);
    assert_ne!(r.status.error_code, 0);
    assert_eq!(r.conditional_access_status, "failure");
    assert_eq!(r.location.city, "Seattle");
    assert_eq!(r.device_detail.operating_system, "Windows");
}
