use std::collections::hash_map::DefaultHasher;
use std::hash::{Hash, Hasher};
use std::io::Read;

use rand::SeedableRng;

use seclog::actors::{normalize_profile_name, ActorKind, ActorRole, ServicePattern, ServiceProfile};
use seclog::cloudtrail::{default_error_profile, event_source_for, event_type_for, read_only_for, tls_details_for};
use seclog::codec::{
    fallback_access_key_id, i16_to_u8, kind_to_str, parse_kind, parse_role, parse_service_pattern,
    parse_service_profile, role_to_str, service_pattern_to_str, service_profile_to_str,
};
use seclog::entra::{audit_additional_details, audit_category, audit_operation};
use seclog::event::{outcome_to_str, Outcome};
use seclog::guid::{guid_from_bytes, stable_guid};
use seclog::sink::{build_file_name, parse_compression, JsonlCompression, JsonlWriter, RegionBuffer, SinkError, MIB};

#[test]
fn region_buffer_frames_records() {
    let mut b = RegionBuffer::new();
    assert_eq!(b.take_file(), None);
    b.append_record(br#"{"a":1}"#);
    assert_eq!(b.current_size(), 12 + 7 + 2);
    b.append_record(br#"{"b":2}"#);
    assert_eq!(b.record_count(), 2);
    let file = b.take_file().unwrap();
    assert_eq!(file, br#"{"Records":[{"a":1},{"b":2}]}"#.to_vec());
    assert_eq!(b.current_size(), 0);
}

fn record(i: usize) -> Vec<u8> {
    format!(r#"{{"eventID":"{i:08}","eventName":"GetObject","awsRegion":"us-east-1","padding":"{}"}}"#, "x".repeat(i % 97)).into_bytes()
}

#[test]
fn rotation_keeps_files_near_target() {
    let mut w = JsonlWriter::new(1, None, None).unwrap();
    assert_eq!(w.target_size_bytes(), MIB);
    let mut files = Vec::new();
    let mut largest_record = 0;
    for i in 0..50_000 {
        let region = if i % 3 == 0 { "us-east-1" } else { "eu-west-1" };
        let r = record(i);
        largest_record = largest_record.max(r.len());
        if let Some(f) = w.write_record("123456789012", region, &r, 0).unwrap() {
            files.push(f);
        }
    }
    files.extend(w.close().unwrap());
    assert!(files.len() > 2);
    let mut total = 0;
    for f in &files {
        assert!(f.bytes.len() as u64 <= MIB + largest_record as u64);
        let v: serde_json::Value = serde_json::from_slice(&f.bytes).unwrap();
        let obj = v.as_object().unwrap();
        assert_eq!(obj.len(), 1);
        let records = obj.get("Records").unwrap().as_array().unwrap();
        for r in records {
            assert_eq!(r.get("awsRegion").and_then(|x| x.as_str()), Some("us-east-1"));
        }
        total += records.len();
    }
    assert_eq!(total, 50_000);
    assert!(w.close().unwrap().is_empty());
}

#[test]
fn flush_waits_for_max_age() {
    let mut w = JsonlWriter::new(1, Some(60), None).unwrap();
    assert!(w.write_record("123456789012", "us-east-1", br#"{"x":1}"#, 1_000).unwrap().is_none());
    assert!(w.flush(30_000).unwrap().is_empty());
    let files = w.flush(61_000).unwrap();
    assert_eq!(files.len(), 1);
    assert_eq!(files[0].bytes, br#"{"Records":[{"x":1}]}"#.to_vec());
    assert_eq!(files[0].account_id, "123456789012");
    assert_eq!(files[0].region, "us-east-1");
    let mut plain = JsonlWriter::new(1, None, None).unwrap();
    plain.write_record("1", "r", b"{}", 0).unwrap();
    assert_eq!(plain.flush(0).unwrap().len(), 1);
}

#[test]
fn gzip_files_decode_to_the_records() {
    let mut w = JsonlWriter::new(1, None, Some(" GZIP ")).unwrap();
    w.write_record("123456789012", "us-east-1", br#"{"x":1}"#, 0).unwrap();
    let files = w.close().unwrap();
    assert_eq!(files.len(), 1);
    assert_eq!(&files[0].bytes[..2], &[0x1f, 0x8b]);
    let mut out = Vec::new();
    flate2::read::GzDecoder::new(&files[0].bytes[..]).read_to_end(&mut out).unwrap();
    assert_eq!(out, br#"{"Records":[{"x":1}]}"#.to_vec());
}

#[test]
fn compression_settings() {
    assert_eq!(parse_compression(None), Ok(JsonlCompression::Plain));
    assert_eq!(parse_compression(Some("  ")), Ok(JsonlCompression::Plain));
    assert_eq!(parse_compression(Some("gz")), Ok(JsonlCompression::Gzip));
    assert_eq!(parse_compression(Some("Gzip")), Ok(JsonlCompression::Gzip));
    assert_eq!(parse_compression(Some("zstd")), Err(SinkError::UnsupportedCompression("zstd".to_string())));
    assert!(JsonlWriter::new(1, None, Some("brotli")).is_err());
}

#[test]
fn file_names() {
    assert_eq!(
        build_file_name("123456789012", "us-east-1", "20240101T0000Z", "abcdefgh12345678", "json", None),
        "123456789012_CloudTrail_us-east-1_20240101T0000Z_abcdefgh12345678.json"
    );
    assert_eq!(
        build_file_name("t", "global", "s", "u", "parquet", Some("entra")),
        "entra_t_global_s_u.parquet"
    );
    assert_eq!(build_file_name("t", "r", "s", "u", "json", Some(" ")), "t_CloudTrail_r_s_u.json");
}

#[test]
fn enum_names_round_trip() {
    for k in [ActorKind::Human, ActorKind::Service] {
        assert_eq!(parse_kind(kind_to_str(&k)).unwrap(), k);
    }
    for r in [ActorRole::Admin, ActorRole::Developer, ActorRole::ReadOnly, ActorRole::Auditor] {
        assert_eq!(parse_role(role_to_str(&r)).unwrap(), r);
    }
    for p in [
        ServiceProfile::Generic,
        ServiceProfile::Ec2Reaper,
        ServiceProfile::DataLakeBot,
        ServiceProfile::LogsShipper,
        ServiceProfile::MetricsCollector,
    ] {
        assert_eq!(parse_service_profile(service_profile_to_str(&p)), Some(p));
    }
    for p in [ServicePattern::Constant, ServicePattern::Diurnal, ServicePattern::Bursty] {
        assert_eq!(parse_service_pattern(service_pattern_to_str(&p)), Some(p));
    }
    assert_eq!(parse_kind("Human").unwrap_err(), "unknown actor_kind: Human");
    assert_eq!(parse_role("root").unwrap_err(), "unknown role: root");
    assert_eq!(normalize_profile_name(" Ec2-Reaper "), Some(ServiceProfile::Ec2Reaper));
    assert_eq!(parse_service_pattern(" BURSTY"), Some(ServicePattern::Bursty));
    assert_eq!(parse_service_pattern("spiky"), None);
}

#[test]
fn hour_columns() {
    assert_eq!(i16_to_u8(23, "active_hours"), Ok(23));
    assert!(i16_to_u8(-1, "active_hours").is_err());
    assert!(i16_to_u8(256, "active_start_hour").is_err());
}

#[test]
fn fallback_key_is_hash_of_seed() {
    let mut h = DefaultHasher::new();
    "arn:aws:iam::1:role/x".hash(&mut h);
    let digest = h.finish();
    assert_eq!(fallback_access_key_id("AssumedRole", "arn:aws:iam::1:role/x"), format!("ASIA{digest:016X}"));
    assert_eq!(fallback_access_key_id("IAMUser", "arn:aws:iam::1:role/x"), format!("AKIA{digest:016X}"));
}

#[test]
fn guids() {
    let g = guid_from_bytes([0x01, 0x23, 0x45, 0x67, 0x89, 0xab, 0xcd, 0xef], [0xfe, 0xdc, 0xba, 0x98, 0x76, 0x54, 0x32, 0x10]);
    assert_eq!(g, "01234567-89ab-cdef-fedc-ba9876543210");
    let mut h1 = DefaultHasher::new();
    "user@contoso".hash(&mut h1);
    "device".hash(&mut h1);
    let mut h2 = DefaultHasher::new();
    "device".hash(&mut h2);
    "user@contoso".hash(&mut h2);
    let expected = guid_from_bytes(h1.finish().to_be_bytes(), h2.finish().to_be_bytes());
    assert_eq!(stable_guid("user@contoso", "device"), expected);
    assert_eq!(stable_guid("user@contoso", "device"), stable_guid("user@contoso", "device"));
}

#[test]
fn cloudtrail_lookups() {
    assert_eq!(event_type_for("ConsoleLogin"), "AwsConsoleSignIn");
    assert_eq!(event_type_for("PutObject"), "AwsApiCall");
    assert_eq!(event_source_for("ConsoleLogin"), "signin.amazonaws.com");
    assert_eq!(event_source_for("AssumeRole"), "sts.amazonaws.com");
    assert_eq!(event_source_for("GetObject"), "s3.amazonaws.com");
    assert_eq!(event_source_for("RunInstances"), "ec2.amazonaws.com");
    assert_eq!(event_source_for("CreateRole"), "iam.amazonaws.com");
    assert_eq!(event_source_for("PutLogEvents"), "logs.amazonaws.com");
    assert_eq!(event_source_for("Decrypt"), "kms.amazonaws.com");
    assert_eq!(event_source_for("ListMetrics"), "monitoring.amazonaws.com");
    assert_eq!(event_source_for("UpdateTrail"), "cloudtrail.amazonaws.com");
    assert_eq!(event_source_for("Whatever"), "unknown.amazonaws.com");
    assert_eq!(read_only_for("GetObject"), Some(true));
    assert_eq!(read_only_for("ConsoleLogin"), Some(true));
    assert_eq!(read_only_for("PutObject"), Some(false));
    let tls = tls_details_for("s3.amazonaws.com");
    assert_eq!(tls.tls_version, "TLSv1.2");
    assert_eq!(tls.cipher_suite, "ECDHE-RSA-AES128-GCM-SHA256");
    assert_eq!(tls.client_provided_host_header, "s3.amazonaws.com");
    let p = default_error_profile("ConsoleLogin").unwrap();
    assert_eq!((p.rate_ppm, p.code.as_str(), p.message.as_str()), (80_000, "SigninFailure", "Failed authentication"));
    let p = default_error_profile("RunInstances").unwrap();
    assert_eq!(p.code, "UnauthorizedOperation");
    let p = default_error_profile("PutObject").unwrap();
    assert_eq!((p.rate_ppm, p.code.as_str()), (20_000, "AccessDenied"));
    let p = default_error_profile("Other").unwrap();
    assert_eq!(p.rate_ppm, 10_000);
}

#[test]
fn entra_lookups() {
    assert_eq!(audit_category("ResetPassword"), "UserManagement");
    assert_eq!(audit_category("RemoveGroupMember"), "GroupManagement");
    assert_eq!(audit_category("AddAppRoleAssignment"), "AppManagement");
    assert_eq!(audit_category("UpdateConditionalAccess"), "Policy");
    assert_eq!(audit_category("Nope"), "Other");
    assert_eq!(audit_operation("AddUser"), "Add");
    assert_eq!(audit_operation("RemoveGroupMember"), "Remove");
    assert_eq!(audit_operation("DeleteUser"), "Delete");
    assert_eq!(audit_operation("ResetPassword"), "Reset");
    assert_eq!(audit_operation("UpdateUser"), "Update");
    assert_eq!(audit_operation("Nope"), "Other");
    let d = audit_additional_details("AddUser");
    assert_eq!((d[0].key.as_str(), d[0].value.as_str()), ("activity", "AddUser"));
    assert_eq!((d[1].key.as_str(), d[1].value.as_str()), ("client", "seclog"));
    assert_eq!(outcome_to_str(&Outcome::Failure), "failure");
    assert_eq!(outcome_to_str(&Outcome::Success), "success");
    assert_eq!(outcome_to_str(&Outcome::Unknown), "unknown");
}

#[test]
fn error_share_converges() {
    let mut rng = rand::rngs::StdRng::seed_from_u64(77);
    let n = 10_000;
    let mut failures = 0;
    for _ in 0..n {
        let e = seclog::cloudtrail::roll_error("ConsoleLogin", &mut rng);
        if let Some(p) = &e {
            assert_eq!(p.code, "SigninFailure");
            failures += 1;
        }
        assert_eq!(seclog::cloudtrail::outcome_for(&e) == Outcome::Failure, e.is_some());
    }
    let p = 0.08;
    let share = failures as f64 / n as f64;
    let tolerance = 3.0 * (p * (1.0 - p) / n as f64).sqrt();
    assert!((share - p).abs() <= tolerance, "share {share}");
}
