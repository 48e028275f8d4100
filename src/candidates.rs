//! Which event an actor is likely to perform next, given its role or service
//! profile and its previous event: a first-order chain over event names.
//!
//! Weights are fixed-point: thousandths of a unit.
use vstd::prelude::*;

use rand::rngs::StdRng;

use crate::actors::{ActorKind, ActorRole, ActorSeed, ServiceProfile};
use crate::catalog::EventSelector;
use crate::select::{filtered, pick_weighted_event, weights_bounded, MAX_WEIGHT};
use crate::text::{owned, str_eq};

verus! {

/// The names and weights of a candidate list.
pub open spec fn candidate_pairs(v: Seq<(String, u64)>) -> Seq<(Seq<char>, u64)> {
    v.map_values(|c: (String, u64)| (c.0@, c.1))
}

/// The view of an optional string slice.
pub open spec fn view_opt(last: Option<&str>) -> Option<Seq<char>> {
    match last {
        Some(s) => Some(s@),
        None => None,
    }
}

fn candidate(name: &str, weight: u64) -> (r: (String, u64))
    ensures
        r.0@ == name@,
        r.1 == weight,
{
    (owned(name), weight)
}

/// Whether the previous event is `name`.
fn is_last(last: Option<&str>, name: &str) -> (r: bool)
    ensures
        r == (view_opt(last) == Some(name@)),
{
    match last {
        Some(l) => str_eq(l, name),
        None => false,
    }
}

/// The candidates after `last` in the service table.
pub open spec fn service_table_of(last: Option<Seq<char>>) -> Seq<(Seq<char>, u64)> {
    if last is None {
        seq![("AssumeRole"@, 2000u64), ("GetCallerIdentity"@, 1000u64), ("PutLogEvents"@, 1200u64)]
    } else if last == Some("AssumeRole"@) || last == Some("GetCallerIdentity"@) {
        seq![("PutObject"@, 1200u64), ("GetObject"@, 1200u64), ("PutLogEvents"@, 1600u64), ("DescribeInstances"@, 600u64), ("RunInstances"@, 200u64)]
    } else {
        seq![("PutLogEvents"@, 1800u64), ("GetObject"@, 1100u64), ("PutObject"@, 900u64), ("DescribeInstances"@, 600u64)]
    }
}

/// The candidates after `last` in the ec2 reaper table.
pub open spec fn ec2_reaper_table(last: Option<Seq<char>>) -> Seq<(Seq<char>, u64)> {
    if last is None {
        seq![("AssumeRole"@, 1200u64), ("GetCallerIdentity"@, 800u64), ("DescribeInstances"@, 1600u64)]
    } else if last == Some("AssumeRole"@) || last == Some("GetCallerIdentity"@) {
        seq![("DescribeInstances"@, 2000u64), ("StopInstances"@, 900u64), ("TerminateInstances"@, 1400u64), ("StartInstances"@, 500u64)]
    } else {
        seq![("DescribeInstances"@, 2100u64), ("TerminateInstances"@, 1600u64), ("StopInstances"@, 900u64), ("StartInstances"@, 400u64)]
    }
}

/// The candidates after `last` in the datalake bot table.
pub open spec fn datalake_bot_table(last: Option<Seq<char>>) -> Seq<(Seq<char>, u64)> {
    if last is None {
        seq![("AssumeRole"@, 1100u64), ("GetCallerIdentity"@, 700u64), ("CreateBucket"@, 600u64), ("PutObject"@, 1200u64)]
    } else if last == Some("AssumeRole"@) || last == Some("GetCallerIdentity"@) {
        seq![("PutObject"@, 2200u64), ("GetObject"@, 1600u64), ("DeleteObject"@, 600u64), ("Encrypt"@, 1200u64), ("Decrypt"@, 1000u64), ("GenerateDataKey"@, 900u64), ("PutLogEvents"@, 800u64)]
    } else {
        seq![("PutObject"@, 2100u64), ("GetObject"@, 1500u64), ("DeleteObject"@, 600u64), ("Encrypt"@, 1100u64), ("Decrypt"@, 900u64), ("GenerateDataKey"@, 900u64), ("PutLogEvents"@, 700u64)]
    }
}

/// The candidates after `last` in the logs shipper table.
pub open spec fn logs_shipper_table(last: Option<Seq<char>>) -> Seq<(Seq<char>, u64)> {
    if last is None {
        seq![("AssumeRole"@, 1200u64), ("GetCallerIdentity"@, 700u64), ("CreateLogGroup"@, 600u64), ("CreateLogStream"@, 1000u64)]
    } else if last == Some("AssumeRole"@) || last == Some("GetCallerIdentity"@) {
        seq![("CreateLogStream"@, 1300u64), ("DescribeLogStreams"@, 1100u64), ("PutLogEvents"@, 2200u64)]
    } else {
        seq![("PutLogEvents"@, 2400u64), ("CreateLogStream"@, 1100u64), ("DescribeLogStreams"@, 1000u64), ("CreateLogGroup"@, 400u64)]
    }
}

/// The candidates after `last` in the metrics collector table.
pub open spec fn metrics_collector_table(last: Option<Seq<char>>) -> Seq<(Seq<char>, u64)> {
    if last is None {
        seq![("AssumeRole"@, 1000u64), ("GetCallerIdentity"@, 800u64), ("ListMetrics"@, 900u64), ("PutMetricData"@, 1100u64)]
    } else if last == Some("AssumeRole"@) || last == Some("GetCallerIdentity"@) {
        seq![("GetMetricData"@, 1500u64), ("PutMetricData"@, 1200u64), ("ListMetrics"@, 800u64)]
    } else {
        seq![("GetMetricData"@, 1600u64), ("PutMetricData"@, 1100u64), ("ListMetrics"@, 800u64)]
    }
}

/// The candidates after `last` in the admin table.
pub open spec fn admin_table(last: Option<Seq<char>>) -> Seq<(Seq<char>, u64)> {
    if last is None {
        seq![("ConsoleLogin"@, 3000u64), ("GetSessionToken"@, 1000u64), ("AssumeRole"@, 1500u64), ("GetCallerIdentity"@, 600u64)]
    } else if last == Some("ConsoleLogin"@) {
        seq![("GetSessionToken"@, 1400u64), ("AssumeRole"@, 2500u64), ("CreateUser"@, 600u64), ("CreateAccessKey"@, 500u64), ("AttachRolePolicy"@, 400u64)]
    } else if last == Some("AssumeRole"@) {
        seq![("CreateUser"@, 600u64), ("AttachRolePolicy"@, 500u64), ("UpdateAccessKey"@, 400u64), ("DescribeInstances"@, 700u64)]
    } else {
        seq![("DescribeInstances"@, 800u64), ("GetCallerIdentity"@, 600u64), ("CreateSecurityGroup"@, 300u64), ("AuthorizeSecurityGroupIngress"@, 300u64)]
    }
}

/// The candidates after `last` in the developer table.
pub open spec fn developer_table(last: Option<Seq<char>>) -> Seq<(Seq<char>, u64)> {
    if last is None {
        seq![("ConsoleLogin"@, 2600u64), ("GetSessionToken"@, 900u64), ("AssumeRole"@, 1800u64), ("GetCallerIdentity"@, 500u64)]
    } else if last == Some("ConsoleLogin"@) {
        seq![("GetSessionToken"@, 1200u64), ("AssumeRole"@, 2400u64), ("RunInstances"@, 800u64), ("CreateSecurityGroup"@, 600u64), ("PutObject"@, 600u64)]
    } else if last == Some("AssumeRole"@) {
        seq![("RunInstances"@, 900u64), ("DescribeInstances"@, 1000u64), ("PutObject"@, 1000u64), ("GetObject"@, 800u64)]
    } else {
        seq![("DescribeInstances"@, 1000u64), ("PutObject"@, 900u64), ("GetObject"@, 800u64), ("CreateLogGroup"@, 400u64)]
    }
}

/// The candidates after `last` in the readonly table.
pub open spec fn readonly_table(last: Option<Seq<char>>) -> Seq<(Seq<char>, u64)> {
    if last is None {
        seq![("ConsoleLogin"@, 2800u64), ("GetSessionToken"@, 700u64), ("AssumeRole"@, 1200u64), ("GetCallerIdentity"@, 600u64)]
    } else if last == Some("ConsoleLogin"@) {
        seq![("GetSessionToken"@, 800u64), ("DescribeInstances"@, 1200u64), ("GetObject"@, 1000u64), ("GetCallerIdentity"@, 600u64)]
    } else if last == Some("AssumeRole"@) {
        seq![("DescribeInstances"@, 1200u64), ("GetObject"@, 1100u64), ("GetCallerIdentity"@, 600u64)]
    } else {
        seq![("DescribeInstances"@, 1200u64), ("GetObject"@, 1000u64), ("GetCallerIdentity"@, 500u64)]
    }
}

/// The candidates after `last` in the auditor table.
pub open spec fn auditor_table(last: Option<Seq<char>>) -> Seq<(Seq<char>, u64)> {
    if last is None {
        seq![("ConsoleLogin"@, 2200u64), ("GetSessionToken"@, 800u64), ("AssumeRole"@, 1400u64), ("GetCallerIdentity"@, 800u64)]
    } else if last == Some("ConsoleLogin"@) {
        seq![("GetSessionToken"@, 900u64), ("GetCallerIdentity"@, 900u64), ("DescribeInstances"@, 900u64), ("PutLogEvents"@, 1200u64), ("CreateLogGroup"@, 400u64)]
    } else if last == Some("AssumeRole"@) {
        seq![("PutLogEvents"@, 1500u64), ("DescribeInstances"@, 800u64), ("GetObject"@, 600u64)]
    } else {
        seq![("PutLogEvents"@, 1400u64), ("DescribeInstances"@, 800u64), ("GetCallerIdentity"@, 600u64)]
    }
}

/// The candidates after `last` in the service table.
pub fn service_candidates(last: Option<&str>) -> (r: Vec<(String, u64)>)
    ensures
        candidate_pairs(r@) == service_table_of(view_opt(last)),
{
    if last.is_none() {
        let mut v: Vec<(String, u64)> = Vec::new();
        v.push(candidate("AssumeRole", 2000));
        v.push(candidate("GetCallerIdentity", 1000));
        v.push(candidate("PutLogEvents", 1200));
        assert(candidate_pairs(v@) =~= seq![("AssumeRole"@, 2000u64), ("GetCallerIdentity"@, 1000u64), ("PutLogEvents"@, 1200u64)]);
        v
    } else if is_last(last, "AssumeRole") || is_last(last, "GetCallerIdentity") {
        let mut v: Vec<(String, u64)> = Vec::new();
        v.push(candidate("PutObject", 1200));
        v.push(candidate("GetObject", 1200));
        v.push(candidate("PutLogEvents", 1600));
        v.push(candidate("DescribeInstances", 600));
        v.push(candidate("RunInstances", 200));
        assert(candidate_pairs(v@) =~= seq![("PutObject"@, 1200u64), ("GetObject"@, 1200u64), ("PutLogEvents"@, 1600u64), ("DescribeInstances"@, 600u64), ("RunInstances"@, 200u64)]);
        v
    } else {
        let mut v: Vec<(String, u64)> = Vec::new();
        v.push(candidate("PutLogEvents", 1800));
        v.push(candidate("GetObject", 1100));
        v.push(candidate("PutObject", 900));
        v.push(candidate("DescribeInstances", 600));
        assert(candidate_pairs(v@) =~= seq![("PutLogEvents"@, 1800u64), ("GetObject"@, 1100u64), ("PutObject"@, 900u64), ("DescribeInstances"@, 600u64)]);
        v
    }
}

/// The candidates after `last` in the ec2 reaper table.
pub fn ec2_reaper_candidates(last: Option<&str>) -> (r: Vec<(String, u64)>)
    ensures
        candidate_pairs(r@) == ec2_reaper_table(view_opt(last)),
{
    if last.is_none() {
        let mut v: Vec<(String, u64)> = Vec::new();
        v.push(candidate("AssumeRole", 1200));
        v.push(candidate("GetCallerIdentity", 800));
        v.push(candidate("DescribeInstances", 1600));
        assert(candidate_pairs(v@) =~= seq![("AssumeRole"@, 1200u64), ("GetCallerIdentity"@, 800u64), ("DescribeInstances"@, 1600u64)]);
        v
    } else if is_last(last, "AssumeRole") || is_last(last, "GetCallerIdentity") {
        let mut v: Vec<(String, u64)> = Vec::new();
        v.push(candidate("DescribeInstances", 2000));
        v.push(candidate("StopInstances", 900));
        v.push(candidate("TerminateInstances", 1400));
        v.push(candidate("StartInstances", 500));
        assert(candidate_pairs(v@) =~= seq![("DescribeInstances"@, 2000u64), ("StopInstances"@, 900u64), ("TerminateInstances"@, 1400u64), ("StartInstances"@, 500u64)]);
        v
    } else {
        let mut v: Vec<(String, u64)> = Vec::new();
        v.push(candidate("DescribeInstances", 2100));
        v.push(candidate("TerminateInstances", 1600));
        v.push(candidate("StopInstances", 900));
        v.push(candidate("StartInstances", 400));
        assert(candidate_pairs(v@) =~= seq![("DescribeInstances"@, 2100u64), ("TerminateInstances"@, 1600u64), ("StopInstances"@, 900u64), ("StartInstances"@, 400u64)]);
        v
    }
}

/// The candidates after `last` in the datalake bot table.
pub fn datalake_bot_candidates(last: Option<&str>) -> (r: Vec<(String, u64)>)
    ensures
        candidate_pairs(r@) == datalake_bot_table(view_opt(last)),
{
    if last.is_none() {
        let mut v: Vec<(String, u64)> = Vec::new();
        v.push(candidate("AssumeRole", 1100));
        v.push(candidate("GetCallerIdentity", 700));
        v.push(candidate("CreateBucket", 600));
        v.push(candidate("PutObject", 1200));
        assert(candidate_pairs(v@) =~= seq![("AssumeRole"@, 1100u64), ("GetCallerIdentity"@, 700u64), ("CreateBucket"@, 600u64), ("PutObject"@, 1200u64)]);
        v
    } else if is_last(last, "AssumeRole") || is_last(last, "GetCallerIdentity") {
        let mut v: Vec<(String, u64)> = Vec::new();
        v.push(candidate("PutObject", 2200));
        v.push(candidate("GetObject", 1600));
        v.push(candidate("DeleteObject", 600));
        v.push(candidate("Encrypt", 1200));
        v.push(candidate("Decrypt", 1000));
        v.push(candidate("GenerateDataKey", 900));
        v.push(candidate("PutLogEvents", 800));
        assert(candidate_pairs(v@) =~= seq![("PutObject"@, 2200u64), ("GetObject"@, 1600u64), ("DeleteObject"@, 600u64), ("Encrypt"@, 1200u64), ("Decrypt"@, 1000u64), ("GenerateDataKey"@, 900u64), ("PutLogEvents"@, 800u64)]);
        v
    } else {
        let mut v: Vec<(String, u64)> = Vec::new();
        v.push(candidate("PutObject", 2100));
        v.push(candidate("GetObject", 1500));
        v.push(candidate("DeleteObject", 600));
        v.push(candidate("Encrypt", 1100));
        v.push(candidate("Decrypt", 900));
        v.push(candidate("GenerateDataKey", 900));
        v.push(candidate("PutLogEvents", 700));
        assert(candidate_pairs(v@) =~= seq![("PutObject"@, 2100u64), ("GetObject"@, 1500u64), ("DeleteObject"@, 600u64), ("Encrypt"@, 1100u64), ("Decrypt"@, 900u64), ("GenerateDataKey"@, 900u64), ("PutLogEvents"@, 700u64)]);
        v
    }
}

/// The candidates after `last` in the logs shipper table.
pub fn logs_shipper_candidates(last: Option<&str>) -> (r: Vec<(String, u64)>)
    ensures
        candidate_pairs(r@) == logs_shipper_table(view_opt(last)),
{
    if last.is_none() {
        let mut v: Vec<(String, u64)> = Vec::new();
        v.push(candidate("AssumeRole", 1200));
        v.push(candidate("GetCallerIdentity", 700));
        v.push(candidate("CreateLogGroup", 600));
        v.push(candidate("CreateLogStream", 1000));
        assert(candidate_pairs(v@) =~= seq![("AssumeRole"@, 1200u64), ("GetCallerIdentity"@, 700u64), ("CreateLogGroup"@, 600u64), ("CreateLogStream"@, 1000u64)]);
        v
    } else if is_last(last, "AssumeRole") || is_last(last, "GetCallerIdentity") {
        let mut v: Vec<(String, u64)> = Vec::new();
        v.push(candidate("CreateLogStream", 1300));
        v.push(candidate("DescribeLogStreams", 1100));
        v.push(candidate("PutLogEvents", 2200));
        assert(candidate_pairs(v@) =~= seq![("CreateLogStream"@, 1300u64), ("DescribeLogStreams"@, 1100u64), ("PutLogEvents"@, 2200u64)]);
        v
    } else {
        let mut v: Vec<(String, u64)> = Vec::new();
        v.push(candidate("PutLogEvents", 2400));
        v.push(candidate("CreateLogStream", 1100));
        v.push(candidate("DescribeLogStreams", 1000));
        v.push(candidate("CreateLogGroup", 400));
        assert(candidate_pairs(v@) =~= seq![("PutLogEvents"@, 2400u64), ("CreateLogStream"@, 1100u64), ("DescribeLogStreams"@, 1000u64), ("CreateLogGroup"@, 400u64)]);
        v
    }
}

/// The candidates after `last` in the metrics collector table.
pub fn metrics_collector_candidates(last: Option<&str>) -> (r: Vec<(String, u64)>)
    ensures
        candidate_pairs(r@) == metrics_collector_table(view_opt(last)),
{
    if last.is_none() {
        let mut v: Vec<(String, u64)> = Vec::new();
        v.push(candidate("AssumeRole", 1000));
        v.push(candidate("GetCallerIdentity", 800));
        v.push(candidate("ListMetrics", 900));
        v.push(candidate("PutMetricData", 1100));
        assert(candidate_pairs(v@) =~= seq![("AssumeRole"@, 1000u64), ("GetCallerIdentity"@, 800u64), ("ListMetrics"@, 900u64), ("PutMetricData"@, 1100u64)]);
        v
    } else if is_last(last, "AssumeRole") || is_last(last, "GetCallerIdentity") {
        let mut v: Vec<(String, u64)> = Vec::new();
        v.push(candidate("GetMetricData", 1500));
        v.push(candidate("PutMetricData", 1200));
        v.push(candidate("ListMetrics", 800));
        assert(candidate_pairs(v@) =~= seq![("GetMetricData"@, 1500u64), ("PutMetricData"@, 1200u64), ("ListMetrics"@, 800u64)]);
        v
    } else {
        let mut v: Vec<(String, u64)> = Vec::new();
        v.push(candidate("GetMetricData", 1600));
        v.push(candidate("PutMetricData", 1100));
        v.push(candidate("ListMetrics", 800));
        assert(candidate_pairs(v@) =~= seq![("GetMetricData"@, 1600u64), ("PutMetricData"@, 1100u64), ("ListMetrics"@, 800u64)]);
        v
    }
}

/// The candidates after `last` in the admin table.
pub fn admin_candidates(last: Option<&str>) -> (r: Vec<(String, u64)>)
    ensures
        candidate_pairs(r@) == admin_table(view_opt(last)),
{
    if last.is_none() {
        let mut v: Vec<(String, u64)> = Vec::new();
        v.push(candidate("ConsoleLogin", 3000));
        v.push(candidate("GetSessionToken", 1000));
        v.push(candidate("AssumeRole", 1500));
        v.push(candidate("GetCallerIdentity", 600));
        assert(candidate_pairs(v@) =~= seq![("ConsoleLogin"@, 3000u64), ("GetSessionToken"@, 1000u64), ("AssumeRole"@, 1500u64), ("GetCallerIdentity"@, 600u64)]);
        v
    } else if is_last(last, "ConsoleLogin") {
        let mut v: Vec<(String, u64)> = Vec::new();
        v.push(candidate("GetSessionToken", 1400));
        v.push(candidate("AssumeRole", 2500));
        v.push(candidate("CreateUser", 600));
        v.push(candidate("CreateAccessKey", 500));
        v.push(candidate("AttachRolePolicy", 400));
        assert(candidate_pairs(v@) =~= seq![("GetSessionToken"@, 1400u64), ("AssumeRole"@, 2500u64), ("CreateUser"@, 600u64), ("CreateAccessKey"@, 500u64), ("AttachRolePolicy"@, 400u64)]);
        v
    } else if is_last(last, "AssumeRole") {
        let mut v: Vec<(String, u64)> = Vec::new();
        v.push(candidate("CreateUser", 600));
        v.push(candidate("AttachRolePolicy", 500));
        v.push(candidate("UpdateAccessKey", 400));
        v.push(candidate("DescribeInstances", 700));
        assert(candidate_pairs(v@) =~= seq![("CreateUser"@, 600u64), ("AttachRolePolicy"@, 500u64), ("UpdateAccessKey"@, 400u64), ("DescribeInstances"@, 700u64)]);
        v
    } else {
        let mut v: Vec<(String, u64)> = Vec::new();
        v.push(candidate("DescribeInstances", 800));
        v.push(candidate("GetCallerIdentity", 600));
        v.push(candidate("CreateSecurityGroup", 300));
        v.push(candidate("AuthorizeSecurityGroupIngress", 300));
        assert(candidate_pairs(v@) =~= seq![("DescribeInstances"@, 800u64), ("GetCallerIdentity"@, 600u64), ("CreateSecurityGroup"@, 300u64), ("AuthorizeSecurityGroupIngress"@, 300u64)]);
        v
    }
}

/// The candidates after `last` in the developer table.
pub fn developer_candidates(last: Option<&str>) -> (r: Vec<(String, u64)>)
    ensures
        candidate_pairs(r@) == developer_table(view_opt(last)),
{
    if last.is_none() {
        let mut v: Vec<(String, u64)> = Vec::new();
        v.push(candidate("ConsoleLogin", 2600));
        v.push(candidate("GetSessionToken", 900));
        v.push(candidate("AssumeRole", 1800));
        v.push(candidate("GetCallerIdentity", 500));
        assert(candidate_pairs(v@) =~= seq![("ConsoleLogin"@, 2600u64), ("GetSessionToken"@, 900u64), ("AssumeRole"@, 1800u64), ("GetCallerIdentity"@, 500u64)]);
        v
    } else if is_last(last, "ConsoleLogin") {
        let mut v: Vec<(String, u64)> = Vec::new();
        v.push(candidate("GetSessionToken", 1200));
        v.push(candidate("AssumeRole", 2400));
        v.push(candidate("RunInstances", 800));
        v.push(candidate("CreateSecurityGroup", 600));
        v.push(candidate("PutObject", 600));
        assert(candidate_pairs(v@) =~= seq![("GetSessionToken"@, 1200u64), ("AssumeRole"@, 2400u64), ("RunInstances"@, 800u64), ("CreateSecurityGroup"@, 600u64), ("PutObject"@, 600u64)]);
        v
    } else if is_last(last, "AssumeRole") {
        let mut v: Vec<(String, u64)> = Vec::new();
        v.push(candidate("RunInstances", 900));
        v.push(candidate("DescribeInstances", 1000));
        v.push(candidate("PutObject", 1000));
        v.push(candidate("GetObject", 800));
        assert(candidate_pairs(v@) =~= seq![("RunInstances"@, 900u64), ("DescribeInstances"@, 1000u64), ("PutObject"@, 1000u64), ("GetObject"@, 800u64)]);
        v
    } else {
        let mut v: Vec<(String, u64)> = Vec::new();
        v.push(candidate("DescribeInstances", 1000));
        v.push(candidate("PutObject", 900));
        v.push(candidate("GetObject", 800));
        v.push(candidate("CreateLogGroup", 400));
        assert(candidate_pairs(v@) =~= seq![("DescribeInstances"@, 1000u64), ("PutObject"@, 900u64), ("GetObject"@, 800u64), ("CreateLogGroup"@, 400u64)]);
        v
    }
}

/// The candidates after `last` in the readonly table.
pub fn readonly_candidates(last: Option<&str>) -> (r: Vec<(String, u64)>)
    ensures
        candidate_pairs(r@) == readonly_table(view_opt(last)),
{
    if last.is_none() {
        let mut v: Vec<(String, u64)> = Vec::new();
        v.push(candidate("ConsoleLogin", 2800));
        v.push(candidate("GetSessionToken", 700));
        v.push(candidate("AssumeRole", 1200));
        v.push(candidate("GetCallerIdentity", 600));
        assert(candidate_pairs(v@) =~= seq![("ConsoleLogin"@, 2800u64), ("GetSessionToken"@, 700u64), ("AssumeRole"@, 1200u64), ("GetCallerIdentity"@, 600u64)]);
        v
    } else if is_last(last, "ConsoleLogin") {
        let mut v: Vec<(String, u64)> = Vec::new();
        v.push(candidate("GetSessionToken", 800));
        v.push(candidate("DescribeInstances", 1200));
        v.push(candidate("GetObject", 1000));
        v.push(candidate("GetCallerIdentity", 600));
        assert(candidate_pairs(v@) =~= seq![("GetSessionToken"@, 800u64), ("DescribeInstances"@, 1200u64), ("GetObject"@, 1000u64), ("GetCallerIdentity"@, 600u64)]);
        v
    } else if is_last(last, "AssumeRole") {
        let mut v: Vec<(String, u64)> = Vec::new();
        v.push(candidate("DescribeInstances", 1200));
        v.push(candidate("GetObject", 1100));
        v.push(candidate("GetCallerIdentity", 600));
        assert(candidate_pairs(v@) =~= seq![("DescribeInstances"@, 1200u64), ("GetObject"@, 1100u64), ("GetCallerIdentity"@, 600u64)]);
        v
    } else {
        let mut v: Vec<(String, u64)> = Vec::new();
        v.push(candidate("DescribeInstances", 1200));
        v.push(candidate("GetObject", 1000));
        v.push(candidate("GetCallerIdentity", 500));
        assert(candidate_pairs(v@) =~= seq![("DescribeInstances"@, 1200u64), ("GetObject"@, 1000u64), ("GetCallerIdentity"@, 500u64)]);
        v
    }
}

/// The candidates after `last` in the auditor table.
pub fn auditor_candidates(last: Option<&str>) -> (r: Vec<(String, u64)>)
    ensures
        candidate_pairs(r@) == auditor_table(view_opt(last)),
{
    if last.is_none() {
        let mut v: Vec<(String, u64)> = Vec::new();
        v.push(candidate("ConsoleLogin", 2200));
        v.push(candidate("GetSessionToken", 800));
        v.push(candidate("AssumeRole", 1400));
        v.push(candidate("GetCallerIdentity", 800));
        assert(candidate_pairs(v@) =~= seq![("ConsoleLogin"@, 2200u64), ("GetSessionToken"@, 800u64), ("AssumeRole"@, 1400u64), ("GetCallerIdentity"@, 800u64)]);
        v
    } else if is_last(last, "ConsoleLogin") {
        let mut v: Vec<(String, u64)> = Vec::new();
        v.push(candidate("GetSessionToken", 900));
        v.push(candidate("GetCallerIdentity", 900));
        v.push(candidate("DescribeInstances", 900));
        v.push(candidate("PutLogEvents", 1200));
        v.push(candidate("CreateLogGroup", 400));
        assert(candidate_pairs(v@) =~= seq![("GetSessionToken"@, 900u64), ("GetCallerIdentity"@, 900u64), ("DescribeInstances"@, 900u64), ("PutLogEvents"@, 1200u64), ("CreateLogGroup"@, 400u64)]);
        v
    } else if is_last(last, "AssumeRole") {
        let mut v: Vec<(String, u64)> = Vec::new();
        v.push(candidate("PutLogEvents", 1500));
        v.push(candidate("DescribeInstances", 800));
        v.push(candidate("GetObject", 600));
        assert(candidate_pairs(v@) =~= seq![("PutLogEvents"@, 1500u64), ("DescribeInstances"@, 800u64), ("GetObject"@, 600u64)]);
        v
    } else {
        let mut v: Vec<(String, u64)> = Vec::new();
        v.push(candidate("PutLogEvents", 1400));
        v.push(candidate("DescribeInstances", 800));
        v.push(candidate("GetCallerIdentity", 600));
        assert(candidate_pairs(v@) =~= seq![("PutLogEvents"@, 1400u64), ("DescribeInstances"@, 800u64), ("GetCallerIdentity"@, 600u64)]);
        v
    }
}

/// The candidate table of a human actor's role.
pub open spec fn human_table(role: ActorRole, last: Option<Seq<char>>) -> Seq<(Seq<char>, u64)> {
    match role {
        ActorRole::Admin => admin_table(last),
        ActorRole::Developer => developer_table(last),
        ActorRole::ReadOnly => readonly_table(last),
        ActorRole::Auditor => auditor_table(last),
    }
}

/// The candidates for a human actor of `role` after `last`.
pub fn human_candidates(role: ActorRole, last: Option<&str>) -> (r: Vec<(String, u64)>)
    ensures
        candidate_pairs(r@) == human_table(role, view_opt(last)),
{
    match role {
        ActorRole::Admin => admin_candidates(last),
        ActorRole::Developer => developer_candidates(last),
        ActorRole::ReadOnly => readonly_candidates(last),
        ActorRole::Auditor => auditor_candidates(last),
    }
}

/// The candidate table of a service profile (generic when there is none).
pub open spec fn service_table(profile: Option<ServiceProfile>, last: Option<Seq<char>>) -> Seq<(Seq<char>, u64)> {
    match profile {
        Some(ServiceProfile::Ec2Reaper) => ec2_reaper_table(last),
        Some(ServiceProfile::DataLakeBot) => datalake_bot_table(last),
        Some(ServiceProfile::LogsShipper) => logs_shipper_table(last),
        Some(ServiceProfile::MetricsCollector) => metrics_collector_table(last),
        _ => service_table_of(last),
    }
}

/// The candidates for a service actor with `profile` after `last`.
pub fn service_profile_candidates(profile: Option<ServiceProfile>, last: Option<&str>) -> (r: Vec<(String, u64)>)
    ensures
        candidate_pairs(r@) == service_table(profile, view_opt(last)),
{
    match profile {
        Some(ServiceProfile::Ec2Reaper) => ec2_reaper_candidates(last),
        Some(ServiceProfile::DataLakeBot) => datalake_bot_candidates(last),
        Some(ServiceProfile::LogsShipper) => logs_shipper_candidates(last),
        Some(ServiceProfile::MetricsCollector) => metrics_collector_candidates(last),
        _ => service_candidates(last),
    }
}

/// The candidate table of an actor: by role for humans (developer when unset),
/// by service profile for services.
pub open spec fn actor_table(seed: ActorSeed, last: Option<Seq<char>>) -> Seq<(Seq<char>, u64)> {
    match seed.kind {
        ActorKind::Human => human_table(
            match seed.role {
                Some(r) => r,
                None => ActorRole::Developer,
            },
            last,
        ),
        ActorKind::Service => service_table(seed.service_profile, last),
    }
}

/// The candidates of an actor after `last` (see `actor_table`).
pub fn actor_candidates(seed: &ActorSeed, last: Option<&str>) -> (r: Vec<(String, u64)>)
    ensures
        candidate_pairs(r@) == actor_table(*seed, view_opt(last)),
{
    match seed.kind {
        ActorKind::Human => {
            let role = match seed.role {
                Some(r) => r,
                None => ActorRole::Developer,
            };
            human_candidates(role, last)
        },
        ActorKind::Service => service_profile_candidates(seed.service_profile, last),
    }
}

proof fn lemma_service_bounded(last: Option<Seq<char>>)
    ensures
        forall|i: int| 0 <= i < service_table_of(last).len() ==> (#[trigger] service_table_of(last)[i]).1 <= MAX_WEIGHT,
{
    let t = service_table_of(last);
    assert forall|i: int| 0 <= i < t.len() implies (#[trigger] t[i]).1 <= MAX_WEIGHT by {
    }
}

proof fn lemma_ec2_reaper_bounded(last: Option<Seq<char>>)
    ensures
        forall|i: int| 0 <= i < ec2_reaper_table(last).len() ==> (#[trigger] ec2_reaper_table(last)[i]).1 <= MAX_WEIGHT,
{
    let t = ec2_reaper_table(last);
    assert forall|i: int| 0 <= i < t.len() implies (#[trigger] t[i]).1 <= MAX_WEIGHT by {
    }
}

proof fn lemma_datalake_bot_bounded(last: Option<Seq<char>>)
    ensures
        forall|i: int| 0 <= i < datalake_bot_table(last).len() ==> (#[trigger] datalake_bot_table(last)[i]).1 <= MAX_WEIGHT,
{
    let t = datalake_bot_table(last);
    assert forall|i: int| 0 <= i < t.len() implies (#[trigger] t[i]).1 <= MAX_WEIGHT by {
    }
}

proof fn lemma_logs_shipper_bounded(last: Option<Seq<char>>)
    ensures
        forall|i: int| 0 <= i < logs_shipper_table(last).len() ==> (#[trigger] logs_shipper_table(last)[i]).1 <= MAX_WEIGHT,
{
    let t = logs_shipper_table(last);
    assert forall|i: int| 0 <= i < t.len() implies (#[trigger] t[i]).1 <= MAX_WEIGHT by {
    }
}

proof fn lemma_metrics_collector_bounded(last: Option<Seq<char>>)
    ensures
        forall|i: int| 0 <= i < metrics_collector_table(last).len() ==> (#[trigger] metrics_collector_table(last)[i]).1 <= MAX_WEIGHT,
{
    let t = metrics_collector_table(last);
    assert forall|i: int| 0 <= i < t.len() implies (#[trigger] t[i]).1 <= MAX_WEIGHT by {
    }
}

proof fn lemma_admin_bounded(last: Option<Seq<char>>)
    ensures
        forall|i: int| 0 <= i < admin_table(last).len() ==> (#[trigger] admin_table(last)[i]).1 <= MAX_WEIGHT,
{
    let t = admin_table(last);
    assert forall|i: int| 0 <= i < t.len() implies (#[trigger] t[i]).1 <= MAX_WEIGHT by {
    }
}

proof fn lemma_developer_bounded(last: Option<Seq<char>>)
    ensures
        forall|i: int| 0 <= i < developer_table(last).len() ==> (#[trigger] developer_table(last)[i]).1 <= MAX_WEIGHT,
{
    let t = developer_table(last);
    assert forall|i: int| 0 <= i < t.len() implies (#[trigger] t[i]).1 <= MAX_WEIGHT by {
    }
}

proof fn lemma_readonly_bounded(last: Option<Seq<char>>)
    ensures
        forall|i: int| 0 <= i < readonly_table(last).len() ==> (#[trigger] readonly_table(last)[i]).1 <= MAX_WEIGHT,
{
    let t = readonly_table(last);
    assert forall|i: int| 0 <= i < t.len() implies (#[trigger] t[i]).1 <= MAX_WEIGHT by {
    }
}

proof fn lemma_auditor_bounded(last: Option<Seq<char>>)
    ensures
        forall|i: int| 0 <= i < auditor_table(last).len() ==> (#[trigger] auditor_table(last)[i]).1 <= MAX_WEIGHT,
{
    let t = auditor_table(last);
    assert forall|i: int| 0 <= i < t.len() implies (#[trigger] t[i]).1 <= MAX_WEIGHT by {
    }
}

/// Every weight of every candidate table is within the supported range.
proof fn lemma_table_bounded(seed: ActorSeed, last: Option<Seq<char>>)
    ensures
        forall|i: int|
            0 <= i < actor_table(seed, last).len() ==> (#[trigger] actor_table(seed, last)[i]).1
                <= MAX_WEIGHT,
{
    lemma_service_bounded(last);
    lemma_ec2_reaper_bounded(last);
    lemma_datalake_bot_bounded(last);
    lemma_logs_shipper_bounded(last);
    lemma_metrics_collector_bounded(last);
    lemma_admin_bounded(last);
    lemma_developer_bounded(last);
    lemma_readonly_bounded(last);
    lemma_auditor_bounded(last);
}

/// `name` was drawn from the filtered candidates `f` (with a positive weight), or,
/// when none of them has a positive weight, from the whole catalogue.
pub open spec fn picked_event(name: Seq<char>, f: Seq<(Seq<char>, int)>, catalogue: Seq<crate::catalog::WeightedEvent>) -> bool {
    (exists|i: int| 0 <= i < f.len() && (#[trigger] f[i]).0 == name && f[i].1 > 0) || ((forall|i: int|
        0 <= i < f.len() ==> (#[trigger] f[i]).1 == 0) && exists|j: int|
        0 <= j < catalogue.len() && (#[trigger] catalogue[j]).name@ == name)
}

/// Picks an actor's next event: a weighted draw over its candidates after its
/// previous event, filtered by the allowed names and scaled by the catalogue's
/// base weights and the actor's bias; when none of them can be drawn, a draw over
/// the whole catalogue.
pub fn pick_event_for_actor(
    seed: &ActorSeed,
    last_event: &Option<String>,
    allowed: &Vec<String>,
    base_weights: &Vec<(String, u64)>,
    selector: &EventSelector,
    rng: &mut StdRng,
) -> (r: String)
    requires
        selector.wf(),
        weights_bounded(base_weights@),
        weights_bounded(seed.event_bias@),
    ensures
        picked_event(
            r@,
            filtered_table(
                actor_table(
                    *seed,
                    match last_event {
                        Some(l) => Some(l@),
                        None => None,
                    },
                ),
                allowed@,
                base_weights@,
                seed.event_bias@,
            ),
            selector.events(),
        ),
{
    let last: Option<&str> = match last_event {
        Some(l) => Some(l.as_str()),
        None => None,
    };
    let candidates = actor_candidates(seed, last);
    proof {
        lemma_table_bounded(*seed, view_opt(last));
        assert forall|i: int| 0 <= i < candidates@.len() implies (#[trigger] candidates@[i]).1 <= MAX_WEIGHT by {
            assert(candidate_pairs(candidates@)[i].1 == candidates@[i].1);
            assert(actor_table(*seed, view_opt(last))[i].1 <= MAX_WEIGHT);
        }
        assert(candidates@.len() == actor_table(*seed, view_opt(last)).len());
        lemma_table_short(*seed, view_opt(last));
        lemma_filtered_table(candidates@, allowed@, base_weights@, seed.event_bias@);
    }
    let ghost lastv = match last_event {
        Some(l) => Some(l@),
        None => None::<Seq<char>>,
    };
    assert(view_opt(last) == lastv);
    let ghost f = filtered_table(actor_table(*seed, lastv), allowed@, base_weights@, seed.event_bias@);
    assert(filtered(candidates@, allowed@, base_weights@, seed.event_bias@) == f);
    match pick_weighted_event(&candidates, allowed, base_weights, &seed.event_bias, rng) {
        Some(name) => {
            assert(picked_event(name@, f, selector.events()));
            name
        },
        None => {
            let e = selector.pick(rng);
            let r = e.name.clone();
            assert(exists|j: int| 0 <= j < selector.events().len() && (#[trigger] selector.events()[j]).name@ == r@);
            assert(picked_event(r@, f, selector.events()));
            r
        },
    }
}

/// Every candidate table is short.
proof fn lemma_table_short(seed: ActorSeed, last: Option<Seq<char>>)
    ensures
        actor_table(seed, last).len() <= 16,
{
}

/// `filtered` over a candidate list, seen through its names and weights.
pub open spec fn filtered_table(
    table: Seq<(Seq<char>, u64)>,
    allowed: Seq<String>,
    base_weights: Seq<(String, u64)>,
    bias: Seq<(String, u64)>,
) -> Seq<(Seq<char>, int)>
    decreases table.len(),
{
    if table.len() == 0 {
        Seq::empty()
    } else {
        let rest = filtered_table(table.drop_last(), allowed, base_weights, bias);
        let (name, w) = table.last();
        if crate::select::listed(allowed, name) {
            rest.push(
                (
                    name,
                    crate::select::candidate_weight(
                        w,
                        crate::select::weight_of(base_weights, name, crate::select::UNIT_WEIGHT),
                        crate::select::weight_of(bias, name, crate::select::UNIT_WEIGHT),
                    ),
                ),
            )
        } else {
            rest
        }
    }
}

/// Filtering a candidate list depends on its names and weights alone.
proof fn lemma_filtered_table(
    v: Seq<(String, u64)>,
    allowed: Seq<String>,
    base_weights: Seq<(String, u64)>,
    bias: Seq<(String, u64)>,
)
    ensures
        filtered(v, allowed, base_weights, bias) == filtered_table(candidate_pairs(v), allowed, base_weights, bias),
    decreases v.len(),
{
    if v.len() > 0 {
        lemma_filtered_table(v.drop_last(), allowed, base_weights, bias);
        assert(candidate_pairs(v).drop_last() =~= candidate_pairs(v.drop_last()));
    }
}

} // verus!
