//! Entra ID record parts that depend on the activity name alone, and the plain
//! records of its sign-in and audit payloads.
use vstd::prelude::*;

use rand::rngs::StdRng;

use crate::actors::{ActorKind, ActorSeed, ServiceProfile};
use crate::guid::guid_from_bytes;
use crate::rng::{draw_range, draw_ratio};
use crate::catalog::{event_pairs, WeightedEvent};
use crate::select::{lemma_positive_first, lemma_sum_bounded, lookup_weight, pick_weighted_index, weight_of, weight_sum, weights_bounded, MAX_WEIGHT};
use crate::text::{contains_str, has_substring, normalize, owned, str_eq};

verus! {

/// Result of a sign-in.
#[derive(Debug, Clone)]
pub struct SignInStatus {
    pub additional_details: Option<String>,
    pub error_code: i32,
    pub failure_reason: Option<String>,
}

/// The device a sign-in came from.
#[derive(Debug, Clone)]
pub struct DeviceDetail {
    pub browser: String,
    pub device_id: String,
    pub display_name: String,
    pub is_compliant: Option<bool>,
    pub is_managed: Option<bool>,
    pub operating_system: String,
    pub trust_type: Option<String>,
}

/// A conditional-access policy evaluated at sign-in.
#[derive(Debug, Clone)]
pub struct AppliedConditionalAccessPolicy {
    pub display_name: String,
    pub enforced_grant_controls: Vec<String>,
    pub enforced_session_controls: Vec<String>,
    pub id: String,
    pub result: String,
}

/// A key and its value.
#[derive(Debug, Clone)]
pub struct KeyValue {
    pub key: String,
    pub value: String,
}

/// The application that initiated an audited activity.
#[derive(Debug, Clone)]
pub struct AppIdentity {
    pub app_id: String,
    pub display_name: String,
    pub service_principal_id: String,
    pub service_principal_name: String,
}

/// One property changed by an audited activity.
#[derive(Debug, Clone)]
pub struct ModifiedProperty {
    pub display_name: String,
    pub new_value: Option<String>,
    pub old_value: Option<String>,
}

/// The object an audited activity acted on.
#[derive(Debug, Clone)]
pub struct TargetResource {
    pub id: String,
    pub display_name: String,
    pub resource_type: String,
    pub user_principal_name: Option<String>,
    pub group_type: Option<String>,
    pub modified_properties: Vec<ModifiedProperty>,
}

/// An invalid Entra source configuration.
#[derive(Debug)]
pub struct EntraConfigError(pub String);

/// What an Entra template needs to know about the acting identity.
#[derive(Debug, Clone)]
pub struct EntraActorContext {
    pub kind: ActorKind,
    pub tenant_id: String,
    pub tenant_domain: String,
    pub user_principal_name: Option<String>,
    pub user_display_name: Option<String>,
    pub user_id: Option<String>,
    pub app_id: String,
    pub app_display_name: String,
    pub service_principal_id: String,
    pub service_principal_name: String,
    pub ip_address: String,
    pub user_agent: String,
    pub timezone_offset: i8,
    pub is_interactive: bool,
}

/// The audit category of an activity.
pub open spec fn audit_category_name(a: Seq<char>) -> Seq<char> {
    if a == "AddUser"@ || a == "UpdateUser"@ || a == "DeleteUser"@ || a == "ResetPassword"@ {
        "UserManagement"@
    } else if a == "AddGroupMember"@ || a == "RemoveGroupMember"@ {
        "GroupManagement"@
    } else if a == "AddAppRoleAssignment"@ {
        "AppManagement"@
    } else if a == "UpdateConditionalAccess"@ {
        "Policy"@
    } else {
        "Other"@
    }
}

/// The audit category of an activity.
pub fn audit_category(activity: &str) -> (r: &'static str)
    ensures
        r@ == audit_category_name(activity@),
{
    let a = activity;
    if str_eq(a, "AddUser") || str_eq(a, "UpdateUser") || str_eq(a, "DeleteUser") || str_eq(
        a,
        "ResetPassword",
    ) {
        "UserManagement"
    } else if str_eq(a, "AddGroupMember") || str_eq(a, "RemoveGroupMember") {
        "GroupManagement"
    } else if str_eq(a, "AddAppRoleAssignment") {
        "AppManagement"
    } else if str_eq(a, "UpdateConditionalAccess") {
        "Policy"
    } else {
        "Other"
    }
}

/// The operation type of an activity.
pub open spec fn audit_operation_name(a: Seq<char>) -> Seq<char> {
    if a == "AddUser"@ || a == "AddGroupMember"@ || a == "AddAppRoleAssignment"@ {
        "Add"@
    } else if a == "RemoveGroupMember"@ {
        "Remove"@
    } else if a == "DeleteUser"@ {
        "Delete"@
    } else if a == "ResetPassword"@ {
        "Reset"@
    } else if a == "UpdateUser"@ || a == "UpdateConditionalAccess"@ {
        "Update"@
    } else {
        "Other"@
    }
}

/// The operation type of an activity.
pub fn audit_operation(activity: &str) -> (r: &'static str)
    ensures
        r@ == audit_operation_name(activity@),
{
    let a = activity;
    if str_eq(a, "AddUser") || str_eq(a, "AddGroupMember") || str_eq(a, "AddAppRoleAssignment") {
        "Add"
    } else if str_eq(a, "RemoveGroupMember") {
        "Remove"
    } else if str_eq(a, "DeleteUser") {
        "Delete"
    } else if str_eq(a, "ResetPassword") {
        "Reset"
    } else if str_eq(a, "UpdateUser") || str_eq(a, "UpdateConditionalAccess") {
        "Update"
    } else {
        "Other"
    }
}

/// The additional details of an audit record: the activity and the client name.
pub fn audit_additional_details(activity: &str) -> (r: Vec<KeyValue>)
    ensures
        r@.len() == 2,
        r@[0].key@ == "activity"@ && r@[0].value@ == activity@,
        r@[1].key@ == "client"@ && r@[1].value@ == "seclog"@,
{
    let mut v: Vec<KeyValue> = Vec::new();
    v.push(KeyValue { key: owned("activity"), value: owned(activity) });
    v.push(KeyValue { key: owned("client"), value: owned("seclog") });
    v
}

/// The application name shown for an actor's sign-ins.
pub open spec fn app_display_name(seed: ActorSeed) -> Seq<char> {
    match seed.kind {
        ActorKind::Human => "Microsoft 365"@,
        ActorKind::Service => match seed.service_profile {
            Some(ServiceProfile::Ec2Reaper) => "EC2 Reaper"@,
            Some(ServiceProfile::DataLakeBot) => "Datalake Bot"@,
            Some(ServiceProfile::LogsShipper) => "Logs Shipper"@,
            Some(ServiceProfile::MetricsCollector) => "Metrics Collector"@,
            _ => "Service Principal"@,
        },
    }
}

/// The application name shown for an actor's sign-ins.
pub fn service_app_display_name(seed: &ActorSeed) -> (r: String)
    ensures
        r@ == app_display_name(*seed),
{
    match seed.kind {
        ActorKind::Human => owned("Microsoft 365"),
        ActorKind::Service => match seed.service_profile {
            Some(ServiceProfile::Ec2Reaper) => owned("EC2 Reaper"),
            Some(ServiceProfile::DataLakeBot) => owned("Datalake Bot"),
            Some(ServiceProfile::LogsShipper) => owned("Logs Shipper"),
            Some(ServiceProfile::MetricsCollector) => owned("Metrics Collector"),
            _ => owned("Service Principal"),
        },
    }
}

/// The client application of a sign-in: non-interactive sign-ins, refresh tokens
/// and device codes come from other clients; mobile user agents from mobile
/// apps; otherwise a browser, or one time in ten Exchange ActiveSync.
pub fn client_app_used(user_agent: &str, interactive: bool, event_name: &str, rng: &mut StdRng) -> (r: String)
    ensures
        (event_name@ == "DeviceCode"@ || event_name@ == "RefreshToken"@ || !interactive) ==> r@
            == "Other clients"@,
        !(event_name@ == "DeviceCode"@ || event_name@ == "RefreshToken"@ || !interactive) ==> {
            if has_substring(user_agent@, "Mobile"@) || has_substring(user_agent@, "iPhone"@) {
                r@ == "MobileAppsAndDesktopClients"@
            } else {
                r@ == "Browser"@ || r@ == "Exchange ActiveSync"@
            }
        },
{
    if str_eq(event_name, "DeviceCode") || str_eq(event_name, "RefreshToken") || !interactive {
        return owned("Other clients");
    }
    if contains_str(user_agent, "Mobile") || contains_str(user_agent, "iPhone") {
        return owned("MobileAppsAndDesktopClients");
    }
    if draw_ratio(rng, 1, 10) {
        return owned("Exchange ActiveSync");
    }
    owned("Browser")
}

/// The operating system a user agent names.
pub open spec fn operating_system_of(ua: Seq<char>) -> Seq<char> {
    if has_substring(ua, "Windows"@) {
        "Windows"@
    } else if has_substring(ua, "Mac OS"@) {
        "macOS"@
    } else if has_substring(ua, "Linux"@) {
        "Linux"@
    } else if has_substring(ua, "iPhone"@) {
        "iOS"@
    } else {
        "Unknown"@
    }
}

/// The browser a user agent names.
pub open spec fn browser_of(ua: Seq<char>) -> Seq<char> {
    if has_substring(ua, "Chrome/"@) {
        "Chrome"@
    } else if has_substring(ua, "Firefox/"@) {
        "Firefox"@
    } else if has_substring(ua, "Safari/"@) {
        "Safari"@
    } else {
        "Unknown"@
    }
}

/// The device name shown for an operating system.
pub open spec fn device_name_of(os: Seq<char>) -> Seq<char> {
    if os == "Windows"@ {
        "Windows Desktop"@
    } else if os == "macOS"@ {
        "MacBook Pro"@
    } else if os == "Linux"@ {
        "Linux Workstation"@
    } else if os == "iOS"@ {
        "iPhone"@
    } else {
        "Unknown Device"@
    }
}

fn operating_system_for(ua: &str) -> (r: String)
    ensures
        r@ == operating_system_of(ua@),
{
    if contains_str(ua, "Windows") {
        owned("Windows")
    } else if contains_str(ua, "Mac OS") {
        owned("macOS")
    } else if contains_str(ua, "Linux") {
        owned("Linux")
    } else if contains_str(ua, "iPhone") {
        owned("iOS")
    } else {
        owned("Unknown")
    }
}

fn browser_for(ua: &str) -> (r: String)
    ensures
        r@ == browser_of(ua@),
{
    if contains_str(ua, "Chrome/") {
        owned("Chrome")
    } else if contains_str(ua, "Firefox/") {
        owned("Firefox")
    } else if contains_str(ua, "Safari/") {
        owned("Safari")
    } else {
        owned("Unknown")
    }
}

fn device_name_for(os: &str) -> (r: String)
    ensures
        r@ == device_name_of(os@),
{
    if str_eq(os, "Windows") {
        owned("Windows Desktop")
    } else if str_eq(os, "macOS") {
        owned("MacBook Pro")
    } else if str_eq(os, "Linux") {
        owned("Linux Workstation")
    } else if str_eq(os, "iOS") {
        owned("iPhone")
    } else {
        owned("Unknown Device")
    }
}

/// A random GUID: sixteen random ASCII letters or digits, formatted as a GUID.
pub fn random_guid(rng: &mut StdRng) -> (r: String)
    ensures
        r@.len() == 36,
{
    let alphabet: [u8; 62] = [
        48, 49, 50, 51, 52, 53, 54, 55, 56, 57, 65, 66, 67, 68, 69, 70, 71, 72, 73, 74, 75, 76, 77,
        78, 79, 80, 81, 82, 83, 84, 85, 86, 87, 88, 89, 90, 97, 98, 99, 100, 101, 102, 103, 104,
        105, 106, 107, 108, 109, 110, 111, 112, 113, 114, 115, 116, 117, 118, 119, 120, 121, 122,
    ];
    let mut high: [u8; 8] = [0u8; 8];
    let mut low: [u8; 8] = [0u8; 8];
    let mut i: usize = 0;
    while i < 8
        invariant
            i <= 8,
            high@.len() == 8,
            low@.len() == 8,
        decreases 8 - i,
    {
        high[i] = alphabet[draw_range(rng, 0, 62) as usize];
        low[i] = alphabet[draw_range(rng, 0, 62) as usize];
        i = i + 1;
    }
    guid_from_bytes(high, low)
}

/// The device of a sign-in, read from its user agent; whether it is managed,
/// compliant and joined is drawn at random.
pub fn device_detail(user_agent: &str, rng: &mut StdRng) -> (r: DeviceDetail)
    ensures
        r.operating_system@ == operating_system_of(user_agent@),
        r.browser@ == browser_of(user_agent@),
        r.display_name@ == device_name_of(operating_system_of(user_agent@)),
        r.is_managed.is_some(),
        r.is_compliant == Some(true) ==> r.is_managed == Some(true),
        r.is_managed == Some(true) ==> (r.trust_type matches Some(t) && t@ == "AzureAD"@),
        r.device_id@.len() == 36,
{
    let operating_system = operating_system_for(user_agent);
    let browser = browser_for(user_agent);
    let display_name = device_name_for(operating_system.as_str());
    let managed = draw_ratio(rng, 1, 2);
    let compliant = managed && draw_ratio(rng, 7, 10);
    let trust_type = if managed {
        Some(owned("AzureAD"))
    } else if draw_ratio(rng, 1, 5) {
        Some(owned("HybridAzureADJoined"))
    } else {
        None
    };
    DeviceDetail {
        browser,
        device_id: random_guid(rng),
        display_name,
        is_compliant: Some(compliant),
        is_managed: Some(managed),
        operating_system,
        trust_type,
    }
}

/// The category weights: the configured ones (a weight of zero counting as one)
/// when they match the categories one for one, else one each.
pub open spec fn category_weights_of(count: int, weights: Option<Seq<u64>>) -> Seq<u64> {
    match weights {
        Some(w) if w.len() == count => w.map_values(|x: u64| if x == 0 { 1000u64 } else { x }),
        _ => Seq::new(count as nat, |i: int| 1000u64),
    }
}

/// The category weights (see `category_weights_of`), in thousandths.
pub fn weights_for_categories(count: usize, weights: Option<&Vec<u64>>) -> (r: Vec<u64>)
    ensures
        r@ == category_weights_of(
            count as int,
            match weights {
                Some(w) => Some(w@),
                None => None,
            },
        ),
{
    let mut out: Vec<u64> = Vec::new();
    let mut i: usize = 0;
    match weights {
        Some(w) if w.len() == count => {
            while i < count
                invariant
                    i <= count,
                    w@.len() == count,
                    out@ =~= w@.subrange(0, i as int).map_values(|x: u64| if x == 0 { 1000u64 } else { x }),
                decreases count - i,
            {
                let x = w[i];
                out.push(if x == 0 { 1000 } else { x });
                i = i + 1;
                assert(out@ =~= w@.subrange(0, i as int).map_values(|x: u64| if x == 0 { 1000u64 } else { x }));
            }
            assert(w@.subrange(0, count as int) =~= w@);
        },
        _ => {
            while i < count
                invariant
                    i <= count,
                    out@ =~= Seq::new(i as nat, |k: int| 1000u64),
                decreases count - i,
            {
                out.push(1000);
                i = i + 1;
            }
        },
    }
    out
}

/// The categories an Entra source emits and their weights.
pub struct CategorySelector {
    categories: Vec<String>,
    weights: Vec<u64>,
}

impl CategorySelector {
    /// The categories, trimmed and lower-cased.
    pub closed spec fn categories(&self) -> Seq<String> {
        self.categories@
    }

    /// The categories' weights, in thousandths.
    pub closed spec fn weights(&self) -> Seq<u64> {
        self.weights@
    }

    /// At least one category, one weight per category, and a positive total that
    /// fits in a `u64`.
    pub closed spec fn wf(&self) -> bool {
        &&& self.categories@.len() > 0
        &&& self.weights@.len() == self.categories@.len()
        &&& 0 < weight_sum(self.weights@) <= u64::MAX
    }

    /// A selector over the configured categories (sign-in and audit by default),
    /// trimmed, lower-cased and without blanks, weighted by `category_weights`.
    /// No category left, or weights above the maximum, is an error.
    pub fn from_config(categories: Option<&Vec<String>>, category_weights: Option<&Vec<u64>>) -> (r:
        Result<Self, EntraConfigError>)
        requires
            categories matches Some(c) ==> c@.len() <= 1_000_000,
        ensures
            r matches Ok(s) ==> s.wf() && s.weights().len() == s.categories().len(),
    {
        let mut names: Vec<String> = Vec::new();
        match categories {
            Some(list) => {
                let mut i: usize = 0;
                while i < list.len()
                    invariant
                        i <= list@.len(),
                        names@.len() <= i,
                    decreases list@.len() - i,
                {
                    let n = normalize(list[i].as_str());
                    if n.unicode_len() > 0 {
                        names.push(n);
                    }
                    i = i + 1;
                }
            },
            None => {
                names.push(owned("signin"));
                names.push(owned("audit"));
            },
        }
        if names.len() == 0 {
            return Err(EntraConfigError(owned("no categories configured")));
        }
        let weights = weights_for_categories(names.len(), category_weights);
        let mut total: u64 = 0;
        let mut i: usize = 0;
        while i < weights.len()
            invariant
                i <= weights@.len(),
                total == weight_sum(weights@.take(i as int)),
                total <= MAX_WEIGHT * i,
                weights@.len() <= 1_000_000,
            decreases weights@.len() - i,
        {
            assert(weights@.take(i + 1).drop_last() =~= weights@.take(i as int));
            if weights[i] > MAX_WEIGHT {
                return Err(EntraConfigError(owned("invalid category weights")));
            }
            total = total + weights[i];
            i = i + 1;
        }
        assert(weights@.take(weights@.len() as int) =~= weights@);
        if total == 0 {
            return Err(EntraConfigError(owned("invalid category weights")));
        }
        Ok(CategorySelector { categories: names, weights })
    }

    /// Draws a category with chance proportional to its weight.
    pub fn pick(&self, rng: &mut StdRng) -> (r: String)
        requires
            self.wf(),
        ensures
            exists|i: int| 0 <= i < self.categories().len() && (#[trigger] self.categories()[i])@ == r@
                && self.weights()[i] > 0,
    {
        match pick_weighted_index(&self.weights, rng) {
            Some(i) => {
                let r = self.categories[i].clone();
                assert(self.categories@[i as int]@ == r@);
                assert(self.categories()[i as int]@ == r@ && self.weights()[i as int] > 0);
                r
            },
            None => {
                proof {
                    assert(false);
                }
                owned("")
            },
        }
    }
}

/// The sign-in events and their weights.
pub open spec fn signin_table() -> Seq<(Seq<char>, u64)> {
    seq![("SignIn"@, 1000u64), ("RefreshToken"@, 400u64), ("DeviceCode"@, 200u64)]
}

/// The audit activities and their weights.
pub open spec fn audit_table() -> Seq<(Seq<char>, u64)> {
    seq![
        ("AddUser"@, 800u64),
        ("UpdateUser"@, 1200u64),
        ("DeleteUser"@, 200u64),
        ("AddGroupMember"@, 900u64),
        ("RemoveGroupMember"@, 400u64),
        ("AddAppRoleAssignment"@, 600u64),
        ("ResetPassword"@, 300u64),
        ("UpdateConditionalAccess"@, 200u64),
    ]
}

fn weighted(name: &str, weight: u64) -> (r: WeightedEvent)
    ensures
        r.name@ == name@,
        r.weight == weight,
{
    WeightedEvent { name: owned(name), weight }
}

/// The sign-in events and their weights.
pub fn curated_signin_events() -> (r: Vec<WeightedEvent>)
    ensures
        event_pairs(r@) == signin_table(),
{
    let mut v: Vec<WeightedEvent> = Vec::new();
    v.push(weighted("SignIn", 1000));
    v.push(weighted("RefreshToken", 400));
    v.push(weighted("DeviceCode", 200));
    assert(event_pairs(v@) =~= signin_table());
    v
}

/// The audit activities and their weights.
pub fn curated_audit_events() -> (r: Vec<WeightedEvent>)
    ensures
        event_pairs(r@) == audit_table(),
{
    let mut v: Vec<WeightedEvent> = Vec::new();
    v.push(weighted("AddUser", 800));
    v.push(weighted("UpdateUser", 1200));
    v.push(weighted("DeleteUser", 200));
    v.push(weighted("AddGroupMember", 900));
    v.push(weighted("RemoveGroupMember", 400));
    v.push(weighted("AddAppRoleAssignment", 600));
    v.push(weighted("ResetPassword", 300));
    v.push(weighted("UpdateConditionalAccess", 200));
    assert(event_pairs(v@) =~= audit_table());
    v
}

/// Draws one of the events of positive weight, each weighted by its weight times
/// the actor's positive bias for it (in thousandths); `None` when no event has a
/// positive weight.
pub fn pick_weighted_event(
    rng: &mut StdRng,
    candidates: &Vec<WeightedEvent>,
    event_bias: &Vec<(String, u64)>,
) -> (r: Option<String>)
    requires
        candidates@.len() <= 1_000_000,
        forall|i: int| 0 <= i < candidates@.len() ==> (#[trigger] candidates@[i]).weight <= MAX_WEIGHT,
        weights_bounded(event_bias@),
    ensures
        r is None <==> forall|i: int| 0 <= i < candidates@.len() ==> (#[trigger] candidates@[i]).weight == 0,
        r matches Some(name) ==> exists|i: int|
            0 <= i < candidates@.len() && (#[trigger] candidates@[i]).name@ == name@ && candidates@[i].weight > 0,
{
    let mut names: Vec<String> = Vec::new();
    let mut weights: Vec<u64> = Vec::new();
    let ghost mut origin: Seq<int> = Seq::empty();
    let mut i: usize = 0;
    while i < candidates.len()
        invariant
            origin.len() == names@.len(),
            forall|k: int|
                0 <= k < names@.len() ==> 0 <= #[trigger] origin[k] < i && candidates@[origin[k]].name@
                    == names@[k]@ && candidates@[origin[k]].weight > 0,
            i <= candidates@.len(),
            candidates@.len() <= 1_000_000,
            forall|k: int| 0 <= k < candidates@.len() ==> (#[trigger] candidates@[k]).weight <= MAX_WEIGHT,
            weights_bounded(event_bias@),
            names@.len() == weights@.len(),
            names@.len() <= i,
            forall|k: int| 0 <= k < weights@.len() ==> 0 < #[trigger] weights@[k] <= 1_000_000_000,
            names@.len() == 0 ==> forall|k: int| 0 <= k < i ==> (#[trigger] candidates@[k]).weight == 0,
        decreases candidates@.len() - i,
    {
        let w = candidates[i].weight;
        if w > 0 {
            let bias = lookup_weight(event_bias, candidates[i].name.as_str(), 0);
            proof {
                lemma_bias_bounded(event_bias@, candidates@[i as int].name@);
            }
            let weight = if bias > 0 {
                assert(w * bias <= MAX_WEIGHT * MAX_WEIGHT) by (nonlinear_arith)
                    requires w <= MAX_WEIGHT, bias <= MAX_WEIGHT;
                let x = w * bias / 1000;
                if x == 0 { 1 } else { x }
            } else {
                w
            };
            let ghost old_names = names@;
            names.push(candidates[i].name.clone());
            weights.push(weight);
            proof {
                origin = origin.push(i as int);
                assert forall|k: int| 0 <= k < names@.len() implies 0 <= #[trigger] origin[k] < i + 1
                    && candidates@[origin[k]].name@ == names@[k]@ && candidates@[origin[k]].weight > 0 by {
                    if k < old_names.len() {
                        assert(names@[k] == old_names[k]);
                    }
                }
            }
        }
        i = i + 1;
    }
    if names.len() == 0 {
        return None;
    }
    proof {
        lemma_sum_bounded(weights@, 1_000_000_000);
        assert(1_000_000_000 * weights@.len() <= 1_000_000_000 * 1_000_000) by (nonlinear_arith)
            requires weights@.len() <= 1_000_000;
        lemma_positive_first(weights@);
    }
    match pick_weighted_index(&weights, rng) {
        Some(k) => {
            let r = names[k].clone();
            assert(candidates@[origin[k as int]].name@ == r@);
            Some(r)
        },
        None => None,
    }
}

proof fn lemma_bias_bounded(table: Seq<(String, u64)>, name: Seq<char>)
    requires
        weights_bounded(table),
    ensures
        weight_of(table, name, 0) <= MAX_WEIGHT,
    decreases table.len(),
{
    if table.len() > 0 && table[0].0@ != name {
        assert(weights_bounded(table.drop_first())) by {
            assert forall|i: int| 0 <= i < table.drop_first().len() implies (#[trigger] table.drop_first()[i]).1
                <= MAX_WEIGHT by {
                assert(table.drop_first()[i] == table[i + 1]);
            }
        }
        lemma_bias_bounded(table.drop_first(), name);
    } else if table.len() > 0 {
        assert(table[0].1 <= MAX_WEIGHT);
    }
}

/// How a sign-in went: its status, the conditional-access result and the risk
/// assessment.
#[derive(Debug, Clone)]
pub struct SignInOutcome {
    pub failure: bool,
    pub status: SignInStatus,
    pub conditional_access_status: String,
    pub risk_detail: String,
    pub risk_level: String,
    pub risk_state: String,
    pub risk_event_types: Vec<String>,
}

/// The failure codes of a sign-in and their reasons.
pub open spec fn signin_failure(code: i32) -> Option<Seq<char>> {
    if code == 50126 {
        Some("Invalid username or password"@)
    } else if code == 50053 {
        Some("Account is locked"@)
    } else if code == 50055 {
        Some("Password expired"@)
    } else if code == 50057 {
        Some("User account is disabled"@)
    } else {
        None
    }
}

/// The rules a sign-in outcome follows.
pub open spec fn signin_outcome_ok(o: SignInOutcome) -> bool {
    &&& o.failure ==> {
        &&& signin_failure(o.status.error_code) matches Some(reason) && o.status.failure_reason
            matches Some(r) && r@ == reason
        &&& o.status.additional_details matches Some(d) && d@ == "Authentication failed"@
        &&& o.conditional_access_status@ == "failure"@
    }
    &&& !o.failure ==> {
        &&& o.status.error_code == 0
        &&& o.status.failure_reason is None
        &&& o.status.additional_details matches Some(d) && d@ == "MFA requirement satisfied"@
        &&& (o.conditional_access_status@ == "success"@ || o.conditional_access_status@
            == "notApplied"@)
        &&& o.risk_detail@ == "none"@
    }
    &&& (o.risk_detail@ == "none"@ || o.risk_detail@ == "unfamiliarFeatures"@)
    &&& o.risk_detail@ == "none"@ <==> o.risk_level@ == "none"@
    &&& o.risk_detail@ != "none"@ ==> (o.risk_level@ == "medium"@ || o.risk_level@ == "low"@)
    &&& o.risk_state@ == (if o.risk_level@ == "none"@ { "none"@ } else { "atRisk"@ })
    &&& o.risk_detail@ == "none"@ ==> o.risk_event_types@.len() == 0
    &&& o.risk_detail@ != "none"@ ==> o.risk_event_types@.len() == 1 && o.risk_event_types@[0]@
        == "unfamiliarFeatures"@
}

/// The outcome a sign-in has for the values drawn for it: whether it fails,
/// which of the four failure codes (`code_choice` in `0..4`), whether a success
/// skips conditional access, whether a failure is flagged as unfamiliar, and
/// whether a flagged one is at medium (else low) risk.
pub fn sign_in_outcome_for(failure: bool, code_choice: u64, skip_ca: bool, unfamiliar_roll: bool, medium: bool) -> (r:
    SignInOutcome)
    requires
        code_choice < 4,
    ensures
        signin_outcome_ok(r),
        r.failure == failure,
        failure ==> r.status.error_code == (if code_choice == 0 {
            50126i32
        } else if code_choice == 1 {
            50053i32
        } else if code_choice == 2 {
            50055i32
        } else {
            50057i32
        }),
        !failure ==> (r.conditional_access_status@ == (if skip_ca { "notApplied"@ } else { "success"@ })),
        (r.risk_detail@ == "unfamiliarFeatures"@) == (failure && unfamiliar_roll),
        failure && unfamiliar_roll ==> r.risk_level@ == (if medium { "medium"@ } else { "low"@ }),
{
    proof {
        reveal_strlit("none");
        reveal_strlit("unfamiliarFeatures");
        reveal_strlit("medium");
        reveal_strlit("low");
        assert("none"@.len() == 4 && "unfamiliarFeatures"@.len() == 18);
        assert("medium"@.len() == 6 && "low"@.len() == 3);
    }
    let status = if failure {
        let (code, reason) = if code_choice == 0 {
            (50126i32, "Invalid username or password")
        } else if code_choice == 1 {
            (50053i32, "Account is locked")
        } else if code_choice == 2 {
            (50055i32, "Password expired")
        } else {
            (50057i32, "User account is disabled")
        };
        SignInStatus {
            additional_details: Some(owned("Authentication failed")),
            error_code: code,
            failure_reason: Some(owned(reason)),
        }
    } else {
        SignInStatus {
            additional_details: Some(owned("MFA requirement satisfied")),
            error_code: 0,
            failure_reason: None,
        }
    };
    let conditional_access_status = if failure {
        owned("failure")
    } else if skip_ca {
        owned("notApplied")
    } else {
        owned("success")
    };
    let unfamiliar = failure && unfamiliar_roll;
    let risk_detail = if unfamiliar { owned("unfamiliarFeatures") } else { owned("none") };
    let risk_level = if !unfamiliar {
        owned("none")
    } else if medium {
        owned("medium")
    } else {
        owned("low")
    };
    let risk_state = if !unfamiliar { owned("none") } else { owned("atRisk") };
    let mut risk_event_types: Vec<String> = Vec::new();
    if unfamiliar {
        risk_event_types.push(owned("unfamiliarFeatures"));
    }
    SignInOutcome {
        failure,
        status,
        conditional_access_status,
        risk_detail,
        risk_level,
        risk_state,
        risk_event_types,
    }
}

/// Decides how a sign-in goes: it fails with chance `error_rate_ppm` per
/// million (always at a rate of one, never at zero), with one of four failure
/// codes drawn uniformly; a success skips conditional access one time in five; a
/// failure is flagged as unfamiliar one time in four, at medium risk three times
/// in five and low risk otherwise (see `sign_in_outcome_for`).
pub fn sign_in_outcome(error_rate_ppm: u32, rng: &mut StdRng) -> (r: SignInOutcome)
    requires
        error_rate_ppm <= crate::actors::PPM,
    ensures
        signin_outcome_ok(r),
        error_rate_ppm == 0 ==> !r.failure,
        error_rate_ppm == crate::actors::PPM ==> r.failure,
{
    let failure = draw_ratio(rng, error_rate_ppm, crate::actors::PPM);
    let code_choice = if failure { draw_range(rng, 0, 4) } else { 0 };
    let skip_ca = !failure && draw_ratio(rng, 1, 5);
    let unfamiliar_roll = failure && draw_ratio(rng, 1, 4);
    let medium = unfamiliar_roll && draw_ratio(rng, 3, 5);
    sign_in_outcome_for(failure, code_choice, skip_ca, unfamiliar_roll, medium)
}

/// Where a sign-in comes from, by the actor's UTC offset.
#[derive(Debug, Clone)]
pub struct SignInPlace {
    pub city: String,
    pub state: String,
    pub country_or_region: String,
}

/// The city of a sign-in at UTC-8, UTC+0 and UTC+8; other offsets get New York or
/// Frankfurt, one or the other at even chances.
pub fn location_for_offset(offset: i8, rng: &mut StdRng) -> (r: SignInPlace)
    ensures
        offset == -8 ==> r.city@ == "Seattle"@ && r.state@ == "WA"@ && r.country_or_region@ == "US"@,
        offset == 0 ==> r.city@ == "London"@ && r.state@ == "London"@ && r.country_or_region@ == "GB"@,
        offset == 8 ==> r.city@ == "Singapore"@ && r.state@ == "Singapore"@ && r.country_or_region@ == "SG"@,
        !(offset == -8 || offset == 0 || offset == 8) ==> (r.city@ == "New York"@ && r.country_or_region@
            == "US"@) || (r.city@ == "Frankfurt"@ && r.country_or_region@ == "DE"@),
{
    let (city, state, country) = if offset == -8 {
        ("Seattle", "WA", "US")
    } else if offset == 0 {
        ("London", "London", "GB")
    } else if offset == 8 {
        ("Singapore", "Singapore", "SG")
    } else if draw_ratio(rng, 1, 2) {
        ("New York", "NY", "US")
    } else {
        ("Frankfurt", "Hesse", "DE")
    };
    SignInPlace { city: owned(city), state: owned(state), country_or_region: owned(country) }
}

/// A sign-in record, in plain values.
#[derive(Debug, Clone)]
pub struct SignInRecord {
    pub id: String,
    pub created_date_time: String,
    pub app_display_name: String,
    pub app_id: String,
    pub user_display_name: Option<String>,
    pub user_id: Option<String>,
    pub user_principal_name: Option<String>,
    pub ip_address: String,
    pub client_app_used: String,
    pub correlation_id: String,
    pub is_interactive: bool,
    pub conditional_access_status: String,
    pub device_detail: DeviceDetail,
    pub location: SignInPlace,
    pub risk_detail: String,
    pub risk_level_aggregated: String,
    pub risk_level_during_sign_in: String,
    pub risk_state: String,
    pub risk_event_types: Vec<String>,
    pub risk_event_types_v2: Vec<String>,
    pub resource_display_name: String,
    pub resource_id: String,
    pub status: SignInStatus,
}

/// Builds the record of a sign-in named `event_name` by the actor of `ctx` at
/// `event_time`, failing with chance `error_rate_ppm` per million.
pub fn build_signin_record(
    ctx: &EntraActorContext,
    event_time: &str,
    error_rate_ppm: u32,
    event_name: &str,
    rng: &mut StdRng,
) -> (r: SignInRecord)
    requires
        error_rate_ppm <= crate::actors::PPM,
    ensures
        r.created_date_time@ == event_time@,
        r.ip_address@ == ctx.ip_address@,
        r.app_display_name@ == ctx.app_display_name@,
        r.app_id@ == ctx.app_id@,
        r.resource_display_name@ == ctx.app_display_name@,
        r.resource_id@ == ctx.app_id@,
        r.user_principal_name == ctx.user_principal_name,
        r.user_display_name == ctx.user_display_name,
        r.user_id == ctx.user_id,
        r.is_interactive == ctx.is_interactive,
        r.risk_level_aggregated == r.risk_level_during_sign_in,
        r.risk_event_types_v2@.len() == r.risk_event_types@.len(),
        forall|i: int| 0 <= i < r.risk_event_types@.len() ==> (#[trigger] r.risk_event_types_v2@[i])@
            == r.risk_event_types@[i]@,
        (r.status.error_code == 0) == r.status.failure_reason is None,
        r.status.error_code != 0 ==> signin_failure(r.status.error_code) is Some
            && r.conditional_access_status@ == "failure"@,
        error_rate_ppm == 0 ==> r.status.error_code == 0,
        error_rate_ppm == crate::actors::PPM ==> r.status.error_code != 0,
        r.device_detail.operating_system@ == operating_system_of(ctx.user_agent@),
        r.device_detail.browser@ == browser_of(ctx.user_agent@),
        (event_name@ == "DeviceCode"@ || event_name@ == "RefreshToken"@ || !ctx.is_interactive) ==> r.client_app_used@
            == "Other clients"@,
        r.id@.len() == 36 && r.correlation_id@.len() == 36,
{
    let outcome = sign_in_outcome(error_rate_ppm, rng);
    let device_detail = device_detail(ctx.user_agent.as_str(), rng);
    let location = location_for_offset(ctx.timezone_offset, rng);
    let client_app_used = client_app_used(ctx.user_agent.as_str(), ctx.is_interactive, event_name, rng);
    let id = random_guid(rng);
    let correlation_id = random_guid(rng);
    let risk_level_during_sign_in = outcome.risk_level.clone();
    let risk_event_types_v2 = clone_strings(&outcome.risk_event_types);
    SignInRecord {
        id,
        created_date_time: owned(event_time),
        app_display_name: ctx.app_display_name.clone(),
        app_id: ctx.app_id.clone(),
        user_display_name: ctx.user_display_name.clone(),
        user_id: ctx.user_id.clone(),
        user_principal_name: ctx.user_principal_name.clone(),
        ip_address: ctx.ip_address.clone(),
        client_app_used,
        correlation_id,
        is_interactive: ctx.is_interactive,
        conditional_access_status: outcome.conditional_access_status,
        device_detail,
        location,
        risk_detail: outcome.risk_detail,
        risk_level_aggregated: outcome.risk_level,
        risk_level_during_sign_in,
        risk_state: outcome.risk_state,
        risk_event_types: outcome.risk_event_types,
        risk_event_types_v2,
        resource_display_name: ctx.app_display_name.clone(),
        resource_id: ctx.app_id.clone(),
        status: outcome.status,
    }
}

/// A copy of a list of strings.
pub fn clone_strings(v: &Vec<String>) -> (r: Vec<String>)
    ensures
        r@.len() == v@.len(),
        forall|i: int| 0 <= i < v@.len() ==> (#[trigger] r@[i])@ == v@[i]@,
{
    let mut out: Vec<String> = Vec::new();
    let mut i: usize = 0;
    while i < v.len()
        invariant
            i <= v@.len(),
            out@.len() == i,
            forall|k: int| 0 <= k < i ==> (#[trigger] out@[k])@ == v@[k]@,
        decreases v@.len() - i,
    {
        out.push(v[i].clone());
        i = i + 1;
    }
    out
}

} // verus!
