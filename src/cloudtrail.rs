//! Fixed parts of CloudTrail records that depend on the event name alone.
use vstd::prelude::*;

use rand::rngs::StdRng;

use crate::actors::PPM;
use crate::event::Outcome;
use crate::rng::draw_range;
use crate::text::{owned, str_eq};

verus! {

/// What a CloudTrail template needs to know about the acting identity.
#[derive(Debug, Clone)]
pub struct ActorContext {
    pub identity_type: String,
    pub principal_id: String,
    pub arn: String,
    pub account_id: String,
    pub access_key_id: Option<String>,
    pub user_name: Option<String>,
    pub user_agent: String,
    pub source_ip: String,
    pub region: String,
    pub mfa_authenticated: bool,
    pub session_credential_from_console: bool,
}

/// A template could not build a record.
#[derive(Debug, Clone, Copy, PartialEq, Eq, Structural)]
pub enum TemplateError {
    EmptyEventName,
}

impl TemplateError {
    /// The human-readable message of the error.
    pub fn message(&self) -> (r: String)
        ensures
            r@ == "event name must not be empty"@,
    {
        owned("event name must not be empty")
    }
}

/// Session attributes of an assumed-role identity.
#[derive(Debug, Clone)]
pub struct SessionAttributes {
    pub creation_date: String,
    pub mfa_authenticated: String,
}

/// TLS details of a request.
#[derive(Debug, Clone)]
pub struct TlsDetails {
    pub tls_version: String,
    pub cipher_suite: String,
    pub client_provided_host_header: String,
}

/// The failure injected into an event: its chance in parts per million, and the
/// error code and message it sets.
#[derive(Debug, Clone)]
pub struct ErrorProfile {
    pub rate_ppm: u32,
    pub code: String,
    pub message: String,
}

/// The record type of an event: a console sign-in, or an API call.
pub open spec fn event_type_name(event_name: Seq<char>) -> Seq<char> {
    if event_name == "ConsoleLogin"@ {
        "AwsConsoleSignIn"@
    } else {
        "AwsApiCall"@
    }
}

/// The record type of an event: a console sign-in, or an API call.
pub fn event_type_for(event_name: &str) -> (r: &'static str)
    ensures
        r@ == event_type_name(event_name@),
{
    if str_eq(event_name, "ConsoleLogin") {
        "AwsConsoleSignIn"
    } else {
        "AwsApiCall"
    }
}

/// The events that only read state.
pub open spec fn is_read_only_event(n: Seq<char>) -> bool {
    n == "GetObject"@ || n == "DescribeInstances"@ || n == "GetCallerIdentity"@ || n
        == "DescribeLogStreams"@ || n == "GetMetricData"@ || n == "ListMetrics"@ || n
        == "ConsoleLogin"@
}

/// The `readOnly` flag of an event: always present, true for reads and sign-ins.
pub fn read_only_for(event_name: &str) -> (r: Option<bool>)
    ensures
        r == Some(is_read_only_event(event_name@)),
{
    let n = event_name;
    let ro = str_eq(n, "GetObject") || str_eq(n, "DescribeInstances") || str_eq(
        n,
        "GetCallerIdentity",
    ) || str_eq(n, "DescribeLogStreams") || str_eq(n, "GetMetricData") || str_eq(n, "ListMetrics")
        || str_eq(n, "ConsoleLogin");
    Some(ro)
}

/// The AWS service endpoint that serves an event.
pub open spec fn event_source_name(n: Seq<char>) -> Seq<char> {
    if n == "ConsoleLogin"@ {
        "signin.amazonaws.com"@
    } else if n == "AssumeRole"@ || n == "GetSessionToken"@ || n == "GetCallerIdentity"@ {
        "sts.amazonaws.com"@
    } else if n == "PutObject"@ || n == "GetObject"@ || n == "DeleteObject"@ || n
        == "CreateBucket"@ || n == "DeleteBucket"@ {
        "s3.amazonaws.com"@
    } else if n == "RunInstances"@ || n == "StartInstances"@ || n == "StopInstances"@ || n
        == "TerminateInstances"@ || n == "DescribeInstances"@ || n == "CreateSecurityGroup"@ || n
        == "AuthorizeSecurityGroupIngress"@ {
        "ec2.amazonaws.com"@
    } else if n == "CreateUser"@ || n == "DeleteUser"@ || n == "CreateAccessKey"@ || n
        == "UpdateAccessKey"@ || n == "AttachRolePolicy"@ || n == "AddUserToGroup"@ || n
        == "CreateRole"@ {
        "iam.amazonaws.com"@
    } else if n == "CreateLogGroup"@ || n == "CreateLogStream"@ || n == "DescribeLogStreams"@ || n
        == "PutLogEvents"@ {
        "logs.amazonaws.com"@
    } else if n == "Encrypt"@ || n == "Decrypt"@ || n == "GenerateDataKey"@ {
        "kms.amazonaws.com"@
    } else if n == "PutMetricData"@ || n == "GetMetricData"@ || n == "ListMetrics"@ {
        "monitoring.amazonaws.com"@
    } else if n == "UpdateTrail"@ {
        "cloudtrail.amazonaws.com"@
    } else {
        "unknown.amazonaws.com"@
    }
}

/// The AWS service endpoint that serves an event.
pub fn event_source_for(event_name: &str) -> (r: &'static str)
    ensures
        r@ == event_source_name(event_name@),
{
    let n = event_name;
    if str_eq(n, "ConsoleLogin") {
        "signin.amazonaws.com"
    } else if str_eq(n, "AssumeRole") || str_eq(n, "GetSessionToken") || str_eq(
        n,
        "GetCallerIdentity",
    ) {
        "sts.amazonaws.com"
    } else if str_eq(n, "PutObject") || str_eq(n, "GetObject") || str_eq(n, "DeleteObject")
        || str_eq(n, "CreateBucket") || str_eq(n, "DeleteBucket") {
        "s3.amazonaws.com"
    } else if str_eq(n, "RunInstances") || str_eq(n, "StartInstances") || str_eq(
        n,
        "StopInstances",
    ) || str_eq(n, "TerminateInstances") || str_eq(n, "DescribeInstances") || str_eq(
        n,
        "CreateSecurityGroup",
    ) || str_eq(n, "AuthorizeSecurityGroupIngress") {
        "ec2.amazonaws.com"
    } else if str_eq(n, "CreateUser") || str_eq(n, "DeleteUser") || str_eq(n, "CreateAccessKey")
        || str_eq(n, "UpdateAccessKey") || str_eq(n, "AttachRolePolicy") || str_eq(
        n,
        "AddUserToGroup",
    ) || str_eq(n, "CreateRole") {
        "iam.amazonaws.com"
    } else if str_eq(n, "CreateLogGroup") || str_eq(n, "CreateLogStream") || str_eq(
        n,
        "DescribeLogStreams",
    ) || str_eq(n, "PutLogEvents") {
        "logs.amazonaws.com"
    } else if str_eq(n, "Encrypt") || str_eq(n, "Decrypt") || str_eq(n, "GenerateDataKey") {
        "kms.amazonaws.com"
    } else if str_eq(n, "PutMetricData") || str_eq(n, "GetMetricData") || str_eq(n, "ListMetrics") {
        "monitoring.amazonaws.com"
    } else if str_eq(n, "UpdateTrail") {
        "cloudtrail.amazonaws.com"
    } else {
        "unknown.amazonaws.com"
    }
}

/// The TLS details of a request to `event_source`: TLS 1.2 with a fixed suite, and
/// the endpoint as host header.
pub fn tls_details_for(event_source: &str) -> (r: TlsDetails)
    ensures
        r.tls_version@ == "TLSv1.2"@,
        r.cipher_suite@ == "ECDHE-RSA-AES128-GCM-SHA256"@,
        r.client_provided_host_header@ == event_source@,
{
    TlsDetails {
        tls_version: owned("TLSv1.2"),
        cipher_suite: owned("ECDHE-RSA-AES128-GCM-SHA256"),
        client_provided_host_header: owned(event_source),
    }
}

/// The failure injected into an event by default: (chance in parts per million,
/// error code, message).
pub open spec fn default_error(n: Seq<char>) -> (u32, Seq<char>, Seq<char>) {
    if n == "ConsoleLogin"@ {
        (80_000, "SigninFailure"@, "Failed authentication"@)
    } else if n == "GetSessionToken"@ {
        (50_000, "AccessDenied"@, "Invalid MFA token"@)
    } else if n == "AssumeRole"@ {
        (30_000, "AccessDenied"@, "Not authorized to assume role"@)
    } else if n == "PutObject"@ || n == "GetObject"@ {
        (20_000, "AccessDenied"@, "Access denied"@)
    } else if n == "RunInstances"@ {
        (20_000, "UnauthorizedOperation"@, "Not authorized to perform operation"@)
    } else {
        (10_000, "AccessDenied"@, "Access denied"@)
    }
}

/// Builds an error profile from its parts.
fn error_profile(rate_ppm: u32, code: &str, message: &str) -> (r: ErrorProfile)
    ensures
        r.rate_ppm == rate_ppm,
        r.code@ == code@,
        r.message@ == message@,
{
    ErrorProfile { rate_ppm, code: owned(code), message: owned(message) }
}

/// The failure injected into an event by default, by event name.
pub fn default_error_profile(event_name: &str) -> (r: Option<ErrorProfile>)
    ensures
        r matches Some(p) && (p.rate_ppm, p.code@, p.message@) == default_error(event_name@),
{
    let n = event_name;
    let p = if str_eq(n, "ConsoleLogin") {
        error_profile(80_000, "SigninFailure", "Failed authentication")
    } else if str_eq(n, "GetSessionToken") {
        error_profile(50_000, "AccessDenied", "Invalid MFA token")
    } else if str_eq(n, "AssumeRole") {
        error_profile(30_000, "AccessDenied", "Not authorized to assume role")
    } else if str_eq(n, "PutObject") || str_eq(n, "GetObject") {
        error_profile(20_000, "AccessDenied", "Access denied")
    } else if str_eq(n, "RunInstances") {
        error_profile(20_000, "UnauthorizedOperation", "Not authorized to perform operation")
    } else {
        error_profile(10_000, "AccessDenied", "Access denied")
    };
    Some(p)
}

/// Whether a uniform draw in `0..PPM` falls below the event's default error rate.
pub open spec fn fails_on(event_name: Seq<char>, draw: u32) -> bool {
    draw < default_error(event_name).0
}

/// The failure injected for a uniform draw `draw` in `0..PPM`: the event's default
/// error profile when the draw falls below its rate, else none.
pub fn error_for_draw(event_name: &str, draw: u32) -> (r: Option<ErrorProfile>)
    requires
        draw < PPM,
    ensures
        r is Some <==> draw < default_error(event_name@).0,
        r matches Some(p) ==> (p.rate_ppm, p.code@, p.message@) == default_error(event_name@),
{
    match default_error_profile(event_name) {
        None => None,
        Some(p) => if draw < p.rate_ppm {
            Some(p)
        } else {
            None
        },
    }
}

/// Decides whether an event fails: a uniform draw in `0..PPM` decides it through
/// `error_for_draw`, so the event fails with the chance of its default profile.
pub fn roll_error(event_name: &str, rng: &mut StdRng) -> (r: Option<ErrorProfile>)
    ensures
        exists|draw: u32| draw < PPM && (r is Some <==> #[trigger] fails_on(event_name@, draw)),
        r matches Some(p) ==> (p.rate_ppm, p.code@, p.message@) == default_error(event_name@),
{
    let draw = draw_range(rng, 0, PPM as u64) as u32;
    let r = error_for_draw(event_name, draw);
    assert(r is Some <==> fails_on(event_name@, draw));
    r
}

/// The outcome of an event: a failure when an error was injected.
pub fn outcome_for(error: &Option<ErrorProfile>) -> (r: Outcome)
    ensures
        r == if error is Some { Outcome::Failure } else { Outcome::Success },
{
    match error {
        Some(_) => Outcome::Failure,
        None => Outcome::Success,
    }
}

} // verus!
