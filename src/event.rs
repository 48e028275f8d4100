//! The envelope shared by every emitted event.
use vstd::prelude::*;

verus! {

/// Actor identity for an event.
#[derive(Debug, Clone)]
pub struct Actor {
    /// Stable actor identifier.
    pub id: String,
    /// Actor kind (user, service, etc.).
    pub kind: String,
    /// Optional display name.
    pub name: Option<String>,
}

/// Target entity for an event.
#[derive(Debug, Clone)]
pub struct Target {
    /// Stable target identifier.
    pub id: String,
    /// Target kind (resource, policy, etc.).
    pub kind: String,
    /// Optional display name.
    pub name: Option<String>,
}

/// Event outcome.
#[derive(Debug, Clone, Copy, PartialEq, Eq, Structural)]
pub enum Outcome {
    Success,
    Failure,
    Unknown,
}

/// The wire name of an outcome.
pub open spec fn outcome_name(outcome: Outcome) -> Seq<char> {
    match outcome {
        Outcome::Success => "success"@,
        Outcome::Failure => "failure"@,
        Outcome::Unknown => "unknown"@,
    }
}

/// The wire name of an outcome.
pub fn outcome_to_str(outcome: &Outcome) -> (r: &'static str)
    ensures
        r@ == outcome_name(*outcome),
{
    match outcome {
        Outcome::Success => "success",
        Outcome::Failure => "failure",
        Outcome::Unknown => "unknown",
    }
}

} // verus!
