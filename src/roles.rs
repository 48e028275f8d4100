//! Rates and weights of roles and service profiles, and the draws that use them.
//!
//! Rates are thousandths of an event per hour; weights are thousandths.
use vstd::prelude::*;

use rand::rngs::StdRng;

use crate::actors::{ActorRole, ServicePattern, ServiceProfile};
use crate::rng::draw_range;
use crate::select::{lemma_sum_bounded, pick_weighted_index, MAX_WEIGHT};
use crate::text::{owned, str_eq};

verus! {

/// The event rate of each human role.
#[derive(Debug, Clone, Copy, PartialEq, Eq, Structural)]
pub struct RoleRates {
    pub admin: u64,
    pub developer: u64,
    pub readonly: u64,
    pub auditor: u64,
}

impl RoleRates {
    /// Admins 24, developers 18, read-only users 8 and auditors 6 events per hour.
    pub fn default() -> (r: Self)
        ensures
            r == (RoleRates { admin: 24_000, developer: 18_000, readonly: 8_000, auditor: 6_000 }),
    {
        RoleRates { admin: 24_000, developer: 18_000, readonly: 8_000, auditor: 6_000 }
    }

    /// The rate of a role.
    pub open spec fn rate_of(&self, role: ActorRole) -> u64 {
        match role {
            ActorRole::Admin => self.admin,
            ActorRole::Developer => self.developer,
            ActorRole::ReadOnly => self.readonly,
            ActorRole::Auditor => self.auditor,
        }
    }

    /// The rate of a role.
    pub fn for_role(&self, role: &ActorRole) -> (r: u64)
        ensures
            r == self.rate_of(*role),
    {
        match role {
            ActorRole::Admin => self.admin,
            ActorRole::Developer => self.developer,
            ActorRole::ReadOnly => self.readonly,
            ActorRole::Auditor => self.auditor,
        }
    }
}

/// A configured role: its name, its weight among humans and its rate.
#[derive(Debug, Clone)]
pub struct RoleConfig {
    pub name: String,
    pub weight: u64,
    pub events_per_hour: u64,
}

/// The role a configured name stands for, exactly as written.
pub open spec fn role_named_exactly(name: Seq<char>) -> Option<ActorRole> {
    if name == "admin"@ {
        Some(ActorRole::Admin)
    } else if name == "developer"@ {
        Some(ActorRole::Developer)
    } else if name == "readonly"@ {
        Some(ActorRole::ReadOnly)
    } else if name == "auditor"@ {
        Some(ActorRole::Auditor)
    } else {
        None
    }
}

/// The default role weights: admin 0.15, developer 0.55, read-only 0.25 and
/// auditor 0.05.
pub open spec fn default_role_weights() -> Seq<(ActorRole, u64)> {
    seq![
        (ActorRole::Admin, 150u64),
        (ActorRole::Developer, 550u64),
        (ActorRole::ReadOnly, 250u64),
        (ActorRole::Auditor, 50u64),
    ]
}

/// The index of a role in the default weight list.
pub open spec fn role_slot(role: ActorRole) -> int {
    match role {
        ActorRole::Admin => 0,
        ActorRole::Developer => 1,
        ActorRole::ReadOnly => 2,
        ActorRole::Auditor => 3,
    }
}

/// Role weights and rates after the configured entries: each entry naming a role
/// replaces that role's weight and rate where the new value is positive; entries
/// with other names are ignored.
pub open spec fn role_config_after(
    entries: Seq<RoleConfig>,
) -> (Seq<(ActorRole, u64)>, RoleRates)
    decreases entries.len(),
{
    if entries.len() == 0 {
        (default_role_weights(), RoleRates { admin: 24_000, developer: 18_000, readonly: 8_000, auditor: 6_000 })
    } else {
        let (w, r) = role_config_after(entries.drop_last());
        let e = entries.last();
        match role_named_exactly(e.name@) {
            None => (w, r),
            Some(role) => {
                let w2 = if e.weight > 0 { w.update(role_slot(role), (role, e.weight)) } else { w };
                let r2 = if e.events_per_hour > 0 {
                    match role {
                        ActorRole::Admin => RoleRates { admin: e.events_per_hour, ..r },
                        ActorRole::Developer => RoleRates { developer: e.events_per_hour, ..r },
                        ActorRole::ReadOnly => RoleRates { readonly: e.events_per_hour, ..r },
                        ActorRole::Auditor => RoleRates { auditor: e.events_per_hour, ..r },
                    }
                } else {
                    r
                };
                (w2, r2)
            },
        }
    }
}

fn role_for_name(name: &str) -> (r: Option<ActorRole>)
    ensures
        r == role_named_exactly(name@),
{
    if str_eq(name, "admin") {
        Some(ActorRole::Admin)
    } else if str_eq(name, "developer") {
        Some(ActorRole::Developer)
    } else if str_eq(name, "readonly") {
        Some(ActorRole::ReadOnly)
    } else if str_eq(name, "auditor") {
        Some(ActorRole::Auditor)
    } else {
        None
    }
}

/// The role weights and rates: the defaults, overridden by the configured roles
/// (see `role_config_after`); no list, or an empty one, keeps the defaults.
pub fn build_role_config(config: Option<&Vec<RoleConfig>>) -> (r: (Vec<(ActorRole, u64)>, RoleRates))
    ensures
        ({
            let entries = match config {
                Some(list) => list@,
                None => Seq::empty(),
            };
            r.0@ == role_config_after(entries).0 && r.1 == role_config_after(entries).1
        }),
{
    let mut weights: Vec<(ActorRole, u64)> = Vec::new();
    weights.push((ActorRole::Admin, 150));
    weights.push((ActorRole::Developer, 550));
    weights.push((ActorRole::ReadOnly, 250));
    weights.push((ActorRole::Auditor, 50));
    let mut rates = RoleRates::default();
    assert(weights@ =~= default_role_weights());
    let entries = match config {
        Some(list) => list,
        None => return (weights, rates),
    };
    let mut i: usize = 0;
    assert(entries@.take(0) =~= Seq::<RoleConfig>::empty());
    while i < entries.len()
        invariant
            i <= entries@.len(),
            weights@ == role_config_after(entries@.take(i as int)).0,
            rates == role_config_after(entries@.take(i as int)).1,
        decreases entries@.len() - i,
    {
        assert(entries@.take(i + 1).drop_last() =~= entries@.take(i as int));
        assert(entries@.take(i + 1).last() == entries@[i as int]);
        let e = &entries[i];
        match role_for_name(e.name.as_str()) {
            None => {},
            Some(role) => {
                let slot: usize = match role {
                    ActorRole::Admin => 0,
                    ActorRole::Developer => 1,
                    ActorRole::ReadOnly => 2,
                    ActorRole::Auditor => 3,
                };
                if e.weight > 0 {
                    proof {
                        lemma_weights_len(entries@.take(i as int));
                    }
                    weights.set(slot, (role, e.weight));
                }
                if e.events_per_hour > 0 {
                    match role {
                        ActorRole::Admin => rates.admin = e.events_per_hour,
                        ActorRole::Developer => rates.developer = e.events_per_hour,
                        ActorRole::ReadOnly => rates.readonly = e.events_per_hour,
                        ActorRole::Auditor => rates.auditor = e.events_per_hour,
                    }
                }
            },
        }
        i = i + 1;
    }
    assert(entries@.take(entries@.len() as int) =~= entries@);
    (weights, rates)
}

proof fn lemma_weights_len(entries: Seq<RoleConfig>)
    ensures
        role_config_after(entries).0.len() == 4,
    decreases entries.len(),
{
    if entries.len() > 0 {
        lemma_weights_len(entries.drop_last());
    }
}

/// A synthesised human's role: a weighted draw over the role weights; developer
/// when there are none or they are all zero.
pub fn pick_human_role(rng: &mut StdRng, role_weights: &Vec<(ActorRole, u64)>) -> (r: ActorRole)
    requires
        role_weights@.len() <= 1_000_000,
        forall|i: int| 0 <= i < role_weights@.len() ==> (#[trigger] role_weights@[i]).1 <= MAX_WEIGHT,
    ensures
        r == ActorRole::Developer || exists|i: int|
            0 <= i < role_weights@.len() && (#[trigger] role_weights@[i]).0 == r && role_weights@[i].1 > 0,
{
    let mut weights: Vec<u64> = Vec::new();
    let mut i: usize = 0;
    while i < role_weights.len()
        invariant
            i <= role_weights@.len(),
            weights@.len() == i,
            forall|k: int| 0 <= k < i ==> #[trigger] weights@[k] == role_weights@[k].1,
            forall|k: int| 0 <= k < role_weights@.len() ==> (#[trigger] role_weights@[k]).1 <= MAX_WEIGHT,
        decreases role_weights@.len() - i,
    {
        weights.push(role_weights[i].1);
        i = i + 1;
    }
    proof {
        assert forall|k: int| 0 <= k < weights@.len() implies #[trigger] weights@[k] <= MAX_WEIGHT by {
            assert(weights@[k] == role_weights@[k].1);
        }
        lemma_sum_bounded(weights@, MAX_WEIGHT as int);
        assert(MAX_WEIGHT * weights@.len() <= MAX_WEIGHT * 1_000_000) by (nonlinear_arith)
            requires weights@.len() <= 1_000_000;
    }
    match pick_weighted_index(&weights, rng) {
        Some(k) => {
            let r = role_weights[k].0;
            assert(role_weights@[k as int].0 == r && role_weights@[k as int].1 > 0);
            r
        },
        None => ActorRole::Developer,
    }
}

/// A service profile with its weight among services, its rate and its pattern.
#[derive(Debug, Clone, Copy, PartialEq, Eq, Structural)]
pub struct ServiceProfileSpec {
    pub profile: ServiceProfile,
    pub weight: u64,
    pub rate_per_hour: u64,
    pub pattern: ServicePattern,
}

/// A synthesised service's profile: a weighted draw over the configured profiles;
/// without any, a generic constant profile at the fallback rate (at least a tenth
/// of an event per hour); with all weights zero, the first profile.
pub fn pick_service_profile(rng: &mut StdRng, profiles: &Vec<ServiceProfileSpec>, fallback_rate: u64) -> (r:
    ServiceProfileSpec)
    requires
        profiles@.len() <= 1_000_000,
        forall|i: int| 0 <= i < profiles@.len() ==> (#[trigger] profiles@[i]).weight <= MAX_WEIGHT,
    ensures
        profiles@.len() == 0 ==> r == (ServiceProfileSpec {
            profile: ServiceProfile::Generic,
            weight: 1000,
            rate_per_hour: if fallback_rate < 100 { 100 } else { fallback_rate },
            pattern: ServicePattern::Constant,
        }),
        profiles@.len() > 0 ==> exists|i: int| 0 <= i < profiles@.len() && #[trigger] profiles@[i] == r,
{
    if profiles.len() == 0 {
        return ServiceProfileSpec {
            profile: ServiceProfile::Generic,
            weight: 1000,
            rate_per_hour: if fallback_rate < 100 { 100 } else { fallback_rate },
            pattern: ServicePattern::Constant,
        };
    }
    let mut weights: Vec<u64> = Vec::new();
    let mut i: usize = 0;
    while i < profiles.len()
        invariant
            i <= profiles@.len(),
            weights@.len() == i,
            forall|k: int| 0 <= k < i ==> #[trigger] weights@[k] == profiles@[k].weight,
            forall|k: int| 0 <= k < profiles@.len() ==> (#[trigger] profiles@[k]).weight <= MAX_WEIGHT,
        decreases profiles@.len() - i,
    {
        weights.push(profiles[i].weight);
        i = i + 1;
    }
    proof {
        assert forall|k: int| 0 <= k < weights@.len() implies #[trigger] weights@[k] <= MAX_WEIGHT by {
            assert(weights@[k] == profiles@[k].weight);
        }
        lemma_sum_bounded(weights@, MAX_WEIGHT as int);
        assert(MAX_WEIGHT * weights@.len() <= MAX_WEIGHT * 1_000_000) by (nonlinear_arith)
            requires weights@.len() <= 1_000_000;
    }
    match pick_weighted_index(&weights, rng) {
        Some(k) => {
            let r = profiles[k];
            assert(profiles@[k as int] == r);
            r
        },
        None => {
            let r = profiles[0];
            assert(profiles@[0] == r);
            r
        },
    }
}

/// An account for a synthesised actor: one of the pool, drawn uniformly, or
/// twelve zeros when the pool is empty.
pub fn pick_account_id(rng: &mut StdRng, account_ids: &Vec<String>) -> (r: String)
    ensures
        account_ids@.len() == 0 ==> r@ == "000000000000"@,
        account_ids@.len() > 0 ==> exists|i: int| 0 <= i < account_ids@.len() && (#[trigger] account_ids@[i])@ == r@,
{
    if account_ids.len() == 0 {
        return owned("000000000000");
    }
    let idx = draw_range(rng, 0, account_ids.len() as u64) as usize;
    let r = account_ids[idx].clone();
    assert(account_ids@[idx as int]@ == r@);
    r
}

} // verus!
