//! The catalogue of CloudTrail event names and their base weights.
//!
//! Weights are fixed-point: thousandths of a unit.
use vstd::prelude::*;

use rand::rngs::StdRng;

use crate::select::{lemma_sum_bounded, pick_weighted_index, weight_sum, MAX_WEIGHT};
use crate::text::{lemma_seq_lt_total, owned, seq_lt, str_eq, str_lt};

verus! {

/// An event name with its base weight.
#[derive(Debug, Clone)]
pub struct WeightedEvent {
    pub name: String,
    pub weight: u64,
}

/// Why no event selector could be built.
#[derive(Debug, Clone, PartialEq, Eq)]
pub enum CatalogError {
    /// No event is left to choose from.
    EmptyEventSet,
    /// An event has a weight of zero or above the supported maximum.
    InvalidWeight { name: String, weight: u64 },
    /// The actor population could not be loaded.
    Population(String),
}

/// The catalogue settings of a CloudTrail source.
#[derive(Debug, Clone)]
pub struct CloudTrailSourceConfig {
    /// Whether the built-in catalogue is enabled.
    pub curated: bool,
    /// Path of a population file for this source.
    pub actor_population_path: Option<String>,
    /// Regions to emit events in.
    pub regions: Option<Vec<String>>,
    /// Relative weight of each region, in thousandths.
    pub region_distribution: Option<Vec<u64>>,
}

/// The built-in catalogue: event names and base weights.
pub open spec fn curated_table() -> Seq<(Seq<char>, u64)> {
    seq![
        ("ConsoleLogin"@, 1000u64),
        ("AssumeRole"@, 800u64),
        ("GetSessionToken"@, 600u64),
        ("GetCallerIdentity"@, 600u64),
        ("CreateUser"@, 300u64),
        ("DeleteUser"@, 100u64),
        ("CreateAccessKey"@, 200u64),
        ("UpdateAccessKey"@, 200u64),
        ("AttachRolePolicy"@, 200u64),
        ("PutObject"@, 1400u64),
        ("GetObject"@, 1600u64),
        ("DeleteObject"@, 800u64),
        ("CreateBucket"@, 300u64),
        ("DeleteBucket"@, 100u64),
        ("RunInstances"@, 400u64),
        ("TerminateInstances"@, 200u64),
        ("StartInstances"@, 300u64),
        ("StopInstances"@, 300u64),
        ("DescribeInstances"@, 900u64),
        ("CreateSecurityGroup"@, 300u64),
        ("AuthorizeSecurityGroupIngress"@, 400u64),
        ("CreateLogGroup"@, 200u64),
        ("PutLogEvents"@, 1100u64),
        ("CreateLogStream"@, 500u64),
        ("DescribeLogStreams"@, 600u64),
        ("Encrypt"@, 500u64),
        ("Decrypt"@, 500u64),
        ("GenerateDataKey"@, 400u64),
        ("PutMetricData"@, 800u64),
        ("GetMetricData"@, 800u64),
        ("ListMetrics"@, 500u64)
    ]
}

/// The names and weights of a list of weighted events.
pub open spec fn event_pairs(events: Seq<WeightedEvent>) -> Seq<(Seq<char>, u64)> {
    events.map_values(|e: WeightedEvent| (e.name@, e.weight))
}

fn weighted(name: &str, weight: u64) -> (r: WeightedEvent)
    ensures
        r.name@ == name@,
        r.weight == weight,
{
    WeightedEvent { name: owned(name), weight }
}

/// The built-in catalogue: event names and base weights.
pub fn curated_event_weights() -> (r: Vec<WeightedEvent>)
    ensures
        event_pairs(r@) == curated_table(),
{
    let mut v: Vec<WeightedEvent> = Vec::new();
    v.push(weighted("ConsoleLogin", 1000));
    v.push(weighted("AssumeRole", 800));
    v.push(weighted("GetSessionToken", 600));
    v.push(weighted("GetCallerIdentity", 600));
    v.push(weighted("CreateUser", 300));
    v.push(weighted("DeleteUser", 100));
    v.push(weighted("CreateAccessKey", 200));
    v.push(weighted("UpdateAccessKey", 200));
    v.push(weighted("AttachRolePolicy", 200));
    v.push(weighted("PutObject", 1400));
    v.push(weighted("GetObject", 1600));
    v.push(weighted("DeleteObject", 800));
    v.push(weighted("CreateBucket", 300));
    v.push(weighted("DeleteBucket", 100));
    v.push(weighted("RunInstances", 400));
    v.push(weighted("TerminateInstances", 200));
    v.push(weighted("StartInstances", 300));
    v.push(weighted("StopInstances", 300));
    v.push(weighted("DescribeInstances", 900));
    v.push(weighted("CreateSecurityGroup", 300));
    v.push(weighted("AuthorizeSecurityGroupIngress", 400));
    v.push(weighted("CreateLogGroup", 200));
    v.push(weighted("PutLogEvents", 1100));
    v.push(weighted("CreateLogStream", 500));
    v.push(weighted("DescribeLogStreams", 600));
    v.push(weighted("Encrypt", 500));
    v.push(weighted("Decrypt", 500));
    v.push(weighted("GenerateDataKey", 400));
    v.push(weighted("PutMetricData", 800));
    v.push(weighted("GetMetricData", 800));
    v.push(weighted("ListMetrics", 500));
    assert(event_pairs(v@) =~= curated_table());
    v
}

/// Names strictly ascend, in lexicographic order.
pub open spec fn names_ascending(v: Seq<WeightedEvent>) -> bool {
    forall|i: int| 0 <= i < v.len() - 1 ==> seq_lt((#[trigger] v[i]).name@, v[i + 1].name@)
}

/// Adds `e` to a list whose names ascend, keeping them ascending; an event of the
/// same name takes the new weight.
fn insert_by_name(v: &mut Vec<WeightedEvent>, e: WeightedEvent)
    requires
        names_ascending(old(v)@),
    ensures
        names_ascending(final(v)@),
        forall|i: int| 0 <= i < final(v)@.len() ==> ((#[trigger] final(v)@[i]).name@ == e.name@ && final(v)@[i].weight == e.weight)
            || exists|k: int| 0 <= k < old(v)@.len() && final(v)@[i] == old(v)@[k],
        forall|k: int| #![trigger old(v)@[k]] 0 <= k < old(v)@.len() ==> exists|i: int| 0 <= i < final(v)@.len() && (#[trigger] final(v)@[i]).name@ == old(v)@[k].name@,
        exists|i: int| 0 <= i < final(v)@.len() && (#[trigger] final(v)@[i]).name@ == e.name@ && final(v)@[i].weight == e.weight,
        final(v)@.len() <= old(v)@.len() + 1,
{
    let n = v.len();
    let mut p: usize = 0;
    while p < n && str_lt(v[p].name.as_str(), e.name.as_str())
        invariant
            n == v@.len(),
            p <= n,
            forall|k: int| 0 <= k < p ==> seq_lt((#[trigger] v@[k]).name@, e.name@),
        decreases n - p,
    {
        p = p + 1;
    }
    let ghost before = v@;
    if p < n && str_eq(v[p].name.as_str(), e.name.as_str()) {
        let ghost name = e.name@;
        let w = e.weight;
        let mut slot = v.remove(p);
        slot.weight = w;
        v.insert(p, slot);
        proof {
            assert(v@ =~= before.update(p as int, v@[p as int]));
            assert forall|i: int| 0 <= i < v@.len() - 1 implies seq_lt((#[trigger] v@[i]).name@, v@[i + 1].name@) by {
                assert(before[i].name@ == v@[i].name@ && before[i + 1].name@ == v@[i + 1].name@);
            }
            assert forall|k: int| #![trigger before[k]] 0 <= k < before.len() implies exists|i: int| 0 <= i < v@.len() && (#[trigger] v@[i]).name@ == before[k].name@ by {
                assert(v@[k].name@ == before[k].name@);
            }
            assert(v@[p as int].name@ == e.name@ && v@[p as int].weight == e.weight);
            assert forall|i: int| 0 <= i < v@.len() implies ((#[trigger] v@[i]).name@ == e.name@ && v@[i].weight == e.weight)
                || exists|k: int| 0 <= k < before.len() && v@[i] == before[k] by {
                if i != p {
                    assert(v@[i] == before[i]);
                }
            }
        }
    } else {
        proof {
            if p < n {
                lemma_seq_lt_total(before[p as int].name@, e.name@);
            }
        }
        let ghost en = e.name@;
        let ghost ew = e.weight;
        v.insert(p, e);
        proof {
            assert forall|i: int| 0 <= i < v@.len() - 1 implies seq_lt((#[trigger] v@[i]).name@, v@[i + 1].name@) by {
                if i + 1 < p {
                    assert(v@[i] == before[i] && v@[i + 1] == before[i + 1]);
                } else if i + 1 == p {
                    assert(v@[i] == before[i]);
                } else if i == p {
                    assert(v@[i + 1] == before[i]);
                } else {
                    assert(v@[i] == before[i - 1] && v@[i + 1] == before[i]);
                }
            }
            assert forall|k: int| #![trigger before[k]] 0 <= k < before.len() implies exists|i: int| 0 <= i < v@.len() && (#[trigger] v@[i]).name@ == before[k].name@ by {
                if k < p {
                    assert(v@[k] == before[k]);
                } else {
                    assert(v@[k + 1] == before[k]);
                }
            }
            assert(v@[p as int].name@ == en && v@[p as int].weight == ew);
            assert forall|i: int| 0 <= i < v@.len() implies ((#[trigger] v@[i]).name@ == en && v@[i].weight == ew)
                || exists|k: int| 0 <= k < before.len() && v@[i] == before[k] by {
                if i < p {
                    assert(v@[i] == before[i]);
                } else if i > p {
                    assert(v@[i] == before[i - 1]);
                }
            }
        }
    }
}

/// Whether the pair `(name, weight)` is an entry of `table`.
pub open spec fn in_table(table: Seq<(Seq<char>, u64)>, name: Seq<char>, weight: u64) -> bool {
    exists|k: int| 0 <= k < table.len() && #[trigger] table[k] == (name, weight)
}

/// The events a CloudTrail source chooses from: the built-in catalogue, sorted by
/// name, when it is enabled; with nothing enabled there is nothing to choose from.
pub fn resolve_event_weights(config: &CloudTrailSourceConfig) -> (r: Result<Vec<WeightedEvent>, CatalogError>)
    ensures
        !config.curated ==> r == Err::<Vec<WeightedEvent>, CatalogError>(CatalogError::EmptyEventSet),
        config.curated ==> (r matches Ok(events) && {
            &&& names_ascending(events@)
            &&& events@.len() <= curated_table().len()
            &&& forall|i: int| 0 <= i < events@.len() ==> in_table(curated_table(), (#[trigger] events@[i]).name@, events@[i].weight)
            &&& forall|k: int| #![trigger curated_table()[k]] 0 <= k < curated_table().len() ==> exists|i: int| 0 <= i < events@.len() && (#[trigger] events@[i]).name@ == curated_table()[k].0
        }),
{
    if !config.curated {
        return Err(CatalogError::EmptyEventSet);
    }
    let all = curated_event_weights();
    let mut out: Vec<WeightedEvent> = Vec::new();
    let mut j: usize = 0;
    while j < all.len()
        invariant
            j <= all@.len(),
            event_pairs(all@) == curated_table(),
            names_ascending(out@),
            out@.len() <= j,
            forall|i: int| 0 <= i < out@.len() ==> in_table(curated_table(), (#[trigger] out@[i]).name@, out@[i].weight),
            forall|k: int| #![trigger curated_table()[k]] 0 <= k < j ==> exists|i: int| 0 <= i < out@.len() && (#[trigger] out@[i]).name@ == curated_table()[k].0,
        decreases all@.len() - j,
    {
        let e = all[j].clone();
        let ghost en = all@[j as int].name@;
        let ghost ew = all@[j as int].weight;
        assert(event_pairs(all@)[j as int] == (en, ew));
        let name = owned(all[j].name.as_str());
        let e = WeightedEvent { name, weight: all[j].weight };
        let ghost old_out = out@;
        insert_by_name(&mut out, e);
        proof {
            assert(in_table(curated_table(), en, ew));
            assert forall|i: int| 0 <= i < out@.len() implies in_table(curated_table(), (#[trigger] out@[i]).name@, out@[i].weight) by {
                if !(out@[i].name@ == en && out@[i].weight == ew) {
                    let k = choose|k: int| 0 <= k < old_out.len() && out@[i] == old_out[k];
                    assert(in_table(curated_table(), old_out[k].name@, old_out[k].weight));
                }
            }
            assert forall|k: int| #![trigger curated_table()[k]] 0 <= k < j + 1 implies exists|i: int| 0 <= i < out@.len() && (#[trigger] out@[i]).name@ == curated_table()[k].0 by {
                if k < j {
                    let i0 = choose|i: int| 0 <= i < old_out.len() && (#[trigger] old_out[i]).name@ == curated_table()[k].0;
                    assert(old_out[i0].name@ == curated_table()[k].0);
                }
            }
        }
        j = j + 1;
    }
    assert(all@.len() == curated_table().len());
    Ok(out)
}

/// A weighted choice over a fixed, non-empty list of events.
pub struct EventSelector {
    events: Vec<WeightedEvent>,
    weights: Vec<u64>,
}

impl EventSelector {
    /// The events chosen from.
    pub closed spec fn events(&self) -> Seq<WeightedEvent> {
        self.events@
    }

    /// The events are not empty, and each weight is positive and bounded.
    pub closed spec fn wf(&self) -> bool {
        &&& self.events@.len() > 0
        &&& self.events@.len() <= 1_000_000
        &&& self.weights@.len() == self.events@.len()
        &&& forall|i: int| 0 <= i < self.events@.len() ==> self.weights@[i] == (#[trigger] self.events@[i]).weight
        &&& forall|i: int| 0 <= i < self.events@.len() ==> 0 < (#[trigger] self.events@[i]).weight <= MAX_WEIGHT
    }

    /// A selector over `events`; an empty list, or a weight of zero or above the
    /// maximum, is refused (the first such weight is reported).
    pub fn new(events: Vec<WeightedEvent>) -> (r: Result<Self, CatalogError>)
        requires
            events@.len() <= 1_000_000,
        ensures
            events@.len() == 0 ==> r == Err::<Self, CatalogError>(CatalogError::EmptyEventSet),
            r matches Ok(s) ==> s.wf() && s.events() == events@,
            r is Ok <==> events@.len() > 0 && forall|i: int|
                0 <= i < events@.len() ==> 0 < (#[trigger] events@[i]).weight <= MAX_WEIGHT,
            r matches Err(CatalogError::InvalidWeight { name, weight }) ==> exists|i: int|
                0 <= i < events@.len() && (#[trigger] events@[i]).name@ == name@ && events@[i].weight
                    == weight && (weight == 0 || weight > MAX_WEIGHT) && forall|j: int|
                    0 <= j < i ==> 0 < (#[trigger] events@[j]).weight <= MAX_WEIGHT,
    {
        if events.len() == 0 {
            return Err(CatalogError::EmptyEventSet);
        }
        let mut weights: Vec<u64> = Vec::new();
        let mut i: usize = 0;
        while i < events.len()
            invariant
                i <= events@.len(),
                weights@.len() == i,
                forall|k: int| 0 <= k < i ==> weights@[k] == (#[trigger] events@[k]).weight,
                forall|k: int| 0 <= k < i ==> 0 < (#[trigger] events@[k]).weight <= MAX_WEIGHT,
            decreases events@.len() - i,
        {
            let w = events[i].weight;
            if w == 0 || w > MAX_WEIGHT {
                let name = events[i].name.clone();
                assert(events@[i as int].name@ == name@);
                return Err(CatalogError::InvalidWeight { name, weight: w });
            }
            weights.push(w);
            i = i + 1;
        }
        Ok(EventSelector { events, weights })
    }

    /// Draws one event with chance proportional to its weight.
    pub fn pick(&self, rng: &mut StdRng) -> (r: &WeightedEvent)
        requires
            self.wf(),
        ensures
            exists|i: int| 0 <= i < self.events().len() && *r == #[trigger] self.events()[i],
    {
        proof {
            assert forall|i: int| 0 <= i < self.weights@.len() implies #[trigger] self.weights@[i] <= MAX_WEIGHT by {
                assert(self.weights@[i] == self.events@[i].weight);
            }
            assert(self.weights@[0] == self.events@[0].weight);
            lemma_positive_sum(self.weights@);
        }
        match pick_weighted_index(&self.weights, rng) {
            Some(i) => {
                let r = &self.events[i];
                assert(*r == self.events()[i as int]);
                r
            },
            None => {
                proof {
                    assert(self.weights@[0] > 0);
                }
                &self.events[0]
            },
        }
    }
}

proof fn lemma_positive_sum(w: Seq<u64>)
    requires
        w.len() <= 1_000_000,
        forall|i: int| 0 <= i < w.len() ==> #[trigger] w[i] <= MAX_WEIGHT,
    ensures
        0 <= weight_sum(w) <= MAX_WEIGHT * 1_000_000,
        w.len() > 0 && w[0] > 0 ==> weight_sum(w) > 0,
    decreases w.len(),
{
    lemma_sum_bounded(w, MAX_WEIGHT as int);
    assert(MAX_WEIGHT * w.len() <= MAX_WEIGHT * 1_000_000) by (nonlinear_arith)
        requires w.len() <= 1_000_000;
    if w.len() > 0 {
        let d = w.drop_last();
        assert forall|i: int| 0 <= i < d.len() implies #[trigger] d[i] <= MAX_WEIGHT by {
            assert(d[i] == w[i]);
        }
        lemma_positive_sum(d);
        if d.len() > 0 {
            assert(d[0] == w[0]);
        }
    }
}

/// The selector over the events a source is configured with.
pub fn resolve_selector(config: &CloudTrailSourceConfig) -> (r: Result<EventSelector, CatalogError>)
    ensures
        !config.curated ==> r is Err,
        r matches Ok(s) ==> s.wf() && names_ascending(s.events()) && forall|i: int|
            0 <= i < s.events().len() ==> in_table(curated_table(), (#[trigger] s.events()[i]).name@, s.events()[i].weight),
{
    let events = match resolve_event_weights(config) {
        Ok(e) => e,
        Err(e) => return Err(e),
    };
    EventSelector::new(events)
}

} // verus!
