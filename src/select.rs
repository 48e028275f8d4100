//! Weighted choice of the next event name from candidate lists.
//!
//! Weights are fixed-point: thousandths of a unit.
use vstd::prelude::*;

use rand::rngs::StdRng;

use crate::rng::draw_range;
use crate::text::{owned, str_eq};

verus! {

/// The weight of one unit, in thousandths.
pub const UNIT_WEIGHT: u64 = 1000;

/// The largest weight a table may hold: a thousand units.
pub const MAX_WEIGHT: u64 = 1_000_000;

/// The largest final weight of a candidate: its weight scaled by a base weight
/// and a bias, each at most `MAX_WEIGHT`.
pub const MAX_FINAL_WEIGHT: u64 = 1_000_000_000_000;

/// The most candidates a list may hold.
pub const MAX_CANDIDATES: usize = 1_000_000;

/// The sum of the weights.
pub open spec fn weight_sum(w: Seq<u64>) -> int
    decreases w.len(),
{
    if w.len() == 0 {
        0
    } else {
        weight_sum(w.drop_last()) + w.last()
    }
}

/// Index `i` is the one a draw `x` lands on: the weights before it sum to at most
/// `x`, and with its own weight to more.
pub open spec fn lands_on(w: Seq<u64>, x: int, i: int) -> bool {
    &&& 0 <= i < w.len()
    &&& weight_sum(w.take(i)) <= x < weight_sum(w.take(i + 1))
}

proof fn lemma_take_step(w: Seq<u64>, i: int)
    requires
        0 <= i < w.len(),
    ensures
        weight_sum(w.take(i + 1)) == weight_sum(w.take(i)) + w[i],
{
    assert(w.take(i + 1).drop_last() =~= w.take(i));
}

/// The weights sum to at most `bound` times their number.
pub proof fn lemma_sum_bounded(w: Seq<u64>, bound: int)
    requires
        forall|i: int| 0 <= i < w.len() ==> #[trigger] w[i] <= bound,
        bound >= 0,
    ensures
        0 <= weight_sum(w) <= bound * w.len(),
    decreases w.len(),
{
    if w.len() > 0 {
        lemma_sum_bounded(w.drop_last(), bound);
        assert(w.last() <= bound);
        assert(bound * (w.len() - 1) + bound == bound * w.len()) by (nonlinear_arith);
    }
}

/// The index that a draw `x` below the total lands on.
pub fn index_for_draw(weights: &Vec<u64>, x: u64) -> (r: usize)
    requires
        x < weight_sum(weights@),
        weight_sum(weights@) <= u64::MAX,
    ensures
        lands_on(weights@, x as int, r as int),
        weights@[r as int] > 0,
{
    let n = weights.len();
    let mut acc: u64 = 0;
    let mut i: usize = 0;
    assert(weights@.take(n as int) =~= weights@);
    assert(weights@.take(0) =~= Seq::<u64>::empty());
    while i < n
        invariant
            n == weights@.len(),
            i <= n,
            acc == weight_sum(weights@.take(i as int)),
            acc <= x,
            x < weight_sum(weights@),
            weights@.take(n as int) == weights@,
            weight_sum(weights@) <= u64::MAX,
        decreases n - i,
    {
        proof {
            lemma_take_step(weights@, i as int);
            lemma_prefix_le_total(weights@, i as int + 1);
        }
        let next = acc + weights[i];
        if x < next {
            return i;
        }
        acc = next;
        i = i + 1;
    }
    proof {
        assert(false);
    }
    0
}

proof fn lemma_prefix_le_total(w: Seq<u64>, k: int)
    requires
        0 <= k <= w.len(),
    ensures
        weight_sum(w.take(k)) <= weight_sum(w),
    decreases w.len() - k,
{
    if k < w.len() {
        lemma_take_step(w, k);
        lemma_prefix_le_total(w, k + 1);
    } else {
        assert(w.take(k) =~= w);
    }
}

/// A weighted random index: `None` when the weights sum to zero (or there are
/// none), else an index of positive weight, drawn with chance proportional to it.
pub fn pick_weighted_index(weights: &Vec<u64>, rng: &mut StdRng) -> (r: Option<usize>)
    requires
        weight_sum(weights@) <= u64::MAX,
    ensures
        r is None <==> weight_sum(weights@) == 0,
        r matches Some(i) ==> i < weights@.len() && weights@[i as int] > 0,
{
    let mut total: u64 = 0;
    let mut i: usize = 0;
    while i < weights.len()
        invariant
            i <= weights@.len(),
            total == weight_sum(weights@.take(i as int)),
            weight_sum(weights@) <= u64::MAX,
        decreases weights@.len() - i,
    {
        proof {
            lemma_take_step(weights@, i as int);
            lemma_prefix_le_total(weights@, i as int + 1);
        }
        total = total + weights[i];
        i = i + 1;
    }
    assert(weights@.take(weights@.len() as int) =~= weights@);
    if total == 0 {
        return None;
    }
    let x = draw_range(rng, 0, total);
    Some(index_for_draw(weights, x))
}

/// The weight of `name` in a table, or `default` when it is not there.
pub open spec fn weight_of(table: Seq<(String, u64)>, name: Seq<char>, default: u64) -> u64
    decreases table.len(),
{
    if table.len() == 0 {
        default
    } else if table[0].0@ == name {
        table[0].1
    } else {
        weight_of(table.drop_first(), name, default)
    }
}

/// Looks up the weight of `name`, the first entry winning.
pub fn lookup_weight(table: &Vec<(String, u64)>, name: &str, default: u64) -> (r: u64)
    ensures
        r == weight_of(table@, name@, default),
{
    let mut i: usize = 0;
    assert(table@.skip(0) =~= table@);
    while i < table.len()
        invariant
            i <= table@.len(),
            weight_of(table@, name@, default) == weight_of(table@.skip(i as int), name@, default),
        decreases table@.len() - i,
    {
        assert(table@.skip(i as int).drop_first() =~= table@.skip(i as int + 1));
        if str_eq(table[i].0.as_str(), name) {
            return table[i].1;
        }
        i = i + 1;
    }
    assert(table@.skip(i as int) =~= Seq::<(String, u64)>::empty());
    default
}

/// Whether `name` is one of `names`.
pub open spec fn listed(names: Seq<String>, name: Seq<char>) -> bool {
    exists|i: int| 0 <= i < names.len() && (#[trigger] names[i])@ == name
}

/// Whether `name` is one of `names`.
pub fn contains_name(names: &Vec<String>, name: &str) -> (r: bool)
    ensures
        r == listed(names@, name@),
{
    let mut i: usize = 0;
    while i < names.len()
        invariant
            i <= names@.len(),
            forall|j: int| 0 <= j < i ==> (#[trigger] names@[j])@ != name@,
        decreases names@.len() - i,
    {
        if str_eq(names[i].as_str(), name) {
            return true;
        }
        i = i + 1;
    }
    false
}

/// The weight a candidate ends up with: its own, times the catalogue's base weight
/// and the actor's bias for it (each in thousandths, missing ones counting as one).
pub open spec fn candidate_weight(w: u64, base: u64, bias: u64) -> int {
    w * base / 1000 * bias / 1000
}

/// The candidates that survive the filter, with their final weights.
pub open spec fn filtered(
    candidates: Seq<(String, u64)>,
    allowed: Seq<String>,
    base_weights: Seq<(String, u64)>,
    bias: Seq<(String, u64)>,
) -> Seq<(Seq<char>, int)>
    decreases candidates.len(),
{
    if candidates.len() == 0 {
        Seq::empty()
    } else {
        let rest = filtered(candidates.drop_last(), allowed, base_weights, bias);
        let (name, w) = candidates.last();
        if listed(allowed, name@) {
            rest.push(
                (
                    name@,
                    candidate_weight(
                        w,
                        weight_of(base_weights, name@, UNIT_WEIGHT),
                        weight_of(bias, name@, UNIT_WEIGHT),
                    ),
                ),
            )
        } else {
            rest
        }
    }
}

/// Every weight of a table is within the supported range.
pub open spec fn weights_bounded(table: Seq<(String, u64)>) -> bool {
    forall|i: int| 0 <= i < table.len() ==> (#[trigger] table[i]).1 <= MAX_WEIGHT
}

/// Picks the next event name among `candidates`: only names in `allowed` count,
/// each weighted by its own weight, the catalogue's base weight and the actor's
/// bias. `None` when no allowed candidate has a positive weight; the caller then
/// falls back to the whole catalogue.
pub fn pick_weighted_event(
    candidates: &Vec<(String, u64)>,
    allowed: &Vec<String>,
    base_weights: &Vec<(String, u64)>,
    bias: &Vec<(String, u64)>,
    rng: &mut StdRng,
) -> (r: Option<String>)
    requires
        candidates@.len() <= MAX_CANDIDATES,
        weights_bounded(candidates@),
        weights_bounded(base_weights@),
        weights_bounded(bias@),
    ensures
        ({
            let f = filtered(candidates@, allowed@, base_weights@, bias@);
            &&& r is None <==> (forall|i: int| 0 <= i < f.len() ==> (#[trigger] f[i]).1 == 0)
            &&& r matches Some(name) ==> exists|i: int|
                0 <= i < f.len() && (#[trigger] f[i]).0 == name@ && f[i].1 > 0
        }),
{
    let mut names: Vec<String> = Vec::new();
    let mut weights: Vec<u64> = Vec::new();
    let mut i: usize = 0;
    while i < candidates.len()
        invariant
            i <= candidates@.len(),
            candidates@.len() <= MAX_CANDIDATES,
            weights_bounded(candidates@),
            weights_bounded(base_weights@),
            weights_bounded(bias@),
            names@.len() == weights@.len(),
            names@.len() == filtered(candidates@.take(i as int), allowed@, base_weights@, bias@).len(),
            names@.len() <= i,
            forall|k: int|
                0 <= k < names@.len() ==> (#[trigger] names@[k])@ == filtered(
                    candidates@.take(i as int),
                    allowed@,
                    base_weights@,
                    bias@,
                )[k].0 && weights@[k] == filtered(candidates@.take(i as int), allowed@, base_weights@, bias@)[k].1,
            forall|k: int| 0 <= k < weights@.len() ==> #[trigger] weights@[k] <= MAX_FINAL_WEIGHT,
        decreases candidates@.len() - i,
    {
        let ghost prev = filtered(candidates@.take(i as int), allowed@, base_weights@, bias@);
        let ghost old_names = names@;
        let ghost old_weights = weights@;
        assert(candidates@.take(i + 1).drop_last() =~= candidates@.take(i as int));
        assert(candidates@.take(i + 1).last() == candidates@[i as int]);
        let name = candidates[i].0.as_str();
        let w = candidates[i].1;
        assert(candidates@[i as int].1 <= MAX_WEIGHT);
        let listed_name = contains_name(allowed, name);
        proof {
            let cur = filtered(candidates@.take(i + 1), allowed@, base_weights@, bias@);
            if listed_name {
                assert(cur == prev.push(
                    (
                        name@,
                        candidate_weight(
                            w,
                            weight_of(base_weights@, name@, UNIT_WEIGHT),
                            weight_of(bias@, name@, UNIT_WEIGHT),
                        ),
                    ),
                ));
            } else {
                assert(cur == prev);
            }
        }
        if listed_name {
            let base = lookup_weight(base_weights, name, UNIT_WEIGHT);
            let b = lookup_weight(bias, name, UNIT_WEIGHT);
            proof {
                lemma_weight_of_bounded(base_weights@, name@);
                lemma_weight_of_bounded(bias@, name@);
            }
            assert(w * base <= MAX_WEIGHT * MAX_WEIGHT) by (nonlinear_arith)
                requires w <= MAX_WEIGHT, base <= MAX_WEIGHT;
            let scaled = w * base / 1000;
            assert(scaled <= 1_000_000_000) by (nonlinear_arith)
                requires scaled == w * base / 1000, w * base <= MAX_WEIGHT * MAX_WEIGHT;
            assert(scaled * b <= 1_000_000_000 * MAX_WEIGHT) by (nonlinear_arith)
                requires scaled <= 1_000_000_000, b <= MAX_WEIGHT;
            let weight = scaled * b / 1000;
            assert(weight <= MAX_FINAL_WEIGHT) by (nonlinear_arith)
                requires weight == scaled * b / 1000, scaled * b <= 1_000_000_000 * MAX_WEIGHT;
            assert(weight as int == candidate_weight(
                w,
                weight_of(base_weights@, name@, UNIT_WEIGHT),
                weight_of(bias@, name@, UNIT_WEIGHT),
            ));
            names.push(owned(name));
            weights.push(weight);
        }
        i = i + 1;
        proof {
            let cur = filtered(candidates@.take(i as int), allowed@, base_weights@, bias@);
            assert forall|k: int| 0 <= k < names@.len() implies (#[trigger] names@[k])@ == cur[k].0
                && weights@[k] == cur[k].1 by {
                if k < prev.len() {
                    assert(cur[k] == prev[k]);
                    assert(names@[k] == old_names[k]);
                    assert(weights@[k] == old_weights[k]);
                }
            }
        }
    }
    assert(candidates@.take(candidates@.len() as int) =~= candidates@);
    proof {
        lemma_sum_bounded(weights@, MAX_FINAL_WEIGHT as int);
        assert(MAX_FINAL_WEIGHT * weights@.len() <= MAX_FINAL_WEIGHT * MAX_CANDIDATES) by (nonlinear_arith)
            requires weights@.len() <= MAX_CANDIDATES;
        lemma_zero_sum(weights@);
    }
    let ghost f = filtered(candidates@, allowed@, base_weights@, bias@);
    assert(f.len() == weights@.len());
    assert forall|k: int| 0 <= k < f.len() implies #[trigger] f[k].1 == weights@[k] by {
        assert(names@[k]@ == f[k].0);
    }
    match pick_weighted_index(&weights, rng) {
        None => None,
        Some(k) => {
            let r = names[k].clone();
            assert(f[k as int].0 == r@ && f[k as int].1 > 0);
            Some(r)
        },
    }
}

proof fn lemma_weight_of_bounded(table: Seq<(String, u64)>, name: Seq<char>)
    requires
        weights_bounded(table),
    ensures
        weight_of(table, name, UNIT_WEIGHT) <= MAX_WEIGHT,
    decreases table.len(),
{
    if table.len() > 0 && table[0].0@ != name {
        assert(weights_bounded(table.drop_first())) by {
            assert forall|i: int| 0 <= i < table.drop_first().len() implies (#[trigger] table.drop_first()[i]).1
                <= MAX_WEIGHT by {
                assert(table.drop_first()[i] == table[i + 1]);
            }
        }
        lemma_weight_of_bounded(table.drop_first(), name);
    } else if table.len() > 0 {
        assert(table[0].1 <= MAX_WEIGHT);
    }
}

/// Positive weights have a positive sum.
pub proof fn lemma_positive_first(w: Seq<u64>)
    requires
        w.len() > 0,
        forall|k: int| 0 <= k < w.len() ==> 0 < #[trigger] w[k],
    ensures
        weight_sum(w) > 0,
    decreases w.len(),
{
    if w.len() > 1 {
        assert forall|k: int| 0 <= k < w.drop_last().len() implies 0 < #[trigger] w.drop_last()[k] by {
            assert(w.drop_last()[k] == w[k]);
        }
        lemma_positive_first(w.drop_last());
    } else {
        assert(w.drop_last() =~= Seq::<u64>::empty());
        assert(weight_sum(w.drop_last()) == 0);
    }
}

/// The weights sum to zero exactly when every one of them is zero.
proof fn lemma_zero_sum(w: Seq<u64>)
    ensures
        weight_sum(w) == 0 <==> forall|i: int| 0 <= i < w.len() ==> #[trigger] w[i] == 0,
        weight_sum(w) >= 0,
    decreases w.len(),
{
    if w.len() > 0 {
        lemma_zero_sum(w.drop_last());
        assert forall|i: int| 0 <= i < w.len() - 1 implies #[trigger] w.drop_last()[i] == w[i] by {}
        if weight_sum(w) == 0 {
            assert forall|i: int| 0 <= i < w.len() implies #[trigger] w[i] == 0 by {
                if i < w.len() - 1 {
                    assert(w.drop_last()[i] == w[i]);
                }
            }
        }
        if forall|i: int| 0 <= i < w.len() ==> #[trigger] w[i] == 0 {
            assert forall|i: int| 0 <= i < w.drop_last().len() implies #[trigger] w.drop_last()[i] == 0 by {
                assert(w.drop_last()[i] == w[i]);
            }
            assert(w[w.len() - 1] == 0);
        }
    }
}

} // verus!
