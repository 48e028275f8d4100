//! Decisions of the dispatcher: which source goes next and which writer shard
//! receives an event.
use vstd::prelude::*;

use std::collections::hash_map::DefaultHasher;
use std::hash::Hasher;
use vstd::std_specs::hash::DefaultHasherAdditionalSpecFns;
use vstd::string::StringSliceAdditionalSpecFns;

verus! {

/// What `str`'s `Hash` feeds a hasher for each part: its bytes, then `0xff`.
pub open spec fn hash_writes(parts: Seq<Seq<u8>>) -> Seq<Seq<u8>>
    decreases parts.len(),
{
    if parts.len() == 0 {
        Seq::empty()
    } else {
        hash_writes(parts.drop_last()).push(parts.last()).push(seq![0xffu8])
    }
}

/// The standard hasher's digest of string parts hashed in order.
pub open spec fn parts_hash(parts: Seq<Seq<u8>>) -> u64 {
    DefaultHasher::spec_finish(hash_writes(parts))
}

/// Feeds one string to a hasher the way `str`'s `Hash` does.
fn hash_str(h: &mut DefaultHasher, s: &str)
    ensures
        final(h)@ == old(h)@.push(s.spec_bytes()).push(seq![0xffu8]),
{
    h.write(s.as_bytes());
    let end: [u8; 1] = [0xffu8];
    h.write(&end);
    assert(end@ == seq![0xffu8]);
}

/// The standard hasher's digest of the key (source, tenant, region).
pub fn key_hash(source: &str, account_id: &str, region: &str) -> (r: u64)
    ensures
        r == parts_hash(seq![source.spec_bytes(), account_id.spec_bytes(), region.spec_bytes()]),
{
    let mut h = DefaultHasher::new();
    hash_str(&mut h, source);
    hash_str(&mut h, account_id);
    hash_str(&mut h, region);
    let ghost parts = seq![source.spec_bytes(), account_id.spec_bytes(), region.spec_bytes()];
    assert(parts.drop_last().drop_last().drop_last() =~= Seq::<Seq<u8>>::empty());
    assert(parts.drop_last().drop_last() =~= seq![source.spec_bytes()]);
    assert(parts.drop_last() =~= seq![source.spec_bytes(), account_id.spec_bytes()]);
    let ghost p1 = parts.drop_last().drop_last();
    assert(p1.last() == source.spec_bytes());
    assert(hash_writes(p1.drop_last()) == Seq::<Seq<u8>>::empty());
    assert(parts.drop_last().last() == account_id.spec_bytes());
    assert(parts.last() == region.spec_bytes());
    assert(hash_writes(parts.drop_last().drop_last()) == Seq::<Seq<u8>>::empty().push(
        source.spec_bytes(),
    ).push(seq![0xffu8]));
    assert(hash_writes(parts.drop_last()) == hash_writes(parts.drop_last().drop_last()).push(
        account_id.spec_bytes(),
    ).push(seq![0xffu8]));
    assert(hash_writes(parts) == h@);
    h.finish()
}

/// The standard hasher's digest of one string.
pub fn str_hash(s: &str) -> (r: u64)
    ensures
        r == parts_hash(seq![s.spec_bytes()]),
{
    let mut h = DefaultHasher::new();
    hash_str(&mut h, s);
    let ghost parts = seq![s.spec_bytes()];
    assert(parts.drop_last() =~= Seq::<Seq<u8>>::empty());
    assert(hash_writes(parts.drop_last()) == Seq::<Seq<u8>>::empty());
    assert(hash_writes(parts) == h@);
    h.finish()
}

/// The standard hasher's digest of two strings hashed in order.
pub fn pair_hash(first: &str, second: &str) -> (r: u64)
    ensures
        r == parts_hash(seq![first.spec_bytes(), second.spec_bytes()]),
{
    let mut h = DefaultHasher::new();
    hash_str(&mut h, first);
    hash_str(&mut h, second);
    let ghost parts = seq![first.spec_bytes(), second.spec_bytes()];
    assert(parts.drop_last().last() == first.spec_bytes());
    assert(parts.last() == second.spec_bytes());
    assert(parts.drop_last().drop_last() =~= Seq::<Seq<u8>>::empty());
    assert(hash_writes(parts.drop_last().drop_last()) == Seq::<Seq<u8>>::empty());
    assert(hash_writes(parts.drop_last()) == Seq::<Seq<u8>>::empty().push(first.spec_bytes()).push(
        seq![0xffu8],
    ));
    assert(hash_writes(parts) == h@);
    h.finish()
}

/// The shard of a key among `shards` writers: always 0 for one writer or none.
pub open spec fn shard_of(source: &str, account_id: &str, region: &str, shards: usize) -> int {
    if shards <= 1 {
        0
    } else {
        parts_hash(seq![source.spec_bytes(), account_id.spec_bytes(), region.spec_bytes()]) as int
            % shards as int
    }
}

/// The writer shard for an event of `source` for tenant `account_id` and `region`:
/// the hash of the three, modulo the number of shards.
pub fn writer_index_for(source: &str, account_id: &str, region: &str, shards: usize) -> (r: usize)
    ensures
        r == shard_of(source, account_id, region, shards),
        shards >= 1 ==> r < shards,
{
    if shards <= 1 {
        return 0;
    }
    let h = key_hash(source, account_id, region);
    (h % (shards as u64)) as usize
}

/// Every event of one source for one (tenant, region) goes to the same shard, and
/// that shard exists.
pub proof fn lemma_partition_stable(
    source: &str,
    account_id: &str,
    region: &str,
    shards: usize,
    other_source: &str,
    other_account: &str,
    other_region: &str,
)
    requires
        source@ == other_source@,
        account_id@ == other_account@,
        region@ == other_region@,
    ensures
        shard_of(source, account_id, region, shards) == shard_of(
            other_source,
            other_account,
            other_region,
            shards,
        ),
        shards >= 1 ==> 0 <= shard_of(source, account_id, region, shards) < shards,
{
    assert(source.spec_bytes() == other_source.spec_bytes());
    assert(account_id.spec_bytes() == other_account.spec_bytes());
    assert(region.spec_bytes() == other_region.spec_bytes());
}

/// The number of writer shards: as requested, or with none requested the
/// machine's parallelism capped at four (one if unknown).
pub fn normalize_writer_shards(requested: usize, parallelism: Option<usize>) -> (r: usize)
    ensures
        requested > 0 ==> r == requested,
        requested == 0 ==> r == match parallelism {
            Some(p) => if p == 0 { 1 } else if p > 4 { 4 } else { p },
            None => 1,
        },
        r >= 1,
{
    if requested > 0 {
        return requested;
    }
    match parallelism {
        Some(p) => if p == 0 { 1 } else if p > 4 { 4 } else { p },
        None => 1,
    }
}

/// The number of generator workers: as requested, or with none requested the
/// machine's parallelism (one if unknown).
pub fn normalize_workers(requested: usize, parallelism: Option<usize>) -> (r: usize)
    ensures
        requested > 0 ==> r == requested,
        requested == 0 ==> r == match parallelism {
            Some(p) => if p == 0 { 1 } else { p },
            None => 1,
        },
        r >= 1,
{
    if requested > 0 {
        return requested;
    }
    match parallelism {
        Some(p) => if p == 0 { 1 } else { p },
        None => 1,
    }
}

/// Whether source `i` has the earliest peeked time, the first such on ties.
pub open spec fn is_earliest(times: Seq<Option<i64>>, i: int) -> bool {
    &&& 0 <= i < times.len()
    &&& times[i] matches Some(t) && {
        &&& forall|j: int| 0 <= j < times.len() ==> (#[trigger] times[j] matches Some(u) ==> t <= u)
        &&& forall|j: int| 0 <= j < i ==> (#[trigger] times[j] matches Some(u) ==> t < u)
    }
}

/// The source to take the next event from: the one whose peeked event is earliest
/// (the first on ties); `None` when no source has an event left.
pub fn next_source_index(times: &Vec<Option<i64>>) -> (r: Option<usize>)
    ensures
        r matches Some(i) ==> is_earliest(times@, i as int),
        r is None <==> forall|j: int| 0 <= j < times@.len() ==> (#[trigger] times@[j]) is None,
{
    let mut best: Option<usize> = None;
    let mut best_time: i64 = 0;
    let mut idx: usize = 0;
    while idx < times.len()
        invariant
            idx <= times@.len(),
            best matches Some(b) ==> {
                &&& b < idx
                &&& times@[b as int] == Some(best_time)
                &&& forall|j: int| 0 <= j < idx ==> (#[trigger] times@[j] matches Some(u) ==> best_time <= u)
                &&& forall|j: int| 0 <= j < b ==> (#[trigger] times@[j] matches Some(u) ==> best_time < u)
            },
            best is None ==> forall|j: int| 0 <= j < idx ==> (#[trigger] times@[j]) is None,
        decreases times@.len() - idx,
    {
        if let Some(when) = times[idx] {
            let better = match best {
                None => true,
                Some(_) => when < best_time,
            };
            if better {
                best = Some(idx);
                best_time = when;
            }
        }
        idx = idx + 1;
    }
    best
}

} // verus!
