//! Bounded pools of short-lived render entities: the dynamic point-light
//! pool and the lightning arcs of a struck target. Both keep or drop
//! entries by a stable order on a key (a slot or a spawn sequence).
use vstd::prelude::*;

verus! {

/// Whether entry `j` comes before entry `i` when the entries are sorted
/// stably by key: a smaller key, or the same key and an earlier position.
pub open spec fn sorts_before(keys: Seq<u64>, j: int, i: int) -> bool {
    keys[j] < keys[i] || (keys[j] == keys[i] && j < i)
}

/// How many of the first `upto` entries come before entry `i`.
pub open spec fn rank_upto(keys: Seq<u64>, i: int, upto: int) -> nat
    decreases upto,
{
    if upto <= 0 {
        0
    } else {
        rank_upto(keys, i, upto - 1) + if sorts_before(keys, upto - 1, i) {
            1nat
        } else {
            0nat
        }
    }
}

/// The position of entry `i` once the entries are sorted stably by key.
pub open spec fn stable_rank(keys: Seq<u64>, i: int) -> nat {
    rank_upto(keys, i, keys.len() as int)
}

proof fn lemma_rank_upto_bound(keys: Seq<u64>, i: int, upto: int)
    ensures
        rank_upto(keys, i, upto) <= if upto < 0 {
            0
        } else {
            upto
        },
    decreases upto,
{
    if upto > 0 {
        lemma_rank_upto_bound(keys, i, upto - 1);
    }
}

/// Marks the entries that come first, `count` of them, when the entries
/// are sorted stably by key: `r[i]` is whether entry `i` has a sorted
/// position below `count`.
pub fn first_in_key_order(keys: &Vec<u64>, count: usize) -> (r: Vec<bool>)
    ensures
        r@.len() == keys@.len(),
        forall|i: int| 0 <= i < keys@.len() ==> #[trigger] r@[i] == (stable_rank(keys@, i) < count),
{
    let n = keys.len();
    let mut flags: Vec<bool> = Vec::new();
    let mut i: usize = 0;
    while i < n
        invariant
            i <= n,
            n == keys@.len(),
            flags@.len() == i,
            forall|k: int| 0 <= k < i ==> #[trigger] flags@[k] == (stable_rank(keys@, k) < count),
        decreases n - i,
    {
        let mut rank: usize = 0;
        let mut j: usize = 0;
        while j < n
            invariant
                i < n,
                j <= n,
                n == keys@.len(),
                rank == rank_upto(keys@, i as int, j as int),
            decreases n - j,
        {
            proof {
                lemma_rank_upto_bound(keys@, i as int, j as int);
            }
            if keys[j] < keys[i] || (keys[j] == keys[i] && j < i) {
                rank = rank + 1;
            }
            j = j + 1;
        }
        flags.push(rank < count);
        i = i + 1;
    }
    flags
}

/// What to do with the dynamic point-light pool: which existing lights
/// (by position in the given list) are removed, and which slots get a new
/// light.
#[derive(Clone, Debug)]
pub struct LightPoolPlan {
    pub despawn: Vec<bool>,
    pub spawn_slots: Vec<usize>,
}

/// The slots from `from` up to, not including, `to`.
pub open spec fn slot_range(from: int, to: int) -> Seq<usize> {
    Seq::new(if to > from { (to - from) as nat } else { 0 }, |k: int| (from + k) as usize)
}

/// Keeping the pool at `max_active` lights: sorted by slot, the lights past
/// the first `max_active` are removed; where fewer remain, new lights fill
/// the slots from the number that remain up to `max_active`.
pub open spec fn spec_light_pool_despawn(slots: Seq<usize>, max_active: usize, i: int) -> bool {
    stable_rank(slots.map_values(|s: usize| s as u64), i) >= max_active
}

/// The slots the light pool spawns when `existing` lights are already there.
pub open spec fn spec_light_pool_spawn(existing: nat, max_active: usize) -> Seq<usize> {
    slot_range(existing as int, max_active as int)
}

/// Plans the dynamic light pool; see [`spec_light_pool_despawn`] and
/// [`spec_light_pool_spawn`].
pub fn plan_light_pool(existing_slots: &Vec<usize>, max_active: usize) -> (r: LightPoolPlan)
    ensures
        r.despawn@.len() == existing_slots@.len(),
        forall|i: int|
            0 <= i < existing_slots@.len() ==> #[trigger] r.despawn@[i] == spec_light_pool_despawn(
                existing_slots@,
                max_active,
                i,
            ),
        r.spawn_slots@ == spec_light_pool_spawn(existing_slots@.len(), max_active),
{
    let n = existing_slots.len();
    let mut keys: Vec<u64> = Vec::new();
    let mut k: usize = 0;
    while k < n
        invariant
            k <= n,
            n == existing_slots@.len(),
            keys@ == existing_slots@.subrange(0, k as int).map_values(|s: usize| s as u64),
        decreases n - k,
    {
        keys.push(existing_slots[k] as u64);
        k = k + 1;
        proof {
            assert(keys@ =~= existing_slots@.subrange(0, k as int).map_values(
                |s: usize| s as u64,
            ));
        }
    }
    proof {
        assert(existing_slots@.subrange(0, n as int) =~= existing_slots@);
    }
    let kept = first_in_key_order(&keys, max_active);
    let mut despawn: Vec<bool> = Vec::new();
    let mut i: usize = 0;
    while i < n
        invariant
            i <= n,
            n == existing_slots@.len(),
            kept@.len() == n,
            keys@ == existing_slots@.map_values(|s: usize| s as u64),
            forall|k: int| 0 <= k < n ==> #[trigger] kept@[k] == (stable_rank(keys@, k) < max_active),
            despawn@.len() == i,
            forall|k: int|
                0 <= k < i ==> #[trigger] despawn@[k] == spec_light_pool_despawn(
                    existing_slots@,
                    max_active,
                    k,
                ),
        decreases n - i,
    {
        despawn.push(!kept[i]);
        i = i + 1;
    }
    let mut spawn_slots: Vec<usize> = Vec::new();
    let mut slot: usize = n;
    while slot < max_active
        invariant
            n <= slot <= max_active || (slot == n && n >= max_active),
            spawn_slots@ == slot_range(n as int, slot as int),
        decreases max_active - slot,
    {
        spawn_slots.push(slot);
        slot = slot + 1;
        proof {
            assert(spawn_slots@ =~= slot_range(n as int, slot as int));
        }
    }
    proof {
        if n >= max_active {
            assert(spawn_slots@ =~= slot_range(n as int, max_active as int));
        }
    }
    LightPoolPlan { despawn, spawn_slots }
}

/// The lightning arcs of a target that give way to new ones: the
/// `overflow` oldest, by spawn sequence, ties broken by position.
pub fn oldest_arcs(spawn_seqs: &Vec<u32>, overflow: usize) -> (r: Vec<bool>)
    ensures
        r@.len() == spawn_seqs@.len(),
        forall|i: int|
            0 <= i < spawn_seqs@.len() ==> #[trigger] r@[i] == (stable_rank(
                spawn_seqs@.map_values(|s: u32| s as u64),
                i,
            ) < overflow),
{
    let n = spawn_seqs.len();
    let mut keys: Vec<u64> = Vec::new();
    let mut k: usize = 0;
    while k < n
        invariant
            k <= n,
            n == spawn_seqs@.len(),
            keys@ == spawn_seqs@.subrange(0, k as int).map_values(|s: u32| s as u64),
        decreases n - k,
    {
        keys.push(spawn_seqs[k] as u64);
        k = k + 1;
        proof {
            assert(keys@ =~= spawn_seqs@.subrange(0, k as int).map_values(|s: u32| s as u64));
        }
    }
    proof {
        assert(spawn_seqs@.subrange(0, n as int) =~= spawn_seqs@);
    }
    first_in_key_order(&keys, overflow)
}


proof fn lemma_rank_excludes_self(keys: Seq<u64>, i: int, upto: int)
    requires
        0 <= upto,
    ensures
        rank_upto(keys, i, upto) + (if 0 <= i < upto {
            1int
        } else {
            0int
        }) <= upto,
    decreases upto,
{
    if upto > 0 {
        lemma_rank_excludes_self(keys, i, upto - 1);
    }
}

proof fn lemma_rank_order(keys: Seq<u64>, i: int, j: int, upto: int)
    requires
        0 <= upto,
        0 <= i < keys.len(),
        0 <= j < keys.len(),
        sorts_before(keys, i, j),
    ensures
        rank_upto(keys, j, upto) >= rank_upto(keys, i, upto) + if i < upto {
            1int
        } else {
            0int
        },
    decreases upto,
{
    if upto > 0 {
        lemma_rank_order(keys, i, j, upto - 1);
    }
}

/// Sorted positions are distinct and lie below the number of entries: the
/// stable sort is a permutation.
proof fn lemma_rank_permutation(keys: Seq<u64>)
    ensures
        forall|i: int| 0 <= i < keys.len() ==> #[trigger] stable_rank(keys, i) < keys.len(),
        forall|i: int, j: int|
            0 <= i < keys.len() && 0 <= j < keys.len() && i != j ==> #[trigger] stable_rank(
                keys,
                i,
            ) != #[trigger] stable_rank(keys, j),
{
    assert forall|i: int| 0 <= i < keys.len() implies #[trigger] stable_rank(keys, i)
        < keys.len() by {
        lemma_rank_excludes_self(keys, i, keys.len() as int);
    }
    assert forall|i: int, j: int|
        0 <= i < keys.len() && 0 <= j < keys.len() && i != j implies #[trigger] stable_rank(
        keys,
        i,
    ) != #[trigger] stable_rank(keys, j) by {
        if sorts_before(keys, i, j) {
            lemma_rank_order(keys, i, j, keys.len() as int);
        } else {
            lemma_rank_order(keys, j, i, keys.len() as int);
        }
    }
}

/// The entries that come first, `count` of them, in stable key order.
pub open spec fn first_entries(keys: Seq<u64>, count: nat) -> Set<int> {
    Set::new(|i: int| 0 <= i < keys.len() && stable_rank(keys, i) < count)
}

/// Exactly `min(count, n)` of `n` entries come first: the pools keep (or
/// drop) exactly as many entries as their bound says, never more, never
/// fewer.
pub proof fn lemma_first_entries_count(keys: Seq<u64>, count: nat)
    ensures
        first_entries(keys, count).finite(),
        first_entries(keys, count).len() == if count < keys.len() {
            count
        } else {
            keys.len()
        },
{
    let n = keys.len() as int;
    let m: int = if count < keys.len() {
        count as int
    } else {
        n
    };
    lemma_rank_permutation(keys);
    let rank = |i: int| stable_rank(keys, i) as int;
    let all = vstd::set_lib::set_int_range(0, n);
    vstd::set_lib::lemma_int_range(0, n);
    assert(vstd::relations::injective_on(rank, all)) by {
        assert forall|a: int, b: int|
            all.contains(a) && all.contains(b) && #[trigger] rank(a) == #[trigger] rank(b) implies a
            == b by {
            if a != b {
                assert(stable_rank(keys, a) != stable_rank(keys, b));
            }
        }
    }
    vstd::set_lib::lemma_map_size(all, all.map(rank), rank);
    assert(all.map(rank).subset_of(all)) by {
        assert forall|r: int| all.map(rank).contains(r) implies all.contains(r) by {
            let i = choose|i: int| all.contains(i) && rank(i) == r;
            assert(stable_rank(keys, i) < keys.len());
        }
    }
    vstd::set_lib::lemma_subset_equality(all.map(rank), all);
    let first = first_entries(keys, count);
    let low = vstd::set_lib::set_int_range(0, m);
    vstd::set_lib::lemma_int_range(0, m);
    assert(first.subset_of(all));
    vstd::set_lib::lemma_len_subset(first, all);
    assert(vstd::relations::injective_on(rank, first));
    assert(first.map(rank) =~= low) by {
        assert forall|r: int| first.map(rank).contains(r) implies low.contains(r) by {
            let i = choose|i: int| first.contains(i) && rank(i) == r;
            assert(stable_rank(keys, i) < keys.len());
        }
        assert forall|r: int| low.contains(r) implies first.map(rank).contains(r) by {
            assert(all.contains(r));
            assert(all.map(rank).contains(r));
            let i = choose|i: int| all.contains(i) && rank(i) == r;
            assert(first.contains(i));
        }
    }
    vstd::set_lib::lemma_map_size(first, low, rank);
}

} // verus!
