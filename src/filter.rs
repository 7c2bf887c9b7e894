//! Which candidate authors are eligible to author in a slot.
//!
//! The eligible set is drawn from the candidates without replacement: a seeded stream of
//! 64-bit numbers picks, at each step, one of the candidates not yet drawn.

use vstd::prelude::*;
use vstd::multiset::Multiset;
use vstd::wrapping::u64_specs;
use crate::num::NonZeroU32;
use crate::primitives::Identity;

verus! {

/// The step added to the stream's state before each draw.
pub const SEED_GAMMA: u64 = 0x9e37_79b9_7f4a_7c15;

/// The first multiplier of the output mix.
pub const MIX_FIRST: u64 = 0xbf58_476d_1ce4_e5b9;

/// The second multiplier of the output mix.
pub const MIX_SECOND: u64 = 0x94d0_49bb_1331_11eb;

/// The stream's state after `state`.
pub open spec fn advance(state: u64) -> u64 {
    u64_specs::wrapping_add(state, SEED_GAMMA)
}

/// The number the stream yields in state `z`.
pub open spec fn mix(z: u64) -> u64 {
    let a = u64_specs::wrapping_mul(z ^ (z >> 30u64), MIX_FIRST);
    let b = u64_specs::wrapping_mul(a ^ (a >> 27u64), MIX_SECOND);
    b ^ (b >> 31u64)
}

/// The position drawn from a pool of `len` entries by the number `r`.
pub open spec fn pick(r: u64, len: nat) -> int {
    (r as int) % (len as int)
}

/// Up to `count` entries of `pool`, drawn one at a time without replacement, with the stream
/// starting from `state`.
pub open spec fn draw(pool: Seq<Identity>, state: u64, count: nat) -> Seq<Identity>
    decreases count,
{
    if count == 0 || pool.len() == 0 {
        Seq::empty()
    } else {
        let next = advance(state);
        let j = pick(mix(next), pool.len());
        seq![pool[j]] + draw(pool.remove(j), next, (count - 1) as nat)
    }
}

/// The eligible set of a slot: `count` of the `candidates`, or all of them when there are
/// fewer, in the order drawn with `seed`.
pub open spec fn eligible_set(candidates: Seq<Identity>, seed: u64, count: nat) -> Seq<Identity> {
    draw(candidates, seed, count)
}

/// The first entry of `eligible` that is also in `held`.
pub open spec fn first_held(eligible: Seq<Identity>, held: Seq<Identity>) -> Option<Identity>
    decreases eligible.len(),
{
    if eligible.len() == 0 {
        None
    } else if held.contains(eligible[0]) {
        Some(eligible[0])
    } else {
        first_held(eligible.drop_first(), held)
    }
}

/// A draw of `count` from `pool` has `min(count, pool.len())` entries.
proof fn lemma_draw_len(pool: Seq<Identity>, state: u64, count: nat)
    ensures
        draw(pool, state, count).len() == if count < pool.len() { count } else { pool.len() },
    decreases count,
{
    if count > 0 && pool.len() > 0 {
        let next = advance(state);
        let j = pick(mix(next), pool.len());
        lemma_draw_len(pool.remove(j), next, (count - 1) as nat);
    }
}

/// A draw takes each entry of `pool` at most as often as it occurs there, and takes all of
/// them when `count` reaches the size of the pool.
proof fn lemma_draw_multiset(pool: Seq<Identity>, state: u64, count: nat)
    ensures
        draw(pool, state, count).to_multiset().subset_of(pool.to_multiset()),
        count >= pool.len() ==> draw(pool, state, count).to_multiset() == pool.to_multiset(),
    decreases count,
{
    broadcast use vstd::seq_lib::group_to_multiset_ensures;

    if count == 0 || pool.len() == 0 {
        assert(draw(pool, state, count).to_multiset() =~= Multiset::<Identity>::empty());
        if count >= pool.len() {
            assert(pool.to_multiset() =~= Multiset::<Identity>::empty());
        }
    } else {
        let next = advance(state);
        let j = pick(mix(next), pool.len());
        let x = pool[j];
        let rest = draw(pool.remove(j), next, (count - 1) as nat);
        lemma_draw_multiset(pool.remove(j), next, (count - 1) as nat);
        assert(draw(pool, state, count) =~= rest.insert(0, x));
        assert(rest.insert(0, x).to_multiset() == rest.to_multiset().insert(x));
        assert(pool.remove(j).to_multiset() == pool.to_multiset().remove(x));
        assert(pool.to_multiset().contains(x));
        assert(pool.to_multiset().remove(x).insert(x) =~= pool.to_multiset());
        assert(rest.to_multiset().insert(x).subset_of(pool.to_multiset()));
        if count >= pool.len() {
            assert(rest.to_multiset().insert(x) =~= pool.to_multiset());
        }
    }
}

/// A draw from a pool without repeated entries has no repeated entries.
proof fn lemma_draw_distinct(pool: Seq<Identity>, state: u64, count: nat)
    requires
        pool.no_duplicates(),
    ensures
        draw(pool, state, count).no_duplicates(),
    decreases count,
{
    broadcast use vstd::seq_lib::group_to_multiset_ensures;

    if count > 0 && pool.len() > 0 {
        let next = advance(state);
        let j = pick(mix(next), pool.len());
        let x = pool[j];
        let smaller = pool.remove(j);
        let rest = draw(smaller, next, (count - 1) as nat);
        assert(smaller.no_duplicates()) by {
            assert forall|a: int, b: int| 0 <= a < smaller.len() && 0 <= b < smaller.len() && a != b
                implies smaller[a] != smaller[b] by {
                let pa = if a < j { a } else { a + 1 };
                let pb = if b < j { b } else { b + 1 };
                assert(smaller[a] == pool[pa]);
                assert(smaller[b] == pool[pb]);
            }
        }
        lemma_draw_distinct(smaller, next, (count - 1) as nat);
        lemma_draw_multiset(smaller, next, (count - 1) as nat);
        assert(!smaller.contains(x)) by {
            if smaller.contains(x) {
                let k = choose|k: int| 0 <= k < smaller.len() && smaller[k] == x;
                let pk = if k < j { k } else { k + 1 };
                assert(pool[pk] == x);
            }
        }
        assert(!rest.contains(x)) by {
            if rest.contains(x) {
                assert(rest.to_multiset().count(x) > 0);
                assert(smaller.to_multiset().count(x) > 0);
            }
        }
        assert(draw(pool, state, count) =~= seq![x] + rest);
        let d = seq![x] + rest;
        assert forall|a: int, b: int| 0 <= a < d.len() && 0 <= b < d.len() && a != b
            implies d[a] != d[b] by {
            if a > 0 && b > 0 {
                assert(d[a] == rest[a - 1]);
                assert(d[b] == rest[b - 1]);
            } else if a == 0 {
                assert(d[b] == rest[b - 1]);
            } else {
                assert(d[a] == rest[a - 1]);
            }
        }
    }
}

/// The eligible set holds `min(count, candidates.len())` identities.
pub proof fn lemma_eligible_set_len(candidates: Seq<Identity>, seed: u64, count: nat)
    ensures
        eligible_set(candidates, seed, count).len() == if count < candidates.len() {
            count
        } else {
            candidates.len()
        },
{
    lemma_draw_len(candidates, seed, count);
}

/// The eligible set is drawn from the candidates without replacement: it takes no candidate
/// more often than it occurs among them, so distinct candidates give distinct eligible
/// identities, and when `count` is at least the number of candidates it holds all of them.
pub proof fn lemma_eligible_set_from_candidates(candidates: Seq<Identity>, seed: u64, count: nat)
    ensures
        eligible_set(candidates, seed, count).to_multiset().subset_of(candidates.to_multiset()),
        forall|i: int| 0 <= i < eligible_set(candidates, seed, count).len()
            ==> candidates.contains(#[trigger] eligible_set(candidates, seed, count)[i]),
        candidates.no_duplicates() ==> eligible_set(candidates, seed, count).no_duplicates(),
        count >= candidates.len() ==> eligible_set(candidates, seed, count).to_multiset()
            == candidates.to_multiset(),
{
    broadcast use vstd::seq_lib::group_to_multiset_ensures;

    lemma_draw_multiset(candidates, seed, count);
    let e = eligible_set(candidates, seed, count);
    assert forall|i: int| 0 <= i < e.len() implies candidates.contains(#[trigger] e[i]) by {
        assert(e.contains(e[i]));
        assert(e.to_multiset().count(e[i]) > 0);
        assert(candidates.to_multiset().count(e[i]) > 0);
    }
    if candidates.no_duplicates() {
        lemma_draw_distinct(candidates, seed, count);
    }
}

/// Selection is reproducible: the same candidates, seed and count give the same eligible set,
/// in the same order, whoever computes it.
pub proof fn lemma_selection_deterministic(
    first: Seq<Identity>,
    second: Seq<Identity>,
    seed: u64,
    count: nat,
)
    requires
        first == second,
    ensures
        eligible_set(first, seed, count) == eligible_set(second, seed, count),
{
}

/// The claim is an eligible identity that is held; there is none exactly when no eligible
/// identity is held.
pub proof fn lemma_first_held(eligible: Seq<Identity>, held: Seq<Identity>)
    ensures
        first_held(eligible, held) matches Some(x) ==> eligible.contains(x) && held.contains(x),
        first_held(eligible, held) is None <==> forall|i: int|
            0 <= i < eligible.len() ==> !held.contains(#[trigger] eligible[i]),
    decreases eligible.len(),
{
    if eligible.len() > 0 {
        lemma_first_held(eligible.drop_first(), held);
        if first_held(eligible, held) is Some {
            if !held.contains(eligible[0]) {
                let x = first_held(eligible, held)->0;
                let k = choose|k: int| 0 <= k < eligible.drop_first().len() && eligible.drop_first()[k] == x;
                assert(eligible[k + 1] == x);
            }
        }
        if first_held(eligible, held) is None {
            assert forall|i: int| 0 <= i < eligible.len() implies !held.contains(#[trigger] eligible[i]) by {
                if i > 0 {
                    assert(eligible[i] == eligible.drop_first()[i - 1]);
                }
            }
        } else if !held.contains(eligible[0]) {
            let x = first_held(eligible, held)->0;
            assert(first_held(eligible.drop_first(), held) is Some);
        }
    }
}

fn mix_exec(z: u64) -> (r: u64)
    ensures
        r == mix(z),
{
    let a = (z ^ (z >> 30u64)).wrapping_mul(MIX_FIRST);
    let b = (a ^ (a >> 27u64)).wrapping_mul(MIX_SECOND);
    b ^ (b >> 31u64)
}

/// The eligible set for a slot: `min(count, candidates.len())` distinct positions of
/// `candidates`, drawn with the stream seeded by `seed`. The result depends on the three
/// arguments alone.
pub fn select(candidates: &Vec<Identity>, seed: u64, count: NonZeroU32) -> (r: Vec<Identity>)
    ensures
        r@ == eligible_set(candidates@, seed, count@ as nat),
{
    let mut pool: Vec<Identity> = Vec::new();
    let mut i: usize = 0;
    while i < candidates.len()
        invariant
            0 <= i <= candidates@.len(),
            pool@ =~= candidates@.take(i as int),
        decreases candidates@.len() - i,
    {
        pool.push(candidates[i]);
        i += 1;
    }
    assert(pool@ =~= candidates@);
    let mut out: Vec<Identity> = Vec::new();
    let mut state: u64 = seed;
    let mut remaining: u32 = count.get();
    while remaining > 0 && pool.len() > 0
        invariant
            out@ + draw(pool@, state, remaining as nat) == eligible_set(candidates@, seed, count@ as nat),
        decreases remaining,
    {
        let ghost before = pool@;
        let ghost prior = state;
        state = state.wrapping_add(SEED_GAMMA);
        let r = mix_exec(state);
        let j = (r % (pool.len() as u64)) as usize;
        let chosen = pool.remove(j);
        proof {
            assert(j as int == pick(r, before.len()));
            assert(draw(before, prior, remaining as nat) == seq![chosen] + draw(pool@, state, (remaining - 1) as nat)) by {
                assert(before[j as int] == chosen);
            }
        }
        out.push(chosen);
        remaining -= 1;
    }
    assert(draw(pool@, state, remaining as nat) =~= Seq::<Identity>::empty());
    assert(out@ + Seq::<Identity>::empty() =~= out@);
    out
}

/// Whether `identity` is in `eligible`.
pub fn is_eligible(identity: &Identity, eligible: &Vec<Identity>) -> (r: bool)
    ensures
        r == eligible@.contains(*identity),
{
    let mut i: usize = 0;
    while i < eligible.len()
        invariant
            0 <= i <= eligible@.len(),
            forall|j: int| 0 <= j < i ==> eligible@[j] != *identity,
        decreases eligible@.len() - i,
    {
        if eligible[i].same_as(identity) {
            return true;
        }
        i += 1;
    }
    false
}

/// The identity this node claims a slot with: the first entry of `eligible` for which it
/// holds a key, in the order of `eligible`. `None` when it holds none of them.
pub fn first_eligible_key(eligible: &Vec<Identity>, held: &Vec<Identity>) -> (r: Option<Identity>)
    ensures
        r == first_held(eligible@, held@),
{
    let mut i: usize = 0;
    assert(eligible@.skip(0) =~= eligible@);
    while i < eligible.len()
        invariant
            0 <= i <= eligible@.len(),
            first_held(eligible@, held@) == first_held(eligible@.skip(i as int), held@),
        decreases eligible@.len() - i,
    {
        assert(eligible@.skip(i as int)[0] == eligible@[i as int]);
        assert(eligible@.skip(i as int).drop_first() =~= eligible@.skip(i as int + 1));
        if is_eligible(&eligible[i], held) {
            return Some(eligible[i]);
        }
        i += 1;
    }
    assert(eligible@.skip(i as int).len() == 0);
    None
}

} // verus!
