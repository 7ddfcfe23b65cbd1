//! The question bank: questions grouped by category, drawn at random from a pool.
use vstd::prelude::*;
use linked_hash_map::LinkedHashMap;
use crate::category::CATEGORY_COUNT;
use crate::examination::ExaminationConfig;
use crate::question::QuestionEnum;
use vstd::wrapping::u64_specs;

verus! {

/// `linked_hash_map::LinkedHashMap`, a hash map that keeps insertion order;
/// opaque to proofs, its entries are named by `bank_entries`.
#[verifier::external_type_specification]
#[verifier::external_body]
#[verifier::reject_recursive_types(K)]
#[verifier::reject_recursive_types(V)]
#[verifier::reject_recursive_types(S)]
pub struct ExLinkedHashMap<K, V, S>(LinkedHashMap<K, V, S>);

/// The bank as the map holds it: a question list per category index.
pub type Bank = LinkedHashMap<usize, Vec<QuestionEnum>>;

/// The entries of the map, oldest first.
pub uninterp spec fn bank_entries(m: Bank) -> Seq<(usize, Seq<QuestionEnum>)>;

/// Some entry has key `k`.
pub open spec fn has_key(e: Seq<(usize, Seq<QuestionEnum>)>, k: usize) -> bool {
    exists|i: int| 0 <= i < e.len() && #[trigger] e[i].0 == k
}

/// The position of an entry with key `k`.
pub open spec fn key_pos(e: Seq<(usize, Seq<QuestionEnum>)>, k: usize) -> int {
    choose|i: int| 0 <= i < e.len() && #[trigger] e[i].0 == k
}

/// Relies on `LinkedHashMap::new`: the map starts empty.
#[verifier::external_body]
fn bank_new() -> (m: Bank)
    ensures
        bank_entries(m) == Seq::<(usize, Seq<QuestionEnum>)>::empty(),
{
    LinkedHashMap::new()
}

/// Relies on `LinkedHashMap::insert`: a new key goes last; an existing key has
/// its value replaced and its entry moved last, and the old value is returned.
#[verifier::external_body]
fn bank_insert(m: &mut Bank, k: usize, v: Vec<QuestionEnum>) -> (r: Option<Vec<QuestionEnum>>)
    ensures
        has_key(bank_entries(*old(m)), k) ==> r is Some
            && r->0@ == bank_entries(*old(m))[key_pos(bank_entries(*old(m)), k)].1
            && bank_entries(*final(m)) == bank_entries(*old(m)).remove(key_pos(bank_entries(*old(m)), k)).push((k, v@)),
        !has_key(bank_entries(*old(m)), k) ==> r is None
            && bank_entries(*final(m)) == bank_entries(*old(m)).push((k, v@)),
{
    m.insert(k, v)
}

/// Relies on `LinkedHashMap::get`: the value under `k`, if any.
#[verifier::external_body]
fn bank_get(m: &Bank, k: usize) -> (r: Option<&Vec<QuestionEnum>>)
    ensures
        r is Some <==> has_key(bank_entries(*m), k),
        r is Some ==> r->0@ == bank_entries(*m)[key_pos(bank_entries(*m), k)].1,
{
    m.get(&k)
}

/// Relies on `LinkedHashMap::get_mut`: the value under `k`, if any, to change in
/// place; the order of the entries stays.
#[verifier::external_body]
fn bank_get_mut(m: &mut Bank, k: usize) -> (r: Option<&mut Vec<QuestionEnum>>)
    ensures
        match r {
            Some(v) => has_key(bank_entries(*old(m)), k)
                && (*v)@ == bank_entries(*old(m))[key_pos(bank_entries(*old(m)), k)].1
                && bank_entries(*final(m)) == bank_entries(*old(m)).update(
                    key_pos(bank_entries(*old(m)), k), (k, (*final(v))@)),
            None => !has_key(bank_entries(*old(m)), k) && bank_entries(*final(m)) == bank_entries(*old(m)),
        },
{
    m.get_mut(&k)
}

/// One entry per category, in the fixed category order.
pub open spec fn bank_wf(m: Bank) -> bool {
    let e = bank_entries(m);
    &&& e.len() == CATEGORY_COUNT
    &&& forall|i: int| 0 <= i < CATEGORY_COUNT ==> #[trigger] e[i].0 == i
}

/// The question lists of a well-formed bank, by category index.
pub open spec fn bank_lists(m: Bank) -> Seq<Seq<QuestionEnum>> {
    bank_entries(m).map_values(|p: (usize, Seq<QuestionEnum>)| p.1)
}

/// In a well-formed bank the entry with key `c` stands at position `c`.
pub proof fn lemma_key_pos(m: Bank, c: usize)
    requires
        bank_wf(m),
        c < CATEGORY_COUNT,
    ensures
        has_key(bank_entries(m), c),
        key_pos(bank_entries(m), c) == c,
{
    let e = bank_entries(m);
    assert(e[c as int].0 == c);
    let i = key_pos(e, c);
    assert(e[i].0 == i);
}

/// The questions of category `c`.
pub fn questions_of(m: &Bank, c: usize) -> (r: &Vec<QuestionEnum>)
    requires
        bank_wf(*m),
        c < CATEGORY_COUNT,
    ensures
        r@ == bank_lists(*m)[c as int],
{
    proof {
        lemma_key_pos(*m, c);
    }
    bank_get(m, c).unwrap()
}

/// Replaces question `i` of category `c` by `q`.
pub fn replace_question(m: &mut Bank, c: usize, i: usize, q: QuestionEnum)
    requires
        bank_wf(*old(m)),
        c < CATEGORY_COUNT,
        i < bank_lists(*old(m))[c as int].len(),
    ensures
        bank_wf(*final(m)),
        bank_lists(*final(m)) == bank_lists(*old(m)).update(c as int, bank_lists(*old(m))[c as int].update(i as int, q)),
{
    proof {
        lemma_key_pos(*m, c);
    }
    match bank_get_mut(m, c) {
        Some(v) => {
            v.set(i, q);
        },
        None => {},
    }
    assert(bank_lists(*m) =~= bank_lists(*old(m)).update(c as int, bank_lists(*old(m))[c as int].update(i as int, q)));
}

/// Multiplier of the sampler's linear congruential step.
pub const SEED_MUL: u64 = 6364136223846793005;

/// Increment of the sampler's linear congruential step.
pub const SEED_INC: u64 = 1442695040888963407;

/// The sampler's state after one step.
pub open spec fn next_seed(s: u64) -> u64 {
    u64_specs::wrapping_add(u64_specs::wrapping_mul(s, SEED_MUL), SEED_INC)
}

/// The index below `n` drawn from state `s`: the high bits of the next state.
pub open spec fn draw_below(s: u64, n: nat) -> nat {
    ((next_seed(s) >> 33u64) as nat) % n
}

/// A seedable source of random indices; the same seed gives the same draws.
pub struct Sampler {
    seed: u64,
}

impl Sampler {
    pub closed spec fn state(&self) -> u64 {
        self.seed
    }

    /// A sampler starting from `seed`.
    pub fn new(seed: u64) -> (r: Sampler)
        ensures
            r.state() == seed,
    {
        Sampler { seed }
    }

    /// An index below `n`.
    pub fn next_below(&mut self, n: usize) -> (r: usize)
        requires
            n > 0,
        ensures
            r == draw_below(old(self).state(), n as nat),
            r < n,
            final(self).state() == next_seed(old(self).state()),
    {
        let s = self.seed.wrapping_mul(SEED_MUL).wrapping_add(SEED_INC);
        self.seed = s;
        let high: u64 = s >> 33u64;
        let r = high % (n as u64);
        r as usize
    }
}

/// Up to `k` items drawn without replacement from `rest`, starting from state `seed`:
/// each step draws an index below the number of items left and takes that item out.
pub open spec fn pick<T>(rest: Seq<T>, seed: u64, k: nat) -> Seq<T>
    decreases k,
{
    if k == 0 || rest.len() == 0 {
        Seq::empty()
    } else {
        let j = draw_below(seed, rest.len()) as int;
        seq![rest[j]] + pick(rest.remove(j), next_seed(seed), (k - 1) as nat)
    }
}

/// The sampler's state after `pick(rest, seed, k)`.
pub open spec fn seed_after<T>(rest: Seq<T>, seed: u64, k: nat) -> u64
    decreases k,
{
    if k == 0 || rest.len() == 0 {
        seed
    } else {
        let j = draw_below(seed, rest.len()) as int;
        seed_after(rest.remove(j), next_seed(seed), (k - 1) as nat)
    }
}

/// A draw takes `min(|rest|, k)` items, each from a distinct position of `rest`.
pub proof fn lemma_pick_indices<T>(rest: Seq<T>, seed: u64, k: nat) -> (idx: Seq<int>)
    ensures
        pick(rest, seed, k).len() == if rest.len() < k { rest.len() } else { k },
        idx.len() == pick(rest, seed, k).len(),
        forall|i: int| 0 <= i < idx.len() ==> 0 <= #[trigger] idx[i] < rest.len(),
        forall|i: int| 0 <= i < idx.len() ==> #[trigger] pick(rest, seed, k)[i] == rest[idx[i]],
        forall|i: int, j: int| 0 <= i < j < idx.len() ==> idx[i] != idx[j],
    decreases k,
{
    if k == 0 || rest.len() == 0 {
        Seq::empty()
    } else {
        let j = draw_below(seed, rest.len()) as int;
        let smaller = rest.remove(j);
        let sub = lemma_pick_indices(smaller, next_seed(seed), (k - 1) as nat);
        let lifted = sub.map_values(|t: int| if t < j { t } else { t + 1 });
        let idx = seq![j] + lifted;
        let p = pick(rest, seed, k);
        assert(p == seq![rest[j]] + pick(smaller, next_seed(seed), (k - 1) as nat));
        assert forall|i: int| 0 <= i < idx.len() implies #[trigger] p[i] == rest[idx[i]] by {
            if i > 0 {
                let t = sub[i - 1];
                assert(lifted[i - 1] == if t < j { t } else { t + 1 });
                assert(idx[i] == lifted[i - 1]);
            }
        }
        assert forall|a: int, b: int| 0 <= a < b < idx.len() implies idx[a] != idx[b] by {
            if a == 0 {
                let t = sub[b - 1];
                assert(idx[b] == if t < j { t } else { t + 1 });
            } else {
                let ta = sub[a - 1];
                let tb = sub[b - 1];
                assert(idx[a] == if ta < j { ta } else { ta + 1 });
                assert(idx[b] == if tb < j { tb } else { tb + 1 });
            }
        }
        assert forall|i: int| 0 <= i < idx.len() implies 0 <= #[trigger] idx[i] < rest.len() by {
            if i > 0 {
                let t = sub[i - 1];
                assert(idx[i] == if t < j { t } else { t + 1 });
            }
        }
        idx
    }
}

/// Draws up to `k` items of `pool` without replacement.
pub fn sample<T>(pool: Vec<T>, k: usize, sampler: &mut Sampler) -> (r: Vec<T>)
    ensures
        r@ == pick(pool@, old(sampler).state(), k as nat),
        final(sampler).state() == seed_after(pool@, old(sampler).state(), k as nat),
{
    let ghost whole = pool@;
    let ghost seed0 = sampler.state();
    let mut rest = pool;
    let mut out: Vec<T> = Vec::new();
    let mut taken: usize = 0;
    while taken < k && rest.len() > 0
        invariant
            taken <= k,
            pick(whole, seed0, k as nat) == out@ + pick(rest@, sampler.state(), (k - taken) as nat),
            seed_after(whole, seed0, k as nat) == seed_after(rest@, sampler.state(), (k - taken) as nat),
        decreases k - taken,
    {
        let ghost s = sampler.state();
        let ghost before = rest@;
        let j = sampler.next_below(rest.len());
        let x = rest.remove(j);
        proof {
            assert(pick(before, s, (k - taken) as nat) == seq![x] + pick(rest@, sampler.state(), (k - taken - 1) as nat));
            assert(out@.push(x) + pick(rest@, sampler.state(), (k - taken - 1) as nat)
                =~= out@ + (seq![x] + pick(rest@, sampler.state(), (k - taken - 1) as nat)));
        }
        out.push(x);
        taken += 1;
    }
    assert(out@ + pick(rest@, sampler.state(), (k - taken) as nat) =~= out@);
    out
}

/// The questions of `pool` of kind `c`, in pool order.
pub open spec fn of_kind(pool: Seq<QuestionEnum>, c: nat) -> Seq<QuestionEnum> {
    pool.filter(|q: QuestionEnum| q.kind() == c)
}

proof fn lemma_of_kind_push(s: Seq<QuestionEnum>, q: QuestionEnum, c: nat)
    ensures
        of_kind(s.push(q), c) == if q.kind() == c { of_kind(s, c).push(q) } else { of_kind(s, c) },
{
    reveal(Seq::filter);
    assert(s.push(q).drop_last() =~= s);
}

/// Every question of `of_kind(pool, c)` has kind `c`.
proof fn lemma_of_kind_kind(pool: Seq<QuestionEnum>, c: nat)
    ensures
        forall|i: int| 0 <= i < of_kind(pool, c).len() ==> (#[trigger] of_kind(pool, c)[i]).kind() == c,
{
    assert forall|i: int| 0 <= i < of_kind(pool, c).len() implies (#[trigger] of_kind(pool, c)[i]).kind() == c by {
        pool.lemma_filter_pred(|q: QuestionEnum| q.kind() == c, i);
    }
}

/// Splits the pool by kind, keeping pool order within each kind.
fn split_by_kind(pool: Vec<QuestionEnum>) -> (r: (Vec<QuestionEnum>, Vec<QuestionEnum>, Vec<QuestionEnum>, Vec<QuestionEnum>))
    ensures
        r.0@ == of_kind(pool@, 0),
        r.1@ == of_kind(pool@, 1),
        r.2@ == of_kind(pool@, 2),
        r.3@ == of_kind(pool@, 3),
{
    let ghost whole = pool@;
    let mut rest = pool;
    let mut a: Vec<QuestionEnum> = Vec::new();
    let mut b: Vec<QuestionEnum> = Vec::new();
    let mut c: Vec<QuestionEnum> = Vec::new();
    let mut d: Vec<QuestionEnum> = Vec::new();
    let ghost mut done: Seq<QuestionEnum> = Seq::empty();
    proof {
        reveal(Seq::filter);
    }
    while rest.len() > 0
        invariant
            whole == done + rest@,
            a@ == of_kind(done, 0),
            b@ == of_kind(done, 1),
            c@ == of_kind(done, 2),
            d@ == of_kind(done, 3),
        decreases rest.len(),
    {
        let q = rest.remove(0);
        proof {
            lemma_of_kind_push(done, q, 0);
            lemma_of_kind_push(done, q, 1);
            lemma_of_kind_push(done, q, 2);
            lemma_of_kind_push(done, q, 3);
            assert(whole =~= done.push(q) + rest@);
            done = done.push(q);
        }
        let kind = q.kind_index();
        if kind == 0 {
            a.push(q);
        } else if kind == 1 {
            b.push(q);
        } else if kind == 2 {
            c.push(q);
        } else {
            d.push(q);
        }
    }
    assert(done =~= whole);
    (a, b, c, d)
}

/// The sampler's state before the draw for category `c`.
pub open spec fn seed_before(pool: Seq<QuestionEnum>, quotas: Seq<usize>, seed: u64, c: nat) -> u64
    decreases c,
{
    if c == 0 {
        seed
    } else {
        let prev = (c - 1) as nat;
        seed_after(of_kind(pool, prev), seed_before(pool, quotas, seed, prev), quotas[prev as int] as nat)
    }
}

/// The questions drawn for category `c`.
pub open spec fn drawn(pool: Seq<QuestionEnum>, quotas: Seq<usize>, seed: u64, c: nat) -> Seq<QuestionEnum> {
    pick(of_kind(pool, c), seed_before(pool, quotas, seed, c), quotas[c as int] as nat)
}

/// Builds the bank: for each category in the fixed order, draws
/// `min(available, quota)` questions of that kind from the pool without replacement.
pub fn load_bank(pool: Vec<QuestionEnum>, config: &ExaminationConfig, sampler: &mut Sampler) -> (m: Bank)
    ensures
        bank_wf(m),
        forall|c: int| 0 <= c < CATEGORY_COUNT ==> #[trigger] bank_lists(m)[c] == drawn(pool@, config.quotas(), old(sampler).state(), c as nat),
        forall|c: int, i: int| 0 <= c < CATEGORY_COUNT && 0 <= i < bank_lists(m)[c].len()
            ==> (#[trigger] bank_lists(m)[c][i]).kind() == c,
{
    let ghost whole = pool@;
    let ghost seed0 = sampler.state();
    let ghost quotas = config.quotas();
    let (a, b, c, d) = split_by_kind(pool);
    let mut m = bank_new();
    let sa = sample(a, config.quota(0), sampler);
    bank_insert(&mut m, 0, sa);
    let sb = sample(b, config.quota(1), sampler);
    bank_insert(&mut m, 1, sb);
    let sc = sample(c, config.quota(2), sampler);
    bank_insert(&mut m, 2, sc);
    let sd = sample(d, config.quota(3), sampler);
    bank_insert(&mut m, 3, sd);
    proof {
        let e = bank_entries(m);
        assert(e =~= seq![(0usize, sa@), (1usize, sb@), (2usize, sc@), (3usize, sd@)]);
        assert(seed_before(whole, quotas, seed0, 0) == seed0);
        assert(seed_before(whole, quotas, seed0, 1) == seed_after(of_kind(whole, 0), seed0, quotas[0] as nat));
        assert(seed_before(whole, quotas, seed0, 2) == seed_after(of_kind(whole, 1), seed_before(whole, quotas, seed0, 1), quotas[1] as nat));
        assert(seed_before(whole, quotas, seed0, 3) == seed_after(of_kind(whole, 2), seed_before(whole, quotas, seed0, 2), quotas[2] as nat));
        assert(bank_lists(m) =~= seq![sa@, sb@, sc@, sd@]);
        assert forall|k: int, i: int| 0 <= k < CATEGORY_COUNT && 0 <= i < bank_lists(m)[k].len()
            implies (#[trigger] bank_lists(m)[k][i]).kind() == k by {
            let ghost kk = k as nat;
            let idx = lemma_pick_indices(of_kind(whole, kk), seed_before(whole, quotas, seed0, kk), quotas[k] as nat);
            lemma_of_kind_kind(whole, kk);
            assert(bank_lists(m)[k] == drawn(whole, quotas, seed0, kk));
            assert(bank_lists(m)[k][i] == of_kind(whole, kk)[idx[i]]);
        }
    }
    m
}

/// Drawing is without replacement: category `c` receives `min(available, quota)`
/// questions of kind `c`, each a question of the pool, taken from distinct
/// positions among the pool's questions of that kind.
pub proof fn lemma_drawn_without_replacement(pool: Seq<QuestionEnum>, quotas: Seq<usize>, seed: u64, c: nat) -> (idx: Seq<int>)
    requires
        c < CATEGORY_COUNT,
        quotas.len() == CATEGORY_COUNT,
    ensures
        drawn(pool, quotas, seed, c).len() == if of_kind(pool, c).len() < quotas[c as int] {
            of_kind(pool, c).len()
        } else {
            quotas[c as int] as nat
        },
        idx.len() == drawn(pool, quotas, seed, c).len(),
        forall|i: int| 0 <= i < idx.len() ==> 0 <= #[trigger] idx[i] < of_kind(pool, c).len()
            && drawn(pool, quotas, seed, c)[i] == of_kind(pool, c)[idx[i]],
        forall|i: int, j: int| 0 <= i < j < idx.len() ==> idx[i] != idx[j],
        forall|i: int| 0 <= i < idx.len() ==> pool.contains(#[trigger] drawn(pool, quotas, seed, c)[i])
            && drawn(pool, quotas, seed, c)[i].kind() == c,
{
    let sub = of_kind(pool, c);
    let idx = lemma_pick_indices(sub, seed_before(pool, quotas, seed, c), quotas[c as int] as nat);
    lemma_of_kind_kind(pool, c);
    let d = drawn(pool, quotas, seed, c);
    assert forall|i: int| 0 <= i < idx.len() implies pool.contains(#[trigger] d[i]) && d[i].kind() == c by {
        assert(d[i] == sub[idx[i]]);
        assert(sub.contains(sub[idx[i]]));
        pool.lemma_filter_contains_rev(|q: QuestionEnum| q.kind() == c, sub[idx[i]]);
    }
    idx
}

} // verus!
