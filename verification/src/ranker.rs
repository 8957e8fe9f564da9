//! Ordering scored items: highest score first, ties in input order.
//!
//! Scores enter as unsigned integers that order as the scores do. For the
//! scores of this crate, which are finite and not negative, the bit pattern
//! of the double-precision number is such an integer.

use vstd::prelude::*;

verus! {

/// Whether the item at position `a` of the input comes before the item at
/// position `b` in the ranking: it has the higher key, or the same key and
/// the earlier position.
pub open spec fn precedes(keys: Seq<u64>, a: int, b: int) -> bool {
    keys[a] > keys[b] || (keys[a] == keys[b] && a < b)
}

/// `order` lists `n` input positions so that each comes before all that
/// follow it.
pub open spec fn is_ranking_of_first(order: Seq<int>, keys: Seq<u64>, n: int) -> bool {
    &&& order.len() == n
    &&& forall|k: int| 0 <= k < n ==> 0 <= #[trigger] order[k] < n
    &&& forall|j: int, k: int| 0 <= j < k < n ==> precedes(keys, #[trigger] order[j], #[trigger] order[k])
}

/// `order` is the ranking of the input with these keys: it lists every
/// input position once, by falling key, and positions with equal keys in
/// rising order.
pub open spec fn is_ranking(order: Seq<int>, keys: Seq<u64>) -> bool {
    is_ranking_of_first(order, keys, keys.len() as int)
}

/// The ranking of the input with these keys.
pub open spec fn ranking(keys: Seq<u64>) -> Seq<int> {
    choose|order: Seq<int>| is_ranking(order, keys)
}

/// `items` rearranged by `order`.
pub open spec fn arranged<T>(items: Seq<T>, order: Seq<int>) -> Seq<T> {
    Seq::new(order.len(), |k: int| items[order[k]])
}

/// The positions of `order` as mathematical integers.
pub open spec fn positions(order: Seq<usize>) -> Seq<int> {
    order.map_values(|i: usize| i as int)
}

/// A ranking of `n` positions names each of them.
proof fn lemma_ranking_names_all(order: Seq<int>, keys: Seq<u64>, n: int, x: int)
    requires
        is_ranking_of_first(order, keys, n),
        0 <= x < n,
    ensures
        exists|k: int| 0 <= k < n && order[k] == x,
{
    assert forall|j: int, k: int| 0 <= j < order.len() && 0 <= k < order.len() && j != k implies order[j] != order[k] by {
        if j < k {
            assert(precedes(keys, order[j], order[k]));
        } else {
            assert(precedes(keys, order[k], order[j]));
        }
    }
    assert(order.no_duplicates());
    order.unique_seq_to_set();
    let named = order.to_set();
    let all = Set::new(|i: int| 0 <= i < n);
    vstd::set_lib::lemma_int_range(0, n);
    assert(all =~= vstd::set_lib::set_int_range(0, n));
    assert(named.subset_of(all)) by {
        assert forall|v: int| named.contains(v) implies all.contains(v) by {
            let k = choose|k: int| 0 <= k < order.len() && order[k] == v;
            assert(0 <= order[k] < n);
        }
    }
    vstd::set_lib::lemma_subset_equality(named, all);
    assert(named.contains(x));
}

/// There is only one ranking of an input.
pub proof fn lemma_ranking_unique(a: Seq<int>, b: Seq<int>, keys: Seq<u64>)
    requires
        is_ranking(a, keys),
        is_ranking(b, keys),
    ensures
        a == b,
{
    let n = keys.len() as int;
    assert forall|k: int| 0 <= k < n implies a[k] == b[k] by {
        lemma_agree_upto(a, b, keys, k);
    }
    assert(a =~= b);
}

proof fn lemma_agree_upto(a: Seq<int>, b: Seq<int>, keys: Seq<u64>, k: int)
    requires
        is_ranking(a, keys),
        is_ranking(b, keys),
        0 <= k < keys.len(),
    ensures
        forall|j: int| 0 <= j <= k ==> a[j] == b[j],
    decreases k,
{
    let n = keys.len() as int;
    if k > 0 {
        lemma_agree_upto(a, b, keys, k - 1);
    }
    let x = a[k];
    let y = b[k];
    assert(0 <= x < n && 0 <= y < n);
    lemma_ranking_names_all(b, keys, n, x);
    lemma_ranking_names_all(a, keys, n, y);
    let m = choose|m: int| 0 <= m < n && b[m] == x;
    let w = choose|w: int| 0 <= w < n && a[w] == y;
    if m < k {
        assert(a[m] == b[m]);
        assert(precedes(keys, a[m], a[k]));
    }
    if w < k {
        assert(a[w] == b[w]);
        assert(precedes(keys, b[w], b[k]));
    }
    if m > k && w > k {
        assert(precedes(keys, b[k], b[m]));
        assert(precedes(keys, a[k], a[w]));
    }
}

/// The ranking exists for every input, and nothing else is a ranking.
pub proof fn lemma_ranking_is_the_ranking(order: Seq<int>, keys: Seq<u64>)
    requires
        is_ranking(order, keys),
    ensures
        ranking(keys) == order,
{
    lemma_ranking_unique(ranking(keys), order, keys);
}

/// Where position `i` goes in the ranking of the positions before it.
fn insertion_point(order: &Vec<usize>, keys: &Vec<u64>, i: usize) -> (p: usize)
    requires
        i < keys@.len(),
        is_ranking_of_first(positions(order@), keys@, i as int),
    ensures
        p <= i,
        forall|j: int| 0 <= j < p ==> precedes(keys@, #[trigger] positions(order@)[j], i as int),
        forall|j: int| p <= j < i ==> precedes(keys@, i as int, #[trigger] positions(order@)[j]),
{
    let key = keys[i];
    let mut p: usize = order.len();
    assert forall|k: int| 0 <= k < i implies #[trigger] order@[k] < i by {
        assert(0 <= positions(order@)[k] < i);
    }
    while p > 0 && keys[order[p - 1]] < key
        invariant
            p <= i,
            i < keys@.len(),
            order@.len() == i,
            key == keys@[i as int],
            forall|k: int| 0 <= k < i ==> #[trigger] order@[k] < i,
            forall|j: int| p <= j < i ==> keys@[#[trigger] positions(order@)[j]] < key,
        decreases p,
    {
        p = p - 1;
    }
    assert forall|j: int| 0 <= j < p implies precedes(keys@, #[trigger] positions(order@)[j], i as int) by {
        let last = positions(order@)[p - 1];
        assert(keys@[last] >= key);
        if j < p - 1 {
            assert(precedes(keys@, positions(order@)[j], positions(order@)[p - 1]));
        }
        assert(0 <= positions(order@)[j] < i);
    }
    p
}

/// Lists the positions of the input by falling key; positions with equal
/// keys keep their order.
pub fn rank_order(keys: &Vec<u64>) -> (order: Vec<usize>)
    ensures
        positions(order@) == ranking(keys@),
        is_ranking(ranking(keys@), keys@),
{
    let mut order: Vec<usize> = Vec::new();
    let mut i: usize = 0;
    while i < keys.len()
        invariant
            i <= keys@.len(),
            is_ranking_of_first(positions(order@), keys@, i as int),
        decreases keys@.len() - i,
    {
        let p = insertion_point(&order, keys, i);
        let ghost before = positions(order@);
        order.insert(p, i);
        proof {
            let after = positions(order@);
            assert(after =~= before.insert(p as int, i as int));
            lemma_insert_keeps_ranking(before, keys@, i as int, p as int);
        }
        i += 1;
    }
    proof {
        lemma_ranking_is_the_ranking(positions(order@), keys@);
    }
    order
}

proof fn lemma_insert_keeps_ranking(before: Seq<int>, keys: Seq<u64>, i: int, p: int)
    requires
        0 <= p <= i < keys.len(),
        is_ranking_of_first(before, keys, i),
        forall|j: int| 0 <= j < p ==> precedes(keys, #[trigger] before[j], i),
        forall|j: int| p <= j < i ==> precedes(keys, i, #[trigger] before[j]),
    ensures
        is_ranking_of_first(before.insert(p, i), keys, i + 1),
{
    let after = before.insert(p, i);
    assert forall|k: int| 0 <= k < i + 1 implies 0 <= #[trigger] after[k] < i + 1 by {
        if k < p {
            assert(after[k] == before[k]);
        } else if k > p {
            assert(after[k] == before[k - 1]);
        }
    }
    assert forall|j: int, k: int| 0 <= j < k < i + 1 implies precedes(
        keys,
        #[trigger] after[j],
        #[trigger] after[k],
    ) by {
        if k < p {
            assert(after[j] == before[j] && after[k] == before[k]);
        } else if k == p {
            assert(after[j] == before[j]);
        } else if j < p {
            assert(after[j] == before[j] && after[k] == before[k - 1]);
        } else if j == p {
            assert(after[k] == before[k - 1]);
        } else {
            assert(after[j] == before[j - 1] && after[k] == before[k - 1]);
        }
    }
}

/// Ranks `items` by their keys: `keys[i]` is the key of `items[i]`. The
/// result holds the same items, highest key first, and items with equal
/// keys in the order in which they came.
pub fn rank<T>(items: Vec<T>, keys: &Vec<u64>) -> (ranked: Vec<T>)
    requires
        keys@.len() == items@.len(),
    ensures
        ranked@ == arranged(items@, ranking(keys@)),
        is_ranking(ranking(keys@), keys@),
{
    let ghost input = items@;
    let mut rest = items;
    let mut order: Vec<usize> = Vec::new();
    let mut ranked: Vec<T> = Vec::new();
    let mut i: usize = 0;
    while i < keys.len()
        invariant
            i <= keys@.len(),
            keys@.len() == input.len(),
            rest@ == input.skip(i as int),
            is_ranking_of_first(positions(order@), keys@, i as int),
            ranked@ == arranged(input, positions(order@)),
        decreases keys@.len() - i,
    {
        let p = insertion_point(&order, keys, i);
        let ghost before = positions(order@);
        let ghost ranked_before = ranked@;
        let item = rest.remove(0);
        order.insert(p, i);
        ranked.insert(p, item);
        proof {
            let after = positions(order@);
            assert(after =~= before.insert(p as int, i as int));
            lemma_insert_keeps_ranking(before, keys@, i as int, p as int);
            assert(item == input[i as int]);
            assert(rest@ =~= input.skip(i + 1));
            assert(ranked@ =~= arranged(input, after));
        }
        i += 1;
    }
    proof {
        lemma_ranking_is_the_ranking(positions(order@), keys@);
    }
    ranked
}

} // verus!
