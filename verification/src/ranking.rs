//! Ordering plays by a key, largest first.

use vstd::prelude::*;
use vstd::relations::{sorted_by, total_ordering};
use vstd::seq_lib::lemma_sorted_unique;
use vstd::set_lib::lemma_subset_equality;

verus! {

/// `perm` lists every index below `n` exactly once.
pub open spec fn is_index_permutation(perm: Seq<usize>, n: nat) -> bool {
    &&& perm.len() == n
    &&& forall|i: int| 0 <= i < perm.len() ==> #[trigger] perm[i] < n
    &&& forall|i: int, j: int| 0 <= i < j < perm.len() ==> perm[i] != perm[j]
}

/// Reading `keys` in the order of `perm` gives a non-increasing sequence.
pub open spec fn ordered_by_key_desc(keys: Seq<u64>, perm: Seq<usize>) -> bool {
    forall|i: int, j: int|
        0 <= i < j < perm.len() ==> keys[perm[i] as int] >= keys[perm[j] as int]
}

/// The keys read in the order of `perm`.
pub open spec fn keys_in_order(keys: Seq<u64>, perm: Seq<usize>) -> Seq<u64> {
    Seq::new(perm.len(), |k: int| keys[perm[k] as int])
}

/// `perm` lists every index of `keys` once, largest key first, and reading
/// the keys in its order gives back the same keys.
pub open spec fn is_order_by_key_desc(keys: Seq<u64>, perm: Seq<usize>) -> bool {
    &&& is_index_permutation(perm, keys.len())
    &&& ordered_by_key_desc(keys, perm)
    &&& keys_in_order(keys, perm).to_multiset() == keys.to_multiset()
}

proof fn lemma_swap_keeps_multiset(s: Seq<u64>, i: int, j: int)
    requires
        0 <= i < s.len(),
        0 <= j < s.len(),
    ensures
        s.update(i, s[j]).update(j, s[i]).to_multiset() == s.to_multiset(),
{
    broadcast use vstd::seq_lib::to_multiset_update;
    broadcast use vstd::multiset::group_multiset_axioms;

    let t = s.update(i, s[j]);
    assert(t.to_multiset() == s.to_multiset().insert(s[j]).remove(s[i]));
    assert(t[j] == s[j]);
    assert(t.update(j, s[i]).to_multiset() == t.to_multiset().insert(s[i]).remove(s[j]));
    let m = s.to_multiset();
    assert(m.count(s[i]) > 0) by {
        broadcast use vstd::seq_lib::to_multiset_contains;

        assert(s.contains(s[i]));
    }
    let m1 = m.insert(s[j]);
    let m2 = m1.remove(s[i]);
    let m3 = m2.insert(s[i]);
    let m4 = m3.remove(s[j]);
    assert forall|x: u64| m4.count(x) == m.count(x) by {
        assert(m1.count(x) == m.count(x) + (if x == s[j] { 1int } else { 0int }));
        assert(m2.count(x) == m1.count(x) - (if x == s[i] { 1int } else { 0int }));
        assert(m3.count(x) == m2.count(x) + (if x == s[i] { 1int } else { 0int }));
        assert(m4.count(x) == m3.count(x) - (if x == s[j] { 1int } else { 0int }));
    }
    assert(m4 =~= m);
}

/// The order in which to list items whose keys are `keys`: every index
/// once, largest key first. Items with equal keys come in no promised order.
pub fn order_by_key_desc(keys: &Vec<u64>) -> (perm: Vec<usize>)
    ensures
        is_order_by_key_desc(keys@, perm@),
{
    let n = keys.len();
    let mut perm: Vec<usize> = Vec::new();
    let mut k: usize = 0;
    while k < n
        invariant
            k <= n,
            n == keys@.len(),
            perm@.len() == k,
            forall|i: int| 0 <= i < k ==> perm@[i] == i,
        decreases n - k,
    {
        perm.push(k);
        k = k + 1;
    }
    assert(keys_in_order(keys@, perm@) =~= keys@);
    let mut i: usize = 0;
    while i < n
        invariant
            i <= n,
            n == keys@.len(),
            is_index_permutation(perm@, n as nat),
            keys_in_order(keys@, perm@).to_multiset() == keys@.to_multiset(),
            forall|a: int, b: int|
                0 <= a < b < n && a < i ==> keys[perm@[a] as int] >= keys[perm@[b] as int],
        decreases n - i,
    {
        let mut best: usize = i;
        let mut j: usize = i + 1;
        while j < n
            invariant
                i < n,
                i <= best < n,
                i < j <= n,
                n == keys@.len(),
                is_index_permutation(perm@, n as nat),
                forall|b: int| i <= b < j ==> keys[perm@[best as int] as int] >= keys[perm@[b] as int],
            decreases n - j,
        {
            if keys[perm[j]] > keys[perm[best]] {
                best = j;
            }
            j = j + 1;
        }
        let ghost before = perm@;
        let at_i = perm[i];
        let at_best = perm[best];
        perm.set(i, at_best);
        perm.set(best, at_i);
        proof {
            assert forall|a: int| 0 <= a < n implies perm@[a] == (if a == i {
                before[best as int]
            } else if a == best {
                before[i as int]
            } else {
                before[a]
            }) by {}
            assert forall|a: int, b: int| 0 <= a < b < perm@.len() implies perm@[a] != perm@[b] by {
                let sa = if a == i { best as int } else if a == best { i as int } else { a };
                let sb = if b == i { best as int } else if b == best { i as int } else { b };
                assert(perm@[a] == before[sa]);
                assert(perm@[b] == before[sb]);
                assert(sa != sb);
                if sa < sb {
                    assert(before[sa] != before[sb]);
                } else {
                    assert(before[sb] != before[sa]);
                }
            }
            let ko = keys_in_order(keys@, before);
            lemma_swap_keeps_multiset(ko, i as int, best as int);
            assert(keys_in_order(keys@, perm@) =~= ko.update(i as int, ko[best as int]).update(
                best as int,
                ko[i as int],
            ));
        }
        i = i + 1;
    }
    perm
}

/// The ordered keys do not depend on the order in which the keys arrived:
/// two arrangements of the same keys, each put in order, read the same.
pub proof fn law_order_independent_of_arrival(
    keys1: Seq<u64>,
    perm1: Seq<usize>,
    keys2: Seq<u64>,
    perm2: Seq<usize>,
)
    requires
        keys2.to_multiset() == keys1.to_multiset(),
        is_order_by_key_desc(keys1, perm1),
        is_order_by_key_desc(keys2, perm2),
    ensures
        keys_in_order(keys1, perm1) == keys_in_order(keys2, perm2),
{
    let leq = |a: u64, b: u64| a >= b;
    let s1 = keys_in_order(keys1, perm1);
    let s2 = keys_in_order(keys2, perm2);
    assert(sorted_by(s1, leq));
    assert(sorted_by(s2, leq));
    assert(total_ordering(leq));
    lemma_sorted_unique(s1, s2, leq);
}

/// With distinct keys, the items come out in one order however they
/// arrived: when the second arrival lists the first's items in the order
/// `arrival`, the item at each place of the second listing is the item at
/// that place of the first.
pub proof fn law_same_items_when_keys_distinct(
    keys1: Seq<u64>,
    perm1: Seq<usize>,
    arrival: Seq<usize>,
    perm2: Seq<usize>,
)
    requires
        keys1.no_duplicates(),
        is_index_permutation(arrival, keys1.len()),
        is_order_by_key_desc(keys1, perm1),
        is_order_by_key_desc(keys_in_order(keys1, arrival), perm2),
    ensures
        forall|k: int| 0 <= k < keys1.len() ==> #[trigger] arrival[perm2[k] as int] == perm1[k],
{
    broadcast use vstd::set::group_set_axioms;
    broadcast use vstd::seq_lib::seq_to_set_is_finite;

    let keys2 = keys_in_order(keys1, arrival);
    assert(keys2.no_duplicates()) by {
        assert forall|i: int, j: int| 0 <= i < keys2.len() && 0 <= j < keys2.len() && i != j implies keys2[i]
            != keys2[j] by {
            if i < j {
                assert(arrival[i] != arrival[j]);
            } else {
                assert(arrival[j] != arrival[i]);
            }
        }
    }
    keys1.unique_seq_to_set();
    keys2.unique_seq_to_set();
    assert(keys2.to_set().subset_of(keys1.to_set())) by {
        assert forall|x: u64| keys2.to_set().contains(x) implies keys1.to_set().contains(x) by {
            let j = choose|j: int| 0 <= j < keys2.len() && keys2[j] == x;
            assert(keys1[arrival[j] as int] == x);
        }
    }
    lemma_subset_equality(keys2.to_set(), keys1.to_set());
    keys1.lemma_multiset_has_no_duplicates();
    keys2.lemma_multiset_has_no_duplicates();
    assert(keys2.to_multiset() =~= keys1.to_multiset()) by {
        broadcast use vstd::seq_lib::to_multiset_contains;
        broadcast use vstd::multiset::group_multiset_axioms;

        assert forall|x: u64| keys2.to_multiset().count(x) == keys1.to_multiset().count(x) by {
            assert(keys2.to_multiset().contains(x) == keys2.contains(x));
            assert(keys1.to_multiset().contains(x) == keys1.contains(x));
            assert(keys2.to_set().contains(x) == keys2.contains(x));
            assert(keys1.to_set().contains(x) == keys1.contains(x));
        }
    }
    law_order_independent_of_arrival(keys1, perm1, keys2, perm2);
    assert forall|k: int| 0 <= k < keys1.len() implies #[trigger] arrival[perm2[k] as int] == perm1[k] by {
        assert(keys_in_order(keys1, perm1)[k] == keys_in_order(keys2, perm2)[k]);
        assert(keys2[perm2[k] as int] == keys1[arrival[perm2[k] as int] as int]);
        assert(perm2[k] < keys1.len());
        assert(arrival[perm2[k] as int] < keys1.len());
        assert(perm1[k] < keys1.len());
    }
}


/// The first item listed has the largest key and the last the smallest.
pub proof fn law_largest_first(keys: Seq<u64>, perm: Seq<usize>)
    requires
        is_order_by_key_desc(keys, perm),
        keys.len() > 0,
    ensures
        forall|j: int| 0 <= j < keys.len() ==> keys[perm[0] as int] >= #[trigger] keys[j],
        forall|j: int| 0 <= j < keys.len() ==> keys[perm[perm.len() - 1] as int] <= #[trigger] keys[j],
{
    broadcast use vstd::seq_lib::to_multiset_contains;

    let s = keys_in_order(keys, perm);
    assert forall|j: int| 0 <= j < keys.len() implies keys[perm[0] as int] >= #[trigger] keys[j]
        && keys[perm[perm.len() - 1] as int] <= keys[j] by {
        assert(keys.contains(keys[j]));
        assert(keys.to_multiset().count(keys[j]) > 0);
        assert(s.to_multiset().count(keys[j]) > 0);
        assert(s.contains(keys[j]));
        let k = choose|k: int| 0 <= k < s.len() && s[k] == keys[j];
        assert(s[k] == keys[perm[k] as int]);
    }
}

} // verus!
