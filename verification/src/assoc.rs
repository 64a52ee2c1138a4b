//! Association lists: sequences of key-value pairs read as finite maps,
//! the model of the indexes kept in vectors.
use vstd::prelude::*;

verus! {

/// The value of the last pair with key `k`, if any.
pub open spec fn assoc_lookup<K, V>(s: Seq<(K, V)>, k: K) -> Option<V>
    decreases s.len(),
{
    if s.len() == 0 {
        None
    } else if s.last().0 == k {
        Some(s.last().1)
    } else {
        assoc_lookup(s.drop_last(), k)
    }
}

/// No key occurs twice.
pub open spec fn keys_unique<K, V>(s: Seq<(K, V)>) -> bool {
    forall|i: int, j: int| 0 <= i < j < s.len() ==> s[i].0 != s[j].0
}

/// The pairs whose key is not `k`, in their order.
pub open spec fn assoc_remove<K, V>(s: Seq<(K, V)>, k: K) -> Seq<(K, V)>
    decreases s.len(),
{
    if s.len() == 0 {
        seq![]
    } else if s.last().0 == k {
        assoc_remove(s.drop_last(), k)
    } else {
        assoc_remove(s.drop_last(), k).push(s.last())
    }
}

/// A pushed pair is found by its key; other keys are found as before.
pub proof fn lemma_lookup_push<K, V>(s: Seq<(K, V)>, k: K, v: V, q: K)
    ensures
        assoc_lookup(s.push((k, v)), q) == if q == k {
            Some(v)
        } else {
            assoc_lookup(s, q)
        },
{
    assert(s.push((k, v)).drop_last() =~= s);
}

/// A key that no pair holds is not found, and a key that is not found is
/// held by no pair.
pub proof fn lemma_lookup_none<K, V>(s: Seq<(K, V)>, q: K)
    ensures
        assoc_lookup(s, q) is None <==> forall|i: int| 0 <= i < s.len() ==> s[i].0 != q,
    decreases s.len(),
{
    if s.len() > 0 {
        lemma_lookup_none(s.drop_last(), q);
        if assoc_lookup(s, q) is None {
            assert forall|i: int| 0 <= i < s.len() implies s[i].0 != q by {
                if i < s.len() - 1 {
                    assert(s[i] == s.drop_last()[i]);
                }
            }
        } else {
            if s.last().0 != q {
                let i = choose|i: int| 0 <= i < s.drop_last().len() && s.drop_last()[i].0 == q;
                assert(s[i] == s.drop_last()[i]);
            }
        }
    }
}

/// With unique keys, the pair at `i` is found by its key.
pub proof fn lemma_lookup_found<K, V>(s: Seq<(K, V)>, i: int)
    requires
        keys_unique(s),
        0 <= i < s.len(),
    ensures
        assoc_lookup(s, s[i].0) == Some(s[i].1),
    decreases s.len(),
{
    if i < s.len() - 1 {
        assert(s.drop_last()[i] == s[i]);
        lemma_lookup_found(s.drop_last(), i);
    }
}

/// A found value is the value of some pair with that key.
pub proof fn lemma_lookup_some<K, V>(s: Seq<(K, V)>, q: K)
    requires
        assoc_lookup(s, q) is Some,
    ensures
        exists|i: int| 0 <= i < s.len() && s[i] == (q, assoc_lookup(s, q)->Some_0),
    decreases s.len(),
{
    if s.last().0 == q {
        assert(s[s.len() - 1] == (q, assoc_lookup(s, q)->Some_0));
    } else {
        lemma_lookup_some(s.drop_last(), q);
        let i = choose|i: int|
            0 <= i < s.drop_last().len() && s.drop_last()[i] == (q, assoc_lookup(
                s.drop_last(),
                q,
            )->Some_0);
        assert(s[i] == s.drop_last()[i]);
    }
}

/// Replacing the value at `i` changes what its key finds and nothing else.
pub proof fn lemma_lookup_update<K, V>(s: Seq<(K, V)>, i: int, v: V, q: K)
    requires
        keys_unique(s),
        0 <= i < s.len(),
    ensures
        keys_unique(s.update(i, (s[i].0, v))),
        assoc_lookup(s.update(i, (s[i].0, v)), q) == if q == s[i].0 {
            Some(v)
        } else {
            assoc_lookup(s, q)
        },
    decreases s.len(),
{
    let u = s.update(i, (s[i].0, v));
    assert(keys_unique(u)) by {
        assert forall|a: int, b: int| 0 <= a < b < u.len() implies u[a].0 != u[b].0 by {
            assert(u[a].0 == s[a].0);
            assert(u[b].0 == s[b].0);
        }
    }
    if q == s[i].0 {
        lemma_lookup_found(u, i);
    } else if i == s.len() - 1 {
        assert(u.drop_last() =~= s.drop_last());
    } else {
        assert(u.drop_last() =~= s.drop_last().update(i, (s[i].0, v)));
        assert(s.drop_last()[i] == s[i]);
        lemma_lookup_update(s.drop_last(), i, v, q);
    }
}

/// Every pair left by `assoc_remove` is a pair of `s` with another key.
pub proof fn lemma_remove_subset<K, V>(s: Seq<(K, V)>, k: K)
    ensures
        forall|j: int|
            0 <= j < assoc_remove(s, k).len() ==> assoc_remove(s, k)[j].0 != k && exists|i: int|
                0 <= i < s.len() && s[i] == #[trigger] assoc_remove(s, k)[j],
        assoc_remove(s, k).len() <= s.len(),
    decreases s.len(),
{
    if s.len() > 0 {
        lemma_remove_subset(s.drop_last(), k);
        let r = assoc_remove(s, k);
        let rd = assoc_remove(s.drop_last(), k);
        assert forall|j: int| 0 <= j < r.len() implies r[j].0 != k && exists|i: int|
            0 <= i < s.len() && s[i] == #[trigger] r[j] by {
            if s.last().0 == k || j < rd.len() {
                assert(r[j] == rd[j]);
                let i = choose|i: int| 0 <= i < s.drop_last().len() && s.drop_last()[i] == rd[j];
                assert(s[i] == s.drop_last()[i]);
            } else {
                assert(r[j] == s[s.len() - 1]);
            }
        }
    }
}

/// `assoc_remove` takes out key `k` and keeps every other key as it was;
/// with unique keys, the keys stay unique.
pub proof fn lemma_lookup_remove<K, V>(s: Seq<(K, V)>, k: K, q: K)
    ensures
        assoc_lookup(assoc_remove(s, k), q) == if q == k {
            None
        } else {
            assoc_lookup(s, q)
        },
        keys_unique(s) ==> keys_unique(assoc_remove(s, k)),
    decreases s.len(),
{
    if s.len() > 0 {
        lemma_lookup_remove(s.drop_last(), k, q);
        if s.last().0 != k {
            lemma_lookup_push(assoc_remove(s.drop_last(), k), s.last().0, s.last().1, q);
        }
        if keys_unique(s) {
            assert(keys_unique(s.drop_last()));
            let r = assoc_remove(s, k);
            let rd = assoc_remove(s.drop_last(), k);
            if s.last().0 != k {
                lemma_remove_subset(s.drop_last(), k);
                assert forall|a: int, b: int| 0 <= a < b < r.len() implies r[a].0 != r[b].0 by {
                    if b < rd.len() {
                        assert(r[a] == rd[a]);
                        assert(r[b] == rd[b]);
                    } else {
                        assert(r[a] == rd[a]);
                        let i = choose|i: int|
                            0 <= i < s.drop_last().len() && s.drop_last()[i] == rd[a];
                        assert(s[i] == s.drop_last()[i]);
                        assert(r[b] == s[s.len() - 1]);
                    }
                }
            }
        }
    }
}

} // verus!
