use vstd::prelude::*;
use std::collections::BTreeMap;
use vstd::laws_cmp::obeys_cmp;

verus! {

/// The map `m` after inserting each pair in order; a later pair replaces an earlier one
/// with the same key.
pub open spec fn insert_all<K, V>(m: Map<K, V>, pairs: Seq<(K, V)>) -> Map<K, V>
    decreases pairs.len(),
{
    if pairs.len() == 0 {
        m
    } else {
        insert_all(m.insert(pairs[0].0, pairs[0].1), pairs.drop_first())
    }
}

proof fn lemma_insert_all<K, V>(m: Map<K, V>, pairs: Seq<(K, V)>, k: K)
    ensures
        insert_all(m, pairs).dom().contains(k) <==> (m.dom().contains(k) || exists|i: int|
            0 <= i < pairs.len() && pairs[i].0 == k),
        (forall|i: int| 0 <= i < pairs.len() ==> pairs[i].0 != k) ==> (m.dom().contains(k)
            ==> insert_all(m, pairs)[k] == m[k]),
        forall|i: int|
            0 <= i < pairs.len() && pairs[i].0 == k && (forall|j: int|
                i < j < pairs.len() ==> pairs[j].0 != k) ==> insert_all(m, pairs)[k] == pairs[i].1,
    decreases pairs.len(),
{
    if pairs.len() > 0 {
        let m2 = m.insert(pairs[0].0, pairs[0].1);
        let rest = pairs.drop_first();
        lemma_insert_all(m2, rest, k);
        assert forall|i: int| 0 <= i < rest.len() implies rest[i] == pairs[i + 1] by {}
        if exists|i: int| 0 <= i < pairs.len() && pairs[i].0 == k {
            let i = choose|i: int| 0 <= i < pairs.len() && pairs[i].0 == k;
            if i > 0 {
                assert(rest[i - 1].0 == k);
            }
        }
        if exists|i: int| 0 <= i < rest.len() && rest[i].0 == k {
            let i = choose|i: int| 0 <= i < rest.len() && rest[i].0 == k;
            assert(pairs[i + 1].0 == k);
        }
        assert forall|i: int|
            0 <= i < pairs.len() && pairs[i].0 == k && (forall|j: int|
                i < j < pairs.len() ==> pairs[j].0 != k) implies insert_all(m, pairs)[k]
            == pairs[i].1 by {
            if i == 0 {
                assert forall|j: int| 0 <= j < rest.len() implies rest[j].0 != k by {
                    assert(pairs[j + 1].0 != k);
                }
            } else {
                assert(rest[i - 1].0 == k);
                assert forall|j: int| i - 1 < j < rest.len() implies rest[j].0 != k by {
                    assert(pairs[j + 1].0 != k);
                }
            }
        }
    }
}

/// The map built from `pairs` holds exactly their keys, and each key with the value of its
/// last pair: a later pair overrides an earlier one with the same key.
pub proof fn lemma_btreemap_last_wins<K, V>(pairs: Seq<(K, V)>, k: K)
    ensures
        insert_all(Map::<K, V>::empty(), pairs).dom().contains(k) <==> exists|i: int|
            0 <= i < pairs.len() && pairs[i].0 == k,
        forall|i: int|
            0 <= i < pairs.len() && pairs[i].0 == k && (forall|j: int|
                i < j < pairs.len() ==> pairs[j].0 != k) ==> insert_all(
                Map::<K, V>::empty(),
                pairs,
            )[k] == pairs[i].1,
{
    lemma_insert_all(Map::<K, V>::empty(), pairs, k);
}

/// A `BTreeMap` holding the given pairs, inserted in order (`btreemap!{k => v, ...}`).
pub fn btreemap<K: Ord, V>(pairs: Vec<(K, V)>) -> (m: BTreeMap<K, V>)
    ensures
        obeys_cmp::<K>() ==> m@ == insert_all(Map::<K, V>::empty(), pairs@),
{
    let mut m: BTreeMap<K, V> = BTreeMap::new();
    let mut rest = pairs;
    let ghost all = rest@;
    while rest.len() > 0
        invariant
            obeys_cmp::<K>() ==> insert_all(Map::<K, V>::empty(), all) == insert_all(m@, rest@),
        decreases rest.len(),
    {
        let (k, v) = rest.remove(0);
        let _ = m.insert(k, v);
    }
    m
}

} // verus!
