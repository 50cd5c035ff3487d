//! Laws of the abstraction layer, stated over the mathematical models that
//! the `MapLike` and `MultiMap` contracts speak of.

use vstd::prelude::*;

verus! {

/// Inserting a key and value into an empty container and then looking that
/// key up yields exactly the value inserted.
pub proof fn lemma_insert_into_empty_then_get<K, V>(k: K, v: V)
    ensures
        Map::<K, V>::empty().insert(k, v).contains_key(k),
        Map::<K, V>::empty().insert(k, v)[k] == v,
{
}

/// Inserting a second value under an already-present key overwrites: a
/// subsequent lookup yields the new value, and the set of keys — hence the
/// entry count — is unchanged.  That the insertion returns the prior value is
/// part of `MapLike::insert`'s own contract.
pub proof fn lemma_overwrite<K, V>(m: Map<K, V>, k: K, v: V)
    requires
        m.contains_key(k),
        m.dom().finite(),
    ensures
        m.insert(k, v).contains_key(k),
        m.insert(k, v)[k] == v,
        m.insert(k, v).dom() == m.dom(),
        m.insert(k, v).dom().len() == m.dom().len(),
{
    assert(m.insert(k, v).dom() =~= m.dom());
}

/// Inserting under a fresh key grows the entry count by exactly one.
pub proof fn lemma_insert_fresh_key_count<K, V>(m: Map<K, V>, k: K, v: V)
    requires
        !m.contains_key(k),
        m.dom().finite(),
    ensures
        m.insert(k, v).dom().len() == m.dom().len() + 1,
{
    assert(m.insert(k, v).dom() =~= m.dom().insert(k));
}

/// The container that results from inserting `pairs` into `m`, one pair at a
/// time, first pair first.
pub open spec fn insert_all<K, V>(m: Map<K, V>, pairs: Seq<(K, V)>) -> Map<K, V>
    decreases pairs.len(),
{
    if pairs.len() == 0 {
        m
    } else {
        insert_all(m.insert(pairs[0].0, pairs[0].1), pairs.drop_first())
    }
}

/// Keys never inserted keep their prior association.
proof fn lemma_insert_all_preserves<K, V>(m: Map<K, V>, pairs: Seq<(K, V)>, k: K)
    requires
        m.contains_key(k),
        forall|i: int| 0 <= i < pairs.len() ==> (#[trigger] pairs[i]).0 != k,
    ensures
        insert_all(m, pairs).contains_key(k),
        insert_all(m, pairs)[k] == m[k],
    decreases pairs.len(),
{
    if pairs.len() > 0 {
        let m1 = m.insert(pairs[0].0, pairs[0].1);
        let rest = pairs.drop_first();
        assert forall|i: int| 0 <= i < rest.len() implies (#[trigger] rest[i]).0 != k by {
            assert(rest[i] == pairs[i + 1]);
        }
        lemma_insert_all_preserves(m1, rest, k);
    }
}

proof fn lemma_insert_all_round_trip<K, V>(m: Map<K, V>, pairs: Seq<(K, V)>)
    requires
        forall|i: int, j: int|
            0 <= i < j < pairs.len() ==> (#[trigger] pairs[i]).0 != (#[trigger] pairs[j]).0,
    ensures
        forall|i: int|
            0 <= i < pairs.len() ==> insert_all(m, pairs).contains_key((#[trigger] pairs[i]).0)
                && insert_all(m, pairs)[pairs[i].0] == pairs[i].1,
    decreases pairs.len(),
{
    if pairs.len() > 0 {
        let m1 = m.insert(pairs[0].0, pairs[0].1);
        let rest = pairs.drop_first();
        assert forall|i: int, j: int| 0 <= i < j < rest.len() implies (#[trigger] rest[i]).0 != (
        #[trigger] rest[j]).0 by {
            assert(rest[i] == pairs[i + 1]);
            assert(rest[j] == pairs[j + 1]);
        }
        lemma_insert_all_round_trip(m1, rest);
        assert forall|i: int| 0 <= i < rest.len() implies (#[trigger] rest[i]).0
            != pairs[0].0 by {
            assert(rest[i] == pairs[i + 1]);
        }
        lemma_insert_all_preserves(m1, rest, pairs[0].0);
        assert forall|i: int|
            0 <= i < pairs.len() implies insert_all(m, pairs).contains_key(
            (#[trigger] pairs[i]).0,
        ) && insert_all(m, pairs)[pairs[i].0] == pairs[i].1 by {
            if i > 0 {
                assert(rest[i - 1] == pairs[i]);
            }
        }
    }
}

/// Round trip: inserting any number of pairs with pairwise-distinct keys into
/// an empty container and then looking each key up yields every value
/// unchanged.
pub proof fn lemma_round_trip<K, V>(pairs: Seq<(K, V)>)
    requires
        forall|i: int, j: int|
            0 <= i < j < pairs.len() ==> (#[trigger] pairs[i]).0 != (#[trigger] pairs[j]).0,
    ensures
        forall|i: int|
            0 <= i < pairs.len() ==> insert_all(Map::<K, V>::empty(), pairs).contains_key(
                (#[trigger] pairs[i]).0,
            ) && insert_all(Map::<K, V>::empty(), pairs)[pairs[i].0] == pairs[i].1,
{
    lemma_insert_all_round_trip(Map::<K, V>::empty(), pairs);
}

} // verus!
