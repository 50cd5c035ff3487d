//! Adapter: `MapLike` for the standard ordered (sorted-key) container, by
//! direct forward to `std::collections::BTreeMap`'s native operations.
//!
//! The one behavioural divergence from the hash adapter is that enumeration
//! yields entries in ascending key order; [`ordered_entries`] states it.

use vstd::prelude::*;

use crate::map_like::MapLike;
use std::collections::BTreeMap;
use vstd::laws_cmp::obeys_cmp;
use vstd::std_specs::btree::spec_btree_map_iter;
use vstd::std_specs::cmp::OrdSpec;
use vstd::std_specs::iter::IteratorSpec;

verus! {

/// Enumerates every entry of an ordered container in ascending key order:
/// one pair per key of the model, consecutive keys strictly increasing.
pub fn ordered_entries<'a, K: Ord, V>(m: &'a BTreeMap<K, V>) -> (r: Vec<(&'a K, &'a V)>)
    requires
        obeys_cmp::<K>(),
    ensures
        r@.len() == m@.dom().len(),
        forall|i: int|
            0 <= i < r@.len() ==> #[trigger] m@.contains_key(*r@[i].0) && m@[*r@[i].0]
                == *r@[i].1,
        forall|i: int, j: int|
            0 <= i < j < r@.len() ==> ((*r@[i].0).cmp_spec(&*r@[j].0) is Less),
        forall|i: int, j: int| 0 <= i < j < r@.len() ==> *r@[i].0 != *r@[j].0,
        forall|k: K| #[trigger]
            m@.contains_key(k) ==> exists|i: int| 0 <= i < r@.len() && *#[trigger] r@[i].0 == k,
{
    let mut out: Vec<(&'a K, &'a V)> = Vec::new();
    for pair in it: BTreeMap::iter(m)
        invariant
            it.seq() == spec_btree_map_iter(m).remaining(),
            out@.len() == it.index(),
            forall|i: int| 0 <= i < out@.len() ==> out@[i] == it.seq()[i],
    {
        out.push(pair);
    }
    proof {
        let v = spec_btree_map_iter(m).remaining();
        assert(out@ =~= v);
        let keys = v.map_values(|kv: (&K, &V)| *kv.0);
        assert forall|i: int, j: int| 0 <= i < j < out@.len() implies ((*out@[i].0).cmp_spec(
            &*out@[j].0,
        ) is Less) by {
            assert(keys[i].cmp_spec(&keys[j]) is Less);
        }
        assert forall|i: int, j: int| 0 <= i < j < out@.len() implies *out@[i].0
            != *out@[j].0 by {
            if *out@[i].0 == *out@[j].0 {
                assert(m@.contains_key(*v[i].0) && m@[*v[i].0] == *v[i].1);
                assert(m@.contains_key(*v[j].0) && m@[*v[j].0] == *v[j].1);
                assert(v[i] == v[j]);
                assert(!v.no_duplicates());
            }
        }
        assert forall|k: K| #[trigger] m@.contains_key(k) implies exists|i: int|
            0 <= i < out@.len() && *#[trigger] out@[i].0 == k by {
            assert(v.contains((&k, &m@[k])));
            let i = choose|i: int| 0 <= i < v.len() && v[i] == (&k, &m@[k]);
            assert(*out@[i].0 == k);
        }
    }
    out
}

impl<K: Ord, V> MapLike<K, V> for BTreeMap<K, V> {
    /// The standard specifications for `BTreeMap` are meaningful only when
    /// the key type's comparison operators agree with its mathematical
    /// ordering; every primitive integer type's do.
    open spec fn wf(&self) -> bool {
        obeys_cmp::<K>()
    }

    open spec fn model(&self) -> Map<K, V> {
        self@
    }

    /// The ordered adapter yields entries in strictly ascending key order.
    open spec fn iter_order(&self, r: Seq<(&K, &V)>) -> bool {
        forall|i: int, j: int| 0 <= i < j < r.len() ==> ((*r[i].0).cmp_spec(&*r[j].0) is Less)
    }

    fn get<'a>(&'a self, k: &K) -> (r: Option<&'a V>) {
        BTreeMap::get(self, k)
    }

    fn insert(&mut self, k: K, v: V) -> (prev: Option<V>) {
        BTreeMap::insert(self, k, v)
    }

    fn iter<'a>(&'a self) -> (r: Vec<(&'a K, &'a V)>) {
        ordered_entries(self)
    }
}

} // verus!
