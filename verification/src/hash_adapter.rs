//! Adapter: `MapLike` for the standard hash-backed container, by direct
//! forward to `std::collections::HashMap`'s native operations.

use vstd::prelude::*;

use crate::map_like::MapLike;
use core::hash::{BuildHasher, Hash};
use std::collections::HashMap;
use vstd::std_specs::hash::{builds_valid_hashers, obeys_key_model, spec_hash_map_iter};
use vstd::std_specs::iter::IteratorSpec;

verus! {

impl<K: Hash + Eq, V, S: BuildHasher> MapLike<K, V> for HashMap<K, V, S> {
    /// The standard specifications for `HashMap` are meaningful only when the
    /// key type obeys the hash-table key model and the hasher builder is
    /// valid; `RandomState`, the default, is.
    open spec fn wf(&self) -> bool {
        obeys_key_model::<K>() && builds_valid_hashers::<S>()
    }

    open spec fn model(&self) -> Map<K, V> {
        self@
    }

    /// The hash adapter guarantees no iteration order.
    open spec fn iter_order(&self, r: Seq<(&K, &V)>) -> bool {
        true
    }

    fn get<'a>(&'a self, k: &K) -> (r: Option<&'a V>) {
        HashMap::get(self, k)
    }

    fn insert(&mut self, k: K, v: V) -> (prev: Option<V>) {
        HashMap::insert(self, k, v)
    }

    fn iter<'a>(&'a self) -> (r: Vec<(&'a K, &'a V)>) {
        let mut out: Vec<(&'a K, &'a V)> = Vec::new();
        for pair in it: HashMap::iter(self)
            invariant
                it.seq() == spec_hash_map_iter(self).remaining(),
                out@.len() == it.index(),
                forall|i: int| 0 <= i < out@.len() ==> out@[i] == it.seq()[i],
        {
            out.push(pair);
        }
        proof {
            let v = spec_hash_map_iter(self).remaining();
            assert(out@ =~= v);
            assert forall|i: int, j: int| 0 <= i < j < out@.len() implies *out@[i].0
                != *out@[j].0 by {
                if *out@[i].0 == *out@[j].0 {
                    assert(self@.contains_key(*v[i].0) && self@[*v[i].0] == *v[i].1);
                    assert(self@.contains_key(*v[j].0) && self@[*v[j].0] == *v[j].1);
                    assert(v[i] == v[j]);
                    assert(!v.no_duplicates());
                }
            }
            assert forall|k: K| #[trigger] self@.contains_key(k) implies exists|i: int|
                0 <= i < out@.len() && *#[trigger] out@[i].0 == k by {
                assert(v.contains((&k, &self@[k])));
                let i = choose|i: int| 0 <= i < v.len() && v[i] == (&k, &self@[k]);
                assert(*out@[i].0 == k);
            }
        }
        out
    }
}

} // verus!
