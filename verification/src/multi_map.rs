//! The `MultiMap` extension trait: treats a map of sequences as a multi-map,
//! with an accessor that yields a value only when it is unambiguous.
//!
//! Any container satisfying `MapLike` over sequence-valued entries gains the
//! extension automatically through the blanket implementation; no per-container
//! code is needed.

use vstd::prelude::*;

use crate::map_like::MapLike;

verus! {

/// A multi-map: each key is associated with a sequence of values.  The spec
/// functions mirror `MapLike`'s: `multi_wf` gives the conditions under which
/// the operations behave as stated, and `multi_model` the mathematical
/// content, each key mapping to the sequence stored under it.
pub trait MultiMap<K, V> {
    /// Conditions under which the container's operations behave as the
    /// contract below states.
    spec fn multi_wf(&self) -> bool;

    /// The mathematical content: each key maps to a sequence of values.
    spec fn multi_model(&self) -> Map<K, Seq<V>>;

    /// Looks up the sequence stored under a key equal to `*k` and returns its
    /// single element, exactly when the key is present and the sequence has
    /// length one.  An absent key, an empty sequence and a sequence of two or
    /// more values all yield `None`: the multi-valued entry is treated as
    /// single-valued only when unambiguous.
    fn get_only<'a>(&'a self, k: &K) -> (r: Option<&'a V>)
        requires
            self.multi_wf(),
        ensures
            match r {
                Some(e) => self.multi_model().contains_key(*k) && self.multi_model()[*k].len()
                    == 1 && *e == self.multi_model()[*k][0],
                None => !self.multi_model().contains_key(*k) || self.multi_model()[*k].len() != 1,
            },
    ;
}

impl<K, V, T: MapLike<K, Vec<V>>> MultiMap<K, V> for T {
    open spec fn multi_wf(&self) -> bool {
        self.wf()
    }

    open spec fn multi_model(&self) -> Map<K, Seq<V>> {
        self.model().map_values(|vs: Vec<V>| vs@)
    }

    fn get_only<'a>(&'a self, k: &K) -> (r: Option<&'a V>) {
        match self.get(k) {
            Some(vs) => {
                if vs.len() == 1 {
                    Some(&vs[0])
                } else {
                    None
                }
            },
            None => None,
        }
    }
}

} // verus!
