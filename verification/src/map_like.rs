//! The `MapLike` capability trait: the minimal associative-container contract
//! (lookup, insertion, enumeration) that generic algorithms program against.

use vstd::prelude::*;

verus! {

/// The minimal contract of an associative container with keys `K` and values
/// `V`.  A container is abstracted by two spec functions: `wf`, the conditions
/// under which the underlying implementation's behaviour is known, and
/// `model`, the finite mathematical map the container currently holds.  Every
/// operation is total: absence is signalled by `None`, never by failure.
pub trait MapLike<K, V>: Sized {
    /// Conditions under which the container's operations behave as the
    /// contracts below state (for instance, that the key type obeys the
    /// underlying container's hashing or ordering model).
    spec fn wf(&self) -> bool;

    /// The mathematical content of the container: each key maps to at most
    /// one value.
    spec fn model(&self) -> Map<K, V>;

    /// Looks up the value stored under a key equal to `*k`, without mutating
    /// the container.  Returns `Some` exactly when the key is present.
    fn get<'a>(&'a self, k: &K) -> (r: Option<&'a V>)
        requires
            self.wf(),
        ensures
            match r {
                Some(v) => self.model().contains_key(*k) && *v == self.model()[*k],
                None => !self.model().contains_key(*k),
            },
    ;

    /// Inserts or overwrites the entry for `k`.  Returns the displaced value
    /// exactly when the key was already present.
    fn insert(&mut self, k: K, v: V) -> (prev: Option<V>)
        requires
            old(self).wf(),
        ensures
            final(self).wf(),
            final(self).model() == old(self).model().insert(k, v),
            match prev {
                Some(p) => old(self).model().contains_key(k) && p == old(self).model()[k],
                None => !old(self).model().contains_key(k),
            },
    ;

    /// The order in which `iter` yields its pairs, as far as the
    /// implementation fixes it: the hash adapter leaves the order open, the
    /// ordered adapter yields strictly ascending keys.
    spec fn iter_order(&self, r: Seq<(&K, &V)>) -> bool;

    /// Enumerates every entry: one pair per key of the model, each key
    /// appearing exactly once, in whatever order `iter_order` fixes.
    fn iter<'a>(&'a self) -> (r: Vec<(&'a K, &'a V)>)
        requires
            self.wf(),
        ensures
            self.iter_order(r@),
            r@.len() == self.model().dom().len(),
            forall|i: int|
                0 <= i < r@.len() ==> #[trigger] self.model().contains_key(*r@[i].0)
                    && self.model()[*r@[i].0] == *r@[i].1,
            forall|i: int, j: int| 0 <= i < j < r@.len() ==> *r@[i].0 != *r@[j].0,
            forall|k: K| #[trigger]
                self.model().contains_key(k) ==> exists|i: int|
                    0 <= i < r@.len() && *#[trigger] r@[i].0 == k,
    ;
}

} // verus!
