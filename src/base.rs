//! Small shared pieces: a map of shared values with a default for missing
//! keys, and the clock.

use vstd::prelude::*;
use std::collections::HashMap;
use std::hash::Hash;
use std::sync::Arc;

verus! {

broadcast use vstd::std_specs::hash::group_hash_axioms;

/// A map from keys to shared values; a missing key reads as `V::default()`.
pub struct ArcDataMap<K, V> {
    data_map: HashMap<K, Arc<V>>,
}

impl<K: Eq + Hash, V: Default> View for ArcDataMap<K, V> {
    type V = Map<K, V>;

    closed spec fn view(&self) -> Map<K, V> {
        Map::new(|k: K| self.data_map@.contains_key(k), |k: K| *self.data_map@[k])
    }
}

/// Relies on `Arc::clone`: the clone shares the value that it points to.
#[verifier::external_body]
fn share<V>(a: &Arc<V>) -> (r: Arc<V>)
    ensures
        *r == **a,
{
    Arc::clone(a)
}

impl<K: Eq + Hash, V: Default> ArcDataMap<K, V> {
    pub fn new() -> (r: Self)
        ensures
            r@ == Map::<K, V>::empty(),
    {
        let r = ArcDataMap { data_map: HashMap::new() };
        assert(r@ =~= Map::<K, V>::empty());
        r
    }

    /// The value under `key`, or a default value where there is none.
    pub fn get(&self, key: K) -> (r: Arc<V>)
        requires
            vstd::std_specs::hash::obeys_key_model::<K>(),
        ensures
            self@.contains_key(key) ==> *r == self@[key],
            !self@.contains_key(key) ==> call_ensures(V::default, (), *r),
    {
        match self.data_map.get(&key) {
            Some(v) => share(v),
            None => Arc::new(V::default()),
        }
    }

    /// Stores `value` under `key`, replacing what was there.
    pub fn insert(&mut self, key: K, value: V)
        requires
            vstd::std_specs::hash::obeys_key_model::<K>(),
        ensures
            final(self)@ == old(self)@.insert(key, value),
    {
        self.data_map.insert(key, Arc::new(value));
        assert(self@ =~= old(self)@.insert(key, value));
    }
}

/// Relies on `chrono::Utc::now`: the current time in whole seconds since
/// the epoch. Nothing is known of the value.
#[verifier::external_body]
pub fn timestamp() -> i64 {
    chrono::Utc::now().timestamp()
}

} // verus!
