use std::borrow::Borrow;
use std::collections::HashMap;
use std::hash::Hash;
use vstd::prelude::*;
use vstd::std_specs::hash::{contains_borrowed_key, maps_borrowed_key_to_value, obeys_key_model};

verus! {

/// A mapping from keys to values, with a value for every key that the mapping lacks.
#[derive(Debug)]
pub struct MappingConfigWithDefault<K, T> where K: std::cmp::Eq + std::hash::Hash {
    mapping: HashMap<K, T>,
    default_value: T,
}

/// What a configuration with mapping `m` and default `d` answers for key `k`.
pub open spec fn config_lookup<K, T>(m: Map<K, T>, d: T, k: K) -> T {
    if m.contains_key(k) {
        m[k]
    } else {
        d
    }
}

impl<K, T> View for MappingConfigWithDefault<K, T> where K: std::cmp::Eq + std::hash::Hash {
    /// The entries of the mapping and the default value.
    type V = (Map<K, T>, T);

    closed spec fn view(&self) -> (Map<K, T>, T) {
        (self.mapping@, self.default_value)
    }
}

impl<K, T> MappingConfigWithDefault<K, T> where K: std::cmp::Eq + std::hash::Hash {
    pub fn new(mapping: HashMap<K, T>, default_value: T) -> (r: Self)
        ensures
            r@ == (mapping@, default_value),
    {
        Self { mapping, default_value }
    }

    /// A configuration whose mapping is empty, so that every key gets `default_value`.
    pub fn default(default_value: T) -> (r: Self)
        ensures
            r@ == (Map::<K, T>::empty(), default_value),
    {
        Self { mapping: HashMap::new(), default_value }
    }

    /// The value that the mapping holds for `k`, or the default value where it holds none.
    pub fn get<Q: ?Sized>(&self, k: &Q) -> (r: &T) where K: Borrow<Q>, Q: Hash + Eq
        ensures
            obeys_key_model::<K>() ==> {
                ||| maps_borrowed_key_to_value(self@.0, k, *r)
                ||| !contains_borrowed_key(self@.0, k) && *r == self@.1
            },
    {
        match self.mapping.get(k) {
            Some(v) => v,
            None => &self.default_value,
        }
    }

    /// The mapping and the default value that the configuration is made of.
    pub fn into_parts(self) -> (r: (HashMap<K, T>, T))
        ensures
            r.0@ == self@.0,
            r.1 == self@.1,
    {
        (self.mapping, self.default_value)
    }
}

/// Where keys obey the hash-table model, a lookup by the key itself answers the
/// mapped value for a key that the mapping holds and the default value for any other.
pub proof fn law_get_answers_lookup<K, T>(m: Map<K, T>, d: T, k: K, r: T)
    requires
        obeys_key_model::<K>(),
        maps_borrowed_key_to_value(m, &k, r) || (!contains_borrowed_key(m, &k) && r == d),
    ensures
        r == config_lookup(m, d, k),
{
    broadcast use vstd::std_specs::hash::group_hash_axioms;
}

/// A configuration made with an empty mapping answers its default value for every key.
pub proof fn law_default_config_answers_default<K, T>(d: T, k: K)
    ensures
        config_lookup(Map::<K, T>::empty(), d, k) == d,
{
}

} // verus!
