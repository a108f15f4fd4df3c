use vstd::prelude::*;
use dashmap::{DashMap, DashSet};
use crate::params::JitIxParams;

verus! {

#[verifier::external_type_specification]
#[verifier::external_body]
#[verifier::reject_recursive_types(K)]
#[verifier::reject_recursive_types(S)]
pub struct ExDashSet<K, S>(DashSet<K, S>);

#[verifier::external_type_specification]
#[verifier::external_body]
#[verifier::reject_recursive_types(K)]
#[verifier::reject_recursive_types(V)]
#[verifier::reject_recursive_types(S)]
pub struct ExDashMap<K, V, S>(DashMap<K, V, S>);

/// Concurrent map from market index to the envelope configured there.
pub type EnvelopeMap = DashMap<u16, JitIxParams>;

/// The keys held by a set of auction keys.
pub uninterp spec fn key_set(s: DashSet<String>) -> Set<Seq<char>>;

/// The envelopes held by a map from market index to envelope.
pub uninterp spec fn envelope_map(m: EnvelopeMap) -> Map<u16, JitIxParams>;

/// Relies on `DashSet::new`: the set starts empty.
#[verifier::external_body]
pub(crate) fn key_set_new() -> (r: DashSet<String>)
    ensures
        key_set(r) == Set::<Seq<char>>::empty(),
{
    DashSet::new()
}

/// Relies on `DashSet::insert`: adds the key, and returns whether it was absent.
#[verifier::external_body]
pub(crate) fn key_set_insert(s: &mut DashSet<String>, key: String) -> (r: bool)
    ensures
        key_set(*final(s)) == key_set(*old(s)).insert(key@),
        r == !key_set(*old(s)).contains(key@),
{
    s.insert(key)
}

/// Relies on `DashSet::remove`: the key is absent afterwards.
#[verifier::external_body]
pub(crate) fn key_set_remove(s: &mut DashSet<String>, key: &str)
    ensures
        key_set(*final(s)) == key_set(*old(s)).remove(key@),
{
    s.remove(key);
}

/// Relies on `DashSet::contains`: whether the key is present.
#[verifier::external_body]
pub(crate) fn key_set_contains(s: &DashSet<String>, key: &str) -> (r: bool)
    ensures
        r == key_set(*s).contains(key@),
{
    s.contains(key)
}

/// Relies on `DashMap::new`: the map starts empty.
#[verifier::external_body]
pub(crate) fn envelope_map_new() -> (r: EnvelopeMap)
    ensures
        envelope_map(r).dom() == Set::<u16>::empty(),
{
    DashMap::new()
}

/// Relies on `DashMap::insert`: the key maps to the new value afterwards, other keys
/// are untouched.
#[verifier::external_body]
pub(crate) fn envelope_map_insert(m: &mut EnvelopeMap, key: u16, value: JitIxParams)
    ensures
        envelope_map(*final(m)) == envelope_map(*old(m)).insert(key, value),
{
    m.insert(key, value);
}

/// Relies on `DashMap::get`: the value under the key, if any, copied out.
#[verifier::external_body]
pub(crate) fn envelope_map_get(m: &EnvelopeMap, key: u16) -> (r: Option<JitIxParams>)
    ensures
        envelope_map(*m).contains_key(key) ==> r == Some(envelope_map(*m)[key]),
        !envelope_map(*m).contains_key(key) ==> r is None,
{
    m.get(&key).map(|e| *e)
}

} // verus!
