//! Trusted boundary to `indexmap::IndexMap`, the order-preserving map that
//! holds a plan's pre-commands. The map's contents are named by
//! [`index_map_entries`]: its `(key, value)` entries in insertion order.
use vstd::prelude::*;

verus! {

/// The order-preserving map type of the `indexmap` crate, declared so that
/// it can stand in fields and signatures; its values are opaque here and are
/// reached only through the trusted functions below.
#[verifier::external_type_specification]
#[verifier::external_body]
#[verifier::reject_recursive_types(K)]
#[verifier::reject_recursive_types(V)]
#[verifier::reject_recursive_types(S)]
pub struct ExIndexMap<K, V, S>(indexmap::IndexMap<K, V, S>);

/// The entries held by a pre-command map, in insertion order: each pair is a
/// key and its command's tokens.
pub uninterp spec fn index_map_entries(
    m: indexmap::IndexMap<String, Vec<String>, std::collections::hash_map::RandomState>,
) -> Seq<(Seq<char>, Seq<Seq<char>>)>;

/// Relies on `indexmap::IndexMap::new`: the new map has no entries.
#[verifier::external_body]
pub fn index_map_new() -> (r: indexmap::IndexMap<
    String,
    Vec<String>,
    std::collections::hash_map::RandomState,
>)
    ensures
        index_map_entries(r) == Seq::<(Seq<char>, Seq<Seq<char>>)>::empty(),
{
    indexmap::IndexMap::new()
}

/// Relies on `indexmap::IndexMap::insert`: a key that is not yet present is
/// appended at the end, keeping the order of the existing entries.
#[verifier::external_body]
pub fn index_map_insert(
    m: &mut indexmap::IndexMap<String, Vec<String>, std::collections::hash_map::RandomState>,
    key: String,
    value: Vec<String>,
)
    requires
        forall|i: int|
            0 <= i < index_map_entries(*old(m)).len() ==> (#[trigger] index_map_entries(
                *old(m),
            )[i]).0 != key@,
    ensures
        index_map_entries(*final(m)) == index_map_entries(*old(m)).push((key@, value.deep_view())),
{
    m.insert(key, value);
}

/// Relies on `indexmap::IndexMap::iter`: entries come in insertion order.
#[verifier::external_body]
pub fn index_map_entry_list(
    m: &indexmap::IndexMap<String, Vec<String>, std::collections::hash_map::RandomState>,
) -> (r: Vec<(String, Vec<String>)>)
    ensures
        r.deep_view() == index_map_entries(*m),
{
    let mut out: Vec<(String, Vec<String>)> = Vec::new();
    for (k, v) in m.iter() {
        out.push((k.clone(), v.clone()));
    }
    out
}

} // verus!
