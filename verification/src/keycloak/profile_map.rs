//! The map that holds the profiles of a registry: a linked hash map, which
//! keeps its entries in the order in which they were inserted. Nothing in
//! this file is proved; it states what the map's own source shows.

use vstd::prelude::*;
use linked_hash_map::LinkedHashMap;
use crate::keycloak::keycloak_config::KeycloakConfig;
use crate::keycloak::keycloak_config::KeycloakConfigView;

verus! {

#[verifier::external_type_specification]
#[verifier::external_body]
#[verifier::reject_recursive_types(K)]
#[verifier::reject_recursive_types(V)]
#[verifier::reject_recursive_types(S)]
pub struct ExLinkedHashMap<K, V, S>(LinkedHashMap<K, V, S>);

/// What a map of profiles holds: each key with its value, in the order in which
/// the map hands its entries out, the oldest insertion first.
pub uninterp spec fn map_entries(map: LinkedHashMap<String, KeycloakConfig>) -> Seq<
    (Seq<char>, KeycloakConfigView),
>;

/// Whether no entry has the key.
pub open spec fn key_absent(entries: Seq<(Seq<char>, KeycloakConfigView)>, key: Seq<char>) -> bool {
    forall|i: int| 0 <= i < entries.len() ==> (#[trigger] entries[i]).0 != key
}

/// `LinkedHashMap::new`: a map without entries.
#[verifier::external_body]
pub(crate) fn map_new() -> (map: LinkedHashMap<String, KeycloakConfig>)
    ensures
        map_entries(map) == Seq::<(Seq<char>, KeycloakConfigView)>::empty(),
{
    LinkedHashMap::new()
}

/// `LinkedHashMap::contains_key`: whether some entry has the key.
#[verifier::external_body]
pub(crate) fn map_contains_key(
    map: &LinkedHashMap<String, KeycloakConfig>,
    key: &str,
) -> (found: bool)
    ensures
        found == !key_absent(map_entries(*map), key@),
{
    map.contains_key(key)
}

/// `LinkedHashMap::insert`. For a new key the entry is added behind all
/// others and nothing is returned. For a key that is there the entry takes the
/// new value and moves behind all others, and the value it held is returned.
#[verifier::external_body]
pub(crate) fn map_insert(
    map: &mut LinkedHashMap<String, KeycloakConfig>,
    key: String,
    value: KeycloakConfig,
) -> (previous: Option<KeycloakConfig>)
    ensures
        match previous {
            None => key_absent(map_entries(*old(map)), key@) && map_entries(*final(map))
                == map_entries(*old(map)).push((key@, value@)),
            Some(held) => exists|i: int|
                0 <= i < map_entries(*old(map)).len() && (#[trigger] map_entries(*old(map))[i])
                    == (key@, held@) && map_entries(*final(map)) == map_entries(*old(map)).remove(
                    i,
                ).push((key@, value@)),
        },
{
    map.insert(key, value)
}

/// `LinkedHashMap::get`: the value of the entry with the key, if there is one.
#[verifier::external_body]
pub(crate) fn map_get<'a>(
    map: &'a LinkedHashMap<String, KeycloakConfig>,
    key: &str,
) -> (value: Option<&'a KeycloakConfig>)
    ensures
        match value {
            None => key_absent(map_entries(*map), key@),
            Some(held) => exists|i: int|
                0 <= i < map_entries(*map).len() && (#[trigger] map_entries(*map)[i]) == (key@, held@),
        },
{
    map.get(key)
}

/// `LinkedHashMap::get_mut`: the value of the entry with the key, to be
/// changed in place; the entry keeps its key and its place.
#[verifier::external_body]
pub(crate) fn map_get_mut<'a>(
    map: &'a mut LinkedHashMap<String, KeycloakConfig>,
    key: &str,
) -> (value: Option<&'a mut KeycloakConfig>)
    ensures
        match value {
            None => key_absent(map_entries(*old(map)), key@) && map_entries(*final(map))
                == map_entries(*old(map)),
            Some(held) => exists|i: int|
                0 <= i < map_entries(*old(map)).len() && (#[trigger] map_entries(*old(map))[i])
                    == (key@, (*held)@) && map_entries(*final(map)) == map_entries(*old(map)).update(
                    i,
                    (key@, (*final(held))@),
                ),
        },
{
    map.get_mut(key)
}

/// `LinkedHashMap::remove`: takes the entry with the key out, if there is one,
/// and returns its value; the other entries keep their order.
#[verifier::external_body]
pub(crate) fn map_remove(
    map: &mut LinkedHashMap<String, KeycloakConfig>,
    key: &str,
) -> (previous: Option<KeycloakConfig>)
    ensures
        match previous {
            None => key_absent(map_entries(*old(map)), key@) && map_entries(*final(map))
                == map_entries(*old(map)),
            Some(held) => exists|i: int|
                0 <= i < map_entries(*old(map)).len() && (#[trigger] map_entries(*old(map))[i])
                    == (key@, held@) && map_entries(*final(map)) == map_entries(*old(map)).remove(i),
        },
{
    map.remove(key)
}

/// `LinkedHashMap::values`, collected: the values in the order of the entries.
#[verifier::external_body]
pub(crate) fn map_values<'a>(map: &'a LinkedHashMap<String, KeycloakConfig>) -> (values: Vec<
    &'a KeycloakConfig,
>)
    ensures
        values@.len() == map_entries(*map).len(),
        forall|i: int| 0 <= i < values@.len() ==> (#[trigger] values@[i])@ == map_entries(*map)[i].1,
{
    map.values().collect()
}

} // verus!
