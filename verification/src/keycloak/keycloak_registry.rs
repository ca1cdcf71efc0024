//! The registry: profiles by alias, in the order they were added, with at most
//! one of them marked as the default.

use vstd::prelude::*;
use linked_hash_map::LinkedHashMap;
use crate::keycloak::keycloak_config::valid_profile;
use crate::keycloak::keycloak_config::KeycloakConfig;
use crate::keycloak::keycloak_config::KeycloakConfigView;
use crate::keycloak::profile_map::key_absent;
use crate::keycloak::profile_map::map_contains_key;
use crate::keycloak::profile_map::map_entries;
use crate::keycloak::profile_map::map_get;
use crate::keycloak::profile_map::map_get_mut;
use crate::keycloak::profile_map::map_insert;
use crate::keycloak::profile_map::map_new;
use crate::keycloak::profile_map::map_remove;
use crate::keycloak::profile_map::map_values;
use crate::keycloak::registry_view::lemma_load_fault_stays;
use crate::keycloak::registry_view::mark_default;
use crate::keycloak::registry_view::RegistryView;
use crate::keycloak::KeycloakRegistryError;
use crate::keycloak::RegistryFault;
use crate::text::result_view;
use crate::text::same_text;

verus! {

/// The records by their views, in their order.
pub open spec fn record_views(records: Seq<KeycloakConfig>) -> Seq<KeycloakConfigView> {
    records.map_values(|record: KeycloakConfig| record@)
}

/// The values of the entries, in their order.
pub open spec fn entry_values(entries: Seq<(Seq<char>, KeycloakConfigView)>) -> Seq<
    KeycloakConfigView,
> {
    entries.map_values(|entry: (Seq<char>, KeycloakConfigView)| entry.1)
}

/// Whether a change of a registry ended as `expected`: done, with the
/// registry as expected, or failed with the expected fault, with the
/// registry as it was.
pub open spec fn changed(
    done: Result<(), KeycloakRegistryError>,
    before: RegistryView,
    after: RegistryView,
    expected: Result<RegistryView, RegistryFault>,
) -> bool {
    match done {
        Ok(()) => expected == Ok::<RegistryView, RegistryFault>(after),
        Err(error) => expected == Err::<RegistryView, RegistryFault>(error@) && after == before,
    }
}

/// The identity-provider profiles of one user.
pub struct KeycloakRegistry {
    keycloak_by_alias: LinkedHashMap<String, KeycloakConfig>,
    default_alias: Option<String>,
}

impl View for KeycloakRegistry {
    type V = RegistryView;

    closed spec fn view(&self) -> RegistryView {
        RegistryView {
            profiles: entry_values(map_entries(self.keycloak_by_alias)),
            default_alias: match self.default_alias {
                Some(alias) => Some(alias@),
                None => None,
            },
        }
    }
}

impl KeycloakRegistry {
    /// Every entry stands under the alias of its profile.
    closed spec fn keyed_by_alias(&self) -> bool {
        forall|i: int|
            0 <= i < map_entries(self.keycloak_by_alias).len() ==> (#[trigger] map_entries(
                self.keycloak_by_alias,
            )[i]).0 == map_entries(self.keycloak_by_alias)[i].1.alias
    }

    /// The registry's invariant: what `RegistryView::valid` says of its
    /// profiles, and every entry of the map stands under its profile's alias.
    pub closed spec fn wf(&self) -> bool {
        &&& self.keyed_by_alias()
        &&& self@.valid()
    }

    /// A registry that meets its invariant holds valid profiles only, no
    /// alias twice, and the default mark on the profile that its default
    /// alias names, and on no other.
    pub proof fn lemma_wf_is_valid(&self)
        requires
            self.wf(),
        ensures
            self@.valid(),
    {
    }

    /// A registry without profiles.
    pub fn new_empty() -> (registry: Self)
        ensures
            registry.wf(),
            registry@ == RegistryView::empty(),
    {
        let registry = Self { keycloak_by_alias: map_new(), default_alias: None };
        assert(registry@.profiles =~= Seq::<KeycloakConfigView>::empty());
        registry
    }

    /// The profile with the alias.
    pub fn find_keycloak(&self, alias: &str) -> (found: Option<&KeycloakConfig>)
        requires
            self.wf(),
        ensures
            match found {
                Some(config) => self@.find(alias@) == Some(config@),
                None => self@.find(alias@) is None,
            },
    {
        let found = map_get(&self.keycloak_by_alias, alias);
        proof {
            self.lemma_lookup(alias@);
        }
        found
    }

    /// Every profile of the registry, in the order in which they were added.
    pub fn get_all(&self) -> (all: Vec<&KeycloakConfig>)
        ensures
            all@.len() == self@.profiles.len(),
            forall|i: int| 0 <= i < all@.len() ==> (#[trigger] all@[i])@ == self@.profiles[i],
    {
        map_values(&self.keycloak_by_alias)
    }

    /// The profile that is marked as the default, if there is one.
    pub fn get_default(&self) -> (found: Option<&KeycloakConfig>)
        requires
            self.wf(),
        ensures
            match found {
                Some(config) => self@.get_default() == Some(config@),
                None => self@.get_default() is None,
            },
    {
        match &self.default_alias {
            Some(alias) => {
                proof {
                    self.lemma_lookup(alias@);
                }
                map_get(&self.keycloak_by_alias, alias.as_str())
            },
            None => None,
        }
    }

    /// Takes the profile with the alias out of the registry; a registry without
    /// such a profile stays as it is. Where the profile was the default, the
    /// registry has no default afterwards.
    pub fn remove_keycloak(&mut self, alias: &str)
        requires
            old(self).wf(),
        ensures
            final(self).wf(),
            final(self)@ == old(self)@.remove(alias@),
    {
        proof {
            self.lemma_lookup(alias@);
        }
        let ghost before = map_entries(self.keycloak_by_alias);
        let removed = map_remove(&mut self.keycloak_by_alias, alias);
        let was_default = match &self.default_alias {
            Some(current) => same_text(current.as_str(), alias),
            None => false,
        };
        if was_default {
            self.default_alias = None;
        }
        proof {
            let after = map_entries(self.keycloak_by_alias);
            if removed is Some {
                let i = choose|i: int|
                    0 <= i < before.len() && (#[trigger] before[i]) == (alias@, removed->0@) && after
                        == before.remove(i);
                assert(entry_values(after) =~= entry_values(before).remove(i));
                // every alias but the removed one is still there
                assert forall|a: Seq<char>| self@.default_alias == Some(a) implies self@.contains(
                    a,
                ) by {
                    let k = old(self)@.index_of(a);
                    if k < i {
                        assert(self@.profiles[k].alias == a);
                    } else {
                        assert(self@.profiles[k - 1].alias == a);
                    }
                }
            }
        }
    }

    /// The profile that is marked as the default, to be changed in place.
    fn get_default_mut(&mut self) -> (found: Option<&mut KeycloakConfig>)
        ensures
            final(self).default_alias == old(self).default_alias,
            match found {
                None => map_entries(final(self).keycloak_by_alias) == map_entries(
                    old(self).keycloak_by_alias,
                ) && (old(self).default_alias matches Some(alias) ==> key_absent(
                    map_entries(old(self).keycloak_by_alias),
                    alias@,
                )),
                Some(held) => old(self).default_alias is Some && exists|i: int|
                    0 <= i < map_entries(old(self).keycloak_by_alias).len() && (
                    #[trigger] map_entries(old(self).keycloak_by_alias)[i]) == (
                        old(self).default_alias->0@,
                        (*held)@,
                    ) && map_entries(final(self).keycloak_by_alias) == map_entries(
                        old(self).keycloak_by_alias,
                    ).update(i, (old(self).default_alias->0@, (*final(held))@)),
            },
    {
        match &self.default_alias {
            Some(alias) => map_get_mut(&mut self.keycloak_by_alias, alias.as_str()),
            None => None,
        }
    }

    /// What holds of a registry while the profile with `alias` waits to become
    /// the default: the invariant but for the mark on that profile.
    closed spec fn wf_but_for(&self, alias: Seq<char>) -> bool {
        let view = self@;
        &&& self.keyed_by_alias()
        &&& forall|i: int| 0 <= i < view.profiles.len() ==> valid_profile(#[trigger] view.profiles[i])
        &&& forall|i: int, j: int|
            0 <= i < view.profiles.len() && 0 <= j < view.profiles.len() && i != j ==> (
            #[trigger] view.profiles[i]).alias != (#[trigger] view.profiles[j]).alias
        &&& forall|i: int|
            0 <= i < view.profiles.len() && (#[trigger] view.profiles[i]).alias != alias ==> (
            view.profiles[i].default <==> view.default_alias == Some(view.profiles[i].alias))
        &&& view.default_alias matches Some(current) ==> view.contains(current)
        &&& view.default_alias != Some(alias)
        &&& view.contains(alias)
    }

    /// Moves the default mark to the profile with `alias`.
    fn switch_default(&mut self, alias: &str)
        requires
            old(self).wf_but_for(alias@),
        ensures
            final(self).wf(),
            final(self)@ == (RegistryView {
                profiles: mark_default(old(self)@.profiles, alias@),
                default_alias: Some(alias@),
            }),
    {
        let ghost entries0 = map_entries(self.keycloak_by_alias);
        let ghost current = self.default_alias;
        let found = self.get_default_mut();
        let ghost was_found = found is Some;
        let ghost held = if found is Some { (*found->0)@ } else { arbitrary() };
        match found {
            Some(current_default) => {
                current_default.set_default_flag(false);
            },
            None => {},
        }
        let ghost entries1 = map_entries(self.keycloak_by_alias);
        proof {
            assert forall|i: int| 0 <= i < entries0.len() implies (#[trigger] entries1[i]).0
                == entries0[i].0 && entries1[i].1 == (KeycloakConfigView {
                default: entries1[i].1.default,
                ..entries0[i].1
            }) && (entries0[i].0 != alias@ ==> !entries1[i].1.default) by {
                assert(old(self)@.profiles[i] == entries0[i].1);
                if was_found {
                    let j = choose|j: int|
                        0 <= j < entries0.len() && (#[trigger] entries0[j]) == (current->0@, held)
                            && entries1 == entries0.update(
                            j,
                            (current->0@, KeycloakConfigView { default: false, ..held }),
                        );
                    assert(old(self)@.profiles[j] == entries0[j].1);
                } else if current is Some {
                    // the default alias names a profile, so its entry was found
                    assert(entries0[old(self)@.index_of(current->0@)].0 == current->0@);
                }
            }
        }
        let target = map_get_mut(&mut self.keycloak_by_alias, alias);
        let ghost target_held = if target is Some { (*target->0)@ } else { arbitrary() };
        match target {
            Some(new_default) => {
                new_default.set_default_flag(true);
            },
            None => {},
        }
        self.default_alias = Some(alias.to_owned());
        proof {
            let entries2 = map_entries(self.keycloak_by_alias);
            let k = old(self)@.index_of(alias@);
            assert(entries1[k].0 == alias@);
            let m = choose|m: int|
                0 <= m < entries1.len() && (#[trigger] entries1[m]) == (alias@, target_held)
                    && entries2 == entries1.update(
                    m,
                    (alias@, KeycloakConfigView { default: true, ..target_held }),
                );
            assert(old(self)@.profiles[m] == entries0[m].1);
            assert forall|i: int| 0 <= i < entries0.len() implies (#[trigger] entries2[i]).0
                == entries0[i].0 && entries2[i].1 == (KeycloakConfigView {
                default: entries0[i].0 == alias@,
                ..entries0[i].1
            }) by {
                assert(old(self)@.profiles[i] == entries0[i].1);
            }
            assert(self@.profiles =~= mark_default(old(self)@.profiles, alias@));
            assert(self@.profiles[k].alias == alias@);
        }
    }

    /// Makes the profile with the alias the default one, and no other. Fails,
    /// and leaves the registry as it is, where no profile has the alias.
    pub fn set_default(&mut self, new_default_alias: &str) -> (done: Result<
        (),
        KeycloakRegistryError,
    >)
        requires
            old(self).wf(),
        ensures
            final(self).wf(),
            changed(done, old(self)@, final(self)@, old(self)@.set_default(new_default_alias@)),
    {
        let is_default_the_same = match &self.default_alias {
            Some(current) => same_text(current.as_str(), new_default_alias),
            None => false,
        };
        if !is_default_the_same {
            proof {
                self.lemma_lookup(new_default_alias@);
            }
            if !map_contains_key(&self.keycloak_by_alias, new_default_alias) {
                return Err(KeycloakRegistryError::AliasNotFound(new_default_alias.to_owned()));
            }
            self.switch_default(new_default_alias);
        } else {
            proof {
                assert(self@.profiles =~= mark_default(self@.profiles, new_default_alias@));
            }
        }
        Ok(())
    }

    /// Adds a profile behind the others. Fails, and leaves the registry as it
    /// is, where a profile with the same alias is registered. A profile that
    /// comes marked as the default becomes the default.
    pub fn add_keycloak(&mut self, config: KeycloakConfig) -> (done: Result<
        (),
        KeycloakRegistryError,
    >)
        requires
            old(self).wf(),
        ensures
            final(self).wf(),
            changed(done, old(self)@, final(self)@, old(self)@.add(config@)),
    {
        let alias = config.alias().to_owned();
        let is_default = config.is_default();
        proof {
            self.lemma_lookup(alias@);
            use_type_invariant(&config);
        }
        if map_contains_key(&self.keycloak_by_alias, alias.as_str()) {
            return Err(KeycloakRegistryError::AliasAlreadyExists(alias));
        }
        let ghost before = map_entries(self.keycloak_by_alias);
        map_insert(&mut self.keycloak_by_alias, alias.clone(), config);
        proof {
            assert(self@.profiles =~= old(self)@.profiles.push(config@));
            assert(self@.profiles[before.len() as int].alias == alias@);
            assert forall|a: Seq<char>| old(self)@.contains(a) implies self@.contains(a) by {
                let k = old(self)@.index_of(a);
                assert(self@.profiles[k].alias == a);
            }
        }
        if is_default {
            self.switch_default(alias.as_str());
        }
        Ok(())
    }

    /// Rebuilds the registry from the records of a registry file, in their
    /// order. Fails where two records have the same alias. Of several records
    /// that are marked as the default, the last one is the default.
    pub fn load_from_file(keycloak_configs: Vec<KeycloakConfig>) -> (loaded: Result<
        KeycloakRegistry,
        KeycloakRegistryError,
    >)
        ensures
            result_view(loaded) == RegistryView::load(record_views(keycloak_configs@)),
            loaded matches Ok(registry) ==> registry.wf(),
    {
        let ghost records = record_views(keycloak_configs@);
        let mut keycloaks = Self::new_empty();
        let mut i: usize = 0;
        while i < keycloak_configs.len()
            invariant
                i <= keycloak_configs.len(),
                records == record_views(keycloak_configs@),
                keycloaks.wf(),
                RegistryView::load(records.take(i as int)) == Ok::<RegistryView, RegistryFault>(
                    keycloaks@,
                ),
            decreases keycloak_configs.len() - i,
        {
            let config = keycloak_configs[i].clone();
            proof {
                assert(records.take(i + 1).drop_last() =~= records.take(i as int));
            }
            match keycloaks.add_keycloak(config) {
                Ok(()) => {},
                Err(error) => {
                    proof {
                        lemma_load_fault_stays(records, i + 1);
                    }
                    return Err(error);
                },
            }
            i += 1;
        }
        proof {
            assert(records.take(i as int) =~= records);
        }
        Ok(keycloaks)
    }

    /// The records to write to the registry file: a copy of every profile, in
    /// the order in which they were added.
    pub fn save_to_file(self) -> (keycloak_configs: Vec<KeycloakConfig>)
        ensures
            record_views(keycloak_configs@) == self@.profiles,
    {
        let all = self.get_all();
        let mut keycloak_configs: Vec<KeycloakConfig> = Vec::new();
        let mut i: usize = 0;
        while i < all.len()
            invariant
                i <= all.len(),
                all@.len() == self@.profiles.len(),
                forall|k: int| 0 <= k < all@.len() ==> (#[trigger] all@[k])@ == self@.profiles[k],
                keycloak_configs@.len() == i,
                forall|k: int|
                    0 <= k < i ==> (#[trigger] keycloak_configs@[k])@ == self@.profiles[k],
            decreases all.len() - i,
        {
            keycloak_configs.push(all[i].clone());
            i += 1;
        }
        keycloak_configs
    }

    /// Relates a key of the map to the alias of a profile of the registry.
    proof fn lemma_lookup(&self, alias: Seq<char>)
        requires
            self.wf(),
        ensures
            key_absent(map_entries(self.keycloak_by_alias), alias) <==> !self@.contains(alias),
            forall|i: int|
                0 <= i < map_entries(self.keycloak_by_alias).len() && (#[trigger] map_entries(
                    self.keycloak_by_alias,
                )[i]).0 == alias ==> self@.contains(alias) && self@.index_of(alias) == i
                    && self@.profiles[i] == map_entries(self.keycloak_by_alias)[i].1,
    {
        let entries = map_entries(self.keycloak_by_alias);
        let profiles = self@.profiles;
        assert forall|i: int| 0 <= i < entries.len() implies (#[trigger] profiles[i]) == entries[i].1 by {}
        if self@.contains(alias) {
            assert(entries[self@.index_of(alias)].0 == alias);
        }
        assert forall|i: int| 0 <= i < entries.len() && (#[trigger] entries[i]).0 == alias implies self@.contains(
            alias,
        ) && self@.index_of(alias) == i && self@.profiles[i] == entries[i].1 by {
            assert(profiles[i].alias == alias);
        }
    }
}

} // verus!
