//! The registry as a mathematical value: what its operations make of it, the
//! invariant they keep, and the laws that follow.

use vstd::prelude::*;
use crate::keycloak::keycloak_config::valid_profile;
use crate::keycloak::keycloak_config::KeycloakConfigView;
use crate::keycloak::RegistryFault;

verus! {

/// A registry as a mathematical record: the profiles in the order in which
/// they were added, and the alias the registry remembers as the default.
pub struct RegistryView {
    pub profiles: Seq<KeycloakConfigView>,
    pub default_alias: Option<Seq<char>>,
}

/// The profiles with the default mark on those whose alias is `alias`, and on
/// no other.
pub open spec fn mark_default(profiles: Seq<KeycloakConfigView>, alias: Seq<char>) -> Seq<
    KeycloakConfigView,
> {
    profiles.map_values(
        |p: KeycloakConfigView| KeycloakConfigView { default: p.alias == alias, ..p },
    )
}

impl RegistryView {
    /// The registry without profiles.
    pub open spec fn empty() -> RegistryView {
        RegistryView { profiles: Seq::empty(), default_alias: None }
    }

    /// Whether a profile has the alias.
    pub open spec fn contains(self, alias: Seq<char>) -> bool {
        exists|i: int| 0 <= i < self.profiles.len() && (#[trigger] self.profiles[i]).alias == alias
    }

    /// The place of a profile with the alias.
    pub open spec fn index_of(self, alias: Seq<char>) -> int {
        choose|i: int| 0 <= i < self.profiles.len() && (#[trigger] self.profiles[i]).alias == alias
    }

    /// The profile with the alias.
    pub open spec fn find(self, alias: Seq<char>) -> Option<KeycloakConfigView> {
        if self.contains(alias) {
            Some(self.profiles[self.index_of(alias)])
        } else {
            None
        }
    }

    /// The profile that the remembered default alias names.
    pub open spec fn get_default(self) -> Option<KeycloakConfigView> {
        match self.default_alias {
            Some(alias) => self.find(alias),
            None => None,
        }
    }

    /// The registry after `alias` became the default, or the fault where no
    /// profile has that alias.
    pub open spec fn set_default(self, alias: Seq<char>) -> Result<RegistryView, RegistryFault> {
        if self.contains(alias) {
            Ok(
                RegistryView {
                    profiles: mark_default(self.profiles, alias),
                    default_alias: Some(alias),
                },
            )
        } else {
            Err(RegistryFault::AliasNotFound(alias))
        }
    }

    /// The registry after `profile` was added behind the others, or the fault
    /// where its alias is taken. A profile that comes marked as the default
    /// becomes the default.
    pub open spec fn add(self, profile: KeycloakConfigView) -> Result<RegistryView, RegistryFault> {
        if self.contains(profile.alias) {
            Err(RegistryFault::AliasAlreadyExists(profile.alias))
        } else if profile.default {
            Ok(
                RegistryView {
                    profiles: mark_default(self.profiles.push(profile), profile.alias),
                    default_alias: Some(profile.alias),
                },
            )
        } else {
            Ok(
                RegistryView {
                    profiles: self.profiles.push(profile),
                    default_alias: self.default_alias,
                },
            )
        }
    }

    /// The registry without the profile that has the alias. Where that profile
    /// was the default, no default is left.
    pub open spec fn remove(self, alias: Seq<char>) -> RegistryView {
        if self.contains(alias) {
            RegistryView {
                profiles: self.profiles.remove(self.index_of(alias)),
                default_alias: if self.default_alias == Some(alias) {
                    None
                } else {
                    self.default_alias
                },
            }
        } else {
            self
        }
    }

    /// The registry that the records of a registry file give: each record
    /// added in turn to the empty registry, or the first fault on the way.
    pub open spec fn load(records: Seq<KeycloakConfigView>) -> Result<RegistryView, RegistryFault>
        decreases records.len(),
    {
        if records.len() == 0 {
            Ok(RegistryView::empty())
        } else {
            match RegistryView::load(records.drop_last()) {
                Ok(loaded) => loaded.add(records.last()),
                Err(fault) => Err(fault),
            }
        }
    }

    /// The invariant of a registry: every profile is valid, no alias occurs
    /// twice, a profile carries the default mark exactly if the remembered
    /// default alias is its own, and that alias names a profile.
    pub open spec fn valid(self) -> bool {
        &&& forall|i: int| 0 <= i < self.profiles.len() ==> valid_profile(#[trigger] self.profiles[i])
        &&& forall|i: int, j: int|
            0 <= i < self.profiles.len() && 0 <= j < self.profiles.len() && i != j ==> (
            #[trigger] self.profiles[i]).alias != (#[trigger] self.profiles[j]).alias
        &&& forall|i: int|
            0 <= i < self.profiles.len() ==> ((#[trigger] self.profiles[i]).default <==> self.default_alias
                == Some(self.profiles[i].alias))
        &&& self.default_alias matches Some(alias) ==> self.contains(alias)
    }
}

/// One change asked of a registry.
pub enum RegistryCall {
    Add(KeycloakConfigView),
    Remove(Seq<char>),
    SetDefault(Seq<char>),
}

impl RegistryView {
    /// The registry after one call; a call that fails leaves it as it is.
    pub open spec fn apply(self, call: RegistryCall) -> RegistryView {
        match call {
            RegistryCall::Add(profile) => match self.add(profile) {
                Ok(added) => added,
                Err(_) => self,
            },
            RegistryCall::Remove(alias) => self.remove(alias),
            RegistryCall::SetDefault(alias) => match self.set_default(alias) {
                Ok(changed) => changed,
                Err(_) => self,
            },
        }
    }

    /// The registry after a sequence of calls, the first call first.
    pub open spec fn apply_all(self, calls: Seq<RegistryCall>) -> RegistryView
        decreases calls.len(),
    {
        if calls.len() == 0 {
            self
        } else {
            self.apply_all(calls.drop_last()).apply(calls.last())
        }
    }
}

/// Adding a valid profile to a valid registry gives a valid registry in which
/// the alias finds that very profile; where the alias is taken, adding fails
/// with `AliasAlreadyExists`.
pub proof fn lemma_add_then_find(registry: RegistryView, profile: KeycloakConfigView)
    requires
        registry.valid(),
        valid_profile(profile),
    ensures
        match registry.add(profile) {
            Ok(added) => !registry.contains(profile.alias) && added.valid() && added.find(
                profile.alias,
            ) == Some(profile),
            Err(fault) => registry.contains(profile.alias) && fault
                == RegistryFault::AliasAlreadyExists(profile.alias),
        },
{
    if !registry.contains(profile.alias) {
        let added = registry.add(profile)->Ok_0;
        let n = registry.profiles.len() as int;
        assert(added.profiles[n] == profile);
        assert forall|i: int| 0 <= i < n implies (#[trigger] added.profiles[i]).alias
            == registry.profiles[i].alias && added.profiles[i].alias != profile.alias by {}
        if let Some(current) = added.default_alias {
            if current != profile.alias {
                let k = registry.index_of(current);
                assert(added.profiles[k].alias == current);
            }
        }
    }
}

/// Making a registered alias the default gives a valid registry whose default
/// profile is the one with that alias, marked as the default.
pub proof fn lemma_set_default_then_get_default(registry: RegistryView, alias: Seq<char>)
    requires
        registry.valid(),
        registry.contains(alias),
    ensures
        registry.set_default(alias) matches Ok(changed) && changed.valid() && changed.get_default()
            == Some(KeycloakConfigView { default: true, ..registry.find(alias)->0 }),
{
    let changed = registry.set_default(alias)->Ok_0;
    let k = registry.index_of(alias);
    assert(changed.profiles[k].alias == alias);
    assert forall|i: int| 0 <= i < changed.profiles.len() implies (#[trigger] changed.profiles[i]).alias
        == registry.profiles[i].alias by {}
}

/// Making an alias the default that no profile has fails with `AliasNotFound`.
pub proof fn lemma_set_default_of_unknown_alias(registry: RegistryView, alias: Seq<char>)
    requires
        !registry.contains(alias),
    ensures
        registry.set_default(alias) == Err::<RegistryView, RegistryFault>(
            RegistryFault::AliasNotFound(alias),
        ),
{
}

/// Removing keeps a registry valid, and the removed alias finds nothing.
pub proof fn lemma_remove_keeps_valid(registry: RegistryView, alias: Seq<char>)
    requires
        registry.valid(),
    ensures
        registry.remove(alias).valid(),
        !registry.remove(alias).contains(alias),
{
    let removed = registry.remove(alias);
    if registry.contains(alias) {
        let i = registry.index_of(alias);
        assert forall|k: int| 0 <= k < removed.profiles.len() implies (#[trigger] removed.profiles[k])
            == registry.profiles[if k < i { k } else { k + 1 }] by {}
        assert forall|a: Seq<char>| removed.default_alias == Some(a) implies removed.contains(a) by {
            let k = registry.index_of(a);
            if k < i {
                assert(removed.profiles[k].alias == a);
            } else {
                assert(removed.profiles[k - 1].alias == a);
            }
        }
        assert forall|k: int| 0 <= k < removed.profiles.len() implies (#[trigger] removed.profiles[k]).alias
            != alias by {
            assert(removed.profiles[k] == registry.profiles[if k < i { k } else { k + 1 }]);
        }
    }
}

/// Removing the default alias leaves a registry without a default.
pub proof fn lemma_remove_default_clears_default(registry: RegistryView, alias: Seq<char>)
    requires
        registry.valid(),
        registry.default_alias == Some(alias),
    ensures
        registry.remove(alias).default_alias is None,
        registry.remove(alias).get_default() is None,
{
}

/// In a valid registry at most one profile carries the default mark.
pub proof fn lemma_valid_has_one_default_at_most(registry: RegistryView, i: int, j: int)
    requires
        registry.valid(),
        0 <= i < registry.profiles.len(),
        0 <= j < registry.profiles.len(),
        registry.profiles[i].default,
        registry.profiles[j].default,
    ensures
        i == j,
{
}

/// Whatever calls are made of an empty registry, with valid profiles to add,
/// the registry stays valid, so that at most one profile carries the default
/// mark at any time.
pub proof fn lemma_calls_keep_one_default_at_most(calls: Seq<RegistryCall>)
    requires
        forall|c: int|
            0 <= c < calls.len() ==> ((#[trigger] calls[c]) matches RegistryCall::Add(profile)
                ==> valid_profile(profile)),
    ensures
        RegistryView::empty().apply_all(calls).valid(),
        forall|i: int, j: int|
            0 <= i < RegistryView::empty().apply_all(calls).profiles.len() && 0 <= j
                < RegistryView::empty().apply_all(calls).profiles.len() && (
            #[trigger] RegistryView::empty().apply_all(calls).profiles[i]).default && (
            #[trigger] RegistryView::empty().apply_all(calls).profiles[j]).default ==> i == j,
    decreases calls.len(),
{
    if calls.len() > 0 {
        let before = RegistryView::empty().apply_all(calls.drop_last());
        lemma_calls_keep_one_default_at_most(calls.drop_last());
        match calls.last() {
            RegistryCall::Add(profile) => {
                lemma_add_then_find(before, profile);
            },
            RegistryCall::Remove(alias) => {
                lemma_remove_keeps_valid(before, alias);
            },
            RegistryCall::SetDefault(alias) => {
                if before.contains(alias) {
                    lemma_set_default_then_get_default(before, alias);
                }
            },
        }
    }
    let after = RegistryView::empty().apply_all(calls);
    assert forall|i: int, j: int|
        0 <= i < after.profiles.len() && 0 <= j < after.profiles.len() && (
        #[trigger] after.profiles[i]).default && (#[trigger] after.profiles[j]).default implies i
        == j by {
        lemma_valid_has_one_default_at_most(after, i, j);
    }
}

/// The first `k` profiles of a valid registry as a registry of their own: the
/// default alias is remembered once the profile that carries the mark is in.
pub open spec fn first_profiles(registry: RegistryView, k: int) -> RegistryView {
    RegistryView {
        profiles: registry.profiles.take(k),
        default_alias: if exists|i: int| 0 <= i < k && (#[trigger] registry.profiles[i]).default {
            registry.default_alias
        } else {
            None
        },
    }
}

proof fn lemma_load_first_profiles(registry: RegistryView, k: int)
    requires
        registry.valid(),
        0 <= k <= registry.profiles.len(),
    ensures
        RegistryView::load(registry.profiles.take(k)) == Ok::<RegistryView, RegistryFault>(
            first_profiles(registry, k),
        ),
    decreases k,
{
    let records = registry.profiles.take(k);
    if k == 0 {
        assert(first_profiles(registry, 0).profiles =~= Seq::<KeycloakConfigView>::empty());
    } else {
        lemma_load_first_profiles(registry, k - 1);
        assert(records.drop_last() =~= registry.profiles.take(k - 1));
        let before = first_profiles(registry, k - 1);
        let last = registry.profiles[k - 1];
        assert(!before.contains(last.alias)) by {
            if before.contains(last.alias) {
                let i = before.index_of(last.alias);
                assert(registry.profiles[i].alias == registry.profiles[k - 1].alias);
            }
        }
        let after = before.add(last)->Ok_0;
        let goal = first_profiles(registry, k);
        if last.default {
            // the mark is on the last profile, and so on no profile before it
            assert forall|i: int| 0 <= i < k implies (#[trigger] after.profiles[i])
                == goal.profiles[i] by {}
            assert(after.profiles =~= goal.profiles);
        } else {
            assert(after.profiles =~= goal.profiles);
            if exists|i: int| 0 <= i < k && (#[trigger] registry.profiles[i]).default {
                // the profile that carries the mark is not the last one
                let i = choose|i: int| 0 <= i < k && (#[trigger] registry.profiles[i]).default;
                assert(0 <= i < k - 1);
            }
        }
    }
}

/// Loading what a valid registry saves gives that registry back: the same
/// profiles in the same order, and the same default alias.
pub proof fn lemma_save_then_load(registry: RegistryView)
    requires
        registry.valid(),
    ensures
        RegistryView::load(registry.profiles) == Ok::<RegistryView, RegistryFault>(registry),
{
    let n = registry.profiles.len() as int;
    lemma_load_first_profiles(registry, n);
    assert(registry.profiles.take(n) =~= registry.profiles);
    if let Some(alias) = registry.default_alias {
        // the profile that the default alias names carries the mark
        assert(registry.profiles[registry.index_of(alias)].default);
    }
}

/// A fault that loading meets within the first `k` records is the fault of
/// loading all of them.
pub proof fn lemma_load_fault_stays(records: Seq<KeycloakConfigView>, k: int)
    requires
        0 <= k <= records.len(),
        RegistryView::load(records.take(k)) is Err,
    ensures
        RegistryView::load(records) == RegistryView::load(records.take(k)),
    decreases records.len() - k,
{
    if k == records.len() {
        assert(records.take(k) =~= records);
    } else {
        assert(records.take(k + 1).drop_last() =~= records.take(k));
        lemma_load_fault_stays(records, k + 1);
    }
}

} // verus!
