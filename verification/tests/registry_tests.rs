use curlaut::keycloak::keycloak_config::KeycloakConfig;
use curlaut::keycloak::keycloak_registry::KeycloakRegistry;
use curlaut::keycloak::KeycloakRegistryError;

fn profile(alias: &str, default: bool) -> KeycloakConfig {
    KeycloakConfig::new(
        alias,
        "http://localhost:8080",
        "master",
        "cli",
        "",
        "admin",
        "secret",
        default,
    )
    .unwrap()
}

fn aliases(registry: &KeycloakRegistry) -> Vec<String> {
    registry.get_all().iter().map(|p| p.alias().to_string()).collect()
}

fn marks(registry: &KeycloakRegistry) -> Vec<bool> {
    registry.get_all().iter().map(|p| p.is_default()).collect()
}

#[test]
fn new_registry_is_empty() {
    let registry = KeycloakRegistry::new_empty();
    assert!(registry.get_all().is_empty());
    assert!(registry.get_default().is_none());
    assert!(registry.find_keycloak("dev").is_none());
    assert!(registry.save_to_file().is_empty());
}

#[test]
fn add_then_find_returns_the_profile() {
    let mut registry = KeycloakRegistry::new_empty();
    registry.add_keycloak(profile("dev", false)).unwrap();
    let found = registry.find_keycloak("dev").unwrap();
    assert_eq!(found, &profile("dev", false));
    assert_eq!(found.url().as_str(), "http://localhost:8080/");
    assert!(registry.find_keycloak("prod").is_none());
    assert!(registry.find_keycloak("DEV").is_none());
}

#[test]
fn add_as_default_then_find_returns_the_profile_with_its_mark() {
    let mut registry = KeycloakRegistry::new_empty();
    registry.add_keycloak(profile("dev", true)).unwrap();
    assert_eq!(registry.find_keycloak("dev").unwrap(), &profile("dev", true));
    assert_eq!(registry.get_default().unwrap(), &profile("dev", true));
}

#[test]
fn add_with_a_taken_alias_fails_and_changes_nothing() {
    let mut registry = KeycloakRegistry::new_empty();
    registry.add_keycloak(profile("dev", false)).unwrap();
    let error = registry.add_keycloak(profile("dev", true)).unwrap_err();
    assert!(matches!(error, KeycloakRegistryError::AliasAlreadyExists(alias) if alias == "dev"));
    assert_eq!(registry.get_all(), vec![&profile("dev", false)]);
    assert!(registry.get_default().is_none());
}

#[test]
fn profiles_keep_the_order_in_which_they_were_added() {
    let mut registry = KeycloakRegistry::new_empty();
    for alias in ["zulu", "alpha", "mike"] {
        registry.add_keycloak(profile(alias, false)).unwrap();
    }
    assert_eq!(aliases(&registry), vec!["zulu", "alpha", "mike"]);
    registry.remove_keycloak("alpha");
    registry.add_keycloak(profile("alpha", false)).unwrap();
    assert_eq!(aliases(&registry), vec!["zulu", "mike", "alpha"]);
}

#[test]
fn set_default_moves_the_mark() {
    let mut registry = KeycloakRegistry::new_empty();
    registry.add_keycloak(profile("a", true)).unwrap();
    registry.add_keycloak(profile("b", false)).unwrap();
    registry.add_keycloak(profile("c", true)).unwrap();
    assert_eq!(registry.get_default().unwrap().alias(), "c");
    assert_eq!(marks(&registry), vec![false, false, true]);
    registry.set_default("b").unwrap();
    assert_eq!(marks(&registry), vec![false, true, false]);
    assert_eq!(aliases(&registry), vec!["a", "b", "c"]);
    assert_eq!(registry.get_default().unwrap(), &profile("b", true));
}

#[test]
fn set_default_of_the_default_changes_nothing() {
    let mut registry = KeycloakRegistry::new_empty();
    registry.add_keycloak(profile("a", false)).unwrap();
    registry.add_keycloak(profile("b", true)).unwrap();
    registry.set_default("b").unwrap();
    assert_eq!(marks(&registry), vec![false, true]);
    assert_eq!(registry.get_default().unwrap().alias(), "b");
}

#[test]
fn set_default_of_an_unknown_alias_fails_and_changes_nothing() {
    let mut registry = KeycloakRegistry::new_empty();
    registry.add_keycloak(profile("a", true)).unwrap();
    let error = registry.set_default("b").unwrap_err();
    assert!(matches!(error, KeycloakRegistryError::AliasNotFound(alias) if alias == "b"));
    assert_eq!(marks(&registry), vec![true]);
    assert_eq!(registry.get_default().unwrap().alias(), "a");
}

#[test]
fn at_most_one_profile_is_the_default_whatever_is_called() {
    let mut registry = KeycloakRegistry::new_empty();
    registry.add_keycloak(profile("a", true)).unwrap();
    registry.add_keycloak(profile("b", true)).unwrap();
    assert_eq!(marks(&registry), vec![false, true]);
    registry.set_default("a").unwrap();
    assert_eq!(marks(&registry), vec![true, false]);
    registry.add_keycloak(profile("c", false)).unwrap();
    assert_eq!(marks(&registry), vec![true, false, false]);
    registry.remove_keycloak("b");
    assert_eq!(marks(&registry), vec![true, false]);
    registry.set_default("c").unwrap();
    assert_eq!(marks(&registry), vec![false, true]);
    assert!(registry.set_default("b").is_err());
    assert_eq!(marks(&registry), vec![false, true]);
    assert!(registry.add_keycloak(profile("a", true)).is_err());
    assert_eq!(marks(&registry), vec![false, true]);
}

#[test]
fn remove_of_the_default_leaves_no_default() {
    let mut registry = KeycloakRegistry::new_empty();
    registry.add_keycloak(profile("a", false)).unwrap();
    registry.add_keycloak(profile("b", true)).unwrap();
    registry.remove_keycloak("b");
    assert!(registry.get_default().is_none());
    assert_eq!(marks(&registry), vec![false]);
    // no profile is promoted, and the alias does not come back as the default
    registry.add_keycloak(profile("b", false)).unwrap();
    assert!(registry.get_default().is_none());
    assert!(matches!(
        registry.set_default("c"),
        Err(KeycloakRegistryError::AliasNotFound(alias)) if alias == "c"
    ));
}

#[test]
fn remove_of_another_profile_keeps_the_default() {
    let mut registry = KeycloakRegistry::new_empty();
    registry.add_keycloak(profile("a", true)).unwrap();
    registry.add_keycloak(profile("b", false)).unwrap();
    registry.remove_keycloak("b");
    assert_eq!(registry.get_default().unwrap().alias(), "a");
}

#[test]
fn remove_of_an_unknown_alias_changes_nothing() {
    let mut registry = KeycloakRegistry::new_empty();
    registry.add_keycloak(profile("a", true)).unwrap();
    registry.remove_keycloak("b");
    registry.remove_keycloak("b");
    assert_eq!(aliases(&registry), vec!["a"]);
    assert_eq!(registry.get_default().unwrap().alias(), "a");
}

#[test]
fn save_then_load_gives_the_registry_back() {
    let mut registry = KeycloakRegistry::new_empty();
    registry.add_keycloak(profile("a", false)).unwrap();
    registry.add_keycloak(profile("b", true)).unwrap();
    registry.add_keycloak(profile("c", false)).unwrap();
    let saved = registry.save_to_file();
    assert_eq!(saved, vec![profile("a", false), profile("b", true), profile("c", false)]);
    let loaded = KeycloakRegistry::load_from_file(saved.clone()).unwrap();
    assert_eq!(aliases(&loaded), vec!["a", "b", "c"]);
    assert_eq!(marks(&loaded), vec![false, true, false]);
    assert_eq!(loaded.get_default().unwrap(), &profile("b", true));
    assert_eq!(loaded.save_to_file(), saved);
}

#[test]
fn load_without_a_default_has_no_default() {
    let loaded =
        KeycloakRegistry::load_from_file(vec![profile("a", false), profile("b", false)]).unwrap();
    assert!(loaded.get_default().is_none());
    assert_eq!(marks(&loaded), vec![false, false]);
}

#[test]
fn load_of_two_records_with_one_alias_fails() {
    let records = vec![profile("a", false), profile("b", true), profile("a", true)];
    let error = KeycloakRegistry::load_from_file(records).err().unwrap();
    assert!(matches!(error, KeycloakRegistryError::AliasAlreadyExists(alias) if alias == "a"));
}

#[test]
fn load_of_several_defaults_keeps_the_last() {
    let records = vec![profile("a", true), profile("b", true), profile("c", false)];
    let loaded = KeycloakRegistry::load_from_file(records).unwrap();
    assert_eq!(loaded.get_default().unwrap().alias(), "b");
    assert_eq!(marks(&loaded), vec![false, true, false]);
}
