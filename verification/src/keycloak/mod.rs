//! Identity-provider profiles and the registry that holds them.

use vstd::prelude::*;

pub mod keycloak_config;
pub mod keycloak_registry;
pub mod profile_map;
pub mod registry_view;

verus! {

/// What can go wrong while a profile is built or the registry is changed.
#[derive(Debug)]
pub enum KeycloakRegistryError {
    /// A profile with this alias is already registered.
    AliasAlreadyExists(String),
    /// No profile with this alias is registered.
    AliasNotFound(String),
    /// The named property of a profile was given as the empty string.
    ConfigPropertyCannotBeBlank(&'static str),
    /// The address of the identity provider is no absolute URL.
    InvalidKeycloakUrl { url: String, origin: url::ParseError },
}

/// A `KeycloakRegistryError` without the parser's own diagnosis.
pub enum RegistryFault {
    AliasAlreadyExists(Seq<char>),
    AliasNotFound(Seq<char>),
    ConfigPropertyCannotBeBlank(Seq<char>),
    InvalidKeycloakUrl(Seq<char>),
}

impl View for KeycloakRegistryError {
    type V = RegistryFault;

    open spec fn view(&self) -> RegistryFault {
        match *self {
            KeycloakRegistryError::AliasAlreadyExists(alias) => RegistryFault::AliasAlreadyExists(
                alias@,
            ),
            KeycloakRegistryError::AliasNotFound(alias) => RegistryFault::AliasNotFound(alias@),
            KeycloakRegistryError::ConfigPropertyCannotBeBlank(name) => {
                RegistryFault::ConfigPropertyCannotBeBlank(name@)
            },
            KeycloakRegistryError::InvalidKeycloakUrl { url, origin } => {
                RegistryFault::InvalidKeycloakUrl(url@)
            },
        }
    }
}

} // verus!
