//! The commands of the command line, as decisions on plain values.

use vstd::prelude::*;
use crate::auth::AuthError;
use crate::auth::AuthFault;
use crate::keycloak::KeycloakRegistryError;
use crate::keycloak::RegistryFault;
use crate::request::RequestExecutionError;
use crate::request::RequestFault;

pub mod arguments;
pub mod auth_mgmt;
pub mod request_executor;

verus! {

/// Where the registry file lies below the user's home directory.
pub const AUTH_CONFIG_FILE: &'static str = ".curlaut/auth.yaml";

/// Why a request command did not run to its end.
#[derive(Debug)]
pub enum RequestCommandError {
    /// The records of the registry file make no registry.
    Registry(KeycloakRegistryError),
    /// No profile is marked as the default.
    NoDefaultKeycloak,
    /// No bearer credential was obtained.
    Auth(AuthError),
    /// The address to call is no absolute URL.
    InvalidUrl { url: String, origin: url::ParseError },
    /// The file that holds the body could not be read.
    BodyFile { cause: String },
    /// The call of the target server failed.
    Request(RequestExecutionError),
    /// The program reported something that the stage of the command did not
    /// await.
    UnexpectedEvent,
}

/// A `RequestCommandError` with its texts by their characters.
pub enum RequestCommandFault {
    Registry(RegistryFault),
    NoDefaultKeycloak,
    Auth(AuthFault),
    InvalidUrl(Seq<char>),
    BodyFile(Seq<char>),
    Request(RequestFault),
    UnexpectedEvent,
}

impl View for RequestCommandError {
    type V = RequestCommandFault;

    open spec fn view(&self) -> RequestCommandFault {
        match *self {
            RequestCommandError::Registry(error) => RequestCommandFault::Registry(error@),
            RequestCommandError::NoDefaultKeycloak => RequestCommandFault::NoDefaultKeycloak,
            RequestCommandError::Auth(error) => RequestCommandFault::Auth(error@),
            RequestCommandError::InvalidUrl { url, origin } => RequestCommandFault::InvalidUrl(url@),
            RequestCommandError::BodyFile { cause } => RequestCommandFault::BodyFile(cause@),
            RequestCommandError::Request(error) => RequestCommandFault::Request(error@),
            RequestCommandError::UnexpectedEvent => RequestCommandFault::UnexpectedEvent,
        }
    }
}

} // verus!
