//! The bearer credential and how it is obtained from the identity provider.

use vstd::prelude::*;

pub mod authenticator;

verus! {

/// A credential that can be sent in the `Authorization` header.
pub trait HttpAuthorization {
    /// The credential as it follows the scheme's name in the header.
    spec fn authorization_value(&self) -> Seq<char>;

    /// The credential as it follows the scheme's name in the header.
    fn get_authorization_value(&self) -> (value: String)
        ensures
            value@ == self.authorization_value(),
    ;
}

/// Why the answer of the identity provider holds no token.
#[derive(Debug, PartialEq, Eq, Clone, Copy)]
pub enum AuthResponseFault {
    /// The body is no JSON object.
    NotJson,
    /// The object has no field `access_token`.
    MissingAccessToken,
    /// The field `access_token` holds something else than a string.
    AccessTokenNotString,
}

/// Why no bearer credential was obtained.
#[derive(Debug)]
pub enum AuthError {
    /// The address of the token endpoint cannot be built for the profile with
    /// this alias.
    TokenUrl { alias: String, origin: url::ParseError },
    /// The identity provider could not be reached, or its answer not read.
    AuthTransportError { cause: String },
    /// The identity provider answered with a status outside 200 to 299.
    AuthenticationFailed { status: u16 },
    /// The identity provider answered 2xx, but not with a token.
    MalformedAuthResponse(AuthResponseFault),
}

/// An `AuthError` without the URL parser's own diagnosis.
pub enum AuthFault {
    TokenUrl(Seq<char>),
    AuthTransportError(Seq<char>),
    AuthenticationFailed(u16),
    MalformedAuthResponse(AuthResponseFault),
}

impl View for AuthError {
    type V = AuthFault;

    open spec fn view(&self) -> AuthFault {
        match *self {
            AuthError::TokenUrl { alias, origin } => AuthFault::TokenUrl(alias@),
            AuthError::AuthTransportError { cause } => AuthFault::AuthTransportError(cause@),
            AuthError::AuthenticationFailed { status } => AuthFault::AuthenticationFailed(status),
            AuthError::MalformedAuthResponse(fault) => AuthFault::MalformedAuthResponse(fault),
        }
    }
}

} // verus!
