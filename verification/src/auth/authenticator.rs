//! The password-grant exchange: the request to send to the identity provider,
//! and the token that its answer holds.

use vstd::prelude::*;
use vstd::string::StrSliceExecFns;
use vstd::string::StringExecFns;
use std::collections::HashMap;
use serde_json::Value;
use crate::address::url_join;
use crate::address::url_serialization;
use crate::address::MyUrl;
use crate::auth::AuthError;
use crate::auth::AuthFault;
use crate::auth::AuthResponseFault;
use crate::auth::HttpAuthorization;
use crate::keycloak::keycloak_config::KeycloakConfig;
use crate::keycloak::keycloak_config::KeycloakConfigView;
use crate::output::lemma_wrote_nothing;
use crate::output::wrote;
use crate::output::CurlautOutput;
use crate::text::pair_views;
use crate::text::result_view;

verus! {

/// A bearer token as the identity provider issued it.
#[derive(Debug, PartialEq, Eq)]
pub struct JwtToken {
    pub token_value: String,
}

impl View for JwtToken {
    type V = Seq<char>;

    open spec fn view(&self) -> Seq<char> {
        self.token_value@
    }
}

impl HttpAuthorization for JwtToken {
    open spec fn authorization_value(&self) -> Seq<char> {
        self.token_value@
    }

    fn get_authorization_value(&self) -> (value: String) {
        self.token_value.clone()
    }
}

impl JwtToken {
    /// The token as text.
    pub fn to_string(&self) -> (text: String)
        ensures
            text@ == self@,
    {
        self.token_value.clone()
    }
}

/// The base address as a directory: the address itself where its text ends
/// in a slash, else what the URL parser reads from the text with a slash
/// added; `None` where the parser rejects that.
pub open spec fn as_directory(base: Seq<char>) -> Option<Seq<char>> {
    if base.len() > 0 && base.last() == '/' {
        Some(base)
    } else {
        url_serialization(base + "/"@)
    }
}

/// The address of the token endpoint of `realm` at the identity provider at
/// `base`: below the base as a directory, `realms/`, the realm and
/// `protocol/openid-connect/token`, each resolved against what came before.
/// So a base with a slash at its end and the same base without it give the
/// same address. `None` where one of the steps fails.
pub open spec fn token_url(base: Seq<char>, realm: Seq<char>) -> Option<Seq<char>> {
    match as_directory(base) {
        Some(directory) => match url_join(directory, "realms/"@) {
            Some(realms) => match url_join(realms, realm + "/"@) {
                Some(of_realm) => url_join(of_realm, "protocol/openid-connect/token"@),
                None => None,
            },
            None => None,
        },
        None => None,
    }
}

/// Reads the base address as a directory, so that what is resolved against
/// it comes to stand below its whole path.
pub fn directory_url(base: &MyUrl) -> (directory: Result<MyUrl, url::ParseError>)
    ensures
        match directory {
            Ok(url) => as_directory(base@) == Some(url@),
            Err(_) => as_directory(base@) is None,
        },
{
    let text = base.as_str();
    let length = text.unicode_len();
    if length > 0 && text.get_char(length - 1) == '/' {
        Ok(base.clone())
    } else {
        let with_slash = text.to_owned().concat("/");
        MyUrl::parse(with_slash.as_str())
    }
}

/// Builds the address of the token endpoint of `realm`.
pub fn build_token_url(keycloak_url: &MyUrl, realm: &str) -> (built: Result<MyUrl, url::ParseError>)
    ensures
        match built {
            Ok(url) => token_url(keycloak_url@, realm@) == Some(url@),
            Err(_) => token_url(keycloak_url@, realm@) is None,
        },
{
    let directory = directory_url(keycloak_url)?;
    let realms = directory.join("realms/")?;
    let segment = realm.to_owned().concat("/");
    let of_realm = realms.join(segment.as_str())?;
    of_realm.join("protocol/openid-connect/token")
}

/// The form of the password grant for a profile.
pub open spec fn token_form(profile: KeycloakConfigView) -> Seq<(Seq<char>, Seq<char>)> {
    seq![
        ("grant_type"@, "password"@),
        ("client_id"@, profile.client_id),
        ("client_secret"@, profile.client_secret),
        ("username"@, profile.username),
        ("password"@, profile.password),
        ("scope"@, "openid profile email"@),
    ]
}

/// The line of the diagnostic stream that announces the token request.
pub open spec fn token_request_trace(url: Seq<char>) -> Seq<char> {
    "Requesting JWT token using POST "@ + url + "\n"@
}

/// The seconds after which a token request is given up.
pub const TOKEN_REQUEST_TIMEOUT_SECS: u64 = 60;

/// The request that asks the identity provider for a token: a POST of the
/// form to the address, given up after the timeout.
#[derive(Debug, PartialEq, Eq)]
pub struct TokenRequest {
    pub url: MyUrl,
    pub form: Vec<(String, String)>,
    pub timeout_secs: u64,
}

/// A token request as a mathematical record.
pub struct TokenRequestView {
    pub url: Seq<char>,
    pub form: Seq<(Seq<char>, Seq<char>)>,
    pub timeout_secs: u64,
}

impl View for TokenRequest {
    type V = TokenRequestView;

    open spec fn view(&self) -> TokenRequestView {
        TokenRequestView {
            url: self.url@,
            form: pair_views(self.form@),
            timeout_secs: self.timeout_secs,
        }
    }
}

/// The token request for a profile, with `url` for what building the
/// address of the token endpoint gave: the request, or the fault where it
/// gave none.
pub open spec fn token_request_to(profile: KeycloakConfigView, url: Option<Seq<char>>) -> Result<
    TokenRequestView,
    AuthFault,
> {
    match url {
        Some(url) => Ok(
            TokenRequestView {
                url,
                form: token_form(profile),
                timeout_secs: TOKEN_REQUEST_TIMEOUT_SECS,
            },
        ),
        None => Err(AuthFault::TokenUrl(profile.alias)),
    }
}

/// The token request for a profile, or the fault where the address of the
/// token endpoint cannot be built.
pub open spec fn jwt_request_of(profile: KeycloakConfigView) -> Result<TokenRequestView, AuthFault> {
    token_request_to(profile, token_url(profile.url, profile.realm))
}

/// What building an address gave, by its characters.
pub open spec fn built_url(built: Result<MyUrl, url::ParseError>) -> Option<Seq<char>> {
    match built {
        Ok(url) => Some(url@),
        Err(_) => None,
    }
}

/// Whether `request` is the outcome `expected`, with the request written to
/// the diagnostic stream where there is one.
pub open spec fn token_request_made<O: CurlautOutput>(
    request: Result<TokenRequest, AuthError>,
    expected: Result<TokenRequestView, AuthFault>,
    before: &O,
    after: &O,
) -> bool {
    &&& result_view(request) == expected
    &&& wrote(
        before,
        after,
        Seq::empty(),
        match request {
            Ok(request) => token_request_trace(request@.url),
            Err(_) => Seq::empty(),
        },
    )
}

/// Prepares the password-grant request for a profile and announces it on the
/// diagnostic stream, by method and address only.
pub fn jwt_request<O: CurlautOutput>(config: &KeycloakConfig, io: &mut O) -> (request: Result<
    TokenRequest,
    AuthError,
>)
    ensures
        token_request_made(request, jwt_request_of(config@), old(io), final(io)),
{
    token_request_for(config, build_token_url(config.url(), config.realm()), io)
}

/// Prepares the password-grant request for a profile to the address of its
/// token endpoint, and announces it on the diagnostic stream. Fails where no
/// address could be built.
pub fn token_request_for<O: CurlautOutput>(
    config: &KeycloakConfig,
    token_url: Result<MyUrl, url::ParseError>,
    io: &mut O,
) -> (request: Result<TokenRequest, AuthError>)
    ensures
        token_request_made(
            request,
            token_request_to(config@, built_url(token_url)),
            old(io),
            final(io),
        ),
{
    let url = match token_url {
        Ok(url) => url,
        Err(origin) => {
            proof {
                lemma_wrote_nothing(&*io);
            }
            return Err(AuthError::TokenUrl { alias: config.alias().to_owned(), origin });
        },
    };
    let mut form: Vec<(String, String)> = Vec::new();
    form.push(("grant_type".to_owned(), "password".to_owned()));
    form.push(("client_id".to_owned(), config.client_id().to_owned()));
    form.push(("client_secret".to_owned(), config.client_secret().to_owned()));
    form.push(("username".to_owned(), config.username().to_owned()));
    form.push(("password".to_owned(), config.password().to_owned()));
    form.push(("scope".to_owned(), "openid profile email".to_owned()));
    let mut line = "Requesting JWT token using POST ".to_owned();
    line.append(url.as_str());
    line.append("\n");
    io.verbose(line.as_str());
    let request = TokenRequest { url, form, timeout_secs: TOKEN_REQUEST_TIMEOUT_SECS };
    proof {
        assert(pair_views(request.form@) =~= token_form(config@));
    }
    Ok(request)
}

/// What a JSON document holds under one name.
#[derive(Debug, PartialEq, Eq)]
pub enum JsonField {
    /// The document is no JSON object.
    NoObject,
    /// The object has no field of that name.
    Missing,
    /// The field holds something else than a string.
    NotText,
    /// The field holds this string.
    Text(String),
}

/// A `JsonField` with the string by its characters.
pub enum JsonFieldView {
    NoObject,
    Missing,
    NotText,
    Text(Seq<char>),
}

impl View for JsonField {
    type V = JsonFieldView;

    open spec fn view(&self) -> JsonFieldView {
        match *self {
            JsonField::NoObject => JsonFieldView::NoObject,
            JsonField::Missing => JsonFieldView::Missing,
            JsonField::NotText => JsonFieldView::NotText,
            JsonField::Text(text) => JsonFieldView::Text(text@),
        }
    }
}

/// What `serde_json::from_slice` finds in `body`, read as a map from names to
/// JSON values, under `name`: `NoObject` where it reads no such map, `Missing`
/// where the map has no such name, else `Text` with the string that
/// `serde_json::Value::as_str` gives for the value, or `NotText` where it
/// gives none.
pub uninterp spec fn json_object_field(body: Seq<u8>, name: Seq<char>) -> JsonFieldView;

/// Reads `body` with `serde_json::from_slice` as a `HashMap<String, Value>`,
/// looks `name` up and asks `serde_json::Value::as_str` for the string.
#[verifier::external_body]
fn json_field(body: &[u8], name: &str) -> (field: JsonField)
    ensures
        field@ == json_object_field(body@, name@),
{
    match serde_json::from_slice::<HashMap<String, Value>>(body) {
        Ok(object) => match object.get(name).map(Value::as_str) {
            Some(Some(text)) => JsonField::Text(text.to_owned()),
            Some(None) => JsonField::NotText,
            None => JsonField::Missing,
        },
        Err(_) => JsonField::NoObject,
    }
}

/// How the token request ended.
#[derive(Debug, PartialEq, Eq)]
pub enum TokenReply {
    /// No answer came: the provider was not reached, or the exchange broke.
    Unreachable { cause: String },
    /// The provider answered with this status; reading the body of the
    /// answer gave these bytes, or failed for this cause.
    Answered { status: u16, body: Result<Vec<u8>, String> },
}

/// A `TokenReply` as a mathematical value.
pub enum TokenReplyView {
    Unreachable(Seq<char>),
    Answered(u16, Result<Seq<u8>, Seq<char>>),
}

impl View for TokenReply {
    type V = TokenReplyView;

    open spec fn view(&self) -> TokenReplyView {
        match *self {
            TokenReply::Unreachable { cause } => TokenReplyView::Unreachable(cause@),
            TokenReply::Answered { status, body } => TokenReplyView::Answered(
                status,
                match body {
                    Ok(bytes) => Ok(bytes@),
                    Err(cause) => Err(cause@),
                },
            ),
        }
    }
}

/// Whether an HTTP status tells of success: 200 to 299.
pub open spec fn is_success(status: u16) -> bool {
    200 <= status < 300
}

/// The token that a field `access_token` gives, or why it gives none.
pub open spec fn access_token_of(field: JsonFieldView) -> Result<Seq<char>, AuthFault> {
    match field {
        JsonFieldView::NoObject => Err(AuthFault::MalformedAuthResponse(AuthResponseFault::NotJson)),
        JsonFieldView::Missing => Err(
            AuthFault::MalformedAuthResponse(AuthResponseFault::MissingAccessToken),
        ),
        JsonFieldView::NotText => Err(
            AuthFault::MalformedAuthResponse(AuthResponseFault::AccessTokenNotString),
        ),
        JsonFieldView::Text(token) => Ok(token),
    }
}

/// The token that a reply gives, or why it gives none.
pub open spec fn jwt_of(reply: TokenReplyView) -> Result<Seq<char>, AuthFault> {
    match reply {
        TokenReplyView::Unreachable(cause) => Err(AuthFault::AuthTransportError(cause)),
        TokenReplyView::Answered(status, body) => if is_success(status) {
            match body {
                Ok(bytes) => access_token_of(json_object_field(bytes, "access_token"@)),
                Err(cause) => Err(AuthFault::AuthTransportError(cause)),
            }
        } else {
            Err(AuthFault::AuthenticationFailed(status))
        },
    }
}

/// Turns what the answer holds under `access_token` into the token.
pub fn read_access_token(field: JsonField) -> (token: Result<JwtToken, AuthError>)
    ensures
        result_view(token) == access_token_of(field@),
{
    match field {
        JsonField::NoObject => Err(AuthError::MalformedAuthResponse(AuthResponseFault::NotJson)),
        JsonField::Missing => Err(
            AuthError::MalformedAuthResponse(AuthResponseFault::MissingAccessToken),
        ),
        JsonField::NotText => Err(
            AuthError::MalformedAuthResponse(AuthResponseFault::AccessTokenNotString),
        ),
        JsonField::Text(token_value) => Ok(JwtToken { token_value }),
    }
}

/// Reads the bearer token out of the identity provider's reply. A reply that
/// did not come is a transport error, a status outside 200 to 299 a failed
/// authentication whatever the body, a body that could not be read a
/// transport error, and a body without a string `access_token` a malformed
/// answer.
pub fn get_jwt(reply: TokenReply) -> (token: Result<JwtToken, AuthError>)
    ensures
        result_view(token) == jwt_of(reply@),
{
    match reply {
        TokenReply::Unreachable { cause } => Err(AuthError::AuthTransportError { cause }),
        TokenReply::Answered { status, body } => {
            if 200 <= status && status < 300 {
                match body {
                    Ok(bytes) => read_access_token(json_field(bytes.as_slice(), "access_token")),
                    Err(cause) => Err(AuthError::AuthTransportError { cause }),
                }
            } else {
                Err(AuthError::AuthenticationFailed { status })
            }
        },
    }
}

} // verus!
