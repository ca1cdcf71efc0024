//! One identity-provider profile and the rules a profile must meet.

use vstd::prelude::*;
use vstd::string::StringExecFns;
use crate::address::is_url;
use crate::address::url_serialization;
use crate::address::MyUrl;
use crate::keycloak::KeycloakRegistryError;
use crate::keycloak::RegistryFault;
use crate::text::result_view;

verus! {

/// What the URL parser made of an address, by its characters.
pub open spec fn address_view(parsed: Result<MyUrl, url::ParseError>) -> Option<Seq<char>> {
    match parsed {
        Ok(address) => Some(address@),
        Err(_) => None,
    }
}

/// A profile as a mathematical record: every text field by its characters.
pub struct KeycloakConfigView {
    pub alias: Seq<char>,
    pub url: Seq<char>,
    pub realm: Seq<char>,
    pub client_id: Seq<char>,
    pub client_secret: Seq<char>,
    pub username: Seq<char>,
    pub password: Seq<char>,
    pub default: bool,
}

/// The rule every registered profile meets: alias, realm, client id, user name
/// and password are not empty, and the address is a URL. The client secret may
/// be empty.
pub open spec fn valid_profile(p: KeycloakConfigView) -> bool {
    &&& p.alias.len() > 0
    &&& is_url(p.url)
    &&& p.realm.len() > 0
    &&& p.client_id.len() > 0
    &&& p.username.len() > 0
    &&& p.password.len() > 0
}

/// The profile that the properties give, with `parsed` for what the URL
/// parser made of the address: the profile, or the first fault in the order
/// alias, address, realm, client id, user name, password.
pub open spec fn profile_from(
    alias: Seq<char>,
    url: Seq<char>,
    parsed: Option<Seq<char>>,
    realm: Seq<char>,
    client_id: Seq<char>,
    client_secret: Seq<char>,
    username: Seq<char>,
    password: Seq<char>,
    default: bool,
) -> Result<KeycloakConfigView, RegistryFault> {
    if alias.len() == 0 {
        Err(RegistryFault::ConfigPropertyCannotBeBlank("alias"@))
    } else if parsed is None {
        Err(RegistryFault::InvalidKeycloakUrl(url))
    } else if realm.len() == 0 {
        Err(RegistryFault::ConfigPropertyCannotBeBlank("realm"@))
    } else if client_id.len() == 0 {
        Err(RegistryFault::ConfigPropertyCannotBeBlank("client_id"@))
    } else if username.len() == 0 {
        Err(RegistryFault::ConfigPropertyCannotBeBlank("username"@))
    } else if password.len() == 0 {
        Err(RegistryFault::ConfigPropertyCannotBeBlank("password"@))
    } else {
        Ok(
            KeycloakConfigView {
                alias,
                url: parsed->0,
                realm,
                client_id,
                client_secret,
                username,
                password,
                default,
            },
        )
    }
}

/// What `KeycloakConfig::new` makes of its arguments: the profile, with the
/// address as the URL parser serialized it, or the first fault.
pub open spec fn new_profile(
    alias: Seq<char>,
    url: Seq<char>,
    realm: Seq<char>,
    client_id: Seq<char>,
    client_secret: Seq<char>,
    username: Seq<char>,
    password: Seq<char>,
    default: bool,
) -> Result<KeycloakConfigView, RegistryFault> {
    profile_from(
        alias,
        url,
        url_serialization(url),
        realm,
        client_id,
        client_secret,
        username,
        password,
        default,
    )
}

/// A profile with an empty alias, realm, client id, user name or password is
/// refused with a validation fault: the property that is blank, or the
/// address where that is found invalid first.
pub proof fn lemma_blank_property_is_refused(
    alias: Seq<char>,
    url: Seq<char>,
    realm: Seq<char>,
    client_id: Seq<char>,
    client_secret: Seq<char>,
    username: Seq<char>,
    password: Seq<char>,
    default: bool,
)
    requires
        alias.len() == 0 || realm.len() == 0 || client_id.len() == 0 || username.len() == 0
            || password.len() == 0,
    ensures
        new_profile(alias, url, realm, client_id, client_secret, username, password, default) matches Err(
            fault,
        ) && (fault is ConfigPropertyCannotBeBlank || fault is InvalidKeycloakUrl),
{
}

/// Every profile that is built is valid.
pub proof fn lemma_new_profile_is_valid(
    alias: Seq<char>,
    url: Seq<char>,
    realm: Seq<char>,
    client_id: Seq<char>,
    client_secret: Seq<char>,
    username: Seq<char>,
    password: Seq<char>,
    default: bool,
)
    ensures
        new_profile(alias, url, realm, client_id, client_secret, username, password, default) matches Ok(
            profile,
        ) ==> valid_profile(profile),
{
}

/// The line that lists a profile: a star for the default one, the alias, and
/// the fields in square brackets on a second line.
pub open spec fn profile_text(p: KeycloakConfigView) -> Seq<char> {
    (if p.default {
        "* "@
    } else {
        Seq::<char>::empty()
    }) + "Keycloak '"@ + p.alias + "'"@ + ":\n  [ url="@ + p.url + ", realm="@ + p.realm
        + ", client_id="@ + p.client_id + ", client_secret="@ + p.client_secret + ", username="@
        + p.username + ", password="@ + p.password + " ]"@
}

/// One identity-provider connection profile.
#[derive(Debug, PartialEq, Eq)]
pub struct KeycloakConfig {
    alias: String,
    url: MyUrl,
    realm: String,
    client_id: String,
    client_secret: String,
    username: String,
    password: String,
    default: bool,
}

impl View for KeycloakConfig {
    type V = KeycloakConfigView;

    closed spec fn view(&self) -> KeycloakConfigView {
        KeycloakConfigView {
            alias: self.alias@,
            url: self.url@,
            realm: self.realm@,
            client_id: self.client_id@,
            client_secret: self.client_secret@,
            username: self.username@,
            password: self.password@,
            default: self.default,
        }
    }
}

impl Clone for KeycloakConfig {
    fn clone(&self) -> (copy: Self)
        ensures
            copy@ == self@,
    {
        proof {
            use_type_invariant(self);
        }
        KeycloakConfig {
            alias: self.alias.clone(),
            url: self.url.clone(),
            realm: self.realm.clone(),
            client_id: self.client_id.clone(),
            client_secret: self.client_secret.clone(),
            username: self.username.clone(),
            password: self.password.clone(),
            default: self.default,
        }
    }
}

impl KeycloakConfig {
    /// Every profile meets the rule of registered profiles.
    #[verifier::type_invariant]
    pub open spec fn wf(&self) -> bool {
        valid_profile(self@)
    }

    /// Builds a profile from user input. Fails on the first required property
    /// that is empty, or on an address that is no absolute URL.
    pub fn new(
        alias: &str,
        url: &str,
        realm: &str,
        client_id: &str,
        client_secret: &str,
        username: &str,
        password: &str,
        default: bool,
    ) -> (made: Result<KeycloakConfig, KeycloakRegistryError>)
        ensures
            result_view(made) == new_profile(
                alias@,
                url@,
                realm@,
                client_id@,
                client_secret@,
                username@,
                password@,
                default,
            ),
    {
        Self::from_parsed(
            alias,
            url,
            MyUrl::parse(url),
            realm,
            client_id,
            client_secret,
            username,
            password,
            default,
        )
    }

    /// Builds a profile from user input and from what the URL parser made of
    /// the address.
    pub fn from_parsed(
        alias: &str,
        url: &str,
        parsed: Result<MyUrl, url::ParseError>,
        realm: &str,
        client_id: &str,
        client_secret: &str,
        username: &str,
        password: &str,
        default: bool,
    ) -> (made: Result<KeycloakConfig, KeycloakRegistryError>)
        ensures
            result_view(made) == profile_from(
                alias@,
                url@,
                address_view(parsed),
                realm@,
                client_id@,
                client_secret@,
                username@,
                password@,
                default,
            ),
    {
        let alias = Self::require_non_empty("alias", alias)?;
        let url = Self::require_url(url, parsed)?;
        let realm = Self::require_non_empty("realm", realm)?;
        let client_id = Self::require_non_empty("client_id", client_id)?;
        let client_secret = client_secret.to_owned();
        let username = Self::require_non_empty("username", username)?;
        let password = Self::require_non_empty("password", password)?;
        Ok(KeycloakConfig { alias, url, realm, client_id, client_secret, username, password, default })
    }

    fn require_non_empty(property: &'static str, value: &str) -> (kept: Result<
        String,
        KeycloakRegistryError,
    >)
        ensures
            match kept {
                Ok(text) => value@.len() > 0 && text@ == value@,
                Err(error) => value@.len() == 0 && error@
                    == RegistryFault::ConfigPropertyCannotBeBlank(property@),
            },
    {
        if value.is_empty() {
            return Err(KeycloakRegistryError::ConfigPropertyCannotBeBlank(property));
        }
        Ok(value.to_owned())
    }

    fn require_url(url: &str, parsed: Result<MyUrl, url::ParseError>) -> (kept: Result<
        MyUrl,
        KeycloakRegistryError,
    >)
        ensures
            match kept {
                Ok(address) => (parsed matches Ok(given) && given@ == address@) && is_url(
                    address@,
                ),
                Err(error) => parsed is Err && error@ == RegistryFault::InvalidKeycloakUrl(url@),
            },
    {
        match parsed {
            Ok(address) => {
                proof {
                    use_type_invariant(&address);
                }
                Ok(address)
            },
            Err(origin) => Err(
                KeycloakRegistryError::InvalidKeycloakUrl { url: url.to_owned(), origin },
            ),
        }
    }

    /// The key under which the registry holds this profile.
    pub fn alias(&self) -> (text: &str)
        ensures
            text@ == self@.alias,
    {
        self.alias.as_str()
    }

    /// The base address of the identity provider.
    pub fn url(&self) -> (url: &MyUrl)
        ensures
            url@ == self@.url,
    {
        &self.url
    }

    /// The realm that holds the user.
    pub fn realm(&self) -> (text: &str)
        ensures
            text@ == self@.realm,
    {
        self.realm.as_str()
    }

    /// The client that asks for the token.
    pub fn client_id(&self) -> (text: &str)
        ensures
            text@ == self@.client_id,
    {
        self.client_id.as_str()
    }

    /// The client's secret; empty for a public client.
    pub fn client_secret(&self) -> (text: &str)
        ensures
            text@ == self@.client_secret,
    {
        self.client_secret.as_str()
    }

    /// The user on whose behalf the token is asked for.
    pub fn username(&self) -> (text: &str)
        ensures
            text@ == self@.username,
    {
        self.username.as_str()
    }

    /// The user's password.
    pub fn password(&self) -> (text: &str)
        ensures
            text@ == self@.password,
    {
        self.password.as_str()
    }

    /// Whether this profile is marked as the default one.
    pub fn is_default(&self) -> (flag: bool)
        ensures
            flag == self@.default,
    {
        self.default
    }

    /// Marks or unmarks this profile as the default one; the registry keeps
    /// the mark in step with its own record of the default alias.
    pub(crate) fn set_default_flag(&mut self, flag: bool)
        ensures
            final(self)@ == (KeycloakConfigView { default: flag, ..old(self)@ }),
    {
        proof {
            use_type_invariant(&*self);
        }
        self.default = flag;
    }

    /// The text that lists this profile.
    pub fn to_string(&self) -> (text: String)
        ensures
            text@ == profile_text(self@),
    {
        let mut text = String::new();
        if self.default {
            text.append("* ");
        }
        text.append("Keycloak '");
        text.append(self.alias.as_str());
        text.append("'");
        text.append(":\n  [ url=");
        text.append(self.url.as_str());
        text.append(", realm=");
        text.append(self.realm.as_str());
        text.append(", client_id=");
        text.append(self.client_id.as_str());
        text.append(", client_secret=");
        text.append(self.client_secret.as_str());
        text.append(", username=");
        text.append(self.username.as_str());
        text.append(", password=");
        text.append(self.password.as_str());
        text.append(" ]");
        text
    }
}

} // verus!
