use curlaut::address::MyUrl;
use curlaut::address::TargetHost;
use curlaut::keycloak::keycloak_config::KeycloakConfig;
use curlaut::keycloak::KeycloakRegistryError;

fn blank(made: Result<KeycloakConfig, KeycloakRegistryError>) -> &'static str {
    match made {
        Err(KeycloakRegistryError::ConfigPropertyCannotBeBlank(property)) => property,
        other => panic!("no blank property: {other:?}"),
    }
}

#[test]
fn new_keeps_what_it_is_given() {
    let config = KeycloakConfig::new(
        "dev",
        "https://kc.example.com/auth/",
        "master",
        "cli",
        "s3cret",
        "admin",
        "pass",
        true,
    )
    .unwrap();
    assert_eq!(config.alias(), "dev");
    assert_eq!(config.url().as_str(), "https://kc.example.com/auth/");
    assert_eq!(config.realm(), "master");
    assert_eq!(config.client_id(), "cli");
    assert_eq!(config.client_secret(), "s3cret");
    assert_eq!(config.username(), "admin");
    assert_eq!(config.password(), "pass");
    assert!(config.is_default());
    assert_eq!(config.clone(), config);
}

#[test]
fn new_keeps_the_address_as_the_parser_writes_it() {
    let config =
        KeycloakConfig::new("dev", "HTTP://LocalHost:80/a/../b", "r", "c", "", "u", "p", false)
            .unwrap();
    assert_eq!(config.url().as_str(), "http://localhost/b");
}

#[test]
fn new_accepts_an_empty_client_secret() {
    let config = KeycloakConfig::new("dev", "http://localhost", "r", "c", "", "u", "p", false);
    assert_eq!(config.unwrap().client_secret(), "");
}

#[test]
fn new_refuses_an_empty_username() {
    let made = KeycloakConfig::new("dev", "http://localhost", "r", "c", "s", "", "p", false);
    assert_eq!(blank(made), "username");
}

#[test]
fn new_refuses_each_empty_required_property() {
    let url = "http://localhost";
    assert_eq!(blank(KeycloakConfig::new("", url, "r", "c", "s", "u", "p", false)), "alias");
    assert_eq!(blank(KeycloakConfig::new("a", url, "", "c", "s", "u", "p", false)), "realm");
    assert_eq!(blank(KeycloakConfig::new("a", url, "r", "", "s", "u", "p", false)), "client_id");
    assert_eq!(blank(KeycloakConfig::new("a", url, "r", "c", "s", "", "p", false)), "username");
    assert_eq!(blank(KeycloakConfig::new("a", url, "r", "c", "s", "u", "", false)), "password");
}

#[test]
fn new_reports_the_first_fault() {
    assert_eq!(blank(KeycloakConfig::new("", "no url", "", "", "", "", "", false)), "alias");
    assert!(matches!(
        KeycloakConfig::new("a", "no url", "", "", "", "", "", false),
        Err(KeycloakRegistryError::InvalidKeycloakUrl { .. })
    ));
    assert_eq!(blank(KeycloakConfig::new("a", "http://x", "", "", "", "", "", false)), "realm");
    assert_eq!(blank(KeycloakConfig::new("a", "http://x", "r", "", "", "", "", false)), "client_id");
    assert_eq!(blank(KeycloakConfig::new("a", "http://x", "r", "c", "", "", "", false)), "username");
}

#[test]
fn new_refuses_an_address_that_is_no_absolute_url() {
    for address in ["", "localhost", "/relative/path", "http://", "http://[::1"] {
        match KeycloakConfig::new("a", address, "r", "c", "s", "u", "p", false) {
            Err(KeycloakRegistryError::InvalidKeycloakUrl { url, .. }) => assert_eq!(url, address),
            other => panic!("{address} gave {other:?}"),
        }
    }
    let relative = KeycloakConfig::new("a", "kc/auth", "r", "c", "s", "u", "p", false);
    assert!(matches!(
        relative,
        Err(KeycloakRegistryError::InvalidKeycloakUrl {
            origin: url::ParseError::RelativeUrlWithoutBase,
            ..
        })
    ));
}

#[test]
fn new_takes_a_host_with_a_port_for_a_scheme_with_a_path() {
    let config = KeycloakConfig::new("a", "localhost:8080", "r", "c", "s", "u", "p", false);
    assert_eq!(config.unwrap().url().as_str(), "localhost:8080");
}

#[test]
fn from_parsed_takes_the_address_that_was_read() {
    let parsed = MyUrl::parse("http://localhost:8080");
    let config =
        KeycloakConfig::from_parsed("a", "anything", parsed, "r", "c", "", "u", "p", false).unwrap();
    assert_eq!(config.url().as_str(), "http://localhost:8080/");
    let refused = KeycloakConfig::from_parsed(
        "a",
        "the input",
        Err(url::ParseError::EmptyHost),
        "r",
        "c",
        "",
        "u",
        "p",
        false,
    );
    assert!(matches!(
        refused,
        Err(KeycloakRegistryError::InvalidKeycloakUrl { url, origin: url::ParseError::EmptyHost })
            if url == "the input"
    ));
}

#[test]
fn to_string_lists_the_profile() {
    let plain = KeycloakConfig::new("dev", "http://kc:8080", "r", "c", "s", "u", "p", false);
    assert_eq!(
        plain.unwrap().to_string(),
        "Keycloak 'dev':\n  [ url=http://kc:8080/, realm=r, client_id=c, client_secret=s, \
         username=u, password=p ]"
    );
    let marked = KeycloakConfig::new("dev", "http://kc:8080", "r", "c", "", "u", "p", true);
    assert_eq!(
        marked.unwrap().to_string(),
        "* Keycloak 'dev':\n  [ url=http://kc:8080/, realm=r, client_id=c, client_secret=, \
         username=u, password=p ]"
    );
}

#[test]
fn urls_are_read_and_joined() {
    let base = MyUrl::parse("https://example.net/a/b.html").unwrap();
    assert_eq!(base.join("c.png").unwrap().as_str(), "https://example.net/a/c.png");
    let base = MyUrl::parse("https://example.net/a/b/").unwrap();
    assert_eq!(base.join("c.png").unwrap().as_str(), "https://example.net/a/b/c.png");
    assert_eq!(base.join("//eve.com/b").unwrap().as_str(), "https://eve.com/b");
    assert!(base.join("http://[").is_err());
    assert!(MyUrl::parse("c.png").is_err());
    assert_eq!(base.clone(), base);
}

#[test]
fn urls_name_host_and_port() {
    let url = MyUrl::parse("https://example.com/api").unwrap();
    assert_eq!(url.host(), Some(TargetHost::Domain("example.com".to_string())));
    assert_eq!(url.port_or_known_default(), Some(443));
    let url = MyUrl::parse("http://127.0.0.1:5000/x").unwrap();
    assert_eq!(url.host(), Some(TargetHost::Ipv4("127.0.0.1".to_string())));
    assert_eq!(url.port_or_known_default(), Some(5000));
    let url = MyUrl::parse("http://[::1]/").unwrap();
    assert_eq!(url.host(), Some(TargetHost::Ipv6("::1".to_string())));
    assert_eq!(url.port_or_known_default(), Some(80));
    let url = MyUrl::parse("foo://example.com").unwrap();
    assert_eq!(url.host(), Some(TargetHost::Domain("example.com".to_string())));
    assert_eq!(url.port_or_known_default(), None);
    let url = MyUrl::parse("data:text/plain,Stuff").unwrap();
    assert_eq!(url.host(), None);
    assert_eq!(url.port_or_known_default(), None);
}
