use curlaut::address::MyUrl;
use curlaut::auth::authenticator::build_token_url;
use curlaut::auth::authenticator::directory_url;
use curlaut::auth::authenticator::get_jwt;
use curlaut::auth::authenticator::jwt_request;
use curlaut::auth::authenticator::read_access_token;
use curlaut::auth::authenticator::token_request_for;
use curlaut::auth::authenticator::JsonField;
use curlaut::auth::authenticator::JwtToken;
use curlaut::auth::authenticator::TokenReply;
use curlaut::auth::authenticator::TOKEN_REQUEST_TIMEOUT_SECS;
use curlaut::auth::AuthError;
use curlaut::auth::AuthResponseFault;
use curlaut::auth::HttpAuthorization;
use curlaut::keycloak::keycloak_config::KeycloakConfig;
use curlaut::output::stdio::CurlautStdOutput;
use curlaut::output::CurlautOutput;

fn profile(url: &str, realm: &str) -> KeycloakConfig {
    KeycloakConfig::new("dev", url, realm, "cli", "s3cret", "admin", "pass", false).unwrap()
}

fn answered(status: u16, body: &str) -> TokenReply {
    TokenReply::Answered { status, body: Ok(body.as_bytes().to_vec()) }
}

fn malformed(reply: TokenReply) -> AuthResponseFault {
    match get_jwt(reply) {
        Err(AuthError::MalformedAuthResponse(fault)) => fault,
        other => panic!("no malformed answer: {other:?}"),
    }
}

#[test]
fn token_url_is_joined_to_the_base() {
    let with_slash = MyUrl::parse("http://localhost:8080/").unwrap();
    assert_eq!(
        build_token_url(&with_slash, "master").unwrap().as_str(),
        "http://localhost:8080/realms/master/protocol/openid-connect/token"
    );
    let without_slash = MyUrl::parse("http://localhost:8080").unwrap();
    assert_eq!(
        build_token_url(&without_slash, "master").unwrap().as_str(),
        "http://localhost:8080/realms/master/protocol/openid-connect/token"
    );
    let below = MyUrl::parse("https://kc.example.com/auth/").unwrap();
    assert_eq!(
        build_token_url(&below, "my realm").unwrap().as_str(),
        "https://kc.example.com/auth/realms/my%20realm/protocol/openid-connect/token"
    );
}

#[test]
fn token_url_stands_below_the_whole_path_of_the_base() {
    let expected = "http://localhost:8080/auth/realms/master/protocol/openid-connect/token";
    let without_slash = MyUrl::parse("http://localhost:8080/auth").unwrap();
    assert_eq!(build_token_url(&without_slash, "master").unwrap().as_str(), expected);
    let with_slash = MyUrl::parse("http://localhost:8080/auth/").unwrap();
    assert_eq!(build_token_url(&with_slash, "master").unwrap().as_str(), expected);
    let deeper = MyUrl::parse("https://kc.example.com/a/b").unwrap();
    assert_eq!(
        build_token_url(&deeper, "r").unwrap().as_str(),
        "https://kc.example.com/a/b/realms/r/protocol/openid-connect/token"
    );
}

#[test]
fn directory_url_adds_the_slash_that_is_missing() {
    let without_slash = MyUrl::parse("http://localhost:8080/auth").unwrap();
    assert_eq!(directory_url(&without_slash).unwrap().as_str(), "http://localhost:8080/auth/");
    let with_slash = MyUrl::parse("http://localhost:8080/auth/").unwrap();
    assert_eq!(directory_url(&with_slash).unwrap().as_str(), "http://localhost:8080/auth/");
    let bare = MyUrl::parse("http://localhost:8080").unwrap();
    assert_eq!(directory_url(&bare).unwrap().as_str(), "http://localhost:8080/");
}

#[test]
fn token_url_fails_where_the_base_cannot_be_one() {
    let mail = MyUrl::parse("mailto:admin@example.com").unwrap();
    assert!(matches!(
        build_token_url(&mail, "master"),
        Err(url::ParseError::RelativeUrlWithCannotBeABaseBase)
    ));
}

#[test]
fn jwt_request_is_the_password_grant() {
    let mut io = CurlautStdOutput::new();
    io.enable_verbose();
    let request = jwt_request(&profile("http://localhost:8080", "master"), &mut io).unwrap();
    assert_eq!(
        request.url.as_str(),
        "http://localhost:8080/realms/master/protocol/openid-connect/token"
    );
    let form: Vec<(&str, &str)> =
        request.form.iter().map(|(name, value)| (name.as_str(), value.as_str())).collect();
    assert_eq!(
        form,
        vec![
            ("grant_type", "password"),
            ("client_id", "cli"),
            ("client_secret", "s3cret"),
            ("username", "admin"),
            ("password", "pass"),
            ("scope", "openid profile email"),
        ]
    );
    assert_eq!(request.timeout_secs, 60);
    assert_eq!(TOKEN_REQUEST_TIMEOUT_SECS, 60);
    assert_eq!(
        io.take_verbose(),
        "Requesting JWT token using POST \
         http://localhost:8080/realms/master/protocol/openid-connect/token\n"
    );
    assert_eq!(io.take_common(), "");
}

#[test]
fn jwt_request_keeps_the_secrets_out_of_the_trace() {
    let mut io = CurlautStdOutput::new();
    io.enable_verbose();
    jwt_request(&profile("http://localhost:8080", "master"), &mut io).unwrap();
    let trace = io.take_verbose();
    assert!(!trace.contains("s3cret"));
    assert!(!trace.contains("pass"));
}

#[test]
fn jwt_request_is_silent_unless_verbose() {
    let mut io = CurlautStdOutput::new();
    jwt_request(&profile("http://localhost:8080", "master"), &mut io).unwrap();
    assert_eq!(io.take_verbose(), "");
    assert_eq!(io.take_common(), "");
}

#[test]
fn jwt_request_fails_where_no_token_url_can_be_built() {
    let mut io = CurlautStdOutput::new();
    io.enable_verbose();
    let failed = jwt_request(&profile("mailto:admin@example.com", "master"), &mut io);
    assert!(matches!(
        failed,
        Err(AuthError::TokenUrl { alias, origin: url::ParseError::RelativeUrlWithCannotBeABaseBase })
            if alias == "dev"
    ));
    assert_eq!(io.take_verbose(), "");
    let failed = token_request_for(
        &profile("http://localhost", "master"),
        Err(url::ParseError::Overflow),
        &mut io,
    );
    assert!(matches!(
        failed,
        Err(AuthError::TokenUrl { alias, origin: url::ParseError::Overflow }) if alias == "dev"
    ));
    assert_eq!(io.take_verbose(), "");
}

#[test]
fn token_request_for_goes_to_the_address_given() {
    let mut io = CurlautStdOutput::new();
    io.enable_verbose();
    let url = MyUrl::parse("https://elsewhere.example/token").unwrap();
    let request =
        token_request_for(&profile("http://localhost", "master"), Ok(url), &mut io).unwrap();
    assert_eq!(request.url.as_str(), "https://elsewhere.example/token");
    assert_eq!(request.form.len(), 6);
    assert_eq!(
        io.take_verbose(),
        "Requesting JWT token using POST https://elsewhere.example/token\n"
    );
}

#[test]
fn get_jwt_reads_the_access_token() {
    let token = get_jwt(answered(200, "{\"access_token\":\"T\"}")).unwrap();
    assert_eq!(token, JwtToken { token_value: "T".to_string() });
    assert_eq!(token.to_string(), "T");
    assert_eq!(token.get_authorization_value(), "T");
    let token = get_jwt(answered(
        299,
        "{\"token_type\":\"Bearer\",\"expires_in\":300,\"access_token\":\"a.b.c\"}",
    ));
    assert_eq!(token.unwrap().token_value, "a.b.c");
    let token = get_jwt(answered(201, "{\"access_token\":\"A\",\"access_token\":\"B\"}"));
    assert_eq!(token.unwrap().token_value, "B");
}

#[test]
fn get_jwt_fails_on_a_status_outside_2xx() {
    for status in [100, 199, 300, 302, 401, 403, 500, 503, 999] {
        assert!(matches!(
            get_jwt(answered(status, "{\"access_token\":\"T\"}")),
            Err(AuthError::AuthenticationFailed { status: seen }) if seen == status
        ));
    }
    let unread = TokenReply::Answered { status: 401, body: Err("reset".to_string()) };
    assert!(matches!(get_jwt(unread), Err(AuthError::AuthenticationFailed { status: 401 })));
}

#[test]
fn get_jwt_fails_on_an_answer_without_a_token() {
    assert_eq!(malformed(answered(200, "")), AuthResponseFault::NotJson);
    assert_eq!(malformed(answered(200, "<html>")), AuthResponseFault::NotJson);
    assert_eq!(malformed(answered(200, "[\"access_token\"]")), AuthResponseFault::NotJson);
    assert_eq!(malformed(answered(200, "\"access_token\"")), AuthResponseFault::NotJson);
    assert_eq!(malformed(answered(200, "{\"access_token\":\"T\"} x")), AuthResponseFault::NotJson);
    let not_utf8 = TokenReply::Answered {
        status: 200,
        body: Ok(vec![b'{', b'"', 0xff, b'"', b':', b'1', b'}']),
    };
    assert_eq!(malformed(not_utf8), AuthResponseFault::NotJson);
    assert_eq!(malformed(answered(200, "{}")), AuthResponseFault::MissingAccessToken);
    assert_eq!(
        malformed(answered(200, "{\"Access_Token\":\"T\"}")),
        AuthResponseFault::MissingAccessToken
    );
    assert_eq!(
        malformed(answered(200, "{\"access_token\":5}")),
        AuthResponseFault::AccessTokenNotString
    );
    assert_eq!(
        malformed(answered(200, "{\"access_token\":null}")),
        AuthResponseFault::AccessTokenNotString
    );
    assert_eq!(
        malformed(answered(200, "{\"access_token\":{\"value\":\"T\"}}")),
        AuthResponseFault::AccessTokenNotString
    );
}

#[test]
fn get_jwt_fails_where_the_provider_was_not_reached() {
    let reply = TokenReply::Unreachable { cause: "connection refused".to_string() };
    assert!(matches!(
        get_jwt(reply),
        Err(AuthError::AuthTransportError { cause }) if cause == "connection refused"
    ));
    let reply = TokenReply::Answered { status: 200, body: Err("timed out".to_string()) };
    assert!(matches!(
        get_jwt(reply),
        Err(AuthError::AuthTransportError { cause }) if cause == "timed out"
    ));
}

#[test]
fn read_access_token_tells_the_fields_apart() {
    assert_eq!(
        read_access_token(JsonField::Text("T".to_string())).unwrap(),
        JwtToken { token_value: "T".to_string() }
    );
    assert_eq!(read_access_token(JsonField::Text(String::new())).unwrap().token_value, "");
    assert!(matches!(
        read_access_token(JsonField::NoObject),
        Err(AuthError::MalformedAuthResponse(AuthResponseFault::NotJson))
    ));
    assert!(matches!(
        read_access_token(JsonField::Missing),
        Err(AuthError::MalformedAuthResponse(AuthResponseFault::MissingAccessToken))
    ));
    assert!(matches!(
        read_access_token(JsonField::NotText),
        Err(AuthError::MalformedAuthResponse(AuthResponseFault::AccessTokenNotString))
    ));
}
