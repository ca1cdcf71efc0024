use curlaut::auth::authenticator::TokenReply;
use curlaut::auth::AuthError;
use curlaut::auth::AuthResponseFault;
use curlaut::cli::arguments::HttpRequestArgs;
use curlaut::cli::arguments::KeycloakCommand;
use curlaut::cli::auth_mgmt::execute_command;
use curlaut::cli::request_executor::execute_request;
use curlaut::cli::request_executor::resume_request;
use curlaut::cli::request_executor::RequestAction;
use curlaut::cli::request_executor::RequestEvent;
use curlaut::cli::request_executor::RequestStage;
use curlaut::cli::RequestCommandError;
use curlaut::cli::AUTH_CONFIG_FILE;
use curlaut::keycloak::keycloak_config::KeycloakConfig;
use curlaut::keycloak::KeycloakRegistryError;
use curlaut::output::stdio::CurlautStdOutput;
use curlaut::request::request_executor::ExecutionAction;
use curlaut::request::request_executor::ExecutionEvent;
use curlaut::request::request_spec::HttpRequestMethod;
use curlaut::request::RequestExecutionError;

fn profile(alias: &str, url: &str, default: bool) -> KeycloakConfig {
    KeycloakConfig::new(alias, url, "master", "cli", "", "admin", "pass", default).unwrap()
}

fn arguments(url: &str) -> HttpRequestArgs {
    HttpRequestArgs {
        url: url.to_string(),
        headers: vec!["Accept: */*".to_string()],
        json_body: None,
        json_body_file: None,
        http1: false,
        timeout_millis: None,
        insecure: false,
        verbose: true,
    }
}

fn token_reply() -> RequestEvent {
    RequestEvent::Token(TokenReply::Answered {
        status: 200,
        body: Ok(b"{\"access_token\":\"T\"}".to_vec()),
    })
}

/// A command that waits for its token.
fn awaiting_token(args: HttpRequestArgs, io: &mut CurlautStdOutput) -> RequestStage {
    let stored = vec![profile("local", "http://localhost:8080", true)];
    let (stage, action) = execute_request(HttpRequestMethod::POST, args, stored, io);
    assert!(matches!(action, RequestAction::SendTokenRequest(_)));
    io.take_verbose();
    stage
}

fn failure(step: (RequestStage, RequestAction)) -> RequestCommandError {
    assert_eq!(step.1, RequestAction::Stop);
    match step.0 {
        RequestStage::Failed(error) => error,
        _ => panic!("the command did not fail"),
    }
}

#[test]
fn registry_file_lies_below_the_home_directory() {
    assert_eq!(AUTH_CONFIG_FILE, ".curlaut/auth.yaml");
}

#[test]
fn request_command_asks_for_the_token_of_the_default_profile() {
    let mut io = CurlautStdOutput::new();
    let stored = vec![
        profile("first", "http://first.example", false),
        profile("second", "http://second.example/auth/", true),
    ];
    let (stage, action) =
        execute_request(HttpRequestMethod::GET, arguments("http://localhost/x"), stored, &mut io);
    assert!(matches!(stage, RequestStage::AwaitingToken { method: HttpRequestMethod::GET, .. }));
    match action {
        RequestAction::SendTokenRequest(request) => assert_eq!(
            request.url.as_str(),
            "http://second.example/auth/realms/master/protocol/openid-connect/token"
        ),
        other => panic!("no token request: {other:?}"),
    }
    assert!(io.is_verbose());
    assert_eq!(
        io.take_verbose(),
        "Requesting JWT token using POST \
         http://second.example/auth/realms/master/protocol/openid-connect/token\n"
    );
    assert_eq!(io.take_common(), "");
}

#[test]
fn request_command_leaves_verbose_mode_off_unless_asked() {
    let mut io = CurlautStdOutput::new();
    let mut args = arguments("http://localhost/x");
    args.verbose = false;
    let stored = vec![profile("local", "http://localhost:8080", true)];
    let (_, action) = execute_request(HttpRequestMethod::GET, args, stored, &mut io);
    assert!(matches!(action, RequestAction::SendTokenRequest(_)));
    assert!(!io.is_verbose());
    assert_eq!(io.take_verbose(), "");
}

#[test]
fn request_command_needs_a_default_profile() {
    let mut io = CurlautStdOutput::new();
    let stored = vec![profile("local", "http://localhost:8080", false)];
    let step =
        execute_request(HttpRequestMethod::GET, arguments("http://localhost/x"), stored, &mut io);
    assert!(matches!(failure(step), RequestCommandError::NoDefaultKeycloak));
    let step = execute_request(
        HttpRequestMethod::GET,
        arguments("http://localhost/x"),
        Vec::new(),
        &mut io,
    );
    assert!(matches!(failure(step), RequestCommandError::NoDefaultKeycloak));
    assert_eq!(io.take_verbose(), "");
}

#[test]
fn request_command_needs_records_that_make_a_registry() {
    let mut io = CurlautStdOutput::new();
    let stored = vec![
        profile("local", "http://localhost:8080", true),
        profile("local", "http://localhost:8081", false),
    ];
    let step =
        execute_request(HttpRequestMethod::GET, arguments("http://localhost/x"), stored, &mut io);
    assert!(matches!(
        failure(step),
        RequestCommandError::Registry(KeycloakRegistryError::AliasAlreadyExists(alias))
            if alias == "local"
    ));
}

#[test]
fn request_command_needs_a_token_url() {
    let mut io = CurlautStdOutput::new();
    let stored = vec![profile("mail", "mailto:admin@example.com", true)];
    let step =
        execute_request(HttpRequestMethod::GET, arguments("http://localhost/x"), stored, &mut io);
    assert!(matches!(
        failure(step),
        RequestCommandError::Auth(AuthError::TokenUrl { alias, .. }) if alias == "mail"
    ));
    assert_eq!(io.take_verbose(), "");
}

#[test]
fn request_command_stops_without_a_token() {
    let replies = vec![
        TokenReply::Unreachable { cause: "refused".to_string() },
        TokenReply::Answered { status: 401, body: Ok(Vec::new()) },
        TokenReply::Answered { status: 500, body: Err("reset".to_string()) },
        TokenReply::Answered { status: 200, body: Ok(b"{}".to_vec()) },
    ];
    for reply in replies {
        let mut io = CurlautStdOutput::new();
        let stage = awaiting_token(arguments("http://localhost/x"), &mut io);
        let error = failure(resume_request(stage, RequestEvent::Token(reply), &mut io));
        assert!(matches!(error, RequestCommandError::Auth(_)));
        assert_eq!(io.take_verbose(), "");
        assert_eq!(io.take_common(), "");
    }
    let mut io = CurlautStdOutput::new();
    let stage = awaiting_token(arguments("http://localhost/x"), &mut io);
    let reply = TokenReply::Answered { status: 200, body: Ok(b"{\"access_token\":1}".to_vec()) };
    assert!(matches!(
        failure(resume_request(stage, RequestEvent::Token(reply), &mut io)),
        RequestCommandError::Auth(AuthError::MalformedAuthResponse(
            AuthResponseFault::AccessTokenNotString
        ))
    ));
}

#[test]
fn request_command_needs_an_absolute_url_once_it_has_the_token() {
    let mut io = CurlautStdOutput::new();
    let mut args = arguments("api/v1/get");
    args.json_body_file = Some("body.json".to_string());
    let stage = awaiting_token(args, &mut io);
    assert!(matches!(
        failure(resume_request(stage, token_reply(), &mut io)),
        RequestCommandError::InvalidUrl { url, .. } if url == "api/v1/get"
    ));
}

#[test]
fn request_command_reads_the_body_file_after_the_token() {
    let mut io = CurlautStdOutput::new();
    let mut args = arguments("http://10.0.0.1/x");
    args.json_body_file = Some("body.json".to_string());
    let stage = awaiting_token(args, &mut io);
    let (stage, action) = resume_request(stage, token_reply(), &mut io);
    assert_eq!(action, RequestAction::ReadBodyFile("body.json".to_string()));
    assert!(matches!(stage, RequestStage::AwaitingBodyFile { .. }));
    assert_eq!(io.take_verbose(), "");
    let read = RequestEvent::BodyFile(Ok("{\"a\":1}".to_string()));
    let (stage, action) = resume_request(stage, read, &mut io);
    assert!(matches!(stage, RequestStage::Executing { .. }));
    match action {
        RequestAction::Execution(ExecutionAction::Build(plan)) => {
            assert_eq!(plan.method, HttpRequestMethod::POST);
            assert_eq!(plan.body, Some("{\"a\":1}".to_string()));
            assert_eq!(
                plan.headers,
                vec![
                    ("Accept".to_string(), " */*".to_string()),
                    ("authorization".to_string(), "Bearer T".to_string()),
                    ("content-type".to_string(), "application/json".to_string()),
                ]
            );
        }
        other => panic!("no request to build: {other:?}"),
    }
    assert_eq!(io.take_verbose(), "* Host (IPv4): 10.0.0.1\n> POST http://10.0.0.1/x HTTP/1.1\n");
}

#[test]
fn request_command_fails_on_an_unreadable_body_file() {
    let mut io = CurlautStdOutput::new();
    let mut args = arguments("http://10.0.0.1/x");
    args.json_body_file = Some("body.json".to_string());
    let stage = awaiting_token(args, &mut io);
    let (stage, _) = resume_request(stage, token_reply(), &mut io);
    let read = RequestEvent::BodyFile(Err("Can't open body file".to_string()));
    assert!(matches!(
        failure(resume_request(stage, read, &mut io)),
        RequestCommandError::BodyFile { cause } if cause == "Can't open body file"
    ));
}

#[test]
fn request_command_prefers_the_body_of_the_command_line() {
    let mut io = CurlautStdOutput::new();
    let mut args = arguments("http://10.0.0.1/x");
    args.json_body = Some("[]".to_string());
    args.json_body_file = Some("body.json".to_string());
    let stage = awaiting_token(args, &mut io);
    match resume_request(stage, token_reply(), &mut io).1 {
        RequestAction::Execution(ExecutionAction::Build(plan)) => {
            assert_eq!(plan.body, Some("[]".to_string()))
        }
        other => panic!("no request to build: {other:?}"),
    }
}

#[test]
fn request_command_fails_with_the_call() {
    let mut io = CurlautStdOutput::new();
    let stage = awaiting_token(arguments("data:text/plain,Stuff"), &mut io);
    assert!(matches!(
        failure(resume_request(stage, token_reply(), &mut io)),
        RequestCommandError::Request(RequestExecutionError::NoHost)
    ));
    let stage = awaiting_token(arguments("http://example.com/x"), &mut io);
    let (stage, action) = resume_request(stage, token_reply(), &mut io);
    assert!(matches!(action, RequestAction::Execution(ExecutionAction::Resolve { .. })));
    let unresolved =
        RequestEvent::Execution(ExecutionEvent::Resolved(Err("no such host".to_string())));
    assert!(matches!(
        failure(resume_request(stage, unresolved, &mut io)),
        RequestCommandError::Request(RequestExecutionError::FailedToResolveHost { host, cause })
            if host == "example.com" && cause == "no such host"
    ));
}

#[test]
fn request_command_fails_on_a_report_out_of_turn() {
    let mut io = CurlautStdOutput::new();
    let stage = awaiting_token(arguments("http://10.0.0.1/x"), &mut io);
    let early = RequestEvent::Execution(ExecutionEvent::Continue);
    assert!(matches!(
        failure(resume_request(stage, early, &mut io)),
        RequestCommandError::UnexpectedEvent
    ));
    let stage = awaiting_token(arguments("http://10.0.0.1/x"), &mut io);
    let (stage, _) = resume_request(stage, token_reply(), &mut io);
    io.take_verbose();
    assert!(matches!(
        failure(resume_request(stage, token_reply(), &mut io)),
        RequestCommandError::UnexpectedEvent
    ));
    let failed = RequestStage::Failed(RequestCommandError::NoDefaultKeycloak);
    assert!(matches!(
        failure(resume_request(failed, token_reply(), &mut io)),
        RequestCommandError::NoDefaultKeycloak
    ));
    let (stage, action) = resume_request(RequestStage::Finished, token_reply(), &mut io);
    assert!(matches!(stage, RequestStage::Finished));
    assert_eq!(action, RequestAction::Stop);
    assert_eq!(io.take_verbose(), "");
    assert_eq!(io.take_common(), "");
}

#[test]
fn registry_command_fails_before_it_speaks_on_bad_records() {
    let mut io = CurlautStdOutput::new();
    let stored = vec![
        profile("local", "http://localhost:8080", true),
        profile("local", "http://localhost:8081", false),
    ];
    let failed = execute_command(KeycloakCommand::List, stored, &mut io);
    assert!(matches!(
        failed,
        Err(KeycloakRegistryError::AliasAlreadyExists(alias)) if alias == "local"
    ));
    assert_eq!(io.take_common(), "");
}

#[test]
fn registry_command_add_refuses_an_invalid_profile_after_it_spoke() {
    let mut io = CurlautStdOutput::new();
    let add = KeycloakCommand::Add {
        url: "http://localhost:8080".to_string(),
        alias: "local".to_string(),
        realm: "master".to_string(),
        client_id: "cli".to_string(),
        client_secret: String::new(),
        username: String::new(),
        password: "pass".to_string(),
        default: false,
    };
    let failed = execute_command(add, Vec::new(), &mut io);
    assert!(matches!(
        failed,
        Err(KeycloakRegistryError::ConfigPropertyCannotBeBlank("username"))
    ));
    assert_eq!(io.take_common(), "Adding keycloak with alias: local\n");
}

#[test]
fn registry_command_set_default_writes_the_marks_anew() {
    let mut io = CurlautStdOutput::new();
    let stored = vec![
        profile("a", "http://a.example", true),
        profile("b", "http://b.example", false),
    ];
    let command = KeycloakCommand::SetDefault { alias: "b".to_string() };
    let saved = execute_command(command, stored, &mut io).unwrap().unwrap();
    assert_eq!(
        saved,
        vec![profile("a", "http://a.example", false), profile("b", "http://b.example", true)]
    );
    assert_eq!(io.take_common(), "Set keycloak by default alias b\n");
}

#[test]
fn registry_command_remove_of_an_unknown_alias_writes_the_records_as_they_are() {
    let mut io = CurlautStdOutput::new();
    let stored = vec![profile("a", "http://a.example", true)];
    let command = KeycloakCommand::Remove { alias: "b".to_string() };
    let saved = execute_command(command, stored.clone(), &mut io).unwrap().unwrap();
    assert_eq!(saved, stored);
    assert_eq!(io.take_common(), "Removing keycloak by alias b\n");
}

#[test]
fn registry_command_list_lists_in_order() {
    let mut io = CurlautStdOutput::new();
    let stored = vec![
        profile("b", "http://b.example", false),
        profile("a", "http://a.example", true),
    ];
    assert!(execute_command(KeycloakCommand::List, stored, &mut io).unwrap().is_none());
    assert_eq!(
        io.take_common(),
        "Keycloak 'b':\n  [ url=http://b.example/, realm=master, client_id=cli, client_secret=, \
         username=admin, password=pass ]\n\
         * Keycloak 'a':\n  [ url=http://a.example/, realm=master, client_id=cli, client_secret=, \
         username=admin, password=pass ]\n"
    );
    assert!(execute_command(KeycloakCommand::List, Vec::new(), &mut io).unwrap().is_none());
    assert_eq!(io.take_common(), "");
}
