//! The request commands: from the arguments and the registry to the token
//! request, and from the token to the call of the target server.

use vstd::prelude::*;
use vstd::string::StrSliceExecFns;
use crate::address::url_serialization;
use crate::address::MyUrl;
use crate::auth::authenticator::JwtToken;
use crate::auth::authenticator::get_jwt;
use crate::auth::authenticator::jwt_of;
use crate::auth::authenticator::jwt_request;
use crate::auth::authenticator::jwt_request_of;
use crate::auth::authenticator::token_request_trace;
use crate::auth::authenticator::TokenReply;
use crate::auth::authenticator::TokenRequest;
use crate::cli::arguments::HttpRequestArgs;
use crate::cli::RequestCommandError;
use crate::cli::RequestCommandFault;
use crate::keycloak::keycloak_config::KeycloakConfig;
use crate::keycloak::keycloak_config::KeycloakConfigView;
use crate::keycloak::keycloak_registry::record_views;
use crate::keycloak::keycloak_registry::KeycloakRegistry;
use crate::keycloak::registry_view::RegistryView;
use crate::output::gated;
use crate::output::lemma_wrote_nothing;
use crate::output::wrote;
use crate::output::CurlautOutput;
use crate::request::request_executor::execute;
use crate::request::request_executor::resume;
use crate::request::request_executor::resumed;
use crate::request::request_executor::started;
use crate::request::request_executor::ExecutionAction;
use crate::request::request_executor::ExecutionEvent;
use crate::request::request_executor::ExecutionState;
use crate::request::request_spec::with_header;
use crate::request::request_spec::HttpRequestBody;
use crate::request::request_spec::HttpRequestHeaders;
use crate::request::request_spec::HttpRequestMethod;
use crate::request::request_spec::HttpRequestSpec;
use crate::request::request_spec::HttpRequestSpecView;
use crate::text::text_views;

verus! {

/// The milliseconds after which a call is given up where the user names no
/// timeout.
pub const DEFAULT_TIMEOUT_MILLIS: u64 = 60000;

/// Whether `i` is the place of the first colon of the line.
pub open spec fn is_first_colon(line: Seq<char>, i: int) -> bool {
    &&& 0 <= i < line.len()
    &&& line[i] == ':'
    &&& forall|j: int| 0 <= j < i ==> line[j] != ':'
}

/// Name and value of a header line: what stands before its first colon, and
/// what stands behind it, blanks included. A line without a colon is no
/// header.
pub open spec fn split_header(line: Seq<char>) -> Option<(Seq<char>, Seq<char>)> {
    if exists|i: int| is_first_colon(line, i) {
        let i = choose|i: int| is_first_colon(line, i);
        Some((line.take(i), line.skip(i + 1)))
    } else {
        None
    }
}

/// The headers that the lines give: each line that is a header gives its
/// name its value, a later line overriding an earlier one of the same name.
pub open spec fn parsed_headers(lines: Seq<Seq<char>>) -> Seq<(Seq<char>, Seq<char>)>
    decreases lines.len(),
{
    if lines.len() == 0 {
        Seq::empty()
    } else {
        let before = parsed_headers(lines.drop_last());
        match split_header(lines.last()) {
            Some((name, value)) => with_header(before, name, value),
            None => before,
        }
    }
}

/// Splits a header line at its first colon.
pub fn split_header_line(line: &str) -> (parts: Option<(String, String)>)
    ensures
        match parts {
            Some((name, value)) => split_header(line@) == Some((name@, value@)),
            None => split_header(line@) is None,
        },
{
    let length = line.unicode_len();
    let mut i: usize = 0;
    while i < length
        invariant
            i <= length,
            length == line@.len(),
            forall|j: int| 0 <= j < i ==> line@[j] != ':',
        decreases length - i,
    {
        if line.get_char(i) == ':' {
            proof {
                assert(is_first_colon(line@, i as int));
                assert((choose|k: int| is_first_colon(line@, k)) == i);
            }
            let name = line.substring_char(0, i).to_owned();
            let value = line.substring_char(i + 1, length).to_owned();
            return Some((name, value));
        }
        i += 1;
    }
    None
}

/// Reads the headers that the user gave, each as `Name: Value`. A line
/// without a colon is passed over; of two lines with the same name the later
/// one counts.
pub fn parse_headers(headers: &Vec<String>) -> (parsed: HttpRequestHeaders)
    ensures
        parsed@ == parsed_headers(text_views(headers@)),
{
    let ghost lines = text_views(headers@);
    let mut parsed = HttpRequestHeaders::new();
    let mut i: usize = 0;
    while i < headers.len()
        invariant
            i <= headers.len(),
            lines == text_views(headers@),
            parsed@ == parsed_headers(lines.take(i as int)),
        decreases headers.len() - i,
    {
        proof {
            assert(lines.take(i + 1).drop_last() =~= lines.take(i as int));
        }
        match split_header_line(headers[i].as_str()) {
            Some((name, value)) => {
                parsed.insert(name, value);
            },
            None => {},
        }
        i += 1;
    }
    proof {
        assert(lines.take(i as int) =~= lines);
    }
    parsed
}

/// Where the body of the request comes from.
#[derive(Debug, PartialEq, Eq)]
pub enum BodySource {
    /// The body is at hand.
    Ready(HttpRequestBody),
    /// The body is what this file holds.
    File(String),
}

/// Finds the body of the request: the JSON text of the command line where
/// one is given, else the content of the body file where one is named, else
/// none.
pub fn get_body(args: &HttpRequestArgs) -> (source: BodySource)
    ensures
        match args.json_body {
            Some(json) => source matches BodySource::Ready(body) && body@ == Some(json@),
            None => match args.json_body_file {
                Some(path) => source matches BodySource::File(named) && named@ == path@,
                None => source matches BodySource::Ready(body) && body@ is None,
            },
        },
{
    match &args.json_body {
        Some(json) => BodySource::Ready(HttpRequestBody::Json(json.clone())),
        None => match &args.json_body_file {
            Some(path) => BodySource::File(path.clone()),
            None => BodySource::Ready(HttpRequestBody::Empty),
        },
    }
}

/// The body that a file gave, or the fault where the file could not be read.
pub fn get_body_from_file(read: Result<String, String>) -> (body: Result<
    HttpRequestBody,
    RequestCommandError,
>)
    ensures
        match read {
            Ok(text) => body matches Ok(json) && json@ == Some(text@),
            Err(cause) => body matches Err(error) && error@ == RequestCommandFault::BodyFile(
                cause@,
            ),
        },
{
    match read {
        Ok(buffer) => Ok(HttpRequestBody::Json(buffer)),
        Err(cause) => Err(RequestCommandError::BodyFile { cause }),
    }
}

/// The timeout of a call: what the user named, else the default.
pub open spec fn timeout_of(timeout_millis: Option<u64>) -> u64 {
    match timeout_millis {
        Some(millis) => millis,
        None => DEFAULT_TIMEOUT_MILLIS,
    }
}

/// The description of the call that the arguments ask for, to the address as
/// the URL parser serialized it.
pub open spec fn request_of(
    args: HttpRequestArgs,
    method: HttpRequestMethod,
    token: Seq<char>,
    body: Option<Seq<char>>,
    url: Seq<char>,
) -> HttpRequestSpecView {
    HttpRequestSpecView {
        url,
        method,
        headers: parsed_headers(text_views(args.headers@)),
        body,
        authorization: token,
        http1: args.http1,
        timeout: timeout_of(args.timeout_millis),
        insecure: args.insecure,
    }
}

/// Describes the call that the arguments ask for. Fails where the address is
/// no absolute URL.
pub fn build_request_spec(
    args: &HttpRequestArgs,
    method: HttpRequestMethod,
    auth: JwtToken,
    body: HttpRequestBody,
) -> (built: Result<HttpRequestSpec<JwtToken>, RequestCommandError>)
    ensures
        match url_serialization(args.url@) {
            Some(url) => built matches Ok(request_spec) && request_spec@ == request_of(
                *args,
                method,
                auth@,
                body@,
                url,
            ),
            None => built matches Err(error) && error@ == RequestCommandFault::InvalidUrl(
                args.url@,
            ),
        },
{
    match MyUrl::parse(args.url.as_str()) {
        Ok(url) => Ok(describe_request(args, method, auth, body, url)),
        Err(origin) => Err(RequestCommandError::InvalidUrl { url: args.url.clone(), origin }),
    }
}

/// Describes the call that the arguments ask for, to an address that the URL
/// parser has read.
pub fn describe_request(
    args: &HttpRequestArgs,
    method: HttpRequestMethod,
    auth: JwtToken,
    body: HttpRequestBody,
    url: MyUrl,
) -> (request_spec: HttpRequestSpec<JwtToken>)
    ensures
        request_spec@ == request_of(*args, method, auth@, body@, url@),
{
    let timeout: u64 = match args.timeout_millis {
        Some(millis) => millis,
        None => DEFAULT_TIMEOUT_MILLIS,
    };
    HttpRequestSpec {
        url,
        method,
        headers: parse_headers(&args.headers),
        body,
        authorization: auth,
        http1: args.http1,
        timeout,
        insecure: args.insecure,
    }
}

/// How far a request command has come.
pub enum RequestStage {
    /// The token request is out; the reply is awaited.
    AwaitingToken { method: HttpRequestMethod, args: HttpRequestArgs },
    /// The token is at hand; the content of the body file is awaited.
    AwaitingBodyFile { method: HttpRequestMethod, args: HttpRequestArgs, token: JwtToken },
    /// The target server is being called.
    Executing { request_spec: HttpRequestSpec<JwtToken>, state: ExecutionState },
    /// The body of the answer went to the normal stream.
    Finished,
    /// The command failed.
    Failed(RequestCommandError),
}

/// What the program reports back.
#[derive(Debug, PartialEq, Eq)]
pub enum RequestEvent {
    /// How the token request ended.
    Token(TokenReply),
    /// The content of the body file, or why it could not be read.
    BodyFile(Result<String, String>),
    /// What happened in the call of the target server.
    Execution(ExecutionEvent),
}

/// What the program has to do next.
#[derive(Debug, PartialEq, Eq)]
pub enum RequestAction {
    /// Send the token request and report `Token`.
    SendTokenRequest(TokenRequest),
    /// Read the file and report `BodyFile`.
    ReadBodyFile(String),
    /// Do this for the call of the target server and report `Execution`.
    Execution(ExecutionAction),
    /// Stop: the command is finished or has failed.
    Stop,
}

/// Whether the step stopped the command as failed with that fault.
pub open spec fn gave_up(step: (RequestStage, RequestAction), fault: RequestCommandFault) -> bool {
    (step.0 matches RequestStage::Failed(error) && error@ == fault) && step.1 is Stop
}

/// The step of the call of the target server that a step of the command
/// stands for.
pub open spec fn call_step(step: (RequestStage, RequestAction)) -> (ExecutionState, ExecutionAction) {
    match step.0 {
        RequestStage::Executing { request_spec, state } => (
            state,
            match step.1 {
                RequestAction::Execution(action) => action,
                _ => ExecutionAction::Stop,
            },
        ),
        RequestStage::Finished => (ExecutionState::Done, ExecutionAction::Stop),
        RequestStage::Failed(RequestCommandError::Request(error)) => (
            ExecutionState::Failed(error),
            ExecutionAction::Stop,
        ),
        _ => (ExecutionState::Idle, ExecutionAction::Stop),
    }
}

/// Whether a step of the command stands for a step of the call described by
/// `request_spec`: a call that goes on is carried along with its
/// description, a call that is done finishes the command, a call that failed
/// fails it.
pub open spec fn carries_call(
    step: (RequestStage, RequestAction),
    request_spec: HttpRequestSpecView,
) -> bool {
    match step.0 {
        RequestStage::Executing { request_spec: held, state } => held@ == request_spec && !(state
            is Done) && !(state is Failed) && step.1 is Execution,
        RequestStage::Finished => step.1 is Stop,
        RequestStage::Failed(RequestCommandError::Request(_)) => step.1 is Stop,
        _ => false,
    }
}

/// Wraps a step of the call into a step of the command.
fn carry(request_spec: HttpRequestSpec<JwtToken>, step: (ExecutionState, ExecutionAction)) -> (carried:
    (RequestStage, RequestAction))
    requires
        step.0 is Done || step.0 is Failed ==> step.1 is Stop,
    ensures
        carries_call(carried, request_spec@),
        call_step(carried) == step,
{
    match step.0 {
        ExecutionState::Done => (RequestStage::Finished, RequestAction::Stop),
        ExecutionState::Failed(error) => (
            RequestStage::Failed(RequestCommandError::Request(error)),
            RequestAction::Stop,
        ),
        state => (
            RequestStage::Executing { request_spec, state },
            RequestAction::Execution(step.1),
        ),
    }
}

/// The step that stops the command as failed.
fn give_up(error: RequestCommandError) -> (step: (RequestStage, RequestAction))
    ensures
        gave_up(step, error@),
{
    (RequestStage::Failed(error), RequestAction::Stop)
}

/// Describes the call and starts it.
fn begin<O: CurlautOutput>(
    args: &HttpRequestArgs,
    method: HttpRequestMethod,
    token: JwtToken,
    body: HttpRequestBody,
    io: &mut O,
) -> (step: (RequestStage, RequestAction))
    ensures
        match url_serialization(args.url@) {
            Some(url) => carries_call(step, request_of(*args, method, token@, body@, url))
                && started(
                request_of(*args, method, token@, body@, url),
                call_step(step),
                old(io),
                final(io),
            ),
            None => gave_up(step, RequestCommandFault::InvalidUrl(args.url@)) && wrote(
                old(io),
                final(io),
                Seq::empty(),
                Seq::empty(),
            ),
        },
{
    proof {
        lemma_wrote_nothing(&*io);
    }
    match build_request_spec(args, method, token, body) {
        Ok(request_spec) => {
            let step = execute(&request_spec, io);
            carry(request_spec, step)
        },
        Err(error) => give_up(error),
    }
}

/// Whether `after` is `before` with verbose mode on where `enable` asks for
/// it, and with `verbose` offered to the diagnostic stream after that.
pub open spec fn wrote_after_enabling<O: CurlautOutput>(
    before: &O,
    after: &O,
    enable: bool,
    verbose: Seq<char>,
) -> bool {
    &&& after.verbose_enabled() == (before.verbose_enabled() || enable)
    &&& after.common_text() == before.common_text()
    &&& after.verbose_text() == before.verbose_text() + gated(
        before.verbose_enabled() || enable,
        verbose,
    )
}

/// Whether the step asks for that token request to be sent, the command
/// waiting for the token with its method and arguments.
pub open spec fn asks_for_token(
    step: (RequestStage, RequestAction),
    method: HttpRequestMethod,
    args: HttpRequestArgs,
    request: crate::auth::authenticator::TokenRequestView,
) -> bool {
    &&& step.0 matches RequestStage::AwaitingToken { method: kept_method, args: kept_args }
    &&& kept_method == method
    &&& kept_args == args
    &&& step.1 matches RequestAction::SendTokenRequest(asked)
    &&& asked@ == request
}

/// What `execute_request` does. Verbose mode is switched on where the
/// arguments ask for it. Records that make no registry, a registry without a
/// default profile, and a profile for which no token address can be built
/// fail the command. Otherwise the token request for the default profile is
/// announced on the diagnostic stream and asked to be sent.
pub open spec fn request_started<O: CurlautOutput>(
    method: HttpRequestMethod,
    args: HttpRequestArgs,
    records: Seq<KeycloakConfigView>,
    step: (RequestStage, RequestAction),
    before: &O,
    after: &O,
) -> bool {
    match RegistryView::load(records) {
        Err(fault) => gave_up(step, RequestCommandFault::Registry(fault)) && wrote_after_enabling(
            before,
            after,
            args.verbose,
            Seq::empty(),
        ),
        Ok(registry) => match registry.get_default() {
            None => gave_up(step, RequestCommandFault::NoDefaultKeycloak) && wrote_after_enabling(
                before,
                after,
                args.verbose,
                Seq::empty(),
            ),
            Some(profile) => match jwt_request_of(profile) {
                Err(fault) => gave_up(step, RequestCommandFault::Auth(fault))
                    && wrote_after_enabling(before, after, args.verbose, Seq::empty()),
                Ok(request) => asks_for_token(step, method, args, request)
                    && wrote_after_enabling(
                    before,
                    after,
                    args.verbose,
                    token_request_trace(request.url),
                ),
            },
        },
    }
}

/// Starts a request command on the records of the registry file.
pub fn execute_request<O: CurlautOutput>(
    method: HttpRequestMethod,
    args: HttpRequestArgs,
    keycloak_configs: Vec<KeycloakConfig>,
    io: &mut O,
) -> (step: (RequestStage, RequestAction))
    ensures
        request_started(method, args, record_views(keycloak_configs@), step, old(io), final(io)),
{
    if args.verbose {
        io.enable_verbose();
    }
    let keycloak_registry = match KeycloakRegistry::load_from_file(keycloak_configs) {
        Ok(registry) => registry,
        Err(error) => {
            return give_up(RequestCommandError::Registry(error));
        },
    };
    let keycloak_config = match keycloak_registry.get_default() {
        Some(config) => config,
        None => {
            return give_up(RequestCommandError::NoDefaultKeycloak);
        },
    };
    match jwt_request(keycloak_config, io) {
        Ok(request) => (
            RequestStage::AwaitingToken { method, args },
            RequestAction::SendTokenRequest(request),
        ),
        Err(error) => give_up(RequestCommandError::Auth(error)),
    }
}

/// Whether the step asks for that file to be read, the command waiting for
/// its content with method, arguments and token.
pub open spec fn asks_for_body_file(
    step: (RequestStage, RequestAction),
    method: HttpRequestMethod,
    args: HttpRequestArgs,
    token: Seq<char>,
    path: Seq<char>,
) -> bool {
    &&& step.0 matches RequestStage::AwaitingBodyFile {
        method: kept_method,
        args: kept_args,
        token: kept_token,
    }
    &&& kept_method == method
    &&& kept_args == args
    &&& kept_token@ == token
    &&& step.1 matches RequestAction::ReadBodyFile(asked)
    &&& asked@ == path
}

/// Whether the step starts the call that the arguments ask for, with that
/// token and body; an address that is no absolute URL fails the command.
pub open spec fn call_begun<O: CurlautOutput>(
    args: HttpRequestArgs,
    method: HttpRequestMethod,
    token: Seq<char>,
    body: Option<Seq<char>>,
    step: (RequestStage, RequestAction),
    before: &O,
    after: &O,
) -> bool {
    match url_serialization(args.url@) {
        Some(url) => carries_call(step, request_of(args, method, token, body, url)) && started(
            request_of(args, method, token, body, url),
            call_step(step),
            before,
            after,
        ),
        None => gave_up(step, RequestCommandFault::InvalidUrl(args.url@)) && wrote(
            before,
            after,
            Seq::empty(),
            Seq::empty(),
        ),
    }
}

/// What `resume_request` does with a stage and a report.
///
/// - Awaiting the token, on the reply: a reply without a token fails the
///   command, so that the target server is never called. With the token at
///   hand, an address that is no absolute URL fails the command; else the
///   body file is asked for where the body is to come from one, and otherwise
///   the call of the target server starts.
/// - Awaiting the body file, on its content: the call of the target server
///   starts with that body. A file that could not be read fails the command.
/// - Executing, on a report of the call: the call goes one step further.
/// - A command that is finished or has failed stays so. Any other report
///   fails the command as unexpected.
pub open spec fn request_resumed<O: CurlautOutput>(
    stage: RequestStage,
    event: RequestEvent,
    step: (RequestStage, RequestAction),
    before: &O,
    after: &O,
) -> bool {
    match stage {
        RequestStage::AwaitingToken { method, args } => match event {
            RequestEvent::Token(reply) => match jwt_of(reply@) {
                Err(fault) => gave_up(step, RequestCommandFault::Auth(fault)) && wrote(
                    before,
                    after,
                    Seq::empty(),
                    Seq::empty(),
                ),
                Ok(token) => if url_serialization(args.url@) is Some && args.json_body is None
                    && args.json_body_file is Some {
                    asks_for_body_file(step, method, args, token, args.json_body_file->0@)
                        && wrote(before, after, Seq::empty(), Seq::empty())
                } else {
                    call_begun(
                        args,
                        method,
                        token,
                        match args.json_body {
                            Some(json) => Some(json@),
                            None => None,
                        },
                        step,
                        before,
                        after,
                    )
                },
            },
            _ => gave_up(step, RequestCommandFault::UnexpectedEvent) && wrote(
                before,
                after,
                Seq::empty(),
                Seq::empty(),
            ),
        },
        RequestStage::AwaitingBodyFile { method, args, token } => match event {
            RequestEvent::BodyFile(Ok(text)) => call_begun(
                args,
                method,
                token@,
                Some(text@),
                step,
                before,
                after,
            ),
            RequestEvent::BodyFile(Err(cause)) => gave_up(
                step,
                RequestCommandFault::BodyFile(cause@),
            ) && wrote(before, after, Seq::empty(), Seq::empty()),
            _ => gave_up(step, RequestCommandFault::UnexpectedEvent) && wrote(
                before,
                after,
                Seq::empty(),
                Seq::empty(),
            ),
        },
        RequestStage::Executing { request_spec, state } => match event {
            RequestEvent::Execution(report) => carries_call(step, request_spec@) && resumed(
                request_spec@,
                state,
                report,
                call_step(step),
                before,
                after,
            ),
            _ => gave_up(step, RequestCommandFault::UnexpectedEvent) && wrote(
                before,
                after,
                Seq::empty(),
                Seq::empty(),
            ),
        },
        RequestStage::Finished => step.0 is Finished && step.1 is Stop && wrote(
            before,
            after,
            Seq::empty(),
            Seq::empty(),
        ),
        RequestStage::Failed(error) => gave_up(step, error@) && wrote(
            before,
            after,
            Seq::empty(),
            Seq::empty(),
        ),
    }
}

/// Takes a request command one step further on what the program reports.
pub fn resume_request<O: CurlautOutput>(stage: RequestStage, event: RequestEvent, io: &mut O) -> (step:
    (RequestStage, RequestAction))
    ensures
        request_resumed(stage, event, step, old(io), final(io)),
{
    proof {
        lemma_wrote_nothing(&*io);
    }
    match stage {
        RequestStage::AwaitingToken { method, args } => match event {
            RequestEvent::Token(reply) => {
                let token = match get_jwt(reply) {
                    Ok(token) => token,
                    Err(error) => {
                        return give_up(RequestCommandError::Auth(error));
                    },
                };
                if let Err(origin) = MyUrl::parse(args.url.as_str()) {
                    return give_up(
                        RequestCommandError::InvalidUrl { url: args.url.clone(), origin },
                    );
                }
                match get_body(&args) {
                    BodySource::Ready(body) => begin(&args, method, token, body, io),
                    BodySource::File(path) => (
                        RequestStage::AwaitingBodyFile { method, args, token },
                        RequestAction::ReadBodyFile(path),
                    ),
                }
            },
            _ => give_up(RequestCommandError::UnexpectedEvent),
        },
        RequestStage::AwaitingBodyFile { method, args, token } => match event {
            RequestEvent::BodyFile(read) => match get_body_from_file(read) {
                Ok(body) => begin(&args, method, token, body, io),
                Err(error) => give_up(error),
            },
            _ => give_up(RequestCommandError::UnexpectedEvent),
        },
        RequestStage::Executing { request_spec, state } => match event {
            RequestEvent::Execution(report) => {
                let step = resume(&request_spec, state, report, io);
                carry(request_spec, step)
            },
            _ => give_up(RequestCommandError::UnexpectedEvent),
        },
        RequestStage::Finished => (RequestStage::Finished, RequestAction::Stop),
        RequestStage::Failed(error) => give_up(error),
    }
}

/// A reply of the identity provider with a status outside 200 to 299 fails
/// the command with `AuthenticationFailed` and stops it: nothing is asked
/// that would reach the target server.
pub proof fn lemma_refused_token_stops_the_command<O: CurlautOutput>(
    method: HttpRequestMethod,
    args: HttpRequestArgs,
    status: u16,
    body: Result<Vec<u8>, String>,
    step: (RequestStage, RequestAction),
    before: &O,
    after: &O,
)
    requires
        !crate::auth::authenticator::is_success(status),
        request_resumed(
            RequestStage::AwaitingToken { method, args },
            RequestEvent::Token(TokenReply::Answered { status, body }),
            step,
            before,
            after,
        ),
    ensures
        gave_up(
            step,
            RequestCommandFault::Auth(crate::auth::AuthFault::AuthenticationFailed(status)),
        ),
        step.1 is Stop,
        after.common_text() == before.common_text(),
{
}

/// While verbose mode is off and the arguments do not ask for it, starting a
/// request command writes nothing to the diagnostic stream and leaves
/// verbose mode off.
pub proof fn lemma_request_started_quiet<O: CurlautOutput>(
    method: HttpRequestMethod,
    args: HttpRequestArgs,
    records: Seq<KeycloakConfigView>,
    step: (RequestStage, RequestAction),
    before: &O,
    after: &O,
)
    requires
        !before.verbose_enabled(),
        !args.verbose,
        request_started(method, args, records, step, before, after),
    ensures
        !after.verbose_enabled(),
        after.verbose_text() == before.verbose_text(),
{
}

/// While verbose mode is off, a step of a request command writes nothing to
/// the diagnostic stream and leaves verbose mode off.
pub proof fn lemma_request_resumed_quiet<O: CurlautOutput>(
    stage: RequestStage,
    event: RequestEvent,
    step: (RequestStage, RequestAction),
    before: &O,
    after: &O,
)
    requires
        !before.verbose_enabled(),
        request_resumed(stage, event, step, before, after),
    ensures
        !after.verbose_enabled(),
        after.verbose_text() == before.verbose_text(),
{
}

} // verus!
