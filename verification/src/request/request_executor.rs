//! The course of one HTTP call. The library decides and writes the trace; the
//! program around it resolves names, builds and sends the request, and
//! reports back what happened.

use vstd::prelude::*;
use vstd::string::StringExecFns;
use crate::address::url_host;
use crate::address::url_port;
use crate::address::TargetHost;
use crate::address::TargetHostView;
use crate::auth::HttpAuthorization;
use crate::output::lemma_wrote_nothing;
use crate::output::lemma_wrote_twice;
use crate::output::wrote;
use crate::output::CurlautOutput;
use crate::request::request_spec::method_name;
use crate::request::request_spec::HttpRequestBody;
use crate::request::request_spec::HttpRequestHeaders;
use crate::request::request_spec::HttpRequestMethod;
use crate::request::request_spec::HttpRequestSpec;
use crate::request::request_spec::HttpRequestSpecView;
use crate::request::RequestExecutionError;
use crate::request::RequestFault;
use crate::text::decimal;
use crate::text::decimal_text;
use crate::text::pair_views;

verus! {

/// An address that a host's name resolved to, as text.
#[derive(Debug, PartialEq, Eq)]
pub enum ResolvedAddress {
    V4(String),
    V6(String),
}

/// A `ResolvedAddress` with its text by its characters.
pub enum ResolvedAddressView {
    V4(Seq<char>),
    V6(Seq<char>),
}

impl View for ResolvedAddress {
    type V = ResolvedAddressView;

    open spec fn view(&self) -> ResolvedAddressView {
        match *self {
            ResolvedAddress::V4(text) => ResolvedAddressView::V4(text@),
            ResolvedAddress::V6(text) => ResolvedAddressView::V6(text@),
        }
    }
}

/// Addresses by their views, in their order.
pub open spec fn address_views(addresses: Seq<ResolvedAddress>) -> Seq<ResolvedAddressView> {
    addresses.map_values(|address: ResolvedAddress| address@)
}

/// The texts of the IPv4 addresses (`v4`) or of the IPv6 addresses (not
/// `v4`) among `addresses`, in their order.
pub open spec fn addresses_of(addresses: Seq<ResolvedAddressView>, v4: bool) -> Seq<Seq<char>>
    decreases addresses.len(),
{
    if addresses.len() == 0 {
        Seq::empty()
    } else {
        let before = addresses_of(addresses.drop_last(), v4);
        match addresses.last() {
            ResolvedAddressView::V4(text) => if v4 {
                before.push(text)
            } else {
                before
            },
            ResolvedAddressView::V6(text) => if v4 {
                before
            } else {
                before.push(text)
            },
        }
    }
}

/// The texts with a comma and a blank between them.
pub open spec fn joined(texts: Seq<Seq<char>>) -> Seq<char>
    decreases texts.len(),
{
    if texts.len() == 0 {
        Seq::empty()
    } else if texts.len() == 1 {
        texts[0]
    } else {
        joined(texts.drop_last()) + ", "@ + texts.last()
    }
}

/// The trace line that names the host.
pub open spec fn host_trace(host: TargetHostView) -> Seq<char> {
    match host {
        TargetHostView::Domain(name) => "* Host "@ + name + "\n"@,
        TargetHostView::Ipv4(address) => "* Host (IPv4): "@ + address + "\n"@,
        TargetHostView::Ipv6(address) => "* Host (ipv6): "@ + address + "\n"@,
    }
}

/// The trace line for the addresses of one family; nothing where there are
/// none.
pub open spec fn family_trace(label: Seq<char>, texts: Seq<Seq<char>>) -> Seq<char> {
    if texts.len() == 0 {
        Seq::empty()
    } else {
        label + "["@ + joined(texts) + "]\n"@
    }
}

/// The trace of the addresses that the host's name resolved to: the IPv4
/// addresses on one line, the IPv6 addresses on the next.
pub open spec fn addresses_trace(addresses: Seq<ResolvedAddressView>) -> Seq<char> {
    family_trace("* IPv4: "@, addresses_of(addresses, true)) + family_trace(
        "* IPv6: "@,
        addresses_of(addresses, false),
    )
}

/// The trace line that opens the request.
pub open spec fn request_line(method: HttpRequestMethod, url: Seq<char>) -> Seq<char> {
    "> "@ + method_name(method) + " "@ + url + " HTTP/1.1\n"@
}

/// One trace line for each header: the mark, the name, a colon, the value.
pub open spec fn header_lines(mark: Seq<char>, headers: Seq<(Seq<char>, Seq<char>)>) -> Seq<char>
    decreases headers.len(),
{
    if headers.len() == 0 {
        Seq::empty()
    } else {
        header_lines(mark, headers.drop_last()) + mark + headers.last().0 + ": "@
            + headers.last().1 + "\n"@
    }
}

/// The trace of a request that was built: its headers, and the size of its
/// body.
pub open spec fn request_content_trace(built: BuiltRequestView) -> Seq<char> {
    header_lines("> "@, built.headers) + ">\n"@ + "} ["@ + decimal(built.body_bytes as nat)
        + " bytes data]\n"@
}

/// The trace of a response: the status line, the headers, and the length
/// that the response declares for its body, 0 where it declares none.
pub open spec fn response_trace(head: ResponseHeadView) -> Seq<char> {
    "< "@ + head.version + " "@ + head.status + "\n"@ + header_lines("< "@, head.headers) + "<\n"@
        + "{ ["@ + decimal(
        (match head.content_length {
            Some(length) => length,
            None => 0u64,
        }) as nat,
    ) + " bytes data]\n"@
}

/// How the transport is to behave.
#[derive(Debug, Clone, Copy, PartialEq, Eq)]
pub struct TransportOptions {
    /// The milliseconds after which the call is given up.
    pub timeout: u64,
    /// Whether only HTTP/1.1 is to be spoken; otherwise the TLS handshake may
    /// settle on HTTP/2.
    pub http1: bool,
    /// Whether the server's certificate goes unchecked.
    pub insecure: bool,
}

/// The request to build: method, address, headers in the order in which they
/// are to be attached, body, and the transport to build it for.
#[derive(Debug, PartialEq, Eq)]
pub struct RequestPlan {
    pub method: HttpRequestMethod,
    pub url: String,
    pub headers: Vec<(String, String)>,
    pub body: Option<String>,
    pub transport: TransportOptions,
}

/// A `RequestPlan` as a mathematical record.
pub struct RequestPlanView {
    pub method: HttpRequestMethod,
    pub url: Seq<char>,
    pub headers: Seq<(Seq<char>, Seq<char>)>,
    pub body: Option<Seq<char>>,
    pub transport: TransportOptions,
}

impl View for RequestPlan {
    type V = RequestPlanView;

    open spec fn view(&self) -> RequestPlanView {
        RequestPlanView {
            method: self.method,
            url: self.url@,
            headers: pair_views(self.headers@),
            body: match self.body {
                Some(text) => Some(text@),
                None => None,
            },
            transport: self.transport,
        }
    }
}

/// The request as it was built: its headers as the trace is to show them,
/// and the bytes of its body.
#[derive(Debug, PartialEq, Eq)]
pub struct BuiltRequest {
    pub headers: Vec<(String, String)>,
    pub body_bytes: u64,
}

/// A `BuiltRequest` as a mathematical record.
pub struct BuiltRequestView {
    pub headers: Seq<(Seq<char>, Seq<char>)>,
    pub body_bytes: u64,
}

impl View for BuiltRequest {
    type V = BuiltRequestView;

    open spec fn view(&self) -> BuiltRequestView {
        BuiltRequestView { headers: pair_views(self.headers@), body_bytes: self.body_bytes }
    }
}

/// The head of a response as the trace is to show it: protocol version,
/// status with its reason, headers, and the declared length of the body.
#[derive(Debug, PartialEq, Eq)]
pub struct ResponseHead {
    pub version: String,
    pub status: String,
    pub headers: Vec<(String, String)>,
    pub content_length: Option<u64>,
}

/// A `ResponseHead` as a mathematical record.
pub struct ResponseHeadView {
    pub version: Seq<char>,
    pub status: Seq<char>,
    pub headers: Seq<(Seq<char>, Seq<char>)>,
    pub content_length: Option<u64>,
}

impl View for ResponseHead {
    type V = ResponseHeadView;

    open spec fn view(&self) -> ResponseHeadView {
        ResponseHeadView {
            version: self.version@,
            status: self.status@,
            headers: pair_views(self.headers@),
            content_length: self.content_length,
        }
    }
}

/// The name of the header that carries the credential.
pub open spec fn authorization_header() -> Seq<char> {
    "authorization"@
}

/// The headers to attach: those of the description, then the credential as a
/// bearer token, then the content type where there is a body.
pub open spec fn planned_headers(spec: HttpRequestSpecView) -> Seq<(Seq<char>, Seq<char>)> {
    spec.headers.push((authorization_header(), "Bearer "@ + spec.authorization)) + (
    if spec.body is Some {
        seq![("content-type"@, "application/json"@)]
    } else {
        Seq::empty()
    })
}

/// The transport that a description asks for.
pub open spec fn transport_of(spec: HttpRequestSpecView) -> TransportOptions {
    TransportOptions { timeout: spec.timeout, http1: spec.http1, insecure: spec.insecure }
}

/// The request to build for a description.
pub open spec fn plan_of(spec: HttpRequestSpecView) -> RequestPlanView {
    RequestPlanView {
        method: spec.method,
        url: spec.url,
        headers: planned_headers(spec),
        body: spec.body,
        transport: transport_of(spec),
    }
}

/// The transport that the description asks for.
pub fn build_http_client<A: HttpAuthorization>(request_spec: &HttpRequestSpec<A>) -> (transport:
    TransportOptions)
    ensures
        transport == transport_of(request_spec@),
{
    TransportOptions {
        timeout: request_spec.timeout,
        http1: request_spec.http1,
        insecure: request_spec.insecure,
    }
}

/// Puts the headers of the description on the list of headers to attach.
pub fn add_headers(attached: &mut Vec<(String, String)>, headers: &HttpRequestHeaders)
    ensures
        pair_views(final(attached)@) == pair_views(old(attached)@) + headers@,
{
    let entries = headers.entries();
    let mut i: usize = 0;
    while i < entries.len()
        invariant
            i <= entries.len(),
            pair_views(entries@) == headers@,
            pair_views(attached@) == pair_views(old(attached)@) + headers@.take(i as int),
        decreases entries.len() - i,
    {
        let ghost before = pair_views(attached@);
        attached.push((entries[i].0.clone(), entries[i].1.clone()));
        proof {
            assert(pair_views(attached@) =~= before.push(headers@[i as int]));
        }
        i += 1;
    }
}

/// Puts the credential, as a bearer token, on the list of headers to attach.
pub fn add_auth<A: HttpAuthorization>(attached: &mut Vec<(String, String)>, http_auth: &A)
    ensures
        pair_views(final(attached)@) == pair_views(old(attached)@).push(
            (authorization_header(), "Bearer "@ + http_auth.authorization_value()),
        ),
{
    let mut value = "Bearer ".to_owned();
    value.append(http_auth.get_authorization_value().as_str());
    attached.push(("authorization".to_owned(), value));
}

/// Hands out the body to send, and puts its content type on the list of
/// headers to attach where there is one.
pub fn add_body(attached: &mut Vec<(String, String)>, body: &HttpRequestBody) -> (sent: Option<
    String,
>)
    ensures
        match sent {
            Some(text) => body@ == Some(text@) && pair_views(final(attached)@) == pair_views(
                old(attached)@,
            ).push(("content-type"@, "application/json"@)),
            None => body@ is None && pair_views(final(attached)@) == pair_views(old(attached)@),
        },
{
    match body {
        HttpRequestBody::Empty => None,
        HttpRequestBody::Json(text) => {
            attached.push(("content-type".to_owned(), "application/json".to_owned()));
            Some(text.clone())
        },
    }
}

/// The request to build for the description.
pub fn plan_request<A: HttpAuthorization>(request_spec: &HttpRequestSpec<A>) -> (plan: RequestPlan)
    ensures
        plan@ == plan_of(request_spec@),
{
    let transport = build_http_client(request_spec);
    let mut headers: Vec<(String, String)> = Vec::new();
    add_headers(&mut headers, &request_spec.headers);
    add_auth(&mut headers, &request_spec.authorization);
    let body = add_body(&mut headers, &request_spec.body);
    let plan = RequestPlan {
        method: request_spec.method,
        url: request_spec.url.as_str().to_owned(),
        headers,
        body,
        transport,
    };
    proof {
        assert(plan@.headers =~= planned_headers(request_spec@));
    }
    plan
}

/// Writes one trace line for each header.
fn header_lines_text(mark: &str, headers: &Vec<(String, String)>) -> (text: String)
    ensures
        text@ == header_lines(mark@, pair_views(headers@)),
{
    let ghost all = pair_views(headers@);
    let mut text = String::new();
    let mut i: usize = 0;
    while i < headers.len()
        invariant
            i <= headers.len(),
            all == pair_views(headers@),
            text@ == header_lines(mark@, all.take(i as int)),
        decreases headers.len() - i,
    {
        proof {
            assert(all.take(i + 1).drop_last() =~= all.take(i as int));
        }
        text.append(mark);
        text.append(headers[i].0.as_str());
        text.append(": ");
        text.append(headers[i].1.as_str());
        text.append("\n");
        i += 1;
    }
    proof {
        assert(all.take(i as int) =~= all);
    }
    text
}

/// Writes the addresses of one family with commas between them, and says
/// whether there was any.
fn family_text(addresses: &Vec<ResolvedAddress>, v4: bool) -> (found: (String, bool))
    ensures
        found.0@ == joined(addresses_of(address_views(addresses@), v4)),
        found.1 == (addresses_of(address_views(addresses@), v4).len() > 0),
{
    let ghost all = address_views(addresses@);
    let mut text = String::new();
    let mut any = false;
    let mut i: usize = 0;
    while i < addresses.len()
        invariant
            i <= addresses.len(),
            all == address_views(addresses@),
            text@ == joined(addresses_of(all.take(i as int), v4)),
            any == (addresses_of(all.take(i as int), v4).len() > 0),
        decreases addresses.len() - i,
    {
        let ghost before = addresses_of(all.take(i as int), v4);
        proof {
            assert(all.take(i + 1).drop_last() =~= all.take(i as int));
        }
        let picked = match &addresses[i] {
            ResolvedAddress::V4(address) => if v4 {
                Some(address)
            } else {
                None
            },
            ResolvedAddress::V6(address) => if v4 {
                None
            } else {
                Some(address)
            },
        };
        if let Some(address) = picked {
            proof {
                assert(before.push(address@).drop_last() =~= before);
            }
            if any {
                text.append(", ");
            }
            text.append(address.as_str());
            any = true;
        }
        i += 1;
    }
    proof {
        assert(all.take(i as int) =~= all);
    }
    (text, any)
}

/// Writes the trace line for the addresses of one family.
fn family_line(label: &str, addresses: &Vec<ResolvedAddress>, v4: bool) -> (line: String)
    ensures
        line@ == family_trace(label@, addresses_of(address_views(addresses@), v4)),
{
    let (listed, any) = family_text(addresses, v4);
    let mut line = String::new();
    if any {
        line.append(label);
        line.append("[");
        line.append(listed.as_str());
        line.append("]\n");
    }
    line
}

/// Names the host on the diagnostic stream.
pub fn log_target_host<O: CurlautOutput>(host: &TargetHost, io: &mut O)
    ensures
        wrote(old(io), final(io), Seq::empty(), host_trace(host@)),
{
    let mut line = String::new();
    match host {
        TargetHost::Domain(name) => {
            line.append("* Host ");
            line.append(name.as_str());
        },
        TargetHost::Ipv4(address) => {
            line.append("* Host (IPv4): ");
            line.append(address.as_str());
        },
        TargetHost::Ipv6(address) => {
            line.append("* Host (ipv6): ");
            line.append(address.as_str());
        },
    }
    line.append("\n");
    io.verbose(line.as_str());
}

/// Lists on the diagnostic stream the addresses that the host's name
/// resolved to, by family.
pub fn log_resolved_addresses<O: CurlautOutput>(addresses: &Vec<ResolvedAddress>, io: &mut O)
    ensures
        wrote(old(io), final(io), Seq::empty(), addresses_trace(address_views(addresses@))),
{
    let mut lines = family_line("* IPv4: ", addresses, true);
    let v6 = family_line("* IPv6: ", addresses, false);
    lines.append(v6.as_str());
    io.verbose(lines.as_str());
}

/// Opens the trace of the request with the request line.
pub fn log_request_starts<A: HttpAuthorization, O: CurlautOutput>(
    request_spec: &HttpRequestSpec<A>,
    io: &mut O,
)
    ensures
        wrote(
            old(io),
            final(io),
            Seq::empty(),
            request_line(request_spec@.method, request_spec@.url),
        ),
{
    let mut line = "> ".to_owned();
    line.append(request_spec.method.to_string().as_str());
    line.append(" ");
    line.append(request_spec.url.as_str());
    line.append(" HTTP/1.1\n");
    io.verbose(line.as_str());
}

/// Traces the request that was built: every header, and the size of the body.
pub fn log_request_content<O: CurlautOutput>(request: &BuiltRequest, io: &mut O)
    ensures
        wrote(old(io), final(io), Seq::empty(), request_content_trace(request@)),
{
    let mut lines = header_lines_text("> ", &request.headers);
    lines.append(">\n");
    lines.append("} [");
    lines.append(decimal_text(request.body_bytes).as_str());
    lines.append(" bytes data]\n");
    io.verbose(lines.as_str());
}

/// Traces the head of the response: the status line, every header, and the
/// declared length of the body.
pub fn log_response<O: CurlautOutput>(response: &ResponseHead, io: &mut O)
    ensures
        wrote(old(io), final(io), Seq::empty(), response_trace(response@)),
{
    let mut lines = "< ".to_owned();
    lines.append(response.version.as_str());
    lines.append(" ");
    lines.append(response.status.as_str());
    lines.append("\n");
    lines.append(header_lines_text("< ", &response.headers).as_str());
    lines.append("<\n");
    lines.append("{ [");
    let length: u64 = match response.content_length {
        Some(length) => length,
        None => 0,
    };
    lines.append(decimal_text(length).as_str());
    lines.append(" bytes data]\n");
    io.verbose(lines.as_str());
}

/// How far a call has come. A call starts idle, has its host resolved, its
/// request built, is executed, has the response logged and is done; from any
/// of these it may fail, and then it stays failed.
#[derive(Debug, PartialEq, Eq)]
pub enum ExecutionState {
    /// The addresses of the host are not known yet.
    Idle,
    /// The host is known; the request is to be built.
    HostResolved,
    /// The request is built and traced; it is to be sent.
    RequestBuilt,
    /// The server answered with this head; it is to be traced.
    Executed(ResponseHead),
    /// The response is traced; its body is to be read.
    ResponseLogged,
    /// The body went to the normal stream.
    Done,
    /// The call failed.
    Failed(RequestExecutionError),
}

/// What the program reports back.
#[derive(Debug, PartialEq, Eq)]
pub enum ExecutionEvent {
    /// The addresses of the host, or why there are none.
    Resolved(Result<Vec<ResolvedAddress>, String>),
    /// The request that was built, or why none was.
    Built(Result<BuiltRequest, String>),
    /// The head of the server's answer, or why none came.
    Responded(Result<ResponseHead, String>),
    /// Nothing; the step before asked for no work.
    Continue,
    /// The body of the answer as text, or why it could not be read.
    Body(Result<String, String>),
}

/// What the program has to do next.
#[derive(Debug, PartialEq, Eq)]
pub enum ExecutionAction {
    /// Resolve the host's name and report `Resolved`.
    Resolve { host: String, port: u16 },
    /// Build the transport and the request and report `Built`.
    Build(RequestPlan),
    /// Send the request and report `Responded`.
    Send,
    /// Report `Continue`.
    Continue,
    /// Read the body of the answer and report `Body`.
    ReadBody,
    /// Stop: the call is done or has failed.
    Stop,
}

/// Whether the state is `Failed` with that fault.
pub open spec fn failed_with(state: ExecutionState, fault: RequestFault) -> bool {
    state matches ExecutionState::Failed(error) && error@ == fault
}

/// Whether the step stopped the call as failed with that fault.
pub open spec fn stopped_with(step: (ExecutionState, ExecutionAction), fault: RequestFault) -> bool {
    failed_with(step.0, fault) && step.1 is Stop
}

/// Whether the action asks to build that request.
pub open spec fn asks_to_build(action: ExecutionAction, plan: RequestPlanView) -> bool {
    action matches ExecutionAction::Build(asked) && asked@ == plan
}

/// Whether the action asks to resolve that host.
pub open spec fn asks_to_resolve(action: ExecutionAction, name: Seq<char>, at: u16) -> bool {
    action matches ExecutionAction::Resolve { host, port } && host@ == name && port == at
}

/// The host of a URL as one text: the domain's name or the address; empty
/// where the URL names no host.
pub open spec fn host_text(host: Option<TargetHostView>) -> Seq<char> {
    match host {
        Some(TargetHostView::Domain(name)) => name,
        Some(TargetHostView::Ipv4(address)) => address,
        Some(TargetHostView::Ipv6(address)) => address,
        None => Seq::empty(),
    }
}

/// Ends the step that opens the request: traces the request line and asks
/// for the request to be built.
fn open_request<A: HttpAuthorization, O: CurlautOutput>(
    request_spec: &HttpRequestSpec<A>,
    io: &mut O,
) -> (step: (ExecutionState, ExecutionAction))
    ensures
        step.0 is HostResolved,
        asks_to_build(step.1, plan_of(request_spec@)),
        wrote(
            old(io),
            final(io),
            Seq::empty(),
            request_line(request_spec@.method, request_spec@.url),
        ),
{
    log_request_starts(request_spec, io);
    (ExecutionState::HostResolved, ExecutionAction::Build(plan_request(request_spec)))
}

/// What starting a call does, with `host` and `port` for what the address
/// names. An address without a host or without a port fails the call at
/// once. For a domain the host is named on the diagnostic stream and its
/// resolution asked for. For a literal address the host is named, the
/// request line traced and the request asked to be built.
pub open spec fn started_at<O: CurlautOutput>(
    request_spec: HttpRequestSpecView,
    host: Option<TargetHostView>,
    port: Option<u16>,
    step: (ExecutionState, ExecutionAction),
    before: &O,
    after: &O,
) -> bool {
    match host {
        None => stopped_with(step, RequestFault::NoHost) && wrote(
            before,
            after,
            Seq::empty(),
            Seq::empty(),
        ),
        Some(host) => match port {
            None => stopped_with(step, RequestFault::NoPort) && wrote(
                before,
                after,
                Seq::empty(),
                Seq::empty(),
            ),
            Some(port) => match host {
                TargetHostView::Domain(name) => step.0 is Idle && asks_to_resolve(
                    step.1,
                    name,
                    port,
                ) && wrote(before, after, Seq::empty(), host_trace(host)),
                _ => step.0 is HostResolved && asks_to_build(step.1, plan_of(request_spec))
                    && wrote(
                    before,
                    after,
                    Seq::empty(),
                    host_trace(host) + request_line(request_spec.method, request_spec.url),
                ),
            },
        },
    }
}

/// What `execute` does: it starts the call at the host and the port that the
/// address of the description names.
pub open spec fn started<O: CurlautOutput>(
    request_spec: HttpRequestSpecView,
    step: (ExecutionState, ExecutionAction),
    before: &O,
    after: &O,
) -> bool {
    started_at(
        request_spec,
        url_host(request_spec.url),
        url_port(request_spec.url),
        step,
        before,
        after,
    )
}

/// A host by its view.
pub open spec fn host_view(host: Option<TargetHost>) -> Option<TargetHostView> {
    match host {
        Some(host) => Some(host@),
        None => None,
    }
}

/// Starts a call.
pub fn execute<A: HttpAuthorization, O: CurlautOutput>(
    request_spec: &HttpRequestSpec<A>,
    io: &mut O,
) -> (step: (ExecutionState, ExecutionAction))
    ensures
        started(request_spec@, step, old(io), final(io)),
{
    let host = request_spec.url.host();
    let port = request_spec.url.port_or_known_default();
    start(request_spec, host, port, io)
}

/// Starts a call at the host and the port that its address names.
pub fn start<A: HttpAuthorization, O: CurlautOutput>(
    request_spec: &HttpRequestSpec<A>,
    host: Option<TargetHost>,
    port: Option<u16>,
    io: &mut O,
) -> (step: (ExecutionState, ExecutionAction))
    ensures
        started_at(request_spec@, host_view(host), port, step, old(io), final(io)),
{
    proof {
        lemma_wrote_nothing(&*io);
    }
    let host = match host {
        Some(host) => host,
        None => {
            return (ExecutionState::Failed(RequestExecutionError::NoHost), ExecutionAction::Stop);
        },
    };
    let port = match port {
        Some(port) => port,
        None => {
            return (ExecutionState::Failed(RequestExecutionError::NoPort), ExecutionAction::Stop);
        },
    };
    log_target_host(&host, io);
    match host {
        TargetHost::Domain(name) => (
            ExecutionState::Idle,
            ExecutionAction::Resolve { host: name, port },
        ),
        _ => {
            let ghost named = *io;
            let step = open_request(request_spec, io);
            proof {
                lemma_wrote_twice(
                    old(io),
                    &named,
                    &*io,
                    Seq::empty(),
                    host_trace(host@),
                    Seq::empty(),
                    request_line(request_spec@.method, request_spec@.url),
                );
            }
            step
        },
    }
}

/// The failure of a call whose host could not be resolved.
pub fn resolution_failure(host: Option<TargetHost>, cause: String) -> (error: RequestExecutionError)
    ensures
        error@ == RequestFault::FailedToResolveHost(host_text(host_view(host)), cause@),
{
    let host = match host {
        Some(TargetHost::Domain(name)) => name,
        Some(TargetHost::Ipv4(address)) => address,
        Some(TargetHost::Ipv6(address)) => address,
        None => String::new(),
    };
    RequestExecutionError::FailedToResolveHost { host, cause }
}

/// The step that stops the call as failed.
fn stop(error: RequestExecutionError) -> (step: (ExecutionState, ExecutionAction))
    ensures
        stopped_with(step, error@),
{
    (ExecutionState::Failed(error), ExecutionAction::Stop)
}

/// What `resume` does with a state and a report.
///
/// - Idle, on the host's addresses: they are traced by family, then the
///   request line; the request is to be built. On a failed resolution the
///   call fails.
/// - Host resolved, on the built request: its headers and the size of its
///   body are traced; the request is to be sent. On a failed build the call
///   fails.
/// - Request built, on the head of the answer: the call is executed. On a
///   failed exchange the call fails.
/// - Executed, on `Continue`: the head of the answer is traced; the body is
///   to be read.
/// - Response logged, on the body: it goes to the normal stream as it is,
///   whatever the status; the call is done. On an unreadable body the call
///   fails.
/// - A call that is done or has failed stays so. Any other report fails the
///   call as unexpected.
pub open spec fn resumed<O: CurlautOutput>(
    request_spec: HttpRequestSpecView,
    state: ExecutionState,
    event: ExecutionEvent,
    step: (ExecutionState, ExecutionAction),
    before: &O,
    after: &O,
) -> bool {
    match state {
        ExecutionState::Idle => match event {
            ExecutionEvent::Resolved(Ok(addresses)) => step.0 is HostResolved && asks_to_build(
                step.1,
                plan_of(request_spec),
            ) && wrote(
                before,
                after,
                Seq::empty(),
                addresses_trace(address_views(addresses@)) + request_line(
                    request_spec.method,
                    request_spec.url,
                ),
            ),
            ExecutionEvent::Resolved(Err(cause)) => stopped_with(
                step,
                RequestFault::FailedToResolveHost(
                    host_text(url_host(request_spec.url)),
                    cause@,
                ),
            ) && wrote(before, after, Seq::empty(), Seq::empty()),
            _ => stopped_with(step, RequestFault::UnexpectedEvent) && wrote(
                before,
                after,
                Seq::empty(),
                Seq::empty(),
            ),
        },
        ExecutionState::HostResolved => match event {
            ExecutionEvent::Built(Ok(request)) => step.0 is RequestBuilt && step.1 is Send
                && wrote(before, after, Seq::empty(), request_content_trace(request@)),
            ExecutionEvent::Built(Err(cause)) => stopped_with(
                step,
                RequestFault::FailedToBuildHttpRequest(cause@),
            ) && wrote(before, after, Seq::empty(), Seq::empty()),
            _ => stopped_with(step, RequestFault::UnexpectedEvent) && wrote(
                before,
                after,
                Seq::empty(),
                Seq::empty(),
            ),
        },
        ExecutionState::RequestBuilt => match event {
            ExecutionEvent::Responded(Ok(response)) => (step.0 matches ExecutionState::Executed(
                kept,
            ) && kept@ == response@) && step.1 is Continue && wrote(
                before,
                after,
                Seq::empty(),
                Seq::empty(),
            ),
            ExecutionEvent::Responded(Err(cause)) => stopped_with(
                step,
                RequestFault::FailedToExecuteRequest(cause@),
            ) && wrote(before, after, Seq::empty(), Seq::empty()),
            _ => stopped_with(step, RequestFault::UnexpectedEvent) && wrote(
                before,
                after,
                Seq::empty(),
                Seq::empty(),
            ),
        },
        ExecutionState::Executed(response) => match event {
            ExecutionEvent::Continue => step.0 is ResponseLogged && step.1 is ReadBody && wrote(
                before,
                after,
                Seq::empty(),
                response_trace(response@),
            ),
            _ => stopped_with(step, RequestFault::UnexpectedEvent) && wrote(
                before,
                after,
                Seq::empty(),
                Seq::empty(),
            ),
        },
        ExecutionState::ResponseLogged => match event {
            ExecutionEvent::Body(Ok(text)) => step.0 is Done && step.1 is Stop && wrote(
                before,
                after,
                text@,
                Seq::empty(),
            ),
            ExecutionEvent::Body(Err(cause)) => stopped_with(
                step,
                RequestFault::FailedToReadResponseBody(cause@),
            ) && wrote(before, after, Seq::empty(), Seq::empty()),
            _ => stopped_with(step, RequestFault::UnexpectedEvent) && wrote(
                before,
                after,
                Seq::empty(),
                Seq::empty(),
            ),
        },
        ExecutionState::Done => step.0 is Done && step.1 is Stop && wrote(
            before,
            after,
            Seq::empty(),
            Seq::empty(),
        ),
        ExecutionState::Failed(error) => stopped_with(step, error@) && wrote(
            before,
            after,
            Seq::empty(),
            Seq::empty(),
        ),
    }
}

/// Takes the call one step further on what the program reports.
pub fn resume<A: HttpAuthorization, O: CurlautOutput>(
    request_spec: &HttpRequestSpec<A>,
    state: ExecutionState,
    event: ExecutionEvent,
    io: &mut O,
) -> (step: (ExecutionState, ExecutionAction))
    ensures
        resumed(request_spec@, state, event, step, old(io), final(io)),
{
    proof {
        lemma_wrote_nothing(&*io);
    }
    match state {
        ExecutionState::Idle => match event {
            ExecutionEvent::Resolved(Ok(addresses)) => {
                log_resolved_addresses(&addresses, io);
                let ghost listed = *io;
                let step = open_request(request_spec, io);
                proof {
                    lemma_wrote_twice(
                        old(io),
                        &listed,
                        &*io,
                        Seq::empty(),
                        addresses_trace(address_views(addresses@)),
                        Seq::empty(),
                        request_line(request_spec@.method, request_spec@.url),
                    );
                }
                step
            },
            ExecutionEvent::Resolved(Err(cause)) => stop(
                resolution_failure(request_spec.url.host(), cause),
            ),
            _ => stop(RequestExecutionError::UnexpectedEvent),
        },
        ExecutionState::HostResolved => match event {
            ExecutionEvent::Built(Ok(request)) => {
                log_request_content(&request, io);
                (ExecutionState::RequestBuilt, ExecutionAction::Send)
            },
            ExecutionEvent::Built(Err(cause)) => stop(
                RequestExecutionError::FailedToBuildHttpRequest { cause },
            ),
            _ => stop(RequestExecutionError::UnexpectedEvent),
        },
        ExecutionState::RequestBuilt => match event {
            ExecutionEvent::Responded(Ok(response)) => (
                ExecutionState::Executed(response),
                ExecutionAction::Continue,
            ),
            ExecutionEvent::Responded(Err(cause)) => stop(
                RequestExecutionError::FailedToExecuteRequest { cause },
            ),
            _ => stop(RequestExecutionError::UnexpectedEvent),
        },
        ExecutionState::Executed(response) => match event {
            ExecutionEvent::Continue => {
                log_response(&response, io);
                (ExecutionState::ResponseLogged, ExecutionAction::ReadBody)
            },
            _ => stop(RequestExecutionError::UnexpectedEvent),
        },
        ExecutionState::ResponseLogged => match event {
            ExecutionEvent::Body(Ok(text)) => {
                io.common(text.as_str());
                (ExecutionState::Done, ExecutionAction::Stop)
            },
            ExecutionEvent::Body(Err(cause)) => stop(
                RequestExecutionError::FailedToReadResponseBody { cause },
            ),
            _ => stop(RequestExecutionError::UnexpectedEvent),
        },
        ExecutionState::Done => (ExecutionState::Done, ExecutionAction::Stop),
        ExecutionState::Failed(error) => stop(error),
    }
}

/// How many steps of the course a state has behind it; a failed call has
/// none to its name.
pub open spec fn progress(state: ExecutionState) -> nat {
    match state {
        ExecutionState::Idle => 0,
        ExecutionState::HostResolved => 1,
        ExecutionState::RequestBuilt => 2,
        ExecutionState::Executed(_) => 3,
        ExecutionState::ResponseLogged => 4,
        ExecutionState::Done => 5,
        ExecutionState::Failed(_) => 0,
    }
}

/// A call starts idle or with its host resolved, or fails at once; it asks
/// the program to stop exactly if it failed.
pub proof fn lemma_started_at_the_beginning<O: CurlautOutput>(
    request_spec: HttpRequestSpecView,
    step: (ExecutionState, ExecutionAction),
    before: &O,
    after: &O,
)
    requires
        started(request_spec, step, before, after),
    ensures
        step.0 is Idle || step.0 is HostResolved || step.0 is Failed,
        step.1 is Stop <==> step.0 is Failed,
{
}

/// A step takes a call that goes on exactly one state further, in the order
/// idle, host resolved, request built, executed, response logged, done.
/// Otherwise the call fails, or was done or had failed before and stays so.
/// The program is asked to stop exactly if the call is done or has failed.
pub proof fn lemma_resumed_in_order<O: CurlautOutput>(
    request_spec: HttpRequestSpecView,
    state: ExecutionState,
    event: ExecutionEvent,
    step: (ExecutionState, ExecutionAction),
    before: &O,
    after: &O,
)
    requires
        resumed(request_spec, state, event, step, before, after),
    ensures
        step.0 is Failed || (state is Done && step.0 is Done) || progress(step.0) == progress(state)
            + 1,
        state is Failed ==> step.0 is Failed,
        step.1 is Stop <==> step.0 is Done || step.0 is Failed,
{
}

/// A call is done only through the body of the answer: it was done before,
/// or its response was logged and the body came and went to the normal
/// stream. No failure is reported as success.
pub proof fn lemma_done_only_with_the_body<O: CurlautOutput>(
    request_spec: HttpRequestSpecView,
    state: ExecutionState,
    event: ExecutionEvent,
    step: (ExecutionState, ExecutionAction),
    before: &O,
    after: &O,
)
    requires
        resumed(request_spec, state, event, step, before, after),
        step.0 is Done,
    ensures
        state is Done || (state is ResponseLogged && (event matches ExecutionEvent::Body(Ok(text))
            && after.common_text() == before.common_text() + text@)),
{
}

} // verus!
