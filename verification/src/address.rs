//! Absolute URLs: reading one, resolving a reference against one, and the
//! host and the port that one names.

use vstd::prelude::*;
use url::Host;
use url::Url;

verus! {

#[verifier::external_type_specification]
#[verifier::external_body]
pub struct ExParseError(url::ParseError);

/// The serialization of the URL that `url::Url::parse` reads from `input`, or
/// `None` where the parser rejects `input`.
pub uninterp spec fn url_serialization(input: Seq<char>) -> Option<Seq<char>>;

/// Calls `url::Url::parse` and hands back the serialization of the parsed URL,
/// as `String::from(Url)` gives it, or the parser's error.
#[verifier::external_body]
fn parse_url(input: &str) -> (parsed: Result<String, url::ParseError>)
    ensures
        parsed is Ok <==> url_serialization(input@) is Some,
        parsed matches Ok(text) ==> Some(text@) == url_serialization(input@),
{
    match Url::parse(input) {
        Ok(url) => Ok(String::from(url)),
        Err(origin) => Err(origin),
    }
}

/// The serialization of the URL that `url::Url::join` gives for `input`, with
/// the URL that `url::Url::parse` reads from `base` as the base; `None` where
/// either of the two fails.
pub uninterp spec fn url_join(base: Seq<char>, input: Seq<char>) -> Option<Seq<char>>;

/// Calls `url::Url::join` on the URL parsed from `base` and hands back the
/// serialization of the joined URL, or the error of the call that failed.
#[verifier::external_body]
fn join_url(base: &str, input: &str) -> (joined: Result<String, url::ParseError>)
    ensures
        joined is Ok <==> url_join(base@, input@) is Some,
        joined matches Ok(text) ==> Some(text@) == url_join(base@, input@),
{
    match Url::parse(base)?.join(input) {
        Ok(url) => Ok(String::from(url)),
        Err(origin) => Err(origin),
    }
}

/// The host that a URL names.
#[derive(Debug, PartialEq, Eq)]
pub enum TargetHost {
    /// A domain name, to be resolved.
    Domain(String),
    /// An IPv4 address, as text.
    Ipv4(String),
    /// An IPv6 address, as text without brackets.
    Ipv6(String),
}

/// A `TargetHost` with its text by its characters.
pub enum TargetHostView {
    Domain(Seq<char>),
    Ipv4(Seq<char>),
    Ipv6(Seq<char>),
}

impl View for TargetHost {
    type V = TargetHostView;

    open spec fn view(&self) -> TargetHostView {
        match *self {
            TargetHost::Domain(name) => TargetHostView::Domain(name@),
            TargetHost::Ipv4(address) => TargetHostView::Ipv4(address@),
            TargetHost::Ipv6(address) => TargetHostView::Ipv6(address@),
        }
    }
}

/// What `url::Url::host` gives for the URL that `url::Url::parse` reads from
/// `url`: a domain by its name, an address by its text as `to_string` writes
/// it; `None` where the URL has no host or `url` is not read.
pub uninterp spec fn url_host(url: Seq<char>) -> Option<TargetHostView>;

/// Calls `url::Url::host` on the URL parsed from `url`.
#[verifier::external_body]
fn host_of_url(url: &str) -> (host: Option<TargetHost>)
    ensures
        host is Some <==> url_host(url@) is Some,
        host matches Some(named) ==> Some(named@) == url_host(url@),
{
    match Url::parse(url).ok()?.host()? {
        Host::Domain(name) => Some(TargetHost::Domain(name.to_owned())),
        Host::Ipv4(address) => Some(TargetHost::Ipv4(address.to_string())),
        Host::Ipv6(address) => Some(TargetHost::Ipv6(address.to_string())),
    }
}

/// What `url::Url::port_or_known_default` gives for the URL that
/// `url::Url::parse` reads from `url`; `None` where it gives none or `url` is
/// not read.
pub uninterp spec fn url_port(url: Seq<char>) -> Option<u16>;

/// Calls `url::Url::port_or_known_default` on the URL parsed from `url`.
#[verifier::external_body]
fn port_of_url(url: &str) -> (port: Option<u16>)
    ensures
        port == url_port(url@),
{
    Url::parse(url).ok()?.port_or_known_default()
}

/// Whether `text` is the serialization of a URL that the parser handed out,
/// for an absolute URL that it read or for a reference that it resolved.
pub open spec fn is_url(text: Seq<char>) -> bool {
    ||| exists|input: Seq<char>| #[trigger] url_serialization(input) == Some(text)
    ||| exists|base: Seq<char>, input: Seq<char>| #[trigger] url_join(base, input) == Some(text)
}

/// An absolute URL, kept as the text the URL parser serialized it to.
#[derive(Debug, PartialEq, Eq)]
pub struct MyUrl {
    text: String,
}

impl View for MyUrl {
    type V = Seq<char>;

    closed spec fn view(&self) -> Seq<char> {
        self.text@
    }
}

impl MyUrl {
    /// The text is a serialization that the URL parser handed out.
    #[verifier::type_invariant]
    pub open spec fn wf(&self) -> bool {
        is_url(self@)
    }

    /// Reads an absolute URL.
    pub fn parse(input: &str) -> (parsed: Result<MyUrl, url::ParseError>)
        ensures
            match parsed {
                Ok(url) => url_serialization(input@) == Some(url@),
                Err(_) => url_serialization(input@) is None,
            },
    {
        match parse_url(input) {
            Ok(text) => Ok(MyUrl { text }),
            Err(origin) => Err(origin),
        }
    }

    /// Resolves `input` against this URL, as a browser resolves a link
    /// against the address of the page that holds it.
    pub fn join(&self, input: &str) -> (joined: Result<MyUrl, url::ParseError>)
        ensures
            match joined {
                Ok(url) => url_join(self@, input@) == Some(url@),
                Err(_) => url_join(self@, input@) is None,
            },
    {
        match join_url(self.text.as_str(), input) {
            Ok(text) => Ok(MyUrl { text }),
            Err(origin) => Err(origin),
        }
    }

    /// The host that this URL names, if it names one.
    pub fn host(&self) -> (host: Option<TargetHost>)
        ensures
            match host {
                Some(named) => url_host(self@) == Some(named@),
                None => url_host(self@) is None,
            },
    {
        host_of_url(self.text.as_str())
    }

    /// The port that this URL names, or the port of its scheme.
    pub fn port_or_known_default(&self) -> (port: Option<u16>)
        ensures
            port == url_port(self@),
    {
        port_of_url(self.text.as_str())
    }

    /// The serialization of this URL.
    pub fn as_str(&self) -> (text: &str)
        ensures
            text@ == self@,
    {
        self.text.as_str()
    }
}

impl Clone for MyUrl {
    fn clone(&self) -> (copy: Self)
        ensures
            copy@ == self@,
    {
        proof {
            use_type_invariant(self);
        }
        MyUrl { text: self.text.clone() }
    }
}


} // verus!
