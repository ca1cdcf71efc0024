//! The description of one outbound HTTP call.

use vstd::prelude::*;
use crate::address::MyUrl;
use crate::auth::HttpAuthorization;
use crate::text::pair_views;
use crate::text::same_text;

verus! {

/// The method of a request.
#[derive(Debug, Clone, Copy, PartialEq, Eq)]
pub enum HttpRequestMethod {
    GET,
    POST,
    PUT,
    DELETE,
}

/// The name of a method as the request line writes it.
pub open spec fn method_name(method: HttpRequestMethod) -> Seq<char> {
    match method {
        HttpRequestMethod::GET => "GET"@,
        HttpRequestMethod::POST => "POST"@,
        HttpRequestMethod::PUT => "PUT"@,
        HttpRequestMethod::DELETE => "DELETE"@,
    }
}

impl HttpRequestMethod {
    /// The name of the method.
    pub fn to_string(&self) -> (name: String)
        ensures
            name@ == method_name(*self),
    {
        match self {
            HttpRequestMethod::GET => "GET".to_owned(),
            HttpRequestMethod::POST => "POST".to_owned(),
            HttpRequestMethod::PUT => "PUT".to_owned(),
            HttpRequestMethod::DELETE => "DELETE".to_owned(),
        }
    }
}

/// Whether a header of that name is among the headers.
pub open spec fn has_name(headers: Seq<(Seq<char>, Seq<char>)>, name: Seq<char>) -> bool {
    exists|i: int| 0 <= i < headers.len() && (#[trigger] headers[i]).0 == name
}

/// The place of a header of that name.
pub open spec fn name_index(headers: Seq<(Seq<char>, Seq<char>)>, name: Seq<char>) -> int {
    choose|i: int| 0 <= i < headers.len() && (#[trigger] headers[i]).0 == name
}

/// Whether no name occurs twice.
pub open spec fn distinct_names(headers: Seq<(Seq<char>, Seq<char>)>) -> bool {
    forall|i: int, j: int|
        0 <= i < headers.len() && 0 <= j < headers.len() && i != j ==> (#[trigger] headers[i]).0 != (
        #[trigger] headers[j]).0
}

/// The headers after a name was given a value: a name that is there keeps
/// its place and takes the new value, a new name goes behind the others.
pub open spec fn with_header(
    headers: Seq<(Seq<char>, Seq<char>)>,
    name: Seq<char>,
    value: Seq<char>,
) -> Seq<(Seq<char>, Seq<char>)> {
    if has_name(headers, name) {
        headers.update(name_index(headers, name), (name, value))
    } else {
        headers.push((name, value))
    }
}

/// The headers that the user asked for: each name once, in the order in
/// which the names first came.
#[derive(Debug, PartialEq, Eq)]
pub struct HttpRequestHeaders(Vec<(String, String)>);

impl View for HttpRequestHeaders {
    type V = Seq<(Seq<char>, Seq<char>)>;

    closed spec fn view(&self) -> Seq<(Seq<char>, Seq<char>)> {
        pair_views(self.0@)
    }
}

impl HttpRequestHeaders {
    /// No name occurs twice.
    #[verifier::type_invariant]
    pub open spec fn wf(&self) -> bool {
        distinct_names(self@)
    }

    /// No headers.
    pub fn new() -> (headers: Self)
        ensures
            headers@ == Seq::<(Seq<char>, Seq<char>)>::empty(),
    {
        let headers = HttpRequestHeaders(Vec::new());
        headers
    }

    /// Gives a name a value; the last value given to a name is the one kept.
    pub fn insert(&mut self, name: String, value: String)
        ensures
            final(self)@ == with_header(old(self)@, name@, value@),
    {
        proof {
            use_type_invariant(&*self);
        }
        let mut entries: Vec<(String, String)> = Vec::new();
        std::mem::swap(&mut self.0, &mut entries);
        let ghost before = pair_views(entries@);
        let mut i: usize = 0;
        while i < entries.len()
            invariant
                i <= entries.len(),
                before == pair_views(entries@),
                before == old(self)@,
                distinct_names(before),
                forall|k: int| 0 <= k < i ==> (#[trigger] before[k]).0 != name@,
            decreases entries.len() - i,
        {
            if same_text(entries[i].0.as_str(), name.as_str()) {
                proof {
                    assert(before[i as int].0 == name@);
                }
                entries[i] = (name, value);
                proof {
                    assert(pair_views(entries@) =~= before.update(i as int, (name@, value@)));
                }
                self.0 = entries;
                return ;
            }
            i += 1;
        }
        entries.push((name, value));
        proof {
            assert(pair_views(entries@) =~= before.push((name@, value@)));
        }
        self.0 = entries;
    }

    /// The headers, name and value, in their order.
    pub fn entries(&self) -> (entries: &Vec<(String, String)>)
        ensures
            pair_views(entries@) == self@,
            distinct_names(self@),
    {
        proof {
            use_type_invariant(self);
        }
        &self.0
    }
}

/// The body of a request.
#[derive(Debug, PartialEq, Eq)]
pub enum HttpRequestBody {
    Empty,
    Json(String),
}

impl View for HttpRequestBody {
    type V = Option<Seq<char>>;

    open spec fn view(&self) -> Option<Seq<char>> {
        match *self {
            HttpRequestBody::Empty => None,
            HttpRequestBody::Json(text) => Some(text@),
        }
    }
}

/// One outbound HTTP call: where it goes, what it carries, the credential it
/// presents, and how the transport is to behave.
pub struct HttpRequestSpec<A: HttpAuthorization> {
    pub url: MyUrl,
    pub method: HttpRequestMethod,
    pub headers: HttpRequestHeaders,
    pub body: HttpRequestBody,
    pub authorization: A,
    /// Whether only HTTP/1.1 is to be spoken.
    pub http1: bool,
    /// The milliseconds after which the call is given up.
    pub timeout: u64,
    /// Whether the server's certificate goes unchecked.
    pub insecure: bool,
}

/// A request description as a mathematical record.
pub struct HttpRequestSpecView {
    pub url: Seq<char>,
    pub method: HttpRequestMethod,
    pub headers: Seq<(Seq<char>, Seq<char>)>,
    pub body: Option<Seq<char>>,
    pub authorization: Seq<char>,
    pub http1: bool,
    pub timeout: u64,
    pub insecure: bool,
}

impl<A: HttpAuthorization> View for HttpRequestSpec<A> {
    type V = HttpRequestSpecView;

    open spec fn view(&self) -> HttpRequestSpecView {
        HttpRequestSpecView {
            url: self.url@,
            method: self.method,
            headers: self.headers@,
            body: self.body@,
            authorization: self.authorization.authorization_value(),
            http1: self.http1,
            timeout: self.timeout,
            insecure: self.insecure,
        }
    }
}

} // verus!
