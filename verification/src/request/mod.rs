//! One outbound HTTP call: what it is to send, and the course of sending it.

use vstd::prelude::*;

pub mod request_executor;
pub mod request_spec;

verus! {

/// Why a request did not run to its end.
#[derive(Debug, PartialEq, Eq)]
pub enum RequestExecutionError {
    /// The address names no host.
    NoHost,
    /// The address names no port, and its scheme has none of its own.
    NoPort,
    /// The host's name could not be resolved.
    FailedToResolveHost { host: String, cause: String },
    /// The request could not be built, as with a malformed header.
    FailedToBuildHttpRequest { cause: String },
    /// The exchange with the server failed.
    FailedToExecuteRequest { cause: String },
    /// The body of the response could not be read as text.
    FailedToReadResponseBody { cause: String },
    /// The program reported something that the state of the run did not
    /// await.
    UnexpectedEvent,
}

/// A `RequestExecutionError` with its texts by their characters.
pub enum RequestFault {
    NoHost,
    NoPort,
    FailedToResolveHost(Seq<char>, Seq<char>),
    FailedToBuildHttpRequest(Seq<char>),
    FailedToExecuteRequest(Seq<char>),
    FailedToReadResponseBody(Seq<char>),
    UnexpectedEvent,
}

impl View for RequestExecutionError {
    type V = RequestFault;

    open spec fn view(&self) -> RequestFault {
        match *self {
            RequestExecutionError::NoHost => RequestFault::NoHost,
            RequestExecutionError::NoPort => RequestFault::NoPort,
            RequestExecutionError::FailedToResolveHost { host, cause } => {
                RequestFault::FailedToResolveHost(host@, cause@)
            },
            RequestExecutionError::FailedToBuildHttpRequest { cause } => {
                RequestFault::FailedToBuildHttpRequest(cause@)
            },
            RequestExecutionError::FailedToExecuteRequest { cause } => {
                RequestFault::FailedToExecuteRequest(cause@)
            },
            RequestExecutionError::FailedToReadResponseBody { cause } => {
                RequestFault::FailedToReadResponseBody(cause@)
            },
            RequestExecutionError::UnexpectedEvent => RequestFault::UnexpectedEvent,
        }
    }
}

} // verus!
