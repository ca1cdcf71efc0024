//! What the user asks for, once the command line has been read.

use vstd::prelude::*;

verus! {

/// The arguments of a request command.
#[derive(Debug, Clone, PartialEq, Eq)]
pub struct HttpRequestArgs {
    /// The address to call.
    pub url: String,
    /// The headers to send, each as `Name: Value`.
    pub headers: Vec<String>,
    /// The JSON body, given on the command line.
    pub json_body: Option<String>,
    /// The file that holds the JSON body; used where no body is given on the
    /// command line.
    pub json_body_file: Option<String>,
    /// Whether only HTTP/1.1 is to be spoken.
    pub http1: bool,
    /// The milliseconds after which the call is given up.
    pub timeout_millis: Option<u64>,
    /// Whether the server's certificate goes unchecked.
    pub insecure: bool,
    /// Whether the diagnostic stream is to be written.
    pub verbose: bool,
}

/// A command on the registry of identity-provider profiles.
#[derive(Debug, Clone, PartialEq, Eq)]
pub enum KeycloakCommand {
    Add {
        url: String,
        alias: String,
        realm: String,
        client_id: String,
        client_secret: String,
        username: String,
        password: String,
        default: bool,
    },
    Remove { alias: String },
    SetDefault { alias: String },
    List,
}

} // verus!
