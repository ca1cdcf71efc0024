//! Curl with OAuth: the credential registry and the request pipeline of a
//! command-line HTTP client that obtains a bearer token from an identity
//! provider before it calls the target server.
//!
//! The library holds the decisions; reading files, talking to the network and
//! writing to the terminal are left to the program around it.

pub mod address;
pub mod keycloak;
pub mod output;
pub mod auth;
pub mod text;
pub mod request;
pub mod cli;
