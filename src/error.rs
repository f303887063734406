//! Errors: the startup configuration's, the per-request host parsing's, and a
//! report that pairs a description with the underlying cause.
use vstd::prelude::*;

verus! {

/// A failure described by a message, together with the underlying cause as text.
#[derive(Debug, Clone)]
pub struct Error {
    pub message: String,
    pub error: String,
}

impl Error {
    /// An error from a message and a description of its cause.
    pub fn from_both(message: &str, error: &str) -> (r: Error)
        ensures
            r.message@ == message@,
            r.error@ == error@,
    {
        Error { message: message.to_owned(), error: error.to_owned() }
    }

    /// A conversion that wraps a cause, given as text, under `message`.
    pub fn from_msg(message: &str) -> (f: impl FnOnce(String) -> Error)
        ensures
            forall|cause: String| #[trigger] f.requires((cause,)),
            forall|cause: String, r: Error|
                f.ensures((cause,), r) ==> r.message@ == message@ && r.error@ == cause@,
    {
        let message = message.to_owned();
        move |cause: String| -> (r: Error)
            ensures
                r.message@ == message@,
                r.error@ == cause@,
            { Error { message, error: cause } }
    }
}

/// Why a request's host could not be read.
#[derive(Debug, Clone, Copy, PartialEq, Eq, Structural)]
pub enum ParseError {
    /// The request carries no `Host` header.
    MissingHost,
    /// The `Host` header's bytes are not header text.
    InvalidHeaderEncoding,
    /// The `Host` header is empty.
    EmptyHost,
}

/// Why the startup configuration could not be resolved.
#[derive(Debug, Clone, PartialEq, Eq)]
pub enum ConfigError {
    /// A required setting is absent; the text names it.
    Missing(String),
    /// The port is absent or not a decimal number from 0 to 65535.
    InvalidPort,
    /// The host is absent or not four dot-separated decimal numbers from 0 to 255.
    InvalidHost,
}

impl ConfigError {
    /// A report of this error, for the operator who started the server.
    pub fn to_error(&self) -> (r: Error)
        ensures
            self matches ConfigError::Missing(name) ==> r.message@ == "Missing setting"@
                && r.error@ == name@,
            self is InvalidPort ==> r.message@ == "SERVER_PORT is not a valid port number"@
                && r.error@ == "expected a decimal number from 0 to 65535"@,
            self is InvalidHost ==> r.message@ == "SERVER_HOST is not a valid IPv4 address"@
                && r.error@ == "expected four dot-separated decimal numbers from 0 to 255"@,
    {
        match self {
            ConfigError::Missing(name) => Error::from_both("Missing setting", name.as_str()),
            ConfigError::InvalidPort => Error::from_both(
                "SERVER_PORT is not a valid port number",
                "expected a decimal number from 0 to 65535",
            ),
            ConfigError::InvalidHost => Error::from_both(
                "SERVER_HOST is not a valid IPv4 address",
                "expected four dot-separated decimal numbers from 0 to 255",
            ),
        }
    }
}

} // verus!
