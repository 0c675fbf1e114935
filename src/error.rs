//! Errors of the client library.

use crate::text::{concat, decimal, decimal_string, owned};
use vstd::prelude::*;

verus! {

/// Main error type for client operations.
///
/// Failures that the transport reports (an HTTP failure, a JSON decoding
/// error, an I/O error, a malformed URL) reach the library as their text.
#[derive(Debug, Clone, PartialEq, Eq)]
pub enum OramaError {
    /// HTTP client errors
    Http { message: String },
    /// JSON serialization/deserialization errors
    Json { message: String },
    /// Authentication errors
    Auth { message: String },
    /// API errors returned by the service
    Api { status: u16, message: String },
    /// Configuration errors
    Config { message: String },
    /// Stream processing errors
    Stream { message: String },
    /// IO errors
    Io { message: String },
    /// URL parsing errors
    Url { message: String },
    /// Generic errors
    Generic { message: String },
    /// An operation was asked for in a session state that does not allow it
    InvalidState { message: String },
    /// A replay was asked for but no request parameters are stored
    MissingParameters { message: String },
    /// A stream ran past its time limit
    Timeout { message: String },
    /// The service reported an error inside the stream
    Upstream { message: String },
}

impl OramaError {
    /// Create a new authentication error
    pub fn auth(message: &str) -> (r: Self)
        ensures
            r matches OramaError::Auth { message: m } && m@ == message@,
    {
        OramaError::Auth { message: owned(message) }
    }

    /// Create a new API error
    pub fn api(status: u16, message: &str) -> (r: Self)
        ensures
            r matches OramaError::Api { status: s, message: m } && s == status && m@ == message@,
    {
        OramaError::Api { status, message: owned(message) }
    }

    /// Create a new configuration error
    pub fn config(message: &str) -> (r: Self)
        ensures
            r matches OramaError::Config { message: m } && m@ == message@,
    {
        OramaError::Config { message: owned(message) }
    }

    /// Create a new stream error
    pub fn stream(message: &str) -> (r: Self)
        ensures
            r matches OramaError::Stream { message: m } && m@ == message@,
    {
        OramaError::Stream { message: owned(message) }
    }

    /// Create a new generic error
    pub fn generic(message: &str) -> (r: Self)
        ensures
            r matches OramaError::Generic { message: m } && m@ == message@,
    {
        OramaError::Generic { message: owned(message) }
    }

    /// The human-readable description of the error.
    pub open spec fn text(&self) -> Seq<char> {
        match self {
            OramaError::Http { message } => "HTTP error: "@ + message@,
            OramaError::Json { message } => "JSON error: "@ + message@,
            OramaError::Auth { message } => "Authentication failed: "@ + message@,
            OramaError::Api { status, message } => "API error (status "@ + decimal(
                *status as nat,
            ) + "): "@ + message@,
            OramaError::Config { message } => "Configuration error: "@ + message@,
            OramaError::Stream { message } => "Stream error: "@ + message@,
            OramaError::Io { message } => "IO error: "@ + message@,
            OramaError::Url { message } => "URL error: "@ + message@,
            OramaError::Generic { message } => "Error: "@ + message@,
            OramaError::InvalidState { message } => "Invalid state: "@ + message@,
            OramaError::MissingParameters { message } => "Missing parameters: "@ + message@,
            OramaError::Timeout { message } => "Timeout: "@ + message@,
            OramaError::Upstream { message } => "Upstream error: "@ + message@,
        }
    }

    /// Renders the error as text, the way it is shown to a user.
    pub fn display_text(&self) -> (r: String)
        ensures
            r@ == self.text(),
    {
        match self {
            OramaError::Http { message } => concat("HTTP error: ", message.as_str()),
            OramaError::Json { message } => concat("JSON error: ", message.as_str()),
            OramaError::Auth { message } => concat("Authentication failed: ", message.as_str()),
            OramaError::Api { status, message } => {
                let mut r = owned("API error (status ");
                let digits = decimal_string(*status as u64);
                r.append(digits.as_str());
                r.append("): ");
                r.append(message.as_str());
                r
            },
            OramaError::Config { message } => concat("Configuration error: ", message.as_str()),
            OramaError::Stream { message } => concat("Stream error: ", message.as_str()),
            OramaError::Io { message } => concat("IO error: ", message.as_str()),
            OramaError::Url { message } => concat("URL error: ", message.as_str()),
            OramaError::Generic { message } => concat("Error: ", message.as_str()),
            OramaError::InvalidState { message } => concat("Invalid state: ", message.as_str()),
            OramaError::MissingParameters { message } => concat(
                "Missing parameters: ",
                message.as_str(),
            ),
            OramaError::Timeout { message } => concat("Timeout: ", message.as_str()),
            OramaError::Upstream { message } => concat("Upstream error: ", message.as_str()),
        }
    }
}

} // verus!
