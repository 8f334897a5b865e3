//! The error type of the client and its human-readable messages.
use vstd::prelude::*;
use crate::text::{decimal, push_decimal};

verus! {

/// What kind of transport failure happened before any response arrived.
#[derive(Clone, Copy, Debug, PartialEq, Eq, Structural)]
pub enum TransportKind {
    /// The request or a read timed out.
    Timeout,
    /// The connection could not be established.
    Connect,
    /// Any other transport failure (DNS, TLS, protocol).
    Other,
}

/// Everything that can go wrong in the client.
#[derive(Clone, Debug)]
pub enum GrokError {
    ConfigMissing(String),
    ConfigInvalid(String),
    /// A transport failure, with the transport's own description of it.
    Http { kind: TransportKind, message: String },
    JsonParse(String),
    Io(String),
    /// A response with a non-success status, and its body text.
    Api { status: u16, message: String },
    /// A time limit of the given number of seconds was exceeded.
    Timeout(u64),
    MaxRetries { attempts: u32, last_error: String },
    InvalidParam(String),
    ConfigFile { path: String, message: String },
}

/// The human-readable message of an error.
pub open spec fn message_of(e: GrokError) -> Seq<char> {
    match e {
        GrokError::ConfigMissing(m) => "Configuration missing: "@ + m@,
        GrokError::ConfigInvalid(m) => "Configuration invalid: "@ + m@,
        GrokError::Http { message, .. } => "HTTP error: "@ + message@,
        GrokError::JsonParse(m) => "JSON parse error: "@ + m@,
        GrokError::Io(m) => "I/O error: "@ + m@,
        GrokError::Api { status, message } => "API error ("@ + decimal(status as nat) + "): "@
            + message@,
        GrokError::Timeout(s) => "Timeout after "@ + decimal(s as nat) + " seconds"@,
        GrokError::MaxRetries { attempts, last_error } => "Max retries exceeded ("@ + decimal(
            attempts as nat,
        ) + " attempts): "@ + last_error@,
        GrokError::InvalidParam(m) => "Invalid parameter: "@ + m@,
        GrokError::ConfigFile { path, message } => "Config file error at "@ + path@ + ": "@
            + message@,
    }
}

fn joined(a: &str, b: &String) -> (r: String)
    ensures
        r@ == a@ + b@,
{
    let mut s = String::from_str(a);
    s.append(b.as_str());
    s
}

impl GrokError {
    /// The human-readable message of this error.
    pub fn message(&self) -> (r: String)
        ensures
            r@ == message_of(*self),
    {
        match self {
            GrokError::ConfigMissing(m) => joined("Configuration missing: ", m),
            GrokError::ConfigInvalid(m) => joined("Configuration invalid: ", m),
            GrokError::Http { message, .. } => joined("HTTP error: ", message),
            GrokError::JsonParse(m) => joined("JSON parse error: ", m),
            GrokError::Io(m) => joined("I/O error: ", m),
            GrokError::Api { status, message } => {
                let mut s = String::from_str("API error (");
                push_decimal(&mut s, *status as u64);
                s.append("): ");
                s.append(message.as_str());
                s
            },
            GrokError::Timeout(secs) => {
                let mut s = String::from_str("Timeout after ");
                push_decimal(&mut s, *secs);
                s.append(" seconds");
                s
            },
            GrokError::MaxRetries { attempts, last_error } => {
                let mut s = String::from_str("Max retries exceeded (");
                push_decimal(&mut s, *attempts as u64);
                s.append(" attempts): ");
                s.append(last_error.as_str());
                s
            },
            GrokError::InvalidParam(m) => joined("Invalid parameter: ", m),
            GrokError::ConfigFile { path, message } => {
                let mut s = String::from_str("Config file error at ");
                s.append(path.as_str());
                s.append(": ");
                s.append(message.as_str());
                s
            },
        }
    }
}

} // verus!
