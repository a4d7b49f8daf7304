//! Error values of the library.

use vstd::prelude::*;

verus! {

/// Main error type of the library. Each variant carries a message, except
/// `Timeout`.
#[derive(Debug, Clone, PartialEq, Eq)]
pub enum Error {
    /// Network operation error
    Network(String),
    /// Packet parsing error
    PacketParse(String),
    /// Invalid input
    InvalidInput(String),
    /// Operation timed out
    Timeout,
    /// Permission error (raw sockets need CAP_NET_RAW)
    Permission(String),
    /// Input/output error, with its message
    Io(String),
    /// Database error
    Database(String),
    /// Configuration error
    Config(String),
    /// Script execution error
    Script(String),
    /// Any other error
    Other(String),
}

/// Result type of the library.
pub type Result<T> = core::result::Result<T, Error>;

/// The text that an error displays.
pub open spec fn error_text(e: Error) -> Seq<char> {
    match e {
        Error::Network(m) => "Network error: "@ + m@,
        Error::PacketParse(m) => "Packet parse error: "@ + m@,
        Error::InvalidInput(m) => "Invalid input: "@ + m@,
        Error::Timeout => "Operation timed out"@,
        Error::Permission(m) => "Permission denied: "@ + m@,
        Error::Io(m) => "IO error: "@ + m@,
        Error::Database(m) => "Database error: "@ + m@,
        Error::Config(m) => "Configuration error: "@ + m@,
        Error::Script(m) => "Script error: "@ + m@,
        Error::Other(m) => m@,
    }
}

impl Error {
    /// The text that the error displays.
    pub fn message(&self) -> (r: String)
        ensures
            r@ == error_text(*self),
    {
        let mut s = String::new();
        match self {
            Error::Network(m) => {
                crate::text::push_str(&mut s, "Network error: ");
                crate::text::push_str(&mut s, m.as_str());
            },
            Error::PacketParse(m) => {
                crate::text::push_str(&mut s, "Packet parse error: ");
                crate::text::push_str(&mut s, m.as_str());
            },
            Error::InvalidInput(m) => {
                crate::text::push_str(&mut s, "Invalid input: ");
                crate::text::push_str(&mut s, m.as_str());
            },
            Error::Timeout => {
                crate::text::push_str(&mut s, "Operation timed out");
            },
            Error::Permission(m) => {
                crate::text::push_str(&mut s, "Permission denied: ");
                crate::text::push_str(&mut s, m.as_str());
            },
            Error::Io(m) => {
                crate::text::push_str(&mut s, "IO error: ");
                crate::text::push_str(&mut s, m.as_str());
            },
            Error::Database(m) => {
                crate::text::push_str(&mut s, "Database error: ");
                crate::text::push_str(&mut s, m.as_str());
            },
            Error::Config(m) => {
                crate::text::push_str(&mut s, "Configuration error: ");
                crate::text::push_str(&mut s, m.as_str());
            },
            Error::Script(m) => {
                crate::text::push_str(&mut s, "Script error: ");
                crate::text::push_str(&mut s, m.as_str());
            },
            Error::Other(m) => {
                crate::text::push_str(&mut s, m.as_str());
            },
        }
        s
    }
}

} // verus!
