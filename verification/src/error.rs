//! The one error type of the library.

use vstd::prelude::*;
use vstd::string::StringExecFns;

verus! {

/// Everything that can go wrong, by where it went wrong. Each variant holds
/// the text that its source printed.
#[derive(Debug, Clone, PartialEq, Eq)]
pub enum Error {
    /// A record could not be encoded or decoded.
    Bin(String),
    /// A JSON document could not be written or read.
    Json(String),
    /// The message broker failed.
    Mq(String),
    /// A failure of the library itself.
    Other(String),
    /// The store failed.
    Pg(String),
    /// A channel between two tasks was closed.
    Recv(String),
    /// A token was not a UUID.
    Uuid(String),
    /// A pair of hex digits was not a byte.
    U8(String),
}

impl Error {
    /// The text that the error holds.
    pub open spec fn text(self) -> Seq<char> {
        match self {
            Error::Bin(msg) => msg@,
            Error::Json(msg) => msg@,
            Error::Mq(msg) => msg@,
            Error::Other(msg) => msg@,
            Error::Pg(msg) => msg@,
            Error::Recv(msg) => msg@,
            Error::Uuid(msg) => msg@,
            Error::U8(msg) => msg@,
        }
    }

    /// A failure of the library itself, with `msg` as its text.
    pub fn new(msg: &str) -> (e: Error)
        ensures
            e is Other,
            e.text() == msg@,
    {
        Error::Other(String::from_str(msg))
    }

    /// The error as text, whatever its variant.
    pub fn to_string(&self) -> (text: String)
        ensures
            text@ == self.text(),
    {
        match self {
            Error::Bin(msg) => msg.clone(),
            Error::Json(msg) => msg.clone(),
            Error::Mq(msg) => msg.clone(),
            Error::Other(msg) => msg.clone(),
            Error::Pg(msg) => msg.clone(),
            Error::Recv(msg) => msg.clone(),
            Error::Uuid(msg) => msg.clone(),
            Error::U8(msg) => msg.clone(),
        }
    }
}

} // verus!
