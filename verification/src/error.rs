//! The error kinds the engine surfaces to its caller.
//!
//! No error is recovered or retried internally: every kind is returned to
//! the immediate caller of the lookup entry point.

use vstd::prelude::*;
use vstd::string::*;

verus! {

/// An error raised by a lookup.
#[derive(Debug)]
pub enum Error {
    /// The store path does not denote an existing resource; raised before
    /// any query attempt, and no store is ever created at that path.
    StoreNotFound(String),
    /// A failure surfaced by the store during open, prepare, bind or
    /// fetch; carried verbatim as the store's own message.
    StoreError(String),
    /// A fetched row's field at this column index could not be decoded as
    /// text; the stream is aborted immediately.
    MalformedRow(usize),
    /// The consumer callback signaled failure with this message;
    /// iteration halts and the message is handed back to the caller.
    ConsumerError(String),
}

/// The text that `Error::message` returns for each error kind.
pub open spec fn error_message(e: Error) -> Seq<char> {
    match e {
        Error::StoreNotFound(p) => "Database "@ + p@ + " not found"@,
        Error::StoreError(m) => "SQL error: "@ + m@,
        Error::MalformedRow(c) => if c == 0 {
            "Invalid first column in result"@
        } else if c == 1 {
            "Invalid second column in result"@
        } else if c == 2 {
            "Invalid third column in result"@
        } else {
            "Invalid column in result"@
        },
        Error::ConsumerError(m) => m@,
    }
}

impl Error {
    /// A human-readable description of the error.
    pub fn message(&self) -> (r: String)
        ensures
            r@ == error_message(*self),
    {
        match self {
            Error::StoreNotFound(p) => {
                let mut s = String::from_str("Database ");
                s.append(p.as_str());
                s.append(" not found");
                s
            },
            Error::StoreError(m) => {
                let mut s = String::from_str("SQL error: ");
                s.append(m.as_str());
                s
            },
            Error::MalformedRow(c) => {
                if *c == 0 {
                    String::from_str("Invalid first column in result")
                } else if *c == 1 {
                    String::from_str("Invalid second column in result")
                } else if *c == 2 {
                    String::from_str("Invalid third column in result")
                } else {
                    String::from_str("Invalid column in result")
                }
            },
            Error::ConsumerError(m) => m.clone(),
        }
    }
}

} // verus!
