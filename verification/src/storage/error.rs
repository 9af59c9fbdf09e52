//! Errors of the storage module.

use vstd::prelude::*;

verus! {

broadcast use vstd::string::to_string_from_display_ensures_for_str;

/// Errors of storage.
#[derive(Debug)]
pub enum Error {
    Open(String),
    Query(String),
    Serialization(String),
}

/// The message of an error.
pub open spec fn error_message(e: Error) -> Seq<char> {
    match e {
        Error::Open(m) => "Failed to open database: "@ + m@,
        Error::Query(m) => "Query error: "@ + m@,
        Error::Serialization(m) => "Serialization error: "@ + m@,
    }
}

impl Error {
    /// The error's message.
    pub fn to_string(&self) -> (r: String)
        ensures
            r@ == error_message(*self),
    {
        let (prefix, m) = match self {
            Error::Open(m) => ("Failed to open database: ", m),
            Error::Query(m) => ("Query error: ", m),
            Error::Serialization(m) => ("Serialization error: ", m),
        };
        let mut r = prefix.to_string();
        r.append(m.as_str());
        r
    }
}

} // verus!
