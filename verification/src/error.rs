//! The errors of the domain manager, each with its message.

use crate::text::{owned, push_str};
use vstd::prelude::*;

verus! {

/// An error of the domain manager. The store and I/O errors are carried by
/// their messages.
#[derive(Debug, Clone, PartialEq, Eq)]
pub enum DomainManagerError {
    Database(String),
    Api(String),
    Config(String),
    NotFound(String),
    Validation(String),
    Io(String),
    Service(String),
}

/// The message of an error: its kind, a colon and its detail.
pub open spec fn error_message(e: DomainManagerError) -> Seq<char> {
    match e {
        DomainManagerError::Database(m) => "Database error: "@ + m@,
        DomainManagerError::Api(m) => "API error: "@ + m@,
        DomainManagerError::Config(m) => "Configuration error: "@ + m@,
        DomainManagerError::NotFound(m) => "Not found: "@ + m@,
        DomainManagerError::Validation(m) => "Validation error: "@ + m@,
        DomainManagerError::Io(m) => "IO error: "@ + m@,
        DomainManagerError::Service(m) => "Service error: "@ + m@,
    }
}

impl DomainManagerError {
    /// An API error.
    pub fn api(msg: String) -> (r: DomainManagerError)
        ensures
            r == DomainManagerError::Api(msg),
    {
        DomainManagerError::Api(msg)
    }

    /// A configuration error.
    pub fn config(msg: String) -> (r: DomainManagerError)
        ensures
            r == DomainManagerError::Config(msg),
    {
        DomainManagerError::Config(msg)
    }

    /// A missing item.
    pub fn not_found(msg: String) -> (r: DomainManagerError)
        ensures
            r == DomainManagerError::NotFound(msg),
    {
        DomainManagerError::NotFound(msg)
    }

    /// A validation error.
    pub fn validation(msg: String) -> (r: DomainManagerError)
        ensures
            r == DomainManagerError::Validation(msg),
    {
        DomainManagerError::Validation(msg)
    }

    /// A service error.
    pub fn service(msg: String) -> (r: DomainManagerError)
        ensures
            r == DomainManagerError::Service(msg),
    {
        DomainManagerError::Service(msg)
    }

    /// The message of the error.
    pub fn message(&self) -> (r: String)
        ensures
            r@ == error_message(*self),
    {
        let (prefix, detail) = match self {
            DomainManagerError::Database(m) => ("Database error: ", m),
            DomainManagerError::Api(m) => ("API error: ", m),
            DomainManagerError::Config(m) => ("Configuration error: ", m),
            DomainManagerError::NotFound(m) => ("Not found: ", m),
            DomainManagerError::Validation(m) => ("Validation error: ", m),
            DomainManagerError::Io(m) => ("IO error: ", m),
            DomainManagerError::Service(m) => ("Service error: ", m),
        };
        let mut s = owned(prefix);
        push_str(&mut s, detail.as_str());
        s
    }
}

} // verus!
