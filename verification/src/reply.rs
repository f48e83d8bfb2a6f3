//! What a route answers with, before it is put on the wire.

use vstd::prelude::*;

verus! {

/// An answer with a text body: the HTTP status and the body.
#[derive(Debug, PartialEq, Eq)]
pub struct Reply {
    pub status: u16,
    pub body: String,
}

/// An answer whose body is a value that goes out as JSON: the HTTP status
/// and the value.
#[derive(Debug, PartialEq, Eq)]
pub struct Answer<T> {
    pub status: u16,
    pub body: T,
}

pub const OK: u16 = 200;

pub const CREATED: u16 = 201;

pub const NO_CONTENT: u16 = 204;

pub const FOUND: u16 = 302;

pub const NOT_MODIFIED: u16 = 304;

impl<T> Answer<T> {
    /// The answer to a request that created `body`.
    pub fn created(body: T) -> (answer: Answer<T>)
        ensures
            answer == (Answer { status: CREATED, body }),
    {
        Answer { status: CREATED, body }
    }

    /// The answer to a request that found `body`.
    pub fn found(body: T) -> (answer: Answer<T>)
        ensures
            answer == (Answer { status: FOUND, body }),
    {
        Answer { status: FOUND, body }
    }
}

/// A status from 400 to 499: the request was at fault.
pub open spec fn is_client_error(status: u16) -> bool {
    400 <= status < 500
}

/// A status from 500 to 599: the service was at fault.
pub open spec fn is_server_error(status: u16) -> bool {
    500 <= status < 600
}

} // verus!
