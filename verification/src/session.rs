//! The state that a client carries from request to request: who is logged in,
//! and which task is the favorite.
//!
//! The state travels in signed cookies. What arrives is decoded before it gets
//! here, so a slot is empty, holds a value, or holds something that could not
//! be read.

use crate::tasks::models::Task;
use crate::users::models::LoggedUser;
use vstd::prelude::*;

verus! {

/// One slot of the session.
#[derive(Debug, PartialEq, Eq)]
pub enum Slot<T> {
    /// Nothing was written, or it was cleared, or it has expired.
    Empty,
    /// Something is there that is not a value of the slot's type; the text
    /// says why it could not be read.
    Unreadable(String),
    Filled(T),
}

/// The session of one client.
#[derive(Debug, PartialEq, Eq)]
pub struct Session {
    /// The account that is logged in.
    pub identity: Slot<LoggedUser>,
    /// The one task that is the favorite.
    pub favorite_task: Slot<Task>,
}

impl Session {
    /// The session of a client that has sent no cookie.
    pub fn new() -> (session: Session)
        ensures
            session == (Session { identity: Slot::Empty, favorite_task: Slot::Empty }),
    {
        Session { identity: Slot::Empty, favorite_task: Slot::Empty }
    }
}

} // verus!
