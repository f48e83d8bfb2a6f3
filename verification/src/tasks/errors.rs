//! What can go wrong with a task.

use crate::text::{push_signed_decimal, signed_decimal};
use vstd::prelude::*;

verus! {

#[derive(Clone, Copy, Debug, PartialEq, Eq, Structural)]
pub enum TaskError {
    /// The title of a task to insert or update is blank.
    EmptyTitle,
    /// The task store has no task with this id.
    NotFound(i64),
    /// No favorite is set and none could be set.
    NoneFavorite,
    /// The task store has no task to list.
    Empty,
}

impl TaskError {
    /// The HTTP status that the error is answered with.
    pub open spec fn status(self) -> u16 {
        match self {
            TaskError::EmptyTitle => 422,
            TaskError::NotFound(_) => 404,
            TaskError::NoneFavorite => 404,
            TaskError::Empty => 404,
        }
    }

    /// The text that the error is reported with.
    pub open spec fn message(self) -> Seq<char> {
        match self {
            TaskError::EmptyTitle => "`title` field of `Task` cannot be empty!"@,
            TaskError::NotFound(id) => "Could not find any `Task` for id: `"@ + signed_decimal(
                id as int,
            ) + "`!"@,
            TaskError::NoneFavorite => "You have not favorited any `Task` yet!"@,
            TaskError::Empty => "Could not find any `Task`!"@,
        }
    }

    pub fn status_code(&self) -> (code: u16)
        ensures
            code == self.status(),
    {
        match self {
            TaskError::EmptyTitle => 422,
            TaskError::NotFound(_) => 404,
            TaskError::NoneFavorite => 404,
            TaskError::Empty => 404,
        }
    }

    pub fn to_string(&self) -> (text: String)
        ensures
            text@ == self.message(),
    {
        match self {
            TaskError::EmptyTitle => String::from_str("`title` field of `Task` cannot be empty!"),
            TaskError::NotFound(id) => {
                let mut text = String::from_str("Could not find any `Task` for id: `");
                push_signed_decimal(&mut text, *id);
                text.append("`!");
                text
            },
            TaskError::NoneFavorite => String::from_str("You have not favorited any `Task` yet!"),
            TaskError::Empty => String::from_str("Could not find any `Task`!"),
        }
    }
}

} // verus!
