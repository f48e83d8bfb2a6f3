//! Tasks: the record and the commands that insert, update and search.

use super::errors::TaskError;
use crate::errors::{AppError, PayloadError};
use crate::text::{blank, is_blank};
use vstd::prelude::*;

verus! {

/// A task, as the task store holds it.
#[derive(Debug, PartialEq, Eq)]
pub struct Task {
    pub id: i64,
    pub title: String,
    pub details: String,
}

/// The command that inserts a task.
#[derive(Debug, PartialEq, Eq)]
pub struct InsertTask {
    pub non_empty_title: String,
    pub details: String,
}

/// The command that gives a task a new title and new details.
#[derive(Debug, PartialEq, Eq)]
pub struct UpdateTask {
    pub id: i64,
    pub new_title: String,
    pub details: String,
}

/// What a search for tasks asks for.
#[derive(Debug, PartialEq, Eq)]
pub struct QueryTask {
    pub title: String,
    pub details: String,
}

/// What a task holds.
pub struct TaskView {
    pub id: i64,
    pub title: Seq<char>,
    pub details: Seq<char>,
}

impl View for Task {
    type V = TaskView;

    open spec fn view(&self) -> TaskView {
        TaskView { id: self.id, title: self.title@, details: self.details@ }
    }
}

/// The rule that a title breaks, if any: it may not be blank.
pub open spec fn title_fault(title: Seq<char>) -> Option<TaskError> {
    if is_blank(title) {
        Some(TaskError::EmptyTitle)
    } else {
        None
    }
}

impl InsertTask {
    /// The rule that the command breaks, if any.
    pub open spec fn fault(self) -> Option<TaskError> {
        title_fault(self.non_empty_title@)
    }

    /// Hands the command back unless its title is blank.
    pub fn validate(self) -> (res: Result<Self, TaskError>)
        ensures
            res == match self.fault() {
                Some(fault) => Err::<Self, TaskError>(fault),
                None => Ok(self),
            },
    {
        if blank(self.non_empty_title.as_str()) {
            Err(TaskError::EmptyTitle)
        } else {
            Ok(self)
        }
    }

    /// The last step of reading the command from a request: `decoded` is what
    /// decoding the body gave. A body that gave no command fails as it did,
    /// and no rule is tried on it. Only a command that breaks no rule comes
    /// out.
    pub fn from_request(decoded: Result<InsertTask, PayloadError>) -> (res: Result<InsertTask, AppError>)
        ensures
            res == match decoded {
                Err(fail) => Err::<InsertTask, AppError>(AppError::Payload(fail)),
                Ok(command) => match command.fault() {
                    Some(fault) => Err(AppError::Task(fault)),
                    None => Ok(command),
                },
            },
    {
        match decoded {
            Ok(insert_task) => match insert_task.validate() {
                Ok(insert_task) => Ok(insert_task),
                Err(fail) => Err(AppError::Task(fail)),
            },
            Err(fail) => Err(AppError::Payload(fail)),
        }
    }
}

impl InsertTask {
    /// The task that the task store holds once it has inserted the command
    /// under `id`.
    pub fn inserted(self, id: i64) -> (task: Task)
        ensures
            task == (Task { id, title: self.non_empty_title, details: self.details }),
    {
        Task { id, title: self.non_empty_title, details: self.details }
    }
}

impl UpdateTask {
    /// The rule that the command breaks, if any.
    pub open spec fn fault(self) -> Option<TaskError> {
        title_fault(self.new_title@)
    }

    /// Hands the command back unless its new title is blank.
    pub fn validate(self) -> (res: Result<Self, TaskError>)
        ensures
            res == match self.fault() {
                Some(fault) => Err::<Self, TaskError>(fault),
                None => Ok(self),
            },
    {
        if blank(self.new_title.as_str()) {
            Err(TaskError::EmptyTitle)
        } else {
            Ok(self)
        }
    }

    /// The last step of reading the command from a request: `decoded` is what
    /// decoding the body gave. A body that gave no command fails as it did,
    /// and no rule is tried on it. Only a command that breaks no rule comes
    /// out.
    pub fn from_request(decoded: Result<UpdateTask, PayloadError>) -> (res: Result<UpdateTask, AppError>)
        ensures
            res == match decoded {
                Err(fail) => Err::<UpdateTask, AppError>(AppError::Payload(fail)),
                Ok(command) => match command.fault() {
                    Some(fault) => Err(AppError::Task(fault)),
                    None => Ok(command),
                },
            },
    {
        match decoded {
            Ok(update_task) => match update_task.validate() {
                Ok(update_task) => Ok(update_task),
                Err(fail) => Err(AppError::Task(fail)),
            },
            Err(fail) => Err(AppError::Payload(fail)),
        }
    }
}

impl Clone for Task {
    fn clone(&self) -> (res: Self)
        ensures
            res == *self,
    {
        Task { id: self.id, title: self.title.clone(), details: self.details.clone() }
    }
}

} // verus!
