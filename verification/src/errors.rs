//! The one error type of the service's boundary. Each variant has its HTTP
//! status and its text; failures of the store, of JSON and of the transport
//! are held by the text they were reported with.

use crate::reply::{is_client_error, is_server_error, Reply};
use crate::tasks::errors::TaskError;
use crate::text::{decimal, push_decimal};
use crate::users::errors::UserError;
use vstd::prelude::*;

verus! {

/// Why a request body gave no command.
#[derive(Debug, PartialEq, Eq)]
pub enum PayloadError {
    /// The announced length of the body is over the limit.
    OverflowKnownLength { length: usize, limit: usize },
    /// The body grew over the limit while it was read.
    Overflow { limit: usize },
    /// The content type is not JSON.
    ContentType,
    /// The body is not the JSON of the command; the text says why.
    Deserialize(String),
    /// A value could not be written as JSON; the text says why.
    Serialize(String),
    /// The body could not be read; the transport gave the status and the text.
    Payload { status: u16, text: String },
}

#[derive(Debug, PartialEq, Eq)]
pub enum AppError {
    Task(TaskError),
    User(UserError),
    /// The store failed; the text is the store's.
    Database(String),
    /// A session slot or a value could not be read or written as JSON.
    Json(String),
    /// The framework failed, and gave the status and the text.
    Actix { status: u16, text: String },
    Payload(PayloadError),
}

impl PayloadError {
    /// The HTTP status that the error is answered with.
    pub open spec fn status(self) -> u16 {
        match self {
            PayloadError::OverflowKnownLength { .. } => 413,
            PayloadError::Overflow { .. } => 413,
            PayloadError::ContentType => 400,
            PayloadError::Deserialize(_) => 400,
            PayloadError::Serialize(_) => 500,
            PayloadError::Payload { status, .. } => status,
        }
    }

    /// The text that the error is reported with.
    pub open spec fn message(self) -> Seq<char> {
        match self {
            PayloadError::OverflowKnownLength { length, limit } => "JSON payload ("@ + decimal(
                length as nat,
            ) + " bytes) is larger than allowed (limit: "@ + decimal(limit as nat) + " bytes)."@,
            PayloadError::Overflow { limit } => "JSON payload has exceeded limit ("@ + decimal(
                limit as nat,
            ) + " bytes)."@,
            PayloadError::ContentType => "Content type error"@,
            PayloadError::Deserialize(text) => "Json deserialize error: "@ + text@,
            PayloadError::Serialize(text) => "Json serialize error: "@ + text@,
            PayloadError::Payload { text, .. } => "Error that occur during reading payload: "@
                + text@,
        }
    }

    pub fn status_code(&self) -> (code: u16)
        ensures
            code == self.status(),
    {
        match self {
            PayloadError::OverflowKnownLength { .. } => 413,
            PayloadError::Overflow { .. } => 413,
            PayloadError::ContentType => 400,
            PayloadError::Deserialize(_) => 400,
            PayloadError::Serialize(_) => 500,
            PayloadError::Payload { status, .. } => *status,
        }
    }

    pub fn to_string(&self) -> (text: String)
        ensures
            text@ == self.message(),
    {
        match self {
            PayloadError::OverflowKnownLength { length, limit } => {
                let mut text = String::from_str("JSON payload (");
                push_decimal(&mut text, *length as u64);
                text.append(" bytes) is larger than allowed (limit: ");
                push_decimal(&mut text, *limit as u64);
                text.append(" bytes).");
                text
            },
            PayloadError::Overflow { limit } => {
                let mut text = String::from_str("JSON payload has exceeded limit (");
                push_decimal(&mut text, *limit as u64);
                text.append(" bytes).");
                text
            },
            PayloadError::ContentType => String::from_str("Content type error"),
            PayloadError::Deserialize(why) => String::from_str("Json deserialize error: ").concat(
                why.as_str(),
            ),
            PayloadError::Serialize(why) => String::from_str("Json serialize error: ").concat(
                why.as_str(),
            ),
            PayloadError::Payload { text, .. } => String::from_str(
                "Error that occur during reading payload: ",
            ).concat(text.as_str()),
        }
    }
}

impl AppError {
    /// The HTTP status that the error is answered with.
    pub open spec fn status(self) -> u16 {
        match self {
            AppError::Task(error) => error.status(),
            AppError::User(error) => error.status(),
            AppError::Database(_) => 500,
            AppError::Json(_) => 500,
            AppError::Actix { status, .. } => status,
            AppError::Payload(error) => error.status(),
        }
    }

    /// What stands between the quotes of the error's text.
    pub open spec fn cause(self) -> Seq<char> {
        match self {
            AppError::Task(error) => error.message(),
            AppError::User(error) => error.message(),
            AppError::Database(text) => text@,
            AppError::Json(text) => text@,
            AppError::Actix { text, .. } => text@,
            AppError::Payload(error) => error.message(),
        }
    }

    /// The text that the error is reported with: the cause between backquotes.
    pub open spec fn message(self) -> Seq<char> {
        "`"@ + self.cause() + "`"@
    }

    pub fn status_code(&self) -> (code: u16)
        ensures
            code == self.status(),
    {
        match self {
            AppError::Task(task_error) => match task_error {
                TaskError::EmptyTitle => 422,
                TaskError::NotFound(_) => 404,
                TaskError::NoneFavorite => 404,
                TaskError::Empty => 404,
            },
            AppError::User(user_error) => match user_error {
                UserError::EmptyUsername => 422,
                UserError::UsernameLength => 422,
                UserError::UsernameInvalidCharacter => 422,
                UserError::EmptyPassword => 422,
                UserError::PasswordLength => 422,
                UserError::PasswordInvalidCharacter => 422,
                UserError::NotFound(_) => 404,
                UserError::LoginFailed => 401,
                UserError::NotLoggedIn => 401,
                UserError::InvalidToken => 401,
                UserError::Empty => 404,
            },
            AppError::Database(_) => 500,
            AppError::Json(_) => 500,
            AppError::Actix { status, .. } => *status,
            AppError::Payload(fail) => fail.status_code(),
        }
    }

    /// The cause of the error, as text.
    pub fn reason(&self) -> (text: String)
        ensures
            text@ == self.cause(),
    {
        match self {
            AppError::Task(error) => error.to_string(),
            AppError::User(error) => error.to_string(),
            AppError::Database(cause) => cause.clone(),
            AppError::Json(cause) => cause.clone(),
            AppError::Actix { text: cause, .. } => cause.clone(),
            AppError::Payload(error) => error.to_string(),
        }
    }

    pub fn to_string(&self) -> (text: String)
        ensures
            text@ == self.message(),
    {
        let mut text = String::from_str("`");
        let cause = self.reason();
        text.append(cause.as_str());
        text.append("`");
        text
    }

    /// The answer to a request that failed with this error.
    pub fn error_response(&self) -> (reply: Reply)
        ensures
            reply.status == self.status(),
            reply.body@ == self.message(),
    {
        let status_code = self.status_code();
        Reply { status: status_code, body: self.to_string() }
    }
}

impl Clone for PayloadError {
    fn clone(&self) -> (res: Self)
        ensures
            res == *self,
    {
        match self {
            PayloadError::OverflowKnownLength { length, limit } => {
                PayloadError::OverflowKnownLength { length: *length, limit: *limit }
            },
            PayloadError::Overflow { limit } => PayloadError::Overflow { limit: *limit },
            PayloadError::ContentType => PayloadError::ContentType,
            PayloadError::Deserialize(why) => PayloadError::Deserialize(why.clone()),
            PayloadError::Serialize(why) => PayloadError::Serialize(why.clone()),
            PayloadError::Payload { status, text } => {
                PayloadError::Payload { status: *status, text: text.clone() }
            },
        }
    }
}

impl Clone for AppError {
    fn clone(&self) -> (res: Self)
        ensures
            res == *self,
    {
        match self {
            AppError::Task(error) => AppError::Task(*error),
            AppError::User(error) => AppError::User(*error),
            AppError::Database(text) => AppError::Database(text.clone()),
            AppError::Json(text) => AppError::Json(text.clone()),
            AppError::Actix { status, text } => {
                AppError::Actix { status: *status, text: text.clone() }
            },
            AppError::Payload(error) => AppError::Payload(error.clone()),
        }
    }
}

/// A rule that a command breaks, a login that fails, a token that is refused
/// and a record that is not there are the client's fault; a failure of the
/// store or of JSON in the session is the service's.
pub proof fn lemma_status_classes(error: AppError)
    ensures
        error is Task || error is User ==> is_client_error(error.status()),
        error is Database || error is Json ==> is_server_error(error.status()),
        error matches AppError::Payload(fail) && (fail is Overflow || fail is OverflowKnownLength
            || fail is Deserialize || fail is ContentType) ==> is_client_error(error.status()),
{
}

} // verus!
