//! What can go wrong with a user: a rule on the credentials that is broken, a
//! lookup that finds nothing, a login or a token that is refused.

use super::models::MIN_USERNAME_LENGTH;
use crate::text::{decimal, push_decimal, push_signed_decimal, signed_decimal};
use vstd::prelude::*;

verus! {

#[derive(Clone, Copy, Debug, PartialEq, Eq, Structural)]
pub enum UserError {
    /// The user name is blank.
    EmptyUsername,
    /// The user name is shorter than the minimum.
    UsernameLength,
    /// The user name holds white space.
    UsernameInvalidCharacter,
    /// The password is blank.
    EmptyPassword,
    /// The password is shorter than the minimum.
    PasswordLength,
    /// The password holds white space.
    PasswordInvalidCharacter,
    /// The user store has no user with this id.
    NotFound(i64),
    /// No user has the credentials that were given.
    LoginFailed,
    /// The session holds no identity.
    NotLoggedIn,
    /// The bearer token is not the one of the session's identity.
    InvalidToken,
    /// The user store has no user to list.
    Empty,
}

impl UserError {
    /// The HTTP status that the error is answered with.
    pub open spec fn status(self) -> u16 {
        match self {
            UserError::EmptyUsername => 422,
            UserError::UsernameLength => 422,
            UserError::UsernameInvalidCharacter => 422,
            UserError::EmptyPassword => 422,
            UserError::PasswordLength => 422,
            UserError::PasswordInvalidCharacter => 422,
            UserError::NotFound(_) => 404,
            UserError::LoginFailed => 401,
            UserError::NotLoggedIn => 401,
            UserError::InvalidToken => 401,
            UserError::Empty => 404,
        }
    }

    /// Whether the error names a rule on the credentials that is broken.
    pub open spec fn is_validation(self) -> bool {
        self.status() == 422
    }

    /// The text that the error is reported with. Clients match on these texts;
    /// the one for a short password names the same number as the one for a
    /// short user name.
    pub open spec fn message(self) -> Seq<char> {
        match self {
            UserError::EmptyUsername => "`username` field of `User` cannot be empty!"@,
            UserError::UsernameLength => "`username` field of `User` must be at least "@
                + decimal(MIN_USERNAME_LENGTH as nat) + " characters!"@,
            UserError::UsernameInvalidCharacter =>
                "`username` field of `User` cannot contain whitespaces!"@,
            UserError::EmptyPassword => "`password` field of `User` cannot be empty!"@,
            UserError::PasswordLength => "`password` field of `User` must be at least "@
                + decimal(MIN_USERNAME_LENGTH as nat) + " characters!"@,
            UserError::PasswordInvalidCharacter =>
                "`password` field of `User` cannot contain whitespaces!"@,
            UserError::NotFound(id) => "Could not find any `User` for id: `"@ + signed_decimal(
                id as int,
            ) + "`!"@,
            UserError::LoginFailed => "Failed to login user!"@,
            UserError::NotLoggedIn => "User is not logged in!"@,
            UserError::InvalidToken => "Invalid authorization token!"@,
            UserError::Empty => "Could not find any `User`!"@,
        }
    }

    pub fn status_code(&self) -> (code: u16)
        ensures
            code == self.status(),
    {
        match self {
            UserError::NotFound(_) | UserError::Empty => 404,
            UserError::LoginFailed | UserError::NotLoggedIn | UserError::InvalidToken => 401,
            _ => 422,
        }
    }

    pub fn to_string(&self) -> (text: String)
        ensures
            text@ == self.message(),
    {
        match self {
            UserError::EmptyUsername => String::from_str(
                "`username` field of `User` cannot be empty!",
            ),
            UserError::UsernameLength => {
                let mut text = String::from_str("`username` field of `User` must be at least ");
                push_decimal(&mut text, MIN_USERNAME_LENGTH as u64);
                text.append(" characters!");
                text
            },
            UserError::UsernameInvalidCharacter => String::from_str(
                "`username` field of `User` cannot contain whitespaces!",
            ),
            UserError::EmptyPassword => String::from_str(
                "`password` field of `User` cannot be empty!",
            ),
            UserError::PasswordLength => {
                let mut text = String::from_str("`password` field of `User` must be at least ");
                push_decimal(&mut text, MIN_USERNAME_LENGTH as u64);
                text.append(" characters!");
                text
            },
            UserError::PasswordInvalidCharacter => String::from_str(
                "`password` field of `User` cannot contain whitespaces!",
            ),
            UserError::NotFound(id) => {
                let mut text = String::from_str("Could not find any `User` for id: `");
                push_signed_decimal(&mut text, *id);
                text.append("`!");
                text
            },
            UserError::LoginFailed => String::from_str("Failed to login user!"),
            UserError::NotLoggedIn => String::from_str("User is not logged in!"),
            UserError::InvalidToken => String::from_str("Invalid authorization token!"),
            UserError::Empty => String::from_str("Could not find any `User`!"),
        }
    }
}

} // verus!
