//! Users: the account record, what a login makes of it, and the commands that
//! register, update and log in.

use super::errors::UserError;
use crate::errors::{AppError, PayloadError};
use crate::text::{blank, contains_whitespace, has_whitespace, is_blank, is_whitespace};
use vstd::prelude::*;

verus! {

/// The fewest characters a user name may have.
pub const MIN_USERNAME_LENGTH: usize = 3;

/// The fewest characters a password may have.
pub const MIN_PASSWORD_LENGTH: usize = 4;

/// An account, as the user store holds it.
#[derive(Debug, PartialEq, Eq, Hash)]
pub struct User {
    pub id: i64,
    pub username: String,
    pub password: String,
}

/// The command that registers an account.
#[derive(Debug, PartialEq, Eq)]
pub struct InsertUser {
    pub valid_username: String,
    pub valid_password: String,
}

/// The command that gives an account a new name and password.
#[derive(Debug, PartialEq, Eq)]
pub struct UpdateUser {
    pub id: i64,
    pub valid_username: String,
    pub valid_password: String,
}

/// The credentials of a login.
#[derive(Debug, PartialEq, Eq)]
pub struct LoginUser {
    pub username: String,
    pub password: String,
}

/// An account that is logged in: the account and the token of this login.
#[derive(Debug, PartialEq, Eq)]
pub struct LoggedUser {
    pub id: i64,
    pub username: String,
    pub password: String,
    pub token: u64,
}

/// What an account holds.
pub struct UserView {
    pub id: i64,
    pub username: Seq<char>,
    pub password: Seq<char>,
}

/// What a logged-in account holds.
pub struct LoggedUserView {
    pub id: i64,
    pub username: Seq<char>,
    pub password: Seq<char>,
    pub token: u64,
}

impl View for User {
    type V = UserView;

    open spec fn view(&self) -> UserView {
        UserView { id: self.id, username: self.username@, password: self.password@ }
    }
}

impl View for LoggedUser {
    type V = LoggedUserView;

    open spec fn view(&self) -> LoggedUserView {
        LoggedUserView {
            id: self.id,
            username: self.username@,
            password: self.password@,
            token: self.token,
        }
    }
}

impl UserView {
    /// An account is in order when its user name and its password are: each
    /// has its minimum length and no white space, and so neither is empty.
    pub open spec fn well_formed(self) -> bool {
        valid_username(self.username) && valid_password(self.password)
    }

    /// The account, logged in under `token`.
    pub open spec fn to_logged(self, token: u64) -> LoggedUserView {
        LoggedUserView { id: self.id, username: self.username, password: self.password, token }
    }
}

/// A user name is in order when it has the minimum length and no white space.
pub open spec fn valid_username(name: Seq<char>) -> bool {
    name.len() >= MIN_USERNAME_LENGTH && !has_whitespace(name)
}

/// A password is in order when it has the minimum length and no white space.
pub open spec fn valid_password(password: Seq<char>) -> bool {
    password.len() >= MIN_PASSWORD_LENGTH && !has_whitespace(password)
}

/// The first rule that a user name breaks, in the order in which the rules
/// are tried: blank, too short, white space.
pub open spec fn username_fault(name: Seq<char>) -> Option<UserError> {
    if is_blank(name) {
        Some(UserError::EmptyUsername)
    } else if name.len() < MIN_USERNAME_LENGTH {
        Some(UserError::UsernameLength)
    } else if has_whitespace(name) {
        Some(UserError::UsernameInvalidCharacter)
    } else {
        None
    }
}

/// The first rule that a password breaks, in the same order.
pub open spec fn password_fault(password: Seq<char>) -> Option<UserError> {
    if is_blank(password) {
        Some(UserError::EmptyPassword)
    } else if password.len() < MIN_PASSWORD_LENGTH {
        Some(UserError::PasswordLength)
    } else if has_whitespace(password) {
        Some(UserError::PasswordInvalidCharacter)
    } else {
        None
    }
}

/// The first rule that a pair of credentials breaks: the user name is tried
/// before the password.
pub open spec fn credentials_fault(name: Seq<char>, password: Seq<char>) -> Option<UserError> {
    match username_fault(name) {
        Some(fault) => Some(fault),
        None => password_fault(password),
    }
}

/// Credentials break no rule exactly when both are in order.
pub proof fn lemma_no_fault_iff_valid(name: Seq<char>, password: Seq<char>)
    ensures
        credentials_fault(name, password) is None <==> valid_username(name) && valid_password(
            password,
        ),
        credentials_fault(name, password) matches Some(fault) ==> fault.is_validation(),
{
    if is_blank(name) && name.len() >= MIN_USERNAME_LENGTH {
        assert(is_whitespace(name[0]));
    }
    if is_blank(password) && password.len() >= MIN_PASSWORD_LENGTH {
        assert(is_whitespace(password[0]));
    }
}

/// The first rule that the credentials break, or nothing.
fn check_credentials(name: &String, password: &String) -> (fault: Option<UserError>)
    ensures
        fault == credentials_fault(name@, password@),
{
    if blank(name.as_str()) {
        Some(UserError::EmptyUsername)
    } else if name.as_str().unicode_len() < MIN_USERNAME_LENGTH {
        Some(UserError::UsernameLength)
    } else if contains_whitespace(name.as_str()) {
        Some(UserError::UsernameInvalidCharacter)
    } else if blank(password.as_str()) {
        Some(UserError::EmptyPassword)
    } else if password.as_str().unicode_len() < MIN_PASSWORD_LENGTH {
        Some(UserError::PasswordLength)
    } else if contains_whitespace(password.as_str()) {
        Some(UserError::PasswordInvalidCharacter)
    } else {
        None
    }
}

impl InsertUser {
    /// Hands the command back if its credentials break no rule, and else the
    /// first rule that they break.
    pub fn validate(self) -> (res: Result<Self, UserError>)
        ensures
            res == match self.fault() {
                Some(fault) => Err::<Self, UserError>(fault),
                None => Ok(self),
            },
    {
        match check_credentials(&self.valid_username, &self.valid_password) {
            Some(fault) => Err(fault),
            None => Ok(self),
        }
    }
}

impl UpdateUser {
    /// Hands the command back if its credentials break no rule, and else the
    /// first rule that they break.
    pub fn validate(self) -> (res: Result<Self, UserError>)
        ensures
            res == match self.fault() {
                Some(fault) => Err::<Self, UserError>(fault),
                None => Ok(self),
            },
    {
        match check_credentials(&self.valid_username, &self.valid_password) {
            Some(fault) => Err(fault),
            None => Ok(self),
        }
    }
}

impl InsertUser {
    /// The first rule that the command breaks, if any.
    pub open spec fn fault(self) -> Option<UserError> {
        credentials_fault(self.valid_username@, self.valid_password@)
    }

    /// The last step of reading the command from a request: `decoded` is what
    /// decoding the body gave. A body that gave no command fails as it did,
    /// and no rule is tried on it; a command fails with the first rule that it
    /// breaks. Only a command that breaks no rule comes out.
    pub fn from_request(decoded: Result<InsertUser, PayloadError>) -> (res: Result<
        InsertUser,
        AppError,
    >)
        ensures
            res == match decoded {
                Err(fail) => Err::<InsertUser, AppError>(AppError::Payload(fail)),
                Ok(command) => match command.fault() {
                    Some(fault) => Err(AppError::User(fault)),
                    None => Ok(command),
                },
            },
    {
        match decoded {
            Ok(insert_user) => match insert_user.validate() {
                Ok(insert_user) => Ok(insert_user),
                Err(fail) => Err(AppError::User(fail)),
            },
            Err(fail) => Err(AppError::Payload(fail)),
        }
    }
}

impl InsertUser {
    /// The account that the user store holds once it has inserted the command
    /// under `id`. A command that breaks no rule gives an account that is in
    /// order.
    pub fn inserted(self, id: i64) -> (user: User)
        ensures
            user == (User { id, username: self.valid_username, password: self.valid_password }),
            self.fault() is None ==> user@.well_formed(),
    {
        proof {
            lemma_no_fault_iff_valid(self.valid_username@, self.valid_password@);
        }
        User { id, username: self.valid_username, password: self.valid_password }
    }
}

impl UpdateUser {
    /// The first rule that the command breaks, if any.
    pub open spec fn fault(self) -> Option<UserError> {
        credentials_fault(self.valid_username@, self.valid_password@)
    }

    /// The last step of reading the command from a request: `decoded` is what
    /// decoding the body gave. A body that gave no command fails as it did,
    /// and no rule is tried on it; a command fails with the first rule that it
    /// breaks. Only a command that breaks no rule comes out.
    pub fn from_request(decoded: Result<UpdateUser, PayloadError>) -> (res: Result<
        UpdateUser,
        AppError,
    >)
        ensures
            res == match decoded {
                Err(fail) => Err::<UpdateUser, AppError>(AppError::Payload(fail)),
                Ok(command) => match command.fault() {
                    Some(fault) => Err(AppError::User(fault)),
                    None => Ok(command),
                },
            },
    {
        match decoded {
            Ok(update_user) => match update_user.validate() {
                Ok(update_user) => Ok(update_user),
                Err(fail) => Err(AppError::User(fail)),
            },
            Err(fail) => Err(AppError::Payload(fail)),
        }
    }
}

impl User {
    /// The account, logged in under `token`.
    pub fn to_logged(self, token: u64) -> (logged: LoggedUser)
        ensures
            logged == (LoggedUser {
                id: self.id,
                username: self.username,
                password: self.password,
                token,
            }),
            logged@ == self@.to_logged(token),
    {
        LoggedUser { id: self.id, username: self.username, password: self.password, token }
    }
}

impl Clone for User {
    fn clone(&self) -> (res: Self)
        ensures
            res == *self,
    {
        User { id: self.id, username: self.username.clone(), password: self.password.clone() }
    }
}

impl Clone for LoggedUser {
    fn clone(&self) -> (res: Self)
        ensures
            res == *self,
    {
        LoggedUser {
            id: self.id,
            username: self.username.clone(),
            password: self.password.clone(),
            token: self.token,
        }
    }
}

impl Clone for LoginUser {
    fn clone(&self) -> (res: Self)
        ensures
            res == *self,
    {
        LoginUser { username: self.username.clone(), password: self.password.clone() }
    }
}

} // verus!
