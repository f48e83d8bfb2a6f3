//! What the user routes decide: the token of a login, and what login and
//! logout do to the session.

use super::errors::UserError;
use super::models::{LoggedUser, User, UserView};
use crate::errors::AppError;
use crate::reply::{Reply, NOT_MODIFIED, OK};
use crate::session::{Session, Slot};
use crate::text::{decimal, numeral, push_decimal};
use std::collections::hash_map::DefaultHasher;
use std::hash::Hasher;
use vstd::bytes::{spec_u64_to_le_bytes, u64_to_le_bytes};
use vstd::prelude::*;
use vstd::std_specs::hash::DefaultHasherAdditionalSpecFns;
use vstd::utf8::encode_utf8;

verus! {

/// What of an account goes into its token, in the order in which the hasher
/// gets it: the id as eight bytes, least significant first, then the user name
/// and the password as UTF-8, each closed by the byte 255.
pub open spec fn hashed(account: UserView) -> Seq<Seq<u8>> {
    seq![
        spec_u64_to_le_bytes(account.id as u64),
        encode_utf8(account.username),
        seq![0xffu8],
        encode_utf8(account.password),
        seq![0xffu8],
    ]
}

/// The token of an account: what the standard hasher makes of its content.
pub open spec fn auth_token(account: UserView) -> u64 {
    DefaultHasher::spec_finish(hashed(account))
}

/// The token for a login of this account. It is a function of the account's
/// content: every field goes into it, and nothing else does.
pub fn create_auth_token(user: &User) -> (token: u64)
    ensures
        token == auth_token(user@),
{
    let mut hasher = DefaultHasher::new();
    let id = u64_to_le_bytes(#[verifier::truncate] (user.id as u64));
    let end: [u8; 1] = [0xff];
    hasher.write(id.as_slice());
    hasher.write(user.username.as_str().as_bytes());
    hasher.write(end.as_slice());
    hasher.write(user.password.as_str().as_bytes());
    hasher.write(end.as_slice());
    assert(end@ =~= seq![0xffu8]);
    assert(hasher@ =~= hashed(user@));
    hasher.finish()
}

/// Accounts with the same content have the same token, whenever and wherever
/// it is made.
pub proof fn lemma_token_of_content(a: User, b: User)
    requires
        a@ == b@,
    ensures
        auth_token(a@) == auth_token(b@),
{
}

/// What a login makes of the account that the user store found.
pub open spec fn logged_in(user: User) -> LoggedUser {
    LoggedUser {
        id: user.id,
        username: user.username,
        password: user.password,
        token: auth_token(user@),
    }
}

/// What a login answers: the logged-in account if the user store found one
/// for the credentials, and else that the login failed.
pub open spec fn login_result(found: Option<User>) -> Result<LoggedUser, AppError> {
    match found {
        Some(user) => Ok(logged_in(user)),
        None => Err(AppError::User(UserError::LoginFailed)),
    }
}

/// The session after a login: the identity slot holds the logged-in account
/// if the user store found one, and else the session is as it was. The
/// favorite is never touched.
pub open spec fn after_login(session: Session, found: Option<User>) -> Session {
    match found {
        Some(user) => Session {
            identity: Slot::Filled(logged_in(user)),
            favorite_task: session.favorite_task,
        },
        None => session,
    }
}

/// The session after a logout: the identity slot is empty, whatever it held.
pub open spec fn after_logout(session: Session) -> Session {
    Session { identity: Slot::Empty, favorite_task: session.favorite_task }
}

/// Logs in the account that the user store found for the credentials, if it
/// found one: the identity slot then holds the account with its token, which
/// is also what the caller gets. If it found none the login fails and the
/// session stays as it was.
pub fn login(session: &mut Session, found: Option<User>) -> (res: Result<LoggedUser, AppError>)
    ensures
        res == login_result(found),
        *final(session) == after_login(*old(session), found),
{
    match found {
        Some(user) => {
            let auth_token = create_auth_token(&user);
            let logged_user = user.to_logged(auth_token);
            session.identity = Slot::Filled(logged_user.clone());
            Ok(logged_user)
        },
        None => Err(AppError::User(UserError::LoginFailed)),
    }
}

/// The answer to a login that succeeded: the logged-in account for the body,
/// and its bearer token for the header `X-Auth-Token`.
#[derive(Debug, PartialEq, Eq)]
pub struct LoginAnswer {
    pub status: u16,
    pub auth_token: String,
    pub body: LoggedUser,
}

/// The answer to a login that gave `logged_user`.
pub fn login_answer(logged_user: LoggedUser) -> (answer: LoginAnswer)
    ensures
        answer.status == OK,
        answer.auth_token@ == decimal(logged_user.token as nat),
        answer.body == logged_user,
{
    LoginAnswer { status: OK, auth_token: logged_user.bearer(), body: logged_user }
}

/// Clears the identity slot, whatever it held: a logout of a client that is
/// not logged in succeeds as well.
pub fn logout(session: &mut Session) -> (reply: Reply)
    ensures
        *final(session) == after_logout(*old(session)),
        reply.status == OK,
        reply.body@ == "Logged out."@,
{
    session.identity = Slot::Empty;
    Reply { status: OK, body: String::from_str("Logged out.") }
}

/// A login with credentials that the user store does not know gives no
/// logged-in account and leaves the session as it was.
pub proof fn lemma_unknown_login_changes_nothing(session: Session)
    ensures
        login_result(None) is Err,
        after_login(session, None) == session,
{
}

/// A login changes the identity slot only, and a logout likewise; a second
/// logout changes nothing more.
pub proof fn lemma_login_logout_keep_favorite(session: Session, found: Option<User>)
    ensures
        after_login(session, found).favorite_task == session.favorite_task,
        after_logout(session).favorite_task == session.favorite_task,
        after_logout(after_logout(session)) == after_logout(session),
{
}

impl LoggedUser {
    /// The account that is logged in, read from the session.
    pub fn get_logged_user(session: &Session) -> (res: Result<LoggedUser, AppError>)
        ensures
            res == match session.identity {
                Slot::Empty => Err::<LoggedUser, AppError>(
                    AppError::User(UserError::NotLoggedIn),
                ),
                Slot::Unreadable(why) => Err(AppError::Json(why)),
                Slot::Filled(logged) => Ok(logged),
            },
    {
        match &session.identity {
            Slot::Empty => Err(AppError::User(UserError::NotLoggedIn)),
            Slot::Unreadable(why) => Err(AppError::Json(why.clone())),
            Slot::Filled(logged_user) => Ok(logged_user.clone()),
        }
    }

    /// The bearer token that a client has to send: the decimal numeral of the
    /// login's token.
    pub fn bearer(&self) -> (text: String)
        ensures
            text@ == decimal(self.token as nat),
    {
        numeral(self.token)
    }
}

/// The answer to an update that changed `num_modified` accounts.
pub fn update(num_modified: u64) -> (reply: Reply)
    ensures
        num_modified == 0 ==> reply.status == NOT_MODIFIED && reply.body@
            == "No users were updated."@,
        num_modified != 0 ==> reply.status == OK && reply.body@ == "Updated "@ + decimal(
            num_modified as nat,
        ) + " users."@,
{
    if num_modified == 0 {
        Reply { status: NOT_MODIFIED, body: String::from_str("No users were updated.") }
    } else {
        let mut body = String::from_str("Updated ");
        push_decimal(&mut body, num_modified);
        body.append(" users.");
        Reply { status: OK, body }
    }
}

/// The answer to a deletion that removed `num_modified` accounts.
pub fn delete(num_modified: u64) -> (reply: Reply)
    ensures
        num_modified == 0 ==> reply.status == NOT_MODIFIED && reply.body@
            == "No users were deleted."@,
        num_modified != 0 ==> reply.status == OK && reply.body@ == "Deleted "@ + decimal(
            num_modified as nat,
        ) + " users."@,
{
    if num_modified == 0 {
        Reply { status: NOT_MODIFIED, body: String::from_str("No users were deleted.") }
    } else {
        let mut body = String::from_str("Deleted ");
        push_decimal(&mut body, num_modified);
        body.append(" users.");
        Reply { status: OK, body }
    }
}

/// The accounts to list, unless there are none.
pub fn find_all(users: Vec<User>) -> (res: Result<Vec<User>, AppError>)
    ensures
        res == if users@.len() == 0 {
            Err::<Vec<User>, AppError>(AppError::User(UserError::Empty))
        } else {
            Ok(users)
        },
{
    if users.is_empty() {
        Err(AppError::User(UserError::Empty))
    } else {
        Ok(users)
    }
}

/// The account that the user store found for `id`, or that none is there.
pub fn find_by_id(user: Option<User>, id: i64) -> (res: Result<User, AppError>)
    ensures
        res == match user {
            Some(user) => Ok::<User, AppError>(user),
            None => Err(AppError::User(UserError::NotFound(id))),
        },
{
    match user {
        Some(user) => Ok(user),
        None => Err(AppError::User(UserError::NotFound(id))),
    }
}

} // verus!
