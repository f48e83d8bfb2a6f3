//! The guard in front of every protected route: the bearer token of the
//! request has to be the token of the identity in the session.
//!
//! A request goes through it in three steps. The bearer token is taken from
//! the request's header; a header that is missing or malformed gives no token,
//! and that alone turns no request away. Then the identity is read from the
//! session; without one the request is turned away as not logged in. Last the
//! token is held against the identity's.

use crate::errors::AppError;
use crate::reply::Reply;
use crate::session::{Session, Slot};
use crate::text::{decimal, lemma_decimal_injective, numeral};
use crate::users::errors::UserError;
use crate::users::models::{LoggedUser, User};
use crate::users::routes::{after_login, after_logout, logged_in};
use vstd::prelude::*;

verus! {

/// Whether the bearer token of a request, if it has one, is the token of a
/// login: the decimal numeral of its number, character for character.
pub open spec fn is_token_of(bearer: Option<Seq<char>>, token: u64) -> bool {
    bearer == Some(decimal(token as nat))
}

/// Why a request with this bearer token is turned away, or nothing if it may
/// pass.
pub open spec fn rejection(identity: Slot<LoggedUser>, bearer: Option<Seq<char>>) -> Option<
    AppError,
> {
    match identity {
        Slot::Empty => Some(AppError::User(UserError::NotLoggedIn)),
        Slot::Unreadable(why) => Some(AppError::Json(why)),
        Slot::Filled(logged) => if is_token_of(bearer, logged.token) {
            None
        } else {
            Some(AppError::User(UserError::InvalidToken))
        },
    }
}

/// The bearer token as the contracts speak of it.
pub open spec fn bearer_view(bearer: Option<&str>) -> Option<Seq<char>> {
    match bearer {
        Some(token) => Some(token@),
        None => None,
    }
}

/// Lets the request pass, as it came, if the bearer token is that of the
/// session's identity. The session is only read.
pub fn validator<R>(req: R, session: &Session, bearer: Option<&str>) -> (res: Result<
    R,
    AppError,
>)
    ensures
        res == match rejection(session.identity, bearer_view(bearer)) {
            None => Ok::<R, AppError>(req),
            Some(error) => Err(error),
        },
{
    match &session.identity {
        Slot::Empty => Err(AppError::User(UserError::NotLoggedIn)),
        Slot::Unreadable(why) => Err(AppError::Json(why.clone())),
        Slot::Filled(logged_user) => {
            let matches = match bearer {
                Some(token) => String::from_str(token) == numeral(logged_user.token),
                None => false,
            };
            if matches {
                Ok(req)
            } else {
                Err(AppError::User(UserError::InvalidToken))
            }
        },
    }
}

/// The answer to a request that was turned away for `error`: the status of
/// the error and its cause, as it is, for the body.
pub fn refusal(error: &AppError) -> (reply: Reply)
    ensures
        reply.status == error.status(),
        reply.body@ == error.cause(),
{
    Reply { status: error.status_code(), body: error.reason() }
}

/// A request is turned away for one of three reasons only, and which one is
/// decided by the identity slot before the token is looked at: without an
/// identity it is not logged in, whatever its token.
pub proof fn lemma_rejection_reasons(identity: Slot<LoggedUser>, bearer: Option<Seq<char>>)
    ensures
        rejection(identity, bearer) == Some(AppError::User(UserError::NotLoggedIn))
            <==> identity is Empty,
        rejection(identity, bearer) == Some(AppError::User(UserError::InvalidToken))
            <==> identity is Filled && !is_token_of(bearer, identity->Filled_0.token),
        rejection(identity, bearer) is None <==> identity is Filled && is_token_of(
            bearer,
            identity->Filled_0.token,
        ),
{
}

/// A request without a bearer token never passes.
pub proof fn lemma_no_token_never_passes(identity: Slot<LoggedUser>)
    ensures
        rejection(identity, None) is Some,
{
}

/// After a login that succeeded, a request that carries the token of that
/// login passes, whatever the session held before; one that carries anything
/// else, or nothing, is turned away for its token.
pub proof fn lemma_login_then_validate(session: Session, user: User, bearer: Option<Seq<char>>)
    ensures
        rejection(
            after_login(session, Some(user)).identity,
            Some(decimal(logged_in(user).token as nat)),
        ) is None,
        !is_token_of(bearer, logged_in(user).token) ==> rejection(
            after_login(session, Some(user)).identity,
            bearer,
        ) == Some(AppError::User(UserError::InvalidToken)),
{
}

/// After a login that succeeded, the numeral of any other number is turned
/// away: the token plus one, for one.
pub proof fn lemma_other_token_rejected(session: Session, user: User, other: u64)
    requires
        other != logged_in(user).token,
    ensures
        rejection(after_login(session, Some(user)).identity, Some(decimal(other as nat)))
            == Some(AppError::User(UserError::InvalidToken)),
{
    if decimal(other as nat) == decimal(logged_in(user).token as nat) {
        lemma_decimal_injective(other as nat, logged_in(user).token as nat);
    }
}

/// After a logout every request is turned away as not logged in, whatever
/// token it carries: the token of the login that the logout ended, too.
pub proof fn lemma_logout_then_validate(session: Session, bearer: Option<Seq<char>>)
    ensures
        rejection(after_logout(session).identity, bearer) == Some(
            AppError::User(UserError::NotLoggedIn),
        ),
{
}

} // verus!
