//! Resolving the user behind an access token.

use crate::clock::Timestamp;
use crate::controllers::login::same_backend;
use crate::data::auth::Auth;
use crate::error::{lookup_failed, Error, Result};
use crate::token_repo::interface::{Interface as TokenRepoInterface, Lookup, Store};
use crate::user_repo::id::UserId;
use crate::user_repo::interface::{user_view, Interface as UserRepoInterface, User, UserView, Users};
use vstd::prelude::*;

verus! {

/// The user that the access token `token` stands for at `now`: none where
/// the token is not held, is past its expiry, or stands for no user.
pub open spec fn resolve(auth: Store, users: Users, token: Seq<u8>, now: Timestamp) -> Option<UserView> {
    match auth.lookup(token, now) {
        Lookup::Found(id) => users.get(id),
        Lookup::Missing => None,
        Lookup::Expired => None,
    }
}

/// Reads the user that `token` stands for, as of the instant `now`.
///
/// Returns `None` when the token is unknown or expired, and when its user
/// is gone; an expired token is removed on the way. Only a failure of a
/// store is an error.
pub fn whoami<A, U>(auth_token_repo: &mut A, user_repo: &U, token: &Auth, now: Timestamp) -> (r:
    Result<Option<User>>) where A: TokenRepoInterface<Auth>, U: UserRepoInterface
    requires
        old(auth_token_repo).inv(),
        user_repo.inv(),
    ensures
        final(auth_token_repo).inv(),
        same_backend(*old(auth_token_repo), *final(auth_token_repo)),
        match r {
            Ok(user) => {
                &&& user is Some || (old(auth_token_repo).reliable() && user_repo.reliable()) ==> {
                    &&& user_view(user) == resolve(
                        old(auth_token_repo).model(),
                        user_repo.model(),
                        token@,
                        now,
                    )
                    &&& final(auth_token_repo).model() == old(auth_token_repo).model().after_lookup(
                        token@,
                        now,
                    )
                }
            },
            Err(Error::TokenRepoError(e)) => !old(auth_token_repo).reliable() && !e.is_miss(),
            Err(Error::UserRepoError(e)) => !user_repo.reliable() && !(e is UserNotFound),
            Err(Error::CryptoError(_)) => false,
        },
{
    let found = auth_token_repo.get_at(token, now);
    whoami_found(found, user_repo)
}

/// Goes on once the access token store has answered the lookup of the
/// token. A miss is answered with `None`, and a failure of the store is
/// handed on as it came; in both cases the credential store is not asked.
/// For an owner that was found the credential store is asked for the user.
pub fn whoami_found<U>(found: crate::token_repo::Result<UserId>, user_repo: &U) -> (r: Result<
    Option<User>,
>) where U: UserRepoInterface
    requires
        user_repo.inv(),
    ensures
        match found {
            Err(e) => r == lookup_failed::<User>(e),
            Ok(owner) => match r {
                Ok(user) => user is Some || user_repo.reliable() ==> user_view(user)
                    == user_repo.model().get(owner),
                Err(Error::UserRepoError(e)) => !user_repo.reliable() && !(e is UserNotFound),
                Err(_) => false,
            },
        },
{
    let owner = match found {
        Ok(owner) => owner,
        Err(e) => {
            if e.is_domain_miss() {
                return Ok(None);
            }
            return Err(Error::TokenRepoError(e));
        },
    };
    let got = user_repo.get(owner);
    whoami_user(got)
}

/// What the answer of the credential store to the question for a user
/// comes to.
pub open spec fn user_spec(got: crate::user_repo::Result<Option<User>>) -> Result<Option<User>> {
    match got {
        Ok(user) => Ok(user),
        Err(crate::user_repo::Error::UserNotFound) => Ok(None),
        Err(e) => Err(Error::UserRepoError(e)),
    }
}

/// The answer once the credential store has answered the question for the
/// user: the user, `None` where the store knows no such user, or the
/// store's error as it came.
pub fn whoami_user(got: crate::user_repo::Result<Option<User>>) -> (r: Result<Option<User>>)
    ensures
        r == user_spec(got),
{
    match got {
        Ok(user) => Ok(user),
        Err(crate::user_repo::Error::UserNotFound) => Ok(None),
        Err(e) => Err(Error::UserRepoError(e)),
    }
}

} // verus!
