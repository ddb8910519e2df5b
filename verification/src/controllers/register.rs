//! Registering a user.

use crate::error::{Error, Result};
use crate::user_repo::id::UserId;
use crate::user_repo::interface::{CreateUser, Interface as UserRepoInterface};
use vstd::prelude::*;

verus! {

/// Registration credentials.
pub struct Credentials<'a> {
    /// The username.
    pub username: &'a str,
    /// The password.
    pub password: &'a str,
}

/// Creates a user with the given credentials and returns its id.
///
/// Fails with `DuplicateUsername`, changing nothing, when the name is
/// taken, and otherwise only when the store or the hash engine fails.
pub fn register<U: UserRepoInterface>(user_repo: &mut U, credentials: &Credentials) -> (r: Result<
    UserId,
>)
    requires
        old(user_repo).inv(),
    ensures
        final(user_repo).inv(),
        final(user_repo).reliable() == old(user_repo).reliable(),
        match r {
            Ok(id) => old(user_repo).model().created(
                final(user_repo).model(),
                id,
                credentials.username@,
                credentials.password@,
            ),
            Err(Error::UserRepoError(crate::user_repo::Error::DuplicateUsername)) => {
                &&& old(user_repo).model().has_username(credentials.username@)
                &&& final(user_repo).model() == old(user_repo).model()
            },
            Err(Error::UserRepoError(_)) => old(user_repo).reliable() ==> {
                &&& !old(user_repo).model().has_username(credentials.username@)
                &&& final(user_repo).model() == old(user_repo).model()
            },
            Err(_) => false,
        },
{
    let user = CreateUser { username: credentials.username, password: credentials.password };
    let created = user_repo.create(&user);
    registered(created)
}

/// What the answer of the credential store to the creation of a user comes
/// to.
pub open spec fn registered_spec(created: crate::user_repo::Result<UserId>) -> Result<UserId> {
    match created {
        Ok(id) => Ok(id),
        Err(e) => Err(Error::UserRepoError(e)),
    }
}

/// The answer to a registration once the credential store has answered the
/// creation: the id of the new user, or the store's error as it came.
pub fn registered(created: crate::user_repo::Result<UserId>) -> (r: Result<UserId>)
    ensures
        r == registered_spec(created),
{
    match created {
        Ok(id) => Ok(id),
        Err(e) => Err(Error::UserRepoError(e)),
    }
}

} // verus!
