//! Logging in, and issuing a pair of tokens.

use crate::clock::Timestamp;
use crate::data::auth::Auth;
use crate::data::refresh::Refresh;
use crate::data::token::Interface as TokenInterface;
use crate::error::{lookup_failed, Error, Result};
use crate::token_repo::interface::{Interface as TokenRepoInterface, Store};
use crate::user_repo::id::UserId;
use crate::user_repo::interface::{Interface as UserRepoInterface, User};
use vstd::prelude::*;

verus! {

/// The tag of an access token that names its refresh token.
pub const REFRESH_TOKEN_TAG: &'static str = "refresh-token";

/// The tag of a refresh token that names its access token.
pub const AUTH_TOKEN_TAG: &'static str = "auth-token";

/// Authentication credentials.
pub struct Credentials<'a> {
    /// The username.
    pub username: &'a str,
    /// The password.
    pub password: &'a str,
}

/// An access token and a refresh token, issued together and tagged with
/// each other.
#[derive(Debug)]
pub struct TokenPair {
    /// The access token.
    pub auth_token: Auth,
    /// The refresh token.
    pub refresh_token: Refresh,
}

/// A login: who logs in, how long the tokens live, how long they are, and
/// the instant as of which they are issued.
pub struct Request<'a> {
    /// The credentials to check.
    pub login_credentials: &'a Credentials<'a>,
    /// Seconds that the access token lives; forever where `None`.
    pub auth_token_ttl: Option<u64>,
    /// Seconds that the refresh token lives; forever where `None`.
    pub refresh_token_ttl: Option<u64>,
    /// Bytes in the access token.
    pub auth_token_size: usize,
    /// Bytes in the refresh token.
    pub refresh_token_size: usize,
    /// The instant of the login.
    pub now: Timestamp,
}

/// An issue of tokens to a user that is known already.
pub struct ForceLoginRequest<'a> {
    /// The user that the tokens stand for.
    pub user_id: &'a UserId,
    /// Seconds that the access token lives; forever where `None`.
    pub auth_token_ttl: Option<u64>,
    /// Seconds that the refresh token lives; forever where `None`.
    pub refresh_token_ttl: Option<u64>,
    /// Bytes in the access token.
    pub auth_token_size: usize,
    /// Bytes in the refresh token.
    pub refresh_token_size: usize,
    /// The instant of the issue.
    pub now: Timestamp,
}

/// The access token store after the token `auth` was issued to `owner`
/// together with the refresh token `refresh`.
pub open spec fn issue_auth(
    store: Store,
    owner: UserId,
    auth: Seq<u8>,
    refresh: Seq<u8>,
    ttl: Option<u64>,
    now: Timestamp,
) -> Store {
    store.put(auth, owner, seq![(REFRESH_TOKEN_TAG@, refresh)], ttl, now)
}

/// The refresh token store after the token `refresh` was issued to `owner`
/// together with the access token `auth`.
pub open spec fn issue_refresh(
    store: Store,
    owner: UserId,
    auth: Seq<u8>,
    refresh: Seq<u8>,
    ttl: Option<u64>,
    now: Timestamp,
) -> Store {
    store.put(refresh, owner, seq![(AUTH_TOKEN_TAG@, auth)], ttl, now)
}

/// Whether two states of a token store are states of one backend.
pub open spec fn same_backend<T: TokenInterface, S: TokenRepoInterface<T>>(before: S, after: S) -> bool {
    &&& after.reliable() == before.reliable()
    &&& after.indexed() == before.indexed()
}

/// Stores a pair of tokens that was drawn for a user: each token is
/// inserted into its store with its time to live, tagged with the other.
///
/// Succeeds on stores that cannot fail. An error of a store is handed on as
/// it came.
pub fn issue<A, R>(
    auth_token_repo: &mut A,
    refresh_token_repo: &mut R,
    auth_token: Auth,
    refresh_token: Refresh,
    request: &ForceLoginRequest,
) -> (r: Result<TokenPair>) where A: TokenRepoInterface<Auth>, R: TokenRepoInterface<Refresh>
    requires
        old(auth_token_repo).inv(),
        old(refresh_token_repo).inv(),
    ensures
        final(auth_token_repo).inv(),
        final(refresh_token_repo).inv(),
        same_backend(*old(auth_token_repo), *final(auth_token_repo)),
        same_backend(*old(refresh_token_repo), *final(refresh_token_repo)),
        old(auth_token_repo).reliable() && old(refresh_token_repo).reliable() ==> r is Ok,
        match r {
            Ok(pair) => {
                &&& pair.auth_token@ == auth_token@
                &&& pair.refresh_token@ == refresh_token@
                &&& final(auth_token_repo).model() == issue_auth(
                    old(auth_token_repo).model(),
                    *request.user_id,
                    auth_token@,
                    refresh_token@,
                    request.auth_token_ttl,
                    request.now,
                )
                &&& final(refresh_token_repo).model() == issue_refresh(
                    old(refresh_token_repo).model(),
                    *request.user_id,
                    auth_token@,
                    refresh_token@,
                    request.refresh_token_ttl,
                    request.now,
                )
            },
            Err(Error::TokenRepoError(_)) => !old(auth_token_repo).reliable() || !old(
                refresh_token_repo,
            ).reliable(),
            Err(_) => false,
        },
{
    let auth_tags: [(&str, &[u8]); 1] = [(REFRESH_TOKEN_TAG, refresh_token.as_bytes())];
    proof {
        assert(crate::token_repo::interface::tags_model(auth_tags@) =~= seq![
            (REFRESH_TOKEN_TAG@, refresh_token@),
        ]);
    }
    let stored = auth_token_repo.put_at(
        &auth_token,
        request.user_id,
        auth_tags.as_slice(),
        request.auth_token_ttl,
        request.now,
    );
    issue_refresh_token(stored, refresh_token_repo, auth_token, refresh_token, request)
}

/// Goes on with an issue once the access token store has answered the
/// insertion of the access token. An error of that store is handed on as it
/// came, and the refresh token store is not touched. Else the refresh token
/// is inserted into its store, tagged with the access token.
pub fn issue_refresh_token<R>(
    stored: crate::token_repo::Result<()>,
    refresh_token_repo: &mut R,
    auth_token: Auth,
    refresh_token: Refresh,
    request: &ForceLoginRequest,
) -> (r: Result<TokenPair>) where R: TokenRepoInterface<Refresh>
    requires
        old(refresh_token_repo).inv(),
    ensures
        final(refresh_token_repo).inv(),
        same_backend(*old(refresh_token_repo), *final(refresh_token_repo)),
        match stored {
            Err(e) => {
                &&& r == Err::<TokenPair, Error>(Error::TokenRepoError(e))
                &&& final(refresh_token_repo).model() == old(refresh_token_repo).model()
            },
            Ok(()) => {
                &&& old(refresh_token_repo).reliable() ==> r is Ok
                &&& match r {
                    Ok(pair) => {
                        &&& pair.auth_token == auth_token
                        &&& pair.refresh_token == refresh_token
                        &&& final(refresh_token_repo).model() == issue_refresh(
                            old(refresh_token_repo).model(),
                            *request.user_id,
                            auth_token@,
                            refresh_token@,
                            request.refresh_token_ttl,
                            request.now,
                        )
                    },
                    Err(Error::TokenRepoError(_)) => !old(refresh_token_repo).reliable(),
                    Err(_) => false,
                }
            },
        },
{
    match stored {
        Ok(()) => {},
        Err(e) => { return Err(Error::from(e)); },
    }
    let refresh_tags: [(&str, &[u8]); 1] = [(AUTH_TOKEN_TAG, auth_token.as_bytes())];
    proof {
        assert(crate::token_repo::interface::tags_model(refresh_tags@) =~= seq![
            (AUTH_TOKEN_TAG@, auth_token@),
        ]);
    }
    let stored = refresh_token_repo.put_at(
        &refresh_token,
        request.user_id,
        refresh_tags.as_slice(),
        request.refresh_token_ttl,
        request.now,
    );
    pair_stored(stored, auth_token, refresh_token)
}

/// The answer of an issue once the refresh token store has answered the
/// insertion of the refresh token: the pair of the two tokens, or the
/// store's error as it came.
pub fn pair_stored(
    stored: crate::token_repo::Result<()>,
    auth_token: Auth,
    refresh_token: Refresh,
) -> (r: Result<TokenPair>)
    ensures
        r == match stored {
            Ok(()) => Ok::<TokenPair, Error>(TokenPair { auth_token, refresh_token }),
            Err(e) => Err::<TokenPair, Error>(Error::TokenRepoError(e)),
        },
{
    match stored {
        Ok(()) => Ok(TokenPair { auth_token, refresh_token }),
        Err(e) => Err(Error::from(e)),
    }
}

/// Issues a new pair of tokens to a user without asking for a password:
/// both tokens are drawn at random, of the sizes asked for, and stored as
/// `issue` stores them.
///
/// Fails with `CryptoError`, before anything is stored, when the random
/// generator fails, and with `TokenRepoError` when a store does; either
/// error is handed on as it came.
pub fn force<A, R>(
    auth_token_repo: &mut A,
    refresh_token_repo: &mut R,
    request: &ForceLoginRequest,
) -> (r: Result<TokenPair>) where A: TokenRepoInterface<Auth>, R: TokenRepoInterface<Refresh>
    requires
        old(auth_token_repo).inv(),
        old(refresh_token_repo).inv(),
    ensures
        final(auth_token_repo).inv(),
        final(refresh_token_repo).inv(),
        same_backend(*old(auth_token_repo), *final(auth_token_repo)),
        same_backend(*old(refresh_token_repo), *final(refresh_token_repo)),
        match r {
            Ok(pair) => {
                &&& pair.auth_token@.len() == request.auth_token_size
                &&& pair.refresh_token@.len() == request.refresh_token_size
                &&& final(auth_token_repo).model() == issue_auth(
                    old(auth_token_repo).model(),
                    *request.user_id,
                    pair.auth_token@,
                    pair.refresh_token@,
                    request.auth_token_ttl,
                    request.now,
                )
                &&& final(refresh_token_repo).model() == issue_refresh(
                    old(refresh_token_repo).model(),
                    *request.user_id,
                    pair.auth_token@,
                    pair.refresh_token@,
                    request.refresh_token_ttl,
                    request.now,
                )
            },
            Err(Error::CryptoError(_)) => {
                &&& final(auth_token_repo).model() == old(auth_token_repo).model()
                &&& final(refresh_token_repo).model() == old(refresh_token_repo).model()
            },
            Err(Error::TokenRepoError(_)) => !old(auth_token_repo).reliable() || !old(
                refresh_token_repo,
            ).reliable(),
            Err(Error::UserRepoError(_)) => false,
        },
{
    let drawn = Auth::generate(request.auth_token_size);
    force_drawn(drawn, auth_token_repo, refresh_token_repo, request)
}

/// Goes on with an issue once the random generator has answered the draw
/// of the access token. An error of the generator is handed on as it came,
/// and nothing is stored. Else the refresh token is drawn, and the pair is
/// stored as `issue` stores it.
pub fn force_drawn<A, R>(
    drawn: crate::crypto::Result<Auth>,
    auth_token_repo: &mut A,
    refresh_token_repo: &mut R,
    request: &ForceLoginRequest,
) -> (r: Result<TokenPair>) where A: TokenRepoInterface<Auth>, R: TokenRepoInterface<Refresh>
    requires
        old(auth_token_repo).inv(),
        old(refresh_token_repo).inv(),
    ensures
        final(auth_token_repo).inv(),
        final(refresh_token_repo).inv(),
        same_backend(*old(auth_token_repo), *final(auth_token_repo)),
        same_backend(*old(refresh_token_repo), *final(refresh_token_repo)),
        match drawn {
            Err(e) => {
                &&& r == Err::<TokenPair, Error>(Error::CryptoError(e))
                &&& final(auth_token_repo).model() == old(auth_token_repo).model()
                &&& final(refresh_token_repo).model() == old(refresh_token_repo).model()
            },
            Ok(auth_token) => match r {
                Ok(pair) => {
                    &&& pair.auth_token@ == auth_token@
                    &&& pair.refresh_token@.len() == request.refresh_token_size
                    &&& final(auth_token_repo).model() == issue_auth(
                        old(auth_token_repo).model(),
                        *request.user_id,
                        auth_token@,
                        pair.refresh_token@,
                        request.auth_token_ttl,
                        request.now,
                    )
                    &&& final(refresh_token_repo).model() == issue_refresh(
                        old(refresh_token_repo).model(),
                        *request.user_id,
                        auth_token@,
                        pair.refresh_token@,
                        request.refresh_token_ttl,
                        request.now,
                    )
                },
                Err(Error::CryptoError(_)) => {
                    &&& final(auth_token_repo).model() == old(auth_token_repo).model()
                    &&& final(refresh_token_repo).model() == old(refresh_token_repo).model()
                },
                Err(Error::TokenRepoError(_)) => !old(auth_token_repo).reliable() || !old(
                    refresh_token_repo,
                ).reliable(),
                Err(Error::UserRepoError(_)) => false,
            },
        },
{
    let auth_token = match drawn {
        Ok(token) => token,
        Err(e) => { return Err(Error::from(e)); },
    };
    let drawn = Refresh::generate(request.refresh_token_size);
    issue_drawn(auth_token, drawn, auth_token_repo, refresh_token_repo, request)
}

/// Goes on with an issue once the random generator has answered the draw
/// of the refresh token. An error of the generator is handed on as it came,
/// and nothing is stored. Else the pair is stored as `issue` stores it.
pub fn issue_drawn<A, R>(
    auth_token: Auth,
    drawn: crate::crypto::Result<Refresh>,
    auth_token_repo: &mut A,
    refresh_token_repo: &mut R,
    request: &ForceLoginRequest,
) -> (r: Result<TokenPair>) where A: TokenRepoInterface<Auth>, R: TokenRepoInterface<Refresh>
    requires
        old(auth_token_repo).inv(),
        old(refresh_token_repo).inv(),
    ensures
        final(auth_token_repo).inv(),
        final(refresh_token_repo).inv(),
        same_backend(*old(auth_token_repo), *final(auth_token_repo)),
        same_backend(*old(refresh_token_repo), *final(refresh_token_repo)),
        match drawn {
            Err(e) => {
                &&& r == Err::<TokenPair, Error>(Error::CryptoError(e))
                &&& final(auth_token_repo).model() == old(auth_token_repo).model()
                &&& final(refresh_token_repo).model() == old(refresh_token_repo).model()
            },
            Ok(refresh_token) => {
                &&& old(auth_token_repo).reliable() && old(refresh_token_repo).reliable() ==> r is Ok
                &&& match r {
                    Ok(pair) => {
                        &&& pair.auth_token@ == auth_token@
                        &&& pair.refresh_token@ == refresh_token@
                        &&& final(auth_token_repo).model() == issue_auth(
                            old(auth_token_repo).model(),
                            *request.user_id,
                            auth_token@,
                            refresh_token@,
                            request.auth_token_ttl,
                            request.now,
                        )
                        &&& final(refresh_token_repo).model() == issue_refresh(
                            old(refresh_token_repo).model(),
                            *request.user_id,
                            auth_token@,
                            refresh_token@,
                            request.refresh_token_ttl,
                            request.now,
                        )
                    },
                    Err(Error::TokenRepoError(_)) => !old(auth_token_repo).reliable() || !old(
                        refresh_token_repo,
                    ).reliable(),
                    Err(_) => false,
                }
            },
        },
{
    match drawn {
        Ok(refresh_token) => issue(
            auth_token_repo,
            refresh_token_repo,
            auth_token,
            refresh_token,
            request,
        ),
        Err(e) => Err(Error::from(e)),
    }
}

/// Goes on with a login once the credential store has answered. An error
/// of the store is handed on as it came and no token store is touched; so
/// is the answer that the credentials name no user. For a user that they
/// name a new pair of tokens is issued.
///
/// A store that finds a new token unreadable is answered with `None` as
/// well; only a failure of the storage or of the random generator is an
/// error.
pub fn login_checked<A, R>(
    checked: crate::user_repo::Result<Option<User>>,
    auth_token_repo: &mut A,
    refresh_token_repo: &mut R,
    request: &Request,
) -> (r: Result<Option<TokenPair>>) where A: TokenRepoInterface<Auth>, R: TokenRepoInterface<Refresh>
    requires
        old(auth_token_repo).inv(),
        old(refresh_token_repo).inv(),
    ensures
        final(auth_token_repo).inv(),
        final(refresh_token_repo).inv(),
        same_backend(*old(auth_token_repo), *final(auth_token_repo)),
        same_backend(*old(refresh_token_repo), *final(refresh_token_repo)),
        match checked {
            Err(e) => {
                &&& r == Err::<Option<TokenPair>, Error>(Error::UserRepoError(e))
                &&& final(auth_token_repo).model() == old(auth_token_repo).model()
                &&& final(refresh_token_repo).model() == old(refresh_token_repo).model()
            },
            Ok(None) => {
                &&& r matches Ok(None)
                &&& final(auth_token_repo).model() == old(auth_token_repo).model()
                &&& final(refresh_token_repo).model() == old(refresh_token_repo).model()
            },
            Ok(Some(user)) => match r {
                Ok(Some(pair)) => {
                    &&& pair.auth_token@.len() == request.auth_token_size
                    &&& pair.refresh_token@.len() == request.refresh_token_size
                    &&& final(auth_token_repo).model() == issue_auth(
                        old(auth_token_repo).model(),
                        user.id,
                        pair.auth_token@,
                        pair.refresh_token@,
                        request.auth_token_ttl,
                        request.now,
                    )
                    &&& final(refresh_token_repo).model() == issue_refresh(
                        old(refresh_token_repo).model(),
                        user.id,
                        pair.auth_token@,
                        pair.refresh_token@,
                        request.refresh_token_ttl,
                        request.now,
                    )
                },
                Ok(None) => !old(auth_token_repo).reliable() || !old(refresh_token_repo).reliable(),
                Err(Error::CryptoError(_)) => {
                    &&& final(auth_token_repo).model() == old(auth_token_repo).model()
                    &&& final(refresh_token_repo).model() == old(refresh_token_repo).model()
                },
                Err(Error::TokenRepoError(e)) => {
                    &&& !e.is_miss()
                    &&& !old(auth_token_repo).reliable() || !old(refresh_token_repo).reliable()
                },
                Err(Error::UserRepoError(_)) => false,
            },
        },
{
    let user = match checked {
        Ok(user) => user,
        Err(e) => { return Err(Error::from(e)); },
    };
    let user = match user {
        Some(user) => user,
        None => { return Ok(None); },
    };
    let issue = ForceLoginRequest {
        user_id: &user.id,
        auth_token_ttl: request.auth_token_ttl,
        refresh_token_ttl: request.refresh_token_ttl,
        auth_token_size: request.auth_token_size,
        refresh_token_size: request.refresh_token_size,
        now: request.now,
    };
    let forced = force(auth_token_repo, refresh_token_repo, &issue);
    issued(forced)
}

/// What the outcome of an issue comes to in a login or an exchange: the
/// pair; `None` where a store found a new token unreadable; every other
/// error as it came.
pub open spec fn issued_spec(forced: Result<TokenPair>) -> Result<Option<TokenPair>> {
    match forced {
        Ok(pair) => Ok(Some(pair)),
        Err(Error::TokenRepoError(e)) => lookup_failed::<TokenPair>(e),
        Err(e) => Err(e),
    }
}

/// The answer of a login or an exchange once the pair was issued or the
/// issue has failed: the pair; `None` where a store found a new token
/// unreadable; every other error as it came.
pub fn issued(forced: Result<TokenPair>) -> (r: Result<Option<TokenPair>>)
    ensures
        r == issued_spec(forced),
{
    match forced {
        Ok(pair) => Ok(Some(pair)),
        Err(Error::TokenRepoError(e)) => {
            if e.is_domain_miss() {
                Ok(None)
            } else {
                Err(Error::TokenRepoError(e))
            }
        },
        Err(e) => Err(e),
    }
}

/// Checks the credentials and, where they name a user, issues a new pair
/// of tokens to it. A user may hold any number of pairs.
///
/// Returns `None`, changing nothing, when the credentials name no user:
/// the name is unknown, the password wrong or the user disabled. A store
/// that finds a new token unreadable is answered with `None` as well; only
/// a failure of the storage or of the random generator is an error.
pub fn login<U, A, R>(
    user_repo: &U,
    auth_token_repo: &mut A,
    refresh_token_repo: &mut R,
    request: &Request,
) -> (r: Result<Option<TokenPair>>) where
    U: UserRepoInterface,
    A: TokenRepoInterface<Auth>,
    R: TokenRepoInterface<Refresh>,

    requires
        user_repo.inv(),
        old(auth_token_repo).inv(),
        old(refresh_token_repo).inv(),
    ensures
        final(auth_token_repo).inv(),
        final(refresh_token_repo).inv(),
        same_backend(*old(auth_token_repo), *final(auth_token_repo)),
        same_backend(*old(refresh_token_repo), *final(refresh_token_repo)),
        match r {
            Ok(Some(pair)) => {
                &&& user_repo.model().check_password(
                    request.login_credentials.username@,
                    request.login_credentials.password@,
                ) matches Some(user)
                &&& pair.auth_token@.len() == request.auth_token_size
                &&& pair.refresh_token@.len() == request.refresh_token_size
                &&& final(auth_token_repo).model() == issue_auth(
                    old(auth_token_repo).model(),
                    user.id,
                    pair.auth_token@,
                    pair.refresh_token@,
                    request.auth_token_ttl,
                    request.now,
                )
                &&& final(refresh_token_repo).model() == issue_refresh(
                    old(refresh_token_repo).model(),
                    user.id,
                    pair.auth_token@,
                    pair.refresh_token@,
                    request.refresh_token_ttl,
                    request.now,
                )
            },
            Ok(None) => {
                ||| {
                    &&& user_repo.model().check_password(
                        request.login_credentials.username@,
                        request.login_credentials.password@,
                    ) is None
                    &&& final(auth_token_repo).model() == old(auth_token_repo).model()
                    &&& final(refresh_token_repo).model() == old(refresh_token_repo).model()
                }
                ||| {
                    &&& user_repo.model().check_password(
                        request.login_credentials.username@,
                        request.login_credentials.password@,
                    ) is Some
                    &&& !old(auth_token_repo).reliable() || !old(refresh_token_repo).reliable()
                }
            },
            Err(Error::UserRepoError(_)) => {
                &&& !user_repo.reliable()
                &&& final(auth_token_repo).model() == old(auth_token_repo).model()
                &&& final(refresh_token_repo).model() == old(refresh_token_repo).model()
            },
            Err(Error::CryptoError(_)) => {
                &&& user_repo.model().check_password(
                    request.login_credentials.username@,
                    request.login_credentials.password@,
                ) is Some
                &&& final(auth_token_repo).model() == old(auth_token_repo).model()
                &&& final(refresh_token_repo).model() == old(refresh_token_repo).model()
            },
            Err(Error::TokenRepoError(e)) => {
                &&& !e.is_miss()
                &&& user_repo.model().check_password(
                    request.login_credentials.username@,
                    request.login_credentials.password@,
                ) is Some
                &&& !old(auth_token_repo).reliable() || !old(refresh_token_repo).reliable()
            },
        },
{
    let checked = user_repo.check_password(
        request.login_credentials.username,
        request.login_credentials.password,
    );
    login_checked(checked, auth_token_repo, refresh_token_repo, request)
}

} // verus!
