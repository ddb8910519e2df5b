//! Refreshing: exchanging a refresh token for a new pair of tokens.

use crate::clock::Timestamp;
use crate::controllers::login::{
    force, issue_auth, issue_refresh, issued, same_backend, ForceLoginRequest, TokenPair,
    AUTH_TOKEN_TAG, REFRESH_TOKEN_TAG,
};
use crate::controllers::logout::removed;
use crate::data::auth::Auth;
use crate::data::refresh::Refresh;
use crate::data::token::Interface as TokenInterface;
use crate::error::{failure, lookup_failed, Error, Result};
use crate::token_repo::interface::{Interface as TokenRepoInterface, Lookup, Store};
use crate::user_repo::id::UserId;
use vstd::prelude::*;

verus! {

/// A refresh: the token to exchange, how long the new tokens live, how
/// long they are, and the instant as of which they are issued.
pub struct Request<'a> {
    /// The refresh token to exchange.
    pub refresh_token: &'a Refresh,
    /// Seconds that the new access token lives; forever where `None`.
    pub auth_token_ttl: Option<u64>,
    /// Seconds that the new refresh token lives; forever where `None`.
    pub refresh_token_ttl: Option<u64>,
    /// Bytes in the new access token.
    pub auth_token_size: usize,
    /// Bytes in the new refresh token.
    pub refresh_token_size: usize,
    /// The instant of the refresh.
    pub now: Timestamp,
}

/// The access token store without the access token that the refresh token
/// `token` is tagged with, if it is tagged with one.
pub open spec fn revoke_named_auth(auth: Store, refresh: Store, token: Seq<u8>) -> Store {
    match refresh.get_tag(token, AUTH_TOKEN_TAG@) {
        Some(paired) => auth.delete(paired),
        None => auth,
    }
}

/// The access token store after the access tokens issued with the refresh
/// token `token` were revoked. Every store loses the access token that
/// `token` is tagged with; a store with a reverse index loses every access
/// token tagged with `token` besides.
pub open spec fn revoke_paired_auth(
    auth: Store,
    refresh: Store,
    token: Seq<u8>,
    indexed: bool,
) -> Store {
    let named = revoke_named_auth(auth, refresh, token);
    if indexed {
        named.delete_by_tag(REFRESH_TOKEN_TAG@, token)
    } else {
        named
    }
}

/// Exchanges a refresh token for a new pair of tokens for the same user.
/// The refresh token is good for one exchange: it is removed, and with it
/// the access tokens that were issued with it, whether or not they have
/// expired.
///
/// Returns `None` when the refresh token is unknown or expired. A failure
/// of the storage is handed on as it came, and nothing more is done. When
/// the random generator fails the old tokens are gone and no new ones
/// issued.
pub fn refresh<A, R>(auth_token_repo: &mut A, refresh_token_repo: &mut R, request: &Request) -> (r:
    Result<Option<TokenPair>>) where A: TokenRepoInterface<Auth>, R: TokenRepoInterface<Refresh>
    requires
        old(auth_token_repo).inv(),
        old(refresh_token_repo).inv(),
    ensures
        final(auth_token_repo).inv(),
        final(refresh_token_repo).inv(),
        same_backend(*old(auth_token_repo), *final(auth_token_repo)),
        same_backend(*old(refresh_token_repo), *final(refresh_token_repo)),
        match r {
            Ok(Some(pair)) => {
                &&& old(refresh_token_repo).model().lookup(request.refresh_token@, request.now) matches Lookup::Found(
                    owner,
                )
                &&& pair.auth_token@.len() == request.auth_token_size
                &&& pair.refresh_token@.len() == request.refresh_token_size
                &&& old(auth_token_repo).reliable() && old(refresh_token_repo).reliable() ==> {
                    &&& final(auth_token_repo).model() == issue_auth(
                        revoke_paired_auth(
                            old(auth_token_repo).model(),
                            old(refresh_token_repo).model(),
                            request.refresh_token@,
                            old(auth_token_repo).indexed(),
                        ),
                        owner,
                        pair.auth_token@,
                        pair.refresh_token@,
                        request.auth_token_ttl,
                        request.now,
                    )
                    &&& final(refresh_token_repo).model() == issue_refresh(
                        old(refresh_token_repo).model().delete(request.refresh_token@),
                        owner,
                        pair.auth_token@,
                        pair.refresh_token@,
                        request.refresh_token_ttl,
                        request.now,
                    )
                }
            },
            Ok(None) => old(auth_token_repo).reliable() && old(refresh_token_repo).reliable() ==> {
                &&& final(auth_token_repo).model() == old(auth_token_repo).model()
                &&& !(old(refresh_token_repo).model().lookup(request.refresh_token@, request.now) is Found)
                &&& final(refresh_token_repo).model() == old(
                    refresh_token_repo,
                ).model().after_lookup(request.refresh_token@, request.now)
            },
            Err(Error::CryptoError(_)) => {
                &&& old(refresh_token_repo).model().lookup(request.refresh_token@, request.now) is Found
                &&& old(auth_token_repo).reliable() && old(refresh_token_repo).reliable() ==> {
                    &&& final(auth_token_repo).model() == revoke_paired_auth(
                        old(auth_token_repo).model(),
                        old(refresh_token_repo).model(),
                        request.refresh_token@,
                        old(auth_token_repo).indexed(),
                    )
                    &&& final(refresh_token_repo).model() == old(refresh_token_repo).model().delete(
                        request.refresh_token@,
                    )
                }
            },
            Err(Error::TokenRepoError(e)) => {
                &&& !e.is_miss()
                &&& !old(auth_token_repo).reliable() || !old(refresh_token_repo).reliable()
            },
            Err(Error::UserRepoError(_)) => false,
        },
{
    proof {
        auth_token_repo.lemma_inv();
        refresh_token_repo.lemma_inv();
    }
    let found = refresh_token_repo.get_at(request.refresh_token, request.now);
    refresh_found(found, auth_token_repo, refresh_token_repo, request)
}

/// The access token that the answer of the refresh token store to the
/// reading of the tag names: none where the store answered with an error.
pub open spec fn named_auth(tagged: crate::token_repo::Result<Vec<u8>>) -> Option<Seq<u8>> {
    match tagged {
        Ok(bytes) => Some(bytes@),
        Err(_) => None,
    }
}

/// The access token store without the access token `named`, if there is
/// one.
pub open spec fn without_named(auth: Store, named: Option<Seq<u8>>) -> Store {
    match named {
        Some(paired) => auth.delete(paired),
        None => auth,
    }
}

/// The access token store without the access tokens tagged with the
/// refresh token `token`, where the store can look tokens up by tag.
pub open spec fn without_tagged(auth: Store, token: Seq<u8>, indexed: bool) -> Store {
    if indexed {
        auth.delete_by_tag(REFRESH_TOKEN_TAG@, token)
    } else {
        auth
    }
}

/// What the last part of an exchange may come to: the issue of a new pair
/// to `owner`, on stores that the revocation has brought to `auth_revoked`
/// and `refresh_revoked` and that the issue takes to `auth_after` and
/// `refresh_after`.
pub open spec fn reissued(
    auth_revoked: Store,
    auth_after: Store,
    refresh_revoked: Store,
    refresh_after: Store,
    reliable: bool,
    owner: UserId,
    request: Request,
    r: Result<Option<TokenPair>>,
) -> bool {
    match r {
        Ok(Some(pair)) => {
            &&& pair.auth_token@.len() == request.auth_token_size
            &&& pair.refresh_token@.len() == request.refresh_token_size
            &&& reliable ==> {
                &&& auth_after == issue_auth(
                    auth_revoked,
                    owner,
                    pair.auth_token@,
                    pair.refresh_token@,
                    request.auth_token_ttl,
                    request.now,
                )
                &&& refresh_after == issue_refresh(
                    refresh_revoked,
                    owner,
                    pair.auth_token@,
                    pair.refresh_token@,
                    request.refresh_token_ttl,
                    request.now,
                )
            }
        },
        Ok(None) => !reliable,
        Err(Error::CryptoError(_)) => reliable ==> {
            &&& auth_after == auth_revoked
            &&& refresh_after == refresh_revoked
        },
        Err(Error::TokenRepoError(e)) => !e.is_miss() && !reliable,
        Err(Error::UserRepoError(_)) => false,
    }
}

/// Goes on with an exchange once the refresh token store has answered the
/// lookup of the refresh token. A miss is answered with `None`, and a
/// failure of the storage is handed on as it came; in both cases nothing
/// more is done. For an owner that was found the old tokens are revoked
/// and a new pair is issued to that owner.
pub fn refresh_found<A, R>(
    found: crate::token_repo::Result<UserId>,
    auth_token_repo: &mut A,
    refresh_token_repo: &mut R,
    request: &Request,
) -> (r: Result<Option<TokenPair>>) where A: TokenRepoInterface<Auth>, R: TokenRepoInterface<Refresh>
    requires
        old(auth_token_repo).inv(),
        old(refresh_token_repo).inv(),
    ensures
        final(auth_token_repo).inv(),
        final(refresh_token_repo).inv(),
        same_backend(*old(auth_token_repo), *final(auth_token_repo)),
        same_backend(*old(refresh_token_repo), *final(refresh_token_repo)),
        match found {
            Err(e) => {
                &&& r == lookup_failed::<TokenPair>(e)
                &&& final(auth_token_repo).model() == old(auth_token_repo).model()
                &&& final(refresh_token_repo).model() == old(refresh_token_repo).model()
            },
            Ok(owner) => reissued(
                revoke_paired_auth(
                    old(auth_token_repo).model(),
                    old(refresh_token_repo).model(),
                    request.refresh_token@,
                    old(auth_token_repo).indexed(),
                ),
                final(auth_token_repo).model(),
                old(refresh_token_repo).model().delete(request.refresh_token@),
                final(refresh_token_repo).model(),
                old(auth_token_repo).reliable() && old(refresh_token_repo).reliable(),
                owner,
                *request,
                r,
            ),
        },
{
    let owner = match found {
        Ok(owner) => owner,
        Err(e) => {
            if e.is_domain_miss() {
                return Ok(None);
            }
            return Err(Error::TokenRepoError(e));
        },
    };
    let tagged = refresh_token_repo.get_tag(request.refresh_token, AUTH_TOKEN_TAG);
    refresh_tagged(tagged, owner, auth_token_repo, refresh_token_repo, request)
}

/// Goes on with an exchange once the refresh token store has answered the
/// reading of the tag that names the access token. A failure of the
/// storage is handed on as it came, and nothing is removed. Else the
/// access token that the answer names, if it names one, is removed, then
/// the rest of the old tokens, and a new pair is issued to `owner`.
pub fn refresh_tagged<A, R>(
    tagged: crate::token_repo::Result<Vec<u8>>,
    owner: UserId,
    auth_token_repo: &mut A,
    refresh_token_repo: &mut R,
    request: &Request,
) -> (r: Result<Option<TokenPair>>) where A: TokenRepoInterface<Auth>, R: TokenRepoInterface<Refresh>
    requires
        old(auth_token_repo).inv(),
        old(refresh_token_repo).inv(),
    ensures
        final(auth_token_repo).inv(),
        final(refresh_token_repo).inv(),
        same_backend(*old(auth_token_repo), *final(auth_token_repo)),
        same_backend(*old(refresh_token_repo), *final(refresh_token_repo)),
        match failure(tagged) {
            Some(e) => {
                &&& r == Err::<Option<TokenPair>, Error>(Error::TokenRepoError(e))
                &&& final(auth_token_repo).model() == old(auth_token_repo).model()
                &&& final(refresh_token_repo).model() == old(refresh_token_repo).model()
            },
            None => reissued(
                without_tagged(
                    without_named(old(auth_token_repo).model(), named_auth(tagged)),
                    request.refresh_token@,
                    old(auth_token_repo).indexed(),
                ),
                final(auth_token_repo).model(),
                old(refresh_token_repo).model().delete(request.refresh_token@),
                final(refresh_token_repo).model(),
                old(auth_token_repo).reliable() && old(refresh_token_repo).reliable(),
                owner,
                *request,
                r,
            ),
        },
{
    let paired = match tagged {
        Ok(bytes) => Some(Auth::from_bytes(bytes)),
        Err(e) => {
            if !e.is_domain_miss() {
                return Err(Error::TokenRepoError(e));
            }
            None
        },
    };
    let deleted = match paired {
        Some(paired) => {
            proof {
                auth_token_repo.lemma_inv();
                let before = old(auth_token_repo).model();
                if !before.holds(paired@) {
                    assert(before.delete(paired@).records =~= before.records);
                    assert(before.delete(paired@).tags =~= before.tags);
                }
            }
            auth_token_repo.delete(&paired)
        },
        None => Ok(()),
    };
    refresh_unnamed(deleted, owner, auth_token_repo, refresh_token_repo, request)
}

/// Goes on with an exchange once the access token store has answered the
/// removal of the access token that the refresh token names. A failure of
/// the storage is handed on as it came, and nothing more is removed. Else
/// a store that can look tokens up by tag loses every access token tagged
/// with the refresh token; then the refresh token is removed and a new
/// pair is issued to `owner`.
pub fn refresh_unnamed<A, R>(
    deleted: crate::token_repo::Result<()>,
    owner: UserId,
    auth_token_repo: &mut A,
    refresh_token_repo: &mut R,
    request: &Request,
) -> (r: Result<Option<TokenPair>>) where A: TokenRepoInterface<Auth>, R: TokenRepoInterface<Refresh>
    requires
        old(auth_token_repo).inv(),
        old(refresh_token_repo).inv(),
    ensures
        final(auth_token_repo).inv(),
        final(refresh_token_repo).inv(),
        same_backend(*old(auth_token_repo), *final(auth_token_repo)),
        same_backend(*old(refresh_token_repo), *final(refresh_token_repo)),
        match failure(deleted) {
            Some(e) => {
                &&& r == Err::<Option<TokenPair>, Error>(Error::TokenRepoError(e))
                &&& final(auth_token_repo).model() == old(auth_token_repo).model()
                &&& final(refresh_token_repo).model() == old(refresh_token_repo).model()
            },
            None => reissued(
                without_tagged(
                    old(auth_token_repo).model(),
                    request.refresh_token@,
                    old(auth_token_repo).indexed(),
                ),
                final(auth_token_repo).model(),
                old(refresh_token_repo).model().delete(request.refresh_token@),
                final(refresh_token_repo).model(),
                old(auth_token_repo).reliable() && old(refresh_token_repo).reliable(),
                owner,
                *request,
                r,
            ),
        },
{
    match removed(deleted) {
        Ok(()) => {},
        Err(e) => { return Err(e); },
    }
    let deleted = if auth_token_repo.has_reverse_index() {
        auth_token_repo.delete_by_tag(REFRESH_TOKEN_TAG, request.refresh_token.as_bytes())
    } else {
        Ok(())
    };
    refresh_untagged(deleted, owner, auth_token_repo, refresh_token_repo, request)
}

/// Goes on with an exchange once the access token store has answered the
/// removal of the access tokens tagged with the refresh token. A failure
/// of the storage is handed on as it came, and nothing more is removed.
/// Else the refresh token is removed and a new pair is issued to `owner`.
pub fn refresh_untagged<A, R>(
    deleted: crate::token_repo::Result<()>,
    owner: UserId,
    auth_token_repo: &mut A,
    refresh_token_repo: &mut R,
    request: &Request,
) -> (r: Result<Option<TokenPair>>) where A: TokenRepoInterface<Auth>, R: TokenRepoInterface<Refresh>
    requires
        old(auth_token_repo).inv(),
        old(refresh_token_repo).inv(),
    ensures
        final(auth_token_repo).inv(),
        final(refresh_token_repo).inv(),
        same_backend(*old(auth_token_repo), *final(auth_token_repo)),
        same_backend(*old(refresh_token_repo), *final(refresh_token_repo)),
        match failure(deleted) {
            Some(e) => {
                &&& r == Err::<Option<TokenPair>, Error>(Error::TokenRepoError(e))
                &&& final(auth_token_repo).model() == old(auth_token_repo).model()
                &&& final(refresh_token_repo).model() == old(refresh_token_repo).model()
            },
            None => reissued(
                old(auth_token_repo).model(),
                final(auth_token_repo).model(),
                old(refresh_token_repo).model().delete(request.refresh_token@),
                final(refresh_token_repo).model(),
                old(auth_token_repo).reliable() && old(refresh_token_repo).reliable(),
                owner,
                *request,
                r,
            ),
        },
{
    match removed(deleted) {
        Ok(()) => {},
        Err(e) => { return Err(e); },
    }
    proof {
        refresh_token_repo.lemma_inv();
        let before = old(refresh_token_repo).model();
        if !before.holds(request.refresh_token@) {
            assert(before.delete(request.refresh_token@).records =~= before.records);
            assert(before.delete(request.refresh_token@).tags =~= before.tags);
        }
    }
    let deleted = refresh_token_repo.delete(request.refresh_token);
    refresh_spent(deleted, owner, auth_token_repo, refresh_token_repo, request)
}

/// Goes on with an exchange once the refresh token store has answered the
/// removal of the refresh token. A failure of the storage is handed on as
/// it came, and no pair is issued. Else a new pair is issued to `owner`.
pub fn refresh_spent<A, R>(
    deleted: crate::token_repo::Result<()>,
    owner: UserId,
    auth_token_repo: &mut A,
    refresh_token_repo: &mut R,
    request: &Request,
) -> (r: Result<Option<TokenPair>>) where A: TokenRepoInterface<Auth>, R: TokenRepoInterface<Refresh>
    requires
        old(auth_token_repo).inv(),
        old(refresh_token_repo).inv(),
    ensures
        final(auth_token_repo).inv(),
        final(refresh_token_repo).inv(),
        same_backend(*old(auth_token_repo), *final(auth_token_repo)),
        same_backend(*old(refresh_token_repo), *final(refresh_token_repo)),
        match failure(deleted) {
            Some(e) => {
                &&& r == Err::<Option<TokenPair>, Error>(Error::TokenRepoError(e))
                &&& final(auth_token_repo).model() == old(auth_token_repo).model()
                &&& final(refresh_token_repo).model() == old(refresh_token_repo).model()
            },
            None => reissued(
                old(auth_token_repo).model(),
                final(auth_token_repo).model(),
                old(refresh_token_repo).model(),
                final(refresh_token_repo).model(),
                old(auth_token_repo).reliable() && old(refresh_token_repo).reliable(),
                owner,
                *request,
                r,
            ),
        },
{
    match removed(deleted) {
        Ok(()) => {},
        Err(e) => { return Err(e); },
    }
    let issue = ForceLoginRequest {
        user_id: &owner,
        auth_token_ttl: request.auth_token_ttl,
        refresh_token_ttl: request.refresh_token_ttl,
        auth_token_size: request.auth_token_size,
        refresh_token_size: request.refresh_token_size,
        now: request.now,
    };
    let forced = force(auth_token_repo, refresh_token_repo, &issue);
    issued(forced)
}

} // verus!
