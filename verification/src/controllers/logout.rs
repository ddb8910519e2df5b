//! Logging out: revoking an access token and the refresh token issued
//! with it.

use crate::clock::Timestamp;
use crate::controllers::login::{same_backend, REFRESH_TOKEN_TAG};
use crate::controllers::whoami::{resolve, whoami};
use crate::data::auth::Auth;
use crate::data::refresh::Refresh;
use crate::data::token::Interface as TokenInterface;
use crate::error::{failure, lookup_failed, removal, Error, Result};
use crate::token_repo::interface::{Interface as TokenRepoInterface, Store};
use crate::user_repo::interface::{user_view, Interface as UserRepoInterface, User};
use vstd::prelude::*;

verus! {

/// The refresh token that the access token `token` names, if it names one.
pub open spec fn paired_refresh(auth: Store, token: Seq<u8>) -> Option<Seq<u8>> {
    auth.get_tag(token, REFRESH_TOKEN_TAG@)
}

/// The refresh token store without the refresh token `paired`, if there is
/// one.
pub open spec fn without(refresh: Store, paired: Option<Seq<u8>>) -> Store {
    match paired {
        Some(paired) => refresh.delete(paired),
        None => refresh,
    }
}

/// The refresh token store after the refresh token that the access token
/// `token` names, if it names one, was removed.
pub open spec fn revoke_paired_refresh(auth: Store, refresh: Store, token: Seq<u8>) -> Store {
    without(refresh, paired_refresh(auth, token))
}

/// A refresh token as the model sees it.
pub open spec fn refresh_view(token: Option<Refresh>) -> Option<Seq<u8>> {
    match token {
        Some(token) => Some(token@),
        None => None,
    }
}

/// The refresh token that the answer of the access token store to the
/// reading of the tag names: none where the store answered with an error.
pub open spec fn named_refresh(tagged: crate::token_repo::Result<Vec<u8>>) -> Option<Seq<u8>> {
    match tagged {
        Ok(bytes) => Some(bytes@),
        Err(_) => None,
    }
}

/// What the answer of the access token store to the reading of the tag
/// comes to: the refresh token that the tag names; no refresh token where
/// the store holds no such token or tag; the store's error, as it came,
/// where the storage failed.
pub fn paired_named(tagged: crate::token_repo::Result<Vec<u8>>) -> (r: Result<Option<Refresh>>)
    ensures
        match tagged {
            Ok(bytes) => r matches Ok(Some(paired)) && paired@ == bytes@,
            Err(e) => r == lookup_failed::<Refresh>(e),
        },
{
    match tagged {
        Ok(bytes) => Ok(Some(Refresh::from_bytes(bytes))),
        Err(e) => {
            if e.is_domain_miss() {
                Ok(None)
            } else {
                Err(Error::TokenRepoError(e))
            }
        },
    }
}

/// The answer once a token store has answered the removal of a token: a
/// token that was not there is as good as removed, and a failure of the
/// storage is handed on as it came.
pub fn removed(deleted: crate::token_repo::Result<()>) -> (r: Result<()>)
    ensures
        r == removal(deleted),
{
    match deleted {
        Ok(()) => Ok(()),
        Err(e) => {
            if e.is_domain_miss() {
                Ok(())
            } else {
                Err(Error::TokenRepoError(e))
            }
        },
    }
}

/// Removes the access token `token` and, where there is one, the refresh
/// token `paired`.
///
/// A token that is not held is no error. Only a failure of a store is an
/// error.
pub fn revoke<A, R>(
    auth_token_repo: &mut A,
    refresh_token_repo: &mut R,
    token: &Auth,
    paired: Option<Refresh>,
) -> (r: Result<()>) where A: TokenRepoInterface<Auth>, R: TokenRepoInterface<Refresh>
    requires
        old(auth_token_repo).inv(),
        old(refresh_token_repo).inv(),
    ensures
        final(auth_token_repo).inv(),
        final(refresh_token_repo).inv(),
        same_backend(*old(auth_token_repo), *final(auth_token_repo)),
        same_backend(*old(refresh_token_repo), *final(refresh_token_repo)),
        match r {
            Ok(()) => {
                &&& old(auth_token_repo).reliable() ==> final(auth_token_repo).model() == old(
                    auth_token_repo,
                ).model().delete(token@)
                &&& old(refresh_token_repo).reliable() ==> final(refresh_token_repo).model()
                    == without(old(refresh_token_repo).model(), refresh_view(paired))
            },
            Err(Error::TokenRepoError(e)) => {
                &&& !e.is_miss()
                &&& !old(auth_token_repo).reliable() || !old(refresh_token_repo).reliable()
            },
            Err(_) => false,
        },
{
    proof {
        auth_token_repo.lemma_inv();
    }
    let deleted = auth_token_repo.delete(token);
    proof {
        let before = old(auth_token_repo).model();
        if !before.holds(token@) {
            assert(before.delete(token@).records =~= before.records);
            assert(before.delete(token@).tags =~= before.tags);
        }
    }
    revoke_paired(deleted, refresh_token_repo, paired)
}

/// Goes on with a revocation once the access token store has answered
/// the removal of the access token. A failure of that store is handed on
/// as it came, and the refresh token store is not touched. Else the
/// refresh token `paired`, where there is one, is removed from its store.
pub fn revoke_paired<R>(
    deleted: crate::token_repo::Result<()>,
    refresh_token_repo: &mut R,
    paired: Option<Refresh>,
) -> (r: Result<()>) where R: TokenRepoInterface<Refresh>
    requires
        old(refresh_token_repo).inv(),
    ensures
        final(refresh_token_repo).inv(),
        same_backend(*old(refresh_token_repo), *final(refresh_token_repo)),
        match failure(deleted) {
            Some(e) => {
                &&& r == Err::<(), Error>(Error::TokenRepoError(e))
                &&& final(refresh_token_repo).model() == old(refresh_token_repo).model()
            },
            None => match paired {
                None => {
                    &&& r == Ok::<(), Error>(())
                    &&& final(refresh_token_repo).model() == old(refresh_token_repo).model()
                },
                Some(refresh_token) => match r {
                    Ok(()) => old(refresh_token_repo).reliable() ==> final(refresh_token_repo).model()
                        == old(refresh_token_repo).model().delete(refresh_token@),
                    Err(Error::TokenRepoError(e)) => !e.is_miss() && !old(refresh_token_repo).reliable(),
                    Err(_) => false,
                },
            },
        },
{
    match removed(deleted) {
        Ok(()) => {},
        Err(e) => { return Err(e); },
    }
    match paired {
        Some(refresh_token) => {
            proof {
                refresh_token_repo.lemma_inv();
            }
            let deleted = refresh_token_repo.delete(&refresh_token);
            proof {
                let before = old(refresh_token_repo).model();
                if !before.holds(refresh_token@) {
                    assert(before.delete(refresh_token@).records =~= before.records);
                    assert(before.delete(refresh_token@).tags =~= before.tags);
                }
            }
            removed(deleted)
        },
        None => Ok(()),
    }
}

/// Removes the access token `token` and the refresh token that it is
/// tagged with.
///
/// A token that is not held is no error: logging out twice succeeds twice.
/// Only a failure of a store is an error; where the storage fails to say
/// which refresh token the access token is tagged with, nothing is
/// removed.
pub fn logout<A, R>(auth_token_repo: &mut A, refresh_token_repo: &mut R, token: &Auth) -> (r: Result<
    (),
>) where A: TokenRepoInterface<Auth>, R: TokenRepoInterface<Refresh>
    requires
        old(auth_token_repo).inv(),
        old(refresh_token_repo).inv(),
    ensures
        final(auth_token_repo).inv(),
        final(refresh_token_repo).inv(),
        same_backend(*old(auth_token_repo), *final(auth_token_repo)),
        same_backend(*old(refresh_token_repo), *final(refresh_token_repo)),
        match r {
            Ok(()) => {
                &&& old(auth_token_repo).reliable() ==> final(auth_token_repo).model() == old(
                    auth_token_repo,
                ).model().delete(token@)
                &&& old(auth_token_repo).reliable() && old(refresh_token_repo).reliable()
                    ==> final(refresh_token_repo).model() == revoke_paired_refresh(
                    old(auth_token_repo).model(),
                    old(refresh_token_repo).model(),
                    token@,
                )
            },
            Err(Error::TokenRepoError(e)) => {
                &&& !e.is_miss()
                &&& !old(auth_token_repo).reliable() || !old(refresh_token_repo).reliable()
            },
            Err(_) => false,
        },
{
    let tagged = auth_token_repo.get_tag(token, REFRESH_TOKEN_TAG);
    logout_tagged(tagged, auth_token_repo, refresh_token_repo, token)
}

/// Goes on with a logout once the access token store has answered the
/// reading of the tag that names the refresh token. A failure of the
/// storage is handed on as it came, and nothing is removed. Else the
/// access token is removed, and with it the refresh token that the answer
/// names, if it names one.
pub fn logout_tagged<A, R>(
    tagged: crate::token_repo::Result<Vec<u8>>,
    auth_token_repo: &mut A,
    refresh_token_repo: &mut R,
    token: &Auth,
) -> (r: Result<()>) where A: TokenRepoInterface<Auth>, R: TokenRepoInterface<Refresh>
    requires
        old(auth_token_repo).inv(),
        old(refresh_token_repo).inv(),
    ensures
        final(auth_token_repo).inv(),
        final(refresh_token_repo).inv(),
        same_backend(*old(auth_token_repo), *final(auth_token_repo)),
        same_backend(*old(refresh_token_repo), *final(refresh_token_repo)),
        match failure(tagged) {
            Some(e) => {
                &&& r == Err::<(), Error>(Error::TokenRepoError(e))
                &&& final(auth_token_repo).model() == old(auth_token_repo).model()
                &&& final(refresh_token_repo).model() == old(refresh_token_repo).model()
            },
            None => match r {
                Ok(()) => {
                    &&& old(auth_token_repo).reliable() ==> final(auth_token_repo).model() == old(
                        auth_token_repo,
                    ).model().delete(token@)
                    &&& old(refresh_token_repo).reliable() ==> final(refresh_token_repo).model()
                        == without(old(refresh_token_repo).model(), named_refresh(tagged))
                },
                Err(Error::TokenRepoError(e)) => {
                    &&& !e.is_miss()
                    &&& !old(auth_token_repo).reliable() || !old(refresh_token_repo).reliable()
                },
                Err(_) => false,
            },
        },
{
    match paired_named(tagged) {
        Ok(paired) => revoke(auth_token_repo, refresh_token_repo, token, paired),
        Err(e) => Err(e),
    }
}

/// The user that a logout has on record: the one that the access token
/// was resolved to, and none where it could not be resolved.
pub open spec fn on_record(resolved: Result<Option<User>>) -> Option<User> {
    match resolved {
        Ok(user) => user,
        Err(_) => None,
    }
}

/// What an audited logout comes to once the tokens were revoked or the
/// revocation has failed: the user on record, or the error of the
/// revocation as it came.
pub open spec fn audited_spec(revoked: Result<()>, resolved: Result<Option<User>>) -> Result<
    Option<User>,
> {
    match revoked {
        Ok(()) => Ok(on_record(resolved)),
        Err(e) => Err(e),
    }
}

/// The answer of an audited logout once the tokens were revoked or the
/// revocation has failed: the user that the access token was resolved to,
/// none where it could not be resolved, or the error of the revocation as
/// it came.
pub fn audited(revoked: Result<()>, resolved: Result<Option<User>>) -> (r: Result<Option<User>>)
    ensures
        r == audited_spec(revoked, resolved),
{
    match revoked {
        Ok(()) => match resolved {
            Ok(user) => Ok(user),
            Err(_) => Ok(None),
        },
        Err(e) => Err(e),
    }
}

/// Goes on with an audited logout once the access token was resolved or
/// could not be. Whichever it was, the access token is removed, and with
/// it the refresh token `paired`, where there is one.
pub fn audit_resolved<A, R>(
    resolved: Result<Option<User>>,
    auth_token_repo: &mut A,
    refresh_token_repo: &mut R,
    token: &Auth,
    paired: Option<Refresh>,
) -> (r: Result<Option<User>>) where A: TokenRepoInterface<Auth>, R: TokenRepoInterface<Refresh>
    requires
        old(auth_token_repo).inv(),
        old(refresh_token_repo).inv(),
    ensures
        final(auth_token_repo).inv(),
        final(refresh_token_repo).inv(),
        same_backend(*old(auth_token_repo), *final(auth_token_repo)),
        same_backend(*old(refresh_token_repo), *final(refresh_token_repo)),
        match r {
            Ok(user) => {
                &&& user == on_record(resolved)
                &&& old(auth_token_repo).reliable() ==> final(auth_token_repo).model() == old(
                    auth_token_repo,
                ).model().delete(token@)
                &&& old(refresh_token_repo).reliable() ==> final(refresh_token_repo).model()
                    == without(old(refresh_token_repo).model(), refresh_view(paired))
            },
            Err(Error::TokenRepoError(e)) => {
                &&& !e.is_miss()
                &&& !old(auth_token_repo).reliable() || !old(refresh_token_repo).reliable()
            },
            Err(_) => false,
        },
{
    let revoked = revoke(auth_token_repo, refresh_token_repo, token, paired);
    audited(revoked, resolved)
}

/// Goes on with an audited logout once the access token store has
/// answered the reading of the tag that names the refresh token. A failure
/// of the storage is handed on as it came, and nothing is removed. Else
/// the access token is resolved, for the record, and removed, and with it
/// the refresh token that the answer names, if it names one.
pub fn audit_tagged<A, R, U>(
    tagged: crate::token_repo::Result<Vec<u8>>,
    auth_token_repo: &mut A,
    refresh_token_repo: &mut R,
    user_repo: &U,
    token: &Auth,
    now: Timestamp,
) -> (r: Result<Option<User>>) where
    A: TokenRepoInterface<Auth>,
    R: TokenRepoInterface<Refresh>,
    U: UserRepoInterface,

    requires
        old(auth_token_repo).inv(),
        old(refresh_token_repo).inv(),
        user_repo.inv(),
    ensures
        final(auth_token_repo).inv(),
        final(refresh_token_repo).inv(),
        same_backend(*old(auth_token_repo), *final(auth_token_repo)),
        same_backend(*old(refresh_token_repo), *final(refresh_token_repo)),
        match failure(tagged) {
            Some(e) => {
                &&& r == Err::<Option<User>, Error>(Error::TokenRepoError(e))
                &&& final(auth_token_repo).model() == old(auth_token_repo).model()
                &&& final(refresh_token_repo).model() == old(refresh_token_repo).model()
            },
            None => match r {
                Ok(user) => {
                    &&& user is Some || (old(auth_token_repo).reliable() && user_repo.reliable())
                        ==> {
                        &&& user_view(user) == resolve(
                            old(auth_token_repo).model(),
                            user_repo.model(),
                            token@,
                            now,
                        )
                        &&& old(auth_token_repo).reliable() ==> final(auth_token_repo).model()
                            == old(auth_token_repo).model().delete(token@)
                    }
                    &&& old(refresh_token_repo).reliable() ==> final(refresh_token_repo).model()
                        == without(old(refresh_token_repo).model(), named_refresh(tagged))
                },
                Err(Error::TokenRepoError(e)) => {
                    &&& !e.is_miss()
                    &&& !old(auth_token_repo).reliable() || !old(refresh_token_repo).reliable()
                },
                Err(_) => false,
            },
        },
{
    let paired = match paired_named(tagged) {
        Ok(paired) => paired,
        Err(e) => { return Err(e); },
    };
    let resolved = whoami(auth_token_repo, user_repo, token, now);
    proof {
        let before = old(auth_token_repo).model();
        let read = before.after_lookup(token@, now);
        assert(read.delete(token@).records =~= before.delete(token@).records);
        assert(read.delete(token@).tags =~= before.delete(token@).tags);
    }
    audit_resolved(resolved, auth_token_repo, refresh_token_repo, token, paired)
}

/// Logs the access token out and returns the user that it stood for at
/// the instant `now`, for the caller's record. The refresh token that the
/// access token is tagged with is read first, and a failure of the storage
/// to say so is handed on before anything is removed; whether the access
/// token can then be resolved makes no difference to what is removed.
pub fn logout_audit<A, R, U>(
    auth_token_repo: &mut A,
    refresh_token_repo: &mut R,
    user_repo: &U,
    token: &Auth,
    now: Timestamp,
) -> (r: Result<Option<User>>) where
    A: TokenRepoInterface<Auth>,
    R: TokenRepoInterface<Refresh>,
    U: UserRepoInterface,

    requires
        old(auth_token_repo).inv(),
        old(refresh_token_repo).inv(),
        user_repo.inv(),
    ensures
        final(auth_token_repo).inv(),
        final(refresh_token_repo).inv(),
        same_backend(*old(auth_token_repo), *final(auth_token_repo)),
        same_backend(*old(refresh_token_repo), *final(refresh_token_repo)),
        match r {
            Ok(user) => {
                &&& user is Some || (old(auth_token_repo).reliable() && user_repo.reliable())
                    ==> {
                    &&& user_view(user) == resolve(
                        old(auth_token_repo).model(),
                        user_repo.model(),
                        token@,
                        now,
                    )
                    &&& old(auth_token_repo).reliable() ==> final(auth_token_repo).model() == old(
                        auth_token_repo,
                    ).model().delete(token@)
                }
                &&& old(auth_token_repo).reliable() && old(refresh_token_repo).reliable()
                    ==> final(refresh_token_repo).model() == revoke_paired_refresh(
                    old(auth_token_repo).model(),
                    old(refresh_token_repo).model(),
                    token@,
                )
            },
            Err(Error::TokenRepoError(e)) => {
                &&& !e.is_miss()
                &&& !old(auth_token_repo).reliable() || !old(refresh_token_repo).reliable()
            },
            Err(_) => false,
        },
{
    let tagged = auth_token_repo.get_tag(token, REFRESH_TOKEN_TAG);
    audit_tagged(tagged, auth_token_repo, refresh_token_repo, user_repo, token, now)
}

} // verus!
