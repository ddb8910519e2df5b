use lib_authentication::clock::Timestamp;
use lib_authentication::controllers::login::{issued, TokenPair};
use lib_authentication::controllers::logout::{
    audit_resolved, audit_tagged, audited, logout_audit, logout_tagged, paired_named, removed,
    revoke_paired,
};
use lib_authentication::controllers::refresh::{
    refresh_found, refresh_spent, refresh_tagged, refresh_unnamed, refresh_untagged,
    Request as RefreshRequest,
};
use lib_authentication::controllers::register::registered;
use lib_authentication::controllers::whoami::{whoami_found, whoami_user};
use lib_authentication::crypto::Error as CryptoError;
use lib_authentication::data::Interface;
use lib_authentication::token_repo::Error as TokenRepoError;
use lib_authentication::token_repo::Interface as TokenRepoInterface;
use lib_authentication::user_repo::Interface as UserRepoInterface;
use lib_authentication::user_repo::{CreateUser, Error as UserRepoError, User, UserId};
use lib_authentication::{AuthToken, Error, RefreshToken, TokenRepo, UserRepo};

fn down() -> TokenRepoError {
    TokenRepoError::TokenRepoError("down".to_string())
}

fn is_down<T>(r: &Result<T, Error>) -> bool {
    matches!(r, Err(Error::TokenRepoError(TokenRepoError::TokenRepoError(text))) if text == "down")
}

fn at(secs: u64) -> Timestamp {
    Timestamp::from_secs(secs)
}

fn exchange(token: &RefreshToken) -> RefreshRequest<'_> {
    RefreshRequest {
        refresh_token: token,
        auth_token_ttl: Some(60),
        refresh_token_ttl: None,
        auth_token_size: 16,
        refresh_token_size: 24,
        now: at(1_000),
    }
}

/// An access token store with the token `a`, and a refresh token store
/// with the token `r`, tagged with each other, for the user 7.
fn a_session() -> (TokenRepo<AuthToken>, TokenRepo<RefreshToken>, AuthToken, RefreshToken) {
    let mut auth_token_repo: TokenRepo<AuthToken> = TokenRepo::memory();
    let mut refresh_token_repo: TokenRepo<RefreshToken> = TokenRepo::memory();
    let auth = AuthToken::from_bytes(b"a".to_vec());
    let refresh = RefreshToken::from_bytes(b"r".to_vec());
    auth_token_repo.put_at(&auth, &UserId(7), &[("refresh-token", b"r")], None, at(900)).unwrap();
    refresh_token_repo.put_at(&refresh, &UserId(7), &[("auth-token", b"a")], None, at(900)).unwrap();
    (auth_token_repo, refresh_token_repo, auth, refresh)
}

#[test]
fn whoami_tells_a_miss_from_a_failure_of_the_token_store() {
    let mut users = UserRepo::memory();
    let id = users.create(&CreateUser { username: "alice", password: "pw" }).unwrap();
    assert!(matches!(whoami_found(Err(TokenRepoError::TokenNotFound), &users), Ok(None)));
    assert!(matches!(whoami_found(Err(TokenRepoError::TokenExpired), &users), Ok(None)));
    assert!(matches!(whoami_found(Err(TokenRepoError::TokenInvalid), &users), Ok(None)));
    assert!(is_down(&whoami_found(Err(down()), &users)));
    assert!(matches!(
        whoami_found(Err(TokenRepoError::NotAvailable), &users),
        Err(Error::TokenRepoError(TokenRepoError::NotAvailable))
    ));
    let user = whoami_found(Ok(id), &users).unwrap().unwrap();
    assert_eq!(user.id, id);
    assert_eq!(user.username, "alice");
    assert!(whoami_found(Ok(UserId(1)), &users).unwrap().is_none());
}

#[test]
fn whoami_hands_on_the_error_of_the_credential_store() {
    let alice = User { id: UserId(3), username: "alice".to_string() };
    let user = whoami_user(Ok(Some(alice))).unwrap().unwrap();
    assert_eq!(user.id, UserId(3));
    assert_eq!(user.username, "alice");
    assert!(matches!(whoami_user(Ok(None)), Ok(None)));
    assert!(matches!(whoami_user(Err(UserRepoError::UserNotFound)), Ok(None)));
    assert!(matches!(
        whoami_user(Err(UserRepoError::NotAvailable)),
        Err(Error::UserRepoError(UserRepoError::NotAvailable))
    ));
}

#[test]
fn a_registration_hands_on_the_answer_of_the_credential_store() {
    assert_eq!(registered(Ok(UserId(9))).unwrap(), UserId(9));
    assert!(matches!(
        registered(Err(UserRepoError::DuplicateUsername)),
        Err(Error::UserRepoError(UserRepoError::DuplicateUsername))
    ));
    assert!(matches!(
        registered(Err(UserRepoError::NotAvailable)),
        Err(Error::UserRepoError(UserRepoError::NotAvailable))
    ));
}

#[test]
fn an_issue_that_failed_is_a_miss_or_an_error_as_it_came() {
    let pair = TokenPair {
        auth_token: AuthToken::from_bytes(b"a".to_vec()),
        refresh_token: RefreshToken::from_bytes(b"r".to_vec()),
    };
    let answer = issued(Ok(pair)).unwrap().unwrap();
    assert_eq!(answer.auth_token.as_bytes(), b"a");
    assert_eq!(answer.refresh_token.as_bytes(), b"r");
    assert!(matches!(issued(Err(Error::TokenRepoError(TokenRepoError::TokenInvalid))), Ok(None)));
    assert!(is_down(&issued(Err(Error::TokenRepoError(down())))));
    assert!(matches!(
        issued(Err(Error::CryptoError(CryptoError::Unspecified("dry".to_string())))),
        Err(Error::CryptoError(CryptoError::Unspecified(text))) if text == "dry"
    ));
}

#[test]
fn a_removal_takes_a_miss_for_done_and_hands_a_failure_on() {
    assert!(matches!(removed(Ok(())), Ok(())));
    assert!(matches!(removed(Err(TokenRepoError::TokenNotFound)), Ok(())));
    assert!(matches!(removed(Err(TokenRepoError::TokenExpired)), Ok(())));
    assert!(is_down(&removed(Err(down()))));
}

#[test]
fn the_paired_refresh_token_is_read_or_the_failure_handed_on() {
    let paired = paired_named(Ok(b"r".to_vec())).unwrap().unwrap();
    assert_eq!(paired.as_bytes(), b"r");
    assert!(matches!(paired_named(Err(TokenRepoError::TokenNotFound)), Ok(None)));
    assert!(is_down(&paired_named(Err(down()))));
    assert!(matches!(paired_named(Err(TokenRepoError::TokenExpired)), Ok(None)));
}

#[test]
fn a_logout_removes_nothing_when_the_tag_cannot_be_read() {
    let (mut auth_token_repo, mut refresh_token_repo, auth, refresh) = a_session();
    let r = logout_tagged(Err(down()), &mut auth_token_repo, &mut refresh_token_repo, &auth);
    assert!(is_down(&r));
    assert_eq!(auth_token_repo.get_at(&auth, at(1_000)).unwrap(), UserId(7));
    assert_eq!(refresh_token_repo.get_at(&refresh, at(1_000)).unwrap(), UserId(7));
}

#[test]
fn a_logout_removes_the_access_token_and_the_refresh_token_that_was_read() {
    let (mut auth_token_repo, mut refresh_token_repo, auth, refresh) = a_session();
    logout_tagged(Ok(b"r".to_vec()), &mut auth_token_repo, &mut refresh_token_repo, &auth).unwrap();
    assert!(matches!(auth_token_repo.get_at(&auth, at(1_000)), Err(TokenRepoError::TokenNotFound)));
    assert!(matches!(
        refresh_token_repo.get_at(&refresh, at(1_000)),
        Err(TokenRepoError::TokenNotFound)
    ));

    let (mut auth_token_repo, mut refresh_token_repo, auth, refresh) = a_session();
    logout_tagged(
        Err(TokenRepoError::TokenNotFound),
        &mut auth_token_repo,
        &mut refresh_token_repo,
        &auth,
    )
    .unwrap();
    assert!(matches!(auth_token_repo.get_at(&auth, at(1_000)), Err(TokenRepoError::TokenNotFound)));
    assert_eq!(refresh_token_repo.get_at(&refresh, at(1_000)).unwrap(), UserId(7));
}

#[test]
fn a_revocation_stops_at_a_failure_of_the_access_token_store() {
    let (_, mut refresh_token_repo, _, refresh) = a_session();
    let paired = RefreshToken::from_bytes(b"r".to_vec());
    assert!(is_down(&revoke_paired(Err(down()), &mut refresh_token_repo, Some(paired))));
    assert_eq!(refresh_token_repo.get_at(&refresh, at(1_000)).unwrap(), UserId(7));

    let paired = RefreshToken::from_bytes(b"r".to_vec());
    revoke_paired(Err(TokenRepoError::TokenNotFound), &mut refresh_token_repo, Some(paired)).unwrap();
    assert!(matches!(
        refresh_token_repo.get_at(&refresh, at(1_000)),
        Err(TokenRepoError::TokenNotFound)
    ));
    revoke_paired(Ok(()), &mut refresh_token_repo, None).unwrap();
}

#[test]
fn an_exchange_tells_a_miss_from_a_failure_of_the_lookup() {
    let (mut auth_token_repo, mut refresh_token_repo, auth, refresh) = a_session();
    let request = exchange(&refresh);
    let r = refresh_found(
        Err(TokenRepoError::TokenNotFound),
        &mut auth_token_repo,
        &mut refresh_token_repo,
        &request,
    );
    assert!(matches!(r, Ok(None)));
    let r = refresh_found(Err(down()), &mut auth_token_repo, &mut refresh_token_repo, &request);
    assert!(is_down(&r));
    assert_eq!(auth_token_repo.get_at(&auth, at(1_000)).unwrap(), UserId(7));
    assert_eq!(refresh_token_repo.get_at(&refresh, at(1_000)).unwrap(), UserId(7));

    let pair = refresh_found(Ok(UserId(7)), &mut auth_token_repo, &mut refresh_token_repo, &request)
        .unwrap()
        .unwrap();
    assert_eq!(pair.auth_token.len(), 16);
    assert_eq!(pair.refresh_token.len(), 24);
    assert!(matches!(auth_token_repo.get_at(&auth, at(1_000)), Err(TokenRepoError::TokenNotFound)));
    assert!(matches!(
        refresh_token_repo.get_at(&refresh, at(1_000)),
        Err(TokenRepoError::TokenNotFound)
    ));
    assert_eq!(auth_token_repo.get_at(&pair.auth_token, at(1_060)).unwrap(), UserId(7));
    assert!(auth_token_repo.get_at(&pair.auth_token, at(1_061)).is_err());
}

#[test]
fn an_exchange_removes_nothing_when_the_tag_cannot_be_read() {
    let (mut auth_token_repo, mut refresh_token_repo, auth, refresh) = a_session();
    let request = exchange(&refresh);
    let r = refresh_tagged(
        Err(down()),
        UserId(7),
        &mut auth_token_repo,
        &mut refresh_token_repo,
        &request,
    );
    assert!(is_down(&r));
    assert_eq!(auth_token_repo.get_at(&auth, at(1_000)).unwrap(), UserId(7));
    assert_eq!(refresh_token_repo.get_at(&refresh, at(1_000)).unwrap(), UserId(7));
}

#[test]
fn an_exchange_removes_the_access_token_that_was_read() {
    let mut auth_token_repo: TokenRepo<AuthToken> = TokenRepo::memory();
    let mut refresh_token_repo: TokenRepo<RefreshToken> = TokenRepo::memory();
    let named = AuthToken::from_bytes(b"named".to_vec());
    let refresh = RefreshToken::from_bytes(b"r".to_vec());
    auth_token_repo.put_at(&named, &UserId(7), &[], None, at(900)).unwrap();
    refresh_token_repo.put_at(&refresh, &UserId(7), &[], None, at(900)).unwrap();
    let request = exchange(&refresh);
    let pair = refresh_tagged(
        Ok(b"named".to_vec()),
        UserId(7),
        &mut auth_token_repo,
        &mut refresh_token_repo,
        &request,
    )
    .unwrap()
    .unwrap();
    assert!(matches!(auth_token_repo.get_at(&named, at(1_000)), Err(TokenRepoError::TokenNotFound)));
    assert!(matches!(
        refresh_token_repo.get_at(&refresh, at(1_000)),
        Err(TokenRepoError::TokenNotFound)
    ));
    assert_eq!(refresh_token_repo.get_at(&pair.refresh_token, at(9_999)).unwrap(), UserId(7));
}

#[test]
fn an_exchange_stops_at_the_first_failure_of_a_removal() {
    let (mut auth_token_repo, mut refresh_token_repo, auth, refresh) = a_session();
    let request = exchange(&refresh);
    let r = refresh_unnamed(
        Err(down()),
        UserId(7),
        &mut auth_token_repo,
        &mut refresh_token_repo,
        &request,
    );
    assert!(is_down(&r));
    assert_eq!(auth_token_repo.get_at(&auth, at(1_000)).unwrap(), UserId(7));
    assert_eq!(refresh_token_repo.get_at(&refresh, at(1_000)).unwrap(), UserId(7));

    let r = refresh_untagged(
        Err(down()),
        UserId(7),
        &mut auth_token_repo,
        &mut refresh_token_repo,
        &request,
    );
    assert!(is_down(&r));
    assert_eq!(refresh_token_repo.get_at(&refresh, at(1_000)).unwrap(), UserId(7));

    let r = refresh_spent(
        Err(down()),
        UserId(7),
        &mut auth_token_repo,
        &mut refresh_token_repo,
        &request,
    );
    assert!(is_down(&r));
    assert!(auth_token_repo.get_by_tag("refresh-token", b"r").unwrap().len() == 1);
}

#[test]
fn an_exchange_goes_on_after_a_removal_that_found_nothing() {
    let (mut auth_token_repo, mut refresh_token_repo, auth, refresh) = a_session();
    let request = exchange(&refresh);
    let pair = refresh_unnamed(
        Err(TokenRepoError::TokenNotFound),
        UserId(7),
        &mut auth_token_repo,
        &mut refresh_token_repo,
        &request,
    )
    .unwrap()
    .unwrap();
    assert!(matches!(auth_token_repo.get_at(&auth, at(1_000)), Err(TokenRepoError::TokenNotFound)));
    assert!(matches!(
        refresh_token_repo.get_at(&refresh, at(1_000)),
        Err(TokenRepoError::TokenNotFound)
    ));
    assert_eq!(auth_token_repo.get_at(&pair.auth_token, at(1_000)).unwrap(), UserId(7));

    let (mut auth_token_repo, mut refresh_token_repo, auth, refresh) = a_session();
    let request = exchange(&refresh);
    let pair = refresh_spent(
        Ok(()),
        UserId(7),
        &mut auth_token_repo,
        &mut refresh_token_repo,
        &request,
    )
    .unwrap()
    .unwrap();
    assert_eq!(auth_token_repo.get_at(&auth, at(1_000)).unwrap(), UserId(7));
    assert_eq!(refresh_token_repo.get_at(&refresh, at(1_000)).unwrap(), UserId(7));
    assert_eq!(
        auth_token_repo.get_tag(&pair.auth_token, "refresh-token").unwrap(),
        pair.refresh_token.as_bytes()
    );
}

#[test]
fn an_audited_logout_answers_with_the_user_on_record() {
    let alice = User { id: UserId(3), username: "alice".to_string() };
    let user = audited(Ok(()), Ok(Some(alice))).unwrap().unwrap();
    assert_eq!(user.id, UserId(3));
    assert!(audited(Ok(()), Ok(None)).unwrap().is_none());
    assert!(audited(Ok(()), Err(Error::UserRepoError(UserRepoError::NotAvailable)))
        .unwrap()
        .is_none());
    let alice = User { id: UserId(3), username: "alice".to_string() };
    assert!(is_down(&audited(Err(Error::TokenRepoError(down())), Ok(Some(alice)))));
}

#[test]
fn an_audited_logout_revokes_whether_or_not_the_token_was_resolved() {
    let (mut auth_token_repo, mut refresh_token_repo, auth, refresh) = a_session();
    let paired = RefreshToken::from_bytes(b"r".to_vec());
    let user = audit_resolved(
        Err(Error::UserRepoError(UserRepoError::NotAvailable)),
        &mut auth_token_repo,
        &mut refresh_token_repo,
        &auth,
        Some(paired),
    )
    .unwrap();
    assert!(user.is_none());
    assert!(matches!(auth_token_repo.get_at(&auth, at(1_000)), Err(TokenRepoError::TokenNotFound)));
    assert!(matches!(
        refresh_token_repo.get_at(&refresh, at(1_000)),
        Err(TokenRepoError::TokenNotFound)
    ));
}

#[test]
fn an_audited_logout_removes_nothing_when_the_tag_cannot_be_read() {
    let mut users = UserRepo::memory();
    users.insert(UserId(7), "alice", "stored".to_string()).unwrap();
    let (mut auth_token_repo, mut refresh_token_repo, auth, refresh) = a_session();
    let r = audit_tagged(
        Err(down()),
        &mut auth_token_repo,
        &mut refresh_token_repo,
        &users,
        &auth,
        at(1_000),
    );
    assert!(is_down(&r));
    assert_eq!(auth_token_repo.get_at(&auth, at(1_000)).unwrap(), UserId(7));
    assert_eq!(refresh_token_repo.get_at(&refresh, at(1_000)).unwrap(), UserId(7));

    let user = audit_tagged(
        Ok(b"r".to_vec()),
        &mut auth_token_repo,
        &mut refresh_token_repo,
        &users,
        &auth,
        at(1_000),
    )
    .unwrap()
    .unwrap();
    assert_eq!(user.username, "alice");
    assert!(matches!(auth_token_repo.get_at(&auth, at(1_000)), Err(TokenRepoError::TokenNotFound)));
    assert!(matches!(
        refresh_token_repo.get_at(&refresh, at(1_000)),
        Err(TokenRepoError::TokenNotFound)
    ));
}

#[test]
fn an_audited_logout_of_the_controller_tells_who_logged_out() {
    let mut users = UserRepo::memory();
    users.insert(UserId(7), "alice", "stored".to_string()).unwrap();
    let (mut auth_token_repo, mut refresh_token_repo, auth, refresh) = a_session();
    let user =
        logout_audit(&mut auth_token_repo, &mut refresh_token_repo, &users, &auth, at(1_000))
            .unwrap()
            .unwrap();
    assert_eq!(user.id, UserId(7));
    assert!(matches!(
        refresh_token_repo.get_at(&refresh, at(1_000)),
        Err(TokenRepoError::TokenNotFound)
    ));
    let again =
        logout_audit(&mut auth_token_repo, &mut refresh_token_repo, &users, &auth, at(1_000))
            .unwrap();
    assert!(again.is_none());
}

#[test]
fn a_logout_forgets_the_user_and_keeps_the_error() {
    let alice = User { id: UserId(3), username: "alice".to_string() };
    assert!(matches!(lib_authentication::provider::session::logged_out(Ok(Some(alice))), Ok(())));
    assert!(matches!(lib_authentication::provider::session::logged_out(Ok(None)), Ok(())));
    assert!(is_down(&lib_authentication::provider::session::logged_out(Err(Error::TokenRepoError(
        down()
    )))));
}

#[test]
fn a_registration_is_answered_without_the_id() {
    assert!(matches!(lib_authentication::serving::register_response(Ok(UserId(4))), Ok(())));
    assert!(matches!(
        lib_authentication::serving::register_response(Err(Error::UserRepoError(
            UserRepoError::DuplicateUsername
        ))),
        Err(Error::UserRepoError(UserRepoError::DuplicateUsername))
    ));
}
