use lib_authentication::clock::Timestamp;
use lib_authentication::data::Interface;
use lib_authentication::{
    AuthToken, Error, LoginCredentials, Provider, RefreshToken, RegisterCredentials, TokenRepo,
    UserRepo, UserRepoError,
};

fn provider() -> Provider {
    Provider::new(TokenRepo::memory(), TokenRepo::memory(), UserRepo::memory())
}

#[test]
fn register_login_whoami_logout() {
    let mut provider = provider();
    let id = provider
        .register(&RegisterCredentials { username: "alice", password: "correct-horse" })
        .unwrap();

    let pair = provider
        .login(
            &LoginCredentials { username: "alice", password: "correct-horse" },
            Some(3600),
            Some(604800),
        )
        .unwrap()
        .unwrap();
    assert_eq!(pair.auth_token.len(), 32);
    assert_eq!(pair.refresh_token.len(), 32);

    let user = provider.whoami(&pair.auth_token).unwrap().unwrap();
    assert_eq!(user.id, id);
    assert_eq!(user.username, "alice");

    assert!(provider.logout(&pair.auth_token).is_ok());
    assert!(provider.whoami(&pair.auth_token).unwrap().is_none());
    assert!(provider.logout(&pair.auth_token).is_ok());
}

#[test]
fn login_with_a_wrong_password_is_none_and_no_error() {
    let mut provider = provider();
    provider
        .register(&RegisterCredentials { username: "alice", password: "correct-horse" })
        .unwrap();
    let r = provider.login(&LoginCredentials { username: "alice", password: "wrong" }, None, None);
    assert!(matches!(r, Ok(None)));
    let r = provider.login(&LoginCredentials { username: "bob", password: "correct-horse" }, None, None);
    assert!(matches!(r, Ok(None)));
}

#[test]
fn two_logins_give_two_independent_sessions() {
    let mut provider = provider();
    let id = provider
        .register(&RegisterCredentials { username: "alice", password: "correct-horse" })
        .unwrap();
    let creds = LoginCredentials { username: "alice", password: "correct-horse" };
    let first = provider.login(&creds, Some(3600), Some(604800)).unwrap().unwrap();
    let second = provider.login(&creds, Some(3600), Some(604800)).unwrap().unwrap();
    assert_ne!(first.auth_token, second.auth_token);
    assert_ne!(first.refresh_token, second.refresh_token);

    assert_eq!(provider.whoami(&first.auth_token).unwrap().unwrap().id, id);
    assert_eq!(provider.whoami(&second.auth_token).unwrap().unwrap().id, id);

    provider.logout(&first.auth_token).unwrap();
    assert!(provider.whoami(&first.auth_token).unwrap().is_none());
    assert_eq!(provider.whoami(&second.auth_token).unwrap().unwrap().id, id);
    assert!(provider.refresh(&first.refresh_token, None, None).unwrap().is_none());
    assert!(provider.refresh(&second.refresh_token, None, None).unwrap().is_some());
}

#[test]
fn refresh_rotates_the_pair() {
    let mut provider = provider();
    let id = provider
        .register(&RegisterCredentials { username: "alice", password: "correct-horse" })
        .unwrap();
    let creds = LoginCredentials { username: "alice", password: "correct-horse" };
    let old = provider.login(&creds, Some(3600), Some(604800)).unwrap().unwrap();

    let new = provider.refresh(&old.refresh_token, Some(3600), Some(604800)).unwrap().unwrap();
    assert!(provider.whoami(&old.auth_token).unwrap().is_none());
    assert_eq!(provider.whoami(&new.auth_token).unwrap().unwrap().id, id);
    assert!(provider.refresh(&old.refresh_token, Some(3600), Some(604800)).unwrap().is_none());
}

#[test]
fn refresh_of_an_unknown_token_is_none() {
    let mut provider = provider();
    let stranger = RefreshToken::from_bytes(vec![7u8; 32]);
    assert!(provider.refresh(&stranger, None, None).unwrap().is_none());
}

#[test]
fn a_token_past_its_time_to_live_stands_for_nobody() {
    let mut provider = provider();
    provider
        .register(&RegisterCredentials { username: "alice", password: "correct-horse" })
        .unwrap();
    let creds = LoginCredentials { username: "alice", password: "correct-horse" };
    let issued = Timestamp::from_secs(1_000);
    let pair = provider.login_at(&creds, Some(60), Some(120), issued).unwrap().unwrap();

    assert!(provider.whoami_at(&pair.auth_token, Timestamp::from_secs(1_060)).unwrap().is_some());
    assert!(provider.whoami_at(&pair.auth_token, Timestamp::from_secs(1_061)).unwrap().is_none());
    assert!(provider.whoami_at(&pair.auth_token, Timestamp::from_secs(1_000)).unwrap().is_none());

    assert!(provider
        .refresh_at(&pair.refresh_token, None, None, Timestamp::from_secs(1_121))
        .unwrap()
        .is_none());
}

#[test]
fn a_time_to_live_of_zero_is_past_at_the_next_instant() {
    let mut provider = provider();
    provider
        .register(&RegisterCredentials { username: "alice", password: "correct-horse" })
        .unwrap();
    let creds = LoginCredentials { username: "alice", password: "correct-horse" };
    let issued = Timestamp { nanos: 5 };
    let pair = provider.login_at(&creds, Some(0), Some(0), issued).unwrap().unwrap();
    assert!(provider.whoami_at(&pair.auth_token, Timestamp { nanos: 6 }).unwrap().is_none());
}

#[test]
fn registering_a_name_twice_is_refused() {
    let mut provider = provider();
    provider
        .register(&RegisterCredentials { username: "alice", password: "correct-horse" })
        .unwrap();
    let r = provider.register(&RegisterCredentials { username: "alice", password: "other" });
    assert!(matches!(r, Err(Error::UserRepoError(UserRepoError::DuplicateUsername))));
}

#[test]
fn whoami_of_an_unknown_token_is_none() {
    let mut provider = provider();
    let stranger = AuthToken::from_bytes(vec![1, 2, 3]);
    assert!(provider.whoami(&stranger).unwrap().is_none());
}

fn session<P: lib_authentication::provider::Interface>(provider: &mut P) -> Option<String> {
    provider.register(&RegisterCredentials { username: "carol", password: "pw" }).ok()?;
    let creds = LoginCredentials { username: "carol", password: "pw" };
    let pair = provider.login(&creds, Some(60), Some(120)).ok()??;
    let pair = provider.refresh(&pair.refresh_token, Some(60), Some(120)).ok()??;
    let user = provider.whoami(&pair.auth_token).ok()??;
    provider.logout(&pair.auth_token).ok()?;
    if provider.whoami(&pair.auth_token).ok()?.is_some() {
        return None;
    }
    Some(user.username)
}

#[test]
fn the_provider_answers_through_its_interface() {
    let mut provider = provider();
    assert_eq!(session(&mut provider), Some("carol".to_string()));
}

#[test]
fn the_provider_is_made_with_its_configuration() {
    let provider = provider();
    assert_eq!(provider.auth_token_size(), 32);
    assert_eq!(provider.refresh_token_size(), 32);
    assert_eq!(provider.auth_token_ttl(), 3600);
    assert_eq!(provider.refresh_token_ttl(), 604800);
}

#[test]
fn logging_out_an_expired_token_revokes_its_refresh_token() {
    let mut provider = provider();
    provider
        .register(&RegisterCredentials { username: "alice", password: "correct-horse" })
        .unwrap();
    let creds = LoginCredentials { username: "alice", password: "correct-horse" };
    let pair = provider.login_at(&creds, Some(60), Some(3600), Timestamp::from_secs(1_000)).unwrap().unwrap();
    provider.logout_at(&pair.auth_token, Timestamp::from_secs(2_000)).unwrap();
    assert!(provider
        .refresh_at(&pair.refresh_token, None, None, Timestamp::from_secs(2_001))
        .unwrap()
        .is_none());
    assert!(provider.whoami_at(&pair.auth_token, Timestamp::from_secs(1_001)).unwrap().is_none());
}

#[test]
fn an_audited_logout_tells_who_logged_out() {
    let mut provider = provider();
    let id = provider
        .register(&RegisterCredentials { username: "alice", password: "correct-horse" })
        .unwrap();
    let creds = LoginCredentials { username: "alice", password: "correct-horse" };
    let pair = provider.login(&creds, None, None).unwrap().unwrap();
    let user = provider.logout_audit(&pair.auth_token).unwrap().unwrap();
    assert_eq!(user.id, id);
    assert_eq!(user.username, "alice");
    assert!(provider.logout_audit(&pair.auth_token).unwrap().is_none());
    assert!(provider.refresh(&pair.refresh_token, None, None).unwrap().is_none());
}
