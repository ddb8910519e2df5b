use lib_authentication::base64::{decode, encode, Decode, Encode, Error as Base64Error};
use lib_authentication::clock::Timestamp;
use lib_authentication::data::Interface as TokenInterface;
use lib_authentication::environment::Config;
use lib_authentication::schema::{LoginRequest, RefreshRequest, RegisterRequest};
use lib_authentication::serving::{
    bearer_token, expiry_seconds, login, login_at, login_response, logout, logout_at, refresh,
    refresh_at, register, whoami, whoami_at,
};
use lib_authentication::{
    AuthToken, Error, Provider, RefreshToken, TokenPair, TokenRepo, UserRepo, UserRepoError,
};

fn provider() -> Provider {
    let mut provider = Provider::with_config(
        TokenRepo::memory(),
        TokenRepo::memory(),
        UserRepo::memory(),
        Config { auth_token_size: 16, refresh_token_size: 24, auth_token_ttl: 60, refresh_token_ttl: 120 },
    );
    register(
        &mut provider,
        &RegisterRequest { username: "alice".to_string(), password: "correct-horse".to_string() },
    )
    .unwrap();
    provider
}

fn alice() -> LoginRequest {
    LoginRequest { username: "alice".to_string(), password: "correct-horse".to_string() }
}

#[test]
fn bearer_extraction() {
    let token = bearer_token(Some(b"Bearer ZXhhbXBsZSBieXRlc3RyaW5nIQ")).unwrap();
    assert_eq!(token.as_bytes(), b"example bytestring!");
    assert_eq!(bearer_token(Some(b"Bearer ")).unwrap().len(), 0);
    assert!(bearer_token(None).is_none());
    assert!(bearer_token(Some(b"")).is_none());
    assert!(bearer_token(Some(b"Bearer")).is_none());
    assert!(bearer_token(Some(b"bearer ZXhhbXBsZSBieXRlc3RyaW5nIQ")).is_none());
    assert!(bearer_token(Some(b"Basic ZXhhbXBsZSBieXRlc3RyaW5nIQ")).is_none());
    assert!(bearer_token(Some(b"Bearer not base64!")).is_none());
    assert!(bearer_token(Some(b"Bearer  ZXhhbXBsZSBieXRlc3RyaW5nIQ")).is_none());
}

#[test]
fn expiry_is_reported_in_epoch_seconds() {
    assert_eq!(expiry_seconds(Timestamp::from_secs(1_000), 3600), 4_600);
    assert_eq!(expiry_seconds(Timestamp { nanos: 1_999_999_999 }, 1), 2);
    assert_eq!(expiry_seconds(Timestamp::from_secs(4_294_967_295), 0), u32::MAX);
    assert_eq!(expiry_seconds(Timestamp::from_secs(4_294_967_295), 1), 0);
    assert_eq!(expiry_seconds(Timestamp { nanos: u128::MAX }, u64::MAX), 0);
}

#[test]
fn login_answers_with_tokens_and_expiries() {
    let mut provider = provider();
    let response = login_at(&mut provider, &alice(), Timestamp::from_secs(1_000)).unwrap();
    assert_eq!(response.auth_token_expires, 1_060);
    assert_eq!(response.refresh_token_expires, 1_120);
    assert_eq!(decode(response.auth_token.as_bytes()).unwrap().len(), 16);
    assert_eq!(decode(response.refresh_token.as_bytes()).unwrap().len(), 24);

    let token = AuthToken::from_bytes(response.auth_token.decode().unwrap());
    let me = whoami_at(&mut provider, Some(&token), Timestamp::from_secs(1_030)).unwrap();
    assert_eq!(me.username, "alice");
    assert_eq!(me.id.len(), 36);
    assert!(whoami_at(&mut provider, Some(&token), Timestamp::from_secs(1_061)).is_none());
}

#[test]
fn login_with_bad_credentials_answers_nothing() {
    let mut provider = provider();
    let wrong = LoginRequest { username: "alice".to_string(), password: "wrong".to_string() };
    assert!(login(&mut provider, &wrong).is_none());
    let unknown = LoginRequest { username: "bob".to_string(), password: "correct-horse".to_string() };
    assert!(login(&mut provider, &unknown).is_none());
    assert!(login(&mut provider, &alice()).is_some());
}

#[test]
fn refresh_answers_with_a_new_pair_once() {
    let mut provider = provider();
    let first = login_at(&mut provider, &alice(), Timestamp::from_secs(1_000)).unwrap();
    let request = RefreshRequest { refresh_token: first.refresh_token.clone() };
    let second = refresh_at(&mut provider, &request, Timestamp::from_secs(1_100)).unwrap();
    assert_eq!(second.auth_token_expires, 1_160);
    assert_eq!(second.refresh_token_expires, 1_220);
    assert_ne!(second.auth_token, first.auth_token);
    assert_ne!(second.refresh_token, first.refresh_token);
    assert!(refresh_at(&mut provider, &request, Timestamp::from_secs(1_100)).is_none());

    let old = AuthToken::from_bytes(decode(first.auth_token.as_bytes()).unwrap());
    assert!(whoami_at(&mut provider, Some(&old), Timestamp::from_secs(1_001)).is_none());
    let new = AuthToken::from_bytes(decode(second.auth_token.as_bytes()).unwrap());
    assert!(whoami(&mut provider, Some(&new)).is_none());
    assert!(whoami_at(&mut provider, Some(&new), Timestamp::from_secs(1_101)).is_none());
}

#[test]
fn refresh_of_what_is_no_token_answers_nothing() {
    let mut provider = provider();
    assert!(refresh(&mut provider, &RefreshRequest { refresh_token: "not base64!".to_string() }).is_none());
    assert!(refresh(&mut provider, &RefreshRequest { refresh_token: "AAAA".to_string() }).is_none());
    let pair = login_at(&mut provider, &alice(), Timestamp::from_secs(1_000)).unwrap();
    let late = RefreshRequest { refresh_token: pair.refresh_token };
    assert!(refresh_at(&mut provider, &late, Timestamp::from_secs(1_121)).is_none());
}

#[test]
fn logout_and_whoami_without_a_token() {
    let mut provider = provider();
    assert!(whoami(&mut provider, None).is_none());
    let response = login(&mut provider, &alice()).unwrap();
    let token = AuthToken::from_bytes(decode(response.auth_token.as_bytes()).unwrap());
    assert_eq!(whoami(&mut provider, Some(&token)).unwrap().username, "alice");
    assert!(logout(&mut provider, &token).is_ok());
    assert!(whoami(&mut provider, Some(&token)).is_none());
    assert!(logout_at(&mut provider, &token, Timestamp::from_secs(5)).is_ok());
    let refresh_token = RefreshToken::from_bytes(decode(response.refresh_token.as_bytes()).unwrap());
    assert!(provider.refresh(&refresh_token, None, None).unwrap().is_none());
}

#[test]
fn registering_twice_is_an_error() {
    let mut provider = provider();
    let again = RegisterRequest { username: "alice".to_string(), password: "x".to_string() };
    assert!(register(&mut provider, &again).is_err());
    let bob = RegisterRequest { username: "bob".to_string(), password: "x".to_string() };
    assert!(register(&mut provider, &bob).is_ok());
}

#[test]
fn tokens_and_text_encode_and_decode_themselves() {
    let token = AuthToken::from_bytes(b"example bytestring!".to_vec());
    assert_eq!(token.encode().unwrap(), "ZXhhbXBsZSBieXRlc3RyaW5nIQ");
    assert_eq!(b"example bytestring!".to_vec().encode().unwrap(), "ZXhhbXBsZSBieXRlc3RyaW5nIQ");
    assert_eq!(b"example bytestring!"[..].encode().unwrap(), encode(b"example bytestring!").unwrap());
    let mut target = [0u8; 26];
    assert_eq!(RefreshToken::from_bytes(b"example bytestring!".to_vec()).write_to(&mut target), Ok(26));
    assert_eq!(&target, b"ZXhhbXBsZSBieXRlc3RyaW5nIQ");
    let mut short = [0u8; 25];
    assert_eq!(token.write_to(&mut short), Err(Base64Error::InvalidLength));

    assert_eq!("ZXhhbXBsZSBieXRlc3RyaW5nIQ".decode().unwrap(), b"example bytestring!");
    assert_eq!("ZXhhbXBsZSBieXRlc3RyaW5nIQ".to_string().decode().unwrap(), b"example bytestring!");
    assert_eq!(b"ZXhhbXBsZSBieXRlc3RyaW5nIQ".to_vec().decode().unwrap(), b"example bytestring!");
    let mut target = [0u8; 19];
    assert_eq!(b"ZXhhbXBsZSBieXRlc3RyaW5nIQ"[..].decode_into(&mut target), Ok(19));
    assert_eq!(&target, b"example bytestring!");
    assert_eq!("!".decode(), Err(Base64Error::InvalidEncoding));
}

#[test]
fn a_login_is_answered_from_what_the_provider_made_of_it() {
    let pair = TokenPair {
        auth_token: AuthToken::from_bytes(b"example bytestring!".to_vec()),
        refresh_token: RefreshToken::from_bytes(vec![0xfb, 0xff]),
    };
    let response = login_response(Ok(Some(pair)), 7, 9).unwrap();
    assert_eq!(response.auth_token, "ZXhhbXBsZSBieXRlc3RyaW5nIQ");
    assert_eq!(response.auth_token_expires, 7);
    assert_eq!(response.refresh_token, "-_8");
    assert_eq!(response.refresh_token_expires, 9);

    assert!(login_response(Ok(None), 7, 9).is_none());
    assert!(login_response(Err(Error::UserRepoError(UserRepoError::NotAvailable)), 7, 9).is_none());
}

#[test]
fn an_exchange_is_answered_from_what_the_provider_made_of_it() {
    let pair = TokenPair {
        auth_token: AuthToken::from_bytes(b"example bytestring!".to_vec()),
        refresh_token: RefreshToken::from_bytes(vec![0xfb, 0xff]),
    };
    let response = lib_authentication::serving::refresh_response(Ok(Some(pair)), 7, 9).unwrap();
    assert_eq!(response.auth_token, "ZXhhbXBsZSBieXRlc3RyaW5nIQ");
    assert_eq!(response.auth_token_expires, 7);
    assert_eq!(response.refresh_token, "-_8");
    assert_eq!(response.refresh_token_expires, 9);

    assert!(lib_authentication::serving::refresh_response(Ok(None), 7, 9).is_none());
    assert!(lib_authentication::serving::refresh_response(
        Err(Error::UserRepoError(UserRepoError::NotAvailable)),
        7,
        9
    )
    .is_none());
}

#[test]
fn the_question_who_is_answered_from_what_the_provider_made_of_it() {
    let user = lib_authentication::User {
        id: lib_authentication::UserId(0x0123_4567_89ab_4def_8123_4567_89ab_cdef),
        username: "alice".to_string(),
    };
    let response = lib_authentication::serving::whoami_response(Ok(Some(user))).unwrap();
    assert_eq!(response.id, "01234567-89ab-4def-8123-456789abcdef");
    assert_eq!(response.username, "alice");
    assert!(lib_authentication::serving::whoami_response(Ok(None)).is_none());
    assert!(lib_authentication::serving::whoami_response(Err(Error::UserRepoError(
        UserRepoError::NotAvailable
    )))
    .is_none());
}
