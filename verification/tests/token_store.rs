use lib_authentication::clock::Timestamp;
use lib_authentication::data::Interface as TokenInterface;
use lib_authentication::token_repo::{Error, Interface};
use lib_authentication::user_repo::UserId;
use lib_authentication::{AuthToken, TokenRepo};

fn token(bytes: &[u8]) -> AuthToken {
    AuthToken::from_bytes(bytes.to_vec())
}

fn store() -> TokenRepo<AuthToken> {
    TokenRepo::memory()
}

#[test]
fn put_then_get_gives_the_owner() {
    let mut repo = store();
    let alice = UserId(1);
    repo.put(&token(b"a"), &alice, &[], None).unwrap();
    assert_eq!(repo.get(&token(b"a")).unwrap(), alice);
    assert!(matches!(repo.get(&token(b"b")), Err(Error::TokenNotFound)));
    assert!(repo.has_reverse_index());
}

#[test]
fn a_record_is_readable_up_to_its_expiry_and_removed_by_the_read_after() {
    let mut repo = store();
    let alice = UserId(1);
    let at = Timestamp::from_secs(100);
    repo.put_at(&token(b"a"), &alice, &[("k", b"v")], Some(10), at).unwrap();

    assert_eq!(repo.get_at(&token(b"a"), Timestamp::from_secs(100)).unwrap(), alice);
    assert_eq!(repo.get_at(&token(b"a"), Timestamp::from_secs(110)).unwrap(), alice);
    assert_eq!(repo.get_at(&token(b"a"), Timestamp::from_secs(0)).unwrap(), alice);
    assert!(matches!(
        repo.get_at(&token(b"a"), Timestamp { nanos: 110_000_000_001 }),
        Err(Error::TokenExpired)
    ));
    assert!(matches!(
        repo.get_at(&token(b"a"), Timestamp { nanos: 110_000_000_001 }),
        Err(Error::TokenNotFound)
    ));
    assert!(matches!(repo.get_tag(&token(b"a"), "k"), Err(Error::TokenNotFound)));
}

#[test]
fn a_ttl_in_the_past_is_unreadable_on_the_next_get() {
    let mut repo = store();
    repo.put_at(&token(b"a"), &UserId(1), &[], Some(0), Timestamp { nanos: 7 }).unwrap();
    assert!(matches!(repo.get_at(&token(b"a"), Timestamp { nanos: 8 }), Err(Error::TokenExpired)));
    assert!(matches!(repo.get_at(&token(b"a"), Timestamp { nanos: 8 }), Err(Error::TokenNotFound)));
}

#[test]
fn a_ttl_is_not_sliding() {
    let mut repo = store();
    repo.put_at(&token(b"a"), &UserId(1), &[], Some(10), Timestamp::from_secs(0)).unwrap();
    assert!(repo.get_at(&token(b"a"), Timestamp::from_secs(9)).is_ok());
    assert!(repo.get_at(&token(b"a"), Timestamp::from_secs(11)).is_err());
}

#[test]
fn an_expiry_beyond_the_last_instant_never_comes() {
    let mut repo = store();
    let late = Timestamp { nanos: u128::MAX - 5 };
    repo.put_at(&token(b"a"), &UserId(1), &[], Some(u64::MAX), late).unwrap();
    assert!(repo.get_at(&token(b"a"), Timestamp { nanos: u128::MAX }).is_ok());
}

#[test]
fn delete_is_idempotent() {
    let mut repo = store();
    repo.put(&token(b"a"), &UserId(1), &[("k", b"v")], None).unwrap();
    assert!(repo.delete(&token(b"a")).is_ok());
    assert!(repo.delete(&token(b"a")).is_ok());
    assert!(matches!(repo.get(&token(b"a")), Err(Error::TokenNotFound)));
    assert!(matches!(repo.get_tag(&token(b"a"), "k"), Err(Error::TokenNotFound)));
}

#[test]
fn put_tag_attaches_and_overwrites() {
    let mut repo = store();
    repo.put(&token(b"a"), &UserId(1), &[], None).unwrap();
    assert!(matches!(repo.get_tag(&token(b"a"), "k"), Err(Error::TokenNotFound)));
    repo.put_tag(&token(b"a"), "k", b"one").unwrap();
    assert_eq!(repo.get_tag(&token(b"a"), "k").unwrap(), b"one");
    repo.put_tag(&token(b"a"), "k", b"two").unwrap();
    assert_eq!(repo.get_tag(&token(b"a"), "k").unwrap(), b"two");
    repo.put_tag(&token(b"a"), "other", b"three").unwrap();
    assert_eq!(repo.get_tag(&token(b"a"), "k").unwrap(), b"two");
    assert_eq!(repo.get_tag(&token(b"a"), "other").unwrap(), b"three");
}

#[test]
fn put_tag_needs_a_record() {
    let mut repo = store();
    assert!(matches!(repo.put_tag(&token(b"a"), "k", b"v"), Err(Error::TokenNotFound)));
    assert!(repo.get_by_tag("k", b"v").unwrap().is_empty());
}

#[test]
fn put_replaces_what_was_held() {
    let mut repo = store();
    repo.put(&token(b"a"), &UserId(1), &[("k", b"v"), ("l", b"w")], None).unwrap();
    repo.put(&token(b"a"), &UserId(2), &[("k", b"x")], None).unwrap();
    assert_eq!(repo.get(&token(b"a")).unwrap(), UserId(2));
    assert_eq!(repo.get_tag(&token(b"a"), "k").unwrap(), b"x");
    assert!(matches!(repo.get_tag(&token(b"a"), "l"), Err(Error::TokenNotFound)));
}

#[test]
fn of_two_tags_of_one_name_the_later_stays() {
    let mut repo = store();
    repo.put(&token(b"a"), &UserId(1), &[("k", b"first"), ("k", b"second")], None).unwrap();
    assert_eq!(repo.get_tag(&token(b"a"), "k").unwrap(), b"second");
}

#[test]
fn get_by_tag_finds_every_token_with_the_value() {
    let mut repo = store();
    repo.put(&token(b"a"), &UserId(1), &[("pair", b"r1")], None).unwrap();
    repo.put(&token(b"b"), &UserId(1), &[("pair", b"r1")], None).unwrap();
    repo.put(&token(b"c"), &UserId(1), &[("pair", b"r2")], None).unwrap();
    repo.put(&token(b"d"), &UserId(1), &[("other", b"r1")], None).unwrap();

    let mut found = repo.get_by_tag("pair", b"r1").unwrap();
    found.sort_by(|x, y| x.as_bytes().cmp(y.as_bytes()));
    assert_eq!(found, vec![token(b"a"), token(b"b")]);
    assert_eq!(repo.get_by_tag("pair", b"r2").unwrap(), vec![token(b"c")]);
    assert!(repo.get_by_tag("pair", b"r3").unwrap().is_empty());
}

#[test]
fn delete_by_tag_revokes_every_token_with_the_value() {
    let mut repo = store();
    repo.put(&token(b"a"), &UserId(1), &[("pair", b"r1")], None).unwrap();
    repo.put(&token(b"b"), &UserId(1), &[("pair", b"r1"), ("x", b"y")], None).unwrap();
    repo.put(&token(b"c"), &UserId(1), &[("pair", b"r2")], None).unwrap();

    repo.delete_by_tag("pair", b"r1").unwrap();
    assert!(matches!(repo.get(&token(b"a")), Err(Error::TokenNotFound)));
    assert!(matches!(repo.get(&token(b"b")), Err(Error::TokenNotFound)));
    assert!(matches!(repo.get_tag(&token(b"b"), "x"), Err(Error::TokenNotFound)));
    assert_eq!(repo.get(&token(b"c")).unwrap(), UserId(1));
    assert_eq!(repo.get_tag(&token(b"c"), "pair").unwrap(), b"r2");
    repo.delete_by_tag("pair", b"r1").unwrap();
}

#[test]
fn misses_are_told_from_failures() {
    assert!(Error::TokenNotFound.is_domain_miss());
    assert!(Error::TokenExpired.is_domain_miss());
    assert!(Error::TokenInvalid.is_domain_miss());
    assert!(!Error::NotAvailable.is_domain_miss());
    assert!(!Error::TokenRepoError("down".to_string()).is_domain_miss());
}
