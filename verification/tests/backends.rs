use lib_authentication::data::Interface as TokenInterface;
use lib_authentication::database::{
    Condition, Error as DatabaseError, Failure, Filter, Model, Write,
};
use lib_authentication::token_repo::cache::{Command, TokenRepo as CacheRepo};
use lib_authentication::token_repo::Error as TokenError;
use lib_authentication::user_repo::database;
use lib_authentication::user_repo::{CreateUser, Error, UpdateUser, UserId};
use lib_authentication::crypto::hash_password;
use lib_authentication::AuthToken;

fn key(command: &Command) -> &str {
    match command {
        Command::HSet { key, .. } => key,
        Command::HGet { key, .. } => key,
        Command::Exists { key } => key,
        Command::Delete { key } => key,
        Command::Expire { key, .. } => key,
    }
}

#[test]
fn cache_keys() {
    let repo = CacheRepo::new("a".to_string());
    assert_eq!(repo.get_key("xyz"), "a:xyz");
    let token = AuthToken::from_bytes(b"example bytestring!".to_vec());
    assert_eq!(repo.token_key(&token).unwrap(), "a:ZXhhbXBsZSBieXRlc3RyaW5nIQ");
    assert_eq!(CacheRepo::new(String::new()).token_key(&AuthToken::from_bytes(vec![])).unwrap(), ":");
}

#[test]
fn cache_put_sets_the_owner_then_the_tags_then_the_expiry() {
    let repo = CacheRepo::new("r".to_string());
    let token = AuthToken::from_bytes(vec![0xfb, 0xff]);
    let owner = UserId(0xa1a2a3a4_b1b2_c1c2_d1d2_d3d4d5d6d7d8);
    let commands = repo.put(&token, &owner, &[("auth-token", b"\x01\x02"), ("x", b"")], Some(3600)).unwrap();
    assert_eq!(commands.len(), 4);
    for command in &commands {
        assert_eq!(key(command), "r:-_8");
    }
    assert!(matches!(&commands[0], Command::HSet { field, value, .. }
        if field == "uid" && value == b"a1a2a3a4-b1b2-c1c2-d1d2-d3d4d5d6d7d8"));
    assert!(matches!(&commands[1], Command::HSet { field, value, .. }
        if field == "auth-token" && value == &[1, 2]));
    assert!(matches!(&commands[2], Command::HSet { field, value, .. }
        if field == "x" && value.is_empty()));
    assert!(matches!(&commands[3], Command::Expire { seconds: 3600, .. }));

    let commands = repo.put(&token, &owner, &[], None).unwrap();
    assert_eq!(commands.len(), 1);
}

#[test]
fn cache_reads_and_deletes() {
    let repo = CacheRepo::new("a".to_string());
    let token = AuthToken::from_bytes(b"example bytestring!".to_vec());
    let k = "a:ZXhhbXBsZSBieXRlc3RyaW5nIQ";
    assert!(matches!(repo.get(&token).unwrap(), Command::HGet { key, field } if key == k && field == "uid"));
    assert!(matches!(repo.get_tag(&token, "t").unwrap(), Command::HGet { key, field } if key == k && field == "t"));
    assert!(matches!(repo.put_tag(&token).unwrap(), Command::Exists { key } if key == k));
    assert!(matches!(CacheRepo::put_tag_existing(k.to_string(), true, "t", b"v").unwrap(),
        Command::HSet { key, field, value } if key == k && field == "t" && value == b"v"));
    assert!(matches!(
        CacheRepo::put_tag_existing(k.to_string(), false, "t", b"v"),
        Err(TokenError::TokenNotFound)
    ));
    assert!(matches!(repo.delete(&token).unwrap(), Command::Exists { key } if key == k));
    assert!(matches!(CacheRepo::delete_existing(k.to_string(), true).unwrap(), Command::Delete { key } if key == k));
    assert!(matches!(CacheRepo::delete_existing(k.to_string(), false), Err(TokenError::TokenNotFound)));
}

#[test]
fn cache_replies() {
    let id = UserId(0xa1a2a3a4_b1b2_c1c2_d1d2_d3d4d5d6d7d8);
    assert_eq!(CacheRepo::user_of(Some(id.to_string())).unwrap(), id);
    assert!(matches!(CacheRepo::user_of(None), Err(TokenError::TokenNotFound)));
    assert!(matches!(CacheRepo::user_of(Some("nobody".to_string())), Err(TokenError::TokenInvalid)));
    assert_eq!(CacheRepo::tag_of(Some(vec![1, 2])).unwrap(), vec![1, 2]);
    assert!(matches!(CacheRepo::tag_of(None), Err(TokenError::TokenNotFound)));
    assert!(matches!(CacheRepo::failure("down".to_string()), TokenError::TokenRepoError(text) if text == "down"));
    assert!(matches!(CacheRepo::no_reverse_index(), TokenError::NotAvailable));
}

#[test]
fn filters_and_writes() {
    let filter = Filter::default().id(UserId(3)).username("alice".to_string()).enabled(true);
    let conditions = filter.conditions();
    assert_eq!(conditions.len(), 3);
    assert!(matches!(&conditions[0], Condition::Id(UserId(3))));
    assert!(matches!(&conditions[1], Condition::Username(name) if name == "alice"));
    assert!(matches!(&conditions[2], Condition::IsEnabled(true)));
    assert!(Filter::new().conditions().is_empty());
    let only = Filter::new().enabled(false).conditions();
    assert!(matches!(only.as_slice(), [Condition::IsEnabled(false)]));

    let write = Write::default().username("bob".to_string()).password_hash("h".to_string()).enabled(false);
    assert_eq!(write.username.as_deref(), Some("bob"));
    assert_eq!(write.password_hash.as_deref(), Some("h"));
    assert_eq!(write.is_enabled, Some(false));
    let nothing = Write::new();
    assert!(nothing.username.is_none() && nothing.password_hash.is_none() && nothing.is_enabled.is_none());
}

fn row(enabled: bool) -> Model {
    Model {
        id: UserId(9),
        username: "alice".to_string(),
        password_hash: hash_password(b"correct-horse").unwrap(),
        is_enabled: enabled,
    }
}

#[test]
fn database_login_is_decided_from_the_row() {
    let user = database::check_password(Some(row(true)), "correct-horse").unwrap();
    assert_eq!(user.id, UserId(9));
    assert_eq!(user.username, "alice");
    assert!(database::check_password(Some(row(true)), "wrong").is_none());
    assert!(database::check_password(Some(row(false)), "correct-horse").is_none());
    assert!(database::check_password(None, "correct-horse").is_none());
    let mut broken = row(true);
    broken.password_hash = String::new();
    assert!(database::check_password(Some(broken), "").is_none());
    assert_eq!(database::found(Some(row(false))).unwrap().username, "alice");
    assert!(database::found(None).is_none());
}

#[test]
fn database_writes() {
    let write = database::create(&CreateUser { username: "alice", password: "correct-horse" }).unwrap();
    assert_eq!(write.username.as_deref(), Some("alice"));
    assert_eq!(write.is_enabled, Some(true));
    let hash = write.password_hash.unwrap();
    assert_ne!(hash, "correct-horse");
    let stored = Model { id: UserId(1), username: "alice".to_string(), password_hash: hash, is_enabled: true };
    assert!(database::check_password(Some(stored), "correct-horse").is_some());

    let write = database::update_password("battery-staple").unwrap();
    assert!(write.username.is_none() && write.is_enabled.is_none());
    assert!(write.password_hash.unwrap().starts_with("$argon2id$"));

    let write = database::update(&UpdateUser { username: Some("bob".to_string()), enabled: None });
    assert_eq!(write.username.as_deref(), Some("bob"));
    assert!(write.password_hash.is_none() && write.is_enabled.is_none());
    let write = database::update(&UpdateUser { username: None, enabled: Some(false) });
    assert!(write.username.is_none());
    assert_eq!(write.is_enabled, Some(false));
}

#[test]
fn database_filters_and_failures() {
    let filter = database::by_username("alice");
    assert!(filter.id.is_none() && filter.is_enabled.is_none());
    assert_eq!(filter.username.as_deref(), Some("alice"));
    let filter = database::by_id(UserId(4));
    assert_eq!(filter.id, Some(UserId(4)));
    assert!(filter.username.is_none() && filter.is_enabled.is_none());

    assert_eq!(database::failure(&DatabaseError::UniqueViolation("dup".to_string())), Error::DuplicateUsername);
    assert_eq!(database::failure(&DatabaseError::Connection("down".to_string())), Error::NotAvailable);
    assert_eq!(database::failure(&DatabaseError::Query("q".to_string())), Error::NotAvailable);
    assert_eq!(database::failure(&DatabaseError::Migration("m".to_string())), Error::NotAvailable);
    assert_eq!(database::failure(&DatabaseError::Database("d".to_string())), Error::NotAvailable);
}

#[test]
fn a_user_id_is_read_from_the_bytes_of_a_reply() {
    let id = UserId(0x0123_4567_89ab_4def_8123_4567_89ab_cdef);
    assert_eq!(CacheRepo::user_of_bytes(Some(id.to_string().into_bytes())).unwrap(), id);
    assert!(matches!(CacheRepo::user_of_bytes(None), Err(TokenError::TokenNotFound)));
    assert!(matches!(
        CacheRepo::user_of_bytes(Some(b"nobody".to_vec())),
        Err(TokenError::TokenInvalid)
    ));
    assert!(matches!(
        CacheRepo::user_of_bytes(Some(vec![0xff, 0xfe, 0x00])),
        Err(TokenError::TokenInvalid)
    ));
}

#[test]
fn a_report_of_a_broken_unique_constraint_is_told_by_its_words() {
    assert!(DatabaseError::is_unique_violation(b"UNIQUE constraint failed: user.username"));
    assert!(DatabaseError::is_unique_violation(b"Duplicate entry 'bob' for key 'username'"));
    assert!(DatabaseError::is_unique_violation(b"duplicate key value violates unique constraint"));
    assert!(DatabaseError::is_unique_violation(b"unique"));
    assert!(DatabaseError::is_unique_violation(b"xxDUPLICATE"));
    assert!(!DatabaseError::is_unique_violation(b""));
    assert!(!DatabaseError::is_unique_violation(b"uniqu"));
    assert!(!DatabaseError::is_unique_violation(b"connection refused"));
    assert!(!DatabaseError::is_unique_violation(b"duplicat e"));
}

#[test]
fn a_failure_of_the_engine_is_sorted_by_its_report_and_then_by_its_kind() {
    assert!(matches!(
        DatabaseError::reported(Failure::Query, "Unique constraint failed".to_string()),
        DatabaseError::UniqueViolation(text) if text == "Unique constraint failed"
    ));
    assert!(matches!(
        DatabaseError::reported(Failure::Connection, "duplicate".to_string()),
        DatabaseError::UniqueViolation(_)
    ));
    assert!(matches!(
        DatabaseError::reported(Failure::Connection, "refused".to_string()),
        DatabaseError::Connection(text) if text == "refused"
    ));
    assert!(matches!(
        DatabaseError::reported(Failure::Query, "syntax".to_string()),
        DatabaseError::Query(text) if text == "syntax"
    ));
    assert!(matches!(
        DatabaseError::reported(Failure::Migration, "no table".to_string()),
        DatabaseError::Migration(text) if text == "no table"
    ));
    assert!(matches!(
        DatabaseError::reported(Failure::Other, "odd".to_string()),
        DatabaseError::Database(text) if text == "odd"
    ));
}

#[test]
fn what_is_written_for_a_user_holds_the_hash_that_was_made() {
    let user = CreateUser { username: "bob", password: "pw" };
    let write = database::create_hashed(&user, Ok("made".to_string())).unwrap();
    assert_eq!(write.username.as_deref(), Some("bob"));
    assert_eq!(write.password_hash.as_deref(), Some("made"));
    assert_eq!(write.is_enabled, Some(true));
    assert!(matches!(
        database::create_hashed(
            &user,
            Err(lib_authentication::crypto::Error::Unspecified("dry".to_string()))
        ),
        Err(Error::NotAvailable)
    ));

    let write = database::update_password_hashed(Ok("made".to_string())).unwrap();
    assert_eq!(write.username, None);
    assert_eq!(write.password_hash.as_deref(), Some("made"));
    assert_eq!(write.is_enabled, None);
    assert!(matches!(
        database::update_password_hashed(Err(lib_authentication::crypto::Error::Unspecified(
            "dry".to_string()
        ))),
        Err(Error::NotAvailable)
    ));
}
