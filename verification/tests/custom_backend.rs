use lib_authentication::clock::Timestamp;
use lib_authentication::data::Interface as TokenInterface;
use lib_authentication::provider::Core;
use lib_authentication::token_repo::interface::Store;
use lib_authentication::token_repo::{Error, Interface, Result};
use lib_authentication::user_repo::{CreateUser, Interface as UserRepoInterface, UserId};
use lib_authentication::{AuthToken, LoginCredentials, RefreshToken, TokenRepo, UserRepo};

/// A backend without a reverse index that can be switched off.
struct Flat<Token> {
    inner: TokenRepo<Token>,
    down: bool,
}

impl<Token: TokenInterface> Flat<Token> {
    fn new() -> Self {
        Flat { inner: TokenRepo::memory(), down: false }
    }

    fn check(&self) -> Result<()> {
        if self.down {
            Err(Error::TokenRepoError("down".to_string()))
        } else {
            Ok(())
        }
    }
}

impl<Token: TokenInterface> Interface<Token> for Flat<Token> {
    fn model(&self) -> Store {
        unreachable!()
    }

    fn inv(&self) -> bool {
        unreachable!()
    }

    fn reliable(&self) -> bool {
        unreachable!()
    }

    fn indexed(&self) -> bool {
        unreachable!()
    }

    fn lemma_inv(&self) {
        unreachable!()
    }

    fn has_reverse_index(&self) -> bool {
        false
    }

    fn put_at(
        &mut self,
        token: &Token,
        user_id: &UserId,
        tags: &[(&str, &[u8])],
        ttl: Option<u64>,
        now: Timestamp,
    ) -> Result<()> {
        self.check()?;
        self.inner.put_at(token, user_id, tags, ttl, now)
    }

    fn get_at(&mut self, token: &Token, now: Timestamp) -> Result<UserId> {
        self.check()?;
        self.inner.get_at(token, now)
    }

    fn delete(&mut self, token: &Token) -> Result<()> {
        self.check()?;
        self.inner.delete(token)
    }

    fn put_tag(&mut self, token: &Token, tag: &str, value: &[u8]) -> Result<()> {
        self.check()?;
        self.inner.put_tag(token, tag, value)
    }

    fn get_tag(&self, token: &Token, tag: &str) -> Result<Vec<u8>> {
        self.check()?;
        self.inner.get_tag(token, tag)
    }

    fn get_by_tag(&self, _tag: &str, _value: &[u8]) -> Result<Vec<Token>> {
        Err(Error::NotAvailable)
    }

    fn delete_by_tag(&mut self, _tag: &str, _value: &[u8]) -> Result<()> {
        Err(Error::NotAvailable)
    }
}

fn provider() -> Core<UserRepo, Flat<AuthToken>, Flat<RefreshToken>> {
    let mut users = UserRepo::memory();
    users.create(&CreateUser { username: "alice", password: "correct-horse" }).unwrap();
    Core::new(Flat::new(), Flat::new(), users)
}

#[test]
fn refresh_rotates_without_a_reverse_index() {
    let mut provider = provider();
    let creds = LoginCredentials { username: "alice", password: "correct-horse" };
    let old = provider.login(&creds, Some(3600), Some(604800)).unwrap().unwrap();
    let new = provider.refresh(&old.refresh_token, Some(3600), Some(604800)).unwrap().unwrap();
    assert!(provider.whoami(&old.auth_token).unwrap().is_none());
    assert_eq!(provider.whoami(&new.auth_token).unwrap().unwrap().username, "alice");
    assert!(provider.refresh(&old.refresh_token, None, None).unwrap().is_none());
    provider.logout(&new.auth_token).unwrap();
    assert!(provider.refresh(&new.refresh_token, None, None).unwrap().is_none());
}

#[test]
fn a_failure_of_a_store_is_an_error_and_no_miss() {
    let mut auth: Flat<AuthToken> = Flat::new();
    let token = AuthToken::from_bytes(vec![1, 2, 3]);
    auth.put(&token, &UserId(1), &[], None).unwrap();
    auth.down = true;
    let mut users = UserRepo::memory();
    users.create(&CreateUser { username: "alice", password: "correct-horse" }).unwrap();
    let mut provider = Core::new(auth, Flat::<RefreshToken>::new(), users);
    assert!(provider.whoami(&token).is_err());
    assert!(provider.logout(&token).is_err());
    let creds = LoginCredentials { username: "alice", password: "correct-horse" };
    assert!(provider.login(&creds, None, None).is_err());
    assert!(matches!(provider.login(&LoginCredentials { username: "alice", password: "no" }, None, None), Ok(None)));
}
