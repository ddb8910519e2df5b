//! The session provider: one credential store and a token store for each
//! kind of token, behind register, login, refresh, logout and whoami.

use crate::clock::Timestamp;
use crate::controllers::login::{
    issue_auth, issue_refresh, login as login_controller, Credentials as LoginCredentials, Request
    as LoginRequest, TokenPair,
};
use crate::controllers::logout::{logout_audit as logout_audit_controller, revoke_paired_refresh};
use crate::controllers::refresh::{
    refresh as refresh_controller, revoke_paired_auth, Request as RefreshRequest,
};
use crate::controllers::register::{
    register as register_controller, Credentials as RegisterCredentials,
};
use crate::controllers::whoami::{resolve, whoami as whoami_controller};
use crate::data::auth::Auth;
use crate::data::refresh::Refresh;
use crate::environment::Config;
use crate::error::{Error, Result};
use crate::token_repo::interface::{Interface as TokenRepoInterface, Lookup, Store};
use crate::user_repo::id::UserId;
use crate::user_repo::interface::{user_view, Interface as UserRepoInterface, User, UserView, Users};
use vstd::prelude::*;

verus! {

/// The model of a session provider: what its three stores hold.
pub struct State {
    /// The users.
    pub users: Users,
    /// The access tokens.
    pub auth: Store,
    /// The refresh tokens.
    pub refresh: Store,
}

impl State {
    /// The three stores are in order.
    pub open spec fn wf(self) -> bool {
        self.users.wf() && self.auth.wf() && self.refresh.wf()
    }

    /// The user that `username` and `password` log in, if any.
    pub open spec fn login_user(self, username: Seq<char>, password: Seq<char>) -> Option<UserView> {
        self.users.check_password(username, password)
    }

    /// The state after the pair of tokens `auth` and `refresh` was issued
    /// to `owner` at `now`.
    pub open spec fn issued(
        self,
        owner: UserId,
        auth: Seq<u8>,
        refresh: Seq<u8>,
        auth_ttl: Option<u64>,
        refresh_ttl: Option<u64>,
        now: Timestamp,
    ) -> State {
        State {
            users: self.users,
            auth: issue_auth(self.auth, owner, auth, refresh, auth_ttl, now),
            refresh: issue_refresh(self.refresh, owner, auth, refresh, refresh_ttl, now),
        }
    }

    /// The user that the access token `token` stands for at `now`.
    pub open spec fn whoami(self, token: Seq<u8>, now: Timestamp) -> Option<UserView> {
        resolve(self.auth, self.users, token, now)
    }

    /// The state after the access token `token` was read at `now`.
    pub open spec fn after_whoami(self, token: Seq<u8>, now: Timestamp) -> State {
        State { users: self.users, auth: self.auth.after_lookup(token, now), refresh: self.refresh }
    }

    /// The state after the access token `token` was logged out: the token
    /// is removed, and with it the refresh token that it names.
    pub open spec fn logged_out(self, token: Seq<u8>) -> State {
        State {
            users: self.users,
            auth: self.auth.delete(token),
            refresh: revoke_paired_refresh(self.auth, self.refresh, token),
        }
    }

    /// The user that the refresh token `token` can be exchanged for at
    /// `now`, if it can be exchanged.
    pub open spec fn refresh_owner(self, token: Seq<u8>, now: Timestamp) -> Option<UserId> {
        match self.refresh.lookup(token, now) {
            Lookup::Found(owner) => Some(owner),
            Lookup::Missing => None,
            Lookup::Expired => None,
        }
    }

    /// The state after the refresh token `token` was found good for no
    /// exchange at `now`.
    pub open spec fn refresh_refused(self, token: Seq<u8>, now: Timestamp) -> State {
        State { users: self.users, auth: self.auth, refresh: self.refresh.after_lookup(token, now) }
    }

    /// The state after the refresh token `token` and the access tokens
    /// issued with it were revoked.
    pub open spec fn revoked(self, token: Seq<u8>, indexed: bool) -> State {
        State {
            users: self.users,
            auth: revoke_paired_auth(self.auth, self.refresh, token, indexed),
            refresh: self.refresh.delete(token),
        }
    }
}

/// What a registration of `username` with `password` may come to, for a
/// provider that it takes from `before` to `after`.
pub open spec fn register_outcome(
    before: State,
    after: State,
    reliable: bool,
    username: Seq<char>,
    password: Seq<char>,
    r: Result<UserId>,
) -> bool {
    &&& after.auth == before.auth
    &&& after.refresh == before.refresh
    &&& match r {
        Ok(id) => before.users.created(after.users, id, username, password),
        Err(Error::UserRepoError(crate::user_repo::Error::DuplicateUsername)) => {
            &&& before.users.has_username(username)
            &&& after == before
        },
        Err(Error::UserRepoError(_)) => reliable ==> {
            &&& !before.users.has_username(username)
            &&& after == before
        },
        Err(_) => false,
    }
}

/// What a login with `username` and `password` at `now` may come to, for a
/// provider that it takes from `before` to `after`.
pub open spec fn login_outcome(
    before: State,
    after: State,
    reliable: bool,
    config: Config,
    username: Seq<char>,
    password: Seq<char>,
    auth_ttl: Option<u64>,
    refresh_ttl: Option<u64>,
    now: Timestamp,
    r: Result<Option<TokenPair>>,
) -> bool {
    match r {
        Ok(Some(pair)) => {
            &&& before.login_user(username, password) matches Some(user)
            &&& pair.auth_token@.len() == config.auth_token_size
            &&& pair.refresh_token@.len() == config.refresh_token_size
            &&& after == before.issued(
                user.id,
                pair.auth_token@,
                pair.refresh_token@,
                auth_ttl,
                refresh_ttl,
                now,
            )
        },
        Ok(None) => {
            ||| before.login_user(username, password) is None && after == before
            ||| before.login_user(username, password) is Some && !reliable
        },
        Err(Error::CryptoError(_)) => {
            &&& before.login_user(username, password) is Some
            &&& after == before
        },
        Err(Error::UserRepoError(_)) => !reliable && after == before,
        Err(Error::TokenRepoError(e)) => {
            &&& !e.is_miss()
            &&& !reliable
            &&& before.login_user(username, password) is Some
        },
    }
}

/// What an exchange of the refresh token `token` at `now` may come to, for
/// a provider that it takes from `before` to `after`.
pub open spec fn refresh_outcome(
    before: State,
    after: State,
    reliable: bool,
    indexed: bool,
    config: Config,
    token: Seq<u8>,
    auth_ttl: Option<u64>,
    refresh_ttl: Option<u64>,
    now: Timestamp,
    r: Result<Option<TokenPair>>,
) -> bool {
    &&& after.users == before.users
    &&& match r {
        Ok(Some(pair)) => {
            &&& before.refresh_owner(token, now) matches Some(owner)
            &&& pair.auth_token@.len() == config.auth_token_size
            &&& pair.refresh_token@.len() == config.refresh_token_size
            &&& reliable ==> after == before.revoked(token, indexed).issued(
                owner,
                pair.auth_token@,
                pair.refresh_token@,
                auth_ttl,
                refresh_ttl,
                now,
            )
        },
        Ok(None) => reliable ==> {
            &&& before.refresh_owner(token, now) is None
            &&& after == before.refresh_refused(token, now)
        },
        Err(Error::CryptoError(_)) => {
            &&& before.refresh_owner(token, now) is Some
            &&& reliable ==> after == before.revoked(token, indexed)
        },
        Err(e) => !reliable && !e.is_token_miss(),
    }
}

/// What the question who the access token `token` stands for at `now` may
/// come to, for a provider that it takes from `before` to `after`.
pub open spec fn whoami_outcome(
    before: State,
    after: State,
    reliable: bool,
    token: Seq<u8>,
    now: Timestamp,
    r: Result<Option<User>>,
) -> bool {
    &&& after.users == before.users
    &&& after.refresh == before.refresh
    &&& match r {
        Ok(user) => user is Some || reliable ==> {
            &&& user_view(user) == before.whoami(token, now)
            &&& after == before.after_whoami(token, now)
        },
        Err(e) => !reliable && !e.is_token_miss(),
    }
}

/// The outcome of a logout, without the user that it resolved.
pub open spec fn without_user(r: Result<Option<User>>) -> Result<()> {
    match r {
        Ok(_) => Ok(()),
        Err(e) => Err(e),
    }
}

/// The outcome of a logout, without the user that it resolved: an error
/// is handed on as it came.
pub fn logged_out(audit: Result<Option<User>>) -> (r: Result<()>)
    ensures
        r == without_user(audit),
{
    match audit {
        Ok(_) => Ok(()),
        Err(e) => Err(e),
    }
}

/// What a logout at `now` may say of the user that the access token
/// `token` stood for: where it answers, the user that the token resolved
/// to in `before`.
pub open spec fn audited(
    before: State,
    reliable: bool,
    token: Seq<u8>,
    now: Timestamp,
    r: Result<Option<User>>,
) -> bool {
    r matches Ok(user) ==> (user is Some || reliable ==> user_view(user) == before.whoami(token, now))
}

/// What a logout of the access token `token` may come to, for a provider
/// that it takes from `before` to `after`.
pub open spec fn logout_outcome(
    before: State,
    after: State,
    reliable: bool,
    token: Seq<u8>,
    r: Result<()>,
) -> bool {
    &&& after.users == before.users
    &&& match r {
        Ok(()) => reliable ==> after == before.logged_out(token),
        Err(e) => !reliable && !e.is_token_miss(),
    }
}

/// The core session provider.
pub struct Core<U, A, R> {
    auth_token_repo: A,
    refresh_token_repo: R,
    user_repo: U,
    config: Config,
}

impl<U, A, R> Core<U, A, R> where
    U: UserRepoInterface,
    A: TokenRepoInterface<Auth>,
    R: TokenRepoInterface<Refresh>,
 {
    /// What the three stores hold.
    pub closed spec fn state(&self) -> State {
        State {
            users: self.user_repo.model(),
            auth: self.auth_token_repo.model(),
            refresh: self.refresh_token_repo.model(),
        }
    }

    /// The three stores are in order.
    pub closed spec fn inv(&self) -> bool {
        self.user_repo.inv() && self.auth_token_repo.inv() && self.refresh_token_repo.inv()
    }

    /// None of the three stores can fail.
    pub closed spec fn reliable(&self) -> bool {
        self.user_repo.reliable() && self.auth_token_repo.reliable()
            && self.refresh_token_repo.reliable()
    }

    /// The access token store can look tokens up by tag.
    pub closed spec fn indexed(&self) -> bool {
        self.auth_token_repo.indexed()
    }

    /// The configuration that the provider was made with.
    pub closed spec fn config(&self) -> Config {
        self.config
    }

    /// Whether `after` is a later state of the provider `self`.
    pub open spec fn same_provider(&self, after: &Self) -> bool {
        &&& after.reliable() == self.reliable()
        &&& after.indexed() == self.indexed()
        &&& after.config() == self.config()
    }

    /// A provider over the given stores, with token sizes and times to live
    /// at their defaults.
    pub fn new(auth_token_repo: A, refresh_token_repo: R, user_repo: U) -> (provider: Self)
        requires
            auth_token_repo.inv(),
            refresh_token_repo.inv(),
            user_repo.inv(),
        ensures
            provider.inv(),
            provider.state() == (State {
                users: user_repo.model(),
                auth: auth_token_repo.model(),
                refresh: refresh_token_repo.model(),
            }),
            provider.reliable() == (user_repo.reliable() && auth_token_repo.reliable()
                && refresh_token_repo.reliable()),
            provider.indexed() == auth_token_repo.indexed(),
            provider.config() == crate::environment::config_of(None, None, None, None),
    {
        Core { auth_token_repo, refresh_token_repo, user_repo, config: Config::default() }
    }

    /// A provider over the given stores with the given configuration.
    pub fn with_config(
        auth_token_repo: A,
        refresh_token_repo: R,
        user_repo: U,
        config: Config,
    ) -> (provider: Self)
        requires
            auth_token_repo.inv(),
            refresh_token_repo.inv(),
            user_repo.inv(),
        ensures
            provider.inv(),
            provider.state() == (State {
                users: user_repo.model(),
                auth: auth_token_repo.model(),
                refresh: refresh_token_repo.model(),
            }),
            provider.reliable() == (user_repo.reliable() && auth_token_repo.reliable()
                && refresh_token_repo.reliable()),
            provider.indexed() == auth_token_repo.indexed(),
            provider.config() == config,
    {
        Core { auth_token_repo, refresh_token_repo, user_repo, config }
    }

    /// The state of a provider in order is in order.
    pub proof fn lemma_inv(&self)
        requires
            self.inv(),
        ensures
            self.state().wf(),
    {
        self.user_repo.lemma_inv();
        self.auth_token_repo.lemma_inv();
        self.refresh_token_repo.lemma_inv();
    }

    /// The configured size of access tokens.
    pub fn auth_token_size(&self) -> (size: usize)
        ensures
            size == self.config().auth_token_size,
    {
        self.config.auth_token_size
    }

    /// The configured size of refresh tokens.
    pub fn refresh_token_size(&self) -> (size: usize)
        ensures
            size == self.config().refresh_token_size,
    {
        self.config.refresh_token_size
    }

    /// The configured time to live of access tokens, in seconds.
    pub fn auth_token_ttl(&self) -> (ttl: u64)
        ensures
            ttl == self.config().auth_token_ttl,
    {
        self.config.auth_token_ttl
    }

    /// The configured time to live of refresh tokens, in seconds.
    pub fn refresh_token_ttl(&self) -> (ttl: u64)
        ensures
            ttl == self.config().refresh_token_ttl,
    {
        self.config.refresh_token_ttl
    }

    /// Creates a user with the given credentials and returns its id.
    ///
    /// Fails with `DuplicateUsername`, changing nothing, when the name is
    /// taken, and otherwise only when the store or the hash engine fails.
    pub fn register(&mut self, credentials: &RegisterCredentials) -> (r: Result<UserId>)
        requires
            old(self).inv(),
        ensures
            final(self).inv(),
            old(self).same_provider(final(self)),
            register_outcome(
                old(self).state(),
                final(self).state(),
                old(self).reliable(),
                credentials.username@,
                credentials.password@,
                r,
            ),
    {
        register_controller(&mut self.user_repo, credentials)
    }

    /// Logs a user in as of the instant `now`: checks the credentials and,
    /// where they name a user, issues a new pair of tokens to it, of the
    /// configured sizes and with the given times to live in seconds.
    ///
    /// Returns `None`, changing nothing, when the credentials name no user.
    /// Fails, before anything is stored, when the random generator does.
    pub fn login_at(
        &mut self,
        login_credentials: &LoginCredentials,
        auth_token_ttl: Option<u64>,
        refresh_token_ttl: Option<u64>,
        now: Timestamp,
    ) -> (r: Result<Option<TokenPair>>)
        requires
            old(self).inv(),
        ensures
            final(self).inv(),
            old(self).same_provider(final(self)),
            login_outcome(
                old(self).state(),
                final(self).state(),
                old(self).reliable(),
                old(self).config(),
                login_credentials.username@,
                login_credentials.password@,
                auth_token_ttl,
                refresh_token_ttl,
                now,
                r,
            ),
    {
        let request = LoginRequest {
            login_credentials,
            auth_token_ttl,
            refresh_token_ttl,
            auth_token_size: self.config.auth_token_size,
            refresh_token_size: self.config.refresh_token_size,
            now,
        };
        login_controller(
            &self.user_repo,
            &mut self.auth_token_repo,
            &mut self.refresh_token_repo,
            &request,
        )
    }

    /// Exchanges a refresh token for a new pair of tokens for the same
    /// user, as of the instant `now`. The refresh token and the access
    /// tokens issued with it are revoked.
    ///
    /// Returns `None` when the refresh token is unknown or expired. When
    /// the random generator fails the old tokens are gone and no new ones
    /// issued.
    pub fn refresh_at(
        &mut self,
        refresh_token: &Refresh,
        auth_token_ttl: Option<u64>,
        refresh_token_ttl: Option<u64>,
        now: Timestamp,
    ) -> (r: Result<Option<TokenPair>>)
        requires
            old(self).inv(),
        ensures
            final(self).inv(),
            old(self).same_provider(final(self)),
            refresh_outcome(
                old(self).state(),
                final(self).state(),
                old(self).reliable(),
                old(self).indexed(),
                old(self).config(),
                refresh_token@,
                auth_token_ttl,
                refresh_token_ttl,
                now,
                r,
            ),
    {
        let request = RefreshRequest {
            refresh_token,
            auth_token_ttl,
            refresh_token_ttl,
            auth_token_size: self.config.auth_token_size,
            refresh_token_size: self.config.refresh_token_size,
            now,
        };
        refresh_controller(&mut self.auth_token_repo, &mut self.refresh_token_repo, &request)
    }

    /// Reads the user that the access token stands for, as of the instant
    /// `now`. An expired token is removed on the way.
    ///
    /// Returns `None` when the token is unknown or expired, and when its
    /// user is gone.
    pub fn whoami_at(&mut self, auth_token: &Auth, now: Timestamp) -> (r: Result<Option<User>>)
        requires
            old(self).inv(),
        ensures
            final(self).inv(),
            old(self).same_provider(final(self)),
            whoami_outcome(
                old(self).state(),
                final(self).state(),
                old(self).reliable(),
                auth_token@,
                now,
                r,
            ),
    {
        whoami_controller(&mut self.auth_token_repo, &self.user_repo, auth_token, now)
    }

    /// Logs the access token out and returns the user that it stood for at
    /// the instant `now`, for the caller's record. The refresh token that
    /// the access token is tagged with is read first, and a failure of the
    /// storage to say so is handed on before anything is removed; whether
    /// the access token can then be resolved makes no difference to what is
    /// removed.
    ///
    /// A token that is unknown or expired is no error: logging out twice
    /// succeeds twice.
    pub fn logout_audit_at(&mut self, auth_token: &Auth, now: Timestamp) -> (r: Result<Option<User>>)
        requires
            old(self).inv(),
        ensures
            final(self).inv(),
            old(self).same_provider(final(self)),
            logout_outcome(
                old(self).state(),
                final(self).state(),
                old(self).reliable(),
                auth_token@,
                without_user(r),
            ),
            audited(old(self).state(), old(self).reliable(), auth_token@, now, r),
    {
        logout_audit_controller(
            &mut self.auth_token_repo,
            &mut self.refresh_token_repo,
            &self.user_repo,
            auth_token,
            now,
        )
    }

    /// Logs the access token out, as of the instant `now`: the token and
    /// the refresh token issued with it are removed.
    ///
    /// A token that is unknown or expired is no error: logging out twice
    /// succeeds twice.
    pub fn logout_at(&mut self, auth_token: &Auth, now: Timestamp) -> (r: Result<()>)
        requires
            old(self).inv(),
        ensures
            final(self).inv(),
            old(self).same_provider(final(self)),
            logout_outcome(
                old(self).state(),
                final(self).state(),
                old(self).reliable(),
                auth_token@,
                r,
            ),
    {
        let audit = self.logout_audit_at(auth_token, now);
        logged_out(audit)
    }

    /// Logs a user in as of the reading of the system clock.
    pub fn login(
        &mut self,
        login_credentials: &LoginCredentials,
        auth_token_ttl: Option<u64>,
        refresh_token_ttl: Option<u64>,
    ) -> (r: Result<Option<TokenPair>>)
        requires
            old(self).inv(),
        ensures
            final(self).inv(),
            old(self).same_provider(final(self)),
            exists|now: Timestamp| #[trigger]
                login_outcome(
                    old(self).state(),
                    final(self).state(),
                    old(self).reliable(),
                    old(self).config(),
                    login_credentials.username@,
                    login_credentials.password@,
                    auth_token_ttl,
                    refresh_token_ttl,
                    now,
                    r,
                ),
    {
        let now = Timestamp::now();
        self.login_at(login_credentials, auth_token_ttl, refresh_token_ttl, now)
    }

    /// Exchanges a refresh token for a new pair of tokens as of the reading
    /// of the system clock.
    pub fn refresh(
        &mut self,
        refresh_token: &Refresh,
        auth_token_ttl: Option<u64>,
        refresh_token_ttl: Option<u64>,
    ) -> (r: Result<Option<TokenPair>>)
        requires
            old(self).inv(),
        ensures
            final(self).inv(),
            old(self).same_provider(final(self)),
            exists|now: Timestamp| #[trigger]
                refresh_outcome(
                    old(self).state(),
                    final(self).state(),
                    old(self).reliable(),
                    old(self).indexed(),
                    old(self).config(),
                    refresh_token@,
                    auth_token_ttl,
                    refresh_token_ttl,
                    now,
                    r,
                ),
    {
        let now = Timestamp::now();
        self.refresh_at(refresh_token, auth_token_ttl, refresh_token_ttl, now)
    }

    /// Reads the user that the access token stands for, as of the reading
    /// of the system clock.
    pub fn whoami(&mut self, auth_token: &Auth) -> (r: Result<Option<User>>)
        requires
            old(self).inv(),
        ensures
            final(self).inv(),
            old(self).same_provider(final(self)),
            exists|now: Timestamp| #[trigger]
                whoami_outcome(
                    old(self).state(),
                    final(self).state(),
                    old(self).reliable(),
                    auth_token@,
                    now,
                    r,
                ),
    {
        let now = Timestamp::now();
        self.whoami_at(auth_token, now)
    }

    /// Logs the access token out and returns the user that it stood for,
    /// as of the reading of the system clock.
    pub fn logout_audit(&mut self, auth_token: &Auth) -> (r: Result<Option<User>>)
        requires
            old(self).inv(),
        ensures
            final(self).inv(),
            old(self).same_provider(final(self)),
            logout_outcome(
                old(self).state(),
                final(self).state(),
                old(self).reliable(),
                auth_token@,
                without_user(r),
            ),
            exists|now: Timestamp| #[trigger]
                audited(old(self).state(), old(self).reliable(), auth_token@, now, r),
    {
        let now = Timestamp::now();
        self.logout_audit_at(auth_token, now)
    }

    /// Logs the access token out, as of the reading of the system clock.
    pub fn logout(&mut self, auth_token: &Auth) -> (r: Result<()>)
        requires
            old(self).inv(),
        ensures
            final(self).inv(),
            old(self).same_provider(final(self)),
            logout_outcome(
                old(self).state(),
                final(self).state(),
                old(self).reliable(),
                auth_token@,
                r,
            ),
    {
        let now = Timestamp::now();
        self.logout_at(auth_token, now)
    }
}

} // verus!
