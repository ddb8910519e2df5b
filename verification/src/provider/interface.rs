//! What a session provider offers.

use crate::clock::Timestamp;
use crate::controllers::login::{Credentials as LoginCredentials, TokenPair};
use crate::controllers::register::Credentials as RegisterCredentials;
use crate::data::auth::Auth;
use crate::data::refresh::Refresh;
use crate::environment::Config;
use crate::error::Result;
use crate::provider::session::{
    login_outcome, logout_outcome, refresh_outcome, register_outcome, whoami_outcome, Core, State,
};
use crate::token_repo::interface::Interface as TokenRepoInterface;
use crate::user_repo::id::UserId;
use crate::user_repo::interface::{Interface as UserRepoInterface, User};
use vstd::prelude::*;

verus! {

/// The five operations of a session provider. Each is held to what the
/// provider's stores hold before and after it, as of one reading of the
/// system clock.
pub trait Interface: Sized {
    /// What the provider's stores hold.
    spec fn state(&self) -> State;

    /// The provider is in order.
    spec fn inv(&self) -> bool;

    /// None of the provider's stores can fail.
    spec fn reliable(&self) -> bool;

    /// The access token store can look tokens up by tag.
    spec fn indexed(&self) -> bool;

    /// The configuration that the provider was made with.
    spec fn config(&self) -> Config;

    /// Whether `after` is a later state of the provider `self`.
    open spec fn unchanged(&self, after: &Self) -> bool {
        &&& after.reliable() == self.reliable()
        &&& after.indexed() == self.indexed()
        &&& after.config() == self.config()
    }

    /// Creates a new user with the given credentials.
    fn register(&mut self, credentials: &RegisterCredentials) -> (r: Result<UserId>)
        requires
            old(self).inv(),
        ensures
            final(self).inv(),
            old(self).unchanged(final(self)),
            register_outcome(
                old(self).state(),
                final(self).state(),
                old(self).reliable(),
                credentials.username@,
                credentials.password@,
                r,
            ),
    ;

    /// Logs a user in: `None` where the credentials name no user, a new
    /// pair of tokens where they do.
    fn login(
        &mut self,
        login: &LoginCredentials,
        auth_token_ttl: Option<u64>,
        refresh_token_ttl: Option<u64>,
    ) -> (r: Result<Option<TokenPair>>)
        requires
            old(self).inv(),
        ensures
            final(self).inv(),
            old(self).unchanged(final(self)),
            exists|now: Timestamp| #[trigger]
                login_outcome(
                    old(self).state(),
                    final(self).state(),
                    old(self).reliable(),
                    old(self).config(),
                    login.username@,
                    login.password@,
                    auth_token_ttl,
                    refresh_token_ttl,
                    now,
                    r,
                ),
    ;

    /// Exchanges a refresh token: `None` where it is unknown or expired, a
    /// new pair of tokens where it is good.
    fn refresh(
        &mut self,
        refresh_token: &Refresh,
        auth_token_ttl: Option<u64>,
        refresh_token_ttl: Option<u64>,
    ) -> (r: Result<Option<TokenPair>>)
        requires
            old(self).inv(),
        ensures
            final(self).inv(),
            old(self).unchanged(final(self)),
            exists|now: Timestamp| #[trigger]
                refresh_outcome(
                    old(self).state(),
                    final(self).state(),
                    old(self).reliable(),
                    old(self).indexed(),
                    old(self).config(),
                    refresh_token@,
                    auth_token_ttl,
                    refresh_token_ttl,
                    now,
                    r,
                ),
    ;

    /// Returns the user that the access token stands for.
    fn whoami(&mut self, auth_token: &Auth) -> (r: Result<Option<User>>)
        requires
            old(self).inv(),
        ensures
            final(self).inv(),
            old(self).unchanged(final(self)),
            exists|now: Timestamp| #[trigger]
                whoami_outcome(
                    old(self).state(),
                    final(self).state(),
                    old(self).reliable(),
                    auth_token@,
                    now,
                    r,
                ),
    ;

    /// Logs out the bearer of the access token.
    fn logout(&mut self, auth_token: &Auth) -> (r: Result<()>)
        requires
            old(self).inv(),
        ensures
            final(self).inv(),
            old(self).unchanged(final(self)),
            logout_outcome(
                old(self).state(),
                final(self).state(),
                old(self).reliable(),
                auth_token@,
                r,
            ),
    ;
}

impl<U, A, R> Interface for Core<U, A, R> where
    U: UserRepoInterface,
    A: TokenRepoInterface<Auth>,
    R: TokenRepoInterface<Refresh>,
 {
    open spec fn state(&self) -> State {
        Core::state(self)
    }

    open spec fn inv(&self) -> bool {
        Core::inv(self)
    }

    open spec fn reliable(&self) -> bool {
        Core::reliable(self)
    }

    open spec fn indexed(&self) -> bool {
        Core::indexed(self)
    }

    open spec fn config(&self) -> Config {
        Core::config(self)
    }

    fn register(&mut self, credentials: &RegisterCredentials) -> (r: Result<UserId>) {
        Core::register(self, credentials)
    }

    fn login(
        &mut self,
        login: &LoginCredentials,
        auth_token_ttl: Option<u64>,
        refresh_token_ttl: Option<u64>,
    ) -> (r: Result<Option<TokenPair>>) {
        let r = Core::login(self, login, auth_token_ttl, refresh_token_ttl);
        proof {
            let now = choose|now: Timestamp| #[trigger]
                login_outcome(
                    Core::state(old(self)),
                    Core::state(self),
                    Core::reliable(old(self)),
                    Core::config(old(self)),
                    login.username@,
                    login.password@,
                    auth_token_ttl,
                    refresh_token_ttl,
                    now,
                    r,
                );
            assert(login_outcome(
                Interface::state(old(self)),
                Interface::state(self),
                Interface::reliable(old(self)),
                Interface::config(old(self)),
                login.username@,
                login.password@,
                auth_token_ttl,
                refresh_token_ttl,
                now,
                r,
            ));
        }
        r
    }

    fn refresh(
        &mut self,
        refresh_token: &Refresh,
        auth_token_ttl: Option<u64>,
        refresh_token_ttl: Option<u64>,
    ) -> (r: Result<Option<TokenPair>>) {
        let r = Core::refresh(self, refresh_token, auth_token_ttl, refresh_token_ttl);
        proof {
            let now = choose|now: Timestamp| #[trigger]
                refresh_outcome(
                    Core::state(old(self)),
                    Core::state(self),
                    Core::reliable(old(self)),
                    Core::indexed(old(self)),
                    Core::config(old(self)),
                    refresh_token@,
                    auth_token_ttl,
                    refresh_token_ttl,
                    now,
                    r,
                );
            assert(refresh_outcome(
                Interface::state(old(self)),
                Interface::state(self),
                Interface::reliable(old(self)),
                Interface::indexed(old(self)),
                Interface::config(old(self)),
                refresh_token@,
                auth_token_ttl,
                refresh_token_ttl,
                now,
                r,
            ));
        }
        r
    }

    fn whoami(&mut self, auth_token: &Auth) -> (r: Result<Option<User>>) {
        let r = Core::whoami(self, auth_token);
        proof {
            let now = choose|now: Timestamp| #[trigger]
                whoami_outcome(
                    Core::state(old(self)),
                    Core::state(self),
                    Core::reliable(old(self)),
                    auth_token@,
                    now,
                    r,
                );
            assert(whoami_outcome(
                Interface::state(old(self)),
                Interface::state(self),
                Interface::reliable(old(self)),
                auth_token@,
                now,
                r,
            ));
        }
        r
    }

    fn logout(&mut self, auth_token: &Auth) -> (r: Result<()>) {
        Core::logout(self, auth_token)
    }
}

} // verus!
