//! Session and credential core of an authentication service: it registers
//! users, checks passwords, issues pairs of access and refresh tokens that
//! can be revoked, rotates them, and resolves the user behind a token.

use vstd::prelude::*;

pub mod assoc;
pub mod base64;
pub mod clock;
pub mod controllers;
pub mod crypto;
pub mod data;
pub mod database;
pub mod environment;
pub mod error;
pub mod provider;
pub mod schema;
pub mod serving;
pub mod text;
pub mod token_repo;
pub mod user_repo;

pub use controllers::login::TokenPair;
pub use error::{Error, Result};
pub use user_repo::{User, UserId};

verus! {

/// The credentials of a login.
pub type LoginCredentials<'a> = controllers::login::Credentials<'a>;

/// The credentials of a registration.
pub type RegisterCredentials<'a> = controllers::register::Credentials<'a>;

/// An access token.
pub type AuthToken = data::Auth;

/// A refresh token.
pub type RefreshToken = data::Refresh;

/// Why a token store did not answer.
pub type TokenRepoError = token_repo::Error;

/// Why a credential store did not answer.
pub type UserRepoError = user_repo::Error;

/// The token store of the library's own backends.
pub type TokenRepo<Token> = token_repo::TokenRepo<Token>;

/// The in-memory token store.
pub type MemoryTokenRepo<Token> = token_repo::Memory<Token>;

/// The credential store of the library's own backends.
pub type UserRepo = user_repo::Repo;

/// The in-memory credential store.
pub type MemoryUserRepo = user_repo::Memory;

/// A session provider over the library's own backends.
pub type Provider = provider::Core<UserRepo, TokenRepo<AuthToken>, TokenRepo<RefreshToken>>;

} // verus!
