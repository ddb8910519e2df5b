//! The shapes of requests and responses as they cross the wire.

use vstd::prelude::*;

verus! {

/// A request to log in.
#[derive(Debug, Clone)]
pub struct LoginRequest {
    /// The username.
    pub username: String,
    /// The password.
    pub password: String,
}

/// The answer to a login that succeeded.
#[derive(Debug, Clone)]
pub struct LoginResponseSuccess {
    /// The access token, in Base64.
    pub auth_token: String,
    /// When the access token expires, in seconds since the epoch.
    pub auth_token_expires: u32,
    /// The refresh token, in Base64.
    pub refresh_token: String,
    /// When the refresh token expires, in seconds since the epoch.
    pub refresh_token_expires: u32,
}

/// A request to exchange a refresh token.
#[derive(Debug, Clone)]
pub struct RefreshRequest {
    /// The refresh token, in Base64.
    pub refresh_token: String,
}

/// The answer to a refresh that succeeded.
#[derive(Debug, Clone)]
pub struct RefreshResponseSuccess {
    /// The new access token, in Base64.
    pub auth_token: String,
    /// When the new access token expires, in seconds since the epoch.
    pub auth_token_expires: u32,
    /// The new refresh token, in Base64.
    pub refresh_token: String,
    /// When the new refresh token expires, in seconds since the epoch.
    pub refresh_token_expires: u32,
}

/// A request to register.
#[derive(Debug, Clone)]
pub struct RegisterRequest {
    /// The username.
    pub username: String,
    /// The password.
    pub password: String,
}

/// The answer to the question who a token stands for.
#[derive(Debug, Clone)]
pub struct WhoamiResponse {
    /// The id of the user, as hyphenated text.
    pub id: String,
    /// The username.
    pub username: String,
}

} // verus!
