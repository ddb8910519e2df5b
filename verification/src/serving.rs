//! Between the wire and the session provider: requests are turned into
//! calls of the provider, and its answers into responses. Every failure
//! and every refusal comes out as `None`, so that a client cannot tell
//! which check failed.

use crate::base64::{
    base64url, decode, decoded, decodes_to, encodable, encode, is_base64url, lemma_decoded,
};
use crate::clock::{epoch_seconds_u32, instant_after, Timestamp};
use crate::controllers::login::{Credentials as LoginCredentials, TokenPair};
use crate::controllers::register::Credentials as RegisterCredentials;
use crate::data::auth::Auth;
use crate::data::refresh::Refresh;
use crate::data::token::Interface as TokenInterface;
use crate::error::Result;
use crate::environment::Config;
use crate::provider::session::{login_outcome, logout_outcome, register_outcome, Core, State};
use crate::schema::{
    LoginRequest, LoginResponseSuccess, RefreshRequest, RefreshResponseSuccess, RegisterRequest,
    WhoamiResponse,
};
use crate::text::bytes_equal;
use crate::token_repo::interface::Interface as TokenRepoInterface;
use crate::user_repo::id::{uuid_text, UserId};
use crate::user_repo::interface::{Interface as UserRepoInterface, User};
use vstd::prelude::*;
use vstd::slice::slice_subrange;
use vstd::utf8::{decode_utf8, encode_utf8, encode_utf8_decode_utf8};

verus! {

/// What comes before the token in an authorization header.
pub const BEARER_PREFIX: &'static str = "Bearer ";

/// The token part of an authorization header: what follows `Bearer `,
/// where the header begins with it.
pub open spec fn bearer_text(header: Seq<u8>) -> Option<Seq<u8>> {
    let prefix = encode_utf8(BEARER_PREFIX@);
    if header.len() >= prefix.len() && header.take(prefix.len() as int) == prefix {
        Some(header.skip(prefix.len() as int))
    } else {
        None
    }
}

/// Reads the access token from the value of an authorization header. A
/// header that is absent, does not begin with `Bearer `, or carries no
/// Base64 after it gives no token, and no error.
pub fn bearer_token(header: Option<&[u8]>) -> (token: Option<Auth>)
    ensures
        match token {
            Some(token) => {
                &&& header matches Some(value)
                &&& bearer_text(value@) matches Some(text)
                &&& decodes_to(text, token@)
            },
            None => {
                ||| header is None
                ||| bearer_text(header.unwrap()@) is None
                ||| !is_base64url(bearer_text(header.unwrap()@).unwrap())
            },
        },
{
    let value = match header {
        Some(value) => value,
        None => { return None; },
    };
    let prefix = BEARER_PREFIX.as_bytes();
    if value.len() < prefix.len() {
        return None;
    }
    let head = slice_subrange(value, 0, prefix.len());
    proof {
        assert(head@ =~= value@.take(prefix@.len() as int));
    }
    if !bytes_equal(head, prefix) {
        return None;
    }
    let text = slice_subrange(value, prefix.len(), value.len());
    proof {
        assert(text@ =~= value@.skip(prefix@.len() as int));
    }
    match decode(text) {
        Ok(bytes) => Some(Auth::from_bytes(bytes)),
        Err(_) => None,
    }
}

/// When a token issued at `now` with the time to live `ttl` expires, in
/// seconds since the epoch; 0 where that does not fit 32 bits.
pub open spec fn expires_at(now: Timestamp, ttl: u64) -> u32 {
    epoch_seconds_u32(instant_after(now, ttl))
}

/// When a token issued at `now` with the time to live `ttl` expires, in
/// seconds since the epoch; 0 where that does not fit 32 bits.
pub fn expiry_seconds(now: Timestamp, ttl: u64) -> (secs: u32)
    ensures
        secs == expires_at(now, ttl),
{
    now.plus_secs(ttl).epoch_seconds_u32()
}

/// What a login and a refresh answer with: two tokens in Base64, and the
/// time at which each expires.
pub struct Issue {
    /// The access token, in Base64.
    pub auth_token: Seq<char>,
    /// When the access token expires, in seconds since the epoch.
    pub auth_token_expires: u32,
    /// The refresh token, in Base64.
    pub refresh_token: Seq<char>,
    /// When the refresh token expires, in seconds since the epoch.
    pub refresh_token_expires: u32,
}

impl View for LoginResponseSuccess {
    type V = Issue;

    open spec fn view(&self) -> Issue {
        Issue {
            auth_token: self.auth_token@,
            auth_token_expires: self.auth_token_expires,
            refresh_token: self.refresh_token@,
            refresh_token_expires: self.refresh_token_expires,
        }
    }
}

impl View for RefreshResponseSuccess {
    type V = Issue;

    open spec fn view(&self) -> Issue {
        Issue {
            auth_token: self.auth_token@,
            auth_token_expires: self.auth_token_expires,
            refresh_token: self.refresh_token@,
            refresh_token_expires: self.refresh_token_expires,
        }
    }
}

impl Issue {
    /// The access token that the answer carries.
    pub open spec fn auth(self) -> Seq<u8> {
        decoded(encode_utf8(self.auth_token))
    }

    /// The refresh token that the answer carries.
    pub open spec fn refresh(self) -> Seq<u8> {
        decoded(encode_utf8(self.refresh_token))
    }

    /// Whether the answer carries two tokens in Base64, and for each the
    /// time at which a token issued at `now` under `config` expires.
    pub open spec fn is_answer(self, config: Config, now: Timestamp) -> bool {
        &&& encode_utf8(self.auth_token) == base64url(self.auth())
        &&& encode_utf8(self.refresh_token) == base64url(self.refresh())
        &&& self.auth_token_expires == expires_at(now, config.auth_token_ttl)
        &&& self.refresh_token_expires == expires_at(now, config.refresh_token_ttl)
    }
}

/// The answer to a login as the model sees it.
pub open spec fn login_view(response: Option<LoginResponseSuccess>) -> Option<Issue> {
    match response {
        Some(response) => Some(response@),
        None => None,
    }
}

/// The answer to a refresh as the model sees it.
pub open spec fn refresh_view(response: Option<RefreshResponseSuccess>) -> Option<Issue> {
    match response {
        Some(response) => Some(response@),
        None => None,
    }
}

/// Whether tokens of the configured sizes can be written as text.
pub open spec fn tokens_encodable(config: Config) -> bool {
    encodable(config.auth_token_size as nat) && encodable(config.refresh_token_size as nat)
}

/// What a login with `username` and `password` at `now` may be answered
/// with, for a provider that it takes from `before` to `after`.
pub open spec fn login_answer(
    before: State,
    after: State,
    reliable: bool,
    config: Config,
    username: Seq<char>,
    password: Seq<char>,
    now: Timestamp,
    response: Option<Issue>,
) -> bool {
    match response {
        Some(issue) => {
            &&& before.login_user(username, password) matches Some(user)
            &&& issue.is_answer(config, now)
            &&& issue.auth().len() == config.auth_token_size
            &&& issue.refresh().len() == config.refresh_token_size
            &&& after == before.issued(
                user.id,
                issue.auth(),
                issue.refresh(),
                Some(config.auth_token_ttl),
                Some(config.refresh_token_ttl),
                now,
            )
        },
        None => {
            &&& before.login_user(username, password) is None ==> after == before
            &&& reliable && tokens_encodable(config) ==> after == before
        },
    }
}

/// What an exchange at `now` of the refresh token that `text` spells may
/// be answered with, for a provider that it takes from `before` to `after`.
pub open spec fn refresh_answer(
    before: State,
    after: State,
    reliable: bool,
    indexed: bool,
    config: Config,
    text: Seq<u8>,
    now: Timestamp,
    response: Option<Issue>,
) -> bool {
    &&& after.users == before.users
    &&& !is_base64url(text) ==> response is None && after == before
    &&& match response {
        Some(issue) => {
            &&& is_base64url(text)
            &&& before.refresh_owner(decoded(text), now) matches Some(owner)
            &&& issue.is_answer(config, now)
            &&& reliable ==> after == before.revoked(decoded(text), indexed).issued(
                owner,
                issue.auth(),
                issue.refresh(),
                Some(config.auth_token_ttl),
                Some(config.refresh_token_ttl),
                now,
            )
        },
        None => reliable && is_base64url(text) && tokens_encodable(config) ==> {
            ||| {
                &&& before.refresh_owner(decoded(text), now) is None
                &&& after == before.refresh_refused(decoded(text), now)
            }
            ||| {
                &&& before.refresh_owner(decoded(text), now) is Some
                &&& after == before.revoked(decoded(text), indexed)
            }
        },
    }
}

/// The answer to the question who a token stands for, as the model sees
/// it.
pub struct Whoami {
    /// The id of the user, as hyphenated text.
    pub id: Seq<char>,
    /// The username.
    pub username: Seq<char>,
}

/// The answer to the question who a token stands for, as the model sees
/// it.
pub open spec fn whoami_view(response: Option<WhoamiResponse>) -> Option<Whoami> {
    match response {
        Some(response) => Some(Whoami { id: response.id@, username: response.username@ }),
        None => None,
    }
}

/// The token of an optional token, as the model sees it.
pub open spec fn token_view(token: Option<&Auth>) -> Option<Seq<u8>> {
    match token {
        Some(token) => Some(token@),
        None => None,
    }
}

/// What the question who `token` stands for at `now` may be answered with,
/// for a provider that it takes from `before` to `after`.
pub open spec fn whoami_answer(
    before: State,
    after: State,
    reliable: bool,
    token: Option<Seq<u8>>,
    now: Timestamp,
    response: Option<Whoami>,
) -> bool {
    &&& after.users == before.users
    &&& after.refresh == before.refresh
    &&& match response {
        Some(response) => {
            &&& token matches Some(token)
            &&& before.whoami(token, now) matches Some(user)
            &&& response.id == uuid_text(user.id.0)
            &&& response.username == user.username
            &&& after == before
        },
        None => match token {
            Some(token) => reliable ==> {
                &&& before.whoami(token, now) is None
                &&& after == before.after_whoami(token, now)
            },
            None => after == before,
        },
    }
}

/// The answer that carries the tokens `auth` and `refresh` in Base64 and
/// the given times of expiry.
pub open spec fn issue_of(
    auth: Seq<u8>,
    refresh: Seq<u8>,
    auth_token_expires: u32,
    refresh_token_expires: u32,
) -> Issue {
    Issue {
        auth_token: decode_utf8(base64url(auth)),
        auth_token_expires,
        refresh_token: decode_utf8(base64url(refresh)),
        refresh_token_expires,
    }
}

/// The answer to a login that came to `outcome` in the provider: the pair
/// of tokens in Base64 with the given times of expiry where a pair was
/// issued and both tokens can be written as text, and nothing otherwise.
pub open spec fn login_response_of(
    outcome: Result<Option<TokenPair>>,
    auth_token_expires: u32,
    refresh_token_expires: u32,
) -> Option<Issue> {
    match outcome {
        Ok(Some(pair)) => if encodable(pair.auth_token@.len()) && encodable(
            pair.refresh_token@.len(),
        ) {
            Some(
                issue_of(
                    pair.auth_token@,
                    pair.refresh_token@,
                    auth_token_expires,
                    refresh_token_expires,
                ),
            )
        } else {
            None
        },
        _ => None,
    }
}

/// Turns what the provider made of a login into the answer for the client:
/// a pair of tokens is written in Base64 and sent with the given times of
/// expiry; a refusal and every failure are answered with `None`.
pub fn login_response(
    outcome: Result<Option<TokenPair>>,
    auth_token_expires: u32,
    refresh_token_expires: u32,
) -> (response: Option<LoginResponseSuccess>)
    ensures
        login_view(response) == login_response_of(
            outcome,
            auth_token_expires,
            refresh_token_expires,
        ),
        response matches Some(answer) ==> {
            &&& outcome matches Ok(Some(pair))
            &&& encode_utf8(answer.auth_token@) == base64url(pair.auth_token@)
            &&& encode_utf8(answer.refresh_token@) == base64url(pair.refresh_token@)
            &&& answer@.auth() == pair.auth_token@
            &&& answer@.refresh() == pair.refresh_token@
        },
{
    let pair = match outcome {
        Ok(Some(pair)) => pair,
        Ok(None) => { return None; },
        Err(_) => { return None; },
    };
    let auth_token = match encode(pair.auth_token.as_bytes()) {
        Ok(text) => text,
        Err(_) => { return None; },
    };
    let refresh_token = match encode(pair.refresh_token.as_bytes()) {
        Ok(text) => text,
        Err(_) => { return None; },
    };
    proof {
        encode_utf8_decode_utf8(auth_token@);
        encode_utf8_decode_utf8(refresh_token@);
    }
    Some(LoginResponseSuccess { auth_token, auth_token_expires, refresh_token, refresh_token_expires })
}

/// What a login with `username` and `password` at `now` comes to: the
/// provider is asked to log the user in with its configured times to live,
/// and what it makes of that is turned into the answer.
pub open spec fn login_served(
    before: State,
    after: State,
    reliable: bool,
    config: Config,
    username: Seq<char>,
    password: Seq<char>,
    now: Timestamp,
    response: Option<Issue>,
    outcome: Result<Option<TokenPair>>,
) -> bool {
    &&& login_outcome(
        before,
        after,
        reliable,
        config,
        username,
        password,
        Some(config.auth_token_ttl),
        Some(config.refresh_token_ttl),
        now,
        outcome,
    )
    &&& response == login_response_of(
        outcome,
        expires_at(now, config.auth_token_ttl),
        expires_at(now, config.refresh_token_ttl),
    )
}

/// Logs a user in as of the instant `now`, with the provider's configured
/// times to live, and answers with the two tokens in Base64 and the time
/// at which each expires.
///
/// Answers `None` when the credentials name no user, and when anything
/// fails.
pub fn login_at<U, A, R>(
    provider: &mut Core<U, A, R>,
    login_request: &LoginRequest,
    now: Timestamp,
) -> (response: Option<LoginResponseSuccess>) where
    U: UserRepoInterface,
    A: TokenRepoInterface<Auth>,
    R: TokenRepoInterface<Refresh>,

    requires
        old(provider).inv(),
    ensures
        final(provider).inv(),
        old(provider).same_provider(final(provider)),
        login_answer(
            old(provider).state(),
            final(provider).state(),
            old(provider).reliable(),
            old(provider).config(),
            login_request.username@,
            login_request.password@,
            now,
            login_view(response),
        ),
        exists|outcome: Result<Option<TokenPair>>| #[trigger]
            login_served(
                old(provider).state(),
                final(provider).state(),
                old(provider).reliable(),
                old(provider).config(),
                login_request.username@,
                login_request.password@,
                now,
                login_view(response),
                outcome,
            ),
{
    let auth_token_ttl = provider.auth_token_ttl();
    let refresh_token_ttl = provider.refresh_token_ttl();
    let auth_token_expires = expiry_seconds(now, auth_token_ttl);
    let refresh_token_expires = expiry_seconds(now, refresh_token_ttl);
    let credentials = LoginCredentials {
        username: login_request.username.as_str(),
        password: login_request.password.as_str(),
    };
    let outcome = provider.login_at(
        &credentials,
        Some(auth_token_ttl),
        Some(refresh_token_ttl),
        now,
    );
    let ghost made = outcome;
    let response = login_response(outcome, auth_token_expires, refresh_token_expires);
    proof {
        assert(login_served(
            old(provider).state(),
            final(provider).state(),
            old(provider).reliable(),
            old(provider).config(),
            login_request.username@,
            login_request.password@,
            now,
            login_view(response),
            made,
        ));
    }
    response
}

/// Logs a user in as of the reading of the system clock.
pub fn login<U, A, R>(provider: &mut Core<U, A, R>, login_request: &LoginRequest) -> (response:
    Option<LoginResponseSuccess>) where
    U: UserRepoInterface,
    A: TokenRepoInterface<Auth>,
    R: TokenRepoInterface<Refresh>,

    requires
        old(provider).inv(),
    ensures
        final(provider).inv(),
        old(provider).same_provider(final(provider)),
        exists|now: Timestamp| #[trigger]
            login_answer(
                old(provider).state(),
                final(provider).state(),
                old(provider).reliable(),
                old(provider).config(),
                login_request.username@,
                login_request.password@,
                now,
                login_view(response),
            ),
{
    let now = Timestamp::now();
    login_at(provider, login_request, now)
}

/// Exchanges the refresh token of the request for a new pair of tokens, as
/// of the instant `now`, and answers as a login does.
///
/// Answers `None` when the request holds no Base64, when the refresh token
/// is unknown or expired, and when anything fails.
pub fn refresh_at<U, A, R>(
    provider: &mut Core<U, A, R>,
    refresh_request: &RefreshRequest,
    now: Timestamp,
) -> (response: Option<RefreshResponseSuccess>) where
    U: UserRepoInterface,
    A: TokenRepoInterface<Auth>,
    R: TokenRepoInterface<Refresh>,

    requires
        old(provider).inv(),
    ensures
        final(provider).inv(),
        old(provider).same_provider(final(provider)),
        refresh_answer(
            old(provider).state(),
            final(provider).state(),
            old(provider).reliable(),
            old(provider).indexed(),
            old(provider).config(),
            encode_utf8(refresh_request.refresh_token@),
            now,
            refresh_view(response),
        ),
{
    let old_refresh = match decode(refresh_request.refresh_token.as_str().as_bytes()) {
        Ok(bytes) => Refresh::from_bytes(bytes),
        Err(_) => { return None; },
    };
    proof {
        assert(base64url(old_refresh@) == encode_utf8(refresh_request.refresh_token@));
        lemma_decoded(encode_utf8(refresh_request.refresh_token@), old_refresh@);
    }
    let auth_token_ttl = provider.auth_token_ttl();
    let refresh_token_ttl = provider.refresh_token_ttl();
    let auth_token_expires = expiry_seconds(now, auth_token_ttl);
    let refresh_token_expires = expiry_seconds(now, refresh_token_ttl);
    let outcome = provider.refresh_at(
        &old_refresh,
        Some(auth_token_ttl),
        Some(refresh_token_ttl),
        now,
    );
    refresh_response(outcome, auth_token_expires, refresh_token_expires)
}

/// Turns what the provider made of an exchange into the answer for the
/// client: a pair of tokens is written in Base64 and sent with the given
/// times of expiry; a refusal and every failure are answered with `None`.
pub fn refresh_response(
    outcome: Result<Option<TokenPair>>,
    auth_token_expires: u32,
    refresh_token_expires: u32,
) -> (response: Option<RefreshResponseSuccess>)
    ensures
        refresh_view(response) == login_response_of(
            outcome,
            auth_token_expires,
            refresh_token_expires,
        ),
        response matches Some(answer) ==> {
            &&& outcome matches Ok(Some(pair))
            &&& encode_utf8(answer.auth_token@) == base64url(pair.auth_token@)
            &&& encode_utf8(answer.refresh_token@) == base64url(pair.refresh_token@)
            &&& answer@.auth() == pair.auth_token@
            &&& answer@.refresh() == pair.refresh_token@
        },
{
    let pair = match outcome {
        Ok(Some(pair)) => pair,
        Ok(None) => { return None; },
        Err(_) => { return None; },
    };
    let auth_token = match encode(pair.auth_token.as_bytes()) {
        Ok(text) => text,
        Err(_) => { return None; },
    };
    let refresh_token = match encode(pair.refresh_token.as_bytes()) {
        Ok(text) => text,
        Err(_) => { return None; },
    };
    proof {
        encode_utf8_decode_utf8(auth_token@);
        encode_utf8_decode_utf8(refresh_token@);
    }
    Some(
        RefreshResponseSuccess { auth_token, auth_token_expires, refresh_token, refresh_token_expires },
    )
}

/// Exchanges the refresh token of the request as of the reading of the
/// system clock.
pub fn refresh<U, A, R>(provider: &mut Core<U, A, R>, refresh_request: &RefreshRequest) -> (response:
    Option<RefreshResponseSuccess>) where
    U: UserRepoInterface,
    A: TokenRepoInterface<Auth>,
    R: TokenRepoInterface<Refresh>,

    requires
        old(provider).inv(),
    ensures
        final(provider).inv(),
        old(provider).same_provider(final(provider)),
        exists|now: Timestamp| #[trigger]
            refresh_answer(
                old(provider).state(),
                final(provider).state(),
                old(provider).reliable(),
                old(provider).indexed(),
                old(provider).config(),
                encode_utf8(refresh_request.refresh_token@),
                now,
                refresh_view(response),
            ),
{
    let now = Timestamp::now();
    refresh_at(provider, refresh_request, now)
}

/// The outcome of a registration that was answered with `r`, had it handed
/// on the id `id` of the new user.
pub open spec fn registered_as(r: Result<()>, id: UserId) -> Result<UserId> {
    match r {
        Ok(()) => Ok(id),
        Err(e) => Err(e),
    }
}

/// Registers the user of the request. The id of the new user is not
/// handed on.
pub fn register<U, A, R>(provider: &mut Core<U, A, R>, register_request: &RegisterRequest) -> (r:
    Result<()>) where
    U: UserRepoInterface,
    A: TokenRepoInterface<Auth>,
    R: TokenRepoInterface<Refresh>,

    requires
        old(provider).inv(),
    ensures
        final(provider).inv(),
        old(provider).same_provider(final(provider)),
        exists|id: UserId| #[trigger]
            register_outcome(
                old(provider).state(),
                final(provider).state(),
                old(provider).reliable(),
                register_request.username@,
                register_request.password@,
                registered_as(r, id),
            ),
{
    let credentials = RegisterCredentials {
        username: register_request.username.as_str(),
        password: register_request.password.as_str(),
    };
    let outcome = provider.register(&credentials);
    proof {
        let id = if outcome is Ok {
            outcome->Ok_0
        } else {
            arbitrary()
        };
        assert(registered_as(register_response_of(outcome), id) == outcome);
    }
    register_response(outcome)
}

/// The answer to a registration, once the provider has answered with
/// `outcome`: that it was done, or the error as it came.
pub open spec fn register_response_of(outcome: Result<UserId>) -> Result<()> {
    match outcome {
        Ok(_) => Ok(()),
        Err(e) => Err(e),
    }
}

/// Turns what the provider made of a registration into the answer for the
/// client: the id of the new user is left out, and an error is handed on
/// as it came.
pub fn register_response(outcome: Result<UserId>) -> (r: Result<()>)
    ensures
        r == register_response_of(outcome),
{
    match outcome {
        Ok(_) => Ok(()),
        Err(e) => Err(e),
    }
}

/// Logs the access token out, as of the instant `now`.
pub fn logout_at<U, A, R>(provider: &mut Core<U, A, R>, auth_token: &Auth, now: Timestamp) -> (r:
    Result<()>) where
    U: UserRepoInterface,
    A: TokenRepoInterface<Auth>,
    R: TokenRepoInterface<Refresh>,

    requires
        old(provider).inv(),
    ensures
        final(provider).inv(),
        old(provider).same_provider(final(provider)),
        logout_outcome(
            old(provider).state(),
            final(provider).state(),
            old(provider).reliable(),
            auth_token@,
            r,
        ),
{
    provider.logout_at(auth_token, now)
}

/// Logs the access token out, as of the reading of the system clock.
pub fn logout<U, A, R>(provider: &mut Core<U, A, R>, auth_token: &Auth) -> (r: Result<()>) where
    U: UserRepoInterface,
    A: TokenRepoInterface<Auth>,
    R: TokenRepoInterface<Refresh>,

    requires
        old(provider).inv(),
    ensures
        final(provider).inv(),
        old(provider).same_provider(final(provider)),
        logout_outcome(
            old(provider).state(),
            final(provider).state(),
            old(provider).reliable(),
            auth_token@,
            r,
        ),
{
    provider.logout(auth_token)
}

/// Answers who the access token stands for, as of the instant `now`: the
/// user's id as text, and its name.
///
/// Answers `None` when there is no token, when it is unknown or expired,
/// and when anything fails.
pub fn whoami_at<U, A, R>(
    provider: &mut Core<U, A, R>,
    auth_token: Option<&Auth>,
    now: Timestamp,
) -> (response: Option<WhoamiResponse>) where
    U: UserRepoInterface,
    A: TokenRepoInterface<Auth>,
    R: TokenRepoInterface<Refresh>,

    requires
        old(provider).inv(),
    ensures
        final(provider).inv(),
        old(provider).same_provider(final(provider)),
        whoami_answer(
            old(provider).state(),
            final(provider).state(),
            old(provider).reliable(),
            token_view(auth_token),
            now,
            whoami_view(response),
        ),
{
    let token = match auth_token {
        Some(token) => token,
        None => { return None; },
    };
    let outcome = provider.whoami_at(token, now);
    whoami_response(outcome)
}

/// The answer to the question who a token stands for, once the provider
/// has answered with `outcome`.
pub open spec fn whoami_response_of(outcome: Result<Option<User>>) -> Option<Whoami> {
    match outcome {
        Ok(Some(user)) => Some(Whoami { id: uuid_text(user.id.0), username: user.username@ }),
        _ => None,
    }
}

/// Turns what the provider made of the question who a token stands for
/// into the answer for the client: the user's id as text and its name; a
/// token that stands for nobody and every failure are answered with
/// `None`.
pub fn whoami_response(outcome: Result<Option<User>>) -> (response: Option<WhoamiResponse>)
    ensures
        whoami_view(response) == whoami_response_of(outcome),
{
    match outcome {
        Ok(Some(user)) => Some(WhoamiResponse { id: user.id.to_string(), username: user.username }),
        Ok(None) => None,
        Err(_) => None,
    }
}

/// Answers who the access token stands for, as of the reading of the
/// system clock.
pub fn whoami<U, A, R>(provider: &mut Core<U, A, R>, auth_token: Option<&Auth>) -> (response: Option<
    WhoamiResponse,
>) where U: UserRepoInterface, A: TokenRepoInterface<Auth>, R: TokenRepoInterface<Refresh>
    requires
        old(provider).inv(),
    ensures
        final(provider).inv(),
        old(provider).same_provider(final(provider)),
        exists|now: Timestamp| #[trigger]
            whoami_answer(
                old(provider).state(),
                final(provider).state(),
                old(provider).reliable(),
                token_view(auth_token),
                now,
                whoami_view(response),
            ),
{
    let now = Timestamp::now();
    whoami_at(provider, auth_token, now)
}

} // verus!
