//! What holds of every run of a provider over stores that cannot fail,
//! stated over the outcomes that the provider's operations ensure. Each law
//! takes the outcomes of the calls of a run as they came and says what the
//! later ones must have been.

use crate::clock::Timestamp;
use crate::controllers::login::{TokenPair, AUTH_TOKEN_TAG, REFRESH_TOKEN_TAG};
use crate::controllers::logout::paired_refresh;
use crate::environment::Config;
use crate::error::Result;
use crate::provider::laws::{
    is_live, is_pair, lemma_login_user_exists, lemma_put_one_tag, lemma_registered_user_logs_in,
};
use crate::provider::session::{
    login_outcome, logout_outcome, refresh_outcome, register_outcome, whoami_outcome, State,
};
use crate::token_repo::interface::Lookup;
use crate::user_repo::id::UserId;
use crate::user_repo::interface::{accepts, user_view, User};
use vstd::prelude::*;

verus! {

/// A login that issued a pair leaves a state in order in which the two
/// tokens are tagged with each other and stand for the user that logged in,
/// each for as long as it lives.
pub proof fn lemma_login_issues_a_pair(
    before: State,
    after: State,
    config: Config,
    username: Seq<char>,
    password: Seq<char>,
    auth_ttl: Option<u64>,
    refresh_ttl: Option<u64>,
    now: Timestamp,
    pair: TokenPair,
    later: Timestamp,
)
    requires
        before.wf(),
        login_outcome(
            before,
            after,
            true,
            config,
            username,
            password,
            auth_ttl,
            refresh_ttl,
            now,
            Ok(Some(pair)),
        ),
    ensures
        after.wf(),
        after.users == before.users,
        before.login_user(username, password) is Some,
        is_pair(after, pair.auth_token@, pair.refresh_token@),
        is_live(now, auth_ttl, later) ==> after.whoami(pair.auth_token@, later)
            == before.login_user(username, password),
        is_live(now, refresh_ttl, later) ==> after.refresh_owner(pair.refresh_token@, later) == Some(
            before.login_user(username, password).unwrap().id,
        ),
{
    let user = before.login_user(username, password).unwrap();
    lemma_login_user_exists(before.users, username, password);
    lemma_put_one_tag(
        before.auth,
        pair.auth_token@,
        user.id,
        REFRESH_TOKEN_TAG@,
        pair.refresh_token@,
        auth_ttl,
        now,
    );
    lemma_put_one_tag(
        before.refresh,
        pair.refresh_token@,
        user.id,
        AUTH_TOKEN_TAG@,
        pair.auth_token@,
        refresh_ttl,
        now,
    );
}

/// For every registered pair of username and password, a login with that
/// pair right after the registration does not come to `None`: it issues a
/// pair of tokens that stand for the registered user, or fails with the
/// random generator.
pub proof fn lemma_login_after_register(
    before: State,
    registered: State,
    after: State,
    config: Config,
    username: Seq<char>,
    password: Seq<char>,
    id: UserId,
    auth_ttl: Option<u64>,
    refresh_ttl: Option<u64>,
    now: Timestamp,
    r: Result<Option<TokenPair>>,
)
    requires
        before.wf(),
        register_outcome(before, registered, true, username, password, Ok(id)),
        login_outcome(
            registered,
            after,
            true,
            config,
            username,
            password,
            auth_ttl,
            refresh_ttl,
            now,
            r,
        ),
    ensures
        !(r matches Ok(None)),
        r matches Err(e) ==> e is CryptoError && after == registered,
        r matches Ok(Some(pair)) ==> {
            &&& after.auth.lookup(pair.auth_token@, now) == Lookup::Found(id)
            &&& after.refresh.lookup(pair.refresh_token@, now) == Lookup::Found(id)
        },
{
    lemma_registered_user_logs_in(
        before.users,
        registered.users,
        id,
        username,
        password,
        password,
    );
    if let Ok(Some(pair)) = r {
        lemma_login_issues_a_pair(
            registered,
            after,
            config,
            username,
            password,
            auth_ttl,
            refresh_ttl,
            now,
            pair,
            now,
        );
    }
}

/// A login with a password that the stored hash of a registered user is no
/// hash of comes to `None` and changes nothing.
pub proof fn lemma_wrong_password_after_register(
    before: State,
    registered: State,
    after: State,
    config: Config,
    username: Seq<char>,
    password: Seq<char>,
    wrong: Seq<char>,
    id: UserId,
    auth_ttl: Option<u64>,
    refresh_ttl: Option<u64>,
    now: Timestamp,
    r: Result<Option<TokenPair>>,
)
    requires
        before.wf(),
        register_outcome(before, registered, true, username, password, Ok(id)),
        !accepts(wrong, registered.users.accounts[id].password_hash),
        login_outcome(registered, after, true, config, username, wrong, auth_ttl, refresh_ttl, now, r),
    ensures
        r matches Ok(None),
        after == registered,
{
    lemma_registered_user_logs_in(before.users, registered.users, id, username, password, wrong);
}

/// After a login, `whoami` of the access token returns the user that
/// logged in, for as long as the token lives.
pub proof fn lemma_whoami_after_login(
    before: State,
    logged_in: State,
    after: State,
    config: Config,
    username: Seq<char>,
    password: Seq<char>,
    auth_ttl: Option<u64>,
    refresh_ttl: Option<u64>,
    now: Timestamp,
    pair: TokenPair,
    later: Timestamp,
    r: Result<Option<User>>,
)
    requires
        before.wf(),
        login_outcome(
            before,
            logged_in,
            true,
            config,
            username,
            password,
            auth_ttl,
            refresh_ttl,
            now,
            Ok(Some(pair)),
        ),
        is_live(now, auth_ttl, later),
        whoami_outcome(logged_in, after, true, pair.auth_token@, later, r),
    ensures
        r matches Ok(Some(user)) && Some(user@) == before.login_user(username, password),
        after == logged_in,
{
    lemma_login_issues_a_pair(
        before,
        logged_in,
        config,
        username,
        password,
        auth_ttl,
        refresh_ttl,
        now,
        pair,
        later,
    );
    let user = before.login_user(username, password).unwrap();
    lemma_put_one_tag(
        before.auth,
        pair.auth_token@,
        user.id,
        REFRESH_TOKEN_TAG@,
        pair.refresh_token@,
        auth_ttl,
        now,
    );
}

/// After a logout, `whoami` of the access token returns `None`, and an
/// exchange of the refresh token that it was paired with returns `None`.
pub proof fn lemma_after_logout(
    before: State,
    logged_out: State,
    after: State,
    config: Config,
    indexed: bool,
    auth: Seq<u8>,
    refresh: Seq<u8>,
    auth_ttl: Option<u64>,
    refresh_ttl: Option<u64>,
    later: Timestamp,
    who: Result<Option<User>>,
    exchanged: Result<Option<TokenPair>>,
)
    requires
        logout_outcome(before, logged_out, true, auth, Ok(())),
    ensures
        whoami_outcome(logged_out, after, true, auth, later, who) ==> (who matches Ok(None)) && after
            == logged_out,
        is_pair(before, auth, refresh) && refresh_outcome(
            logged_out,
            after,
            true,
            indexed,
            config,
            refresh,
            auth_ttl,
            refresh_ttl,
            later,
            exchanged,
        ) ==> (exchanged matches Ok(None)) && after == logged_out,
{
}

/// After a refresh, `whoami` of the access token that the refresh token
/// was paired with returns `None`, whether or not that token has expired,
/// unless the access token drawn anew is the same.
pub proof fn lemma_whoami_of_old_after_refresh(
    before: State,
    refreshed: State,
    after: State,
    config: Config,
    indexed: bool,
    old_auth: Seq<u8>,
    old_refresh: Seq<u8>,
    auth_ttl: Option<u64>,
    refresh_ttl: Option<u64>,
    now: Timestamp,
    new: TokenPair,
    later: Timestamp,
    r: Result<Option<User>>,
)
    requires
        before.wf(),
        before.refresh.is_tagged(old_refresh, AUTH_TOKEN_TAG@, old_auth),
        refresh_outcome(
            before,
            refreshed,
            true,
            indexed,
            config,
            old_refresh,
            auth_ttl,
            refresh_ttl,
            now,
            Ok(Some(new)),
        ),
        new.auth_token@ != old_auth,
        whoami_outcome(refreshed, after, true, old_auth, later, r),
    ensures
        r matches Ok(None),
        after == refreshed,
{
    let revoked = before.revoked(old_refresh, indexed);
    assert(!revoked.auth.holds(old_auth));
    lemma_revoked_wf(before, old_refresh, indexed);
    let owner = before.refresh_owner(old_refresh, now).unwrap();
    lemma_put_one_tag(
        revoked.auth,
        new.auth_token@,
        owner,
        REFRESH_TOKEN_TAG@,
        new.refresh_token@,
        auth_ttl,
        now,
    );
}

/// Revoking a refresh token and the access tokens issued with it leaves
/// the stores in order.
pub proof fn lemma_revoked_wf(state: State, token: Seq<u8>, indexed: bool)
    requires
        state.wf(),
    ensures
        state.revoked(token, indexed).wf(),
        !state.revoked(token, indexed).refresh.holds(token),
{
    let revoked = state.revoked(token, indexed);
    assert forall|k: (Seq<u8>, Seq<char>)| #[trigger]
        revoked.auth.tags.contains_key(k) implies revoked.auth.records.contains_key(k.0) by {
        assert(state.auth.tags.contains_key(k));
    }
    assert forall|k: (Seq<u8>, Seq<char>)| #[trigger]
        revoked.refresh.tags.contains_key(k) implies revoked.refresh.records.contains_key(k.0) by {
        assert(state.refresh.tags.contains_key(k));
    }
}

/// After a refresh, `whoami` of the new access token returns the user that
/// the refresh token stood for, for as long as the new token lives; and the
/// new tokens are tagged with each other.
pub proof fn lemma_whoami_of_new_after_refresh(
    before: State,
    refreshed: State,
    after: State,
    config: Config,
    indexed: bool,
    old_refresh: Seq<u8>,
    auth_ttl: Option<u64>,
    refresh_ttl: Option<u64>,
    now: Timestamp,
    new: TokenPair,
    later: Timestamp,
    r: Result<Option<User>>,
)
    requires
        before.wf(),
        refresh_outcome(
            before,
            refreshed,
            true,
            indexed,
            config,
            old_refresh,
            auth_ttl,
            refresh_ttl,
            now,
            Ok(Some(new)),
        ),
        is_live(now, auth_ttl, later),
        whoami_outcome(refreshed, after, true, new.auth_token@, later, r),
    ensures
        refreshed.wf(),
        is_pair(refreshed, new.auth_token@, new.refresh_token@),
        r matches Ok(user) && user_view(user) == before.users.get(
            before.refresh_owner(old_refresh, now).unwrap(),
        ),
        after == refreshed,
{
    let revoked = before.revoked(old_refresh, indexed);
    lemma_revoked_wf(before, old_refresh, indexed);
    let owner = before.refresh_owner(old_refresh, now).unwrap();
    lemma_put_one_tag(
        revoked.auth,
        new.auth_token@,
        owner,
        REFRESH_TOKEN_TAG@,
        new.refresh_token@,
        auth_ttl,
        now,
    );
    lemma_put_one_tag(
        revoked.refresh,
        new.refresh_token@,
        owner,
        AUTH_TOKEN_TAG@,
        new.auth_token@,
        refresh_ttl,
        now,
    );
}

/// A refresh token is good for one exchange: after a refresh, a second
/// exchange of the same refresh token returns `None` and changes nothing,
/// unless the refresh token drawn anew is the same.
pub proof fn lemma_second_refresh(
    before: State,
    refreshed: State,
    after: State,
    config: Config,
    indexed: bool,
    old_refresh: Seq<u8>,
    auth_ttl: Option<u64>,
    refresh_ttl: Option<u64>,
    now: Timestamp,
    new: TokenPair,
    again_auth_ttl: Option<u64>,
    again_refresh_ttl: Option<u64>,
    later: Timestamp,
    r: Result<Option<TokenPair>>,
)
    requires
        before.wf(),
        refresh_outcome(
            before,
            refreshed,
            true,
            indexed,
            config,
            old_refresh,
            auth_ttl,
            refresh_ttl,
            now,
            Ok(Some(new)),
        ),
        new.refresh_token@ != old_refresh,
        refresh_outcome(
            refreshed,
            after,
            true,
            indexed,
            config,
            old_refresh,
            again_auth_ttl,
            again_refresh_ttl,
            later,
            r,
        ),
    ensures
        r matches Ok(None),
        after == refreshed,
{
    let revoked = before.revoked(old_refresh, indexed);
    lemma_revoked_wf(before, old_refresh, indexed);
    let owner = before.refresh_owner(old_refresh, now).unwrap();
    lemma_put_one_tag(
        revoked.refresh,
        new.refresh_token@,
        owner,
        AUTH_TOKEN_TAG@,
        new.auth_token@,
        refresh_ttl,
        now,
    );
}

/// `whoami` of an access token that is found past its expiry returns
/// `None`, neither an error nor a user, and removes the token.
pub proof fn lemma_whoami_of_expired(
    state: State,
    after: State,
    token: Seq<u8>,
    later: Timestamp,
    r: Result<Option<User>>,
)
    requires
        state.auth.is_expired(token, later),
        whoami_outcome(state, after, true, token, later, r),
    ensures
        r matches Ok(None),
        !after.auth.holds(token),
{
}

/// A login revokes no earlier session: an access token other than the one
/// issued stands for whom it stood before, and a refresh token other than
/// the one issued can be exchanged as before.
pub proof fn lemma_login_keeps_other_sessions(
    before: State,
    after: State,
    config: Config,
    username: Seq<char>,
    password: Seq<char>,
    auth_ttl: Option<u64>,
    refresh_ttl: Option<u64>,
    now: Timestamp,
    pair: TokenPair,
    auth: Seq<u8>,
    refresh: Seq<u8>,
    later: Timestamp,
)
    requires
        before.wf(),
        login_outcome(
            before,
            after,
            true,
            config,
            username,
            password,
            auth_ttl,
            refresh_ttl,
            now,
            Ok(Some(pair)),
        ),
    ensures
        pair.auth_token@ != auth ==> after.whoami(auth, later) == before.whoami(auth, later),
        pair.refresh_token@ != refresh ==> after.refresh_owner(refresh, later)
            == before.refresh_owner(refresh, later),
        pair.auth_token@ != auth && pair.refresh_token@ != refresh && is_pair(before, auth, refresh)
            ==> is_pair(after, auth, refresh),
{
    let user = before.login_user(username, password).unwrap();
    lemma_put_one_tag(
        before.auth,
        pair.auth_token@,
        user.id,
        REFRESH_TOKEN_TAG@,
        pair.refresh_token@,
        auth_ttl,
        now,
    );
    lemma_put_one_tag(
        before.refresh,
        pair.refresh_token@,
        user.id,
        AUTH_TOKEN_TAG@,
        pair.auth_token@,
        refresh_ttl,
        now,
    );
}

/// A logout revokes no other session: an access token other than the one
/// logged out stands for whom it stood before, and a refresh token other
/// than the one that the access token names can be exchanged as before.
pub proof fn lemma_logout_keeps_other_sessions(
    before: State,
    after: State,
    logged_out: Seq<u8>,
    auth: Seq<u8>,
    refresh: Seq<u8>,
    later: Timestamp,
)
    requires
        logout_outcome(before, after, true, logged_out, Ok(())),
    ensures
        logged_out != auth ==> after.whoami(auth, later) == before.whoami(auth, later),
        paired_refresh(before.auth, logged_out) != Some(refresh) ==> after.refresh_owner(
            refresh,
            later,
        ) == before.refresh_owner(refresh, later),
{
}

} // verus!
