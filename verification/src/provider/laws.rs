//! What holds of every session provider, whatever its stores hold.

use crate::clock::{instant_after, Timestamp};
use crate::controllers::login::{AUTH_TOKEN_TAG, REFRESH_TOKEN_TAG};
use crate::provider::session::State;
use crate::token_repo::interface::{expiry_of, lemma_put_tags_records, Record, Store};
use crate::user_repo::id::UserId;
use crate::user_repo::interface::{accepts, lemma_id_of, UserView, Users};
use vstd::prelude::*;

verus! {

/// Whether a token issued at `now` with the time to live `ttl` can still be
/// read at `later`.
pub open spec fn is_live(now: Timestamp, ttl: Option<u64>, later: Timestamp) -> bool {
    match ttl {
        Some(secs) => later.nanos <= instant_after(now, secs).nanos,
        None => true,
    }
}

/// Whether the access token `auth` and the refresh token `refresh` are
/// tagged with each other in `state`.
pub open spec fn is_pair(state: State, auth: Seq<u8>, refresh: Seq<u8>) -> bool {
    &&& state.auth.is_tagged(auth, REFRESH_TOKEN_TAG@, refresh)
    &&& state.refresh.is_tagged(refresh, AUTH_TOKEN_TAG@, auth)
}

/// What a store holds after a token was inserted with one tag: the new
/// record and its tag for that token, and for every other token what it
/// held before.
pub proof fn lemma_put_one_tag(
    store: Store,
    token: Seq<u8>,
    owner: UserId,
    name: Seq<char>,
    value: Seq<u8>,
    ttl: Option<u64>,
    now: Timestamp,
)
    requires
        store.wf(),
    ensures
        ({
            let after = store.put(token, owner, seq![(name, value)], ttl, now);
            &&& after.wf()
            &&& after.records == store.records.insert(
                token,
                Record { owner, expiry: expiry_of(now, ttl) },
            )
            &&& after.get_tag(token, name) == Some(value)
            &&& forall|other: Seq<u8>, tag: Seq<char>|
                other != token ==> #[trigger] after.get_tag(other, tag) == store.get_tag(other, tag)
            &&& forall|other: Seq<u8>| other != token ==> #[trigger] after.delete(other) == store.delete(other).put(
                token,
                owner,
                seq![(name, value)],
                ttl,
                now,
            )
        }),
{
    let tags = seq![(name, value)];
    let cleared = store.delete(token);
    let inserted = Store {
        records: cleared.records.insert(token, Record { owner, expiry: expiry_of(now, ttl) }),
        tags: cleared.tags,
    };
    assert(tags.drop_last() =~= Seq::empty());
    assert(inserted.put_tags(token, tags.drop_last()) == inserted);
    let after = store.put(token, owner, tags, ttl, now);
    assert(after == inserted.put_tag(token, name, value));
    assert(after.records =~= store.records.insert(
        token,
        Record { owner, expiry: expiry_of(now, ttl) },
    ));
    assert forall|k: (Seq<u8>, Seq<char>)| #[trigger]
        after.tags.contains_key(k) implies after.records.contains_key(k.0) by {
        if k != (token, name) {
            assert(store.tags.contains_key(k));
        }
    }
    assert forall|other: Seq<u8>| other != token implies #[trigger] after.delete(other) == store.delete(
        other,
    ).put(token, owner, tags, ttl, now) by {
        let left = after.delete(other);
        let cleared2 = store.delete(other).delete(token);
        let inserted2 = Store {
            records: cleared2.records.insert(token, Record { owner, expiry: expiry_of(now, ttl) }),
            tags: cleared2.tags,
        };
        assert(inserted2.put_tags(token, tags.drop_last()) == inserted2);
        let right = store.delete(other).put(token, owner, tags, ttl, now);
        assert(right == inserted2.put_tag(token, name, value));
        assert(left.records =~= right.records);
        assert(left.tags =~= right.tags);
    }
}

/// A user logs in with the credentials it has, and with no others: for a
/// user of the name, the credentials name it exactly when it is enabled and
/// its stored hash is one of the password.
pub proof fn lemma_check_password(users: Users, id: UserId, username: Seq<char>, password: Seq<char>)
    requires
        users.wf(),
        users.is_named(id, username),
    ensures
        users.check_password(username, password) == if users.accounts[id].enabled && accepts(
            password,
            users.accounts[id].password_hash,
        ) {
            Some(UserView { id, username })
        } else {
            None
        },
{
    lemma_id_of(users, id, username);
}

/// For every registered pair of username and password, logging in with
/// that pair names the registered user; and a password that the stored hash
/// is no hash of names nobody.
pub proof fn lemma_registered_user_logs_in(
    before: Users,
    after: Users,
    id: UserId,
    username: Seq<char>,
    password: Seq<char>,
    wrong: Seq<char>,
)
    requires
        before.wf(),
        before.created(after, id, username, password),
    ensures
        after.wf(),
        after.check_password(username, password) == Some(UserView { id, username }),
        after.get(id) == Some(UserView { id, username }),
        !accepts(wrong, after.accounts[id].password_hash) ==> after.check_password(
            username,
            wrong,
        ) is None,
{
    assert forall|a: UserId, b: UserId|
        #![trigger after.accounts[a], after.accounts[b]]
        after.accounts.contains_key(a) && after.accounts.contains_key(b) && after.accounts[a].username
            == after.accounts[b].username implies a == b by {
        if a != b {
            if a == id {
                assert(before.is_named(b, username));
            } else if b == id {
                assert(before.is_named(a, username));
            } else {
                assert(before.accounts[a].username == before.accounts[b].username);
            }
        }
    }
    lemma_check_password(after, id, username, password);
    lemma_check_password(after, id, username, wrong);
}

/// The user that credentials name is a user of the store.
pub proof fn lemma_login_user_exists(users: Users, username: Seq<char>, password: Seq<char>)
    requires
        users.wf(),
        users.check_password(username, password) is Some,
    ensures
        users.get(users.check_password(username, password).unwrap().id)
            == users.check_password(username, password),
{
    let id = users.id_of(username);
    assert(users.is_named(id, username));
}

/// After a pair of tokens was issued to a user, the access token stands
/// for that user and the refresh token can be exchanged for it, each for
/// as long as it lives; and the two tokens are tagged with each other.
pub proof fn lemma_issued_pair(
    state: State,
    owner: UserId,
    auth: Seq<u8>,
    refresh: Seq<u8>,
    auth_ttl: Option<u64>,
    refresh_ttl: Option<u64>,
    now: Timestamp,
    later: Timestamp,
)
    requires
        state.wf(),
    ensures
        state.issued(owner, auth, refresh, auth_ttl, refresh_ttl, now).wf(),
        is_pair(state.issued(owner, auth, refresh, auth_ttl, refresh_ttl, now), auth, refresh),
        is_live(now, auth_ttl, later) ==> state.issued(
            owner,
            auth,
            refresh,
            auth_ttl,
            refresh_ttl,
            now,
        ).whoami(auth, later) == state.users.get(owner),
        is_live(now, refresh_ttl, later) ==> state.issued(
            owner,
            auth,
            refresh,
            auth_ttl,
            refresh_ttl,
            now,
        ).refresh_owner(refresh, later) == Some(owner),
{
    lemma_put_one_tag(state.auth, auth, owner, REFRESH_TOKEN_TAG@, refresh, auth_ttl, now);
    lemma_put_one_tag(state.refresh, refresh, owner, AUTH_TOKEN_TAG@, auth, refresh_ttl, now);
}

/// After a login, the access token stands for the user that logged in, for
/// as long as the token lives.
pub proof fn lemma_whoami_after_login(
    state: State,
    username: Seq<char>,
    password: Seq<char>,
    auth: Seq<u8>,
    refresh: Seq<u8>,
    auth_ttl: Option<u64>,
    refresh_ttl: Option<u64>,
    now: Timestamp,
    later: Timestamp,
)
    requires
        state.wf(),
        state.login_user(username, password) is Some,
        is_live(now, auth_ttl, later),
    ensures
        state.issued(
            state.login_user(username, password).unwrap().id,
            auth,
            refresh,
            auth_ttl,
            refresh_ttl,
            now,
        ).whoami(auth, later) == state.login_user(username, password),
{
    let user = state.login_user(username, password).unwrap();
    lemma_login_user_exists(state.users, username, password);
    lemma_issued_pair(state, user.id, auth, refresh, auth_ttl, refresh_ttl, now, later);
}

/// After a logout, the access token stands for nobody, at any time; and
/// the refresh token that it was paired with can no longer be exchanged.
pub proof fn lemma_whoami_after_logout(state: State, auth: Seq<u8>, refresh: Seq<u8>, later: Timestamp)
    ensures
        state.logged_out(auth).whoami(auth, later) is None,
        is_pair(state, auth, refresh) ==> state.logged_out(auth).refresh_owner(refresh, later) is None,
{
}

/// Logging out twice comes to the same as logging out once.
pub proof fn lemma_logout_is_idempotent(state: State, auth: Seq<u8>)
    requires
        state.wf(),
    ensures
        state.logged_out(auth).logged_out(auth) == state.logged_out(auth),
{
    let once = state.logged_out(auth);
    let twice = once.logged_out(auth);
    assert(once.auth.get_tag(auth, REFRESH_TOKEN_TAG@) is None);
    assert(twice.auth.records =~= once.auth.records);
    assert(twice.auth.tags =~= once.auth.tags);
}

/// After a refresh, the old access token stands for nobody, the old
/// refresh token can no longer be exchanged, and the new access token
/// stands for the same user for as long as it lives.
pub proof fn lemma_refresh_rotates(
    state: State,
    indexed: bool,
    owner: UserId,
    old_auth: Seq<u8>,
    old_refresh: Seq<u8>,
    new_auth: Seq<u8>,
    new_refresh: Seq<u8>,
    auth_ttl: Option<u64>,
    refresh_ttl: Option<u64>,
    now: Timestamp,
    later: Timestamp,
)
    requires
        state.wf(),
        is_pair(state, old_auth, old_refresh),
        new_auth != old_auth,
        new_refresh != old_refresh,
    ensures
        ({
            let rotated = state.revoked(old_refresh, indexed).issued(
                owner,
                new_auth,
                new_refresh,
                auth_ttl,
                refresh_ttl,
                now,
            );
            &&& rotated.whoami(old_auth, later) is None
            &&& rotated.refresh_owner(old_refresh, later) is None
            &&& is_live(now, auth_ttl, later) ==> rotated.whoami(new_auth, later)
                == state.users.get(owner)
            &&& is_pair(rotated, new_auth, new_refresh)
        }),
{
    let revoked = state.revoked(old_refresh, indexed);
    assert(!revoked.auth.holds(old_auth));
    assert(!revoked.refresh.holds(old_refresh));
    assert forall|k: (Seq<u8>, Seq<char>)| #[trigger]
        revoked.auth.tags.contains_key(k) implies revoked.auth.records.contains_key(k.0) by {
        assert(state.auth.tags.contains_key(k));
    }
    assert forall|k: (Seq<u8>, Seq<char>)| #[trigger]
        revoked.refresh.tags.contains_key(k) implies revoked.refresh.records.contains_key(k.0) by {
        assert(state.refresh.tags.contains_key(k));
    }
    lemma_put_one_tag(revoked.auth, new_auth, owner, REFRESH_TOKEN_TAG@, new_refresh, auth_ttl, now);
    lemma_put_one_tag(
        revoked.refresh,
        new_refresh,
        owner,
        AUTH_TOKEN_TAG@,
        new_auth,
        refresh_ttl,
        now,
    );
}

/// A record inserted with a time to live that has run out is unreadable at
/// the very next read: the read reports it expired and removes it, so
/// that it stands for nobody then and is missing ever after.
pub proof fn lemma_expired_is_unreadable(
    store: Store,
    users: Users,
    token: Seq<u8>,
    owner: UserId,
    tags: Seq<(Seq<char>, Seq<u8>)>,
    ttl: u64,
    now: Timestamp,
    later: Timestamp,
    after: Timestamp,
)
    requires
        later.nanos > instant_after(now, ttl).nanos,
    ensures
        ({
            let inserted = store.put(token, owner, tags, Some(ttl), now);
            &&& inserted.lookup(token, later) is Expired
            &&& crate::controllers::whoami::resolve(inserted, users, token, later) is None
            &&& inserted.after_lookup(token, later).lookup(token, after) is Missing
        }),
{
    let cleared = store.delete(token);
    let base = Store {
        records: cleared.records.insert(
            token,
            Record { owner, expiry: expiry_of(now, Some(ttl)) },
        ),
        tags: cleared.tags,
    };
    lemma_put_tags_records(base, token, tags);
}

/// Two logins of one user give two sessions that stand side by side: both
/// access tokens stand for the user, and logging one out leaves the other
/// standing.
pub proof fn lemma_sessions_are_independent(
    state: State,
    owner: UserId,
    first_auth: Seq<u8>,
    first_refresh: Seq<u8>,
    second_auth: Seq<u8>,
    second_refresh: Seq<u8>,
    now: Timestamp,
    later: Timestamp,
)
    requires
        state.wf(),
        first_auth != second_auth,
        first_refresh != second_refresh,
    ensures
        ({
            let both = state.issued(owner, first_auth, first_refresh, None, None, now).issued(
                owner,
                second_auth,
                second_refresh,
                None,
                None,
                now,
            );
            &&& both.whoami(first_auth, later) == state.users.get(owner)
            &&& both.whoami(second_auth, later) == state.users.get(owner)
            &&& both.logged_out(first_auth).whoami(first_auth, later) is None
            &&& both.logged_out(first_auth).whoami(second_auth, later) == state.users.get(
                owner,
            )
            &&& both.logged_out(first_auth).refresh_owner(second_refresh, later) == Some(
                owner,
            )
            &&& both.logged_out(first_auth).refresh_owner(first_refresh, later) is None
        }),
{
    let one = state.issued(owner, first_auth, first_refresh, None, None, now);
    lemma_put_one_tag(state.auth, first_auth, owner, REFRESH_TOKEN_TAG@, first_refresh, None, now);
    lemma_put_one_tag(state.refresh, first_refresh, owner, AUTH_TOKEN_TAG@, first_auth, None, now);
    lemma_put_one_tag(one.auth, second_auth, owner, REFRESH_TOKEN_TAG@, second_refresh, None, now);
    lemma_put_one_tag(one.refresh, second_refresh, owner, AUTH_TOKEN_TAG@, second_auth, None, now);
    let both = one.issued(owner, second_auth, second_refresh, None, None, now);
    assert(both.auth.get_tag(first_auth, REFRESH_TOKEN_TAG@) == one.auth.get_tag(
        first_auth,
        REFRESH_TOKEN_TAG@,
    ));
}

} // verus!
