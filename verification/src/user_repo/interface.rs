//! The credential store: its errors, its model, and what every backend
//! offers.

use crate::crypto::password::verify_spec;
use crate::user_repo::id::UserId;
use vstd::prelude::*;
use vstd::utf8::encode_utf8;

verus! {

/// Why a credential store did not answer.
#[derive(Debug, Clone, Copy, PartialEq, Eq, Structural)]
pub enum Error {
    /// The storage, or the hash engine behind it, failed.
    NotAvailable,
    /// The user could not be created.
    CreateFailed,
    /// The user could not be deleted.
    DeleteFailed,
    /// No user has the id.
    UserNotFound,
    /// Another user has the username.
    DuplicateUsername,
}

/// The result type of the credential store.
pub type Result<T> = core::result::Result<T, Error>;

/// A user as the store reports it.
#[derive(Debug)]
pub struct User {
    /// The id of the user.
    pub id: UserId,
    /// The username of the user.
    pub username: String,
}

/// A user as the model sees it.
pub struct UserView {
    /// The id of the user.
    pub id: UserId,
    /// The username of the user.
    pub username: Seq<char>,
}

impl View for User {
    type V = UserView;

    open spec fn view(&self) -> UserView {
        UserView { id: self.id, username: self.username@ }
    }
}

/// What is to change about a user; what is `None` stays.
pub struct UpdateUser {
    /// The new username.
    pub username: Option<String>,
    /// Whether the user may log in from now on.
    pub enabled: Option<bool>,
}

/// What is needed to create a user.
pub struct CreateUser<'a> {
    /// The username.
    pub username: &'a str,
    /// The password, in the clear; it is hashed before it is stored.
    pub password: &'a str,
}

/// What a store holds for one user.
pub struct Account {
    /// The username, which no other user has.
    pub username: Seq<char>,
    /// The hash of the password, as a PHC string.
    pub password_hash: Seq<char>,
    /// Whether the user may log in.
    pub enabled: bool,
}

/// Whether the stored `password_hash` is a hash of `password`.
pub open spec fn accepts(password: Seq<char>, password_hash: Seq<char>) -> bool {
    verify_spec(encode_utf8(password), password_hash) == Some(true)
}

/// The user of an optional report, as the model sees it.
pub open spec fn user_view(user: Option<User>) -> Option<UserView> {
    match user {
        Some(user) => Some(user@),
        None => None,
    }
}

/// The new username of an update, as the model sees it.
pub open spec fn update_username(updates: UpdateUser) -> Option<Seq<char>> {
    match updates.username {
        Some(username) => Some(username@),
        None => None,
    }
}

/// The model of a credential store: the account of each user, by id.
pub struct Users {
    /// The account of each user.
    pub accounts: Map<UserId, Account>,
}

impl Users {
    /// The store without users.
    pub open spec fn empty() -> Users {
        Users { accounts: Map::empty() }
    }

    /// No two users have one username.
    pub open spec fn wf(self) -> bool {
        forall|a: UserId, b: UserId|
            #![trigger self.accounts[a], self.accounts[b]]
            self.accounts.contains_key(a) && self.accounts.contains_key(b)
                && self.accounts[a].username == self.accounts[b].username ==> a == b
    }

    /// Whether `id` is a user and has the username `username`.
    pub open spec fn is_named(self, id: UserId, username: Seq<char>) -> bool {
        self.accounts.contains_key(id) && self.accounts[id].username == username
    }

    /// Whether some user has the username `username`.
    pub open spec fn has_username(self, username: Seq<char>) -> bool {
        exists|id: UserId| self.is_named(id, username)
    }

    /// The user that has the username `username`.
    pub open spec fn id_of(self, username: Seq<char>) -> UserId {
        choose|id: UserId| self.is_named(id, username)
    }

    /// The user with the id `id`, if there is one.
    pub open spec fn get(self, id: UserId) -> Option<UserView> {
        if self.accounts.contains_key(id) {
            Some(UserView { id, username: self.accounts[id].username })
        } else {
            None
        }
    }

    /// The user with the username `username`, if there is one.
    pub open spec fn get_by_username(self, username: Seq<char>) -> Option<UserView> {
        if self.has_username(username) {
            Some(UserView { id: self.id_of(username), username })
        } else {
            None
        }
    }

    /// The user that `username` and `password` log in: the one of that name,
    /// if there is one, it is enabled and its stored hash is one of
    /// `password`.
    pub open spec fn check_password(self, username: Seq<char>, password: Seq<char>) -> Option<
        UserView,
    > {
        if self.has_username(username) && self.accounts[self.id_of(username)].enabled && accepts(
            password,
            self.accounts[self.id_of(username)].password_hash,
        ) {
            Some(UserView { id: self.id_of(username), username })
        } else {
            None
        }
    }

    /// Whether `after` is this store with the new user `id` added: enabled,
    /// named `username`, and with a stored hash of `password`.
    pub open spec fn created(
        self,
        after: Users,
        id: UserId,
        username: Seq<char>,
        password: Seq<char>,
    ) -> bool {
        &&& !self.has_username(username)
        &&& !self.accounts.contains_key(id)
        &&& after.accounts.contains_key(id)
        &&& after.accounts == self.accounts.insert(id, after.accounts[id])
        &&& after.accounts[id].username == username
        &&& after.accounts[id].enabled
        &&& accepts(password, after.accounts[id].password_hash)
    }

    /// Whether `after` is this store with the stored hash of the user `id`
    /// replaced by a hash of `password`; with no such user, the same store.
    pub open spec fn password_updated(self, after: Users, id: UserId, password: Seq<char>) -> bool {
        if self.accounts.contains_key(id) {
            &&& after.accounts.contains_key(id)
            &&& after.accounts == self.accounts.insert(id, after.accounts[id])
            &&& after.accounts[id].username == self.accounts[id].username
            &&& after.accounts[id].enabled == self.accounts[id].enabled
            &&& accepts(password, after.accounts[id].password_hash)
        } else {
            after == self
        }
    }

    /// The store with the account `account` for the user `id`.
    pub open spec fn with_account(self, id: UserId, account: Account) -> Users {
        Users { accounts: self.accounts.insert(id, account) }
    }

    /// The store with the stored hash of the user `id` replaced by
    /// `password_hash`; with no such user, the same store.
    pub open spec fn with_password_hash(self, id: UserId, password_hash: Seq<char>) -> Users {
        if self.accounts.contains_key(id) {
            self.with_account(
                id,
                Account {
                    username: self.accounts[id].username,
                    password_hash,
                    enabled: self.accounts[id].enabled,
                },
            )
        } else {
            self
        }
    }

    /// The store without the user `id`.
    pub open spec fn delete(self, id: UserId) -> Users {
        Users { accounts: self.accounts.remove(id) }
    }

    /// Whether giving the user `id` the username `username` would leave two
    /// users with one name.
    pub open spec fn rename_conflicts(self, id: UserId, username: Option<Seq<char>>) -> bool {
        &&& self.accounts.contains_key(id)
        &&& username matches Some(name)
        &&& self.has_username(name)
        &&& self.id_of(name) != id
    }

    /// The store after the user `id` was given what `username` and `enabled`
    /// hold; with no such user, the same store.
    pub open spec fn update(
        self,
        id: UserId,
        username: Option<Seq<char>>,
        enabled: Option<bool>,
    ) -> Users {
        if self.accounts.contains_key(id) {
            let account = self.accounts[id];
            Users {
                accounts: self.accounts.insert(
                    id,
                    Account {
                        username: match username {
                            Some(name) => name,
                            None => account.username,
                        },
                        password_hash: account.password_hash,
                        enabled: match enabled {
                            Some(flag) => flag,
                            None => account.enabled,
                        },
                    },
                ),
            }
        } else {
            self
        }
    }
}

/// Among users with distinct names, the user of a name is the one that has
/// it.
pub proof fn lemma_id_of(users: Users, id: UserId, username: Seq<char>)
    requires
        users.wf(),
        users.is_named(id, username),
    ensures
        users.has_username(username),
        users.id_of(username) == id,
{
    let found = users.id_of(username);
    assert(users.is_named(found, username));
}

/// What every backend of the credential store offers.
///
/// A backend is held to the model `Users`. One that can fail, because it
/// talks to an engine elsewhere, says so by `reliable() == false`; after a
/// failure nothing is known of what it holds. Hashing a password can fail in
/// every backend.
pub trait Interface: Sized {
    /// What the store holds.
    spec fn model(&self) -> Users;

    /// The store is in order.
    spec fn inv(&self) -> bool;

    /// The storage never fails.
    spec fn reliable(&self) -> bool;

    /// A store in order holds no username twice.
    proof fn lemma_inv(&self)
        requires
            self.inv(),
        ensures
            self.model().wf(),
    ;

    /// Looks for the user that `username` and `password` log in. An unknown
    /// name, a wrong password and a disabled user all give `None`.
    fn check_password(&self, username: &str, password: &str) -> (r: Result<Option<User>>)
        requires
            self.inv(),
        ensures
            match r {
                Ok(user) => user_view(user) == self.model().check_password(username@, password@),
                Err(_) => !self.reliable(),
            },
    ;

    /// Replaces the password of the user `id`: the new one is hashed, and
    /// the hash stored. Nothing happens where there is no such user.
    fn update_password(&mut self, id: UserId, password: &str) -> (r: Result<()>)
        requires
            old(self).inv(),
        ensures
            final(self).inv(),
            final(self).reliable() == old(self).reliable(),
            match r {
                Ok(()) => old(self).model().password_updated(final(self).model(), id, password@),
                Err(_) => old(self).reliable() ==> final(self).model() == old(self).model(),
            },
    ;

    /// Creates an enabled user with a fresh id; its password is hashed, and
    /// the hash stored. Fails with `DuplicateUsername`, changing nothing,
    /// where the name is taken.
    fn create(&mut self, user: &CreateUser) -> (r: Result<UserId>)
        requires
            old(self).inv(),
        ensures
            final(self).inv(),
            final(self).reliable() == old(self).reliable(),
            match r {
                Ok(id) => old(self).model().created(
                    final(self).model(),
                    id,
                    user.username@,
                    user.password@,
                ),
                Err(Error::DuplicateUsername) => {
                    &&& old(self).model().has_username(user.username@)
                    &&& final(self).model() == old(self).model()
                },
                Err(_) => old(self).reliable() ==> {
                    &&& !old(self).model().has_username(user.username@)
                    &&& final(self).model() == old(self).model()
                },
            },
    ;

    /// Reads the user with the id `id`.
    fn get(&self, id: UserId) -> (r: Result<Option<User>>)
        requires
            self.inv(),
        ensures
            match r {
                Ok(user) => user_view(user) == self.model().get(id),
                Err(_) => !self.reliable(),
            },
    ;

    /// Reads the user with the username `username`.
    fn get_by_username(&self, username: &str) -> (r: Result<Option<User>>)
        requires
            self.inv(),
        ensures
            match r {
                Ok(user) => user_view(user) == self.model().get_by_username(username@),
                Err(_) => !self.reliable(),
            },
    ;

    /// Removes the user `id`. Nothing happens where there is no such user.
    fn delete(&mut self, id: UserId) -> (r: Result<()>)
        requires
            old(self).inv(),
        ensures
            final(self).inv(),
            final(self).reliable() == old(self).reliable(),
            match r {
                Ok(()) => final(self).model() == old(self).model().delete(id),
                Err(_) => !old(self).reliable(),
            },
    ;

    /// Gives the user `id` what `user` holds. Nothing happens where there
    /// is no such user. Fails with `DuplicateUsername`, changing nothing,
    /// where another user has the new name.
    fn update(&mut self, id: UserId, user: &UpdateUser) -> (r: Result<()>)
        requires
            old(self).inv(),
        ensures
            final(self).inv(),
            final(self).reliable() == old(self).reliable(),
            match r {
                Ok(()) => {
                    &&& !old(self).model().rename_conflicts(id, update_username(*user))
                    &&& final(self).model() == old(self).model().update(
                        id,
                        update_username(*user),
                        user.enabled,
                    )
                },
                Err(Error::DuplicateUsername) => {
                    &&& old(self).model().rename_conflicts(id, update_username(*user))
                    &&& final(self).model() == old(self).model()
                },
                Err(_) => !old(self).reliable(),
            },
    ;
}

} // verus!
