//! The in-memory credential store: a hash map from the number of a user's
//! id to the user's account.

use crate::crypto::password::{hash_password, verify_password};
use crate::text::str_equal;
use crate::user_repo::id::UserId;
use crate::user_repo::interface::{
    lemma_id_of, Account, CreateUser, Error, Interface, Result, UpdateUser, User, UserView, Users,
};
use std::collections::HashMap;
use vstd::prelude::*;
use vstd::std_specs::hash::group_hash_axioms;

verus! {

/// An account of the store.
pub struct Record {
    username: String,
    password: String,
    enabled: bool,
}

/// A credential store that keeps all users in memory.
pub struct Repo {
    users: HashMap<u128, Record>,
}

/// What a record holds.
pub closed spec fn account_of(record: Record) -> Account {
    Account { username: record.username@, password_hash: record.password@, enabled: record.enabled }
}

/// The accounts of a map of records, by id.
pub closed spec fn accounts_of(users: Map<u128, Record>) -> Map<UserId, Account> {
    Map::new(|id: UserId| users.contains_key(id.0), |id: UserId| account_of(users[id.0]))
}

/// No username occurs twice.
pub closed spec fn distinct_names(users: Map<u128, Record>) -> bool {
    forall|a: u128, b: u128|
        #![trigger users[a], users[b]]
        users.contains_key(a) && users.contains_key(b) && users[a].username@ == users[b].username@
            ==> a == b
}

/// The accounts of a map with one record put in are the accounts of the map
/// with that record's account put in.
proof fn lemma_accounts_insert(users: Map<u128, Record>, id: u128, record: Record)
    ensures
        accounts_of(users.insert(id, record)) == accounts_of(users).insert(
            UserId(id),
            account_of(record),
        ),
{
    assert(accounts_of(users.insert(id, record)) =~= accounts_of(users).insert(
        UserId(id),
        account_of(record),
    ));
}

/// The accounts of a map with one record taken out are the accounts of the
/// map with that account taken out.
proof fn lemma_accounts_remove(users: Map<u128, Record>, id: u128)
    ensures
        accounts_of(users.remove(id)) == accounts_of(users).remove(UserId(id)),
        distinct_names(users) ==> distinct_names(users.remove(id)),
{
    assert(accounts_of(users.remove(id)) =~= accounts_of(users).remove(UserId(id)));
}

/// A record whose name no other record has keeps the names distinct.
proof fn lemma_distinct_insert(users: Map<u128, Record>, id: u128, record: Record)
    requires
        distinct_names(users),
        forall|other: u128|
            users.contains_key(other) && other != id ==> (#[trigger] users[other]).username@
                != record.username@,
    ensures
        distinct_names(users.insert(id, record)),
{
    let after = users.insert(id, record);
    assert forall|a: u128, b: u128|
        #![trigger after[a], after[b]]
        after.contains_key(a) && after.contains_key(b) && after[a].username@
            == after[b].username@ implies a == b by {
        if a != id && b != id {
            assert(users[a].username@ == users[b].username@);
        } else if a != id {
            assert(users[a].username@ != record.username@);
        } else if b != id {
            assert(users[b].username@ != record.username@);
        }
    }
}

impl Repo {
    /// What the store holds.
    pub closed spec fn view_model(&self) -> Users {
        Users { accounts: accounts_of(self.users@) }
    }

    /// No username occurs twice.
    pub closed spec fn well_formed(&self) -> bool {
        distinct_names(self.users@)
    }

    /// A store without users.
    pub fn new() -> (repo: Self)
        ensures
            repo.inv(),
            repo.model() == Users::empty(),
    {
        broadcast use group_hash_axioms;

        let repo = Repo { users: HashMap::new() };
        assert(repo.view_model().accounts =~= Map::empty());
        repo
    }

    /// A store in memory without users.
    pub fn memory() -> (repo: Self)
        ensures
            repo.inv(),
            repo.model() == Users::empty(),
    {
        Self::new()
    }

    /// The record under `id` is the model's account of that user, and the
    /// user is the model's user of its name.
    proof fn lemma_account(&self, id: u128)
        requires
            self.well_formed(),
            self.users@.contains_key(id),
        ensures
            self.view_model().wf(),
            self.view_model().accounts.contains_key(UserId(id)),
            self.view_model().accounts[UserId(id)] == account_of(self.users@[id]),
            self.view_model().has_username(self.users@[id].username@),
            self.view_model().id_of(self.users@[id].username@) == UserId(id),
    {
        self.lemma_wf();
        lemma_id_of(self.view_model(), UserId(id), self.users@[id].username@);
    }

    /// The model of a store in order holds no username twice.
    proof fn lemma_wf(&self)
        requires
            self.well_formed(),
        ensures
            self.view_model().wf(),
    {
        let model = self.view_model();
        assert forall|a: UserId, b: UserId|
            #![trigger model.accounts[a], model.accounts[b]]
            model.accounts.contains_key(a) && model.accounts.contains_key(b)
                && model.accounts[a].username == model.accounts[b].username implies a == b by {
            assert(self.users@[a.0].username@ == self.users@[b.0].username@);
        }
    }

    /// No record has a name that the model does not know.
    proof fn lemma_unknown_name(&self, username: Seq<char>)
        requires
            self.well_formed(),
            !self.view_model().has_username(username),
        ensures
            forall|id: u128|
                self.users@.contains_key(id) ==> (#[trigger] self.users@[id]).username@ != username,
    {
        assert forall|id: u128| self.users@.contains_key(id) implies (
        #[trigger] self.users@[id]).username@ != username by {
            self.lemma_account(id);
        }
    }

    /// The id of the account with the username `username`, if there is one.
    fn find_username(&self, username: &str) -> (found: Option<u128>)
        requires
            self.well_formed(),
        ensures
            match found {
                Some(id) => self.users@.contains_key(id) && self.users@[id].username@ == username@,
                None => !self.view_model().has_username(username@),
            },
    {
        broadcast use group_hash_axioms;

        for pair in iter: self.users.iter()
            invariant
                forall|i: int| 0 <= i < iter.index() ==> (*iter.seq()[i].1).username@ != username@,
        {
            let (id, record) = pair;
            if str_equal(record.username.as_str(), username) {
                return Some(*id);
            }
        }
        proof {
            let model = self.view_model();
            if model.has_username(username@) {
                let id = model.id_of(username@);
                assert(model.is_named(id, username@));
                assert(self.users@.contains_key(id.0));
                assert(self.users@[id.0].username@ == username@);
            }
        }
        None
    }

    /// Adds an enabled account for the user `id` with the name `username`
    /// and the stored password hash `password_hash`.
    ///
    /// Fails, changing nothing, with `DuplicateUsername` where the name is
    /// taken, and with `CreateFailed` where the name is free and the id is
    /// in use.
    pub fn insert(&mut self, id: UserId, username: &str, password_hash: String) -> (r: Result<UserId>)
        requires
            old(self).inv(),
        ensures
            final(self).inv(),
            match r {
                Ok(inserted) => {
                    &&& inserted == id
                    &&& !old(self).model().has_username(username@)
                    &&& !old(self).model().accounts.contains_key(id)
                    &&& final(self).model() == old(self).model().with_account(
                        id,
                        Account { username: username@, password_hash: password_hash@, enabled: true },
                    )
                },
                Err(e) => {
                    &&& final(self).model() == old(self).model()
                    &&& if old(self).model().has_username(username@) {
                        e == Error::DuplicateUsername
                    } else {
                        e == Error::CreateFailed && old(self).model().accounts.contains_key(id)
                    }
                },
            },
    {
        broadcast use group_hash_axioms;

        match self.find_username(username) {
            Some(taken) => {
                proof {
                    self.lemma_account(taken);
                }
                return Err(Error::DuplicateUsername);
            },
            None => {},
        }
        if self.users.contains_key(&id.0) {
            return Err(Error::CreateFailed);
        }
        let record = Record { username: username.to_owned(), password: password_hash, enabled: true };
        proof {
            self.lemma_unknown_name(username@);
            lemma_distinct_insert(self.users@, id.0, record);
            lemma_accounts_insert(self.users@, id.0, record);
        }
        self.users.insert(id.0, record);
        Ok(id)
    }

    /// Stores `password_hash` as the password hash of the user `id` and
    /// tells whether there is such a user; where there is none, nothing
    /// changes.
    pub fn set_password_hash(&mut self, id: UserId, password_hash: String) -> (stored: bool)
        requires
            old(self).inv(),
        ensures
            final(self).inv(),
            stored == old(self).model().accounts.contains_key(id),
            final(self).model() == old(self).model().with_password_hash(id, password_hash@),
    {
        broadcast use group_hash_axioms;

        let record = match self.users.get(&id.0) {
            Some(held) => Record {
                username: held.username.clone(),
                password: password_hash,
                enabled: held.enabled,
            },
            None => { return false; },
        };
        proof {
            self.lemma_account(id.0);
            assert forall|other: u128|
                self.users@.contains_key(other) && other != id.0 implies (
            #[trigger] self.users@[other]).username@ != record.username@ by {
                self.lemma_account(other);
            }
            lemma_distinct_insert(self.users@, id.0, record);
            lemma_accounts_insert(self.users@, id.0, record);
        }
        self.users.insert(id.0, record);
        true
    }

    /// The user `id` with the name of `record`.
    fn user_of(id: u128, record: &Record) -> (user: User)
        ensures
            user@ == (UserView { id: UserId(id), username: record.username@ }),
    {
        User { id: UserId(id), username: record.username.clone() }
    }
}

impl Default for Repo {
    fn default() -> (repo: Self)
        ensures
            repo.inv(),
            repo.model() == Users::empty(),
    {
        Repo::new()
    }
}

impl Interface for Repo {
    closed spec fn model(&self) -> Users {
        self.view_model()
    }

    closed spec fn inv(&self) -> bool {
        self.well_formed()
    }

    open spec fn reliable(&self) -> bool {
        true
    }

    proof fn lemma_inv(&self) {
        self.lemma_wf();
    }

    fn check_password(&self, username: &str, password: &str) -> (r: Result<Option<User>>)
        ensures
            r is Ok,
    {
        broadcast use group_hash_axioms;

        let id = match self.find_username(username) {
            Some(id) => id,
            None => { return Ok(None); },
        };
        proof {
            self.lemma_account(id);
        }
        let record = match self.users.get(&id) {
            Some(record) => record,
            None => { return Ok(None); },
        };
        if !record.enabled {
            return Ok(None);
        }
        let valid = match verify_password(password.as_bytes(), record.password.as_str()) {
            Ok(valid) => valid,
            Err(_) => false,
        };
        if valid {
            Ok(Some(Self::user_of(id, record)))
        } else {
            Ok(None)
        }
    }

    fn update_password(&mut self, id: UserId, password: &str) -> (r: Result<()>)
        ensures
            !old(self).model().accounts.contains_key(id) ==> r is Ok,
            r matches Err(e) ==> e is NotAvailable,
    {
        broadcast use group_hash_axioms;

        if !self.users.contains_key(&id.0) {
            return Ok(());
        }
        let hash = match hash_password(password.as_bytes()) {
            Ok(hash) => hash,
            Err(_) => { return Err(Error::NotAvailable); },
        };
        self.set_password_hash(id, hash);
        Ok(())
    }

    fn create(&mut self, user: &CreateUser) -> (r: Result<UserId>)
        ensures
            r matches Err(e) ==> e is DuplicateUsername || e is NotAvailable || e is CreateFailed,
    {
        match self.find_username(user.username) {
            Some(taken) => {
                proof {
                    self.lemma_account(taken);
                }
                return Err(Error::DuplicateUsername);
            },
            None => {},
        }
        let hash = match hash_password(user.password.as_bytes()) {
            Ok(hash) => hash,
            Err(_) => { return Err(Error::NotAvailable); },
        };
        let id = match UserId::generate() {
            Ok(id) => id,
            Err(_) => { return Err(Error::NotAvailable); },
        };
        self.insert(id, user.username, hash)
    }

    fn get(&self, id: UserId) -> (r: Result<Option<User>>)
        ensures
            r is Ok,
    {
        broadcast use group_hash_axioms;

        match self.users.get(&id.0) {
            Some(record) => {
                proof {
                    self.lemma_account(id.0);
                }
                Ok(Some(Self::user_of(id.0, record)))
            },
            None => Ok(None),
        }
    }

    fn get_by_username(&self, username: &str) -> (r: Result<Option<User>>)
        ensures
            r is Ok,
    {
        broadcast use group_hash_axioms;

        let id = match self.find_username(username) {
            Some(id) => id,
            None => { return Ok(None); },
        };
        proof {
            self.lemma_account(id);
        }
        match self.users.get(&id) {
            Some(record) => Ok(Some(Self::user_of(id, record))),
            None => Ok(None),
        }
    }

    fn delete(&mut self, id: UserId) -> (r: Result<()>)
        ensures
            r is Ok,
    {
        broadcast use group_hash_axioms;

        proof {
            lemma_accounts_remove(self.users@, id.0);
        }
        self.users.remove(&id.0);
        Ok(())
    }

    fn update(&mut self, id: UserId, user: &UpdateUser) -> (r: Result<()>)
        ensures
            r matches Err(e) ==> e is DuplicateUsername,
    {
        broadcast use group_hash_axioms;

        let (held_name, password, held_enabled) = match self.users.get(&id.0) {
            Some(held) => (held.username.clone(), held.password.clone(), held.enabled),
            None => { return Ok(()); },
        };
        proof {
            self.lemma_account(id.0);
        }
        let username = match &user.username {
            Some(name) => {
                match self.find_username(name.as_str()) {
                    Some(taken) => {
                        proof {
                            self.lemma_account(taken);
                        }
                        if taken != id.0 {
                            return Err(Error::DuplicateUsername);
                        }
                    },
                    None => {},
                }
                name.clone()
            },
            None => held_name,
        };
        let enabled = match user.enabled {
            Some(flag) => flag,
            None => held_enabled,
        };
        let record = Record { username, password, enabled };
        proof {
            assert forall|other: u128|
                self.users@.contains_key(other) && other != id.0 implies (
            #[trigger] self.users@[other]).username@ != record.username@ by {
                self.lemma_account(other);
            }
            lemma_distinct_insert(self.users@, id.0, record);
            lemma_accounts_insert(self.users@, id.0, record);
        }
        self.users.insert(id.0, record);
        Ok(())
    }
}

} // verus!
