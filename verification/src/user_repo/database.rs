//! The credential store on a relational database, as far as it can be
//! decided without talking to the database: which rows an operation asks
//! for, what it writes, and what each answer comes to.

use crate::crypto::password::{hash_password, verify_password};
use crate::database::{text_view, Error as DatabaseError, Filter, Model, Write};
use crate::user_repo::id::UserId;
use crate::user_repo::interface::{
    accepts, user_view, CreateUser, Error, Result, UpdateUser, User, UserView,
};
use vstd::prelude::*;

verus! {

/// The user that a row and a password log in: the row's user where there
/// is a row, it is enabled, and its hash is one of the password.
pub open spec fn row_login(row: Option<Model>, password: Seq<char>) -> Option<UserView> {
    match row {
        Some(row) => if row.is_enabled && accepts(password, row.password_hash@) {
            Some(UserView { id: row.id, username: row.username@ })
        } else {
            None
        },
        None => None,
    }
}

/// The user of a row.
pub open spec fn row_user(row: Option<Model>) -> Option<UserView> {
    match row {
        Some(row) => Some(UserView { id: row.id, username: row.username@ }),
        None => None,
    }
}

/// The error of the credential store for a failure of the database: a
/// broken unique constraint means that the username is taken; everything
/// else, that the store is not available.
pub fn failure(reported: &DatabaseError) -> (e: Error)
    ensures
        e == if reported is UniqueViolation {
            Error::DuplicateUsername
        } else {
            Error::NotAvailable
        },
{
    match reported {
        DatabaseError::UniqueViolation(_) => Error::DuplicateUsername,
        _ => Error::NotAvailable,
    }
}

/// The rows to read for the user with the username `username`.
pub fn by_username(username: &str) -> (filter: Filter)
    ensures
        filter.id is None,
        text_view(filter.username) == Some(username@),
        filter.is_enabled is None,
{
    Filter::new().username(username.to_owned())
}

/// The rows to read for the user with the id `id`.
pub fn by_id(id: UserId) -> (filter: Filter)
    ensures
        filter.id == Some(id),
        filter.username is None,
        filter.is_enabled is None,
{
    Filter::new().id(id)
}

/// Decides a login from the row that was read for the username: an
/// unknown name, a wrong password and a disabled user all give `None`. A
/// stored hash that cannot be read counts as a wrong password.
pub fn check_password(row: Option<Model>, password: &str) -> (user: Option<User>)
    ensures
        user_view(user) == row_login(row, password@),
{
    let row = match row {
        Some(row) => row,
        None => { return None; },
    };
    if !row.is_enabled {
        return None;
    }
    let valid = match verify_password(password.as_bytes(), row.password_hash.as_str()) {
        Ok(valid) => valid,
        Err(_) => false,
    };
    if valid {
        Some(User { id: row.id, username: row.username })
    } else {
        None
    }
}

/// The user of the row that was read, if one was.
pub fn found(row: Option<Model>) -> (user: Option<User>)
    ensures
        user_view(user) == row_user(row),
{
    match row {
        Some(row) => Some(User { id: row.id, username: row.username }),
        None => None,
    }
}

/// What to write for a new user: the username, a hash of the password,
/// and the enabled status set. Fails with `NotAvailable` where the password
/// cannot be hashed.
pub fn create(user: &CreateUser) -> (r: Result<Write>)
    ensures
        match r {
            Ok(write) => {
                &&& text_view(write.username) == Some(user.username@)
                &&& write.password_hash matches Some(hash)
                &&& accepts(user.password@, hash@)
                &&& write.is_enabled == Some(true)
            },
            Err(e) => e is NotAvailable,
        },
{
    let hashed = hash_password(user.password.as_bytes());
    create_hashed(user, hashed)
}

/// What to write for a new user once the hash engine has answered: the
/// username, the hash that it made, and the enabled status set; or
/// `NotAvailable` where it made none.
pub fn create_hashed(user: &CreateUser, hashed: crate::crypto::Result<String>) -> (r: Result<Write>)
    ensures
        match hashed {
            Ok(hash) => {
                &&& r matches Ok(write)
                &&& text_view(write.username) == Some(user.username@)
                &&& text_view(write.password_hash) == Some(hash@)
                &&& write.is_enabled == Some(true)
            },
            Err(_) => r matches Err(e) && e is NotAvailable,
        },
{
    let password_hash = match hashed {
        Ok(hash) => hash,
        Err(_) => { return Err(Error::NotAvailable); },
    };
    Ok(Write::new().username(user.username.to_owned()).password_hash(password_hash).enabled(true))
}

/// What to write for a new password: a hash of it, and nothing else. Fails
/// with `NotAvailable` where the password cannot be hashed.
pub fn update_password(password: &str) -> (r: Result<Write>)
    ensures
        match r {
            Ok(write) => {
                &&& write.username is None
                &&& write.password_hash matches Some(hash)
                &&& accepts(password@, hash@)
                &&& write.is_enabled is None
            },
            Err(e) => e is NotAvailable,
        },
{
    let hashed = hash_password(password.as_bytes());
    update_password_hashed(hashed)
}

/// What to write for a new password once the hash engine has answered:
/// the hash that it made, and nothing else; or `NotAvailable` where it
/// made none.
pub fn update_password_hashed(hashed: crate::crypto::Result<String>) -> (r: Result<Write>)
    ensures
        match hashed {
            Ok(hash) => {
                &&& r matches Ok(write)
                &&& write.username is None
                &&& text_view(write.password_hash) == Some(hash@)
                &&& write.is_enabled is None
            },
            Err(_) => r matches Err(e) && e is NotAvailable,
        },
{
    let password_hash = match hashed {
        Ok(hash) => hash,
        Err(_) => { return Err(Error::NotAvailable); },
    };
    Ok(Write::new().password_hash(password_hash))
}

/// What to write for an update: the username and the enabled status, each
/// where it is given.
pub fn update(user: &UpdateUser) -> (write: Write)
    ensures
        text_view(write.username) == text_view(user.username),
        write.password_hash is None,
        write.is_enabled == user.enabled,
{
    let write = Write::new();
    let write = match &user.username {
        Some(username) => write.username(username.clone()),
        None => write,
    };
    match user.enabled {
        Some(flag) => write.enabled(flag),
        None => write,
    }
}

} // verus!
