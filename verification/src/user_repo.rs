//! The credential store.

use vstd::prelude::*;

pub mod database;
pub mod id;
pub mod interface;
pub mod memory;

pub use id::UserId;
pub use interface::{CreateUser, Error, Interface, Result, UpdateUser, User};

verus! {

/// The in-memory backend of the credential store.
pub type Memory = memory::Repo;

/// The credential store of the library's own backends.
pub type Repo = memory::Repo;

} // verus!
