//! The token store.

use vstd::prelude::*;

pub mod cache;
pub mod interface;
pub mod memory;

pub use interface::{Error, Interface, Result};

verus! {

/// The in-memory backend of the token store.
pub type Memory<Token> = memory::TokenRepo<Token>;

/// The planning half of the cache backend of the token store.
pub type Cache = cache::TokenRepo;

/// The token store of the library's own backends.
pub type TokenRepo<Token> = memory::TokenRepo<Token>;

} // verus!
