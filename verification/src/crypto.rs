//! Cryptographic services: random bytes, digests, password hashing and
//! authenticated encryption.

pub mod encryption;
pub mod error;
pub mod hash;
pub mod password;
pub mod rand;

pub use encryption::Key;
pub use error::{Error, Result};
pub use hash::Sha256Hash;
pub use password::{hash_password, verify_password};
pub use rand::fill_bytes;
