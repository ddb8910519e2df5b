//! Failures of the cryptographic services.

use vstd::prelude::*;

verus! {

/// Why a cryptographic operation failed.
#[derive(Debug, Clone)]
pub enum Error {
    /// The engine failed; the text is the engine's own report.
    Unspecified(String),
    /// Key material could not be read or written.
    Io(String),
    /// A digest has the wrong shape.
    InvalidHash,
    /// A key of this many bytes is not acceptable.
    InvalidKeyLength(usize),
    /// A password hash could not be produced or read.
    InvalidPasswordHash(String),
}

/// The result type of the cryptographic services.
pub type Result<T> = core::result::Result<T, Error>;

} // verus!
