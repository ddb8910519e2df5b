//! Failures of the session provider.

use vstd::prelude::*;
use vstd::std_specs::convert::FromSpecImpl;

verus! {

/// Why the session provider did not answer. A wrong password or an unknown
/// token is no failure: those are answered with `None`.
#[derive(Debug, Clone)]
pub enum Error {
    /// The random generator or the hash engine failed.
    CryptoError(crate::crypto::Error),
    /// A token store failed.
    TokenRepoError(crate::token_repo::Error),
    /// The credential store failed, or refused.
    UserRepoError(crate::user_repo::Error),
}

impl Error {
    /// Whether the error is a miss of a token store: an unknown, expired or
    /// unreadable token. The session provider answers those with `None`
    /// and never hands them on.
    pub open spec fn is_token_miss(self) -> bool {
        self matches Error::TokenRepoError(e) && e.is_miss()
    }
}

impl From<crate::crypto::Error> for Error {
    /// A failure of the random generator or the hash engine, handed on as it
    /// came.
    fn from(error: crate::crypto::Error) -> (e: Self) {
        Error::CryptoError(error)
    }
}

impl FromSpecImpl<crate::crypto::Error> for Error {
    open spec fn obeys_from_spec() -> bool {
        true
    }

    open spec fn from_spec(error: crate::crypto::Error) -> Self {
        Error::CryptoError(error)
    }
}

impl From<crate::token_repo::Error> for Error {
    /// An error of a token store, handed on as it came.
    fn from(error: crate::token_repo::Error) -> (e: Self) {
        Error::TokenRepoError(error)
    }
}

impl FromSpecImpl<crate::token_repo::Error> for Error {
    open spec fn obeys_from_spec() -> bool {
        true
    }

    open spec fn from_spec(error: crate::token_repo::Error) -> Self {
        Error::TokenRepoError(error)
    }
}

impl From<crate::user_repo::Error> for Error {
    /// An error of the credential store, handed on as it came.
    fn from(error: crate::user_repo::Error) -> (e: Self) {
        Error::UserRepoError(error)
    }
}

impl FromSpecImpl<crate::user_repo::Error> for Error {
    open spec fn obeys_from_spec() -> bool {
        true
    }

    open spec fn from_spec(error: crate::user_repo::Error) -> Self {
        Error::UserRepoError(error)
    }
}

/// The result type of the session provider.
pub type Result<T> = core::result::Result<T, Error>;

/// The failure of the storage that the answer of a token store reports, if
/// it reports one. A miss is no failure.
pub open spec fn failure<T>(answer: crate::token_repo::Result<T>) -> Option<crate::token_repo::Error> {
    match answer {
        Ok(_) => None,
        Err(e) => if e.is_miss() {
            None
        } else {
            Some(e)
        },
    }
}

/// What an error of a token store comes to where a token is looked up: a
/// miss is answered with `None`, and a failure of the storage is handed on
/// as it came.
pub open spec fn lookup_failed<T>(e: crate::token_repo::Error) -> Result<Option<T>> {
    if e.is_miss() {
        Ok(None)
    } else {
        Err(Error::TokenRepoError(e))
    }
}

/// What the answer of a token store comes to where a token is removed: a
/// token that was not there to remove is as good as removed, and a failure
/// of the storage is handed on as it came.
pub open spec fn removal(answer: crate::token_repo::Result<()>) -> Result<()> {
    match answer {
        Ok(()) => Ok(()),
        Err(e) => if e.is_miss() {
            Ok(())
        } else {
            Err(Error::TokenRepoError(e))
        },
    }
}

} // verus!
