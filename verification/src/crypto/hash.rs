//! SHA-2 digests.

use sha2::{Digest, Sha256};
use vstd::prelude::*;

pub mod sha256;
pub mod sha512;

verus! {

/// Number of bytes in a SHA-256 digest.
pub const HASH_LEN: usize = 32;

/// The SHA-256 digest of `data`.
pub uninterp spec fn sha256(data: Seq<u8>) -> Seq<u8>;

/// `Sha256::digest`: the 32 bytes of the SHA-256 digest of `data`.
#[verifier::external_body]
fn sha256_digest(data: &[u8]) -> (digest: [u8; 32])
    ensures
        digest@ == sha256(data@),
{
    Sha256::digest(data).into()
}

/// A SHA-256 digest.
#[derive(Debug, Clone, Copy, PartialEq, Eq, Hash)]
pub struct Sha256Hash(pub [u8; 32]);

impl View for Sha256Hash {
    type V = Seq<u8>;

    open spec fn view(&self) -> Seq<u8> {
        self.0@
    }
}

impl Sha256Hash {
    /// Digests `data`.
    pub fn new(data: &[u8]) -> (hash: Self)
        ensures
            hash@ == sha256(data@),
            hash@.len() == HASH_LEN,
    {
        Sha256Hash(sha256_digest(data))
    }

    /// The digest's bytes.
    pub fn as_bytes(&self) -> (bytes: &[u8; 32])
        ensures
            bytes@ == self@,
    {
        &self.0
    }

    /// The digest as an array.
    pub fn into_bytes(self) -> (bytes: [u8; 32])
        ensures
            bytes@ == self@,
    {
        self.0
    }
}

impl From<[u8; 32]> for Sha256Hash {
    fn from(data: [u8; 32]) -> (hash: Self) {
        Sha256Hash(data)
    }
}

impl vstd::std_specs::convert::FromSpecImpl<[u8; 32]> for Sha256Hash {
    open spec fn obeys_from_spec() -> bool {
        true
    }

    open spec fn from_spec(data: [u8; 32]) -> Self {
        Sha256Hash(data)
    }
}

} // verus!
