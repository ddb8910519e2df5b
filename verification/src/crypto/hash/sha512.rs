//! SHA-512 digests.

use sha2::{Digest, Sha512};
use vstd::prelude::*;

verus! {

/// Number of bytes in a SHA-512 digest.
pub const HASH_LEN: usize = 64;

/// The SHA-512 digest of `data`.
pub uninterp spec fn sha512(data: Seq<u8>) -> Seq<u8>;

/// `Sha512::digest`: the 64 bytes of the SHA-512 digest of `data`.
#[verifier::external_body]
fn sha512_digest(data: &[u8]) -> (digest: [u8; 64])
    ensures
        digest@ == sha512(data@),
{
    Sha512::digest(data).into()
}

/// A SHA-512 digest.
#[derive(Debug, Clone, Copy, PartialEq, Eq, Hash)]
pub struct Hash(pub [u8; 64]);

impl View for Hash {
    type V = Seq<u8>;

    open spec fn view(&self) -> Seq<u8> {
        self.0@
    }
}

impl Hash {
    /// Digests `data`.
    pub fn new(data: &[u8]) -> (hash: Self)
        ensures
            hash@ == sha512(data@),
            hash@.len() == HASH_LEN,
    {
        Hash(sha512_digest(data))
    }

    /// The digest's bytes.
    pub fn as_bytes(&self) -> (bytes: &[u8; 64])
        ensures
            bytes@ == self@,
    {
        &self.0
    }

    /// The digest as an array.
    pub fn into_bytes(self) -> (bytes: [u8; 64])
        ensures
            bytes@ == self@,
    {
        self.0
    }
}

impl From<[u8; 64]> for Hash {
    fn from(data: [u8; 64]) -> (hash: Self) {
        Hash(data)
    }
}

impl vstd::std_specs::convert::FromSpecImpl<[u8; 64]> for Hash {
    open spec fn obeys_from_spec() -> bool {
        true
    }

    open spec fn from_spec(data: [u8; 64]) -> Self {
        Hash(data)
    }
}

} // verus!
