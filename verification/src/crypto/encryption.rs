//! Authenticated encryption with XChaCha20-Poly1305.

use crate::crypto::error::{Error, Result};
use crate::crypto::hash::{sha256, Sha256Hash};
use crate::crypto::rand::fill_bytes;
use aead::Aead;
use chacha20poly1305::{KeyInit, XChaCha20Poly1305, XNonce};
use vstd::prelude::*;
use vstd::slice::slice_subrange;

verus! {

/// Number of bytes in a nonce.
pub const NONCE_LEN: usize = 24;

/// Number of bytes in an authentication tag.
pub const TAG_LEN: usize = 16;

/// Number of bytes in a key.
pub const KEY_LEN: usize = 32;

/// Number of bytes from which on a plaintext is too long for one nonce: the
/// cipher counts blocks of 64 bytes in 32 bits.
pub const PLAINTEXT_LIMIT: u64 = 274_877_906_880;

/// The ciphertext and tag that XChaCha20-Poly1305 gives for `plaintext` under
/// `key` and `nonce`, without associated data.
pub uninterp spec fn sealed(key: Seq<u8>, nonce: Seq<u8>, plaintext: Seq<u8>) -> Seq<u8>;

/// `plaintext` is the one message that `key` and `nonce` seal to `ciphertext`.
pub open spec fn opens_to(
    key: Seq<u8>,
    nonce: Seq<u8>,
    ciphertext: Seq<u8>,
    plaintext: Seq<u8>,
) -> bool {
    forall|p: Seq<u8>| (#[trigger] sealed(key, nonce, p) == ciphertext) <==> p == plaintext
}

/// Some message is sealed to `ciphertext` by `key` and `nonce`.
pub open spec fn is_sealed(key: Seq<u8>, nonce: Seq<u8>, ciphertext: Seq<u8>) -> bool {
    exists|p: Seq<u8>| #[trigger] sealed(key, nonce, p) == ciphertext
}

/// `XChaCha20Poly1305::encrypt` under a key and nonce given as arrays: the
/// ciphertext followed by its 16-byte tag. The cipher refuses a plaintext
/// only for its length, from `PLAINTEXT_LIMIT` bytes on; the refusal is
/// reported in the cipher's words.
#[verifier::external_body]
fn xchacha20poly1305_encrypt(key: &[u8; 32], nonce: &[u8; 24], plaintext: &[u8]) -> (r:
    core::result::Result<Vec<u8>, String>)
    ensures
        plaintext@.len() < PLAINTEXT_LIMIT ==> r is Ok,
        r matches Ok(c) ==> c@ == sealed(key@, nonce@, plaintext@) && c@.len() == plaintext@.len()
            + TAG_LEN,
{
    let cipher = XChaCha20Poly1305::new(key.into());
    cipher.encrypt(XNonce::from_slice(nonce), plaintext).map_err(|e| format!("{e:?}"))
}

/// `XChaCha20Poly1305::decrypt` under a key given as an array and a nonce of
/// 24 bytes. It accepts exactly what encryption under that key and nonce
/// produces, and returns the message that was sealed. A refusal is reported
/// in the cipher's words.
#[verifier::external_body]
fn xchacha20poly1305_decrypt(key: &[u8; 32], nonce: &[u8], ciphertext: &[u8]) -> (r:
    core::result::Result<Vec<u8>, String>)
    requires
        nonce@.len() == NONCE_LEN,
    ensures
        match r {
            Ok(p) => opens_to(key@, nonce@, ciphertext@, p@),
            Err(_) => !is_sealed(key@, nonce@, ciphertext@),
        },
{
    let cipher = XChaCha20Poly1305::new(key.into());
    cipher.decrypt(XNonce::from_slice(nonce), ciphertext).map_err(|e| e.to_string())
}

/// A 256-bit encryption key.
#[derive(Clone, Debug, Eq, PartialEq)]
pub struct Key(pub [u8; 32]);

impl View for Key {
    type V = Seq<u8>;

    open spec fn view(&self) -> Seq<u8> {
        self.0@
    }
}

/// `message` is `plaintext` sealed under `key`: a nonce, then the ciphertext
/// and tag that the key and that nonce give.
pub open spec fn is_encryption_of(key: Seq<u8>, plaintext: Seq<u8>, message: Seq<u8>) -> bool {
    &&& message.len() == NONCE_LEN + plaintext.len() + TAG_LEN
    &&& message.skip(NONCE_LEN as int) == sealed(key, message.take(NONCE_LEN as int), plaintext)
}

/// What `decrypt` gives for `message` under `key`, where `r` is what it may
/// return: the sealed plaintext, or a refusal where nothing was sealed so.
pub open spec fn is_decryption_of(key: Seq<u8>, message: Seq<u8>, r: Option<Seq<u8>>) -> bool {
    match r {
        Some(p) => message.len() >= NONCE_LEN && opens_to(
            key,
            message.take(NONCE_LEN as int),
            message.skip(NONCE_LEN as int),
            p,
        ),
        None => message.len() < NONCE_LEN || !is_sealed(
            key,
            message.take(NONCE_LEN as int),
            message.skip(NONCE_LEN as int),
        ),
    }
}

impl Key {
    /// Derives a key from `source`: its SHA-256 digest.
    pub fn hash_from(source: &[u8]) -> (key: Self)
        ensures
            key@ == sha256(source@),
    {
        let hash = Sha256Hash::new(source);
        Key(hash.into_bytes())
    }

    /// Generates a key from the operating system's random generator.
    ///
    /// A failure of the generator is reported as `Unspecified`.
    pub fn generate() -> (r: Result<Self>)
        ensures
            r matches Ok(key) ==> key@.len() == KEY_LEN,
            r matches Err(e) ==> e is Unspecified,
    {
        let mut key: [u8; 32] = [0u8; 32];
        match fill_bytes(&mut key) {
            Ok(()) => Ok(Key(key)),
            Err(e) => Err(e),
        }
    }

    /// Encrypts `plaintext` under a fresh random nonce and returns the nonce
    /// followed by ciphertext and tag.
    ///
    /// A failure of the generator or of the cipher is reported as
    /// `Unspecified`.
    pub fn encrypt(&self, plaintext: &[u8]) -> (r: Result<Vec<u8>>)
        ensures
            match r {
                Ok(message) => is_encryption_of(self@, plaintext@, message@),
                Err(e) => e is Unspecified,
            },
    {
        let mut nonce: [u8; 24] = [0u8; 24];
        match fill_bytes(&mut nonce) {
            Ok(()) => {},
            Err(e) => { return Err(e); },
        }
        self.encrypt_with_nonce(&nonce, plaintext)
    }

    /// Encrypts `plaintext` under the nonce `nonce` and returns the nonce
    /// followed by ciphertext and tag.
    ///
    /// Fails, with `Unspecified`, only for a plaintext of `PLAINTEXT_LIMIT`
    /// bytes or more. A nonce serves one message: `encrypt` draws a fresh
    /// one for each.
    pub fn encrypt_with_nonce(&self, nonce: &[u8; 24], plaintext: &[u8]) -> (r: Result<Vec<u8>>)
        ensures
            plaintext@.len() < PLAINTEXT_LIMIT ==> r is Ok,
            match r {
                Ok(message) => {
                    &&& message@ == nonce@ + sealed(self@, nonce@, plaintext@)
                    &&& is_encryption_of(self@, plaintext@, message@)
                },
                Err(e) => e is Unspecified,
            },
    {
        let body = match xchacha20poly1305_encrypt(&self.0, nonce, plaintext) {
            Ok(body) => body,
            Err(report) => { return Err(Error::Unspecified(report)); },
        };
        let mut message: Vec<u8> = Vec::new();
        message.extend_from_slice(nonce.as_slice());
        message.extend_from_slice(body.as_slice());
        proof {
            assert(message@ =~= nonce@ + body@);
            assert(message@.take(NONCE_LEN as int) =~= nonce@);
            assert(message@.skip(NONCE_LEN as int) =~= body@);
        }
        Ok(message)
    }

    /// Decrypts a message made by `encrypt`: the nonce is taken from its
    /// first 24 bytes.
    ///
    /// Returns the plaintext exactly when the rest of the message is what
    /// this key and that nonce seal some plaintext to; every other message,
    /// one shorter than a nonce included, is refused as `Unspecified`.
    pub fn decrypt(&self, ciphertext: &[u8]) -> (r: Result<Vec<u8>>)
        ensures
            match r {
                Ok(p) => is_decryption_of(self@, ciphertext@, Some(p@)),
                Err(e) => e is Unspecified && is_decryption_of(self@, ciphertext@, None),
            },
    {
        if ciphertext.len() < NONCE_LEN {
            return Err(Error::Unspecified("ciphertext is too short".to_string()));
        }
        let nonce = slice_subrange(ciphertext, 0, NONCE_LEN);
        let body = slice_subrange(ciphertext, NONCE_LEN, ciphertext.len());
        proof {
            assert(nonce@ =~= ciphertext@.take(NONCE_LEN as int));
            assert(body@ =~= ciphertext@.skip(NONCE_LEN as int));
        }
        match xchacha20poly1305_decrypt(&self.0, nonce, body) {
            Ok(p) => Ok(p),
            Err(report) => Err(Error::Unspecified(report)),
        }
    }

    /// The key's bytes.
    pub fn as_bytes(&self) -> (bytes: &[u8; 32])
        ensures
            bytes@ == self@,
    {
        &self.0
    }

    /// The key as an array.
    pub fn into_bytes(self) -> (bytes: [u8; 32])
        ensures
            bytes@ == self@,
    {
        self.0
    }
}

impl From<[u8; 32]> for Key {
    fn from(data: [u8; 32]) -> (key: Self) {
        Key(data)
    }
}

impl vstd::std_specs::convert::FromSpecImpl<[u8; 32]> for Key {
    open spec fn obeys_from_spec() -> bool {
        true
    }

    open spec fn from_spec(data: [u8; 32]) -> Self {
        Key(data)
    }
}

/// Decryption undoes encryption: whatever `decrypt` returns for a message
/// that `encrypt` made under the same key, it is the plaintext that went in.
pub proof fn lemma_decrypt_inverts_encrypt(
    key: Seq<u8>,
    plaintext: Seq<u8>,
    message: Seq<u8>,
    r: Option<Seq<u8>>,
)
    requires
        is_encryption_of(key, plaintext, message),
        is_decryption_of(key, message, r),
    ensures
        r == Some(plaintext),
{
    let nonce = message.take(NONCE_LEN as int);
    let body = message.skip(NONCE_LEN as int);
    assert(sealed(key, nonce, plaintext) == body);
}

} // verus!
