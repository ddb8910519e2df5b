//! Slow, salted password hashing with Argon2id.

use crate::crypto::error::{Error, Result};
use crate::crypto::rand::fill_bytes;
use argon2::password_hash::{PasswordHash, PasswordHasher, PasswordVerifier, SaltString};
use argon2::Argon2;
use vstd::prelude::*;

verus! {

/// Number of random bytes in the salt of a new password hash.
pub const SALT_LEN: usize = 16;

/// Number of bytes in the longest password that the hash engine takes.
pub const MAX_PASSWORD_LEN: u64 = 0xFFFF_FFFF;

/// The password hash, in PHC string form, that Argon2id with its default
/// parameters gives for `password` under `salt`.
pub uninterp spec fn argon2id_phc(password: Seq<u8>, salt: Seq<u8>) -> Seq<char>;

/// Whether `text` reads as a password hash in PHC string form.
pub uninterp spec fn phc_well_formed(text: Seq<char>) -> bool;

/// Whether hashing `password` with the algorithm, parameters and salt that
/// `text` names gives the hash that `text` holds.
pub uninterp spec fn argon2_verifies(password: Seq<u8>, text: Seq<char>) -> bool;

/// `Argon2::hash_password` with the default parameters, on a salt of
/// `SALT_LEN` raw bytes, the result written out as a PHC string. A hash that
/// comes back reads as a PHC string and verifies against the password it
/// was made from. With a salt of this length and the default parameters the
/// engine refuses a password only for its length, over `MAX_PASSWORD_LEN`
/// bytes; the refusal is reported in the engine's words. A salt of fewer
/// than three bytes would make the engine panic, so the length is asked
/// for.
#[verifier::external_body]
fn argon2id_hash(password: &[u8], salt: &[u8]) -> (r: core::result::Result<String, String>)
    requires
        salt@.len() == SALT_LEN,
    ensures
        password@.len() <= MAX_PASSWORD_LEN ==> r is Ok,
        r matches Ok(h) ==> {
            &&& h@ == argon2id_phc(password@, salt@)
            &&& phc_well_formed(h@)
            &&& argon2_verifies(password@, h@)
        },
{
    let salt = SaltString::encode_b64(salt).map_err(|e| e.to_string())?;
    let hash = Argon2::default().hash_password(password, &salt).map_err(|e| e.to_string())?;
    Ok(hash.to_string())
}

/// `PasswordHash::new` followed by `Argon2::verify_password`: whether the
/// password matches the hash, or, where the text is no PHC string, the
/// parser's report.
#[verifier::external_body]
fn argon2_verify(password: &[u8], password_hash: &str) -> (r: core::result::Result<bool, String>)
    ensures
        match r {
            Ok(valid) => phc_well_formed(password_hash@) && valid == argon2_verifies(
                password@,
                password_hash@,
            ),
            Err(_) => !phc_well_formed(password_hash@),
        },
{
    match PasswordHash::new(password_hash) {
        Ok(parsed) => Ok(Argon2::default().verify_password(password, &parsed).is_ok()),
        Err(e) => Err(e.to_string()),
    }
}

/// `hash` is a password hash of `password` under some salt of `SALT_LEN`
/// bytes.
pub open spec fn is_hash_of(password: Seq<u8>, hash: Seq<char>) -> bool {
    exists|salt: Seq<u8>| salt.len() == SALT_LEN && #[trigger] argon2id_phc(password, salt) == hash
}

/// Hashes a password with Argon2id under a fresh random salt.
///
/// The string that comes back can be stored: it is a well-formed PHC string
/// and `verify_password` accepts `password` against it. A failure of the
/// random generator is reported as `Unspecified`; a password that is too
/// long for the hash engine as `InvalidPasswordHash`.
pub fn hash_password(password: &[u8]) -> (r: Result<String>)
    ensures
        match r {
            Ok(h) => {
                &&& is_hash_of(password@, h@)
                &&& phc_well_formed(h@)
                &&& argon2_verifies(password@, h@)
            },
            Err(e) => e is Unspecified || (e is InvalidPasswordHash && password@.len()
                > MAX_PASSWORD_LEN),
        },
{
    let mut salt: [u8; 16] = [0u8; 16];
    match fill_bytes(&mut salt) {
        Ok(()) => {},
        Err(e) => { return Err(e); },
    }
    hash_password_with_salt(password, &salt)
}

/// Hashes a password with Argon2id under the salt `salt`.
///
/// Succeeds for every password of at most `MAX_PASSWORD_LEN` bytes; a
/// longer one is refused as `InvalidPasswordHash`. The same password and
/// salt give the same string, so a salt serves one password:
/// `hash_password` draws a fresh one for each.
pub fn hash_password_with_salt(password: &[u8], salt: &[u8; 16]) -> (r: Result<String>)
    ensures
        password@.len() <= MAX_PASSWORD_LEN ==> r is Ok,
        match r {
            Ok(h) => {
                &&& h@ == argon2id_phc(password@, salt@)
                &&& is_hash_of(password@, h@)
                &&& phc_well_formed(h@)
                &&& argon2_verifies(password@, h@)
            },
            Err(e) => e is InvalidPasswordHash && password@.len() > MAX_PASSWORD_LEN,
        },
{
    match argon2id_hash(password, salt.as_slice()) {
        Ok(h) => Ok(h),
        Err(report) => Err(Error::InvalidPasswordHash(report)),
    }
}

/// What `verify_password` decides: `None` where the text is no password hash.
pub open spec fn verify_spec(password: Seq<u8>, password_hash: Seq<char>) -> Option<bool> {
    if phc_well_formed(password_hash) {
        Some(argon2_verifies(password, password_hash))
    } else {
        None
    }
}

/// Verifies a password against a stored password hash.
///
/// Returns whether the password matches, and `InvalidPasswordHash` exactly
/// when `password_hash` is not a well-formed PHC string.
pub fn verify_password(password: &[u8], password_hash: &str) -> (r: Result<bool>)
    ensures
        match r {
            Ok(valid) => verify_spec(password@, password_hash@) == Some(valid),
            Err(e) => e is InvalidPasswordHash && verify_spec(password@, password_hash@) is None,
        },
{
    match argon2_verify(password, password_hash) {
        Ok(valid) => Ok(valid),
        Err(report) => Err(Error::InvalidPasswordHash(report)),
    }
}

} // verus!
