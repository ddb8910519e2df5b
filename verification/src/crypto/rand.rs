//! Random bytes from the operating system's generator.

use crate::crypto::error::{Error, Result};
use aead::rand_core::RngCore;
use aead::OsRng;
use vstd::prelude::*;

verus! {

/// `OsRng::try_fill_bytes`: overwrites `dest` with random bytes, or reports
/// the generator's failure in words. Nothing is known of the bytes but their
/// number.
#[verifier::external_body]
fn os_rng_try_fill(dest: &mut [u8]) -> (r: core::result::Result<(), String>)
    ensures
        final(dest)@.len() == old(dest)@.len(),
{
    OsRng.try_fill_bytes(dest).map_err(|e| format!("{e:?}"))
}

/// Fills `dest` with random bytes.
///
/// The length of `dest` never changes. A failure of the generator is reported
/// as `Unspecified`.
pub fn fill_bytes(dest: &mut [u8]) -> (r: Result<()>)
    ensures
        final(dest)@.len() == old(dest)@.len(),
        r matches Err(e) ==> e is Unspecified,
{
    match os_rng_try_fill(dest) {
        Ok(()) => Ok(()),
        Err(report) => Err(Error::Unspecified(report)),
    }
}

} // verus!
