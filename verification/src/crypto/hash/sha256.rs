//! SHA-256 under its short name.

use crate::crypto::hash::Sha256Hash;
use vstd::prelude::*;

verus! {

/// A SHA-256 digest.
pub type Hash = Sha256Hash;

} // verus!
