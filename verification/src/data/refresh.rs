//! Refresh tokens.

use crate::data::token::{Interface, Token};
use vstd::prelude::*;
use vstd::std_specs::cmp::PartialEqSpecImpl;

verus! {

/// A longer-lived, single-use token that is exchanged for a new pair. It is
/// never accepted where an access token is asked for.
#[derive(Debug)]
pub struct Refresh(pub Token);

impl View for Refresh {
    type V = Seq<u8>;

    open spec fn view(&self) -> Seq<u8> {
        self.0@
    }
}

impl Interface for Refresh {
    fn generate(size: usize) -> (r: crate::crypto::Result<Self>) {
        match Token::generate(size) {
            Ok(token) => Ok(Refresh(token)),
            Err(e) => Err(e),
        }
    }

    fn from_bytes(bytes: Vec<u8>) -> (token: Self) {
        Refresh(Token::from_bytes(bytes))
    }

    fn as_bytes(&self) -> (bytes: &[u8]) {
        self.0.as_bytes()
    }

    fn len(&self) -> (n: usize) {
        self.0.len()
    }

    fn is_empty(&self) -> (empty: bool) {
        self.0.is_empty()
    }

    fn to_string(&self) -> (text: Option<String>) {
        self.0.to_string()
    }
}

impl PartialEq for Refresh {
    fn eq(&self, other: &Self) -> (same: bool) {
        self.0 == other.0
    }
}

impl PartialEqSpecImpl for Refresh {
    open spec fn obeys_eq_spec() -> bool {
        true
    }

    open spec fn eq_spec(&self, other: &Self) -> bool {
        self@ == other@
    }
}

impl Eq for Refresh {

}

impl Clone for Refresh {
    fn clone(&self) -> (copy: Self)
        ensures
            copy@ == self@,
    {
        Refresh(self.0.clone())
    }
}

} // verus!
