//! Access tokens.

use crate::data::token::{Interface, Token};
use vstd::prelude::*;
use vstd::std_specs::cmp::PartialEqSpecImpl;

verus! {

/// A short-lived token that authorizes requests. It is never accepted where
/// a refresh token is asked for.
#[derive(Debug)]
pub struct Auth(pub Token);

impl View for Auth {
    type V = Seq<u8>;

    open spec fn view(&self) -> Seq<u8> {
        self.0@
    }
}

impl Interface for Auth {
    fn generate(size: usize) -> (r: crate::crypto::Result<Self>) {
        match Token::generate(size) {
            Ok(token) => Ok(Auth(token)),
            Err(e) => Err(e),
        }
    }

    fn from_bytes(bytes: Vec<u8>) -> (token: Self) {
        Auth(Token::from_bytes(bytes))
    }

    fn as_bytes(&self) -> (bytes: &[u8]) {
        self.0.as_bytes()
    }

    fn len(&self) -> (n: usize) {
        self.0.len()
    }

    fn is_empty(&self) -> (empty: bool) {
        self.0.is_empty()
    }

    fn to_string(&self) -> (text: Option<String>) {
        self.0.to_string()
    }
}

impl PartialEq for Auth {
    fn eq(&self, other: &Self) -> (same: bool) {
        self.0 == other.0
    }
}

impl PartialEqSpecImpl for Auth {
    open spec fn obeys_eq_spec() -> bool {
        true
    }

    open spec fn eq_spec(&self, other: &Self) -> bool {
        self@ == other@
    }
}

impl Eq for Auth {

}

impl Clone for Auth {
    fn clone(&self) -> (copy: Self)
        ensures
            copy@ == self@,
    {
        Auth(self.0.clone())
    }
}

} // verus!
