//! The token value that access and refresh tokens share.

use crate::crypto::fill_bytes;
use crate::text::{bytes_equal, string_from_utf8};
use bytes::Bytes;
use vstd::prelude::*;
use vstd::std_specs::cmp::PartialEqSpecImpl;
use vstd::utf8::{decode_utf8, valid_utf8};

verus! {

/// `bytes::Bytes`: a buffer of bytes that is cheap to copy. Nothing is known
/// of one but what `bytes_contents` names.
#[verifier::external_type_specification]
#[verifier::external_body]
pub struct ExBytes(bytes::Bytes);

/// The bytes that a `Bytes` holds, in order.
pub uninterp spec fn bytes_contents(b: Bytes) -> Seq<u8>;

/// `Bytes::new`: a buffer that holds nothing.
pub assume_specification[ Bytes::new ]() -> (b: Bytes)
    ensures
        bytes_contents(b) == Seq::<u8>::empty(),
;

/// `Bytes::clone`: a second handle on the same bytes.
pub assume_specification[ <Bytes as Clone>::clone ](b: &Bytes) -> (c: Bytes)
    ensures
        bytes_contents(c) == bytes_contents(*b),
;

/// `Bytes::from`: takes over the bytes of a vector.
#[verifier::external_body]
fn bytes_from_vec(v: Vec<u8>) -> (b: Bytes)
    ensures
        bytes_contents(b) == v@,
{
    Bytes::from(v)
}

/// `Bytes::as_ref`: the bytes held, as a slice.
#[verifier::external_body]
fn bytes_as_slice(b: &Bytes) -> (s: &[u8])
    ensures
        s@ == bytes_contents(*b),
{
    b.as_ref()
}

/// What every kind of token offers.
pub trait Interface: View<V = Seq<u8>> + Sized {
    /// Generates a token of `size` random bytes.
    ///
    /// Fails only when the random generator does.
    fn generate(size: usize) -> (r: crate::crypto::Result<Self>)
        ensures
            r matches Ok(token) ==> token@.len() == size,
            r matches Err(e) ==> e is Unspecified,
    ;

    /// A token that holds exactly `bytes`.
    fn from_bytes(bytes: Vec<u8>) -> (token: Self)
        ensures
            token@ == bytes@,
    ;

    /// The token's bytes.
    fn as_bytes(&self) -> (bytes: &[u8])
        ensures
            bytes@ == self@,
    ;

    /// The number of bytes in the token.
    fn len(&self) -> (n: usize)
        ensures
            n == self@.len(),
    ;

    /// Whether the token holds no byte.
    fn is_empty(&self) -> (empty: bool)
        ensures
            empty == (self@.len() == 0),
    ;

    /// The token as text: `None` unless its bytes are UTF-8.
    fn to_string(&self) -> (text: Option<String>)
        ensures
            match text {
                Some(s) => valid_utf8(self@) && s@ == decode_utf8(self@),
                None => !valid_utf8(self@),
            },
    ;
}

/// A token: a string of random bytes. Two tokens are the same when their
/// bytes are.
#[derive(Debug)]
pub struct Token {
    token: Bytes,
}

impl View for Token {
    type V = Seq<u8>;

    closed spec fn view(&self) -> Seq<u8> {
        bytes_contents(self.token)
    }
}

impl Token {
    /// The token without bytes.
    pub fn empty() -> (token: Self)
        ensures
            token@ == Seq::<u8>::empty(),
    {
        Token { token: Bytes::new() }
    }
}

impl Interface for Token {
    fn generate(size: usize) -> (r: crate::crypto::Result<Self>) {
        let mut buffer: Vec<u8> = vec![0u8; size];
        match fill_bytes(buffer.as_mut_slice()) {
            Ok(()) => Ok(Token { token: bytes_from_vec(buffer) }),
            Err(e) => Err(e),
        }
    }

    fn from_bytes(bytes: Vec<u8>) -> (token: Self) {
        Token { token: bytes_from_vec(bytes) }
    }

    fn as_bytes(&self) -> (bytes: &[u8]) {
        bytes_as_slice(&self.token)
    }

    fn len(&self) -> (n: usize) {
        bytes_as_slice(&self.token).len()
    }

    fn is_empty(&self) -> (empty: bool) {
        bytes_as_slice(&self.token).len() == 0
    }

    fn to_string(&self) -> (text: Option<String>) {
        let bytes = vstd::slice::slice_to_vec(bytes_as_slice(&self.token));
        string_from_utf8(bytes)
    }
}

impl PartialEq for Token {
    fn eq(&self, other: &Self) -> (same: bool) {
        bytes_equal(self.as_bytes(), other.as_bytes())
    }
}

impl PartialEqSpecImpl for Token {
    open spec fn obeys_eq_spec() -> bool {
        true
    }

    open spec fn eq_spec(&self, other: &Self) -> bool {
        self@ == other@
    }
}

impl Eq for Token {

}

impl Clone for Token {
    fn clone(&self) -> (copy: Self)
        ensures
            copy@ == self@,
    {
        Token { token: self.token.clone() }
    }
}

} // verus!
