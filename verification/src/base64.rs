//! URL-safe, unpadded Base64: the lossless text form in which tokens travel.

use crate::data::token::Interface as TokenInterface;
use crate::text::string_from_utf8;
use base64ct::{Base64UrlUnpadded, Encoding};
use vstd::prelude::*;
use vstd::utf8::{encode_utf8, valid_utf8};

verus! {

/// Why a piece of text or a buffer was refused.
#[derive(Debug, Clone, Copy, PartialEq, Eq, Structural)]
pub enum Error {
    /// The output buffer is too small, or the input too long to encode.
    InvalidLength,
    /// The text is not Base64.
    InvalidEncoding,
}

/// The result type of this module.
pub type Result<T> = core::result::Result<T, Error>;

/// The URL-safe unpadded Base64 text of `data`, as ASCII bytes.
pub uninterp spec fn base64url(data: Seq<u8>) -> Seq<u8>;

/// `data` is the one byte string whose Base64 text is `text`.
pub open spec fn decodes_to(text: Seq<u8>, data: Seq<u8>) -> bool {
    forall|v: Seq<u8>| (#[trigger] base64url(v) == text) <==> v == data
}

/// The byte string whose Base64 text is `text`, where there is one.
pub open spec fn decoded(text: Seq<u8>) -> Seq<u8> {
    choose|v: Seq<u8>| base64url(v) == text
}

/// `text` is the Base64 text of some byte string.
pub open spec fn is_base64url(text: Seq<u8>) -> bool {
    exists|v: Seq<u8>| #[trigger] base64url(v) == text
}

/// Number of characters in the Base64 text of `n` bytes: four for every three
/// bytes, rounded up.
pub open spec fn encoded_len(n: nat) -> nat {
    ((4 * n + 2) / 3) as nat
}

/// Number of bytes that `n` characters of Base64 text stand for: three for
/// every four characters, rounded down.
pub open spec fn decoded_len(n: nat) -> nat {
    ((3 * n) / 4) as nat
}

/// Whether the Base64 text of `n` bytes can be measured in a `usize`.
pub open spec fn encodable(n: nat) -> bool {
    4 * n <= usize::MAX
}

/// `Base64UrlUnpadded::encoded_len`: the length of the text that encoding
/// `bytes` gives, and 0 where four times the input length does not fit a
/// `usize`.
#[verifier::external_body]
fn unpadded_url_encoded_len(bytes: &[u8]) -> (len: usize)
    ensures
        len == if encodable(bytes@.len()) {
            encoded_len(bytes@.len())
        } else {
            0
        },
{
    Base64UrlUnpadded::encoded_len(bytes)
}

/// `Base64UrlUnpadded::encode`: writes the text of `src` to the front of
/// `dst` and returns its length, leaving the rest of `dst` as it was. The
/// text is UTF-8, as long as `encoded_len` says, and the text of no other
/// byte string. It refuses, writing nothing, where the text cannot be
/// measured or `dst` is shorter than it.
#[verifier::external_body]
fn unpadded_url_encode(src: &[u8], dst: &mut [u8]) -> (r: Result<usize>)
    ensures
        final(dst)@.len() == old(dst)@.len(),
        match r {
            Ok(n) => {
                &&& encodable(src@.len())
                &&& n == encoded_len(src@.len())
                &&& n <= old(dst)@.len()
                &&& base64url(src@).len() == n
                &&& valid_utf8(base64url(src@))
                &&& decodes_to(base64url(src@), src@)
                &&& final(dst)@ == base64url(src@) + old(dst)@.skip(n as int)
            },
            Err(e) => {
                &&& e == Error::InvalidLength
                &&& !encodable(src@.len()) || encoded_len(src@.len()) > old(dst)@.len()
                &&& final(dst)@ == old(dst)@
            },
        },
{
    match Base64UrlUnpadded::encode(src, dst) {
        Ok(text) => Ok(text.len()),
        Err(base64ct::InvalidLengthError) => Err(Error::InvalidLength),
    }
}

/// `Base64UrlUnpadded::decode`: writes the bytes that `src` stands for to the
/// front of `dst` and returns their number, leaving the rest of `dst` as it
/// was. It accepts exactly the texts that encoding produces, so what it
/// returns is the only byte string with that text. A buffer shorter than
/// `decoded_len` is refused before the text is looked at, with nothing
/// written.
#[verifier::external_body]
fn unpadded_url_decode(src: &[u8], dst: &mut [u8]) -> (r: Result<usize>)
    ensures
        final(dst)@.len() == old(dst)@.len(),
        match r {
            Ok(n) => {
                &&& n == decoded_len(src@.len())
                &&& n <= old(dst)@.len()
                &&& decodes_to(src@, final(dst)@.take(n as int))
                &&& final(dst)@.skip(n as int) == old(dst)@.skip(n as int)
            },
            Err(Error::InvalidLength) => {
                &&& decoded_len(src@.len()) > old(dst)@.len()
                &&& final(dst)@ == old(dst)@
            },
            Err(Error::InvalidEncoding) => {
                &&& decoded_len(src@.len()) <= old(dst)@.len()
                &&& !is_base64url(src@)
            },
        },
{
    match Base64UrlUnpadded::decode(src, dst) {
        Ok(data) => Ok(data.len()),
        Err(base64ct::Error::InvalidLength) => Err(Error::InvalidLength),
        Err(base64ct::Error::InvalidEncoding) => Err(Error::InvalidEncoding),
    }
}

/// What `encode_into` leaves in a target that held `target`, and what it
/// returns.
pub open spec fn encode_into_spec(bytes: Seq<u8>, target: Seq<u8>) -> (Seq<u8>, Result<usize>) {
    if !encodable(bytes.len()) || target.len() < encoded_len(bytes.len()) {
        (target, Err(Error::InvalidLength))
    } else {
        (
            base64url(bytes) + target.skip(encoded_len(bytes.len()) as int),
            Ok(encoded_len(bytes.len()) as usize),
        )
    }
}

/// Encodes `bytes` into the front of `target` and returns the number of
/// characters written. What follows the text in `target` stays as it was.
///
/// Fails with `InvalidLength`, leaving `target` untouched, when `target` is
/// shorter than the text.
pub fn encode_into(bytes: &[u8], target: &mut [u8]) -> (r: Result<usize>)
    ensures
        (final(target)@, r) == encode_into_spec(bytes@, old(target)@),
        final(target)@.len() == old(target)@.len(),
        r matches Ok(n) ==> {
            &&& n == encoded_len(bytes@.len())
            &&& n <= old(target)@.len()
            &&& final(target)@.take(n as int) == base64url(bytes@)
            &&& final(target)@.skip(n as int) == old(target)@.skip(n as int)
        },
{
    let len = unpadded_url_encoded_len(bytes);
    if target.len() < len {
        return Err(Error::InvalidLength);
    }
    let r = unpadded_url_encode(bytes, target);
    proof {
        if let Ok(n) = r {
            let text = base64url(bytes@);
            let rest = old(target)@.skip(n as int);
            assert((text + rest).take(n as int) =~= text);
            assert((text + rest).skip(n as int) =~= rest);
        }
    }
    r
}

/// Encodes `bytes` into a new `String`.
///
/// Succeeds whenever the length of the text fits a `usize`; the bytes of the
/// string are then the Base64 text of `bytes`.
pub fn encode(bytes: &[u8]) -> (r: Result<String>)
    ensures
        match r {
            Ok(s) => {
                &&& encodable(bytes@.len())
                &&& encode_utf8(s@) == base64url(bytes@)
                &&& decoded(encode_utf8(s@)) == bytes@
            },
            Err(e) => e == Error::InvalidLength && !encodable(bytes@.len()),
        },
{
    let len = unpadded_url_encoded_len(bytes);
    let mut target: Vec<u8> = vec![0u8; len];
    match unpadded_url_encode(bytes, target.as_mut_slice()) {
        Ok(_) => {},
        Err(e) => { return Err(e); },
    }
    proof {
        assert(target@ =~= base64url(bytes@));
        vstd::utf8::decode_utf8_encode_utf8(target@);
        lemma_decoded(base64url(bytes@), bytes@);
    }
    match string_from_utf8(target) {
        Some(text) => Ok(text),
        None => Err(Error::InvalidEncoding),
    }
}

/// What `decode_into` returns for `bytes` and a target of `capacity` bytes.
pub open spec fn decode_status(bytes: Seq<u8>, capacity: nat) -> Option<Error> {
    if decoded_len(bytes.len()) > capacity {
        Some(Error::InvalidLength)
    } else if !is_base64url(bytes) {
        Some(Error::InvalidEncoding)
    } else {
        None
    }
}

/// Decodes the Base64 text `bytes` into the front of `target` and returns the
/// number of bytes written.
///
/// Fails with `InvalidLength`, leaving `target` untouched, when `target` is
/// shorter than three quarters of the text. Fails with `InvalidEncoding` when
/// `bytes` is not the Base64 text of any byte string.
pub fn decode_into(bytes: &[u8], target: &mut [u8]) -> (r: Result<usize>)
    ensures
        final(target)@.len() == old(target)@.len(),
        match r {
            Ok(n) => {
                &&& decode_status(bytes@, old(target)@.len()) is None
                &&& n == decoded_len(bytes@.len())
                &&& decodes_to(bytes@, final(target)@.take(n as int))
                &&& final(target)@.skip(n as int) == old(target)@.skip(n as int)
            },
            Err(e) => {
                &&& decode_status(bytes@, old(target)@.len()) == Some(e)
                &&& e == Error::InvalidLength ==> final(target)@ == old(target)@
            },
        },
{
    let r = unpadded_url_decode(bytes, target);
    proof {
        if let Ok(n) = r {
            assert(base64url(target@.take(n as int)) == bytes@);
        }
    }
    r
}

/// Decodes the Base64 text `bytes` into a new `Vec<u8>`.
///
/// Returns the one byte string whose text is `bytes`, and `InvalidEncoding`
/// when there is none.
pub fn decode(bytes: &[u8]) -> (r: Result<Vec<u8>>)
    ensures
        match r {
            Ok(data) => decodes_to(bytes@, data@),
            Err(e) => e == Error::InvalidEncoding && !is_base64url(bytes@),
        },
{
    let n = bytes.len();
    let len = 3 * (n / 4) + (3 * (n % 4)) / 4;
    let mut target: Vec<u8> = vec![0u8; len];
    let written = match decode_into(bytes, target.as_mut_slice()) {
        Ok(written) => written,
        Err(e) => { return Err(e); },
    };
    target.truncate(written);
    Ok(target)
}

/// The byte string that a text decodes to is the one that `decoded` names.
pub proof fn lemma_decoded(text: Seq<u8>, data: Seq<u8>)
    requires
        decodes_to(text, data),
    ensures
        is_base64url(text),
        decoded(text) == data,
{
    assert(base64url(data) == text);
    let found = decoded(text);
    assert(base64url(found) == text);
}

/// Decoding undoes encoding: what `decode` returns for the text that
/// `encode` gave for `data` is `data`, and nothing else.
pub proof fn lemma_decode_inverts_encode(data: Seq<u8>, back: Seq<u8>)
    requires
        decodes_to(base64url(data), back),
    ensures
        is_base64url(base64url(data)),
        back == data,
        decoded(base64url(data)) == data,
{
    assert(base64url(data) == base64url(data));
    let found = decoded(base64url(data));
    assert(base64url(found) == base64url(data));
}

/// Something that holds Base64 text and can be decoded.
pub trait Decode {
    /// The text held, as bytes.
    spec fn text(&self) -> Seq<u8>;

    /// Decodes the text into the front of `target` and returns the number
    /// of bytes written; see `decode_into`.
    fn decode_into(&self, target: &mut [u8]) -> (r: Result<usize>)
        ensures
            final(target)@.len() == old(target)@.len(),
            match r {
                Ok(n) => {
                    &&& decode_status(self.text(), old(target)@.len()) is None
                    &&& n == decoded_len(self.text().len())
                    &&& decodes_to(self.text(), final(target)@.take(n as int))
                    &&& final(target)@.skip(n as int) == old(target)@.skip(n as int)
                },
                Err(e) => {
                    &&& decode_status(self.text(), old(target)@.len()) == Some(e)
                    &&& e == Error::InvalidLength ==> final(target)@ == old(target)@
                },
            },
    ;

    /// Decodes the text into a new `Vec<u8>`; see `decode`.
    fn decode(&self) -> (r: Result<Vec<u8>>)
        ensures
            match r {
                Ok(data) => decodes_to(self.text(), data@),
                Err(e) => e == Error::InvalidEncoding && !is_base64url(self.text()),
            },
    ;
}

impl Decode for [u8] {
    open spec fn text(&self) -> Seq<u8> {
        self@
    }

    fn decode_into(&self, target: &mut [u8]) -> (r: Result<usize>) {
        decode_into(self, target)
    }

    fn decode(&self) -> (r: Result<Vec<u8>>) {
        decode(self)
    }
}

impl Decode for Vec<u8> {
    open spec fn text(&self) -> Seq<u8> {
        self@
    }

    fn decode_into(&self, target: &mut [u8]) -> (r: Result<usize>) {
        decode_into(self.as_slice(), target)
    }

    fn decode(&self) -> (r: Result<Vec<u8>>) {
        decode(self.as_slice())
    }
}

impl Decode for str {
    open spec fn text(&self) -> Seq<u8> {
        encode_utf8(self@)
    }

    fn decode_into(&self, target: &mut [u8]) -> (r: Result<usize>) {
        decode_into(self.as_bytes(), target)
    }

    fn decode(&self) -> (r: Result<Vec<u8>>) {
        decode(self.as_bytes())
    }
}

impl Decode for String {
    open spec fn text(&self) -> Seq<u8> {
        encode_utf8(self@)
    }

    fn decode_into(&self, target: &mut [u8]) -> (r: Result<usize>) {
        decode_into(self.as_str().as_bytes(), target)
    }

    fn decode(&self) -> (r: Result<Vec<u8>>) {
        decode(self.as_str().as_bytes())
    }
}

/// Something that holds bytes and can be encoded as Base64 text.
pub trait Encode {
    /// The bytes held.
    spec fn data(&self) -> Seq<u8>;

    /// Encodes the bytes into the front of `target` and returns the number
    /// of characters written; see `encode_into`.
    fn write_to(&self, target: &mut [u8]) -> (r: Result<usize>)
        ensures
            (final(target)@, r) == encode_into_spec(self.data(), old(target)@),
    ;

    /// Encodes the bytes into a new `String`; see `encode`.
    fn encode(&self) -> (r: Result<String>)
        ensures
            match r {
                Ok(s) => encodable(self.data().len()) && encode_utf8(s@) == base64url(self.data()),
                Err(e) => e == Error::InvalidLength && !encodable(self.data().len()),
            },
    ;
}

impl Encode for [u8] {
    open spec fn data(&self) -> Seq<u8> {
        self@
    }

    fn write_to(&self, target: &mut [u8]) -> (r: Result<usize>) {
        encode_into(self, target)
    }

    fn encode(&self) -> (r: Result<String>) {
        encode(self)
    }
}

impl Encode for Vec<u8> {
    open spec fn data(&self) -> Seq<u8> {
        self@
    }

    fn write_to(&self, target: &mut [u8]) -> (r: Result<usize>) {
        encode_into(self.as_slice(), target)
    }

    fn encode(&self) -> (r: Result<String>) {
        encode(self.as_slice())
    }
}

impl Encode for crate::data::token::Token {
    open spec fn data(&self) -> Seq<u8> {
        self@
    }

    fn write_to(&self, target: &mut [u8]) -> (r: Result<usize>) {
        encode_into(self.as_bytes(), target)
    }

    fn encode(&self) -> (r: Result<String>) {
        encode(self.as_bytes())
    }
}

impl Encode for crate::data::auth::Auth {
    open spec fn data(&self) -> Seq<u8> {
        self@
    }

    fn write_to(&self, target: &mut [u8]) -> (r: Result<usize>) {
        encode_into(self.as_bytes(), target)
    }

    fn encode(&self) -> (r: Result<String>) {
        encode(self.as_bytes())
    }
}

impl Encode for crate::data::refresh::Refresh {
    open spec fn data(&self) -> Seq<u8> {
        self@
    }

    fn write_to(&self, target: &mut [u8]) -> (r: Result<usize>) {
        encode_into(self.as_bytes(), target)
    }

    fn encode(&self) -> (r: Result<String>) {
        encode(self.as_bytes())
    }
}

} // verus!
