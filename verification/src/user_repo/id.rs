//! User ids: 128-bit values in the shape of a random UUID.

use crate::crypto::fill_bytes;
use vstd::prelude::*;

verus! {

/// The number that the bytes spell, the first byte being the most
/// significant.
pub open spec fn be_value(bytes: Seq<u8>) -> nat
    decreases bytes.len(),
{
    if bytes.len() == 0 {
        0
    } else {
        256 * be_value(bytes.drop_last()) + bytes.last() as nat
    }
}

/// Every bit of an id but the four of the version and the two of the
/// variant.
pub const RANDOM_BITS: u128 = 0xffffffff_ffff_0fff_3fff_ffffffffffff;

/// The bits of the version, 4, and of the variant, binary 10.
pub const VERSION_AND_VARIANT: u128 = 0x00000000_0000_4000_8000_000000000000;

/// The id that a version-4 UUID built from the 16 bytes `random` holds:
/// the number that the bytes spell, with the version and the variant set.
pub open spec fn uuid_v4_from(random: Seq<u8>) -> u128 {
    ((be_value(random) as u128) & RANDOM_BITS) | VERSION_AND_VARIANT
}

/// The lower-case hexadecimal digit for `n`, a number below 16.
pub open spec fn hex_digit(n: u128) -> char {
    if n < 10 {
        ('0' as u8 + n) as char
    } else {
        ('a' as u8 + n - 10) as char
    }
}

/// The hexadecimal digit of `bits` that stands at place `i` of its
/// hyphenated text, a place that holds no hyphen: the hyphens aside, the
/// digits run from the most significant to the least.
pub open spec fn text_digit(bits: u128, i: int) -> char {
    let hyphens = if i > 23 {
        4
    } else if i > 18 {
        3
    } else if i > 13 {
        2
    } else if i > 8 {
        1
    } else {
        0int
    };
    hex_digit((bits >> ((4 * (31 - (i - hyphens))) as u128)) & 0xf)
}

/// The hyphenated lower-case text of the UUID that holds `bits`: 32
/// hexadecimal digits in groups of 8, 4, 4, 4 and 12.
pub open spec fn uuid_text(bits: u128) -> Seq<char> {
    Seq::new(
        36,
        |i: int|
            if i == 8 || i == 13 || i == 18 || i == 23 {
                '-'
            } else {
                text_digit(bits, i)
            },
    )
}

/// The value of the UUID that `text` spells in any of the accepted forms,
/// or nothing where it spells none.
pub uninterp spec fn uuid_parsed(text: Seq<char>) -> Option<u128>;

/// Whether `bits` carries the version and variant marks of a random UUID.
pub open spec fn is_random_uuid(bits: u128) -> bool {
    (bits >> 76) & 0xf == 4 && (bits >> 62) & 0x3 == 2
}

/// `uuid::Builder::from_random_bytes`: the UUID made of the given bytes with
/// the version set to 4 and the variant to RFC 4122, as a 128-bit value.
#[verifier::external_body]
fn uuid_from_random_bytes(random: [u8; 16]) -> (bits: u128)
    ensures
        bits == uuid_v4_from(random@),
{
    uuid::Builder::from_random_bytes(random).into_uuid().as_u128()
}

/// `Uuid::to_string`: the hyphenated lower-case text of the UUID that holds
/// `bits`. Parsing that text gives `bits` back.
#[verifier::external_body]
fn uuid_hyphenated(bits: u128) -> (text: String)
    ensures
        text@ == uuid_text(bits),
        uuid_parsed(text@) == Some(bits),
{
    uuid::Uuid::from_u128(bits).to_string()
}

/// `Uuid::parse_str`: the value of the UUID that `text` spells, or nothing.
#[verifier::external_body]
fn uuid_parse(text: &str) -> (bits: Option<u128>)
    ensures
        bits == uuid_parsed(text@),
{
    uuid::Uuid::parse_str(text).ok().map(|id| id.as_u128())
}

/// The id of a user.
#[derive(Debug, Clone, Copy, PartialEq, Eq, Hash, Structural)]
pub struct UserId(pub u128);

impl UserId {
    /// The id made of 16 bytes that were drawn at random: the number that
    /// the bytes spell, with the marks of a random UUID set.
    pub fn from_random_bytes(random: [u8; 16]) -> (id: UserId)
        ensures
            id.0 == uuid_v4_from(random@),
            is_random_uuid(id.0),
    {
        let bits = uuid_from_random_bytes(random);
        proof {
            let spelled: u128 = be_value(random@) as u128;
            assert(((((spelled & 0xffffffff_ffff_0fff_3fff_ffffffffffff)
                | 0x00000000_0000_4000_8000_000000000000) >> 76) & 0xf) == 4 && ((((spelled
                & 0xffffffff_ffff_0fff_3fff_ffffffffffff) | 0x00000000_0000_4000_8000_000000000000)
                >> 62) & 0x3) == 2) by (bit_vector);
        }
        UserId(bits)
    }

    /// Draws a fresh random id.
    ///
    /// Fails only when the random generator does, with its error.
    pub fn generate() -> (r: crate::crypto::Result<UserId>)
        ensures
            r matches Ok(id) ==> is_random_uuid(id.0),
            r matches Err(e) ==> e is Unspecified,
    {
        let mut random: [u8; 16] = [0u8; 16];
        match fill_bytes(&mut random) {
            Ok(()) => Ok(UserId::from_random_bytes(random)),
            Err(e) => Err(e),
        }
    }

    /// The id as hyphenated lower-case text.
    pub fn to_string(&self) -> (text: String)
        ensures
            text@ == uuid_text(self.0),
            uuid_parsed(text@) == Some(self.0),
    {
        uuid_hyphenated(self.0)
    }

    /// Reads an id from text; `None` where the text spells no UUID.
    pub fn parse(text: &str) -> (id: Option<UserId>)
        ensures
            id == match uuid_parsed(text@) {
                Some(bits) => Some(UserId(bits)),
                None => None,
            },
    {
        match uuid_parse(text) {
            Some(bits) => Some(UserId(bits)),
            None => None,
        }
    }
}

} // verus!
