//! Configuration: the knobs of the service, each with its name in the
//! environment, its default, and the reading of a raw value.

use vstd::prelude::*;
use vstd::string::StringExecFns;
use vstd::utf8::{is_ascii_chars, is_ascii_chars_encode_utf8};

verus! {

/// Whether `c` is one of the digits `0` to `9`.
pub open spec fn is_digit(c: char) -> bool {
    '0' <= c <= '9'
}

/// The number that a run of digits spells in decimal.
pub open spec fn digits_value(digits: Seq<char>) -> nat
    decreases digits.len(),
{
    if digits.len() == 0 {
        0
    } else {
        (10 * digits_value(digits.drop_last()) + (digits.last() as u32 - '0' as u32)) as nat
    }
}

/// The digits of `text`: what follows the `+` where it begins with one,
/// and all of it where it does not.
pub open spec fn digits_of(text: Seq<char>) -> Seq<char> {
    if text.len() > 0 && text[0] == '+' {
        text.skip(1)
    } else {
        text
    }
}

/// Whether `digits` is one digit or more, and nothing else.
pub open spec fn all_digits(digits: Seq<char>) -> bool {
    digits.len() > 0 && (forall|i: int| 0 <= i < digits.len() ==> is_digit(#[trigger] digits[i]))
}

/// The number that `text` spells: `text` is one digit or more, with or
/// without a `+` in front, and nothing else.
pub open spec fn spelled_number(text: Seq<char>) -> Option<nat> {
    if all_digits(digits_of(text)) {
        Some(digits_value(digits_of(text)))
    } else {
        None
    }
}

/// The number that `text` spells, where it spells one that fits a `usize`.
pub open spec fn parsed_usize(text: Seq<char>) -> Option<usize> {
    match spelled_number(text) {
        Some(value) => if value <= usize::MAX {
            Some(value as usize)
        } else {
            None
        },
        None => None,
    }
}

/// The number that `text` spells, where it spells one that fits a `u64`.
pub open spec fn parsed_u64(text: Seq<char>) -> Option<u64> {
    match spelled_number(text) {
        Some(value) => if value <= u64::MAX {
            Some(value as u64)
        } else {
            None
        },
        None => None,
    }
}

/// A longer run of digits spells no smaller number than its beginning.
pub proof fn lemma_digits_value_grows(digits: Seq<char>, k: int)
    requires
        0 <= k <= digits.len(),
        forall|i: int| 0 <= i < digits.len() ==> is_digit(#[trigger] digits[i]),
    ensures
        digits_value(digits.take(k)) <= digits_value(digits),
    decreases digits.len() - k,
{
    if k < digits.len() {
        lemma_digits_value_grows(digits, k + 1);
        assert(digits.take(k + 1).drop_last() =~= digits.take(k));
        assert(digits.take(k + 1).last() == digits[k]);
        assert(is_digit(digits[k]));
    } else {
        assert(digits.take(k) =~= digits);
    }
}

/// Text with something other than a digit among its digits spells no
/// number.
pub proof fn lemma_not_a_digit(text: Seq<char>, k: int)
    requires
        0 <= k < digits_of(text).len(),
        !is_digit(digits_of(text)[k]),
    ensures
        spelled_number(text) is None,
{
}

/// Text whose first digits spell more than a `u64` holds spells no number
/// that a `u64` holds.
pub proof fn lemma_too_large(text: Seq<char>, k: int)
    requires
        0 <= k <= digits_of(text).len(),
        digits_value(digits_of(text).take(k)) > u64::MAX,
    ensures
        parsed_u64(text) is None,
{
    if all_digits(digits_of(text)) {
        lemma_digits_value_grows(digits_of(text), k);
    }
}

/// One digit more multiplies the number spelled so far by ten and adds the
/// digit.
pub proof fn lemma_one_more_digit(digits: Seq<char>, k: int)
    requires
        0 <= k < digits.len(),
        is_digit(digits[k]),
    ensures
        digits_value(digits.take(k + 1)) == 10 * digits_value(digits.take(k)) + (digits[k] as u32
            - '0' as u32),
{
    assert(digits.take(k + 1).drop_last() =~= digits.take(k));
    assert(digits.take(k + 1).last() == digits[k]);
}

/// What the byte of an ASCII character tells of the character: whether it
/// is a digit and which, and whether it is the sign.
pub proof fn lemma_ascii_byte(c: char, byte: u8)
    requires
        c <= '\u{7f}',
        byte == c as u8,
    ensures
        (48 <= byte <= 57) <==> is_digit(c),
        is_digit(c) ==> (c as u32 - '0' as u32) == byte - 48,
        byte == 43 <==> c == '+',
{
}

/// The place of a character of `text` that is not ASCII, where there is
/// one.
pub open spec fn first_beyond_ascii(text: Seq<char>) -> int {
    choose|j: int| 0 <= j < text.len() && !('\0' <= #[trigger] text[j] <= '\u{7f}')
}

/// Text with a character that is not ASCII spells no number.
pub proof fn lemma_beyond_ascii(text: Seq<char>)
    requires
        !is_ascii_chars(text),
    ensures
        spelled_number(text) is None,
{
    let j = first_beyond_ascii(text);
    assert(0 <= j < text.len() && !('\0' <= text[j] <= '\u{7f}'));
    if text[0] == '+' {
        assert(digits_of(text)[j - 1] == text[j]);
        lemma_not_a_digit(text, j - 1);
    } else {
        lemma_not_a_digit(text, j);
    }
}

/// Reads a number from text as `str::parse::<u64>` does: the text is one
/// decimal digit or more, with or without a `+` in front, and nothing
/// else; a number that does not fit is refused like any other text.
pub fn parse_u64(text: &str) -> (value: Option<u64>)
    ensures
        value == parsed_u64(text@),
{
    if !text.is_ascii() {
        proof {
            lemma_beyond_ascii(text@);
        }
        return None;
    }
    let bytes = text.as_bytes();
    let ghost chars = text@;
    let ghost digits = digits_of(chars);
    proof {
        is_ascii_chars_encode_utf8(chars);
    }
    let n = bytes.len();
    if n == 0 {
        return None;
    }
    proof {
        lemma_ascii_byte(chars[0], bytes@[0]);
    }
    let start: usize = if bytes[0] == 43u8 {
        1
    } else {
        0
    };
    if start == n {
        return None;
    }
    let mut value: u64 = 0;
    let mut i: usize = start;
    proof {
        assert(digits.take(0) =~= Seq::<char>::empty());
    }
    while i < n
        invariant
            start <= i <= n,
            start <= 1,
            n == bytes@.len(),
            n == chars.len(),
            chars == text@,
            digits == digits_of(chars),
            digits.len() == n - start,
            forall|j: int| 0 <= j < n - start ==> #[trigger] digits[j] == chars[j + start],
            forall|j: int| 0 <= j < n ==> #[trigger] bytes@[j] == chars[j] as u8,
            forall|j: int| 0 <= j < n ==> (#[trigger] chars[j]) <= '\u{7f}',
            forall|j: int| 0 <= j < i - start ==> is_digit(#[trigger] digits[j]),
            value == digits_value(digits.take(i - start)),
        decreases n - i,
    {
        let byte = bytes[i];
        let ghost k = i - start;
        proof {
            assert(digits[k] == chars[i as int]);
            assert(chars[i as int] <= '\u{7f}');
            lemma_ascii_byte(chars[i as int], byte);
        }
        if byte < 48u8 || byte > 57u8 {
            proof {
                lemma_not_a_digit(chars, k);
            }
            return None;
        }
        let digit: u64 = (byte - 48u8) as u64;
        proof {
            lemma_one_more_digit(digits, k);
            if 10 * value + digit > u64::MAX {
                lemma_too_large(chars, k + 1);
            }
        }
        let tenfold = match value.checked_mul(10) {
            Some(tenfold) => tenfold,
            None => { return None; },
        };
        value = match tenfold.checked_add(digit) {
            Some(sum) => sum,
            None => { return None; },
        };
        i += 1;
    }
    proof {
        assert(digits.take(n - start) =~= digits);
    }
    Some(value)
}

/// Reads a number from text as `str::parse::<usize>` does: as `parse_u64`
/// reads it, with a number that does not fit a `usize` refused.
pub fn parse_usize(text: &str) -> (value: Option<usize>)
    ensures
        value == parsed_usize(text@),
{
    match parse_u64(text) {
        Some(value) => {
            if value <= usize::MAX as u64 {
                Some(value as usize)
            } else {
                None
            }
        },
        None => None,
    }
}

/// The prefix of every variable's name, unless another is given.
pub const DEFAULT_PREFIX: &'static str = "APP_";

/// The view of an optional raw value.
pub open spec fn raw_view(raw: Option<&str>) -> Option<Seq<char>> {
    match raw {
        Some(text) => Some(text@),
        None => None,
    }
}

/// The full name of a variable: the prefix, `APP_` where none is given,
/// followed by the variable's own name.
pub fn variable_name(prefix: Option<&str>, name: &str) -> (full: String)
    ensures
        full@ == match prefix {
            Some(prefix) => prefix@,
            None => DEFAULT_PREFIX@,
        } + name@,
{
    let prefix = match prefix {
        Some(prefix) => prefix,
        None => DEFAULT_PREFIX,
    };
    let mut full = String::from_str(prefix);
    full.append(name);
    full
}

/// The number that a raw value stands for: the one it spells, and
/// `default` where there is no value or it spells none.
pub open spec fn number_or(parsed: Option<Option<usize>>, default: usize) -> usize {
    match parsed {
        Some(Some(value)) => value,
        _ => default,
    }
}

/// The number that a raw value stands for: the one it spells, and
/// `default` where there is no value or it spells none.
pub open spec fn long_number_or(parsed: Option<Option<u64>>, default: u64) -> u64 {
    match parsed {
        Some(Some(value)) => value,
        _ => default,
    }
}

/// What a raw value spells as a `usize`, if there is a value.
pub open spec fn spelled_usize(raw: Option<Seq<char>>) -> Option<Option<usize>> {
    match raw {
        Some(text) => Some(parsed_usize(text)),
        None => None,
    }
}

/// What a raw value spells as a `u64`, if there is a value.
pub open spec fn spelled_u64(raw: Option<Seq<char>>) -> Option<Option<u64>> {
    match raw {
        Some(text) => Some(parsed_u64(text)),
        None => None,
    }
}

/// Reads a size or count from a raw value, falling back on `default`.
pub fn usize_or(raw: Option<&str>, default: usize) -> (value: usize)
    ensures
        value == number_or(spelled_usize(raw_view(raw)), default),
{
    match raw {
        Some(text) => match parse_usize(text) {
            Some(value) => value,
            None => default,
        },
        None => default,
    }
}

/// Reads a number of seconds from a raw value, falling back on `default`.
pub fn u64_or(raw: Option<&str>, default: u64) -> (value: u64)
    ensures
        value == long_number_or(spelled_u64(raw_view(raw)), default),
{
    match raw {
        Some(text) => match parse_u64(text) {
            Some(value) => value,
            None => default,
        },
        None => default,
    }
}

/// A knob of the service that is set through the environment.
pub trait EnvironmentVariable<T> {
    /// Whether `value` is what the knob is set to when the environment
    /// holds `raw` for it.
    spec fn is_value(raw: Option<Seq<char>>, value: T) -> bool;

    /// The name of the variable, without the prefix, as the model sees it.
    spec fn variable() -> Seq<char>;

    /// The name of the variable, without the prefix.
    fn name() -> (name: &'static str)
        ensures
            name@ == Self::variable(),
    ;

    /// The value of the knob where the environment holds none.
    fn default() -> (value: T)
        ensures
            Self::is_value(None, value),
    ;

    /// The value of the knob where the environment holds `raw` for it.
    fn get(raw: Option<&str>) -> (value: T)
        ensures
            Self::is_value(raw_view(raw), value),
    ;
}

/// The size of an access token, in bytes.
pub struct AuthTokenSize;

impl EnvironmentVariable<usize> for AuthTokenSize {
    open spec fn is_value(raw: Option<Seq<char>>, value: usize) -> bool {
        value == number_or(spelled_usize(raw), 32)
    }

    open spec fn variable() -> Seq<char> {
        "AUTH_TOKEN_SIZE"@
    }

    fn name() -> (name: &'static str) {
        "AUTH_TOKEN_SIZE"
    }

    fn default() -> (value: usize) {
        32
    }

    fn get(raw: Option<&str>) -> (value: usize) {
        usize_or(raw, 32)
    }
}

/// The time that an access token lives, in seconds.
pub struct AuthTokenTtl;

impl EnvironmentVariable<u64> for AuthTokenTtl {
    open spec fn is_value(raw: Option<Seq<char>>, value: u64) -> bool {
        value == long_number_or(spelled_u64(raw), 3600)
    }

    open spec fn variable() -> Seq<char> {
        "AUTH_TOKEN_TTL"@
    }

    fn name() -> (name: &'static str) {
        "AUTH_TOKEN_TTL"
    }

    fn default() -> (value: u64) {
        3600
    }

    fn get(raw: Option<&str>) -> (value: u64) {
        u64_or(raw, 3600)
    }
}

/// The connection string of the database.
pub struct DbConnectionString;

impl EnvironmentVariable<String> for DbConnectionString {
    open spec fn is_value(raw: Option<Seq<char>>, value: String) -> bool {
        value@ == match raw {
            Some(text) => text,
            None => "sqlite://database.db"@,
        }
    }

    open spec fn variable() -> Seq<char> {
        "DB_CONNECTION_STRING"@
    }

    fn name() -> (name: &'static str) {
        "DB_CONNECTION_STRING"
    }

    fn default() -> (value: String) {
        String::from_str("sqlite://database.db")
    }

    fn get(raw: Option<&str>) -> (value: String) {
        match raw {
            Some(text) => String::from_str(text),
            None => String::from_str("sqlite://database.db"),
        }
    }
}

/// The path of the file that holds the encryption key.
pub struct EncryptionKeyPath;

impl EnvironmentVariable<String> for EncryptionKeyPath {
    open spec fn is_value(raw: Option<Seq<char>>, value: String) -> bool {
        value@ == match raw {
            Some(text) => text,
            None => "encryption.key"@,
        }
    }

    open spec fn variable() -> Seq<char> {
        "ENCRYPTION_KEY_PATH"@
    }

    fn name() -> (name: &'static str) {
        "ENCRYPTION_KEY_PATH"
    }

    fn default() -> (value: String) {
        String::from_str("encryption.key")
    }

    fn get(raw: Option<&str>) -> (value: String) {
        match raw {
            Some(text) => String::from_str(text),
            None => String::from_str("encryption.key"),
        }
    }
}

/// The size of a refresh token, in bytes.
pub struct RefreshTokenSize;

impl EnvironmentVariable<usize> for RefreshTokenSize {
    open spec fn is_value(raw: Option<Seq<char>>, value: usize) -> bool {
        value == number_or(spelled_usize(raw), 32)
    }

    open spec fn variable() -> Seq<char> {
        "REFRESH_TOKEN_SIZE"@
    }

    fn name() -> (name: &'static str) {
        "REFRESH_TOKEN_SIZE"
    }

    fn default() -> (value: usize) {
        32
    }

    fn get(raw: Option<&str>) -> (value: usize) {
        usize_or(raw, 32)
    }
}

/// The time that a refresh token lives, in seconds.
pub struct RefreshTokenTtl;

impl EnvironmentVariable<u64> for RefreshTokenTtl {
    open spec fn is_value(raw: Option<Seq<char>>, value: u64) -> bool {
        value == long_number_or(spelled_u64(raw), 604800)
    }

    open spec fn variable() -> Seq<char> {
        "REFRESH_TOKEN_TTL"@
    }

    fn name() -> (name: &'static str) {
        "REFRESH_TOKEN_TTL"
    }

    fn default() -> (value: u64) {
        604800
    }

    fn get(raw: Option<&str>) -> (value: u64) {
        u64_or(raw, 604800)
    }
}

/// The configuration of a session provider: made once, when the service
/// starts, and handed to the provider.
#[derive(Debug, Clone, Copy, PartialEq, Eq, Structural)]
pub struct Config {
    /// Bytes in an access token.
    pub auth_token_size: usize,
    /// Bytes in a refresh token.
    pub refresh_token_size: usize,
    /// Seconds that an access token lives.
    pub auth_token_ttl: u64,
    /// Seconds that a refresh token lives.
    pub refresh_token_ttl: u64,
}

/// The configuration that the environment asks for, given what it holds
/// for each of the four knobs.
pub open spec fn config_of(
    auth_token_size: Option<Seq<char>>,
    refresh_token_size: Option<Seq<char>>,
    auth_token_ttl: Option<Seq<char>>,
    refresh_token_ttl: Option<Seq<char>>,
) -> Config {
    Config {
        auth_token_size: number_or(spelled_usize(auth_token_size), 32),
        refresh_token_size: number_or(spelled_usize(refresh_token_size), 32),
        auth_token_ttl: long_number_or(spelled_u64(auth_token_ttl), 3600),
        refresh_token_ttl: long_number_or(spelled_u64(refresh_token_ttl), 604800),
    }
}

impl Config {
    /// The configuration for an environment that holds the given raw
    /// values.
    pub fn from_raw(
        auth_token_size: Option<&str>,
        refresh_token_size: Option<&str>,
        auth_token_ttl: Option<&str>,
        refresh_token_ttl: Option<&str>,
    ) -> (config: Config)
        ensures
            config == config_of(
                raw_view(auth_token_size),
                raw_view(refresh_token_size),
                raw_view(auth_token_ttl),
                raw_view(refresh_token_ttl),
            ),
    {
        Config {
            auth_token_size: AuthTokenSize::get(auth_token_size),
            refresh_token_size: RefreshTokenSize::get(refresh_token_size),
            auth_token_ttl: AuthTokenTtl::get(auth_token_ttl),
            refresh_token_ttl: RefreshTokenTtl::get(refresh_token_ttl),
        }
    }
}

impl Default for Config {
    fn default() -> (config: Config)
        ensures
            config == config_of(None, None, None, None),
    {
        Config::from_raw(None, None, None, None)
    }
}

} // verus!
