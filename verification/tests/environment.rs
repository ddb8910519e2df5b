use lib_authentication::clock::Timestamp;
use lib_authentication::environment::{
    u64_or, usize_or, variable_name, AuthTokenSize, AuthTokenTtl, Config, DbConnectionString,
    EncryptionKeyPath, EnvironmentVariable, RefreshTokenSize, RefreshTokenTtl,
};

#[test]
fn defaults() {
    assert_eq!(AuthTokenSize::default(), 32);
    assert_eq!(RefreshTokenSize::default(), 32);
    assert_eq!(AuthTokenTtl::default(), 3600);
    assert_eq!(RefreshTokenTtl::default(), 604800);
    assert_eq!(DbConnectionString::default(), "sqlite://database.db");
    assert_eq!(EncryptionKeyPath::default(), "encryption.key");
    let config = Config::default();
    assert_eq!(
        config,
        Config {
            auth_token_size: 32,
            refresh_token_size: 32,
            auth_token_ttl: 3600,
            refresh_token_ttl: 604800
        }
    );
}

#[test]
fn a_raw_value_that_spells_a_number_is_taken() {
    assert_eq!(AuthTokenSize::get(Some("64")), 64);
    assert_eq!(RefreshTokenSize::get(Some("0")), 0);
    assert_eq!(AuthTokenTtl::get(Some("18446744073709551615")), u64::MAX);
    assert_eq!(RefreshTokenTtl::get(Some("+5")), 5);
    assert_eq!(DbConnectionString::get(Some("postgres://db")), "postgres://db");
    assert_eq!(EncryptionKeyPath::get(Some("")), "");
}

#[test]
fn a_raw_value_that_spells_no_number_gives_the_default() {
    assert_eq!(AuthTokenSize::get(None), 32);
    assert_eq!(AuthTokenSize::get(Some("")), 32);
    assert_eq!(AuthTokenSize::get(Some(" 64")), 32);
    assert_eq!(AuthTokenSize::get(Some("-1")), 32);
    assert_eq!(AuthTokenTtl::get(Some("18446744073709551616")), 3600);
    assert_eq!(RefreshTokenTtl::get(Some("week")), 604800);
    assert_eq!(usize_or(Some("x"), 7), 7);
    assert_eq!(u64_or(Some("8"), 7), 8);
}

#[test]
fn config_from_raw_values() {
    let config = Config::from_raw(Some("16"), None, Some("bad"), Some("60"));
    assert_eq!(
        config,
        Config {
            auth_token_size: 16,
            refresh_token_size: 32,
            auth_token_ttl: 3600,
            refresh_token_ttl: 60
        }
    );
}

#[test]
fn names_carry_the_prefix() {
    assert_eq!(variable_name(None, AuthTokenSize::name()), "APP_AUTH_TOKEN_SIZE");
    assert_eq!(variable_name(Some("X_"), AuthTokenTtl::name()), "X_AUTH_TOKEN_TTL");
    assert_eq!(variable_name(Some(""), RefreshTokenSize::name()), "REFRESH_TOKEN_SIZE");
    assert_eq!(RefreshTokenTtl::name(), "REFRESH_TOKEN_TTL");
    assert_eq!(DbConnectionString::name(), "DB_CONNECTION_STRING");
    assert_eq!(EncryptionKeyPath::name(), "ENCRYPTION_KEY_PATH");
}

#[test]
fn instants() {
    assert_eq!(Timestamp::from_secs(2).nanos, 2_000_000_000);
    assert_eq!(Timestamp::from_secs(2).plus_secs(3), Timestamp::from_secs(5));
    assert_eq!(Timestamp { nanos: 1 }.plus_secs(0), Timestamp { nanos: 1 });
    assert_eq!(Timestamp { nanos: u128::MAX - 1 }.plus_secs(1), Timestamp { nanos: u128::MAX });
    assert!(Timestamp { nanos: 2 }.is_after(Timestamp { nanos: 1 }));
    assert!(!Timestamp { nanos: 1 }.is_after(Timestamp { nanos: 1 }));
    assert_eq!(Timestamp { nanos: 1_999_999_999 }.epoch_seconds_u32(), 1);
    assert_eq!(Timestamp::from_secs(4_294_967_295).epoch_seconds_u32(), u32::MAX);
    assert_eq!(Timestamp::from_secs(4_294_967_296).epoch_seconds_u32(), 0);
    assert!(Timestamp::now().nanos > Timestamp::from_secs(1_600_000_000).nanos);
    assert_eq!(Timestamp::from_reading(Some(12)), Timestamp { nanos: 12 });
    assert_eq!(Timestamp::from_reading(None), Timestamp { nanos: 0 });
}

#[test]
fn numbers_are_read_as_the_standard_library_reads_them() {
    let texts = [
        "", "0", "7", "007", "+", "+0", "+5", "++5", "-0", "-1", " 1", "1 ", "1_000", "0x10", "1e3",
        "18446744073709551615", "18446744073709551616", "+18446744073709551615",
        "99999999999999999999999999", "4294967295", "4294967296", "12a", "a12", "١٢", "1٢", "+١",
        "0000000000000000000000000000000000000001", "1.0", "１",
    ];
    for text in texts {
        assert_eq!(lib_authentication::environment::parse_u64(text), text.parse::<u64>().ok(), "{text:?}");
        assert_eq!(
            lib_authentication::environment::parse_usize(text),
            text.parse::<usize>().ok(),
            "{text:?}"
        );
    }
    assert_eq!(lib_authentication::environment::parse_u64("18446744073709551615"), Some(u64::MAX));
    assert_eq!(lib_authentication::environment::parse_u64("+42"), Some(42));
    assert_eq!(lib_authentication::environment::parse_usize("12"), Some(12));
}
