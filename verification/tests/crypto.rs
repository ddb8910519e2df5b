use lib_authentication::crypto::hash::sha256::Hash as Sha256;
use lib_authentication::crypto::hash::sha512::Hash as Sha512;
use lib_authentication::crypto::password::hash_password_with_salt;
use lib_authentication::crypto::{
    fill_bytes, hash_password, verify_password, Error, Key, Sha256Hash,
};

#[test]
fn test_fill_bytes() {
    let mut bytes = [0u8; 32];
    fill_bytes(&mut bytes).unwrap();
    assert_ne!(bytes, [0u8; 32]);
}

#[test]
fn fill_bytes_keeps_the_length() {
    let mut bytes = vec![0u8; 100];
    fill_bytes(&mut bytes).unwrap();
    assert_eq!(bytes.len(), 100);
    let mut none: [u8; 0] = [];
    assert!(fill_bytes(&mut none).is_ok());
}

#[test]
fn test_encrypt_decrypt() {
    let key = Key::generate().unwrap();
    let plaintext = b"Hello, world!";

    let ciphertext = key.encrypt(plaintext).unwrap();
    assert_ne!(ciphertext, plaintext);

    let decrypted = key.decrypt(&ciphertext).unwrap();
    assert_eq!(decrypted, plaintext);
}

#[test]
fn encrypt_prepends_a_nonce_and_appends_a_tag() {
    let key = Key::hash_from(b"secret");
    let first = key.encrypt(b"Hello, world!").unwrap();
    let second = key.encrypt(b"Hello, world!").unwrap();
    assert_eq!(first.len(), 24 + 13 + 16);
    assert_ne!(first, second);
    assert_eq!(key.encrypt(b"").unwrap().len(), 24 + 16);
}

#[test]
fn decrypt_refuses_what_was_not_encrypted() {
    let key = Key::hash_from(b"secret");
    assert!(matches!(key.decrypt(&[0u8; 23]), Err(Error::Unspecified(_))));
    assert!(matches!(key.decrypt(&[0u8; 24]), Err(Error::Unspecified(_))));
    assert!(matches!(key.decrypt(&[0u8; 64]), Err(Error::Unspecified(_))));

    let mut message = key.encrypt(b"Hello, world!").unwrap();
    let last = message.len() - 1;
    message[last] ^= 1;
    assert!(matches!(key.decrypt(&message), Err(Error::Unspecified(_))));

    let other = Key::hash_from(b"another secret");
    let message = key.encrypt(b"Hello, world!").unwrap();
    assert!(other.decrypt(&message).is_err());
}

#[test]
fn key_from_a_source_is_its_digest() {
    let key = Key::hash_from(b"hello world");
    let again = Key::hash_from(b"hello world");
    assert_eq!(key, again);
    assert_eq!(key.into_bytes(), Sha256Hash::new(b"hello world").into_bytes());
    assert_ne!(Key::hash_from(b""), Key::from([0u8; 32]));
}

#[test]
fn generated_keys_differ() {
    let first = Key::generate().unwrap();
    let second = Key::generate().unwrap();
    assert_ne!(first, second);
    assert_eq!(first.as_bytes().len(), 32);
}

#[test]
fn hash_test_sha256_hash() {
    let input = b"hello world";
    let expected = Sha256Hash::from([
        0xb9, 0x4d, 0x27, 0xb9, 0x93, 0x4d, 0x3e, 0x08, 0xa5, 0x2e, 0x52, 0xd7, 0xda, 0x7d, 0xab,
        0xfa, 0xc4, 0x84, 0xef, 0xe3, 0x7a, 0x53, 0x80, 0xee, 0x90, 0x88, 0xf7, 0xac, 0xe2, 0xef,
        0xcd, 0xe9,
    ]);
    let hash = Sha256Hash::new(input);

    assert_eq!(hash, expected);
}

#[test]
fn sha256_test_sha256_hash() {
    let input = b"hello world";
    let expected = Sha256::from([
        0xb9, 0x4d, 0x27, 0xb9, 0x93, 0x4d, 0x3e, 0x08, 0xa5, 0x2e, 0x52, 0xd7, 0xda, 0x7d, 0xab,
        0xfa, 0xc4, 0x84, 0xef, 0xe3, 0x7a, 0x53, 0x80, 0xee, 0x90, 0x88, 0xf7, 0xac, 0xe2, 0xef,
        0xcd, 0xe9,
    ]);
    let hash = Sha256::new(input);

    assert_eq!(hash, expected);
}

#[test]
fn test_sha512_hash() {
    let input = b"hello world";
    let expected = Sha512::from([
        0x30, 0x9e, 0xcc, 0x48, 0x9c, 0x12, 0xd6, 0xeb, 0x4c, 0xc4, 0x0f, 0x50, 0xc9, 0x02, 0xf2,
        0xb4, 0xd0, 0xed, 0x77, 0xee, 0x51, 0x1a, 0x7c, 0x7a, 0x9b, 0xcd, 0x3c, 0xa8, 0x6d, 0x4c,
        0xd8, 0x6f, 0x98, 0x9d, 0xd3, 0x5b, 0xc5, 0xff, 0x49, 0x96, 0x70, 0xda, 0x34, 0x25, 0x5b,
        0x45, 0xb0, 0xcf, 0xd8, 0x30, 0xe8, 0x1f, 0x60, 0x5d, 0xcf, 0x7d, 0xc5, 0x54, 0x2e, 0x93,
        0xae, 0x9c, 0xd7, 0x6f,
    ]);
    let hash = Sha512::new(input);

    assert_eq!(hash, expected);
}

#[test]
fn digest_of_nothing() {
    let hash = Sha256Hash::new(b"");
    assert_eq!(hash.as_bytes()[..4], [0xe3, 0xb0, 0xc4, 0x42]);
    let hash = Sha512::new(b"");
    assert_eq!(hash.as_bytes()[..4], [0xcf, 0x83, 0xe1, 0x35]);
}

#[test]
fn test_password_hash() {
    let password = "hunter42";
    let password_hash = hash_password(password.as_bytes()).unwrap();
    assert!(verify_password(password.as_bytes(), &password_hash).unwrap());
}

#[test]
fn test_invalid_password() {
    let password = "hunter42";
    let password_hash = hash_password(password.as_bytes()).unwrap();
    assert!(!verify_password(b"hunter43", &password_hash).unwrap());
}

#[test]
fn unique_hashes() {
    let password = "hunter42";
    let password_hash = hash_password(password.as_bytes()).unwrap();
    let password_hash2 = hash_password(password.as_bytes()).unwrap();

    assert_ne!(password_hash, password_hash2);
}

#[test]
fn a_password_hash_is_an_argon2id_phc_string() {
    let password_hash = hash_password(b"hunter42").unwrap();
    assert!(password_hash.starts_with("$argon2id$v=19$"));
}

#[test]
fn verify_refuses_what_is_no_password_hash() {
    assert!(matches!(verify_password(b"hunter42", ""), Err(Error::InvalidPasswordHash(_))));
    assert!(matches!(verify_password(b"hunter42", "hunter42"), Err(Error::InvalidPasswordHash(_))));
}

#[test]
fn encryption_under_a_given_nonce_is_the_nonce_and_what_it_seals() {
    let key = Key::from([7u8; 32]);
    let nonce = [9u8; 24];
    let message = key.encrypt_with_nonce(&nonce, b"attack at dawn").unwrap();
    assert_eq!(message.len(), 24 + 14 + 16);
    assert_eq!(&message[..24], &nonce);
    assert_ne!(&message[24..38], b"attack at dawn");
    assert_eq!(key.encrypt_with_nonce(&nonce, b"attack at dawn").unwrap(), message);
    assert_ne!(key.encrypt_with_nonce(&[8u8; 24], b"attack at dawn").unwrap()[24..], message[24..]);
    assert_eq!(key.decrypt(&message).unwrap(), b"attack at dawn");
    assert_eq!(key.encrypt_with_nonce(&nonce, b"").unwrap().len(), 24 + 16);
}

#[test]
fn a_password_hash_under_a_given_salt_names_the_salt_and_verifies() {
    let hash = hash_password_with_salt(b"correct-horse", &[1u8; 16]).unwrap();
    assert!(hash.starts_with("$argon2id$v=19$m=19456,t=2,p=1$AQEBAQEBAQEBAQEBAQEBAQ$"));
    assert_eq!(hash_password_with_salt(b"correct-horse", &[1u8; 16]).unwrap(), hash);
    assert_ne!(hash_password_with_salt(b"correct-horse", &[2u8; 16]).unwrap(), hash);
    assert!(verify_password(b"correct-horse", &hash).unwrap());
}
