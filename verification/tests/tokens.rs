use lib_authentication::base64::{decode, encode};
use lib_authentication::data::{Interface, Token};
use lib_authentication::{AuthToken, RefreshToken};

#[test]
fn token_test_generate() {
    let token = Token::generate(32).unwrap();
    assert_eq!(token.len(), 32);
}

#[test]
fn token_test_generate_different() {
    let token1 = Token::generate(32).unwrap();
    let token2 = Token::generate(32).unwrap();
    assert_ne!(token1, token2);
}

#[test]
fn tokens_of_each_kind_have_the_size_asked_for() {
    assert_eq!(AuthToken::generate(32).unwrap().len(), 32);
    assert_eq!(RefreshToken::generate(48).unwrap().len(), 48);
    let none = AuthToken::generate(0).unwrap();
    assert!(none.is_empty());
    assert_eq!(none.len(), 0);
    assert!(Token::empty().is_empty());
}

#[test]
fn a_token_holds_the_bytes_it_was_made_from() {
    let token = AuthToken::from_bytes(vec![1, 2, 3]);
    assert_eq!(token.as_bytes(), &[1, 2, 3]);
    assert_eq!(token.len(), 3);
    assert!(!token.is_empty());
    assert_eq!(token, AuthToken::from_bytes(vec![1, 2, 3]));
    assert_ne!(token, AuthToken::from_bytes(vec![1, 2, 4]));
    assert_eq!(token.clone(), token);
}

#[test]
fn a_token_is_text_only_when_its_bytes_are() {
    assert_eq!(Token::from_bytes(b"hello".to_vec()).to_string(), Some("hello".to_string()));
    assert_eq!(Token::from_bytes(vec![0xff, 0xfe]).to_string(), None);
    assert_eq!(RefreshToken::from_bytes(Vec::new()).to_string(), Some(String::new()));
}

#[test]
fn transport_round_trip_for_every_size_below_128() {
    for n in 0..128usize {
        let token = AuthToken::generate(n).unwrap();
        let text = encode(token.as_bytes()).unwrap();
        let back = AuthToken::from_bytes(decode(text.as_bytes()).unwrap());
        assert_eq!(back, token);
    }
}
