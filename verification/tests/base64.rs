use lib_authentication::base64::{decode, decode_into, encode, encode_into, Error};

#[test]
fn test_encode_into() {
    let bytes = b"example bytestring!";
    let mut target = [0u8; 128];
    let len = encode_into(bytes, &mut target).unwrap();

    assert_eq!(len, 26);
    assert_eq!(&target[..len], b"ZXhhbXBsZSBieXRlc3RyaW5nIQ");
    assert_eq!(&target[..=len], b"ZXhhbXBsZSBieXRlc3RyaW5nIQ\0");
}

#[test]
fn test_decode_into() {
    let bytes = b"ZXhhbXBsZSBieXRlc3RyaW5nIQ";
    let mut target = [0u8; 128];
    let len = decode_into(bytes, &mut target).unwrap();

    assert_eq!(len, 19);
    assert_eq!(&target[..len], b"example bytestring!");
}

#[test]
fn test_encode_decode() {
    let bytes = b"example bytestring!";
    let mut target = [0u8; 128];
    let len = encode_into(bytes, &mut target).unwrap();
    let encoded = &target[..len];

    let mut target = [0u8; 128];
    let len = decode_into(encoded, &mut target).unwrap();
    let decoded = &target[..len];

    assert_eq!(decoded, bytes);
}

#[test]
fn test_decode_encode() {
    let bytes = b"ZXhhbXBsZSBieXRlc3RyaW5nIQ";
    let mut target = [0u8; 128];
    let len = decode_into(bytes, &mut target).unwrap();
    let decoded = &target[..len];

    let mut target = [0u8; 128];
    let len = encode_into(decoded, &mut target).unwrap();
    let encoded = &target[..len];

    assert_eq!(encoded, bytes);
}

#[test]
fn encode_gives_the_documented_text() {
    assert_eq!(encode(b"example bytestring!").unwrap(), "ZXhhbXBsZSBieXRlc3RyaW5nIQ");
    assert_eq!(encode(b"").unwrap(), "");
}

#[test]
fn decode_gives_the_documented_bytes() {
    assert_eq!(decode(b"ZXhhbXBsZSBieXRlc3RyaW5nIQ").unwrap(), b"example bytestring!");
    assert_eq!(decode(b"").unwrap(), Vec::<u8>::new());
}

#[test]
fn encode_into_refuses_a_short_target() {
    let mut target = [0u8; 23];
    assert_eq!(encode_into(b"example bytestring!", &mut target), Err(Error::InvalidLength));
    assert_eq!(target, [0u8; 23]);
}

#[test]
fn encode_into_leaves_the_rest_of_the_target_as_it_was() {
    let mut target = [0xffu8; 30];
    assert_eq!(encode_into(b"example bytestring!", &mut target), Ok(26));
    assert_eq!(&target[..26], b"ZXhhbXBsZSBieXRlc3RyaW5nIQ");
    assert_eq!(&target[26..], &[0xffu8; 4]);
    let mut exact = [0u8; 26];
    assert_eq!(encode_into(b"example bytestring!", &mut exact), Ok(26));
    let mut none: [u8; 0] = [];
    assert_eq!(encode_into(b"", &mut none), Ok(0));
}

#[test]
fn decode_into_refuses_a_short_target() {
    let mut target = [0u8; 18];
    assert_eq!(
        decode_into(b"ZXhhbXBsZSBieXRlc3RyaW5nIQ", &mut target),
        Err(Error::InvalidLength)
    );
    assert_eq!(target, [0u8; 18]);
}

#[test]
fn decode_refuses_malformed_text() {
    assert_eq!(decode(b"not base64!"), Err(Error::InvalidEncoding));
    assert_eq!(decode(b"A"), Err(Error::InvalidEncoding));
    assert_eq!(decode(b"ZXhhbXBsZQ=="), Err(Error::InvalidEncoding));
    assert_eq!(decode(b"ZR"), Err(Error::InvalidEncoding));
}

#[test]
fn round_trip_for_every_length_below_128() {
    for n in 0..128usize {
        let bytes: Vec<u8> = (0..n).map(|i| (i * 37 + n) as u8).collect();
        let text = encode(&bytes).unwrap();
        assert_eq!(text.len(), (4 * n + 2) / 3);
        assert_eq!(decode(text.as_bytes()).unwrap(), bytes);
    }
}
