use http_method::bytes_equal;
use http_method::is_valid_utf8;

#[test]
fn equal_and_unequal_slices() {
    assert!(bytes_equal(&[], &[]));
    assert!(bytes_equal(&[1, 2, 3], &[1, 2, 3]));
    assert!(!bytes_equal(&[1, 2, 3], &[1, 2]));
    assert!(!bytes_equal(&[1, 2, 3], &[1, 2, 4]));
}

#[test]
fn ascii_is_valid() {
    assert!(is_valid_utf8(b""));
    assert!(is_valid_utf8(b"GET / HTTP/1.1"));
}

#[test]
fn multi_byte_scalars_are_valid() {
    // é (2 bytes), € (3 bytes), a 4-byte emoji scalar
    assert!(is_valid_utf8(&[0xc3, 0xa9]));
    assert!(is_valid_utf8(&[0xe2, 0x82, 0xac]));
    assert!(is_valid_utf8(&[0xf0, 0x9f, 0x98, 0x80]));
    assert!(is_valid_utf8("caffè ☕ 🙂".as_bytes()));
}

#[test]
fn malformed_sequences_are_invalid() {
    // lone continuation byte
    assert!(!is_valid_utf8(&[0x80]));
    // leading byte with no continuation
    assert!(!is_valid_utf8(&[0xc3]));
    // wrong continuation byte
    assert!(!is_valid_utf8(&[0xe2, 0x28, 0xa1]));
    // bytes never used by UTF-8
    assert!(!is_valid_utf8(&[0xf8, 0x80, 0x80, 0x80]));
    assert!(!is_valid_utf8(&[0xff]));
}

#[test]
fn overlong_encodings_are_invalid() {
    assert!(!is_valid_utf8(&[0xc0, 0xaf]));
    assert!(!is_valid_utf8(&[0xc1, 0xbf]));
    assert!(!is_valid_utf8(&[0xe0, 0x80, 0xaf]));
    assert!(!is_valid_utf8(&[0xf0, 0x80, 0x80, 0xaf]));
}

#[test]
fn surrogates_and_out_of_range_are_invalid() {
    // a high surrogate, and the first scalar value past 0x10ffff
    assert!(!is_valid_utf8(&[0xed, 0xa0, 0x80]));
    assert!(!is_valid_utf8(&[0xf4, 0x90, 0x80, 0x80]));
}

#[test]
fn validity_matches_std() {
    let samples: [&[u8]; 10] = [
        b"",
        b"plain ascii",
        &[0xc3, 0xa9],
        &[0x80],
        &[0xc0, 0xaf],
        &[0xed, 0xa0, 0x80],
        &[0xf4, 0x8f, 0xbf, 0xbf],
        &[0xf4, 0x90, 0x80, 0x80],
        &[0x47, 0x45, 0x54],
        &[0xe2, 0x82, 0xac, 0x21],
    ];
    for b in samples {
        assert_eq!(is_valid_utf8(b), std::str::from_utf8(b).is_ok());
    }
}
