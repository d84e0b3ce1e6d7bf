use http_method::Method;
use http_method::MethodError;

const ALL_METHODS: [Method; 9] = [
    Method::Get,
    Method::Head,
    Method::Post,
    Method::Put,
    Method::Delete,
    Method::Connect,
    Method::Options,
    Method::Trace,
    Method::Patch,
];

const ALL_TOKENS: [&str; 9] = [
    "GET", "HEAD", "POST", "PUT", "DELETE", "CONNECT", "OPTIONS", "TRACE", "PATCH",
];

#[test]
fn implements_from_str() {
    let method = Method::from_str("POST").unwrap();
    assert_eq!(method, Method::Post);
}

#[test]
fn implements_try_from() {
    let method = Method::try_from("POST".as_bytes()).unwrap();
    assert_eq!(method, Method::Post);
}

#[test]
fn implements_to_string() {
    let method = Method::from_str("POST").unwrap();
    assert_eq!(method.to_string(), "POST");
}

#[test]
fn round_trip_every_variant() {
    for m in ALL_METHODS {
        assert_eq!(Method::from_str(&m.to_string()), Ok(m));
    }
}

#[test]
fn renders_canonical_tokens() {
    for (m, tok) in ALL_METHODS.iter().zip(ALL_TOKENS.iter()) {
        assert_eq!(m.to_string(), *tok);
    }
}

#[test]
fn rendering_literal_post() {
    assert_eq!(Method::from_str("POST").unwrap().to_string(), "POST");
}

#[test]
fn rejects_lowercase() {
    assert_eq!(Method::from_str("get"), Err(MethodError::InvalidMethod));
}

#[test]
fn rejects_trailing_space() {
    assert_eq!(Method::from_str("GET "), Err(MethodError::InvalidMethod));
}

#[test]
fn rejects_extension_token() {
    assert_eq!(Method::from_str("PROPFIND"), Err(MethodError::InvalidMethod));
}

#[test]
fn rejects_empty_and_near_misses() {
    for s in ["", "G", "GE", "GETS", "Get", " GET", "P0ST", "delete"] {
        assert_eq!(Method::from_str(s), Err(MethodError::InvalidMethod));
    }
}

#[test]
fn bytes_agree_with_text_for_every_token() {
    for tok in ALL_TOKENS {
        assert_eq!(Method::try_from(tok.as_bytes()), Method::from_str(tok));
    }
}

#[test]
fn bytes_agree_with_text_for_rejected_input() {
    for s in ["get", "GET ", "PROPFIND", ""] {
        assert_eq!(Method::try_from(s.as_bytes()), Method::from_str(s));
    }
}

#[test]
fn lone_continuation_byte_is_invalid_encoding() {
    assert_eq!(Method::try_from(&[0x80][..]), Err(MethodError::InvalidEncoding));
}

#[test]
fn truncated_sequence_is_invalid_encoding() {
    assert_eq!(Method::try_from(&[0x47, 0x45, 0xc3][..]), Err(MethodError::InvalidEncoding));
}

#[test]
fn overlong_encoding_is_invalid_encoding() {
    assert_eq!(Method::try_from(&[0xc0, 0xaf][..]), Err(MethodError::InvalidEncoding));
}

#[test]
fn well_formed_unknown_bytes_are_invalid_method() {
    assert_eq!(Method::try_from("FETCH".as_bytes()), Err(MethodError::InvalidMethod));
    assert_eq!(Method::try_from(&[0xc3, 0xa9][..]), Err(MethodError::InvalidMethod));
}

#[test]
fn predicate_table() {
    // (method, safe, idempotent, cacheable, has_body)
    let table = [
        (Method::Get, true, true, true, false),
        (Method::Head, true, true, true, false),
        (Method::Post, false, false, false, true),
        (Method::Put, false, true, false, true),
        (Method::Delete, false, true, false, true),
        (Method::Connect, false, false, false, false),
        (Method::Options, true, true, false, false),
        (Method::Trace, true, true, false, false),
        (Method::Patch, false, false, false, true),
    ];
    for (m, safe, idem, cache, body) in table {
        assert_eq!(m.is_safe(), safe);
        assert_eq!(m.is_idempotent(), idem);
        assert_eq!(m.is_cacheable(), cache);
        assert_eq!(m.has_body(), body);
    }
}
