//! The `Method` type: the nine standard HTTP request methods, their
//! canonical tokens, and the classification predicates of RFC 7231 §4.2.

use crate::encoding::bytes_equal;
use crate::encoding::is_valid_utf8;
use vstd::prelude::*;
use vstd::utf8::decode_utf8;
use vstd::utf8::decode_utf8_encode_utf8;
use vstd::utf8::encode_utf8;
use vstd::utf8::encode_utf8_decode_utf8;
use vstd::utf8::encode_utf8_valid_utf8;
use vstd::utf8::valid_utf8;

verus! {

/// Why an input was rejected by a parse entry point: the text is not one
/// of the nine canonical tokens, or the bytes are not valid UTF-8 text.
#[derive(Debug, Clone, Copy, PartialEq, Eq, Structural)]
pub enum MethodError {
    InvalidMethod,
    InvalidEncoding,
}

/// One of the nine standard HTTP request methods.
///
/// The set is closed: extension methods are not represented. A value is a
/// pure tag, immutable once constructed, with value semantics.
#[derive(Debug, Clone, Copy, PartialEq, Eq, Hash, Structural)]
pub enum Method {
    Get,
    Head,
    Post,
    Put,
    Delete,
    Connect,
    Options,
    Trace,
    Patch,
}

/// The canonical uppercase token of a method, as it appears on the wire in
/// an HTTP request line.
pub open spec fn token(m: Method) -> Seq<char> {
    match m {
        Method::Get => seq!['G', 'E', 'T'],
        Method::Head => seq!['H', 'E', 'A', 'D'],
        Method::Post => seq!['P', 'O', 'S', 'T'],
        Method::Put => seq!['P', 'U', 'T'],
        Method::Delete => seq!['D', 'E', 'L', 'E', 'T', 'E'],
        Method::Connect => seq!['C', 'O', 'N', 'N', 'E', 'C', 'T'],
        Method::Options => seq!['O', 'P', 'T', 'I', 'O', 'N', 'S'],
        Method::Trace => seq!['T', 'R', 'A', 'C', 'E'],
        Method::Patch => seq!['P', 'A', 'T', 'C', 'H'],
    }
}

/// The method whose canonical token is exactly `s`, if any. Matching is
/// case-sensitive and exact: no trimming, no case folding.
pub open spec fn parse_token(s: Seq<char>) -> Option<Method> {
    if s == token(Method::Get) {
        Some(Method::Get)
    } else if s == token(Method::Head) {
        Some(Method::Head)
    } else if s == token(Method::Post) {
        Some(Method::Post)
    } else if s == token(Method::Put) {
        Some(Method::Put)
    } else if s == token(Method::Delete) {
        Some(Method::Delete)
    } else if s == token(Method::Connect) {
        Some(Method::Connect)
    } else if s == token(Method::Options) {
        Some(Method::Options)
    } else if s == token(Method::Trace) {
        Some(Method::Trace)
    } else if s == token(Method::Patch) {
        Some(Method::Patch)
    } else {
        None
    }
}

/// What parsing a text token yields: the matching method, or
/// `InvalidMethod` when the text equals no canonical token.
pub open spec fn method_from_chars(s: Seq<char>) -> Result<Method, MethodError> {
    match parse_token(s) {
        Some(m) => Ok(m),
        None => Err(MethodError::InvalidMethod),
    }
}

/// What parsing a raw byte sequence yields: the bytes are first decoded as
/// UTF-8 text and the text is then matched, so a malformed encoding is
/// reported as `InvalidEncoding` and an unknown token as `InvalidMethod`.
pub open spec fn method_from_bytes(b: Seq<u8>) -> Result<Method, MethodError> {
    if valid_utf8(b) {
        method_from_chars(decode_utf8(b))
    } else {
        Err(MethodError::InvalidEncoding)
    }
}

/// Membership in the RFC 7231 §4.2.1 set of safe methods.
pub open spec fn spec_is_safe(m: Method) -> bool {
    m is Get || m is Head || m is Options || m is Trace
}

/// Membership in the RFC 7231 §4.2.2 set of idempotent methods.
pub open spec fn spec_is_idempotent(m: Method) -> bool {
    m is Get || m is Head || m is Options || m is Trace || m is Put || m is Delete
}

/// Membership in the RFC 7231 §4.2.3 set of cacheable methods.
pub open spec fn spec_is_cacheable(m: Method) -> bool {
    m is Get || m is Head
}

/// Membership in the set of methods that conventionally carry a request body.
pub open spec fn spec_has_body(m: Method) -> bool {
    m is Post || m is Put || m is Delete || m is Patch
}

impl Method {
    /// Safe methods must not produce any observable side effect on the
    /// origin server when used correctly (RFC 7231 §4.2.1); callers use
    /// this to decide whether automatic retries or pre-fetching are
    /// permissible.
    pub fn is_safe(&self) -> (r: bool)
        ensures
            r == spec_is_safe(*self),
    {
        match self {
            Method::Get | Method::Head | Method::Options | Method::Trace => true,
            _ => false,
        }
    }

    /// Idempotent methods yield the same server state when applied once or
    /// repeatedly (RFC 7231 §4.2.2); callers use this to decide whether a
    /// request may be retried after an ambiguous failure.
    pub fn is_idempotent(&self) -> (r: bool)
        ensures
            r == spec_is_idempotent(*self),
    {
        match self {
            Method::Get
            | Method::Head
            | Method::Options
            | Method::Trace
            | Method::Put
            | Method::Delete => true,
            _ => false,
        }
    }

    /// Cacheable methods are those whose successful responses may be stored
    /// by a cache and reused (RFC 7231 §4.2.3).
    pub fn is_cacheable(&self) -> (r: bool)
        ensures
            r == spec_is_cacheable(*self),
    {
        match self {
            Method::Get | Method::Head => true,
            _ => false,
        }
    }

    /// Methods that conventionally carry a request payload; a message
    /// parser uses this to decide whether to expect and read a body.
    pub fn has_body(&self) -> (r: bool)
        ensures
            r == spec_has_body(*self),
    {
        match self {
            Method::Post | Method::Put | Method::Delete | Method::Patch => true,
            _ => false,
        }
    }

    /// Parses a text token: exactly the nine canonical uppercase tokens
    /// are accepted, anything else is rejected as `InvalidMethod`.
    pub fn from_str(s: &str) -> (r: Result<Method, MethodError>)
        ensures
            r == method_from_chars(s@),
    {
        proof {
            lemma_token_literals();
        }
        let b = s.as_bytes();
        if bytes_equal(b, "GET".as_bytes()) {
            proof {
                lemma_text_match(s@, Method::Get);
            }
            Ok(Method::Get)
        } else if bytes_equal(b, "HEAD".as_bytes()) {
            proof {
                lemma_text_match(s@, Method::Head);
            }
            Ok(Method::Head)
        } else if bytes_equal(b, "POST".as_bytes()) {
            proof {
                lemma_text_match(s@, Method::Post);
            }
            Ok(Method::Post)
        } else if bytes_equal(b, "PUT".as_bytes()) {
            proof {
                lemma_text_match(s@, Method::Put);
            }
            Ok(Method::Put)
        } else if bytes_equal(b, "DELETE".as_bytes()) {
            proof {
                lemma_text_match(s@, Method::Delete);
            }
            Ok(Method::Delete)
        } else if bytes_equal(b, "CONNECT".as_bytes()) {
            proof {
                lemma_text_match(s@, Method::Connect);
            }
            Ok(Method::Connect)
        } else if bytes_equal(b, "OPTIONS".as_bytes()) {
            proof {
                lemma_text_match(s@, Method::Options);
            }
            Ok(Method::Options)
        } else if bytes_equal(b, "TRACE".as_bytes()) {
            proof {
                lemma_text_match(s@, Method::Trace);
            }
            Ok(Method::Trace)
        } else if bytes_equal(b, "PATCH".as_bytes()) {
            proof {
                lemma_text_match(s@, Method::Patch);
            }
            Ok(Method::Patch)
        } else {
            proof {
                lemma_text_mismatch(s@);
            }
            Err(MethodError::InvalidMethod)
        }
    }

    /// Parses a raw byte sequence, as read off a wire buffer: the bytes
    /// are decoded as UTF-8 text and the text matched against the nine
    /// canonical tokens; the two failures stay distinguishable.
    pub fn try_from(bytes: &[u8]) -> (r: Result<Method, MethodError>)
        ensures
            r == method_from_bytes(bytes@),
    {
        proof {
            lemma_token_literals();
        }
        if bytes_equal(bytes, "GET".as_bytes()) {
            proof {
                lemma_bytes_match(bytes@, Method::Get);
            }
            Ok(Method::Get)
        } else if bytes_equal(bytes, "HEAD".as_bytes()) {
            proof {
                lemma_bytes_match(bytes@, Method::Head);
            }
            Ok(Method::Head)
        } else if bytes_equal(bytes, "POST".as_bytes()) {
            proof {
                lemma_bytes_match(bytes@, Method::Post);
            }
            Ok(Method::Post)
        } else if bytes_equal(bytes, "PUT".as_bytes()) {
            proof {
                lemma_bytes_match(bytes@, Method::Put);
            }
            Ok(Method::Put)
        } else if bytes_equal(bytes, "DELETE".as_bytes()) {
            proof {
                lemma_bytes_match(bytes@, Method::Delete);
            }
            Ok(Method::Delete)
        } else if bytes_equal(bytes, "CONNECT".as_bytes()) {
            proof {
                lemma_bytes_match(bytes@, Method::Connect);
            }
            Ok(Method::Connect)
        } else if bytes_equal(bytes, "OPTIONS".as_bytes()) {
            proof {
                lemma_bytes_match(bytes@, Method::Options);
            }
            Ok(Method::Options)
        } else if bytes_equal(bytes, "TRACE".as_bytes()) {
            proof {
                lemma_bytes_match(bytes@, Method::Trace);
            }
            Ok(Method::Trace)
        } else if bytes_equal(bytes, "PATCH".as_bytes()) {
            proof {
                lemma_bytes_match(bytes@, Method::Patch);
            }
            Ok(Method::Patch)
        } else if is_valid_utf8(bytes) {
            proof {
                lemma_bytes_mismatch(bytes@);
            }
            Err(MethodError::InvalidMethod)
        } else {
            Err(MethodError::InvalidEncoding)
        }
    }

    /// Renders the canonical uppercase token, the exact inverse of
    /// parsing; used when serializing a request line back to wire format.
    pub fn to_string(&self) -> (r: String)
        ensures
            r@ == token(*self),
    {
        proof {
            lemma_token_literals();
        }
        match self {
            Method::Get => "GET".to_owned(),
            Method::Head => "HEAD".to_owned(),
            Method::Post => "POST".to_owned(),
            Method::Put => "PUT".to_owned(),
            Method::Delete => "DELETE".to_owned(),
            Method::Connect => "CONNECT".to_owned(),
            Method::Options => "OPTIONS".to_owned(),
            Method::Trace => "TRACE".to_owned(),
            Method::Patch => "PATCH".to_owned(),
        }
    }
}

/// Each canonical token literal views to the token of its method.
proof fn lemma_token_literals()
    ensures
        "GET"@ == token(Method::Get),
        "HEAD"@ == token(Method::Head),
        "POST"@ == token(Method::Post),
        "PUT"@ == token(Method::Put),
        "DELETE"@ == token(Method::Delete),
        "CONNECT"@ == token(Method::Connect),
        "OPTIONS"@ == token(Method::Options),
        "TRACE"@ == token(Method::Trace),
        "PATCH"@ == token(Method::Patch),
{
    reveal_strlit("GET");
    reveal_strlit("HEAD");
    reveal_strlit("POST");
    reveal_strlit("PUT");
    reveal_strlit("DELETE");
    reveal_strlit("CONNECT");
    reveal_strlit("OPTIONS");
    reveal_strlit("TRACE");
    reveal_strlit("PATCH");
    assert("GET"@ =~= token(Method::Get));
    assert("HEAD"@ =~= token(Method::Head));
    assert("POST"@ =~= token(Method::Post));
    assert("PUT"@ =~= token(Method::Put));
    assert("DELETE"@ =~= token(Method::Delete));
    assert("CONNECT"@ =~= token(Method::Connect));
    assert("OPTIONS"@ =~= token(Method::Options));
    assert("TRACE"@ =~= token(Method::Trace));
    assert("PATCH"@ =~= token(Method::Patch));
}

/// UTF-8 encoding is injective on character sequences.
proof fn lemma_encode_injective(s1: Seq<char>, s2: Seq<char>)
    requires
        encode_utf8(s1) == encode_utf8(s2),
    ensures
        s1 == s2,
{
    encode_utf8_decode_utf8(s1);
    encode_utf8_decode_utf8(s2);
}

/// A token parses back to its own method.
proof fn lemma_parse_token_of_token(m: Method)
    ensures
        parse_token(token(m)) == Some(m),
{
    match m {
        Method::Get => {},
        Method::Head => {},
        Method::Post => {},
        Method::Put => {},
        Method::Delete => {},
        Method::Connect => {},
        Method::Options => {},
        Method::Trace => {},
        Method::Patch => {},
    }
}

/// Text whose encoding equals a token's encoding parses to that method.
proof fn lemma_text_match(s: Seq<char>, m: Method)
    requires
        encode_utf8(s) == encode_utf8(token(m)),
    ensures
        method_from_chars(s) == Ok::<Method, MethodError>(m),
{
    lemma_encode_injective(s, token(m));
    lemma_parse_token_of_token(m);
}

/// Text whose encoding equals no token's encoding is rejected as an
/// invalid method.
proof fn lemma_text_mismatch(s: Seq<char>)
    requires
        encode_utf8(s) != encode_utf8(token(Method::Get)),
        encode_utf8(s) != encode_utf8(token(Method::Head)),
        encode_utf8(s) != encode_utf8(token(Method::Post)),
        encode_utf8(s) != encode_utf8(token(Method::Put)),
        encode_utf8(s) != encode_utf8(token(Method::Delete)),
        encode_utf8(s) != encode_utf8(token(Method::Connect)),
        encode_utf8(s) != encode_utf8(token(Method::Options)),
        encode_utf8(s) != encode_utf8(token(Method::Trace)),
        encode_utf8(s) != encode_utf8(token(Method::Patch)),
    ensures
        method_from_chars(s) == Err::<Method, MethodError>(MethodError::InvalidMethod),
{
}

/// Bytes equal to the encoding of a token parse to that method.
proof fn lemma_bytes_match(b: Seq<u8>, m: Method)
    requires
        b == encode_utf8(token(m)),
    ensures
        method_from_bytes(b) == Ok::<Method, MethodError>(m),
{
    encode_utf8_valid_utf8(token(m));
    encode_utf8_decode_utf8(token(m));
    lemma_parse_token_of_token(m);
}

/// Valid UTF-8 bytes that equal no token's encoding are rejected as an
/// invalid method.
proof fn lemma_bytes_mismatch(b: Seq<u8>)
    requires
        valid_utf8(b),
        b != encode_utf8(token(Method::Get)),
        b != encode_utf8(token(Method::Head)),
        b != encode_utf8(token(Method::Post)),
        b != encode_utf8(token(Method::Put)),
        b != encode_utf8(token(Method::Delete)),
        b != encode_utf8(token(Method::Connect)),
        b != encode_utf8(token(Method::Options)),
        b != encode_utf8(token(Method::Trace)),
        b != encode_utf8(token(Method::Patch)),
    ensures
        method_from_bytes(b) == Err::<Method, MethodError>(MethodError::InvalidMethod),
{
    decode_utf8_encode_utf8(b);
}

/// Round-trip law: every method's rendered token parses back to the same
/// method.
pub proof fn lemma_parse_render_round_trip(m: Method)
    ensures
        method_from_chars(token(m)) == Ok::<Method, MethodError>(m),
{
    lemma_parse_token_of_token(m);
}

/// Exactness: text that equals no canonical token is rejected as an
/// invalid method — no trimming, case folding, or extension tokens.
pub proof fn lemma_parse_exact(s: Seq<char>)
    requires
        forall|m: Method| s != #[trigger] token(m),
    ensures
        method_from_chars(s) == Err::<Method, MethodError>(MethodError::InvalidMethod),
{
    assert(s != token(Method::Get));
    assert(s != token(Method::Head));
    assert(s != token(Method::Post));
    assert(s != token(Method::Put));
    assert(s != token(Method::Delete));
    assert(s != token(Method::Connect));
    assert(s != token(Method::Options));
    assert(s != token(Method::Trace));
    assert(s != token(Method::Patch));
}

/// Byte/text equivalence: parsing the UTF-8 encoding of any text yields
/// the same result as parsing the text itself.
pub proof fn lemma_bytes_text_equivalence(s: Seq<char>)
    ensures
        method_from_bytes(encode_utf8(s)) == method_from_chars(s),
{
    encode_utf8_valid_utf8(s);
    encode_utf8_decode_utf8(s);
}

/// Invalid encoding: a byte sequence that is not valid UTF-8 is rejected
/// as an encoding failure, never as an unknown method.
pub proof fn lemma_invalid_encoding_rejected(b: Seq<u8>)
    requires
        !valid_utf8(b),
    ensures
        method_from_bytes(b) == Err::<Method, MethodError>(MethodError::InvalidEncoding),
{
}

} // verus!
