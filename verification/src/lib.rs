//! A verified model of the HTTP request method: the closed set of nine
//! standard methods, their canonical wire tokens, and the classification
//! predicates (safety, idempotency, cacheability, request-body convention)
//! that protocol-level decisions rest on.

mod encoding;
mod method;

pub use encoding::bytes_equal;
pub use encoding::is_valid_utf8;
pub use method::Method;
pub use method::MethodError;
pub use method::lemma_bytes_text_equivalence;
pub use method::lemma_invalid_encoding_rejected;
pub use method::lemma_parse_exact;
pub use method::lemma_parse_render_round_trip;
pub use method::method_from_bytes;
pub use method::method_from_chars;
pub use method::parse_token;
pub use method::spec_has_body;
pub use method::spec_is_cacheable;
pub use method::spec_is_idempotent;
pub use method::spec_is_safe;
pub use method::token;
