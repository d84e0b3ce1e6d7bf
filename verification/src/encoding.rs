//! Byte-level helpers: slice equality and UTF-8 validation, verified
//! against vstd's model of UTF-8.

use vstd::prelude::*;
use vstd::utf8::is_continuation_byte;
use vstd::utf8::is_leading_byte_width_1;
use vstd::utf8::is_leading_byte_width_2;
use vstd::utf8::is_leading_byte_width_3;
use vstd::utf8::is_leading_byte_width_4;
use vstd::utf8::length_of_first_scalar;
use vstd::utf8::partial_valid_partial_invalid_utf8;
use vstd::utf8::partial_valid_utf8;
use vstd::utf8::partial_valid_utf8_extend;
use vstd::utf8::valid_first_scalar;
use vstd::utf8::valid_utf8;

verus! {

/// Whether two byte slices hold the same bytes.
pub fn bytes_equal(a: &[u8], b: &[u8]) -> (r: bool)
    ensures
        r == (a@ == b@),
{
    if a.len() != b.len() {
        proof {
            assert(a@.len() != b@.len());
        }
        return false;
    }
    let n = a.len();
    let mut i: usize = 0;
    while i < n
        invariant
            n == a@.len() == b@.len(),
            i <= n,
            forall|j: int| 0 <= j < i ==> a@[j] == b@[j],
        decreases n - i,
    {
        if a[i] != b[i] {
            return false;
        }
        i += 1;
    }
    proof {
        assert(a@ =~= b@);
    }
    true
}

/// Whether the bytes form a valid UTF-8 encoding, per vstd's model: each
/// scalar is encoded with the correct leading and continuation bytes, no
/// encoding is overlong, and no scalar falls in the surrogate range.
pub fn is_valid_utf8(bytes: &[u8]) -> (r: bool)
    ensures
        r == valid_utf8(bytes@),
{
    let n = bytes.len();
    let mut i: usize = 0;
    while i < n
        invariant
            n == bytes@.len(),
            i <= n,
            partial_valid_utf8(bytes@, i as int),
        decreases n - i,
    {
        let ghost suffix = bytes@.subrange(i as int, n as int);
        let b1 = bytes[i];
        proof {
            assert(suffix.len() == n - i);
            assert(suffix[0] == bytes@[i as int]);
        }
        if b1 <= 0x7f {
            proof {
                assert(is_leading_byte_width_1(suffix[0]));
                assert(valid_first_scalar(suffix));
                assert(length_of_first_scalar(suffix) == 1);
                partial_valid_utf8_extend(bytes@, i as int);
            }
            i += 1;
        } else if 0xc0 <= b1 && b1 <= 0xdf {
            if n - i < 2 || !(0x80 <= bytes[i + 1] && bytes[i + 1] <= 0xbf) {
                proof {
                    assert(!valid_first_scalar(suffix));
                    lemma_suffix_rejects(bytes@, i as int);
                }
                return false;
            }
            let b2 = bytes[i + 1];
            proof {
                assert(suffix[1] == bytes@[i + 1]);
            }
            let cp: u32 = (((b1 & 0x1f) as u32) << 6u32) | ((b2 & 0x3f) as u32);
            if !(0x80 <= cp) {
                proof {
                    assert(!valid_first_scalar(suffix));
                    lemma_suffix_rejects(bytes@, i as int);
                }
                return false;
            }
            proof {
                assert(cp <= 0x7ff) by (bit_vector)
                    requires
                        cp == (((b1 & 0x1f) as u32) << 6u32) | ((b2 & 0x3f) as u32),
                ;
                assert(valid_first_scalar(suffix));
                assert(length_of_first_scalar(suffix) == 2);
                partial_valid_utf8_extend(bytes@, i as int);
            }
            i += 2;
        } else if 0xe0 <= b1 && b1 <= 0xef {
            if n - i < 3 || !(0x80 <= bytes[i + 1] && bytes[i + 1] <= 0xbf) || !(0x80 <= bytes[i
                + 2] && bytes[i + 2] <= 0xbf) {
                proof {
                    assert(!valid_first_scalar(suffix));
                    lemma_suffix_rejects(bytes@, i as int);
                }
                return false;
            }
            let b2 = bytes[i + 1];
            let b3 = bytes[i + 2];
            proof {
                assert(suffix[1] == bytes@[i + 1]);
                assert(suffix[2] == bytes@[i + 2]);
            }
            let cp: u32 = (((b1 & 0x0f) as u32) << 12u32) | (((b2 & 0x3f) as u32) << 6u32) | ((b3
                & 0x3f) as u32);
            if !(0x800 <= cp) || (0xd800 <= cp && cp <= 0xdfff) {
                proof {
                    assert(!valid_first_scalar(suffix));
                    lemma_suffix_rejects(bytes@, i as int);
                }
                return false;
            }
            proof {
                assert(valid_first_scalar(suffix));
                assert(length_of_first_scalar(suffix) == 3);
                partial_valid_utf8_extend(bytes@, i as int);
            }
            i += 3;
        } else if 0xf0 <= b1 && b1 <= 0xf7 {
            if n - i < 4 || !(0x80 <= bytes[i + 1] && bytes[i + 1] <= 0xbf) || !(0x80 <= bytes[i
                + 2] && bytes[i + 2] <= 0xbf) || !(0x80 <= bytes[i + 3] && bytes[i + 3] <= 0xbf) {
                proof {
                    assert(!valid_first_scalar(suffix));
                    lemma_suffix_rejects(bytes@, i as int);
                }
                return false;
            }
            let b2 = bytes[i + 1];
            let b3 = bytes[i + 2];
            let b4 = bytes[i + 3];
            proof {
                assert(suffix[1] == bytes@[i + 1]);
                assert(suffix[2] == bytes@[i + 2]);
                assert(suffix[3] == bytes@[i + 3]);
            }
            let cp: u32 = (((b1 & 0x07) as u32) << 18u32) | (((b2 & 0x3f) as u32) << 12u32) | (((b3
                & 0x3f) as u32) << 6u32) | ((b4 & 0x3f) as u32);
            if !(0x10000 <= cp && cp <= 0x10ffff) {
                proof {
                    assert(!valid_first_scalar(suffix));
                    lemma_suffix_rejects(bytes@, i as int);
                }
                return false;
            }
            proof {
                assert(valid_first_scalar(suffix));
                assert(length_of_first_scalar(suffix) == 4);
                partial_valid_utf8_extend(bytes@, i as int);
            }
            i += 4;
        } else {
            proof {
                assert(!is_leading_byte_width_1(suffix[0]));
                assert(!is_leading_byte_width_2(suffix[0]));
                assert(!is_leading_byte_width_3(suffix[0]));
                assert(!is_leading_byte_width_4(suffix[0]));
                assert(!valid_first_scalar(suffix));
                lemma_suffix_rejects(bytes@, i as int);
            }
            return false;
        }
    }
    proof {
        assert(bytes@.subrange(0, n as int) =~= bytes@);
    }
    true
}

/// A prefix known to be valid UTF-8 followed by a suffix that opens with a
/// malformed scalar encoding makes the whole sequence invalid.
proof fn lemma_suffix_rejects(bytes: Seq<u8>, i: int)
    requires
        0 <= i < bytes.len(),
        partial_valid_utf8(bytes, i),
        !valid_first_scalar(bytes.subrange(i, bytes.len() as int)),
    ensures
        !valid_utf8(bytes),
{
    let suffix = bytes.subrange(i, bytes.len() as int);
    assert(suffix.len() != 0);
    assert(!valid_utf8(suffix));
    partial_valid_partial_invalid_utf8(bytes, i);
}

} // verus!
