//! A UTF-8 validity check over raw bytes, verified against the UTF-8
//! grammar in `vstd::utf8`.
//!
//! The message transport rejects any frame whose payload is not valid
//! UTF-8, so the decoder needs an executable check whose answer is exactly
//! [`valid_utf8`].

use vstd::prelude::*;
use vstd::utf8::*;

verus! {

/// Check whether `bytes[i..]` begins with a well-formed UTF-8 encoding of
/// a single Unicode scalar; on success return the width of that encoding.
fn check_first_scalar(bytes: &[u8], i: usize) -> (r: Option<usize>)
    requires
        i < bytes@.len(),
    ensures
        ({
            let tail = bytes@.subrange(i as int, bytes@.len() as int);
            match r {
                Some(w) => valid_first_scalar(tail) && w == length_of_first_scalar(tail) && 1 <= w
                    <= 4 && i + w <= bytes@.len(),
                None => !valid_first_scalar(tail),
            }
        }),
{
    let ghost tail = bytes@.subrange(i as int, bytes@.len() as int);
    let n = bytes.len();
    let b0 = bytes[i];
    assert(tail[0] == b0);
    if b0 < 0x80 {
        // One byte: the scalar is the byte itself, never overlong and
        // below the surrogate range.
        Some(1)
    } else if 0xc0 <= b0 && b0 <= 0xdf {
        if n - i < 2 {
            assert(!valid_leading_and_continuation_bytes_first_codepoint(tail));
            return None;
        }
        let b1 = bytes[i + 1];
        assert(tail[1] == b1);
        if !(0x80 <= b1 && b1 <= 0xbf) {
            assert(!valid_leading_and_continuation_bytes_first_codepoint(tail));
            return None;
        }
        let cp: u32 = (((b0 & 0x1f) as u32) << 6u32) | ((b1 & 0x3f) as u32);
        assert(cp == decode_first_codepoint(tail));
        // A two-byte scalar is at most 0x7ff, below the surrogate range;
        // only the overlong check remains.
        assert(cp <= 0x7ff) by (bit_vector)
            requires
                cp == (((b0 & 0x1f) as u32) << 6u32) | ((b1 & 0x3f) as u32),
        ;
        if cp >= 0x80 {
            Some(2)
        } else {
            None
        }
    } else if 0xe0 <= b0 && b0 <= 0xef {
        if n - i < 3 {
            assert(!valid_leading_and_continuation_bytes_first_codepoint(tail));
            return None;
        }
        let b1 = bytes[i + 1];
        let b2 = bytes[i + 2];
        assert(tail[1] == b1 && tail[2] == b2);
        if !(0x80 <= b1 && b1 <= 0xbf) || !(0x80 <= b2 && b2 <= 0xbf) {
            assert(!valid_leading_and_continuation_bytes_first_codepoint(tail));
            return None;
        }
        let cp: u32 = ((((b0 & 0x0f) as u32) << 12u32) | (((b1 & 0x3f) as u32) << 6u32)) | ((b2
            & 0x3f) as u32);
        assert(cp == decode_first_codepoint(tail)) by {
            assert(((((b0 & 0x0f) as u32) << 12u32) | (((b1 & 0x3f) as u32) << 6u32)) | ((b2
                & 0x3f) as u32) == (((b0 & 0x0f) as u32) << 12u32) | ((((b1 & 0x3f) as u32)
                << 6u32) | ((b2 & 0x3f) as u32))) by (bit_vector);
        }
        if cp >= 0x800 && !(0xd800 <= cp && cp <= 0xdfff) {
            Some(3)
        } else {
            None
        }
    } else if 0xf0 <= b0 && b0 <= 0xf7 {
        if n - i < 4 {
            assert(!valid_leading_and_continuation_bytes_first_codepoint(tail));
            return None;
        }
        let b1 = bytes[i + 1];
        let b2 = bytes[i + 2];
        let b3 = bytes[i + 3];
        assert(tail[1] == b1 && tail[2] == b2 && tail[3] == b3);
        if !(0x80 <= b1 && b1 <= 0xbf) || !(0x80 <= b2 && b2 <= 0xbf) || !(0x80 <= b3 && b3
            <= 0xbf) {
            assert(!valid_leading_and_continuation_bytes_first_codepoint(tail));
            return None;
        }
        let cp: u32 = (((((b0 & 0x07) as u32) << 18u32) | (((b1 & 0x3f) as u32) << 12u32)) | (((b2
            & 0x3f) as u32) << 6u32)) | ((b3 & 0x3f) as u32);
        assert(cp == decode_first_codepoint(tail)) by {
            assert((((((b0 & 0x07) as u32) << 18u32) | (((b1 & 0x3f) as u32) << 12u32)) | (((b2
                & 0x3f) as u32) << 6u32)) | ((b3 & 0x3f) as u32) == (((b0 & 0x07) as u32)
                << 18u32) | ((((b1 & 0x3f) as u32) << 12u32) | ((((b2 & 0x3f) as u32) << 6u32) | ((
            b3 & 0x3f) as u32)))) by (bit_vector);
        }
        // A four-byte scalar never lands in the surrogate range; the range
        // check below covers both the overlong and the upper bound.
        if 0x10000 <= cp && cp <= 0x10ffff {
            Some(4)
        } else {
            None
        }
    } else {
        // A continuation byte or a byte above 0xf7 cannot lead a scalar.
        assert(!valid_leading_and_continuation_bytes_first_codepoint(tail));
        None
    }
}

/// True exactly when `bytes` is a valid UTF-8 encoding.
pub fn is_valid_utf8(bytes: &[u8]) -> (r: bool)
    ensures
        r == valid_utf8(bytes@),
{
    let n = bytes.len();
    let mut i: usize = 0;
    while i < n
        invariant
            0 <= i <= n,
            n == bytes@.len(),
            partial_valid_utf8(bytes@, i as int),
        decreases n - i,
    {
        match check_first_scalar(bytes, i) {
            Some(w) => {
                proof {
                    broadcast use partial_valid_utf8_extend;

                    assert(partial_valid_utf8(bytes@, i + w));
                }
                i += w;
            },
            None => {
                proof {
                    let tail = bytes@.subrange(i as int, bytes@.len() as int);
                    assert(tail.len() > 0);
                    assert(!valid_utf8(tail));
                    partial_valid_partial_invalid_utf8(bytes@, i as int);
                }
                return false;
            },
        }
    }
    proof {
        assert(bytes@.subrange(0, i as int) =~= bytes@);
    }
    true
}

} // verus!
