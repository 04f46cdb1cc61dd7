//! A verified UTF-8 validity checker.
//!
//! [`utf8_check`] scans a byte buffer left to right and either confirms that
//! the whole buffer is valid UTF-8 or reports the first byte offset at which
//! no well-formed scalar encoding starts.  Validity is stated against
//! [`vstd::utf8::valid_utf8`], the mathematical definition of the encoding.

use vstd::prelude::*;
use vstd::utf8::*;

verus! {

broadcast use vstd::seq::group_seq_axioms;

/// The first `i` bytes are valid UTF-8, but no well-formed scalar encoding
/// starts at offset `i` (equivalently: byte `i` is where a left-to-right
/// validation stops).
pub open spec fn utf8_rejects_at(bytes: Seq<u8>, i: int) -> bool {
    &&& 0 <= i < bytes.len()
    &&& partial_valid_utf8(bytes, i)
    &&& !valid_first_scalar(bytes.subrange(i, bytes.len() as int))
}

/// A rejected buffer is not valid UTF-8.
pub proof fn lemma_rejects_at_not_valid(bytes: Seq<u8>, i: int)
    requires
        utf8_rejects_at(bytes, i),
    ensures
        !valid_utf8(bytes),
{
    let rem = bytes.subrange(i, bytes.len() as int);
    assert(rem.len() > 0);
    assert(!valid_utf8(rem));
    partial_valid_partial_invalid_utf8(bytes, i);
}

proof fn lemma_scalar_width_1(s: Seq<u8>)
    requires
        s.len() >= 1,
        s[0] < 0x80,
    ensures
        valid_first_scalar(s),
        length_of_first_scalar(s) == 1,
{
    let b0 = s[0];
    assert(is_leading_byte_width_1(b0));
    assert(((b0 & 0x7f) as u32) < 0xd800) by (bit_vector)
        requires
            b0 < 0x80,
    ;
    assert(not_surrogate(decode_first_codepoint(s)));
}

proof fn lemma_scalar_width_2(s: Seq<u8>)
    requires
        s.len() >= 2,
        0xc2 <= s[0] <= 0xdf,
        is_continuation_byte(s[1]),
    ensures
        valid_first_scalar(s),
        length_of_first_scalar(s) == 2,
{
    let b0 = s[0];
    let b1 = s[1];
    assert(is_leading_byte_width_2(b0) && !is_leading_byte_width_1(b0));
    let cp = ((((b0 & 0x1f) as u32) << 6) | ((b1 & 0x3f) as u32)) as u32;
    assert(0x80 <= cp && cp <= 0x7ff) by (bit_vector)
        requires
            cp == (((b0 & 0x1f) as u32) << 6) | ((b1 & 0x3f) as u32),
            0xc2 <= b0 <= 0xdf,
            0x80 <= b1 <= 0xbf,
    ;
    assert(decode_first_codepoint(s) == cp);
}

proof fn lemma_scalar_width_3(s: Seq<u8>)
    requires
        s.len() >= 3,
        0xe0 <= s[0] <= 0xef,
        is_continuation_byte(s[1]),
        is_continuation_byte(s[2]),
        s[0] == 0xe0 ==> s[1] >= 0xa0,
        s[0] == 0xed ==> s[1] <= 0x9f,
    ensures
        valid_first_scalar(s),
        length_of_first_scalar(s) == 3,
{
    let b0 = s[0];
    let b1 = s[1];
    let b2 = s[2];
    assert(is_leading_byte_width_3(b0) && !is_leading_byte_width_1(b0)
        && !is_leading_byte_width_2(b0));
    let cp = ((((b0 & 0x0f) as u32) << 12) | (((b1 & 0x3f) as u32) << 6) | ((b2
        & 0x3f) as u32)) as u32;
    assert(0x800 <= cp && cp <= 0xffff && !(0xd800 <= cp <= 0xdfff)) by (bit_vector)
        requires
            cp == (((b0 & 0x0f) as u32) << 12) | (((b1 & 0x3f) as u32) << 6) | ((b2
                & 0x3f) as u32),
            0xe0 <= b0 <= 0xef,
            0x80 <= b1 <= 0xbf,
            0x80 <= b2 <= 0xbf,
            b0 == 0xe0 ==> b1 >= 0xa0,
            b0 == 0xed ==> b1 <= 0x9f,
    ;
    assert(decode_first_codepoint(s) == cp);
}

proof fn lemma_scalar_width_4(s: Seq<u8>)
    requires
        s.len() >= 4,
        0xf0 <= s[0] <= 0xf4,
        is_continuation_byte(s[1]),
        is_continuation_byte(s[2]),
        is_continuation_byte(s[3]),
        s[0] == 0xf0 ==> s[1] >= 0x90,
        s[0] == 0xf4 ==> s[1] <= 0x8f,
    ensures
        valid_first_scalar(s),
        length_of_first_scalar(s) == 4,
{
    let b0 = s[0];
    let b1 = s[1];
    let b2 = s[2];
    let b3 = s[3];
    assert(is_leading_byte_width_4(b0) && !is_leading_byte_width_1(b0)
        && !is_leading_byte_width_2(b0) && !is_leading_byte_width_3(b0));
    let cp = ((((b0 & 0x07) as u32) << 18) | (((b1 & 0x3f) as u32) << 12) | (((b2
        & 0x3f) as u32) << 6) | ((b3 & 0x3f) as u32)) as u32;
    assert(0x10000 <= cp && cp <= 0x10ffff) by (bit_vector)
        requires
            cp == (((b0 & 0x07) as u32) << 18) | (((b1 & 0x3f) as u32) << 12) | (((b2
                & 0x3f) as u32) << 6) | ((b3 & 0x3f) as u32),
            0xf0 <= b0 <= 0xf4,
            0x80 <= b1 <= 0xbf,
            0x80 <= b2 <= 0xbf,
            0x80 <= b3 <= 0xbf,
            b0 == 0xf0 ==> b1 >= 0x90,
            b0 == 0xf4 ==> b1 <= 0x8f,
    ;
    assert(decode_first_codepoint(s) == cp);
}

proof fn lemma_reject_lead(s: Seq<u8>)
    requires
        s.len() >= 1,
        0x80 <= s[0] <= 0xc1 || 0xf5 <= s[0],
    ensures
        !valid_first_scalar(s),
{
    let b0 = s[0];
    if valid_first_scalar(s) {
        assert(!is_leading_byte_width_1(b0));
        assert(!is_leading_byte_width_3(b0));
        if is_leading_byte_width_2(b0) {
            // overlong: a C0 or C1 lead encodes a codepoint below 0x80
            let b1 = s[1];
            let cp = ((((b0 & 0x1f) as u32) << 6) | ((b1 & 0x3f) as u32)) as u32;
            assert(cp < 0x80) by (bit_vector)
                requires
                    cp == (((b0 & 0x1f) as u32) << 6) | ((b1 & 0x3f) as u32),
                    0xc0 <= b0 <= 0xc1,
                    0x80 <= b1 <= 0xbf,
            ;
            assert(decode_first_codepoint(s) == cp);
        } else if is_leading_byte_width_4(b0) {
            // out of range: an F5, F6 or F7 lead encodes beyond 0x10ffff
            let b1 = s[1];
            let b2 = s[2];
            let b3 = s[3];
            let cp = ((((b0 & 0x07) as u32) << 18) | (((b1 & 0x3f) as u32) << 12) | (((b2
                & 0x3f) as u32) << 6) | ((b3 & 0x3f) as u32)) as u32;
            assert(cp > 0x10ffff) by (bit_vector)
                requires
                    cp == (((b0 & 0x07) as u32) << 18) | (((b1 & 0x3f) as u32) << 12) | (((b2
                        & 0x3f) as u32) << 6) | ((b3 & 0x3f) as u32),
                    0xf5 <= b0 <= 0xf7,
                    0x80 <= b1 <= 0xbf,
    ;
            assert(decode_first_codepoint(s) == cp);
        }
    }
}

proof fn lemma_reject_width_2(s: Seq<u8>)
    requires
        s.len() >= 1,
        0xc2 <= s[0] <= 0xdf,
        s.len() < 2 || !is_continuation_byte(s[1]),
    ensures
        !valid_first_scalar(s),
{
    assert(!is_leading_byte_width_1(s[0]) && !is_leading_byte_width_3(s[0])
        && !is_leading_byte_width_4(s[0]));
}

proof fn lemma_reject_width_3(s: Seq<u8>)
    requires
        s.len() >= 1,
        0xe0 <= s[0] <= 0xef,
        s.len() < 3 || !is_continuation_byte(s[1]) || !is_continuation_byte(s[2]) || (s[0] == 0xe0
            && s[1] < 0xa0) || (s[0] == 0xed && s[1] > 0x9f),
    ensures
        !valid_first_scalar(s),
{
    let b0 = s[0];
    if valid_first_scalar(s) {
        assert(!is_leading_byte_width_1(b0) && !is_leading_byte_width_2(b0)
            && !is_leading_byte_width_4(b0));
        let b1 = s[1];
        let b2 = s[2];
        let cp = ((((b0 & 0x0f) as u32) << 12) | (((b1 & 0x3f) as u32) << 6) | ((b2
            & 0x3f) as u32)) as u32;
        assert((b0 == 0xe0 && b1 < 0xa0 ==> cp < 0x800) && (b0 == 0xed && b1 > 0x9f
            ==> 0xd800 <= cp <= 0xdfff)) by (bit_vector)
            requires
                cp == (((b0 & 0x0f) as u32) << 12) | (((b1 & 0x3f) as u32) << 6) | ((b2
                    & 0x3f) as u32),
                0xe0 <= b0 <= 0xef,
                0x80 <= b1 <= 0xbf,
        ;
        assert(decode_first_codepoint(s) == cp);
    }
}

proof fn lemma_reject_width_4(s: Seq<u8>)
    requires
        s.len() >= 1,
        0xf0 <= s[0] <= 0xf4,
        s.len() < 4 || !is_continuation_byte(s[1]) || !is_continuation_byte(s[2])
            || !is_continuation_byte(s[3]) || (s[0] == 0xf0 && s[1] < 0x90) || (s[0] == 0xf4 && s[1]
            > 0x8f),
    ensures
        !valid_first_scalar(s),
{
    let b0 = s[0];
    if valid_first_scalar(s) {
        assert(!is_leading_byte_width_1(b0) && !is_leading_byte_width_2(b0)
            && !is_leading_byte_width_3(b0));
        let b1 = s[1];
        let b2 = s[2];
        let b3 = s[3];
        let cp = ((((b0 & 0x07) as u32) << 18) | (((b1 & 0x3f) as u32) << 12) | (((b2
            & 0x3f) as u32) << 6) | ((b3 & 0x3f) as u32)) as u32;
        assert((b0 == 0xf0 && b1 < 0x90 ==> cp < 0x10000) && (b0 == 0xf4 && b1 > 0x8f
            ==> cp > 0x10ffff)) by (bit_vector)
            requires
                cp == (((b0 & 0x07) as u32) << 18) | (((b1 & 0x3f) as u32) << 12) | (((b2
                    & 0x3f) as u32) << 6) | ((b3 & 0x3f) as u32),
                0xf0 <= b0 <= 0xf4,
                0x80 <= b1 <= 0xbf,
        ;
        assert(decode_first_codepoint(s) == cp);
    }
}

fn is_cont_byte(b: u8) -> (r: bool)
    ensures
        r == is_continuation_byte(b),
{
    0x80 <= b && b <= 0xbf
}

/// Scans the buffer left to right.  Returns `None` exactly when the whole
/// buffer is valid UTF-8; otherwise returns the offset of the first byte at
/// which no well-formed scalar encoding starts (every byte before it belongs
/// to a complete, well-formed encoding).
pub fn utf8_check(bytes: &[u8]) -> (r: Option<usize>)
    ensures
        r is None <==> valid_utf8(bytes@),
        r matches Some(i) ==> utf8_rejects_at(bytes@, i as int),
{
    let n = bytes.len();
    let mut i: usize = 0;

    while i < n
        invariant
            i <= n,
            n == bytes@.len(),
            partial_valid_utf8(bytes@, i as int),
        decreases n - i,
    {
        let ghost rem = bytes@.subrange(i as int, bytes@.len() as int);
        proof {
            assert(rem.len() == n - i);
        }
        let b0 = bytes[i];
        if b0 < 0x80 {
            proof {
                lemma_scalar_width_1(rem);
                partial_valid_utf8_extend(bytes@, i as int);
            }
            i = i + 1;
        } else if b0 < 0xc2 {
            proof {
                lemma_reject_lead(rem);
                lemma_rejects_at_not_valid(bytes@, i as int);
            }
            return Some(i);
        } else if b0 < 0xe0 {
            if n - i < 2 || !is_cont_byte(bytes[i + 1]) {
                proof {
                    lemma_reject_width_2(rem);
                    lemma_rejects_at_not_valid(bytes@, i as int);
                }
                return Some(i);
            }
            proof {
                lemma_scalar_width_2(rem);
                partial_valid_utf8_extend(bytes@, i as int);
            }
            i = i + 2;
        } else if b0 < 0xf0 {
            if n - i < 3 {
                proof {
                    lemma_reject_width_3(rem);
                    lemma_rejects_at_not_valid(bytes@, i as int);
                }
                return Some(i);
            }
            let b1 = bytes[i + 1];
            let b1_ok = if b0 == 0xe0 {
                0xa0 <= b1 && b1 <= 0xbf
            } else if b0 == 0xed {
                0x80 <= b1 && b1 <= 0x9f
            } else {
                0x80 <= b1 && b1 <= 0xbf
            };
            if !b1_ok || !is_cont_byte(bytes[i + 2]) {
                proof {
                    lemma_reject_width_3(rem);
                    lemma_rejects_at_not_valid(bytes@, i as int);
                }
                return Some(i);
            }
            proof {
                lemma_scalar_width_3(rem);
                partial_valid_utf8_extend(bytes@, i as int);
            }
            i = i + 3;
        } else if b0 < 0xf5 {
            if n - i < 4 {
                proof {
                    lemma_reject_width_4(rem);
                    lemma_rejects_at_not_valid(bytes@, i as int);
                }
                return Some(i);
            }
            let b1 = bytes[i + 1];
            let b1_ok = if b0 == 0xf0 {
                0x90 <= b1 && b1 <= 0xbf
            } else if b0 == 0xf4 {
                0x80 <= b1 && b1 <= 0x8f
            } else {
                0x80 <= b1 && b1 <= 0xbf
            };
            if !b1_ok || !is_cont_byte(bytes[i + 2]) || !is_cont_byte(bytes[i + 3]) {
                proof {
                    lemma_reject_width_4(rem);
                    lemma_rejects_at_not_valid(bytes@, i as int);
                }
                return Some(i);
            }
            proof {
                lemma_scalar_width_4(rem);
                partial_valid_utf8_extend(bytes@, i as int);
            }
            i = i + 4;
        } else {
            proof {
                lemma_reject_lead(rem);
                lemma_rejects_at_not_valid(bytes@, i as int);
            }
            return Some(i);
        }
    }
    proof {
        assert(bytes@.subrange(0, bytes@.len() as int) =~= bytes@);
    }
    None
}

} // verus!
