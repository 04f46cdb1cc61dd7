//! The borrowed-style view over a nul-terminated UTF-8 string.
//!
//! A [`DStr`] holds validated text whose byte encoding ends in exactly one
//! nul byte and contains no other.  Its mathematical view is that byte
//! sequence, so every contract below speaks of bytes; the character content
//! is recovered through [`vstd::utf8::decode_utf8`].

use vstd::prelude::*;
use vstd::slice::slice_subrange;
use vstd::utf8::{
    decode_utf8, encode_utf8, is_char_boundary, is_char_boundary_iff_not_is_continuation_byte,
    valid_utf8,
};

use crate::error::{FromBytesError, FromStrError, Utf8Error};
use crate::mem::memchr;
use crate::utf8::{utf8_check, utf8_rejects_at};

verus! {

broadcast use {
    vstd::seq::group_seq_axioms,
    vstd::utf8::encode_utf8_valid_utf8,
    vstd::utf8::encode_utf8_decode_utf8,
};

/// The in-memory layout every view obeys: at least one byte, the final byte
/// is the nul terminator, and no earlier byte is nul.
pub open spec fn nul_terminated(bytes: Seq<u8>) -> bool {
    &&& bytes.len() >= 1
    &&& bytes[bytes.len() - 1] == 0
    &&& forall|i: int| 0 <= i < bytes.len() - 1 ==> bytes[i] != 0
}

/// A nul-terminated UTF-8 string.
///
/// The canonical representation is validated text; byte views are read-only
/// slices over the same storage.  The length is stored with the text, so no
/// accessor ever scans for the terminator.
#[derive(Debug, PartialEq, Eq, Hash)]
pub struct DStr {
    raw: String,
}

impl View for DStr {
    type V = Seq<u8>;

    closed spec fn view(&self) -> Seq<u8> {
        encode_utf8(self.raw@)
    }
}

/// Relies on `core::str::from_utf8`: it returns `Ok` exactly when the input
/// bytes are valid UTF-8, and the string it returns on success is a view of
/// exactly the input bytes.
#[verifier::external_body]
fn bytes_as_str(v: &[u8]) -> (r: Option<&str>)
    ensures
        r is Some <==> valid_utf8(v@),
        r matches Some(s) ==> encode_utf8(s@) == v@,
{
    core::str::from_utf8(v).ok()
}

impl DStr {
    /// Both invariants of a view: its bytes are valid UTF-8, and the one and
    /// only nul byte is the final one.
    pub open spec fn wf(&self) -> bool {
        &&& valid_utf8(self@)
        &&& nul_terminated(self@)
    }

    /// Validating constructor from text.  Succeeds exactly when the byte
    /// encoding of the text ends in a nul and contains no other nul; the
    /// error says which of the layout rules failed first.
    pub fn from_str_with_nul(string: &str) -> (r: Result<DStr, FromStrError>)
        ensures
            r is Ok <==> nul_terminated(encode_utf8(string@)),
            r matches Ok(d) ==> d@ == encode_utf8(string@) && d.wf(),
            encode_utf8(string@).len() == 0 ==> r == Err::<DStr, FromStrError>(
                FromStrError::MissingNul,
            ),
            encode_utf8(string@).len() > 0 && encode_utf8(string@).last() != 0 ==> r
                == Err::<DStr, FromStrError>(FromStrError::NotNulTerminated),
            r matches Err(FromStrError::InteriorNul(i)) ==> i < encode_utf8(string@).len() - 1
                && encode_utf8(string@)[i as int] == 0 && (forall|j: int|
                0 <= j < i ==> encode_utf8(string@)[j] != 0),
            encode_utf8(string@).len() > 0 && encode_utf8(string@).last() == 0 && !nul_terminated(
                encode_utf8(string@),
            ) ==> (r matches Err(e) && e is InteriorNul),
    {
        let bytes = string.as_bytes();
        let n = bytes.len();
        if n == 0 {
            return Err(FromStrError::MissingNul);
        }
        if bytes[n - 1] != 0 {
            return Err(FromStrError::NotNulTerminated);
        }
        let prefix = slice_subrange(bytes, 0, n - 1);
        match memchr(0, prefix) {
            Some(i) => {
                proof {
                    assert(bytes@[i as int] == prefix@[i as int]);
                    assert forall|j: int| 0 <= j < i implies bytes@[j] != 0 by {
                        assert(bytes@[j] == prefix@[j]);
                    }
                }
                Err(FromStrError::InteriorNul(i))
            },
            None => {
                proof {
                    assert forall|j: int| 0 <= j < bytes@.len() - 1 implies bytes@[j] != 0 by {
                        assert(bytes@[j] == prefix@[j]);
                    }
                }
                Ok(DStr { raw: string.to_owned() })
            },
        }
    }

    /// Validating constructor from arbitrary bytes.  UTF-8 validity is
    /// checked first; on success the nul-layout rules of
    /// [`DStr::from_str_with_nul`] apply, remapped into the byte-error set.
    pub fn from_bytes_with_nul(bytes: &[u8]) -> (r: Result<DStr, FromBytesError>)
        ensures
            r is Ok <==> valid_utf8(bytes@) && nul_terminated(bytes@),
            r matches Ok(d) ==> d@ == bytes@ && d.wf(),
            !valid_utf8(bytes@) ==> (r matches Err(FromBytesError::InvalidUtf8(u))
                && utf8_rejects_at(bytes@, u.valid_up_to as int)),
            valid_utf8(bytes@) && bytes@.len() == 0 ==> r == Err::<DStr, FromBytesError>(
                FromBytesError::MissingNul,
            ),
            valid_utf8(bytes@) && bytes@.len() > 0 && bytes@.last() != 0 ==> r
                == Err::<DStr, FromBytesError>(FromBytesError::NotNulTerminated),
            r matches Err(FromBytesError::InteriorNul(i)) ==> i < bytes@.len() - 1
                && bytes@[i as int] == 0 && (forall|j: int| 0 <= j < i ==> bytes@[j] != 0),
            valid_utf8(bytes@) && bytes@.len() > 0 && bytes@.last() == 0 && !nul_terminated(bytes@)
                ==> (r matches Err(e) && e is InteriorNul),
    {
        match utf8_check(bytes) {
            Some(pos) => {
                return Err(FromBytesError::InvalidUtf8(Utf8Error { valid_up_to: pos }));
            },
            None => {},
        }
        let n = bytes.len();
        if n == 0 {
            return Err(FromBytesError::MissingNul);
        }
        if bytes[n - 1] != 0 {
            return Err(FromBytesError::NotNulTerminated);
        }
        let prefix = slice_subrange(bytes, 0, n - 1);
        match memchr(0, prefix) {
            Some(i) => {
                proof {
                    assert(bytes@[i as int] == prefix@[i as int]);
                    assert forall|j: int| 0 <= j < i implies bytes@[j] != 0 by {
                        assert(bytes@[j] == prefix@[j]);
                    }
                }
                Err(FromBytesError::InteriorNul(i))
            },
            None => {
                proof {
                    assert forall|j: int| 0 <= j < bytes@.len() - 1 implies bytes@[j] != 0 by {
                        assert(bytes@[j] == prefix@[j]);
                    }
                }
                match bytes_as_str(bytes) {
                    Some(s) => Ok(DStr { raw: s.to_owned() }),
                    None => vstd::pervasive::unreached(),
                }
            },
        }
    }

    /// Constructor from text the caller has already shown to be laid out
    /// correctly; no scan is performed, the proof obligation replaces it.
    pub fn from_str_with_nul_unchecked(string: &str) -> (r: DStr)
        requires
            nul_terminated(encode_utf8(string@)),
        ensures
            r@ == encode_utf8(string@),
            r.wf(),
    {
        DStr { raw: string.to_owned() }
    }

    /// Constructor from bytes the caller has already shown to be valid UTF-8
    /// and laid out correctly.
    pub fn from_bytes_with_nul_unchecked(bytes: &[u8]) -> (r: DStr)
        requires
            valid_utf8(bytes@),
            nul_terminated(bytes@),
        ensures
            r@ == bytes@,
            r.wf(),
    {
        match bytes_as_str(bytes) {
            Some(s) => DStr { raw: s.to_owned() },
            None => vstd::pervasive::unreached(),
        }
    }

    /// Length in bytes including the nul terminator; always at least one.
    /// Never scans: the length is stored with the text.
    pub fn len_with_nul(&self) -> (r: usize)
        requires
            self.wf(),
        ensures
            r == self@.len(),
            r >= 1,
    {
        self.raw.as_str().as_bytes().len()
    }

    /// Length in bytes excluding the nul terminator: always the total length
    /// minus one, never the result of a scan.
    pub fn len(&self) -> (r: usize)
        requires
            self.wf(),
        ensures
            r == self@.len() - 1,
    {
        self.len_with_nul() - 1
    }

    /// Whether the content (excluding the terminator) is empty; equivalently,
    /// whether the first byte is already the terminator.
    pub fn is_empty(&self) -> (r: bool)
        requires
            self.wf(),
        ensures
            r <==> self@.len() == 1,
            r <==> self@[0] == 0,
    {
        let bytes = self.raw.as_str().as_bytes();
        bytes[0] == 0
    }

    /// The underlying bytes, including the nul terminator.
    pub fn as_bytes_with_nul(&self) -> (r: &[u8])
        ensures
            r@ == self@,
    {
        self.raw.as_str().as_bytes()
    }

    /// The underlying bytes, excluding the nul terminator.
    pub fn as_bytes(&self) -> (r: &[u8])
        requires
            self.wf(),
        ensures
            r@ == self@.subrange(0, self@.len() - 1),
    {
        let bytes = self.raw.as_str().as_bytes();
        slice_subrange(bytes, 0, bytes.len() - 1)
    }

    /// The text, including the nul terminator as its final character.
    pub fn as_str_with_nul(&self) -> (r: &str)
        ensures
            encode_utf8(r@) == self@,
            valid_utf8(self@) ==> r@ == decode_utf8(self@),
    {
        self.raw.as_str()
    }

    /// The text, excluding the nul terminator.
    pub fn as_str(&self) -> (r: &str)
        requires
            self.wf(),
        ensures
            encode_utf8(r@) == self@.subrange(0, self@.len() - 1),
            r@ == decode_utf8(self@.subrange(0, self@.len() - 1)),
    {
        let s = self.raw.as_str();
        let n = s.as_bytes().len();
        proof {
            is_char_boundary_iff_not_is_continuation_byte(self@, self@.len() - 1);
            assert(is_char_boundary(self@, n - 1));
        }
        let pair = s.split_at(n - 1);
        proof {
            assert(encode_utf8(pair.0@) =~= self@.subrange(0, self@.len() - 1));
        }
        pair.0
    }
}

/// Law: validating construction from nul-terminated text followed by reading
/// the text back, terminator included, yields exactly the original text.
/// Here `d` is the constructed view, as `from_str_with_nul` describes it on
/// success, and `r` is the text read back, as `as_str_with_nul` describes it.
pub proof fn lemma_text_round_trip(t: Seq<char>, d: DStr, r: Seq<char>)
    requires
        d@ == encode_utf8(t),
        encode_utf8(r) == d@,
    ensures
        r == t,
{
    assert(decode_utf8(encode_utf8(t)) == t);
    assert(decode_utf8(encode_utf8(r)) == r);
}

/// Law: for every well-formed view, the length including the terminator is
/// exactly one more than the length excluding it, and is at least one.
pub proof fn lemma_length_consistency(d: &DStr)
    requires
        d.wf(),
    ensures
        d@.len() >= 1,
        d@.len() == (d@.len() - 1) + 1,
{
}

/// Law: for a well-formed view, the text including the terminator is the
/// text excluding it followed by exactly one nul character, so the two
/// flavors of text differ only in that final character.
pub proof fn lemma_terminator_is_one_char(d: &DStr)
    requires
        d.wf(),
    ensures
        decode_utf8(d@) == decode_utf8(d@.subrange(0, d@.len() - 1)).push('\0'),
{
    let b = d@;
    let n = b.len() as int;
    let prefix = b.subrange(0, n - 1);
    let suffix = b.subrange(n - 1, n);
    is_char_boundary_iff_not_is_continuation_byte(b, n - 1);
    vstd::utf8::valid_utf8_split(b, n - 1);
    vstd::utf8::decode_utf8_split(b, n - 1);
    assert(suffix =~= seq![0u8]);
    assert(valid_utf8(suffix));
    assert(0u8 & 0x7f == 0) by (bit_vector);
    assert(vstd::utf8::is_leading_byte_width_1(suffix[0]));
    assert(vstd::utf8::decode_first_scalar(suffix) == 0);
    assert(vstd::utf8::length_of_first_scalar(suffix) == 1);
    vstd::utf8::char_u32_cast('\0', 0);
    let rest = vstd::utf8::pop_first_scalar(suffix);
    assert(rest =~= Seq::<u8>::empty());
    assert(decode_utf8(rest) =~= Seq::<char>::empty());
    assert(decode_utf8(suffix) =~= seq![vstd::utf8::decode_first_scalar(suffix) as char]
        + decode_utf8(rest));
    assert(decode_utf8(suffix) =~= seq!['\0']);
    assert(decode_utf8(b) =~= decode_utf8(prefix).push('\0'));
}

/// Law: a well-formed view is empty exactly when its first byte is the
/// terminator, exactly when its length excluding the terminator is zero.
pub proof fn lemma_empty_iff_first_byte_nul(d: &DStr)
    requires
        d.wf(),
    ensures
        (d@[0] == 0) <==> (d@.len() - 1 == 0),
{
    if d@.len() > 1 {
        assert(d@[0] != 0);
    }
}

} // verus!
