//! Why a candidate buffer is not an acceptable nul-terminated UTF-8 string.
//!
//! Two closed sets of reasons: [`FromStrError`] for input that is already
//! known to be valid UTF-8 text, and [`FromBytesError`] for arbitrary bytes,
//! which adds the invalid-encoding case.  The narrower set converts losslessly
//! into the wider one; the reverse conversion fails exactly for
//! [`FromBytesError::InvalidUtf8`].

use vstd::prelude::*;

verus! {

/// Detail for a buffer whose bytes are not valid UTF-8.
#[derive(Debug, Clone, Copy, PartialEq, Eq, Structural)]
pub struct Utf8Error {
    /// Offset of the first byte at which no well-formed scalar encoding
    /// starts; every byte before it was confirmed valid UTF-8.
    pub valid_up_to: usize,
}

/// Why text that is already valid UTF-8 is not an acceptable nul-terminated
/// string.
#[derive(Debug, Clone, Copy, PartialEq, Eq, Structural)]
pub enum FromStrError {
    /// The input is non-empty but its final byte is not the nul terminator.
    NotNulTerminated,
    /// A nul byte occurs before the final position, at the carried offset.
    InteriorNul(usize),
    /// The input is empty, so it contains no nul at all.
    MissingNul,
}

/// Why an arbitrary byte buffer is not an acceptable nul-terminated UTF-8
/// string: the reasons of [`FromStrError`], plus invalid UTF-8.
#[derive(Debug, Clone, Copy, PartialEq, Eq, Structural)]
pub enum FromBytesError {
    /// The input is non-empty but its final byte is not the nul terminator.
    NotNulTerminated,
    /// A nul byte occurs before the final position, at the carried offset.
    InteriorNul(usize),
    /// The input is empty, so it contains no nul at all.
    MissingNul,
    /// The input is not valid UTF-8.
    InvalidUtf8(Utf8Error),
}

impl FromStrError {
    /// The diagnostic message for this reason.
    pub open spec fn spec_message(self) -> Seq<char> {
        match self {
            FromStrError::NotNulTerminated => "input was not nul-terminated"@,
            FromStrError::InteriorNul(_) => "input contains an interior nul"@,
            FromStrError::MissingNul => "input does not contain a nul"@,
        }
    }

    /// Returns a static diagnostic message for this reason.
    pub fn message(self) -> (r: &'static str)
        ensures
            r@ == self.spec_message(),
    {
        match self {
            FromStrError::NotNulTerminated => "input was not nul-terminated",
            FromStrError::InteriorNul(_) => "input contains an interior nul",
            FromStrError::MissingNul => "input does not contain a nul",
        }
    }

    /// The byte-error reason with the same name and payload.
    pub open spec fn to_from_bytes_spec(self) -> FromBytesError {
        match self {
            FromStrError::NotNulTerminated => FromBytesError::NotNulTerminated,
            FromStrError::InteriorNul(nul_pos) => FromBytesError::InteriorNul(nul_pos),
            FromStrError::MissingNul => FromBytesError::MissingNul,
        }
    }

    /// Converts into the byte-error reason with the same name and payload.
    pub fn to_from_bytes_error(self) -> (r: FromBytesError)
        ensures
            r == self.to_from_bytes_spec(),
    {
        match self {
            FromStrError::NotNulTerminated => FromBytesError::NotNulTerminated,
            FromStrError::InteriorNul(nul_pos) => FromBytesError::InteriorNul(nul_pos),
            FromStrError::MissingNul => FromBytesError::MissingNul,
        }
    }
}

impl FromBytesError {
    /// The diagnostic message for this reason.
    pub open spec fn spec_message(self) -> Seq<char> {
        match self {
            FromBytesError::NotNulTerminated => "input was not nul-terminated"@,
            FromBytesError::InteriorNul(_) => "input contains an interior nul"@,
            FromBytesError::MissingNul => "input does not contain a nul"@,
            FromBytesError::InvalidUtf8(_) => "input contains invalid utf-8"@,
        }
    }

    /// Returns a static diagnostic message for this reason.
    pub fn message(self) -> (r: &'static str)
        ensures
            r@ == self.spec_message(),
    {
        match self {
            FromBytesError::NotNulTerminated => "input was not nul-terminated",
            FromBytesError::InteriorNul(_) => "input contains an interior nul",
            FromBytesError::MissingNul => "input does not contain a nul",
            FromBytesError::InvalidUtf8(_) => "input contains invalid utf-8",
        }
    }

    /// The text-error reason with the same name and payload, or no mapping
    /// when the reason is invalid UTF-8, which cannot arise for confirmed
    /// text.
    pub open spec fn to_from_str_spec(self) -> Result<FromStrError, ()> {
        match self {
            FromBytesError::NotNulTerminated => Ok(FromStrError::NotNulTerminated),
            FromBytesError::InteriorNul(nul_pos) => Ok(FromStrError::InteriorNul(nul_pos)),
            FromBytesError::MissingNul => Ok(FromStrError::MissingNul),
            FromBytesError::InvalidUtf8(_) => Err(()),
        }
    }

    /// Converts back into a text-error reason; fails exactly when the reason
    /// is invalid UTF-8.
    pub fn to_from_str_error(self) -> (r: Result<FromStrError, ()>)
        ensures
            r == self.to_from_str_spec(),
    {
        match self {
            FromBytesError::NotNulTerminated => Ok(FromStrError::NotNulTerminated),
            FromBytesError::InteriorNul(nul_pos) => Ok(FromStrError::InteriorNul(nul_pos)),
            FromBytesError::MissingNul => Ok(FromStrError::MissingNul),
            FromBytesError::InvalidUtf8(_) => Err(()),
        }
    }
}

/// Equality across the two error types: the narrower value is mapped into the
/// wider type and compared there.
pub open spec fn cross_eq(s: FromStrError, b: FromBytesError) -> bool {
    s.to_from_bytes_spec() == b
}

impl PartialEq<FromBytesError> for FromStrError {
    fn eq(&self, other: &FromBytesError) -> (r: bool) {
        self.to_from_bytes_error() == *other
    }
}

impl vstd::std_specs::cmp::PartialEqSpecImpl<FromBytesError> for FromStrError {
    open spec fn obeys_eq_spec() -> bool {
        true
    }

    open spec fn eq_spec(&self, other: &FromBytesError) -> bool {
        cross_eq(*self, *other)
    }
}

impl PartialEq<FromStrError> for FromBytesError {
    fn eq(&self, other: &FromStrError) -> (r: bool) {
        other.to_from_bytes_error() == *self
    }
}

impl vstd::std_specs::cmp::PartialEqSpecImpl<FromStrError> for FromBytesError {
    open spec fn obeys_eq_spec() -> bool {
        true
    }

    open spec fn eq_spec(&self, other: &FromStrError) -> bool {
        cross_eq(*other, *self)
    }
}

/// Law: converting a text-error reason to a byte-error reason and back yields
/// the original value.
pub proof fn lemma_error_conversion_round_trip(e: FromStrError)
    ensures
        e.to_from_bytes_spec().to_from_str_spec() == Ok::<FromStrError, ()>(e),
{
}

/// Law: every byte-error reason other than invalid UTF-8 converts back to a
/// text-error reason that is equal to it under the cross-type relation.
pub proof fn lemma_error_conversion_back(e: FromBytesError)
    requires
        !(e is InvalidUtf8),
    ensures
        e.to_from_str_spec() matches Ok(s) && cross_eq(s, e),
{
}

} // verus!
