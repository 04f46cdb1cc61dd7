//! The owned, growable companion of [`DStr`].
//!
//! A [`DString`] owns its storage and always dereferences to a well-formed
//! view: the invariants are established once at construction and every future
//! mutator is obliged to re-establish them before returning.  All read access
//! goes through the view obtained from [`DString::as_dstr`], with no
//! re-validation.

use vstd::prelude::*;
use vstd::utf8::{encode_scalar, encode_utf8, valid_utf8};

use crate::dstr::{nul_terminated, DStr};

verus! {

/// An owning buffer whose contents always form a nul-terminated UTF-8
/// string.
#[derive(Debug, PartialEq, Eq, Hash)]
pub struct DString {
    inner: DStr,
}

impl View for DString {
    type V = Seq<u8>;

    closed spec fn view(&self) -> Seq<u8> {
        self.inner@
    }
}

impl DString {
    /// The same invariants as [`DStr::wf`], holding at every observable
    /// point in the buffer's life.
    pub open spec fn wf(&self) -> bool {
        &&& valid_utf8(self@)
        &&& nul_terminated(self@)
    }

    /// Builds the empty string: the buffer that holds only the terminator.
    pub fn new() -> (r: DString)
        ensures
            r@ == seq![0u8],
            r.wf(),
    {
        proof {
            reveal_strlit("\0");
            assert("\0"@ =~= seq!['\0']);
            assert('\0' as u32 == 0);
            assert((0u32 & 0x7f) as u8 == 0u8) by (bit_vector);
            assert(encode_scalar(0) =~= seq![0u8]);
            assert(seq!['\0'].drop_first() =~= Seq::<char>::empty());
            assert(encode_utf8(Seq::<char>::empty()) =~= Seq::<u8>::empty());
            assert(encode_utf8("\0"@) =~= seq![0u8]);
            assert(nul_terminated(seq![0u8]));
        }
        DString { inner: DStr::from_str_with_nul_unchecked("\0") }
    }

    /// Builds an owned buffer by copying the text of an existing view,
    /// terminator included.  Always succeeds; no re-validation is performed.
    pub fn from_dstr(value: &DStr) -> (r: DString)
        requires
            value.wf(),
        ensures
            r@ == value@,
            r.wf(),
    {
        DString { inner: DStr::from_str_with_nul_unchecked(value.as_str_with_nul()) }
    }

    /// Borrows the current contents as a view; a reinterpretation, not a
    /// copy, and no re-validation is performed.
    pub fn as_dstr(&self) -> (r: &DStr)
        ensures
            r@ == self@,
            self.wf() ==> r.wf(),
    {
        &self.inner
    }

    /// Mutably borrows the current contents as a view.
    pub fn as_dstr_mut(&mut self) -> (r: &mut DStr)
        ensures
            r@ == old(self)@,
    {
        &mut self.inner
    }
}

} // verus!
