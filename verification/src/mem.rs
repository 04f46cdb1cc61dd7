//! Byte scanners.

use vstd::prelude::*;

verus! {

/// Returns the index of the first byte equal to `needle`, scanning the
/// haystack left to right, or `None` when no byte matches.
pub fn memchr(needle: u8, haystack: &[u8]) -> (r: Option<usize>)
    ensures
        r matches Some(i) ==> i < haystack@.len() && haystack@[i as int] == needle
            && forall|j: int| 0 <= j < i ==> haystack@[j] != needle,
        r is None ==> forall|j: int| 0 <= j < haystack@.len() ==> haystack@[j] != needle,
{
    let n = haystack.len();
    let mut index: usize = 0;

    while index < n
        invariant
            index <= n,
            n == haystack@.len(),
            forall|j: int| 0 <= j < index ==> haystack@[j] != needle,
        decreases n - index,
    {
        if haystack[index] == needle {
            return Some(index);
        }
        index += 1;
    }

    None
}

} // verus!
