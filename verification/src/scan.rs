//! The null scanner: finds the first null byte of a byte sequence, if any.

use vstd::prelude::*;

verus! {

/// No byte of `s` is the null byte.
pub open spec fn null_free(s: Seq<u8>) -> bool {
    forall|j: int| 0 <= j < s.len() ==> s[j] != 0
}

/// `p` is the index of the first null byte of `s`: the byte at `p` is null
/// and every byte before it is not.
pub open spec fn first_null_at(s: Seq<u8>, p: int) -> bool {
    &&& 0 <= p < s.len()
    &&& s[p] == 0
    &&& forall|j: int| 0 <= j < p ==> s[j] != 0
}

/// The reported offset is fully determined: a byte sequence has at most one
/// first null, so a scan that reports `p` reports exactly the first one.
pub proof fn lemma_first_null_unique(s: Seq<u8>, p: int, q: int)
    requires
        first_null_at(s, p),
        first_null_at(s, q),
    ensures
        p == q,
{
}

/// Scans `bytes` from left to right and returns the index of the first null
/// byte, or `None` if the sequence (including the empty one) holds no null.
///
/// Total over every byte sequence: either the returned index carries a null
/// preceded only by non-null bytes, or no byte at all is null.
pub fn find_first_null(bytes: &[u8]) -> (r: Option<usize>)
    ensures
        (match r {
            Some(p) => first_null_at(bytes@, p as int),
            None => null_free(bytes@),
        }),
{
    let mut i: usize = 0;
    while i < bytes.len()
        invariant
            i <= bytes.len(),
            forall|j: int| 0 <= j < i ==> bytes@[j] != 0,
        decreases bytes.len() - i,
    {
        if bytes[i] == 0 {
            return Some(i);
        }
        i += 1;
    }
    None
}

} // verus!
