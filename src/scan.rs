use vstd::prelude::*;

verus! {

/// The bytes hold no terminator (a byte of value zero).
pub open spec fn nul_free(b: Seq<u8>) -> bool {
    forall|i: int| 0 <= i < b.len() ==> b[i] != 0u8
}

/// Index `i` holds the first terminator of the bytes.
pub open spec fn first_nul_at(b: Seq<u8>, i: int) -> bool {
    0 <= i < b.len() && b[i] == 0u8 && nul_free(b.subrange(0, i))
}

/// The first terminator found by a search stands at the index it gave.
pub(crate) proof fn lemma_first_nul_unique(b: Seq<u8>, p: int, i: int)
    requires
        0 <= p < b.len(),
        b[p] == 0u8,
        forall|j: int| 0 <= j < p ==> b[j] != 0u8,
        first_nul_at(b, i),
    ensures
        i == p,
{
    if i > p {
        assert(b.subrange(0, i)[p] == 0u8);
    }
}

/// Relies on memchr::memchr: the index of the first occurrence of the needle,
/// or `None` where the haystack does not hold it.
#[verifier::external_body]
pub(crate) fn find_byte(needle: u8, haystack: &[u8]) -> (r: Option<usize>)
    ensures
        match r {
            Some(i) => i < haystack@.len() && haystack@[i as int] == needle && forall|j: int|
                0 <= j < i ==> haystack@[j] != needle,
            None => forall|j: int| 0 <= j < haystack@.len() ==> haystack@[j] != needle,
        },
{
    memchr::memchr(needle, haystack)
}

} // verus!
