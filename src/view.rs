use std::borrow::Cow;
use std::cmp::Ordering;

use vstd::prelude::*;
use vstd::std_specs::cmp::{PartialEqSpec, PartialOrdSpec};

use crate::codec::{ascii_bytes, ascii_text, decode_windows_1252, windows_1252_decoded, CODEC_MAX_LEN};

use crate::order::{compare_bytes, lemma_lex_cmp_consistent, lex_cmp, reversed};
use crate::owned::{vec_into_boxed, Latin1String};
use crate::scan::{find_byte, first_nul_at, lemma_first_nul_unique, nul_free};

verus! {

/// A borrowed Latin-1 string (like `&str`): a view over bytes that hold no
/// nul byte.
#[derive(Clone, Copy, Debug, Eq, Ord)]
pub struct Latin1Str<'a> {
    inner: &'a [u8],
}

impl<'a> View for Latin1Str<'a> {
    type V = Seq<u8>;

    closed spec fn view(&self) -> Seq<u8> {
        self.inner@
    }
}

impl<'a> Latin1Str<'a> {
    #[verifier::type_invariant]
    closed spec fn inv(self) -> bool {
        nul_free(self.inner@)
    }

    /// Wraps bytes that the caller knows to hold no nul byte.
    pub fn from_bytes_unchecked(text: &'a [u8]) -> (r: Latin1Str<'a>)
        requires
            nul_free(text@),
        ensures
            r@ == text@,
    {
        Latin1Str { inner: text }
    }

    /// Wraps all bytes before the first nul byte, or all of them where there
    /// is none. This never fails.
    pub fn from_bytes_until_nul(bytes: &'a [u8]) -> (r: Latin1Str<'a>)
        ensures
            nul_free(bytes@) ==> r@ == bytes@,
            forall|i: int| first_nul_at(bytes@, i) ==> r@ == bytes@.subrange(0, i),
    {
        match find_byte(0, bytes) {
            Some(pos) => {
                let (head, _) = bytes.split_at(pos);
                proof {
                    assert forall|i: int| first_nul_at(bytes@, i) implies i == pos as int by {
                        lemma_first_nul_unique(bytes@, pos as int, i);
                    }
                    assert(head@ =~= bytes@.subrange(0, pos as int));
                }
                Latin1Str { inner: head }
            },
            None => Latin1Str { inner: bytes },
        }
    }

    /// Alias of [`Latin1Str::from_bytes_until_nul`].
    pub fn new(bytes: &'a [u8]) -> (r: Latin1Str<'a>)
        ensures
            nul_free(bytes@) ==> r@ == bytes@,
            forall|i: int| first_nul_at(bytes@, i) ==> r@ == bytes@.subrange(0, i),
    {
        Self::from_bytes_until_nul(bytes)
    }

    /// The bytes of the string.
    pub fn as_bytes(&self) -> (r: &'a [u8])
        ensures
            r@ == self@,
            nul_free(r@),
    {
        proof {
            use_type_invariant(self);
        }
        self.inner
    }

    /// The number of bytes of the string.
    pub fn len(&self) -> (r: usize)
        ensures
            r as int == self@.len(),
    {
        self.inner.len()
    }

    /// Whether the string holds no byte.
    pub fn is_empty(&self) -> (r: bool)
        ensures
            r == (self@.len() == 0),
    {
        self.inner.len() == 0
    }

    /// Decodes the string to Unicode text. This never fails: every byte has
    /// a meaning in WINDOWS-1252. ASCII-only bytes are borrowed, not copied.
    pub fn decode(&self) -> (r: Cow<'a, str>)
        requires
            self@.len() <= CODEC_MAX_LEN,
        ensures
            r@ == windows_1252_decoded(self@),
            ascii_bytes(self@) ==> (r matches Cow::Borrowed(_)) && r@ == ascii_text(self@),
    {
        decode_windows_1252(self.inner)
    }

    /// Copies the bytes into a new owned string.
    pub fn to_owned(&self) -> (r: Latin1String)
        ensures
            r@ == self@,
    {
        let bytes = self.as_bytes();
        Latin1String::new(vec_into_boxed(vstd::slice::slice_to_vec(bytes)))
    }
}

impl<'a> PartialEq for Latin1Str<'a> {
    fn eq(&self, other: &Latin1Str<'a>) -> (r: bool) {
        let o = compare_bytes(self.inner, other.inner);
        proof {
            lemma_lex_cmp_consistent(self@, other@);
        }
        match o {
            Ordering::Equal => true,
            _ => false,
        }
    }
}

impl<'a> vstd::std_specs::cmp::PartialEqSpecImpl for Latin1Str<'a> {
    open spec fn obeys_eq_spec() -> bool {
        true
    }

    open spec fn eq_spec(&self, other: &Latin1Str<'a>) -> bool {
        self@ == other@
    }
}

impl<'a> PartialOrd for Latin1Str<'a> {
    fn partial_cmp(&self, other: &Latin1Str<'a>) -> (r: Option<Ordering>) {
        Some(compare_bytes(self.inner, other.inner))
    }
}

impl<'a> vstd::std_specs::cmp::PartialOrdSpecImpl for Latin1Str<'a> {
    open spec fn obeys_partial_cmp_spec() -> bool {
        true
    }

    open spec fn partial_cmp_spec(&self, other: &Latin1Str<'a>) -> Option<Ordering> {
        Some(lex_cmp(self@, other@))
    }
}

/// Views are equal exactly when their bytes are; they are ordered by their
/// bytes in lexicographic order, whatever text those bytes decode to, and that
/// order agrees with equality and reverses when the operands are swapped.
pub proof fn lemma_view_order_by_bytes(a: Latin1Str, b: Latin1Str)
    ensures
        a.eq_spec(&b) == (a@ == b@),
        a.partial_cmp_spec(&b) == Some(lex_cmp(a@, b@)),
        (a.partial_cmp_spec(&b) == Some(Ordering::Equal)) == a.eq_spec(&b),
        b.partial_cmp_spec(&a) == Some(reversed(lex_cmp(a@, b@))),
{
    lemma_lex_cmp_consistent(a@, b@);
}

} // verus!
