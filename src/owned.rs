use std::borrow::Cow;
use std::cmp::Ordering;

use vstd::prelude::*;
use vstd::std_specs::cmp::{PartialEqSpec, PartialOrdSpec};
use vstd::string::{is_ascii, StringSliceAdditionalSpecFns};

use crate::codec::{
    ascii_bytes, ascii_text, encode_windows_1252, no_nul_char, windows_1252_decoded,
    windows_1252_encoded, CODEC_MAX_LEN,
};
use crate::order::{compare_bytes, lemma_lex_cmp_consistent, lex_cmp, reversed};
use crate::scan::{find_byte, first_nul_at, lemma_first_nul_unique, nul_free};
use crate::view::Latin1Str;

verus! {

/// Relies on `Vec::into_boxed_slice`: the same elements, now in a box.
#[verifier::external_body]
pub(crate) fn vec_into_boxed(v: Vec<u8>) -> (r: Box<[u8]>)
    ensures
        r@ == v@,
{
    v.into_boxed_slice()
}

/// An owned Latin-1 string (like `String`): a fixed-size buffer of bytes that
/// hold no nul byte.
#[derive(Debug, Eq, Ord)]
pub struct Latin1String {
    inner: Box<[u8]>,
}

impl View for Latin1String {
    type V = Seq<u8>;

    closed spec fn view(&self) -> Seq<u8> {
        self.inner@
    }
}

/// Either a view into bytes that already existed, or a freshly owned string.
#[derive(Debug)]
pub enum Latin1Cow<'a> {
    Borrowed(Latin1Str<'a>),
    Owned(Latin1String),
}

impl<'a> View for Latin1Cow<'a> {
    type V = Seq<u8>;

    open spec fn view(&self) -> Seq<u8> {
        match self {
            Latin1Cow::Borrowed(s) => s@,
            Latin1Cow::Owned(s) => s@,
        }
    }
}

impl Latin1String {
    #[verifier::type_invariant]
    closed spec fn inv(self) -> bool {
        nul_free(self.inner@)
    }

    /// Takes a buffer that the caller knows to hold no nul byte.
    pub fn new(inner: Box<[u8]>) -> (r: Latin1String)
        requires
            nul_free(inner@),
        ensures
            r@ == inner@,
    {
        Latin1String { inner }
    }

    /// Encodes Unicode text. This never fails: a character that WINDOWS-1252
    /// lacks is written as an HTML numeric character reference. ASCII-only
    /// text is borrowed, not copied.
    pub fn encode<'a>(string: &'a str) -> (r: Latin1Cow<'a>)
        requires
            no_nul_char(string@),
            string.spec_bytes().len() <= CODEC_MAX_LEN,
        ensures
            r@ == windows_1252_encoded(string@),
            is_ascii(string) ==> (r matches Latin1Cow::Borrowed(_)) && r@ == string.spec_bytes(),
    {
        let encoded = encode_windows_1252(string);
        Self::from_encoded(encoded)
    }

    /// Wraps what the encoder wrote, keeping a borrow a borrow.
    pub fn from_encoded<'a>(encoded: Cow<'a, [u8]>) -> (r: Latin1Cow<'a>)
        requires
            nul_free(encoded@),
        ensures
            r@ == encoded@,
            (r matches Latin1Cow::Borrowed(_)) == (encoded matches Cow::Borrowed(_)),
    {
        match encoded {
            Cow::Borrowed(b) => Latin1Cow::Borrowed(Latin1Str::from_bytes_unchecked(b)),
            Cow::Owned(o) => Latin1Cow::Owned(Latin1String { inner: vec_into_boxed(o) }),
        }
    }

    /// Builds the string from what was read from a stream up to and including
    /// a terminator: the terminator and anything after it are left out. Bytes
    /// that hold no terminator, as at the end of a stream, are kept whole.
    pub fn read_cstring(read: Vec<u8>) -> (r: Latin1String)
        ensures
            nul_free(read@) ==> r@ == read@,
            forall|i: int| first_nul_at(read@, i) ==> r@ == read@.subrange(0, i),
    {
        let mut string = read;
        let pos = find_byte(0, string.as_slice());
        match pos {
            Some(p) => {
                string.truncate(p);
                proof {
                    assert forall|i: int| first_nul_at(read@, i) implies i == p as int by {
                        lemma_first_nul_unique(read@, p as int, i);
                    }
                    assert(string@ =~= read@.subrange(0, p as int));
                }
            },
            None => {},
        }
        Latin1String { inner: vec_into_boxed(string) }
    }

    /// A view onto this string's bytes.
    pub fn as_latin1_str(&self) -> (r: Latin1Str<'_>)
        ensures
            r@ == self@,
    {
        proof {
            use_type_invariant(self);
        }
        Latin1Str::from_bytes_unchecked(&*self.inner)
    }

    /// The bytes of the string.
    pub fn as_bytes(&self) -> (r: &[u8])
        ensures
            r@ == self@,
            nul_free(r@),
    {
        self.as_latin1_str().as_bytes()
    }

    /// The number of bytes of the string.
    pub fn len(&self) -> (r: usize)
        ensures
            r as int == self@.len(),
    {
        self.as_latin1_str().len()
    }

    /// Whether the string holds no byte.
    pub fn is_empty(&self) -> (r: bool)
        ensures
            r == (self@.len() == 0),
    {
        self.as_latin1_str().is_empty()
    }

    /// Decodes the string to Unicode text, as [`Latin1Str::decode`] does.
    pub fn decode(&self) -> (r: Cow<'_, str>)
        requires
            self@.len() <= CODEC_MAX_LEN,
        ensures
            r@ == windows_1252_decoded(self@),
            ascii_bytes(self@) ==> (r matches Cow::Borrowed(_)) && r@ == ascii_text(self@),
    {
        self.as_latin1_str().decode()
    }
}

impl<'a> Latin1Cow<'a> {
    /// The bytes of the string, wherever they are stored.
    pub fn as_bytes(&self) -> (r: &[u8])
        ensures
            r@ == self@,
            nul_free(r@),
    {
        match self {
            Latin1Cow::Borrowed(s) => s.as_bytes(),
            Latin1Cow::Owned(s) => s.as_bytes(),
        }
    }

    /// An owned string with the same bytes, copied where they were borrowed.
    pub fn into_owned(self) -> (r: Latin1String)
        ensures
            r@ == self@,
    {
        match self {
            Latin1Cow::Borrowed(s) => s.to_owned(),
            Latin1Cow::Owned(s) => s,
        }
    }
}

impl PartialEq for Latin1String {
    fn eq(&self, other: &Latin1String) -> (r: bool) {
        let o = compare_bytes(&*self.inner, &*other.inner);
        proof {
            lemma_lex_cmp_consistent(self@, other@);
        }
        match o {
            Ordering::Equal => true,
            _ => false,
        }
    }
}

impl vstd::std_specs::cmp::PartialEqSpecImpl for Latin1String {
    open spec fn obeys_eq_spec() -> bool {
        true
    }

    open spec fn eq_spec(&self, other: &Latin1String) -> bool {
        self@ == other@
    }
}

impl PartialOrd for Latin1String {
    fn partial_cmp(&self, other: &Latin1String) -> (r: Option<Ordering>) {
        Some(compare_bytes(&*self.inner, &*other.inner))
    }
}

impl vstd::std_specs::cmp::PartialOrdSpecImpl for Latin1String {
    open spec fn obeys_partial_cmp_spec() -> bool {
        true
    }

    open spec fn partial_cmp_spec(&self, other: &Latin1String) -> Option<Ordering> {
        Some(lex_cmp(self@, other@))
    }
}

/// Owned strings are equal exactly when their bytes are; they are ordered by
/// their bytes in lexicographic order, whatever text those bytes decode to,
/// and that order agrees with equality and reverses when the operands are
/// swapped.
pub proof fn lemma_string_order_by_bytes(a: Latin1String, b: Latin1String)
    ensures
        a.eq_spec(&b) == (a@ == b@),
        a.partial_cmp_spec(&b) == Some(lex_cmp(a@, b@)),
        (a.partial_cmp_spec(&b) == Some(Ordering::Equal)) == a.eq_spec(&b),
        b.partial_cmp_spec(&a) == Some(reversed(lex_cmp(a@, b@))),
{
    lemma_lex_cmp_consistent(a@, b@);
}

} // verus!
