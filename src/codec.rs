use std::borrow::Cow;

use vstd::prelude::*;
use vstd::string::{is_ascii, StringSliceAdditionalSpecFns};

use crate::scan::nul_free;

verus! {

/// The longest input, in bytes, that the codec is handed: its output buffers,
/// rounded up to a power of two, then stay within what an allocation can hold.
pub const CODEC_MAX_LEN: usize = usize::MAX / 32;

/// The text that the WINDOWS-1252 decoder yields for the given bytes.
pub uninterp spec fn windows_1252_decoded(b: Seq<u8>) -> Seq<char>;

/// The bytes that the WINDOWS-1252 encoder yields for the given text.
pub uninterp spec fn windows_1252_encoded(s: Seq<char>) -> Seq<u8>;

/// Every byte is a 7-bit ASCII byte.
pub open spec fn ascii_bytes(b: Seq<u8>) -> bool {
    forall|i: int| 0 <= i < b.len() ==> b[i] < 0x80u8
}

/// The text whose characters are the given ASCII bytes, one for one.
pub open spec fn ascii_text(b: Seq<u8>) -> Seq<char> {
    Seq::new(b.len(), |i: int| b[i] as char)
}

/// The text holds no U+0000 character.
pub open spec fn no_nul_char(s: Seq<char>) -> bool {
    forall|i: int| 0 <= i < s.len() ==> s[i] != '\0'
}

/// Relies on encoding_rs's `Encoding::decode` on WINDOWS_1252: a function of
/// the bytes alone, which borrows the input when it is ASCII only.
#[verifier::external_body]
pub(crate) fn decode_windows_1252<'a>(b: &'a [u8]) -> (r: Cow<'a, str>)
    requires
        b@.len() <= CODEC_MAX_LEN,
    ensures
        r@ == windows_1252_decoded(b@),
        ascii_bytes(b@) ==> (r matches Cow::Borrowed(_)) && r@ == ascii_text(b@),
{
    encoding_rs::WINDOWS_1252.decode(b).0
}

/// Relies on encoding_rs's `Encoding::encode` on WINDOWS_1252: a function of
/// the text alone, which borrows the input's bytes when it is ASCII only, and
/// writes a nul byte only for a U+0000 character (other characters become a
/// byte of their own or an ASCII numeric character reference).
#[verifier::external_body]
pub(crate) fn encode_windows_1252<'a>(s: &'a str) -> (r: Cow<'a, [u8]>)
    requires
        s.spec_bytes().len() <= CODEC_MAX_LEN,
    ensures
        r@ == windows_1252_encoded(s@),
        is_ascii(s) ==> (r matches Cow::Borrowed(_)) && r@ == s.spec_bytes(),
        no_nul_char(s@) ==> nul_free(r@),
{
    encoding_rs::WINDOWS_1252.encode(s).0
}

} // verus!
