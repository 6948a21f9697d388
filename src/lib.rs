//! Strings in the WINDOWS-1252 (Latin-1) single-byte encoding.
//!
//! Both types hold bytes that contain no nul byte, can always be decoded to
//! Unicode text, and are built from ASCII text without copying:
//!
//! - [`Latin1Str`] is a borrowed view over such bytes (like `&str`);
//! - [`Latin1String`] owns its bytes (like `String`).

mod codec;
mod order;
mod owned;
mod scan;
mod view;

pub use codec::{
    ascii_bytes, ascii_text, no_nul_char, windows_1252_decoded, windows_1252_encoded, CODEC_MAX_LEN,
};
pub use order::{lemma_lex_cmp_consistent, lex_cmp, reversed};
pub use owned::{lemma_string_order_by_bytes, Latin1Cow, Latin1String};
pub use scan::{first_nul_at, nul_free};
pub use view::{lemma_view_order_by_bytes, Latin1Str};
