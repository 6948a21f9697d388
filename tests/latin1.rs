use std::borrow::Cow;
use std::cmp::Ordering;
use std::io::{BufRead, Cursor, Read};

use latin1str::{Latin1Cow, Latin1Str, Latin1String};

fn read_from(cur: &mut Cursor<&[u8]>) -> Latin1String {
    let mut buf: Vec<u8> = Vec::new();
    cur.read_until(0x00, &mut buf).unwrap();
    Latin1String::read_cstring(buf)
}

fn decoded_text(b: &[u8]) -> String {
    Latin1Str::from_bytes_until_nul(b).decode().into_owned()
}

fn encoded_bytes(s: &str) -> Vec<u8> {
    Latin1String::encode(s).as_bytes().to_vec()
}

#[test]
fn until_nul_keeps_bytes_without_terminator() {
    let s = Latin1Str::from_bytes_until_nul(b"Hello World!");
    assert_eq!(s.as_bytes(), b"Hello World!");
    let high: &[u8] = &[0x01, 0x7F, 0x80, 0xFF];
    assert_eq!(Latin1Str::from_bytes_until_nul(high).as_bytes(), high);
}

#[test]
fn until_nul_stops_at_first_terminator() {
    let s = Latin1Str::from_bytes_until_nul(b"Hello\0World!");
    assert_eq!(s.as_bytes(), b"Hello");
    let s = Latin1Str::from_bytes_until_nul(b"ab\0c\0d");
    assert_eq!(s.as_bytes(), b"ab");
    let s = Latin1Str::from_bytes_until_nul(b"\0abc");
    assert_eq!(s.as_bytes(), b"");
    assert!(s.is_empty());
}

#[test]
fn new_is_an_alias() {
    assert_eq!(Latin1Str::new(b"x\0y").as_bytes(), b"x");
    assert_eq!(Latin1Str::new(b"xy").as_bytes(), b"xy");
}

#[test]
fn unchecked_view_keeps_bytes() {
    let s = Latin1Str::from_bytes_unchecked(b"Fr\xFChling");
    assert_eq!(s.as_bytes(), b"Fr\xFChling");
    assert_eq!(s.len(), 8);
}

#[test]
fn emptiness_and_length() {
    assert!(Latin1Str::from_bytes_until_nul(b"").is_empty());
    assert!(!Latin1Str::from_bytes_until_nul(b"a").is_empty());
    assert_eq!(Latin1Str::from_bytes_until_nul(b"abc").len(), 3);
    assert_eq!(Latin1Str::from_bytes_until_nul(b"").len(), 0);
}

#[test]
fn encode_ascii_is_borrowed() {
    let text = "Hello World!";
    let r = Latin1String::encode(text);
    assert_eq!(r.as_bytes(), b"Hello World!");
    assert!(matches!(r, Latin1Cow::Borrowed(_)));
    match r {
        Latin1Cow::Borrowed(v) => assert_eq!(v.as_bytes().as_ptr(), text.as_ptr()),
        Latin1Cow::Owned(_) => panic!("ASCII text must be borrowed"),
    }
    assert!(matches!(Latin1String::encode(""), Latin1Cow::Borrowed(_)));
}

#[test]
fn encode_non_ascii_is_owned() {
    let r = Latin1String::encode("Frühling");
    assert_eq!(r.as_bytes(), b"Fr\xFChling");
    assert!(matches!(r, Latin1Cow::Owned(_)));
}

#[test]
fn encode_u_umlaut_gives_fc() {
    assert_eq!(encoded_bytes("ü"), vec![0xFC]);
    assert_eq!(encoded_bytes("€"), vec![0x80]);
}

#[test]
fn encode_unmappable_gives_character_reference() {
    assert_eq!(encoded_bytes("a日b"), b"a&#26085;b".to_vec());
}

#[test]
fn decode_fc_gives_u_umlaut() {
    assert_eq!(decoded_text(b"\xFC"), "ü");
    assert_eq!(decoded_text(b"Fr\xFChling"), "Frühling");
    assert_eq!(decoded_text(b"\x80"), "€");
}

#[test]
fn decode_ascii_is_borrowed() {
    let bytes: &[u8] = b"plain";
    let d = Latin1Str::from_bytes_until_nul(bytes).decode();
    assert_eq!(d.as_ref(), "plain");
    assert!(matches!(d, Cow::Borrowed(_)));
    let d = Latin1Str::from_bytes_until_nul(b"\xE9").decode();
    assert!(matches!(d, Cow::Owned(_)));
    assert_eq!(d.as_ref(), "é");
}

#[test]
fn decode_then_encode_is_stable() {
    let b: &[u8] = &[0x41, 0x81, 0x8D, 0xFC, 0x80, 0x9F, 0xFF];
    let once = encoded_bytes(&decoded_text(b));
    let twice = encoded_bytes(&decoded_text(&once));
    assert_eq!(once, twice);
    assert_eq!(once, b.to_vec());
}

#[test]
fn read_stops_at_terminator_and_leaves_rest() {
    let data: &[u8] = b"Hello\0World";
    let mut cur = Cursor::new(data);
    let s = read_from(&mut cur);
    assert_eq!(s.as_bytes(), b"Hello");
    let mut rest = Vec::new();
    cur.read_to_end(&mut rest).unwrap();
    assert_eq!(rest, b"World".to_vec());
}

#[test]
fn read_without_terminator_keeps_all() {
    let data: &[u8] = b"NoTerminator";
    let mut cur = Cursor::new(data);
    let s = read_from(&mut cur);
    assert_eq!(s.as_bytes(), b"NoTerminator");
}

#[test]
fn read_terminated_consumes_everything() {
    let data: &[u8] = b"Hello World!\0";
    let mut cur = Cursor::new(data);
    let s = read_from(&mut cur);
    assert_eq!(s.decode().as_ref(), "Hello World!");
    assert_eq!(cur.read(&mut []).ok(), Some(0));
}

#[test]
fn read_cstring_drops_terminator() {
    assert_eq!(Latin1String::read_cstring(b"abc\0".to_vec()).as_bytes(), b"abc");
    assert_eq!(Latin1String::read_cstring(b"abc".to_vec()).as_bytes(), b"abc");
    assert!(Latin1String::read_cstring(b"\0".to_vec()).is_empty());
    assert!(Latin1String::read_cstring(Vec::new()).is_empty());
}

#[test]
fn owned_string_views_and_copies() {
    let owned = Latin1String::new(b"Fr\xFChling".to_vec().into_boxed_slice());
    assert_eq!(owned.len(), 8);
    assert!(!owned.is_empty());
    assert_eq!(owned.as_latin1_str().as_bytes(), b"Fr\xFChling");
    assert_eq!(owned.decode().as_ref(), "Frühling");
    let view = Latin1Str::from_bytes_until_nul(b"abc\0d");
    let copy = view.to_owned();
    assert_eq!(copy.as_bytes(), b"abc");
    assert_ne!(copy.as_bytes().as_ptr(), view.as_bytes().as_ptr());
}

#[test]
fn cow_into_owned_keeps_bytes() {
    assert_eq!(Latin1String::encode("abc").into_owned().as_bytes(), b"abc");
    assert_eq!(Latin1String::encode("äb").into_owned().as_bytes(), b"\xE4b");
}

#[test]
fn from_encoded_keeps_kind() {
    let b = Latin1String::from_encoded(Cow::Borrowed(&b"xy"[..]));
    assert!(matches!(b, Latin1Cow::Borrowed(_)));
    assert_eq!(b.as_bytes(), b"xy");
    let o = Latin1String::from_encoded(Cow::Owned(vec![0xE4, 0x41]));
    assert!(matches!(o, Latin1Cow::Owned(_)));
    assert_eq!(o.as_bytes(), b"\xE4A");
}

#[test]
fn equality_is_bytewise() {
    let a = Latin1Str::from_bytes_until_nul(b"abc");
    let b = Latin1Str::from_bytes_until_nul(b"abc\0zzz");
    let c = Latin1Str::from_bytes_until_nul(b"abd");
    assert!(a == b);
    assert!(a != c);
    assert!(a.to_owned() == b.to_owned());
    assert!(a.to_owned() != c.to_owned());
}

#[test]
fn ordering_is_lexicographic_on_bytes() {
    let a = Latin1Str::from_bytes_until_nul(b"ab");
    let b = Latin1Str::from_bytes_until_nul(b"abc");
    let c = Latin1Str::from_bytes_until_nul(b"b");
    let hi = Latin1Str::from_bytes_until_nul(b"\xFC");
    let lo = Latin1Str::from_bytes_until_nul(b"z");
    assert_eq!(a.partial_cmp(&b), Some(Ordering::Less));
    assert_eq!(b.partial_cmp(&c), Some(Ordering::Less));
    assert_eq!(c.partial_cmp(&a), Some(Ordering::Greater));
    assert_eq!(a.partial_cmp(&a), Some(Ordering::Equal));
    assert!(lo < hi);
    assert_eq!(a.cmp(&b), Ordering::Less);
    assert!(a.to_owned() < b.to_owned());
    assert_eq!(hi.to_owned().partial_cmp(&lo.to_owned()), Some(Ordering::Greater));
}
