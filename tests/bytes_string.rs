use bytes::Bytes;
use bytes_string::BytesString;
use std::borrow::Borrow;
use std::cmp::Ordering;
use std::collections::hash_map::DefaultHasher;
use std::hash::{Hash, Hasher};

fn hash_of(s: &BytesString) -> u64 {
    let mut h = DefaultHasher::new();
    s.hash(&mut h);
    h.finish()
}

#[test]
fn checked_construction_accepts_valid_utf8() {
    let raw = "h\u{e9}llo \u{1f600}".as_bytes().to_vec();
    let s = BytesString::from_utf8(Bytes::from(raw.clone())).unwrap();
    assert_eq!(s.as_slice(), &raw[..]);
    assert_eq!(s.as_str(), "h\u{e9}llo \u{1f600}");
    assert_eq!(&s.as_bytes()[..], &raw[..]);
}

#[test]
fn checked_construction_accepts_empty() {
    let s = BytesString::from_utf8(Bytes::new()).unwrap();
    assert_eq!(s.as_slice().len(), 0);
    assert_eq!(s.as_str(), "");
}

#[test]
fn checked_construction_rejects_truncated_sequence() {
    let r = BytesString::from_utf8(Bytes::from(vec![0x61u8, 0xe2, 0x82]));
    assert!(r.is_err());
}

#[test]
fn checked_construction_rejects_stray_continuation_byte() {
    let r = BytesString::from_utf8(Bytes::from(vec![0x80u8]));
    assert!(r.is_err());
}

#[test]
fn checked_construction_rejects_surrogate_and_overlong() {
    assert!(BytesString::from_utf8(Bytes::from(vec![0xedu8, 0xa0, 0x80])).is_err());
    assert!(BytesString::from_utf8(Bytes::from(vec![0xc0u8, 0xaf])).is_err());
    assert!(BytesString::from_utf8(Bytes::from(vec![0xffu8])).is_err());
}

#[test]
fn checked_construction_error_reports_valid_prefix() {
    let err = BytesString::from_utf8(Bytes::from(vec![0x61u8, 0x62, 0xff])).unwrap_err();
    assert_eq!(err.valid_up_to(), 2);
}

#[test]
fn unchecked_construction_keeps_bytes() {
    let s = BytesString::from_utf8_unchecked(Bytes::from(vec![0x61u8, 0x62, 0x63]));
    assert_eq!(s.as_str(), "abc");
    assert_eq!(s.as_slice(), b"abc");
}

#[test]
fn from_string_round_trips() {
    let s = BytesString::from(String::from("gr\u{fc}\u{df}e"));
    assert_eq!(s.as_str(), "gr\u{fc}\u{df}e");
    let t = BytesString::from_string(String::from("x"));
    assert_eq!(t.as_str(), "x");
}

#[test]
fn from_str_round_trips() {
    let s = BytesString::from("\u{65e5}\u{672c}");
    assert_eq!(s.as_str(), "\u{65e5}\u{672c}");
    assert_eq!(s.as_slice(), "\u{65e5}\u{672c}".as_bytes());
    let t = BytesString::from_str_slice("");
    assert_eq!(t.as_str(), "");
}

#[test]
fn empty_equals_default() {
    let e = BytesString::empty();
    assert_eq!(e.as_slice().len(), 0);
    assert_eq!(e.as_bytes().len(), 0);
    assert_eq!(e.as_str(), "");
    let d = BytesString::default();
    assert!(e == d);
    assert_eq!(hash_of(&e), hash_of(&d));
}

#[test]
fn clone_survives_drop_of_original() {
    let a = BytesString::from_utf8(Bytes::from(vec![0x61u8, 0x62, 0x63])).unwrap();
    let b = a.clone();
    drop(a);
    assert_eq!(b.as_str(), "abc");
    assert_eq!(b.as_slice(), b"abc");
}

#[test]
fn clone_shares_buffer() {
    let a = BytesString::from("shared");
    let b = a.clone();
    assert_eq!(a.as_slice().as_ptr(), b.as_slice().as_ptr());
}

#[test]
fn equality_is_by_content() {
    let a = BytesString::from_utf8_unchecked(Bytes::from(vec![0x61u8, 0x62, 0x63]));
    let b = BytesString::from("abc");
    let c = BytesString::from(String::from("abc"));
    assert!(a == b);
    assert!(b == c);
    assert_eq!(hash_of(&a), hash_of(&b));
    assert_eq!(hash_of(&b), hash_of(&c));
    assert!(a != BytesString::from("abd"));
    assert!(a != BytesString::from("ab"));
}

#[test]
fn ordering_follows_text() {
    let a = BytesString::from("a");
    let b = BytesString::from("b");
    let ba = BytesString::from("ba");
    assert!(a < b);
    assert!(b < ba);
    assert!(a < ba);
    assert_eq!(a.partial_cmp(&b), Some(Ordering::Less));
    assert_eq!(ba.partial_cmp(&b), Some(Ordering::Greater));
    assert_eq!(b.partial_cmp(&BytesString::from("b")), Some(Ordering::Equal));
    assert_eq!(a.cmp(&ba), Ordering::Less);
    assert_eq!(BytesString::empty().partial_cmp(&a), Some(Ordering::Less));
}

#[test]
fn ordering_compares_bytes_not_lengths() {
    let z = BytesString::from("z");
    let long = BytesString::from("aaaa");
    assert!(long < z);
    let accented = BytesString::from("\u{e9}");
    assert!(z < accented);
}

#[test]
fn accessors_are_idempotent() {
    let s = BytesString::from("repeat");
    assert_eq!(s.as_slice(), s.as_slice());
    assert_eq!(s.as_str(), s.as_str());
    assert_eq!(s.as_bytes(), s.as_bytes());
    assert_eq!(s.as_str().as_bytes(), s.as_slice());
    assert_eq!(&s.as_bytes()[..], s.as_slice());
}

#[test]
fn trait_views_agree() {
    let s = BytesString::from("view");
    let as_str: &str = s.as_ref();
    let as_slice: &[u8] = s.as_ref();
    let as_bytes: &Bytes = s.as_ref();
    let borrowed_slice: &[u8] = s.borrow();
    let borrowed_bytes: &Bytes = s.borrow();
    assert_eq!(as_str, "view");
    assert_eq!(as_slice, b"view");
    assert_eq!(&as_bytes[..], b"view");
    assert_eq!(borrowed_slice, b"view");
    assert_eq!(&borrowed_bytes[..], b"view");
    assert_eq!(s.len(), 4);
    assert!(s.starts_with("vi"));
}

#[test]
fn to_string_renders_text() {
    let s = BytesString::from("display me");
    assert_eq!(s.to_string(), String::from("display me"));
    assert_eq!(BytesString::empty().to_string(), String::new());
}

#[test]
fn equality_against_other_text_values() {
    let a = BytesString::from("abc");
    assert!(a == "abc");
    assert!(a == *"abc");
    assert!(a == String::from("abc"));
    assert!(!(a == "abd"));
    assert!(!(a == "ab"));
    assert!(!(a == String::from("abcd")));
    assert!(!(a == BytesString::from("abcd")));
    assert!(BytesString::empty() == "");
}

#[test]
fn ordering_against_other_text_values() {
    let b = BytesString::from("b");
    assert!(b > "a");
    assert!(b < "ba");
    assert!(b < String::from("ba"));
    assert_eq!(b.partial_cmp("b"), Some(Ordering::Equal));
    assert_eq!(b.partial_cmp(&"a"), Some(Ordering::Greater));
    assert_eq!(b.partial_cmp(&String::from("c")), Some(Ordering::Less));
}
