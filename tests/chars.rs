use std::borrow::Borrow;
use std::collections::hash_map::DefaultHasher;
use std::hash::{Hash, Hasher};

use bytes::Bytes;
use protobuf_chars::chars::{Chars, Utf8Error};

#[test]
fn test_display_and_debug() {
    let s = "test";
    let string: String = s.into();
    let chars: Chars = s.into();

    assert_eq!(format!("{}", string), chars.to_string());
    assert_eq!(format!("{:?}", string), chars.to_debug_string());
}

#[test]
fn static_empty_matches_validated_empty() {
    let c = Chars::from_static("");
    assert_eq!(c.len(), 0);
    assert!(c.is_empty());
    assert_eq!(c.to_string(), "");
    let d = Chars::from_bytes(Bytes::new()).unwrap();
    assert!(c == d);
    assert!(Chars::new() == c);
    assert!(Chars::default() == c);
}

#[test]
fn validate_cafe() {
    let c = Chars::from_bytes(Bytes::from("café".as_bytes().to_vec())).unwrap();
    assert_eq!(c.len(), 5);
    assert!(!c.is_empty());
    assert_eq!(c.as_str(), "café");
    assert_eq!(&*c, "café");
}

#[test]
fn invalid_byte_reports_offset() {
    let r = Chars::from_bytes(Bytes::from(vec![0x63u8, 0x61, 0xFF, 0x66, 0x65]));
    assert_eq!(r.err(), Some(Utf8Error { valid_up_to: 2 }));
}

#[test]
fn truncated_sequence_reports_offset() {
    // "ab" then the first two bytes of a three-byte sequence
    let r = Chars::from_bytes(Bytes::from(vec![0x61u8, 0x62, 0xE2, 0x82]));
    assert_eq!(r.err().map(|e| e.valid_up_to), Some(2));
    // a lone surrogate encoding is refused at its first byte
    let r = Chars::from_bytes(Bytes::from(vec![0x78u8, 0xED, 0xA0, 0x80]));
    assert_eq!(r.err().map(|e| e.valid_up_to), Some(1));
}

#[test]
fn valid_bytes_borrow_as_same_text() {
    let text = "zero-copy ✓ 𝄞";
    let c = Chars::from_bytes(Bytes::from_static(text.as_bytes())).unwrap();
    assert_eq!(c.as_str(), text);
    assert_eq!(c.len(), text.len());
}

#[test]
fn clear_keeps_other_clones() {
    let original = Chars::from("test");
    let mut first = original.clone();
    let second = original.clone();
    first.clear();
    assert_eq!(first.len(), 0);
    assert!(first.is_empty());
    assert_eq!(second.len(), 4);
    assert_eq!(second.as_str(), "test");
    assert_eq!(original.len(), 4);
    assert_eq!(original.as_str(), "test");
}

#[test]
fn clear_twice_same_as_once() {
    let mut c = Chars::from(String::from("abc"));
    c.clear();
    assert!(c.is_empty());
    c.clear();
    assert!(c.is_empty());
    assert_eq!(c.len(), 0);
    assert!(c == Chars::new());
}

#[test]
fn display_and_debug_match_str_with_escapes() {
    let s = "say \"hi\"\n\ttab é";
    let c = Chars::from_static(s);
    assert_eq!(format!("{}", s), c.to_string());
    assert_eq!(format!("{:?}", s), c.to_debug_string());
}

#[test]
fn string_round_trip() {
    for s in ["", "a", "café", "日本語", "mixed ascii and ünïcödé"] {
        let c = Chars::from(String::from(s));
        let back: String = c.into();
        assert_eq!(back, s);
        let c = Chars::from(s);
        let back: String = c.into();
        assert_eq!(back, s);
    }
}

#[test]
fn equality_is_by_content() {
    let a = Chars::from("shared");
    let b = Chars::from_bytes(Bytes::from(b"shared".to_vec())).unwrap();
    let c = Chars::from(String::from("shared"));
    assert!(a == b);
    assert!(b == c);
    assert!(a == a.clone());
    assert!(a == "shared");
    assert!(!(a == "other"));
    assert!(a != Chars::from("other"));
}

#[test]
fn ordering_is_by_bytes() {
    let a = Chars::from("abc");
    let b = Chars::from("abd");
    let p = Chars::from("ab");
    assert!(a < b);
    assert!(p < a);
    assert_eq!(a.cmp(&a.clone()), std::cmp::Ordering::Equal);
    assert_eq!(b.partial_cmp(&a), Some(std::cmp::Ordering::Greater));
}

#[test]
fn hash_matches_equal_values() {
    let h = |c: &Chars| {
        let mut s = DefaultHasher::new();
        c.hash(&mut s);
        s.finish()
    };
    let a = Chars::from("key");
    let b = Chars::from_bytes(Bytes::from(b"key".to_vec())).unwrap();
    assert_eq!(h(&a), h(&b));
}

#[test]
fn into_bytes_returns_the_buffer() {
    let c = Chars::from("bytes");
    let b = c.into_bytes();
    assert_eq!(&b[..], b"bytes");
    let again = Chars::from_bytes(b).unwrap();
    assert_eq!(again.as_str(), "bytes");
}

#[test]
fn borrow_as_str() {
    let c = Chars::from("borrowed");
    let s: &str = c.borrow();
    assert_eq!(s, "borrowed");
}
