use pocketsphinx::text::{check_text, decode_optional, decode_text, has_nul};
use pocketsphinx::Error;

#[test]
fn nul_is_found_anywhere() {
    assert!(!has_nul(""));
    assert!(!has_nul("hello world"));
    assert!(has_nul("\0"));
    assert!(has_nul("a\0b"));
    assert!(has_nul("ab\0"));
    assert!(!has_nul("h\u{e9}llo"));
}

#[test]
fn check_text_refuses_nul() {
    assert_eq!(check_text("turn on"), Ok(()));
    assert_eq!(check_text("turn\0on"), Err(Error::InvalidString));
}

#[test]
fn decode_text_gives_the_text() {
    assert_eq!(decode_text(b"hello"), Ok("hello".to_string()));
    assert_eq!(decode_text(b""), Ok(String::new()));
    assert_eq!(decode_text(&[0xc3, 0xa9]), Ok("\u{e9}".to_string()));
}

#[test]
fn decode_text_refuses_bad_bytes() {
    assert_eq!(decode_text(&[0xff, 0xfe]), Err(Error::InvalidString));
    assert_eq!(decode_text(&[0x68, 0xc3]), Err(Error::InvalidString));
}

#[test]
fn decode_optional_passes_absence_on() {
    assert_eq!(decode_optional(None), Ok(None));
    assert_eq!(decode_optional(Some(b"abc")), Ok(Some("abc".to_string())));
    assert_eq!(decode_optional(Some(&[0x80])), Err(Error::InvalidString));
}
